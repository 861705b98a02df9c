use rps_core::handshake::{encode_handshake, parse_handshake};
use rps_core::listener::{accept_step, shutdown_step, AcceptEvent, ListenAction, ShutdownCheck};
use rps_core::{BattleState, ListenMessage, Move, ProtocolError, Registry};

#[test]
fn handshake_accepts_a_name_of_exactly_255_bytes() {
    let name: String = "n".repeat(255);
    let mut tail = name.clone().into_bytes();
    tail.push(b'\n');
    assert_eq!(tail.len(), 256);
    let parsed = parse_handshake(255, &tail).expect("a 255-byte UTF-8 name is accepted");
    assert_eq!(parsed, name);
}

#[test]
fn handshake_accepts_an_empty_name() {
    let tail = [b'\n'];
    assert_eq!(parse_handshake(0, &tail), Ok(String::new()));
}

#[test]
fn handshake_rejects_invalid_utf8() {
    let tail = [0xff, 0xfe, b'\n'];
    assert_eq!(parse_handshake(2, &tail), Err(ProtocolError::BadUtf8));
}

#[test]
fn handshake_keeps_multibyte_names() {
    let name = "héllo";
    let mut tail = name.as_bytes().to_vec();
    let len = tail.len() as u8;
    tail.push(b'\n');
    assert_eq!(parse_handshake(len, &tail), Ok(name.to_string()));
}

#[test]
fn handshake_frame_is_length_name_terminator() {
    let frame = encode_handshake("abc");
    assert_eq!(frame, vec![3, b'a', b'b', b'c', b'\n']);
    let empty = encode_handshake("");
    assert_eq!(empty, vec![0, b'\n']);
}

#[test]
fn handshake_frame_round_trips_through_parse() {
    let frame = encode_handshake("bot one");
    let len = frame[0];
    assert_eq!(parse_handshake(len, &frame[1..]), Ok("bot one".to_string()));
}

#[test]
fn battle_all_rock_against_scissor_for_ten_rounds() {
    let mut battle = BattleState::new(10);
    for round in 0..10 {
        let fin = battle.record_round(Move::Rock, Move::Scissor);
        assert_eq!(fin, round == 9);
    }
    assert!(battle.finished());
    let result = battle.result();
    assert_eq!(result.wins1, 10);
    assert_eq!(result.wins2, 0);
    assert_eq!(result.ties, 0);
}

#[test]
fn battle_all_paper_against_paper_for_five_rounds() {
    let mut battle = BattleState::new(5);
    for round in 0..5 {
        let fin = battle.record_round(Move::Paper, Move::Paper);
        assert_eq!(fin, round == 4);
    }
    assert!(battle.finished());
    let result = battle.result();
    assert_eq!(result.wins1, 0);
    assert_eq!(result.wins2, 0);
    assert_eq!(result.ties, 5);
}

#[test]
fn relay_crosses_the_moves() {
    let (to_bot1, to_bot2) = BattleState::relay_moves(Move::Rock, Move::Paper);
    assert_eq!(to_bot1, Move::Paper);
    assert_eq!(to_bot2, Move::Rock);
}

#[test]
fn battle_mixed_rounds_count_each_outcome() {
    let mut battle = BattleState::new(3);
    assert!(!battle.record_round(Move::Rock, Move::Scissor));
    assert!(!battle.record_round(Move::Rock, Move::Paper));
    assert!(battle.record_round(Move::Rock, Move::Rock));
    let result = battle.result();
    assert_eq!((result.wins1, result.wins2, result.ties), (1, 1, 1));
}

#[test]
fn registry_evicts_only_the_failing_entry_and_shifts_later_indices() {
    let mut reg = Registry::new();
    assert!(reg.has_capacity());
    let id_a = reg.register("alpha".to_string());
    let id_b = reg.register("beta".to_string());
    let id_c = reg.register("gamma".to_string());
    assert_eq!(reg.len(), 3);
    assert_ne!(id_a, id_b);
    assert_ne!(id_b, id_c);

    // the second connection fails its ping
    reg.evict_failed(&vec![false, true, false]);

    assert_eq!(reg.len(), 2);
    assert_eq!(reg.name_at(0).as_str(), "alpha");
    assert_eq!(reg.name_at(1).as_str(), "gamma");
    assert_eq!(reg.id_at(0), id_a);
    assert_eq!(reg.id_at(1), id_c);
}

#[test]
fn registry_eviction_can_clear_everything() {
    let mut reg = Registry::new();
    reg.register("one".to_string());
    reg.register("two".to_string());
    reg.evict_failed(&vec![true, true]);
    assert_eq!(reg.len(), 0);
    reg.evict_failed(&vec![]);
    assert_eq!(reg.len(), 0);
}

#[test]
fn registry_checks_battle_index_pairs() {
    let mut reg = Registry::new();
    reg.register("one".to_string());
    reg.register("two".to_string());
    assert!(reg.valid_pair(0, 1));
    assert!(reg.valid_pair(1, 0));
    assert!(!reg.valid_pair(0, 0));
    assert!(!reg.valid_pair(0, 2));
    assert!(!reg.valid_pair(2, 1));
}

#[test]
fn listener_reacts_to_each_accept_event() {
    assert_eq!(accept_step(AcceptEvent::Handshaken), ListenAction::PublishConnection);
    assert_eq!(accept_step(AcceptEvent::HandshakeFailed), ListenAction::PublishFailure);
    assert_eq!(accept_step(AcceptEvent::WouldBlock), ListenAction::YieldAndRetry);
    assert_eq!(accept_step(AcceptEvent::AcceptError), ListenAction::StopFatal);
}

#[test]
fn listener_stops_on_shutdown_or_a_lost_controller() {
    assert!(shutdown_step(ShutdownCheck::Requested));
    assert!(shutdown_step(ShutdownCheck::Disconnected));
    assert!(!shutdown_step(ShutdownCheck::Empty));
}

#[test]
fn listen_messages_carry_their_diagnostics() {
    let with_err = ListenMessage::new("Handshake failed.", "connection reset".to_string());
    assert_eq!(with_err.desc, "Handshake failed.");
    assert_eq!(with_err.err.as_deref(), Some("connection reset"));
    let plain = ListenMessage::new_str("Shutdown disconnected.");
    assert_eq!(plain.desc, "Shutdown disconnected.");
    assert!(plain.err.is_none());
}
