use rps_core::codec::{classify_byte, is_move, ping_check, ServerByte, ABORT_GAME, KEEPALIVE, NEW_GAME, SHUTDOWN};
use rps_core::{GameOutcome, Move, ProtocolError};

#[test]
fn it_works() {
    assert_eq!(2 + 2, 4);
}

#[test]
fn decode_then_encode_returns_the_byte() {
    for b in [b'r', b'p', b's'] {
        let m = Move::try_from(b).expect("a valid move byte decodes");
        assert_eq!(m.into_u8(), b);
    }
}

#[test]
fn decode_fails_on_every_other_byte() {
    for b in 0..=255u8 {
        if b == b'r' || b == b'p' || b == b's' {
            assert!(Move::try_from(b).is_ok());
            assert!(is_move(b));
        } else {
            assert_eq!(Move::try_from(b), Err(ProtocolError::NotAMove(b)));
            assert!(!is_move(b));
        }
    }
}

#[test]
fn outcomes_are_inverse_and_tie_on_equal() {
    let moves = [Move::Rock, Move::Paper, Move::Scissor];
    for a in moves {
        for b in moves {
            let ab = a.game_outcome(b);
            let ba = b.game_outcome(a);
            if a == b {
                assert_eq!(ab, GameOutcome::Tie);
                assert_eq!(ba, GameOutcome::Tie);
            } else {
                assert_eq!(ab == GameOutcome::Win, ba == GameOutcome::Lose);
                assert_eq!(ab == GameOutcome::Lose, ba == GameOutcome::Win);
                assert_ne!(ab, GameOutcome::Tie);
            }
        }
    }
}

#[test]
fn beats_relation_is_the_fixed_cycle() {
    assert_eq!(Move::Rock.game_outcome(Move::Scissor), GameOutcome::Win);
    assert_eq!(Move::Scissor.game_outcome(Move::Paper), GameOutcome::Win);
    assert_eq!(Move::Paper.game_outcome(Move::Rock), GameOutcome::Win);
    assert_eq!(Move::Scissor.game_outcome(Move::Rock), GameOutcome::Lose);
    assert_eq!(Move::Paper.game_outcome(Move::Scissor), GameOutcome::Lose);
    assert_eq!(Move::Rock.game_outcome(Move::Paper), GameOutcome::Lose);
}

#[test]
fn end_encoding_toggles_case_and_is_its_own_inverse() {
    for m in [Move::Rock, Move::Paper, Move::Scissor] {
        let plain = m.into_u8();
        let end = m.into_u8_end();
        assert_eq!(end, plain ^ 0x20);
        assert!((b'A'..=b'Z').contains(&end));
        let unmasked = end ^ 0x20;
        assert_eq!(unmasked, plain);
        assert_eq!(Move::try_from(unmasked), Ok(m));
    }
    assert_eq!(Move::Rock.into_u8_end(), b'R');
    assert_eq!(Move::Paper.into_u8_end(), b'P');
    assert_eq!(Move::Scissor.into_u8_end(), b'S');
}

#[test]
fn relay_byte_picks_the_final_form_only_on_the_final_round() {
    assert_eq!(Move::Rock.relay_byte(false), b'r');
    assert_eq!(Move::Rock.relay_byte(true), b'R');
    assert_eq!(Move::Scissor.relay_byte(false), b's');
    assert_eq!(Move::Scissor.relay_byte(true), b'S');
}

#[test]
fn classify_recognises_the_whole_alphabet() {
    assert_eq!(classify_byte(NEW_GAME), ServerByte::Start);
    assert_eq!(classify_byte(ABORT_GAME), ServerByte::Abort);
    assert_eq!(classify_byte(SHUTDOWN), ServerByte::Shutdown);
    assert_eq!(classify_byte(KEEPALIVE), ServerByte::Keepalive);
    assert_eq!(classify_byte(b'r'), ServerByte::Relay(Move::Rock, false));
    assert_eq!(classify_byte(b'p'), ServerByte::Relay(Move::Paper, false));
    assert_eq!(classify_byte(b's'), ServerByte::Relay(Move::Scissor, false));
    assert_eq!(classify_byte(b'R'), ServerByte::Relay(Move::Rock, true));
    assert_eq!(classify_byte(b'P'), ServerByte::Relay(Move::Paper, true));
    assert_eq!(classify_byte(b'S'), ServerByte::Relay(Move::Scissor, true));
    assert_eq!(classify_byte(b'z'), ServerByte::Bad(b'z'));
    assert_eq!(classify_byte(b'A'), ServerByte::Bad(b'A'));
    assert_eq!(classify_byte(0), ServerByte::Bad(0));
}

#[test]
fn ping_succeeds_only_on_an_identical_echo() {
    assert_eq!(ping_check(KEEPALIVE), Ok(()));
    assert_eq!(ping_check(b'x'), Err(ProtocolError::PingMismatch(b'x')));
    assert_eq!(ping_check(0), Err(ProtocolError::PingMismatch(0)));
}
