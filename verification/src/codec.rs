//! The wire codec: the single-byte protocol alphabet, move encoding and
//! decoding, the beats-relation between moves, and classification of the
//! bytes a peer may receive. Pure translation; no I/O.

use vstd::prelude::*;

verus! {

/// A move played in one round.
#[derive(Clone, Copy, Debug, PartialEq, Eq, Structural)]
pub enum Move {
    Rock,
    Paper,
    Scissor,
}

/// The outcome of one round, seen from the first player's side.
#[derive(Clone, Copy, Debug, PartialEq, Eq, Structural)]
pub enum GameOutcome {
    Win,
    Lose,
    Tie,
}

/// A protocol violation detected by the codec or by a connection operation.
/// Transport failures are the transport's own; these are the core's.
#[derive(Clone, Copy, Debug, PartialEq, Eq, Structural)]
pub enum ProtocolError {
    /// A byte arrived where a move byte was expected but is none.
    NotAMove(u8),
    /// The name bytes of a handshake are not valid UTF-8.
    BadUtf8,
    /// A keepalive probe was answered with a byte other than the probe.
    PingMismatch(u8),
}

/// Control byte a server sends to start a battle (`n`).
pub const NEW_GAME: u8 = 110;

/// Control byte a server sends to tear a battle down early (`e`).
pub const ABORT_GAME: u8 = 101;

/// Control byte a server sends when a connection closes permanently (`x`).
pub const SHUTDOWN: u8 = 120;

/// Keepalive probe and echo byte (a space); the correct echo is the probe itself.
pub const KEEPALIVE: u8 = 32;

/// The byte that encodes a move on the wire.
pub open spec fn encode_spec(m: Move) -> u8 {
    match m {
        Move::Rock => 114u8,
        Move::Paper => 112u8,
        Move::Scissor => 115u8,
    }
}

/// The byte that a move decodes from, if any: `r`, `p` or `s`, case-sensitive.
pub open spec fn decode_spec(b: u8) -> Option<Move> {
    if b == 114u8 {
        Some(Move::Rock)
    } else if b == 112u8 {
        Some(Move::Paper)
    } else if b == 115u8 {
        Some(Move::Scissor)
    } else {
        None
    }
}

impl Move {
    /// Decodes a move byte; any byte other than `r`, `p`, `s` is a protocol error.
    pub fn try_from(byte: u8) -> (r: Result<Move, ProtocolError>)
        ensures
            r matches Ok(m) ==> decode_spec(byte) == Some(m),
            r matches Err(e) ==> decode_spec(byte) is None && e == ProtocolError::NotAMove(byte),
    {
        match byte {
            114u8 => Ok(Move::Rock),
            112u8 => Ok(Move::Paper),
            115u8 => Ok(Move::Scissor),
            _ => Err(ProtocolError::NotAMove(byte)),
        }
    }

    /// The plain wire byte for this move.
    pub fn into_u8(self) -> (r: u8)
        ensures
            r == encode_spec(self),
    {
        match self {
            Move::Rock => 114u8,
            Move::Paper => 112u8,
            Move::Scissor => 115u8,
        }
    }

    /// The end-of-battle wire byte for this move: the plain byte with the
    /// case-toggling mask applied.
    pub fn into_u8_end(self) -> (r: u8)
        ensures
            r == encode_end_spec(self),
    {
        self.into_u8() ^ 32
    }

    /// The byte to relay to a peer: the end-of-battle form on the final
    /// round, the plain form otherwise.
    pub fn relay_byte(self, fin: bool) -> (r: u8)
        ensures
            r == if fin { encode_end_spec(self) } else { encode_spec(self) },
    {
        if fin {
            self.into_u8_end()
        } else {
            self.into_u8()
        }
    }

    /// The outcome of a round, from `self`'s side: `Win` when `self` beats
    /// `other` under the fixed beats-relation, `Tie` when they are equal.
    pub fn game_outcome(self, other: Move) -> (r: GameOutcome)
        ensures
            r == outcome_spec(self, other),
    {
        match self {
            Move::Rock => match other {
                Move::Rock => GameOutcome::Tie,
                Move::Paper => GameOutcome::Lose,
                Move::Scissor => GameOutcome::Win,
            },
            Move::Paper => match other {
                Move::Rock => GameOutcome::Win,
                Move::Paper => GameOutcome::Tie,
                Move::Scissor => GameOutcome::Lose,
            },
            Move::Scissor => match other {
                Move::Rock => GameOutcome::Lose,
                Move::Paper => GameOutcome::Win,
                Move::Scissor => GameOutcome::Tie,
            },
        }
    }
}

/// The end-of-battle encoding of a move: its plain byte XOR 0x20.
pub open spec fn encode_end_spec(m: Move) -> u8 {
    encode_spec(m) ^ 32
}

/// The move a move beats: Rock beats Scissor, Scissor beats Paper,
/// Paper beats Rock.
pub open spec fn beats(m: Move) -> Move {
    match m {
        Move::Rock => Move::Scissor,
        Move::Scissor => Move::Paper,
        Move::Paper => Move::Rock,
    }
}

/// The outcome of an ordered pair of moves, from the first move's side.
pub open spec fn outcome_spec(a: Move, b: Move) -> GameOutcome {
    if a == b {
        GameOutcome::Tie
    } else if b == beats(a) {
        GameOutcome::Win
    } else {
        GameOutcome::Lose
    }
}

/// Whether a byte is one of the three valid move bytes.
pub fn is_move(c: u8) -> (r: bool)
    ensures
        r == (decode_spec(c) is Some),
{
    c == 114 || c == 112 || c == 115
}

/// Judges a keepalive echo: the probe succeeds exactly when the peer echoed
/// the probe byte back; any other byte is a protocol violation.
pub fn ping_check(echo: u8) -> (r: Result<(), ProtocolError>)
    ensures
        echo == KEEPALIVE ==> r is Ok,
        echo != KEEPALIVE ==> r == Err::<(), ProtocolError>(ProtocolError::PingMismatch(echo)),
{
    if echo == KEEPALIVE {
        Ok(())
    } else {
        Err(ProtocolError::PingMismatch(echo))
    }
}

/// What one inbound byte means to a peer, position-independent: the protocol
/// alphabet is disjoint, so a byte classifies on its own.
#[derive(Clone, Copy, Debug, PartialEq, Eq, Structural)]
pub enum ServerByte {
    /// The start-of-battle control byte.
    Start,
    /// The early-teardown control byte.
    Abort,
    /// The permanent-close control byte.
    Shutdown,
    /// A keepalive probe; the correct reaction is to echo it.
    Keepalive,
    /// A relayed move; the flag is true when it carries the end-of-battle mask.
    Relay(Move, bool),
    /// A byte outside the protocol alphabet.
    Bad(u8),
}

/// The classification of one inbound byte. An end-of-battle move is detected
/// by the byte falling in the uppercase alphabetic range; it is unmasked
/// before move decoding.
pub open spec fn classify_spec(b: u8) -> ServerByte {
    if b == NEW_GAME {
        ServerByte::Start
    } else if b == ABORT_GAME {
        ServerByte::Abort
    } else if b == SHUTDOWN {
        ServerByte::Shutdown
    } else if b == KEEPALIVE {
        ServerByte::Keepalive
    } else if 65 <= b && b <= 90 {
        match decode_spec(b ^ 32) {
            Some(m) => ServerByte::Relay(m, true),
            None => ServerByte::Bad(b),
        }
    } else {
        match decode_spec(b) {
            Some(m) => ServerByte::Relay(m, false),
            None => ServerByte::Bad(b),
        }
    }
}

/// Classifies one inbound byte, never looking beyond it.
pub fn classify_byte(b: u8) -> (r: ServerByte)
    ensures
        r == classify_spec(b),
{
    if b == NEW_GAME {
        ServerByte::Start
    } else if b == ABORT_GAME {
        ServerByte::Abort
    } else if b == SHUTDOWN {
        ServerByte::Shutdown
    } else if b == KEEPALIVE {
        ServerByte::Keepalive
    } else if 65 <= b && b <= 90 {
        match Move::try_from(b ^ 32) {
            Ok(m) => ServerByte::Relay(m, true),
            Err(_) => ServerByte::Bad(b),
        }
    } else {
        match Move::try_from(b) {
            Ok(m) => ServerByte::Relay(m, false),
            Err(_) => ServerByte::Bad(b),
        }
    }
}

/// Law: decoding a valid move byte and re-encoding the move returns the
/// original byte, and decoding fails exactly on the bytes that encode no
/// move; encoding then decoding gives the move back.
pub proof fn lemma_decode_encode_round_trip(b: u8, m: Move)
    ensures
        decode_spec(b) matches Some(d) ==> encode_spec(d) == b,
        (decode_spec(b) is Some) <==> (b == 114 || b == 112 || b == 115),
        decode_spec(encode_spec(m)) == Some(m),
{
}

/// Law: the outcome relation is inverse under swapping sides (one side's Win
/// is the other side's Lose), equal moves tie both ways, and Win holds
/// exactly of a move paired with the move it beats.
pub proof fn lemma_outcome_inverse(a: Move, b: Move)
    ensures
        a == b ==> outcome_spec(a, b) == GameOutcome::Tie && outcome_spec(b, a) == GameOutcome::Tie,
        a != b ==> ((outcome_spec(a, b) == GameOutcome::Win) <==> (outcome_spec(b, a)
            == GameOutcome::Lose)),
        a != b ==> ((outcome_spec(a, b) == GameOutcome::Lose) <==> (outcome_spec(b, a)
            == GameOutcome::Win)),
        (outcome_spec(a, b) == GameOutcome::Win) <==> b == beats(a),
{
}

/// Law: the beats-relation is one cycle of period three, so no move is
/// dominant: each move beats exactly one move and loses to exactly one.
pub proof fn lemma_beats_cycle(m: Move)
    ensures
        beats(beats(beats(m))) == m,
        beats(m) != m,
        outcome_spec(m, beats(m)) == GameOutcome::Win,
        outcome_spec(m, beats(beats(m))) == GameOutcome::Lose,
{
}

/// Law: the end-of-battle mask is its own inverse: masking an end-marker
/// byte again yields the plain move byte, which decodes to the original
/// move; every end-marker byte falls in the uppercase alphabetic range.
pub proof fn lemma_end_encoding_involution(m: Move)
    ensures
        encode_end_spec(m) ^ 32 == encode_spec(m),
        decode_spec(encode_end_spec(m) ^ 32) == Some(m),
        65 <= encode_end_spec(m) <= 90,
        classify_spec(encode_end_spec(m)) == ServerByte::Relay(m, true),
        classify_spec(encode_spec(m)) == ServerByte::Relay(m, false),
{
    assert(114u8 ^ 32 == 82) by (bit_vector);
    assert(112u8 ^ 32 == 80) by (bit_vector);
    assert(115u8 ^ 32 == 83) by (bit_vector);
    assert(82u8 ^ 32 == 114) by (bit_vector);
    assert(80u8 ^ 32 == 112) by (bit_vector);
    assert(83u8 ^ 32 == 115) by (bit_vector);
}

} // verus!
