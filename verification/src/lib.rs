//! The verified core of a networked rock-paper-scissors arena: the wire
//! codec, the handshake frame, the listener's and battle engine's decision
//! logic, and the registry of live connections. The sockets, threads and
//! queues that carry the protocol live with the callers; everything that
//! decides or computes lives here, under contract.

pub mod battle;
pub mod codec;
pub mod handshake;
pub mod listener;
pub mod registry;

pub use battle::BattleResult;
pub use battle::BattleState;
pub use codec::GameOutcome;
pub use codec::Move;
pub use codec::ProtocolError;
pub use listener::ListenMessage;
pub use registry::Entry;
pub use registry::Registry;
