//! Verified core of a terminal client for a networked two-player real-time
//! game.
//!
//! The library holds the session engine's logic as pure, contract-checked
//! functions: the binary state-frame codec, end-of-game outcome detection,
//! the key-hold bookkeeping behind outbound control frames, the per-tick
//! decisions of the outbound and inbound tasks, the shared termination
//! signal, and the session controller's state machine.
//!
//! All I/O — the socket handshake, the HTTP calls around matchmaking, input
//! polling and the async tasks themselves — lives outside the library. The
//! surrounding runtime performs each action this library decides on and
//! hands the resulting plain values (bytes, strings, integers, booleans)
//! back in. The four 32-bit positions of the wire protocol are carried as
//! their raw little-endian bit patterns, so every statement about them is
//! byte-exact.

pub mod codec;
pub mod inbound;
pub mod intent;
pub mod outbound;
pub mod outcome;
pub mod session;
pub mod signal;
