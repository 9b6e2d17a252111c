//! Binary state-frame codec.
//!
//! The server streams the authoritative game state as fixed-length binary
//! frames of exactly 26 bytes: four little-endian 32-bit position values
//! (left paddle, right paddle, ball x, ball y), two reserved little-endian
//! 32-bit values, and two one-byte scores. Frames of any other length are
//! known wire noise and are ignored without error.

use vstd::prelude::*;
use vstd::bytes::{
    lemma_auto_spec_u32_to_from_le_bytes, spec_u32_from_le_bytes, spec_u32_to_le_bytes,
    u32_from_le_bytes, u32_to_le_bytes,
};
use vstd::slice::{slice_index_get, slice_subrange};

verus! {

/// Exact length in bytes of a binary state frame on the wire.
pub const STATE_FRAME_LEN: usize = 26;

/// One decoded state frame.
///
/// The four position fields travel as little-endian 32-bit IEEE values and
/// are held here as their raw bit patterns, so decoding is byte-exact. The
/// two reserved 32-bit wire fields (bytes 16..24) are decoded and discarded,
/// and are not part of the snapshot.
#[derive(Clone, Copy, Debug, PartialEq, Eq, Structural)]
pub struct StateSnapshot {
    pub left_y_bits: u32,
    pub right_y_bits: u32,
    pub ball_x_bits: u32,
    pub ball_y_bits: u32,
    pub player1_score: u8,
    pub player2_score: u8,
}

/// The snapshot carried by a well-formed 26-byte frame.
pub open spec fn spec_decode_fields(bytes: Seq<u8>) -> StateSnapshot
    recommends
        bytes.len() == STATE_FRAME_LEN,
{
    StateSnapshot {
        left_y_bits: spec_u32_from_le_bytes(bytes.subrange(0, 4)),
        right_y_bits: spec_u32_from_le_bytes(bytes.subrange(4, 8)),
        ball_x_bits: spec_u32_from_le_bytes(bytes.subrange(8, 12)),
        ball_y_bits: spec_u32_from_le_bytes(bytes.subrange(12, 16)),
        player1_score: bytes[24],
        player2_score: bytes[25],
    }
}

/// What decoding yields: a snapshot for frames of exactly 26 bytes, and
/// nothing for every other length.
pub open spec fn spec_decode_state(bytes: Seq<u8>) -> Option<StateSnapshot> {
    if bytes.len() == STATE_FRAME_LEN {
        Some(spec_decode_fields(bytes))
    } else {
        None
    }
}

/// Decode a binary payload into a state snapshot.
///
/// A payload whose length is not exactly 26 bytes is silently ignored:
/// the result is `None` and the session goes on.
pub fn decode_state(bytes: &[u8]) -> (r: Option<StateSnapshot>)
    ensures
        r == spec_decode_state(bytes@),
{
    if bytes.len() != STATE_FRAME_LEN {
        return None;
    }
    let left_y_bits = u32_from_le_bytes(slice_subrange(bytes, 0, 4));
    let right_y_bits = u32_from_le_bytes(slice_subrange(bytes, 4, 8));
    let ball_x_bits = u32_from_le_bytes(slice_subrange(bytes, 8, 12));
    let ball_y_bits = u32_from_le_bytes(slice_subrange(bytes, 12, 16));
    // Reserved wire fields: decoded for layout fidelity, never exposed.
    let _speed_x_bits: u32 = u32_from_le_bytes(slice_subrange(bytes, 16, 20));
    let _speed_y_bits: u32 = u32_from_le_bytes(slice_subrange(bytes, 20, 24));
    let player1_score = *slice_index_get(bytes, 24);
    let player2_score = *slice_index_get(bytes, 25);
    Some(StateSnapshot {
        left_y_bits,
        right_y_bits,
        ball_x_bits,
        ball_y_bits,
        player1_score,
        player2_score,
    })
}

/// The 26-byte frame that carries the given snapshot around the given
/// eight reserved bytes.
pub open spec fn spec_encode_state(s: StateSnapshot, reserved: Seq<u8>) -> Seq<u8>
    recommends
        reserved.len() == 8,
{
    spec_u32_to_le_bytes(s.left_y_bits) + spec_u32_to_le_bytes(s.right_y_bits)
        + spec_u32_to_le_bytes(s.ball_x_bits) + spec_u32_to_le_bytes(s.ball_y_bits) + reserved
        + seq![s.player1_score, s.player2_score]
}

/// Build the wire frame for a snapshot, with the given reserved bytes in
/// the positions the protocol keeps for them.
pub fn encode_state(s: &StateSnapshot, reserved: &[u8]) -> (r: Vec<u8>)
    requires
        reserved@.len() == 8,
    ensures
        r@ == spec_encode_state(*s, reserved@),
        r@.len() == STATE_FRAME_LEN,
{
    let mut out: Vec<u8> = Vec::new();
    let mut part = u32_to_le_bytes(s.left_y_bits);
    out.append(&mut part);
    let mut part = u32_to_le_bytes(s.right_y_bits);
    out.append(&mut part);
    let mut part = u32_to_le_bytes(s.ball_x_bits);
    out.append(&mut part);
    let mut part = u32_to_le_bytes(s.ball_y_bits);
    out.append(&mut part);
    out.extend_from_slice(reserved);
    out.push(s.player1_score);
    out.push(s.player2_score);
    proof {
        assert(out@ =~= spec_encode_state(*s, reserved@));
    }
    out
}

/// Law: decoding the frame that encodes a snapshot gives back exactly that
/// snapshot, whatever the reserved bytes hold.
pub proof fn lemma_encode_then_decode(s: StateSnapshot, reserved: Seq<u8>)
    requires
        reserved.len() == 8,
    ensures
        spec_decode_state(spec_encode_state(s, reserved)) == Some(s),
{
    lemma_auto_spec_u32_to_from_le_bytes();
    let enc = spec_encode_state(s, reserved);
    assert(enc.subrange(0, 4) =~= spec_u32_to_le_bytes(s.left_y_bits));
    assert(enc.subrange(4, 8) =~= spec_u32_to_le_bytes(s.right_y_bits));
    assert(enc.subrange(8, 12) =~= spec_u32_to_le_bytes(s.ball_x_bits));
    assert(enc.subrange(12, 16) =~= spec_u32_to_le_bytes(s.ball_y_bits));
    assert(spec_decode_fields(enc) == s);
}

/// Law: every 26-byte frame is rebuilt byte-for-byte by encoding its
/// decoded snapshot around its own reserved bytes.
pub proof fn lemma_decode_then_encode(bytes: Seq<u8>)
    requires
        bytes.len() == STATE_FRAME_LEN,
    ensures
        spec_encode_state(spec_decode_fields(bytes), bytes.subrange(16, 24)) == bytes,
{
    lemma_auto_spec_u32_to_from_le_bytes();
    assert(spec_u32_to_le_bytes(spec_u32_from_le_bytes(bytes.subrange(0, 4))) == bytes.subrange(
        0,
        4,
    ));
    assert(spec_u32_to_le_bytes(spec_u32_from_le_bytes(bytes.subrange(4, 8))) == bytes.subrange(
        4,
        8,
    ));
    assert(spec_u32_to_le_bytes(spec_u32_from_le_bytes(bytes.subrange(8, 12))) == bytes.subrange(
        8,
        12,
    ));
    assert(spec_u32_to_le_bytes(spec_u32_from_le_bytes(bytes.subrange(12, 16))) == bytes.subrange(
        12,
        16,
    ));
    assert(spec_encode_state(spec_decode_fields(bytes), bytes.subrange(16, 24)) =~= bytes);
}

/// Whether a received text payload signals the end of the game.
///
/// The protocol has no distinct end-of-game tag: any text frame on the game
/// socket is the end-of-game notice, whatever it holds.
pub fn is_end_of_game(_text: &str) -> (r: bool)
    ensures
        r,
{
    true
}

} // verus!
