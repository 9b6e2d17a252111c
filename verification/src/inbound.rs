//! Per-message decisions of the inbound state task.
//!
//! The task blocks on the socket for the next frame, maps it to a publish
//! action, and loops. A binary frame is decoded — and dropped silently
//! when malformed — a text frame is the end-of-game payload, and a close
//! or any other frame is ignored. The surrounding runtime performs the
//! read and the publish; it leaves the loop once publishing fails (no
//! receiver is left) or once the termination signal is seen raised.

use vstd::prelude::*;
use crate::codec::{decode_state, spec_decode_state, StateSnapshot};

verus! {

/// One frame received on the socket, freed of its transport encoding.
#[derive(Clone, Debug, PartialEq)]
pub enum InboundMessage {
    /// A binary payload: possibly a state frame.
    Binary(Vec<u8>),
    /// A text payload: the end-of-game notice.
    Text(String),
    /// The peer announced it is closing.
    Close,
    /// Any other frame the transport can carry.
    Other,
}

/// What the inbound task publishes for one received frame.
#[derive(Clone, Debug, PartialEq)]
pub enum InboundAction {
    /// Overwrite the latest-snapshot slot with this decoded state.
    PublishSnapshot(StateSnapshot),
    /// Publish this text as the end-of-game payload.
    PublishEnd(String),
    /// Publish nothing and keep reading.
    Ignore,
}

/// The publish action a frame maps to: a decodable binary frame becomes
/// the latest snapshot, a text frame becomes the end-of-game payload, and
/// everything else — malformed binary included — is ignored.
pub open spec fn spec_inbound_action(msg: InboundMessage) -> InboundAction {
    match msg {
        InboundMessage::Binary(b) => match spec_decode_state(b@) {
            Some(s) => InboundAction::PublishSnapshot(s),
            None => InboundAction::Ignore,
        },
        InboundMessage::Text(s) => InboundAction::PublishEnd(s),
        InboundMessage::Close => InboundAction::Ignore,
        InboundMessage::Other => InboundAction::Ignore,
    }
}

/// Map one received frame to its publish action.
pub fn inbound_step(msg: InboundMessage) -> (r: InboundAction)
    ensures
        r == spec_inbound_action(msg),
{
    match msg {
        InboundMessage::Binary(b) => match decode_state(b.as_slice()) {
            Some(s) => InboundAction::PublishSnapshot(s),
            None => InboundAction::Ignore,
        },
        InboundMessage::Text(s) => InboundAction::PublishEnd(s),
        InboundMessage::Close => InboundAction::Ignore,
        InboundMessage::Other => InboundAction::Ignore,
    }
}

/// Whether the inbound task keeps reading after one publish attempt: it
/// stops once publishing failed or once the termination signal is raised.
pub fn inbound_continue(publish_failed: bool, signal_raised: bool) -> (r: bool)
    ensures
        r == (!publish_failed && !signal_raised),
{
    !publish_failed && !signal_raised
}

} // verus!
