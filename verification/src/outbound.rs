//! Per-tick decisions of the outbound control task.
//!
//! The task runs at a fixed cadence. Each tick it first honours a stop
//! request, then folds in whatever single input event the non-blocking
//! poll delivered — a cancellation ends the loop at once, without sending
//! further data — then sweeps expired holds, and finally turns the keys
//! still held into at most one text frame. The surrounding runtime
//! performs the poll, the write and the sleep; on a `Stop` disposition it
//! exits the loop and closes the outbound half of the socket, raising the
//! shared termination signal first exactly when the decision says so.

use vstd::prelude::*;
use crate::intent::{
    ControlIntent, InputEvent, spec_apply_key, spec_expire, spec_outbound_frame, HOLD_WINDOW_MS,
};

verus! {

/// Whether the outbound task keeps ticking or exits its loop.
#[derive(Clone, Copy, Debug, PartialEq, Eq, Structural)]
pub enum TickDisposition {
    /// Keep looping: sleep one tick and come back.
    Proceed,
    /// Exit the loop and close the outbound half of the socket. The
    /// termination signal is to be raised first exactly when
    /// `raise_signal` holds (the user cancelled here, rather than another
    /// party having requested the stop).
    Stop { raise_signal: bool },
}

/// Everything one tick decides: the frame to write, if any, and whether
/// the loop goes on.
#[derive(Clone, Debug, PartialEq)]
pub struct TickOutcome {
    pub frame: Option<Vec<u8>>,
    pub disposition: TickDisposition,
}

/// One tick of the outbound control task.
///
/// `stop_requested` is whether another party has already requested the
/// stop (the one-shot stop token, or the termination signal); `event` is
/// the at most one input event the non-blocking poll produced this tick;
/// `now_ms` is the current time in milliseconds.
///
/// Once a stop has been requested, the task exits within this very tick.
/// A cancellation event likewise ends the loop at once, raising the
/// signal. On neither exit is a frame sent. Otherwise the event is folded
/// into the intent and expired holds are swept, and the frame reflects
/// the keys held after both — absent exactly when neither direction is
/// held.
pub fn outbound_tick(
    intent: &mut ControlIntent,
    stop_requested: bool,
    event: Option<InputEvent>,
    now_ms: u64,
) -> (r: TickOutcome)
    requires
        now_ms + HOLD_WINDOW_MS <= u64::MAX,
    ensures
        stop_requested ==> {
            &&& *final(intent) == *old(intent)
            &&& r.disposition == (TickDisposition::Stop { raise_signal: false })
        },
        !stop_requested ==> match event {
            Some(InputEvent::Cancel) => {
                &&& *final(intent) == *old(intent)
                &&& r.disposition == (TickDisposition::Stop { raise_signal: true })
            },
            Some(InputEvent::Key { direction, action }) => {
                &&& *final(intent) == spec_expire(
                    spec_apply_key(*old(intent), direction, action, now_ms),
                    now_ms,
                )
                &&& r.disposition == TickDisposition::Proceed
            },
            Some(InputEvent::Other) | None => {
                &&& *final(intent) == spec_expire(*old(intent), now_ms)
                &&& r.disposition == TickDisposition::Proceed
            },
        },
        r.disposition is Stop ==> r.frame is None,
        r.disposition == TickDisposition::Proceed ==> match r.frame {
            Some(f) => (final(intent).up.held || final(intent).down.held) && f@
                == spec_outbound_frame(final(intent).up.held, final(intent).down.held),
            None => !final(intent).up.held && !final(intent).down.held,
        },
{
    if stop_requested {
        return TickOutcome { frame: None, disposition: TickDisposition::Stop { raise_signal: false } };
    }
    match event {
        Some(InputEvent::Cancel) => {
            return TickOutcome {
                frame: None,
                disposition: TickDisposition::Stop { raise_signal: true },
            };
        },
        Some(InputEvent::Key { direction, action }) => {
            intent.apply_key(direction, action, now_ms);
        },
        Some(InputEvent::Other) => {},
        None => {},
    }
    intent.expire(now_ms);
    let frame = intent.encode_frame();
    TickOutcome { frame, disposition: TickDisposition::Proceed }
}

} // verus!
