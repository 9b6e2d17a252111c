//! Control intent: the locally held movement keys.
//!
//! The input source delivers discrete press / repeat / release events
//! rather than continuous key state, so each direction keeps a held flag
//! together with an expiry timestamp. A press or repeat refreshes the
//! expiry to 150 ms past the event; a release clears the flag at once; and
//! an expiry sweep clears any flag whose window has passed, bridging the
//! gaps between intermittent repeat events. Time is carried as a plain
//! millisecond count supplied by the caller.

use vstd::prelude::*;

verus! {

/// How long a press keeps a key effectively held, in milliseconds, absent
/// further events for that key.
pub const HOLD_WINDOW_MS: u64 = 150;

/// A movement direction the server understands.
#[derive(Clone, Copy, Debug, PartialEq, Eq, Structural)]
pub enum Direction {
    Up,
    Down,
}

/// What the input source reports about a movement key.
#[derive(Clone, Copy, Debug, PartialEq, Eq, Structural)]
pub enum KeyAction {
    Press,
    Repeat,
    Release,
}

/// One local input event, already freed of its input-source encoding.
#[derive(Clone, Copy, Debug, PartialEq, Eq, Structural)]
pub enum InputEvent {
    /// A movement key changed: which direction, and what happened to it.
    Key { direction: Direction, action: KeyAction },
    /// The user asked to leave (escape or interrupt).
    Cancel,
    /// Any other event; it carries no meaning for the session.
    Other,
}

/// The held state of one direction.
#[derive(Clone, Copy, Debug, PartialEq, Eq, Structural)]
pub struct HeldKey {
    pub held: bool,
    /// Absolute time, in milliseconds, until which the key counts as held.
    pub expiry_ms: u64,
}

/// The currently held movement keys, one slot per direction.
#[derive(Clone, Copy, Debug, PartialEq, Eq, Structural)]
pub struct ControlIntent {
    pub up: HeldKey,
    pub down: HeldKey,
}

/// What a key event does to one direction's slot: press and repeat hold
/// the key and refresh its window; release clears it at once.
pub open spec fn spec_apply_to_key(k: HeldKey, action: KeyAction, now_ms: u64) -> HeldKey
    recommends
        now_ms + HOLD_WINDOW_MS <= u64::MAX,
{
    match action {
        KeyAction::Press => HeldKey { held: true, expiry_ms: (now_ms + HOLD_WINDOW_MS) as u64 },
        KeyAction::Repeat => HeldKey { held: true, expiry_ms: (now_ms + HOLD_WINDOW_MS) as u64 },
        KeyAction::Release => HeldKey { held: false, expiry_ms: (now_ms + HOLD_WINDOW_MS) as u64 },
    }
}

/// What an expiry sweep does to one direction's slot: a held key whose
/// window has passed is cleared; everything else is untouched.
pub open spec fn spec_expire_key(k: HeldKey, now_ms: u64) -> HeldKey {
    if k.held && now_ms > k.expiry_ms {
        HeldKey { held: false, expiry_ms: k.expiry_ms }
    } else {
        k
    }
}

/// A key event applied to the whole intent: only the named direction moves.
pub open spec fn spec_apply_key(
    i: ControlIntent,
    direction: Direction,
    action: KeyAction,
    now_ms: u64,
) -> ControlIntent {
    match direction {
        Direction::Up => ControlIntent { up: spec_apply_to_key(i.up, action, now_ms), down: i.down },
        Direction::Down => ControlIntent {
            up: i.up,
            down: spec_apply_to_key(i.down, action, now_ms),
        },
    }
}

/// An expiry sweep applied to both directions.
pub open spec fn spec_expire(i: ControlIntent, now_ms: u64) -> ControlIntent {
    ControlIntent { up: spec_expire_key(i.up, now_ms), down: spec_expire_key(i.down, now_ms) }
}

/// The text frame sent for a given pair of held flags: 'D' then 'U', one
/// character per held direction. The order carries no meaning.
pub open spec fn spec_outbound_frame(up_held: bool, down_held: bool) -> Seq<u8> {
    (if down_held {
        seq![68u8]
    } else {
        Seq::<u8>::empty()
    }) + (if up_held {
        seq![85u8]
    } else {
        Seq::<u8>::empty()
    })
}

impl ControlIntent {
    /// A fresh intent: nothing held.
    pub fn new() -> (r: ControlIntent)
        ensures
            !r.up.held,
            !r.down.held,
            r.up.expiry_ms == 0,
            r.down.expiry_ms == 0,
    {
        ControlIntent {
            up: HeldKey { held: false, expiry_ms: 0 },
            down: HeldKey { held: false, expiry_ms: 0 },
        }
    }

    /// Record one movement-key event at the given time.
    pub fn apply_key(&mut self, direction: Direction, action: KeyAction, now_ms: u64)
        requires
            now_ms + HOLD_WINDOW_MS <= u64::MAX,
        ensures
            *final(self) == spec_apply_key(*old(self), direction, action, now_ms),
    {
        let slot = HeldKey {
            held: match action {
                KeyAction::Press => true,
                KeyAction::Repeat => true,
                KeyAction::Release => false,
            },
            expiry_ms: now_ms + HOLD_WINDOW_MS,
        };
        match direction {
            Direction::Up => {
                self.up = slot;
            },
            Direction::Down => {
                self.down = slot;
            },
        }
    }

    /// Clear every direction whose hold window has passed.
    pub fn expire(&mut self, now_ms: u64)
        ensures
            *final(self) == spec_expire(*old(self), now_ms),
    {
        if self.up.held && now_ms > self.up.expiry_ms {
            self.up.held = false;
        }
        if self.down.held && now_ms > self.down.expiry_ms {
            self.down.held = false;
        }
    }

    /// The text frame to send this tick: one character per held direction,
    /// and no frame at all while neither direction is held.
    pub fn encode_frame(&self) -> (r: Option<Vec<u8>>)
        ensures
            match r {
                Some(f) => (self.up.held || self.down.held) && f@ == spec_outbound_frame(
                    self.up.held,
                    self.down.held,
                ),
                None => !self.up.held && !self.down.held,
            },
    {
        if !self.up.held && !self.down.held {
            return None;
        }
        let mut frame: Vec<u8> = Vec::new();
        if self.down.held {
            frame.push(68);  // 'D'
        }
        if self.up.held {
            frame.push(85);  // 'U'
        }
        proof {
            assert(frame@ =~= spec_outbound_frame(self.up.held, self.down.held));
        }
        Some(frame)
    }
}

/// Law: after a press at `t_press`, the key stays held through the whole
/// hold window — an expiry sweep at or before `t_press + 150` leaves the
/// slot exactly unchanged — and a sweep after the window clears it, absent
/// further events for the key.
pub proof fn lemma_key_hold_window(k: HeldKey, t_press: u64, t_check: u64)
    requires
        t_press + HOLD_WINDOW_MS <= u64::MAX,
    ensures
        ({
            let pressed = spec_apply_to_key(k, KeyAction::Press, t_press);
            &&& t_check <= t_press + HOLD_WINDOW_MS ==> spec_expire_key(pressed, t_check)
                == pressed
            &&& t_check <= t_press + HOLD_WINDOW_MS ==> spec_expire_key(pressed, t_check).held
            &&& t_check > t_press + HOLD_WINDOW_MS ==> !spec_expire_key(pressed, t_check).held
        }),
{
}

/// The slot after a whole sequence of expiry sweeps, in order.
pub open spec fn spec_expire_key_chain(k: HeldKey, sweeps: Seq<u64>) -> HeldKey
    decreases sweeps.len(),
{
    if sweeps.len() == 0 {
        k
    } else {
        spec_expire_key_chain(spec_expire_key(k, sweeps[0]), sweeps.drop_first())
    }
}

/// Law: however many expiry sweeps run inside the hold window, a pressed
/// key comes out of all of them still held, its slot exactly unchanged.
pub proof fn lemma_key_hold_window_chain(k: HeldKey, t_press: u64, sweeps: Seq<u64>)
    requires
        t_press + HOLD_WINDOW_MS <= u64::MAX,
        forall|i: int| 0 <= i < sweeps.len() ==> sweeps[i] <= t_press + HOLD_WINDOW_MS,
    ensures
        ({
            let pressed = spec_apply_to_key(k, KeyAction::Press, t_press);
            spec_expire_key_chain(pressed, sweeps) == pressed
        }),
    decreases sweeps.len(),
{
    let pressed = spec_apply_to_key(k, KeyAction::Press, t_press);
    if sweeps.len() > 0 {
        assert(spec_expire_key(pressed, sweeps[0]) == pressed);
        lemma_key_hold_window_chain(k, t_press, sweeps.drop_first());
    }
}

} // verus!
