//! Touchpad state tracking.
//!
//! The backend reports, per poll and per (touchpad, finger) slot, an
//! instantaneous raw sample: a pressed/released state byte, a position and a
//! pressure. The tracker stores the previous sample of every slot and derives
//! a deduplicated stream of transitions: `Touched` on the rising edge,
//! `Released` exactly once on the falling edge, `Moved` when a held finger
//! changes position or pressure, and nothing when nothing changed.
//!
//! Positions and pressures are IEEE-754 single-precision bit patterns as the
//! backend produced them. The tracker never interprets them; it only stores
//! them and compares them bit for bit, which mirrors the backend's own
//! repeat-suppression semantics (exact equality, not epsilon-based).

use vstd::prelude::*;

verus! {

/// The raw state byte the backend reports for a released finger.
pub const FINGER_RELEASED: u8 = 0;

/// The raw state byte the backend reports for a pressed finger.
pub const FINGER_PRESSED: u8 = 1;

/// Type of touchpad action.
#[derive(Debug, Clone, Copy, Default, PartialEq, Eq, Hash, Structural)]
pub enum TouchpadAction {
    /// Finger touched the touchpad.
    Touched,
    /// Finger released from the touchpad.
    #[default]
    Released,
    /// Finger moved on the touchpad.
    Moved,
}

/// One raw per-finger sample read from the backend during a poll.
///
/// `x`, `y` and `pressure` are IEEE-754 single-precision bit patterns,
/// normally denoting values in `[0, 1]`.
#[derive(Debug, Clone, Copy, PartialEq, Eq, Structural)]
pub struct FingerSample {
    /// Raw state byte: [`FINGER_RELEASED`] or [`FINGER_PRESSED`].
    pub state: u8,
    /// Horizontal position, bit pattern.
    pub x: u32,
    /// Vertical position, bit pattern.
    pub y: u32,
    /// Pressure, bit pattern.
    pub pressure: u32,
}

/// The last observation stored for one (touchpad, finger) slot.
#[derive(Debug, Clone, Copy, PartialEq, Eq, Structural)]
pub struct FingerState {
    /// Action derived from the last successfully read sample.
    pub action: TouchpadAction,
    /// Horizontal position of the last sample, bit pattern.
    pub x: u32,
    /// Vertical position of the last sample, bit pattern.
    pub y: u32,
    /// Pressure of the last sample, bit pattern.
    pub pressure: u32,
}

/// One emitted touchpad transition.
#[derive(Debug, Clone, Copy, PartialEq, Eq, Structural)]
pub struct TouchpadState {
    /// Touchpad index.
    pub touchpad: usize,
    /// Finger index.
    pub finger: usize,
    /// Horizontal position, bit pattern.
    pub x: u32,
    /// Vertical position, bit pattern.
    pub y: u32,
    /// Pressure, bit pattern.
    pub pressure: u32,
    /// Type of touch action.
    pub action: TouchpadAction,
}

/// A raw sample is well formed when its state byte is one the backend can
/// report; any other byte would be a corrupt backend.
pub open spec fn sample_wf(s: FingerSample) -> bool {
    s.state == FINGER_RELEASED || s.state == FINGER_PRESSED
}

/// The action a raw state byte denotes.
pub open spec fn spec_action(state: u8) -> TouchpadAction {
    if state == FINGER_PRESSED {
        TouchpadAction::Touched
    } else {
        TouchpadAction::Released
    }
}

/// The transition a slot emits for a fresh sample, if any:
/// a repeated release is suppressed, a bit-identical repeated touch is
/// suppressed, a changed repeated touch becomes `Moved`, and a changed action
/// is emitted verbatim.
pub open spec fn spec_emit(prev: FingerState, s: FingerSample) -> Option<TouchpadAction> {
    let action = spec_action(s.state);
    if action == prev.action {
        if action is Released {
            None
        } else if s.x == prev.x && s.y == prev.y && s.pressure == prev.pressure {
            None
        } else {
            Some(TouchpadAction::Moved)
        }
    } else {
        Some(action)
    }
}

/// The state a slot stores after a poll: the fresh sample whenever one was
/// read, even when the emitted event was suppressed; else the old state.
pub open spec fn spec_slot_after(prev: FingerState, s: Option<FingerSample>) -> FingerState {
    match s {
        None => prev,
        Some(s) => FingerState { action: spec_action(s.state), x: s.x, y: s.y, pressure: s.pressure },
    }
}

/// The transitions one poll emits for the first `n` slots, in slot order,
/// which is touchpad-index-then-finger-index order.
pub open spec fn spec_poll_events(
    slots: Seq<FingerState>,
    samples: Seq<Option<FingerSample>>,
    fingers: nat,
    n: nat,
) -> Seq<TouchpadState>
    decreases n,
{
    if n == 0 {
        Seq::empty()
    } else {
        let i = (n - 1) as nat;
        let rest = spec_poll_events(slots, samples, fingers, i);
        match samples[i as int] {
            None => rest,
            Some(s) => match spec_emit(slots[i as int], s) {
                None => rest,
                Some(action) => rest.push(
                    TouchpadState {
                        touchpad: (i / fingers) as usize,
                        finger: (i % fingers) as usize,
                        x: s.x,
                        y: s.y,
                        pressure: s.pressure,
                        action,
                    },
                ),
            },
        }
    }
}

/// Per-device touchpad state: one slot per (touchpad, finger) pair, in a
/// single flat arena sized once at device-open time.
pub struct TouchpadTracker {
    /// Number of touchpads on the device.
    pub touchpads: usize,
    /// Finger capacity per touchpad.
    pub fingers: usize,
    /// Flat per-slot state; slot `t * fingers + f` belongs to finger `f` of
    /// touchpad `t`.
    pub slots: Vec<FingerState>,
}

impl TouchpadTracker {
    /// The arena holds exactly one slot per (touchpad, finger) pair.
    pub open spec fn wf(self) -> bool {
        self.slots@.len() == self.touchpads * self.fingers
    }

    /// A fresh slot: released, with zero position and pressure.
    pub open spec fn spec_default_slot() -> FingerState {
        FingerState { action: TouchpadAction::Released, x: 0, y: 0, pressure: 0 }
    }

    /// Creates the tracker from the touchpad and finger counts the backend
    /// reported at open time; a negative count means the query failed and
    /// counts as zero. Every slot starts in the default released state.
    pub fn new(num_touchpads: i32, num_fingers: i32) -> (t: TouchpadTracker)
        ensures
            t.wf(),
            t.touchpads == (if num_touchpads < 0 { 0 } else { num_touchpads as usize }),
            t.fingers == (if num_fingers < 0 { 0 } else { num_fingers as usize }),
            forall|i: int|
                0 <= i < t.slots@.len() ==> t.slots@[i] == Self::spec_default_slot(),
    {
        let touchpads: usize = if num_touchpads < 0 {
            0
        } else {
            num_touchpads as usize
        };
        let fingers: usize = if num_fingers < 0 {
            0
        } else {
            num_fingers as usize
        };
        let mut slots: Vec<FingerState> = Vec::new();
        let mut t: usize = 0;
        while t < touchpads
            invariant
                t <= touchpads,
                slots@.len() == t * fingers,
                forall|i: int|
                    0 <= i < slots@.len() ==> slots@[i] == Self::spec_default_slot(),
            decreases touchpads - t,
        {
            let mut f: usize = 0;
            while f < fingers
                invariant
                    f <= fingers,
                    slots@.len() == t * fingers + f,
                    forall|i: int|
                        0 <= i < slots@.len() ==> slots@[i] == Self::spec_default_slot(),
                decreases fingers - f,
            {
                slots.push(
                    FingerState { action: TouchpadAction::Released, x: 0, y: 0, pressure: 0 },
                );
                f = f + 1;
            }
            proof {
                assert((t + 1) * fingers == t * fingers + fingers) by (nonlinear_arith);
            }
            t = t + 1;
        }
        TouchpadTracker { touchpads, fingers, slots }
    }

    /// Derives this poll's touch transitions from one raw sample per slot and
    /// stores each successfully read sample as the slot's new previous
    /// observation — even when its event was suppressed, so the next
    /// comparison is always against the immediately preceding observation.
    /// A slot whose sample could not be read (`None`) is skipped unchanged.
    pub fn poll(&mut self, samples: &Vec<Option<FingerSample>>) -> (r: Vec<TouchpadState>)
        requires
            old(self).wf(),
            samples@.len() == old(self).slots@.len(),
            forall|i: int|
                0 <= i < samples@.len() ==> ((#[trigger] samples@[i]) matches Some(s)
                    ==> sample_wf(s)),
        ensures
            final(self).wf(),
            final(self).touchpads == old(self).touchpads,
            final(self).fingers == old(self).fingers,
            forall|i: int|
                0 <= i < samples@.len() ==> final(self).slots@[i] == spec_slot_after(
                    old(self).slots@[i],
                    samples@[i],
                ),
            r@ == spec_poll_events(
                old(self).slots@,
                samples@,
                old(self).fingers as nat,
                samples@.len() as nat,
            ),
    {
        let ghost slots0 = self.slots@;
        let mut r: Vec<TouchpadState> = Vec::new();
        let len = self.slots.len();
        let mut i: usize = 0;
        while i < len
            invariant
                i <= len,
                slots0 == old(self).slots@,
                self.touchpads == old(self).touchpads,
                self.fingers == old(self).fingers,
                len == slots0.len(),
                len == self.touchpads * self.fingers,
                self.slots@.len() == len,
                samples@.len() == len,
                forall|j: int|
                    0 <= j < samples@.len() ==> ((#[trigger] samples@[j]) matches Some(s)
                        ==> sample_wf(s)),
                forall|j: int|
                    0 <= j < i ==> self.slots@[j] == spec_slot_after(slots0[j], samples@[j]),
                forall|j: int| i <= j < len ==> self.slots@[j] == slots0[j],
                r@ == spec_poll_events(slots0, samples@, self.fingers as nat, i as nat),
            decreases len - i,
        {
            if let Some(s) = samples[i] {
                let action = if s.state == FINGER_PRESSED {
                    TouchpadAction::Touched
                } else {
                    TouchpadAction::Released
                };
                let prev = self.slots[i];
                let emitted: Option<TouchpadAction> = if action == prev.action {
                    if action == TouchpadAction::Released {
                        // only report the first release event
                        None
                    } else if s.x == prev.x && s.y == prev.y && s.pressure == prev.pressure {
                        // don't report the same touch twice
                        None
                    } else {
                        // report the repeated touch as a move event
                        Some(TouchpadAction::Moved)
                    }
                } else {
                    Some(action)
                };
                self.slots.set(
                    i,
                    FingerState { action, x: s.x, y: s.y, pressure: s.pressure },
                );
                if let Some(action) = emitted {
                    proof {
                        let tp = self.touchpads;
                        let fg = self.fingers;
                        if fg == 0 {
                            assert(tp * fg == 0) by (nonlinear_arith)
                                requires
                                    fg == 0,
                            ;
                        }
                    }
                    let touchpad = i / self.fingers;
                    let finger = i % self.fingers;
                    r.push(
                        TouchpadState {
                            touchpad,
                            finger,
                            x: s.x,
                            y: s.y,
                            pressure: s.pressure,
                            action,
                        },
                    );
                }
            }
            i = i + 1;
        }
        r
    }
}

/// Law: polling twice with identical raw samples emits nothing the second
/// time. After any poll stores its samples, a further poll that reads the
/// same samples finds every slot equal to its fresh observation, so every
/// transition is suppressed.
pub proof fn lemma_poll_idempotent(
    slots: Seq<FingerState>,
    samples: Seq<Option<FingerSample>>,
    fingers: nat,
    n: nat,
)
    requires
        n <= slots.len(),
        n <= samples.len(),
        forall|i: int|
            0 <= i < n ==> ((#[trigger] samples[i]) matches Some(s) ==> slots[i]
                == spec_slot_after(slots[i], samples[i])),
    ensures
        spec_poll_events(slots, samples, fingers, n) == Seq::<TouchpadState>::empty(),
    decreases n,
{
    if n > 0 {
        lemma_poll_idempotent(slots, samples, fingers, (n - 1) as nat);
    }
}

/// Law: a release is reported exactly once, on the falling edge. A slot that
/// stored `Touched` and reads a released sample emits `Released`; a slot that
/// already stored `Released` and reads a released sample emits nothing, and
/// stays released, so no later released sample can emit either.
pub proof fn lemma_release_once(prev: FingerState, s: FingerSample)
    requires
        spec_action(s.state) is Released,
    ensures
        prev.action is Touched ==> spec_emit(prev, s) == Some(TouchpadAction::Released),
        prev.action is Released ==> spec_emit(prev, s) is None,
        spec_slot_after(prev, Some(s)).action is Released,
{
}

/// Law: a held finger that changes position or pressure emits exactly one
/// `Moved` carrying the new position and pressure — not a second `Touched` —
/// and the slot stores the new sample.
pub proof fn lemma_move_detection(prev: FingerState, s: FingerSample)
    requires
        prev.action is Touched,
        spec_action(s.state) is Touched,
        s.x != prev.x || s.y != prev.y || s.pressure != prev.pressure,
    ensures
        spec_emit(prev, s) == Some(TouchpadAction::Moved),
        spec_slot_after(prev, Some(s)) == (FingerState {
            action: TouchpadAction::Touched,
            x: s.x,
            y: s.y,
            pressure: s.pressure,
        }),
{
}

} // verus!
