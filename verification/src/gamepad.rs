//! The device handle's verifiable core.
//!
//! A physical controller is identified by the pair of instance IDs its two
//! backend subsystems assigned for the current connection session; two
//! handles are equal exactly when both IDs match. The core also owns the
//! per-device touchpad tracker, sized once from the geometry the backend
//! reported at open time. Everything that must touch the hardware — polling
//! axes and buttons, reading finger samples, driving LED and rumble — lives
//! outside the library and feeds raw values in.

use core::cmp::Ordering;

use vstd::prelude::*;

use crate::touchpad::FingerSample;
use crate::touchpad::TouchpadState;
use crate::touchpad::TouchpadTracker;
use crate::touchpad::sample_wf;
use crate::touchpad::spec_poll_events;
use crate::touchpad::spec_slot_after;

verus! {

/// Identity of one physical-device connection session: the controller
/// subsystem's instance ID paired with the joystick subsystem's. Both change
/// when the device reconnects.
#[derive(Debug, Clone, Copy, PartialEq, Eq, Ord, Hash, Structural)]
pub struct GamepadId {
    /// Controller-subsystem instance ID.
    pub controller: u32,
    /// Joystick-subsystem instance ID.
    pub joystick: u32,
}

impl PartialOrd for GamepadId {
    /// Orders identities by controller ID, then joystick ID.
    fn partial_cmp(&self, other: &Self) -> (r: Option<Ordering>) {
        if self.controller < other.controller {
            Some(Ordering::Less)
        } else if self.controller > other.controller {
            Some(Ordering::Greater)
        } else if self.joystick < other.joystick {
            Some(Ordering::Less)
        } else if self.joystick > other.joystick {
            Some(Ordering::Greater)
        } else {
            Some(Ordering::Equal)
        }
    }
}

impl vstd::std_specs::cmp::PartialOrdSpecImpl for GamepadId {
    open spec fn obeys_partial_cmp_spec() -> bool {
        true
    }

    open spec fn partial_cmp_spec(&self, other: &Self) -> Option<Ordering> {
        if self.controller < other.controller {
            Some(Ordering::Less)
        } else if self.controller > other.controller {
            Some(Ordering::Greater)
        } else if self.joystick < other.joystick {
            Some(Ordering::Less)
        } else if self.joystick > other.joystick {
            Some(Ordering::Greater)
        } else {
            Some(Ordering::Equal)
        }
    }
}

/// Law: two handles are equal exactly when both their controller-subsystem
/// and joystick-subsystem IDs match.
pub proof fn lemma_gamepad_identity(a: GamepadId, b: GamepadId)
    ensures
        (a == b) <==> (a.controller == b.controller && a.joystick == b.joystick),
{
}

/// Battery power level of a gamepad.
#[derive(Debug, Clone, Copy, PartialEq, Eq, Hash, Structural)]
pub enum PowerLevel {
    /// Power level unknown.
    Unknown,
    /// Battery is empty.
    Empty,
    /// Battery level is low.
    Low,
    /// Battery level is medium.
    Medium,
    /// Battery level is full.
    Full,
    /// Device is wired (plugged in or has no battery).
    Wired,
}

impl PowerLevel {
    /// The display word for this power level.
    pub fn text(&self) -> (r: String)
        ensures
            self is Unknown ==> r@ == "Unknown"@,
            self is Empty ==> r@ == "Empty"@,
            self is Low ==> r@ == "Low"@,
            self is Medium ==> r@ == "Medium"@,
            self is Full ==> r@ == "Full"@,
            self is Wired ==> r@ == "Wired"@,
    {
        match *self {
            PowerLevel::Unknown => String::from_str("Unknown"),
            PowerLevel::Empty => String::from_str("Empty"),
            PowerLevel::Low => String::from_str("Low"),
            PowerLevel::Medium => String::from_str("Medium"),
            PowerLevel::Full => String::from_str("Full"),
            PowerLevel::Wired => String::from_str("Wired"),
        }
    }
}

/// The stateful core of one connected controller: its session identity and
/// its touchpad tracker.
pub struct Gamepad {
    /// Identity of the connection session.
    pub id: GamepadId,
    /// Per-finger touchpad state, sized at open time.
    pub touchpads: TouchpadTracker,
}

impl Gamepad {
    /// The touchpad arena matches the geometry fixed at open time.
    pub open spec fn wf(self) -> bool {
        self.touchpads.wf()
    }

    /// Creates the core for a freshly opened device, from its session
    /// identity and the touchpad geometry the backend reported; a negative
    /// count means the geometry query failed and counts as zero.
    pub fn new(id: GamepadId, num_touchpads: i32, num_fingers: i32) -> (g: Gamepad)
        ensures
            g.wf(),
            g.id == id,
            g.touchpads.touchpads == (if num_touchpads < 0 {
                0
            } else {
                num_touchpads as usize
            }),
            g.touchpads.fingers == (if num_fingers < 0 {
                0
            } else {
                num_fingers as usize
            }),
            forall|i: int|
                0 <= i < g.touchpads.slots@.len() ==> g.touchpads.slots@[i]
                    == TouchpadTracker::spec_default_slot(),
    {
        Gamepad { id, touchpads: TouchpadTracker::new(num_touchpads, num_fingers) }
    }

    /// How many touchpads the device has.
    pub fn has_touchpads(&self) -> (n: usize)
        ensures
            n == self.touchpads.touchpads,
    {
        self.touchpads.touchpads
    }

    /// Derives this poll's touchpad transitions from one raw sample per
    /// (touchpad, finger) slot, in slot order; see
    /// [`TouchpadTracker::poll`].
    pub fn touchpad(&mut self, samples: &Vec<Option<FingerSample>>) -> (r: Vec<TouchpadState>)
        requires
            old(self).wf(),
            samples@.len() == old(self).touchpads.slots@.len(),
            forall|i: int|
                0 <= i < samples@.len() ==> ((#[trigger] samples@[i]) matches Some(s)
                    ==> sample_wf(s)),
        ensures
            final(self).wf(),
            final(self).id == old(self).id,
            final(self).touchpads.touchpads == old(self).touchpads.touchpads,
            final(self).touchpads.fingers == old(self).touchpads.fingers,
            forall|i: int|
                0 <= i < samples@.len() ==> final(self).touchpads.slots@[i] == spec_slot_after(
                    old(self).touchpads.slots@[i],
                    samples@[i],
                ),
            r@ == spec_poll_events(
                old(self).touchpads.slots@,
                samples@,
                old(self).touchpads.fingers as nat,
                samples@.len() as nat,
            ),
    {
        self.touchpads.poll(samples)
    }
}

/// Clamps a rumble duration in milliseconds to what the backend accepts:
/// durations beyond its 32-bit range saturate at the maximum.
pub fn clamp_rumble_millis(millis: u128) -> (r: u32)
    ensures
        millis <= u32::MAX ==> r == millis,
        millis > u32::MAX ==> r == u32::MAX,
{
    if millis > 0xFFFF_FFFF {
        0xFFFF_FFFF
    } else {
        millis as u32
    }
}

} // verus!
