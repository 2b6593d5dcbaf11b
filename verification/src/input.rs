//! Gamepad inputs: sticks, triggers and buttons.
//!
//! Sticks and triggers are read as raw signed axis samples and normalized
//! through [`crate::norm::normalize`]. Buttons form a bitset over a fixed
//! enumeration of logical buttons; the backend reports each button by a small
//! wire code, mapped through a fixed bijection.

use vstd::prelude::*;

use crate::norm::AXIS_MAX;
use crate::norm::Frac;
use crate::norm::normalize;
use crate::norm::spec_normalize;
use crate::norm::stick_deadzone;
use crate::norm::zero_deadzone;

verus! {

/// Analog sticks on a gamepad.
#[derive(Debug, Clone, Copy, PartialEq, Eq, Hash, Structural)]
pub enum Stick {
    /// Left analog stick.
    Left,
    /// Right analog stick.
    Right,
}

/// Triggers on a gamepad.
#[derive(Debug, Clone, Copy, PartialEq, Eq, Hash, Structural)]
pub enum Trigger {
    /// Left trigger.
    Left,
    /// Right trigger.
    Right,
}

/// Analog axes a raw event can report, one at a time.
#[derive(Debug, Clone, Copy, PartialEq, Eq, Hash, Structural)]
pub enum Axis {
    /// Horizontal axis of the left stick.
    LeftX,
    /// Vertical axis of the left stick.
    LeftY,
    /// Horizontal axis of the right stick.
    RightX,
    /// Vertical axis of the right stick.
    RightY,
    /// Left trigger axis.
    TriggerLeft,
    /// Right trigger axis.
    TriggerRight,
}

impl Stick {
    /// The pair of axes (horizontal, vertical) belonging to this stick.
    pub fn axis_pair(self) -> (r: (Axis, Axis))
        ensures
            self is Left ==> r == (Axis::LeftX, Axis::LeftY),
            self is Right ==> r == (Axis::RightX, Axis::RightY),
    {
        match self {
            Stick::Left => (Axis::LeftX, Axis::LeftY),
            Stick::Right => (Axis::RightX, Axis::RightY),
        }
    }
}

impl Trigger {
    /// The axis belonging to this trigger.
    pub fn axis(self) -> (r: Axis)
        ensures
            self is Left ==> r == Axis::TriggerLeft,
            self is Right ==> r == Axis::TriggerRight,
    {
        match self {
            Trigger::Left => Axis::TriggerLeft,
            Trigger::Right => Axis::TriggerRight,
        }
    }
}

/// Logical gamepad buttons.
#[derive(Debug, Clone, Copy, PartialEq, Eq, Hash, Structural)]
pub enum Button {
    /// A button (typically the bottom button on the right side).
    A,
    /// B button (typically the right button on the right side).
    B,
    /// X button (typically the left button on the right side).
    X,
    /// Y button (typically the top button on the right side).
    Y,
    /// Back/Select button.
    Back,
    /// Guide/Home button.
    Guide,
    /// Start button.
    Start,
    /// Left stick click button.
    LeftStick,
    /// Right stick click button.
    RightStick,
    /// Left shoulder button.
    LeftShoulder,
    /// Right shoulder button.
    RightShoulder,
    /// D-pad up button.
    DPadUp,
    /// D-pad down button.
    DPadDown,
    /// D-pad left button.
    DPadLeft,
    /// D-pad right button.
    DPadRight,
    /// Miscellaneous button.
    Misc1,
    /// Paddle 1, upper left on the back of elite controllers.
    Paddle1,
    /// Paddle 2, upper right on the back of elite controllers.
    Paddle2,
    /// Paddle 3, lower left on the back of elite controllers.
    Paddle3,
    /// Paddle 4, lower right on the back of elite controllers.
    Paddle4,
    /// Touchpad click button.
    Touchpad,
}

impl Button {
    /// The backend wire code of this button, `SDL_GameControllerButton`
    /// numbering.
    pub open spec fn spec_code(self) -> u8 {
        match self {
            Button::A => 0,
            Button::B => 1,
            Button::X => 2,
            Button::Y => 3,
            Button::Back => 4,
            Button::Guide => 5,
            Button::Start => 6,
            Button::LeftStick => 7,
            Button::RightStick => 8,
            Button::LeftShoulder => 9,
            Button::RightShoulder => 10,
            Button::DPadUp => 11,
            Button::DPadDown => 12,
            Button::DPadLeft => 13,
            Button::DPadRight => 14,
            Button::Misc1 => 15,
            Button::Paddle1 => 16,
            Button::Paddle2 => 17,
            Button::Paddle3 => 18,
            Button::Paddle4 => 19,
            Button::Touchpad => 20,
        }
    }

    /// The single bit standing for this button in a [`Buttons`] set.
    pub open spec fn spec_mask(self) -> u32 {
        1u32 << self.spec_code()
    }

    /// Converts to the backend wire code.
    pub fn code(self) -> (c: u8)
        ensures
            c == self.spec_code(),
    {
        match self {
            Button::A => 0,
            Button::B => 1,
            Button::X => 2,
            Button::Y => 3,
            Button::Back => 4,
            Button::Guide => 5,
            Button::Start => 6,
            Button::LeftStick => 7,
            Button::RightStick => 8,
            Button::LeftShoulder => 9,
            Button::RightShoulder => 10,
            Button::DPadUp => 11,
            Button::DPadDown => 12,
            Button::DPadLeft => 13,
            Button::DPadRight => 14,
            Button::Misc1 => 15,
            Button::Paddle1 => 16,
            Button::Paddle2 => 17,
            Button::Paddle3 => 18,
            Button::Paddle4 => 19,
            Button::Touchpad => 20,
        }
    }

    /// Converts from the backend wire code; codes above 20 name no button.
    pub fn from_code(c: u8) -> (r: Option<Button>)
        ensures
            r == spec_button_from_code(c),
    {
        match c {
            0 => Some(Button::A),
            1 => Some(Button::B),
            2 => Some(Button::X),
            3 => Some(Button::Y),
            4 => Some(Button::Back),
            5 => Some(Button::Guide),
            6 => Some(Button::Start),
            7 => Some(Button::LeftStick),
            8 => Some(Button::RightStick),
            9 => Some(Button::LeftShoulder),
            10 => Some(Button::RightShoulder),
            11 => Some(Button::DPadUp),
            12 => Some(Button::DPadDown),
            13 => Some(Button::DPadLeft),
            14 => Some(Button::DPadRight),
            15 => Some(Button::Misc1),
            16 => Some(Button::Paddle1),
            17 => Some(Button::Paddle2),
            18 => Some(Button::Paddle3),
            19 => Some(Button::Paddle4),
            20 => Some(Button::Touchpad),
            _ => None,
        }
    }

    /// The set containing exactly this button.
    pub fn mask(self) -> (r: Buttons)
        ensures
            r.bits == self.spec_mask(),
    {
        let c = self.code();
        Buttons { bits: 1u32 << c }
    }
}

/// The button named by a backend wire code, if any.
pub open spec fn spec_button_from_code(c: u8) -> Option<Button> {
    match c {
        0 => Some(Button::A),
        1 => Some(Button::B),
        2 => Some(Button::X),
        3 => Some(Button::Y),
        4 => Some(Button::Back),
        5 => Some(Button::Guide),
        6 => Some(Button::Start),
        7 => Some(Button::LeftStick),
        8 => Some(Button::RightStick),
        9 => Some(Button::LeftShoulder),
        10 => Some(Button::RightShoulder),
        11 => Some(Button::DPadUp),
        12 => Some(Button::DPadDown),
        13 => Some(Button::DPadLeft),
        14 => Some(Button::DPadRight),
        15 => Some(Button::Misc1),
        16 => Some(Button::Paddle1),
        17 => Some(Button::Paddle2),
        18 => Some(Button::Paddle3),
        19 => Some(Button::Paddle4),
        20 => Some(Button::Touchpad),
        _ => None,
    }
}

/// Law: the wire-code table is a bijection between buttons and the codes
/// zero through twenty.
pub proof fn lemma_button_code_bijection()
    ensures
        forall|b: Button| #[trigger] spec_button_from_code(b.spec_code()) == Some(b),
        forall|c: u8| c <= 20 ==> ((#[trigger] spec_button_from_code(c)) matches Some(b)
            && b.spec_code() == c),
        forall|c: u8| c > 20 ==> spec_button_from_code(c) is None,
{
}

/// A set of logical buttons, one bit per button.
#[derive(Debug, Clone, Copy, PartialEq, Eq, Hash, Structural)]
pub struct Buttons {
    /// One bit per button, bit position given by [`Button::spec_code`].
    pub bits: u32,
}

impl Buttons {
    /// Membership of a single button in the set.
    pub open spec fn spec_contains(self, b: Button) -> bool {
        self.bits & b.spec_mask() != 0
    }

    /// The empty set.
    pub fn empty() -> (r: Buttons)
        ensures
            r.bits == 0,
    {
        Buttons { bits: 0 }
    }

    /// The set of all twenty-one buttons: bits zero through twenty.
    pub fn all() -> (r: Buttons)
        ensures
            r.bits == 0x1F_FFFF,
    {
        Buttons { bits: 0x1F_FFFF }
    }

    /// Set union.
    pub fn union(self, other: Buttons) -> (r: Buttons)
        ensures
            r.bits == self.bits | other.bits,
    {
        Buttons { bits: self.bits | other.bits }
    }

    /// Adds a single button to the set.
    pub fn insert(self, b: Button) -> (r: Buttons)
        ensures
            r.bits == self.bits | b.spec_mask(),
    {
        let m = b.mask();
        Buttons { bits: self.bits | m.bits }
    }

    /// Whether the set contains the given button.
    pub fn contains(self, b: Button) -> (r: bool)
        ensures
            r == self.spec_contains(b),
    {
        let m = b.mask();
        self.bits & m.bits != 0
    }
}

/// What the filtered button query returns: the intersection of the pressed
/// set with the queried set.
pub open spec fn spec_buttons(pressed: Buttons, query: Buttons) -> Buttons {
    Buttons { bits: pressed.bits & query.bits }
}

/// Whether every queried button is pressed.
pub open spec fn spec_buttons_pressed(pressed: Buttons, query: Buttons) -> bool {
    pressed.bits & query.bits == query.bits
}

/// The current state of the queried buttons: of `query`, exactly those
/// buttons that are in the polled `pressed` set.
pub fn buttons(pressed: Buttons, query: Buttons) -> (r: Buttons)
    ensures
        r == spec_buttons(pressed, query),
{
    Buttons { bits: pressed.bits & query.bits }
}

/// Whether all queried buttons are currently pressed: the filtered query
/// equals the query itself.
pub fn buttons_pressed(pressed: Buttons, query: Buttons) -> (r: bool)
    ensures
        r == spec_buttons_pressed(pressed, query),
{
    let held = buttons(pressed, query);
    held.bits == query.bits
}

/// Law: querying the union of two buttons succeeds exactly when each button
/// is individually contained in the pressed set; buttons pressed outside the
/// query play no part.
pub proof fn lemma_buttons_pressed_pair(pressed: Buttons, a: Button, b: Button)
    ensures
        spec_buttons_pressed(pressed, Buttons { bits: a.spec_mask() | b.spec_mask() })
            <==> (pressed.spec_contains(a) && pressed.spec_contains(b)),
{
    let p = pressed.bits;
    let ca = a.spec_code();
    let cb = b.spec_code();
    assert(ca <= 20 && cb <= 20);
    assert((p & ((1u32 << ca) | (1u32 << cb)) == ((1u32 << ca) | (1u32 << cb))) <==> ((p & (1u32
        << ca) != 0) && (p & (1u32 << cb) != 0))) by (bit_vector)
        requires
            ca <= 20,
            cb <= 20,
    ;
}

/// Normalized position of an analog stick, given its two raw axis samples and
/// a deadzone threshold. The first component is the horizontal axis, left to
/// right; the second the vertical axis, top to bottom.
pub fn stick_with_deadzone(x_raw: i16, y_raw: i16, deadzone: Frac) -> (r: (Frac, Frac))
    requires
        deadzone.wf_deadzone(),
    ensures
        r.0 == spec_normalize(x_raw as i64, deadzone, AXIS_MAX),
        r.1 == spec_normalize(y_raw as i64, deadzone, AXIS_MAX),
{
    (normalize(x_raw as i64, deadzone, AXIS_MAX), normalize(y_raw as i64, deadzone, AXIS_MAX))
}

/// Normalized position of an analog stick with the default stick deadzone.
pub fn stick(x_raw: i16, y_raw: i16) -> (r: (Frac, Frac))
    ensures
        r.0 == spec_normalize(x_raw as i64, Frac { num: 1, den: 10 }, AXIS_MAX),
        r.1 == spec_normalize(y_raw as i64, Frac { num: 1, den: 10 }, AXIS_MAX),
{
    stick_with_deadzone(x_raw, y_raw, stick_deadzone())
}

/// Normalized value of a trigger, given its raw axis sample. Triggers rest at
/// zero, so no deadzone is applied.
pub fn trigger(raw: i16) -> (r: Frac)
    ensures
        r == spec_normalize(raw as i64, Frac { num: 0, den: 1 }, AXIS_MAX),
{
    normalize(raw as i64, zero_deadzone(), AXIS_MAX)
}

} // verus!
