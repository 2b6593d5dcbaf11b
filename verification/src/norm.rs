//! The axis normalizer: maps a raw signed axis sample to a bounded,
//! deadzone-filtered value.
//!
//! The backend reports an axis as a signed integer sample whose magnitude is
//! at most [`AXIS_MAX`]. The normalized position is the exact rational
//! `raw / max`, forced to zero when its magnitude lies below the deadzone
//! threshold. Carrying the result as a [`Frac`] keeps the arithmetic exact;
//! a caller that wants a machine real divides the two fields outside the
//! verified code.

use vstd::prelude::*;

verus! {

/// Maximum magnitude of a raw axis sample, the backend's
/// `SDL_JOYSTICK_AXIS_MAX` constant.
pub const AXIS_MAX: i64 = 32767;

/// An exact rational number `num / den` with a positive denominator.
#[derive(Debug, Clone, Copy, PartialEq, Eq, Structural)]
pub struct Frac {
    /// Numerator.
    pub num: i64,
    /// Denominator; positive for a well-formed value.
    pub den: i64,
}

impl Frac {
    /// A well-formed rational has a positive denominator.
    pub open spec fn wf(self) -> bool {
        0 < self.den
    }

    /// A deadzone threshold is a well-formed rational in `[0, 1]`.
    pub open spec fn wf_deadzone(self) -> bool {
        0 < self.den && 0 <= self.num <= self.den
    }

    /// The value is exactly zero.
    pub open spec fn spec_is_zero(self) -> bool {
        self.num == 0
    }

    /// The rational zero.
    pub fn zero() -> (r: Frac)
        ensures
            r == (Frac { num: 0, den: 1 }),
    {
        Frac { num: 0, den: 1 }
    }

    /// Whether the value is exactly zero.
    pub fn is_zero(&self) -> (r: bool)
        ensures
            r == self.spec_is_zero(),
    {
        self.num == 0
    }
}

/// The default deadzone threshold for analog sticks, one tenth.
pub fn stick_deadzone() -> (r: Frac)
    ensures
        r == (Frac { num: 1, den: 10 }),
{
    Frac { num: 1, den: 10 }
}

/// A deadzone threshold of zero, used for triggers, which rest at zero.
pub fn zero_deadzone() -> (r: Frac)
    ensures
        r == (Frac { num: 0, den: 1 }),
{
    Frac { num: 0, den: 1 }
}

/// Magnitude of a machine integer, as a mathematical integer.
pub open spec fn abs_of(x: i64) -> int {
    if x < 0 {
        -(x as int)
    } else {
        x as int
    }
}

/// The raw sample lies strictly inside the deadzone:
/// `|raw / max| < deadzone`, stated by cross multiplication.
pub open spec fn in_deadzone(raw: i64, deadzone: Frac, max: i64) -> bool {
    abs_of(raw) * (deadzone.den as int) < (deadzone.num as int) * (max as int)
}

/// What `normalize` returns: `raw / max` exactly, or zero inside the deadzone.
pub open spec fn spec_normalize(raw: i64, deadzone: Frac, max: i64) -> Frac {
    if in_deadzone(raw, deadzone, max) {
        Frac { num: 0, den: 1 }
    } else {
        Frac { num: raw, den: max }
    }
}

/// Maps a raw axis sample to its exact normalized position `raw / max`,
/// clamped to zero when its magnitude lies strictly below `deadzone`.
pub fn normalize(raw: i64, deadzone: Frac, max: i64) -> (r: Frac)
    requires
        max > 0,
        deadzone.wf_deadzone(),
    ensures
        r == spec_normalize(raw, deadzone, max),
        r.wf(),
{
    let mag: i128 = if raw < 0 {
        -(raw as i128)
    } else {
        raw as i128
    };
    assert(mag * (deadzone.den as i128) < i128::MAX && mag * (deadzone.den as i128)
        > i128::MIN) by (nonlinear_arith)
        requires
            0 <= mag < 0x1_0000_0000_0000_0000,
            0 < deadzone.den < 0x8000_0000_0000_0000,
    ;
    assert((deadzone.num as i128) * (max as i128) < i128::MAX && (deadzone.num as i128) * (
    max as i128) >= 0) by (nonlinear_arith)
        requires
            0 <= deadzone.num < 0x8000_0000_0000_0000,
            0 < max < 0x8000_0000_0000_0000,
    ;
    if mag * (deadzone.den as i128) < (deadzone.num as i128) * (max as i128) {
        Frac { num: 0, den: 1 }
    } else {
        Frac { num: raw, den: max }
    }
}

/// Law: with a zero deadzone, every sample normalizes to exactly `raw / max`;
/// and whenever the sample's magnitude lies inside the deadzone, the
/// normalized value is exactly zero.
pub proof fn lemma_normalize(raw: i64, deadzone: Frac, max: i64)
    requires
        max > 0,
        deadzone.wf_deadzone(),
    ensures
        deadzone.num == 0 ==> spec_normalize(raw, deadzone, max) == (Frac {
            num: raw,
            den: max,
        }),
        in_deadzone(raw, deadzone, max) ==> spec_normalize(raw, deadzone, max).spec_is_zero(),
{
    assert(abs_of(raw) * (deadzone.den as int) >= 0) by (nonlinear_arith)
        requires
            abs_of(raw) >= 0,
            deadzone.den > 0,
    ;
}

} // verus!
