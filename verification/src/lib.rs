//! Gamepad input normalization.
//!
//! The library turns raw controller input — signed axis samples, wire-format
//! events, per-poll touchpad finger readings, button states — into a stable,
//! deduplicated, deadzone-corrected event and query model. It holds no device
//! handles itself: a thin unverified shell polls the native backend and hands
//! the raw readings to the functions here as plain values.
//!
//! Values the backend reports as floating point are carried in exact form
//! instead: a normalized axis position is an exact rational ([`Frac`]), and
//! touchpad positions, pressures and sensor readings are carried as the
//! IEEE-754 bit patterns the backend produced, which the logic only stores,
//! compares bit for bit, and hands back.

pub mod event;
pub mod gamepad;
pub mod input;
pub mod norm;
pub mod sensors;
pub mod touchpad;

pub use crate::event::Event;
pub use crate::event::RawEvent;
pub use crate::event::TouchpadEvent;
pub use crate::gamepad::Gamepad;
pub use crate::gamepad::GamepadId;
pub use crate::gamepad::PowerLevel;
pub use crate::input::Axis;
pub use crate::input::Button;
pub use crate::input::Buttons;
pub use crate::input::Stick;
pub use crate::input::Trigger;
pub use crate::norm::Frac;
pub use crate::sensors::Sensor;
pub use crate::touchpad::FingerSample;
pub use crate::touchpad::TouchpadAction;
pub use crate::touchpad::TouchpadState;
pub use crate::touchpad::TouchpadTracker;

use vstd::prelude::*;

verus! {

/// Error types that can occur when working with gamepad input.
#[derive(Debug)]
pub enum Error {
    /// The native backend failed to initialize.
    Sdl2Init(String),
    /// An error occurred in the native backend.
    SdlError(String),
}

} // verus!
