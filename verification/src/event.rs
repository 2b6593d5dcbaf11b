//! Input event types, and how raw backend records become them.
//!
//! The backend delivers one raw event record at a time. [`RawEvent`] mirrors
//! that record as plain values: the recognized input kinds carry their
//! payload fields, every other kind of the backend's event taxonomy (window,
//! keyboard, mouse, joystick, gesture, drag-and-drop, audio-device, and so
//! on) appears as a bare variant. Translation maps each recognized kind to
//! exactly one [`Event`] and silently discards all the rest; it is a pure
//! function of the single input record.

use vstd::prelude::*;

use crate::input::Axis;
use crate::input::Button;
use crate::input::Stick;
use crate::input::Trigger;
use crate::input::spec_button_from_code;
use crate::norm::AXIS_MAX;
use crate::norm::Frac;
use crate::norm::normalize;
use crate::norm::spec_normalize;
use crate::norm::stick_deadzone;
use crate::sensors::Sensor;
use crate::sensors::sensor_data;
use crate::sensors::spec_sensor_filter;
use crate::touchpad::TouchpadAction;

verus! {

/// One raw event record as the backend delivers it, reduced to plain values.
///
/// Touchpad positions and pressures are IEEE-754 single-precision bit
/// patterns; sensor components are double-precision bit patterns. Kinds the
/// library does not consume carry no payload here, since translation
/// discards them unread.
#[derive(Debug, Clone, Copy, PartialEq, Eq, Structural)]
pub enum RawEvent {
    /// Application quit requested.
    Quit,
    /// A controller analog axis moved; each record reports a single axis.
    ControllerAxisMotion {
        /// Controller instance ID.
        which: u32,
        /// The axis that moved.
        axis: Axis,
        /// Raw signed sample, magnitude at most [`AXIS_MAX`].
        value: i16,
    },
    /// A controller button was pressed.
    ControllerButtonDown {
        /// Controller instance ID.
        which: u32,
        /// Backend wire code of the button.
        button: u8,
    },
    /// A controller button was released.
    ControllerButtonUp {
        /// Controller instance ID.
        which: u32,
        /// Backend wire code of the button.
        button: u8,
    },
    /// A controller was connected.
    ControllerDeviceAdded {
        /// Controller instance ID.
        which: u32,
    },
    /// A controller was disconnected.
    ControllerDeviceRemoved {
        /// Controller instance ID.
        which: u32,
    },
    /// A controller's button mapping changed.
    ControllerDeviceRemapped {
        /// Controller instance ID.
        which: u32,
    },
    /// A controller's Steam handle was updated.
    ControllerSteamHandleUpdate {
        /// Controller instance ID.
        which: u32,
    },
    /// A finger touched a controller touchpad.
    ControllerTouchpadDown {
        /// Controller instance ID.
        which: u32,
        /// Touchpad index.
        touchpad: u32,
        /// Finger index.
        finger: u32,
        /// Horizontal position, bit pattern.
        x: u32,
        /// Vertical position, bit pattern.
        y: u32,
        /// Pressure, bit pattern.
        pressure: u32,
    },
    /// A finger left a controller touchpad.
    ControllerTouchpadUp {
        /// Controller instance ID.
        which: u32,
        /// Touchpad index.
        touchpad: u32,
        /// Finger index.
        finger: u32,
        /// Horizontal position, bit pattern.
        x: u32,
        /// Vertical position, bit pattern.
        y: u32,
        /// Pressure, bit pattern.
        pressure: u32,
    },
    /// A finger moved on a controller touchpad.
    ControllerTouchpadMotion {
        /// Controller instance ID.
        which: u32,
        /// Touchpad index.
        touchpad: u32,
        /// Finger index.
        finger: u32,
        /// Horizontal position, bit pattern.
        x: u32,
        /// Vertical position, bit pattern.
        y: u32,
        /// Pressure, bit pattern.
        pressure: u32,
    },
    /// A controller sensor reported fresh data.
    ControllerSensorUpdated {
        /// Controller instance ID.
        which: u32,
        /// The sensor that reported.
        sensor: Sensor,
        /// First component, double-precision bit pattern.
        x: u64,
        /// Second component, double-precision bit pattern.
        y: u64,
        /// Third component, double-precision bit pattern.
        z: u64,
    },
    /// The application is terminating.
    AppTerminating,
    /// The system is low on memory.
    AppLowMemory,
    /// The application is about to enter the background.
    AppWillEnterBackground,
    /// The application entered the background.
    AppDidEnterBackground,
    /// The application is about to enter the foreground.
    AppWillEnterForeground,
    /// The application entered the foreground.
    AppDidEnterForeground,
    /// A display changed.
    Display,
    /// A window changed.
    Window,
    /// A keyboard key was pressed.
    KeyDown,
    /// A keyboard key was released.
    KeyUp,
    /// Text is being edited.
    TextEditing,
    /// Text was input.
    TextInput,
    /// The mouse moved.
    MouseMotion,
    /// A mouse button was pressed.
    MouseButtonDown,
    /// A mouse button was released.
    MouseButtonUp,
    /// The mouse wheel moved.
    MouseWheel,
    /// A joystick axis moved.
    JoyAxisMotion,
    /// A joystick trackball moved.
    JoyBallMotion,
    /// A joystick hat switched position.
    JoyHatMotion,
    /// A joystick button was pressed.
    JoyButtonDown,
    /// A joystick button was released.
    JoyButtonUp,
    /// A joystick was connected.
    JoyDeviceAdded,
    /// A joystick was disconnected.
    JoyDeviceRemoved,
    /// A finger touched a touch device.
    FingerDown,
    /// A finger left a touch device.
    FingerUp,
    /// A finger moved on a touch device.
    FingerMotion,
    /// A dollar-template gesture was recognized.
    DollarGesture,
    /// A dollar-template gesture was recorded.
    DollarRecord,
    /// A multi-finger gesture was performed.
    MultiGesture,
    /// The clipboard changed.
    ClipboardUpdate,
    /// A file was dropped.
    DropFile,
    /// Text was dropped.
    DropText,
    /// A set of drops begins.
    DropBegin,
    /// A set of drops is complete.
    DropComplete,
    /// An audio device was added.
    AudioDeviceAdded,
    /// An audio device was removed.
    AudioDeviceRemoved,
    /// Render targets were reset.
    RenderTargetsReset,
    /// The render device was reset.
    RenderDeviceReset,
    /// The locale changed.
    LocaleChanged,
    /// A user-defined event.
    User,
    /// An event kind the backend did not name.
    Unknown,
}

/// Touchpad event with position, pressure, and action.
#[derive(Debug, Clone, Copy, PartialEq, Eq, Structural)]
pub struct TouchpadEvent {
    /// Controller instance ID.
    pub which: u32,
    /// Touchpad index.
    pub idx: u32,
    /// Finger index.
    pub finger: u32,
    /// Horizontal position, single-precision bit pattern, in `[0, 1]`.
    pub x: u32,
    /// Vertical position, single-precision bit pattern, in `[0, 1]`.
    pub y: u32,
    /// Pressure, single-precision bit pattern, in `[0, 1]`.
    pub pressure: u32,
    /// Type of touch action.
    pub action: TouchpadAction,
}

impl TouchpadEvent {
    /// What conversion from a raw event returns: the three touchpad kinds
    /// become a touchpad event with the matching action, everything else is
    /// discarded.
    pub open spec fn spec_from_raw(raw: RawEvent) -> Option<TouchpadEvent> {
        match raw {
            RawEvent::ControllerTouchpadDown { which, touchpad, finger, x, y, pressure } => Some(
                TouchpadEvent {
                    which,
                    idx: touchpad,
                    finger,
                    x,
                    y,
                    pressure,
                    action: TouchpadAction::Touched,
                },
            ),
            RawEvent::ControllerTouchpadUp { which, touchpad, finger, x, y, pressure } => Some(
                TouchpadEvent {
                    which,
                    idx: touchpad,
                    finger,
                    x,
                    y,
                    pressure,
                    action: TouchpadAction::Released,
                },
            ),
            RawEvent::ControllerTouchpadMotion { which, touchpad, finger, x, y, pressure } => Some(
                TouchpadEvent {
                    which,
                    idx: touchpad,
                    finger,
                    x,
                    y,
                    pressure,
                    action: TouchpadAction::Moved,
                },
            ),
            _ => None,
        }
    }

    /// Converts from a raw event: a touchpad-down record becomes `Touched`,
    /// a touchpad-up record `Released`, a touchpad-motion record `Moved`;
    /// every other kind gives nothing.
    pub fn from_raw(raw: RawEvent) -> (r: Option<TouchpadEvent>)
        ensures
            r == Self::spec_from_raw(raw),
    {
        match raw {
            RawEvent::ControllerTouchpadDown { which, touchpad, finger, x, y, pressure } => Some(
                TouchpadEvent {
                    which,
                    idx: touchpad,
                    finger,
                    x,
                    y,
                    pressure,
                    action: TouchpadAction::Touched,
                },
            ),
            RawEvent::ControllerTouchpadUp { which, touchpad, finger, x, y, pressure } => Some(
                TouchpadEvent {
                    which,
                    idx: touchpad,
                    finger,
                    x,
                    y,
                    pressure,
                    action: TouchpadAction::Released,
                },
            ),
            RawEvent::ControllerTouchpadMotion { which, touchpad, finger, x, y, pressure } => Some(
                TouchpadEvent {
                    which,
                    idx: touchpad,
                    finger,
                    x,
                    y,
                    pressure,
                    action: TouchpadAction::Moved,
                },
            ),
            _ => None,
        }
    }
}

/// Input events that can be processed by the library.
#[derive(Debug, Clone, Copy, PartialEq, Eq, Structural)]
pub enum Event {
    /// Application quit requested.
    Quit,
    /// Analog stick movement. Each raw record reports a single axis of the
    /// pair; the untouched axis is reported as zero rather than its last
    /// value, as the source protocol's partial updates leave it unknown.
    ControllerStickMotion {
        /// Controller instance ID.
        which: u32,
        /// Which stick moved.
        stick: Stick,
        /// Normalized horizontal position, default stick deadzone applied.
        offset_x: Frac,
        /// Normalized vertical position, default stick deadzone applied.
        offset_y: Frac,
    },
    /// Trigger movement.
    ControllerTriggerMotion {
        /// Controller instance ID.
        which: u32,
        /// Which trigger moved.
        trigger: Trigger,
        /// Normalized trigger value, no deadzone.
        offset: Frac,
    },
    /// Button pressed.
    ControllerButtonDown {
        /// Controller instance ID.
        which: u32,
        /// Button that was pressed.
        button: Button,
    },
    /// Button released.
    ControllerButtonUp {
        /// Controller instance ID.
        which: u32,
        /// Button that was released.
        button: Button,
    },
    /// New controller connected.
    ControllerDeviceAdded {
        /// Controller instance ID.
        which: u32,
    },
    /// Controller disconnected.
    ControllerDeviceRemoved {
        /// Controller instance ID.
        which: u32,
    },
    /// Controller button mapping changed.
    ControllerDeviceRemapped {
        /// Controller instance ID.
        which: u32,
    },
    /// Steam controller handle updated.
    ControllerSteamHandleUpdate {
        /// Controller instance ID.
        which: u32,
    },
    /// Touchpad event.
    ControllerTouchpad(TouchpadEvent),
    /// Sensor data updated, each component filtered by the sensor deadzone.
    ControllerSensorUpdated {
        /// Controller instance ID.
        which: u32,
        /// Type of sensor.
        sensor: Sensor,
        /// First component, double-precision bit pattern.
        x: u64,
        /// Second component, double-precision bit pattern.
        y: u64,
        /// Third component, double-precision bit pattern.
        z: u64,
    },
}

/// The normalized value a stick-axis record contributes: the raw sample over
/// [`AXIS_MAX`], with the default stick deadzone.
pub open spec fn spec_stick_value(value: i16) -> Frac {
    spec_normalize(value as i64, Frac { num: 1, den: 10 }, AXIS_MAX)
}

/// The normalized value a trigger-axis record contributes: the raw sample
/// over [`AXIS_MAX`], with no deadzone.
pub open spec fn spec_trigger_value(value: i16) -> Frac {
    spec_normalize(value as i64, Frac { num: 0, den: 1 }, AXIS_MAX)
}

/// Whether translation consumes this kind of raw event at all.
pub open spec fn spec_recognized(raw: RawEvent) -> bool {
    match raw {
        RawEvent::Quit => true,
        RawEvent::ControllerAxisMotion { .. } => true,
        RawEvent::ControllerButtonDown { .. } => true,
        RawEvent::ControllerButtonUp { .. } => true,
        RawEvent::ControllerDeviceAdded { .. } => true,
        RawEvent::ControllerDeviceRemoved { .. } => true,
        RawEvent::ControllerDeviceRemapped { .. } => true,
        RawEvent::ControllerSteamHandleUpdate { .. } => true,
        RawEvent::ControllerTouchpadDown { .. } => true,
        RawEvent::ControllerTouchpadUp { .. } => true,
        RawEvent::ControllerTouchpadMotion { .. } => true,
        RawEvent::ControllerSensorUpdated { .. } => true,
        _ => false,
    }
}

impl Event {
    /// What translation returns, for every raw event record.
    pub open spec fn spec_from_raw(raw: RawEvent) -> Option<Event> {
        match raw {
            RawEvent::Quit => Some(Event::Quit),
            RawEvent::ControllerAxisMotion { which, axis, value } => Some(
                match axis {
                    Axis::LeftX => Event::ControllerStickMotion {
                        which,
                        stick: Stick::Left,
                        offset_x: spec_stick_value(value),
                        offset_y: Frac { num: 0, den: 1 },
                    },
                    Axis::LeftY => Event::ControllerStickMotion {
                        which,
                        stick: Stick::Left,
                        offset_x: Frac { num: 0, den: 1 },
                        offset_y: spec_stick_value(value),
                    },
                    Axis::RightX => Event::ControllerStickMotion {
                        which,
                        stick: Stick::Right,
                        offset_x: spec_stick_value(value),
                        offset_y: Frac { num: 0, den: 1 },
                    },
                    Axis::RightY => Event::ControllerStickMotion {
                        which,
                        stick: Stick::Right,
                        offset_x: Frac { num: 0, den: 1 },
                        offset_y: spec_stick_value(value),
                    },
                    Axis::TriggerLeft => Event::ControllerTriggerMotion {
                        which,
                        trigger: Trigger::Left,
                        offset: spec_trigger_value(value),
                    },
                    Axis::TriggerRight => Event::ControllerTriggerMotion {
                        which,
                        trigger: Trigger::Right,
                        offset: spec_trigger_value(value),
                    },
                },
            ),
            RawEvent::ControllerButtonDown { which, button } => match spec_button_from_code(
                button,
            ) {
                Some(b) => Some(Event::ControllerButtonDown { which, button: b }),
                None => None,
            },
            RawEvent::ControllerButtonUp { which, button } => match spec_button_from_code(button) {
                Some(b) => Some(Event::ControllerButtonUp { which, button: b }),
                None => None,
            },
            RawEvent::ControllerDeviceAdded { which } => Some(
                Event::ControllerDeviceAdded { which },
            ),
            RawEvent::ControllerDeviceRemoved { which } => Some(
                Event::ControllerDeviceRemoved { which },
            ),
            RawEvent::ControllerDeviceRemapped { which } => Some(
                Event::ControllerDeviceRemapped { which },
            ),
            RawEvent::ControllerSteamHandleUpdate { which } => Some(
                Event::ControllerSteamHandleUpdate { which },
            ),
            RawEvent::ControllerTouchpadDown { .. } => match TouchpadEvent::spec_from_raw(raw) {
                Some(t) => Some(Event::ControllerTouchpad(t)),
                None => None,
            },
            RawEvent::ControllerTouchpadUp { .. } => match TouchpadEvent::spec_from_raw(raw) {
                Some(t) => Some(Event::ControllerTouchpad(t)),
                None => None,
            },
            RawEvent::ControllerTouchpadMotion { .. } => match TouchpadEvent::spec_from_raw(raw) {
                Some(t) => Some(Event::ControllerTouchpad(t)),
                None => None,
            },
            RawEvent::ControllerSensorUpdated { which, sensor, x, y, z } => Some(
                Event::ControllerSensorUpdated {
                    which,
                    sensor,
                    x: spec_sensor_filter(x),
                    y: spec_sensor_filter(y),
                    z: spec_sensor_filter(z),
                },
            ),
            _ => None,
        }
    }

    /// Translates one raw event record. Every recognized kind maps to exactly
    /// one event; every other kind is silently discarded. A button record
    /// must carry a known wire code — an unknown code cannot come from a
    /// conformant backend.
    pub fn from_raw(raw: RawEvent) -> (r: Option<Event>)
        requires
            raw matches RawEvent::ControllerButtonDown { button, .. } ==> button <= 20,
            raw matches RawEvent::ControllerButtonUp { button, .. } ==> button <= 20,
        ensures
            r == Self::spec_from_raw(raw),
    {
        match raw {
            RawEvent::Quit => Some(Event::Quit),
            RawEvent::ControllerAxisMotion { which, axis, value } => Some(
                match axis {
                    Axis::LeftX => Event::ControllerStickMotion {
                        which,
                        stick: Stick::Left,
                        offset_x: normalize(value as i64, stick_deadzone(), AXIS_MAX),
                        offset_y: Frac::zero(),
                    },
                    Axis::LeftY => Event::ControllerStickMotion {
                        which,
                        stick: Stick::Left,
                        offset_x: Frac::zero(),
                        offset_y: normalize(value as i64, stick_deadzone(), AXIS_MAX),
                    },
                    Axis::RightX => Event::ControllerStickMotion {
                        which,
                        stick: Stick::Right,
                        offset_x: normalize(value as i64, stick_deadzone(), AXIS_MAX),
                        offset_y: Frac::zero(),
                    },
                    Axis::RightY => Event::ControllerStickMotion {
                        which,
                        stick: Stick::Right,
                        offset_x: Frac::zero(),
                        offset_y: normalize(value as i64, stick_deadzone(), AXIS_MAX),
                    },
                    Axis::TriggerLeft => Event::ControllerTriggerMotion {
                        which,
                        trigger: Trigger::Left,
                        offset: trigger_normalize(value),
                    },
                    Axis::TriggerRight => Event::ControllerTriggerMotion {
                        which,
                        trigger: Trigger::Right,
                        offset: trigger_normalize(value),
                    },
                },
            ),
            RawEvent::ControllerButtonDown { which, button } => match Button::from_code(button) {
                Some(b) => Some(Event::ControllerButtonDown { which, button: b }),
                None => None,
            },
            RawEvent::ControllerButtonUp { which, button } => match Button::from_code(button) {
                Some(b) => Some(Event::ControllerButtonUp { which, button: b }),
                None => None,
            },
            RawEvent::ControllerDeviceAdded { which } => Some(
                Event::ControllerDeviceAdded { which },
            ),
            RawEvent::ControllerDeviceRemoved { which } => Some(
                Event::ControllerDeviceRemoved { which },
            ),
            RawEvent::ControllerDeviceRemapped { which } => Some(
                Event::ControllerDeviceRemapped { which },
            ),
            RawEvent::ControllerSteamHandleUpdate { which } => Some(
                Event::ControllerSteamHandleUpdate { which },
            ),
            RawEvent::ControllerTouchpadDown { .. } => match TouchpadEvent::from_raw(raw) {
                Some(t) => Some(Event::ControllerTouchpad(t)),
                None => None,
            },
            RawEvent::ControllerTouchpadUp { .. } => match TouchpadEvent::from_raw(raw) {
                Some(t) => Some(Event::ControllerTouchpad(t)),
                None => None,
            },
            RawEvent::ControllerTouchpadMotion { .. } => match TouchpadEvent::from_raw(raw) {
                Some(t) => Some(Event::ControllerTouchpad(t)),
                None => None,
            },
            RawEvent::ControllerSensorUpdated { which, sensor, x, y, z } => {
                let (x, y, z) = sensor_data(x, y, z);
                Some(Event::ControllerSensorUpdated { which, sensor, x, y, z })
            },
            _ => None,
        }
    }
}

/// Normalizes a trigger-axis sample with no deadzone.
fn trigger_normalize(value: i16) -> (r: Frac)
    ensures
        r == spec_trigger_value(value),
{
    normalize(value as i64, Frac { num: 0, den: 1 }, AXIS_MAX)
}

/// Law: translation discards every raw event kind outside the recognized
/// set — it returns nothing for all of them.
pub proof fn lemma_translate_discards_unrecognized(raw: RawEvent)
    requires
        !spec_recognized(raw),
    ensures
        Event::spec_from_raw(raw) is None,
{
}

/// Law: every recognized raw event kind — with a button code a conformant
/// backend can produce — translates to exactly one event.
pub proof fn lemma_translate_covers_recognized(raw: RawEvent)
    requires
        spec_recognized(raw),
        raw matches RawEvent::ControllerButtonDown { button, .. } ==> button <= 20,
        raw matches RawEvent::ControllerButtonUp { button, .. } ==> button <= 20,
    ensures
        Event::spec_from_raw(raw) is Some,
{
}

} // verus!
