use girl::event::{Event, RawEvent, TouchpadEvent};
use girl::input::{Axis, Button, Stick, Trigger};
use girl::norm::Frac;
use girl::sensors::Sensor;
use girl::touchpad::TouchpadAction;

/// A raw stick-axis record for the horizontal left axis near half deflection,
/// with the default deadzone, becomes a left-stick motion whose horizontal
/// offset carries the normalized value and whose vertical offset is zero.
#[test]
fn left_x_motion_fills_x_slot() {
    let e = Event::from_raw(RawEvent::ControllerAxisMotion {
        which: 7,
        axis: Axis::LeftX,
        value: 16384,
    });
    let expected = Event::ControllerStickMotion {
        which: 7,
        stick: Stick::Left,
        offset_x: Frac { num: 16384, den: 32767 },
        offset_y: Frac { num: 0, den: 1 },
    };
    assert_eq!(e, Some(expected));
    if let Some(Event::ControllerStickMotion { offset_x, .. }) = e {
        assert!(((offset_x.num as f64) / (offset_x.den as f64) - 0.5).abs() < 1e-4);
    } else {
        unreachable!();
    }
}

/// The vertical axes land in the vertical slot; the right stick is told
/// apart from the left.
#[test]
fn other_stick_axes() {
    let e = Event::from_raw(RawEvent::ControllerAxisMotion {
        which: 1,
        axis: Axis::LeftY,
        value: -20000,
    });
    assert_eq!(
        e,
        Some(Event::ControllerStickMotion {
            which: 1,
            stick: Stick::Left,
            offset_x: Frac { num: 0, den: 1 },
            offset_y: Frac { num: -20000, den: 32767 },
        })
    );
    let e = Event::from_raw(RawEvent::ControllerAxisMotion {
        which: 1,
        axis: Axis::RightX,
        value: 32767,
    });
    assert_eq!(
        e,
        Some(Event::ControllerStickMotion {
            which: 1,
            stick: Stick::Right,
            offset_x: Frac { num: 32767, den: 32767 },
            offset_y: Frac { num: 0, den: 1 },
        })
    );
    let e = Event::from_raw(RawEvent::ControllerAxisMotion {
        which: 1,
        axis: Axis::RightY,
        value: 2000,
    });
    // 2000 / 32767 is inside the default stick deadzone
    assert_eq!(
        e,
        Some(Event::ControllerStickMotion {
            which: 1,
            stick: Stick::Right,
            offset_x: Frac { num: 0, den: 1 },
            offset_y: Frac { num: 0, den: 1 },
        })
    );
}

/// Trigger axes translate with no deadzone: even a one-step press shows.
#[test]
fn trigger_motion() {
    let e = Event::from_raw(RawEvent::ControllerAxisMotion {
        which: 2,
        axis: Axis::TriggerLeft,
        value: 1,
    });
    assert_eq!(
        e,
        Some(Event::ControllerTriggerMotion {
            which: 2,
            trigger: Trigger::Left,
            offset: Frac { num: 1, den: 32767 },
        })
    );
    let e = Event::from_raw(RawEvent::ControllerAxisMotion {
        which: 2,
        axis: Axis::TriggerRight,
        value: 32767,
    });
    assert_eq!(
        e,
        Some(Event::ControllerTriggerMotion {
            which: 2,
            trigger: Trigger::Right,
            offset: Frac { num: 32767, den: 32767 },
        })
    );
}

/// Button records carry the device ID and the decoded logical button.
#[test]
fn button_events() {
    let e = Event::from_raw(RawEvent::ControllerButtonDown { which: 4, button: 0 });
    assert_eq!(e, Some(Event::ControllerButtonDown { which: 4, button: Button::A }));
    let e = Event::from_raw(RawEvent::ControllerButtonUp { which: 4, button: 20 });
    assert_eq!(e, Some(Event::ControllerButtonUp { which: 4, button: Button::Touchpad }));
}

/// Device lifecycle records pass the device ID through unchanged.
#[test]
fn device_lifecycle_events() {
    assert_eq!(
        Event::from_raw(RawEvent::ControllerDeviceAdded { which: 9 }),
        Some(Event::ControllerDeviceAdded { which: 9 })
    );
    assert_eq!(
        Event::from_raw(RawEvent::ControllerDeviceRemoved { which: 9 }),
        Some(Event::ControllerDeviceRemoved { which: 9 })
    );
    assert_eq!(
        Event::from_raw(RawEvent::ControllerDeviceRemapped { which: 9 }),
        Some(Event::ControllerDeviceRemapped { which: 9 })
    );
    assert_eq!(
        Event::from_raw(RawEvent::ControllerSteamHandleUpdate { which: 9 }),
        Some(Event::ControllerSteamHandleUpdate { which: 9 })
    );
}

/// The quit record becomes the terminal quit event.
#[test]
fn quit_event() {
    assert_eq!(Event::from_raw(RawEvent::Quit), Some(Event::Quit));
}

/// Touchpad records become touchpad events with the matching action.
#[test]
fn touchpad_events() {
    let raw = RawEvent::ControllerTouchpadDown {
        which: 3,
        touchpad: 0,
        finger: 1,
        x: 0.25f32.to_bits(),
        y: 0.75f32.to_bits(),
        pressure: 1.0f32.to_bits(),
    };
    let expected = TouchpadEvent {
        which: 3,
        idx: 0,
        finger: 1,
        x: 0.25f32.to_bits(),
        y: 0.75f32.to_bits(),
        pressure: 1.0f32.to_bits(),
        action: TouchpadAction::Touched,
    };
    assert_eq!(TouchpadEvent::from_raw(raw), Some(expected));
    assert_eq!(Event::from_raw(raw), Some(Event::ControllerTouchpad(expected)));

    let raw = RawEvent::ControllerTouchpadUp {
        which: 3,
        touchpad: 0,
        finger: 1,
        x: 0,
        y: 0,
        pressure: 0,
    };
    match Event::from_raw(raw) {
        Some(Event::ControllerTouchpad(t)) => assert_eq!(t.action, TouchpadAction::Released),
        other => panic!("unexpected translation: {other:?}"),
    }

    let raw = RawEvent::ControllerTouchpadMotion {
        which: 3,
        touchpad: 1,
        finger: 0,
        x: 0.5f32.to_bits(),
        y: 0.5f32.to_bits(),
        pressure: 0.5f32.to_bits(),
    };
    match Event::from_raw(raw) {
        Some(Event::ControllerTouchpad(t)) => {
            assert_eq!(t.action, TouchpadAction::Moved);
            assert_eq!(t.idx, 1);
        }
        other => panic!("unexpected translation: {other:?}"),
    }
    assert_eq!(TouchpadEvent::from_raw(RawEvent::Quit), None);
}

/// Sensor records keep components at or above the threshold and zero the
/// rest, component by component.
#[test]
fn sensor_events() {
    let e = Event::from_raw(RawEvent::ControllerSensorUpdated {
        which: 5,
        sensor: Sensor::Gyroscope,
        x: 0.5f64.to_bits(),
        y: 0.003f64.to_bits(),
        z: (-2.25f64).to_bits(),
    });
    assert_eq!(
        e,
        Some(Event::ControllerSensorUpdated {
            which: 5,
            sensor: Sensor::Gyroscope,
            x: 0.5f64.to_bits(),
            y: 0.0f64.to_bits(),
            z: (-2.25f64).to_bits(),
        })
    );
}

/// Every raw event kind outside the recognized set translates to nothing.
#[test]
fn unrecognized_kinds_are_discarded() {
    let discards = [
        RawEvent::AppTerminating,
        RawEvent::AppLowMemory,
        RawEvent::AppWillEnterBackground,
        RawEvent::AppDidEnterBackground,
        RawEvent::AppWillEnterForeground,
        RawEvent::AppDidEnterForeground,
        RawEvent::Display,
        RawEvent::Window,
        RawEvent::KeyDown,
        RawEvent::KeyUp,
        RawEvent::TextEditing,
        RawEvent::TextInput,
        RawEvent::MouseMotion,
        RawEvent::MouseButtonDown,
        RawEvent::MouseButtonUp,
        RawEvent::MouseWheel,
        RawEvent::JoyAxisMotion,
        RawEvent::JoyBallMotion,
        RawEvent::JoyHatMotion,
        RawEvent::JoyButtonDown,
        RawEvent::JoyButtonUp,
        RawEvent::JoyDeviceAdded,
        RawEvent::JoyDeviceRemoved,
        RawEvent::FingerDown,
        RawEvent::FingerUp,
        RawEvent::FingerMotion,
        RawEvent::DollarGesture,
        RawEvent::DollarRecord,
        RawEvent::MultiGesture,
        RawEvent::ClipboardUpdate,
        RawEvent::DropFile,
        RawEvent::DropText,
        RawEvent::DropBegin,
        RawEvent::DropComplete,
        RawEvent::AudioDeviceAdded,
        RawEvent::AudioDeviceRemoved,
        RawEvent::RenderTargetsReset,
        RawEvent::RenderDeviceReset,
        RawEvent::LocaleChanged,
        RawEvent::User,
        RawEvent::Unknown,
    ];
    for raw in discards {
        assert_eq!(Event::from_raw(raw), None, "{raw:?} should be discarded");
    }
}

/// The button wire-code table is a bijection over the codes zero to twenty.
#[test]
fn button_code_bijection() {
    let all = [
        Button::A,
        Button::B,
        Button::X,
        Button::Y,
        Button::Back,
        Button::Guide,
        Button::Start,
        Button::LeftStick,
        Button::RightStick,
        Button::LeftShoulder,
        Button::RightShoulder,
        Button::DPadUp,
        Button::DPadDown,
        Button::DPadLeft,
        Button::DPadRight,
        Button::Misc1,
        Button::Paddle1,
        Button::Paddle2,
        Button::Paddle3,
        Button::Paddle4,
        Button::Touchpad,
    ];
    for (i, b) in all.iter().enumerate() {
        assert_eq!(b.code(), i as u8);
        assert_eq!(Button::from_code(i as u8), Some(*b));
    }
    assert_eq!(Button::from_code(21), None);
    assert_eq!(Button::from_code(255), None);
}

/// Stick and trigger axis tables.
#[test]
fn axis_tables() {
    assert_eq!(Stick::Left.axis_pair(), (Axis::LeftX, Axis::LeftY));
    assert_eq!(Stick::Right.axis_pair(), (Axis::RightX, Axis::RightY));
    assert_eq!(Trigger::Left.axis(), Axis::TriggerLeft);
    assert_eq!(Trigger::Right.axis(), Axis::TriggerRight);
}
