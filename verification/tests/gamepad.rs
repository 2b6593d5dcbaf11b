use std::cmp::Ordering;

use girl::gamepad::{clamp_rumble_millis, Gamepad, GamepadId, PowerLevel};
use girl::sensors::{sensor_data, sensor_filter, SENSOR_DEADZONE_BITS};
use girl::touchpad::{FingerSample, TouchpadAction, FINGER_PRESSED};

/// Two handles are equal exactly when both subsystem IDs match.
#[test]
fn identity_equality() {
    let a = GamepadId { controller: 3, joystick: 4 };
    assert_eq!(a, GamepadId { controller: 3, joystick: 4 });
    assert_ne!(a, GamepadId { controller: 3, joystick: 5 });
    assert_ne!(a, GamepadId { controller: 2, joystick: 4 });
}

/// Identities order by controller ID first, joystick ID second.
#[test]
fn identity_ordering() {
    let a = GamepadId { controller: 1, joystick: 9 };
    let b = GamepadId { controller: 2, joystick: 0 };
    assert_eq!(a.partial_cmp(&b), Some(Ordering::Less));
    assert!(a < b);
    let c = GamepadId { controller: 1, joystick: 10 };
    assert!(a < c);
    assert_eq!(a.partial_cmp(&a), Some(Ordering::Equal));
    assert_eq!(b.cmp(&a), Ordering::Greater);
}

/// The device core keeps its identity and geometry across polls.
#[test]
fn gamepad_core() {
    let id = GamepadId { controller: 7, joystick: 8 };
    let mut pad = Gamepad::new(id, 1, 2);
    assert_eq!(pad.id, id);
    assert_eq!(pad.has_touchpads(), 1);

    let polled = pad.touchpad(&vec![
        Some(FingerSample {
            state: FINGER_PRESSED,
            x: 0.5f32.to_bits(),
            y: 0.5f32.to_bits(),
            pressure: 1.0f32.to_bits(),
        }),
        None,
    ]);
    assert_eq!(polled.len(), 1);
    assert_eq!(polled[0].action, TouchpadAction::Touched);
    assert_eq!(pad.id, id);
    assert_eq!(pad.has_touchpads(), 1);

    // failed geometry queries count as zero
    let pad = Gamepad::new(id, -3, 2);
    assert_eq!(pad.has_touchpads(), 0);
}

/// The power level words.
#[test]
fn power_level_text() {
    assert_eq!(PowerLevel::Unknown.text(), "Unknown");
    assert_eq!(PowerLevel::Empty.text(), "Empty");
    assert_eq!(PowerLevel::Low.text(), "Low");
    assert_eq!(PowerLevel::Medium.text(), "Medium");
    assert_eq!(PowerLevel::Full.text(), "Full");
    assert_eq!(PowerLevel::Wired.text(), "Wired");
}

/// Rumble durations saturate at the backend's 32-bit limit.
#[test]
fn rumble_duration_saturates() {
    assert_eq!(clamp_rumble_millis(0), 0);
    assert_eq!(clamp_rumble_millis(100), 100);
    assert_eq!(clamp_rumble_millis(u32::MAX as u128), u32::MAX);
    assert_eq!(clamp_rumble_millis(u32::MAX as u128 + 1), u32::MAX);
    assert_eq!(clamp_rumble_millis(u128::MAX), u32::MAX);
}

/// The sensor threshold constant is the bit pattern of one hundredth.
#[test]
fn sensor_threshold_constant() {
    assert_eq!(SENSOR_DEADZONE_BITS, 0.01f64.to_bits());
}

/// The sensor deadzone decides exactly as the floating-point comparison
/// `|x| < 0.01` would, zeroing small components and passing the rest through.
#[test]
fn sensor_filter_matches_float_semantics() {
    let cases = [
        0.0f64, -0.0, 0.005, -0.005, 0.0099999, 0.01, -0.01, 0.011, 0.5, -123.75,
        f64::INFINITY, f64::NEG_INFINITY, f64::MIN_POSITIVE, f64::NAN,
    ];
    for v in cases {
        let got = sensor_filter(v.to_bits());
        let expected = if v.abs() < 0.01 { 0.0f64.to_bits() } else { v.to_bits() };
        assert_eq!(got, expected, "filter disagrees on {v}");
    }
    // a NaN passes through unchanged, as |NaN| < 0.01 is false
    assert_eq!(sensor_filter(f64::NAN.to_bits()), f64::NAN.to_bits());
}

/// Three-component readings filter component by component.
#[test]
fn sensor_data_per_component() {
    let (x, y, z) = sensor_data(
        0.2f64.to_bits(),
        (-0.001f64).to_bits(),
        (-0.02f64).to_bits(),
    );
    assert_eq!(x, 0.2f64.to_bits());
    assert_eq!(y, 0.0f64.to_bits());
    assert_eq!(z, (-0.02f64).to_bits());
}
