//! Sensor readings.
//!
//! The backend reports sensor data as three floating-point components. The
//! library carries each component as its IEEE-754 double-precision bit
//! pattern and applies the same deadzone rule as the axis normalizer, with
//! the threshold fixed at one hundredth and the maximum at one (so the
//! division leaves the value unchanged): a component whose magnitude lies
//! strictly below the threshold becomes exactly zero, every other component
//! passes through unchanged.
//!
//! On bit patterns the magnitude comparison is integer arithmetic: for any
//! value that is not a NaN, clearing the sign bit yields the magnitudes'
//! sign-magnitude order, and a NaN's cleared pattern exceeds every finite
//! threshold, so a NaN passes through unchanged — exactly as the floating
//! point comparison `|x| < 0.01` would decide.

use vstd::prelude::*;

verus! {

/// Sensors available on gamepads.
#[derive(Debug, Clone, Copy, PartialEq, Eq, Hash, Structural)]
pub enum Sensor {
    /// Unknown sensor type.
    Unknown,
    /// Gyroscope.
    Gyroscope,
    /// Gyroscope for the left half of a split controller.
    LeftGyroscope,
    /// Gyroscope for the right half of a split controller.
    RightGyroscope,
    /// Accelerometer.
    Accelerometer,
    /// Accelerometer for the left half of a split controller.
    LeftAccelerometer,
    /// Accelerometer for the right half of a split controller.
    RightAccelerometer,
}

/// IEEE-754 double-precision bit pattern of the sensor deadzone threshold,
/// one hundredth.
pub const SENSOR_DEADZONE_BITS: u64 = 0x3F84_7AE1_47AE_147B;

/// Mask clearing the sign bit of a double-precision bit pattern.
pub const F64_MAGNITUDE_MASK: u64 = 0x7FFF_FFFF_FFFF_FFFF;

/// What the sensor deadzone returns: exactly zero below the threshold, the
/// input bit pattern unchanged otherwise.
pub open spec fn spec_sensor_filter(bits: u64) -> u64 {
    if bits & F64_MAGNITUDE_MASK < SENSOR_DEADZONE_BITS {
        0
    } else {
        bits
    }
}

/// Applies the sensor deadzone to one component, given as the IEEE-754
/// double-precision bit pattern of the backend's reading.
pub fn sensor_filter(bits: u64) -> (r: u64)
    ensures
        r == spec_sensor_filter(bits),
{
    if bits & F64_MAGNITUDE_MASK < SENSOR_DEADZONE_BITS {
        0
    } else {
        bits
    }
}

/// Applies the sensor deadzone to a full three-component reading.
pub fn sensor_data(x: u64, y: u64, z: u64) -> (r: (u64, u64, u64))
    ensures
        r.0 == spec_sensor_filter(x),
        r.1 == spec_sensor_filter(y),
        r.2 == spec_sensor_filter(z),
{
    (sensor_filter(x), sensor_filter(y), sensor_filter(z))
}

} // verus!
