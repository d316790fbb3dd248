//! One measurement cycle's snapshot, as the client sends it and the endpoint
//! receives it.

use vstd::prelude::*;
use crate::clock::Timestamp;
use crate::units::{SingleBits, Temperature};

verus! {

/// The identifier under which the one known sensor is registered.
pub const MAIN_SENSOR_ID: i32 = 0;

/// What one successful read of the sensor yields, the temperature already on
/// the absolute scale.
#[derive(Debug, Clone, Copy, PartialEq, Eq, Structural)]
pub struct Measurement {
    pub temperature: Temperature,
    /// Pressure in pascal.
    pub pressure: SingleBits,
    /// Relative humidity in percent; nominally 0 to 100, not clamped.
    pub humidity: SingleBits,
}

/// A telemetry reading: the three quantities of one cycle, when they were
/// captured and by which sensor. A reading is a plain value; whether its
/// sensor is registered is for the store to say when rows are written.
#[derive(Debug, Clone, Copy, PartialEq, Eq, Structural)]
pub struct Bme280Payload {
    pub temperature: Temperature,
    /// Pressure in pascal.
    pub pressure: SingleBits,
    /// Relative humidity in percent; nominally 0 to 100, not clamped.
    pub humidity: SingleBits,
    /// When the reading was captured, not when it was written.
    pub date_time: Timestamp,
    pub sensor_id: i32,
}

impl Bme280Payload {
    /// The reading that the main sensor's measurement `m` makes when captured
    /// at `at`.
    pub open spec fn captured(m: Measurement, at: Timestamp) -> Bme280Payload {
        Bme280Payload {
            temperature: m.temperature,
            pressure: m.pressure,
            humidity: m.humidity,
            date_time: at,
            sensor_id: MAIN_SENSOR_ID,
        }
    }

    #[verifier::when_used_as_spec(captured)]
    pub fn capture(m: Measurement, at: Timestamp) -> (reading: Bme280Payload)
        ensures
            reading == Bme280Payload::captured(m, at),
    {
        Bme280Payload {
            temperature: m.temperature,
            pressure: m.pressure,
            humidity: m.humidity,
            date_time: at,
            sensor_id: MAIN_SENSOR_ID,
        }
    }
}

} // verus!
