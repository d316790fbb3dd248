//! The rows that a fresh store starts out with.

use vstd::prelude::*;
use crate::reading::MAIN_SENSOR_ID;
use crate::tables::Sensor;

verus! {

/// The name under which the one known sensor is registered.
pub open spec fn main_sensor_name() -> Seq<char> {
    "Main Thermostat BME280"@
}

/// The sensor that every store holds from its first start on: the one that
/// the client's readings name. Its key is given, not left to the store, so
/// that readings can name it.
pub fn sensors() -> (seed: Sensor)
    ensures
        seed.id == Some(MAIN_SENSOR_ID),
        seed.name@ == main_sensor_name(),
        seed.active,
        seed.created_date is None,
{
    Sensor {
        id: Some(MAIN_SENSOR_ID),
        name: String::from_str("Main Thermostat BME280"),
        active: true,
        created_date: None,
    }
}

} // verus!
