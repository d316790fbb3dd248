use house_telemetry::clock::Timestamp;
use house_telemetry::reading::{Bme280Payload, Measurement, MAIN_SENSOR_ID};
use house_telemetry::units::Temperature;

fn kelvin_of_celsius(celsius: f64) -> f64 {
    celsius + 273.15
}

fn fahrenheit_of_kelvin(kelvin: f64) -> f64 {
    (kelvin - 273.15) * 9.0 / 5.0 + 32.0
}

#[test]
fn wire_round_trip_keeps_every_bit() {
    for magnitude in [0.0f64, -0.0, 295.0, 295.65, 1.0e-300, f64::MAX, f64::INFINITY, -40.0] {
        let t = Temperature::from_kelvin(magnitude.to_bits());
        assert_eq!(Temperature::from_wire(t.to_wire()), t);
        assert_eq!(t.to_wire(), magnitude.to_bits());
        assert_eq!(f64::from_bits(Temperature::from_wire(magnitude.to_bits()).to_wire()).to_bits(), magnitude.to_bits());
    }
}

#[test]
fn storage_round_trip_keeps_every_bit() {
    for magnitude in [0.0f64, -0.0, 295.0, 295.65, 1.0e-300, f64::MAX, f64::NEG_INFINITY, -40.0] {
        let t = Temperature::from_kelvin(magnitude.to_bits());
        assert_eq!(Temperature::from_storage(t.to_storage()), t);
        assert_eq!(t.to_storage(), magnitude.to_bits());
    }
}

#[test]
fn not_a_number_is_carried_unchanged() {
    let nan = f64::NAN.to_bits() | 0x1234;
    let t = Temperature::from_wire(nan);
    assert_eq!(t.to_storage(), nan);
    assert_eq!(Temperature::from_storage(t.to_storage()).to_wire(), nan);
    assert!(f64::from_bits(t.to_wire()).is_nan());
}

#[test]
fn wire_and_store_hold_the_same_number() {
    let t = Temperature::from_wire(295.0f64.to_bits());
    assert_eq!(t.to_storage(), 295.0f64.to_bits());
    assert_eq!(t.0, 295.0f64.to_bits());
    assert_ne!(t.to_storage(), 296.0f64.to_bits());
}

#[test]
fn default_temperature_is_absolute_zero() {
    let t = Temperature::default();
    assert_eq!(f64::from_bits(t.to_wire()), 0.0);
    assert_eq!(t.to_wire(), 0);
}

#[test]
fn celsius_reading_stored_and_read_back_shows_in_fahrenheit() {
    let kelvin = kelvin_of_celsius(22.5);
    let taken = Temperature::from_kelvin(kelvin.to_bits());
    let column = taken.to_storage();
    let read_back = Temperature::from_storage(column);
    let shown = fahrenheit_of_kelvin(f64::from_bits(read_back.to_wire()));
    assert!((shown - 72.5).abs() < 1e-9, "{shown}");
    assert_eq!(read_back, taken);
}

#[test]
fn captured_reading_names_the_main_sensor() {
    let m = Measurement {
        temperature: Temperature::from_kelvin(295.65f64.to_bits()),
        pressure: 101325.0f32.to_bits(),
        humidity: 45.2f32.to_bits(),
    };
    let at = Timestamp { secs: 1_704_067_200, nanos: 7 };
    let reading = Bme280Payload::capture(m, at);
    assert_eq!(
        reading,
        Bme280Payload {
            temperature: Temperature(295.65f64.to_bits()),
            pressure: 101325.0f32.to_bits(),
            humidity: 45.2f32.to_bits(),
            date_time: at,
            sensor_id: 0,
        }
    );
    assert_eq!(MAIN_SENSOR_ID, 0);
    assert_eq!(f32::from_bits(reading.humidity), 45.2);
}

#[test]
fn humidity_beyond_the_nominal_range_is_not_clamped() {
    let m = Measurement {
        temperature: Temperature::default(),
        pressure: (-1.0f32).to_bits(),
        humidity: 250.0f32.to_bits(),
    };
    let reading = Bme280Payload::capture(m, Timestamp { secs: 0, nanos: 0 });
    assert_eq!(f32::from_bits(reading.humidity), 250.0);
    assert_eq!(f32::from_bits(reading.pressure), -1.0);
}
