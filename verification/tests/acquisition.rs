use house_telemetry::client::{
    endpoint, Action, Event, Fault, Phase, Step, POLL_INTERVAL_SECS, RETRY_DELAY_SECS,
};
use house_telemetry::clock::Timestamp;
use house_telemetry::reading::{Bme280Payload, Measurement};
use house_telemetry::units::Temperature;

fn measurement() -> Measurement {
    Measurement {
        temperature: Temperature::from_kelvin(295.65f64.to_bits()),
        pressure: 101325.0f32.to_bits(),
        humidity: 45.2f32.to_bits(),
    }
}

fn at() -> Timestamp {
    Timestamp { secs: 1_704_067_200, nanos: 250 }
}

#[test]
fn loop_starts_by_reading_the_sensor() {
    assert_eq!(Phase::start(), (Phase::Reading, Action::Measure));
}

#[test]
fn measurement_is_sent_as_a_reading_of_the_main_sensor() {
    let step = Phase::Reading.step_at(Event::Measured(measurement()), at());
    assert_eq!(
        step,
        Some(Step {
            phase: Phase::Sending,
            action: Action::Send(Bme280Payload {
                temperature: Temperature(295.65f64.to_bits()),
                pressure: 101325.0f32.to_bits(),
                humidity: 45.2f32.to_bits(),
                date_time: at(),
                sensor_id: 0,
            }),
            report: None,
        })
    );
}

#[test]
fn failed_read_rests_ten_seconds_and_sends_nothing() {
    let step = Phase::Reading.step_at(Event::ReadFailed, at()).unwrap();
    assert_eq!(
        step,
        Step { phase: Phase::Idle, action: Action::Sleep(10), report: Some(Fault::Sensor) }
    );
    let again = step.phase.step_at(Event::Woke, at()).unwrap();
    assert_eq!(again, Step { phase: Phase::Reading, action: Action::Measure, report: None });
}

#[test]
fn delivered_reading_rests_twenty_seconds() {
    assert_eq!(
        Phase::Sending.step_at(Event::Delivered, at()),
        Some(Step { phase: Phase::Idle, action: Action::Sleep(20), report: None })
    );
}

#[test]
fn undelivered_reading_is_dropped_and_reported() {
    let step = Phase::Sending.step_at(Event::SendFailed, at()).unwrap();
    assert_eq!(
        step,
        Step { phase: Phase::Idle, action: Action::Sleep(20), report: Some(Fault::Transport) }
    );
    let next = step.phase.step_at(Event::Woke, at()).unwrap();
    assert_eq!(next.action, Action::Measure);
}

#[test]
fn retry_delay_is_shorter_than_poll_interval() {
    assert_eq!(RETRY_DELAY_SECS, 10);
    assert_eq!(POLL_INTERVAL_SECS, 20);
    assert!(RETRY_DELAY_SECS < POLL_INTERVAL_SECS);
}

#[test]
fn events_out_of_turn_bring_about_nothing() {
    let m = Event::Measured(measurement());
    for (phase, event) in [
        (Phase::Reading, Event::Delivered),
        (Phase::Reading, Event::SendFailed),
        (Phase::Reading, Event::Woke),
        (Phase::Sending, m),
        (Phase::Sending, Event::ReadFailed),
        (Phase::Sending, Event::Woke),
        (Phase::Idle, m),
        (Phase::Idle, Event::ReadFailed),
        (Phase::Idle, Event::Delivered),
        (Phase::Idle, Event::SendFailed),
    ] {
        assert_eq!(phase.step_at(event, at()), None);
        assert_eq!(phase.step(event), None);
    }
}

#[test]
fn whole_cycles_follow_one_another_without_end() {
    let (mut phase, mut action) = Phase::start();
    let mut sent = 0;
    let mut slept = 0;
    for cycle in 0..50u32 {
        assert_eq!((phase, action), (Phase::Reading, Action::Measure));
        let read = if cycle % 3 == 0 { Event::ReadFailed } else { Event::Measured(measurement()) };
        let step = phase.step_at(read, at()).unwrap();
        phase = step.phase;
        action = step.action;
        if let Action::Send(_) = action {
            sent += 1;
            let outcome = if cycle % 2 == 0 { Event::Delivered } else { Event::SendFailed };
            let step = phase.step_at(outcome, at()).unwrap();
            phase = step.phase;
            action = step.action;
        }
        match action {
            Action::Sleep(secs) => slept += secs,
            other => panic!("{other:?}"),
        }
        let step = phase.step_at(Event::Woke, at()).unwrap();
        phase = step.phase;
        action = step.action;
    }
    assert_eq!(sent, 33);
    assert_eq!(slept, 17 * 10 + 33 * 20);
}

#[test]
fn reading_is_stamped_with_the_time_of_the_clock() {
    let before = chrono::Utc::now();
    let step = Phase::Reading.step(Event::Measured(measurement())).unwrap();
    let after = chrono::Utc::now();
    assert_eq!(step.phase, Phase::Sending);
    assert_eq!(step.report, None);
    match step.action {
        Action::Send(reading) => {
            assert_eq!(reading.temperature, measurement().temperature);
            assert_eq!(reading.pressure, measurement().pressure);
            assert_eq!(reading.humidity, measurement().humidity);
            assert_eq!(reading.sensor_id, 0);
            let stamped =
                chrono::DateTime::from_timestamp(reading.date_time.secs, reading.date_time.nanos)
                    .unwrap();
            assert!(before <= stamped && stamped <= after, "{before} {stamped} {after}");
        }
        other => panic!("{other:?}"),
    }
}

#[test]
fn steps_without_a_measurement_do_not_depend_on_the_clock() {
    assert_eq!(
        Phase::Reading.step(Event::ReadFailed),
        Phase::Reading.step_at(Event::ReadFailed, at())
    );
    assert_eq!(
        Phase::Sending.step(Event::Delivered),
        Phase::Sending.step_at(Event::Delivered, at())
    );
    assert_eq!(
        Phase::Sending.step(Event::SendFailed),
        Phase::Sending.step_at(Event::SendFailed, at())
    );
    assert_eq!(Phase::Idle.step(Event::Woke), Phase::Idle.step_at(Event::Woke, at()));
}

#[test]
fn readings_go_to_the_fixed_endpoint() {
    assert_eq!(endpoint(), "http://192.168.0.191:23564/data");
}
