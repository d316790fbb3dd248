//! The sending side: one loop that reads the sensor, sends what it read, and
//! rests until the next cycle.
//!
//! The loop decides here and acts elsewhere. The caller carries out the
//! [`Action`] that it is given (a read of the sensor, one request to the
//! endpoint, a sleep) and comes back with the [`Event`] that tells how it
//! went. No fault ends the loop: a failed read is tried again after a short
//! rest, and a reading that could not be delivered is dropped.

use vstd::prelude::*;
use crate::clock::{now, Timestamp};
use crate::reading::{Bme280Payload, Measurement};

verus! {

/// Seconds of rest after a failed read of the sensor.
pub const RETRY_DELAY_SECS: u64 = 10;

/// Seconds of rest between a transmission and the next read.
pub const POLL_INTERVAL_SECS: u64 = 20;

/// The text of [`endpoint`].
pub open spec fn endpoint_text() -> Seq<char> {
    "http://192.168.0.191:23564/data"@
}

/// Where readings are sent.
pub fn endpoint() -> (url: &'static str)
    ensures
        url@ == endpoint_text(),
{
    "http://192.168.0.191:23564/data"
}

/// What the loop waits for.
#[derive(Debug, Clone, Copy, PartialEq, Eq, Structural)]
pub enum Phase {
    /// For the sensor to answer.
    Reading,
    /// For the endpoint to answer.
    Sending,
    /// For the rest to end.
    Idle,
}

/// What happened to the action that the loop asked for.
#[derive(Debug, Clone, Copy, PartialEq, Eq, Structural)]
pub enum Event {
    /// The sensor gave a measurement.
    Measured(Measurement),
    /// The sensor could not be read.
    ReadFailed,
    /// The endpoint acknowledged the reading.
    Delivered,
    /// The request failed, or the endpoint answered with an error.
    SendFailed,
    /// The rest is over.
    Woke,
}

/// What the caller is to do next.
#[derive(Debug, Clone, Copy, PartialEq, Eq, Structural)]
pub enum Action {
    /// Read the sensor.
    Measure,
    /// Send the reading to [`endpoint`], once.
    Send(Bme280Payload),
    /// Rest for so many seconds.
    Sleep(u64),
}

/// A fault that is reported and otherwise swallowed.
#[derive(Debug, Clone, Copy, PartialEq, Eq, Structural)]
pub enum Fault {
    Sensor,
    Transport,
}

/// One turn of the loop.
#[derive(Debug, Clone, Copy, PartialEq, Eq, Structural)]
pub struct Step {
    pub phase: Phase,
    pub action: Action,
    /// The fault to put on record, if the event was one.
    pub report: Option<Fault>,
}

impl Step {
    /// The capture time of the reading that this step sends; the start of the
    /// epoch if it sends none.
    pub open spec fn sent_at(self) -> Timestamp {
        match self.action {
            Action::Send(reading) => reading.date_time,
            _ => Timestamp { secs: 0, nanos: 0 },
        }
    }
}

impl Phase {
    /// Where the loop starts: with a read of the sensor.
    pub open spec fn started() -> (Phase, Action) {
        (Phase::Reading, Action::Measure)
    }

    /// The turn that `event` brings about in this phase, with `at` the time
    /// at which a measurement is taken to be captured. An event that the
    /// phase does not wait for brings about none.
    pub open spec fn stepped(self, event: Event, at: Timestamp) -> Option<Step> {
        match (self, event) {
            (Phase::Reading, Event::Measured(m)) => Some(
                Step {
                    phase: Phase::Sending,
                    action: Action::Send(Bme280Payload::captured(m, at)),
                    report: None,
                },
            ),
            (Phase::Reading, Event::ReadFailed) => Some(
                Step {
                    phase: Phase::Idle,
                    action: Action::Sleep(RETRY_DELAY_SECS),
                    report: Some(Fault::Sensor),
                },
            ),
            (Phase::Sending, Event::Delivered) => Some(
                Step {
                    phase: Phase::Idle,
                    action: Action::Sleep(POLL_INTERVAL_SECS),
                    report: None,
                },
            ),
            (Phase::Sending, Event::SendFailed) => Some(
                Step {
                    phase: Phase::Idle,
                    action: Action::Sleep(POLL_INTERVAL_SECS),
                    report: Some(Fault::Transport),
                },
            ),
            (Phase::Idle, Event::Woke) => Some(
                Step { phase: Phase::Reading, action: Action::Measure, report: None },
            ),
            _ => None,
        }
    }

    pub fn start() -> (first: (Phase, Action))
        ensures
            first == Phase::started(),
    {
        (Phase::Reading, Action::Measure)
    }

    /// Takes the turn that `event` brings about, a measurement counting as
    /// captured at `at`. Returns nothing, and changes nothing, if the phase
    /// does not wait for `event`.
    pub fn step_at(self, event: Event, at: Timestamp) -> (step: Option<Step>)
        ensures
            step == self.stepped(event, at),
    {
        match self {
            Phase::Reading => match event {
                Event::Measured(m) => Some(
                    Step {
                        phase: Phase::Sending,
                        action: Action::Send(Bme280Payload::capture(m, at)),
                        report: None,
                    },
                ),
                Event::ReadFailed => Some(
                    Step {
                        phase: Phase::Idle,
                        action: Action::Sleep(RETRY_DELAY_SECS),
                        report: Some(Fault::Sensor),
                    },
                ),
                _ => None,
            },
            Phase::Sending => match event {
                Event::Delivered => Some(
                    Step {
                        phase: Phase::Idle,
                        action: Action::Sleep(POLL_INTERVAL_SECS),
                        report: None,
                    },
                ),
                Event::SendFailed => Some(
                    Step {
                        phase: Phase::Idle,
                        action: Action::Sleep(POLL_INTERVAL_SECS),
                        report: Some(Fault::Transport),
                    },
                ),
                _ => None,
            },
            Phase::Idle => match event {
                Event::Woke => Some(
                    Step { phase: Phase::Reading, action: Action::Measure, report: None },
                ),
                _ => None,
            },
        }
    }

    /// Takes the turn that `event` brings about. A measurement counts as
    /// captured now, by the system clock; the clock is read for a measurement
    /// only. Apart from that time the turn is the one that
    /// [`Phase::step_at`] takes.
    pub fn step(self, event: Event) -> (step: Option<Step>)
        ensures
            step is Some ==> step == self.stepped(event, step->Some_0.sent_at()),
            step is None ==> forall|at: Timestamp| self.stepped(event, at) is None,
    {
        match event {
            Event::Measured(_) => self.step_at(event, now()),
            _ => self.step_at(event, Timestamp { secs: 0, nanos: 0 }),
        }
    }
}

/// The rest after a failed read is shorter than the rest between cycles.
pub proof fn lemma_retry_comes_sooner()
    ensures
        RETRY_DELAY_SECS < POLL_INTERVAL_SECS,
{
}

/// In every phase some event is waited for, and every event that is waited
/// for brings about a next action: the loop has no end.
pub proof fn lemma_loop_has_no_end(phase: Phase, at: Timestamp)
    ensures
        exists|event: Event| phase.stepped(event, at) is Some,
{
    match phase {
        Phase::Reading => assert(phase.stepped(Event::ReadFailed, at) is Some),
        Phase::Sending => assert(phase.stepped(Event::SendFailed, at) is Some),
        Phase::Idle => assert(phase.stepped(Event::Woke, at) is Some),
    }
}

/// A read that fails sends nothing: the fault is put on record, the loop
/// rests for the retry delay and then reads again.
pub proof fn lemma_failed_read_is_retried(at: Timestamp, later: Timestamp)
    ensures
        Phase::Reading.stepped(Event::ReadFailed, at) == Some(
            Step {
                phase: Phase::Idle,
                action: Action::Sleep(RETRY_DELAY_SECS),
                report: Some(Fault::Sensor),
            },
        ),
        Phase::Idle.stepped(Event::Woke, later) == Some(
            Step { phase: Phase::Reading, action: Action::Measure, report: None },
        ),
{
}

/// A reading is sent once. Only a measurement makes the loop send, and it
/// sends the reading captured from that measurement; whatever the endpoint
/// answers, the loop then rests for the poll interval and reads anew. A
/// reading that was not delivered is not sent again and not kept.
pub proof fn lemma_reading_is_sent_once(phase: Phase, event: Event, at: Timestamp)
    ensures
        phase.stepped(event, at) is Some && phase.stepped(event, at)->Some_0.action is Send ==> {
            &&& phase == Phase::Reading
            &&& event is Measured
            &&& phase.stepped(event, at)->Some_0.phase == Phase::Sending
            &&& phase.stepped(event, at)->Some_0.action == Action::Send(
                Bme280Payload::captured(event->Measured_0, at),
            )
        },
        phase == Phase::Sending && phase.stepped(event, at) is Some ==> {
            &&& phase.stepped(event, at)->Some_0.phase == Phase::Idle
            &&& phase.stepped(event, at)->Some_0.action == Action::Sleep(POLL_INTERVAL_SECS)
            &&& (phase.stepped(event, at)->Some_0.report is Some <==> event == Event::SendFailed)
        },
{
}

} // verus!
