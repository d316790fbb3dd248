//! The ingestion endpoint: one received reading becomes three rows, written
//! one after the other through the store's single writer.
//!
//! The endpoint decides here and acts elsewhere. [`data_handler`] and
//! [`Ingestion::advance`] hand out one [`Command`] at a time; the caller takes
//! the writer, carries the command out, lets the writer go, and reports how it
//! went. The three writes are not one transaction: a row that was written
//! stays written when a later write of the same reading is refused.

use vstd::prelude::*;
use crate::error::AppError;
use crate::reading::Bme280Payload;
use crate::tables::{HouseHumidity, HousePressure, HouseTemperature, Table};

verus! {

/// The write whose outcome the endpoint waits for.
#[derive(Debug, Clone, Copy, PartialEq, Eq, Structural)]
pub enum Awaiting {
    Humidity,
    Pressure,
    Temperature,
    /// The request has been answered.
    Nothing,
}

/// A request in the course of being handled.
#[derive(Debug, Clone, Copy, PartialEq, Eq)]
pub struct Ingestion {
    pub reading: Bme280Payload,
    pub awaiting: Awaiting,
}

/// What the caller is to do next.
#[derive(Debug, PartialEq, Eq)]
pub enum Command {
    InsertHumidity(HouseHumidity),
    InsertPressure(HousePressure),
    InsertTemperature(HouseTemperature),
    /// Answer the request, and stop.
    Respond(Result<(), AppError>),
}

impl Command {
    /// Whether the command writes a row.
    pub open spec fn is_insert(self) -> bool {
        !(self is Respond)
    }

    /// The table that the command writes to, if it writes.
    pub open spec fn table(self) -> Option<Table> {
        match self {
            Command::InsertHumidity(_) => Some(Table::HouseHumidity),
            Command::InsertPressure(_) => Some(Table::HousePressure),
            Command::InsertTemperature(_) => Some(Table::HouseTemperature),
            Command::Respond(_) => None,
        }
    }

    /// The sensor that the row of an insert belongs to.
    pub open spec fn sensor_id(self) -> i32
        recommends
            self.is_insert(),
    {
        match self {
            Command::InsertHumidity(row) => row.sensor_id,
            Command::InsertPressure(row) => row.sensor_id,
            Command::InsertTemperature(row) => row.sensor_id,
            Command::Respond(_) => 0,
        }
    }

    /// The capture time that the row of an insert records.
    pub open spec fn date_time(self) -> crate::clock::Timestamp
        recommends
            self.is_insert(),
    {
        match self {
            Command::InsertHumidity(row) => row.date_time,
            Command::InsertPressure(row) => row.date_time,
            Command::InsertTemperature(row) => row.date_time,
            Command::Respond(_) => arbitrary(),
        }
    }
}

impl Ingestion {
    /// The write whose outcome the request waits for, if it waits for one.
    pub open spec fn awaited(self) -> Option<Command> {
        match self.awaiting {
            Awaiting::Humidity => Some(Command::InsertHumidity(HouseHumidity::row_of(self.reading))),
            Awaiting::Pressure => Some(Command::InsertPressure(HousePressure::row_of(self.reading))),
            Awaiting::Temperature => Some(
                Command::InsertTemperature(HouseTemperature::row_of(self.reading)),
            ),
            Awaiting::Nothing => None,
        }
    }

    /// Where the handling of `reading` starts: with the humidity row.
    pub open spec fn started(reading: Bme280Payload) -> (Ingestion, Command) {
        (
            Ingestion { reading, awaiting: Awaiting::Humidity },
            Command::InsertHumidity(HouseHumidity::row_of(reading)),
        )
    }

    /// How the handling goes on once the awaited write was carried out, with
    /// `written` telling whether the store took the row. A refused write ends
    /// the request with an internal error that gives no detail away; a row
    /// taken leads to the next table, and after the third to success. Once
    /// the request is answered there is nothing to go on with.
    pub open spec fn advanced(self, written: bool) -> Option<(Ingestion, Command)> {
        let done = Ingestion { reading: self.reading, awaiting: Awaiting::Nothing };
        match self.awaiting {
            Awaiting::Nothing => None,
            _ if !written => Some((done, Command::Respond(Err(AppError::InternalServerError)))),
            Awaiting::Humidity => Some(
                (
                    Ingestion { reading: self.reading, awaiting: Awaiting::Pressure },
                    Command::InsertPressure(HousePressure::row_of(self.reading)),
                ),
            ),
            Awaiting::Pressure => Some(
                (
                    Ingestion { reading: self.reading, awaiting: Awaiting::Temperature },
                    Command::InsertTemperature(HouseTemperature::row_of(self.reading)),
                ),
            ),
            Awaiting::Temperature => Some((done, Command::Respond(Ok(())))),
        }
    }

    /// The commands that follow `command`, itself included, when the writes
    /// go as `outcomes` says, one outcome for each write in turn. The sequence
    /// ends with the response, or with a write whose outcome `outcomes` does
    /// not hold.
    pub open spec fn commands_from(self, command: Command, outcomes: Seq<bool>) -> Seq<Command>
        decreases outcomes.len(),
    {
        if outcomes.len() == 0 {
            seq![command]
        } else {
            match self.advanced(outcomes[0]) {
                None => seq![command],
                Some((state, next)) => seq![command] + state.commands_from(
                    next,
                    outcomes.drop_first(),
                ),
            }
        }
    }

    /// All commands that the handling of `reading` gives when the writes go as
    /// `outcomes` says.
    pub open spec fn commands(reading: Bme280Payload, outcomes: Seq<bool>) -> Seq<Command> {
        Ingestion::started(reading).0.commands_from(Ingestion::started(reading).1, outcomes)
    }

    /// Goes on after the awaited write: `outcome` is what the store said to it.
    /// Returns the next command, or nothing if the request was answered
    /// before.
    pub fn advance(self, outcome: Result<(), rusqlite::Error>) -> (step: Option<
        (Ingestion, Command),
    >)
        ensures
            step == self.advanced(outcome is Ok),
    {
        let reading = self.reading;
        let done = Ingestion { reading, awaiting: Awaiting::Nothing };
        match self.awaiting {
            Awaiting::Nothing => None,
            awaiting => match outcome {
                Err(e) => Some((done, Command::Respond(Err(AppError::from(e))))),
                Ok(()) => match awaiting {
                    Awaiting::Humidity => Some(
                        (
                            Ingestion { reading, awaiting: Awaiting::Pressure },
                            Command::InsertPressure(HousePressure::of(reading)),
                        ),
                    ),
                    Awaiting::Pressure => Some(
                        (
                            Ingestion { reading, awaiting: Awaiting::Temperature },
                            Command::InsertTemperature(HouseTemperature::of(reading)),
                        ),
                    ),
                    _ => Some((done, Command::Respond(Ok(())))),
                },
            },
        }
    }
}

/// The state of the handling of `reading` once `done` of its writes succeeded.
pub open spec fn awaiting_after(reading: Bme280Payload, done: int) -> Ingestion {
    Ingestion {
        reading,
        awaiting: if done <= 0 {
            Awaiting::Humidity
        } else if done == 1 {
            Awaiting::Pressure
        } else if done == 2 {
            Awaiting::Temperature
        } else {
            Awaiting::Nothing
        },
    }
}

/// The three writes of `reading`, in the order in which they are made.
pub open spec fn writes_of(reading: Bme280Payload) -> Seq<Command> {
    seq![
        Command::InsertHumidity(HouseHumidity::row_of(reading)),
        Command::InsertPressure(HousePressure::row_of(reading)),
        Command::InsertTemperature(HouseTemperature::row_of(reading)),
    ]
}

/// How many outcomes at the start of `outcomes` are successes, counting no
/// further than `limit`.
pub open spec fn leading_successes(outcomes: Seq<bool>, limit: nat) -> nat
    decreases limit,
{
    if limit == 0 || outcomes.len() == 0 || !outcomes[0] {
        0
    } else {
        1 + leading_successes(outcomes.drop_first(), (limit - 1) as nat)
    }
}

/// The commands from the state after `done` successful writes on: the writes
/// still to be made are tried in order up to and including the first that is
/// refused, and the response follows at once.
proof fn lemma_commands_from(reading: Bme280Payload, done: int, outcomes: Seq<bool>)
    requires
        0 <= done < 3,
    ensures
        ({
            let left = (3 - done) as nat;
            let n = leading_successes(outcomes, left) as int;
            &&& n <= left
            &&& n <= outcomes.len()
            &&& awaiting_after(reading, done).commands_from(writes_of(reading)[done], outcomes)
                == if n == left {
                writes_of(reading).subrange(done, 3) + seq![Command::Respond(Ok(()))]
            } else if n < outcomes.len() {
                writes_of(reading).subrange(done, done + n + 1) + seq![
                    Command::Respond(Err(AppError::InternalServerError)),
                ]
            } else {
                writes_of(reading).subrange(done, done + n + 1)
            }
        }),
    decreases 3 - done,
{
    let ended = Ingestion { reading, awaiting: Awaiting::Nothing };
    if outcomes.len() == 0 {
    } else if !outcomes[0] {
        let refusal = Command::Respond(Err(AppError::InternalServerError));
        assert(ended.commands_from(refusal, outcomes.drop_first()) == seq![refusal]) by {
            reveal_with_fuel(Ingestion::commands_from, 2);
        }
    } else if done == 2 {
        let success = Command::Respond(Ok(()));
        assert(ended.commands_from(success, outcomes.drop_first()) == seq![success]) by {
            reveal_with_fuel(Ingestion::commands_from, 2);
        }
    } else {
        lemma_commands_from(reading, done + 1, outcomes.drop_first());
    }
}

/// Whatever the store does, the handling of a reading tries its three writes
/// in order, stops at the first that is refused, and then answers at once.
/// With `n` the number of writes that succeed before a refusal or the end of
/// `outcomes`: if all three succeed, the commands are the three writes and
/// success; if one is refused after `n`, they are the first `n + 1` writes
/// and the internal error; if `outcomes` ends first, they are the first
/// `n + 1` writes, the last one still open. Nothing is ever written twice,
/// and nothing that was written is taken back.
pub proof fn lemma_commands(reading: Bme280Payload, outcomes: Seq<bool>)
    ensures
        ({
            let n = leading_successes(outcomes, 3) as int;
            &&& n <= 3
            &&& n <= outcomes.len()
            &&& Ingestion::commands(reading, outcomes) == if n == 3 {
                writes_of(reading) + seq![Command::Respond(Ok(()))]
            } else if n < outcomes.len() {
                writes_of(reading).take(n + 1) + seq![
                    Command::Respond(Err(AppError::InternalServerError)),
                ]
            } else {
                writes_of(reading).take(n + 1)
            }
        }),
{
    lemma_commands_from(reading, 0, outcomes);
}

/// A reading whose three writes all succeed puts exactly one row into each
/// measurement table, humidity first, then pressure, then temperature, and
/// is answered with success.
pub proof fn lemma_accepted_reading(reading: Bme280Payload, outcomes: Seq<bool>)
    requires
        outcomes.len() >= 3,
        outcomes[0] && outcomes[1] && outcomes[2],
    ensures
        Ingestion::commands(reading, outcomes) == seq![
            Command::InsertHumidity(HouseHumidity::row_of(reading)),
            Command::InsertPressure(HousePressure::row_of(reading)),
            Command::InsertTemperature(HouseTemperature::row_of(reading)),
            Command::Respond(Ok(())),
        ],
{
    lemma_commands(reading, outcomes);
    assert(leading_successes(outcomes, 3) == 3) by {
        reveal_with_fuel(leading_successes, 4);
    }
}

/// A reading whose first write the store refuses, as it does when the
/// reading names a sensor that is not registered, is answered with the
/// internal error, and no other write is tried for it: no row of it reaches
/// any table.
pub proof fn lemma_refused_reading(reading: Bme280Payload, outcomes: Seq<bool>)
    requires
        outcomes.len() >= 1,
        !outcomes[0],
    ensures
        Ingestion::commands(reading, outcomes) == seq![
            Command::InsertHumidity(HouseHumidity::row_of(reading)),
            Command::Respond(Err(AppError::InternalServerError)),
        ],
{
    lemma_commands(reading, outcomes);
}

/// Success is answered if and only if all three writes succeeded.
pub proof fn lemma_success_means_three_rows(reading: Bme280Payload, outcomes: Seq<bool>)
    ensures
        Ingestion::commands(reading, outcomes).contains(Command::Respond(Ok(())))
            <==> outcomes.len() >= 3 && outcomes[0] && outcomes[1] && outcomes[2],
{
    lemma_commands(reading, outcomes);
    let commands = Ingestion::commands(reading, outcomes);
    let n = leading_successes(outcomes, 3) as int;
    assert(n == 3 <==> outcomes.len() >= 3 && outcomes[0] && outcomes[1] && outcomes[2]) by {
        reveal_with_fuel(leading_successes, 4);
    }
    if n == 3 {
        assert(commands[3] == Command::Respond(Ok(())));
    }
}

/// Every row written for a reading carries the sensor and the capture time
/// of that reading, and leaves its key and its time of writing to the store.
pub proof fn lemma_rows_share_sensor_and_time(
    reading: Bme280Payload,
    outcomes: Seq<bool>,
    i: int,
)
    requires
        0 <= i < Ingestion::commands(reading, outcomes).len(),
        Ingestion::commands(reading, outcomes)[i].is_insert(),
    ensures
        Ingestion::commands(reading, outcomes)[i] == writes_of(reading)[i],
        Ingestion::commands(reading, outcomes)[i].sensor_id() == reading.sensor_id,
        Ingestion::commands(reading, outcomes)[i].date_time() == reading.date_time,
{
    lemma_commands(reading, outcomes);
}

/// The command that a request was last given is the write it waits for, and
/// the response once it waits for none: the state alone tells what is under
/// way.
pub proof fn lemma_command_is_the_awaited_write(
    reading: Bme280Payload,
    state: Ingestion,
    written: bool,
)
    ensures
        Ingestion::started(reading).0.awaited() == Some(Ingestion::started(reading).1),
        state.advanced(written) matches Some((next, command)) ==> match next.awaited() {
            Some(write) => command == write,
            None => command is Respond,
        },
{
}

/// Takes up a received reading. The first command is the write of the
/// humidity row; [`Ingestion::advance`] gives the ones after it.
pub fn data_handler(reading: Bme280Payload) -> (step: (Ingestion, Command))
    ensures
        step == Ingestion::started(reading),
{
    (
        Ingestion { reading, awaiting: Awaiting::Humidity },
        Command::InsertHumidity(HouseHumidity::of(reading)),
    )
}

} // verus!
