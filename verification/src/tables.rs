//! The store's four tables, the rows that go into them, and the order in which
//! the tables are set up when the server starts.

use vstd::prelude::*;
use crate::clock::Timestamp;
use crate::reading::Bme280Payload;
use crate::units::{SingleBits, Temperature};

verus! {

/// A row's key.
pub type Id = i32;

/// The tables of the store.
#[derive(Debug, Clone, Copy, PartialEq, Eq, Structural)]
pub enum Table {
    Sensor,
    HouseTemperature,
    HousePressure,
    HouseHumidity,
}

impl Table {
    /// The table's name in the store.
    pub open spec fn name_text(self) -> Seq<char> {
        match self {
            Table::Sensor => "sensor"@,
            Table::HouseTemperature => "house_temperature"@,
            Table::HousePressure => "house_pressure"@,
            Table::HouseHumidity => "house_humidity"@,
        }
    }

    /// The table that this table's `sensor_id` column points into, if it has
    /// one: every measurement row belongs to a registered sensor.
    pub open spec fn referenced(self) -> Option<Table> {
        match self {
            Table::Sensor => None,
            Table::HouseTemperature | Table::HousePressure | Table::HouseHumidity => Some(
                Table::Sensor,
            ),
        }
    }

    pub fn name(self) -> (text: &'static str)
        ensures
            text@ == self.name_text(),
    {
        match self {
            Table::Sensor => "sensor",
            Table::HouseTemperature => "house_temperature",
            Table::HousePressure => "house_pressure",
            Table::HouseHumidity => "house_humidity",
        }
    }

    #[verifier::when_used_as_spec(referenced)]
    pub fn references(self) -> (target: Option<Table>)
        ensures
            target == self.referenced(),
    {
        match self {
            Table::Sensor => None,
            Table::HouseTemperature | Table::HousePressure | Table::HouseHumidity => Some(
                Table::Sensor,
            ),
        }
    }
}

/// A row of `house_temperature`. A row that is about to be written leaves
/// `id` and `created_date` empty: the store assigns the key and stamps the
/// time of writing.
#[derive(Debug, Clone, Copy, PartialEq, Eq)]
pub struct HouseTemperature {
    pub id: Option<Id>,
    pub sensor_id: Id,
    pub temperature: Temperature,
    pub date_time: Timestamp,
    pub created_date: Option<Timestamp>,
}

/// A row of `house_pressure`; `id` and `created_date` as in
/// [`HouseTemperature`].
#[derive(Debug, Clone, Copy, PartialEq, Eq)]
pub struct HousePressure {
    pub id: Option<Id>,
    pub sensor_id: Id,
    pub pressure: SingleBits,
    pub date_time: Timestamp,
    pub created_date: Option<Timestamp>,
}

/// A row of `house_humidity`; `id` and `created_date` as in
/// [`HouseTemperature`].
#[derive(Debug, Clone, Copy, PartialEq, Eq)]
pub struct HouseHumidity {
    pub id: Option<Id>,
    pub sensor_id: Id,
    pub humidity: SingleBits,
    pub date_time: Timestamp,
    pub created_date: Option<Timestamp>,
}

/// A row of `sensor`. No two sensors share a name; the store sees to that.
#[derive(Debug, Clone, PartialEq, Eq)]
pub struct Sensor {
    pub id: Option<Id>,
    pub name: String,
    pub active: bool,
    pub created_date: Option<Timestamp>,
}

impl HouseTemperature {
    /// The row that records the temperature of `reading`.
    pub open spec fn row_of(reading: Bme280Payload) -> HouseTemperature {
        HouseTemperature {
            id: None,
            sensor_id: reading.sensor_id,
            temperature: reading.temperature,
            date_time: reading.date_time,
            created_date: None,
        }
    }

    #[verifier::when_used_as_spec(row_of)]
    pub fn of(reading: Bme280Payload) -> (row: HouseTemperature)
        ensures
            row == HouseTemperature::row_of(reading),
    {
        HouseTemperature {
            id: None,
            sensor_id: reading.sensor_id,
            temperature: reading.temperature,
            date_time: reading.date_time,
            created_date: None,
        }
    }
}

impl HousePressure {
    /// The row that records the pressure of `reading`.
    pub open spec fn row_of(reading: Bme280Payload) -> HousePressure {
        HousePressure {
            id: None,
            sensor_id: reading.sensor_id,
            pressure: reading.pressure,
            date_time: reading.date_time,
            created_date: None,
        }
    }

    #[verifier::when_used_as_spec(row_of)]
    pub fn of(reading: Bme280Payload) -> (row: HousePressure)
        ensures
            row == HousePressure::row_of(reading),
    {
        HousePressure {
            id: None,
            sensor_id: reading.sensor_id,
            pressure: reading.pressure,
            date_time: reading.date_time,
            created_date: None,
        }
    }
}

impl HouseHumidity {
    /// The row that records the humidity of `reading`.
    pub open spec fn row_of(reading: Bme280Payload) -> HouseHumidity {
        HouseHumidity {
            id: None,
            sensor_id: reading.sensor_id,
            humidity: reading.humidity,
            date_time: reading.date_time,
            created_date: None,
        }
    }

    #[verifier::when_used_as_spec(row_of)]
    pub fn of(reading: Bme280Payload) -> (row: HouseHumidity)
        ensures
            row == HouseHumidity::row_of(reading),
    {
        HouseHumidity {
            id: None,
            sensor_id: reading.sensor_id,
            humidity: reading.humidity,
            date_time: reading.date_time,
            created_date: None,
        }
    }
}

/// The step of the initialization whose outcome is awaited.
#[derive(Debug, Clone, Copy, PartialEq, Eq, Structural)]
pub enum Initialization {
    Sensors,
    Seeding,
    Temperatures,
    Humidities,
    Pressures,
    /// The initialization has ended, well or not.
    Finished,
}

/// What the caller is to do next on the store, holding its writer throughout.
#[derive(Debug)]
pub enum InitCommand {
    /// Create the table unless the store has it already.
    CreateTable(Table),
    /// Insert the rows of [`crate::seeders::sensors`].
    SeedSensors,
    /// Stop. An error is the one that the store gave for the step that failed.
    Finish(Result<(), rusqlite::Error>),
}

/// The steps of the initialization in their order. The sensors come first:
/// the seed goes into their table, and every other table points into it.
pub open spec fn init_steps() -> Seq<InitCommand> {
    seq![
        InitCommand::CreateTable(Table::Sensor),
        InitCommand::SeedSensors,
        InitCommand::CreateTable(Table::HouseTemperature),
        InitCommand::CreateTable(Table::HouseHumidity),
        InitCommand::CreateTable(Table::HousePressure),
    ]
}

/// Whether the initialization goes on after a step with this outcome.
/// Seeding may fail: a store that was started before has the seed already and
/// refuses a second sensor of the same name. Every other failure ends the
/// initialization.
pub open spec fn init_goes_on(step: int, outcome: Result<(), rusqlite::Error>) -> bool {
    step == 1 || outcome is Ok
}

/// How many steps from `step` on are passed before one ends the
/// initialization or `outcomes` runs out.
pub open spec fn init_steps_passed(step: int, outcomes: Seq<Result<(), rusqlite::Error>>) -> int
    decreases outcomes.len(),
{
    if step >= 5 || outcomes.len() == 0 || !init_goes_on(step, outcomes[0]) {
        0
    } else {
        1 + init_steps_passed(step + 1, outcomes.drop_first())
    }
}

impl Initialization {
    /// The state in which the outcome of step number `step` is awaited.
    pub open spec fn at(step: int) -> Initialization {
        if step <= 0 {
            Initialization::Sensors
        } else if step == 1 {
            Initialization::Seeding
        } else if step == 2 {
            Initialization::Temperatures
        } else if step == 3 {
            Initialization::Humidities
        } else if step == 4 {
            Initialization::Pressures
        } else {
            Initialization::Finished
        }
    }

    /// Where the initialization starts: with the table of the sensors.
    pub open spec fn started() -> (Initialization, InitCommand) {
        (Initialization::Sensors, InitCommand::CreateTable(Table::Sensor))
    }

    /// How the initialization goes on once the awaited step was carried out
    /// and the store said `outcome` to it.
    pub open spec fn advanced(self, outcome: Result<(), rusqlite::Error>) -> Option<
        (Initialization, InitCommand),
    > {
        match self {
            Initialization::Finished => None,
            Initialization::Seeding => Some(
                (Initialization::Temperatures, InitCommand::CreateTable(Table::HouseTemperature)),
            ),
            _ => match outcome {
                Err(e) => Some((Initialization::Finished, InitCommand::Finish(Err(e)))),
                Ok(_) => match self {
                    Initialization::Sensors => Some(
                        (Initialization::Seeding, InitCommand::SeedSensors),
                    ),
                    Initialization::Temperatures => Some(
                        (
                            Initialization::Humidities,
                            InitCommand::CreateTable(Table::HouseHumidity),
                        ),
                    ),
                    Initialization::Humidities => Some(
                        (
                            Initialization::Pressures,
                            InitCommand::CreateTable(Table::HousePressure),
                        ),
                    ),
                    _ => Some((Initialization::Finished, InitCommand::Finish(Ok(())))),
                },
            },
        }
    }

    /// The commands that follow `command`, itself included, when the steps go
    /// as `outcomes` says, one outcome for each step in turn. The sequence
    /// ends with `Finish`, or with a step whose outcome `outcomes` does not
    /// hold.
    pub open spec fn commands_from(
        self,
        command: InitCommand,
        outcomes: Seq<Result<(), rusqlite::Error>>,
    ) -> Seq<InitCommand>
        decreases outcomes.len(),
    {
        if outcomes.len() == 0 {
            seq![command]
        } else {
            match self.advanced(outcomes[0]) {
                None => seq![command],
                Some((state, next)) => seq![command] + state.commands_from(
                    next,
                    outcomes.drop_first(),
                ),
            }
        }
    }

    /// All commands of an initialization whose steps go as `outcomes` says.
    pub open spec fn commands(outcomes: Seq<Result<(), rusqlite::Error>>) -> Seq<InitCommand> {
        Initialization::started().0.commands_from(Initialization::started().1, outcomes)
    }

    /// Goes on after the awaited step: `outcome` is what the store said to it.
    /// Returns the next command, or nothing if the initialization had ended
    /// before.
    pub fn advance(self, outcome: Result<(), rusqlite::Error>) -> (step: Option<
        (Initialization, InitCommand),
    >)
        ensures
            step == self.advanced(outcome),
    {
        match self {
            Initialization::Finished => None,
            Initialization::Seeding => Some(
                (Initialization::Temperatures, InitCommand::CreateTable(Table::HouseTemperature)),
            ),
            state => match outcome {
                Err(e) => Some((Initialization::Finished, InitCommand::Finish(Err(e)))),
                Ok(_) => match state {
                    Initialization::Sensors => Some(
                        (Initialization::Seeding, InitCommand::SeedSensors),
                    ),
                    Initialization::Temperatures => Some(
                        (
                            Initialization::Humidities,
                            InitCommand::CreateTable(Table::HouseHumidity),
                        ),
                    ),
                    Initialization::Humidities => Some(
                        (
                            Initialization::Pressures,
                            InitCommand::CreateTable(Table::HousePressure),
                        ),
                    ),
                    _ => Some((Initialization::Finished, InitCommand::Finish(Ok(())))),
                },
            },
        }
    }
}

/// The commands from step number `step` on: the steps are taken in order up to
/// and including the first that ends the initialization, and `Finish` follows
/// at once with that step's error.
proof fn lemma_init_commands_from(step: int, outcomes: Seq<Result<(), rusqlite::Error>>)
    requires
        0 <= step < 5,
    ensures
        ({
            let n = init_steps_passed(step, outcomes);
            &&& 0 <= n <= 5 - step
            &&& n <= outcomes.len()
            &&& Initialization::at(step).commands_from(init_steps()[step], outcomes) == if n == 5
                - step {
                init_steps().subrange(step, 5) + seq![InitCommand::Finish(Ok(()))]
            } else if n < outcomes.len() {
                init_steps().subrange(step, step + n + 1) + seq![InitCommand::Finish(outcomes[n])]
            } else {
                init_steps().subrange(step, step + n + 1)
            }
        }),
    decreases 5 - step,
{
    if outcomes.len() == 0 {
    } else if !init_goes_on(step, outcomes[0]) {
        let failure = InitCommand::Finish(outcomes[0]);
        assert(Initialization::Finished.commands_from(failure, outcomes.drop_first()) == seq![
            failure,
        ]) by {
            reveal_with_fuel(Initialization::commands_from, 2);
        }
    } else if step == 4 {
        let success = InitCommand::Finish(Ok(()));
        assert(Initialization::Finished.commands_from(success, outcomes.drop_first()) == seq![
            success,
        ]) by {
            reveal_with_fuel(Initialization::commands_from, 2);
        }
    } else {
        lemma_init_commands_from(step + 1, outcomes.drop_first());
    }
}

/// Whatever the store does, the initialization takes its five steps in
/// order, stops at the first one that fails other than the seeding, and then
/// finishes at once with the error of that step. With `n` the number of steps
/// passed before that or before the end of `outcomes`: if all five are passed,
/// the commands are the five steps and a finish without error; if a step
/// failed after `n`, they are the first `n + 1` steps and a finish with that
/// step's error; if `outcomes` ends first, they are the first `n + 1` steps,
/// the last one still open. No step is taken twice.
pub proof fn lemma_init_commands(outcomes: Seq<Result<(), rusqlite::Error>>)
    ensures
        ({
            let n = init_steps_passed(0, outcomes);
            &&& 0 <= n <= 5
            &&& n <= outcomes.len()
            &&& Initialization::commands(outcomes) == if n == 5 {
                init_steps() + seq![InitCommand::Finish(Ok(()))]
            } else if n < outcomes.len() {
                init_steps().take(n + 1) + seq![InitCommand::Finish(outcomes[n])]
            } else {
                init_steps().take(n + 1)
            }
        }),
{
    lemma_init_commands_from(0, outcomes);
}

/// What the store says to the seeding changes nothing: an initialization
/// goes on in the same way whether the seed was taken or refused. So a store
/// that holds the seed already, and refuses a second sensor of its name,
/// starts up like a fresh one.
pub proof fn lemma_seeding_may_fail(
    outcomes: Seq<Result<(), rusqlite::Error>>,
    seeding: Result<(), rusqlite::Error>,
)
    requires
        outcomes.len() >= 2,
    ensures
        Initialization::commands(outcomes.update(1, seeding)) == Initialization::commands(
            outcomes,
        ),
{
    let other = outcomes.update(1, seeding);
    reveal_with_fuel(Initialization::commands_from, 3);
    assert(other.drop_first().drop_first() =~= outcomes.drop_first().drop_first());
}

/// When every table can be created, the initialization creates each of the
/// four tables once, seeds the sensors right after their table exists, and
/// finishes without error.
pub proof fn lemma_init_succeeds(outcomes: Seq<Result<(), rusqlite::Error>>)
    requires
        outcomes.len() >= 5,
        outcomes[0] is Ok,
        outcomes[2] is Ok,
        outcomes[3] is Ok,
        outcomes[4] is Ok,
    ensures
        Initialization::commands(outcomes) == seq![
            InitCommand::CreateTable(Table::Sensor),
            InitCommand::SeedSensors,
            InitCommand::CreateTable(Table::HouseTemperature),
            InitCommand::CreateTable(Table::HouseHumidity),
            InitCommand::CreateTable(Table::HousePressure),
            InitCommand::Finish(Ok(())),
        ],
{
    lemma_init_commands(outcomes);
    assert(init_steps_passed(0, outcomes) == 5) by {
        reveal_with_fuel(init_steps_passed, 6);
    }
}

/// A table is created only after the table that it points into.
pub proof fn lemma_referenced_table_comes_first(j: int, table: Table)
    requires
        0 <= j < 5,
        init_steps()[j] == InitCommand::CreateTable(table),
        table.referenced() is Some,
    ensures
        exists|i: int|
            0 <= i < j && init_steps()[i] == InitCommand::CreateTable(
                table.referenced()->Some_0,
            ),
{
    assert(init_steps()[0] == InitCommand::CreateTable(Table::Sensor));
}

/// Begins the initialization of the store: its four tables and the seed. The
/// first command creates the table of the sensors; [`Initialization::advance`]
/// gives the ones after it.
pub fn initialize_tables() -> (step: (Initialization, InitCommand))
    ensures
        step == Initialization::started(),
{
    (Initialization::Sensors, InitCommand::CreateTable(Table::Sensor))
}

} // verus!
