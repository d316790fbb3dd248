use house_telemetry::clock::Timestamp;
use house_telemetry::controllers::{data_handler, Command};
use house_telemetry::error::AppError;
use house_telemetry::reading::Bme280Payload;
use house_telemetry::seeders::sensors;
use house_telemetry::storage::{get_db_writer, WriterCommand};
use house_telemetry::tables::{initialize_tables, InitCommand, Table};
use house_telemetry::units::Temperature;
use rusqlite::Connection;

fn moment(t: Timestamp) -> chrono::DateTime<chrono::Utc> {
    chrono::DateTime::from_timestamp(t.secs, t.nanos).unwrap()
}

fn stamp(text: &str) -> Timestamp {
    let moment = chrono::DateTime::parse_from_rfc3339(text).unwrap();
    Timestamp { secs: moment.timestamp(), nanos: moment.timestamp_subsec_nanos() }
}

fn example() -> Bme280Payload {
    Bme280Payload {
        temperature: Temperature::from_wire(295.0f64.to_bits()),
        pressure: 101325.0f32.to_bits(),
        humidity: 45.2f32.to_bits(),
        date_time: stamp("2024-01-01T00:00:00Z"),
        sensor_id: 0,
    }
}

/// Sets up a writer on a store in memory, as the commands of the setup say.
fn open_writer() -> Connection {
    let (mut state, mut command) = get_db_writer();
    let mut conn = None;
    loop {
        let succeeded = match command {
            WriterCommand::Open => {
                conn = Connection::open_in_memory().ok();
                conn.is_some()
            }
            WriterCommand::Execute(pragma) => {
                conn.as_ref().unwrap().execute(pragma.statement(), []).is_ok()
            }
            WriterCommand::Serve => return conn.unwrap(),
            WriterCommand::Abort(failure) => panic!("{}", failure.message()),
        };
        let next = state.advance(succeeded).unwrap();
        state = next.0;
        command = next.1;
    }
}

fn create_table(conn: &Connection, table: Table) -> rusqlite::Result<()> {
    let columns = match table {
        Table::Sensor => String::from("name TEXT NOT NULL UNIQUE, active INTEGER NOT NULL"),
        measured => {
            let quantity = match measured {
                Table::HouseTemperature => "temperature",
                Table::HousePressure => "pressure",
                _ => "humidity",
            };
            format!(
                "sensor_id INTEGER NOT NULL REFERENCES {}(id), {} REAL NOT NULL, date_time TEXT NOT NULL",
                measured.references().unwrap().name(),
                quantity
            )
        }
    };
    let sql = format!(
        "CREATE TABLE IF NOT EXISTS {} (id INTEGER PRIMARY KEY, {}, created_date TEXT NOT NULL DEFAULT CURRENT_TIMESTAMP)",
        table.name(),
        columns
    );
    conn.execute(&sql, []).map(|_| ())
}

fn seed(conn: &Connection) -> rusqlite::Result<()> {
    let row = sensors();
    conn.execute(
        "INSERT INTO sensor (id, name, active) VALUES (?1, ?2, ?3)",
        (row.id.unwrap(), row.name, row.active),
    )
    .map(|_| ())
}

/// Initializes the store as the commands of the initialization say.
fn initialize(conn: &Connection) -> Result<(), rusqlite::Error> {
    let (mut state, mut command) = initialize_tables();
    loop {
        let outcome = match command {
            InitCommand::CreateTable(table) => create_table(conn, table),
            InitCommand::SeedSensors => seed(conn),
            InitCommand::Finish(result) => return result,
        };
        let next = state.advance(outcome).unwrap();
        state = next.0;
        command = next.1;
    }
}

fn insert(conn: &Connection, command: &Command) -> rusqlite::Result<()> {
    match command {
        Command::InsertHumidity(row) => conn.execute(
            "INSERT INTO house_humidity (sensor_id, humidity, date_time) VALUES (?1, ?2, ?3)",
            (row.sensor_id, f32::from_bits(row.humidity), moment(row.date_time)),
        ),
        Command::InsertPressure(row) => conn.execute(
            "INSERT INTO house_pressure (sensor_id, pressure, date_time) VALUES (?1, ?2, ?3)",
            (row.sensor_id, f32::from_bits(row.pressure), moment(row.date_time)),
        ),
        Command::InsertTemperature(row) => conn.execute(
            "INSERT INTO house_temperature (sensor_id, temperature, date_time) VALUES (?1, ?2, ?3)",
            (row.sensor_id, f64::from_bits(row.temperature.to_storage()), moment(row.date_time)),
        ),
        Command::Respond(_) => unreachable!(),
    }
    .map(|_| ())
}

/// Handles one request against the store, to its response.
fn handle(conn: &Connection, reading: Bme280Payload) -> Result<(), AppError> {
    let (mut state, mut command) = data_handler(reading);
    loop {
        if let Command::Respond(answer) = command {
            return answer;
        }
        let outcome = insert(conn, &command);
        let next = state.advance(outcome).unwrap();
        state = next.0;
        command = next.1;
    }
}

fn count(conn: &Connection, table: Table) -> i64 {
    conn.query_row(&format!("SELECT COUNT(*) FROM {}", table.name()), [], |row| row.get(0)).unwrap()
}

fn counts(conn: &Connection) -> (i64, i64, i64) {
    (
        count(conn, Table::HouseHumidity),
        count(conn, Table::HousePressure),
        count(conn, Table::HouseTemperature),
    )
}

fn ready_store() -> Connection {
    let conn = open_writer();
    initialize(&conn).unwrap();
    conn
}

#[test]
fn writer_on_a_fresh_store_enforces_foreign_keys() {
    let conn = open_writer();
    let on: i64 = conn.query_row("PRAGMA foreign_keys", [], |row| row.get(0)).unwrap();
    assert_eq!(on, 1);
}

#[test]
fn initialization_lays_out_four_tables_and_one_sensor() {
    let conn = ready_store();
    let tables: i64 = conn
        .query_row("SELECT COUNT(*) FROM sqlite_master WHERE type = 'table'", [], |r| r.get(0))
        .unwrap();
    assert_eq!(tables, 4);
    assert_eq!(count(&conn, Table::Sensor), 1);
    assert_eq!(counts(&conn), (0, 0, 0));
    let (id, name, active): (i32, String, bool) = conn
        .query_row("SELECT id, name, active FROM sensor", [], |r| {
            Ok((r.get(0)?, r.get(1)?, r.get(2)?))
        })
        .unwrap();
    assert_eq!((id, name.as_str(), active), (0, "Main Thermostat BME280", true));
}

#[test]
fn initializing_twice_fails_nothing_and_doubles_nothing() {
    let conn = ready_store();
    assert_eq!(initialize(&conn), Ok(()));
    let objects: i64 = conn
        .query_row("SELECT COUNT(*) FROM sqlite_master WHERE type = 'table'", [], |r| r.get(0))
        .unwrap();
    assert_eq!(objects, 4);
}

#[test]
fn seeding_a_seeded_store_leaves_one_sensor_of_that_name() {
    let conn = ready_store();
    assert!(seed(&conn).is_err());
    assert_eq!(initialize(&conn), Ok(()));
    let named: i64 = conn
        .query_row(
            "SELECT COUNT(*) FROM sensor WHERE name = ?1",
            ("Main Thermostat BME280",),
            |r| r.get(0),
        )
        .unwrap();
    assert_eq!(named, 1);
}

#[test]
fn posted_example_adds_one_row_to_each_measurement_table() {
    let conn = ready_store();
    assert_eq!(handle(&conn, example()), Ok(()));
    assert_eq!(counts(&conn), (1, 1, 1));
    for (table, quantity, expected) in [
        (Table::HouseHumidity, "humidity", 45.2f32 as f64),
        (Table::HousePressure, "pressure", 101325.0),
        (Table::HouseTemperature, "temperature", 295.0),
    ] {
        let (sensor_id, value, date_time): (i32, f64, chrono::DateTime<chrono::Utc>) = conn
            .query_row(
                &format!("SELECT sensor_id, {}, date_time FROM {}", quantity, table.name()),
                [],
                |r| Ok((r.get(0)?, r.get(1)?, r.get(2)?)),
            )
            .unwrap();
        assert_eq!(sensor_id, 0);
        assert_eq!(value, expected);
        assert_eq!(date_time, moment(stamp("2024-01-01T00:00:00Z")));
    }
}

#[test]
fn stored_temperature_is_read_back_to_the_bit() {
    let conn = ready_store();
    let kelvin = 22.5f64 + 273.15;
    let reading =
        Bme280Payload { temperature: Temperature::from_kelvin(kelvin.to_bits()), ..example() };
    assert_eq!(handle(&conn, reading), Ok(()));
    let column: f64 =
        conn.query_row("SELECT temperature FROM house_temperature", [], |r| r.get(0)).unwrap();
    let read_back = Temperature::from_storage(column.to_bits());
    assert_eq!(read_back, reading.temperature);
    let fahrenheit = (f64::from_bits(read_back.to_wire()) - 273.15) * 9.0 / 5.0 + 32.0;
    assert!((fahrenheit - 72.5).abs() < 1e-9);
}

#[test]
fn reading_of_an_unknown_sensor_is_refused_and_writes_nothing() {
    let conn = ready_store();
    assert_eq!(handle(&conn, example()), Ok(()));
    let stranger = Bme280Payload { sensor_id: 7, ..example() };
    assert_eq!(handle(&conn, stranger), Err(AppError::InternalServerError));
    assert_eq!(counts(&conn), (1, 1, 1));
}

#[test]
fn interleaved_requests_each_add_their_own_rows() {
    let conn = ready_store();
    let n = 8;
    let mut open: Vec<_> = (0..n)
        .map(|i| {
            let reading = Bme280Payload {
                date_time: Timestamp { secs: 1_704_067_200 + i, nanos: 0 },
                ..example()
            };
            let (state, command) = data_handler(reading);
            (state, command, None)
        })
        .collect();
    // One write at a time goes through the writer, the requests taking turns.
    for _ in 0..4 {
        for request in open.iter_mut().rev() {
            if let Command::Respond(answer) = &request.1 {
                request.2 = Some(answer.clone());
                continue;
            }
            let outcome = insert(&conn, &request.1);
            let next = request.0.advance(outcome).unwrap();
            request.0 = next.0;
            request.1 = next.1;
        }
    }
    assert!(open.iter().all(|request| request.2 == Some(Ok(()))));
    assert_eq!(counts(&conn), (n, n, n));
    for table in [Table::HouseHumidity, Table::HousePressure, Table::HouseTemperature] {
        let distinct: i64 = conn
            .query_row(&format!("SELECT COUNT(DISTINCT date_time) FROM {}", table.name()), [], |r| {
                r.get(0)
            })
            .unwrap();
        assert_eq!(distinct, n);
    }
}

#[test]
fn row_written_before_a_refusal_stays() {
    let conn = ready_store();
    conn.execute("DROP TABLE house_pressure", []).unwrap();
    assert_eq!(handle(&conn, example()), Err(AppError::InternalServerError));
    assert_eq!(count(&conn, Table::HouseHumidity), 1);
    assert_eq!(count(&conn, Table::HouseTemperature), 0);
}
