//! Decision logic of a small environmental-telemetry pipeline: readings taken
//! from a sensor, the client loop that sends them, the endpoint that splits
//! each reading into rows, and the start-up of the store that keeps them.
//!
//! Everything here works on plain values. Talking to the sensor, the network
//! and the store is left to the caller, which carries out the commands that
//! these functions hand out and reports back how each one went.

pub mod clock;
pub mod units;
pub mod reading;
pub mod error;
pub mod tables;
pub mod seeders;
pub mod controllers;
pub mod client;
pub mod storage;
pub mod turns;
