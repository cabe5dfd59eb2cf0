//! Driver core for the HTU21D temperature and humidity sensor.
//!
//! The sensor sits on a two-wire bus at a fixed address. Every operation is one
//! short exchange: a command byte is written, the sensor is left alone for a
//! fixed time, and a measurement is then read back as three bytes.
//!
//! The crate holds the decisions of that exchange and none of its
//! input/output. The driver says which [`Action`] the host has to perform next
//! and is told what came of it as an [`Event`]; the host owns the loop that
//! talks to the bus and sleeps.

pub mod convert;
pub mod driver;
pub mod exchange;
pub mod protocol;

pub use crate::convert::{humidity_millipercent, temperature_millidegrees};
pub use crate::driver::{Error, Event, Reply, Stage, Step, HTU21D};
pub use crate::protocol::{raw_reading, Action, Quantity, Request};
