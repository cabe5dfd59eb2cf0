//! The wire protocol: addresses, command bytes, timing and the layout of a
//! response.

use vstd::prelude::*;

verus! {

/// Bus address of the sensor.
pub const I2C_ADDRESS: u8 = 0x40;

/// Command byte of a soft reset.
pub const SOFT_RESET: u8 = 0xFE;

/// Command byte that starts a temperature measurement.
pub const START_TEMPERATURE: u8 = 0xE3;

/// Command byte that starts a humidity measurement.
pub const START_HUMIDITY: u8 = 0xE5;

/// Milliseconds the sensor needs to settle after a soft reset.
pub const RESET_MILLIS: u8 = 15;

/// Milliseconds a measurement takes at most at the default resolution.
pub const CONVERSION_MILLIS: u8 = 50;

/// Number of bytes in the response to a measurement.
pub const RESPONSE_LENGTH: usize = 3;

/// A physical quantity that the sensor measures.
#[derive(Clone, Copy, Debug, PartialEq, Eq, Structural)]
pub enum Quantity {
    Temperature,
    Humidity,
}

/// An operation of the driver.
#[derive(Clone, Copy, Debug, PartialEq, Eq, Structural)]
pub enum Request {
    /// Soft reset of the sensor.
    Reset,
    /// Measurement of one quantity.
    Measure(Quantity),
}

/// One thing the host does for the driver.
#[derive(Clone, Copy, Debug, PartialEq, Eq, Structural)]
pub enum Action {
    /// Write the single byte `command` to the device at `address`.
    Write { address: u8, command: u8 },
    /// Block for `millis` milliseconds.
    Delay { millis: u8 },
    /// Read `length` bytes from the device at `address`.
    Read { address: u8, length: usize },
}

impl Quantity {
    /// The command byte that starts a measurement of this quantity.
    pub open spec fn spec_command(self) -> u8 {
        match self {
            Quantity::Temperature => START_TEMPERATURE,
            Quantity::Humidity => START_HUMIDITY,
        }
    }

    /// The command byte that starts a measurement of this quantity.
    #[verifier::when_used_as_spec(spec_command)]
    pub fn command(self) -> (byte: u8)
        ensures
            byte == self.spec_command(),
    {
        match self {
            Quantity::Temperature => START_TEMPERATURE,
            Quantity::Humidity => START_HUMIDITY,
        }
    }
}

impl Request {
    /// The command byte that opens the exchange.
    pub open spec fn spec_command(self) -> u8 {
        match self {
            Request::Reset => SOFT_RESET,
            Request::Measure(quantity) => quantity.spec_command(),
        }
    }

    /// The command byte that opens the exchange.
    #[verifier::when_used_as_spec(spec_command)]
    pub fn command(self) -> (byte: u8)
        ensures
            byte == self.spec_command(),
    {
        match self {
            Request::Reset => SOFT_RESET,
            Request::Measure(quantity) => quantity.command(),
        }
    }

    /// Milliseconds the sensor is left alone after the command was written.
    pub open spec fn spec_wait_millis(self) -> u8 {
        match self {
            Request::Reset => RESET_MILLIS,
            Request::Measure(_) => CONVERSION_MILLIS,
        }
    }

    /// Milliseconds the sensor is left alone after the command was written.
    #[verifier::when_used_as_spec(spec_wait_millis)]
    pub fn wait_millis(self) -> (millis: u8)
        ensures
            millis == self.spec_wait_millis(),
    {
        match self {
            Request::Reset => RESET_MILLIS,
            Request::Measure(_) => CONVERSION_MILLIS,
        }
    }

    /// The write that opens the exchange.
    pub open spec fn spec_opening(self) -> Action {
        Action::Write { address: I2C_ADDRESS, command: self.spec_command() }
    }

    /// The write that opens the exchange.
    #[verifier::when_used_as_spec(spec_opening)]
    pub fn opening(self) -> (action: Action)
        ensures
            action == self.spec_opening(),
    {
        Action::Write { address: I2C_ADDRESS, command: self.command() }
    }
}

/// The raw reading that a response carries: its first byte is the high
/// order byte, its second the low order byte. The third byte takes no part.
pub open spec fn raw_of(response: [u8; 3]) -> u16 {
    (response[0] * 256 + response[1]) as u16
}

/// Assembles the raw 16-bit reading from the first two bytes of a response,
/// high order byte first. The third byte is not looked at.
pub fn raw_reading(response: [u8; 3]) -> (raw: u16)
    ensures
        raw == raw_of(response),
        raw == response[0] * 256 + response[1],
        raw == ((response[0] as u16) << 8) | (response[1] as u16),
{
    let high: u16 = response[0] as u16;
    let low: u16 = response[1] as u16;
    assert((high << 8) + low == high * 256 + low && ((high << 8) | low) == high * 256 + low)
        by (bit_vector)
        requires
            high < 256,
            low < 256,
    ;
    (high << 8) + low
}

/// Two responses that agree in their first two bytes carry the same raw
/// reading, whatever their third bytes are.
pub proof fn lemma_raw_ignores_third_byte(first: [u8; 3], second: [u8; 3])
    requires
        first[0] == second[0],
        first[1] == second[1],
    ensures
        raw_of(first) == raw_of(second),
{
}

} // verus!
