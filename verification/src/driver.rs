//! The driver: what it asks of its host, and what it makes of the answers.
//!
//! An exchange with the sensor is a short dialogue between the driver and the
//! host that owns the bus. The driver opens it with an [`Action`]; the host
//! performs the action and reports an [`Event`]; [`HTU21D::advance`] answers
//! with the next action or with the result of the exchange. [`next`] is that
//! dialogue as a function.

use vstd::prelude::*;
use crate::protocol::{raw_of, raw_reading, Action, Quantity, Request, I2C_ADDRESS, RESPONSE_LENGTH};

verus! {

/// The one way an exchange fails.
#[derive(Debug, PartialEq, Eq)]
pub enum Error<E> {
    /// I2C bus error
    I2c(E),
}

/// What the host reports after it performed an action.
#[derive(Debug, PartialEq, Eq)]
pub enum Event<E> {
    /// The write ended, well or with the bus's error.
    Written(Result<(), E>),
    /// The delay is over.
    Elapsed,
    /// The read ended, with the bytes of the response or with the bus's error.
    Received(Result<[u8; 3], E>),
}

/// What an exchange yields when nothing went wrong.
#[derive(Clone, Copy, Debug, PartialEq, Eq, Structural)]
pub enum Reply {
    /// The sensor was reset and has settled.
    Reset,
    /// The raw reading of a measurement.
    Reading { quantity: Quantity, raw: u16 },
}

/// The driver's answer to an event.
#[derive(Debug, PartialEq, Eq)]
pub enum Step<E> {
    /// The exchange goes on: the host performs this action next.
    Perform(Action),
    /// The exchange is over, with this result.
    Finished(Result<Reply, Error<E>>),
    /// The event answers nothing that the driver asked for.
    Unexpected,
}

/// Where the driver stands in an exchange: the answer it waits for.
#[derive(Clone, Copy, Debug, Default, PartialEq, Eq, Structural)]
pub enum Stage {
    /// No exchange is under way.
    #[default]
    Idle,
    /// The command byte is being written.
    Command(Request),
    /// The command was written and the sensor is left alone.
    Settle(Request),
    /// The response is being read.
    Response(Quantity),
}

/// The read that fetches the response to a measurement.
pub open spec fn fetch() -> Action {
    Action::Read { address: I2C_ADDRESS, length: RESPONSE_LENGTH }
}

/// The driver's dialogue with its host: the stage after `event` arrived in
/// `stage`, and the driver's answer.
///
/// A failed write or read ends the exchange at once with the bus's error. A
/// reset is over when its delay is; a measurement reads its response after the
/// delay and is over with the raw reading. An event that does not answer what
/// the driver waits for changes nothing.
pub open spec fn next<E>(stage: Stage, event: Event<E>) -> (Stage, Step<E>) {
    match (stage, event) {
        (Stage::Command(request), Event::Written(Ok(_))) => (
            Stage::Settle(request),
            Step::Perform(Action::Delay { millis: request.spec_wait_millis() }),
        ),
        (Stage::Command(_), Event::Written(Err(fault))) => (
            Stage::Idle,
            Step::Finished(Err(Error::I2c(fault))),
        ),
        (Stage::Settle(Request::Reset), Event::Elapsed) => (
            Stage::Idle,
            Step::Finished(Ok(Reply::Reset)),
        ),
        (Stage::Settle(Request::Measure(quantity)), Event::Elapsed) => (
            Stage::Response(quantity),
            Step::Perform(fetch()),
        ),
        (Stage::Response(quantity), Event::Received(Ok(response))) => (
            Stage::Idle,
            Step::Finished(Ok(Reply::Reading { quantity, raw: raw_of(response) })),
        ),
        (Stage::Response(_), Event::Received(Err(fault))) => (
            Stage::Idle,
            Step::Finished(Err(Error::I2c(fault))),
        ),
        _ => (stage, Step::Unexpected),
    }
}

/// Driver for the HTU21D.
///
/// It owns the bus and the delay provider of its host and keeps them for the
/// host to use; it never touches them itself.
#[derive(Debug, Default)]
pub struct HTU21D<I2C, D> {
    /// The concrete I2C device implementation.
    i2c: I2C,
    /// The concrete delay implementation.
    delay: D,
    /// The answer the driver waits for.
    stage: Stage,
}

impl<I2C, D> HTU21D<I2C, D> {
    /// The bus that the driver owns.
    pub closed spec fn bus(&self) -> I2C {
        self.i2c
    }

    /// The delay provider that the driver owns.
    pub closed spec fn timer(&self) -> D {
        self.delay
    }

    /// The answer the driver waits for.
    pub closed spec fn spec_stage(&self) -> Stage {
        self.stage
    }

    /// Makes a driver of a bus and a delay provider. Nothing is written to the
    /// bus: the sensor is not probed.
    pub fn new(i2c: I2C, delay: D) -> (driver: Self)
        ensures
            driver.bus() == i2c,
            driver.timer() == delay,
            driver.spec_stage() == Stage::Idle,
    {
        HTU21D { i2c, delay, stage: Stage::Idle }
    }

    /// Opens the exchange for `request` and returns its first action, the
    /// write of the command byte. An exchange that was under way is given up.
    pub fn begin(&mut self, request: Request) -> (action: Action)
        ensures
            action == request.spec_opening(),
            final(self).spec_stage() == Stage::Command(request),
            final(self).bus() == old(self).bus(),
            final(self).timer() == old(self).timer(),
    {
        self.stage = Stage::Command(request);
        request.opening()
    }

    /// Opens a soft reset: the host is to write the reset command. The reset
    /// is over when the write went well and the sensor has settled.
    pub fn reset(&mut self) -> (action: Action)
        ensures
            action == Request::Reset.spec_opening(),
            final(self).spec_stage() == Stage::Command(Request::Reset),
            final(self).bus() == old(self).bus(),
            final(self).timer() == old(self).timer(),
    {
        self.begin(Request::Reset)
    }

    /// Opens a temperature measurement: the host is to write the command that
    /// starts the conversion. The exchange ends with the raw reading.
    pub fn read_temperature(&mut self) -> (action: Action)
        ensures
            action == Request::Measure(Quantity::Temperature).spec_opening(),
            final(self).spec_stage() == Stage::Command(Request::Measure(Quantity::Temperature)),
            final(self).bus() == old(self).bus(),
            final(self).timer() == old(self).timer(),
    {
        self.begin(Request::Measure(Quantity::Temperature))
    }

    /// Opens a humidity measurement: the host is to write the command that
    /// starts the conversion. The exchange ends with the raw reading.
    pub fn read_humidity(&mut self) -> (action: Action)
        ensures
            action == Request::Measure(Quantity::Humidity).spec_opening(),
            final(self).spec_stage() == Stage::Command(Request::Measure(Quantity::Humidity)),
            final(self).bus() == old(self).bus(),
            final(self).timer() == old(self).timer(),
    {
        self.begin(Request::Measure(Quantity::Humidity))
    }

    /// Takes what the host reports and says how the exchange goes on.
    pub fn advance<E>(&mut self, event: Event<E>) -> (step: Step<E>)
        ensures
            (final(self).spec_stage(), step) == next(old(self).spec_stage(), event),
            final(self).bus() == old(self).bus(),
            final(self).timer() == old(self).timer(),
    {
        match (self.stage, event) {
            (Stage::Command(request), Event::Written(Ok(_))) => {
                self.stage = Stage::Settle(request);
                Step::Perform(Action::Delay { millis: request.wait_millis() })
            },
            (Stage::Command(_), Event::Written(Err(fault))) => {
                self.stage = Stage::Idle;
                Step::Finished(Err(Error::I2c(fault)))
            },
            (Stage::Settle(Request::Reset), Event::Elapsed) => {
                self.stage = Stage::Idle;
                Step::Finished(Ok(Reply::Reset))
            },
            (Stage::Settle(Request::Measure(quantity)), Event::Elapsed) => {
                self.stage = Stage::Response(quantity);
                Step::Perform(Action::Read { address: I2C_ADDRESS, length: RESPONSE_LENGTH })
            },
            (Stage::Response(quantity), Event::Received(Ok(response))) => {
                self.stage = Stage::Idle;
                Step::Finished(Ok(Reply::Reading { quantity, raw: raw_reading(response) }))
            },
            (Stage::Response(_), Event::Received(Err(fault))) => {
                self.stage = Stage::Idle;
                Step::Finished(Err(Error::I2c(fault)))
            },
            _ => Step::Unexpected,
        }
    }

    /// The answer the driver waits for.
    #[verifier::when_used_as_spec(spec_stage)]
    pub fn stage(&self) -> (stage: Stage)
        ensures
            stage == self.spec_stage(),
    {
        self.stage
    }

    /// Lends the bus to the host. What the host leaves there is the driver's
    /// bus from then on; nothing else changes.
    pub fn i2c(&mut self) -> (i2c: &mut I2C)
        ensures
            *i2c == old(self).bus(),
            final(self).bus() == *final(i2c),
            final(self).timer() == old(self).timer(),
            final(self).spec_stage() == old(self).spec_stage(),
    {
        &mut self.i2c
    }

    /// Lends the delay provider to the host. What the host leaves there is the
    /// driver's delay provider from then on; nothing else changes.
    pub fn delay(&mut self) -> (delay: &mut D)
        ensures
            *delay == old(self).timer(),
            final(self).timer() == *final(delay),
            final(self).bus() == old(self).bus(),
            final(self).spec_stage() == old(self).spec_stage(),
    {
        &mut self.delay
    }
}

} // verus!
