//! Whole exchanges, as the host of the driver sees them.
//!
//! [`exchange`] plays the driver's dialogue against a bus whose answers are
//! given and collects what the host was asked to do. The lemmas of this module
//! say what every exchange looks like: which actions it takes, in which order,
//! and how it ends.

use vstd::prelude::*;
use crate::driver::{next, Error, Event, Reply, Stage, Step};
use crate::protocol::{raw_of, Action, Quantity, Request};

verus! {

/// The event with which a host answers `action`, when its bus answers a write
/// with `written` and a read with `received`.
pub open spec fn answer<E>(action: Action, written: Result<(), E>, received: Result<[u8; 3], E>) -> Event<E> {
    match action {
        Action::Write { .. } => Event::Written(written),
        Action::Delay { .. } => Event::Elapsed,
        Action::Read { .. } => Event::Received(received),
    }
}

/// The rest of an exchange, from `action` on, that the driver asked for in
/// `stage`: the actions that the host performs, in their order, and the
/// result. The host answers each action by [`answer`] and the driver each
/// event by [`next`], for at most `limit` actions. The result is `None` where
/// the exchange did not end within them.
pub open spec fn rest_of_exchange<E>(
    stage: Stage,
    action: Action,
    written: Result<(), E>,
    received: Result<[u8; 3], E>,
    limit: nat,
) -> (Seq<Action>, Option<Result<Reply, Error<E>>>)
    decreases limit,
{
    if limit == 0 {
        (Seq::empty(), None)
    } else {
        let (stage_after, step) = next(stage, answer(action, written, received));
        match step {
            Step::Perform(following) => {
                let (actions, result) = rest_of_exchange(
                    stage_after,
                    following,
                    written,
                    received,
                    (limit - 1) as nat,
                );
                (seq![action] + actions, result)
            },
            Step::Finished(result) => (seq![action], Some(result)),
            Step::Unexpected => (seq![action], None),
        }
    }
}

/// The exchange for `request` as its host sees it: every action that the host
/// performs, in order, and the result that ends it, when the bus answers the
/// write with `written` and the read with `received`. No exchange is longer
/// than a write, a delay and a read.
pub open spec fn exchange<E>(
    request: Request,
    written: Result<(), E>,
    received: Result<[u8; 3], E>,
) -> (Seq<Action>, Option<Result<Reply, Error<E>>>) {
    rest_of_exchange(Stage::Command(request), request.spec_opening(), written, received, 3)
}

/// Every exchange comes to an end, whatever the bus answers: it opens with the
/// write of its command, takes three actions at most, and has a result.
pub proof fn lemma_exchange_ends<E>(
    request: Request,
    written: Result<(), E>,
    received: Result<[u8; 3], E>,
)
    ensures
        exchange(request, written, received).1 is Some,
        1 <= exchange(request, written, received).0.len() <= 3,
        exchange(request, written, received).0[0] == request.spec_opening(),
{
    reveal_with_fuel(rest_of_exchange, 4);
}

/// A reset whose write goes well is exactly one write of the reset command to
/// the sensor's address and, after it, one delay of the settling time; it
/// succeeds, and nothing is read.
pub proof fn lemma_reset_exchange<E>(received: Result<[u8; 3], E>)
    ensures
        exchange(Request::Reset, Ok::<(), E>(()), received) == (
            seq![
                Action::Write { address: 0x40, command: 0xFE },
                Action::Delay { millis: 15 },
            ],
            Some(Ok::<Reply, Error<E>>(Reply::Reset)),
        ),
{
    reveal_with_fuel(rest_of_exchange, 3);
    let run = exchange(Request::Reset, Ok::<(), E>(()), received);
    assert(run.0 =~= seq![
        Action::Write { address: 0x40, command: 0xFE },
        Action::Delay { millis: 15 },
    ]);
}

/// A measurement on a bus that works is one write of the quantity's command,
/// one delay of the conversion time and one read of three bytes, in this
/// order; it yields the raw reading of the response.
pub proof fn lemma_measurement_exchange<E>(quantity: Quantity, response: [u8; 3])
    ensures
        exchange(Request::Measure(quantity), Ok::<(), E>(()), Ok::<[u8; 3], E>(response)) == (
            seq![
                Action::Write { address: 0x40, command: quantity.spec_command() },
                Action::Delay { millis: 50 },
                Action::Read { address: 0x40, length: 3 },
            ],
            Some(Ok::<Reply, Error<E>>(Reply::Reading { quantity, raw: raw_of(response) })),
        ),
        Quantity::Temperature.spec_command() == 0xE3,
        Quantity::Humidity.spec_command() == 0xE5,
{
    reveal_with_fuel(rest_of_exchange, 4);
    let run = exchange(Request::Measure(quantity), Ok::<(), E>(()), Ok::<[u8; 3], E>(response));
    assert(run.0 =~= seq![
        Action::Write { address: 0x40, command: quantity.spec_command() },
        Action::Delay { millis: 50 },
        Action::Read { address: 0x40, length: 3 },
    ]);
}

/// When the write of the command fails, the exchange ends with the bus's
/// error, and the write is all that happened: no delay and no read follow.
pub proof fn lemma_write_failure_ends_exchange<E>(
    request: Request,
    fault: E,
    received: Result<[u8; 3], E>,
)
    ensures
        exchange(request, Err::<(), E>(fault), received) == (
            seq![Action::Write { address: 0x40, command: request.spec_command() }],
            Some(Err::<Reply, Error<E>>(Error::I2c(fault))),
        ),
{
    reveal_with_fuel(rest_of_exchange, 2);
    let run = exchange(request, Err::<(), E>(fault), received);
    assert(run.0 =~= seq![Action::Write { address: 0x40, command: request.spec_command() }]);
}

/// When the write goes well and the read of the response fails, the
/// measurement ends with the bus's error, after the write, the whole delay and
/// the read.
pub proof fn lemma_read_failure_ends_exchange<E>(quantity: Quantity, fault: E)
    ensures
        exchange(Request::Measure(quantity), Ok::<(), E>(()), Err::<[u8; 3], E>(fault)) == (
            seq![
                Action::Write { address: 0x40, command: quantity.spec_command() },
                Action::Delay { millis: 50 },
                Action::Read { address: 0x40, length: 3 },
            ],
            Some(Err::<Reply, Error<E>>(Error::I2c(fault))),
        ),
{
    reveal_with_fuel(rest_of_exchange, 4);
    let run = exchange(Request::Measure(quantity), Ok::<(), E>(()), Err::<[u8; 3], E>(fault));
    assert(run.0 =~= seq![
        Action::Write { address: 0x40, command: quantity.spec_command() },
        Action::Delay { millis: 50 },
        Action::Read { address: 0x40, length: 3 },
    ]);
}

} // verus!
