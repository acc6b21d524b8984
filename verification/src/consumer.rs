//! A plain consumer of the payment queue: it takes one payment after the other, over a
//! new connection each time, and never stops.

use crate::payment::PaymentRequest;
use crate::queue::PAYMENT_QUEUE;
use vstd::prelude::*;

verus! {

/// How long the consumer waits after an error of the server, in seconds.
pub const ERROR_PAUSE_SECS: u64 = 5;

/// What the consumer is told.
#[derive(Debug)]
pub enum ConsumerEvent {
    /// It has started.
    Started,
    /// There is no connection to be had.
    ConnectFailed,
    /// It has a connection.
    Connected,
    /// The queue could not be read.
    PopFailed,
    /// `payment_json` was taken off the queue.
    Popped { payment_json: String },
    /// The entry holds `payment`, or no payment.
    Parsed { payment: Option<PaymentRequest> },
    /// The payment has been processed.
    Processed,
    /// The pause is over.
    Slept,
}

/// What the consumer asks for.
#[derive(Debug)]
pub enum ConsumerAction {
    /// Connect to the server.
    Connect,
    /// Wait for an entry of `queue`, for as long as it takes.
    Pop { queue: &'static str },
    /// Read the payment that an entry of the queue holds.
    Parse { payment_json: String },
    /// Process `payment`.
    Process { payment: PaymentRequest },
    /// Pause for `secs` seconds.
    Sleep { secs: u64 },
}

/// What the consumer asks for when it is told of `event`.
pub open spec fn next_consumer_action(event: ConsumerEvent) -> ConsumerAction {
    match event {
        ConsumerEvent::Started => ConsumerAction::Connect,
        ConsumerEvent::ConnectFailed => ConsumerAction::Sleep { secs: ERROR_PAUSE_SECS },
        ConsumerEvent::Connected => ConsumerAction::Pop { queue: PAYMENT_QUEUE },
        ConsumerEvent::PopFailed => ConsumerAction::Sleep { secs: ERROR_PAUSE_SECS },
        ConsumerEvent::Popped { payment_json } => ConsumerAction::Parse { payment_json },
        ConsumerEvent::Parsed { payment } => match payment {
            Some(payment) => ConsumerAction::Process { payment },
            None => ConsumerAction::Connect,
        },
        ConsumerEvent::Processed => ConsumerAction::Connect,
        ConsumerEvent::Slept => ConsumerAction::Connect,
    }
}

/// Tells the consumer of `event`, and has it ask for what it needs next.
pub fn consume(event: ConsumerEvent) -> (action: ConsumerAction)
    ensures
        action == next_consumer_action(event),
{
    match event {
        ConsumerEvent::ConnectFailed => ConsumerAction::Sleep { secs: ERROR_PAUSE_SECS },
        ConsumerEvent::Connected => ConsumerAction::Pop { queue: PAYMENT_QUEUE },
        ConsumerEvent::PopFailed => ConsumerAction::Sleep { secs: ERROR_PAUSE_SECS },
        ConsumerEvent::Popped { payment_json } => ConsumerAction::Parse { payment_json },
        ConsumerEvent::Parsed { payment: Some(payment) } => ConsumerAction::Process { payment },
        _ => ConsumerAction::Connect,
    }
}

/// The queue is read exactly once over each connection, a payment is processed exactly when
/// one was read from an entry, and only an error of the server brings a pause.
pub proof fn law_consumer_reads_once_per_connection(event: ConsumerEvent)
    ensures
        next_consumer_action(event) is Pop <==> event is Connected,
        next_consumer_action(event) is Process <==> (event matches ConsumerEvent::Parsed {
            payment,
        } && payment is Some),
        next_consumer_action(event) is Sleep <==> event is ConnectFailed || event is PopFailed,
{
}

/// The consumer reads the very entry that it took, processes the very payment that the entry
/// holds, pauses for five seconds after an error of the server, and otherwise takes up a new
/// connection.
pub proof fn law_consumer_processes_what_it_takes(
    payment_json: String,
    payment: PaymentRequest,
    event: ConsumerEvent,
)
    ensures
        next_consumer_action(ConsumerEvent::Popped { payment_json }) == (ConsumerAction::Parse {
            payment_json,
        }),
        next_consumer_action(ConsumerEvent::Parsed { payment: Some(payment) }) == (
        ConsumerAction::Process { payment }),
        next_consumer_action(event) matches ConsumerAction::Sleep { secs } ==> secs == 5,
        next_consumer_action(event) matches ConsumerAction::Pop { queue } ==> queue@
            == "payment_queue"@,
        next_consumer_action(event) is Connect <==> {
            ||| event is Started
            ||| event == (ConsumerEvent::Parsed { payment: None })
            ||| event is Processed
            ||| event is Slept
        },
{
}

} // verus!
