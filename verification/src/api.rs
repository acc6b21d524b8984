//! The HTTP intake: what becomes of a posted payment, and what the client is answered.

use vstd::prelude::*;

verus! {

/// How many payments wait between the intake and the workers.
pub const INTAKE_CAPACITY: usize = 10_000;

/// How many slaves serve the retry queue.
pub const WORKER_COUNT: i16 = 4;

pub const ACCEPTED: u16 = 202;

pub const BAD_REQUEST: u16 = 400;

pub const INTERNAL_SERVER_ERROR: u16 = 500;

/// What a client is told whose payment could not be written down.
pub const INVALID_PAYMENT: &'static str = "Invalid payment data";

/// An answer to a client.
#[derive(Debug)]
pub struct Reply {
    pub status: u16,
    pub body: String,
}

/// What is to be done with a posted payment.
#[derive(Debug)]
pub enum Intake {
    /// Hand `payload` to the workers.
    Enqueue { payload: Vec<u8> },
    /// Answer the client at once.
    Answer { reply: Reply },
}

/// The status that a client is answered with: whether its payment was written down, and,
/// if so, whether the workers could be handed it.
pub open spec fn intake_status(serialized: bool, enqueued: bool) -> u16 {
    if !serialized {
        BAD_REQUEST
    } else if !enqueued {
        INTERNAL_SERVER_ERROR
    } else {
        ACCEPTED
    }
}

/// Takes in a posted payment, of which `serialized` is the written form, if it has one. A
/// payment that has none is refused.
pub fn enqueue_payment(serialized: Option<Vec<u8>>) -> (intake: Intake)
    ensures
        match serialized {
            Some(payload) => intake == (Intake::Enqueue { payload }),
            None => intake matches Intake::Answer { reply } && reply.status == intake_status(
                false,
                false,
            ) && reply.body@ == INVALID_PAYMENT@,
        },
{
    match serialized {
        Some(payload) => Intake::Enqueue { payload },
        None => Intake::Answer {
            reply: Reply { status: BAD_REQUEST, body: INVALID_PAYMENT.to_owned() },
        },
    }
}

/// The answer to a client whose payment was offered to the workers.
pub fn enqueue_reply(enqueued: bool) -> (reply: Reply)
    ensures
        reply.status == intake_status(true, enqueued),
        reply.body@ == Seq::<char>::empty(),
{
    if enqueued {
        Reply { status: ACCEPTED, body: String::new() }
    } else {
        Reply { status: INTERNAL_SERVER_ERROR, body: String::new() }
    }
}

/// A client is told that its payment was accepted exactly when the workers have it.
pub proof fn law_accepted_means_enqueued(serialized: bool, enqueued: bool)
    ensures
        intake_status(serialized, enqueued) == ACCEPTED <==> serialized && enqueued,
{
}

/// A client is answered 400 when its payment could not be written down, 500 when it could
/// but the workers do not have it, and 202 when they do.
pub proof fn law_answer_tells_what_happened(serialized: bool, enqueued: bool)
    ensures
        !serialized ==> intake_status(serialized, enqueued) == 400,
        serialized && !enqueued ==> intake_status(serialized, enqueued) == 500,
        serialized && enqueued ==> intake_status(serialized, enqueued) == 202,
{
}

} // verus!
