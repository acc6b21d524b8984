//! A payment as it travels from the queue to a processor.

use crate::clock::{rfc3339_text, to_rfc3339, Timestamp};
use crate::processor::{base_url, law_addresses, Processor, PROCESS_PATH};
use vstd::prelude::*;

verus! {

/// How long a processor may take to answer a payment, in seconds.
pub const PAYMENT_TIMEOUT_SECS: u64 = 2;

/// A payment. The amount is carried through as the bits of its IEEE 754 double.
#[derive(Debug)]
pub struct PaymentRequest {
    pub correlation_id: String,
    pub amount_bits: u64,
}

/// A payment made out to one processor: where it is posted, how long an answer is
/// waited for, and what the posted document holds.
#[derive(Debug)]
pub struct Submission {
    pub url: String,
    pub timeout_secs: u64,
    pub correlation_id: String,
    pub amount_bits: u64,
    pub requested_at: String,
}

/// What a submission holds, with its texts as sequences of characters.
pub struct SubmissionView {
    pub url: Seq<char>,
    pub timeout_secs: u64,
    pub correlation_id: Seq<char>,
    pub amount_bits: u64,
    pub requested_at: Seq<char>,
}

impl View for Submission {
    type V = SubmissionView;

    open spec fn view(&self) -> SubmissionView {
        SubmissionView {
            url: self.url@,
            timeout_secs: self.timeout_secs,
            correlation_id: self.correlation_id@,
            amount_bits: self.amount_bits,
            requested_at: self.requested_at@,
        }
    }
}

/// The submission of `payment` to `processor`, requested at `now`.
pub open spec fn submission_of(
    payment: PaymentRequest,
    processor: Processor,
    now: Timestamp,
) -> SubmissionView {
    SubmissionView {
        url: base_url(processor) + PROCESS_PATH@,
        timeout_secs: PAYMENT_TIMEOUT_SECS,
        correlation_id: payment.correlation_id@,
        amount_bits: payment.amount_bits,
        requested_at: rfc3339_text(now.secs, now.nanos),
    }
}

impl PaymentRequest {
    /// Makes this payment out to `processor`, requested at `now`.
    pub fn submission(&self, processor: &Processor, now: Timestamp) -> (submission: Submission)
        requires
            now.valid(),
        ensures
            submission@ == submission_of(*self, *processor, now),
    {
        Submission {
            url: processor.process_url(),
            timeout_secs: PAYMENT_TIMEOUT_SECS,
            correlation_id: self.correlation_id.clone(),
            amount_bits: self.amount_bits,
            requested_at: to_rfc3339(now),
        }
    }
}

/// A submission holds what its fields hold.
pub proof fn law_submission_shows_its_fields(submission: Submission)
    ensures
        submission@.url == submission.url@,
        submission@.timeout_secs == submission.timeout_secs,
        submission@.correlation_id == submission.correlation_id@,
        submission@.amount_bits == submission.amount_bits,
        submission@.requested_at == submission.requested_at@,
{
}

/// A payment goes out under its own identifier and with its own amount, stamped with the
/// moment at which it is made out, with two seconds for an answer, to the processor that it
/// is made out to.
pub proof fn law_submission_carries_the_payment(
    payment: PaymentRequest,
    processor: Processor,
    now: Timestamp,
)
    ensures
        ({
            let submission = submission_of(payment, processor, now);
            &&& submission.correlation_id == payment.correlation_id@
            &&& submission.amount_bits == payment.amount_bits
            &&& submission.requested_at == rfc3339_text(now.secs, now.nanos)
            &&& submission.timeout_secs == 2
            &&& processor is Default ==> submission.url
                == "http://localhost:8001/payments/process"@
            &&& processor is Fallback ==> submission.url
                == "http://localhost:8002/payments/process"@
        }),
{
    law_addresses(processor);
}

} // verus!
