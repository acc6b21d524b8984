//! One payment, from the queue to a processor.
//!
//! A task takes one payment off the queue, brings the health reports up to date,
//! chooses a processor, and sends the payment there. If that fails it tries the other
//! processor, unless the other's circuit is open. What is known of the processors is
//! shared by many tasks: a task holds it for one step at a time, and other tasks may
//! change it in between.

use crate::circuit::{
    after_events, choose_payment_processor_at, failures_since_success,
    increment_failure_count_at, law_counter_counts_failures_since_success, recordable,
    reset_failure_count, CacheEvent,
};
use crate::clock::{clock_comparable, rfc3339_text, span_fits, utc_now, Timestamp};
use crate::health::{
    check_result, get_processor_health, health_refresh_due_at, update_health_status_at,
    HealthCheckCache, HealthCheckResponse, PaymentProcessorState, CONSECUTIVE_FAILURES_THRESHOLD,
    HEALTH_TIMEOUT_SECS,
};
use crate::http::{answered_successfully, is_success_answer, valid_answer};
use crate::payment::{
    submission_of, PaymentRequest, Submission, SubmissionView, PAYMENT_TIMEOUT_SECS,
};
use crate::processor::{
    base_url, law_addresses, other_processor, Processor, HEALTH_PATH, PROCESS_PATH,
};
use crate::queue::PAYMENT_QUEUE;
use vstd::prelude::*;

verus! {

/// How a task ended.
#[derive(Debug, Clone, Copy, PartialEq, Eq, Structural)]
pub enum Outcome {
    /// No payment could be taken off the queue.
    NotPopped,
    /// What was taken off the queue is not a payment.
    Unreadable,
    /// `processor` took the payment.
    Processed { processor: Processor },
    /// `processor` failed the payment, and the other processor's circuit is open.
    Stranded { processor: Processor },
    /// Both processors failed the payment.
    FailedByBoth,
}

impl Outcome {
    /// Whether the end of the task is an error: there is no payment to speak of.
    pub fn is_error(&self) -> (error: bool)
        ensures
            error == error_outcome(*self),
    {
        match self {
            Outcome::NotPopped => true,
            Outcome::Unreadable => true,
            _ => false,
        }
    }
}

/// Whether a task that ends in `outcome` ends in an error: it never had a payment.
pub open spec fn error_outcome(outcome: Outcome) -> bool {
    outcome is NotPopped || outcome is Unreadable
}

/// How far a task has come: what it is waiting for.
#[derive(Debug)]
pub enum Phase {
    /// An entry of the queue.
    Popping,
    /// The default processor's health report.
    CheckingDefault { payment_data: String },
    /// The fallback processor's health report.
    CheckingFallback { payment_data: String, default_check: Option<HealthCheckResponse> },
    /// The length of the queue.
    Measuring { payment_data: String },
    /// The payment that the entry holds.
    Parsing { processor: Processor },
    /// The answer of the chosen processor.
    Sending { payment: PaymentRequest, processor: Processor },
    /// The answer of the other processor.
    Retrying { processor: Processor },
    /// Nothing: the task has ended.
    Finished { outcome: Outcome },
}

/// What a task is told.
#[derive(Debug)]
pub enum Event {
    /// The queue could not be read.
    PopFailed,
    /// `payment_data` was taken off the queue.
    Popped { payment_data: String },
    /// A health check was answered with the status in `answer`, or with none; `body` is the
    /// report that the answer's body holds, if it was read and holds one.
    Checked { answer: Result<u16, String>, body: Option<HealthCheckResponse> },
    /// The queue's length was asked for; `None` if it could not be learnt.
    Measured { queue_size: Option<usize> },
    /// The entry holds `payment`, or no payment.
    Parsed { payment: Option<PaymentRequest> },
    /// The processor answered the payment with the status in `answer`, or not at all.
    Sent { answer: Result<u16, String> },
}

/// What a task asks for.
#[derive(Debug)]
pub enum Action {
    /// Wait for an entry of `queue`, for as long as it takes.
    Pop { queue: &'static str },
    /// Ask for a health report.
    CheckHealth { url: String, timeout_secs: u64 },
    /// Ask for the length of `queue`.
    MeasureQueue { queue: &'static str },
    /// Read the payment that an entry of the queue holds.
    Parse { payment_data: String },
    /// Send a payment.
    Send { submission: Submission },
    /// Do nothing more.
    Finish { outcome: Outcome },
}

/// An action, with its texts as sequences of characters.
pub enum ActionView {
    Pop { queue: Seq<char> },
    CheckHealth { url: Seq<char>, timeout_secs: u64 },
    MeasureQueue { queue: Seq<char> },
    Parse { payment_data: Seq<char> },
    Send { submission: SubmissionView },
    Finish { outcome: Outcome },
}

impl View for Action {
    type V = ActionView;

    open spec fn view(&self) -> ActionView {
        match *self {
            Action::Pop { queue } => ActionView::Pop { queue: queue@ },
            Action::CheckHealth { url, timeout_secs } => ActionView::CheckHealth {
                url: url@,
                timeout_secs,
            },
            Action::MeasureQueue { queue } => ActionView::MeasureQueue { queue: queue@ },
            Action::Parse { payment_data } => ActionView::Parse { payment_data: payment_data@ },
            Action::Send { submission } => ActionView::Send { submission: submission@ },
            Action::Finish { outcome } => ActionView::Finish { outcome },
        }
    }
}

/// One task.
#[derive(Debug)]
pub struct PaymentTask {
    pub phase: Phase,
}

/// Whether `event` is what a task in `phase` is waiting for.
pub open spec fn awaits(phase: Phase, event: Event) -> bool {
    match phase {
        Phase::Popping => event is PopFailed || event is Popped,
        Phase::CheckingDefault { .. } => event matches Event::Checked { answer, .. }
            && valid_answer(answer),
        Phase::CheckingFallback { .. } => event matches Event::Checked { answer, .. }
            && valid_answer(answer),
        Phase::Measuring { .. } => event is Measured,
        Phase::Parsing { .. } => event is Parsed,
        Phase::Sending { .. } => event matches Event::Sent { answer } && valid_answer(answer),
        Phase::Retrying { .. } => event matches Event::Sent { answer } && valid_answer(answer),
        Phase::Finished { .. } => false,
    }
}

/// Whether `event` calls for the age of the health reports, which must then be a number
/// of seconds.
pub open spec fn report_age_fits(cache: HealthCheckCache, event: Event, now: i64) -> bool {
    event is Popped && cache.default.timestamp > 0 ==> span_fits(now, cache.default.timestamp)
}

/// Whether `event` calls for the time since the default processor's circuit was last
/// looked at, which must then be a number of seconds.
pub open spec fn circuit_age_fits(cache: HealthCheckCache, event: Event, now: i64) -> bool {
    event is Measured && cache.default.circuit_open ==> span_fits(
        now,
        cache.default.last_circuit_check,
    )
}

/// The processor whose answer a task in `phase` is waiting for.
pub open spec fn addressee(phase: Phase) -> Option<Processor> {
    match phase {
        Phase::Sending { processor, .. } => Some(processor),
        Phase::Retrying { processor } => Some(processor),
        _ => None,
    }
}

/// Whether `event` says that a processor took a payment: it answered, and successfully.
pub open spec fn payment_taken(event: Event) -> bool {
    event matches Event::Sent { answer } && answered_successfully(answer)
}

/// Whether `event` says that a processor failed a payment: it answered unsuccessfully, or
/// not at all.
pub open spec fn payment_failed(event: Event) -> bool {
    event matches Event::Sent { answer } && !answered_successfully(answer)
}

/// Whether a failure that `event` reports to a task in `phase` can still be counted.
pub open spec fn failure_countable(phase: Phase, cache: HealthCheckCache, event: Event) -> bool {
    payment_failed(event) ==> (addressee(phase) matches Some(processor)
        ==> cache.state(processor).consecutive_failures < u16::MAX)
}

/// The number of payments that are taken to wait in the queue: none, if their number
/// could not be learnt.
pub open spec fn known_queue_size(queue_size: Option<usize>) -> usize {
    match queue_size {
        Some(size) => size,
        None => 0,
    }
}

/// What is known of the processors after a task in `phase` has been told of `event` at
/// second `now`.
pub open spec fn next_cache(
    phase: Phase,
    cache: HealthCheckCache,
    event: Event,
    now: i64,
) -> HealthCheckCache {
    match (phase, event) {
        (
            Phase::CheckingFallback { default_check, .. },
            Event::Checked { answer, body },
        ) => cache.after_checks(default_check, check_result(answer, body), now),
        (Phase::Measuring { .. }, Event::Measured { .. }) => cache.after_asking(
            Processor::Default,
            now,
        ),
        (_, Event::Sent { .. }) => match addressee(phase) {
            Some(processor) if payment_taken(event) => cache.after_success(processor),
            Some(processor) => cache.after_failure(processor, now),
            None => cache,
        },
        _ => cache,
    }
}

/// The phase of a task that was in `phase` and has been told of `event` at second `now`.
pub open spec fn next_phase(
    phase: Phase,
    cache: HealthCheckCache,
    event: Event,
    now: i64,
) -> Phase {
    match (phase, event) {
        (Phase::Popping, Event::PopFailed) => Phase::Finished { outcome: Outcome::NotPopped },
        (Phase::Popping, Event::Popped { payment_data }) => if cache.refresh_due(now) {
            Phase::CheckingDefault { payment_data }
        } else {
            Phase::Measuring { payment_data }
        },
        (
            Phase::CheckingDefault { payment_data },
            Event::Checked { answer, body },
        ) => Phase::CheckingFallback {
            payment_data,
            default_check: check_result(answer, body),
        },
        (
            Phase::CheckingFallback { payment_data, .. },
            Event::Checked { .. },
        ) => Phase::Measuring { payment_data },
        (Phase::Measuring { .. }, Event::Measured { queue_size }) => Phase::Parsing {
            processor: cache.chosen(known_queue_size(queue_size), now),
        },
        (Phase::Parsing { processor }, Event::Parsed { payment }) => match payment {
            Some(payment) => Phase::Sending { payment, processor },
            None => Phase::Finished { outcome: Outcome::Unreadable },
        },
        (Phase::Sending { processor, .. }, Event::Sent { .. }) => if payment_taken(event) {
            Phase::Finished { outcome: Outcome::Processed { processor } }
        } else if cache.state(other_processor(processor)).circuit_open {
            Phase::Finished { outcome: Outcome::Stranded { processor } }
        } else {
            Phase::Retrying { processor: other_processor(processor) }
        },
        (Phase::Retrying { processor }, Event::Sent { .. }) => Phase::Finished {
            outcome: if payment_taken(event) {
                Outcome::Processed { processor }
            } else {
                Outcome::FailedByBoth
            },
        },
        _ => phase,
    }
}

/// What a task asks for as it passes from `phase` to `next` at `now`. A task that turns to
/// the other processor sends the payment that the first one failed.
pub open spec fn next_action(phase: Phase, next: Phase, now: Timestamp) -> ActionView {
    match next {
        Phase::Popping => ActionView::Pop { queue: PAYMENT_QUEUE@ },
        Phase::CheckingDefault { .. } => ActionView::CheckHealth {
            url: base_url(Processor::Default) + HEALTH_PATH@,
            timeout_secs: HEALTH_TIMEOUT_SECS,
        },
        Phase::CheckingFallback { .. } => ActionView::CheckHealth {
            url: base_url(Processor::Fallback) + HEALTH_PATH@,
            timeout_secs: HEALTH_TIMEOUT_SECS,
        },
        Phase::Measuring { .. } => ActionView::MeasureQueue { queue: PAYMENT_QUEUE@ },
        Phase::Parsing { .. } => ActionView::Parse {
            payment_data: phase->Measuring_payment_data@,
        },
        Phase::Sending { payment, processor } => ActionView::Send {
            submission: submission_of(payment, processor, now),
        },
        Phase::Retrying { processor } => ActionView::Send {
            submission: submission_of(phase->Sending_payment, processor, now),
        },
        Phase::Finished { outcome } => ActionView::Finish { outcome },
    }
}

impl PaymentTask {
    /// A task that asks for a payment from the queue.
    pub fn start() -> (step: (PaymentTask, Action))
        ensures
            step.0.phase == Phase::Popping,
            step.1@ == (ActionView::Pop { queue: PAYMENT_QUEUE@ }),
    {
        (PaymentTask { phase: Phase::Popping }, Action::Pop { queue: PAYMENT_QUEUE })
    }

    /// Tells the task of `event` at `now`, and has it ask for what it needs next.
    pub fn process_payment_at(
        self,
        cache: &mut HealthCheckCache,
        event: Event,
        now: Timestamp,
    ) -> (step: (PaymentTask, Action))
        requires
            awaits(self.phase, event),
            now.valid(),
            report_age_fits(*old(cache), event, now.secs),
            circuit_age_fits(*old(cache), event, now.secs),
            failure_countable(self.phase, *old(cache), event),
        ensures
            step.0.phase == next_phase(self.phase, *old(cache), event, now.secs),
            step.1@ == next_action(self.phase, step.0.phase, now),
            *final(cache) == next_cache(self.phase, *old(cache), event, now.secs),
            old(cache).wf() ==> final(cache).wf(),
    {
        let (phase, action) = match (self.phase, event) {
            (Phase::Popping, Event::Popped { payment_data }) => {
                if health_refresh_due_at(cache, now.secs) {
                    let url = Processor::Default.health_url();
                    (
                        Phase::CheckingDefault { payment_data },
                        Action::CheckHealth { url, timeout_secs: HEALTH_TIMEOUT_SECS },
                    )
                } else {
                    (
                        Phase::Measuring { payment_data },
                        Action::MeasureQueue { queue: PAYMENT_QUEUE },
                    )
                }
            },
            (Phase::CheckingDefault { payment_data }, Event::Checked { answer, body }) => {
                let default_check = get_processor_health(&answer, body);
                let url = Processor::Fallback.health_url();
                (
                    Phase::CheckingFallback { payment_data, default_check },
                    Action::CheckHealth { url, timeout_secs: HEALTH_TIMEOUT_SECS },
                )
            },
            (
                Phase::CheckingFallback { payment_data, default_check },
                Event::Checked { answer, body },
            ) => {
                let check = get_processor_health(&answer, body);
                update_health_status_at(cache, default_check, check, now.secs);
                (
                    Phase::Measuring { payment_data },
                    Action::MeasureQueue { queue: PAYMENT_QUEUE },
                )
            },
            (Phase::Measuring { payment_data }, Event::Measured { queue_size }) => {
                let queue_size: usize = queue_size.unwrap_or(0);
                let processor = choose_payment_processor_at(cache, queue_size, now.secs);
                (Phase::Parsing { processor }, Action::Parse { payment_data })
            },
            (Phase::Parsing { processor }, Event::Parsed { payment: Some(payment) }) => {
                let submission = payment.submission(&processor, now);
                (Phase::Sending { payment, processor }, Action::Send { submission })
            },
            (Phase::Sending { payment, processor }, Event::Sent { answer }) => {
                if is_success_answer(&answer) {
                    reset_failure_count(cache, &processor);
                    Self::finish(Outcome::Processed { processor })
                } else {
                    increment_failure_count_at(cache, &processor, now.secs);
                    let other = processor.other();
                    if !cache.get_state(&other).circuit_open {
                        let submission = payment.submission(&other, now);
                        (Phase::Retrying { processor: other }, Action::Send { submission })
                    } else {
                        Self::finish(Outcome::Stranded { processor })
                    }
                }
            },
            (Phase::Retrying { processor }, Event::Sent { answer }) => {
                if is_success_answer(&answer) {
                    reset_failure_count(cache, &processor);
                    Self::finish(Outcome::Processed { processor })
                } else {
                    increment_failure_count_at(cache, &processor, now.secs);
                    Self::finish(Outcome::FailedByBoth)
                }
            },
            (Phase::Parsing { .. }, _) => Self::finish(Outcome::Unreadable),
            _ => Self::finish(Outcome::NotPopped),
        };
        (PaymentTask { phase }, action)
    }

    /// The end of a task.
    fn finish(outcome: Outcome) -> (step: (Phase, Action))
        ensures
            step.0 == (Phase::Finished { outcome }),
            step.1@ == (ActionView::Finish { outcome }),
    {
        (Phase::Finished { outcome }, Action::Finish { outcome })
    }

    /// Tells the task of `event` now, and has it ask for what it needs next.
    pub fn process_payment(
        self,
        cache: &mut HealthCheckCache,
        event: Event,
    ) -> (step: (PaymentTask, Action))
        requires
            awaits(self.phase, event),
            event is Measured && old(cache).default.circuit_open ==> clock_comparable(
                old(cache).default.last_circuit_check,
            ),
            failure_countable(self.phase, *old(cache), event),
        ensures
            exists|now: Timestamp| #[trigger]
                now.valid() && {
                    &&& step.0.phase == next_phase(self.phase, *old(cache), event, now.secs)
                    &&& step.1@ == next_action(self.phase, step.0.phase, now)
                    &&& *final(cache) == next_cache(self.phase, *old(cache), event, now.secs)
                },
            old(cache).wf() ==> final(cache).wf(),
    {
        let now = utc_now();
        assert(now.valid());
        self.process_payment_at(cache, event, now)
    }
}

/// One step of a task: what was known of the processors, what it was told, and when.
pub struct Step {
    pub cache: HealthCheckCache,
    pub event: Event,
    pub now: Timestamp,
}

/// The phase of a task after `steps`.
pub open spec fn phase_after(steps: Seq<Step>) -> Phase
    decreases steps.len(),
{
    if steps.len() == 0 {
        Phase::Popping
    } else {
        let step = steps.last();
        next_phase(phase_after(steps.drop_last()), step.cache, step.event, step.now.secs)
    }
}

/// Whether each of `steps` tells the task of something that it is waiting for.
pub open spec fn orderly(steps: Seq<Step>) -> bool
    decreases steps.len(),
{
    steps.len() > 0 ==> {
        &&& orderly(steps.drop_last())
        &&& awaits(phase_after(steps.drop_last()), steps.last().event)
    }
}

/// The submissions that a task asks to have sent in `steps`, in their order.
pub open spec fn sends(steps: Seq<Step>) -> Seq<SubmissionView>
    decreases steps.len(),
{
    if steps.len() == 0 {
        Seq::empty()
    } else {
        let before = sends(steps.drop_last());
        let action = next_action(
            phase_after(steps.drop_last()),
            phase_after(steps),
            steps.last().now,
        );
        match action {
            ActionView::Send { submission } => before.push(submission),
            _ => before,
        }
    }
}

/// Whether `submission` sends `payment` to `processor`, and says that this was requested at
/// `asked`.
pub open spec fn made_out(
    submission: SubmissionView,
    payment: PaymentRequest,
    processor: Processor,
    asked: Timestamp,
) -> bool {
    &&& submission.url == base_url(processor) + PROCESS_PATH@
    &&& submission.timeout_secs == PAYMENT_TIMEOUT_SECS
    &&& submission.correlation_id == payment.correlation_id@
    &&& submission.amount_bits == payment.amount_bits
    &&& submission.requested_at == rfc3339_text(asked.secs, asked.nanos)
}

/// How many steps a task in `phase` can still take.
pub open spec fn steps_left(phase: Phase) -> nat {
    match phase {
        Phase::Popping => 7,
        Phase::CheckingDefault { .. } => 6,
        Phase::CheckingFallback { .. } => 5,
        Phase::Measuring { .. } => 4,
        Phase::Parsing { .. } => 3,
        Phase::Sending { .. } => 2,
        Phase::Retrying { .. } => 1,
        Phase::Finished { .. } => 0,
    }
}

/// A task ends: each step that it takes brings it closer to its end, so that it takes
/// seven at the most, and it waits for something until it has ended.
pub proof fn law_task_ends(steps: Seq<Step>)
    requires
        orderly(steps),
    ensures
        steps.len() + steps_left(phase_after(steps)) <= 7,
        phase_after(steps) is Finished <==> (forall|event: Event| !#[trigger] awaits(
            phase_after(steps),
            event,
        )),
    decreases steps.len(),
{
    if steps.len() > 0 {
        law_task_ends(steps.drop_last());
    }
    let phase = phase_after(steps);
    assert(phase is Popping ==> awaits(phase, Event::PopFailed));
    assert(phase is CheckingDefault || phase is CheckingFallback ==> awaits(
        phase,
        Event::Checked { answer: Ok(200), body: None },
    ));
    assert(phase is Measuring ==> awaits(phase, Event::Measured { queue_size: None }));
    assert(phase is Parsing ==> awaits(phase, Event::Parsed { payment: None }));
    assert(phase is Sending || phase is Retrying ==> awaits(
        phase,
        Event::Sent { answer: Ok(200) },
    ));
}

/// The payment that a task was told of in `steps`, if it was told of one.
pub open spec fn task_payment(steps: Seq<Step>) -> Option<PaymentRequest>
    decreases steps.len(),
{
    if steps.len() == 0 {
        None
    } else {
        match steps.last().event {
            Event::Parsed { payment } => payment,
            _ => task_payment(steps.drop_last()),
        }
    }
}

/// The processor that a task chose in `steps`, if it has chosen one: what is known of the
/// processors decides when the task learns the length of the queue.
pub open spec fn task_choice(steps: Seq<Step>) -> Option<Processor>
    decreases steps.len(),
{
    if steps.len() == 0 {
        None
    } else {
        let step = steps.last();
        match step.event {
            Event::Measured { queue_size } => Some(
                step.cache.chosen(known_queue_size(queue_size), step.now.secs),
            ),
            _ => task_choice(steps.drop_last()),
        }
    }
}

/// Whether the last of `steps` tells the task that the processor that it chose failed its
/// payment, while the other processor's circuit is closed.
pub open spec fn turns_to_other(steps: Seq<Step>) -> bool {
    &&& steps.len() > 1
    &&& steps.drop_last().last().event is Parsed
    &&& steps.last().event matches Event::Sent { answer }
    &&& !(answer matches Ok(status) && 200 <= status <= 299)
    &&& !steps.last().cache.state(other_processor(task_choice(steps)->Some_0)).circuit_open
}

/// The moments in `steps` at which a payment is to be sent: when the task is told of its
/// payment, and when it turns to the other processor.
pub open spec fn moments_of_sending(steps: Seq<Step>) -> Seq<Timestamp>
    decreases steps.len(),
{
    if steps.len() == 0 {
        Seq::empty()
    } else {
        let before = moments_of_sending(steps.drop_last());
        let told = steps.last().event matches Event::Parsed { payment } && payment is Some;
        if told || turns_to_other(steps) {
            before.push(steps.last().now)
        } else {
            before
        }
    }
}

/// Whether `phase` holds the payment `payment` that the task was told of and the processor
/// `choice` that it chose, as far as it has come.
pub open spec fn phase_remembers(
    phase: Phase,
    payment: Option<PaymentRequest>,
    choice: Option<Processor>,
) -> bool {
    match phase {
        Phase::Parsing { processor } => choice == Some(processor),
        Phase::Sending { payment: held, processor } => payment == Some(held) && choice == Some(
            processor,
        ),
        Phase::Retrying { processor } => payment is Some && choice == Some(
            other_processor(processor),
        ),
        _ => true,
    }
}

/// Whether a task that chose `choice` and is in `phase` has sent `count` times.
pub open spec fn sends_so_far(phase: Phase, choice: Option<Processor>, count: nat) -> bool {
    match phase {
        Phase::Sending { .. } => count == 1,
        Phase::Retrying { .. } => count == 2,
        Phase::Finished { outcome } => match outcome {
            Outcome::NotPopped => count == 0,
            Outcome::Unreadable => count == 0,
            Outcome::Processed { processor } => {
                ||| count == 1 && choice == Some(processor)
                ||| count == 2 && choice == Some(other_processor(processor))
            },
            Outcome::Stranded { processor } => count == 1 && choice == Some(processor),
            Outcome::FailedByBoth => count == 2,
        },
        _ => count == 0,
    }
}

/// A task sends nothing but the payment that it was told of: first to the processor that it
/// chose, then, if at all, to the other one. Each time it says when it was asked for: the
/// retry is stamped with the moment of the retry, not with that of the first try. How often
/// it has sent follows from how far it has come: a task that ends with the payment processed
/// sent it last to the processor that took it, one that ends stranded sent it once, and one
/// that was failed by both sent it to both.
pub proof fn law_payment_goes_to_each_processor_once(steps: Seq<Step>)
    requires
        orderly(steps),
    ensures
        ({
            let sent = sends(steps);
            let payment = task_payment(steps);
            let choice = task_choice(steps);
            let moments = moments_of_sending(steps);
            &&& sent.len() <= 2
            &&& sent.len() == moments.len()
            &&& sent.len() > 0 ==> payment is Some && choice is Some
            &&& sent.len() > 0 ==> made_out(
                sent[0],
                payment->Some_0,
                choice->Some_0,
                moments[0],
            )
            &&& sent.len() > 1 ==> made_out(
                sent[1],
                payment->Some_0,
                other_processor(choice->Some_0),
                moments[1],
            )
            &&& sends_so_far(phase_after(steps), choice, sent.len())
            &&& phase_remembers(phase_after(steps), payment, choice)
        }),
    decreases steps.len(),
{
    if steps.len() > 0 {
        let before = steps.drop_last();
        law_payment_goes_to_each_processor_once(before);
        if before.len() > 0 {
            reveal_with_fuel(orderly, 2);
            assert(phase_after(before) is Sending <==> before.last().event is Parsed
                && phase_after(before) !is Finished);
        }
    }
}

/// Every submission, the retry included, is stamped with the reading of the clock at the
/// step at which it is asked for.
pub proof fn law_every_send_is_stamped(steps: Seq<Step>, i: int)
    requires
        orderly(steps),
        0 <= i < sends(steps).len(),
    ensures
        sends(steps).len() == moments_of_sending(steps).len(),
        sends(steps)[i].requested_at == rfc3339_text(
            moments_of_sending(steps)[i].secs,
            moments_of_sending(steps)[i].nanos,
        ),
        sends(steps.drop_last()).len() < sends(steps).len() ==> sends(steps).last().requested_at
            == rfc3339_text(steps.last().now.secs, steps.last().now.nanos),
{
    law_payment_goes_to_each_processor_once(steps);
    if steps.len() > 0 {
        law_payment_goes_to_each_processor_once(steps.drop_last());
    }
}

/// A task ends in an error exactly when the last thing that it is told is that nothing could
/// be taken off the queue, or that what was taken holds no payment. It has then sent nothing.
pub proof fn law_error_means_no_payment(steps: Seq<Step>)
    requires
        orderly(steps),
        steps.len() > 0,
    ensures
        (phase_after(steps) matches Phase::Finished { outcome } && error_outcome(outcome)) <==> (
        steps.last().event is PopFailed || steps.last().event == (Event::Parsed { payment: None })),
        (phase_after(steps) matches Phase::Finished { outcome } && error_outcome(outcome))
            ==> sends(steps).len() == 0,
{
    law_payment_goes_to_each_processor_once(steps);
}

/// A task ends with its payment processed exactly when the last thing that it is told is
/// that a processor took the payment. That processor then has no failures in a row, and
/// its circuit is closed.
pub proof fn law_processed_means_delivered(steps: Seq<Step>)
    requires
        orderly(steps),
        steps.len() > 0,
    ensures
        ({
            let last = steps.last();
            let before = phase_after(steps.drop_last());
            let after = next_cache(before, last.cache, last.event, last.now.secs);
            &&& payment_taken(last.event) <==> exists|processor: Processor|
                phase_after(steps) == (#[trigger] processed_by(processor))
            &&& forall|processor: Processor|
                phase_after(steps) == (#[trigger] processed_by(processor)) ==> {
                    &&& after.state(processor).consecutive_failures == 0
                    &&& !after.state(processor).circuit_open
                }
        }),
{
    let last = steps.last();
    let before = phase_after(steps.drop_last());
    if payment_taken(last.event) {
        let processor = addressee(before)->Some_0;
        assert(phase_after(steps) == processed_by(processor));
    }
}

/// The end of a task whose payment `processor` took.
pub open spec fn processed_by(processor: Processor) -> Phase {
    Phase::Finished { outcome: Outcome::Processed { processor } }
}

/// The other processor is tried exactly when the chosen one failed and the other's circuit
/// is closed. The failure is counted against the processor that failed, and against no
/// other.
pub proof fn law_retry_needs_closed_circuit(
    payment: PaymentRequest,
    processor: Processor,
    cache: HealthCheckCache,
    answer: Result<u16, String>,
    now: i64,
)
    ensures
        ({
            let phase = Phase::Sending { payment, processor };
            let event = Event::Sent { answer };
            let other = other_processor(processor);
            let after = next_cache(phase, cache, event, now);
            &&& next_phase(phase, cache, event, now) is Retrying <==> !answered_successfully(answer)
                && !cache.state(other).circuit_open
            &&& !answered_successfully(answer) ==> after.state(processor) == cache.state(
                processor,
            ).after_failure(now)
            &&& after.state(other) == cache.state(other)
        }),
{
}

/// No answer is a failure: a payment that a processor does not answer is counted against
/// it, like one that it refuses, and a health check that a processor does not answer brings
/// no report, whatever `error` kept the answer away.
pub proof fn law_no_answer_is_a_failure(
    phase: Phase,
    processor: Processor,
    cache: HealthCheckCache,
    error: String,
    body: Option<HealthCheckResponse>,
    now: i64,
)
    requires
        addressee(phase) == Some(processor),
    ensures
        ({
            let event = Event::Sent { answer: Err(error) };
            &&& next_cache(phase, cache, event, now) == cache.after_failure(processor, now)
            &&& next_phase(phase, cache, event, now) != processed_by(processor)
        }),
        check_result(Err(error), body) is None,
{
}

/// What a task in `phase` that is told of `event` at second `now` adds to the history of
/// the processors.
pub open spec fn recorded(phase: Phase, event: Event, now: i64) -> Seq<CacheEvent> {
    match (phase, event) {
        (Phase::CheckingFallback { default_check, .. }, Event::Checked { answer, body }) => seq![
            CacheEvent::Checked {
                default_check,
                fallback_check: check_result(answer, body),
                now,
            },
        ],
        (Phase::Measuring { .. }, Event::Measured { .. }) => seq![
            CacheEvent::Asked { processor: Processor::Default, now },
        ],
        (_, Event::Sent { .. }) => match addressee(phase) {
            Some(processor) if payment_taken(event) => seq![CacheEvent::Succeeded { processor }],
            Some(processor) => seq![CacheEvent::Failed { processor, now }],
            None => seq![],
        },
        _ => seq![],
    }
}

/// One step of one of many tasks: how far that task had come, what it was told, and when.
pub struct SharedStep {
    pub phase: Phase,
    pub event: Event,
    pub now: i64,
}

/// What is known of the processors after the steps of many tasks, in any order.
pub open spec fn shared_cache(cache: HealthCheckCache, steps: Seq<SharedStep>) -> HealthCheckCache
    decreases steps.len(),
{
    if steps.len() == 0 {
        cache
    } else {
        let step = steps.last();
        next_cache(step.phase, shared_cache(cache, steps.drop_last()), step.event, step.now)
    }
}

/// What the steps of many tasks add to the history of the processors.
pub open spec fn shared_history(steps: Seq<SharedStep>) -> Seq<CacheEvent>
    decreases steps.len(),
{
    if steps.len() == 0 {
        seq![]
    } else {
        let step = steps.last();
        shared_history(steps.drop_last()) + recorded(step.phase, step.event, step.now)
    }
}

/// However the steps of many tasks are interleaved, what is known of the processors is
/// what follows from their history, so that whatever holds of every history of the
/// processors holds of every run of the tasks.
pub proof fn law_interleaved_tasks_make_a_history(
    cache: HealthCheckCache,
    steps: Seq<SharedStep>,
)
    ensures
        shared_cache(cache, steps) == after_events(cache, shared_history(steps)),
    decreases steps.len(),
{
    if steps.len() > 0 {
        let step = steps.last();
        let before = shared_history(steps.drop_last());
        let added = recorded(step.phase, step.event, step.now);
        law_interleaved_tasks_make_a_history(cache, steps.drop_last());
        if added.len() == 0 {
            assert(before + added =~= before);
        } else {
            assert((before + added).drop_last() =~= before);
            assert((before + added).last() == added[0]);
        }
    }
}

/// However the steps of many tasks are interleaved, a processor's counter says how many
/// times it has failed since it last succeeded, whichever tasks those were, and its
/// circuit is open exactly when that count has reached the threshold.
pub proof fn law_tasks_share_one_count(
    cache: HealthCheckCache,
    steps: Seq<SharedStep>,
    processor: Processor,
)
    requires
        cache.default == PaymentProcessorState::unknown(),
        cache.fallback == PaymentProcessorState::unknown(),
        recordable(shared_history(steps)),
    ensures
        ({
            let after = shared_cache(cache, steps);
            let failures = failures_since_success(shared_history(steps), processor);
            &&& after.wf()
            &&& after.state(processor).consecutive_failures == failures
            &&& after.state(processor).circuit_open <==> failures >= CONSECUTIVE_FAILURES_THRESHOLD
        }),
{
    law_interleaved_tasks_make_a_history(cache, steps);
    law_counter_counts_failures_since_success(cache, shared_history(steps), processor);
}

/// A task that cannot read the queue ends. One that took an entry off it keeps the entry, and
/// asks both processors for their health first unless the default processor reported less
/// than five seconds ago. Neither changes what is known of the processors.
pub proof fn law_told_of_an_entry(cache: HealthCheckCache, payment_data: String, now: i64)
    ensures
        ({
            let popped = Event::Popped { payment_data };
            let recent = cache.default.timestamp > 0 && now - cache.default.timestamp < 5;
            &&& next_phase(Phase::Popping, cache, Event::PopFailed, now) == (Phase::Finished {
                outcome: Outcome::NotPopped,
            })
            &&& next_cache(Phase::Popping, cache, Event::PopFailed, now) == cache
            &&& recent ==> next_phase(Phase::Popping, cache, popped, now) == (Phase::Measuring {
                payment_data,
            })
            &&& !recent ==> next_phase(Phase::Popping, cache, popped, now) == (
            Phase::CheckingDefault { payment_data })
            &&& next_cache(Phase::Popping, cache, popped, now) == cache
        }),
{
}

/// The first health check of a task is the default processor's and the second the fallback
/// processor's. A check answered with a status from 200 to 299 brings the report in its body,
/// any other brings none. Both are stored together when the second has ended, each as its
/// processor's latest report, and circuits are left alone.
pub proof fn law_told_of_health(
    cache: HealthCheckCache,
    payment_data: String,
    default_check: Option<HealthCheckResponse>,
    answer: Result<u16, String>,
    body: Option<HealthCheckResponse>,
    now: i64,
)
    ensures
        ({
            let event = Event::Checked { answer, body };
            let success = answer matches Ok(status) && 200 <= status <= 299;
            let brought = if success {
                body
            } else {
                None
            };
            let first = Phase::CheckingDefault { payment_data };
            let second = Phase::CheckingFallback { payment_data, default_check };
            let after = next_cache(second, cache, event, now);
            &&& next_phase(first, cache, event, now) == (Phase::CheckingFallback {
                payment_data,
                default_check: brought,
            })
            &&& next_cache(first, cache, event, now) == cache
            &&& next_phase(second, cache, event, now) == (Phase::Measuring { payment_data })
            &&& default_check is None ==> after.default == cache.default
            &&& default_check matches Some(report) ==> after.default == (PaymentProcessorState {
                failing: report.failing,
                min_response_time: report.min_response_time,
                timestamp: now,
                ..cache.default
            })
            &&& brought is None ==> after.fallback == cache.fallback
            &&& brought matches Some(report) ==> after.fallback == (PaymentProcessorState {
                failing: report.failing,
                min_response_time: report.min_response_time,
                timestamp: now,
                ..cache.fallback
            })
        }),
{
}

/// A task that learns the length of the queue chooses the default processor when its circuit
/// is open and has been left alone for more than thirty seconds, or is closed and the
/// processor neither reports failing nor is slower than a second while more than thirty
/// payments wait. A queue of unknown length counts as empty. Nothing changes but the moment
/// at which an open circuit was last looked at.
pub proof fn law_told_of_the_queue(
    cache: HealthCheckCache,
    payment_data: String,
    queue_size: Option<usize>,
    now: i64,
)
    ensures
        ({
            let phase = Phase::Measuring { payment_data };
            let event = Event::Measured { queue_size };
            let next = next_phase(phase, cache, event, now);
            let after = next_cache(phase, cache, event, now);
            let tested = cache.default.circuit_open && now - cache.default.last_circuit_check > 30;
            let waiting_many = queue_size matches Some(size) && size > 30;
            let fit = !cache.default.circuit_open && !cache.default.failing && !(waiting_many
                && cache.default.min_response_time > 1000);
            &&& tested || fit ==> next == (Phase::Parsing { processor: Processor::Default })
            &&& !tested && !fit ==> next == (Phase::Parsing { processor: Processor::Fallback })
            &&& after.fallback == cache.fallback
            &&& !tested ==> after.default == cache.default
            &&& tested ==> after.default == (PaymentProcessorState {
                last_circuit_check: now,
                ..cache.default
            })
        }),
{
}

/// A task that is told of its payment sends it to the processor that it chose, and one that
/// is told that there is none ends. Neither changes what is known of the processors.
pub proof fn law_told_of_the_payment(
    cache: HealthCheckCache,
    processor: Processor,
    payment: PaymentRequest,
    now: i64,
)
    ensures
        ({
            let phase = Phase::Parsing { processor };
            let readable = Event::Parsed { payment: Some(payment) };
            let unreadable = Event::Parsed { payment: None };
            &&& next_phase(phase, cache, readable, now) == (Phase::Sending { payment, processor })
            &&& next_phase(phase, cache, unreadable, now) == (Phase::Finished {
                outcome: Outcome::Unreadable,
            })
            &&& next_cache(phase, cache, readable, now) == cache
            &&& next_cache(phase, cache, unreadable, now) == cache
        }),
{
}

/// A payment answered with a status from 200 to 299 is processed, and clears the failures of
/// the processor that took it. Any other answer, or none, counts one failure against the
/// processor that it was sent to, which from the third in a row on has its circuit opened at
/// that moment. After the first such answer the task turns to the other processor if that
/// one's circuit is closed, and ends stranded if it is open; after the second it ends. What is
/// known of the processor that was not asked never changes.
pub proof fn law_told_of_an_answer(
    cache: HealthCheckCache,
    payment: PaymentRequest,
    processor: Processor,
    answer: Result<u16, String>,
    now: i64,
)
    requires
        cache.state(processor).consecutive_failures < u16::MAX,
    ensures
        ({
            let first = Phase::Sending { payment, processor };
            let second = Phase::Retrying { processor };
            let event = Event::Sent { answer };
            let taken = answer matches Ok(status) && 200 <= status <= 299;
            let other = other_processor(processor);
            let before = cache.state(processor);
            let after = next_cache(first, cache, event, now).state(processor);
            &&& next_cache(second, cache, event, now) == next_cache(first, cache, event, now)
            &&& next_cache(first, cache, event, now).state(other) == cache.state(other)
            &&& taken ==> {
                &&& next_phase(first, cache, event, now) == (Phase::Finished {
                    outcome: Outcome::Processed { processor },
                })
                &&& next_phase(second, cache, event, now) == (Phase::Finished {
                    outcome: Outcome::Processed { processor },
                })
                &&& after == (PaymentProcessorState {
                    consecutive_failures: 0,
                    circuit_open: false,
                    ..before
                })
            }
            &&& !taken ==> {
                &&& cache.state(other).circuit_open ==> next_phase(first, cache, event, now) == (
                Phase::Finished { outcome: Outcome::Stranded { processor } })
                &&& !cache.state(other).circuit_open ==> next_phase(first, cache, event, now) == (
                Phase::Retrying { processor: other })
                &&& next_phase(second, cache, event, now) == (Phase::Finished {
                    outcome: Outcome::FailedByBoth,
                })
                &&& after.consecutive_failures == before.consecutive_failures + 1
                &&& before.consecutive_failures >= 2 ==> after.circuit_open
                    && after.last_circuit_check == now
                &&& before.consecutive_failures < 2 ==> after.circuit_open == before.circuit_open
                    && after.last_circuit_check == before.last_circuit_check
                &&& after.failing == before.failing
                &&& after.min_response_time == before.min_response_time
                &&& after.timestamp == before.timestamp
            }
        }),
{
}

/// A task that learns the length of the queue asks to have read the very entry that it took
/// off the queue.
pub proof fn law_entry_that_was_taken_is_read(steps: Seq<Step>)
    requires
        orderly(steps),
        steps.len() > 0,
        steps.last().event is Measured,
    ensures
        steps[0].event is Popped,
        next_action(
            phase_after(steps.drop_last()),
            phase_after(steps),
            steps.last().now,
        ) == (ActionView::Parse { payment_data: steps[0].event->Popped_payment_data@ }),
{
    lemma_entry_is_kept(steps.drop_last());
    if steps.len() == 1 {
        assert(steps.drop_last().len() == 0);
    } else {
        assert(steps.drop_last()[0] == steps[0]);
    }
}

/// A task that waits for health reports or for the length of the queue holds the entry that
/// it took off the queue.
proof fn lemma_entry_is_kept(steps: Seq<Step>)
    requires
        orderly(steps),
    ensures
        phase_after(steps) matches Phase::CheckingDefault { payment_data } ==> steps.len() > 0
            && steps[0].event == (Event::Popped { payment_data }),
        phase_after(steps) matches Phase::CheckingFallback { payment_data, .. } ==> steps.len() > 0
            && steps[0].event == (Event::Popped { payment_data }),
        phase_after(steps) matches Phase::Measuring { payment_data } ==> steps.len() > 0
            && steps[0].event == (Event::Popped { payment_data }),
        phase_after(steps) is Popping <==> steps.len() == 0,
    decreases steps.len(),
{
    if steps.len() > 0 {
        let before = steps.drop_last();
        lemma_entry_is_kept(before);
        if before.len() > 0 {
            assert(before[0] == steps[0]);
        } else {
            assert(steps.last() == steps[0]);
        }
    }
}

/// What a task asks for tells how far it has come: it asks the default processor for its
/// health, then the fallback processor, each with five seconds for an answer; it measures the
/// queue that it takes payments from; it sends its payment to the processor whose answer it
/// then waits for, stamped with the present moment; and it says how it ended.
pub proof fn law_actions_follow_phases(
    phase: Phase,
    payment_data: String,
    default_check: Option<HealthCheckResponse>,
    payment: PaymentRequest,
    first: Processor,
    processor: Processor,
    outcome: Outcome,
    now: Timestamp,
)
    ensures
        next_action(phase, Phase::CheckingDefault { payment_data }, now) == (
        ActionView::CheckHealth {
            url: "http://localhost:8001/payments/service-health"@,
            timeout_secs: 5,
        }),
        next_action(phase, Phase::CheckingFallback { payment_data, default_check }, now) == (
        ActionView::CheckHealth {
            url: "http://localhost:8002/payments/service-health"@,
            timeout_secs: 5,
        }),
        next_action(phase, Phase::Measuring { payment_data }, now) == (ActionView::MeasureQueue {
            queue: "payment_queue"@,
        }),
        next_action(Phase::Measuring { payment_data }, Phase::Parsing { processor }, now) == (
        ActionView::Parse { payment_data: payment_data@ }),
        next_action(phase, Phase::Finished { outcome }, now) == (ActionView::Finish { outcome }),
        ({
            let sent = next_action(phase, Phase::Sending { payment, processor }, now);
            let retried = next_action(
                Phase::Sending { payment, processor: first },
                Phase::Retrying { processor },
                now,
            );
            &&& retried == sent
            &&& sent matches ActionView::Send { submission } && {
                &&& submission.correlation_id == payment.correlation_id@
                &&& submission.amount_bits == payment.amount_bits
                &&& submission.requested_at == rfc3339_text(now.secs, now.nanos)
                &&& submission.timeout_secs == 2
                &&& processor is Default ==> submission.url
                    == "http://localhost:8001/payments/process"@
                &&& processor is Fallback ==> submission.url
                    == "http://localhost:8002/payments/process"@
            }
        }),
{
    law_addresses(Processor::Default);
    law_addresses(Processor::Fallback);
}

/// An action shows what its fields hold.
pub proof fn law_action_shows_its_fields(
    queue: &'static str,
    url: String,
    timeout_secs: u64,
    payment_data: String,
    submission: Submission,
    outcome: Outcome,
)
    ensures
        (Action::Pop { queue })@ == (ActionView::Pop { queue: queue@ }),
        (Action::CheckHealth { url, timeout_secs })@ == (ActionView::CheckHealth {
            url: url@,
            timeout_secs,
        }),
        (Action::MeasureQueue { queue })@ == (ActionView::MeasureQueue { queue: queue@ }),
        (Action::Parse { payment_data })@ == (ActionView::Parse { payment_data: payment_data@ }),
        (Action::Send { submission })@ == (ActionView::Send { submission: submission@ }),
        (Action::Finish { outcome })@ == (ActionView::Finish { outcome }),
{
}

/// A task can be told of whatever its last action can bring: any entry or none, any HTTP
/// status or no answer, any length of the queue, any payment or none.
pub proof fn law_task_takes_every_event(
    payment_data: String,
    default_check: Option<HealthCheckResponse>,
    payment: PaymentRequest,
    processor: Processor,
    answer: Result<u16, String>,
    body: Option<HealthCheckResponse>,
    queue_size: Option<usize>,
    parsed: Option<PaymentRequest>,
)
    requires
        answer matches Ok(status) ==> 100 <= status <= 999,
    ensures
        awaits(Phase::Popping, Event::PopFailed),
        awaits(Phase::Popping, Event::Popped { payment_data }),
        awaits(Phase::CheckingDefault { payment_data }, Event::Checked { answer, body }),
        awaits(
            Phase::CheckingFallback { payment_data, default_check },
            Event::Checked { answer, body },
        ),
        awaits(Phase::Measuring { payment_data }, Event::Measured { queue_size }),
        awaits(Phase::Parsing { processor }, Event::Parsed { payment: parsed }),
        awaits(Phase::Sending { payment, processor }, Event::Sent { answer }),
        awaits(Phase::Retrying { processor }, Event::Sent { answer }),
{
}

/// Only a full counter keeps a failure from being counted: nothing else that a task may be
/// told of, at a valid reading of the clock and with a well-formed cache, is ruled out.
pub proof fn law_only_a_full_counter_stops_a_task(
    phase: Phase,
    cache: HealthCheckCache,
    event: Event,
    now: Timestamp,
)
    requires
        cache.wf(),
        now.valid(),
    ensures
        report_age_fits(cache, event, now.secs),
        circuit_age_fits(cache, event, now.secs),
        !failure_countable(phase, cache, event) ==> {
            &&& event matches Event::Sent { answer } && !(answer matches Ok(status) && 200 <= status
                <= 299)
            &&& {
                ||| phase matches Phase::Sending { processor, .. } && cache.state(
                    processor,
                ).consecutive_failures == 65_535
                ||| phase matches Phase::Retrying { processor } && cache.state(
                    processor,
                ).consecutive_failures == 65_535
            }
        },
{
}

} // verus!
