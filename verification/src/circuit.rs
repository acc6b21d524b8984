//! The circuit breaker: which processor a payment goes to, and what its success or
//! failure is taken to mean.
//!
//! A processor's circuit opens when failures in a row reach a threshold and closes at
//! its next success. While the default processor's circuit is open, payments go to the
//! fallback processor, but for one now and then that tests whether the default
//! processor has recovered.

use crate::clock::{clock_comparable, clock_second, span_fits, utc_now};
use crate::health::{
    HealthCheckCache, HealthCheckResponse, PaymentProcessorState, CONSECUTIVE_FAILURES_THRESHOLD,
};
use crate::processor::{other_processor, Processor};
use vstd::prelude::*;

verus! {

/// A default processor that answers more slowly than this is slow, in milliseconds.
pub const RESPONSE_TIME_THRESHOLD_MS: u64 = 1000;

/// A queue that holds more payments than this is long.
pub const QUEUE_SIZE_THRESHOLD: usize = 30;

/// An open circuit is tested when it has been left alone for longer than this, in
/// seconds.
pub const CIRCUIT_CHECK_INTERVAL_SEC: i64 = 30;

impl PaymentProcessorState {
    /// This state after a failure at second `now`: one more failure in a row, which
    /// opens the circuit, or keeps it open, when the threshold is reached.
    pub open spec fn after_failure(self, now: i64) -> PaymentProcessorState {
        let failures = self.consecutive_failures + 1;
        PaymentProcessorState {
            consecutive_failures: failures as u16,
            circuit_open: self.circuit_open || failures >= CONSECUTIVE_FAILURES_THRESHOLD,
            last_circuit_check: if failures >= CONSECUTIVE_FAILURES_THRESHOLD {
                now
            } else {
                self.last_circuit_check
            },
            ..self
        }
    }

    /// This state after a success: no failures in a row, and a closed circuit.
    pub open spec fn after_success(self) -> PaymentProcessorState {
        PaymentProcessorState { consecutive_failures: 0, circuit_open: false, ..self }
    }

    /// Whether an open circuit is to be tested at second `now`.
    pub open spec fn test_due(self, now: i64) -> bool {
        self.circuit_open && now - self.last_circuit_check > CIRCUIT_CHECK_INTERVAL_SEC
    }

    /// This state once it has been asked at second `now` whether to test the circuit: a
    /// test that is due is noted.
    pub open spec fn after_asking(self, now: i64) -> PaymentProcessorState {
        if self.test_due(now) {
            PaymentProcessorState { last_circuit_check: now, ..self }
        } else {
            self
        }
    }
}

impl HealthCheckCache {
    /// This cache after a failure of `processor` at second `now`.
    pub open spec fn after_failure(self, processor: Processor, now: i64) -> HealthCheckCache {
        self.with_state(processor, self.state(processor).after_failure(now))
    }

    /// This cache after a success of `processor`.
    pub open spec fn after_success(self, processor: Processor) -> HealthCheckCache {
        self.with_state(processor, self.state(processor).after_success())
    }

    /// This cache once it has been asked at second `now` whether to test the circuit of
    /// `processor`.
    pub open spec fn after_asking(self, processor: Processor, now: i64) -> HealthCheckCache {
        self.with_state(processor, self.state(processor).after_asking(now))
    }

    /// Whether the default processor, with a closed circuit, is to be spared: it reports
    /// that it is failing, or it is slow while the queue is long.
    pub open spec fn default_spared(self, queue_size: usize) -> bool {
        ||| self.default.failing
        ||| self.default.min_response_time > RESPONSE_TIME_THRESHOLD_MS && queue_size
            > QUEUE_SIZE_THRESHOLD
    }

    /// The processor that a payment goes to at second `now`, with `queue_size` payments
    /// waiting behind it.
    pub open spec fn chosen(self, queue_size: usize, now: i64) -> Processor {
        let use_default = if self.default.circuit_open {
            self.default.test_due(now)
        } else {
            !self.default_spared(queue_size)
        };
        if use_default {
            Processor::Default
        } else {
            Processor::Fallback
        }
    }
}

/// Counts a failure of `processor` at second `now`, and opens its circuit when the
/// threshold is reached.
pub fn increment_failure_count_at(cache: &mut HealthCheckCache, processor: &Processor, now: i64)
    requires
        old(cache).state(*processor).consecutive_failures < u16::MAX,
    ensures
        *final(cache) == old(cache).after_failure(*processor, now),
        old(cache).wf() && clock_second(now) ==> final(cache).wf(),
{
    let state = cache.get_state_mut(processor);
    state.consecutive_failures = state.consecutive_failures + 1;
    if state.consecutive_failures >= CONSECUTIVE_FAILURES_THRESHOLD {
        state.circuit_open = true;
        state.last_circuit_check = now;
    }
}

/// Counts a failure of `processor` now.
pub fn increment_failure_count(cache: &mut HealthCheckCache, processor: &Processor)
    requires
        old(cache).state(*processor).consecutive_failures < u16::MAX,
    ensures
        exists|now: i64| #[trigger]
            clock_second(now) && *final(cache) == old(cache).after_failure(*processor, now),
        old(cache).wf() ==> final(cache).wf(),
{
    let now = utc_now().secs;
    assert(clock_second(now));
    increment_failure_count_at(cache, processor, now);
}

/// Notes a success of `processor`: forgets its failures and closes its circuit.
pub fn reset_failure_count(cache: &mut HealthCheckCache, processor: &Processor)
    ensures
        *final(cache) == old(cache).after_success(*processor),
        old(cache).wf() ==> final(cache).wf(),
{
    let state = cache.get_state_mut(processor);
    if state.consecutive_failures > 0 {
        state.consecutive_failures = 0;
    }
    if state.circuit_open {
        state.circuit_open = false;
    }
}

/// Whether the circuit of `processor` is to be tested at second `now`: it is open, and
/// has been left alone for long enough. A test that is due is noted as made.
pub fn can_close_circuit_at(
    cache: &mut HealthCheckCache,
    processor: &Processor,
    now: i64,
) -> (test: bool)
    requires
        old(cache).state(*processor).circuit_open ==> span_fits(
            now,
            old(cache).state(*processor).last_circuit_check,
        ),
    ensures
        test == old(cache).state(*processor).test_due(now),
        *final(cache) == old(cache).after_asking(*processor, now),
        old(cache).wf() && clock_second(now) ==> final(cache).wf(),
{
    let state = cache.get_state_mut(processor);
    if !state.circuit_open {
        return false;
    }
    let elapsed: i64 = now - state.last_circuit_check;
    if elapsed > CIRCUIT_CHECK_INTERVAL_SEC {
        state.last_circuit_check = now;
        return true;
    }
    false
}

/// Whether the circuit of `processor` is to be tested now.
pub fn can_close_circuit(cache: &mut HealthCheckCache, processor: &Processor) -> (test: bool)
    requires
        old(cache).state(*processor).circuit_open ==> clock_comparable(
            old(cache).state(*processor).last_circuit_check,
        ),
    ensures
        exists|now: i64| #[trigger]
            clock_second(now) && test == old(cache).state(*processor).test_due(now) && *final(cache)
                == old(cache).after_asking(*processor, now),
        old(cache).wf() ==> final(cache).wf(),
{
    let now = utc_now().secs;
    assert(clock_second(now));
    can_close_circuit_at(cache, processor, now)
}

/// Chooses the processor for a payment at second `now`, with `queue_size` payments
/// waiting behind it. A choice that tests the default processor's circuit is noted.
pub fn choose_payment_processor_at(
    cache: &mut HealthCheckCache,
    queue_size: usize,
    now: i64,
) -> (processor: Processor)
    requires
        old(cache).default.circuit_open ==> span_fits(now, old(cache).default.last_circuit_check),
    ensures
        processor == old(cache).chosen(queue_size, now),
        *final(cache) == old(cache).after_asking(Processor::Default, now),
        old(cache).wf() && clock_second(now) ==> final(cache).wf(),
{
    if cache.default.circuit_open {
        if can_close_circuit_at(cache, &Processor::Default, now) {
            return Processor::Default;
        }
        return Processor::Fallback;
    }
    if cache.default.failing {
        return Processor::Fallback;
    }
    if cache.default.min_response_time > RESPONSE_TIME_THRESHOLD_MS && queue_size
        > QUEUE_SIZE_THRESHOLD {
        return Processor::Fallback;
    }
    Processor::Default
}

/// Chooses the processor for a payment now, with `queue_size` payments waiting behind it.
pub fn choose_payment_processor(
    cache: &mut HealthCheckCache,
    queue_size: usize,
) -> (processor: Processor)
    requires
        old(cache).default.circuit_open ==> clock_comparable(
            old(cache).default.last_circuit_check,
        ),
    ensures
        exists|now: i64| #[trigger]
            clock_second(now) && processor == old(cache).chosen(queue_size, now) && *final(cache)
                == old(cache).after_asking(Processor::Default, now),
        old(cache).wf() ==> final(cache).wf(),
{
    let now = utc_now().secs;
    assert(clock_second(now));
    choose_payment_processor_at(cache, queue_size, now)
}

/// Something that changes what is known of the processors.
pub enum CacheEvent {
    /// Health checks of both processors ended at second `now`.
    Checked {
        default_check: Option<HealthCheckResponse>,
        fallback_check: Option<HealthCheckResponse>,
        now: i64,
    },
    /// It was asked at second `now` whether to test the circuit of `processor`. Every
    /// choice of a processor asks this of the default processor.
    Asked { processor: Processor, now: i64 },
    /// `processor` took a payment.
    Succeeded { processor: Processor },
    /// `processor` failed a payment at second `now`.
    Failed { processor: Processor, now: i64 },
}

/// The second at which `event` happened, where it has a bearing.
pub open spec fn event_second(event: CacheEvent) -> Option<i64> {
    match event {
        CacheEvent::Checked { now, .. } => Some(now),
        CacheEvent::Asked { now, .. } => Some(now),
        CacheEvent::Succeeded { .. } => None,
        CacheEvent::Failed { now, .. } => Some(now),
    }
}

/// The one processor that `event` is about, unless it is about both.
pub open spec fn event_processor(event: CacheEvent) -> Option<Processor> {
    match event {
        CacheEvent::Checked { .. } => None,
        CacheEvent::Asked { processor, .. } => Some(processor),
        CacheEvent::Succeeded { processor } => Some(processor),
        CacheEvent::Failed { processor, .. } => Some(processor),
    }
}

/// `cache` after `event`.
pub open spec fn after_event(cache: HealthCheckCache, event: CacheEvent) -> HealthCheckCache {
    match event {
        CacheEvent::Checked { default_check, fallback_check, now } => cache.after_checks(
            default_check,
            fallback_check,
            now,
        ),
        CacheEvent::Asked { processor, now } => cache.after_asking(processor, now),
        CacheEvent::Succeeded { processor } => cache.after_success(processor),
        CacheEvent::Failed { processor, now } => cache.after_failure(processor, now),
    }
}

/// `cache` after `events`, in their order.
pub open spec fn after_events(cache: HealthCheckCache, events: Seq<CacheEvent>) -> HealthCheckCache
    decreases events.len(),
{
    if events.len() == 0 {
        cache
    } else {
        after_event(after_events(cache, events.drop_last()), events.last())
    }
}

/// How many times `processor` has failed since it last succeeded, or, if it never did,
/// in all of `events`.
pub open spec fn failures_since_success(events: Seq<CacheEvent>, processor: Processor) -> nat
    decreases events.len(),
{
    if events.len() == 0 {
        0
    } else {
        let before = failures_since_success(events.drop_last(), processor);
        match events.last() {
            CacheEvent::Failed { processor: failed, .. } if failed == processor => before + 1,
            CacheEvent::Succeeded { processor: succeeded } if succeeded == processor => 0,
            _ => before,
        }
    }
}

/// Whether every second in `events` is a reading of the clock, and no processor ever
/// fails more often in a row than its counter can hold.
pub open spec fn recordable(events: Seq<CacheEvent>) -> bool
    decreases events.len(),
{
    events.len() > 0 ==> {
        &&& recordable(events.drop_last())
        &&& event_second(events.last()) matches Some(now) ==> clock_second(now)
        &&& forall|processor: Processor| #[trigger]
            failures_since_success(events, processor) <= u16::MAX
    }
}

/// Whatever happens, in whatever order, a processor's counter says how many times it has
/// failed since it last succeeded, its circuit is open exactly when that count has
/// reached the threshold, and the cache's invariant holds.
pub proof fn law_counter_counts_failures_since_success(
    cache: HealthCheckCache,
    events: Seq<CacheEvent>,
    processor: Processor,
)
    requires
        cache.default == PaymentProcessorState::unknown(),
        cache.fallback == PaymentProcessorState::unknown(),
        recordable(events),
    ensures
        ({
            let after = after_events(cache, events);
            let failures = failures_since_success(events, processor);
            &&& after.wf()
            &&& after.state(processor).consecutive_failures == failures
            &&& after.state(processor).circuit_open <==> failures >= CONSECUTIVE_FAILURES_THRESHOLD
        }),
    decreases events.len(),
{
    if events.len() > 0 {
        let before = events.drop_last();
        law_counter_counts_failures_since_success(cache, before, Processor::Default);
        law_counter_counts_failures_since_success(cache, before, Processor::Fallback);
        assert(failures_since_success(events, Processor::Default) <= u16::MAX);
        assert(failures_since_success(events, Processor::Fallback) <= u16::MAX);
    }
}

/// A success undoes a failure: after it the processor stands as if only the success had
/// happened, but for the second at which its circuit was last looked at.
pub proof fn law_success_undoes_failure(state: PaymentProcessorState, now: i64)
    ensures
        state.after_failure(now).after_success() == (PaymentProcessorState {
            last_circuit_check: state.after_failure(now).last_circuit_check,
            ..state.after_success()
        }),
        !state.after_failure(now).after_success().circuit_open,
        state.after_success().after_success() == state.after_success(),
{
}

/// A success or a failure of one processor, or a question about its circuit, leaves what
/// is known of the other processor as it was, and leaves its own health report.
pub proof fn law_processors_are_independent(
    cache: HealthCheckCache,
    event: CacheEvent,
    processor: Processor,
)
    requires
        event_processor(event) == Some(processor),
    ensures
        ({
            let other = other_processor(processor);
            let before = cache.state(processor);
            let after = after_event(cache, event).state(processor);
            &&& after_event(cache, event).state(other) == cache.state(other)
            &&& after.failing == before.failing
            &&& after.min_response_time == before.min_response_time
            &&& after.timestamp == before.timestamp
        }),
{
}

/// What is known of the fallback processor, its circuit included, has no part in the
/// choice of a processor.
pub proof fn law_choice_looks_at_default_only(
    cache: HealthCheckCache,
    other: HealthCheckCache,
    queue_size: usize,
    now: i64,
)
    requires
        cache.default == other.default,
    ensures
        cache.chosen(queue_size, now) == other.chosen(queue_size, now),
{
}

/// However often a question is put or a failure counted, the second at which a circuit
/// was last looked at never falls behind a second that it has reached, as long as the
/// clock does not.
proof fn lemma_last_check_keeps_up(
    cache: HealthCheckCache,
    events: Seq<CacheEvent>,
    processor: Processor,
    since: i64,
)
    requires
        cache.state(processor).last_circuit_check >= since,
        forall|i: int|
            0 <= i < events.len() ==> (event_second(#[trigger] events[i]) matches Some(now) ==> now
                >= since),
    ensures
        after_events(cache, events).state(processor).last_circuit_check >= since,
    decreases events.len(),
{
    if events.len() > 0 {
        let before = events.drop_last();
        assert forall|i: int| 0 <= i < before.len() implies (event_second(
            #[trigger] before[i],
        ) matches Some(now) ==> now >= since) by {
            assert(before[i] == events[i]);
        }
        lemma_last_check_keeps_up(cache, before, processor, since);
        assert(events.last() == events[events.len() - 1]);
    }
}

/// Two tests of the default processor's open circuit are always further apart than the
/// test interval, whatever happens between them, as long as the clock does not run back.
pub proof fn law_circuit_tests_are_spaced(
    cache: HealthCheckCache,
    first_queue: usize,
    first: i64,
    events: Seq<CacheEvent>,
    second_queue: usize,
    second: i64,
)
    requires
        cache.default.circuit_open,
        cache.chosen(first_queue, first) == Processor::Default,
        forall|i: int|
            0 <= i < events.len() ==> (event_second(#[trigger] events[i]) matches Some(now) ==> now
                >= first),
        after_events(
            cache.after_asking(Processor::Default, first),
            events,
        ).default.circuit_open,
        after_events(cache.after_asking(Processor::Default, first), events).chosen(
            second_queue,
            second,
        ) == Processor::Default,
    ensures
        second - first > CIRCUIT_CHECK_INTERVAL_SEC,
{
    lemma_last_check_keeps_up(
        cache.after_asking(Processor::Default, first),
        events,
        Processor::Default,
        first,
    );
}

/// A circuit stays open until its processor succeeds.
pub proof fn law_circuit_stays_open(
    cache: HealthCheckCache,
    events: Seq<CacheEvent>,
    processor: Processor,
)
    requires
        cache.state(processor).circuit_open,
        forall|i: int|
            0 <= i < events.len() ==> #[trigger] events[i] != (CacheEvent::Succeeded { processor }),
    ensures
        after_events(cache, events).state(processor).circuit_open,
    decreases events.len(),
{
    if events.len() > 0 {
        let before = events.drop_last();
        assert forall|i: int| 0 <= i < before.len() implies #[trigger] before[i] != (
        CacheEvent::Succeeded { processor }) by {
            assert(before[i] == events[i]);
        }
        law_circuit_stays_open(cache, before, processor);
        assert(events.last() == events[events.len() - 1]);
    }
}

/// From the failure that opens the default processor's circuit, payments go to the
/// fallback processor until the default processor succeeds or the test interval is over.
pub proof fn law_open_circuit_diverts_payments(
    cache: HealthCheckCache,
    failed: i64,
    events: Seq<CacheEvent>,
    queue_size: usize,
    now: i64,
)
    requires
        cache.default.consecutive_failures < u16::MAX,
        cache.default.consecutive_failures + 1 >= CONSECUTIVE_FAILURES_THRESHOLD,
        forall|i: int|
            0 <= i < events.len() ==> #[trigger] events[i] != (CacheEvent::Succeeded {
                processor: Processor::Default,
            }),
        forall|i: int|
            0 <= i < events.len() ==> (event_second(#[trigger] events[i]) matches Some(second)
                ==> second >= failed),
        now - failed <= CIRCUIT_CHECK_INTERVAL_SEC,
    ensures
        after_events(cache.after_failure(Processor::Default, failed), events).chosen(
            queue_size,
            now,
        ) == Processor::Fallback,
{
    let opened = cache.after_failure(Processor::Default, failed);
    law_circuit_stays_open(opened, events, Processor::Default);
    lemma_last_check_keeps_up(opened, events, Processor::Default, failed);
}

/// A failure adds one to the count of its processor. From the third in a row on, the circuit
/// is open and the moment of the failure is noted; before, neither changes.
pub proof fn law_failure_adds_one(cache: HealthCheckCache, processor: Processor, now: i64)
    requires
        cache.state(processor).consecutive_failures < u16::MAX,
    ensures
        ({
            let before = cache.state(processor);
            let after = cache.after_failure(processor, now).state(processor);
            &&& after.consecutive_failures == before.consecutive_failures + 1
            &&& before.consecutive_failures >= 2 ==> after.circuit_open && after.last_circuit_check
                == now
            &&& before.consecutive_failures < 2 ==> after.circuit_open == before.circuit_open
                && after.last_circuit_check == before.last_circuit_check
        }),
{
}

/// A success leaves no failures and a closed circuit, whatever came before, and changes
/// nothing else of its processor.
pub proof fn law_success_clears_the_count(cache: HealthCheckCache, processor: Processor)
    ensures
        ({
            let before = cache.state(processor);
            let after = cache.after_success(processor).state(processor);
            &&& after.consecutive_failures == 0
            &&& !after.circuit_open
            &&& after.last_circuit_check == before.last_circuit_check
        }),
{
}

/// An open circuit that has been left alone for more than thirty seconds is due for a test,
/// however many failures have been counted and whatever was reported, and asking notes the
/// moment. Otherwise no test is due, and asking changes nothing.
pub proof fn law_open_circuit_is_tested_again(
    cache: HealthCheckCache,
    processor: Processor,
    now: i64,
)
    ensures
        ({
            let before = cache.state(processor);
            let after = cache.after_asking(processor, now).state(processor);
            let due = before.circuit_open && now - before.last_circuit_check > 30;
            &&& before.test_due(now) <==> due
            &&& due ==> after.last_circuit_check == now
            &&& !due ==> after == before
            &&& after.circuit_open == before.circuit_open
            &&& after.consecutive_failures == before.consecutive_failures
        }),
{
}

/// The default processor can always recover: while its circuit is open, the choice falls on
/// it whenever the circuit has been left alone for more than thirty seconds, and on the
/// fallback processor whenever it has not, whatever else is known.
pub proof fn law_choice_with_an_open_circuit(
    cache: HealthCheckCache,
    queue_size: usize,
    now: i64,
)
    requires
        cache.default.circuit_open,
    ensures
        now - cache.default.last_circuit_check > 30 ==> {
            &&& cache.chosen(queue_size, now) is Default
            &&& cache.after_asking(Processor::Default, now).default.last_circuit_check == now
        },
        now - cache.default.last_circuit_check <= 30 ==> {
            &&& cache.chosen(queue_size, now) is Fallback
            &&& cache.after_asking(Processor::Default, now) == cache
        },
{
}

/// With its circuit closed, a default processor that reports failing is never used, and one
/// that does not is spared exactly when it is slower than a second while more than thirty
/// payments wait. The choice leaves the cache as it is.
pub proof fn law_choice_with_a_closed_circuit(
    cache: HealthCheckCache,
    queue_size: usize,
    now: i64,
)
    requires
        !cache.default.circuit_open,
    ensures
        cache.default.failing ==> cache.chosen(queue_size, now) is Fallback,
        !cache.default.failing ==> (cache.chosen(queue_size, now) is Fallback
            <==> cache.default.min_response_time > 1000 && queue_size > 30),
        cache.after_asking(Processor::Default, now) == cache,
{
}

/// A longer queue never brings a payment back to the default processor.
pub proof fn law_longer_queue_spares_the_default_processor(
    cache: HealthCheckCache,
    shorter: usize,
    longer: usize,
    now: i64,
)
    requires
        shorter <= longer,
        cache.chosen(shorter, now) is Fallback,
    ensures
        cache.chosen(longer, now) is Fallback,
{
}

} // verus!
