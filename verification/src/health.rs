//! What is known of the health of the two processors.

use crate::clock::{clock_second, span_fits, utc_now};
use crate::http::{answered_successfully, is_success_answer, valid_answer};
use crate::processor::Processor;
use vstd::prelude::*;

verus! {

/// How long a health report of the default processor is relied on, in seconds.
pub const HEALTH_TTL_SEC: i64 = 5;

/// How long a processor may take to report its health, in seconds.
pub const HEALTH_TIMEOUT_SECS: u64 = 5;

/// How many failures in a row open a processor's circuit.
pub const CONSECUTIVE_FAILURES_THRESHOLD: u16 = 3;

/// A processor's own report of its health.
#[derive(Debug, Clone, Copy, PartialEq, Eq, Structural)]
pub struct HealthCheckResponse {
    pub failing: bool,
    pub min_response_time: u64,
}

/// What is known of one processor: its last health report and when it was taken, and
/// its circuit breaker.
#[derive(Debug, Clone, Copy, PartialEq, Eq, Structural)]
pub struct PaymentProcessorState {
    pub failing: bool,
    pub min_response_time: u64,
    /// The second at which the last health report was stored; 0 before the first.
    pub timestamp: i64,
    pub consecutive_failures: u16,
    pub circuit_open: bool,
    /// The second at which the circuit last opened, failed again, or was last tested.
    pub last_circuit_check: i64,
}

/// What is known of both processors.
#[derive(Debug, Clone, Copy, PartialEq, Eq, Structural)]
pub struct HealthCheckCache {
    pub default: PaymentProcessorState,
    pub fallback: PaymentProcessorState,
}

impl PaymentProcessorState {
    /// The state of a processor of which nothing is known.
    pub open spec fn unknown() -> PaymentProcessorState {
        PaymentProcessorState {
            failing: false,
            min_response_time: 0,
            timestamp: 0,
            consecutive_failures: 0,
            circuit_open: false,
            last_circuit_check: 0,
        }
    }

    /// The invariant of a processor's state: its times are readings of the clock, and
    /// its circuit is open exactly when enough failures in a row have been counted.
    pub open spec fn wf(self) -> bool {
        &&& clock_second(self.timestamp)
        &&& clock_second(self.last_circuit_check)
        &&& self.circuit_open <==> self.consecutive_failures >= CONSECUTIVE_FAILURES_THRESHOLD
    }

    /// This state with the health report `report`, stored at second `now`.
    pub open spec fn with_report(
        self,
        report: HealthCheckResponse,
        now: i64,
    ) -> PaymentProcessorState {
        PaymentProcessorState {
            failing: report.failing,
            min_response_time: report.min_response_time,
            timestamp: now,
            ..self
        }
    }

    /// This state after a health check that ended in `check` at second `now`: a check
    /// that brought no report changes nothing.
    pub open spec fn after_check(
        self,
        check: Option<HealthCheckResponse>,
        now: i64,
    ) -> PaymentProcessorState {
        match check {
            Some(report) => self.with_report(report, now),
            None => self,
        }
    }
}

impl HealthCheckCache {
    /// What is known of `processor`.
    pub open spec fn state(self, processor: Processor) -> PaymentProcessorState {
        match processor {
            Processor::Default => self.default,
            Processor::Fallback => self.fallback,
        }
    }

    /// This cache with `state` as what is known of `processor`.
    pub open spec fn with_state(
        self,
        processor: Processor,
        state: PaymentProcessorState,
    ) -> HealthCheckCache {
        match processor {
            Processor::Default => HealthCheckCache { default: state, ..self },
            Processor::Fallback => HealthCheckCache { fallback: state, ..self },
        }
    }

    /// The invariant of the cache.
    pub open spec fn wf(self) -> bool {
        self.default.wf() && self.fallback.wf()
    }

    /// Whether the health reports are out of date at second `now`. The default
    /// processor's report decides for both.
    pub open spec fn refresh_due(self, now: i64) -> bool {
        self.default.timestamp <= 0 || now - self.default.timestamp >= HEALTH_TTL_SEC
    }

    /// This cache after health checks of both processors that ended at second `now`.
    pub open spec fn after_checks(
        self,
        default_check: Option<HealthCheckResponse>,
        fallback_check: Option<HealthCheckResponse>,
        now: i64,
    ) -> HealthCheckCache {
        HealthCheckCache {
            default: self.default.after_check(default_check, now),
            fallback: self.fallback.after_check(fallback_check, now),
        }
    }

    /// A cache in which nothing is known of either processor.
    pub fn new() -> (cache: HealthCheckCache)
        ensures
            cache.default == PaymentProcessorState::unknown(),
            cache.fallback == PaymentProcessorState::unknown(),
            cache.wf(),
    {
        HealthCheckCache {
            default: PaymentProcessorState {
                failing: false,
                min_response_time: 0,
                timestamp: 0,
                consecutive_failures: 0,
                circuit_open: false,
                last_circuit_check: 0,
            },
            fallback: PaymentProcessorState {
                failing: false,
                min_response_time: 0,
                timestamp: 0,
                consecutive_failures: 0,
                circuit_open: false,
                last_circuit_check: 0,
            },
        }
    }

    /// What is known of `processor`.
    pub fn get_state(&self, processor: &Processor) -> (state: &PaymentProcessorState)
        ensures
            *state == self.state(*processor),
    {
        match processor {
            Processor::Default => &self.default,
            Processor::Fallback => &self.fallback,
        }
    }

    /// What is known of `processor`, to be changed in place; the other processor's
    /// state stays as it is.
    pub fn get_state_mut(&mut self, processor: &Processor) -> (state: &mut PaymentProcessorState)
        ensures
            *state == old(self).state(*processor),
            *final(self) == old(self).with_state(*processor, *final(state)),
    {
        match processor {
            Processor::Default => &mut self.default,
            Processor::Fallback => &mut self.fallback,
        }
    }
}

/// What a health check brings: the report that the body holds, if it holds one, where the
/// check was answered, and successfully; nothing otherwise.
pub open spec fn check_result(
    answer: Result<u16, String>,
    body: Option<HealthCheckResponse>,
) -> Option<HealthCheckResponse> {
    if answered_successfully(answer) {
        body
    } else {
        None
    }
}

/// What a health check brings that was answered with `answer`, and whose body holds the
/// report `body`, if it could be read and holds one.
pub fn get_processor_health(
    answer: &Result<u16, String>,
    body: Option<HealthCheckResponse>,
) -> (check: Option<HealthCheckResponse>)
    requires
        valid_answer(*answer),
    ensures
        check == check_result(*answer, body),
{
    if is_success_answer(answer) {
        body
    } else {
        None
    }
}

/// Whether the health reports in `cache` are out of date at second `now`.
pub fn health_refresh_due_at(cache: &HealthCheckCache, now: i64) -> (due: bool)
    requires
        cache.default.timestamp > 0 ==> span_fits(now, cache.default.timestamp),
    ensures
        due == cache.refresh_due(now),
{
    !(cache.default.timestamp > 0 && now - cache.default.timestamp < HEALTH_TTL_SEC)
}

/// Whether the health reports in `cache` are out of date now.
pub fn health_refresh_due(cache: &HealthCheckCache) -> (due: bool)
    ensures
        exists|now: i64| #[trigger] clock_second(now) && due == cache.refresh_due(now),
{
    let now = utc_now().secs;
    assert(clock_second(now));
    health_refresh_due_at(cache, now)
}

/// Stores the reports that health checks of both processors brought, as of second
/// `now`. A check that brought no report leaves what was known of its processor.
pub fn update_health_status_at(
    cache: &mut HealthCheckCache,
    default_check: Option<HealthCheckResponse>,
    fallback_check: Option<HealthCheckResponse>,
    now: i64,
)
    ensures
        *final(cache) == old(cache).after_checks(default_check, fallback_check, now),
        old(cache).wf() && clock_second(now) ==> final(cache).wf(),
{
    if let Some(health) = default_check {
        cache.default.failing = health.failing;
        cache.default.min_response_time = health.min_response_time;
        cache.default.timestamp = now;
    }
    if let Some(health) = fallback_check {
        cache.fallback.failing = health.failing;
        cache.fallback.min_response_time = health.min_response_time;
        cache.fallback.timestamp = now;
    }
}

/// Stores the reports that health checks of both processors brought, as of now.
pub fn update_health_status(
    cache: &mut HealthCheckCache,
    default_check: Option<HealthCheckResponse>,
    fallback_check: Option<HealthCheckResponse>,
)
    ensures
        exists|now: i64| #[trigger]
            clock_second(now) && *final(cache) == old(cache).after_checks(
                default_check,
                fallback_check,
                now,
            ),
        old(cache).wf() ==> final(cache).wf(),
{
    let now = utc_now().secs;
    assert(clock_second(now));
    update_health_status_at(cache, default_check, fallback_check, now);
}

/// Once a report of the default processor has been stored, no refresh is due for as
/// long as a report is relied on, and one is due from then on.
pub proof fn law_report_is_relied_on(
    cache: HealthCheckCache,
    report: HealthCheckResponse,
    fallback_check: Option<HealthCheckResponse>,
    stored: i64,
    now: i64,
)
    requires
        stored > 0,
    ensures
        cache.after_checks(Some(report), fallback_check, stored).refresh_due(now) <==> now - stored
            >= HEALTH_TTL_SEC,
{
}

/// A health check of the default processor that brought no report settles nothing: a
/// refresh is due exactly when it was, whatever the fallback processor reported.
pub proof fn law_missing_default_report_settles_nothing(
    cache: HealthCheckCache,
    fallback_check: Option<HealthCheckResponse>,
    stored: i64,
    now: i64,
)
    ensures
        cache.after_checks(None, fallback_check, stored).refresh_due(now) == cache.refresh_due(now),
{
}

/// Health checks never touch a circuit breaker.
pub proof fn law_health_checks_leave_circuits(
    cache: HealthCheckCache,
    default_check: Option<HealthCheckResponse>,
    fallback_check: Option<HealthCheckResponse>,
    now: i64,
    processor: Processor,
)
    ensures
        ({
            let before = cache.state(processor);
            let after = cache.after_checks(default_check, fallback_check, now).state(processor);
            &&& after.consecutive_failures == before.consecutive_failures
            &&& after.circuit_open == before.circuit_open
            &&& after.last_circuit_check == before.last_circuit_check
        }),
{
}

/// What is known of a processor is kept apart from what is known of the other: each is read
/// from its own place, and storing one leaves the other.
pub proof fn law_states_are_kept_apart(
    cache: HealthCheckCache,
    processor: Processor,
    state: PaymentProcessorState,
)
    ensures
        cache.state(Processor::Default) == cache.default,
        cache.state(Processor::Fallback) == cache.fallback,
        cache.with_state(processor, state).state(processor) == state,
        processor is Default ==> cache.with_state(processor, state).fallback == cache.fallback,
        processor is Fallback ==> cache.with_state(processor, state).default == cache.default,
{
}

/// Nothing counts against a processor of which nothing is known.
pub proof fn law_nothing_is_known_at_first()
    ensures
        ({
            let unknown = PaymentProcessorState::unknown();
            &&& !unknown.failing
            &&& unknown.min_response_time == 0
            &&& unknown.timestamp == 0
            &&& unknown.consecutive_failures == 0
            &&& !unknown.circuit_open
            &&& unknown.last_circuit_check == 0
            &&& unknown.wf()
        }),
{
}

/// A state is well formed when its times lie between the Unix epoch and the clock's last
/// second, and its circuit is open exactly from the third failure in a row.
pub proof fn law_well_formed_state(state: PaymentProcessorState)
    ensures
        state.wf() <==> {
            &&& 0 <= state.timestamp <= 8_210_266_876_799
            &&& 0 <= state.last_circuit_check <= 8_210_266_876_799
            &&& state.circuit_open <==> state.consecutive_failures >= 3
        },
{
}

/// The latest report counts, whatever was known before: after a health check that brought a
/// report, a processor is known to be as failing and as slow as the report says, as of the
/// moment at which it was stored. A health check that brought none changes nothing. Each
/// processor goes by its own check.
pub proof fn law_latest_report_counts(
    cache: HealthCheckCache,
    default_check: Option<HealthCheckResponse>,
    fallback_check: Option<HealthCheckResponse>,
    now: i64,
)
    ensures
        ({
            let after = cache.after_checks(default_check, fallback_check, now);
            &&& default_check matches Some(report) ==> {
                &&& after.default.failing == report.failing
                &&& after.default.min_response_time == report.min_response_time
                &&& after.default.timestamp == now
            }
            &&& default_check is None ==> after.default == cache.default
            &&& fallback_check matches Some(report) ==> {
                &&& after.fallback.failing == report.failing
                &&& after.fallback.min_response_time == report.min_response_time
                &&& after.fallback.timestamp == now
            }
            &&& fallback_check is None ==> after.fallback == cache.fallback
        }),
{
}

/// Of two health checks that both brought reports, only the later one can be told from what
/// is known afterwards.
pub proof fn law_later_report_replaces_earlier(
    cache: HealthCheckCache,
    earlier_default: HealthCheckResponse,
    earlier_fallback: HealthCheckResponse,
    earlier: i64,
    default_report: HealthCheckResponse,
    fallback_report: HealthCheckResponse,
    now: i64,
)
    ensures
        cache.after_checks(Some(earlier_default), Some(earlier_fallback), earlier).after_checks(
            Some(default_report),
            Some(fallback_report),
            now,
        ) == cache.after_checks(Some(default_report), Some(fallback_report), now),
{
}

/// Reports are in date only while the default processor's is less than five seconds old;
/// before its first report they are always due.
pub proof fn law_reports_are_due_after_five_seconds(cache: HealthCheckCache, now: i64)
    ensures
        cache.default.timestamp <= 0 ==> cache.refresh_due(now),
        cache.default.timestamp > 0 ==> (cache.refresh_due(now) <==> now - cache.default.timestamp
            >= 5),
{
}

/// A health check brings the report in its body exactly when it was answered with a status
/// from 200 to 299.
pub proof fn law_report_needs_a_successful_answer(
    status: u16,
    error: String,
    body: Option<HealthCheckResponse>,
)
    ensures
        200 <= status <= 299 ==> check_result(Ok(status), body) == body,
        !(200 <= status <= 299) ==> check_result(Ok(status), body) is None,
        check_result(Err(error), body) is None,
{
}

} // verus!
