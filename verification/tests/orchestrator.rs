use rinhudos_backend_2025::clock::Timestamp;
use rinhudos_backend_2025::health::{HealthCheckCache, HealthCheckResponse};
use rinhudos_backend_2025::orchestrator::{Action, Event, Outcome, PaymentTask, Phase};
use rinhudos_backend_2025::payment::{PaymentRequest, Submission};
use rinhudos_backend_2025::processor::Processor;

const NOW: Timestamp = Timestamp { secs: 1_431_648_000, nanos: 0 };

fn payment() -> PaymentRequest {
    PaymentRequest { correlation_id: "id-1".to_string(), amount_bits: 19.9f64.to_bits() }
}

fn fresh_cache() -> HealthCheckCache {
    let mut cache = HealthCheckCache::new();
    cache.default.timestamp = NOW.secs;
    cache
}

fn tell(task: PaymentTask, cache: &mut HealthCheckCache, event: Event) -> (PaymentTask, Action) {
    task.process_payment_at(cache, event, NOW)
}

/// A task that has popped a payment, with reports up to date, and has sent it.
fn sending(cache: &mut HealthCheckCache) -> (PaymentTask, Action) {
    let (task, action) = PaymentTask::start();
    assert!(matches!(action, Action::Pop { queue: "payment_queue" }));
    let (task, action) = tell(task, cache, Event::Popped { payment_data: "data".to_string() });
    assert!(matches!(action, Action::MeasureQueue { queue: "payment_queue" }));
    let (task, action) = tell(task, cache, Event::Measured { queue_size: Some(3) });
    match action {
        Action::Parse { payment_data } => assert_eq!(payment_data, "data"),
        _ => panic!("the entry is not read"),
    }
    tell(task, cache, Event::Parsed { payment: Some(payment()) })
}

fn submission(action: Action) -> Submission {
    match action {
        Action::Send { submission } => submission,
        _ => panic!("nothing is sent"),
    }
}

fn outcome(action: Action) -> Outcome {
    match action {
        Action::Finish { outcome } => outcome,
        _ => panic!("the task goes on"),
    }
}

#[test]
fn a_queue_that_cannot_be_read_ends_the_task() {
    let mut cache = HealthCheckCache::new();
    let (task, _) = PaymentTask::start();
    let (task, action) = tell(task, &mut cache, Event::PopFailed);
    assert_eq!(outcome(action), Outcome::NotPopped);
    assert!(matches!(task.phase, Phase::Finished { outcome: Outcome::NotPopped }));
    assert_eq!(cache, HealthCheckCache::new());
}

#[test]
fn stale_reports_are_fetched_from_both_processors() {
    let mut cache = HealthCheckCache::new();
    let (task, _) = PaymentTask::start();
    let (task, action) =
        tell(task, &mut cache, Event::Popped { payment_data: "data".to_string() });
    match action {
        Action::CheckHealth { url, timeout_secs } => {
            assert_eq!(url, "http://localhost:8001/payments/service-health");
            assert_eq!(timeout_secs, 5);
        }
        _ => panic!("no report is asked for"),
    }
    let report = HealthCheckResponse { failing: true, min_response_time: 40 };
    let (task, action) =
        tell(task, &mut cache, Event::Checked { answer: Ok(200), body: Some(report) });
    match action {
        Action::CheckHealth { url, timeout_secs } => {
            assert_eq!(url, "http://localhost:8002/payments/service-health");
            assert_eq!(timeout_secs, 5);
        }
        _ => panic!("no report is asked for"),
    }
    assert_eq!(cache, HealthCheckCache::new());
    let (task, action) = tell(task, &mut cache, Event::Checked { answer: Ok(429), body: None });
    assert!(matches!(action, Action::MeasureQueue { .. }));
    assert!(cache.default.failing);
    assert_eq!(cache.default.min_response_time, 40);
    assert_eq!(cache.default.timestamp, NOW.secs);
    assert_eq!(cache.fallback, HealthCheckCache::new().fallback);
    let (task, _) = tell(task, &mut cache, Event::Measured { queue_size: None });
    assert!(matches!(task.phase, Phase::Parsing { processor: Processor::Fallback }));
}

#[test]
fn a_queue_of_unknown_length_is_taken_to_be_short() {
    let mut cache = fresh_cache();
    cache.default.min_response_time = 2_000;
    let (task, _) = PaymentTask::start();
    let (task, _) = tell(task, &mut cache, Event::Popped { payment_data: "data".to_string() });
    let (task, _) = tell(task, &mut cache, Event::Measured { queue_size: None });
    assert!(matches!(task.phase, Phase::Parsing { processor: Processor::Default }));
}

#[test]
fn a_long_queue_sends_payments_past_a_slow_default_processor() {
    let mut cache = fresh_cache();
    cache.default.min_response_time = 2_000;
    let (task, _) = PaymentTask::start();
    let (task, _) = tell(task, &mut cache, Event::Popped { payment_data: "data".to_string() });
    let (task, _) = tell(task, &mut cache, Event::Measured { queue_size: Some(31) });
    assert!(matches!(task.phase, Phase::Parsing { processor: Processor::Fallback }));
}

#[test]
fn an_entry_that_holds_no_payment_ends_the_task() {
    let mut cache = fresh_cache();
    let before = cache;
    let (task, _) = PaymentTask::start();
    let (task, _) = tell(task, &mut cache, Event::Popped { payment_data: "{".to_string() });
    let (task, _) = tell(task, &mut cache, Event::Measured { queue_size: Some(0) });
    let (_, action) = tell(task, &mut cache, Event::Parsed { payment: None });
    assert_eq!(outcome(action), Outcome::Unreadable);
    assert_eq!(cache, before);
}

#[test]
fn a_payment_is_sent_to_the_chosen_processor() {
    let mut cache = fresh_cache();
    let (_, action) = sending(&mut cache);
    let sent = submission(action);
    assert_eq!(sent.url, "http://localhost:8001/payments/process");
    assert_eq!(sent.timeout_secs, 2);
    assert_eq!(sent.correlation_id, "id-1");
    assert_eq!(f64::from_bits(sent.amount_bits), 19.9);
    assert_eq!(sent.requested_at, "2015-05-15T00:00:00+00:00");
}

#[test]
fn the_time_of_a_submission_keeps_its_nanoseconds() {
    let now = Timestamp { secs: 1_431_648_000, nanos: 123_456_789 };
    let sent = payment().submission(&Processor::Fallback, now);
    assert_eq!(sent.url, "http://localhost:8002/payments/process");
    assert_eq!(sent.requested_at, "2015-05-15T00:00:00.123456789+00:00");
    let sent = payment().submission(&Processor::Default, Timestamp { secs: 0, nanos: 0 });
    assert_eq!(sent.requested_at, "1970-01-01T00:00:00+00:00");
    let last = Timestamp { secs: 8_210_266_876_799, nanos: 999_999_999 };
    let sent = payment().submission(&Processor::Default, last);
    assert_eq!(sent.requested_at, "+262142-12-31T23:59:59.999999999+00:00");
}

#[test]
fn a_delivered_payment_is_processed() {
    let mut cache = fresh_cache();
    cache.default.consecutive_failures = 2;
    let (task, _) = sending(&mut cache);
    let (_, action) = tell(task, &mut cache, Event::Sent { answer: Ok(200) });
    assert_eq!(outcome(action), Outcome::Processed { processor: Processor::Default });
    assert_eq!(cache.default.consecutive_failures, 0);
}

#[test]
fn a_failed_payment_goes_to_the_other_processor() {
    let mut cache = fresh_cache();
    cache.fallback.consecutive_failures = 1;
    let (task, _) = sending(&mut cache);
    let (task, action) = tell(task, &mut cache, Event::Sent { answer: Ok(500) });
    let sent = submission(action);
    assert_eq!(sent.url, "http://localhost:8002/payments/process");
    assert_eq!(sent.correlation_id, "id-1");
    assert_eq!(sent.amount_bits, 19.9f64.to_bits());
    assert_eq!(cache.default.consecutive_failures, 1);
    assert_eq!(cache.fallback.consecutive_failures, 1);
    let (_, action) = tell(task, &mut cache, Event::Sent { answer: Ok(200) });
    assert_eq!(outcome(action), Outcome::Processed { processor: Processor::Fallback });
    assert_eq!(cache.default.consecutive_failures, 1);
    assert_eq!(cache.fallback.consecutive_failures, 0);
}

#[test]
fn a_payment_that_both_processors_fail_is_given_up() {
    let mut cache = fresh_cache();
    let (task, _) = sending(&mut cache);
    let (task, _) = tell(task, &mut cache, Event::Sent { answer: Ok(500) });
    let (_, action) = tell(task, &mut cache, Event::Sent { answer: Ok(500) });
    assert_eq!(outcome(action), Outcome::FailedByBoth);
    assert_eq!(cache.default.consecutive_failures, 1);
    assert_eq!(cache.fallback.consecutive_failures, 1);
}

#[test]
fn an_open_circuit_of_the_other_processor_strands_a_failed_payment() {
    let mut cache = fresh_cache();
    cache.fallback.consecutive_failures = 3;
    cache.fallback.circuit_open = true;
    let (task, _) = sending(&mut cache);
    let (_, action) = tell(task, &mut cache, Event::Sent { answer: Ok(500) });
    assert_eq!(outcome(action), Outcome::Stranded { processor: Processor::Default });
    assert_eq!(cache.default.consecutive_failures, 1);
    assert_eq!(cache.fallback.consecutive_failures, 3);
}

#[test]
fn three_failed_payments_open_the_circuit_and_divert_the_fourth() {
    let mut cache = fresh_cache();
    for _ in 0..3 {
        let (task, action) = sending(&mut cache);
        assert_eq!(submission(action).url, "http://localhost:8001/payments/process");
        let (task, _) = tell(task, &mut cache, Event::Sent { answer: Ok(500) });
        let (_, _) = tell(task, &mut cache, Event::Sent { answer: Ok(200) });
    }
    assert!(cache.default.circuit_open);
    assert_eq!(cache.default.last_circuit_check, NOW.secs);
    let (task, action) = sending(&mut cache);
    assert_eq!(submission(action).url, "http://localhost:8002/payments/process");
    let (_, action) = tell(task, &mut cache, Event::Sent { answer: Ok(500) });
    assert_eq!(outcome(action), Outcome::Stranded { processor: Processor::Fallback });
}

#[test]
fn interleaved_tasks_share_one_count() {
    let mut cache = fresh_cache();
    let (first, _) = sending(&mut cache);
    let (second, _) = sending(&mut cache);
    let (_, _) = tell(first, &mut cache, Event::Sent { answer: Ok(500) });
    assert_eq!(cache.default.consecutive_failures, 1);
    let (_, _) = tell(second, &mut cache, Event::Sent { answer: Ok(200) });
    assert_eq!(cache.default.consecutive_failures, 0);
}

#[test]
fn the_clock_is_read_at_each_step() {
    let mut cache = HealthCheckCache::new();
    let (task, _) = PaymentTask::start();
    let (task, _) =
        task.process_payment(&mut cache, Event::Popped { payment_data: "data".to_string() });
    let report = HealthCheckResponse { failing: false, min_response_time: 1 };
    let (task, _) = task
        .process_payment(&mut cache, Event::Checked { answer: Ok(200), body: Some(report) });
    let (task, _) = task
        .process_payment(&mut cache, Event::Checked { answer: Ok(200), body: Some(report) });
    assert!(cache.default.timestamp > 1_700_000_000);
    let (task, _) = task.process_payment(&mut cache, Event::Measured { queue_size: Some(0) });
    let (_, action) =
        task.process_payment(&mut cache, Event::Parsed { payment: Some(payment()) });
    let sent = submission(action);
    assert!(sent.requested_at.starts_with("20"));
    assert!(sent.requested_at.ends_with("+00:00"));
    assert!(chrono::DateTime::parse_from_rfc3339(&sent.requested_at).is_ok());
}

#[test]
fn a_payment_that_is_not_answered_is_a_failure() {
    let mut cache = fresh_cache();
    let (task, _) = sending(&mut cache);
    let silence = Event::Sent { answer: Err("connection refused".to_string()) };
    let (task, action) = tell(task, &mut cache, silence);
    assert_eq!(submission(action).url, "http://localhost:8002/payments/process");
    assert_eq!(cache.default.consecutive_failures, 1);
    let silence = Event::Sent { answer: Err("operation timed out".to_string()) };
    let (_, action) = tell(task, &mut cache, silence);
    assert_eq!(outcome(action), Outcome::FailedByBoth);
    assert_eq!(cache.fallback.consecutive_failures, 1);
}

#[test]
fn health_checks_that_bring_no_report_change_nothing() {
    let report = HealthCheckResponse { failing: true, min_response_time: 40 };
    let mut cache = HealthCheckCache::new();
    let (task, _) = PaymentTask::start();
    let (task, _) = tell(task, &mut cache, Event::Popped { payment_data: "data".to_string() });
    let refused = Event::Checked { answer: Ok(500), body: Some(report) };
    let (task, _) = tell(task, &mut cache, refused);
    let silence = Event::Checked { answer: Err("refused".to_string()), body: None };
    let (_, action) = tell(task, &mut cache, silence);
    assert!(matches!(action, Action::MeasureQueue { .. }));
    assert_eq!(cache, HealthCheckCache::new());
}

#[test]
fn only_a_task_without_a_payment_ends_in_an_error() {
    assert!(Outcome::NotPopped.is_error());
    assert!(Outcome::Unreadable.is_error());
    assert!(!Outcome::Processed { processor: Processor::Fallback }.is_error());
    assert!(!Outcome::Stranded { processor: Processor::Default }.is_error());
    assert!(!Outcome::FailedByBoth.is_error());
}
