use rinhudos_backend_2025::health::{
    get_processor_health, health_refresh_due, health_refresh_due_at, update_health_status,
    update_health_status_at, HealthCheckCache, HealthCheckResponse,
};
use rinhudos_backend_2025::http::{health_verdict, is_success_answer, payment_verdict};
use rinhudos_backend_2025::processor::Processor;

const REPORT: HealthCheckResponse = HealthCheckResponse { failing: true, min_response_time: 250 };

#[test]
fn a_new_cache_knows_nothing() {
    let cache = HealthCheckCache::new();
    for processor in [Processor::Default, Processor::Fallback] {
        let state = cache.get_state(&processor);
        assert!(!state.failing);
        assert_eq!(state.min_response_time, 0);
        assert_eq!(state.timestamp, 0);
        assert_eq!(state.consecutive_failures, 0);
        assert!(!state.circuit_open);
        assert_eq!(state.last_circuit_check, 0);
    }
}

#[test]
fn a_state_is_changed_in_place() {
    let mut cache = HealthCheckCache::new();
    cache.get_state_mut(&Processor::Fallback).min_response_time = 9;
    assert_eq!(cache.fallback.min_response_time, 9);
    assert_eq!(cache.default, HealthCheckCache::new().default);
    cache.get_state_mut(&Processor::Default).failing = true;
    assert!(cache.get_state(&Processor::Default).failing);
    assert!(!cache.get_state(&Processor::Fallback).failing);
}

#[test]
fn reports_are_due_at_first() {
    assert!(health_refresh_due_at(&HealthCheckCache::new(), 0));
    assert!(health_refresh_due_at(&HealthCheckCache::new(), 3));
    assert!(health_refresh_due(&HealthCheckCache::new()));
}

#[test]
fn reports_are_relied_on_for_five_seconds() {
    let mut cache = HealthCheckCache::new();
    update_health_status_at(&mut cache, Some(REPORT), None, 100);
    assert!(!health_refresh_due_at(&cache, 100));
    assert!(!health_refresh_due_at(&cache, 104));
    assert!(health_refresh_due_at(&cache, 105));
}

#[test]
fn a_report_of_the_fallback_processor_settles_nothing() {
    let mut cache = HealthCheckCache::new();
    update_health_status_at(&mut cache, None, Some(REPORT), 100);
    assert_eq!(cache.default, HealthCheckCache::new().default);
    assert!(cache.fallback.failing);
    assert_eq!(cache.fallback.min_response_time, 250);
    assert_eq!(cache.fallback.timestamp, 100);
    assert!(health_refresh_due_at(&cache, 101));
}

#[test]
fn a_missing_report_leaves_what_was_known() {
    let mut cache = HealthCheckCache::new();
    update_health_status_at(&mut cache, Some(REPORT), Some(REPORT), 100);
    let before = cache;
    update_health_status_at(&mut cache, None, None, 200);
    assert_eq!(cache, before);
}

#[test]
fn reports_leave_circuits_alone() {
    let mut cache = HealthCheckCache::new();
    cache.default.consecutive_failures = 3;
    cache.default.circuit_open = true;
    cache.default.last_circuit_check = 77;
    update_health_status_at(&mut cache, Some(REPORT), Some(REPORT), 100);
    assert_eq!(cache.default.consecutive_failures, 3);
    assert!(cache.default.circuit_open);
    assert_eq!(cache.default.last_circuit_check, 77);
    assert_eq!(cache.default.timestamp, 100);
}

#[test]
fn the_clock_is_read_when_reports_are_stored() {
    let mut cache = HealthCheckCache::new();
    update_health_status(&mut cache, Some(REPORT), None);
    assert!(cache.default.timestamp > 1_700_000_000);
    assert!(!health_refresh_due(&cache));
}

#[test]
fn addresses_of_the_processors() {
    assert_eq!(
        Processor::Default.health_url(),
        "http://localhost:8001/payments/service-health"
    );
    assert_eq!(
        Processor::Fallback.health_url(),
        "http://localhost:8002/payments/service-health"
    );
    assert_eq!(Processor::Default.process_url(), "http://localhost:8001/payments/process");
    assert_eq!(Processor::Fallback.process_url(), "http://localhost:8002/payments/process");
}

#[test]
fn successful_statuses() {
    for status in [200, 201, 204, 299] {
        assert_eq!(payment_verdict("p", &Ok(status)), Ok(()));
        assert_eq!(health_verdict(&Ok(status)), Ok(()));
    }
    for status in [100, 199, 300, 404, 500, 999] {
        assert!(payment_verdict("p", &Ok(status)).is_err());
        assert!(health_verdict(&Ok(status)).is_err());
    }
}

#[test]
fn a_payment_complaint_names_payment_and_status() {
    assert_eq!(
        payment_verdict("4a7901b8", &Ok(500)),
        Err("Failed to process payment 4a7901b8: 500 Internal Server Error".to_string())
    );
}

#[test]
fn a_health_complaint_names_the_status() {
    assert_eq!(
        health_verdict(&Ok(429)),
        Err("Health check failed with status: 429 Too Many Requests".to_string())
    );
    assert_eq!(
        health_verdict(&Ok(599)),
        Err("Health check failed with status: 599 <unknown status code>".to_string())
    );
}

#[test]
fn no_answer_is_an_error_that_says_why() {
    let answer = Err("operation timed out".to_string());
    assert!(!is_success_answer(&answer));
    assert_eq!(payment_verdict("4a7901b8", &answer), Err("operation timed out".to_string()));
    assert_eq!(health_verdict(&answer), Err("operation timed out".to_string()));
}

#[test]
fn a_health_check_brings_a_report_only_with_a_successful_answer() {
    assert_eq!(get_processor_health(&Ok(200), Some(REPORT)), Some(REPORT));
    assert_eq!(get_processor_health(&Ok(200), None), None);
    assert_eq!(get_processor_health(&Ok(503), Some(REPORT)), None);
    assert_eq!(get_processor_health(&Err("refused".to_string()), Some(REPORT)), None);
}
