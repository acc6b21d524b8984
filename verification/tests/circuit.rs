use rinhudos_backend_2025::circuit::{
    can_close_circuit, can_close_circuit_at, choose_payment_processor, choose_payment_processor_at,
    increment_failure_count, increment_failure_count_at, reset_failure_count,
};
use rinhudos_backend_2025::health::{HealthCheckCache, PaymentProcessorState};
use rinhudos_backend_2025::processor::Processor;

fn opened(now: i64) -> HealthCheckCache {
    let mut cache = HealthCheckCache::new();
    for _ in 0..3 {
        increment_failure_count_at(&mut cache, &Processor::Default, now);
    }
    cache
}

#[test]
fn circuit_opens_at_the_third_failure() {
    let mut cache = HealthCheckCache::new();
    increment_failure_count_at(&mut cache, &Processor::Default, 100);
    increment_failure_count_at(&mut cache, &Processor::Default, 101);
    assert_eq!(cache.default.consecutive_failures, 2);
    assert!(!cache.default.circuit_open);
    assert_eq!(cache.default.last_circuit_check, 0);
    increment_failure_count_at(&mut cache, &Processor::Default, 102);
    assert_eq!(cache.default.consecutive_failures, 3);
    assert!(cache.default.circuit_open);
    assert_eq!(cache.default.last_circuit_check, 102);
    assert_eq!(cache.fallback, HealthCheckCache::new().fallback);
}

#[test]
fn a_further_failure_keeps_the_circuit_open_and_puts_the_test_off() {
    let mut cache = opened(100);
    increment_failure_count_at(&mut cache, &Processor::Default, 140);
    assert_eq!(cache.default.consecutive_failures, 4);
    assert!(cache.default.circuit_open);
    assert_eq!(cache.default.last_circuit_check, 140);
}

#[test]
fn counter_reaches_its_last_value() {
    let mut cache = HealthCheckCache::new();
    cache.fallback.consecutive_failures = u16::MAX - 1;
    increment_failure_count_at(&mut cache, &Processor::Fallback, 7);
    assert_eq!(cache.fallback.consecutive_failures, u16::MAX);
    assert!(cache.fallback.circuit_open);
}

#[test]
fn success_forgets_failures_and_closes_the_circuit() {
    let mut cache = opened(100);
    cache.default.failing = true;
    cache.default.min_response_time = 12;
    cache.default.timestamp = 99;
    reset_failure_count(&mut cache, &Processor::Default);
    assert_eq!(
        cache.default,
        PaymentProcessorState {
            failing: true,
            min_response_time: 12,
            timestamp: 99,
            consecutive_failures: 0,
            circuit_open: false,
            last_circuit_check: 100,
        }
    );
    let once = cache;
    reset_failure_count(&mut cache, &Processor::Default);
    assert_eq!(cache, once);
}

#[test]
fn counting_starts_again_after_a_success() {
    let mut cache = HealthCheckCache::new();
    increment_failure_count_at(&mut cache, &Processor::Fallback, 10);
    increment_failure_count_at(&mut cache, &Processor::Fallback, 11);
    reset_failure_count(&mut cache, &Processor::Fallback);
    increment_failure_count_at(&mut cache, &Processor::Fallback, 12);
    increment_failure_count_at(&mut cache, &Processor::Fallback, 13);
    assert_eq!(cache.fallback.consecutive_failures, 2);
    assert!(!cache.fallback.circuit_open);
}

#[test]
fn a_closed_circuit_is_not_tested() {
    let mut cache = HealthCheckCache::new();
    assert!(!can_close_circuit_at(&mut cache, &Processor::Default, 1_000_000));
    assert_eq!(cache, HealthCheckCache::new());
}

#[test]
fn an_open_circuit_is_tested_after_more_than_thirty_seconds() {
    let mut cache = opened(100);
    assert!(!can_close_circuit_at(&mut cache, &Processor::Default, 130));
    assert_eq!(cache.default.last_circuit_check, 100);
    assert!(can_close_circuit_at(&mut cache, &Processor::Default, 131));
    assert_eq!(cache.default.last_circuit_check, 131);
    assert!(cache.default.circuit_open);
    assert_eq!(cache.default.consecutive_failures, 3);
}

#[test]
fn tests_of_the_default_processor_are_spaced() {
    let mut cache = opened(100);
    assert_eq!(choose_payment_processor_at(&mut cache, 0, 110), Processor::Fallback);
    assert_eq!(choose_payment_processor_at(&mut cache, 0, 131), Processor::Default);
    assert_eq!(choose_payment_processor_at(&mut cache, 0, 131), Processor::Fallback);
    assert_eq!(choose_payment_processor_at(&mut cache, 0, 161), Processor::Fallback);
    assert_eq!(choose_payment_processor_at(&mut cache, 0, 162), Processor::Default);
}

#[test]
fn a_healthy_default_processor_is_chosen() {
    let mut cache = HealthCheckCache::new();
    assert_eq!(choose_payment_processor_at(&mut cache, 1_000, 5), Processor::Default);
    assert_eq!(cache, HealthCheckCache::new());
}

#[test]
fn a_failing_default_processor_is_spared() {
    let mut cache = HealthCheckCache::new();
    cache.default.failing = true;
    assert_eq!(choose_payment_processor_at(&mut cache, 0, 5), Processor::Fallback);
}

#[test]
fn a_slow_default_processor_is_spared_only_behind_a_long_queue() {
    let mut cache = HealthCheckCache::new();
    cache.default.min_response_time = 1001;
    assert_eq!(choose_payment_processor_at(&mut cache, 30, 5), Processor::Default);
    assert_eq!(choose_payment_processor_at(&mut cache, 31, 5), Processor::Fallback);
    cache.default.min_response_time = 1000;
    assert_eq!(choose_payment_processor_at(&mut cache, 31, 5), Processor::Default);
}

#[test]
fn the_fallback_processor_has_no_part_in_the_choice() {
    let mut cache = HealthCheckCache::new();
    cache.fallback.circuit_open = true;
    cache.fallback.failing = true;
    assert_eq!(choose_payment_processor_at(&mut cache, 0, 5), Processor::Default);
    cache.default.failing = true;
    assert_eq!(choose_payment_processor_at(&mut cache, 0, 5), Processor::Fallback);
}

#[test]
fn an_open_circuit_outweighs_a_good_report() {
    let mut cache = opened(100);
    cache.default.failing = false;
    assert_eq!(choose_payment_processor_at(&mut cache, 0, 105), Processor::Fallback);
    cache.default.failing = true;
    assert_eq!(choose_payment_processor_at(&mut cache, 0, 200), Processor::Default);
}

#[test]
fn the_clock_is_read_when_a_circuit_opens() {
    let mut cache = HealthCheckCache::new();
    for _ in 0..3 {
        increment_failure_count(&mut cache, &Processor::Default);
    }
    assert!(cache.default.circuit_open);
    assert!(cache.default.last_circuit_check > 1_700_000_000);
    assert!(!can_close_circuit(&mut cache, &Processor::Default));
    assert_eq!(choose_payment_processor(&mut cache, 0), Processor::Fallback);
}

#[test]
fn the_clock_is_read_when_a_circuit_is_tested() {
    let mut cache = opened(100);
    assert_eq!(choose_payment_processor(&mut cache, 0), Processor::Default);
    assert!(cache.default.last_circuit_check > 1_700_000_000);
}

#[test]
fn the_other_processor() {
    assert_eq!(Processor::Default.other(), Processor::Fallback);
    assert_eq!(Processor::Fallback.other(), Processor::Default);
}

#[test]
fn a_circuit_last_looked_at_before_the_epoch_is_tested() {
    let mut cache = HealthCheckCache::new();
    cache.fallback.circuit_open = true;
    cache.fallback.last_circuit_check = -1_000;
    assert!(can_close_circuit(&mut cache, &Processor::Fallback));
    assert!(cache.fallback.last_circuit_check > 1_700_000_000);
}
