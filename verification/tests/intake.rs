use rinhudos_backend_2025::api::{enqueue_payment, enqueue_reply, Intake};
use rinhudos_backend_2025::consumer::{consume, ConsumerAction, ConsumerEvent};
use rinhudos_backend_2025::payment::PaymentRequest;
use rinhudos_backend_2025::queue::redis_url;

#[test]
fn a_written_payment_goes_to_the_workers() {
    match enqueue_payment(Some(vec![1, 2, 3])) {
        Intake::Enqueue { payload } => assert_eq!(payload, vec![1, 2, 3]),
        Intake::Answer { .. } => panic!("the payment is refused"),
    }
}

#[test]
fn a_payment_that_cannot_be_written_is_refused() {
    match enqueue_payment(None) {
        Intake::Answer { reply } => {
            assert_eq!(reply.status, 400);
            assert_eq!(reply.body, "Invalid payment data");
        }
        Intake::Enqueue { .. } => panic!("nothing can be enqueued"),
    }
}

#[test]
fn an_enqueued_payment_is_accepted() {
    let reply = enqueue_reply(true);
    assert_eq!(reply.status, 202);
    assert_eq!(reply.body, "");
}

#[test]
fn a_payment_that_the_workers_do_not_take_is_an_error() {
    let reply = enqueue_reply(false);
    assert_eq!(reply.status, 500);
    assert_eq!(reply.body, "");
}

#[test]
fn the_consumer_takes_one_payment_per_connection() {
    assert!(matches!(consume(ConsumerEvent::Started), ConsumerAction::Connect));
    assert!(matches!(
        consume(ConsumerEvent::Connected),
        ConsumerAction::Pop { queue: "payment_queue" }
    ));
    match consume(ConsumerEvent::Popped { payment_json: "{}".to_string() }) {
        ConsumerAction::Parse { payment_json } => assert_eq!(payment_json, "{}"),
        _ => panic!("the entry is not read"),
    }
    let payment = PaymentRequest { correlation_id: "id".to_string(), amount_bits: 8 };
    match consume(ConsumerEvent::Parsed { payment: Some(payment) }) {
        ConsumerAction::Process { payment } => {
            assert_eq!(payment.correlation_id, "id");
            assert_eq!(payment.amount_bits, 8);
        }
        _ => panic!("the payment is not processed"),
    }
    assert!(matches!(consume(ConsumerEvent::Processed), ConsumerAction::Connect));
}

#[test]
fn the_consumer_pauses_after_an_error_of_the_server() {
    assert!(matches!(consume(ConsumerEvent::ConnectFailed), ConsumerAction::Sleep { secs: 5 }));
    assert!(matches!(consume(ConsumerEvent::PopFailed), ConsumerAction::Sleep { secs: 5 }));
    assert!(matches!(consume(ConsumerEvent::Slept), ConsumerAction::Connect));
}

#[test]
fn the_consumer_passes_over_what_holds_no_payment() {
    let action = consume(ConsumerEvent::Parsed { payment: None });
    assert!(matches!(action, ConsumerAction::Connect));
}

#[test]
fn the_configured_server_is_used() {
    assert_eq!(redis_url(Some("redis://q:1".to_string())), "redis://q:1");
    assert_eq!(redis_url(None), "redis://localhost:6379");
}
