use rinhudos_backend_2025::payment::PaymentRequest;
use rinhudos_backend_2025::worker::{
    create_workers, Master, MasterAction, MasterEvent, MasterPhase, PaymentProcessorService,
    SendOutcome, Slave, SlaveAction, SlaveEvent, SlavePhase,
};

fn payment(id: &str) -> PaymentRequest {
    PaymentRequest { correlation_id: id.to_string(), amount_bits: 0 }
}

fn ok(duration_ms: u128) -> (SendOutcome, u128) {
    (SendOutcome::Responded { status: 200 }, duration_ms)
}

fn master_receives(master: Master, id: &str) -> Master {
    let event =
        MasterEvent::Received { payload: id.as_bytes().to_vec(), payment: Some(payment(id)) };
    let (master, action) = master.step(event);
    match action {
        MasterAction::Send { payment } => assert_eq!(payment.correlation_id, id),
        _ => panic!("the payment is not sent"),
    }
    master
}

fn master_sent(master: Master, sent: (SendOutcome, u128)) -> (Master, MasterAction) {
    master.step(MasterEvent::Sent { outcome: sent.0, duration_ms: sent.1 })
}

fn master_rests(master: Master) {
    let (master, action) = master.step(MasterEvent::Requeued);
    assert!(matches!(action, MasterAction::Tick));
    let (master, action) = master.step(MasterEvent::Ticked);
    assert!(matches!(action, MasterAction::Receive));
    assert!(matches!(master.phase, MasterPhase::Waiting));
}

fn slave_with_turn() -> Slave {
    let slave = Slave { trigger_ms: 200, phase: SlavePhase::Idle };
    let (slave, action) = slave.step(SlaveEvent::Notified);
    assert!(matches!(action, SlaveAction::Lock));
    let (slave, action) = slave.step(SlaveEvent::Locked);
    assert!(matches!(action, SlaveAction::Receive));
    slave
}

fn slave_receives(slave: Slave, id: &str) -> Slave {
    let event =
        SlaveEvent::Received { payload: id.as_bytes().to_vec(), payment: Some(payment(id)) };
    let (slave, action) = slave.step(event);
    match action {
        SlaveAction::Send { payment } => assert_eq!(payment.correlation_id, id),
        _ => panic!("the payment is not sent"),
    }
    slave
}

#[test]
fn workers_at_their_start() {
    let workers = create_workers(4);
    assert_eq!(workers.service.url, "http://localhost:8001/payments");
    assert_eq!(workers.service.timeout_ms, 1_000);
    assert_eq!(workers.retry_capacity, 10_000);
    assert_eq!(workers.master.trigger_ms, 200);
    assert!(matches!(workers.master.phase, MasterPhase::Waiting));
    assert_eq!(workers.slaves.len(), 4);
    for slave in &workers.slaves {
        assert_eq!(slave.trigger_ms, 200);
        assert!(matches!(slave.phase, SlavePhase::Idle));
    }
}

#[test]
fn no_slaves_for_a_count_that_is_not_positive() {
    let service = PaymentProcessorService::new();
    assert_eq!(service.start_slaves(0, 5).len(), 0);
    assert_eq!(service.start_slaves(-3, 5).len(), 0);
    assert_eq!(service.start_slaves(2, 5).len(), 2);
    assert_eq!(service.start_slaves(2, 5)[1].trigger_ms, 5);
    assert_eq!(service.start_master(7).trigger_ms, 7);
}

#[test]
fn only_a_successful_answer_is_a_success() {
    assert!(PaymentProcessorService::send_request(&SendOutcome::Responded { status: 204 }));
    assert!(!PaymentProcessorService::send_request(&SendOutcome::Responded { status: 422 }));
    assert!(!PaymentProcessorService::send_request(&SendOutcome::RequestFailed));
    assert!(!PaymentProcessorService::send_request(&SendOutcome::TimedOut));
}

#[test]
fn a_prompt_first_payment_wakes_the_slaves_and_starts_draining() {
    let master = PaymentProcessorService::new().start_master(200);
    let master = master_receives(master, "a");
    let (master, action) = master_sent(master, ok(200));
    assert!(matches!(action, MasterAction::NotifySlaves));
    let (master, action) = master.step(MasterEvent::Notified);
    assert!(matches!(action, MasterAction::TryReceive));
    let master = master_receives(master, "b");
    let (master, action) = master_sent(master, ok(1));
    assert!(matches!(action, MasterAction::TryReceive));
    let (master, action) = master.step(MasterEvent::NothingReceived);
    assert!(matches!(action, MasterAction::Tick));
    let (master, action) = master.step(MasterEvent::Ticked);
    assert!(matches!(action, MasterAction::Receive));
    let (master, action) = master.step(MasterEvent::NothingReceived);
    assert!(matches!(action, MasterAction::Stop));
    assert!(matches!(master.phase, MasterPhase::Stopped));
}

#[test]
fn a_slow_first_payment_is_requeued() {
    let master = master_receives(PaymentProcessorService::new().start_master(200), "a");
    let (master, action) = master_sent(master, ok(201));
    match action {
        MasterAction::Requeue { payload } => assert_eq!(payload, b"a".to_vec()),
        _ => panic!("the payment is lost"),
    }
    master_rests(master);
}

#[test]
fn a_failed_first_payment_is_requeued() {
    for outcome in [
        SendOutcome::Responded { status: 500 },
        SendOutcome::RequestFailed,
        SendOutcome::TimedOut,
    ] {
        let master = master_receives(PaymentProcessorService::new().start_master(200), "a");
        let (master, action) = master_sent(master, (outcome, 0));
        match action {
            MasterAction::Requeue { payload } => assert_eq!(payload, b"a".to_vec()),
            _ => panic!("the payment is lost"),
        }
        master_rests(master);
    }
}

#[test]
fn a_failure_while_draining_ends_the_round() {
    let master = master_receives(PaymentProcessorService::new().start_master(200), "a");
    let (master, _) = master_sent(master, ok(10));
    let (master, _) = master.step(MasterEvent::Notified);
    let master = master_receives(master, "b");
    let (master, action) = master_sent(master, (SendOutcome::TimedOut, 1_000));
    match action {
        MasterAction::Requeue { payload } => assert_eq!(payload, b"b".to_vec()),
        _ => panic!("the payment is lost"),
    }
    master_rests(master);
}

#[test]
fn the_master_passes_over_what_holds_no_payment() {
    let master = PaymentProcessorService::new().start_master(200);
    let (master, action) =
        master.step(MasterEvent::Received { payload: b"x".to_vec(), payment: None });
    assert!(matches!(action, MasterAction::Tick));
    let (master, _) = master.step(MasterEvent::Ticked);
    let master = master_receives(master, "a");
    let (master, _) = master_sent(master, ok(10));
    let (master, _) = master.step(MasterEvent::Notified);
    let (master, action) =
        master.step(MasterEvent::Received { payload: b"x".to_vec(), payment: None });
    assert!(matches!(action, MasterAction::TryReceive));
    assert!(matches!(master.phase, MasterPhase::Draining));
}

#[test]
fn a_slave_goes_on_while_answers_are_prompt() {
    let slave = slave_receives(slave_with_turn(), "a");
    let event = SlaveEvent::Sent { outcome: ok(0).0, duration_ms: 200 };
    let (slave, action) = slave.step(event);
    assert!(matches!(action, SlaveAction::Receive));
    let (slave, action) =
        slave.step(SlaveEvent::Received { payload: b"x".to_vec(), payment: None });
    assert!(matches!(action, SlaveAction::Receive));
    assert!(matches!(slave.phase, SlavePhase::Receiving));
}

#[test]
fn a_slave_ends_its_turn_before_it_puts_a_payment_back() {
    let slave = slave_receives(slave_with_turn(), "a");
    let event = SlaveEvent::Sent { outcome: ok(0).0, duration_ms: 201 };
    let (slave, action) = slave.step(event);
    assert!(matches!(action, SlaveAction::Unlock));
    let (slave, action) = slave.step(SlaveEvent::Unlocked);
    match action {
        SlaveAction::Requeue { payload } => assert_eq!(payload, b"a".to_vec()),
        _ => panic!("the payment is lost"),
    }
    let (slave, action) = slave.step(SlaveEvent::Requeued);
    assert!(matches!(action, SlaveAction::AwaitNotice));
    assert!(matches!(slave.phase, SlavePhase::Idle));
}

#[test]
fn a_failed_payment_goes_back_to_the_retry_queue() {
    let slave = slave_receives(slave_with_turn(), "a");
    let event = SlaveEvent::Sent { outcome: SendOutcome::RequestFailed, duration_ms: 0 };
    let (slave, _) = slave.step(event);
    let (_, action) = slave.step(SlaveEvent::Unlocked);
    assert!(matches!(action, SlaveAction::Requeue { .. }));
}

#[test]
fn a_slave_with_nothing_to_receive_goes_back_to_waiting() {
    let (slave, action) = slave_with_turn().step(SlaveEvent::NothingReceived);
    assert!(matches!(action, SlaveAction::Unlock));
    let (slave, action) = slave.step(SlaveEvent::Unlocked);
    assert!(matches!(action, SlaveAction::AwaitNotice));
    assert!(matches!(slave.phase, SlavePhase::Idle));
}

#[test]
fn the_master_requeues_in_the_order_of_the_intake() {
    let mut requeued: Vec<Vec<u8>> = Vec::new();
    let mut master = PaymentProcessorService::new().start_master(200);
    for (id, duration_ms) in [("a", 300), ("b", 10), ("c", 201), ("d", 900)] {
        let sending = master_receives(master, id);
        let (next, action) = master_sent(sending, ok(duration_ms));
        master = match action {
            MasterAction::Requeue { payload } => {
                requeued.push(payload);
                next.step(MasterEvent::Requeued).0
            }
            _ => next.step(MasterEvent::Notified).0.step(MasterEvent::NothingReceived).0,
        };
        master = master.step(MasterEvent::Ticked).0;
    }
    assert_eq!(requeued, vec![b"a".to_vec(), b"c".to_vec(), b"d".to_vec()]);
}

#[test]
fn a_slave_that_waits_for_its_turn_asks_for_no_payment() {
    let first = slave_with_turn();
    let second = Slave { trigger_ms: 200, phase: SlavePhase::Idle };
    let (second, action) = second.step(SlaveEvent::Notified);
    assert!(matches!(action, SlaveAction::Lock));
    let (first, _) = first.step(SlaveEvent::NothingReceived);
    let (_, action) = first.step(SlaveEvent::Unlocked);
    assert!(matches!(action, SlaveAction::AwaitNotice));
    let (_, action) = second.step(SlaveEvent::Locked);
    assert!(matches!(action, SlaveAction::Receive));
}

#[test]
fn a_slave_sends_in_the_order_of_the_retry_queue() {
    let mut slave = slave_with_turn();
    for id in ["a", "b", "c"] {
        let sending = slave_receives(slave, id);
        slave = sending.step(SlaveEvent::Sent { outcome: ok(0).0, duration_ms: 1 }).0;
    }
    assert!(matches!(slave.phase, SlavePhase::Receiving));
}
