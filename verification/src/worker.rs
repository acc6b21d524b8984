//! The workers behind the HTTP intake.
//!
//! One master takes payments from the intake. It tries one; if the processor takes it
//! promptly, the master wakes the slaves and sends on what else has come in, until a
//! payment fails or is slow. Payments that fail or are slow go to the retry queue. The
//! slaves take payments from the retry queue, one slave at a time, and put back the one
//! that fails or is slow.

use crate::http::{http_status, is_success, success_status};
use crate::payment::PaymentRequest;
use vstd::multiset::Multiset;
use vstd::prelude::*;

verus! {

/// Where the workers send payments.
pub const PAYMENTS_URL: &'static str = "http://localhost:8001/payments";

/// How long an answer to a payment is waited for, in milliseconds.
pub const REQUEST_TIMEOUT_MS: u64 = 1_000;

/// An answer that takes longer than this is slow, in milliseconds.
pub const TRIGGER_MS: u128 = 200;

/// How many payments the retry queue holds.
pub const RETRY_CAPACITY: usize = 10_000;

/// The period of the interval whose next tick the master awaits between rounds, in
/// seconds.
pub const ROUND_INTERVAL_SECS: u64 = 1;

/// How the sending of a payment ended.
#[derive(Debug, Clone, Copy, PartialEq, Eq, Structural)]
pub enum SendOutcome {
    /// The processor answered with `status`.
    Responded { status: u16 },
    /// The payment could not be sent, or no answer be read.
    RequestFailed,
    /// No answer came in time.
    TimedOut,
}

impl SendOutcome {
    /// Whether a status, if there is one, is an HTTP status.
    pub open spec fn valid(self) -> bool {
        self matches SendOutcome::Responded { status } ==> http_status(status)
    }

    /// Whether the processor took the payment.
    pub open spec fn accepted(self) -> bool {
        self matches SendOutcome::Responded { status } && success_status(status)
    }
}

/// Whether the processor took the payment, and no more slowly than `trigger_ms`.
pub open spec fn prompt(outcome: SendOutcome, duration_ms: u128, trigger_ms: u128) -> bool {
    outcome.accepted() && duration_ms <= trigger_ms
}

/// The service that sends payments: where to, and how long an answer is waited for.
#[derive(Debug)]
pub struct PaymentProcessorService {
    pub url: String,
    pub timeout_ms: u64,
}

/// How far the master has come.
#[derive(Debug)]
pub enum MasterPhase {
    /// It waits for a payment from the intake.
    Waiting,
    /// It waits for the answer to a payment: the first of a round, or a later one.
    Sending { payload: Vec<u8>, draining: bool },
    /// It is waking the slaves.
    Notifying,
    /// It is looking whether another payment has come in.
    Draining,
    /// It is putting a payment into the retry queue.
    Requeueing,
    /// It waits for the next tick of its interval.
    Resting,
    /// The intake is closed, and it has stopped.
    Stopped,
}

/// What the master is told.
#[derive(Debug)]
pub enum MasterEvent {
    /// `payload` came from the intake; it holds `payment`, or no payment.
    Received { payload: Vec<u8>, payment: Option<PaymentRequest> },
    /// No more payments will come from the intake, or, while draining, none has come.
    NothingReceived,
    /// The sending of a payment ended after `duration_ms` milliseconds.
    Sent { outcome: SendOutcome, duration_ms: u128 },
    /// The slaves have been woken.
    Notified,
    /// The payment has been offered to the retry queue.
    Requeued,
    /// Its interval has ticked.
    Ticked,
}

/// What the master asks for.
#[derive(Debug)]
pub enum MasterAction {
    /// Wait for a payment from the intake.
    Receive,
    /// Look whether a payment has come in.
    TryReceive,
    /// Send `payment`.
    Send { payment: PaymentRequest },
    /// Wake the slaves that are waiting.
    NotifySlaves,
    /// Put `payload` into the retry queue.
    Requeue { payload: Vec<u8> },
    /// Wait for the next tick of the interval.
    Tick,
    /// Do nothing more.
    Stop,
}

/// The master.
#[derive(Debug)]
pub struct Master {
    pub trigger_ms: u128,
    pub phase: MasterPhase,
}

/// How far a slave has come.
#[derive(Debug)]
pub enum SlavePhase {
    /// It waits to be woken.
    Idle,
    /// It waits for its turn at the retry queue.
    Locking,
    /// It waits for a payment from the retry queue.
    Receiving,
    /// It waits for the answer to a payment.
    Sending { payload: Vec<u8> },
    /// It is ending its turn at the retry queue, with a payment to put back or without.
    Unlocking { put_back: Option<Vec<u8>> },
    /// It is putting a payment back.
    Requeueing,
}

/// What a slave is told.
#[derive(Debug)]
pub enum SlaveEvent {
    /// It has been woken.
    Notified,
    /// It has its turn at the retry queue.
    Locked,
    /// `payload` came from the retry queue; it holds `payment`, or no payment.
    Received { payload: Vec<u8>, payment: Option<PaymentRequest> },
    /// No more payments will come from the retry queue.
    NothingReceived,
    /// The sending of a payment ended after `duration_ms` milliseconds.
    Sent { outcome: SendOutcome, duration_ms: u128 },
    /// Its turn at the retry queue has ended.
    Unlocked,
    /// The payment has been offered to the retry queue.
    Requeued,
}

/// What a slave asks for.
#[derive(Debug)]
pub enum SlaveAction {
    /// Wait to be woken.
    AwaitNotice,
    /// Wait for its turn at the retry queue.
    Lock,
    /// Wait for a payment from the retry queue.
    Receive,
    /// Send `payment`.
    Send { payment: PaymentRequest },
    /// End its turn at the retry queue.
    Unlock,
    /// Put `payload` back into the retry queue.
    Requeue { payload: Vec<u8> },
}

/// A slave.
#[derive(Debug)]
pub struct Slave {
    pub trigger_ms: u128,
    pub phase: SlavePhase,
}

/// The workers, and what they share.
#[derive(Debug)]
pub struct Workers {
    pub service: PaymentProcessorService,
    pub retry_capacity: usize,
    pub master: Master,
    pub slaves: Vec<Slave>,
}

/// Whether `event` is what a master in `phase` is waiting for.
pub open spec fn master_awaits(phase: MasterPhase, event: MasterEvent) -> bool {
    match phase {
        MasterPhase::Waiting => event is Received || event is NothingReceived,
        MasterPhase::Sending { .. } => event matches MasterEvent::Sent { outcome, .. }
            && outcome.valid(),
        MasterPhase::Notifying => event is Notified,
        MasterPhase::Draining => event is Received || event is NothingReceived,
        MasterPhase::Requeueing => event is Requeued,
        MasterPhase::Resting => event is Ticked,
        MasterPhase::Stopped => false,
    }
}

/// The phase of a master that was in `phase` and has been told of `event`.
pub open spec fn next_master_phase(
    phase: MasterPhase,
    event: MasterEvent,
    trigger_ms: u128,
) -> MasterPhase {
    match (phase, event) {
        (MasterPhase::Waiting, MasterEvent::Received { payload, payment }) => match payment {
            Some(_) => MasterPhase::Sending { payload, draining: false },
            None => MasterPhase::Resting,
        },
        (MasterPhase::Waiting, MasterEvent::NothingReceived) => MasterPhase::Stopped,
        (
            MasterPhase::Sending { draining, .. },
            MasterEvent::Sent { outcome, duration_ms },
        ) => if !prompt(outcome, duration_ms, trigger_ms) {
            MasterPhase::Requeueing
        } else if draining {
            MasterPhase::Draining
        } else {
            MasterPhase::Notifying
        },
        (MasterPhase::Notifying, MasterEvent::Notified) => MasterPhase::Draining,
        (MasterPhase::Draining, MasterEvent::Received { payload, payment }) => match payment {
            Some(_) => MasterPhase::Sending { payload, draining: true },
            None => MasterPhase::Draining,
        },
        (MasterPhase::Draining, MasterEvent::NothingReceived) => MasterPhase::Resting,
        (MasterPhase::Requeueing, MasterEvent::Requeued) => MasterPhase::Resting,
        (MasterPhase::Resting, MasterEvent::Ticked) => MasterPhase::Waiting,
        _ => phase,
    }
}

/// What a master asks for as it passes from `phase` to `next` on being told of `event`.
pub open spec fn next_master_action(
    phase: MasterPhase,
    event: MasterEvent,
    next: MasterPhase,
) -> MasterAction {
    match next {
        MasterPhase::Waiting => MasterAction::Receive,
        MasterPhase::Sending { .. } => MasterAction::Send {
            payment: event->Received_payment->Some_0,
        },
        MasterPhase::Notifying => MasterAction::NotifySlaves,
        MasterPhase::Draining => MasterAction::TryReceive,
        MasterPhase::Requeueing => MasterAction::Requeue { payload: phase->Sending_payload },
        MasterPhase::Resting => MasterAction::Tick,
        MasterPhase::Stopped => MasterAction::Stop,
    }
}

/// Whether `event` is what a slave in `phase` is waiting for.
pub open spec fn slave_awaits(phase: SlavePhase, event: SlaveEvent) -> bool {
    match phase {
        SlavePhase::Idle => event is Notified,
        SlavePhase::Locking => event is Locked,
        SlavePhase::Receiving => event is Received || event is NothingReceived,
        SlavePhase::Sending { .. } => event matches SlaveEvent::Sent { outcome, .. }
            && outcome.valid(),
        SlavePhase::Unlocking { .. } => event is Unlocked,
        SlavePhase::Requeueing => event is Requeued,
    }
}

/// The phase of a slave that was in `phase` and has been told of `event`.
pub open spec fn next_slave_phase(
    phase: SlavePhase,
    event: SlaveEvent,
    trigger_ms: u128,
) -> SlavePhase {
    match (phase, event) {
        (SlavePhase::Idle, SlaveEvent::Notified) => SlavePhase::Locking,
        (SlavePhase::Locking, SlaveEvent::Locked) => SlavePhase::Receiving,
        (SlavePhase::Receiving, SlaveEvent::Received { payload, payment }) => match payment {
            Some(_) => SlavePhase::Sending { payload },
            None => SlavePhase::Receiving,
        },
        (SlavePhase::Receiving, SlaveEvent::NothingReceived) => SlavePhase::Unlocking {
            put_back: None,
        },
        (
            SlavePhase::Sending { payload },
            SlaveEvent::Sent { outcome, duration_ms },
        ) => if prompt(outcome, duration_ms, trigger_ms) {
            SlavePhase::Receiving
        } else {
            SlavePhase::Unlocking { put_back: Some(payload) }
        },
        (SlavePhase::Unlocking { put_back }, SlaveEvent::Unlocked) => match put_back {
            Some(_) => SlavePhase::Requeueing,
            None => SlavePhase::Idle,
        },
        (SlavePhase::Requeueing, SlaveEvent::Requeued) => SlavePhase::Idle,
        _ => phase,
    }
}

/// What a slave asks for as it passes from `phase` to `next` on being told of `event`.
pub open spec fn next_slave_action(
    phase: SlavePhase,
    event: SlaveEvent,
    next: SlavePhase,
) -> SlaveAction {
    match next {
        SlavePhase::Idle => SlaveAction::AwaitNotice,
        SlavePhase::Locking => SlaveAction::Lock,
        SlavePhase::Receiving => SlaveAction::Receive,
        SlavePhase::Sending { .. } => SlaveAction::Send {
            payment: event->Received_payment->Some_0,
        },
        SlavePhase::Unlocking { .. } => SlaveAction::Unlock,
        SlavePhase::Requeueing => SlaveAction::Requeue {
            payload: phase->put_back->Some_0,
        },
    }
}

/// Whether the processor took the payment, and no more slowly than `trigger_ms`.
fn is_prompt(outcome: &SendOutcome, duration_ms: u128, trigger_ms: u128) -> (result: bool)
    requires
        outcome.valid(),
    ensures
        result == prompt(*outcome, duration_ms, trigger_ms),
{
    PaymentProcessorService::send_request(outcome) && duration_ms <= trigger_ms
}

impl PaymentProcessorService {
    /// The service of the default processor.
    pub fn new() -> (service: PaymentProcessorService)
        ensures
            service.url@ == PAYMENTS_URL@,
            service.timeout_ms == REQUEST_TIMEOUT_MS,
    {
        PaymentProcessorService { url: PAYMENTS_URL.to_owned(), timeout_ms: REQUEST_TIMEOUT_MS }
    }

    /// Whether the sending of a payment that ended in `outcome` succeeded: the processor
    /// answered, in time, and with a successful status.
    pub fn send_request(outcome: &SendOutcome) -> (success: bool)
        requires
            outcome.valid(),
        ensures
            success == outcome.accepted(),
    {
        match outcome {
            SendOutcome::Responded { status } => is_success(*status),
            SendOutcome::RequestFailed => false,
            SendOutcome::TimedOut => false,
        }
    }

    /// A master that has yet to receive its first payment; its first action is to wait for
    /// one.
    pub fn start_master(&self, trigger_ms: u128) -> (master: Master)
        ensures
            master == (Master { trigger_ms, phase: MasterPhase::Waiting }),
    {
        Master { trigger_ms, phase: MasterPhase::Waiting }
    }

    /// `worker_count` slaves that have yet to be woken, none if that is negative; the first
    /// action of each is to wait to be woken.
    pub fn start_slaves(&self, worker_count: i16, trigger_ms: u128) -> (slaves: Vec<Slave>)
        ensures
            slaves.len() == if worker_count > 0 {
                worker_count as int
            } else {
                0
            },
            forall|i: int|
                0 <= i < slaves.len() ==> #[trigger] slaves[i] == (Slave {
                    trigger_ms,
                    phase: SlavePhase::Idle,
                }),
    {
        let mut slaves: Vec<Slave> = Vec::new();
        let mut id: i16 = 0;
        while id < worker_count
            invariant
                0 <= id,
                worker_count > 0 ==> id <= worker_count,
                worker_count <= 0 ==> id == 0,
                slaves.len() == id,
                forall|i: int|
                    0 <= i < slaves.len() ==> #[trigger] slaves[i] == (Slave {
                        trigger_ms,
                        phase: SlavePhase::Idle,
                    }),
            decreases worker_count - id,
        {
            slaves.push(Slave { trigger_ms, phase: SlavePhase::Idle });
            id = id + 1;
        }
        slaves
    }
}

/// The workers at their start: one master, `worker_count` slaves, and a retry queue
/// between them.
pub fn create_workers(worker_count: i16) -> (workers: Workers)
    ensures
        workers.service.url@ == PAYMENTS_URL@,
        workers.service.timeout_ms == REQUEST_TIMEOUT_MS,
        workers.retry_capacity == RETRY_CAPACITY,
        workers.master == (Master { trigger_ms: TRIGGER_MS, phase: MasterPhase::Waiting }),
        workers.slaves.len() == if worker_count > 0 {
            worker_count as int
        } else {
            0
        },
        forall|i: int|
            0 <= i < workers.slaves.len() ==> #[trigger] workers.slaves[i] == (Slave {
                trigger_ms: TRIGGER_MS,
                phase: SlavePhase::Idle,
            }),
{
    let service = PaymentProcessorService::new();
    let master = service.start_master(TRIGGER_MS);
    let slaves = service.start_slaves(worker_count, TRIGGER_MS);
    Workers { service, retry_capacity: RETRY_CAPACITY, master, slaves }
}

impl Master {
    /// Tells the master of `event`, and has it ask for what it needs next.
    pub fn step(self, event: MasterEvent) -> (step: (Master, MasterAction))
        requires
            master_awaits(self.phase, event),
        ensures
            step.0.trigger_ms == self.trigger_ms,
            step.0.phase == next_master_phase(self.phase, event, self.trigger_ms),
            step.1 == next_master_action(self.phase, event, step.0.phase),
    {
        let trigger_ms: u128 = self.trigger_ms;
        let (phase, action) = match (self.phase, event) {
            (
                MasterPhase::Waiting,
                MasterEvent::Received { payload, payment: Some(payment) },
            ) => (
                MasterPhase::Sending { payload, draining: false },
                MasterAction::Send { payment },
            ),
            (MasterPhase::Waiting, MasterEvent::Received { payment: None, .. }) => (
                MasterPhase::Resting,
                MasterAction::Tick,
            ),
            (
                MasterPhase::Sending { payload, draining },
                MasterEvent::Sent { outcome, duration_ms },
            ) => {
                if !is_prompt(&outcome, duration_ms, trigger_ms) {
                    (MasterPhase::Requeueing, MasterAction::Requeue { payload })
                } else if draining {
                    (MasterPhase::Draining, MasterAction::TryReceive)
                } else {
                    (MasterPhase::Notifying, MasterAction::NotifySlaves)
                }
            },
            (MasterPhase::Notifying, _) => (MasterPhase::Draining, MasterAction::TryReceive),
            (
                MasterPhase::Draining,
                MasterEvent::Received { payload, payment: Some(payment) },
            ) => (
                MasterPhase::Sending { payload, draining: true },
                MasterAction::Send { payment },
            ),
            (MasterPhase::Draining, MasterEvent::Received { payment: None, .. }) => (
                MasterPhase::Draining,
                MasterAction::TryReceive,
            ),
            (MasterPhase::Draining, _) => (MasterPhase::Resting, MasterAction::Tick),
            (MasterPhase::Requeueing, _) => (MasterPhase::Resting, MasterAction::Tick),
            (MasterPhase::Resting, _) => (MasterPhase::Waiting, MasterAction::Receive),
            _ => (MasterPhase::Stopped, MasterAction::Stop),
        };
        (Master { trigger_ms, phase }, action)
    }
}

impl Slave {
    /// Tells the slave of `event`, and has it ask for what it needs next.
    pub fn step(self, event: SlaveEvent) -> (step: (Slave, SlaveAction))
        requires
            slave_awaits(self.phase, event),
        ensures
            step.0.trigger_ms == self.trigger_ms,
            step.0.phase == next_slave_phase(self.phase, event, self.trigger_ms),
            step.1 == next_slave_action(self.phase, event, step.0.phase),
    {
        let trigger_ms: u128 = self.trigger_ms;
        let (phase, action) = match (self.phase, event) {
            (SlavePhase::Idle, _) => (SlavePhase::Locking, SlaveAction::Lock),
            (SlavePhase::Locking, _) => (SlavePhase::Receiving, SlaveAction::Receive),
            (
                SlavePhase::Receiving,
                SlaveEvent::Received { payload, payment: Some(payment) },
            ) => (SlavePhase::Sending { payload }, SlaveAction::Send { payment }),
            (SlavePhase::Receiving, SlaveEvent::Received { payment: None, .. }) => (
                SlavePhase::Receiving,
                SlaveAction::Receive,
            ),
            (SlavePhase::Receiving, _) => (
                SlavePhase::Unlocking { put_back: None },
                SlaveAction::Unlock,
            ),
            (SlavePhase::Sending { payload }, SlaveEvent::Sent { outcome, duration_ms }) => {
                if is_prompt(&outcome, duration_ms, trigger_ms) {
                    (SlavePhase::Receiving, SlaveAction::Receive)
                } else {
                    (SlavePhase::Unlocking { put_back: Some(payload) }, SlaveAction::Unlock)
                }
            },
            (SlavePhase::Unlocking { put_back: Some(payload) }, _) => (
                SlavePhase::Requeueing,
                SlaveAction::Requeue { payload },
            ),
            _ => (SlavePhase::Idle, SlaveAction::AwaitNotice),
        };
        (Slave { trigger_ms, phase }, action)
    }
}

/// What has become of the payloads that a worker received.
#[verifier::ext_equal]
pub struct Ledger {
    /// Every payload that came in.
    pub received: Multiset<Seq<u8>>,
    /// Those whose payment the processor took promptly.
    pub settled: Multiset<Seq<u8>>,
    /// Those that went to the retry queue.
    pub requeued: Multiset<Seq<u8>>,
    /// Those that held no payment.
    pub discarded: Multiset<Seq<u8>>,
}

/// The ledger of a worker that has received nothing.
pub open spec fn empty_ledger() -> Ledger {
    Ledger {
        received: Multiset::empty(),
        settled: Multiset::empty(),
        requeued: Multiset::empty(),
        discarded: Multiset::empty(),
    }
}

impl Ledger {
    /// Whether every payload that came in is accounted for exactly once: it was settled,
    /// requeued or discarded, or is one of `in_hand`.
    pub open spec fn balanced(self, in_hand: Multiset<Seq<u8>>) -> bool {
        self.received =~= self.settled.add(self.requeued).add(self.discarded).add(in_hand)
    }

    /// This ledger after a payload came in, which holds a payment or none.
    pub open spec fn after_receipt(self, payload: Seq<u8>, readable: bool) -> Ledger {
        Ledger {
            received: self.received.insert(payload),
            discarded: if readable {
                self.discarded
            } else {
                self.discarded.insert(payload)
            },
            ..self
        }
    }

    /// This ledger after the payment in `payload` was taken promptly.
    pub open spec fn after_settling(self, payload: Seq<u8>) -> Ledger {
        Ledger { settled: self.settled.insert(payload), ..self }
    }

    /// This ledger after `payload` went to the retry queue.
    pub open spec fn after_requeueing(self, payload: Seq<u8>) -> Ledger {
        Ledger { requeued: self.requeued.insert(payload), ..self }
    }
}

/// The phase of a master after `events`.
pub open spec fn master_phase_after(events: Seq<MasterEvent>, trigger_ms: u128) -> MasterPhase
    decreases events.len(),
{
    if events.len() == 0 {
        MasterPhase::Waiting
    } else {
        next_master_phase(
            master_phase_after(events.drop_last(), trigger_ms),
            events.last(),
            trigger_ms,
        )
    }
}

/// What a master asks for at the last of `events`.
pub open spec fn last_master_action(events: Seq<MasterEvent>, trigger_ms: u128) -> MasterAction {
    next_master_action(
        master_phase_after(events.drop_last(), trigger_ms),
        events.last(),
        master_phase_after(events, trigger_ms),
    )
}

/// Whether each of `events` is something that the master is waiting for.
pub open spec fn master_orderly(events: Seq<MasterEvent>, trigger_ms: u128) -> bool
    decreases events.len(),
{
    events.len() > 0 ==> {
        &&& master_orderly(events.drop_last(), trigger_ms)
        &&& master_awaits(master_phase_after(events.drop_last(), trigger_ms), events.last())
    }
}

/// The payload whose payment a master in `phase` is sending.
pub open spec fn master_in_hand(phase: MasterPhase) -> Multiset<Seq<u8>> {
    match phase {
        MasterPhase::Sending { payload, .. } => Multiset::singleton(payload@),
        _ => Multiset::empty(),
    }
}

/// The ledger of a master after `events`, kept from what comes in, how sending ends, and
/// what the master asks to have requeued.
pub open spec fn master_ledger(events: Seq<MasterEvent>, trigger_ms: u128) -> Ledger
    decreases events.len(),
{
    if events.len() == 0 {
        empty_ledger()
    } else {
        let before = master_ledger(events.drop_last(), trigger_ms);
        match (events.last(), last_master_action(events, trigger_ms)) {
            (MasterEvent::Received { payload, payment }, _) => before.after_receipt(
                payload@,
                payment is Some,
            ),
            (_, MasterAction::Requeue { payload }) => before.after_requeueing(payload@),
            (MasterEvent::Sent { outcome, duration_ms }, _) if prompt(
                outcome,
                duration_ms,
                trigger_ms,
            ) => before.after_settling(
                master_phase_after(events.drop_last(), trigger_ms)->Sending_payload@,
            ),
            _ => before,
        }
    }
}

/// The master loses no payment and invents none: at any time, each payload that came in
/// has been settled by a prompt answer, or requeued, or discarded as unreadable, or is the
/// one that is being sent.
pub proof fn law_master_accounts_for_payloads(events: Seq<MasterEvent>, trigger_ms: u128)
    requires
        master_orderly(events, trigger_ms),
    ensures
        master_ledger(events, trigger_ms).balanced(
            master_in_hand(master_phase_after(events, trigger_ms)),
        ),
    decreases events.len(),
{
    if events.len() > 0 {
        law_master_accounts_for_payloads(events.drop_last(), trigger_ms);
    }
}

/// A payment goes to the retry queue exactly when sending it did not end promptly, and it
/// is the very payload that came in.
pub proof fn law_master_requeues_what_is_not_prompt(
    payload: Vec<u8>,
    draining: bool,
    outcome: SendOutcome,
    duration_ms: u128,
    trigger_ms: u128,
)
    ensures
        ({
            let phase = MasterPhase::Sending { payload, draining };
            let event = MasterEvent::Sent { outcome, duration_ms };
            let next = next_master_phase(phase, event, trigger_ms);
            let action = next_master_action(phase, event, next);
            &&& action is Requeue <==> !prompt(outcome, duration_ms, trigger_ms)
            &&& action is Requeue ==> action == (MasterAction::Requeue { payload })
        }),
{
}

/// The slaves are woken only when the first payment of a round was taken promptly.
pub proof fn law_slaves_are_woken_by_a_prompt_answer(events: Seq<MasterEvent>, trigger_ms: u128)
    requires
        events.len() > 0,
        master_orderly(events, trigger_ms),
    ensures
        last_master_action(events, trigger_ms) is NotifySlaves <==> {
            &&& master_phase_after(events.drop_last(), trigger_ms) matches MasterPhase::Sending {
                draining,
                ..
            }
            &&& !draining
            &&& events.last() matches MasterEvent::Sent { outcome, duration_ms }
            &&& prompt(outcome, duration_ms, trigger_ms)
        },
{
}

/// The master goes back to the intake exactly when its interval has ticked.
pub proof fn law_master_rests_between_rounds(events: Seq<MasterEvent>, trigger_ms: u128)
    requires
        events.len() > 0,
        master_orderly(events, trigger_ms),
    ensures
        last_master_action(events, trigger_ms) is Receive <==> events.last() is Ticked,
{
}

/// A payment that fails or is slow ends the round: the master requeues it, then rests, and
/// then waits for the next payment.
pub proof fn law_failure_ends_the_round(events: Seq<MasterEvent>, trigger_ms: u128)
    requires
        events.len() >= 3,
        master_orderly(events, trigger_ms),
        last_master_action(events.drop_last().drop_last(), trigger_ms) is Requeue,
    ensures
        last_master_action(events.drop_last(), trigger_ms) is Tick,
        last_master_action(events, trigger_ms) is Receive,
{
    reveal_with_fuel(master_phase_after, 3);
    reveal_with_fuel(master_orderly, 3);
}

/// The payloads that a master asks to have requeued in `events`, in their order.
pub open spec fn master_requeues(events: Seq<MasterEvent>, trigger_ms: u128) -> Seq<Seq<u8>>
    decreases events.len(),
{
    if events.len() == 0 {
        Seq::empty()
    } else {
        let before = master_requeues(events.drop_last(), trigger_ms);
        match last_master_action(events, trigger_ms) {
            MasterAction::Requeue { payload } => before.push(payload@),
            _ => before,
        }
    }
}

/// The payloads that came in and then failed or were slow, in the order in which they came.
pub open spec fn master_failures(events: Seq<MasterEvent>, trigger_ms: u128) -> Seq<Seq<u8>>
    decreases events.len(),
{
    if events.len() == 0 {
        Seq::empty()
    } else {
        let before = master_failures(events.drop_last(), trigger_ms);
        match events.last() {
            MasterEvent::Sent { outcome, duration_ms } if !prompt(
                outcome,
                duration_ms,
                trigger_ms,
            ) => before.push(events.drop_last().last()->Received_payload@),
            _ => before,
        }
    }
}

/// The master fills the retry queue in the order of the intake, with the payloads that
/// failed or were slow and with no others.
pub proof fn law_master_requeues_in_order(events: Seq<MasterEvent>, trigger_ms: u128)
    requires
        master_orderly(events, trigger_ms),
    ensures
        master_requeues(events, trigger_ms) == master_failures(events, trigger_ms),
    decreases events.len(),
{
    if events.len() > 0 {
        let before = events.drop_last();
        law_master_requeues_in_order(before, trigger_ms);
        if before.len() > 0 {
            reveal_with_fuel(master_orderly, 2);
            let phase = master_phase_after(before, trigger_ms);
            assert(phase matches MasterPhase::Sending { payload, .. } ==> before.last() is Received
                && before.last()->Received_payload == payload);
        }
    }
}

/// The payments that a master asks to have sent in `events`, in their order.
pub open spec fn master_sends(events: Seq<MasterEvent>, trigger_ms: u128) -> Seq<PaymentRequest>
    decreases events.len(),
{
    if events.len() == 0 {
        Seq::empty()
    } else {
        let before = master_sends(events.drop_last(), trigger_ms);
        match last_master_action(events, trigger_ms) {
            MasterAction::Send { payment } => before.push(payment),
            _ => before,
        }
    }
}

/// The payments that came from the intake in `events`, in their order.
pub open spec fn master_payments(events: Seq<MasterEvent>) -> Seq<PaymentRequest>
    decreases events.len(),
{
    if events.len() == 0 {
        Seq::empty()
    } else {
        let before = master_payments(events.drop_last());
        match events.last() {
            MasterEvent::Received { payment: Some(payment), .. } => before.push(payment),
            _ => before,
        }
    }
}

/// The master sends each payment that comes from the intake, once, in the order in which
/// they come, and sends nothing else.
pub proof fn law_master_sends_in_order(events: Seq<MasterEvent>, trigger_ms: u128)
    requires
        master_orderly(events, trigger_ms),
    ensures
        master_sends(events, trigger_ms) == master_payments(events),
    decreases events.len(),
{
    if events.len() > 0 {
        law_master_sends_in_order(events.drop_last(), trigger_ms);
    }
}

/// The phase of a slave after `events`.
pub open spec fn slave_phase_after(events: Seq<SlaveEvent>, trigger_ms: u128) -> SlavePhase
    decreases events.len(),
{
    if events.len() == 0 {
        SlavePhase::Idle
    } else {
        next_slave_phase(
            slave_phase_after(events.drop_last(), trigger_ms),
            events.last(),
            trigger_ms,
        )
    }
}

/// What a slave asks for at the last of `events`.
pub open spec fn last_slave_action(events: Seq<SlaveEvent>, trigger_ms: u128) -> SlaveAction {
    next_slave_action(
        slave_phase_after(events.drop_last(), trigger_ms),
        events.last(),
        slave_phase_after(events, trigger_ms),
    )
}

/// Whether each of `events` is something that the slave is waiting for.
pub open spec fn slave_orderly(events: Seq<SlaveEvent>, trigger_ms: u128) -> bool
    decreases events.len(),
{
    events.len() > 0 ==> {
        &&& slave_orderly(events.drop_last(), trigger_ms)
        &&& slave_awaits(slave_phase_after(events.drop_last(), trigger_ms), events.last())
    }
}

/// The payload that a slave in `phase` is sending, or is yet to put back.
pub open spec fn slave_in_hand(phase: SlavePhase) -> Multiset<Seq<u8>> {
    match phase {
        SlavePhase::Sending { payload } => Multiset::singleton(payload@),
        SlavePhase::Unlocking { put_back: Some(payload) } => Multiset::singleton(payload@),
        _ => Multiset::empty(),
    }
}

/// The ledger of a slave after `events`, kept from what comes in, how sending ends, and
/// what the slave asks to have put back.
pub open spec fn slave_ledger(events: Seq<SlaveEvent>, trigger_ms: u128) -> Ledger
    decreases events.len(),
{
    if events.len() == 0 {
        empty_ledger()
    } else {
        let before = slave_ledger(events.drop_last(), trigger_ms);
        match (events.last(), last_slave_action(events, trigger_ms)) {
            (SlaveEvent::Received { payload, payment }, _) => before.after_receipt(
                payload@,
                payment is Some,
            ),
            (_, SlaveAction::Requeue { payload }) => before.after_requeueing(payload@),
            (SlaveEvent::Sent { outcome, duration_ms }, _) if prompt(
                outcome,
                duration_ms,
                trigger_ms,
            ) => before.after_settling(
                slave_phase_after(events.drop_last(), trigger_ms)->Sending_payload@,
            ),
            _ => before,
        }
    }
}

/// A slave loses no payment and invents none: at any time, each payload that came in has
/// been settled by a prompt answer, or put back, or discarded as unreadable, or is the one
/// that is being sent or is about to be put back.
pub proof fn law_slave_accounts_for_payloads(events: Seq<SlaveEvent>, trigger_ms: u128)
    requires
        slave_orderly(events, trigger_ms),
    ensures
        slave_ledger(events, trigger_ms).balanced(
            slave_in_hand(slave_phase_after(events, trigger_ms)),
        ),
    decreases events.len(),
{
    if events.len() > 0 {
        law_slave_accounts_for_payloads(events.drop_last(), trigger_ms);
    }
}

/// The payments that a slave asks to have sent in `events`, in their order.
pub open spec fn slave_sends(events: Seq<SlaveEvent>, trigger_ms: u128) -> Seq<PaymentRequest>
    decreases events.len(),
{
    if events.len() == 0 {
        Seq::empty()
    } else {
        let before = slave_sends(events.drop_last(), trigger_ms);
        match last_slave_action(events, trigger_ms) {
            SlaveAction::Send { payment } => before.push(payment),
            _ => before,
        }
    }
}

/// The payments that came from the retry queue in `events`, in their order.
pub open spec fn slave_payments(events: Seq<SlaveEvent>) -> Seq<PaymentRequest>
    decreases events.len(),
{
    if events.len() == 0 {
        Seq::empty()
    } else {
        let before = slave_payments(events.drop_last());
        match events.last() {
            SlaveEvent::Received { payment: Some(payment), .. } => before.push(payment),
            _ => before,
        }
    }
}

/// A slave sends each payment that it takes from the retry queue, once, in the order in
/// which it takes them, and sends nothing else.
pub proof fn law_slave_sends_in_order(events: Seq<SlaveEvent>, trigger_ms: u128)
    requires
        slave_orderly(events, trigger_ms),
    ensures
        slave_sends(events, trigger_ms) == slave_payments(events),
    decreases events.len(),
{
    if events.len() > 0 {
        law_slave_sends_in_order(events.drop_last(), trigger_ms);
    }
}

/// The payloads that a slave asks to have put back in `events`, in their order.
pub open spec fn slave_requeues(events: Seq<SlaveEvent>, trigger_ms: u128) -> Seq<Seq<u8>>
    decreases events.len(),
{
    if events.len() == 0 {
        Seq::empty()
    } else {
        let before = slave_requeues(events.drop_last(), trigger_ms);
        match last_slave_action(events, trigger_ms) {
            SlaveAction::Requeue { payload } => before.push(payload@),
            _ => before,
        }
    }
}

/// The payloads that a slave took from the retry queue and that then failed or were slow, in
/// the order in which it took them.
pub open spec fn slave_failures(events: Seq<SlaveEvent>, trigger_ms: u128) -> Seq<Seq<u8>>
    decreases events.len(),
{
    if events.len() == 0 {
        Seq::empty()
    } else {
        let before = slave_failures(events.drop_last(), trigger_ms);
        match events.last() {
            SlaveEvent::Sent { outcome, duration_ms } if !prompt(
                outcome,
                duration_ms,
                trigger_ms,
            ) => before.push(events.drop_last().last()->Received_payload@),
            _ => before,
        }
    }
}

/// The payload that a slave in `phase` has yet to put back.
pub open spec fn slave_holds_back(phase: SlavePhase) -> Seq<Seq<u8>> {
    match phase {
        SlavePhase::Unlocking { put_back: Some(payload) } => seq![payload@],
        _ => seq![],
    }
}

/// A slave puts back the payloads that failed or were slow, in the order in which it took
/// them, and no others; the last of them may be one that it is about to put back.
pub proof fn law_slave_requeues_in_order(events: Seq<SlaveEvent>, trigger_ms: u128)
    requires
        slave_orderly(events, trigger_ms),
    ensures
        slave_failures(events, trigger_ms) == slave_requeues(events, trigger_ms)
            + slave_holds_back(slave_phase_after(events, trigger_ms)),
    decreases events.len(),
{
    if events.len() > 0 {
        let before = events.drop_last();
        law_slave_requeues_in_order(before, trigger_ms);
        if before.len() > 0 {
            reveal_with_fuel(slave_orderly, 2);
            let phase = slave_phase_after(before, trigger_ms);
            assert(phase matches SlavePhase::Sending { payload } ==> before.last() is Received
                && before.last()->Received_payload == payload);
        }
    }
}

/// How often a slave has had its turn at the retry queue without having ended it.
pub open spec fn turns_open(events: Seq<SlaveEvent>) -> int
    decreases events.len(),
{
    if events.len() == 0 {
        0
    } else {
        turns_open(events.drop_last()) + match events.last() {
            SlaveEvent::Locked => 1int,
            SlaveEvent::Unlocked => -1int,
            _ => 0int,
        }
    }
}

/// Whether a slave in `phase` has its turn at the retry queue.
pub open spec fn has_turn(phase: SlavePhase) -> bool {
    phase is Receiving || phase is Sending || phase is Unlocking
}

/// A slave takes its turn at the retry queue once at a time, and has ended it whenever it
/// asks to put a payment back or to wait to be woken. So no slave blocks the retry queue
/// while it waits for room in it.
pub proof fn law_slave_puts_back_after_its_turn(events: Seq<SlaveEvent>, trigger_ms: u128)
    requires
        slave_orderly(events, trigger_ms),
    ensures
        turns_open(events) == if has_turn(slave_phase_after(events, trigger_ms)) {
            1int
        } else {
            0int
        },
        events.len() > 0 && (last_slave_action(events, trigger_ms) is Requeue
            || last_slave_action(events, trigger_ms) is AwaitNotice) ==> turns_open(events) == 0,
        events.len() > 0 && (last_slave_action(events, trigger_ms) is Receive
            || last_slave_action(events, trigger_ms) is Unlock) ==> turns_open(events) == 1,
    decreases events.len(),
{
    if events.len() > 0 {
        law_slave_puts_back_after_its_turn(events.drop_last(), trigger_ms);
    }
}

/// Two slaves that share the retry queue, at which one has its turn at a time, are never
/// both receiving from it, sending a payment, or ending their turn.
pub proof fn law_one_slave_at_a_time(
    first: Seq<SlaveEvent>,
    second: Seq<SlaveEvent>,
    trigger_ms: u128,
)
    requires
        slave_orderly(first, trigger_ms),
        slave_orderly(second, trigger_ms),
        turns_open(first) + turns_open(second) <= 1,
    ensures
        !(has_turn(slave_phase_after(first, trigger_ms)) && has_turn(
            slave_phase_after(second, trigger_ms),
        )),
{
    law_slave_puts_back_after_its_turn(first, trigger_ms);
    law_slave_puts_back_after_its_turn(second, trigger_ms);
}

/// A payment is taken exactly when its processor answers with a status from 200 to 299, and
/// promptly when no more than the allowed time passed.
pub proof fn law_prompt_needs_a_successful_answer(
    status: u16,
    duration_ms: u128,
    trigger_ms: u128,
)
    ensures
        (SendOutcome::Responded { status }).accepted() <==> 200 <= status <= 299,
        !SendOutcome::RequestFailed.accepted(),
        !SendOutcome::TimedOut.accepted(),
        prompt(SendOutcome::Responded { status }, duration_ms, trigger_ms) <==> 200 <= status
            <= 299 && duration_ms <= trigger_ms,
        !prompt(SendOutcome::RequestFailed, duration_ms, trigger_ms),
        !prompt(SendOutcome::TimedOut, duration_ms, trigger_ms),
{
}

/// A master that is told that a payment was answered with a status outside 200 to 299, or
/// not at all, or too slowly, asks for its payload to be requeued, whether it is the first
/// of a round or a later one. One that is told of a successful answer in time wakes the
/// slaves after the first payment of a round, and looks for the next payment after a later
/// one.
pub proof fn law_master_requeues_what_was_not_taken(
    payload: Vec<u8>,
    draining: bool,
    outcome: SendOutcome,
    duration_ms: u128,
    trigger_ms: u128,
)
    ensures
        ({
            let phase = MasterPhase::Sending { payload, draining };
            let event = MasterEvent::Sent { outcome, duration_ms };
            let next = next_master_phase(phase, event, trigger_ms);
            let action = next_master_action(phase, event, next);
            let taken = duration_ms <= trigger_ms && (outcome matches SendOutcome::Responded {
                status,
            } && 200 <= status <= 299);
            &&& !taken ==> next is Requeueing && action == (MasterAction::Requeue { payload })
            &&& taken && !draining ==> next is Notifying && action is NotifySlaves
            &&& taken && draining ==> next is Draining && action is TryReceive
        }),
{
}

/// A master sends on every payload that holds a payment, and keeps the payload until it is
/// answered. One that holds none costs the master its round if it is the first, and nothing
/// if it is a later one.
pub proof fn law_master_sends_what_it_receives(
    payload: Vec<u8>,
    payment: PaymentRequest,
    trigger_ms: u128,
)
    ensures
        ({
            let readable = MasterEvent::Received { payload, payment: Some(payment) };
            let unreadable = MasterEvent::Received { payload, payment: None };
            let first = next_master_phase(MasterPhase::Waiting, readable, trigger_ms);
            let later = next_master_phase(MasterPhase::Draining, readable, trigger_ms);
            let skipped = next_master_phase(MasterPhase::Waiting, unreadable, trigger_ms);
            let passed = next_master_phase(MasterPhase::Draining, unreadable, trigger_ms);
            &&& first == (MasterPhase::Sending { payload, draining: false })
            &&& later == (MasterPhase::Sending { payload, draining: true })
            &&& next_master_action(MasterPhase::Waiting, readable, first) == (MasterAction::Send {
                payment,
            })
            &&& next_master_action(MasterPhase::Draining, readable, later) == (MasterAction::Send {
                payment,
            })
            &&& skipped is Resting
            &&& next_master_action(MasterPhase::Waiting, unreadable, skipped) is Tick
            &&& passed is Draining
            &&& next_master_action(MasterPhase::Draining, unreadable, passed) is TryReceive
        }),
{
}

/// The round of a master: once the slaves are woken it looks for more payments, when there
/// are none or one has been requeued it waits for the tick, after the tick it goes back to
/// the intake, and a closed intake stops it.
pub proof fn law_master_goes_round(trigger_ms: u128)
    ensures
        ({
            let woken = next_master_phase(
                MasterPhase::Notifying,
                MasterEvent::Notified,
                trigger_ms,
            );
            let drained = next_master_phase(
                MasterPhase::Draining,
                MasterEvent::NothingReceived,
                trigger_ms,
            );
            let requeued = next_master_phase(
                MasterPhase::Requeueing,
                MasterEvent::Requeued,
                trigger_ms,
            );
            let rested = next_master_phase(MasterPhase::Resting, MasterEvent::Ticked, trigger_ms);
            let closed = next_master_phase(
                MasterPhase::Waiting,
                MasterEvent::NothingReceived,
                trigger_ms,
            );
            &&& woken is Draining
            &&& drained is Resting
            &&& requeued is Resting
            &&& rested is Waiting
            &&& closed is Stopped
        }),
        forall|phase: MasterPhase, event: MasterEvent, next: MasterPhase|
            #![trigger next_master_action(phase, event, next)]
            {
                &&& next is Waiting ==> next_master_action(phase, event, next) is Receive
                &&& next is Notifying ==> next_master_action(phase, event, next) is NotifySlaves
                &&& next is Draining ==> next_master_action(phase, event, next) is TryReceive
                &&& next is Resting ==> next_master_action(phase, event, next) is Tick
                &&& next is Stopped ==> next_master_action(phase, event, next) is Stop
            },
{
}

/// A master can be told of whatever its last action can bring: any payload or none from the
/// intake, any HTTP status or no answer from the processor.
pub proof fn law_master_takes_every_event(
    payload: Vec<u8>,
    payment: Option<PaymentRequest>,
    draining: bool,
    status: u16,
    duration_ms: u128,
)
    ensures
        ({
            let sending = MasterPhase::Sending { payload, draining };
            let received = MasterEvent::Received { payload, payment };
            &&& master_awaits(MasterPhase::Waiting, received)
            &&& master_awaits(MasterPhase::Draining, received)
            &&& master_awaits(MasterPhase::Waiting, MasterEvent::NothingReceived)
            &&& master_awaits(MasterPhase::Draining, MasterEvent::NothingReceived)
            &&& 100 <= status <= 999 ==> master_awaits(
                sending,
                MasterEvent::Sent { outcome: SendOutcome::Responded { status }, duration_ms },
            )
            &&& master_awaits(
                sending,
                MasterEvent::Sent { outcome: SendOutcome::RequestFailed, duration_ms },
            )
            &&& master_awaits(
                sending,
                MasterEvent::Sent { outcome: SendOutcome::TimedOut, duration_ms },
            )
            &&& master_awaits(MasterPhase::Notifying, MasterEvent::Notified)
            &&& master_awaits(MasterPhase::Requeueing, MasterEvent::Requeued)
            &&& master_awaits(MasterPhase::Resting, MasterEvent::Ticked)
        }),
{
}

/// A slave that is told that a payment was answered with a status outside 200 to 299, or not
/// at all, or too slowly, ends its turn and then asks for that payload to be put back. One
/// that is told of a successful answer in time asks for the next payment.
pub proof fn law_slave_puts_back_what_was_not_taken(
    payload: Vec<u8>,
    outcome: SendOutcome,
    duration_ms: u128,
    trigger_ms: u128,
)
    ensures
        ({
            let phase = SlavePhase::Sending { payload };
            let event = SlaveEvent::Sent { outcome, duration_ms };
            let next = next_slave_phase(phase, event, trigger_ms);
            let action = next_slave_action(phase, event, next);
            let last = next_slave_phase(next, SlaveEvent::Unlocked, trigger_ms);
            let last_action = next_slave_action(next, SlaveEvent::Unlocked, last);
            let taken = duration_ms <= trigger_ms && (outcome matches SendOutcome::Responded {
                status,
            } && 200 <= status <= 299);
            &&& taken ==> next is Receiving && action is Receive
            &&& !taken ==> {
                &&& next is Unlocking
                &&& action is Unlock
                &&& last is Requeueing
                &&& last_action == (SlaveAction::Requeue { payload })
            }
        }),
{
}

/// A slave sends on every payload that holds a payment, keeps the payload until it is
/// answered, and passes over one that holds none.
pub proof fn law_slave_sends_what_it_receives(
    payload: Vec<u8>,
    payment: PaymentRequest,
    trigger_ms: u128,
)
    ensures
        ({
            let readable = SlaveEvent::Received { payload, payment: Some(payment) };
            let unreadable = SlaveEvent::Received { payload, payment: None };
            let sending = next_slave_phase(SlavePhase::Receiving, readable, trigger_ms);
            let passed = next_slave_phase(SlavePhase::Receiving, unreadable, trigger_ms);
            &&& sending == (SlavePhase::Sending { payload })
            &&& next_slave_action(SlavePhase::Receiving, readable, sending) == (SlaveAction::Send {
                payment,
            })
            &&& passed is Receiving
            &&& next_slave_action(SlavePhase::Receiving, unreadable, passed) is Receive
        }),
{
}

/// The way of a slave: once woken it waits for its turn, then for a payment; a closed queue
/// ends its turn; and when its turn has ended with nothing to put back, or a payment has been
/// put back, it waits to be woken again.
pub proof fn law_slave_goes_round(trigger_ms: u128)
    ensures
        ({
            let woken = next_slave_phase(SlavePhase::Idle, SlaveEvent::Notified, trigger_ms);
            let turned = next_slave_phase(SlavePhase::Locking, SlaveEvent::Locked, trigger_ms);
            let closed = next_slave_phase(
                SlavePhase::Receiving,
                SlaveEvent::NothingReceived,
                trigger_ms,
            );
            let ended = next_slave_phase(closed, SlaveEvent::Unlocked, trigger_ms);
            let requeued = next_slave_phase(
                SlavePhase::Requeueing,
                SlaveEvent::Requeued,
                trigger_ms,
            );
            &&& woken is Locking
            &&& turned is Receiving
            &&& closed is Unlocking
            &&& ended is Idle
            &&& requeued is Idle
        }),
        forall|phase: SlavePhase, event: SlaveEvent, next: SlavePhase|
            #![trigger next_slave_action(phase, event, next)]
            {
                &&& next is Idle ==> next_slave_action(phase, event, next) is AwaitNotice
                &&& next is Locking ==> next_slave_action(phase, event, next) is Lock
                &&& next is Receiving ==> next_slave_action(phase, event, next) is Receive
                &&& next is Unlocking ==> next_slave_action(phase, event, next) is Unlock
            },
{
}

/// A slave can be told of whatever its last action can bring: any payload or none from the
/// retry queue, any HTTP status or no answer from the processor.
pub proof fn law_slave_takes_every_event(
    payload: Vec<u8>,
    payment: Option<PaymentRequest>,
    put_back: Option<Vec<u8>>,
    status: u16,
    duration_ms: u128,
)
    ensures
        ({
            let sending = SlavePhase::Sending { payload };
            &&& slave_awaits(SlavePhase::Idle, SlaveEvent::Notified)
            &&& slave_awaits(SlavePhase::Locking, SlaveEvent::Locked)
            &&& slave_awaits(SlavePhase::Receiving, SlaveEvent::Received { payload, payment })
            &&& slave_awaits(SlavePhase::Receiving, SlaveEvent::NothingReceived)
            &&& 100 <= status <= 999 ==> slave_awaits(
                sending,
                SlaveEvent::Sent { outcome: SendOutcome::Responded { status }, duration_ms },
            )
            &&& slave_awaits(
                sending,
                SlaveEvent::Sent { outcome: SendOutcome::RequestFailed, duration_ms },
            )
            &&& slave_awaits(
                sending,
                SlaveEvent::Sent { outcome: SendOutcome::TimedOut, duration_ms },
            )
            &&& slave_awaits(SlavePhase::Unlocking { put_back }, SlaveEvent::Unlocked)
            &&& slave_awaits(SlavePhase::Requeueing, SlaveEvent::Requeued)
        }),
{
}

} // verus!
