//! Decision logic of a payment backend: a circuit breaker over two payment
//! processors, the orchestration of one payment, the retry workers behind the
//! HTTP intake, and a plain queue consumer.
//!
//! But for reading the clock, nothing here performs input or output. Every step
//! that waits for a queue, a socket or a lock is an action that this library asks
//! for, and what came back is an event that it is told of.

pub mod api;
pub mod circuit;
pub mod clock;
pub mod consumer;
pub mod health;
pub mod http;
pub mod orchestrator;
pub mod payment;
pub mod processor;
pub mod queue;
pub mod worker;
