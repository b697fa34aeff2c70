//! Lifecycle of a pooled, auto-reconnecting AMQP session.
//!
//! An external pooling engine drives four callbacks — `init`, `acquire`,
//! `release`, `close` — to turn a borrowed transport resource into an
//! authenticated broker connection, carve QoS-configured channels out of it,
//! and tear it down again. Every underlying failure is classified as
//! Recoverable (retry from a preserved `InitState`) or Fatal (abandon the
//! lifecycle), and a concurrently written liveness flag is consulted at every
//! hand-out and hand-back so a connection whose keep-alive task has died is
//! never served.

pub mod params;
pub mod liveness;
pub mod lifecycle;
pub mod laws;

pub use params::AmqpParams;
pub use params::AmqpUri;
