//! A durable job queue for long-running media processing, and the rules
//! of the course platform around it.
//!
//! Jobs are keyed by the entity they process. A job is accepted by
//! [`store::JobStore::enqueue`], claimed for execution by an atomic
//! transition from `Pending` to `Processing`, and finalized once by the
//! worker that holds the claim.
//!
//! - [`status`], [`job`]: the statuses and the records.
//! - [`model`]: the queue as a sequence of records, and its transitions.
//! - [`store`]: the store that carries them out.
//! - [`worker`]: one job's pipeline as a state machine.
//! - [`dispatch`]: the request that accepts a job, and the periodic sweep.
//! - [`tasks`]: the endpoints over the queue.
//! - [`source`], [`provider`]: where a lesson's media lies, how the
//!   provider is reached, and what its answers amount to.
//! - [`laws`], [`lemmas`]: what holds of the queue, and the facts behind it.
//! - [`payloads`], [`webhook`], [`text`]: request bodies of the platform's
//!   other endpoints with their rules, webhook signatures, and text
//!   operations.

pub mod dispatch;
pub mod job;
pub mod laws;
pub mod lemmas;
pub mod model;
pub mod payloads;
pub mod provider;
pub mod source;
pub mod status;
pub mod store;
pub mod tasks;
pub mod text;
pub mod webhook;
pub mod worker;
