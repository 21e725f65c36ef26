//! Synthetic-load publisher: generator workers feed a bounded queue, a single
//! dispatcher groups the records into size- or time-bounded batches, and a sink
//! publishes each batch to a broker topic.
//!
//! This crate holds the decisions of that pipeline, each with a contract:
//! the configuration and its validation, the generator workers' policy, the
//! dispatcher's state machine and the sink's batch policy. The threads, the
//! channel, the timer and the broker client are driven by the program around it.
use vstd::prelude::*;

pub mod config;
pub mod dispatcher;
pub mod generator;
pub mod shutdown;
pub mod sink;
pub mod text;

verus! {

/// How many records the queue between the workers and the dispatcher holds
/// before an enqueue blocks.
pub const QUEUE_CAPACITY: usize = 10000;

} // verus!
