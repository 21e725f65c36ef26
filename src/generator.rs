//! The generator workers' policy: how many run, and what each does after an
//! attempt to enqueue a record.
use vstd::prelude::*;

verus! {

/// Relies on `num_cpus::get_physical`, which documents that it always
/// returns at least 1.
#[verifier::external_body]
fn physical_cores() -> (r: usize)
    ensures
        r >= 1,
{
    num_cpus::get_physical()
}

/// The worker count for a machine with `physical` cores: one core is left to
/// the dispatcher, and at least one worker always runs.
pub open spec fn worker_count_spec(physical: nat) -> nat {
    if physical > 1 {
        (physical - 1) as nat
    } else {
        1
    }
}

pub fn worker_count(physical: usize) -> (r: usize)
    ensures
        r == worker_count_spec(physical as nat),
{
    if physical > 1 {
        physical - 1
    } else {
        1
    }
}

/// The number of generator workers to start on this machine.
pub fn available_cores() -> (r: usize)
    ensures
        r >= 1,
{
    worker_count(physical_cores())
}

/// What a worker does after trying to enqueue a record.
#[derive(Debug, Clone, Copy, PartialEq, Eq, Structural)]
pub enum WorkerAction {
    /// Generate the next record at once.
    Produce,
    /// Sleep this many milliseconds, then generate the next record.
    Pause(u64),
    /// The queue's reader is gone, or the worker was cancelled: return.
    Stop,
}

/// The worker's decision once the enqueue returned: `sent` is false when the
/// reader side of the queue is gone; `cancelled` is the worker's cancellation
/// token; `throttle` is the configured delay, if any.
pub open spec fn after_send_spec(sent: bool, cancelled: bool, throttle: Option<u64>) -> WorkerAction {
    if !sent || cancelled {
        WorkerAction::Stop
    } else {
        match throttle {
            Some(ms) => WorkerAction::Pause(ms),
            None => WorkerAction::Produce,
        }
    }
}

pub fn after_send(sent: bool, cancelled: bool, throttle: Option<u64>) -> (r: WorkerAction)
    ensures
        r == after_send_spec(sent, cancelled, throttle),
{
    if !sent || cancelled {
        WorkerAction::Stop
    } else {
        match throttle {
            Some(ms) => WorkerAction::Pause(ms),
            None => WorkerAction::Produce,
        }
    }
}

} // verus!
