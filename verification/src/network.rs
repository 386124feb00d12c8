//! A `Network` owns the tasks and devices spawned onto it: dropping the `Network` tells all of
//! them to stop.

use std::sync::atomic::{AtomicBool, Ordering};
use std::sync::Arc;
use vstd::prelude::*;

verus! {

/// A `Network` manages a set of tasks/devices. Dropping the `Network` will destroy all associated
/// tasks/devices.
pub struct Network {
    exit: Arc<AtomicBool>,
}

/// A handle to a `Network`.
pub struct NetworkHandle {
    exit: Arc<AtomicBool>,
}

impl Network {
    /// The flag that tells the network's tasks to stop.
    pub closed spec fn exit_flag(&self) -> Arc<AtomicBool> {
        self.exit
    }

    /// Create a new `Network`.
    pub fn new() -> (r: Network) {
        Network { exit: Arc::new(AtomicBool::new(false)) }
    }

    /// Get a handle to the network. Can be used to spawn tasks to the network.
    pub fn handle(&self) -> (r: NetworkHandle)
        ensures
            r.exit_flag() == self.exit_flag(),
    {
        NetworkHandle { exit: clone_flag(&self.exit) }
    }
}

impl NetworkHandle {
    /// The flag that tells the network's tasks to stop.
    pub closed spec fn exit_flag(&self) -> Arc<AtomicBool> {
        self.exit
    }

    /// Whether the network has been told to stop. Another thread may set the flag at any time,
    /// so nothing is stated of the result.
    pub fn exit_requested(&self) -> (r: bool) {
        self.exit.load(Ordering::Relaxed)
    }
}

impl Clone for NetworkHandle {
    fn clone(&self) -> (r: Self)
        ensures
            r.exit_flag() == self.exit_flag(),
    {
        NetworkHandle { exit: clone_flag(&self.exit) }
    }
}

/// Another handle to the same flag.
///
/// Calls `Arc::clone`, which returns a pointer to the same allocation.
#[verifier::external_body]
fn clone_flag(flag: &Arc<AtomicBool>) -> (r: Arc<AtomicBool>)
    ensures
        r == *flag,
{
    Arc::clone(flag)
}

/// Sets the flag.
///
/// Calls `AtomicBool::store(true, Ordering::Relaxed)`, which neither panics nor blocks.
#[verifier::external_body]
fn raise_flag(flag: &AtomicBool)
    opens_invariants none
    no_unwind
{
    flag.store(true, Ordering::Relaxed);
}

/// What a task spawned onto a network does next.
#[derive(Clone, Copy, Debug, PartialEq, Eq, Structural)]
pub enum TaskStep {
    /// Poll the task's future.
    Poll,
    /// Yield: the future is waiting.
    Wait,
    /// Stop: the network has been told to stop.
    Stop,
}

/// The next step of a spawned task. `exit_requested` is what the network's exit flag read;
/// `last_poll_pending` is `None` before the first poll of this wake-up, and otherwise whether the
/// last poll of the future was pending. A task keeps polling its future until the future waits
/// or the network stops; it stops only when the flag is set.
pub fn task_step(exit_requested: bool, last_poll_pending: Option<bool>) -> (r: TaskStep)
    ensures
        last_poll_pending == Some(true) ==> r is Wait,
        last_poll_pending != Some(true) ==> (r is Stop <==> exit_requested),
        last_poll_pending != Some(true) ==> (r is Poll <==> !exit_requested),
{
    match last_poll_pending {
        Some(true) => TaskStep::Wait,
        _ => {
            if exit_requested {
                TaskStep::Stop
            } else {
                TaskStep::Poll
            }
        },
    }
}

impl Drop for Network {
    fn drop(&mut self)
        opens_invariants none
        no_unwind
    {
        raise_flag(&self.exit);
    }
}

} // verus!
