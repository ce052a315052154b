//! The outcome of shutting the daemon's tasks down.

use vstd::prelude::*;

verus! {

/// Seconds the daemon waits for its tasks to stop.
pub const SHUTDOWN_TIMEOUT_SECS: u64 = 10;

/// How shutting down went.
#[derive(Debug, Clone, Copy, PartialEq, Eq, Structural)]
pub enum ShutdownResult {
    /// Every task stopped in time.
    Graceful,
    /// Time ran out with this many tasks still running.
    TimedOut { hung_tasks: usize },
}

/// Number of tasks not finished.
pub open spec fn unfinished(finished: Seq<bool>) -> nat
    decreases finished.len(),
{
    if finished.len() == 0 {
        0
    } else {
        unfinished(finished.drop_last()) + if finished.last() { 0nat } else { 1nat }
    }
}

proof fn lemma_unfinished_bound(finished: Seq<bool>)
    ensures
        unfinished(finished) <= finished.len(),
    decreases finished.len(),
{
    if finished.len() > 0 {
        lemma_unfinished_bound(finished.drop_last());
    }
}

/// The outcome once waiting ended: graceful when every task stopped in
/// time, else timed out with the number of tasks not finished.
pub fn shutdown_result(stopped_in_time: bool, finished: &Vec<bool>) -> (r: ShutdownResult)
    ensures
        stopped_in_time ==> (r == ShutdownResult::Graceful),
        !stopped_in_time ==> (r == (ShutdownResult::TimedOut { hung_tasks: unfinished(finished@) as usize })),
{
    if stopped_in_time {
        return ShutdownResult::Graceful;
    }
    let n = finished.len();
    let mut hung: usize = 0;
    let mut i: usize = 0;
    proof { assert(finished@.take(0) =~= Seq::<bool>::empty()); }
    while i < n
        invariant
            n == finished@.len(),
            i <= n,
            hung == unfinished(finished@.take(i as int)),
            hung <= i,
        decreases n - i,
    {
        proof {
            assert(finished@.take(i as int + 1).drop_last() =~= finished@.take(i as int));
            assert(finished@.take(i as int + 1).last() == finished@[i as int]);
        }
        if !finished[i] {
            hung = hung + 1;
        }
        i = i + 1;
    }
    proof { assert(finished@.take(n as int) =~= finished@); }
    ShutdownResult::TimedOut { hung_tasks: hung }
}

} // verus!
