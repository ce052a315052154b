//! Decisions of notification delivery: which channels are sent to together,
//! how a dispatch is summed up, and when a failed webhook is tried again.

use vstd::prelude::*;

verus! {

/// Outcome of sending one event to every enabled channel.
#[derive(Debug, PartialEq, Eq)]
pub struct DispatchSummary {
    pub total: usize,
    pub successes: usize,
    pub failures: usize,
    pub failed_channels: Vec<String>,
}

pub open spec fn texts(v: Seq<String>) -> Seq<Seq<char>> {
    v.map_values(|s: String| s@)
}

impl DispatchSummary {
    /// Sums up a dispatch to `total` channels of which those named in
    /// `failures` failed; successes do not go below zero.
    pub fn new(total: usize, failures: Vec<String>) -> (r: Self)
        ensures
            r.total == total,
            r.failures == failures@.len(),
            r.successes == if total >= failures@.len() { total - failures@.len() } else { 0 },
            r.failed_channels@ == failures@,
    {
        let n = failures.len();
        DispatchSummary { total, successes: total.saturating_sub(n), failures: n, failed_channels: failures }
    }
}

/// Why sending a notification failed.
#[derive(Debug)]
pub enum NotifyError {
    /// The channel refused or could not be reached.
    SendFailed { message: String },
    /// The channel did not answer within this time.
    Timeout { duration: std::time::Duration },
    /// The channel is configured wrongly.
    ConfigError { message: String },
}

/// What sending to one channel gave.
#[derive(Debug)]
pub struct ChannelOutcome {
    pub name: String,
    pub result: Result<(), NotifyError>,
}

/// Names of the channels whose send failed, in order.
pub open spec fn failed_names(outcomes: Seq<ChannelOutcome>) -> Seq<Seq<char>>
    decreases outcomes.len(),
{
    if outcomes.len() == 0 {
        seq![]
    } else {
        let rest = failed_names(outcomes.drop_last());
        if outcomes.last().result is Err { rest.push(outcomes.last().name@) } else { rest }
    }
}

/// Sums up a dispatch to `total` enabled channels from the outcomes of the
/// sends, in the order they were made.
pub fn dispatch_summary(total: usize, outcomes: &Vec<ChannelOutcome>) -> (r: DispatchSummary)
    ensures
        r.total == total,
        texts(r.failed_channels@) == failed_names(outcomes@),
        r.failures == failed_names(outcomes@).len(),
        r.successes == if total >= r.failures { total - r.failures } else { 0 },
{
    let n = outcomes.len();
    let mut failures: Vec<String> = Vec::new();
    let mut i: usize = 0;
    proof { assert(outcomes@.take(0) =~= Seq::<ChannelOutcome>::empty()); }
    while i < n
        invariant
            n == outcomes@.len(),
            i <= n,
            texts(failures@) == failed_names(outcomes@.take(i as int)),
        decreases n - i,
    {
        proof {
            assert(outcomes@.take(i as int + 1).drop_last() =~= outcomes@.take(i as int));
            assert(outcomes@.take(i as int + 1).last() == outcomes@[i as int]);
        }
        if outcomes[i].result.is_err() {
            let ghost before = texts(failures@);
            failures.push(outcomes[i].name.clone());
            proof { assert(texts(failures@) =~= before.push(outcomes@[i as int].name@)); }
        }
        i = i + 1;
    }
    proof { assert(outcomes@.take(n as int) =~= outcomes@); }
    DispatchSummary::new(total, failures)
}

/// Most channels sent to at once.
pub const BATCH_SIZE: usize = 4;

/// Indices of the enabled channels, in order.
pub open spec fn enabled_indices(enabled: Seq<bool>, n: int) -> Seq<usize>
    decreases n,
{
    if n <= 0 {
        seq![]
    } else if enabled[n - 1] {
        enabled_indices(enabled, n - 1).push((n - 1) as usize)
    } else {
        enabled_indices(enabled, n - 1)
    }
}

pub open spec fn flatten(b: Seq<Vec<usize>>) -> Seq<usize>
    decreases b.len(),
{
    if b.len() == 0 {
        seq![]
    } else {
        flatten(b.drop_last()) + b.last()@
    }
}

/// The enabled channels (by index), cut in order into batches of
/// [`BATCH_SIZE`]; only the last batch may be smaller, and none is empty.
pub fn dispatch_batches(enabled: &Vec<bool>) -> (r: Vec<Vec<usize>>)
    ensures
        flatten(r@) == enabled_indices(enabled@, enabled@.len() as int),
        forall|k: int| 0 <= k < r@.len() ==> 0 < (#[trigger] r@[k])@.len() <= BATCH_SIZE,
        forall|k: int| 0 <= k < r@.len() - 1 ==> (#[trigger] r@[k])@.len() == BATCH_SIZE,
{
    let n = enabled.len();
    let mut batches: Vec<Vec<usize>> = Vec::new();
    let mut cur: Vec<usize> = Vec::new();
    let mut i: usize = 0;
    while i < n
        invariant
            n == enabled@.len(),
            i <= n,
            flatten(batches@) + cur@ == enabled_indices(enabled@, i as int),
            cur@.len() < BATCH_SIZE,
            forall|k: int| 0 <= k < batches@.len() ==> (#[trigger] batches@[k])@.len() == BATCH_SIZE,
        decreases n - i,
    {
        if enabled[i] {
            cur.push(i);
            proof {
                assert(flatten(batches@) + cur@ =~= (flatten(batches@) + cur@.drop_last()).push(i));
            }
            if cur.len() == BATCH_SIZE {
                let ghost ob = batches@;
                let ghost oc = cur@;
                batches.push(cur);
                cur = Vec::new();
                proof {
                    assert(batches@.drop_last() =~= ob);
                    assert(flatten(batches@) == flatten(ob) + oc);
                    assert(flatten(batches@) + cur@ =~= enabled_indices(enabled@, i as int + 1));
                }
            }
        }
        i = i + 1;
    }
    if cur.len() > 0 {
        let ghost ob = batches@;
        let ghost oc = cur@;
        batches.push(cur);
        proof {
            assert(batches@.drop_last() =~= ob);
            assert(flatten(batches@) == flatten(ob) + oc);
        }
    } else {
        proof { assert(flatten(batches@) + cur@ =~= flatten(batches@)); }
    }
    batches
}

/// Delays, in seconds, before the retries of a failed webhook delivery.
pub open spec fn webhook_backoff(attempt: nat) -> Option<u64> {
    if attempt == 0 {
        Some(1)
    } else if attempt == 1 {
        Some(2)
    } else if attempt == 2 {
        Some(4)
    } else {
        None
    }
}

pub open spec fn doubled(o: Option<u64>) -> Option<u64> {
    match o {
        Some(c) => Some((2 * c) as u64),
        None => None,
    }
}

/// A failed webhook is tried again three times, each wait twice as long as
/// the one before.
pub proof fn lemma_backoff_doubles()
    ensures
        webhook_backoff(0) == Some(1u64),
        forall|k: nat| k < 2 ==> (#[trigger] webhook_backoff(k + 1)) == doubled(webhook_backoff(k)),
        forall|k: nat| k >= 3 ==> #[trigger] webhook_backoff(k) is None,
{
    assert forall|k: nat| k < 2 implies (#[trigger] webhook_backoff(k + 1)) == doubled(webhook_backoff(k)) by {
        if k == 0 {
            assert(webhook_backoff(1) == Some(2u64));
        } else {
            assert(webhook_backoff(2) == Some(4u64));
        }
    }
}

/// After the `failures`-th failed delivery of a webhook (counting from 1),
/// how long to wait before trying again: 1, 2 then 4 seconds; after the
/// fourth failure there is no further try.
pub fn webhook_retry_delay(failures: u32) -> (r: Option<u64>)
    requires
        failures >= 1,
    ensures
        r == webhook_backoff((failures - 1) as nat),
{
    if failures == 1 {
        Some(1)
    } else if failures == 2 {
        Some(2)
    } else if failures == 3 {
        Some(4)
    } else {
        None
    }
}

} // verus!
