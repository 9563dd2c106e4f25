use vstd::prelude::*;
use vstd::string::StringExecFns;

verus! {

/// The merge window handed to the backend with every heartbeat: the poll
/// interval plus one second. Strictly larger than the poll interval for
/// every interval, so two consecutive keep-alive heartbeats of an unchanged
/// activity always fall inside one window even when a tick is slightly late.
pub fn merge_window_ms(poll_ms: u32) -> (w: u64)
    ensures
        w == poll_ms + 1000,
        w > poll_ms,
{
    poll_ms as u64 + 1000
}

/// What the startup gate does next after one attempt to provision the
/// backend bucket.
#[derive(Clone, Copy, PartialEq, Eq, Structural, Debug)]
pub enum RetryDecision {
    /// The attempt succeeded: the poll loop may begin.
    Proceed,
    /// The attempt failed: try again after this many milliseconds.
    RetryAfter(u64),
}

/// The startup retry policy: retry on a fixed backoff until the first
/// success, with success as the only termination condition.
pub struct RetryPolicy {
    pub backoff_ms: u64,
}

impl RetryPolicy {
    pub fn new(backoff_ms: u64) -> (p: Self)
        ensures
            p.backoff_ms == backoff_ms,
    {
        RetryPolicy { backoff_ms }
    }

    /// Decide from one attempt's outcome: proceed exactly on success, and
    /// on failure wait the fixed backoff and try again.
    pub fn decide(&self, succeeded: bool) -> (d: RetryDecision)
        ensures
            succeeded ==> d == RetryDecision::Proceed,
            !succeeded ==> d == RetryDecision::RetryAfter(self.backoff_ms),
    {
        if succeeded {
            RetryDecision::Proceed
        } else {
            RetryDecision::RetryAfter(self.backoff_ms)
        }
    }
}

/// The bucket this watcher reports into: a fixed prefix joined to the host
/// name, so each machine gets a bucket of its own.
pub fn bucket_id(hostname: &str) -> (r: String)
    ensures
        r@ == "aw-watcher-window-rs_"@ + hostname@,
{
    let mut s = String::from_str("aw-watcher-window-rs_");
    s.append(hostname);
    s
}

} // verus!
