//! De-duplication of repeated failure logs in the reconnect loop.
//!
//! A failure class (websocket connect, login, onboarding) keeps a
//! [`RetryLogState`]. Every failure is counted; a failure is reported
//! (its retry count handed back for logging) when it is the first
//! since the last reset, when the count is a multiple of
//! [`RETRY_LOG_EVERY`], or when at least [`RETRY_LOG_INTERVAL_NANOS`]
//! have passed since the last report.
//!
//! Times are readings of a monotonic clock in nanoseconds.
use vstd::prelude::*;

verus! {

/// A repeated failure is reported at least every this many failures.
pub const RETRY_LOG_EVERY: u64 = 12;

/// A repeated failure is reported once this many nanoseconds (60 s)
/// have passed since the last report.
pub const RETRY_LOG_INTERVAL_NANOS: u64 = 60_000_000_000;

/// Time elapsed from `earlier` to `later`, saturating at zero when the
/// clock reading `later` is the earlier of the two.
pub open spec fn elapsed_since(later: u64, earlier: u64) -> nat {
    if later >= earlier {
        (later - earlier) as nat
    } else {
        0
    }
}

/// The abstract state of a failure class: how many failures happened
/// since the last reset, and when one was last reported.
pub struct RetryLog {
    pub failures: nat,
    pub last_logged_at: Option<u64>,
}

impl RetryLog {
    /// The state after construction or a reset.
    pub open spec fn initial() -> RetryLog {
        RetryLog { failures: 0, last_logged_at: None }
    }

    /// Whether the failure that brings the count to `failures` is reported at `now`.
    pub open spec fn should_log(failures: nat, last_logged_at: Option<u64>, now: u64) -> bool {
        ||| failures == 1
        ||| failures % (RETRY_LOG_EVERY as nat) == 0
        ||| (last_logged_at matches Some(last) && elapsed_since(now, last)
            >= RETRY_LOG_INTERVAL_NANOS)
    }

    /// What `record_failure(now)` hands back in this state.
    pub open spec fn report(self, now: u64) -> Option<nat> {
        let failures = self.failures + 1;
        if RetryLog::should_log(failures, self.last_logged_at, now) {
            Some(failures)
        } else {
            None
        }
    }

    /// The state after `record_failure(now)`.
    pub open spec fn after_failure(self, now: u64) -> RetryLog {
        let failures = self.failures + 1;
        RetryLog {
            failures,
            last_logged_at: if RetryLog::should_log(failures, self.last_logged_at, now) {
                Some(now)
            } else {
                self.last_logged_at
            },
        }
    }

    /// No report is on record exactly when no failure is counted.
    pub open spec fn wf(self) -> bool {
        (self.failures == 0) == (self.last_logged_at is None)
    }

    /// The state after a failure at each of `times`, in order.
    pub open spec fn after_failures(self, times: Seq<u64>) -> RetryLog
        decreases times.len(),
    {
        if times.len() == 0 {
            self
        } else {
            self.after_failures(times.drop_last()).after_failure(times.last())
        }
    }
}

/// Failure counter of one failure class of the reconnect loop.
pub struct RetryLogState {
    failures: u64,
    last_logged_at: Option<u64>,
}

impl View for RetryLogState {
    type V = RetryLog;

    closed spec fn view(&self) -> RetryLog {
        RetryLog { failures: self.failures as nat, last_logged_at: self.last_logged_at }
    }
}

impl RetryLogState {
    #[verifier::type_invariant]
    closed spec fn inv(self) -> bool {
        self@.wf()
    }

    /// A state with no failure counted.
    pub fn new() -> (state: RetryLogState)
        ensures
            state@ == RetryLog::initial(),
    {
        RetryLogState { failures: 0, last_logged_at: None }
    }

    /// The number of failures counted since the last reset.
    pub fn failures(&self) -> (n: u64)
        ensures
            n == self@.failures,
    {
        self.failures
    }

    /// When a failure was last reported, if one was since the last reset.
    pub fn last_logged_at(&self) -> (t: Option<u64>)
        ensures
            t == self@.last_logged_at,
    {
        self.last_logged_at
    }

    /// Counts a failure at clock reading `now` (nanoseconds). Returns the
    /// retry count when this failure is to be logged, `None` when it is
    /// to stay silent.
    pub fn record_failure(&mut self, now: u64) -> (logged: Option<u64>)
        requires
            old(self)@.failures < u64::MAX,
        ensures
            final(self)@ == old(self)@.after_failure(now),
            logged matches Some(n) ==> old(self)@.report(now) == Some(n as nat),
            logged is None ==> old(self)@.report(now) is None,
    {
        proof {
            use_type_invariant(&*self);
        }
        let failures = self.failures + 1;
        let since_last = match self.last_logged_at {
            Some(last) => Some(if now >= last { now - last } else { 0 }),
            None => None,
        };
        let should_log = failures == 1 || failures % RETRY_LOG_EVERY == 0 || match since_last {
            Some(elapsed) => elapsed >= RETRY_LOG_INTERVAL_NANOS,
            None => false,
        };
        if should_log {
            *self = RetryLogState { failures, last_logged_at: Some(now) };
            Some(failures)
        } else {
            *self = RetryLogState { failures, last_logged_at: self.last_logged_at };
            None
        }
    }

    /// Forgets every counted failure and the last report.
    pub fn reset(&mut self)
        ensures
            final(self)@ == RetryLog::initial(),
    {
        *self = RetryLogState { failures: 0, last_logged_at: None };
    }
}

impl Default for RetryLogState {
    fn default() -> (state: RetryLogState)
        ensures
            state@ == RetryLog::initial(),
    {
        RetryLogState::new()
    }
}

/// The whole logging policy of one failure, in plain terms: the failure
/// is counted; it is reported, with the new count as retry count and
/// `now` as the last report, exactly when it is the first failure, its
/// count is a multiple of 12, or at least 60 s have passed on the clock
/// since the last report. Any other failure stays silent and leaves the
/// last report as it was, however many failures came before.
pub proof fn lemma_failure_log_policy(s: RetryLog, now: u64)
    ensures
        s.after_failure(now).failures == s.failures + 1,
        ({
            let n = s.failures + 1;
            let due = n == 1 || n % 12 == 0 || (s.last_logged_at matches Some(last) && now
                >= last + 60_000_000_000);
            &&& due ==> s.report(now) == Some(n)
            &&& due ==> s.after_failure(now).last_logged_at == Some(now)
            &&& !due ==> s.report(now) is None
            &&& !due ==> s.after_failure(now).last_logged_at == s.last_logged_at
        }),
{
}

/// Every state counts failures the same way: a failure whose count is
/// neither 1 nor a multiple of 12 and comes less than 60 s after the last
/// report is silent, whatever the count (a long outage keeps being
/// de-duplicated).
pub proof fn lemma_silent_between_reports(s: RetryLog, now: u64)
    requires
        s.failures + 1 != 1,
        (s.failures + 1) % 12 != 0,
        s.last_logged_at matches Some(last) && now < last + 60_000_000_000,
    ensures
        s.report(now) is None,
{
}

/// The first failure after a reset (or construction) is always reported,
/// with retry count 1.
pub proof fn lemma_first_failure_is_reported(now: u64)
    ensures
        RetryLog::initial().report(now) == Some(1nat),
        RetryLog::initial().after_failure(now).last_logged_at == Some(now),
{
}

/// Every failure that brings the count to a multiple of
/// [`RETRY_LOG_EVERY`] is reported.
pub proof fn lemma_every_twelfth_failure_is_reported(s: RetryLog, now: u64)
    requires
        (s.failures + 1) % (RETRY_LOG_EVERY as nat) == 0,
    ensures
        s.report(now) == Some(s.failures + 1),
{
}

/// A failure at least [`RETRY_LOG_INTERVAL_NANOS`] after the last report
/// is reported.
pub proof fn lemma_failure_after_interval_is_reported(s: RetryLog, now: u64)
    requires
        s.last_logged_at matches Some(last) && now >= last + RETRY_LOG_INTERVAL_NANOS,
    ensures
        s.report(now) == Some(s.failures + 1),
{
}

/// A reported failure carries the number of failures counted so far, and
/// becomes the last report; a silent one leaves the last report as it was.
pub proof fn lemma_report_matches_count(s: RetryLog, now: u64)
    ensures
        s.after_failure(now).failures == s.failures + 1,
        s.report(now) matches Some(n) ==> n == s.after_failure(now).failures
            && s.after_failure(now).last_logged_at == Some(now),
        s.report(now) is None ==> s.after_failure(now).last_logged_at == s.last_logged_at,
{
}

/// Counting failures keeps the state well formed.
pub proof fn lemma_failure_keeps_wf(s: RetryLog, now: u64)
    requires
        s.wf(),
    ensures
        s.after_failure(now).wf(),
{
}

/// However the failures are spaced in time, no more than
/// `RETRY_LOG_EVERY - 1` failures in a row stay silent: among any
/// `RETRY_LOG_EVERY` consecutive failures one is reported.
pub proof fn lemma_silence_is_bounded(s: RetryLog, times: Seq<u64>)
    requires
        times.len() == RETRY_LOG_EVERY,
    ensures
        exists|i: int|
            0 <= i < times.len() && (#[trigger] s.after_failures(times.take(i))).report(
                times[i],
            ) is Some,
{
    lemma_failures_counted(s, times);
    let k = (RETRY_LOG_EVERY as nat - 1 - (s.failures % (RETRY_LOG_EVERY as nat))) as int;
    assert(0 <= k < 12);
    lemma_failures_counted(s, times.take(k));
    assert(s.after_failures(times.take(k)).failures == s.failures + k);
    assert((s.failures + k + 1) % 12 == 0) by (nonlinear_arith)
        requires
            k == 11 - (s.failures % 12),
    ;
    assert(s.after_failures(times.take(k)).report(times[k]) is Some);
}

/// Each failure in `times` adds one to the count.
pub proof fn lemma_failures_counted(s: RetryLog, times: Seq<u64>)
    ensures
        s.after_failures(times).failures == s.failures + times.len(),
    decreases times.len(),
{
    if times.len() > 0 {
        lemma_failures_counted(s, times.drop_last());
    }
}

} // verus!
