//! Bounded retry with a fixed pause between attempts.

use vstd::prelude::*;

verus! {

/// How many times one operation is attempted before it is given up.
pub const MAX_ATTEMPTS: u64 = 10;

/// The pause before an attempt that follows a failed one, in milliseconds.
pub const BACKOFF_MILLIS: u64 = 2000;

/// What to do after a failed attempt.
#[derive(Clone, Copy, Debug, PartialEq, Eq, Structural)]
pub enum Verdict {
    /// Wait `delay_millis`, then attempt once more.
    Again { delay_millis: u64 },
    /// The budget is spent: no further attempt is made.
    GiveUp,
}

/// Counts the failed attempts of one operation.
#[derive(Clone, Copy, Debug, PartialEq, Eq, Structural)]
pub struct Retry {
    /// The number of failures recorded so far.
    pub failures: u64,
}

impl Retry {
    /// The number of failures recorded so far.
    pub open spec fn failed(&self) -> nat {
        self.failures as nat
    }

    /// No attempt is left.
    pub open spec fn exhausted(&self) -> bool {
        self.failed() >= MAX_ATTEMPTS
    }

    /// The counter before anything has failed.
    pub open spec fn fresh() -> Retry {
        Retry { failures: 0 }
    }

    /// The counter after one more failure. It stops counting at the budget.
    pub open spec fn after_failure(&self) -> Retry {
        if self.exhausted() {
            *self
        } else {
            Retry { failures: (self.failures + 1) as u64 }
        }
    }

    /// The verdict that the failure leading to this counter gets.
    pub open spec fn verdict(&self) -> Verdict {
        if self.exhausted() {
            Verdict::GiveUp
        } else {
            Verdict::Again { delay_millis: BACKOFF_MILLIS }
        }
    }

    /// The counter after `n` failures in a row, starting from none.
    pub open spec fn after_failures(n: nat) -> Retry
        decreases n,
    {
        if n == 0 {
            Retry::fresh()
        } else {
            Retry::after_failures((n - 1) as nat).after_failure()
        }
    }

    /// A fresh counter: nothing has failed yet.
    pub fn new() -> (r: Retry)
        ensures
            r == Retry::fresh(),
    {
        Retry { failures: 0 }
    }

    /// The number of failures recorded so far.
    pub fn failures(&self) -> (n: u64)
        ensures
            n == self.failed(),
    {
        self.failures
    }

    /// Records one failed attempt and says whether another one may follow.
    pub fn on_failure(&mut self) -> (v: Verdict)
        ensures
            *final(self) == old(self).after_failure(),
            v == final(self).verdict(),
    {
        if self.failures < MAX_ATTEMPTS {
            self.failures = self.failures + 1;
        }
        if self.failures >= MAX_ATTEMPTS {
            Verdict::GiveUp
        } else {
            Verdict::Again { delay_millis: BACKOFF_MILLIS }
        }
    }
}

/// After `n` failures in a row the counter reads `n`, up to the budget.
pub proof fn lemma_after_failures(n: nat)
    ensures
        Retry::after_failures(n).failed() == if n <= MAX_ATTEMPTS { n } else { MAX_ATTEMPTS as nat },
    decreases n,
{
    if n > 0 {
        lemma_after_failures((n - 1) as nat);
    }
}

/// An operation that fails every time is attempted exactly `MAX_ATTEMPTS`
/// times: each of the first nine failures is answered with a pause and one
/// more attempt, and the tenth with giving up.
pub proof fn law_retry_exhaustion(n: nat)
    requires
        1 <= n <= MAX_ATTEMPTS,
    ensures
        n < MAX_ATTEMPTS ==> Retry::after_failures(n).verdict() == (Verdict::Again {
            delay_millis: BACKOFF_MILLIS,
        }),
        n == MAX_ATTEMPTS ==> Retry::after_failures(n).verdict() == Verdict::GiveUp,
{
    lemma_after_failures(n);
}

} // verus!
