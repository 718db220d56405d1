use vstd::prelude::*;

verus! {

/// An exponential backoff schedule, in milliseconds. The wait after the
/// first failed attempt is `initial_interval_ms`; every later wait is the
/// previous one times `multiplier_pct / 100` (rounded down), never more than
/// `max_interval_ms`. With a budget `max_elapsed_ms`, a run gives up rather
/// than wait past it; without one, it retries for ever.
#[derive(Clone, Copy, Debug, PartialEq, Eq, Structural)]
pub struct RetryPolicy {
    pub initial_interval_ms: u64,
    pub multiplier_pct: u64,
    pub max_interval_ms: u64,
    pub max_elapsed_ms: Option<u64>,
}

/// What a run does after a failed attempt.
#[derive(Clone, Copy, Debug, PartialEq, Eq, Structural)]
pub enum RetryStep {
    /// Wait this many milliseconds, then attempt again.
    Wait(u64),
    /// The budget is spent: report the last failure.
    GiveUp,
}

impl RetryPolicy {
    /// Every wait is at least one millisecond and the waits never shrink.
    pub open spec fn wf(&self) -> bool {
        &&& 1 <= self.initial_interval_ms
        &&& 100 <= self.multiplier_pct
        &&& self.initial_interval_ms <= self.max_interval_ms
    }

    /// The wait after the failure of attempt `n + 1`.
    pub open spec fn interval_at(&self, n: nat) -> nat
        decreases n,
    {
        if n == 0 {
            self.initial_interval_ms as nat
        } else {
            let grown = self.interval_at((n - 1) as nat) * self.multiplier_pct / 100;
            if grown <= self.max_interval_ms {
                grown as nat
            } else {
                self.max_interval_ms as nat
            }
        }
    }

    /// The time spent waiting before attempt `n + 1`: the sum of the first
    /// `n` waits.
    pub open spec fn waited(&self, n: nat) -> nat
        decreases n,
    {
        if n == 0 {
            0
        } else {
            self.waited((n - 1) as nat) + self.interval_at((n - 1) as nat)
        }
    }

    /// The policy with the usual defaults: half a second at first, growing by
    /// half each time up to a minute, with no budget (it retries for ever).
    pub fn standard() -> (p: RetryPolicy)
        ensures
            p.wf(),
            p.initial_interval_ms == 500,
            p.multiplier_pct == 150,
            p.max_interval_ms == 60_000,
            p.max_elapsed_ms == None::<u64>,
    {
        RetryPolicy {
            initial_interval_ms: 500,
            multiplier_pct: 150,
            max_interval_ms: 60_000,
            max_elapsed_ms: None,
        }
    }
}

/// Each wait lies between one millisecond and the ceiling.
pub proof fn lemma_interval_bounds(p: RetryPolicy, n: nat)
    requires
        p.wf(),
    ensures
        1 <= p.interval_at(n) <= p.max_interval_ms,
    decreases n,
{
    if n > 0 {
        lemma_interval_bounds(p, (n - 1) as nat);
        let prev = p.interval_at((n - 1) as nat);
        assert(prev * p.multiplier_pct >= prev * 100) by (nonlinear_arith)
            requires
                p.multiplier_pct >= 100,
        ;
    }
}

/// Waiting takes at least a millisecond per wait, and more waits never take
/// less time.
pub proof fn lemma_waited_grows(p: RetryPolicy, m: nat, n: nat)
    requires
        p.wf(),
        m <= n,
    ensures
        p.waited(m) + (n - m) <= p.waited(n),
    decreases n - m,
{
    if m < n {
        lemma_waited_grows(p, m, (n - 1) as nat);
        lemma_interval_bounds(p, (n - 1) as nat);
    }
}

/// Whether a run under `p` that has answered `failures` failures with a
/// wait gives up on one more failure `elapsed_ms` after it began: only a
/// budget that the next wait would overrun ends it.
pub open spec fn gives_up(p: RetryPolicy, failures: nat, elapsed_ms: u64) -> bool {
    match p.max_elapsed_ms {
        Some(t) => elapsed_ms + p.interval_at(failures) > t,
        None => false,
    }
}

/// One run of retries under a policy: a fresh run starts a fresh sequence
/// of waits.
pub struct RetryRun {
    policy: RetryPolicy,
    next_interval_ms: u64,
    failures: Ghost<nat>,
}

impl RetryRun {
    pub closed spec fn policy(&self) -> RetryPolicy {
        self.policy
    }

    /// How many failures this run has answered with a wait.
    pub closed spec fn failures(&self) -> nat {
        self.failures@
    }

    pub closed spec fn wf(&self) -> bool {
        &&& self.policy.wf()
        &&& self.next_interval_ms == self.policy.interval_at(self.failures@)
    }

    /// A run under `policy` that has seen no failure yet.
    pub fn new(policy: RetryPolicy) -> (r: RetryRun)
        requires
            policy.wf(),
        ensures
            r.wf(),
            r.policy() == policy,
            r.failures() == 0,
    {
        RetryRun { policy, next_interval_ms: policy.initial_interval_ms, failures: Ghost(0) }
    }

    /// Decides what follows a failed attempt, `elapsed_ms` after the run
    /// began. The run gives up exactly when its budget would not cover the
    /// next wait; else it answers with that wait and counts the failure.
    pub fn on_failure(&mut self, elapsed_ms: u64) -> (step: RetryStep)
        requires
            old(self).wf(),
        ensures
            final(self).wf(),
            final(self).policy() == old(self).policy(),
            gives_up(old(self).policy(), old(self).failures(), elapsed_ms) ==> step
                == RetryStep::GiveUp && final(self).failures() == old(self).failures(),
            !gives_up(old(self).policy(), old(self).failures(), elapsed_ms) ==> step
                == RetryStep::Wait(old(self).policy().interval_at(old(self).failures()) as u64)
                && final(self).failures() == old(self).failures() + 1,
    {
        let wait = self.next_interval_ms;
        if let Some(t) = self.policy.max_elapsed_ms {
            if (elapsed_ms as u128) + (wait as u128) > (t as u128) {
                return RetryStep::GiveUp;
            }
        }
        proof {
            lemma_interval_bounds(self.policy, self.failures@ + 1);
        }
        let m: u128 = self.policy.multiplier_pct as u128;
        assert((wait as u128) * m <= 0xffff_ffff_ffff_ffff_ffff_ffff_ffff_ffffu128) by (nonlinear_arith)
            requires
                wait <= 0xffff_ffff_ffff_ffffu64,
                m <= 0xffff_ffff_ffff_ffffu128,
        ;
        let grown: u128 = (wait as u128) * m / 100;
        let next: u64 = if grown <= self.policy.max_interval_ms as u128 {
            grown as u64
        } else {
            self.policy.max_interval_ms
        };
        self.next_interval_ms = next;
        self.failures = Ghost(self.failures@ + 1);
        RetryStep::Wait(wait)
    }
}

/// Runs `policy` on a clock that moves only while the run waits, with every
/// attempt failing at once, and returns how many retries (attempts after the
/// first) come before the run gives up. With budget `t`, that is the largest
/// `n` whose first `n` waits add up to no more than `t`.
pub fn retries_before_give_up(policy: RetryPolicy) -> (n: u64)
    requires
        policy.wf(),
        policy.max_elapsed_ms.is_some(),
    ensures
        policy.waited(n as nat) <= policy.max_elapsed_ms.unwrap(),
        policy.waited(n as nat + 1) > policy.max_elapsed_ms.unwrap(),
        forall|k: nat| policy.waited(k) <= policy.max_elapsed_ms.unwrap() ==> k <= n,
{
    let t: u64 = match policy.max_elapsed_ms {
        Some(t) => t,
        None => 0,
    };
    let mut run = RetryRun::new(policy);
    let mut elapsed: u64 = 0;
    let mut retries: u64 = 0;
    loop
        invariant
            run.wf(),
            run.policy() == policy,
            policy.max_elapsed_ms == Some(t),
            run.failures() == retries as nat,
            elapsed as nat == policy.waited(retries as nat),
            elapsed <= t,
            retries <= elapsed,
        decreases t - elapsed,
    {
        match run.on_failure(elapsed) {
            RetryStep::GiveUp => {
                proof {
                    assert forall|k: nat| policy.waited(k) <= t implies k <= retries by {
                        if k > retries {
                            lemma_waited_grows(policy, retries as nat + 1, k);
                        }
                    }
                }
                return retries;
            },
            RetryStep::Wait(w) => {
                proof {
                    lemma_interval_bounds(policy, retries as nat);
                }
                elapsed = elapsed + w;
                retries = retries + 1;
            },
        }
    }
}

} // verus!
