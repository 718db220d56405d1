use vstd::prelude::*;
use crate::error::IndexerError;
use crate::retry::{gives_up, lemma_interval_bounds, RetryPolicy, RetryRun, RetryStep};

verus! {

/// The cause given when a borrower gives up on a full pool.
pub const NO_FREE_CONNECTION: &'static str = "no free connection";

/// The size of a pool whose size was not configured.
pub const DEFAULT_POOL_SIZE: usize = 10;

/// The right to one pooled connection, held by one borrower for one
/// operation and handed back through [`PoolLedger::release`].
pub struct Lease {
    id: Ghost<nat>,
}

impl Lease {
    pub closed spec fn id(&self) -> nat {
        self.id@
    }
}

/// The bookkeeping of a bounded pool: how many connections it may lend and
/// which leases are out. It is a model of the lending rule that a
/// connection pool keeps (never more lent than its size, every lease handed
/// back), in which borrowing and its retries can be stated and proved; it
/// holds no connection itself.
pub struct PoolLedger {
    max_size: usize,
    lent: usize,
    outstanding: Ghost<Set<nat>>,
    issued: Ghost<nat>,
}

/// The outcome of one attempt to borrow a connection within a retry run.
pub enum AcquireOutcome {
    /// A connection was free: here is its lease.
    Acquired(Lease),
    /// None was free: wait this many milliseconds and attempt again.
    Wait(u64),
    /// None was free and the retry budget is spent.
    Failed(IndexerError),
}

impl PoolLedger {
    pub closed spec fn max_size(&self) -> nat {
        self.max_size as nat
    }

    /// How many connections are lent out.
    pub closed spec fn lent(&self) -> nat {
        self.lent as nat
    }

    /// The leases that are out.
    pub closed spec fn outstanding(&self) -> Set<nat> {
        self.outstanding@
    }

    pub closed spec fn wf(&self) -> bool {
        &&& self.lent <= self.max_size
        &&& self.outstanding@.finite()
        &&& self.outstanding@.len() == self.lent
        &&& forall|id: nat| self.outstanding@.contains(id) ==> id < self.issued@
    }

    /// `self` is `before` after lending the lease `id`.
    pub open spec fn lends(&self, before: &PoolLedger, id: nat) -> bool {
        &&& self.max_size() == before.max_size()
        &&& !before.outstanding().contains(id)
        &&& self.outstanding() == before.outstanding().insert(id)
        &&& self.lent() == before.lent() + 1
    }

    /// `self` is `before` after taking back the lease `id`.
    pub open spec fn takes_back(&self, before: &PoolLedger, id: nat) -> bool {
        &&& self.max_size() == before.max_size()
        &&& before.outstanding().contains(id)
        &&& self.outstanding() == before.outstanding().remove(id)
        &&& self.lent() + 1 == before.lent()
    }

    /// A pool that may lend up to `max_size` connections, none lent yet.
    pub fn new(max_size: usize) -> (l: PoolLedger)
        ensures
            l.wf(),
            l.max_size() == max_size,
            l.lent() == 0,
            l.outstanding() == Set::<nat>::empty(),
    {
        PoolLedger { max_size, lent: 0, outstanding: Ghost(Set::empty()), issued: Ghost(0) }
    }

    /// A pool of the default size.
    pub fn with_default_size() -> (l: PoolLedger)
        ensures
            l.wf(),
            l.max_size() == DEFAULT_POOL_SIZE,
            l.lent() == 0,
            l.outstanding() == Set::<nat>::empty(),
    {
        PoolLedger::new(DEFAULT_POOL_SIZE)
    }

    /// How many connections the pool may lend at once.
    pub fn max_size_of(&self) -> (n: usize)
        ensures
            n == self.max_size(),
    {
        self.max_size
    }

    /// How many connections are lent out now.
    pub fn lent_count(&self) -> (n: usize)
        ensures
            n == self.lent(),
    {
        self.lent
    }

    /// Lends a connection if fewer than the maximum are out; else lends
    /// nothing and changes nothing.
    pub fn try_acquire(&mut self) -> (r: Option<Lease>)
        requires
            old(self).wf(),
        ensures
            final(self).wf(),
            old(self).lent() < old(self).max_size() <==> r.is_some(),
            r matches Some(l) ==> final(self).lends(old(self), l.id()),
            r.is_none() ==> *final(self) == *old(self),
    {
        if self.lent < self.max_size {
            let ghost id = self.issued@;
            self.lent = self.lent + 1;
            self.outstanding = Ghost(self.outstanding@.insert(id));
            self.issued = Ghost(id + 1);
            Some(Lease { id: Ghost(id) })
        } else {
            None
        }
    }

    /// Takes back a lease, so that its connection is free for the next
    /// borrower.
    pub fn release(&mut self, lease: Lease)
        requires
            old(self).wf(),
            old(self).outstanding().contains(lease.id()),
        ensures
            final(self).wf(),
            final(self).takes_back(old(self), lease.id()),
    {
        self.lent = self.lent - 1;
        self.outstanding = Ghost(self.outstanding@.remove(lease.id@));
    }

    /// Ends a borrowing operation: takes back its lease whatever the
    /// operation's outcome, and hands the outcome on unchanged.
    pub fn release_after<T>(&mut self, lease: Lease, outcome: Result<T, IndexerError>) -> (r: Result<
        T,
        IndexerError,
    >)
        requires
            old(self).wf(),
            old(self).outstanding().contains(lease.id()),
        ensures
            final(self).wf(),
            final(self).takes_back(old(self), lease.id()),
            r == outcome,
    {
        self.release(lease);
        outcome
    }

    /// One borrower's whole acquisition under a fresh run of `policy`, on a
    /// clock that moves only while it waits and with no lease handed back
    /// meanwhile: it gets a connection exactly when one is free, and
    /// otherwise gives up with `PgPoolConnectionError` once the budget is
    /// spent.
    pub fn borrow(&mut self, policy: RetryPolicy) -> (r: Result<Lease, IndexerError>)
        requires
            old(self).wf(),
            policy.wf(),
            policy.max_elapsed_ms.is_some(),
        ensures
            final(self).wf(),
            old(self).lent() < old(self).max_size() <==> r.is_ok(),
            r matches Ok(l) ==> final(self).lends(old(self), l.id()),
            r matches Err(e) ==> *final(self) == *old(self) && e is PgPoolConnectionError
                && e.spec_detail() == NO_FREE_CONNECTION@,
    {
        let t: u64 = match policy.max_elapsed_ms {
            Some(t) => t,
            None => 0,
        };
        let ghost start = *self;
        let mut run = RetryRun::new(policy);
        let mut elapsed: u64 = 0;
        loop
            invariant
                *self == start,
                start == *old(self),
                self.wf(),
                policy.wf(),
                run.wf(),
                run.policy() == policy,
                policy.max_elapsed_ms == Some(t),
                elapsed <= t,
            decreases t - elapsed,
        {
            proof {
                lemma_interval_bounds(policy, run.failures());
            }
            match self.acquire_attempt(&mut run, elapsed) {
                AcquireOutcome::Acquired(l) => return Ok(l),
                AcquireOutcome::Wait(w) => {
                    elapsed = elapsed + w;
                },
                AcquireOutcome::Failed(e) => return Err(e),
            }
        }
    }

    /// `m` borrowers, one after another, each borrow under a fresh run of
    /// `policy` and keep what they get. However many ask, no more than the
    /// pool's size are lent: the first borrowers take the free connections
    /// and every later one ends with `PgPoolConnectionError`.
    pub fn serve_borrowers(&mut self, m: usize, policy: RetryPolicy) -> (results: Vec<
        Result<Lease, IndexerError>,
    >)
        requires
            old(self).wf(),
            policy.wf(),
            policy.max_elapsed_ms.is_some(),
        ensures
            final(self).wf(),
            final(self).max_size() == old(self).max_size(),
            results@.len() == m,
            forall|i: int|
                0 <= i < m ==> (results@[i].is_ok() <==> old(self).lent() + i < old(self).max_size()),
            forall|i: int|
                0 <= i < m ==> (#[trigger] results@[i] matches Err(e) ==> e is PgPoolConnectionError),
            final(self).lent() == if old(self).lent() + m <= old(self).max_size() {
                old(self).lent() + m
            } else {
                old(self).max_size() as int
            },
            final(self).lent() <= final(self).max_size(),
    {
        let ghost lent0 = self.lent();
        let ghost size = self.max_size();
        let mut results: Vec<Result<Lease, IndexerError>> = Vec::new();
        let mut i: usize = 0;
        while i < m
            invariant
                self.wf(),
                policy.wf(),
                policy.max_elapsed_ms.is_some(),
                self.max_size() == size,
                lent0 <= size,
                i <= m,
                results@.len() == i,
                self.lent() == if lent0 + i <= size { lent0 + i } else { size as int },
                forall|k: int| 0 <= k < i ==> (results@[k].is_ok() <==> lent0 + k < size),
                forall|k: int|
                    0 <= k < i ==> (#[trigger] results@[k] matches Err(e) ==> e is PgPoolConnectionError),
            decreases m - i,
        {
            let r = self.borrow(policy);
            results.push(r);
            i = i + 1;
        }
        results
    }

    /// One attempt to borrow a connection within `run`, `elapsed_ms` after
    /// the run began. A free connection is lent at once; if none is free,
    /// the run decides between waiting and giving up with
    /// `PgPoolConnectionError`.
    pub fn acquire_attempt(&mut self, run: &mut RetryRun, elapsed_ms: u64) -> (r: AcquireOutcome)
        requires
            old(self).wf(),
            old(run).wf(),
        ensures
            final(self).wf(),
            final(run).wf(),
            final(run).policy() == old(run).policy(),
            old(self).lent() < old(self).max_size() <==> r is Acquired,
            r matches AcquireOutcome::Acquired(l) ==> final(self).lends(old(self), l.id())
                && *final(run) == *old(run),
            !(r is Acquired) ==> *final(self) == *old(self),
            r matches AcquireOutcome::Wait(w) ==> !gives_up(
                old(run).policy(),
                old(run).failures(),
                elapsed_ms,
            ) && w == old(run).policy().interval_at(old(run).failures()) && final(run).failures()
                == old(run).failures() + 1,
            r matches AcquireOutcome::Failed(e) ==> gives_up(
                old(run).policy(),
                old(run).failures(),
                elapsed_ms,
            ) && e is PgPoolConnectionError && e.spec_detail() == NO_FREE_CONNECTION@
                && final(run).failures() == old(run).failures(),
    {
        match self.try_acquire() {
            Some(l) => AcquireOutcome::Acquired(l),
            None => match retry_after_pool_error(run, elapsed_ms, NO_FREE_CONNECTION.to_owned()) {
                Ok(w) => AcquireOutcome::Wait(w),
                Err(e) => AcquireOutcome::Failed(e),
            },
        }
    }
}

/// What follows a failed attempt to get a pooled connection: the wait
/// before the next attempt, or, once the budget is spent,
/// `PgPoolConnectionError` carrying the last failure's description.
pub fn retry_after_pool_error(run: &mut RetryRun, elapsed_ms: u64, last_error: String) -> (r: Result<
    u64,
    IndexerError,
>)
    requires
        old(run).wf(),
    ensures
        final(run).wf(),
        final(run).policy() == old(run).policy(),
        gives_up(old(run).policy(), old(run).failures(), elapsed_ms) ==> r == Err::<
            u64,
            IndexerError,
        >(IndexerError::PgPoolConnectionError(last_error)) && final(run).failures()
            == old(run).failures(),
        !gives_up(old(run).policy(), old(run).failures(), elapsed_ms) ==> r == Ok::<
            u64,
            IndexerError,
        >(old(run).policy().interval_at(old(run).failures()) as u64) && final(run).failures()
            == old(run).failures() + 1,
{
    match run.on_failure(elapsed_ms) {
        RetryStep::Wait(w) => Ok(w),
        RetryStep::GiveUp => Err(IndexerError::PgPoolConnectionError(last_error)),
    }
}

/// No pool ever has more connections lent out than its size, however many
/// borrowers ask at once.
pub proof fn law_lent_within_size(l: &PoolLedger)
    requires
        l.wf(),
    ensures
        l.lent() <= l.max_size(),
{
}

/// A lease taken and then handed back leaves the pool as it was: every
/// borrowing operation returns what it borrowed.
pub proof fn law_release_restores(before: &PoolLedger, during: &PoolLedger, after: &PoolLedger, id: nat)
    requires
        during.lends(before, id),
        after.takes_back(during, id),
    ensures
        after.lent() == before.lent(),
        after.outstanding() == before.outstanding(),
        after.max_size() == before.max_size(),
{
    assert(after.outstanding() =~= before.outstanding());
}

} // verus!
