use vstd::prelude::*;

use crate::error::Error;

verus! {

/// What the main thread's registry keeps: the discoveries of real devices
/// (`D`), the discoveries of mock devices (`M`), and the sessions that run
/// on the main thread (`T`).
pub struct MainThreadRegistry<D, M, T> {
    pub discoveries: Vec<D>,
    pub mocks: Vec<M>,
    pub sessions: Vec<T>,
}

/// The sessions that still run, in their order.
pub open spec fn still_running<T>(sessions: Seq<T>, running: Seq<bool>) -> Seq<T>
    recommends
        sessions.len() == running.len(),
    decreases sessions.len(),
{
    if sessions.len() == 0 || running.len() == 0 {
        Seq::empty()
    } else {
        let rest = still_running(sessions.drop_last(), running.drop_last());
        if running.last() {
            rest.push(sessions.last())
        } else {
            rest
        }
    }
}

impl<D, M, T> MainThreadRegistry<D, M, T> {
    /// A registry with no discovery and no session.
    pub fn new() -> (r: Self)
        ensures
            r.discoveries@ == Seq::<D>::empty(),
            r.mocks@ == Seq::<M>::empty(),
            r.sessions@ == Seq::<T>::empty(),
    {
        MainThreadRegistry { discoveries: Vec::new(), mocks: Vec::new(), sessions: Vec::new() }
    }

    /// Adds a discovery of real devices, asked after those added before.
    pub fn register(&mut self, discovery: D)
        ensures
            final(self).discoveries@ == old(self).discoveries@.push(discovery),
            final(self).mocks@ == old(self).mocks@,
            final(self).sessions@ == old(self).sessions@,
    {
        self.discoveries.push(discovery);
    }

    /// Adds a discovery of mock devices.
    pub fn register_mock(&mut self, discovery: M)
        ensures
            final(self).mocks@ == old(self).mocks@.push(discovery),
            final(self).discoveries@ == old(self).discoveries@,
            final(self).sessions@ == old(self).sessions@,
    {
        self.mocks.push(discovery);
    }

    /// Adds a session to be run on the main thread.
    pub fn run_on_main_thread(&mut self, session: T)
        ensures
            final(self).sessions@ == old(self).sessions@.push(session),
            final(self).discoveries@ == old(self).discoveries@,
            final(self).mocks@ == old(self).mocks@,
    {
        self.sessions.push(session);
    }

    /// Adds the discovery of a simulated device, asked before all others.
    pub fn add_simulated(&mut self, discovery: D)
        ensures
            final(self).discoveries@ == seq![discovery] + old(self).discoveries@,
            final(self).mocks@ == old(self).mocks@,
            final(self).sessions@ == old(self).sessions@,
    {
        self.discoveries.insert(0, discovery);
        assert(self.discoveries@ =~= seq![discovery] + old(self).discoveries@);
    }

    /// Drops the sessions that no longer run, keeping the order of the
    /// others; `running` tells, for each session, whether it still runs.
    pub fn retain_running(&mut self, running: &Vec<bool>)
        requires
            running@.len() == old(self).sessions@.len(),
        ensures
            final(self).sessions@ == still_running(old(self).sessions@, running@),
            final(self).discoveries@ == old(self).discoveries@,
            final(self).mocks@ == old(self).mocks@,
    {
        let mut kept: Vec<T> = Vec::new();
        let mut rest: Vec<T> = Vec::new();
        std::mem::swap(&mut rest, &mut self.sessions);
        let ghost all = rest@;
        let n = rest.len();
        // Take the sessions out from the back, then put the kept ones back in order.
        let mut reversed: Vec<T> = Vec::new();
        let mut i: usize = n;
        while i > 0
            invariant
                i <= n,
                n == all.len(),
                running@.len() == n,
                rest@ == all.subrange(0, i as int),
                reversed@.len() == (n - i) as nat,
                forall|j: int| 0 <= j < n - i ==> #[trigger] reversed@[j] == all[n - 1 - j],
            decreases i,
        {
            let s = rest.pop().unwrap();
            reversed.push(s);
            i -= 1;
            assert(rest@ =~= all.subrange(0, i as int));
        }
        let mut k: usize = 0;
        while k < n
            invariant
                k <= n,
                n == all.len(),
                running@.len() == n,
                reversed@.len() == (n - k) as nat,
                forall|j: int| 0 <= j < n - k ==> #[trigger] reversed@[j] == all[n - 1 - j],
                kept@ == still_running(all.subrange(0, k as int), running@.subrange(0, k as int)),
            decreases n - k,
        {
            let s = reversed.pop().unwrap();
            proof {
                assert(s == all[k as int]);
                let a1 = all.subrange(0, k + 1);
                let r1 = running@.subrange(0, k + 1);
                assert(a1.drop_last() =~= all.subrange(0, k as int));
                assert(r1.drop_last() =~= running@.subrange(0, k as int));
            }
            if running[k] {
                kept.push(s);
            }
            k += 1;
        }
        assert(all.subrange(0, n as int) =~= all);
        assert(running@.subrange(0, n as int) =~= running@);
        self.sessions = kept;
    }
}

/// Tries the discoveries, one by one in the order in which they are kept,
/// until one of them succeeds, and keeps what it gave (of type `V`): none is
/// tried after the first success.
pub struct FirstSuccess<V> {
    /// How many discoveries there are.
    pub total: usize,
    /// How many have been tried.
    pub tried: usize,
    /// What the last one tried gave, if it succeeded.
    pub found: Option<V>,
    /// The outcomes so far, in order.
    pub outcomes: Ghost<Seq<Option<V>>>,
}

impl<V> FirstSuccess<V> {
    /// Every outcome but the last is a failure, and `found` is the last one.
    pub open spec fn wf(&self) -> bool {
        &&& self.outcomes@.len() == self.tried
        &&& self.tried <= self.total
        &&& self.found == (if self.tried > 0 {
            self.outcomes@[self.tried - 1]
        } else {
            None
        })
        &&& forall|i: int| 0 <= i < self.tried - 1 ==> #[trigger] self.outcomes@[i] is None
    }

    /// Whether some discovery succeeded.
    pub open spec fn any_success(&self) -> bool {
        exists|i: int| 0 <= i < self.outcomes@.len() && #[trigger] self.outcomes@[i] is Some
    }

    /// No discovery tried yet, out of `total`.
    pub fn new(total: usize) -> (q: Self)
        ensures
            q.wf(),
            q.total == total,
            q.tried == 0,
            q.found is None,
            q.outcomes@ == Seq::<Option<V>>::empty(),
    {
        FirstSuccess { total, tried: 0, found: None, outcomes: Ghost(Seq::empty()) }
    }

    /// The index of the discovery to try next: none once one succeeded or
    /// all have been tried.
    pub fn next_to_try(&self) -> (r: Option<usize>)
        requires
            self.wf(),
        ensures
            r == (if self.found is Some || self.tried == self.total {
                None
            } else {
                Some(self.tried)
            }),
    {
        if self.found.is_some() || self.tried == self.total {
            None
        } else {
            Some(self.tried)
        }
    }

    /// Takes the outcome of the discovery that `next_to_try` named: what it
    /// gave when it succeeded, `None` when it failed.
    pub fn record(&mut self, outcome: Option<V>)
        requires
            old(self).wf(),
            old(self).found is None,
            old(self).tried < old(self).total,
        ensures
            final(self).wf(),
            final(self).total == old(self).total,
            final(self).tried == old(self).tried + 1,
            final(self).found == outcome,
            final(self).outcomes@ == old(self).outcomes@.push(outcome),
    {
        self.outcomes = Ghost(self.outcomes@.push(outcome));
        self.tried = self.tried + 1;
        self.found = outcome;
    }

    /// The outcome: what the successful discovery gave, or no matching
    /// device when none succeeded.
    pub fn result(self) -> (r: Result<V, Error>)
        requires
            self.wf(),
        ensures
            r is Ok <==> self.any_success(),
            r matches Ok(v) ==> self.found == Some(v) && self.outcomes@.last() == Some(v),
            r matches Err(e) ==> e is NoMatchingDevice,
    {
        proof {
            if self.any_success() {
                let i = choose|i: int| 0 <= i < self.outcomes@.len() && #[trigger] self.outcomes@[i] is Some;
                assert(i == self.tried - 1);
            }
            if self.found is Some {
                assert(self.outcomes@[self.tried - 1] is Some);
            }
        }
        match self.found {
            Some(v) => Ok(v),
            None => Err(Error::NoMatchingDevice),
        }
    }
}

/// Trying stops at the first discovery that succeeds; when it stops without
/// one, every discovery was tried and each failed.
pub proof fn lemma_tries_stop_at_first_success<V>(q: FirstSuccess<V>)
    requires
        q.wf(),
    ensures
        q.found is Some ==> {
            &&& q.outcomes@.len() >= 1
            &&& q.outcomes@.last() is Some
            &&& forall|i: int| 0 <= i < q.outcomes@.len() - 1 ==> #[trigger] q.outcomes@[i] is None
        },
        q.found is None && q.tried == q.total ==> {
            &&& q.outcomes@.len() == q.total
            &&& forall|i: int| 0 <= i < q.total ==> #[trigger] q.outcomes@[i] is None
        },
{
    if q.found is None && q.tried == q.total {
        assert forall|i: int| 0 <= i < q.total implies #[trigger] q.outcomes@[i] is None by {
            if i < q.tried - 1 {
            } else {
                assert(i == q.tried - 1);
            }
        }
    }
}

/// Whether the main thread still has a session to run.
pub fn any_running(running: &Vec<bool>) -> (r: bool)
    ensures
        r <==> exists|i: int| 0 <= i < running@.len() && running@[i],
{
    let n = running.len();
    let mut i: usize = 0;
    while i < n
        invariant
            0 <= i <= n,
            n == running@.len(),
            forall|j: int| 0 <= j < i ==> !running@[j],
        decreases n - i,
    {
        if running[i] {
            return true;
        }
        i += 1;
    }
    false
}

} // verus!
