//! Request coalescing for thumbnail generation.
//!
//! Any number of callers may ask for the same cache path at once, but at
//! most one generation per cache path may be in flight: the first caller to
//! find no entry for its path leads and runs the extraction; every caller
//! that finds an entry joins it and waits for the leader's published result.
//! The in-flight bookkeeping is the only shared mutable state; the caller
//! holds it under its own mutual exclusion and keeps every call brief.

use vstd::prelude::*;
use crate::error::IoKind;
use crate::text::str_eq;
use crate::thumbnail::GenerateError;

verus! {

/// What a caller must do for its request, decided from the freshness check
/// and the in-flight bookkeeping.
#[derive(Clone, Copy, Debug, PartialEq, Eq, Structural)]
pub enum Plan {
    /// The cached thumbnail is fresh: answer from it, generate nothing.
    Fresh,
    /// Another caller is already generating this cache path: wait for its
    /// published result.
    Join,
    /// No generation is in flight for this cache path: this caller runs it.
    Lead,
}

/// The coalescing decision and the bookkeeping it leaves behind: a fresh
/// cache bypasses everything, a key already in flight is joined, and
/// otherwise the key is recorded and the caller leads.
pub open spec fn spec_plan(inflight: Seq<Seq<char>>, fresh: bool, key: Seq<char>) -> (
    Plan,
    Seq<Seq<char>>,
) {
    if fresh {
        (Plan::Fresh, inflight)
    } else if inflight.contains(key) {
        (Plan::Join, inflight)
    } else {
        (Plan::Lead, inflight.push(key))
    }
}

/// The in-flight generations, keyed by cache path. Holds each key at most
/// once, from the moment a leader is chosen for it to the moment the
/// leader's outcome is removed again just before being published.
#[derive(Debug)]
pub struct InFlightMap {
    keys: Vec<String>,
}

impl InFlightMap {
    /// The keys currently in flight.
    pub closed spec fn view(&self) -> Seq<Seq<char>> {
        self.keys@.map_values(|k: String| k@)
    }

    /// Each key is in flight at most once.
    pub open spec fn wf(&self) -> bool {
        forall|i: int, j: int| 0 <= i < j < self@.len() ==> self@[i] != self@[j]
    }

    /// An empty map: nothing is in flight.
    pub fn new() -> (m: Self)
        ensures
            m@ == Seq::<Seq<char>>::empty(),
            m.wf(),
    {
        let m = InFlightMap { keys: Vec::new() };
        proof {
            assert(m@ =~= Seq::<Seq<char>>::empty());
        }
        m
    }

    /// The position of a key, if it is in flight.
    fn index_of_key(&self, key: &str) -> (r: Option<usize>)
        ensures
            match r {
                Some(i) => i < self@.len() && self@[i as int] == key@,
                None => !self@.contains(key@),
            },
    {
        let mut i: usize = 0;
        while i < self.keys.len()
            invariant
                i <= self.keys@.len(),
                self@.len() == self.keys@.len(),
                forall|j: int| 0 <= j < i ==> self@[j] != key@,
            decreases self.keys@.len() - i,
        {
            if str_eq(self.keys[i].as_str(), key) {
                return Some(i);
            }
            i += 1;
        }
        None
    }

    /// Whether a generation for this key is in flight.
    pub fn contains_key(&self, key: &String) -> (r: bool)
        ensures
            r == self@.contains(key@),
    {
        match self.index_of_key(key.as_str()) {
            Some(i) => {
                proof {
                    assert(self@.contains(key@)) by {
                        assert(self@[i as int] == key@);
                    }
                }
                true
            },
            None => false,
        }
    }

    /// Decides what a caller must do for `key`, and records the key if the
    /// caller is to lead. The entry is recorded before any generation
    /// starts, so a concurrent caller finds it immediately.
    pub fn plan(&mut self, fresh: bool, key: &String) -> (p: Plan)
        requires
            old(self).wf(),
        ensures
            final(self).wf(),
            (p, final(self)@) == spec_plan(old(self)@, fresh, key@),
    {
        if fresh {
            Plan::Fresh
        } else if self.contains_key(key) {
            Plan::Join
        } else {
            let ghost prior = self@;
            self.keys.push(key.clone());
            proof {
                assert(self@ =~= prior.push(key@));
            }
            Plan::Lead
        }
    }

    /// Removes the entry for a completed generation. Afterwards the key is
    /// no longer in flight, every other key is untouched, and a later
    /// caller for the same path decides against the cache file alone.
    pub fn complete(&mut self, key: &String) -> (found: bool)
        requires
            old(self).wf(),
        ensures
            final(self).wf(),
            found == old(self)@.contains(key@),
            !final(self)@.contains(key@),
            forall|x: Seq<char>| x != key@ ==> old(self)@.contains(x) == final(self)@.contains(x),
            found ==> final(self)@.len() == old(self)@.len() - 1,
            !found ==> final(self)@ == old(self)@,
    {
        let ghost prior = self@;
        match self.index_of_key(key.as_str()) {
            Some(i) => {
                self.keys.remove(i);
                proof {
                    assert(self@ =~= prior.remove(i as int));
                    assert(prior.contains(key@)) by {
                        assert(prior[i as int] == key@);
                    }
                    assert forall|x: Seq<char>| x != key@ implies
                        prior.contains(x) == self@.contains(x) by {
                        if prior.contains(x) {
                            let w = choose|j: int| 0 <= j < prior.len() && prior[j] == x;
                            if w < i {
                                assert(self@[w] == x);
                            } else {
                                assert(w != i);
                                assert(self@[w - 1] == x);
                            }
                        }
                        if self@.contains(x) {
                            let w = choose|j: int| 0 <= j < self@.len() && self@[j] == x;
                            if w < i {
                                assert(prior[w] == x);
                            } else {
                                assert(prior[w + 1] == x);
                            }
                        }
                    }
                    assert(!self@.contains(key@)) by {
                        if self@.contains(key@) {
                            let w = choose|j: int| 0 <= j < self@.len() && self@[j] == key@;
                            if w < i {
                                assert(prior[w] == key@);
                            } else {
                                assert(prior[w + 1] == key@);
                            }
                        }
                    }
                }
                true
            },
            None => false,
        }
    }
}

/// The broadcast slot a leader publishes its result through: empty while
/// the generation runs, then holding the one immutable result every joined
/// caller receives.
#[derive(Debug)]
pub struct ResultSlot {
    value: Option<Result<(), GenerateError>>,
}

impl ResultSlot {
    /// The published result, if any.
    pub closed spec fn view(&self) -> Option<Result<(), GenerateError>> {
        self.value
    }

    /// A slot with nothing published yet.
    pub fn empty() -> (s: Self)
        ensures
            s@ is None,
    {
        ResultSlot { value: None }
    }

    /// Publishes the result; once published it is never replaced.
    pub fn publish(&mut self, result: Result<(), GenerateError>)
        requires
            old(self)@ is None,
        ensures
            final(self)@ == Some(result),
    {
        self.value = Some(result);
    }

    /// Reads the slot; every reader of a published slot sees the same
    /// value.
    pub fn get(&self) -> (r: Option<Result<(), GenerateError>>)
        ensures
            r == self@,
    {
        self.value
    }
}

/// Finishes a led generation: the in-flight entry is removed first, and
/// only then is the result published, so no caller can observe a dangling
/// entry for an already-decided result.
pub fn finish_generation(
    map: &mut InFlightMap,
    key: &String,
    slot: &mut ResultSlot,
    result: Result<(), GenerateError>,
) -> (found: bool)
    requires
        old(map).wf(),
        old(slot)@ is None,
    ensures
        final(map).wf(),
        found == old(map)@.contains(key@),
        !final(map)@.contains(key@),
        forall|x: Seq<char>| x != key@ ==> old(map)@.contains(x) == final(map)@.contains(x),
        final(slot)@ == Some(result),
{
    let found = map.complete(key);
    slot.publish(result);
    found
}

/// The label put on an I/O failure raised by the freshness check itself.
pub fn freshness_error(kind: IoKind) -> (e: GenerateError)
    ensures
        e is Io,
        e->Io_context@ == "checking freshness of thumbnail"@,
        e->Io_kind == kind,
{
    GenerateError::Io { context: "checking freshness of thumbnail", kind }
}

/// One caller's coalescing decision, from the freshness check's outcome: a
/// failed check propagates as a labelled I/O error and changes nothing;
/// otherwise the in-flight bookkeeping decides and is updated.
pub fn plan_generation(map: &mut InFlightMap, fresh: Result<bool, IoKind>, key: &String) -> (r:
    Result<Plan, GenerateError>)
    requires
        old(map).wf(),
    ensures
        final(map).wf(),
        match fresh {
            Ok(b) => {
                &&& r is Ok
                &&& (r->Ok_0, final(map)@) == spec_plan(old(map)@, b, key@)
            },
            Err(kind) => {
                &&& final(map)@ == old(map)@
                &&& r is Err
                &&& r->Err_0 is Io
                &&& r->Err_0->Io_context@ == "checking freshness of thumbnail"@
                &&& r->Err_0->Io_kind == kind
            },
        },
{
    match fresh {
        Ok(b) => Ok(map.plan(b, key)),
        Err(kind) => Err(freshness_error(kind)),
    }
}

/// The plans handed out by `n` successive non-fresh requests for the same
/// key, each applied to the bookkeeping the previous one left behind.
pub open spec fn spec_plan_trace(inflight: Seq<Seq<char>>, key: Seq<char>, n: nat) -> Seq<Plan>
    decreases n,
{
    if n == 0 {
        Seq::empty()
    } else {
        let step = spec_plan(inflight, false, key);
        seq![step.0] + spec_plan_trace(step.1, key, (n - 1) as nat)
    }
}

/// While a key is in flight, every further non-fresh request for it joins.
pub proof fn lemma_join_while_inflight(inflight: Seq<Seq<char>>, key: Seq<char>, n: nat)
    requires
        inflight.contains(key),
    ensures
        spec_plan_trace(inflight, key, n).len() == n,
        forall|i: int| 0 <= i < n ==> spec_plan_trace(inflight, key, n)[i] == Plan::Join,
    decreases n,
{
    if n > 0 {
        lemma_join_while_inflight(inflight, key, (n - 1) as nat)
    }
}

/// Coalescing: however many requests race on one cache path with no fresh
/// cache file and no generation yet in flight, exactly one of them leads —
/// the first — and every other joins the leader's in-flight entry.
pub proof fn lemma_coalescing(inflight: Seq<Seq<char>>, key: Seq<char>, n: nat)
    requires
        !inflight.contains(key),
        n >= 1,
    ensures
        spec_plan_trace(inflight, key, n).len() == n,
        spec_plan_trace(inflight, key, n)[0] == Plan::Lead,
        forall|i: int| 1 <= i < n ==> spec_plan_trace(inflight, key, n)[i] == Plan::Join,
{
    let after = inflight.push(key);
    assert(after.contains(key)) by {
        assert(after[after.len() - 1] == key);
    }
    lemma_join_while_inflight(after, key, (n - 1) as nat);
}

/// Freshness idempotence: once a completed generation has left the cache
/// file strictly newer than the unmodified source, a second sequential
/// call is a freshness hit — whatever the bookkeeping holds, it neither
/// joins nor re-extracts, and the bookkeeping is untouched.
pub proof fn lemma_freshness_idempotent(
    inflight: Seq<Seq<char>>,
    key: Seq<char>,
    source_mtime: i64,
    cache_mtime: i64,
)
    requires
        source_mtime < cache_mtime,
    ensures
        crate::fresh::spec_is_fresh(Ok(source_mtime), Ok(cache_mtime)) == Result::<
            bool,
            IoKind,
        >::Ok(true),
        spec_plan(inflight, true, key) == (Plan::Fresh, inflight),
{
}

/// Invalidation: once the source's modification time has advanced to or
/// past the cached output's, the next caller finds the cache stale and —
/// with nothing in flight for the path — leads a fresh extraction.
pub proof fn lemma_invalidation(
    inflight: Seq<Seq<char>>,
    key: Seq<char>,
    source_mtime: i64,
    cache_mtime: i64,
)
    requires
        source_mtime >= cache_mtime,
        !inflight.contains(key),
    ensures
        crate::fresh::spec_is_fresh(Ok(source_mtime), Ok(cache_mtime)) == Result::<
            bool,
            IoKind,
        >::Ok(false),
        spec_plan(inflight, false, key).0 == Plan::Lead,
{
}

/// Every caller that waits on the same published slot receives the same
/// result: the slot holds a single immutable value.
pub proof fn lemma_waiters_share_result(
    slot: ResultSlot,
    first: Option<Result<(), GenerateError>>,
    second: Option<Result<(), GenerateError>>,
)
    requires
        first == slot@,
        second == slot@,
    ensures
        first == second,
{
}

} // verus!
