//! The pending-request correlation table. Every outbound call is issued a
//! fresh nonzero identifier and a Waiting entry; the reader loop later settles
//! the entry with the remote outcome, and the caller consumes it destructively.
//! The table's mutual-exclusion guard lives with the transport layer; the
//! functions here are the atomic steps it protects.

use vstd::prelude::*;

use crate::error::{UnicomError, UnicomErrorKind};

verus! {

/// The lifecycle of one entry: waiting for the remote reply, or settled with
/// the outcome that the caller will receive.
#[derive(Debug)]
pub enum PendingState {
    Waiting,
    Settled(Result<Vec<u8>, UnicomError>),
}

/// One tracked outbound call.
#[derive(Debug)]
pub struct Pending {
    pub id: u64,
    pub state: PendingState,
}

/// The index of the first entry carrying the given identifier.
pub open spec fn seq_find(s: Seq<Pending>, id: u64) -> Option<int>
    decreases s.len(),
{
    if s.len() == 0 {
        None
    } else if s[0].id == id {
        Some(0int)
    } else {
        match seq_find(s.skip(1), id) {
            Some(i) => Some(i + 1),
            None => None,
        }
    }
}

proof fn lemma_seq_find_some(s: Seq<Pending>, id: u64)
    ensures
        match seq_find(s, id) {
            Some(i) => 0 <= i < s.len() && s[i].id == id,
            None => forall|j: int| 0 <= j < s.len() ==> s[j].id != id,
        },
    decreases s.len(),
{
    if s.len() > 0 && s[0].id != id {
        lemma_seq_find_some(s.skip(1), id);
        assert(forall|j: int| 0 <= j < s.skip(1).len() ==> s.skip(1)[j] == s[j + 1]);
        match seq_find(s.skip(1), id) {
            Some(i) => {
                assert(s.skip(1)[i].id == id);
            },
            None => {
                assert forall|j: int| 0 <= j < s.len() implies s[j].id != id by {
                    if j > 0 {
                        assert(s.skip(1)[j - 1].id != id);
                    }
                }
            },
        }
    }
}

proof fn lemma_seq_find_first(s: Seq<Pending>, id: u64, i: int)
    requires
        0 <= i < s.len(),
        s[i].id == id,
        forall|j: int| 0 <= j < i ==> s[j].id != id,
    ensures
        seq_find(s, id) == Some(i),
    decreases s.len(),
{
    if i > 0 {
        lemma_seq_find_first(s.skip(1), id, i - 1);
    }
}

proof fn lemma_seq_find_none(s: Seq<Pending>, id: u64)
    requires
        forall|j: int| 0 <= j < s.len() ==> s[j].id != id,
    ensures
        seq_find(s, id) is None,
    decreases s.len(),
{
    if s.len() > 0 {
        lemma_seq_find_none(s.skip(1), id);
    }
}

proof fn lemma_seq_find_push(s: Seq<Pending>, p: Pending, id: u64)
    ensures
        seq_find(s.push(p), id) == if seq_find(s, id) is Some {
            seq_find(s, id)
        } else if p.id == id {
            Some(s.len() as int)
        } else {
            None
        },
    decreases s.len(),
{
    if s.len() == 0 {
        assert(s.push(p).skip(1) =~= Seq::<Pending>::empty());
        assert(s.push(p)[0] == p);
        assert(seq_find(s.push(p).skip(1), id) is None);
    } else {
        assert(s.push(p).skip(1) =~= s.skip(1).push(p));
        assert(s.push(p)[0] == s[0]);
        assert(s.skip(1).len() == s.len() - 1);
        lemma_seq_find_push(s.skip(1), p, id);
        if s[0].id != id {
            assert(seq_find(s.push(p), id) == match seq_find(s.skip(1).push(p), id) {
                Some(i) => Some(i + 1),
                None => None,
            });
            assert(seq_find(s, id) == match seq_find(s.skip(1), id) {
                Some(i) => Some(i + 1),
                None => None,
            });
        }
    }
}

proof fn lemma_seq_find_update(s: Seq<Pending>, i: int, p: Pending, id: u64)
    requires
        0 <= i < s.len(),
        p.id == s[i].id,
    ensures
        seq_find(s.update(i, p), id) == seq_find(s, id),
    decreases s.len(),
{
    if i == 0 {
        if s[0].id != id {
            assert(s.update(0, p).skip(1) =~= s.skip(1));
        }
    } else {
        assert(s.update(i, p).skip(1) =~= s.skip(1).update(i - 1, p));
        lemma_seq_find_update(s.skip(1), i - 1, p, id);
    }
}

proof fn lemma_seq_find_remove(s: Seq<Pending>, i: int, id: u64)
    requires
        0 <= i < s.len(),
        forall|a: int, b: int| 0 <= a < b < s.len() ==> s[a].id != s[b].id,
    ensures
        id == s[i].id ==> seq_find(s.remove(i), id) is None,
        id != s[i].id ==> match (seq_find(s.remove(i), id), seq_find(s, id)) {
            (Some(a), Some(b)) => s.remove(i)[a] == s[b],
            (None, None) => true,
            _ => false,
        },
    decreases s.len(),
{
    lemma_seq_find_some(s, id);
    lemma_seq_find_some(s.remove(i), id);
    if i == 0 {
        assert(s.remove(0) =~= s.skip(1));
        if id == s[0].id {
            assert(forall|j: int| 0 <= j < s.skip(1).len() ==> s.skip(1)[j].id != id);
            lemma_seq_find_none(s.skip(1), id);
        } else {
            lemma_seq_find_some(s.skip(1), id);
        }
    } else {
        assert(s.remove(i).skip(1) =~= s.skip(1).remove(i - 1));
        lemma_seq_find_remove(s.skip(1), i - 1, id);
    }
}

/// Tracks the identifiers issued for outbound calls that still await their
/// remote outcome. The identifier counter is monotone for the lifetime of a
/// session and identifier 0 is never issued.
pub struct PendingController {
    counter: u64,
    pending: Vec<Pending>,
}

impl PendingController {
    /// The identifier counter: every identifier ever issued is in
    /// `1 ..= counter`, and the next fresh one is `counter + 1`.
    pub closed spec fn spec_counter(self) -> u64 {
        self.counter
    }

    /// Whether an entry with this identifier is currently tracked.
    pub closed spec fn has(self, id: u64) -> bool {
        seq_find(self.pending@, id) is Some
    }

    /// The state of the tracked entry with this identifier.
    pub closed spec fn state_of(self, id: u64) -> PendingState {
        self.pending@[seq_find(self.pending@, id)->Some_0].state
    }

    /// The identifiers this table has ever issued: 1 up to the counter.
    pub open spec fn spec_issued(self) -> Set<u64> {
        Set::new(|i: u64| 1 <= i <= self.spec_counter())
    }

    /// Every tracked identifier is nonzero, at most the counter, and unique.
    pub closed spec fn wf(self) -> bool {
        &&& forall|i: int|
            0 <= i < self.pending@.len() ==> 1 <= #[trigger] self.pending@[i].id
                <= self.counter
        &&& forall|a: int, b: int|
            0 <= a < b < self.pending@.len() ==> self.pending@[a].id != self.pending@[b].id
    }

    /// A fresh table: counter at zero, nothing tracked.
    pub fn new() -> (r: PendingController)
        ensures
            r.wf(),
            r.spec_counter() == 0,
            forall|id: u64| !r.has(id),
    {
        PendingController { counter: 0, pending: Vec::new() }
    }

    /// The current value of the identifier counter.
    pub fn counter(&self) -> (c: u64)
        ensures
            c == self.spec_counter(),
    {
        self.counter
    }

    /// Index of the entry with this identifier, if it is tracked.
    fn find_index(&self, id: u64) -> (r: Option<usize>)
        ensures
            match r {
                Some(i) => {
                    &&& seq_find(self.pending@, id) == Some(i as int)
                    &&& i < self.pending@.len()
                    &&& self.pending@[i as int].id == id
                },
                None => !self.has(id),
            },
    {
        let mut i: usize = 0;
        while i < self.pending.len()
            invariant
                i <= self.pending@.len(),
                forall|j: int| 0 <= j < i ==> self.pending@[j].id != id,
            decreases self.pending@.len() - i,
        {
            if self.pending[i].id == id {
                proof {
                    lemma_seq_find_first(self.pending@, id, i as int);
                }
                return Some(i);
            }
            i += 1;
        }
        proof {
            lemma_seq_find_none(self.pending@, id);
        }
        None
    }

    /// Issue a fresh identifier and register a Waiting entry for it. The
    /// identifier is one past the counter, so it is nonzero and differs from
    /// every identifier this table ever issued before.
    pub fn create(&mut self) -> (id: u64)
        requires
            old(self).wf(),
            old(self).spec_counter() < u64::MAX,
        ensures
            final(self).wf(),
            id == old(self).spec_counter() + 1,
            final(self).spec_counter() == id,
            id != 0,
            !old(self).spec_issued().contains(id),
            final(self).spec_issued() == old(self).spec_issued().insert(id),
            !old(self).has(id),
            final(self).has(id),
            final(self).state_of(id) is Waiting,
            forall|j: u64|
                j != id ==> #[trigger] final(self).has(j) == old(self).has(j) && (old(self).has(j)
                    ==> final(self).state_of(j) == old(self).state_of(j)),
    {
        proof {
            assert(Set::new(|i: u64| 1 <= i <= self.counter + 1) =~= Set::new(
                |i: u64| 1 <= i <= self.counter,
            ).insert((self.counter + 1) as u64));
        }
        self.counter = self.counter + 1;
        let id = self.counter;
        proof {
            lemma_seq_find_some(self.pending@, id);
        }
        let entry = Pending { id, state: PendingState::Waiting };
        proof {
            lemma_seq_find_push(self.pending@, entry, id);
            assert forall|j: u64| j != id implies #[trigger] seq_find(
                self.pending@.push(entry),
                j,
            ) == seq_find(self.pending@, j) && (seq_find(self.pending@, j) is Some
                ==> self.pending@.push(entry)[seq_find(self.pending@, j)->Some_0]
                == self.pending@[seq_find(self.pending@, j)->Some_0]) by {
                lemma_seq_find_push(self.pending@, entry, j);
                lemma_seq_find_some(self.pending@, j);
            }
        }
        self.pending.push(entry);
        id
    }

    /// Settle the entry with this identifier, overwriting its state with the
    /// given outcome. Fails with an input-invalid "pending unknown" error,
    /// and changes nothing, when no such entry is tracked.
    pub fn update(&mut self, id: u64, value: Result<Vec<u8>, UnicomError>) -> (r: Result<
        (),
        UnicomError,
    >)
        requires
            old(self).wf(),
        ensures
            final(self).wf(),
            final(self).spec_counter() == old(self).spec_counter(),
            match r {
                Ok(()) => {
                    &&& old(self).has(id)
                    &&& final(self).has(id)
                    &&& final(self).state_of(id) == PendingState::Settled(value)
                    &&& forall|j: u64|
                        j != id ==> #[trigger] final(self).has(j) == old(self).has(j) && (old(
                            self,
                        ).has(j) ==> final(self).state_of(j) == old(self).state_of(j))
                },
                Err(e) => {
                    &&& !old(self).has(id)
                    &&& *final(self) == *old(self)
                    &&& e.kind == UnicomErrorKind::InputInvalid
                    &&& e.description@ == "pending unknown"@
                },
            },
    {
        match self.find_index(id) {
            Some(i) => {
                let entry = Pending { id, state: PendingState::Settled(value) };
                proof {
                    assert(self.pending@[i as int].id == id);
                    lemma_seq_find_update(self.pending@, i as int, entry, id);
                    assert forall|j: u64| j != id implies #[trigger] seq_find(
                        self.pending@.update(i as int, entry),
                        j,
                    ) == seq_find(self.pending@, j) && (seq_find(self.pending@, j) is Some
                        ==> self.pending@.update(i as int, entry)[seq_find(
                        self.pending@,
                        j,
                    )->Some_0] == self.pending@[seq_find(self.pending@, j)->Some_0]) by {
                        lemma_seq_find_update(self.pending@, i as int, entry, j);
                        lemma_seq_find_some(self.pending@, j);
                    }
                }
                self.pending[i] = entry;
                Ok(())
            },
            None => Err(UnicomError::new(UnicomErrorKind::InputInvalid, "pending unknown")),
        }
    }

    /// Consume the settled entry with this identifier and hand its outcome
    /// back. Before the entry is settled this fails with an internal "still
    /// pending" error and leaves the entry in place; an identifier that is
    /// not tracked (never issued, or already consumed) fails with an internal
    /// "pending unknown" error. Nothing else is touched in any case.
    pub fn get(&mut self, id: u64) -> (r: Result<Vec<u8>, UnicomError>)
        requires
            old(self).wf(),
        ensures
            final(self).wf(),
            final(self).spec_counter() == old(self).spec_counter(),
            !old(self).has(id) ==> {
                &&& *final(self) == *old(self)
                &&& r is Err
                &&& r->Err_0.kind == UnicomErrorKind::Internal
                &&& r->Err_0.description@ == "pending unknown"@
            },
            old(self).has(id) && old(self).state_of(id) is Waiting ==> {
                &&& *final(self) == *old(self)
                &&& r is Err
                &&& r->Err_0.kind == UnicomErrorKind::Internal
                &&& r->Err_0.description@ == "still pending"@
            },
            old(self).has(id) && old(self).state_of(id) is Settled ==> {
                &&& r == old(self).state_of(id)->Settled_0
                &&& !final(self).has(id)
                &&& forall|j: u64|
                    j != id ==> #[trigger] final(self).has(j) == old(self).has(j) && (old(
                        self,
                    ).has(j) ==> final(self).state_of(j) == old(self).state_of(j))
            },
    {
        match self.find_index(id) {
            Some(i) => {
                let waiting = matches!(&self.pending[i].state, PendingState::Waiting);
                if waiting {
                    return Err(UnicomError::new(UnicomErrorKind::Internal, "still pending"));
                }
                proof {
                    lemma_seq_find_remove(self.pending@, i as int, id);
                    assert forall|j: u64| j != id implies {
                        &&& (seq_find(self.pending@.remove(i as int), j) is Some <==> seq_find(
                            self.pending@,
                            j,
                        ) is Some)
                        &&& (seq_find(self.pending@, j) is Some ==> self.pending@.remove(
                            i as int,
                        )[seq_find(self.pending@.remove(i as int), j)->Some_0] == self.pending@[
                            seq_find(self.pending@, j)->Some_0])
                    } by {
                        lemma_seq_find_remove(self.pending@, i as int, j);
                    }
                }
                let entry = self.pending.remove(i);
                match entry.state {
                    PendingState::Settled(v) => v,
                    PendingState::Waiting => Err(
                        UnicomError::new(UnicomErrorKind::Internal, "still pending"),
                    ),
                }
            },
            None => Err(UnicomError::new(UnicomErrorKind::Internal, "pending unknown")),
        }
    }
}

/// Law: identifiers issued by one table are pairwise distinct. `create`
/// returns an identifier outside the set of all identifiers issued before it
/// and adds it to that set, and `update` and `get` keep the counter — and so
/// the set — unchanged; hence over any sequence of operations on a fresh
/// table, no two `create` calls return the same identifier.
pub proof fn lemma_created_ids_distinct(c1: u64, id1: u64, c2: u64, id2: u64)
    requires
        id1 == c1 + 1,
        id2 == c2 + 1,
        c2 >= id1,
    ensures
        id2 != id1,
{
}

} // verus!
