//! The session registry: the sole owner of session lifetime, mapping a
//! session identifier to the verified state of one live session.
//!
//! The registry is an association list with pairwise-distinct identifiers;
//! its view is the finite map from identifier (as a character sequence) to
//! session state. Callers that need mutual exclusion wrap one `SessionStore`
//! in a lock; every critical section is one short method call here.

use vstd::prelude::*;

use crate::metrics::PtyMetrics;

verus! {

/// The verified state of one session: whether the single exit notification
/// has been claimed, and the session's counters.
#[derive(Clone, Copy, Debug, PartialEq, Eq, Structural)]
pub struct Session {
    /// Set once, by whichever path first claims the session's exit
    /// notification; never cleared.
    pub exit_event_sent: bool,
    pub metrics: PtyMetrics,
}

impl Session {
    /// A freshly created session: exit unclaimed, counters at zero.
    pub fn new(created_at_ms: u64) -> (s: Session)
        ensures
            s == (Session {
                exit_event_sent: false,
                metrics: PtyMetrics {
                    bytes_read: 0,
                    bytes_written: 0,
                    messages_sent: 0,
                    created_at_ms,
                },
            }),
    {
        Session { exit_event_sent: false, metrics: PtyMetrics::new(created_at_ms) }
    }
}

struct Entry {
    id: String,
    session: Session,
}

/// Registry of live sessions, keyed by their identifiers.
pub struct SessionStore {
    entries: Vec<Entry>,
}

impl View for SessionStore {
    type V = Map<Seq<char>, Session>;

    closed spec fn view(&self) -> Map<Seq<char>, Session> {
        Map::new(
            |k: Seq<char>| self.spec_contains(k),
            |k: Seq<char>| self.entries@[self.idx_of(k)].session,
        )
    }
}

impl SessionStore {
    spec fn has_at(self, k: Seq<char>, i: int) -> bool {
        0 <= i < self.entries@.len() && self.entries@[i].id@ == k
    }

    closed spec fn spec_contains(self, k: Seq<char>) -> bool {
        exists|i: int| self.has_at(k, i)
    }

    spec fn idx_of(self, k: Seq<char>) -> int {
        choose|i: int| self.has_at(k, i)
    }

    /// No two entries carry the same identifier; every method keeps this.
    pub closed spec fn wf(self) -> bool {
        forall|i: int, j: int|
            0 <= i < j < self.entries@.len() ==> self.entries@[i].id@ != self.entries@[j].id@
    }

    /// The entry at index `i` is the one the view speaks of for its id.
    proof fn lemma_entry_view(self, i: int)
        requires
            self.wf(),
            0 <= i < self.entries@.len(),
        ensures
            self@.contains_key(self.entries@[i].id@),
            self@[self.entries@[i].id@] == self.entries@[i].session,
    {
        let k = self.entries@[i].id@;
        assert(self.has_at(k, i));
        let j = self.idx_of(k);
        assert(self.has_at(k, j));
        if i < j {
            assert(self.entries@[i].id@ != self.entries@[j].id@);
        }
        if j < i {
            assert(self.entries@[j].id@ != self.entries@[i].id@);
        }
    }

    /// An empty registry.
    pub fn new() -> (s: SessionStore)
        ensures
            s.wf(),
            s@ == Map::<Seq<char>, Session>::empty(),
    {
        let s = SessionStore { entries: Vec::new() };
        proof {
            assert(s@ =~= Map::<Seq<char>, Session>::empty());
        }
        s
    }

    fn find_index(&self, id: &String) -> (r: Option<usize>)
        ensures
            match r {
                Some(i) => self.has_at(id@, i as int),
                None => !self.spec_contains(id@),
            },
    {
        let mut i: usize = 0;
        while i < self.entries.len()
            invariant
                i <= self.entries@.len(),
                forall|j: int| 0 <= j < i ==> self.entries@[j].id@ != id@,
            decreases self.entries@.len() - i,
        {
            if self.entries[i].id == *id {
                return Some(i);
            }
            i = i + 1;
        }
        None
    }

    /// Whether a session is registered under `id`.
    pub fn contains(&self, id: &String) -> (r: bool)
        ensures
            r == self@.contains_key(id@),
    {
        match self.find_index(id) {
            Some(_) => true,
            None => false,
        }
    }

    /// The session registered under `id`, if any.
    pub fn get(&self, id: &String) -> (r: Option<&Session>)
        requires
            self.wf(),
        ensures
            match r {
                Some(s) => self@.contains_key(id@) && *s == self@[id@],
                None => !self@.contains_key(id@),
            },
    {
        match self.find_index(id) {
            Some(i) => {
                proof {
                    self.lemma_entry_view(i as int);
                }
                Some(&self.entries[i].session)
            },
            None => None,
        }
    }

    /// Detach the session registered under `id`. Removing an unknown id is a
    /// no-op, so removal is idempotent.
    pub fn remove(&mut self, id: &String) -> (r: Option<Session>)
        requires
            old(self).wf(),
        ensures
            final(self).wf(),
            final(self)@ == old(self)@.remove(id@),
            r == if old(self)@.contains_key(id@) {
                Some(old(self)@[id@])
            } else {
                None::<Session>
            },
            !old(self)@.contains_key(id@) ==> final(self)@ == old(self)@,
    {
        match self.find_index(id) {
            Some(i) => {
                proof {
                    old(self).lemma_entry_view(i as int);
                }
                let e = self.entries.remove(i);
                proof {
                    self.lemma_after_removal(*old(self), i as int, id@);
                }
                Some(e.session)
            },
            None => {
                proof {
                    assert(self@ =~= self@.remove(id@));
                }
                None
            },
        }
    }

    /// After deleting index `i` (whose id was `k`) from `pre`, the registry
    /// is still well formed and its view lost exactly the key `k`.
    proof fn lemma_after_removal(self, pre: SessionStore, i: int, k: Seq<char>)
        requires
            pre.wf(),
            0 <= i < pre.entries@.len(),
            pre.entries@[i].id@ == k,
            self.entries@ == pre.entries@.remove(i),
        ensures
            self.wf(),
            self@ == pre@.remove(k),
    {
        let pres = pre.entries@;
        let news = self.entries@;
        assert(news.len() == pres.len() - 1);
        assert forall|j: int| 0 <= j < i implies news[j] == pres[j] by {
            assert(news[j] == pres.remove(i)[j]);
        }
        assert forall|j: int| i <= j < news.len() implies news[j] == pres[j + 1] by {
            assert(news[j] == pres.remove(i)[j]);
        }
        assert(self.wf());
        assert forall|q: Seq<char>| true implies #[trigger] self.spec_contains(q) == (
        pre.spec_contains(q) && q != k) by {
            if self.spec_contains(q) {
                let j = choose|j: int| self.has_at(q, j);
                let pj: int = if j < i {
                    j
                } else {
                    j + 1
                };
                assert(pre.has_at(q, pj));
                if q == k {
                    if pj < i {
                        assert(pres[pj].id@ != pres[i].id@);
                    } else {
                        assert(pres[i].id@ != pres[pj].id@);
                    }
                }
            }
            if pre.spec_contains(q) && q != k {
                let j = choose|j: int| pre.has_at(q, j);
                let nj: int = if j < i {
                    j
                } else {
                    j - 1
                };
                assert(self.has_at(q, nj));
            }
        }
        assert forall|q: Seq<char>| self.spec_contains(q) implies self@[q] == pre@[q] by {
            let j = choose|j: int| self.has_at(q, j);
            let pj: int = if j < i {
                j
            } else {
                j + 1
            };
            assert(pre.has_at(q, pj));
            self.lemma_entry_view(j);
            pre.lemma_entry_view(pj);
        }
        assert(self@ =~= pre@.remove(k));
    }

    /// Register `session` under `id`, replacing any session already there.
    pub fn add(&mut self, id: String, session: Session)
        requires
            old(self).wf(),
        ensures
            final(self).wf(),
            final(self)@ == old(self)@.insert(id@, session),
    {
        let ghost pre = *old(self);
        let _ = self.remove(&id);
        let ghost mid = *self;
        assert(!mid.spec_contains(id@)) by {
            if mid.spec_contains(id@) {
                let j = choose|j: int| mid.has_at(id@, j);
                mid.lemma_entry_view(j);
            }
        }
        self.entries.push(Entry { id, session });
        proof {
            self.lemma_after_push(mid, id@, session);
            assert(mid@.insert(id@, session) =~= pre@.insert(id@, session));
        }
    }

    /// Pushing an entry with a fresh id keeps the registry well formed and
    /// inserts exactly that binding into the view.
    proof fn lemma_after_push(self, pre: SessionStore, k: Seq<char>, session: Session)
        requires
            pre.wf(),
            !pre.spec_contains(k),
            self.entries@.len() == pre.entries@.len() + 1,
            self.entries@[self.entries@.len() - 1].id@ == k,
            self.entries@[self.entries@.len() - 1].session == session,
            forall|j: int| 0 <= j < pre.entries@.len() ==> self.entries@[j] == pre.entries@[j],
        ensures
            self.wf(),
            self@ == pre@.insert(k, session),
    {
        let n = pre.entries@.len() as int;
        assert forall|j: int| 0 <= j < n implies self.entries@[j].id@ != k by {
            assert(!pre.has_at(k, j));
        }
        assert(self.wf());
        assert forall|q: Seq<char>| true implies #[trigger] self.spec_contains(q) == (
        pre.spec_contains(q) || q == k) by {
            if self.spec_contains(q) {
                let j = choose|j: int| self.has_at(q, j);
                if j < n {
                    assert(pre.has_at(q, j));
                }
            }
            if pre.spec_contains(q) {
                let j = choose|j: int| pre.has_at(q, j);
                assert(self.has_at(q, j));
            }
            if q == k {
                assert(self.has_at(q, n));
            }
        }
        assert forall|q: Seq<char>| self.spec_contains(q) implies self@[q] == (
        if q == k {
            session
        } else {
            pre@[q]
        }) by {
            if q == k {
                self.lemma_entry_view(n);
            } else {
                let j = choose|j: int| pre.has_at(q, j);
                pre.lemma_entry_view(j);
                self.lemma_entry_view(j);
            }
        }
        assert(self@ =~= pre@.insert(k, session));
    }

    /// A snapshot of all registered identifiers: one per live session, each
    /// exactly once, in registry order.
    pub fn get_all_ids(&self) -> (r: Vec<String>)
        requires
            self.wf(),
        ensures
            forall|i: int| 0 <= i < r@.len() ==> self@.contains_key(#[trigger] r@[i]@),
            forall|k: Seq<char>|
                self@.contains_key(k) ==> exists|i: int| 0 <= i < r@.len() && #[trigger] r@[i]@
                    == k,
            forall|i: int, j: int| 0 <= i < j < r@.len() ==> r@[i]@ != r@[j]@,
    {
        let mut r: Vec<String> = Vec::new();
        let mut i: usize = 0;
        while i < self.entries.len()
            invariant
                i <= self.entries@.len(),
                r@.len() == i,
                forall|j: int| 0 <= j < i ==> r@[j]@ == self.entries@[j].id@,
            decreases self.entries@.len() - i,
        {
            r.push(self.entries[i].id.clone());
            i = i + 1;
        }
        proof {
            assert forall|j: int| 0 <= j < r@.len() implies self@.contains_key(#[trigger] r@[j]@) by {
                self.lemma_entry_view(j);
            }
            assert forall|k: Seq<char>| self@.contains_key(k) implies exists|j: int|
                0 <= j < r@.len() && #[trigger] r@[j]@ == k by {
                let j = choose|j: int| self.has_at(k, j);
                assert(r@[j]@ == k);
            }
        }
        r
    }
}

} // verus!
