//! The waiter registry: one entry per child currently being waited on.
//!
//! The registry maps a child's process id to the waiter interested in it: the
//! write end of that waiter's notification channel (as a raw descriptor
//! number) and the child's resolved exit status, once some thread's
//! non-blocking re-probe has found it. Keys are unique — at most one live
//! waiter per child at a time; two concurrent waits on the same child are a
//! documented caller error, not handled here. An entry's status moves from
//! empty to resolved at most once, and the waiter that subscribed it is the
//! one that eventually removes it, whatever the outcome of its wait.
//!
//! All registry access in the surrounding mechanism happens under one
//! process-wide exclusive lock, held only across these short, non-blocking
//! operations. The registry itself is the sequential data structure that the
//! lock protects.

use vstd::prelude::*;
use vstd::pervasive::VecAdditionalExecFns;
use vstd::map::*;

use crate::status::ExitStatus;

verus! {

/// One waiter's registration: the child it waits for, the descriptor to
/// notify when that child is resolved, and the resolved status, if any.
#[derive(Copy, Clone)]
pub struct WaiterEntry {
    /// The child's process id.
    pub id: i32,
    /// Write end of the waiter's notification channel.
    pub wake_fd: i32,
    /// The child's exit status, once a re-probe has reaped it.
    pub status: Option<ExitStatus>,
}

/// Whether some entry of `s` is keyed by child id `k`.
pub open spec fn seq_has_id(s: Seq<WaiterEntry>, k: i32) -> bool {
    exists|i: int| 0 <= i < s.len() && s[i].id == k
}

/// Whether the entries of `s` are keyed by pairwise distinct child ids.
pub open spec fn ids_unique(s: Seq<WaiterEntry>) -> bool {
    forall|i: int, j: int| 0 <= i < j < s.len() ==> s[i].id != s[j].id
}

/// The index of the entry keyed by `k`, where one exists.
spec fn index_of_id(s: Seq<WaiterEntry>, k: i32) -> int {
    choose|i: int| 0 <= i < s.len() && s[i].id == k
}

/// With unique ids, any index holding id `k` is the index `index_of_id`
/// denotes.
proof fn lemma_index_unique(s: Seq<WaiterEntry>, k: i32, i: int)
    requires
        ids_unique(s),
        0 <= i < s.len(),
        s[i].id == k,
    ensures
        index_of_id(s, k) == i,
{
    assert(seq_has_id(s, k));
    let j = index_of_id(s, k);
    assert(0 <= j < s.len() && s[j].id == k);
    if i < j {
        assert(s[i].id != s[j].id);
    } else if j < i {
        assert(s[j].id != s[i].id);
    }
}

/// The mapping from child id to waiter entry, keys unique, ordering
/// irrelevant.
pub struct Registry {
    entries: Vec<WaiterEntry>,
}

impl Registry {
    /// The registry as a mapping from child id to that child's waiter entry.
    pub closed spec fn view(self) -> Map<i32, WaiterEntry> {
        Map::new(
            |k: i32| seq_has_id(self.entries@, k),
            |k: i32| self.entries@[index_of_id(self.entries@, k)],
        )
    }

    /// Well-formedness: at most one live waiter per child id.
    pub closed spec fn wf(self) -> bool {
        ids_unique(self.entries@)
    }

    /// Every entry is keyed by its own child id: the registry never files a
    /// waiter under a different child.
    pub proof fn lemma_keys_match_entries(self)
        ensures
            forall|k: i32| self@.contains_key(k) ==> (#[trigger] self@[k]).id == k,
    {
        assert forall|k: i32| self@.contains_key(k) implies (#[trigger] self@[k]).id == k by {
            let i = index_of_id(self.entries@, k);
            assert(0 <= i < self.entries@.len() && self.entries@[i].id == k);
        }
    }

    /// An empty registry: no waiter is subscribed.
    pub fn new() -> (r: Registry)
        ensures
            r.wf(),
            r@ == Map::<i32, WaiterEntry>::empty(),
    {
        let r = Registry { entries: Vec::new() };
        proof {
            assert_maps_equal!(r@, Map::<i32, WaiterEntry>::empty(), k => {});
        }
        r
    }

    /// The index of the entry for `id`, if one is subscribed.
    fn find_index(&self, id: i32) -> (r: Option<usize>)
        ensures
            match r {
                Some(i) => i < self.entries@.len() && self.entries@[i as int].id == id,
                None => !seq_has_id(self.entries@, id),
            },
    {
        let n = self.entries.len();
        let mut i: usize = 0;
        while i < n
            invariant
                n == self.entries@.len(),
                i <= n,
                forall|j: int| 0 <= j < i ==> self.entries@[j].id != id,
            decreases n - i,
        {
            if self.entries[i].id == id {
                return Some(i);
            }
            i += 1;
        }
        None
    }

    /// Whether a waiter is currently subscribed for child `id`.
    pub fn contains(&self, id: i32) -> (r: bool)
        ensures
            r == self@.contains_key(id),
    {
        match self.find_index(id) {
            Some(_) => {
                proof {
                    assert(seq_has_id(self.entries@, id));
                }
                true
            }
            None => false,
        }
    }

    /// Registers a waiter for child `id`, to be woken through `wake_fd`, with
    /// no status resolved yet. The caller has just probed the child and found
    /// it still running, under the same lock: subscribing for a child that
    /// already has a waiter is the unsupported concurrent-wait case, excluded
    /// here rather than silently overwritten.
    pub fn subscribe(&mut self, id: i32, wake_fd: i32)
        requires
            old(self).wf(),
            !old(self)@.contains_key(id),
        ensures
            final(self).wf(),
            final(self)@ == old(self)@.insert(
                id,
                (WaiterEntry { id, wake_fd, status: None }),
            ),
    {
        let entry = WaiterEntry { id, wake_fd, status: None };
        proof {
            assert(!seq_has_id(old(self).entries@, id));
        }
        self.entries.push(entry);
        proof {
            let s_old = old(self).entries@;
            let s_new = self.entries@;
            let last = s_old.len() as int;
            assert(s_new == s_old.push(entry));
            assert forall|i: int, j: int| 0 <= i < j < s_new.len() implies s_new[i].id
                != s_new[j].id by {
                if j < last {
                    assert(s_old[i].id != s_old[j].id);
                } else {
                    assert(s_new[j].id == id);
                    if s_new[i].id == id {
                        assert(s_old[i].id == id);
                        assert(seq_has_id(s_old, id));
                    }
                }
            }
            let target = old(self)@.insert(id, WaiterEntry { id, wake_fd, status: None });
            assert_maps_equal!(self@, target, k => {
                if k == id {
                    assert(s_new[last].id == id);
                    assert(seq_has_id(s_new, id));
                    lemma_index_unique(s_new, id, last);
                } else {
                    if seq_has_id(s_old, k) {
                        let i = choose|i: int| 0 <= i < s_old.len() && s_old[i].id == k;
                        assert(s_new[i].id == k);
                        assert(seq_has_id(s_new, k));
                        lemma_index_unique(s_old, k, i);
                        lemma_index_unique(s_new, k, i);
                    }
                    if seq_has_id(s_new, k) {
                        let i = choose|i: int| 0 <= i < s_new.len() && s_new[i].id == k;
                        assert(i < last);
                        assert(s_old[i].id == k);
                        assert(seq_has_id(s_old, k));
                    }
                }
            });
        }
    }

    /// Records child `id`'s freshly reaped status in its waiter's entry and
    /// hands back the descriptor to notify. A status is recorded at most once
    /// per entry: the entry must still be unresolved.
    pub fn resolve(&mut self, id: i32, status: ExitStatus) -> (wake_fd: i32)
        requires
            old(self).wf(),
            old(self)@.contains_key(id),
            old(self)@[id].status is None,
        ensures
            final(self).wf(),
            wake_fd == old(self)@[id].wake_fd,
            final(self)@ == old(self)@.insert(
                id,
                (WaiterEntry { id, wake_fd: old(self)@[id].wake_fd, status: Some(status) }),
            ),
    {
        let idx = match self.find_index(id) {
            Some(i) => i,
            None => {
                proof {
                    assert(false);
                }
                0
            }
        };
        proof {
            lemma_index_unique(self.entries@, id, idx as int);
        }
        let e = self.entries[idx];
        let new_entry = WaiterEntry { id: e.id, wake_fd: e.wake_fd, status: Some(status) };
        self.entries.set(idx, new_entry);
        proof {
            let s_old = old(self).entries@;
            let s_new = self.entries@;
            assert(s_new == s_old.update(idx as int, new_entry));
            assert(e == s_old[idx as int]);
            assert(e.id == id);
            assert forall|i: int, j: int| 0 <= i < j < s_new.len() implies s_new[i].id
                != s_new[j].id by {
                assert(s_new[i].id == s_old[i].id);
                assert(s_new[j].id == s_old[j].id);
            }
            let target = old(self)@.insert(
                id,
                WaiterEntry { id, wake_fd: old(self)@[id].wake_fd, status: Some(status) },
            );
            assert_maps_equal!(self@, target, k => {
                if seq_has_id(s_old, k) {
                    let i = choose|i: int| 0 <= i < s_old.len() && s_old[i].id == k;
                    assert(s_new[i].id == k);
                    assert(seq_has_id(s_new, k));
                    lemma_index_unique(s_old, k, i);
                    lemma_index_unique(s_new, k, i);
                }
                if seq_has_id(s_new, k) {
                    let i = choose|i: int| 0 <= i < s_new.len() && s_new[i].id == k;
                    assert(s_old[i].id == k);
                    assert(seq_has_id(s_old, k));
                }
            });
        }
        e.wake_fd
    }

    /// Removes child `id`'s entry on return from a wait call, whatever its
    /// outcome, and hands back the authoritative status it recorded: empty
    /// when the wait timed out before any re-probe reaped the child.
    pub fn unsubscribe_and_take(&mut self, id: i32) -> (r: Option<ExitStatus>)
        requires
            old(self).wf(),
            old(self)@.contains_key(id),
        ensures
            final(self).wf(),
            r == old(self)@[id].status,
            final(self)@ == old(self)@.remove(id),
    {
        let idx = match self.find_index(id) {
            Some(i) => i,
            None => {
                proof {
                    assert(false);
                }
                0
            }
        };
        proof {
            lemma_index_unique(self.entries@, id, idx as int);
        }
        let e = self.entries.remove(idx);
        proof {
            let s_old = old(self).entries@;
            let s_new = self.entries@;
            assert(s_new == s_old.remove(idx as int));
            assert(s_new.len() == s_old.len() - 1);
            assert forall|i: int| 0 <= i < s_new.len() implies s_new[i] == (if i < idx as int {
                s_old[i]
            } else {
                s_old[i + 1]
            }) by {
            }
            assert forall|i: int, j: int| 0 <= i < j < s_new.len() implies s_new[i].id
                != s_new[j].id by {
                let io: int = if i < idx as int { i } else { i + 1 };
                let jo: int = if j < idx as int { j } else { j + 1 };
                assert(s_old[io].id != s_old[jo].id);
            }
            let target = old(self)@.remove(id);
            assert_maps_equal!(self@, target, k => {
                if k != id {
                    if seq_has_id(s_old, k) {
                        let i = choose|i: int| 0 <= i < s_old.len() && s_old[i].id == k;
                        let i_new: int = if i < idx as int { i } else { i - 1 };
                        assert(i != idx as int);
                        assert(s_new[i_new].id == k);
                        assert(seq_has_id(s_new, k));
                        lemma_index_unique(s_old, k, i);
                        lemma_index_unique(s_new, k, i_new);
                    }
                    if seq_has_id(s_new, k) {
                        let i = choose|i: int| 0 <= i < s_new.len() && s_new[i].id == k;
                        let io: int = if i < idx as int { i } else { i + 1 };
                        assert(s_old[io].id == k);
                        assert(seq_has_id(s_old, k));
                    }
                } else {
                    if seq_has_id(s_new, id) {
                        let i = choose|i: int| 0 <= i < s_new.len() && s_new[i].id == id;
                        let io: int = if i < idx as int { i } else { i + 1 };
                        assert(s_old[io].id == id);
                        assert(io != idx as int);
                        assert(s_old[idx as int].id == id);
                        assert(false);
                    }
                }
            });
        }
        e.status
    }

    /// The ids of all children whose waiters are still unresolved: the set a
    /// global wakeup must re-probe, since the kernel's notification says only
    /// that some child changed state, not which.
    pub fn pending_ids(&self) -> (r: Vec<i32>)
        requires
            self.wf(),
        ensures
            forall|k: i32| #[trigger] r@.contains(k) <==> (self@.contains_key(k)
                && self@[k].status is None),
            r@.no_duplicates(),
    {
        let n = self.entries.len();
        let mut out: Vec<i32> = Vec::new();
        let mut i: usize = 0;
        while i < n
            invariant
                n == self.entries@.len(),
                i <= n,
                self.wf(),
                forall|k: i32| #[trigger] out@.contains(k) <==> exists|j: int|
                    0 <= j < i && (#[trigger] self.entries@[j]).id == k
                        && self.entries@[j].status is None,
                out@.no_duplicates(),
            decreases n - i,
        {
            let ghost out_old = out@;
            let e = self.entries[i];
            if e.status.is_none() {
                out.push(e.id);
                proof {
                    assert(out@ == out_old.push(e.id));
                    assert(!out_old.contains(e.id)) by {
                        if out_old.contains(e.id) {
                            let j = choose|j: int| 0 <= j < i && self.entries@[j].id == e.id
                                && self.entries@[j].status is None;
                            assert(self.entries@[j].id != self.entries@[i as int].id);
                        }
                    }
                    assert(out@.no_duplicates()) by {
                        assert forall|p: int, q: int| 0 <= p < q < out@.len() implies out@[p]
                            != out@[q] by {
                            if q < out@.len() - 1 {
                                assert(out_old[p] != out_old[q]);
                            } else {
                                assert(out@[q] == e.id);
                                assert(out_old.contains(out_old[p]) == out_old.contains(out@[p]));
                                if out@[p] == e.id {
                                    assert(out_old[p] == e.id);
                                    assert(out_old.contains(e.id));
                                }
                            }
                        }
                    }
                    assert forall|k: i32| #[trigger] out@.contains(k) implies exists|j: int|
                        0 <= j < i + 1 && (#[trigger] self.entries@[j]).id == k
                            && self.entries@[j].status is None by {
                        if k == e.id {
                            assert(self.entries@[i as int].id == k);
                        } else {
                            let w = choose|w: int| 0 <= w < out@.len() && out@[w] == k;
                            assert(out_old[w] == k);
                            assert(out_old.contains(k));
                        }
                    }
                    assert forall|k: i32| (exists|j: int| 0 <= j < i + 1
                        && (#[trigger] self.entries@[j]).id == k
                        && self.entries@[j].status is None) implies #[trigger] out@.contains(
                        k,
                    ) by {
                        let j = choose|j: int| 0 <= j < i + 1 && self.entries@[j].id == k
                            && self.entries@[j].status is None;
                        if j < i {
                            assert(out_old.contains(k));
                            let w = choose|w: int| 0 <= w < out_old.len() && out_old[w] == k;
                            assert(out@[w] == k);
                        } else {
                            assert(out@[out@.len() - 1] == k);
                        }
                    }
                }
            } else {
                proof {
                    assert forall|k: i32| #[trigger] out@.contains(k) <==> exists|j: int|
                        0 <= j < i + 1 && (#[trigger] self.entries@[j]).id == k
                            && self.entries@[j].status is None by {
                        if out@.contains(k) {
                            let j = choose|j: int| 0 <= j < i && self.entries@[j].id == k
                                && self.entries@[j].status is None;
                            assert(0 <= j < i + 1 && self.entries@[j].id == k
                                && self.entries@[j].status is None);
                        }
                        if exists|j: int| 0 <= j < i + 1 && (#[trigger] self.entries@[j]).id == k
                            && self.entries@[j].status is None {
                            let j = choose|j: int| 0 <= j < i + 1 && self.entries@[j].id == k
                                && self.entries@[j].status is None;
                            assert(j != i);
                        }
                    }
                }
            }
            i += 1;
        }
        proof {
            let s = self.entries@;
            assert forall|k: i32| #[trigger] out@.contains(k) implies (self@.contains_key(k)
                && self@[k].status is None) by {
                let j = choose|j: int| 0 <= j < s.len() && s[j].id == k && s[j].status is None;
                assert(seq_has_id(s, k));
                lemma_index_unique(s, k, j);
            }
            assert forall|k: i32| (self@.contains_key(k) && self@[k].status is None)
                implies #[trigger] out@.contains(k) by {
                let j = index_of_id(s, k);
                assert(0 <= j < s.len() && s[j].id == k);
            }
        }
        out
    }
}

/// Isolation of concurrent waiters: whatever one waiter's resolution or
/// removal does to the registry, every other child's entry — its presence,
/// its notification descriptor and its recorded status — is exactly what it
/// was before. No waiter can observe another waiter's child's status through
/// the registry.
pub proof fn lemma_waiters_isolated(m: Map<i32, WaiterEntry>, id: i32, e: WaiterEntry, other: i32)
    requires
        other != id,
    ensures
        m.insert(id, e).contains_key(other) == m.contains_key(other),
        m.contains_key(other) ==> m.insert(id, e)[other] == m[other],
        m.remove(id).contains_key(other) == m.contains_key(other),
        m.contains_key(other) ==> m.remove(id)[other] == m[other],
{
}

/// A finished wait leaves no trace: removing a waiter's entry frees its child
/// id, so a later call may subscribe for the same child again — the situation
/// after a wait that timed out and left the child running.
pub proof fn lemma_unsubscribe_frees_id(m: Map<i32, WaiterEntry>, id: i32)
    ensures
        !m.remove(id).contains_key(id),
{
}

} // verus!
