//! State shared by the requests of a process: the registry of the threads
//! that stream, each with the signal that cancels its relay.

use vstd::prelude::*;

use crate::text::str_eq;

verus! {

/// The threads that stream, each with its cancel signal.
///
/// A thread has at most one entry: a registration for a thread that has one
/// replaces it.
pub struct CancellationRegistry<S> {
    entries: Vec<(String, S)>,
}

/// Whether no two of the entries are for the same thread.
pub open spec fn distinct_threads<S>(entries: Seq<(String, S)>) -> bool {
    forall|i: int, j: int|
        0 <= i < j < entries.len() ==> (#[trigger] entries[i]).0@ != (#[trigger] entries[j]).0@
}

/// Whether one of the entries is for `thread_id`.
pub open spec fn registered<S>(entries: Seq<(String, S)>, thread_id: Seq<char>) -> bool {
    exists|i: int| 0 <= i < entries.len() && (#[trigger] entries[i]).0@ == thread_id
}

/// The position of an entry for `thread_id`.
pub open spec fn position<S>(entries: Seq<(String, S)>, thread_id: Seq<char>) -> int {
    choose|i: int| 0 <= i < entries.len() && (#[trigger] entries[i]).0@ == thread_id
}

/// The signals by thread.
pub open spec fn signals<S>(entries: Seq<(String, S)>) -> Map<Seq<char>, S> {
    Map::new(
        |thread_id: Seq<char>| registered(entries, thread_id),
        |thread_id: Seq<char>| entries[position(entries, thread_id)].1,
    )
}

/// Among distinct entries, the entry at `i` is the one of its thread.
pub proof fn lemma_position<S>(entries: Seq<(String, S)>, i: int)
    requires
        distinct_threads(entries),
        0 <= i < entries.len(),
    ensures
        registered(entries, entries[i].0@),
        position(entries, entries[i].0@) == i,
        signals(entries)[entries[i].0@] == entries[i].1,
{
    let p = position(entries, entries[i].0@);
    assert(0 <= p < entries.len() && entries[p].0@ == entries[i].0@);
    if p < i {
        assert(entries[p].0@ != entries[i].0@);
    } else if i < p {
        assert(entries[i].0@ != entries[p].0@);
    }
}

impl<S> View for CancellationRegistry<S> {
    type V = Map<Seq<char>, S>;

    closed spec fn view(&self) -> Map<Seq<char>, S> {
        signals(self.entries@)
    }
}

impl<S> CancellationRegistry<S> {
    /// No thread has two entries.
    #[verifier::type_invariant]
    spec fn wf(&self) -> bool {
        distinct_threads(self.entries@)
    }

    /// A registry without entries.
    pub fn new() -> (registry: Self)
        ensures
            registry@ == Map::<Seq<char>, S>::empty(),
    {
        let registry = CancellationRegistry { entries: Vec::new() };
        assert(registry@ =~= Map::<Seq<char>, S>::empty());
        registry
    }

    /// The position of the entry of `thread_id`, if it has one.
    fn find(&self, thread_id: &str) -> (found: Option<usize>)
        ensures
            match found {
                Some(i) => i < self.entries.len() && self.entries@[i as int].0@ == thread_id@,
                None => !registered(self.entries@, thread_id@),
            },
    {
        let mut i: usize = 0;
        while i < self.entries.len()
            invariant
                i <= self.entries.len(),
                forall|k: int| 0 <= k < i ==> (#[trigger] self.entries@[k]).0@ != thread_id@,
            decreases self.entries.len() - i,
        {
            if str_eq(self.entries[i].0.as_str(), thread_id) {
                return Some(i);
            }
            i += 1;
        }
        None
    }

    /// Whether `thread_id` has an entry.
    pub fn contains(&self, thread_id: &str) -> (yes: bool)
        ensures
            yes == self@.dom().contains(thread_id@),
    {
        match self.find(thread_id) {
            Some(i) => {
                proof {
                    use_type_invariant(self);
                    lemma_position(self.entries@, i as int);
                }
                true
            },
            None => false,
        }
    }

    /// How many threads have an entry.
    pub fn len(&self) -> (count: usize)
        ensures
            self@.dom().finite(),
            count == self@.dom().len(),
    {
        proof {
            use_type_invariant(self);
            lemma_count(self.entries@);
        }
        self.entries.len()
    }

    /// Registers `signal` for `thread_id`. A thread that had an entry keeps
    /// only the new signal; the old one is handed back.
    pub fn register(&mut self, thread_id: String, signal: S) -> (replaced: Option<S>)
        ensures
            final(self)@ == old(self)@.insert(thread_id@, signal),
            replaced == (if old(self)@.dom().contains(thread_id@) {
                Some(old(self)@[thread_id@])
            } else {
                None
            }),
    {
        let ghost before = self.entries@;
        proof {
            use_type_invariant(&*self);
        }
        match self.find(thread_id.as_str()) {
            Some(i) => {
                proof {
                    lemma_position(before, i as int);
                }
                let mut entries: Vec<(String, S)> = Vec::new();
                std::mem::swap(&mut self.entries, &mut entries);
                let (_, old_signal) = entries.remove(i);
                let ghost without = entries@;
                proof {
                    assert forall|a: int, b: int| 0 <= a < b < without.len() implies (
                    #[trigger] without[a]).0@ != (#[trigger] without[b]).0@ by {
                        let ia = if a < i { a } else { a + 1 };
                        let ib = if b < i { b } else { b + 1 };
                        assert(without[a] == before[ia]);
                        assert(without[b] == before[ib]);
                    }
                }
                entries.push((thread_id, signal));
                proof {
                    let after = entries@;
                    assert forall|a: int, b: int| 0 <= a < b < after.len() implies (
                    #[trigger] after[a]).0@ != (#[trigger] after[b]).0@ by {
                        let ia = if a < i { a } else { a + 1 };
                        assert(after[a] == before[ia]);
                        if b < after.len() - 1 {
                            let ib = if b < i { b } else { b + 1 };
                            assert(after[b] == before[ib]);
                        } else {
                            assert(before[i as int].0@ == thread_id@);
                            if ia < i {
                                assert(before[ia].0@ != before[i as int].0@);
                            } else {
                                assert(before[i as int].0@ != before[ia].0@);
                            }
                        }
                    }
                    lemma_remove(before, without, i as int);
                    lemma_push(without, (thread_id, signal));
                    assert(signals(before).remove(thread_id@).insert(thread_id@, signal)
                        =~= signals(before).insert(thread_id@, signal));
                }
                self.entries = entries;
                Some(old_signal)
            },
            None => {
                let mut entries: Vec<(String, S)> = Vec::new();
                std::mem::swap(&mut self.entries, &mut entries);
                entries.push((thread_id, signal));
                proof {
                    let after = entries@;
                    assert forall|a: int, b: int| 0 <= a < b < after.len() implies (
                    #[trigger] after[a]).0@ != (#[trigger] after[b]).0@ by {
                        assert(after[a] == before[a]);
                        if b < after.len() - 1 {
                            assert(after[b] == before[b]);
                        }
                    }
                    lemma_push(before, (thread_id, signal));
                }
                self.entries = entries;
                None
            },
        }
    }

    /// Takes the entry of `thread_id` out of the registry and hands back its
    /// signal, for the caller to deliver. `None` where the thread has no
    /// entry: it is unknown or has finished.
    pub fn cancel(&mut self, thread_id: &str) -> (signal: Option<S>)
        ensures
            final(self)@ == old(self)@.remove(thread_id@),
            signal == (if old(self)@.dom().contains(thread_id@) {
                Some(old(self)@[thread_id@])
            } else {
                None
            }),
    {
        let ghost before = self.entries@;
        proof {
            use_type_invariant(&*self);
        }
        match self.find(thread_id) {
            Some(i) => {
                proof {
                    lemma_position(before, i as int);
                }
                let mut entries: Vec<(String, S)> = Vec::new();
                std::mem::swap(&mut self.entries, &mut entries);
                let (_, signal) = entries.remove(i);
                proof {
                    let after = entries@;
                    assert forall|a: int, b: int| 0 <= a < b < after.len() implies (
                    #[trigger] after[a]).0@ != (#[trigger] after[b]).0@ by {
                        let ia = if a < i { a } else { a + 1 };
                        let ib = if b < i { b } else { b + 1 };
                        assert(after[a] == before[ia]);
                        assert(after[b] == before[ib]);
                    }
                    lemma_remove(before, after, i as int);
                }
                self.entries = entries;
                Some(signal)
            },
            None => {
                assert(self@ =~= old(self)@.remove(thread_id@));
                None
            },
        }
    }

    /// Removes the entry of `thread_id`, if it has one.
    pub fn unregister(&mut self, thread_id: &str)
        ensures
            final(self)@ == old(self)@.remove(thread_id@),
    {
        let _ = self.cancel(thread_id);
    }
}

/// The signals after an entry was added for a thread that had none.
proof fn lemma_push<S>(before: Seq<(String, S)>, entry: (String, S))
    requires
        distinct_threads(before.push(entry)),
    ensures
        signals(before.push(entry)) == signals(before).insert(entry.0@, entry.1),
{
    let after = before.push(entry);
    let last = after.len() - 1;
    let left = signals(after);
    let right = signals(before).insert(entry.0@, entry.1);
    assert(after[last] == entry);
    assert(distinct_threads(before)) by {
        assert forall|i: int, j: int| 0 <= i < j < before.len() implies (#[trigger] before[i]).0@
            != (#[trigger] before[j]).0@ by {
            assert(after[i] == before[i] && after[j] == before[j]);
        }
    }
    assert forall|key: Seq<char>| left.dom().contains(key) <==> right.dom().contains(key) by {
        if left.dom().contains(key) {
            let m = position(after, key);
            if m < last {
                assert(before[m] == after[m]);
            }
        }
        if right.dom().contains(key) && key != entry.0@ {
            let k = position(before, key);
            assert(after[k] == before[k]);
        }
    }
    assert forall|key: Seq<char>| left.dom().contains(key) implies left[key] == right[key] by {
        let m = position(after, key);
        lemma_position(after, m);
        if m < last {
            assert(before[m] == after[m]);
            lemma_position(before, m);
            assert(after[m].0@ != after[last].0@);
        }
    }
    assert(left =~= right);
}

/// Distinct entries are for as many threads as there are entries.
proof fn lemma_count<S>(entries: Seq<(String, S)>)
    requires
        distinct_threads(entries),
    ensures
        signals(entries).dom().finite(),
        signals(entries).dom().len() == entries.len(),
    decreases entries.len(),
{
    if entries.len() == 0 {
        assert(signals(entries).dom() =~= Set::<Seq<char>>::empty());
    } else {
        let before = entries.drop_last();
        let last = entries.last();
        assert(entries == before.push(last));
        assert(distinct_threads(before)) by {
            assert forall|i: int, j: int| 0 <= i < j < before.len() implies (#[trigger] before[i]).0@
                != (#[trigger] before[j]).0@ by {
                assert(entries[i] == before[i] && entries[j] == before[j]);
            }
        }
        lemma_count(before);
        lemma_push(before, last);
        assert(!signals(before).dom().contains(last.0@)) by {
            if registered(before, last.0@) {
                let k = position(before, last.0@);
                assert(entries[k] == before[k]);
                assert(entries[k].0@ != entries[entries.len() - 1].0@);
            }
        }
        assert(signals(entries).dom() =~= signals(before).dom().insert(last.0@));
    }
}

/// The signals after the entry at `i` was taken out.
proof fn lemma_remove<S>(before: Seq<(String, S)>, after: Seq<(String, S)>, i: int)
    requires
        distinct_threads(before),
        distinct_threads(after),
        0 <= i < before.len(),
        after == before.remove(i),
    ensures
        signals(after) == signals(before).remove(before[i].0@),
{
    let thread_id = before[i].0@;
    let left = signals(after);
    let right = signals(before).remove(thread_id);
    assert forall|key: Seq<char>| left.dom().contains(key) <==> right.dom().contains(key) by {
        if left.dom().contains(key) {
            let m = position(after, key);
            let k = if m < i { m } else { m + 1 };
            assert(after[m] == before[k]);
            assert(before[k].0@ == key);
            if k < i {
                assert(before[k].0@ != before[i].0@);
            } else {
                assert(before[i].0@ != before[k].0@);
            }
        }
        if right.dom().contains(key) {
            let k = position(before, key);
            assert(before[k].0@ == key);
            assert(k != i);
            let m = if k < i { k } else { k - 1 };
            assert(after[m] == before[k]);
        }
    }
    assert forall|key: Seq<char>| left.dom().contains(key) implies left[key] == right[key] by {
        let m = position(after, key);
        let k = if m < i { m } else { m + 1 };
        assert(after[m] == before[k]);
        lemma_position(after, m);
        lemma_position(before, k);
    }
    assert(left =~= right);
}

/// Unregistering is idempotent: a second removal of the same thread changes
/// nothing.
pub proof fn law_unregister_idempotent<S>(signals: Map<Seq<char>, S>, thread_id: Seq<char>)
    ensures
        signals.remove(thread_id).remove(thread_id) == signals.remove(thread_id),
{
    assert(signals.remove(thread_id).remove(thread_id) =~= signals.remove(thread_id));
}

/// The last registration wins: after two registrations for one thread, the
/// thread has the second signal and the other threads are as before.
pub proof fn law_last_registration_wins<S>(
    signals: Map<Seq<char>, S>,
    thread_id: Seq<char>,
    first: S,
    second: S,
)
    ensures
        signals.insert(thread_id, first).insert(thread_id, second) == signals.insert(
            thread_id,
            second,
        ),
{
    assert(signals.insert(thread_id, first).insert(thread_id, second) =~= signals.insert(
        thread_id,
        second,
    ));
}

} // verus!
