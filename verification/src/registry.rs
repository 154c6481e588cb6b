//! The correlation registry: which reply sink waits for which request.
//!
//! An entry is made when a command goes out and leaves exactly once: with the
//! reply that carries its id, with the timeout of its caller, or when the
//! connection goes down. The sink is an opaque token to the registry: it is
//! handed back by value, so nobody can complete it twice.

use vstd::prelude::*;

verus! {

/// No id occurs twice.
pub open spec fn ids_distinct<S>(entries: Seq<(String, S)>) -> bool {
    forall|i: int, j: int|
        0 <= i < j < entries.len() ==> (#[trigger] entries[i]).0@ != (#[trigger] entries[j]).0@
}

/// The map that a list of entries stands for: each id to its sink.
pub open spec fn entries_map<S>(entries: Seq<(String, S)>) -> Map<Seq<char>, S>
    decreases entries.len(),
{
    if entries.len() == 0 {
        Map::empty()
    } else {
        entries_map(entries.drop_last()).insert(entries.last().0@, entries.last().1)
    }
}

/// An id is in the map exactly when an entry carries it.
pub proof fn lemma_entries_map_dom<S>(entries: Seq<(String, S)>, id: Seq<char>)
    ensures
        entries_map(entries).contains_key(id) <==> exists|i: int|
            0 <= i < entries.len() && (#[trigger] entries[i]).0@ == id,
    decreases entries.len(),
{
    if entries.len() > 0 {
        let front = entries.drop_last();
        lemma_entries_map_dom(front, id);
        if entries_map(entries).contains_key(id) {
            if entries.last().0@ == id {
                assert(entries[entries.len() - 1].0@ == id);
            } else {
                let i = choose|i: int| 0 <= i < front.len() && (#[trigger] front[i]).0@ == id;
                assert(entries[i].0@ == id);
            }
        }
        if exists|i: int| 0 <= i < entries.len() && (#[trigger] entries[i]).0@ == id {
            let i = choose|i: int| 0 <= i < entries.len() && (#[trigger] entries[i]).0@ == id;
            if i < entries.len() - 1 {
                assert(front[i].0@ == id);
            }
        }
    }
}

/// A list in which no id occurs twice stays so without its last entry.
pub proof fn lemma_front_distinct<S>(entries: Seq<(String, S)>)
    requires
        ids_distinct(entries),
        entries.len() > 0,
    ensures
        ids_distinct(entries.drop_last()),
{
    let front = entries.drop_last();
    assert forall|a: int, b: int| 0 <= a < b < front.len() implies (#[trigger] front[a]).0@ != (
    #[trigger] front[b]).0@ by {
        assert(front[a] == entries[a] && front[b] == entries[b]);
    }
}

/// Where no id occurs twice, the map gives each entry's id that entry's sink.
pub proof fn lemma_entries_map_value<S>(entries: Seq<(String, S)>, i: int)
    requires
        ids_distinct(entries),
        0 <= i < entries.len(),
    ensures
        entries_map(entries).contains_key(entries[i].0@),
        entries_map(entries)[entries[i].0@] == entries[i].1,
    decreases entries.len(),
{
    let front = entries.drop_last();
    if i < entries.len() - 1 {
        assert(front[i] == entries[i]);
        lemma_front_distinct(entries);
        lemma_entries_map_value(front, i);
        assert(entries[i].0@ != entries[entries.len() - 1].0@);
    }
}

/// Where no id occurs twice, taking an entry out of the list takes its id
/// out of the map and leaves the rest as it was.
pub proof fn lemma_entries_map_remove<S>(entries: Seq<(String, S)>, i: int)
    requires
        ids_distinct(entries),
        0 <= i < entries.len(),
    ensures
        ids_distinct(entries.remove(i)),
        entries_map(entries.remove(i)) == entries_map(entries).remove(entries[i].0@),
    decreases entries.len(),
{
    let rest = entries.remove(i);
    let front = entries.drop_last();
    let last = entries.len() - 1;
    assert(ids_distinct(rest)) by {
        assert forall|a: int, b: int| 0 <= a < b < rest.len() implies (#[trigger] rest[a]).0@ != (
        #[trigger] rest[b]).0@ by {
            let a0 = if a < i { a } else { a + 1 };
            let b0 = if b < i { b } else { b + 1 };
            assert(rest[a] == entries[a0] && rest[b] == entries[b0]);
        }
    }
    if i == last {
        assert(rest =~= front);
        lemma_entries_map_dom(front, entries[i].0@);
        if entries_map(front).contains_key(entries[i].0@) {
            let j = choose|j: int| 0 <= j < front.len() && (#[trigger] front[j]).0@ == entries[i].0@;
            assert(front[j] == entries[j]);
            assert(entries[j].0@ != entries[i].0@);
        }
        assert(entries_map(front) =~= entries_map(entries).remove(entries[i].0@));
    } else {
        lemma_front_distinct(entries);
        assert(front[i] == entries[i]);
        lemma_entries_map_remove(front, i);
        assert(rest.drop_last() =~= front.remove(i));
        assert(rest.last() == entries[last]);
        assert(entries[i].0@ != entries[last].0@);
        assert(entries_map(rest) =~= entries_map(entries).remove(entries[i].0@));
    }
}

/// The correlation registry.
pub struct CorrelationRegistry<S> {
    entries: Vec<(String, S)>,
}

impl<S> View for CorrelationRegistry<S> {
    type V = Map<Seq<char>, S>;

    closed spec fn view(&self) -> Map<Seq<char>, S> {
        entries_map(self.entries@)
    }
}

impl<S> CorrelationRegistry<S> {
    /// The invariant of the registry: no id is registered twice.
    pub closed spec fn wf(&self) -> bool {
        ids_distinct(self.entries@)
    }

    /// An empty registry.
    pub fn new() -> (registry: Self)
        ensures
            registry.wf(),
            registry@ == Map::<Seq<char>, S>::empty(),
    {
        CorrelationRegistry { entries: Vec::new() }
    }

    fn position(&self, id: &String) -> (at: Option<usize>)
        requires
            self.wf(),
        ensures
            match at {
                Some(i) => i < self.entries@.len() && self.entries@[i as int].0@ == id@,
                None => forall|i: int|
                    0 <= i < self.entries@.len() ==> (#[trigger] self.entries@[i]).0@ != id@,
            },
            at is Some <==> self@.contains_key(id@),
            at matches Some(i) ==> self@[id@] == self.entries@[i as int].1,
    {
        let mut i: usize = 0;
        while i < self.entries.len()
            invariant
                self.wf(),
                i <= self.entries@.len(),
                forall|j: int| 0 <= j < i ==> (#[trigger] self.entries@[j]).0@ != id@,
            decreases self.entries@.len() - i,
        {
            if self.entries[i].0 == *id {
                proof {
                    lemma_entries_map_dom(self.entries@, id@);
                    lemma_entries_map_value(self.entries@, i as int);
                }
                return Some(i);
            }
            i = i + 1;
        }
        proof {
            lemma_entries_map_dom(self.entries@, id@);
        }
        None
    }

    /// Whether a sink waits under `id`.
    pub fn contains(&self, id: &String) -> (found: bool)
        requires
            self.wf(),
        ensures
            found == self@.contains_key(id@),
    {
        self.position(id).is_some()
    }

    /// Whether no sink waits at all.
    pub fn is_empty(&self) -> (empty: bool)
        requires
            self.wf(),
        ensures
            empty == (self@ == Map::<Seq<char>, S>::empty()),
    {
        proof {
            if self.entries@.len() > 0 {
                lemma_entries_map_value(self.entries@, 0);
            }
        }
        self.entries.len() == 0
    }

    /// Records `sink` under `id`. The id must not be registered: a second
    /// registration of an id in flight is a fault of the caller.
    pub fn register(&mut self, id: String, sink: S)
        requires
            old(self).wf(),
            !old(self)@.contains_key(id@),
        ensures
            final(self).wf(),
            final(self)@ == old(self)@.insert(id@, sink),
    {
        proof {
            lemma_entries_map_dom(self.entries@, id@);
        }
        let ghost before = self.entries@;
        self.entries.push((id, sink));
        proof {
            assert(self.entries@.drop_last() =~= before);
            assert forall|i: int, j: int| 0 <= i < j < self.entries@.len() implies (
            #[trigger] self.entries@[i]).0@ != (#[trigger] self.entries@[j]).0@ by {
                assert(self.entries@[i] == before[i]);
                if j < before.len() {
                    assert(self.entries@[j] == before[j]);
                }
            }
        }
    }

    /// Records `sink` under `id` whether or not the id is registered, and
    /// hands back the sink that it displaces, if any.
    pub fn replace(&mut self, id: String, sink: S) -> (displaced: Option<S>)
        requires
            old(self).wf(),
        ensures
            final(self).wf(),
            final(self)@ == old(self)@.insert(id@, sink),
            displaced == (if old(self)@.contains_key(id@) {
                Some(old(self)@[id@])
            } else {
                None::<S>
            }),
    {
        let displaced = self.resolve(&id);
        self.register(id, sink);
        displaced
    }

    /// Takes the sink that waits under `id` out of the registry. Where none
    /// waits, nothing changes: a late reply finds its caller gone.
    pub fn resolve(&mut self, id: &String) -> (sink: Option<S>)
        requires
            old(self).wf(),
        ensures
            final(self).wf(),
            final(self)@ == old(self)@.remove(id@),
            sink == (if old(self)@.contains_key(id@) {
                Some(old(self)@[id@])
            } else {
                None::<S>
            }),
    {
        match self.position(id) {
            Some(i) => {
                proof {
                    lemma_entries_map_remove(self.entries@, i as int);
                }
                let entry = self.entries.remove(i);
                Some(entry.1)
            },
            None => {
                None
            },
        }
    }

    /// Drops the sink that waits under `id`, for a caller whose timeout
    /// fired, and says whether one was still there.
    pub fn expire(&mut self, id: &String) -> (was_pending: bool)
        requires
            old(self).wf(),
        ensures
            final(self).wf(),
            final(self)@ == old(self)@.remove(id@),
            was_pending == old(self)@.contains_key(id@),
    {
        self.resolve(id).is_some()
    }

    /// Empties the registry and hands every entry back, for the caller to
    /// fail each sink when the connection is gone.
    pub fn drain(&mut self) -> (abandoned: Vec<(String, S)>)
        requires
            old(self).wf(),
        ensures
            final(self).wf(),
            final(self)@ == Map::<Seq<char>, S>::empty(),
            ids_distinct(abandoned@),
            entries_map(abandoned@) == old(self)@,
    {
        let mut abandoned: Vec<(String, S)> = Vec::new();
        std::mem::swap(&mut self.entries, &mut abandoned);
        abandoned
    }
}

} // verus!
