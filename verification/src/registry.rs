//! The session registry: a mapping from caller-supplied identifier to
//! session handle with unique keys. This is the synchronization backbone of
//! the command surface; the host wraps one `Registry` in a mutex and every
//! operation below is one critical section's worth of work.

use vstd::prelude::*;

verus! {

/// One registered session: the identifier and the handle that owns the
/// session's live resources.
struct Entry<T> {
    id: String,
    handle: T,
}

/// No identifier occurs twice among the entries.
spec fn distinct_ids<T>(s: Seq<Entry<T>>) -> bool {
    forall|i: int, j: int| 0 <= i < j < s.len() ==> s[i].id@ != s[j].id@
}

/// The mapping that a sequence of entries denotes; a later entry would
/// shadow an earlier one, which `distinct_ids` rules out.
spec fn as_map<T>(s: Seq<Entry<T>>) -> Map<Seq<char>, T>
    decreases s.len(),
{
    if s.len() == 0 {
        Map::empty()
    } else {
        as_map(s.drop_last()).insert(s.last().id@, s.last().handle)
    }
}

proof fn lemma_as_map_contains<T>(s: Seq<Entry<T>>, k: Seq<char>)
    ensures
        as_map(s).contains_key(k) <==> exists|i: int| 0 <= i < s.len() && s[i].id@ == k,
    decreases s.len(),
{
    if s.len() > 0 {
        lemma_as_map_contains(s.drop_last(), k);
        if s.last().id@ == k {
            assert(s[s.len() - 1].id@ == k);
        } else {
            if as_map(s).contains_key(k) {
                let i = choose|i: int| 0 <= i < s.drop_last().len() && s.drop_last()[i].id@ == k;
                assert(s[i].id@ == k);
            }
            if exists|i: int| 0 <= i < s.len() && s[i].id@ == k {
                let i = choose|i: int| 0 <= i < s.len() && s[i].id@ == k;
                assert(s.drop_last()[i].id@ == k);
            }
        }
    }
}

proof fn lemma_distinct_drop_last<T>(s: Seq<Entry<T>>)
    requires
        distinct_ids(s),
        s.len() > 0,
    ensures
        distinct_ids(s.drop_last()),
{
    assert forall|i: int, j: int|
        0 <= i < j < s.drop_last().len() implies s.drop_last()[i].id@ != s.drop_last()[j].id@ by {
        assert(s.drop_last()[i] == s[i]);
        assert(s.drop_last()[j] == s[j]);
        assert(s[i].id@ != s[j].id@);
    }
}

proof fn lemma_as_map_index<T>(s: Seq<Entry<T>>, i: int)
    requires
        distinct_ids(s),
        0 <= i < s.len(),
    ensures
        as_map(s).contains_key(s[i].id@),
        as_map(s)[s[i].id@] == s[i].handle,
    decreases s.len(),
{
    if i == s.len() - 1 {
    } else {
        lemma_distinct_drop_last(s);
        assert(s.drop_last()[i] == s[i]);
        lemma_as_map_index(s.drop_last(), i);
        assert(s.last().id@ != s[i].id@);
    }
}

proof fn lemma_distinct_remove<T>(s: Seq<Entry<T>>, i: int)
    requires
        distinct_ids(s),
        0 <= i < s.len(),
    ensures
        distinct_ids(s.remove(i)),
{
    s.remove_ensures(i);
    assert forall|a: int, b: int|
        0 <= a < b < s.remove(i).len() implies s.remove(i)[a].id@ != s.remove(i)[b].id@ by {
        let a2 = if a < i { a } else { a + 1 };
        let b2 = if b < i { b } else { b + 1 };
        assert(s.remove(i)[a] == s[a2]);
        assert(s.remove(i)[b] == s[b2]);
        assert(s[a2].id@ != s[b2].id@);
    }
}

proof fn lemma_as_map_remove<T>(s: Seq<Entry<T>>, i: int)
    requires
        distinct_ids(s),
        0 <= i < s.len(),
    ensures
        as_map(s.remove(i)) == as_map(s).remove(s[i].id@),
    decreases s.len(),
{
    s.remove_ensures(i);
    lemma_distinct_drop_last(s);
    if i == s.len() - 1 {
        assert(s.remove(i) =~= s.drop_last());
        lemma_as_map_contains(s.drop_last(), s[i].id@);
        assert(forall|j: int| 0 <= j < s.drop_last().len() ==> s.drop_last()[j] == s[j]);
        assert(!as_map(s.drop_last()).contains_key(s[i].id@));
        assert(as_map(s.remove(i)) =~= as_map(s).remove(s[i].id@));
    } else {
        let t = s.remove(i);
        s.drop_last().remove_ensures(i);
        assert(t.drop_last() =~= s.drop_last().remove(i));
        assert(t.last() == s[s.len() - 1]);
        lemma_as_map_remove(s.drop_last(), i);
        assert(s.drop_last()[i] == s[i]);
        assert(s[i].id@ != s.last().id@);
        assert(as_map(t) =~= as_map(s).remove(s[i].id@));
    }
}

proof fn lemma_as_map_update<T>(s: Seq<Entry<T>>, i: int, e: Entry<T>)
    requires
        distinct_ids(s),
        0 <= i < s.len(),
        e.id@ == s[i].id@,
    ensures
        as_map(s.update(i, e)) == as_map(s).insert(s[i].id@, e.handle),
        distinct_ids(s.update(i, e)),
    decreases s.len(),
{
    let t = s.update(i, e);
    if i == s.len() - 1 {
        assert(t.drop_last() =~= s.drop_last());
        assert(t.last() == e);
        assert(as_map(t) =~= as_map(s).insert(s[i].id@, e.handle));
    } else {
        lemma_distinct_drop_last(s);
        assert(t.drop_last() =~= s.drop_last().update(i, e));
        assert(s.drop_last()[i] == s[i]);
        lemma_as_map_update(s.drop_last(), i, e);
        assert(t.last() == s.last());
        assert(s[i].id@ != s.last().id@);
        assert(as_map(t) =~= as_map(s).insert(s[i].id@, e.handle));
    }
    assert forall|a: int, b: int| 0 <= a < b < t.len() implies t[a].id@ != t[b].id@ by {
        assert(t[a].id@ == s[a].id@);
        assert(t[b].id@ == s[b].id@);
        assert(s[a].id@ != s[b].id@);
    }
}

/// The identifier-to-handle mapping.
///
/// Its abstract value (`self@`) is a `Map<Seq<char>, T>`; every operation
/// states its effect on that map. An entry is exclusively owned by the
/// registry and leaves it only through `remove` (or, scoped to the borrow,
/// through `get_mut`), so a handle never gains a second owner.
pub struct Registry<T> {
    entries: Vec<Entry<T>>,
}

impl<T> View for Registry<T> {
    type V = Map<Seq<char>, T>;

    closed spec fn view(&self) -> Map<Seq<char>, T> {
        as_map(self.entries@)
    }
}

impl<T> Registry<T> {
    /// Well-formedness: no identifier is registered twice. Established by
    /// `new` and preserved by every operation.
    pub closed spec fn wf(&self) -> bool {
        distinct_ids(self.entries@)
    }

    /// An empty registry.
    pub fn new() -> (r: Self)
        ensures
            r.wf(),
            r@ == Map::<Seq<char>, T>::empty(),
    {
        Registry { entries: Vec::new() }
    }

    /// The position of `id` among the entries, if it is registered.
    fn find_index(&self, id: &String) -> (r: Option<usize>)
        ensures
            match r {
                Some(i) => i < self.entries@.len() && self.entries@[i as int].id@ == id@,
                None => forall|j: int| 0 <= j < self.entries@.len() ==> self.entries@[j].id@ != id@,
            },
    {
        let n = self.entries.len();
        let mut i: usize = 0;
        while i < n
            invariant
                n == self.entries@.len(),
                i <= n,
                forall|j: int| 0 <= j < i ==> self.entries@[j].id@ != id@,
            decreases n - i,
        {
            if self.entries[i].id == *id {
                return Some(i);
            }
            i = i + 1;
        }
        None
    }

    /// Whether `id` is registered.
    pub fn contains_key(&self, id: &String) -> (r: bool)
        ensures
            r == self@.contains_key(id@),
    {
        proof {
            lemma_as_map_contains(self.entries@, id@);
        }
        match self.find_index(id) {
            Some(_) => true,
            None => false,
        }
    }

    /// Shared access to the handle for `id`, scoped to the borrow.
    pub fn get<'a>(&'a self, id: &String) -> (r: Option<&'a T>)
        requires
            self.wf(),
        ensures
            match r {
                Some(h) => self@.contains_key(id@) && *h == self@[id@],
                None => !self@.contains_key(id@),
            },
    {
        match self.find_index(id) {
            Some(i) => {
                proof {
                    lemma_as_map_index(self.entries@, i as int);
                }
                Some(&self.entries[i].handle)
            }
            None => {
                proof {
                    lemma_as_map_contains(self.entries@, id@);
                }
                None
            }
        }
    }

    /// Exclusive access to the handle for `id`, scoped to the borrow. The
    /// set of registered identifiers is unchanged; only the handle behind
    /// the returned reference can be replaced.
    pub fn get_mut<'a>(&'a mut self, id: &String) -> (r: Option<&'a mut T>)
        requires
            old(self).wf(),
        ensures
            final(self).wf(),
            match r {
                Some(h) => old(self)@.contains_key(id@) && *h == old(self)@[id@]
                    && final(self)@ == old(self)@.insert(id@, *final(h)),
                None => !old(self)@.contains_key(id@) && final(self)@ == old(self)@,
            },
    {
        match self.find_index(id) {
            Some(i) => {
                proof {
                    lemma_as_map_index(self.entries@, i as int);
                }
                let entry = &mut self.entries[i];
                let h = &mut entry.handle;
                proof {
                    lemma_as_map_update(
                        old(self).entries@,
                        i as int,
                        Entry { id: old(self).entries@[i as int].id, handle: *final(h) },
                    );
                }
                Some(h)
            }
            None => {
                proof {
                    lemma_as_map_contains(self.entries@, id@);
                }
                None
            }
        }
    }

    /// Register `handle` under `id`. Fails, handing the handle back to the
    /// caller and changing nothing, when `id` is already registered:
    /// silently overwriting would leak the previous handle's resources.
    pub fn try_insert(&mut self, id: String, handle: T) -> (r: Result<(), T>)
        requires
            old(self).wf(),
        ensures
            final(self).wf(),
            !old(self)@.contains_key(id@) ==> r == Result::<(), T>::Ok(())
                && final(self)@ == old(self)@.insert(id@, handle),
            old(self)@.contains_key(id@) ==> r == Result::<(), T>::Err(handle)
                && final(self)@ == old(self)@,
    {
        proof {
            lemma_as_map_contains(self.entries@, id@);
        }
        match self.find_index(&id) {
            Some(_) => Err(handle),
            None => {
                let ghost e = Entry { id: id, handle: handle };
                self.entries.push(Entry { id, handle });
                proof {
                    assert(self.entries@.drop_last() =~= old(self).entries@);
                    assert(self.entries@.last() == e);
                    assert forall|a: int, b: int|
                        0 <= a < b < self.entries@.len() implies self.entries@[a].id@
                        != self.entries@[b].id@ by {
                        if b < self.entries@.len() - 1 {
                            assert(old(self).entries@[a].id@ != old(self).entries@[b].id@);
                        } else {
                            assert(old(self).entries@[a].id@ != e.id@);
                        }
                    }
                }
                Ok(())
            }
        }
    }

    /// Remove and return the handle for `id`; the caller becomes its sole
    /// owner, responsible for any remaining teardown. Removal is
    /// idempotent: when `id` is absent nothing changes and `None` says so.
    pub fn remove(&mut self, id: &String) -> (r: Option<T>)
        requires
            old(self).wf(),
        ensures
            final(self).wf(),
            final(self)@ == old(self)@.remove(id@),
            match r {
                Some(h) => old(self)@.contains_key(id@) && h == old(self)@[id@],
                None => !old(self)@.contains_key(id@),
            },
    {
        proof {
            lemma_as_map_contains(self.entries@, id@);
        }
        match self.find_index(id) {
            Some(i) => {
                proof {
                    lemma_as_map_index(self.entries@, i as int);
                    lemma_as_map_remove(self.entries@, i as int);
                    lemma_distinct_remove(self.entries@, i as int);
                }
                let e = self.entries.remove(i);
                Some(e.handle)
            }
            None => {
                proof {
                    assert(old(self)@.remove(id@) =~= old(self)@);
                }
                None
            }
        }
    }
}

/// Law: removal retires an identifier for good. Once an identifier has been
/// removed from a registry's mapping, it is no longer present, so a second
/// removal of the same identifier finds nothing and changes nothing.
pub proof fn lemma_remove_idempotent<T>(m: Map<Seq<char>, T>, id: Seq<char>)
    ensures
        !m.remove(id).contains_key(id),
        m.remove(id).remove(id) == m.remove(id),
{
    assert(m.remove(id).remove(id) =~= m.remove(id));
}

} // verus!
