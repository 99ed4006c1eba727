//! The registry of execution contexts: integer ids mapped to entries, with
//! batch creation, lookup of requested ids, listing and removal.
//!
//! New ids start at the current number of entries. That is only collision
//! free while the ids are dense: after a removal, a later batch may reuse a
//! live id and replace its entry.
use std::collections::BTreeMap;
use vstd::prelude::*;

verus! {

broadcast use vstd::std_specs::btree::group_btree_axioms;

/// The map after a batch: each `Some` of `built` stored under `start` plus
/// its index, in order.
pub open spec fn batch_entries<V>(m: Map<usize, V>, start: int, built: Seq<Option<V>>) -> Map<
    usize,
    V,
>
    decreases built.len(),
{
    if built.len() == 0 {
        m
    } else {
        let prev = batch_entries(m, start, built.drop_last());
        match built.last() {
            Some(v) => prev.insert((start + built.len() - 1) as usize, v),
            None => prev,
        }
    }
}

/// How many entries of a batch were built.
pub open spec fn built_count<V>(built: Seq<Option<V>>) -> nat
    decreases built.len(),
{
    if built.len() == 0 {
        0
    } else {
        built_count(built.drop_last()) + if built.last() is Some {
            1nat
        } else {
            0nat
        }
    }
}

/// The requested ids that the map holds, in request order.
pub open spec fn found_ids<V>(m: Map<usize, V>, ids: Seq<usize>) -> Seq<usize>
    decreases ids.len(),
{
    if ids.len() == 0 {
        Seq::empty()
    } else {
        let prev = found_ids(m, ids.drop_last());
        if m.contains_key(ids.last()) {
            prev.push(ids.last())
        } else {
            prev
        }
    }
}

/// The requested ids that the map does not hold, in request order.
pub open spec fn missing_ids<V>(m: Map<usize, V>, ids: Seq<usize>) -> Seq<usize>
    decreases ids.len(),
{
    if ids.len() == 0 {
        Seq::empty()
    } else {
        let prev = missing_ids(m, ids.drop_last());
        if m.contains_key(ids.last()) {
            prev
        } else {
            prev.push(ids.last())
        }
    }
}

/// The map after removing the requested ids one after another.
pub open spec fn after_removal<V>(m: Map<usize, V>, ids: Seq<usize>) -> Map<usize, V>
    decreases ids.len(),
{
    if ids.len() == 0 {
        m
    } else {
        after_removal(m, ids.drop_last()).remove(ids.last())
    }
}

/// The requested ids that were present when their turn came, and so were
/// removed.
pub open spec fn removed_ids<V>(m: Map<usize, V>, ids: Seq<usize>) -> Seq<usize>
    decreases ids.len(),
{
    if ids.len() == 0 {
        Seq::empty()
    } else {
        let prev = removed_ids(m, ids.drop_last());
        if after_removal(m, ids.drop_last()).contains_key(ids.last()) {
            prev.push(ids.last())
        } else {
            prev
        }
    }
}

/// The requested ids that were absent when their turn came.
pub open spec fn unremoved_ids<V>(m: Map<usize, V>, ids: Seq<usize>) -> Seq<usize>
    decreases ids.len(),
{
    if ids.len() == 0 {
        Seq::empty()
    } else {
        let prev = unremoved_ids(m, ids.drop_last());
        if after_removal(m, ids.drop_last()).contains_key(ids.last()) {
            prev
        } else {
            prev.push(ids.last())
        }
    }
}

/// The outcome of adding a batch.
pub struct CreateSummary {
    /// How many entries the batch held.
    pub created: usize,
    /// How many entries the registry holds afterwards.
    pub total: usize,
}

/// Requested ids split by whether the registry holds them.
pub struct Resolution {
    pub found: Vec<usize>,
    pub missing: Vec<usize>,
}

/// Requested ids split by whether they were removed.
pub struct Removal {
    pub removed: Vec<usize>,
    pub missing: Vec<usize>,
}

/// A mapping from id to entry; `order` keeps the ids in insertion order.
pub struct RuntimeRegistry<V> {
    order: Vec<usize>,
    entries: BTreeMap<usize, V>,
}

impl<V> View for RuntimeRegistry<V> {
    type V = Map<usize, V>;

    closed spec fn view(&self) -> Map<usize, V> {
        self.entries@
    }
}

impl<V> RuntimeRegistry<V> {
    /// The live ids, in the order they were first inserted.
    pub closed spec fn ids(&self) -> Seq<usize> {
        self.order@
    }

    pub closed spec fn wf(&self) -> bool {
        &&& self.order@.no_duplicates()
        &&& forall|k: usize| self.entries@.contains_key(k) <==> self.order@.contains(k)
    }

    /// Every live id is listed once, and only live ids are.
    pub proof fn lemma_ids_match_entries(&self)
        requires
            self.wf(),
        ensures
            self.ids().no_duplicates(),
            forall|k: usize| self@.contains_key(k) <==> self.ids().contains(k),
            self@.dom().finite(),
            self@.dom().len() == self.ids().len(),
    {
        assert(self.order@.to_set() =~= self.entries@.dom());
        self.order@.unique_seq_to_set();
    }

    /// An empty registry.
    pub fn new() -> (r: Self)
        ensures
            r.wf(),
            r@ == Map::<usize, V>::empty(),
            r.ids() == Seq::<usize>::empty(),
    {
        RuntimeRegistry { order: Vec::new(), entries: BTreeMap::new() }
    }

    /// The number of entries.
    pub fn len(&self) -> (r: usize)
        requires
            self.wf(),
        ensures
            r == self@.dom().len(),
    {
        proof {
            self.lemma_ids_match_entries();
        }
        self.order.len()
    }

    /// The first id of the next batch: the current number of entries.
    pub fn next_id(&self) -> (r: usize)
        requires
            self.wf(),
        ensures
            r == self@.dom().len(),
    {
        self.len()
    }

    /// Whether `id` is live.
    pub fn contains(&self, id: usize) -> (r: bool)
        requires
            self.wf(),
        ensures
            r == self@.contains_key(id),
    {
        self.entries.contains_key(&id)
    }

    /// The entry under `id`, if any.
    pub fn get(&self, id: usize) -> (r: Option<&V>)
        requires
            self.wf(),
        ensures
            r matches Some(v) ==> self@.contains_key(id) && *v == self@[id],
            r is None ==> !self@.contains_key(id),
    {
        self.entries.get(&id)
    }

    /// Stores `value` under `id`, replacing the entry already there; says
    /// whether one was.
    pub fn insert(&mut self, id: usize, value: V) -> (replaced: bool)
        requires
            old(self).wf(),
        ensures
            final(self).wf(),
            final(self)@ == old(self)@.insert(id, value),
            replaced == old(self)@.contains_key(id),
            final(self).ids() == if replaced {
                old(self).ids()
            } else {
                old(self).ids().push(id)
            },
    {
        let present = self.entries.contains_key(&id);
        if !present {
            self.order.push(id);
        }
        self.entries.insert(id, value);
        proof {
            if !present {
                let t = self.order@;
                assert forall|a: int, b: int|
                    0 <= a < t.len() && 0 <= b < t.len() && a != b implies t[a] != t[b] by {
                    if a < t.len() - 1 && b < t.len() - 1 {
                        assert(t[a] == old(self).order@[a] && t[b] == old(self).order@[b]);
                    } else if a < t.len() - 1 {
                        assert(old(self).order@.contains(t[a]));
                    } else {
                        assert(old(self).order@.contains(t[b]));
                    }
                }
            }
            assert forall|k: usize| self.entries@.contains_key(k) <==> self.order@.contains(k) by {
                if k != id {
                    assert(old(self).order@.contains(k) ==> self.order@.contains(k)) by {
                        if old(self).order@.contains(k) {
                            let j = choose|j: int|
                                0 <= j < old(self).order@.len() && old(self).order@[j] == k;
                            assert(self.order@[j] == k);
                        }
                    }
                    assert(self.order@.contains(k) ==> old(self).order@.contains(k)) by {
                        if self.order@.contains(k) {
                            let j = choose|j: int|
                                0 <= j < self.order@.len() && self.order@[j] == k;
                            assert(old(self).order@[j] == k);
                        }
                    }
                } else if !present {
                    assert(self.order@[self.order@.len() - 1] == id);
                }
            }
        }
        present
    }

    /// Adds a batch whose first id is `start`: each built entry is stored
    /// under `start` plus its index; the failed ones are skipped.
    pub fn add_batch(&mut self, start: usize, built: Vec<Option<V>>) -> (r: CreateSummary)
        requires
            old(self).wf(),
            start + built@.len() <= usize::MAX + 1,
        ensures
            final(self).wf(),
            final(self)@ == batch_entries(old(self)@, start as int, built@),
            r.created == built_count(built@),
            r.total == final(self)@.dom().len(),
            (forall|k: usize| old(self)@.contains_key(k) ==> k < start) ==> final(self)@.dom().len()
                == old(self)@.dom().len() + r.created,
    {
        let ghost all = built@;
        let n = built.len();
        let mut rest = built;
        let mut i: usize = 0;
        let mut created: usize = 0;
        proof {
            old(self).lemma_ids_match_entries();
            assert(all.subrange(0, 0) =~= Seq::<Option<V>>::empty());
            assert(all.subrange(0, n as int) =~= all);
        }
        while i < n
            invariant
                n == all.len(),
                start + n <= usize::MAX + 1,
                i <= n,
                created <= i,
                rest@ == all.subrange(i as int, n as int),
                self.wf(),
                self@ == batch_entries(old(self)@, start as int, all.subrange(0, i as int)),
                created == built_count(all.subrange(0, i as int)),
                forall|k: usize|
                    self@.contains_key(k) ==> old(self)@.contains_key(k) || (start <= k < start + i),
                (forall|k: usize| old(self)@.contains_key(k) ==> k < start) ==> self.ids().len()
                    == old(self).ids().len() + created,
            decreases n - i,
        {
            let item = rest.remove(0);
            let id = start + i;
            proof {
                let next = all.subrange(0, i + 1);
                assert(next.drop_last() =~= all.subrange(0, i as int));
                assert(next.last() == item);
            }
            match item {
                Some(v) => {
                    let ghost fresh = (forall|k: usize| old(self)@.contains_key(k) ==> k < start);
                    let replaced = self.insert(id, v);
                    proof {
                        if fresh {
                            assert(!replaced);
                        }
                    }
                    created = created + 1;
                },
                None => {},
            }
            i = i + 1;
            proof {
                assert(rest@ =~= all.subrange(i as int, n as int));
            }
        }
        proof {
            self.lemma_ids_match_entries();
        }
        CreateSummary { created, total: self.order.len() }
    }

    /// Splits the requested ids, in request order, into those the registry
    /// holds and those it does not.
    pub fn resolve(&self, ids: &Vec<usize>) -> (r: Resolution)
        requires
            self.wf(),
        ensures
            r.found@ == found_ids(self@, ids@),
            r.missing@ == missing_ids(self@, ids@),
    {
        let mut found: Vec<usize> = Vec::new();
        let mut missing: Vec<usize> = Vec::new();
        let mut i: usize = 0;
        proof {
            assert(ids@.subrange(0, 0) =~= Seq::<usize>::empty());
        }
        while i < ids.len()
            invariant
                self.wf(),
                i <= ids@.len(),
                found@ == found_ids(self@, ids@.subrange(0, i as int)),
                missing@ == missing_ids(self@, ids@.subrange(0, i as int)),
            decreases ids@.len() - i,
        {
            let id = ids[i];
            proof {
                let next = ids@.subrange(0, i + 1);
                assert(next.drop_last() =~= ids@.subrange(0, i as int));
                assert(next.last() == id);
            }
            if self.contains(id) {
                found.push(id);
            } else {
                missing.push(id);
            }
            i = i + 1;
        }
        proof {
            assert(ids@.subrange(0, ids@.len() as int) =~= ids@);
        }
        Resolution { found, missing }
    }

    fn position(&self, id: usize) -> (i: usize)
        requires
            self.order@.contains(id),
        ensures
            i < self.order@.len(),
            self.order@[i as int] == id,
    {
        let mut i: usize = 0;
        while i < self.order.len()
            invariant
                i <= self.order@.len(),
                self.order@.contains(id),
                forall|j: int| 0 <= j < i ==> self.order@[j] != id,
            decreases self.order@.len() - i,
        {
            if self.order[i] == id {
                return i;
            }
            i = i + 1;
        }
        proof {
            let j = choose|j: int| 0 <= j < self.order@.len() && self.order@[j] == id;
            assert(self.order@[j] != id);
        }
        0
    }

    /// Removes `id` if it is live; says whether it was.
    pub fn remove(&mut self, id: usize) -> (removed: bool)
        requires
            old(self).wf(),
        ensures
            final(self).wf(),
            final(self)@ == old(self)@.remove(id),
            removed == old(self)@.contains_key(id),
    {
        if !self.entries.contains_key(&id) {
            proof {
                assert(self.entries@ =~= self.entries@.remove(id));
            }
            return false;
        }
        let ghost s = self.order@;
        let i = self.position(id);
        self.order.remove(i);
        self.entries.remove(&id);
        proof {
            let t = self.order@;
            assert forall|a: int, b: int| 0 <= a < t.len() && 0 <= b < t.len() && a != b implies t[a]
                != t[b] by {
                let oa = if a < i {
                    a
                } else {
                    a + 1
                };
                let ob = if b < i {
                    b
                } else {
                    b + 1
                };
                assert(t[a] == s[oa] && t[b] == s[ob]);
            }
            assert forall|k: usize| self.entries@.contains_key(k) <==> t.contains(k) by {
                if t.contains(k) {
                    let j = choose|j: int| 0 <= j < t.len() && t[j] == k;
                    let oj = if j < i {
                        j
                    } else {
                        j + 1
                    };
                    assert(s[oj] == k);
                    assert(oj != i);
                }
                if s.contains(k) && k != id {
                    let j = choose|j: int| 0 <= j < s.len() && s[j] == k;
                    assert(j != i);
                    if j < i {
                        assert(t[j] == k);
                    } else {
                        assert(t[j - 1] == k);
                    }
                }
            }
        }
        true
    }

    /// Removes the requested ids one after another, and reports, in request
    /// order, which were removed and which were not there.
    pub fn remove_ids(&mut self, ids: &Vec<usize>) -> (r: Removal)
        requires
            old(self).wf(),
        ensures
            final(self).wf(),
            final(self)@ == after_removal(old(self)@, ids@),
            r.removed@ == removed_ids(old(self)@, ids@),
            r.missing@ == unremoved_ids(old(self)@, ids@),
    {
        let mut removed: Vec<usize> = Vec::new();
        let mut missing: Vec<usize> = Vec::new();
        let mut i: usize = 0;
        proof {
            assert(ids@.subrange(0, 0) =~= Seq::<usize>::empty());
        }
        while i < ids.len()
            invariant
                self.wf(),
                i <= ids@.len(),
                self@ == after_removal(old(self)@, ids@.subrange(0, i as int)),
                removed@ == removed_ids(old(self)@, ids@.subrange(0, i as int)),
                missing@ == unremoved_ids(old(self)@, ids@.subrange(0, i as int)),
            decreases ids@.len() - i,
        {
            let id = ids[i];
            proof {
                let next = ids@.subrange(0, i + 1);
                assert(next.drop_last() =~= ids@.subrange(0, i as int));
                assert(next.last() == id);
            }
            if self.remove(id) {
                removed.push(id);
            } else {
                missing.push(id);
            }
            i = i + 1;
        }
        proof {
            assert(ids@.subrange(0, ids@.len() as int) =~= ids@);
        }
        Removal { removed, missing }
    }

    /// The live ids, in insertion order.
    pub fn list(&self) -> (r: Vec<usize>)
        requires
            self.wf(),
        ensures
            r@ == self.ids(),
            r@.no_duplicates(),
            forall|k: usize| r@.contains(k) <==> self@.contains_key(k),
            r@.len() == self@.dom().len(),
    {
        proof {
            self.lemma_ids_match_entries();
        }
        let mut r: Vec<usize> = Vec::new();
        let mut i: usize = 0;
        while i < self.order.len()
            invariant
                i <= self.order@.len(),
                r@ == self.order@.subrange(0, i as int),
            decreases self.order@.len() - i,
        {
            r.push(self.order[i]);
            i = i + 1;
            proof {
                assert(r@ =~= self.order@.subrange(0, i as int));
            }
        }
        proof {
            assert(r@ =~= self.order@);
        }
        r
    }

    /// Removes every entry; returns the ids that were live, in insertion
    /// order.
    pub fn clear(&mut self) -> (removed: Vec<usize>)
        requires
            old(self).wf(),
        ensures
            final(self).wf(),
            final(self)@ == Map::<usize, V>::empty(),
            final(self).ids() == Seq::<usize>::empty(),
            removed@ == old(self).ids(),
    {
        let mut removed: Vec<usize> = Vec::new();
        std::mem::swap(&mut removed, &mut self.order);
        self.entries.clear();
        removed
    }
}

/// A batch in which every slot was built (a valid artifact), started above
/// every live id (as a batch on dense ids starts at the entry count), creates
/// as many entries as it holds, and the total grows by exactly that many.
pub proof fn lemma_full_batch_grows_total<V>(m: Map<usize, V>, start: int, built: Seq<Option<V>>)
    requires
        m.dom().finite(),
        0 <= start,
        start + built.len() <= usize::MAX + 1,
        forall|k: usize| m.contains_key(k) ==> k < start,
        forall|i: int| 0 <= i < built.len() ==> built[i] is Some,
    ensures
        built_count(built) == built.len(),
        batch_entries(m, start, built).dom().finite(),
        batch_entries(m, start, built).dom().len() == m.dom().len() + built.len(),
        forall|k: usize| #[trigger]
            batch_entries(m, start, built).contains_key(k) ==> k < start + built.len(),
    decreases built.len(),
{
    if built.len() > 0 {
        let prev = built.drop_last();
        assert forall|i: int| 0 <= i < prev.len() implies prev[i] is Some by {
            assert(prev[i] == built[i]);
        }
        lemma_full_batch_grows_total(m, start, prev);
        let k = (start + built.len() - 1) as usize;
        let before = batch_entries(m, start, prev);
        assert(!before.contains_key(k));
        assert(built[built.len() - 1] is Some);
        assert(batch_entries(m, start, built) == before.insert(k, built.last()->Some_0));
        assert(before.insert(k, built.last()->Some_0).dom() == before.dom().insert(k));
    }
}

/// On an empty registry every requested id is missing and none is found.
pub proof fn lemma_resolve_on_empty<V>(ids: Seq<usize>)
    ensures
        found_ids(Map::<usize, V>::empty(), ids) == Seq::<usize>::empty(),
        missing_ids(Map::<usize, V>::empty(), ids) == ids,
    decreases ids.len(),
{
    if ids.len() > 0 {
        lemma_resolve_on_empty::<V>(ids.drop_last());
        assert(ids.drop_last().push(ids.last()) =~= ids);
    }
}

/// Requesting one live id finds exactly that id.
pub proof fn lemma_resolve_single_live<V>(m: Map<usize, V>, id: usize)
    requires
        m.contains_key(id),
    ensures
        found_ids(m, seq![id]) == seq![id],
        missing_ids(m, seq![id]) == Seq::<usize>::empty(),
{
    let s = seq![id];
    assert(s.drop_last() =~= Seq::<usize>::empty());
    assert(s.last() == id);
    assert(found_ids(m, s.drop_last()) == Seq::<usize>::empty());
    assert(missing_ids(m, s.drop_last()) == Seq::<usize>::empty());
    assert(found_ids(m, s) == found_ids(m, s.drop_last()).push(id));
    assert(Seq::<usize>::empty().push(id) =~= s);
}

/// No requested id survives a removal.
pub proof fn lemma_removed_are_gone<V>(m: Map<usize, V>, ids: Seq<usize>)
    ensures
        forall|k: usize| ids.contains(k) ==> !after_removal(m, ids).contains_key(k),
    decreases ids.len(),
{
    if ids.len() > 0 {
        lemma_removed_are_gone(m, ids.drop_last());
        assert(after_removal(m, ids) == after_removal(m, ids.drop_last()).remove(ids.last()));
        assert forall|k: usize| ids.contains(k) implies !after_removal(m, ids).contains_key(k) by {
            if k != ids.last() {
                let j = choose|j: int| 0 <= j < ids.len() && ids[j] == k;
                assert(ids.drop_last()[j] == k);
                assert(ids.drop_last().contains(k));
            }
        }
    }
}

/// Removing an absent id changes nothing and reports it as missing.
pub proof fn lemma_remove_absent<V>(m: Map<usize, V>, id: usize)
    requires
        !m.contains_key(id),
    ensures
        after_removal(m, seq![id]) == m,
        removed_ids(m, seq![id]) == Seq::<usize>::empty(),
        unremoved_ids(m, seq![id]) == seq![id],
{
    let s = seq![id];
    assert(s.drop_last() =~= Seq::<usize>::empty());
    assert(s.last() == id);
    assert(after_removal(m, s.drop_last()) == m);
    assert(removed_ids(m, s.drop_last()) == Seq::<usize>::empty());
    assert(unremoved_ids(m, s.drop_last()) == Seq::<usize>::empty());
    assert(m.remove(id) =~= m);
    assert(after_removal(m, s) == after_removal(m, s.drop_last()).remove(id));
    assert(Seq::<usize>::empty().push(id) =~= s);
}

/// A registry with no entries lists no id, so clearing it once more
/// removes nothing.
pub proof fn lemma_empty_lists_nothing<V>(reg: RuntimeRegistry<V>)
    requires
        reg.wf(),
        reg@ == Map::<usize, V>::empty(),
    ensures
        reg.ids() == Seq::<usize>::empty(),
{
    reg.lemma_ids_match_entries();
    assert(reg.ids() =~= Seq::<usize>::empty());
}

} // verus!
