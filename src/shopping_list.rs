use std::collections::HashMap;
use vstd::prelude::*;
use vstd::std_specs::iter::IteratorSpec;

verus! {

broadcast use vstd::std_specs::hash::group_hash_axioms;

/// One entry of the list. `id` holds the 128 bits of the entry's UUID.
#[derive(Debug, PartialEq, Eq)]
pub struct ShoppingItem {
    pub id: u128,
    pub content: String,
    pub checked: bool,
    pub timestamp: i64,
}

impl Clone for ShoppingItem {
    fn clone(&self) -> (r: Self)
        ensures
            r == *self,
    {
        ShoppingItem {
            id: self.id,
            content: self.content.clone(),
            checked: self.checked,
            timestamp: self.timestamp,
        }
    }
}

/// Which records a delete removes.
#[derive(Clone, Copy, Debug, PartialEq, Eq, Structural)]
pub enum DeleteFilter {
    /// Every record whose checked flag is set.
    Checked,
    /// Every record.
    All,
}

impl DeleteFilter {
    /// Whether a delete with this filter removes `item`.
    pub open spec fn removes(self, item: ShoppingItem) -> bool {
        match self {
            DeleteFilter::Checked => item.checked,
            DeleteFilter::All => true,
        }
    }
}

/// The records of `m` that a delete with filter `f` keeps.
pub open spec fn retained(m: Map<u128, ShoppingItem>, f: DeleteFilter) -> Map<u128, ShoppingItem> {
    Map::new(|k: u128| m.contains_key(k) && !f.removes(m[k]), |k: u128| m[k])
}

/// Every key of `m` is the identity of the record stored under it.
pub open spec fn keyed_by_id(m: Map<u128, ShoppingItem>) -> bool {
    forall|k: u128| #[trigger] m.contains_key(k) ==> m[k].id == k
}

/// The authoritative store: identity to record, one record per identity.
#[derive(Debug)]
pub struct ShoppingList {
    items: HashMap<u128, ShoppingItem>,
}

impl View for ShoppingList {
    type V = Map<u128, ShoppingItem>;

    closed spec fn view(&self) -> Map<u128, ShoppingItem> {
        self.items@
    }
}

impl ShoppingList {
    /// The store's invariant: each record sits under its own identity.
    pub open spec fn wf(&self) -> bool {
        keyed_by_id(self@)
    }

    /// An empty store.
    pub fn new() -> (r: ShoppingList)
        ensures
            r.wf(),
            r@ == Map::<u128, ShoppingItem>::empty(),
    {
        ShoppingList { items: HashMap::new() }
    }

    /// Number of records.
    pub fn len(&self) -> (r: usize)
        ensures
            r == self@.len(),
    {
        self.items.len()
    }

    /// A copy of the current contents, detached from the store.
    pub fn get_snapshot(&self) -> (r: HashMap<u128, ShoppingItem>)
        ensures
            r@ == self@,
    {
        self.items.clone()
    }

    /// Inserts `item` under its identity, replacing any record already there.
    pub fn upsert(&mut self, item: ShoppingItem)
        requires
            old(self).wf(),
        ensures
            final(self).wf(),
            final(self)@ == old(self)@.insert(item.id, item),
    {
        let id = item.id;
        self.items.insert(id, item);
    }
    /// Removes every record that `filter` selects; returns how many went.
    pub fn delete_where(&mut self, filter: DeleteFilter) -> (r: usize)
        requires
            old(self).wf(),
        ensures
            final(self).wf(),
            final(self)@ == retained(old(self)@, filter),
            r == old(self)@.len() - final(self)@.len(),
    {
        let ghost m = self@;
        let ghost seq = vstd::std_specs::hash::spec_hash_map_iter(&self.items).remaining();
        let mut kept: HashMap<u128, ShoppingItem> = HashMap::new();
        for entry in it: self.items.iter()
            invariant
                m == self@,
                keyed_by_id(m),
                it.seq() == seq,
                forall|k: u128| #[trigger]
                    kept@.contains_key(k) ==> m.contains_key(k) && !filter.removes(m[k])
                        && kept@[k] == m[k],
                forall|j: int|
                    0 <= j < it.index() && !filter.removes(*it.seq()[j].1)
                        ==> #[trigger] kept@.contains_key(*it.seq()[j].0),
        {
            let (k, v) = entry;
            let keep = match filter {
                DeleteFilter::Checked => !v.checked,
                DeleteFilter::All => false,
            };
            if keep {
                kept.insert(*k, v.clone());
            }
        }
        proof {
            assert forall|k: u128| #[trigger] m.contains_key(k) && !filter.removes(m[k])
                implies kept@.contains_key(k) by {
                assert(seq.contains((&k, &m[k])));
                let j = choose|j: int| 0 <= j < seq.len() && seq[j] == (&k, &m[k]);
                assert(kept@.contains_key(*seq[j].0));
            }
            assert(kept@ =~= retained(m, filter));
            vstd::set_lib::lemma_len_subset(kept@.dom(), m.dom());
        }
        let removed = self.items.len() - kept.len();
        self.items = kept;
        removed
    }
    /// Replaces the whole contents with `initial`, provided every record in it
    /// sits under its own identity; otherwise leaves the store as it was.
    /// Returns whether the contents were replaced.
    pub fn load(&mut self, initial: HashMap<u128, ShoppingItem>) -> (r: bool)
        requires
            old(self).wf(),
        ensures
            final(self).wf(),
            r == keyed_by_id(initial@),
            r ==> final(self)@ == initial@,
            !r ==> final(self)@ == old(self)@,
    {
        if all_keyed_by_id(&initial) {
            self.items = initial;
            true
        } else {
            false
        }
    }
}

/// Whether every record of `m` sits under its own identity.
pub fn all_keyed_by_id(m: &HashMap<u128, ShoppingItem>) -> (r: bool)
    ensures
        r == keyed_by_id(m@),
{
    let ghost seq = vstd::std_specs::hash::spec_hash_map_iter(m).remaining();
    let mut ok = true;
    for entry in it: m.iter()
        invariant
            it.seq() == seq,
            ok <==> forall|j: int| 0 <= j < it.index() ==> (#[trigger] seq[j]).1.id == *seq[j].0,
    {
        let (k, v) = entry;
        if v.id != *k {
            ok = false;
        }
    }
    proof {
        if ok {
            assert forall|k: u128| #[trigger] m@.contains_key(k) implies m@[k].id == k by {
                assert(seq.contains((&k, &m@[k])));
                let j = choose|j: int| 0 <= j < seq.len() && seq[j] == (&k, &m@[k]);
                assert(seq[j].1.id == *seq[j].0);
            }
        } else {
            let j = choose|j: int| 0 <= j < seq.len() && !((#[trigger] seq[j]).1.id == *seq[j].0);
            assert(m@.contains_key(*seq[j].0));
        }
    }
    ok
}

/// The contents after upserting `items` in order, starting from `m`.
pub open spec fn after_upserts(m: Map<u128, ShoppingItem>, items: Seq<ShoppingItem>) -> Map<
    u128,
    ShoppingItem,
>
    decreases items.len(),
{
    if items.len() == 0 {
        m
    } else {
        after_upserts(m, items.drop_last()).insert(items.last().id, items.last())
    }
}

/// Upserts with pairwise distinct identities into an empty store leave exactly
/// one record per identity, each equal to the record upserted under it.
pub proof fn lemma_distinct_upserts(items: Seq<ShoppingItem>)
    requires
        forall|i: int, j: int|
            0 <= i < j < items.len() ==> (#[trigger] items[i]).id != (#[trigger] items[j]).id,
    ensures
        forall|k: u128|
            #[trigger] after_upserts(Map::empty(), items).contains_key(k) <==> exists|i: int|
                0 <= i < items.len() && (#[trigger] items[i]).id == k,
        forall|i: int|
            0 <= i < items.len() ==> after_upserts(Map::empty(), items)[(#[trigger] items[i]).id]
                == items[i],
        after_upserts(Map::empty(), items).dom().finite(),
        after_upserts(Map::empty(), items).len() == items.len(),
    decreases items.len(),
{
    if items.len() > 0 {
        let init = items.drop_last();
        let last = items.last();
        lemma_distinct_upserts(init);
        let prev = after_upserts(Map::empty(), init);
        assert(!prev.contains_key(last.id)) by {
            if prev.contains_key(last.id) {
                let i = choose|i: int| 0 <= i < init.len() && (#[trigger] init[i]).id == last.id;
                assert(items[i].id != items[items.len() - 1].id);
            }
        }
        assert forall|k: u128|
            #[trigger] after_upserts(Map::empty(), items).contains_key(k) <==> exists|i: int|
                0 <= i < items.len() && (#[trigger] items[i]).id == k by {
            if after_upserts(Map::empty(), items).contains_key(k) && k != last.id {
                let i = choose|i: int| 0 <= i < init.len() && (#[trigger] init[i]).id == k;
                assert(items[i].id == k);
            }
            if k == last.id {
                assert(items[items.len() - 1].id == k);
            }
            if exists|i: int| 0 <= i < items.len() && (#[trigger] items[i]).id == k {
                let i = choose|i: int| 0 <= i < items.len() && (#[trigger] items[i]).id == k;
                if i < init.len() {
                    assert(init[i].id == k);
                }
            }
        }
        assert forall|i: int| 0 <= i < items.len() implies after_upserts(Map::empty(), items)[(
        #[trigger] items[i]).id] == items[i] by {
            if i < init.len() {
                assert(init[i] == items[i]);
                assert(items[i].id != items[items.len() - 1].id);
            }
        }
    }
}

/// Upserting twice under one identity replaces: the second record is all that
/// remains under it, as if the first upsert had never happened.
pub proof fn lemma_upsert_replaces(m: Map<u128, ShoppingItem>, a: ShoppingItem, b: ShoppingItem)
    requires
        a.id == b.id,
    ensures
        m.insert(a.id, a).insert(b.id, b) == m.insert(b.id, b),
        m.insert(a.id, a).insert(b.id, b)[b.id] == b,
        m.insert(a.id, a).insert(b.id, b)[b.id].content == b.content,
{
    assert(m.insert(a.id, a).insert(b.id, b) =~= m.insert(b.id, b));
}

/// Deleting checked records removes exactly those whose flag is set and leaves
/// every other record as it was.
pub proof fn lemma_delete_checked(m: Map<u128, ShoppingItem>)
    ensures
        forall|k: u128|
            #[trigger] retained(m, DeleteFilter::Checked).contains_key(k) <==> m.contains_key(k)
                && !m[k].checked,
        forall|k: u128|
            #[trigger] retained(m, DeleteFilter::Checked).contains_key(k) ==> retained(
                m,
                DeleteFilter::Checked,
            )[k] == m[k],
{
}

/// The snapshot of a well-formed store passes the startup check, so that
/// loading it back reproduces the same contents.
pub proof fn lemma_snapshot_reloads(l: ShoppingList, snapshot: Map<u128, ShoppingItem>)
    requires
        l.wf(),
        snapshot == l@,
    ensures
        keyed_by_id(snapshot),
{
}

/// Deleting with every record selected leaves an empty store.
pub proof fn lemma_delete_all_empties(m: Map<u128, ShoppingItem>)
    ensures
        retained(m, DeleteFilter::All) == Map::<u128, ShoppingItem>::empty(),
{
    assert(retained(m, DeleteFilter::All) =~= Map::<u128, ShoppingItem>::empty());
}

} // verus!
