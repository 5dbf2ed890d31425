use vstd::prelude::*;
use crate::address::Address;

verus! {

/// The ids recorded for one address, in the order they were recorded.
pub struct HolderEntry {
    pub holder: Address,
    pub ids: Vec<u64>,
}

/// A per-address list of ids (the policies of a holder, the claims of a
/// claimant). An address with no entry has the empty list.
pub struct HolderIndex {
    pub entries: Vec<HolderEntry>,
}

/// The list of `holder` in `entries`: that of the first entry for it, or the
/// empty list when there is none.
pub open spec fn ids_in(entries: Seq<HolderEntry>, holder: Address) -> Seq<u64>
    decreases entries.len(),
{
    if entries.len() == 0 {
        Seq::empty()
    } else if entries[0].holder == holder {
        entries[0].ids@
    } else {
        ids_in(entries.drop_first(), holder)
    }
}

/// Walking past an entry of another address does not change the list found.
proof fn lemma_ids_in_skip(entries: Seq<HolderEntry>, i: int, holder: Address)
    requires
        0 <= i < entries.len(),
    ensures
        entries[i].holder == holder ==> ids_in(entries.skip(i), holder) == entries[i].ids@,
        entries[i].holder != holder ==> ids_in(entries.skip(i), holder) == ids_in(
            entries.skip(i + 1),
            holder,
        ),
{
    assert(entries.skip(i).drop_first() =~= entries.skip(i + 1));
}

/// Replacing the first entry of an address by another entry of the same
/// address changes the list of that address only.
proof fn lemma_ids_in_update(entries: Seq<HolderEntry>, k: int, e: HolderEntry, holder: Address)
    requires
        0 <= k < entries.len(),
        e.holder == entries[k].holder,
        forall|j: int| 0 <= j < k ==> entries[j].holder != entries[k].holder,
    ensures
        ids_in(entries.update(k, e), holder) == if holder == e.holder {
            e.ids@
        } else {
            ids_in(entries, holder)
        },
    decreases entries.len(),
{
    let updated = entries.update(k, e);
    if k == 0 {
        assert(updated.drop_first() =~= entries.drop_first());
    } else {
        assert(entries[0].holder != entries[k].holder);
        assert(updated.drop_first() =~= entries.drop_first().update(k - 1, e));
        lemma_ids_in_update(entries.drop_first(), k - 1, e, holder);
    }
}

/// Appending an entry for an address that has none gives that address the
/// entry's list and leaves the others unchanged.
proof fn lemma_ids_in_push(entries: Seq<HolderEntry>, e: HolderEntry, holder: Address)
    requires
        forall|j: int| 0 <= j < entries.len() ==> entries[j].holder != e.holder,
    ensures
        ids_in(entries.push(e), holder) == if holder == e.holder {
            e.ids@
        } else {
            ids_in(entries, holder)
        },
    decreases entries.len(),
{
    let pushed = entries.push(e);
    if entries.len() == 0 {
        assert(pushed.drop_first() =~= Seq::<HolderEntry>::empty());
        assert(ids_in(pushed.drop_first(), holder) == Seq::<u64>::empty());
    } else {
        assert(pushed[0] == entries[0]);
        assert(pushed.drop_first() =~= entries.drop_first().push(e));
        lemma_ids_in_push(entries.drop_first(), e, holder);
    }
}

/// The index as a total map from each address to its list.
impl View for HolderIndex {
    type V = Map<Address, Seq<u64>>;

    open spec fn view(&self) -> Map<Address, Seq<u64>> {
        Map::new(|h: Address| true, |h: Address| self.ids_of(h))
    }
}

/// The index in which every address has the empty list.
pub open spec fn empty_index() -> Map<Address, Seq<u64>> {
    Map::new(|h: Address| true, |h: Address| Seq::<u64>::empty())
}

impl HolderIndex {
    /// The list recorded for `holder`.
    pub open spec fn ids_of(&self, holder: Address) -> Seq<u64> {
        ids_in(self.entries@, holder)
    }

    /// An index in which every address has the empty list.
    pub fn new() -> (res: HolderIndex)
        ensures
            res@ == empty_index(),
    {
        let res = HolderIndex { entries: Vec::new() };
        assert(res@ =~= empty_index());
        res
    }

    /// The position of the first entry for `holder`, if there is one.
    fn find(&self, holder: &Address) -> (res: Option<usize>)
        ensures
            match res {
                Some(k) => {
                    &&& k < self.entries.len()
                    &&& self.entries@[k as int].holder == *holder
                    &&& forall|j: int| 0 <= j < k ==> self.entries@[j].holder != *holder
                    &&& self.ids_of(*holder) == self.entries@[k as int].ids@
                },
                None => {
                    &&& forall|j: int| 0 <= j < self.entries.len() ==> self.entries@[j].holder != *holder
                    &&& self.ids_of(*holder) == Seq::<u64>::empty()
                },
            },
    {
        let n = self.entries.len();
        let mut i: usize = 0;
        assert(self.entries@.skip(0) =~= self.entries@);
        while i < n
            invariant
                n == self.entries.len(),
                i <= n,
                forall|j: int| 0 <= j < i ==> self.entries@[j].holder != *holder,
                self.ids_of(*holder) == ids_in(self.entries@.skip(i as int), *holder),
            decreases n - i,
        {
            proof {
                lemma_ids_in_skip(self.entries@, i as int, *holder);
            }
            if self.entries[i].holder == *holder {
                return Some(i);
            }
            i = i + 1;
        }
        assert(self.entries@.skip(n as int) =~= Seq::<HolderEntry>::empty());
        None
    }

    /// A copy of the list recorded for `holder` (empty when there is none).
    pub fn get(&self, holder: &Address) -> (res: Vec<u64>)
        ensures
            res@ == self@[*holder],
    {
        match self.find(holder) {
            Some(k) => {
                let ids = &self.entries[k].ids;
                let mut out: Vec<u64> = Vec::new();
                let mut i: usize = 0;
                while i < ids.len()
                    invariant
                        i <= ids.len(),
                        out@ == ids@.take(i as int),
                    decreases ids.len() - i,
                {
                    out.push(ids[i]);
                    i = i + 1;
                    assert(out@ =~= ids@.take(i as int));
                }
                assert(ids@.take(ids.len() as int) =~= ids@);
                out
            },
            None => Vec::new(),
        }
    }

    /// Appends `id` to the list of `holder`; every other list is unchanged.
    pub fn push(&mut self, holder: Address, id: u64)
        ensures
            final(self)@ == old(self)@.insert(holder, old(self)@[holder].push(id)),
    {
        match self.find(&holder) {
            Some(k) => {
                let mut ids: Vec<u64> = Vec::new();
                std::mem::swap(&mut ids, &mut self.entries[k].ids);
                let ghost before = self.entries@;
                ids.push(id);
                let entry = HolderEntry { holder, ids };
                proof {
                    assert forall|h: Address| #[trigger] ids_in(before.update(k as int, entry), h)
                        == if h == holder { entry.ids@ } else { ids_in(before, h) } by {
                        lemma_ids_in_update(before, k as int, entry, h);
                    }
                }
                self.entries.set(k, entry);
                assert(self.entries@ == before.update(k as int, entry));
                assert forall|h: Address| h != holder implies #[trigger] self.ids_of(h) == old(self).ids_of(h) by {
                    lemma_ids_in_update(before, k as int, entry, h);
                    lemma_ids_in_update(old(self).entries@, k as int, before[k as int], h);
                    assert(old(self).entries@.update(k as int, before[k as int]) =~= before);
                }
                assert(self.ids_of(holder) == entry.ids@);
                assert(self@ =~= old(self)@.insert(holder, old(self)@[holder].push(id)));
            },
            None => {
                let mut ids: Vec<u64> = Vec::new();
                ids.push(id);
                let entry = HolderEntry { holder, ids };
                let ghost before = self.entries@;
                self.entries.push(entry);
                assert(self.entries@ == before.push(entry));
                assert(entry.ids@ =~= seq![id]);
                assert forall|h: Address| #[trigger] self.ids_of(h) == if h == holder { entry.ids@ } else { ids_in(before, h) } by {
                    lemma_ids_in_push(before, entry, h);
                }
                assert(self@ =~= old(self)@.insert(holder, old(self)@[holder].push(id)));
            },
        }
    }
}

} // verus!

verus! {

/// The ids among `1..=n` of the entries of `items` that `owner` assigns to
/// `holder`, in increasing order.
pub open spec fn owned_ids<T>(items: Map<u64, T>, owner: spec_fn(T) -> Address, holder: Address, n: nat) -> Seq<u64>
    decreases n,
{
    if n == 0 {
        Seq::empty()
    } else {
        let rest = owned_ids(items, owner, holder, (n - 1) as nat);
        if owner(items[n as u64]) == holder {
            rest.push(n as u64)
        } else {
            rest
        }
    }
}

/// The ids owned by a holder depend on the owners of the entries `1..=n` only.
pub proof fn lemma_owned_ids_frame<T>(
    a: Map<u64, T>,
    b: Map<u64, T>,
    owner: spec_fn(T) -> Address,
    holder: Address,
    n: nat,
)
    requires
        n <= u64::MAX,
        forall|k: u64| 1 <= k <= n ==> #[trigger] owner(a[k]) == owner(b[k]),
    ensures
        owned_ids(a, owner, holder, n) == owned_ids(b, owner, holder, n),
    decreases n,
{
    if n > 0 {
        lemma_owned_ids_frame(a, b, owner, holder, (n - 1) as nat);
        assert(owner(a[n as u64]) == owner(b[n as u64]));
    }
}

} // verus!
