use vstd::prelude::*;
use vstd::multiset::Multiset;
use crate::query_types::QueryTypes;
use crate::tuple::{tuple_is_concrete, tuple_matches};

verus! {

/// A compaction margin: the ratio `numerator / denominator`.
#[derive(Clone, Copy, Debug, PartialEq, Eq, Structural)]
pub struct Fraction {
    pub numerator: u64,
    pub denominator: u64,
}

/// The slots of a store: each holds a tuple, or is a tombstone (`None`).
pub type Slots = Seq<Option<Seq<QueryTypes>>>;

/// The tuples held by the occupied slots.
pub open spec fn contents(slots: Slots) -> Multiset<Seq<QueryTypes>>
    decreases slots.len(),
{
    if slots.len() == 0 {
        Multiset::empty()
    } else {
        match slots.last() {
            Some(t) => contents(slots.drop_last()).insert(t),
            None => contents(slots.drop_last()),
        }
    }
}

/// The occupied slots, in their order, without the tombstones.
pub open spec fn compacted(slots: Slots) -> Slots
    decreases slots.len(),
{
    if slots.len() == 0 {
        slots
    } else {
        match slots.last() {
            Some(t) => compacted(slots.drop_last()).push(Some(t)),
            None => compacted(slots.drop_last()),
        }
    }
}

/// Every occupied slot holds a concrete tuple.
pub open spec fn all_concrete(slots: Slots) -> bool {
    forall|i: int| 0 <= i < slots.len() ==> (#[trigger] slots[i] matches Some(t) ==> tuple_is_concrete(t))
}

/// Slot `i` is occupied by a tuple that matches the query `q`.
pub open spec fn slot_matches(slots: Slots, q: Seq<QueryTypes>, i: int) -> bool {
    &&& 0 <= i < slots.len()
    &&& slots[i] matches Some(t)
    &&& tuple_matches(q, t)
}

/// Slot `i` is the first slot whose tuple matches `q`.
pub open spec fn is_first_match(slots: Slots, q: Seq<QueryTypes>, i: int) -> bool {
    &&& slot_matches(slots, q, i)
    &&& forall|j: int| 0 <= j < i ==> !slot_matches(slots, q, j)
}

/// Some slot holds a tuple that matches `q`.
pub open spec fn has_match(slots: Slots, q: Seq<QueryTypes>) -> bool {
    exists|i: int| slot_matches(slots, q, i)
}

/// The first slot whose tuple matches `q` (meaningful where `has_match`).
pub open spec fn first_match(slots: Slots, q: Seq<QueryTypes>) -> int {
    choose|i: int| is_first_match(slots, q, i)
}

/// The tuple of the first slot that matches `q`, if any.
pub open spec fn first_tuple(slots: Slots, q: Seq<QueryTypes>) -> Option<Seq<QueryTypes>> {
    if has_match(slots, q) {
        slots[first_match(slots, q)]
    } else {
        None
    }
}

/// The abstract state of a slot-array store.
pub ghost struct StoreView {
    pub slots: Slots,
    pub margin: Fraction,
}

impl StoreView {
    /// The number of live tuples.
    pub open spec fn size(self) -> nat {
        contents(self.slots).len()
    }

    /// The share of live tuples among the slots is below the margin.
    pub open spec fn needs_compaction(self) -> bool {
        &&& self.slots.len() > 0
        &&& self.size() * self.margin.denominator < self.margin.numerator * self.slots.len()
    }

    /// The store after a write of the concrete tuple `t`: compacted first if
    /// it needs compaction, then `t` in a new slot at the end.
    pub open spec fn after_write(self, t: Seq<QueryTypes>) -> StoreView {
        let kept = if self.needs_compaction() {
            compacted(self.slots)
        } else {
            self.slots
        };
        StoreView { slots: kept.push(Some(t)), margin: self.margin }
    }

    /// What a read of `q` returns: the tuple of the first matching slot.
    pub open spec fn read_result(self, q: Seq<QueryTypes>) -> Option<Seq<QueryTypes>> {
        first_tuple(self.slots, q)
    }

    /// The store after a take of `q`: the first matching slot, if any,
    /// becomes a tombstone.
    pub open spec fn after_take(self, q: Seq<QueryTypes>) -> StoreView {
        if has_match(self.slots, q) {
            StoreView { slots: self.slots.update(first_match(self.slots, q), None), margin: self.margin }
        } else {
            self
        }
    }
}

/// Appending a slot adds its tuple, if any, to the contents.
pub proof fn lemma_contents_push(slots: Slots, s: Option<Seq<QueryTypes>>)
    ensures
        contents(slots.push(s)) == match s {
            Some(t) => contents(slots).insert(t),
            None => contents(slots),
        },
{
    assert(slots.push(s).drop_last() =~= slots);
}

/// Turning an occupied slot into a tombstone removes its tuple from the contents.
pub proof fn lemma_contents_tombstone(slots: Slots, i: int)
    requires
        0 <= i < slots.len(),
        slots[i] is Some,
    ensures
        contents(slots.update(i, None)) == contents(slots).remove(slots[i]->Some_0),
        contents(slots).count(slots[i]->Some_0) > 0,
    decreases slots.len(),
{
    let u = slots.update(i, None);
    let t = slots[i]->Some_0;
    if i == slots.len() - 1 {
        assert(u.drop_last() =~= slots.drop_last());
        assert(contents(slots) == contents(slots.drop_last()).insert(t));
        assert(contents(slots).remove(t) =~= contents(slots.drop_last()));
    } else {
        lemma_contents_tombstone(slots.drop_last(), i);
        assert(u.drop_last() =~= slots.drop_last().update(i, None));
        assert(u.last() == slots.last());
        match slots.last() {
            Some(x) => {
                assert(contents(slots).remove(t) =~= contents(slots.drop_last()).remove(t).insert(x));
            },
            None => {},
        }
    }
}

/// Compaction keeps the contents, and leaves one occupied slot per live tuple.
pub proof fn lemma_compacted(slots: Slots)
    ensures
        contents(compacted(slots)) == contents(slots),
        compacted(slots).len() == contents(slots).len(),
        compacted(slots).len() <= slots.len(),
        forall|i: int| 0 <= i < compacted(slots).len() ==> (#[trigger] compacted(slots)[i]) is Some,
    decreases slots.len(),
{
    if slots.len() > 0 {
        lemma_compacted(slots.drop_last());
        match slots.last() {
            Some(t) => {
                lemma_contents_push(compacted(slots.drop_last()), Some(t));
            },
            None => {},
        }
    }
}

/// A slot of the compacted sequence is a slot of the original, and every
/// occupied slot of the original survives at an index no greater than its own,
/// with earlier occupied slots before it.
pub proof fn lemma_compacted_slots(slots: Slots)
    ensures
        forall|k: int| 0 <= k < compacted(slots).len() ==>
            exists|i: int| 0 <= i < slots.len() && #[trigger] compacted(slots)[k] == slots[i],
        forall|i: int| 0 <= i < slots.len() && (#[trigger] slots[i]) is Some ==>
            exists|k: int| 0 <= k < compacted(slots).len() && compacted(slots)[k] == slots[i],
    decreases slots.len(),
{
    if slots.len() > 0 {
        let d = slots.drop_last();
        lemma_compacted_slots(d);
        assert forall|k: int| 0 <= k < compacted(slots).len() implies
            exists|i: int| 0 <= i < slots.len() && #[trigger] compacted(slots)[k] == slots[i] by {
            if k < compacted(d).len() {
                let i = choose|i: int| 0 <= i < d.len() && compacted(d)[k] == d[i];
                assert(compacted(slots)[k] == slots[i]);
            } else {
                assert(compacted(slots)[k] == slots[slots.len() - 1]);
            }
        }
        assert forall|i: int| 0 <= i < slots.len() && (#[trigger] slots[i]) is Some implies
            exists|k: int| 0 <= k < compacted(slots).len() && compacted(slots)[k] == slots[i] by {
            if i < d.len() {
                assert(d[i] == slots[i]);
                let k = choose|k: int| 0 <= k < compacted(d).len() && compacted(d)[k] == d[i];
                assert(compacted(slots)[k] == slots[i]);
            } else {
                let k = compacted(slots).len() - 1;
                assert(compacted(slots)[k] == slots[i]);
            }
        }
    }
}

/// Tombstones and the tuples of a slot sequence keep their concreteness
/// under compaction and under turning a slot into a tombstone.
pub proof fn lemma_all_concrete_kept(slots: Slots, i: int)
    requires
        all_concrete(slots),
    ensures
        all_concrete(compacted(slots)),
        0 <= i < slots.len() ==> all_concrete(slots.update(i, None)),
{
    lemma_compacted_slots(slots);
    assert forall|k: int| 0 <= k < compacted(slots).len() implies
        (#[trigger] compacted(slots)[k] matches Some(t) ==> tuple_is_concrete(t)) by {
        let j = choose|j: int| 0 <= j < slots.len() && compacted(slots)[k] == slots[j];
        assert(slots[j] matches Some(t) ==> tuple_is_concrete(t));
    }
}

/// Where some slot matches, there is a first one, and it is unique.
pub proof fn lemma_first_match(slots: Slots, q: Seq<QueryTypes>)
    requires
        has_match(slots, q),
    ensures
        is_first_match(slots, q, first_match(slots, q)),
        forall|i: int| is_first_match(slots, q, i) ==> i == first_match(slots, q),
{
    let w = choose|i: int| slot_matches(slots, q, i);
    lemma_first_below(slots, q, w);
    let f = first_match(slots, q);
    assert forall|i: int| is_first_match(slots, q, i) implies i == f by {
        if i < f {
            assert(!slot_matches(slots, q, i));
        } else if f < i {
            assert(!slot_matches(slots, q, f));
        }
    }
}

proof fn lemma_first_below(slots: Slots, q: Seq<QueryTypes>, w: int)
    requires
        slot_matches(slots, q, w),
    ensures
        exists|i: int| is_first_match(slots, q, i),
    decreases w,
{
    if exists|j: int| 0 <= j < w && slot_matches(slots, q, j) {
        let j = choose|j: int| 0 <= j < w && slot_matches(slots, q, j);
        lemma_first_below(slots, q, j);
    } else {
        assert(is_first_match(slots, q, w));
    }
}

} // verus!
