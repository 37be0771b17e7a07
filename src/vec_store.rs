use vstd::prelude::*;
use crate::error::Error;
use crate::query_types::QueryTypes;
use crate::store::{lookup_returns, Store};
use crate::store_model::{
    all_concrete, compacted, has_match, is_first_match, lemma_all_concrete_kept,
    lemma_compacted, lemma_contents_push, lemma_contents_tombstone, lemma_first_match,
    slot_matches, Fraction, StoreView,
};
use crate::tuple::{tuple_is_concrete, Tuple};

verus! {

/// The default compaction margin is `DEFAULT_COMPACT_MARGIN_NUMERATOR /
/// DEFAULT_COMPACT_MARGIN_DENOMINATOR`.
pub const DEFAULT_COMPACT_MARGIN_NUMERATOR: u64 = 9;

pub const DEFAULT_COMPACT_MARGIN_DENOMINATOR: u64 = 10;

/// The default compaction margin.
pub open spec fn default_margin() -> Fraction {
    Fraction { numerator: DEFAULT_COMPACT_MARGIN_NUMERATOR, denominator: DEFAULT_COMPACT_MARGIN_DENOMINATOR }
}

/// The view of one slot: the view of its tuple, or a tombstone.
pub open spec fn slot_view(slot: Option<Tuple>) -> Option<Seq<QueryTypes>> {
    match slot {
        Some(t) => Some(t@),
        None => None,
    }
}

proof fn lemma_mul_fits(a: int, b: int)
    requires
        0 <= a <= u64::MAX,
        0 <= b <= u64::MAX,
    ensures
        0 <= a * b <= u128::MAX,
{
    assert(0 <= a * b <= u64::MAX * u64::MAX) by (nonlinear_arith)
        requires
            0 <= a <= u64::MAX,
            0 <= b <= u64::MAX,
    ;
}

/// VecStore is a simple tuple store that keeps its tuples in a [Vec] of slots.
///
/// A take leaves a tombstone ([None]) in the slot of the tuple it removes, so
/// that no element is shifted. Before a write, when the share of live tuples
/// among the slots is below the compaction margin, the tombstones are dropped.
/// The default margin is nine tenths.
pub struct VecStore {
    inner: Vec<Option<Tuple>>,
    tuple_count: usize,
    compact_margin: Fraction,
}

impl View for VecStore {
    type V = StoreView;

    closed spec fn view(&self) -> StoreView {
        StoreView {
            slots: self.inner@.map_values(|s: Option<Tuple>| slot_view(s)),
            margin: self.compact_margin,
        }
    }
}

impl VecStore {
    /// The number of tuples currently in the store.
    pub fn tuple_count(&self) -> (r: usize)
        requires
            self.wf(),
        ensures
            r == self@.size(),
    {
        self.tuple_count
    }

    /// The compaction margin: the share of live tuples among the slots below
    /// which the next write compacts the slots.
    pub fn compact_margin(&self) -> (r: Fraction)
        ensures
            r == self@.margin,
    {
        self.compact_margin
    }

    /// The number of slots, live tuples and tombstones together.
    pub fn slot_count(&self) -> (r: usize)
        ensures
            r == self@.slots.len(),
    {
        self.inner.len()
    }

    /// Drops the tombstones when the share of live tuples is below the margin.
    fn compact(&mut self)
        requires
            old(self).wf(),
        ensures
            final(self).wf(),
            final(self)@ == (if old(self)@.needs_compaction() {
                StoreView { slots: compacted(old(self)@.slots), margin: old(self)@.margin }
            } else {
                old(self)@
            }),
    {
        let slots = self.inner.len();
        if slots == 0 {
            return;
        }
        let ghost view = self@;
        proof {
            lemma_mul_fits(self.tuple_count as int, self.compact_margin.denominator as int);
            lemma_mul_fits(self.compact_margin.numerator as int, slots as int);
        }
        let live = self.tuple_count as u128 * self.compact_margin.denominator as u128;
        let limit = self.compact_margin.numerator as u128 * slots as u128;
        if live < limit {
            let mut old_inner: Vec<Option<Tuple>> = Vec::new();
            std::mem::swap(&mut self.inner, &mut old_inner);
            let ghost orig = old_inner@;
            let mut kept: Vec<Option<Tuple>> = Vec::new();
            let mut i: usize = 0;
            while i < old_inner.len()
                invariant
                    i <= old_inner@.len(),
                    old_inner@.len() == orig.len(),
                    forall|j: int| i <= j < orig.len() ==> old_inner@[j] == orig[j],
                    kept@.map_values(|s: Option<Tuple>| slot_view(s)) == compacted(
                        orig.subrange(0, i as int).map_values(|s: Option<Tuple>| slot_view(s)),
                    ),
                decreases orig.len() - i,
            {
                let ghost before = kept@;
                let slot = old_inner[i].take();
                proof {
                    let v0 = orig.subrange(0, i as int).map_values(|s: Option<Tuple>| slot_view(s));
                    let v1 = orig.subrange(0, i + 1).map_values(|s: Option<Tuple>| slot_view(s));
                    assert(v1.drop_last() =~= v0);
                    assert(v1.last() == slot_view(orig[i as int]));
                }
                match slot {
                    Some(t) => {
                        kept.push(Some(t));
                        proof {
                            assert(kept@.map_values(|s: Option<Tuple>| slot_view(s)) =~= before.map_values(
                                |s: Option<Tuple>| slot_view(s),
                            ).push(slot_view(orig[i as int])));
                        }
                    },
                    None => {},
                }
                i = i + 1;
            }
            proof {
                assert(orig.subrange(0, orig.len() as int) =~= orig);
                lemma_compacted(view.slots);
                lemma_all_concrete_kept(view.slots, 0);
            }
            self.inner = kept;
        }
    }

    /// Returns a [VecStoreBuilder] so that the initial parameters of the
    /// [VecStore] can be modified.
    pub fn builder() -> (r: VecStoreBuilder)
        ensures
            r@ == default_margin(),
    {
        VecStoreBuilder::new()
    }

    /// The index of the first slot whose tuple matches `template`.
    fn index_of(&self, template: &Tuple) -> (r: Option<usize>)
        ensures
            match r {
                Some(i) => is_first_match(self@.slots, template@, i as int),
                None => !has_match(self@.slots, template@),
            },
    {
        let mut index: usize = 0;
        let inner_len = self.inner.len();
        while index < inner_len
            invariant
                inner_len == self.inner@.len(),
                index <= inner_len,
                forall|j: int| 0 <= j < index ==> !slot_matches(self@.slots, template@, j),
            decreases inner_len - index,
        {
            match &self.inner[index] {
                Some(tuple) => {
                    if template.matches(tuple) {
                        return Some(index);
                    }
                },
                None => {},
            }
            index = index + 1;
        }
        None
    }
}

impl Default for VecStore {
    fn default() -> (r: VecStore)
        ensures
            r.wf(),
            r@.slots == Seq::<Option<Seq<QueryTypes>>>::empty(),
            r@.margin == default_margin(),
    {
        let r = VecStore {
            inner: Vec::new(),
            tuple_count: 0,
            compact_margin: Fraction {
                numerator: DEFAULT_COMPACT_MARGIN_NUMERATOR,
                denominator: DEFAULT_COMPACT_MARGIN_DENOMINATOR,
            },
        };
        proof {
            assert(r@.slots =~= Seq::<Option<Seq<QueryTypes>>>::empty());
        }
        r
    }
}

impl Store for VecStore {
    closed spec fn wf(&self) -> bool {
        &&& self.tuple_count == self@.size()
        &&& all_concrete(self@.slots)
    }

    fn size(&self) -> (r: Result<usize, Error>)
        ensures
            r matches Ok(n) && n == self@.size(),
    {
        Ok(self.tuple_count)
    }

    fn write(&mut self, tuple: &Tuple) -> (r: Result<(), Error>)
        ensures
            tuple_is_concrete(tuple@) ==> final(self)@ == old(self)@.after_write(tuple@),
            !tuple_is_concrete(tuple@) ==> final(self)@ == old(self)@,
    {
        if !tuple.is_concrete() {
            return Err(Error::NonConcreteTuple(tuple.duplicate()));
        }
        self.compact();
        let ghost kept = self@;
        proof {
            lemma_compacted(kept.slots);
            lemma_contents_push(kept.slots, Some(tuple@));
        }
        self.inner.push(Some(tuple.duplicate()));
        // live tuples never outnumber the slots, so the count cannot overflow
        let slot_count = self.inner.len();
        proof {
            assert(self@.slots =~= kept.slots.push(Some(tuple@)));
            assert(self.tuple_count < slot_count);
        }
        self.tuple_count = self.tuple_count + 1;
        Ok(())
    }

    fn read(&self, query_tuple: &Tuple) -> (r: Result<Option<Tuple>, Error>)
        ensures
            lookup_returns(r, self@.read_result(query_tuple@)),
    {
        match self.index_of(query_tuple) {
            Some(index) => {
                proof {
                    lemma_first_match(self@.slots, query_tuple@);
                }
                match &self.inner[index] {
                    Some(tuple) => Ok(Some(tuple.duplicate())),
                    None => Ok(None),
                }
            },
            None => Ok(None),
        }
    }

    fn take(&mut self, query_tuple: &Tuple) -> (r: Result<Option<Tuple>, Error>)
        ensures
            lookup_returns(r, old(self)@.read_result(query_tuple@)),
            final(self)@ == old(self)@.after_take(query_tuple@),
    {
        match self.index_of(query_tuple) {
            Some(index) => {
                let ghost before = self@;
                proof {
                    lemma_first_match(before.slots, query_tuple@);
                    lemma_contents_tombstone(before.slots, index as int);
                    lemma_all_concrete_kept(before.slots, index as int);
                }
                let tuple = self.inner[index].take();
                proof {
                    assert(self@.slots =~= before.slots.update(index as int, None));
                }
                self.tuple_count = self.tuple_count - 1;
                Ok(tuple)
            },
            None => Ok(None),
        }
    }
}

/// Builds a [VecStore] with a chosen compaction margin.
pub struct VecStoreBuilder {
    compact_margin: Fraction,
}

impl View for VecStoreBuilder {
    type V = Fraction;

    closed spec fn view(&self) -> Fraction {
        self.compact_margin
    }
}

impl VecStoreBuilder {
    pub fn new() -> (r: Self)
        ensures
            r@ == default_margin(),
    {
        Self {
            compact_margin: Fraction {
                numerator: DEFAULT_COMPACT_MARGIN_NUMERATOR,
                denominator: DEFAULT_COMPACT_MARGIN_DENOMINATOR,
            },
        }
    }

    pub fn compact_margin(self, compact_margin: Fraction) -> (r: Self)
        ensures
            r@ == compact_margin,
    {
        let mut builder = self;
        builder.compact_margin = compact_margin;
        builder
    }

    pub fn build(self) -> (r: VecStore)
        ensures
            r.wf(),
            r@.slots == Seq::<Option<Seq<QueryTypes>>>::empty(),
            r@.margin == self@,
    {
        let VecStoreBuilder { compact_margin } = self;
        let r = VecStore { inner: Vec::new(), tuple_count: 0, compact_margin };
        proof {
            assert(r@.slots =~= Seq::<Option<Seq<QueryTypes>>>::empty());
        }
        r
    }
}

} // verus!
