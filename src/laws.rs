use vstd::prelude::*;
use crate::query_types::QueryTypes;
use crate::store_model::{
    compacted, contents, first_match, first_tuple, has_match, is_first_match,
    lemma_compacted, lemma_contents_push, lemma_contents_tombstone, lemma_first_match,
    slot_matches, Slots, StoreView,
};
use crate::tuple::{tuple_is_concrete, tuple_matches};

verus! {

/// How the first match behaves when a slot is appended: the old first match
/// stays first; without one, the new slot is the first match if it matches.
pub proof fn lemma_first_tuple_push(slots: Slots, x: Option<Seq<QueryTypes>>, q: Seq<QueryTypes>)
    ensures
        has_match(slots.push(x), q) == (has_match(slots, q) || (x matches Some(t) && tuple_matches(q, t))),
        first_tuple(slots.push(x), q) == (if has_match(slots, q) {
            first_tuple(slots, q)
        } else if x matches Some(t) && tuple_matches(q, t) {
            x
        } else {
            None
        }),
        has_match(slots, q) ==> first_match(slots.push(x), q) == first_match(slots, q),
{
    let p = slots.push(x);
    assert forall|i: int| 0 <= i < slots.len() implies slot_matches(p, q, i) == slot_matches(slots, q, i) by {
        assert(p[i] == slots[i]);
    }
    if has_match(slots, q) {
        lemma_first_match(slots, q);
        let f = first_match(slots, q);
        assert(is_first_match(p, q, f));
        lemma_first_match(p, q);
    } else if x matches Some(t) && tuple_matches(q, t) {
        assert(slot_matches(p, q, slots.len() as int));
        assert(is_first_match(p, q, slots.len() as int));
        lemma_first_match(p, q);
    } else {
        assert forall|i: int| !slot_matches(p, q, i) by {
            if 0 <= i < slots.len() {
                assert(!slot_matches(slots, q, i));
            }
        }
    }
}

/// Compaction is transparent: it keeps the tuples that are present, whether a
/// query finds one, and which tuple it finds.
pub proof fn law_compaction_transparent(slots: Slots, q: Seq<QueryTypes>)
    ensures
        contents(compacted(slots)) == contents(slots),
        has_match(compacted(slots), q) == has_match(slots, q),
        first_tuple(compacted(slots), q) == first_tuple(slots, q),
    decreases slots.len(),
{
    lemma_compacted(slots);
    if slots.len() == 0 {
        assert(!has_match(slots, q));
        assert(!has_match(compacted(slots), q));
    } else {
        let d = slots.drop_last();
        law_compaction_transparent(d, q);
        assert(slots =~= d.push(slots.last()));
        lemma_first_tuple_push(d, slots.last(), q);
        match slots.last() {
            Some(t) => {
                lemma_first_tuple_push(compacted(d), Some(t), q);
            },
            None => {
                lemma_first_tuple_push(d, None, q);
            },
        }
    }
}

/// A write of a concrete tuple adds exactly that tuple; a take removes the
/// tuple that it finds, and nothing where it finds none.
pub proof fn law_write_take_contents(s: StoreView, t: Seq<QueryTypes>, q: Seq<QueryTypes>)
    ensures
        contents(s.after_write(t).slots) == contents(s.slots).insert(t),
        s.after_write(t).size() == s.size() + 1,
        s.read_result(q) matches Some(x) ==> contents(s.after_take(q).slots) == contents(s.slots).remove(x)
            && contents(s.slots).count(x) > 0 && s.after_take(q).size() + 1 == s.size(),
        s.read_result(q) is None ==> s.after_take(q) == s,
        s.after_write(t).margin == s.margin && s.after_take(q).margin == s.margin,
{
    lemma_compacted(s.slots);
    let kept = if s.needs_compaction() {
        compacted(s.slots)
    } else {
        s.slots
    };
    lemma_contents_push(kept, Some(t));
    if has_match(s.slots, q) {
        lemma_first_match(s.slots, q);
        lemma_contents_tombstone(s.slots, first_match(s.slots, q));
    }
}

/// Round trip: after a write of a concrete tuple `t`, a take with a query that
/// `t` matches returns `t`, and the store holds again what it held before the
/// write; provided that every tuple already in the store that the query
/// matches is `t` itself.
pub proof fn law_round_trip(s: StoreView, t: Seq<QueryTypes>, q: Seq<QueryTypes>)
    requires
        tuple_is_concrete(t),
        tuple_matches(q, t),
        forall|i: int| slot_matches(s.slots, q, i) ==> s.slots[i] == Some(t),
    ensures
        s.after_write(t).read_result(q) == Some(t),
        contents(s.after_write(t).after_take(q).slots) == contents(s.slots),
        s.after_write(t).after_take(q).size() == s.size(),
{
    law_compaction_transparent(s.slots, q);
    let kept = if s.needs_compaction() {
        compacted(s.slots)
    } else {
        s.slots
    };
    if has_match(s.slots, q) {
        lemma_first_match(s.slots, q);
    }
    lemma_first_tuple_push(kept, Some(t), q);
    let w = s.after_write(t);
    law_write_take_contents(s, t, q);
    law_write_take_contents(w, t, q);
    assert(contents(w.slots).remove(t) =~= contents(s.slots));
}

/// A read returns a tuple of the store that matches the query, and returns
/// one whenever some tuple of the store matches; the result depends on the
/// store and the query alone, so reads repeated with no write or take between
/// them agree.
pub proof fn law_read(s: StoreView, q: Seq<QueryTypes>)
    ensures
        s.read_result(q) is Some == has_match(s.slots, q),
        s.read_result(q) matches Some(x) ==> tuple_matches(q, x) && contents(s.slots).count(x) > 0,
{
    if has_match(s.slots, q) {
        lemma_first_match(s.slots, q);
        lemma_contents_tombstone(s.slots, first_match(s.slots, q));
    }
}

/// Exclusivity of take: where a single tuple of the store matches a query,
/// the first take of that query removes it and every later take of the query
/// finds nothing.
pub proof fn law_take_exclusive(s: StoreView, q: Seq<QueryTypes>)
    requires
        forall|i: int, j: int| slot_matches(s.slots, q, i) && slot_matches(s.slots, q, j) ==> i == j,
    ensures
        !has_match(s.after_take(q).slots, q),
        s.after_take(q).after_take(q) == s.after_take(q),
{
    if has_match(s.slots, q) {
        lemma_first_match(s.slots, q);
        let f = first_match(s.slots, q);
        let a = s.after_take(q).slots;
        assert forall|i: int| !slot_matches(a, q, i) by {
            if 0 <= i < a.len() && i != f {
                assert(a[i] == s.slots[i]);
                if slot_matches(s.slots, q, i) {
                    assert(i == f);
                }
            }
        }
    }
}

/// One operation on a store.
pub ghost enum Operation {
    Write(Seq<QueryTypes>),
    Take(Seq<QueryTypes>),
}

/// The store after the operations `ops`, in order. A write of a tuple that is
/// not concrete is refused and leaves the store as it is.
pub open spec fn run(s: StoreView, ops: Seq<Operation>) -> StoreView
    decreases ops.len(),
{
    if ops.len() == 0 {
        s
    } else {
        let before = run(s, ops.drop_last());
        match ops.last() {
            Operation::Write(t) => if tuple_is_concrete(t) {
                before.after_write(t)
            } else {
                before
            },
            Operation::Take(q) => before.after_take(q),
        }
    }
}

/// The number of writes among `ops` that succeed.
pub open spec fn successful_writes(ops: Seq<Operation>) -> nat
    decreases ops.len(),
{
    if ops.len() == 0 {
        0
    } else {
        successful_writes(ops.drop_last()) + match ops.last() {
            Operation::Write(t) => if tuple_is_concrete(t) {
                1nat
            } else {
                0nat
            },
            Operation::Take(_) => 0nat,
        }
    }
}

/// The number of takes among `ops`, run from `s`, that return a tuple.
pub open spec fn successful_takes(s: StoreView, ops: Seq<Operation>) -> nat
    decreases ops.len(),
{
    if ops.len() == 0 {
        0
    } else {
        successful_takes(s, ops.drop_last()) + match ops.last() {
            Operation::Take(q) => if has_match(run(s, ops.drop_last()).slots, q) {
                1nat
            } else {
                0nat
            },
            Operation::Write(_) => 0nat,
        }
    }
}

/// Size invariant: after any sequence of operations, with however many
/// compactions among them, the size is the starting size plus the number of
/// successful writes minus the number of successful takes.
pub proof fn law_size(s: StoreView, ops: Seq<Operation>)
    ensures
        run(s, ops).size() + successful_takes(s, ops) == s.size() + successful_writes(ops),
    decreases ops.len(),
{
    if ops.len() > 0 {
        let d = ops.drop_last();
        law_size(s, d);
        let before = run(s, d);
        match ops.last() {
            Operation::Write(t) => {
                law_write_take_contents(before, t, Seq::empty());
            },
            Operation::Take(q) => {
                law_read(before, q);
                law_write_take_contents(before, Seq::empty(), q);
            },
        }
    }
}

} // verus!
