use vstd::prelude::*;
use crate::query_types::QueryTypes;
use crate::types::Float64;

verus! {

/// Every element of the sequence is an exact value: no wildcard.
pub open spec fn tuple_is_concrete(t: Seq<QueryTypes>) -> bool {
    forall|i: int| 0 <= i < t.len() ==> (#[trigger] t[i]).spec_is_concrete()
}

/// The tuple `t` matches the query `q`: same length, and each element of `q`
/// agrees with the element of `t` at the same position.
pub open spec fn tuple_matches(q: Seq<QueryTypes>, t: Seq<QueryTypes>) -> bool {
    &&& q.len() == t.len()
    &&& forall|i: int| 0 <= i < q.len() ==> (#[trigger] q[i]).agrees(t[i])
}

/// Matching is symmetric.
pub proof fn lemma_tuple_matches_symmetric(q: Seq<QueryTypes>, t: Seq<QueryTypes>)
    ensures
        tuple_matches(q, t) == tuple_matches(t, q),
{
    assert forall|i: int| 0 <= i < q.len() implies q[i].agrees(t[i]) == t[i].agrees(q[i]) by {
        crate::query_types::lemma_agrees_symmetric(q[i], t[i]);
    }
}

/// Every tuple matches itself: a tuple serves as the query that selects it.
pub proof fn lemma_tuple_matches_reflexive(t: Seq<QueryTypes>)
    ensures
        tuple_matches(t, t),
{
    assert forall|i: int| 0 <= i < t.len() implies t[i].agrees(t[i]) by {
        crate::query_types::lemma_agrees_reflexive(t[i]);
    }
}

/// An ordered, fixed-length sequence of elements. A tuple whose elements are
/// all exact values is concrete and can be stored; any tuple can serve as a
/// query.
#[derive(Clone, Debug)]
pub struct Tuple {
    tuple: Vec<QueryTypes>,
}

impl View for Tuple {
    type V = Seq<QueryTypes>;

    closed spec fn view(&self) -> Seq<QueryTypes> {
        self.tuple@
    }
}

impl Tuple {
    /// Returns a [TupleBuilder]
    pub fn builder() -> (r: TupleBuilder)
        ensures
            r@ == Seq::<QueryTypes>::empty(),
    {
        TupleBuilder { tuple: Vec::new() }
    }

    /// The number of elements in the tuple.
    pub fn len(&self) -> (r: usize)
        ensures
            r == self@.len(),
    {
        self.tuple.len()
    }

    /// `true` if the tuple size is 0, `false` otherwise
    pub fn is_empty(&self) -> (r: bool)
        ensures
            r == (self@.len() == 0),
    {
        self.tuple.len() == 0
    }

    /// A tuple is concrete if none of its elements is a wildcard.
    pub fn is_concrete(&self) -> (r: bool)
        ensures
            r == tuple_is_concrete(self@),
    {
        let mut i: usize = 0;
        while i < self.tuple.len()
            invariant
                i <= self.tuple@.len(),
                forall|j: int| 0 <= j < i ==> (#[trigger] self.tuple@[j]).spec_is_concrete(),
            decreases self.tuple@.len() - i,
        {
            if !self.tuple[i].is_concrete() {
                return false;
            }
            i = i + 1;
        }
        true
    }

    /// The element at position `index`.
    pub fn get(&self, index: usize) -> (r: &QueryTypes)
        requires
            index < self@.len(),
        ensures
            *r == self@[index as int],
    {
        &self.tuple[index]
    }

    /// Whether `rhs` matches this tuple used as a query (see `tuple_matches`).
    pub fn matches(&self, rhs: &Tuple) -> (r: bool)
        ensures
            r == tuple_matches(self@, rhs@),
    {
        if self.tuple.len() != rhs.tuple.len() {
            return false;
        }
        let mut i: usize = 0;
        while i < self.tuple.len()
            invariant
                i <= self.tuple@.len(),
                self.tuple@.len() == rhs.tuple@.len(),
                forall|j: int| 0 <= j < i ==> (#[trigger] self.tuple@[j]).agrees(rhs.tuple@[j]),
            decreases self.tuple@.len() - i,
        {
            if !self.tuple[i].agree(&rhs.tuple[i]) {
                return false;
            }
            i = i + 1;
        }
        true
    }

    /// A copy of the tuple.
    pub fn duplicate(&self) -> (r: Tuple)
        ensures
            r@ == self@,
    {
        let mut tuple: Vec<QueryTypes> = Vec::new();
        let mut i: usize = 0;
        while i < self.tuple.len()
            invariant
                i <= self.tuple@.len(),
                tuple@ == self.tuple@.subrange(0, i as int),
            decreases self.tuple@.len() - i,
        {
            tuple.push(self.tuple[i].duplicate());
            i = i + 1;
        }
        proof {
            assert(tuple@ =~= self.tuple@);
        }
        Tuple { tuple }
    }
}

impl PartialEq for Tuple {
    fn eq(&self, rhs: &Tuple) -> (r: bool) {
        self.matches(rhs)
    }
}

impl vstd::std_specs::cmp::PartialEqSpecImpl for Tuple {
    open spec fn obeys_eq_spec() -> bool {
        true
    }

    open spec fn eq_spec(&self, rhs: &Tuple) -> bool {
        tuple_matches(self@, rhs@)
    }
}

/// Builds a [Tuple] one element at a time.
pub struct TupleBuilder {
    tuple: Vec<QueryTypes>,
}

impl View for TupleBuilder {
    type V = Seq<QueryTypes>;

    closed spec fn view(&self) -> Seq<QueryTypes> {
        self.tuple@
    }
}

impl TupleBuilder {
    pub fn build(self) -> (r: Tuple)
        ensures
            r@ == self@,
    {
        let TupleBuilder { tuple } = self;
        Tuple { tuple }
    }

    pub fn any(self) -> (r: Self)
        ensures
            r@ == self@.push(QueryTypes::Any),
    {
        let mut builder = self;
        builder.tuple.push(QueryTypes::Any);
        builder
    }

    pub fn any_integer(self) -> (r: Self)
        ensures
            r@ == self@.push(QueryTypes::AnyInteger),
    {
        let mut builder = self;
        builder.tuple.push(QueryTypes::AnyInteger);
        builder
    }

    pub fn integer(self, integer: i64) -> (r: Self)
        ensures
            r@ == self@.push(QueryTypes::ExactInteger(integer)),
    {
        let mut builder = self;
        builder.tuple.push(QueryTypes::ExactInteger(integer));
        builder
    }

    pub fn any_float(self) -> (r: Self)
        ensures
            r@ == self@.push(QueryTypes::AnyFloat),
    {
        let mut builder = self;
        builder.tuple.push(QueryTypes::AnyFloat);
        builder
    }

    pub fn float(self, float: Float64) -> (r: Self)
        ensures
            r@ == self@.push(QueryTypes::ExactFloat(float)),
    {
        let mut builder = self;
        builder.tuple.push(QueryTypes::ExactFloat(float));
        builder
    }

    pub fn any_boolean(self) -> (r: Self)
        ensures
            r@ == self@.push(QueryTypes::AnyBoolean),
    {
        let mut builder = self;
        builder.tuple.push(QueryTypes::AnyBoolean);
        builder
    }

    pub fn boolean(self, boolean: bool) -> (r: Self)
        ensures
            r@ == self@.push(QueryTypes::ExactBoolean(boolean)),
    {
        let mut builder = self;
        builder.tuple.push(QueryTypes::ExactBoolean(boolean));
        builder
    }

    pub fn any_string(self) -> (r: Self)
        ensures
            r@ == self@.push(QueryTypes::AnyString),
    {
        let mut builder = self;
        builder.tuple.push(QueryTypes::AnyString);
        builder
    }

    pub fn string(self, string: &str) -> (r: Self)
        ensures
            r@.len() == self@.len() + 1,
            r@.drop_last() == self@,
            r@.last() matches QueryTypes::ExactString(s) && s@ == string@,
    {
        let mut builder = self;
        builder.tuple.push(QueryTypes::ExactString(string.to_owned()));
        builder
    }
}

} // verus!
