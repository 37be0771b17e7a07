use vstd::prelude::*;
use crate::types::{float_match, Float64, Types};

verus! {

/// One element of a tuple: a wildcard, or an exact (concrete) value.
#[derive(Clone, Debug)]
pub enum QueryTypes {
    /// Wildcard matching any variant
    Any,
    /// Wildcard matching any boolean
    AnyBoolean,
    /// Wildcard matching any integer
    AnyInteger,
    /// Wildcard matching any float
    AnyFloat,
    /// Wildcard matching any string
    AnyString,
    ExactBoolean(bool),
    ExactInteger(i64),
    ExactFloat(Float64),
    ExactString(String),
}

impl QueryTypes {
    /// The element is an exact value, not a wildcard.
    pub open spec fn spec_is_concrete(self) -> bool {
        match self {
            QueryTypes::ExactBoolean(_) | QueryTypes::ExactInteger(_) | QueryTypes::ExactFloat(_)
            | QueryTypes::ExactString(_) => true,
            _ => false,
        }
    }

    /// The pattern is satisfied by the value.
    pub open spec fn satisfied_by(self, value: Types) -> bool {
        match (self, value) {
            (QueryTypes::Any, _) => true,
            (QueryTypes::AnyBoolean, Types::Boolean(_)) => true,
            (QueryTypes::AnyInteger, Types::Integer(_)) => true,
            (QueryTypes::AnyFloat, Types::Float(_)) => true,
            (QueryTypes::AnyString, Types::String(_)) => true,
            (QueryTypes::ExactBoolean(a), Types::Boolean(b)) => a == b,
            (QueryTypes::ExactInteger(a), Types::Integer(b)) => a == b,
            (QueryTypes::ExactFloat(a), Types::Float(b)) => float_match(a.bits, b.bits),
            (QueryTypes::ExactString(a), Types::String(b)) => a@ == b@,
            _ => false,
        }
    }

    /// Two tuple elements agree: a universal wildcard agrees with anything, a
    /// kind wildcard with every element of its kind, and two exact values when
    /// they are the same value. The relation is symmetric, and on an exact
    /// element it is `satisfied_by` of that element's value.
    pub open spec fn agrees(self, other: QueryTypes) -> bool {
        match (self, other) {
            (QueryTypes::Any, _) => true,
            (_, QueryTypes::Any) => true,
            (QueryTypes::AnyBoolean, QueryTypes::AnyBoolean) => true,
            (QueryTypes::AnyBoolean, QueryTypes::ExactBoolean(_)) => true,
            (QueryTypes::ExactBoolean(_), QueryTypes::AnyBoolean) => true,
            (QueryTypes::AnyInteger, QueryTypes::AnyInteger) => true,
            (QueryTypes::AnyInteger, QueryTypes::ExactInteger(_)) => true,
            (QueryTypes::ExactInteger(_), QueryTypes::AnyInteger) => true,
            (QueryTypes::AnyFloat, QueryTypes::AnyFloat) => true,
            (QueryTypes::AnyFloat, QueryTypes::ExactFloat(_)) => true,
            (QueryTypes::ExactFloat(_), QueryTypes::AnyFloat) => true,
            (QueryTypes::AnyString, QueryTypes::AnyString) => true,
            (QueryTypes::AnyString, QueryTypes::ExactString(_)) => true,
            (QueryTypes::ExactString(_), QueryTypes::AnyString) => true,
            (QueryTypes::ExactBoolean(a), QueryTypes::ExactBoolean(b)) => a == b,
            (QueryTypes::ExactInteger(a), QueryTypes::ExactInteger(b)) => a == b,
            (QueryTypes::ExactFloat(a), QueryTypes::ExactFloat(b)) => float_match(a.bits, b.bits),
            (QueryTypes::ExactString(a), QueryTypes::ExactString(b)) => a@ == b@,
            _ => false,
        }
    }

    /// The value of an exact element.
    pub open spec fn value_of(self) -> Types
        recommends
            self.spec_is_concrete(),
    {
        match self {
            QueryTypes::ExactBoolean(b) => Types::Boolean(b),
            QueryTypes::ExactInteger(i) => Types::Integer(i),
            QueryTypes::ExactFloat(f) => Types::Float(f),
            QueryTypes::ExactString(s) => Types::String(s),
            _ => Types::Boolean(false),
        }
    }

    /// `true` if the element is an exact value, `false` if it is a wildcard.
    pub fn is_concrete(&self) -> (r: bool)
        ensures
            r == self.spec_is_concrete(),
    {
        match self {
            QueryTypes::ExactBoolean(_) | QueryTypes::ExactInteger(_) | QueryTypes::ExactFloat(_)
            | QueryTypes::ExactString(_) => true,
            _ => false,
        }
    }

    /// Whether the pattern is satisfied by the value.
    pub fn satisfy(&self, other: &Types) -> (r: bool)
        ensures
            r == self.satisfied_by(*other),
    {
        match (self, other) {
            (QueryTypes::Any, _) => true,
            (QueryTypes::AnyBoolean, Types::Boolean(_)) => true,
            (QueryTypes::AnyInteger, Types::Integer(_)) => true,
            (QueryTypes::AnyFloat, Types::Float(_)) => true,
            (QueryTypes::AnyString, Types::String(_)) => true,
            (QueryTypes::ExactBoolean(a), Types::Boolean(b)) => *a == *b,
            (QueryTypes::ExactInteger(a), Types::Integer(b)) => *a == *b,
            (QueryTypes::ExactFloat(a), Types::Float(b)) => a.matches(b),
            (QueryTypes::ExactString(a), Types::String(b)) => a.eq(b),
            _ => false,
        }
    }

    /// Whether the two elements agree (see `agrees`).
    pub fn agree(&self, other: &QueryTypes) -> (r: bool)
        ensures
            r == self.agrees(*other),
    {
        match (self, other) {
            (QueryTypes::Any, _) => true,
            (_, QueryTypes::Any) => true,
            (QueryTypes::AnyBoolean, QueryTypes::AnyBoolean) => true,
            (QueryTypes::AnyBoolean, QueryTypes::ExactBoolean(_)) => true,
            (QueryTypes::ExactBoolean(_), QueryTypes::AnyBoolean) => true,
            (QueryTypes::AnyInteger, QueryTypes::AnyInteger) => true,
            (QueryTypes::AnyInteger, QueryTypes::ExactInteger(_)) => true,
            (QueryTypes::ExactInteger(_), QueryTypes::AnyInteger) => true,
            (QueryTypes::AnyFloat, QueryTypes::AnyFloat) => true,
            (QueryTypes::AnyFloat, QueryTypes::ExactFloat(_)) => true,
            (QueryTypes::ExactFloat(_), QueryTypes::AnyFloat) => true,
            (QueryTypes::AnyString, QueryTypes::AnyString) => true,
            (QueryTypes::AnyString, QueryTypes::ExactString(_)) => true,
            (QueryTypes::ExactString(_), QueryTypes::AnyString) => true,
            (QueryTypes::ExactBoolean(a), QueryTypes::ExactBoolean(b)) => *a == *b,
            (QueryTypes::ExactInteger(a), QueryTypes::ExactInteger(b)) => *a == *b,
            (QueryTypes::ExactFloat(a), QueryTypes::ExactFloat(b)) => a.matches(b),
            (QueryTypes::ExactString(a), QueryTypes::ExactString(b)) => a.eq(b),
            _ => false,
        }
    }

    /// A copy of the element.
    pub fn duplicate(&self) -> (r: QueryTypes)
        ensures
            r == *self,
    {
        match self {
            QueryTypes::Any => QueryTypes::Any,
            QueryTypes::AnyBoolean => QueryTypes::AnyBoolean,
            QueryTypes::AnyInteger => QueryTypes::AnyInteger,
            QueryTypes::AnyFloat => QueryTypes::AnyFloat,
            QueryTypes::AnyString => QueryTypes::AnyString,
            QueryTypes::ExactBoolean(b) => QueryTypes::ExactBoolean(*b),
            QueryTypes::ExactInteger(i) => QueryTypes::ExactInteger(*i),
            QueryTypes::ExactFloat(f) => QueryTypes::ExactFloat(*f),
            QueryTypes::ExactString(s) => QueryTypes::ExactString(s.clone()),
        }
    }
}

/// Agreement is symmetric, and agreeing with an exact element is being
/// satisfied by its value.
pub proof fn lemma_agrees_symmetric(a: QueryTypes, b: QueryTypes)
    ensures
        a.agrees(b) == b.agrees(a),
        b.spec_is_concrete() ==> (a.agrees(b) == a.satisfied_by(b.value_of())),
{
}

/// Agreement is reflexive: every element agrees with itself.
pub proof fn lemma_agrees_reflexive(a: QueryTypes)
    ensures
        a.agrees(a),
{
}

impl PartialEq<Types> for QueryTypes {
    fn eq(&self, other: &Types) -> (r: bool) {
        self.satisfy(other)
    }
}

impl vstd::std_specs::cmp::PartialEqSpecImpl<Types> for QueryTypes {
    open spec fn obeys_eq_spec() -> bool {
        true
    }

    open spec fn eq_spec(&self, other: &Types) -> bool {
        self.satisfied_by(*other)
    }
}

} // verus!
