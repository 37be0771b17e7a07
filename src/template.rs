use vstd::prelude::*;
use crate::query_types::QueryTypes;
use crate::tuple::Tuple;
use crate::types::{float_match, Float64, Types};

verus! {

/// A template for one value: a kind or an exact integer or float, or anything.
#[derive(Clone, Copy, Debug)]
pub enum TypeTemplate {
    IntegerType,
    Integer(usize),
    FloatType,
    Float(Float64),
    Any,
}

impl TypeTemplate {
    /// The template is satisfied by the value.
    pub open spec fn satisfied_by(self, value: Types) -> bool {
        match (self, value) {
            (TypeTemplate::Any, _) => true,
            (TypeTemplate::IntegerType, Types::Integer(_)) => true,
            (TypeTemplate::Integer(a), Types::Integer(b)) => a as int == b as int,
            (TypeTemplate::FloatType, Types::Float(_)) => true,
            (TypeTemplate::Float(a), Types::Float(b)) => float_match(a.bits, b.bits),
            _ => false,
        }
    }

    /// The template admits the tuple element: the element is an exact value
    /// that satisfies the template, or the template is `Any`.
    pub open spec fn admits(self, element: QueryTypes) -> bool {
        match (self, element) {
            (TypeTemplate::Any, _) => true,
            (TypeTemplate::IntegerType, QueryTypes::ExactInteger(_)) => true,
            (TypeTemplate::Integer(a), QueryTypes::ExactInteger(b)) => a as int == b as int,
            (TypeTemplate::FloatType, QueryTypes::ExactFloat(_)) => true,
            (TypeTemplate::Float(a), QueryTypes::ExactFloat(b)) => float_match(a.bits, b.bits),
            _ => false,
        }
    }

    fn partial_eq_integer_type(&self, rhs: &Types) -> (r: bool)
        ensures
            r == (rhs is Integer),
    {
        if let Types::Integer(_) = rhs {
            true
        } else {
            false
        }
    }

    fn partial_eq_integer(&self, rhs: &Types) -> (r: bool)
        ensures
            r == (self matches TypeTemplate::Integer(a) && rhs matches Types::Integer(b) && a as int
                == b as int),
    {
        if let TypeTemplate::Integer(template_value) = self {
            if let Types::Integer(type_value) = rhs {
                *type_value >= 0 && *template_value as u64 == *type_value as u64
            } else {
                false
            }
        } else {
            false
        }
    }

    fn partial_eq_float_type(&self, rhs: &Types) -> (r: bool)
        ensures
            r == (rhs is Float),
    {
        if let Types::Float(_) = rhs {
            true
        } else {
            false
        }
    }

    fn partial_eq_float(&self, rhs: &Types) -> (r: bool)
        ensures
            r == (self matches TypeTemplate::Float(a) && rhs matches Types::Float(b) && float_match(
                a.bits,
                b.bits,
            )),
    {
        if let TypeTemplate::Float(template_value) = self {
            if let Types::Float(type_value) = rhs {
                template_value.matches(type_value)
            } else {
                false
            }
        } else {
            false
        }
    }

    /// Whether the template is satisfied by the value.
    pub fn satisfy(&self, rhs: &Types) -> (r: bool)
        ensures
            r == self.satisfied_by(*rhs),
    {
        match self {
            TypeTemplate::IntegerType => self.partial_eq_integer_type(rhs),
            TypeTemplate::Integer(_) => self.partial_eq_integer(rhs),
            TypeTemplate::FloatType => self.partial_eq_float_type(rhs),
            TypeTemplate::Float(_) => self.partial_eq_float(rhs),
            TypeTemplate::Any => true,
        }
    }

    /// Whether the template admits the tuple element.
    pub fn accepts(&self, element: &QueryTypes) -> (r: bool)
        ensures
            r == self.admits(*element),
    {
        match (self, element) {
            (TypeTemplate::Any, _) => true,
            (TypeTemplate::IntegerType, QueryTypes::ExactInteger(_)) => true,
            (TypeTemplate::Integer(a), QueryTypes::ExactInteger(b)) => *b >= 0 && *a as u64
                == *b as u64,
            (TypeTemplate::FloatType, QueryTypes::ExactFloat(_)) => true,
            (TypeTemplate::Float(a), QueryTypes::ExactFloat(b)) => a.matches(b),
            _ => false,
        }
    }
}

impl PartialEq<Types> for TypeTemplate {
    fn eq(&self, rhs: &Types) -> (r: bool) {
        self.satisfy(rhs)
    }
}

impl vstd::std_specs::cmp::PartialEqSpecImpl<Types> for TypeTemplate {
    open spec fn obeys_eq_spec() -> bool {
        true
    }

    open spec fn eq_spec(&self, rhs: &Types) -> bool {
        self.satisfied_by(*rhs)
    }
}

/// The tuple matches the template: same length, and each template element
/// admits the tuple element at the same position.
pub open spec fn template_matches(template: Seq<TypeTemplate>, tuple: Seq<QueryTypes>) -> bool {
    &&& template.len() == tuple.len()
    &&& forall|i: int| 0 <= i < template.len() ==> (#[trigger] template[i]).admits(tuple[i])
}

/// An ordered sequence of value templates.
#[derive(Debug)]
pub struct TupleTemplate {
    inner: Vec<TypeTemplate>,
}

impl View for TupleTemplate {
    type V = Seq<TypeTemplate>;

    closed spec fn view(&self) -> Seq<TypeTemplate> {
        self.inner@
    }
}

impl TupleTemplate {
    pub fn len(&self) -> (r: usize)
        ensures
            r == self@.len(),
    {
        self.inner.len()
    }

    pub fn builder() -> (r: TupleTemplateBuilder)
        ensures
            r@ == Seq::<TypeTemplate>::empty(),
    {
        TupleTemplateBuilder::new()
    }

    /// The template element at position `index`.
    pub fn get(&self, index: usize) -> (r: &TypeTemplate)
        requires
            index < self@.len(),
        ensures
            *r == self@[index as int],
    {
        &self.inner[index]
    }

    /// Whether the tuple matches the template (see `template_matches`).
    pub fn matches(&self, rhs: &Tuple) -> (r: bool)
        ensures
            r == template_matches(self@, rhs@),
    {
        if self.len() != rhs.len() {
            return false;
        }
        let mut index: usize = 0;
        let size = self.len();
        while index < size
            invariant
                size == self@.len(),
                size == rhs@.len(),
                index <= size,
                forall|j: int| 0 <= j < index ==> (#[trigger] self@[j]).admits(rhs@[j]),
            decreases size - index,
        {
            if !self.inner[index].accepts(rhs.get(index)) {
                return false;
            }
            index = index + 1;
        }
        true
    }
}

impl PartialEq<Tuple> for TupleTemplate {
    fn eq(&self, rhs: &Tuple) -> (r: bool) {
        self.matches(rhs)
    }
}

impl vstd::std_specs::cmp::PartialEqSpecImpl<Tuple> for TupleTemplate {
    open spec fn obeys_eq_spec() -> bool {
        true
    }

    open spec fn eq_spec(&self, rhs: &Tuple) -> bool {
        template_matches(self@, rhs@)
    }
}

/// Builds a [TupleTemplate] one element at a time.
pub struct TupleTemplateBuilder {
    inner: Vec<TypeTemplate>,
}

impl View for TupleTemplateBuilder {
    type V = Seq<TypeTemplate>;

    closed spec fn view(&self) -> Seq<TypeTemplate> {
        self.inner@
    }
}

impl TupleTemplateBuilder {
    pub fn new() -> (r: Self)
        ensures
            r@ == Seq::<TypeTemplate>::empty(),
    {
        Self { inner: Vec::new() }
    }

    pub fn build(self) -> (r: TupleTemplate)
        ensures
            r@ == self@,
    {
        let TupleTemplateBuilder { inner } = self;
        TupleTemplate { inner }
    }

    pub fn add_integer(self, integer: usize) -> (r: Self)
        ensures
            r@ == self@.push(TypeTemplate::Integer(integer)),
    {
        let mut builder = self;
        builder.inner.push(TypeTemplate::Integer(integer));
        builder
    }

    pub fn add_integer_type(self) -> (r: Self)
        ensures
            r@ == self@.push(TypeTemplate::IntegerType),
    {
        let mut builder = self;
        builder.inner.push(TypeTemplate::IntegerType);
        builder
    }

    pub fn add_any(self) -> (r: Self)
        ensures
            r@ == self@.push(TypeTemplate::Any),
    {
        let mut builder = self;
        builder.inner.push(TypeTemplate::Any);
        builder
    }
}

} // verus!
