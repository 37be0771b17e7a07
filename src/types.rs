use vstd::prelude::*;

verus! {

/// The exponent bits of an IEEE-754 binary64 bit pattern.
pub const EXPONENT_MASK: u64 = 0x7ff0_0000_0000_0000;

/// The fraction bits of an IEEE-754 binary64 bit pattern.
pub const FRACTION_MASK: u64 = 0x000f_ffff_ffff_ffff;

/// Every bit of an IEEE-754 binary64 bit pattern but the sign.
pub const MAGNITUDE_MASK: u64 = 0x7fff_ffff_ffff_ffff;

/// The bit pattern encodes a not-a-number.
pub open spec fn is_nan_bits(bits: u64) -> bool {
    (bits & EXPONENT_MASK) == EXPONENT_MASK && (bits & FRACTION_MASK) != 0
}

/// The bit pattern encodes positive or negative zero.
pub open spec fn is_zero_bits(bits: u64) -> bool {
    (bits & MAGNITUDE_MASK) == 0
}

/// When two floats match: IEEE-754 equality, except that every not-a-number
/// matches every other not-a-number (and nothing else), so that matching is
/// an equivalence and a stored float always matches itself.
pub open spec fn float_match(a: u64, b: u64) -> bool {
    a == b || (is_zero_bits(a) && is_zero_bits(b)) || (is_nan_bits(a) && is_nan_bits(b))
}

/// A 64-bit floating-point number, held as its IEEE-754 binary64 bit pattern.
#[derive(Clone, Copy, Debug)]
pub struct Float64 {
    pub bits: u64,
}

impl Float64 {
    /// The float whose IEEE-754 binary64 bit pattern is `bits`.
    pub fn from_bits(bits: u64) -> (r: Float64)
        ensures
            r.bits == bits,
    {
        Float64 { bits }
    }

    /// The IEEE-754 binary64 bit pattern of the float.
    pub fn to_bits(&self) -> (r: u64)
        ensures
            r == self.bits,
    {
        self.bits
    }

    /// Whether the two floats match (see `float_match`).
    pub fn matches(&self, other: &Float64) -> (r: bool)
        ensures
            r == float_match(self.bits, other.bits),
    {
        let a = self.bits;
        let b = other.bits;
        let a_nan = (a & EXPONENT_MASK) == EXPONENT_MASK && (a & FRACTION_MASK) != 0;
        let b_nan = (b & EXPONENT_MASK) == EXPONENT_MASK && (b & FRACTION_MASK) != 0;
        a == b || ((a & MAGNITUDE_MASK) == 0 && (b & MAGNITUDE_MASK) == 0) || (a_nan && b_nan)
    }
}

/// A concrete value of a tuple.
#[derive(Clone, Debug)]
pub enum Types {
    Boolean(bool),
    Integer(i64),
    Float(Float64),
    String(String),
}

impl Types {
    /// Two values satisfy each other when they are of the same kind and their
    /// payloads are equal (floats by `float_match`).
    pub open spec fn same_value(self, other: Types) -> bool {
        match (self, other) {
            (Types::Boolean(a), Types::Boolean(b)) => a == b,
            (Types::Integer(a), Types::Integer(b)) => a == b,
            (Types::Float(a), Types::Float(b)) => float_match(a.bits, b.bits),
            (Types::String(a), Types::String(b)) => a@ == b@,
            _ => false,
        }
    }

    /// Whether the two values satisfy each other.
    pub fn satisfy(&self, other: &Types) -> (r: bool)
        ensures
            r == self.same_value(*other),
    {
        match (self, other) {
            (Types::Boolean(a), Types::Boolean(b)) => *a == *b,
            (Types::Integer(a), Types::Integer(b)) => *a == *b,
            (Types::Float(a), Types::Float(b)) => a.matches(b),
            (Types::String(a), Types::String(b)) => a.eq(b),
            _ => false,
        }
    }
}

impl PartialEq for Types {
    fn eq(&self, other: &Types) -> (r: bool) {
        self.satisfy(other)
    }
}

impl vstd::std_specs::cmp::PartialEqSpecImpl for Types {
    open spec fn obeys_eq_spec() -> bool {
        true
    }

    open spec fn eq_spec(&self, other: &Types) -> bool {
        self.same_value(*other)
    }
}

} // verus!
