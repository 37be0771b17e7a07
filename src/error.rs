use vstd::prelude::*;
use crate::tuple::Tuple;

verus! {

/// Error type
#[derive(Debug)]
pub enum Error {
    /// A write was given a tuple holding a wildcard; the tuple is attached.
    NonConcreteTuple(Tuple),
}

} // verus!
