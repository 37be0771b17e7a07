use vstd::prelude::*;
use crate::error::Error;
use crate::query_types::QueryTypes;
use crate::tuple::{tuple_is_concrete, tuple_matches, Tuple};

verus! {

/// What every store promises of a write of `tuple`: it succeeds exactly when
/// the tuple is concrete, and otherwise hands the tuple back in the error.
pub open spec fn write_outcome(tuple: Seq<QueryTypes>, r: Result<(), Error>) -> bool {
    match r {
        Ok(_) => tuple_is_concrete(tuple),
        Err(Error::NonConcreteTuple(t)) => !tuple_is_concrete(tuple) && t@ == tuple,
    }
}

/// What every store promises of a read or take of `query`: it succeeds, and a
/// tuple it returns is concrete and matches the query.
pub open spec fn lookup_outcome(query: Seq<QueryTypes>, r: Result<Option<Tuple>, Error>) -> bool {
    &&& r is Ok
    &&& r matches Ok(Some(t)) ==> tuple_matches(query, t@) && tuple_is_concrete(t@)
}

/// The result of a read or take is `Ok`, and holds the tuple `expected`.
pub open spec fn lookup_returns(r: Result<Option<Tuple>, Error>, expected: Option<Seq<QueryTypes>>) -> bool {
    match r {
        Ok(Some(t)) => expected == Some(t@),
        Ok(None) => expected is None,
        Err(_) => false,
    }
}

pub trait Store: Sized {
    /// The store's internal invariant.
    spec fn wf(&self) -> bool;

    /// The number of tuples in the store.
    fn size(&self) -> (r: Result<usize, Error>)
        requires
            self.wf(),
        ensures
            r is Ok,
    ;

    /// Writes a tuple into the store.
    fn write(&mut self, tuple: &Tuple) -> (r: Result<(), Error>)
        requires
            old(self).wf(),
        ensures
            final(self).wf(),
            write_outcome(tuple@, r),
    ;

    /// Reads a tuple from the store, matching the query tuple. Does not remove the tuple from
    /// the store.
    fn read(&self, query_tuple: &Tuple) -> (r: Result<Option<Tuple>, Error>)
        requires
            self.wf(),
        ensures
            lookup_outcome(query_tuple@, r),
    ;

    /// Reads a tuple from the store, matching the query tuple. Removes the tuple from
    /// the store.
    fn take(&mut self, query_tuple: &Tuple) -> (r: Result<Option<Tuple>, Error>)
        requires
            old(self).wf(),
        ensures
            final(self).wf(),
            lookup_outcome(query_tuple@, r),
    ;
}

} // verus!
