use vstd::prelude::*;
use crate::mutex_store::MutexStore;

verus! {

/// A [Space] is a thread safe handle to a tuple store shared by all its
/// clones: the same handle as [MutexStore].
pub type Space<S> = MutexStore<S>;

} // verus!
