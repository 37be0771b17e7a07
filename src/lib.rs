//! A tuple space: a shared associative store of typed tuples, selected for
//! reading and removal by structural pattern matching.

/// Values that a tuple holds
pub mod types;
/// Patterns that select values
pub mod query_types;
/// Storage unit for the tuple space
pub mod tuple;
/// Tuple Space specific Error
pub mod error;
/// The mathematical model of a slot-array store
pub mod store_model;
/// Trait required to be a Tuple store
pub mod store;
/// Simple Vec based Tuple Space store
pub mod vec_store;
/// Thread safe Tuple Space store wrapper
pub mod mutex_store;
/// Laws of the store operations, proved over the store model
pub mod laws;
/// Templates of integers and floats that select tuples
pub mod template;
/// The shared tuple space handle, under its other name
pub mod space;
