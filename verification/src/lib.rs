//! Normalizes decoded ledger blocks of several protocol eras into one set of
//! records, and walks a block into an ordered stream of events.
pub mod collaborators;
pub mod error;
pub mod json;
pub mod decoded;
pub mod mapper;
pub mod model;
pub mod sinks;
pub mod text;
pub mod views;
