//! Decentralised identifiers (DIDs) restricted to the two methods that the
//! AT Protocol accepts, `did:web:` and `did:plc:`.
//!
//! [`did::Did`] wraps a string that has passed validation; every value of the
//! type is a well-formed identifier. [`syntax`] holds the grammar as
//! specification functions over sequences of characters, and [`laws`] the
//! theorems proved about it.

pub mod did;
pub mod laws;
pub mod syntax;

pub use did::{Did, DidMethod, DidValidationError};
