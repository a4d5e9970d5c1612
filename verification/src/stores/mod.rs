//! What the stores hold: tenants, clients and the errors of store access.
use vstd::prelude::*;

pub mod client;
pub mod tenant;

verus! {

/// A failed store access.
#[derive(Debug)]
pub enum StoreError {
    /// The database failed; holds its error text.
    Database(String),
    /// Not found; holds the entity name and the identifier looked up.
    NotFound(String, String),
}

pub type Result<T> = core::result::Result<T, StoreError>;

} // verus!
