//! The store's failure taxonomy. The boundary layer maps these onto
//! transport-level responses; the store's only duty is to classify.

use vstd::prelude::*;

verus! {

/// Why a storage operation failed.
///
/// `NotFound` is a lookup whose subject row is absent. `Conflict` is an
/// insert that would duplicate a primary key. `Storage` covers every other
/// database failure the model can exhibit: a violated foreign key or an
/// exhausted id space.
#[derive(Clone, Copy, Debug, PartialEq, Eq, Structural)]
pub enum StoreError {
    NotFound,
    Conflict,
    Storage,
}

impl StoreError {
    /// A short description, in place of a display implementation.
    pub fn message(&self) -> &'static str {
        match self {
            StoreError::NotFound => "row not found",
            StoreError::Conflict => "duplicate entry",
            StoreError::Storage => "storage error",
        }
    }
}

} // verus!
