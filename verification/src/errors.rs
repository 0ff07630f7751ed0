//! The error taxonomy is deliberately flat: every backend failure collapses
//! to a single kind, and the core layer adds no distinctions.

use vstd::prelude::*;
use vstd::string::*;

verus! {

/// The one failure kind a storage backend can report. Callers cannot
/// distinguish a network failure from a permission failure.
#[derive(Debug, Clone, Copy, PartialEq, Eq, Structural)]
pub enum StorageAdapterError {
    Unknown,
}

impl StorageAdapterError {
    /// A human-readable description of the failure.
    pub fn message(&self) -> (r: String)
        ensures
            r@ == "unknown error"@,
    {
        String::from_str("unknown error")
    }
}

/// Every failure the artifact cache core can report: either its own unknown
/// kind or a failure passed through from the storage backend.
#[derive(Debug, Clone, Copy, PartialEq, Eq, Structural)]
pub enum TurborepoError {
    Unknown,
    StorageAdapter(StorageAdapterError),
}

impl From<StorageAdapterError> for TurborepoError {
    fn from(value: StorageAdapterError) -> (r: Self) {
        TurborepoError::StorageAdapter(value)
    }
}

impl vstd::std_specs::convert::FromSpecImpl<StorageAdapterError> for TurborepoError {
    open spec fn obeys_from_spec() -> bool {
        true
    }

    open spec fn from_spec(value: StorageAdapterError) -> Self {
        TurborepoError::StorageAdapter(value)
    }
}

impl TurborepoError {
    /// A human-readable description of the failure.
    pub fn message(&self) -> (r: String)
        ensures
            self is Unknown ==> r@ == "Unknown"@,
            self is StorageAdapter ==> r@ == "StorageAdapter(Unknown)"@,
    {
        match self {
            TurborepoError::Unknown => String::from_str("Unknown"),
            TurborepoError::StorageAdapter(_) => String::from_str("StorageAdapter(Unknown)"),
        }
    }
}

} // verus!
