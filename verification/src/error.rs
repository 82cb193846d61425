//! The ways in which a request can fail.

use vstd::prelude::*;

verus! {

/// Why a request produced no result. The first five are the caller's fault;
/// the last is a failure of the store, fatal to the request it interrupts.
#[derive(Debug, Clone, Copy, PartialEq, Eq, Structural)]
pub enum ErrorKind {
    /// A bucket index that the catalog does not hold.
    InvalidFilterSelection,
    /// A search that selects nothing at all.
    NoSearchCriteria,
    /// An area without a single vertex.
    EmptyPolygon,
    /// A recommendation for a chair that does not exist.
    ReferenceObjectNotFound,
    /// A purchase of a chair that is sold out or does not exist.
    OutOfStockOrNotFound,
    /// The store failed, timed out, or answered out of turn.
    StorageUnavailable,
}

impl ErrorKind {
    /// Whether the request itself was at fault. Only a failure of the store
    /// is not.
    pub open spec fn caused_by_request(self) -> bool {
        self != ErrorKind::StorageUnavailable
    }

    /// Tells a fault of the request from a failure of the store.
    pub fn is_client_error(self) -> (client: bool)
        ensures
            client == self.caused_by_request(),
    {
        match self {
            ErrorKind::StorageUnavailable => false,
            _ => true,
        }
    }
}

} // verus!
