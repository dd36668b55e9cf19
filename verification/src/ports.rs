//! Port allocation from a free pool against the persisted registry: the
//! lowest unreserved port at or above a base port.

use vstd::prelude::*;
use crate::db::{port_taken, StateDatabase};
use crate::error::{ErrorView, HypervisorError};

verus! {

/// Allocates ports against the registry of a state store. The allocator
/// itself is stateless; the registry is the store's.
pub struct PortAllocator {}

impl PortAllocator {
    /// A stateless allocator.
    pub fn new() -> (r: Self) {
        PortAllocator {  }
    }

    /// The lowest free port at or above `base_port`; every port below the
    /// result (and at or above the base) is already reserved. Fails only
    /// when every port from the base upward is reserved.
    pub fn allocate_port(&self, db: &StateDatabase, base_port: u16) -> (r: Result<
        u16,
        HypervisorError,
    >)
        ensures
            r matches Ok(p) ==> base_port <= p && !port_taken(db.port_entries(), p) && (forall|
                q: u16,
            |
                base_port <= q < p ==> port_taken(db.port_entries(), q)),
            r is Err ==> (forall|q: u16| base_port <= q ==> port_taken(db.port_entries(), q))
                && (r->Err_0@ matches ErrorView::BadRequest(_)),
    {
        let mut p: u16 = base_port;
        while db.port_is_reserved(p)
            invariant
                base_port <= p,
                forall|q: u16| base_port <= q < p ==> port_taken(db.port_entries(), q),
            decreases u16::MAX - p,
        {
            if p == u16::MAX {
                return Err(
                    HypervisorError::BadRequest(
                        String::from_str("no ports available in range"),
                    ),
                );
            }
            p = p + 1;
        }
        Ok(p)
    }

    /// Whether the given port is not reserved in the registry.
    pub fn is_port_available(&self, db: &StateDatabase, port: u16) -> (r: Result<
        bool,
        HypervisorError,
    >)
        ensures
            r matches Ok(b) && b == !port_taken(db.port_entries(), port),
    {
        Ok(!db.port_is_reserved(port))
    }
}

} // verus!
