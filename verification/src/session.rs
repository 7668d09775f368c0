//! Network endpoints, connection identity, and the record of one live
//! connection.

use vstd::prelude::*;
use crate::category::Category;

verus! {

/// The IPv4 loopback address as a plain number (each listener binds to it).
/// IPv6 addresses fit the same field, so the model covers both families.
pub const LOOPBACK_IP: u128 = 0x7F00_0001;

/// A socket address reduced to the components the core reads: the numeric
/// host address and the port.
#[derive(Debug, PartialEq, Eq, Structural, Clone, Copy)]
pub struct NetAddr {
    pub ip: u128,
    pub port: u16,
}

/// What uniquely and stably identifies one accepted connection for its
/// lifetime. Two identities are equal iff all four components are equal.
#[derive(Debug, PartialEq, Eq, Structural, Clone, Copy)]
pub struct Identity {
    pub category: Category,
    pub local: NetAddr,
    pub peer: NetAddr,
    pub port: u16,
}

/// One accepted, not-yet-closed connection. The transport itself lives with
/// the task that handles the connection; the record keeps a plain handle for
/// it together with the identity components.
#[derive(Debug, Clone, Copy)]
pub struct Session {
    pub handle: u64,
    pub local: NetAddr,
    pub peer: NetAddr,
    pub category: Category,
    pub port: u16,
}

impl Session {
    pub fn new(handle: u64, local: NetAddr, peer: NetAddr, port: u16, category: Category) -> (s:
        Session)
        ensures
            s.handle == handle,
            s.local == local,
            s.peer == peer,
            s.port == port,
            s.category == category,
    {
        Session { handle, local, peer, category, port }
    }

    /// The identity of the connection this session records.
    pub open spec fn spec_identity(&self) -> Identity {
        Identity { category: self.category, local: self.local, peer: self.peer, port: self.port }
    }

    pub fn identity(&self) -> (id: Identity)
        ensures
            id == self.spec_identity(),
    {
        Identity { category: self.category, local: self.local, peer: self.peer, port: self.port }
    }
}

/// Two sessions are the same connection exactly when their identities agree;
/// the transport handle does not take part in the comparison.
impl PartialEq for Session {
    fn eq(&self, other: &Self) -> (r: bool) {
        self.port == other.port && self.category == other.category && self.local == other.local
            && self.peer == other.peer
    }
}

impl vstd::std_specs::cmp::PartialEqSpecImpl for Session {
    open spec fn obeys_eq_spec() -> bool {
        true
    }

    open spec fn eq_spec(&self, other: &Self) -> bool {
        self.spec_identity() == other.spec_identity()
    }
}

} // verus!
