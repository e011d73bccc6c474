use vstd::prelude::*;

verus! {

/// A network endpoint: an IP address and a port. An IPv4 address sits in the
/// low 32 bits of `ip`; an IPv6 address uses all 128.
#[derive(Clone, Copy, PartialEq, Eq, Structural, Debug)]
pub struct Addr {
    pub ip: u128,
    pub port: u16,
}

/// What this core reads of one connected OS socket: the handle the operating
/// system gave out and the two addresses of the connection. The surrounding
/// program owns the live socket and keeps it paired with this record.
#[derive(Clone, Copy, PartialEq, Eq, Structural, Debug)]
pub struct Socket {
    pub handle: u64,
    pub local: Addr,
    pub peer: Addr,
}

/// What came of asking the operating system to duplicate a socket handle.
#[derive(Clone, Copy, PartialEq, Eq, Structural, Debug)]
pub enum DupOutcome {
    /// A second handle now refers to the same connection.
    Duplicated(u64),
    /// The handle table is full or some other resource ran out; no new handle.
    Exhausted,
}

} // verus!
