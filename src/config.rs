//! Where the service listens, as loaded at startup.
use vstd::prelude::*;

verus! {

/// An IP address by its octets, in network order.
#[derive(Clone, Copy, Debug, PartialEq, Eq)]
pub enum IpAddress {
    V4([u8; 4]),
    V6([u8; 16]),
}

/// The address and port the service binds to.
#[derive(Clone, Copy, Debug, PartialEq, Eq)]
pub struct Server {
    pub ip: IpAddress,
    pub port: u16,
}

/// The service's configuration; fixed once loaded.
#[derive(Clone, Copy, Debug, PartialEq, Eq)]
pub struct Config {
    pub server: Server,
}

} // verus!
