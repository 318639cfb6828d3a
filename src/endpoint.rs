use vstd::prelude::*;

verus! {

/// An IPv4 socket address: the address as a big-endian `u32` and the port.
#[derive(Clone, Copy, Debug, PartialEq, Eq, Structural)]
pub struct Endpoint {
    pub ip: u32,
    pub port: u16,
}

impl Endpoint {
    pub fn new(ip: u32, port: u16) -> (r: Endpoint)
        ensures
            r.ip == ip,
            r.port == port,
    {
        Endpoint { ip, port }
    }

    /// The wildcard address `0.0.0.0` with port 0: any interface, a port
    /// chosen by the platform.
    pub fn unspecified() -> (r: Endpoint)
        ensures
            r.ip == 0,
            r.port == 0,
    {
        Endpoint { ip: 0, port: 0 }
    }
}

} // verus!
