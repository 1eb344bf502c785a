use vstd::prelude::*;

verus! {

/// The source endpoint of a datagram, held as plain integers.
#[derive(Clone, Copy, Debug, PartialEq, Eq, Structural)]
pub enum PeerAddress {
    /// An IPv4 address (most significant octet first) and a port.
    V4 { ipv4: u32, port: u16 },
    /// An IPv6 address (most significant octet first) and a port.
    V6 { ipv6: u128, port: u16 },
}

impl PeerAddress {
    pub open spec fn port_spec(self) -> u16 {
        match self {
            PeerAddress::V4 { port, .. } => port,
            PeerAddress::V6 { port, .. } => port,
        }
    }

    /// The port of the endpoint.
    pub fn port(&self) -> (r: u16)
        ensures
            r == self.port_spec(),
    {
        match self {
            PeerAddress::V4 { port, .. } => *port,
            PeerAddress::V6 { port, .. } => *port,
        }
    }
}

/// The routing identifier attached to every received datagram: which channel
/// family it came through, which socket (by global index) and from where.
#[derive(Clone, Copy, Debug, PartialEq, Eq, Structural)]
pub struct RouteKey {
    pub is_stream: bool,
    pub index: usize,
    pub addr: PeerAddress,
}

impl RouteKey {
    pub fn new(is_stream: bool, index: usize, addr: PeerAddress) -> (r: RouteKey)
        ensures
            r.is_stream == is_stream,
            r.index == index,
            r.addr == addr,
    {
        RouteKey { is_stream, index, addr }
    }

    pub fn is_stream(&self) -> (r: bool)
        ensures
            r == self.is_stream,
    {
        self.is_stream
    }

    pub fn index(&self) -> (r: usize)
        ensures
            r == self.index,
    {
        self.index
    }

    pub fn addr(&self) -> (r: PeerAddress)
        ensures
            r == self.addr,
    {
        self.addr
    }
}

} // verus!
