//! Network addresses that endpoints listen on.
use vstd::prelude::*;
use vstd::string::*;

use crate::text::{decimal, to_decimal};

verus! {

/// An IPv4 address, by its four octets.
#[derive(Clone, Copy, Debug, PartialEq, Eq, Structural)]
pub struct Ipv4Address(pub u8, pub u8, pub u8, pub u8);

/// The loopback address.
pub open spec fn localhost() -> Ipv4Address {
    Ipv4Address(127, 0, 0, 1)
}

/// The address that stands for every interface of the machine.
pub open spec fn unspecified() -> Ipv4Address {
    Ipv4Address(0, 0, 0, 0)
}

/// An address in dotted decimal notation.
pub open spec fn dotted(ip: Ipv4Address) -> Seq<char> {
    decimal(ip.0 as nat) + "."@ + decimal(ip.1 as nat) + "."@ + decimal(ip.2 as nat) + "."@
        + decimal(ip.3 as nat)
}

impl Ipv4Address {
    /// The loopback address, 127.0.0.1.
    pub fn localhost() -> (r: Ipv4Address)
        ensures
            r == localhost(),
    {
        Ipv4Address(127, 0, 0, 1)
    }

    /// The address of every interface, 0.0.0.0.
    pub fn unspecified() -> (r: Ipv4Address)
        ensures
            r == unspecified(),
    {
        Ipv4Address(0, 0, 0, 0)
    }

    /// The address in dotted decimal notation.
    pub fn to_text(&self) -> (s: String)
        ensures
            s@ == dotted(*self),
    {
        let mut s = to_decimal(self.0 as u64);
        s.append(".");
        s.append(to_decimal(self.1 as u64).as_str());
        s.append(".");
        s.append(to_decimal(self.2 as u64).as_str());
        s.append(".");
        s.append(to_decimal(self.3 as u64).as_str());
        s
    }
}

/// An address and a port.
#[derive(Clone, Copy, Debug, PartialEq, Eq, Structural)]
pub struct SocketAddress {
    pub ip: Ipv4Address,
    pub port: u16,
}

/// `host:port`.
pub open spec fn host_port(host: Seq<char>, port: u16) -> Seq<char> {
    host + ":"@ + decimal(port as nat)
}

/// Writes `host:port`.
pub fn write_host_port(host: &str, port: u16) -> (s: String)
    ensures
        s@ == host_port(host@, port),
{
    let mut s = host.to_owned();
    s.append(":");
    s.append(to_decimal(port as u64).as_str());
    s
}

impl SocketAddress {
    /// The address as it is written in URLs, with its port.
    pub open spec fn authority(self) -> Seq<char> {
        host_port(dotted(self.ip), self.port)
    }

    /// Writes the address and its port, separated by a colon.
    pub fn to_text(&self) -> (s: String)
        ensures
            s@ == self.authority(),
    {
        write_host_port(self.ip.to_text().as_str(), self.port)
    }
}

} // verus!
