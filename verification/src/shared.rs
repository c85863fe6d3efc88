//! Types shared between the client and the server side: the application
//! message enum and the port-configuration value.

use vstd::prelude::*;

verus! {

/// Identifier the transport assigns to a connected peer. Treated as an
/// opaque, equatable, copyable value; never interpreted.
pub type ClientId = u64;

/// The UDP port to bind (server) or connect to (client). Immutable after
/// construction.
#[derive(Clone, Copy, Debug, PartialEq, Eq, Structural)]
pub struct Port(pub u16);

impl Default for Port {
    fn default() -> (p: Port)
        ensures
            p.0 == 0,
    {
        Port(0)
    }
}

/// An IPv4 address, as its four octets.
#[derive(Clone, Copy, Debug, PartialEq, Eq, Structural)]
pub struct IpV4 {
    pub a: u8,
    pub b: u8,
    pub c: u8,
    pub d: u8,
}

/// The loopback address 127.0.0.1: where the client connects.
pub open spec fn server_ip_spec() -> IpV4 {
    IpV4 { a: 127, b: 0, c: 0, d: 1 }
}

/// The unspecified address 0.0.0.0: all interfaces, where both sides bind.
pub open spec fn local_bind_ip_spec() -> IpV4 {
    IpV4 { a: 0, b: 0, c: 0, d: 0 }
}

/// The address the client connects to: loopback.
pub fn server_ip() -> (ip: IpV4)
    ensures
        ip == server_ip_spec(),
{
    IpV4 { a: 127, b: 0, c: 0, d: 1 }
}

/// The address both sides bind locally: all interfaces.
pub fn local_bind_ip() -> (ip: IpV4)
    ensures
        ip == local_bind_ip_spec(),
{
    IpV4 { a: 0, b: 0, c: 0, d: 0 }
}

/// The closed set of application messages carried across the transport.
/// The transport's serialization is assumed lossless for the payload, so
/// a message must round-trip by value; equality is payload equality.
#[derive(Clone, Debug)]
pub enum SharedMessage {
    TestMessage(String),
}

impl SharedMessage {
    /// The text payload of the message.
    pub open spec fn payload(self) -> Seq<char> {
        match self {
            SharedMessage::TestMessage(s) => s@,
        }
    }
}

impl PartialEq for SharedMessage {
    fn eq(&self, other: &SharedMessage) -> (r: bool)
        ensures
            r == (self.payload() == other.payload()),
    {
        match (self, other) {
            (SharedMessage::TestMessage(a), SharedMessage::TestMessage(b)) => *a == *b,
        }
    }
}

impl Eq for SharedMessage {}

impl vstd::std_specs::cmp::PartialEqSpecImpl for SharedMessage {
    open spec fn obeys_eq_spec() -> bool {
        true
    }

    open spec fn eq_spec(&self, other: &SharedMessage) -> bool {
        self.payload() == other.payload()
    }
}

} // verus!
