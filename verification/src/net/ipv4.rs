//! IPv4 packet structures and routing.

use vstd::prelude::*;

use crate::net::{be16, push_bytes, push_u16_be, zero_bytes};

verus! {

/// IPv4 address.
#[derive(Clone, Copy, Debug, Eq, PartialEq, Hash)]
pub struct Ipv4Addr(pub [u8; 4]);

/// The wire bytes of a header-plus-payload, options-free (header length
/// five words): version/IHL, the type-of-service byte (carrying the
/// packet's TTL value, as this layer emits it), total length,
/// identification, flags/fragment, TTL, protocol, a zero checksum
/// placeholder, both addresses, then the payload.
pub open spec fn packet_bytes(
    source: Ipv4Addr,
    destination: Ipv4Addr,
    protocol: u8,
    identification: u16,
    flags_fragment: u16,
    ttl: u8,
    payload: Seq<u8>,
) -> Seq<u8> {
    seq![0x45u8, ttl] + be16((20 + payload.len()) as u16) + be16(identification) + be16(
        flags_fragment,
    ) + seq![ttl, protocol] + zero_bytes(2) + source.0@ + destination.0@ + payload
}

/// IPv4 header and payload.
pub struct Ipv4Packet<'a> {
    pub source: Ipv4Addr,
    pub destination: Ipv4Addr,
    pub protocol: u8,
    pub payload: &'a [u8],
    pub identification: u16,
    pub flags_fragment: u16,
    pub ttl: u8,
}

impl<'a> Ipv4Packet<'a> {
    /// Serialize the packet: append exactly its wire bytes to `out`. The
    /// payload must fit the 16-bit total-length field.
    pub fn serialize(&self, out: &mut Vec<u8>)
        requires
            self.payload@.len() <= 0xFFFF - 20,
        ensures
            final(out)@ == old(out)@ + packet_bytes(
                self.source,
                self.destination,
                self.protocol,
                self.identification,
                self.flags_fragment,
                self.ttl,
                self.payload@,
            ),
    {
        let ihl: u8 = 5;  // no options
        let version_ihl: u8 = 4 * 16 + ihl;  // version nibble over the header length
        out.push(version_ihl);
        out.push(self.ttl);  // will set DSCP/ECN to 0
        let total_len = (ihl as usize * 4 + self.payload.len()) as u16;
        push_u16_be(out, total_len);
        push_u16_be(out, self.identification);
        push_u16_be(out, self.flags_fragment);
        out.push(self.ttl);
        out.push(self.protocol);
        push_u16_be(out, 0);  // checksum placeholder
        push_bytes(out, &self.source.0);
        push_bytes(out, &self.destination.0);
        push_bytes(out, self.payload);
        proof {
            assert(be16(0) =~= zero_bytes(2));
            assert(out@ =~= old(out)@ + packet_bytes(
                self.source,
                self.destination,
                self.protocol,
                self.identification,
                self.flags_fragment,
                self.ttl,
                self.payload@,
            ));
        }
    }
}

/// A routing table entry.
pub struct Route {
    pub network: Ipv4Addr,
    pub netmask: Ipv4Addr,
    pub gateway: Option<Ipv4Addr>,
}

/// A plain list of routes.
pub struct RoutingTable {
    pub routes: Vec<Route>,
}

impl RoutingTable {
    /// Create an empty table.
    pub fn new() -> (r: RoutingTable)
        ensures
            r.routes@.len() == 0,
    {
        RoutingTable { routes: Vec::new() }
    }

    /// Append a route.
    pub fn add_route(&mut self, route: Route)
        ensures
            final(self).routes@ == old(self).routes@.push(route),
    {
        self.routes.push(route);
    }
}

} // verus!
