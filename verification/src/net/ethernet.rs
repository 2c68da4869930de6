//! Ethernet frame structures and helpers.

use vstd::prelude::*;
use vstd::slice::slice_subrange;

use crate::net::{be16, push_bytes, push_u16_be};

verus! {

/// Ethernet frame header length.
pub const HEADER_LEN: usize = 14;

/// Hardware MAC address.
#[derive(Clone, Copy, Debug, Eq, PartialEq)]
pub struct MacAddress(pub [u8; 6]);

impl MacAddress {
    /// The broadcast MAC address, all-ones.
    pub fn broadcast() -> (r: MacAddress)
        ensures
            r.0@ =~= seq![0xFFu8, 0xFF, 0xFF, 0xFF, 0xFF, 0xFF],
    {
        MacAddress([0xFF, 0xFF, 0xFF, 0xFF, 0xFF, 0xFF])
    }
}

/// The wire bytes of a frame: both addresses, the ethertype in network
/// order, then the payload.
pub open spec fn frame_bytes(
    destination: MacAddress,
    source: MacAddress,
    ethertype: u16,
    payload: Seq<u8>,
) -> Seq<u8> {
    destination.0@ + source.0@ + be16(ethertype) + payload
}

/// Parsed Ethernet frame.
pub struct EthernetFrame<'a> {
    pub destination: MacAddress,
    pub source: MacAddress,
    pub ethertype: u16,
    pub payload: &'a [u8],
}

impl<'a> EthernetFrame<'a> {
    /// Parse an Ethernet frame from raw bytes: `None` exactly when the
    /// data cannot hold a header; otherwise the two addresses, the
    /// big-endian ethertype, and the rest as payload.
    pub fn from_bytes(data: &'a [u8]) -> (r: Option<EthernetFrame<'a>>)
        ensures
            data@.len() < HEADER_LEN <==> r is None,
            data@.len() >= HEADER_LEN ==> {
                let f = r->0;
                &&& f.destination.0@ == data@.subrange(0, 6)
                &&& f.source.0@ == data@.subrange(6, 12)
                &&& f.ethertype == data@[12] * 0x100 + data@[13]
                &&& f.payload@ == data@.skip(HEADER_LEN as int)
            },
    {
        if data.len() < HEADER_LEN {
            return None;
        }
        let destination = MacAddress([data[0], data[1], data[2], data[3], data[4], data[5]]);
        let source = MacAddress([data[6], data[7], data[8], data[9], data[10], data[11]]);
        let ethertype = (data[12] as u16) * 0x100 + (data[13] as u16);
        let payload = slice_subrange(data, HEADER_LEN, data.len());
        proof {
            assert(destination.0@ =~= data@.subrange(0, 6));
            assert(source.0@ =~= data@.subrange(6, 12));
            assert(payload@ =~= data@.skip(HEADER_LEN as int));
        }
        Some(EthernetFrame { destination, source, ethertype, payload })
    }

    /// Serialize the frame: append exactly its wire bytes to `out`.
    pub fn serialize(&self, out: &mut Vec<u8>)
        ensures
            final(out)@ == old(out)@ + frame_bytes(
                self.destination,
                self.source,
                self.ethertype,
                self.payload@,
            ),
    {
        push_bytes(out, &self.destination.0);
        push_bytes(out, &self.source.0);
        push_u16_be(out, self.ethertype);
        push_bytes(out, self.payload);
        proof {
            assert(out@ =~= old(out)@ + frame_bytes(
                self.destination,
                self.source,
                self.ethertype,
                self.payload@,
            ));
        }
    }
}

} // verus!
