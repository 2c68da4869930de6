//! User-datagram-protocol packets.

use vstd::prelude::*;

use crate::net::{be16, push_bytes, push_u16_be, zero_bytes};

verus! {

/// The wire bytes of a datagram: both ports, the total length (header
/// plus payload), a zero checksum placeholder, then the payload.
pub open spec fn packet_bytes(source_port: u16, dest_port: u16, payload: Seq<u8>) -> Seq<u8> {
    be16(source_port) + be16(dest_port) + be16((8 + payload.len()) as u16) + zero_bytes(2)
        + payload
}

/// UDP packet structure.
pub struct UdpPacket<'a> {
    pub source_port: u16,
    pub dest_port: u16,
    pub payload: &'a [u8],
}

impl<'a> UdpPacket<'a> {
    /// Serialize the datagram: append exactly its wire bytes to `out`.
    /// The payload must fit the 16-bit length field.
    pub fn serialize(&self, out: &mut Vec<u8>)
        requires
            self.payload@.len() <= 0xFFFF - 8,
        ensures
            final(out)@ == old(out)@ + packet_bytes(
                self.source_port,
                self.dest_port,
                self.payload@,
            ),
    {
        push_u16_be(out, self.source_port);
        push_u16_be(out, self.dest_port);
        let len = (8 + self.payload.len()) as u16;
        push_u16_be(out, len);
        push_u16_be(out, 0);  // checksum placeholder
        push_bytes(out, self.payload);
        proof {
            assert(be16(0) =~= zero_bytes(2));
            assert(out@ =~= old(out)@ + packet_bytes(
                self.source_port,
                self.dest_port,
                self.payload@,
            ));
        }
    }
}

} // verus!
