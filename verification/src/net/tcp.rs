//! Transmission-control-protocol packets.

use vstd::prelude::*;

use crate::net::{be16, be32, push_bytes, push_u16_be, push_u32_be, zero_bytes};

verus! {

/// TCP header flags.
pub struct TcpFlags;

/// The wire bytes of a segment, options-free (data offset five words):
/// both ports, sequence and acknowledgment numbers, the data-offset
/// byte, the low flag byte, the window size, zero checksum and urgent
/// placeholders, then the payload.
pub open spec fn packet_bytes(p: TcpPacket) -> Seq<u8> {
    be16(p.source_port) + be16(p.dest_port) + be32(p.seq_number) + be32(p.ack_number) + seq![
        0x50u8,
        (p.flags % 0x100) as u8,
    ] + be16(p.window_size) + zero_bytes(4) + p.payload@
}

/// TCP packet structure.
pub struct TcpPacket<'a> {
    pub source_port: u16,
    pub dest_port: u16,
    pub seq_number: u32,
    pub ack_number: u32,
    pub flags: u16,
    pub window_size: u16,
    pub payload: &'a [u8],
}

impl<'a> TcpPacket<'a> {
    /// Serialize the segment: append exactly its wire bytes to `out`.
    pub fn serialize(&self, out: &mut Vec<u8>)
        ensures
            final(out)@ == old(out)@ + packet_bytes(*self),
    {
        push_u16_be(out, self.source_port);
        push_u16_be(out, self.dest_port);
        push_u32_be(out, self.seq_number);
        push_u32_be(out, self.ack_number);
        let data_offset: u8 = 5 * 16;  // no options
        out.push(data_offset);
        out.push((self.flags % 0x100) as u8);
        push_u16_be(out, self.window_size);
        push_u16_be(out, 0);  // checksum placeholder
        push_u16_be(out, 0);  // urgent pointer
        push_bytes(out, self.payload);
        proof {
            assert(be16(0) + be16(0) =~= zero_bytes(4));
            assert(out@ =~= old(out)@ + packet_bytes(*self));
        }
    }
}

} // verus!
