//! Internet-control-message-protocol packets.

use vstd::prelude::*;

use crate::net::{be16, push_bytes, push_u16_be};

verus! {

/// ICMP packet type.
#[derive(Clone, Copy, Debug, PartialEq, Eq, Structural)]
pub enum IcmpType {
    EchoReply,
    EchoRequest,
}

/// The wire code of a packet type.
pub open spec fn type_code(t: IcmpType) -> u8 {
    match t {
        IcmpType::EchoReply => 0,
        IcmpType::EchoRequest => 8,
    }
}

impl IcmpType {
    /// The wire code of this packet type.
    pub fn code(&self) -> (r: u8)
        ensures
            r == type_code(*self),
    {
        match self {
            IcmpType::EchoReply => 0,
            IcmpType::EchoRequest => 8,
        }
    }
}

/// The wire bytes of a packet: type, code, checksum in network order,
/// then the payload.
pub open spec fn packet_bytes(t: IcmpType, code: u8, checksum: u16, payload: Seq<u8>) -> Seq<u8> {
    seq![type_code(t), code] + be16(checksum) + payload
}

/// ICMP packet structure.
pub struct IcmpPacket<'a> {
    pub icmp_type: IcmpType,
    pub code: u8,
    pub checksum: u16,
    pub payload: &'a [u8],
}

impl<'a> IcmpPacket<'a> {
    /// Serialize the packet: append exactly its wire bytes to `out`.
    pub fn serialize(&self, out: &mut Vec<u8>)
        ensures
            final(out)@ == old(out)@ + packet_bytes(
                self.icmp_type,
                self.code,
                self.checksum,
                self.payload@,
            ),
    {
        out.push(self.icmp_type.code());
        out.push(self.code);
        push_u16_be(out, self.checksum);
        push_bytes(out, self.payload);
        proof {
            assert(out@ =~= old(out)@ + packet_bytes(
                self.icmp_type,
                self.code,
                self.checksum,
                self.payload@,
            ));
        }
    }
}

} // verus!
