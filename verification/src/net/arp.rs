//! Address-resolution-protocol packets.

use vstd::prelude::*;

use crate::net::ethernet::MacAddress;
use crate::net::ipv4::Ipv4Addr;
use crate::net::{be16, push_bytes, push_u16_be};

verus! {

/// ARP operation.
#[derive(Clone, Copy, Debug, PartialEq, Eq, Structural)]
pub enum ArpOp {
    Request,
    Reply,
}

/// The wire code of an operation.
pub open spec fn op_code(op: ArpOp) -> u16 {
    match op {
        ArpOp::Request => 1,
        ArpOp::Reply => 2,
    }
}

impl ArpOp {
    /// The wire code of this operation.
    pub fn code(&self) -> (r: u16)
        ensures
            r == op_code(*self),
    {
        match self {
            ArpOp::Request => 1,
            ArpOp::Reply => 2,
        }
    }
}

/// The wire bytes of a packet: hardware and protocol types, the two
/// length bytes, the operation code, then sender and target link and
/// network addresses.
pub open spec fn packet_bytes(p: ArpPacket) -> Seq<u8> {
    be16(p.hw_type) + be16(p.proto_type) + seq![p.hw_len, p.proto_len] + be16(op_code(p.op))
        + p.sender_mac.0@ + p.sender_ip.0@ + p.target_mac.0@ + p.target_ip.0@
}

/// ARP packet structure.
pub struct ArpPacket {
    pub hw_type: u16,
    pub proto_type: u16,
    pub hw_len: u8,
    pub proto_len: u8,
    pub op: ArpOp,
    pub sender_mac: MacAddress,
    pub sender_ip: Ipv4Addr,
    pub target_mac: MacAddress,
    pub target_ip: Ipv4Addr,
}

impl ArpPacket {
    /// Serialize the packet: append exactly its wire bytes to `out`.
    pub fn serialize(&self, out: &mut Vec<u8>)
        ensures
            final(out)@ == old(out)@ + packet_bytes(*self),
    {
        push_u16_be(out, self.hw_type);
        push_u16_be(out, self.proto_type);
        out.push(self.hw_len);
        out.push(self.proto_len);
        push_u16_be(out, self.op.code());
        push_bytes(out, &self.sender_mac.0);
        push_bytes(out, &self.sender_ip.0);
        push_bytes(out, &self.target_mac.0);
        push_bytes(out, &self.target_ip.0);
        proof {
            assert(out@ =~= old(out)@ + packet_bytes(*self));
        }
    }
}

} // verus!
