//! Dynamic-host-configuration-protocol client packets.

use vstd::prelude::*;

use crate::net::{be32, push_bytes, push_u32_be, push_zero_bytes, zero_bytes};

verus! {

/// The wire bytes of a discover packet, without options: the BOOTP
/// request header (op, hardware type, address length, hops), the
/// transaction id, zeroed seconds/flags and the four address fields, the
/// client's hardware address padded to sixteen bytes, the legacy BOOTP
/// region, then the magic cookie.
pub open spec fn discover_bytes(transaction_id: u32, client_mac: Seq<u8>) -> Seq<u8> {
    seq![1u8, 1, 6, 0] + be32(transaction_id) + zero_bytes(20) + client_mac + zero_bytes(10)
        + zero_bytes(192) + seq![99u8, 130, 83, 99]
}

/// A DHCP discover packet.
pub struct DhcpDiscover<'a> {
    pub transaction_id: u32,
    pub client_mac: &'a [u8; 6],
}

impl<'a> DhcpDiscover<'a> {
    /// Serialize the discover packet (without options): append exactly
    /// its wire bytes to `out`.
    pub fn serialize(&self, out: &mut Vec<u8>)
        ensures
            final(out)@ == old(out)@ + discover_bytes(self.transaction_id, self.client_mac@),
    {
        out.push(1);  // op: BOOTREQUEST
        out.push(1);  // htype: Ethernet
        out.push(6);  // hlen
        out.push(0);  // hops
        push_u32_be(out, self.transaction_id);
        push_zero_bytes(out, 2);  // secs
        push_zero_bytes(out, 2);  // flags
        push_zero_bytes(out, 4);  // ciaddr
        push_zero_bytes(out, 4);  // yiaddr
        push_zero_bytes(out, 4);  // siaddr
        push_zero_bytes(out, 4);  // giaddr
        push_bytes(out, self.client_mac);
        push_zero_bytes(out, 10);  // padding for chaddr
        push_zero_bytes(out, 192);  // bootp legacy
        out.push(99);  // magic cookie
        out.push(130);
        out.push(83);
        out.push(99);
        proof {
            assert(out@ =~= old(out)@ + discover_bytes(self.transaction_id, self.client_mac@));
        }
    }
}

} // verus!
