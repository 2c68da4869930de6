//! Packet serialization for the protocol stack.
//!
//! Each packet type appends its exact wire bytes to a caller-supplied
//! vector; every serializer's contract names those bytes, field by field,
//! over a spec-level byte layout. Multi-byte protocol fields go out in
//! network (big-endian) order.

use vstd::prelude::*;

pub mod arp;

pub mod dhcp;

pub mod dns;

pub mod ethernet;

pub mod icmp;

pub mod ipv4;

pub mod tcp;

pub mod udp;

verus! {

/// The two bytes of `v` in network order.
pub open spec fn be16(v: u16) -> Seq<u8> {
    seq![(v / 0x100) as u8, (v % 0x100) as u8]
}

/// The four bytes of `v` in network order.
pub open spec fn be32(v: u32) -> Seq<u8> {
    seq![
        (v / 0x1000000) as u8,
        ((v / 0x10000) % 0x100) as u8,
        ((v / 0x100) % 0x100) as u8,
        (v % 0x100) as u8,
    ]
}

/// `n` zero bytes.
pub open spec fn zero_bytes(n: nat) -> Seq<u8> {
    Seq::new(n, |i: int| 0u8)
}

/// Append the two bytes of `v`, in network order.
pub(crate) fn push_u16_be(out: &mut Vec<u8>, v: u16)
    ensures
        final(out)@ == old(out)@ + be16(v),
{
    out.push((v / 0x100) as u8);
    out.push((v % 0x100) as u8);
    proof {
        assert(out@ =~= old(out)@ + be16(v));
    }
}

/// Append the four bytes of `v`, in network order.
pub(crate) fn push_u32_be(out: &mut Vec<u8>, v: u32)
    ensures
        final(out)@ == old(out)@ + be32(v),
{
    out.push((v / 0x1000000) as u8);
    out.push(((v / 0x10000) % 0x100) as u8);
    out.push(((v / 0x100) % 0x100) as u8);
    out.push((v % 0x100) as u8);
    proof {
        assert(out@ =~= old(out)@ + be32(v));
    }
}

/// Append every byte of `bytes`.
pub(crate) fn push_bytes(out: &mut Vec<u8>, bytes: &[u8])
    ensures
        final(out)@ == old(out)@ + bytes@,
{
    let n = bytes.len();
    let mut k: usize = 0;
    while k < n
        invariant
            k <= n,
            n == bytes@.len(),
            out@ == old(out)@ + bytes@.take(k as int),
        decreases n - k,
    {
        let b = bytes[k];
        out.push(b);
        proof {
            assert(old(out)@ + bytes@.take(k as int + 1) =~= (old(out)@ + bytes@.take(
                k as int,
            )).push(bytes@[k as int]));
        }
        k = k + 1;
    }
    proof {
        assert(old(out)@ + bytes@.take(n as int) =~= old(out)@ + bytes@);
    }
}

/// Append `n` zero bytes.
pub(crate) fn push_zero_bytes(out: &mut Vec<u8>, n: usize)
    ensures
        final(out)@ == old(out)@ + zero_bytes(n as nat),
{
    let mut k: usize = 0;
    while k < n
        invariant
            k <= n,
            out@ == old(out)@ + zero_bytes(k as nat),
        decreases n - k,
    {
        out.push(0);
        proof {
            assert(old(out)@ + zero_bytes(k as nat + 1) =~= (old(out)@ + zero_bytes(
                k as nat,
            )).push(0u8));
        }
        k = k + 1;
    }
}

} // verus!
