//! Domain-name-system client packets.

use vstd::prelude::*;
use vstd::utf8::encode_utf8;

use crate::net::{be16, push_u16_be};

verus! {

/// Index of the first label separator (the byte `.`) in `s`, or the
/// length when none occurs.
pub open spec fn first_dot(s: Seq<u8>) -> int
    decreases s.len(),
{
    if s.len() == 0 {
        0
    } else if s[0] == 46 {
        0
    } else {
        1 + first_dot(s.skip(1))
    }
}

/// The wire encoding of a name given as its UTF-8 bytes: each
/// dot-separated label preceded by its byte length (truncated to one
/// byte, exactly as the one-byte length prefix truncates), in order.
pub open spec fn name_bytes(s: Seq<u8>) -> Seq<u8>
    decreases s.len(),
{
    let dot = first_dot(s);
    if 0 <= dot < s.len() {
        seq![dot as u8] + s.take(dot) + name_bytes(s.skip(dot + 1))
    } else {
        seq![s.len() as u8] + s
    }
}

/// The wire bytes of a query: the encoded name, its terminating zero,
/// then the query type and class in network order.
pub open spec fn query_bytes(name_utf8: Seq<u8>, qtype: u16, qclass: u16) -> Seq<u8> {
    name_bytes(name_utf8) + seq![0u8] + be16(qtype) + be16(qclass)
}

/// The first separator is where the first `.` byte stands: no separator
/// before `k`, and `k` itself is one or the end.
proof fn lemma_first_dot_at(s: Seq<u8>, k: int)
    requires
        0 <= k <= s.len(),
        forall|j: int| 0 <= j < k ==> s[j] != 46,
        k < s.len() ==> s[k] == 46,
    ensures
        first_dot(s) == k,
    decreases k,
{
    if k == 0 {
    } else {
        assert(s[0] != 46);
        lemma_first_dot_at(s.skip(1), k - 1);
    }
}

/// DNS query representation.
pub struct DnsQuery {
    pub name: String,
    pub qtype: u16,
    pub qclass: u16,
}

impl DnsQuery {
    /// Serialize the query: append exactly its wire bytes — the name's
    /// length-prefixed labels, the zero terminator, type and class — to
    /// `out`.
    pub fn serialize(&self, out: &mut Vec<u8>)
        ensures
            final(out)@ == old(out)@ + query_bytes(
                encode_utf8(self.name@),
                self.qtype,
                self.qclass,
            ),
    {
        let bytes = self.name.as_str().as_bytes();
        let ghost full = encode_utf8(self.name@);
        proof {
            assert(bytes@ == full);
        }
        let n = bytes.len();
        let mut start: usize = 0;
        proof {
            assert(full.skip(0) =~= full);
        }
        loop
            invariant_except_break
                out@ + name_bytes(full.skip(start as int)) == old(out)@ + name_bytes(full),
            invariant
                n == full.len(),
                bytes@ == full,
                start <= n,
            ensures
                out@ == old(out)@ + name_bytes(full),
            decreases n - start,
        {
            // find the end of the current label
            let mut end: usize = start;
            while end < n && bytes[end] != 46
                invariant
                    start <= end <= n,
                    n == full.len(),
                    bytes@ == full,
                    forall|j: int| start <= j < end ==> full[j] != 46,
                decreases n - end,
            {
                end = end + 1;
            }
            proof {
                let s2 = full.skip(start as int);
                assert forall|j: int| 0 <= j < end - start implies s2[j] != 46 by {
                    assert(s2[j] == full[start + j]);
                }
                if end < n {
                    assert(s2[end - start] == full[end as int] == 46);
                }
                lemma_first_dot_at(s2, end - start);
            }
            out.push((end - start) as u8);
            let mut k: usize = start;
            let ghost checkpoint = out@;
            while k < end
                invariant
                    start <= k <= end <= n,
                    n == full.len(),
                    bytes@ == full,
                    out@ == checkpoint + full.subrange(start as int, k as int),
                decreases end - k,
            {
                let b = bytes[k];
                out.push(b);
                proof {
                    assert(checkpoint + full.subrange(start as int, k as int + 1) =~= (checkpoint
                        + full.subrange(start as int, k as int)).push(full[k as int]));
                }
                k = k + 1;
            }
            if end == n {
                proof {
                    let s2 = full.skip(start as int);
                    assert(first_dot(s2) == s2.len());
                    assert(name_bytes(s2) =~= seq![(s2.len() as u8)] + s2);
                    assert(s2 =~= full.subrange(start as int, n as int));
                    assert((s2.len() as u8) == ((end - start) as u8));
                    assert(out@ =~= old(out)@ + name_bytes(full));
                }
                break ;
            }
            proof {
                let s2 = full.skip(start as int);
                let dot = first_dot(s2);
                assert(dot == end - start);
                assert(name_bytes(s2) =~= seq![(dot as u8)] + s2.take(dot) + name_bytes(
                    s2.skip(dot + 1),
                ));
                assert(s2.take(dot) =~= full.subrange(start as int, end as int));
                assert(s2.skip(dot + 1) =~= full.skip(end as int + 1));
                assert(out@ + name_bytes(full.skip(end as int + 1)) =~= old(out)@ + name_bytes(
                    full,
                ));
            }
            start = end + 1;
        }
        out.push(0);  // end of name
        push_u16_be(out, self.qtype);
        push_u16_be(out, self.qclass);
        proof {
            assert(out@ =~= old(out)@ + query_bytes(full, self.qtype, self.qclass));
        }
    }
}

} // verus!
