//! Byte-buffer copies shared by the drivers.

use vstd::prelude::*;

verus! {

/// Copy the first `n` bytes of `src` over the first `n` bytes of `dst`,
/// leaving the rest of `dst` as it was.
pub(crate) fn copy_prefix(dst: &mut Vec<u8>, src: &[u8], n: usize)
    requires
        n <= src@.len(),
        n <= old(dst)@.len(),
    ensures
        final(dst)@ == src@.take(n as int) + old(dst)@.skip(n as int),
{
    let mut k: usize = 0;
    while k < n
        invariant
            k <= n,
            n <= src@.len(),
            n <= dst@.len(),
            dst@.len() == old(dst)@.len(),
            forall|j: int| 0 <= j < k ==> dst@[j] == src@[j],
            forall|j: int| k <= j < dst@.len() ==> dst@[j] == old(dst)@[j],
        decreases n - k,
    {
        let b = src[k];
        dst.set(k, b);
        k = k + 1;
    }
    proof {
        assert(dst@ =~= src@.take(n as int) + old(dst)@.skip(n as int));
    }
}

} // verus!
