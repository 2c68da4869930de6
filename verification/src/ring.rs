//! Ring cursors.
//!
//! Both network drivers walk a fixed set of slots with a cursor that moves
//! forward by exactly one slot per operation, wrapping at the capacity.
//! This module holds the one step function they share and the law that
//! iterated advances stay inside the ring.

use vstd::arithmetic::div_mod::{lemma_add_mod_noop, lemma_small_mod};
use vstd::prelude::*;

verus! {

/// The cursor position reached from `start` after `k` single-slot advances
/// round a ring of capacity `c`.
pub open spec fn cursor_after(start: int, k: nat, c: int) -> int
    decreases k,
{
    if k == 0 {
        start
    } else {
        (cursor_after(start, (k - 1) as nat, c) + 1) % c
    }
}

/// Advance a ring cursor by one slot, wrapping at `capacity`.
pub fn advance_cursor(cursor: usize, capacity: usize) -> (r: usize)
    requires
        0 < capacity,
        cursor < capacity,
    ensures
        r == (cursor + 1) % (capacity as int),
        r < capacity,
{
    proof {
        if cursor + 1 < capacity {
            lemma_small_mod((cursor + 1) as nat, capacity as nat);
        } else {
            lemma_small_mod(0, capacity as nat);
            assert((cursor + 1) % (capacity as int) == 0) by {
                lemma_add_mod_noop(cursor as int + 1 - capacity, capacity as int, capacity as int);
                lemma_small_mod((cursor + 1 - capacity) as nat, capacity as nat);
            }
        }
    }
    if cursor + 1 == capacity {
        0
    } else {
        cursor + 1
    }
}

/// Law: for any ring capacity `c`, a cursor that starts in `[0, c)` still
/// lies in `[0, c)` after `k` advances, and equals the start plus `k`,
/// modulo the capacity.
pub proof fn lemma_cursor_after_advances(start: int, k: nat, c: int)
    requires
        0 < c,
        0 <= start < c,
    ensures
        0 <= cursor_after(start, k, c) < c,
        cursor_after(start, k, c) == (start + k) % c,
    decreases k,
{
    if k == 0 {
        lemma_small_mod(start as nat, c as nat);
    } else {
        lemma_cursor_after_advances(start, (k - 1) as nat, c);
        lemma_add_mod_noop(start + k - 1, 1, c);
        if c == 1 {
            lemma_small_mod(0, 1);
        } else {
            lemma_small_mod(1, c as nat);
        }
    }
}

} // verus!
