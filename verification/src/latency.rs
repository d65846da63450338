//! A synthetic workload of known latency.

use vstd::prelude::*;

verus! {

/// Run a dependency chain of known latency.
///
/// Both the subtraction and the mask are single-cycle operations on
/// essentially all target architectures, and each iteration depends on the
/// previous one, so the loop cannot be optimized out and takes a number of
/// core cycles proportional to `cycles`.
///
/// `cycles` must be divisible by 4 and strictly below `2^32 - 1`; any other
/// argument is a usage error and is ruled out statically.
///
/// Returns the final counter value, which is always zero; consuming it lets
/// callers anchor artificial dependency chains of known latency.
pub fn const_cycle_loop(cycles: u64) -> (r: u64)
    requires
        cycles % 4 == 0,
        cycles < 0xFFFF_FFFFu64,
    ensures
        r == 0,
{
    let mut c: u64 = cycles / 2;
    while c > 0
        invariant
            c < 0x8000_0000u64,
        decreases c,
    {
        c = c - 1;
        proof {
            assert((c & 0x700FFFFFFFFu64) == c) by (bit_vector)
                requires
                    c < 0x8000_0000u64,
            ;
        }
        c = c & 0x700FFFFFFFFu64;
    }
    c
}

} // verus!
