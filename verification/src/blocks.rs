//! How a host buffer is cut into the engine's fixed-size blocks.

use vstd::prelude::*;

verus! {

/// Number of samples the audio engine renders per block.
pub const BLOCK_SIZE: usize = 128;

/// How many whole blocks fit in a host buffer of `samples` samples; the
/// samples after the last whole block are not rendered.
pub fn block_count(samples: usize) -> (n: usize)
    ensures
        n == samples / BLOCK_SIZE,
        n * BLOCK_SIZE <= samples,
{
    samples / BLOCK_SIZE
}

/// The samples `start..end` of a host buffer of `samples` samples that block
/// `b` covers.
pub fn block_bounds(samples: usize, b: usize) -> (r: (usize, usize))
    requires
        b < samples / BLOCK_SIZE,
    ensures
        r.0 == b * BLOCK_SIZE,
        r.1 == r.0 + BLOCK_SIZE,
        r.1 <= samples,
{
    assert((b + 1) * BLOCK_SIZE <= samples) by (nonlinear_arith)
        requires
            b < samples / 128,
            BLOCK_SIZE == 128,
    {
    }
    (b * BLOCK_SIZE, b * BLOCK_SIZE + BLOCK_SIZE)
}

/// Writes one rendered block into its place in an output channel: sample `n`
/// of `block` goes to position `b * BLOCK_SIZE + n`; every other position
/// keeps its value.
pub fn write_block<T: Copy>(out: &mut [T], b: usize, block: &[T])
    requires
        (b + 1) * BLOCK_SIZE <= old(out)@.len(),
        BLOCK_SIZE <= block@.len(),
    ensures
        final(out)@.len() == old(out)@.len(),
        forall|n: int| 0 <= n < BLOCK_SIZE ==> #[trigger] final(out)@[b * BLOCK_SIZE + n] == block@[n],
        forall|i: int|
            0 <= i < old(out)@.len() && !(b * BLOCK_SIZE <= i < (b + 1) * BLOCK_SIZE)
                ==> #[trigger] final(out)@[i] == old(out)@[i],
{
    let len = out.len();
    assert(b * BLOCK_SIZE + BLOCK_SIZE == (b + 1) * BLOCK_SIZE) by (nonlinear_arith);
    assert(b * BLOCK_SIZE + BLOCK_SIZE <= len);
    let start = b * BLOCK_SIZE;
    let mut n: usize = 0;
    while n < BLOCK_SIZE
        invariant
            start == b * BLOCK_SIZE,
            (b + 1) * BLOCK_SIZE <= old(out)@.len(),
            BLOCK_SIZE <= block@.len(),
            n <= BLOCK_SIZE,
            out@.len() == old(out)@.len(),
            forall|k: int| 0 <= k < n ==> #[trigger] out@[start + k] == block@[k],
            forall|i: int|
                0 <= i < old(out)@.len() && !(start <= i < start + n) ==> #[trigger] out@[i]
                    == old(out)@[i],
        decreases BLOCK_SIZE - n,
    {
        out[start + n] = block[n];
        n = n + 1;
    }
}

/// The blocks cut a buffer without gaps or overlaps: a position lies in some
/// block exactly when it comes before the end of the last whole block, and
/// then it lies in block `i / BLOCK_SIZE` alone, at offset `i % BLOCK_SIZE`.
pub proof fn law_blocks_partition(samples: nat, i: int, b: int)
    ensures
        (exists|c: int| 0 <= c < samples / 128 && #[trigger] (c * 128) <= i < c * 128 + 128)
            <==> 0 <= i < (samples / 128) * 128,
        0 <= b < samples / 128 && b * 128 <= i < b * 128 + 128 ==> b == i / 128 && i - b * 128
            == i % 128,
{
    if 0 <= i < (samples / 128) * 128 {
        let c = i / 128;
        assert(c * 128 <= i < c * 128 + 128) by (nonlinear_arith)
            requires
                c == i / 128,
                0 <= i,
        {
        }
        assert(c < samples / 128) by (nonlinear_arith)
            requires
                c == i / 128,
                i < (samples / 128) * 128,
                0 <= i,
        {
        }
    }
    assert forall|c: int| 0 <= c < samples / 128 && #[trigger] (c * 128) <= i < c * 128 + 128
        implies 0 <= i < (samples / 128) * 128 by {
        assert(c * 128 + 128 <= (samples / 128) * 128) by (nonlinear_arith)
            requires
                c < samples / 128,
        {
        }
    }
    if 0 <= b < samples / 128 && b * 128 <= i < b * 128 + 128 {
        assert(b == i / 128 && i - b * 128 == i % 128) by (nonlinear_arith)
            requires
                b * 128 <= i < b * 128 + 128,
                0 <= b,
        {
        }
    }
}

} // verus!
