//! The buffer pair: interleaving the two channel buffers into the
//! audio sink's output format.
//!
//! The render loop keeps two fixed-length channel buffers, allocated
//! once at startup and reused for every call, and after each render
//! interleaves them into the sink's frame layout (left then right per
//! frame). Interleaving is index bookkeeping and is generic over the
//! sample type, so the host instantiates it with its floating-point
//! samples while the library stays float-free; the output buffer is
//! reused too, so the render path allocates nothing per call.

use vstd::prelude::*;

verus! {

/// Writes the two channel buffers into `out` frame by frame: sample `i`
/// of the left channel lands at `2 * i`, the right one right after it.
/// `out` must already have one slot per channel sample, as a reused
/// output buffer does.
pub fn interleave_stereo<T: Copy>(left: &[T], right: &[T], out: &mut Vec<T>)
    requires
        left@.len() == right@.len(),
        old(out)@.len() == 2 * left@.len(),
    ensures
        final(out)@.len() == old(out)@.len(),
        forall|i: int| 0 <= i < left@.len()
            ==> final(out)@[2 * i] == left@[i] && final(out)@[2 * i + 1] == right@[i],
{
    let n = left.len();
    let m = out.len();
    let mut i: usize = 0;
    while i < n
        invariant
            n == left@.len(),
            n == right@.len(),
            i <= n,
            m == 2 * n,
            m == out@.len(),
            forall|j: int| 0 <= j < i ==> out@[2 * j] == left@[j] && out@[2 * j + 1] == right@[j],
        decreases n - i,
    {
        out[2 * i] = left[i];
        out[2 * i + 1] = right[i];
        i = i + 1;
    }
}

} // verus!
