//! Render-path helpers.
//!
//! The render engine produces one filtered scalar per frame and writes it
//! identically to both stereo channels of the output block.  The channel
//! duplication is plain data movement and is verified here; the embedding
//! sample path hands in the mono block it computed.

use vstd::prelude::*;

verus! {

/// `out` is the stereo interleaving of `mono`: twice as long, with each mono
/// sample written to both channels of its frame.
pub open spec fn interleaved<T>(mono: Seq<T>, out: Seq<T>) -> bool {
    &&& out.len() == 2 * mono.len()
    &&& forall|i: int|
        0 <= i < mono.len() ==> out[2 * i] == #[trigger] mono[i] && out[2 * i + 1] == mono[i]
}

/// Write each sample of the mono block to both channels of an interleaved
/// stereo block.
pub fn interleave_stereo<T: Copy>(mono: &Vec<T>) -> (out: Vec<T>)
    ensures
        interleaved(mono@, out@),
{
    let n = mono.len();
    let mut out: Vec<T> = Vec::new();
    let mut i: usize = 0;
    while i < n
        invariant
            i <= n,
            n == mono@.len(),
            out@.len() == 2 * i,
            forall|j: int|
                0 <= j < i ==> out@[2 * j] == #[trigger] mono@[j] && out@[2 * j + 1] == mono@[j],
        decreases n - i,
    {
        let s = mono[i];
        out.push(s);
        out.push(s);
        i = i + 1;
    }
    out
}

} // verus!
