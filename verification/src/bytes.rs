//! Small helpers on byte slices.

use vstd::prelude::*;

verus! {

/// Copies `src[from..to]` into a fresh vector.
pub fn copy_range(src: &[u8], from: usize, to: usize) -> (out: Vec<u8>)
    requires
        from <= to <= src@.len(),
    ensures
        out@ == src@.subrange(from as int, to as int),
{
    let mut out: Vec<u8> = Vec::new();
    let mut i: usize = from;
    while i < to
        invariant
            from <= i <= to <= src@.len(),
            out@ == src@.subrange(from as int, i as int),
        decreases to - i,
    {
        out.push(src[i]);
        i += 1;
        assert(out@ =~= src@.subrange(from as int, i as int));
    }
    out
}

/// Returns `head` followed by `tail`.
pub fn concat(head: &[u8], tail: &[u8]) -> (out: Vec<u8>)
    ensures
        out@ == head@ + tail@,
{
    let mut out: Vec<u8> = Vec::new();
    let mut i: usize = 0;
    while i < head.len()
        invariant
            i <= head@.len(),
            out@ == head@.subrange(0, i as int),
        decreases head@.len() - i,
    {
        out.push(head[i]);
        i += 1;
        assert(out@ =~= head@.subrange(0, i as int));
    }
    let mut j: usize = 0;
    while j < tail.len()
        invariant
            j <= tail@.len(),
            out@ == head@ + tail@.subrange(0, j as int),
        decreases tail@.len() - j,
    {
        out.push(tail[j]);
        j += 1;
        assert(out@ =~= head@ + tail@.subrange(0, j as int));
    }
    assert(out@ =~= head@ + tail@);
    out
}

} // verus!
