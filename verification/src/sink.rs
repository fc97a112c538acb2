//! Frame delivery: on each capture tick the session manager hands over a
//! destination region, and the sink copies as much of the fixed raw pixel
//! frame into it as fits.  An undersized region gets a truncated prefix and no
//! error; rejecting such regions is the business of buffer negotiation, not of
//! delivery.

use vstd::prelude::*;
use vstd::pervasive::VecAdditionalExecFns;

verus! {

/// How many bytes one delivery copies: the frame length, or the region's
/// capacity where that is smaller.
pub open spec fn copy_len(dest_len: nat, src_len: nat) -> nat {
    if src_len <= dest_len {
        src_len
    } else {
        dest_len
    }
}

/// Copy the longest prefix of `src` that fits into `dest`, leaving the rest of
/// `dest` as it was, and report how many bytes were copied.
pub fn fill_region(dest: &mut Vec<u8>, src: &Vec<u8>) -> (n: usize)
    ensures
        n == copy_len(old(dest)@.len(), src@.len()),
        final(dest)@.len() == old(dest)@.len(),
        final(dest)@ == src@.subrange(0, n as int) + old(dest)@.subrange(
            n as int,
            old(dest)@.len() as int,
        ),
{
    let limit: usize = if src.len() <= dest.len() {
        src.len()
    } else {
        dest.len()
    };
    let mut i: usize = 0;
    proof {
        assert(dest@ =~= src@.subrange(0, 0) + old(dest)@.subrange(0, old(dest)@.len() as int));
    }
    while i < limit
        invariant
            i <= limit,
            limit == copy_len(old(dest)@.len(), src@.len()),
            limit <= src@.len(),
            limit <= dest@.len(),
            dest@.len() == old(dest)@.len(),
            dest@ == src@.subrange(0, i as int) + old(dest)@.subrange(
                i as int,
                old(dest)@.len() as int,
            ),
        decreases limit - i,
    {
        dest.set(i, src[i]);
        i = i + 1;
        proof {
            assert(dest@ =~= src@.subrange(0, i as int) + old(dest)@.subrange(
                i as int,
                old(dest)@.len() as int,
            ));
        }
    }
    limit
}

} // verus!
