//! Byte-buffer helpers shared by the storage devices: constant-filled
//! buffers and the seed-or-fallback policy used at device construction.

use vstd::prelude::*;

verus! {

/// A sequence of `size` copies of the byte `b`.
pub open spec fn bytes_filled(size: nat, b: u8) -> Seq<u8> {
    Seq::new(size, |i: int| b)
}

/// The buffer a device is constructed with: the seed bytes when they are
/// present and of exactly the expected length, otherwise `size` copies of
/// the device's default fill byte.
pub open spec fn seed_or_fill(storage: Option<Vec<u8>>, size: nat, fill: u8) -> Seq<u8> {
    match storage {
        Some(v) => if v@.len() == size {
            v@
        } else {
            bytes_filled(size, fill)
        },
        None => bytes_filled(size, fill),
    }
}

/// Builds a vector of `size` copies of `b`.
pub(crate) fn filled(size: usize, b: u8) -> (r: Vec<u8>)
    ensures
        r@ == bytes_filled(size as nat, b),
{
    let mut v: Vec<u8> = Vec::new();
    while v.len() < size
        invariant
            v@.len() <= size,
            forall|i: int| 0 <= i < v@.len() ==> v@[i] == b,
        decreases size - v@.len(),
    {
        v.push(b);
    }
    proof {
        assert(v@ =~= bytes_filled(size as nat, b));
    }
    v
}

/// Overwrites the bytes at indices `start..end` with `b`, leaving the rest
/// of the vector unchanged.
pub(crate) fn fill_range(v: &mut Vec<u8>, start: usize, end: usize, b: u8)
    requires
        start <= end,
        end <= old(v)@.len(),
    ensures
        final(v)@.len() == old(v)@.len(),
        forall|i: int|
            0 <= i < final(v)@.len() ==> final(v)@[i] == (if start <= i < end {
                b
            } else {
                old(v)@[i]
            }),
{
    let mut i: usize = start;
    while i < end
        invariant
            start <= i <= end,
            end <= v@.len(),
            v@.len() == old(v)@.len(),
            forall|j: int|
                0 <= j < v@.len() ==> v@[j] == (if start <= j < i {
                    b
                } else {
                    old(v)@[j]
                }),
        decreases end - i,
    {
        v[i] = b;
        i += 1;
    }
}

} // verus!
