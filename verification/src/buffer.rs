//! The bytes of an echo buffer: whether a buffer is untouched, and what it
//! holds once a payload has been written into it.

use vstd::prelude::*;

verus! {

/// `len` bytes, all zero.
pub open spec fn zeros(len: nat) -> Seq<u8> {
    Seq::new(len, |i: int| 0u8)
}

/// Every byte is zero.
pub open spec fn is_zeroed(bytes: Seq<u8>) -> bool {
    forall|i: int| 0 <= i < bytes.len() ==> bytes[i] == 0
}

/// A field of `len` bytes that holds `data` from its first byte on: `data`
/// is cut to `len` bytes where it is longer, and followed by zeros where it
/// is shorter.
pub open spec fn left_aligned(data: Seq<u8>, len: nat) -> Seq<u8> {
    Seq::new(
        len,
        |i: int|
            if i < data.len() {
                data[i]
            } else {
                0u8
            },
    )
}

/// The lesser of two lengths.
pub open spec fn min_len(a: nat, b: nat) -> nat {
    if a <= b {
        a
    } else {
        b
    }
}

/// Writing a payload over a zeroed field changes its first bytes to the
/// payload's, as many as both have, and leaves the others as they were.
pub proof fn lemma_left_aligned_over_zeros(data: Seq<u8>, field: Seq<u8>)
    requires
        is_zeroed(field),
    ensures
        left_aligned(data, field.len()) == data.take(min_len(data.len(), field.len()) as int)
            + field.skip(min_len(data.len(), field.len()) as int),
{
    let copied = min_len(data.len(), field.len()) as int;
    assert(left_aligned(data, field.len()) =~= data.take(copied) + field.skip(copied));
}

/// A field no longer than the payload is filled by the payload's first
/// bytes, and an empty payload leaves a field of zeros.
pub proof fn lemma_left_aligned_ends(data: Seq<u8>, len: nat)
    ensures
        left_aligned(data, len).len() == len,
        len <= data.len() ==> left_aligned(data, len) == data.take(len as int),
        left_aligned(Seq::empty(), len) == zeros(len),
        left_aligned(left_aligned(data, len), len) == left_aligned(data, len),
{
    if len <= data.len() {
        assert(left_aligned(data, len) =~= data.take(len as int));
    }
    assert(left_aligned(Seq::empty(), len) =~= zeros(len));
    assert(left_aligned(left_aligned(data, len), len) =~= left_aligned(data, len));
}

/// Whether every byte of `bytes` is zero.
pub fn all_zero(bytes: &[u8]) -> (r: bool)
    ensures
        r == is_zeroed(bytes@),
{
    let mut i: usize = 0;
    while i < bytes.len()
        invariant
            i <= bytes@.len(),
            forall|j: int| 0 <= j < i ==> bytes@[j] == 0,
        decreases bytes@.len() - i,
    {
        if bytes[i] != 0 {
            return false;
        }
        i += 1;
    }
    true
}

/// A field of `len` bytes with `data` written from its first byte on.
pub fn fill_left_aligned(data: &[u8], len: usize) -> (r: Vec<u8>)
    ensures
        r@ == left_aligned(data@, len as nat),
{
    let mut out: Vec<u8> = vec![0u8; len];
    let mut i: usize = 0;
    while i < len && i < data.len()
        invariant
            out@.len() == len,
            forall|j: int| 0 <= j < i ==> out@[j] == data@[j],
            forall|j: int| i <= j < len ==> out@[j] == 0,
            i <= len,
            i <= data@.len(),
        decreases len - i,
    {
        out[i] = data[i];
        i += 1;
    }
    assert(out@ =~= left_aligned(data@, len as nat));
    out
}

} // verus!
