//! Adding and removing the all-zero prefixes that the low-level NaCl API requires.

use vstd::prelude::*;

verus! {

/// A run of `size` zero bytes.
pub open spec fn zeroes(size: nat) -> Seq<u8> {
    Seq::new(size, |i: int| 0u8)
}

/// Whether the first `size` bytes of `s` are all zero.
pub open spec fn zero_prefix(size: nat, s: Seq<u8>) -> bool {
    forall|i: int| 0 <= i < size ==> s[i] == 0u8
}

/// `unpadded` behind a prefix of `size` zeroes.
pub open spec fn padded(size: nat, unpadded: Seq<u8>) -> Seq<u8> {
    zeroes(size) + unpadded
}

/// What follows a prefix of `size` zeroes in `padded`, or `None` when `padded` is shorter than
/// `size` or its first `size` bytes are not all zero.
pub open spec fn unpadded(size: nat, padded: Seq<u8>) -> Option<Seq<u8>> {
    if size <= padded.len() && zero_prefix(size, padded) {
        Some(padded.subrange(size as int, padded.len() as int))
    } else {
        None
    }
}

/// Add a prefix of `size` zeroes to an unpadded value.
pub fn pad_zeroes(size: usize, unpadded: &[u8]) -> (r: Vec<u8>)
    requires
        size + unpadded@.len() <= usize::MAX,
    ensures
        r@ == padded(size as nat, unpadded@),
{
    let mut out: Vec<u8> = Vec::with_capacity(size + unpadded.len());
    let mut i: usize = 0;
    while i < size
        invariant
            i <= size,
            out@ == zeroes(i as nat),
        decreases size - i,
    {
        out.push(0u8);
        i = i + 1;
        assert(out@ =~= zeroes(i as nat));
    }
    let mut j: usize = 0;
    while j < unpadded.len()
        invariant
            j <= unpadded@.len(),
            out@ == zeroes(size as nat) + unpadded@.subrange(0, j as int),
        decreases unpadded@.len() - j,
    {
        out.push(unpadded[j]);
        j = j + 1;
        assert(out@ =~= zeroes(size as nat) + unpadded@.subrange(0, j as int));
    }
    assert(unpadded@.subrange(0, unpadded@.len() as int) =~= unpadded@);
    out
}

/// Check and remove a prefix of `size` zeroes from a padded value.
///
/// Return `None` if `size` exceeds the length of `padded`,
/// or if the padding contains any non-zero bytes.
pub fn unpad_zeroes(size: usize, padded: &[u8]) -> (r: Option<Vec<u8>>)
    ensures
        r matches Some(v) ==> unpadded(size as nat, padded@) == Some(v@),
        r is None ==> unpadded(size as nat, padded@) is None,
{
    if size > padded.len() {
        return None;  // padding size exceeds padded message size
    }
    let mut i: usize = 0;
    while i < size
        invariant
            size <= padded@.len(),
            i <= size,
            zero_prefix(i as nat, padded@),
        decreases size - i,
    {
        if padded[i] != 0 {
            return None;  // padding is not all zeroes
        }
        i = i + 1;
    }
    let mut out: Vec<u8> = Vec::with_capacity(padded.len() - size);
    let mut j: usize = size;
    while j < padded.len()
        invariant
            size <= j <= padded@.len(),
            out@ == padded@.subrange(size as int, j as int),
        decreases padded@.len() - j,
    {
        out.push(padded[j]);
        j = j + 1;
        assert(out@ =~= padded@.subrange(size as int, j as int));
    }
    Some(out)
}

/// Padding by zero bytes, and removing zero bytes of padding, leave a buffer as it is.
pub proof fn lemma_zero_size_identity(x: Seq<u8>)
    ensures
        padded(0, x) == x,
        unpadded(0, x) == Some(x),
{
    assert(padded(0, x) =~= x);
    assert(x.subrange(0, x.len() as int) =~= x);
}

/// Removing a prefix of `size` zeroes undoes adding it; the padded buffer is `size` bytes
/// longer, starts with `size` zeroes, and continues with the given buffer.
pub proof fn lemma_pad_unpad_round_trip(size: nat, x: Seq<u8>)
    ensures
        unpadded(size, padded(size, x)) == Some(x),
        padded(size, x).len() == x.len() + size,
        zero_prefix(size, padded(size, x)),
        padded(size, x).subrange(size as int, padded(size, x).len() as int) == x,
{
    let p = padded(size, x);
    assert(p.subrange(size as int, p.len() as int) =~= x);
}

/// A padding size beyond the buffer's length is rejected.
pub proof fn lemma_unpad_rejects_oversized(s: nat, x: Seq<u8>)
    requires
        s >= 1,
    ensures
        unpadded(x.len() + s, x) is None,
{
}

/// A prefix that holds a non-zero byte is rejected as padding.
pub proof fn lemma_unpad_rejects_nonzero_prefix(p: Seq<u8>, x: Seq<u8>)
    requires
        exists|i: int| 0 <= i < p.len() && p[i] != 0u8,
    ensures
        unpadded(p.len(), p + x) is None,
{
    let i = choose|i: int| 0 <= i < p.len() && p[i] != 0u8;
    assert((p + x)[i] != 0u8);
}

} // verus!
