//! Reading fixed-width fields out of a byte string.

use vstd::prelude::*;

verus! {

/// `len` zero bytes.
pub open spec fn zeros(len: nat) -> Seq<u8> {
    Seq::new(len, |i: int| 0u8)
}

/// The `N` bytes of `src` that start at `start`.
pub fn take_array<const N: usize>(src: &[u8], start: usize) -> (out: [u8; N])
    requires
        start + N <= src@.len(),
    ensures
        out@ == src@.subrange(start as int, start + N),
{
    let mut out = [0u8; N];
    let mut i: usize = 0;
    while i < N
        invariant
            i <= N,
            start + N <= src.len(),
            out@.len() == N,
            forall|j: int| 0 <= j < i ==> out@[j] == src@[start + j],
        decreases N - i,
    {
        out[i] = src[start + i];
        i += 1;
    }
    assert(out@ =~= src@.subrange(start as int, start + N));
    out
}

/// Whether every byte of `bytes` is zero.
pub fn is_zero(bytes: &[u8]) -> (r: bool)
    ensures
        r <==> bytes@ == zeros(bytes@.len()),
{
    let mut i: usize = 0;
    while i < bytes.len()
        invariant
            i <= bytes@.len(),
            forall|j: int| 0 <= j < i ==> bytes@[j] == 0,
        decreases bytes@.len() - i,
    {
        if bytes[i] != 0 {
            assert(zeros(bytes@.len())[i as int] == 0);
            return false;
        }
        i += 1;
    }
    assert(bytes@ =~= zeros(bytes@.len()));
    true
}

} // verus!
