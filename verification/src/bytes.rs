//! Comparisons of fixed-width byte strings.

use vstd::prelude::*;

verus! {

/// The string of `n` zero bytes.
pub open spec fn zeros(n: nat) -> Seq<u8> {
    Seq::new(n, |i: int| 0u8)
}

/// Whether two byte strings of one width agree in every byte.
pub fn array_eq<const N: usize>(a: &[u8; N], b: &[u8; N]) -> (r: bool)
    ensures
        r == (a@ == b@),
{
    let mut i: usize = 0;
    while i < N
        invariant
            i <= N,
            a@.len() == N,
            b@.len() == N,
            forall|j: int| 0 <= j < i ==> a@[j] == b@[j],
        decreases N - i,
    {
        if a[i] != b[i] {
            return false;
        }
        i += 1;
    }
    assert(a@ =~= b@);
    true
}

/// Whether every byte of a byte string is zero.
pub fn is_zero<const N: usize>(a: &[u8; N]) -> (r: bool)
    ensures
        r == (a@ == zeros(N as nat)),
{
    let mut i: usize = 0;
    while i < N
        invariant
            i <= N,
            a@.len() == N,
            forall|j: int| 0 <= j < i ==> a@[j] == 0,
        decreases N - i,
    {
        if a[i] != 0 {
            assert(zeros(N as nat)[i as int] == 0);
            return false;
        }
        i += 1;
    }
    assert(a@ =~= zeros(N as nat));
    true
}

} // verus!
