//! Small byte-buffer builders shared by the cartridge loader and the
//! machine state.

use vstd::prelude::*;

verus! {

/// A vector of `n` zero bytes.
pub fn zero_vec(n: usize) -> (r: Vec<u8>)
    ensures
        r@ == Seq::new(n as nat, |k: int| 0u8),
{
    let mut r: Vec<u8> = Vec::new();
    let mut j: usize = 0;
    while j < n
        invariant
            j <= n,
            r@.len() == j,
            forall|t: int| 0 <= t < j ==> r@[t] == 0u8,
        decreases n - j,
    {
        r.push(0);
        j += 1;
    }
    proof {
        assert(r@ =~= Seq::new(n as nat, |k: int| 0u8));
    }
    r
}

/// A copy of `n` bytes of `src` starting at `start`.
pub fn copy_range(src: &Vec<u8>, start: usize, n: usize) -> (r: Vec<u8>)
    requires
        start + n <= src@.len(),
    ensures
        r@ == src@.subrange(start as int, start as int + n as int),
{
    let l: usize = src.len();
    let mut r: Vec<u8> = Vec::new();
    let mut j: usize = 0;
    while j < n
        invariant
            j <= n,
            start + n <= l,
            l == src@.len(),
            r@.len() == j,
            forall|t: int| 0 <= t < j ==> r@[t] == src@[start + t],
        decreases n - j,
    {
        r.push(src[start + j]);
        j += 1;
    }
    proof {
        assert(r@ =~= src@.subrange(start as int, start as int + n as int));
    }
    r
}

} // verus!
