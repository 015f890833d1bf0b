//! Definitions shared by every peripheral on the memory bus.

use vstd::prelude::*;

verus! {

/// Visible screen width in pixels.
pub const SCREEN_W: u8 = 160;

/// Visible screen height in pixels (scanlines).
pub const SCREEN_H: u8 = 144;

/// Number of pixels in one full frame.
pub const SCREEN_WH: usize = 23040;

/// A vector of `n` copies of `v`.
pub fn filled_vec<T: Copy>(n: usize, v: T) -> (r: Vec<T>)
    ensures
        r@ == Seq::<T>::new(n as nat, |i: int| v),
{
    let mut r: Vec<T> = Vec::new();
    let mut i: usize = 0;
    while i < n
        invariant
            i <= n,
            r@ =~= Seq::<T>::new(i as nat, |j: int| v),
        decreases n - i,
    {
        r.push(v);
        i = i + 1;
    }
    proof {
        assert(r@ =~= Seq::<T>::new(n as nat, |i: int| v));
    }
    r
}

} // verus!
