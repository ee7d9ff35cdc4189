//! Coarse-graining layout: the shape side of the reduced-resolution
//! broadcast channel.  Pooling and expansion both work in windows of
//! `2^rg_level` components; expansion repeats each coarse value across its
//! window and fits the result to the full state length, truncating or
//! right-padding with a fill value.  The averaging inside a pooling window
//! is arithmetic on the component values and is left to the caller; the
//! layout proved here is what the combiner relies on to keep coarse and
//! full-length vectors aligned.

use vstd::prelude::*;
use vstd::arithmetic::power2::{lemma_pow2_strictly_increases, pow2};

verus! {

/// The coarse-graining window: `2^rg_level` components are pooled into,
/// and expanded from, one coarse value.
pub fn rg_window(rg_level: usize) -> (k: usize)
    requires
        pow2(rg_level as nat) <= usize::MAX,
    ensures
        k == pow2(rg_level as nat),
{
    let mut k: usize = 1;
    let mut i: usize = 0;
    proof {
        vstd::arithmetic::power::lemma_pow0(2);
    }
    while i < rg_level
        invariant
            i <= rg_level,
            k == pow2(i as nat),
            pow2(rg_level as nat) <= usize::MAX,
        decreases rg_level - i,
    {
        proof {
            if i as nat + 1 < rg_level as nat {
                lemma_pow2_strictly_increases(i as nat + 1, rg_level as nat);
            }
            assert(pow2(i as nat + 1) == 2 * pow2(i as nat)) by {
                vstd::arithmetic::power2::lemma_pow2_unfold(i as nat + 1);
            }
        }
        k = k * 2;
        i = i + 1;
    }
    k
}

/// Expands a coarse-grained vector back to the full state length `n`:
/// every coarse value is repeated across its window of `2^rg_level`
/// components, then the result is truncated or right-padded with `fill`
/// to exactly `n` components.  Component `i` therefore reads coarse
/// component `i / 2^rg_level` where that exists, and `fill` past the end
/// of the coarse vector — in particular an empty coarse vector expands to
/// `n` copies of `fill`.
pub fn expand_rg_to_n<T: Copy>(b_rg: &Vec<T>, n: usize, rg_level: usize, fill: T) -> (r: Vec<T>)
    requires
        pow2(rg_level as nat) <= usize::MAX,
    ensures
        r@.len() == n,
        forall|i: int|
            0 <= i < n ==> r@[i] == (if i / (pow2(rg_level as nat) as int) < b_rg@.len() {
                b_rg@[i / (pow2(rg_level as nat) as int)]
            } else {
                fill
            }),
{
    let k = rg_window(rg_level);
    proof {
        vstd::arithmetic::power2::lemma_pow2_pos(rg_level as nat);
    }
    let mut r: Vec<T> = Vec::new();
    let mut i: usize = 0;
    while i < n
        invariant
            i <= n,
            k == pow2(rg_level as nat),
            k >= 1,
            r@.len() == i,
            forall|j: int|
                0 <= j < i ==> r@[j] == (if j / (k as int) < b_rg@.len() {
                    b_rg@[j / (k as int)]
                } else {
                    fill
                }),
        decreases n - i,
    {
        let q = i / k;
        if q < b_rg.len() {
            r.push(b_rg[q]);
        } else {
            r.push(fill);
        }
        i = i + 1;
    }
    r
}

} // verus!
