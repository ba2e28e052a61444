//! Random grids.

use crate::life::{grid_fits, is_binary};
use rand::Rng;
use vstd::prelude::*;

verus! {

/// Relies on `rand::thread_rng` and `Rng::gen_range` over `0..=1`: the range
/// is not empty, so the call returns a value in it, `0` or `1` with equal
/// probability.
#[verifier::external_body]
fn random_cell() -> (r: u32)
    ensures
        r <= 1,
{
    rand::thread_rng().gen_range(0u32..=1)
}

/// A grid of `width` by `height` cells, each alive or dead with probability
/// one half, independently.
pub fn rand_grid(width: u32, height: u32) -> (r: Vec<u32>)
    requires
        grid_fits(width, height),
    ensures
        r.len() == width as int * height as int,
        is_binary(r@),
{
    let n = width as usize * height as usize;
    let mut cells: Vec<u32> = Vec::with_capacity(n);
    let mut i: usize = 0;
    while i < n
        invariant
            n == width as int * height as int,
            i <= n,
            cells.len() == i,
            is_binary(cells@),
        decreases n - i,
    {
        let c = random_cell();
        cells.push(c);
        i = i + 1;
    }
    cells
}

} // verus!
