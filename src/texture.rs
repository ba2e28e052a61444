//! The color texture: one 8-bit RGBA texel per grid cell.

use vstd::prelude::*;

verus! {

/// A texel of the color texture, one byte per channel.
#[derive(Clone, Copy, Debug, PartialEq, Eq, Structural)]
pub struct Rgba8 {
    pub r: u8,
    pub g: u8,
    pub b: u8,
    pub a: u8,
}

/// The texture that colorizing grid `g` over texture `prior` leaves: the
/// texel of an alive cell is `life`, that of any other cell `dead`. The
/// prior texels are all overwritten.
pub open spec fn colorized(prior: Seq<Rgba8>, g: Seq<u32>, life: Rgba8, dead: Rgba8) -> Seq<
    Rgba8,
> {
    Seq::new(
        prior.len(),
        |i: int|
            if g[i] == 1 {
                life
            } else {
                dead
            },
    )
}

/// Writes the color of every cell of `grid` into `image`.
pub fn colorize(grid: &Vec<u32>, life_color: Rgba8, dead_color: Rgba8, image: &mut Vec<Rgba8>)
    requires
        old(image).len() == grid.len(),
    ensures
        final(image)@ == colorized(old(image)@, grid@, life_color, dead_color),
{
    let n = image.len();
    let mut i: usize = 0;
    while i < n
        invariant
            n == grid.len(),
            image.len() == n,
            i <= n,
            forall|k: int|
                0 <= k < i ==> image@[k] == if grid@[k] == 1 {
                    life_color
                } else {
                    dead_color
                },
        decreases n - i,
    {
        if grid[i] == 1 {
            image.set(i, life_color);
        } else {
            image.set(i, dead_color);
        }
        i = i + 1;
    }
    proof {
        let target = colorized(old(image)@, grid@, life_color, dead_color);
        assert(image@ =~= target);
    }
}

/// Colorizing depends on the grid and the colors alone: two colorizations
/// of one grid with the same colors give the same texture, whatever the
/// texture held before, and colorizing again changes nothing.
pub proof fn lemma_colorize_idempotent(
    prior1: Seq<Rgba8>,
    prior2: Seq<Rgba8>,
    g: Seq<u32>,
    life: Rgba8,
    dead: Rgba8,
)
    requires
        prior1.len() == g.len(),
        prior2.len() == g.len(),
    ensures
        colorized(prior1, g, life, dead) == colorized(prior2, g, life, dead),
        colorized(colorized(prior1, g, life, dead), g, life, dead) == colorized(
            prior1,
            g,
            life,
            dead,
        ),
{
    assert(colorized(prior1, g, life, dead) =~= colorized(prior2, g, life, dead));
    assert(colorized(colorized(prior1, g, life, dead), g, life, dead) =~= colorized(
        prior1,
        g,
        life,
        dead,
    ));
}

} // verus!
