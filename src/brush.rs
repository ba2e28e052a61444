//! Brush edits: seeding alive cells in a disk around a position.

use crate::life::{cell_index, grid_fits, is_binary, lemma_coords_of_index};
use crate::random::rand_grid;
use vstd::prelude::*;

verus! {

/// A cell position on the grid; it may lie outside the grid.
#[derive(Clone, Copy, Debug, PartialEq, Eq, Structural)]
pub struct CellPos {
    pub x: i32,
    pub y: i32,
}

/// Whether `(x, y)` lies on a `w` by `h` grid.
pub open spec fn in_grid(w: int, h: int, x: int, y: int) -> bool {
    0 <= x < w && 0 <= y < h
}

/// Whether the Euclidean distance from `(x, y)` to `(cx, cy)`, rounded to the
/// nearest integer (halves away from zero), is at most `radius`.
///
/// For a distance `d >= 0` and an integer `radius >= 0`, `round(d) <= radius`
/// holds exactly when `d < radius + 1/2`, that is when
/// `4 * d * d < (2 * radius + 1) * (2 * radius + 1)`.
pub open spec fn within_radius(cx: int, cy: int, radius: int, x: int, y: int) -> bool {
    &&& radius >= 0
    &&& 4 * ((x - cx) * (x - cx) + (y - cy) * (y - cy)) < (2 * radius + 1) * (2 * radius + 1)
}

/// Whether a brush at `pos` with `radius` reaches cell `(x, y)` of a `w` by
/// `h` grid: the brush does nothing when `pos` is off the grid, and reaches
/// only cells on the grid.
pub open spec fn in_brush(w: int, h: int, pos: CellPos, radius: int, x: int, y: int) -> bool {
    &&& in_grid(w, h, pos.x as int, pos.y as int)
    &&& in_grid(w, h, x, y)
    &&& within_radius(pos.x as int, pos.y as int, radius, x, y)
}

/// The grid that a brush at `pos` leaves: a cell that the brush reaches and
/// whose seed is `1` becomes alive; every other cell keeps its state.
pub open spec fn painted(
    g: Seq<u32>,
    w: int,
    h: int,
    pos: CellPos,
    radius: int,
    seeds: Seq<u32>,
) -> Seq<u32> {
    Seq::new(
        g.len(),
        |i: int|
            if seeds[i] == 1 && in_brush(w, h, pos, radius, i % w, i / w) {
                1
            } else {
                g[i]
            },
    )
}

/// Whether the brush reaches `(x, y)`, which lies on the grid.
fn brush_reaches(width: u32, height: u32, pos: CellPos, radius: i32, x: u32, y: u32) -> (r: bool)
    requires
        in_grid(width as int, height as int, x as int, y as int),
    ensures
        r == in_brush(width as int, height as int, pos, radius as int, x as int, y as int),
{
    if pos.x < 0 || pos.y < 0 || pos.x as i64 >= width as i64 || pos.y as i64 >= height as i64
        || radius < 0 {
        return false;
    }
    let dx = x as i128 - pos.x as i128;
    let dy = y as i128 - pos.y as i128;
    let d = 2 * radius as i128 + 1;
    assert(dx * dx <= 0x1_0000_0000 * 0x1_0000_0000 && dy * dy <= 0x1_0000_0000 * 0x1_0000_0000)
        by (nonlinear_arith)
        requires
            -0x1_0000_0000 <= dx <= 0x1_0000_0000,
            -0x1_0000_0000 <= dy <= 0x1_0000_0000,
    ;
    assert(0 <= d * d <= 0x1_0000_0000 * 0x1_0000_0000) by (nonlinear_arith)
        requires
            1 <= d <= 0x1_0000_0000,
    ;
    assert(0 <= dx * dx && 0 <= dy * dy) by (nonlinear_arith);
    4 * (dx * dx + dy * dy) < d * d
}

/// Seeds alive cells with a brush at `pos`: each cell that the brush reaches
/// becomes alive where `seeds` holds `1` at its index; all other cells are
/// left as they are.
pub fn paint(
    grid: &mut Vec<u32>,
    width: u32,
    height: u32,
    pos: CellPos,
    radius: i32,
    seeds: &Vec<u32>,
)
    requires
        grid_fits(width, height),
        old(grid).len() == width as int * height as int,
        seeds.len() == old(grid).len(),
    ensures
        final(grid)@ == painted(
            old(grid)@,
            width as int,
            height as int,
            pos,
            radius as int,
            seeds@,
        ),
{
    let ghost before = grid@;
    let ghost target = painted(before, width as int, height as int, pos, radius as int, seeds@);
    let n = width as usize * height as usize;
    let mut i: usize = 0;
    while i < n
        invariant
            n == width as int * height as int,
            grid.len() == n,
            seeds.len() == n,
            before.len() == n,
            target == painted(before, width as int, height as int, pos, radius as int, seeds@),
            i <= n,
            forall|k: int| 0 <= k < i ==> grid@[k] == #[trigger] target[k],
            forall|k: int| i <= k < n ==> grid@[k] == #[trigger] before[k],
        decreases n - i,
    {
        proof {
            lemma_coords_of_index(width as int, height as int, i as int);
        }
        let x = (i % width as usize) as u32;
        let y = (i / width as usize) as u32;
        if seeds[i] == 1 && brush_reaches(width, height, pos, radius, x, y) {
            grid.set(i, 1);
        }
        i = i + 1;
    }
    assert(grid@ =~= target);
}

/// Seeds alive cells with a brush at `pos`: each cell that the brush reaches
/// becomes alive with probability one half, independently; all other cells
/// are left as they are.
pub fn draw_life_on(grid: &mut Vec<u32>, width: u32, height: u32, pos: CellPos, radius: i32)
    requires
        grid_fits(width, height),
        old(grid).len() == width as int * height as int,
    ensures
        final(grid).len() == old(grid).len(),
        forall|i: int|
            0 <= i < old(grid).len() ==> #[trigger] final(grid)@[i] == old(grid)@[i] || (
            final(grid)@[i] == 1 && in_brush(
                width as int,
                height as int,
                pos,
                radius as int,
                i % width as int,
                i / width as int,
            )),
        is_binary(old(grid)@) ==> is_binary(final(grid)@),
{
    let seeds = rand_grid(width, height);
    paint(grid, width, height, pos, radius, &seeds);
}

/// A brush at a position off the grid, such as one at column `width` or row
/// `height`, leaves the grid as it is.
pub proof fn lemma_brush_off_grid_is_noop(
    g: Seq<u32>,
    w: int,
    h: int,
    pos: CellPos,
    radius: int,
    seeds: Seq<u32>,
)
    requires
        !in_grid(w, h, pos.x as int, pos.y as int),
    ensures
        painted(g, w, h, pos, radius, seeds) == g,
{
    assert(painted(g, w, h, pos, radius, seeds) =~= g);
}

/// A brush changes only cells on the grid within its radius, and with
/// radius `0` only the cell under it.
pub proof fn lemma_brush_reach(
    g: Seq<u32>,
    w: int,
    h: int,
    pos: CellPos,
    radius: int,
    seeds: Seq<u32>,
    i: int,
)
    requires
        0 <= w,
        0 <= h,
        g.len() == w * h,
        0 <= i < g.len(),
        painted(g, w, h, pos, radius, seeds)[i] != g[i],
    ensures
        in_grid(w, h, i % w, i / w),
        within_radius(pos.x as int, pos.y as int, radius, i % w, i / w),
        radius == 0 ==> i == cell_index(w, pos.x as int, pos.y as int),
{
    lemma_coords_of_index(w, h, i);
    if radius == 0 {
        let dx = i % w - pos.x;
        let dy = i / w - pos.y;
        assert(dx == 0 && dy == 0) by (nonlinear_arith)
            requires
                4 * (dx * dx + dy * dy) < 1,
        ;
    }
}

} // verus!
