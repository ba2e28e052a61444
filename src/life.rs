//! The Game of Life rule on a flat, row-major grid of cells.
//!
//! A cell holds `1` when alive and `0` when dead; it is stored at index
//! `y * width + x`. Coordinates outside the grid are read as dead cells:
//! there is no wraparound at the edges.

use vstd::prelude::*;

verus! {

/// `1` when `b` holds, else `0`.
pub open spec fn indicator(b: bool) -> int {
    if b {
        1
    } else {
        0
    }
}

/// The index of cell `(x, y)` in a row-major grid `w` cells wide.
pub open spec fn cell_index(w: int, x: int, y: int) -> int {
    y * w + x
}

/// Whether the cell at `(x, y)` is inside a `w` by `h` grid and alive.
pub open spec fn cell_alive(g: Seq<u32>, w: int, h: int, x: int, y: int) -> bool {
    0 <= x < w && 0 <= y < h && g[cell_index(w, x, y)] == 1
}

/// The number of alive cells among the eight cells around `(x, y)`.
pub open spec fn live_neighbors(g: Seq<u32>, w: int, h: int, x: int, y: int) -> int {
    indicator(cell_alive(g, w, h, x - 1, y + 1)) + indicator(cell_alive(g, w, h, x, y + 1))
        + indicator(cell_alive(g, w, h, x + 1, y + 1)) + indicator(cell_alive(g, w, h, x + 1, y))
        + indicator(cell_alive(g, w, h, x + 1, y - 1)) + indicator(cell_alive(g, w, h, x, y - 1))
        + indicator(cell_alive(g, w, h, x - 1, y - 1)) + indicator(cell_alive(g, w, h, x - 1, y))
}

/// The transition rule: a cell is alive in the next generation when it has
/// exactly three alive neighbors, or when it is alive and has exactly two.
pub open spec fn next_cell(current: u32, count: int) -> u32 {
    if count == 3 || (current == 1 && count == 2) {
        1
    } else {
        0
    }
}

/// The generation that follows grid `g` of `w` by `h` cells.
pub open spec fn next_generation(g: Seq<u32>, w: int, h: int) -> Seq<u32> {
    Seq::new(
        (w * h) as nat,
        |i: int| next_cell(g[i], live_neighbors(g, w, h, i % w, i / w)),
    )
}

/// Every cell of `g` is `0` or `1`.
pub open spec fn is_binary(g: Seq<u32>) -> bool {
    forall|i: int| 0 <= i < g.len() ==> #[trigger] g[i] <= 1
}

/// A grid of `w` by `h` cells whose cells can be addressed with `usize`.
pub open spec fn grid_fits(w: u32, h: u32) -> bool {
    w as int * h as int <= usize::MAX
}

pub proof fn lemma_index_in_grid(w: int, h: int, x: int, y: int)
    requires
        0 <= x < w,
        0 <= y < h,
    ensures
        0 <= cell_index(w, x, y) < w * h,
{
    assert(0 <= y * w + x < w * h) by (nonlinear_arith)
        requires
            0 <= x < w,
            0 <= y < h,
    ;
}

/// Index `i` of a `w` by `h` grid is the cell at `(i % w, i / w)`.
pub proof fn lemma_coords_of_index(w: int, h: int, i: int)
    requires
        0 <= w,
        0 <= h,
        0 <= i < w * h,
    ensures
        0 <= i % w < w,
        0 <= i / w < h,
        cell_index(w, i % w, i / w) == i,
{
    assert(w > 0) by (nonlinear_arith)
        requires
            0 <= i < w * h,
            0 <= w,
            0 <= h,
    ;
    vstd::arithmetic::div_mod::lemma_fundamental_div_mod(i, w);
    assert(i / w < h) by (nonlinear_arith)
        requires
            w > 0,
            i < w * h,
            i == w * (i / w) + i % w,
            0 <= i % w,
    ;
    assert(cell_index(w, i % w, i / w) == i) by (nonlinear_arith)
        requires
            i == w * (i / w) + i % w,
    ;
    assert(i / w >= 0) by (nonlinear_arith)
        requires
            w > 0,
            i >= 0,
            i == w * (i / w) + i % w,
            i % w < w,
    ;
}

/// Reads cell `(x, y)` as `1` when it is inside the grid and alive, else `0`.
fn alive_at(grid: &Vec<u32>, width: u32, height: u32, x: i64, y: i64) -> (r: u32)
    requires
        grid.len() == width as int * height as int,
    ensures
        r == indicator(cell_alive(grid@, width as int, height as int, x as int, y as int)),
{
    if 0 <= x && x < width as i64 && 0 <= y && y < height as i64 {
        proof {
            lemma_index_in_grid(width as int, height as int, x as int, y as int);
        }
        let index = y as usize * width as usize + x as usize;
        if grid[index] == 1 {
            1
        } else {
            0
        }
    } else {
        0
    }
}

/// Counts the alive cells among the eight neighbors of `(x, y)`.
pub fn count_live_neighbors(grid: &Vec<u32>, width: u32, height: u32, x: u32, y: u32) -> (r: u32)
    requires
        grid.len() == width as int * height as int,
    ensures
        r == live_neighbors(grid@, width as int, height as int, x as int, y as int),
        r <= 8,
{
    let x = x as i64;
    let y = y as i64;
    alive_at(grid, width, height, x - 1, y + 1) + alive_at(grid, width, height, x, y + 1)
        + alive_at(grid, width, height, x + 1, y + 1) + alive_at(grid, width, height, x + 1, y)
        + alive_at(grid, width, height, x + 1, y - 1) + alive_at(grid, width, height, x, y - 1)
        + alive_at(grid, width, height, x - 1, y - 1) + alive_at(grid, width, height, x - 1, y)
}

/// The state of a cell in the next generation, given its current state and
/// the number of its alive neighbors.
pub fn next_state(current: u32, alive_count: u32) -> (r: u32)
    ensures
        r == next_cell(current, alive_count as int),
        r <= 1,
{
    if alive_count == 3 || (current == 1 && alive_count == 2) {
        1
    } else {
        0
    }
}

/// Writes into `write` the generation that follows `read`.
///
/// Every new cell is computed from `read` alone, so no cell sees a neighbor's
/// new state.
pub fn simulate_into(read: &Vec<u32>, write: &mut Vec<u32>, width: u32, height: u32)
    requires
        grid_fits(width, height),
        read.len() == width as int * height as int,
        old(write).len() == read.len(),
    ensures
        final(write)@ == next_generation(read@, width as int, height as int),
        is_binary(final(write)@),
{
    let n = width as usize * height as usize;
    let mut i: usize = 0;
    while i < n
        invariant
            n == width as int * height as int,
            read.len() == n,
            write.len() == n,
            i <= n,
            forall|k: int|
                0 <= k < i ==> write@[k] == #[trigger] next_generation(
                    read@,
                    width as int,
                    height as int,
                )[k],
        decreases n - i,
    {
        proof {
            lemma_coords_of_index(width as int, height as int, i as int);
        }
        let x = (i % width as usize) as u32;
        let y = (i / width as usize) as u32;
        let count = count_live_neighbors(read, width, height, x, y);
        let v = next_state(read[i], count);
        write.set(i, v);
        i = i + 1;
    }
    assert(write@ =~= next_generation(read@, width as int, height as int));
}

/// The rule, case by case: a dead cell with exactly three alive neighbors
/// becomes alive; an alive cell with two or three stays alive; a cell with
/// fewer than two or more than three is dead afterwards, whatever its state.
pub proof fn lemma_rule_cases(current: u32, count: int)
    requires
        current <= 1,
        0 <= count <= 8,
    ensures
        current == 0 && count == 3 ==> next_cell(current, count) == 1,
        current == 0 && count != 3 ==> next_cell(current, count) == 0,
        current == 1 && (count == 2 || count == 3) ==> next_cell(current, count) == 1,
        count < 2 || count > 3 ==> next_cell(current, count) == 0,
{
}

/// The next state of a cell depends only on the previous state of the cell
/// and of its eight neighbors: two grids that agree there agree on the
/// cell's next state, whatever they hold elsewhere.
pub proof fn lemma_next_cell_is_local(g1: Seq<u32>, g2: Seq<u32>, w: int, h: int, i: int)
    requires
        0 <= w,
        0 <= h,
        g1.len() == w * h,
        g2.len() == w * h,
        0 <= i < w * h,
        forall|a: int, b: int|
            i % w - 1 <= a <= i % w + 1 && i / w - 1 <= b <= i / w + 1 ==> #[trigger] cell_alive(
                g1,
                w,
                h,
                a,
                b,
            ) == cell_alive(g2, w, h, a, b),
    ensures
        next_generation(g1, w, h)[i] == next_generation(g2, w, h)[i],
{
    lemma_coords_of_index(w, h, i);
    assert(cell_alive(g1, w, h, i % w, i / w) == cell_alive(g2, w, h, i % w, i / w));
    assert(live_neighbors(g1, w, h, i % w, i / w) == live_neighbors(g2, w, h, i % w, i / w));
}

} // verus!
