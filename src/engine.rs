//! The automaton engine: the two grid buffers, the color texture and the
//! step counter, driven through the ping-pong protocol.
//!
//! Each dispatch runs the kernel's effect on the host: the simulation phase
//! writes the next generation of the buffer it reads into the other buffer,
//! and the colorization phase writes the texture from the buffer it reads.

use crate::brush::{in_brush, paint, painted, CellPos};
use crate::life::{grid_fits, is_binary, next_generation, simulate_into};
use crate::random::rand_grid;
use crate::schedule::{
    authoritative_after, read_slot, written_slot, DispatchParams, Phase, PingPong, Slot,
};
use crate::texture::{colorize, colorized, Rgba8};
use vstd::prelude::*;

verus! {

/// Double-buffered grid and color texture. The simulation of a step reads
/// one buffer and writes the other, so that no cell sees a neighbor's new
/// state; the texture shows the latest generation.
pub struct GameOfLife {
    width: u32,
    height: u32,
    life_in: Vec<u32>,
    life_out: Vec<u32>,
    image: Vec<Rgba8>,
    schedule: PingPong,
}

/// A grid of `n` dead cells.
fn dead_grid(n: usize) -> (r: Vec<u32>)
    ensures
        r@ == Seq::new(n as nat, |i: int| 0u32),
{
    let mut cells: Vec<u32> = Vec::with_capacity(n);
    let mut i: usize = 0;
    while i < n
        invariant
            i <= n,
            cells@ == Seq::new(i as nat, |k: int| 0u32),
        decreases n - i,
    {
        cells.push(0);
        i = i + 1;
        assert(cells@ =~= Seq::new(i as nat, |k: int| 0u32));
    }
    cells
}

/// A texture of `n` texels, all channels zero.
fn blank_texture(n: usize) -> (r: Vec<Rgba8>)
    ensures
        r.len() == n,
{
    let mut texels: Vec<Rgba8> = Vec::with_capacity(n);
    let mut i: usize = 0;
    while i < n
        invariant
            i <= n,
            texels.len() == i,
        decreases n - i,
    {
        texels.push(Rgba8 { r: 0, g: 0, b: 0, a: 0 });
        i = i + 1;
    }
    texels
}

impl GameOfLife {
    /// Cells per row.
    pub closed spec fn grid_width(&self) -> int {
        self.width as int
    }

    /// Rows.
    pub closed spec fn grid_height(&self) -> int {
        self.height as int
    }

    /// The contents of buffer `s`.
    pub closed spec fn buffer_of(&self, s: Slot) -> Seq<u32> {
        match s {
            Slot::A => self.life_in@,
            Slot::B => self.life_out@,
        }
    }

    /// The number of completed steps.
    pub closed spec fn step_count(&self) -> nat {
        self.schedule.count()
    }

    /// The color texture.
    pub closed spec fn texture(&self) -> Seq<Rgba8> {
        self.image@
    }

    /// The buffer that holds the latest generation.
    pub open spec fn current_slot(&self) -> Slot {
        authoritative_after(self.step_count())
    }

    /// The latest generation.
    pub open spec fn cells(&self) -> Seq<u32> {
        self.buffer_of(self.current_slot())
    }

    /// The sizes are multiples of the 8 by 8 work group, both buffers and the
    /// texture hold one entry per cell, and every cell is dead or alive.
    pub closed spec fn wf(&self) -> bool {
        &&& self.width % 8 == 0
        &&& self.height % 8 == 0
        &&& grid_fits(self.width, self.height)
        &&& self.life_in.len() == self.width as int * self.height as int
        &&& self.life_out.len() == self.width as int * self.height as int
        &&& self.image.len() == self.width as int * self.height as int
        &&& is_binary(self.life_in@)
        &&& is_binary(self.life_out@)
    }

    /// What a well-formed engine holds: sides that are multiples of 8, two
    /// buffers and a texture of one entry per cell, and cells that are `0`
    /// or `1`.
    pub proof fn lemma_wf(&self)
        requires
            self.wf(),
        ensures
            self.grid_width() % 8 == 0,
            self.grid_height() % 8 == 0,
            0 <= self.grid_width(),
            0 <= self.grid_height(),
            self.grid_width() * self.grid_height() <= usize::MAX,
            self.buffer_of(Slot::A).len() == self.grid_width() * self.grid_height(),
            self.buffer_of(Slot::B).len() == self.grid_width() * self.grid_height(),
            self.texture().len() == self.grid_width() * self.grid_height(),
            is_binary(self.buffer_of(Slot::A)),
            is_binary(self.buffer_of(Slot::B)),
    {
    }

    /// An engine of `width` by `height` cells, each buffer filled with cells
    /// alive or dead with probability one half, and no step done.
    pub fn new(width: u32, height: u32) -> (r: GameOfLife)
        requires
            width % 8 == 0,
            height % 8 == 0,
            grid_fits(width, height),
        ensures
            r.wf(),
            r.grid_width() == width,
            r.grid_height() == height,
            r.step_count() == 0,
            r.buffer_of(Slot::A).len() == width as int * height as int,
            r.buffer_of(Slot::B).len() == width as int * height as int,
            r.texture().len() == width as int * height as int,
            is_binary(r.buffer_of(Slot::A)),
            is_binary(r.buffer_of(Slot::B)),
    {
        let life_in = rand_grid(width, height);
        let life_out = rand_grid(width, height);
        GameOfLife::from_grids(width, height, life_in, life_out)
    }

    /// An engine whose buffer `A` holds `life_in` and buffer `B` holds
    /// `life_out`, with a texture of one texel per cell and no step done.
    pub fn from_grids(width: u32, height: u32, life_in: Vec<u32>, life_out: Vec<u32>) -> (r:
        GameOfLife)
        requires
            width % 8 == 0,
            height % 8 == 0,
            grid_fits(width, height),
            life_in.len() == width as int * height as int,
            life_out.len() == width as int * height as int,
            is_binary(life_in@),
            is_binary(life_out@),
        ensures
            r.wf(),
            r.grid_width() == width,
            r.grid_height() == height,
            r.step_count() == 0,
            r.buffer_of(Slot::A) == life_in@,
            r.buffer_of(Slot::B) == life_out@,
            r.texture().len() == width as int * height as int,
    {
        let n = width as usize * height as usize;
        let image = blank_texture(n);
        GameOfLife { width, height, life_in, life_out, image, schedule: PingPong::new() }
    }

    /// An engine whose latest generation is `cells`, the other buffer dead,
    /// and no step done.
    pub fn with_cells(width: u32, height: u32, cells: Vec<u32>) -> (r: GameOfLife)
        requires
            width % 8 == 0,
            height % 8 == 0,
            grid_fits(width, height),
            cells.len() == width as int * height as int,
            is_binary(cells@),
        ensures
            r.wf(),
            r.grid_width() == width,
            r.grid_height() == height,
            r.step_count() == 0,
            r.cells() == cells@,
            r.buffer_of(Slot::A) == Seq::new((width as int * height as int) as nat, |i: int| 0u32),
            r.texture().len() == width as int * height as int,
    {
        let n = width as usize * height as usize;
        let life_in = dead_grid(n);
        GameOfLife::from_grids(width, height, life_in, cells)
    }

    pub fn width(&self) -> (r: u32)
        ensures
            r == self.grid_width(),
    {
        self.width
    }

    pub fn height(&self) -> (r: u32)
        ensures
            r == self.grid_height(),
    {
        self.height
    }

    /// The number of completed steps.
    pub fn steps(&self) -> (r: u64)
        ensures
            r == self.step_count(),
    {
        self.schedule.steps()
    }

    /// The buffer that holds the latest generation.
    pub fn authoritative_slot(&self) -> (r: Slot)
        ensures
            r == self.current_slot(),
    {
        self.schedule.authoritative()
    }

    /// The contents of buffer `slot`.
    pub fn buffer(&self, slot: Slot) -> (r: &Vec<u32>)
        ensures
            r@ == self.buffer_of(slot),
    {
        match slot {
            Slot::A => &self.life_in,
            Slot::B => &self.life_out,
        }
    }

    /// The latest generation.
    pub fn current_cells(&self) -> (r: &Vec<u32>)
        ensures
            r@ == self.cells(),
    {
        let slot = self.authoritative_slot();
        self.buffer(slot)
    }

    /// The color texture, one texel per cell.
    pub fn color_image(&self) -> (r: &Vec<Rgba8>)
        ensures
            r@ == self.texture(),
            self.wf() ==> r@.len() == self.grid_width() * self.grid_height(),
    {
        &self.image
    }

    /// Seeds alive cells with a brush at `pos` into the latest generation,
    /// which the next step reads: a cell that the brush reaches becomes alive
    /// where `seeds` holds `1` at its index. The other buffer, the texture
    /// and the step count are unchanged.
    pub fn draw_life_with(&mut self, pos: CellPos, radius: i32, seeds: &Vec<u32>)
        requires
            old(self).wf(),
            seeds.len() == old(self).grid_width() * old(self).grid_height(),
            is_binary(seeds@),
        ensures
            final(self).wf(),
            final(self).grid_width() == old(self).grid_width(),
            final(self).grid_height() == old(self).grid_height(),
            final(self).step_count() == old(self).step_count(),
            final(self).texture() == old(self).texture(),
            final(self).cells() == painted(
                old(self).cells(),
                old(self).grid_width(),
                old(self).grid_height(),
                pos,
                radius as int,
                seeds@,
            ),
            final(self).buffer_of(written_slot(final(self).current_slot() == Slot::B))
                == old(self).buffer_of(written_slot(old(self).current_slot() == Slot::B)),
    {
        let slot = self.schedule.authoritative();
        let ghost before = self.cells();
        let ghost target = painted(
            before,
            self.width as int,
            self.height as int,
            pos,
            radius as int,
            seeds@,
        );
        match slot {
            Slot::A => paint(&mut self.life_in, self.width, self.height, pos, radius, seeds),
            Slot::B => paint(&mut self.life_out, self.width, self.height, pos, radius, seeds),
        }
        proof {
            assert forall|i: int| 0 <= i < target.len() implies #[trigger] target[i] <= 1 by {
                assert(before[i] <= 1);
            }
        }
    }

    /// Seeds alive cells with a brush at `pos` into the latest generation,
    /// which the next step reads: each cell that the brush reaches becomes
    /// alive with probability one half, independently. A position off the
    /// grid changes nothing. The other buffer, the texture and the step count
    /// are unchanged.
    pub fn draw_life(&mut self, pos: CellPos, radius: i32)
        requires
            old(self).wf(),
        ensures
            final(self).wf(),
            final(self).grid_width() == old(self).grid_width(),
            final(self).grid_height() == old(self).grid_height(),
            final(self).step_count() == old(self).step_count(),
            final(self).texture() == old(self).texture(),
            final(self).cells().len() == old(self).cells().len(),
            forall|i: int|
                0 <= i < old(self).cells().len() ==> #[trigger] final(self).cells()[i]
                    == old(self).cells()[i] || (final(self).cells()[i] == 1 && in_brush(
                    old(self).grid_width(),
                    old(self).grid_height(),
                    pos,
                    radius as int,
                    i % old(self).grid_width(),
                    i / old(self).grid_width(),
                )),
            final(self).buffer_of(written_slot(final(self).current_slot() == Slot::B))
                == old(self).buffer_of(written_slot(old(self).current_slot() == Slot::B)),
    {
        let seeds = rand_grid(self.width, self.height);
        self.draw_life_with(pos, radius, &seeds);
    }

    /// Runs one dispatch of the kernel. A simulation writes the generation
    /// that follows the buffer it reads into the other buffer; a colorization
    /// writes the texture from the buffer it reads.
    pub fn dispatch(&mut self, params: &DispatchParams<Rgba8>)
        requires
            old(self).wf(),
        ensures
            final(self).wf(),
            final(self).grid_width() == old(self).grid_width(),
            final(self).grid_height() == old(self).grid_height(),
            final(self).step_count() == old(self).step_count(),
            params.phase == Phase::Simulate ==> {
                &&& final(self).buffer_of(written_slot(params.swap_read_order)) == next_generation(
                    old(self).buffer_of(read_slot(params.swap_read_order)),
                    old(self).grid_width(),
                    old(self).grid_height(),
                )
                &&& final(self).buffer_of(read_slot(params.swap_read_order)) == old(
                    self,
                ).buffer_of(read_slot(params.swap_read_order))
                &&& final(self).texture() == old(self).texture()
            },
            params.phase == Phase::Colorize ==> {
                &&& final(self).texture() == colorized(
                    old(self).texture(),
                    old(self).buffer_of(read_slot(params.swap_read_order)),
                    params.life_color,
                    params.dead_color,
                )
                &&& final(self).buffer_of(Slot::A) == old(self).buffer_of(Slot::A)
                &&& final(self).buffer_of(Slot::B) == old(self).buffer_of(Slot::B)
            },
    {
        match params.phase {
            Phase::Simulate => {
                if params.swap_read_order {
                    simulate_into(&self.life_out, &mut self.life_in, self.width, self.height);
                } else {
                    simulate_into(&self.life_in, &mut self.life_out, self.width, self.height);
                }
            },
            Phase::Colorize => {
                if params.swap_read_order {
                    colorize(&self.life_out, params.life_color, params.dead_color, &mut self.image);
                } else {
                    colorize(&self.life_in, params.life_color, params.dead_color, &mut self.image);
                }
            },
        }
    }

    /// Advances the automaton by one generation: simulates from the latest
    /// generation into the other buffer, colorizes the texture from the new
    /// generation, and counts the step. The buffer that holds the latest
    /// generation flips.
    pub fn compute(&mut self, life_color: Rgba8, dead_color: Rgba8)
        requires
            old(self).wf(),
            old(self).step_count() < u64::MAX,
        ensures
            final(self).wf(),
            final(self).grid_width() == old(self).grid_width(),
            final(self).grid_height() == old(self).grid_height(),
            final(self).step_count() == old(self).step_count() + 1,
            final(self).current_slot() != old(self).current_slot(),
            final(self).buffer_of(old(self).current_slot()) == old(self).cells(),
            final(self).texture().len() == old(self).texture().len(),
            final(self).cells() == next_generation(
                old(self).cells(),
                old(self).grid_width(),
                old(self).grid_height(),
            ),
            final(self).texture() == colorized(
                old(self).texture(),
                final(self).cells(),
                life_color,
                dead_color,
            ),
    {
        let (simulate, color) = self.schedule.plan(life_color, dead_color);
        self.dispatch(&simulate);
        self.dispatch(&color);
        self.schedule.advance();
    }
}

} // verus!
