//! The ping-pong protocol that sequences the two dispatches of a step.
//!
//! The kernel binds two grid buffers, `A` (binding 1) and `B` (binding 2).
//! A dispatch's `swap_read_order` flag picks the buffer it reads: `B` when
//! set, `A` otherwise; a simulation dispatch writes the other one. Each step
//! simulates from the authoritative buffer into the other one, then colorizes
//! from the buffer just written, which becomes authoritative.

use vstd::prelude::*;

verus! {

/// One of the two grid buffers.
#[derive(Clone, Copy, Debug, PartialEq, Eq, Structural)]
pub enum Slot {
    A,
    B,
}

/// The code path of the kernel that a dispatch runs.
#[derive(Clone, Copy, Debug, PartialEq, Eq, Structural)]
pub enum Phase {
    /// Apply the transition rule to every cell.
    Simulate,
    /// Write each cell's color into the texture.
    Colorize,
}

/// The value of the kernel's phase selector for `p`.
pub open spec fn phase_selector(p: Phase) -> i32 {
    match p {
        Phase::Simulate => 0,
        Phase::Colorize => 1,
    }
}

impl Phase {
    /// The integer the kernel reads to pick its code path.
    pub fn selector(&self) -> (r: i32)
        ensures
            r == phase_selector(*self),
    {
        match self {
            Phase::Simulate => 0,
            Phase::Colorize => 1,
        }
    }
}

/// The buffer that a dispatch with flag `swap` reads.
pub open spec fn read_slot(swap: bool) -> Slot {
    if swap {
        Slot::B
    } else {
        Slot::A
    }
}

/// The buffer that a simulation dispatch with flag `swap` writes.
pub open spec fn written_slot(swap: bool) -> Slot {
    if swap {
        Slot::A
    } else {
        Slot::B
    }
}

/// The buffer that holds the latest generation after `steps` steps: `B` at
/// construction and after an even count, `A` after an odd count.
pub open spec fn authoritative_after(steps: nat) -> Slot {
    if steps % 2 == 1 {
        Slot::A
    } else {
        Slot::B
    }
}

/// The parameter block handed to one dispatch of the kernel.
#[derive(Debug)]
pub struct DispatchParams<C> {
    pub life_color: C,
    pub dead_color: C,
    pub phase: Phase,
    pub swap_read_order: bool,
}

/// The step counter whose parity decides which buffer each dispatch reads
/// and writes.
pub struct PingPong {
    sim_steps: u64,
}

impl PingPong {
    /// The number of completed steps.
    pub closed spec fn count(&self) -> nat {
        self.sim_steps as nat
    }

    /// A counter with no step done.
    pub fn new() -> (r: PingPong)
        ensures
            r.count() == 0,
    {
        PingPong { sim_steps: 0 }
    }

    /// The number of completed steps.
    pub fn steps(&self) -> (r: u64)
        ensures
            r == self.count(),
    {
        self.sim_steps
    }

    /// The buffer that holds the latest generation.
    pub fn authoritative(&self) -> (r: Slot)
        ensures
            r == authoritative_after(self.count()),
    {
        if self.sim_steps % 2 == 1 {
            Slot::A
        } else {
            Slot::B
        }
    }

    /// The two dispatches of the next step, in order: a simulation that reads
    /// the authoritative buffer and writes the other, then a colorization
    /// that reads the buffer the simulation wrote.
    pub fn plan<C: Copy>(&self, life_color: C, dead_color: C) -> (r: (
        DispatchParams<C>,
        DispatchParams<C>,
    ))
        ensures
            r.0.phase == Phase::Simulate,
            r.1.phase == Phase::Colorize,
            r.0.life_color == life_color && r.1.life_color == life_color,
            r.0.dead_color == dead_color && r.1.dead_color == dead_color,
            r.0.swap_read_order == (self.count() % 2 == 0),
            read_slot(r.0.swap_read_order) == authoritative_after(self.count()),
            written_slot(r.0.swap_read_order) == authoritative_after(self.count() + 1),
            read_slot(r.1.swap_read_order) == written_slot(r.0.swap_read_order),
    {
        let swap = self.sim_steps % 2 == 0;
        let simulate = DispatchParams {
            life_color,
            dead_color,
            phase: Phase::Simulate,
            swap_read_order: swap,
        };
        let colorize = DispatchParams {
            life_color,
            dead_color,
            phase: Phase::Colorize,
            swap_read_order: !swap,
        };
        (simulate, colorize)
    }

    /// Records that one more step has completed.
    pub fn advance(&mut self)
        requires
            old(self).count() < u64::MAX,
        ensures
            final(self).count() == old(self).count() + 1,
    {
        self.sim_steps = self.sim_steps + 1;
    }
}

/// The number of 8 by 8 work groups along each axis that cover a grid.
pub fn workgroups(width: u32, height: u32) -> (r: (u32, u32))
    requires
        width % 8 == 0,
        height % 8 == 0,
    ensures
        r.0 as int * 8 == width,
        r.1 as int * 8 == height,
{
    (width / 8, height / 8)
}

/// The grid size for a window of `window_width` by `window_height` pixels
/// drawn at `scale` pixels per cell: each side is the number of whole cells
/// that fit, rounded down to a multiple of the 8 by 8 work group.
pub fn grid_size_for_window(window_width: u32, window_height: u32, scale: u32) -> (r: (u32, u32))
    requires
        scale > 0,
    ensures
        r.0 == window_width / scale - (window_width / scale) % 8,
        r.1 == window_height / scale - (window_height / scale) % 8,
        r.0 % 8 == 0,
        r.1 % 8 == 0,
        r.0 as int * scale <= window_width,
        r.1 as int * scale <= window_height,
{
    let cols = window_width / scale;
    let rows = window_height / scale;
    proof {
        assert(cols as int * scale <= window_width) by (nonlinear_arith)
            requires
                scale > 0,
                cols == window_width / scale,
        ;
        assert(rows as int * scale <= window_height) by (nonlinear_arith)
            requires
                scale > 0,
                rows == window_height / scale,
        ;
        assert((cols - cols % 8) * scale <= cols * scale) by (nonlinear_arith)
            requires
                scale > 0,
                cols % 8 >= 0,
        ;
        assert((rows - rows % 8) * scale <= rows * scale) by (nonlinear_arith)
            requires
                scale > 0,
                rows % 8 >= 0,
        ;
    }
    (cols - cols % 8, rows - rows % 8)
}

/// The buffer that holds the latest generation flips with every step and
/// comes back after two.
pub proof fn lemma_authoritative_alternates(steps: nat)
    ensures
        authoritative_after(steps + 1) != authoritative_after(steps),
        authoritative_after(steps + 2) == authoritative_after(steps),
        authoritative_after(0) == Slot::B,
{
}

} // verus!
