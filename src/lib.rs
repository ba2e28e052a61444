//! Conway's Game of Life as a double-buffered cellular automaton: the
//! transition rule, the ping-pong dispatch protocol that drives it, the
//! colorization of a generation into a texture, brush edits, and the quad
//! that the texture is composited onto.

pub mod life;
pub mod schedule;
pub mod texture;
pub mod random;
pub mod brush;
pub mod engine;
pub mod quad;
