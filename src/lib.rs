//! A fixed-timestep game loop.
//!
//! The loop owns a game state that can be updated and rendered. Every call of
//! `GameLoop::tick` adds the time that passed since the previous tick to an
//! accumulator, drains that accumulator in fixed update intervals, and renders
//! exactly once with the normalised residue of the accumulator.
use vstd::prelude::*;

pub mod driver;
pub mod laws;
pub mod time;

verus! {

} // verus!
