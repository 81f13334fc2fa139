//! Simulation-side data: live parameters, the mouse force, and the per-tick
//! neighbour index.

pub mod param;
pub mod settings;
pub mod spatial_hash;

use vstd::prelude::*;

verus! {

/// The force the mouse applies: none, an attracting well, or a repelling one.
/// The well's centre is in world units: the column across, and two units per
/// text row down.
#[derive(Clone, Copy, Debug, PartialEq, Eq, Structural)]
pub enum MouseForce {
    Positive { x: u32, y: u32 },
    Negative { x: u32, y: u32 },
    Inactive,
}

impl MouseForce {
    /// Removes the force.
    pub fn reset(&mut self)
        ensures
            *final(self) == MouseForce::Inactive,
    {
        *self = MouseForce::Inactive
    }

    /// An attracting well at (x, y).
    pub fn set_positive(&mut self, x: u32, y: u32)
        ensures
            *final(self) == (MouseForce::Positive { x, y }),
    {
        *self = MouseForce::Positive { x, y }
    }

    /// A repelling well at (x, y).
    pub fn set_negative(&mut self, x: u32, y: u32)
        ensures
            *final(self) == (MouseForce::Negative { x, y }),
    {
        *self = MouseForce::Negative { x, y }
    }
}

} // verus!
