//! Footsteps: which foot steps next and which sound of a surface plays.
//! Step distances, volumes and positions are the game's.

use vstd::prelude::*;
use crate::chance::random_index;

verus! {

/// A character's footsteps.
#[derive(Debug, Clone, Copy, PartialEq, Eq, Structural)]
pub struct FootstepController {
    pub is_enabled: bool,
    /// Layers the ground check looks at.
    pub floor_mask: u32,
    /// The last step was made with the left foot.
    pub last_foot_left: bool,
}

impl FootstepController {
    /// Takes a step with the other foot; returns whether it is the left one.
    pub fn next_foot(&mut self) -> (left: bool)
        ensures
            left == !old(self).last_foot_left,
            *final(self) == (FootstepController { last_foot_left: left, ..*old(self) }),
    {
        self.last_foot_left = !self.last_foot_left;
        self.last_foot_left
    }
}

impl Default for FootstepController {
    /// Footsteps on, every layer of the low half counted as floor.
    fn default() -> (f: Self)
        ensures
            f == (FootstepController { is_enabled: true, floor_mask: 0xFFFF, last_foot_left: false }),
    {
        FootstepController { is_enabled: true, floor_mask: 0xFFFF, last_foot_left: false }
    }
}

/// The sound of a pool of `pool_len` sounds that a step plays: one drawn
/// at random, none from an empty pool.
pub fn pick_footstep_sound(pool_len: usize) -> (r: Option<usize>)
    ensures
        pool_len == 0 ==> r is None,
        pool_len > 0 ==> (r matches Some(i) && i < pool_len),
{
    if pool_len == 0 {
        None
    } else {
        Some(random_index(pool_len))
    }
}

} // verus!
