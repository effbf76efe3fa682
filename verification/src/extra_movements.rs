//! Extra movement modes: flying, rolling as a sphere, gliding, wall running,
//! free fall and rolling on landing. The library keeps which mode is on and
//! when it starts or ends; speeds, forces and timing are the game's.

use vstd::prelude::*;

verus! {

/// Flight.
#[derive(Debug, Clone, Copy, PartialEq, Eq, Structural)]
pub struct Fly {
    pub active: bool,
    pub turbo_active: bool,
}

/// Rolling as a sphere.
#[derive(Debug, Clone, Copy, PartialEq, Eq, Structural)]
pub struct SphereMode {
    pub active: bool,
}

/// Gliding.
#[derive(Debug, Clone, Copy, PartialEq, Eq, Structural)]
pub struct Paraglider {
    /// The paraglider can be used.
    pub active: bool,
    pub is_gliding: bool,
}

/// How gliding changed this frame.
#[derive(Debug, Clone, Copy, PartialEq, Eq, Structural)]
pub enum GlideChange {
    Unchanged,
    Started,
    Stopped,
}

/// Running along walls.
#[derive(Debug, Clone, Copy, PartialEq, Eq, Structural)]
pub struct WallRun {
    pub active: bool,
    pub is_running_right: bool,
    pub is_running_left: bool,
}

/// Free fall after a long time in the air.
#[derive(Debug, Clone, Copy, PartialEq, Eq, Structural)]
pub struct FreeFall {
    pub enabled: bool,
    pub active: bool,
    pub is_falling: bool,
}

/// A free fall starting or ending.
#[derive(Debug, Clone, Copy, PartialEq, Eq, Structural)]
pub enum FreeFallEvent {
    Enter(u64),
    Exit(u64),
}

/// Rolling when landing, prepared by crouching in the air.
#[derive(Debug, Clone, Copy, PartialEq, Eq, Structural)]
pub struct RollOnLanding {
    pub enabled: bool,
    pub prepared: bool,
    pub executing: bool,
}

impl Fly {
    /// Flight on or off; the game resets the flight speed.
    pub fn toggle(&mut self)
        ensures
            *final(self) == (Fly { active: !old(self).active, ..*old(self) }),
    {
        self.active = !self.active;
    }

    pub fn set_turbo(&mut self, active: bool)
        ensures
            *final(self) == (Fly { turbo_active: active, ..*old(self) }),
    {
        self.turbo_active = active;
    }
}

impl SphereMode {
    pub fn toggle(&mut self)
        ensures
            final(self).active == !old(self).active,
    {
        self.active = !self.active;
    }
}

impl Paraglider {
    /// Makes the paraglider usable or not; an unusable one stops gliding.
    pub fn set_active(&mut self, active: bool)
        ensures
            final(self).active == active,
            final(self).is_gliding == (active && old(self).is_gliding),
    {
        self.active = active;
        if !active {
            self.is_gliding = false;
        }
    }

    /// A frame of input: in the air, holding jump glides and letting go
    /// stops; on the ground gliding stops. A paraglider that cannot be used
    /// does nothing.
    pub fn glide_input(&mut self, jump: bool, grounded: bool) -> (r: GlideChange)
        ensures
            final(self).active == old(self).active,
            !old(self).active ==> *final(self) == *old(self) && r == GlideChange::Unchanged,
            old(self).active ==> final(self).is_gliding == (jump && !grounded),
            old(self).active ==> r == (if !old(self).is_gliding && jump && !grounded {
                GlideChange::Started
            } else if old(self).is_gliding && !jump && !grounded {
                GlideChange::Stopped
            } else {
                GlideChange::Unchanged
            }),
    {
        if !self.active {
            return GlideChange::Unchanged;
        }
        if !grounded {
            if jump {
                if !self.is_gliding {
                    self.is_gliding = true;
                    return GlideChange::Started;
                }
                GlideChange::Unchanged
            } else {
                if self.is_gliding {
                    self.is_gliding = false;
                    return GlideChange::Stopped;
                }
                GlideChange::Unchanged
            }
        } else {
            self.is_gliding = false;
            GlideChange::Unchanged
        }
    }
}

impl WallRun {
    /// A frame of the wall check: without forward input the run ends;
    /// otherwise a wall run that is not active runs along no side.
    pub fn check(&mut self, moving_forward: bool)
        ensures
            !moving_forward ==> *final(self) == (if old(self).active {
                WallRun { active: false, is_running_right: false, is_running_left: false }
            } else {
                *old(self)
            }),
            moving_forward ==> *final(self) == (if old(self).active {
                *old(self)
            } else {
                WallRun { is_running_right: false, is_running_left: false, ..*old(self) }
            }),
    {
        if !moving_forward {
            if self.active {
                self.active = false;
                self.is_running_right = false;
                self.is_running_left = false;
            }
            return;
        }
        if !self.active {
            self.is_running_right = false;
            self.is_running_left = false;
        }
    }
}

impl FreeFall {
    /// A frame: landing ends a free fall; staying in the air longer than
    /// the threshold (`air_time_exceeded`) starts one.
    pub fn update(&mut self, me: u64, grounded: bool, air_time_exceeded: bool) -> (r: Option<FreeFallEvent>)
        ensures
            final(self).enabled == old(self).enabled,
            !old(self).enabled ==> *final(self) == *old(self) && r is None,
            old(self).enabled && grounded ==> {
                &&& (r is Some <==> old(self).active)
                &&& (r matches Some(e) ==> e == FreeFallEvent::Exit(me))
                &&& *final(self) == (if old(self).active {
                    FreeFall { active: false, is_falling: false, ..*old(self) }
                } else {
                    *old(self)
                })
            },
            old(self).enabled && !grounded ==> {
                &&& (r is Some <==> (!old(self).active && air_time_exceeded))
                &&& (r matches Some(e) ==> e == FreeFallEvent::Enter(me))
                &&& final(self).active == (old(self).active || air_time_exceeded)
                &&& final(self).is_falling == old(self).is_falling
            },
    {
        if !self.enabled {
            return None;
        }
        if grounded {
            if self.active {
                self.active = false;
                self.is_falling = false;
                return Some(FreeFallEvent::Exit(me));
            }
            None
        } else {
            if !self.active && air_time_exceeded {
                self.active = true;
                return Some(FreeFallEvent::Enter(me));
            }
            None
        }
    }
}

impl RollOnLanding {
    /// Crouching prepares a roll; returns whether a roll was prepared now
    /// (the game records when).
    pub fn prepare_input(&mut self, crouch: bool) -> (prepared_now: bool)
        ensures
            prepared_now == (old(self).enabled && crouch && !old(self).prepared),
            *final(self) == (if prepared_now { RollOnLanding { prepared: true, ..*old(self) } } else { *old(self) }),
    {
        if self.enabled && crouch && !self.prepared {
            self.prepared = true;
            return true;
        }
        false
    }

    /// A frame of a prepared roll: it lapses when its window has passed, and
    /// is carried out when the ground is close. Returns whether it starts now.
    pub fn landing_check(&mut self, window_passed: bool, ground_detected: bool) -> (execute: bool)
        ensures
            execute == (old(self).prepared && !window_passed && ground_detected),
            !old(self).prepared ==> *final(self) == *old(self),
            old(self).prepared && window_passed ==> *final(self) == (RollOnLanding { prepared: false, ..*old(self) }),
            execute ==> *final(self) == (RollOnLanding { prepared: false, executing: true, ..*old(self) }),
            old(self).prepared && !window_passed && !ground_detected ==> *final(self) == *old(self),
    {
        if !self.prepared {
            return false;
        }
        if window_passed {
            self.prepared = false;
            return false;
        }
        if ground_detected {
            self.prepared = false;
            self.executing = true;
            return true;
        }
        false
    }

    /// A roll in progress ends once its duration has passed.
    pub fn finish_check(&mut self, duration_passed: bool)
        ensures
            *final(self) == (if old(self).executing && duration_passed {
                RollOnLanding { executing: false, ..*old(self) }
            } else {
                *old(self)
            }),
    {
        if self.executing && duration_passed {
            self.executing = false;
        }
    }
}

} // verus!
