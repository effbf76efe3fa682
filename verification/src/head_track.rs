//! Head tracking: which bones turn the head and neck, and which target
//! the head follows. Weights, angles and rotations are the game's.

use vstd::prelude::*;
use crate::text::{lowercase_of, seq_contains_run, str_contains, to_lowercase};

verus! {

/// A character's head tracking.
#[derive(Debug, Clone, Copy, PartialEq, Eq, Structural)]
pub struct HeadTrack {
    pub enabled: bool,
    /// Without another target, the head follows the camera's direction.
    pub look_in_camera_direction: bool,
    pub active_target: Option<u64>,
    pub head_bone: Option<u64>,
    pub neck_bone: Option<u64>,
}

/// Something the head can turn to. Its reach is the game's.
#[derive(Debug, Clone, Copy, PartialEq, Eq, Structural)]
pub struct HeadTrackTarget {
    pub enabled: bool,
    pub priority: i32,
}

/// The bones after looking at a bone whose lowercased name is `lower`: the
/// first bone named with "head" becomes the head, else the first named with
/// "neck" becomes the neck.
pub open spec fn bones_after(h: HeadTrack, e: u64, lower: Seq<char>) -> HeadTrack {
    if seq_contains_run(lower, "head"@) && h.head_bone is None {
        HeadTrack { head_bone: Some(e), ..h }
    } else if seq_contains_run(lower, "neck"@) && h.neck_bone is None {
        HeadTrack { neck_bone: Some(e), ..h }
    } else {
        h
    }
}

impl HeadTrack {
    /// Both bones are known, so the hierarchy need not be searched.
    pub fn bones_found(&self) -> (r: bool)
        ensures
            r == (self.head_bone is Some && self.neck_bone is Some),
    {
        self.head_bone.is_some() && self.neck_bone.is_some()
    }

    /// Looks at a bone whose name is already lowercased.
    pub fn consider_bone_lowered(&mut self, e: u64, lower: &str) -> (found: bool)
        ensures
            *final(self) == bones_after(*old(self), e, lower@),
            found == (*final(self) != *old(self)),
    {
        if str_contains(lower, "head") && self.head_bone.is_none() {
            self.head_bone = Some(e);
            true
        } else if str_contains(lower, "neck") && self.neck_bone.is_none() {
            self.neck_bone = Some(e);
            true
        } else {
            false
        }
    }

    /// Looks at a bone of the character's hierarchy, its name read without
    /// regard to case; returns whether it became the head or the neck.
    pub fn consider_bone(&mut self, e: u64, name: &str) -> (found: bool)
        ensures
            *final(self) == bones_after(*old(self), e, lowercase_of(name@)),
            found == (*final(self) != *old(self)),
    {
        let lower = to_lowercase(name);
        self.consider_bone_lowered(e, lower.as_str())
    }

    /// Records this frame's target: the closest enabled target in reach, if
    /// any. Returns whether the head follows something, a target or the
    /// camera; following nothing clears the target.
    pub fn choose_target(&mut self, closest: Option<u64>) -> (found: bool)
        ensures
            found == (closest is Some || old(self).look_in_camera_direction),
            final(self).active_target == (if closest is Some {
                closest
            } else if old(self).look_in_camera_direction {
                old(self).active_target
            } else {
                None
            }),
            *final(self) == (HeadTrack { active_target: final(self).active_target, ..*old(self) }),
    {
        match closest {
            Some(t) => {
                self.active_target = Some(t);
                true
            },
            None => {
                if !self.look_in_camera_direction {
                    self.active_target = None;
                }
                self.look_in_camera_direction
            },
        }
    }
}

impl Default for HeadTrack {
    /// A tracker that follows the camera and has found no bones yet.
    fn default() -> (h: Self)
        ensures
            h == (HeadTrack {
                enabled: true,
                look_in_camera_direction: true,
                active_target: None,
                head_bone: None,
                neck_bone: None,
            }),
    {
        HeadTrack { enabled: true, look_in_camera_direction: true, active_target: None, head_bone: None, neck_bone: None }
    }
}

/// Once found, a bone is kept: later bones never replace the head or the neck.
pub proof fn law_bones_are_kept(h: HeadTrack, e: u64, lower: Seq<char>)
    ensures
        h.head_bone is Some ==> bones_after(h, e, lower).head_bone == h.head_bone,
        h.neck_bone is Some ==> bones_after(h, e, lower).neck_bone == h.neck_bone,
{
}

} // verus!
