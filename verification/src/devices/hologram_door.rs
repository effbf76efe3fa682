//! Hologram doors: a holographic panel in front of a door that shows its
//! state, reacts to the player walking in and out, and opens the door.

use vstd::prelude::*;
use crate::lists::contains_name;

verus! {

/// A hologram door's texts, targets and behaviour.
#[derive(Debug, Clone)]
pub struct HologramDoorSettings {
    pub unlocked_text: String,
    pub locked_text: String,
    pub open_text: String,
    pub hologram_idle: String,
    pub hologram_inside: String,
    /// Bits of the door entity the hologram opens.
    pub door_to_open: Option<u64>,
    /// Opens the door as soon as the player walks in.
    pub open_on_trigger: bool,
    /// Tags allowed to open the door, each once.
    pub tag_list_to_open: Vec<String>,
    pub hologram_text: Vec<u64>,
    pub holograms: Vec<u64>,
    pub hologram_central_ring: Vec<u64>,
    pub door_manager: Option<u64>,
    pub audio_source: Option<u64>,
}

/// What a hologram door is doing.
#[derive(Debug, Clone, Copy, PartialEq, Eq)]
pub struct HologramDoorStatus {
    pub inside_played: bool,
    pub door_locked: bool,
    pub inside: bool,
    pub opening_door: bool,
    pub hologram_occupied: bool,
    pub changing_colors: bool,
    pub open_door_coroutine: bool,
    pub change_transparency_coroutine: bool,
    pub set_hologram_colors_coroutine: bool,
}

/// A hologram door.
#[derive(Debug, Clone)]
pub struct HologramDoor {
    pub settings: HologramDoorSettings,
    pub status: HologramDoorStatus,
    /// The text shown when nobody stands in front of the hologram.
    pub regular_state_text: String,
}

/// Something the hologram asks the game to show, play or do.
#[derive(Debug, Clone, Copy, PartialEq, Eq, Structural)]
pub enum HologramDoorAction {
    /// Show the "open" text on the panel.
    ShowOpenText,
    /// Show the regular state text on the panel.
    ShowRegularText,
    /// Fade the hologram out (`true`) or back in.
    FadeHologram(bool),
    /// Tint the hologram with the unlocked (`true`) or locked colours.
    SetColors(bool),
    /// Open the door behind the hologram.
    OpenDoor,
    PlayLockedSound,
    PlayEnterSound,
    PlayExitSound,
    PlayIdleAnimation,
    PlayInsideAnimation,
    /// Stop the inside animation and go back to idle.
    StopInsideAnimation,
}

/// Starting the fade: any colour change stops.
pub open spec fn fading(st: HologramDoorStatus) -> HologramDoorStatus {
    HologramDoorStatus { change_transparency_coroutine: true, set_hologram_colors_coroutine: false, ..st }
}

/// Opening the door, unless it is locked or the hologram is occupied.
pub open spec fn spec_open_current_door(st: HologramDoorStatus) -> (HologramDoorStatus, Seq<HologramDoorAction>) {
    if !st.door_locked && !st.hologram_occupied {
        (
            HologramDoorStatus { open_door_coroutine: true, ..fading(st) },
            seq![HologramDoorAction::FadeHologram(true), HologramDoorAction::OpenDoor],
        )
    } else {
        (st, Seq::empty())
    }
}

/// One frame: idle while nobody is inside, the inside animation once when
/// somebody is, and the fade back when the door was opening and the player left.
pub open spec fn spec_update(st: HologramDoorStatus) -> (HologramDoorStatus, Seq<HologramDoorAction>) {
    let a1: Seq<HologramDoorAction> = if !st.inside { seq![HologramDoorAction::PlayIdleAnimation] } else { Seq::empty() };
    let s2 = if st.inside && !st.inside_played { HologramDoorStatus { inside_played: true, ..st } } else { st };
    let a2: Seq<HologramDoorAction> = if st.inside && !st.inside_played { seq![HologramDoorAction::PlayInsideAnimation] } else { Seq::empty() };
    if s2.opening_door && !s2.inside {
        (fading(HologramDoorStatus { opening_door: false, ..s2 }), a1 + a2 + seq![HologramDoorAction::FadeHologram(false)])
    } else {
        (s2, a1 + a2)
    }
}

/// The player walks in.
pub open spec fn spec_entering_door(st: HologramDoorStatus) -> (HologramDoorStatus, Seq<HologramDoorAction>) {
    let a1: Seq<HologramDoorAction> = if !st.door_locked { seq![HologramDoorAction::ShowOpenText] } else { Seq::empty() };
    let s1 = HologramDoorStatus { inside: true, ..st };
    if st.opening_door {
        (s1, a1)
    } else if st.door_locked {
        (s1, a1.push(HologramDoorAction::PlayLockedSound))
    } else {
        (s1, a1.push(HologramDoorAction::PlayEnterSound))
    }
}

/// The player walks in, and the door opens when it opens on trigger.
pub open spec fn spec_entering_door_full(open_on_trigger: bool, st: HologramDoorStatus) -> (HologramDoorStatus, Seq<HologramDoorAction>) {
    let e = spec_entering_door(st);
    if !st.opening_door && !st.door_locked && open_on_trigger {
        let o = spec_open_current_door(e.0);
        (o.0, e.1 + o.1)
    } else {
        e
    }
}

/// The player walks out.
pub open spec fn spec_exiting_door(st: HologramDoorStatus) -> (HologramDoorStatus, Seq<HologramDoorAction>) {
    let s1 = HologramDoorStatus { inside: false, inside_played: false, ..st };
    let a1: Seq<HologramDoorAction> = if st.inside_played {
        seq![HologramDoorAction::ShowRegularText, HologramDoorAction::StopInsideAnimation]
    } else {
        seq![HologramDoorAction::ShowRegularText]
    };
    if !st.opening_door { (s1, a1.push(HologramDoorAction::PlayExitSound)) } else { (s1, a1) }
}

impl HologramDoor {
    /// One frame of the hologram.
    pub fn update(&mut self) -> (acts: Vec<HologramDoorAction>)
        ensures
            final(self).settings == old(self).settings,
            final(self).regular_state_text == old(self).regular_state_text,
            (final(self).status, acts@) == spec_update(old(self).status),
    {
        let mut acts: Vec<HologramDoorAction> = Vec::new();
        if !self.status.inside {
            acts.push(HologramDoorAction::PlayIdleAnimation);
        }
        if self.status.inside && !self.status.inside_played {
            acts.push(HologramDoorAction::PlayInsideAnimation);
            self.status.inside_played = true;
        }
        if self.status.opening_door && !self.status.inside {
            self.status.opening_door = false;
            self.status.change_transparency_coroutine = true;
            self.status.set_hologram_colors_coroutine = false;
            acts.push(HologramDoorAction::FadeHologram(false));
        }
        proof {
            let st = old(self).status;
            if !st.inside {
                assert(acts@.take(1) =~= seq![HologramDoorAction::PlayIdleAnimation]);
            }
        }
        assert(acts@ =~= spec_update(old(self).status).1);
        acts
    }

    /// Opens the door unless it is locked or the hologram is occupied.
    pub fn open_current_door(&mut self) -> (acts: Vec<HologramDoorAction>)
        ensures
            final(self).settings == old(self).settings,
            final(self).regular_state_text == old(self).regular_state_text,
            (final(self).status, acts@) == spec_open_current_door(old(self).status),
    {
        let mut acts: Vec<HologramDoorAction> = Vec::new();
        if !self.status.door_locked && !self.status.hologram_occupied {
            self.status.change_transparency_coroutine = true;
            self.status.set_hologram_colors_coroutine = false;
            acts.push(HologramDoorAction::FadeHologram(true));
            self.status.open_door_coroutine = true;
            acts.push(HologramDoorAction::OpenDoor);
        }
        assert(acts@ =~= spec_open_current_door(old(self).status).1);
        acts
    }

    /// An activation of the hologram: it opens the door.
    pub fn activate_device(&mut self) -> (acts: Vec<HologramDoorAction>)
        ensures
            final(self).settings == old(self).settings,
            final(self).regular_state_text == old(self).regular_state_text,
            (final(self).status, acts@) == spec_open_current_door(old(self).status),
    {
        self.open_current_door()
    }

    /// Unlocks the door: the regular text becomes the unlocked text, which
    /// is shown, and the hologram takes the unlocked colours.
    pub fn unlock_hologram(&mut self) -> (acts: Vec<HologramDoorAction>)
        ensures
            final(self).settings == old(self).settings,
            final(self).regular_state_text@ == old(self).settings.unlocked_text@,
            final(self).status == (HologramDoorStatus { door_locked: false, set_hologram_colors_coroutine: true, ..old(self).status }),
            acts@ == seq![HologramDoorAction::ShowRegularText, HologramDoorAction::SetColors(true)],
    {
        self.status.door_locked = false;
        self.regular_state_text = self.settings.unlocked_text.clone();
        self.status.set_hologram_colors_coroutine = true;
        let mut acts: Vec<HologramDoorAction> = Vec::new();
        acts.push(HologramDoorAction::ShowRegularText);
        acts.push(HologramDoorAction::SetColors(true));
        assert(acts@ =~= seq![HologramDoorAction::ShowRegularText, HologramDoorAction::SetColors(true)]);
        acts
    }

    /// Locks the door: the regular text becomes the locked text, which is
    /// shown, and the hologram takes the locked colours.
    pub fn lock_hologram(&mut self) -> (acts: Vec<HologramDoorAction>)
        ensures
            final(self).settings == old(self).settings,
            final(self).regular_state_text@ == old(self).settings.locked_text@,
            final(self).status == (HologramDoorStatus { door_locked: true, set_hologram_colors_coroutine: true, ..old(self).status }),
            acts@ == seq![HologramDoorAction::ShowRegularText, HologramDoorAction::SetColors(false)],
    {
        self.status.door_locked = true;
        self.regular_state_text = self.settings.locked_text.clone();
        self.status.set_hologram_colors_coroutine = true;
        let mut acts: Vec<HologramDoorAction> = Vec::new();
        acts.push(HologramDoorAction::ShowRegularText);
        acts.push(HologramDoorAction::SetColors(false));
        assert(acts@ =~= seq![HologramDoorAction::ShowRegularText, HologramDoorAction::SetColors(false)]);
        acts
    }

    /// The player walks in.
    pub fn entering_door(&mut self) -> (acts: Vec<HologramDoorAction>)
        ensures
            final(self).settings == old(self).settings,
            final(self).regular_state_text == old(self).regular_state_text,
            (final(self).status, acts@) == spec_entering_door_full(old(self).settings.open_on_trigger, old(self).status),
    {
        let mut acts: Vec<HologramDoorAction> = Vec::new();
        if !self.status.door_locked {
            acts.push(HologramDoorAction::ShowOpenText);
        }
        self.status.inside = true;
        if !self.status.opening_door {
            if self.status.door_locked {
                acts.push(HologramDoorAction::PlayLockedSound);
            } else {
                acts.push(HologramDoorAction::PlayEnterSound);
                if self.settings.open_on_trigger {
                    let ghost before = acts@;
                    let more = self.open_current_door();
                    let mut k: usize = 0;
                    while k < more.len()
                        invariant
                            k <= more@.len(),
                            acts@ == before + more@.take(k as int),
                        decreases more.len() - k,
                    {
                        acts.push(more[k]);
                        k = k + 1;
                        assert(acts@ =~= before + more@.take(k as int));
                    }
                    assert(more@.take(more@.len() as int) =~= more@);
                }
            }
        }
        proof {
            let st = old(self).status;
            let e = spec_entering_door(st);
            if !st.door_locked {
                assert(seq![HologramDoorAction::ShowOpenText].push(HologramDoorAction::PlayEnterSound)
                    =~= seq![HologramDoorAction::ShowOpenText, HologramDoorAction::PlayEnterSound]);
            } else {
                assert(Seq::<HologramDoorAction>::empty().push(HologramDoorAction::PlayLockedSound)
                    =~= seq![HologramDoorAction::PlayLockedSound]);
            }
        }
        assert(acts@ =~= spec_entering_door_full(old(self).settings.open_on_trigger, old(self).status).1);
        acts
    }

    /// The player walks out.
    pub fn exiting_door(&mut self) -> (acts: Vec<HologramDoorAction>)
        ensures
            final(self).settings == old(self).settings,
            final(self).regular_state_text == old(self).regular_state_text,
            (final(self).status, acts@) == spec_exiting_door(old(self).status),
    {
        let mut acts: Vec<HologramDoorAction> = Vec::new();
        acts.push(HologramDoorAction::ShowRegularText);
        self.status.inside = false;
        if self.status.inside_played {
            acts.push(HologramDoorAction::StopInsideAnimation);
            self.status.inside_played = false;
        }
        if !self.status.opening_door {
            acts.push(HologramDoorAction::PlayExitSound);
        }
        assert(acts@ =~= spec_exiting_door(old(self).status).1);
        acts
    }

    /// An outside request to open the door: it is always passed on.
    pub fn open_hologram_door_by_external_input(&self) -> (acts: Vec<HologramDoorAction>)
        ensures
            acts@ == seq![HologramDoorAction::OpenDoor],
    {
        let mut acts: Vec<HologramDoorAction> = Vec::new();
        acts.push(HologramDoorAction::OpenDoor);
        assert(acts@ =~= seq![HologramDoorAction::OpenDoor]);
        acts
    }

    /// Whether a tag may open the door.
    pub fn check_if_tag_can_open(&self, tag_to_check: &str) -> (r: bool)
        ensures
            r == exists|i: int| 0 <= i < self.settings.tag_list_to_open@.len()
                && (#[trigger] self.settings.tag_list_to_open@[i])@ == tag_to_check@,
    {
        contains_name(&self.settings.tag_list_to_open, tag_to_check)
    }
}

/// A locked hologram door never opens its door: neither activation nor a
/// player walking in asks for it.
pub proof fn law_locked_hologram_never_opens(open_on_trigger: bool, st: HologramDoorStatus)
    requires
        st.door_locked,
    ensures
        !spec_open_current_door(st).1.contains(HologramDoorAction::OpenDoor),
        !spec_entering_door_full(open_on_trigger, st).1.contains(HologramDoorAction::OpenDoor),
{
    let e = spec_entering_door_full(open_on_trigger, st).1;
    if st.opening_door {
        assert(e =~= Seq::<HologramDoorAction>::empty());
    } else {
        assert(e =~= seq![HologramDoorAction::PlayLockedSound]);
    }
}

/// A player who walks in and out leaves nobody inside and the inside
/// animation reset, whatever the door's lock.
pub proof fn law_enter_then_exit(open_on_trigger: bool, st: HologramDoorStatus)
    ensures
        !spec_exiting_door(spec_entering_door_full(open_on_trigger, st).0).0.inside,
        !spec_exiting_door(spec_entering_door_full(open_on_trigger, st).0).0.inside_played,
        spec_exiting_door(spec_entering_door_full(open_on_trigger, st).0).0.door_locked == st.door_locked,
{
}

impl Default for HologramDoor {
    /// An unlocked hologram showing "Open", tied to no door yet.
    fn default() -> (d: Self)
        ensures
            d.settings.unlocked_text@ == "Open"@,
            d.settings.locked_text@ == "Locked"@,
            d.settings.open_text@ == "Open"@,
            d.settings.hologram_idle@ == "Idle"@,
            d.settings.hologram_inside@ == "Inside"@,
            d.settings.door_to_open is None,
            !d.settings.open_on_trigger,
            d.settings.tag_list_to_open@.len() == 0,
            d.settings.hologram_text@.len() == 0,
            d.settings.holograms@.len() == 0,
            d.settings.hologram_central_ring@.len() == 0,
            d.settings.door_manager is None,
            d.settings.audio_source is None,
            !d.status.inside_played,
            !d.status.door_locked,
            !d.status.inside,
            !d.status.opening_door,
            !d.status.hologram_occupied,
            !d.status.changing_colors,
            !d.status.open_door_coroutine,
            !d.status.change_transparency_coroutine,
            !d.status.set_hologram_colors_coroutine,
            d.regular_state_text@ == Seq::<char>::empty(),
    {
        HologramDoor {
            settings: HologramDoorSettings {
                unlocked_text: "Open".to_owned(),
                locked_text: "Locked".to_owned(),
                open_text: "Open".to_owned(),
                hologram_idle: "Idle".to_owned(),
                hologram_inside: "Inside".to_owned(),
                door_to_open: None,
                open_on_trigger: false,
                tag_list_to_open: Vec::new(),
                hologram_text: Vec::new(),
                holograms: Vec::new(),
                hologram_central_ring: Vec::new(),
                door_manager: None,
                audio_source: None,
            },
            status: HologramDoorStatus {
                inside_played: false,
                door_locked: false,
                inside: false,
                opening_door: false,
                hologram_occupied: false,
                changing_colors: false,
                open_door_coroutine: false,
                change_transparency_coroutine: false,
                set_hologram_colors_coroutine: false,
            },
            regular_state_text: String::new(),
        }
    }
}

} // verus!
