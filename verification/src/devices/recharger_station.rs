//! Recharger stations: a booth that refills the player's health and energy
//! once activated, until the player is full.

use vstd::prelude::*;

verus! {

/// How a station is set up.
#[derive(Debug, Clone)]
pub struct RechargerStationSettings {
    pub animation_name: String,
    /// Whether the station has a healing sound.
    pub has_sound: bool,
    /// Bits of the button that activates the station.
    pub button: Option<u64>,
    /// Whether the station has an animation clip.
    pub has_animation: bool,
    pub audio_source: Option<u64>,
}

/// What a station is doing.
#[derive(Debug, Clone, Copy, PartialEq, Eq, Structural)]
pub struct RechargerStationStatus {
    pub healing: bool,
    pub fully_healed: bool,
    /// The player stands inside.
    pub inside: bool,
    pub playing_animation_forward: bool,
    pub player: Option<u64>,
    /// Bits of the button's collider while the button can be pressed.
    pub button_collider: Option<u64>,
}

/// A recharger station. How fast it heals and the amounts it tracks are the game's.
#[derive(Debug, Clone)]
pub struct RechargerStation {
    pub settings: RechargerStationSettings,
    pub status: RechargerStationStatus,
}

/// What the station learns of its player this frame.
#[derive(Debug, Clone, Copy, PartialEq, Eq, Structural)]
pub struct PlayerVitals {
    /// Health and energy are at their maximum once this frame's healing is added.
    pub full_after_heal: bool,
    /// Health or energy is below its maximum.
    pub needs_healing: bool,
}

/// Sent when the station starts healing.
#[derive(Debug, Clone, Copy, PartialEq, Eq, Structural)]
pub struct RechargerStationHealingStarted {
    pub station_entity: u64,
    pub player_entity: Option<u64>,
}

/// Sent when the player is full.
#[derive(Debug, Clone, Copy, PartialEq, Eq, Structural)]
pub struct RechargerStationFullyHealed {
    pub station_entity: u64,
    pub player_entity: u64,
}

/// Healing stops: the player is full.
pub open spec fn stopped(st: RechargerStationStatus) -> RechargerStationStatus {
    RechargerStationStatus { healing: false, fully_healed: true, ..st }
}

/// Healing starts when the player is inside and not full.
pub open spec fn spec_heal_player(st: RechargerStationStatus) -> RechargerStationStatus {
    if st.inside && !st.fully_healed {
        RechargerStationStatus { healing: true, playing_animation_forward: true, ..st }
    } else {
        st
    }
}

/// The button is pressed: healing starts and the button is put away.
pub open spec fn spec_activate(st: RechargerStationStatus) -> RechargerStationStatus {
    if st.inside && !st.fully_healed {
        RechargerStationStatus { button_collider: None, ..spec_heal_player(st) }
    } else {
        st
    }
}

/// One frame: a healing station stops once the player is full; an idle
/// station with its button out notices a player who needs healing; a
/// station whose forward animation ran while the player is not full stops it.
pub open spec fn spec_frame(has_animation: bool, st: RechargerStationStatus, vitals: Option<PlayerVitals>) -> (RechargerStationStatus, Option<u64>) {
    let heals_now = st.healing && !st.fully_healed && st.player is Some && vitals is Some;
    let done = heals_now && vitals->0.full_after_heal;
    let s1 = if done { stopped(st) } else { st };
    let s2 = if s1.inside && !s1.healing && s1.button_collider is Some && s1.player is Some && vitals is Some
        && vitals->0.needs_healing {
        RechargerStationStatus { fully_healed: false, ..s1 }
    } else {
        s1
    };
    let s3 = if has_animation && s2.playing_animation_forward && !s2.fully_healed {
        RechargerStationStatus { playing_animation_forward: false, ..s2 }
    } else {
        s2
    };
    (s3, if done { st.player } else { None })
}

impl RechargerStation {
    /// One frame of the station. `vitals` is `None` when the station's
    /// player cannot be found. Returns the full-healing report, if any.
    pub fn update_frame(&mut self, station_entity: u64, vitals: Option<PlayerVitals>) -> (r: Option<RechargerStationFullyHealed>)
        ensures
            final(self).settings == old(self).settings,
            final(self).status == spec_frame(old(self).settings.has_animation, old(self).status, vitals).0,
            r is Some <==> spec_frame(old(self).settings.has_animation, old(self).status, vitals).1 is Some,
            r matches Some(e) ==> e.station_entity == station_entity
                && Some(e.player_entity) == spec_frame(old(self).settings.has_animation, old(self).status, vitals).1,
    {
        let mut report: Option<RechargerStationFullyHealed> = None;
        if self.status.healing && !self.status.fully_healed {
            if let Some(player_entity) = self.status.player {
                if let Some(v) = vitals {
                    if v.full_after_heal {
                        self.stop_healing();
                        report = Some(RechargerStationFullyHealed { station_entity, player_entity });
                    }
                }
            }
        }
        if self.status.inside && !self.status.healing && self.status.button_collider.is_some() && self.status.player.is_some() {
            if let Some(v) = vitals {
                if v.needs_healing {
                    self.status.fully_healed = false;
                }
            }
        }
        if self.settings.has_animation && self.status.playing_animation_forward && !self.status.fully_healed {
            self.status.playing_animation_forward = false;
        }
        report
    }

    /// The station's button is pressed: a player inside who is not full
    /// starts healing, and the button is put away.
    pub fn activate(&mut self, station_entity: u64) -> (r: Option<RechargerStationHealingStarted>)
        ensures
            final(self).settings == old(self).settings,
            final(self).status == spec_activate(old(self).status),
            r is Some <==> (old(self).status.inside && !old(self).status.fully_healed),
            r matches Some(e) ==> e.station_entity == station_entity && e.player_entity == old(self).status.player,
    {
        if self.status.inside && !self.status.fully_healed {
            self.heal_player();
            self.status.button_collider = None;
            Some(RechargerStationHealingStarted { station_entity, player_entity: self.status.player })
        } else {
            None
        }
    }

    /// Sets the station's player.
    pub fn set_player(&mut self, player: Option<u64>)
        ensures
            final(self).settings == old(self).settings,
            final(self).status == (RechargerStationStatus { player, ..old(self).status }),
    {
        self.status.player = player;
    }

    /// Records whether the player stands inside.
    pub fn set_inside(&mut self, inside: bool)
        ensures
            final(self).settings == old(self).settings,
            final(self).status == (RechargerStationStatus { inside, ..old(self).status }),
    {
        self.status.inside = inside;
    }

    /// Starts healing a player who is inside and not full.
    pub fn heal_player(&mut self)
        ensures
            final(self).settings == old(self).settings,
            final(self).status == spec_heal_player(old(self).status),
    {
        if self.status.inside && !self.status.fully_healed {
            self.status.healing = true;
            self.status.playing_animation_forward = true;
        }
    }

    /// Stops healing: the player is full.
    pub fn stop_healing(&mut self)
        ensures
            final(self).settings == old(self).settings,
            final(self).status == stopped(old(self).status),
    {
        self.status.healing = false;
        self.status.fully_healed = true;
    }

    /// The station is healing a player who is not full yet.
    pub fn is_active(&self) -> (r: bool)
        ensures
            r == (self.status.healing && !self.status.fully_healed),
    {
        self.status.healing && !self.status.fully_healed
    }

    pub fn is_fully_healed(&self) -> (r: bool)
        ensures
            r == self.status.fully_healed,
    {
        self.status.fully_healed
    }

    pub fn is_inside(&self) -> (r: bool)
        ensures
            r == self.status.inside,
    {
        self.status.inside
    }
}

impl Default for RechargerStation {
    /// A station that heals nobody yet.
    fn default() -> (s: Self)
        ensures
            s.settings.animation_name@ == "recharge"@,
            !s.settings.has_sound,
            s.settings.button is None,
            !s.settings.has_animation,
            s.settings.audio_source is None,
            s.status == (RechargerStationStatus {
                healing: false,
                fully_healed: false,
                inside: false,
                playing_animation_forward: false,
                player: None,
                button_collider: None,
            }),
    {
        RechargerStation {
            settings: RechargerStationSettings {
                animation_name: "recharge".to_owned(),
                has_sound: false,
                button: None,
                has_animation: false,
                audio_source: None,
            },
            status: RechargerStationStatus {
                healing: false,
                fully_healed: false,
                inside: false,
                playing_animation_forward: false,
                player: None,
                button_collider: None,
            },
        }
    }
}

/// A station whose player is full does not start healing, by its button or otherwise.
pub proof fn law_full_player_is_not_healed(st: RechargerStationStatus)
    requires
        st.fully_healed,
    ensures
        spec_heal_player(st) == st,
        spec_activate(st) == st,
{
}

/// Starting and then stopping leaves a station that is full and idle.
pub proof fn law_heal_then_stop(st: RechargerStationStatus)
    ensures
        !stopped(spec_heal_player(st)).healing,
        stopped(spec_heal_player(st)).fully_healed,
        st.inside && !st.fully_healed ==> spec_heal_player(st).healing && !spec_heal_player(st).fully_healed,
{
}

/// A station reports its player full once: after the report it has stopped
/// healing, so the next frame reports nothing.
pub proof fn law_full_report_once(has_animation: bool, st: RechargerStationStatus, v1: Option<PlayerVitals>, v2: Option<PlayerVitals>)
    requires
        spec_frame(has_animation, st, v1).1 is Some,
    ensures
        !spec_frame(has_animation, st, v1).0.healing,
        spec_frame(has_animation, spec_frame(has_animation, st, v1).0, v2).1 is None,
{
}

} // verus!
