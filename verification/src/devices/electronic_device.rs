//! Electronic devices (terminals, computers, panels) used by a player who
//! walks into their trigger or activates them.

use vstd::prelude::*;
use crate::lists::{contains_entity, remove_entity, without, lemma_without};

verus! {

/// How a device reacts to players and activation.
#[derive(Debug, Clone)]
pub struct ElectronicDeviceSettings {
    pub use_only_for_trigger: bool,
    pub function_to_set_player: String,
    pub use_free_interaction: bool,
    pub use_free_interaction_event: bool,
    pub use_move_camera_to_device: bool,
    pub disable_device_when_stop_using: bool,
    pub stop_using_device_when_unlock: bool,
    pub disable_and_remove_device_when_unlock: bool,
    pub activate_event_on_trigger_stay: bool,
    pub activate_event_on_trigger_enter: bool,
    pub activate_event_on_trigger_exit: bool,
    pub send_player_on_trigger_enter: bool,
    pub send_player_on_trigger_exit: bool,
    pub activate_event_if_unable_to_use_device: bool,
    pub send_current_player_on_event: bool,
    pub use_event_on_start_using_device: bool,
    pub use_event_on_stop_using_device: bool,
}

/// What a device is doing.
#[derive(Debug, Clone, Copy, PartialEq, Eq)]
pub struct ElectronicDeviceStatus {
    pub using_device: bool,
    pub device_can_be_used: bool,
    pub player_inside: bool,
    /// Bits of the player entity the device serves.
    pub current_player: Option<u64>,
}

/// A device: configuration, state, and the players standing in its trigger.
#[derive(Debug, Clone)]
pub struct ElectronicDevice {
    pub settings: ElectronicDeviceSettings,
    pub status: ElectronicDeviceStatus,
    /// Bits of the players in the trigger, each once, in arrival order.
    pub player_found_list: Vec<u64>,
}

/// Something a device reports to the game.
#[derive(Debug, Clone, Copy, PartialEq, Eq, Structural)]
pub enum ElectronicDeviceEvent {
    /// The device was activated while it could not be used.
    UnableToUse { device_entity: u64, player_entity: u64 },
    /// A player started using the device.
    StartUsing { device_entity: u64, player_entity: u64 },
    /// A player stopped using the device.
    StopUsing { device_entity: u64, player_entity: u64 },
}

/// Switching the device on or off, and the event this reports for its
/// current player when wanted.
pub open spec fn spec_set_device_state(cfg: ElectronicDeviceSettings, st: ElectronicDeviceStatus, device_entity: u64, state: bool)
    -> (ElectronicDeviceStatus, Option<ElectronicDeviceEvent>) {
    let n = ElectronicDeviceStatus { using_device: state, ..st };
    let ev = match st.current_player {
        Some(p) => if state && cfg.use_event_on_start_using_device {
            Some(ElectronicDeviceEvent::StartUsing { device_entity, player_entity: p })
        } else if !state && cfg.use_event_on_stop_using_device {
            Some(ElectronicDeviceEvent::StopUsing { device_entity, player_entity: p })
        } else {
            None
        },
        None => None,
    };
    (n, ev)
}

/// An activation by `player_entity`: refused (and reported when wanted) if
/// the device cannot be used; ignored while in use by a device that neither
/// moves the camera nor allows free interaction, or while freely
/// interacted with; otherwise it toggles use.
pub open spec fn spec_activate_device(cfg: ElectronicDeviceSettings, st: ElectronicDeviceStatus, device_entity: u64, player_entity: u64)
    -> (ElectronicDeviceStatus, Option<ElectronicDeviceEvent>) {
    if !st.device_can_be_used {
        (st, if cfg.activate_event_if_unable_to_use_device {
            Some(ElectronicDeviceEvent::UnableToUse { device_entity, player_entity })
        } else {
            None
        })
    } else if !cfg.use_only_for_trigger && st.using_device && !cfg.use_move_camera_to_device && !cfg.use_free_interaction {
        (st, None)
    } else if cfg.use_free_interaction && st.using_device {
        (st, None)
    } else {
        spec_set_device_state(cfg, st, device_entity, !st.using_device)
    }
}

/// The player list after `p` entered the trigger.
pub open spec fn list_after_enter(list: Seq<u64>, p: u64) -> Seq<u64> {
    if list.contains(p) { list } else { list.push(p) }
}

/// A player entering the trigger of a device not in use: the player joins
/// the list and becomes the current player; a device that does not move
/// the camera and is not trigger-only starts being used.
pub open spec fn spec_trigger_enter(cfg: ElectronicDeviceSettings, st: ElectronicDeviceStatus, list: Seq<u64>, device_entity: u64, p: u64)
    -> (ElectronicDeviceStatus, Seq<u64>, Option<ElectronicDeviceEvent>) {
    if st.using_device {
        (st, list, None)
    } else {
        let s1 = ElectronicDeviceStatus { current_player: Some(p), ..st };
        let r = if !cfg.use_only_for_trigger && !cfg.use_move_camera_to_device {
            spec_set_device_state(cfg, s1, device_entity, true)
        } else {
            (s1, None)
        };
        (ElectronicDeviceStatus { player_inside: true, ..r.0 }, list_after_enter(list, p), r.1)
    }
}

/// Whether an exit of `p` is ignored: the device is in use without free
/// interaction, or freely interacted with by another player.
pub open spec fn exit_ignored(cfg: ElectronicDeviceSettings, st: ElectronicDeviceStatus, p: u64) -> bool {
    (st.using_device && !cfg.use_free_interaction) || (cfg.use_free_interaction && st.current_player != Some(p))
}

/// A player leaving the trigger: the player leaves the list; when nobody is
/// left the device loses its current player and is switched off (directly
/// for trigger-only devices, through the usual switch otherwise unless the
/// camera moves to it and it is not disabled on stop).
pub open spec fn spec_trigger_exit(cfg: ElectronicDeviceSettings, st: ElectronicDeviceStatus, list: Seq<u64>, device_entity: u64, p: u64)
    -> (ElectronicDeviceStatus, Seq<u64>, Option<ElectronicDeviceEvent>) {
    if exit_ignored(cfg, st, p) {
        (st, list, None)
    } else {
        let l = without(list, p);
        if l.len() == 0 {
            let s1 = ElectronicDeviceStatus { current_player: None, ..st };
            let r = if cfg.use_only_for_trigger {
                (ElectronicDeviceStatus { using_device: false, ..s1 }, None)
            } else if !cfg.use_move_camera_to_device || cfg.disable_device_when_stop_using {
                spec_set_device_state(cfg, s1, device_entity, false)
            } else {
                (s1, None)
            };
            (ElectronicDeviceStatus { player_inside: false, ..r.0 }, l, r.1)
        } else {
            (st, l, None)
        }
    }
}

impl ElectronicDevice {
    /// Switches the device on or off, reporting it for the current player
    /// when the configuration asks for it.
    pub fn set_device_state(&mut self, device_entity: u64, state: bool) -> (ev: Option<ElectronicDeviceEvent>)
        ensures
            final(self).settings == old(self).settings,
            final(self).player_found_list@ == old(self).player_found_list@,
            (final(self).status, ev) == spec_set_device_state(old(self).settings, old(self).status, device_entity, state),
    {
        self.status.using_device = state;
        match self.status.current_player {
            Some(p) => {
                if state && self.settings.use_event_on_start_using_device {
                    Some(ElectronicDeviceEvent::StartUsing { device_entity, player_entity: p })
                } else if !state && self.settings.use_event_on_stop_using_device {
                    Some(ElectronicDeviceEvent::StopUsing { device_entity, player_entity: p })
                } else {
                    None
                }
            },
            None => None,
        }
    }

    /// An activation of the device by a player.
    pub fn activate_device(&mut self, device_entity: u64, player_entity: u64) -> (ev: Option<ElectronicDeviceEvent>)
        ensures
            final(self).settings == old(self).settings,
            final(self).player_found_list@ == old(self).player_found_list@,
            (final(self).status, ev) == spec_activate_device(old(self).settings, old(self).status, device_entity, player_entity),
    {
        if !self.status.device_can_be_used {
            if self.settings.activate_event_if_unable_to_use_device {
                return Some(ElectronicDeviceEvent::UnableToUse { device_entity, player_entity });
            }
            return None;
        }
        if !self.settings.use_only_for_trigger {
            if self.status.using_device && !self.settings.use_move_camera_to_device && !self.settings.use_free_interaction {
                return None;
            }
        }
        if self.settings.use_free_interaction && self.status.using_device {
            None
        } else {
            let state = !self.status.using_device;
            self.set_device_state(device_entity, state)
        }
    }

    /// A player entered the device's trigger.
    pub fn trigger_enter(&mut self, device_entity: u64, player_entity: u64) -> (ev: Option<ElectronicDeviceEvent>)
        ensures
            final(self).settings == old(self).settings,
            (final(self).status, final(self).player_found_list@, ev)
                == spec_trigger_enter(old(self).settings, old(self).status, old(self).player_found_list@, device_entity, player_entity),
    {
        if self.status.using_device {
            return None;
        }
        if !contains_entity(&self.player_found_list, player_entity) {
            self.player_found_list.push(player_entity);
        }
        self.status.current_player = Some(player_entity);
        let mut ev = None;
        if self.settings.use_only_for_trigger || !self.settings.use_move_camera_to_device {
            if !self.settings.use_only_for_trigger {
                ev = self.set_device_state(device_entity, true);
            }
        }
        self.status.player_inside = true;
        ev
    }

    /// A player left the device's trigger.
    pub fn trigger_exit(&mut self, device_entity: u64, player_entity: u64) -> (ev: Option<ElectronicDeviceEvent>)
        ensures
            final(self).settings == old(self).settings,
            (final(self).status, final(self).player_found_list@, ev)
                == spec_trigger_exit(old(self).settings, old(self).status, old(self).player_found_list@, device_entity, player_entity),
    {
        if (self.status.using_device && !self.settings.use_free_interaction)
            || (self.settings.use_free_interaction && self.status.current_player != Some(player_entity)) {
            return None;
        }
        self.player_found_list = remove_entity(&self.player_found_list, player_entity);
        if self.player_found_list.len() == 0 {
            self.status.current_player = None;
            let mut ev = None;
            if self.settings.use_only_for_trigger {
                self.status.using_device = false;
            } else if !self.settings.use_move_camera_to_device || self.settings.disable_device_when_stop_using {
                ev = self.set_device_state(device_entity, false);
            }
            self.status.player_inside = false;
            ev
        } else {
            None
        }
    }

    /// Sets whether the device is in use, without events.
    pub fn set_using_device_state(&mut self, state: bool)
        ensures
            final(self).settings == old(self).settings,
            final(self).player_found_list@ == old(self).player_found_list@,
            final(self).status == (ElectronicDeviceStatus { using_device: state, ..old(self).status }),
    {
        self.status.using_device = state;
    }

    /// The player the device serves.
    pub fn get_current_player(&self) -> (r: Option<u64>)
        ensures
            r == self.status.current_player,
    {
        self.status.current_player
    }

    /// Sets the player the device serves, unless it is in use.
    pub fn set_current_user(&mut self, player: Option<u64>)
        ensures
            final(self).settings == old(self).settings,
            final(self).player_found_list@ == old(self).player_found_list@,
            final(self).status == (if old(self).status.using_device { old(self).status } else {
                ElectronicDeviceStatus { current_player: player, ..old(self).status }
            }),
    {
        if !self.status.using_device {
            self.status.current_player = player;
        }
    }

    /// Allows or forbids using the device.
    pub fn set_device_can_be_used_state(&mut self, state: bool)
        ensures
            final(self).settings == old(self).settings,
            final(self).player_found_list@ == old(self).player_found_list@,
            final(self).status == (ElectronicDeviceStatus { device_can_be_used: state, ..old(self).status }),
    {
        self.status.device_can_be_used = state;
    }

    /// Stops using the device.
    pub fn cancel_use_electronic_device(&mut self)
        ensures
            final(self).settings == old(self).settings,
            final(self).player_found_list@ == old(self).player_found_list@,
            final(self).status == (ElectronicDeviceStatus { using_device: false, ..old(self).status }),
    {
        if self.status.using_device {
            self.status.using_device = false;
        }
    }

    /// Forgets the player the device serves.
    pub fn remove_device_from_list(&mut self)
        ensures
            final(self).settings == old(self).settings,
            final(self).player_found_list@ == old(self).player_found_list@,
            final(self).status == (ElectronicDeviceStatus { current_player: None, ..old(self).status }),
    {
        self.status.current_player = None;
    }

    /// Forgets the player the device serves, at the request of another object.
    pub fn remove_device_from_list_external_call(&mut self)
        ensures
            final(self).settings == old(self).settings,
            final(self).player_found_list@ == old(self).player_found_list@,
            final(self).status == (ElectronicDeviceStatus { current_player: None, ..old(self).status }),
    {
        self.remove_device_from_list();
    }

    /// Stops using the device when its unlock says so.
    pub fn stop_using_device(&mut self)
        ensures
            final(self).settings == old(self).settings,
            final(self).player_found_list@ == old(self).player_found_list@,
            final(self).status == (if old(self).settings.stop_using_device_when_unlock {
                ElectronicDeviceStatus { using_device: false, ..old(self).status }
            } else {
                old(self).status
            }),
    {
        if self.settings.stop_using_device_when_unlock {
            self.status.using_device = false;
        }
    }
}

/// The trigger list holds each player at most once, whatever enters and leaves.
pub proof fn law_player_list_has_no_duplicates(
    cfg: ElectronicDeviceSettings,
    st: ElectronicDeviceStatus,
    list: Seq<u64>,
    device_entity: u64,
    p: u64,
)
    requires
        list.no_duplicates(),
    ensures
        spec_trigger_enter(cfg, st, list, device_entity, p).1.no_duplicates(),
        spec_trigger_exit(cfg, st, list, device_entity, p).1.no_duplicates(),
{
    lemma_without(list, p);
    if !list.contains(p) {
        assert forall|i: int, j: int| 0 <= i < list.push(p).len() && 0 <= j < list.push(p).len() && i != j
            implies list.push(p)[i] != list.push(p)[j] by {
            if i == list.len() as int {
                assert(list[j] == list.push(p)[j]);
            } else if j == list.len() as int {
                assert(list[i] == list.push(p)[i]);
            }
        }
    }
}

/// On a trigger-only device, a player who enters an empty trigger and then
/// leaves it leaves the device as it was before, with nobody inside, no
/// current player and the device off.
pub proof fn law_trigger_only_enter_then_exit(
    cfg: ElectronicDeviceSettings,
    st: ElectronicDeviceStatus,
    device_entity: u64,
    p: u64,
)
    requires
        cfg.use_only_for_trigger,
        !cfg.use_free_interaction,
        !st.using_device,
    ensures
        ({
            let e = spec_trigger_enter(cfg, st, Seq::empty(), device_entity, p);
            let x = spec_trigger_exit(cfg, e.0, e.1, device_entity, p);
            &&& e.1 == seq![p]
            &&& e.0.current_player == Some(p)
            &&& e.0.player_inside
            &&& x.1.len() == 0
            &&& x.0 == ElectronicDeviceStatus { current_player: None, player_inside: false, using_device: false, ..st }
            &&& e.2.is_none() && x.2.is_none()
        }),
{
    lemma_without(seq![p], p);
    if without(seq![p], p).len() > 0 {
        let y = without(seq![p], p)[0];
        assert(without(seq![p], p).contains(y));
        assert(seq![p].contains(y));
        let k = choose|k: int| 0 <= k < 1 && seq![p][k] == y;
        assert(y == p);
    }
    assert(Seq::<u64>::empty().push(p) =~= seq![p]);
}

/// Two activations of a usable device that toggles on activation (it moves
/// the camera or is trigger-only, and is not freely interacted with) leave it
/// in use as it was, reporting its player's start and stop as configured.
pub proof fn law_activation_toggles(
    cfg: ElectronicDeviceSettings,
    st: ElectronicDeviceStatus,
    device_entity: u64,
    player_entity: u64,
)
    requires
        st.device_can_be_used,
        cfg.use_move_camera_to_device || cfg.use_only_for_trigger,
        !cfg.use_free_interaction,
    ensures
        ({
            let a1 = spec_activate_device(cfg, st, device_entity, player_entity);
            let a2 = spec_activate_device(cfg, a1.0, device_entity, player_entity);
            &&& a1.0.using_device == !st.using_device
            &&& a2.0 == st
        }),
{
}

impl Default for ElectronicDevice {
    /// A usable device nobody uses, with no events.
    fn default() -> (d: Self)
        ensures
            !d.settings.use_only_for_trigger,
            !d.settings.use_free_interaction,
            !d.settings.use_free_interaction_event,
            !d.settings.use_move_camera_to_device,
            !d.settings.disable_device_when_stop_using,
            !d.settings.stop_using_device_when_unlock,
            !d.settings.disable_and_remove_device_when_unlock,
            !d.settings.activate_event_on_trigger_stay,
            !d.settings.activate_event_on_trigger_enter,
            !d.settings.activate_event_on_trigger_exit,
            !d.settings.send_player_on_trigger_enter,
            !d.settings.send_player_on_trigger_exit,
            !d.settings.activate_event_if_unable_to_use_device,
            !d.settings.send_current_player_on_event,
            !d.settings.use_event_on_start_using_device,
            !d.settings.use_event_on_stop_using_device,
            d.settings.function_to_set_player@ == Seq::<char>::empty(),
            !d.status.using_device,
            d.status.device_can_be_used,
            !d.status.player_inside,
            d.status.current_player is None,
            d.player_found_list@.len() == 0,
    {
        ElectronicDevice {
            settings: ElectronicDeviceSettings {
                use_only_for_trigger: false,
                use_free_interaction: false,
                use_free_interaction_event: false,
                use_move_camera_to_device: false,
                disable_device_when_stop_using: false,
                stop_using_device_when_unlock: false,
                disable_and_remove_device_when_unlock: false,
                activate_event_on_trigger_stay: false,
                activate_event_on_trigger_enter: false,
                activate_event_on_trigger_exit: false,
                send_player_on_trigger_enter: false,
                send_player_on_trigger_exit: false,
                activate_event_if_unable_to_use_device: false,
                send_current_player_on_event: false,
                use_event_on_start_using_device: false,
                use_event_on_stop_using_device: false,
                function_to_set_player: String::new(),
            },
            status: ElectronicDeviceStatus {
                using_device: false,
                device_can_be_used: true,
                player_inside: false,
                current_player: None,
            },
            player_found_list: Vec::new(),
        }
    }
}

} // verus!
