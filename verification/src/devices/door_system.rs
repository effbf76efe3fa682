//! Doors that open and close on a button, a trigger, a hologram or a shot,
//! can be locked, and report their movement.
//!
//! A door is `Closed` or `Opened`; `enter` asks it to move open and `exit`
//! to move shut, and `moving` is set while the leaves travel. The leaves'
//! positions are driven by the caller; this module decides the state.

use vstd::prelude::*;
use crate::text::str_equals;

verus! {

/// How the door leaves move.
#[derive(Debug, Clone, Copy, PartialEq, Eq, Structural)]
pub enum DoorMovementType {
    Translate,
    Rotate,
    Animation,
}

/// What opens the door.
#[derive(Debug, Clone, Copy, PartialEq, Eq, Structural)]
pub enum DoorType {
    Trigger,
    Button,
    Hologram,
    Shoot,
}

/// The settled state of the door.
#[derive(Debug, Clone, Copy, PartialEq, Eq, Structural)]
pub enum DoorCurrentState {
    Closed,
    Opened,
}

/// What a door is: its configuration, fixed while it runs.
#[derive(Debug, Clone)]
pub struct DoorSettings {
    pub tag_list_to_open: Vec<String>,
    pub movement_type: DoorMovementType,
    pub door_type_info: DoorType,
    pub open_door_when_unlocked: bool,
    pub use_sound_on_unlock: bool,
    pub close_after_time: bool,
    pub show_gizmo: bool,
    pub rotate_in_both_directions: bool,
    pub animation_name: String,
    pub close_door_on_trigger_exit: bool,
    pub use_event_on_open_and_close: bool,
    pub use_event_on_unlock_door: bool,
    pub use_event_on_lock_door: bool,
    pub use_event_on_door_found: bool,
    pub set_map_icons_on_door: bool,
    /// Number of leaves that must reach their target for a move to end.
    pub doors_number: i32,
}

/// What a door is doing.
#[derive(Debug, Clone, Copy, PartialEq, Eq)]
pub struct DoorStatus {
    pub door_state: DoorCurrentState,
    pub locked: bool,
    pub moving: bool,
    pub door_found: bool,
    /// A move open was requested and has not settled.
    pub enter: bool,
    /// A move shut was requested and has not settled.
    pub exit: bool,
    pub doors_in_position: i32,
    pub disable_door_open_close_action: bool,
    /// Bits of the player entity using the door.
    pub current_player: Option<u64>,
    pub player_in_trigger_zone: bool,
}

/// A door: configuration and state.
#[derive(Debug, Clone)]
pub struct DoorSystem {
    pub settings: DoorSettings,
    pub status: DoorStatus,
}

/// A door started opening (`open`) or closing.
#[derive(Debug, Clone, Copy, PartialEq, Eq)]
pub struct DoorOpenCloseEvent {
    pub door_entity: u64,
    pub open: bool,
}

/// A door was locked or unlocked.
#[derive(Debug, Clone, Copy, PartialEq, Eq)]
pub struct DoorLockEvent {
    pub door_entity: u64,
    pub locked: bool,
}

/// A door became available for interaction for the first time.
#[derive(Debug, Clone, Copy, PartialEq, Eq)]
pub struct DoorFoundEvent {
    pub door_entity: u64,
    pub locked: bool,
}

/// What one movement update did.
#[derive(Debug, Clone, Copy, PartialEq, Eq, Structural)]
pub enum DoorMovementStep {
    /// Neither opening nor closing was requested.
    Idle,
    /// The leaves are still travelling.
    Moving,
    /// The door finished opening.
    FinishedOpening,
    /// The door finished closing.
    FinishedClosing,
}

/// Starting to open: refused when the action is disabled or the door locked.
pub open spec fn spec_open_doors(d: DoorStatus) -> (DoorStatus, bool) {
    if d.disable_door_open_close_action || d.locked {
        (d, false)
    } else {
        (DoorStatus { enter: true, exit: false, ..d }, true)
    }
}

/// Starting to close: refused when the action is disabled or the door locked.
pub open spec fn spec_close_doors(d: DoorStatus) -> (DoorStatus, bool) {
    if d.disable_door_open_close_action || d.locked {
        (d, false)
    } else {
        (DoorStatus { enter: false, exit: true, ..d }, true)
    }
}

/// A button press: closes an open door and opens a closed one, unless the
/// action is disabled or the door is moving. The flag tells whether an
/// open (`Some(true)`) or close (`Some(false)`) started.
pub open spec fn spec_change_doors_state_by_button(d: DoorStatus) -> (DoorStatus, Option<bool>) {
    if d.disable_door_open_close_action || d.moving {
        (d, None)
    } else if d.door_state == DoorCurrentState::Opened {
        let r = spec_close_doors(d);
        (r.0, if r.1 { Some(false) } else { None })
    } else {
        let r = spec_open_doors(d);
        (r.0, if r.1 { Some(true) } else { None })
    }
}

/// Locking: an open door, or a closed door still moving, is sent shut.
pub open spec fn spec_lock_door(d: DoorStatus) -> DoorStatus {
    if d.door_state == DoorCurrentState::Opened || (d.door_state == DoorCurrentState::Closed && d.moving) {
        DoorStatus { locked: true, exit: true, enter: false, ..d }
    } else {
        DoorStatus { locked: true, ..d }
    }
}

/// Unlocking, followed by a button press when the door opens on unlock.
pub open spec fn spec_unlock_door(open_door_when_unlocked: bool, d: DoorStatus) -> (DoorStatus, Option<bool>) {
    let u = DoorStatus { locked: false, ..d };
    if open_door_when_unlocked {
        spec_change_doors_state_by_button(u)
    } else {
        (u, None)
    }
}

/// The door after a requested movement settled.
pub open spec fn settled(d: DoorStatus) -> DoorStatus {
    DoorStatus {
        door_state: if d.enter { DoorCurrentState::Opened } else { DoorCurrentState::Closed },
        enter: false,
        exit: false,
        doors_in_position: 0,
        moving: false,
        ..d
    }
}

/// One movement update, given how many leaves reached their target.
/// Animated doors settle at once; moving leaves settle when all of them are
/// in position.
pub open spec fn spec_advance_movement(cfg: DoorSettings, d: DoorStatus, in_position: i32) -> (DoorStatus, DoorMovementStep) {
    if !d.enter && !d.exit {
        (d, DoorMovementStep::Idle)
    } else if cfg.movement_type == DoorMovementType::Animation || in_position == cfg.doors_number {
        (settled(d), if d.enter { DoorMovementStep::FinishedOpening } else { DoorMovementStep::FinishedClosing })
    } else {
        (DoorStatus { moving: true, ..d }, DoorMovementStep::Moving)
    }
}

/// The automatic close of a door that stayed open long enough.
pub open spec fn spec_close_if_expired(close_after_time: bool, d: DoorStatus, time_reached: bool) -> (DoorStatus, Option<bool>) {
    if close_after_time && d.door_state == DoorCurrentState::Opened && !d.exit && !d.enter && !d.moving && time_reached {
        spec_change_doors_state_by_button(d)
    } else {
        (d, None)
    }
}

/// A presence check of the trigger zone: trigger doors open when the player
/// stands in the zone, and the first check reports the door as found when
/// that event is wanted.
pub open spec fn spec_detect_player(cfg: DoorSettings, d: DoorStatus, player_detected: bool) -> (DoorStatus, bool) {
    let t = if cfg.door_type_info == DoorType::Trigger {
        if player_detected && !d.locked && d.door_state == DoorCurrentState::Closed && !d.moving {
            DoorStatus { player_in_trigger_zone: true, enter: true, ..d }
        } else {
            DoorStatus { player_in_trigger_zone: player_detected, ..d }
        }
    } else {
        d
    };
    if cfg.use_event_on_door_found && !t.door_found {
        (DoorStatus { door_found: true, ..t }, true)
    } else {
        (t, false)
    }
}

/// The event a started move is reported with.
pub open spec fn move_event(door_entity: u64, started: Option<bool>) -> Option<DoorOpenCloseEvent> {
    match started {
        Some(open) => Some(DoorOpenCloseEvent { door_entity, open }),
        None => None,
    }
}

impl DoorSystem {
    /// Starts opening the door; returns the event when it started.
    pub fn open_doors(&mut self, door_entity: u64) -> (ev: Option<DoorOpenCloseEvent>)
        ensures
            final(self).settings == old(self).settings,
            final(self).status == spec_open_doors(old(self).status).0,
            ev == move_event(door_entity, if spec_open_doors(old(self).status).1 { Some(true) } else { None }),
    {
        if self.status.disable_door_open_close_action || self.status.locked {
            return None;
        }
        self.status.enter = true;
        self.status.exit = false;
        Some(DoorOpenCloseEvent { door_entity, open: true })
    }

    /// Starts closing the door; returns the event when it started.
    pub fn close_doors(&mut self, door_entity: u64) -> (ev: Option<DoorOpenCloseEvent>)
        ensures
            final(self).settings == old(self).settings,
            final(self).status == spec_close_doors(old(self).status).0,
            ev == move_event(door_entity, if spec_close_doors(old(self).status).1 { Some(false) } else { None }),
    {
        if self.status.disable_door_open_close_action || self.status.locked {
            return None;
        }
        self.status.enter = false;
        self.status.exit = true;
        Some(DoorOpenCloseEvent { door_entity, open: false })
    }

    /// A button press on the door.
    pub fn change_doors_state_by_button(&mut self, door_entity: u64) -> (ev: Option<DoorOpenCloseEvent>)
        ensures
            final(self).settings == old(self).settings,
            final(self).status == spec_change_doors_state_by_button(old(self).status).0,
            ev == move_event(door_entity, spec_change_doors_state_by_button(old(self).status).1),
    {
        if self.status.disable_door_open_close_action || self.status.moving {
            return None;
        }
        if self.status.door_state == DoorCurrentState::Opened {
            self.close_doors(door_entity)
        } else {
            self.open_doors(door_entity)
        }
    }

    /// Locks the door and sends it shut when open or closing.
    pub fn lock_door(&mut self, door_entity: u64) -> (ev: DoorLockEvent)
        ensures
            final(self).settings == old(self).settings,
            final(self).status == spec_lock_door(old(self).status),
            ev == (DoorLockEvent { door_entity, locked: true }),
    {
        self.status.locked = true;
        if self.status.door_state == DoorCurrentState::Opened
            || (self.status.door_state == DoorCurrentState::Closed && self.status.moving) {
            self.status.exit = true;
            self.status.enter = false;
        }
        DoorLockEvent { door_entity, locked: true }
    }

    /// Unlocks the door, pressing its button when it opens on unlock.
    pub fn unlock_door(&mut self, door_entity: u64) -> (evs: (Option<DoorOpenCloseEvent>, DoorLockEvent))
        ensures
            final(self).settings == old(self).settings,
            final(self).status == spec_unlock_door(old(self).settings.open_door_when_unlocked, old(self).status).0,
            evs.0 == move_event(door_entity, spec_unlock_door(old(self).settings.open_door_when_unlocked, old(self).status).1),
            evs.1 == (DoorLockEvent { door_entity, locked: false }),
    {
        self.status.locked = false;
        let ev = if self.settings.open_door_when_unlocked {
            self.change_doors_state_by_button(door_entity)
        } else {
            None
        };
        (ev, DoorLockEvent { door_entity, locked: false })
    }

    /// One movement update; `in_position` is the number of leaves that
    /// reached their target this frame.
    pub fn advance_movement(&mut self, in_position: i32) -> (step: DoorMovementStep)
        ensures
            final(self).settings == old(self).settings,
            (final(self).status, step) == spec_advance_movement(old(self).settings, old(self).status, in_position),
    {
        if !self.status.enter && !self.status.exit {
            return DoorMovementStep::Idle;
        }
        if self.settings.movement_type == DoorMovementType::Animation || in_position == self.settings.doors_number {
            let opening = self.status.enter;
            self.status.door_state = if opening { DoorCurrentState::Opened } else { DoorCurrentState::Closed };
            self.status.enter = false;
            self.status.exit = false;
            self.status.doors_in_position = 0;
            self.status.moving = false;
            if opening { DoorMovementStep::FinishedOpening } else { DoorMovementStep::FinishedClosing }
        } else {
            self.status.moving = true;
            DoorMovementStep::Moving
        }
    }

    /// Closes a door that was left open for its closing time.
    pub fn close_if_expired(&mut self, door_entity: u64, time_reached: bool) -> (ev: Option<DoorOpenCloseEvent>)
        ensures
            final(self).settings == old(self).settings,
            final(self).status == spec_close_if_expired(old(self).settings.close_after_time, old(self).status, time_reached).0,
            ev == move_event(door_entity, spec_close_if_expired(old(self).settings.close_after_time, old(self).status, time_reached).1),
    {
        if self.settings.close_after_time && self.status.door_state == DoorCurrentState::Opened && !self.status.exit
            && !self.status.enter && !self.status.moving && time_reached {
            self.change_doors_state_by_button(door_entity)
        } else {
            None
        }
    }

    /// Records whether the player stands in the trigger zone; returns the
    /// door-found event on the first check that wants one.
    pub fn detect_player(&mut self, door_entity: u64, player_detected: bool) -> (ev: Option<DoorFoundEvent>)
        ensures
            final(self).settings == old(self).settings,
            final(self).status == spec_detect_player(old(self).settings, old(self).status, player_detected).0,
            ev == (if spec_detect_player(old(self).settings, old(self).status, player_detected).1 {
                Some(DoorFoundEvent { door_entity, locked: old(self).status.locked })
            } else {
                None
            }),
    {
        if self.settings.door_type_info == DoorType::Trigger {
            if player_detected {
                self.status.player_in_trigger_zone = true;
                if !self.status.locked && self.status.door_state == DoorCurrentState::Closed && !self.status.moving {
                    self.status.enter = true;
                }
            } else {
                self.status.player_in_trigger_zone = false;
            }
        }
        if self.settings.use_event_on_door_found && !self.status.door_found {
            let ev = DoorFoundEvent { door_entity, locked: self.status.locked };
            self.status.door_found = true;
            Some(ev)
        } else {
            None
        }
    }

    /// Sets the player using the door.
    pub fn set_current_player(&mut self, player: Option<u64>)
        ensures
            final(self).settings == old(self).settings,
            final(self).status == (DoorStatus { current_player: player, ..old(self).status }),
    {
        self.status.current_player = player;
    }

    /// Open and settled.
    pub fn is_door_opened(&self) -> (r: bool)
        ensures
            r == (self.status.door_state == DoorCurrentState::Opened && !self.status.moving),
    {
        self.status.door_state == DoorCurrentState::Opened && !self.status.moving
    }

    /// Closed and settled.
    pub fn is_door_closed(&self) -> (r: bool)
        ensures
            r == (self.status.door_state == DoorCurrentState::Closed && !self.status.moving),
    {
        self.status.door_state == DoorCurrentState::Closed && !self.status.moving
    }

    /// Last settled open, and moving.
    pub fn is_door_opening(&self) -> (r: bool)
        ensures
            r == (self.status.door_state == DoorCurrentState::Opened && self.status.moving),
    {
        self.status.door_state == DoorCurrentState::Opened && self.status.moving
    }

    /// Last settled closed, and moving.
    pub fn is_door_closing(&self) -> (r: bool)
        ensures
            r == (self.status.door_state == DoorCurrentState::Closed && self.status.moving),
    {
        self.status.door_state == DoorCurrentState::Closed && self.status.moving
    }

    /// Whether the leaves are travelling.
    pub fn door_is_moving(&self) -> (r: bool)
        ensures
            r == self.status.moving,
    {
        self.status.moving
    }

    /// Whether a tag may open the door: it is in the door's tag list.
    pub fn check_if_tag_can_open(&self, tag_to_check: &str) -> (r: bool)
        ensures
            r == exists|i: int| 0 <= i < self.settings.tag_list_to_open@.len()
                && (#[trigger] self.settings.tag_list_to_open@[i])@ == tag_to_check@,
    {
        let mut i: usize = 0;
        while i < self.settings.tag_list_to_open.len()
            invariant
                i <= self.settings.tag_list_to_open@.len(),
                forall|j: int| 0 <= j < i ==> (#[trigger] self.settings.tag_list_to_open@[j])@ != tag_to_check@,
            decreases self.settings.tag_list_to_open.len() - i,
        {
            if str_equals(self.settings.tag_list_to_open[i].as_str(), tag_to_check) {
                return true;
            }
            i = i + 1;
        }
        false
    }

    /// Enables (`false`) or disables (`true`) opening and closing.
    pub fn set_enable_disable_door_open_close_action_value(&mut self, state: bool)
        ensures
            final(self).settings == old(self).settings,
            final(self).status == (DoorStatus { disable_door_open_close_action: state, ..old(self).status }),
    {
        self.status.disable_door_open_close_action = state;
    }

    /// Whether opening and closing are disabled.
    pub fn is_disable_door_open_close_action_active(&self) -> (r: bool)
        ensures
            r == self.status.disable_door_open_close_action,
    {
        self.status.disable_door_open_close_action
    }
}

/// Every door is in exactly one phase: opened, closed, opening or closing.
pub proof fn law_door_phase_is_unique(d: DoorStatus)
    ensures
        (d.door_state == DoorCurrentState::Opened && !d.moving)
            || (d.door_state == DoorCurrentState::Closed && !d.moving)
            || (d.door_state == DoorCurrentState::Opened && d.moving)
            || (d.door_state == DoorCurrentState::Closed && d.moving),
        !((d.door_state == DoorCurrentState::Opened && !d.moving) && (d.door_state == DoorCurrentState::Closed && !d.moving)),
        !((d.door_state == DoorCurrentState::Opened && d.moving) && (d.door_state == DoorCurrentState::Closed && d.moving)),
        !((d.door_state == DoorCurrentState::Opened && d.moving) && !d.moving),
{
}

/// A locked door never starts to open: opening is refused and leaves the
/// door as it was, and a button press starts no opening and leaves `enter`
/// as it was.
pub proof fn law_locked_door_never_starts_opening(d: DoorStatus)
    requires
        d.locked,
    ensures
        spec_open_doors(d) == (d, false),
        spec_change_doors_state_by_button(d).1 != Some(true),
        spec_change_doors_state_by_button(d).0.enter == d.enter,
        spec_change_doors_state_by_button(d).0.locked,
{
}

/// Locking an open door locks it and sends it shut.
pub proof fn law_lock_sends_open_door_shut(d: DoorStatus)
    requires
        d.door_state == DoorCurrentState::Opened,
    ensures
        spec_lock_door(d).locked,
        spec_lock_door(d).exit,
        !spec_lock_door(d).enter,
{
}

/// While opening and closing are disabled, neither a button press nor the
/// closing timer changes the door.
pub proof fn law_disabled_door_ignores_button(close_after_time: bool, d: DoorStatus, time_reached: bool)
    requires
        d.disable_door_open_close_action,
    ensures
        spec_change_doors_state_by_button(d) == (d, None::<bool>),
        spec_close_if_expired(close_after_time, d, time_reached) == (d, None::<bool>),
{
}

/// A closed door at rest that is pressed, moves until settled, is pressed
/// again and moves until settled is back where it started, having opened in
/// between and reported an opening and then a closing.
pub proof fn law_button_round_trip(cfg: DoorSettings, d: DoorStatus, n: i32)
    requires
        cfg.movement_type == DoorMovementType::Animation || n == cfg.doors_number,
        d.door_state == DoorCurrentState::Closed,
        !d.moving,
        !d.enter,
        !d.exit,
        !d.locked,
        !d.disable_door_open_close_action,
        d.doors_in_position == 0,
    ensures
        ({
            let p1 = spec_change_doors_state_by_button(d);
            let m1 = spec_advance_movement(cfg, p1.0, n);
            let p2 = spec_change_doors_state_by_button(m1.0);
            let m2 = spec_advance_movement(cfg, p2.0, n);
            &&& p1.1 == Some(true)
            &&& m1.1 == DoorMovementStep::FinishedOpening
            &&& m1.0.door_state == DoorCurrentState::Opened
            &&& p2.1 == Some(false)
            &&& m2.1 == DoorMovementStep::FinishedClosing
            &&& m2.0 == d
        }),
{
}

impl Default for DoorSystem {
    /// A closed, unlocked door opened by its trigger for the player, closing when the player leaves.
    fn default() -> (d: Self)
        ensures
            d.settings.tag_list_to_open@.len() == 1 && d.settings.tag_list_to_open@[0]@ == "Player"@,
            d.settings.movement_type == DoorMovementType::Translate,
            d.settings.door_type_info == DoorType::Trigger,
            d.settings.open_door_when_unlocked,
            !d.settings.use_sound_on_unlock,
            !d.settings.close_after_time,
            !d.settings.show_gizmo,
            !d.settings.rotate_in_both_directions,
            d.settings.animation_name@ == Seq::<char>::empty(),
            d.settings.close_door_on_trigger_exit,
            !d.settings.use_event_on_open_and_close,
            !d.settings.use_event_on_unlock_door,
            !d.settings.use_event_on_lock_door,
            !d.settings.use_event_on_door_found,
            d.settings.set_map_icons_on_door,
            d.settings.doors_number == 0,
            d.status.door_state == DoorCurrentState::Closed,
            !d.status.locked,
            !d.status.moving,
            !d.status.door_found,
            !d.status.enter,
            !d.status.exit,
            d.status.doors_in_position == 0,
            !d.status.disable_door_open_close_action,
            d.status.current_player is None,
            !d.status.player_in_trigger_zone,
    {
        DoorSystem {
            settings: DoorSettings {
                tag_list_to_open: { let mut v: Vec<String> = Vec::new(); v.push("Player".to_owned()); v },
                movement_type: DoorMovementType::Translate,
                door_type_info: DoorType::Trigger,
                open_door_when_unlocked: true,
                use_sound_on_unlock: false,
                close_after_time: false,
                show_gizmo: false,
                rotate_in_both_directions: false,
                animation_name: String::new(),
                close_door_on_trigger_exit: true,
                use_event_on_open_and_close: false,
                use_event_on_unlock_door: false,
                use_event_on_lock_door: false,
                use_event_on_door_found: false,
                set_map_icons_on_door: true,
                doors_number: 0,
            },
            status: DoorStatus {
                door_state: DoorCurrentState::Closed,
                locked: false,
                moving: false,
                door_found: false,
                enter: false,
                exit: false,
                doors_in_position: 0,
                disable_door_open_close_action: false,
                current_player: None,
                player_in_trigger_zone: false,
            },
        }
    }
}


/// A trigger door opens for the player standing in its zone: when it is
/// closed, unlocked and at rest, detecting the player starts it opening,
/// and once its leaves arrive it is open with the player in its zone. A
/// locked trigger door, or a door of another kind, does not start opening.
pub proof fn law_trigger_door_opens_for_player(cfg: DoorSettings, d: DoorStatus, n: i32)
    requires
        cfg.movement_type == DoorMovementType::Animation || n == cfg.doors_number,
    ensures
        cfg.door_type_info == DoorType::Trigger && d.door_state == DoorCurrentState::Closed && !d.locked && !d.moving ==> {
            let seen = spec_detect_player(cfg, d, true).0;
            let moved = spec_advance_movement(cfg, seen, n);
            &&& seen.enter
            &&& seen.player_in_trigger_zone
            &&& moved.1 == DoorMovementStep::FinishedOpening
            &&& moved.0.door_state == DoorCurrentState::Opened
            &&& moved.0.player_in_trigger_zone
        },
        d.locked || cfg.door_type_info != DoorType::Trigger ==>
            spec_detect_player(cfg, d, true).0.enter == d.enter,
{
}

} // verus!
