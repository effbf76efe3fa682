//! A simple switch: a momentary button (single mode) or an on/off toggle
//! (dual mode) that sends events to a target when pressed.

use vstd::prelude::*;

verus! {

/// What a switch event says happened.
#[derive(Debug, Clone, Copy, PartialEq, Eq, Structural)]
pub enum SimpleSwitchEventType {
    /// A momentary press.
    SingleSwitch,
    /// A toggle switch was turned on.
    TurnOn,
    /// A toggle switch was turned off.
    TurnOff,
}

/// An event sent by a pressed switch.
#[derive(Debug, Clone, Copy, PartialEq, Eq, Structural)]
pub struct SimpleSwitchEvent {
    pub switch_entity: u64,
    pub event_type: SimpleSwitchEventType,
    pub target_entity: Option<u64>,
    pub parameter: Option<u64>,
}

/// How a switch is configured.
#[derive(Debug, Clone)]
pub struct SimpleSwitchSettings {
    /// Whether pressing plays a sound.
    pub has_press_sound: bool,
    /// Sends the current user to the target object.
    pub send_current_user: bool,
    /// Refuses presses while its animation plays.
    pub not_usable_while_animation_is_playing: bool,
    /// Momentary button (`true`) or on/off toggle.
    pub use_single_switch: bool,
    pub button_uses_animation: bool,
    pub switch_animation_name: String,
    /// Whether the switch has an animation clip.
    pub has_animation: bool,
    /// Sends typed events rather than a call to a named function.
    pub use_unity_events: bool,
    pub object_to_active: Option<u64>,
    pub active_function_name: String,
    /// Passes the switch itself along with the call.
    pub send_this_button: bool,
    pub audio_source: Option<u64>,
    /// The device whose action text follows the toggle.
    pub device_string_action: Option<u64>,
}

/// What a switch is doing.
#[derive(Debug, Clone, Copy, PartialEq, Eq, Structural)]
pub struct SimpleSwitchStatus {
    pub enabled: bool,
    /// The toggle's state (dual mode).
    pub switch_turned_on: bool,
    pub first_animation_play: bool,
    pub current_player: Option<u64>,
}

/// A simple switch.
#[derive(Debug, Clone)]
pub struct SimpleSwitch {
    pub settings: SimpleSwitchSettings,
    pub status: SimpleSwitchStatus,
}

/// What a press asks of the game besides the events.
#[derive(Debug, Clone)]
pub struct SwitchPress {
    /// Play the press sound.
    pub play_sound: bool,
    /// Set the action text of this device to the first (`true`) or second action.
    pub string_action: Option<(u64, bool)>,
    /// The events, in the order they are sent.
    pub events: Vec<SimpleSwitchEvent>,
}

/// A press is taken when the switch is enabled and its animation does not
/// forbid it: a switch that animates and refuses presses during its animation
/// needs an animation clip to be pressed at all.
pub open spec fn switch_usable(cfg: SimpleSwitchSettings, st: SimpleSwitchStatus) -> bool {
    &&& st.enabled
    &&& (!cfg.button_uses_animation || !cfg.not_usable_while_animation_is_playing || cfg.has_animation)
}

/// The switch after a press: a toggle flips, and the first animation has played.
pub open spec fn pressed_status(cfg: SimpleSwitchSettings, st: SimpleSwitchStatus) -> SimpleSwitchStatus {
    SimpleSwitchStatus {
        switch_turned_on: if cfg.use_single_switch { st.switch_turned_on } else { !st.switch_turned_on },
        first_animation_play: false,
        ..st
    }
}

/// The events of a press, given the switch after the press.
pub open spec fn press_events(cfg: SimpleSwitchSettings, after: SimpleSwitchStatus, me: u64) -> Seq<SimpleSwitchEvent> {
    let user: Seq<SimpleSwitchEvent> = if cfg.send_current_user && cfg.object_to_active is Some {
        seq![SimpleSwitchEvent {
            switch_entity: me,
            event_type: SimpleSwitchEventType::SingleSwitch,
            target_entity: cfg.object_to_active,
            parameter: after.current_player,
        }]
    } else {
        Seq::empty()
    };
    let main: Seq<SimpleSwitchEvent> = if cfg.use_unity_events {
        let kind = if cfg.use_single_switch {
            SimpleSwitchEventType::SingleSwitch
        } else if after.switch_turned_on {
            SimpleSwitchEventType::TurnOn
        } else {
            SimpleSwitchEventType::TurnOff
        };
        seq![SimpleSwitchEvent { switch_entity: me, event_type: kind, target_entity: cfg.object_to_active, parameter: None }]
    } else if cfg.object_to_active is Some {
        seq![SimpleSwitchEvent {
            switch_entity: me,
            event_type: SimpleSwitchEventType::SingleSwitch,
            target_entity: cfg.object_to_active,
            parameter: if cfg.send_this_button { Some(me) } else { None },
        }]
    } else {
        Seq::empty()
    };
    user + main
}

/// The action-text change a press asks for: only a toggle with a device asks.
pub open spec fn press_string_action(cfg: SimpleSwitchSettings, after: SimpleSwitchStatus) -> Option<(u64, bool)> {
    if !cfg.use_single_switch && cfg.device_string_action is Some {
        Some((cfg.device_string_action->0, after.switch_turned_on))
    } else {
        None
    }
}

impl SimpleSwitch {
    /// Presses the switch. `None` when the press is refused, and then nothing
    /// changes; otherwise the switch moves to its pressed state and the result
    /// says what to play, which action text to set and which events to send.
    pub fn activate_switch(&mut self, switch_entity: u64) -> (r: Option<SwitchPress>)
        ensures
            final(self).settings == old(self).settings,
            r is None <==> !switch_usable(old(self).settings, old(self).status),
            r is None ==> final(self).status == old(self).status,
            r matches Some(p) ==> {
                &&& final(self).status == pressed_status(old(self).settings, old(self).status)
                &&& p.play_sound == old(self).settings.has_press_sound
                &&& p.string_action == press_string_action(old(self).settings, final(self).status)
                &&& p.events@ == press_events(old(self).settings, final(self).status, switch_entity)
            },
    {
        if !self.status.enabled {
            return None;
        }
        let can_use_button = !self.settings.button_uses_animation
            || !self.settings.not_usable_while_animation_is_playing
            || self.settings.has_animation;
        if !can_use_button {
            return None;
        }
        let play_sound = self.settings.has_press_sound;
        let mut string_action: Option<(u64, bool)> = None;
        if self.settings.use_single_switch {
            self.status.first_animation_play = false;
        } else {
            self.status.switch_turned_on = !self.status.switch_turned_on;
            self.status.first_animation_play = false;
            if let Some(e) = self.settings.device_string_action {
                string_action = Some((e, self.status.switch_turned_on));
            }
        }
        let mut events: Vec<SimpleSwitchEvent> = Vec::new();
        if self.settings.send_current_user {
            if let Some(target) = self.settings.object_to_active {
                events.push(SimpleSwitchEvent {
                    switch_entity,
                    event_type: SimpleSwitchEventType::SingleSwitch,
                    target_entity: Some(target),
                    parameter: self.status.current_player,
                });
            }
        }
        if self.settings.use_unity_events {
            let kind = if self.settings.use_single_switch {
                SimpleSwitchEventType::SingleSwitch
            } else if self.status.switch_turned_on {
                SimpleSwitchEventType::TurnOn
            } else {
                SimpleSwitchEventType::TurnOff
            };
            events.push(SimpleSwitchEvent {
                switch_entity,
                event_type: kind,
                target_entity: self.settings.object_to_active,
                parameter: None,
            });
        } else if let Some(target) = self.settings.object_to_active {
            let parameter = if self.settings.send_this_button { Some(switch_entity) } else { None };
            events.push(SimpleSwitchEvent {
                switch_entity,
                event_type: SimpleSwitchEventType::SingleSwitch,
                target_entity: Some(target),
                parameter,
            });
        }
        assert(events@ =~= press_events(self.settings, self.status, switch_entity));
        Some(SwitchPress { play_sound, string_action, events })
    }

    /// Sets the player using the switch.
    pub fn set_current_player(&mut self, player: Option<u64>)
        ensures
            final(self).settings == old(self).settings,
            final(self).status == (SimpleSwitchStatus { current_player: player, ..old(self).status }),
    {
        self.status.current_player = player;
    }

    /// Enables or disables the switch.
    pub fn set_enabled(&mut self, state: bool)
        ensures
            final(self).settings == old(self).settings,
            final(self).status == (SimpleSwitchStatus { enabled: state, ..old(self).status }),
    {
        self.status.enabled = state;
    }

    /// Flips whether the switch is enabled.
    pub fn activate(&mut self)
        ensures
            final(self).settings == old(self).settings,
            final(self).status == (SimpleSwitchStatus { enabled: !old(self).status.enabled, ..old(self).status }),
    {
        self.status.enabled = !self.status.enabled;
    }

    /// Sets the toggle's state.
    pub fn set_device_string_action_state(&mut self, state: bool)
        ensures
            final(self).settings == old(self).settings,
            final(self).status == (SimpleSwitchStatus { switch_turned_on: state, ..old(self).status }),
    {
        self.status.switch_turned_on = state;
    }
}

/// Pressing a toggle twice puts it back in the state it had, and the two
/// presses announce opposite states.
pub proof fn law_toggle_twice_restores(cfg: SimpleSwitchSettings, st: SimpleSwitchStatus, me: u64)
    requires
        !cfg.use_single_switch,
        switch_usable(cfg, st),
    ensures
        switch_usable(cfg, pressed_status(cfg, st)),
        pressed_status(cfg, pressed_status(cfg, st)).switch_turned_on == st.switch_turned_on,
        pressed_status(cfg, st).switch_turned_on != st.switch_turned_on,
        cfg.use_unity_events ==> press_events(cfg, pressed_status(cfg, st), me).last().event_type
            != press_events(cfg, pressed_status(cfg, pressed_status(cfg, st)), me).last().event_type,
{
}

/// A momentary switch never changes its toggle state.
pub proof fn law_single_switch_keeps_state(cfg: SimpleSwitchSettings, st: SimpleSwitchStatus)
    requires
        cfg.use_single_switch,
    ensures
        pressed_status(cfg, st).switch_turned_on == st.switch_turned_on,
        press_string_action(cfg, pressed_status(cfg, st)) is None,
{
}

impl Default for SimpleSwitch {
    /// An enabled momentary switch that animates and sends typed events.
    fn default() -> (d: Self)
        ensures
            !d.settings.has_press_sound,
            !d.settings.send_current_user,
            d.settings.not_usable_while_animation_is_playing,
            d.settings.use_single_switch,
            d.settings.button_uses_animation,
            d.settings.switch_animation_name@ == "simpleSwitch"@,
            !d.settings.has_animation,
            d.settings.use_unity_events,
            d.settings.object_to_active is None,
            d.settings.active_function_name@ == Seq::<char>::empty(),
            !d.settings.send_this_button,
            d.settings.audio_source is None,
            d.settings.device_string_action is None,
            d.status.enabled,
            !d.status.switch_turned_on,
            d.status.first_animation_play,
            d.status.current_player is None,
    {
        SimpleSwitch {
            settings: SimpleSwitchSettings {
                has_press_sound: false,
                send_current_user: false,
                not_usable_while_animation_is_playing: true,
                use_single_switch: true,
                button_uses_animation: true,
                switch_animation_name: "simpleSwitch".to_owned(),
                has_animation: false,
                use_unity_events: true,
                object_to_active: None,
                active_function_name: String::new(),
                send_this_button: false,
                audio_source: None,
                device_string_action: None,
            },
            status: SimpleSwitchStatus {
                enabled: true,
                switch_turned_on: false,
                first_animation_play: true,
                current_player: None,
            },
        }
    }
}

} // verus!
