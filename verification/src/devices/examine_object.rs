//! Examinable objects: the player picks an object up to look at it, and may
//! press marked places on it, which can show messages or end the examination.

use vstd::prelude::*;

verus! {

/// A place on an examined object that can be pressed.
#[derive(Debug)]
pub struct ExaminePlaceInfo {
    pub name: String,
    /// Bits of the entity that marks the place.
    pub examine_place_transform: Option<u64>,
    pub show_message_on_press: bool,
    pub message_on_press: String,
    pub use_event_on_press: bool,
    pub send_player_on_event: bool,
    pub stop_use_object_on_press: bool,
    pub disable_object_interaction_on_press: bool,
    pub remove_object_from_devices_list: bool,
    pub resume_player_interaction_button_on_press: bool,
    pub pause_player_interaction_button_on_press: bool,
    pub disable_element_place_after_press: bool,
    pub element_place_disabled: bool,
    pub use_sound_on_press: bool,
    pub has_sound_on_press: bool,
}

/// What can happen to an examined object.
#[derive(Debug)]
pub enum ExamineObjectEventType {
    /// Starts the examination, or ends it when it is running.
    Start,
    Stop,
    Cancel,
    /// The place marked by this entity was pressed.
    CheckPlace(u64),
    /// Enables (`true`) or disables the place marked by this entity.
    SetPlaceEnabled(u64, bool),
    /// Shows a message; its duration is that of the place at this index,
    /// or none for the object's own message.
    ShowMessage(String, Option<usize>),
    HideMessage,
}

/// An event addressed to an examined object.
#[derive(Debug)]
pub struct ExamineObjectEvent {
    pub examine_entity: u64,
    pub event_type: ExamineObjectEventType,
}

/// How an examinable object is set up. Speeds and durations are the game's.
#[derive(Debug, Clone)]
pub struct ExamineObjectSettings {
    pub object_can_be_rotated: bool,
    pub horizontal_rotation_enabled: bool,
    pub vertical_rotation_enabled: bool,
    pub zoom_can_be_used: bool,
    pub rotation_enabled: bool,
    pub activate_action_screen: bool,
    pub action_screen_name: String,
    pub use_examine_message: bool,
    pub examine_message: String,
    /// Places count only when pressed in order.
    pub press_places_in_order: bool,
    pub use_incorrect_place_pressed_message: bool,
    pub incorrect_place_pressed_message: String,
    pub object_uses_canvas: bool,
    pub use_trigger_on_top_of_canvas: bool,
    pub trigger_on_top_of_canvas: Option<u64>,
    pub object_transform: Option<u64>,
    pub move_device_to_camera: Option<u64>,
    pub electronic_device: Option<u64>,
    pub main_collider: Option<u64>,
    pub main_audio_source: Option<u64>,
    pub touch_platform: bool,
    pub device_camera: Option<u64>,
    pub examine_object_system_player_manager: Option<u64>,
    pub using_devices_system: Option<u64>,
    pub player_input: Option<u64>,
    pub main_player_components_manager: Option<u64>,
    pub use_secondary_cancel_examine_function: bool,
}

/// What an examinable object is doing.
#[derive(Debug, Clone, Copy, PartialEq, Eq, Structural)]
pub struct ExamineObjectStatus {
    pub using_device: bool,
    pub current_player: Option<u64>,
    pub rotation_paused: bool,
    pub showing_message: bool,
    pub touching: bool,
    pub current_place_pressed_index: i32,
}

/// An examinable object.
#[derive(Debug)]
pub struct ExamineObject {
    pub settings: ExamineObjectSettings,
    pub status: ExamineObjectStatus,
    pub examine_place_list: Vec<ExaminePlaceInfo>,
}

/// The place is marked by `e`.
pub open spec fn place_at(p: ExaminePlaceInfo, e: u64) -> bool {
    p.examine_place_transform == Some(e)
}

/// `i` is the first place marked by `e`.
pub open spec fn is_first_place(places: Seq<ExaminePlaceInfo>, e: u64, i: int) -> bool {
    &&& 0 <= i < places.len()
    &&& place_at(places[i], e)
    &&& forall|j: int| 0 <= j < i ==> !place_at(#[trigger] places[j], e)
}

/// No place is marked by `e`.
pub open spec fn no_place(places: Seq<ExaminePlaceInfo>, e: u64) -> bool {
    forall|j: int| 0 <= j < places.len() ==> !place_at(#[trigger] places[j], e)
}

/// The first place marked by `e` with its disabled flag set to `disabled`;
/// the list unchanged when no place is marked by `e`.
pub open spec fn with_first_disabled(places: Seq<ExaminePlaceInfo>, e: u64, disabled: bool) -> Seq<ExaminePlaceInfo> {
    if exists|i: int| is_first_place(places, e, i) {
        let i = choose|i: int| is_first_place(places, e, i);
        places.update(i, ExaminePlaceInfo { element_place_disabled: disabled, ..places[i] })
    } else {
        places
    }
}

/// A press of `e` counts for this place.
pub open spec fn place_pressed(p: ExaminePlaceInfo, e: u64, in_order: bool) -> bool {
    place_at(p, e) && !p.element_place_disabled && in_order
}

/// What pressing the place at index `i` sends.
pub open spec fn place_press_events(p: ExaminePlaceInfo, i: int) -> Seq<ExamineObjectEventType> {
    let msg: Seq<ExamineObjectEventType> = if p.show_message_on_press {
        seq![ExamineObjectEventType::ShowMessage(p.message_on_press, Some(i as usize))]
    } else {
        Seq::empty()
    };
    let stop: Seq<ExamineObjectEventType> = if p.stop_use_object_on_press {
        seq![ExamineObjectEventType::Stop]
    } else {
        Seq::empty()
    };
    msg + stop
}

/// The events sent by pressing `e`, over the first `n` places.
pub open spec fn check_place_events(places: Seq<ExaminePlaceInfo>, e: u64, in_order: bool, n: nat) -> Seq<ExamineObjectEventType>
    decreases n,
{
    if n == 0 {
        Seq::empty()
    } else {
        let k = (n - 1) as nat;
        check_place_events(places, e, in_order, k) + if place_pressed(places[k as int], e, in_order) {
            place_press_events(places[k as int], k as int)
        } else {
            Seq::empty()
        }
    }
}

/// A place after a press of `e`: it disables itself when it should.
pub open spec fn after_press(p: ExaminePlaceInfo, e: u64, in_order: bool) -> ExaminePlaceInfo {
    if place_pressed(p, e, in_order) && p.disable_element_place_after_press {
        ExaminePlaceInfo { element_place_disabled: true, ..p }
    } else {
        p
    }
}

/// What an event does to the object's status.
pub open spec fn status_after_event(st: ExamineObjectStatus, ev: ExamineObjectEventType) -> ExamineObjectStatus {
    match ev {
        ExamineObjectEventType::Start => if st.using_device {
            ExamineObjectStatus { using_device: false, showing_message: false, ..st }
        } else {
            ExamineObjectStatus { using_device: true, ..st }
        },
        ExamineObjectEventType::Stop => ExamineObjectStatus {
            using_device: false,
            showing_message: false,
            rotation_paused: false,
            ..st
        },
        ExamineObjectEventType::ShowMessage(_, _) => ExamineObjectStatus { showing_message: true, ..st },
        ExamineObjectEventType::HideMessage => ExamineObjectStatus { showing_message: false, ..st },
        _ => st,
    }
}

/// What an event does to the places, and what it sends on.
pub open spec fn places_after_event(places: Seq<ExaminePlaceInfo>, in_order: bool, ev: ExamineObjectEventType) -> (Seq<ExaminePlaceInfo>, Seq<ExamineObjectEventType>) {
    match ev {
        ExamineObjectEventType::CheckPlace(e) => (
            places.map_values(|p: ExaminePlaceInfo| after_press(p, e, in_order)),
            check_place_events(places, e, in_order, places.len()),
        ),
        ExamineObjectEventType::SetPlaceEnabled(e, enabled) => (with_first_disabled(places, e, !enabled), Seq::empty()),
        _ => (places, Seq::empty()),
    }
}

/// The events the examination keys send while the object is examined.
pub open spec fn input_events(cfg: ExamineObjectSettings, using: bool, escape: bool, tab: bool, reset: bool) -> Seq<ExamineObjectEventType> {
    if !using {
        Seq::empty()
    } else {
        let a: Seq<ExamineObjectEventType> = if escape && cfg.use_secondary_cancel_examine_function {
            seq![ExamineObjectEventType::Cancel]
        } else {
            Seq::empty()
        };
        let b: Seq<ExamineObjectEventType> = if tab && cfg.use_examine_message {
            seq![ExamineObjectEventType::ShowMessage(cfg.examine_message, None)]
        } else {
            Seq::empty()
        };
        let c: Seq<ExamineObjectEventType> = if reset && cfg.zoom_can_be_used {
            seq![ExamineObjectEventType::Start]
        } else {
            Seq::empty()
        };
        a + b + c
    }
}

proof fn lemma_first_place_unique(places: Seq<ExaminePlaceInfo>, e: u64, i: int)
    requires
        is_first_place(places, e, i),
    ensures
        (choose|k: int| is_first_place(places, e, k)) == i,
{
    let k = choose|k: int| is_first_place(places, e, k);
    assert(is_first_place(places, e, k));
    if k < i {
        assert(!place_at(places[k], e));
    }
    if i < k {
        assert(!place_at(places[i], e));
    }
}

/// The index of the first place marked by `e`.
fn find_place(places: &Vec<ExaminePlaceInfo>, e: u64) -> (r: Option<usize>)
    ensures
        r matches Some(i) ==> is_first_place(places@, e, i as int),
        r is None ==> no_place(places@, e),
{
    let mut i: usize = 0;
    while i < places.len()
        invariant
            i <= places@.len(),
            forall|j: int| 0 <= j < i ==> !place_at(#[trigger] places@[j], e),
        decreases places.len() - i,
    {
        if places[i].examine_place_transform == Some(e) {
            return Some(i);
        }
        i = i + 1;
    }
    None
}

/// Sets the disabled flag of the first place marked by `e`.
fn set_first_disabled(places: &mut Vec<ExaminePlaceInfo>, e: u64, disabled: bool)
    ensures
        final(places)@ == with_first_disabled(old(places)@, e, disabled),
{
    match find_place(places, e) {
        Some(i) => {
            let ghost orig = places@;
            let mut p = places.remove(i);
            p.element_place_disabled = disabled;
            places.insert(i, p);
            proof {
                lemma_first_place_unique(orig, e, i as int);
                assert(places@ =~= with_first_disabled(orig, e, disabled));
            }
        },
        None => {
            assert(!exists|i: int| is_first_place(places@, e, i));
        },
    }
}

impl ExamineObject {
    /// Applies an event addressed to this object; returns the events it sends on.
    pub fn apply_event(&mut self, ev: ExamineObjectEventType) -> (sent: Vec<ExamineObjectEventType>)
        ensures
            final(self).settings == old(self).settings,
            final(self).status == status_after_event(old(self).status, ev),
            (final(self).examine_place_list@, sent@)
                == places_after_event(old(self).examine_place_list@, old(self).settings.press_places_in_order, ev),
    {
        let mut sent: Vec<ExamineObjectEventType> = Vec::new();
        match ev {
            ExamineObjectEventType::Start => {
                self.status.using_device = !self.status.using_device;
                if !self.status.using_device {
                    self.status.showing_message = false;
                }
            },
            ExamineObjectEventType::Stop => {
                self.status.using_device = false;
                self.status.showing_message = false;
                self.status.rotation_paused = false;
            },
            ExamineObjectEventType::Cancel => {},
            ExamineObjectEventType::CheckPlace(e) => {
                sent = self.press_place(e);
            },
            ExamineObjectEventType::SetPlaceEnabled(e, enabled) => {
                set_first_disabled(&mut self.examine_place_list, e, !enabled);
            },
            ExamineObjectEventType::ShowMessage(_, _) => {
                self.status.showing_message = true;
            },
            ExamineObjectEventType::HideMessage => {
                self.status.showing_message = false;
            },
        }
        assert(sent@ =~= places_after_event(old(self).examine_place_list@, old(self).settings.press_places_in_order, ev).1);
        sent
    }

    /// A press of the place marked by `e`: every enabled place so marked
    /// sends its message and its stop, and disables itself if it should,
    /// when places are pressed in order.
    fn press_place(&mut self, e: u64) -> (sent: Vec<ExamineObjectEventType>)
        ensures
            final(self).settings == old(self).settings,
            final(self).status == old(self).status,
            final(self).examine_place_list@ == old(self).examine_place_list@.map_values(
                |p: ExaminePlaceInfo| after_press(p, e, old(self).settings.press_places_in_order),
            ),
            sent@ == check_place_events(
                old(self).examine_place_list@,
                e,
                old(self).settings.press_places_in_order,
                old(self).examine_place_list@.len(),
            ),
    {
        let in_order = self.settings.press_places_in_order;
        let ghost orig = self.examine_place_list@;
        let mut sent: Vec<ExamineObjectEventType> = Vec::new();
        let mut i: usize = 0;
        while i < self.examine_place_list.len()
            invariant
                i <= self.examine_place_list@.len(),
                self.examine_place_list@.len() == orig.len(),
                in_order == self.settings.press_places_in_order,
                self.settings == old(self).settings,
                self.status == old(self).status,
                orig == old(self).examine_place_list@,
                forall|j: int| 0 <= j < i ==> #[trigger] self.examine_place_list@[j] == after_press(orig[j], e, in_order),
                forall|j: int| i <= j < orig.len() ==> #[trigger] self.examine_place_list@[j] == orig[j],
                sent@ == check_place_events(orig, e, in_order, i as nat),
            decreases self.examine_place_list@.len() - i,
        {
            let ghost before = self.examine_place_list@;
            let mut p = self.examine_place_list.remove(i);
            let ghost sent_before = sent@;
            if p.examine_place_transform == Some(e) && !p.element_place_disabled && in_order {
                if p.show_message_on_press {
                    sent.push(ExamineObjectEventType::ShowMessage(p.message_on_press.clone(), Some(i)));
                }
                if p.stop_use_object_on_press {
                    sent.push(ExamineObjectEventType::Stop);
                }
                if p.disable_element_place_after_press {
                    p.element_place_disabled = true;
                }
            }
            assert(sent@ =~= sent_before + if place_pressed(orig[i as int], e, in_order) {
                place_press_events(orig[i as int], i as int)
            } else {
                Seq::<ExamineObjectEventType>::empty()
            });
            self.examine_place_list.insert(i, p);
            proof {
                assert(self.examine_place_list@ =~= before.update(i as int, after_press(orig[i as int], e, in_order)));
            }
            i = i + 1;
        }
        assert(self.examine_place_list@ =~= orig.map_values(|p: ExaminePlaceInfo| after_press(p, e, in_order)));
        sent
    }

    /// The events the examination keys send this frame.
    pub fn examine_input(&self, escape: bool, tab: bool, reset: bool) -> (sent: Vec<ExamineObjectEventType>)
        ensures
            sent@ == input_events(self.settings, self.status.using_device, escape, tab, reset),
    {
        let mut sent: Vec<ExamineObjectEventType> = Vec::new();
        if !self.status.using_device {
            return sent;
        }
        if escape && self.settings.use_secondary_cancel_examine_function {
            sent.push(ExamineObjectEventType::Cancel);
        }
        if tab && self.settings.use_examine_message {
            sent.push(ExamineObjectEventType::ShowMessage(self.settings.examine_message.clone(), None));
        }
        if reset && self.settings.zoom_can_be_used {
            sent.push(ExamineObjectEventType::Start);
        }
        assert(sent@ =~= input_events(self.settings, self.status.using_device, escape, tab, reset));
        sent
    }

    /// Starts or ends the examination; ending it releases the object.
    pub fn set_examine_device_state(&mut self, state: bool)
        ensures
            final(self).settings == old(self).settings,
            final(self).examine_place_list == old(self).examine_place_list,
            final(self).status == (if state {
                ExamineObjectStatus { using_device: true, ..old(self).status }
            } else {
                ExamineObjectStatus { using_device: false, touching: false, rotation_paused: false, ..old(self).status }
            }),
    {
        self.status.using_device = state;
        if !state {
            self.status.touching = false;
            self.status.rotation_paused = false;
        }
    }

    /// Lets the object turn (`true`) or holds it still.
    pub fn set_rotation_state(&mut self, state: bool)
        ensures
            final(self).settings == old(self).settings,
            final(self).examine_place_list == old(self).examine_place_list,
            final(self).status == (ExamineObjectStatus { rotation_paused: !state, ..old(self).status }),
    {
        self.status.rotation_paused = !state;
    }

    pub fn show_examine_message(&mut self, state: bool)
        ensures
            final(self).settings == old(self).settings,
            final(self).examine_place_list == old(self).examine_place_list,
            final(self).status == (ExamineObjectStatus { showing_message: state, ..old(self).status }),
    {
        self.status.showing_message = state;
    }

    pub fn stop_examine_device(&mut self)
        ensures
            final(self).settings == old(self).settings,
            final(self).examine_place_list == old(self).examine_place_list,
            final(self).status == (ExamineObjectStatus { using_device: false, ..old(self).status }),
    {
        self.status.using_device = false;
    }

    /// Ends the examination; the game also turns the object's collider off
    /// and takes it off the device list.
    pub fn disable_and_remove_examine_device(&mut self)
        ensures
            final(self).settings == old(self).settings,
            final(self).examine_place_list == old(self).examine_place_list,
            final(self).status == (ExamineObjectStatus { using_device: false, ..old(self).status }),
    {
        self.status.using_device = false;
    }

    /// Whether a press of the place marked by `e` counts: the first place so
    /// marked must exist and be enabled.
    pub fn check_examine_place_info(&self, e: u64) -> (r: bool)
        ensures
            r == exists|i: int| is_first_place(self.examine_place_list@, e, i)
                && !self.examine_place_list@[i].element_place_disabled,
    {
        match find_place(&self.examine_place_list, e) {
            Some(i) => {
                proof {
                    if exists|k: int| is_first_place(self.examine_place_list@, e, k)
                        && !self.examine_place_list@[k].element_place_disabled {
                        let k = choose|k: int| is_first_place(self.examine_place_list@, e, k)
                            && !self.examine_place_list@[k].element_place_disabled;
                        lemma_first_place_unique(self.examine_place_list@, e, k);
                        lemma_first_place_unique(self.examine_place_list@, e, i as int);
                    }
                }
                !self.examine_place_list[i].element_place_disabled
            },
            None => false,
        }
    }

    /// Disables the first place marked by `e`.
    pub fn set_examine_place_enabled_state(&mut self, e: u64)
        ensures
            final(self).settings == old(self).settings,
            final(self).status == old(self).status,
            final(self).examine_place_list@ == with_first_disabled(old(self).examine_place_list@, e, true),
    {
        set_first_disabled(&mut self.examine_place_list, e, true);
    }
}

/// Starting an examination twice ends it, with no message left on screen.
pub proof fn law_start_twice_ends(st: ExamineObjectStatus)
    requires
        !st.using_device,
    ensures
        !status_after_event(status_after_event(st, ExamineObjectEventType::Start), ExamineObjectEventType::Start).using_device,
        !status_after_event(status_after_event(st, ExamineObjectEventType::Start), ExamineObjectEventType::Start).showing_message,
{
}

/// A place that disables itself after a press does not count a second press.
pub proof fn law_disabled_place_ignores_press(places: Seq<ExaminePlaceInfo>, e: u64, in_order: bool, i: int)
    requires
        0 <= i < places.len(),
        place_pressed(places[i], e, in_order),
        places[i].disable_element_place_after_press,
    ensures
        !place_pressed(after_press(places[i], e, in_order), e, in_order),
{
}

impl Default for ExamineObject {
    /// An object that can be turned and zoomed, with no places and no message.
    fn default() -> (d: Self)
        ensures
            d.settings.object_can_be_rotated,
            d.settings.horizontal_rotation_enabled,
            d.settings.vertical_rotation_enabled,
            d.settings.zoom_can_be_used,
            d.settings.rotation_enabled,
            d.settings.activate_action_screen,
            !d.settings.use_examine_message,
            !d.settings.press_places_in_order,
            !d.settings.use_incorrect_place_pressed_message,
            !d.settings.object_uses_canvas,
            !d.settings.use_trigger_on_top_of_canvas,
            !d.settings.touch_platform,
            !d.settings.use_secondary_cancel_examine_function,
            d.settings.trigger_on_top_of_canvas is None,
            d.settings.object_transform is None,
            d.settings.move_device_to_camera is None,
            d.settings.electronic_device is None,
            d.settings.main_collider is None,
            d.settings.main_audio_source is None,
            d.settings.device_camera is None,
            d.settings.examine_object_system_player_manager is None,
            d.settings.using_devices_system is None,
            d.settings.player_input is None,
            d.settings.main_player_components_manager is None,
            d.settings.action_screen_name@ == "Examine Object"@,
            d.settings.examine_message@ == Seq::<char>::empty(),
            d.settings.incorrect_place_pressed_message@ == Seq::<char>::empty(),
            !d.status.using_device,
            d.status.current_player is None,
            !d.status.rotation_paused,
            !d.status.showing_message,
            !d.status.touching,
            d.status.current_place_pressed_index == 0,
            d.examine_place_list@.len() == 0,
    {
        ExamineObject {
            settings: ExamineObjectSettings {
                object_can_be_rotated: true,
                horizontal_rotation_enabled: true,
                vertical_rotation_enabled: true,
                zoom_can_be_used: true,
                rotation_enabled: true,
                activate_action_screen: true,
                use_examine_message: false,
                press_places_in_order: false,
                use_incorrect_place_pressed_message: false,
                object_uses_canvas: false,
                use_trigger_on_top_of_canvas: false,
                touch_platform: false,
                use_secondary_cancel_examine_function: false,
                trigger_on_top_of_canvas: None,
                object_transform: None,
                move_device_to_camera: None,
                electronic_device: None,
                main_collider: None,
                main_audio_source: None,
                device_camera: None,
                examine_object_system_player_manager: None,
                using_devices_system: None,
                player_input: None,
                main_player_components_manager: None,
                action_screen_name: "Examine Object".to_owned(),
                examine_message: String::new(),
                incorrect_place_pressed_message: String::new(),
            },
            status: ExamineObjectStatus {
                using_device: false,
                current_player: None,
                rotation_paused: false,
                showing_message: false,
                touching: false,
                current_place_pressed_index: 0,
            },
            examine_place_list: Vec::new(),
        }
    }
}

} // verus!
