//! The player's side of devices: the list of devices in reach, which one
//! the interaction button uses, and what using it toggles.

use vstd::prelude::*;
use crate::lists::{contains_entity, contains_name, has_name};
use crate::devices::electronic_device::{ElectronicDevice, ElectronicDeviceStatus};
use crate::devices::string_action::{DeviceStringAction, DeviceStringActionSettings};

verus! {

/// What the player knows of a device in reach. Offsets, distances and
/// transforms are the game's.
#[derive(Debug, Clone, Copy, PartialEq, Eq, Structural)]
pub struct DeviceInfo {
    pub device_entity: Option<u64>,
    pub use_transform_for_string_action: bool,
    pub use_separated_transform_for_every_view: bool,
    pub use_local_offset: bool,
    pub device_icon_entity: Option<u64>,
    pub use_custom_min_distance_to_use_device: bool,
    pub use_custom_min_angle_to_use: bool,
    pub use_relative_direction_between_player_and_object: bool,
    pub ignore_use_only_device_if_visible_on_camera: bool,
    pub use_custom_device_transform_position: bool,
    pub use_fixed_device_icon_position: bool,
    pub check_if_obstacle_between_device_and_player: bool,
}

/// The devices in reach, and their entities in the same order.
#[derive(Debug, Clone)]
pub struct DeviceList {
    pub devices: Vec<DeviceInfo>,
    pub device_entities: Vec<u64>,
}

/// How the player finds and uses devices. Distances, timings, colours and
/// screen geometry are the game's.
#[derive(Debug, Clone)]
pub struct UsingDevicesSettings {
    pub layer: u32,
    pub searching_devices_with_raycast: bool,
    pub use_fixed_device_icon_position: bool,
    pub device_on_screen_if_use_fixed_icon_position: bool,
    pub get_closest_device_to_camera_center: bool,
    pub use_max_distance_to_camera_center: bool,
    /// Pickups are taken by holding the button.
    pub hold_button_to_take_pickups_around: bool,
    pub show_current_device_amount: bool,
    pub use_device_found_shader: bool,
    pub use_min_distance_to_use_devices: bool,
    pub use_interaction_actions: bool,
    pub use_only_device_if_visible_on_camera: bool,
    pub ignore_check_if_obstacle_between_device_and_player: bool,
    /// Names of the devices the player reacts to.
    pub tags_for_devices: Vec<String>,
    pub use_devices_action_name: String,
    pub extra_text_start_action_key: String,
    pub extra_text_end_action_key: String,
    pub default_device_name_font_size: i32,
    pub set_current_user_on_device_function_name: String,
    pub use_device_function_name: String,
    pub use_custom_min_distance_to_use_device: bool,
}

/// What the player's device use is doing.
#[derive(Debug, Clone, Copy, PartialEq, Eq, Structural)]
pub struct UsingDevicesStatus {
    pub can_use_devices: bool,
    pub driving: bool,
    pub icon_button_can_be_shown: bool,
    /// The device the interaction button uses.
    pub object_to_use: Option<u64>,
    pub examining_object: bool,
    pub show_use_device_icon_enabled: bool,
    pub use_device_button_enabled: bool,
    pub current_device_is_pickup: bool,
    pub secondary_device_found: bool,
    pub current_device_name_text_font_size: i32,
    pub device_list_contains_elements: bool,
    pub holding_button: bool,
    pub using_device_previously: bool,
    pub icon_button_active: bool,
    pub touch_button_located: bool,
    pub first_person_active: bool,
    pub camera_view_checked: bool,
    pub using_screen_space_camera: bool,
    pub target_on_screen: bool,
    /// Index in the device list of the device in use, or -1.
    pub current_target_index: i32,
    pub device_close_enough_to_screen_center: bool,
    pub object_to_remove_after_stop_use: Option<u64>,
    pub current_device_to_use_found: Option<u64>,
    pub device_list_count: i32,
    pub used_by_ai: bool,
}

/// The player's device use.
#[derive(Debug, Clone)]
pub struct UsingDevicesSystem {
    pub settings: UsingDevicesSettings,
    pub status: UsingDevicesStatus,
    /// The action text shown for the device in use.
    pub current_device_action_text: String,
    /// The name shown for the device in use.
    pub current_device_action_name: String,
}

/// What pressing the interaction button does.
#[derive(Debug, Clone, Copy, PartialEq, Eq, Structural)]
pub enum InteractionOutcome {
    /// Nothing: the player cannot use a device now.
    Ignored,
    /// The player starts holding the button to take the pickups around.
    HoldForPickups,
    /// The device with these bits is used.
    UseDevice(u64),
}

impl View for DeviceList {
    type V = (Seq<DeviceInfo>, Seq<u64>);

    /// The devices and their entities.
    open spec fn view(&self) -> (Seq<DeviceInfo>, Seq<u64>) {
        (self.devices@, self.device_entities@)
    }
}

impl DeviceList {
    /// The two lists match up and name each device once.
    pub open spec fn wf(&self) -> bool {
        &&& self.devices@.len() == self.device_entities@.len()
        &&& forall|i: int| 0 <= i < self.devices@.len() ==> (#[trigger] self.devices@[i]).device_entity == Some(self.device_entities@[i])
        &&& self.device_entities@.no_duplicates()
    }
}

impl Default for DeviceList {
    /// An empty list.
    fn default() -> (l: Self)
        ensures
            l.wf(),
            l.devices@.len() == 0,
    {
        DeviceList { devices: Vec::new(), device_entities: Vec::new() }
    }
}

/// What the player records of a device newly in reach.
pub open spec fn info_from_action(e: u64, a: DeviceStringActionSettings) -> DeviceInfo {
    DeviceInfo {
        device_entity: Some(e),
        use_transform_for_string_action: a.use_transform_for_string_action,
        use_separated_transform_for_every_view: a.use_separated_transform_for_every_view,
        use_local_offset: a.use_local_offset,
        device_icon_entity: None,
        use_custom_min_distance_to_use_device: a.use_custom_min_distance_to_use_device,
        use_custom_min_angle_to_use: a.use_custom_min_angle_to_use,
        use_relative_direction_between_player_and_object: a.use_relative_direction_between_player_and_object,
        ignore_use_only_device_if_visible_on_camera: a.ignore_use_only_device_if_visible_on_camera,
        use_custom_device_transform_position: a.use_custom_device_transform_position,
        use_fixed_device_icon_position: a.use_fixed_device_icon_position,
        check_if_obstacle_between_device_and_player: a.check_if_obstacle_between_device_and_player,
    }
}

/// Whether the player may press the use button now.
pub open spec fn may_interact(st: UsingDevicesStatus) -> bool {
    st.can_use_devices && !st.driving && !st.examining_object && st.use_device_button_enabled
}

/// The interaction button's outcome.
pub open spec fn interaction_outcome(cfg: UsingDevicesSettings, st: UsingDevicesStatus, pressed: bool) -> InteractionOutcome {
    if !pressed || !may_interact(st) || st.object_to_use is None {
        InteractionOutcome::Ignored
    } else if st.current_device_is_pickup && cfg.hold_button_to_take_pickups_around {
        InteractionOutcome::HoldForPickups
    } else {
        InteractionOutcome::UseDevice(st.object_to_use->0)
    }
}

/// The player's icon after a device is used: hidden when the device hides it,
/// shown again when the device shows it once its use stops.
pub open spec fn icon_after_use(can_be_shown: bool, a: DeviceStringActionSettings, using: bool) -> bool {
    if a.hide_icon_on_use_device {
        false
    } else if a.show_icon_on_stop_use_device && !using {
        true
    } else {
        can_be_shown
    }
}

impl UsingDevicesSystem {
    /// Whether the player reacts to devices of this name.
    pub fn accepts_device(&self, name: &str) -> (r: bool)
        ensures
            r == has_name(self.settings.tags_for_devices@, name@),
    {
        contains_name(&self.settings.tags_for_devices, name)
    }

    /// Starts a detection pass: records the view, and empties the list
    /// when the player has no device in reach.
    pub fn begin_detection(&mut self, list: &mut DeviceList, first_person: bool)
        requires
            old(list).wf(),
        ensures
            final(list).wf(),
            final(self).settings == old(self).settings,
            final(self).current_device_action_text == old(self).current_device_action_text,
            final(self).current_device_action_name == old(self).current_device_action_name,
            final(self).status == (UsingDevicesStatus { first_person_active: first_person, ..old(self).status }),
            old(self).status.device_list_contains_elements ==> final(list)@ == old(list)@,
            !old(self).status.device_list_contains_elements ==> final(list).devices@.len() == 0,
    {
        self.status.first_person_active = first_person;
        if !self.status.device_list_contains_elements {
            list.devices.clear();
            list.device_entities.clear();
        }
    }

    /// A device seen by the search: added to the list, once, when its name
    /// is one the player reacts to.
    pub fn consider_device(&mut self, list: &mut DeviceList, e: u64, action: &DeviceStringAction)
        requires
            old(list).wf(),
            old(list).devices@.len() < i32::MAX,
        ensures
            final(list).wf(),
            final(self).settings == old(self).settings,
            final(self).current_device_action_text == old(self).current_device_action_text,
            final(self).current_device_action_name == old(self).current_device_action_name,
            (has_name(old(self).settings.tags_for_devices@, action.settings.device_name@)
                && !old(list).device_entities@.contains(e)) ==> {
                &&& final(list).devices@ == old(list).devices@.push(info_from_action(e, action.settings))
                &&& final(list).device_entities@ == old(list).device_entities@.push(e)
                &&& final(self).status == (UsingDevicesStatus {
                    device_list_contains_elements: true,
                    device_list_count: final(list).devices@.len() as i32,
                    ..old(self).status
                })
            },
            !(has_name(old(self).settings.tags_for_devices@, action.settings.device_name@)
                && !old(list).device_entities@.contains(e)) ==> {
                &&& final(list)@ == old(list)@
                &&& final(self).status == old(self).status
            },
    {
        if self.accepts_device(action.settings.device_name.as_str()) {
            self.add_device_to_list(list, e, action);
        }
    }

    /// Adds a device to the list unless it is there already.
    pub fn add_device_to_list(&mut self, list: &mut DeviceList, e: u64, action: &DeviceStringAction)
        requires
            old(list).wf(),
            old(list).devices@.len() < i32::MAX,
        ensures
            final(list).wf(),
            final(self).settings == old(self).settings,
            final(self).current_device_action_text == old(self).current_device_action_text,
            final(self).current_device_action_name == old(self).current_device_action_name,
            old(list).device_entities@.contains(e) ==> final(list)@ == old(list)@ && final(self).status == old(self).status,
            !old(list).device_entities@.contains(e) ==> {
                &&& final(list).devices@ == old(list).devices@.push(info_from_action(e, action.settings))
                &&& final(list).device_entities@ == old(list).device_entities@.push(e)
                &&& final(self).status == (UsingDevicesStatus {
                    device_list_contains_elements: true,
                    device_list_count: final(list).devices@.len() as i32,
                    ..old(self).status
                })
            },
    {
        if contains_entity(&list.device_entities, e) {
            return;
        }
        let a = &action.settings;
        let info = DeviceInfo {
            device_entity: Some(e),
            use_transform_for_string_action: a.use_transform_for_string_action,
            use_separated_transform_for_every_view: a.use_separated_transform_for_every_view,
            use_local_offset: a.use_local_offset,
            device_icon_entity: None,
            use_custom_min_distance_to_use_device: a.use_custom_min_distance_to_use_device,
            use_custom_min_angle_to_use: a.use_custom_min_angle_to_use,
            use_relative_direction_between_player_and_object: a.use_relative_direction_between_player_and_object,
            ignore_use_only_device_if_visible_on_camera: a.ignore_use_only_device_if_visible_on_camera,
            use_custom_device_transform_position: a.use_custom_device_transform_position,
            use_fixed_device_icon_position: a.use_fixed_device_icon_position,
            check_if_obstacle_between_device_and_player: a.check_if_obstacle_between_device_and_player,
        };
        let ghost old_entities = list.device_entities@;
        list.devices.push(info);
        list.device_entities.push(e);
        proof {
            assert forall|i: int, j: int| 0 <= i < j < list.device_entities@.len()
                implies list.device_entities@[i] != list.device_entities@[j] by {
                if j == old_entities.len() {
                    assert(old_entities[i] == list.device_entities@[i]);
                }
            }
        }
        self.status.device_list_contains_elements = true;
        self.status.device_list_count = list.devices.len() as i32;
    }

    /// The interaction button, pressed (or buffered) or not: what it does.
    /// Holding for pickups is recorded; the game starts the hold timer.
    pub fn process_device_interaction(&mut self, pressed: bool) -> (r: InteractionOutcome)
        ensures
            r == interaction_outcome(old(self).settings, old(self).status, pressed),
            final(self).settings == old(self).settings,
            final(self).current_device_action_text == old(self).current_device_action_text,
            final(self).current_device_action_name == old(self).current_device_action_name,
            final(self).status == (if r == InteractionOutcome::HoldForPickups {
                UsingDevicesStatus { holding_button: true, ..old(self).status }
            } else {
                old(self).status
            }),
    {
        if !pressed {
            return InteractionOutcome::Ignored;
        }
        if !self.status.can_use_devices || self.status.driving || self.status.examining_object {
            return InteractionOutcome::Ignored;
        }
        if !self.status.use_device_button_enabled {
            return InteractionOutcome::Ignored;
        }
        match self.status.object_to_use {
            Some(object_to_use) => {
                if self.status.current_device_is_pickup && self.settings.hold_button_to_take_pickups_around {
                    self.status.holding_button = true;
                    InteractionOutcome::HoldForPickups
                } else {
                    InteractionOutcome::UseDevice(object_to_use)
                }
            },
            None => InteractionOutcome::Ignored,
        }
    }

    /// Uses an electronic device that has no action text: its use flips.
    pub fn use_device(device: &mut ElectronicDevice) -> (using: bool)
        ensures
            using == !old(device).status.using_device,
            final(device).settings == old(device).settings,
            final(device).player_found_list == old(device).player_found_list,
            final(device).status == (ElectronicDeviceStatus { using_device: using, ..old(device).status }),
    {
        device.status.using_device = !device.status.using_device;
        device.status.using_device
    }

    /// Uses an electronic device with an action text: its use flips, the
    /// action text records it, and the player's icon follows the device's rules.
    pub fn use_device_with_action(&mut self, device: &mut ElectronicDevice, action: &mut DeviceStringAction) -> (using: bool)
        ensures
            using == !old(device).status.using_device,
            final(device).settings == old(device).settings,
            final(device).player_found_list == old(device).player_found_list,
            final(device).status == (ElectronicDeviceStatus { using_device: using, ..old(device).status }),
            final(action).settings == old(action).settings,
            final(action).showing_secondary_action == old(action).showing_secondary_action,
            final(action).current_device_action == old(action).current_device_action,
            final(action).using_device == using,
            final(self).settings == old(self).settings,
            final(self).current_device_action_text == old(self).current_device_action_text,
            final(self).current_device_action_name == old(self).current_device_action_name,
            final(self).status == (UsingDevicesStatus {
                icon_button_can_be_shown: icon_after_use(old(self).status.icon_button_can_be_shown, old(action).settings, using),
                ..old(self).status
            }),
    {
        let using = Self::use_device(device);
        action.record_use(using);
        self.record_icon_after_use(&action.settings, using);
        using
    }

    /// Shows or hides the player's icon after a device's use changed.
    fn record_icon_after_use(&mut self, a: &DeviceStringActionSettings, using: bool)
        ensures
            final(self).settings == old(self).settings,
            final(self).current_device_action_text == old(self).current_device_action_text,
            final(self).current_device_action_name == old(self).current_device_action_name,
            final(self).status == (UsingDevicesStatus {
                icon_button_can_be_shown: icon_after_use(old(self).status.icon_button_can_be_shown, *a, using),
                ..old(self).status
            }),
    {
        if a.hide_icon_on_use_device {
            self.status.icon_button_can_be_shown = false;
        } else if a.show_icon_on_stop_use_device && !using {
            self.status.icon_button_can_be_shown = true;
        }
    }

    /// Whether the device icons are updated this frame.
    pub fn icons_active(&self) -> (r: bool)
        ensures
            r == (self.status.device_list_contains_elements && self.status.show_use_device_icon_enabled
                && !self.status.examining_object && !self.status.driving),
    {
        self.status.device_list_contains_elements && self.status.show_use_device_icon_enabled
            && !self.status.examining_object && !self.status.driving
    }

    /// Picks the device in use from the closest device in reach (`None`
    /// when none is close enough); `action` is the chosen device's action
    /// text, when it has one.
    pub fn select_target(&mut self, list: &DeviceList, closest: Option<usize>, action: Option<&DeviceStringAction>)
        requires
            list.wf(),
            list.devices@.len() <= i32::MAX,
            closest matches Some(i) ==> i < list.devices@.len(),
        ensures
            final(self).settings == old(self).settings,
            closest is None ==> {
                &&& final(self).status == (UsingDevicesStatus { object_to_use: None, current_target_index: -1i32, ..old(self).status })
                &&& final(self).current_device_action_text == old(self).current_device_action_text
                &&& final(self).current_device_action_name == old(self).current_device_action_name
            },
            closest matches Some(i) ==> {
                &&& final(self).status.current_target_index == i as i32
                &&& final(self).status.object_to_use == Some(list.device_entities@[i as int])
                &&& action matches Some(a) ==> {
                    &&& final(self).current_device_action_text@ == a.settings.device_action@
                    &&& final(self).current_device_action_name@ == a.settings.device_name@
                    &&& final(self).status == (UsingDevicesStatus {
                        current_target_index: i as i32,
                        object_to_use: Some(list.device_entities@[i as int]),
                        current_device_name_text_font_size: a.settings.text_font_size,
                        ..old(self).status
                    })
                }
                &&& action is None ==> {
                    &&& final(self).current_device_action_text == old(self).current_device_action_text
                    &&& final(self).current_device_action_name == old(self).current_device_action_name
                    &&& final(self).status == (UsingDevicesStatus {
                        current_target_index: i as i32,
                        object_to_use: Some(list.device_entities@[i as int]),
                        ..old(self).status
                    })
                }
            },
    {
        match closest {
            Some(i) => {
                proof {
                    assert(list.devices@[i as int].device_entity == Some(list.device_entities@[i as int]));
                }
                let e = list.device_entities[i];
                let idx = i as i32;
                self.status = UsingDevicesStatus { current_target_index: idx, object_to_use: Some(e), ..self.status };
                match action {
                    Some(a) => self.show_device_action(a),
                    None => {},
                }
            },
            None => {
                self.status = UsingDevicesStatus { current_target_index: -1, object_to_use: None, ..self.status };
            },
        }
    }

    /// Shows the action text and name of the device in use.
    fn show_device_action(&mut self, a: &DeviceStringAction)
        ensures
            final(self).settings == old(self).settings,
            final(self).current_device_action_text@ == a.settings.device_action@,
            final(self).current_device_action_name@ == a.settings.device_name@,
            final(self).status == (UsingDevicesStatus {
                current_device_name_text_font_size: a.settings.text_font_size,
                ..old(self).status
            }),
    {
        let text = a.settings.device_action.clone();
        let name = a.settings.device_name.clone();
        let size = a.settings.text_font_size;
        self.current_device_action_text = text;
        self.current_device_action_name = name;
        self.status = UsingDevicesStatus { current_device_name_text_font_size: size, ..self.status };
    }
}

/// The status of a player who has found no device yet.
pub open spec fn initial_using_status() -> UsingDevicesStatus {
    UsingDevicesStatus {
        can_use_devices: true,
        driving: false,
        icon_button_can_be_shown: true,
        object_to_use: None,
        examining_object: false,
        show_use_device_icon_enabled: true,
        use_device_button_enabled: true,
        current_device_is_pickup: false,
        secondary_device_found: false,
        current_device_name_text_font_size: 0,
        device_list_contains_elements: false,
        holding_button: false,
        using_device_previously: false,
        icon_button_active: false,
        touch_button_located: false,
        first_person_active: false,
        camera_view_checked: false,
        using_screen_space_camera: false,
        target_on_screen: false,
        current_target_index: -1i32,
        device_close_enough_to_screen_center: false,
        object_to_remove_after_stop_use: None,
        current_device_to_use_found: None,
        device_list_count: 0,
        used_by_ai: false,
    }
}

impl Default for UsingDevicesSystem {
    /// A player who reacts to devices, doors and switches and has found none yet.
    fn default() -> (d: Self)
        ensures
            d.status == initial_using_status(),
            d.settings.layer == 0xFFFF_FFFFu32,
            !d.settings.searching_devices_with_raycast,
            !d.settings.use_fixed_device_icon_position,
            !d.settings.device_on_screen_if_use_fixed_icon_position,
            !d.settings.get_closest_device_to_camera_center,
            !d.settings.use_max_distance_to_camera_center,
            !d.settings.hold_button_to_take_pickups_around,
            d.settings.show_current_device_amount,
            !d.settings.use_device_found_shader,
            !d.settings.use_min_distance_to_use_devices,
            !d.settings.use_interaction_actions,
            !d.settings.use_only_device_if_visible_on_camera,
            d.settings.ignore_check_if_obstacle_between_device_and_player,
            d.settings.tags_for_devices@.len() == 3,
            d.settings.tags_for_devices@[0]@ == "Device"@,
            d.settings.tags_for_devices@[1]@ == "Door"@,
            d.settings.tags_for_devices@[2]@ == "Switch"@,
            d.settings.use_devices_action_name@ == "Activate Device"@,
            d.settings.extra_text_start_action_key@ == "["@,
            d.settings.extra_text_end_action_key@ == "]"@,
            d.settings.default_device_name_font_size == 17,
            d.settings.set_current_user_on_device_function_name@ == "setCurrentUser"@,
            d.settings.use_device_function_name@ == "activateDevice"@,
            !d.settings.use_custom_min_distance_to_use_device,
            d.current_device_action_text@ == Seq::<char>::empty(),
            d.current_device_action_name@ == Seq::<char>::empty(),
    {
        let mut tags: Vec<String> = Vec::new();
        tags.push("Device".to_owned());
        tags.push("Door".to_owned());
        tags.push("Switch".to_owned());
        UsingDevicesSystem {
            settings: UsingDevicesSettings {
                layer: 0xFFFF_FFFF,
                searching_devices_with_raycast: false,
                use_fixed_device_icon_position: false,
                device_on_screen_if_use_fixed_icon_position: false,
                get_closest_device_to_camera_center: false,
                use_max_distance_to_camera_center: false,
                hold_button_to_take_pickups_around: false,
                show_current_device_amount: true,
                use_device_found_shader: false,
                use_min_distance_to_use_devices: false,
                use_interaction_actions: false,
                use_only_device_if_visible_on_camera: false,
                ignore_check_if_obstacle_between_device_and_player: true,
                tags_for_devices: tags,
                use_devices_action_name: "Activate Device".to_owned(),
                extra_text_start_action_key: "[".to_owned(),
                extra_text_end_action_key: "]".to_owned(),
                default_device_name_font_size: 17,
                set_current_user_on_device_function_name: "setCurrentUser".to_owned(),
                use_device_function_name: "activateDevice".to_owned(),
                use_custom_min_distance_to_use_device: false,
            },
            status: UsingDevicesStatus {
                can_use_devices: true,
                driving: false,
                icon_button_can_be_shown: true,
                object_to_use: None,
                examining_object: false,
                show_use_device_icon_enabled: true,
                use_device_button_enabled: true,
                current_device_is_pickup: false,
                secondary_device_found: false,
                current_device_name_text_font_size: 0,
                device_list_contains_elements: false,
                holding_button: false,
                using_device_previously: false,
                icon_button_active: false,
                touch_button_located: false,
                first_person_active: false,
                camera_view_checked: false,
                using_screen_space_camera: false,
                target_on_screen: false,
                current_target_index: -1,
                device_close_enough_to_screen_center: false,
                object_to_remove_after_stop_use: None,
                current_device_to_use_found: None,
                device_list_count: 0,
                used_by_ai: false,
            },
            current_device_action_text: String::new(),
            current_device_action_name: String::new(),
        }
    }
}

/// Using a device twice puts it back as it was.
pub proof fn law_use_twice_restores(st: ElectronicDeviceStatus)
    ensures
        (ElectronicDeviceStatus {
            using_device: !(ElectronicDeviceStatus { using_device: !st.using_device, ..st }).using_device,
            ..(ElectronicDeviceStatus { using_device: !st.using_device, ..st })
        }) == st,
{
}

/// A player who cannot use devices, drives or examines an object ignores
/// the interaction button.
pub proof fn law_blocked_player_ignores_button(cfg: UsingDevicesSettings, st: UsingDevicesStatus, pressed: bool)
    requires
        !st.can_use_devices || st.driving || st.examining_object || !st.use_device_button_enabled,
    ensures
        interaction_outcome(cfg, st, pressed) == InteractionOutcome::Ignored,
{
}

} // verus!
