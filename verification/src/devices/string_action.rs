//! The text a device shows next to its interaction icon ("Use", "Open", ...)
//! and how that icon behaves.

use vstd::prelude::*;

verus! {

/// How a device's action text and icon are configured.
#[derive(Debug, Clone)]
pub struct DeviceStringActionSettings {
    pub device_name: String,
    /// The action shown while the device is in its first state.
    pub device_action: String,
    /// The action shown while the device is in its second state.
    pub secondary_device_action: String,
    pub reload_device_action_on_press: bool,
    pub hide_icon_on_press: bool,
    pub disable_icon_on_press: bool,
    pub show_icon: bool,
    pub show_touch_icon_button: bool,
    pub hide_icon_on_use_device: bool,
    pub show_icon_on_stop_use_device: bool,
    pub use_transform_for_string_action: bool,
    pub use_separated_transform_for_every_view: bool,
    pub use_local_offset: bool,
    /// Whether the device records that it is being used.
    pub set_using_device_state: bool,
    pub set_text_font_size_active: bool,
    pub text_font_size: i32,
    pub icon_enabled: bool,
    pub use_raycast_to_detect_device_parts: bool,
    pub use_custom_min_distance_to_use_device: bool,
    pub use_custom_min_angle_to_use: bool,
    pub use_relative_direction_between_player_and_object: bool,
    pub use_custom_icon_button_info: bool,
    pub custom_icon_button_info_name: String,
    pub ignore_use_only_device_if_visible_on_camera: bool,
    pub use_custom_device_transform_position: bool,
    pub use_fixed_device_icon_position: bool,
    pub check_if_obstacle_between_device_and_player: bool,
}

/// A device's action text and icon state.
#[derive(Debug, Clone)]
pub struct DeviceStringAction {
    pub settings: DeviceStringActionSettings,
    pub using_device: bool,
    pub showing_secondary_action: bool,
    /// The action text shown right now.
    pub current_device_action: String,
}

impl DeviceStringAction {
    /// Shows the first action for `state` and the secondary one otherwise.
    pub fn change_action_name(&mut self, state: bool)
        ensures
            final(self).settings == old(self).settings,
            final(self).using_device == old(self).using_device,
            final(self).showing_secondary_action == old(self).showing_secondary_action,
            final(self).current_device_action@ == (if state {
                old(self).settings.device_action@
            } else {
                old(self).settings.secondary_device_action@
            }),
    {
        if state {
            self.current_device_action = self.settings.device_action.clone();
        } else {
            self.current_device_action = self.settings.secondary_device_action.clone();
        }
    }

    /// Records whether the device is being used, where the device keeps that record.
    pub fn check_set_using_device_state(&mut self, state: bool)
        ensures
            final(self).settings == old(self).settings,
            final(self).showing_secondary_action == old(self).showing_secondary_action,
            final(self).current_device_action == old(self).current_device_action,
            final(self).using_device == (if old(self).settings.set_using_device_state {
                state
            } else {
                old(self).using_device
            }),
    {
        if self.settings.set_using_device_state {
            self.using_device = state;
        }
    }
}

impl DeviceStringAction {
    /// Records that its device is (`using`) or is not in use.
    pub fn record_use(&mut self, using: bool)
        ensures
            final(self).settings == old(self).settings,
            final(self).showing_secondary_action == old(self).showing_secondary_action,
            final(self).current_device_action == old(self).current_device_action,
            final(self).using_device == using,
    {
        self.using_device = using;
        if self.settings.set_using_device_state {
            self.check_set_using_device_state(using);
        }
    }
}

impl Default for DeviceStringAction {
    fn default() -> (d: Self)
        ensures
            d.settings.device_name@ == "Device"@,
            d.settings.device_action@ == "Use"@,
            d.settings.secondary_device_action@ == Seq::<char>::empty(),
            !d.settings.reload_device_action_on_press,
            !d.settings.hide_icon_on_press,
            !d.settings.disable_icon_on_press,
            d.settings.show_icon,
            d.settings.show_touch_icon_button,
            !d.settings.hide_icon_on_use_device,
            !d.settings.show_icon_on_stop_use_device,
            !d.settings.use_transform_for_string_action,
            !d.settings.use_separated_transform_for_every_view,
            d.settings.use_local_offset,
            !d.settings.set_using_device_state,
            !d.settings.set_text_font_size_active,
            d.settings.text_font_size == 17,
            d.settings.icon_enabled,
            !d.settings.use_raycast_to_detect_device_parts,
            !d.settings.use_custom_min_distance_to_use_device,
            !d.settings.use_custom_min_angle_to_use,
            !d.settings.use_relative_direction_between_player_and_object,
            !d.settings.use_custom_icon_button_info,
            d.settings.custom_icon_button_info_name@ == Seq::<char>::empty(),
            !d.settings.ignore_use_only_device_if_visible_on_camera,
            !d.settings.use_custom_device_transform_position,
            !d.settings.use_fixed_device_icon_position,
            d.settings.check_if_obstacle_between_device_and_player,
            !d.using_device,
            !d.showing_secondary_action,
            d.current_device_action@ == Seq::<char>::empty(),
    {
        DeviceStringAction {
            settings: DeviceStringActionSettings {
                device_name: "Device".to_owned(),
                device_action: "Use".to_owned(),
                secondary_device_action: String::new(),
                reload_device_action_on_press: false,
                hide_icon_on_press: false,
                disable_icon_on_press: false,
                show_icon: true,
                show_touch_icon_button: true,
                hide_icon_on_use_device: false,
                show_icon_on_stop_use_device: false,
                use_transform_for_string_action: false,
                use_separated_transform_for_every_view: false,
                use_local_offset: true,
                set_using_device_state: false,
                set_text_font_size_active: false,
                text_font_size: 17,
                icon_enabled: true,
                use_raycast_to_detect_device_parts: false,
                use_custom_min_distance_to_use_device: false,
                use_custom_min_angle_to_use: false,
                use_relative_direction_between_player_and_object: false,
                use_custom_icon_button_info: false,
                custom_icon_button_info_name: String::new(),
                ignore_use_only_device_if_visible_on_camera: false,
                use_custom_device_transform_position: false,
                use_fixed_device_icon_position: false,
                check_if_obstacle_between_device_and_player: true,
            },
            using_device: false,
            showing_secondary_action: false,
            current_device_action: String::new(),
        }
    }
}

} // verus!
