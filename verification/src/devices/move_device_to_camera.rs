//! Bringing a device in front of the camera to examine it, and putting it
//! back. The library decides which of the player's systems to notify, in
//! which order; the game carries each step out and moves the device.

use vstd::prelude::*;
use crate::devices::move_camera_to_device::{
    step_if, step_on, vec_if, vec_on, push_if, push_on, CameraDeviceAction, CameraDeviceStep,
};

verus! {

/// A render layer a part of the device is moved to while examined.
#[derive(Debug, Clone, Copy, PartialEq, Eq, Structural)]
pub struct LayerInfo {
    pub game_object: Option<u64>,
    pub layer_number: i32,
}

/// How a device is brought to the camera. Distances, zoom and poses are the game's.
#[derive(Debug, Clone)]
pub struct MoveDeviceToCameraSettings {
    pub device_game_object: Option<u64>,
    pub smooth_camera_movement: bool,
    pub use_fixed_lerp_movement: bool,
    pub layer_to_examine_devices: String,
    pub activate_examinate_object_system: bool,
    pub object_has_active_rigidbody: bool,
    pub disable_player_mesh_game_object: bool,
    pub keep_weapons_if_carrying: bool,
    pub draw_weapons_if_previously_carrying: bool,
    pub keep_only_if_player_is_on_first_person: bool,
    pub disable_weapons_directly_on_start: bool,
    pub device_trigger: Option<u64>,
    pub use_list_of_disabled_objects: bool,
    pub use_blur_ui_panel: bool,
    pub disable_secondary_player_hud: bool,
    pub disable_all_player_hud: bool,
    pub original_device_parent_transform: Option<u64>,
    pub player_collider: Option<u64>,
    pub examine_object_render_texture_panel: Option<u64>,
    pub examine_object_blur_panel_parent: Option<u64>,
    pub camera_position: Option<u64>,
    pub main_camera: Option<u64>,
    pub head_bob: Option<u64>,
    pub other_powers: Option<u64>,
    pub weapons: Option<u64>,
    pub step: Option<u64>,
    pub pause: Option<u64>,
    pub using_devices: Option<u64>,
    pub player_controller: Option<u64>,
    pub player_camera: Option<u64>,
    pub main_player_components: Option<u64>,
    pub layer_list: Vec<LayerInfo>,
}

/// Where the device move stands.
#[derive(Debug, Clone, Copy, PartialEq, Eq, Structural)]
pub struct MoveDeviceToCameraStatus {
    pub carrying_weapons_previously: bool,
    pub first_person_active: bool,
    pub ignore_device_trigger_enabled: bool,
    pub camera_state: bool,
    pub device_enabled: bool,
    pub previously_icon_button_active: bool,
    pub previously_activated: bool,
    pub original_kinematic_value: bool,
    pub original_use_gravity_value: bool,
    pub moving_camera: bool,
    pub current_player: Option<u64>,
}

/// A device that can be brought to the camera.
#[derive(Debug, Clone)]
pub struct MoveDeviceToCamera {
    pub settings: MoveDeviceToCameraSettings,
    pub status: MoveDeviceToCameraStatus,
}

/// Whether the player's weapons are handled for this move.
pub open spec fn handles_weapons(cfg: MoveDeviceToCameraSettings, st: MoveDeviceToCameraStatus) -> bool {
    cfg.keep_weapons_if_carrying && (!cfg.keep_only_if_player_is_on_first_person || st.first_person_active)
}

/// Bringing the device in, `carrying` saying whether the player carries a weapon.
pub open spec fn bring_steps(cfg: MoveDeviceToCameraSettings, st: MoveDeviceToCameraStatus, carrying: bool) -> Seq<CameraDeviceStep> {
    let hw = handles_weapons(cfg, st) && carrying;
    step_on(true, cfg.other_powers, CameraDeviceAction::StopRunning)
    + step_on(true, cfg.player_controller, CameraDeviceAction::SetPlayerUsingDevice)
    + step_on(true, cfg.weapons, CameraDeviceAction::SetWeaponsUsingDevice)
    + step_on(cfg.keep_weapons_if_carrying, cfg.player_controller, CameraDeviceAction::CheckFirstPerson)
    + step_if(hw && cfg.disable_weapons_directly_on_start, CameraDeviceAction::DisableCurrentWeapon)
    + step_if(hw && !cfg.disable_weapons_directly_on_start, CameraDeviceAction::KeepSingleOrDualWeapon)
    + step_on(true, cfg.pause, CameraDeviceAction::SetPauseUsingDevice)
    + step_on(true, cfg.player_controller, CameraDeviceAction::ChangePlayerControllerState)
    + step_if(cfg.disable_player_mesh_game_object, CameraDeviceAction::DisablePlayerMesh)
    + step_on(true, cfg.step, CameraDeviceAction::ToggleFootsteps)
    + step_on(true, cfg.pause, CameraDeviceAction::ShowOrHideCursor)
    + step_on(true, cfg.pause, CameraDeviceAction::ChangeCameraState)
    + step_on(true, cfg.using_devices, CameraDeviceAction::GetIconButtonState)
    + step_on(true, cfg.using_devices, CameraDeviceAction::SetIconButtonCanBeShown)
    + step_if(cfg.object_has_active_rigidbody, CameraDeviceAction::SetRigidbodyState)
    + step_if(true, CameraDeviceAction::DisableDeviceColliders)
    + step_if(true, CameraDeviceAction::DisableDeviceLayers)
    + step_on(true, cfg.using_devices, CameraDeviceAction::SetExamineDevicesCameraState)
    + step_on(cfg.use_blur_ui_panel, cfg.examine_object_render_texture_panel, CameraDeviceAction::ActivateBlurPanel)
    + step_on(cfg.use_blur_ui_panel, cfg.pause, CameraDeviceAction::ChangeBlurPanelValue)
}

/// Putting the device back.
pub open spec fn return_steps(cfg: MoveDeviceToCameraSettings, st: MoveDeviceToCameraStatus) -> Seq<CameraDeviceStep> {
    step_on(true, cfg.player_controller, CameraDeviceAction::SetPlayerUsingDevice)
    + step_on(true, cfg.pause, CameraDeviceAction::SetPauseUsingDevice)
    + step_on(true, cfg.player_controller, CameraDeviceAction::ChangePlayerControllerState)
    + step_if(handles_weapons(cfg, st) && cfg.draw_weapons_if_previously_carrying && st.carrying_weapons_previously,
        CameraDeviceAction::DrawSingleOrDualWeapon)
    + step_if(cfg.disable_player_mesh_game_object, CameraDeviceAction::EnablePlayerMesh)
    + step_on(true, cfg.step, CameraDeviceAction::ToggleFootstepsWithDelay)
    + step_on(true, cfg.pause, CameraDeviceAction::ShowOrHideCursor)
    + step_on(true, cfg.pause, CameraDeviceAction::ChangeCameraState)
    + step_on(st.previously_activated, cfg.using_devices, CameraDeviceAction::SetIconButtonCanBeShown)
    + step_on(true, cfg.using_devices, CameraDeviceAction::CheckRemoveDeviceFromList)
    + step_on(cfg.use_blur_ui_panel, cfg.pause, CameraDeviceAction::ChangeBlurPanelValue)
}

/// The screen, HUD, device and cursor, in both directions.
pub open spec fn device_screen_steps(cfg: MoveDeviceToCameraSettings) -> Seq<CameraDeviceStep> {
    step_on(true, cfg.pause, CameraDeviceAction::ToggleDynamicElements)
    + step_on(cfg.disable_all_player_hud, cfg.pause, CameraDeviceAction::TogglePlayerHud)
    + step_on(!cfg.disable_all_player_hud && cfg.disable_secondary_player_hud, cfg.pause,
        CameraDeviceAction::ToggleSecondaryPlayerHud)
    + step_if(cfg.smooth_camera_movement, CameraDeviceAction::CheckCameraPosition)
    + step_if(!cfg.smooth_camera_movement, CameraDeviceAction::SetDeviceTransformDirectly)
    + step_on(true, cfg.pause, CameraDeviceAction::ShowOrHideCursorController)
    + step_on(true, cfg.pause, CameraDeviceAction::CheckTouchZoneList)
}

/// All steps of bringing the device to (`state`) or away from the camera.
pub open spec fn move_device_steps(cfg: MoveDeviceToCameraSettings, st: MoveDeviceToCameraStatus, state: bool, carrying: bool) -> Seq<CameraDeviceStep> {
    step_on(state, cfg.head_bob, CameraDeviceAction::StopHeadBob)
    + step_on(true, cfg.head_bob, CameraDeviceAction::PlayOrPauseHeadBob)
    + (if state { bring_steps(cfg, st, carrying) } else { return_steps(cfg, st) })
    + device_screen_steps(cfg)
}

/// The move after bringing the device to (`state`) or away from the camera.
pub open spec fn move_device_status(cfg: MoveDeviceToCameraSettings, st: MoveDeviceToCameraStatus, state: bool, carrying: bool) -> MoveDeviceToCameraStatus {
    MoveDeviceToCameraStatus {
        device_enabled: state,
        carrying_weapons_previously: if state && handles_weapons(cfg, st) { carrying } else { st.carrying_weapons_previously },
        previously_activated: state || st.previously_activated,
        camera_state: cfg.smooth_camera_movement || st.camera_state,
        ..st
    }
}

fn bring_vec(cfg: &MoveDeviceToCameraSettings, st: &MoveDeviceToCameraStatus, carrying: bool) -> (v: Vec<CameraDeviceStep>)
    ensures
        v@ == bring_steps(*cfg, *st, carrying),
{
    let hw = cfg.keep_weapons_if_carrying && (!cfg.keep_only_if_player_is_on_first_person || st.first_person_active) && carrying;
    let mut v = vec_on(true, cfg.other_powers, CameraDeviceAction::StopRunning);
    push_on(&mut v, true, cfg.player_controller, CameraDeviceAction::SetPlayerUsingDevice);
    push_on(&mut v, true, cfg.weapons, CameraDeviceAction::SetWeaponsUsingDevice);
    push_on(&mut v, cfg.keep_weapons_if_carrying, cfg.player_controller, CameraDeviceAction::CheckFirstPerson);
    push_if(&mut v, hw && cfg.disable_weapons_directly_on_start, CameraDeviceAction::DisableCurrentWeapon);
    push_if(&mut v, hw && !cfg.disable_weapons_directly_on_start, CameraDeviceAction::KeepSingleOrDualWeapon);
    push_on(&mut v, true, cfg.pause, CameraDeviceAction::SetPauseUsingDevice);
    push_on(&mut v, true, cfg.player_controller, CameraDeviceAction::ChangePlayerControllerState);
    push_if(&mut v, cfg.disable_player_mesh_game_object, CameraDeviceAction::DisablePlayerMesh);
    push_on(&mut v, true, cfg.step, CameraDeviceAction::ToggleFootsteps);
    push_on(&mut v, true, cfg.pause, CameraDeviceAction::ShowOrHideCursor);
    push_on(&mut v, true, cfg.pause, CameraDeviceAction::ChangeCameraState);
    push_on(&mut v, true, cfg.using_devices, CameraDeviceAction::GetIconButtonState);
    push_on(&mut v, true, cfg.using_devices, CameraDeviceAction::SetIconButtonCanBeShown);
    push_if(&mut v, cfg.object_has_active_rigidbody, CameraDeviceAction::SetRigidbodyState);
    push_if(&mut v, true, CameraDeviceAction::DisableDeviceColliders);
    push_if(&mut v, true, CameraDeviceAction::DisableDeviceLayers);
    push_on(&mut v, true, cfg.using_devices, CameraDeviceAction::SetExamineDevicesCameraState);
    push_on(&mut v, cfg.use_blur_ui_panel, cfg.examine_object_render_texture_panel, CameraDeviceAction::ActivateBlurPanel);
    push_on(&mut v, cfg.use_blur_ui_panel, cfg.pause, CameraDeviceAction::ChangeBlurPanelValue);
    v
}

fn return_vec(cfg: &MoveDeviceToCameraSettings, st: &MoveDeviceToCameraStatus) -> (v: Vec<CameraDeviceStep>)
    ensures
        v@ == return_steps(*cfg, *st),
{
    let hw = cfg.keep_weapons_if_carrying && (!cfg.keep_only_if_player_is_on_first_person || st.first_person_active);
    let mut v = vec_on(true, cfg.player_controller, CameraDeviceAction::SetPlayerUsingDevice);
    push_on(&mut v, true, cfg.pause, CameraDeviceAction::SetPauseUsingDevice);
    push_on(&mut v, true, cfg.player_controller, CameraDeviceAction::ChangePlayerControllerState);
    push_if(&mut v, hw && cfg.draw_weapons_if_previously_carrying && st.carrying_weapons_previously,
        CameraDeviceAction::DrawSingleOrDualWeapon);
    push_if(&mut v, cfg.disable_player_mesh_game_object, CameraDeviceAction::EnablePlayerMesh);
    push_on(&mut v, true, cfg.step, CameraDeviceAction::ToggleFootstepsWithDelay);
    push_on(&mut v, true, cfg.pause, CameraDeviceAction::ShowOrHideCursor);
    push_on(&mut v, true, cfg.pause, CameraDeviceAction::ChangeCameraState);
    push_on(&mut v, st.previously_activated, cfg.using_devices, CameraDeviceAction::SetIconButtonCanBeShown);
    push_on(&mut v, true, cfg.using_devices, CameraDeviceAction::CheckRemoveDeviceFromList);
    push_on(&mut v, cfg.use_blur_ui_panel, cfg.pause, CameraDeviceAction::ChangeBlurPanelValue);
    v
}

fn device_screen_vec(cfg: &MoveDeviceToCameraSettings) -> (v: Vec<CameraDeviceStep>)
    ensures
        v@ == device_screen_steps(*cfg),
{
    let mut v = vec_on(true, cfg.pause, CameraDeviceAction::ToggleDynamicElements);
    push_on(&mut v, cfg.disable_all_player_hud, cfg.pause, CameraDeviceAction::TogglePlayerHud);
    push_on(&mut v, !cfg.disable_all_player_hud && cfg.disable_secondary_player_hud, cfg.pause,
        CameraDeviceAction::ToggleSecondaryPlayerHud);
    push_if(&mut v, cfg.smooth_camera_movement, CameraDeviceAction::CheckCameraPosition);
    push_if(&mut v, !cfg.smooth_camera_movement, CameraDeviceAction::SetDeviceTransformDirectly);
    push_on(&mut v, true, cfg.pause, CameraDeviceAction::ShowOrHideCursorController);
    push_on(&mut v, true, cfg.pause, CameraDeviceAction::CheckTouchZoneList);
    v
}

impl MoveDeviceToCamera {
    /// Brings the device to the camera (`state`) or puts it back, and
    /// returns, in order, the steps the game carries out. `carrying` says
    /// whether the player has a weapon equipped or carried.
    pub fn move_camera(&mut self, state: bool, carrying: bool) -> (steps: Vec<CameraDeviceStep>)
        ensures
            final(self).settings == old(self).settings,
            final(self).status == move_device_status(old(self).settings, old(self).status, state, carrying),
            steps@ == move_device_steps(old(self).settings, old(self).status, state, carrying),
    {
        let st = self.status;
        let mut v = vec_on(state, self.settings.head_bob, CameraDeviceAction::StopHeadBob);
        push_on(&mut v, true, self.settings.head_bob, CameraDeviceAction::PlayOrPauseHeadBob);
        let mut middle = if state { bring_vec(&self.settings, &st, carrying) } else { return_vec(&self.settings, &st) };
        v.append(&mut middle);
        let mut screen = device_screen_vec(&self.settings);
        v.append(&mut screen);
        self.status.device_enabled = state;
        if state {
            if self.settings.keep_weapons_if_carrying
                && (!self.settings.keep_only_if_player_is_on_first_person || st.first_person_active) {
                self.status.carrying_weapons_previously = carrying;
            }
            self.status.previously_activated = true;
        }
        if self.settings.smooth_camera_movement {
            self.check_camera_position();
        }
        v
    }

    /// The device starts adjusting its place in front of the camera.
    pub fn check_camera_position(&mut self)
        ensures
            final(self).settings == old(self).settings,
            final(self).status == (MoveDeviceToCameraStatus { camera_state: true, ..old(self).status }),
    {
        self.status.camera_state = true;
    }

    pub fn set_current_player(&mut self, player: Option<u64>)
        ensures
            final(self).settings == old(self).settings,
            final(self).status == (MoveDeviceToCameraStatus { current_player: player, ..old(self).status }),
    {
        self.status.current_player = player;
    }

    pub fn set_ignore_device_trigger_enabled_state(&mut self, state: bool)
        ensures
            final(self).settings == old(self).settings,
            final(self).status == (MoveDeviceToCameraStatus { ignore_device_trigger_enabled: state, ..old(self).status }),
    {
        self.status.ignore_device_trigger_enabled = state;
    }

    /// Stops the move.
    pub fn stop_movement(&mut self)
        ensures
            final(self).settings == old(self).settings,
            final(self).status == (MoveDeviceToCameraStatus { camera_state: false, device_enabled: false, ..old(self).status }),
    {
        self.status.camera_state = false;
        self.status.device_enabled = false;
    }

    pub fn is_camera_moving(&self) -> (r: bool)
        ensures
            r == self.status.moving_camera,
    {
        self.status.moving_camera
    }
}

impl Default for MoveDeviceToCamera {
    /// A device examined on the layer "ExamineDevice", moved smoothly,
    /// that touches no player system.
    fn default() -> (d: Self)
        ensures
            d.settings.device_game_object is None,
            d.settings.smooth_camera_movement,
            d.settings.use_fixed_lerp_movement,
            !d.settings.activate_examinate_object_system,
            !d.settings.object_has_active_rigidbody,
            d.settings.disable_player_mesh_game_object,
            !d.settings.keep_weapons_if_carrying,
            !d.settings.draw_weapons_if_previously_carrying,
            !d.settings.keep_only_if_player_is_on_first_person,
            !d.settings.disable_weapons_directly_on_start,
            d.settings.device_trigger is None,
            !d.settings.use_list_of_disabled_objects,
            !d.settings.use_blur_ui_panel,
            d.settings.disable_secondary_player_hud,
            !d.settings.disable_all_player_hud,
            d.settings.original_device_parent_transform is None,
            d.settings.player_collider is None,
            d.settings.examine_object_render_texture_panel is None,
            d.settings.examine_object_blur_panel_parent is None,
            d.settings.camera_position is None,
            d.settings.main_camera is None,
            d.settings.head_bob is None,
            d.settings.other_powers is None,
            d.settings.weapons is None,
            d.settings.step is None,
            d.settings.pause is None,
            d.settings.using_devices is None,
            d.settings.player_controller is None,
            d.settings.player_camera is None,
            d.settings.main_player_components is None,
            d.settings.layer_to_examine_devices@ == "ExamineDevice"@,
            d.settings.layer_list@.len() == 0,
            d.status == (MoveDeviceToCameraStatus {
                carrying_weapons_previously: false,
                first_person_active: false,
                ignore_device_trigger_enabled: false,
                camera_state: false,
                device_enabled: false,
                previously_icon_button_active: false,
                previously_activated: false,
                original_kinematic_value: false,
                original_use_gravity_value: false,
                moving_camera: false,
                current_player: None,
            }),
    {
        MoveDeviceToCamera {
            settings: MoveDeviceToCameraSettings {
                device_game_object: None,
                smooth_camera_movement: true,
                use_fixed_lerp_movement: true,
                activate_examinate_object_system: false,
                object_has_active_rigidbody: false,
                disable_player_mesh_game_object: true,
                keep_weapons_if_carrying: false,
                draw_weapons_if_previously_carrying: false,
                keep_only_if_player_is_on_first_person: false,
                disable_weapons_directly_on_start: false,
                device_trigger: None,
                use_list_of_disabled_objects: false,
                use_blur_ui_panel: false,
                disable_secondary_player_hud: true,
                disable_all_player_hud: false,
                original_device_parent_transform: None,
                player_collider: None,
                examine_object_render_texture_panel: None,
                examine_object_blur_panel_parent: None,
                camera_position: None,
                main_camera: None,
                head_bob: None,
                other_powers: None,
                weapons: None,
                step: None,
                pause: None,
                using_devices: None,
                player_controller: None,
                player_camera: None,
                main_player_components: None,
                layer_to_examine_devices: "ExamineDevice".to_owned(),
                layer_list: Vec::new(),
            },
            status: MoveDeviceToCameraStatus {
                carrying_weapons_previously: false,
                first_person_active: false,
                ignore_device_trigger_enabled: false,
                camera_state: false,
                device_enabled: false,
                previously_icon_button_active: false,
                previously_activated: false,
                original_kinematic_value: false,
                original_use_gravity_value: false,
                moving_camera: false,
                current_player: None,
            },
        }
    }
}

/// Bringing the device in and putting it back leaves it disabled and
/// remembered as activated, so the icon button is offered again on the way back.
pub proof fn law_bring_then_return(cfg: MoveDeviceToCameraSettings, st: MoveDeviceToCameraStatus, carrying: bool)
    ensures
        move_device_status(cfg, st, true, carrying).device_enabled,
        move_device_status(cfg, st, true, carrying).previously_activated,
        !move_device_status(cfg, move_device_status(cfg, st, true, carrying), false, carrying).device_enabled,
        move_device_status(cfg, move_device_status(cfg, st, true, carrying), false, carrying).previously_activated,
{
}

} // verus!
