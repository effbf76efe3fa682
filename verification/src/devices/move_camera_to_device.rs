//! Moving the player's camera onto a device while the player uses it, and
//! back. The library decides which of the player's systems to notify, in
//! which order; the game carries each step out.

use vstd::prelude::*;

verus! {

/// How a device moves the camera and which player systems it touches.
/// Speeds, gizmo colours and target poses are the game's.
#[derive(Debug, Clone, Copy, PartialEq, Eq, Structural)]
pub struct MoveCameraToDeviceSettings {
    pub camera_movement_active: bool,
    pub camera_position: Option<u64>,
    pub smooth_camera_movement: bool,
    pub use_fixed_lerp_movement: bool,
    pub unlock_cursor: bool,
    pub set_new_mouse_cursor_controller_speed: bool,
    pub disable_player_mesh_game_object: bool,
    pub enable_player_mesh_game_object_if_first_person_active: bool,
    pub disable_weapons_camera: bool,
    pub keep_weapons_if_carrying: bool,
    pub draw_weapons_if_previously_carrying: bool,
    pub keep_only_if_player_is_on_first_person: bool,
    pub disable_weapons_directly_on_start: bool,
    pub carry_weapon_on_lower_position_active: bool,
    pub set_player_camera_rotation_on_exit: bool,
    pub player_pivot_transform_third_person: Option<u64>,
    pub player_camera_transform_third_person: Option<u64>,
    pub player_pivot_transform_first_person: Option<u64>,
    pub player_camera_transform_first_person: Option<u64>,
    pub align_player_with_camera_position_on_start_use_device: bool,
    pub align_player_with_camera_position_on_stop_use_device: bool,
    pub align_player_with_camera_rotation_on_start_use_device: bool,
    pub align_player_with_camera_rotation_on_stop_use_device: bool,
    pub custom_align_player_transform: Option<u64>,
    pub reset_player_camera_direction: bool,
    pub disable_secondary_player_hud: bool,
    pub disable_all_player_hud: bool,
    pub disable_touch_controls: bool,
    pub show_gizmo: bool,
    pub camera_parent_transform: Option<u64>,
    pub main_camera: Option<u64>,
    pub head_bob: Option<u64>,
    pub other_powers: Option<u64>,
    pub weapons: Option<u64>,
    pub step: Option<u64>,
    pub pause: Option<u64>,
    pub using_devices: Option<u64>,
    pub player_controller: Option<u64>,
    pub player_camera: Option<u64>,
    pub head_track: Option<u64>,
    pub main_player_components: Option<u64>,
    pub head_track_target_transform: Option<u64>,
    pub grab_objects: Option<u64>,
}

/// Where the camera move stands.
#[derive(Debug, Clone, Copy, PartialEq, Eq, Structural)]
pub struct MoveCameraToDeviceStatus {
    pub device_enabled: bool,
    pub camera_state: bool,
    /// Another camera move handles the player's systems.
    pub second_move_camera_to_device: bool,
    pub carrying_weapons_previously: bool,
    pub first_person_active: bool,
    pub moving_camera: bool,
    pub head_track_target_coroutine: bool,
    pub previously_icon_button_active: bool,
    pub previously_activated: bool,
    pub current_player: Option<u64>,
}

/// A device's camera move.
#[derive(Debug, Clone, Copy, PartialEq, Eq, Structural)]
pub struct MoveCameraToDevice {
    pub settings: MoveCameraToDeviceSettings,
    pub status: MoveCameraToDeviceStatus,
}

/// What the game does in one step of a camera move.
#[derive(Debug, Clone, Copy, PartialEq, Eq, Structural)]
pub enum CameraDeviceAction {
    StopHeadBob,
    PlayOrPauseHeadBob,
    StopRunning,
    SetPlayerUsingDevice,
    SetWeaponsUsingDevice,
    CheckFirstPerson,
    DisableCurrentWeapon,
    KeepSingleOrDualWeapon,
    DrawSingleOrDualWeapon,
    DisableWeaponsCamera,
    EnableWeaponsCamera,
    SetPauseUsingDevice,
    ChangePlayerControllerState,
    DisablePlayerMesh,
    EnablePlayerMesh,
    ToggleFootsteps,
    ToggleFootstepsWithDelay,
    ShowOrHideCursor,
    ChangeCameraState,
    DropObjectIfNotWeapon,
    GetIconButtonState,
    SetIconButtonCanBeShown,
    SetMainCameraParent,
    GetCustomAlignTransform,
    GetCameraPosition,
    CalculateExitPosition,
    SetPlayerPosition,
    SetPlayerRotation,
    ResetPlayerCameraDirection,
    SetPlayerCameraRotationOnExit,
    SetCameraParentTransform,
    CheckRemoveDeviceFromList,
    ToggleDynamicElements,
    TogglePlayerHud,
    ToggleSecondaryPlayerHud,
    CheckTouchControls,
    CheckCameraPosition,
    CheckHeadTrackTarget,
    SetCameraTransformDirectly,
    ShowOrHideCursorController,
    SetMouseCursorSpeed,
    CheckTouchZoneList,
    SetCarryWeaponLowerPosition,
    ToggleGeneralCursor,
    EnableUseDeviceButton,
    DisableUseDeviceButton,
    SetRigidbodyState,
    DisableDeviceColliders,
    DisableDeviceLayers,
    SetExamineDevicesCameraState,
    ActivateBlurPanel,
    ChangeBlurPanelValue,
    SetDeviceTransformDirectly,
}

/// One step of a camera move: an action, and the bits of the component
/// that carries it out when it has one.
#[derive(Debug, Clone, Copy, PartialEq, Eq, Structural)]
pub struct CameraDeviceStep {
    pub action: CameraDeviceAction,
    pub target: Option<u64>,
}

/// The action, without a target, when `c` holds.
pub open spec fn step_if(c: bool, a: CameraDeviceAction) -> Seq<CameraDeviceStep> {
    if c { seq![CameraDeviceStep { action: a, target: None }] } else { Seq::empty() }
}

/// The action on the component `o`, when `c` holds and there is such a component.
pub open spec fn step_on(c: bool, o: Option<u64>, a: CameraDeviceAction) -> Seq<CameraDeviceStep> {
    if c && o is Some { seq![CameraDeviceStep { action: a, target: o }] } else { Seq::empty() }
}

/// Whether the player's weapons are handled for this move.
pub open spec fn handles_weapons(cfg: MoveCameraToDeviceSettings, st: MoveCameraToDeviceStatus) -> bool {
    cfg.keep_weapons_if_carrying && (!cfg.keep_only_if_player_is_on_first_person || st.first_person_active)
}

/// Taking over the player's systems on entering the device.
pub open spec fn enter_player_steps(cfg: MoveCameraToDeviceSettings, st: MoveCameraToDeviceStatus) -> Seq<CameraDeviceStep> {
    step_on(true, cfg.player_controller, CameraDeviceAction::SetPlayerUsingDevice)
    + step_on(true, cfg.weapons, CameraDeviceAction::SetWeaponsUsingDevice)
    + step_on(cfg.keep_weapons_if_carrying, cfg.player_controller, CameraDeviceAction::CheckFirstPerson)
    + step_if(handles_weapons(cfg, st) && cfg.disable_weapons_directly_on_start, CameraDeviceAction::DisableCurrentWeapon)
    + step_if(handles_weapons(cfg, st) && !cfg.disable_weapons_directly_on_start, CameraDeviceAction::KeepSingleOrDualWeapon)
    + step_on(cfg.disable_weapons_camera, cfg.weapons, CameraDeviceAction::DisableWeaponsCamera)
    + step_on(true, cfg.pause, CameraDeviceAction::SetPauseUsingDevice)
    + step_on(true, cfg.player_controller, CameraDeviceAction::ChangePlayerControllerState)
    + step_if(cfg.disable_player_mesh_game_object, CameraDeviceAction::DisablePlayerMesh)
    + step_if(cfg.enable_player_mesh_game_object_if_first_person_active && st.first_person_active, CameraDeviceAction::EnablePlayerMesh)
    + step_on(true, cfg.step, CameraDeviceAction::ToggleFootsteps)
    + step_on(cfg.unlock_cursor, cfg.pause, CameraDeviceAction::ShowOrHideCursor)
    + step_on(true, cfg.pause, CameraDeviceAction::ChangeCameraState)
}

/// Entering the device. The player is aligned from the custom transform,
/// else from the camera position.
pub open spec fn enter_steps(cfg: MoveCameraToDeviceSettings, st: MoveCameraToDeviceStatus) -> Seq<CameraDeviceStep> {
    let cma = cfg.camera_movement_active;
    let pos = cma && cfg.align_player_with_camera_position_on_start_use_device;
    let rot = cma && cfg.align_player_with_camera_rotation_on_start_use_device;
    let no_custom = cfg.custom_align_player_transform is None;
    step_on(true, cfg.other_powers, CameraDeviceAction::StopRunning)
    + (if !st.second_move_camera_to_device { enter_player_steps(cfg, st) } else { Seq::empty() })
    + step_on(true, cfg.grab_objects, CameraDeviceAction::DropObjectIfNotWeapon)
    + step_on(true, cfg.using_devices, CameraDeviceAction::GetIconButtonState)
    + step_on(true, cfg.using_devices, CameraDeviceAction::SetIconButtonCanBeShown)
    + step_on(cma, cfg.main_camera, CameraDeviceAction::SetMainCameraParent)
    + step_on(pos, cfg.custom_align_player_transform, CameraDeviceAction::GetCustomAlignTransform)
    + step_on(pos && no_custom, cfg.camera_position, CameraDeviceAction::GetCameraPosition)
    + step_on(pos, st.current_player, CameraDeviceAction::SetPlayerPosition)
    + step_on(rot, cfg.custom_align_player_transform, CameraDeviceAction::GetCustomAlignTransform)
    + step_on(rot && no_custom, cfg.camera_position, CameraDeviceAction::GetCameraPosition)
    + step_on(rot, st.current_player, CameraDeviceAction::SetPlayerRotation)
    + step_on(cma && cfg.reset_player_camera_direction, cfg.player_camera, CameraDeviceAction::ResetPlayerCameraDirection)
}

/// Giving the player's systems back on leaving the device.
pub open spec fn exit_player_steps(cfg: MoveCameraToDeviceSettings, st: MoveCameraToDeviceStatus) -> Seq<CameraDeviceStep> {
    step_on(true, cfg.player_controller, CameraDeviceAction::SetPlayerUsingDevice)
    + step_on(true, cfg.pause, CameraDeviceAction::SetPauseUsingDevice)
    + step_on(true, cfg.player_controller, CameraDeviceAction::ChangePlayerControllerState)
    + step_on(cfg.disable_weapons_camera, cfg.weapons, CameraDeviceAction::EnableWeaponsCamera)
    + step_if(cfg.disable_player_mesh_game_object, CameraDeviceAction::EnablePlayerMesh)
    + step_if(cfg.enable_player_mesh_game_object_if_first_person_active && st.first_person_active, CameraDeviceAction::DisablePlayerMesh)
    + step_on(true, cfg.weapons, CameraDeviceAction::SetWeaponsUsingDevice)
    + step_if(handles_weapons(cfg, st) && cfg.draw_weapons_if_previously_carrying && st.carrying_weapons_previously,
        CameraDeviceAction::DrawSingleOrDualWeapon)
    + step_on(true, cfg.step, CameraDeviceAction::ToggleFootstepsWithDelay)
    + step_on(cfg.unlock_cursor, cfg.pause, CameraDeviceAction::ShowOrHideCursor)
    + step_on(true, cfg.pause, CameraDeviceAction::ChangeCameraState)
}

/// Leaving the device. The player's position comes from the custom
/// transform, else it is worked out; its rotation from the custom transform,
/// else from the camera position.
pub open spec fn exit_steps(cfg: MoveCameraToDeviceSettings, st: MoveCameraToDeviceStatus) -> Seq<CameraDeviceStep> {
    let cma = cfg.camera_movement_active;
    let pos = cma && cfg.align_player_with_camera_position_on_stop_use_device;
    let rot = cma && cfg.align_player_with_camera_rotation_on_stop_use_device;
    let no_custom = cfg.custom_align_player_transform is None;
    step_if(cfg.set_player_camera_rotation_on_exit, CameraDeviceAction::SetPlayerCameraRotationOnExit)
    + (if !st.second_move_camera_to_device { exit_player_steps(cfg, st) } else { Seq::empty() })
    + step_on(pos, cfg.custom_align_player_transform, CameraDeviceAction::GetCustomAlignTransform)
    + step_if(pos && no_custom, CameraDeviceAction::CalculateExitPosition)
    + step_on(pos, st.current_player, CameraDeviceAction::SetPlayerPosition)
    + step_on(rot, cfg.custom_align_player_transform, CameraDeviceAction::GetCustomAlignTransform)
    + step_on(rot && no_custom, cfg.camera_position, CameraDeviceAction::GetCameraPosition)
    + step_on(rot, st.current_player, CameraDeviceAction::SetPlayerRotation)
    + step_on(cma, cfg.camera_parent_transform, CameraDeviceAction::SetCameraParentTransform)
    + step_on(st.previously_activated, cfg.using_devices, CameraDeviceAction::SetIconButtonCanBeShown)
    + step_on(true, cfg.using_devices, CameraDeviceAction::CheckRemoveDeviceFromList)
}

/// The screen, HUD, camera and cursor, in both directions.
pub open spec fn screen_steps(cfg: MoveCameraToDeviceSettings, enabled: bool) -> Seq<CameraDeviceStep> {
    let smooth = cfg.camera_movement_active && cfg.smooth_camera_movement;
    step_on(true, cfg.pause, CameraDeviceAction::ToggleDynamicElements)
    + step_on(cfg.disable_all_player_hud, cfg.pause, CameraDeviceAction::TogglePlayerHud)
    + step_on(!cfg.disable_all_player_hud && cfg.disable_secondary_player_hud, cfg.pause, CameraDeviceAction::ToggleSecondaryPlayerHud)
    + step_on(cfg.disable_touch_controls, cfg.pause, CameraDeviceAction::CheckTouchControls)
    + step_if(smooth, CameraDeviceAction::CheckCameraPosition)
    + step_on(smooth, cfg.head_track, CameraDeviceAction::CheckHeadTrackTarget)
    + step_if(cfg.camera_movement_active && !cfg.smooth_camera_movement, CameraDeviceAction::SetCameraTransformDirectly)
    + step_on(cfg.unlock_cursor, cfg.pause, CameraDeviceAction::ShowOrHideCursorController)
    + step_on(cfg.unlock_cursor && cfg.set_new_mouse_cursor_controller_speed && enabled, cfg.pause,
        CameraDeviceAction::SetMouseCursorSpeed)
    + step_on(true, cfg.pause, CameraDeviceAction::CheckTouchZoneList)
}

/// All steps of moving the camera to (`state`) or from the device.
pub open spec fn move_camera_steps(cfg: MoveCameraToDeviceSettings, st: MoveCameraToDeviceStatus, state: bool) -> Seq<CameraDeviceStep> {
    step_on(state, cfg.head_bob, CameraDeviceAction::StopHeadBob)
    + step_on(true, cfg.head_bob, CameraDeviceAction::PlayOrPauseHeadBob)
    + (if state { enter_steps(cfg, st) } else { exit_steps(cfg, st) })
    + screen_steps(cfg, state)
}

/// The camera move after moving to (`state`) or from the device.
pub open spec fn move_camera_status(cfg: MoveCameraToDeviceSettings, st: MoveCameraToDeviceStatus, state: bool) -> MoveCameraToDeviceStatus {
    MoveCameraToDeviceStatus {
        device_enabled: state,
        carrying_weapons_previously: if state && !st.second_move_camera_to_device && handles_weapons(cfg, st) {
            true
        } else {
            st.carrying_weapons_previously
        },
        camera_state: if cfg.camera_movement_active && cfg.smooth_camera_movement { true } else { st.camera_state },
        ..st
    }
}

/// The steps that lower the weapon and free the cursor when the device
/// carries weapons low.
pub open spec fn free_interaction_steps(cfg: MoveCameraToDeviceSettings) -> Seq<CameraDeviceStep> {
    step_on(cfg.carry_weapon_on_lower_position_active, cfg.weapons, CameraDeviceAction::SetCarryWeaponLowerPosition)
    + step_on(cfg.carry_weapon_on_lower_position_active, cfg.grab_objects, CameraDeviceAction::ToggleGeneralCursor)
}

pub(crate) fn vec_if(c: bool, a: CameraDeviceAction) -> (r: Vec<CameraDeviceStep>)
    ensures
        r@ == step_if(c, a),
{
    let mut r: Vec<CameraDeviceStep> = Vec::new();
    if c {
        r.push(CameraDeviceStep { action: a, target: None });
    }
    assert(r@ =~= step_if(c, a));
    r
}

pub(crate) fn vec_on(c: bool, o: Option<u64>, a: CameraDeviceAction) -> (r: Vec<CameraDeviceStep>)
    ensures
        r@ == step_on(c, o, a),
{
    let mut r: Vec<CameraDeviceStep> = Vec::new();
    if c && o.is_some() {
        r.push(CameraDeviceStep { action: a, target: o });
    }
    assert(r@ =~= step_on(c, o, a));
    r
}

pub(crate) fn push_if(v: &mut Vec<CameraDeviceStep>, c: bool, a: CameraDeviceAction)
    ensures
        final(v)@ == old(v)@ + step_if(c, a),
{
    let mut w = vec_if(c, a);
    v.append(&mut w);
}

pub(crate) fn push_on(v: &mut Vec<CameraDeviceStep>, c: bool, o: Option<u64>, a: CameraDeviceAction)
    ensures
        final(v)@ == old(v)@ + step_on(c, o, a),
{
    let mut w = vec_on(c, o, a);
    v.append(&mut w);
}

fn enter_player_vec(cfg: &MoveCameraToDeviceSettings, st: &MoveCameraToDeviceStatus) -> (v: Vec<CameraDeviceStep>)
    ensures
        v@ == enter_player_steps(*cfg, *st),
{
    let hw = cfg.keep_weapons_if_carrying && (!cfg.keep_only_if_player_is_on_first_person || st.first_person_active);
    let mut v = vec_on(true, cfg.player_controller, CameraDeviceAction::SetPlayerUsingDevice);
    push_on(&mut v, true, cfg.weapons, CameraDeviceAction::SetWeaponsUsingDevice);
    push_on(&mut v, cfg.keep_weapons_if_carrying, cfg.player_controller, CameraDeviceAction::CheckFirstPerson);
    push_if(&mut v, hw && cfg.disable_weapons_directly_on_start, CameraDeviceAction::DisableCurrentWeapon);
    push_if(&mut v, hw && !cfg.disable_weapons_directly_on_start, CameraDeviceAction::KeepSingleOrDualWeapon);
    push_on(&mut v, cfg.disable_weapons_camera, cfg.weapons, CameraDeviceAction::DisableWeaponsCamera);
    push_on(&mut v, true, cfg.pause, CameraDeviceAction::SetPauseUsingDevice);
    push_on(&mut v, true, cfg.player_controller, CameraDeviceAction::ChangePlayerControllerState);
    push_if(&mut v, cfg.disable_player_mesh_game_object, CameraDeviceAction::DisablePlayerMesh);
    push_if(&mut v, cfg.enable_player_mesh_game_object_if_first_person_active && st.first_person_active,
        CameraDeviceAction::EnablePlayerMesh);
    push_on(&mut v, true, cfg.step, CameraDeviceAction::ToggleFootsteps);
    push_on(&mut v, cfg.unlock_cursor, cfg.pause, CameraDeviceAction::ShowOrHideCursor);
    push_on(&mut v, true, cfg.pause, CameraDeviceAction::ChangeCameraState);
    v
}

fn enter_vec(cfg: &MoveCameraToDeviceSettings, st: &MoveCameraToDeviceStatus) -> (v: Vec<CameraDeviceStep>)
    ensures
        v@ == enter_steps(*cfg, *st),
{
    let cma = cfg.camera_movement_active;
    let pos = cma && cfg.align_player_with_camera_position_on_start_use_device;
    let rot = cma && cfg.align_player_with_camera_rotation_on_start_use_device;
    let no_custom = cfg.custom_align_player_transform.is_none();
    let mut v = vec_on(true, cfg.other_powers, CameraDeviceAction::StopRunning);
    let mut player = if !st.second_move_camera_to_device { enter_player_vec(cfg, st) } else { Vec::new() };
    v.append(&mut player);
    push_on(&mut v, true, cfg.grab_objects, CameraDeviceAction::DropObjectIfNotWeapon);
    push_on(&mut v, true, cfg.using_devices, CameraDeviceAction::GetIconButtonState);
    push_on(&mut v, true, cfg.using_devices, CameraDeviceAction::SetIconButtonCanBeShown);
    push_on(&mut v, cma, cfg.main_camera, CameraDeviceAction::SetMainCameraParent);
    push_on(&mut v, pos, cfg.custom_align_player_transform, CameraDeviceAction::GetCustomAlignTransform);
    push_on(&mut v, pos && no_custom, cfg.camera_position, CameraDeviceAction::GetCameraPosition);
    push_on(&mut v, pos, st.current_player, CameraDeviceAction::SetPlayerPosition);
    push_on(&mut v, rot, cfg.custom_align_player_transform, CameraDeviceAction::GetCustomAlignTransform);
    push_on(&mut v, rot && no_custom, cfg.camera_position, CameraDeviceAction::GetCameraPosition);
    push_on(&mut v, rot, st.current_player, CameraDeviceAction::SetPlayerRotation);
    push_on(&mut v, cma && cfg.reset_player_camera_direction, cfg.player_camera, CameraDeviceAction::ResetPlayerCameraDirection);
    v
}

fn exit_player_vec(cfg: &MoveCameraToDeviceSettings, st: &MoveCameraToDeviceStatus) -> (v: Vec<CameraDeviceStep>)
    ensures
        v@ == exit_player_steps(*cfg, *st),
{
    let hw = cfg.keep_weapons_if_carrying && (!cfg.keep_only_if_player_is_on_first_person || st.first_person_active);
    let mut v = vec_on(true, cfg.player_controller, CameraDeviceAction::SetPlayerUsingDevice);
    push_on(&mut v, true, cfg.pause, CameraDeviceAction::SetPauseUsingDevice);
    push_on(&mut v, true, cfg.player_controller, CameraDeviceAction::ChangePlayerControllerState);
    push_on(&mut v, cfg.disable_weapons_camera, cfg.weapons, CameraDeviceAction::EnableWeaponsCamera);
    push_if(&mut v, cfg.disable_player_mesh_game_object, CameraDeviceAction::EnablePlayerMesh);
    push_if(&mut v, cfg.enable_player_mesh_game_object_if_first_person_active && st.first_person_active,
        CameraDeviceAction::DisablePlayerMesh);
    push_on(&mut v, true, cfg.weapons, CameraDeviceAction::SetWeaponsUsingDevice);
    push_if(&mut v, hw && cfg.draw_weapons_if_previously_carrying && st.carrying_weapons_previously,
        CameraDeviceAction::DrawSingleOrDualWeapon);
    push_on(&mut v, true, cfg.step, CameraDeviceAction::ToggleFootstepsWithDelay);
    push_on(&mut v, cfg.unlock_cursor, cfg.pause, CameraDeviceAction::ShowOrHideCursor);
    push_on(&mut v, true, cfg.pause, CameraDeviceAction::ChangeCameraState);
    v
}

fn exit_vec(cfg: &MoveCameraToDeviceSettings, st: &MoveCameraToDeviceStatus) -> (v: Vec<CameraDeviceStep>)
    ensures
        v@ == exit_steps(*cfg, *st),
{
    let cma = cfg.camera_movement_active;
    let pos = cma && cfg.align_player_with_camera_position_on_stop_use_device;
    let rot = cma && cfg.align_player_with_camera_rotation_on_stop_use_device;
    let no_custom = cfg.custom_align_player_transform.is_none();
    let mut v = vec_if(cfg.set_player_camera_rotation_on_exit, CameraDeviceAction::SetPlayerCameraRotationOnExit);
    let mut player = if !st.second_move_camera_to_device { exit_player_vec(cfg, st) } else { Vec::new() };
    v.append(&mut player);
    push_on(&mut v, pos, cfg.custom_align_player_transform, CameraDeviceAction::GetCustomAlignTransform);
    push_if(&mut v, pos && no_custom, CameraDeviceAction::CalculateExitPosition);
    push_on(&mut v, pos, st.current_player, CameraDeviceAction::SetPlayerPosition);
    push_on(&mut v, rot, cfg.custom_align_player_transform, CameraDeviceAction::GetCustomAlignTransform);
    push_on(&mut v, rot && no_custom, cfg.camera_position, CameraDeviceAction::GetCameraPosition);
    push_on(&mut v, rot, st.current_player, CameraDeviceAction::SetPlayerRotation);
    push_on(&mut v, cma, cfg.camera_parent_transform, CameraDeviceAction::SetCameraParentTransform);
    push_on(&mut v, st.previously_activated, cfg.using_devices, CameraDeviceAction::SetIconButtonCanBeShown);
    push_on(&mut v, true, cfg.using_devices, CameraDeviceAction::CheckRemoveDeviceFromList);
    v
}

fn screen_vec(cfg: &MoveCameraToDeviceSettings, enabled: bool) -> (v: Vec<CameraDeviceStep>)
    ensures
        v@ == screen_steps(*cfg, enabled),
{
    let smooth = cfg.camera_movement_active && cfg.smooth_camera_movement;
    let mut v = vec_on(true, cfg.pause, CameraDeviceAction::ToggleDynamicElements);
    push_on(&mut v, cfg.disable_all_player_hud, cfg.pause, CameraDeviceAction::TogglePlayerHud);
    push_on(&mut v, !cfg.disable_all_player_hud && cfg.disable_secondary_player_hud, cfg.pause,
        CameraDeviceAction::ToggleSecondaryPlayerHud);
    push_on(&mut v, cfg.disable_touch_controls, cfg.pause, CameraDeviceAction::CheckTouchControls);
    push_if(&mut v, smooth, CameraDeviceAction::CheckCameraPosition);
    push_on(&mut v, smooth, cfg.head_track, CameraDeviceAction::CheckHeadTrackTarget);
    push_if(&mut v, cfg.camera_movement_active && !cfg.smooth_camera_movement, CameraDeviceAction::SetCameraTransformDirectly);
    push_on(&mut v, cfg.unlock_cursor, cfg.pause, CameraDeviceAction::ShowOrHideCursorController);
    push_on(&mut v, cfg.unlock_cursor && cfg.set_new_mouse_cursor_controller_speed && enabled, cfg.pause,
        CameraDeviceAction::SetMouseCursorSpeed);
    push_on(&mut v, true, cfg.pause, CameraDeviceAction::CheckTouchZoneList);
    v
}

impl MoveCameraToDevice {
    /// Moves the camera to the device (`state`) or back to the player, and
    /// returns, in order, the steps the game carries out.
    pub fn move_camera(&mut self, state: bool) -> (steps: Vec<CameraDeviceStep>)
        ensures
            final(self).settings == old(self).settings,
            final(self).status == move_camera_status(old(self).settings, old(self).status, state),
            steps@ == move_camera_steps(old(self).settings, old(self).status, state),
    {
        let cfg = self.settings;
        let st = self.status;
        let mut v = vec_on(state, cfg.head_bob, CameraDeviceAction::StopHeadBob);
        push_on(&mut v, true, cfg.head_bob, CameraDeviceAction::PlayOrPauseHeadBob);
        let mut middle = if state { enter_vec(&cfg, &st) } else { exit_vec(&cfg, &st) };
        v.append(&mut middle);
        let mut screen = screen_vec(&cfg, state);
        v.append(&mut screen);
        self.status.device_enabled = state;
        if state && !st.second_move_camera_to_device && cfg.keep_weapons_if_carrying
            && (!cfg.keep_only_if_player_is_on_first_person || st.first_person_active) {
            self.status.carrying_weapons_previously = true;
        }
        if cfg.camera_movement_active && cfg.smooth_camera_movement {
            self.status.camera_state = true;
        }
        v
    }

    pub fn set_current_player(&mut self, player: Option<u64>)
        ensures
            final(self).settings == old(self).settings,
            final(self).status == (MoveCameraToDeviceStatus { current_player: player, ..old(self).status }),
    {
        self.status.current_player = player;
    }

    /// Another camera move takes care of the player's systems.
    pub fn has_second_move_camera_to_device(&mut self)
        ensures
            final(self).settings == old(self).settings,
            final(self).status == (MoveCameraToDeviceStatus { second_move_camera_to_device: true, ..old(self).status }),
    {
        self.status.second_move_camera_to_device = true;
    }

    /// The steps of starting free interaction.
    pub fn enable_free_interaction_state(&self) -> (steps: Vec<CameraDeviceStep>)
        ensures
            steps@ == free_interaction_steps(self.settings),
    {
        let c = self.settings.carry_weapon_on_lower_position_active;
        let mut v = vec_on(c, self.settings.weapons, CameraDeviceAction::SetCarryWeaponLowerPosition);
        push_on(&mut v, c, self.settings.grab_objects, CameraDeviceAction::ToggleGeneralCursor);
        v
    }

    /// The steps of ending free interaction: those of starting it.
    pub fn disable_free_interaction_state(&self) -> (steps: Vec<CameraDeviceStep>)
        ensures
            steps@ == free_interaction_steps(self.settings),
    {
        self.enable_free_interaction_state()
    }

    /// Stops the camera move.
    pub fn stop_movement(&mut self)
        ensures
            final(self).settings == old(self).settings,
            final(self).status == (MoveCameraToDeviceStatus { camera_state: false, device_enabled: false, ..old(self).status }),
    {
        self.status.camera_state = false;
        self.status.device_enabled = false;
    }

    pub fn is_camera_moving(&self) -> (r: bool)
        ensures
            r == self.status.moving_camera,
    {
        self.status.moving_camera
    }

    /// The step that enables (`state`) or disables the player's use-device button.
    pub fn set_current_player_use_device_button_enabled_state(&self, state: bool) -> (steps: Vec<CameraDeviceStep>)
        ensures
            steps@ == step_on(true, self.settings.using_devices,
                if state { CameraDeviceAction::EnableUseDeviceButton } else { CameraDeviceAction::DisableUseDeviceButton }),
    {
        let a = if state { CameraDeviceAction::EnableUseDeviceButton } else { CameraDeviceAction::DisableUseDeviceButton };
        vec_on(true, self.settings.using_devices, a)
    }
}

/// A camera move that is set up to move smoothly and touches no player system.
pub open spec fn initial_camera_move() -> MoveCameraToDevice {
    MoveCameraToDevice {
        settings: MoveCameraToDeviceSettings {
            camera_movement_active: true,
            camera_position: None,
            smooth_camera_movement: true,
            use_fixed_lerp_movement: true,
            unlock_cursor: true,
            set_new_mouse_cursor_controller_speed: false,
            disable_player_mesh_game_object: true,
            enable_player_mesh_game_object_if_first_person_active: false,
            disable_weapons_camera: false,
            keep_weapons_if_carrying: false,
            draw_weapons_if_previously_carrying: false,
            keep_only_if_player_is_on_first_person: false,
            disable_weapons_directly_on_start: false,
            carry_weapon_on_lower_position_active: false,
            set_player_camera_rotation_on_exit: false,
            player_pivot_transform_third_person: None,
            player_camera_transform_third_person: None,
            player_pivot_transform_first_person: None,
            player_camera_transform_first_person: None,
            align_player_with_camera_position_on_start_use_device: false,
            align_player_with_camera_position_on_stop_use_device: false,
            align_player_with_camera_rotation_on_start_use_device: false,
            align_player_with_camera_rotation_on_stop_use_device: false,
            custom_align_player_transform: None,
            reset_player_camera_direction: false,
            disable_secondary_player_hud: true,
            disable_all_player_hud: false,
            disable_touch_controls: false,
            show_gizmo: false,
            camera_parent_transform: None,
            main_camera: None,
            head_bob: None,
            other_powers: None,
            weapons: None,
            step: None,
            pause: None,
            using_devices: None,
            player_controller: None,
            player_camera: None,
            head_track: None,
            main_player_components: None,
            head_track_target_transform: None,
            grab_objects: None,
        },
        status: MoveCameraToDeviceStatus {
            device_enabled: false,
            camera_state: false,
            second_move_camera_to_device: false,
            carrying_weapons_previously: false,
            first_person_active: false,
            moving_camera: false,
            head_track_target_coroutine: false,
            previously_icon_button_active: false,
            previously_activated: false,
            current_player: None,
        },
    }
}

impl Default for MoveCameraToDevice {
    fn default() -> (d: Self)
        ensures
            d == initial_camera_move(),
    {
        MoveCameraToDevice {
            settings: MoveCameraToDeviceSettings {
                camera_movement_active: true,
                camera_position: None,
                smooth_camera_movement: true,
                use_fixed_lerp_movement: true,
                unlock_cursor: true,
                set_new_mouse_cursor_controller_speed: false,
                disable_player_mesh_game_object: true,
                enable_player_mesh_game_object_if_first_person_active: false,
                disable_weapons_camera: false,
                keep_weapons_if_carrying: false,
                draw_weapons_if_previously_carrying: false,
                keep_only_if_player_is_on_first_person: false,
                disable_weapons_directly_on_start: false,
                carry_weapon_on_lower_position_active: false,
                set_player_camera_rotation_on_exit: false,
                player_pivot_transform_third_person: None,
                player_camera_transform_third_person: None,
                player_pivot_transform_first_person: None,
                player_camera_transform_first_person: None,
                align_player_with_camera_position_on_start_use_device: false,
                align_player_with_camera_position_on_stop_use_device: false,
                align_player_with_camera_rotation_on_start_use_device: false,
                align_player_with_camera_rotation_on_stop_use_device: false,
                custom_align_player_transform: None,
                reset_player_camera_direction: false,
                disable_secondary_player_hud: true,
                disable_all_player_hud: false,
                disable_touch_controls: false,
                show_gizmo: false,
                camera_parent_transform: None,
                main_camera: None,
                head_bob: None,
                other_powers: None,
                weapons: None,
                step: None,
                pause: None,
                using_devices: None,
                player_controller: None,
                player_camera: None,
                head_track: None,
                main_player_components: None,
                head_track_target_transform: None,
                grab_objects: None,
            },
            status: MoveCameraToDeviceStatus {
                device_enabled: false,
                camera_state: false,
                second_move_camera_to_device: false,
                carrying_weapons_previously: false,
                first_person_active: false,
                moving_camera: false,
                head_track_target_coroutine: false,
                previously_icon_button_active: false,
                previously_activated: false,
                current_player: None,
            },
        }
    }
}

broadcast proof fn lemma_concat_contains(a: Seq<CameraDeviceStep>, b: Seq<CameraDeviceStep>, x: CameraDeviceStep)
    ensures
        #[trigger] (a + b).contains(x) <==> (a.contains(x) || b.contains(x)),
{
    if a.contains(x) {
        let i = choose|i: int| 0 <= i < a.len() && a[i] == x;
        assert((a + b)[i] == x);
    }
    if b.contains(x) {
        let i = choose|i: int| 0 <= i < b.len() && b[i] == x;
        assert((a + b)[a.len() + i] == x);
    }
    if (a + b).contains(x) {
        let i = choose|i: int| 0 <= i < (a + b).len() && (a + b)[i] == x;
        if i < a.len() {
            assert(a[i] == x);
        } else {
            assert(b[i - a.len()] == x);
        }
    }
}

/// Moving the camera to the device and back leaves the device disabled,
/// and when no second move takes care of the player, the player
/// controller is told on the way in and on the way out.
pub proof fn law_enter_then_exit(cfg: MoveCameraToDeviceSettings, st: MoveCameraToDeviceStatus)
    requires
        !st.second_move_camera_to_device,
        cfg.player_controller is Some,
    ensures
        move_camera_status(cfg, st, true).device_enabled,
        !move_camera_status(cfg, move_camera_status(cfg, st, true), false).device_enabled,
        move_camera_steps(cfg, st, true).contains(
            CameraDeviceStep { action: CameraDeviceAction::SetPlayerUsingDevice, target: cfg.player_controller }),
        move_camera_steps(cfg, move_camera_status(cfg, st, true), false).contains(
            CameraDeviceStep { action: CameraDeviceAction::SetPlayerUsingDevice, target: cfg.player_controller }),
{
    broadcast use lemma_concat_contains;
    let pc = CameraDeviceStep { action: CameraDeviceAction::SetPlayerUsingDevice, target: cfg.player_controller };
    let first = step_on(true, cfg.player_controller, CameraDeviceAction::SetPlayerUsingDevice);
    assert(first[0] == pc);
    assert(first.contains(pc));
    assert(enter_player_steps(cfg, st).contains(pc));
    assert(enter_steps(cfg, st).contains(pc));
    let st1 = move_camera_status(cfg, st, true);
    assert(exit_player_steps(cfg, st1).contains(pc));
    assert(exit_steps(cfg, st1).contains(pc));
}

} // verus!
