use bevy_allinone::devices::door_system::{DoorCurrentState, DoorMovementStep, DoorOpenCloseEvent, DoorSystem};
use bevy_allinone::devices::electronic_device::{ElectronicDevice, ElectronicDeviceEvent};
use bevy_allinone::devices::examine_object::{ExamineObject, ExamineObjectEventType, ExaminePlaceInfo};
use bevy_allinone::devices::hologram_door::{HologramDoor, HologramDoorAction};
use bevy_allinone::devices::move_camera_to_device::{CameraDeviceAction, CameraDeviceStep, MoveCameraToDevice};
use bevy_allinone::devices::move_device_to_camera::MoveDeviceToCamera;
use bevy_allinone::devices::pressure_plate::{PlateTimer, PressurePlate};
use bevy_allinone::devices::recharger_station::{PlayerVitals, RechargerStation};
use bevy_allinone::devices::simple_switch::{SimpleSwitch, SimpleSwitchEventType};
use bevy_allinone::devices::string_action::DeviceStringAction;
use bevy_allinone::devices::using_devices::{DeviceList, InteractionOutcome, UsingDevicesSystem};
use std::collections::HashSet;

#[test]
fn door_opens_on_button_and_finishes_opening() {
    let mut door = DoorSystem::default();
    assert_eq!(door.status.door_state, DoorCurrentState::Closed);
    let ev = door.change_doors_state_by_button(7);
    assert_eq!(ev, Some(DoorOpenCloseEvent { door_entity: 7, open: true }));
    assert!(door.status.enter);
    door.settings.doors_number = 2;
    assert_eq!(door.advance_movement(1), DoorMovementStep::Moving);
    assert!(door.status.moving);
    assert_eq!(door.advance_movement(2), DoorMovementStep::FinishedOpening);
    assert_eq!(door.status.door_state, DoorCurrentState::Opened);
    assert!(!door.status.moving);
}

#[test]
fn locked_door_refuses_to_open() {
    let mut door = DoorSystem::default();
    let lock = door.lock_door(3);
    assert!(lock.locked);
    assert_eq!(door.open_doors(3), None);
    assert!(!door.status.enter);
}

#[test]
fn unlocking_opens_the_door_when_configured() {
    let mut door = DoorSystem::default();
    door.lock_door(3);
    let (ev, lock) = door.unlock_door(3);
    assert!(!lock.locked);
    assert_eq!(ev, Some(DoorOpenCloseEvent { door_entity: 3, open: true }));
}

#[test]
fn device_trigger_lists_each_player_once() {
    let mut dev = ElectronicDevice::default();
    dev.settings.use_only_for_trigger = true;
    dev.trigger_enter(1, 10);
    dev.trigger_enter(1, 10);
    assert_eq!(dev.player_found_list, vec![10]);
    assert!(dev.status.player_inside);
    dev.trigger_exit(1, 10);
    assert!(dev.player_found_list.is_empty());
    assert!(!dev.status.player_inside);
    assert_eq!(dev.status.current_player, None);
}

#[test]
fn device_activation_toggles_and_reports() {
    let mut dev = ElectronicDevice::default();
    dev.settings.use_event_on_start_using_device = true;
    dev.settings.use_move_camera_to_device = true;
    dev.status.current_player = Some(5);
    let ev = dev.activate_device(1, 5);
    assert_eq!(ev, Some(ElectronicDeviceEvent::StartUsing { device_entity: 1, player_entity: 5 }));
    assert!(dev.status.using_device);
    dev.activate_device(1, 5);
    assert!(!dev.status.using_device);
}

#[test]
fn unusable_device_reports_when_asked() {
    let mut dev = ElectronicDevice::default();
    dev.status.device_can_be_used = false;
    dev.settings.activate_event_if_unable_to_use_device = true;
    assert_eq!(dev.activate_device(2, 9), Some(ElectronicDeviceEvent::UnableToUse { device_entity: 2, player_entity: 9 }));
    assert!(!dev.status.using_device);
}

#[test]
fn hologram_enter_then_exit() {
    let mut holo = HologramDoor::default();
    let acts = holo.entering_door();
    assert!(acts.contains(&HologramDoorAction::ShowOpenText));
    assert!(acts.contains(&HologramDoorAction::PlayEnterSound));
    assert!(holo.status.inside);
    let acts = holo.exiting_door();
    assert!(acts.contains(&HologramDoorAction::ShowRegularText));
    assert!(!holo.status.inside);
}

#[test]
fn locked_hologram_does_not_open() {
    let mut holo = HologramDoor::default();
    holo.lock_hologram();
    assert!(holo.open_current_door().is_empty());
    assert!(!holo.status.open_door_coroutine);
}

#[test]
fn default_switch_without_animation_is_refused() {
    let mut sw = SimpleSwitch::default();
    assert!(sw.activate_switch(1).is_none());
}

#[test]
fn dual_switch_toggles_and_reports_each_side() {
    let mut sw = SimpleSwitch::default();
    sw.settings.use_single_switch = false;
    sw.settings.button_uses_animation = false;
    sw.settings.object_to_active = Some(42);
    sw.settings.device_string_action = Some(8);
    let p1 = sw.activate_switch(1).unwrap();
    assert!(sw.status.switch_turned_on);
    assert_eq!(p1.events.len(), 1);
    assert_eq!(p1.events[0].event_type, SimpleSwitchEventType::TurnOn);
    assert_eq!(p1.events[0].target_entity, Some(42));
    assert_eq!(p1.string_action, Some((8, true)));
    let p2 = sw.activate_switch(1).unwrap();
    assert!(!sw.status.switch_turned_on);
    assert_eq!(p2.events[0].event_type, SimpleSwitchEventType::TurnOff);
}

#[test]
fn switch_sends_itself_and_its_user() {
    let mut sw = SimpleSwitch::default();
    sw.settings.button_uses_animation = false;
    sw.settings.use_unity_events = false;
    sw.settings.send_this_button = true;
    sw.settings.send_current_user = true;
    sw.settings.object_to_active = Some(4);
    sw.status.current_player = Some(77);
    let p = sw.activate_switch(3).unwrap();
    assert_eq!(p.events.len(), 2);
    assert_eq!(p.events[0].parameter, Some(77));
    assert_eq!(p.events[1].parameter, Some(3));
    sw.set_enabled(false);
    assert!(sw.activate_switch(3).is_none());
}

#[test]
fn pressure_plate_add_then_clear() {
    let mut plate = PressurePlate::default();
    assert!(plate.ignores("Player"));
    assert!(!plate.is_active());
    plate.add_object(11);
    assert!(plate.is_active());
    assert!(!plate.remove_object(12));
    assert!(plate.remove_object(11));
    plate.add_object(11);
    plate.clear_objects();
    assert!(!plate.is_active());
    assert!(plate.disable_function_called);
}

#[test]
fn pressure_plate_reports_activation_once_and_release_after_delay() {
    let mut plate = PressurePlate::default();
    let mut found = HashSet::new();
    found.insert(5u64);
    let step = plate.apply_position_contacts(1, found.clone(), false);
    assert_eq!(step.timer, PlateTimer::Reset);
    let act = step.activated.unwrap();
    assert_eq!(act.plate_entity, 1);
    assert!(act.objects_on_plate.contains(&5));
    let again = plate.apply_position_contacts(1, found, false);
    assert!(again.activated.is_none());
    let waiting = plate.apply_position_contacts(1, HashSet::new(), false);
    assert_eq!(waiting.timer, PlateTimer::Advance);
    assert!(waiting.deactivated.is_none());
    let released = plate.apply_position_contacts(1, HashSet::new(), true);
    assert_eq!(released.deactivated.unwrap().plate_entity, 1);
    assert!(plate.objects.is_empty());
    assert!(!plate.using_plate);
}

#[test]
fn pressure_plate_tags_are_kept_once() {
    let mut plate = PressurePlate::default();
    plate.set_tags_to_ignore(vec!["A".to_string(), "B".to_string(), "A".to_string()]);
    assert_eq!(plate.tags_to_ignore.len(), 2);
    plate.add_tag_to_ignore("B".to_string());
    assert_eq!(plate.tags_to_ignore.len(), 2);
    plate.remove_tag_to_ignore("A");
    assert!(!plate.ignores("A"));
    assert!(plate.ignores("B"));
}

#[test]
fn recharger_heals_until_full() {
    let mut st = RechargerStation::default();
    assert!(st.activate(1).is_none());
    st.set_inside(true);
    st.set_player(Some(9));
    let started = st.activate(1).unwrap();
    assert_eq!(started.player_entity, Some(9));
    assert!(st.is_active());
    let none = st.update_frame(1, Some(PlayerVitals { full_after_heal: false, needs_healing: true }));
    assert!(none.is_none());
    let full = st.update_frame(1, Some(PlayerVitals { full_after_heal: true, needs_healing: false })).unwrap();
    assert_eq!(full.player_entity, 9);
    assert!(st.is_fully_healed());
    assert!(!st.is_active());
    assert!(st.activate(1).is_none());
}

fn place(e: u64, show: bool, stop: bool, disable_after: bool) -> ExaminePlaceInfo {
    ExaminePlaceInfo {
        name: String::new(),
        examine_place_transform: Some(e),
        show_message_on_press: show,
        message_on_press: "Found it".to_string(),
        use_event_on_press: false,
        send_player_on_event: false,
        stop_use_object_on_press: stop,
        disable_object_interaction_on_press: false,
        remove_object_from_devices_list: false,
        resume_player_interaction_button_on_press: false,
        pause_player_interaction_button_on_press: false,
        disable_element_place_after_press: disable_after,
        element_place_disabled: false,
        use_sound_on_press: false,
        has_sound_on_press: false,
    }
}

#[test]
fn examine_place_press_sends_message_and_stop() {
    let mut obj = ExamineObject::default();
    obj.settings.press_places_in_order = true;
    obj.examine_place_list.push(place(20, true, true, true));
    assert!(obj.check_examine_place_info(20));
    assert!(!obj.check_examine_place_info(21));
    let sent = obj.apply_event(ExamineObjectEventType::CheckPlace(20));
    assert_eq!(sent.len(), 2);
    assert!(matches!(&sent[0], ExamineObjectEventType::ShowMessage(m, Some(0)) if m == "Found it"));
    assert!(matches!(sent[1], ExamineObjectEventType::Stop));
    assert!(obj.examine_place_list[0].element_place_disabled);
    assert!(!obj.check_examine_place_info(20));
    assert!(obj.apply_event(ExamineObjectEventType::CheckPlace(20)).is_empty());
}

#[test]
fn examine_start_twice_ends() {
    let mut obj = ExamineObject::default();
    obj.apply_event(ExamineObjectEventType::Start);
    assert!(obj.status.using_device);
    obj.apply_event(ExamineObjectEventType::ShowMessage("hi".to_string(), None));
    assert!(obj.status.showing_message);
    obj.apply_event(ExamineObjectEventType::Start);
    assert!(!obj.status.using_device);
    assert!(!obj.status.showing_message);
}

#[test]
fn examine_input_needs_examination() {
    let mut obj = ExamineObject::default();
    assert!(obj.examine_input(true, true, true).is_empty());
    obj.set_examine_device_state(true);
    let sent = obj.examine_input(false, false, true);
    assert_eq!(sent.len(), 1);
    assert!(matches!(sent[0], ExamineObjectEventType::Start));
}

#[test]
fn camera_move_tells_the_player_controller_both_ways() {
    let mut mv = MoveCameraToDevice::default();
    mv.settings.player_controller = Some(30);
    mv.settings.pause = Some(31);
    let steps = mv.move_camera(true);
    assert!(mv.status.device_enabled);
    assert!(mv.status.camera_state);
    let pc = CameraDeviceStep { action: CameraDeviceAction::SetPlayerUsingDevice, target: Some(30) };
    assert!(steps.contains(&pc));
    assert_eq!(steps.last(), Some(&CameraDeviceStep { action: CameraDeviceAction::CheckTouchZoneList, target: Some(31) }));
    let back = mv.move_camera(false);
    assert!(!mv.status.device_enabled);
    assert!(back.contains(&pc));
    mv.stop_movement();
    assert!(!mv.status.camera_state);
}

#[test]
fn second_camera_move_leaves_player_alone() {
    let mut mv = MoveCameraToDevice::default();
    mv.settings.player_controller = Some(30);
    mv.has_second_move_camera_to_device();
    let steps = mv.move_camera(true);
    assert!(!steps.iter().any(|s| s.action == CameraDeviceAction::SetPlayerUsingDevice));
}

#[test]
fn device_move_remembers_weapons() {
    let mut mv = MoveDeviceToCamera::default();
    mv.settings.keep_weapons_if_carrying = true;
    mv.settings.disable_weapons_directly_on_start = true;
    let steps = mv.move_camera(true, true);
    assert!(mv.status.carrying_weapons_previously);
    assert!(mv.status.previously_activated);
    assert!(steps.iter().any(|s| s.action == CameraDeviceAction::DisableCurrentWeapon));
    mv.settings.draw_weapons_if_previously_carrying = true;
    let back = mv.move_camera(false, false);
    assert!(back.iter().any(|s| s.action == CameraDeviceAction::DrawSingleOrDualWeapon));
}

#[test]
fn string_action_follows_state() {
    let mut a = DeviceStringAction::default();
    a.settings.secondary_device_action = "Close".to_string();
    a.change_action_name(true);
    assert_eq!(a.current_device_action, "Use");
    a.change_action_name(false);
    assert_eq!(a.current_device_action, "Close");
}

#[test]
fn device_list_adds_tagged_devices_once() {
    let mut sys = UsingDevicesSystem::default();
    let mut list = DeviceList::default();
    let mut lamp = DeviceStringAction::default();
    lamp.settings.device_name = "Lamp".to_string();
    sys.consider_device(&mut list, 4, &lamp);
    assert!(list.device_entities.is_empty());
    let mut tagged = DeviceStringAction::default();
    tagged.settings.device_name = "Door".to_string();
    sys.consider_device(&mut list, 4, &tagged);
    sys.consider_device(&mut list, 4, &tagged);
    assert_eq!(list.device_entities, vec![4]);
    assert_eq!(sys.status.device_list_count, 1);
    assert!(sys.status.device_list_contains_elements);
    sys.select_target(&list, Some(0), Some(&tagged));
    assert_eq!(sys.status.object_to_use, Some(4));
    assert_eq!(sys.current_device_action_name, "Door");
    assert_eq!(sys.process_device_interaction(true), InteractionOutcome::UseDevice(4));
    sys.select_target(&list, None, None);
    assert_eq!(sys.status.current_target_index, -1);
    assert_eq!(sys.process_device_interaction(true), InteractionOutcome::Ignored);
}

#[test]
fn using_a_device_twice_restores_it() {
    let mut sys = UsingDevicesSystem::default();
    let mut dev = ElectronicDevice::default();
    let mut action = DeviceStringAction::default();
    action.settings.hide_icon_on_use_device = true;
    assert!(sys.use_device_with_action(&mut dev, &mut action));
    assert!(action.using_device);
    assert!(!sys.status.icon_button_can_be_shown);
    assert!(!sys.use_device_with_action(&mut dev, &mut action));
    assert!(!dev.status.using_device);
}
