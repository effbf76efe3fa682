use bevy_allinone::combat::{
    attack_type_from_lowered, combo_count_for_index, current_attack_slot, find_chain, map_attack_type, next_attack_index,
    next_combo_count, DamageType,
};
use bevy_allinone::currency::CurrencyType;
use bevy_allinone::dialog::{advance_dialog, close_dialog, CompleteDialog, DialogContent, DialogNode, DialogSystem};
use bevy_allinone::events::{remote_event_receivers, trigger_crossings, trigger_frame, update_event_trigger, EventTrigger, RemoteEventReceiver, TriggerEventInfo};
use bevy_allinone::experience::{
    apply_experience_gain, experience_grant_amount, grant_xp_from_object, initialize_experience_settings, parse_core_attribute,
    parse_derived_stat, reward_row, reward_target, ExperienceLevel, ExperienceSettings, ObjectExperience, PlayerExperience,
    RewardTarget,
};
use bevy_allinone::extra_movements::{FreeFall, FreeFallEvent, GlideChange, Paraglider, RollOnLanding};
use bevy_allinone::footsteps::{pick_footstep_sound, FootstepController};
use bevy_allinone::game_manager::{toggle_pause, GameState, PlayerManager, SwitchPlayerEvent};
use bevy_allinone::grab::{process_grab_event, GrabEffect, GrabEvent, GrabPowerer, GrabTargetInfo, Grabber, PlacementSlot};
use bevy_allinone::head_track::HeadTrack;
use bevy_allinone::input::{InputAction, InputBuffer, InputState};
use bevy_allinone::stats::{CoreAttribute, DerivedStat};

fn settings_with_levels(reqs: &[u32]) -> ExperienceSettings {
    let levels = reqs
        .iter()
        .enumerate()
        .map(|(i, r)| ExperienceLevel { level_number: i as u32 + 1, xp_required: *r, skill_points_reward: 1 })
        .collect();
    ExperienceSettings { levels, max_level: None, xp_multiplier_enabled: false }
}

#[test]
fn experience_gain_levels_up_through_several_levels() {
    let settings = settings_with_levels(&[100, 200, 300]);
    let mut p = PlayerExperience { current_level: 1, current_xp: 0, total_xp: 0, skill_points: 0 };
    let events = apply_experience_gain(&mut p, 9, 350, &settings);
    assert_eq!(events.len(), 2);
    assert_eq!(events[0].new_level, 2);
    assert_eq!(events[1].new_level, 3);
    assert!(events.iter().all(|e| e.entity == 9));
    assert_eq!(p.current_level, 3);
    assert_eq!(p.current_xp, 50);
    assert_eq!(p.total_xp, 350);
    assert_eq!(p.skill_points, 2);
}

#[test]
fn experience_gain_stops_at_max_level() {
    let mut settings = settings_with_levels(&[10, 10, 10]);
    settings.max_level = Some(2);
    let mut p = PlayerExperience { current_level: 1, current_xp: 0, total_xp: 0, skill_points: 0 };
    let events = apply_experience_gain(&mut p, 1, 100, &settings);
    assert_eq!(events.len(), 1);
    assert_eq!(p.current_level, 2);
    assert_eq!(p.current_xp, 90);
}

#[test]
fn default_level_curve_is_quadratic() {
    let mut s = ExperienceSettings { levels: Vec::new(), max_level: None, xp_multiplier_enabled: false };
    initialize_experience_settings(&mut s);
    assert_eq!(s.levels.len(), 20);
    assert_eq!(s.levels[0].xp_required, 100);
    assert_eq!(s.levels[4].xp_required, 2500);
    assert_eq!(s.levels[19].xp_required, 40000);
    assert_eq!(s.max_level, Some(20));
    let before = s.levels.len();
    initialize_experience_settings(&mut s);
    assert_eq!(s.levels.len(), before);
}

#[test]
fn stat_names_are_read_without_case() {
    assert_eq!(parse_core_attribute("STRENGTH"), Some(CoreAttribute::Strength));
    assert_eq!(parse_core_attribute("Charisma"), Some(CoreAttribute::Charisma));
    assert_eq!(parse_core_attribute("luck"), None);
    assert_eq!(parse_derived_stat("Max_Health"), Some(DerivedStat::MaxHealth));
    assert_eq!(parse_derived_stat("FireResistance"), Some(DerivedStat::FireResistance));
    assert_eq!(parse_derived_stat("mana"), None);
    assert_eq!(reward_target("Agility", false, false), RewardTarget::Core(CoreAttribute::Agility));
    assert_eq!(reward_target("DEFENSE", false, false), RewardTarget::Derived(DerivedStat::Defense));
    assert_eq!(reward_target("reputation", false, false), RewardTarget::Custom);
    assert_eq!(reward_target("strength", true, true), RewardTarget::CustomFlag(true));
    assert_eq!(reward_row(0), 0);
    assert_eq!(reward_row(5), 4);
}

#[test]
fn object_experience_in_range() {
    let fixed = ObjectExperience { xp_amount: 40, xp_range: None, skill_points: 0, skill_points_range: None };
    assert_eq!(experience_grant_amount(&fixed, 999), 40);
    let ranged = ObjectExperience { xp_amount: 40, xp_range: Some((5, 8)), skill_points: 0, skill_points_range: None };
    assert_eq!(experience_grant_amount(&ranged, 6), 6);
    let mut queue = Vec::new();
    for _ in 0..50 {
        grant_xp_from_object(&ranged, 3, &mut queue);
    }
    assert_eq!(queue.len(), 50);
    assert!(queue.iter().all(|e| e.entity == 3 && (5..=8).contains(&e.amount)));
}

fn trigger(limit: Option<u32>) -> EventTrigger {
    EventTrigger {
        on_enter: true,
        on_exit: true,
        on_stay: false,
        tags: vec!["Player".to_string()],
        target_entity: None,
        enter_events: vec![
            TriggerEventInfo { event_name: "open".to_string(), use_remote_event: true },
            TriggerEventInfo { event_name: "log".to_string(), use_remote_event: false },
        ],
        exit_events: vec![TriggerEventInfo { event_name: "close".to_string(), use_remote_event: true }],
        is_active: true,
        trigger_limit: limit,
        times_triggered: 0,
    }
}

#[test]
fn trigger_frames_follow_overlaps() {
    let (entered, exited) = trigger_crossings(&vec![1, 2, 3], &vec![3, 4, 1, 5]);
    assert_eq!(entered, vec![4, 5]);
    assert_eq!(exited, vec![2]);
    let mut t = trigger(Some(3));
    let mut previous: Vec<u64> = Vec::new();
    let fired = trigger_frame(&mut t, &mut previous, &vec![7, 8]);
    assert_eq!(previous, vec![7, 8]);
    assert_eq!(t.times_triggered, 2);
    assert_eq!(fired.iter().map(|f| (f.on_exit, f.target)).collect::<Vec<_>>(), vec![(false, 7), (false, 8)]);
    let fired = trigger_frame(&mut t, &mut previous, &vec![8]);
    assert_eq!(t.times_triggered, 3);
    assert_eq!(fired.iter().map(|f| (f.on_exit, f.target)).collect::<Vec<_>>(), vec![(true, 7)]);
    let fired = trigger_frame(&mut t, &mut previous, &vec![]);
    assert_eq!(t.times_triggered, 3);
    assert!(fired.is_empty());
    assert!(previous.is_empty());
}

#[test]
fn trigger_fires_remote_entries_within_limit() {
    let mut t = trigger(Some(2));
    let fired = update_event_trigger(&mut t, &vec![1, 2, 3], &vec![4]);
    assert_eq!(t.times_triggered, 2);
    assert_eq!(fired.len(), 2);
    assert_eq!(fired[0].target, 1);
    assert_eq!(fired[0].info_index, 0);
    assert!(!fired[0].on_exit);
    assert_eq!(fired[1].target, 2);
    let more = update_event_trigger(&mut t, &vec![5], &vec![6]);
    assert!(more.is_empty());
    assert_eq!(t.times_triggered, 2);
}

#[test]
fn unlimited_trigger_fires_exits_too() {
    let mut t = trigger(None);
    let fired = update_event_trigger(&mut t, &vec![1], &vec![2]);
    assert_eq!(fired.len(), 2);
    assert!(fired[1].on_exit);
    assert_eq!(fired[1].target, 2);
    t.is_active = false;
    assert!(update_event_trigger(&mut t, &vec![1], &vec![2]).is_empty());
}

#[test]
fn remote_events_reach_listeners() {
    let receivers = vec![
        (1u64, RemoteEventReceiver { events: vec!["open".to_string()] }),
        (2u64, RemoteEventReceiver { events: vec!["close".to_string(), "open".to_string()] }),
        (3u64, RemoteEventReceiver { events: vec![] }),
    ];
    assert_eq!(remote_event_receivers("open", None, &receivers), vec![1, 2]);
    assert_eq!(remote_event_receivers("open", Some(2), &receivers), vec![2]);
    assert_eq!(remote_event_receivers("close", Some(1), &receivers), Vec::<u64>::new());
}

#[test]
fn pause_toggles_back_and_forth() {
    assert_eq!(toggle_pause(GameState::Playing), Some(GameState::Paused));
    assert_eq!(toggle_pause(GameState::Paused), Some(GameState::Playing));
    assert_eq!(toggle_pause(GameState::MainMenu), None);
}

#[test]
fn switching_players_cycles_and_reports() {
    let mut pm = PlayerManager { players: vec![10, 20, 30], current_player_index: 2, enable_ai_on_inactive: true };
    assert_eq!(pm.next_player_index(), Some(0));
    let sw = pm.switch_player(SwitchPlayerEvent { target_index: Some(0), target_entity: None }, None).unwrap();
    assert_eq!(sw.old_player, Some(30));
    assert_eq!(sw.new_player, 10);
    assert_eq!(pm.current_player_index, 0);
    assert_eq!(pm.get_current_player(), Some(10));
    assert!(pm.switch_player(SwitchPlayerEvent { target_index: None, target_entity: Some(10) }, None).is_none());
    let empty = PlayerManager { players: vec![], current_player_index: 0, enable_ai_on_inactive: false };
    assert_eq!(empty.next_player_index(), None);
}

fn node(content: &str, is_end: bool) -> DialogNode {
    DialogNode { content: content.to_string(), is_end, ..DialogNode::default() }
}

fn system_with(nodes: Vec<DialogNode>) -> DialogSystem {
    let dialog = CompleteDialog { nodes, ..CompleteDialog::default() };
    let content = DialogContent { complete_dialogs: vec![dialog], ..DialogContent::default() };
    let mut sys = DialogSystem::default();
    sys.current_dialog_content = Some(content);
    sys.progress.dialog_active = true;
    sys
}

#[test]
fn dialog_advances_then_closes() {
    let mut sys = system_with(vec![node("Hello", false), node("Bye", false)]);
    assert!(advance_dialog(&mut sys));
    assert_eq!(sys.progress.current_dialog_index, 1);
    assert_eq!(sys.current_dialog_line, "Bye");
    assert!(advance_dialog(&mut sys));
    assert!(sys.current_dialog_content.is_none());
    assert!(!sys.progress.dialog_active);
    assert!(!advance_dialog(&mut sys));
}

#[test]
fn dialog_end_node_closes_and_close_is_idempotent() {
    let mut sys = system_with(vec![node("The end", true)]);
    assert!(!advance_dialog(&mut sys));
    assert!(sys.current_dialog_content.is_none());
    close_dialog(&mut sys);
    assert!(sys.current_dialog_content.is_none());
    assert!(!sys.progress.dialog_active);
}

#[test]
fn attack_names_map_to_damage_kinds() {
    assert_eq!(map_attack_type("FireBall", 0), DamageType::Fire);
    assert_eq!(map_attack_type("POISON dart", 0), DamageType::Poison);
    assert_eq!(map_attack_type("Shock wave", 0), DamageType::Electric);
    assert_eq!(map_attack_type("Bash", 3), DamageType::Explosion);
    assert_eq!(map_attack_type("Bash", 0), DamageType::Melee);
    assert_eq!(attack_type_from_lowered("FireBall", 0), DamageType::Melee);
}

#[test]
fn combos_and_chains_wrap() {
    assert_eq!(next_combo_count(true, true, 1), 2);
    assert_eq!(next_combo_count(true, true, 3), 1);
    assert_eq!(next_combo_count(true, false, 2), 1);
    assert_eq!(next_combo_count(false, true, 2), 1);
    assert_eq!(next_attack_index(true, 2, 3), 0);
    assert_eq!(next_attack_index(true, 0, 3), 1);
    assert_eq!(next_attack_index(false, 1, 3), 0);
    assert_eq!(current_attack_slot(7, 3), 2);
    assert_eq!(current_attack_slot(1, 3), 1);
    assert_eq!(combo_count_for_index(2), 3);
    let ids = vec!["Light".to_string(), "Heavy".to_string(), "Heavy".to_string()];
    assert_eq!(find_chain(&ids, "Heavy"), Some(1));
    assert_eq!(find_chain(&ids, "None"), None);
}

fn info() -> GrabTargetInfo {
    GrabTargetInfo {
        is_grabbable: true,
        has_physical_settings: false,
        has_grab_sound: false,
        has_drop_sound: false,
        disable_gravity_on_grab: false,
        has_event_system: false,
        has_weapon: false,
        weapon_can_block: false,
    }
}

#[test]
fn grab_then_drop_empties_the_hands() {
    let hands = Some(Grabber::default());
    let (hands, powers, effects) = process_grab_event(GrabEvent::Grab(1, 50), None, hands, None, info());
    assert_eq!(hands.unwrap().held_object, Some(50));
    assert!(powers.is_none());
    assert_eq!(effects[0], GrabEffect::ObjectGrabbed(50));
    assert!(effects.contains(&GrabEffect::AddDefaultMeleeWeapon(50)));
    let (hands, _, effects) = process_grab_event(GrabEvent::Drop(1, 50), None, hands, None, info());
    assert_eq!(hands.unwrap().held_object, None);
    assert_eq!(effects[0], GrabEffect::ObjectDropped(50));
    assert!(effects.contains(&GrabEffect::RemoveGrabComponents(50, 1)));
}

#[test]
fn grab_redirects_and_full_hands_refuse() {
    let mut full = Grabber::default();
    full.held_object = Some(7);
    let (hands, _, effects) = process_grab_event(GrabEvent::Grab(1, 50), Some(60), Some(full), None, info());
    assert_eq!(hands.unwrap().held_object, Some(7));
    assert!(!effects.contains(&GrabEffect::ObjectGrabbed(60)));
    let (hands, _, _) = process_grab_event(GrabEvent::Grab(1, 50), Some(60), Some(Grabber::default()), None, info());
    assert_eq!(hands.unwrap().held_object, Some(60));
}

#[test]
fn powers_hold_each_object_once_and_throw() {
    let powers = Some(GrabPowerer { held_objects: vec![], is_enabled: true });
    let (_, powers, e1) = process_grab_event(GrabEvent::Grab(2, 8), None, None, powers, info());
    let (_, powers, e2) = process_grab_event(GrabEvent::Grab(2, 8), None, None, powers, info());
    assert!(e1.contains(&GrabEffect::ObjectGrabbedByPower(8)));
    assert!(!e2.contains(&GrabEffect::ObjectGrabbedByPower(8)));
    assert_eq!(powers.as_ref().unwrap().held_objects, vec![8]);
    let (_, powers, e3) = process_grab_event(GrabEvent::Throw(2, 8), None, None, powers, info());
    assert_eq!(e3[0], GrabEffect::ThrowObject(8));
    assert!(powers.unwrap().held_objects.is_empty());
}

#[test]
fn power_drop_all_and_slot_placement() {
    let mut p = GrabPowerer { held_objects: vec![3, 4], is_enabled: true };
    assert!(p.drop_all(1, false).is_empty());
    let drops = p.drop_all(1, true);
    assert_eq!(drops, vec![GrabEvent::Drop(1, 3), GrabEvent::Drop(1, 4)]);
    assert!(p.held_objects.is_empty());
    let mut slot = PlacementSlot { is_occupied: false, accepted_names: vec!["Key".to_string()], disable_physics_on_place: true, use_events: true, current_object: None };
    assert!(slot.accepts("Key"));
    assert!(!slot.accepts("Gem"));
    let mut g = Grabber::default();
    g.held_object = Some(9);
    let ev = slot.place(100, 9, &mut g).unwrap();
    assert_eq!(ev.placed_object, 9);
    assert_eq!(g.held_object, None);
    assert!(!slot.accepts("Key"));
}

#[test]
fn input_buffer_consumes_once() {
    let mut buf: InputBuffer<f32> = InputBuffer::default();
    buf.push(InputAction::Jump, 0.5);
    buf.push(InputAction::Interact, 0.6);
    buf.push(InputAction::Jump, 0.7);
    assert!(buf.is_buffered(InputAction::Interact));
    assert!(buf.consume(InputAction::Jump));
    assert_eq!(buf.actions.len(), 2);
    assert_eq!(buf.actions[1].timestamp, 0.7);
    assert!(buf.consume(InputAction::Interact));
    assert!(!buf.is_buffered(InputAction::Interact));
    assert!(!buf.consume(InputAction::Interact));
    buf.retain_flagged(&vec![false]);
    assert!(buf.actions.is_empty());
}

#[test]
fn input_frame_reads_buttons_and_weapon_slot() {
    let mut st = InputState::default();
    let mut buf: InputBuffer<f32> = InputBuffer::default();
    st.update_input_state(&mut buf, 1.0, &vec![InputAction::Crouch], &vec![InputAction::Jump, InputAction::SelectWeapon3, InputAction::SelectWeapon0]);
    assert!(st.crouch_pressed);
    assert!(st.jump_pressed);
    assert_eq!(st.select_weapon, Some(2));
    assert!(st.is_action_just_pressed(InputAction::Jump));
    assert!(!st.is_action_just_pressed(InputAction::Attack));
    assert!(st.is_action_just_pressed(InputAction::SelectWeapon3));
    assert!(!st.is_action_just_pressed(InputAction::SelectWeapon0));
    assert!(!st.is_action_just_pressed(InputAction::Crouch));
    assert_eq!(buf.actions.len(), 1);
    st.set_input_enabled(false);
    assert!(!st.jump_pressed && !st.crouch_pressed && st.select_weapon.is_none());
    st.update_input_state(&mut buf, 2.0, &vec![], &vec![InputAction::Interact]);
    assert!(!st.interact_pressed);
    assert_eq!(buf.actions.len(), 1);
}

#[test]
fn attack_and_weapon_keys_read_as_just_pressed() {
    let st = InputState { attack_pressed: true, ..InputState::default() };
    assert!(st.is_action_just_pressed(InputAction::Attack));
    let mut st = InputState::default();
    let mut buf: InputBuffer<f32> = InputBuffer::default();
    st.update_input_state(
        &mut buf,
        0.5,
        &vec![InputAction::Fire],
        &vec![InputAction::Fire, InputAction::NextWeapon, InputAction::ToggleInventory, InputAction::SelectWeapon0],
    );
    assert!(st.is_action_just_pressed(InputAction::Fire));
    assert!(st.is_action_just_pressed(InputAction::NextWeapon));
    assert!(!st.is_action_just_pressed(InputAction::PrevWeapon));
    assert!(st.is_action_just_pressed(InputAction::ToggleInventory));
    assert!(st.is_action_just_pressed(InputAction::SelectWeapon0));
    assert!(!st.is_action_just_pressed(InputAction::SelectWeapon1));
}

#[test]
fn currency_keys() {
    assert_eq!(CurrencyType::Gold.stat_key(), "currency_gold");
    assert_eq!(CurrencyType::Special.stat_key(), "currency_special");
    assert_eq!(CurrencyType::Silver.display_name(), "Silver");
}

#[test]
fn head_bones_by_name() {
    let mut h = HeadTrack::default();
    assert!(h.consider_bone(5, "Neck_01"));
    assert!(h.consider_bone(6, "HEAD"));
    assert!(!h.consider_bone(7, "head_end"));
    assert_eq!(h.head_bone, Some(6));
    assert_eq!(h.neck_bone, Some(5));
    assert!(h.bones_found());
    assert!(h.choose_target(None));
    let mut h2 = HeadTrack::default();
    h2.look_in_camera_direction = false;
    h2.active_target = Some(3);
    assert!(!h2.choose_target(None));
    assert_eq!(h2.active_target, None);
}

#[test]
fn footsteps_alternate_and_pick_in_pool() {
    let mut f = FootstepController::default();
    assert!(f.next_foot());
    assert!(!f.next_foot());
    assert_eq!(pick_footstep_sound(0), None);
    for _ in 0..20 {
        let i = pick_footstep_sound(4).unwrap();
        assert!(i < 4);
    }
}

#[test]
fn movement_modes() {
    let mut p = Paraglider { active: true, is_gliding: false };
    assert_eq!(p.glide_input(true, false), GlideChange::Started);
    assert_eq!(p.glide_input(true, false), GlideChange::Unchanged);
    assert_eq!(p.glide_input(false, false), GlideChange::Stopped);
    p.set_active(false);
    assert_eq!(p.glide_input(true, false), GlideChange::Unchanged);
    let mut ff = FreeFall { enabled: true, active: false, is_falling: false };
    assert_eq!(ff.update(4, false, true), Some(FreeFallEvent::Enter(4)));
    assert_eq!(ff.update(4, true, false), Some(FreeFallEvent::Exit(4)));
    let mut r = RollOnLanding { enabled: true, prepared: false, executing: false };
    assert!(r.prepare_input(true));
    assert!(r.landing_check(false, true));
    assert!(!r.landing_check(false, true));
    r.finish_check(true);
    assert!(!r.executing);
}
