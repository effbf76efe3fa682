use bevy_allinone::combat::{damage_outcome, decal_events, defense_applies, resistance_stat, DamageOutcome, DamageType};
use bevy_allinone::events::{trigger_update_fits_checked, EventTrigger};
use bevy_allinone::stats::DerivedStat;
use bevy_allinone::experience::{apply_experience_gain, experience_gain_fits, ExperienceLevel, ExperienceSettings, PlayerExperience};
use bevy_allinone::grab::{GrabEvent, GrabMode, GrabPowerer, Grabber, ObjectToPlace, PutObjectSystem};
use bevy_allinone::input::{InputAction, InputBindings};
use bevy_allinone::devices::pressure_plate::PressurePlate;
use std::collections::HashSet;

fn one_level_table(req: u32) -> ExperienceSettings {
    ExperienceSettings {
        levels: vec![ExperienceLevel { level_number: 1, xp_required: req, skill_points_reward: 1 }],
        max_level: None,
        xp_multiplier_enabled: false,
    }
}

#[test]
fn gain_that_overflows_the_total_does_not_fit() {
    let settings = one_level_table(100);
    let p = PlayerExperience { current_level: 1, current_xp: 0, total_xp: u32::MAX - 5, skill_points: 0 };
    assert!(experience_gain_fits(&p, 5, &settings));
    assert!(!experience_gain_fits(&p, 6, &settings));
}

#[test]
fn gain_that_overflows_the_level_does_not_fit() {
    let settings = one_level_table(10);
    let at_top = PlayerExperience { current_level: u32::MAX, current_xp: 0, total_xp: 0, skill_points: 0 };
    // Level u32::MAX has no row in a one-row table, so nothing levels up.
    assert!(experience_gain_fits(&at_top, 50, &settings));
    let first = PlayerExperience { current_level: 1, current_xp: 0, total_xp: 0, skill_points: u32::MAX };
    // Leaving level 1 would grant one more skill point than fits.
    assert!(!experience_gain_fits(&first, 10, &settings));
    assert!(experience_gain_fits(&first, 9, &settings));
}

fn counter_trigger(times: u32, limit: Option<u32>) -> EventTrigger {
    EventTrigger {
        on_enter: true,
        on_exit: true,
        on_stay: false,
        tags: Vec::new(),
        target_entity: None,
        enter_events: Vec::new(),
        exit_events: Vec::new(),
        is_active: true,
        trigger_limit: limit,
        times_triggered: times,
    }
}

#[test]
fn trigger_counter_overflow_is_detected() {
    let near_top = counter_trigger(u32::MAX - 2, None);
    assert!(trigger_update_fits_checked(&near_top, &vec![1], &vec![2]));
    assert!(!trigger_update_fits_checked(&near_top, &vec![1, 3], &vec![2]));
    // With a limit the counter never passes it.
    let limited = counter_trigger(u32::MAX - 2, Some(u32::MAX));
    assert!(trigger_update_fits_checked(&limited, &vec![1, 3], &vec![2, 4]));
    // An inactive trigger counts nothing.
    let mut idle = counter_trigger(u32::MAX, None);
    idle.is_active = false;
    assert!(trigger_update_fits_checked(&idle, &vec![1], &vec![2]));
}

#[test]
fn hands_drop_rotate_and_throw() {
    let empty = Grabber::default();
    assert_eq!(empty.drop_request(1, true), None);
    let mut g = Grabber { held_object: Some(7), mode: GrabMode::Realistic, is_rotating: false, is_charging_throw: false };
    assert_eq!(g.drop_request(1, false), None);
    assert_eq!(g.drop_request(1, true), Some(GrabEvent::Drop(1, 7)));
    g.set_rotating(true);
    assert!(g.is_rotating);
    assert_eq!(g.throw_input(1, true), None);
    assert!(g.is_charging_throw);
    assert_eq!(g.throw_input(1, false), Some(GrabEvent::Throw(1, 7)));
    assert!(!g.is_charging_throw);
    assert_eq!(g.throw_input(1, false), None);
    let mut idle = Grabber::default();
    idle.set_rotating(true);
    assert!(!idle.is_rotating);
    assert_eq!(idle.throw_input(1, true), None);
    assert!(!idle.is_charging_throw);
}

#[test]
fn powers_grab_in_reach_and_forget_missing() {
    let mut p = GrabPowerer { held_objects: Vec::new(), is_enabled: true };
    assert_eq!(p.grab_requests(9, true, &vec![4, 5]), vec![GrabEvent::Grab(9, 4), GrabEvent::Grab(9, 5)]);
    assert_eq!(p.grab_requests(9, false, &vec![4, 5]), vec![]);
    p.held_objects = vec![4, 5, 6];
    assert_eq!(p.grab_requests(9, true, &vec![8]), vec![]);
    p.forget_missing(&vec![5, 11]);
    assert_eq!(p.held_objects, vec![4, 6]);
    let off = GrabPowerer { held_objects: Vec::new(), is_enabled: false };
    assert_eq!(off.grab_requests(9, true, &vec![4]), vec![]);
}

#[test]
fn put_object_takes_named_object_then_releases() {
    let mut spot = PutObjectSystem {
        is_object_placed: false,
        current_object_placed: None,
        object_name_to_place: "Key".to_string(),
        use_certain_object: false,
        certain_object_to_place: None,
    };
    let mut key = ObjectToPlace { object_name: "Key".to_string(), is_placed: false };
    let rock = ObjectToPlace { object_name: "Rock".to_string(), is_placed: false };
    assert!(!spot.can_take(3, &rock));
    assert!(spot.can_take(2, &key));
    spot.take_object(2, &mut key);
    assert!(spot.is_object_placed);
    assert_eq!(spot.current_object_placed, Some(2));
    assert!(key.is_placed);
    assert!(!spot.can_take(2, &key));
    spot.release_object(&mut key);
    assert!(!spot.is_object_placed);
    assert_eq!(spot.current_object_placed, None);
    assert!(!key.is_placed);
    spot.use_certain_object = true;
    spot.certain_object_to_place = Some(8);
    assert!(!spot.can_take(2, &key));
    assert!(spot.can_take(8, &key));
    spot.take_object(8, &mut key);
    spot.forget_object();
    assert_eq!(spot.current_object_placed, None);
}

#[test]
fn damage_outcome_follows_target_state() {
    assert_eq!(damage_outcome(true, false, false, DamageType::Melee, false, false), DamageOutcome::Ignored);
    assert_eq!(damage_outcome(false, true, false, DamageType::Heal, false, false), DamageOutcome::Ignored);
    assert_eq!(damage_outcome(false, false, true, DamageType::Fire, false, false), DamageOutcome::Ignored);
    assert_eq!(damage_outcome(false, false, false, DamageType::Heal, true, true), DamageOutcome::Heal);
    assert_eq!(damage_outcome(false, false, false, DamageType::Melee, true, true), DamageOutcome::Parried);
    assert_eq!(damage_outcome(false, false, false, DamageType::Melee, true, false), DamageOutcome::Blocked);
    assert_eq!(damage_outcome(false, false, false, DamageType::Ranged, false, true), DamageOutcome::Hit);
}

#[test]
fn resistances_and_defense_by_kind() {
    assert_eq!(resistance_stat(DamageType::Fire), Some(DerivedStat::FireResistance));
    assert_eq!(resistance_stat(DamageType::Explosion), Some(DerivedStat::ExplosionResistance));
    assert_eq!(resistance_stat(DamageType::Melee), None);
    assert!(defense_applies(DamageType::Ranged));
    assert!(!defense_applies(DamageType::Poison));
}

#[test]
fn decals_follow_kinds_and_cap() {
    let kinds = vec![DamageType::Ranged, DamageType::Melee];
    let events = vec![
        (DamageType::Melee, true),
        (DamageType::Fire, true),
        (DamageType::Ranged, false),
        (DamageType::Ranged, true),
        (DamageType::Melee, true),
    ];
    assert_eq!(decal_events(true, 16, &kinds, &events), vec![0, 3, 4]);
    assert_eq!(decal_events(true, 2, &kinds, &events), vec![0, 3]);
    assert_eq!(decal_events(false, 16, &kinds, &events), Vec::<usize>::new());
}

#[test]
fn powers_forget_missing_keeps_order() {
    let mut p = GrabPowerer { held_objects: vec![3, 1, 3, 2], is_enabled: true };
    p.forget_missing(&vec![1]);
    assert_eq!(p.held_objects, vec![3, 3, 2]);
}

#[test]
fn experience_accounting_over_levels() {
    let settings = ExperienceSettings {
        levels: vec![
            ExperienceLevel { level_number: 1, xp_required: 10, skill_points_reward: 2 },
            ExperienceLevel { level_number: 2, xp_required: 20, skill_points_reward: 3 },
            ExperienceLevel { level_number: 3, xp_required: 40, skill_points_reward: 5 },
        ],
        max_level: Some(4),
        xp_multiplier_enabled: false,
    };
    let mut p = PlayerExperience { current_level: 1, current_xp: 5, total_xp: 5, skill_points: 1 };
    let events = apply_experience_gain(&mut p, 7, 30, &settings);
    // 35 held: level 1 -> 2 spends 10, 2 -> 3 spends 20, 5 left below 40.
    assert_eq!(p.current_level, 3);
    assert_eq!(p.current_xp, 5);
    assert_eq!(p.skill_points, 1 + 2 + 3);
    assert_eq!(p.total_xp, 35);
    assert_eq!(events.iter().map(|e| e.new_level).collect::<Vec<_>>(), vec![2, 3]);
}

#[test]
fn bindings_fire_and_rebind() {
    let mut b = InputBindings {
        bindings: vec![(InputAction::Jump, vec![1, 2]), (InputAction::Attack, vec![3]), (InputAction::Interact, vec![2])],
    };
    assert_eq!(b.active_actions(&vec![2]), vec![InputAction::Jump, InputAction::Interact]);
    assert_eq!(b.active_actions(&vec![9]), Vec::<InputAction>::new());
    b.rebind(InputAction::Jump, 7);
    assert_eq!(b.bindings[0], (InputAction::Jump, vec![7]));
    assert_eq!(b.active_actions(&vec![1, 3]), vec![InputAction::Attack]);
    b.rebind(InputAction::Reload, 4);
    assert_eq!(b.bindings.len(), 4);
    assert_eq!(b.bindings[3], (InputAction::Reload, vec![4]));
    assert_eq!(b.active_actions(&vec![4, 7]), vec![InputAction::Jump, InputAction::Reload]);
}

#[test]
fn plate_is_in_use_while_pressed() {
    let mut plate = PressurePlate::default();
    let mut found = HashSet::new();
    found.insert(5u64);
    let step = plate.apply_position_contacts(1, found.clone(), false);
    assert!(step.activated.is_some());
    assert!(plate.using_plate && plate.is_active());
    let step = plate.apply_position_contacts(1, found, false);
    assert!(step.activated.is_none());
    assert!(plate.using_plate);
    let step = plate.apply_position_contacts(1, HashSet::new(), true);
    assert!(step.deactivated.is_some());
    assert!(!plate.using_plate && !plate.is_active());
}
