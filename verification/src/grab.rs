//! Grabbing objects: one object held in the hands, several held by powers,
//! and what grabbing, dropping and throwing change. Forces, distances and
//! physics are the game's.

use vstd::prelude::*;
use crate::lists::{contains_entity, contains_name, has_name, remove_entity, without};
use crate::text::str_equals;

verus! {

/// How a grabber holds its object.
#[derive(Debug, Clone, Copy, PartialEq, Eq, Structural)]
pub enum GrabMode {
    /// The object follows by physics.
    Powers,
    /// The object sits at a fixed place in front of the grabber.
    Realistic,
}

/// An object that can be grabbed. Its weight and extra reach are the game's.
#[derive(Debug, Clone, Copy, PartialEq, Eq, Structural)]
pub struct Grabbable {
    pub use_weight: bool,
    pub use_events: bool,
}

/// Something that holds one object in its hands.
#[derive(Debug, Clone, Copy, PartialEq, Eq, Structural)]
pub struct Grabber {
    pub held_object: Option<u64>,
    pub mode: GrabMode,
    pub is_rotating: bool,
    pub is_charging_throw: bool,
}

/// Something that holds objects by powers.
#[derive(Debug, Clone)]
pub struct GrabPowerer {
    /// Bits of the held objects, each once, in grabbing order.
    pub held_objects: Vec<u64>,
    pub is_enabled: bool,
}

/// A grab request, by grabber and object bits.
#[derive(Debug, Clone, Copy, PartialEq, Eq, Structural)]
pub enum GrabEvent {
    Grab(u64, u64),
    Drop(u64, u64),
    /// A throw; its direction and force are the game's.
    Throw(u64, u64),
}

/// What the game knows of the object a request is about.
#[derive(Debug, Clone, Copy, PartialEq, Eq, Structural)]
pub struct GrabTargetInfo {
    /// The object is grabbable and moves by physics.
    pub is_grabbable: bool,
    pub has_physical_settings: bool,
    pub has_grab_sound: bool,
    pub has_drop_sound: bool,
    pub disable_gravity_on_grab: bool,
    /// The object reports grabs and drops.
    pub has_event_system: bool,
    /// The object is a melee weapon.
    pub has_weapon: bool,
    pub weapon_can_block: bool,
}

/// Something the game does for a grab request, in order.
#[derive(Debug, Clone, Copy, PartialEq, Eq, Structural)]
pub enum GrabEffect {
    ObjectGrabbed(u64),
    /// Mass, gravity and damping from the object's physical settings.
    ApplyGrabPhysics(u64),
    PlayGrabSound(u64),
    /// Mark the object as an improvised weapon with a fresh attack state.
    MakeImprovisedWeapon(u64),
    /// Give the object the default swing attack.
    AddDefaultMeleeWeapon(u64),
    ObjectGrabbedByPower(u64),
    GrabEventTriggered(u64),
    /// Let the grabber block with the object.
    AddBlockShield(u64),
    /// Enable (`true`) or disable the weapon's abilities for the grabber.
    SetWeaponAbilities(u64, bool),
    ObjectDropped(u64),
    ObjectDroppedByPower(u64),
    DropEventTriggered(u64),
    /// Take the weapon marks off the object and the shield off the grabber.
    RemoveGrabComponents(u64, u64),
    PlayDropSound(u64),
    RestoreGravity(u64),
    /// Push the object away with the throw's force.
    ThrowObject(u64),
    ThrowEventTriggered(u64),
}

/// `e` when `c` holds, nothing otherwise.
pub open spec fn effect_if(c: bool, e: GrabEffect) -> Seq<GrabEffect> {
    if c { seq![e] } else { Seq::empty() }
}

/// A hand grabber takes an object only with empty hands.
pub open spec fn hand_takes(g: Option<Grabber>) -> bool {
    g matches Some(gr) && gr.held_object is None
}

/// The hands after a grab of `t`.
pub open spec fn hands_after_grab(g: Option<Grabber>, t: u64) -> Option<Grabber> {
    if hand_takes(g) { Some(Grabber { held_object: Some(t), ..g->0 }) } else { g }
}

/// The hands after letting go of `t`: only the held object is let go.
pub open spec fn hands_after_release(g: Option<Grabber>, t: u64) -> Option<Grabber> {
    if g matches Some(gr) && gr.held_object == Some(t) {
        Some(Grabber { held_object: None, is_rotating: false, ..g->0 })
    } else {
        g
    }
}

/// The power list after a grab of `t`: added once.
pub open spec fn powers_after_grab(p: Option<Seq<u64>>, t: u64) -> Option<Seq<u64>> {
    match p {
        Some(s) => if s.contains(t) { Some(s) } else { Some(s.push(t)) },
        None => None,
    }
}

/// The power list after letting go of `t`.
pub open spec fn powers_after_release(p: Option<Seq<u64>>, t: u64) -> Option<Seq<u64>> {
    match p {
        Some(s) => Some(without(s, t)),
        None => None,
    }
}

/// What a grab of `t` by `g` does.
pub open spec fn grab_effects(g: u64, t: u64, hands: Option<Grabber>, powers: Option<Seq<u64>>, info: GrabTargetInfo) -> Seq<GrabEffect> {
    let h = hand_takes(hands);
    effect_if(h, GrabEffect::ObjectGrabbed(t))
    + effect_if(h && info.has_physical_settings && info.is_grabbable, GrabEffect::ApplyGrabPhysics(t))
    + effect_if(h && info.has_physical_settings && info.has_grab_sound, GrabEffect::PlayGrabSound(t))
    + effect_if(h, GrabEffect::MakeImprovisedWeapon(t))
    + effect_if(h && !info.has_weapon, GrabEffect::AddDefaultMeleeWeapon(t))
    + effect_if(powers matches Some(s) && !s.contains(t), GrabEffect::ObjectGrabbedByPower(t))
    + effect_if(info.has_event_system, GrabEffect::GrabEventTriggered(t))
    + effect_if(info.has_weapon && info.weapon_can_block, GrabEffect::AddBlockShield(g))
    + effect_if(info.has_weapon, GrabEffect::SetWeaponAbilities(g, true))
}

/// What a drop of `t` by `g` does.
pub open spec fn drop_effects(g: u64, t: u64, hands: Option<Grabber>, powers: Option<Seq<u64>>, info: GrabTargetInfo) -> Seq<GrabEffect> {
    effect_if(hands matches Some(gr) && gr.held_object == Some(t), GrabEffect::ObjectDropped(t))
    + effect_if(powers is Some, GrabEffect::ObjectDroppedByPower(t))
    + effect_if(info.has_event_system, GrabEffect::DropEventTriggered(t))
    + seq![GrabEffect::RemoveGrabComponents(t, g)]
    + effect_if(info.has_physical_settings && info.has_drop_sound, GrabEffect::PlayDropSound(t))
    + effect_if(info.has_physical_settings && info.disable_gravity_on_grab && info.is_grabbable, GrabEffect::RestoreGravity(t))
    + effect_if(info.has_weapon, GrabEffect::SetWeaponAbilities(g, false))
}

/// Whether a throw of `t` finds it held, in the hands or by powers.
pub open spec fn throw_finds(t: u64, hands: Option<Grabber>, powers: Option<Seq<u64>>) -> bool {
    (hands matches Some(gr) && gr.held_object == Some(t)) || (powers matches Some(s) && s.contains(t))
}

/// What a throw of `t` by `g` does.
pub open spec fn throw_effects(g: u64, t: u64, hands: Option<Grabber>, powers: Option<Seq<u64>>, info: GrabTargetInfo) -> Seq<GrabEffect> {
    let thrown = throw_finds(t, hands, powers) && info.is_grabbable;
    effect_if(thrown, GrabEffect::ThrowObject(t))
    + effect_if(thrown && info.has_event_system, GrabEffect::ThrowEventTriggered(t))
    + seq![GrabEffect::RemoveGrabComponents(t, g)]
    + effect_if(info.has_weapon, GrabEffect::SetWeaponAbilities(g, false))
}

/// The view of an optional power holder: its list.
pub open spec fn powers_view(p: Option<GrabPowerer>) -> Option<Seq<u64>> {
    match p {
        Some(pw) => Some(pw.held_objects@),
        None => None,
    }
}

/// A request after redirection to the object really grabbed.
pub open spec fn redirected(ev: GrabEvent, redirect: Option<u64>) -> GrabEvent {
    match ev {
        GrabEvent::Grab(g, t) => GrabEvent::Grab(g, if redirect is Some { redirect->0 } else { t }),
        _ => ev,
    }
}

/// The outcome of a request on the hands and the powers of its grabber.
pub open spec fn spec_grab_event(ev: GrabEvent, hands: Option<Grabber>, powers: Option<Seq<u64>>, info: GrabTargetInfo)
    -> (Option<Grabber>, Option<Seq<u64>>, Seq<GrabEffect>) {
    match ev {
        GrabEvent::Grab(g, t) => (hands_after_grab(hands, t), powers_after_grab(powers, t), grab_effects(g, t, hands, powers, info)),
        GrabEvent::Drop(g, t) => (hands_after_release(hands, t), powers_after_release(powers, t), drop_effects(g, t, hands, powers, info)),
        GrabEvent::Throw(g, t) => (
            hands_after_release(hands, t),
            if powers matches Some(s) && s.contains(t) { powers_after_release(powers, t) } else { powers },
            throw_effects(g, t, hands, powers, info),
        ),
    }
}

fn push_effect(v: &mut Vec<GrabEffect>, c: bool, e: GrabEffect)
    ensures
        final(v)@ == old(v)@ + effect_if(c, e),
{
    if c {
        v.push(e);
    }
    assert(v@ =~= old(v)@ + effect_if(c, e));
}

fn first_effect(c: bool, e: GrabEffect) -> (v: Vec<GrabEffect>)
    ensures
        v@ == effect_if(c, e),
{
    let mut v: Vec<GrabEffect> = Vec::new();
    push_effect(&mut v, c, e);
    assert(v@ =~= effect_if(c, e));
    v
}

impl Grabber {
    /// The drop request of the interaction button: the held object, if any.
    pub fn drop_request(&self, me: u64, interact: bool) -> (r: Option<GrabEvent>)
        ensures
            r == (if interact && self.held_object is Some {
                Some(GrabEvent::Drop(me, self.held_object->0))
            } else {
                None
            }),
    {
        match self.held_object {
            Some(held) => if interact { Some(GrabEvent::Drop(me, held)) } else { None },
            None => None,
        }
    }

    /// Rotating the held object follows the aim button while something is held.
    pub fn set_rotating(&mut self, aim: bool)
        ensures
            *final(self) == (if old(self).held_object is Some {
                Grabber { is_rotating: aim, ..*old(self) }
            } else {
                *old(self)
            }),
    {
        if self.held_object.is_some() {
            self.is_rotating = aim;
        }
    }

    /// The attack button while something is held: pressed, the throw
    /// charges; released after charging, the object is thrown. The force
    /// grows and resets on the game's side.
    pub fn throw_input(&mut self, me: u64, attack: bool) -> (r: Option<GrabEvent>)
        ensures
            old(self).held_object is None ==> r is None && *final(self) == *old(self),
            old(self).held_object matches Some(h) ==> {
                &&& attack ==> r is None && *final(self) == (Grabber { is_charging_throw: true, ..*old(self) })
                &&& !attack && old(self).is_charging_throw ==> r == Some(GrabEvent::Throw(me, h))
                    && *final(self) == (Grabber { is_charging_throw: false, ..*old(self) })
                &&& !attack && !old(self).is_charging_throw ==> r is None && *final(self) == *old(self)
            },
    {
        match self.held_object {
            Some(held) => {
                if attack {
                    self.is_charging_throw = true;
                    None
                } else if self.is_charging_throw {
                    self.is_charging_throw = false;
                    Some(GrabEvent::Throw(me, held))
                } else {
                    None
                }
            },
            None => None,
        }
    }
}

impl Default for Grabber {
    /// A grabber with empty hands.
    fn default() -> (g: Self)
        ensures
            g == (Grabber { held_object: None, mode: GrabMode::Powers, is_rotating: false, is_charging_throw: false }),
    {
        Grabber { held_object: None, mode: GrabMode::Powers, is_rotating: false, is_charging_throw: false }
    }
}

impl GrabPowerer {
    /// Each object is held once.
    pub open spec fn wf(&self) -> bool {
        self.held_objects@.no_duplicates()
    }

    /// The drop requests of the interaction button: every held object, in
    /// order; the powers then hold nothing.
    pub fn drop_all(&mut self, me: u64, interact: bool) -> (r: Vec<GrabEvent>)
        ensures
            final(self).is_enabled == old(self).is_enabled,
            interact && old(self).held_objects@.len() > 0 ==> {
                &&& final(self).held_objects@ == Seq::<u64>::empty()
                &&& r@ == old(self).held_objects@.map_values(|h: u64| GrabEvent::Drop(me, h))
            },
            !(interact && old(self).held_objects@.len() > 0) ==> {
                &&& final(self).held_objects@ == old(self).held_objects@
                &&& r@ == Seq::<GrabEvent>::empty()
            },
    {
        let mut r: Vec<GrabEvent> = Vec::new();
        if !interact || self.held_objects.len() == 0 {
            return r;
        }
        let mut i: usize = 0;
        while i < self.held_objects.len()
            invariant
                i <= self.held_objects@.len(),
                self.held_objects@ == old(self).held_objects@,
                r@ == old(self).held_objects@.take(i as int).map_values(|h: u64| GrabEvent::Drop(me, h)),
            decreases self.held_objects@.len() - i,
        {
            r.push(GrabEvent::Drop(me, self.held_objects[i]));
            proof {
                assert(old(self).held_objects@.take(i + 1) =~= old(self).held_objects@.take(i as int).push(self.held_objects@[i as int]));
                assert(r@ =~= old(self).held_objects@.take(i + 1).map_values(|h: u64| GrabEvent::Drop(me, h)));
            }
            i = i + 1;
        }
        assert(old(self).held_objects@.take(i as int) =~= old(self).held_objects@);
        self.held_objects.clear();
        r
    }

    /// The grab requests of the interaction button: with powers enabled and
    /// nothing held, one for each object in reach, in order.
    pub fn grab_requests(&self, me: u64, interact: bool, in_reach: &Vec<u64>) -> (r: Vec<GrabEvent>)
        ensures
            r@ == (if self.is_enabled && interact && self.held_objects@.len() == 0 {
                in_reach@.map_values(|t: u64| GrabEvent::Grab(me, t))
            } else {
                Seq::<GrabEvent>::empty()
            }),
    {
        let mut r: Vec<GrabEvent> = Vec::new();
        if !self.is_enabled || !interact || self.held_objects.len() != 0 {
            return r;
        }
        let mut i: usize = 0;
        while i < in_reach.len()
            invariant
                i <= in_reach@.len(),
                r@ == in_reach@.take(i as int).map_values(|t: u64| GrabEvent::Grab(me, t)),
            decreases in_reach@.len() - i,
        {
            r.push(GrabEvent::Grab(me, in_reach[i]));
            proof {
                assert(in_reach@.take(i + 1) =~= in_reach@.take(i as int).push(in_reach@[i as int]));
                assert(r@ =~= in_reach@.take(i + 1).map_values(|t: u64| GrabEvent::Grab(me, t)));
            }
            i = i + 1;
        }
        assert(in_reach@.take(i as int) =~= in_reach@);
        r
    }

    /// Forgets the held objects that no longer exist.
    pub fn forget_missing(&mut self, missing: &Vec<u64>)
        ensures
            old(self).wf() ==> final(self).wf(),
            final(self).is_enabled == old(self).is_enabled,
            final(self).held_objects@ == old(self).held_objects@.filter(|h: u64| !missing@.contains(h)),
    {
        let mut kept: Vec<u64> = Vec::new();
        let mut i: usize = 0;
        while i < self.held_objects.len()
            invariant
                i <= self.held_objects@.len(),
                self.held_objects@ == old(self).held_objects@,
                kept@ == self.held_objects@.take(i as int).filter(|h: u64| !missing@.contains(h)),
                self.held_objects@.no_duplicates() ==> kept@.no_duplicates(),
                forall|k: int| 0 <= k < kept@.len() ==> self.held_objects@.take(i as int).contains(#[trigger] kept@[k]),
            decreases self.held_objects@.len() - i,
        {
            let h = self.held_objects[i];
            proof {
                assert(self.held_objects@.take(i + 1).drop_last() =~= self.held_objects@.take(i as int));
                reveal(Seq::filter);
            }
            if !contains_entity(missing, h) {
                proof {
                    assert forall|k: int| self.held_objects@.no_duplicates() && 0 <= k < kept@.len() implies #[trigger] kept@[k] != h by {
                        let j = choose|j: int| 0 <= j < i && self.held_objects@.take(i as int)[j] == kept@[k];
                        assert(self.held_objects@[j] == kept@[k]);
                    }
                }
                kept.push(h);
            }
            proof {
                assert forall|k: int| 0 <= k < kept@.len() implies self.held_objects@.take(i + 1).contains(#[trigger] kept@[k]) by {
                    if self.held_objects@.take(i as int).contains(kept@[k]) {
                        let j = choose|j: int| 0 <= j < i && self.held_objects@.take(i as int)[j] == kept@[k];
                        assert(self.held_objects@.take(i + 1)[j] == kept@[k]);
                    } else {
                        assert(self.held_objects@.take(i + 1)[i as int] == kept@[k]);
                    }
                }
            }
            i = i + 1;
        }
        assert(self.held_objects@.take(i as int) =~= self.held_objects@);
        self.held_objects = kept;
    }
}

/// Applies a grab request to the hands and the powers of its grabber (each
/// `None` when the grabber has none). `redirect` is the object a grab of the
/// requested one really takes, when there is such an object; `info`
/// describes the object taken. Returns the updated hands and powers and
/// what the game does, in order.
pub fn process_grab_event(ev: GrabEvent, redirect: Option<u64>, hands: Option<Grabber>, powers: Option<GrabPowerer>,
    info: GrabTargetInfo) -> (r: (Option<Grabber>, Option<GrabPowerer>, Vec<GrabEffect>))
    ensures
        (r.0, powers_view(r.1), r.2@) == spec_grab_event(redirected(ev, redirect), hands, powers_view(powers), info),
        r.1 matches Some(p) ==> p.is_enabled == powers->0.is_enabled,
        (powers matches Some(p) && p.wf()) ==> (r.1 matches Some(q) && q.wf()),
{
    match ev {
        GrabEvent::Grab(g, t0) => {
            let t = match redirect { Some(x) => x, None => t0 };
            let h = match hands { Some(gr) => gr.held_object.is_none(), None => false };
            let new_hands = match hands {
                Some(gr) => if gr.held_object.is_none() { Some(Grabber { held_object: Some(t), ..gr }) } else { hands },
                None => None,
            };
            let mut new_powers = powers;
            let mut power_took = false;
            match new_powers {
                Some(ref mut pw) => {
                    if !contains_entity(&pw.held_objects, t) {
                        let ghost before = pw.held_objects@;
                        pw.held_objects.push(t);
                        power_took = true;
                        proof {
                            assert forall|i: int, j: int| 0 <= i < j < pw.held_objects@.len() && before.no_duplicates()
                                implies pw.held_objects@[i] != pw.held_objects@[j] by {
                                if j == before.len() {
                                    assert(before[i] == pw.held_objects@[i]);
                                }
                            }
                        }
                    }
                },
                None => {},
            }
            let mut v = first_effect(h, GrabEffect::ObjectGrabbed(t));
            push_effect(&mut v, h && info.has_physical_settings && info.is_grabbable, GrabEffect::ApplyGrabPhysics(t));
            push_effect(&mut v, h && info.has_physical_settings && info.has_grab_sound, GrabEffect::PlayGrabSound(t));
            push_effect(&mut v, h, GrabEffect::MakeImprovisedWeapon(t));
            push_effect(&mut v, h && !info.has_weapon, GrabEffect::AddDefaultMeleeWeapon(t));
            push_effect(&mut v, power_took, GrabEffect::ObjectGrabbedByPower(t));
            push_effect(&mut v, info.has_event_system, GrabEffect::GrabEventTriggered(t));
            push_effect(&mut v, info.has_weapon && info.weapon_can_block, GrabEffect::AddBlockShield(g));
            push_effect(&mut v, info.has_weapon, GrabEffect::SetWeaponAbilities(g, true));
            (new_hands, new_powers, v)
        },
        GrabEvent::Drop(g, t) => {
            let dropped = match hands { Some(gr) => gr.held_object == Some(t), None => false };
            let new_hands = match hands {
                Some(gr) => if gr.held_object == Some(t) {
                    Some(Grabber { held_object: None, is_rotating: false, ..gr })
                } else {
                    hands
                },
                None => None,
            };
            let has_powers = powers.is_some();
            let new_powers = match powers {
                Some(pw) => {
                    proof {
                        crate::lists::lemma_without(pw.held_objects@, t);
                    }
                    Some(GrabPowerer { held_objects: remove_entity(&pw.held_objects, t), is_enabled: pw.is_enabled })
                },
                None => None,
            };
            let mut v = first_effect(dropped, GrabEffect::ObjectDropped(t));
            push_effect(&mut v, has_powers, GrabEffect::ObjectDroppedByPower(t));
            push_effect(&mut v, info.has_event_system, GrabEffect::DropEventTriggered(t));
            v.push(GrabEffect::RemoveGrabComponents(t, g));
            push_effect(&mut v, info.has_physical_settings && info.has_drop_sound, GrabEffect::PlayDropSound(t));
            push_effect(&mut v, info.has_physical_settings && info.disable_gravity_on_grab && info.is_grabbable,
                GrabEffect::RestoreGravity(t));
            push_effect(&mut v, info.has_weapon, GrabEffect::SetWeaponAbilities(g, false));
            (new_hands, new_powers, v)
        },
        GrabEvent::Throw(g, t) => {
            let in_hands = match hands { Some(gr) => gr.held_object == Some(t), None => false };
            let new_hands = match hands {
                Some(gr) => if gr.held_object == Some(t) {
                    Some(Grabber { held_object: None, is_rotating: false, ..gr })
                } else {
                    hands
                },
                None => None,
            };
            let mut by_powers = false;
            let new_powers = match powers {
                Some(pw) => {
                    if contains_entity(&pw.held_objects, t) {
                        by_powers = true;
                        proof {
                            crate::lists::lemma_without(pw.held_objects@, t);
                        }
                        Some(GrabPowerer { held_objects: remove_entity(&pw.held_objects, t), is_enabled: pw.is_enabled })
                    } else {
                        Some(pw)
                    }
                },
                None => None,
            };
            let thrown = (in_hands || by_powers) && info.is_grabbable;
            let mut v = first_effect(thrown, GrabEffect::ThrowObject(t));
            push_effect(&mut v, thrown && info.has_event_system, GrabEffect::ThrowEventTriggered(t));
            v.push(GrabEffect::RemoveGrabComponents(t, g));
            push_effect(&mut v, info.has_weapon, GrabEffect::SetWeaponAbilities(g, false));
            (new_hands, new_powers, v)
        },
    }
}

/// A grabbed object is held until it is dropped: grabbing with empty hands
/// holds it, and dropping it empties the hands; the powers hold it once and
/// let go of it entirely.
pub proof fn law_grab_then_drop(g: u64, t: u64, gr: Grabber, powers: Seq<u64>)
    requires
        gr.held_object is None,
        powers.no_duplicates(),
    ensures
        hands_after_grab(Some(gr), t) == Some(Grabber { held_object: Some(t), ..gr }),
        hands_after_release(hands_after_grab(Some(gr), t), t) == Some(Grabber { held_object: None, is_rotating: false, ..gr }),
        powers_after_grab(Some(powers), t)->0.contains(t),
        powers_after_grab(Some(powers), t)->0.no_duplicates(),
        !powers_after_release(powers_after_grab(Some(powers), t), t)->0.contains(t),
{
    let after = powers_after_grab(Some(powers), t)->0;
    if !powers.contains(t) {
        assert(after[after.len() - 1] == t);
        assert forall|i: int, j: int| 0 <= i < j < after.len() implies after[i] != after[j] by {
            if j == after.len() - 1 {
                assert(after[i] == powers[i]);
            }
        }
    }
    crate::lists::lemma_without(after, t);
}

/// A place where an object can be set down and snapped. Its reach and
/// snapping offset are the game's.
#[derive(Debug, Clone)]
pub struct PlacementSlot {
    pub is_occupied: bool,
    /// Names of the objects it takes; empty means any.
    pub accepted_names: Vec<String>,
    pub disable_physics_on_place: bool,
    pub use_events: bool,
    pub current_object: Option<u64>,
}

/// An object set down in a slot.
#[derive(Debug, Clone, Copy, PartialEq, Eq, Structural)]
pub struct PlacementEvent {
    pub slot: u64,
    pub placed_object: u64,
}

impl PlacementSlot {
    /// Whether the slot takes an object of this name: it is free, and takes
    /// any object or names this one.
    pub fn accepts(&self, name: &str) -> (r: bool)
        ensures
            r == (!self.is_occupied && (self.accepted_names@.len() == 0 || has_name(self.accepted_names@, name@))),
    {
        if self.is_occupied {
            return false;
        }
        self.accepted_names.len() == 0 || contains_name(&self.accepted_names, name)
    }

    /// Sets an object down in the slot, taking it out of the grabber's hands;
    /// reports it when the slot reports placements.
    pub fn place(&mut self, me: u64, object: u64, grabber: &mut Grabber) -> (r: Option<PlacementEvent>)
        ensures
            final(self).is_occupied,
            final(self).current_object == Some(object),
            final(self).accepted_names == old(self).accepted_names,
            final(self).disable_physics_on_place == old(self).disable_physics_on_place,
            final(self).use_events == old(self).use_events,
            *final(grabber) == (Grabber { held_object: None, ..*old(grabber) }),
            r == (if old(self).use_events { Some(PlacementEvent { slot: me, placed_object: object }) } else { None }),
    {
        grabber.held_object = None;
        self.is_occupied = true;
        self.current_object = Some(object);
        if self.use_events {
            Some(PlacementEvent { slot: me, placed_object: object })
        } else {
            None
        }
    }
}

/// An object that can be set in a put-object system.
#[derive(Debug, Clone)]
pub struct ObjectToPlace {
    pub object_name: String,
    pub is_placed: bool,
}

/// A receptacle that takes one object of a given name. Its reach is the game's.
#[derive(Debug, Clone)]
pub struct PutObjectSystem {
    pub is_object_placed: bool,
    pub current_object_placed: Option<u64>,
    pub object_name_to_place: String,
    /// Takes only the one object named below.
    pub use_certain_object: bool,
    pub certain_object_to_place: Option<u64>,
}

impl PutObjectSystem {
    /// Whether the object `e` may be set here: it is not placed elsewhere,
    /// bears the expected name, and is the expected object when one is named.
    pub fn can_take(&self, e: u64, obj: &ObjectToPlace) -> (r: bool)
        ensures
            r == (!obj.is_placed && obj.object_name@ == self.object_name_to_place@
                && (!self.use_certain_object || self.certain_object_to_place == Some(e))),
    {
        if obj.is_placed || !str_equals(obj.object_name.as_str(), self.object_name_to_place.as_str()) {
            return false;
        }
        !self.use_certain_object || self.certain_object_to_place == Some(e)
    }

    /// Sets the object `e` here.
    pub fn take_object(&mut self, e: u64, obj: &mut ObjectToPlace)
        ensures
            final(self).is_object_placed,
            final(self).current_object_placed == Some(e),
            final(self).object_name_to_place == old(self).object_name_to_place,
            final(self).use_certain_object == old(self).use_certain_object,
            final(self).certain_object_to_place == old(self).certain_object_to_place,
            final(obj).is_placed,
            final(obj).object_name == old(obj).object_name,
    {
        self.is_object_placed = true;
        self.current_object_placed = Some(e);
        obj.is_placed = true;
    }

    /// The placed object was taken away: the receptacle is free again.
    pub fn release_object(&mut self, obj: &mut ObjectToPlace)
        ensures
            !final(self).is_object_placed,
            final(self).current_object_placed is None,
            final(self).object_name_to_place == old(self).object_name_to_place,
            final(self).use_certain_object == old(self).use_certain_object,
            final(self).certain_object_to_place == old(self).certain_object_to_place,
            !final(obj).is_placed,
            final(obj).object_name == old(obj).object_name,
    {
        self.forget_object();
        obj.is_placed = false;
    }

    /// The placed object no longer exists: the receptacle is free again.
    pub fn forget_object(&mut self)
        ensures
            !final(self).is_object_placed,
            final(self).current_object_placed is None,
            final(self).object_name_to_place == old(self).object_name_to_place,
            final(self).use_certain_object == old(self).use_certain_object,
            final(self).certain_object_to_place == old(self).certain_object_to_place,
    {
        self.is_object_placed = false;
        self.current_object_placed = None;
    }
}

} // verus!
