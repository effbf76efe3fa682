//! Pressure plates: a plate that reports when objects step on it and,
//! after a delay, when the last one has left.

use vstd::prelude::*;
use std::collections::HashSet;
use crate::lists::{contains_name, has_name, insert_name, names_distinct, remove_name};

verus! {

broadcast use vstd::std_specs::hash::group_hash_axioms;

/// A pressure plate. The distance, the plate's travel and the release timer
/// are the game's; the plate keeps what is on it and which side it last reported.
#[derive(Debug)]
pub struct PressurePlate {
    /// Names of objects the plate does not react to, each once.
    pub tags_to_ignore: Vec<String>,
    pub using_plate: bool,
    /// The plate has reported that something stepped on it.
    pub active_function_called: bool,
    /// The plate has reported that it was released.
    pub disable_function_called: bool,
    /// Bits of the entities on the plate.
    pub objects: HashSet<u64>,
    /// Bits of the plate's moving part.
    pub plate: Option<u64>,
}

/// Sent when something steps on a released plate.
#[derive(Debug)]
pub struct PressurePlateActivated {
    pub plate_entity: u64,
    pub objects_on_plate: HashSet<u64>,
}

/// Sent when the plate is released.
#[derive(Debug, Clone, Copy, PartialEq, Eq, Structural)]
pub struct PressurePlateDeactivated {
    pub plate_entity: u64,
}

/// What the release timer does this frame.
#[derive(Debug, Clone, Copy, PartialEq, Eq, Structural)]
pub enum PlateTimer {
    Keep,
    /// Add the frame's time.
    Advance,
    /// Start again from zero.
    Reset,
}

/// The outcome of one detection pass.
#[derive(Debug)]
pub struct PlateStep {
    pub timer: PlateTimer,
    pub activated: Option<PressurePlateActivated>,
    pub deactivated: Option<PressurePlateDeactivated>,
}

/// A copy of a set of entity bits (std's `HashSet::clone`).
#[verifier::external_body]
fn copy_entity_set(s: &HashSet<u64>) -> (r: HashSet<u64>)
    ensures
        r@ == s@,
{
    s.clone()
}

/// One pass of distance detection on plate `a`, giving plate `b` and
/// `step`, when `found` is what stands within reach of the plate and
/// `expired` says whether the release countdown, advanced by this pass, has
/// reached the delay.
pub open spec fn position_pass(a: PressurePlate, b: PressurePlate, plate_entity: u64, found: Set<u64>, expired: bool, step: PlateStep) -> bool {
    &&& (b.tags_to_ignore == a.tags_to_ignore)
    &&& (b.plate == a.plate)
    &&& (!found.is_empty() ==> b.objects@ == found && step.timer == PlateTimer::Reset
        && step.deactivated is None
        && b.active_function_called
        && b.using_plate == (a.using_plate || !a.active_function_called)
        && b.disable_function_called == (a.disable_function_called && a.active_function_called)
        && (step.activated is Some <==> !a.active_function_called)
        && (step.activated matches Some(act) ==> act.plate_entity == plate_entity && act.objects_on_plate@ == found))
    &&& (found.is_empty() ==> step.activated is None)
    &&& (found.is_empty() && (a.disable_function_called || a.objects@.is_empty()) ==> {
        &&& step.timer == PlateTimer::Keep
        &&& step.deactivated is None
        &&& b.objects@ == a.objects@
        &&& b.using_plate == a.using_plate
        &&& b.active_function_called == a.active_function_called
        &&& b.disable_function_called == a.disable_function_called
        })
    &&& (found.is_empty() && !a.disable_function_called && !a.objects@.is_empty() ==> {
        &&& step.timer == (if expired { PlateTimer::Reset } else { PlateTimer::Advance })
        &&& (step.deactivated is Some <==> expired)
        &&& (step.deactivated matches Some(d) ==> d.plate_entity == plate_entity)
        &&& b.objects@ == (if expired { Set::<u64>::empty() } else { a.objects@ })
        &&& b.using_plate == (a.using_plate && !expired)
        &&& b.active_function_called == (a.active_function_called && !expired)
        &&& b.disable_function_called == expired
        })
}

impl PressurePlate {
    /// The ignore list names each tag once.
    pub open spec fn wf(&self) -> bool {
        names_distinct(self.tags_to_ignore@)
    }

    /// A plate that has reported a step-on is in use.
    pub open spec fn consistent(&self) -> bool {
        self.active_function_called ==> self.using_plate
    }

    /// The plate is in use and something is on it.
    pub open spec fn spec_is_active(&self) -> bool {
        self.using_plate && !self.objects@.is_empty()
    }

    /// Whether an object of this name is ignored by the plate.
    pub fn ignores(&self, name: &str) -> (r: bool)
        ensures
            r == has_name(self.tags_to_ignore@, name@),
    {
        contains_name(&self.tags_to_ignore, name)
    }

    /// The plate starts reporting that something is on it: the first
    /// report after a release carries what was found.
    fn take_contacts(&mut self, plate_entity: u64, found: HashSet<u64>) -> (step: PlateStep)
        requires
            !found@.is_empty(),
        ensures
            final(self).tags_to_ignore == old(self).tags_to_ignore,
            final(self).plate == old(self).plate,
            final(self).objects@ == found@,
            step.timer == PlateTimer::Reset,
            step.deactivated is None,
            old(self).active_function_called ==> {
                &&& step.activated is None
                &&& final(self).using_plate == old(self).using_plate
                &&& final(self).active_function_called
                &&& final(self).disable_function_called == old(self).disable_function_called
            },
            !old(self).active_function_called ==> {
                &&& step.activated matches Some(a) && a.plate_entity == plate_entity && a.objects_on_plate@ == found@
                &&& final(self).using_plate
                &&& final(self).active_function_called
                &&& !final(self).disable_function_called
            },
    {
        let mut activated: Option<PressurePlateActivated> = None;
        if !self.active_function_called {
            self.active_function_called = true;
            self.disable_function_called = false;
            self.using_plate = true;
            activated = Some(PressurePlateActivated { plate_entity, objects_on_plate: copy_entity_set(&found) });
        }
        self.objects = found;
        PlateStep { timer: PlateTimer::Reset, activated, deactivated: None }
    }

    /// One pass of contact detection: `found` is what touches the plate now.
    /// With nothing found, an empty plate that has not reported its release
    /// counts down, and reports it once `timer_expired` says the countdown,
    /// advanced by this frame, has reached the delay.
    pub fn apply_collision_contacts(&mut self, plate_entity: u64, found: HashSet<u64>, timer_expired: bool) -> (step: PlateStep)
        ensures
            final(self).tags_to_ignore == old(self).tags_to_ignore,
            final(self).plate == old(self).plate,
            !found@.is_empty() ==> final(self).objects@ == found@ && step.timer == PlateTimer::Reset
                && step.deactivated is None
                && final(self).active_function_called
                && final(self).using_plate == (old(self).using_plate || !old(self).active_function_called)
                && final(self).disable_function_called == (old(self).disable_function_called && old(self).active_function_called)
                && (step.activated is Some <==> !old(self).active_function_called)
                && (step.activated matches Some(a) ==> a.plate_entity == plate_entity && a.objects_on_plate@ == found@),
            found@.is_empty() ==> final(self).objects@ == old(self).objects@ && step.activated is None,
            found@.is_empty() && (old(self).disable_function_called || !old(self).objects@.is_empty()) ==> {
                &&& step.timer == PlateTimer::Keep
                &&& step.deactivated is None
                &&& final(self).using_plate == old(self).using_plate
                &&& final(self).active_function_called == old(self).active_function_called
                &&& final(self).disable_function_called == old(self).disable_function_called
            },
            found@.is_empty() && !old(self).disable_function_called && old(self).objects@.is_empty() ==> {
                &&& step.timer == (if timer_expired { PlateTimer::Reset } else { PlateTimer::Advance })
                &&& (step.deactivated is Some <==> timer_expired)
                &&& (step.deactivated matches Some(d) ==> d.plate_entity == plate_entity)
                &&& final(self).using_plate == (old(self).using_plate && !timer_expired)
                &&& final(self).active_function_called == (old(self).active_function_called && !timer_expired)
                &&& final(self).disable_function_called == timer_expired
            },
    {
        if !found.is_empty() {
            return self.take_contacts(plate_entity, found);
        }
        if !self.disable_function_called && self.objects.is_empty() {
            if timer_expired {
                self.using_plate = false;
                self.disable_function_called = true;
                self.active_function_called = false;
                PlateStep { timer: PlateTimer::Reset, activated: None, deactivated: Some(PressurePlateDeactivated { plate_entity }) }
            } else {
                PlateStep { timer: PlateTimer::Advance, activated: None, deactivated: None }
            }
        } else {
            PlateStep { timer: PlateTimer::Keep, activated: None, deactivated: None }
        }
    }

    /// One pass of distance detection: `found` is what stands within reach of
    /// the plate now (the ignored names left out). With nothing found, a plate
    /// that still holds objects and has not reported its release counts down,
    /// and on reaching the delay reports the release and forgets its objects.
    pub fn apply_position_contacts(&mut self, plate_entity: u64, found: HashSet<u64>, timer_expired: bool) -> (step: PlateStep)
        ensures
            position_pass(*old(self), *final(self), plate_entity, found@, timer_expired, step),
    {
        if !found.is_empty() {
            return self.take_contacts(plate_entity, found);
        }
        if !self.disable_function_called && !self.objects.is_empty() {
            if timer_expired {
                self.using_plate = false;
                self.disable_function_called = true;
                self.active_function_called = false;
                self.objects.clear();
                PlateStep { timer: PlateTimer::Reset, activated: None, deactivated: Some(PressurePlateDeactivated { plate_entity }) }
            } else {
                PlateStep { timer: PlateTimer::Advance, activated: None, deactivated: None }
            }
        } else {
            PlateStep { timer: PlateTimer::Keep, activated: None, deactivated: None }
        }
    }

    /// Puts an object on the plate; the plate is in use and its release
    /// timer starts again.
    pub fn add_object(&mut self, entity: u64)
        ensures
            final(self).tags_to_ignore == old(self).tags_to_ignore,
            final(self).plate == old(self).plate,
            final(self).objects@ == old(self).objects@.insert(entity),
            final(self).using_plate,
            final(self).active_function_called,
            !final(self).disable_function_called,
            final(self).spec_is_active(),
    {
        self.objects.insert(entity);
        self.using_plate = true;
        self.active_function_called = true;
        self.disable_function_called = false;
        assert(self.objects@.contains(entity));
    }

    /// Takes an object off the plate. Returns whether the release timer
    /// starts again, which it does when the plate is left empty.
    pub fn remove_object(&mut self, entity: u64) -> (timer_reset: bool)
        ensures
            final(self).tags_to_ignore == old(self).tags_to_ignore,
            final(self).plate == old(self).plate,
            final(self).objects@ == old(self).objects@.remove(entity),
            final(self).using_plate == old(self).using_plate,
            final(self).active_function_called == old(self).active_function_called,
            final(self).disable_function_called == old(self).disable_function_called,
            timer_reset == final(self).objects@.is_empty(),
    {
        self.objects.remove(&entity);
        self.objects.is_empty()
    }

    /// The plate is in use and something is on it.
    pub fn is_active(&self) -> (r: bool)
        ensures
            r == self.spec_is_active(),
    {
        self.using_plate && !self.objects.is_empty()
    }

    /// Empties the plate and marks it released; its timer starts again.
    pub fn clear_objects(&mut self)
        ensures
            final(self).tags_to_ignore == old(self).tags_to_ignore,
            final(self).plate == old(self).plate,
            final(self).objects@ == Set::<u64>::empty(),
            !final(self).using_plate,
            !final(self).active_function_called,
            final(self).disable_function_called,
            !final(self).spec_is_active(),
    {
        self.objects.clear();
        self.using_plate = false;
        self.active_function_called = false;
        self.disable_function_called = true;
    }

    /// Replaces the ignore list by the names in `tags`, each once.
    pub fn set_tags_to_ignore(&mut self, tags: Vec<String>)
        ensures
            final(self).wf(),
            final(self).plate == old(self).plate,
            final(self).objects@ == old(self).objects@,
            final(self).using_plate == old(self).using_plate,
            final(self).active_function_called == old(self).active_function_called,
            final(self).disable_function_called == old(self).disable_function_called,
            forall|n: Seq<char>| has_name(final(self).tags_to_ignore@, n) <==> has_name(tags@, n),
    {
        let mut set: Vec<String> = Vec::new();
        let mut i: usize = 0;
        while i < tags.len()
            invariant
                i <= tags@.len(),
                names_distinct(set@),
                forall|n: Seq<char>| has_name(set@, n) <==> has_name(tags@.take(i as int), n),
            decreases tags.len() - i,
        {
            let ghost before = set@;
            insert_name(&mut set, tags[i].clone());
            proof {
                assert forall|n: Seq<char>| has_name(set@, n) <==> has_name(tags@.take(i + 1), n) by {
                    if has_name(tags@.take(i + 1), n) {
                        let k = choose|k: int| 0 <= k < i + 1 && (#[trigger] tags@.take(i + 1)[k])@ == n;
                        if k < i {
                            assert(tags@.take(i as int)[k] == tags@.take(i + 1)[k]);
                        }
                    }
                    if has_name(tags@.take(i as int), n) {
                        let k = choose|k: int| 0 <= k < i && (#[trigger] tags@.take(i as int)[k])@ == n;
                        assert(tags@.take(i + 1)[k] == tags@.take(i as int)[k]);
                    }
                    assert(tags@.take(i + 1)[i as int] == tags@[i as int]);
                }
            }
            i = i + 1;
        }
        assert(tags@.take(tags@.len() as int) =~= tags@);
        self.tags_to_ignore = set;
    }

    /// Adds a name to the ignore list.
    pub fn add_tag_to_ignore(&mut self, tag: String)
        requires
            old(self).wf(),
        ensures
            final(self).wf(),
            final(self).plate == old(self).plate,
            final(self).objects@ == old(self).objects@,
            final(self).using_plate == old(self).using_plate,
            final(self).active_function_called == old(self).active_function_called,
            final(self).disable_function_called == old(self).disable_function_called,
            forall|n: Seq<char>| has_name(final(self).tags_to_ignore@, n)
                <==> (has_name(old(self).tags_to_ignore@, n) || n == tag@),
    {
        insert_name(&mut self.tags_to_ignore, tag);
    }

    /// Takes a name off the ignore list.
    pub fn remove_tag_to_ignore(&mut self, tag: &str)
        requires
            old(self).wf(),
        ensures
            final(self).wf(),
            final(self).plate == old(self).plate,
            final(self).objects@ == old(self).objects@,
            final(self).using_plate == old(self).using_plate,
            final(self).active_function_called == old(self).active_function_called,
            final(self).disable_function_called == old(self).disable_function_called,
            forall|n: Seq<char>| has_name(final(self).tags_to_ignore@, n)
                <==> (has_name(old(self).tags_to_ignore@, n) && n != tag@),
    {
        self.tags_to_ignore = remove_name(&self.tags_to_ignore, tag);
    }
}

impl Default for PressurePlate {
    /// A plate that ignores the player and has nothing on it.
    fn default() -> (p: Self)
        ensures
            p.wf(),
            p.tags_to_ignore@.len() == 1,
            p.tags_to_ignore@[0]@ == "Player"@,
            !p.using_plate,
            !p.active_function_called,
            !p.disable_function_called,
            p.objects@ == Set::<u64>::empty(),
            p.plate is None,
    {
        let mut tags: Vec<String> = Vec::new();
        tags.push("Player".to_owned());
        PressurePlate {
            tags_to_ignore: tags,
            using_plate: false,
            active_function_called: false,
            disable_function_called: false,
            objects: HashSet::new(),
            plate: None,
        }
    }
}


/// A plate reports a step-on once per run of occupied passes: while
/// something stays on it, later passes track what is on it and report no
/// new activation.
pub proof fn law_plate_reports_one_activation_per_run(
    a: PressurePlate, b: PressurePlate, c: PressurePlate, plate_entity: u64,
    found1: Set<u64>, found2: Set<u64>, expired1: bool, expired2: bool, s1: PlateStep, s2: PlateStep,
)
    requires
        position_pass(a, b, plate_entity, found1, expired1, s1),
        position_pass(b, c, plate_entity, found2, expired2, s2),
        !found1.is_empty(),
        !found2.is_empty(),
    ensures
        s1.activated is Some <==> !a.active_function_called,
        s2.activated is None,
        s2.deactivated is None,
        c.objects@ == found2,
        s2.timer == PlateTimer::Reset,
{
}

/// A plate reports its release once: a release is reported only on a pass
/// that finds nothing once the countdown has expired, it empties the plate,
/// and further empty passes report nothing.
pub proof fn law_plate_reports_one_release(
    a: PressurePlate, b: PressurePlate, c: PressurePlate, plate_entity: u64,
    found1: Set<u64>, found2: Set<u64>, expired1: bool, expired2: bool, s1: PlateStep, s2: PlateStep,
)
    requires
        position_pass(a, b, plate_entity, found1, expired1, s1),
        position_pass(b, c, plate_entity, found2, expired2, s2),
        s1.deactivated is Some,
        found2.is_empty(),
    ensures
        found1.is_empty(),
        expired1,
        b.objects@.is_empty(),
        !b.using_plate,
        s2.deactivated is None,
        s2.activated is None,
        c.objects@.is_empty(),
{
}

/// After a release, the next pass that finds something reports a new
/// step-on with what it found.
pub proof fn law_plate_rearms_after_release(
    a: PressurePlate, b: PressurePlate, c: PressurePlate, plate_entity: u64,
    found1: Set<u64>, found2: Set<u64>, expired1: bool, expired2: bool, s1: PlateStep, s2: PlateStep,
)
    requires
        position_pass(a, b, plate_entity, found1, expired1, s1),
        position_pass(b, c, plate_entity, found2, expired2, s2),
        s1.deactivated is Some,
        !found2.is_empty(),
    ensures
        s2.activated matches Some(act) && act.plate_entity == plate_entity && act.objects_on_plate@ == found2,
        c.objects@ == found2,
{
}


/// A plate that has reported a step-on stays in use while it is pressed:
/// after a pass that finds something, a plate built and updated through
/// this module is in use and still consistent; every pass keeps a
/// consistent plate consistent.
pub proof fn law_plate_in_use_while_pressed(
    a: PressurePlate, b: PressurePlate, plate_entity: u64, found: Set<u64>, expired: bool, step: PlateStep,
)
    requires
        position_pass(a, b, plate_entity, found, expired, step),
        a.consistent(),
    ensures
        b.consistent(),
        !found.is_empty() ==> b.using_plate && b.spec_is_active(),
{
}

} // verus!
