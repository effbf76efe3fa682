//! Trigger areas that fire named remote events when entities enter or
//! leave them, with an optional limit on how many times they fire.

use vstd::prelude::*;
use crate::lists::{contains_entity, contains_name, has_name};

verus! {

/// One event a trigger fires.
#[derive(Debug, Clone)]
pub struct TriggerEventInfo {
    pub event_name: String,
    /// Sends a remote event; otherwise the entry does nothing.
    pub use_remote_event: bool,
}

/// A trigger area's configuration and counter.
#[derive(Debug, Clone)]
pub struct EventTrigger {
    pub on_enter: bool,
    pub on_exit: bool,
    pub on_stay: bool,
    /// Tags required to trigger.
    pub tags: Vec<String>,
    /// Bits of the only entity that may trigger, when set.
    pub target_entity: Option<u64>,
    pub enter_events: Vec<TriggerEventInfo>,
    pub exit_events: Vec<TriggerEventInfo>,
    pub is_active: bool,
    /// Maximum number of crossings that fire.
    pub trigger_limit: Option<u32>,
    pub times_triggered: u32,
}

/// A remote event to send: entry `info_index` of the enter list (or of the
/// exit list when `on_exit`), addressed to `target`.
#[derive(Debug, Clone, Copy, PartialEq, Eq)]
pub struct TriggerFiring {
    pub on_exit: bool,
    pub info_index: usize,
    /// Bits of the entity that crossed the trigger.
    pub target: u64,
}

/// The firings of the first `n` entries of `infos` for one crossing.
pub open spec fn info_firings(infos: Seq<TriggerEventInfo>, n: int, on_exit: bool, target: u64) -> Seq<TriggerFiring>
    decreases n,
{
    if n <= 0 {
        Seq::empty()
    } else {
        let prev = info_firings(infos, n - 1, on_exit, target);
        if infos[n - 1].use_remote_event {
            prev.push(TriggerFiring { on_exit, info_index: (n - 1) as usize, target })
        } else {
            prev
        }
    }
}

/// The firings of a list of crossings, in order.
pub open spec fn crossing_firings(targets: Seq<u64>, infos: Seq<TriggerEventInfo>, on_exit: bool) -> Seq<TriggerFiring>
    decreases targets.len(),
{
    if targets.len() == 0 {
        Seq::empty()
    } else {
        crossing_firings(targets.drop_last(), infos, on_exit) + info_firings(infos, infos.len() as int, on_exit, targets.last())
    }
}

/// How many of `n` crossings fire when `times` already fired.
pub open spec fn crossings_allowed(limit: Option<u32>, times: int, n: int) -> int {
    match limit {
        None => n,
        Some(l) => if times >= l { 0 } else if l - times < n { l - times } else { n },
    }
}

/// The crossings of one kind that are processed: all of them when that kind
/// fires and the trigger is active, none otherwise.
pub open spec fn processed(enabled: bool, active: bool, crossings: Seq<u64>) -> Seq<u64> {
    if enabled && active { crossings } else { Seq::empty() }
}

/// Whether the counter cannot overflow while processing these crossings.
pub open spec fn trigger_update_fits(t: EventTrigger, entered: Seq<u64>, exited: Seq<u64>) -> bool {
    t.trigger_limit.is_some()
        || t.times_triggered + processed(t.on_enter, t.is_active, entered).len() + processed(t.on_exit, t.is_active, exited).len() <= u32::MAX
}

/// Whether a frame with these crossings keeps the trigger's counter within `u32`.
pub fn trigger_update_fits_checked(trigger: &EventTrigger, entered: &Vec<u64>, exited: &Vec<u64>) -> (r: bool)
    ensures
        r == trigger_update_fits(*trigger, entered@, exited@),
{
    if trigger.trigger_limit.is_some() {
        return true;
    }
    let en: u64 = if trigger.on_enter && trigger.is_active { entered.len() as u64 } else { 0 };
    let ex: u64 = if trigger.on_exit && trigger.is_active { exited.len() as u64 } else { 0 };
    if en > u32::MAX as u64 || ex > u32::MAX as u64 {
        return false;
    }
    trigger.times_triggered as u64 + en + ex <= u32::MAX as u64
}

/// `t1` and `fired` are what a frame with these crossings does to trigger
/// `t0`: each processed crossing within the limit counts once and fires
/// every remote entry of its list; the configuration is unchanged.
pub open spec fn trigger_updated(t0: EventTrigger, t1: EventTrigger, entered: Seq<u64>, exited: Seq<u64>, fired: Seq<TriggerFiring>) -> bool {
    let en = processed(t0.on_enter, t0.is_active, entered);
    let ex = processed(t0.on_exit, t0.is_active, exited);
    let k1 = crossings_allowed(t0.trigger_limit, t0.times_triggered as int, en.len() as int);
    let k2 = crossings_allowed(t0.trigger_limit, t0.times_triggered + k1, ex.len() as int);
    &&& t1.times_triggered == t0.times_triggered + k1 + k2
    &&& fired == crossing_firings(en.take(k1), t0.enter_events@, false) + crossing_firings(ex.take(k2), t0.exit_events@, true)
    &&& t1.on_enter == t0.on_enter
    &&& t1.on_exit == t0.on_exit
    &&& t1.on_stay == t0.on_stay
    &&& t1.tags@ == t0.tags@
    &&& t1.target_entity == t0.target_entity
    &&& t1.enter_events@ == t0.enter_events@
    &&& t1.exit_events@ == t0.exit_events@
    &&& t1.is_active == t0.is_active
    &&& t1.trigger_limit == t0.trigger_limit
}

/// Processes one frame of a trigger: `entered` are the entities that started
/// overlapping it and `exited` those that stopped, each in the order in
/// which the overlap sets were walked. Each processed crossing within the
/// limit counts once and fires every remote entry of its list.
pub fn update_event_trigger(trigger: &mut EventTrigger, entered: &Vec<u64>, exited: &Vec<u64>) -> (fired: Vec<TriggerFiring>)
    requires
        trigger_update_fits(*old(trigger), entered@, exited@),
    ensures
        trigger_updated(*old(trigger), *final(trigger), entered@, exited@, fired@),
{
    let mut fired: Vec<TriggerFiring> = Vec::new();
    let ghost t0 = *trigger;
    if trigger.on_enter && trigger.is_active {
        fire_crossings(&mut trigger.times_triggered, trigger.trigger_limit, entered, &trigger.enter_events, false, &mut fired);
    }
    let ghost t1 = trigger.times_triggered;
    proof {
        let en = processed(t0.on_enter, t0.is_active, entered@);
        let k1 = crossings_allowed(t0.trigger_limit, t0.times_triggered as int, en.len() as int);
        assert(en.take(0) =~= Seq::<u64>::empty());
        assert(t1 == t0.times_triggered + k1);
        assert(fired@ == crossing_firings(en.take(k1), t0.enter_events@, false));
    }
    if trigger.on_exit && trigger.is_active {
        fire_crossings(&mut trigger.times_triggered, trigger.trigger_limit, exited, &trigger.exit_events, true, &mut fired);
    }
    proof {
        let ex = processed(t0.on_exit, t0.is_active, exited@);
        assert(ex.take(0) =~= Seq::<u64>::empty());
        assert(fired@ =~= fired@ + Seq::<TriggerFiring>::empty());
    }
    fired
}

/// Processes the crossings of one kind, appending their firings to `fired`.
fn fire_crossings(
    times: &mut u32,
    limit: Option<u32>,
    crossings: &Vec<u64>,
    infos: &Vec<TriggerEventInfo>,
    on_exit: bool,
    fired: &mut Vec<TriggerFiring>,
)
    requires
        limit.is_some() || *old(times) + crossings@.len() <= u32::MAX,
    ensures
        ({
            let k = crossings_allowed(limit, *old(times) as int, crossings@.len() as int);
            &&& *final(times) == *old(times) + k
            &&& final(fired)@ == old(fired)@ + crossing_firings(crossings@.take(k), infos@, on_exit)
        }),
{
    let ghost t0 = *times;
    let ghost f0 = fired@;
    let mut i: usize = 0;
    while i < crossings.len()
        invariant
            limit.is_some() || t0 + crossings@.len() <= u32::MAX,
            i <= crossings@.len(),
            ({
                let k = crossings_allowed(limit, t0 as int, i as int);
                &&& *times == t0 + k
                &&& fired@ == f0 + crossing_firings(crossings@.take(k), infos@, on_exit)
            }),
        decreases crossings.len() - i,
    {
        let target = crossings[i];
        let allowed = match limit {
            Some(l) => *times < l,
            None => true,
        };
        if allowed {
            let ghost k = crossings_allowed(limit, t0 as int, i as int);
            let ghost before = fired@;
            *times = *times + 1;
            let mut j: usize = 0;
            while j < infos.len()
                invariant
                    j <= infos@.len(),
                    fired@ == before + info_firings(infos@, j as int, on_exit, target),
                decreases infos.len() - j,
            {
                if infos[j].use_remote_event {
                    fired.push(TriggerFiring { on_exit, info_index: j, target });
                }
                j = j + 1;
            }
            proof {
                assert(crossings_allowed(limit, t0 as int, (i + 1) as int) == k + 1);
                assert(crossings@.take(k + 1).drop_last() =~= crossings@.take(k));
                assert(crossings@.take(k + 1).last() == target) by {
                    assert(k == i);
                }
                assert(fired@ =~= f0 + crossing_firings(crossings@.take(k + 1), infos@, on_exit));
            }
        } else {
            proof {
                assert(crossings_allowed(limit, t0 as int, (i + 1) as int) == crossings_allowed(limit, t0 as int, i as int));
            }
        }
        i = i + 1;
    }
}

/// A trigger with a limit never fires more often than the limit allows:
/// whatever enters and leaves in a frame, a count within the limit stays
/// within it.
pub proof fn law_limit_respected(limit: u32, times: int, entered: int, exited: int)
    requires
        0 <= times <= limit,
        0 <= entered,
        0 <= exited,
    ensures
        ({
            let k1 = crossings_allowed(Some(limit), times, entered);
            let k2 = crossings_allowed(Some(limit), times + k1, exited);
            &&& 0 <= k1 && 0 <= k2
            &&& times + k1 + k2 <= limit
        }),
{
}

/// An entity that listens for remote events by name.
#[derive(Debug, Clone)]
pub struct RemoteEventReceiver {
    pub events: Vec<String>,
}

/// The receivers, by entity bits, that a remote event named `name` reaches:
/// its target alone when it has one (if the target listens for the name),
/// otherwise every receiver listening for it, in order.
pub open spec fn reached(name: Seq<char>, target: Option<u64>, receivers: Seq<(u64, RemoteEventReceiver)>) -> Seq<u64>
    decreases receivers.len(),
{
    if receivers.len() == 0 {
        Seq::empty()
    } else {
        let r = receivers.last();
        let rest = reached(name, target, receivers.drop_last());
        if has_name(r.1.events@, name) && (target is None || target == Some(r.0)) { rest.push(r.0) } else { rest }
    }
}

/// The receivers a remote event reaches; `receivers` pairs each receiving
/// entity's bits with what it listens for, each entity once.
pub fn remote_event_receivers(name: &str, target: Option<u64>, receivers: &Vec<(u64, RemoteEventReceiver)>) -> (r: Vec<u64>)
    ensures
        r@ == reached(name@, target, receivers@),
{
    let mut out: Vec<u64> = Vec::new();
    let mut i: usize = 0;
    while i < receivers.len()
        invariant
            i <= receivers@.len(),
            out@ == reached(name@, target, receivers@.take(i as int)),
        decreases receivers.len() - i,
    {
        proof {
            assert(receivers@.take(i + 1).drop_last() =~= receivers@.take(i as int));
        }
        let e = receivers[i].0;
        let listens = contains_name(&receivers[i].1.events, name);
        let addressed = match target {
            Some(t) => t == e,
            None => true,
        };
        if listens && addressed {
            out.push(e);
        }
        i = i + 1;
    }
    assert(receivers@.take(i as int) =~= receivers@);
    out
}


/// The entities overlapping now that did not overlap before, in the order
/// of the current overlap list.
pub open spec fn entering(previous: Seq<u64>, current: Seq<u64>) -> Seq<u64> {
    current.filter(|e: u64| !previous.contains(e))
}

/// The entities that overlapped before and no longer do, in the order of
/// the previous overlap list.
pub open spec fn leaving(previous: Seq<u64>, current: Seq<u64>) -> Seq<u64> {
    previous.filter(|e: u64| !current.contains(e))
}

/// The entries of `v` that are not in `other`, in order.
fn not_in(v: &Vec<u64>, other: &Vec<u64>) -> (r: Vec<u64>)
    ensures
        r@ == v@.filter(|e: u64| !other@.contains(e)),
{
    let mut out: Vec<u64> = Vec::new();
    let mut i: usize = 0;
    while i < v.len()
        invariant
            i <= v@.len(),
            out@ == v@.take(i as int).filter(|e: u64| !other@.contains(e)),
        decreases v.len() - i,
    {
        proof {
            assert(v@.take(i + 1).drop_last() =~= v@.take(i as int));
            reveal(Seq::filter);
        }
        if !contains_entity(other, v[i]) {
            out.push(v[i]);
        }
        i = i + 1;
    }
    assert(v@.take(v@.len() as int) =~= v@);
    out
}

/// Who started and who stopped overlapping a trigger between the previous
/// overlap list and the current one.
pub fn trigger_crossings(previous: &Vec<u64>, current: &Vec<u64>) -> (r: (Vec<u64>, Vec<u64>))
    ensures
        r.0@ == entering(previous@, current@),
        r.1@ == leaving(previous@, current@),
{
    (not_in(current, previous), not_in(previous, current))
}

/// A copy of a list of entity bits.
fn copy_ids(v: &Vec<u64>) -> (r: Vec<u64>)
    ensures
        r@ == v@,
{
    let mut out: Vec<u64> = Vec::new();
    let mut i: usize = 0;
    while i < v.len()
        invariant
            i <= v@.len(),
            out@ == v@.take(i as int),
        decreases v.len() - i,
    {
        out.push(v[i]);
        i = i + 1;
        assert(out@ =~= v@.take(i as int));
    }
    assert(v@.take(v@.len() as int) =~= v@);
    out
}

/// One frame of a trigger from its overlaps: the crossings between the
/// previous overlap list and the current one are processed, and the
/// current list becomes the previous one.
pub fn trigger_frame(trigger: &mut EventTrigger, previous: &mut Vec<u64>, current: &Vec<u64>) -> (fired: Vec<TriggerFiring>)
    requires
        trigger_update_fits(*old(trigger), entering(old(previous)@, current@), leaving(old(previous)@, current@)),
    ensures
        trigger_updated(*old(trigger), *final(trigger), entering(old(previous)@, current@), leaving(old(previous)@, current@), fired@),
        final(previous)@ == current@,
{
    let (entered, exited) = trigger_crossings(previous, current);
    let fired = update_event_trigger(trigger, &entered, &exited);
    *previous = copy_ids(current);
    fired
}

/// Every firing of a list of crossings is a remote entry of `infos`, of
/// the given side, addressed to one of the crossings.
proof fn lemma_crossing_firings_from(targets: Seq<u64>, infos: Seq<TriggerEventInfo>, on_exit: bool)
    requires
        infos.len() <= usize::MAX,
    ensures
        forall|i: int| 0 <= i < crossing_firings(targets, infos, on_exit).len() ==> {
            let f = #[trigger] crossing_firings(targets, infos, on_exit)[i];
            &&& f.on_exit == on_exit
            &&& targets.contains(f.target)
            &&& f.info_index < infos.len()
            &&& infos[f.info_index as int].use_remote_event
        },
    decreases targets.len(),
{
    if targets.len() > 0 {
        let rest = targets.drop_last();
        lemma_crossing_firings_from(rest, infos, on_exit);
        lemma_info_firings_from(infos, infos.len() as int, on_exit, targets.last());
        let a = crossing_firings(rest, infos, on_exit);
        let b = info_firings(infos, infos.len() as int, on_exit, targets.last());
        assert forall|i: int| 0 <= i < (a + b).len() implies {
            let f = #[trigger] (a + b)[i];
            &&& f.on_exit == on_exit
            &&& targets.contains(f.target)
            &&& f.info_index < infos.len()
            &&& infos[f.info_index as int].use_remote_event
        } by {
            if i < a.len() {
                let f = a[i];
                assert((a + b)[i] == f);
                let j = choose|j: int| 0 <= j < rest.len() && rest[j] == f.target;
                assert(targets[j] == f.target);
            } else {
                assert((a + b)[i] == b[i - a.len()]);
                assert(targets[targets.len() - 1] == targets.last());
            }
        }
    }
}

/// Every firing of one crossing is a remote entry among the first `n`.
proof fn lemma_info_firings_from(infos: Seq<TriggerEventInfo>, n: int, on_exit: bool, target: u64)
    requires
        n <= infos.len(),
        infos.len() <= usize::MAX,
    ensures
        forall|i: int| 0 <= i < info_firings(infos, n, on_exit, target).len() ==> {
            let f = #[trigger] info_firings(infos, n, on_exit, target)[i];
            &&& f.on_exit == on_exit
            &&& f.target == target
            &&& f.info_index < n
            &&& infos[f.info_index as int].use_remote_event
        },
    decreases n,
{
    if n > 0 {
        lemma_info_firings_from(infos, n - 1, on_exit, target);
        let prev = info_firings(infos, n - 1, on_exit, target);
        if infos[n - 1].use_remote_event {
            let cur = prev.push(TriggerFiring { on_exit, info_index: (n - 1) as usize, target });
            assert(info_firings(infos, n, on_exit, target) == cur);
            assert forall|i: int| 0 <= i < cur.len() implies {
                let f = #[trigger] cur[i];
                &&& f.on_exit == on_exit
                &&& f.target == target
                &&& f.info_index < n
                &&& infos[f.info_index as int].use_remote_event
            } by {
                if i < prev.len() {
                    assert(cur[i] == prev[i]);
                } else {
                    assert(cur[i].info_index == n - 1);
                }
            }
        }
    }
}

/// A prefix of the processed crossings holds only crossings.
proof fn lemma_processed_take_within(enabled: bool, active: bool, s: Seq<u64>, k: int)
    requires
        0 <= k <= processed(enabled, active, s).len(),
    ensures
        forall|x: u64| processed(enabled, active, s).take(k).contains(x) ==> s.contains(x),
{
    let p = processed(enabled, active, s);
    assert forall|x: u64| p.take(k).contains(x) implies s.contains(x) by {
        let j = choose|j: int| 0 <= j < p.take(k).len() && p.take(k)[j] == x;
        assert(p.take(k)[j] == p[j]);
        assert(s[j] == x);
    }
}

/// One frame of a trigger keeps its count within its limit, counts up by
/// at most one per crossing, and fires only remote entries of its lists:
/// enter entries addressed to entities that started overlapping it, exit
/// entries addressed to entities that stopped.
pub proof fn law_trigger_frame(
    t0: EventTrigger,
    t1: EventTrigger,
    previous: Seq<u64>,
    current: Seq<u64>,
    fired: Seq<TriggerFiring>,
)
    requires
        trigger_updated(t0, t1, entering(previous, current), leaving(previous, current), fired),
        t0.trigger_limit matches Some(l) ==> t0.times_triggered <= l,
    ensures
        t0.trigger_limit matches Some(l) ==> t1.times_triggered <= l,
        t0.times_triggered <= t1.times_triggered
            <= t0.times_triggered + entering(previous, current).len() + leaving(previous, current).len(),
        forall|i: int| 0 <= i < fired.len() ==> {
            let f = #[trigger] fired[i];
            &&& !f.on_exit ==> entering(previous, current).contains(f.target)
                && f.info_index < t0.enter_events@.len() && t0.enter_events@[f.info_index as int].use_remote_event
            &&& f.on_exit ==> leaving(previous, current).contains(f.target)
                && f.info_index < t0.exit_events@.len() && t0.exit_events@[f.info_index as int].use_remote_event
        },
{
    let en_all = entering(previous, current);
    let ex_all = leaving(previous, current);
    let en = processed(t0.on_enter, t0.is_active, en_all);
    let ex = processed(t0.on_exit, t0.is_active, ex_all);
    let k1 = crossings_allowed(t0.trigger_limit, t0.times_triggered as int, en.len() as int);
    let k2 = crossings_allowed(t0.trigger_limit, t0.times_triggered + k1, ex.len() as int);
    match t0.trigger_limit {
        Some(l) => {
            law_limit_respected(l, t0.times_triggered as int, en.len() as int, ex.len() as int);
        },
        None => {},
    }
    assert(t0.enter_events@.len() == t0.enter_events.len());
    assert(t0.exit_events@.len() == t0.exit_events.len());
    assert(0 <= k1 <= en.len() && 0 <= k2 <= ex.len());
    lemma_crossing_firings_from(en.take(k1), t0.enter_events@, false);
    lemma_crossing_firings_from(ex.take(k2), t0.exit_events@, true);
    lemma_processed_take_within(t0.on_enter, t0.is_active, en_all, k1);
    lemma_processed_take_within(t0.on_exit, t0.is_active, ex_all, k2);
    let a = crossing_firings(en.take(k1), t0.enter_events@, false);
    let b = crossing_firings(ex.take(k2), t0.exit_events@, true);
    assert forall|i: int| 0 <= i < fired.len() implies {
        let f = #[trigger] fired[i];
        &&& !f.on_exit ==> entering(previous, current).contains(f.target)
            && f.info_index < t0.enter_events@.len() && t0.enter_events@[f.info_index as int].use_remote_event
        &&& f.on_exit ==> leaving(previous, current).contains(f.target)
            && f.info_index < t0.exit_events@.len() && t0.exit_events@[f.info_index as int].use_remote_event
    } by {
        if i < a.len() {
            assert(fired[i] == a[i]);
        } else {
            assert(fired[i] == b[i - a.len()]);
        }
    }
}

} // verus!
