//! Combat rules that do not depend on positions or amounts: damage kinds,
//! what a damage event does to its target, combo counting and the attack
//! chain position.

use vstd::prelude::*;
use crate::stats::DerivedStat;
use crate::experience::derived_stat_named;
use crate::text::{lowercase_of, seq_contains_run, str_contains, str_equals, to_lowercase};

verus! {

/// Kinds of damage.
#[derive(Debug, Clone, Copy, PartialEq, Eq, Structural, Hash)]
pub enum DamageType {
    Melee,
    Ranged,
    Explosion,
    Fall,
    Environmental,
    Fire,
    Heal,
    Poison,
    Electric,
}

/// The damage kind of an attack, from its lowercased type name and the
/// weapon's damage type number: the first of fire, poison, electric (or
/// shock) and explosion the name mentions, explosion also for number 3,
/// melee otherwise.
pub open spec fn attack_damage_type(lower: Seq<char>, damage_type_id: i32) -> DamageType {
    if seq_contains_run(lower, "fire"@) {
        DamageType::Fire
    } else if seq_contains_run(lower, "poison"@) {
        DamageType::Poison
    } else if seq_contains_run(lower, "electric"@) || seq_contains_run(lower, "shock"@) {
        DamageType::Electric
    } else if seq_contains_run(lower, "explosion"@) || damage_type_id == 3 {
        DamageType::Explosion
    } else {
        DamageType::Melee
    }
}

/// The damage kind of an attack whose type name is already lowercased.
pub fn attack_type_from_lowered(lower: &str, damage_type_id: i32) -> (r: DamageType)
    ensures
        r == attack_damage_type(lower@, damage_type_id),
{
    if str_contains(lower, "fire") {
        DamageType::Fire
    } else if str_contains(lower, "poison") {
        DamageType::Poison
    } else if str_contains(lower, "electric") || str_contains(lower, "shock") {
        DamageType::Electric
    } else if str_contains(lower, "explosion") || damage_type_id == 3 {
        DamageType::Explosion
    } else {
        DamageType::Melee
    }
}

/// The damage kind of an attack, its type name read without regard to case.
pub fn map_attack_type(attack_type: &str, damage_type_id: i32) -> (r: DamageType)
    ensures
        r == attack_damage_type(lowercase_of(attack_type@), damage_type_id),
{
    let lower = to_lowercase(attack_type);
    attack_type_from_lowered(lower.as_str(), damage_type_id)
}

/// The combo count of a new basic attack: within the combo window it goes
/// 1, 2, 3 and round again; otherwise, or without combos, it starts at 1.
pub open spec fn spec_next_combo_count(combo_enabled: bool, within_window: bool, count: nat) -> nat {
    if combo_enabled && within_window { (count % 3 + 1) as nat } else { 1 }
}

/// The combo count of a new basic attack.
pub fn next_combo_count(combo_enabled: bool, within_window: bool, count: usize) -> (r: usize)
    ensures
        r == spec_next_combo_count(combo_enabled, within_window, count as nat),
        1 <= r <= 3,
{
    if combo_enabled && within_window {
        count % 3 + 1
    } else {
        1
    }
}

/// The attack of a chain that a new attack uses: the next one, wrapping
/// around, while the combo timer runs; the first one otherwise.
pub open spec fn spec_next_attack_index(combo_running: bool, index: nat, chain_len: nat) -> nat
    recommends
        chain_len > 0,
{
    if combo_running { ((index + 1) % chain_len) as nat } else { 0 }
}

/// The attack of a chain that a new attack uses; `chain_len` is the number
/// of attacks in the chain, at least one.
pub fn next_attack_index(combo_running: bool, index: usize, chain_len: usize) -> (r: usize)
    requires
        chain_len > 0,
        index < usize::MAX,
    ensures
        r == spec_next_attack_index(combo_running, index as nat, chain_len as nat),
        r < chain_len,
{
    if combo_running {
        (index + 1) % chain_len
    } else {
        0
    }
}

/// The attack of a chain an attack state refers to: its index, or the last
/// attack when the index runs past the chain.
pub fn current_attack_slot(index: usize, chain_len: usize) -> (r: usize)
    requires
        chain_len > 0,
    ensures
        r == (if index < chain_len { index } else { (chain_len - 1) as usize }),
        r < chain_len,
{
    if index < chain_len - 1 { index } else { chain_len - 1 }
}

/// The combo count shown for the attack at this chain index.
pub fn combo_count_for_index(index: usize) -> (r: usize)
    requires
        index < usize::MAX,
    ensures
        r == index + 1,
{
    index + 1
}

/// The first chain of an attack database with this id, by its index in
/// the list of chain ids.
pub fn find_chain(chain_ids: &Vec<String>, id: &str) -> (r: Option<usize>)
    ensures
        r matches Some(i) ==> i < chain_ids@.len() && chain_ids@[i as int]@ == id@
            && forall|j: int| 0 <= j < i ==> (#[trigger] chain_ids@[j])@ != id@,
        r is None ==> forall|j: int| 0 <= j < chain_ids@.len() ==> (#[trigger] chain_ids@[j])@ != id@,
{
    let mut i: usize = 0;
    while i < chain_ids.len()
        invariant
            i <= chain_ids@.len(),
            forall|j: int| 0 <= j < i ==> (#[trigger] chain_ids@[j])@ != id@,
        decreases chain_ids@.len() - i,
    {
        if str_equals(chain_ids[i].as_str(), id) {
            return Some(i);
        }
        i = i + 1;
    }
    None
}

/// Combo counts stay between 1 and 3, and three attacks in the window come
/// back to the count they started from.
pub proof fn law_combo_cycles(count: nat)
    requires
        1 <= count <= 3,
    ensures
        1 <= spec_next_combo_count(true, true, count) <= 3,
        spec_next_combo_count(true, true, spec_next_combo_count(true, true, spec_next_combo_count(true, true, count)))
            == count,
{
}

/// Chained attacks walk the whole chain and come back to the start.
pub proof fn law_chain_wraps(chain_len: nat)
    requires
        chain_len > 0,
    ensures
        spec_next_attack_index(true, (chain_len - 1) as nat, chain_len) == 0,
        forall|i: nat| i + 1 < chain_len ==> spec_next_attack_index(true, i, chain_len) == i + 1,
{
    assert(((chain_len - 1) as nat + 1) % chain_len == 0) by (nonlinear_arith)
        requires chain_len > 0;
    assert forall|i: nat| i + 1 < chain_len implies spec_next_attack_index(true, i, chain_len) == i + 1 by {
        assert((i + 1) % chain_len == i + 1) by (nonlinear_arith)
            requires i + 1 < chain_len;
    }
}


/// What a damage event does to its target; the amounts are the game's.
#[derive(Debug, Clone, Copy, PartialEq, Eq, Structural)]
pub enum DamageOutcome {
    /// The target is invulnerable, briefly invincible or dead.
    Ignored,
    /// The amount heals the target.
    Heal,
    /// Blocked within the parry window: no damage.
    Parried,
    /// Blocked after the parry window: reduced damage.
    Blocked,
    Hit,
}

/// What a damage event of kind `kind` does to a target, from the target's
/// state: invulnerable, under temporary invincibility, dead, blocking, and
/// whether the block is still within its parry window.
pub open spec fn spec_damage_outcome(
    invulnerable: bool,
    invincible: bool,
    dead: bool,
    kind: DamageType,
    blocking: bool,
    within_parry_window: bool,
) -> DamageOutcome {
    if invulnerable || invincible || dead {
        DamageOutcome::Ignored
    } else if kind == DamageType::Heal {
        DamageOutcome::Heal
    } else if blocking && within_parry_window {
        DamageOutcome::Parried
    } else if blocking {
        DamageOutcome::Blocked
    } else {
        DamageOutcome::Hit
    }
}

/// What a damage event does to its target.
pub fn damage_outcome(
    invulnerable: bool,
    invincible: bool,
    dead: bool,
    kind: DamageType,
    blocking: bool,
    within_parry_window: bool,
) -> (r: DamageOutcome)
    ensures
        r == spec_damage_outcome(invulnerable, invincible, dead, kind, blocking, within_parry_window),
{
    if invulnerable || invincible || dead {
        DamageOutcome::Ignored
    } else if kind == DamageType::Heal {
        DamageOutcome::Heal
    } else if blocking && within_parry_window {
        DamageOutcome::Parried
    } else if blocking {
        DamageOutcome::Blocked
    } else {
        DamageOutcome::Hit
    }
}

/// The resistance that reduces damage of a kind by a fraction: fire,
/// poison, electric and explosion each have their own; other kinds none.
pub open spec fn spec_resistance_stat(kind: DamageType) -> Option<DerivedStat> {
    match kind {
        DamageType::Fire => Some(DerivedStat::FireResistance),
        DamageType::Poison => Some(DerivedStat::PoisonResistance),
        DamageType::Electric => Some(DerivedStat::ElectricResistance),
        DamageType::Explosion => Some(DerivedStat::ExplosionResistance),
        _ => None,
    }
}

/// The resistance that reduces damage of this kind, if any.
pub fn resistance_stat(kind: DamageType) -> (r: Option<DerivedStat>)
    ensures
        r == spec_resistance_stat(kind),
{
    match kind {
        DamageType::Fire => Some(DerivedStat::FireResistance),
        DamageType::Poison => Some(DerivedStat::PoisonResistance),
        DamageType::Electric => Some(DerivedStat::ElectricResistance),
        DamageType::Explosion => Some(DerivedStat::ExplosionResistance),
        _ => None,
    }
}

/// Whether the target's defense is taken off damage of this kind: melee
/// and ranged damage only.
pub fn defense_applies(kind: DamageType) -> (r: bool)
    ensures
        r == (kind == DamageType::Melee || kind == DamageType::Ranged),
{
    match kind {
        DamageType::Melee | DamageType::Ranged => true,
        _ => false,
    }
}

/// A target that has died ignores all further damage and healing, so its
/// death is reported once.
pub proof fn law_dead_target_ignores_events(
    invulnerable: bool,
    invincible: bool,
    kind: DamageType,
    blocking: bool,
    within_parry_window: bool,
)
    ensures
        spec_damage_outcome(invulnerable, invincible, true, kind, blocking, within_parry_window) == DamageOutcome::Ignored,
{
}

/// A resistance and flat defense never both apply to one kind of damage.
pub proof fn law_resistance_and_defense_exclusive(kind: DamageType)
    ensures
        spec_resistance_stat(kind) is Some ==> !(kind == DamageType::Melee || kind == DamageType::Ranged),
{
}


/// The events, by index, that leave a decal when decals are on: in order,
/// each whose kind is included and which can carry one (it has a hit
/// position on a target that exists), until `max_per_frame` are chosen.
pub open spec fn decal_picks(max_per_frame: nat, kinds: Seq<DamageType>, events: Seq<(DamageType, bool)>, n: int) -> Seq<usize>
    decreases n,
{
    if n <= 0 {
        Seq::empty()
    } else {
        let prev = decal_picks(max_per_frame, kinds, events, n - 1);
        let ev = events[n - 1];
        if prev.len() < max_per_frame && kinds.contains(ev.0) && ev.1 {
            prev.push((n - 1) as usize)
        } else {
            prev
        }
    }
}

/// The events that leave a decal this frame: none when decals are off.
pub open spec fn spec_decal_events(enabled: bool, max_per_frame: nat, kinds: Seq<DamageType>, events: Seq<(DamageType, bool)>) -> Seq<usize> {
    if enabled { decal_picks(max_per_frame, kinds, events, events.len() as int) } else { Seq::empty() }
}

/// Whether `kind` is in `v`.
fn has_kind(v: &Vec<DamageType>, kind: DamageType) -> (r: bool)
    ensures
        r == v@.contains(kind),
{
    let mut i: usize = 0;
    while i < v.len()
        invariant
            i <= v@.len(),
            forall|j: int| 0 <= j < i ==> v@[j] != kind,
        decreases v@.len() - i,
    {
        if v[i] == kind {
            return true;
        }
        i = i + 1;
    }
    false
}

/// The damage events, by index, that leave a decal this frame. Each event
/// is given as its kind and whether it can carry a decal (it has a hit
/// position and its target exists).
pub fn decal_events(enabled: bool, max_per_frame: usize, kinds: &Vec<DamageType>, events: &Vec<(DamageType, bool)>) -> (r: Vec<usize>)
    ensures
        r@ == spec_decal_events(enabled, max_per_frame as nat, kinds@, events@),
{
    let mut out: Vec<usize> = Vec::new();
    if !enabled {
        return out;
    }
    let mut i: usize = 0;
    while i < events.len()
        invariant
            i <= events@.len(),
            out@ == decal_picks(max_per_frame as nat, kinds@, events@, i as int),
            out@.len() <= i,
        decreases events@.len() - i,
    {
        let ev = events[i];
        if out.len() < max_per_frame && has_kind(kinds, ev.0) && ev.1 {
            out.push(i);
        }
        i = i + 1;
    }
    out
}


/// The picks of a prefix are at most the cap, and are indices of the
/// prefix in increasing order.
proof fn lemma_decal_picks_bounded(max_per_frame: nat, kinds: Seq<DamageType>, events: Seq<(DamageType, bool)>, n: int)
    requires
        n <= usize::MAX + 1,
    ensures
        decal_picks(max_per_frame, kinds, events, n).len() <= max_per_frame,
        forall|i: int, j: int| 0 <= i < j < decal_picks(max_per_frame, kinds, events, n).len()
            ==> decal_picks(max_per_frame, kinds, events, n)[i] < decal_picks(max_per_frame, kinds, events, n)[j],
        forall|i: int| 0 <= i < decal_picks(max_per_frame, kinds, events, n).len()
            ==> decal_picks(max_per_frame, kinds, events, n)[i] < n,
    decreases n,
{
    if n > 0 {
        lemma_decal_picks_bounded(max_per_frame, kinds, events, n - 1);
        let prev = decal_picks(max_per_frame, kinds, events, n - 1);
        let ev = events[n - 1];
        if prev.len() < max_per_frame && kinds.contains(ev.0) && ev.1 {
            let cur = prev.push((n - 1) as usize);
            assert(decal_picks(max_per_frame, kinds, events, n) == cur);
            assert forall|i: int, j: int| 0 <= i < j < cur.len() implies cur[i] < cur[j] by {
                if j == prev.len() {
                    assert(cur[i] == prev[i]);
                    assert(prev[i] < n - 1);
                    assert(cur[j] == n - 1);
                } else {
                    assert(cur[i] == prev[i] && cur[j] == prev[j]);
                }
            }
            assert forall|i: int| 0 <= i < cur.len() implies cur[i] < n by {
                if i < prev.len() {
                    assert(cur[i] == prev[i]);
                }
            }
        }
    }
}

/// A frame leaves at most `max_per_frame` decals, each for a different
/// event, in the order of the events.
pub proof fn law_decals_capped(enabled: bool, max_per_frame: nat, kinds: Seq<DamageType>, events: Seq<(DamageType, bool)>)
    requires
        events.len() <= usize::MAX,
    ensures
        spec_decal_events(enabled, max_per_frame, kinds, events).len() <= max_per_frame,
        forall|i: int, j: int| 0 <= i < j < spec_decal_events(enabled, max_per_frame, kinds, events).len()
            ==> spec_decal_events(enabled, max_per_frame, kinds, events)[i] < spec_decal_events(enabled, max_per_frame, kinds, events)[j],
{
    lemma_decal_picks_bounded(max_per_frame, kinds, events, events.len() as int);
}


/// No run of `needle` occurs in `hay` when no position of `hay` starts
/// with the needle's first two characters.
proof fn lemma_no_run(hay: Seq<char>, needle: Seq<char>)
    requires
        needle.len() >= 2,
        forall|j: int| #![trigger hay[j]] 0 <= j <= hay.len() - needle.len() ==> hay[j] != needle[0] || hay[j + 1] != needle[1],
    ensures
        !seq_contains_run(hay, needle),
{
    if seq_contains_run(hay, needle) {
        let i = choose|i: int| 0 <= i <= hay.len() - needle.len() && #[trigger] hay.subrange(i, i + needle.len()) == needle;
        assert(hay.subrange(i, i + needle.len())[0] == hay[i]);
        assert(hay.subrange(i, i + needle.len())[1] == hay[i + 1]);
    }
}

/// A text contains itself.
proof fn lemma_run_whole(s: Seq<char>)
    ensures
        seq_contains_run(s, s),
{
    assert(s.subrange(0, 0 + s.len() as int) =~= s);
}

/// The word that names an element: what an attack's name mentions and
/// what its resistance is called after.
pub open spec fn element_word(k: DamageType) -> Seq<char> {
    match k {
        DamageType::Fire => "fire"@,
        DamageType::Poison => "poison"@,
        DamageType::Electric => "electric"@,
        DamageType::Explosion => "explosion"@,
        _ => Seq::empty(),
    }
}

/// Whether a damage kind is one of the four elements.
pub open spec fn is_elemental(k: DamageType) -> bool {
    k == DamageType::Fire || k == DamageType::Poison || k == DamageType::Electric || k == DamageType::Explosion
}

/// An attack named after an element deals damage of that element.
proof fn lemma_element_word_kind(k: DamageType, damage_type_id: i32)
    requires
        is_elemental(k),
    ensures
        attack_damage_type(element_word(k), damage_type_id) == k,
{
    reveal_strlit("fire");
    reveal_strlit("poison");
    reveal_strlit("electric");
    reveal_strlit("shock");
    reveal_strlit("explosion");
    let fire = "fire"@;
    let poison = "poison"@;
    let electric = "electric"@;
    let shock = "shock"@;
    let explosion = "explosion"@;
    match k {
        DamageType::Fire => {
            lemma_run_whole(fire);
        },
        DamageType::Poison => {
            assert forall|j: int| #![trigger poison[j]] 0 <= j <= poison.len() - fire.len() implies poison[j] != fire[0] || poison[j + 1] != fire[1] by {
                assert(j == 0 || j == 1 || j == 2);
            }
            lemma_no_run(poison, fire);
            lemma_run_whole(poison);
        },
        DamageType::Electric => {
            assert forall|j: int| #![trigger electric[j]] 0 <= j <= electric.len() - fire.len() implies electric[j] != fire[0] || electric[j + 1] != fire[1] by {
                assert(j == 0 || j == 1 || j == 2 || j == 3 || j == 4);
            }
            lemma_no_run(electric, fire);
            assert forall|j: int| #![trigger electric[j]] 0 <= j <= electric.len() - poison.len() implies electric[j] != poison[0] || electric[j + 1] != poison[1] by {
                assert(j == 0 || j == 1 || j == 2);
            }
            lemma_no_run(electric, poison);
            lemma_run_whole(electric);
        },
        _ => {
            assert forall|j: int| #![trigger explosion[j]] 0 <= j <= explosion.len() - fire.len() implies explosion[j] != fire[0] || explosion[j + 1] != fire[1] by {
                assert(j == 0 || j == 1 || j == 2 || j == 3 || j == 4 || j == 5);
            }
            lemma_no_run(explosion, fire);
            assert forall|j: int| #![trigger explosion[j]] 0 <= j <= explosion.len() - poison.len() implies explosion[j] != poison[0] || explosion[j + 1] != poison[1] by {
                assert(j == 0 || j == 1 || j == 2 || j == 3);
            }
            lemma_no_run(explosion, poison);
            assert forall|j: int| #![trigger explosion[j]] 0 <= j <= explosion.len() - electric.len() implies explosion[j] != electric[0] || explosion[j + 1] != electric[1] by {
                assert(j == 0 || j == 1);
            }
            lemma_no_run(explosion, electric);
            assert forall|j: int| #![trigger explosion[j]] 0 <= j <= explosion.len() - shock.len() implies explosion[j] != shock[0] || explosion[j + 1] != shock[1] by {
                assert(j == 0 || j == 1 || j == 2 || j == 3 || j == 4);
            }
            lemma_no_run(explosion, shock);
            lemma_run_whole(explosion);
        },
    }
}

/// The statistic named `<element>_resistance` is the resistance of that
/// element.
#[verifier::spinoff_prover]
proof fn lemma_element_resistance_name(k: DamageType)
    requires
        is_elemental(k),
    ensures
        derived_stat_named(element_word(k) + "_resistance"@) == (match k {
            DamageType::Fire => Some(DerivedStat::FireResistance),
            DamageType::Poison => Some(DerivedStat::PoisonResistance),
            DamageType::Electric => Some(DerivedStat::ElectricResistance),
            _ => Some(DerivedStat::ExplosionResistance),
        }),
{
    reveal_strlit("fire");
    reveal_strlit("poison");
    reveal_strlit("electric");
    reveal_strlit("explosion");
    reveal_strlit("_resistance");
    reveal_strlit("maxhealth");
    reveal_strlit("max_health");
    reveal_strlit("currenthealth");
    reveal_strlit("current_health");
    reveal_strlit("maxstamina");
    reveal_strlit("max_stamina");
    reveal_strlit("currentstamina");
    reveal_strlit("current_stamina");
    reveal_strlit("maxmana");
    reveal_strlit("max_mana");
    reveal_strlit("currentmana");
    reveal_strlit("current_mana");
    reveal_strlit("attackpower");
    reveal_strlit("attack_power");
    reveal_strlit("defense");
    reveal_strlit("criticalchance");
    reveal_strlit("critical_chance");
    reveal_strlit("movementspeed");
    reveal_strlit("movement_speed");
    reveal_strlit("attackspeed");
    reveal_strlit("attack_speed");
    reveal_strlit("magicresistance");
    reveal_strlit("magic_resistance");
    reveal_strlit("stealth");
    reveal_strlit("persuasion");
    reveal_strlit("fire_resistance");
    reveal_strlit("fireresistance");
    reveal_strlit("poison_resistance");
    reveal_strlit("poisonresistance");
    reveal_strlit("electric_resistance");
    reveal_strlit("electricresistance");
    reveal_strlit("explosion_resistance");
    reveal_strlit("explosionresistance");
    let name = element_word(k) + "_resistance"@;
    match k {
        DamageType::Fire => {
            assert(name =~= "fire_resistance"@);
            assert(name[0] == 'f');
        },
        DamageType::Poison => {
            assert(name =~= "poison_resistance"@);
            assert(name.len() == 17);
        },
        DamageType::Electric => {
            assert(name =~= "electric_resistance"@);
            assert(name.len() == 19);
        },
        _ => {
            assert(name =~= "explosion_resistance"@);
            assert(name.len() == 20);
        },
    }
}

/// Each elemental damage kind is reduced by the resistance of its own
/// element: an attack named after the element deals that kind, and the
/// resistance is the statistic named `<element>_resistance`. Other kinds
/// meet no resistance.
pub proof fn law_resistance_matches_element(k: DamageType, damage_type_id: i32)
    ensures
        is_elemental(k) ==> {
            &&& attack_damage_type(element_word(k), damage_type_id) == k
            &&& spec_resistance_stat(k) is Some
            &&& spec_resistance_stat(k) == derived_stat_named(element_word(k) + "_resistance"@)
        },
        !is_elemental(k) ==> spec_resistance_stat(k) is None,
{
    if is_elemental(k) {
        lemma_element_word_kind(k, damage_type_id);
        lemma_element_resistance_name(k);
    }
}

/// An attack's name decides its damage kind by the first element it
/// mentions, in the order fire, poison, electric (or shock), explosion; a
/// weapon of damage type 3 without such a name deals explosion damage, and
/// any other attack deals melee damage.
pub proof fn law_attack_kind_follows_name(lower: Seq<char>, damage_type_id: i32)
    ensures
        seq_contains_run(lower, "fire"@) ==> attack_damage_type(lower, damage_type_id) == DamageType::Fire,
        !seq_contains_run(lower, "fire"@) && seq_contains_run(lower, "poison"@)
            ==> attack_damage_type(lower, damage_type_id) == DamageType::Poison,
        !seq_contains_run(lower, "fire"@) && !seq_contains_run(lower, "poison"@)
            && (seq_contains_run(lower, "electric"@) || seq_contains_run(lower, "shock"@))
            ==> attack_damage_type(lower, damage_type_id) == DamageType::Electric,
        !seq_contains_run(lower, "fire"@) && !seq_contains_run(lower, "poison"@)
            && !seq_contains_run(lower, "electric"@) && !seq_contains_run(lower, "shock"@)
            && (seq_contains_run(lower, "explosion"@) || damage_type_id == 3)
            ==> attack_damage_type(lower, damage_type_id) == DamageType::Explosion,
        attack_damage_type(lower, damage_type_id) == DamageType::Melee <==> (
            !seq_contains_run(lower, "fire"@) && !seq_contains_run(lower, "poison"@)
            && !seq_contains_run(lower, "electric"@) && !seq_contains_run(lower, "shock"@)
            && !seq_contains_run(lower, "explosion"@) && damage_type_id != 3),
        attack_damage_type(lower, damage_type_id) != DamageType::Heal
            && attack_damage_type(lower, damage_type_id) != DamageType::Ranged,
{
}

} // verus!
