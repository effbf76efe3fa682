//! Experience, levels and skill points.
//!
//! A player gains experience; whenever the experience held reaches the
//! requirement of the level the player is at, it is spent, the level rises
//! by one and the level's skill points are granted, until the requirement is
//! not met, the table has no entry for the level, or the maximum level is
//! reached.

use vstd::prelude::*;
use crate::text::{lowercase_of, to_lowercase, str_equals};
use crate::stats::{CoreAttribute, DerivedStat};
use crate::chance::random_u64_inclusive;

verus! {

/// One row of the level table.
#[derive(Debug, Clone, Copy, PartialEq, Eq)]
pub struct ExperienceLevel {
    pub level_number: u32,
    /// Experience needed to leave this level.
    pub xp_required: u32,
    /// Skill points granted when this level is left.
    pub skill_points_reward: u32,
}

/// The level table and its limits.
#[derive(Debug, Clone)]
pub struct ExperienceSettings {
    pub levels: Vec<ExperienceLevel>,
    pub max_level: Option<u32>,
    pub xp_multiplier_enabled: bool,
}

/// A player's progress.
#[derive(Debug, Clone, Copy, PartialEq, Eq)]
pub struct PlayerExperience {
    pub current_level: u32,
    pub current_xp: u32,
    pub total_xp: u32,
    pub skill_points: u32,
}

/// Sent once for every level gained.
#[derive(Debug, Clone, Copy, PartialEq, Eq)]
pub struct LevelUpEvent {
    /// Bits of the entity that levelled up.
    pub entity: u64,
    pub new_level: u32,
}

/// Experience granted by destroying or using an object.
#[derive(Debug, Clone, Copy, PartialEq, Eq)]
pub struct ObjectExperience {
    pub xp_amount: u32,
    pub xp_range: Option<(u32, u32)>,
    pub skill_points: u32,
    pub skill_points_range: Option<(u32, u32)>,
}

/// Experience obtained by an entity, before it is applied.
#[derive(Debug, Clone, Copy, PartialEq, Eq)]
pub struct ExperienceObtainedEvent {
    /// Bits of the entity that receives the experience.
    pub entity: u64,
    pub amount: u32,
}

/// Index of the table row used for a level: the level minus one, saturating at zero.
pub open spec fn level_row(level: int) -> int {
    if level >= 1 { level - 1 } else { 0 }
}

/// The level-up process started at `level` with `xp` held and `sp` skill
/// points: the final level, the experience left, the final skill points, and
/// the sequence of levels reached, in order.
pub open spec fn level_up_run(
    levels: Seq<ExperienceLevel>,
    max_level: Option<u32>,
    level: int,
    xp: int,
    sp: int,
) -> (int, int, int, Seq<int>)
    decreases levels.len() + 1 - level,
{
    let row = level_row(level);
    if level < 0 || row >= levels.len() || xp < levels[row].xp_required {
        (level, xp, sp, Seq::empty())
    } else {
        let nl = level + 1;
        let nxp = xp - levels[row].xp_required;
        let nsp = sp + levels[row].skill_points_reward;
        match max_level {
            Some(m) if nl >= m => (nl, nxp, nsp, seq![nl]),
            _ => {
                let r = level_up_run(levels, max_level, nl, nxp, nsp);
                (r.0, r.1, r.2, seq![nl] + r.3)
            },
        }
    }
}

/// The run never lowers the level, the experience below zero, or the skill points.
pub proof fn lemma_level_up_run_monotone(
    levels: Seq<ExperienceLevel>,
    max_level: Option<u32>,
    level: int,
    xp: int,
    sp: int,
)
    requires
        level >= 0,
        xp >= 0,
    ensures
        level_up_run(levels, max_level, level, xp, sp).0 >= level,
        level_up_run(levels, max_level, level, xp, sp).1 >= 0,
        level_up_run(levels, max_level, level, xp, sp).2 >= sp,
        level_up_run(levels, max_level, level, xp, sp).0 == level + level_up_run(levels, max_level, level, xp, sp).3.len(),
    decreases levels.len() + 1 - level,
{
    let row = level_row(level);
    if level < 0 || row >= levels.len() || xp < levels[row].xp_required {
    } else {
        let nl = level + 1;
        let nxp = xp - levels[row].xp_required;
        let nsp = sp + levels[row].skill_points_reward;
        match max_level {
            Some(m) if nl >= m => {},
            _ => {
                lemma_level_up_run_monotone(levels, max_level, nl, nxp, nsp);
            },
        }
    }
}

/// The run gains levels one at a time, and stops only when the table has no
/// row for the level reached, the experience left is below that row's
/// requirement, or a level-up has just reached the maximum level.
proof fn lemma_level_up_run_shape(
    levels: Seq<ExperienceLevel>,
    max_level: Option<u32>,
    level: int,
    xp: int,
    sp: int,
)
    requires
        level >= 0,
        xp >= 0,
    ensures
        ({
            let r = level_up_run(levels, max_level, level, xp, sp);
            &&& forall|i: int| 0 <= i < r.3.len() ==> #[trigger] r.3[i] == level + 1 + i
            &&& level_row(r.0) >= levels.len()
                || r.1 < levels[level_row(r.0)].xp_required
                || (max_level matches Some(m) && r.0 >= m && r.3.len() > 0)
        }),
    decreases levels.len() + 1 - level,
{
    let row = level_row(level);
    if level < 0 || row >= levels.len() || xp < levels[row].xp_required {
    } else {
        let nl = level + 1;
        let nxp = xp - levels[row].xp_required;
        let nsp = sp + levels[row].skill_points_reward;
        match max_level {
            Some(m) if nl >= m => {},
            _ => {
                lemma_level_up_run_shape(levels, max_level, nl, nxp, nsp);
                lemma_level_up_run_monotone(levels, max_level, nl, nxp, nsp);
                let r = level_up_run(levels, max_level, nl, nxp, nsp);
                assert forall|i: int| 0 <= i < 1 + r.3.len() implies #[trigger] (seq![nl] + r.3)[i] == level + 1 + i by {
                    if i > 0 {
                        assert((seq![nl] + r.3)[i] == r.3[i - 1]);
                    }
                }
            },
        }
    }
}

/// What applying `gain` experience to `p` yields, before representability.
pub open spec fn gain_outcome(p: PlayerExperience, gain: u32, settings: ExperienceSettings) -> (int, int, int, Seq<int>) {
    level_up_run(settings.levels@, settings.max_level, p.current_level as int, p.current_xp + gain, p.skill_points as int)
}

/// The numbers that applying `gain` to `p` produces all fit in `u32`.
pub open spec fn gain_fits(p: PlayerExperience, gain: u32, settings: ExperienceSettings) -> bool {
    &&& p.current_xp + gain <= u32::MAX
    &&& p.total_xp + gain <= u32::MAX
    &&& gain_outcome(p, gain, settings).0 <= u32::MAX
    &&& gain_outcome(p, gain, settings).2 <= u32::MAX
}

/// Whether applying `gain` to `player` keeps every number within `u32`.
pub fn experience_gain_fits(player: &PlayerExperience, gain: u32, settings: &ExperienceSettings) -> (r: bool)
    ensures
        r == gain_fits(*player, gain, *settings),
{
    if player.current_xp as u64 + gain as u64 > u32::MAX as u64 {
        return false;
    }
    if player.total_xp as u64 + gain as u64 > u32::MAX as u64 {
        return false;
    }
    let ghost target = gain_outcome(*player, gain, *settings);
    let ghost levels = settings.levels@;
    let mut level: u64 = player.current_level as u64;
    let mut xp: u64 = player.current_xp as u64 + gain as u64;
    let mut sp: u64 = player.skill_points as u64;
    loop
        invariant
            levels == settings.levels@,
            level <= u32::MAX,
            xp <= u32::MAX,
            sp <= u32::MAX,
            target == gain_outcome(*player, gain, *settings),
            player.current_xp + gain <= u32::MAX,
            player.total_xp + gain <= u32::MAX,
            ({
                let run = level_up_run(levels, settings.max_level, level as int, xp as int, sp as int);
                &&& run.0 == target.0
                &&& run.2 == target.2
            }),
        decreases levels.len() + 1 - level,
    {
        let row: usize = if level >= 1 { (level - 1) as usize } else { 0 };
        if row >= settings.levels.len() {
            return true;
        }
        let info = settings.levels[row];
        if xp < info.xp_required as u64 {
            return true;
        }
        let nl: u64 = level + 1;
        let nsp: u64 = sp + info.skill_points_reward as u64;
        let nxp: u64 = xp - info.xp_required as u64;
        proof {
            lemma_level_up_run_monotone(levels, settings.max_level, nl as int, nxp as int, nsp as int);
        }
        if nl > u32::MAX as u64 || nsp > u32::MAX as u64 {
            return false;
        }
        match settings.max_level {
            Some(m) => {
                if nl >= m as u64 {
                    return true;
                }
            },
            None => {},
        }
        level = nl;
        xp = nxp;
        sp = nsp;
    }
}

/// `p1` and `events` are what applying `gain` to `p0` gives: the gain added
/// to the total, the level, experience and skill points of the level-up
/// run, and one event for `entity` per level reached, in order.
pub open spec fn gain_applied(
    p0: PlayerExperience,
    p1: PlayerExperience,
    entity: u64,
    gain: u32,
    settings: ExperienceSettings,
    events: Seq<LevelUpEvent>,
) -> bool {
    let r = gain_outcome(p0, gain, settings);
    &&& p1.total_xp == p0.total_xp + gain
    &&& p1.current_level == r.0
    &&& p1.current_xp == r.1
    &&& p1.skill_points == r.2
    &&& events.len() == r.3.len()
    &&& forall|i: int| 0 <= i < events.len() ==> (#[trigger] events[i]).entity == entity && events[i].new_level == r.3[i]
}

/// Applies `final_gain` experience to `player` and runs the level-up process.
/// Returns one event per level gained, in order.
pub fn apply_experience_gain(
    player: &mut PlayerExperience,
    entity: u64,
    final_gain: u32,
    settings: &ExperienceSettings,
) -> (events: Vec<LevelUpEvent>)
    requires
        gain_fits(*old(player), final_gain, *settings),
    ensures
        gain_applied(*old(player), *final(player), entity, final_gain, *settings, events@),
{
    let ghost target = gain_outcome(*player, final_gain, *settings);
    player.current_xp = player.current_xp + final_gain;
    player.total_xp = player.total_xp + final_gain;
    let mut events: Vec<LevelUpEvent> = Vec::new();
    let ghost levels = settings.levels@;
    proof {
        lemma_level_up_run_monotone(levels, settings.max_level, player.current_level as int, player.current_xp as int, player.skill_points as int);
    }
    loop
        invariant_except_break
            ({
                let r = level_up_run(levels, settings.max_level, player.current_level as int, player.current_xp as int, player.skill_points as int);
                &&& r.0 == target.0
                &&& r.1 == target.1
                &&& r.2 == target.2
                &&& target.3 == events@.map_values(|e: LevelUpEvent| e.new_level as int) + r.3
            }),
        invariant
            levels == settings.levels@,
            target.0 <= u32::MAX,
            target.2 <= u32::MAX,
            player.total_xp == old(player).total_xp + final_gain,
            forall|i: int| 0 <= i < events@.len() ==> (#[trigger] events@[i]).entity == entity,
        ensures
            player.total_xp == old(player).total_xp + final_gain,
            player.current_level == target.0,
            player.current_xp == target.1,
            player.skill_points == target.2,
            target.3 == events@.map_values(|e: LevelUpEvent| e.new_level as int),
            forall|i: int| 0 <= i < events@.len() ==> (#[trigger] events@[i]).entity == entity,
        decreases levels.len() + 1 - player.current_level,
    {
        let ghost before = events@;
        proof {
            lemma_level_up_run_monotone(levels, settings.max_level, player.current_level as int, player.current_xp as int, player.skill_points as int);
        }
        let row: usize = if player.current_level >= 1 { (player.current_level - 1) as usize } else { 0 };
        if row >= settings.levels.len() {
            assert(events@.map_values(|e: LevelUpEvent| e.new_level as int) + Seq::<int>::empty() =~= events@.map_values(|e: LevelUpEvent| e.new_level as int));
            break;
        }
        let info = settings.levels[row];
        if player.current_xp < info.xp_required {
            assert(events@.map_values(|e: LevelUpEvent| e.new_level as int) + Seq::<int>::empty() =~= events@.map_values(|e: LevelUpEvent| e.new_level as int));
            break;
        }
        let ghost r_next = level_up_run(levels, settings.max_level, player.current_level + 1, player.current_xp - info.xp_required, player.skill_points + info.skill_points_reward);
        proof {
            lemma_level_up_run_monotone(levels, settings.max_level, player.current_level + 1, player.current_xp - info.xp_required, player.skill_points + info.skill_points_reward);
        }
        player.current_xp = player.current_xp - info.xp_required;
        player.current_level = player.current_level + 1;
        player.skill_points = player.skill_points + info.skill_points_reward;
        events.push(LevelUpEvent { entity, new_level: player.current_level });
        assert(events@.map_values(|e: LevelUpEvent| e.new_level as int) =~= before.map_values(|e: LevelUpEvent| e.new_level as int).push(player.current_level as int));
        match settings.max_level {
            Some(max) => {
                if player.current_level >= max {
                    assert(events@.map_values(|e: LevelUpEvent| e.new_level as int) =~= before.map_values(|e: LevelUpEvent| e.new_level as int) + seq![player.current_level as int]);
                    break;
                }
            },
            None => {},
        }
        assert(before.map_values(|e: LevelUpEvent| e.new_level as int) + (seq![player.current_level as int] + r_next.3)
            =~= events@.map_values(|e: LevelUpEvent| e.new_level as int) + r_next.3);
    }
    events
}

/// The level table installed when none is configured: twenty levels, level
/// `n` requiring `100 * n * n` experience and granting one skill point.
pub open spec fn default_level_curve() -> Seq<ExperienceLevel> {
    Seq::new(20, |i: int| ExperienceLevel {
        level_number: (i + 1) as u32,
        xp_required: (100 * (i + 1) * (i + 1)) as u32,
        skill_points_reward: 1,
    })
}

/// Installs the default level table, a maximum level of 20 and the
/// experience multiplier, unless a table is already configured, in which
/// case nothing changes.
pub fn initialize_experience_settings(settings: &mut ExperienceSettings)
    ensures
        old(settings).levels@.len() > 0 ==> final(settings).levels@ == old(settings).levels@
            && final(settings).max_level == old(settings).max_level
            && final(settings).xp_multiplier_enabled == old(settings).xp_multiplier_enabled,
        old(settings).levels@.len() == 0 ==> final(settings).levels@ == default_level_curve()
            && final(settings).max_level == Some(20u32)
            && final(settings).xp_multiplier_enabled,
{
    if settings.levels.len() > 0 {
        return;
    }
    let mut levels: Vec<ExperienceLevel> = Vec::new();
    let mut level: u32 = 1;
    while level <= 20
        invariant
            1 <= level <= 21,
            levels@.len() == level - 1,
            forall|i: int| 0 <= i < levels@.len() ==> #[trigger] levels@[i] == default_level_curve()[i],
        decreases 21 - level,
    {
        assert(level * level <= 400) by (nonlinear_arith)
            requires
                1 <= level <= 20,
        ;
        let xp_required: u32 = 100 * (level * level);
        assert(100 * (level * level) == 100 * level * level) by (nonlinear_arith);
        levels.push(ExperienceLevel { level_number: level, xp_required, skill_points_reward: 1 });
        level = level + 1;
    }
    assert(levels@ =~= default_level_curve());
    settings.levels = levels;
    settings.max_level = Some(20);
    settings.xp_multiplier_enabled = true;
}

/// The attribute a lowercased reward name refers to.
pub open spec fn core_attribute_named(s: Seq<char>) -> Option<CoreAttribute> {
    if s == "strength"@ {
        Some(CoreAttribute::Strength)
    } else if s == "agility"@ {
        Some(CoreAttribute::Agility)
    } else if s == "intelligence"@ {
        Some(CoreAttribute::Intelligence)
    } else if s == "constitution"@ {
        Some(CoreAttribute::Constitution)
    } else if s == "charisma"@ {
        Some(CoreAttribute::Charisma)
    } else {
        None
    }
}

/// Parses an already lowercased attribute name.
pub fn parse_core_attribute_lowered(lower: &str) -> (r: Option<CoreAttribute>)
    ensures
        r == core_attribute_named(lower@),
{
    if str_equals(lower, "strength") {
        Some(CoreAttribute::Strength)
    } else if str_equals(lower, "agility") {
        Some(CoreAttribute::Agility)
    } else if str_equals(lower, "intelligence") {
        Some(CoreAttribute::Intelligence)
    } else if str_equals(lower, "constitution") {
        Some(CoreAttribute::Constitution)
    } else if str_equals(lower, "charisma") {
        Some(CoreAttribute::Charisma)
    } else {
        None
    }
}

/// Parses an attribute name, ignoring case.
pub fn parse_core_attribute(name: &str) -> (r: Option<CoreAttribute>)
    ensures
        r == core_attribute_named(lowercase_of(name@)),
{
    let lower = to_lowercase(name);
    parse_core_attribute_lowered(lower.as_str())
}

/// The derived statistic a lowercased reward name refers to; most have a
/// spelling with and one without an underscore.
pub open spec fn derived_stat_named(s: Seq<char>) -> Option<DerivedStat> {
    if s == "maxhealth"@ || s == "max_health"@ {
        Some(DerivedStat::MaxHealth)
    } else if s == "currenthealth"@ || s == "current_health"@ {
        Some(DerivedStat::CurrentHealth)
    } else if s == "maxstamina"@ || s == "max_stamina"@ {
        Some(DerivedStat::MaxStamina)
    } else if s == "currentstamina"@ || s == "current_stamina"@ {
        Some(DerivedStat::CurrentStamina)
    } else if s == "maxmana"@ || s == "max_mana"@ {
        Some(DerivedStat::MaxMana)
    } else if s == "currentmana"@ || s == "current_mana"@ {
        Some(DerivedStat::CurrentMana)
    } else if s == "attackpower"@ || s == "attack_power"@ {
        Some(DerivedStat::AttackPower)
    } else if s == "defense"@ {
        Some(DerivedStat::Defense)
    } else if s == "criticalchance"@ || s == "critical_chance"@ {
        Some(DerivedStat::CriticalChance)
    } else if s == "movementspeed"@ || s == "movement_speed"@ {
        Some(DerivedStat::MovementSpeed)
    } else if s == "attackspeed"@ || s == "attack_speed"@ {
        Some(DerivedStat::AttackSpeed)
    } else if s == "magicresistance"@ || s == "magic_resistance"@ {
        Some(DerivedStat::MagicResistance)
    } else if s == "stealth"@ {
        Some(DerivedStat::Stealth)
    } else if s == "persuasion"@ {
        Some(DerivedStat::Persuasion)
    } else if s == "fire_resistance"@ || s == "fireresistance"@ {
        Some(DerivedStat::FireResistance)
    } else if s == "poison_resistance"@ || s == "poisonresistance"@ {
        Some(DerivedStat::PoisonResistance)
    } else if s == "electric_resistance"@ || s == "electricresistance"@ {
        Some(DerivedStat::ElectricResistance)
    } else if s == "explosion_resistance"@ || s == "explosionresistance"@ {
        Some(DerivedStat::ExplosionResistance)
    } else {
        None
    }
}

/// Parses an already lowercased derived-statistic name.
pub fn parse_derived_stat_lowered(lower: &str) -> (r: Option<DerivedStat>)
    ensures
        r == derived_stat_named(lower@),
{
    if str_equals(lower, "maxhealth") || str_equals(lower, "max_health") {
        Some(DerivedStat::MaxHealth)
    } else if str_equals(lower, "currenthealth") || str_equals(lower, "current_health") {
        Some(DerivedStat::CurrentHealth)
    } else if str_equals(lower, "maxstamina") || str_equals(lower, "max_stamina") {
        Some(DerivedStat::MaxStamina)
    } else if str_equals(lower, "currentstamina") || str_equals(lower, "current_stamina") {
        Some(DerivedStat::CurrentStamina)
    } else if str_equals(lower, "maxmana") || str_equals(lower, "max_mana") {
        Some(DerivedStat::MaxMana)
    } else if str_equals(lower, "currentmana") || str_equals(lower, "current_mana") {
        Some(DerivedStat::CurrentMana)
    } else if str_equals(lower, "attackpower") || str_equals(lower, "attack_power") {
        Some(DerivedStat::AttackPower)
    } else if str_equals(lower, "defense") {
        Some(DerivedStat::Defense)
    } else if str_equals(lower, "criticalchance") || str_equals(lower, "critical_chance") {
        Some(DerivedStat::CriticalChance)
    } else if str_equals(lower, "movementspeed") || str_equals(lower, "movement_speed") {
        Some(DerivedStat::MovementSpeed)
    } else if str_equals(lower, "attackspeed") || str_equals(lower, "attack_speed") {
        Some(DerivedStat::AttackSpeed)
    } else if str_equals(lower, "magicresistance") || str_equals(lower, "magic_resistance") {
        Some(DerivedStat::MagicResistance)
    } else if str_equals(lower, "stealth") {
        Some(DerivedStat::Stealth)
    } else if str_equals(lower, "persuasion") {
        Some(DerivedStat::Persuasion)
    } else if str_equals(lower, "fire_resistance") || str_equals(lower, "fireresistance") {
        Some(DerivedStat::FireResistance)
    } else if str_equals(lower, "poison_resistance") || str_equals(lower, "poisonresistance") {
        Some(DerivedStat::PoisonResistance)
    } else if str_equals(lower, "electric_resistance") || str_equals(lower, "electricresistance") {
        Some(DerivedStat::ElectricResistance)
    } else if str_equals(lower, "explosion_resistance") || str_equals(lower, "explosionresistance") {
        Some(DerivedStat::ExplosionResistance)
    } else {
        None
    }
}

/// Parses a derived-statistic name, ignoring case.
pub fn parse_derived_stat(name: &str) -> (r: Option<DerivedStat>)
    ensures
        r == derived_stat_named(lowercase_of(name@)),
{
    let lower = to_lowercase(name);
    parse_derived_stat_lowered(lower.as_str())
}

/// Well-formed object experience: a configured range is not empty.
pub open spec fn object_experience_wf(obj: ObjectExperience) -> bool {
    obj.xp_range matches Some(range) ==> range.0 <= range.1
}

/// The experience granted by `obj` when `rolled` was drawn from its range.
pub fn experience_grant_amount(obj: &ObjectExperience, rolled: u32) -> (amount: u32)
    ensures
        amount == (match obj.xp_range {
            Some(_) => rolled,
            None => obj.xp_amount,
        }),
{
    match obj.xp_range {
        Some(_) => rolled,
        None => obj.xp_amount,
    }
}

/// Queues the experience that `obj` grants to `player_entity`: a random
/// amount within its range when it has one, else its fixed amount.
pub fn grant_xp_from_object(obj: &ObjectExperience, player_entity: u64, queue: &mut Vec<ExperienceObtainedEvent>)
    requires
        object_experience_wf(*obj),
    ensures
        final(queue)@.len() == old(queue)@.len() + 1,
        final(queue)@.subrange(0, old(queue)@.len() as int) == old(queue)@,
        final(queue)@.last().entity == player_entity,
        match obj.xp_range {
            Some(range) => range.0 <= final(queue)@.last().amount <= range.1,
            None => final(queue)@.last().amount == obj.xp_amount,
        },
{
    let rolled = match obj.xp_range {
        Some(range) => random_u64_inclusive(range.0 as u64, range.1 as u64) as u32,
        None => 0,
    };
    let amount = experience_grant_amount(obj, rolled);
    queue.push(ExperienceObtainedEvent { entity: player_entity, amount });
}

/// Where a level-up reward goes.
#[derive(Debug, Clone, Copy, PartialEq, Eq, Structural)]
pub enum RewardTarget {
    /// A custom statistic set to a flag.
    CustomFlag(bool),
    Core(CoreAttribute),
    Derived(DerivedStat),
    /// A custom statistic increased by the reward's amount.
    Custom,
}

/// Where a reward named `lower` (lowercased) goes: a flag reward sets a
/// custom flag; otherwise an attribute name, then a derived statistic name,
/// then a custom statistic.
pub open spec fn reward_target_of(lower: Seq<char>, is_bool: bool, bool_value: bool) -> RewardTarget {
    if is_bool {
        RewardTarget::CustomFlag(bool_value)
    } else if core_attribute_named(lower) is Some {
        RewardTarget::Core(core_attribute_named(lower)->0)
    } else if derived_stat_named(lower) is Some {
        RewardTarget::Derived(derived_stat_named(lower)->0)
    } else {
        RewardTarget::Custom
    }
}

/// Where a level-up reward goes, its name already lowercased.
pub fn reward_target_lowered(lower: &str, is_bool: bool, bool_value: bool) -> (r: RewardTarget)
    ensures
        r == reward_target_of(lower@, is_bool, bool_value),
{
    if is_bool {
        return RewardTarget::CustomFlag(bool_value);
    }
    match parse_core_attribute_lowered(lower) {
        Some(c) => RewardTarget::Core(c),
        None => match parse_derived_stat_lowered(lower) {
            Some(d) => RewardTarget::Derived(d),
            None => RewardTarget::Custom,
        },
    }
}

/// Where a level-up reward of this name goes, its name read without regard to case.
pub fn reward_target(stat_name: &str, is_bool: bool, bool_value: bool) -> (r: RewardTarget)
    ensures
        r == reward_target_of(lowercase_of(stat_name@), is_bool, bool_value),
{
    let lower = to_lowercase(stat_name);
    reward_target_lowered(lower.as_str(), is_bool, bool_value)
}

/// The row of the level table that holds the rewards of a new level: the
/// level's number less one, and the first row for level zero.
pub fn reward_row(new_level: u32) -> (r: usize)
    ensures
        r == (if new_level == 0 { 0 } else { new_level - 1 }),
{
    if new_level == 0 { 0 } else { (new_level - 1) as usize }
}

/// A gain of experience raises the level one step at a time, each level
/// reached being announced once, in order; and it stops with less
/// experience than the next level-up needs, unless the level table has no
/// row for the level reached or the maximum level has just been reached.
pub proof fn law_gain_levels_one_by_one(p: PlayerExperience, gain: u32, settings: ExperienceSettings)
    ensures
        ({
            let r = gain_outcome(p, gain, settings);
            let levels = settings.levels@;
            &&& r.0 == p.current_level + r.3.len()
            &&& forall|i: int| 0 <= i < r.3.len() ==> #[trigger] r.3[i] == p.current_level + 1 + i
            &&& level_row(r.0) >= levels.len()
                || r.1 < levels[level_row(r.0)].xp_required
                || (settings.max_level matches Some(m) && r.0 >= m && r.3.len() > 0)
        }),
{
    lemma_level_up_run_monotone(settings.levels@, settings.max_level, p.current_level as int, p.current_xp + gain, p.skill_points as int);
    lemma_level_up_run_shape(settings.levels@, settings.max_level, p.current_level as int, p.current_xp + gain, p.skill_points as int);
}


/// The skill points granted by the first `n` level-ups of a run started at
/// `level`: the reward of the row used at each level passed.
pub open spec fn rewards_passed(levels: Seq<ExperienceLevel>, level: int, n: nat) -> int
    decreases n,
{
    if n == 0 {
        0
    } else {
        levels[level_row(level)].skill_points_reward + rewards_passed(levels, level + 1, (n - 1) as nat)
    }
}

/// The experience spent by the first `n` level-ups of a run started at
/// `level`: the requirement of the row used at each level passed.
pub open spec fn requirements_passed(levels: Seq<ExperienceLevel>, level: int, n: nat) -> int
    decreases n,
{
    if n == 0 {
        0
    } else {
        levels[level_row(level)].xp_required + requirements_passed(levels, level + 1, (n - 1) as nat)
    }
}

/// The run's accounting: the skill points gained are the rewards of the
/// levels passed, the experience left plus the requirements of the levels
/// passed is the experience started with, and a run started below the
/// maximum level ends at it at most.
proof fn lemma_level_up_run_accounting(
    levels: Seq<ExperienceLevel>,
    max_level: Option<u32>,
    level: int,
    xp: int,
    sp: int,
)
    requires
        level >= 0,
        xp >= 0,
    ensures
        ({
            let r = level_up_run(levels, max_level, level, xp, sp);
            &&& r.2 == sp + rewards_passed(levels, level, r.3.len())
            &&& r.1 + requirements_passed(levels, level, r.3.len()) == xp
            &&& (max_level matches Some(m) ==> (level < m ==> r.0 <= m))
        }),
    decreases levels.len() + 1 - level,
{
    let row = level_row(level);
    if level < 0 || row >= levels.len() || xp < levels[row].xp_required {
    } else {
        let nl = level + 1;
        let nxp = xp - levels[row].xp_required;
        let nsp = sp + levels[row].skill_points_reward;
        match max_level {
            Some(m) if nl >= m => {
                assert(rewards_passed(levels, nl, 0) == 0);
                assert(requirements_passed(levels, nl, 0) == 0);
            },
            _ => {
                lemma_level_up_run_accounting(levels, max_level, nl, nxp, nsp);
                let r = level_up_run(levels, max_level, nl, nxp, nsp);
                assert((seq![nl] + r.3).len() == r.3.len() + 1);
                assert(rewards_passed(levels, level, r.3.len() + 1)
                    == levels[row].skill_points_reward + rewards_passed(levels, nl, r.3.len()));
                assert(requirements_passed(levels, level, r.3.len() + 1)
                    == levels[row].xp_required + requirements_passed(levels, nl, r.3.len()));
            },
        }
    }
}

/// A gain of experience is accounted for: the skill points gained are the
/// rewards of the levels passed, the experience held afterwards plus the
/// requirements of the levels passed is the experience held before plus
/// the gain, and below a maximum level the player never passes it.
pub proof fn law_gain_accounting(p: PlayerExperience, gain: u32, settings: ExperienceSettings)
    ensures
        ({
            let r = gain_outcome(p, gain, settings);
            let levels = settings.levels@;
            let passed = r.3.len();
            &&& p.current_level <= r.0
            &&& r.2 == p.skill_points + rewards_passed(levels, p.current_level as int, passed)
            &&& r.1 + requirements_passed(levels, p.current_level as int, passed) == p.current_xp + gain
            &&& (settings.max_level matches Some(m) ==> (p.current_level < m ==> r.0 <= m))
        }),
{
    lemma_level_up_run_monotone(settings.levels@, settings.max_level, p.current_level as int, p.current_xp + gain, p.skill_points as int);
    lemma_level_up_run_accounting(settings.levels@, settings.max_level, p.current_level as int, p.current_xp + gain, p.skill_points as int);
}


/// A gain applied to a player is accounted for: the total grows by the
/// gain; the level grows by the number of level-up events, which announce
/// each level reached once, in order; the skill points grow by the rewards
/// of the levels passed; the experience held plus the requirements of the
/// levels passed is the experience held before plus the gain; and a player
/// below the maximum level does not pass it.
pub proof fn law_experience_gain_applied(
    p0: PlayerExperience,
    p1: PlayerExperience,
    entity: u64,
    gain: u32,
    settings: ExperienceSettings,
    events: Seq<LevelUpEvent>,
)
    requires
        gain_applied(p0, p1, entity, gain, settings, events),
    ensures
        p1.total_xp == p0.total_xp + gain,
        p1.current_level == p0.current_level + events.len(),
        forall|i: int| 0 <= i < events.len() ==> (#[trigger] events[i]).entity == entity
            && events[i].new_level == p0.current_level + 1 + i,
        p1.skill_points == p0.skill_points + rewards_passed(settings.levels@, p0.current_level as int, events.len()),
        p1.current_xp + requirements_passed(settings.levels@, p0.current_level as int, events.len()) == p0.current_xp + gain,
        settings.max_level matches Some(m) ==> (p0.current_level < m ==> p1.current_level <= m),
{
    law_gain_levels_one_by_one(p0, gain, settings);
    law_gain_accounting(p0, gain, settings);
    let r = gain_outcome(p0, gain, settings);
    assert forall|i: int| 0 <= i < events.len() implies (#[trigger] events[i]).entity == entity
        && events[i].new_level == p0.current_level + 1 + i by {
        assert(r.3[i] == p0.current_level + 1 + i);
    }
}

} // verus!
