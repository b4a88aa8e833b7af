use vstd::prelude::*;
use crate::critter::Critter;
use crate::formula::arith::{
    spec_checked_div, spec_saturating_add, spec_saturating_mul, spec_saturating_sub,
};
use crate::formula::ast::ArmorStat;
use crate::formula::eval::{spec_max, spec_worn_armor_class, spec_worn_armor_stat};
use super::raw_param::{
    DAMAGE_EYE, PE_ADRENALINE_RUSH, ST_ACTION_POINTS, ST_ACTION_POINTS_EXT, ST_AGILITY,
    ST_AGILITY_EXT, ST_APREGEN, ST_ARMOR_CLASS, ST_ARMOR_CLASS_EXT, ST_CARRY_WEIGHT,
    ST_CARRY_WEIGHT_EXT, ST_CRITICAL_CHANCE, ST_CRITICAL_CHANCE_EXT, ST_CURRENT_AP, ST_CURRENT_HP,
    ST_ENDURANCE, ST_ENDURANCE_EXT, ST_HEALING_RATE, ST_HEALING_RATE_EXT, ST_INTELLECT,
    ST_INTELLECT_EXT, ST_LUCK, ST_LUCK_EXT, ST_MAX_LIFE, ST_MAX_LIFE_EXT, ST_MELEE_DAMAGE,
    ST_MELEE_DAMAGE_EXT, ST_PERCEPTION, ST_PERCEPTION_EXT, ST_POISON_RESISTANCE,
    ST_POISON_RESISTANCE_EXT, ST_RADIATION_RESISTANCE, ST_RADIATION_RESISTANCE_EXT, ST_SEQUENCE,
    ST_SEQUENCE_EXT, ST_STRENGTH, ST_STRENGTH_EXT, ST_TURN_BASED_AC, TO_BATTLE, TRAIT_NIGHT_PERSON,
    TRAIT_SMALL_FRAME,
};

verus! {

/// The critter's parameter at `index`.
pub open spec fn pv(cr: &Critter, index: u16) -> i32 {
    cr.param@[index as int]
}

/// A stat and its additive part, summed with saturation.
pub open spec fn stat_sum(cr: &Critter, index: u16, ext: u16) -> i32 {
    spec_saturating_add(pv(cr, index), pv(cr, ext))
}

pub open spec fn bounded(v: i32, lo: i32, hi: i32) -> i32 {
    if v < lo { lo } else if v > hi { hi } else { v }
}

/// Division by two, rounding toward zero.
pub open spec fn half(v: i32) -> i32 {
    spec_checked_div(v, 2).unwrap()
}

pub open spec fn endurance_calc(cr: &Critter) -> i32 {
    bounded(stat_sum(cr, ST_ENDURANCE, ST_ENDURANCE_EXT), 1, 10)
}

/// The night person's bonus: +1 at night, -1 by day, 0 without the trait;
/// unknown where the time of day cannot be computed.
pub open spec fn night_person_bonus(cr: &Critter) -> Option<i32> {
    if pv(cr, TRAIT_NIGHT_PERSON) != 0 {
        if cr.time.is_computable() {
            Some(if cr.time.spec_is_night() { 1i32 } else { -1i32 })
        } else {
            None
        }
    } else {
        Some(0)
    }
}

/// Adrenaline rush acts when the perk is taken, the critter is in battle and
/// its life is at most half of max life plus strength plus twice endurance.
pub open spec fn adrenaline_rush_acts(cr: &Critter) -> bool {
    &&& pv(cr, PE_ADRENALINE_RUSH) != 0
    &&& pv(cr, TO_BATTLE) != 0
    &&& pv(cr, ST_CURRENT_HP) <= half(spec_saturating_add(
        spec_saturating_add(pv(cr, ST_MAX_LIFE), pv(cr, ST_STRENGTH)),
        spec_saturating_mul(pv(cr, ST_ENDURANCE), 2),
    ))
}

pub open spec fn strength_value(cr: &Critter) -> Option<i32> {
    Some(spec_saturating_add(
        stat_sum(cr, ST_STRENGTH, ST_STRENGTH_EXT),
        if adrenaline_rush_acts(cr) { 1i32 } else { 0i32 },
    ))
}

/// Perception is 1 with a damaged eye; the night person's bonus is added.
pub open spec fn perception_value(cr: &Critter) -> Option<i32> {
    let own = if pv(cr, DAMAGE_EYE) != 0 { 1i32 } else { stat_sum(cr, ST_PERCEPTION, ST_PERCEPTION_EXT) };
    match night_person_bonus(cr) {
        Some(b) => Some(spec_saturating_add(own, b)),
        None => None,
    }
}

pub open spec fn intellect_value(cr: &Critter) -> Option<i32> {
    match night_person_bonus(cr) {
        Some(b) => Some(spec_saturating_add(stat_sum(cr, ST_INTELLECT, ST_INTELLECT_EXT), b)),
        None => None,
    }
}

/// Max life: the stat plus 4 per strength and 8 per endurance point.
pub open spec fn life_max_value(cr: &Critter) -> Option<i32> {
    Some(spec_saturating_add(
        spec_saturating_add(
            stat_sum(cr, ST_MAX_LIFE, ST_MAX_LIFE_EXT),
            spec_saturating_mul(pv(cr, ST_STRENGTH), 4),
        ),
        spec_saturating_mul(pv(cr, ST_ENDURANCE), 8),
    ))
}

pub open spec fn action_points_max_value(cr: &Critter) -> Option<i32> {
    Some(spec_saturating_add(stat_sum(cr, ST_ACTION_POINTS, ST_ACTION_POINTS_EXT), 100))
}

/// Carry weight: the stat, at least 0, plus 1000 times (15 plus strength
/// times (10 minus 4 with a small frame)).
pub open spec fn weight_max_value(cr: &Critter) -> Option<i32> {
    Some(spec_saturating_add(
        spec_max(stat_sum(cr, ST_CARRY_WEIGHT, ST_CARRY_WEIGHT_EXT), 0),
        spec_saturating_mul(
            1000,
            spec_saturating_add(
                15,
                spec_saturating_mul(
                    pv(cr, ST_STRENGTH),
                    spec_saturating_sub(10, spec_saturating_mul(pv(cr, TRAIT_SMALL_FRAME), 4)),
                ),
            ),
        ),
    ))
}

/// Sequence: the stat plus twice the bounded perception.
pub open spec fn sequence_value(cr: &Critter) -> Option<i32> {
    match perception_value(cr) {
        Some(p) => Some(spec_saturating_add(
            stat_sum(cr, ST_SEQUENCE, ST_SEQUENCE_EXT),
            spec_saturating_mul(bounded(p, 1, 10), 2),
        )),
        None => None,
    }
}

pub open spec fn melee_damage_value(cr: &Critter) -> Option<i32> {
    Some(spec_saturating_add(
        spec_saturating_add(stat_sum(cr, ST_MELEE_DAMAGE, ST_MELEE_DAMAGE_EXT), 3),
        spec_saturating_mul(pv(cr, ST_STRENGTH), 2),
    ))
}

/// Healing rate: the stat plus a third of the bounded endurance, at least 1.
pub open spec fn healing_rate_value(cr: &Critter) -> Option<i32> {
    Some(spec_saturating_add(
        stat_sum(cr, ST_HEALING_RATE, ST_HEALING_RATE_EXT),
        spec_max(1, spec_checked_div(endurance_calc(cr), 3).unwrap()),
    ))
}

pub open spec fn critical_chance_value(cr: &Critter) -> Option<i32> {
    Some(spec_saturating_add(
        stat_sum(cr, ST_CRITICAL_CHANCE, ST_CRITICAL_CHANCE_EXT),
        bounded(stat_sum(cr, ST_LUCK, ST_LUCK_EXT), 1, 10),
    ))
}

/// Armor class: the stat plus 5 per bounded agility point plus the
/// turn-based bonus, minus the worn armor's class.
pub open spec fn armor_class_value(cr: &Critter) -> Option<i32> {
    Some(spec_saturating_sub(
        spec_saturating_add(
            spec_saturating_add(
                stat_sum(cr, ST_ARMOR_CLASS, ST_ARMOR_CLASS_EXT),
                spec_saturating_mul(bounded(stat_sum(cr, ST_AGILITY, ST_AGILITY_EXT), 1, 10), 5),
            ),
            pv(cr, ST_TURN_BASED_AC),
        ),
        spec_worn_armor_class(cr.armor),
    ))
}

pub open spec fn radiation_resistance_value(cr: &Critter) -> Option<i32> {
    Some(spec_saturating_add(
        stat_sum(cr, ST_RADIATION_RESISTANCE, ST_RADIATION_RESISTANCE_EXT),
        spec_saturating_mul(endurance_calc(cr), 2),
    ))
}

pub open spec fn poison_resistance_value(cr: &Critter) -> Option<i32> {
    Some(spec_saturating_add(
        stat_sum(cr, ST_POISON_RESISTANCE, ST_POISON_RESISTANCE_EXT),
        spec_saturating_mul(endurance_calc(cr), 5),
    ))
}

/// Current action points in whole points: the raw value divided by 100.
pub open spec fn action_points_current_value(cr: &Critter) -> Option<i32> {
    spec_checked_div(pv(cr, ST_CURRENT_AP), 100)
}

/// Action points regained per turn: the own rate plus 50 per agility and 20
/// per endurance point plus 20.
pub open spec fn action_points_regen_value(cr: &Critter) -> Option<i32> {
    Some(spec_saturating_add(
        spec_saturating_add(
            spec_saturating_add(pv(cr, ST_APREGEN), spec_saturating_mul(pv(cr, ST_AGILITY), 50)),
            spec_saturating_mul(pv(cr, ST_ENDURANCE), 20),
        ),
        20,
    ))
}

/// A resistance or absorption: the stat plus the worn armor's value.
pub open spec fn armor_protection_value(cr: &Critter, index: u16, ext: u16, stat: ArmorStat) -> Option<i32> {
    match spec_worn_armor_stat(cr.armor, stat) {
        Some(a) => Some(spec_saturating_add(stat_sum(cr, index, ext), a)),
        None => None,
    }
}

} // verus!
