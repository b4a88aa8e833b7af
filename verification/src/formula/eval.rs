use vstd::prelude::*;
use crate::critter::{Armor, ArmorProto, Critter};
use super::arith::{
    checked_div, spec_checked_div, spec_saturating_add, spec_saturating_mul, spec_saturating_pow,
    spec_saturating_sub,
};
use super::ast::{ArmorStat, BoolFormula, CompareOp, IntFormula};
use super::ops::{Boolish, Saturating, SaturatingPow};

verus! {

pub open spec fn armor_proto_stat(p: ArmorProto, s: ArmorStat) -> i32 {
    match s {
        ArmorStat::DtNormal => p.dt_normal,
        ArmorStat::DtLaser => p.dt_laser,
        ArmorStat::DtFire => p.dt_fire,
        ArmorStat::DtPlasma => p.dt_plasma,
        ArmorStat::DtElectr => p.dt_electr,
        ArmorStat::DtEmp => p.dt_emp,
        ArmorStat::DtExplode => p.dt_explode,
        ArmorStat::DrNormal => p.dr_normal,
        ArmorStat::DrLaser => p.dr_laser,
        ArmorStat::DrFire => p.dr_fire,
        ArmorStat::DrPlasma => p.dr_plasma,
        ArmorStat::DrElectr => p.dr_electr,
        ArmorStat::DrEmp => p.dr_emp,
        ArmorStat::DrExplode => p.dr_explode,
    }
}

/// Armor class of the worn armor; zero without armor or prototype.
pub open spec fn spec_worn_armor_class(armor: Option<Armor>) -> i32 {
    match armor {
        Some(a) => match a.proto {
            Some(p) => p.armor_ac,
            None => 0,
        },
        None => 0,
    }
}

/// A protective value of the worn armor scaled by the share of the armor
/// that is not worn out: `value * (100 - wear%) / 100`, rounded toward zero.
/// `None` where the product leaves `i32`.
pub open spec fn spec_worn_armor_stat(armor: Option<Armor>, s: ArmorStat) -> Option<i32> {
    match armor {
        None => Some(0),
        Some(a) => match a.proto {
            None => Some(0),
            Some(p) => {
                let prod = armor_proto_stat(p, s) * (100 - a.spec_deterioration_proc());
                if prod > i32::MAX || prod < i32::MIN {
                    None
                } else {
                    spec_checked_div(prod as i32, 100)
                }
            },
        },
    }
}

pub open spec fn spec_compare(op: CompareOp, a: i32, b: i32) -> bool {
    match op {
        CompareOp::Equal => a == b,
        CompareOp::NotEqual => a != b,
        CompareOp::GreaterThan => a > b,
        CompareOp::GreaterOrEqual => a >= b,
        CompareOp::LessThan => a < b,
        CompareOp::LessOrEqual => a <= b,
    }
}

pub open spec fn spec_max(a: i32, b: i32) -> i32 {
    if a >= b { a } else { b }
}

/// Both operands computed, first then second.
pub open spec fn both(a: Option<i32>, b: Option<i32>) -> Option<(i32, i32)> {
    match (a, b) {
        (Some(x), Some(y)) => Some((x, y)),
        _ => None,
    }
}

/// The value of an integer formula over `input`, or `None` where computing
/// it fails: a division by zero or out of range, a parameter read without a
/// critter or out of the parameter array, an armor value that leaves `i32`
/// when scaled by its wear, or a time of day beyond what the engine's
/// arithmetic accepts. Operands are computed in the order the
/// formulas evaluate them, and branches that are not taken are not computed.
pub open spec fn eval_int(f: IntFormula, input: Option<&Critter>) -> Option<i32>
    decreases f,
{
    match f {
        IntFormula::Int(v) => Some(v),
        IntFormula::Invar(i) => Some(i.value),
        IntFormula::Param(p) => match input {
            Some(cr) => if (p.index as int) < cr.param@.len() {
                Some(cr.param@[p.index as int])
            } else {
                None
            },
            None => None,
        },
        IntFormula::WornArmorClass(_) => match input {
            Some(cr) => Some(spec_worn_armor_class(cr.armor)),
            None => None,
        },
        IntFormula::WornArmorStat(s, _) => match input {
            Some(cr) => spec_worn_armor_stat(cr.armor, s),
            None => None,
        },
        IntFormula::Add(a, b) => match both(eval_int(*a, input), eval_int(*b, input)) {
            Some((x, y)) => Some(spec_saturating_add(x, y)),
            None => None,
        },
        IntFormula::Sub(a, b) => match both(eval_int(*a, input), eval_int(*b, input)) {
            Some((x, y)) => Some(spec_saturating_sub(x, y)),
            None => None,
        },
        IntFormula::Mul(a, b) => match both(eval_int(*a, input), eval_int(*b, input)) {
            Some((x, y)) => Some(spec_saturating_mul(x, y)),
            None => None,
        },
        IntFormula::Div(a, b) => match both(eval_int(*a, input), eval_int(*b, input)) {
            Some((x, y)) => spec_checked_div(x, y),
            None => None,
        },
        IntFormula::Pow(a, b) => match eval_int(*b, input) {
            Some(e) => if e < 0 {
                Some(0i32)
            } else {
                match eval_int(*a, input) {
                    Some(x) => Some(spec_saturating_pow(x, e)),
                    None => None,
                }
            },
            None => None,
        },
        IntFormula::Max(a, b) => match both(eval_int(*a, input), eval_int(*b, input)) {
            Some((x, y)) => Some(spec_max(x, y)),
            None => None,
        },
        IntFormula::IfElse(ie) => match eval_bool(*ie.condition, input) {
            Some(true) => eval_int(*ie.first, input),
            Some(false) => eval_int(*ie.second, input),
            None => None,
        },
        IntFormula::Clamp(c) => match both(eval_int(*c.value, input), eval_int(*c.min, input)) {
            Some((v, lo)) => if v < lo {
                Some(lo)
            } else {
                match eval_int(*c.max, input) {
                    Some(hi) => if v > hi { Some(hi) } else { Some(v) },
                    None => None,
                }
            },
            None => None,
        },
        IntFormula::Cut(c) => eval_int(*c.fragment, input),
    }
}

/// The value of a boolean formula over `input`; see `eval_int`. `И` and
/// `ИЛИ` do not compute their second operand when the first decides.
pub open spec fn eval_bool(f: BoolFormula, input: Option<&Critter>) -> Option<bool>
    decreases f,
{
    match f {
        BoolFormula::Bool(v) => Some(v),
        BoolFormula::IsNight(_) => match input {
            Some(cr) => if cr.time.is_computable() {
                Some(cr.time.spec_is_night())
            } else {
                None
            },
            None => None,
        },
        BoolFormula::And(a, b) => match eval_bool(*a, input) {
            Some(false) => Some(false),
            Some(true) => eval_bool(*b, input),
            None => None,
        },
        BoolFormula::Or(a, b) => match eval_bool(*a, input) {
            Some(true) => Some(true),
            Some(false) => eval_bool(*b, input),
            None => None,
        },
        BoolFormula::Compare(c) => match both(eval_int(*c.first, input), eval_int(*c.second, input)) {
            Some((x, y)) => Some(spec_compare(c.op, x, y)),
            None => None,
        },
        BoolFormula::IfElse(ie) => match eval_bool(*ie.condition, input) {
            Some(true) => eval_bool(*ie.first, input),
            Some(false) => eval_bool(*ie.second, input),
            None => None,
        },
        BoolFormula::Cut(c) => eval_bool(*c.fragment, input),
    }
}

pub fn worn_armor_class(armor: Option<Armor>) -> (r: i32)
    ensures
        r == spec_worn_armor_class(armor),
{
    match armor {
        Some(a) => match a.proto {
            Some(p) => p.armor_ac,
            None => 0,
        },
        None => 0,
    }
}

pub fn armor_stat_value(p: &ArmorProto, s: ArmorStat) -> (r: i32)
    ensures
        r == armor_proto_stat(*p, s),
{
    match s {
        ArmorStat::DtNormal => p.dt_normal,
        ArmorStat::DtLaser => p.dt_laser,
        ArmorStat::DtFire => p.dt_fire,
        ArmorStat::DtPlasma => p.dt_plasma,
        ArmorStat::DtElectr => p.dt_electr,
        ArmorStat::DtEmp => p.dt_emp,
        ArmorStat::DtExplode => p.dt_explode,
        ArmorStat::DrNormal => p.dr_normal,
        ArmorStat::DrLaser => p.dr_laser,
        ArmorStat::DrFire => p.dr_fire,
        ArmorStat::DrPlasma => p.dr_plasma,
        ArmorStat::DrElectr => p.dr_electr,
        ArmorStat::DrEmp => p.dr_emp,
        ArmorStat::DrExplode => p.dr_explode,
    }
}

pub fn worn_armor_stat(armor: Option<Armor>, s: ArmorStat) -> (r: Option<i32>)
    ensures
        r == spec_worn_armor_stat(armor, s),
{
    match armor {
        None => Some(0),
        Some(a) => match a.proto {
            None => Some(0),
            Some(p) => {
                {
                    let proc = a.get_deterioration_proc();
                    let value = armor_stat_value(&p, s);
                    let share: i64 = 100 - proc as i64;
                    assert(-0x8000_0000 * 100 <= (value as int) * (share as int) <= 0x7fff_ffff * 100)
                        by (nonlinear_arith)
                        requires
                            i32::MIN <= value <= i32::MAX,
                            0 <= share <= 100,
                    ;
                    let prod: i64 = value as i64 * share;
                    if prod > i32::MAX as i64 || prod < i32::MIN as i64 {
                        None
                    } else {
                        checked_div(prod as i32, 100)
                    }
                }
            },
        },
    }
}

pub fn compare(op: CompareOp, a: i32, b: i32) -> (r: bool)
    ensures
        r == spec_compare(op, a, b),
{
    match op {
        CompareOp::Equal => a == b,
        CompareOp::NotEqual => a != b,
        CompareOp::GreaterThan => a > b,
        CompareOp::GreaterOrEqual => a >= b,
        CompareOp::LessThan => a < b,
        CompareOp::LessOrEqual => a <= b,
    }
}

impl IntFormula {
    /// Computes the formula, or `None` where computing it fails.
    pub fn checked_compute(&self, input: Option<&Critter>) -> (r: Option<i32>)
        ensures
            r == eval_int(*self, input),
        decreases self,
    {
        match self {
            IntFormula::Int(v) => Some(*v),
            IntFormula::Invar(i) => Some(i.value),
            IntFormula::Param(p) => match input {
                Some(cr) => if (p.index as usize) < cr.param.len() {
                    Some(cr.param[p.index as usize])
                } else {
                    None
                },
                None => None,
            },
            IntFormula::WornArmorClass(_) => match input {
                Some(cr) => Some(worn_armor_class(cr.armor())),
                None => None,
            },
            IntFormula::WornArmorStat(s, _) => match input {
                Some(cr) => worn_armor_stat(cr.armor(), *s),
                None => None,
            },
            IntFormula::Add(a, b) => {
                let x = a.checked_compute(input);
                let y = b.checked_compute(input);
                match (x, y) {
                    (Some(x), Some(y)) => Some(<i32 as Saturating>::compute_add(x, y)),
                    _ => None,
                }
            },
            IntFormula::Sub(a, b) => {
                let x = a.checked_compute(input);
                let y = b.checked_compute(input);
                match (x, y) {
                    (Some(x), Some(y)) => Some(<i32 as Saturating>::compute_sub(x, y)),
                    _ => None,
                }
            },
            IntFormula::Mul(a, b) => {
                let x = a.checked_compute(input);
                let y = b.checked_compute(input);
                match (x, y) {
                    (Some(x), Some(y)) => Some(<i32 as Saturating>::compute_mul(x, y)),
                    _ => None,
                }
            },
            IntFormula::Div(a, b) => {
                let x = a.checked_compute(input);
                let y = b.checked_compute(input);
                match (x, y) {
                    (Some(x), Some(y)) => if <i32 as Saturating>::divides(&x, &y) {
                        Some(<i32 as Saturating>::compute_div(x, y))
                    } else {
                        None
                    },
                    _ => None,
                }
            },
            IntFormula::Pow(a, b) => match b.checked_compute(input) {
                Some(e) => if e < 0 {
                    Some(0)
                } else {
                    match a.checked_compute(input) {
                        Some(x) => Some(<i32 as SaturatingPow>::saturating_pow(x, e)),
                        None => None,
                    }
                },
                None => None,
            },
            IntFormula::Max(a, b) => {
                let x = a.checked_compute(input);
                let y = b.checked_compute(input);
                match (x, y) {
                    (Some(x), Some(y)) => Some(if x >= y { x } else { y }),
                    _ => None,
                }
            },
            IntFormula::IfElse(ie) => match ie.condition.checked_compute(input) {
                Some(true) => ie.first.checked_compute(input),
                Some(false) => ie.second.checked_compute(input),
                None => None,
            },
            IntFormula::Clamp(c) => {
                let v = c.value.checked_compute(input);
                let lo = c.min.checked_compute(input);
                match (v, lo) {
                    (Some(v), Some(lo)) => if v < lo {
                        Some(lo)
                    } else {
                        match c.max.checked_compute(input) {
                            Some(hi) => if v > hi { Some(hi) } else { Some(v) },
                            None => None,
                        }
                    },
                    _ => None,
                }
            },
            IntFormula::Cut(c) => c.fragment.checked_compute(input),
        }
    }

    /// Computes the formula over `input`.
    pub fn compute(&self, input: Option<&Critter>) -> (r: i32)
        requires
            eval_int(*self, input) is Some,
        ensures
            Some(r) == eval_int(*self, input),
    {
        match self.checked_compute(input) {
            Some(v) => v,
            None => 0,
        }
    }
}

impl BoolFormula {
    /// Computes the formula, or `None` where computing it fails.
    pub fn checked_compute(&self, input: Option<&Critter>) -> (r: Option<bool>)
        ensures
            r == eval_bool(*self, input),
        decreases self,
    {
        match self {
            BoolFormula::Bool(v) => Some(*v),
            BoolFormula::IsNight(_) => match input {
                Some(cr) => if (cr.time.hour as u32) * 60 + (cr.time.minute as u32) <= u16::MAX as u32 {
                    Some(cr.time.is_night())
                } else {
                    None
                },
                None => None,
            },
            BoolFormula::And(a, b) => match a.checked_compute(input) {
                Some(false) => Some(false),
                Some(true) => match b.checked_compute(input) {
                    Some(y) => Some(<bool as Boolish>::logical_and(true, y)),
                    None => None,
                },
                None => None,
            },
            BoolFormula::Or(a, b) => match a.checked_compute(input) {
                Some(true) => Some(true),
                Some(false) => match b.checked_compute(input) {
                    Some(y) => Some(<bool as Boolish>::logical_or(false, y)),
                    None => None,
                },
                None => None,
            },
            BoolFormula::Compare(c) => {
                let x = c.first.checked_compute(input);
                let y = c.second.checked_compute(input);
                match (x, y) {
                    (Some(x), Some(y)) => Some(compare(c.op, x, y)),
                    _ => None,
                }
            },
            BoolFormula::IfElse(ie) => match ie.condition.checked_compute(input) {
                Some(true) => ie.first.checked_compute(input),
                Some(false) => ie.second.checked_compute(input),
                None => None,
            },
            BoolFormula::Cut(c) => c.fragment.checked_compute(input),
        }
    }

    /// Computes the formula over `input`.
    pub fn compute(&self, input: Option<&Critter>) -> (r: bool)
        requires
            eval_bool(*self, input) is Some,
        ensures
            Some(r) == eval_bool(*self, input),
    {
        match self.checked_compute(input) {
            Some(v) => v,
            None => false,
        }
    }
}

} // verus!
