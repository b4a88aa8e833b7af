use vstd::prelude::*;
use crate::formula::ast::{
    ArmorStat, BoolFormula, Clamp, Compare, CompareOp, Cut, IfElse, IntFormula, Invar, ParamBase,
};
use crate::critter::Critter;
use crate::formula::construct::{clamp, cut_bool, integer, not_equal, param, plus};
use crate::formula::eval::eval_int;
use crate::formula::laws::lemma_clamp_within_bounds;

verus! {

/// The second, additive parameter of a stat.
#[derive(Debug, Clone, Copy)]
pub struct ExtDef {
    pub index: u16,
    pub name: &'static str,
}

/// How the presence of a perk, trait or damage is decided: its parameter
/// differs from the constant that stands for absence.
#[derive(Debug, Clone, Copy)]
pub struct PresenceDef {
    pub name: &'static str,
    pub not_present: Invar,
}

/// How a parameter enters formulas.
#[derive(Debug, Clone, Copy)]
pub struct ParamDef {
    pub index: u16,
    pub name: &'static str,
    pub ext: Option<ExtDef>,
    pub bounds: Option<(i32, i32)>,
    pub presence: Option<PresenceDef>,
}

pub open spec fn spec_plus(a: IntFormula, b: IntFormula) -> IntFormula {
    IntFormula::Add(Box::new(a), Box::new(b))
}

pub open spec fn spec_minus(a: IntFormula, b: IntFormula) -> IntFormula {
    IntFormula::Sub(Box::new(a), Box::new(b))
}

pub open spec fn spec_times(a: IntFormula, b: IntFormula) -> IntFormula {
    IntFormula::Mul(Box::new(a), Box::new(b))
}

pub open spec fn spec_divided(a: IntFormula, b: IntFormula) -> IntFormula {
    IntFormula::Div(Box::new(a), Box::new(b))
}

pub open spec fn spec_cut(name: &'static str, f: IntFormula) -> IntFormula {
    IntFormula::Cut(Cut { name, fragment: Box::new(f) })
}

pub open spec fn spec_invar(value: i32, name: &'static str) -> IntFormula {
    IntFormula::Invar(Invar { value, name })
}

pub open spec fn spec_integer(v: i32) -> IntFormula {
    IntFormula::Int(v)
}

pub open spec fn spec_max(a: IntFormula, b: IntFormula) -> IntFormula {
    IntFormula::Max(Box::new(a), Box::new(b))
}

pub open spec fn spec_if_else(c: BoolFormula, a: IntFormula, b: IntFormula) -> IntFormula {
    IntFormula::IfElse(IfElse { condition: Box::new(c), first: Box::new(a), second: Box::new(b) })
}

pub open spec fn spec_cut_bool(name: &'static str, f: BoolFormula) -> BoolFormula {
    BoolFormula::Cut(Cut { name, fragment: Box::new(f) })
}

pub open spec fn spec_and(a: BoolFormula, b: BoolFormula) -> BoolFormula {
    BoolFormula::And(Box::new(a), Box::new(b))
}

pub open spec fn spec_compare(op: CompareOp, a: IntFormula, b: IntFormula) -> BoolFormula {
    BoolFormula::Compare(Compare { op, first: Box::new(a), second: Box::new(b) })
}

pub open spec fn spec_not_equal(a: IntFormula, b: IntFormula) -> BoolFormula {
    spec_compare(CompareOp::NotEqual, a, b)
}

pub open spec fn spec_less_or_equal(a: IntFormula, b: IntFormula) -> BoolFormula {
    spec_compare(CompareOp::LessOrEqual, a, b)
}

pub open spec fn spec_is_night(name: &'static str) -> BoolFormula {
    BoolFormula::IsNight(name)
}

pub open spec fn spec_worn_armor_class(name: &'static str) -> IntFormula {
    IntFormula::WornArmorClass(name)
}

pub open spec fn spec_worn_armor_stat(stat: ArmorStat, name: &'static str) -> IntFormula {
    IntFormula::WornArmorStat(stat, name)
}

/// The parameter itself.
pub open spec fn spec_base(d: ParamDef) -> IntFormula {
    IntFormula::Param(ParamBase { index: d.index, name: d.name })
}

/// The parameter plus its additive part.
pub open spec fn spec_sum(d: ParamDef) -> IntFormula {
    spec_plus(spec_base(d), IntFormula::Param(ParamBase { index: d.ext.unwrap().index, name: d.ext.unwrap().name }))
}

/// Whether the perk, trait or damage is present, as a named part.
pub open spec fn spec_present(d: ParamDef) -> BoolFormula {
    BoolFormula::Cut(Cut {
        name: d.presence.unwrap().name,
        fragment: Box::new(BoolFormula::Compare(Compare {
            op: CompareOp::NotEqual,
            first: Box::new(spec_base(d)),
            second: Box::new(IntFormula::Invar(d.presence.unwrap().not_present)),
        })),
    })
}

/// `f` kept within the parameter's bounds, where it has any.
pub open spec fn spec_bounded(d: ParamDef, f: IntFormula) -> IntFormula {
    match d.bounds {
        Some((lo, hi)) => IntFormula::Clamp(Clamp {
            value: Box::new(f),
            min: Box::new(IntFormula::Int(lo)),
            max: Box::new(IntFormula::Int(hi)),
        }),
        None => f,
    }
}

pub fn base(d: &ParamDef) -> (r: IntFormula)
    ensures
        r == spec_base(*d),
{
    param(d.index, d.name)
}

pub fn sum(d: &ParamDef) -> (r: IntFormula)
    requires
        d.ext is Some,
    ensures
        r == spec_sum(*d),
{
    let e = d.ext.unwrap();
    plus(base(d), param(e.index, e.name))
}

pub fn present(d: &ParamDef) -> (r: BoolFormula)
    requires
        d.presence is Some,
    ensures
        r == spec_present(*d),
{
    let p = d.presence.unwrap();
    cut_bool(p.name, not_equal(base(d), IntFormula::Invar(p.not_present)))
}

pub fn bounded(d: &ParamDef, f: IntFormula) -> (r: IntFormula)
    ensures
        r == spec_bounded(*d, f),
{
    match d.bounds {
        Some((lo, hi)) => clamp(f, integer(lo), integer(hi)),
        None => f,
    }
}

/// A parameter kept within its bounds lies within them whenever its formula
/// can be computed, and is the formula's value when that is within them.
pub proof fn lemma_bounded_within(d: ParamDef, f: IntFormula, input: Option<&Critter>)
    requires
        d.bounds matches Some((lo, hi)) && lo <= hi,
        eval_int(f, input) is Some,
    ensures
        ({
            let (lo, hi) = d.bounds.unwrap();
            let r = eval_int(spec_bounded(d, f), input);
            let v = eval_int(f, input).unwrap();
            &&& r is Some
            &&& lo <= r.unwrap() <= hi
            &&& (lo <= v <= hi ==> r.unwrap() == v)
        }),
{
    let (lo, hi) = d.bounds.unwrap();
    lemma_clamp_within_bounds(f, IntFormula::Int(lo), IntFormula::Int(hi), input);
}

} // verus!
