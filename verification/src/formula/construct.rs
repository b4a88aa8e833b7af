use vstd::prelude::*;
use super::ast::{
    ArmorStat, BoolFormula, Clamp, Compare, CompareOp, Cut, IfElse, IntFormula, Invar, ParamBase,
};

verus! {

/// A literal number.
pub fn integer(value: i32) -> (r: IntFormula)
    ensures
        r == IntFormula::Int(value),
{
    IntFormula::Int(value)
}

/// A literal truth value.
pub fn boolean(value: bool) -> (r: BoolFormula)
    ensures
        r == BoolFormula::Bool(value),
{
    BoolFormula::Bool(value)
}

/// A named constant.
pub fn invar(value: i32, name: &'static str) -> (r: IntFormula)
    ensures
        r == IntFormula::Invar(Invar { value, name }),
{
    IntFormula::Invar(Invar { value, name })
}

/// The critter parameter at `index`, shown as `name`.
pub fn param(index: u16, name: &'static str) -> (r: IntFormula)
    ensures
        r == IntFormula::Param(ParamBase { index, name }),
{
    IntFormula::Param(ParamBase { index, name })
}

/// Armor class of the worn armor, shown as `name`.
pub fn worn_armor_class(name: &'static str) -> (r: IntFormula)
    ensures
        r == IntFormula::WornArmorClass(name),
{
    IntFormula::WornArmorClass(name)
}

/// A protective value of the worn armor reduced by its wear, shown as `name`.
pub fn worn_armor_stat(stat: ArmorStat, name: &'static str) -> (r: IntFormula)
    ensures
        r == IntFormula::WornArmorStat(stat, name),
{
    IntFormula::WornArmorStat(stat, name)
}

/// Whether it is night, shown as `name`.
pub fn is_night(name: &'static str) -> (r: BoolFormula)
    ensures
        r == BoolFormula::IsNight(name),
{
    BoolFormula::IsNight(name)
}

/// Saturating sum, shown as `a + b`.
pub fn plus(a: IntFormula, b: IntFormula) -> (r: IntFormula)
    ensures
        r == IntFormula::Add(Box::new(a), Box::new(b)),
{
    IntFormula::Add(Box::new(a), Box::new(b))
}

/// Saturating difference, shown as `a - b`.
pub fn minus(a: IntFormula, b: IntFormula) -> (r: IntFormula)
    ensures
        r == IntFormula::Sub(Box::new(a), Box::new(b)),
{
    IntFormula::Sub(Box::new(a), Box::new(b))
}

/// Saturating product, shown as `a x b`.
pub fn times(a: IntFormula, b: IntFormula) -> (r: IntFormula)
    ensures
        r == IntFormula::Mul(Box::new(a), Box::new(b)),
{
    IntFormula::Mul(Box::new(a), Box::new(b))
}

/// Quotient rounded toward zero, shown as `a / b`.
pub fn divided(a: IntFormula, b: IntFormula) -> (r: IntFormula)
    ensures
        r == IntFormula::Div(Box::new(a), Box::new(b)),
{
    IntFormula::Div(Box::new(a), Box::new(b))
}

/// Saturating power, shown as `base^exponent`.
pub fn pow(base: IntFormula, exponent: IntFormula) -> (r: IntFormula)
    ensures
        r == IntFormula::Pow(Box::new(base), Box::new(exponent)),
{
    IntFormula::Pow(Box::new(base), Box::new(exponent))
}

/// The greater of two values.
pub fn max(a: IntFormula, b: IntFormula) -> (r: IntFormula)
    ensures
        r == IntFormula::Max(Box::new(a), Box::new(b)),
{
    IntFormula::Max(Box::new(a), Box::new(b))
}

pub fn if_else(condition: BoolFormula, first: IntFormula, second: IntFormula) -> (r: IntFormula)
    ensures
        r == IntFormula::IfElse(IfElse { condition: Box::new(condition), first: Box::new(first), second: Box::new(second) }),
{
    IntFormula::IfElse(IfElse { condition: Box::new(condition), first: Box::new(first), second: Box::new(second) })
}

pub fn if_else_bool(condition: BoolFormula, first: BoolFormula, second: BoolFormula) -> (r: BoolFormula)
    ensures
        r == BoolFormula::IfElse(IfElse { condition: Box::new(condition), first: Box::new(first), second: Box::new(second) }),
{
    BoolFormula::IfElse(IfElse { condition: Box::new(condition), first: Box::new(first), second: Box::new(second) })
}

pub fn clamp(value: IntFormula, min: IntFormula, max: IntFormula) -> (r: IntFormula)
    ensures
        r == IntFormula::Clamp(Clamp { value: Box::new(value), min: Box::new(min), max: Box::new(max) }),
{
    IntFormula::Clamp(Clamp { value: Box::new(value), min: Box::new(min), max: Box::new(max) })
}

/// A named part of an integer formula.
pub fn cut(name: &'static str, fragment: IntFormula) -> (r: IntFormula)
    ensures
        r == IntFormula::Cut(Cut { name, fragment: Box::new(fragment) }),
{
    IntFormula::Cut(Cut { name, fragment: Box::new(fragment) })
}

/// A named part of a boolean formula.
pub fn cut_bool(name: &'static str, fragment: BoolFormula) -> (r: BoolFormula)
    ensures
        r == BoolFormula::Cut(Cut { name, fragment: Box::new(fragment) }),
{
    BoolFormula::Cut(Cut { name, fragment: Box::new(fragment) })
}

/// Logical and; the second operand is computed only when the first holds.
pub fn and(a: BoolFormula, b: BoolFormula) -> (r: BoolFormula)
    ensures
        r == BoolFormula::And(Box::new(a), Box::new(b)),
{
    BoolFormula::And(Box::new(a), Box::new(b))
}

/// Logical or; the second operand is computed only when the first fails.
pub fn or(a: BoolFormula, b: BoolFormula) -> (r: BoolFormula)
    ensures
        r == BoolFormula::Or(Box::new(a), Box::new(b)),
{
    BoolFormula::Or(Box::new(a), Box::new(b))
}

pub fn compare(op: CompareOp, first: IntFormula, second: IntFormula) -> (r: BoolFormula)
    ensures
        r == BoolFormula::Compare(Compare { op, first: Box::new(first), second: Box::new(second) }),
{
    BoolFormula::Compare(Compare { op, first: Box::new(first), second: Box::new(second) })
}

pub fn equal(first: IntFormula, second: IntFormula) -> (r: BoolFormula)
    ensures
        r == BoolFormula::Compare(Compare { op: CompareOp::Equal, first: Box::new(first), second: Box::new(second) }),
{
    compare(CompareOp::Equal, first, second)
}

pub fn not_equal(first: IntFormula, second: IntFormula) -> (r: BoolFormula)
    ensures
        r == BoolFormula::Compare(Compare { op: CompareOp::NotEqual, first: Box::new(first), second: Box::new(second) }),
{
    compare(CompareOp::NotEqual, first, second)
}

pub fn greater_than(first: IntFormula, second: IntFormula) -> (r: BoolFormula)
    ensures
        r == BoolFormula::Compare(Compare { op: CompareOp::GreaterThan, first: Box::new(first), second: Box::new(second) }),
{
    compare(CompareOp::GreaterThan, first, second)
}

pub fn greater_or_equal(first: IntFormula, second: IntFormula) -> (r: BoolFormula)
    ensures
        r == BoolFormula::Compare(Compare { op: CompareOp::GreaterOrEqual, first: Box::new(first), second: Box::new(second) }),
{
    compare(CompareOp::GreaterOrEqual, first, second)
}

pub fn less_than(first: IntFormula, second: IntFormula) -> (r: BoolFormula)
    ensures
        r == BoolFormula::Compare(Compare { op: CompareOp::LessThan, first: Box::new(first), second: Box::new(second) }),
{
    compare(CompareOp::LessThan, first, second)
}

pub fn less_or_equal(first: IntFormula, second: IntFormula) -> (r: BoolFormula)
    ensures
        r == BoolFormula::Compare(Compare { op: CompareOp::LessOrEqual, first: Box::new(first), second: Box::new(second) }),
{
    compare(CompareOp::LessOrEqual, first, second)
}

} // verus!
