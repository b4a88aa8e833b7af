use vstd::prelude::*;
use crate::critter::Critter;
use super::arith::{
    checked_div, saturating_add, saturating_mul, saturating_sub, spec_checked_div, spec_saturating_add,
    spec_saturating_mul, spec_saturating_pow, spec_saturating_sub,
};
use super::ast::IntFormula;

verus! {

/// The arithmetic of formula values: saturating where the result leaves the
/// type's range.
pub trait Saturating: Sized {
    /// Whether dividing `a` by `b` has a result.
    spec fn spec_divides(a: Self, b: Self) -> bool;

    fn divides(a: &Self, b: &Self) -> (r: bool)
        ensures
            r == Self::spec_divides(*a, *b),
    ;

    fn compute_add(a: Self, b: Self) -> Self;

    fn compute_sub(a: Self, b: Self) -> Self;

    fn compute_mul(a: Self, b: Self) -> Self;

    fn compute_div(a: Self, b: Self) -> Self
        requires
            Self::spec_divides(a, b),
    ;
}

impl Saturating for i32 {
    /// Division is defined but for a zero divisor and `i32::MIN / -1`.
    open spec fn spec_divides(a: i32, b: i32) -> bool {
        spec_checked_div(a, b) is Some
    }

    fn divides(a: &i32, b: &i32) -> (r: bool) {
        checked_div(*a, *b).is_some()
    }

    fn compute_add(a: i32, b: i32) -> (r: i32)
        ensures
            r == spec_saturating_add(a, b),
    {
        saturating_add(a, b)
    }

    fn compute_sub(a: i32, b: i32) -> (r: i32)
        ensures
            r == spec_saturating_sub(a, b),
    {
        saturating_sub(a, b)
    }

    fn compute_mul(a: i32, b: i32) -> (r: i32)
        ensures
            r == spec_saturating_mul(a, b),
    {
        saturating_mul(a, b)
    }

    fn compute_div(a: i32, b: i32) -> (r: i32)
        ensures
            Some(r) == spec_checked_div(a, b),
    {
        match checked_div(a, b) {
            Some(q) => q,
            None => 0,
        }
    }
}

/// Exponentiation of formula values.
pub trait SaturatingPow: Sized {
    spec fn spec_pow(a: Self, b: Self) -> Self;

    fn saturating_pow(a: Self, b: Self) -> (r: Self)
        ensures
            r == Self::spec_pow(a, b),
    ;
}

impl SaturatingPow for i32 {
    /// A negative exponent gives zero; otherwise the power, saturated.
    open spec fn spec_pow(a: i32, b: i32) -> i32 {
        spec_saturating_pow(a, b)
    }

    fn saturating_pow(a: i32, b: i32) -> (r: i32) {
        super::arith::saturating_pow(a, b)
    }
}

/// The logic of formula values. The formulas decide whether the second
/// operand is computed at all: only when the first does not settle the
/// result.
pub trait Boolish: Sized {
    fn logical_and(a: Self, b: Self) -> Self;

    fn logical_or(a: Self, b: Self) -> Self;
}

impl Boolish for bool {
    fn logical_and(a: bool, b: bool) -> (r: bool)
        ensures
            r == (a && b),
    {
        a && b
    }

    fn logical_or(a: bool, b: bool) -> (r: bool)
        ensures
            r == (a || b),
    {
        a || b
    }
}

/// What a formula can be computed over.
pub trait FormulaData {}

impl FormulaData for Critter {}

/// The input that a formula made of parts needs, from the inputs of its
/// parts: `()` for a part that needs none.
pub trait Biop {
    type Output;
}

impl<A: FormulaData> Biop for (A, ()) {
    type Output = A;
}

impl<B: FormulaData> Biop for ((), B) {
    type Output = B;
}

impl<A: FormulaData> Biop for (A, A) {
    type Output = A;
}

impl Biop for ((), ()) {
    type Output = ();
}

impl<A: FormulaData> Biop for (A, (), ()) {
    type Output = A;
}

impl<A: FormulaData> Biop for (A, A, ()) {
    type Output = A;
}

impl<A: FormulaData> Biop for (A, A, A) {
    type Output = A;
}

impl<A: FormulaData> Biop for ((), A, A) {
    type Output = A;
}

impl<A: FormulaData> Biop for ((), (), A) {
    type Output = A;
}

impl<A: FormulaData> Biop for (A, (), A) {
    type Output = A;
}

impl<A: FormulaData> Biop for ((), A, ()) {
    type Output = A;
}

impl Biop for ((), (), ()) {
    type Output = ();
}

/// A formula over a critter with an integer value.
pub trait CrOp {}

impl CrOp for IntFormula {}

} // verus!
