use vstd::prelude::*;
use crate::critter::Critter;
use crate::formula::eval::eval_int;
use crate::formula::ast::{BoolFormula, IntFormula, Invar};
use super::def::{
    ParamDef, PresenceDef, base, bounded, present, spec_base, spec_bounded, spec_present,
};
use super::raw_param::DAMAGE_EYE;

verus! {

/// Damage to the eye (Глаз).
#[derive(Debug, Clone, Copy)]
pub struct Eye;

impl Eye {
    pub open spec fn spec_def() -> ParamDef {
        ParamDef {
            index: DAMAGE_EYE,
            name: "ГлазСостояние",
            ext: None,
            bounds: None,
            presence: Some(PresenceDef { name: "ГлазПовреждён", not_present: Invar { value: 0, name: "ПовреждениеОтсутствует" } }),
        }
    }

    pub fn def(&self) -> (r: ParamDef)
        ensures
            r == Self::spec_def(),
    {
        ParamDef {
            index: DAMAGE_EYE,
            name: "ГлазСостояние",
            ext: None,
            bounds: None,
            presence: Some(PresenceDef { name: "ГлазПовреждён", not_present: Invar { value: 0, name: "ПовреждениеОтсутствует" } }),
        }
    }

    /// The parameter itself.
    pub fn base(&self) -> (r: IntFormula)
        ensures
            r == spec_base(Self::spec_def()),
    {
        base(&self.def())
    }

    /// Whether it is present.
    pub fn present(&self) -> (r: BoolFormula)
        ensures
            r == spec_present(Self::spec_def()),
    {
        present(&self.def())
    }

    pub open spec fn spec_formula() -> IntFormula {
        spec_base(Eye::spec_def())
    }

    /// The formula of the parameter's value.
    pub fn make_formula(&self) -> (r: IntFormula)
        ensures
            r == Self::spec_formula(),
            forall|cr: &Critter| cr.wf() ==> eval_int(r, Some(cr)) == Some(cr.param@[DAMAGE_EYE as int]),
    {
        self.base()
    }

    pub open spec fn spec_calc() -> IntFormula {
        spec_bounded(Self::spec_def(), Self::spec_formula())
    }

    /// The formula kept within the parameter's bounds.
    pub fn calc(&self) -> (r: IntFormula)
        ensures
            r == Self::spec_calc(),
    {
        bounded(&self.def(), self.make_formula())
    }
}

} // verus!
