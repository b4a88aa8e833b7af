use vstd::prelude::*;
use crate::critter::Critter;
use crate::formula::eval::eval_int;
use crate::formula::ast::IntFormula;
use super::def::{ParamDef, base, bounded, spec_base, spec_bounded};
use super::raw_param::SK_SMALL_GUNS;

verus! {

/// The small guns skill (ЛегкоеОружие).
#[derive(Debug, Clone, Copy)]
pub struct SmallGuns;

impl SmallGuns {
    pub open spec fn spec_def() -> ParamDef {
        ParamDef {
            index: SK_SMALL_GUNS,
            name: "ЛегкоеОружиеНавык",
            ext: None,
            bounds: None,
            presence: None,
        }
    }

    pub fn def(&self) -> (r: ParamDef)
        ensures
            r == Self::spec_def(),
    {
        ParamDef {
            index: SK_SMALL_GUNS,
            name: "ЛегкоеОружиеНавык",
            ext: None,
            bounds: None,
            presence: None,
        }
    }

    /// The parameter itself.
    pub fn base(&self) -> (r: IntFormula)
        ensures
            r == spec_base(Self::spec_def()),
    {
        base(&self.def())
    }

    pub open spec fn spec_formula() -> IntFormula {
        spec_base(SmallGuns::spec_def())
    }

    /// The formula of the parameter's value.
    pub fn make_formula(&self) -> (r: IntFormula)
        ensures
            r == Self::spec_formula(),
            forall|cr: &Critter| cr.wf() ==> eval_int(r, Some(cr)) == Some(cr.param@[SK_SMALL_GUNS as int]),
    {
        self.base()
    }

    pub open spec fn spec_calc() -> IntFormula {
        spec_bounded(Self::spec_def(), Self::spec_formula())
    }

    /// The formula kept within the parameter's bounds.
    pub fn calc(&self) -> (r: IntFormula)
        ensures
            r == Self::spec_calc(),
    {
        bounded(&self.def(), self.make_formula())
    }
}

} // verus!
