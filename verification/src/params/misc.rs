use vstd::prelude::*;
use crate::critter::Critter;
use crate::formula::ast::IntFormula;
use crate::formula::eval::{eval_bool, eval_int};
use crate::formula::construct::{divided, invar, plus, times};
use super::def::{
    ParamDef, base, bounded, spec_base, spec_bounded, spec_divided, spec_invar, spec_plus,
    spec_times,
};
use super::raw_param::{
    ST_APREGEN, ST_CURRENT_AP, ST_CURRENT_HP, ST_MAX_MOVE_AP, ST_MOVE_AP, ST_TURN_BASED_AC,
};
use super::values::{action_points_current_value, action_points_regen_value};
use super::stat::{Agility, Endurance};

verus! {

/// The LifeCurrent parameter (ТекущееЗдоровье).
#[derive(Debug, Clone, Copy)]
pub struct LifeCurrent;

impl LifeCurrent {
    pub open spec fn spec_def() -> ParamDef {
        ParamDef {
            index: ST_CURRENT_HP,
            name: "ТекущееЗдоровье",
            ext: None,
            bounds: None,
            presence: None,
        }
    }

    pub fn def(&self) -> (r: ParamDef)
        ensures
            r == Self::spec_def(),
    {
        ParamDef {
            index: ST_CURRENT_HP,
            name: "ТекущееЗдоровье",
            ext: None,
            bounds: None,
            presence: None,
        }
    }

    /// The parameter itself.
    pub fn base(&self) -> (r: IntFormula)
        ensures
            r == spec_base(Self::spec_def()),
    {
        base(&self.def())
    }

    pub open spec fn spec_formula() -> IntFormula {
        spec_base(LifeCurrent::spec_def())
    }

    /// The formula of the parameter's value.
    pub fn make_formula(&self) -> (r: IntFormula)
        ensures
            r == Self::spec_formula(),
            forall|cr: &Critter| cr.wf() ==> eval_int(r, Some(cr)) == Some(cr.param@[ST_CURRENT_HP as int]),
    {
        self.base()
    }

    pub open spec fn spec_calc() -> IntFormula {
        spec_bounded(Self::spec_def(), Self::spec_formula())
    }

    /// The formula kept within the parameter's bounds.
    pub fn calc(&self) -> (r: IntFormula)
        ensures
            r == Self::spec_calc(),
    {
        bounded(&self.def(), self.make_formula())
    }
}

/// The ActionPointsCurrent parameter (ТекущиеОД).
#[derive(Debug, Clone, Copy)]
pub struct ActionPointsCurrent;

impl ActionPointsCurrent {
    pub open spec fn spec_def() -> ParamDef {
        ParamDef {
            index: ST_CURRENT_AP,
            name: "ТекущиеОД",
            ext: None,
            bounds: Some((-9999i32, 9999i32)),
            presence: None,
        }
    }

    pub fn def(&self) -> (r: ParamDef)
        ensures
            r == Self::spec_def(),
    {
        ParamDef {
            index: ST_CURRENT_AP,
            name: "ТекущиеОД",
            ext: None,
            bounds: Some((-9999i32, 9999i32)),
            presence: None,
        }
    }

    /// The parameter itself.
    pub fn base(&self) -> (r: IntFormula)
        ensures
            r == spec_base(Self::spec_def()),
    {
        base(&self.def())
    }

    pub open spec fn spec_formula() -> IntFormula {
        spec_divided(spec_base(ActionPointsCurrent::spec_def()), spec_invar(100, "ДелительОД"))
    }

    /// The formula of the parameter's value.
    pub fn make_formula(&self) -> (r: IntFormula)
        ensures
            r == Self::spec_formula(),
            forall|cr: &Critter| cr.wf() ==> eval_int(r, Some(cr)) == action_points_current_value(cr),
    {
        let r = divided(self.base(), invar(100, "ДелительОД"));
        assert forall|cr: &Critter| cr.wf() implies eval_int(r, Some(cr)) == action_points_current_value(cr) by {
            reveal_with_fuel(eval_int, 3);
            reveal_with_fuel(eval_bool, 3);
        }
        r
    }

    pub open spec fn spec_calc() -> IntFormula {
        spec_bounded(Self::spec_def(), Self::spec_formula())
    }

    /// The formula kept within the parameter's bounds.
    pub fn calc(&self) -> (r: IntFormula)
        ensures
            r == Self::spec_calc(),
    {
        bounded(&self.def(), self.make_formula())
    }
}

/// The ActionPointsRegen parameter (РегенерацияОД).
#[derive(Debug, Clone, Copy)]
pub struct ActionPointsRegen;

impl ActionPointsRegen {
    pub open spec fn spec_def() -> ParamDef {
        ParamDef {
            index: ST_APREGEN,
            name: "РегенерацияОД",
            ext: None,
            bounds: None,
            presence: None,
        }
    }

    pub fn def(&self) -> (r: ParamDef)
        ensures
            r == Self::spec_def(),
    {
        ParamDef {
            index: ST_APREGEN,
            name: "РегенерацияОД",
            ext: None,
            bounds: None,
            presence: None,
        }
    }

    /// The parameter itself.
    pub fn base(&self) -> (r: IntFormula)
        ensures
            r == spec_base(Self::spec_def()),
    {
        base(&self.def())
    }

    pub open spec fn spec_formula() -> IntFormula {
        spec_plus(
            spec_plus(
                spec_plus(
                    spec_base(ActionPointsRegen::spec_def()),
                    spec_times(spec_base(Agility::spec_def()), spec_invar(50, "РегенОДзаЛовкость")),
                ),
                spec_times(
                    spec_base(Endurance::spec_def()),
                    spec_invar(20, "РегенОДзаВыносливость"),
                ),
            ),
            spec_invar(20, "БазовыйРегенОД"),
        )
    }

    /// The formula of the parameter's value.
    pub fn make_formula(&self) -> (r: IntFormula)
        ensures
            r == Self::spec_formula(),
            forall|cr: &Critter| cr.wf() ==> eval_int(r, Some(cr)) == action_points_regen_value(cr),
    {
        let r = plus(
            plus(
                plus(self.base(), times(Agility.base(), invar(50, "РегенОДзаЛовкость"))),
                times(Endurance.base(), invar(20, "РегенОДзаВыносливость")),
            ),
            invar(20, "БазовыйРегенОД"),
        );
        assert forall|cr: &Critter| cr.wf() implies eval_int(r, Some(cr)) == action_points_regen_value(cr) by {
            reveal_with_fuel(eval_int, 5);
            reveal_with_fuel(eval_bool, 5);
        }
        r
    }

    pub open spec fn spec_calc() -> IntFormula {
        spec_bounded(Self::spec_def(), Self::spec_formula())
    }

    /// The formula kept within the parameter's bounds.
    pub fn calc(&self) -> (r: IntFormula)
        ensures
            r == Self::spec_calc(),
    {
        bounded(&self.def(), self.make_formula())
    }
}

/// The MoveActionPointsMax parameter (МаксОДПеремещения).
#[derive(Debug, Clone, Copy)]
pub struct MoveActionPointsMax;

impl MoveActionPointsMax {
    pub open spec fn spec_def() -> ParamDef {
        ParamDef {
            index: ST_MAX_MOVE_AP,
            name: "МаксОДПеремещения",
            ext: None,
            bounds: Some((0i32, 9999i32)),
            presence: None,
        }
    }

    pub fn def(&self) -> (r: ParamDef)
        ensures
            r == Self::spec_def(),
    {
        ParamDef {
            index: ST_MAX_MOVE_AP,
            name: "МаксОДПеремещения",
            ext: None,
            bounds: Some((0i32, 9999i32)),
            presence: None,
        }
    }

    /// The parameter itself.
    pub fn base(&self) -> (r: IntFormula)
        ensures
            r == spec_base(Self::spec_def()),
    {
        base(&self.def())
    }

    pub open spec fn spec_formula() -> IntFormula {
        spec_base(MoveActionPointsMax::spec_def())
    }

    /// The formula of the parameter's value.
    pub fn make_formula(&self) -> (r: IntFormula)
        ensures
            r == Self::spec_formula(),
            forall|cr: &Critter| cr.wf() ==> eval_int(r, Some(cr)) == Some(cr.param@[ST_MAX_MOVE_AP as int]),
    {
        self.base()
    }

    pub open spec fn spec_calc() -> IntFormula {
        spec_bounded(Self::spec_def(), Self::spec_formula())
    }

    /// The formula kept within the parameter's bounds.
    pub fn calc(&self) -> (r: IntFormula)
        ensures
            r == Self::spec_calc(),
    {
        bounded(&self.def(), self.make_formula())
    }
}

/// The MoveActionPointsCurrent parameter (ТекущиеОДПеремещения).
#[derive(Debug, Clone, Copy)]
pub struct MoveActionPointsCurrent;

impl MoveActionPointsCurrent {
    pub open spec fn spec_def() -> ParamDef {
        ParamDef {
            index: ST_MOVE_AP,
            name: "ТекущиеОДПеремещения",
            ext: None,
            bounds: Some((0i32, 9999i32)),
            presence: None,
        }
    }

    pub fn def(&self) -> (r: ParamDef)
        ensures
            r == Self::spec_def(),
    {
        ParamDef {
            index: ST_MOVE_AP,
            name: "ТекущиеОДПеремещения",
            ext: None,
            bounds: Some((0i32, 9999i32)),
            presence: None,
        }
    }

    /// The parameter itself.
    pub fn base(&self) -> (r: IntFormula)
        ensures
            r == spec_base(Self::spec_def()),
    {
        base(&self.def())
    }

    pub open spec fn spec_formula() -> IntFormula {
        spec_base(MoveActionPointsCurrent::spec_def())
    }

    /// The formula of the parameter's value.
    pub fn make_formula(&self) -> (r: IntFormula)
        ensures
            r == Self::spec_formula(),
            forall|cr: &Critter| cr.wf() ==> eval_int(r, Some(cr)) == Some(cr.param@[ST_MOVE_AP as int]),
    {
        self.base()
    }

    pub open spec fn spec_calc() -> IntFormula {
        spec_bounded(Self::spec_def(), Self::spec_formula())
    }

    /// The formula kept within the parameter's bounds.
    pub fn calc(&self) -> (r: IntFormula)
        ensures
            r == Self::spec_calc(),
    {
        bounded(&self.def(), self.make_formula())
    }
}

/// The ArmorClassTurnBased parameter (КлассБрониПошаговый).
#[derive(Debug, Clone, Copy)]
pub struct ArmorClassTurnBased;

impl ArmorClassTurnBased {
    pub open spec fn spec_def() -> ParamDef {
        ParamDef {
            index: ST_TURN_BASED_AC,
            name: "КлассБрониПошаговый",
            ext: None,
            bounds: None,
            presence: None,
        }
    }

    pub fn def(&self) -> (r: ParamDef)
        ensures
            r == Self::spec_def(),
    {
        ParamDef {
            index: ST_TURN_BASED_AC,
            name: "КлассБрониПошаговый",
            ext: None,
            bounds: None,
            presence: None,
        }
    }

    /// The parameter itself.
    pub fn base(&self) -> (r: IntFormula)
        ensures
            r == spec_base(Self::spec_def()),
    {
        base(&self.def())
    }

    pub open spec fn spec_formula() -> IntFormula {
        spec_base(ArmorClassTurnBased::spec_def())
    }

    /// The formula of the parameter's value.
    pub fn make_formula(&self) -> (r: IntFormula)
        ensures
            r == Self::spec_formula(),
            forall|cr: &Critter| cr.wf() ==> eval_int(r, Some(cr)) == Some(cr.param@[ST_TURN_BASED_AC as int]),
    {
        self.base()
    }

    pub open spec fn spec_calc() -> IntFormula {
        spec_bounded(Self::spec_def(), Self::spec_formula())
    }

    /// The formula kept within the parameter's bounds.
    pub fn calc(&self) -> (r: IntFormula)
        ensures
            r == Self::spec_calc(),
    {
        bounded(&self.def(), self.make_formula())
    }
}

} // verus!
