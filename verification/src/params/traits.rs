use vstd::prelude::*;
use crate::critter::Critter;
use crate::formula::ast::{BoolFormula, IntFormula, Invar};
use crate::formula::eval::{eval_bool, eval_int};
use crate::formula::construct::{if_else, invar, is_night};
use super::def::{
    ParamDef, PresenceDef, base, bounded, present, spec_base, spec_bounded, spec_if_else,
    spec_invar, spec_is_night, spec_present,
};
use super::raw_param::{TRAIT_NIGHT_PERSON, TRAIT_SMALL_FRAME};
use super::values::night_person_bonus;

verus! {

/// The small frame trait (XилоеТело).
#[derive(Debug, Clone, Copy)]
pub struct SmallFrame;

impl SmallFrame {
    pub open spec fn spec_def() -> ParamDef {
        ParamDef {
            index: TRAIT_SMALL_FRAME,
            name: "XилоеТелоТрейт",
            ext: None,
            bounds: None,
            presence: Some(PresenceDef { name: "XилоеТелоТрейтПрисутствует", not_present: Invar { value: 0, name: "ТрейтОтсутствует" } }),
        }
    }

    pub fn def(&self) -> (r: ParamDef)
        ensures
            r == Self::spec_def(),
    {
        ParamDef {
            index: TRAIT_SMALL_FRAME,
            name: "XилоеТелоТрейт",
            ext: None,
            bounds: None,
            presence: Some(PresenceDef { name: "XилоеТелоТрейтПрисутствует", not_present: Invar { value: 0, name: "ТрейтОтсутствует" } }),
        }
    }

    /// The parameter itself.
    pub fn base(&self) -> (r: IntFormula)
        ensures
            r == spec_base(Self::spec_def()),
    {
        base(&self.def())
    }

    /// Whether it is present.
    pub fn present(&self) -> (r: BoolFormula)
        ensures
            r == spec_present(Self::spec_def()),
    {
        present(&self.def())
    }

    pub open spec fn spec_formula() -> IntFormula {
        spec_base(SmallFrame::spec_def())
    }

    /// The formula of the parameter's value.
    pub fn make_formula(&self) -> (r: IntFormula)
        ensures
            r == Self::spec_formula(),
            forall|cr: &Critter| cr.wf() ==> eval_int(r, Some(cr)) == Some(cr.param@[TRAIT_SMALL_FRAME as int]),
    {
        self.base()
    }

    pub open spec fn spec_calc() -> IntFormula {
        spec_bounded(Self::spec_def(), Self::spec_formula())
    }

    /// The formula kept within the parameter's bounds.
    pub fn calc(&self) -> (r: IntFormula)
        ensures
            r == Self::spec_calc(),
    {
        bounded(&self.def(), self.make_formula())
    }
}

/// The night person trait (НочнаяПерсона).
#[derive(Debug, Clone, Copy)]
pub struct NightPerson;

impl NightPerson {
    pub open spec fn spec_def() -> ParamDef {
        ParamDef {
            index: TRAIT_NIGHT_PERSON,
            name: "НочнаяПерсонаТрейт",
            ext: None,
            bounds: None,
            presence: Some(PresenceDef { name: "НочнаяПерсонаТрейтПрисутствует", not_present: Invar { value: 0, name: "ТрейтОтсутствует" } }),
        }
    }

    pub fn def(&self) -> (r: ParamDef)
        ensures
            r == Self::spec_def(),
    {
        ParamDef {
            index: TRAIT_NIGHT_PERSON,
            name: "НочнаяПерсонаТрейт",
            ext: None,
            bounds: None,
            presence: Some(PresenceDef { name: "НочнаяПерсонаТрейтПрисутствует", not_present: Invar { value: 0, name: "ТрейтОтсутствует" } }),
        }
    }

    /// The parameter itself.
    pub fn base(&self) -> (r: IntFormula)
        ensures
            r == spec_base(Self::spec_def()),
    {
        base(&self.def())
    }

    /// Whether it is present.
    pub fn present(&self) -> (r: BoolFormula)
        ensures
            r == spec_present(Self::spec_def()),
    {
        present(&self.def())
    }

    pub open spec fn spec_bonus() -> IntFormula {
        spec_if_else(
            spec_present(NightPerson::spec_def()),
            spec_if_else(
                spec_is_night("СейчасНочь"),
                spec_invar(1, "НочнойБонус"),
                spec_invar(-1i32, "ДневнойШтраф"),
            ),
            spec_invar(0, "НетБонуса"),
        )
    }

    /// The bonus that the trait gives to perception and intellect.
    pub fn make_bonus(&self) -> (r: IntFormula)
        ensures
            r == Self::spec_bonus(),
            forall|cr: &Critter| cr.wf() ==> eval_int(r, Some(cr)) == night_person_bonus(cr),
    {
        let r = if_else(
            self.present(),
            if_else(is_night("СейчасНочь"), invar(1, "НочнойБонус"), invar(-1i32, "ДневнойШтраф")),
            invar(0, "НетБонуса"),
        );
        assert forall|cr: &Critter| cr.wf() implies eval_int(r, Some(cr)) == night_person_bonus(cr) by {
            reveal_with_fuel(eval_int, 4);
            reveal_with_fuel(eval_bool, 4);
        }
        r
    }

    pub open spec fn spec_formula() -> IntFormula {
        spec_base(NightPerson::spec_def())
    }

    /// The formula of the parameter's value.
    pub fn make_formula(&self) -> (r: IntFormula)
        ensures
            r == Self::spec_formula(),
            forall|cr: &Critter| cr.wf() ==> eval_int(r, Some(cr)) == Some(cr.param@[TRAIT_NIGHT_PERSON as int]),
    {
        self.base()
    }

    pub open spec fn spec_calc() -> IntFormula {
        spec_bounded(Self::spec_def(), Self::spec_formula())
    }

    /// The formula kept within the parameter's bounds.
    pub fn calc(&self) -> (r: IntFormula)
        ensures
            r == Self::spec_calc(),
    {
        bounded(&self.def(), self.make_formula())
    }
}

} // verus!
