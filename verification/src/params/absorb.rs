use vstd::prelude::*;
use crate::critter::Critter;
use crate::formula::ast::{ArmorStat, IntFormula};
use crate::formula::eval::{eval_bool, eval_int};
use crate::formula::construct::{cut, plus, worn_armor_stat};
use super::def::{
    ExtDef, ParamDef, base, bounded, spec_base, spec_bounded, spec_cut, spec_plus, spec_sum,
    spec_worn_armor_stat, sum,
};
use super::raw_param::{
    ST_ELECTRO_ABSORB, ST_ELECTRO_ABSORB_EXT, ST_EMP_ABSORB, ST_EMP_ABSORB_EXT, ST_EXPLODE_ABSORB,
    ST_EXPLODE_ABSORB_EXT, ST_FIRE_ABSORB, ST_FIRE_ABSORB_EXT, ST_LASER_ABSORB, ST_LASER_ABSORB_EXT,
    ST_NORMAL_ABSORB, ST_NORMAL_ABSORB_EXT, ST_PLASMA_ABSORB, ST_PLASMA_ABSORB_EXT,
};
use super::values::armor_protection_value;

verus! {

/// Absorption of normal damage (ПоглощениеНормальногоУрона).
#[derive(Debug, Clone, Copy)]
pub struct Normal;

impl Normal {
    pub open spec fn spec_def() -> ParamDef {
        ParamDef {
            index: ST_NORMAL_ABSORB,
            name: "ПоглощениеНормальногоУронаБаза",
            ext: Some(ExtDef { index: ST_NORMAL_ABSORB_EXT, name: "ПоглощениеНормальногоУронаЭффект" }),
            bounds: Some((0i32, 999i32)),
            presence: None,
        }
    }

    pub fn def(&self) -> (r: ParamDef)
        ensures
            r == Self::spec_def(),
    {
        ParamDef {
            index: ST_NORMAL_ABSORB,
            name: "ПоглощениеНормальногоУронаБаза",
            ext: Some(ExtDef { index: ST_NORMAL_ABSORB_EXT, name: "ПоглощениеНормальногоУронаЭффект" }),
            bounds: Some((0i32, 999i32)),
            presence: None,
        }
    }

    /// The parameter itself.
    pub fn base(&self) -> (r: IntFormula)
        ensures
            r == spec_base(Self::spec_def()),
    {
        base(&self.def())
    }

    /// The parameter plus its additive part.
    pub fn sum(&self) -> (r: IntFormula)
        ensures
            r == spec_sum(Self::spec_def()),
    {
        sum(&self.def())
    }

    pub open spec fn spec_formula() -> IntFormula {
        spec_plus(
            spec_cut("ОтСтатов", spec_sum(Normal::spec_def())),
            spec_worn_armor_stat(ArmorStat::DtNormal, "ОтБрони"),
        )
    }

    /// The formula of the parameter's value.
    pub fn make_formula(&self) -> (r: IntFormula)
        ensures
            r == Self::spec_formula(),
            forall|cr: &Critter| cr.wf() ==> eval_int(r, Some(cr)) == armor_protection_value(cr, ST_NORMAL_ABSORB, ST_NORMAL_ABSORB_EXT, ArmorStat::DtNormal),
    {
        let r = plus(cut("ОтСтатов", self.sum()), worn_armor_stat(ArmorStat::DtNormal, "ОтБрони"));
        assert forall|cr: &Critter| cr.wf() implies eval_int(r, Some(cr)) == armor_protection_value(cr, ST_NORMAL_ABSORB, ST_NORMAL_ABSORB_EXT, ArmorStat::DtNormal) by {
            reveal_with_fuel(eval_int, 5);
            reveal_with_fuel(eval_bool, 5);
        }
        r
    }

    pub open spec fn spec_calc() -> IntFormula {
        spec_bounded(Self::spec_def(), Self::spec_formula())
    }

    /// The formula kept within the parameter's bounds.
    pub fn calc(&self) -> (r: IntFormula)
        ensures
            r == Self::spec_calc(),
    {
        bounded(&self.def(), self.make_formula())
    }
}

/// Absorption of laser damage (ПоглощениеЛазерногоУрона).
#[derive(Debug, Clone, Copy)]
pub struct Laser;

impl Laser {
    pub open spec fn spec_def() -> ParamDef {
        ParamDef {
            index: ST_LASER_ABSORB,
            name: "ПоглощениеЛазерногоУронаБаза",
            ext: Some(ExtDef { index: ST_LASER_ABSORB_EXT, name: "ПоглощениеЛазерногоУронаЭффект" }),
            bounds: Some((0i32, 999i32)),
            presence: None,
        }
    }

    pub fn def(&self) -> (r: ParamDef)
        ensures
            r == Self::spec_def(),
    {
        ParamDef {
            index: ST_LASER_ABSORB,
            name: "ПоглощениеЛазерногоУронаБаза",
            ext: Some(ExtDef { index: ST_LASER_ABSORB_EXT, name: "ПоглощениеЛазерногоУронаЭффект" }),
            bounds: Some((0i32, 999i32)),
            presence: None,
        }
    }

    /// The parameter itself.
    pub fn base(&self) -> (r: IntFormula)
        ensures
            r == spec_base(Self::spec_def()),
    {
        base(&self.def())
    }

    /// The parameter plus its additive part.
    pub fn sum(&self) -> (r: IntFormula)
        ensures
            r == spec_sum(Self::spec_def()),
    {
        sum(&self.def())
    }

    pub open spec fn spec_formula() -> IntFormula {
        spec_plus(
            spec_cut("ОтСтатов", spec_sum(Laser::spec_def())),
            spec_worn_armor_stat(ArmorStat::DtLaser, "ОтБрони"),
        )
    }

    /// The formula of the parameter's value.
    pub fn make_formula(&self) -> (r: IntFormula)
        ensures
            r == Self::spec_formula(),
            forall|cr: &Critter| cr.wf() ==> eval_int(r, Some(cr)) == armor_protection_value(cr, ST_LASER_ABSORB, ST_LASER_ABSORB_EXT, ArmorStat::DtLaser),
    {
        let r = plus(cut("ОтСтатов", self.sum()), worn_armor_stat(ArmorStat::DtLaser, "ОтБрони"));
        assert forall|cr: &Critter| cr.wf() implies eval_int(r, Some(cr)) == armor_protection_value(cr, ST_LASER_ABSORB, ST_LASER_ABSORB_EXT, ArmorStat::DtLaser) by {
            reveal_with_fuel(eval_int, 5);
            reveal_with_fuel(eval_bool, 5);
        }
        r
    }

    pub open spec fn spec_calc() -> IntFormula {
        spec_bounded(Self::spec_def(), Self::spec_formula())
    }

    /// The formula kept within the parameter's bounds.
    pub fn calc(&self) -> (r: IntFormula)
        ensures
            r == Self::spec_calc(),
    {
        bounded(&self.def(), self.make_formula())
    }
}

/// Absorption of fire damage (ПоглощениеОгненногоУрона).
#[derive(Debug, Clone, Copy)]
pub struct Fire;

impl Fire {
    pub open spec fn spec_def() -> ParamDef {
        ParamDef {
            index: ST_FIRE_ABSORB,
            name: "ПоглощениеОгненногоУронаБаза",
            ext: Some(ExtDef { index: ST_FIRE_ABSORB_EXT, name: "ПоглощениеОгненногоУронаЭффект" }),
            bounds: Some((0i32, 999i32)),
            presence: None,
        }
    }

    pub fn def(&self) -> (r: ParamDef)
        ensures
            r == Self::spec_def(),
    {
        ParamDef {
            index: ST_FIRE_ABSORB,
            name: "ПоглощениеОгненногоУронаБаза",
            ext: Some(ExtDef { index: ST_FIRE_ABSORB_EXT, name: "ПоглощениеОгненногоУронаЭффект" }),
            bounds: Some((0i32, 999i32)),
            presence: None,
        }
    }

    /// The parameter itself.
    pub fn base(&self) -> (r: IntFormula)
        ensures
            r == spec_base(Self::spec_def()),
    {
        base(&self.def())
    }

    /// The parameter plus its additive part.
    pub fn sum(&self) -> (r: IntFormula)
        ensures
            r == spec_sum(Self::spec_def()),
    {
        sum(&self.def())
    }

    pub open spec fn spec_formula() -> IntFormula {
        spec_plus(
            spec_cut("ОтСтатов", spec_sum(Fire::spec_def())),
            spec_worn_armor_stat(ArmorStat::DtFire, "ОтБрони"),
        )
    }

    /// The formula of the parameter's value.
    pub fn make_formula(&self) -> (r: IntFormula)
        ensures
            r == Self::spec_formula(),
            forall|cr: &Critter| cr.wf() ==> eval_int(r, Some(cr)) == armor_protection_value(cr, ST_FIRE_ABSORB, ST_FIRE_ABSORB_EXT, ArmorStat::DtFire),
    {
        let r = plus(cut("ОтСтатов", self.sum()), worn_armor_stat(ArmorStat::DtFire, "ОтБрони"));
        assert forall|cr: &Critter| cr.wf() implies eval_int(r, Some(cr)) == armor_protection_value(cr, ST_FIRE_ABSORB, ST_FIRE_ABSORB_EXT, ArmorStat::DtFire) by {
            reveal_with_fuel(eval_int, 5);
            reveal_with_fuel(eval_bool, 5);
        }
        r
    }

    pub open spec fn spec_calc() -> IntFormula {
        spec_bounded(Self::spec_def(), Self::spec_formula())
    }

    /// The formula kept within the parameter's bounds.
    pub fn calc(&self) -> (r: IntFormula)
        ensures
            r == Self::spec_calc(),
    {
        bounded(&self.def(), self.make_formula())
    }
}

/// Absorption of plasma damage (ПоглощениеПлазменногоУрона).
#[derive(Debug, Clone, Copy)]
pub struct Plasma;

impl Plasma {
    pub open spec fn spec_def() -> ParamDef {
        ParamDef {
            index: ST_PLASMA_ABSORB,
            name: "ПоглощениеПлазменногоУронаБаза",
            ext: Some(ExtDef { index: ST_PLASMA_ABSORB_EXT, name: "ПоглощениеПлазменногоУронаЭффект" }),
            bounds: Some((0i32, 999i32)),
            presence: None,
        }
    }

    pub fn def(&self) -> (r: ParamDef)
        ensures
            r == Self::spec_def(),
    {
        ParamDef {
            index: ST_PLASMA_ABSORB,
            name: "ПоглощениеПлазменногоУронаБаза",
            ext: Some(ExtDef { index: ST_PLASMA_ABSORB_EXT, name: "ПоглощениеПлазменногоУронаЭффект" }),
            bounds: Some((0i32, 999i32)),
            presence: None,
        }
    }

    /// The parameter itself.
    pub fn base(&self) -> (r: IntFormula)
        ensures
            r == spec_base(Self::spec_def()),
    {
        base(&self.def())
    }

    /// The parameter plus its additive part.
    pub fn sum(&self) -> (r: IntFormula)
        ensures
            r == spec_sum(Self::spec_def()),
    {
        sum(&self.def())
    }

    pub open spec fn spec_formula() -> IntFormula {
        spec_plus(
            spec_cut("ОтСтатов", spec_sum(Plasma::spec_def())),
            spec_worn_armor_stat(ArmorStat::DtPlasma, "ОтБрони"),
        )
    }

    /// The formula of the parameter's value.
    pub fn make_formula(&self) -> (r: IntFormula)
        ensures
            r == Self::spec_formula(),
            forall|cr: &Critter| cr.wf() ==> eval_int(r, Some(cr)) == armor_protection_value(cr, ST_PLASMA_ABSORB, ST_PLASMA_ABSORB_EXT, ArmorStat::DtPlasma),
    {
        let r = plus(cut("ОтСтатов", self.sum()), worn_armor_stat(ArmorStat::DtPlasma, "ОтБрони"));
        assert forall|cr: &Critter| cr.wf() implies eval_int(r, Some(cr)) == armor_protection_value(cr, ST_PLASMA_ABSORB, ST_PLASMA_ABSORB_EXT, ArmorStat::DtPlasma) by {
            reveal_with_fuel(eval_int, 5);
            reveal_with_fuel(eval_bool, 5);
        }
        r
    }

    pub open spec fn spec_calc() -> IntFormula {
        spec_bounded(Self::spec_def(), Self::spec_formula())
    }

    /// The formula kept within the parameter's bounds.
    pub fn calc(&self) -> (r: IntFormula)
        ensures
            r == Self::spec_calc(),
    {
        bounded(&self.def(), self.make_formula())
    }
}

/// Absorption of electro damage (ПоглощениеЭлектрическогоУрона).
#[derive(Debug, Clone, Copy)]
pub struct Electro;

impl Electro {
    pub open spec fn spec_def() -> ParamDef {
        ParamDef {
            index: ST_ELECTRO_ABSORB,
            name: "ПоглощениеЭлектрическогоУронаБаза",
            ext: Some(ExtDef { index: ST_ELECTRO_ABSORB_EXT, name: "ПоглощениеЭлектрическогоУронаЭффект" }),
            bounds: Some((0i32, 999i32)),
            presence: None,
        }
    }

    pub fn def(&self) -> (r: ParamDef)
        ensures
            r == Self::spec_def(),
    {
        ParamDef {
            index: ST_ELECTRO_ABSORB,
            name: "ПоглощениеЭлектрическогоУронаБаза",
            ext: Some(ExtDef { index: ST_ELECTRO_ABSORB_EXT, name: "ПоглощениеЭлектрическогоУронаЭффект" }),
            bounds: Some((0i32, 999i32)),
            presence: None,
        }
    }

    /// The parameter itself.
    pub fn base(&self) -> (r: IntFormula)
        ensures
            r == spec_base(Self::spec_def()),
    {
        base(&self.def())
    }

    /// The parameter plus its additive part.
    pub fn sum(&self) -> (r: IntFormula)
        ensures
            r == spec_sum(Self::spec_def()),
    {
        sum(&self.def())
    }

    pub open spec fn spec_formula() -> IntFormula {
        spec_plus(
            spec_cut("ОтСтатов", spec_sum(Electro::spec_def())),
            spec_worn_armor_stat(ArmorStat::DtElectr, "ОтБрони"),
        )
    }

    /// The formula of the parameter's value.
    pub fn make_formula(&self) -> (r: IntFormula)
        ensures
            r == Self::spec_formula(),
            forall|cr: &Critter| cr.wf() ==> eval_int(r, Some(cr)) == armor_protection_value(cr, ST_ELECTRO_ABSORB, ST_ELECTRO_ABSORB_EXT, ArmorStat::DtElectr),
    {
        let r = plus(cut("ОтСтатов", self.sum()), worn_armor_stat(ArmorStat::DtElectr, "ОтБрони"));
        assert forall|cr: &Critter| cr.wf() implies eval_int(r, Some(cr)) == armor_protection_value(cr, ST_ELECTRO_ABSORB, ST_ELECTRO_ABSORB_EXT, ArmorStat::DtElectr) by {
            reveal_with_fuel(eval_int, 5);
            reveal_with_fuel(eval_bool, 5);
        }
        r
    }

    pub open spec fn spec_calc() -> IntFormula {
        spec_bounded(Self::spec_def(), Self::spec_formula())
    }

    /// The formula kept within the parameter's bounds.
    pub fn calc(&self) -> (r: IntFormula)
        ensures
            r == Self::spec_calc(),
    {
        bounded(&self.def(), self.make_formula())
    }
}

/// Absorption of emp damage (ПоглощениеЭМИУрона).
#[derive(Debug, Clone, Copy)]
pub struct EMP;

impl EMP {
    pub open spec fn spec_def() -> ParamDef {
        ParamDef {
            index: ST_EMP_ABSORB,
            name: "ПоглощениеЭМИУронаБаза",
            ext: Some(ExtDef { index: ST_EMP_ABSORB_EXT, name: "ПоглощениеЭМИУронаЭффект" }),
            bounds: Some((0i32, 999i32)),
            presence: None,
        }
    }

    pub fn def(&self) -> (r: ParamDef)
        ensures
            r == Self::spec_def(),
    {
        ParamDef {
            index: ST_EMP_ABSORB,
            name: "ПоглощениеЭМИУронаБаза",
            ext: Some(ExtDef { index: ST_EMP_ABSORB_EXT, name: "ПоглощениеЭМИУронаЭффект" }),
            bounds: Some((0i32, 999i32)),
            presence: None,
        }
    }

    /// The parameter itself.
    pub fn base(&self) -> (r: IntFormula)
        ensures
            r == spec_base(Self::spec_def()),
    {
        base(&self.def())
    }

    /// The parameter plus its additive part.
    pub fn sum(&self) -> (r: IntFormula)
        ensures
            r == spec_sum(Self::spec_def()),
    {
        sum(&self.def())
    }

    pub open spec fn spec_formula() -> IntFormula {
        spec_plus(
            spec_cut("ОтСтатов", spec_sum(EMP::spec_def())),
            spec_worn_armor_stat(ArmorStat::DtEmp, "ОтБрони"),
        )
    }

    /// The formula of the parameter's value.
    pub fn make_formula(&self) -> (r: IntFormula)
        ensures
            r == Self::spec_formula(),
            forall|cr: &Critter| cr.wf() ==> eval_int(r, Some(cr)) == armor_protection_value(cr, ST_EMP_ABSORB, ST_EMP_ABSORB_EXT, ArmorStat::DtEmp),
    {
        let r = plus(cut("ОтСтатов", self.sum()), worn_armor_stat(ArmorStat::DtEmp, "ОтБрони"));
        assert forall|cr: &Critter| cr.wf() implies eval_int(r, Some(cr)) == armor_protection_value(cr, ST_EMP_ABSORB, ST_EMP_ABSORB_EXT, ArmorStat::DtEmp) by {
            reveal_with_fuel(eval_int, 5);
            reveal_with_fuel(eval_bool, 5);
        }
        r
    }

    pub open spec fn spec_calc() -> IntFormula {
        spec_bounded(Self::spec_def(), Self::spec_formula())
    }

    /// The formula kept within the parameter's bounds.
    pub fn calc(&self) -> (r: IntFormula)
        ensures
            r == Self::spec_calc(),
    {
        bounded(&self.def(), self.make_formula())
    }
}

/// Absorption of explosion damage (ПоглощениеВзрывногоУрона).
#[derive(Debug, Clone, Copy)]
pub struct Explosion;

impl Explosion {
    pub open spec fn spec_def() -> ParamDef {
        ParamDef {
            index: ST_EXPLODE_ABSORB,
            name: "ПоглощениеВзрывногоУронаБаза",
            ext: Some(ExtDef { index: ST_EXPLODE_ABSORB_EXT, name: "ПоглощениеВзрывногоУронаЭффект" }),
            bounds: Some((0i32, 999i32)),
            presence: None,
        }
    }

    pub fn def(&self) -> (r: ParamDef)
        ensures
            r == Self::spec_def(),
    {
        ParamDef {
            index: ST_EXPLODE_ABSORB,
            name: "ПоглощениеВзрывногоУронаБаза",
            ext: Some(ExtDef { index: ST_EXPLODE_ABSORB_EXT, name: "ПоглощениеВзрывногоУронаЭффект" }),
            bounds: Some((0i32, 999i32)),
            presence: None,
        }
    }

    /// The parameter itself.
    pub fn base(&self) -> (r: IntFormula)
        ensures
            r == spec_base(Self::spec_def()),
    {
        base(&self.def())
    }

    /// The parameter plus its additive part.
    pub fn sum(&self) -> (r: IntFormula)
        ensures
            r == spec_sum(Self::spec_def()),
    {
        sum(&self.def())
    }

    pub open spec fn spec_formula() -> IntFormula {
        spec_plus(
            spec_cut("ОтСтатов", spec_sum(Explosion::spec_def())),
            spec_worn_armor_stat(ArmorStat::DtExplode, "ОтБрони"),
        )
    }

    /// The formula of the parameter's value.
    pub fn make_formula(&self) -> (r: IntFormula)
        ensures
            r == Self::spec_formula(),
            forall|cr: &Critter| cr.wf() ==> eval_int(r, Some(cr)) == armor_protection_value(cr, ST_EXPLODE_ABSORB, ST_EXPLODE_ABSORB_EXT, ArmorStat::DtExplode),
    {
        let r = plus(cut("ОтСтатов", self.sum()), worn_armor_stat(ArmorStat::DtExplode, "ОтБрони"));
        assert forall|cr: &Critter| cr.wf() implies eval_int(r, Some(cr)) == armor_protection_value(cr, ST_EXPLODE_ABSORB, ST_EXPLODE_ABSORB_EXT, ArmorStat::DtExplode) by {
            reveal_with_fuel(eval_int, 5);
            reveal_with_fuel(eval_bool, 5);
        }
        r
    }

    pub open spec fn spec_calc() -> IntFormula {
        spec_bounded(Self::spec_def(), Self::spec_formula())
    }

    /// The formula kept within the parameter's bounds.
    pub fn calc(&self) -> (r: IntFormula)
        ensures
            r == Self::spec_calc(),
    {
        bounded(&self.def(), self.make_formula())
    }
}

} // verus!
