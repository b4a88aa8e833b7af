use vstd::prelude::*;
use crate::critter::Critter;
use crate::formula::ast::{ArmorStat, IntFormula};
use crate::formula::eval::{eval_bool, eval_int};
use crate::formula::construct::{cut, invar, plus, times, worn_armor_stat};
use super::def::{
    ExtDef, ParamDef, base, bounded, spec_base, spec_bounded, spec_cut, spec_invar, spec_plus,
    spec_sum, spec_times, spec_worn_armor_stat, sum,
};
use super::raw_param::{
    ST_ELECTRO_RESIST, ST_ELECTRO_RESIST_EXT, ST_EMP_RESIST, ST_EMP_RESIST_EXT, ST_EXPLODE_RESIST,
    ST_EXPLODE_RESIST_EXT, ST_FIRE_RESIST, ST_FIRE_RESIST_EXT, ST_LASER_RESIST, ST_LASER_RESIST_EXT,
    ST_NORMAL_RESIST, ST_NORMAL_RESIST_EXT, ST_PLASMA_RESIST, ST_PLASMA_RESIST_EXT,
    ST_POISON_RESISTANCE, ST_POISON_RESISTANCE_EXT, ST_RADIATION_RESISTANCE,
    ST_RADIATION_RESISTANCE_EXT,
};
use super::values::{armor_protection_value, poison_resistance_value, radiation_resistance_value};
use super::stat::Endurance;

verus! {

/// Resistance to normal damage (СопротивлениеНормальномуУрону).
#[derive(Debug, Clone, Copy)]
pub struct Normal;

impl Normal {
    pub open spec fn spec_def() -> ParamDef {
        ParamDef {
            index: ST_NORMAL_RESIST,
            name: "СопротивлениеНормальномуУронуБаза",
            ext: Some(ExtDef { index: ST_NORMAL_RESIST_EXT, name: "СопротивлениеНормальномуУронуЭффект" }),
            bounds: Some((0i32, 90i32)),
            presence: None,
        }
    }

    pub fn def(&self) -> (r: ParamDef)
        ensures
            r == Self::spec_def(),
    {
        ParamDef {
            index: ST_NORMAL_RESIST,
            name: "СопротивлениеНормальномуУронуБаза",
            ext: Some(ExtDef { index: ST_NORMAL_RESIST_EXT, name: "СопротивлениеНормальномуУронуЭффект" }),
            bounds: Some((0i32, 90i32)),
            presence: None,
        }
    }

    /// The parameter itself.
    pub fn base(&self) -> (r: IntFormula)
        ensures
            r == spec_base(Self::spec_def()),
    {
        base(&self.def())
    }

    /// The parameter plus its additive part.
    pub fn sum(&self) -> (r: IntFormula)
        ensures
            r == spec_sum(Self::spec_def()),
    {
        sum(&self.def())
    }

    pub open spec fn spec_formula() -> IntFormula {
        spec_plus(
            spec_cut("ОтСтатов", spec_sum(Normal::spec_def())),
            spec_worn_armor_stat(ArmorStat::DrNormal, "ОтБрони"),
        )
    }

    /// The formula of the parameter's value.
    pub fn make_formula(&self) -> (r: IntFormula)
        ensures
            r == Self::spec_formula(),
            forall|cr: &Critter| cr.wf() ==> eval_int(r, Some(cr)) == armor_protection_value(cr, ST_NORMAL_RESIST, ST_NORMAL_RESIST_EXT, ArmorStat::DrNormal),
    {
        let r = plus(cut("ОтСтатов", self.sum()), worn_armor_stat(ArmorStat::DrNormal, "ОтБрони"));
        assert forall|cr: &Critter| cr.wf() implies eval_int(r, Some(cr)) == armor_protection_value(cr, ST_NORMAL_RESIST, ST_NORMAL_RESIST_EXT, ArmorStat::DrNormal) by {
            reveal_with_fuel(eval_int, 5);
            reveal_with_fuel(eval_bool, 5);
        }
        r
    }

    pub open spec fn spec_calc() -> IntFormula {
        spec_bounded(Self::spec_def(), Self::spec_formula())
    }

    /// The formula kept within the parameter's bounds.
    pub fn calc(&self) -> (r: IntFormula)
        ensures
            r == Self::spec_calc(),
    {
        bounded(&self.def(), self.make_formula())
    }
}

/// Resistance to laser damage (СопротивлениеЛазерномуУрону).
#[derive(Debug, Clone, Copy)]
pub struct Laser;

impl Laser {
    pub open spec fn spec_def() -> ParamDef {
        ParamDef {
            index: ST_LASER_RESIST,
            name: "СопротивлениеЛазерномуУронуБаза",
            ext: Some(ExtDef { index: ST_LASER_RESIST_EXT, name: "СопротивлениеЛазерномуУронуЭффект" }),
            bounds: Some((0i32, 90i32)),
            presence: None,
        }
    }

    pub fn def(&self) -> (r: ParamDef)
        ensures
            r == Self::spec_def(),
    {
        ParamDef {
            index: ST_LASER_RESIST,
            name: "СопротивлениеЛазерномуУронуБаза",
            ext: Some(ExtDef { index: ST_LASER_RESIST_EXT, name: "СопротивлениеЛазерномуУронуЭффект" }),
            bounds: Some((0i32, 90i32)),
            presence: None,
        }
    }

    /// The parameter itself.
    pub fn base(&self) -> (r: IntFormula)
        ensures
            r == spec_base(Self::spec_def()),
    {
        base(&self.def())
    }

    /// The parameter plus its additive part.
    pub fn sum(&self) -> (r: IntFormula)
        ensures
            r == spec_sum(Self::spec_def()),
    {
        sum(&self.def())
    }

    pub open spec fn spec_formula() -> IntFormula {
        spec_plus(
            spec_cut("ОтСтатов", spec_sum(Laser::spec_def())),
            spec_worn_armor_stat(ArmorStat::DrLaser, "ОтБрони"),
        )
    }

    /// The formula of the parameter's value.
    pub fn make_formula(&self) -> (r: IntFormula)
        ensures
            r == Self::spec_formula(),
            forall|cr: &Critter| cr.wf() ==> eval_int(r, Some(cr)) == armor_protection_value(cr, ST_LASER_RESIST, ST_LASER_RESIST_EXT, ArmorStat::DrLaser),
    {
        let r = plus(cut("ОтСтатов", self.sum()), worn_armor_stat(ArmorStat::DrLaser, "ОтБрони"));
        assert forall|cr: &Critter| cr.wf() implies eval_int(r, Some(cr)) == armor_protection_value(cr, ST_LASER_RESIST, ST_LASER_RESIST_EXT, ArmorStat::DrLaser) by {
            reveal_with_fuel(eval_int, 5);
            reveal_with_fuel(eval_bool, 5);
        }
        r
    }

    pub open spec fn spec_calc() -> IntFormula {
        spec_bounded(Self::spec_def(), Self::spec_formula())
    }

    /// The formula kept within the parameter's bounds.
    pub fn calc(&self) -> (r: IntFormula)
        ensures
            r == Self::spec_calc(),
    {
        bounded(&self.def(), self.make_formula())
    }
}

/// Resistance to fire damage (СопротивлениеОгненномуУрону).
#[derive(Debug, Clone, Copy)]
pub struct Fire;

impl Fire {
    pub open spec fn spec_def() -> ParamDef {
        ParamDef {
            index: ST_FIRE_RESIST,
            name: "СопротивлениеОгненномуУронуБаза",
            ext: Some(ExtDef { index: ST_FIRE_RESIST_EXT, name: "СопротивлениеОгненномуУронуЭффект" }),
            bounds: Some((0i32, 90i32)),
            presence: None,
        }
    }

    pub fn def(&self) -> (r: ParamDef)
        ensures
            r == Self::spec_def(),
    {
        ParamDef {
            index: ST_FIRE_RESIST,
            name: "СопротивлениеОгненномуУронуБаза",
            ext: Some(ExtDef { index: ST_FIRE_RESIST_EXT, name: "СопротивлениеОгненномуУронуЭффект" }),
            bounds: Some((0i32, 90i32)),
            presence: None,
        }
    }

    /// The parameter itself.
    pub fn base(&self) -> (r: IntFormula)
        ensures
            r == spec_base(Self::spec_def()),
    {
        base(&self.def())
    }

    /// The parameter plus its additive part.
    pub fn sum(&self) -> (r: IntFormula)
        ensures
            r == spec_sum(Self::spec_def()),
    {
        sum(&self.def())
    }

    pub open spec fn spec_formula() -> IntFormula {
        spec_plus(
            spec_cut("ОтСтатов", spec_sum(Fire::spec_def())),
            spec_worn_armor_stat(ArmorStat::DrFire, "ОтБрони"),
        )
    }

    /// The formula of the parameter's value.
    pub fn make_formula(&self) -> (r: IntFormula)
        ensures
            r == Self::spec_formula(),
            forall|cr: &Critter| cr.wf() ==> eval_int(r, Some(cr)) == armor_protection_value(cr, ST_FIRE_RESIST, ST_FIRE_RESIST_EXT, ArmorStat::DrFire),
    {
        let r = plus(cut("ОтСтатов", self.sum()), worn_armor_stat(ArmorStat::DrFire, "ОтБрони"));
        assert forall|cr: &Critter| cr.wf() implies eval_int(r, Some(cr)) == armor_protection_value(cr, ST_FIRE_RESIST, ST_FIRE_RESIST_EXT, ArmorStat::DrFire) by {
            reveal_with_fuel(eval_int, 5);
            reveal_with_fuel(eval_bool, 5);
        }
        r
    }

    pub open spec fn spec_calc() -> IntFormula {
        spec_bounded(Self::spec_def(), Self::spec_formula())
    }

    /// The formula kept within the parameter's bounds.
    pub fn calc(&self) -> (r: IntFormula)
        ensures
            r == Self::spec_calc(),
    {
        bounded(&self.def(), self.make_formula())
    }
}

/// Resistance to plasma damage (СопротивлениеПлазменномуУрону).
#[derive(Debug, Clone, Copy)]
pub struct Plasma;

impl Plasma {
    pub open spec fn spec_def() -> ParamDef {
        ParamDef {
            index: ST_PLASMA_RESIST,
            name: "СопротивлениеПлазменномуУронуБаза",
            ext: Some(ExtDef { index: ST_PLASMA_RESIST_EXT, name: "СопротивлениеПлазменномуУронуЭффект" }),
            bounds: Some((0i32, 90i32)),
            presence: None,
        }
    }

    pub fn def(&self) -> (r: ParamDef)
        ensures
            r == Self::spec_def(),
    {
        ParamDef {
            index: ST_PLASMA_RESIST,
            name: "СопротивлениеПлазменномуУронуБаза",
            ext: Some(ExtDef { index: ST_PLASMA_RESIST_EXT, name: "СопротивлениеПлазменномуУронуЭффект" }),
            bounds: Some((0i32, 90i32)),
            presence: None,
        }
    }

    /// The parameter itself.
    pub fn base(&self) -> (r: IntFormula)
        ensures
            r == spec_base(Self::spec_def()),
    {
        base(&self.def())
    }

    /// The parameter plus its additive part.
    pub fn sum(&self) -> (r: IntFormula)
        ensures
            r == spec_sum(Self::spec_def()),
    {
        sum(&self.def())
    }

    pub open spec fn spec_formula() -> IntFormula {
        spec_plus(
            spec_cut("ОтСтатов", spec_sum(Plasma::spec_def())),
            spec_worn_armor_stat(ArmorStat::DrPlasma, "ОтБрони"),
        )
    }

    /// The formula of the parameter's value.
    pub fn make_formula(&self) -> (r: IntFormula)
        ensures
            r == Self::spec_formula(),
            forall|cr: &Critter| cr.wf() ==> eval_int(r, Some(cr)) == armor_protection_value(cr, ST_PLASMA_RESIST, ST_PLASMA_RESIST_EXT, ArmorStat::DrPlasma),
    {
        let r = plus(cut("ОтСтатов", self.sum()), worn_armor_stat(ArmorStat::DrPlasma, "ОтБрони"));
        assert forall|cr: &Critter| cr.wf() implies eval_int(r, Some(cr)) == armor_protection_value(cr, ST_PLASMA_RESIST, ST_PLASMA_RESIST_EXT, ArmorStat::DrPlasma) by {
            reveal_with_fuel(eval_int, 5);
            reveal_with_fuel(eval_bool, 5);
        }
        r
    }

    pub open spec fn spec_calc() -> IntFormula {
        spec_bounded(Self::spec_def(), Self::spec_formula())
    }

    /// The formula kept within the parameter's bounds.
    pub fn calc(&self) -> (r: IntFormula)
        ensures
            r == Self::spec_calc(),
    {
        bounded(&self.def(), self.make_formula())
    }
}

/// Resistance to electro damage (СопротивлениеЭлектрическомуУрону).
#[derive(Debug, Clone, Copy)]
pub struct Electro;

impl Electro {
    pub open spec fn spec_def() -> ParamDef {
        ParamDef {
            index: ST_ELECTRO_RESIST,
            name: "СопротивлениеЭлектрическомуУронуБаза",
            ext: Some(ExtDef { index: ST_ELECTRO_RESIST_EXT, name: "СопротивлениеЭлектрическомуУронуЭффект" }),
            bounds: Some((0i32, 90i32)),
            presence: None,
        }
    }

    pub fn def(&self) -> (r: ParamDef)
        ensures
            r == Self::spec_def(),
    {
        ParamDef {
            index: ST_ELECTRO_RESIST,
            name: "СопротивлениеЭлектрическомуУронуБаза",
            ext: Some(ExtDef { index: ST_ELECTRO_RESIST_EXT, name: "СопротивлениеЭлектрическомуУронуЭффект" }),
            bounds: Some((0i32, 90i32)),
            presence: None,
        }
    }

    /// The parameter itself.
    pub fn base(&self) -> (r: IntFormula)
        ensures
            r == spec_base(Self::spec_def()),
    {
        base(&self.def())
    }

    /// The parameter plus its additive part.
    pub fn sum(&self) -> (r: IntFormula)
        ensures
            r == spec_sum(Self::spec_def()),
    {
        sum(&self.def())
    }

    pub open spec fn spec_formula() -> IntFormula {
        spec_plus(
            spec_cut("ОтСтатов", spec_sum(Electro::spec_def())),
            spec_worn_armor_stat(ArmorStat::DrElectr, "ОтБрони"),
        )
    }

    /// The formula of the parameter's value.
    pub fn make_formula(&self) -> (r: IntFormula)
        ensures
            r == Self::spec_formula(),
            forall|cr: &Critter| cr.wf() ==> eval_int(r, Some(cr)) == armor_protection_value(cr, ST_ELECTRO_RESIST, ST_ELECTRO_RESIST_EXT, ArmorStat::DrElectr),
    {
        let r = plus(cut("ОтСтатов", self.sum()), worn_armor_stat(ArmorStat::DrElectr, "ОтБрони"));
        assert forall|cr: &Critter| cr.wf() implies eval_int(r, Some(cr)) == armor_protection_value(cr, ST_ELECTRO_RESIST, ST_ELECTRO_RESIST_EXT, ArmorStat::DrElectr) by {
            reveal_with_fuel(eval_int, 5);
            reveal_with_fuel(eval_bool, 5);
        }
        r
    }

    pub open spec fn spec_calc() -> IntFormula {
        spec_bounded(Self::spec_def(), Self::spec_formula())
    }

    /// The formula kept within the parameter's bounds.
    pub fn calc(&self) -> (r: IntFormula)
        ensures
            r == Self::spec_calc(),
    {
        bounded(&self.def(), self.make_formula())
    }
}

/// Resistance to emp damage (СопротивлениеЭМИУрону).
#[derive(Debug, Clone, Copy)]
pub struct EMP;

impl EMP {
    pub open spec fn spec_def() -> ParamDef {
        ParamDef {
            index: ST_EMP_RESIST,
            name: "СопротивлениеЭМИУронуБаза",
            ext: Some(ExtDef { index: ST_EMP_RESIST_EXT, name: "СопротивлениеЭМИУронуЭффект" }),
            bounds: Some((0i32, 999i32)),
            presence: None,
        }
    }

    pub fn def(&self) -> (r: ParamDef)
        ensures
            r == Self::spec_def(),
    {
        ParamDef {
            index: ST_EMP_RESIST,
            name: "СопротивлениеЭМИУронуБаза",
            ext: Some(ExtDef { index: ST_EMP_RESIST_EXT, name: "СопротивлениеЭМИУронуЭффект" }),
            bounds: Some((0i32, 999i32)),
            presence: None,
        }
    }

    /// The parameter itself.
    pub fn base(&self) -> (r: IntFormula)
        ensures
            r == spec_base(Self::spec_def()),
    {
        base(&self.def())
    }

    /// The parameter plus its additive part.
    pub fn sum(&self) -> (r: IntFormula)
        ensures
            r == spec_sum(Self::spec_def()),
    {
        sum(&self.def())
    }

    pub open spec fn spec_formula() -> IntFormula {
        spec_plus(
            spec_cut("ОтСтатов", spec_sum(EMP::spec_def())),
            spec_worn_armor_stat(ArmorStat::DrEmp, "ОтБрони"),
        )
    }

    /// The formula of the parameter's value.
    pub fn make_formula(&self) -> (r: IntFormula)
        ensures
            r == Self::spec_formula(),
            forall|cr: &Critter| cr.wf() ==> eval_int(r, Some(cr)) == armor_protection_value(cr, ST_EMP_RESIST, ST_EMP_RESIST_EXT, ArmorStat::DrEmp),
    {
        let r = plus(cut("ОтСтатов", self.sum()), worn_armor_stat(ArmorStat::DrEmp, "ОтБрони"));
        assert forall|cr: &Critter| cr.wf() implies eval_int(r, Some(cr)) == armor_protection_value(cr, ST_EMP_RESIST, ST_EMP_RESIST_EXT, ArmorStat::DrEmp) by {
            reveal_with_fuel(eval_int, 5);
            reveal_with_fuel(eval_bool, 5);
        }
        r
    }

    pub open spec fn spec_calc() -> IntFormula {
        spec_bounded(Self::spec_def(), Self::spec_formula())
    }

    /// The formula kept within the parameter's bounds.
    pub fn calc(&self) -> (r: IntFormula)
        ensures
            r == Self::spec_calc(),
    {
        bounded(&self.def(), self.make_formula())
    }
}

/// Resistance to explosion damage (СопротивлениеВзрывномуУрону).
#[derive(Debug, Clone, Copy)]
pub struct Explosion;

impl Explosion {
    pub open spec fn spec_def() -> ParamDef {
        ParamDef {
            index: ST_EXPLODE_RESIST,
            name: "СопротивлениеВзрывномуУронуБаза",
            ext: Some(ExtDef { index: ST_EXPLODE_RESIST_EXT, name: "СопротивлениеВзрывномуУронуЭффект" }),
            bounds: Some((0i32, 90i32)),
            presence: None,
        }
    }

    pub fn def(&self) -> (r: ParamDef)
        ensures
            r == Self::spec_def(),
    {
        ParamDef {
            index: ST_EXPLODE_RESIST,
            name: "СопротивлениеВзрывномуУронуБаза",
            ext: Some(ExtDef { index: ST_EXPLODE_RESIST_EXT, name: "СопротивлениеВзрывномуУронуЭффект" }),
            bounds: Some((0i32, 90i32)),
            presence: None,
        }
    }

    /// The parameter itself.
    pub fn base(&self) -> (r: IntFormula)
        ensures
            r == spec_base(Self::spec_def()),
    {
        base(&self.def())
    }

    /// The parameter plus its additive part.
    pub fn sum(&self) -> (r: IntFormula)
        ensures
            r == spec_sum(Self::spec_def()),
    {
        sum(&self.def())
    }

    pub open spec fn spec_formula() -> IntFormula {
        spec_plus(
            spec_cut("ОтСтатов", spec_sum(Explosion::spec_def())),
            spec_worn_armor_stat(ArmorStat::DrExplode, "ОтБрони"),
        )
    }

    /// The formula of the parameter's value.
    pub fn make_formula(&self) -> (r: IntFormula)
        ensures
            r == Self::spec_formula(),
            forall|cr: &Critter| cr.wf() ==> eval_int(r, Some(cr)) == armor_protection_value(cr, ST_EXPLODE_RESIST, ST_EXPLODE_RESIST_EXT, ArmorStat::DrExplode),
    {
        let r = plus(cut("ОтСтатов", self.sum()), worn_armor_stat(ArmorStat::DrExplode, "ОтБрони"));
        assert forall|cr: &Critter| cr.wf() implies eval_int(r, Some(cr)) == armor_protection_value(cr, ST_EXPLODE_RESIST, ST_EXPLODE_RESIST_EXT, ArmorStat::DrExplode) by {
            reveal_with_fuel(eval_int, 5);
            reveal_with_fuel(eval_bool, 5);
        }
        r
    }

    pub open spec fn spec_calc() -> IntFormula {
        spec_bounded(Self::spec_def(), Self::spec_formula())
    }

    /// The formula kept within the parameter's bounds.
    pub fn calc(&self) -> (r: IntFormula)
        ensures
            r == Self::spec_calc(),
    {
        bounded(&self.def(), self.make_formula())
    }
}

/// Resistance to radiation (СопротивлениеРадиации).
#[derive(Debug, Clone, Copy)]
pub struct Radiation;

impl Radiation {
    pub open spec fn spec_def() -> ParamDef {
        ParamDef {
            index: ST_RADIATION_RESISTANCE,
            name: "СопротивлениеРадиацииБаза",
            ext: Some(ExtDef { index: ST_RADIATION_RESISTANCE_EXT, name: "СопротивлениеРадиацииЭффект" }),
            bounds: Some((0i32, 95i32)),
            presence: None,
        }
    }

    pub fn def(&self) -> (r: ParamDef)
        ensures
            r == Self::spec_def(),
    {
        ParamDef {
            index: ST_RADIATION_RESISTANCE,
            name: "СопротивлениеРадиацииБаза",
            ext: Some(ExtDef { index: ST_RADIATION_RESISTANCE_EXT, name: "СопротивлениеРадиацииЭффект" }),
            bounds: Some((0i32, 95i32)),
            presence: None,
        }
    }

    /// The parameter itself.
    pub fn base(&self) -> (r: IntFormula)
        ensures
            r == spec_base(Self::spec_def()),
    {
        base(&self.def())
    }

    /// The parameter plus its additive part.
    pub fn sum(&self) -> (r: IntFormula)
        ensures
            r == spec_sum(Self::spec_def()),
    {
        sum(&self.def())
    }

    pub open spec fn spec_formula() -> IntFormula {
        spec_plus(
            spec_sum(Radiation::spec_def()),
            spec_times(Endurance::spec_calc(), spec_invar(2, "СопротивлениеРадиацииЗаВыносливость")),
        )
    }

    /// The formula of the parameter's value.
    pub fn make_formula(&self) -> (r: IntFormula)
        ensures
            r == Self::spec_formula(),
            forall|cr: &Critter| cr.wf() ==> eval_int(r, Some(cr)) == radiation_resistance_value(cr),
    {
        let r = plus(self.sum(), times(Endurance.calc(), invar(2, "СопротивлениеРадиацииЗаВыносливость")));
        assert forall|cr: &Critter| cr.wf() implies eval_int(r, Some(cr)) == radiation_resistance_value(cr) by {
            reveal_with_fuel(eval_int, 6);
            reveal_with_fuel(eval_bool, 6);
        }
        r
    }

    pub open spec fn spec_calc() -> IntFormula {
        spec_bounded(Self::spec_def(), Self::spec_formula())
    }

    /// The formula kept within the parameter's bounds.
    pub fn calc(&self) -> (r: IntFormula)
        ensures
            r == Self::spec_calc(),
    {
        bounded(&self.def(), self.make_formula())
    }
}

/// Resistance to poison (СопротивлениеЯду).
#[derive(Debug, Clone, Copy)]
pub struct Poison;

impl Poison {
    pub open spec fn spec_def() -> ParamDef {
        ParamDef {
            index: ST_POISON_RESISTANCE,
            name: "СопротивлениеЯдуБаза",
            ext: Some(ExtDef { index: ST_POISON_RESISTANCE_EXT, name: "СопротивлениеЯдуЭффект" }),
            bounds: Some((0i32, 95i32)),
            presence: None,
        }
    }

    pub fn def(&self) -> (r: ParamDef)
        ensures
            r == Self::spec_def(),
    {
        ParamDef {
            index: ST_POISON_RESISTANCE,
            name: "СопротивлениеЯдуБаза",
            ext: Some(ExtDef { index: ST_POISON_RESISTANCE_EXT, name: "СопротивлениеЯдуЭффект" }),
            bounds: Some((0i32, 95i32)),
            presence: None,
        }
    }

    /// The parameter itself.
    pub fn base(&self) -> (r: IntFormula)
        ensures
            r == spec_base(Self::spec_def()),
    {
        base(&self.def())
    }

    /// The parameter plus its additive part.
    pub fn sum(&self) -> (r: IntFormula)
        ensures
            r == spec_sum(Self::spec_def()),
    {
        sum(&self.def())
    }

    pub open spec fn spec_formula() -> IntFormula {
        spec_plus(
            spec_sum(Poison::spec_def()),
            spec_times(Endurance::spec_calc(), spec_invar(5, "СопротивлениеЯдуЗаВыносливость")),
        )
    }

    /// The formula of the parameter's value.
    pub fn make_formula(&self) -> (r: IntFormula)
        ensures
            r == Self::spec_formula(),
            forall|cr: &Critter| cr.wf() ==> eval_int(r, Some(cr)) == poison_resistance_value(cr),
    {
        let r = plus(self.sum(), times(Endurance.calc(), invar(5, "СопротивлениеЯдуЗаВыносливость")));
        assert forall|cr: &Critter| cr.wf() implies eval_int(r, Some(cr)) == poison_resistance_value(cr) by {
            reveal_with_fuel(eval_int, 6);
            reveal_with_fuel(eval_bool, 6);
        }
        r
    }

    pub open spec fn spec_calc() -> IntFormula {
        spec_bounded(Self::spec_def(), Self::spec_formula())
    }

    /// The formula kept within the parameter's bounds.
    pub fn calc(&self) -> (r: IntFormula)
        ensures
            r == Self::spec_calc(),
    {
        bounded(&self.def(), self.make_formula())
    }
}

} // verus!
