use vstd::prelude::*;
use crate::critter::Critter;
use crate::formula::ast::IntFormula;
use crate::formula::eval::{eval_bool, eval_int};
use crate::formula::arith::spec_saturating_add;
use crate::formula::construct::{
    and, cut, cut_bool, divided, if_else, integer, invar, less_or_equal, max, minus, not_equal,
    plus, times, worn_armor_class,
};
use super::def::{
    ExtDef, ParamDef, base, bounded, spec_and, spec_base, spec_bounded, spec_cut, spec_cut_bool,
    spec_divided, spec_if_else, spec_integer, spec_invar, spec_less_or_equal, spec_max, spec_minus,
    spec_not_equal, spec_plus, spec_present, spec_sum, spec_times, spec_worn_armor_class, sum,
};
use super::raw_param::{
    ST_ACTION_POINTS, ST_ACTION_POINTS_EXT, ST_AGILITY, ST_AGILITY_EXT, ST_ARMOR_CLASS,
    ST_ARMOR_CLASS_EXT, ST_CARRY_WEIGHT, ST_CARRY_WEIGHT_EXT, ST_CHARISMA, ST_CHARISMA_EXT,
    ST_CRITICAL_CHANCE, ST_CRITICAL_CHANCE_EXT, ST_ENDURANCE, ST_ENDURANCE_EXT, ST_HEALING_RATE,
    ST_HEALING_RATE_EXT, ST_INTELLECT, ST_INTELLECT_EXT, ST_LUCK, ST_LUCK_EXT, ST_MAX_CRITICAL,
    ST_MAX_CRITICAL_EXT, ST_MAX_LIFE, ST_MAX_LIFE_EXT, ST_MELEE_DAMAGE, ST_MELEE_DAMAGE_EXT,
    ST_PERCEPTION, ST_PERCEPTION_EXT, ST_POISON_RESISTANCE, ST_POISON_RESISTANCE_EXT,
    ST_RADIATION_RESISTANCE, ST_RADIATION_RESISTANCE_EXT, ST_SEQUENCE, ST_SEQUENCE_EXT, ST_STRENGTH,
    ST_STRENGTH_EXT,
};
use super::values::{
    action_points_max_value, armor_class_value, critical_chance_value, healing_rate_value,
    intellect_value, life_max_value, melee_damage_value, perception_value, poison_resistance_value,
    radiation_resistance_value, sequence_value, stat_sum, strength_value, weight_max_value,
};
use super::damage::Eye;
use super::misc::{ArmorClassTurnBased, LifeCurrent};
use super::perk::AdrenalineRush;
use super::timeout::Battle;
use super::traits::{NightPerson, SmallFrame};

verus! {

/// The Strength stat (Сила).
#[derive(Debug, Clone, Copy)]
pub struct Strength;

impl Strength {
    pub open spec fn spec_def() -> ParamDef {
        ParamDef {
            index: ST_STRENGTH,
            name: "СилаБаза",
            ext: Some(ExtDef { index: ST_STRENGTH_EXT, name: "СилаЭффект" }),
            bounds: Some((1i32, 10i32)),
            presence: None,
        }
    }

    pub fn def(&self) -> (r: ParamDef)
        ensures
            r == Self::spec_def(),
    {
        ParamDef {
            index: ST_STRENGTH,
            name: "СилаБаза",
            ext: Some(ExtDef { index: ST_STRENGTH_EXT, name: "СилаЭффект" }),
            bounds: Some((1i32, 10i32)),
            presence: None,
        }
    }

    /// The parameter itself.
    pub fn base(&self) -> (r: IntFormula)
        ensures
            r == spec_base(Self::spec_def()),
    {
        base(&self.def())
    }

    /// The parameter plus its additive part.
    pub fn sum(&self) -> (r: IntFormula)
        ensures
            r == spec_sum(Self::spec_def()),
    {
        sum(&self.def())
    }

    pub open spec fn spec_formula() -> IntFormula {
        spec_plus(
            spec_sum(Strength::spec_def()),
            spec_cut(
                "ОтВыбросаАдреналина",
                spec_if_else(
                    spec_cut_bool(
                        "ВыбросАдреналинаДействует",
                        spec_and(
                            spec_and(
                                spec_present(AdrenalineRush::spec_def()),
                                spec_not_equal(
                                    spec_base(Battle::spec_def()),
                                    spec_invar(0, "Закончился"),
                                ),
                            ),
                            spec_cut_bool(
                                "МалоЗдоровья",
                                spec_less_or_equal(
                                    spec_base(LifeCurrent::spec_def()),
                                    spec_divided(
                                        spec_plus(
                                            spec_plus(
                                                spec_base(LifeMax::spec_def()),
                                                spec_base(Strength::spec_def()),
                                            ),
                                            spec_times(
                                                spec_base(Endurance::spec_def()),
                                                spec_integer(2),
                                            ),
                                        ),
                                        spec_integer(2),
                                    ),
                                ),
                            ),
                        ),
                    ),
                    spec_invar(1, "БонусЗаВыбросАдреналина"),
                    spec_invar(0, "НетБонуса"),
                ),
            ),
        )
    }

    /// The formula of the parameter's value.
    pub fn make_formula(&self) -> (r: IntFormula)
        ensures
            r == Self::spec_formula(),
            forall|cr: &Critter| cr.wf() ==> eval_int(r, Some(cr)) == strength_value(cr),
    {
        let r = plus(
            self.sum(),
            cut(
                "ОтВыбросаАдреналина",
                if_else(
                    cut_bool(
                        "ВыбросАдреналинаДействует",
                        and(
                            and(
                                AdrenalineRush.present(),
                                not_equal(Battle.base(), invar(0, "Закончился")),
                            ),
                            cut_bool(
                                "МалоЗдоровья",
                                less_or_equal(
                                    LifeCurrent.base(),
                                    divided(
                                        plus(
                                            plus(LifeMax.base(), self.base()),
                                            times(Endurance.base(), integer(2)),
                                        ),
                                        integer(2),
                                    ),
                                ),
                            ),
                        ),
                    ),
                    invar(1, "БонусЗаВыбросАдреналина"),
                    invar(0, "НетБонуса"),
                ),
            ),
        );
        assert forall|cr: &Critter| cr.wf() implies eval_int(r, Some(cr)) == strength_value(cr) by {
            reveal_with_fuel(eval_int, 12);
            reveal_with_fuel(eval_bool, 12);
        }
        r
    }

    pub open spec fn spec_calc() -> IntFormula {
        spec_bounded(Self::spec_def(), Self::spec_formula())
    }

    /// The formula kept within the parameter's bounds.
    pub fn calc(&self) -> (r: IntFormula)
        ensures
            r == Self::spec_calc(),
    {
        bounded(&self.def(), self.make_formula())
    }
}

/// The Perception stat (Восприятие).
#[derive(Debug, Clone, Copy)]
pub struct Perception;

impl Perception {
    pub open spec fn spec_def() -> ParamDef {
        ParamDef {
            index: ST_PERCEPTION,
            name: "ВосприятиеБаза",
            ext: Some(ExtDef { index: ST_PERCEPTION_EXT, name: "ВосприятиеЭффект" }),
            bounds: Some((1i32, 10i32)),
            presence: None,
        }
    }

    pub fn def(&self) -> (r: ParamDef)
        ensures
            r == Self::spec_def(),
    {
        ParamDef {
            index: ST_PERCEPTION,
            name: "ВосприятиеБаза",
            ext: Some(ExtDef { index: ST_PERCEPTION_EXT, name: "ВосприятиеЭффект" }),
            bounds: Some((1i32, 10i32)),
            presence: None,
        }
    }

    /// The parameter itself.
    pub fn base(&self) -> (r: IntFormula)
        ensures
            r == spec_base(Self::spec_def()),
    {
        base(&self.def())
    }

    /// The parameter plus its additive part.
    pub fn sum(&self) -> (r: IntFormula)
        ensures
            r == spec_sum(Self::spec_def()),
    {
        sum(&self.def())
    }

    pub open spec fn spec_formula() -> IntFormula {
        spec_plus(
            spec_cut(
                "ОтВосприятия",
                spec_if_else(
                    spec_present(Eye::spec_def()),
                    spec_invar(1, "ПовреждённоеВосприятие"),
                    spec_sum(Perception::spec_def()),
                ),
            ),
            spec_cut("ОтНочнойПерсоны", NightPerson::spec_bonus()),
        )
    }

    /// The formula of the parameter's value.
    pub fn make_formula(&self) -> (r: IntFormula)
        ensures
            r == Self::spec_formula(),
            forall|cr: &Critter| cr.wf() ==> eval_int(r, Some(cr)) == perception_value(cr),
    {
        let r = plus(
            cut(
                "ОтВосприятия",
                if_else(Eye.present(), invar(1, "ПовреждённоеВосприятие"), self.sum()),
            ),
            cut("ОтНочнойПерсоны", NightPerson.make_bonus()),
        );
        assert forall|cr: &Critter| cr.wf() implies eval_int(r, Some(cr)) == perception_value(cr) by {
            reveal_with_fuel(eval_int, 8);
            reveal_with_fuel(eval_bool, 8);
        }
        r
    }

    pub open spec fn spec_calc() -> IntFormula {
        spec_bounded(Self::spec_def(), Self::spec_formula())
    }

    /// The formula kept within the parameter's bounds.
    pub fn calc(&self) -> (r: IntFormula)
        ensures
            r == Self::spec_calc(),
    {
        bounded(&self.def(), self.make_formula())
    }
}

/// The Endurance stat (Выносливость).
#[derive(Debug, Clone, Copy)]
pub struct Endurance;

impl Endurance {
    pub open spec fn spec_def() -> ParamDef {
        ParamDef {
            index: ST_ENDURANCE,
            name: "ВыносливостьБаза",
            ext: Some(ExtDef { index: ST_ENDURANCE_EXT, name: "ВыносливостьЭффект" }),
            bounds: Some((1i32, 10i32)),
            presence: None,
        }
    }

    pub fn def(&self) -> (r: ParamDef)
        ensures
            r == Self::spec_def(),
    {
        ParamDef {
            index: ST_ENDURANCE,
            name: "ВыносливостьБаза",
            ext: Some(ExtDef { index: ST_ENDURANCE_EXT, name: "ВыносливостьЭффект" }),
            bounds: Some((1i32, 10i32)),
            presence: None,
        }
    }

    /// The parameter itself.
    pub fn base(&self) -> (r: IntFormula)
        ensures
            r == spec_base(Self::spec_def()),
    {
        base(&self.def())
    }

    /// The parameter plus its additive part.
    pub fn sum(&self) -> (r: IntFormula)
        ensures
            r == spec_sum(Self::spec_def()),
    {
        sum(&self.def())
    }

    pub open spec fn spec_formula() -> IntFormula {
        spec_sum(Endurance::spec_def())
    }

    /// The formula of the parameter's value.
    pub fn make_formula(&self) -> (r: IntFormula)
        ensures
            r == Self::spec_formula(),
            forall|cr: &Critter| cr.wf() ==> eval_int(r, Some(cr)) == Some(stat_sum(cr, ST_ENDURANCE, ST_ENDURANCE_EXT)),
    {
        let r = self.sum();
        proof {
            reveal_with_fuel(eval_int, 3);
        }
        r
    }

    pub open spec fn spec_calc() -> IntFormula {
        spec_bounded(Self::spec_def(), Self::spec_formula())
    }

    /// The formula kept within the parameter's bounds.
    pub fn calc(&self) -> (r: IntFormula)
        ensures
            r == Self::spec_calc(),
            forall|cr: &Critter| cr.wf() ==> eval_int(r, Some(cr)) == Some(
                super::values::bounded(stat_sum(cr, ST_ENDURANCE, ST_ENDURANCE_EXT), 1i32, 10i32),
            ),
    {
        let r = bounded(&self.def(), self.make_formula());
        proof {
            reveal_with_fuel(eval_int, 4);
        }
        r
    }
}

/// The Charisma stat (Обаяние).
#[derive(Debug, Clone, Copy)]
pub struct Charisma;

impl Charisma {
    pub open spec fn spec_def() -> ParamDef {
        ParamDef {
            index: ST_CHARISMA,
            name: "ОбаяниеБаза",
            ext: Some(ExtDef { index: ST_CHARISMA_EXT, name: "ОбаяниеЭффект" }),
            bounds: Some((1i32, 10i32)),
            presence: None,
        }
    }

    pub fn def(&self) -> (r: ParamDef)
        ensures
            r == Self::spec_def(),
    {
        ParamDef {
            index: ST_CHARISMA,
            name: "ОбаяниеБаза",
            ext: Some(ExtDef { index: ST_CHARISMA_EXT, name: "ОбаяниеЭффект" }),
            bounds: Some((1i32, 10i32)),
            presence: None,
        }
    }

    /// The parameter itself.
    pub fn base(&self) -> (r: IntFormula)
        ensures
            r == spec_base(Self::spec_def()),
    {
        base(&self.def())
    }

    /// The parameter plus its additive part.
    pub fn sum(&self) -> (r: IntFormula)
        ensures
            r == spec_sum(Self::spec_def()),
    {
        sum(&self.def())
    }

    pub open spec fn spec_formula() -> IntFormula {
        spec_sum(Charisma::spec_def())
    }

    /// The formula of the parameter's value.
    pub fn make_formula(&self) -> (r: IntFormula)
        ensures
            r == Self::spec_formula(),
            forall|cr: &Critter| cr.wf() ==> eval_int(r, Some(cr)) == Some(stat_sum(cr, ST_CHARISMA, ST_CHARISMA_EXT)),
    {
        let r = self.sum();
        proof {
            reveal_with_fuel(eval_int, 3);
        }
        r
    }

    pub open spec fn spec_calc() -> IntFormula {
        spec_bounded(Self::spec_def(), Self::spec_formula())
    }

    /// The formula kept within the parameter's bounds.
    pub fn calc(&self) -> (r: IntFormula)
        ensures
            r == Self::spec_calc(),
            forall|cr: &Critter| cr.wf() ==> eval_int(r, Some(cr)) == Some(
                super::values::bounded(stat_sum(cr, ST_CHARISMA, ST_CHARISMA_EXT), 1i32, 10i32),
            ),
    {
        let r = bounded(&self.def(), self.make_formula());
        proof {
            reveal_with_fuel(eval_int, 4);
        }
        r
    }
}

/// The Intellect stat (Интеллект).
#[derive(Debug, Clone, Copy)]
pub struct Intellect;

impl Intellect {
    pub open spec fn spec_def() -> ParamDef {
        ParamDef {
            index: ST_INTELLECT,
            name: "ИнтеллектБаза",
            ext: Some(ExtDef { index: ST_INTELLECT_EXT, name: "ИнтеллектЭффект" }),
            bounds: Some((1i32, 10i32)),
            presence: None,
        }
    }

    pub fn def(&self) -> (r: ParamDef)
        ensures
            r == Self::spec_def(),
    {
        ParamDef {
            index: ST_INTELLECT,
            name: "ИнтеллектБаза",
            ext: Some(ExtDef { index: ST_INTELLECT_EXT, name: "ИнтеллектЭффект" }),
            bounds: Some((1i32, 10i32)),
            presence: None,
        }
    }

    /// The parameter itself.
    pub fn base(&self) -> (r: IntFormula)
        ensures
            r == spec_base(Self::spec_def()),
    {
        base(&self.def())
    }

    /// The parameter plus its additive part.
    pub fn sum(&self) -> (r: IntFormula)
        ensures
            r == spec_sum(Self::spec_def()),
    {
        sum(&self.def())
    }

    pub open spec fn spec_formula() -> IntFormula {
        spec_plus(
            spec_cut("ОтИнтеллекта", spec_sum(Intellect::spec_def())),
            spec_cut("ОтНочнойПерсоны", NightPerson::spec_bonus()),
        )
    }

    /// The formula of the parameter's value.
    pub fn make_formula(&self) -> (r: IntFormula)
        ensures
            r == Self::spec_formula(),
            forall|cr: &Critter| cr.wf() ==> eval_int(r, Some(cr)) == intellect_value(cr),
    {
        let r = plus(cut("ОтИнтеллекта", self.sum()), cut("ОтНочнойПерсоны", NightPerson.make_bonus()));
        assert forall|cr: &Critter| cr.wf() implies eval_int(r, Some(cr)) == intellect_value(cr) by {
            reveal_with_fuel(eval_int, 7);
            reveal_with_fuel(eval_bool, 7);
        }
        r
    }

    pub open spec fn spec_calc() -> IntFormula {
        spec_bounded(Self::spec_def(), Self::spec_formula())
    }

    /// The formula kept within the parameter's bounds.
    pub fn calc(&self) -> (r: IntFormula)
        ensures
            r == Self::spec_calc(),
    {
        bounded(&self.def(), self.make_formula())
    }
}

/// The Agility stat (Ловкость).
#[derive(Debug, Clone, Copy)]
pub struct Agility;

impl Agility {
    pub open spec fn spec_def() -> ParamDef {
        ParamDef {
            index: ST_AGILITY,
            name: "ЛовкостьБаза",
            ext: Some(ExtDef { index: ST_AGILITY_EXT, name: "ЛовкостьЭффект" }),
            bounds: Some((1i32, 10i32)),
            presence: None,
        }
    }

    pub fn def(&self) -> (r: ParamDef)
        ensures
            r == Self::spec_def(),
    {
        ParamDef {
            index: ST_AGILITY,
            name: "ЛовкостьБаза",
            ext: Some(ExtDef { index: ST_AGILITY_EXT, name: "ЛовкостьЭффект" }),
            bounds: Some((1i32, 10i32)),
            presence: None,
        }
    }

    /// The parameter itself.
    pub fn base(&self) -> (r: IntFormula)
        ensures
            r == spec_base(Self::spec_def()),
    {
        base(&self.def())
    }

    /// The parameter plus its additive part.
    pub fn sum(&self) -> (r: IntFormula)
        ensures
            r == spec_sum(Self::spec_def()),
    {
        sum(&self.def())
    }

    pub open spec fn spec_formula() -> IntFormula {
        spec_sum(Agility::spec_def())
    }

    /// The formula of the parameter's value.
    pub fn make_formula(&self) -> (r: IntFormula)
        ensures
            r == Self::spec_formula(),
            forall|cr: &Critter| cr.wf() ==> eval_int(r, Some(cr)) == Some(stat_sum(cr, ST_AGILITY, ST_AGILITY_EXT)),
    {
        let r = self.sum();
        proof {
            reveal_with_fuel(eval_int, 3);
        }
        r
    }

    pub open spec fn spec_calc() -> IntFormula {
        spec_bounded(Self::spec_def(), Self::spec_formula())
    }

    /// The formula kept within the parameter's bounds.
    pub fn calc(&self) -> (r: IntFormula)
        ensures
            r == Self::spec_calc(),
            forall|cr: &Critter| cr.wf() ==> eval_int(r, Some(cr)) == Some(
                super::values::bounded(stat_sum(cr, ST_AGILITY, ST_AGILITY_EXT), 1i32, 10i32),
            ),
    {
        let r = bounded(&self.def(), self.make_formula());
        proof {
            reveal_with_fuel(eval_int, 4);
        }
        r
    }
}

/// The Luck stat (Удача).
#[derive(Debug, Clone, Copy)]
pub struct Luck;

impl Luck {
    pub open spec fn spec_def() -> ParamDef {
        ParamDef {
            index: ST_LUCK,
            name: "УдачаБаза",
            ext: Some(ExtDef { index: ST_LUCK_EXT, name: "УдачаЭффект" }),
            bounds: Some((1i32, 10i32)),
            presence: None,
        }
    }

    pub fn def(&self) -> (r: ParamDef)
        ensures
            r == Self::spec_def(),
    {
        ParamDef {
            index: ST_LUCK,
            name: "УдачаБаза",
            ext: Some(ExtDef { index: ST_LUCK_EXT, name: "УдачаЭффект" }),
            bounds: Some((1i32, 10i32)),
            presence: None,
        }
    }

    /// The parameter itself.
    pub fn base(&self) -> (r: IntFormula)
        ensures
            r == spec_base(Self::spec_def()),
    {
        base(&self.def())
    }

    /// The parameter plus its additive part.
    pub fn sum(&self) -> (r: IntFormula)
        ensures
            r == spec_sum(Self::spec_def()),
    {
        sum(&self.def())
    }

    pub open spec fn spec_formula() -> IntFormula {
        spec_sum(Luck::spec_def())
    }

    /// The formula of the parameter's value.
    pub fn make_formula(&self) -> (r: IntFormula)
        ensures
            r == Self::spec_formula(),
            forall|cr: &Critter| cr.wf() ==> eval_int(r, Some(cr)) == Some(stat_sum(cr, ST_LUCK, ST_LUCK_EXT)),
    {
        let r = self.sum();
        proof {
            reveal_with_fuel(eval_int, 3);
        }
        r
    }

    pub open spec fn spec_calc() -> IntFormula {
        spec_bounded(Self::spec_def(), Self::spec_formula())
    }

    /// The formula kept within the parameter's bounds.
    pub fn calc(&self) -> (r: IntFormula)
        ensures
            r == Self::spec_calc(),
            forall|cr: &Critter| cr.wf() ==> eval_int(r, Some(cr)) == Some(
                super::values::bounded(stat_sum(cr, ST_LUCK, ST_LUCK_EXT), 1i32, 10i32),
            ),
    {
        let r = bounded(&self.def(), self.make_formula());
        proof {
            reveal_with_fuel(eval_int, 4);
        }
        r
    }
}

/// The LifeMax stat (МаксЗдоровье).
#[derive(Debug, Clone, Copy)]
pub struct LifeMax;

impl LifeMax {
    pub open spec fn spec_def() -> ParamDef {
        ParamDef {
            index: ST_MAX_LIFE,
            name: "МаксЗдоровьеБаза",
            ext: Some(ExtDef { index: ST_MAX_LIFE_EXT, name: "МаксЗдоровьеЭффект" }),
            bounds: Some((1i32, 9999i32)),
            presence: None,
        }
    }

    pub fn def(&self) -> (r: ParamDef)
        ensures
            r == Self::spec_def(),
    {
        ParamDef {
            index: ST_MAX_LIFE,
            name: "МаксЗдоровьеБаза",
            ext: Some(ExtDef { index: ST_MAX_LIFE_EXT, name: "МаксЗдоровьеЭффект" }),
            bounds: Some((1i32, 9999i32)),
            presence: None,
        }
    }

    /// The parameter itself.
    pub fn base(&self) -> (r: IntFormula)
        ensures
            r == spec_base(Self::spec_def()),
    {
        base(&self.def())
    }

    /// The parameter plus its additive part.
    pub fn sum(&self) -> (r: IntFormula)
        ensures
            r == spec_sum(Self::spec_def()),
    {
        sum(&self.def())
    }

    pub open spec fn spec_formula() -> IntFormula {
        spec_plus(
            spec_plus(
                spec_sum(LifeMax::spec_def()),
                spec_cut(
                    "ОтСилы",
                    spec_times(spec_base(Strength::spec_def()), spec_invar(4, "ЗдоровьеЗаСилу")),
                ),
            ),
            spec_cut(
                "ОтВыносливости",
                spec_times(
                    spec_base(Endurance::spec_def()),
                    spec_invar(8, "ЗдоровьеЗаВыносливость"),
                ),
            ),
        )
    }

    /// The formula of the parameter's value.
    pub fn make_formula(&self) -> (r: IntFormula)
        ensures
            r == Self::spec_formula(),
            forall|cr: &Critter| cr.wf() ==> eval_int(r, Some(cr)) == life_max_value(cr),
    {
        let r = plus(
            plus(self.sum(), cut("ОтСилы", times(Strength.base(), invar(4, "ЗдоровьеЗаСилу")))),
            cut("ОтВыносливости", times(Endurance.base(), invar(8, "ЗдоровьеЗаВыносливость"))),
        );
        assert forall|cr: &Critter| cr.wf() implies eval_int(r, Some(cr)) == life_max_value(cr) by {
            reveal_with_fuel(eval_int, 6);
            reveal_with_fuel(eval_bool, 6);
        }
        r
    }

    pub open spec fn spec_calc() -> IntFormula {
        spec_bounded(Self::spec_def(), Self::spec_formula())
    }

    /// The formula kept within the parameter's bounds.
    pub fn calc(&self) -> (r: IntFormula)
        ensures
            r == Self::spec_calc(),
    {
        bounded(&self.def(), self.make_formula())
    }
}

/// The ActionPointsMax stat (МаксОД).
#[derive(Debug, Clone, Copy)]
pub struct ActionPointsMax;

impl ActionPointsMax {
    pub open spec fn spec_def() -> ParamDef {
        ParamDef {
            index: ST_ACTION_POINTS,
            name: "МаксОДБаза",
            ext: Some(ExtDef { index: ST_ACTION_POINTS_EXT, name: "МаксОДЭффект" }),
            bounds: Some((1i32, 9999i32)),
            presence: None,
        }
    }

    pub fn def(&self) -> (r: ParamDef)
        ensures
            r == Self::spec_def(),
    {
        ParamDef {
            index: ST_ACTION_POINTS,
            name: "МаксОДБаза",
            ext: Some(ExtDef { index: ST_ACTION_POINTS_EXT, name: "МаксОДЭффект" }),
            bounds: Some((1i32, 9999i32)),
            presence: None,
        }
    }

    /// The parameter itself.
    pub fn base(&self) -> (r: IntFormula)
        ensures
            r == spec_base(Self::spec_def()),
    {
        base(&self.def())
    }

    /// The parameter plus its additive part.
    pub fn sum(&self) -> (r: IntFormula)
        ensures
            r == spec_sum(Self::spec_def()),
    {
        sum(&self.def())
    }

    pub open spec fn spec_formula() -> IntFormula {
        spec_plus(spec_sum(ActionPointsMax::spec_def()), spec_invar(100, "БазовыеОД"))
    }

    /// The formula of the parameter's value.
    pub fn make_formula(&self) -> (r: IntFormula)
        ensures
            r == Self::spec_formula(),
            forall|cr: &Critter| cr.wf() ==> eval_int(r, Some(cr)) == action_points_max_value(cr),
    {
        let r = plus(self.sum(), invar(100, "БазовыеОД"));
        assert forall|cr: &Critter| cr.wf() implies eval_int(r, Some(cr)) == action_points_max_value(cr) by {
            reveal_with_fuel(eval_int, 4);
            reveal_with_fuel(eval_bool, 4);
        }
        r
    }

    pub open spec fn spec_calc() -> IntFormula {
        spec_bounded(Self::spec_def(), Self::spec_formula())
    }

    /// The formula kept within the parameter's bounds.
    pub fn calc(&self) -> (r: IntFormula)
        ensures
            r == Self::spec_calc(),
    {
        bounded(&self.def(), self.make_formula())
    }
}

/// The WeightMax stat (МаксВес).
#[derive(Debug, Clone, Copy)]
pub struct WeightMax;

impl WeightMax {
    pub open spec fn spec_def() -> ParamDef {
        ParamDef {
            index: ST_CARRY_WEIGHT,
            name: "МаксВесБаза",
            ext: Some(ExtDef { index: ST_CARRY_WEIGHT_EXT, name: "МаксВесЭффект" }),
            bounds: Some((0i32, 2000000000i32)),
            presence: None,
        }
    }

    pub fn def(&self) -> (r: ParamDef)
        ensures
            r == Self::spec_def(),
    {
        ParamDef {
            index: ST_CARRY_WEIGHT,
            name: "МаксВесБаза",
            ext: Some(ExtDef { index: ST_CARRY_WEIGHT_EXT, name: "МаксВесЭффект" }),
            bounds: Some((0i32, 2000000000i32)),
            presence: None,
        }
    }

    /// The parameter itself.
    pub fn base(&self) -> (r: IntFormula)
        ensures
            r == spec_base(Self::spec_def()),
    {
        base(&self.def())
    }

    /// The parameter plus its additive part.
    pub fn sum(&self) -> (r: IntFormula)
        ensures
            r == spec_sum(Self::spec_def()),
    {
        sum(&self.def())
    }

    pub open spec fn spec_formula() -> IntFormula {
        spec_plus(
            spec_cut("ОтМаксВеса", spec_max(spec_sum(WeightMax::spec_def()), spec_integer(0))),
            spec_times(
                spec_integer(1000),
                spec_plus(
                    spec_invar(15, "БазовыйМаксВес"),
                    spec_cut(
                        "ОтСилы",
                        spec_times(
                            spec_base(Strength::spec_def()),
                            spec_minus(
                                spec_invar(10, "МаксВесЗаСилу"),
                                spec_times(
                                    spec_base(SmallFrame::spec_def()),
                                    spec_invar(4, "ХилоеТелоШтрафМаксВесаОтСилы"),
                                ),
                            ),
                        ),
                    ),
                ),
            ),
        )
    }

    /// The formula of the parameter's value.
    pub fn make_formula(&self) -> (r: IntFormula)
        ensures
            r == Self::spec_formula(),
            forall|cr: &Critter| cr.wf() ==> eval_int(r, Some(cr)) == weight_max_value(cr),
    {
        let r = plus(
            cut("ОтМаксВеса", max(self.sum(), integer(0))),
            times(
                integer(1000),
                plus(
                    invar(15, "БазовыйМаксВес"),
                    cut(
                        "ОтСилы",
                        times(
                            Strength.base(),
                            minus(
                                invar(10, "МаксВесЗаСилу"),
                                times(SmallFrame.base(), invar(4, "ХилоеТелоШтрафМаксВесаОтСилы")),
                            ),
                        ),
                    ),
                ),
            ),
        );
        assert forall|cr: &Critter| cr.wf() implies eval_int(r, Some(cr)) == weight_max_value(cr) by {
            reveal_with_fuel(eval_int, 8);
            reveal_with_fuel(eval_bool, 8);
        }
        r
    }

    pub open spec fn spec_calc() -> IntFormula {
        spec_bounded(Self::spec_def(), Self::spec_formula())
    }

    /// The formula kept within the parameter's bounds.
    pub fn calc(&self) -> (r: IntFormula)
        ensures
            r == Self::spec_calc(),
    {
        bounded(&self.def(), self.make_formula())
    }
}

/// The Sequence stat (ПорядокДействий).
#[derive(Debug, Clone, Copy)]
pub struct Sequence;

impl Sequence {
    pub open spec fn spec_def() -> ParamDef {
        ParamDef {
            index: ST_SEQUENCE,
            name: "ПорядокДействийБаза",
            ext: Some(ExtDef { index: ST_SEQUENCE_EXT, name: "ПорядокДействийЭффект" }),
            bounds: Some((0i32, 9999i32)),
            presence: None,
        }
    }

    pub fn def(&self) -> (r: ParamDef)
        ensures
            r == Self::spec_def(),
    {
        ParamDef {
            index: ST_SEQUENCE,
            name: "ПорядокДействийБаза",
            ext: Some(ExtDef { index: ST_SEQUENCE_EXT, name: "ПорядокДействийЭффект" }),
            bounds: Some((0i32, 9999i32)),
            presence: None,
        }
    }

    /// The parameter itself.
    pub fn base(&self) -> (r: IntFormula)
        ensures
            r == spec_base(Self::spec_def()),
    {
        base(&self.def())
    }

    /// The parameter plus its additive part.
    pub fn sum(&self) -> (r: IntFormula)
        ensures
            r == spec_sum(Self::spec_def()),
    {
        sum(&self.def())
    }

    pub open spec fn spec_formula() -> IntFormula {
        spec_plus(
            spec_sum(Sequence::spec_def()),
            spec_times(Perception::spec_calc(), spec_invar(2, "ПорядокДействийЗаВосприятие")),
        )
    }

    /// The formula of the parameter's value.
    pub fn make_formula(&self) -> (r: IntFormula)
        ensures
            r == Self::spec_formula(),
            forall|cr: &Critter| cr.wf() ==> eval_int(r, Some(cr)) == sequence_value(cr),
    {
        let r = plus(self.sum(), times(Perception.calc(), invar(2, "ПорядокДействийЗаВосприятие")));
        assert forall|cr: &Critter| cr.wf() implies eval_int(r, Some(cr)) == sequence_value(cr) by {
            reveal_with_fuel(eval_int, 11);
            reveal_with_fuel(eval_bool, 11);
        }
        r
    }

    pub open spec fn spec_calc() -> IntFormula {
        spec_bounded(Self::spec_def(), Self::spec_formula())
    }

    /// The formula kept within the parameter's bounds.
    pub fn calc(&self) -> (r: IntFormula)
        ensures
            r == Self::spec_calc(),
    {
        bounded(&self.def(), self.make_formula())
    }
}

/// The MeleeDamage stat (РукопашныйУрон).
#[derive(Debug, Clone, Copy)]
pub struct MeleeDamage;

impl MeleeDamage {
    pub open spec fn spec_def() -> ParamDef {
        ParamDef {
            index: ST_MELEE_DAMAGE,
            name: "РукопашныйУронБаза",
            ext: Some(ExtDef { index: ST_MELEE_DAMAGE_EXT, name: "РукопашныйУронЭффект" }),
            bounds: Some((1i32, 9999i32)),
            presence: None,
        }
    }

    pub fn def(&self) -> (r: ParamDef)
        ensures
            r == Self::spec_def(),
    {
        ParamDef {
            index: ST_MELEE_DAMAGE,
            name: "РукопашныйУронБаза",
            ext: Some(ExtDef { index: ST_MELEE_DAMAGE_EXT, name: "РукопашныйУронЭффект" }),
            bounds: Some((1i32, 9999i32)),
            presence: None,
        }
    }

    /// The parameter itself.
    pub fn base(&self) -> (r: IntFormula)
        ensures
            r == spec_base(Self::spec_def()),
    {
        base(&self.def())
    }

    /// The parameter plus its additive part.
    pub fn sum(&self) -> (r: IntFormula)
        ensures
            r == spec_sum(Self::spec_def()),
    {
        sum(&self.def())
    }

    pub open spec fn spec_formula() -> IntFormula {
        spec_plus(
            spec_plus(spec_sum(MeleeDamage::spec_def()), spec_invar(3, "БазовыйРукопашныйУрон")),
            spec_cut(
                "ОтСилы",
                spec_times(spec_base(Strength::spec_def()), spec_invar(2, "РукопашныйУронЗаСилу")),
            ),
        )
    }

    /// The formula of the parameter's value.
    pub fn make_formula(&self) -> (r: IntFormula)
        ensures
            r == Self::spec_formula(),
            forall|cr: &Critter| cr.wf() ==> eval_int(r, Some(cr)) == melee_damage_value(cr),
    {
        let r = plus(
            plus(self.sum(), invar(3, "БазовыйРукопашныйУрон")),
            cut("ОтСилы", times(Strength.base(), invar(2, "РукопашныйУронЗаСилу"))),
        );
        assert forall|cr: &Critter| cr.wf() implies eval_int(r, Some(cr)) == melee_damage_value(cr) by {
            reveal_with_fuel(eval_int, 6);
            reveal_with_fuel(eval_bool, 6);
        }
        r
    }

    pub open spec fn spec_calc() -> IntFormula {
        spec_bounded(Self::spec_def(), Self::spec_formula())
    }

    /// The formula kept within the parameter's bounds.
    pub fn calc(&self) -> (r: IntFormula)
        ensures
            r == Self::spec_calc(),
    {
        bounded(&self.def(), self.make_formula())
    }
}

/// The HealingRate stat (ТемпЛечения).
#[derive(Debug, Clone, Copy)]
pub struct HealingRate;

impl HealingRate {
    pub open spec fn spec_def() -> ParamDef {
        ParamDef {
            index: ST_HEALING_RATE,
            name: "ТемпЛеченияБаза",
            ext: Some(ExtDef { index: ST_HEALING_RATE_EXT, name: "ТемпЛеченияЭффект" }),
            bounds: Some((0i32, 9999i32)),
            presence: None,
        }
    }

    pub fn def(&self) -> (r: ParamDef)
        ensures
            r == Self::spec_def(),
    {
        ParamDef {
            index: ST_HEALING_RATE,
            name: "ТемпЛеченияБаза",
            ext: Some(ExtDef { index: ST_HEALING_RATE_EXT, name: "ТемпЛеченияЭффект" }),
            bounds: Some((0i32, 9999i32)),
            presence: None,
        }
    }

    /// The parameter itself.
    pub fn base(&self) -> (r: IntFormula)
        ensures
            r == spec_base(Self::spec_def()),
    {
        base(&self.def())
    }

    /// The parameter plus its additive part.
    pub fn sum(&self) -> (r: IntFormula)
        ensures
            r == spec_sum(Self::spec_def()),
    {
        sum(&self.def())
    }

    pub open spec fn spec_formula() -> IntFormula {
        spec_plus(
            spec_sum(HealingRate::spec_def()),
            spec_cut(
                "ОтВыносливости",
                spec_max(
                    spec_integer(1),
                    spec_divided(spec_cut("Выносливость", Endurance::spec_calc()), spec_integer(3)),
                ),
            ),
        )
    }

    /// The formula of the parameter's value.
    pub fn make_formula(&self) -> (r: IntFormula)
        ensures
            r == Self::spec_formula(),
            forall|cr: &Critter| cr.wf() ==> eval_int(r, Some(cr)) == healing_rate_value(cr),
    {
        let r = plus(
            self.sum(),
            cut(
                "ОтВыносливости",
                max(integer(1), divided(cut("Выносливость", Endurance.calc()), integer(3))),
            ),
        );
        assert forall|cr: &Critter| cr.wf() implies eval_int(r, Some(cr)) == healing_rate_value(cr) by {
            reveal_with_fuel(eval_int, 8);
            reveal_with_fuel(eval_bool, 8);
        }
        r
    }

    pub open spec fn spec_calc() -> IntFormula {
        spec_bounded(Self::spec_def(), Self::spec_formula())
    }

    /// The formula kept within the parameter's bounds.
    pub fn calc(&self) -> (r: IntFormula)
        ensures
            r == Self::spec_calc(),
    {
        bounded(&self.def(), self.make_formula())
    }
}

/// The CriticalChance stat (ШансНаКрит).
#[derive(Debug, Clone, Copy)]
pub struct CriticalChance;

impl CriticalChance {
    pub open spec fn spec_def() -> ParamDef {
        ParamDef {
            index: ST_CRITICAL_CHANCE,
            name: "ШансНаКритБаза",
            ext: Some(ExtDef { index: ST_CRITICAL_CHANCE_EXT, name: "ШансНаКритЭффект" }),
            bounds: Some((0i32, 100i32)),
            presence: None,
        }
    }

    pub fn def(&self) -> (r: ParamDef)
        ensures
            r == Self::spec_def(),
    {
        ParamDef {
            index: ST_CRITICAL_CHANCE,
            name: "ШансНаКритБаза",
            ext: Some(ExtDef { index: ST_CRITICAL_CHANCE_EXT, name: "ШансНаКритЭффект" }),
            bounds: Some((0i32, 100i32)),
            presence: None,
        }
    }

    /// The parameter itself.
    pub fn base(&self) -> (r: IntFormula)
        ensures
            r == spec_base(Self::spec_def()),
    {
        base(&self.def())
    }

    /// The parameter plus its additive part.
    pub fn sum(&self) -> (r: IntFormula)
        ensures
            r == spec_sum(Self::spec_def()),
    {
        sum(&self.def())
    }

    pub open spec fn spec_formula() -> IntFormula {
        spec_plus(spec_sum(CriticalChance::spec_def()), spec_cut("Удача", Luck::spec_calc()))
    }

    /// The formula of the parameter's value.
    pub fn make_formula(&self) -> (r: IntFormula)
        ensures
            r == Self::spec_formula(),
            forall|cr: &Critter| cr.wf() ==> eval_int(r, Some(cr)) == critical_chance_value(cr),
    {
        let r = plus(self.sum(), cut("Удача", Luck.calc()));
        assert forall|cr: &Critter| cr.wf() implies eval_int(r, Some(cr)) == critical_chance_value(cr) by {
            reveal_with_fuel(eval_int, 6);
            reveal_with_fuel(eval_bool, 6);
        }
        r
    }

    pub open spec fn spec_calc() -> IntFormula {
        spec_bounded(Self::spec_def(), Self::spec_formula())
    }

    /// The formula kept within the parameter's bounds.
    pub fn calc(&self) -> (r: IntFormula)
        ensures
            r == Self::spec_calc(),
    {
        bounded(&self.def(), self.make_formula())
    }
}

/// The CriticalMax stat (ЛучшийКрит).
#[derive(Debug, Clone, Copy)]
pub struct CriticalMax;

impl CriticalMax {
    pub open spec fn spec_def() -> ParamDef {
        ParamDef {
            index: ST_MAX_CRITICAL,
            name: "ЛучшийКритБаза",
            ext: Some(ExtDef { index: ST_MAX_CRITICAL_EXT, name: "ЛучшийКритЭффект" }),
            bounds: Some((-100i32, 100i32)),
            presence: None,
        }
    }

    pub fn def(&self) -> (r: ParamDef)
        ensures
            r == Self::spec_def(),
    {
        ParamDef {
            index: ST_MAX_CRITICAL,
            name: "ЛучшийКритБаза",
            ext: Some(ExtDef { index: ST_MAX_CRITICAL_EXT, name: "ЛучшийКритЭффект" }),
            bounds: Some((-100i32, 100i32)),
            presence: None,
        }
    }

    /// The parameter itself.
    pub fn base(&self) -> (r: IntFormula)
        ensures
            r == spec_base(Self::spec_def()),
    {
        base(&self.def())
    }

    /// The parameter plus its additive part.
    pub fn sum(&self) -> (r: IntFormula)
        ensures
            r == spec_sum(Self::spec_def()),
    {
        sum(&self.def())
    }

    pub open spec fn spec_formula() -> IntFormula {
        spec_sum(CriticalMax::spec_def())
    }

    /// The formula of the parameter's value.
    pub fn make_formula(&self) -> (r: IntFormula)
        ensures
            r == Self::spec_formula(),
            forall|cr: &Critter| cr.wf() ==> eval_int(r, Some(cr)) == Some(stat_sum(cr, ST_MAX_CRITICAL, ST_MAX_CRITICAL_EXT)),
    {
        let r = self.sum();
        proof {
            reveal_with_fuel(eval_int, 3);
        }
        r
    }

    pub open spec fn spec_calc() -> IntFormula {
        spec_bounded(Self::spec_def(), Self::spec_formula())
    }

    /// The formula kept within the parameter's bounds.
    pub fn calc(&self) -> (r: IntFormula)
        ensures
            r == Self::spec_calc(),
            forall|cr: &Critter| cr.wf() ==> eval_int(r, Some(cr)) == Some(
                super::values::bounded(stat_sum(cr, ST_MAX_CRITICAL, ST_MAX_CRITICAL_EXT), -100i32, 100i32),
            ),
    {
        let r = bounded(&self.def(), self.make_formula());
        proof {
            reveal_with_fuel(eval_int, 4);
        }
        r
    }
}

/// The ArmorClass stat (КлассБрони).
#[derive(Debug, Clone, Copy)]
pub struct ArmorClass;

impl ArmorClass {
    pub open spec fn spec_def() -> ParamDef {
        ParamDef {
            index: ST_ARMOR_CLASS,
            name: "КлассБрониБаза",
            ext: Some(ExtDef { index: ST_ARMOR_CLASS_EXT, name: "КлассБрониЭффект" }),
            bounds: Some((0i32, 90i32)),
            presence: None,
        }
    }

    pub fn def(&self) -> (r: ParamDef)
        ensures
            r == Self::spec_def(),
    {
        ParamDef {
            index: ST_ARMOR_CLASS,
            name: "КлассБрониБаза",
            ext: Some(ExtDef { index: ST_ARMOR_CLASS_EXT, name: "КлассБрониЭффект" }),
            bounds: Some((0i32, 90i32)),
            presence: None,
        }
    }

    /// The parameter itself.
    pub fn base(&self) -> (r: IntFormula)
        ensures
            r == spec_base(Self::spec_def()),
    {
        base(&self.def())
    }

    /// The parameter plus its additive part.
    pub fn sum(&self) -> (r: IntFormula)
        ensures
            r == spec_sum(Self::spec_def()),
    {
        sum(&self.def())
    }

    pub open spec fn spec_formula() -> IntFormula {
        spec_minus(
            spec_plus(
                spec_plus(
                    spec_sum(ArmorClass::spec_def()),
                    spec_times(Agility::spec_calc(), spec_invar(5, "ОчковБрониЗаЛовкость")),
                ),
                spec_base(ArmorClassTurnBased::spec_def()),
            ),
            spec_worn_armor_class("ОчкиНадетойБрони"),
        )
    }

    /// The formula of the parameter's value.
    pub fn make_formula(&self) -> (r: IntFormula)
        ensures
            r == Self::spec_formula(),
            forall|cr: &Critter| cr.wf() ==> eval_int(r, Some(cr)) == armor_class_value(cr),
    {
        let r = minus(
            plus(
                plus(self.sum(), times(Agility.calc(), invar(5, "ОчковБрониЗаЛовкость"))),
                ArmorClassTurnBased.base(),
            ),
            worn_armor_class("ОчкиНадетойБрони"),
        );
        assert forall|cr: &Critter| cr.wf() implies eval_int(r, Some(cr)) == armor_class_value(cr) by {
            reveal_with_fuel(eval_int, 7);
            reveal_with_fuel(eval_bool, 7);
        }
        r
    }

    pub open spec fn spec_calc() -> IntFormula {
        spec_bounded(Self::spec_def(), Self::spec_formula())
    }

    /// The formula kept within the parameter's bounds.
    pub fn calc(&self) -> (r: IntFormula)
        ensures
            r == Self::spec_calc(),
    {
        bounded(&self.def(), self.make_formula())
    }
}

/// The ResistRadiation stat (СопротивлениеРадиации).
#[derive(Debug, Clone, Copy)]
pub struct ResistRadiation;

impl ResistRadiation {
    pub open spec fn spec_def() -> ParamDef {
        ParamDef {
            index: ST_RADIATION_RESISTANCE,
            name: "СопротивлениеРадиацииБаза",
            ext: Some(ExtDef { index: ST_RADIATION_RESISTANCE_EXT, name: "СопротивлениеРадиацииЭффект" }),
            bounds: Some((0i32, 95i32)),
            presence: None,
        }
    }

    pub fn def(&self) -> (r: ParamDef)
        ensures
            r == Self::spec_def(),
    {
        ParamDef {
            index: ST_RADIATION_RESISTANCE,
            name: "СопротивлениеРадиацииБаза",
            ext: Some(ExtDef { index: ST_RADIATION_RESISTANCE_EXT, name: "СопротивлениеРадиацииЭффект" }),
            bounds: Some((0i32, 95i32)),
            presence: None,
        }
    }

    /// The parameter itself.
    pub fn base(&self) -> (r: IntFormula)
        ensures
            r == spec_base(Self::spec_def()),
    {
        base(&self.def())
    }

    /// The parameter plus its additive part.
    pub fn sum(&self) -> (r: IntFormula)
        ensures
            r == spec_sum(Self::spec_def()),
    {
        sum(&self.def())
    }

    pub open spec fn spec_formula() -> IntFormula {
        spec_plus(
            spec_sum(ResistRadiation::spec_def()),
            spec_times(Endurance::spec_calc(), spec_invar(2, "СопротивлениеРадиацииЗаВыносливость")),
        )
    }

    /// The formula of the parameter's value.
    pub fn make_formula(&self) -> (r: IntFormula)
        ensures
            r == Self::spec_formula(),
            forall|cr: &Critter| cr.wf() ==> eval_int(r, Some(cr)) == radiation_resistance_value(cr),
    {
        let r = plus(self.sum(), times(Endurance.calc(), invar(2, "СопротивлениеРадиацииЗаВыносливость")));
        assert forall|cr: &Critter| cr.wf() implies eval_int(r, Some(cr)) == radiation_resistance_value(cr) by {
            reveal_with_fuel(eval_int, 6);
            reveal_with_fuel(eval_bool, 6);
        }
        r
    }

    pub open spec fn spec_calc() -> IntFormula {
        spec_bounded(Self::spec_def(), Self::spec_formula())
    }

    /// The formula kept within the parameter's bounds.
    pub fn calc(&self) -> (r: IntFormula)
        ensures
            r == Self::spec_calc(),
    {
        bounded(&self.def(), self.make_formula())
    }
}

/// The ResistPoison stat (СопротивлениеЯду).
#[derive(Debug, Clone, Copy)]
pub struct ResistPoison;

impl ResistPoison {
    pub open spec fn spec_def() -> ParamDef {
        ParamDef {
            index: ST_POISON_RESISTANCE,
            name: "СопротивлениеЯдуБаза",
            ext: Some(ExtDef { index: ST_POISON_RESISTANCE_EXT, name: "СопротивлениеЯдуЭффект" }),
            bounds: Some((0i32, 95i32)),
            presence: None,
        }
    }

    pub fn def(&self) -> (r: ParamDef)
        ensures
            r == Self::spec_def(),
    {
        ParamDef {
            index: ST_POISON_RESISTANCE,
            name: "СопротивлениеЯдуБаза",
            ext: Some(ExtDef { index: ST_POISON_RESISTANCE_EXT, name: "СопротивлениеЯдуЭффект" }),
            bounds: Some((0i32, 95i32)),
            presence: None,
        }
    }

    /// The parameter itself.
    pub fn base(&self) -> (r: IntFormula)
        ensures
            r == spec_base(Self::spec_def()),
    {
        base(&self.def())
    }

    /// The parameter plus its additive part.
    pub fn sum(&self) -> (r: IntFormula)
        ensures
            r == spec_sum(Self::spec_def()),
    {
        sum(&self.def())
    }

    pub open spec fn spec_formula() -> IntFormula {
        spec_plus(
            spec_sum(ResistPoison::spec_def()),
            spec_times(Endurance::spec_calc(), spec_invar(5, "СопротивлениеЯдуЗаВыносливость")),
        )
    }

    /// The formula of the parameter's value.
    pub fn make_formula(&self) -> (r: IntFormula)
        ensures
            r == Self::spec_formula(),
            forall|cr: &Critter| cr.wf() ==> eval_int(r, Some(cr)) == poison_resistance_value(cr),
    {
        let r = plus(self.sum(), times(Endurance.calc(), invar(5, "СопротивлениеЯдуЗаВыносливость")));
        assert forall|cr: &Critter| cr.wf() implies eval_int(r, Some(cr)) == poison_resistance_value(cr) by {
            reveal_with_fuel(eval_int, 6);
            reveal_with_fuel(eval_bool, 6);
        }
        r
    }

    pub open spec fn spec_calc() -> IntFormula {
        spec_bounded(Self::spec_def(), Self::spec_formula())
    }

    /// The formula kept within the parameter's bounds.
    pub fn calc(&self) -> (r: IntFormula)
        ensures
            r == Self::spec_calc(),
    {
        bounded(&self.def(), self.make_formula())
    }
}


/// Endurance, Charisma, Agility, Luck and the best critical are each the
/// critter's base value plus its effect part, added with saturation at the
/// ends of `i32`; kept within their bounds (1 to 10, and -100 to 100 for the
/// best critical) they are that sum moved to the nearest bound.
pub proof fn lemma_base_plus_effect_stats(cr: &Critter)
    requires
        cr.wf(),
    ensures
        eval_int(Endurance::spec_formula(), Some(cr)) == Some(spec_saturating_add(cr.param@[ST_ENDURANCE as int], cr.param@[ST_ENDURANCE_EXT as int])),
        eval_int(Endurance::spec_calc(), Some(cr)) == Some(super::values::bounded(spec_saturating_add(cr.param@[ST_ENDURANCE as int], cr.param@[ST_ENDURANCE_EXT as int]), 1i32, 10i32)),
        eval_int(Charisma::spec_formula(), Some(cr)) == Some(spec_saturating_add(cr.param@[ST_CHARISMA as int], cr.param@[ST_CHARISMA_EXT as int])),
        eval_int(Charisma::spec_calc(), Some(cr)) == Some(super::values::bounded(spec_saturating_add(cr.param@[ST_CHARISMA as int], cr.param@[ST_CHARISMA_EXT as int]), 1i32, 10i32)),
        eval_int(Agility::spec_formula(), Some(cr)) == Some(spec_saturating_add(cr.param@[ST_AGILITY as int], cr.param@[ST_AGILITY_EXT as int])),
        eval_int(Agility::spec_calc(), Some(cr)) == Some(super::values::bounded(spec_saturating_add(cr.param@[ST_AGILITY as int], cr.param@[ST_AGILITY_EXT as int]), 1i32, 10i32)),
        eval_int(Luck::spec_formula(), Some(cr)) == Some(spec_saturating_add(cr.param@[ST_LUCK as int], cr.param@[ST_LUCK_EXT as int])),
        eval_int(Luck::spec_calc(), Some(cr)) == Some(super::values::bounded(spec_saturating_add(cr.param@[ST_LUCK as int], cr.param@[ST_LUCK_EXT as int]), 1i32, 10i32)),
        eval_int(CriticalMax::spec_formula(), Some(cr)) == Some(spec_saturating_add(cr.param@[ST_MAX_CRITICAL as int], cr.param@[ST_MAX_CRITICAL_EXT as int])),
        eval_int(CriticalMax::spec_calc(), Some(cr)) == Some(super::values::bounded(spec_saturating_add(cr.param@[ST_MAX_CRITICAL as int], cr.param@[ST_MAX_CRITICAL_EXT as int]), -100i32, 100i32)),
{
    reveal_with_fuel(eval_int, 4);
}

} // verus!
