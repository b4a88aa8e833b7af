use fonline_tnf::critter::{Critter, Time, PARAMS_COUNT};
use fonline_tnf::formula::ast::{BoolFormula, IntFormula};
use fonline_tnf::formula::construct::{
    and, boolean, clamp, cut, divided, equal, greater_than, if_else, integer, invar, less_or_equal, max,
    minus, not_equal, or, param, plus, pow, times,
};

fn noon() -> Time {
    Time { hour: 12, minute: 0, second: 0 }
}

fn critter_with(index: usize, value: i32) -> Critter {
    let mut params = vec![0i32; PARAMS_COUNT];
    params[index] = value;
    Critter::new(params, noon())
}

fn invar_50() -> IntFormula {
    invar(50, "invar")
}

/// A formula that reads 100 from the critter it is computed over.
fn bar() -> IntFormula {
    param(0, "bar")
}

#[test]
fn data_conversion() {
    let cr = critter_with(0, 100);
    assert_eq!(invar_50().compute(None), 50);
    assert_eq!(invar_50().compute(Some(&cr)), 50);
    assert_eq!(bar().compute(Some(&cr)), 100);
    assert_eq!(plus(bar(), bar()).compute(Some(&cr)), 200);
    assert_eq!(plus(bar(), bar()).compute(Some(&cr)), 200);
    assert_eq!(plus(invar_50(), invar_50()).compute(Some(&cr)), 100);
    assert_eq!(plus(invar_50(), bar()).compute(Some(&cr)), 150);
    assert_eq!(plus(bar(), invar_50()).compute(Some(&cr)), 150);
    assert_eq!(plus(integer(1), bar()).compute(Some(&cr)), 101);
    assert_eq!(plus(bar(), integer(1)).compute(Some(&cr)), 101);
}

#[test]
fn test_and() {
    assert_eq!(false, and(boolean(false), boolean(false)).compute(None));
    assert_eq!(false, and(boolean(true), boolean(false)).compute(None));
    assert_eq!(false, and(boolean(false), boolean(true)).compute(None));
    assert_eq!(true, and(boolean(true), boolean(true)).compute(None));
}

/// A condition that cannot be computed: it divides by zero.
fn never_computed() -> BoolFormula {
    equal(divided(integer(1), integer(0)), integer(0))
}

#[test]
fn and_isnt_associative() {
    assert_eq!(never_computed().checked_compute(None), None);
    let formula = and(boolean(false), never_computed());
    assert_eq!(false, formula.compute(None));
}

#[test]
fn or_stops_at_true() {
    let formula = or(boolean(true), never_computed());
    assert_eq!(true, formula.compute(None));
    assert_eq!(or(boolean(false), never_computed()).checked_compute(None), None);
}

#[test]
fn test_equal() {
    let formula_true = equal(integer(10), integer(10));
    assert_eq!(formula_true.compute(None), true);
    let formula_false = equal(integer(10), integer(20));
    assert_eq!(formula_false.compute(None), false);
}

#[test]
fn test_if_else() {
    let formula_true = if_else(boolean(true), integer(10), integer(20));
    assert_eq!(10, formula_true.compute(None));
    let formula_false = if_else(boolean(false), integer(10), integer(20));
    assert_eq!(20, formula_false.compute(None));
}

#[test]
fn test_clamp() {
    let formula = clamp(integer(5), integer(-5), integer(10));
    assert_eq!(5, formula.compute(None));
    let formula = clamp(integer(15), integer(-5), integer(10));
    assert_eq!(10, formula.compute(None));
    let formula = clamp(integer(-10), integer(-5), integer(10));
    assert_eq!(-5, formula.compute(None));
}

#[test]
fn arithmetic_saturates() {
    assert_eq!(plus(integer(i32::MAX), integer(1)).compute(None), i32::MAX);
    assert_eq!(minus(integer(i32::MIN), integer(1)).compute(None), i32::MIN);
    assert_eq!(times(integer(1 << 20), integer(1 << 20)).compute(None), i32::MAX);
    assert_eq!(times(integer(-(1 << 20)), integer(1 << 20)).compute(None), i32::MIN);
    assert_eq!(pow(integer(2), integer(10)).compute(None), 1024);
    assert_eq!(pow(integer(2), integer(40)).compute(None), i32::MAX);
    assert_eq!(pow(integer(2), integer(-1)).compute(None), 0);
    assert_eq!(max(integer(3), integer(-7)).compute(None), 3);
}

#[test]
fn division_rounds_toward_zero_and_fails_on_zero() {
    assert_eq!(divided(integer(7), integer(2)).compute(None), 3);
    assert_eq!(divided(integer(-7), integer(2)).compute(None), -3);
    assert_eq!(divided(integer(7), integer(-2)).compute(None), -3);
    assert_eq!(divided(integer(1), integer(0)).checked_compute(None), None);
    assert_eq!(divided(integer(i32::MIN), integer(-1)).checked_compute(None), None);
}

#[test]
fn comparisons() {
    assert!(not_equal(integer(1), integer(2)).compute(None));
    assert!(greater_than(integer(3), integer(2)).compute(None));
    assert!(!greater_than(integer(2), integer(2)).compute(None));
    assert!(less_or_equal(integer(2), integer(2)).compute(None));
}

#[test]
fn param_without_critter_fails() {
    assert_eq!(bar().checked_compute(None), None);
    let cr = critter_with(0, 100);
    assert_eq!(param(999, "last").checked_compute(Some(&cr)), Some(0));
    assert_eq!(param(1000, "beyond").checked_compute(Some(&cr)), None);
}

#[test]
fn cut_keeps_value() {
    let cr = critter_with(0, 100);
    assert_eq!(cut("Часть", plus(bar(), integer(1))).compute(Some(&cr)), 101);
}

#[test]
fn full_info_lists_lines_and_args() {
    let cr = critter_with(0, 100);
    let formula = plus(cut("Часть", times(bar(), integer(2))), invar_50());
    let info = formula.full_info("Итог", Some(Some(&cr)));
    assert_eq!(
        info,
        "Итог: \n  Часть + invar = 250\nЧасть: \n  bar x 2 = 200\nКонстанты:\n  invar = 50\nСтаты:\n  bar = 100\n"
    );
}

#[test]
fn sums_and_products_commute() {
    let cr = critter_with(0, 100);
    assert_eq!(plus(bar(), integer(i32::MAX)).compute(Some(&cr)), plus(integer(i32::MAX), bar()).compute(Some(&cr)));
    assert_eq!(times(bar(), integer(-3)).compute(Some(&cr)), times(integer(-3), bar()).compute(Some(&cr)));
}

use fonline_tnf::critter::{Armor, ArmorProto};
use fonline_tnf::formula::ast::ArmorStat;
use fonline_tnf::formula::construct::worn_armor_stat;
use fonline_tnf::formula::context::{ArgKey, ArgSortOrder, Context, LineResult};

fn armored(deterioration: u16) -> Critter {
    let proto = ArmorProto {
        armor_ac: 0,
        dt_normal: 0,
        dt_laser: 0,
        dt_fire: 0,
        dt_plasma: 0,
        dt_electr: 0,
        dt_emp: 0,
        dt_explode: 0,
        dr_normal: 40,
        dr_laser: 0,
        dr_fire: 0,
        dr_plasma: 0,
        dr_electr: 0,
        dr_emp: 0,
        dr_explode: 0,
    };
    Critter::with_armor(vec![0i32; PARAMS_COUNT], noon(), Armor { proto: Some(proto), deterioration })
}

#[test]
fn armor_wears_out() {
    let stat = || worn_armor_stat(ArmorStat::DrNormal, "Броня");
    assert_eq!(stat().compute(Some(&armored(0))), 40);
    assert_eq!(stat().compute(Some(&armored(5000))), 20);
    assert_eq!(stat().compute(Some(&armored(7500))), 10);
    assert_eq!(stat().compute(Some(&armored(10000))), 0);
    assert_eq!(stat().compute(Some(&armored(u16::MAX))), 0);
    assert_eq!(Armor { proto: None, deterioration: 9999 }.get_deterioration_proc(), 99);
    assert_eq!(Armor { proto: None, deterioration: 60000 }.get_deterioration_proc(), 100);
}

#[test]
fn adding_an_entry_twice_is_adding_it_once() {
    let key = ArgKey { order: ArgSortOrder::Stat, index: 3, name: "Сила" };
    let mut ctx = Context::new("Итог");
    ctx.add_param(key, LineResult::Int32(5));
    ctx.add_param(key, LineResult::Int32(5));
    assert!(!ctx.try_add_param(key, LineResult::Int32(6)));
    let (_, args) = ctx.into_parts();
    assert_eq!(args.len(), 1);
    assert!(matches!(args[0].value, LineResult::Int32(5)));
}
