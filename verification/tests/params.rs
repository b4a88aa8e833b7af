use fonline_tnf::critter::{Critter, Time, PARAMS_COUNT};
use fonline_tnf::params::raw_param::{
    PE_ADRENALINE_RUSH, ST_CURRENT_HP, ST_ENDURANCE, ST_ENDURANCE_EXT, ST_MAX_LIFE, ST_STRENGTH, ST_STRENGTH_EXT,
    TO_BATTLE,
};
use fonline_tnf::params::stat::{LifeMax, Strength};

fn basic_critter() -> Critter {
    let mut param = vec![0i32; PARAMS_COUNT];
    param[ST_STRENGTH as usize] = 5;
    param[ST_ENDURANCE as usize] = 10;
    param[ST_STRENGTH_EXT as usize] = 2;
    param[ST_ENDURANCE_EXT as usize] = -3;
    param[ST_MAX_LIFE as usize] = 20;
    param[ST_CURRENT_HP as usize] = 10;
    // The adrenaline rush acts while the battle timeout runs.
    param[PE_ADRENALINE_RUSH as usize] = 1;
    param[TO_BATTLE as usize] = 1;
    Critter::new(param, Time { hour: 12, minute: 0, second: 0 })
}

#[test]
fn basic() {
    let cr = basic_critter();

    let formula = LifeMax.calc();
    let info = formula.full_info("МаксЗдоровье", Some(Some(&cr)));
    assert!(info.starts_with("МаксЗдоровье: \n"));
    // 20 from the stat, 4 per point of strength, 8 per point of endurance.
    assert_eq!(LifeMax.make_formula().compute(Some(&cr)), 120);

    let formula = Strength.calc();
    let info = formula.full_info("Сила", Some(Some(&cr)));
    assert!(info.starts_with("Сила: \n"));
    // 5 + 2, and 1 from the adrenaline rush: life 10 is at most
    // (20 + 5 + 2 * 10) / 2.
    assert_eq!(Strength.make_formula().compute(Some(&cr)), 8);
    assert_eq!(formula.compute(Some(&cr)), 8);
}

#[test]
fn adrenaline_rush_needs_low_life() {
    let mut cr = basic_critter();
    cr.param[ST_CURRENT_HP as usize] = 23;
    assert_eq!(Strength.make_formula().compute(Some(&cr)), 7);
}

#[test]
fn strength_stays_within_bounds() {
    let mut cr = basic_critter();
    cr.param[ST_STRENGTH_EXT as usize] = 40;
    assert_eq!(Strength.calc().compute(Some(&cr)), 10);
    cr.param[ST_STRENGTH_EXT as usize] = -40;
    assert_eq!(Strength.calc().compute(Some(&cr)), 1);
}
