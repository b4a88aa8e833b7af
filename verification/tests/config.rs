use fonline_tnf::config::{CritterRates, NpcFast};

#[test]
fn critter_rates_defaults() {
    assert!(CritterRates::default() == CritterRates { basic_bonus: 10, basic_perception_rate: 5 });
    assert!(CritterRates::default_hear_npc() == CritterRates { basic_bonus: 25, basic_perception_rate: 2 });
    assert!(CritterRates::default_hear_player() == CritterRates { basic_bonus: 5, basic_perception_rate: 2 });
}

#[test]
fn npc_fast_defaults() {
    assert!(NpcFast::default() == NpcFast { enable: true, sense_index: 0, fast_from: 2200, fast_to: u16::MAX });
}
