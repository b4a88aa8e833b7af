use vstd::prelude::*;

verus! {

/// The first map of the utility maps.
pub const MAP_UTILITY_START: u16 = 92;
/// The range of NPC prototypes that sense in the fast way.
pub const NPC_FAST_FROM: u16 = 2200;
pub const NPC_FAST_TO: u16 = 65535;

pub const DEFAULT_BONUS: u32 = 10;
pub const DEFAULT_PERCEPTION: u32 = 5;

pub const VIEW_BONUS: u32 = 10;
pub const VIEW_PERCEPTION: u32 = 5;

pub const HEAR_BONUS: u32 = 5;
pub const HEAR_BONUS_NPC: u32 = 25;
pub const HEAR_PERCEPTION: u32 = 2;

/// Which NPCs sense the cheap way, and with which of the senses.
#[derive(Debug, Clone, Copy, PartialEq, Eq, Structural)]
pub struct NpcFast {
    pub enable: bool,
    pub sense_index: usize,
    pub fast_from: u16,
    pub fast_to: u16,
}

impl Default for NpcFast {
    fn default() -> (r: NpcFast)
        ensures
            r == (NpcFast { enable: true, sense_index: 0, fast_from: NPC_FAST_FROM, fast_to: NPC_FAST_TO }),
    {
        NpcFast { enable: true, sense_index: 0, fast_from: NPC_FAST_FROM, fast_to: NPC_FAST_TO }
    }
}

/// How far a critter senses: a flat bonus and a rate per point of
/// perception.
#[derive(Debug, Clone, Copy, PartialEq, Eq, Structural)]
pub struct CritterRates {
    pub basic_bonus: u32,
    pub basic_perception_rate: u32,
}

impl Default for CritterRates {
    fn default() -> (r: CritterRates)
        ensures
            r == (CritterRates { basic_bonus: DEFAULT_BONUS, basic_perception_rate: DEFAULT_PERCEPTION }),
    {
        CritterRates { basic_bonus: DEFAULT_BONUS, basic_perception_rate: DEFAULT_PERCEPTION }
    }
}

impl CritterRates {
    /// How NPCs hear by default.
    pub fn default_hear_npc() -> (r: CritterRates)
        ensures
            r == (CritterRates { basic_bonus: HEAR_BONUS_NPC, basic_perception_rate: HEAR_PERCEPTION }),
    {
        CritterRates { basic_bonus: HEAR_BONUS_NPC, basic_perception_rate: HEAR_PERCEPTION }
    }

    /// How players hear by default.
    pub fn default_hear_player() -> (r: CritterRates)
        ensures
            r == (CritterRates { basic_bonus: HEAR_BONUS, basic_perception_rate: HEAR_PERCEPTION }),
    {
        CritterRates { basic_bonus: HEAR_BONUS, basic_perception_rate: HEAR_PERCEPTION }
    }
}

} // verus!
