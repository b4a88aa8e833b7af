use vstd::prelude::*;

verus! {

// Indices into a critter's parameter array.

pub const ST_STRENGTH: u16 = 0;
pub const ST_PERCEPTION: u16 = 1;
pub const ST_ENDURANCE: u16 = 2;
pub const ST_CHARISMA: u16 = 3;
pub const ST_INTELLECT: u16 = 4;
pub const ST_AGILITY: u16 = 5;
pub const ST_LUCK: u16 = 6;
pub const ST_MAX_LIFE: u16 = 7;
pub const ST_ACTION_POINTS: u16 = 8;
pub const ST_ARMOR_CLASS: u16 = 9;
pub const ST_MELEE_DAMAGE: u16 = 10;
pub const ST_CARRY_WEIGHT: u16 = 11;
pub const ST_SEQUENCE: u16 = 12;
pub const ST_HEALING_RATE: u16 = 13;
pub const ST_CRITICAL_CHANCE: u16 = 14;
pub const ST_MAX_CRITICAL: u16 = 15;
pub const ST_NORMAL_ABSORB: u16 = 16;
pub const ST_LASER_ABSORB: u16 = 17;
pub const ST_FIRE_ABSORB: u16 = 18;
pub const ST_PLASMA_ABSORB: u16 = 19;
pub const ST_ELECTRO_ABSORB: u16 = 20;
pub const ST_EMP_ABSORB: u16 = 21;
pub const ST_EXPLODE_ABSORB: u16 = 22;
pub const ST_NORMAL_RESIST: u16 = 23;
pub const ST_LASER_RESIST: u16 = 24;
pub const ST_FIRE_RESIST: u16 = 25;
pub const ST_PLASMA_RESIST: u16 = 26;
pub const ST_ELECTRO_RESIST: u16 = 27;
pub const ST_EMP_RESIST: u16 = 28;
pub const ST_EXPLODE_RESIST: u16 = 29;
pub const ST_RADIATION_RESISTANCE: u16 = 30;
pub const ST_POISON_RESISTANCE: u16 = 31;
pub const ST_STRENGTH_EXT: u16 = 32;
pub const ST_PERCEPTION_EXT: u16 = 33;
pub const ST_ENDURANCE_EXT: u16 = 34;
pub const ST_CHARISMA_EXT: u16 = 35;
pub const ST_INTELLECT_EXT: u16 = 36;
pub const ST_AGILITY_EXT: u16 = 37;
pub const ST_LUCK_EXT: u16 = 38;
pub const ST_MAX_LIFE_EXT: u16 = 39;
pub const ST_ACTION_POINTS_EXT: u16 = 40;
pub const ST_ARMOR_CLASS_EXT: u16 = 41;
pub const ST_MELEE_DAMAGE_EXT: u16 = 42;
pub const ST_CARRY_WEIGHT_EXT: u16 = 43;
pub const ST_SEQUENCE_EXT: u16 = 44;
pub const ST_HEALING_RATE_EXT: u16 = 45;
pub const ST_CRITICAL_CHANCE_EXT: u16 = 46;
pub const ST_MAX_CRITICAL_EXT: u16 = 47;
pub const ST_NORMAL_ABSORB_EXT: u16 = 48;
pub const ST_LASER_ABSORB_EXT: u16 = 49;
pub const ST_FIRE_ABSORB_EXT: u16 = 50;
pub const ST_PLASMA_ABSORB_EXT: u16 = 51;
pub const ST_ELECTRO_ABSORB_EXT: u16 = 52;
pub const ST_EMP_ABSORB_EXT: u16 = 53;
pub const ST_EXPLODE_ABSORB_EXT: u16 = 54;
pub const ST_NORMAL_RESIST_EXT: u16 = 55;
pub const ST_LASER_RESIST_EXT: u16 = 56;
pub const ST_FIRE_RESIST_EXT: u16 = 57;
pub const ST_PLASMA_RESIST_EXT: u16 = 58;
pub const ST_ELECTRO_RESIST_EXT: u16 = 59;
pub const ST_EMP_RESIST_EXT: u16 = 60;
pub const ST_EXPLODE_RESIST_EXT: u16 = 61;
pub const ST_RADIATION_RESISTANCE_EXT: u16 = 62;
pub const ST_POISON_RESISTANCE_EXT: u16 = 63;
pub const ST_CURRENT_HP: u16 = 72;
pub const ST_CURRENT_AP: u16 = 75;
pub const ST_MAX_MOVE_AP: u16 = 95;
pub const ST_MOVE_AP: u16 = 96;
pub const ST_APREGEN: u16 = 97;
pub const ST_TURN_BASED_AC: u16 = 98;
pub const ST_ACCESS_LEVEL: u16 = 126;
pub const QST_CHAR_VER: u16 = 188;
pub const QST_CHAR_SECRET: u16 = 189;
pub const QST_VISION: u16 = 190;
pub const SK_SMALL_GUNS: u16 = 200;
pub const TO_BATTLE: u16 = 238;
pub const PE_ADRENALINE_RUSH: u16 = 380;
pub const DAMAGE_EYE: u16 = 502;
pub const TRAIT_SMALL_FRAME: u16 = 552;
pub const TRAIT_NIGHT_PERSON: u16 = 565;

/// Number of parameters.
pub const PARAMS_COUNT: u16 = 1000;

} // verus!
