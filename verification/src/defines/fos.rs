use vstd::prelude::*;

verus! {

// Message kinds of the engine's `say` calls.

pub const SAY_NORM: u32 = 1;
pub const SAY_NORM_ON_HEAD: u32 = 2;
pub const SAY_SHOUT: u32 = 3;
pub const SAY_SHOUT_ON_HEAD: u32 = 4;
pub const SAY_EMOTE: u32 = 5;
pub const SAY_EMOTE_ON_HEAD: u32 = 6;
pub const SAY_WHISP: u32 = 7;
pub const SAY_WHISP_ON_HEAD: u32 = 8;
pub const SAY_SOCIAL: u32 = 9;
pub const SAY_RADIO: u32 = 10;
pub const SAY_NETMSG: u32 = 11;
pub const SAY_DIALOG: u32 = 12;
pub const SAY_APPEND: u32 = 13;
pub const SAY_ENCOUNTER_ANY: u32 = 14;
pub const SAY_ENCOUNTER_RT: u32 = 15;
pub const SAY_ENCOUNTER_TB: u32 = 16;
pub const SAY_FIX_RESULT: u32 = 17;
pub const SAY_DIALOGBOX_TEXT: u32 = 18;
/// The first of the dialog box buttons; button `b` is `SAY_DIALOGBOX_BUTTON + b`.
pub const SAY_DIALOGBOX_BUTTON: u32 = 19;
pub const SAY_SAY_TITLE: u32 = 39;
pub const SAY_SAY_TEXT: u32 = 40;
pub const SAY_FLASH_WINDOW: u32 = 41;

/// Number of dialog box buttons.
pub const SAY_DIALOGBOX_BUTTON_COUNT: u32 = 20;

// Critter conditions.

pub const COND_LIFE: u8 = 1;
pub const COND_KNOCKOUT: u8 = 2;
pub const COND_DEAD: u8 = 3;

// Access levels.

pub const ACCESS_CLIENT: u32 = 0;
pub const ACCESS_TESTER: u32 = 1;
pub const ACCESS_MODER: u32 = 2;
pub const ACCESS_ADMIN: u32 = 3;

} // verus!
