use fonline_tnf::critter::PARAMS_COUNT;
use fonline_tnf::defines::fos::{ACCESS_ADMIN, ACCESS_MODER, ACCESS_TESTER, COND_DEAD, COND_LIFE};
use fonline_tnf::draw_geometry::Hex;
use fonline_tnf::engine::critter::Critter;
use fonline_tnf::engine::string::{
    check_c_string, cp1251_to_utf8, map_chars, try_cp1251_to_utf8, try_utf8_to_cp1251, utf8_to_cp1251,
    MAP_CHAR_1251, MAP_CHAR_UTF,
};
use fonline_tnf::params::raw_param::{QST_VISION, ST_ACCESS_LEVEL};

fn critter(access: u32, vision: i32) -> Critter {
    let mut params = vec![0i32; PARAMS_COUNT];
    params[ST_ACCESS_LEVEL as usize] = access as i32;
    params[QST_VISION as usize] = vision;
    Critter { id: 12, hex_x: 3, hex_y: 4, cond: COND_LIFE, critter_is_npc: false, is_not_valid: false, params }
}

#[test]
fn engine_critter_queries() {
    let mut cr = critter(ACCESS_ADMIN, 1);
    assert!(cr.hex() == Hex { x: 3, y: 4 });
    assert!(!cr.is_dead());
    assert!(cr.is_player());
    assert!(!cr.is_npc());
    cr.cond = COND_DEAD;
    cr.critter_is_npc = true;
    assert!(cr.is_dead());
    assert!(cr.is_npc());
    assert!(!cr.is_player());
}

#[test]
fn gm_vision_needs_rights_and_switch() {
    assert!(critter(ACCESS_MODER, 1).have_gm_vision());
    assert!(critter(ACCESS_ADMIN, 5).have_gm_vision());
    assert!(!critter(ACCESS_TESTER, 1).have_gm_vision());
    assert!(!critter(ACCESS_ADMIN, 0).have_gm_vision());
    // A negative value reads as a large unsigned one.
    assert!(critter(ACCESS_ADMIN, -1).have_gm_vision());
}

#[test]
fn map_chars_swaps_suits() {
    assert_eq!(map_chars("aЌbђ", &MAP_CHAR_1251, &MAP_CHAR_UTF), "a♣b♠");
    assert_eq!(map_chars("a♦♥", &MAP_CHAR_UTF, &MAP_CHAR_1251), "aЋЏ");
    assert_eq!(map_chars("plain", &MAP_CHAR_UTF, &MAP_CHAR_1251), "plain");
}

#[test]
fn cp1251_decodes_cyrillic_and_suits() {
    // "При" and the font's club.
    assert_eq!(cp1251_to_utf8(&[0xCF, 0xF0, 0xE8, 0x20, 0x8D]), "При ♣");
    assert_eq!(cp1251_to_utf8(b"ascii"), "ascii");
    assert_eq!(try_cp1251_to_utf8(&[0x8E, 0x8F, 0x90]), Some(String::from("♦♥♠")));
}

#[test]
fn cp1251_refuses_other_encodings_and_malformed_bytes() {
    // A UTF-8 byte order mark switches the decoder to UTF-8.
    assert_eq!(try_cp1251_to_utf8(&[0xEF, 0xBB, 0xBF, 0x41]), None);
    // So does a UTF-16 one.
    assert_eq!(try_cp1251_to_utf8(&[0xFF, 0xFE, 0x41, 0x00]), None);
    // Every other byte has a character in Windows-1251.
    assert_eq!(try_cp1251_to_utf8(&[0x41, 0x98]), Some(String::from("A\u{98}")));
}

#[test]
fn utf8_encodes_for_the_engine() {
    assert_eq!(utf8_to_cp1251("При ♣\0"), vec![0xCF, 0xF0, 0xE8, 0x20, 0x8D, 0x00]);
    assert_eq!(try_utf8_to_cp1251("ok\0"), Some(vec![b'o', b'k', 0]));
    // No closing zero, a zero inside, or a character without a byte.
    assert_eq!(try_utf8_to_cp1251("ok"), None);
    assert_eq!(try_utf8_to_cp1251("o\0k\0"), None);
    assert_eq!(try_utf8_to_cp1251("中\0"), None);
}

#[test]
fn c_strings() {
    assert!(check_c_string(&vec![1, 2, 0]));
    assert!(check_c_string(&vec![0]));
    assert!(!check_c_string(&vec![]));
    assert!(!check_c_string(&vec![1, 0, 2, 0]));
    assert!(!check_c_string(&vec![1, 2]));
}

#[test]
fn suits_round_trip() {
    let text = "Туз ♣ и дама ♥";
    let for_engine = map_chars(text, &MAP_CHAR_UTF, &MAP_CHAR_1251);
    assert_eq!(for_engine, "Туз Ќ и дама Џ");
    assert_eq!(map_chars(&for_engine, &MAP_CHAR_1251, &MAP_CHAR_UTF), text);
}

use fonline_tnf::engine::state::StateSingleton;

#[test]
fn dll_state_lives_between_load_and_unload() {
    let mut state: StateSingleton<u32> = StateSingleton::new();
    assert!(!state.is_alive());
    state.create(7);
    assert!(state.is_alive());
    assert_eq!(*state.with(), 7);
    state.destroy();
    assert!(!state.is_alive());
}

use fonline_tnf::engine::critter::{client_script_target, critter_script_target, script_outcome, ServerAPIError};

#[test]
fn scripts_need_valid_players() {
    let mut cr = critter(ACCESS_ADMIN, 0);
    assert!(client_script_target(&cr) == Ok(()));
    assert!(critter_script_target(Some(&cr)) == Ok(()));
    cr.critter_is_npc = true;
    assert!(client_script_target(&cr) == Err(ServerAPIError::CritterIsNotPlayer));
    cr.is_not_valid = true;
    assert!(client_script_target(&cr) == Err(ServerAPIError::CritterIsNotValid));
    assert!(critter_script_target(Some(&cr)) == Err(ServerAPIError::CritterIsNotValid));
    assert!(critter_script_target(None) == Ok(()));
    assert!(script_outcome(false, ServerAPIError::RunClientScriptFailed) == Err(ServerAPIError::RunClientScriptFailed));
    assert!(script_outcome(true, ServerAPIError::RunClientScriptFailed) == Ok(()));
}
