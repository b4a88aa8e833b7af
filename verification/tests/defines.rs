use fonline_tnf::critter::{Critter, Time, PARAMS_COUNT};
use fonline_tnf::defines::fos::{SAY_DIALOGBOX_BUTTON, SAY_FLASH_WINDOW, SAY_NORM, SAY_SHOUT, SAY_WHISP_ON_HEAD};
use fonline_tnf::defines::param::{CritterParam, CritterParamMut};
use fonline_tnf::defines::say::{FoDefines, Fo4Rp, Say};

#[test]
fn decode_known_codes() {
    assert_eq!(Fo4Rp::decode_say(SAY_NORM), Say::Normal);
    assert_eq!(Fo4Rp::decode_say(SAY_SHOUT), Say::Shout);
    assert_eq!(Fo4Rp::decode_say(SAY_WHISP_ON_HEAD), Say::WhisperOnHead);
    assert_eq!(Fo4Rp::decode_say(SAY_FLASH_WINDOW), Say::FlashWindow);
}

#[test]
fn decode_dialog_buttons() {
    assert_eq!(Fo4Rp::decode_say(SAY_DIALOGBOX_BUTTON), Say::DialogboxButton(0));
    assert_eq!(Fo4Rp::decode_say(SAY_DIALOGBOX_BUTTON + 19), Say::DialogboxButton(19));
    assert_eq!(Fo4Rp::decode_say(SAY_DIALOGBOX_BUTTON + 20), Say::SayTitle);
    assert_eq!(Fo4Rp::decode_say(42), Say::Unknown);
}

#[test]
fn decode_unknown_codes() {
    assert_eq!(Fo4Rp::decode_say(0), Say::Unknown);
    assert_eq!(Fo4Rp::decode_say(1000), Say::Unknown);
}

#[test]
fn critter_params_read_and_write() {
    let mut cr = Critter::new(vec![0i32; PARAMS_COUNT], Time { hour: 1, minute: 2, second: 3 });
    cr.set_param(7u16, -1);
    assert_eq!(cr.param(7u16), -1);
    assert_eq!(cr.uparam(7u16), u32::MAX);
    assert!(cr.bparam(7u16));
    assert!(!cr.bparam(8u16));
    cr.set_uparam(8u16, 3_000_000_000);
    assert_eq!(cr.param(8u16), 3_000_000_000u32 as i32);
    assert_eq!(cr.params_range(6u16..9u16), &[0, -1, 3_000_000_000u32 as i32][..]);
    assert_eq!(cr.params_range_inc(7u16, 8u16), &[-1, 3_000_000_000u32 as i32][..]);
    assert_eq!(cr.params_all().len(), PARAMS_COUNT);
}

#[test]
fn night_lasts_from_evening_to_morning() {
    let at = |hour: u16, minute: u16| Time { hour, minute, second: 0 }.is_night();
    assert!(at(6, 0));
    assert!(!at(6, 1));
    assert!(!at(18, 0));
    assert!(at(18, 1));
    assert!(at(0, 0));
}
