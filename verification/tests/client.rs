use fonline_tnf::client::{
    auth_link, avatars_of, critter_to_avatar, disconnect_from_overlay, dll_finish, finish, is_player, link_to_open,
    starts_with, web_link, BridgeCommand, SpritePlace,
};
use fonline_tnf::critter::PARAMS_COUNT;
use fonline_tnf::engine::critter::CritterCl;
use fonline_tnf::overlay::avatar::{Avatar, Char, Position};
use fonline_tnf::params::raw_param::{QST_CHAR_SECRET, QST_CHAR_VER};

fn critter(id: u32, ver: i32, secret: i32, hex_x: u16, hex_y: u16) -> CritterCl {
    let mut params = vec![0i32; PARAMS_COUNT];
    params[QST_CHAR_VER as usize] = ver;
    params[QST_CHAR_SECRET as usize] = secret;
    CritterCl { id, hex_x, hex_y, params }
}

fn sprites() -> Vec<SpritePlace> {
    vec![
        SpritePlace { hex_x: 1, hex_y: 1, top: Some(Position { x: 10, y: 20 }) },
        SpritePlace { hex_x: 2, hex_y: 2, top: None },
        SpritePlace { hex_x: 1, hex_y: 1, top: Some(Position { x: 99, y: 99 }) },
        SpritePlace { hex_x: 3, hex_y: 3, top: Some(Position { x: 30, y: 40 }) },
    ]
}

#[test]
fn players_have_low_ids() {
    assert!(is_player(&critter(4_999_999, 0, 0, 0, 0)));
    assert!(!is_player(&critter(5_000_000, 0, 0, 0, 0)));
}

#[test]
fn avatar_needs_character_and_sprite() {
    let s = sprites();
    let a = critter_to_avatar(&critter(1, 2, 3, 1, 1), &s);
    assert!(a == Some(Avatar { char: Char { id: 1, ver: 2, secret: 3 }, pos: Position { x: 10, y: 20 } }));
    assert!(critter_to_avatar(&critter(1, 0, 3, 1, 1), &s).is_none());
    assert!(critter_to_avatar(&critter(1, 2, 0, 1, 1), &s).is_none());
    assert!(critter_to_avatar(&critter(1, 2, 3, 2, 2), &s).is_none());
    assert!(critter_to_avatar(&critter(1, 2, 3, 9, 9), &s).is_none());
}

#[test]
fn avatars_of_players_only() {
    let critters = vec![
        critter(1, 2, 3, 1, 1),
        critter(6_000_000, 2, 3, 3, 3),
        critter(2, 0, 3, 3, 3),
        critter(3, 4, 5, 3, 3),
    ];
    let avatars = avatars_of(&critters, &sprites());
    assert!(
        avatars
            == vec![
                Avatar { char: Char { id: 1, ver: 2, secret: 3 }, pos: Position { x: 10, y: 20 } },
                Avatar { char: Char { id: 3, ver: 4, secret: 5 }, pos: Position { x: 30, y: 40 } },
            ]
    );
}

#[test]
fn web_links() {
    assert!(starts_with("https://x", "https://"));
    assert!(!starts_with("http", "https://"));
    assert!(web_link("http://fonline.ru"));
    assert!(web_link("https://fonline.ru"));
    assert!(!web_link("ftp://fonline.ru"));
    assert!(!web_link("file:///etc"));
}

#[test]
fn auth_key_is_little_endian_hex() {
    assert_eq!(auth_link("http://a", 1, 0, 0), "http://a?auth=010000000000000000000000");
    assert_eq!(auth_link("http://a", 0, 0x0A0B0C0D, -1), "http://a?auth=000000000D0C0B0AFFFFFFFF");
    assert_eq!(auth_link("http://a", 0, 1, 0), "http://a");
    assert_eq!(auth_link("http://a", 0, 0, 0), "http://a");
}

#[test]
fn links_to_open() {
    assert_eq!(link_to_open("https://b", 0, 2, 3), Some(String::from("https://b?auth=000000000200000003000000")));
    assert_eq!(link_to_open("javascript:x", 1, 1, 1), None);
}

#[test]
fn bridge_commands() {
    assert!(finish() == BridgeCommand::Finish { wait: false });
    assert!(disconnect_from_overlay(true) == BridgeCommand::Finish { wait: true });
    dll_finish();
}

use fonline_tnf::client::{hide_overlay, message_in};
use fonline_tnf::overlay::bridge::MsgIn;

#[test]
fn messages_for_the_overlay() {
    assert!(matches!(hide_overlay(true), MsgIn::OverlayHide(true)));
    match message_in(String::from("hi"), 1, 7, 300, None, true) {
        MsgIn::Message(m) => {
            assert_eq!(m.text, "hi");
            assert_eq!((m.say_type, m.cr_id, m.delay, m.masked), (1, 7, 300, true));
            assert!(m.name.is_none());
        }
        _ => panic!("expected a chat line"),
    }
}
