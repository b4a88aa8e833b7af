use fonline_tnf::defines::fos::{SAY_EMOTE, SAY_NORM, SAY_RADIO, SAY_SHOUT, SAY_WHISP};
use fonline_tnf::overlay::avatar::{Avatar, AvatarWindow, Char, Position, WindowAction};
use fonline_tnf::overlay::bridge::{take_line, BridgeAction, BridgeState, MsgIn};
use fonline_tnf::overlay::chat::{Chat, ChatRow, Message};
use fonline_tnf::overlay::color::{pseudo_random, random_color, Hsl};
use fonline_tnf::overlay::emote::auto_emote;
use fonline_tnf::overlay::geometry::{Bar, ImageData, Rect};
use fonline_tnf::overlay::say_type::{rgb_channels, SayType};
use fonline_tnf::overlay::windowing::Windowing;

fn emoted(text: &str) -> String {
    let mut s = String::from(text);
    auto_emote(&mut s);
    s
}

#[test]
fn auto_emote_marks_star_parts() {
    assert_eq!(emoted("hello *waves* there"), "hello **waves** there");
    assert_eq!(emoted("**a**"), "**a**");
    assert_eq!(emoted("a*b*c*d"), "a**b**c**d**");
    assert_eq!(emoted("*"), "");
    assert_eq!(emoted("no stars"), "no stars");
    assert_eq!(emoted(""), "");
    assert_eq!(emoted("***x"), "x");
}

#[test]
fn say_type_from_code() {
    assert!(SayType::from(SAY_NORM as i32) == SayType::Normal);
    assert!(SayType::from(SAY_SHOUT as i32) == SayType::Shout);
    assert!(SayType::from(SAY_EMOTE as i32) == SayType::Emote);
    assert!(SayType::from(SAY_WHISP as i32) == SayType::Whisper);
    assert!(SayType::from(SAY_RADIO as i32) == SayType::Radio);
    assert!(SayType::from(-1) == SayType::Unknown);
    assert!(SayType::from(2) == SayType::Unknown);
}

#[test]
fn say_type_formats_text() {
    assert_eq!(SayType::Shout.format("hi there"), "!!!HI THERE!!!");
    assert_eq!(SayType::Emote.format("smiles"), "**smiles**");
    assert_eq!(SayType::Whisper.format("PSST Ты"), "...psst ты...");
    assert_eq!(SayType::Radio.format("over"), "..over..");
    assert_eq!(SayType::Normal.format("hello"), "hello");
    assert_eq!(SayType::Unknown.format("?"), "?");
    let mut s = String::from("Bob: ");
    SayType::Shout.push_str(&mut s, "привет");
    assert_eq!(s, "Bob: !!!ПРИВЕТ!!!");
}

#[test]
fn say_type_action_and_color() {
    assert_eq!(SayType::Normal.action(), Some("(говорит)"));
    assert_eq!(SayType::Shout.action(), Some("(кричит)"));
    assert_eq!(SayType::Whisper.action(), Some("(шепчет)"));
    assert_eq!(SayType::Emote.action(), None);
    assert_eq!(SayType::Normal.color(), 0xF8F993);
    assert_eq!(SayType::Unknown.color(), 0x555555);
    assert_eq!(rgb_channels(0xF8F993), (0xF8, 0xF9, 0x93));
}

#[test]
fn pseudo_random_values() {
    assert_eq!(pseudo_random(0), 4102708683);
    assert_eq!(pseudo_random(1), 3272714200);
    assert_eq!(pseudo_random(12345), 1317817008);
}

#[test]
fn random_color_values() {
    let c = random_color(0);
    assert!(c.normal == Hsl { h: 251, s: 68, l: 38 });
    assert!(c.darker == Hsl { h: 251, s: 68, l: 28 });
    assert!(c.lighter == Hsl { h: 251, s: 68, l: 48 });
    let c = random_color(12345);
    assert!(c.normal == Hsl { h: 40, s: 70, l: 40 });
}

fn message(cr_id: u32, say_type: u32, text: &str, name: Option<&str>) -> Message {
    Message {
        text: String::from(text),
        say_type: say_type as i32,
        cr_id,
        delay: 3000,
        name: name.map(String::from),
        masked: false,
    }
}

#[test]
fn chat_groups_lines_of_one_speaker() {
    let mut chat = Chat::new();
    for _ in 0..11 {
        chat.push_message(message(1, SAY_NORM, "hi", Some("Bob")));
    }
    chat.push_message(message(1, SAY_SHOUT, "HEY", Some("Bob")));
    chat.push_message(message(2, SAY_NORM, "yo", None));
    let rows = chat.rows(false);
    assert_eq!(rows.len(), 13);
    assert!(rows[0] == ChatRow { index: 0, header: true, separator: false });
    for i in 1..10 {
        assert!(rows[i] == ChatRow { index: i, header: false, separator: false });
    }
    assert!(rows[10] == ChatRow { index: 10, header: true, separator: true });
    assert!(rows[11] == ChatRow { index: 11, header: true, separator: true });
    assert!(rows[12] == ChatRow { index: 12, header: true, separator: true });
}

#[test]
fn chat_filter_and_copy() {
    let mut chat = Chat::new();
    chat.push_message(message(1, SAY_SHOUT, "hi", Some("Bob")));
    chat.push_message(message(2, SAY_WHISP, "Psst", None));
    assert_eq!(chat.copy_text(false), "Bob: !!!HI!!!\n???: ...psst...\n");
    chat.pick_speaker(1);
    chat.pick_speaker(1);
    assert_eq!(chat.filter.names.len(), 1);
    assert_eq!(chat.filter.names[0].name, "???");
    assert!(chat.filter.has_cr_id(2));
    assert!(!chat.filter.has_cr_id(1));
    assert_eq!(chat.copy_text(false), "???: ...psst...\n");
    // Alt shows every line.
    assert_eq!(chat.copy_text(true), "Bob: !!!HI!!!\n???: ...psst...\n");
    let rows = chat.rows(false);
    assert_eq!(rows.len(), 1);
    assert!(rows[0] == ChatRow { index: 1, header: true, separator: false });
    chat.toggle_filter_add();
    assert_eq!(chat.rows(false).len(), 2);
    chat.remove_filter_name(0);
    assert_eq!(chat.filter.names.len(), 0);
    chat.clear();
    assert_eq!(chat.copy_text(false), "");
}

#[test]
fn chat_avatar_sizes_cycle() {
    let mut chat = Chat::new();
    assert_eq!(chat.avatars_size(), 64);
    let sizes: Vec<u16> = (0..5).map(|_| chat.next_avatars_size()).collect();
    assert_eq!(sizes, vec![80, 96, 112, 128, 16]);
}

fn avatar(x: i32, y: i32) -> Avatar {
    Avatar { char: Char { id: 7, ver: 1, secret: 2 }, pos: Position { x, y } }
}

#[test]
fn avatar_window_appears_over_its_character() {
    let rect = Rect::new(100, 200, 800, 600);
    let mut w = AvatarWindow::new();
    assert!(w.needs_texture(avatar(0, 0).char));
    w.set_texture(avatar(0, 0).char);
    assert!(!w.needs_texture(avatar(0, 0).char));
    let (actions, appeared) = w.place(avatar(300, 300).pos, rect, 5, 0);
    assert!(appeared);
    assert!(actions == vec![WindowAction::SetPosition(100 + 268, 200 + 220), WindowAction::Show, WindowAction::Draw]);
    // Same place, already shown: nothing to do.
    let (actions, appeared) = w.place(avatar(300, 300).pos, rect, 6, 0);
    assert!(!appeared);
    assert!(actions.is_empty());
    // Off the game window: hidden.
    let (actions, appeared) = w.place(avatar(10, 300).pos, rect, 7, 0);
    assert!(!appeared);
    assert!(actions == vec![WindowAction::Hide]);
    assert_eq!(w.last_frame, 7);
}

#[test]
fn avatar_window_waits_while_words_are_shown() {
    let rect = Rect::new(0, 0, 800, 600);
    let mut w = AvatarWindow::new();
    w.set_texture(avatar(0, 0).char);
    let _ = w.place(avatar(300, 300).pos, rect, 1, 0);
    assert!(w.hide_for_ms(500, 1000) == vec![WindowAction::Hide]);
    assert_eq!(w.hide_until, Some(1500));
    let (actions, keep) = w.maintain(2, false, 1200);
    assert!(keep && actions.is_empty());
    let (actions, keep) = w.maintain(3, false, 1501);
    assert!(keep);
    assert!(actions == vec![WindowAction::Show, WindowAction::Draw]);
    assert_eq!(w.hide_until, None);
}

#[test]
fn avatar_window_is_dropped_after_long_absence() {
    let mut w = AvatarWindow::new();
    w.last_frame = 10;
    let (_, keep) = w.maintain(10 + 7200, true, 0);
    assert!(keep);
    let (_, keep) = w.maintain(10 + 7201, true, 0);
    assert!(!keep);
}

#[test]
fn windowing_drops_stale_windows() {
    let mut windowing: Windowing<&str> = Windowing::new();
    windowing.insert(1, "first");
    windowing.insert(2, "second");
    assert_eq!(windowing.find(2), Some(1));
    assert_eq!(windowing.find(3), None);
    windowing.windows[1].state.last_frame = 9000;
    let actions = windowing.maintain(9000, true, 0);
    assert_eq!(windowing.windows.len(), 1);
    assert_eq!(windowing.windows[0].char, 2);
    assert_eq!(windowing.windows[0].window, "second");
    assert_eq!(actions.len(), 1);
    assert!(actions[0].is_empty());
}

#[test]
fn windowing_keeps_windows_in_character_order() {
    let mut windowing: Windowing<&str> = Windowing::new();
    assert_eq!(windowing.insert(5, "five"), 0);
    assert_eq!(windowing.insert(3, "three"), 0);
    assert_eq!(windowing.insert(9, "nine"), 2);
    assert_eq!(windowing.insert(4, "four"), 1);
    let chars: Vec<u32> = windowing.windows.iter().map(|s| s.char).collect();
    assert_eq!(chars, vec![3, 4, 5, 9]);
    assert_eq!(windowing.find(5), Some(2));
    assert_eq!(windowing.windows[3].window, "nine");
}

#[test]
fn bridge_messages_update_state() {
    let mut state = BridgeState { hidden: false, dirty: false, avatars: vec![] };
    let msgs = vec![
        MsgIn::UpdateAvatars(vec![avatar(1, 1)]),
        MsgIn::Message(message(3, SAY_NORM, "a *long* line with many letters", Some("Ann"))),
        MsgIn::Message(message(4, SAY_RADIO, "not kept", None)),
        MsgIn::OverlayHide(true),
        MsgIn::UpdateAvatars(vec![avatar(2, 2)]),
    ];
    let actions = state.receive(msgs);
    assert!(state.hidden);
    assert!(state.dirty);
    assert!(state.avatars == vec![avatar(2, 2)]);
    assert_eq!(actions.len(), 2);
    match &actions[0] {
        BridgeAction::HideAvatar { cr_id, delay } => assert_eq!((*cr_id, *delay), (3, 3000)),
        _ => panic!("expected the avatar to hide"),
    }
    match &actions[1] {
        BridgeAction::PushChat(m) => assert_eq!(m.text, "a **long** line with many letters"),
        _ => panic!("expected a chat line"),
    }
}

#[test]
fn bridge_same_avatars_do_not_redraw() {
    let mut state = BridgeState { hidden: false, dirty: false, avatars: vec![avatar(1, 1)] };
    let actions = state.receive(vec![MsgIn::UpdateAvatars(vec![avatar(1, 1)])]);
    assert!(actions.is_empty());
    assert!(!state.dirty);
    let _ = state.receive(vec![MsgIn::UpdateAvatars(vec![avatar(5, 5)])]);
    assert!(state.dirty);
}

#[test]
fn take_line_keeps_short_lines_without_hiding() {
    match take_line(message(1, SAY_EMOTE, "*x*", None)) {
        Some((m, long)) => {
            assert_eq!(m.text, "*x*");
            assert!(!long);
        },
        None => panic!("emotes are kept"),
    }
    assert!(take_line(message(1, SAY_RADIO, "x", None)).is_none());
}

#[test]
fn geometry_values() {
    let r = Rect::new(-1, 2, 3, 4);
    assert!(r == Rect { x: -1, y: 2, width: 3, height: 4 });
    let image = ImageData::new(vec![0u8; 12], 2, 2);
    assert_eq!(image.pitch, 6);
    assert_eq!(image.bytes.len(), 12);
    let bar = Bar::new((1024, 768));
    assert_eq!(bar.sticky_pos(), Some((1024 - 90, 0)));
    assert!(bar.show_chat && bar.show_faces);
}

use fonline_tnf::overlay::state::{
    is_game_foreground, plan_redraw, rect_from_corners, resize_to, ImageStatus, OverlayState, RedrawStep, UiAction,
    UiWindowState,
};

#[test]
fn game_window_moves_and_focus() {
    let rect = rect_from_corners(10, 20, 810, 620);
    assert!(rect == Rect { x: 10, y: 20, width: 800, height: 600 });
    let mut state = OverlayState::new(rect);
    state.dirty = false;
    assert!(state.update_game_window(Some(rect), true));
    assert!(!state.dirty);
    let moved = Rect { x: 11, ..rect };
    assert!(state.update_game_window(Some(moved), true));
    assert!(state.dirty && state.rect == moved);
    state.dirty = false;
    state.hidden = true;
    assert!(state.update_game_window(Some(rect), true));
    assert!(!state.dirty);
    assert!(state.update_game_window(Some(rect), false));
    assert!(state.dirty && !state.is_foreground);
    assert!(!state.update_game_window(None, true));
    assert!(!state.is_foreground);
}

#[test]
fn frames_and_chat_frames() {
    let mut state = OverlayState::new(Rect::new(0, 0, 1, 1));
    assert!(state.chat_frame());
    state.update();
    assert_eq!(state.frame, 1);
    assert!(!state.chat_frame());
}

#[test]
fn foreground_detection() {
    assert!(!is_game_foreground(0, 0, &vec![0], Some(0)));
    assert!(is_game_foreground(5, 5, &vec![], None));
    assert!(is_game_foreground(7, 5, &vec![6, 7], None));
    assert!(is_game_foreground(8, 5, &vec![6, 7], Some(8)));
    assert!(!is_game_foreground(9, 5, &vec![6, 7], Some(8)));
}

#[test]
fn redraw_places_loaded_and_requests_one_missing() {
    let state = OverlayState::new(Rect::new(0, 0, 800, 600));
    let avatars = vec![avatar(1, 1), Avatar { char: Char { id: 8, ver: 1, secret: 1 }, ..avatar(2, 2) }, avatar(3, 3), avatar(4, 4)];
    let images = vec![ImageStatus::Missing, ImageStatus::Loaded, ImageStatus::Missing, ImageStatus::Failed];
    let (steps, free) = plan_redraw(&state, &avatars, &images, true);
    assert!(steps == vec![RedrawStep::Request(avatars[0].char), RedrawStep::Place(1)]);
    assert!(!free);
    let (steps, free) = plan_redraw(&state, &avatars, &images, false);
    assert!(steps == vec![RedrawStep::Place(1)]);
    assert!(!free);
    let mut hidden = state;
    hidden.hidden = true;
    let (steps, free) = plan_redraw(&hidden, &avatars, &images, true);
    assert!(steps.is_empty() && free);
}

#[test]
fn ui_window_follows_focus_and_resizes() {
    assert_eq!(resize_to(100, 100), (128, 128));
    assert_eq!(resize_to(-100, 0), (32, 64));
    assert_eq!(resize_to(5000, 5000), (2048, 2048));
    let mut ui = UiWindowState::new((480, 640));
    ui.dragging = true;
    assert!(ui.draw(false) == (Some(UiAction::Hide), false));
    assert!(ui.hidden && !ui.dragging);
    assert!(ui.draw(false) == (None, false));
    assert!(ui.draw(true) == (Some(UiAction::Show), true));
    assert!(ui.draw(true) == (None, true));
    let rect = Rect::new(100, 50, 800, 600);
    assert!(ui.settle(Some((480, 640)), Some((1, 1)), rect) == None);
    assert!(ui.settle(Some((512, 640)), None, rect) == Some(UiAction::SetSize(512, 640)));
    assert_eq!(ui.last_size, (512, 640));
    assert!(ui.settle(None, Some((710, 0)), rect) == Some(UiAction::SetPosition(810, 50)));
    assert!(ui.settle(None, None, rect) == None);
}

use fonline_tnf::overlay::state::ImageCache;

#[test]
fn image_cache_records_answers() {
    let a = Char { id: 1, ver: 1, secret: 1 };
    let b = Char { id: 2, ver: 1, secret: 1 };
    let mut cache = ImageCache::new();
    assert!(cache.status(a) == ImageStatus::Missing);
    assert!(!cache.record(a, false));
    assert!(cache.status(a) == ImageStatus::Failed);
    assert!(cache.record(b, true));
    assert!(cache.record(a, true));
    assert!(cache.status(a) == ImageStatus::Loaded);
    assert!(cache.status(b) == ImageStatus::Loaded);
    assert_eq!(cache.entries.len(), 2);
}

fn unstarred(s: &str) -> String {
    s.chars().filter(|c| *c != '*').collect()
}

#[test]
fn auto_emote_is_idempotent_and_changes_only_stars() {
    for text in ["hello *waves* there", "**a**", "a*b*c*d", "***x", "*a**b*", "****", "x*", "plain", ""] {
        let once = emoted(text);
        assert_eq!(emoted(&once), once);
        assert_eq!(unstarred(&once), unstarred(text));
    }
}

#[test]
fn pseudo_random_tells_numbers_apart() {
    let values: Vec<u32> = (0..1000).map(pseudo_random).collect();
    for i in 0..values.len() {
        for j in i + 1..values.len() {
            assert_ne!(values[i], values[j]);
        }
    }
}
