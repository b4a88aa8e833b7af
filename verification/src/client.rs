use vstd::prelude::*;
use crate::defines::param::CritterParam;
use crate::engine::critter::CritterCl;
use crate::overlay::avatar::{Avatar, Char, Position};
use crate::overlay::bridge::MsgIn;
use crate::overlay::chat::Message;
use crate::params::raw_param::{QST_CHAR_SECRET, QST_CHAR_VER};
use crate::text::{chars_of, push_char};

verus! {

/// Critters with a lower id are players; the others are NPCs.
pub const FIRST_NPC_ID: u32 = 5_000_000;

pub fn is_player(cr: &CritterCl) -> (r: bool)
    ensures
        r == (cr.id < FIRST_NPC_ID),
{
    cr.id < FIRST_NPC_ID
}

/// A sprite of the map, by the hexagon it stands on and, when the engine
/// knows its picture, the top of it on screen.
#[derive(Debug, Clone, Copy)]
pub struct SpritePlace {
    pub hex_x: i32,
    pub hex_y: i32,
    pub top: Option<Position>,
}

/// The character that a critter plays, when its picture can be asked for:
/// both its version and its secret are set.
pub open spec fn spec_char_of(cr: CritterCl) -> Option<Char> {
    let ver = cr.params@[QST_CHAR_VER as int] as u32;
    let secret = cr.params@[QST_CHAR_SECRET as int] as u32;
    if ver == 0 || secret == 0 {
        None
    } else {
        Some(Char { id: cr.id, ver, secret })
    }
}

/// The first sprite on the hexagon, if any.
pub open spec fn first_sprite_at(sprites: Seq<SpritePlace>, hex_x: i32, hex_y: i32) -> Option<int> {
    if exists|i: int| 0 <= i < sprites.len() && sprites[i].hex_x == hex_x && sprites[i].hex_y == hex_y {
        Some(choose|i: int|
            0 <= i < sprites.len() && sprites[i].hex_x == hex_x && sprites[i].hex_y == hex_y && forall|j: int|
                0 <= j < i ==> !(sprites[j].hex_x == hex_x && sprites[j].hex_y == hex_y))
    } else {
        None
    }
}

/// The avatar of a critter: its character, over the top of the first sprite
/// on its hexagon.
pub open spec fn spec_critter_to_avatar(cr: CritterCl, sprites: Seq<SpritePlace>) -> Option<Avatar> {
    match spec_char_of(cr) {
        None => None,
        Some(char) => match first_sprite_at(sprites, cr.hex_x as i32, cr.hex_y as i32) {
            None => None,
            Some(i) => match sprites[i].top {
                None => None,
                Some(pos) => Some(Avatar { char, pos }),
            },
        },
    }
}

fn find_sprite(sprites: &Vec<SpritePlace>, hex_x: i32, hex_y: i32) -> (r: Option<usize>)
    ensures
        match r {
            Some(i) => i < sprites@.len() && first_sprite_at(sprites@, hex_x, hex_y) == Some(i as int),
            None => first_sprite_at(sprites@, hex_x, hex_y) is None,
        },
{
    let mut i: usize = 0;
    while i < sprites.len()
        invariant
            i <= sprites@.len(),
            forall|j: int| 0 <= j < i ==> !(sprites@[j].hex_x == hex_x && sprites@[j].hex_y == hex_y),
        decreases sprites@.len() - i,
    {
        if sprites[i].hex_x == hex_x && sprites[i].hex_y == hex_y {
            let ghost w = i as int;
            proof {
                let c = choose|k: int|
                    0 <= k < sprites@.len() && sprites@[k].hex_x == hex_x && sprites@[k].hex_y == hex_y && forall|j: int|
                        0 <= j < k ==> !(sprites@[j].hex_x == hex_x && sprites@[j].hex_y == hex_y);
                assert(0 <= w < sprites@.len() && sprites@[w].hex_x == hex_x && sprites@[w].hex_y == hex_y);
                if c < w {
                } else if c > w {
                    assert(!(sprites@[w].hex_x == hex_x && sprites@[w].hex_y == hex_y));
                }
            }
            return Some(i);
        }
        i = i + 1;
    }
    None
}

pub fn critter_to_avatar(cr: &CritterCl, sprites: &Vec<SpritePlace>) -> (r: Option<Avatar>)
    requires
        cr.wf(),
    ensures
        r == spec_critter_to_avatar(*cr, sprites@),
{
    let ver = cr.uparam(QST_CHAR_VER);
    let secret = cr.uparam(QST_CHAR_SECRET);
    if ver == 0 || secret == 0 {
        return None;
    }
    let hex_x = cr.hex_x as i32;
    let hex_y = cr.hex_y as i32;
    let i = find_sprite(sprites, hex_x, hex_y)?;
    let pos = sprites[i].top?;
    let char = Char { id: cr.id, ver, secret };
    Some(Avatar { char, pos })
}

/// The avatars of the players among the critters, in their order.
pub open spec fn spec_avatars(critters: Seq<CritterCl>, sprites: Seq<SpritePlace>) -> Seq<Avatar>
    decreases critters.len(),
{
    if critters.len() == 0 {
        Seq::empty()
    } else {
        let cr = critters.last();
        let prev = spec_avatars(critters.drop_last(), sprites);
        if cr.id < FIRST_NPC_ID {
            match spec_critter_to_avatar(cr, sprites) {
                Some(a) => prev.push(a),
                None => prev,
            }
        } else {
            prev
        }
    }
}

pub fn avatars_of(critters: &Vec<CritterCl>, sprites: &Vec<SpritePlace>) -> (r: Vec<Avatar>)
    requires
        forall|i: int| 0 <= i < critters@.len() ==> (#[trigger] critters@[i]).wf(),
    ensures
        r@ == spec_avatars(critters@, sprites@),
{
    let mut avatars: Vec<Avatar> = Vec::new();
    let mut i: usize = 0;
    assert(critters@.take(0) == Seq::<CritterCl>::empty());
    while i < critters.len()
        invariant
            i <= critters@.len(),
            forall|k: int| 0 <= k < critters@.len() ==> (#[trigger] critters@[k]).wf(),
            avatars@ == spec_avatars(critters@.take(i as int), sprites@),
        decreases critters@.len() - i,
    {
        assert(critters@.take(i + 1).drop_last() == critters@.take(i as int));
        assert(critters@.take(i + 1).last() == critters@[i as int]);
        let cr = &critters[i];
        if is_player(cr) {
            if let Some(avatar) = critter_to_avatar(cr, sprites) {
                avatars.push(avatar);
            }
        }
        i = i + 1;
    }
    assert(critters@.take(i as int) == critters@);
    avatars
}

/// Whether `s` begins with `prefix`.
pub open spec fn has_prefix(s: Seq<char>, prefix: Seq<char>) -> bool {
    prefix.len() <= s.len() && s.take(prefix.len() as int) == prefix
}

pub fn starts_with(s: &str, prefix: &str) -> (r: bool)
    ensures
        r == has_prefix(s@, prefix@),
{
    let cs = chars_of(s);
    let ps = chars_of(prefix);
    if ps.len() > cs.len() {
        return false;
    }
    let mut i: usize = 0;
    while i < ps.len()
        invariant
            cs@ == s@,
            ps@ == prefix@,
            ps@.len() <= cs@.len(),
            i <= ps@.len(),
            forall|k: int| 0 <= k < i ==> cs@[k] == ps@[k],
        decreases ps@.len() - i,
    {
        if cs[i] != ps[i] {
            assert(s@.take(prefix@.len() as int)[i as int] != prefix@[i as int]);
            return false;
        }
        i = i + 1;
    }
    assert(s@.take(prefix@.len() as int) == prefix@);
    true
}

/// Links that may be opened in the browser: web links.
pub open spec fn is_web_link(link: Seq<char>) -> bool {
    has_prefix(link, "http://"@) || has_prefix(link, "https://"@)
}

pub fn web_link(link: &str) -> (r: bool)
    ensures
        r == is_web_link(link@),
{
    starts_with(link, "http://") || starts_with(link, "https://")
}

/// An upper-case hexadecimal digit.
pub open spec fn hex_digit(n: u32) -> char {
    if n < 10 {
        (48 + n) as char
    } else {
        (55 + n) as char
    }
}

/// The little-endian bytes of a word, each as two hexadecimal digits.
pub open spec fn word_hex(w: u32) -> Seq<char> {
    let b0 = w % 0x100;
    let b1 = (w / 0x100) % 0x100;
    let b2 = (w / 0x10000) % 0x100;
    let b3 = w / 0x1000000;
    seq![
        hex_digit(b0 / 16),
        hex_digit(b0 % 16),
        hex_digit(b1 / 16),
        hex_digit(b1 % 16),
        hex_digit(b2 / 16),
        hex_digit(b2 % 16),
        hex_digit(b3 / 16),
        hex_digit(b3 % 16),
    ]
}

/// Whether a link gets the player's key: when the first part of the key is
/// set, or both others are.
pub open spec fn has_auth(p0: i32, p1: i32, p2: i32) -> bool {
    p0 != 0 || (p1 != 0 && p2 != 0)
}

/// The link with the player's key appended, as `?auth=` and the key's twelve
/// bytes in hexadecimal.
pub open spec fn spec_auth_link(link: Seq<char>, p0: i32, p1: i32, p2: i32) -> Seq<char> {
    if has_auth(p0, p1, p2) {
        link + "?auth="@ + word_hex(p0 as u32) + word_hex(p1 as u32) + word_hex(p2 as u32)
    } else {
        link
    }
}

fn push_hex_digit(s: &mut String, n: u32)
    requires
        n < 16,
    ensures
        final(s)@ == old(s)@.push(hex_digit(n)),
{
    let c: char = if n < 10 {
        (48 + n) as u8 as char
    } else {
        (55 + n) as u8 as char
    };
    push_char(s, c);
}

fn push_word_hex(s: &mut String, w: u32)
    ensures
        final(s)@ == old(s)@ + word_hex(w),
{
    let b0 = w % 0x100;
    let b1 = (w / 0x100) % 0x100;
    let b2 = (w / 0x10000) % 0x100;
    let b3 = w / 0x1000000;
    push_hex_digit(s, b0 / 16);
    push_hex_digit(s, b0 % 16);
    push_hex_digit(s, b1 / 16);
    push_hex_digit(s, b1 % 16);
    push_hex_digit(s, b2 / 16);
    push_hex_digit(s, b2 % 16);
    push_hex_digit(s, b3 / 16);
    push_hex_digit(s, b3 % 16);
}

/// The link with the player's key appended when there is one.
pub fn auth_link(link: &str, p0: i32, p1: i32, p2: i32) -> (r: String)
    ensures
        r@ == spec_auth_link(link@, p0, p1, p2),
{
    let mut s = String::from_str(link);
    if p0 != 0 || p1 != 0 && p2 != 0 {
        s.append("?auth=");
        push_word_hex(&mut s, p0 as u32);
        push_word_hex(&mut s, p1 as u32);
        push_word_hex(&mut s, p2 as u32);
    }
    s
}

/// The link to open in the browser for `open_link_auth`: a web link with the
/// player's key; `None` for any other link.
pub fn link_to_open(link: &str, p0: i32, p1: i32, p2: i32) -> (r: Option<String>)
    ensures
        match r {
            Some(s) => is_web_link(link@) && s@ == spec_auth_link(link@, p0, p1, p2),
            None => !is_web_link(link@),
        },
{
    if web_link(link) {
        Some(auth_link(link, p0, p1, p2))
    } else {
        None
    }
}

/// What the client asks of its connection to the overlay.
#[derive(Debug, Clone, Copy, PartialEq, Eq, Structural)]
pub enum BridgeCommand {
    /// Closes the connection; with `wait`, after the overlay has finished.
    Finish { wait: bool },
}

/// Closing the connection when the client stops, without waiting.
pub fn finish() -> (r: BridgeCommand)
    ensures
        r == (BridgeCommand::Finish { wait: false }),
{
    BridgeCommand::Finish { wait: false }
}

pub fn disconnect_from_overlay(finish: bool) -> (r: BridgeCommand)
    ensures
        r == (BridgeCommand::Finish { wait: finish }),
{
    BridgeCommand::Finish { wait: finish }
}

/// The library keeps no state across a reload of the DLL: finishing it
/// leaves nothing to undo.
pub fn dll_finish() {
}

/// The message that asks the overlay to hide or to show again.
pub fn hide_overlay(hidden: bool) -> (r: MsgIn)
    ensures
        r == MsgIn::OverlayHide(hidden),
{
    MsgIn::OverlayHide(hidden)
}

/// The message that passes a chat line on to the overlay.
pub fn message_in(text: String, say_type: i32, cr_id: u32, delay: u32, name: Option<String>, masked: bool) -> (r: MsgIn)
    ensures
        r == MsgIn::Message(Message { text, say_type, cr_id, delay, name, masked }),
{
    MsgIn::Message(Message { text, say_type, cr_id, delay, name, masked })
}

} // verus!
