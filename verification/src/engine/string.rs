use vstd::prelude::*;
use crate::text::{chars_of, push_char};

verus! {

/// Characters of the game's font that stand for card suits in Windows-1251
/// text, and the Unicode suits they are shown as, in the same order.
pub const MAP_CHAR_1251: [char; 4] = ['Ќ', 'Ћ', 'Џ', 'ђ'];
pub const MAP_CHAR_UTF: [char; 4] = ['♣', '♦', '♥', '♠'];

/// The first position of `c` in `from` at `i` or after it; `-1` when there is
/// none.
pub open spec fn char_pos_from(from: Seq<char>, c: char, i: int) -> int
    decreases from.len() - i,
{
    if i < 0 || i >= from.len() {
        -1
    } else if from[i] == c {
        i
    } else {
        char_pos_from(from, c, i + 1)
    }
}

/// The first position of `c` in `from`; `-1` when there is none.
pub open spec fn char_pos(from: Seq<char>, c: char) -> int {
    char_pos_from(from, c, 0)
}

/// A character after mapping: the one at the same position of `to`, when it
/// occurs in `from`.
pub open spec fn mapped_char(c: char, from: Seq<char>, to: Seq<char>) -> char {
    let p = char_pos(from, c);
    if p >= 0 {
        to[p]
    } else {
        c
    }
}

/// Every character of `s` that occurs in `from` has a counterpart in `to`.
pub open spec fn mappable(s: Seq<char>, from: Seq<char>, to: Seq<char>) -> bool {
    forall|i: int| 0 <= i < s.len() ==> char_pos(from, #[trigger] s[i]) < to.len()
}

pub open spec fn map_seq(s: Seq<char>, from: Seq<char>, to: Seq<char>) -> Seq<char> {
    s.map_values(|c: char| mapped_char(c, from, to))
}

pub proof fn lemma_char_pos_bounds(from: Seq<char>, c: char, i: int)
    requires
        0 <= i,
    ensures
        char_pos_from(from, c, i) == -1 || (i <= char_pos_from(from, c, i) < from.len()
            && from[char_pos_from(from, c, i)] == c),
    decreases from.len() - i,
{
    if i < from.len() && from[i] != c {
        lemma_char_pos_bounds(from, c, i + 1);
    }
}

fn find_char(from: &[char], c: char) -> (r: Option<usize>)
    ensures
        match r {
            Some(p) => p == char_pos(from@, c),
            None => char_pos(from@, c) == -1,
        },
{
    let mut i: usize = 0;
    while i < from.len()
        invariant
            i <= from@.len(),
            char_pos(from@, c) == char_pos_from(from@, c, i as int),
        decreases from@.len() - i,
    {
        if from[i] == c {
            return Some(i);
        }
        i = i + 1;
    }
    None
}

/// Replaces each character of `from` in the text by the one at the same
/// position of `to`; other characters stay.
pub fn map_chars(string: &str, from: &[char], to: &[char]) -> (r: String)
    requires
        mappable(string@, from@, to@),
    ensures
        r@ == map_seq(string@, from@, to@),
{
    let cs = chars_of(string);
    let mut out = String::new();
    let mut i: usize = 0;
    while i < cs.len()
        invariant
            cs@ == string@,
            i <= cs@.len(),
            mappable(string@, from@, to@),
            out@ == map_seq(cs@.take(i as int), from@, to@),
        decreases cs@.len() - i,
    {
        let c = cs[i];
        proof {
            lemma_char_pos_bounds(from@, c, 0);
        }
        let m = match find_char(from, c) {
            Some(p) => {
                assert(char_pos(from@, string@[i as int]) < to@.len());
                to[p]
            },
            None => c,
        };
        push_char(&mut out, m);
        assert(cs@.take(i + 1) == cs@.take(i as int).push(c));
        assert(map_seq(cs@.take(i + 1), from@, to@) == map_seq(cs@.take(i as int), from@, to@).push(m));
        i = i + 1;
    }
    assert(cs@.take(i as int) == cs@);
    out
}

/// The three items of `WINDOWS_1251.decode` of encoding_rs on the bytes: the
/// text, whether Windows-1251 was the encoding used (no byte order mark
/// chose another), and whether malformed bytes were replaced.
pub uninterp spec fn windows_1251_decode(bytes: Seq<u8>) -> (Seq<char>, bool, bool);

/// The three items of `WINDOWS_1251.encode` of encoding_rs on the text: the
/// bytes, whether Windows-1251 was the encoding used, and whether
/// characters without a byte were written as numeric references.
pub uninterp spec fn windows_1251_encode(text: Seq<char>) -> (Seq<u8>, bool, bool);

/// Whether the bytes start with a byte order mark of UTF-8 or UTF-16.
pub open spec fn has_bom(bytes: Seq<u8>) -> bool {
    ||| bytes.len() >= 3 && bytes[0] == 0xEF && bytes[1] == 0xBB && bytes[2] == 0xBF
    ||| bytes.len() >= 2 && bytes[0] == 0xFF && bytes[1] == 0xFE
    ||| bytes.len() >= 2 && bytes[0] == 0xFE && bytes[1] == 0xFF
}

pub open spec fn is_ascii_bytes(bytes: Seq<u8>) -> bool {
    forall|i: int| 0 <= i < bytes.len() ==> bytes[i] < 0x80
}

pub open spec fn is_ascii_chars(text: Seq<char>) -> bool {
    forall|i: int| 0 <= i < text.len() ==> (text[i] as u32) < 0x80
}

/// `Encoding::decode` of encoding_rs on `WINDOWS_1251`, the text taken out
/// of its `Cow`. As its source shows, a byte order mark of another encoding
/// at the start makes that encoding decode the rest, and otherwise
/// Windows-1251 is used; as its documentation says, ASCII bytes come back
/// as the same characters with nothing replaced. What the other bytes decode
/// to is named, not stated.
#[verifier::external_body]
fn decode_windows_1251(bytes: &[u8]) -> (r: (String, bool, bool))
    ensures
        (r.0@, r.1, r.2) == windows_1251_decode(bytes@),
        r.1 == !has_bom(bytes@),
        is_ascii_bytes(bytes@) ==> r.0@ == bytes@.map_values(|b: u8| b as char) && !r.2,
{
    let (text, encoding, had_errors) = encoding_rs::WINDOWS_1251.decode(bytes);
    (text.into_owned(), encoding == encoding_rs::WINDOWS_1251, had_errors)
}

/// `Encoding::encode` of encoding_rs on `WINDOWS_1251`, the bytes taken out
/// of their `Cow`. As its source shows, Windows-1251 is its own output
/// encoding and is always the one used; as its documentation says, ASCII
/// text comes back as its bytes with nothing replaced. What the other
/// characters encode to is named, not stated.
#[verifier::external_body]
fn encode_windows_1251(text: &str) -> (r: (Vec<u8>, bool, bool))
    ensures
        (r.0@, r.1, r.2) == windows_1251_encode(text@),
        r.1,
        is_ascii_chars(text@) ==> r.0@ == text@.map_values(|c: char| c as u8) && !r.2,
{
    let (bytes, encoding, had_errors) = encoding_rs::WINDOWS_1251.encode(text);
    (bytes.into_owned(), encoding == encoding_rs::WINDOWS_1251, had_errors)
}

/// Whether the bytes form a C string: a zero at the end and nowhere else.
pub open spec fn is_c_string(bytes: Seq<u8>) -> bool {
    &&& bytes.len() > 0
    &&& bytes.last() == 0
    &&& forall|i: int| 0 <= i < bytes.len() - 1 ==> bytes[i] != 0
}

pub fn check_c_string(bytes: &Vec<u8>) -> (r: bool)
    ensures
        r == is_c_string(bytes@),
{
    if bytes.len() == 0 {
        return false;
    }
    let last = bytes.len() - 1;
    let mut i: usize = 0;
    while i < last
        invariant
            last == bytes@.len() - 1,
            i <= last,
            forall|k: int| 0 <= k < i ==> bytes@[k] != 0,
        decreases last - i,
    {
        if bytes[i] == 0 {
            return false;
        }
        i = i + 1;
    }
    bytes[last] == 0
}

/// Text decoded from the engine, with the font's suit characters turned into
/// Unicode suits.
pub fn decoded_to_text(decoded: &str) -> (r: String)
    ensures
        r@ == map_seq(decoded@, MAP_CHAR_1251@, MAP_CHAR_UTF@),
{
    proof {
        assert forall|i: int| 0 <= i < decoded@.len() implies char_pos(MAP_CHAR_1251@, #[trigger] decoded@[i])
            < MAP_CHAR_UTF@.len() by {
            lemma_char_pos_bounds(MAP_CHAR_1251@, decoded@[i], 0);
        }
    }
    map_chars(decoded, MAP_CHAR_1251.as_slice(), MAP_CHAR_UTF.as_slice())
}

/// Whether the engine's bytes decode cleanly: as Windows-1251 and with no
/// malformed byte.
pub open spec fn decodes_cleanly(bytes: Seq<u8>) -> bool {
    windows_1251_decode(bytes).1 && !windows_1251_decode(bytes).2
}

/// The engine's Windows-1251 text (without its closing zero) as a Rust
/// string, the font's suits turned into Unicode suits.
pub fn cp1251_to_utf8(bytes: &[u8]) -> (r: String)
    requires
        decodes_cleanly(bytes@),
    ensures
        r@ == map_seq(windows_1251_decode(bytes@).0, MAP_CHAR_1251@, MAP_CHAR_UTF@),
{
    let (text, _kept, _had_errors) = decode_windows_1251(bytes);
    decoded_to_text(text.as_str())
}

/// Like `cp1251_to_utf8`, or `None` when the bytes do not decode cleanly.
pub fn try_cp1251_to_utf8(bytes: &[u8]) -> (r: Option<String>)
    ensures
        match r {
            Some(s) => decodes_cleanly(bytes@) && s@ == map_seq(
                windows_1251_decode(bytes@).0,
                MAP_CHAR_1251@,
                MAP_CHAR_UTF@,
            ),
            None => !decodes_cleanly(bytes@),
        },
{
    let (_text, kept, had_errors) = decode_windows_1251(bytes);
    if kept && !had_errors {
        Some(cp1251_to_utf8(bytes))
    } else {
        None
    }
}

/// Text for the engine, with Unicode suits turned into the font's.
pub fn text_to_engine(string: &str) -> (r: String)
    ensures
        r@ == map_seq(string@, MAP_CHAR_UTF@, MAP_CHAR_1251@),
{
    proof {
        assert forall|i: int| 0 <= i < string@.len() implies char_pos(MAP_CHAR_UTF@, #[trigger] string@[i])
            < MAP_CHAR_1251@.len() by {
            lemma_char_pos_bounds(MAP_CHAR_UTF@, string@[i], 0);
        }
    }
    map_chars(string, MAP_CHAR_UTF.as_slice(), MAP_CHAR_1251.as_slice())
}

/// Whether a text encodes cleanly into a C string for the engine: every
/// character has a byte, and the text ends with its only zero.
pub open spec fn encodes_cleanly(string: Seq<char>) -> bool {
    let e = windows_1251_encode(map_seq(string, MAP_CHAR_UTF@, MAP_CHAR_1251@));
    &&& e.1
    &&& !e.2
    &&& is_c_string(e.0)
}

/// A zero-terminated text as the engine's Windows-1251 bytes, the Unicode
/// suits turned into the font's.
pub fn utf8_to_cp1251(string: &str) -> (r: Vec<u8>)
    requires
        encodes_cleanly(string@),
    ensures
        r@ == windows_1251_encode(map_seq(string@, MAP_CHAR_UTF@, MAP_CHAR_1251@)).0,
{
    let mapped = text_to_engine(string);
    let (bytes, _kept, _had_errors) = encode_windows_1251(mapped.as_str());
    bytes
}

/// Like `utf8_to_cp1251`, or `None` when the text does not encode cleanly
/// into a C string.
pub fn try_utf8_to_cp1251(string: &str) -> (r: Option<Vec<u8>>)
    ensures
        match r {
            Some(b) => encodes_cleanly(string@) && b@ == windows_1251_encode(
                map_seq(string@, MAP_CHAR_UTF@, MAP_CHAR_1251@),
            ).0,
            None => !encodes_cleanly(string@),
        },
{
    let mapped = text_to_engine(string);
    let (bytes, kept, had_errors) = encode_windows_1251(mapped.as_str());
    if kept && !had_errors && check_c_string(&bytes) {
        Some(utf8_to_cp1251(string))
    } else {
        None
    }
}

proof fn lemma_suit_positions()
    ensures
        forall|c: char| #![auto] char_pos(MAP_CHAR_UTF@, c) == -1 || (0 <= char_pos(MAP_CHAR_UTF@, c) < 4
            && MAP_CHAR_UTF@[char_pos(MAP_CHAR_UTF@, c)] == c),
        forall|c: char| #![auto] char_pos(MAP_CHAR_1251@, c) == -1 || (0 <= char_pos(MAP_CHAR_1251@, c) < 4
            && MAP_CHAR_1251@[char_pos(MAP_CHAR_1251@, c)] == c),
        forall|p: int| 0 <= p < 4 ==> #[trigger] char_pos(MAP_CHAR_1251@, MAP_CHAR_1251@[p]) == p,
        forall|p: int| 0 <= p < 4 ==> #[trigger] char_pos(MAP_CHAR_UTF@, MAP_CHAR_UTF@[p]) == p,
        MAP_CHAR_UTF@.len() == 4,
        MAP_CHAR_1251@.len() == 4,
{
    assert forall|c: char| #![auto] char_pos(MAP_CHAR_UTF@, c) == -1 || (0 <= char_pos(MAP_CHAR_UTF@, c) < 4
        && MAP_CHAR_UTF@[char_pos(MAP_CHAR_UTF@, c)] == c) by {
        lemma_char_pos_bounds(MAP_CHAR_UTF@, c, 0);
    }
    assert forall|c: char| #![auto] char_pos(MAP_CHAR_1251@, c) == -1 || (0 <= char_pos(MAP_CHAR_1251@, c) < 4
        && MAP_CHAR_1251@[char_pos(MAP_CHAR_1251@, c)] == c) by {
        lemma_char_pos_bounds(MAP_CHAR_1251@, c, 0);
    }
    reveal_with_fuel(char_pos_from, 5);
}

/// Turning the Unicode suits of a text into the font's and back gives the
/// text again, when it held none of the font's suit characters.
pub proof fn lemma_suits_round_trip(s: Seq<char>)
    requires
        forall|i: int| 0 <= i < s.len() ==> !MAP_CHAR_1251@.contains(#[trigger] s[i]),
    ensures
        map_seq(map_seq(s, MAP_CHAR_UTF@, MAP_CHAR_1251@), MAP_CHAR_1251@, MAP_CHAR_UTF@) == s,
{
    lemma_suit_positions();
    let once = map_seq(s, MAP_CHAR_UTF@, MAP_CHAR_1251@);
    let twice = map_seq(once, MAP_CHAR_1251@, MAP_CHAR_UTF@);
    assert forall|i: int| 0 <= i < s.len() implies twice[i] == s[i] by {
        let c = s[i];
        let p = char_pos(MAP_CHAR_UTF@, c);
        if p >= 0 {
            assert(once[i] == MAP_CHAR_1251@[p]);
        } else {
            assert(once[i] == c);
            if char_pos(MAP_CHAR_1251@, c) >= 0 {
                assert(MAP_CHAR_1251@.contains(c));
            }
        }
    }
    assert(twice == s);
}

/// Turning the font's suits of a text into Unicode suits and back gives the
/// text again, when it held none of the Unicode suits.
pub proof fn lemma_font_suits_round_trip(s: Seq<char>)
    requires
        forall|i: int| 0 <= i < s.len() ==> !MAP_CHAR_UTF@.contains(#[trigger] s[i]),
    ensures
        map_seq(map_seq(s, MAP_CHAR_1251@, MAP_CHAR_UTF@), MAP_CHAR_UTF@, MAP_CHAR_1251@) == s,
{
    lemma_suit_positions();
    let once = map_seq(s, MAP_CHAR_1251@, MAP_CHAR_UTF@);
    let twice = map_seq(once, MAP_CHAR_UTF@, MAP_CHAR_1251@);
    assert forall|i: int| 0 <= i < s.len() implies twice[i] == s[i] by {
        let c = s[i];
        let p = char_pos(MAP_CHAR_1251@, c);
        if p >= 0 {
            assert(once[i] == MAP_CHAR_UTF@[p]);
        } else {
            assert(once[i] == c);
            if char_pos(MAP_CHAR_UTF@, c) >= 0 {
                assert(MAP_CHAR_UTF@.contains(c));
            }
        }
    }
    assert(twice == s);
}

} // verus!
