use vstd::prelude::*;
use crate::defines::fos::{SAY_EMOTE, SAY_NORM, SAY_RADIO, SAY_SHOUT, SAY_WHISP};
use crate::text::push_char;

verus! {

/// How a chat line was said, as far as the chat window tells them apart.
#[derive(Debug, Clone, Copy, PartialEq, Eq, Structural)]
pub enum SayType {
    Normal,
    Shout,
    Emote,
    Whisper,
    Radio,
    Unknown,
}

/// The characters of `s` turned to upper case, as `str::to_uppercase` of std
/// does it.
pub uninterp spec fn uppercase_text(s: Seq<char>) -> Seq<char>;

/// The characters of `s` turned to lower case, as `str::to_lowercase` of std
/// does it.
pub uninterp spec fn lowercase_text(s: Seq<char>) -> Seq<char>;

/// `str::to_uppercase` of std: the text with every character mapped to its
/// upper case by Unicode's rules. Its result depends on the text alone and is
/// named, not stated.
#[verifier::external_body]
fn str_to_uppercase(s: &str) -> (r: String)
    ensures
        r@ == uppercase_text(s@),
{
    s.to_uppercase()
}

/// `str::to_lowercase` of std: the text with every character mapped to its
/// lower case by Unicode's rules. Its result depends on the text alone and is
/// named, not stated.
#[verifier::external_body]
fn str_to_lowercase(s: &str) -> (r: String)
    ensures
        r@ == lowercase_text(s@),
{
    s.to_lowercase()
}

pub open spec fn spec_say_type_from(from: i32) -> SayType {
    if from == SAY_NORM as i32 {
        SayType::Normal
    } else if from == SAY_SHOUT as i32 {
        SayType::Shout
    } else if from == SAY_EMOTE as i32 {
        SayType::Emote
    } else if from == SAY_WHISP as i32 {
        SayType::Whisper
    } else if from == SAY_RADIO as i32 {
        SayType::Radio
    } else {
        SayType::Unknown
    }
}

impl From<i32> for SayType {
    fn from(from: i32) -> (r: SayType) {
        if from == SAY_NORM as i32 {
            SayType::Normal
        } else if from == SAY_SHOUT as i32 {
            SayType::Shout
        } else if from == SAY_EMOTE as i32 {
            SayType::Emote
        } else if from == SAY_WHISP as i32 {
            SayType::Whisper
        } else if from == SAY_RADIO as i32 {
            SayType::Radio
        } else {
            SayType::Unknown
        }
    }
}

impl vstd::std_specs::convert::FromSpecImpl<i32> for SayType {
    open spec fn obeys_from_spec() -> bool {
        true
    }

    open spec fn from_spec(from: i32) -> SayType {
        spec_say_type_from(from)
    }
}

/// Three copies of a character.
pub open spec fn triple(c: char) -> Seq<char> {
    seq![c, c, c]
}

/// The marks that a line of the given type is framed with, and how its text
/// is shown between them.
pub open spec fn spec_said(say_type: SayType, text: Seq<char>) -> Seq<char> {
    match say_type {
        SayType::Shout => triple('!') + uppercase_text(text) + triple('!'),
        SayType::Emote => seq!['*', '*'] + text + seq!['*', '*'],
        SayType::Whisper => triple('.') + lowercase_text(text) + triple('.'),
        SayType::Radio => seq!['.', '.'] + text + seq!['.', '.'],
        _ => text,
    }
}

/// The marks around a line's text: before and after it.
pub open spec fn frame_of(say_type: SayType) -> Seq<char> {
    match say_type {
        SayType::Shout => triple('!'),
        SayType::Emote => seq!['*', '*'],
        SayType::Whisper => triple('.'),
        SayType::Radio => seq!['.', '.'],
        _ => Seq::empty(),
    }
}

/// The text as the line shows it before framing: upper case for a shout,
/// lower case for a whisper, unchanged otherwise.
pub open spec fn shown_text(say_type: SayType, text: Seq<char>) -> Seq<char> {
    match say_type {
        SayType::Shout => uppercase_text(text),
        SayType::Whisper => lowercase_text(text),
        _ => text,
    }
}

fn push_frame(s: &mut String, say_type: SayType)
    ensures
        final(s)@ == old(s)@ + frame_of(say_type),
{
    match say_type {
        SayType::Shout => {
            push_char(s, '!');
            push_char(s, '!');
            push_char(s, '!');
        },
        SayType::Emote => {
            push_char(s, '*');
            push_char(s, '*');
        },
        SayType::Whisper => {
            push_char(s, '.');
            push_char(s, '.');
            push_char(s, '.');
        },
        SayType::Radio => {
            push_char(s, '.');
            push_char(s, '.');
        },
        _ => {
            assert(old(s)@ + Seq::<char>::empty() == old(s)@);
        },
    }
}

impl SayType {
    /// The colour of lines of this type, as `0xRRGGBB`.
    pub open spec fn spec_color(self) -> u32 {
        match self {
            SayType::Normal => 0xF8F993,
            SayType::Shout => 0xFF0000,
            SayType::Emote => 0xFF00FF,
            SayType::Whisper => 0x00FFFF,
            SayType::Radio => 0xFFFFFE,
            SayType::Unknown => 0x555555,
        }
    }

    pub fn color(self) -> (r: u32)
        ensures
            r == self.spec_color(),
    {
        match self {
            SayType::Normal => 0xF8F993,
            SayType::Shout => 0xFF0000,
            SayType::Emote => 0xFF00FF,
            SayType::Whisper => 0x00FFFF,
            SayType::Radio => 0xFFFFFE,
            SayType::Unknown => 0x555555,
        }
    }

    /// The verb shown after the speaker's name; only spoken lines have one.
    pub fn action(self) -> (r: Option<&'static str>)
        ensures
            match self {
                SayType::Normal => r == Some("(говорит)"),
                SayType::Shout => r == Some("(кричит)"),
                SayType::Whisper => r == Some("(шепчет)"),
                _ => r is None,
            },
    {
        match self {
            SayType::Normal => Some("(говорит)"),
            SayType::Shout => Some("(кричит)"),
            SayType::Whisper => Some("(шепчет)"),
            _ => None,
        }
    }

    /// Appends text that is already in the case the line shows, between the
    /// marks of this type.
    pub fn push_shown(self, s: &mut String, shown: &str)
        ensures
            final(s)@ == old(s)@ + frame_of(self) + shown@ + frame_of(self),
    {
        push_frame(s, self);
        s.append(shown);
        push_frame(s, self);
    }

    /// Appends the line's text the way the chat shows it: a shout in upper case
    /// between `!!!`, an emote between `**`, a whisper in lower case between
    /// `...`, a radio message between `..`, any other line as it is.
    pub fn push_str(self, s: &mut String, text: &str)
        ensures
            final(s)@ == old(s)@ + spec_said(self, text@),
    {
        match self {
            SayType::Shout => {
                let upper = str_to_uppercase(text);
                self.push_shown(s, upper.as_str());
            },
            SayType::Whisper => {
                let lower = str_to_lowercase(text);
                self.push_shown(s, lower.as_str());
            },
            _ => {
                self.push_shown(s, text);
            },
        }
        assert(frame_of(self) + shown_text(self, text@) + frame_of(self) == spec_said(self, text@));
    }

    /// The line's text the way the chat shows it.
    pub fn format(self, text: &str) -> (r: String)
        ensures
            r@ == spec_said(self, text@),
    {
        let mut s = String::new();
        self.push_str(&mut s, text);
        assert(Seq::<char>::empty() + spec_said(self, text@) == spec_said(self, text@));
        s
    }
}

/// The red, green and blue bytes of a colour written as `0xRRGGBB`.
pub fn rgb_channels(rgb: u32) -> (r: (u8, u8, u8))
    ensures
        r.0 == (rgb / 0x10000) % 0x100,
        r.1 == (rgb / 0x100) % 0x100,
        r.2 == rgb % 0x100,
{
    (((rgb / 0x10000) % 0x100) as u8, ((rgb / 0x100) % 0x100) as u8, (rgb % 0x100) as u8)
}

} // verus!
