use vstd::prelude::*;
use super::fos::{
    SAY_APPEND, SAY_DIALOG, SAY_DIALOGBOX_BUTTON, SAY_DIALOGBOX_BUTTON_COUNT, SAY_DIALOGBOX_TEXT,
    SAY_EMOTE, SAY_EMOTE_ON_HEAD, SAY_ENCOUNTER_ANY, SAY_ENCOUNTER_RT, SAY_ENCOUNTER_TB,
    SAY_FIX_RESULT, SAY_FLASH_WINDOW, SAY_NETMSG, SAY_NORM, SAY_NORM_ON_HEAD, SAY_RADIO,
    SAY_SAY_TEXT, SAY_SAY_TITLE, SAY_SHOUT, SAY_SHOUT_ON_HEAD, SAY_SOCIAL, SAY_WHISP,
    SAY_WHISP_ON_HEAD,
};

verus! {

/// The kind of a message said in the game.
#[derive(Debug, Clone, Copy, PartialEq, Eq, Structural)]
pub enum Say {
    Normal,
    NormalOnHead,
    Shout,
    ShoutOnHead,
    Emote,
    EmoteOnHead,
    Whisper,
    WhisperOnHead,
    Social,
    Radio,
    NetMsg,
    Dialog,
    Append,
    EncounterAny,
    EncounterRt,
    EncounterTb,
    FixResult,
    DialogboxText,
    DialogboxButton(u8),
    SayTitle,
    SayText,
    FlashWindow,
    Unknown,
}

/// The kind of message that the engine's code `value` stands for.
pub open spec fn spec_decode_say(value: u32) -> Say {
    if value == SAY_NORM {
        Say::Normal
    } else if value == SAY_NORM_ON_HEAD {
        Say::NormalOnHead
    } else if value == SAY_SHOUT {
        Say::Shout
    } else if value == SAY_SHOUT_ON_HEAD {
        Say::ShoutOnHead
    } else if value == SAY_EMOTE {
        Say::Emote
    } else if value == SAY_EMOTE_ON_HEAD {
        Say::EmoteOnHead
    } else if value == SAY_WHISP {
        Say::Whisper
    } else if value == SAY_WHISP_ON_HEAD {
        Say::WhisperOnHead
    } else if value == SAY_SOCIAL {
        Say::Social
    } else if value == SAY_RADIO {
        Say::Radio
    } else if value == SAY_NETMSG {
        Say::NetMsg
    } else if value == SAY_DIALOG {
        Say::Dialog
    } else if value == SAY_APPEND {
        Say::Append
    } else if value == SAY_ENCOUNTER_ANY {
        Say::EncounterAny
    } else if value == SAY_ENCOUNTER_RT {
        Say::EncounterRt
    } else if value == SAY_ENCOUNTER_TB {
        Say::EncounterTb
    } else if value == SAY_FIX_RESULT {
        Say::FixResult
    } else if value == SAY_DIALOGBOX_TEXT {
        Say::DialogboxText
    } else if SAY_DIALOGBOX_BUTTON <= value < SAY_DIALOGBOX_BUTTON + SAY_DIALOGBOX_BUTTON_COUNT {
        Say::DialogboxButton((value - SAY_DIALOGBOX_BUTTON) as u8)
    } else if value == SAY_SAY_TITLE {
        Say::SayTitle
    } else if value == SAY_SAY_TEXT {
        Say::SayText
    } else if value == SAY_FLASH_WINDOW {
        Say::FlashWindow
    } else {
        Say::Unknown
    }
}

/// The engine's code of a kind of message; `None` for `Unknown`.
pub open spec fn spec_encode_say(say: Say) -> Option<u32> {
    match say {
        Say::Normal => Some(SAY_NORM),
        Say::NormalOnHead => Some(SAY_NORM_ON_HEAD),
        Say::Shout => Some(SAY_SHOUT),
        Say::ShoutOnHead => Some(SAY_SHOUT_ON_HEAD),
        Say::Emote => Some(SAY_EMOTE),
        Say::EmoteOnHead => Some(SAY_EMOTE_ON_HEAD),
        Say::Whisper => Some(SAY_WHISP),
        Say::WhisperOnHead => Some(SAY_WHISP_ON_HEAD),
        Say::Social => Some(SAY_SOCIAL),
        Say::Radio => Some(SAY_RADIO),
        Say::NetMsg => Some(SAY_NETMSG),
        Say::Dialog => Some(SAY_DIALOG),
        Say::Append => Some(SAY_APPEND),
        Say::EncounterAny => Some(SAY_ENCOUNTER_ANY),
        Say::EncounterRt => Some(SAY_ENCOUNTER_RT),
        Say::EncounterTb => Some(SAY_ENCOUNTER_TB),
        Say::FixResult => Some(SAY_FIX_RESULT),
        Say::DialogboxText => Some(SAY_DIALOGBOX_TEXT),
        Say::DialogboxButton(b) => if (b as u32) < SAY_DIALOGBOX_BUTTON_COUNT {
            Some((SAY_DIALOGBOX_BUTTON + b as u32) as u32)
        } else {
            None
        },
        Say::SayTitle => Some(SAY_SAY_TITLE),
        Say::SayText => Some(SAY_SAY_TEXT),
        Say::FlashWindow => Some(SAY_FLASH_WINDOW),
        Say::Unknown => None,
    }
}

/// Decoding of the engine's message codes; each server has its own code
/// table.
pub trait FoDefines {
    fn decode_say(value: u32) -> Say;
}

/// The code set of the FO4RP server.
pub struct Fo4Rp;

impl FoDefines for Fo4Rp {
    /// The FO4RP code table.
    fn decode_say(value: u32) -> (r: Say)
        ensures
            r == spec_decode_say(value),
    {
        let last_button: u32 = SAY_DIALOGBOX_BUTTON + SAY_DIALOGBOX_BUTTON_COUNT - 1;
        if value == SAY_NORM {
            Say::Normal
        } else if value == SAY_NORM_ON_HEAD {
            Say::NormalOnHead
        } else if value == SAY_SHOUT {
            Say::Shout
        } else if value == SAY_SHOUT_ON_HEAD {
            Say::ShoutOnHead
        } else if value == SAY_EMOTE {
            Say::Emote
        } else if value == SAY_EMOTE_ON_HEAD {
            Say::EmoteOnHead
        } else if value == SAY_WHISP {
            Say::Whisper
        } else if value == SAY_WHISP_ON_HEAD {
            Say::WhisperOnHead
        } else if value == SAY_SOCIAL {
            Say::Social
        } else if value == SAY_RADIO {
            Say::Radio
        } else if value == SAY_NETMSG {
            Say::NetMsg
        } else if value == SAY_DIALOG {
            Say::Dialog
        } else if value == SAY_APPEND {
            Say::Append
        } else if value == SAY_ENCOUNTER_ANY {
            Say::EncounterAny
        } else if value == SAY_ENCOUNTER_RT {
            Say::EncounterRt
        } else if value == SAY_ENCOUNTER_TB {
            Say::EncounterTb
        } else if value == SAY_FIX_RESULT {
            Say::FixResult
        } else if value == SAY_DIALOGBOX_TEXT {
            Say::DialogboxText
        } else if SAY_DIALOGBOX_BUTTON <= value && value <= last_button {
            Say::DialogboxButton((value - SAY_DIALOGBOX_BUTTON) as u8)
        } else if value == SAY_SAY_TITLE {
            Say::SayTitle
        } else if value == SAY_SAY_TEXT {
            Say::SayText
        } else if value == SAY_FLASH_WINDOW {
            Say::FlashWindow
        } else {
            Say::Unknown
        }
    }
}

/// Every known kind of message decodes from its own code: decoding undoes
/// encoding.
pub proof fn lemma_decode_encode_say(say: Say)
    requires
        spec_encode_say(say) is Some,
    ensures
        spec_decode_say(spec_encode_say(say).unwrap()) == say,
{
}

/// Every code of a known kind of message is that kind's own code: encoding
/// undoes decoding.
pub proof fn lemma_encode_decode_say(value: u32)
    requires
        spec_decode_say(value) != Say::Unknown,
    ensures
        spec_encode_say(spec_decode_say(value)) == Some(value),
{
}

} // verus!
