use vstd::prelude::*;
use crate::defines::fos::{SAY_EMOTE, SAY_NORM, SAY_NORM_ON_HEAD, SAY_SHOUT, SAY_WHISP};
use crate::text::chars_of;
use super::avatar::Avatar;
use super::chat::Message;
use super::emote::{auto_emote, spec_auto_emote};

verus! {

/// What the client sends to the overlay.
#[derive(Debug)]
pub enum MsgIn {
    /// The characters on screen now.
    UpdateAvatars(Vec<Avatar>),
    /// Whether the overlay is to hide.
    OverlayHide(bool),
    /// A chat line.
    Message(Message),
}

/// What the overlay does with the client's messages, besides its own state.
#[derive(Debug)]
pub enum BridgeAction {
    /// Hides the speaker's avatar while its words are over its head.
    HideAvatar { cr_id: u32, delay: u32 },
    /// Adds a line to the chat.
    PushChat(Message),
}

/// A chat line by the views of its fields.
pub struct MessageView {
    pub text: Seq<char>,
    pub say_type: i32,
    pub cr_id: u32,
    pub delay: u32,
    pub name: Option<Seq<char>>,
    pub masked: bool,
}

pub enum ActionView {
    HideAvatar { cr_id: u32, delay: u32 },
    PushChat(MessageView),
}

pub open spec fn message_view(m: Message) -> MessageView {
    MessageView {
        text: m.text@,
        say_type: m.say_type,
        cr_id: m.cr_id,
        delay: m.delay,
        name: match m.name {
            Some(n) => Some(n@),
            None => None,
        },
        masked: m.masked,
    }
}

pub open spec fn action_view(a: BridgeAction) -> ActionView {
    match a {
        BridgeAction::HideAvatar { cr_id, delay } => ActionView::HideAvatar { cr_id, delay },
        BridgeAction::PushChat(m) => ActionView::PushChat(message_view(m)),
    }
}

/// The lines that the chat keeps: spoken, shouted, emoted and whispered ones.
pub open spec fn is_logged(say_type: i32) -> bool {
    say_type == SAY_NORM as i32 || say_type == SAY_SHOUT as i32 || say_type == SAY_EMOTE as i32
        || say_type == SAY_WHISP as i32
}

/// The text of a line as the chat keeps it: spoken lines get their emotes
/// marked.
pub open spec fn kept_text(m: Message) -> Seq<char> {
    if m.say_type == SAY_NORM as i32 || m.say_type == SAY_NORM_ON_HEAD as i32 {
        spec_auto_emote(m.text@)
    } else {
        m.text@
    }
}

/// Lines longer than this many characters hide the speaker's avatar while
/// they are shown.
pub const LONG_LINE: usize = 15;

/// What one chat line makes the overlay do.
pub open spec fn line_actions(m: Message) -> Seq<ActionView> {
    if !is_logged(m.say_type) {
        Seq::empty()
    } else {
        let text = kept_text(m);
        let hide_avatar = if text.len() > LONG_LINE {
            seq![ActionView::HideAvatar { cr_id: m.cr_id, delay: m.delay }]
        } else {
            Seq::empty()
        };
        hide_avatar + seq![ActionView::PushChat(MessageView { text, ..message_view(m) })]
    }
}

/// What the messages make the overlay do, in their order.
pub open spec fn bridge_actions(msgs: Seq<MsgIn>) -> Seq<ActionView>
    decreases msgs.len(),
{
    if msgs.len() == 0 {
        Seq::empty()
    } else {
        bridge_actions(msgs.drop_last()) + match msgs.last() {
            MsgIn::Message(m) => line_actions(m),
            _ => Seq::empty(),
        }
    }
}

/// Whether the overlay hides after the messages: as the last of them said,
/// or as before when none did.
pub open spec fn hide_after(msgs: Seq<MsgIn>, hidden: bool) -> bool
    decreases msgs.len(),
{
    if msgs.len() == 0 {
        hidden
    } else {
        match msgs.last() {
            MsgIn::OverlayHide(h) => h,
            _ => hide_after(msgs.drop_last(), hidden),
        }
    }
}

pub open spec fn has_hide_message(msgs: Seq<MsgIn>) -> bool {
    exists|i: int| 0 <= i < msgs.len() && msgs[i] is OverlayHide
}

/// The characters that the last of the messages listed, if any did.
pub open spec fn last_avatars(msgs: Seq<MsgIn>) -> Option<Seq<Avatar>>
    decreases msgs.len(),
{
    if msgs.len() == 0 {
        None
    } else {
        match msgs.last() {
            MsgIn::UpdateAvatars(a) => Some(a@),
            _ => last_avatars(msgs.drop_last()),
        }
    }
}

/// The part of the overlay's state that the client's messages change.
#[derive(Debug)]
pub struct BridgeState {
    pub hidden: bool,
    /// The avatars have to be drawn again.
    pub dirty: bool,
    pub avatars: Vec<Avatar>,
}

fn avatars_equal(a: &Vec<Avatar>, b: &Vec<Avatar>) -> (r: bool)
    ensures
        r == (a@ == b@),
{
    if a.len() != b.len() {
        return false;
    }
    let mut i: usize = 0;
    while i < a.len()
        invariant
            a@.len() == b@.len(),
            i <= a@.len(),
            forall|k: int| 0 <= k < i ==> a@[k] == b@[k],
        decreases a@.len() - i,
    {
        if a[i] != b[i] {
            return false;
        }
        i = i + 1;
    }
    assert(a@ == b@);
    true
}

/// A chat line as the overlay takes it: `None` for lines the chat does not
/// keep, else the line (emotes marked in spoken ones) and whether it is long.
pub fn take_line(msg: Message) -> (r: Option<(Message, bool)>)
    ensures
        match r {
            None => !is_logged(msg.say_type),
            Some((m, long)) => {
                &&& is_logged(msg.say_type)
                &&& message_view(m) == (MessageView { text: kept_text(msg), ..message_view(msg) })
                &&& long == (kept_text(msg).len() > LONG_LINE)
            },
        },
{
    let t = msg.say_type;
    if !(t == SAY_NORM as i32 || t == SAY_SHOUT as i32 || t == SAY_EMOTE as i32 || t == SAY_WHISP as i32) {
        return None;
    }
    let mut msg = msg;
    if t == SAY_NORM as i32 || t == SAY_NORM_ON_HEAD as i32 {
        auto_emote(&mut msg.text);
    }
    let long = chars_of(msg.text.as_str()).len() > LONG_LINE;
    Some((msg, long))
}

impl BridgeState {
    /// Takes the messages that came from the client since the last frame.
    /// The overlay hides or shows as the last such message said, and is
    /// redrawn after one; the avatars are replaced by the last list that
    /// came, when it differs, and redrawn unless the overlay hides. The
    /// result lists what is to be done with the chat lines, in order.
    pub fn receive(&mut self, msgs: Vec<MsgIn>) -> (r: Vec<BridgeAction>)
        ensures
            r@.map_values(|a: BridgeAction| action_view(a)) == bridge_actions(msgs@),
            final(self).hidden == hide_after(msgs@, old(self).hidden),
            final(self).avatars@ == match last_avatars(msgs@) {
                Some(a) => a,
                None => old(self).avatars@,
            },
            final(self).dirty == (old(self).dirty || has_hide_message(msgs@) || (match last_avatars(msgs@) {
                Some(a) => a != old(self).avatars@ && !hide_after(msgs@, old(self).hidden),
                None => false,
            })),
    {
        let ghost all = msgs@;
        let mut msgs = msgs;
        let total = msgs.len();
        assert(all.len() == total);
        let mut actions: Vec<BridgeAction> = Vec::new();
        let mut last: Option<Vec<Avatar>> = None;
        let mut n: usize = 0;
        assert(all.take(0) == Seq::<MsgIn>::empty());
        while msgs.len() > 0
            invariant
                n + msgs@.len() == all.len(),
                all.len() <= usize::MAX,
                msgs@ == all.skip(n as int),
                actions@.map_values(|a: BridgeAction| action_view(a)) == bridge_actions(all.take(n as int)),
                self.hidden == hide_after(all.take(n as int), old(self).hidden),
                self.dirty == (old(self).dirty || has_hide_message(all.take(n as int))),
                self.avatars@ == old(self).avatars@,
                match last {
                    Some(a) => last_avatars(all.take(n as int)) == Some(a@),
                    None => last_avatars(all.take(n as int)) is None,
                },
            decreases msgs@.len(),
        {
            let ghost before = all.take(n as int);
            let ghost after = all.take(n + 1);
            assert(after.drop_last() == before);
            assert(after.last() == all[n as int]);
            assert(all.skip(n as int)[0] == all[n as int]);
            let ghost old_actions = actions@;
            let msg = msgs.remove(0);
            assert(msgs@ == all.skip(n + 1));
            match msg {
                MsgIn::UpdateAvatars(avatars) => {
                    last = Some(avatars);
                    assert(has_hide_message(after) == has_hide_message(before)) by {
                        if has_hide_message(after) {
                            let i = choose|i: int| 0 <= i < after.len() && after[i] is OverlayHide;
                            assert(before[i] == after[i]);
                        }
                    }
                },
                MsgIn::OverlayHide(hidden) => {
                    self.hidden = hidden;
                    self.dirty = true;
                    assert(after[n as int] is OverlayHide);
                },
                MsgIn::Message(m) => {
                    let ghost m0 = m;
                    assert(has_hide_message(after) == has_hide_message(before)) by {
                        if has_hide_message(after) {
                            let i = choose|i: int| 0 <= i < after.len() && after[i] is OverlayHide;
                            assert(before[i] == after[i]);
                        }
                    }
                    match take_line(m) {
                        Some((line, long)) => {
                            if long {
                                actions.push(BridgeAction::HideAvatar { cr_id: line.cr_id, delay: line.delay });
                            }
                            actions.push(BridgeAction::PushChat(line));
                            assert(actions@.map_values(|a: BridgeAction| action_view(a)) == old_actions.map_values(
                                |a: BridgeAction| action_view(a),
                            ) + line_actions(m0));
                        },
                        None => {
                            assert(line_actions(m0) == Seq::<ActionView>::empty());
                            assert(actions@.map_values(|a: BridgeAction| action_view(a)) == old_actions.map_values(
                                |a: BridgeAction| action_view(a),
                            ) + line_actions(m0));
                        },
                    }
                },
            }
            n = n + 1;
        }
        assert(all.take(n as int) == all);
        if let Some(avatars) = last {
            if !avatars_equal(&self.avatars, &avatars) {
                self.avatars = avatars;
                if !self.hidden {
                    self.dirty = true;
                }
            }
        }
        actions
    }
}

} // verus!
