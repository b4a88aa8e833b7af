use vstd::prelude::*;
use super::geometry::Rect;

verus! {

/// A player's character, by the engine's id and the two numbers that let the
/// web server find its picture.
#[derive(Debug, Clone, Copy, PartialEq, Eq, Structural)]
pub struct Char {
    pub id: u32,
    pub ver: u32,
    pub secret: u32,
}

/// A point on the game window's client area, in pixels.
#[derive(Debug, Clone, Copy, PartialEq, Eq, Structural)]
pub struct Position {
    pub x: i32,
    pub y: i32,
}

/// A character on screen: who it is and the top of its sprite.
#[derive(Debug, Clone, Copy, PartialEq, Eq, Structural)]
pub struct Avatar {
    pub char: Char,
    pub pos: Position,
}

/// What an avatar window asks of the window system.
#[derive(Debug, Clone, Copy, PartialEq, Eq, Structural)]
pub enum WindowAction {
    Show,
    Hide,
    SetPosition(i32, i32),
    /// Draws the loaded picture, scaled to the window.
    Draw,
}

/// Frames without an update after which a window is dropped: thirty seconds
/// at 240 frames a second.
pub const AVATAR_TIMEOUT_FRAMES: u64 = 7200;

/// The small window that shows a character's picture above its head.
#[derive(Debug, Clone, Copy)]
pub struct AvatarWindow {
    /// The character whose picture is loaded.
    pub char: Option<Char>,
    /// The last frame in which the character was on screen.
    pub last_frame: u64,
    pub hidden: bool,
    pub pos: Option<(i32, i32)>,
    /// Until when (milliseconds on the overlay's clock) the window stays
    /// hidden, while the character's words are over its head.
    pub hide_until: Option<u64>,
}

/// The draw request, when a picture is loaded.
pub open spec fn draw_actions(w: AvatarWindow) -> Seq<WindowAction> {
    if w.char is Some {
        seq![WindowAction::Draw]
    } else {
        Seq::empty()
    }
}

/// Hiding: only a shown window is hidden, and only once.
pub open spec fn spec_hide(w: AvatarWindow) -> (AvatarWindow, Seq<WindowAction>) {
    if !w.hidden {
        (AvatarWindow { hidden: true, ..w }, seq![WindowAction::Hide])
    } else {
        (w, Seq::empty())
    }
}

/// Showing a hidden window: while it is to stay hidden it is only marked
/// shown, so that it appears when the time is up; the result tells whether it
/// appeared now.
pub open spec fn spec_show(w: AvatarWindow, now: u64) -> (AvatarWindow, Seq<WindowAction>, bool) {
    if !w.hidden {
        (w, Seq::empty(), false)
    } else if w.hide_until matches Some(t) && now <= t {
        (AvatarWindow { hidden: false, ..w }, Seq::empty(), false)
    } else {
        (AvatarWindow { hidden: false, hide_until: None, ..w }, seq![WindowAction::Show], true)
    }
}

/// Moving the window, when it is not there already.
pub open spec fn spec_set_position(w: AvatarWindow, x: i32, y: i32) -> (AvatarWindow, Seq<WindowAction>) {
    if w.pos != Some((x, y)) {
        (AvatarWindow { pos: Some((x, y)), ..w }, seq![WindowAction::SetPosition(x, y)])
    } else {
        (w, Seq::empty())
    }
}

/// Whether a window at `(x, y)` of the client area lies inside it, clear of
/// its edges by the window's size.
pub open spec fn fits(rect: Rect, x: int, y: int) -> bool {
    &&& (rect.width as i32) - 64 > x
    &&& x > 0
    &&& (rect.height as i32) - 64 > y
    &&& y > 0
}

/// The window's place on the client area for a character whose sprite top is
/// at `pos`: centred above the head.
pub open spec fn avatar_offset(pos: Position) -> (int, int) {
    (pos.x - 32, pos.y - 64 - 16)
}

/// Placing the window over its character in this frame: moved and shown when
/// it fits on the game window, hidden otherwise; the result tells whether it
/// appeared.
pub open spec fn spec_place(w: AvatarWindow, pos: Position, rect: Rect, frame: u64, now: u64) -> (AvatarWindow, Seq<WindowAction>, bool) {
    let (x, y) = avatar_offset(pos);
    if fits(rect, x, y) {
        let (w1, a1) = spec_set_position(w, (rect.x + x) as i32, (rect.y + y) as i32);
        let (w2, a2, appeared) = spec_show(w1, now);
        let a3 = if appeared { draw_actions(w2) } else { Seq::empty() };
        (AvatarWindow { last_frame: frame, ..w2 }, a1 + a2 + a3, appeared)
    } else {
        let (w1, a1) = spec_hide(w);
        (AvatarWindow { last_frame: frame, ..w1 }, a1, false)
    }
}

/// The per-frame upkeep: after a redraw, a window unused for too long is
/// dropped (`false`) and one unused in this frame is hidden; otherwise a
/// window whose wait is over reappears, unless it was hidden meanwhile.
pub open spec fn spec_maintain(w: AvatarWindow, frame: u64, updated: bool, now: u64) -> (AvatarWindow, Seq<WindowAction>, bool) {
    if updated {
        if w.last_frame + AVATAR_TIMEOUT_FRAMES < frame {
            (w, Seq::empty(), false)
        } else if w.last_frame != frame {
            let (w1, a1) = spec_hide(w);
            (w1, a1, true)
        } else {
            (w, Seq::empty(), true)
        }
    } else if w.hide_until matches Some(t) && now > t {
        let w1 = AvatarWindow { hide_until: None, ..w };
        if !w.hidden {
            (w1, seq![WindowAction::Show] + draw_actions(w1), true)
        } else {
            (w1, Seq::empty(), true)
        }
    } else {
        (w, Seq::empty(), true)
    }
}

fn push_all(actions: &mut Vec<WindowAction>, more: Vec<WindowAction>)
    ensures
        final(actions)@ == old(actions)@ + more@,
{
    let mut more = more;
    actions.append(&mut more);
}

impl AvatarWindow {
    /// A new window: hidden, without a picture or a place.
    pub open spec fn spec_new() -> AvatarWindow {
        AvatarWindow { char: None, last_frame: 0, hidden: true, pos: None, hide_until: None }
    }

    pub fn new() -> (r: AvatarWindow)
        ensures
            r == Self::spec_new(),
    {
        AvatarWindow { char: None, last_frame: 0, hidden: true, pos: None, hide_until: None }
    }

    /// Whether the character's picture has to be loaded (a picture of
    /// another character is dropped first).
    pub fn needs_texture(&self, char: Char) -> (r: bool)
        ensures
            r == (self.char != Some(char)),
    {
        match self.char {
            Some(c) => c != char,
            None => true,
        }
    }

    /// Records the character whose picture is now loaded.
    pub fn set_texture(&mut self, char: Char)
        ensures
            *final(self) == (AvatarWindow { char: Some(char), ..*old(self) }),
    {
        self.char = Some(char);
    }

    /// The picture could not be loaded: the old one is gone and the window
    /// hides.
    pub fn texture_failed(&mut self) -> (r: Vec<WindowAction>)
        ensures
            ({
                let (w, a) = spec_hide(AvatarWindow { char: None, ..*old(self) });
                *final(self) == w && r@ == a
            }),
    {
        self.char = None;
        self.hide_window()
    }

    fn draw(&self) -> (r: Vec<WindowAction>)
        ensures
            r@ == draw_actions(*self),
    {
        let mut r = Vec::new();
        if self.char.is_some() {
            r.push(WindowAction::Draw);
        }
        r
    }

    pub fn hide_window(&mut self) -> (r: Vec<WindowAction>)
        ensures
            ({
                let (w, a) = spec_hide(*old(self));
                *final(self) == w && r@ == a
            }),
    {
        let mut r = Vec::new();
        if !self.hidden {
            self.hidden = true;
            r.push(WindowAction::Hide);
        }
        r
    }

    pub fn show(&mut self, now: u64) -> (r: (Vec<WindowAction>, bool))
        ensures
            ({
                let (w, a, appeared) = spec_show(*old(self), now);
                *final(self) == w && r.0@ == a && r.1 == appeared
            }),
    {
        let mut r = Vec::new();
        if self.hidden {
            if let Some(hide_until) = self.hide_until {
                if now > hide_until {
                    self.hide_until = None;
                } else {
                    self.hidden = false;
                    return (r, false);
                }
            }
            self.hidden = false;
            r.push(WindowAction::Show);
            (r, true)
        } else {
            (r, false)
        }
    }

    pub fn set_position(&mut self, x: i32, y: i32) -> (r: Vec<WindowAction>)
        ensures
            ({
                let (w, a) = spec_set_position(*old(self), x, y);
                *final(self) == w && r@ == a
            }),
    {
        let mut r = Vec::new();
        let here = match self.pos {
            Some(p) => p.0 == x && p.1 == y,
            None => false,
        };
        if !here {
            self.pos = Some((x, y));
            r.push(WindowAction::SetPosition(x, y));
        }
        r
    }

    /// Puts the window over its character for this frame; the flag tells
    /// whether it appeared.
    pub fn place(&mut self, pos: Position, rect: Rect, frame: u64, now: u64) -> (r: (Vec<WindowAction>, bool))
        requires
            i32::MIN + 80 <= pos.y,
            i32::MIN + 32 <= pos.x,
            fits(rect, avatar_offset(pos).0, avatar_offset(pos).1) ==> {
                &&& i32::MIN <= rect.x + avatar_offset(pos).0 <= i32::MAX
                &&& i32::MIN <= rect.y + avatar_offset(pos).1 <= i32::MAX
            },
        ensures
            ({
                let (w, a, appeared) = spec_place(*old(self), pos, rect, frame, now);
                *final(self) == w && r.0@ == a && r.1 == appeared
            }),
    {
        let x: i32 = pos.x - 32;
        let y: i32 = pos.y - 64 - 16;
        let width: i64 = (rect.width as i32) as i64;
        let height: i64 = (rect.height as i32) as i64;
        let mut appeared = false;
        let mut actions: Vec<WindowAction>;
        if (width - 64 > x as i64 && x > 0) && (height - 64 > y as i64 && y > 0) {
            actions = self.set_position(rect.x + x, rect.y + y);
            let (shown, now_shown) = self.show(now);
            push_all(&mut actions, shown);
            if now_shown {
                appeared = true;
                let drawn = self.draw();
                push_all(&mut actions, drawn);
            } else {
                assert(actions@ + Seq::<WindowAction>::empty() == actions@);
            }
        } else {
            actions = self.hide_window();
        }
        self.last_frame = frame;
        (actions, appeared)
    }

    /// The window's upkeep at the end of a frame; `false` when it is to be
    /// dropped.
    pub fn maintain(&mut self, frame: u64, updated: bool, now: u64) -> (r: (Vec<WindowAction>, bool))
        ensures
            ({
                let (w, a, keep) = spec_maintain(*old(self), frame, updated, now);
                *final(self) == w && r.0@ == a && r.1 == keep
            }),
    {
        if updated {
            if frame > AVATAR_TIMEOUT_FRAMES && self.last_frame < frame - AVATAR_TIMEOUT_FRAMES {
                return (Vec::new(), false);
            } else if self.last_frame != frame {
                let a = self.hide_window();
                return (a, true);
            }
        } else {
            if let Some(hide_until) = self.hide_until {
                if now > hide_until {
                    self.hide_until = None;
                    if !self.hidden {
                        let mut a = Vec::new();
                        a.push(WindowAction::Show);
                        let drawn = self.draw();
                        push_all(&mut a, drawn);
                        assert(seq![WindowAction::Show] + draw_actions(*self) == a@);
                        return (a, true);
                    }
                }
            }
        }
        (Vec::new(), true)
    }

    /// Keeps the window hidden for `delay` milliseconds from `now`, while the
    /// character's words are over its head.
    pub fn hide_for_ms(&mut self, delay: u32, now: u64) -> (r: Vec<WindowAction>)
        requires
            now + delay <= u64::MAX,
        ensures
            *final(self) == (AvatarWindow { hide_until: Some((now + delay) as u64), ..*old(self) }),
            r@ == seq![WindowAction::Hide],
    {
        self.hide_until = Some(now + delay as u64);
        let mut r = Vec::new();
        r.push(WindowAction::Hide);
        r
    }
}

} // verus!
