use vstd::prelude::*;
use super::avatar::{Avatar, Char};
use super::geometry::Rect;

verus! {

/// The overlay's view of the game window and of what it shows.
#[derive(Debug, Clone, Copy)]
pub struct OverlayState {
    pub rect: Rect,
    pub hidden: bool,
    /// The avatars have to be drawn again.
    pub dirty: bool,
    pub is_foreground: bool,
    pub frame: u64,
}

/// The game window's client area from its corners on the screen.
pub fn rect_from_corners(left: i32, top: i32, right: i32, bottom: i32) -> (r: Rect)
    requires
        left <= right,
        top <= bottom,
    ensures
        r == (Rect { x: left, y: top, width: (right - left) as u32, height: (bottom - top) as u32 }),
{
    let width: u32 = (right as i64 - left as i64) as u32;
    let height: u32 = (bottom as i64 - top as i64) as u32;
    Rect { x: left, y: top, width, height }
}

impl OverlayState {
    pub fn new(rect: Rect) -> (r: OverlayState)
        ensures
            r.rect == rect,
            !r.hidden,
            r.dirty,
            r.is_foreground,
            r.frame == 0,
    {
        OverlayState { rect, hidden: false, dirty: true, is_foreground: true, frame: 0 }
    }

    /// Takes the game window's new place and whether it (or a window of the
    /// overlay) has the focus; `false` when the game window is gone. A move
    /// makes the avatars be drawn again unless they are hidden, a change of
    /// focus always does.
    pub fn update_game_window(&mut self, new_rect: Option<Rect>, is_foreground: bool) -> (r: bool)
        ensures
            r == new_rect is Some,
            match new_rect {
                None => *final(self) == *old(self),
                Some(rect) => {
                    &&& final(self).rect == rect
                    &&& final(self).is_foreground == is_foreground
                    &&& final(self).hidden == old(self).hidden
                    &&& final(self).frame == old(self).frame
                    &&& final(self).dirty == (old(self).dirty || (rect != old(self).rect && !old(self).hidden)
                        || is_foreground != old(self).is_foreground)
                },
            },
    {
        match new_rect {
            Some(rect) => {
                if rect != self.rect {
                    self.rect = rect;
                    if !self.hidden {
                        self.dirty = true;
                    }
                }
                if is_foreground != self.is_foreground {
                    self.is_foreground = is_foreground;
                    self.dirty = true;
                }
                true
            },
            None => false,
        }
    }

    /// Counts a frame.
    pub fn update(&mut self)
        requires
            old(self).frame < u64::MAX,
        ensures
            *final(self) == (OverlayState { frame: (old(self).frame + 1) as u64, ..*old(self) }),
    {
        self.frame = self.frame + 1;
    }

    /// Whether the chat is drawn in this frame: every fourth one.
    pub fn chat_frame(&self) -> (r: bool)
        ensures
            r == (self.frame % 4 == 0),
    {
        self.frame % 4 == 0
    }
}

/// Whether the focus is on the game: on its window, an avatar window or the
/// chat window. A zero handle is no window.
pub open spec fn spec_is_game_foreground(focus: usize, game: usize, windows: Seq<usize>, chat: Option<usize>) -> bool {
    if focus == 0 {
        false
    } else {
        focus == game || windows.contains(focus) || chat == Some(focus)
    }
}

pub fn is_game_foreground(focus: usize, game: usize, windows: &Vec<usize>, chat: Option<usize>) -> (r: bool)
    ensures
        r == spec_is_game_foreground(focus, game, windows@, chat),
{
    if focus == 0 {
        return false;
    }
    if focus == game {
        return true;
    }
    let mut i: usize = 0;
    while i < windows.len()
        invariant
            focus != 0,
            focus != game,
            i <= windows@.len(),
            forall|k: int| 0 <= k < i ==> windows@[k] != focus,
        decreases windows@.len() - i,
    {
        if windows[i] == focus {
            assert(windows@[i as int] == focus);
            assert(windows@.contains(focus));
            return true;
        }
        i = i + 1;
    }
    assert(!windows@.contains(focus));
    match chat {
        Some(handle) => handle == focus,
        None => false,
    }
}

/// What is known of a character's picture.
#[derive(Debug, Clone, Copy, PartialEq, Eq, Structural)]
pub enum ImageStatus {
    /// Downloaded: the avatar can be shown.
    Loaded,
    /// The download failed; nothing is shown.
    Failed,
    /// Not asked for yet.
    Missing,
}

/// What a redraw does for one avatar.
#[derive(Debug, Clone, Copy, PartialEq, Eq, Structural)]
pub enum RedrawStep {
    /// Puts the avatar's window over its character.
    Place(usize),
    /// Asks for the character's picture.
    Request(Char),
}

/// The steps of a redraw for the avatars in order, each with the state of
/// its picture, and whether the downloader is still free after it. Only a
/// free downloader takes a request, and then it is busy.
pub open spec fn spec_redraw(avatars: Seq<Avatar>, images: Seq<ImageStatus>, free: bool) -> (Seq<RedrawStep>, bool)
    decreases avatars.len(),
{
    if avatars.len() == 0 {
        (Seq::empty(), free)
    } else {
        let (steps, free_before) = spec_redraw(avatars.drop_last(), images, free);
        let i = avatars.len() - 1;
        match images[i] {
            ImageStatus::Loaded => (steps.push(RedrawStep::Place(i as usize)), free_before),
            ImageStatus::Failed => (steps, free_before),
            ImageStatus::Missing => if free_before {
                (steps.push(RedrawStep::Request(avatars[i].char)), false)
            } else {
                (steps, free_before)
            },
        }
    }
}

/// Plans a redraw: nothing while the game is in the background, the overlay
/// hides or there are no avatars.
pub fn plan_redraw(
    state: &OverlayState,
    avatars: &Vec<Avatar>,
    images: &Vec<ImageStatus>,
    requester_free: bool,
) -> (r: (Vec<RedrawStep>, bool))
    requires
        images@.len() == avatars@.len(),
    ensures
        if state.is_foreground && !state.hidden && avatars@.len() > 0 {
            r.0@ == spec_redraw(avatars@, images@, requester_free).0 && r.1 == spec_redraw(
                avatars@,
                images@,
                requester_free,
            ).1
        } else {
            r.0@.len() == 0 && r.1 == requester_free
        },
{
    let mut steps: Vec<RedrawStep> = Vec::new();
    let mut free = requester_free;
    if !(state.is_foreground && !state.hidden && avatars.len() > 0) {
        return (steps, free);
    }
    let mut i: usize = 0;
    assert(avatars@.take(0) == Seq::<Avatar>::empty());
    while i < avatars.len()
        invariant
            images@.len() == avatars@.len(),
            i <= avatars@.len(),
            (steps@, free) == spec_redraw(avatars@.take(i as int), images@, requester_free),
        decreases avatars@.len() - i,
    {
        let ghost prefix = avatars@.take(i + 1);
        assert(prefix.drop_last() == avatars@.take(i as int));
        assert(prefix.len() - 1 == i);
        assert(prefix[i as int] == avatars@[i as int]);
        match images[i] {
            ImageStatus::Loaded => {
                steps.push(RedrawStep::Place(i));
            },
            ImageStatus::Failed => {},
            ImageStatus::Missing => {
                if free {
                    steps.push(RedrawStep::Request(avatars[i].char));
                    free = false;
                }
            },
        }
        i = i + 1;
    }
    assert(avatars@.take(i as int) == avatars@);
    (steps, free)
}

/// How a window of the overlay's interface shows in this frame: hidden while
/// the game is in the background (and any drag ends), shown again when it
/// comes back.
#[derive(Debug, Clone, Copy)]
pub struct UiWindowState {
    pub hidden: bool,
    pub dragging: bool,
    pub last_size: (u32, u32),
}

/// What an interface window asks of the window system.
#[derive(Debug, Clone, Copy, PartialEq, Eq, Structural)]
pub enum UiAction {
    Show,
    Hide,
    SetSize(u32, u32),
    SetPosition(i32, i32),
}

/// Rust's division of integers, which rounds toward zero.
pub open spec fn div_toward_zero(a: int, b: int) -> int {
    if a >= 0 {
        a / b
    } else {
        -((-a) / b)
    }
}

/// The cells of 32 pixels that a window spans when its corner is at `px`:
/// one more than the cells before it, between `min` and 64.
pub open spec fn spec_grid_cells(px: i32, min: i32) -> int {
    let cells = div_toward_zero(px as int, 32) + 1;
    let cells = if cells < min { min as int } else { cells };
    if cells > 64 { 64 } else { cells }
}

/// The size that dragging the resize handle to `(x, y)` gives a window: at
/// least one cell wide and two high, at most 64 each, in cells of 32 pixels.
pub fn resize_to(x: i32, y: i32) -> (r: (u32, u32))
    ensures
        r.0 == spec_grid_cells(x, 1) * 32,
        r.1 == spec_grid_cells(y, 2) * 32,
        32 <= r.0 <= 2048,
        64 <= r.1 <= 2048,
{
    (grid(x, 1), grid(y, 2))
}

fn grid(px: i32, min: i32) -> (r: u32)
    requires
        1 <= min <= 64,
    ensures
        r == spec_grid_cells(px, min) * 32,
{
    let mut cells: i32 = px / 32 + 1;
    if cells < min {
        cells = min;
    }
    if cells > 64 {
        cells = 64;
    }
    (cells * 32) as u32
}

impl UiWindowState {
    /// A hidden window is not being dragged.
    pub open spec fn wf(self) -> bool {
        self.hidden ==> !self.dragging
    }

    pub fn new(size: (u32, u32)) -> (r: UiWindowState)
        ensures
            r.wf(),
            !r.hidden,
            !r.dragging,
            r.last_size == size,
    {
        UiWindowState { hidden: false, dragging: false, last_size: size }
    }

    /// The window's part of drawing a frame: it shows or hides with the
    /// game's focus, and the flag tells whether the interface is drawn in
    /// this frame (and `settle` follows). In the background nothing is
    /// drawn: the window ends hidden and not dragged, hidden by this call
    /// exactly when it was shown, and it is neither moved nor resized.
    pub fn draw(&mut self, is_foreground: bool) -> (r: (Option<UiAction>, bool))
        ensures
            r.1 == is_foreground,
            old(self).wf() ==> final(self).wf(),
            !is_foreground && old(self).wf() ==> {
                &&& final(self).hidden
                &&& !final(self).dragging
                &&& (r.0 == Some(UiAction::Hide)) == !old(self).hidden
                &&& !r.1
                &&& (r.0 is None || r.0 == Some(UiAction::Hide))
                &&& final(self).last_size == old(self).last_size
            },
            final(self).last_size == old(self).last_size,
            if !is_foreground {
                &&& final(self).hidden
                &&& r.0 == (if old(self).hidden { None } else { Some(UiAction::Hide) })
                &&& final(self).dragging == (old(self).dragging && old(self).hidden)
            } else {
                &&& !final(self).hidden
                &&& r.0 == (if old(self).hidden { Some(UiAction::Show) } else { None })
                &&& final(self).dragging == old(self).dragging
            },
    {
        if !is_foreground {
            if !self.hidden {
                self.hidden = true;
                self.dragging = false;
                return (Some(UiAction::Hide), false);
            }
            (None, false)
        } else {
            if self.hidden {
                self.hidden = false;
                return (Some(UiAction::Show), true);
            }
            (None, true)
        }
    }

    /// After drawing, when the window was not dragged: a new size from the
    /// resize handle is taken when it differs; without one, a window that
    /// sticks to the game window is put back at its place over it.
    pub fn settle(&mut self, resize: Option<(u32, u32)>, sticky: Option<(i32, i32)>, rect: Rect) -> (r: Option<UiAction>)
        requires
            sticky matches Some(p) ==> i32::MIN <= rect.x + p.0 <= i32::MAX && i32::MIN <= rect.y + p.1 <= i32::MAX,
        ensures
            final(self).hidden == old(self).hidden,
            final(self).dragging == old(self).dragging,
            match resize {
                Some(size) => if size != old(self).last_size {
                    final(self).last_size == size && r == Some(UiAction::SetSize(size.0, size.1))
                } else {
                    final(self).last_size == old(self).last_size && r is None
                },
                None => final(self).last_size == old(self).last_size && r == match sticky {
                    Some(p) => Some(UiAction::SetPosition((rect.x + p.0) as i32, (rect.y + p.1) as i32)),
                    None => None,
                },
            },
    {
        match resize {
            Some(size) => {
                if size.0 != self.last_size.0 || size.1 != self.last_size.1 {
                    self.last_size = size;
                    Some(UiAction::SetSize(size.0, size.1))
                } else {
                    None
                }
            },
            None => match sticky {
                Some(p) => Some(UiAction::SetPosition(rect.x + p.0, rect.y + p.1)),
                None => None,
            },
        }
    }
}

/// What is known of the characters' pictures: at most one entry for each
/// character.
#[derive(Debug)]
pub struct ImageCache {
    pub entries: Vec<(Char, ImageStatus)>,
}

pub open spec fn distinct_keys(entries: Seq<(Char, ImageStatus)>) -> bool {
    forall|i: int, j: int| 0 <= i < j < entries.len() ==> entries[i].0 != entries[j].0
}

/// The status recorded for the character, `Missing` when there is none.
pub open spec fn spec_image_status(entries: Seq<(Char, ImageStatus)>, char: Char) -> ImageStatus {
    if exists|i: int| 0 <= i < entries.len() && entries[i].0 == char {
        entries[choose|i: int| 0 <= i < entries.len() && entries[i].0 == char].1
    } else {
        ImageStatus::Missing
    }
}

proof fn lemma_status_at(entries: Seq<(Char, ImageStatus)>, i: int)
    requires
        distinct_keys(entries),
        0 <= i < entries.len(),
    ensures
        spec_image_status(entries, entries[i].0) == entries[i].1,
{
    let char = entries[i].0;
    let j = choose|j: int| 0 <= j < entries.len() && entries[j].0 == char;
    if j < i {
    } else if j > i {
    }
}

impl ImageCache {
    pub open spec fn wf(self) -> bool {
        distinct_keys(self.entries@)
    }

    pub fn new() -> (r: ImageCache)
        ensures
            r.wf(),
            r.entries@.len() == 0,
    {
        ImageCache { entries: Vec::new() }
    }

    fn find(&self, char: Char) -> (r: Option<usize>)
        ensures
            match r {
                Some(i) => i < self.entries@.len() && self.entries@[i as int].0 == char,
                None => forall|k: int| 0 <= k < self.entries@.len() ==> self.entries@[k].0 != char,
            },
    {
        let mut i: usize = 0;
        while i < self.entries.len()
            invariant
                i <= self.entries@.len(),
                forall|k: int| 0 <= k < i ==> self.entries@[k].0 != char,
            decreases self.entries@.len() - i,
        {
            if self.entries[i].0 == char {
                return Some(i);
            }
            i = i + 1;
        }
        None
    }

    pub fn status(&self, char: Char) -> (r: ImageStatus)
        requires
            self.wf(),
        ensures
            r == spec_image_status(self.entries@, char),
    {
        match self.find(char) {
            Some(i) => {
                proof {
                    lemma_status_at(self.entries@, i as int);
                }
                self.entries[i].1
            },
            None => ImageStatus::Missing,
        }
    }

    /// Takes the downloader's answer for a character: the picture, or that
    /// it failed. The result tells whether the avatars are to be drawn again:
    /// when a picture came.
    pub fn record(&mut self, char: Char, loaded: bool) -> (r: bool)
        requires
            old(self).wf(),
        ensures
            final(self).wf(),
            r == loaded,
            spec_image_status(final(self).entries@, char) == (if loaded {
                ImageStatus::Loaded
            } else {
                ImageStatus::Failed
            }),
            forall|c: Char| c != char ==> spec_image_status(final(self).entries@, c) == spec_image_status(
                old(self).entries@,
                c,
            ),
    {
        let status = if loaded { ImageStatus::Loaded } else { ImageStatus::Failed };
        let ghost before = self.entries@;
        let k: usize;
        match self.find(char) {
            Some(i) => {
                self.entries.set(i, (char, status));
                k = i;
            },
            None => {
                self.entries.push((char, status));
                k = (self.entries.len() - 1) as usize;
            },
        }
        let ghost after = self.entries@;
        assert(distinct_keys(after)) by {
            assert forall|i: int, j: int| 0 <= i < j < after.len() implies after[i].0 != after[j].0 by {
                if i != k && j != k {
                    assert(after[i] == before[i] && after[j] == before[j]);
                }
            }
        }
        proof {
            lemma_status_at(after, k as int);
            assert forall|c: Char| c != char implies spec_image_status(after, c) == spec_image_status(before, c) by {
                if exists|i: int| 0 <= i < before.len() && before[i].0 == c {
                    let i = choose|i: int| 0 <= i < before.len() && before[i].0 == c;
                    assert(i != k);
                    assert(after[i] == before[i]);
                    lemma_status_at(before, i);
                    lemma_status_at(after, i);
                } else {
                    assert forall|i: int| 0 <= i < after.len() implies after[i].0 != c by {
                        if i != k {
                            assert(after[i] == before[i]);
                        }
                    }
                }
            }
        }
        loaded
    }
}

} // verus!
