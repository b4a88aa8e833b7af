use vstd::prelude::*;
use super::avatar::{spec_maintain, AvatarWindow, WindowAction};

verus! {

/// An event of the window system.
pub trait GuiEvent {
    /// Whether the user asked to close a window.
    fn is_close_request(&self) -> bool;
}

/// A window of the overlay, over a window of the window system.
pub trait OverlayWindow {
    type Window;

    fn backend_window(&self) -> &Self::Window;
}

/// An avatar window: the character it is for, its state, and the window of
/// the window system that shows it.
#[derive(Debug)]
pub struct WindowSlot<W> {
    pub char: u32,
    pub state: AvatarWindow,
    pub window: W,
}

/// The avatar windows, at most one for each character, in the order of
/// their characters.
#[derive(Debug)]
pub struct Windowing<W> {
    pub windows: Vec<WindowSlot<W>>,
}

impl<W> OverlayWindow for WindowSlot<W> {
    type Window = W;

    fn backend_window(&self) -> (r: &W)
        ensures
            *r == self.window,
    {
        &self.window
    }
}

/// The windows are ordered by their characters, as in a map ordered by its
/// keys: no two windows are for the same character.
pub open spec fn chars_in_order<W>(slots: Seq<WindowSlot<W>>) -> bool {
    forall|i: int, j: int| 0 <= i < j < slots.len() ==> slots[i].char < slots[j].char
}

pub open spec fn has_char<W>(slots: Seq<WindowSlot<W>>, char: u32) -> bool {
    exists|i: int| 0 <= i < slots.len() && slots[i].char == char
}

/// The windows that stay after a frame's upkeep, in their order, with their
/// new states.
pub open spec fn kept_windows<W>(slots: Seq<WindowSlot<W>>, frame: u64, updated: bool, now: u64) -> Seq<WindowSlot<W>>
    decreases slots.len(),
{
    if slots.len() == 0 {
        Seq::empty()
    } else {
        let prev = kept_windows(slots.drop_last(), frame, updated, now);
        let s = slots.last();
        let (w, _a, keep) = spec_maintain(s.state, frame, updated, now);
        if keep {
            prev.push(WindowSlot { char: s.char, state: w, window: s.window })
        } else {
            prev
        }
    }
}

/// What each of the windows that stay is to do, in the same order.
pub open spec fn kept_actions<W>(slots: Seq<WindowSlot<W>>, frame: u64, updated: bool, now: u64) -> Seq<Seq<WindowAction>>
    decreases slots.len(),
{
    if slots.len() == 0 {
        Seq::empty()
    } else {
        let prev = kept_actions(slots.drop_last(), frame, updated, now);
        let (_w, a, keep) = spec_maintain(slots.last().state, frame, updated, now);
        if keep {
            prev.push(a)
        } else {
            prev
        }
    }
}

pub proof fn lemma_kept_windows<W>(slots: Seq<WindowSlot<W>>, frame: u64, updated: bool, now: u64)
    ensures
        kept_windows(slots, frame, updated, now).len() == kept_actions(slots, frame, updated, now).len(),
        kept_windows(slots, frame, updated, now).len() <= slots.len(),
        forall|c: u32| #[trigger] has_char(kept_windows(slots, frame, updated, now), c) ==> has_char(slots, c),
        chars_in_order(slots) ==> chars_in_order(kept_windows(slots, frame, updated, now)),
    decreases slots.len(),
{
    if slots.len() > 0 {
        let init = slots.drop_last();
        lemma_kept_windows(init, frame, updated, now);
        let prev = kept_windows(init, frame, updated, now);
        let kept = kept_windows(slots, frame, updated, now);
        assert forall|c: u32| has_char(kept, c) implies has_char(slots, c) by {
            let i = choose|i: int| 0 <= i < kept.len() && kept[i].char == c;
            if i < prev.len() {
                assert(kept[i] == prev[i]);
                assert(has_char(prev, c));
                let j = choose|j: int| 0 <= j < init.len() && init[j].char == c;
                assert(slots[j] == init[j]);
            } else {
                assert(slots[slots.len() - 1].char == c);
            }
        }
        if chars_in_order(slots) {
            assert(chars_in_order(init));
            assert forall|i: int, j: int| 0 <= i < j < kept.len() implies kept[i].char < kept[j].char by {
                if j < prev.len() {
                    assert(kept[i] == prev[i] && kept[j] == prev[j]);
                } else {
                    assert(kept[i] == prev[i]);
                    assert(has_char(prev, prev[i].char));
                    let k = choose|k: int| 0 <= k < init.len() && init[k].char == prev[i].char;
                    assert(slots[k] == init[k]);
                    assert(kept[j].char == slots[slots.len() - 1].char);
                }
            }
        }
    }
}

impl<W> Windowing<W> {
    pub open spec fn wf(self) -> bool {
        chars_in_order(self.windows@)
    }

    pub fn new() -> (r: Windowing<W>)
        ensures
            r.wf(),
            r.windows@.len() == 0,
    {
        Windowing { windows: Vec::new() }
    }

    /// Where the character's window is, if it has one.
    pub fn find(&self, char: u32) -> (r: Option<usize>)
        ensures
            match r {
                Some(i) => i < self.windows@.len() && self.windows@[i as int].char == char,
                None => !has_char(self.windows@, char),
            },
    {
        let mut i: usize = 0;
        while i < self.windows.len()
            invariant
                i <= self.windows@.len(),
                forall|k: int| 0 <= k < i ==> self.windows@[k].char != char,
            decreases self.windows@.len() - i,
        {
            if self.windows[i].char == char {
                return Some(i);
            }
            i = i + 1;
        }
        None
    }

    /// Adds a window for a character that has none, at its place in the
    /// order of characters, and returns that place.
    pub fn insert(&mut self, char: u32, window: W) -> (r: usize)
        requires
            old(self).wf(),
            !has_char(old(self).windows@, char),
        ensures
            final(self).wf(),
            r <= old(self).windows@.len(),
            forall|j: int| 0 <= j < r ==> old(self).windows@[j].char < char,
            forall|j: int| r <= j < old(self).windows@.len() ==> old(self).windows@[j].char > char,
            final(self).windows@ == old(self).windows@.insert(
                r as int,
                WindowSlot { char, state: AvatarWindow::spec_new(), window },
            ),
    {
        let mut i: usize = 0;
        while i < self.windows.len() && self.windows[i].char < char
            invariant
                i <= self.windows@.len(),
                forall|j: int| 0 <= j < i ==> self.windows@[j].char < char,
            decreases self.windows@.len() - i,
        {
            i = i + 1;
        }
        assert forall|j: int| i <= j < old(self).windows@.len() implies old(self).windows@[j].char > char by {
            assert(old(self).windows@[i as int].char >= char);
            assert(old(self).windows@[j].char != char);
            if j > i {
                assert(old(self).windows@[i as int].char < old(self).windows@[j].char);
            }
        }
        let state = AvatarWindow::new();
        self.windows.insert(i, WindowSlot { char, state, window });
        let ghost w = self.windows@;
        let ghost o = old(self).windows@;
        assert forall|a: int, b: int| 0 <= a < b < w.len() implies w[a].char < w[b].char by {
            if a < i {
                assert(w[a] == o[a]);
            } else if a > i {
                assert(w[a] == o[a - 1]);
            }
            if b < i {
                assert(w[b] == o[b]);
            } else if b > i {
                assert(w[b] == o[b - 1]);
            }
        }
        i
    }

    /// The upkeep at the end of a frame: each window's own, and the windows
    /// that are to go are dropped. The result holds what each window that
    /// stays is to do, in the order of the windows.
    pub fn maintain(&mut self, frame: u64, updated: bool, now: u64) -> (r: Vec<Vec<WindowAction>>)
        requires
            old(self).wf(),
        ensures
            final(self).wf(),
            final(self).windows@ == kept_windows(old(self).windows@, frame, updated, now),
            r@.map_values(|a: Vec<WindowAction>| a@) == kept_actions(old(self).windows@, frame, updated, now),
    {
        let ghost all = self.windows@;
        let mut rest = Vec::new();
        std::mem::swap(&mut rest, &mut self.windows);
        let total = rest.len();
        let mut kept: Vec<WindowSlot<W>> = Vec::new();
        let mut actions: Vec<Vec<WindowAction>> = Vec::new();
        let mut n: usize = 0;
        assert(all.take(0) == Seq::<WindowSlot<W>>::empty());
        while rest.len() > 0
            invariant
                all.len() == total,
                n + rest@.len() == all.len(),
                rest@ == all.skip(n as int),
                kept@ == kept_windows(all.take(n as int), frame, updated, now),
                actions@.map_values(|a: Vec<WindowAction>| a@) == kept_actions(all.take(n as int), frame, updated, now),
            decreases rest@.len(),
        {
            let ghost before = all.take(n as int);
            let ghost after = all.take(n + 1);
            assert(after.drop_last() == before);
            assert(after.last() == all[n as int]);
            assert(all.skip(n as int)[0] == all[n as int]);
            let ghost old_actions = actions@;
            let slot = rest.remove(0);
            assert(rest@ == all.skip(n + 1));
            let WindowSlot { char, state, window } = slot;
            let mut state = state;
            let (a, keep) = state.maintain(frame, updated, now);
            if keep {
                kept.push(WindowSlot { char, state, window });
                actions.push(a);
                assert(actions@.map_values(|a: Vec<WindowAction>| a@) == old_actions.map_values(
                    |a: Vec<WindowAction>| a@,
                ).push(a@));
            }
            n = n + 1;
        }
        assert(all.take(n as int) == all);
        proof {
            lemma_kept_windows(all, frame, updated, now);
        }
        self.windows = kept;
        actions
    }
}

} // verus!
