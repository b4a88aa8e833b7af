use vstd::prelude::*;
use crate::text::push_char;
use super::color::{random_color, spec_random_color, Color};
use super::say_type::{spec_said, spec_say_type_from, SayType};

verus! {

/// A chat line that the client passed on.
#[derive(Debug)]
pub struct Message {
    pub text: String,
    /// The engine's kind of the line (`SAY_NORM`, `SAY_SHOUT`, ...).
    pub say_type: i32,
    /// The speaker.
    pub cr_id: u32,
    /// How long, in milliseconds, the line stays over the speaker's head.
    pub delay: u32,
    pub name: Option<String>,
    pub masked: bool,
}

/// A line of the chat, with how it was said and its speaker's colour.
#[derive(Debug)]
pub struct ChatEntry {
    pub message: Message,
    pub say_type: SayType,
    pub color: Color,
}

/// A speaker that the filter lets through.
#[derive(Debug)]
pub struct FilterName {
    pub cr_id: u32,
    pub name: String,
    pub color: Color,
}

/// Which speakers the chat shows; while `add` is set every line shows, so
/// that more names can be picked.
#[derive(Debug)]
pub struct ChatFilter {
    pub add: bool,
    pub names: Vec<FilterName>,
}

/// The sizes that avatars can be shown at, in pixels.
pub const AVATARS_SIZES: [u16; 8] = [16, 32, 48, 64, 80, 96, 112, 128];

/// The most lines of one speaker, said the same way, grouped under one header.
pub const MAX_GROUPED: u32 = 10;

/// The chat window's lines, its filter and its avatar size.
#[derive(Debug)]
pub struct Chat {
    pub messages: Vec<ChatEntry>,
    pub filter: ChatFilter,
    pub avatars_sizes_index: usize,
}

/// How a shown line is laid out: `header` when it opens a group (with the
/// speaker's avatar, name and verb), `separator` when a rule divides it from
/// the group before.
#[derive(Debug, Clone, Copy, PartialEq, Eq, Structural)]
pub struct ChatRow {
    pub index: usize,
    pub header: bool,
    pub separator: bool,
}

pub open spec fn spec_avatar_size(i: int) -> u16 {
    if i == 0 {
        16
    } else if i == 1 {
        32
    } else if i == 2 {
        48
    } else if i == 3 {
        64
    } else if i == 4 {
        80
    } else if i == 5 {
        96
    } else if i == 6 {
        112
    } else {
        128
    }
}

/// Whether the filter holds the speaker.
pub open spec fn filter_has(names: Seq<FilterName>, cr_id: u32) -> bool {
    exists|k: int| 0 <= k < names.len() && names[k].cr_id == cr_id
}

/// Whether a line of the speaker shows: always while the filter is being
/// edited, while Alt is held or when it is empty; otherwise only for the
/// speakers in it.
pub open spec fn spec_visible(filter: ChatFilter, alt: bool, cr_id: u32) -> bool {
    filter.add || alt || filter.names@.len() == 0 || filter_has(filter.names@, cr_id)
}

/// The speaker's name, or `???` for a line without one.
pub open spec fn name_shown(m: Message) -> Seq<char> {
    match m.name {
        Some(n) => n@,
        None => seq!['?', '?', '?'],
    }
}

/// A line as the chat copies it: `name: text` and a line break.
pub open spec fn copied_line(e: ChatEntry) -> Seq<char> {
    name_shown(e.message) + seq![':', ' '] + spec_said(e.say_type, e.message.text@) + seq!['\n']
}

/// The shown lines, copied one after the other.
pub open spec fn spec_copy_text(entries: Seq<ChatEntry>, filter: ChatFilter, alt: bool) -> Seq<char>
    decreases entries.len(),
{
    if entries.len() == 0 {
        Seq::empty()
    } else {
        let e = entries.last();
        spec_copy_text(entries.drop_last(), filter, alt) + if spec_visible(filter, alt, e.message.cr_id) {
            copied_line(e)
        } else {
            Seq::empty()
        }
    }
}

/// The group that the last shown line opened or joined: speaker, kind and
/// how many lines it holds.
pub type Group = (u32, SayType, int);

/// Where a shown line goes, after the group `last`: into it when it is the
/// same speaker saying the same way and the group is not full, else into a
/// new group.
pub open spec fn joins(last: Option<Group>, cr_id: u32, say_type: SayType) -> bool {
    match last {
        Some(g) => g.0 == cr_id && g.1 == say_type && g.2 < MAX_GROUPED,
        None => false,
    }
}

/// The rows of the shown lines, and the group that the last of them is in.
pub open spec fn spec_rows(entries: Seq<ChatEntry>, filter: ChatFilter, alt: bool) -> (Seq<ChatRow>, Option<Group>)
    decreases entries.len(),
{
    if entries.len() == 0 {
        (Seq::empty(), None)
    } else {
        let (rows, last) = spec_rows(entries.drop_last(), filter, alt);
        let e = entries.last();
        let i = (entries.len() - 1) as usize;
        if !spec_visible(filter, alt, e.message.cr_id) {
            (rows, last)
        } else if joins(last, e.message.cr_id, e.say_type) {
            let g = last.unwrap();
            (rows.push(ChatRow { index: i, header: false, separator: false }), Some((g.0, g.1, g.2 + 1)))
        } else {
            (
                rows.push(ChatRow { index: i, header: true, separator: last is Some }),
                Some((e.message.cr_id, e.say_type, 1)),
            )
        }
    }
}

/// The entry that a row shows.
pub open spec fn row_entry(entries: Seq<ChatEntry>, rows: Seq<ChatRow>, k: int) -> ChatEntry {
    entries[rows[k].index as int]
}

/// The rows show exactly the lines that the filter lets through, each
/// once, in the order of the lines.
pub proof fn lemma_rows_show_visible_lines(entries: Seq<ChatEntry>, filter: ChatFilter, alt: bool)
    requires
        entries.len() <= usize::MAX,
    ensures
        ({
            let rows = spec_rows(entries, filter, alt).0;
            &&& forall|k: int| 0 <= k < rows.len() ==> (#[trigger] rows[k].index as int) < entries.len()
            &&& forall|k: int| 0 <= k < rows.len() ==> spec_visible(filter, alt, #[trigger] row_entry(entries, rows, k).message.cr_id)
            &&& forall|j: int, k: int| 0 <= j < k < rows.len() ==> rows[j].index < rows[k].index
            &&& forall|i: int| 0 <= i < entries.len() && spec_visible(filter, alt, #[trigger] entries[i].message.cr_id)
                ==> exists|k: int| 0 <= k < rows.len() && rows[k].index == i
        }),
{
    lemma_rows_index(entries, filter, alt);
}

/// The first row opens a group, without a rule above it; every later row
/// that opens a group has a rule above it; a row that does not open a group
/// is the same speaker saying the same way as the row before it.
pub proof fn lemma_rows_group_one_speaker(entries: Seq<ChatEntry>, filter: ChatFilter, alt: bool)
    requires
        entries.len() <= usize::MAX,
    ensures
        ({
            let rows = spec_rows(entries, filter, alt).0;
            &&& rows.len() > 0 ==> rows[0].header && !rows[0].separator
            &&& forall|k: int| 0 < k < rows.len() && #[trigger] rows[k].header ==> rows[k].separator
            &&& forall|k: int| 0 < k < rows.len() && !(#[trigger] rows[k].header) ==> {
                &&& row_entry(entries, rows, k).message.cr_id == row_entry(entries, rows, k - 1).message.cr_id
                &&& row_entry(entries, rows, k).say_type == row_entry(entries, rows, k - 1).say_type
            }
        }),
{
    lemma_rows_groups(entries, filter, alt);
}

/// A group holds at most `MAX_GROUPED` lines: a run of rows from `j` to `k`
/// none of which opens a group is shorter than `MAX_GROUPED`, as the header
/// of their group stands before it.
pub proof fn lemma_rows_group_size(entries: Seq<ChatEntry>, filter: ChatFilter, alt: bool, j: int, k: int)
    requires
        entries.len() <= usize::MAX,
        0 <= j <= k < spec_rows(entries, filter, alt).0.len(),
        forall|t: int| j <= t <= k ==> !(#[trigger] spec_rows(entries, filter, alt).0[t].header),
    ensures
        k - j + 1 < MAX_GROUPED,
{
    lemma_rows_group_starts(entries, filter, alt);
    let rows = spec_rows(entries, filter, alt).0;
    assert(k - MAX_GROUPED < group_start(rows, k) <= k);
    lemma_run_within_group(rows, j, k);
}

/// A row opens a group after a row of the same speaker said the same way
/// only when the group before is full: it holds `MAX_GROUPED` rows, the
/// last `MAX_GROUPED - 1` of which open no group.
pub proof fn lemma_rows_full_group_before_header(entries: Seq<ChatEntry>, filter: ChatFilter, alt: bool)
    requires
        entries.len() <= usize::MAX,
    ensures
        ({
            let rows = spec_rows(entries, filter, alt).0;
            forall|k: int| 0 < k < rows.len() && #[trigger] rows[k].header
                && row_entry(entries, rows, k).message.cr_id == row_entry(entries, rows, k - 1).message.cr_id
                && row_entry(entries, rows, k).say_type == row_entry(entries, rows, k - 1).say_type
                ==> k >= MAX_GROUPED && forall|j: int| k - MAX_GROUPED < j < k ==> !rows[j].header
        }),
{
    lemma_rows_groups(entries, filter, alt);
}

proof fn lemma_rows_group_starts(entries: Seq<ChatEntry>, filter: ChatFilter, alt: bool)
    requires
        entries.len() <= usize::MAX,
    ensures
        ({
            let rows = spec_rows(entries, filter, alt).0;
            forall|k: int| 0 <= k < rows.len() ==> k - MAX_GROUPED < #[trigger] group_start(rows, k) <= k
                && 0 <= group_start(rows, k) && rows[group_start(rows, k)].header
        }),
{
    lemma_rows_groups(entries, filter, alt);
}

/// A run of rows that opens no group lies after its group's header.
proof fn lemma_run_within_group(rows: Seq<ChatRow>, j: int, k: int)
    requires
        0 <= j <= k < rows.len(),
        forall|t: int| j <= t <= k ==> !(#[trigger] rows[t].header),
        k - MAX_GROUPED < group_start(rows, k) <= k,
        rows[group_start(rows, k)].header,
    ensures
        k - j + 1 < MAX_GROUPED,
{
    let g = group_start(rows, k);
    if g >= j {
        assert(!rows[g].header);
    }
}

/// The row that opens the group of row `k`: the last header at or before it.
spec fn group_start(rows: Seq<ChatRow>, k: int) -> int
    decreases k,
{
    if k <= 0 || rows[k].header {
        k
    } else {
        group_start(rows, k - 1)
    }
}

/// Rows point at lines of `entries`, in increasing order.
spec fn rows_index_ok(entries: Seq<ChatEntry>, rows: Seq<ChatRow>) -> bool {
    &&& forall|k: int| 0 <= k < rows.len() ==> (#[trigger] rows[k].index as int) < entries.len()
    &&& forall|j: int, k: int| 0 <= j < k < rows.len() ==> rows[j].index < rows[k].index
}

proof fn lemma_rows_index(entries: Seq<ChatEntry>, filter: ChatFilter, alt: bool)
    requires
        entries.len() <= usize::MAX,
    ensures
        rows_index_ok(entries, spec_rows(entries, filter, alt).0),
        forall|k: int| 0 <= k < spec_rows(entries, filter, alt).0.len() ==> spec_visible(
            filter,
            alt,
            #[trigger] row_entry(entries, spec_rows(entries, filter, alt).0, k).message.cr_id,
        ),
        forall|i: int| 0 <= i < entries.len() && spec_visible(filter, alt, #[trigger] entries[i].message.cr_id)
            ==> exists|k: int| 0 <= k < spec_rows(entries, filter, alt).0.len() && spec_rows(entries, filter, alt).0[k].index == i,
    decreases entries.len(),
{
    if entries.len() > 0 {
        let prev = entries.drop_last();
        lemma_rows_index(prev, filter, alt);
        let rows0 = spec_rows(prev, filter, alt).0;
        let rows = spec_rows(entries, filter, alt).0;
        let n = rows0.len() as int;
        assert forall|k: int| 0 <= k < n implies rows[k] == rows0[k] && row_entry(entries, rows, k) == row_entry(prev, rows0, k) by {
            assert(rows0[k].index < prev.len());
        }
        assert forall|i: int| 0 <= i < entries.len() && spec_visible(filter, alt, #[trigger] entries[i].message.cr_id)
            implies exists|k: int| 0 <= k < rows.len() && rows[k].index == i by {
            if i < prev.len() {
                assert(prev[i] == entries[i]);
                let k = choose|k: int| 0 <= k < rows0.len() && rows0[k].index == i;
                assert(rows[k].index == i);
            } else {
                assert(i == prev.len());
                assert(entries.last() == entries[i]);
                assert(rows.len() == n + 1);
                assert(rows[n].index == i);
            }
        }
        assert forall|k: int| 0 <= k < rows.len() implies spec_visible(filter, alt, #[trigger] row_entry(entries, rows, k).message.cr_id) by {
            if k < n {
                assert(row_entry(entries, rows, k) == row_entry(prev, rows0, k));
            }
        }
    }
}

/// The rows before and after the last line: the same rows, and one more
/// where that line shows.
proof fn lemma_rows_prefix(entries: Seq<ChatEntry>, filter: ChatFilter, alt: bool)
    requires
        0 < entries.len() <= usize::MAX,
    ensures
        ({
            let prev = entries.drop_last();
            let rows0 = spec_rows(prev, filter, alt).0;
            let rows = spec_rows(entries, filter, alt).0;
            &&& rows0.len() <= rows.len() <= rows0.len() + 1
            &&& forall|k: int| 0 <= k < rows0.len() ==> rows[k] == rows0[k]
                && #[trigger] row_entry(entries, rows, k) == row_entry(prev, rows0, k)
            &&& forall|k: int| 0 <= k < rows0.len() ==> #[trigger] group_start(rows, k) == group_start(rows0, k)
            &&& rows.len() > rows0.len() ==> rows[rows0.len() as int].index == prev.len()
                && row_entry(entries, rows, rows0.len() as int) == entries.last()
        }),
{
    let prev = entries.drop_last();
    lemma_rows_index(prev, filter, alt);
    let rows0 = spec_rows(prev, filter, alt).0;
    let rows = spec_rows(entries, filter, alt).0;
    assert forall|k: int| 0 <= k < rows0.len() implies rows[k] == rows0[k]
        && #[trigger] row_entry(entries, rows, k) == row_entry(prev, rows0, k) by {
        assert(rows0[k].index < prev.len());
    }
    assert forall|k: int| 0 <= k < rows0.len() implies #[trigger] group_start(rows, k) == group_start(rows0, k) by {
        lemma_group_start_prefix(rows0, rows, k);
    }
}

/// How the rows open groups, and what the last group is.
spec fn rows_groups_ok(entries: Seq<ChatEntry>, rows: Seq<ChatRow>, last: Option<Group>) -> bool {
    &&& rows.len() > 0 ==> rows[0].header && !rows[0].separator
    &&& forall|k: int| 0 < k < rows.len() && #[trigger] rows[k].header ==> rows[k].separator
    &&& forall|k: int| 0 < k < rows.len() && !(#[trigger] rows[k].header) ==> {
        &&& row_entry(entries, rows, k).message.cr_id == row_entry(entries, rows, k - 1).message.cr_id
        &&& row_entry(entries, rows, k).say_type == row_entry(entries, rows, k - 1).say_type
    }
    &&& forall|k: int| 0 <= k < rows.len() ==> k - MAX_GROUPED < #[trigger] group_start(rows, k) <= k
        && 0 <= group_start(rows, k) && rows[group_start(rows, k)].header
    &&& (last is None <==> rows.len() == 0)
    &&& last is Some ==> {
        let g = last.unwrap();
        &&& g.0 == row_entry(entries, rows, rows.len() - 1).message.cr_id
        &&& g.1 == row_entry(entries, rows, rows.len() - 1).say_type
        &&& 1 <= g.2 <= MAX_GROUPED
        &&& group_start(rows, rows.len() - 1) == rows.len() - g.2
    }
    &&& forall|k: int| 0 < k < rows.len() && #[trigger] rows[k].header
        && row_entry(entries, rows, k).message.cr_id == row_entry(entries, rows, k - 1).message.cr_id
        && row_entry(entries, rows, k).say_type == row_entry(entries, rows, k - 1).say_type
        ==> k >= MAX_GROUPED && forall|j: int| k - MAX_GROUPED < j < k ==> !rows[j].header
}

proof fn lemma_rows_groups(entries: Seq<ChatEntry>, filter: ChatFilter, alt: bool)
    requires
        entries.len() <= usize::MAX,
    ensures
        rows_groups_ok(entries, spec_rows(entries, filter, alt).0, spec_rows(entries, filter, alt).1),
    decreases entries.len(),
{
    if entries.len() > 0 {
        let prev = entries.drop_last();
        lemma_rows_groups(prev, filter, alt);
        lemma_rows_prefix(entries, filter, alt);
        let (rows0, last0) = spec_rows(prev, filter, alt);
        let (rows, last) = spec_rows(entries, filter, alt);
        let n = rows0.len() as int;
        if rows.len() > n {
            if n > 0 {
                assert(row_entry(entries, rows, n - 1) == row_entry(prev, rows0, n - 1));
                assert(group_start(rows, n - 1) == group_start(rows0, n - 1));
            }
            if !rows[n].header {
                assert(group_start(rows, n) == group_start(rows, n - 1));
                let g = group_start(rows, n);
                assert(rows[g] == rows0[g]);
            } else {
                assert(group_start(rows, n) == n);
                if n > 0 && row_entry(entries, rows, n).message.cr_id == row_entry(entries, rows, n - 1).message.cr_id
                    && row_entry(entries, rows, n).say_type == row_entry(entries, rows, n - 1).say_type {
                    let g = last0.unwrap();
                    assert(g.2 == MAX_GROUPED);
                    assert forall|j: int| n - MAX_GROUPED < j < n implies !rows[j].header by {
                        assert(rows[j] == rows0[j]);
                        if rows0[j].header {
                            lemma_group_start_after(rows0, j, n - 1);
                        }
                    }
                }
            }
            assert forall|k: int| 0 <= k < rows.len() implies k - MAX_GROUPED < #[trigger] group_start(rows, k) <= k
                && 0 <= group_start(rows, k) && rows[group_start(rows, k)].header by {
                if k < n {
                    assert(group_start(rows, k) == group_start(rows0, k));
                    assert(rows[group_start(rows0, k)] == rows0[group_start(rows0, k)]);
                }
            }
        }
    }
}

/// A header between a row's group start and the row is that group start.
proof fn lemma_group_start_after(rows: Seq<ChatRow>, j: int, k: int)
    requires
        0 <= j <= k < rows.len(),
        rows[j].header,
    ensures
        j <= group_start(rows, k),
    decreases k,
{
    if k > j && !rows[k].header {
        lemma_group_start_after(rows, j, k - 1);
    }
}

proof fn lemma_group_start_prefix(short: Seq<ChatRow>, long: Seq<ChatRow>, k: int)
    requires
        0 <= k < short.len() <= long.len(),
        forall|j: int| 0 <= j < short.len() ==> long[j] == short[j],
    ensures
        group_start(long, k) == group_start(short, k),
    decreases k,
{
    if k > 0 && !short[k].header {
        lemma_group_start_prefix(short, long, k - 1);
    }
}

impl ChatFilter {
    pub fn has_cr_id(&self, cr_id: u32) -> (r: bool)
        ensures
            r == filter_has(self.names@, cr_id),
    {
        let mut i: usize = 0;
        while i < self.names.len()
            invariant
                i <= self.names@.len(),
                forall|k: int| 0 <= k < i ==> self.names@[k].cr_id != cr_id,
            decreases self.names@.len() - i,
        {
            if self.names[i].cr_id == cr_id {
                return true;
            }
            i = i + 1;
        }
        false
    }

    pub fn is_visible(&self, alt: bool, cr_id: u32) -> (r: bool)
        ensures
            r == spec_visible(*self, alt, cr_id),
    {
        self.add || alt || self.names.len() == 0 || self.has_cr_id(cr_id)
    }
}

impl Chat {
    pub open spec fn wf(self) -> bool {
        self.avatars_sizes_index < 8
    }

    pub fn new() -> (r: Chat)
        ensures
            r.wf(),
            r.messages@.len() == 0,
            !r.filter.add,
            r.filter.names@.len() == 0,
            r.avatars_sizes_index == 3,
    {
        Chat { messages: Vec::new(), filter: ChatFilter { add: false, names: Vec::new() }, avatars_sizes_index: 3 }
    }

    /// Adds a line, with the kind its number gives and the speaker's colour.
    pub fn push_message(&mut self, message: Message)
        ensures
            final(self).messages@.len() == old(self).messages@.len() + 1,
            final(self).messages@.drop_last() == old(self).messages@,
            final(self).messages@.last().message == message,
            final(self).messages@.last().say_type == spec_say_type_from(message.say_type),
            final(self).messages@.last().color == spec_random_color(message.cr_id),
            final(self).filter == old(self).filter,
            final(self).avatars_sizes_index == old(self).avatars_sizes_index,
    {
        let color = random_color(message.cr_id);
        let say_type = SayType::from(message.say_type);
        self.messages.push(ChatEntry { message, say_type, color });
        assert(self.messages@.drop_last() == old(self).messages@);
    }

    /// Forgets every line.
    pub fn clear(&mut self)
        ensures
            final(self).messages@.len() == 0,
            final(self).filter == old(self).filter,
            final(self).avatars_sizes_index == old(self).avatars_sizes_index,
    {
        self.messages.clear();
    }

    /// The current size of avatars.
    pub fn avatars_size(&self) -> (r: u16)
        requires
            self.wf(),
        ensures
            r == spec_avatar_size(self.avatars_sizes_index as int),
    {
        AVATARS_SIZES[self.avatars_sizes_index]
    }

    /// Steps to the next avatar size, from the largest back to the smallest,
    /// and returns it.
    pub fn next_avatars_size(&mut self) -> (r: u16)
        requires
            old(self).wf(),
        ensures
            final(self).wf(),
            final(self).avatars_sizes_index == (old(self).avatars_sizes_index + 1) % 8,
            r == spec_avatar_size(final(self).avatars_sizes_index as int),
            final(self).messages == old(self).messages,
            final(self).filter == old(self).filter,
    {
        self.avatars_sizes_index = (self.avatars_sizes_index + 1) % 8;
        AVATARS_SIZES[self.avatars_sizes_index]
    }

    /// Starts or ends picking names for the filter.
    pub fn toggle_filter_add(&mut self)
        ensures
            final(self).filter.add == !old(self).filter.add,
            final(self).filter.names == old(self).filter.names,
            final(self).messages == old(self).messages,
            final(self).avatars_sizes_index == old(self).avatars_sizes_index,
    {
        self.filter.add = !self.filter.add;
    }

    /// Drops a name from the filter.
    pub fn remove_filter_name(&mut self, i: usize)
        requires
            i < old(self).filter.names@.len(),
        ensures
            final(self).filter.names@ == old(self).filter.names@.remove(i as int),
            final(self).filter.add == old(self).filter.add,
            final(self).messages == old(self).messages,
            final(self).avatars_sizes_index == old(self).avatars_sizes_index,
    {
        self.filter.names.remove(i);
    }

    /// Adds the speaker of a line to the filter, unless it is there already.
    pub fn pick_speaker(&mut self, i: usize)
        requires
            i < old(self).messages@.len(),
        ensures
            ({
                let e = old(self).messages@[i as int];
                if filter_has(old(self).filter.names@, e.message.cr_id) {
                    final(self).filter.names@ == old(self).filter.names@
                } else {
                    &&& final(self).filter.names@.len() == old(self).filter.names@.len() + 1
                    &&& final(self).filter.names@.drop_last() == old(self).filter.names@
                    &&& final(self).filter.names@.last().cr_id == e.message.cr_id
                    &&& final(self).filter.names@.last().name@ == name_shown(e.message)
                    &&& final(self).filter.names@.last().color == e.color
                }
            }),
            final(self).filter.add == old(self).filter.add,
            final(self).messages == old(self).messages,
            final(self).avatars_sizes_index == old(self).avatars_sizes_index,
    {
        let cr_id = self.messages[i].message.cr_id;
        if !self.filter.has_cr_id(cr_id) {
            let name = match &self.messages[i].message.name {
                Some(n) => n.clone(),
                None => String::from_str("???"),
            };
            proof {
                reveal_strlit("???");
            }
            let color = self.messages[i].color;
            self.filter.names.push(FilterName { cr_id, name, color });
            assert(self.filter.names@.drop_last() == old(self).filter.names@);
        }
    }

    /// How the shown lines are laid out, with Alt held or not.
    pub fn rows(&self, alt: bool) -> (r: Vec<ChatRow>)
        ensures
            r@ == spec_rows(self.messages@, self.filter, alt).0,
            forall|k: int| 0 <= k < r@.len() ==> (#[trigger] r@[k].index as int) < self.messages@.len(),
            r@.len() > 0 ==> r@[0].header && !r@[0].separator,
            forall|k: int| 0 < k < r@.len() && !(#[trigger] r@[k].header) ==> {
                &&& self.messages@[r@[k].index as int].message.cr_id == self.messages@[r@[k - 1].index as int].message.cr_id
                &&& self.messages@[r@[k].index as int].say_type == self.messages@[r@[k - 1].index as int].say_type
            },
    {
        let total = self.messages.len();
        proof {
            assert(self.messages@.len() == total);
            lemma_rows_show_visible_lines(self.messages@, self.filter, alt);
            lemma_rows_group_one_speaker(self.messages@, self.filter, alt);
        }
        let mut rows: Vec<ChatRow> = Vec::new();
        let mut has_last = false;
        let mut last_cr: u32 = 0;
        let mut last_type = SayType::Unknown;
        let mut times: u32 = 0;
        let mut i: usize = 0;
        assert(self.messages@.take(0) == Seq::<ChatEntry>::empty());
        while i < self.messages.len()
            invariant
                i <= self.messages@.len(),
                ({
                    let (sr, sl) = spec_rows(self.messages@.take(i as int), self.filter, alt);
                    &&& rows@ == sr
                    &&& has_last == sl is Some
                    &&& has_last ==> sl.unwrap() == (last_cr, last_type, times as int)
                    &&& has_last ==> 1 <= times <= MAX_GROUPED
                }),
            decreases self.messages@.len() - i,
        {
            let ghost prefix = self.messages@.take(i + 1);
            assert(prefix.drop_last() == self.messages@.take(i as int));
            assert(prefix.last() == self.messages@[i as int]);
            let e = &self.messages[i];
            if self.filter.is_visible(alt, e.message.cr_id) {
                if has_last && last_cr == e.message.cr_id && last_type == e.say_type && times < MAX_GROUPED {
                    times = times + 1;
                    rows.push(ChatRow { index: i, header: false, separator: false });
                } else {
                    rows.push(ChatRow { index: i, header: true, separator: has_last });
                    has_last = true;
                    last_cr = e.message.cr_id;
                    last_type = e.say_type;
                    times = 1;
                }
            }
            i = i + 1;
        }
        assert(self.messages@.take(i as int) == self.messages@);
        rows
    }

    /// The shown lines as plain text, for the clipboard.
    pub fn copy_text(&self, alt: bool) -> (r: String)
        ensures
            r@ == spec_copy_text(self.messages@, self.filter, alt),
    {
        let mut log = String::new();
        let mut i: usize = 0;
        assert(self.messages@.take(0) == Seq::<ChatEntry>::empty());
        while i < self.messages.len()
            invariant
                i <= self.messages@.len(),
                log@ == spec_copy_text(self.messages@.take(i as int), self.filter, alt),
            decreases self.messages@.len() - i,
        {
            let ghost prefix = self.messages@.take(i + 1);
            assert(prefix.drop_last() == self.messages@.take(i as int));
            assert(prefix.last() == self.messages@[i as int]);
            let e = &self.messages[i];
            if self.filter.is_visible(alt, e.message.cr_id) {
                let ghost before = log@;
                match &e.message.name {
                    Some(n) => log.append(n.as_str()),
                    None => {
                        push_char(&mut log, '?');
                        push_char(&mut log, '?');
                        push_char(&mut log, '?');
                    },
                }
                push_char(&mut log, ':');
                push_char(&mut log, ' ');
                e.say_type.push_str(&mut log, e.message.text.as_str());
                push_char(&mut log, '\n');
                assert(log@ == before + copied_line(*e));
            } else {
                assert(log@ + Seq::<char>::empty() == log@);
            }
            i = i + 1;
        }
        assert(self.messages@.take(i as int) == self.messages@);
        log
    }
}

} // verus!
