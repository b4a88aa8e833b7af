use vstd::prelude::*;
use crate::text::{chars_lt, str_eq, str_lt};
use super::laws::{
    arg_lookup, args_clash, args_sorted, lemma_add_param_is_map_insert, lemma_consume_is_union,
    union_lookup,
};

verus! {

/// The groups in which the constants and parameters of a formula are listed.
#[derive(Debug, Clone, Copy, PartialEq, Eq)]
pub enum ArgSortOrder {
    Invar,
    Stat,
}

impl ArgSortOrder {
    pub open spec fn spec_rank(self) -> u8 {
        match self {
            ArgSortOrder::Invar => 0,
            ArgSortOrder::Stat => 1,
        }
    }

    pub fn rank(&self) -> (r: u8)
        ensures
            r == self.spec_rank(),
    {
        match self {
            ArgSortOrder::Invar => 0,
            ArgSortOrder::Stat => 1,
        }
    }
}

/// The value reported beside a line of a description.
#[derive(Debug)]
pub enum LineResult {
    Int32(i32),
    Bool(bool),
    Other(String),
    NoData,
}

/// What a `LineResult` holds, as plain values.
pub enum LineValue {
    Int32(i32),
    Bool(bool),
    Other(Seq<char>),
    NoData,
}

impl View for LineResult {
    type V = LineValue;

    open spec fn view(&self) -> LineValue {
        match self {
            LineResult::Int32(v) => LineValue::Int32(*v),
            LineResult::Bool(b) => LineValue::Bool(*b),
            LineResult::Other(s) => LineValue::Other(s@),
            LineResult::NoData => LineValue::NoData,
        }
    }
}

impl LineResult {
    pub fn same_as(&self, other: &LineResult) -> (r: bool)
        ensures
            r == (self@ == other@),
    {
        match (self, other) {
            (LineResult::Int32(a), LineResult::Int32(b)) => *a == *b,
            (LineResult::Bool(a), LineResult::Bool(b)) => *a == *b,
            (LineResult::Other(a), LineResult::Other(b)) => *a == *b,
            (LineResult::NoData, LineResult::NoData) => true,
            _ => false,
        }
    }
}

/// Conversion of a computed value into the value reported in a description.
pub trait IntoLineResult: Sized {
    spec fn spec_line_value(self) -> LineValue;

    fn into_line_result(self) -> (r: LineResult)
        ensures
            r@ == self.spec_line_value(),
    ;
}

impl IntoLineResult for i32 {
    open spec fn spec_line_value(self) -> LineValue {
        LineValue::Int32(self)
    }

    fn into_line_result(self) -> (r: LineResult) {
        LineResult::Int32(self)
    }
}

impl IntoLineResult for bool {
    open spec fn spec_line_value(self) -> LineValue {
        LineValue::Bool(self)
    }

    fn into_line_result(self) -> (r: LineResult) {
        LineResult::Bool(self)
    }
}

impl IntoLineResult for LineResult {
    open spec fn spec_line_value(self) -> LineValue {
        self@
    }

    fn into_line_result(self) -> (r: LineResult) {
        self
    }
}

/// The key under which a constant or parameter is listed.
#[derive(Debug, Clone, Copy)]
pub struct ArgKey {
    pub order: ArgSortOrder,
    pub index: u16,
    pub name: &'static str,
}

pub struct ArgKeyView {
    pub order: ArgSortOrder,
    pub index: u16,
    pub name: Seq<char>,
}

impl View for ArgKey {
    type V = ArgKeyView;

    open spec fn view(&self) -> ArgKeyView {
        ArgKeyView { order: self.order, index: self.index, name: self.name@ }
    }
}

/// Keys are ordered by group, then index, then name.
pub open spec fn key_lt(a: ArgKeyView, b: ArgKeyView) -> bool {
    if a.order.spec_rank() != b.order.spec_rank() {
        a.order.spec_rank() < b.order.spec_rank()
    } else if a.index != b.index {
        a.index < b.index
    } else {
        chars_lt(a.name, b.name)
    }
}

impl ArgKey {
    pub fn lt(&self, other: &ArgKey) -> (r: bool)
        ensures
            r == key_lt(self@, other@),
    {
        let a = self.order.rank();
        let b = other.order.rank();
        if a != b {
            a < b
        } else if self.index != other.index {
            self.index < other.index
        } else {
            str_lt(self.name, other.name)
        }
    }

    pub fn same_as(&self, other: &ArgKey) -> (r: bool)
        ensures
            r == (self@ == other@),
    {
        let a = self.order.rank();
        let b = other.order.rank();
        if a != b {
            proof {
                if self.order == other.order {
                    assert(a == b);
                }
            }
            false
        } else if self.index != other.index {
            false
        } else {
            let r = str_eq(self.name, other.name);
            proof {
                if a == b {
                    assert(self.order == other.order) by {
                        match (self.order, other.order) {
                            (ArgSortOrder::Invar, ArgSortOrder::Invar) => {},
                            (ArgSortOrder::Stat, ArgSortOrder::Stat) => {},
                            _ => {},
                        }
                    }
                }
            }
            r
        }
    }
}

/// One listed constant or parameter.
#[derive(Debug)]
pub struct ArgEntry {
    pub key: ArgKey,
    pub value: LineResult,
}

pub open spec fn arg_views(v: Seq<ArgEntry>) -> Seq<(ArgKeyView, LineValue)> {
    Seq::new(v.len(), |i: int| (v[i].key@, v[i].value@))
}

/// Adds `(key, value)` to a list ordered by key: a new key goes before the
/// first greater one; a key already listed keeps its entry when the value is
/// the same, and two different values under one key are a collision (`None`).
pub open spec fn sorted_insert(
    args: Seq<(ArgKeyView, LineValue)>,
    key: ArgKeyView,
    value: LineValue,
) -> Option<Seq<(ArgKeyView, LineValue)>>
    decreases args.len(),
{
    if args.len() == 0 {
        Some(seq![(key, value)])
    } else if key_lt(args[0].0, key) {
        match sorted_insert(args.drop_first(), key, value) {
            Some(rest) => Some(seq![args[0]] + rest),
            None => None,
        }
    } else if args[0].0 == key {
        if args[0].1 == value {
            Some(args)
        } else {
            None
        }
    } else {
        Some(seq![(key, value)] + args)
    }
}

/// Adds the entries of `local`, in order, to `args`.
pub open spec fn merge_args(
    args: Seq<(ArgKeyView, LineValue)>,
    local: Seq<(ArgKeyView, LineValue)>,
) -> Option<Seq<(ArgKeyView, LineValue)>>
    decreases local.len(),
{
    if local.len() == 0 {
        Some(args)
    } else {
        match sorted_insert(args, local[0].0, local[0].1) {
            Some(a) => merge_args(a, local.drop_first()),
            None => None,
        }
    }
}

/// A line of a description: the name of the part it describes, its text and
/// the value of that part.
#[derive(Debug)]
pub struct BacklogLine {
    pub prefix: &'static str,
    pub line: String,
    pub value: LineResult,
}

pub struct LineModel {
    pub prefix: Seq<char>,
    pub line: Seq<char>,
    pub value: LineValue,
}

pub open spec fn line_model(l: BacklogLine) -> LineModel {
    LineModel { prefix: l.prefix@, line: l.line@, value: l.value@ }
}

/// The state of a description being written: its lines, the first of which
/// receives the text, and the constants and parameters met so far, ordered
/// by key.
pub struct DescModel {
    pub backlog: Seq<LineModel>,
    pub args: Seq<(ArgKeyView, LineValue)>,
}

pub open spec fn desc_new(name: Seq<char>) -> DescModel {
    DescModel {
        backlog: seq![LineModel { prefix: name, line: Seq::empty(), value: LineValue::NoData }],
        args: Seq::empty(),
    }
}

pub open spec fn desc_push(m: DescModel, text: Seq<char>) -> DescModel {
    DescModel {
        backlog: m.backlog.update(
            0,
            LineModel { prefix: m.backlog[0].prefix, line: m.backlog[0].line + text, value: m.backlog[0].value },
        ),
        args: m.args,
    }
}

pub open spec fn desc_set_value(m: DescModel, value: LineValue) -> DescModel {
    DescModel {
        backlog: m.backlog.update(
            0,
            LineModel { prefix: m.backlog[0].prefix, line: m.backlog[0].line, value },
        ),
        args: m.args,
    }
}

pub open spec fn desc_add_param(m: DescModel, key: ArgKeyView, value: LineValue) -> Option<DescModel> {
    match sorted_insert(m.args, key, value) {
        Some(a) => Some(DescModel { backlog: m.backlog, args: a }),
        None => None,
    }
}

/// The lines of `local` go after those of `m`, and its entries join those of `m`.
pub open spec fn desc_consume(m: DescModel, local: DescModel) -> Option<DescModel> {
    match merge_args(m.args, local.args) {
        Some(a) => Some(DescModel { backlog: m.backlog + local.backlog, args: a }),
        None => None,
    }
}

/// A description being written.
pub struct Context {
    head: BacklogLine,
    rest: Vec<BacklogLine>,
    args: Vec<ArgEntry>,
}

impl View for Context {
    type V = DescModel;

    closed spec fn view(&self) -> DescModel {
        DescModel {
            backlog: seq![line_model(self.head)] + self.rest@.map_values(|l: BacklogLine| line_model(l)),
            args: arg_views(self.args@),
        }
    }
}

proof fn lemma_insert_split(
    args: Seq<(ArgKeyView, LineValue)>,
    i: int,
    key: ArgKeyView,
    value: LineValue,
)
    requires
        0 <= i <= args.len(),
        forall|j: int| 0 <= j < i ==> key_lt(#[trigger] args[j].0, key),
    ensures
        sorted_insert(args, key, value) == match sorted_insert(args.skip(i), key, value) {
            Some(t) => Some(args.take(i) + t),
            None => None,
        },
    decreases i,
{
    if i > 0 {
        let tail = args.drop_first();
        assert forall|j: int| 0 <= j < i - 1 implies key_lt(#[trigger] tail[j].0, key) by {
            assert(tail[j] == args[j + 1]);
        }
        lemma_insert_split(tail, i - 1, key, value);
        assert(tail.skip(i - 1) == args.skip(i));
        assert(key_lt(args[0].0, key));
        match sorted_insert(args.skip(i), key, value) {
            Some(t) => {
                assert(seq![args[0]] + (tail.take(i - 1) + t) == args.take(i) + t);
            },
            None => {},
        }
    } else {
        assert(args.skip(0) == args);
        match sorted_insert(args, key, value) {
            Some(t) => {
                assert(args.take(0) + t == t);
            },
            None => {},
        }
    }
}

impl Context {
    /// The listed entries are kept in key order, so no key is listed twice.
    #[verifier::type_invariant]
    spec fn args_in_order(self) -> bool {
        args_sorted(arg_views(self.args@))
    }

    /// A description with one empty line under `name`.
    pub fn new(name: &'static str) -> (r: Context)
        ensures
            r@ == desc_new(name@),
    {
        let r = Context {
            head: BacklogLine { prefix: name, line: String::new(), value: LineResult::NoData },
            rest: Vec::new(),
            args: Vec::new(),
        };
        assert(r@.backlog =~= desc_new(name@).backlog);
        assert(r@.args =~= desc_new(name@).args);
        r
    }

    /// A fresh description for a named part.
    pub fn local(&self, name: &'static str) -> (r: Context)
        ensures
            r@ == desc_new(name@),
    {
        Context::new(name)
    }

    /// Appends text to the first line.
    pub fn push_str(&mut self, text: &str)
        ensures
            final(self)@ == desc_push(old(self)@, text@),
    {
        proof {
            use_type_invariant(&*self);
        }
        let mut line = String::new();
        std::mem::swap(&mut line, &mut self.head.line);
        line.append(text);
        self.head.line = line;
        assert(self@.backlog =~= desc_push(old(self)@, text@).backlog);
    }

    /// Appends a number in decimal to the first line.
    pub fn push_i32(&mut self, v: i32)
        ensures
            final(self)@ == desc_push(old(self)@, crate::text::int_text(v as int)),
    {
        proof {
            use_type_invariant(&*self);
        }
        let mut line = String::new();
        std::mem::swap(&mut line, &mut self.head.line);
        crate::text::push_i32(&mut line, v);
        self.head.line = line;
        assert(self@.backlog =~= desc_push(old(self)@, crate::text::int_text(v as int)).backlog);
    }

    /// Sets the value reported on the first line.
    pub fn set_value(&mut self, value: LineResult)
        ensures
            final(self)@ == desc_set_value(old(self)@, value@),
    {
        proof {
            use_type_invariant(&*self);
        }
        self.head.value = value;
        assert(self@.backlog =~= desc_set_value(old(self)@, value@).backlog);
    }

    /// Lists `value` under `key`, as a map inserts it: the key then reads the
    /// value, every other key and the lines stay, and listing the same value
    /// again changes nothing. The key must not be listed with another value.
    pub fn add_param(&mut self, key: ArgKey, value: LineResult)
        requires
            !(arg_lookup(old(self)@.args, key@) matches Some(w) && w != value@),
        ensures
            Some(final(self)@) == desc_add_param(old(self)@, key@, value@),
            args_sorted(final(self)@.args),
            arg_lookup(final(self)@.args, key@) == Some(value@),
            forall|k: ArgKeyView| k != key@ ==> #[trigger] arg_lookup(final(self)@.args, k) == arg_lookup(
                old(self)@.args,
                k,
            ),
            final(self)@.backlog == old(self)@.backlog,
            desc_add_param(final(self)@, key@, value@) == Some(final(self)@),
    {
        let _ = self.try_add_param(key, value);
    }

    /// Lists `value` under `key` and returns `true`, or returns `false` and
    /// changes nothing when the key is listed with another value.
    pub fn try_add_param(&mut self, key: ArgKey, value: LineResult) -> (ok: bool)
        ensures
            ok == !(arg_lookup(old(self)@.args, key@) matches Some(w) && w != value@),
            ok == desc_add_param(old(self)@, key@, value@) is Some,
            ok ==> Some(final(self)@) == desc_add_param(old(self)@, key@, value@),
            !ok ==> final(self)@ == old(self)@,
            args_sorted(final(self)@.args),
            ok ==> {
                &&& arg_lookup(final(self)@.args, key@) == Some(value@)
                &&& forall|k: ArgKeyView| k != key@ ==> #[trigger] arg_lookup(final(self)@.args, k) == arg_lookup(
                    old(self)@.args,
                    k,
                )
                &&& final(self)@.backlog == old(self)@.backlog
                &&& desc_add_param(final(self)@, key@, value@) == Some(final(self)@)
            },
    {
        proof {
            use_type_invariant(&*self);
            lemma_add_param_is_map_insert(self@, key@, value@);
        }
        let ghost old_args = arg_views(self.args@);
        let mut i: usize = 0;
        while i < self.args.len() && self.args[i].key.lt(&key)
            invariant
                i <= self.args@.len(),
                old_args == arg_views(self.args@),
                forall|j: int| 0 <= j < i ==> key_lt(#[trigger] old_args[j].0, key@),
            decreases self.args@.len() - i,
        {
            i = i + 1;
        }
        proof {
            lemma_insert_split(old_args, i as int, key@, value@);
        }
        if i < self.args.len() && self.args[i].key.same_as(&key) {
            assert(old_args.skip(i as int)[0] == old_args[i as int]);
            assert(old_args.take(i as int) + old_args.skip(i as int) =~= old_args);
            self.args[i].value.same_as(&value)
        } else {
            let mut args = Vec::new();
            std::mem::swap(&mut args, &mut self.args);
            args.insert(i, ArgEntry { key, value });
            proof {
                let s = old_args.skip(i as int);
                if s.len() > 0 {
                    assert(s[0] == old_args[i as int]);
                }
                assert(arg_views(args@) =~= old_args.take(i as int) + (seq![(key@, value@)] + s));
            }
            self.args = args;
            assert(self@.backlog =~= old(self)@.backlog);
            true
        }
    }

    /// Takes over the lines and the listed entries of a description of a
    /// part, as a union of maps: the part's lines follow, and each key reads
    /// the part's value where the part lists it, else the former one. No key
    /// may be listed in both with different values.
    pub fn consume(&mut self, local: Context)
        requires
            !args_clash(old(self)@.args, local@.args),
        ensures
            Some(final(self)@) == desc_consume(old(self)@, local@),
            final(self)@.backlog == old(self)@.backlog + local@.backlog,
            args_sorted(final(self)@.args),
            forall|k: ArgKeyView| #[trigger] arg_lookup(final(self)@.args, k) == union_lookup(
                old(self)@.args,
                local@.args,
                k,
            ),
    {
        proof {
            use_type_invariant(&*self);
            use_type_invariant(&local);
            lemma_consume_is_union(self@, local@);
        }
        let ghost lv = local@;
        let _ = self.try_consume(local);
        proof {
            lemma_consume_is_union(old(self)@, lv);
        }
    }

    /// As `consume`; returns `false` on a collision of listed entries, after
    /// which the description is not to be used.
    #[verifier::loop_isolation(false)]
    pub fn try_consume(&mut self, local: Context) -> (ok: bool)
        ensures
            ok == desc_consume(old(self)@, local@) is Some,
            ok == !args_clash(old(self)@.args, local@.args),
            ok ==> Some(final(self)@) == desc_consume(old(self)@, local@),
    {
        proof {
            use_type_invariant(&*self);
            use_type_invariant(&local);
            lemma_consume_is_union(self@, local@);
        }
        let ghost local_view = local@;
        let ghost old_view = self@;
        let Context { head, rest, args } = local;
        let mut rest = rest;
        let mut lines = Vec::new();
        std::mem::swap(&mut lines, &mut self.rest);
        lines.push(head);
        lines.append(&mut rest);
        self.rest = lines;
        assert(self@.backlog =~= old(self)@.backlog + local_view.backlog);
        let mut items = args;
        assert(arg_views(items@) =~= local_view.args);
        while items.len() > 0
            invariant
                self@.backlog == old_view.backlog + local_view.backlog,
                merge_args(old_view.args, local_view.args) == merge_args(self@.args, arg_views(items@)),
            decreases items@.len(),
        {
            let ghost before = arg_views(items@);
            let ghost args_before = self@.args;
            let entry = items.remove(0);
            assert(arg_views(items@) =~= before.drop_first());
            assert(before[0] == (entry.key@, entry.value@));
            if !self.try_add_param(entry.key, entry.value) {
                assert(merge_args(args_before, before) is None);
                assert(merge_args(old_view.args, local_view.args) is None);
                assert(desc_consume(old_view, local_view) is None);
                return false;
            }
        }
        true
    }

    /// The lines of the description and the listed entries in key order.
    pub fn into_parts(self) -> (r: (Vec<BacklogLine>, Vec<ArgEntry>))
        ensures
            r.0@.map_values(|l: BacklogLine| line_model(l)) == self@.backlog,
            arg_views(r.1@) == self@.args,
    {
        let Context { head, rest, args } = self;
        let mut lines: Vec<BacklogLine> = Vec::new();
        lines.push(head);
        let mut rest = rest;
        lines.append(&mut rest);
        assert(lines@.map_values(|l: BacklogLine| line_model(l)) =~= self@.backlog);
        (lines, args)
    }
}

} // verus!
