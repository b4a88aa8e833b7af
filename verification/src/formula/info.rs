use vstd::prelude::*;
use crate::critter::Critter;
use super::ast::{BoolFormula, IntFormula};
use super::context::{
    arg_views, desc_new, desc_set_value, line_model, ArgEntry, ArgKeyView, ArgSortOrder,
    BacklogLine, Context, DescModel, LineModel, LineResult, LineValue,
};
use super::describe::{bool_text, describe_bool, describe_int, input_data};
use super::eval::{eval_bool, eval_int};
use crate::text::{int_text, push_i32};

verus! {

pub open spec fn value_text(v: LineValue) -> Seq<char> {
    match v {
        LineValue::Int32(x) => int_text(x as int),
        LineValue::Bool(b) => bool_text(b),
        LineValue::Other(s) => s,
        LineValue::NoData => Seq::empty(),
    }
}

/// One line of the description: its part's name on a line of its own, then
/// the text indented, followed by ` = value` when the part has a value.
pub open spec fn line_text(l: LineModel) -> Seq<char> {
    let header = if l.prefix.len() > 0 { l.prefix + ": \n"@ } else { Seq::empty() };
    let space = if l.prefix.len() > 0 { "  "@ } else { Seq::empty() };
    let value = match l.value {
        LineValue::NoData => Seq::empty(),
        v => " = "@ + value_text(v),
    };
    header + space + l.line + value + "\n"@
}

pub open spec fn backlog_text(b: Seq<LineModel>) -> Seq<char>
    decreases b.len(),
{
    if b.len() == 0 {
        Seq::empty()
    } else {
        backlog_text(b.drop_last()) + line_text(b.last())
    }
}

pub open spec fn order_text(o: ArgSortOrder) -> Seq<char> {
    match o {
        ArgSortOrder::Invar => "Константы"@,
        ArgSortOrder::Stat => "Статы"@,
    }
}

/// The `i`-th listed entry, preceded by its group's title when it is the
/// first entry of its group.
pub open spec fn arg_text(a: Seq<(ArgKeyView, LineValue)>, i: int) -> Seq<char> {
    let header = if i == 0 || a[i - 1].0.order != a[i].0.order {
        order_text(a[i].0.order) + ":\n"@
    } else {
        Seq::empty()
    };
    let entry = match a[i].1 {
        LineValue::NoData => "  "@ + a[i].0.name + "\n"@,
        v => "  "@ + a[i].0.name + " = "@ + value_text(v) + "\n"@,
    };
    header + entry
}

pub open spec fn args_text(a: Seq<(ArgKeyView, LineValue)>, n: int) -> Seq<char>
    decreases n,
{
    if n <= 0 {
        Seq::empty()
    } else {
        args_text(a, n - 1) + arg_text(a, n - 1)
    }
}

/// The text of a finished description: its lines, then its listed entries.
pub open spec fn info_text(m: DescModel) -> Seq<char> {
    backlog_text(m.backlog) + args_text(m.args, m.args.len() as int)
}

/// The finished description of an integer formula under `name`, the
/// formula's own value on its first line when values are asked for.
pub open spec fn full_info_int(f: IntFormula, name: Seq<char>, input: Option<Option<&Critter>>) -> Option<Seq<char>> {
    match describe_int(f, desc_new(name), input) {
        Some(m) => match input {
            None => Some(info_text(m)),
            Some(_) => match eval_int(f, input_data(input)) {
                Some(v) => Some(info_text(desc_set_value(m, LineValue::Int32(v)))),
                None => None,
            },
        },
        None => None,
    }
}

pub open spec fn full_info_bool(f: BoolFormula, name: Seq<char>, input: Option<Option<&Critter>>) -> Option<Seq<char>> {
    match describe_bool(f, desc_new(name), input) {
        Some(m) => match input {
            None => Some(info_text(m)),
            Some(_) => match eval_bool(f, input_data(input)) {
                Some(v) => Some(info_text(desc_set_value(m, LineValue::Bool(v)))),
                None => None,
            },
        },
        None => None,
    }
}

pub fn push_value(s: &mut String, v: &LineResult)
    ensures
        final(s)@ == old(s)@ + value_text(v@),
{
    match v {
        LineResult::Int32(x) => push_i32(s, *x),
        LineResult::Bool(b) => {
            if *b {
                s.append("Да");
            } else {
                s.append("Нет");
            }
        },
        LineResult::Other(t) => s.append(t.as_str()),
        LineResult::NoData => {
            assert(old(s)@ + value_text(v@) =~= old(s)@);
        },
    }
}

fn push_line(s: &mut String, l: &BacklogLine)
    ensures
        final(s)@ == old(s)@ + line_text(line_model(*l)),
{
    let has_prefix = !l.prefix.is_empty();
    if has_prefix {
        s.append(l.prefix);
        s.append(": \n");
        s.append("  ");
    }
    s.append(l.line.as_str());
    match &l.value {
        LineResult::NoData => {},
        v => {
            s.append(" = ");
            push_value(s, v);
        },
    }
    s.append("\n");
    let ghost lm = line_model(*l);
    assert(s@ =~= old(s)@ + line_text(lm));
}

fn order_str(o: ArgSortOrder) -> (r: &'static str)
    ensures
        r@ == order_text(o),
{
    match o {
        ArgSortOrder::Invar => "Константы",
        ArgSortOrder::Stat => "Статы",
    }
}

/// Writes the text of a finished description.
pub fn write_info(ctx: Context) -> (r: String)
    ensures
        r@ == info_text(ctx@),
{
    let ghost m = ctx@;
    let (lines, args) = ctx.into_parts();
    let ghost bl = lines@.map_values(|l: BacklogLine| line_model(l));
    let mut info = String::new();
    let mut i: usize = 0;
    while i < lines.len()
        invariant
            i <= lines@.len(),
            bl == lines@.map_values(|l: BacklogLine| line_model(l)),
            info@ == backlog_text(bl.take(i as int)),
        decreases lines@.len() - i,
    {
        push_line(&mut info, &lines[i]);
        assert(bl.take(i + 1).drop_last() =~= bl.take(i as int));
        i = i + 1;
    }
    assert(bl.take(lines@.len() as int) =~= bl);
    let ghost av = arg_views(args@);
    let mut j: usize = 0;
    while j < args.len()
        invariant
            j <= args@.len(),
            av == arg_views(args@),
            info@ == backlog_text(bl) + args_text(av, j as int),
        decreases args@.len() - j,
    {
        let entry: &ArgEntry = &args[j];
        let first_of_group = j == 0 || args[j - 1].key.order.rank() != entry.key.order.rank();
        proof {
            if j > 0 {
                assert((args[j - 1].key.order.spec_rank() != entry.key.order.spec_rank())
                    == (args[j - 1].key.order != entry.key.order)) by {
                    match (args[j - 1].key.order, entry.key.order) {
                        (ArgSortOrder::Invar, ArgSortOrder::Invar) => {},
                        (ArgSortOrder::Stat, ArgSortOrder::Stat) => {},
                        _ => {},
                    }
                }
            }
        }
        let ghost before = info@;
        if first_of_group {
            info.append(order_str(entry.key.order));
            info.append(":\n");
        }
        info.append("  ");
        info.append(entry.key.name);
        match &entry.value {
            LineResult::NoData => {},
            v => {
                info.append(" = ");
                push_value(&mut info, v);
            },
        }
        info.append("\n");
        assert(info@ =~= before + arg_text(av, j as int));
        j = j + 1;
    }
    info
}

impl IntFormula {
    /// The description of the formula under `name`: its text, the lines of
    /// its named parts and the constants and parameters it reads; with
    /// `input` given, each carries its value.
    pub fn full_info(&self, name: &'static str, input: Option<Option<&Critter>>) -> (r: String)
        requires
            full_info_int(*self, name@, input) is Some,
        ensures
            Some(r@) == full_info_int(*self, name@, input),
    {
        match self.checked_full_info(name, input) {
            Some(r) => r,
            None => String::new(),
        }
    }

    /// As `full_info`, or `None` where the description fails.
    pub fn checked_full_info(&self, name: &'static str, input: Option<Option<&Critter>>) -> (r: Option<String>)
        ensures
            match r {
                Some(s) => full_info_int(*self, name@, input) == Some(s@),
                None => full_info_int(*self, name@, input) is None,
            },
    {
        let mut ctx = Context::new(name);
        if !self.try_describe(&mut ctx, input) {
            return None;
        }
        if let Some(d) = input {
            match self.checked_compute(d) {
                Some(v) => ctx.set_value(LineResult::Int32(v)),
                None => {
                    return None;
                },
            }
        }
        Some(write_info(ctx))
    }
}

impl BoolFormula {
    /// The description of the formula under `name`; see `IntFormula::full_info`.
    pub fn full_info(&self, name: &'static str, input: Option<Option<&Critter>>) -> (r: String)
        requires
            full_info_bool(*self, name@, input) is Some,
        ensures
            Some(r@) == full_info_bool(*self, name@, input),
    {
        match self.checked_full_info(name, input) {
            Some(r) => r,
            None => String::new(),
        }
    }

    /// As `full_info`, or `None` where the description fails.
    pub fn checked_full_info(&self, name: &'static str, input: Option<Option<&Critter>>) -> (r: Option<String>)
        ensures
            match r {
                Some(s) => full_info_bool(*self, name@, input) == Some(s@),
                None => full_info_bool(*self, name@, input) is None,
            },
    {
        let mut ctx = Context::new(name);
        if !self.try_describe(&mut ctx, input) {
            return None;
        }
        if let Some(d) = input {
            match self.checked_compute(d) {
                Some(v) => ctx.set_value(LineResult::Bool(v)),
                None => {
                    return None;
                },
            }
        }
        Some(write_info(ctx))
    }
}

} // verus!
