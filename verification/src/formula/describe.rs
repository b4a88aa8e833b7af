use vstd::prelude::*;
use crate::critter::Critter;
use super::ast::{BoolFormula, CompareOp, IntFormula, Precedence};
use super::context::{
    desc_add_param, desc_consume, desc_new, desc_push, desc_set_value, ArgKey, ArgKeyView,
    ArgSortOrder, Context, DescModel, LineResult, LineValue,
};
use super::eval::{eval_bool, eval_int};
use crate::text::int_text;

verus! {

pub open spec fn bool_text(b: bool) -> Seq<char> {
    if b { "Да"@ } else { "Нет"@ }
}

pub open spec fn compare_separator(op: CompareOp) -> Seq<char> {
    match op {
        CompareOp::Equal => " РАВНО "@,
        CompareOp::NotEqual => " НЕ РАВНО "@,
        CompareOp::GreaterThan => " БОЛЬШЕ ЧЕМ "@,
        CompareOp::GreaterOrEqual => " БОЛЬШЕ ИЛИ РАВНО "@,
        CompareOp::LessThan => " МЕНЬШЕ "@,
        CompareOp::LessOrEqual => " МЕНЬШЕ ИЛИ РАВНО "@,
    }
}

pub fn compare_separator_str(op: CompareOp) -> (r: &'static str)
    ensures
        r@ == compare_separator(op),
{
    match op {
        CompareOp::Equal => " РАВНО ",
        CompareOp::NotEqual => " НЕ РАВНО ",
        CompareOp::GreaterThan => " БОЛЬШЕ ЧЕМ ",
        CompareOp::GreaterOrEqual => " БОЛЬШЕ ИЛИ РАВНО ",
        CompareOp::LessThan => " МЕНЬШЕ ",
        CompareOp::LessOrEqual => " МЕНЬШЕ ИЛИ РАВНО ",
    }
}


/// Number of nodes of a formula.
pub open spec fn int_size(f: IntFormula) -> nat
    decreases f,
{
    match f {
        IntFormula::Add(a, b) | IntFormula::Sub(a, b) | IntFormula::Mul(a, b)
        | IntFormula::Div(a, b) | IntFormula::Pow(a, b) | IntFormula::Max(a, b) =>
            1 + int_size(*a) + int_size(*b),
        IntFormula::IfElse(ie) => 1 + bool_size(*ie.condition) + int_size(*ie.first) + int_size(*ie.second),
        IntFormula::Clamp(c) => 1 + int_size(*c.value) + int_size(*c.min) + int_size(*c.max),
        IntFormula::Cut(c) => 1 + int_size(*c.fragment),
        _ => 1,
    }
}

pub open spec fn bool_size(f: BoolFormula) -> nat
    decreases f,
{
    match f {
        BoolFormula::And(a, b) | BoolFormula::Or(a, b) => 1 + bool_size(*a) + bool_size(*b),
        BoolFormula::Compare(c) => 1 + int_size(*c.first) + int_size(*c.second),
        BoolFormula::IfElse(ie) => 1 + bool_size(*ie.condition) + bool_size(*ie.first) + bool_size(*ie.second),
        BoolFormula::Cut(c) => 1 + bool_size(*c.fragment),
        _ => 1,
    }
}

/// Lists a value under a key, the description failing on a collision.
pub open spec fn then_add(m: Option<DescModel>, key: ArgKeyView, value: LineValue) -> Option<DescModel> {
    match m {
        Some(m) => desc_add_param(m, key, value),
        None => None,
    }
}

pub open spec fn then_push(m: Option<DescModel>, text: Seq<char>) -> Option<DescModel> {
    match m {
        Some(m) => Some(desc_push(m, text)),
        None => None,
    }
}

/// A data leaf: its name is written, and when values are asked for, its
/// value is listed under `key`.
pub open spec fn describe_leaf(
    m: DescModel,
    name: Seq<char>,
    key: ArgKeyView,
    input: Option<Option<&Critter>>,
    value: Option<LineValue>,
) -> Option<DescModel> {
    let m1 = desc_push(m, name);
    match input {
        None => Some(m1),
        Some(_) => match value {
            Some(v) => desc_add_param(m1, key, v),
            None => None,
        },
    }
}

pub open spec fn int_value(v: Option<i32>) -> Option<LineValue> {
    match v {
        Some(x) => Some(LineValue::Int32(x)),
        None => None,
    }
}

pub open spec fn bool_value(v: Option<bool>) -> Option<LineValue> {
    match v {
        Some(x) => Some(LineValue::Bool(x)),
        None => None,
    }
}

pub open spec fn input_data(input: Option<Option<&Critter>>) -> Option<&Critter> {
    match input {
        Some(d) => d,
        None => None,
    }
}

/// `f` written after an operator of precedence `outer`, in parentheses when
/// `f` binds more loosely than the operator.
pub open spec fn spec_braces_int(outer: Precedence, f: IntFormula, m: DescModel, input: Option<Option<&Critter>>) -> Option<DescModel>
    decreases int_size(f), 1nat,
{
    if outer.spec_rank() >= f.spec_precedence().spec_rank() {
        describe_int(f, m, input)
    } else {
        then_push(describe_int(f, desc_push(m, "("@), input), ")"@)
    }
}

pub open spec fn spec_braces_bool(outer: Precedence, f: BoolFormula, m: DescModel, input: Option<Option<&Critter>>) -> Option<DescModel>
    decreases bool_size(f), 1nat,
{
    if outer.spec_rank() >= f.spec_precedence().spec_rank() {
        describe_bool(f, m, input)
    } else {
        then_push(describe_bool(f, desc_push(m, "("@), input), ")"@)
    }
}

/// Two operands around a separator.
pub open spec fn spec_biop_int(outer: Precedence, a: IntFormula, b: IntFormula, sep: Seq<char>, m: DescModel, input: Option<Option<&Critter>>) -> Option<DescModel>
    decreases int_size(a) + int_size(b), 2nat,
{
    match spec_braces_int(outer, a, m, input) {
        Some(m1) => spec_braces_int(outer, b, desc_push(m1, sep), input),
        None => None,
    }
}

pub open spec fn spec_biop_bool(outer: Precedence, a: BoolFormula, b: BoolFormula, sep: Seq<char>, m: DescModel, input: Option<Option<&Critter>>) -> Option<DescModel>
    decreases bool_size(a) + bool_size(b), 2nat,
{
    match spec_braces_bool(outer, a, m, input) {
        Some(m1) => spec_braces_bool(outer, b, desc_push(m1, sep), input),
        None => None,
    }
}

/// A named part: written by its name, described on a line of its own that
/// carries its value when values are asked for.
pub open spec fn describe_cut(name: Seq<char>, local: Option<DescModel>, value: Option<LineValue>, m: DescModel, input: Option<Option<&Critter>>) -> Option<DescModel> {
    match local {
        None => None,
        Some(l) => {
            let l2 = match input {
                None => Some(l),
                Some(_) => match value {
                    Some(v) => Some(desc_set_value(l, v)),
                    None => None,
                },
            };
            match l2 {
                Some(l2) => desc_consume(desc_push(m, name), l2),
                None => None,
            }
        },
    }
}

/// The description of an integer formula written into `m`; `input` is
/// `None` for the text alone and `Some(data)` for the text with values.
/// `None` where it fails: a value that cannot be computed, or one key listed
/// with two different values.
pub open spec fn describe_int(f: IntFormula, m: DescModel, input: Option<Option<&Critter>>) -> Option<DescModel>
    decreases int_size(f), 0nat,
{
    let data = input_data(input);
    match f {
        IntFormula::Int(v) => Some(desc_push(m, int_text(v as int))),
        IntFormula::Invar(i) => desc_add_param(
            desc_push(m, i.name@),
            ArgKeyView { order: ArgSortOrder::Invar, index: 0, name: i.name@ },
            LineValue::Int32(i.value),
        ),
        IntFormula::Param(p) => describe_leaf(
            m, p.name@, ArgKeyView { order: ArgSortOrder::Stat, index: p.index, name: p.name@ },
            input, int_value(eval_int(f, data))),
        IntFormula::WornArmorClass(name) => describe_leaf(
            m, name@, ArgKeyView { order: ArgSortOrder::Stat, index: 0, name: name@ },
            input, int_value(eval_int(f, data))),
        IntFormula::WornArmorStat(_, name) => describe_leaf(
            m, name@, ArgKeyView { order: ArgSortOrder::Stat, index: 0, name: name@ },
            input, int_value(eval_int(f, data))),
        IntFormula::Add(a, b) => spec_biop_int(Precedence::Add, *a, *b, " + "@, m, input),
        IntFormula::Sub(a, b) => spec_biop_int(Precedence::Add, *a, *b, " - "@, m, input),
        IntFormula::Mul(a, b) => spec_biop_int(Precedence::Mul, *a, *b, " x "@, m, input),
        IntFormula::Div(a, b) => spec_biop_int(Precedence::Mul, *a, *b, " / "@, m, input),
        IntFormula::Pow(a, b) => spec_biop_int(Precedence::Pow, *a, *b, "^"@, m, input),
        IntFormula::Max(a, b) => match describe_int(*a, desc_push(m, "МАКС("@), input) {
            Some(m1) => then_push(describe_int(*b, desc_push(m1, ", "@), input), ")"@),
            None => None,
        },
        IntFormula::IfElse(ie) => match spec_braces_bool(Precedence::Bound, *ie.condition, desc_push(m, "ЕСЛИ "@), input) {
            Some(m1) => spec_biop_int(Precedence::Bound, *ie.first, *ie.second, " ИНАЧЕ "@, desc_push(m1, " ТО "@), input),
            None => None,
        },
        IntFormula::Clamp(c) => match spec_biop_int(Precedence::Bound, *c.min, *c.max, " < X < "@, desc_push(m, "В РАМКАХ ("@), input) {
            Some(m1) => spec_braces_int(Precedence::Bound, *c.value, desc_push(m1, ") ОГРАНИЧИТЬ "@), input),
            None => None,
        },
        IntFormula::Cut(c) => describe_cut(
            c.name@, describe_int(*c.fragment, desc_new(c.name@), input),
            int_value(eval_int(*c.fragment, data)), m, input),
    }
}

/// The description of a boolean formula; see `describe_int`.
pub open spec fn describe_bool(f: BoolFormula, m: DescModel, input: Option<Option<&Critter>>) -> Option<DescModel>
    decreases bool_size(f), 0nat,
{
    let data = input_data(input);
    match f {
        BoolFormula::Bool(b) => Some(desc_push(m, bool_text(b))),
        BoolFormula::IsNight(name) => describe_leaf(
            m, name@, ArgKeyView { order: ArgSortOrder::Stat, index: 0, name: name@ },
            input, bool_value(eval_bool(f, data))),
        BoolFormula::And(a, b) => spec_biop_bool(Precedence::BitAnd, *a, *b, " И "@, m, input),
        BoolFormula::Or(a, b) => spec_biop_bool(Precedence::BitOr, *a, *b, " ИЛИ "@, m, input),
        BoolFormula::Compare(c) => spec_biop_int(Precedence::Bound, *c.first, *c.second, compare_separator(c.op), m, input),
        BoolFormula::IfElse(ie) => match spec_braces_bool(Precedence::Bound, *ie.condition, desc_push(m, "ЕСЛИ "@), input) {
            Some(m1) => spec_biop_bool(Precedence::Bound, *ie.first, *ie.second, " ИНАЧЕ "@, desc_push(m1, " ТО "@), input),
            None => None,
        },
        BoolFormula::Cut(c) => describe_cut(
            c.name@, describe_bool(*c.fragment, desc_new(c.name@), input),
            bool_value(eval_bool(*c.fragment, data)), m, input),
    }
}


fn braces_int(outer: Precedence, f: &IntFormula, ctx: &mut Context, input: Option<Option<&Critter>>) -> (ok: bool)
    ensures
        ok == spec_braces_int(outer, *f, old(ctx)@, input) is Some,
        ok ==> Some(final(ctx)@) == spec_braces_int(outer, *f, old(ctx)@, input),
    decreases int_size(*f), 1nat,
{
    if outer.rank() >= f.precedence().rank() {
        f.try_describe(ctx, input)
    } else {
        ctx.push_str("(");
        if !f.try_describe(ctx, input) {
            return false;
        }
        ctx.push_str(")");
        true
    }
}

fn braces_bool(outer: Precedence, f: &BoolFormula, ctx: &mut Context, input: Option<Option<&Critter>>) -> (ok: bool)
    ensures
        ok == spec_braces_bool(outer, *f, old(ctx)@, input) is Some,
        ok ==> Some(final(ctx)@) == spec_braces_bool(outer, *f, old(ctx)@, input),
    decreases bool_size(*f), 1nat,
{
    if outer.rank() >= f.precedence().rank() {
        f.try_describe(ctx, input)
    } else {
        ctx.push_str("(");
        if !f.try_describe(ctx, input) {
            return false;
        }
        ctx.push_str(")");
        true
    }
}

fn biop_int(outer: Precedence, a: &IntFormula, b: &IntFormula, sep: &str, ctx: &mut Context, input: Option<Option<&Critter>>) -> (ok: bool)
    ensures
        ok == spec_biop_int(outer, *a, *b, sep@, old(ctx)@, input) is Some,
        ok ==> Some(final(ctx)@) == spec_biop_int(outer, *a, *b, sep@, old(ctx)@, input),
    decreases int_size(*a) + int_size(*b), 2nat,
{
    if !braces_int(outer, a, ctx, input) {
        return false;
    }
    ctx.push_str(sep);
    braces_int(outer, b, ctx, input)
}

fn biop_bool(outer: Precedence, a: &BoolFormula, b: &BoolFormula, sep: &str, ctx: &mut Context, input: Option<Option<&Critter>>) -> (ok: bool)
    ensures
        ok == spec_biop_bool(outer, *a, *b, sep@, old(ctx)@, input) is Some,
        ok ==> Some(final(ctx)@) == spec_biop_bool(outer, *a, *b, sep@, old(ctx)@, input),
    decreases bool_size(*a) + bool_size(*b), 2nat,
{
    if !braces_bool(outer, a, ctx, input) {
        return false;
    }
    ctx.push_str(sep);
    braces_bool(outer, b, ctx, input)
}

/// A data leaf of a description: its name, and its value when values are asked for.
fn leaf(name: &'static str, key: ArgKey, value: Option<LineResult>, ctx: &mut Context, input: Option<Option<&Critter>>) -> (ok: bool)
    requires
        key@.name == name@,
        input is Some ==> (value is Some),
    ensures
        ok == describe_leaf(old(ctx)@, name@, key@, input,
            match value { Some(v) => Some(v@), None => None }) is Some,
        ok ==> Some(final(ctx)@) == describe_leaf(old(ctx)@, name@, key@, input,
            match value { Some(v) => Some(v@), None => None }),
{
    ctx.push_str(name);
    match input {
        None => true,
        Some(_) => match value {
            Some(v) => ctx.try_add_param(key, v),
            None => false,
        },
    }
}

impl IntFormula {
    /// Writes the description of the formula into `ctx`; with `input` given,
    /// the values of its parts and parameters are listed too. Returns `false`
    /// where the description fails, after which `ctx` is not to be used.
    pub fn try_describe(&self, ctx: &mut Context, input: Option<Option<&Critter>>) -> (ok: bool)
        ensures
            ok == describe_int(*self, old(ctx)@, input) is Some,
            ok ==> Some(final(ctx)@) == describe_int(*self, old(ctx)@, input),
        decreases int_size(*self), 0nat,
    {
        let data = match input {
            Some(d) => d,
            None => None,
        };
        match self {
            IntFormula::Int(v) => {
                ctx.push_i32(*v);
                true
            },
            IntFormula::Invar(i) => {
                ctx.push_str(i.name);
                ctx.try_add_param(ArgKey { order: ArgSortOrder::Invar, index: 0, name: i.name }, LineResult::Int32(i.value))
            },
            IntFormula::Param(p) => {
                let key = ArgKey { order: ArgSortOrder::Stat, index: p.index, name: p.name };
                match input {
                    None => leaf(p.name, key, None, ctx, input),
                    Some(_) => match self.checked_compute(data) {
                        Some(v) => leaf(p.name, key, Some(LineResult::Int32(v)), ctx, input),
                        None => false,
                    },
                }
            },
            IntFormula::WornArmorClass(name) | IntFormula::WornArmorStat(_, name) => {
                let key = ArgKey { order: ArgSortOrder::Stat, index: 0, name: *name };
                match input {
                    None => leaf(name, key, None, ctx, input),
                    Some(_) => match self.checked_compute(data) {
                        Some(v) => leaf(name, key, Some(LineResult::Int32(v)), ctx, input),
                        None => false,
                    },
                }
            },
            IntFormula::Add(a, b) => biop_int(Precedence::Add, a, b, " + ", ctx, input),
            IntFormula::Sub(a, b) => biop_int(Precedence::Add, a, b, " - ", ctx, input),
            IntFormula::Mul(a, b) => biop_int(Precedence::Mul, a, b, " x ", ctx, input),
            IntFormula::Div(a, b) => biop_int(Precedence::Mul, a, b, " / ", ctx, input),
            IntFormula::Pow(a, b) => biop_int(Precedence::Pow, a, b, "^", ctx, input),
            IntFormula::Max(a, b) => {
                ctx.push_str("МАКС(");
                if !a.try_describe(ctx, input) {
                    return false;
                }
                ctx.push_str(", ");
                if !b.try_describe(ctx, input) {
                    return false;
                }
                ctx.push_str(")");
                true
            },
            IntFormula::IfElse(ie) => {
                ctx.push_str("ЕСЛИ ");
                if !braces_bool(Precedence::Bound, &ie.condition, ctx, input) {
                    return false;
                }
                ctx.push_str(" ТО ");
                biop_int(Precedence::Bound, &ie.first, &ie.second, " ИНАЧЕ ", ctx, input)
            },
            IntFormula::Clamp(c) => {
                ctx.push_str("В РАМКАХ (");
                if !biop_int(Precedence::Bound, &c.min, &c.max, " < X < ", ctx, input) {
                    return false;
                }
                ctx.push_str(") ОГРАНИЧИТЬ ");
                braces_int(Precedence::Bound, &c.value, ctx, input)
            },
            IntFormula::Cut(c) => {
                let mut local = ctx.local(c.name);
                if !c.fragment.try_describe(&mut local, input) {
                    return false;
                }
                ctx.push_str(c.name);
                if input.is_some() {
                    match c.fragment.checked_compute(data) {
                        Some(v) => local.set_value(LineResult::Int32(v)),
                        None => {
                            return false;
                        },
                    }
                }
                ctx.try_consume(local)
            },
        }
    }

    /// Writes the description of the formula into `ctx`.
    pub fn describe(&self, ctx: &mut Context, input: Option<Option<&Critter>>)
        requires
            describe_int(*self, old(ctx)@, input) is Some,
        ensures
            Some(final(ctx)@) == describe_int(*self, old(ctx)@, input),
    {
        let _ = self.try_describe(ctx, input);
    }
}

impl BoolFormula {
    /// Writes the description of the formula into `ctx`; see `IntFormula::try_describe`.
    pub fn try_describe(&self, ctx: &mut Context, input: Option<Option<&Critter>>) -> (ok: bool)
        ensures
            ok == describe_bool(*self, old(ctx)@, input) is Some,
            ok ==> Some(final(ctx)@) == describe_bool(*self, old(ctx)@, input),
        decreases bool_size(*self), 0nat,
    {
        let data = match input {
            Some(d) => d,
            None => None,
        };
        match self {
            BoolFormula::Bool(b) => {
                if *b {
                    ctx.push_str("Да");
                } else {
                    ctx.push_str("Нет");
                }
                true
            },
            BoolFormula::IsNight(name) => {
                let key = ArgKey { order: ArgSortOrder::Stat, index: 0, name: *name };
                match input {
                    None => leaf(name, key, None, ctx, input),
                    Some(_) => match self.checked_compute(data) {
                        Some(v) => leaf(name, key, Some(LineResult::Bool(v)), ctx, input),
                        None => false,
                    },
                }
            },
            BoolFormula::And(a, b) => biop_bool(Precedence::BitAnd, a, b, " И ", ctx, input),
            BoolFormula::Or(a, b) => biop_bool(Precedence::BitOr, a, b, " ИЛИ ", ctx, input),
            BoolFormula::Compare(c) => {
                let sep = compare_separator_str(c.op);
                biop_int(Precedence::Bound, &c.first, &c.second, sep, ctx, input)
            },
            BoolFormula::IfElse(ie) => {
                ctx.push_str("ЕСЛИ ");
                if !braces_bool(Precedence::Bound, &ie.condition, ctx, input) {
                    return false;
                }
                ctx.push_str(" ТО ");
                biop_bool(Precedence::Bound, &ie.first, &ie.second, " ИНАЧЕ ", ctx, input)
            },
            BoolFormula::Cut(c) => {
                let mut local = ctx.local(c.name);
                if !c.fragment.try_describe(&mut local, input) {
                    return false;
                }
                ctx.push_str(c.name);
                if input.is_some() {
                    match c.fragment.checked_compute(data) {
                        Some(v) => local.set_value(LineResult::Bool(v)),
                        None => {
                            return false;
                        },
                    }
                }
                ctx.try_consume(local)
            },
        }
    }

    /// Writes the description of the formula into `ctx`.
    pub fn describe(&self, ctx: &mut Context, input: Option<Option<&Critter>>)
        requires
            describe_bool(*self, old(ctx)@, input) is Some,
        ensures
            Some(final(ctx)@) == describe_bool(*self, old(ctx)@, input),
    {
        let _ = self.try_describe(ctx, input);
    }
}

} // verus!
