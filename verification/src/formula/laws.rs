use vstd::prelude::*;
use crate::critter::Critter;
use super::ast::{BoolFormula, Clamp, Compare, CompareOp, Cut, IntFormula, Precedence};
use super::context::{
    desc_add_param, desc_consume, desc_new, desc_push, desc_set_value, key_lt, merge_args, sorted_insert,
    ArgKeyView, ArgSortOrder, DescModel, LineValue,
};
use super::describe::{
    bool_size, bool_value, compare_separator, describe_bool, describe_cut, describe_int,
    input_data, int_size, int_value, spec_biop_bool, spec_biop_int, spec_braces_bool,
    spec_braces_int, then_push,
};
use super::eval::{eval_bool, eval_int};
use super::info::{full_info_int, info_text};
use crate::text::chars_lt;

verus! {

/// A formula that reads no critter data: no parameter, armor or time leaf.
pub open spec fn int_is_constant(f: IntFormula) -> bool
    decreases f,
{
    match f {
        IntFormula::Int(_) | IntFormula::Invar(_) => true,
        IntFormula::Param(_) | IntFormula::WornArmorClass(_) | IntFormula::WornArmorStat(_, _) => false,
        IntFormula::Add(a, b) | IntFormula::Sub(a, b) | IntFormula::Mul(a, b)
        | IntFormula::Div(a, b) | IntFormula::Pow(a, b) | IntFormula::Max(a, b) =>
            int_is_constant(*a) && int_is_constant(*b),
        IntFormula::IfElse(ie) => bool_is_constant(*ie.condition) && int_is_constant(*ie.first)
            && int_is_constant(*ie.second),
        IntFormula::Clamp(c) => int_is_constant(*c.value) && int_is_constant(*c.min) && int_is_constant(*c.max),
        IntFormula::Cut(c) => int_is_constant(*c.fragment),
    }
}

pub open spec fn bool_is_constant(f: BoolFormula) -> bool
    decreases f,
{
    match f {
        BoolFormula::Bool(_) => true,
        BoolFormula::IsNight(_) => false,
        BoolFormula::And(a, b) | BoolFormula::Or(a, b) => bool_is_constant(*a) && bool_is_constant(*b),
        BoolFormula::Compare(c) => int_is_constant(*c.first) && int_is_constant(*c.second),
        BoolFormula::IfElse(ie) => bool_is_constant(*ie.condition) && bool_is_constant(*ie.first)
            && bool_is_constant(*ie.second),
        BoolFormula::Cut(c) => bool_is_constant(*c.fragment),
    }
}

/// A formula that reads no critter data has the same value whatever it is
/// computed over, with a critter or without one.
pub proof fn lemma_constant_int_input_independent(f: IntFormula, x: Option<&Critter>, y: Option<&Critter>)
    requires
        int_is_constant(f),
    ensures
        eval_int(f, x) == eval_int(f, y),
    decreases f,
{
    match f {
        IntFormula::Add(a, b) | IntFormula::Sub(a, b) | IntFormula::Mul(a, b)
        | IntFormula::Div(a, b) | IntFormula::Pow(a, b) | IntFormula::Max(a, b) => {
            lemma_constant_int_input_independent(*a, x, y);
            lemma_constant_int_input_independent(*b, x, y);
        },
        IntFormula::IfElse(ie) => {
            lemma_constant_bool_input_independent(*ie.condition, x, y);
            lemma_constant_int_input_independent(*ie.first, x, y);
            lemma_constant_int_input_independent(*ie.second, x, y);
        },
        IntFormula::Clamp(c) => {
            lemma_constant_int_input_independent(*c.value, x, y);
            lemma_constant_int_input_independent(*c.min, x, y);
            lemma_constant_int_input_independent(*c.max, x, y);
        },
        IntFormula::Cut(c) => {
            lemma_constant_int_input_independent(*c.fragment, x, y);
        },
        _ => {},
    }
}

/// See `lemma_constant_int_input_independent`.
pub proof fn lemma_constant_bool_input_independent(f: BoolFormula, x: Option<&Critter>, y: Option<&Critter>)
    requires
        bool_is_constant(f),
    ensures
        eval_bool(f, x) == eval_bool(f, y),
    decreases f,
{
    match f {
        BoolFormula::And(a, b) | BoolFormula::Or(a, b) => {
            lemma_constant_bool_input_independent(*a, x, y);
            lemma_constant_bool_input_independent(*b, x, y);
        },
        BoolFormula::Compare(c) => {
            lemma_constant_int_input_independent(*c.first, x, y);
            lemma_constant_int_input_independent(*c.second, x, y);
        },
        BoolFormula::IfElse(ie) => {
            lemma_constant_bool_input_independent(*ie.condition, x, y);
            lemma_constant_bool_input_independent(*ie.first, x, y);
            lemma_constant_bool_input_independent(*ie.second, x, y);
        },
        BoolFormula::Cut(c) => {
            lemma_constant_bool_input_independent(*c.fragment, x, y);
        },
        _ => {},
    }
}

/// Naming a part of a formula does not change its value.
pub proof fn lemma_cut_keeps_value(name: &'static str, f: IntFormula, input: Option<&Critter>)
    ensures
        eval_int(IntFormula::Cut(Cut { name, fragment: Box::new(f) }), input) == eval_int(f, input),
{
}

/// The saturating sum does not depend on the order of its operands.
pub proof fn lemma_plus_commutes(a: IntFormula, b: IntFormula, input: Option<&Critter>)
    ensures
        eval_int(IntFormula::Add(Box::new(a), Box::new(b)), input)
            == eval_int(IntFormula::Add(Box::new(b), Box::new(a)), input),
{
}

/// The saturating product does not depend on the order of its operands.
pub proof fn lemma_times_commutes(a: IntFormula, b: IntFormula, input: Option<&Critter>)
    ensures
        eval_int(IntFormula::Mul(Box::new(a), Box::new(b)), input)
            == eval_int(IntFormula::Mul(Box::new(b), Box::new(a)), input),
{
    assert forall|x: i32, y: i32| #[trigger] (x as int * y as int) == y as int * x as int by {
        assert(x as int * y as int == y as int * x as int) by (nonlinear_arith);
    }
}

/// `И` with a false first operand is false without computing the second,
/// which may even fail.
pub proof fn lemma_and_short_circuits(a: BoolFormula, b: BoolFormula, input: Option<&Critter>)
    requires
        eval_bool(a, input) == Some(false),
    ensures
        eval_bool(BoolFormula::And(Box::new(a), Box::new(b)), input) == Some(false),
{
}

/// `ИЛИ` with a true first operand is true without computing the second.
pub proof fn lemma_or_short_circuits(a: BoolFormula, b: BoolFormula, input: Option<&Critter>)
    requires
        eval_bool(a, input) == Some(true),
    ensures
        eval_bool(BoolFormula::Or(Box::new(a), Box::new(b)), input) == Some(true),
{
}

/// A bounded value lies within its bounds when the lower one does not
/// exceed the upper one, and equals the value when that is within them.
pub proof fn lemma_clamp_within_bounds(value: IntFormula, min: IntFormula, max: IntFormula, input: Option<&Critter>)
    requires
        eval_int(value, input) is Some,
        eval_int(min, input) is Some,
        eval_int(max, input) is Some,
        eval_int(min, input).unwrap() <= eval_int(max, input).unwrap(),
    ensures
        ({
            let r = eval_int(IntFormula::Clamp(Clamp { value: Box::new(value), min: Box::new(min), max: Box::new(max) }), input);
            let v = eval_int(value, input).unwrap();
            let lo = eval_int(min, input).unwrap();
            let hi = eval_int(max, input).unwrap();
            &&& r is Some
            &&& lo <= r.unwrap() <= hi
            &&& (lo <= v <= hi ==> r.unwrap() == v)
        }),
{
}

/// `chars_lt` is a strict order.
pub proof fn lemma_chars_lt_irreflexive(a: Seq<char>)
    ensures
        !chars_lt(a, a),
    decreases a.len(),
{
    if a.len() > 0 {
        lemma_chars_lt_irreflexive(a.drop_first());
    }
}

pub proof fn lemma_chars_lt_transitive(a: Seq<char>, b: Seq<char>, c: Seq<char>)
    requires
        chars_lt(a, b),
        chars_lt(b, c),
    ensures
        chars_lt(a, c),
    decreases a.len(),
{
    if a.len() > 0 && b.len() > 0 && c.len() > 0 {
        if (a[0] as int) == (b[0] as int) && (b[0] as int) == (c[0] as int) {
            lemma_chars_lt_transitive(a.drop_first(), b.drop_first(), c.drop_first());
        }
    }
}

/// Of two different character sequences, one is less than the other.
pub proof fn lemma_chars_lt_total(a: Seq<char>, b: Seq<char>)
    requires
        a != b,
    ensures
        chars_lt(a, b) || chars_lt(b, a),
    decreases a.len(),
{
    if a.len() > 0 && b.len() > 0 {
        if (a[0] as int) == (b[0] as int) {
            assert(a[0] == b[0]);
            if a.drop_first() == b.drop_first() {
                assert(a == seq![a[0]] + a.drop_first());
                assert(b == seq![b[0]] + b.drop_first());
            }
            lemma_chars_lt_total(a.drop_first(), b.drop_first());
        }
    } else if a.len() == 0 && b.len() == 0 {
        assert(a == b);
    }
}

pub proof fn lemma_key_lt_irreflexive(a: ArgKeyView)
    ensures
        !key_lt(a, a),
{
    lemma_chars_lt_irreflexive(a.name);
}

pub proof fn lemma_key_lt_transitive(a: ArgKeyView, b: ArgKeyView, c: ArgKeyView)
    requires
        key_lt(a, b),
        key_lt(b, c),
    ensures
        key_lt(a, c),
{
    if a.order.spec_rank() == b.order.spec_rank() && b.order.spec_rank() == c.order.spec_rank()
        && a.index == b.index && b.index == c.index {
        lemma_chars_lt_transitive(a.name, b.name, c.name);
    }
}

pub proof fn lemma_key_lt_total(a: ArgKeyView, b: ArgKeyView)
    requires
        a != b,
    ensures
        key_lt(a, b) || key_lt(b, a),
{
    if a.order.spec_rank() == b.order.spec_rank() && a.index == b.index {
        assert(a.order == b.order) by {
            match (a.order, b.order) {
                (ArgSortOrder::Invar, ArgSortOrder::Invar) => {},
                (ArgSortOrder::Stat, ArgSortOrder::Stat) => {},
                _ => {},
            }
        }
        if a.name == b.name {
            assert(a == b);
        }
        lemma_chars_lt_total(a.name, b.name);
    }
}

/// Keys strictly increase along the list.
pub open spec fn args_sorted(args: Seq<(ArgKeyView, LineValue)>) -> bool {
    forall|i: int, j: int| 0 <= i < j < args.len() ==> key_lt(#[trigger] args[i].0, #[trigger] args[j].0)
}

/// Listing an entry keeps the list ordered by key, as a map ordered by its
/// keys holds them, and the entry stands in it afterwards.
pub proof fn lemma_sorted_insert_keeps_order(args: Seq<(ArgKeyView, LineValue)>, key: ArgKeyView, value: LineValue)
    requires
        args_sorted(args),
        sorted_insert(args, key, value) is Some,
    ensures
        args_sorted(sorted_insert(args, key, value).unwrap()),
        sorted_insert(args, key, value).unwrap().contains((key, value)),
    decreases args.len(),
{
    let r = sorted_insert(args, key, value).unwrap();
    if args.len() == 0 {
        assert(r[0] == (key, value));
    } else if key_lt(args[0].0, key) {
        let tail = args.drop_first();
        assert forall|i: int, j: int| 0 <= i < j < tail.len() implies key_lt(#[trigger] tail[i].0, #[trigger] tail[j].0) by {
            assert(tail[i] == args[i + 1] && tail[j] == args[j + 1]);
        }
        lemma_sorted_insert_keeps_order(tail, key, value);
        let rest = sorted_insert(tail, key, value).unwrap();
        lemma_sorted_insert_members(tail, key, value);
        assert(r == seq![args[0]] + rest);
        assert forall|i: int, j: int| 0 <= i < j < r.len() implies key_lt(#[trigger] r[i].0, #[trigger] r[j].0) by {
            if i == 0 {
                let e = rest[j - 1];
                assert(rest.contains(e));
                assert(r[j] == e);
                if e == (key, value) {
                } else {
                    let k = choose|k: int| 0 <= k < tail.len() && tail[k] == e;
                    assert(tail[k] == args[k + 1]);
                }
            } else {
                assert(r[i] == rest[i - 1] && r[j] == rest[j - 1]);
            }
        }
        let k = choose|k: int| 0 <= k < rest.len() && rest[k] == (key, value);
        assert(r[k + 1] == (key, value));
    } else if args[0].0 == key {
        assert(r == args);
        assert(r[0] == (key, value));
    } else {
        lemma_key_lt_total(args[0].0, key);
        assert(r == seq![(key, value)] + args);
        assert forall|i: int, j: int| 0 <= i < j < r.len() implies key_lt(#[trigger] r[i].0, #[trigger] r[j].0) by {
            if i == 0 {
                assert(r[j] == args[j - 1]);
                if j - 1 > 0 {
                    assert(key_lt(args[0].0, args[j - 1].0));
                    lemma_key_lt_transitive(key, args[0].0, args[j - 1].0);
                }
            } else {
                assert(r[i] == args[i - 1] && r[j] == args[j - 1]);
            }
        }
        assert(r[0] == (key, value));
    }
}

/// The entries after listing one are the former entries and the new one.
pub proof fn lemma_sorted_insert_members(args: Seq<(ArgKeyView, LineValue)>, key: ArgKeyView, value: LineValue)
    requires
        sorted_insert(args, key, value) is Some,
    ensures
        forall|e| #[trigger] sorted_insert(args, key, value).unwrap().contains(e)
            ==> e == (key, value) || args.contains(e),
    decreases args.len(),
{
    let r = sorted_insert(args, key, value).unwrap();
    if args.len() == 0 {
    } else if key_lt(args[0].0, key) {
        let tail = args.drop_first();
        lemma_sorted_insert_members(tail, key, value);
        let rest = sorted_insert(tail, key, value).unwrap();
        assert(r == seq![args[0]] + rest);
        assert forall|e| #[trigger] r.contains(e) implies e == (key, value) || args.contains(e) by {
            let k = choose|k: int| 0 <= k < r.len() && r[k] == e;
            if k == 0 {
                assert(args[0] == e);
            } else {
                assert(rest[k - 1] == e);
                assert(rest.contains(e));
                if tail.contains(e) {
                    let m = choose|m: int| 0 <= m < tail.len() && tail[m] == e;
                    assert(args[m + 1] == e);
                }
            }
        }
    } else if args[0].0 == key {
    } else {
        assert(r == seq![(key, value)] + args);
        assert forall|e| #[trigger] r.contains(e) implies e == (key, value) || args.contains(e) by {
            let k = choose|k: int| 0 <= k < r.len() && r[k] == e;
            if k > 0 {
                assert(args[k - 1] == e);
            }
        }
    }
}


pub proof fn lemma_merge_keeps_order(args: Seq<(ArgKeyView, LineValue)>, local: Seq<(ArgKeyView, LineValue)>)
    requires
        args_sorted(args),
        merge_args(args, local) is Some,
    ensures
        args_sorted(merge_args(args, local).unwrap()),
    decreases local.len(),
{
    if local.len() > 0 {
        lemma_sorted_insert_keeps_order(args, local[0].0, local[0].1);
        lemma_merge_keeps_order(sorted_insert(args, local[0].0, local[0].1).unwrap(), local.drop_first());
    }
}

proof fn lemma_add_param_keeps_order(m: DescModel, key: ArgKeyView, value: LineValue)
    requires
        args_sorted(m.args),
        desc_add_param(m, key, value) is Some,
    ensures
        args_sorted(desc_add_param(m, key, value).unwrap().args),
{
    lemma_sorted_insert_keeps_order(m.args, key, value);
}

proof fn lemma_cut_keeps_order(name: Seq<char>, local: Option<DescModel>, value: Option<LineValue>, m: DescModel, input: Option<Option<&Critter>>)
    requires
        args_sorted(m.args),
        describe_cut(name, local, value, m, input) is Some,
    ensures
        args_sorted(describe_cut(name, local, value, m, input).unwrap().args),
{
    let l = local.unwrap();
    let l2 = match input {
        None => l,
        Some(_) => desc_set_value(l, value.unwrap()),
    };
    lemma_merge_keeps_order(desc_push(m, name).args, l2.args);
}

proof fn lemma_braces_int_keeps_order(outer: Precedence, f: IntFormula, m: DescModel, input: Option<Option<&Critter>>)
    requires
        args_sorted(m.args),
        spec_braces_int(outer, f, m, input) is Some,
    ensures
        args_sorted(spec_braces_int(outer, f, m, input).unwrap().args),
    decreases int_size(f), 1nat,
{
    if outer.spec_rank() >= f.spec_precedence().spec_rank() {
        lemma_describe_int_keeps_order(f, m, input);
    } else {
        lemma_describe_int_keeps_order(f, desc_push(m, "("@), input);
    }
}

proof fn lemma_braces_bool_keeps_order(outer: Precedence, f: BoolFormula, m: DescModel, input: Option<Option<&Critter>>)
    requires
        args_sorted(m.args),
        spec_braces_bool(outer, f, m, input) is Some,
    ensures
        args_sorted(spec_braces_bool(outer, f, m, input).unwrap().args),
    decreases bool_size(f), 1nat,
{
    if outer.spec_rank() >= f.spec_precedence().spec_rank() {
        lemma_describe_bool_keeps_order(f, m, input);
    } else {
        lemma_describe_bool_keeps_order(f, desc_push(m, "("@), input);
    }
}

proof fn lemma_biop_int_keeps_order(outer: Precedence, a: IntFormula, b: IntFormula, sep: Seq<char>, m: DescModel, input: Option<Option<&Critter>>)
    requires
        args_sorted(m.args),
        spec_biop_int(outer, a, b, sep, m, input) is Some,
    ensures
        args_sorted(spec_biop_int(outer, a, b, sep, m, input).unwrap().args),
    decreases int_size(a) + int_size(b), 2nat,
{
    lemma_braces_int_keeps_order(outer, a, m, input);
    let m1 = spec_braces_int(outer, a, m, input).unwrap();
    lemma_braces_int_keeps_order(outer, b, desc_push(m1, sep), input);
}

proof fn lemma_biop_bool_keeps_order(outer: Precedence, a: BoolFormula, b: BoolFormula, sep: Seq<char>, m: DescModel, input: Option<Option<&Critter>>)
    requires
        args_sorted(m.args),
        spec_biop_bool(outer, a, b, sep, m, input) is Some,
    ensures
        args_sorted(spec_biop_bool(outer, a, b, sep, m, input).unwrap().args),
    decreases bool_size(a) + bool_size(b), 2nat,
{
    lemma_braces_bool_keeps_order(outer, a, m, input);
    let m1 = spec_braces_bool(outer, a, m, input).unwrap();
    lemma_braces_bool_keeps_order(outer, b, desc_push(m1, sep), input);
}

/// Writing the description of a formula keeps the listed constants and
/// parameters ordered by key.
pub proof fn lemma_describe_int_keeps_order(f: IntFormula, m: DescModel, input: Option<Option<&Critter>>)
    requires
        args_sorted(m.args),
        describe_int(f, m, input) is Some,
    ensures
        args_sorted(describe_int(f, m, input).unwrap().args),
    decreases int_size(f), 0nat,
{
    match f {
        IntFormula::Int(_) => {},
        IntFormula::Invar(i) => {
            lemma_add_param_keeps_order(desc_push(m, i.name@),
                ArgKeyView { order: ArgSortOrder::Invar, index: 0, name: i.name@ },
                LineValue::Int32(i.value));
        },
        IntFormula::Param(_) | IntFormula::WornArmorClass(_) | IntFormula::WornArmorStat(_, _) => {
            let (name, index) = match f {
                IntFormula::Param(p) => (p.name, p.index),
                IntFormula::WornArmorClass(name) => (name, 0u16),
                IntFormula::WornArmorStat(_, name) => (name, 0u16),
                _ => (arbitrary(), 0u16),
            };
            if input is Some {
                let v = int_value(eval_int(f, input_data(input)));
                lemma_add_param_keeps_order(desc_push(m, name@),
                    ArgKeyView { order: ArgSortOrder::Stat, index, name: name@ },
                    v.unwrap());
            }
        },
        IntFormula::Add(a, b) => lemma_biop_int_keeps_order(Precedence::Add, *a, *b, " + "@, m, input),
        IntFormula::Sub(a, b) => lemma_biop_int_keeps_order(Precedence::Add, *a, *b, " - "@, m, input),
        IntFormula::Mul(a, b) => lemma_biop_int_keeps_order(Precedence::Mul, *a, *b, " x "@, m, input),
        IntFormula::Div(a, b) => lemma_biop_int_keeps_order(Precedence::Mul, *a, *b, " / "@, m, input),
        IntFormula::Pow(a, b) => lemma_biop_int_keeps_order(Precedence::Pow, *a, *b, "^"@, m, input),
        IntFormula::Max(a, b) => {
            lemma_describe_int_keeps_order(*a, desc_push(m, "МАКС("@), input);
            let m1 = describe_int(*a, desc_push(m, "МАКС("@), input).unwrap();
            lemma_describe_int_keeps_order(*b, desc_push(m1, ", "@), input);
        },
        IntFormula::IfElse(ie) => {
            lemma_braces_bool_keeps_order(Precedence::Bound, *ie.condition, desc_push(m, "ЕСЛИ "@), input);
            let m1 = spec_braces_bool(Precedence::Bound, *ie.condition, desc_push(m, "ЕСЛИ "@), input).unwrap();
            lemma_biop_int_keeps_order(Precedence::Bound, *ie.first, *ie.second, " ИНАЧЕ "@, desc_push(m1, " ТО "@), input);
        },
        IntFormula::Clamp(c) => {
            lemma_biop_int_keeps_order(Precedence::Bound, *c.min, *c.max, " < X < "@, desc_push(m, "В РАМКАХ ("@), input);
            let m1 = spec_biop_int(Precedence::Bound, *c.min, *c.max, " < X < "@, desc_push(m, "В РАМКАХ ("@), input).unwrap();
            lemma_braces_int_keeps_order(Precedence::Bound, *c.value, desc_push(m1, ") ОГРАНИЧИТЬ "@), input);
        },
        IntFormula::Cut(c) => {
            let data = input_data(input);
            lemma_cut_keeps_order(c.name@, describe_int(*c.fragment, desc_new(c.name@), input),
                int_value(eval_int(*c.fragment, data)), m, input);
        },
    }
}

/// See `lemma_describe_int_keeps_order`.
pub proof fn lemma_describe_bool_keeps_order(f: BoolFormula, m: DescModel, input: Option<Option<&Critter>>)
    requires
        args_sorted(m.args),
        describe_bool(f, m, input) is Some,
    ensures
        args_sorted(describe_bool(f, m, input).unwrap().args),
    decreases bool_size(f), 0nat,
{
    match f {
        BoolFormula::Bool(_) => {},
        BoolFormula::IsNight(name) => {
            match input {
                None => {},
                Some(_) => {
                    let v = bool_value(eval_bool(f, input_data(input)));
                    lemma_add_param_keeps_order(desc_push(m, name@),
                        ArgKeyView { order: ArgSortOrder::Stat, index: 0, name: name@ },
                        v.unwrap());
                },
            }
        },
        BoolFormula::And(a, b) => lemma_biop_bool_keeps_order(Precedence::BitAnd, *a, *b, " И "@, m, input),
        BoolFormula::Or(a, b) => lemma_biop_bool_keeps_order(Precedence::BitOr, *a, *b, " ИЛИ "@, m, input),
        BoolFormula::Compare(c) => lemma_biop_int_keeps_order(Precedence::Bound, *c.first, *c.second,
            compare_separator(c.op), m, input),
        BoolFormula::IfElse(ie) => {
            lemma_braces_bool_keeps_order(Precedence::Bound, *ie.condition, desc_push(m, "ЕСЛИ "@), input);
            let m1 = spec_braces_bool(Precedence::Bound, *ie.condition, desc_push(m, "ЕСЛИ "@), input).unwrap();
            lemma_biop_bool_keeps_order(Precedence::Bound, *ie.first, *ie.second, " ИНАЧЕ "@, desc_push(m1, " ТО "@), input);
        },
        BoolFormula::Cut(c) => {
            let data = input_data(input);
            lemma_cut_keeps_order(c.name@, describe_bool(*c.fragment, desc_new(c.name@), input),
                bool_value(eval_bool(*c.fragment, data)), m, input);
        },
    }
}

/// The constants and parameters that a formula's full description lists
/// come in the order of their keys: constants before parameters, each by
/// index, then by name.
pub proof fn lemma_full_info_lists_in_key_order(f: IntFormula, name: Seq<char>, input: Option<Option<&Critter>>)
    ensures
        full_info_int(f, name, input) matches Some(text) ==> exists|m: DescModel|
            args_sorted(m.args) && text == #[trigger] info_text(m),
{
    if full_info_int(f, name, input) is Some {
        assert(args_sorted(desc_new(name).args));
        lemma_describe_int_keeps_order(f, desc_new(name), input);
        let m0 = describe_int(f, desc_new(name), input).unwrap();
        let m = match input {
            None => m0,
            Some(_) => desc_set_value(m0, LineValue::Int32(eval_int(f, input_data(input)).unwrap())),
        };
        assert(m.args == m0.args);
        assert(full_info_int(f, name, input).unwrap() == info_text(m));
    }
}

/// The value listed under `key`, if any: the list read as a map.
pub open spec fn arg_lookup(args: Seq<(ArgKeyView, LineValue)>, key: ArgKeyView) -> Option<LineValue>
    decreases args.len(),
{
    if args.len() == 0 {
        None
    } else if args[0].0 == key {
        Some(args[0].1)
    } else {
        arg_lookup(args.drop_first(), key)
    }
}

proof fn lemma_lookup_absent(args: Seq<(ArgKeyView, LineValue)>, key: ArgKeyView)
    requires
        forall|i: int| 0 <= i < args.len() ==> #[trigger] args[i].0 != key,
    ensures
        arg_lookup(args, key) is None,
    decreases args.len(),
{
    if args.len() > 0 {
        let tail = args.drop_first();
        assert forall|i: int| 0 <= i < tail.len() implies #[trigger] tail[i].0 != key by {
            assert(tail[i] == args[i + 1]);
        }
        lemma_lookup_absent(tail, key);
    }
}

proof fn lemma_tail_sorted(args: Seq<(ArgKeyView, LineValue)>)
    requires
        args_sorted(args),
        args.len() > 0,
    ensures
        args_sorted(args.drop_first()),
{
    let tail = args.drop_first();
    assert forall|i: int, j: int| 0 <= i < j < tail.len() implies key_lt(#[trigger] tail[i].0, #[trigger] tail[j].0) by {
        assert(tail[i] == args[i + 1] && tail[j] == args[j + 1]);
    }
}

/// In a sorted list, a key below the first one is not listed.
proof fn lemma_below_first_absent(args: Seq<(ArgKeyView, LineValue)>, key: ArgKeyView)
    requires
        args_sorted(args),
        args.len() > 0,
        key_lt(key, args[0].0),
    ensures
        arg_lookup(args, key) is None,
{
    assert forall|i: int| 0 <= i < args.len() implies #[trigger] args[i].0 != key by {
        if i > 0 {
            assert(key_lt(args[0].0, args[i].0));
            lemma_key_lt_transitive(key, args[0].0, args[i].0);
        }
        lemma_key_lt_irreflexive(key);
    }
    lemma_lookup_absent(args, key);
}

proof fn lemma_sorted_insert_lookup(args: Seq<(ArgKeyView, LineValue)>, key: ArgKeyView, value: LineValue)
    requires
        args_sorted(args),
    ensures
        (sorted_insert(args, key, value) is None) == (arg_lookup(args, key) matches Some(w) && w != value),
        sorted_insert(args, key, value) matches Some(r) ==> {
            &&& arg_lookup(r, key) == Some(value)
            &&& forall|k: ArgKeyView| k != key ==> arg_lookup(r, k) == arg_lookup(args, k)
        },
    decreases args.len(),
{
    if args.len() == 0 {
        let r = seq![(key, value)];
        assert(r.drop_first() =~= Seq::<(ArgKeyView, LineValue)>::empty());
        assert(arg_lookup(r, key) == Some(value));
        assert forall|k: ArgKeyView| k != key implies arg_lookup(r, k) == arg_lookup(args, k) by {
            assert(arg_lookup(r, k) == arg_lookup(r.drop_first(), k));
        }
    } else if key_lt(args[0].0, key) {
        lemma_key_lt_irreflexive(key);
        let tail = args.drop_first();
        lemma_tail_sorted(args);
        lemma_sorted_insert_lookup(tail, key, value);
        if let Some(rest) = sorted_insert(tail, key, value) {
            let r = seq![args[0]] + rest;
            assert(r.drop_first() == rest);
            assert(r[0] == args[0]);
            assert(arg_lookup(r, key) == arg_lookup(rest, key));
            assert forall|k: ArgKeyView| k != key implies arg_lookup(r, k) == arg_lookup(args, k) by {
                if args[0].0 != k {
                    assert(arg_lookup(r, k) == arg_lookup(rest, k));
                    assert(arg_lookup(args, k) == arg_lookup(tail, k));
                }
            }
        }
    } else if args[0].0 == key {
        lemma_key_lt_irreflexive(key);
    } else {
        lemma_key_lt_total(args[0].0, key);
        lemma_below_first_absent(args, key);
        let r = seq![(key, value)] + args;
        assert(r.drop_first() == args);
        assert(r[0] == (key, value));
        assert forall|k: ArgKeyView| k != key implies arg_lookup(r, k) == arg_lookup(args, k) by {
            assert(arg_lookup(r, k) == arg_lookup(r.drop_first(), k));
        }
    }
}

proof fn lemma_sorted_insert_listed(args: Seq<(ArgKeyView, LineValue)>, key: ArgKeyView, value: LineValue)
    requires
        args_sorted(args),
        arg_lookup(args, key) == Some(value),
    ensures
        sorted_insert(args, key, value) == Some(args),
    decreases args.len(),
{
    lemma_key_lt_irreflexive(key);
    if args[0].0 != key {
        if key_lt(key, args[0].0) {
            lemma_below_first_absent(args, key);
        } else {
            lemma_key_lt_total(args[0].0, key);
            let tail = args.drop_first();
            lemma_tail_sorted(args);
            lemma_sorted_insert_listed(tail, key, value);
            assert(seq![args[0]] + tail == args);
        }
    }
}

/// Listing a value under a key works as a map does: it fails exactly when
/// the key is listed with another value; otherwise the key then reads the
/// value, every other key reads as before, the lines stay, and listing the
/// same value again changes nothing.
pub proof fn lemma_add_param_is_map_insert(m: DescModel, key: ArgKeyView, value: LineValue)
    requires
        args_sorted(m.args),
    ensures
        (desc_add_param(m, key, value) is None) == (arg_lookup(m.args, key) matches Some(w) && w != value),
        desc_add_param(m, key, value) matches Some(m1) ==> {
            &&& args_sorted(m1.args)
            &&& m1.backlog == m.backlog
            &&& arg_lookup(m1.args, key) == Some(value)
            &&& forall|k: ArgKeyView| k != key ==> arg_lookup(m1.args, k) == arg_lookup(m.args, k)
            &&& desc_add_param(m1, key, value) == Some(m1)
        },
{
    lemma_sorted_insert_lookup(m.args, key, value);
    if let Some(a) = sorted_insert(m.args, key, value) {
        lemma_sorted_insert_keeps_order(m.args, key, value);
        lemma_sorted_insert_listed(a, key, value);
    }
}

/// Whether some entry of `local` is listed in `args` with another value.
pub open spec fn args_clash(args: Seq<(ArgKeyView, LineValue)>, local: Seq<(ArgKeyView, LineValue)>) -> bool {
    exists|i: int| 0 <= i < local.len() && (arg_lookup(args, #[trigger] local[i].0) matches Some(w) && w != local[i].1)
}

/// The value under `key` after taking over `local`: its own when it lists
/// the key, else the former one.
pub open spec fn union_lookup(
    args: Seq<(ArgKeyView, LineValue)>,
    local: Seq<(ArgKeyView, LineValue)>,
    key: ArgKeyView,
) -> Option<LineValue> {
    match arg_lookup(local, key) {
        Some(v) => Some(v),
        None => arg_lookup(args, key),
    }
}

proof fn lemma_merge_union(args: Seq<(ArgKeyView, LineValue)>, local: Seq<(ArgKeyView, LineValue)>)
    requires
        args_sorted(args),
        args_sorted(local),
    ensures
        (merge_args(args, local) is None) == args_clash(args, local),
        merge_args(args, local) matches Some(r) ==> {
            &&& args_sorted(r)
            &&& forall|k: ArgKeyView| #[trigger] arg_lookup(r, k) == union_lookup(args, local, k)
        },
    decreases local.len(),
{
    if local.len() == 0 {
        assert(!args_clash(args, local));
        assert forall|k: ArgKeyView| #[trigger] arg_lookup(args, k) == union_lookup(args, local, k) by {}
    } else {
        let k0 = local[0].0;
        let v0 = local[0].1;
        let tail = local.drop_first();
        lemma_tail_sorted(local);
        lemma_sorted_insert_lookup(args, k0, v0);
        assert forall|i: int| 0 <= i < tail.len() implies #[trigger] tail[i].0 != k0 by {
            assert(tail[i] == local[i + 1]);
            assert(key_lt(local[0].0, local[i + 1].0));
            lemma_key_lt_irreflexive(k0);
        }
        match sorted_insert(args, k0, v0) {
            None => {
                assert(args_clash(args, local));
            },
            Some(a1) => {
                lemma_sorted_insert_keeps_order(args, k0, v0);
                lemma_merge_union(a1, tail);
                assert(args_clash(a1, tail) == args_clash(args, local)) by {
                    if args_clash(a1, tail) {
                        let i = choose|i: int| 0 <= i < tail.len() && (arg_lookup(a1, #[trigger] tail[i].0) matches Some(w) && w
                            != tail[i].1);
                        assert(local[i + 1] == tail[i]);
                    }
                    if args_clash(args, local) {
                        let i = choose|i: int| 0 <= i < local.len() && (arg_lookup(args, #[trigger] local[i].0) matches Some(w)
                            && w != local[i].1);
                        if i > 0 {
                            assert(tail[i - 1] == local[i]);
                        }
                    }
                }
                if let Some(r) = merge_args(a1, tail) {
                    lemma_lookup_absent(tail, k0);
                    assert forall|k: ArgKeyView| #[trigger] arg_lookup(r, k) == union_lookup(args, local, k) by {
                        assert(arg_lookup(r, k) == union_lookup(a1, tail, k));
                        if k != k0 {
                            assert(arg_lookup(local, k) == arg_lookup(tail, k));
                        }
                    }
                }
            },
        }
    }
}

/// Taking over a description of a part works as a union of maps: it fails
/// exactly when a key of the part is listed with another value; otherwise
/// the lines of the part follow the former ones, and each key reads the
/// part's value where the part lists it, else the former one.
pub proof fn lemma_consume_is_union(m: DescModel, local: DescModel)
    requires
        args_sorted(m.args),
        args_sorted(local.args),
    ensures
        (desc_consume(m, local) is None) == args_clash(m.args, local.args),
        desc_consume(m, local) matches Some(m1) ==> {
            &&& m1.backlog == m.backlog + local.backlog
            &&& args_sorted(m1.args)
            &&& forall|k: ArgKeyView| #[trigger] arg_lookup(m1.args, k) == union_lookup(m.args, local.args, k)
        },
{
    lemma_merge_union(m.args, local.args);
}


/// A comparison computes its two operands and then the relation its
/// operator names: `РАВНО` is `==`, `НЕ РАВНО` is `!=`, `БОЛЬШЕ ЧЕМ` is `>`,
/// `БОЛЬШЕ ИЛИ РАВНО` is `>=`, `МЕНЬШЕ` is `<`, `МЕНЬШЕ ИЛИ РАВНО` is `<=`; it
/// fails where an operand fails.
pub proof fn lemma_compare_means_its_relation(op: CompareOp, a: IntFormula, b: IntFormula, input: Option<&Critter>)
    ensures
        ({
            let r = eval_bool(BoolFormula::Compare(Compare { op, first: Box::new(a), second: Box::new(b) }), input);
            let x = eval_int(a, input);
            let y = eval_int(b, input);
            &&& (x is None || y is None) ==> r is None
            &&& (x is Some && y is Some) ==> r is Some
            &&& (x is Some && y is Some && op == CompareOp::Equal) ==> r == Some(x.unwrap() == y.unwrap())
            &&& (x is Some && y is Some && op == CompareOp::NotEqual) ==> r == Some(x.unwrap() != y.unwrap())
            &&& (x is Some && y is Some && op == CompareOp::GreaterThan) ==> r == Some(x.unwrap() > y.unwrap())
            &&& (x is Some && y is Some && op == CompareOp::GreaterOrEqual) ==> r == Some(x.unwrap() >= y.unwrap())
            &&& (x is Some && y is Some && op == CompareOp::LessThan) ==> r == Some(x.unwrap() < y.unwrap())
            &&& (x is Some && y is Some && op == CompareOp::LessOrEqual) ==> r == Some(x.unwrap() <= y.unwrap())
        }),
{
}

/// Of two literal numbers, `МЕНЬШЕ` holds exactly when the first is below
/// the second, and `БОЛЬШЕ ЧЕМ` exactly when it is above: the two are
/// mirror images, and never both hold.
pub proof fn lemma_less_than_of_numbers(a: i32, b: i32, input: Option<&Critter>)
    ensures
        eval_bool(BoolFormula::Compare(Compare {
            op: CompareOp::LessThan,
            first: Box::new(IntFormula::Int(a)),
            second: Box::new(IntFormula::Int(b)),
        }), input) == Some(a < b),
        eval_bool(BoolFormula::Compare(Compare {
            op: CompareOp::GreaterThan,
            first: Box::new(IntFormula::Int(b)),
            second: Box::new(IntFormula::Int(a)),
        }), input) == Some(a < b),
        eval_bool(BoolFormula::Compare(Compare {
            op: CompareOp::LessOrEqual,
            first: Box::new(IntFormula::Int(a)),
            second: Box::new(IntFormula::Int(b)),
        }), input) == Some(!(b < a)),
{
    assert(eval_int(IntFormula::Int(a), input) == Some(a));
    assert(eval_int(IntFormula::Int(b), input) == Some(b));
    lemma_compare_means_its_relation(CompareOp::LessThan, IntFormula::Int(a), IntFormula::Int(b), input);
    lemma_compare_means_its_relation(CompareOp::GreaterThan, IntFormula::Int(b), IntFormula::Int(a), input);
    lemma_compare_means_its_relation(CompareOp::LessOrEqual, IntFormula::Int(a), IntFormula::Int(b), input);
}

/// A product or quotient writes an operand that is a sum or a difference
/// between `(` and `)`, as it binds more loosely: right after the text
/// before it comes `(`, then the sum, then `)` and the operator.
pub proof fn lemma_product_brackets_sum_on_left(a: IntFormula, b: IntFormula, m: DescModel, input: Option<Option<&Critter>>)
    requires
        a is Add || a is Sub,
    ensures
        describe_int(IntFormula::Mul(Box::new(a), Box::new(b)), m, input) == match then_push(
            describe_int(a, desc_push(m, "("@), input),
            ")"@,
        ) {
            Some(m1) => spec_braces_int(Precedence::Mul, b, desc_push(m1, " x "@), input),
            None => None,
        },
        describe_int(IntFormula::Div(Box::new(a), Box::new(b)), m, input) == match then_push(
            describe_int(a, desc_push(m, "("@), input),
            ")"@,
        ) {
            Some(m1) => spec_braces_int(Precedence::Mul, b, desc_push(m1, " / "@), input),
            None => None,
        },
{
    assert(spec_braces_int(Precedence::Mul, a, m, input) == then_push(describe_int(a, desc_push(m, "("@), input), ")"@));
    assert(describe_int(IntFormula::Mul(Box::new(a), Box::new(b)), m, input)
        == spec_biop_int(Precedence::Mul, a, b, " x "@, m, input));
    assert(describe_int(IntFormula::Div(Box::new(a), Box::new(b)), m, input)
        == spec_biop_int(Precedence::Mul, a, b, " / "@, m, input));
}

/// See `lemma_product_brackets_sum_on_left`: a sum or difference on the
/// right of a product or quotient is bracketed too.
pub proof fn lemma_product_brackets_sum_on_right(a: IntFormula, b: IntFormula, m: DescModel, input: Option<Option<&Critter>>)
    requires
        b is Add || b is Sub,
    ensures
        describe_int(IntFormula::Mul(Box::new(a), Box::new(b)), m, input) == match spec_braces_int(Precedence::Mul, a, m, input) {
            Some(m1) => then_push(describe_int(b, desc_push(desc_push(m1, " x "@), "("@), input), ")"@),
            None => None,
        },
        describe_int(IntFormula::Div(Box::new(a), Box::new(b)), m, input) == match spec_braces_int(Precedence::Mul, a, m, input) {
            Some(m1) => then_push(describe_int(b, desc_push(desc_push(m1, " / "@), "("@), input), ")"@),
            None => None,
        },
{
    assert forall|m1: DescModel| #[trigger] spec_braces_int(Precedence::Mul, b, m1, input)
        == then_push(describe_int(b, desc_push(m1, "("@), input), ")"@) by {}
    assert(describe_int(IntFormula::Mul(Box::new(a), Box::new(b)), m, input)
        == spec_biop_int(Precedence::Mul, a, b, " x "@, m, input));
    assert(describe_int(IntFormula::Div(Box::new(a), Box::new(b)), m, input)
        == spec_biop_int(Precedence::Mul, a, b, " / "@, m, input));
}

/// A sum or difference writes an operand that is itself a sum, difference,
/// product or quotient without brackets, as it binds at least as tightly.
pub proof fn lemma_sum_leaves_tighter_operands_bare(a: IntFormula, b: IntFormula, m: DescModel, input: Option<Option<&Critter>>)
    requires
        a is Add || a is Sub || a is Mul || a is Div,
        b is Add || b is Sub || b is Mul || b is Div,
    ensures
        describe_int(IntFormula::Add(Box::new(a), Box::new(b)), m, input) == match describe_int(a, m, input) {
            Some(m1) => describe_int(b, desc_push(m1, " + "@), input),
            None => None,
        },
        describe_int(IntFormula::Sub(Box::new(a), Box::new(b)), m, input) == match describe_int(a, m, input) {
            Some(m1) => describe_int(b, desc_push(m1, " - "@), input),
            None => None,
        },
{
    assert(spec_braces_int(Precedence::Add, a, m, input) == describe_int(a, m, input));
    assert forall|m1: DescModel| #[trigger] spec_braces_int(Precedence::Add, b, m1, input) == describe_int(b, m1, input) by {}
    assert(describe_int(IntFormula::Add(Box::new(a), Box::new(b)), m, input)
        == spec_biop_int(Precedence::Add, a, b, " + "@, m, input));
    assert(describe_int(IntFormula::Sub(Box::new(a), Box::new(b)), m, input)
        == spec_biop_int(Precedence::Add, a, b, " - "@, m, input));
}


/// A power writes an operand that is a sum, difference, product or
/// quotient between `(` and `)`; a product or quotient writes a power
/// operand without brackets, as a power binds most tightly.
pub proof fn lemma_power_binds_tightest(a: IntFormula, b: IntFormula, m: DescModel, input: Option<Option<&Critter>>)
    requires
        a is Add || a is Sub || a is Mul || a is Div,
        b is Pow,
    ensures
        describe_int(IntFormula::Pow(Box::new(a), Box::new(b)), m, input) == match then_push(
            describe_int(a, desc_push(m, "("@), input),
            ")"@,
        ) {
            Some(m1) => describe_int(b, desc_push(m1, "^"@), input),
            None => None,
        },
        describe_int(IntFormula::Mul(Box::new(b), Box::new(b)), m, input) == match describe_int(b, m, input) {
            Some(m1) => describe_int(b, desc_push(m1, " x "@), input),
            None => None,
        },
{
    assert(spec_braces_int(Precedence::Pow, a, m, input) == then_push(describe_int(a, desc_push(m, "("@), input), ")"@));
    assert forall|m1: DescModel| #[trigger] spec_braces_int(Precedence::Pow, b, m1, input) == describe_int(b, m1, input) by {}
    assert forall|m1: DescModel| #[trigger] spec_braces_int(Precedence::Mul, b, m1, input) == describe_int(b, m1, input) by {}
    assert(describe_int(IntFormula::Pow(Box::new(a), Box::new(b)), m, input)
        == spec_biop_int(Precedence::Pow, a, b, "^"@, m, input));
    assert(describe_int(IntFormula::Mul(Box::new(b), Box::new(b)), m, input)
        == spec_biop_int(Precedence::Mul, b, b, " x "@, m, input));
}

} // verus!
