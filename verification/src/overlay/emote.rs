use vstd::prelude::*;
use crate::text::{chars_of, push_char};

verus! {

/// The text with each `**` replaced by a single `*`, matches taken from the
/// left without overlap.
pub open spec fn collapse_stars(s: Seq<char>) -> Seq<char>
    decreases s.len(),
{
    if s.len() == 0 {
        Seq::empty()
    } else if s.len() >= 2 && s[0] == '*' && s[1] == '*' {
        seq!['*'] + collapse_stars(s.skip(2))
    } else {
        seq![s[0]] + collapse_stars(s.skip(1))
    }
}

/// The pieces of the text between the `*` characters, empty ones included:
/// one more piece than there are stars.
pub open spec fn split_stars(s: Seq<char>) -> Seq<Seq<char>>
    decreases s.len(),
{
    if s.len() == 0 {
        seq![Seq::<char>::empty()]
    } else {
        let init = split_stars(s.drop_last());
        if s.last() == '*' {
            init.push(Seq::<char>::empty())
        } else {
            init.update(init.len() - 1, init.last().push(s.last()))
        }
    }
}

/// A piece as it is written back: nothing when empty, between `**` marks
/// when it stood at an odd position.
pub open spec fn decorate(piece: Seq<char>, odd: bool) -> Seq<char> {
    if piece.len() == 0 {
        Seq::empty()
    } else if odd {
        seq!['*', '*'] + piece + seq!['*', '*']
    } else {
        piece
    }
}

/// The pieces written back one after the other, the first at position zero.
pub open spec fn join_decorated(pieces: Seq<Seq<char>>) -> Seq<char>
    decreases pieces.len(),
{
    if pieces.len() == 0 {
        Seq::empty()
    } else {
        join_decorated(pieces.drop_last()) + decorate(pieces.last(), (pieces.len() - 1) % 2 == 1)
    }
}

/// A chat line with its `*`-delimited parts marked as emotes.
pub open spec fn spec_auto_emote(text: Seq<char>) -> Seq<char> {
    join_decorated(split_stars(collapse_stars(text)))
}

fn collapse(cs: &Vec<char>) -> (r: Vec<char>)
    ensures
        r@ == collapse_stars(cs@),
{
    let mut out: Vec<char> = Vec::new();
    let mut i: usize = 0;
    assert(cs@.skip(0) == cs@);
    assert(out@ + collapse_stars(cs@) == collapse_stars(cs@));
    while i < cs.len()
        invariant
            i <= cs@.len(),
            collapse_stars(cs@) == out@ + collapse_stars(cs@.skip(i as int)),
        decreases cs@.len() - i,
    {
        let ghost rest = cs@.skip(i as int);
        if i + 1 < cs.len() && cs[i] == '*' && cs[i + 1] == '*' {
            assert(rest.skip(2) == cs@.skip(i + 2));
            out.push('*');
            i = i + 2;
        } else {
            assert(rest.skip(1) == cs@.skip(i + 1));
            out.push(cs[i]);
            i = i + 1;
        }
        assert(collapse_stars(cs@) == out@ + collapse_stars(cs@.skip(i as int)));
    }
    assert(cs@.skip(i as int) == Seq::<char>::empty());
    assert(out@ + Seq::<char>::empty() == out@);
    out
}

fn push_decorated(out: &mut String, piece: &Vec<char>, odd: bool)
    ensures
        final(out)@ == old(out)@ + decorate(piece@, odd),
{
    if piece.len() == 0 {
        assert(old(out)@ + Seq::<char>::empty() == old(out)@);
        return;
    }
    if odd {
        push_char(out, '*');
        push_char(out, '*');
    }
    let mut i: usize = 0;
    while i < piece.len()
        invariant
            i <= piece@.len(),
            out@ == old(out)@ + (if odd { seq!['*', '*'] } else { Seq::empty() }) + piece@.take(i as int),
        decreases piece@.len() - i,
    {
        push_char(out, piece[i]);
        assert(piece@.take(i + 1) == piece@.take(i as int).push(piece@[i as int]));
        i = i + 1;
    }
    assert(piece@.take(piece@.len() as int) == piece@);
    if odd {
        push_char(out, '*');
        push_char(out, '*');
        assert(out@ == old(out)@ + (seq!['*', '*'] + piece@ + seq!['*', '*']));
    } else {
        assert(out@ == old(out)@ + piece@);
    }
}

/// Marks the parts of a chat line between single `*` as emotes: `**` is first
/// read as one `*`, the line is cut at each `*`, and every second part (the
/// second, the fourth, ...) is written back between `**`; empty parts vanish.
pub fn auto_emote(text: &mut String)
    ensures
        final(text)@ == spec_auto_emote(old(text)@),
{
    let cs = chars_of(text.as_str());
    let emoted = collapse(&cs);
    let mut out = String::new();
    let mut piece: Vec<char> = Vec::new();
    let mut odd = false;
    let mut i: usize = 0;
    assert(emoted@.take(0) == Seq::<char>::empty());
    while i < emoted.len()
        invariant
            i <= emoted@.len(),
            split_stars(emoted@.take(i as int)).len() >= 1,
            piece@ == split_stars(emoted@.take(i as int)).last(),
            out@ == join_decorated(split_stars(emoted@.take(i as int)).drop_last()),
            odd == ((split_stars(emoted@.take(i as int)).len() - 1) % 2 == 1),
        decreases emoted@.len() - i,
    {
        let ghost before = emoted@.take(i as int);
        let ghost after = emoted@.take(i + 1);
        let ghost parts = split_stars(before);
        let c = emoted[i];
        assert(after.drop_last() == before);
        assert(after.last() == c);
        if c == '*' {
            assert(split_stars(after) == parts.push(Seq::<char>::empty()));
            assert(parts.push(Seq::<char>::empty()).drop_last() == parts);
            assert(parts == parts.drop_last().push(parts.last()));
            push_decorated(&mut out, &piece, odd);
            piece = Vec::new();
            odd = !odd;
        } else {
            let ghost next = parts.update(parts.len() - 1, parts.last().push(c));
            assert(split_stars(after) == next);
            assert(next.drop_last() == parts.drop_last());
            piece.push(c);
        }
        i = i + 1;
    }
    let ghost parts = split_stars(emoted@.take(i as int));
    assert(emoted@.take(i as int) == emoted@);
    assert(parts == parts.drop_last().push(parts.last()));
    push_decorated(&mut out, &piece, odd);
    *text = out;
}

pub proof fn lemma_collapse_without_stars(s: Seq<char>)
    requires
        !s.contains('*'),
    ensures
        collapse_stars(s) == s,
    decreases s.len(),
{
    if s.len() > 0 {
        assert(s[0] != '*');
        let rest = s.skip(1);
        assert(!rest.contains('*')) by {
            if rest.contains('*') {
                let i = choose|i: int| 0 <= i < rest.len() && rest[i] == '*';
                assert(s[i + 1] == '*');
            }
        }
        lemma_collapse_without_stars(rest);
        assert(seq![s[0]] + rest == s);
    }
}

pub proof fn lemma_split_without_stars(s: Seq<char>)
    requires
        !s.contains('*'),
    ensures
        split_stars(s) == seq![s],
    decreases s.len(),
{
    if s.len() > 0 {
        let init = s.drop_last();
        assert(!init.contains('*')) by {
            if init.contains('*') {
                let i = choose|i: int| 0 <= i < init.len() && init[i] == '*';
                assert(s[i] == '*');
            }
        }
        lemma_split_without_stars(init);
        assert(s.last() != '*') by {
            assert(s[s.len() - 1] == s.last());
        }
        assert(init.push(s.last()) == s);
        let parts = split_stars(init);
        assert(parts.last() == init);
        assert(parts.update(0, init.push(s.last())) =~= seq![s]);
    } else {
        assert(s =~= Seq::<char>::empty());
    }
}

/// A line without any `*` is left as it is.
pub proof fn lemma_auto_emote_keeps_plain_text(text: Seq<char>)
    requires
        !text.contains('*'),
    ensures
        spec_auto_emote(text) == text,
{
    lemma_collapse_without_stars(text);
    lemma_split_without_stars(text);
    let parts = seq![text];
    assert(parts.drop_last() == Seq::<Seq<char>>::empty());
    assert(join_decorated(parts) == join_decorated(parts.drop_last()) + decorate(text, false));
    assert(Seq::<char>::empty() + text == text);
}

/// The text without its `*` characters.
pub open spec fn unstarred(s: Seq<char>) -> Seq<char>
    decreases s.len(),
{
    if s.len() == 0 {
        Seq::empty()
    } else if s.last() == '*' {
        unstarred(s.drop_last())
    } else {
        unstarred(s.drop_last()).push(s.last())
    }
}

/// The pieces one after the other.
pub open spec fn concat_pieces(pieces: Seq<Seq<char>>) -> Seq<char>
    decreases pieces.len(),
{
    if pieces.len() == 0 {
        Seq::empty()
    } else {
        concat_pieces(pieces.drop_last()) + pieces.last()
    }
}

proof fn lemma_unstarred_add(a: Seq<char>, b: Seq<char>)
    ensures
        unstarred(a + b) == unstarred(a) + unstarred(b),
    decreases b.len(),
{
    if b.len() == 0 {
        assert(a + b == a);
        assert(unstarred(a) + Seq::<char>::empty() == unstarred(a));
    } else {
        lemma_unstarred_add(a, b.drop_last());
        assert((a + b).drop_last() == a + b.drop_last());
        assert((a + b).last() == b.last());
        if b.last() != '*' {
            assert(unstarred(a) + unstarred(b.drop_last()).push(b.last()) == (unstarred(a) + unstarred(
                b.drop_last(),
            )).push(b.last()));
        }
    }
}

proof fn lemma_unstarred_plain(s: Seq<char>)
    requires
        !s.contains('*'),
    ensures
        unstarred(s) == s,
    decreases s.len(),
{
    if s.len() > 0 {
        let init = s.drop_last();
        assert(!init.contains('*')) by {
            if init.contains('*') {
                let i = choose|i: int| 0 <= i < init.len() && init[i] == '*';
                assert(s[i] == '*');
            }
        }
        lemma_unstarred_plain(init);
        assert(s[s.len() - 1] == s.last());
        assert(init.push(s.last()) == s);
    }
}

proof fn lemma_unstarred_collapse(s: Seq<char>)
    ensures
        unstarred(collapse_stars(s)) == unstarred(s),
    decreases s.len(),
{
    if s.len() > 0 {
        let k: int = if s.len() >= 2 && s[0] == '*' && s[1] == '*' { 2 } else { 1 };
        let rest = s.skip(k);
        lemma_unstarred_collapse(rest);
        assert(s == s.take(k) + rest);
        lemma_unstarred_add(s.take(k), rest);
        let head = if k == 2 { seq!['*'] } else { seq![s[0]] };
        lemma_unstarred_add(head, collapse_stars(rest));
        if k == 2 {
            assert(s.take(k) == seq!['*', '*']);
            assert(seq!['*', '*'].drop_last() == seq!['*']);
            assert(seq!['*'].drop_last() == Seq::<char>::empty());
        } else {
            assert(s.take(k) == seq![s[0]]);
            assert(seq![s[0]].drop_last() == Seq::<char>::empty());
        }
    }
}

proof fn lemma_split_pieces(s: Seq<char>)
    ensures
        split_stars(s).len() >= 1,
        concat_pieces(split_stars(s)) == unstarred(s),
        forall|i: int| 0 <= i < split_stars(s).len() ==> !(#[trigger] split_stars(s)[i]).contains('*'),
    decreases s.len(),
{
    if s.len() == 0 {
        let p = split_stars(s);
        assert(p.drop_last() =~= Seq::<Seq<char>>::empty());
        assert(concat_pieces(p.drop_last()) == Seq::<char>::empty());
        assert(p.last() =~= Seq::<char>::empty());
        assert(concat_pieces(p) =~= Seq::<char>::empty());
        assert(p[0] =~= Seq::<char>::empty());
    } else {
        let init = s.drop_last();
        lemma_split_pieces(init);
        let p0 = split_stars(init);
        let p = split_stars(s);
        if s.last() == '*' {
            assert(p.drop_last() == p0);
            assert(p.last() =~= Seq::<char>::empty());
            assert(concat_pieces(p0) + Seq::<char>::empty() == concat_pieces(p0));
            assert forall|i: int| 0 <= i < p.len() implies !(#[trigger] p[i]).contains('*') by {
                if i < p0.len() {
                    assert(p[i] == p0[i]);
                }
            }
        } else {
            let c = s.last();
            assert(p.drop_last() == p0.drop_last());
            assert(p.last() == p0.last().push(c));
            assert(concat_pieces(p0) == concat_pieces(p0.drop_last()) + p0.last());
            assert(concat_pieces(p0.drop_last()) + p0.last().push(c) == (concat_pieces(p0.drop_last())
                + p0.last()).push(c));
            assert forall|i: int| 0 <= i < p.len() implies !(#[trigger] p[i]).contains('*') by {
                if i < p0.len() - 1 {
                    assert(p[i] == p0[i]);
                } else {
                    assert(p[i] == p0.last().push(c));
                    assert(!p0[p0.len() - 1].contains('*'));
                    if p[i].contains('*') {
                        let j = choose|j: int| 0 <= j < p[i].len() && p[i][j] == '*';
                        if j < p0.last().len() {
                            assert(p0.last()[j] == '*');
                        }
                    }
                }
            }
        }
    }
}

proof fn lemma_unstarred_join(pieces: Seq<Seq<char>>)
    requires
        forall|i: int| 0 <= i < pieces.len() ==> !(#[trigger] pieces[i]).contains('*'),
    ensures
        unstarred(join_decorated(pieces)) == concat_pieces(pieces),
    decreases pieces.len(),
{
    if pieces.len() > 0 {
        let init = pieces.drop_last();
        let p = pieces.last();
        assert forall|i: int| 0 <= i < init.len() implies !(#[trigger] init[i]).contains('*') by {
            assert(init[i] == pieces[i]);
        }
        lemma_unstarred_join(init);
        assert(!pieces[pieces.len() - 1].contains('*'));
        lemma_unstarred_plain(p);
        let odd = (pieces.len() - 1) % 2 == 1;
        let d = decorate(p, odd);
        lemma_unstarred_add(join_decorated(init), d);
        assert(join_decorated(pieces) == join_decorated(init) + d);
        assert(concat_pieces(pieces) == concat_pieces(init) + p);
        assert(unstarred(Seq::<char>::empty()) == Seq::<char>::empty());
        if p.len() == 0 {
            assert(p =~= Seq::<char>::empty());
            assert(d =~= Seq::<char>::empty());
            assert(concat_pieces(init) + Seq::<char>::empty() =~= concat_pieces(init));
        } else if odd {
            let st = seq!['*', '*'];
            lemma_unstarred_add(st + p, st);
            lemma_unstarred_add(st, p);
            assert(st.drop_last() =~= seq!['*']);
            assert(seq!['*'].drop_last() =~= Seq::<char>::empty());
            assert(st.last() == '*');
            assert(seq!['*'].last() == '*');
            assert(unstarred(seq!['*']) == Seq::<char>::empty());
            assert(unstarred(st) == Seq::<char>::empty());
            assert(d == st + p + st);
            assert(unstarred(d) =~= p);
        } else {
            assert(d == p);
        }
    }
}

/// Marking emotes only adds and drops `*` characters: every other character
/// stays, in its order.
pub proof fn lemma_auto_emote_changes_only_stars(text: Seq<char>)
    ensures
        unstarred(spec_auto_emote(text)) == unstarred(text),
{
    let c = collapse_stars(text);
    lemma_unstarred_collapse(text);
    lemma_split_pieces(c);
    lemma_unstarred_join(split_stars(c));
}

/// Text made of characters other than `*` and of `**` pairs, read from the
/// left: `collapse_stars` turns each pair into one `*` and keeps the rest.
pub open spec fn star_pairs(s: Seq<char>) -> bool
    decreases s.len(),
{
    if s.len() == 0 {
        true
    } else if s[0] != '*' {
        star_pairs(s.skip(1))
    } else {
        s.len() >= 2 && s[1] == '*' && star_pairs(s.skip(2))
    }
}

/// The collapsed form of pieces written back: each `**` pair as one `*`.
pub open spec fn collapsed_join(pieces: Seq<Seq<char>>) -> Seq<char>
    decreases pieces.len(),
{
    if pieces.len() == 0 {
        Seq::empty()
    } else {
        let p = pieces.last();
        let odd = (pieces.len() - 1) % 2 == 1;
        collapsed_join(pieces.drop_last()) + if p.len() == 0 {
            Seq::empty()
        } else if odd {
            seq!['*'] + p + seq!['*']
        } else {
            p
        }
    }
}

proof fn lemma_plain_pairs(s: Seq<char>)
    requires
        !s.contains('*'),
    ensures
        star_pairs(s),
    decreases s.len(),
{
    if s.len() > 0 {
        assert(s[0] != '*');
        let rest = s.skip(1);
        assert(!rest.contains('*')) by {
            if rest.contains('*') {
                let i = choose|i: int| 0 <= i < rest.len() && rest[i] == '*';
                assert(s[i + 1] == '*');
            }
        }
        lemma_plain_pairs(rest);
    }
}

proof fn lemma_pairs_add(a: Seq<char>, b: Seq<char>)
    requires
        star_pairs(a),
        star_pairs(b),
    ensures
        star_pairs(a + b),
        collapse_stars(a + b) == collapse_stars(a) + collapse_stars(b),
    decreases a.len(),
{
    if a.len() == 0 {
        assert(a + b == b);
        assert(Seq::<char>::empty() + collapse_stars(b) == collapse_stars(b));
    } else {
        let k: int = if a[0] != '*' { 1 } else { 2 };
        let rest = a.skip(k);
        lemma_pairs_add(rest, b);
        assert((a + b).skip(k) == rest + b);
        assert((a + b)[0] == a[0]);
        if k == 2 {
            assert((a + b)[1] == a[1]);
            assert(collapse_stars(a + b) == seq!['*'] + collapse_stars(rest + b));
            assert(collapse_stars(a) == seq!['*'] + collapse_stars(rest));
        } else {
            assert(collapse_stars(a + b) == seq![a[0]] + collapse_stars(rest + b));
            assert(collapse_stars(a) == seq![a[0]] + collapse_stars(rest));
        }
    }
}

proof fn lemma_pair_collapse()
    ensures
        star_pairs(seq!['*', '*']),
        collapse_stars(seq!['*', '*']) == seq!['*'],
{
    let st = seq!['*', '*'];
    let e = Seq::<char>::empty();
    assert(st.skip(2) =~= e);
    assert(st[0] == '*' && st[1] == '*');
    assert(star_pairs(e));
    assert(collapse_stars(e) == e);
    assert(collapse_stars(st) == seq!['*'] + collapse_stars(st.skip(2)));
    assert(seq!['*'] + e == seq!['*']);
}

proof fn lemma_join_collapses(pieces: Seq<Seq<char>>)
    requires
        forall|i: int| 0 <= i < pieces.len() ==> !(#[trigger] pieces[i]).contains('*'),
    ensures
        star_pairs(join_decorated(pieces)),
        collapse_stars(join_decorated(pieces)) == collapsed_join(pieces),
    decreases pieces.len(),
{
    if pieces.len() == 0 {
        assert(collapse_stars(Seq::<char>::empty()) == Seq::<char>::empty());
    } else {
        let init = pieces.drop_last();
        let p = pieces.last();
        assert forall|i: int| 0 <= i < init.len() implies !(#[trigger] init[i]).contains('*') by {
            assert(init[i] == pieces[i]);
        }
        lemma_join_collapses(init);
        assert(!pieces[pieces.len() - 1].contains('*'));
        lemma_plain_pairs(p);
        lemma_collapse_without_stars(p);
        let odd = (pieces.len() - 1) % 2 == 1;
        let d = decorate(p, odd);
        let k = if p.len() == 0 {
            Seq::<char>::empty()
        } else if odd {
            seq!['*'] + p + seq!['*']
        } else {
            p
        };
        if p.len() == 0 {
            assert(d =~= Seq::<char>::empty());
            assert(collapse_stars(d) =~= Seq::<char>::empty());
        } else if odd {
            let st = seq!['*', '*'];
            lemma_pair_collapse();
            lemma_pairs_add(st, p);
            lemma_pairs_add(st + p, st);
            assert(d == st + p + st);
        } else {
            assert(d == p);
        }
        assert(star_pairs(d));
        assert(collapse_stars(d) == k);
        lemma_pairs_add(join_decorated(init), d);
        assert(join_decorated(pieces) == join_decorated(init) + d);
        assert(collapsed_join(pieces) == collapsed_join(init) + k);
    }
}

proof fn lemma_split_add_plain(c: Seq<char>, p: Seq<char>)
    requires
        !p.contains('*'),
    ensures
        split_stars(c + p) == split_stars(c).drop_last().push(split_stars(c).last() + p),
        split_stars(c).len() >= 1,
    decreases p.len(),
{
    lemma_split_pieces(c);
    let sc = split_stars(c);
    if p.len() == 0 {
        assert(c + p == c);
        assert(sc.last() + p == sc.last());
        assert(sc.drop_last().push(sc.last()) == sc);
    } else {
        let init = p.drop_last();
        let x = p.last();
        assert(!init.contains('*')) by {
            if init.contains('*') {
                let i = choose|i: int| 0 <= i < init.len() && init[i] == '*';
                assert(p[i] == '*');
            }
        }
        assert(x != '*') by {
            assert(p[p.len() - 1] == x);
        }
        lemma_split_add_plain(c, init);
        assert((c + p).drop_last() == c + init);
        assert((c + p).last() == x);
        let s0 = split_stars(c + init);
        assert(s0 == sc.drop_last().push(sc.last() + init));
        assert(split_stars(c + p) == s0.update(s0.len() - 1, s0.last().push(x)));
        assert((sc.last() + init).push(x) == sc.last() + p);
        assert(s0.update(s0.len() - 1, s0.last().push(x)) =~= sc.drop_last().push(sc.last() + p));
    }
}

proof fn lemma_emote_add_plain(c: Seq<char>, p: Seq<char>)
    requires
        !p.contains('*'),
        split_stars(c).len() % 2 == 1,
    ensures
        split_stars(c + p).len() % 2 == 1,
        join_decorated(split_stars(c + p)) == join_decorated(split_stars(c)) + p,
{
    let sc = split_stars(c);
    lemma_split_add_plain(c, p);
    let s1 = split_stars(c + p);
    assert(s1.drop_last() == sc.drop_last());
    assert(s1.last() == sc.last() + p);
    assert(join_decorated(s1) == join_decorated(sc.drop_last()) + decorate(sc.last() + p, false));
    assert(join_decorated(sc) == join_decorated(sc.drop_last()) + decorate(sc.last(), false));
    assert(decorate(sc.last() + p, false) == sc.last() + p);
    assert(decorate(sc.last(), false) == sc.last());
    assert(join_decorated(sc.drop_last()) + (sc.last() + p) == (join_decorated(sc.drop_last()) + sc.last()) + p);
}

proof fn lemma_emote_add_star(c: Seq<char>)
    requires
        split_stars(c).len() >= 1,
    ensures
        split_stars(c + seq!['*']) == split_stars(c).push(Seq::<char>::empty()),
        join_decorated(split_stars(c + seq!['*'])) == join_decorated(split_stars(c)),
{
    let c1 = c + seq!['*'];
    assert(c1.drop_last() == c && c1.last() == '*');
    let sc = split_stars(c);
    let s1 = sc.push(Seq::<char>::empty());
    assert(s1.drop_last() == sc);
    assert(decorate(s1.last(), (s1.len() - 1) % 2 == 1) =~= Seq::<char>::empty());
    assert(join_decorated(sc) + Seq::<char>::empty() == join_decorated(sc));
}

proof fn lemma_emote_add_marked(c: Seq<char>, p: Seq<char>)
    requires
        !p.contains('*'),
        p.len() > 0,
        split_stars(c).len() % 2 == 1,
    ensures
        split_stars(c + (seq!['*'] + p + seq!['*'])).len() % 2 == 1,
        join_decorated(split_stars(c + (seq!['*'] + p + seq!['*']))) == join_decorated(split_stars(c)) + decorate(
            p,
            true,
        ),
{
    let star = seq!['*'];
    let sc = split_stars(c);
    lemma_split_pieces(c);
    let c1 = c + star;
    lemma_emote_add_star(c);
    lemma_split_add_plain(c1, p);
    let s1 = split_stars(c1);
    assert(s1.drop_last() == sc);
    assert(Seq::<char>::empty() + p == p);
    let s2 = split_stars(c1 + p);
    assert(s2 == sc.push(p));
    assert(s2.drop_last() == sc);
    assert(join_decorated(s2) == join_decorated(sc) + decorate(p, true));
    lemma_split_pieces(c1 + p);
    lemma_emote_add_star(c1 + p);
    assert(c + (star + p + star) == (c1 + p) + star);
}

proof fn lemma_emote_collapsed_join(pieces: Seq<Seq<char>>)
    requires
        forall|i: int| 0 <= i < pieces.len() ==> !(#[trigger] pieces[i]).contains('*'),
    ensures
        split_stars(collapsed_join(pieces)).len() % 2 == 1,
        join_decorated(split_stars(collapsed_join(pieces))) == join_decorated(pieces),
    decreases pieces.len(),
{
    if pieces.len() == 0 {
        let e = Seq::<char>::empty();
        let sp = split_stars(e);
        assert(sp.drop_last() =~= Seq::<Seq<char>>::empty());
        assert(sp.last() =~= e);
        assert(sp.len() == 1);
        assert(join_decorated(sp.drop_last()) == e);
        assert(decorate(sp.last(), false) =~= e);
        assert(join_decorated(sp) == join_decorated(sp.drop_last()) + decorate(sp.last(), false));
        assert(join_decorated(sp) =~= e);
    } else {
        let init = pieces.drop_last();
        let p = pieces.last();
        assert forall|i: int| 0 <= i < init.len() implies !(#[trigger] init[i]).contains('*') by {
            assert(init[i] == pieces[i]);
        }
        lemma_emote_collapsed_join(init);
        assert(!pieces[pieces.len() - 1].contains('*'));
        let odd = (pieces.len() - 1) % 2 == 1;
        let c = collapsed_join(init);
        assert(join_decorated(pieces) == join_decorated(init) + decorate(p, odd));
        if p.len() == 0 {
            assert(collapsed_join(pieces) == c + Seq::<char>::empty());
            assert(c + Seq::<char>::empty() == c);
            assert(decorate(p, odd) =~= Seq::<char>::empty());
            assert(join_decorated(init) + Seq::<char>::empty() == join_decorated(init));
        } else if odd {
            assert(collapsed_join(pieces) == c + (seq!['*'] + p + seq!['*']));
            lemma_emote_add_marked(c, p);
        } else {
            assert(collapsed_join(pieces) == c + p);
            lemma_emote_add_plain(c, p);
            assert(decorate(p, false) == p);
        }
    }
}

/// Marking emotes a second time changes nothing.
pub proof fn lemma_auto_emote_idempotent(text: Seq<char>)
    ensures
        spec_auto_emote(spec_auto_emote(text)) == spec_auto_emote(text),
{
    let pieces = split_stars(collapse_stars(text));
    lemma_split_pieces(collapse_stars(text));
    lemma_join_collapses(pieces);
    lemma_emote_collapsed_join(pieces);
}

} // verus!
