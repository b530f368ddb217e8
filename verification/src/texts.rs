//! A text denotes the same wherever it stands, but for positions.

use vstd::prelude::*;

use crate::folding::{reads, same_code, sequence};
use crate::grammar::{
    branch_hint, end, folded, form, group_items, group_rest, if_clause, if_then, item, items,
    lemma_branch_hint_advances, lemma_folded_advances, lemma_group_rest_advances,
    lemma_item_advances, lemma_items_advance, otherwise, Form, Listing,
};
use crate::labels::{lemma_any_instruction_advances, AllInstructions, AllInstructionsAst};
use crate::parser::{Cursor, Input, Parse};
use crate::placement::{
    abreast, complete, lemma_instruction_moves, lemma_moves, lemma_skip_known, opens, set_in,
};
use crate::token::Span;
use crate::unplaced::{instruction, instructions};

verus! {

/// The same instructions and branch hints, but for positions.
pub open spec fn like<'a>(l: Listing<'a>, m: Listing<'a>) -> bool {
    &&& instructions(l.instrs) == instructions(m.instrs)
    &&& l.hints == m.hints
    &&& l.pending == m.pending
}

proof fn lemma_like_push<'a>(
    l: Listing<'a>,
    m: Listing<'a>,
    hint: Option<u32>,
    i: AllInstructionsAst<'a>,
    j: AllInstructionsAst<'a>,
    s: Span,
    t: Span,
)
    requires
        like(l, m),
        instruction(i) == instruction(j),
    ensures
        like(l.note(hint).push(i, s), m.note(hint).push(j, t)),
        like(l.unhinted(), m.unhinted()),
{
    assert(instructions(l.instrs).len() == l.instrs.len());
    assert(instructions(m.instrs).len() == m.instrs.len());
    assert(instructions(l.instrs.push(i)) =~= instructions(l.instrs).push(instruction(i)));
    assert(instructions(m.instrs.push(j)) =~= instructions(m.instrs).push(instruction(j)));
}

/// A token stands behind a parenthesis.
proof fn lemma_opens<'a>(x: Input<'a>, at: Cursor)
    requires
        x.tok(x.step(at)) is Some,
    ensures
        opens(x, at),
{
    lemma_skip_known(x, "label"@, at.pos + 1);
}

/// Where items follow, an opening parenthesis has something behind it.
pub proof fn lemma_items_open<'a>(x: Input<'a>, at: Cursor, out: Listing<'a>)
    requires
        x.at_end(at) || item(x, at, out) is Ok,
    ensures
        opens(x, at),
{
    if x.at_lparen(at) {
        let a = x.step(at);
        assert(item(x, at, out) == folded(x, a, out));
        if x.tok(a) is Some {
            lemma_opens(x, at);
        }
    }
}

proof fn lemma_item_moves<'a>(
    x: Input<'a>,
    y: Input<'a>,
    p: int,
    a: Cursor,
    b: Cursor,
    l: Listing<'a>,
    m: Listing<'a>,
)
    requires
        set_in(x, y, p),
        abreast(x, p, a, b),
        like(l, m),
    ensures
        item(x, a, l) matches Ok((o, to)) ==> {
            ||| x.at_lparen(a)
            ||| to.pos < x.toks.len() && opens(x, to)
            ||| to.pos >= x.toks.len() && complete(y, p + x.toks.len(), true)
        } ==> {
            &&& item(y, b, m) matches Ok((q, end))
            &&& like(o, q)
            &&& abreast(x, p, to, end)
            &&& a.pos < x.toks.len()
            &&& x.at_lparen(a) == y.at_lparen(b)
        },
    decreases x.left(a), 0nat,
{
    lemma_moves(x, y, p);
    let (c, d) = (x.step(a), y.step(b));
    if a.pos < x.toks.len() {
        assert(x.tok(a) == y.tok(b));
    }
    if x.at_lparen(a) {
        x.lemma_step(a);
        lemma_folded_moves(x, y, p, c, d, l, m);
    } else {
        lemma_instruction_moves(x, y, p, a, b);
        if let (Ok((i, _)), Ok((j, _))) = (
            AllInstructions::grammar(x, a),
            AllInstructions::grammar(y, b),
        ) {
            if instruction(i) == instruction(j) {
                lemma_like_push(l, m, None, i, j, x.here(a), y.here(b));
                lemma_like_push(l.unhinted(), m.unhinted(), l.pending, i, j, x.here(a), y.here(b));
            }
        }
    }
}

proof fn lemma_items_move<'a>(
    x: Input<'a>,
    y: Input<'a>,
    p: int,
    a: Cursor,
    b: Cursor,
    l: Listing<'a>,
    m: Listing<'a>,
)
    requires
        set_in(x, y, p),
        abreast(x, p, a, b),
        like(l, m),
    ensures
        items(x, a, l) matches Ok((o, to)) ==> to.pos < x.toks.len() ==> {
            &&& items(y, b, m) matches Ok((q, end))
            &&& like(o, q)
            &&& abreast(x, p, to, end)
        },
    decreases x.left(a), 1nat,
{
    lemma_moves(x, y, p);
    if a.pos < x.toks.len() {
        assert(x.tok(a) == y.tok(b));
        if !x.at_end(a) {
            lemma_item_advances(x, a, l);
            lemma_item_advances(y, b, m);
            if let Ok((o, c)) = item(x, a, l) {
                lemma_items_advance(x, c, o);
                if items(x, c, o) is Ok {
                    lemma_items_open(x, c, o);
                    lemma_item_moves(x, y, p, a, b, l, m);
                    if let Ok((q, d)) = item(y, b, m) {
                        if like(o, q) && abreast(x, p, c, d) {
                            lemma_items_move(x, y, p, c, d, o, q);
                        }
                    }
                }
            }
        }
    } else {
        assert(x.at_end(a));
    }
}

proof fn lemma_group_items_move<'a>(
    x: Input<'a>,
    y: Input<'a>,
    p: int,
    a: Cursor,
    b: Cursor,
    l: Listing<'a>,
    m: Listing<'a>,
)
    requires
        set_in(x, y, p),
        abreast(x, p, a, b),
        like(l, m),
    ensures
        group_items(x, a, l) matches Ok(((o, _), to)) ==> {
            &&& group_items(y, b, m) matches Ok(((q, _), end))
            &&& like(o, q)
            &&& abreast(x, p, to, end)
            &&& a.pos < x.toks.len()
            &&& opens(x, a)
        },
    decreases x.left(a), 2nat,
{
    lemma_moves(x, y, p);
    lemma_items_move(x, y, p, a, b, l, m);
    lemma_items_advance(x, a, l);
    if let Ok((_, c)) = items(x, a, l) {
        lemma_items_open(x, a, l);
        if x.at_rparen(c) {
            if let Ok((_, d)) = items(y, b, m) {
                assert(x.tok(c) == y.tok(d));
                let (e, f) = (x.step(c), y.step(d));
            }
        }
    }
}

proof fn lemma_group_rest_moves<'a>(
    x: Input<'a>,
    y: Input<'a>,
    p: int,
    a: Cursor,
    b: Cursor,
    l: Listing<'a>,
    m: Listing<'a>,
)
    requires
        set_in(x, y, p),
        abreast(x, p, a, b),
        like(l, m),
    ensures
        group_rest(x, a, l) matches Ok(((o, _), to)) ==> {
            &&& group_rest(y, b, m) matches Ok(((q, _), end))
            &&& like(o, q)
            &&& abreast(x, p, to, end)
            &&& a.pos < x.toks.len()
            &&& opens(x, a)
        },
    decreases x.left(a), 3nat,
{
    lemma_group_items_move(x, y, p, a, b, l, m);
}

proof fn lemma_folded_moves<'a>(
    x: Input<'a>,
    y: Input<'a>,
    p: int,
    a: Cursor,
    b: Cursor,
    l: Listing<'a>,
    m: Listing<'a>,
)
    requires
        set_in(x, y, p),
        abreast(x, p, a, b),
        like(l, m),
    ensures
        folded(x, a, l) matches Ok((o, to)) ==> {
            &&& folded(y, b, m) matches Ok((q, end))
            &&& like(o, q)
            &&& abreast(x, p, to, end)
        },
    decreases x.left(a), 4nat,
{
    lemma_moves(x, y, p);
    let (v, w) = (l.unhinted(), m.unhinted());
    if a.pos < x.toks.len() {
        assert(x.tok(a) == y.tok(b));
        let (c, d) = (x.step(a), y.step(b));
        if x.at_annotation(a, "metadata.code.branch_hint"@) {
            lemma_branch_hint_advances(x, a);
            if c.pos < x.toks.len() {
                assert(x.tok(c) == y.tok(d));
                let (e, f) = (x.step(c), y.step(d));
                if let (Ok((value, g)), Ok((_, h))) = (branch_hint(x, a), branch_hint(y, b)) {
                    lemma_group_items_move(x, y, p, g, h, l.hint(value), m.hint(value));
                }
            }
        } else {
            lemma_any_instruction_advances(x, a);
            let (s, t) = (x.here(a), y.here(b));
            if let Ok((i, e)) = AllInstructions::grammar(x, a) {
                lemma_instruction_moves(x, y, p, a, b);
                if folded(x, a, l) is Ok {
                    lemma_head_opens(x, a, l);
                    if let Ok((j, f)) = AllInstructions::grammar(y, b) {
                        lemma_like_push(l, m, None, i, j, s, t);
                        lemma_like_push(v, w, None, i, j, s, t);
                        match form(i) {
                            Form::Block => {
                                let (k, n) = (v.push(i, s), w.push(j, t));
                                lemma_group_rest_moves(x, y, p, e, f, k, n);
                                if let (Ok(((o, u), _)), Ok(((q, z), _))) = (
                                    group_rest(x, e, k),
                                    group_rest(y, f, n),
                                ) {
                                    lemma_like_push(o, q, None, end(), end(), u, z);
                                }
                            },
                            Form::Conditional => {
                                lemma_if_clause_moves(x, y, p, e, f, v, w, i, j, s, t, l.pending);
                            },
                            Form::Plain => {
                                lemma_group_rest_moves(x, y, p, e, f, v, w);
                                if let (Ok(((o, _), _)), Ok(((q, _), _))) = (
                                    group_rest(x, e, v),
                                    group_rest(y, f, w),
                                ) {
                                    lemma_like_push(o, q, l.pending, i, j, s, t);
                                }
                            },
                        }
                    }
                }
            }
        }
    }
}

/// Behind the head of a group, the text goes on.
proof fn lemma_head_opens<'a>(x: Input<'a>, a: Cursor, l: Listing<'a>)
    requires
        folded(x, a, l) is Ok,
        0 <= a.pos,
        !x.at_annotation(a, "metadata.code.branch_hint"@),
    ensures
        AllInstructions::grammar(x, a) matches Ok((_, e)) && e.pos < x.toks.len() && opens(x, e),
{
    let v = l.unhinted();
    lemma_any_instruction_advances(x, a);
    if let Ok((i, e)) = AllInstructions::grammar(x, a) {
        let k = match form(i) {
            Form::Block => v.push(i, x.here(a)),
            _ => v,
        };
        if form(i) is Conditional {
            let c = x.step(e);
            if x.at_lparen(e) {
                if x.tok(c) is Some {
                    lemma_opens(x, e);
                } else {
                    assert(folded(x, c, v) is Err);
                }
            }
        } else {
            assert(group_rest(x, e, k) is Ok);
            assert(group_items(x, e, k) is Ok);
            lemma_items_advance(x, e, k);
            assert(x.at_end(e) || item(x, e, k) is Ok);
            lemma_items_open(x, e, k);
        }
    }
}

proof fn lemma_if_clause_moves<'a>(
    x: Input<'a>,
    y: Input<'a>,
    p: int,
    a: Cursor,
    b: Cursor,
    l: Listing<'a>,
    m: Listing<'a>,
    i: AllInstructionsAst<'a>,
    j: AllInstructionsAst<'a>,
    s: Span,
    t: Span,
    hint: Option<u32>,
)
    requires
        set_in(x, y, p),
        abreast(x, p, a, b),
        like(l, m),
        instruction(i) == instruction(j),
    ensures
        if_clause(x, a, l, i, s, hint) matches Ok((o, to)) ==> {
            &&& if_clause(y, b, m, j, t, hint) matches Ok((q, end))
            &&& like(o, q)
            &&& abreast(x, p, to, end)
        },
    decreases x.left(a), 1nat,
{
    lemma_moves(x, y, p);
    let (c, d) = (x.step(a), y.step(b));
    if x.at_lparen(a) {
        assert(x.tok(a) == y.tok(b));
        x.lemma_step(a);
        if c.pos < x.toks.len() {
            assert(x.tok(c) == y.tok(d));
            if x.at_keyword(c, "then"@) {
                let (e, f) = (x.step(c), y.step(d));
                let (k, n) = (l.note(hint).push(i, s), m.note(hint).push(j, t));
                x.lemma_step(c);
                y.lemma_step(b);
                y.lemma_step(d);
                lemma_like_push(l, m, hint, i, j, s, t);
                lemma_group_rest_advances(x, e, k);
                lemma_group_rest_advances(y, f, n);
                lemma_group_rest_moves(x, y, p, e, f, k, n);
                if let (Ok(((o, _), g)), Ok(((q, _), h))) = (
                    group_rest(x, e, k),
                    group_rest(y, f, n),
                ) {
                    lemma_if_then_moves(x, y, p, g, h, o, q);
                }
            } else {
                lemma_folded_advances(x, c, l);
                lemma_folded_advances(y, d, m);
                y.lemma_step(b);
                lemma_folded_moves(x, y, p, c, d, l, m);
                if let (Ok((o, g)), Ok((q, h))) = (folded(x, c, l), folded(y, d, m)) {
                    lemma_if_clause_moves(x, y, p, g, h, o, q, i, j, s, t, hint);
                }
            }
        } else {
            assert(x.tok(c) is None);
            assert(folded(x, c, l) is Err);
        }
    }
}

proof fn lemma_if_then_moves<'a>(
    x: Input<'a>,
    y: Input<'a>,
    p: int,
    a: Cursor,
    b: Cursor,
    l: Listing<'a>,
    m: Listing<'a>,
)
    requires
        set_in(x, y, p),
        abreast(x, p, a, b),
        like(l, m),
    ensures
        if_then(x, a, l) matches Ok((o, to)) ==> {
            &&& if_then(y, b, m) matches Ok((q, end))
            &&& like(o, q)
            &&& abreast(x, p, to, end)
        },
    decreases x.left(a), 1nat,
{
    lemma_moves(x, y, p);
    let (c, d) = (x.step(a), y.step(b));
    if a.pos < x.toks.len() {
        assert(x.tok(a) == y.tok(b));
        lemma_like_push(l, m, None, end(), end(), x.here(a), y.here(b));
        if x.at_lparen(a) && c.pos < x.toks.len() {
            assert(x.tok(c) == y.tok(d));
            if x.at_keyword(c, "else"@) {
                let (e, f) = (x.step(c), y.step(d));
                let (s, t) = (x.here(c), y.here(d));
                let (k, n) = (l.push(otherwise(), s), m.push(otherwise(), t));
                x.lemma_step(a);
                x.lemma_step(c);
                lemma_like_push(l, m, None, otherwise(), otherwise(), s, t);
                lemma_group_rest_moves(x, y, p, e, f, k, n);
                if let (Ok(((o, _), g)), Ok(((q, _), h))) = (
                    group_rest(x, e, k),
                    group_rest(y, f, n),
                ) {
                    if g.pos < x.toks.len() {
                        assert(x.tok(g) == y.tok(h));
                        let (u, z) = (x.step(g), y.step(h));
                        lemma_like_push(o, q, None, end(), end(), x.here(g), y.here(h));
                    }
                }
            }
        }
    }
}

/// The next `n` items are groups.
pub open spec fn grouped<'a>(input: Input<'a>, at: Cursor, out: Listing<'a>, n: nat) -> bool
    decreases n,
{
    n > 0 ==> {
        &&& input.at_lparen(at)
        &&& item(input, at, out) matches Ok((o, to)) ==> grouped(input, to, o, (n - 1) as nat)
    }
}

/// Items denote the same wherever they stand.
pub proof fn lemma_sequence_moves<'a>(
    x: Input<'a>,
    y: Input<'a>,
    p: int,
    a: Cursor,
    b: Cursor,
    l: Listing<'a>,
    m: Listing<'a>,
    n: nat,
)
    requires
        set_in(x, y, p),
        abreast(x, p, a, b),
        like(l, m),
    ensures
        sequence(x, a, l, n) matches Ok((o, to)) ==> {
            ||| grouped(x, a, l, n)
            ||| to.pos >= x.toks.len() && complete(y, p + x.toks.len(), true)
        } ==> {
            &&& sequence(y, b, m, n) matches Ok((q, end))
            &&& like(o, q)
            &&& abreast(x, p, to, end)
            &&& grouped(x, a, l, n) ==> grouped(y, b, m, n)
        },
    decreases n,
{
    if n > 0 {
        if let Ok((o, c)) = item(x, a, l) {
            if n > 1 && item(x, c, o) is Ok {
                lemma_items_open(x, c, o);
                assert(x.tok(c) is Some);
            }
            lemma_item_moves(x, y, p, a, b, l, m);
            if let Ok((q, d)) = item(y, b, m) {
                if like(o, q) && abreast(x, p, c, d) {
                    lemma_sequence_moves(x, y, p, c, d, o, q, (n - 1) as nat);
                }
            }
            assert(n > 1 ==> sequence(x, a, l, n) is Ok ==> item(x, c, o) is Ok);
        }
    }
}

/// A text denotes the same wherever it stands, but for positions: the `n` items of
/// the text `x` from `a` on denote the same instructions and branch hints where
/// the tokens of `x` are those of `y` from the token `p` on and the same annotations
/// are registered, and they end at the same token there.
///
/// What stands in `y` behind the text must not continue its last instruction. Where
/// each item is a group, the first token behind it decides that.
pub proof fn law_place_of_a_text<'a>(
    x: Input<'a>,
    a: Cursor,
    n: nat,
    o: Listing<'a>,
    to: Cursor,
    y: Input<'a>,
    p: int,
    b: Cursor,
)
    requires
        set_in(x, y, p),
        abreast(x, p, a, b),
        reads(x, a, n, o, to),
        grouped(x, a, Listing::empty(x.track), n) || (to.pos == x.toks.len() && complete(
            y,
            p + x.toks.len(),
            true,
        )),
    ensures
        exists|q: Listing<'a>, end: Cursor| #[trigger]
            reads(y, b, n, q, end) && same_code(o, q) && end.pos == to.pos + p,
{
    let (l, m) = (Listing::empty(x.track), Listing::empty(y.track));
    assert(instructions(l.instrs) =~= instructions(m.instrs));
    lemma_sequence_moves(x, y, p, a, b, l, m, n);
    if let Ok((q, end)) = sequence(y, b, m, n) {
        assert(reads(y, b, n, q, end));
    }
}

} // verus!
