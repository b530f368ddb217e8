//! What folded text denotes, and what flat text denotes, in terms of what their parts
//! denote where they stand.

use vstd::prelude::*;

use crate::expr::Expression;
use crate::grammar::{
    branch_hint, end, folded, form, group_items, group_rest, if_clause, if_then, item, items,
    lemma_branch_hint_advances, lemma_folded_advances, lemma_group_rest_advances,
    lemma_item_advances, otherwise, Form, Hint, Listing,
};
use crate::labels::{lemma_any_instruction_advances, AllInstructions, AllInstructionsAst};
use crate::laws::lemma_hint_is_no_instruction;
use crate::parser::{Cursor, Input, Parse, Parsed};
use crate::token::{Error, Span};
use crate::unplaced::{instruction, instructions};

verus! {

/// One listing behind another. The places that the branch hints of the second one
/// store move on by the number of instructions of the first one.
pub open spec fn joined<'a>(a: Listing<'a>, b: Listing<'a>) -> Listing<'a> {
    Listing {
        instrs: a.instrs + b.instrs,
        hints: a.hints + Seq::new(
            b.hints.len(),
            |k: int|
                Hint {
                    instr_index: a.instrs.len() + b.hints[k].instr_index,
                    value: b.hints[k].value,
                },
        ),
        spans: match (a.spans, b.spans) {
            (Some(x), Some(y)) => Some(x + y),
            _ => None,
        },
        pending: b.pending,
    }
}

/// Both listings record positions, or neither does.
pub open spec fn fits<'a>(a: Listing<'a>, b: Listing<'a>) -> bool {
    a.spans is Some <==> b.spans is Some
}

/// What a rule gives, behind the listing `a`.
pub open spec fn behind<'a>(a: Listing<'a>, r: Parsed<Listing<'a>>) -> Parsed<Listing<'a>> {
    match r {
        Ok((o, to)) => Ok((joined(a, o), to)),
        Err(e) => Err(e),
    }
}

/// The same for the rest of a group.
pub open spec fn group_behind<'a>(a: Listing<'a>, r: Parsed<(Listing<'a>, Span)>) -> Parsed<
    (Listing<'a>, Span),
> {
    match r {
        Ok(((o, close), to)) => Ok(((joined(a, o), close), to)),
        Err(e) => Err(e),
    }
}

proof fn lemma_joined_push<'a>(
    a: Listing<'a>,
    b: Listing<'a>,
    hint: Option<u32>,
    i: AllInstructionsAst<'a>,
    span: Span,
)
    requires
        fits(a, b),
    ensures
        joined(a, b).note(hint).push(i, span) == joined(a, b.note(hint).push(i, span)),
        joined(a, b).unhinted() == joined(a, b.unhinted()),
{
    assert(joined(a, b).note(hint).push(i, span) =~= joined(a, b.note(hint).push(i, span)));
    assert(joined(a, b).unhinted() =~= joined(a, b.unhinted()));
}

/// A listing behind none.
pub proof fn lemma_joined_empty<'a>(a: Listing<'a>)
    ensures
        a.pending is None ==> joined(a, Listing::empty(a.spans is Some)) == a,
        joined(Listing::empty(a.spans is Some), a) == a,
{
    let e = Listing::empty(a.spans is Some);
    assert(joined(e, a) =~= a);
    if a.pending is None {
        assert(joined(a, e) =~= a);
    }
}

proof fn lemma_item_joins<'a>(input: Input<'a>, at: Cursor, a: Listing<'a>, b: Listing<'a>)
    requires
        fits(a, b),
    ensures
        item(input, at, joined(a, b)) == behind(a, item(input, at, b)),
        item(input, at, b) matches Ok((o, _)) ==> fits(a, o),
    decreases input.left(at), 0nat,
{
    if input.at_lparen(at) {
        input.lemma_step(at);
        lemma_folded_joins(input, input.step(at), a, b);
    } else {
        if let Ok((i, _)) = AllInstructions::grammar(input, at) {
            lemma_joined_push(a, b.unhinted(), b.pending, i, input.here(at));
            lemma_joined_push(a, b, b.pending, i, input.here(at));
        }
    }
}

/// What the items of a text denote does not depend on what stands before them.
pub proof fn lemma_items_join<'a>(input: Input<'a>, at: Cursor, a: Listing<'a>, b: Listing<'a>)
    requires
        fits(a, b),
    ensures
        items(input, at, joined(a, b)) == behind(a, items(input, at, b)),
        items(input, at, b) matches Ok((o, _)) ==> fits(a, o),
    decreases input.left(at), 1nat,
{
    if !input.at_end(at) {
        lemma_item_advances(input, at, b);
        lemma_item_joins(input, at, a, b);
        if let Ok((o, to)) = item(input, at, b) {
            lemma_items_join(input, to, a, o);
        }
    }
}

proof fn lemma_group_items_join<'a>(input: Input<'a>, at: Cursor, a: Listing<'a>, b: Listing<'a>)
    requires
        fits(a, b),
    ensures
        group_items(input, at, joined(a, b)) == group_behind(a, group_items(input, at, b)),
        group_items(input, at, b) matches Ok(((o, _), _)) ==> fits(a, o),
    decreases input.left(at), 2nat,
{
    lemma_items_join(input, at, a, b);
}

proof fn lemma_group_rest_joins<'a>(input: Input<'a>, at: Cursor, a: Listing<'a>, b: Listing<'a>)
    requires
        fits(a, b),
    ensures
        group_rest(input, at, joined(a, b)) == group_behind(a, group_rest(input, at, b)),
        group_rest(input, at, b) matches Ok(((o, _), _)) ==> fits(a, o),
    decreases input.left(at), 3nat,
{
    lemma_group_items_join(input, at, a, b);
}

/// What a group denotes does not depend on what stands before it.
pub proof fn lemma_folded_joins<'a>(input: Input<'a>, at: Cursor, a: Listing<'a>, b: Listing<'a>)
    requires
        fits(a, b),
    ensures
        folded(input, at, joined(a, b)) == behind(a, folded(input, at, b)),
        folded(input, at, b) matches Ok((o, _)) ==> fits(a, o),
    decreases input.left(at), 4nat,
{
    let bare = b.unhinted();
    if input.at_annotation(at, "metadata.code.branch_hint"@) {
        lemma_branch_hint_advances(input, at);
        if let Ok((value, c)) = branch_hint(input, at) {
            assert(joined(a, b).hint(value) =~= joined(a, b.hint(value)));
            lemma_group_items_join(input, c, a, b.hint(value));
        }
    } else {
        lemma_any_instruction_advances(input, at);
        let span = input.here(at);
        if let Ok((i, c)) = AllInstructions::grammar(input, at) {
            lemma_joined_push(a, b, None, i, span);
            lemma_joined_push(a, bare, None, i, span);
            match form(i) {
                Form::Block => {
                    lemma_group_rest_joins(input, c, a, bare.push(i, span));
                    if let Ok(((o, close), _)) = group_rest(input, c, bare.push(i, span)) {
                        lemma_joined_push(a, o, None, end(), close);
                    }
                },
                Form::Conditional => {
                    lemma_if_clause_joins(input, c, a, bare, i, span, b.pending);
                },
                Form::Plain => {
                    lemma_group_rest_joins(input, c, a, bare);
                    if let Ok(((o, _), _)) = group_rest(input, c, bare) {
                        lemma_joined_push(a, o, b.pending, i, span);
                    }
                },
            }
        }
    }
}

proof fn lemma_if_clause_joins<'a>(
    input: Input<'a>,
    at: Cursor,
    a: Listing<'a>,
    b: Listing<'a>,
    i: AllInstructionsAst<'a>,
    span: Span,
    hint: Option<u32>,
)
    requires
        fits(a, b),
    ensures
        if_clause(input, at, joined(a, b), i, span, hint) == behind(
            a,
            if_clause(input, at, b, i, span, hint),
        ),
        if_clause(input, at, b, i, span, hint) matches Ok((o, _)) ==> fits(a, o),
    decreases input.left(at), 1nat,
{
    if input.at_lparen(at) {
        let c = input.step(at);
        let d = input.step(c);
        input.lemma_step(at);
        input.lemma_step(c);
        if input.at_keyword(c, "then"@) {
            let arm = b.note(hint).push(i, span);
            lemma_joined_push(a, b, hint, i, span);
            lemma_group_rest_advances(input, d, arm);
            lemma_group_rest_joins(input, d, a, arm);
            if let Ok(((o, _), to)) = group_rest(input, d, arm) {
                lemma_if_then_joins(input, to, a, o);
            }
        } else {
            lemma_folded_advances(input, c, b);
            lemma_folded_joins(input, c, a, b);
            if let Ok((o, to)) = folded(input, c, b) {
                lemma_if_clause_joins(input, to, a, o, i, span, hint);
            }
        }
    }
}

proof fn lemma_if_then_joins<'a>(input: Input<'a>, at: Cursor, a: Listing<'a>, b: Listing<'a>)
    requires
        fits(a, b),
    ensures
        if_then(input, at, joined(a, b)) == behind(a, if_then(input, at, b)),
        if_then(input, at, b) matches Ok((o, _)) ==> fits(a, o),
    decreases input.left(at), 1nat,
{
    let c = input.step(at);
    let d = input.step(c);
    input.lemma_step(at);
    input.lemma_step(c);
    lemma_joined_push(a, b, None, end(), input.here(at));
    if input.at_lparen(at) && input.at_keyword(c, "else"@) {
        let span = input.here(c);
        let arm = b.push(otherwise(), span);
        lemma_joined_push(a, b, None, otherwise(), span);
        lemma_group_rest_joins(input, d, a, arm);
        if let Ok(((o, _), to)) = group_rest(input, d, arm) {
            lemma_joined_push(a, o, None, end(), input.here(to));
        }
    }
}

/// The first `n` items of a text.
pub open spec fn sequence<'a>(input: Input<'a>, at: Cursor, out: Listing<'a>, n: nat) -> Parsed<
    Listing<'a>,
>
    decreases n,
{
    if n == 0 {
        Ok((out, at))
    } else {
        match item(input, at, out) {
            Ok((o, to)) => sequence(input, to, o, (n - 1) as nat),
            Err(e) => Err(e),
        }
    }
}

/// The items of a text are the first `n` and those behind them.
pub proof fn lemma_items_split<'a>(input: Input<'a>, at: Cursor, out: Listing<'a>, n: nat)
    ensures
        sequence(input, at, out, n) matches Ok((o, to)) ==> items(input, at, out) == items(
            input,
            to,
            o,
        ),
    decreases n,
{
    if n > 0 {
        lemma_item_advances(input, at, out);
        if let Ok((o, to)) = item(input, at, out) {
            lemma_items_split(input, to, o, (n - 1) as nat);
        }
    }
}

/// The first `n + m` items of a text are the first `n` and `m` more.
proof fn lemma_sequence_split<'a>(input: Input<'a>, at: Cursor, out: Listing<'a>, n: nat, m: nat)
    ensures
        sequence(input, at, out, n) matches Ok((o, to)) ==> sequence(input, at, out, n + m)
            == sequence(input, to, o, m),
    decreases n,
{
    if n > 0 {
        if let Ok((o, to)) = item(input, at, out) {
            lemma_sequence_split(input, to, o, (n - 1) as nat, m);
        }
    }
}

proof fn lemma_sequence_joins<'a>(
    input: Input<'a>,
    at: Cursor,
    a: Listing<'a>,
    b: Listing<'a>,
    n: nat,
)
    requires
        fits(a, b),
    ensures
        sequence(input, at, joined(a, b), n) == behind(a, sequence(input, at, b, n)),
        sequence(input, at, b, n) matches Ok((o, _)) ==> fits(a, o),
    decreases n,
{
    if n > 0 {
        lemma_item_joins(input, at, a, b);
        if let Ok((o, to)) = item(input, at, b) {
            lemma_sequence_joins(input, to, a, o, (n - 1) as nat);
        }
    }
}

/// What `n` items denote by themselves.
pub open spec fn reads<'a>(
    input: Input<'a>,
    at: Cursor,
    n: nat,
    o: Listing<'a>,
    to: Cursor,
) -> bool {
    &&& sequence(input, at, Listing::empty(input.track), n) == Ok::<_, Error>((o, to))
    &&& o.pending is None
}

/// One text behind another denotes the first one's listing and the second one's
/// behind it, with the branch hints of the second one moved on.
pub proof fn law_concatenation<'a>(
    input: Input<'a>,
    at: Cursor,
    n: nat,
    first: Listing<'a>,
    mid: Cursor,
)
    requires
        reads(input, at, n, first, mid),
    ensures
        Expression::grammar(input, at) == behind(first, Expression::grammar(input, mid)),
{
    let none = Listing::empty(input.track);
    lemma_items_split(input, at, none, n);
    lemma_sequence_joins(input, at, none, none, n);
    lemma_joined_empty(none);
    lemma_joined_empty(first);
    lemma_items_join(input, mid, first, none);
}

/// The same for a number of items.
pub proof fn law_concatenation_of_items<'a>(
    input: Input<'a>,
    at: Cursor,
    n: nat,
    first: Listing<'a>,
    mid: Cursor,
    m: nat,
    second: Listing<'a>,
    to: Cursor,
)
    requires
        reads(input, at, n, first, mid),
        reads(input, mid, m, second, to),
    ensures
        reads(input, at, n + m, joined(first, second), to),
{
    let none = Listing::empty(input.track);
    lemma_sequence_split(input, at, none, n, m);
    lemma_sequence_joins(input, at, none, none, n);
    lemma_joined_empty(none);
    lemma_joined_empty(first);
    lemma_sequence_joins(input, mid, first, none, m);
}

/// A text that ends behind its first `n` items denotes what these denote.
pub proof fn law_whole_text<'a>(input: Input<'a>, at: Cursor, n: nat, o: Listing<'a>, to: Cursor)
    requires
        reads(input, at, n, o, to),
        input.at_end(to),
    ensures
        Expression::grammar(input, at) == Ok::<_, Error>((o, to)),
{
    lemma_items_split(input, at, Listing::empty(input.track), n);
}

/// A single instruction.
pub open spec fn single<'a>(track: bool, i: AllInstructionsAst<'a>, span: Span) -> Listing<'a> {
    Listing::empty(track).push(i, span)
}

/// An instruction that is written flat.
pub proof fn lemma_reads_one<'a>(
    input: Input<'a>,
    at: Cursor,
    i: AllInstructionsAst<'a>,
    to: Cursor,
)
    requires
        AllInstructions::grammar(input, at) == Ok::<_, Error>((i, to)),
    ensures
        reads(input, at, 1, single(input.track, i, input.here(at)), to),
{
    let none = Listing::empty(input.track);
    assert(none.unhinted() =~= none);
    let o = single(input.track, i, input.here(at));
    assert(item(input, at, none) == Ok::<_, Error>((o, to)));
    assert(sequence(input, to, o, 0) == Ok::<_, Error>((o, to)));
}

/// The rest of a group that an expression fills.
proof fn lemma_group<'a>(
    input: Input<'a>,
    at: Cursor,
    out: Listing<'a>,
    body: Listing<'a>,
    c: Cursor,
)
    requires
        Expression::grammar(input, at) == Ok::<_, Error>((body, c)),
        input.at_rparen(c),
        out.pending is None,
        out.spans is Some <==> input.track,
    ensures
        group_rest(input, at, out) == Ok::<_, Error>(
            ((joined(out, body), input.here(c)), input.step(c)),
        ),
        body.spans is Some <==> input.track,
        body.pending is None,
{
    let none = Listing::empty(input.track);
    lemma_joined_empty(out);
    lemma_group_rest_joins(input, at, out, none);
    assert(group_items(input, at, none) == Ok::<_, Error>(
        ((body, input.here(c)), input.step(c)),
    ));
    lemma_items_join(input, at, out, none);
}

/// A group, as an item.
proof fn lemma_reads_group<'a>(
    input: Input<'a>,
    p: Cursor,
    o: Listing<'a>,
    to: Cursor,
)
    requires
        input.at_lparen(p),
        folded(input, input.step(p), Listing::empty(input.track)) == Ok::<_, Error>((o, to)),
        o.pending is None,
    ensures
        reads(input, p, 1, o, to),
{
    let none = Listing::empty(input.track);
    assert(item(input, p, none) == Ok::<_, Error>((o, to)));
    assert(sequence(input, to, o, 0) == Ok::<_, Error>((o, to)));
}

/// The same instructions, but for the positions of their operands, with the same
/// branch hints.
pub open spec fn same_code<'a>(x: Listing<'a>, y: Listing<'a>) -> bool {
    instructions(x.instrs) == instructions(y.instrs) && x.hints == y.hints
}

pub proof fn lemma_same_single<'a>(
    i: AllInstructionsAst<'a>,
    j: AllInstructionsAst<'a>,
    a: bool,
    b: bool,
    s: Span,
    t: Span,
)
    requires
        instruction(i) == instruction(j),
    ensures
        same_code(single(a, i, s), single(b, j, t)),
{
    assert(instructions(single(a, i, s).instrs) =~= instructions(single(b, j, t).instrs));
}

pub proof fn lemma_same_code_joins<'a>(a: Listing<'a>, b: Listing<'a>, c: Listing<'a>, d: Listing<'a>)
    requires
        same_code(a, c),
        same_code(b, d),
    ensures
        same_code(joined(a, b), joined(c, d)),
{
    assert(instructions(a.instrs).len() == instructions(c.instrs).len());
    assert(instructions(joined(a, b).instrs) =~= instructions(a.instrs) + instructions(b.instrs));
    assert(instructions(joined(c, d).instrs) =~= instructions(c.instrs) + instructions(d.instrs));
    assert(joined(a, b).hints =~= joined(c, d).hints);
}

/// Where both texts end behind these items, they denote the same code.
proof fn lemma_same_texts<'a>(
    x: Input<'a>,
    p: Cursor,
    n: nat,
    o: Listing<'a>,
    end: Cursor,
    y: Input<'a>,
    s: Cursor,
    m: nat,
    q: Listing<'a>,
    to: Cursor,
)
    requires
        reads(x, p, n, o, end),
        reads(y, s, m, q, to),
        same_code(o, q),
    ensures
        x.at_end(end) && y.at_end(to) ==> same_expressions(x, p, y, s),
{
    if x.at_end(end) && y.at_end(to) {
        law_whole_text(x, p, n, o, end);
        law_whole_text(y, s, m, q, to);
    }
}

/// Two texts are expressions with the same instructions and branch hints.
pub open spec fn same_expressions<'a>(x: Input<'a>, p: Cursor, y: Input<'a>, s: Cursor) -> bool {
    match (Expression::grammar(x, p), Expression::grammar(y, s)) {
        (Ok((e, _)), Ok((f, _))) => same_code(e, f),
        _ => false,
    }
}

/// A group that starts with an instruction that comes last.
pub proof fn lemma_plain_group<'a>(
    x: Input<'a>,
    p: Cursor,
    i: AllInstructionsAst<'a>,
    b: Cursor,
    operands: Listing<'a>,
    c: Cursor,
)
    requires
        x.at_lparen(p),
        AllInstructions::grammar(x, x.step(p)) == Ok::<_, Error>((i, b)),
        form(i) is Plain,
        Expression::grammar(x, b) == Ok::<_, Error>((operands, c)),
        x.at_rparen(c),
    ensures
        reads(x, p, 1, joined(operands, single(x.track, i, x.here(x.step(p)))), x.step(c)),
{
    let a = x.step(p);
    let o = joined(operands, single(x.track, i, x.here(a)));
    let none = Listing::empty(x.track);
    lemma_not_a_hint(x, a);
    assert(none.unhinted() =~= none);
    lemma_group(x, b, none, operands, c);
    lemma_joined_empty(operands);
    assert(operands.push(i, x.here(a)) =~= o);
    lemma_reads_group(x, p, o, x.step(c));
}

/// `(op operands)` denotes the same as `operands op`: the instructions of the
/// operands, in the order of the text, and the operator behind them.
///
/// The group stands at `p` in `x`, where its operands extend to `c`. The flat text
/// stands at `s` in `y`, where the operands are `n` items and extend to `e`, and
/// the operator, `j`, extends to `d`. The operands and the operator denote the same
/// in both texts.
pub proof fn law_plain_group_is_flat<'a>(
    x: Input<'a>,
    p: Cursor,
    i: AllInstructionsAst<'a>,
    b: Cursor,
    operands: Listing<'a>,
    c: Cursor,
    y: Input<'a>,
    s: Cursor,
    n: nat,
    flat: Listing<'a>,
    e: Cursor,
    j: AllInstructionsAst<'a>,
    d: Cursor,
)
    requires
        x.at_lparen(p),
        AllInstructions::grammar(x, x.step(p)) == Ok::<_, Error>((i, b)),
        form(i) is Plain,
        Expression::grammar(x, b) == Ok::<_, Error>((operands, c)),
        x.at_rparen(c),
        reads(y, s, n, flat, e),
        same_code(operands, flat),
        AllInstructions::grammar(y, e) == Ok::<_, Error>((j, d)),
        instruction(i) == instruction(j),
    ensures
        ({
            let o = joined(operands, single(x.track, i, x.here(x.step(p))));
            let q = joined(flat, single(y.track, j, y.here(e)));
            &&& reads(x, p, 1, o, x.step(c))
            &&& reads(y, s, n + 1, q, d)
            &&& same_code(o, q)
            &&& o.instrs == operands.instrs.push(i)
        }),
        x.at_end(x.step(c)) && y.at_end(d) ==> same_expressions(x, p, y, s),
{
    let a = x.step(p);
    let (f, g) = (single(x.track, i, x.here(a)), single(y.track, j, y.here(e)));
    lemma_same_single(i, j, x.track, y.track, x.here(a), y.here(e));
    let (o, q) = (joined(operands, f), joined(flat, g));
    lemma_plain_group(x, p, i, b, operands, c);
    assert(o.instrs =~= operands.instrs.push(i));
    lemma_reads_one(y, e, j, d);
    law_concatenation_of_items(y, s, n, flat, e, 1, g, d);
    lemma_same_code_joins(operands, f, flat, g);
    lemma_same_texts(x, p, 1, o, x.step(c), y, s, n + 1, q, d);
}

/// A group that starts with an instruction that opens a block.
pub proof fn lemma_block_group<'a>(
    x: Input<'a>,
    p: Cursor,
    i: AllInstructionsAst<'a>,
    b: Cursor,
    body: Listing<'a>,
    c: Cursor,
)
    requires
        x.at_lparen(p),
        AllInstructions::grammar(x, x.step(p)) == Ok::<_, Error>((i, b)),
        form(i) is Block,
        Expression::grammar(x, b) == Ok::<_, Error>((body, c)),
        x.at_rparen(c),
    ensures
        ({
            let o = joined(
                joined(single(x.track, i, x.here(x.step(p))), body),
                single(x.track, end(), x.here(c)),
            );
            reads(x, p, 1, o, x.step(c))
        }),
{
    let a = x.step(p);
    let f = single(x.track, i, x.here(a));
    let o = joined(joined(f, body), single(x.track, end(), x.here(c)));
    let none = Listing::empty(x.track);
    lemma_not_a_hint(x, a);
    assert(none.unhinted() =~= none);
    lemma_group(x, b, f, body, c);
    assert(joined(f, body).push(end(), x.here(c)) =~= o);
    lemma_reads_group(x, p, o, x.step(c));
}

/// `(block body)` denotes the same as `block body end`, and so do `loop` and
/// `try_table`.
///
/// The group stands at `p` in `x`, where its body extends to `c`. The flat text
/// stands at `s` in `y`, where the header is `j`, the body is `n` items from `t` to
/// `e`, and the written `end` extends to `d`. The header and the body denote the same
/// in both texts.
pub proof fn law_block_group_is_flat<'a>(
    x: Input<'a>,
    p: Cursor,
    i: AllInstructionsAst<'a>,
    b: Cursor,
    body: Listing<'a>,
    c: Cursor,
    y: Input<'a>,
    s: Cursor,
    j: AllInstructionsAst<'a>,
    t: Cursor,
    n: nat,
    flat: Listing<'a>,
    e: Cursor,
    d: Cursor,
)
    requires
        x.at_lparen(p),
        AllInstructions::grammar(x, x.step(p)) == Ok::<_, Error>((i, b)),
        form(i) is Block,
        Expression::grammar(x, b) == Ok::<_, Error>((body, c)),
        x.at_rparen(c),
        AllInstructions::grammar(y, s) == Ok::<_, Error>((j, t)),
        instruction(i) == instruction(j),
        reads(y, t, n, flat, e),
        same_code(body, flat),
        AllInstructions::grammar(y, e) == Ok::<_, Error>((end(), d)),
    ensures
        ({
            let o = joined(
                joined(single(x.track, i, x.here(x.step(p))), body),
                single(x.track, end(), x.here(c)),
            );
            let q = joined(
                joined(single(y.track, j, y.here(s)), flat),
                single(y.track, end(), y.here(e)),
            );
            &&& reads(x, p, 1, o, x.step(c))
            &&& reads(y, s, 1 + n + 1, q, d)
            &&& same_code(o, q)
            &&& o.instrs == seq![i] + body.instrs + seq![end::<'a>()]
        }),
        x.at_end(x.step(c)) && y.at_end(d) ==> same_expressions(x, p, y, s),
{
    let a = x.step(p);
    let (f, g) = (single(x.track, i, x.here(a)), single(y.track, j, y.here(s)));
    let (k, l) = (single(x.track, end(), x.here(c)), single(y.track, end(), y.here(e)));
    lemma_same_single(i, j, x.track, y.track, x.here(a), y.here(s));
    lemma_same_single(end(), end(), x.track, y.track, x.here(c), y.here(e));
    let (o, q) = (joined(joined(f, body), k), joined(joined(g, flat), l));
    lemma_block_group(x, p, i, b, body, c);
    lemma_reads_one(y, s, j, t);
    law_concatenation_of_items(y, s, 1, g, t, n, flat, e);
    lemma_reads_one(y, e, end(), d);
    law_concatenation_of_items(y, s, 1 + n, joined(g, flat), e, 1, l, d);
    lemma_same_code_joins(f, body, g, flat);
    lemma_same_code_joins(joined(f, body), k, joined(g, flat), l);
    lemma_same_texts(x, p, 1, o, x.step(c), y, s, 1 + n + 1, q, d);
    assert(o.instrs =~= seq![i] + body.instrs + seq![end::<'a>()]);
}

/// An instruction starts with no branch hint.
proof fn lemma_not_a_hint<'a>(input: Input<'a>, at: Cursor)
    requires
        AllInstructions::grammar(input, at) is Ok,
    ensures
        !input.at_annotation(at, "metadata.code.branch_hint"@),
{
    if input.at_annotation(at, "metadata.code.branch_hint"@) {
        lemma_hint_is_no_instruction(input, at);
    }
}

/// The next `n` items are groups of the clause of a conditional: none is an arm.
pub open spec fn clause_groups<'a>(input: Input<'a>, at: Cursor, out: Listing<'a>, n: nat) -> bool
    decreases n,
{
    n > 0 ==> {
        &&& input.at_lparen(at)
        &&& !input.at_keyword(input.step(at), "then"@)
        &&& item(input, at, out) matches Ok((o, to)) ==> clause_groups(input, to, o, (n - 1) as nat)
    }
}

proof fn lemma_clause<'a>(
    input: Input<'a>,
    at: Cursor,
    out: Listing<'a>,
    n: nat,
    i: AllInstructionsAst<'a>,
    span: Span,
    hint: Option<u32>,
)
    requires
        clause_groups(input, at, out, n),
    ensures
        sequence(input, at, out, n) matches Ok((o, to)) ==> if_clause(
            input,
            at,
            out,
            i,
            span,
            hint,
        ) == if_clause(input, to, o, i, span, hint),
    decreases n,
{
    if n > 0 {
        let a = input.step(at);
        input.lemma_step(at);
        lemma_folded_advances(input, a, out);
        assert(item(input, at, out) == folded(input, a, out));
        if let Ok((o, to)) = item(input, at, out) {
            lemma_clause(input, to, o, (n - 1) as nat, i, span, hint);
        }
    }
}

/// A folded conditional, behind its clause: `(then arm)`, where the arm stands
/// behind `(then` at `q` and extends to `r`.
pub open spec fn then_arm<'a>(input: Input<'a>, q: Cursor, arm: Listing<'a>, r: Cursor) -> bool {
    &&& input.at_lparen(q)
    &&& input.at_keyword(input.step(q), "then"@)
    &&& Expression::grammar(input, input.step(input.step(q))) == Ok::<_, Error>((arm, r))
    &&& input.at_rparen(r)
}

/// The same for `(else arm)`.
pub open spec fn else_arm<'a>(input: Input<'a>, q: Cursor, arm: Listing<'a>, r: Cursor) -> bool {
    &&& input.at_lparen(q)
    &&& input.at_keyword(input.step(q), "else"@)
    &&& Expression::grammar(input, input.step(input.step(q))) == Ok::<_, Error>((arm, r))
    &&& input.at_rparen(r)
}

/// A conditional, behind its clause and its first arm.
proof fn lemma_first_arm<'a>(
    input: Input<'a>,
    p: Cursor,
    i: AllInstructionsAst<'a>,
    b: Cursor,
    n: nat,
    clause: Listing<'a>,
    q: Cursor,
    arm: Listing<'a>,
    r: Cursor,
)
    requires
        input.at_lparen(p),
        AllInstructions::grammar(input, input.step(p)) == Ok::<_, Error>((i, b)),
        form(i) is Conditional,
        clause_groups(input, b, Listing::empty(input.track), n),
        reads(input, b, n, clause, q),
        then_arm(input, q, arm, r),
    ensures
        ({
            let f = single(input.track, i, input.here(input.step(p)));
            let o = joined(joined(clause, f), arm);
            &&& item(input, p, Listing::empty(input.track)) == if_then(input, input.step(r), o)
            &&& o.pending is None
            &&& o.spans is Some <==> input.track
        }),
{
    let a = input.step(p);
    let span = input.here(a);
    let none = Listing::empty(input.track);
    let f = single(input.track, i, span);
    let d = input.step(input.step(q));
    lemma_not_a_hint(input, a);
    assert(none.unhinted() =~= none);
    lemma_clause(input, b, none, n, i, span, None);
    lemma_sequence_joins(input, b, none, none, n);
    assert(clause.push(i, span) =~= joined(clause, f));
    lemma_group(input, d, joined(clause, f), arm, r);
    input.lemma_step(q);
    input.lemma_step(input.step(q));
    lemma_group_rest_advances(input, d, joined(clause, f));
}

/// A conditional with one arm.
pub proof fn lemma_conditional_group<'a>(
    x: Input<'a>,
    p: Cursor,
    i: AllInstructionsAst<'a>,
    b: Cursor,
    n: nat,
    clause: Listing<'a>,
    q: Cursor,
    arm: Listing<'a>,
    r: Cursor,
)
    requires
        x.at_lparen(p),
        AllInstructions::grammar(x, x.step(p)) == Ok::<_, Error>((i, b)),
        form(i) is Conditional,
        clause_groups(x, b, Listing::empty(x.track), n),
        reads(x, b, n, clause, q),
        then_arm(x, q, arm, r),
        x.at_rparen(x.step(r)),
    ensures
        ({
            let o = joined(
                joined(joined(clause, single(x.track, i, x.here(x.step(p)))), arm),
                single(x.track, end(), x.here(x.step(r))),
            );
            reads(x, p, 1, o, x.step(x.step(r)))
        }),
{
    let v = x.step(r);
    let o = joined(joined(clause, single(x.track, i, x.here(x.step(p)))), arm);
    lemma_first_arm(x, p, i, b, n, clause, q, arm, r);
    assert(o.push(end(), x.here(v)) =~= joined(o, single(x.track, end(), x.here(v))));
    lemma_reads_group(x, p, joined(o, single(x.track, end(), x.here(v))), x.step(v));
}

/// A conditional with two arms.
pub proof fn lemma_conditional_with_else_group<'a>(
    x: Input<'a>,
    p: Cursor,
    i: AllInstructionsAst<'a>,
    b: Cursor,
    n: nat,
    clause: Listing<'a>,
    q: Cursor,
    arm: Listing<'a>,
    r: Cursor,
    other: Listing<'a>,
    w: Cursor,
)
    requires
        x.at_lparen(p),
        AllInstructions::grammar(x, x.step(p)) == Ok::<_, Error>((i, b)),
        form(i) is Conditional,
        clause_groups(x, b, Listing::empty(x.track), n),
        reads(x, b, n, clause, q),
        then_arm(x, q, arm, r),
        else_arm(x, x.step(r), other, w),
        x.at_rparen(x.step(w)),
    ensures
        ({
            let o = joined(
                joined(
                    joined(
                        joined(joined(clause, single(x.track, i, x.here(x.step(p)))), arm),
                        single(x.track, otherwise(), x.here(x.step(x.step(r)))),
                    ),
                    other,
                ),
                single(x.track, end(), x.here(x.step(w))),
            );
            reads(x, p, 1, o, x.step(x.step(w)))
        }),
{
    let (c, v) = (x.step(r), x.step(w));
    let f2 = single(x.track, otherwise(), x.here(x.step(c)));
    let f3 = single(x.track, end(), x.here(v));
    let o1 = joined(joined(clause, single(x.track, i, x.here(x.step(p)))), arm);
    let o2 = joined(joined(o1, f2), other);
    lemma_first_arm(x, p, i, b, n, clause, q, arm, r);
    assert(o1.push(otherwise(), x.here(x.step(c))) =~= joined(o1, f2));
    lemma_group(x, x.step(x.step(c)), joined(o1, f2), other, w);
    assert(o2.push(end(), x.here(v)) =~= joined(o2, f3));
    lemma_reads_group(x, p, joined(o2, f3), x.step(v));
}

/// `(if clause (then arm))` denotes the same as `clause if arm end`.
///
/// The group stands at `p` in `x`: the clause is `n` groups from `b` to `q`, and
/// the arm extends to `r`. The flat text stands at `s` in `y`: the clause is `m`
/// items up to `t`, the `if`, `i2`, extends to `u`, the arm is `k` items up to `e`,
/// and the written `end` extends to `d`. The parts denote the same in both texts.
pub proof fn law_conditional_is_flat<'a>(
    x: Input<'a>,
    p: Cursor,
    i: AllInstructionsAst<'a>,
    b: Cursor,
    n: nat,
    clause: Listing<'a>,
    q: Cursor,
    arm: Listing<'a>,
    r: Cursor,
    y: Input<'a>,
    s: Cursor,
    m: nat,
    flat_clause: Listing<'a>,
    t: Cursor,
    i2: AllInstructionsAst<'a>,
    u: Cursor,
    k: nat,
    flat_arm: Listing<'a>,
    e: Cursor,
    d: Cursor,
)
    requires
        x.at_lparen(p),
        AllInstructions::grammar(x, x.step(p)) == Ok::<_, Error>((i, b)),
        form(i) is Conditional,
        clause_groups(x, b, Listing::empty(x.track), n),
        reads(x, b, n, clause, q),
        then_arm(x, q, arm, r),
        x.at_rparen(x.step(r)),
        reads(y, s, m, flat_clause, t),
        same_code(clause, flat_clause),
        AllInstructions::grammar(y, t) == Ok::<_, Error>((i2, u)),
        instruction(i) == instruction(i2),
        reads(y, u, k, flat_arm, e),
        same_code(arm, flat_arm),
        AllInstructions::grammar(y, e) == Ok::<_, Error>((end(), d)),
    ensures
        ({
            let o = joined(
                joined(joined(clause, single(x.track, i, x.here(x.step(p)))), arm),
                single(x.track, end(), x.here(x.step(r))),
            );
            let f = joined(
                joined(joined(flat_clause, single(y.track, i2, y.here(t))), flat_arm),
                single(y.track, end(), y.here(e)),
            );
            &&& reads(x, p, 1, o, x.step(x.step(r)))
            &&& reads(y, s, m + 1 + k + 1, f, d)
            &&& same_code(o, f)
            &&& o.instrs == clause.instrs + seq![i] + arm.instrs + seq![end::<'a>()]
        }),
        x.at_end(x.step(x.step(r))) && y.at_end(d) ==> same_expressions(x, p, y, s),
{
    let v = x.step(r);
    let (f, g) = (single(x.track, i, x.here(x.step(p))), single(y.track, i2, y.here(t)));
    let (h, l) = (single(x.track, end(), x.here(v)), single(y.track, end(), y.here(e)));
    lemma_same_single(i, i2, x.track, y.track, x.here(x.step(p)), y.here(t));
    lemma_same_single(end(), end(), x.track, y.track, x.here(v), y.here(e));
    let o2 = joined(joined(clause, f), arm);
    let q2 = joined(joined(flat_clause, g), flat_arm);
    lemma_conditional_group(x, p, i, b, n, clause, q, arm, r);
    lemma_reads_one(y, t, i2, u);
    lemma_reads_one(y, e, end(), d);
    law_concatenation_of_items(y, s, m, flat_clause, t, 1, g, u);
    law_concatenation_of_items(y, s, m + 1, joined(flat_clause, g), u, k, flat_arm, e);
    law_concatenation_of_items(y, s, m + 1 + k, q2, e, 1, l, d);
    lemma_same_code_joins(clause, f, flat_clause, g);
    lemma_same_code_joins(joined(clause, f), arm, joined(flat_clause, g), flat_arm);
    lemma_same_code_joins(o2, h, q2, l);
    lemma_same_texts(x, p, 1, joined(o2, h), x.step(v), y, s, m + 1 + k + 1, joined(q2, l), d);
    assert(joined(o2, h).instrs =~= clause.instrs + seq![i] + arm.instrs + seq![end::<'a>()]);
}

/// `(if clause (then arm) (else other))` denotes the same as
/// `clause if arm else other end`.
///
/// The group stands at `p` in `x`: the clause is `n` groups from `b` to `q`, the
/// first arm extends to `r`, and the second one to `w`. The flat text stands at
/// `s` in `y`: the clause is `m` items up to `t`, the `if`, `i2`, extends to `u`,
/// the first arm is `k` items up to `e`, the `else` extends to `g`, the second arm
/// is `j` items up to `z`, and the written `end` extends to `d`. The parts denote the
/// same in both texts.
pub proof fn law_conditional_with_else_is_flat<'a>(
    x: Input<'a>,
    p: Cursor,
    i: AllInstructionsAst<'a>,
    b: Cursor,
    n: nat,
    clause: Listing<'a>,
    q: Cursor,
    arm: Listing<'a>,
    r: Cursor,
    other: Listing<'a>,
    w: Cursor,
    y: Input<'a>,
    s: Cursor,
    m: nat,
    flat_clause: Listing<'a>,
    t: Cursor,
    i2: AllInstructionsAst<'a>,
    u: Cursor,
    k: nat,
    flat_arm: Listing<'a>,
    e: Cursor,
    g: Cursor,
    j: nat,
    flat_other: Listing<'a>,
    z: Cursor,
    d: Cursor,
)
    requires
        x.at_lparen(p),
        AllInstructions::grammar(x, x.step(p)) == Ok::<_, Error>((i, b)),
        form(i) is Conditional,
        clause_groups(x, b, Listing::empty(x.track), n),
        reads(x, b, n, clause, q),
        then_arm(x, q, arm, r),
        else_arm(x, x.step(r), other, w),
        x.at_rparen(x.step(w)),
        reads(y, s, m, flat_clause, t),
        same_code(clause, flat_clause),
        AllInstructions::grammar(y, t) == Ok::<_, Error>((i2, u)),
        instruction(i) == instruction(i2),
        reads(y, u, k, flat_arm, e),
        same_code(arm, flat_arm),
        AllInstructions::grammar(y, e) == Ok::<_, Error>((otherwise(), g)),
        reads(y, g, j, flat_other, z),
        same_code(other, flat_other),
        AllInstructions::grammar(y, z) == Ok::<_, Error>((end(), d)),
    ensures
        ({
            let o = joined(
                joined(
                    joined(
                        joined(joined(clause, single(x.track, i, x.here(x.step(p)))), arm),
                        single(x.track, otherwise(), x.here(x.step(x.step(r)))),
                    ),
                    other,
                ),
                single(x.track, end(), x.here(x.step(w))),
            );
            let f = joined(
                joined(
                    joined(
                        joined(joined(flat_clause, single(y.track, i2, y.here(t))), flat_arm),
                        single(y.track, otherwise(), y.here(e)),
                    ),
                    flat_other,
                ),
                single(y.track, end(), y.here(z)),
            );
            &&& reads(x, p, 1, o, x.step(x.step(w)))
            &&& reads(y, s, m + 1 + k + 1 + j + 1, f, d)
            &&& same_code(o, f)
            &&& o.instrs == clause.instrs + seq![i] + arm.instrs + seq![otherwise::<'a>()]
                + other.instrs + seq![end::<'a>()]
        }),
        x.at_end(x.step(x.step(w))) && y.at_end(d) ==> same_expressions(x, p, y, s),
{
    let (c, v) = (x.step(r), x.step(w));
    let (f1, g1) = (single(x.track, i, x.here(x.step(p))), single(y.track, i2, y.here(t)));
    lemma_same_single(i, i2, x.track, y.track, x.here(x.step(p)), y.here(t));
    lemma_same_single(
        otherwise(),
        otherwise(),
        x.track,
        y.track,
        x.here(x.step(c)),
        y.here(e),
    );
    lemma_same_single(end(), end(), x.track, y.track, x.here(v), y.here(z));
    let (f2, g2) = (
        single(x.track, otherwise(), x.here(x.step(c))),
        single(y.track, otherwise(), y.here(e)),
    );
    let (f3, g3) = (single(x.track, end(), x.here(v)), single(y.track, end(), y.here(z)));
    let o1 = joined(joined(clause, f1), arm);
    let o2 = joined(joined(o1, f2), other);
    let q1 = joined(joined(flat_clause, g1), flat_arm);
    let q2 = joined(joined(q1, g2), flat_other);
    lemma_conditional_with_else_group(x, p, i, b, n, clause, q, arm, r, other, w);
    lemma_reads_one(y, t, i2, u);
    lemma_reads_one(y, e, otherwise(), g);
    lemma_reads_one(y, z, end(), d);
    law_concatenation_of_items(y, s, m, flat_clause, t, 1, g1, u);
    law_concatenation_of_items(y, s, m + 1, joined(flat_clause, g1), u, k, flat_arm, e);
    law_concatenation_of_items(y, s, m + 1 + k, q1, e, 1, g2, g);
    law_concatenation_of_items(y, s, m + 1 + k + 1, joined(q1, g2), g, j, flat_other, z);
    law_concatenation_of_items(y, s, m + 1 + k + 1 + j, q2, z, 1, g3, d);
    lemma_same_code_joins(clause, f1, flat_clause, g1);
    lemma_same_code_joins(joined(clause, f1), arm, joined(flat_clause, g1), flat_arm);
    lemma_same_code_joins(o1, f2, q1, g2);
    lemma_same_code_joins(joined(o1, f2), other, joined(q1, g2), flat_other);
    lemma_same_code_joins(o2, f3, q2, g3);
    lemma_same_texts(
        x,
        p,
        1,
        joined(o2, f3),
        x.step(v),
        y,
        s,
        m + 1 + k + 1 + j + 1,
        joined(q2, g3),
        d,
    );
    assert(joined(o2, f3).instrs =~= clause.instrs + seq![i] + arm.instrs + seq![otherwise::<'a>()]
        + other.instrs + seq![end::<'a>()]);
}

} // verus!
