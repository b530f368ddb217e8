//! Texts that are made of other texts: what the whole denotes follows from what
//! each part denotes as a text of its own.

use vstd::prelude::*;

use crate::folding::{
    joined, lemma_same_code_joins, lemma_same_single, same_code, same_expressions, single,
};
use crate::grammar::{end, form, otherwise, Listing};
use crate::labels::AllInstructionsAst;
use crate::opcode::Opcode;
use crate::parser::{Cursor, Input};
use crate::parts::{
    all_groups, arm_runs, begins_with, border, denotes, is_expression, is_instruction, kinds,
    lemma_block_runs, lemma_border, lemma_conditional_runs, lemma_conditional_with_else_runs,
    lemma_delimiter, lemma_denotes, lemma_front, lemma_instruction_is_expression,
    lemma_instruction_starts, lemma_kind, lemma_part, lemma_place, lemma_place_block,
    lemma_place_instruction, lemma_plain_runs, lemma_runs_join, lemma_runs_nothing,
    lemma_runs_one, lemma_uncaught, lemma_uncaught_text, part, runs, start, starts_with_catch,
    well_cut,
};
use crate::token::TokenKind;

verus! {

/// One text behind another denotes the instructions of the first one and, behind
/// them, those of the second one. The branch hints of the second one move on by the
/// number of instructions of the first one.
///
/// The first text is a number of groups, or any expression if no catch clause
/// stands behind it, which its last instruction might take for its own.
pub proof fn law_text_behind_text<'a>(
    first: Input<'a>,
    s: Listing<'a>,
    second: Input<'a>,
    t: Listing<'a>,
    whole: Input<'a>,
)
    requires
        is_expression(first, s),
        is_expression(second, t),
        all_groups(first) || !starts_with_catch(second),
        first.known == whole.known,
        second.known == whole.known,
        kinds(whole) == kinds(first) + kinds(second),
        well_cut(whole),
    ensures
        denotes(whole, joined(s, t)),
{
    let none = Seq::<TokenKind<'a>>::empty();
    let e = first.toks.len() as int;
    assert(kinds(whole) =~= none + kinds(first) + kinds(second));
    assert(kinds(whole) =~= kinds(first) + kinds(second) + none);
    lemma_part(first, whole, none, kinds(second));
    lemma_part(second, whole, kinds(first), none);
    lemma_border(whole, whole.toks.len() as int);
    lemma_uncaught(whole, whole.toks.len() as int);
    lemma_front(second, whole, e, t);
    if !starts_with_catch(second) {
        lemma_uncaught_text(second, whole, e, t);
    }
    let (q, c) = lemma_place(first, s, whole, start());
    let (r, d) = lemma_place(second, t, whole, c);
    lemma_runs_join(whole, start(), q, c, r, d);
    lemma_same_code_joins(s, t, q, r);
    lemma_denotes(whole, joined(q, r), d, joined(s, t));
}

/// `(op operands)` denotes the instructions of the operands, in the order of the
/// text, and the operator behind them.
pub proof fn law_folded_instruction<'a>(
    op: Input<'a>,
    i: AllInstructionsAst<'a>,
    operands: Input<'a>,
    o: Listing<'a>,
    group: Input<'a>,
)
    requires
        is_instruction(op, i),
        form(i) is Plain,
        is_expression(operands, o),
        op.known == group.known,
        operands.known == group.known,
        kinds(group) == seq![TokenKind::LParen] + kinds(op) + kinds(operands)
            + seq![TokenKind::RParen],
        well_cut(group),
    ensures
        denotes(group, joined(o, single(op.track, i, op.here(start())))),
{
    let (left, right) = (seq![TokenKind::<'a>::LParen], seq![TokenKind::<'a>::RParen]);
    let (y, p) = (group, start());
    let f = single(op.track, i, op.here(start()));
    let k = 1 + op.toks.len() as int;
    let e = k + operands.toks.len() as int;
    lemma_instruction_is_expression(op, i);
    assert(kinds(y) =~= left + kinds(op) + (kinds(operands) + right));
    assert(kinds(y) =~= (left + kinds(op)) + kinds(operands) + right);
    lemma_part(op, y, left, kinds(operands) + right);
    lemma_part(operands, y, left + kinds(op), right);
    lemma_kind(y, 0);
    lemma_kind(y, e);
    lemma_border(y, e);
    lemma_uncaught(y, e);
    lemma_front(operands, y, k, o);
    lemma_front(op, y, 1, f);
    let (j, b) = lemma_place_instruction(op, i, y, y.step(p));
    let (q, c) = lemma_place(operands, o, y, b);
    lemma_plain_runs(y, p, j, b, q, c);
    let g = single(y.track, j, y.here(y.step(p)));
    lemma_same_single(i, j, op.track, y.track, op.here(start()), y.here(y.step(p)));
    lemma_same_code_joins(o, f, q, g);
    lemma_denotes(y, joined(q, g), y.step(c), joined(o, f));
}

/// `operands op` denotes the same as `(op operands)`.
pub proof fn law_flat_instruction<'a>(
    op: Input<'a>,
    i: AllInstructionsAst<'a>,
    operands: Input<'a>,
    o: Listing<'a>,
    flat: Input<'a>,
)
    requires
        is_instruction(op, i),
        is_expression(operands, o),
        op.known == flat.known,
        operands.known == flat.known,
        kinds(flat) == kinds(operands) + kinds(op),
        well_cut(flat),
    ensures
        denotes(flat, joined(o, single(op.track, i, op.here(start())))),
{
    lemma_instruction_is_expression(op, i);
    lemma_instruction_starts(op, i);
    law_text_behind_text(operands, o, op, single(op.track, i, op.here(start())), flat);
}

/// `(block body)` denotes the instruction that opens the block, those of the body,
/// and an `end`. So it is with `loop` and `try_table`.
///
/// The text `block body` starts with the instruction `i`.
pub proof fn law_folded_block<'a>(
    text: Input<'a>,
    i: AllInstructionsAst<'a>,
    o: Listing<'a>,
    group: Input<'a>,
)
    requires
        is_expression(text, o),
        begins_with(text, i),
        form(i) is Block,
        text.known == group.known,
        kinds(group) == seq![TokenKind::LParen] + kinds(text) + seq![TokenKind::RParen],
        well_cut(group),
    ensures
        denotes(group, joined(o, single(text.track, end(), text.end))),
{
    let (left, right) = (seq![TokenKind::<'a>::LParen], seq![TokenKind::<'a>::RParen]);
    let (y, p) = (group, start());
    let k = single(text.track, end(), text.end);
    let c = 1 + text.toks.len() as int;
    lemma_part(text, y, left, right);
    lemma_kind(y, 0);
    lemma_kind(y, c);
    lemma_border(y, c);
    lemma_uncaught(y, c);
    lemma_front(text, y, 1, o);
    let (j, b, q, d) = lemma_place_block(text, i, o, y, y.step(p));
    lemma_block_runs(y, p, j, b, q, d);
    let u = joined(single(y.track, j, y.here(y.step(p))), q);
    let v = single(y.track, end(), y.here(d));
    lemma_same_single(end(), end(), text.track, y.track, text.end, y.here(d));
    lemma_same_code_joins(o, k, u, v);
    lemma_denotes(y, joined(u, v), y.step(d), joined(o, k));
}

/// `block body end` denotes the same as `(block body)`.
pub proof fn law_flat_block<'a>(
    text: Input<'a>,
    i: AllInstructionsAst<'a>,
    o: Listing<'a>,
    flat: Input<'a>,
)
    requires
        is_expression(text, o),
        begins_with(text, i),
        form(i) is Block,
        text.known == flat.known,
        kinds(flat) == kinds(text) + seq![TokenKind::Keyword("end")],
        well_cut(flat),
    ensures
        denotes(flat, joined(o, single(text.track, end(), text.end))),
{
    let none = Seq::<TokenKind<'a>>::empty();
    let word = seq![TokenKind::<'a>::Keyword("end")];
    let (z, s) = (flat, start());
    let e = text.toks.len() as int;
    assert(kinds(z) =~= none + kinds(text) + word);
    lemma_part(text, z, none, word);
    lemma_kind(z, e);
    lemma_border(z, e + 1);
    let _ = lemma_delimiter(z, Cursor { pos: e, prev: s.prev }, Opcode::End, "end");
    let (q, c) = lemma_place(text, o, z, s);
    lemma_flat_end(z, o, q, c, text);
}

/// `(then` is a border, and so is `(else`.
proof fn lemma_arm_border<'a>(y: Input<'a>, e: int, word: &'a str)
    requires
        0 <= e && e + 1 < y.toks.len(),
        y.toks[e].kind is LParen,
        y.toks[e + 1].kind == TokenKind::Keyword(word),
        word@ == "then"@ || word@ == "else"@,
    ensures
        border(y, e),
{
    reveal_strlit("then");
    reveal_strlit("else");
    reveal_strlit("type");
    reveal_strlit("param");
    reveal_strlit("result");
    assert(word@[1] != "type"@[1]);
    lemma_border(y, e);
}

/// What a conditional denotes: its clause, the `if`, the arm and an `end`.
pub open spec fn conditional<'a>(
    head: Input<'a>,
    i: AllInstructionsAst<'a>,
    clause: Listing<'a>,
    arm: Listing<'a>,
) -> Listing<'a> {
    joined(
        joined(joined(clause, single(head.track, i, head.here(start()))), arm),
        single(head.track, end(), head.end),
    )
}

/// `(if clause (then arm))` denotes the instructions of the clause, the `if`, the
/// instructions of the arm, and an `end`.
pub proof fn law_folded_conditional<'a>(
    head: Input<'a>,
    i: AllInstructionsAst<'a>,
    clause: Input<'a>,
    c: Listing<'a>,
    arm: Input<'a>,
    a: Listing<'a>,
    group: Input<'a>,
)
    requires
        is_instruction(head, i),
        form(i) is Conditional,
        is_expression(clause, c),
        all_groups(clause),
        is_expression(arm, a),
        head.known == group.known,
        clause.known == group.known,
        arm.known == group.known,
        kinds(group) == seq![TokenKind::LParen] + kinds(head) + kinds(clause) + seq![
            TokenKind::LParen,
            TokenKind::Keyword("then"),
        ] + kinds(arm) + seq![TokenKind::RParen, TokenKind::RParen],
        well_cut(group),
    ensures
        denotes(group, conditional(head, i, c, a)),
{
    let left = seq![TokenKind::<'a>::LParen];
    let open = seq![TokenKind::<'a>::LParen, TokenKind::Keyword("then")];
    let close = seq![TokenKind::<'a>::RParen, TokenKind::RParen];
    let (y, p) = (group, start());
    let f = single(head.track, i, head.here(start()));
    let k2 = 1 + head.toks.len() as int;
    let k3 = k2 + clause.toks.len() as int;
    let k4 = k3 + 2;
    let k5 = k4 + arm.toks.len() as int;
    lemma_instruction_is_expression(head, i);
    let (x1, x2, x3) = (kinds(head), kinds(clause), kinds(arm));
    assert(kinds(y) =~= left + x1 + (x2 + open + x3 + close));
    assert(kinds(y) =~= (left + x1) + x2 + (open + x3 + close));
    assert(kinds(y) =~= (left + x1 + x2 + open) + x3 + close);
    lemma_part(head, y, left, x2 + open + x3 + close);
    lemma_part(clause, y, left + x1, open + x3 + close);
    lemma_part(arm, y, left + x1 + x2 + open, close);
    lemma_kind(y, 0);
    lemma_kind(y, k3);
    lemma_kind(y, k3 + 1);
    lemma_kind(y, k5);
    lemma_kind(y, k5 + 1);
    lemma_border(y, k5 + 1);
    lemma_border(y, k5);
    lemma_uncaught(y, k5);
    lemma_front(arm, y, k4, a);
    lemma_arm_border(y, k3, "then");
    lemma_front(clause, y, k2, c);
    lemma_front(head, y, 1, f);
    let (j, b) = lemma_place_instruction(head, i, y, y.step(p));
    let (qc, q) = lemma_place(clause, c, y, b);
    let d = y.step(y.step(q));
    assert(y.step(q).pos == k3 + 1);
    assert(d.pos == k4);
    let (qa, r) = lemma_place(arm, a, y, d);
    assert(arm_runs(y, q, "then"@, qa, r));
    assert(y.step(r).pos == k5 + 1);
    assert(y.step(y.step(r)).pos == k5 + 2);
    lemma_conditional_runs(y, p, j, b, qc, q, qa, r);
    let g = single(y.track, j, y.here(y.step(p)));
    let (h, l) = (
        single(head.track, end(), head.end),
        single(y.track, end(), y.here(y.step(r))),
    );
    lemma_same_single(i, j, head.track, y.track, head.here(start()), y.here(y.step(p)));
    lemma_same_single(end(), end(), head.track, y.track, head.end, y.here(y.step(r)));
    lemma_same_code_joins(c, f, qc, g);
    lemma_same_code_joins(joined(c, f), a, joined(qc, g), qa);
    lemma_same_code_joins(joined(joined(c, f), a), h, joined(joined(qc, g), qa), l);
    lemma_denotes(
        y,
        joined(joined(joined(qc, g), qa), l),
        y.step(y.step(r)),
        conditional(head, i, c, a),
    );
}

/// `clause if arm end` denotes the same as `(if clause (then arm))`.
pub proof fn law_flat_conditional<'a>(
    head: Input<'a>,
    i: AllInstructionsAst<'a>,
    clause: Input<'a>,
    c: Listing<'a>,
    arm: Input<'a>,
    a: Listing<'a>,
    flat: Input<'a>,
)
    requires
        is_instruction(head, i),
        form(i) is Conditional,
        is_expression(clause, c),
        is_expression(arm, a),
        head.known == flat.known,
        clause.known == flat.known,
        arm.known == flat.known,
        kinds(flat) == kinds(clause) + kinds(head) + kinds(arm) + seq![TokenKind::Keyword("end")],
        well_cut(flat),
    ensures
        denotes(flat, conditional(head, i, c, a)),
{
    let none = Seq::<TokenKind<'a>>::empty();
    let word = seq![TokenKind::<'a>::Keyword("end")];
    let (z, s) = (flat, start());
    let k1 = clause.toks.len() as int;
    let k2 = k1 + head.toks.len() as int;
    let k3 = k2 + arm.toks.len() as int;
    let (x1, x2, x3) = (kinds(head), kinds(clause), kinds(arm));
    assert(kinds(z) =~= none + x2 + (x1 + x3 + word));
    assert(kinds(z) =~= x2 + x1 + (x3 + word));
    assert(kinds(z) =~= (x2 + x1) + x3 + word);
    lemma_part(clause, z, none, x1 + x3 + word);
    lemma_part(head, z, x2, x3 + word);
    lemma_part(arm, z, x2 + x1, word);
    lemma_kind(z, k3);
    lemma_border(z, k3 + 1);
    let _ = lemma_delimiter(z, Cursor { pos: k3, prev: s.prev }, Opcode::End, "end");
    lemma_front(arm, z, k2, a);
    let (q, e) = lemma_place_flat_if(head, i, clause, c, z);
    let (qa, d) = lemma_place(arm, a, z, e);
    lemma_runs_join(z, s, q, e, qa, d);
    let f = single(head.track, i, head.here(s));
    lemma_same_code_joins(joined(c, f), a, q, qa);
    lemma_flat_end(z, joined(joined(c, f), a), joined(q, qa), d, head);
}

/// `clause if`, where a flat conditional starts.
proof fn lemma_place_flat_if<'a>(
    head: Input<'a>,
    i: AllInstructionsAst<'a>,
    clause: Input<'a>,
    c: Listing<'a>,
    z: Input<'a>,
) -> (r: (Listing<'a>, Cursor))
    requires
        is_instruction(head, i),
        form(i) is Conditional,
        is_expression(clause, c),
        part(clause, z, 0),
        part(head, z, clause.toks.len() as int),
        border(z, (clause.toks.len() + head.toks.len()) as int),
    ensures
        runs(z, start(), r.0, r.1),
        r.1.pos == clause.toks.len() + head.toks.len(),
        same_code(joined(c, single(head.track, i, head.here(start()))), r.0),
{
    let (s, k) = (start(), clause.toks.len() as int);
    let f = single(head.track, i, head.here(s));
    lemma_instruction_is_expression(head, i);
    lemma_front(head, z, k, f);
    lemma_instruction_starts(head, i);
    assert(head.toks[0].kind == z.toks[k + 0].kind);
    lemma_uncaught(z, k);
    let (qc, t) = lemma_place(clause, c, z, s);
    let (j, u) = lemma_place_instruction(head, i, z, t);
    lemma_runs_one(z, t, j, u);
    let g = single(z.track, j, z.here(t));
    lemma_runs_join(z, s, qc, t, g, u);
    lemma_same_single(i, j, head.track, z.track, head.here(s), z.here(t));
    lemma_same_code_joins(c, f, qc, g);
    (joined(qc, g), u)
}

/// The `end` that a flat text is closed with.
proof fn lemma_flat_end<'a>(
    z: Input<'a>,
    o: Listing<'a>,
    q: Listing<'a>,
    c: Cursor,
    head: Input<'a>,
)
    requires
        runs(z, start(), q, c),
        same_code(o, q),
        0 <= c.pos && c.pos + 1 == z.toks.len(),
        z.toks[c.pos].kind == TokenKind::Keyword("end"),
        well_cut(z),
    ensures
        denotes(z, joined(o, single(head.track, end(), head.end))),
{
    lemma_border(z, c.pos + 1);
    let d = lemma_delimiter(z, c, Opcode::End, "end");
    lemma_runs_one(z, c, end(), d);
    let (h, v) = (single(head.track, end(), head.end), single(z.track, end(), z.here(c)));
    lemma_runs_join(z, start(), q, c, v, d);
    lemma_same_single(end(), end(), head.track, z.track, head.end, z.here(c));
    lemma_same_code_joins(o, h, q, v);
    lemma_denotes(z, joined(q, v), d, joined(o, h));
}

/// What a conditional with two arms denotes: its clause, the `if`, the first arm, an
/// `else`, the second arm and an `end`.
pub open spec fn conditional_with_else<'a>(
    head: Input<'a>,
    i: AllInstructionsAst<'a>,
    clause: Listing<'a>,
    arm: Listing<'a>,
    other: Listing<'a>,
) -> Listing<'a> {
    let first = joined(joined(clause, single(head.track, i, head.here(start()))), arm);
    joined(
        joined(joined(first, single(head.track, otherwise(), head.end)), other),
        single(head.track, end(), head.end),
    )
}

/// The tokens of `(if clause (then arm) (else other))`.
pub open spec fn two_arms<'a>(
    head: Input<'a>,
    clause: Input<'a>,
    arm: Input<'a>,
    other: Input<'a>,
) -> Seq<TokenKind<'a>> {
    seq![TokenKind::LParen] + kinds(head) + kinds(clause) + seq![
        TokenKind::LParen,
        TokenKind::Keyword("then"),
    ] + kinds(arm) + seq![TokenKind::RParen, TokenKind::LParen, TokenKind::Keyword("else")]
        + kinds(other) + seq![TokenKind::RParen, TokenKind::RParen]
}

proof fn lemma_two_arms<'a>(
    head: Input<'a>,
    clause: Input<'a>,
    arm: Input<'a>,
    other: Input<'a>,
    y: Input<'a>,
)
    requires
        head.known == y.known,
        clause.known == y.known,
        arm.known == y.known,
        other.known == y.known,
        kinds(y) == two_arms(head, clause, arm, other),
    ensures
        ({
            let k2 = 1 + head.toks.len() as int;
            let k3 = k2 + clause.toks.len() as int;
            let k5 = k3 + 2 + arm.toks.len() as int;
            let k7 = k5 + 3 + other.toks.len() as int;
            &&& part(head, y, 1)
            &&& part(clause, y, k2)
            &&& part(arm, y, k3 + 2)
            &&& part(other, y, k5 + 3)
            &&& y.toks.len() == k7 + 2
            &&& y.toks[0].kind is LParen
            &&& y.toks[k3].kind is LParen
            &&& y.toks[k3 + 1].kind == TokenKind::Keyword("then")
            &&& y.toks[k5].kind is RParen
            &&& y.toks[k5 + 1].kind is LParen
            &&& y.toks[k5 + 2].kind == TokenKind::Keyword("else")
            &&& y.toks[k7].kind is RParen
            &&& y.toks[k7 + 1].kind is RParen
        }),
{
    let left = seq![TokenKind::<'a>::LParen];
    let open = seq![TokenKind::<'a>::LParen, TokenKind::Keyword("then")];
    let between = seq![TokenKind::<'a>::RParen, TokenKind::LParen, TokenKind::Keyword("else")];
    let close = seq![TokenKind::<'a>::RParen, TokenKind::RParen];
    let k2 = 1 + head.toks.len() as int;
    let k3 = k2 + clause.toks.len() as int;
    let k5 = k3 + 2 + arm.toks.len() as int;
    let k7 = k5 + 3 + other.toks.len() as int;
    let (x1, x2, x3, x4) = (kinds(head), kinds(clause), kinds(arm), kinds(other));
    assert(kinds(y) =~= left + x1 + (x2 + open + x3 + between + x4 + close));
    assert(kinds(y) =~= (left + x1) + x2 + (open + x3 + between + x4 + close));
    assert(kinds(y) =~= (left + x1 + x2 + open) + x3 + (between + x4 + close));
    assert(kinds(y) =~= (left + x1 + x2 + open + x3 + between) + x4 + close);
    lemma_part(head, y, left, x2 + open + x3 + between + x4 + close);
    lemma_part(clause, y, left + x1, open + x3 + between + x4 + close);
    lemma_part(arm, y, left + x1 + x2 + open, between + x4 + close);
    lemma_part(other, y, left + x1 + x2 + open + x3 + between, close);
    lemma_kind(y, 0);
    lemma_kind(y, k3);
    lemma_kind(y, k3 + 1);
    lemma_kind(y, k5);
    lemma_kind(y, k5 + 1);
    lemma_kind(y, k5 + 2);
    lemma_kind(y, k7);
    lemma_kind(y, k7 + 1);
}

/// `(if clause (then arm) (else other))` denotes the instructions of the clause, the
/// `if`, the instructions of the first arm, an `else`, those of the second arm, and
/// an `end`.
pub proof fn law_folded_conditional_with_else<'a>(
    head: Input<'a>,
    i: AllInstructionsAst<'a>,
    clause: Input<'a>,
    c: Listing<'a>,
    arm: Input<'a>,
    a: Listing<'a>,
    other: Input<'a>,
    o: Listing<'a>,
    group: Input<'a>,
)
    requires
        is_instruction(head, i),
        form(i) is Conditional,
        is_expression(clause, c),
        all_groups(clause),
        is_expression(arm, a),
        is_expression(other, o),
        head.known == group.known,
        clause.known == group.known,
        arm.known == group.known,
        other.known == group.known,
        kinds(group) == two_arms(head, clause, arm, other),
        well_cut(group),
    ensures
        denotes(group, conditional_with_else(head, i, c, a, o)),
{
    let (y, p) = (group, start());
    let f = single(head.track, i, head.here(start()));
    let k2 = 1 + head.toks.len() as int;
    let k3 = k2 + clause.toks.len() as int;
    let k4 = k3 + 2;
    let k5 = k4 + arm.toks.len() as int;
    let k6 = k5 + 3;
    let k7 = k6 + other.toks.len() as int;
    lemma_instruction_is_expression(head, i);
    lemma_two_arms(head, clause, arm, other, y);
    lemma_border(y, k7 + 1);
    lemma_border(y, k7);
    lemma_uncaught(y, k7);
    lemma_front(other, y, k6, o);
    lemma_arm_border(y, k5 + 1, "else");
    lemma_border(y, k5);
    lemma_uncaught(y, k5);
    lemma_front(arm, y, k4, a);
    lemma_arm_border(y, k3, "then");
    lemma_front(clause, y, k2, c);
    lemma_front(head, y, 1, f);
    let (j, b) = lemma_place_instruction(head, i, y, y.step(p));
    let (qc, q) = lemma_place(clause, c, y, b);
    assert(y.step(q).pos == k3 + 1);
    assert(y.step(y.step(q)).pos == k4);
    let (qa, r) = lemma_place(arm, a, y, y.step(y.step(q)));
    assert(arm_runs(y, q, "then"@, qa, r));
    let v = y.step(r);
    assert(v.pos == k5 + 1);
    assert(y.step(v).pos == k5 + 2);
    assert(y.step(y.step(v)).pos == k6);
    let (qo, w) = lemma_place(other, o, y, y.step(y.step(v)));
    assert(arm_runs(y, v, "else"@, qo, w));
    assert(y.step(w).pos == k7 + 1);
    assert(y.step(y.step(w)).pos == k7 + 2);
    lemma_conditional_with_else_runs(y, p, j, b, qc, q, qa, r, qo, w);
    let g = single(y.track, j, y.here(y.step(p)));
    let (h, l) = (
        single(head.track, otherwise(), head.end),
        single(y.track, otherwise(), y.here(y.step(v))),
    );
    let (h2, l2) = (
        single(head.track, end(), head.end),
        single(y.track, end(), y.here(y.step(w))),
    );
    lemma_same_single(i, j, head.track, y.track, head.here(start()), y.here(y.step(p)));
    lemma_same_single(otherwise(), otherwise(), head.track, y.track, head.end, y.here(y.step(v)));
    lemma_same_single(end(), end(), head.track, y.track, head.end, y.here(y.step(w)));
    let (c1, q1) = (joined(joined(c, f), a), joined(joined(qc, g), qa));
    let (c2, q2) = (joined(joined(c1, h), o), joined(joined(q1, l), qo));
    lemma_same_code_joins(c, f, qc, g);
    lemma_same_code_joins(joined(c, f), a, joined(qc, g), qa);
    lemma_same_code_joins(c1, h, q1, l);
    lemma_same_code_joins(joined(c1, h), o, joined(q1, l), qo);
    lemma_same_code_joins(c2, h2, q2, l2);
    lemma_denotes(
        y,
        joined(q2, l2),
        y.step(y.step(w)),
        conditional_with_else(head, i, c, a, o),
    );
}

/// `clause if arm else other end` denotes the same as
/// `(if clause (then arm) (else other))`.
pub proof fn law_flat_conditional_with_else<'a>(
    head: Input<'a>,
    i: AllInstructionsAst<'a>,
    clause: Input<'a>,
    c: Listing<'a>,
    arm: Input<'a>,
    a: Listing<'a>,
    other: Input<'a>,
    o: Listing<'a>,
    flat: Input<'a>,
)
    requires
        is_instruction(head, i),
        form(i) is Conditional,
        is_expression(clause, c),
        is_expression(arm, a),
        is_expression(other, o),
        head.known == flat.known,
        clause.known == flat.known,
        arm.known == flat.known,
        other.known == flat.known,
        kinds(flat) == kinds(clause) + kinds(head) + kinds(arm) + seq![TokenKind::Keyword("else")]
            + kinds(other) + seq![TokenKind::Keyword("end")],
        well_cut(flat),
    ensures
        denotes(flat, conditional_with_else(head, i, c, a, o)),
{
    let none = Seq::<TokenKind<'a>>::empty();
    let between = seq![TokenKind::<'a>::Keyword("else")];
    let word = seq![TokenKind::<'a>::Keyword("end")];
    let (z, s) = (flat, start());
    let k1 = clause.toks.len() as int;
    let k2 = k1 + head.toks.len() as int;
    let k3 = k2 + arm.toks.len() as int;
    let k4 = k3 + 1 + other.toks.len() as int;
    let (x1, x2, x3, x4) = (kinds(head), kinds(clause), kinds(arm), kinds(other));
    assert(kinds(z) =~= none + x2 + (x1 + x3 + between + x4 + word));
    assert(kinds(z) =~= x2 + x1 + (x3 + between + x4 + word));
    assert(kinds(z) =~= (x2 + x1) + x3 + (between + x4 + word));
    assert(kinds(z) =~= (x2 + x1 + x3 + between) + x4 + word);
    lemma_part(clause, z, none, x1 + x3 + between + x4 + word);
    lemma_part(head, z, x2, x3 + between + x4 + word);
    lemma_part(arm, z, x2 + x1, between + x4 + word);
    lemma_part(other, z, x2 + x1 + x3 + between, word);
    lemma_kind(z, k3);
    lemma_kind(z, k4);
    lemma_border(z, k4 + 1);
    let _ = lemma_delimiter(z, Cursor { pos: k4, prev: s.prev }, Opcode::End, "end");
    lemma_front(other, z, k3 + 1, o);
    let _ = lemma_delimiter(z, Cursor { pos: k3, prev: s.prev }, Opcode::Else, "else");
    lemma_front(arm, z, k2, a);
    let (q, e) = lemma_place_flat_if(head, i, clause, c, z);
    let (qa, d) = lemma_place(arm, a, z, e);
    lemma_runs_join(z, s, q, e, qa, d);
    let g = lemma_delimiter(z, d, Opcode::Else, "else");
    lemma_runs_one(z, d, otherwise(), g);
    let (h, l) = (
        single(head.track, otherwise(), head.end),
        single(z.track, otherwise(), z.here(d)),
    );
    lemma_runs_join(z, s, joined(q, qa), d, l, g);
    let (qo, t) = lemma_place(other, o, z, g);
    lemma_runs_join(z, s, joined(joined(q, qa), l), g, qo, t);
    let f = single(head.track, i, head.here(s));
    let c1 = joined(joined(c, f), a);
    lemma_same_single(otherwise(), otherwise(), head.track, z.track, head.end, z.here(d));
    lemma_same_code_joins(joined(c, f), a, q, qa);
    lemma_same_code_joins(c1, h, joined(q, qa), l);
    lemma_same_code_joins(joined(c1, h), o, joined(joined(q, qa), l), qo);
    lemma_flat_end(
        z,
        joined(joined(c1, h), o),
        joined(joined(joined(q, qa), l), qo),
        t,
        head,
    );
}

/// The tokens of texts in a row.
pub open spec fn row<'a>(texts: Seq<Input<'a>>) -> Seq<TokenKind<'a>>
    decreases texts.len(),
{
    if texts.len() == 0 {
        Seq::empty()
    } else {
        row(texts.drop_last()) + kinds(texts.last())
    }
}

/// Listings in a row.
pub open spec fn joined_row<'a>(codes: Seq<Listing<'a>>) -> Listing<'a>
    decreases codes.len(),
{
    if codes.len() == 0 {
        Listing::empty(false)
    } else {
        joined(joined_row(codes.drop_last()), codes.last())
    }
}

/// Each text is a number of groups, which denote what the listing at its place says.
pub open spec fn row_of_groups<'a>(
    texts: Seq<Input<'a>>,
    codes: Seq<Listing<'a>>,
    known: Seq<Seq<char>>,
) -> bool {
    &&& texts.len() == codes.len()
    &&& forall|k: int|
        0 <= k < texts.len() ==> {
            &&& is_expression(#[trigger] texts[k], codes[k])
            &&& all_groups(texts[k])
            &&& texts[k].known == known
        }
}

/// The front of a row is a border where its end is one.
proof fn lemma_row_front<'a>(
    texts: Seq<Input<'a>>,
    codes: Seq<Listing<'a>>,
    y: Input<'a>,
    front: Seq<TokenKind<'a>>,
    back: Seq<TokenKind<'a>>,
)
    requires
        row_of_groups(texts, codes, y.known),
        kinds(y) == front + row(texts) + back,
        border(y, (front.len() + row(texts).len()) as int),
    ensures
        border(y, front.len() as int),
    decreases texts.len(),
{
    if texts.len() > 0 {
        let (init, last) = (texts.drop_last(), texts.last());
        assert(last == texts[texts.len() - 1]);
        assert(kinds(y) =~= (front + row(init)) + kinds(last) + back);
        assert(kinds(y) =~= front + row(init) + (kinds(last) + back));
        lemma_part(last, y, front + row(init), back);
        lemma_front(last, y, (front + row(init)).len() as int, codes.last());
        assert forall|k: int| 0 <= k < init.len() implies is_expression(
            #[trigger] init[k],
            codes.drop_last()[k],
        ) && all_groups(init[k]) && init[k].known == y.known by {
            assert(init[k] == texts[k]);
        }
        lemma_row_front(init, codes.drop_last(), y, front, kinds(last) + back);
    }
}

/// A row denotes the same as a part of a text.
proof fn lemma_place_row<'a>(
    texts: Seq<Input<'a>>,
    codes: Seq<Listing<'a>>,
    y: Input<'a>,
    front: Seq<TokenKind<'a>>,
    back: Seq<TokenKind<'a>>,
    b: Cursor,
) -> (r: (Listing<'a>, Cursor))
    requires
        row_of_groups(texts, codes, y.known),
        kinds(y) == front + row(texts) + back,
        border(y, (front.len() + row(texts).len()) as int),
        b.pos == front.len(),
    ensures
        runs(y, b, r.0, r.1),
        same_code(joined_row(codes), r.0),
        r.1.pos == front.len() + row(texts).len(),
    decreases texts.len(),
{
    if texts.len() == 0 {
        lemma_runs_nothing(y, b);
        (Listing::empty(y.track), b)
    } else {
        let (init, last) = (texts.drop_last(), texts.last());
        let pre = codes.drop_last();
        assert(last == texts[texts.len() - 1]);
        assert(kinds(y) =~= (front + row(init)) + kinds(last) + back);
        assert(kinds(y) =~= front + row(init) + (kinds(last) + back));
        lemma_part(last, y, front + row(init), back);
        lemma_front(last, y, (front + row(init)).len() as int, codes.last());
        assert forall|k: int| 0 <= k < init.len() implies is_expression(
            #[trigger] init[k],
            pre[k],
        ) && all_groups(init[k]) && init[k].known == y.known by {
            assert(init[k] == texts[k]);
        }
        let (q, c) = lemma_place_row(init, pre, y, front, kinds(last) + back, b);
        let (r, d) = lemma_place(last, codes.last(), y, c);
        lemma_runs_join(y, b, q, c, r, d);
        lemma_same_code_joins(joined_row(pre), codes.last(), q, r);
        (joined(q, r), d)
    }
}

/// Groups in a row denote what each of them denotes, in the order of the text.
pub proof fn law_groups_in_a_row<'a>(
    texts: Seq<Input<'a>>,
    codes: Seq<Listing<'a>>,
    whole: Input<'a>,
)
    requires
        row_of_groups(texts, codes, whole.known),
        kinds(whole) == row(texts),
        well_cut(whole),
    ensures
        denotes(whole, joined_row(codes)),
{
    let none = Seq::<TokenKind<'a>>::empty();
    assert(kinds(whole) =~= none + row(texts) + none);
    assert(kinds(whole).len() == whole.toks.len());
    lemma_border(whole, whole.toks.len() as int);
    let (q, c) = lemma_place_row(texts, codes, whole, none, none, start());
    lemma_denotes(whole, q, c, joined_row(codes));
}

/// `(op first .. last)`, where the operands are groups, denotes what each operand
/// denotes, in the order of the text, and the operator behind them.
pub proof fn law_folded_groups<'a>(
    op: Input<'a>,
    i: AllInstructionsAst<'a>,
    texts: Seq<Input<'a>>,
    codes: Seq<Listing<'a>>,
    group: Input<'a>,
)
    requires
        is_instruction(op, i),
        form(i) is Plain,
        row_of_groups(texts, codes, group.known),
        op.known == group.known,
        kinds(group) == seq![TokenKind::LParen] + kinds(op) + row(texts) + seq![TokenKind::RParen],
        well_cut(group),
    ensures
        denotes(group, joined(joined_row(codes), single(op.track, i, op.here(start())))),
{
    let (left, right) = (seq![TokenKind::<'a>::LParen], seq![TokenKind::<'a>::RParen]);
    let (y, p) = (group, start());
    let f = single(op.track, i, op.here(start()));
    let e = 1 + op.toks.len() as int + row(texts).len() as int;
    lemma_instruction_is_expression(op, i);
    assert(kinds(y) =~= left + kinds(op) + (row(texts) + right));
    assert(kinds(y) =~= (left + kinds(op)) + row(texts) + right);
    lemma_part(op, y, left, row(texts) + right);
    lemma_kind(y, 0);
    lemma_kind(y, e);
    lemma_border(y, e);
    lemma_row_front(texts, codes, y, left + kinds(op), right);
    lemma_front(op, y, 1, f);
    let (j, b) = lemma_place_instruction(op, i, y, y.step(p));
    let (q, c) = lemma_place_row(texts, codes, y, left + kinds(op), right, b);
    lemma_plain_runs(y, p, j, b, q, c);
    let g = single(y.track, j, y.here(y.step(p)));
    lemma_same_single(i, j, op.track, y.track, op.here(start()), y.here(y.step(p)));
    lemma_same_code_joins(joined_row(codes), f, q, g);
    lemma_denotes(y, joined(q, g), y.step(c), joined(joined_row(codes), f));
}

/// `first .. last op` denotes the same as `(op first .. last)`.
pub proof fn law_flat_groups<'a>(
    op: Input<'a>,
    i: AllInstructionsAst<'a>,
    texts: Seq<Input<'a>>,
    codes: Seq<Listing<'a>>,
    flat: Input<'a>,
)
    requires
        is_instruction(op, i),
        form(i) is Plain,
        row_of_groups(texts, codes, flat.known),
        op.known == flat.known,
        kinds(flat) == row(texts) + kinds(op),
        well_cut(flat),
    ensures
        denotes(flat, joined(joined_row(codes), single(op.track, i, op.here(start())))),
{
    let none = Seq::<TokenKind<'a>>::empty();
    let (z, s) = (flat, start());
    let f = single(op.track, i, op.here(s));
    lemma_instruction_is_expression(op, i);
    assert(kinds(z) =~= row(texts) + kinds(op) + none);
    assert(kinds(z) =~= none + row(texts) + kinds(op));
    lemma_part(op, z, row(texts), none);
    lemma_border(z, z.toks.len() as int);
    lemma_front(op, z, row(texts).len() as int, f);
    let (q, c) = lemma_place_row(texts, codes, z, none, kinds(op), s);
    let (j, d) = lemma_place_instruction(op, i, z, c);
    lemma_runs_one(z, c, j, d);
    let g = single(z.track, j, z.here(c));
    lemma_runs_join(z, s, q, c, g, d);
    lemma_same_single(i, j, op.track, z.track, op.here(s), z.here(c));
    lemma_same_code_joins(joined_row(codes), f, q, g);
    lemma_denotes(z, joined(q, g), d, joined(joined_row(codes), f));
}

/// Texts that denote the same code are expressions with the same instructions and
/// branch hints.
pub proof fn law_same_denotation<'a>(x: Input<'a>, y: Input<'a>, code: Listing<'a>)
    requires
        denotes(x, code),
        denotes(y, code),
    ensures
        same_expressions(x, start(), y, start()),
{
    reveal(is_expression);
}

} // verus!
