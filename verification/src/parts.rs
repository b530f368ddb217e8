//! Texts as parts of other texts.

use vstd::prelude::*;

use crate::boundaries::{lemma_instruction_head, lemma_item_head, lemma_items_stand_apart};
use crate::control::at_catch;
use crate::expr::Expression;
use crate::folding::{
    clause_groups, else_arm, joined, law_concatenation, law_concatenation_of_items, law_whole_text,
    lemma_block_group, lemma_conditional_group, lemma_conditional_with_else_group,
    lemma_items_split, lemma_plain_group, lemma_reads_one, lemma_same_code_joins,
    lemma_same_single, reads, same_code, sequence, single, then_arm,
};
use crate::grammar::{end, form, item, items, lemma_item_advances, otherwise, Listing};
use crate::instruction::{operand_grammar, Operand};
use crate::labels::{lemma_any_instruction_advances, AllInstructions, AllInstructionsAst};
use crate::opcode::Opcode;
use crate::parser::{
    annotation_at, annotations_closed, group_end, lemma_group_end_bounds, Cursor, Input, Parse,
};
use crate::placement::{
    apart, idle, lemma_instruction_moves, lemma_set_in_known, lemma_skip_known, lemma_skip_moves,
    set_in, still, uncaught,
};
use crate::texts::{grouped, lemma_items_open, lemma_sequence_moves};
use crate::token::{Error, Id, Span, TokenKind};
use crate::unplaced::{instruction, instructions};

verus! {

/// Where a text starts.
pub open spec fn start() -> Cursor {
    Cursor { pos: 0, prev: Span { offset: 0 } }
}

/// A text that neither ends inside of an annotation nor starts with one that
/// nobody has registered.
pub open spec fn well_cut<'a>(x: Input<'a>) -> bool {
    &&& annotations_closed(x.toks)
    &&& x.skip(0) == 0
    &&& x.toks.len() > 0 ==> !(x.toks.last().kind is LParen)
}

/// The whole text is an expression, which denotes `o`.
#[verifier::opaque]
pub open spec fn is_expression<'a>(x: Input<'a>, o: Listing<'a>) -> bool {
    &&& well_cut(x)
    &&& Expression::grammar(x, start()) matches Ok((e, to)) && e == o && to.pos == x.toks.len()
}

/// The whole text is an expression that denotes the same code as `code`.
pub open spec fn denotes<'a>(x: Input<'a>, code: Listing<'a>) -> bool {
    exists|o: Listing<'a>| #[trigger] is_expression(x, o) && same_code(o, code)
}

/// The whole text is the instruction `i`, written flat.
#[verifier::opaque]
pub open spec fn is_instruction<'a>(x: Input<'a>, i: AllInstructionsAst<'a>) -> bool {
    &&& well_cut(x)
    &&& AllInstructions::grammar(x, start()) matches Ok((j, to)) && j == i && to.pos
        == x.toks.len()
}

/// The text starts with the instruction `i`, written flat.
#[verifier::opaque]
pub open spec fn begins_with<'a>(x: Input<'a>, i: AllInstructionsAst<'a>) -> bool {
    AllInstructions::grammar(x, start()) matches Ok((j, _)) && j == i
}

/// The text starts with a catch clause.
pub open spec fn starts_with_catch<'a>(x: Input<'a>) -> bool {
    at_catch(x.with_annotation("label"@), start())
}

/// The whole text is a number of groups.
#[verifier::opaque]
pub open spec fn all_groups<'a>(x: Input<'a>) -> bool {
    exists|n: nat| #[trigger] groups(x, n)
}

/// The whole text is `n` groups.
pub open spec fn groups<'a>(x: Input<'a>, n: nat) -> bool {
    let none = Listing::empty(x.track);
    &&& grouped(x, start(), none, n)
    &&& sequence(x, start(), none, n) matches Ok((_, to)) && to.pos == x.toks.len()
}

/// The tokens of a text, without their positions.
pub open spec fn kinds<'a>(x: Input<'a>) -> Seq<TokenKind<'a>> {
    Seq::new(x.toks.len(), |i: int| x.toks[i].kind)
}

/// The tokens of `x` are those of `y` from the token `p` on.
pub open spec fn part<'a>(x: Input<'a>, y: Input<'a>, p: int) -> bool {
    &&& x.known == y.known
    &&& 0 <= p && p + x.toks.len() <= y.toks.len()
    &&& forall|i: int| 0 <= i < x.toks.len() ==> #[trigger] x.toks[i].kind == y.toks[p + i].kind
}

pub proof fn lemma_part<'a>(
    x: Input<'a>,
    y: Input<'a>,
    front: Seq<TokenKind<'a>>,
    back: Seq<TokenKind<'a>>,
)
    requires
        x.known == y.known,
        kinds(y) == front + kinds(x) + back,
    ensures
        part(x, y, front.len() as int),
        y.toks.len() == front.len() + x.toks.len() + back.len(),
{
    let p = front.len() as int;
    assert(kinds(y).len() == y.toks.len());
    assert forall|i: int| 0 <= i < x.toks.len() implies #[trigger] x.toks[i].kind == y.toks[p
        + i].kind by {
        assert(kinds(y)[p + i] == kinds(x)[i]);
    }
}

pub proof fn lemma_kind<'a>(y: Input<'a>, i: int)
    requires
        0 <= i < y.toks.len(),
    ensures
        y.toks[i].kind == kinds(y)[i],
{
}

/// What stands at `e` continues no instruction in front of it.
pub open spec fn border<'a>(y: Input<'a>, e: int) -> bool {
    &&& y.skip(e) == e
    &&& e < y.toks.len() ==> idle(y.toks[e].kind)
    &&& still(y.with_annotation("label"@), e)
}

/// Where nothing is skipped, nothing is skipped with one more annotation
/// registered.
proof fn lemma_skips_nothing<'a>(y: Input<'a>, e: int, name: Seq<char>)
    requires
        y.skip(e) == e,
    ensures
        y.with_annotation(name).skip(e) == e,
{
    lemma_skip_known(y, name, e);
    y.with_annotation(name).lemma_skip_bounds(e);
}

/// The end of a text is a border, and so is a token in front of one.
pub proof fn lemma_border<'a>(y: Input<'a>, e: int)
    requires
        0 <= e <= y.toks.len(),
        e < y.toks.len() ==> {
            &&& idle(y.toks[e].kind)
            &&& annotation_at(y.toks, e) is None
            &&& annotation_at(y.toks, e + 1) is None || y.skip(e + 1) == e + 1
            &&& e + 1 < y.toks.len() ==> apart(y.toks[e + 1].kind)
        },
    ensures
        border(y, e),
{
    if e < y.toks.len() {
        assert(y.skip(e + 1) == e + 1);
        lemma_skips_nothing(y, e + 1, "label"@);
    }
}

/// A text starts where it stands.
proof fn lemma_begins<'a>(x: Input<'a>, y: Input<'a>, p: int)
    requires
        part(x, y, p),
        well_cut(x),
        x.toks.len() > 0,
    ensures
        y.skip(p) == p,
{
    assert(x.toks[0].kind == y.toks[p + 0].kind);
    if x.toks.len() > 1 {
        assert(x.toks[1].kind == y.toks[p + 1].kind);
    }
    assert(annotation_at(x.toks, 0) == annotation_at(y.toks, p));
    if annotation_at(x.toks, 0) is Some {
        lemma_group_end_bounds(x.toks, 1, 1);
        if let Some(e) = group_end(x.toks, 1, 1) {
            x.lemma_skip_bounds(e);
        }
    }
}

/// An expression starts with an item.
proof fn lemma_starts<'a>(x: Input<'a>, o: Listing<'a>)
    requires
        is_expression(x, o),
        x.toks.len() > 0,
    ensures
        idle(x.toks[0].kind),
        still(x.with_annotation("label"@), 0),
{
    reveal(is_expression);
    let none = Listing::empty(x.track);
    if x.at_end(start()) {
        assert(items(x, start(), none) == Ok::<_, Error>((none, start())));
    } else {
        lemma_items_stand_apart(x, start(), none);
    }
}

/// The front of an expression is a border where its end is one.
pub proof fn lemma_front<'a>(x: Input<'a>, y: Input<'a>, p: int, o: Listing<'a>)
    requires
        is_expression(x, o),
        part(x, y, p),
        border(y, p + x.toks.len()),
    ensures
        border(y, p),
        set_in(x, y, p),
{
    assert(well_cut(x)) by {
        reveal(is_expression);
    }
    if x.toks.len() > 0 {
        let (v, w) = (x.with_annotation("label"@), y.with_annotation("label"@));
        lemma_starts(x, o);
        lemma_begins(x, y, p);
        assert(x.toks[0].kind == y.toks[p + 0].kind);
        lemma_set_in_known(x, y, p, "label"@);
        lemma_skip_moves(v, w, p, 1);
        let s = v.skip(1);
        if s < x.toks.len() {
            assert(x.toks[s].kind == y.toks[p + s].kind);
        }
    }
}

/// An instruction is an expression.
pub proof fn lemma_instruction_is_expression<'a>(x: Input<'a>, i: AllInstructionsAst<'a>)
    requires
        is_instruction(x, i),
    ensures
        is_expression(x, single(x.track, i, x.here(start()))),
{
    reveal(is_expression);
    reveal(is_instruction);
    let none = Listing::empty(x.track);
    assert(none.unhinted() =~= none);
    lemma_instruction_head(x, start());
    lemma_item_advances(x, start(), none);
    if let Ok((_, to)) = AllInstructions::grammar(x, start()) {
        let o = single(x.track, i, x.here(start()));
        assert(item(x, start(), none) == Ok::<_, Error>((o, to)));
        assert(items(x, to, o) == Ok::<_, Error>((o, to)));
    }
}

/// How many items there are.
proof fn lemma_count<'a>(x: Input<'a>, a: Cursor, l: Listing<'a>) -> (n: nat)
    ensures
        items(x, a, l) is Ok ==> sequence(x, a, l, n) == items(x, a, l),
        items(x, a, l) matches Ok((_, to)) ==> x.at_end(to),
    decreases x.left(a),
{
    if x.at_end(a) {
        0
    } else {
        lemma_item_advances(x, a, l);
        match item(x, a, l) {
            Ok((o, to)) => 1 + lemma_count(x, to, o),
            Err(_) => 0,
        }
    }
}

/// The items from `b` to `c` denote `q`.
#[verifier::opaque]
pub open spec fn runs<'a>(y: Input<'a>, b: Cursor, q: Listing<'a>, c: Cursor) -> bool {
    exists|n: nat| reads(y, b, n, q, c)
}

/// So do they, and they are groups of the clause of a conditional.
#[verifier::opaque]
pub open spec fn clause_runs<'a>(y: Input<'a>, b: Cursor, q: Listing<'a>, c: Cursor) -> bool {
    exists|n: nat|
        reads(y, b, n, q, c) && clause_groups(y, b, Listing::empty(y.track), n)
}

/// The instruction `i` stands at `b`, and extends to `c`.
#[verifier::opaque]
pub open spec fn instruction_at<'a>(
    y: Input<'a>,
    b: Cursor,
    i: AllInstructionsAst<'a>,
    c: Cursor,
) -> bool {
    AllInstructions::grammar(y, b) == Ok::<_, Error>((i, c))
}

proof fn lemma_clause_groups<'a>(y: Input<'a>, b: Cursor, l: Listing<'a>, n: nat)
    requires
        grouped(y, b, l, n),
        sequence(y, b, l, n) is Ok,
    ensures
        clause_groups(y, b, l, n),
    decreases n,
{
    if n > 0 {
        lemma_item_head(y, b, l);
        if let Ok((o, to)) = item(y, b, l) {
            lemma_clause_groups(y, to, o, (n - 1) as nat);
        }
    }
}

/// The items of an expression are `n` items of its text, and groups where it is
/// made of groups.
proof fn lemma_expression_items<'a>(x: Input<'a>, o: Listing<'a>) -> (n: nat)
    requires
        is_expression(x, o),
    ensures
        sequence(x, start(), Listing::empty(x.track), n) matches Ok((q, to)) && q == o && to.pos
            == x.toks.len(),
        o.pending is None,
        all_groups(x) ==> grouped(x, start(), Listing::empty(x.track), n),
{
    reveal(is_expression);
    reveal(all_groups);
    let l = Listing::empty(x.track);
    let k = lemma_count(x, start(), l);
    let n = if all_groups(x) {
        choose|n: nat| groups(x, n)
    } else {
        k
    };
    if all_groups(x) {
        assert(groups(x, n));
        lemma_items_split(x, start(), l, n);
        if let Ok((q, to)) = sequence(x, start(), l, n) {
            assert(x.at_end(to));
            assert(items(x, to, q) == Ok::<_, Error>((q, to)));
        }
    }
    n
}

/// An expression denotes the same as a part of a text.
pub proof fn lemma_place<'a>(x: Input<'a>, o: Listing<'a>, y: Input<'a>, b: Cursor) -> (r: (
    Listing<'a>,
    Cursor,
))
    requires
        is_expression(x, o),
        part(x, y, b.pos),
        border(y, b.pos + x.toks.len()),
        uncaught(y.with_annotation("label"@), b.pos + x.toks.len()) || all_groups(x),
    ensures
        runs(y, b, r.0, r.1),
        same_code(o, r.0),
        r.1.pos == b.pos + x.toks.len(),
        all_groups(x) ==> clause_runs(y, b, r.0, r.1),
{
    let (l, m) = (Listing::empty(x.track), Listing::empty(y.track));
    lemma_front(x, y, b.pos, o);
    assert(instructions(l.instrs) =~= instructions(m.instrs));
    let n = lemma_expression_items(x, o);
    lemma_sequence_moves(x, y, b.pos, start(), b, l, m, n);
    let (q, c) = sequence(y, b, m, n)->Ok_0;
    assert(reads(y, b, n, q, c));
    if all_groups(x) {
        lemma_clause_groups(y, b, m, n);
    }
    reveal(runs);
    reveal(clause_runs);
    (q, c)
}

/// So does an instruction.
pub proof fn lemma_place_instruction<'a>(
    x: Input<'a>,
    i: AllInstructionsAst<'a>,
    y: Input<'a>,
    b: Cursor,
) -> (r: (AllInstructionsAst<'a>, Cursor))
    requires
        is_instruction(x, i),
        part(x, y, b.pos),
        border(y, b.pos + x.toks.len()),
        !(form(i) is Block),
    ensures
        instruction_at(y, b, r.0, r.1),
        instruction(i) == instruction(r.0),
        form(i) == form(r.0),
        r.1.pos == b.pos + x.toks.len(),
{
    lemma_instruction_is_expression(x, i);
    lemma_front(x, y, b.pos, single(x.track, i, x.here(start())));
    lemma_instruction_moves(x, y, b.pos, start(), b);
    reveal(is_instruction);
    reveal(instruction_at);
    AllInstructions::grammar(y, b)->Ok_0
}

/// A block as a part of a text: its header, `j`, extends to `t`, and its body
/// denotes `body` and extends to `e`.
pub proof fn lemma_place_block<'a>(
    x: Input<'a>,
    i: AllInstructionsAst<'a>,
    o: Listing<'a>,
    y: Input<'a>,
    b: Cursor,
) -> (r: (AllInstructionsAst<'a>, Cursor, Listing<'a>, Cursor))
    requires
        is_expression(x, o),
        begins_with(x, i),
        part(x, y, b.pos),
        border(y, b.pos + x.toks.len()),
        uncaught(y.with_annotation("label"@), b.pos + x.toks.len()),
    ensures
        ({
            let (j, t, body, e) = r;
            &&& instruction_at(y, b, j, t)
            &&& instruction(i) == instruction(j)
            &&& form(i) == form(j)
            &&& runs(y, t, body, e)
            &&& e.pos == b.pos + x.toks.len()
            &&& same_code(o, joined(single(y.track, j, y.here(b)), body))
        }),
{
    reveal(is_expression);
    reveal(begins_with);
    reveal(instruction_at);
    reveal(runs);
    let p = b.pos;
    let (l, m) = (Listing::empty(x.track), Listing::empty(y.track));
    assert(instructions(l.instrs) =~= instructions(m.instrs));
    lemma_front(x, y, p, o);
    let c = AllInstructions::grammar(x, start())->Ok_0.1;
    let f = single(x.track, i, x.here(start()));
    lemma_reads_one(x, start(), i, c);
    law_concatenation(x, start(), 1, f, c);
    assert(Expression::grammar(x, c) is Ok);
    let (rest, to) = Expression::grammar(x, c)->Ok_0;
    let n = lemma_count(x, c, l);
    if c.pos < x.toks.len() {
        lemma_any_instruction_advances(x, start());
        if x.at_end(c) {
            assert(items(x, c, l) == Ok::<_, Error>((l, c)));
        } else {
            lemma_items_open(x, c, l);
        }
    }
    lemma_instruction_moves(x, y, p, start(), b);
    let (j, t) = AllInstructions::grammar(y, b)->Ok_0;
    lemma_sequence_moves(x, y, p, c, t, l, m, n);
    let (body, e) = sequence(y, t, m, n)->Ok_0;
    assert(reads(y, t, n, body, e));
    lemma_same_single(i, j, x.track, y.track, x.here(start()), y.here(b));
    lemma_same_code_joins(f, rest, single(y.track, j, y.here(b)), body);
    (j, t, body, e)
}

/// Items and, behind them, others.
pub proof fn lemma_runs_join<'a>(
    y: Input<'a>,
    a: Cursor,
    q: Listing<'a>,
    b: Cursor,
    r: Listing<'a>,
    c: Cursor,
)
    requires
        runs(y, a, q, b),
        runs(y, b, r, c),
    ensures
        runs(y, a, joined(q, r), c),
{
    reveal(runs);
    let n = choose|n: nat| reads(y, a, n, q, b);
    let m = choose|m: nat| reads(y, b, m, r, c);
    law_concatenation_of_items(y, a, n, q, b, m, r, c);
}

/// No item.
pub proof fn lemma_runs_nothing<'a>(y: Input<'a>, b: Cursor)
    ensures
        runs(y, b, Listing::empty(y.track), b),
        same_code(Listing::empty(false), Listing::<'a>::empty(y.track)),
{
    reveal(runs);
    assert(reads(y, b, 0, Listing::empty(y.track), b));
    assert(instructions(Listing::<'a>::empty(false).instrs) =~= instructions(
        Listing::<'a>::empty(y.track).instrs,
    ));
}

/// A single instruction.
pub proof fn lemma_runs_one<'a>(y: Input<'a>, b: Cursor, i: AllInstructionsAst<'a>, c: Cursor)
    requires
        instruction_at(y, b, i, c),
    ensures
        runs(y, b, single(y.track, i, y.here(b)), c),
{
    reveal(runs);
    reveal(instruction_at);
    lemma_reads_one(y, b, i, c);
}

/// A text denotes what its items denote.
pub proof fn lemma_denotes<'a>(y: Input<'a>, q: Listing<'a>, to: Cursor, code: Listing<'a>)
    requires
        well_cut(y),
        runs(y, start(), q, to),
        to.pos == y.toks.len(),
        same_code(code, q),
    ensures
        denotes(y, code),
{
    reveal(runs);
    reveal(is_expression);
    let n = choose|n: nat| reads(y, start(), n, q, to);
    law_whole_text(y, start(), n, q, to);
    assert(is_expression(y, q));
}

/// Up to a closing parenthesis, items are an expression.
proof fn lemma_runs_to_end<'a>(y: Input<'a>, b: Cursor, q: Listing<'a>, c: Cursor)
    requires
        runs(y, b, q, c),
        y.at_rparen(c),
    ensures
        Expression::grammar(y, b) == Ok::<_, Error>((q, c)),
{
    reveal(runs);
    let n = choose|n: nat| reads(y, b, n, q, c);
    law_whole_text(y, b, n, q, c);
}

/// `(op operands)` as an item.
pub proof fn lemma_plain_runs<'a>(
    y: Input<'a>,
    p: Cursor,
    i: AllInstructionsAst<'a>,
    b: Cursor,
    q: Listing<'a>,
    c: Cursor,
)
    requires
        y.at_lparen(p),
        instruction_at(y, y.step(p), i, b),
        form(i) is Plain,
        runs(y, b, q, c),
        y.at_rparen(c),
    ensures
        runs(y, p, joined(q, single(y.track, i, y.here(y.step(p)))), y.step(c)),
{
    lemma_runs_to_end(y, b, q, c);
    reveal(runs);
    reveal(instruction_at);
    lemma_plain_group(y, p, i, b, q, c);
}

/// `(block body)` as an item.
pub proof fn lemma_block_runs<'a>(
    y: Input<'a>,
    p: Cursor,
    i: AllInstructionsAst<'a>,
    b: Cursor,
    q: Listing<'a>,
    c: Cursor,
)
    requires
        y.at_lparen(p),
        instruction_at(y, y.step(p), i, b),
        form(i) is Block,
        runs(y, b, q, c),
        y.at_rparen(c),
    ensures
        ({
            let f = joined(single(y.track, i, y.here(y.step(p))), q);
            runs(y, p, joined(f, single(y.track, end(), y.here(c))), y.step(c))
        }),
{
    lemma_runs_to_end(y, b, q, c);
    reveal(runs);
    reveal(instruction_at);
    lemma_block_group(y, p, i, b, q, c);
}

/// `(word arm)`, where the arm extends to `r`.
pub open spec fn arm_runs<'a>(
    y: Input<'a>,
    q: Cursor,
    word: Seq<char>,
    arm: Listing<'a>,
    r: Cursor,
) -> bool {
    &&& y.at_lparen(q)
    &&& y.at_keyword(y.step(q), word)
    &&& runs(y, y.step(y.step(q)), arm, r)
    &&& y.at_rparen(r)
}

/// `(if clause (then arm))` as an item.
pub proof fn lemma_conditional_runs<'a>(
    y: Input<'a>,
    p: Cursor,
    i: AllInstructionsAst<'a>,
    b: Cursor,
    clause: Listing<'a>,
    q: Cursor,
    arm: Listing<'a>,
    r: Cursor,
)
    requires
        y.at_lparen(p),
        instruction_at(y, y.step(p), i, b),
        form(i) is Conditional,
        clause_runs(y, b, clause, q),
        arm_runs(y, q, "then"@, arm, r),
        y.at_rparen(y.step(r)),
    ensures
        ({
            let f = joined(joined(clause, single(y.track, i, y.here(y.step(p)))), arm);
            let g = single(y.track, end(), y.here(y.step(r)));
            runs(y, p, joined(f, g), y.step(y.step(r)))
        }),
{
    lemma_runs_to_end(y, y.step(y.step(q)), arm, r);
    assert(then_arm(y, q, arm, r));
    reveal(runs);
    reveal(clause_runs);
    reveal(instruction_at);
    let n = choose|n: nat|
        reads(y, b, n, clause, q) && clause_groups(y, b, Listing::empty(y.track), n);
    lemma_conditional_group(y, p, i, b, n, clause, q, arm, r);
}

/// `(if clause (then arm) (else other))` as an item.
pub proof fn lemma_conditional_with_else_runs<'a>(
    y: Input<'a>,
    p: Cursor,
    i: AllInstructionsAst<'a>,
    b: Cursor,
    clause: Listing<'a>,
    q: Cursor,
    arm: Listing<'a>,
    r: Cursor,
    other: Listing<'a>,
    w: Cursor,
)
    requires
        y.at_lparen(p),
        instruction_at(y, y.step(p), i, b),
        form(i) is Conditional,
        clause_runs(y, b, clause, q),
        arm_runs(y, q, "then"@, arm, r),
        arm_runs(y, y.step(r), "else"@, other, w),
        y.at_rparen(y.step(w)),
    ensures
        ({
            let f = joined(joined(clause, single(y.track, i, y.here(y.step(p)))), arm);
            let g = single(y.track, otherwise(), y.here(y.step(y.step(r))));
            let h = single(y.track, end(), y.here(y.step(w)));
            runs(y, p, joined(joined(joined(f, g), other), h), y.step(y.step(w)))
        }),
{
    lemma_runs_to_end(y, y.step(y.step(q)), arm, r);
    lemma_runs_to_end(y, y.step(y.step(y.step(r))), other, w);
    assert(then_arm(y, q, arm, r));
    assert(else_arm(y, y.step(r), other, w));
    reveal(runs);
    reveal(clause_runs);
    reveal(instruction_at);
    let n = choose|n: nat|
        reads(y, b, n, clause, q) && clause_groups(y, b, Listing::empty(y.track), n);
    lemma_conditional_with_else_group(y, p, i, b, n, clause, q, arm, r, other, w);
}

/// No catch clause starts at a token other than a parenthesis.
pub proof fn lemma_uncaught<'a>(y: Input<'a>, e: int)
    requires
        0 <= e < y.toks.len() ==> !(y.toks[e].kind is LParen),
    ensures
        uncaught(y.with_annotation("label"@), e),
{
    let w = y.with_annotation("label"@);
    assert forall|b: Cursor| b.pos == e implies !#[trigger] at_catch(w, b) by {
        assert(!w.at_lparen(b));
    }
}

/// No catch clause starts where a text stands that starts with none.
pub proof fn lemma_uncaught_text<'a>(x: Input<'a>, y: Input<'a>, p: int, o: Listing<'a>)
    requires
        is_expression(x, o),
        part(x, y, p),
        p + x.toks.len() == y.toks.len(),
        !starts_with_catch(x),
    ensures
        uncaught(y.with_annotation("label"@), p),
{
    let (v, w) = (x.with_annotation("label"@), y.with_annotation("label"@));
    lemma_border(y, y.toks.len() as int);
    lemma_front(x, y, p, o);
    assert forall|b: Cursor| b.pos == p implies !#[trigger] at_catch(w, b) by {
        if at_catch(w, b) {
            assert(x.toks.len() > 0);
            assert(x.toks[0].kind == y.toks[p + 0].kind);
            lemma_set_in_known(x, y, p, "label"@);
            lemma_skip_moves(v, w, p, 1);
            let s = v.skip(1);
            if s < x.toks.len() {
                assert(x.toks[s].kind == y.toks[p + s].kind);
                assert(v.tok(v.step(start())) == w.tok(w.step(b)));
            }
        }
    }
}

/// A text that is an instruction starts with no parenthesis.
pub proof fn lemma_instruction_starts<'a>(x: Input<'a>, i: AllInstructionsAst<'a>)
    requires
        is_instruction(x, i),
    ensures
        x.toks.len() > 0,
        !(x.toks[0].kind is LParen),
{
    reveal(is_instruction);
    lemma_instruction_head(x, start());
}

/// A written `end` or `else` without a label, as an instruction and as a border.
pub proof fn lemma_delimiter<'a>(y: Input<'a>, c: Cursor, op: Opcode, word: &'a str) -> (to: Cursor)
    requires
        op is End || op is Else,
        word@ == op.mnemonic(),
        0 <= c.pos < y.toks.len(),
        y.toks[c.pos].kind == TokenKind::Keyword(word),
        border(y, c.pos + 1),
    ensures
        to.pos == c.pos + 1,
        op is End ==> instruction_at(y, c, end(), to),
        op is Else ==> instruction_at(y, c, otherwise(), to),
        border(y, c.pos),
        uncaught(y.with_annotation("label"@), c.pos),
{
    reveal(instruction_at);
    let w = y.with_annotation("label"@);
    let s = w.step(c);
    lemma_skips_nothing(y, c.pos + 1, "label"@);
    Opcode::lemma_named(op);
    assert(w.tok(c) == Some(TokenKind::Keyword(word)));
    assert(s.pos == c.pos + 1);
    assert(Option::<Id<'a>>::grammar(w, s) == Ok::<_, Error>((None::<Id<'a>>, s)));
    assert(operand_grammar(op.operand(), w, s) == Ok::<_, Error>(
        (Operand::<'a>::OptionalId(None), s),
    ));
    assert(AllInstructions::grammar(y, c) is Ok);
    lemma_instruction_head(y, c);
    lemma_border(y, c.pos);
    lemma_uncaught(y, c.pos);
    s
}

} // verus!
