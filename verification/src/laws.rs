//! What holds of expressions, instructions and their binary form in general.

use vstd::arithmetic::div_mod::{lemma_div_denominator, lemma_fundamental_div_mod_converse};
use vstd::arithmetic::power::pow;
use vstd::arithmetic::power2::{
    is_pow2, is_pow2_equiv, lemma2_to64_rest, lemma_pow2, lemma_pow2_pos,
    lemma_pow2_strictly_increases, pow2,
};
use vstd::bits::lemma_u64_shl_is_mul;
use vstd::prelude::*;
use vstd::std_specs::bits::axiom_u64_trailing_zeros;

use crate::bytes::{byte_of, lemma_places, place};
use crate::encode::{sleb, uleb, Encode};
use crate::expr::Expression;
use crate::grammar::{
    branch_hint, end, folded, folded_only, folded_operands, form, group_items, group_rest, if_clause,
    if_then, item, items, lemma_branch_hint_advances, lemma_folded_advances,
    lemma_folded_only_advances, lemma_folded_only_keeps_hints, lemma_folded_operands_advance,
    lemma_folded_operands_keep_hints, lemma_group_rest_advances, lemma_item_advances,
    lemma_items_advance, otherwise, stray_hint, takes_hint, Form, Hint, Listing,
};
use crate::labels::{
    lemma_any_instruction_advances, AllInstructions, AllInstructionsAst, LabelAnnotation,
    LabeledInstruction, MemoryInstruction,
};
use crate::opcode::{MemoryOpcode, Opcode};
use crate::parser::{Cursor, Input, Parse, Parsed};
use crate::simd::V128Const;
use crate::token::{Error, Span, TokenKind};
use crate::types::LabeledValType;

verus! {

/// `o` is `out` with something behind it: nothing that was there is gone or
/// changed, a position comes with each new instruction where positions are
/// recorded, and each new branch hint applies to a new instruction, a `br_if` or
/// an `if`, in the order of these.
pub open spec fn grows<'a>(out: Listing<'a>, o: Listing<'a>) -> bool {
    &&& out.instrs.is_prefix_of(o.instrs)
    &&& out.hints.is_prefix_of(o.hints)
    &&& match (out.spans, o.spans) {
        (Some(a), Some(b)) => {
            &&& a.is_prefix_of(b)
            &&& b.len() - a.len() == o.instrs.len() - out.instrs.len()
        },
        (None, None) => true,
        _ => false,
    }
    &&& fair(o.pending)
    &&& forall|k: int|
        out.hints.len() <= k < o.hints.len() ==> {
            &&& out.instrs.len() <= (#[trigger] o.hints[k]).instr_index < o.instrs.len()
            &&& takes_hint(o.instrs[o.hints[k].instr_index as int])
            &&& o.hints[k].value <= 1
        }
    &&& forall|j: int, k: int|
        out.hints.len() <= j < k < o.hints.len() ==> (#[trigger] o.hints[j]).instr_index < (
        #[trigger] o.hints[k]).instr_index
}

/// A branch hint says no or yes.
pub open spec fn fair(hint: Option<u32>) -> bool {
    hint matches Some(value) ==> value <= 1
}

proof fn lemma_grows_push<'a>(
    out: Listing<'a>,
    o: Listing<'a>,
    i: AllInstructionsAst<'a>,
    span: Span,
    hint: Option<u32>,
)
    requires
        grows(out, o),
        fair(hint),
        hint is Some ==> takes_hint(i),
    ensures
        grows(out, o.note(hint).push(i, span)),
{
    let p = o.note(hint).push(i, span);
    assert(out.instrs.is_prefix_of(p.instrs));
    assert forall|k: int| out.hints.len() <= k < p.hints.len() implies {
        &&& out.instrs.len() <= (#[trigger] p.hints[k]).instr_index < p.instrs.len()
        &&& takes_hint(p.instrs[p.hints[k].instr_index as int])
        &&& p.hints[k].value <= 1
    } by {
        if k < o.hints.len() {
            assert(p.hints[k] == o.hints[k]);
        }
    }
    assert forall|j: int, k: int| out.hints.len() <= j < k < p.hints.len() implies (
    #[trigger] p.hints[j]).instr_index < (#[trigger] p.hints[k]).instr_index by {
        assert(p.hints[j] == o.hints[j]);
        if k < o.hints.len() {
            assert(p.hints[k] == o.hints[k]);
        }
    }
}

proof fn lemma_grows_trans<'a>(a: Listing<'a>, b: Listing<'a>, c: Listing<'a>)
    requires
        grows(a, b),
        grows(b, c),
    ensures
        grows(a, c),
{
    assert forall|k: int| a.hints.len() <= k < c.hints.len() implies {
        &&& a.instrs.len() <= (#[trigger] c.hints[k]).instr_index < c.instrs.len()
        &&& takes_hint(c.instrs[c.hints[k].instr_index as int])
        &&& c.hints[k].value <= 1
    } by {
        if k < b.hints.len() {
            assert(c.hints[k] == b.hints[k]);
            let n = b.hints[k].instr_index as int;
            assert(c.instrs[n] == b.instrs[n]);
        }
    }
    assert forall|j: int, k: int| a.hints.len() <= j < k < c.hints.len() implies (
    #[trigger] c.hints[j]).instr_index < (#[trigger] c.hints[k]).instr_index by {
        if j < b.hints.len() {
            assert(c.hints[j] == b.hints[j]);
        }
        if k < b.hints.len() {
            assert(c.hints[k] == b.hints[k]);
        }
    }
}

/// The rule of an item only appends.
pub proof fn lemma_item_grows<'a>(input: Input<'a>, at: Cursor, out: Listing<'a>)
    requires
        fair(out.pending),
    ensures
        item(input, at, out) matches Ok((o, _)) ==> grows(out, o),
    decreases input.left(at), 0nat,
{
    if input.at_lparen(at) {
        input.lemma_step(at);
        lemma_folded_grows(input, input.step(at), out);
    } else {
        if let Ok((i, _)) = AllInstructions::grammar(input, at) {
            if !out.refuses(i) {
                lemma_grows_push(out, out.unhinted(), i, input.here(at), out.pending);
            }
        }
    }
}

/// The rule of a list of items only appends.
pub proof fn lemma_items_grow<'a>(input: Input<'a>, at: Cursor, out: Listing<'a>)
    requires
        fair(out.pending),
    ensures
        items(input, at, out) matches Ok((o, _)) ==> grows(out, o),
    decreases input.left(at), 1nat,
{
    if !input.at_end(at) {
        lemma_item_advances(input, at, out);
        lemma_item_grows(input, at, out);
        if let Ok((o, to)) = item(input, at, out) {
            lemma_items_grow(input, to, o);
            if let Ok((p, _)) = items(input, to, o) {
                lemma_grows_trans(out, o, p);
            }
        }
    }
}

proof fn lemma_group_items_grow<'a>(input: Input<'a>, at: Cursor, out: Listing<'a>)
    requires
        fair(out.pending),
    ensures
        group_items(input, at, out) matches Ok(((o, _), _)) ==> grows(out, o),
    decreases input.left(at), 2nat,
{
    lemma_items_grow(input, at, out);
}

proof fn lemma_group_rest_grows<'a>(input: Input<'a>, at: Cursor, out: Listing<'a>)
    requires
        fair(out.pending),
    ensures
        group_rest(input, at, out) matches Ok(((o, _), _)) ==> grows(out, o) && o.pending is None,
    decreases input.left(at), 3nat,
{
    lemma_group_items_grow(input, at, out);
}

/// The rule of a group only appends.
pub proof fn lemma_folded_grows<'a>(input: Input<'a>, at: Cursor, out: Listing<'a>)
    requires
        fair(out.pending),
    ensures
        folded(input, at, out) matches Ok((o, _)) ==> grows(out, o),
    decreases input.left(at), 4nat,
{
    let bare = out.unhinted();
    if input.at_annotation(at, "metadata.code.branch_hint"@) {
        lemma_branch_hint_advances(input, at);
        if let Ok((value, a)) = branch_hint(input, at) {
            lemma_group_items_grow(input, a, out.hint(value));
        }
    } else {
        lemma_any_instruction_advances(input, at);
        let span = input.here(at);
        if let Ok((i, a)) = AllInstructions::grammar(input, at) {
            if !out.refuses(i) {
                match form(i) {
                    Form::Block => {
                        let b = bare.push(i, span);
                        lemma_grows_push(out, bare, i, span, None);
                        lemma_group_rest_grows(input, a, b);
                        if let Ok(((o, close), _)) = group_rest(input, a, b) {
                            lemma_grows_trans(out, b, o);
                            lemma_grows_push(out, o, end(), close, None);
                        }
                    },
                    Form::Conditional => {
                        lemma_if_clause_grows(input, a, bare, i, span, out.pending);
                    },
                    Form::Plain => {
                        lemma_group_rest_grows(input, a, bare);
                        if let Ok(((o, _), _)) = group_rest(input, a, bare) {
                            lemma_grows_push(out, o, i, span, out.pending);
                        }
                    },
                }
            }
        }
    }
}

proof fn lemma_if_clause_grows<'a>(
    input: Input<'a>,
    at: Cursor,
    out: Listing<'a>,
    i: AllInstructionsAst<'a>,
    span: Span,
    hint: Option<u32>,
)
    requires
        fair(out.pending),
        fair(hint),
        hint is Some ==> takes_hint(i),
    ensures
        if_clause(input, at, out, i, span, hint) matches Ok((o, _)) ==> grows(out, o),
    decreases input.left(at), 1nat,
{
    if input.at_lparen(at) {
        let a = input.step(at);
        let b = input.step(a);
        input.lemma_step(at);
        input.lemma_step(a);
        if input.at_keyword(a, "then"@) {
            let arm = out.note(hint).push(i, span);
            lemma_grows_push(out, out, i, span, hint);
            lemma_group_rest_advances(input, b, arm);
            lemma_group_rest_grows(input, b, arm);
            if let Ok(((o, _), to)) = group_rest(input, b, arm) {
                lemma_grows_trans(out, arm, o);
                lemma_if_then_grows(input, to, o);
                if let Ok((p, _)) = if_then(input, to, o) {
                    lemma_grows_trans(out, o, p);
                }
            }
        } else {
            lemma_folded_advances(input, a, out);
            lemma_folded_grows(input, a, out);
            if let Ok((o, to)) = folded(input, a, out) {
                lemma_if_clause_grows(input, to, o, i, span, hint);
                if let Ok((p, _)) = if_clause(input, to, o, i, span, hint) {
                    lemma_grows_trans(out, o, p);
                }
            }
        }
    }
}

proof fn lemma_if_then_grows<'a>(input: Input<'a>, at: Cursor, out: Listing<'a>)
    requires
        fair(out.pending),
    ensures
        if_then(input, at, out) matches Ok((o, _)) ==> grows(out, o),
    decreases input.left(at), 1nat,
{
    let a = input.step(at);
    let b = input.step(a);
    input.lemma_step(at);
    input.lemma_step(a);
    lemma_grows_push(out, out, end(), input.here(at), None);
    if input.at_lparen(at) && input.at_keyword(a, "else"@) {
        let arm = out.push(otherwise(), input.here(a));
        lemma_grows_push(out, out, otherwise(), input.here(a), None);
        lemma_group_rest_grows(input, b, arm);
        if let Ok(((o, _), to)) = group_rest(input, b, arm) {
            lemma_grows_trans(out, arm, o);
            lemma_grows_push(out, o, end(), input.here(to), None);
        }
    }
}

/// The rule of a folded instruction only appends.
pub proof fn lemma_folded_only_grows<'a>(input: Input<'a>, at: Cursor, out: Listing<'a>)
    requires
        fair(out.pending),
    ensures
        folded_only(input, at, out) matches Ok((o, _)) ==> grows(out, o),
    decreases input.left(at), 0nat,
{
    if input.at_lparen(at) {
        let a = input.step(at);
        input.lemma_step(at);
        lemma_any_instruction_advances(input, a);
        if let Ok((i, b)) = AllInstructions::grammar(input, a) {
            lemma_folded_operands_grow(input, b, out);
            if let Ok((o, _)) = folded_operands(input, b, out) {
                lemma_grows_push(out, o, i, input.here(a), None);
            }
        }
    }
}

proof fn lemma_folded_operands_grow<'a>(input: Input<'a>, at: Cursor, out: Listing<'a>)
    requires
        fair(out.pending),
    ensures
        folded_operands(input, at, out) matches Ok((o, _)) ==> grows(out, o),
    decreases input.left(at), 1nat,
{
    if !input.at_rparen(at) {
        lemma_folded_only_advances(input, at, out);
        lemma_folded_only_grows(input, at, out);
        if let Ok((o, to)) = folded_only(input, at, out) {
            lemma_folded_operands_grow(input, to, o);
            if let Ok((p, _)) = folded_operands(input, to, o) {
                lemma_grows_trans(out, o, p);
            }
        }
    }
}

/// Where positions are recorded, there is one for each instruction; where they
/// are not, there is none.
pub proof fn law_positions<'a>(input: Input<'a>, at: Cursor)
    ensures
        Expression::grammar(input, at) matches Ok((e, _)) ==> {
            &&& e.spans is Some <==> input.track
            &&& e.spans matches Some(spans) ==> spans.len() == e.instrs.len()
        },
        folded_only(input, at, Listing::empty(input.track)) matches Ok((e, _)) ==> {
            &&& e.spans is Some <==> input.track
            &&& e.spans matches Some(spans) ==> spans.len() == e.instrs.len()
        },
{
    lemma_items_grow(input, at, Listing::empty(input.track));
    lemma_folded_only_grows(input, at, Listing::empty(input.track));
}

/// Each branch hint of an expression applies to one of its instructions, a `br_if`
/// or an `if`, and says no or yes. The hints are in the order of these
/// instructions, and no two apply to the same one.
pub proof fn law_hints<'a>(input: Input<'a>, at: Cursor)
    ensures
        Expression::grammar(input, at) matches Ok((e, _)) ==> {
            &&& forall|k: int|
                0 <= k < e.hints.len() ==> {
                    &&& (#[trigger] e.hints[k]).instr_index < e.instrs.len()
                    &&& e.instrs[e.hints[k].instr_index as int] matches AllInstructionsAst::Other(i)
                        && (i.op == Opcode::If || i.op == Opcode::BrIf)
                    &&& e.hints[k].value <= 1
                }
            &&& forall|j: int, k: int|
                0 <= j < k < e.hints.len() ==> (#[trigger] e.hints[j]).instr_index < (
                #[trigger] e.hints[k]).instr_index
        },
{
    lemma_items_grow(input, at, Listing::empty(input.track));
}

/// A single folded instruction has no branch hints.
pub proof fn law_folded_has_no_hints<'a>(input: Input<'a>, at: Cursor)
    ensures
        folded_only(input, at, Listing::empty(input.track)) matches Ok((o, _)) ==> o.hints
            == Seq::<Hint>::empty(),
{
    lemma_folded_only_keeps_hints(input, at, Listing::empty(input.track));
}

/// An expression extends to a closing parenthesis or to the end of the text.
pub proof fn law_extent<'a>(input: Input<'a>, at: Cursor)
    ensures
        Expression::grammar(input, at) matches Ok((_, to)) ==> at.pos <= to.pos && input.at_end(to),
{
    lemma_items_advance(input, at, Listing::empty(input.track));
}

/// No instruction starts with a branch hint.
pub proof fn lemma_hint_is_no_instruction<'a>(input: Input<'a>, at: Cursor)
    requires
        input.at_annotation(at, "metadata.code.branch_hint"@),
    ensures
        AllInstructions::grammar(input, at) is Err,
{
    reveal_strlit("label");
    reveal_strlit("metadata.code.branch_hint");
    assert("label"@.len() != "metadata.code.branch_hint"@.len());
}

/// From the `n`-th on, none of the instructions opens a block or a conditional.
pub open spec fn plain_from<'a>(instrs: Seq<AllInstructionsAst<'a>>, n: nat) -> bool {
    forall|k: int| n <= k < instrs.len() ==> form(#[trigger] instrs[k]) is Plain
}

/// A single folded instruction is a group like any other: where none of its
/// instructions opens a block or a conditional, it is parsed into the same
/// instructions as the group is in an expression.
pub proof fn law_folded_instruction_is_a_group<'a>(
    input: Input<'a>,
    at: Cursor,
    out: Listing<'a>,
)
    requires
        out.pending is None,
    ensures
        folded_only(input, at, out) matches Ok((o, to)) ==> plain_from(
            o.instrs,
            out.instrs.len(),
        ) ==> folded(
            input,
            input.step(at),
            out,
        ) == Ok::<_, Error>((o, to)),
    decreases input.left(at), 0nat,
{
    if input.at_lparen(at) {
        let a = input.step(at);
        input.lemma_step(at);
        lemma_any_instruction_advances(input, a);
        if input.at_annotation(a, "metadata.code.branch_hint"@) {
            lemma_hint_is_no_instruction(input, a);
        }
        if let Ok((i, b)) = AllInstructions::grammar(input, a) {
            lemma_folded_operands_are_items(input, b, out);
            lemma_folded_operands_advance(input, b, out);
            lemma_folded_operands_grow(input, b, out);
            lemma_folded_operands_keep_hints(input, b, out);
            if let Ok((o, c)) = folded_operands(input, b, out) {
                assert(out.unhinted() =~= out);
                assert(items(input, b, out) == Ok::<_, Error>((o, c)) ==> group_rest(input, b, out)
                    == Ok::<_, Error>(((o, input.here(c)), input.step(c))));
                let p = o.push(i, input.here(a));
                if plain_from(p.instrs, out.instrs.len()) {
                    assert(form(p.instrs[o.instrs.len() as int]) is Plain);
                    assert forall|k: int| out.instrs.len() <= k < o.instrs.len() implies form(
                        #[trigger] o.instrs[k],
                    ) is Plain by {
                        assert(p.instrs[k] == o.instrs[k]);
                    }
                }
            }
        }
    }
}

proof fn lemma_folded_operands_are_items<'a>(input: Input<'a>, at: Cursor, out: Listing<'a>)
    requires
        out.pending is None,
    ensures
        folded_operands(input, at, out) matches Ok((o, to)) ==> plain_from(
            o.instrs,
            out.instrs.len(),
        ) ==> items(
            input,
            at,
            out,
        ) == Ok::<_, Error>((o, to)),
    decreases input.left(at), 1nat,
{
    if !input.at_rparen(at) {
        lemma_folded_only_advances(input, at, out);
        law_folded_instruction_is_a_group(input, at, out);
        lemma_folded_only_grows(input, at, out);
        lemma_folded_only_keeps_hints(input, at, out);
        if let Ok((o, to)) = folded_only(input, at, out) {
            assert(item(input, at, out) == folded(input, input.step(at), out));
            lemma_folded_operands_are_items(input, to, o);
            lemma_folded_operands_grow(input, to, o);
            if let Ok((p, _)) = folded_operands(input, to, o) {
                if plain_from(p.instrs, out.instrs.len()) {
                    assert forall|k: int| out.instrs.len() <= k < o.instrs.len() implies form(
                        #[trigger] o.instrs[k],
                    ) is Plain by {
                        assert(p.instrs[k] == o.instrs[k]);
                    }
                }
            }
        }
    }
}

/// A branch hint, in its parentheses, and nothing else: its value, and the cursor
/// behind it.
pub open spec fn hint_group<'a>(input: Input<'a>, at: Cursor) -> Parsed<u32> {
    match input.open(at) {
        Ok((_, a)) => match branch_hint(input, a) {
            Ok((value, b)) => match input.close(b) {
                Ok((_, to)) => Ok((value, to)),
                Err(e) => Err(e),
            },
            Err(e) => Err(e),
        },
        Err(e) => Err(e),
    }
}

/// A branch hint leaves its value pending, and nothing else.
proof fn lemma_hint_group<'a>(input: Input<'a>, at: Cursor, out: Listing<'a>, value: u32, c: Cursor)
    requires
        hint_group(input, at) == Ok::<_, Error>((value, c)),
        out.pending is None,
    ensures
        item(input, at, out) == Ok::<_, Error>((out.hint(value), c)),
        items(input, at, out) == items(input, c, out.hint(value)),
        fair(Some(value)),
        input.left(c) < input.left(at),
{
    let a = input.step(at);
    let h = out.hint(value);
    input.lemma_step(at);
    lemma_branch_hint_advances(input, a);
    if let Ok((_, b)) = branch_hint(input, a) {
        input.lemma_step(b);
        assert(items(input, b, h) == Ok::<_, Error>((h, b)));
        assert(group_items(input, b, h) == Ok::<_, Error>(((h, input.here(b)), c)));
        assert(folded(input, a, out) == Ok::<_, Error>((h, c)));
    }
}

/// A branch hint in front of a `br_if` or an `if` stores the place of that
/// instruction.
pub proof fn law_hint_place<'a>(
    input: Input<'a>,
    at: Cursor,
    out: Listing<'a>,
    value: u32,
    c: Cursor,
    i: AllInstructionsAst<'a>,
    to: Cursor,
)
    requires
        out.pending is None,
        hint_group(input, at) == Ok::<_, Error>((value, c)),
        AllInstructions::grammar(input, c) == Ok::<_, Error>((i, to)),
        takes_hint(i),
    ensures
        items(input, at, out) matches Ok((o, _)) ==> {
            &&& o.hints.len() > out.hints.len()
            &&& o.hints[out.hints.len() as int] == (Hint { instr_index: out.instrs.len(), value })
            &&& o.instrs.len() > out.instrs.len()
            &&& o.instrs[out.instrs.len() as int] == i
        },
{
    let h = out.hint(value);
    let p = out.note(Some(value)).push(i, input.here(c));
    lemma_hint_group(input, at, out, value, c);
    lemma_any_instruction_advances(input, c);
    assert(h.unhinted() =~= out);
    assert(item(input, c, h) == Ok::<_, Error>((p, to)));
    assert(items(input, c, h) == items(input, to, p));
    lemma_items_grow(input, to, p);
    if let Ok((o, _)) = items(input, to, p) {
        assert(o.instrs[out.instrs.len() as int] == p.instrs[out.instrs.len() as int]);
        assert(o.hints[out.hints.len() as int] == p.hints[out.hints.len() as int]);
    }
}

/// A branch hint in front of a folded `br_if` or `if` stores the place of that
/// instruction too: a `br_if` comes behind its operands, and an `if` behind its
/// clause.
pub proof fn law_folded_hint_place<'a>(
    input: Input<'a>,
    at: Cursor,
    out: Listing<'a>,
    value: u32,
    c: Cursor,
    i: AllInstructionsAst<'a>,
    b: Cursor,
)
    requires
        out.pending is None,
        hint_group(input, at) == Ok::<_, Error>((value, c)),
        input.at_lparen(c),
        AllInstructions::grammar(input, input.step(c)) == Ok::<_, Error>((i, b)),
        takes_hint(i),
    ensures
        items(input, at, out) matches Ok((o, _)) ==> exists|k: int|
            {
                &&& out.hints.len() <= k < o.hints.len()
                &&& (#[trigger] o.hints[k]).value == value
                &&& out.instrs.len() <= o.hints[k].instr_index < o.instrs.len()
                &&& o.instrs[o.hints[k].instr_index as int] == i
            },
        form(i) is Plain ==> (folded(input, input.step(c), out.hint(value)) matches Ok((o, _)) ==> {
            &&& o.hints.len() > out.hints.len()
            &&& o.hints.last() == (Hint { instr_index: (o.instrs.len() - 1) as nat, value })
            &&& o.instrs.last() == i
        }),
{
    let a = input.step(c);
    let h = out.hint(value);
    lemma_hint_group(input, at, out, value, c);
    assert(h.unhinted() =~= out);
    if input.at_annotation(a, "metadata.code.branch_hint"@) {
        lemma_hint_is_no_instruction(input, a);
    }
    input.lemma_step(c);
    lemma_folded_advances(input, a, h);
    lemma_folded_grows(input, a, h);
    let span = input.here(a);
    if form(i) is Plain {
        lemma_group_rest_grows(input, b, out);
    } else {
        lemma_clause_hint(input, b, out, i, span, value);
    }
    assert(item(input, c, h) == folded(input, a, h));
    if let Ok((p, to)) = folded(input, a, h) {
        let k = choose|k: int| hint_at(out, p, k, i, value);
        if form(i) is Plain {
            assert(hint_at(out, p, p.hints.len() - 1, i, value));
        }
        assert(hint_at(out, p, k, i, value));
        assert(items(input, at, out) == items(input, to, p));
        lemma_items_grow(input, to, p);
        if let Ok((o, _)) = items(input, to, p) {
            assert(o.hints[k] == p.hints[k]);
            let n = p.hints[k].instr_index as int;
            assert(o.instrs[n] == p.instrs[n]);
        }
    }
}

/// The `k`-th hint of `o` is a new one, for the instruction `i`.
spec fn hint_at<'a>(
    out: Listing<'a>,
    o: Listing<'a>,
    k: int,
    i: AllInstructionsAst<'a>,
    value: u32,
) -> bool {
    &&& out.hints.len() <= k < o.hints.len()
    &&& o.hints[k].value == value
    &&& out.instrs.len() <= o.hints[k].instr_index < o.instrs.len()
    &&& o.instrs[o.hints[k].instr_index as int] == i
}

proof fn lemma_clause_hint<'a>(
    input: Input<'a>,
    at: Cursor,
    out: Listing<'a>,
    i: AllInstructionsAst<'a>,
    span: Span,
    value: u32,
)
    requires
        fair(out.pending),
        value <= 1,
        takes_hint(i),
    ensures
        if_clause(input, at, out, i, span, Some(value)) matches Ok((o, _)) ==> exists|k: int|
            hint_at(out, o, k, i, value),
    decreases input.left(at),
{
    if input.at_lparen(at) {
        let a = input.step(at);
        let b = input.step(a);
        input.lemma_step(at);
        input.lemma_step(a);
        if input.at_keyword(a, "then"@) {
            let arm = out.note(Some(value)).push(i, span);
            lemma_group_rest_advances(input, b, arm);
            lemma_group_rest_grows(input, b, arm);
            if let Ok(((o, _), to)) = group_rest(input, b, arm) {
                lemma_if_then_grows(input, to, o);
                if let Ok((p, _)) = if_then(input, to, o) {
                    let (k, n) = (out.hints.len() as int, out.instrs.len() as int);
                    assert(arm.hints[k] == o.hints[k] && o.hints[k] == p.hints[k]);
                    assert(arm.instrs[n] == o.instrs[n] && o.instrs[n] == p.instrs[n]);
                    assert(hint_at(out, p, k, i, value));
                }
            }
        } else {
            lemma_folded_advances(input, a, out);
            lemma_folded_grows(input, a, out);
            if let Ok((o, to)) = folded(input, a, out) {
                lemma_clause_hint(input, to, o, i, span, value);
                if let Ok((p, _)) = if_clause(input, to, o, i, span, Some(value)) {
                    let k = choose|k: int| hint_at(o, p, k, i, value);
                    assert(hint_at(out, p, k, i, value));
                }
            }
        }
    }
}

/// Behind a branch hint, nothing but a `br_if` or an `if` can follow, flat or
/// folded: another instruction, another branch hint, a closing parenthesis and the
/// end of the text are refused.
pub proof fn law_stray_hints<'a>(input: Input<'a>, at: Cursor, value: u32, c: Cursor)
    requires
        hint_group(input, at) == Ok::<_, Error>((value, c)),
    ensures
        input.at_end(c) ==> Expression::grammar(input, at) == stray_hint::<Listing<'a>>(input, c),
        (!input.at_lparen(c) && (AllInstructions::grammar(input, c) matches Ok((i, _))
            && !takes_hint(i))) ==> Expression::grammar(input, at) == stray_hint::<Listing<'a>>(
            input,
            c,
        ),
        (input.at_lparen(c) && (AllInstructions::grammar(input, input.step(c)) matches Ok((i, _))
            && !takes_hint(i))) ==> Expression::grammar(input, at) == stray_hint::<Listing<'a>>(
            input,
            input.step(c),
        ),
        (input.at_lparen(c) && input.at_annotation(input.step(c), "metadata.code.branch_hint"@))
            ==> Expression::grammar(input, at) == stray_hint::<Listing<'a>>(input, input.step(c)),
{
    let out = Listing::empty(input.track);
    let h = out.hint(value);
    let a = input.step(c);
    lemma_hint_group(input, at, out, value, c);
    if input.at_lparen(c) {
        assert(item(input, c, h) == folded(input, a, h));
        if input.at_annotation(a, "metadata.code.branch_hint"@) {
            lemma_hint_is_no_instruction(input, a);
        }
    }
}

/// Operands come before their operator: the instruction that a plain group starts
/// with is the last of the group's instructions.
pub proof fn law_operator_comes_last<'a>(
    input: Input<'a>,
    at: Cursor,
    out: Listing<'a>,
    i: AllInstructionsAst<'a>,
    a: Cursor,
)
    requires
        AllInstructions::grammar(input, at) == Ok::<_, Error>((i, a)),
        form(i) is Plain,
    ensures
        folded(input, at, out) matches Ok((o, _)) ==> {
            &&& o.instrs.len() > out.instrs.len()
            &&& o.instrs.last() == i
            &&& o.spans matches Some(spans) ==> spans.last() == input.here(at)
        },
{
    if input.at_annotation(at, "metadata.code.branch_hint"@) {
        lemma_hint_is_no_instruction(input, at);
    }
    lemma_group_rest_grows(input, a, out.unhinted());
}

/// A group that starts with a block instruction opens that block and ends it.
pub proof fn law_block_is_ended<'a>(
    input: Input<'a>,
    at: Cursor,
    out: Listing<'a>,
    i: AllInstructionsAst<'a>,
    a: Cursor,
)
    requires
        AllInstructions::grammar(input, at) == Ok::<_, Error>((i, a)),
        form(i) is Block,
    ensures
        folded(input, at, out) matches Ok((o, _)) ==> {
            &&& o.instrs.len() >= out.instrs.len() + 2
            &&& o.instrs[out.instrs.len() as int] == i
            &&& o.instrs.last() == end::<'a>()
        },
{
    if input.at_annotation(at, "metadata.code.branch_hint"@) {
        lemma_hint_is_no_instruction(input, at);
    }
    let b = out.unhinted().push(i, input.here(at));
    lemma_group_rest_grows(input, a, b);
    if let Ok(((o, _), _)) = group_rest(input, a, b) {
        assert(o.instrs[out.instrs.len() as int] == b.instrs[out.instrs.len() as int]);
    }
}

/// A group that starts with `if` opens the conditional, behind its clause, and
/// ends it.
pub proof fn law_conditional_is_ended<'a>(
    input: Input<'a>,
    at: Cursor,
    out: Listing<'a>,
    i: AllInstructionsAst<'a>,
    a: Cursor,
)
    requires
        AllInstructions::grammar(input, at) == Ok::<_, Error>((i, a)),
        form(i) is Conditional,
    ensures
        folded(input, at, out) matches Ok((o, _)) ==> {
            &&& exists|k: int| out.instrs.len() <= k < o.instrs.len() - 1 && o.instrs[k] == i
            &&& o.instrs.last() == end::<'a>()
        },
{
    if input.at_annotation(at, "metadata.code.branch_hint"@) {
        lemma_hint_is_no_instruction(input, at);
    }
    lemma_clause_is_ended(input, a, out.unhinted(), i, input.here(at), out.pending);
}

proof fn lemma_clause_is_ended<'a>(
    input: Input<'a>,
    at: Cursor,
    out: Listing<'a>,
    i: AllInstructionsAst<'a>,
    span: Span,
    hint: Option<u32>,
)
    requires
        fair(out.pending),
    ensures
        if_clause(input, at, out, i, span, hint) matches Ok((o, _)) ==> {
            &&& exists|k: int| out.instrs.len() <= k < o.instrs.len() - 1 && o.instrs[k] == i
            &&& o.instrs.last() == end::<'a>()
        },
    decreases input.left(at),
{
    if input.at_lparen(at) {
        let a = input.step(at);
        let b = input.step(a);
        input.lemma_step(at);
        input.lemma_step(a);
        if input.at_keyword(a, "then"@) {
            let arm = out.note(hint).push(i, span);
            lemma_group_rest_advances(input, b, arm);
            lemma_group_rest_grows(input, b, arm);
            if let Ok(((o, _), to)) = group_rest(input, b, arm) {
                let k = out.instrs.len() as int;
                assert(o.instrs[k] == arm.instrs[k]);
                lemma_then_is_ended(input, to, o);
                lemma_if_then_grows(input, to, o);
                if let Ok((p, _)) = if_then(input, to, o) {
                    assert(p.instrs[k] == o.instrs[k]);
                }
            }
        } else {
            lemma_folded_advances(input, a, out);
            lemma_folded_grows(input, a, out);
            if let Ok((o, to)) = folded(input, a, out) {
                lemma_clause_is_ended(input, to, o, i, span, hint);
            }
        }
    }
}

proof fn lemma_then_is_ended<'a>(input: Input<'a>, at: Cursor, out: Listing<'a>)
    requires
        fair(out.pending),
    ensures
        if_then(input, at, out) matches Ok((o, _)) ==> o.instrs.len() > out.instrs.len()
            && o.instrs.last() == end::<'a>(),
{
    let a = input.step(at);
    if input.at_lparen(at) && input.at_keyword(a, "else"@) {
        lemma_group_rest_grows(input, input.step(a), out.push(otherwise(), input.here(a)));
    }
}

/// Labels leave nothing in the binary form: instructions that differ in nothing
/// but their labels are encoded alike.
pub proof fn law_labels_are_erased<'a>(x: LabeledInstruction<'a>, y: LabeledInstruction<'a>)
    requires
        x.instruction == y.instruction,
    ensures
        AllInstructionsAst::Labeled(x).encodable() == AllInstructionsAst::Labeled(y).encodable(),
        AllInstructionsAst::Labeled(x).encoded() == AllInstructionsAst::Labeled(y).encoded(),
{
}

/// Types that differ in nothing but their labels are encoded alike.
pub proof fn law_type_labels_are_erased<'a>(x: LabeledValType<'a>, y: LabeledValType<'a>)
    requires
        x.ty == y.ty,
    ensures
        x.encodable() == y.encodable(),
        x.encoded() == y.encoded(),
{
}

/// An instruction that accesses a memory must be labeled.
pub proof fn law_memory_access_is_labeled<'a>(input: Input<'a>, at: Cursor, op: MemoryOpcode)
    requires
        input.at_keyword(at, op.mnemonic()),
    ensures
        AllInstructions::grammar(input, at) == input.fail::<AllInstructionsAst<'a>>(
            at,
            "unknown operator or unexpected token",
        ),
{
    if let Some(o) = Opcode::named(op.mnemonic()) {
        MemoryOpcode::lemma_mnemonics_apart(op, o);
    }
}

/// An instruction that accesses no memory cannot be labeled.
pub proof fn law_nothing_else_is_labeled<'a>(
    input: Input<'a>,
    at: Cursor,
    op: Opcode,
    label: LabelAnnotation<'a>,
    a: Cursor,
)
    requires
        LabelAnnotation::grammar(input.with_annotation("label"@), at) == Ok::<_, Error>((label, a)),
        input.at_keyword(a, op.mnemonic()),
    ensures
        AllInstructions::grammar(input, at) == input.fail::<AllInstructionsAst<'a>>(
            a,
            "unknown operator or unexpected token",
        ),
{
    if let Some(m) = MemoryOpcode::named(op.mnemonic()) {
        MemoryOpcode::lemma_mnemonics_apart(m, op);
    }
}

/// The alignment of a parsed memory access is a power of two.
pub proof fn law_alignment<'a>(input: Input<'a>, at: Cursor)
    ensures
        MemoryInstruction::grammar(input, at) matches Ok((i, _)) ==> is_pow2(i.arg().align as int),
{
    reveal(is_pow2);
    reveal_with_fuel(is_pow2, 5);
    if let Some(TokenKind::Keyword(k)) = input.tok(at) {
        if let Some(op) = MemoryOpcode::named(k@) {
            assert(is_pow2(op.natural_align() as int));
        }
    }
}

/// What is encoded of an alignment is its logarithm.
pub proof fn law_encoded_alignment(align: u64)
    requires
        is_pow2(align as int),
    ensures
        align == pow2(align.trailing_zeros() as nat),
{
    is_pow2_equiv(align as int);
    let e = choose|e: nat| pow(2, e) == align as int;
    lemma_pow2(e);
    lemma_pow2_pos(e);
    if e >= 64 {
        lemma2_to64_rest();
        if e > 64 {
            lemma_pow2_strictly_increases(64, e);
        }
    }
    let k = e as u64;
    lemma_u64_shl_is_mul(1, k);
    axiom_u64_trailing_zeros(align);
    let t = align.trailing_zeros() as u64;
    assert(align == 1u64 << k);
    assert(k == t) by (bit_vector)
        requires
            k < 64,
            t < 64,
            align == 1u64 << k,
            (align >> t) & 1u64 == 1u64,
    ;
}

/// The number that bytes denote, the lowest first.
pub open spec fn le_value(bytes: Seq<u8>) -> nat
    decreases bytes.len(),
{
    if bytes.len() == 0 {
        0
    } else {
        bytes[0] as nat + 256 * le_value(bytes.skip(1))
    }
}

/// The bytes of a number denote that number.
pub proof fn lemma_le_value(bits: nat, size: nat)
    requires
        bits < place(size),
    ensures
        le_value(Seq::new(size, |k: int| byte_of(bits, k as nat))) == bits,
    decreases size,
{
    let bytes = Seq::new(size, |k: int| byte_of(bits, k as nat));
    if size > 0 {
        let rest = (size - 1) as nat;
        let tail = Seq::new(rest, |k: int| byte_of(bits / 256, k as nat));
        assert forall|k: int| 0 <= k < rest implies bytes.skip(1)[k] == tail[k] by {
            assert(place(k as nat) >= 1) by {
                lemma_place_positive(k as nat);
            }
            lemma_div_denominator(bits as int, 256, place(k as nat) as int);
            assert(place((k + 1) as nat) == 256 * place(k as nat));
        }
        assert(bytes.skip(1) =~= tail);
        lemma_le_value(bits / 256, rest);
        assert(place(0) == 1);
    }
}

proof fn lemma_place_positive(k: nat)
    ensures
        place(k) >= 1,
    decreases k,
{
    if k > 0 {
        lemma_place_positive((k - 1) as nat);
    }
}

/// The bytes of a vector constant hold its lanes: the `i`-th lane can be read off
/// the bytes at its place.
pub proof fn law_vector_bytes(v: V128Const, i: int)
    requires
        0 <= i,
        (i + 1) * v.lane_width() <= 16,
    ensures
        le_value(
            v.le_bytes().subrange(i * v.lane_width(), (i + 1) * v.lane_width()),
        ) == v.lane_bits(i),
{
    let w = v.lane_width() as int;
    let lane = v.le_bytes().subrange(i * w, (i + 1) * w);
    let bytes = Seq::new(v.lane_width(), |k: int| byte_of(v.lane_bits(i), k as nat));
    assert((i + 1) * w == i * w + w) by (nonlinear_arith);
    assert(0 <= i * w) by (nonlinear_arith)
        requires
            0 <= i,
            0 <= w,
    ;
    assert forall|k: int| 0 <= k < w implies lane[k] == bytes[k] by {
        lemma_fundamental_div_mod_converse(i * w + k, w, i, k);
    }
    assert(lane =~= bytes);
    lemma_places();
    assert(place(8) == 256 * place(7));
    lemma_le_value(v.lane_bits(i), v.lane_width());
}

/// The number that its unsigned form denotes.
pub open spec fn uleb_value(bytes: Seq<u8>) -> nat
    decreases bytes.len(),
{
    if bytes.len() == 0 {
        0
    } else if bytes[0] < 128 {
        bytes[0] as nat
    } else {
        (bytes[0] - 128) as nat + 128 * uleb_value(bytes.skip(1))
    }
}

/// A number can be read back from its unsigned form.
pub proof fn law_unsigned_form(n: nat)
    ensures
        uleb_value(uleb(n)) == n,
    decreases n,
{
    if n >= 128 {
        law_unsigned_form(n / 128);
        assert(uleb(n).skip(1) =~= uleb(n / 128));
    }
}

/// The number that its signed form denotes.
pub open spec fn sleb_value(bytes: Seq<u8>) -> int
    decreases bytes.len(),
{
    if bytes.len() == 0 {
        0
    } else if bytes[0] < 64 {
        bytes[0] as int
    } else if bytes[0] < 128 {
        bytes[0] - 128
    } else {
        bytes[0] - 128 + 128 * sleb_value(bytes.skip(1))
    }
}

/// A number can be read back from its signed form.
pub proof fn law_signed_form(n: int)
    ensures
        sleb_value(sleb(n)) == n,
    decreases
            if n < 0 {
                -n
            } else {
                n
            },
{
    if !(-64 <= n < 64) {
        law_signed_form(n / 128);
        assert(sleb(n).skip(1) =~= sleb(n / 128));
    }
}

} // verus!
