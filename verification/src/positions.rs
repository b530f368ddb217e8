//! The recorded positions are those of the instructions.

use vstd::prelude::*;

use crate::expr::Expression;
use crate::grammar::{
    branch_hint, end, folded, folded_only, folded_operands, form, group_items, group_rest, if_clause,
    if_then, item, items, lemma_branch_hint_advances, lemma_folded_advances,
    lemma_folded_only_advances, lemma_group_rest_advances, lemma_item_advances, otherwise, Form,
    Listing,
};
use crate::labels::{lemma_any_instruction_advances, AllInstructions, AllInstructionsAst};
use crate::parser::{Cursor, Input, Parse};
use crate::token::Span;

verus! {

/// The instruction comes from the token at `at`: it is written there, or it is the
/// `end` of a group that is closed there, or the `else` of an arm that starts
/// there.
pub open spec fn comes_from<'a>(
    input: Input<'a>,
    instr: AllInstructionsAst<'a>,
    at: Cursor,
) -> bool {
    ||| AllInstructions::grammar(input, at) matches Ok((i, _)) && i == instr
    ||| instr == end::<'a>() && input.at_rparen(at)
    ||| instr == otherwise::<'a>() && input.at_keyword(at, "else"@)
}

/// The position is that of the instruction.
pub open spec fn stands_at<'a>(
    input: Input<'a>,
    instr: AllInstructionsAst<'a>,
    span: Span,
) -> bool {
    exists|at: Cursor| #[trigger] comes_from(input, instr, at) && input.here(at) == span
}

/// Where positions are recorded, each is that of its instruction.
pub open spec fn well_placed<'a>(input: Input<'a>, out: Listing<'a>) -> bool {
    out.spans matches Some(spans) ==> {
        &&& spans.len() == out.instrs.len()
        &&& forall|k: int|
            0 <= k < spans.len() ==> stands_at(input, out.instrs[k], #[trigger] spans[k])
    }
}

/// The i-th recorded position of an expression is that of its i-th instruction;
/// and so is that of a single folded instruction.
pub proof fn law_positions_of_instructions<'a>(input: Input<'a>, at: Cursor)
    ensures
        Expression::grammar(input, at) matches Ok((e, _)) ==> well_placed(input, e),
        folded_only(input, at, Listing::empty(input.track)) matches Ok((e, _)) ==> well_placed(
            input,
            e,
        ),
{
    lemma_items_placed(input, at, Listing::empty(input.track));
    lemma_folded_only_placed(input, at, Listing::empty(input.track));
}

proof fn lemma_push<'a>(
    input: Input<'a>,
    out: Listing<'a>,
    hint: Option<u32>,
    i: AllInstructionsAst<'a>,
    at: Cursor,
)
    requires
        well_placed(input, out),
        comes_from(input, i, at),
    ensures
        well_placed(input, out.note(hint).push(i, input.here(at))),
{
    let o = out.note(hint).push(i, input.here(at));
    if let Some(spans) = o.spans {
        assert forall|k: int| 0 <= k < spans.len() implies stands_at(
            input,
            o.instrs[k],
            #[trigger] spans[k],
        ) by {
            if k < out.instrs.len() {
                assert(spans[k] == out.spans.unwrap()[k]);
                assert(o.instrs[k] == out.instrs[k]);
            }
        }
    }
}

proof fn lemma_item_placed<'a>(input: Input<'a>, at: Cursor, out: Listing<'a>)
    requires
        well_placed(input, out),
    ensures
        item(input, at, out) matches Ok((o, _)) ==> well_placed(input, o),
    decreases input.left(at), 0nat,
{
    if input.at_lparen(at) {
        input.lemma_step(at);
        lemma_folded_placed(input, input.step(at), out);
    } else {
        if let Ok((i, _)) = AllInstructions::grammar(input, at) {
            lemma_push(input, out.unhinted(), out.pending, i, at);
        }
    }
}

proof fn lemma_items_placed<'a>(input: Input<'a>, at: Cursor, out: Listing<'a>)
    requires
        well_placed(input, out),
    ensures
        items(input, at, out) matches Ok((o, _)) ==> well_placed(input, o),
    decreases input.left(at), 1nat,
{
    if !input.at_end(at) {
        lemma_item_advances(input, at, out);
        lemma_item_placed(input, at, out);
        if let Ok((o, to)) = item(input, at, out) {
            lemma_items_placed(input, to, o);
        }
    }
}

proof fn lemma_group_items_placed<'a>(input: Input<'a>, at: Cursor, out: Listing<'a>)
    requires
        well_placed(input, out),
    ensures
        group_items(input, at, out) matches Ok(((o, close), _)) ==> well_placed(input, o)
            && exists|c: Cursor| #[trigger] input.at_rparen(c) && input.here(c) == close,
    decreases input.left(at), 2nat,
{
    lemma_items_placed(input, at, out);
}

proof fn lemma_group_rest_placed<'a>(input: Input<'a>, at: Cursor, out: Listing<'a>)
    requires
        well_placed(input, out),
    ensures
        group_rest(input, at, out) matches Ok(((o, close), _)) ==> well_placed(input, o)
            && exists|c: Cursor| #[trigger] input.at_rparen(c) && input.here(c) == close,
    decreases input.left(at), 3nat,
{
    lemma_group_items_placed(input, at, out);
}

proof fn lemma_folded_placed<'a>(input: Input<'a>, at: Cursor, out: Listing<'a>)
    requires
        well_placed(input, out),
    ensures
        folded(input, at, out) matches Ok((o, _)) ==> well_placed(input, o),
    decreases input.left(at), 4nat,
{
    let bare = out.unhinted();
    if input.at_annotation(at, "metadata.code.branch_hint"@) {
        lemma_branch_hint_advances(input, at);
        if let Ok((value, a)) = branch_hint(input, at) {
            lemma_group_items_placed(input, a, out.hint(value));
        }
    } else {
        lemma_any_instruction_advances(input, at);
        if let Ok((i, a)) = AllInstructions::grammar(input, at) {
            match form(i) {
                Form::Block => {
                    let b = bare.push(i, input.here(at));
                    lemma_push(input, bare, None, i, at);
                    lemma_group_rest_placed(input, a, b);
                    if let Ok(((o, close), _)) = group_rest(input, a, b) {
                        let c = choose|c: Cursor| #[trigger]
                            input.at_rparen(c) && input.here(c) == close;
                        lemma_push(input, o, None, end(), c);
                    }
                },
                Form::Conditional => {
                    lemma_if_clause_placed(input, a, bare, i, at, out.pending);
                },
                Form::Plain => {
                    lemma_group_rest_placed(input, a, bare);
                    if let Ok(((o, _), _)) = group_rest(input, a, bare) {
                        lemma_push(input, o, out.pending, i, at);
                    }
                },
            }
        }
    }
}

proof fn lemma_if_clause_placed<'a>(
    input: Input<'a>,
    at: Cursor,
    out: Listing<'a>,
    i: AllInstructionsAst<'a>,
    head: Cursor,
    hint: Option<u32>,
)
    requires
        well_placed(input, out),
        comes_from(input, i, head),
    ensures
        if_clause(input, at, out, i, input.here(head), hint) matches Ok((o, _)) ==> well_placed(
            input,
            o,
        ),
    decreases input.left(at), 1nat,
{
    let span = input.here(head);
    if input.at_lparen(at) {
        let a = input.step(at);
        let b = input.step(a);
        input.lemma_step(at);
        input.lemma_step(a);
        if input.at_keyword(a, "then"@) {
            let arm = out.note(hint).push(i, span);
            lemma_push(input, out, hint, i, head);
            lemma_group_rest_advances(input, b, arm);
            lemma_group_rest_placed(input, b, arm);
            if let Ok(((o, _), to)) = group_rest(input, b, arm) {
                lemma_if_then_placed(input, to, o);
            }
        } else {
            lemma_folded_advances(input, a, out);
            lemma_folded_placed(input, a, out);
            if let Ok((o, to)) = folded(input, a, out) {
                lemma_if_clause_placed(input, to, o, i, head, hint);
            }
        }
    }
}

proof fn lemma_if_then_placed<'a>(input: Input<'a>, at: Cursor, out: Listing<'a>)
    requires
        well_placed(input, out),
    ensures
        if_then(input, at, out) matches Ok((o, _)) ==> well_placed(input, o),
    decreases input.left(at), 1nat,
{
    let a = input.step(at);
    let b = input.step(a);
    input.lemma_step(at);
    input.lemma_step(a);
    if input.at_rparen(at) {
        lemma_push(input, out, None, end(), at);
    }
    if input.at_lparen(at) && input.at_keyword(a, "else"@) {
        let arm = out.push(otherwise(), input.here(a));
        lemma_push(input, out, None, otherwise(), a);
        lemma_group_rest_placed(input, b, arm);
        if let Ok(((o, _), to)) = group_rest(input, b, arm) {
            if input.at_rparen(to) {
                lemma_push(input, o, None, end(), to);
            }
        }
    }
}

proof fn lemma_folded_only_placed<'a>(input: Input<'a>, at: Cursor, out: Listing<'a>)
    requires
        well_placed(input, out),
    ensures
        folded_only(input, at, out) matches Ok((o, _)) ==> well_placed(input, o),
    decreases input.left(at), 0nat,
{
    if input.at_lparen(at) {
        let a = input.step(at);
        input.lemma_step(at);
        lemma_any_instruction_advances(input, a);
        if let Ok((i, b)) = AllInstructions::grammar(input, a) {
            lemma_folded_operands_placed(input, b, out);
            if let Ok((o, _)) = folded_operands(input, b, out) {
                lemma_push(input, o, None, i, a);
            }
        }
    }
}

proof fn lemma_folded_operands_placed<'a>(input: Input<'a>, at: Cursor, out: Listing<'a>)
    requires
        well_placed(input, out),
    ensures
        folded_operands(input, at, out) matches Ok((o, _)) ==> well_placed(input, o),
    decreases input.left(at), 1nat,
{
    if !input.at_rparen(at) {
        lemma_folded_only_advances(input, at, out);
        lemma_folded_only_placed(input, at, out);
        if let Ok((o, to)) = folded_only(input, at, out) {
            lemma_folded_operands_placed(input, to, o);
        }
    }
}

} // verus!
