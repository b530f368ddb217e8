//! Which instructions open something that their group ends, and what an expression
//! holds.

use vstd::prelude::*;

use crate::arguments::parsed_as;
use crate::composition::{
    conditional, conditional_with_else, law_folded_block, law_folded_conditional,
    law_folded_conditional_with_else, law_folded_instruction, two_arms,
};
use crate::expr::Expression;
use crate::folding::{joined, law_whole_text, lemma_reads_one, same_code, single};
use crate::grammar::{
    branch_hint, end, folded_only, folded_operands, form, item, lemma_folded_only_advances, otherwise,
    takes_hint, Listing,
};
use crate::instruction::Instruction;
use crate::labels::{
    AllInstructions, AllInstructionsAst, LabeledInstruction, MemoryInstruction,
};
use crate::opcode::{MemoryOpcode, Opcode};
use crate::parser::{Cursor, Input, Parse, Parsed};
use crate::parts::{
    all_groups, begins_with, is_expression, is_instruction, kinds, start, well_cut,
};
use crate::token::{Error, TokenKind};
use crate::unplaced::{instruction, instructions};

verus! {

/// The instruction is a `block`, a `loop` or a `try_table`.
pub open spec fn opens_block<'a>(i: AllInstructionsAst<'a>) -> bool {
    i matches AllInstructionsAst::Other(x) && (x.op is Block || x.op is Loop || x.op is TryTable)
}

/// The instruction is an `if`.
pub open spec fn is_if<'a>(i: AllInstructionsAst<'a>) -> bool {
    i matches AllInstructionsAst::Other(x) && x.op is If
}

/// Only `block`, `loop` and `try_table` open a block that their group ends, and only
/// `if` opens a conditional. Every other instruction comes last in its group, a
/// labeled one too.
pub proof fn law_forms<'a>(i: AllInstructionsAst<'a>)
    ensures
        form(i) is Block <==> opens_block(i),
        form(i) is Conditional <==> is_if(i),
        form(i) is Plain <==> !opens_block(i) && !is_if(i),
{
}

/// A branch hint can apply to a `br_if` and to an `if`, and to nothing else.
pub proof fn law_hinted_instructions<'a>(i: AllInstructionsAst<'a>)
    ensures
        takes_hint(i) <==> (i matches AllInstructionsAst::Other(x) && (x.op is BrIf || x.op is If)),
{
}

/// The instructions of `o` and `i` behind them, and nothing else.
pub open spec fn followed_by<'a>(
    text: Input<'a>,
    o: Listing<'a>,
    i: AllInstructionsAst<'a>,
) -> bool {
    &&& Expression::grammar(text, start()) matches Ok((e, _))
    &&& instructions(e.instrs) == instructions(o.instrs).push(instruction(i))
    &&& e.hints == o.hints
}

/// A group that starts with an instruction other than `block`, `loop`, `try_table`
/// and `if` denotes the instructions of its operands and that instruction behind
/// them. No `end` comes with it.
pub proof fn law_group_of_another_instruction<'a>(
    op: Input<'a>,
    i: AllInstructionsAst<'a>,
    operands: Input<'a>,
    o: Listing<'a>,
    group: Input<'a>,
)
    requires
        is_instruction(op, i),
        !opens_block(i) && !is_if(i),
        is_expression(operands, o),
        op.known == group.known,
        operands.known == group.known,
        kinds(group) == seq![TokenKind::LParen] + kinds(op) + kinds(operands)
            + seq![TokenKind::RParen],
        well_cut(group),
    ensures
        followed_by(group, o, i),
{
    law_forms(i);
    law_folded_instruction(op, i, operands, o, group);
    let f = single(op.track, i, op.here(start()));
    let e = choose|e: Listing<'a>| #[trigger] is_expression(group, e) && same_code(e, joined(o, f));
    reveal(is_expression);
    assert(instructions(joined(o, f).instrs) =~= instructions(o.instrs).push(instruction(i)));
    assert(joined(o, f).hints =~= o.hints);
}

/// A group that starts with a `block`, a `loop` or a `try_table` denotes what it holds
/// and an `end` behind that.
pub proof fn law_group_of_a_block<'a>(
    text: Input<'a>,
    i: AllInstructionsAst<'a>,
    o: Listing<'a>,
    group: Input<'a>,
)
    requires
        is_expression(text, o),
        begins_with(text, i),
        opens_block(i),
        text.known == group.known,
        kinds(group) == seq![TokenKind::LParen] + kinds(text) + seq![TokenKind::RParen],
        well_cut(group),
    ensures
        followed_by(group, o, AllInstructions::Other(Instruction::End(None))@),
{
    law_forms(i);
    law_folded_block(text, i, o, group);
    let f = single(text.track, end(), text.end);
    let e = choose|e: Listing<'a>| #[trigger] is_expression(group, e) && same_code(e, joined(o, f));
    reveal(is_expression);
    assert(instructions(joined(o, f).instrs) =~= instructions(o.instrs).push(instruction(end())));
    assert(joined(o, f).hints =~= o.hints);
}

/// A group that starts with an `if` denotes its clause, the `if`, its arm and an
/// `end`.
pub proof fn law_group_of_an_if<'a>(
    head: Input<'a>,
    i: AllInstructionsAst<'a>,
    clause: Input<'a>,
    c: Listing<'a>,
    arm: Input<'a>,
    a: Listing<'a>,
    group: Input<'a>,
)
    requires
        is_instruction(head, i),
        is_if(i),
        is_expression(clause, c),
        all_groups(clause),
        is_expression(arm, a),
        head.known == group.known,
        clause.known == group.known,
        arm.known == group.known,
        kinds(group) == seq![TokenKind::LParen] + kinds(head) + kinds(clause) + seq![
            TokenKind::LParen,
            TokenKind::Keyword("then"),
        ] + kinds(arm) + seq![TokenKind::RParen, TokenKind::RParen],
        well_cut(group),
    ensures
        Expression::grammar(group, start()) matches Ok((e, _)) && instructions(e.instrs)
            == instructions(
            c.instrs + seq![i] + a.instrs + seq![AllInstructions::Other(Instruction::End(None))@],
        ),
{
    law_forms(i);
    law_folded_conditional(head, i, clause, c, arm, a, group);
    let code = conditional(head, i, c, a);
    let e = choose|e: Listing<'a>| #[trigger] is_expression(group, e) && same_code(e, code);
    reveal(is_expression);
    assert(code.instrs =~= c.instrs + seq![i] + a.instrs + seq![end::<'a>()]);
}

/// With a second arm, an `else` and that arm stand before the `end`.
pub proof fn law_group_of_an_if_with_else<'a>(
    head: Input<'a>,
    i: AllInstructionsAst<'a>,
    clause: Input<'a>,
    c: Listing<'a>,
    arm: Input<'a>,
    a: Listing<'a>,
    other: Input<'a>,
    o: Listing<'a>,
    group: Input<'a>,
)
    requires
        is_instruction(head, i),
        is_if(i),
        is_expression(clause, c),
        all_groups(clause),
        is_expression(arm, a),
        is_expression(other, o),
        head.known == group.known,
        clause.known == group.known,
        arm.known == group.known,
        other.known == group.known,
        kinds(group) == two_arms(head, clause, arm, other),
        well_cut(group),
    ensures
        Expression::grammar(group, start()) matches Ok((e, _)) && instructions(e.instrs)
            == instructions(
            c.instrs + seq![i] + a.instrs + seq![AllInstructions::Other(Instruction::Else(None))@]
                + o.instrs + seq![AllInstructions::Other(Instruction::End(None))@],
        ),
{
    law_forms(i);
    law_folded_conditional_with_else(head, i, clause, c, arm, a, other, o, group);
    let code = conditional_with_else(head, i, c, a, o);
    let e = choose|e: Listing<'a>| #[trigger] is_expression(group, e) && same_code(e, code);
    reveal(is_expression);
    assert(code.instrs =~= c.instrs + seq![i] + a.instrs + seq![otherwise::<'a>()] + o.instrs
        + seq![end::<'a>()]);
}

/// The `end` and the `else` that no text spells out have no label, and their codes
/// are 0x0b and 0x05.
pub proof fn law_implied_instructions<'a>()
    ensures
        end::<'a>() == AllInstructions::<'a>::Other(Instruction::End(None))@,
        otherwise::<'a>() == AllInstructions::<'a>::Other(Instruction::Else(None))@,
        end::<'a>().encoded() == seq![0x0bu8],
        otherwise::<'a>().encoded() == seq![0x05u8],
{
    assert(end::<'a>().encoded() =~= seq![0x0bu8]);
    assert(otherwise::<'a>().encoded() =~= seq![0x05u8]);
}

/// An expression holds the instructions, branch hints and positions of its text, each
/// in its place.
pub proof fn law_what_an_expression_holds<'a>(
    input: Input<'a>,
    at: Cursor,
    e: Expression<'a>,
    o: Listing<'a>,
    to: Cursor,
)
    requires
        Expression::grammar(input, at) == Ok::<_, Error>((o, to)),
        Expression::grammar(input, at) == Ok::<_, Error>((e.ast(), to)),
    ensures
        e.instrs@.len() == o.instrs.len(),
        forall|k: int| 0 <= k < o.instrs.len() ==> (#[trigger] e.instrs@[k])@ == o.instrs[k],
        e.branch_hints@.len() == o.hints.len(),
        forall|k: int|
            0 <= k < o.hints.len() ==> (#[trigger] e.branch_hints@[k]).value == o.hints[k].value
                && e.branch_hints@[k].instr_index == o.hints[k].instr_index,
        match (e.instr_spans, o.spans) {
            (Some(spans), Some(there)) => spans@ == there,
            (None, None) => true,
            _ => false,
        },
{
    assert(e@.instrs.len() == e.instrs@.len());
    assert forall|k: int| 0 <= k < o.instrs.len() implies (#[trigger] e.instrs@[k])@
        == o.instrs[k] by {
        assert(e@.instrs[k] == e.instrs@[k]@);
    }
    assert(e@.hints.len() == e.branch_hints@.len());
    assert forall|k: int|
        0 <= k < o.hints.len() implies (#[trigger] e.branch_hints@[k]).value == o.hints[k].value
        && e.branch_hints@[k].instr_index == o.hints[k].instr_index by {
        assert(e@.hints[k] == e.branch_hints@[k]@);
    }
}

/// The value of a branch hint, 0 or 1, is the code of the one character of its text.
pub proof fn law_value_of_a_hint<'a>(input: Input<'a>, at: Cursor, text: &'a str, to: Cursor)
    requires
        input.at_annotation(at, "metadata.code.branch_hint"@),
        <&'a str>::grammar(input, input.step(at)) == Ok::<_, Error>((text, to)),
    ensures
        match branch_hint(input, at) {
            Ok((v, end)) => end == to && v <= 1 && text@ == seq![
                if v == 0 {
                    '\u{0}'
                } else {
                    '\u{1}'
                },
            ],
            Err(_) => text@ != seq!['\u{0}'] && text@ != seq!['\u{1}'],
        },
{
}

/// The first `n` operands of a folded instruction.
pub open spec fn folded_row<'a>(input: Input<'a>, at: Cursor, out: Listing<'a>, n: nat) -> Parsed<
    Listing<'a>,
>
    decreases n,
{
    if n == 0 {
        Ok((out, at))
    } else {
        match folded_only(input, at, out) {
            Ok((o, to)) => folded_row(input, to, o, (n - 1) as nat),
            Err(e) => Err(e),
        }
    }
}

proof fn lemma_folded_row<'a>(input: Input<'a>, at: Cursor, out: Listing<'a>, n: nat)
    ensures
        folded_row(input, at, out, n) matches Ok((o, to)) ==> input.at_rparen(to)
            ==> folded_operands(input, at, out) == Ok::<_, Error>((o, to)),
    decreases n,
{
    if n > 0 {
        if let Ok((o, to)) = folded_only(input, at, out) {
            lemma_folded_only_advances(input, at, out);
            lemma_folded_row(input, to, o, (n - 1) as nat);
        }
    }
}

/// A single folded instruction denotes the instructions of its operands, which are
/// folded instructions themselves, in the order of the text, and then the instruction
/// that it starts with, at the position of that one. That is so of every instruction.
pub proof fn law_single_folded_instruction<'a>(
    input: Input<'a>,
    at: Cursor,
    i: AllInstructionsAst<'a>,
    b: Cursor,
    n: nat,
    o: Listing<'a>,
    c: Cursor,
)
    requires
        input.at_lparen(at),
        AllInstructions::grammar(input, input.step(at)) == Ok::<_, Error>((i, b)),
        folded_row(input, b, Listing::empty(input.track), n) == Ok::<_, Error>((o, c)),
        input.at_rparen(c),
    ensures
        folded_only(input, at, Listing::empty(input.track)) matches Ok((p, to)) && {
            &&& p.instrs == o.instrs.push(i)
            &&& p.hints == o.hints
            &&& match (o.spans, p.spans) {
                (Some(x), Some(y)) => y == x.push(input.here(input.step(at))),
                (None, None) => true,
                _ => false,
            }
            &&& to == input.step(c)
        },
{
    lemma_folded_row(input, b, Listing::empty(input.track), n);
}

/// An instruction is a labeled one where a label stands, and any other one elsewhere.
pub proof fn law_any_instruction<'a>(
    input: Input<'a>,
    at: Cursor,
    l: LabeledInstruction<'a>,
    i: Instruction<'a>,
    to: Cursor,
)
    ensures
        ({
            let labeled = input.with_annotation("label"@);
            let all = AllInstructions::grammar(input, at);
            if input.at_annotation(at, "label"@) {
                &&& (all is Ok) == (LabeledInstruction::grammar(labeled, at) is Ok)
                &&& parsed_as(labeled, at, l, to) ==> all == Ok::<_, Error>(
                    (AllInstructions::Labeled(l)@, to),
                )
            } else {
                &&& (all is Ok) == (Instruction::grammar(labeled, at) is Ok)
                &&& parsed_as(labeled, at, i, to) ==> all == Ok::<_, Error>(
                    (AllInstructions::Other(i)@, to),
                )
            }
        }),
{
}

/// An instruction that was parsed starts with its keyword.
pub proof fn law_keywords<'a>(
    input: Input<'a>,
    at: Cursor,
    i: Instruction<'a>,
    m: MemoryInstruction<'a>,
    to: Cursor,
)
    ensures
        parsed_as(input, at, i, to) ==> input.at_keyword(at, i@.op.mnemonic()),
        parsed_as(input, at, m, to) ==> input.at_keyword(at, m.op().mnemonic()),
{
    if let Some(TokenKind::Keyword(k)) = input.tok(at) {
        if let Some(op) = Opcode::named(k@) {
            assert(op.mnemonic() == k@);
        }
        if let Some(op) = MemoryOpcode::named(k@) {
            assert(op.mnemonic() == k@);
        }
    }
}

/// At a closing parenthesis, and at the end of the text, an expression is empty.
pub proof fn law_empty_expression<'a>(input: Input<'a>, at: Cursor)
    requires
        input.at_end(at),
    ensures
        Expression::grammar(input, at) matches Ok((e, to)) && e.instrs.len() == 0 && e.hints.len()
            == 0 && to == at,
{
}

/// A single instruction is an expression.
pub proof fn law_expression_of_one<'a>(
    input: Input<'a>,
    at: Cursor,
    i: AllInstructionsAst<'a>,
    to: Cursor,
)
    requires
        AllInstructions::grammar(input, at) == Ok::<_, Error>((i, to)),
        input.at_end(to),
    ensures
        Expression::grammar(input, at) matches Ok((e, end)) && e.instrs == seq![i] && e.hints.len()
            == 0 && end == to,
{
    let o = single(input.track, i, input.here(at));
    lemma_reads_one(input, at, i, to);
    law_whole_text(input, at, 1, o, to);
    assert(o.instrs =~= seq![i]);
}

/// What is neither an instruction, nor a group, nor an end is refused.
pub proof fn law_no_expression<'a>(input: Input<'a>, at: Cursor)
    requires
        !input.at_end(at),
        !input.at_lparen(at),
        AllInstructions::grammar(input, at) is Err,
    ensures
        Expression::grammar(input, at) is Err,
{
    assert(item(input, at, Listing::empty(input.track)) is Err);
}

} // verus!
