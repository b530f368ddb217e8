//! The grammar of expressions: what a text of nested groups denotes as a flat
//! list of instructions.
//!
//! The rules take the instructions found so far and give back those with their
//! own behind them. Each rule moves the cursor on where it succeeds. Some rules
//! test for that before they go on, since the definitions would not be
//! well-founded otherwise; the lemmas at the end show that the tests hold.

use vstd::prelude::*;

use crate::instruction::{InstructionAst, Operand};
use crate::labels::{lemma_any_instruction_advances, AllInstructions, AllInstructionsAst};
use crate::opcode::Opcode;
use crate::parser::{Cursor, Input, Parse, Parsed};
use crate::token::{Error, Span};

verus! {

/// A branch hint: the place of the instruction that it applies to, and its value.
pub struct Hint {
    pub instr_index: nat,
    pub value: u32,
}

/// A flat list of instructions, with the branch hints that apply to some of them,
/// and the position of each instruction where those are recorded. The value of a
/// branch hint is pending until the instruction that it stands before is found.
#[verifier::ext_equal]
pub struct Listing<'a> {
    pub instrs: Seq<AllInstructionsAst<'a>>,
    pub hints: Seq<Hint>,
    pub spans: Option<Seq<Span>>,
    pub pending: Option<u32>,
}

impl<'a> Listing<'a> {
    /// No instruction.
    pub open spec fn empty(track: bool) -> Listing<'a> {
        Listing {
            instrs: Seq::empty(),
            hints: Seq::empty(),
            spans: if track {
                Some(Seq::empty())
            } else {
                None
            },
            pending: None,
        }
    }

    /// One more instruction.
    pub open spec fn push(self, instr: AllInstructionsAst<'a>, span: Span) -> Listing<'a> {
        Listing {
            instrs: self.instrs.push(instr),
            spans: match self.spans {
                Some(spans) => Some(spans.push(span)),
                None => None,
            },
            ..self
        }
    }

    /// A branch hint has been found.
    pub open spec fn hint(self, value: u32) -> Listing<'a> {
        Listing { pending: Some(value), ..self }
    }

    /// No branch hint is pending any more.
    pub open spec fn unhinted(self) -> Listing<'a> {
        Listing { pending: None, ..self }
    }

    /// A branch hint, if there is one, applies to the instruction that is pushed
    /// next.
    pub open spec fn note(self, hint: Option<u32>) -> Listing<'a> {
        match hint {
            Some(value) => Listing {
                hints: self.hints.push(Hint { instr_index: self.instrs.len(), value }),
                ..self
            },
            None => self,
        }
    }

    /// A branch hint is pending that cannot apply to `instr`.
    pub open spec fn refuses(self, instr: AllInstructionsAst<'a>) -> bool {
        self.pending is Some && !takes_hint(instr)
    }
}

/// The instructions that a branch hint can apply to.
pub open spec fn takes_hint<'a>(instr: AllInstructionsAst<'a>) -> bool {
    match instr {
        AllInstructionsAst::Labeled(_) => false,
        AllInstructionsAst::Other(i) => i.op is If || i.op is BrIf,
    }
}

/// The error where something else than `br_if` or `if` follows a branch hint.
pub open spec fn stray_hint<'a, T>(input: Input<'a>, at: Cursor) -> Parsed<T> {
    input.fail(at, "a branch hint must be followed by `br_if` or `if`")
}

/// `end`, without a label.
pub open spec fn end<'a>() -> AllInstructionsAst<'a> {
    AllInstructionsAst::Other(
        InstructionAst { op: Opcode::End, operand: Operand::OptionalId(None) },
    )
}

/// `else`, without a label.
pub open spec fn otherwise<'a>() -> AllInstructionsAst<'a> {
    AllInstructionsAst::Other(
        InstructionAst { op: Opcode::Else, operand: Operand::OptionalId(None) },
    )
}

/// What becomes of a group that starts with an instruction.
pub enum Form {
    /// The instruction opens a block, which the group holds and ends.
    Block,
    /// The instruction opens a conditional, which has groups of its own.
    Conditional,
    /// The instruction comes last, behind what the group holds.
    Plain,
}

/// What becomes of a group that starts with `instr`.
pub open spec fn form<'a>(instr: AllInstructionsAst<'a>) -> Form {
    match instr {
        AllInstructionsAst::Labeled(_) => Form::Plain,
        AllInstructionsAst::Other(i) => match i.op {
            Opcode::Block | Opcode::Loop | Opcode::TryTable => Form::Block,
            Opcode::If => Form::Conditional,
            _ => Form::Plain,
        },
    }
}

/// The value that a branch hint is written as.
pub open spec fn hint_value(text: Seq<char>) -> Option<u32> {
    if text == seq!['\0'] {
        Some(0)
    } else if text == seq!['\u{1}'] {
        Some(1)
    } else {
        None
    }
}

/// A branch hint, without the parentheses around it.
pub open spec fn branch_hint<'a>(input: Input<'a>, at: Cursor) -> Parsed<u32> {
    match input.annotation(
        at,
        "metadata.code.branch_hint"@,
        "expected annotation `@metadata.code.branch_hint`",
    ) {
        Ok((_, a)) => match <&'a str>::grammar(input, a) {
            Ok((text, to)) => match hint_value(text@) {
                Some(value) => Ok((value, to)),
                None => input.fail(to, "invalid value for branch hint"),
            },
            Err(e) => Err(e),
        },
        Err(e) => Err(e),
    }
}

pub proof fn lemma_branch_hint_advances<'a>(input: Input<'a>, at: Cursor)
    ensures
        branch_hint(input, at) matches Ok((_, to)) ==> at.pos < to.pos,
{
    input.lemma_step(at);
    <&'a str>::lemma_advances(input, input.step(at));
}

/// An instruction or a group.
pub open spec fn item<'a>(input: Input<'a>, at: Cursor, out: Listing<'a>) -> Parsed<Listing<'a>>
    decreases input.left(at), 0nat,
{
    if input.at_lparen(at) {
        proof {
            input.lemma_step(at);
        }
        folded(input, input.step(at), out)
    } else {
        match AllInstructions::grammar(input, at) {
            Ok((i, to)) => if out.refuses(i) {
                stray_hint(input, at)
            } else {
                Ok((out.unhinted().note(out.pending).push(i, input.here(at)), to))
            },
            Err(e) => Err(e),
        }
    }
}

/// Instructions and groups up to a closing parenthesis or the end of the text.
pub open spec fn items<'a>(input: Input<'a>, at: Cursor, out: Listing<'a>) -> Parsed<Listing<'a>>
    decreases input.left(at), 1nat,
{
    if input.at_end(at) {
        Ok((out, at))
    } else {
        match item(input, at, out) {
            Ok((o, to)) => if at.pos < to.pos {
                items(input, to, o)
            } else {
                Ok((o, to))
            },
            Err(e) => Err(e),
        }
    }
}

/// Instructions and groups, behind which no branch hint is pending.
pub open spec fn expression<'a>(input: Input<'a>, at: Cursor, out: Listing<'a>) -> Parsed<
    Listing<'a>,
> {
    match items(input, at, out) {
        Ok((o, to)) => if o.pending is Some {
            stray_hint(input, to)
        } else {
            Ok((o, to))
        },
        Err(e) => Err(e),
    }
}

/// The rest of a group, up to and with its closing parenthesis. The second value
/// is where that stands.
pub open spec fn group_items<'a>(input: Input<'a>, at: Cursor, out: Listing<'a>) -> Parsed<
    (Listing<'a>, Span),
>
    decreases input.left(at), 2nat,
{
    match items(input, at, out) {
        Ok((o, to)) => if input.at_rparen(to) {
            Ok(((o, input.here(to)), input.step(to)))
        } else {
            input.fail(to, "expected an instruction")
        },
        Err(e) => Err(e),
    }
}

/// The rest of a group, behind which no branch hint is pending.
pub open spec fn group_rest<'a>(input: Input<'a>, at: Cursor, out: Listing<'a>) -> Parsed<
    (Listing<'a>, Span),
>
    decreases input.left(at), 3nat,
{
    match group_items(input, at, out) {
        Ok(((o, close), to)) => if o.pending is Some {
            Err(Error { span: close, msg: "a branch hint must be followed by `br_if` or `if`" })
        } else {
            Ok(((o, close), to))
        },
        Err(e) => Err(e),
    }
}

/// A group, behind its opening parenthesis.
pub open spec fn folded<'a>(input: Input<'a>, at: Cursor, out: Listing<'a>) -> Parsed<Listing<'a>>
    decreases input.left(at), 4nat,
{
    if input.at_annotation(at, "metadata.code.branch_hint"@) {
        proof {
            lemma_branch_hint_advances(input, at);
        }
        if out.pending is Some {
            stray_hint(input, at)
        } else {
            match branch_hint(input, at) {
                Ok((value, a)) => match group_items(input, a, out.hint(value)) {
                    Ok(((o, _), to)) => Ok((o, to)),
                    Err(e) => Err(e),
                },
                Err(e) => Err(e),
            }
        }
    } else {
        proof {
            lemma_any_instruction_advances(input, at);
        }
        let span = input.here(at);
        let hint = out.pending;
        match AllInstructions::grammar(input, at) {
            Ok((i, a)) => if out.refuses(i) {
                stray_hint(input, at)
            } else {
                match form(i) {
                    Form::Block => match group_rest(input, a, out.unhinted().push(i, span)) {
                        Ok(((o, close), to)) => Ok((o.push(end(), close), to)),
                        Err(e) => Err(e),
                    },
                    Form::Conditional => if_clause(input, a, out.unhinted(), i, span, hint),
                    Form::Plain => match group_rest(input, a, out.unhinted()) {
                        Ok(((o, _), to)) => Ok((o.note(hint).push(i, span), to)),
                        Err(e) => Err(e),
                    },
                }
            },
            Err(e) => Err(e),
        }
    }
}

/// The clause of a conditional, and what follows it. The instruction itself, `i`,
/// comes behind its clause, and so does the branch hint that applies to it.
pub open spec fn if_clause<'a>(
    input: Input<'a>,
    at: Cursor,
    out: Listing<'a>,
    i: AllInstructionsAst<'a>,
    span: Span,
    hint: Option<u32>,
) -> Parsed<Listing<'a>>
    decreases input.left(at), 1nat,
{
    let a = input.step(at);
    if input.at_rparen(at) {
        input.fail(a, "previous `if` had no `then`")
    } else if input.at_end(at) {
        input.fail(at, "expected an instruction")
    } else if !input.at_lparen(at) {
        input.fail(at, "expected `(`")
    } else {
        proof {
            input.lemma_step(at);
            input.lemma_step(a);
        }
        if input.at_keyword(a, "then"@) {
            if out.pending is Some {
                stray_hint(input, a)
            } else {
                match group_rest(input, input.step(a), out.note(hint).push(i, span)) {
                    Ok(((o, _), to)) => if at.pos < to.pos {
                        if_then(input, to, o)
                    } else {
                        Ok((o, to))
                    },
                    Err(e) => Err(e),
                }
            }
        } else {
            match folded(input, a, out) {
                Ok((o, to)) => if at.pos < to.pos {
                    if_clause(input, to, o, i, span, hint)
                } else {
                    Ok((o, to))
                },
                Err(e) => Err(e),
            }
        }
    }
}

/// What follows the first arm of a conditional: nothing, or the second arm.
pub open spec fn if_then<'a>(input: Input<'a>, at: Cursor, out: Listing<'a>) -> Parsed<
    Listing<'a>,
>
    decreases input.left(at), 1nat,
{
    let a = input.step(at);
    if input.at_rparen(at) {
        Ok((out.push(end(), input.here(at)), a))
    } else if input.at_end(at) {
        input.fail(at, "expected an instruction")
    } else if !input.at_lparen(at) {
        input.fail(at, "expected `(`")
    } else {
        match input.keyword(a, "else"@, "expected keyword `else`") {
            Ok((span, b)) => {
                proof {
                    input.lemma_step(at);
                    input.lemma_step(a);
                }
                match group_rest(input, b, out.push(otherwise(), span)) {
                    Ok(((o, _), to)) => if_else(input, to, o),
                    Err(e) => Err(e),
                }
            },
            Err(e) => Err(e),
        }
    }
}

/// What follows the second arm of a conditional: nothing.
pub open spec fn if_else<'a>(input: Input<'a>, at: Cursor, out: Listing<'a>) -> Parsed<
    Listing<'a>,
> {
    let a = input.step(at);
    if input.at_rparen(at) {
        Ok((out.push(end(), input.here(at)), a))
    } else if input.at_end(at) {
        input.fail(at, "expected an instruction")
    } else if !input.at_lparen(at) {
        input.fail(at, "expected `(`")
    } else {
        input.fail(a, "unexpected token: too many payloads inside of `(if)`")
    }
}

/// A group that holds an instruction and nothing but groups of that kind.
pub open spec fn folded_only<'a>(input: Input<'a>, at: Cursor, out: Listing<'a>) -> Parsed<
    Listing<'a>,
>
    decreases input.left(at), 0nat,
{
    if input.at_lparen(at) {
        let a = input.step(at);
        proof {
            input.lemma_step(at);
            lemma_any_instruction_advances(input, a);
        }
        match AllInstructions::grammar(input, a) {
            Ok((i, b)) => match folded_operands(input, b, out) {
                Ok((o, c)) => Ok((o.push(i, input.here(a)), input.step(c))),
                Err(e) => Err(e),
            },
            Err(e) => Err(e),
        }
    } else {
        input.fail(at, "expected to continue a folded instruction")
    }
}

/// The groups up to a closing parenthesis.
pub open spec fn folded_operands<'a>(input: Input<'a>, at: Cursor, out: Listing<'a>) -> Parsed<
    Listing<'a>,
>
    decreases input.left(at), 1nat,
{
    if input.at_rparen(at) {
        Ok((out, at))
    } else {
        match folded_only(input, at, out) {
            Ok((o, to)) => if input.at_lparen(at) && at.pos < to.pos {
                folded_operands(input, to, o)
            } else {
                Ok((o, to))
            },
            Err(e) => Err(e),
        }
    }
}

pub proof fn lemma_item_advances<'a>(input: Input<'a>, at: Cursor, out: Listing<'a>)
    ensures
        item(input, at, out) matches Ok((_, to)) ==> at.pos < to.pos,
    decreases input.left(at), 0nat,
{
    if input.at_lparen(at) {
        input.lemma_step(at);
        lemma_folded_advances(input, input.step(at), out);
    } else {
        lemma_any_instruction_advances(input, at);
    }
}

pub proof fn lemma_items_advance<'a>(input: Input<'a>, at: Cursor, out: Listing<'a>)
    ensures
        items(input, at, out) matches Ok((_, to)) ==> at.pos <= to.pos && input.at_end(to),
    decreases input.left(at), 1nat,
{
    if !input.at_end(at) {
        lemma_item_advances(input, at, out);
        if let Ok((o, to)) = item(input, at, out) {
            lemma_items_advance(input, to, o);
        }
    }
}

pub proof fn lemma_group_items_advance<'a>(input: Input<'a>, at: Cursor, out: Listing<'a>)
    ensures
        group_items(input, at, out) matches Ok((_, to)) ==> at.pos < to.pos,
    decreases input.left(at), 2nat,
{
    lemma_items_advance(input, at, out);
    if let Ok((_, to)) = items(input, at, out) {
        input.lemma_step(to);
    }
}

pub proof fn lemma_group_rest_advances<'a>(input: Input<'a>, at: Cursor, out: Listing<'a>)
    ensures
        group_rest(input, at, out) matches Ok((_, to)) ==> at.pos < to.pos,
    decreases input.left(at), 3nat,
{
    lemma_group_items_advance(input, at, out);
}

pub proof fn lemma_folded_advances<'a>(input: Input<'a>, at: Cursor, out: Listing<'a>)
    ensures
        folded(input, at, out) matches Ok((_, to)) ==> at.pos < to.pos,
    decreases input.left(at), 4nat,
{
    if input.at_annotation(at, "metadata.code.branch_hint"@) {
        lemma_branch_hint_advances(input, at);
        if let Ok((value, a)) = branch_hint(input, at) {
            lemma_group_items_advance(input, a, out.hint(value));
        }
    } else {
        lemma_any_instruction_advances(input, at);
        if let Ok((i, a)) = AllInstructions::grammar(input, at) {
            let bare = out.unhinted();
            lemma_group_rest_advances(input, a, bare.push(i, input.here(at)));
            lemma_group_rest_advances(input, a, bare);
            lemma_if_clause_advances(input, a, bare, i, input.here(at), out.pending);
        }
    }
}

pub proof fn lemma_if_clause_advances<'a>(
    input: Input<'a>,
    at: Cursor,
    out: Listing<'a>,
    i: AllInstructionsAst<'a>,
    span: Span,
    hint: Option<u32>,
)
    ensures
        if_clause(input, at, out, i, span, hint) matches Ok((_, to)) ==> at.pos < to.pos,
    decreases input.left(at), 1nat,
{
    if input.at_lparen(at) {
        let a = input.step(at);
        let b = input.step(a);
        input.lemma_step(at);
        input.lemma_step(a);
        if input.at_keyword(a, "then"@) {
            let arm = out.note(hint).push(i, span);
            lemma_group_rest_advances(input, b, arm);
            if let Ok(((o, _), to)) = group_rest(input, b, arm) {
                lemma_if_then_advances(input, to, o);
            }
        } else {
            lemma_folded_advances(input, a, out);
            if let Ok((o, to)) = folded(input, a, out) {
                lemma_if_clause_advances(input, to, o, i, span, hint);
            }
        }
    }
}

pub proof fn lemma_if_then_advances<'a>(input: Input<'a>, at: Cursor, out: Listing<'a>)
    ensures
        if_then(input, at, out) matches Ok((_, to)) ==> at.pos < to.pos,
    decreases input.left(at), 1nat,
{
    let a = input.step(at);
    let b = input.step(a);
    input.lemma_step(at);
    input.lemma_step(a);
    if input.at_lparen(at) && input.at_keyword(a, "else"@) {
        let arm = out.push(otherwise(), input.here(a));
        lemma_group_rest_advances(input, b, arm);
        if let Ok(((_, _), to)) = group_rest(input, b, arm) {
            input.lemma_step(to);
        }
    }
}

pub proof fn lemma_folded_only_advances<'a>(input: Input<'a>, at: Cursor, out: Listing<'a>)
    ensures
        folded_only(input, at, out) matches Ok((_, to)) ==> input.at_lparen(at) && at.pos < to.pos,
    decreases input.left(at), 0nat,
{
    if input.at_lparen(at) {
        let a = input.step(at);
        input.lemma_step(at);
        lemma_any_instruction_advances(input, a);
        if let Ok((_, b)) = AllInstructions::grammar(input, a) {
            lemma_folded_operands_advance(input, b, out);
            if let Ok((_, c)) = folded_operands(input, b, out) {
                input.lemma_step(c);
            }
        }
    }
}

pub proof fn lemma_folded_operands_advance<'a>(input: Input<'a>, at: Cursor, out: Listing<'a>)
    ensures
        folded_operands(input, at, out) matches Ok((_, to)) ==> at.pos <= to.pos
            && input.at_rparen(to),
    decreases input.left(at), 1nat,
{
    if !input.at_rparen(at) {
        lemma_folded_only_advances(input, at, out);
        if let Ok((o, to)) = folded_only(input, at, out) {
            lemma_folded_operands_advance(input, to, o);
        }
    }
}

/// A single folded instruction has no branch hints.
pub proof fn lemma_folded_only_keeps_hints<'a>(input: Input<'a>, at: Cursor, out: Listing<'a>)
    ensures
        folded_only(input, at, out) matches Ok((o, _)) ==> o.hints == out.hints && o.pending
            == out.pending,
    decreases input.left(at), 0nat,
{
    if input.at_lparen(at) {
        let a = input.step(at);
        input.lemma_step(at);
        lemma_any_instruction_advances(input, a);
        if let Ok((_, b)) = AllInstructions::grammar(input, a) {
            lemma_folded_operands_keep_hints(input, b, out);
        }
    }
}

pub proof fn lemma_folded_operands_keep_hints<'a>(input: Input<'a>, at: Cursor, out: Listing<'a>)
    ensures
        folded_operands(input, at, out) matches Ok((o, _)) ==> o.hints == out.hints && o.pending
            == out.pending,
    decreases input.left(at), 1nat,
{
    if !input.at_rparen(at) {
        lemma_folded_only_advances(input, at, out);
        lemma_folded_only_keeps_hints(input, at, out);
        if let Ok((o, to)) = folded_only(input, at, out) {
            lemma_folded_operands_keep_hints(input, to, o);
        }
    }
}

} // verus!
