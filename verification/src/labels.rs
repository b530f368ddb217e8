//! Information-flow labels.

use vstd::prelude::*;

use crate::encode::Encode;
use crate::instruction::{lemma_instruction_advances, Instruction, InstructionAst};
use crate::memory::MemArg;
use crate::opcode::MemoryOpcode;
use crate::parser::{Cursor, Input, Parse, Parsed, Parser, Peek};
use crate::text::same_text;
use crate::token::{Error, TokenKind};

verus! {

/// An abstract syntactic representation of an information-flow label.
///
/// Equality of labels is *syntactic* equality, not necessarily *semantic*
/// equivalence.
#[derive(Clone, Copy, Debug)]
pub enum Label<'a> {
    Id(&'a str),
}

impl<'a> Label<'a> {
    /// The text of the label.
    pub open spec fn text(self) -> Seq<char> {
        match self {
            Label::Id(name) => name@,
        }
    }
}

impl<'a> PartialEq for Label<'a> {
    fn eq(&self, other: &Self) -> (same: bool) {
        match (self, other) {
            (Label::Id(a), Label::Id(b)) => same_text(a, b),
        }
    }
}

impl<'a> vstd::std_specs::cmp::PartialEqSpecImpl for Label<'a> {
    open spec fn obeys_eq_spec() -> bool {
        true
    }

    open spec fn eq_spec(&self, other: &Self) -> bool {
        self.text() == other.text()
    }
}

impl<'a> Eq for Label<'a> {

}

impl<'a> Parse<'a> for Label<'a> {
    type Ast = Label<'a>;

    open spec fn ast(&self) -> Label<'a> {
        *self
    }

    open spec fn grammar(input: Input<'a>, at: Cursor) -> Parsed<Label<'a>> {
        match <&'a str>::grammar(input, at) {
            Ok((name, to)) => Ok((Label::Id(name), to)),
            Err(e) => Err(e),
        }
    }

    proof fn lemma_advances(input: Input<'a>, at: Cursor) {
        <&'a str>::lemma_advances(input, at);
    }

    fn parse(parser: &mut Parser<'a>) -> (r: Result<Self, Error>) {
        let name = <&'a str>::parse(parser)?;
        Ok(Label::Id(name))
    }
}

/// The annotation `@label`, with its label.
#[derive(Clone, Copy, Debug)]
pub struct LabelAnnotation<'a> {
    pub label: Label<'a>,
}

impl<'a> Peek<'a> for LabelAnnotation<'a> {
    open spec fn starts(input: Input<'a>, at: Cursor) -> bool {
        input.at_annotation(at, "label"@)
    }

    fn peek(parser: &Parser<'a>) -> (b: bool) {
        parser.peek_annotation("label")
    }
}

impl<'a> Parse<'a> for LabelAnnotation<'a> {
    type Ast = LabelAnnotation<'a>;

    open spec fn ast(&self) -> LabelAnnotation<'a> {
        *self
    }

    open spec fn grammar(input: Input<'a>, at: Cursor) -> Parsed<LabelAnnotation<'a>> {
        match input.annotation(at, "label"@, "expected annotation `@label`") {
            Ok((_, a)) => match Label::grammar(input, a) {
                Ok((label, to)) => Ok((LabelAnnotation { label }, to)),
                Err(e) => Err(e),
            },
            Err(e) => Err(e),
        }
    }

    proof fn lemma_advances(input: Input<'a>, at: Cursor) {
        input.lemma_step(at);
        Label::lemma_advances(input, input.step(at));
    }

    fn parse(parser: &mut Parser<'a>) -> (r: Result<Self, Error>) {
        let _ = parser.annotation("label", "expected annotation `@label`")?;
        let label = Label::parse(parser)?;
        Ok(LabelAnnotation { label })
    }
}

/// An instruction that accesses a memory.
#[derive(Debug, Clone)]
pub enum MemoryInstruction<'a> {
    I32Load(MemArg<'a>),
    I64Load(MemArg<'a>),
    F32Load(MemArg<'a>),
    F64Load(MemArg<'a>),
    I32Load8s(MemArg<'a>),
    I32Load8u(MemArg<'a>),
    I32Load16s(MemArg<'a>),
    I32Load16u(MemArg<'a>),
    I64Load8s(MemArg<'a>),
    I64Load8u(MemArg<'a>),
    I64Load16s(MemArg<'a>),
    I64Load16u(MemArg<'a>),
    I64Load32s(MemArg<'a>),
    I64Load32u(MemArg<'a>),
    I32Store(MemArg<'a>),
    I64Store(MemArg<'a>),
    F32Store(MemArg<'a>),
    F64Store(MemArg<'a>),
    I32Store8(MemArg<'a>),
    I32Store16(MemArg<'a>),
    I64Store8(MemArg<'a>),
    I64Store16(MemArg<'a>),
    I64Store32(MemArg<'a>),
}

impl<'a> MemoryInstruction<'a> {
    /// Which instruction this is.
    pub open spec fn op(self) -> MemoryOpcode {
        match self {
            MemoryInstruction::I32Load(_) => MemoryOpcode::I32Load,
            MemoryInstruction::I64Load(_) => MemoryOpcode::I64Load,
            MemoryInstruction::F32Load(_) => MemoryOpcode::F32Load,
            MemoryInstruction::F64Load(_) => MemoryOpcode::F64Load,
            MemoryInstruction::I32Load8s(_) => MemoryOpcode::I32Load8s,
            MemoryInstruction::I32Load8u(_) => MemoryOpcode::I32Load8u,
            MemoryInstruction::I32Load16s(_) => MemoryOpcode::I32Load16s,
            MemoryInstruction::I32Load16u(_) => MemoryOpcode::I32Load16u,
            MemoryInstruction::I64Load8s(_) => MemoryOpcode::I64Load8s,
            MemoryInstruction::I64Load8u(_) => MemoryOpcode::I64Load8u,
            MemoryInstruction::I64Load16s(_) => MemoryOpcode::I64Load16s,
            MemoryInstruction::I64Load16u(_) => MemoryOpcode::I64Load16u,
            MemoryInstruction::I64Load32s(_) => MemoryOpcode::I64Load32s,
            MemoryInstruction::I64Load32u(_) => MemoryOpcode::I64Load32u,
            MemoryInstruction::I32Store(_) => MemoryOpcode::I32Store,
            MemoryInstruction::I64Store(_) => MemoryOpcode::I64Store,
            MemoryInstruction::F32Store(_) => MemoryOpcode::F32Store,
            MemoryInstruction::F64Store(_) => MemoryOpcode::F64Store,
            MemoryInstruction::I32Store8(_) => MemoryOpcode::I32Store8,
            MemoryInstruction::I32Store16(_) => MemoryOpcode::I32Store16,
            MemoryInstruction::I64Store8(_) => MemoryOpcode::I64Store8,
            MemoryInstruction::I64Store16(_) => MemoryOpcode::I64Store16,
            MemoryInstruction::I64Store32(_) => MemoryOpcode::I64Store32,
        }
    }

    /// Where and how the instruction accesses a memory.
    pub open spec fn arg(self) -> MemArg<'a> {
        match self {
            MemoryInstruction::I32Load(arg) => arg,
            MemoryInstruction::I64Load(arg) => arg,
            MemoryInstruction::F32Load(arg) => arg,
            MemoryInstruction::F64Load(arg) => arg,
            MemoryInstruction::I32Load8s(arg) => arg,
            MemoryInstruction::I32Load8u(arg) => arg,
            MemoryInstruction::I32Load16s(arg) => arg,
            MemoryInstruction::I32Load16u(arg) => arg,
            MemoryInstruction::I64Load8s(arg) => arg,
            MemoryInstruction::I64Load8u(arg) => arg,
            MemoryInstruction::I64Load16s(arg) => arg,
            MemoryInstruction::I64Load16u(arg) => arg,
            MemoryInstruction::I64Load32s(arg) => arg,
            MemoryInstruction::I64Load32u(arg) => arg,
            MemoryInstruction::I32Store(arg) => arg,
            MemoryInstruction::I64Store(arg) => arg,
            MemoryInstruction::F32Store(arg) => arg,
            MemoryInstruction::F64Store(arg) => arg,
            MemoryInstruction::I32Store8(arg) => arg,
            MemoryInstruction::I32Store16(arg) => arg,
            MemoryInstruction::I64Store8(arg) => arg,
            MemoryInstruction::I64Store16(arg) => arg,
            MemoryInstruction::I64Store32(arg) => arg,
        }
    }

    /// The instruction `op`, with the argument `arg`.
    pub open spec fn of(op: MemoryOpcode, arg: MemArg<'a>) -> MemoryInstruction<'a> {
        match op {
            MemoryOpcode::I32Load => MemoryInstruction::I32Load(arg),
            MemoryOpcode::I64Load => MemoryInstruction::I64Load(arg),
            MemoryOpcode::F32Load => MemoryInstruction::F32Load(arg),
            MemoryOpcode::F64Load => MemoryInstruction::F64Load(arg),
            MemoryOpcode::I32Load8s => MemoryInstruction::I32Load8s(arg),
            MemoryOpcode::I32Load8u => MemoryInstruction::I32Load8u(arg),
            MemoryOpcode::I32Load16s => MemoryInstruction::I32Load16s(arg),
            MemoryOpcode::I32Load16u => MemoryInstruction::I32Load16u(arg),
            MemoryOpcode::I64Load8s => MemoryInstruction::I64Load8s(arg),
            MemoryOpcode::I64Load8u => MemoryInstruction::I64Load8u(arg),
            MemoryOpcode::I64Load16s => MemoryInstruction::I64Load16s(arg),
            MemoryOpcode::I64Load16u => MemoryInstruction::I64Load16u(arg),
            MemoryOpcode::I64Load32s => MemoryInstruction::I64Load32s(arg),
            MemoryOpcode::I64Load32u => MemoryInstruction::I64Load32u(arg),
            MemoryOpcode::I32Store => MemoryInstruction::I32Store(arg),
            MemoryOpcode::I64Store => MemoryInstruction::I64Store(arg),
            MemoryOpcode::F32Store => MemoryInstruction::F32Store(arg),
            MemoryOpcode::F64Store => MemoryInstruction::F64Store(arg),
            MemoryOpcode::I32Store8 => MemoryInstruction::I32Store8(arg),
            MemoryOpcode::I32Store16 => MemoryInstruction::I32Store16(arg),
            MemoryOpcode::I64Store8 => MemoryInstruction::I64Store8(arg),
            MemoryOpcode::I64Store16 => MemoryInstruction::I64Store16(arg),
            MemoryOpcode::I64Store32 => MemoryInstruction::I64Store32(arg),
        }
    }

    fn new(op: MemoryOpcode, arg: MemArg<'a>) -> (i: MemoryInstruction<'a>)
        ensures
            i == MemoryInstruction::of(op, arg),
    {
        match op {
            MemoryOpcode::I32Load => MemoryInstruction::I32Load(arg),
            MemoryOpcode::I64Load => MemoryInstruction::I64Load(arg),
            MemoryOpcode::F32Load => MemoryInstruction::F32Load(arg),
            MemoryOpcode::F64Load => MemoryInstruction::F64Load(arg),
            MemoryOpcode::I32Load8s => MemoryInstruction::I32Load8s(arg),
            MemoryOpcode::I32Load8u => MemoryInstruction::I32Load8u(arg),
            MemoryOpcode::I32Load16s => MemoryInstruction::I32Load16s(arg),
            MemoryOpcode::I32Load16u => MemoryInstruction::I32Load16u(arg),
            MemoryOpcode::I64Load8s => MemoryInstruction::I64Load8s(arg),
            MemoryOpcode::I64Load8u => MemoryInstruction::I64Load8u(arg),
            MemoryOpcode::I64Load16s => MemoryInstruction::I64Load16s(arg),
            MemoryOpcode::I64Load16u => MemoryInstruction::I64Load16u(arg),
            MemoryOpcode::I64Load32s => MemoryInstruction::I64Load32s(arg),
            MemoryOpcode::I64Load32u => MemoryInstruction::I64Load32u(arg),
            MemoryOpcode::I32Store => MemoryInstruction::I32Store(arg),
            MemoryOpcode::I64Store => MemoryInstruction::I64Store(arg),
            MemoryOpcode::F32Store => MemoryInstruction::F32Store(arg),
            MemoryOpcode::F64Store => MemoryInstruction::F64Store(arg),
            MemoryOpcode::I32Store8 => MemoryInstruction::I32Store8(arg),
            MemoryOpcode::I32Store16 => MemoryInstruction::I32Store16(arg),
            MemoryOpcode::I64Store8 => MemoryInstruction::I64Store8(arg),
            MemoryOpcode::I64Store16 => MemoryInstruction::I64Store16(arg),
            MemoryOpcode::I64Store32 => MemoryInstruction::I64Store32(arg),
        }
    }

    /// Tells which instruction this is.
    pub fn opcode(&self) -> (op: MemoryOpcode)
        ensures
            op == self.op(),
    {
        match self {
            MemoryInstruction::I32Load(_) => MemoryOpcode::I32Load,
            MemoryInstruction::I64Load(_) => MemoryOpcode::I64Load,
            MemoryInstruction::F32Load(_) => MemoryOpcode::F32Load,
            MemoryInstruction::F64Load(_) => MemoryOpcode::F64Load,
            MemoryInstruction::I32Load8s(_) => MemoryOpcode::I32Load8s,
            MemoryInstruction::I32Load8u(_) => MemoryOpcode::I32Load8u,
            MemoryInstruction::I32Load16s(_) => MemoryOpcode::I32Load16s,
            MemoryInstruction::I32Load16u(_) => MemoryOpcode::I32Load16u,
            MemoryInstruction::I64Load8s(_) => MemoryOpcode::I64Load8s,
            MemoryInstruction::I64Load8u(_) => MemoryOpcode::I64Load8u,
            MemoryInstruction::I64Load16s(_) => MemoryOpcode::I64Load16s,
            MemoryInstruction::I64Load16u(_) => MemoryOpcode::I64Load16u,
            MemoryInstruction::I64Load32s(_) => MemoryOpcode::I64Load32s,
            MemoryInstruction::I64Load32u(_) => MemoryOpcode::I64Load32u,
            MemoryInstruction::I32Store(_) => MemoryOpcode::I32Store,
            MemoryInstruction::I64Store(_) => MemoryOpcode::I64Store,
            MemoryInstruction::F32Store(_) => MemoryOpcode::F32Store,
            MemoryInstruction::F64Store(_) => MemoryOpcode::F64Store,
            MemoryInstruction::I32Store8(_) => MemoryOpcode::I32Store8,
            MemoryInstruction::I32Store16(_) => MemoryOpcode::I32Store16,
            MemoryInstruction::I64Store8(_) => MemoryOpcode::I64Store8,
            MemoryInstruction::I64Store16(_) => MemoryOpcode::I64Store16,
            MemoryInstruction::I64Store32(_) => MemoryOpcode::I64Store32,
        }
    }

    /// Tells where and how the instruction accesses a memory.
    pub fn memarg(&self) -> (arg: &MemArg<'a>)
        ensures
            *arg == self.arg(),
    {
        match self {
            MemoryInstruction::I32Load(arg) => arg,
            MemoryInstruction::I64Load(arg) => arg,
            MemoryInstruction::F32Load(arg) => arg,
            MemoryInstruction::F64Load(arg) => arg,
            MemoryInstruction::I32Load8s(arg) => arg,
            MemoryInstruction::I32Load8u(arg) => arg,
            MemoryInstruction::I32Load16s(arg) => arg,
            MemoryInstruction::I32Load16u(arg) => arg,
            MemoryInstruction::I64Load8s(arg) => arg,
            MemoryInstruction::I64Load8u(arg) => arg,
            MemoryInstruction::I64Load16s(arg) => arg,
            MemoryInstruction::I64Load16u(arg) => arg,
            MemoryInstruction::I64Load32s(arg) => arg,
            MemoryInstruction::I64Load32u(arg) => arg,
            MemoryInstruction::I32Store(arg) => arg,
            MemoryInstruction::I64Store(arg) => arg,
            MemoryInstruction::F32Store(arg) => arg,
            MemoryInstruction::F64Store(arg) => arg,
            MemoryInstruction::I32Store8(arg) => arg,
            MemoryInstruction::I32Store16(arg) => arg,
            MemoryInstruction::I64Store8(arg) => arg,
            MemoryInstruction::I64Store16(arg) => arg,
            MemoryInstruction::I64Store32(arg) => arg,
        }
    }

    /// Returns the associated [`MemArg`], which each of these instructions has.
    pub fn memarg_mut(&mut self) -> (r: Option<&mut MemArg<'a>>)
        ensures
            match r {
                Some(arg) => {
                    &&& *arg == old(self).arg()
                    &&& *final(self) == MemoryInstruction::of(old(self).op(), *final(arg))
                },
                None => false,
            },
    {
        match self {
            MemoryInstruction::I32Load(arg) => Some(arg),
            MemoryInstruction::I64Load(arg) => Some(arg),
            MemoryInstruction::F32Load(arg) => Some(arg),
            MemoryInstruction::F64Load(arg) => Some(arg),
            MemoryInstruction::I32Load8s(arg) => Some(arg),
            MemoryInstruction::I32Load8u(arg) => Some(arg),
            MemoryInstruction::I32Load16s(arg) => Some(arg),
            MemoryInstruction::I32Load16u(arg) => Some(arg),
            MemoryInstruction::I64Load8s(arg) => Some(arg),
            MemoryInstruction::I64Load8u(arg) => Some(arg),
            MemoryInstruction::I64Load16s(arg) => Some(arg),
            MemoryInstruction::I64Load16u(arg) => Some(arg),
            MemoryInstruction::I64Load32s(arg) => Some(arg),
            MemoryInstruction::I64Load32u(arg) => Some(arg),
            MemoryInstruction::I32Store(arg) => Some(arg),
            MemoryInstruction::I64Store(arg) => Some(arg),
            MemoryInstruction::F32Store(arg) => Some(arg),
            MemoryInstruction::F64Store(arg) => Some(arg),
            MemoryInstruction::I32Store8(arg) => Some(arg),
            MemoryInstruction::I32Store16(arg) => Some(arg),
            MemoryInstruction::I64Store8(arg) => Some(arg),
            MemoryInstruction::I64Store16(arg) => Some(arg),
            MemoryInstruction::I64Store32(arg) => Some(arg),
        }
    }
}

/// The keyword of an instruction, and its argument.
impl<'a> Parse<'a> for MemoryInstruction<'a> {
    type Ast = MemoryInstruction<'a>;

    open spec fn ast(&self) -> MemoryInstruction<'a> {
        *self
    }

    open spec fn grammar(input: Input<'a>, at: Cursor) -> Parsed<MemoryInstruction<'a>> {
        match input.tok(at) {
            Some(TokenKind::Keyword(k)) => match MemoryOpcode::named(k@) {
                Some(op) => match MemArg::grammar(input, input.step(at), op.natural_align()) {
                    Ok((arg, to)) => Ok((MemoryInstruction::of(op, arg), to)),
                    Err(e) => Err(e),
                },
                None => input.fail(at, "unknown operator or unexpected token"),
            },
            _ => input.fail(at, "expected an instruction"),
        }
    }

    proof fn lemma_advances(input: Input<'a>, at: Cursor) {
        input.lemma_step(at);
        if let Some(TokenKind::Keyword(k)) = input.tok(at) {
            if let Some(op) = MemoryOpcode::named(k@) {
                MemArg::lemma_advances(input, input.step(at), op.natural_align());
            }
        }
    }

    fn parse(parser: &mut Parser<'a>) -> (r: Result<Self, Error>) {
        match parser.token() {
            Some(TokenKind::Keyword(k)) => {
                match MemoryOpcode::find(k) {
                    Some(op) => {
                        parser.advance();
                        let arg = MemArg::parse(parser, op.default_align())?;
                        Ok(MemoryInstruction::new(op, arg))
                    },
                    None => Err(parser.error("unknown operator or unexpected token")),
                }
            },
            _ => Err(parser.error("expected an instruction")),
        }
    }
}

/// The code of an instruction, and its argument.
impl<'a> Encode for MemoryInstruction<'a> {
    open spec fn encodable(&self) -> bool {
        self.arg().encodable()
    }

    open spec fn encoded(&self) -> Seq<u8> {
        seq![self.op().byte()] + self.arg().encoded()
    }

    fn encode(&self, out: &mut Vec<u8>) {
        out.push(self.opcode().code());
        self.memarg().encode(out);
        assert(out@ =~= old(out)@ + self.encoded());
    }
}

/// An instruction that accesses a memory, with the label of the data that it
/// loads or stores.
#[derive(Debug)]
pub struct LabeledInstruction<'a> {
    pub label: LabelAnnotation<'a>,
    pub instruction: MemoryInstruction<'a>,
}

impl<'a> Parse<'a> for LabeledInstruction<'a> {
    type Ast = LabeledInstruction<'a>;

    open spec fn ast(&self) -> LabeledInstruction<'a> {
        *self
    }

    open spec fn grammar(input: Input<'a>, at: Cursor) -> Parsed<LabeledInstruction<'a>> {
        match LabelAnnotation::grammar(input, at) {
            Ok((label, a)) => match MemoryInstruction::grammar(input, a) {
                Ok((instruction, to)) => Ok((LabeledInstruction { label, instruction }, to)),
                Err(e) => Err(e),
            },
            Err(e) => Err(e),
        }
    }

    proof fn lemma_advances(input: Input<'a>, at: Cursor) {
        LabelAnnotation::lemma_advances(input, at);
        if let Ok((_, a)) = LabelAnnotation::grammar(input, at) {
            MemoryInstruction::lemma_advances(input, a);
        }
    }

    fn parse(parser: &mut Parser<'a>) -> (r: Result<Self, Error>) {
        let label = LabelAnnotation::parse(parser)?;
        let instruction = MemoryInstruction::parse(parser)?;
        Ok(LabeledInstruction { label, instruction })
    }
}

/// Any instruction: one that accesses a memory, which must be labeled, or
/// another one, which cannot be.
#[derive(Debug)]
pub enum AllInstructions<'a> {
    Labeled(LabeledInstruction<'a>),
    Other(Instruction<'a>),
}

/// The parts of an instruction.
pub enum AllInstructionsAst<'a> {
    Labeled(LabeledInstruction<'a>),
    Other(InstructionAst<'a>),
}

impl<'a> View for AllInstructions<'a> {
    type V = AllInstructionsAst<'a>;

    open spec fn view(&self) -> AllInstructionsAst<'a> {
        match self {
            AllInstructions::Labeled(l) => AllInstructionsAst::Labeled(*l),
            AllInstructions::Other(i) => AllInstructionsAst::Other(i@),
        }
    }
}

/// A labeled instruction where a label stands, and another one elsewhere. The
/// annotation `@label` is registered.
pub open spec fn any_instruction<'a>(labeled: Input<'a>, at: Cursor) -> Parsed<
    AllInstructionsAst<'a>,
> {
    if LabelAnnotation::starts(labeled, at) {
        match LabeledInstruction::grammar(labeled, at) {
            Ok((l, to)) => Ok((AllInstructionsAst::Labeled(l), to)),
            Err(e) => Err(e),
        }
    } else {
        match Instruction::grammar(labeled, at) {
            Ok((i, to)) => Ok((AllInstructionsAst::Other(i), to)),
            Err(e) => Err(e),
        }
    }
}

/// An instruction moves the cursor on.
pub proof fn lemma_any_instruction_advances<'a>(input: Input<'a>, at: Cursor)
    ensures
        AllInstructions::grammar(input, at) matches Ok((_, to)) ==> at.pos < to.pos,
{
    let labeled = input.with_annotation("label"@);
    lemma_instruction_advances(labeled, at);
    labeled.lemma_step(at);
    Label::lemma_advances(labeled, labeled.step(at));
    if let Ok((_, a)) = LabelAnnotation::grammar(labeled, at) {
        MemoryInstruction::lemma_advances(labeled, a);
    }
}

fn parse_any_instruction<'a>(parser: &mut Parser<'a>) -> (r: Result<AllInstructions<'a>, Error>)
    requires
        old(parser).wf(),
    ensures
        final(parser).same_source(old(parser)),
        match r {
            Ok(i) => any_instruction(old(parser).input(), old(parser).at()) == Ok::<_, Error>(
                (i@, final(parser).at()),
            ),
            Err(e) => any_instruction(old(parser).input(), old(parser).at()) == Err::<
                (AllInstructionsAst<'a>, Cursor),
                Error,
            >(e),
        },
{
    if LabelAnnotation::peek(parser) {
        let l = LabeledInstruction::parse(parser)?;
        Ok(AllInstructions::Labeled(l))
    } else {
        let i = Instruction::parse(parser)?;
        Ok(AllInstructions::Other(i))
    }
}

impl<'a> Parse<'a> for AllInstructions<'a> {
    type Ast = AllInstructionsAst<'a>;

    open spec fn ast(&self) -> AllInstructionsAst<'a> {
        self@
    }

    open spec fn grammar(input: Input<'a>, at: Cursor) -> Parsed<AllInstructionsAst<'a>> {
        any_instruction(input.with_annotation("label"@), at)
    }

    proof fn lemma_advances(input: Input<'a>, at: Cursor) {
        lemma_any_instruction_advances(input, at);
    }

    fn parse(parser: &mut Parser<'a>) -> (r: Result<Self, Error>) {
        parser.register_annotation("label");
        let r = parse_any_instruction(parser);
        parser.unregister_annotation();
        assert(old(parser).input().with_annotation("label"@).known.drop_last()
            =~= old(parser).input().known);
        r
    }
}

impl<'a> AllInstructionsAst<'a> {
    pub open spec fn encodable(self) -> bool {
        match self {
            AllInstructionsAst::Labeled(l) => l.instruction.encodable(),
            AllInstructionsAst::Other(i) => i.encodable(),
        }
    }

    pub open spec fn encoded(self) -> Seq<u8> {
        match self {
            AllInstructionsAst::Labeled(l) => l.instruction.encoded(),
            AllInstructionsAst::Other(i) => i.encoded(),
        }
    }
}

/// The instruction alone: labels leave nothing in the binary form.
impl<'a> Encode for AllInstructions<'a> {
    open spec fn encodable(&self) -> bool {
        self@.encodable()
    }

    open spec fn encoded(&self) -> Seq<u8> {
        self@.encoded()
    }

    fn encode(&self, out: &mut Vec<u8>) {
        match self {
            AllInstructions::Labeled(l) => l.instruction.encode(out),
            AllInstructions::Other(i) => i.encode(out),
        }
    }
}

impl<'a> AllInstructions<'a> {
    /// Tells whether a module with this instruction must tell the number of its
    /// data segments ahead of its code. Each labeled instruction counts as one
    /// that does.
    pub fn needs_data_count(&self) -> (b: bool)
        ensures
            b == match self@ {
                AllInstructionsAst::Labeled(_) => true,
                AllInstructionsAst::Other(i) => i.op is MemoryInit || i.op is DataDrop,
            },
    {
        match self {
            AllInstructions::Labeled(_) => true,
            AllInstructions::Other(i) => i.needs_data_count(),
        }
    }

    /// Returns the associated [`MemArg`] if one is available for this
    /// instruction, which is so exactly where the instruction is labeled.
    pub fn memarg_mut(&mut self) -> (r: Option<&mut MemArg<'a>>)
        ensures
            match r {
                Some(arg) => {
                    &&& *old(self) matches AllInstructions::Labeled(l)
                    &&& *arg == l.instruction.arg()
                    &&& *final(self) == AllInstructions::Labeled(
                        LabeledInstruction {
                            label: l.label,
                            instruction: MemoryInstruction::of(l.instruction.op(), *final(arg)),
                        },
                    )
                },
                None => *old(self) is Other && *final(self) == *old(self),
            },
    {
        match self {
            AllInstructions::Labeled(l) => l.instruction.memarg_mut(),
            AllInstructions::Other(i) => i.memarg_mut(),
        }
    }
}

} // verus!
