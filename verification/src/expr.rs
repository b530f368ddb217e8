//! Expressions: lists of instructions.

use vstd::prelude::*;
use vstd::string::StrSliceExecFns;

use crate::grammar::{
    branch_hint, end, expression, folded, folded_only, folded_operands, form, group_items,
    group_rest, hint_value, if_clause, if_else, if_then, item, items, lemma_branch_hint_advances,
    lemma_folded_advances, lemma_folded_only_advances, lemma_folded_only_keeps_hints,
    lemma_group_rest_advances, lemma_item_advances, lemma_items_advance, otherwise, stray_hint,
    takes_hint, Form, Hint, Listing,
};
use crate::instruction::Instruction;
use crate::labels::{lemma_any_instruction_advances, AllInstructions, AllInstructionsAst};
use crate::opcode::Opcode;
use crate::parser::{Cursor, Input, Parse, Parsed, Parser};
use crate::token::{Error, Span};

verus! {

/// An expression, or a list of instructions, in the WebAssembly text format.
///
/// This expression type will parse s-expression-folded instructions into a flat
/// list of instructions for emission later on. The implicit `end` instruction
/// at the end of an expression is not included in the `instrs` field.
#[derive(Debug)]
pub struct Expression<'a> {
    /// Instructions in this expression.
    pub instrs: Box<[AllInstructions<'a>]>,
    /// Branch hints, if any, found while parsing instructions.
    pub branch_hints: Box<[BranchHint]>,
    /// Optionally parsed spans of all instructions in `instrs`.
    ///
    /// This value is `None` as it's disabled by default. This can be enabled
    /// when a parser is made; see [`Parser::new`].
    ///
    /// This is not tracked by default due to the memory overhead and limited
    /// use of this field.
    pub instr_spans: Option<Box<[Span]>>,
}

/// A `@metadata.code.branch_hint` in the code, associated with a If or BrIf
///
/// It is a placeholder and won't produce any instruction. Its purpose is to store
/// the place of the following instruction; it is checked that that is a `br_if`
/// or an `if`.
#[derive(Debug)]
pub struct BranchHint {
    /// Index of instructions in `instrs` field of `Expression` that this hint
    /// applies to.
    pub instr_index: usize,
    /// The value of this branch hint
    pub value: u32,
}

impl View for BranchHint {
    type V = Hint;

    open spec fn view(&self) -> Hint {
        Hint { instr_index: self.instr_index as nat, value: self.value }
    }
}

/// The parts of each instruction.
pub open spec fn instr_parts<'a>(instrs: Seq<AllInstructions<'a>>) -> Seq<AllInstructionsAst<'a>> {
    Seq::new(instrs.len(), |i: int| instrs[i]@)
}

/// The parts of each branch hint.
pub open spec fn hint_parts(hints: Seq<BranchHint>) -> Seq<Hint> {
    Seq::new(hints.len(), |i: int| hints[i]@)
}

impl<'a> View for Expression<'a> {
    type V = Listing<'a>;

    open spec fn view(&self) -> Listing<'a> {
        Listing {
            instrs: instr_parts(self.instrs@),
            hints: hint_parts(self.branch_hints@),
            spans: match self.instr_spans {
                Some(spans) => Some(spans@),
                None => None,
            },
            pending: None,
        }
    }
}

/// What is being parsed.
enum Frame<'a> {
    /// A group, behind which an instruction comes. That stands at the given
    /// place, or at the end of the group. A branch hint may apply to it.
    EndWith(AllInstructionsAst<'a>, Option<Span>, Option<u32>),
    /// The clause of a conditional, to which a branch hint may apply.
    Clause(AllInstructionsAst<'a>, Span, Option<u32>),
    /// A conditional, behind its first arm.
    Then,
    /// A conditional, behind its second arm.
    Else,
    /// An arm of a conditional.
    IfArm,
    /// A branch hint.
    BranchHint,
}

/// The rest of what a frame stands for.
spec fn frame_rest<'a>(
    input: Input<'a>,
    frame: Frame<'a>,
    at: Cursor,
    out: Listing<'a>,
) -> Parsed<Listing<'a>> {
    match frame {
        Frame::EndWith(i, span, hint) => match group_rest(input, at, out) {
            Ok(((o, close), to)) => Ok((o.note(hint).push(i, span.unwrap_or(close)), to)),
            Err(e) => Err(e),
        },
        Frame::Clause(i, span, hint) => if_clause(input, at, out, i, span, hint),
        Frame::Then => if_then(input, at, out),
        Frame::Else => if_else(input, at, out),
        Frame::IfArm => match group_rest(input, at, out) {
            Ok(((o, _), to)) => Ok((o, to)),
            Err(e) => Err(e),
        },
        Frame::BranchHint => match group_items(input, at, out) {
            Ok(((o, _), to)) => Ok((o, to)),
            Err(e) => Err(e),
        },
    }
}

/// The rest of an expression inside of the given frames, the innermost last.
spec fn resume<'a>(
    input: Input<'a>,
    frames: Seq<Frame<'a>>,
    at: Cursor,
    out: Listing<'a>,
) -> Parsed<Listing<'a>>
    decreases frames.len(),
{
    if frames.len() == 0 {
        items(input, at, out)
    } else {
        match frame_rest(input, frames.last(), at, out) {
            Ok((o, to)) => resume(input, frames.drop_last(), to, o),
            Err(e) => Err(e),
        }
    }
}

/// A group, behind its opening parenthesis, and the rest of the expression.
spec fn folded_in<'a>(
    input: Input<'a>,
    frames: Seq<Frame<'a>>,
    at: Cursor,
    out: Listing<'a>,
) -> Parsed<Listing<'a>> {
    match folded(input, at, out) {
        Ok((o, to)) => resume(input, frames, to, o),
        Err(e) => Err(e),
    }
}

/// The rest of an expression behind an opening parenthesis that stands directly
/// inside of the given frames.
spec fn opened<'a>(
    input: Input<'a>,
    frames: Seq<Frame<'a>>,
    at: Cursor,
    out: Listing<'a>,
) -> Parsed<Listing<'a>> {
    if frames.len() == 0 {
        folded_in(input, frames, at, out)
    } else {
        let below = frames.drop_last();
        match frames.last() {
            Frame::Clause(i, span, hint) => if input.at_keyword(at, "then"@) {
                if out.pending is Some {
                    stray_hint(input, at)
                } else {
                    resume(
                        input,
                        below.push(Frame::Then).push(Frame::IfArm),
                        input.step(at),
                        out.note(hint).push(i, span),
                    )
                }
            } else {
                folded_in(input, frames, at, out)
            },
            Frame::Then => match input.keyword(at, "else"@, "expected keyword `else`") {
                Ok((span, to)) => resume(
                    input,
                    below.push(Frame::Else).push(Frame::IfArm),
                    to,
                    out.push(otherwise(), span),
                ),
                Err(e) => Err(e),
            },
            Frame::Else => input.fail(
                at,
                "unexpected token: too many payloads inside of `(if)`",
            ),
            _ => folded_in(input, frames, at, out),
        }
    }
}

/// With a frame more, the frame's rest comes first.
proof fn lemma_resume_push<'a>(
    input: Input<'a>,
    frames: Seq<Frame<'a>>,
    frame: Frame<'a>,
    at: Cursor,
    out: Listing<'a>,
)
    ensures
        resume(input, frames.push(frame), at, out) == match frame_rest(input, frame, at, out) {
            Ok((o, to)) => resume(input, frames, to, o),
            Err(e) => Err(e),
        },
{
    assert(frames.push(frame).drop_last() =~= frames);
}

/// An opening parenthesis.
proof fn lemma_opened<'a>(
    input: Input<'a>,
    frames: Seq<Frame<'a>>,
    at: Cursor,
    out: Listing<'a>,
)
    requires
        input.at_lparen(at),
    ensures
        resume(input, frames, at, out) == opened(input, frames, input.step(at), out),
{
    let a = input.step(at);
    input.lemma_step(at);
    lemma_folded_advances(input, a, out);
    assert(item(input, at, out) == folded(input, a, out));
    if frames.len() > 0 {
        let below = frames.drop_last();
        match frames.last() {
            Frame::Clause(i, span, hint) => {
                if input.at_keyword(a, "then"@) {
                    let b = input.step(a);
                    let o = out.note(hint).push(i, span);
                    input.lemma_step(a);
                    lemma_group_rest_advances(input, b, o);
                    lemma_resume_push(input, below.push(Frame::Then), Frame::IfArm, b, o);
                    if let Ok(((o2, _), to)) = group_rest(input, b, o) {
                        lemma_resume_push(input, below, Frame::Then, to, o2);
                    }
                }
            },
            Frame::Then => {
                if input.at_keyword(a, "else"@) {
                    let b = input.step(a);
                    let o = out.push(otherwise(), input.here(a));
                    lemma_resume_push(input, below.push(Frame::Else), Frame::IfArm, b, o);
                    if let Ok(((o2, _), to)) = group_rest(input, b, o) {
                        lemma_resume_push(input, below, Frame::Else, to, o2);
                    }
                }
            },
            _ => {},
        }
    }
}

/// A closing parenthesis.
proof fn lemma_closed<'a>(
    input: Input<'a>,
    frames: Seq<Frame<'a>>,
    at: Cursor,
    out: Listing<'a>,
)
    requires
        frames.len() > 0,
        input.at_rparen(at),
    ensures
        resume(input, frames, at, out) == match frames.last() {
            Frame::EndWith(i, span, hint) => if out.pending is Some {
                stray_hint(input, at)
            } else {
                resume(
                    input,
                    frames.drop_last(),
                    input.step(at),
                    out.note(hint).push(i, span.unwrap_or(input.here(at))),
                )
            },
            Frame::Clause(_, _, _) => input.fail(input.step(at), "previous `if` had no `then`"),
            Frame::Then | Frame::Else => resume(
                input,
                frames.drop_last(),
                input.step(at),
                out.push(end(), input.here(at)),
            ),
            Frame::IfArm => if out.pending is Some {
                stray_hint(input, at)
            } else {
                resume(input, frames.drop_last(), input.step(at), out)
            },
            Frame::BranchHint => resume(input, frames.drop_last(), input.step(at), out),
        },
{
    assert(items(input, at, out) == Ok::<_, Error>((out, at)));
    assert(group_items(input, at, out) == Ok::<_, Error>(((out, input.here(at)), input.step(at))));
}

/// A conditional is being parsed, and none of its groups.
spec fn inside_if<'a>(frames: Seq<Frame<'a>>) -> bool {
    frames.len() > 0 && match frames.last() {
        Frame::Clause(_, _, _) | Frame::Then | Frame::Else => true,
        _ => false,
    }
}

/// No parenthesis.
proof fn lemma_plain<'a>(input: Input<'a>, frames: Seq<Frame<'a>>, at: Cursor, out: Listing<'a>)
    requires
        !input.at_lparen(at),
        !input.at_rparen(at),
        inside_if(frames) ==> input.at_end(at),
        input.at_end(at) ==> frames.len() > 0,
    ensures
        resume(input, frames, at, out) == match AllInstructions::grammar(input, at) {
            Ok((i, to)) => if out.refuses(i) {
                stray_hint(input, at)
            } else {
                resume(
                    input,
                    frames,
                    to,
                    out.unhinted().note(out.pending).push(i, input.here(at)),
                )
            },
            Err(e) => Err(e),
        },
{
    lemma_item_advances(input, at, out);
    if !input.at_end(at) {
        if let Ok((o, to)) = item(input, at, out) {
            assert(items(input, at, out) == items(input, to, o));
            assert(group_items(input, at, out) == group_items(input, to, o));
            assert(group_rest(input, at, out) == group_rest(input, to, o));
        }
    }
}

/// Each frame is a group behind which an instruction comes.
spec fn all_groups<'a>(frames: Seq<Frame<'a>>) -> bool {
    forall|i: int| 0 <= i < frames.len() ==> (#[trigger] frames[i]) is EndWith
}

/// The rest of a folded instruction inside of the given groups, the innermost
/// last.
spec fn resume_folded<'a>(
    input: Input<'a>,
    frames: Seq<Frame<'a>>,
    at: Cursor,
    out: Listing<'a>,
) -> Parsed<Listing<'a>>
    decreases frames.len(),
{
    if frames.len() == 0 {
        Ok((out, at))
    } else {
        match (frames.last(), folded_operands(input, at, out)) {
            (Frame::EndWith(i, span, _), Ok((o, c))) => resume_folded(
                input,
                frames.drop_last(),
                input.step(c),
                o.push(i, span.unwrap_or(input.here(c))),
            ),
            (_, Ok((o, c))) => Ok((o, c)),
            (_, Err(e)) => Err(e),
        }
    }
}

/// The rest of a folded instruction, which has not started where no group is
/// being parsed.
spec fn folded_rest<'a>(
    input: Input<'a>,
    frames: Seq<Frame<'a>>,
    at: Cursor,
    out: Listing<'a>,
) -> Parsed<Listing<'a>> {
    if frames.len() == 0 {
        folded_only(input, at, out)
    } else {
        resume_folded(input, frames, at, out)
    }
}

/// An opening parenthesis, and an instruction.
proof fn lemma_folded_opened<'a>(
    input: Input<'a>,
    frames: Seq<Frame<'a>>,
    at: Cursor,
    out: Listing<'a>,
)
    requires
        input.at_lparen(at),
        all_groups(frames),
    ensures
        ({
            let a = input.step(at);
            folded_rest(input, frames, at, out) == match AllInstructions::grammar(input, a) {
                Ok((i, b)) => resume_folded(
                    input,
                    frames.push(Frame::EndWith(i, Some(input.here(a)), None)),
                    b,
                    out,
                ),
                Err(e) => Err(e),
            }
        }),
{
    let a = input.step(at);
    lemma_folded_only_advances(input, at, out);
    if let Ok((i, b)) = AllInstructions::grammar(input, a) {
        let frame = Frame::EndWith(i, Some(input.here(a)), None);
        assert(frames.push(frame).drop_last() =~= frames);
        if let Ok((o, c)) = folded_operands(input, b, out) {
            let o2 = o.push(i, input.here(a));
            assert(resume_folded(input, frames.push(frame), b, out) == resume_folded(
                input,
                frames,
                input.step(c),
                o2,
            ));
            assert(frames.len() > 0 ==> folded_operands(input, at, out) == folded_operands(
                input,
                input.step(c),
                o2,
            ));
        }
    }
}

/// Helper struct used to parse an `Expression` with helper methods and such.
///
/// The primary purpose of this is to avoid defining expression parsing as a
/// call-thread-stack recursive function. Since we're parsing user input that
/// runs the risk of blowing the call stack, so we want to be sure to use a heap
/// stack structure wherever possible.
struct ExpressionParser<'a> {
    /// The flat list of instructions that we've parsed so far, and will
    /// eventually become the final `Expression`.
    ///
    /// Appended to with `push_instr` to ensure that this is the same length of
    /// `spans` if `spans` is used.
    raw_instrs: Vec<AllInstructions<'a>>,
    /// Descriptor of all our nested s-expr blocks. This only happens when
    /// instructions themselves are nested.
    stack: Vec<Level<'a>>,
    /// The branch hints found so far.
    branch_hints: Vec<BranchHint>,
    /// Whether the last of `branch_hints` is still waiting for the instruction
    /// that it stands before. It has the place that comes next until then.
    awaiting: bool,
    /// Storage for all span information in `raw_instrs`. Optionally disabled to
    /// reduce memory consumption of parsing expressions.
    spans: Option<Vec<Span>>,
}

enum Paren {
    Neither,
    Left,
    Right(Span),
}

/// A "kind" of nested block that we can be parsing inside of.
enum Level<'a> {
    /// This is a normal `block` or `loop` or similar, where the instruction
    /// payload here is pushed when the block is exited, with the branch hint that
    /// applies to it, if any.
    EndWith(AllInstructions<'a>, Option<Span>, Option<u32>),
    /// This is a pretty special variant which means that we're parsing an `if`
    /// statement, and the state of the `if` parsing is tracked internally in
    /// the payload.
    If(If<'a>),
    /// This means we're either parsing inside of `(then ...)` or `(else ...)`
    /// which don't correspond to terminating instructions, we're just in a
    /// nested block.
    IfArm,
    /// This means we are finishing the parsing of a branch hint annotation.
    BranchHint,
}

/// Possible states of "what is currently being parsed?" in an `if` expression.
enum If<'a> {
    /// Only the `if` instruction has been parsed, next thing to parse is the
    /// clause, if any, of the `if` instruction.
    ///
    /// This parse ends when `(then ...)` is encountered. The instruction is
    /// pushed by then, with the branch hint that applies to it, if any.
    Clause(AllInstructions<'a>, Span, Option<u32>),
    /// Currently parsing the `then` block, and afterwards a closing paren is
    /// required or an `(else ...)` expression.
    Then,
    /// Parsing the `else` expression, nothing can come after.
    Else,
}

impl<'a> Level<'a> {
    spec fn frame(self) -> Frame<'a> {
        match self {
            Level::EndWith(i, span, hint) => Frame::EndWith(i@, span, hint),
            Level::If(If::Clause(i, span, hint)) => Frame::Clause(i@, span, hint),
            Level::If(If::Then) => Frame::Then,
            Level::If(If::Else) => Frame::Else,
            Level::IfArm => Frame::IfArm,
            Level::BranchHint => Frame::BranchHint,
        }
    }
}

/// `end`, without a label.
fn end_instr<'a>() -> (i: AllInstructions<'a>)
    ensures
        i@ == end::<'a>(),
{
    AllInstructions::Other(Instruction::End(None))
}

/// `else`, without a label.
fn else_instr<'a>() -> (i: AllInstructions<'a>)
    ensures
        i@ == otherwise::<'a>(),
{
    AllInstructions::Other(Instruction::Else(None))
}

/// Tells what becomes of a group that starts with an instruction; see [`form`].
fn form_of<'a>(instr: &AllInstructions<'a>) -> (f: Form)
    ensures
        f == form(instr@),
{
    match instr {
        AllInstructions::Labeled(_) => Form::Plain,
        AllInstructions::Other(i) => {
            match i.opcode() {
                Opcode::Block => Form::Block,
                Opcode::Loop => Form::Block,
                Opcode::TryTable => Form::Block,
                Opcode::If => Form::Conditional,
                _ => Form::Plain,
            }
        },
    }
}

/// Tells whether a branch hint can apply to an instruction; see [`takes_hint`].
fn can_be_hinted<'a>(instr: &AllInstructions<'a>) -> (b: bool)
    ensures
        b == takes_hint(instr@),
{
    match instr {
        AllInstructions::Labeled(_) => false,
        AllInstructions::Other(i) => {
            match i.opcode() {
                Opcode::If => true,
                Opcode::BrIf => true,
                _ => false,
            }
        },
    }
}

/// Reads the value of a branch hint; see [`hint_value`].
fn read_hint(text: &str) -> (value: Option<u32>)
    ensures
        value == hint_value(text@),
{
    if text.unicode_len() == 1 {
        let c = text.get_char(0);
        if c == '\0' {
            assert(text@ =~= seq!['\0']);
            return Some(0);
        }
        if c == '\u{1}' {
            assert(text@ =~= seq!['\u{1}']);
            return Some(1);
        }
    }
    assert(seq!['\0'].len() == 1 && seq!['\0'][0] == '\0');
    assert(seq!['\u{1}'].len() == 1 && seq!['\u{1}'][0] == '\u{1}');
    None
}

impl<'a> ExpressionParser<'a> {
    /// A branch hint is waiting for its instruction.
    spec fn waits(&self) -> bool {
        self.awaiting && self.branch_hints@.len() > 0
    }

    /// What has been parsed so far.
    spec fn listing(&self) -> Listing<'a> {
        Listing {
            instrs: instr_parts(self.raw_instrs@),
            hints: if self.waits() {
                hint_parts(self.branch_hints@).drop_last()
            } else {
                hint_parts(self.branch_hints@)
            },
            spans: match self.spans {
                Some(spans) => Some(spans@),
                None => None,
            },
            pending: if self.waits() {
                Some(self.branch_hints@.last().value)
            } else {
                None
            },
        }
    }

    /// What is being parsed.
    spec fn frames(&self) -> Seq<Frame<'a>> {
        Seq::new(self.stack@.len(), |i: int| self.stack@[i].frame())
    }

    /// The rest of the expression.
    spec fn rest(&self, parser: &Parser<'a>) -> Parsed<Listing<'a>> {
        resume(parser.input(), self.frames(), parser.at(), self.listing())
    }

    fn new(parser: &Parser<'a>) -> (p: ExpressionParser<'a>)
        ensures
            p.frames() == Seq::<Frame<'a>>::empty(),
            p.listing() == Listing::<'a>::empty(parser.input().track),
    {
        let p = ExpressionParser {
            raw_instrs: Vec::new(),
            stack: Vec::new(),
            branch_hints: Vec::new(),
            awaiting: false,
            spans: if parser.track_instr_spans() {
                Some(Vec::new())
            } else {
                None
            },
        };
        assert(p.frames() =~= Seq::<Frame<'a>>::empty());
        assert(p.listing() =~= Listing::<'a>::empty(parser.input().track));
        p
    }

    fn push_instr(&mut self, instr: AllInstructions<'a>, span: Span)
        ensures
            final(self).listing() == old(self).listing().push(instr@, span),
            final(self).frames() == old(self).frames(),
            final(self).branch_hints@ == old(self).branch_hints@,
    {
        self.raw_instrs.push(instr);
        match &mut self.spans {
            Some(spans) => spans.push(span),
            None => {},
        }
        assert(self.listing() =~= old(self).listing().push(instr@, span));
        assert(self.frames() =~= old(self).frames());
    }

    /// Takes out the branch hint that is waiting for its instruction.
    fn take_hint(&mut self) -> (hint: Option<u32>)
        ensures
            hint == old(self).listing().pending,
            final(self).listing() == old(self).listing().unhinted(),
            final(self).frames() == old(self).frames(),
    {
        let hint = if self.awaiting {
            self.awaiting = false;
            match self.branch_hints.pop() {
                Some(hint) => Some(hint.value),
                None => None,
            }
        } else {
            None
        };
        assert(self.listing() =~= old(self).listing().unhinted());
        assert(self.frames() =~= old(self).frames());
        hint
    }

    /// Records a branch hint, if there is one, for the instruction that is pushed
    /// next.
    fn note_hint(&mut self, hint: Option<u32>)
        requires
            old(self).listing().pending is None,
        ensures
            final(self).listing() == old(self).listing().note(hint),
            final(self).frames() == old(self).frames(),
    {
        if let Some(value) = hint {
            self.awaiting = false;
            self.branch_hints.push(BranchHint { instr_index: self.raw_instrs.len(), value });
        }
        assert(self.listing() =~= old(self).listing().note(hint));
        assert(self.frames() =~= old(self).frames());
    }

    /// Tells whether a branch hint is waiting for its instruction.
    fn has_pending_hint(&self) -> (b: bool)
        ensures
            b == (self.listing().pending is Some),
    {
        self.awaiting && self.branch_hints.len() > 0
    }

    fn push_level(&mut self, level: Level<'a>)
        ensures
            final(self).listing() == old(self).listing(),
            final(self).frames() == old(self).frames().push(level.frame()),
            final(self).branch_hints@ == old(self).branch_hints@,
    {
        self.stack.push(level);
        assert(self.frames() =~= old(self).frames().push(level.frame()));
    }

    fn pop_level(&mut self) -> (level: Level<'a>)
        requires
            old(self).frames().len() > 0,
        ensures
            level.frame() == old(self).frames().last(),
            final(self).listing() == old(self).listing(),
            final(self).frames() == old(self).frames().drop_last(),
            final(self).branch_hints@ == old(self).branch_hints@,
    {
        let level = self.stack.pop().unwrap();
        assert(self.frames() =~= old(self).frames().drop_last());
        level
    }

    /// Tells whether a conditional is being parsed, and none of its groups.
    fn inside_if(&self) -> (b: bool)
        ensures
            b == inside_if(self.frames()),
    {
        let len = self.stack.len();
        if len == 0 {
            return false;
        }
        match &self.stack[len - 1] {
            Level::If(_) => true,
            _ => false,
        }
    }

    /// Parses either `(`, `)`, or nothing.
    fn paren(&self, parser: &mut Parser<'a>) -> (p: Paren)
        requires
            old(parser).wf(),
        ensures
            final(parser).same_source(old(parser)),
            ({
                let (input, at) = (old(parser).input(), old(parser).at());
                match p {
                    Paren::Left => input.at_lparen(at) && final(parser).at() == input.step(at),
                    Paren::Right(span) => {
                        &&& input.at_rparen(at)
                        &&& self.frames().len() > 0
                        &&& span == input.here(at)
                        &&& final(parser).at() == input.step(at)
                    },
                    Paren::Neither => {
                        &&& !input.at_lparen(at)
                        &&& self.frames().len() > 0 ==> !input.at_rparen(at)
                        &&& final(parser).at() == at
                    },
                }
            }),
    {
        if parser.peek_lparen() {
            parser.advance();
            Paren::Left
        } else if self.stack.len() > 0 && parser.peek_rparen() {
            let span = parser.cur_span();
            parser.advance();
            Paren::Right(span)
        } else {
            Paren::Neither
        }
    }

    /// State transitions with parsing an `if` statement.
    ///
    /// The syntactical form of an `if` statement looks like:
    ///
    /// ```wat
    /// (if ($clause)... (then $then) (else $else))
    /// ```
    ///
    /// This method is called after a `(` is parsed within the `(if ...` block.
    /// This determines what to do next.
    ///
    /// Returns `true` if the `(` has been dealt with, or `false` if the next item
    /// is to be parsed as an instruction.
    fn handle_if_lparen(&mut self, parser: &mut Parser<'a>) -> (r: Result<bool, Error>)
        requires
            old(parser).wf(),
        ensures
            final(parser).same_source(old(parser)),
            final(self).branch_hints@ == old(self).branch_hints@,
            r matches Ok(true) || {
                &&& final(self).frames() == old(self).frames()
                &&& final(self).listing() == old(self).listing()
            },
            r matches Ok(false) ==> final(parser).at() == old(parser).at(),
            ({
                let input = old(parser).input();
                let (frames, at, out) = (old(self).frames(), old(parser).at(), old(self).listing());
                let below = frames.drop_last();
                if !inside_if(frames) {
                    r matches Ok(false)
                } else {
                    match frames.last() {
                        Frame::Clause(i, span, _) => if input.at_keyword(at, "then"@) {
                            &&& r matches Ok(true)
                            &&& final(self).frames() == below.push(Frame::Then).push(Frame::IfArm)
                            &&& final(self).listing() == out.push(i, span)
                            &&& final(parser).at() == input.step(at)
                        } else {
                            r matches Ok(false)
                        },
                        Frame::Then => if input.at_keyword(at, "else"@) {
                            &&& r matches Ok(true)
                            &&& final(self).frames() == below.push(Frame::Else).push(Frame::IfArm)
                            &&& final(self).listing() == out.push(otherwise(), input.here(at))
                            &&& final(parser).at() == input.step(at)
                        } else {
                            r == Err::<bool, Error>(
                                Error { span: input.here(at), msg: "expected keyword `else`" },
                            )
                        },
                        _ => r == Err::<bool, Error>(
                            Error {
                                span: input.here(at),
                                msg: "unexpected token: too many payloads inside of `(if)`",
                            },
                        ),
                    }
                }
            }),
    {
        // Only execute the code below if there's an `If` listed last.
        if !self.inside_if() {
            return Ok(false);
        }
        let level = self.pop_level();
        let r = match level {
            // If the clause is still being parsed then interpret this `(` as a
            // folded instruction unless it starts with `then`, in which case
            // this transitions to the `Then` state and a new level has been
            // reached.
            Level::If(If::Clause(instr, span, hint)) => {
                if parser.peek_keyword("then") {
                    parser.advance();
                    self.push_level(Level::If(If::Then));
                    self.push_instr(instr, span);
                    self.push_level(Level::IfArm);
                    return Ok(true);
                }
                self.push_level(Level::If(If::Clause(instr, span, hint)));
                Ok(false)
            },
            // Previously we were parsing the `(then ...)` clause so this next
            // `(` must be followed by `else`.
            Level::If(If::Then) => {
                if parser.peek_keyword("else") {
                    let span = parser.cur_span();
                    parser.advance();
                    self.push_level(Level::If(If::Else));
                    self.push_instr(else_instr(), span);
                    self.push_level(Level::IfArm);
                    return Ok(true);
                }
                self.push_level(Level::If(If::Then));
                Err(parser.error("expected keyword `else`"))
            },
            // If after a `(else ...` clause is parsed there's another `(` then
            // that's not syntactically allowed.
            other => {
                self.push_level(other);
                Err(parser.error("unexpected token: too many payloads inside of `(if)`"))
            },
        };
        assert(self.frames() =~= old(self).frames());
        r
    }

    /// Records the branch hint that applies to a conditional, where the clause of
    /// that ends here, so that the instruction comes next.
    fn settle_clause(&mut self, parser: &Parser<'a>) -> (r: Result<(), Error>)
        requires
            parser.wf(),
        ensures
            ({
                let input = parser.input();
                let (frames, at, out) = (old(self).frames(), parser.at(), old(self).listing());
                if frames.len() > 0 && input.at_keyword(at, "then"@) {
                    match frames.last() {
                        Frame::Clause(i, span, hint) => if out.pending is Some {
                            stray_hint::<()>(input, at) == parser.outcome(r)
                        } else {
                            &&& r is Ok
                            &&& final(self).frames() == frames.drop_last().push(
                                Frame::Clause(i, span, None),
                            )
                            &&& final(self).listing() == out.note(hint)
                        },
                        _ => {
                            &&& r is Ok
                            &&& final(self).frames() == frames
                            &&& final(self).listing() == out
                        },
                    }
                } else {
                    &&& r is Ok
                    &&& final(self).frames() == frames
                    &&& final(self).listing() == out
                }
            }),
    {
        if !self.inside_if() || !parser.peek_keyword("then") {
            return Ok(());
        }
        match self.pop_level() {
            Level::If(If::Clause(instr, span, hint)) => {
                if self.has_pending_hint() {
                    return Err(parser.error("a branch hint must be followed by `br_if` or `if`"));
                }
                self.push_level(Level::If(If::Clause(instr, span, None)));
                self.note_hint(hint);
            },
            other => {
                self.push_level(other);
                assert(self.frames() =~= old(self).frames());
            },
        }
        Ok(())
    }

    fn parse_branch_hint(&mut self, parser: &mut Parser<'a>) -> (r: Result<(), Error>)
        requires
            old(parser).wf(),
        ensures
            final(parser).same_source(old(parser)),
            final(self).frames() == old(self).frames(),
            match r {
                Ok(_) => branch_hint(old(parser).input(), old(parser).at()) matches Ok((value, to)) && {
                    &&& final(parser).at() == to
                    &&& final(self).waits()
                    &&& hint_parts(final(self).branch_hints@) == hint_parts(
                        old(self).branch_hints@,
                    ).push(Hint { instr_index: old(self).raw_instrs@.len(), value })
                    &&& final(self).raw_instrs@ == old(self).raw_instrs@
                    &&& final(self).spans == old(self).spans
                    &&& old(self).listing().pending is None ==> final(self).listing() == old(
                        self,
                    ).listing().hint(value)
                },
                Err(e) => {
                    &&& branch_hint(old(parser).input(), old(parser).at()) == Err::<
                        (u32, Cursor),
                        Error,
                    >(e)
                    &&& final(self).listing() == old(self).listing()
                    &&& hint_parts(final(self).branch_hints@) == hint_parts(old(self).branch_hints@)
                },
            },
    {
        let _ = parser.annotation(
            "metadata.code.branch_hint",
            "expected annotation `@metadata.code.branch_hint`",
        )?;
        let text = <&'a str>::parse(parser)?;
        match read_hint(text) {
            Some(value) => {
                self.branch_hints.push(BranchHint { instr_index: self.raw_instrs.len(), value });
                self.awaiting = true;
                proof {
                    let hint = Hint { instr_index: self.raw_instrs@.len(), value };
                    assert(hint_parts(self.branch_hints@) =~= hint_parts(
                        old(self).branch_hints@,
                    ).push(hint));
                    assert(hint_parts(self.branch_hints@).drop_last() =~= hint_parts(
                        old(self).branch_hints@,
                    ));
                    assert(self.frames() =~= old(self).frames());
                }
                Ok(())
            },
            None => Err(parser.error("invalid value for branch hint")),
        }
    }

    /// Parses the head of a group, behind its `(`.
    fn parse_head(&mut self, parser: &mut Parser<'a>) -> (r: Result<(), Error>)
        requires
            old(parser).wf(),
        ensures
            final(parser).same_source(old(parser)),
            ({
                let input = old(parser).input();
                let (frames, at, out) = (old(self).frames(), old(parser).at(), old(self).listing());
                match r {
                    Ok(_) => {
                        &&& folded_in(input, frames, at, out) == final(self).rest(final(parser))
                        &&& at.pos < final(parser).at().pos
                    },
                    Err(e) => folded_in(input, frames, at, out) == Err::<
                        (Listing<'a>, Cursor),
                        Error,
                    >(e),
                }
            }),
    {
        let ghost input = parser.input();
        let ghost frames = self.frames();
        // Handle the case of a branch hint annotation
        if parser.peek_annotation("metadata.code.branch_hint") {
            if self.has_pending_hint() {
                return Err(parser.error("a branch hint must be followed by `br_if` or `if`"));
            }
            proof {
                lemma_branch_hint_advances(input, parser.at());
            }
            self.parse_branch_hint(parser)?;
            self.push_level(Level::BranchHint);
            proof {
                lemma_resume_push(
                    input,
                    frames,
                    Frame::BranchHint,
                    parser.at(),
                    self.listing(),
                );
            }
            return Ok(());
        }
        proof {
            lemma_any_instruction_advances(input, parser.at());
        }
        let span = parser.cur_span();
        let instr = AllInstructions::parse(parser)?;
        if self.has_pending_hint() && !can_be_hinted(&instr) {
            return Err(
                Error { span, msg: "a branch hint must be followed by `br_if` or `if`" },
            );
        }
        let hint = self.take_hint();
        match form_of(&instr) {
            // If block/loop show up then we just need to be sure to push an
            // `end` instruction whenever the `)` token is seen
            Form::Block => {
                self.push_instr(instr, span);
                self.push_level(Level::EndWith(end_instr(), None, None));
            },
            // Parsing an `if` instruction is super tricky, so we push an `If`
            // scope and we let all our scope-based parsing handle the remaining
            // items.
            Form::Conditional => {
                self.push_level(Level::If(If::Clause(instr, span, hint)));
            },
            // Anything else means that we're parsing a nested form such as
            // `(i32.add ...)` which means that the instruction we parsed will be
            // coming at the end.
            Form::Plain => {
                self.push_level(Level::EndWith(instr, Some(span), hint));
            },
        }
        proof {
            lemma_resume_push(
                input,
                frames,
                self.frames().last(),
                parser.at(),
                self.listing(),
            );
            assert(self.frames() =~= frames.push(self.frames().last()));
        }
        Ok(())
    }

    /// Parses an instruction that is not folded.
    fn parse_plain(&mut self, parser: &mut Parser<'a>) -> (r: Result<(), Error>)
        requires
            old(parser).wf(),
        ensures
            final(parser).same_source(old(parser)),
            ({
                let (input, at) = (old(parser).input(), old(parser).at());
                let out = old(self).listing();
                match AllInstructions::grammar(input, at) {
                    Ok((i, to)) => if out.refuses(i) {
                        stray_hint::<()>(input, at) == final(parser).outcome(r)
                    } else {
                        &&& r is Ok
                        &&& final(self).listing() == out.unhinted().note(out.pending).push(
                            i,
                            input.here(at),
                        )
                        &&& final(self).frames() == old(self).frames()
                        &&& final(parser).at() == to
                    },
                    Err(e) => r == Err::<(), Error>(e),
                }
            }),
    {
        let span = parser.cur_span();
        let instr = AllInstructions::parse(parser)?;
        if self.has_pending_hint() && !can_be_hinted(&instr) {
            return Err(Error { span, msg: "a branch hint must be followed by `br_if` or `if`" });
        }
        let hint = self.take_hint();
        self.note_hint(hint);
        self.push_instr(instr, span);
        Ok(())
    }

    /// Handles a `(` that has just been parsed.
    ///
    /// We handle block-like instructions specially (`block`, `loop`, and `if`), and
    /// otherwise all other instructions simply get appended once we reach the end
    /// of the s-expression.
    ///
    /// In all cases here we push something onto the `stack` to get popped when the
    /// `)` character is seen.
    fn open_group(&mut self, parser: &mut Parser<'a>) -> (r: Result<(), Error>)
        requires
            old(parser).wf(),
        ensures
            final(parser).same_source(old(parser)),
            ({
                let input = old(parser).input();
                let (frames, at, out) = (old(self).frames(), old(parser).at(), old(self).listing());
                match r {
                    Ok(_) => {
                        &&& opened(input, frames, at, out) == final(self).rest(final(parser))
                        &&& at.pos < final(parser).at().pos
                    },
                    Err(e) => opened(input, frames, at, out) == Err::<(Listing<'a>, Cursor), Error>(e),
                }
            }),
    {
        proof {
            parser.input().lemma_step(parser.at());
        }
        // First up is handling `if` parsing, which is funky in a whole bunch of
        // ways. See the method internally for more information.
        self.settle_clause(parser)?;
        assert(self.frames().len() > 0 ==> self.frames().drop_last() =~= old(
            self,
        ).frames().drop_last());
        if !self.handle_if_lparen(parser)? {
            self.parse_head(parser)?;
        }
        Ok(())
    }

    /// Handles a `)` that has just been parsed, and that stands at `span`.
    ///
    /// We're guaranteed there's an item in the `stack` stack for us to pop. We peel
    /// that off and take a look at what it says to do.
    fn close_group(&mut self, parser: &Parser<'a>, span: Span) -> (r: Result<(), Error>)
        requires
            parser.wf(),
            old(self).frames().len() > 0,
        ensures
            ({
                let (frames, out) = (old(self).frames(), old(self).listing());
                let stray = Err::<(), Error>(
                    Error { span, msg: "a branch hint must be followed by `br_if` or `if`" },
                );
                &&& final(self).frames() == frames.drop_last()
                &&& match frames.last() {
                    Frame::EndWith(i, s, hint) => if out.pending is Some {
                        r == stray
                    } else {
                        &&& r is Ok
                        &&& final(self).listing() == out.note(hint).push(i, s.unwrap_or(span))
                    },
                    Frame::Clause(_, _, _) => r == Err::<(), Error>(
                        Error {
                            span: parser.input().here(parser.at()),
                            msg: "previous `if` had no `then`",
                        },
                    ),
                    Frame::Then | Frame::Else => {
                        &&& r is Ok
                        &&& final(self).listing() == out.push(end(), span)
                    },
                    Frame::IfArm => if out.pending is Some {
                        r == stray
                    } else {
                        r is Ok && final(self).listing() == out
                    },
                    Frame::BranchHint => r is Ok && final(self).listing() == out,
                }
            }),
    {
        let stray = Error { span, msg: "a branch hint must be followed by `br_if` or `if`" };
        match self.pop_level() {
            Level::EndWith(i, s, hint) => {
                if self.has_pending_hint() {
                    return Err(stray);
                }
                self.note_hint(hint);
                self.push_instr(i, s.unwrap_or(span));
            },
            Level::IfArm => {
                if self.has_pending_hint() {
                    return Err(stray);
                }
            },
            Level::BranchHint => {},
            // If an `if` statement hasn't parsed the clause or `then` block, then
            // that's an error because there weren't enough items in the `if`
            // statement. Otherwise we're just careful to terminate with an `end`
            // instruction.
            Level::If(If::Clause(_, _, _)) => {
                return Err(parser.error("previous `if` had no `then`"));
            },
            Level::If(_) => self.push_instr(end_instr(), span),
        }
        Ok(())
    }

    fn parse(&mut self, parser: &mut Parser<'a>) -> (r: Result<(), Error>)
        requires
            old(parser).wf(),
            old(self).frames() == Seq::<Frame<'a>>::empty(),
        ensures
            final(parser).same_source(old(parser)),
            match r {
                Ok(_) => {
                    &&& expression(old(parser).input(), old(parser).at(), old(self).listing())
                        == Ok::<_, Error>((final(self).listing(), final(parser).at()))
                    &&& final(self).frames() == Seq::<Frame<'a>>::empty()
                },
                Err(e) => expression(old(parser).input(), old(parser).at(), old(self).listing())
                    == Err::<(Listing<'a>, Cursor), Error>(e),
            },
    {
        let ghost input = parser.input();
        // Here we parse instructions in a loop, and we do not recursively
        // invoke this parse function to avoid blowing the stack on
        // deeply-recursive parses.
        //
        // Our loop generally only finishes once there's no more input left int
        // the `parser`. If there's some unclosed delimiters though (on our
        // `stack`), then we also keep parsing to generate error messages if
        // there's no input left.
        while !parser.is_empty() || self.stack.len() > 0
            invariant
                parser.same_source(old(parser)),
                input == old(parser).input(),
                items(input, old(parser).at(), old(self).listing()) == self.rest(parser),
            decreases input.left(parser.at()),
        {
            let ghost (frames, at, out) = (self.frames(), parser.at(), self.listing());
            // As a small ease-of-life adjustment here, if we're parsing inside
            // of an `if block then we require that all sub-components are
            // s-expressions surrounded by `(` and `)`, so verify that here.
            if self.inside_if() && !parser.is_empty() && !parser.peek_lparen() {
                return Err(parser.error("expected `(`"));
            }
            match self.paren(parser) {
                // No parenthesis seen? Then we just parse the next instruction
                // and move on.
                Paren::Neither => {
                    proof {
                        lemma_plain(input, frames, at, out);
                        lemma_any_instruction_advances(input, at);
                    }
                    self.parse_plain(parser)?;
                },
                // If we see a left-parenthesis then things are a little special.
                Paren::Left => {
                    proof {
                        lemma_opened(input, frames, at, out);
                        input.lemma_step(at);
                    }
                    self.open_group(parser)?;
                },
                Paren::Right(span) => {
                    proof {
                        lemma_closed(input, frames, at, out);
                        input.lemma_step(at);
                    }
                    self.close_group(parser, span)?;
                },
            }
        }
        if self.has_pending_hint() {
            return Err(parser.error("a branch hint must be followed by `br_if` or `if`"));
        }
        assert(self.frames() =~= Seq::<Frame<'a>>::empty());
        Ok(())
    }

    fn parse_folded_instruction(&mut self, parser: &mut Parser<'a>) -> (r: Result<(), Error>)
        requires
            old(parser).wf(),
            old(self).frames() == Seq::<Frame<'a>>::empty(),
        ensures
            final(parser).same_source(old(parser)),
            match r {
                Ok(_) => {
                    &&& folded_only(old(parser).input(), old(parser).at(), old(self).listing())
                        == Ok::<_, Error>((final(self).listing(), final(parser).at()))
                    &&& final(self).frames() == Seq::<Frame<'a>>::empty()
                },
                Err(e) => folded_only(old(parser).input(), old(parser).at(), old(self).listing())
                    == Err::<(Listing<'a>, Cursor), Error>(e),
            },
    {
        let ghost input = parser.input();
        let mut done = false;
        while !done
            invariant
                parser.same_source(old(parser)),
                input == old(parser).input(),
                all_groups(self.frames()),
                done ==> self.frames().len() == 0,
                folded_only(input, old(parser).at(), old(self).listing()) == if done {
                    Ok((self.listing(), parser.at()))
                } else {
                    folded_rest(input, self.frames(), parser.at(), self.listing())
                },
            decreases input.left(parser.at()),
        {
            let ghost (frames, at, out) = (self.frames(), parser.at(), self.listing());
            match self.paren(parser) {
                Paren::Left => {
                    proof {
                        lemma_folded_opened(input, frames, at, out);
                        input.lemma_step(at);
                        lemma_any_instruction_advances(input, parser.at());
                    }
                    let span = parser.cur_span();
                    let instr = AllInstructions::parse(parser)?;
                    self.push_level(Level::EndWith(instr, Some(span), None));
                },
                Paren::Right(span) => {
                    proof {
                        input.lemma_step(at);
                        assert(frames.last() is EndWith);
                    }
                    if let Level::EndWith(i, s, _) = self.pop_level() {
                        self.push_instr(i, s.unwrap_or(span));
                    }
                    if self.stack.len() == 0 {
                        done = true;
                    }
                },
                Paren::Neither => {
                    return Err(parser.error("expected to continue a folded instruction"));
                },
            }
        }
        Ok(())
    }
}

/// A vector as a boxed slice, which is what `Vec::into_boxed_slice` makes of it:
/// the same items in the same order.
#[verifier::external_body]
fn boxed<T>(v: Vec<T>) -> (b: Box<[T]>)
    ensures
        b@ == v@,
{
    v.into_boxed_slice()
}

impl<'a> ExpressionParser<'a> {
    /// The expression that has been parsed.
    fn finish(self) -> (e: Expression<'a>)
        requires
            self.listing().pending is None,
        ensures
            e@ == self.listing(),
    {
        let e = Expression {
            instrs: boxed(self.raw_instrs),
            branch_hints: boxed(self.branch_hints),
            instr_spans: match self.spans {
                Some(spans) => Some(boxed(spans)),
                None => None,
            },
        };
        assert(e@ =~= self.listing());
        e
    }
}

impl<'a> Parse<'a> for Expression<'a> {
    type Ast = Listing<'a>;

    open spec fn ast(&self) -> Listing<'a> {
        self@
    }

    open spec fn grammar(input: Input<'a>, at: Cursor) -> Parsed<Listing<'a>> {
        expression(input, at, Listing::empty(input.track))
    }

    proof fn lemma_advances(input: Input<'a>, at: Cursor) {
        lemma_items_advance(input, at, Listing::empty(input.track));
    }

    fn parse(parser: &mut Parser<'a>) -> (r: Result<Self, Error>) {
        let mut exprs = ExpressionParser::new(parser);
        exprs.parse(parser)?;
        Ok(exprs.finish())
    }
}

impl<'a> Expression<'a> {
    /// Creates an expression from the single `instr` specified.
    pub fn one(instr: AllInstructions<'a>) -> (e: Expression<'a>)
        ensures
            e.instrs@ == seq![instr],
            e.branch_hints@ == Seq::<BranchHint>::empty(),
            e.instr_spans is None,
    {
        let mut instrs: Vec<AllInstructions<'a>> = Vec::new();
        instrs.push(instr);
        Expression { instrs: boxed(instrs), branch_hints: boxed(Vec::new()), instr_spans: None }
    }

    /// Helper to create an expression from a single [`Instruction`]
    pub fn one_other(instr: Instruction<'a>) -> (e: Expression<'a>)
        ensures
            e.instrs@ == seq![AllInstructions::Other(instr)],
            e.branch_hints@ == Seq::<BranchHint>::empty(),
            e.instr_spans is None,
    {
        Self::one(AllInstructions::Other(instr))
    }

    /// Parse an expression formed from a single folded instruction.
    ///
    /// Attempts to parse an expression formed from a single folded instruction.
    ///
    /// This method will mutate the state of `parser` after attempting to parse
    /// the expression. If an error happens then it is likely fatal and
    /// there is no guarantee of how many tokens have been consumed from
    /// `parser`.
    ///
    /// # Errors
    ///
    /// This function will return an error if the expression could not be
    /// parsed.
    pub fn parse_folded_instruction(parser: &mut Parser<'a>) -> (r: Result<Self, Error>)
        requires
            old(parser).wf(),
        ensures
            final(parser).same_source(old(parser)),
            ({
                let (input, at) = (old(parser).input(), old(parser).at());
                match r {
                    Ok(e) => folded_only(input, at, Listing::empty(input.track)) == Ok::<_, Error>(
                        (e@, final(parser).at()),
                    ),
                    Err(e) => folded_only(input, at, Listing::empty(input.track)) == Err::<
                        (Listing<'a>, Cursor),
                        Error,
                    >(e),
                }
            }),
    {
        let mut exprs = ExpressionParser::new(parser);
        exprs.parse_folded_instruction(parser)?;
        proof {
            lemma_folded_only_keeps_hints(
                old(parser).input(),
                old(parser).at(),
                Listing::empty(old(parser).input().track),
            );
        }
        Ok(exprs.finish())
    }
}

} // verus!
