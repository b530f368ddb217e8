//! Value types, function types and type uses.

use vstd::prelude::*;

use crate::atoms::lemma_index_advances;
use crate::labels::LabelAnnotation;
use crate::parser::{Cursor, Input, Parse, Parsed, Parser, Peek};
use crate::text::same_text;
use crate::token::{Error, Id, Index, NameAnnotation, TokenKind};

verus! {

/// A heap type that is not defined in the module.
#[derive(Clone, Copy, Debug, PartialEq, Eq, Structural)]
pub enum AbstractHeapType {
    Func,
    Extern,
    Exn,
    Any,
    Eq,
    Struct,
    Array,
    I31,
    NoFunc,
    NoExtern,
    NoExn,
    NoAny,
}

/// What a reference refers to.
#[derive(Clone, Copy, Debug)]
pub enum HeapType<'a> {
    Abstract(AbstractHeapType),
    /// A type that the module defines.
    Concrete(Index<'a>),
}

/// A reference type.
#[derive(Clone, Copy, Debug)]
pub struct RefType<'a> {
    pub nullable: bool,
    pub heap: HeapType<'a>,
}

/// A value type.
#[derive(Clone, Copy, Debug)]
pub enum ValType<'a> {
    I32,
    I64,
    F32,
    F64,
    V128,
    Ref(RefType<'a>),
}

/// A value type, with the information-flow label of its values if one is given.
#[derive(Clone, Copy, Debug)]
pub struct LabeledValType<'a> {
    pub label: Option<LabelAnnotation<'a>>,
    pub ty: ValType<'a>,
}

/// A parameter: its identifier and its name where it has them, and its type.
pub type Param<'a> = (Option<Id<'a>>, Option<NameAnnotation<'a>>, LabeledValType<'a>);

/// A function type.
#[derive(Clone, Debug)]
pub struct FunctionType<'a> {
    pub params: Vec<Param<'a>>,
    pub results: Vec<LabeledValType<'a>>,
}

/// A function type whose parameters cannot be named.
#[derive(Clone, Debug)]
pub struct FunctionTypeNoNames<'a>(pub FunctionType<'a>);

/// A reference to a type: by index, written out, or both.
#[derive(Clone, Debug)]
pub struct TypeUse<'a, T> {
    pub index: Option<Index<'a>>,
    pub inline: Option<T>,
}

/// The parts of a function type.
#[verifier::ext_equal]
pub struct FunctionTypeAst<'a> {
    pub params: Seq<Param<'a>>,
    pub results: Seq<LabeledValType<'a>>,
}

/// The parts of a type use.
pub struct TypeUseAst<'a> {
    pub index: Option<Index<'a>>,
    pub inline: Option<FunctionTypeAst<'a>>,
}

impl<'a> View for FunctionType<'a> {
    type V = FunctionTypeAst<'a>;

    open spec fn view(&self) -> FunctionTypeAst<'a> {
        FunctionTypeAst { params: self.params@, results: self.results@ }
    }
}

impl<'a> View for TypeUse<'a, FunctionType<'a>> {
    type V = TypeUseAst<'a>;

    open spec fn view(&self) -> TypeUseAst<'a> {
        TypeUseAst {
            index: self.index,
            inline: match self.inline {
                Some(f) => Some(f@),
                None => None,
            },
        }
    }
}

/// The heap type that a keyword names.
pub open spec fn heap_keyword(word: Seq<char>) -> Option<AbstractHeapType> {
    if word == "func"@ {
        Some(AbstractHeapType::Func)
    } else if word == "extern"@ {
        Some(AbstractHeapType::Extern)
    } else if word == "exn"@ {
        Some(AbstractHeapType::Exn)
    } else if word == "any"@ {
        Some(AbstractHeapType::Any)
    } else if word == "eq"@ {
        Some(AbstractHeapType::Eq)
    } else if word == "struct"@ {
        Some(AbstractHeapType::Struct)
    } else if word == "array"@ {
        Some(AbstractHeapType::Array)
    } else if word == "i31"@ {
        Some(AbstractHeapType::I31)
    } else if word == "nofunc"@ {
        Some(AbstractHeapType::NoFunc)
    } else if word == "noextern"@ {
        Some(AbstractHeapType::NoExtern)
    } else if word == "noexn"@ {
        Some(AbstractHeapType::NoExn)
    } else if word == "none"@ {
        Some(AbstractHeapType::NoAny)
    } else {
        None
    }
}

/// The heap type of the nullable reference type that a keyword names.
pub open spec fn ref_keyword(word: Seq<char>) -> Option<AbstractHeapType> {
    if word == "funcref"@ {
        Some(AbstractHeapType::Func)
    } else if word == "externref"@ {
        Some(AbstractHeapType::Extern)
    } else if word == "exnref"@ {
        Some(AbstractHeapType::Exn)
    } else if word == "anyref"@ {
        Some(AbstractHeapType::Any)
    } else if word == "eqref"@ {
        Some(AbstractHeapType::Eq)
    } else if word == "structref"@ {
        Some(AbstractHeapType::Struct)
    } else if word == "arrayref"@ {
        Some(AbstractHeapType::Array)
    } else if word == "i31ref"@ {
        Some(AbstractHeapType::I31)
    } else if word == "nullfuncref"@ {
        Some(AbstractHeapType::NoFunc)
    } else if word == "nullexternref"@ {
        Some(AbstractHeapType::NoExtern)
    } else if word == "nullexnref"@ {
        Some(AbstractHeapType::NoExn)
    } else if word == "nullref"@ {
        Some(AbstractHeapType::NoAny)
    } else {
        None
    }
}

fn find_heap_keyword(word: &str) -> (t: Option<AbstractHeapType>)
    ensures
        t == heap_keyword(word@),
{
    if same_text(word, "func") {
        Some(AbstractHeapType::Func)
    } else if same_text(word, "extern") {
        Some(AbstractHeapType::Extern)
    } else if same_text(word, "exn") {
        Some(AbstractHeapType::Exn)
    } else if same_text(word, "any") {
        Some(AbstractHeapType::Any)
    } else if same_text(word, "eq") {
        Some(AbstractHeapType::Eq)
    } else if same_text(word, "struct") {
        Some(AbstractHeapType::Struct)
    } else if same_text(word, "array") {
        Some(AbstractHeapType::Array)
    } else if same_text(word, "i31") {
        Some(AbstractHeapType::I31)
    } else if same_text(word, "nofunc") {
        Some(AbstractHeapType::NoFunc)
    } else if same_text(word, "noextern") {
        Some(AbstractHeapType::NoExtern)
    } else if same_text(word, "noexn") {
        Some(AbstractHeapType::NoExn)
    } else if same_text(word, "none") {
        Some(AbstractHeapType::NoAny)
    } else {
        None
    }
}

fn find_ref_keyword(word: &str) -> (t: Option<AbstractHeapType>)
    ensures
        t == ref_keyword(word@),
{
    if same_text(word, "funcref") {
        Some(AbstractHeapType::Func)
    } else if same_text(word, "externref") {
        Some(AbstractHeapType::Extern)
    } else if same_text(word, "exnref") {
        Some(AbstractHeapType::Exn)
    } else if same_text(word, "anyref") {
        Some(AbstractHeapType::Any)
    } else if same_text(word, "eqref") {
        Some(AbstractHeapType::Eq)
    } else if same_text(word, "structref") {
        Some(AbstractHeapType::Struct)
    } else if same_text(word, "arrayref") {
        Some(AbstractHeapType::Array)
    } else if same_text(word, "i31ref") {
        Some(AbstractHeapType::I31)
    } else if same_text(word, "nullfuncref") {
        Some(AbstractHeapType::NoFunc)
    } else if same_text(word, "nullexternref") {
        Some(AbstractHeapType::NoExtern)
    } else if same_text(word, "nullexnref") {
        Some(AbstractHeapType::NoExn)
    } else if same_text(word, "nullref") {
        Some(AbstractHeapType::NoAny)
    } else {
        None
    }
}

impl<'a> Parse<'a> for HeapType<'a> {
    type Ast = HeapType<'a>;

    open spec fn ast(&self) -> HeapType<'a> {
        *self
    }

    open spec fn grammar(input: Input<'a>, at: Cursor) -> Parsed<HeapType<'a>> {
        let named = match input.tok(at) {
            Some(TokenKind::Keyword(k)) => heap_keyword(k@),
            _ => None,
        };
        match named {
            Some(t) => Ok((HeapType::Abstract(t), input.step(at))),
            None => if Index::starts(input, at) {
                match Index::grammar(input, at) {
                    Ok((i, to)) => Ok((HeapType::Concrete(i), to)),
                    Err(e) => Err(e),
                }
            } else {
                input.fail(at, "unexpected token, expected a heap type")
            },
        }
    }

    proof fn lemma_advances(input: Input<'a>, at: Cursor) {
        input.lemma_step(at);
    }

    fn parse(parser: &mut Parser<'a>) -> (r: Result<Self, Error>) {
        let named = match parser.token() {
            Some(TokenKind::Keyword(k)) => find_heap_keyword(k),
            _ => None,
        };
        match named {
            Some(t) => {
                parser.advance();
                Ok(HeapType::Abstract(t))
            },
            None => {
                if Index::peek(parser) {
                    let i = Index::parse(parser)?;
                    Ok(HeapType::Concrete(i))
                } else {
                    Err(parser.error("unexpected token, expected a heap type"))
                }
            },
        }
    }
}

/// `ref`, an optional `null` and a heap type, inside of parentheses.
pub open spec fn long_ref_type<'a>(input: Input<'a>, at: Cursor) -> Parsed<RefType<'a>> {
    match input.keyword(at, "ref"@, "unexpected token, expected `ref`") {
        Ok((_, a)) => {
            let nullable = input.at_keyword(a, "null"@);
            let b = if nullable {
                input.step(a)
            } else {
                a
            };
            match HeapType::grammar(input, b) {
                Ok((heap, c)) => match input.close(c) {
                    Ok((_, to)) => Ok((RefType { nullable, heap }, to)),
                    Err(e) => Err(e),
                },
                Err(e) => Err(e),
            }
        },
        Err(e) => Err(e),
    }
}

impl<'a> Parse<'a> for RefType<'a> {
    type Ast = RefType<'a>;

    open spec fn ast(&self) -> RefType<'a> {
        *self
    }

    open spec fn grammar(input: Input<'a>, at: Cursor) -> Parsed<RefType<'a>> {
        let named = match input.tok(at) {
            Some(TokenKind::Keyword(k)) => ref_keyword(k@),
            _ => None,
        };
        match named {
            Some(t) => Ok(
                (RefType { nullable: true, heap: HeapType::Abstract(t) }, input.step(at)),
            ),
            None => if input.at_lparen(at) {
                long_ref_type(input, input.step(at))
            } else {
                input.fail(at, "unexpected token, expected a reference type")
            },
        }
    }

    proof fn lemma_advances(input: Input<'a>, at: Cursor) {
        lemma_ref_type_advances(input, at);
    }

    fn parse(parser: &mut Parser<'a>) -> (r: Result<Self, Error>) {
        let named = match parser.token() {
            Some(TokenKind::Keyword(k)) => find_ref_keyword(k),
            _ => None,
        };
        match named {
            Some(t) => {
                parser.advance();
                Ok(RefType { nullable: true, heap: HeapType::Abstract(t) })
            },
            None => {
                if parser.peek_lparen() {
                    parser.advance();
                    let _ = parser.keyword("ref", "unexpected token, expected `ref`")?;
                    let nullable = parser.peek_keyword("null");
                    if nullable {
                        parser.advance();
                    }
                    let heap = HeapType::parse(parser)?;
                    let _ = parser.close()?;
                    Ok(RefType { nullable, heap })
                } else {
                    Err(parser.error("unexpected token, expected a reference type"))
                }
            },
        }
    }
}

/// A reference type moves the cursor on.
pub proof fn lemma_ref_type_advances<'a>(input: Input<'a>, at: Cursor)
    ensures
        RefType::grammar(input, at) matches Ok((_, to)) ==> at.pos < to.pos,
{
    input.lemma_step(at);
    let a = input.step(at);
    input.lemma_step(a);
    let b = input.step(a);
    input.lemma_step(b);
    let c = if input.at_keyword(b, "null"@) {
        input.step(b)
    } else {
        b
    };
    HeapType::lemma_advances(input, c);
    if let Ok((_, d)) = HeapType::grammar(input, c) {
        input.lemma_step(d);
    }
}

/// The value type that a keyword names, other than a reference type.
pub open spec fn val_keyword<'a>(word: Seq<char>) -> Option<ValType<'a>> {
    if word == "i32"@ {
        Some(ValType::I32)
    } else if word == "i64"@ {
        Some(ValType::I64)
    } else if word == "f32"@ {
        Some(ValType::F32)
    } else if word == "f64"@ {
        Some(ValType::F64)
    } else if word == "v128"@ {
        Some(ValType::V128)
    } else {
        None
    }
}

fn find_val_keyword<'a>(word: &str) -> (t: Option<ValType<'a>>)
    ensures
        t == val_keyword::<'a>(word@),
{
    if same_text(word, "i32") {
        Some(ValType::I32)
    } else if same_text(word, "i64") {
        Some(ValType::I64)
    } else if same_text(word, "f32") {
        Some(ValType::F32)
    } else if same_text(word, "f64") {
        Some(ValType::F64)
    } else if same_text(word, "v128") {
        Some(ValType::V128)
    } else {
        None
    }
}

impl<'a> Parse<'a> for ValType<'a> {
    type Ast = ValType<'a>;

    open spec fn ast(&self) -> ValType<'a> {
        *self
    }

    open spec fn grammar(input: Input<'a>, at: Cursor) -> Parsed<ValType<'a>> {
        let named = match input.tok(at) {
            Some(TokenKind::Keyword(k)) => val_keyword(k@),
            _ => None,
        };
        match named {
            Some(t) => Ok((t, input.step(at))),
            None => match RefType::grammar(input, at) {
                Ok((t, to)) => Ok((ValType::Ref(t), to)),
                Err(e) => Err(e),
            },
        }
    }

    proof fn lemma_advances(input: Input<'a>, at: Cursor) {
        lemma_val_type_advances(input, at);
    }

    fn parse(parser: &mut Parser<'a>) -> (r: Result<Self, Error>) {
        let named = match parser.token() {
            Some(TokenKind::Keyword(k)) => find_val_keyword(k),
            _ => None,
        };
        match named {
            Some(t) => {
                parser.advance();
                Ok(t)
            },
            None => {
                let t = RefType::parse(parser)?;
                Ok(ValType::Ref(t))
            },
        }
    }
}

/// A value type moves the cursor on.
pub proof fn lemma_val_type_advances<'a>(input: Input<'a>, at: Cursor)
    ensures
        ValType::grammar(input, at) matches Ok((_, to)) ==> at.pos < to.pos,
{
    input.lemma_step(at);
    lemma_ref_type_advances(input, at);
}

impl<'a> Parse<'a> for LabeledValType<'a> {
    type Ast = LabeledValType<'a>;

    open spec fn ast(&self) -> LabeledValType<'a> {
        *self
    }

    open spec fn grammar(input: Input<'a>, at: Cursor) -> Parsed<LabeledValType<'a>> {
        match Option::<LabelAnnotation<'a>>::grammar(input, at) {
            Ok((label, a)) => match ValType::grammar(input, a) {
                Ok((ty, to)) => Ok((LabeledValType { label, ty }, to)),
                Err(e) => Err(e),
            },
            Err(e) => Err(e),
        }
    }

    proof fn lemma_advances(input: Input<'a>, at: Cursor) {
        lemma_labeled_val_type_advances(input, at);
    }

    fn parse(parser: &mut Parser<'a>) -> (r: Result<Self, Error>) {
        let label = Option::<LabelAnnotation<'a>>::parse(parser)?;
        let ty = ValType::parse(parser)?;
        Ok(LabeledValType { label, ty })
    }
}

/// A labeled value type moves the cursor on.
pub proof fn lemma_labeled_val_type_advances<'a>(input: Input<'a>, at: Cursor)
    ensures
        LabeledValType::grammar(input, at) matches Ok((_, to)) ==> at.pos < to.pos,
{
    Option::<LabelAnnotation<'a>>::lemma_advances(input, at);
    if let Ok((_, a)) = Option::<LabelAnnotation<'a>>::grammar(input, at) {
        lemma_val_type_advances(input, a);
    }
}

/// The types from here to the end of the group, behind those of `acc`.
pub open spec fn types_to_end<'a>(
    input: Input<'a>,
    at: Cursor,
    acc: Seq<LabeledValType<'a>>,
) -> Parsed<Seq<LabeledValType<'a>>>
    decreases input.left(at),
{
    if input.at_end(at) {
        Ok((acc, at))
    } else {
        proof {
            lemma_labeled_val_type_advances(input, at);
        }
        match LabeledValType::grammar(input, at) {
            Ok((t, to)) => types_to_end(input, to, acc.push(t)),
            Err(e) => Err(e),
        }
    }
}

pub proof fn lemma_types_to_end_advances<'a>(
    input: Input<'a>,
    at: Cursor,
    acc: Seq<LabeledValType<'a>>,
)
    ensures
        types_to_end(input, at, acc) matches Ok((_, to)) ==> at.pos <= to.pos,
    decreases input.left(at),
{
    if !input.at_end(at) {
        lemma_labeled_val_type_advances(input, at);
        if let Ok((t, to)) = LabeledValType::grammar(input, at) {
            lemma_types_to_end_advances(input, to, acc.push(t));
        }
    }
}

/// Parses the types that are left of a group, and adds them to `list`; see
/// [`types_to_end`].
pub fn parse_types_to_end<'a>(parser: &mut Parser<'a>, list: &mut Vec<LabeledValType<'a>>) -> (r:
    Result<(), Error>)
    requires
        old(parser).wf(),
    ensures
        final(parser).same_source(old(parser)),
        match r {
            Ok(_) => types_to_end(old(parser).input(), old(parser).at(), old(list)@) == Ok::<
                _,
                Error,
            >((final(list)@, final(parser).at())),
            Err(e) => types_to_end(old(parser).input(), old(parser).at(), old(list)@) == Err::<
                (Seq<LabeledValType<'a>>, Cursor),
                Error,
            >(e),
        },
{
    let ghost input = parser.input();
    while !parser.is_empty()
        invariant
            parser.same_source(old(parser)),
            input == old(parser).input(),
            types_to_end(input, old(parser).at(), old(list)@) == types_to_end(
                input,
                parser.at(),
                list@,
            ),
        decreases input.left(parser.at()),
    {
        proof {
            lemma_labeled_val_type_advances(input, parser.at());
        }
        let t = LabeledValType::parse(parser)?;
        list.push(t);
    }
    Ok(())
}

/// Parameters without identifiers or names.
pub open spec fn unnamed<'a>(types: Seq<LabeledValType<'a>>) -> Seq<Param<'a>> {
    Seq::new(types.len(), |i: int| (None, None, types[i]))
}

/// A group `(param ...)` or `(result ...)`, which adds to the function type
/// `acc`.
pub open spec fn signature_group<'a>(
    input: Input<'a>,
    at: Cursor,
    acc: FunctionTypeAst<'a>,
) -> Parsed<FunctionTypeAst<'a>> {
    match input.open(at) {
        Ok((_, a)) => if input.at_keyword(a, "param"@) {
            if acc.results.len() > 0 {
                input.fail(
                    a,
                    "result before parameter (or unexpected token): cannot list params after results",
                )
            } else {
                match types_to_end(input, input.step(a), Seq::empty()) {
                    Ok((types, b)) => match input.close(b) {
                        Ok((_, to)) => Ok(
                            (
                                FunctionTypeAst {
                                    params: acc.params + unnamed(types),
                                    results: acc.results,
                                },
                                to,
                            ),
                        ),
                        Err(e) => Err(e),
                    },
                    Err(e) => Err(e),
                }
            }
        } else if input.at_keyword(a, "result"@) {
            match types_to_end(input, input.step(a), acc.results) {
                Ok((results, b)) => match input.close(b) {
                    Ok((_, to)) => Ok((FunctionTypeAst { params: acc.params, results }, to)),
                    Err(e) => Err(e),
                },
                Err(e) => Err(e),
            }
        } else {
            input.fail(a, "unexpected token, expected `param` or `result`")
        },
        Err(e) => Err(e),
    }
}

pub proof fn lemma_signature_group_advances<'a>(
    input: Input<'a>,
    at: Cursor,
    acc: FunctionTypeAst<'a>,
)
    ensures
        signature_group(input, at, acc) matches Ok((_, to)) ==> at.pos < to.pos,
{
    input.lemma_step(at);
    let a = input.step(at);
    input.lemma_step(a);
    let b = input.step(a);
    lemma_types_to_end_advances(input, b, Seq::empty());
    lemma_types_to_end_advances(input, b, acc.results);
    if let Ok((_, c)) = types_to_end(input, b, Seq::empty()) {
        input.lemma_step(c);
    }
    if let Ok((_, c)) = types_to_end(input, b, acc.results) {
        input.lemma_step(c);
    }
}

/// The groups `(param ...)` and `(result ...)` from here on, which add to the
/// function type `acc`.
pub open spec fn signature<'a>(
    input: Input<'a>,
    at: Cursor,
    acc: FunctionTypeAst<'a>,
) -> Parsed<FunctionTypeAst<'a>>
    decreases input.left(at),
{
    if input.keyword_follows(at, "param"@) || input.keyword_follows(at, "result"@) {
        proof {
            lemma_signature_group_advances(input, at, acc);
        }
        match signature_group(input, at, acc) {
            Ok((next, to)) => signature(input, to, next),
            Err(e) => Err(e),
        }
    } else {
        Ok((acc, at))
    }
}

pub proof fn lemma_signature_advances<'a>(input: Input<'a>, at: Cursor, acc: FunctionTypeAst<'a>)
    ensures
        signature(input, at, acc) matches Ok((_, to)) ==> at.pos <= to.pos,
    decreases input.left(at),
{
    if input.keyword_follows(at, "param"@) || input.keyword_follows(at, "result"@) {
        lemma_signature_group_advances(input, at, acc);
        if let Ok((next, to)) = signature_group(input, at, acc) {
            lemma_signature_advances(input, to, next);
        }
    }
}

/// Parses one group of a function type; see [`signature_group`].
fn parse_signature_group<'a>(parser: &mut Parser<'a>, ty: &mut FunctionType<'a>) -> (r: Result<
    (),
    Error,
>)
    requires
        old(parser).wf(),
    ensures
        final(parser).same_source(old(parser)),
        match r {
            Ok(_) => signature_group(old(parser).input(), old(parser).at(), old(ty)@) == Ok::<
                _,
                Error,
            >((final(ty)@, final(parser).at())),
            Err(e) => signature_group(old(parser).input(), old(parser).at(), old(ty)@) == Err::<
                (FunctionTypeAst<'a>, Cursor),
                Error,
            >(e),
        },
{
    let _ = parser.open()?;
    if parser.peek_keyword("param") {
        if ty.results.len() > 0 {
            return Err(
                parser.error(
                    "result before parameter (or unexpected token): cannot list params after results",
                ),
            );
        }
        parser.advance();
        let mut types: Vec<LabeledValType<'a>> = Vec::new();
        parse_types_to_end(parser, &mut types)?;
        let _ = parser.close()?;
        let mut i: usize = 0;
        while i < types.len()
            invariant
                i <= types.len(),
                ty.results == old(ty).results,
                ty.params@ =~= old(ty).params@ + unnamed(types@.take(i as int)),
            decreases types.len() - i,
        {
            ty.params.push((None, None, types[i]));
            i += 1;
        }
        assert(types@.take(i as int) =~= types@);
        Ok(())
    } else if parser.peek_keyword("result") {
        parser.advance();
        parse_types_to_end(parser, &mut ty.results)?;
        let _ = parser.close()?;
        Ok(())
    } else {
        Err(parser.error("unexpected token, expected `param` or `result`"))
    }
}

impl<'a> Peek<'a> for FunctionTypeNoNames<'a> {
    open spec fn starts(input: Input<'a>, at: Cursor) -> bool {
        input.at_lparen(at) && (input.keyword_follows(at, "param"@) || input.keyword_follows(
            at,
            "result"@,
        ))
    }

    fn peek(parser: &Parser<'a>) -> (b: bool) {
        parser.peek_lparen() && (parser.peek2_keyword("param") || parser.peek2_keyword("result"))
    }
}

impl<'a> Parse<'a> for FunctionTypeNoNames<'a> {
    type Ast = FunctionTypeAst<'a>;

    open spec fn ast(&self) -> FunctionTypeAst<'a> {
        self.0@
    }

    open spec fn grammar(input: Input<'a>, at: Cursor) -> Parsed<FunctionTypeAst<'a>> {
        signature(input, at, FunctionTypeAst { params: Seq::empty(), results: Seq::empty() })
    }

    proof fn lemma_advances(input: Input<'a>, at: Cursor) {
        lemma_signature_advances(
            input,
            at,
            FunctionTypeAst { params: Seq::empty(), results: Seq::empty() },
        );
    }

    fn parse(parser: &mut Parser<'a>) -> (r: Result<Self, Error>) {
        let mut ty = FunctionType { params: Vec::new(), results: Vec::new() };
        let ghost input = parser.input();
        assert(ty@ =~= (FunctionTypeAst { params: Seq::empty(), results: Seq::empty() }));
        while parser.peek2_keyword("param") || parser.peek2_keyword("result")
            invariant
                parser.same_source(old(parser)),
                input == old(parser).input(),
                Self::grammar(input, old(parser).at()) == signature(input, parser.at(), ty@),
            decreases input.left(parser.at()),
        {
            proof {
                lemma_signature_group_advances(input, parser.at(), ty@);
            }
            parse_signature_group(parser, &mut ty)?;
        }
        Ok(FunctionTypeNoNames(ty))
    }
}

/// `(type index)`.
pub open spec fn type_index<'a>(input: Input<'a>, at: Cursor) -> Parsed<Index<'a>> {
    match input.open(at) {
        Ok((_, a)) => match input.keyword(a, "type"@, "expected keyword `type`") {
            Ok((_, b)) => match Index::grammar(input, b) {
                Ok((index, c)) => match input.close(c) {
                    Ok((_, to)) => Ok((index, to)),
                    Err(e) => Err(e),
                },
                Err(e) => Err(e),
            },
            Err(e) => Err(e),
        },
        Err(e) => Err(e),
    }
}

pub proof fn lemma_type_index_advances<'a>(input: Input<'a>, at: Cursor)
    ensures
        type_index(input, at) matches Ok((_, to)) ==> at.pos < to.pos,
{
    input.lemma_step(at);
    let a = input.step(at);
    input.lemma_step(a);
    let b = input.step(a);
    lemma_index_advances(input, b);
    if let Ok((_, c)) = Index::grammar(input, b) {
        input.lemma_step(c);
    }
}

fn parse_type_index<'a>(parser: &mut Parser<'a>) -> (r: Result<Index<'a>, Error>)
    requires
        old(parser).wf(),
    ensures
        final(parser).same_source(old(parser)),
        type_index(old(parser).input(), old(parser).at()) == final(parser).outcome(r),
{
    let _ = parser.open()?;
    let _ = parser.keyword("type", "expected keyword `type`")?;
    let index = Index::parse(parser)?;
    let _ = parser.close()?;
    Ok(index)
}

/// An optional `(type index)`, then an optional function type.
impl<'a> Parse<'a> for TypeUse<'a, FunctionTypeNoNames<'a>> {
    type Ast = TypeUseAst<'a>;

    open spec fn ast(&self) -> TypeUseAst<'a> {
        TypeUseAst { index: self.index, inline: self.inline.ast() }
    }

    open spec fn grammar(input: Input<'a>, at: Cursor) -> Parsed<TypeUseAst<'a>> {
        let indexed = if input.keyword_follows(at, "type"@) {
            match type_index(input, at) {
                Ok((i, to)) => Ok((Some(i), to)),
                Err(e) => Err(e),
            }
        } else {
            Ok((None, at))
        };
        match indexed {
            Ok((index, a)) => match Option::<FunctionTypeNoNames<'a>>::grammar(input, a) {
                Ok((inline, to)) => Ok((TypeUseAst { index, inline }, to)),
                Err(e) => Err(e),
            },
            Err(e) => Err(e),
        }
    }

    proof fn lemma_advances(input: Input<'a>, at: Cursor) {
        lemma_type_index_advances(input, at);
        Option::<FunctionTypeNoNames<'a>>::lemma_advances(input, at);
        if let Ok((_, to)) = type_index(input, at) {
            Option::<FunctionTypeNoNames<'a>>::lemma_advances(input, to);
        }
    }

    fn parse(parser: &mut Parser<'a>) -> (r: Result<Self, Error>) {
        let index = if parser.peek2_keyword("type") {
            Some(parse_type_index(parser)?)
        } else {
            None
        };
        let inline = Option::<FunctionTypeNoNames<'a>>::parse(parser)?;
        Ok(TypeUse { index, inline })
    }
}

impl<'a> TypeUse<'a, FunctionTypeNoNames<'a>> {
    /// The same type use, where parameters can be named.
    pub fn with_names(self) -> (t: TypeUse<'a, FunctionType<'a>>)
        ensures
            t@ == self.ast(),
    {
        TypeUse {
            index: self.index,
            inline: match self.inline {
                Some(f) => Some(f.0),
                None => None,
            },
        }
    }
}

} // verus!
