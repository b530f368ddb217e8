//! Identifiers, indices, strings and floats.

use vstd::prelude::*;

use crate::parser::{Cursor, Input, Parse, Parsed, Parser, Peek};
use crate::token::{Error, Id, Index, NameAnnotation, TokenKind, F32, F64};

verus! {

impl<'a> Peek<'a> for Id<'a> {
    open spec fn starts(input: Input<'a>, at: Cursor) -> bool {
        input.tok(at) matches Some(TokenKind::Id(_))
    }

    fn peek(parser: &Parser<'a>) -> (b: bool) {
        match parser.token() {
            Some(TokenKind::Id(_)) => true,
            _ => false,
        }
    }
}

impl<'a> Parse<'a> for Id<'a> {
    type Ast = Id<'a>;

    open spec fn ast(&self) -> Id<'a> {
        *self
    }

    open spec fn grammar(input: Input<'a>, at: Cursor) -> Parsed<Id<'a>> {
        match input.tok(at) {
            Some(TokenKind::Id(name)) => Ok(
                (Id { name, gen: 0, span: input.here(at) }, input.step(at)),
            ),
            _ => input.fail(at, "expected an identifier"),
        }
    }

    proof fn lemma_advances(input: Input<'a>, at: Cursor) {
        input.lemma_step(at);
    }

    fn parse(parser: &mut Parser<'a>) -> (r: Result<Self, Error>) {
        match parser.token() {
            Some(TokenKind::Id(name)) => {
                let span = parser.cur_span();
                parser.advance();
                Ok(Id { name, gen: 0, span })
            },
            _ => Err(parser.error("expected an identifier")),
        }
    }
}

impl<'a> Peek<'a> for Index<'a> {
    open spec fn starts(input: Input<'a>, at: Cursor) -> bool {
        Id::starts(input, at) || u32::starts(input, at)
    }

    fn peek(parser: &Parser<'a>) -> (b: bool) {
        Id::peek(parser) || u32::peek(parser)
    }
}

impl<'a> Parse<'a> for Index<'a> {
    type Ast = Index<'a>;

    open spec fn ast(&self) -> Index<'a> {
        *self
    }

    open spec fn grammar(input: Input<'a>, at: Cursor) -> Parsed<Index<'a>> {
        if Id::starts(input, at) {
            match Id::grammar(input, at) {
                Ok((id, to)) => Ok((Index::Id(id), to)),
                Err(e) => Err(e),
            }
        } else if u32::starts(input, at) {
            match u32::grammar(input, at) {
                Ok((n, to)) => Ok((Index::Num(n, input.here(at)), to)),
                Err(e) => Err(e),
            }
        } else {
            input.fail(at, "unexpected token, expected an identifier or a u32")
        }
    }

    proof fn lemma_advances(input: Input<'a>, at: Cursor) {
        input.lemma_step(at);
    }

    fn parse(parser: &mut Parser<'a>) -> (r: Result<Self, Error>) {
        if Id::peek(parser) {
            let id = Id::parse(parser)?;
            Ok(Index::Id(id))
        } else if u32::peek(parser) {
            let span = parser.cur_span();
            let n = u32::parse(parser)?;
            Ok(Index::Num(n, span))
        } else {
            Err(parser.error("unexpected token, expected an identifier or a u32"))
        }
    }
}

/// An index stands behind the next token.
pub open spec fn index_follows<'a>(input: Input<'a>, at: Cursor) -> bool {
    input.tok(at) is Some && Index::starts(input, input.step(at))
}

/// Looks for an index behind the next token.
pub fn peek2_index<'a>(parser: &Parser<'a>) -> (b: bool)
    requires
        parser.wf(),
    ensures
        b == index_follows(parser.input(), parser.at()),
{
    if parser.token().is_none() {
        return false;
    }
    match parser.second_token() {
        Some(TokenKind::Id(_)) => true,
        Some(TokenKind::Integer(_)) => true,
        _ => false,
    }
}

/// An index moves the cursor on.
pub proof fn lemma_index_advances<'a>(input: Input<'a>, at: Cursor)
    ensures
        Index::grammar(input, at) matches Ok((_, to)) ==> at.pos < to.pos,
{
    input.lemma_step(at);
}

/// Text: a string literal that is UTF-8.
impl<'a> Parse<'a> for &'a str {
    type Ast = &'a str;

    open spec fn ast(&self) -> &'a str {
        *self
    }

    open spec fn grammar(input: Input<'a>, at: Cursor) -> Parsed<&'a str> {
        match input.tok(at) {
            Some(TokenKind::String { text: Some(text), .. }) => Ok((text, input.step(at))),
            Some(TokenKind::String { text: None, .. }) => input.fail(
                at,
                "malformed UTF-8 encoding",
            ),
            _ => input.fail(at, "expected a string"),
        }
    }

    proof fn lemma_advances(input: Input<'a>, at: Cursor) {
        input.lemma_step(at);
    }

    fn parse(parser: &mut Parser<'a>) -> (r: Result<Self, Error>) {
        match parser.token() {
            Some(TokenKind::String { text: Some(text), .. }) => {
                parser.advance();
                Ok(text)
            },
            Some(TokenKind::String { text: None, .. }) => Err(
                parser.error("malformed UTF-8 encoding"),
            ),
            _ => Err(parser.error("expected a string")),
        }
    }
}

impl<'a> Parse<'a> for NameAnnotation<'a> {
    type Ast = NameAnnotation<'a>;

    open spec fn ast(&self) -> NameAnnotation<'a> {
        *self
    }

    open spec fn grammar(input: Input<'a>, at: Cursor) -> Parsed<NameAnnotation<'a>> {
        match input.annotation(at, "name"@, "expected annotation `@name`") {
            Ok((_, a)) => match <&'a str>::grammar(input, a) {
                Ok((name, to)) => Ok((NameAnnotation { name }, to)),
                Err(e) => Err(e),
            },
            Err(e) => Err(e),
        }
    }

    proof fn lemma_advances(input: Input<'a>, at: Cursor) {
        input.lemma_step(at);
        <&'a str>::lemma_advances(input, input.step(at));
    }

    fn parse(parser: &mut Parser<'a>) -> (r: Result<Self, Error>) {
        let _ = parser.annotation("name", "expected annotation `@name`")?;
        let name = <&'a str>::parse(parser)?;
        Ok(NameAnnotation { name })
    }
}

/// An optional `(@name "...")`, where that annotation is registered.
pub open spec fn optional_name<'a>(named: Input<'a>, at: Cursor) -> Parsed<
    Option<NameAnnotation<'a>>,
> {
    if named.annotation_follows(at, "name"@) {
        match named.open(at) {
            Ok((_, a)) => match NameAnnotation::grammar(named, a) {
                Ok((name, b)) => match named.close(b) {
                    Ok((_, to)) => Ok((Some(name), to)),
                    Err(e) => Err(e),
                },
                Err(e) => Err(e),
            },
            Err(e) => Err(e),
        }
    } else {
        Ok((None, at))
    }
}

/// An optional `(@name "...")`.
impl<'a> Parse<'a> for Option<NameAnnotation<'a>> {
    type Ast = Option<NameAnnotation<'a>>;

    open spec fn ast(&self) -> Option<NameAnnotation<'a>> {
        *self
    }

    open spec fn grammar(input: Input<'a>, at: Cursor) -> Parsed<Option<NameAnnotation<'a>>> {
        optional_name(input.with_annotation("name"@), at)
    }

    proof fn lemma_advances(input: Input<'a>, at: Cursor) {
        let named = input.with_annotation("name"@);
        named.lemma_step(at);
        let a = named.step(at);
        NameAnnotation::lemma_advances(named, a);
        if let Ok((_, b)) = NameAnnotation::grammar(named, a) {
            named.lemma_step(b);
        }
    }

    fn parse(parser: &mut Parser<'a>) -> (r: Result<Self, Error>) {
        parser.register_annotation("name");
        let r = parse_name(parser);
        parser.unregister_annotation();
        assert(old(parser).input().with_annotation("name"@).known.drop_last()
            =~= old(parser).input().known);
        r
    }
}

fn parse_name<'a>(parser: &mut Parser<'a>) -> (r: Result<Option<NameAnnotation<'a>>, Error>)
    requires
        old(parser).wf(),
    ensures
        final(parser).same_source(old(parser)),
        optional_name(old(parser).input(), old(parser).at()) == final(parser).outcome(r),
{
    if parser.peek2_annotation("name") {
        let _ = parser.open()?;
        let name = NameAnnotation::parse(parser)?;
        let _ = parser.close()?;
        Ok(Some(name))
    } else {
        Ok(None)
    }
}

impl<'a> Parse<'a> for F32 {
    type Ast = F32;

    open spec fn ast(&self) -> F32 {
        *self
    }

    open spec fn grammar(input: Input<'a>, at: Cursor) -> Parsed<F32> {
        let bits = match input.tok(at) {
            Some(TokenKind::Float(f)) => Some(f.f32_bits),
            Some(TokenKind::Integer(i)) => Some(i.f32_bits),
            _ => None,
        };
        match bits {
            Some(Some(bits)) => Ok((F32 { bits }, input.step(at))),
            Some(None) => input.fail(at, "invalid float value: constant out of range"),
            None => input.fail(at, "expected a float"),
        }
    }

    proof fn lemma_advances(input: Input<'a>, at: Cursor) {
        input.lemma_step(at);
    }

    fn parse(parser: &mut Parser<'a>) -> (r: Result<Self, Error>) {
        let bits = match parser.token() {
            Some(TokenKind::Float(f)) => f.f32_bits,
            Some(TokenKind::Integer(i)) => i.f32_bits,
            _ => {
                return Err(parser.error("expected a float"));
            },
        };
        match bits {
            Some(bits) => {
                parser.advance();
                Ok(F32 { bits })
            },
            None => Err(parser.error("invalid float value: constant out of range")),
        }
    }
}

impl<'a> Parse<'a> for F64 {
    type Ast = F64;

    open spec fn ast(&self) -> F64 {
        *self
    }

    open spec fn grammar(input: Input<'a>, at: Cursor) -> Parsed<F64> {
        let bits = match input.tok(at) {
            Some(TokenKind::Float(f)) => Some(f.f64_bits),
            Some(TokenKind::Integer(i)) => Some(i.f64_bits),
            _ => None,
        };
        match bits {
            Some(Some(bits)) => Ok((F64 { bits }, input.step(at))),
            Some(None) => input.fail(at, "invalid float value: constant out of range"),
            None => input.fail(at, "expected a float"),
        }
    }

    proof fn lemma_advances(input: Input<'a>, at: Cursor) {
        input.lemma_step(at);
    }

    fn parse(parser: &mut Parser<'a>) -> (r: Result<Self, Error>) {
        let bits = match parser.token() {
            Some(TokenKind::Float(f)) => f.f64_bits,
            Some(TokenKind::Integer(i)) => i.f64_bits,
            _ => {
                return Err(parser.error("expected a float"));
            },
        };
        match bits {
            Some(bits) => {
                parser.advance();
                Ok(F64 { bits })
            },
            None => Err(parser.error("invalid float value: constant out of range")),
        }
    }
}

} // verus!
