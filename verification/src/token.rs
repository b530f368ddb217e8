//! The tokens that the parser consumes, and the small values read off them.

use vstd::prelude::*;

verus! {

/// A position in the source text, as a byte offset.
#[derive(Clone, Copy, Debug, PartialEq, Eq, Structural)]
pub struct Span {
    pub offset: usize,
}

/// A parse error: where it was found, and what was wrong.
#[derive(Clone, Copy, Debug)]
pub struct Error {
    pub span: Span,
    pub msg: &'static str,
}

/// The sign written in front of a numeric literal.
#[derive(Clone, Copy, Debug, PartialEq, Eq, Structural)]
pub enum SignToken {
    Plus,
    Minus,
}

/// An integer literal.
///
/// `digits` is the literal without its sign, its `0x` prefix and its
/// underscores. An integer literal may also stand where a float is expected, so
/// the literal's value as a float comes along, as bit patterns; it is `None`
/// where that value is out of range.
#[derive(Clone, Copy, Debug)]
pub struct Integer<'a> {
    pub sign: Option<SignToken>,
    pub digits: &'a str,
    pub hex: bool,
    pub f32_bits: Option<u32>,
    pub f64_bits: Option<u64>,
}

/// A float literal, rounded to each of the two formats. A field is `None` where
/// the literal is out of that format's range.
#[derive(Clone, Copy, Debug)]
pub struct Float {
    pub f32_bits: Option<u32>,
    pub f64_bits: Option<u64>,
}

/// What a token is.
#[derive(Clone, Copy, Debug)]
pub enum TokenKind<'a> {
    LParen,
    RParen,
    /// A word that starts with a lower-case letter, such as `i32.add`.
    Keyword(&'a str),
    /// An identifier, without its `$`.
    Id(&'a str),
    /// An annotation's name, without its `@`.
    Annotation(&'a str),
    /// A string literal: the bytes it denotes, and the same as text where those
    /// bytes are UTF-8.
    String { bytes: &'a [u8], text: Option<&'a str> },
    Integer(Integer<'a>),
    Float(Float),
    /// Any other word.
    Reserved(&'a str),
}

/// A token with the position it starts at.
#[derive(Clone, Copy, Debug)]
pub struct Token<'a> {
    pub span: Span,
    pub kind: TokenKind<'a>,
}

/// An identifier such as `$x`.
#[derive(Clone, Copy, Debug)]
pub struct Id<'a> {
    pub name: &'a str,
    /// Tells generated names from written ones; zero for a written name.
    pub gen: u32,
    pub span: Span,
}

/// A reference to an item, by number or by name.
#[derive(Clone, Copy, Debug)]
pub enum Index<'a> {
    Num(u32, Span),
    Id(Id<'a>),
}

/// The name given to an item by `(@name "...")`.
#[derive(Clone, Copy, Debug)]
pub struct NameAnnotation<'a> {
    pub name: &'a str,
}

/// A 32-bit float, as its bit pattern.
#[derive(Clone, Copy, Debug, PartialEq, Eq, Structural)]
pub struct F32 {
    pub bits: u32,
}

/// A 64-bit float, as its bit pattern.
#[derive(Clone, Copy, Debug, PartialEq, Eq, Structural)]
pub struct F64 {
    pub bits: u64,
}

} // verus!
