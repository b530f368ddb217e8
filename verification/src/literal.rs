//! Integer literals.

use vstd::prelude::*;
use vstd::string::StrSliceExecFns;

use crate::parser::{Cursor, Input, Parse, Parsed, Parser, Peek};
use crate::token::{Error, Integer, SignToken, TokenKind};

verus! {

/// The value of a digit, where it is one in the given radix.
pub open spec fn digit_value(c: char, radix: nat) -> Option<nat> {
    let v = if '0' <= c <= '9' {
        c as nat - '0' as nat
    } else if 'a' <= c <= 'f' {
        c as nat - 'a' as nat + 10
    } else if 'A' <= c <= 'F' {
        c as nat - 'A' as nat + 10
    } else {
        radix as int
    };
    if v < radix {
        Some(v as nat)
    } else {
        None
    }
}

/// A non-empty sequence of digits.
pub open spec fn is_number(s: Seq<char>, radix: nat) -> bool {
    s.len() > 0 && forall|i: int| 0 <= i < s.len() ==> digit_value(#[trigger] s[i], radix) is Some
}

/// The number that a sequence of digits denotes.
pub open spec fn number_value(s: Seq<char>, radix: nat) -> nat
    decreases s.len(),
{
    if s.len() == 0 {
        0
    } else {
        number_value(s.drop_last(), radix) * radix + digit_value(s.last(), radix).unwrap_or(0)
    }
}

/// The number that `s` denotes, where it is a number below `bound`.
pub open spec fn read_number(s: Seq<char>, radix: nat, bound: nat) -> Option<nat> {
    if is_number(s, radix) && number_value(s, radix) < bound {
        Some(number_value(s, radix))
    } else {
        None
    }
}

/// Leading digits denote no more than all of them.
proof fn lemma_prefix_value(s: Seq<char>, radix: nat, n: int)
    requires
        radix >= 1,
        0 <= n <= s.len(),
    ensures
        number_value(s.take(n), radix) <= number_value(s, radix),
    decreases s.len() - n,
{
    if n == s.len() {
        assert(s.take(n) =~= s);
    } else {
        lemma_prefix_value(s, radix, n + 1);
        assert(s.take(n + 1).drop_last() =~= s.take(n));
        let v = number_value(s.take(n), radix);
        assert(v <= v * radix) by (nonlinear_arith)
            requires
                radix >= 1,
                v >= 0,
        ;
    }
}

fn read_digit(c: char, radix: u32) -> (v: Option<u32>)
    requires
        radix <= 36,
    ensures
        match v {
            Some(d) => digit_value(c, radix as nat) == Some(d as nat),
            None => digit_value(c, radix as nat) is None,
        },
{
    let u = c as u32;
    let v: u32 = if '0' <= c && c <= '9' {
        u - 48
    } else if 'a' <= c && c <= 'f' {
        u - 97 + 10
    } else if 'A' <= c && c <= 'F' {
        u - 65 + 10
    } else {
        radix
    };
    if v < radix {
        Some(v)
    } else {
        None
    }
}

/// Reads a number below 2^64; see [`read_number`].
pub fn read_u64(s: &str, radix: u32) -> (v: Option<u64>)
    requires
        2 <= radix <= 36,
    ensures
        match v {
            Some(n) => read_number(s@, radix as nat, 0x1_0000_0000_0000_0000) == Some(n as nat),
            None => read_number(s@, radix as nat, 0x1_0000_0000_0000_0000) is None,
        },
{
    let len = s.unicode_len();
    if len == 0 {
        return None;
    }
    let mut i: usize = 0;
    let mut acc: u64 = 0;
    assert(s@.take(0) =~= Seq::<char>::empty());
    while i < len
        invariant
            i <= len == s@.len(),
            2 <= radix <= 36,
            forall|j: int| 0 <= j < i ==> digit_value(#[trigger] s@[j], radix as nat) is Some,
            acc == number_value(s@.take(i as int), radix as nat),
        decreases len - i,
    {
        let c = s.get_char(i);
        match read_digit(c, radix) {
            Some(d) => {
                assert(acc * radix <= 0xffff_ffff_ffff_ffff * 36) by (nonlinear_arith)
                    requires
                        acc <= 0xffff_ffff_ffff_ffff,
                        radix <= 36,
                ;
                let next: u128 = acc as u128 * radix as u128 + d as u128;
                proof {
                    assert(s@.take(i + 1).drop_last() =~= s@.take(i as int));
                    assert(next == number_value(s@.take(i + 1), radix as nat));
                    lemma_prefix_value(s@, radix as nat, i + 1);
                }
                if next > 0xffff_ffff_ffff_ffff {
                    return None;
                }
                acc = next as u64;
            },
            None => {
                return None;
            },
        }
        i += 1;
    }
    assert(s@.take(len as int) =~= s@);
    Some(acc)
}

/// Digits of which neighbours may be joined by an underscore.
pub open spec fn is_grouped_number(s: Seq<char>, radix: nat) -> bool {
    &&& s.len() > 0
    &&& s[0] != '_'
    &&& s.last() != '_'
    &&& forall|i: int|
        0 <= i < s.len() ==> #[trigger] s[i] == '_' || digit_value(s[i], radix) is Some
    &&& forall|i: int| 0 < i < s.len() && #[trigger] s[i] == '_' ==> s[i - 1] != '_'
}

/// The digits among the characters of a grouped number.
pub open spec fn ungrouped(s: Seq<char>) -> Seq<char> {
    s.filter(|c: char| c != '_')
}

/// What the text of a word says if it is read as an integer.
pub enum WordValue {
    /// The word is no integer literal.
    NotInteger,
    /// The literal is negative, or too large.
    OutOfRange,
    Value(u64),
}

/// A word behind its sign, if it has one.
pub open spec fn unsigned_part(word: Seq<char>) -> Seq<char> {
    if word.len() > 0 && (word[0] == '+' || word[0] == '-') {
        word.skip(1)
    } else {
        word
    }
}

/// The word is hexadecimal, behind its sign.
pub open spec fn is_hex(part: Seq<char>) -> bool {
    part.len() >= 2 && part[0] == '0' && part[1] == 'x'
}

/// Reads a word as an integer literal below 2^64: an optional sign, an optional
/// `0x`, and grouped digits.
pub open spec fn word_value(word: Seq<char>) -> WordValue {
    let part = unsigned_part(word);
    let (digits, radix) = if is_hex(part) {
        (part.skip(2), 16nat)
    } else {
        (part, 10nat)
    };
    if !is_grouped_number(digits, radix) {
        WordValue::NotInteger
    } else if word[0] == '-' || number_value(ungrouped(digits), radix) > u64::MAX {
        WordValue::OutOfRange
    } else {
        WordValue::Value(number_value(ungrouped(digits), radix) as u64)
    }
}

proof fn lemma_number_value_push(s: Seq<char>, c: char, radix: nat)
    ensures
        number_value(s.push(c), radix) == number_value(s, radix) * radix + digit_value(
            c,
            radix,
        ).unwrap_or(0),
{
    assert(s.push(c).drop_last() =~= s);
}

/// Reads grouped digits, from the character at `from` to the end of the word.
fn read_grouped(s: &str, from: usize, radix: u32) -> (v: WordValue)
    requires
        2 <= radix <= 16,
        from <= s@.len(),
    ensures
        v == (if !is_grouped_number(s@.skip(from as int), radix as nat) {
            WordValue::NotInteger
        } else if number_value(ungrouped(s@.skip(from as int)), radix as nat) > u64::MAX {
            WordValue::OutOfRange
        } else {
            WordValue::Value(number_value(ungrouped(s@.skip(from as int)), radix as nat) as u64)
        }),
{
    let len = s.unicode_len();
    let ghost word = s@.skip(from as int);
    if from == len {
        return WordValue::NotInteger;
    }
    let mut i: usize = from;
    let mut acc: u64 = 0;
    let mut overflow: bool = false;
    let mut joined: bool = true;
    proof {
        assert(word.take(0) =~= Seq::<char>::empty());
        reveal(Seq::filter);
    }
    while i < len
        invariant
            from <= i <= len == s@.len(),
            word == s@.skip(from as int),
            2 <= radix <= 16,
            joined == (i == from || s@[i - 1] == '_'),
            i > from ==> word[0] != '_',
            forall|j: int|
                0 <= j < i - from ==> #[trigger] word[j] == '_' || digit_value(
                    word[j],
                    radix as nat,
                ) is Some,
            forall|j: int| 0 < j < i - from && #[trigger] word[j] == '_' ==> word[j - 1] != '_',
            overflow == (number_value(ungrouped(word.take(i - from)), radix as nat) > u64::MAX),
            !overflow ==> acc == number_value(ungrouped(word.take(i - from)), radix as nat),
        decreases len - i,
    {
        let c = s.get_char(i);
        let ghost k = i - from;
        let ghost before = ungrouped(word.take(k));
        proof {
            reveal(Seq::filter);
            assert(word[k] == c);
            assert(word.take(k + 1).drop_last() =~= word.take(k));
            assert(word.take(k + 1).last() == c);
            if c != '_' {
                assert(ungrouped(word.take(k + 1)) == before.push(c));
                lemma_number_value_push(before, c, radix as nat);
                let b = number_value(before, radix as nat);
                assert(b <= b * radix) by (nonlinear_arith)
                    requires
                        radix >= 1,
                        b >= 0,
                ;
            } else {
                assert(ungrouped(word.take(k + 1)) == before);
            }
        }
        if c == '_' {
            if joined {
                return WordValue::NotInteger;
            }
            joined = true;
        } else {
            match read_digit(c, radix) {
                Some(d) => {
                    if !overflow {
                        assert(acc * radix <= 0xffff_ffff_ffff_ffff * 16) by (nonlinear_arith)
                            requires
                                acc <= 0xffff_ffff_ffff_ffff,
                                radix <= 16,
                        ;
                        let next: u128 = acc as u128 * radix as u128 + d as u128;
                        if next > 0xffff_ffff_ffff_ffff {
                            overflow = true;
                        } else {
                            acc = next as u64;
                        }
                    }
                },
                None => {
                    return WordValue::NotInteger;
                },
            }
            joined = false;
        }
        i += 1;
    }
    assert(word.take(len - from) =~= word);
    if joined {
        WordValue::NotInteger
    } else if overflow {
        WordValue::OutOfRange
    } else {
        WordValue::Value(acc)
    }
}

/// Reads the word that starts at character `from`; see [`word_value`].
pub fn read_word(s: &str, from: usize) -> (v: WordValue)
    requires
        from <= s@.len(),
    ensures
        v == word_value(s@.skip(from as int)),
{
    let len = s.unicode_len();
    let mut start: usize = from;
    let mut negative: bool = false;
    let ghost word = s@.skip(from as int);
    if from < len {
        let sign = s.get_char(from);
        if sign == '+' || sign == '-' {
            negative = sign == '-';
            start = from + 1;
        }
    }
    let ghost part = s@.skip(start as int);
    assert(part =~= unsigned_part(word));
    let v = if len - start >= 2 && s.get_char(start) == '0' && s.get_char(start + 1) == 'x' {
        assert(s@.skip(start + 2) =~= part.skip(2));
        read_grouped(s, start + 2, 16)
    } else {
        read_grouped(s, start, 10)
    };
    match v {
        WordValue::Value(_) if negative => WordValue::OutOfRange,
        v => v,
    }
}

impl<'a> Integer<'a> {
    pub open spec fn radix(self) -> nat {
        if self.hex {
            16
        } else {
            10
        }
    }

    /// The literal's value as an unsigned integer below `bound`. A literal with
    /// a minus sign has none.
    pub open spec fn unsigned(self, bound: nat) -> Option<nat> {
        if self.sign == Some(SignToken::Minus) {
            None
        } else {
            read_number(self.digits@, self.radix(), bound)
        }
    }

    /// The literal's value as a signed integer between `-half` and `half`. From
    /// `half` up to twice that, a literal stands for the negative number with
    /// the same bits.
    pub open spec fn signed(self, half: nat) -> Option<int> {
        if !is_number(self.digits@, self.radix()) {
            None
        } else {
            let magnitude = number_value(self.digits@, self.radix());
            if self.sign == Some(SignToken::Minus) {
                if magnitude <= half {
                    Some(-magnitude)
                } else {
                    None
                }
            } else if magnitude < half {
                Some(magnitude as int)
            } else if magnitude < 2 * half {
                Some(magnitude - 2 * half)
            } else {
                None
            }
        }
    }

    fn read_magnitude(&self) -> (v: Option<u64>)
        ensures
            match v {
                Some(n) => is_number(self.digits@, self.radix()) && number_value(
                    self.digits@,
                    self.radix(),
                ) == n,
                None => !is_number(self.digits@, self.radix()) || number_value(
                    self.digits@,
                    self.radix(),
                ) > u64::MAX,
            },
    {
        if self.hex {
            read_u64(self.digits, 16)
        } else {
            read_u64(self.digits, 10)
        }
    }

    /// Reads an unsigned integer of at most `max`; see [`Integer::unsigned`].
    pub fn read_unsigned(&self, max: u64) -> (v: Option<u64>)
        ensures
            match v {
                Some(n) => self.unsigned(max as nat + 1) == Some(n as nat),
                None => self.unsigned(max as nat + 1) is None,
            },
    {
        if let Some(SignToken::Minus) = self.sign {
            return None;
        }
        match self.read_magnitude() {
            Some(n) if n <= max => Some(n),
            _ => None,
        }
    }

    /// Reads a signed integer; see [`Integer::signed`].
    pub fn read_signed(&self, half: u64) -> (v: Option<i64>)
        requires
            1 <= half <= 0x8000_0000_0000_0000,
        ensures
            match v {
                Some(n) => self.signed(half as nat) == Some(n as int),
                None => self.signed(half as nat) is None,
            },
    {
        match self.read_magnitude() {
            Some(m) => {
                let magnitude: i128 = m as i128;
                let h: i128 = half as i128;
                if let Some(SignToken::Minus) = self.sign {
                    if magnitude <= h {
                        Some((0 - magnitude) as i64)
                    } else {
                        None
                    }
                } else if magnitude < h {
                    Some(magnitude as i64)
                } else if magnitude < 2 * h {
                    Some((magnitude - 2 * h) as i64)
                } else {
                    None
                }
            },
            None => None,
        }
    }
}

impl<'a> Peek<'a> for u8 {
    open spec fn starts(input: Input<'a>, at: Cursor) -> bool {
        input.tok(at) matches Some(TokenKind::Integer(_))
    }

    fn peek(parser: &Parser<'a>) -> (b: bool) {
        match parser.token() {
            Some(TokenKind::Integer(_)) => true,
            _ => false,
        }
    }
}

/// An unsigned integer below 2^8.
impl<'a> Parse<'a> for u8 {
    type Ast = u8;

    open spec fn ast(&self) -> u8 {
        *self
    }

    open spec fn grammar(input: Input<'a>, at: Cursor) -> Parsed<u8> {
        match input.tok(at) {
            Some(TokenKind::Integer(i)) => match i.unsigned(0x100) {
                Some(n) => Ok((n as u8, input.step(at))),
                None => input.fail(at, "invalid u8 number: constant out of range"),
            },
            _ => input.fail(at, "expected a u8"),
        }
    }

    proof fn lemma_advances(input: Input<'a>, at: Cursor) {
        input.lemma_step(at);
    }

    fn parse(parser: &mut Parser<'a>) -> (r: Result<Self, Error>) {
        match parser.token() {
            Some(TokenKind::Integer(i)) => match i.read_unsigned(u8::MAX as u64) {
                Some(n) => {
                    parser.advance();
                    Ok(n as u8)
                },
                None => Err(parser.error("invalid u8 number: constant out of range")),
            },
            _ => Err(parser.error("expected a u8")),
        }
    }
}

impl<'a> Peek<'a> for u32 {
    open spec fn starts(input: Input<'a>, at: Cursor) -> bool {
        input.tok(at) matches Some(TokenKind::Integer(_))
    }

    fn peek(parser: &Parser<'a>) -> (b: bool) {
        match parser.token() {
            Some(TokenKind::Integer(_)) => true,
            _ => false,
        }
    }
}

/// An unsigned integer below 2^32.
impl<'a> Parse<'a> for u32 {
    type Ast = u32;

    open spec fn ast(&self) -> u32 {
        *self
    }

    open spec fn grammar(input: Input<'a>, at: Cursor) -> Parsed<u32> {
        match input.tok(at) {
            Some(TokenKind::Integer(i)) => match i.unsigned(0x100000000) {
                Some(n) => Ok((n as u32, input.step(at))),
                None => input.fail(at, "invalid u32 number: constant out of range"),
            },
            _ => input.fail(at, "expected a u32"),
        }
    }

    proof fn lemma_advances(input: Input<'a>, at: Cursor) {
        input.lemma_step(at);
    }

    fn parse(parser: &mut Parser<'a>) -> (r: Result<Self, Error>) {
        match parser.token() {
            Some(TokenKind::Integer(i)) => match i.read_unsigned(u32::MAX as u64) {
                Some(n) => {
                    parser.advance();
                    Ok(n as u32)
                },
                None => Err(parser.error("invalid u32 number: constant out of range")),
            },
            _ => Err(parser.error("expected a u32")),
        }
    }
}

/// A signed integer of 8 bits, which may be written as its unsigned
/// counterpart.
impl<'a> Parse<'a> for i8 {
    type Ast = i8;

    open spec fn ast(&self) -> i8 {
        *self
    }

    open spec fn grammar(input: Input<'a>, at: Cursor) -> Parsed<i8> {
        match input.tok(at) {
            Some(TokenKind::Integer(i)) => match i.signed(0x80) {
                Some(n) => Ok((n as i8, input.step(at))),
                None => input.fail(at, "invalid i8 number: constant out of range"),
            },
            _ => input.fail(at, "expected a i8"),
        }
    }

    proof fn lemma_advances(input: Input<'a>, at: Cursor) {
        input.lemma_step(at);
    }

    fn parse(parser: &mut Parser<'a>) -> (r: Result<Self, Error>) {
        match parser.token() {
            Some(TokenKind::Integer(i)) => match i.read_signed(0x80) {
                Some(n) => {
                    parser.advance();
                    Ok(n as i8)
                },
                None => Err(parser.error("invalid i8 number: constant out of range")),
            },
            _ => Err(parser.error("expected a i8")),
        }
    }
}

/// A signed integer of 16 bits, which may be written as its unsigned
/// counterpart.
impl<'a> Parse<'a> for i16 {
    type Ast = i16;

    open spec fn ast(&self) -> i16 {
        *self
    }

    open spec fn grammar(input: Input<'a>, at: Cursor) -> Parsed<i16> {
        match input.tok(at) {
            Some(TokenKind::Integer(i)) => match i.signed(0x8000) {
                Some(n) => Ok((n as i16, input.step(at))),
                None => input.fail(at, "invalid i16 number: constant out of range"),
            },
            _ => input.fail(at, "expected a i16"),
        }
    }

    proof fn lemma_advances(input: Input<'a>, at: Cursor) {
        input.lemma_step(at);
    }

    fn parse(parser: &mut Parser<'a>) -> (r: Result<Self, Error>) {
        match parser.token() {
            Some(TokenKind::Integer(i)) => match i.read_signed(0x8000) {
                Some(n) => {
                    parser.advance();
                    Ok(n as i16)
                },
                None => Err(parser.error("invalid i16 number: constant out of range")),
            },
            _ => Err(parser.error("expected a i16")),
        }
    }
}

/// A signed integer of 32 bits, which may be written as its unsigned
/// counterpart.
impl<'a> Parse<'a> for i32 {
    type Ast = i32;

    open spec fn ast(&self) -> i32 {
        *self
    }

    open spec fn grammar(input: Input<'a>, at: Cursor) -> Parsed<i32> {
        match input.tok(at) {
            Some(TokenKind::Integer(i)) => match i.signed(0x80000000) {
                Some(n) => Ok((n as i32, input.step(at))),
                None => input.fail(at, "invalid i32 number: constant out of range"),
            },
            _ => input.fail(at, "expected a i32"),
        }
    }

    proof fn lemma_advances(input: Input<'a>, at: Cursor) {
        input.lemma_step(at);
    }

    fn parse(parser: &mut Parser<'a>) -> (r: Result<Self, Error>) {
        match parser.token() {
            Some(TokenKind::Integer(i)) => match i.read_signed(0x80000000) {
                Some(n) => {
                    parser.advance();
                    Ok(n as i32)
                },
                None => Err(parser.error("invalid i32 number: constant out of range")),
            },
            _ => Err(parser.error("expected a i32")),
        }
    }
}

/// A signed integer of 64 bits, which may be written as its unsigned
/// counterpart.
impl<'a> Parse<'a> for i64 {
    type Ast = i64;

    open spec fn ast(&self) -> i64 {
        *self
    }

    open spec fn grammar(input: Input<'a>, at: Cursor) -> Parsed<i64> {
        match input.tok(at) {
            Some(TokenKind::Integer(i)) => match i.signed(0x8000000000000000) {
                Some(n) => Ok((n as i64, input.step(at))),
                None => input.fail(at, "invalid i64 number: constant out of range"),
            },
            _ => input.fail(at, "expected a i64"),
        }
    }

    proof fn lemma_advances(input: Input<'a>, at: Cursor) {
        input.lemma_step(at);
    }

    fn parse(parser: &mut Parser<'a>) -> (r: Result<Self, Error>) {
        match parser.token() {
            Some(TokenKind::Integer(i)) => match i.read_signed(0x8000000000000000) {
                Some(n) => {
                    parser.advance();
                    Ok(n as i64)
                },
                None => Err(parser.error("invalid i64 number: constant out of range")),
            },
            _ => Err(parser.error("expected a i64")),
        }
    }
}

} // verus!
