//! Operands of the vector instructions.

use vstd::prelude::*;

use crate::bytes::{
    bits16, bits32, bits64, byte_of, le16, le32, le64, le8, twos_complement,
};
use crate::parser::{Cursor, Input, Parse, Parsed, Parser};
use crate::token::{Error, TokenKind, F32, F64};

verus! {

/// Payload for lane-related instructions. Unsigned with no + prefix.
#[derive(Debug, Clone)]
pub struct LaneArg {
    /// The lane argument.
    pub lane: u8,
}

impl<'a> Parse<'a> for LaneArg {
    type Ast = LaneArg;

    open spec fn ast(&self) -> LaneArg {
        *self
    }

    open spec fn grammar(input: Input<'a>, at: Cursor) -> Parsed<LaneArg> {
        match input.tok(at) {
            Some(TokenKind::Integer(i)) => if i.sign is None {
                match i.unsigned(0x100) {
                    Some(n) => Ok((LaneArg { lane: n as u8 }, input.step(at))),
                    None => input.fail(at, "malformed lane index"),
                }
            } else {
                input.fail(at, "unexpected token")
            },
            _ => input.fail(at, "expected a lane index"),
        }
    }

    proof fn lemma_advances(input: Input<'a>, at: Cursor) {
        input.lemma_step(at);
    }

    fn parse(parser: &mut Parser<'a>) -> (r: Result<Self, Error>) {
        match parser.token() {
            Some(TokenKind::Integer(i)) => {
                if i.sign.is_none() {
                    match i.read_unsigned(0xff) {
                        Some(n) => {
                            parser.advance();
                            Ok(LaneArg { lane: n as u8 })
                        },
                        None => Err(parser.error("malformed lane index")),
                    }
                } else {
                    Err(parser.error("unexpected token"))
                }
            },
            _ => Err(parser.error("expected a lane index")),
        }
    }
}

/// `count` values in a row, behind those of `acc`.
pub open spec fn lanes<'a, T: Parse<'a>>(
    input: Input<'a>,
    at: Cursor,
    count: nat,
    acc: Seq<T::Ast>,
) -> Parsed<Seq<T::Ast>>
    decreases count,
{
    if count == 0 {
        Ok((acc, at))
    } else {
        match T::grammar(input, at) {
            Ok((v, to)) => lanes::<T>(input, to, (count - 1) as nat, acc.push(v)),
            Err(e) => Err(e),
        }
    }
}

pub proof fn lemma_lanes<'a, T: Parse<'a>>(
    input: Input<'a>,
    at: Cursor,
    count: nat,
    acc: Seq<T::Ast>,
)
    ensures
        lanes::<T>(input, at, count, acc) matches Ok((all, to)) ==> at.pos <= to.pos && all.len()
            == acc.len() + count,
    decreases count,
{
    if count > 0 {
        T::lemma_advances(input, at);
        if let Ok((v, to)) = T::grammar(input, at) {
            lemma_lanes::<T>(input, to, (count - 1) as nat, acc.push(v));
        }
    }
}

/// The trees of a list of values.
pub open spec fn asts<'a, T: Parse<'a>>(values: Seq<T>) -> Seq<T::Ast> {
    Seq::new(values.len(), |i: int| values[i].ast())
}

/// Parses `count` values in a row; see [`lanes`].
fn parse_lanes<'a, T: Parse<'a>>(parser: &mut Parser<'a>, count: usize) -> (r: Result<Vec<T>, Error>)
    requires
        old(parser).wf(),
    ensures
        final(parser).same_source(old(parser)),
        match r {
            Ok(v) => v@.len() == count && lanes::<T>(
                old(parser).input(),
                old(parser).at(),
                count as nat,
                Seq::empty(),
            ) == Ok::<_, Error>((asts(v@), final(parser).at())),
            Err(e) => lanes::<T>(
                old(parser).input(),
                old(parser).at(),
                count as nat,
                Seq::empty(),
            ) == Err::<(Seq<T::Ast>, Cursor), Error>(e),
        },
{
    let mut values: Vec<T> = Vec::new();
    assert(asts(values@) =~= Seq::<T::Ast>::empty());
    while values.len() < count
        invariant
            values@.len() <= count,
            parser.same_source(old(parser)),
            lanes::<T>(old(parser).input(), old(parser).at(), count as nat, Seq::empty())
                == lanes::<T>(
                parser.input(),
                parser.at(),
                (count - values@.len()) as nat,
                asts(values@),
            ),
        decreases count - values@.len(),
    {
        let v = T::parse(parser)?;
        assert(asts(values@.push(v)) =~= asts(values@).push(v.ast()));
        values.push(v);
    }
    Ok(values)
}

/// Different ways to specify a `v128.const` instruction
#[derive(Clone, Debug)]
pub enum V128Const {
    I8x16([i8; 16]),
    I16x8([i16; 8]),
    I32x4([i32; 4]),
    I64x2([i64; 2]),
    F32x4([F32; 4]),
    F64x2([F64; 2]),
}

/// A `v128.const` operand, as the list of its lanes.
pub enum V128ConstAst {
    I8x16(Seq<i8>),
    I16x8(Seq<i16>),
    I32x4(Seq<i32>),
    I64x2(Seq<i64>),
    F32x4(Seq<F32>),
    F64x2(Seq<F64>),
}

impl V128Const {
    /// How many bytes a lane has.
    pub open spec fn lane_width(self) -> nat {
        match self {
            V128Const::I8x16(_) => 1,
            V128Const::I16x8(_) => 2,
            V128Const::I32x4(_) => 4,
            V128Const::I64x2(_) => 8,
            V128Const::F32x4(_) => 4,
            V128Const::F64x2(_) => 8,
        }
    }

    /// The bits of the `i`-th lane.
    pub open spec fn lane_bits(self, i: int) -> nat {
        match self {
            V128Const::I8x16(arr) => twos_complement(arr@[i] as int, 0x100),
            V128Const::I16x8(arr) => twos_complement(arr@[i] as int, 0x10000),
            V128Const::I32x4(arr) => twos_complement(arr@[i] as int, 0x100000000),
            V128Const::I64x2(arr) => twos_complement(arr@[i] as int, 0x10000000000000000),
            V128Const::F32x4(arr) => arr@[i].bits as nat,
            V128Const::F64x2(arr) => arr@[i].bits as nat,
        }
    }

    /// The bytes of the lanes, one lane after the other, each from its low end.
    pub open spec fn le_bytes(self) -> Seq<u8> {
        let w = self.lane_width() as int;
        Seq::new(16, |j: int| byte_of(self.lane_bits(j / w), (j % w) as nat))
    }

    /// Returns the raw little-ended byte sequence used to represent this
    /// `v128` constant`
    ///
    /// This is typically suitable for encoding as the payload of the
    /// `v128.const` instruction.
    pub fn to_le_bytes(&self) -> (bytes: [u8; 16])
        ensures
            bytes@ == self.le_bytes(),
    {
        match self {
            V128Const::I8x16(arr) => i8x16_le_bytes(arr),
            V128Const::I16x8(arr) => i16x8_le_bytes(arr),
            V128Const::I32x4(arr) => i32x4_le_bytes(arr),
            V128Const::I64x2(arr) => i64x2_le_bytes(arr),
            V128Const::F32x4(arr) => f32x4_le_bytes(arr),
            V128Const::F64x2(arr) => f64x2_le_bytes(arr),
        }
    }
}

fn i8x16_le_bytes(arr: &[i8; 16]) -> (bytes: [u8; 16])
    ensures
        bytes@ == V128Const::I8x16(*arr).le_bytes(),
{
    let bytes: [u8; 16] = [
        le8(arr[0]),
        le8(arr[1]),
        le8(arr[2]),
        le8(arr[3]),
        le8(arr[4]),
        le8(arr[5]),
        le8(arr[6]),
        le8(arr[7]),
        le8(arr[8]),
        le8(arr[9]),
        le8(arr[10]),
        le8(arr[11]),
        le8(arr[12]),
        le8(arr[13]),
        le8(arr[14]),
        le8(arr[15]),
    ];
    let ghost v = V128Const::I8x16(*arr);
    proof {
        assert(bytes@[0] == byte_of(v.lane_bits(0), 0));
        assert(bytes@[1] == byte_of(v.lane_bits(1), 0));
        assert(bytes@[2] == byte_of(v.lane_bits(2), 0));
        assert(bytes@[3] == byte_of(v.lane_bits(3), 0));
        assert(bytes@[4] == byte_of(v.lane_bits(4), 0));
        assert(bytes@[5] == byte_of(v.lane_bits(5), 0));
        assert(bytes@[6] == byte_of(v.lane_bits(6), 0));
        assert(bytes@[7] == byte_of(v.lane_bits(7), 0));
        assert(bytes@[8] == byte_of(v.lane_bits(8), 0));
        assert(bytes@[9] == byte_of(v.lane_bits(9), 0));
        assert(bytes@[10] == byte_of(v.lane_bits(10), 0));
        assert(bytes@[11] == byte_of(v.lane_bits(11), 0));
        assert(bytes@[12] == byte_of(v.lane_bits(12), 0));
        assert(bytes@[13] == byte_of(v.lane_bits(13), 0));
        assert(bytes@[14] == byte_of(v.lane_bits(14), 0));
        assert(bytes@[15] == byte_of(v.lane_bits(15), 0));
    }
    assert(bytes@ =~= v.le_bytes());
    bytes
}

fn i16x8_le_bytes(arr: &[i16; 8]) -> (bytes: [u8; 16])
    ensures
        bytes@ == V128Const::I16x8(*arr).le_bytes(),
{
    let a0 = le16(bits16(arr[0]));
    let a1 = le16(bits16(arr[1]));
    let a2 = le16(bits16(arr[2]));
    let a3 = le16(bits16(arr[3]));
    let a4 = le16(bits16(arr[4]));
    let a5 = le16(bits16(arr[5]));
    let a6 = le16(bits16(arr[6]));
    let a7 = le16(bits16(arr[7]));
    let bytes: [u8; 16] = [
        a0[0], a0[1],
        a1[0], a1[1],
        a2[0], a2[1],
        a3[0], a3[1],
        a4[0], a4[1],
        a5[0], a5[1],
        a6[0], a6[1],
        a7[0], a7[1],
    ];
    let ghost v = V128Const::I16x8(*arr);
    proof {
        assert(bytes@[0] == byte_of(v.lane_bits(0), 0));
        assert(bytes@[1] == byte_of(v.lane_bits(0), 1));
        assert(bytes@[2] == byte_of(v.lane_bits(1), 0));
        assert(bytes@[3] == byte_of(v.lane_bits(1), 1));
        assert(bytes@[4] == byte_of(v.lane_bits(2), 0));
        assert(bytes@[5] == byte_of(v.lane_bits(2), 1));
        assert(bytes@[6] == byte_of(v.lane_bits(3), 0));
        assert(bytes@[7] == byte_of(v.lane_bits(3), 1));
        assert(bytes@[8] == byte_of(v.lane_bits(4), 0));
        assert(bytes@[9] == byte_of(v.lane_bits(4), 1));
        assert(bytes@[10] == byte_of(v.lane_bits(5), 0));
        assert(bytes@[11] == byte_of(v.lane_bits(5), 1));
        assert(bytes@[12] == byte_of(v.lane_bits(6), 0));
        assert(bytes@[13] == byte_of(v.lane_bits(6), 1));
        assert(bytes@[14] == byte_of(v.lane_bits(7), 0));
        assert(bytes@[15] == byte_of(v.lane_bits(7), 1));
    }
    assert(bytes@ =~= v.le_bytes());
    bytes
}

fn i32x4_le_bytes(arr: &[i32; 4]) -> (bytes: [u8; 16])
    ensures
        bytes@ == V128Const::I32x4(*arr).le_bytes(),
{
    let a0 = le32(bits32(arr[0]));
    let a1 = le32(bits32(arr[1]));
    let a2 = le32(bits32(arr[2]));
    let a3 = le32(bits32(arr[3]));
    let bytes: [u8; 16] = [
        a0[0], a0[1], a0[2], a0[3],
        a1[0], a1[1], a1[2], a1[3],
        a2[0], a2[1], a2[2], a2[3],
        a3[0], a3[1], a3[2], a3[3],
    ];
    let ghost v = V128Const::I32x4(*arr);
    proof {
        assert(bytes@[0] == byte_of(v.lane_bits(0), 0));
        assert(bytes@[1] == byte_of(v.lane_bits(0), 1));
        assert(bytes@[2] == byte_of(v.lane_bits(0), 2));
        assert(bytes@[3] == byte_of(v.lane_bits(0), 3));
        assert(bytes@[4] == byte_of(v.lane_bits(1), 0));
        assert(bytes@[5] == byte_of(v.lane_bits(1), 1));
        assert(bytes@[6] == byte_of(v.lane_bits(1), 2));
        assert(bytes@[7] == byte_of(v.lane_bits(1), 3));
        assert(bytes@[8] == byte_of(v.lane_bits(2), 0));
        assert(bytes@[9] == byte_of(v.lane_bits(2), 1));
        assert(bytes@[10] == byte_of(v.lane_bits(2), 2));
        assert(bytes@[11] == byte_of(v.lane_bits(2), 3));
        assert(bytes@[12] == byte_of(v.lane_bits(3), 0));
        assert(bytes@[13] == byte_of(v.lane_bits(3), 1));
        assert(bytes@[14] == byte_of(v.lane_bits(3), 2));
        assert(bytes@[15] == byte_of(v.lane_bits(3), 3));
    }
    assert(bytes@ =~= v.le_bytes());
    bytes
}

fn i64x2_le_bytes(arr: &[i64; 2]) -> (bytes: [u8; 16])
    ensures
        bytes@ == V128Const::I64x2(*arr).le_bytes(),
{
    let a0 = le64(bits64(arr[0]));
    let a1 = le64(bits64(arr[1]));
    let bytes: [u8; 16] = [
        a0[0], a0[1], a0[2], a0[3], a0[4], a0[5], a0[6], a0[7],
        a1[0], a1[1], a1[2], a1[3], a1[4], a1[5], a1[6], a1[7],
    ];
    let ghost v = V128Const::I64x2(*arr);
    proof {
        assert(bytes@[0] == byte_of(v.lane_bits(0), 0));
        assert(bytes@[1] == byte_of(v.lane_bits(0), 1));
        assert(bytes@[2] == byte_of(v.lane_bits(0), 2));
        assert(bytes@[3] == byte_of(v.lane_bits(0), 3));
        assert(bytes@[4] == byte_of(v.lane_bits(0), 4));
        assert(bytes@[5] == byte_of(v.lane_bits(0), 5));
        assert(bytes@[6] == byte_of(v.lane_bits(0), 6));
        assert(bytes@[7] == byte_of(v.lane_bits(0), 7));
        assert(bytes@[8] == byte_of(v.lane_bits(1), 0));
        assert(bytes@[9] == byte_of(v.lane_bits(1), 1));
        assert(bytes@[10] == byte_of(v.lane_bits(1), 2));
        assert(bytes@[11] == byte_of(v.lane_bits(1), 3));
        assert(bytes@[12] == byte_of(v.lane_bits(1), 4));
        assert(bytes@[13] == byte_of(v.lane_bits(1), 5));
        assert(bytes@[14] == byte_of(v.lane_bits(1), 6));
        assert(bytes@[15] == byte_of(v.lane_bits(1), 7));
    }
    assert(bytes@ =~= v.le_bytes());
    bytes
}

fn f32x4_le_bytes(arr: &[F32; 4]) -> (bytes: [u8; 16])
    ensures
        bytes@ == V128Const::F32x4(*arr).le_bytes(),
{
    let a0 = le32(arr[0].bits);
    let a1 = le32(arr[1].bits);
    let a2 = le32(arr[2].bits);
    let a3 = le32(arr[3].bits);
    let bytes: [u8; 16] = [
        a0[0], a0[1], a0[2], a0[3],
        a1[0], a1[1], a1[2], a1[3],
        a2[0], a2[1], a2[2], a2[3],
        a3[0], a3[1], a3[2], a3[3],
    ];
    let ghost v = V128Const::F32x4(*arr);
    proof {
        assert(bytes@[0] == byte_of(v.lane_bits(0), 0));
        assert(bytes@[1] == byte_of(v.lane_bits(0), 1));
        assert(bytes@[2] == byte_of(v.lane_bits(0), 2));
        assert(bytes@[3] == byte_of(v.lane_bits(0), 3));
        assert(bytes@[4] == byte_of(v.lane_bits(1), 0));
        assert(bytes@[5] == byte_of(v.lane_bits(1), 1));
        assert(bytes@[6] == byte_of(v.lane_bits(1), 2));
        assert(bytes@[7] == byte_of(v.lane_bits(1), 3));
        assert(bytes@[8] == byte_of(v.lane_bits(2), 0));
        assert(bytes@[9] == byte_of(v.lane_bits(2), 1));
        assert(bytes@[10] == byte_of(v.lane_bits(2), 2));
        assert(bytes@[11] == byte_of(v.lane_bits(2), 3));
        assert(bytes@[12] == byte_of(v.lane_bits(3), 0));
        assert(bytes@[13] == byte_of(v.lane_bits(3), 1));
        assert(bytes@[14] == byte_of(v.lane_bits(3), 2));
        assert(bytes@[15] == byte_of(v.lane_bits(3), 3));
    }
    assert(bytes@ =~= v.le_bytes());
    bytes
}

fn f64x2_le_bytes(arr: &[F64; 2]) -> (bytes: [u8; 16])
    ensures
        bytes@ == V128Const::F64x2(*arr).le_bytes(),
{
    let a0 = le64(arr[0].bits);
    let a1 = le64(arr[1].bits);
    let bytes: [u8; 16] = [
        a0[0], a0[1], a0[2], a0[3], a0[4], a0[5], a0[6], a0[7],
        a1[0], a1[1], a1[2], a1[3], a1[4], a1[5], a1[6], a1[7],
    ];
    let ghost v = V128Const::F64x2(*arr);
    proof {
        assert(bytes@[0] == byte_of(v.lane_bits(0), 0));
        assert(bytes@[1] == byte_of(v.lane_bits(0), 1));
        assert(bytes@[2] == byte_of(v.lane_bits(0), 2));
        assert(bytes@[3] == byte_of(v.lane_bits(0), 3));
        assert(bytes@[4] == byte_of(v.lane_bits(0), 4));
        assert(bytes@[5] == byte_of(v.lane_bits(0), 5));
        assert(bytes@[6] == byte_of(v.lane_bits(0), 6));
        assert(bytes@[7] == byte_of(v.lane_bits(0), 7));
        assert(bytes@[8] == byte_of(v.lane_bits(1), 0));
        assert(bytes@[9] == byte_of(v.lane_bits(1), 1));
        assert(bytes@[10] == byte_of(v.lane_bits(1), 2));
        assert(bytes@[11] == byte_of(v.lane_bits(1), 3));
        assert(bytes@[12] == byte_of(v.lane_bits(1), 4));
        assert(bytes@[13] == byte_of(v.lane_bits(1), 5));
        assert(bytes@[14] == byte_of(v.lane_bits(1), 6));
        assert(bytes@[15] == byte_of(v.lane_bits(1), 7));
    }
    assert(bytes@ =~= v.le_bytes());
    bytes
}

/// The lanes behind a shape keyword.
pub open spec fn v128_lanes<'a>(input: Input<'a>, at: Cursor) -> Parsed<V128ConstAst> {
    let a = input.step(at);
    if input.at_keyword(at, "i8x16"@) {
        match lanes::<i8>(input, a, 16, Seq::empty()) {
            Ok((v, to)) => Ok((V128ConstAst::I8x16(v), to)),
            Err(e) => Err(e),
        }
    } else if input.at_keyword(at, "i16x8"@) {
        match lanes::<i16>(input, a, 8, Seq::empty()) {
            Ok((v, to)) => Ok((V128ConstAst::I16x8(v), to)),
            Err(e) => Err(e),
        }
    } else if input.at_keyword(at, "i32x4"@) {
        match lanes::<i32>(input, a, 4, Seq::empty()) {
            Ok((v, to)) => Ok((V128ConstAst::I32x4(v), to)),
            Err(e) => Err(e),
        }
    } else if input.at_keyword(at, "i64x2"@) {
        match lanes::<i64>(input, a, 2, Seq::empty()) {
            Ok((v, to)) => Ok((V128ConstAst::I64x2(v), to)),
            Err(e) => Err(e),
        }
    } else if input.at_keyword(at, "f32x4"@) {
        match lanes::<F32>(input, a, 4, Seq::empty()) {
            Ok((v, to)) => Ok((V128ConstAst::F32x4(v), to)),
            Err(e) => Err(e),
        }
    } else if input.at_keyword(at, "f64x2"@) {
        match lanes::<F64>(input, a, 2, Seq::empty()) {
            Ok((v, to)) => Ok((V128ConstAst::F64x2(v), to)),
            Err(e) => Err(e),
        }
    } else {
        input.fail(
            at,
            "unexpected token, expected one of: `i8x16`, `i16x8`, `i32x4`, `i64x2`, `f32x4`, `f64x2`",
        )
    }
}

/// A shape and as many lanes as it has.
impl<'a> Parse<'a> for V128Const {
    type Ast = V128ConstAst;

    open spec fn ast(&self) -> V128ConstAst {
        match self {
            V128Const::I8x16(arr) => V128ConstAst::I8x16(arr@),
            V128Const::I16x8(arr) => V128ConstAst::I16x8(arr@),
            V128Const::I32x4(arr) => V128ConstAst::I32x4(arr@),
            V128Const::I64x2(arr) => V128ConstAst::I64x2(arr@),
            V128Const::F32x4(arr) => V128ConstAst::F32x4(arr@),
            V128Const::F64x2(arr) => V128ConstAst::F64x2(arr@),
        }
    }

    open spec fn grammar(input: Input<'a>, at: Cursor) -> Parsed<V128ConstAst> {
        v128_lanes(input, at)
    }

    proof fn lemma_advances(input: Input<'a>, at: Cursor) {
        input.lemma_step(at);
        let a = input.step(at);
        lemma_lanes::<i8>(input, a, 16, Seq::empty());
        lemma_lanes::<i16>(input, a, 8, Seq::empty());
        lemma_lanes::<i32>(input, a, 4, Seq::empty());
        lemma_lanes::<i64>(input, a, 2, Seq::empty());
        lemma_lanes::<F32>(input, a, 4, Seq::empty());
        lemma_lanes::<F64>(input, a, 2, Seq::empty());
    }

    fn parse(parser: &mut Parser<'a>) -> (r: Result<Self, Error>) {
        if parser.peek_keyword("i8x16") {
            parser.advance();
            let v = parse_lanes::<i8>(parser, 16)?;
            let arr: [i8; 16] = [v[0], v[1], v[2], v[3], v[4], v[5], v[6], v[7], v[8], v[9], v[10], v[11], v[12], v[13], v[14], v[15]];
            assert(arr@ =~= asts(v@));
            Ok(V128Const::I8x16(arr))
        } else if parser.peek_keyword("i16x8") {
            parser.advance();
            let v = parse_lanes::<i16>(parser, 8)?;
            let arr: [i16; 8] = [v[0], v[1], v[2], v[3], v[4], v[5], v[6], v[7]];
            assert(arr@ =~= asts(v@));
            Ok(V128Const::I16x8(arr))
        } else if parser.peek_keyword("i32x4") {
            parser.advance();
            let v = parse_lanes::<i32>(parser, 4)?;
            let arr: [i32; 4] = [v[0], v[1], v[2], v[3]];
            assert(arr@ =~= asts(v@));
            Ok(V128Const::I32x4(arr))
        } else if parser.peek_keyword("i64x2") {
            parser.advance();
            let v = parse_lanes::<i64>(parser, 2)?;
            let arr: [i64; 2] = [v[0], v[1]];
            assert(arr@ =~= asts(v@));
            Ok(V128Const::I64x2(arr))
        } else if parser.peek_keyword("f32x4") {
            parser.advance();
            let v = parse_lanes::<F32>(parser, 4)?;
            let arr: [F32; 4] = [v[0], v[1], v[2], v[3]];
            assert(arr@ =~= asts(v@));
            Ok(V128Const::F32x4(arr))
        } else if parser.peek_keyword("f64x2") {
            parser.advance();
            let v = parse_lanes::<F64>(parser, 2)?;
            let arr: [F64; 2] = [v[0], v[1]];
            assert(arr@ =~= asts(v@));
            Ok(V128Const::F64x2(arr))
        } else {
            Err(
                parser.error(
                    "unexpected token, expected one of: `i8x16`, `i16x8`, `i32x4`, `i64x2`, `f32x4`, `f64x2`",
                ),
            )
        }
    }
}

/// Lanes being shuffled in the `i8x16.shuffle` instruction
#[derive(Debug, Clone)]
pub struct I8x16Shuffle {
    pub lanes: [u8; 16],
}

/// Sixteen lane numbers.
impl<'a> Parse<'a> for I8x16Shuffle {
    type Ast = Seq<u8>;

    open spec fn ast(&self) -> Seq<u8> {
        self.lanes@
    }

    open spec fn grammar(input: Input<'a>, at: Cursor) -> Parsed<Seq<u8>> {
        lanes::<u8>(input, at, 16, Seq::empty())
    }

    proof fn lemma_advances(input: Input<'a>, at: Cursor) {
        lemma_lanes::<u8>(input, at, 16, Seq::empty());
    }

    fn parse(parser: &mut Parser<'a>) -> (r: Result<Self, Error>) {
        let v = parse_lanes::<u8>(parser, 16)?;
        let lanes: [u8; 16] = [v[0], v[1], v[2], v[3], v[4], v[5], v[6], v[7], v[8], v[9], v[10], v[11], v[12], v[13], v[14], v[15]];
        assert(lanes@ =~= asts(v@));
        Ok(I8x16Shuffle { lanes })
    }
}

} // verus!
