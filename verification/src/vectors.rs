//! Vector constants: their lanes in the text, and their bytes.

use vstd::prelude::*;

use crate::laws::{law_vector_bytes, le_value};
use crate::parser::{Cursor, Input, Parse};
use crate::simd::{lanes, I8x16Shuffle, LaneArg, V128Const};
use crate::token::{Error, TokenKind, F32, F64};

verus! {

/// Where the text goes on behind the first `i` literals.
pub open spec fn behind<'a, T: Parse<'a>>(input: Input<'a>, at: Cursor, i: nat) -> Cursor
    decreases i,
{
    if i == 0 {
        at
    } else {
        let last = behind::<T>(input, at, (i - 1) as nat);
        match T::grammar(input, last) {
            Ok((_, to)) => to,
            Err(_) => last,
        }
    }
}

/// The `i`-th literal denotes `value`.
pub open spec fn literal_is<'a, T: Parse<'a>>(
    input: Input<'a>,
    at: Cursor,
    i: nat,
    value: T::Ast,
) -> bool {
    T::grammar(input, behind::<T>(input, at, i)) matches Ok((v, _)) && v == value
}

proof fn lemma_behind<'a, T: Parse<'a>>(input: Input<'a>, at: Cursor, to: Cursor, i: nat)
    requires
        T::grammar(input, at) matches Ok((_, c)) && c == to,
    ensures
        behind::<T>(input, at, i + 1) == behind::<T>(input, to, i),
    decreases i,
{
    if i == 0 {
        assert(behind::<T>(input, at, 0) == at);
        assert(behind::<T>(input, at, 1) == to);
    } else {
        lemma_behind::<T>(input, at, to, (i - 1) as nat);
    }
}

/// Values in a row are the literals, in their order.
proof fn lemma_lanes_in_order<'a, T: Parse<'a>>(
    input: Input<'a>,
    at: Cursor,
    count: nat,
    acc: Seq<T::Ast>,
)
    ensures
        lanes::<T>(input, at, count, acc) matches Ok((all, to)) ==> {
            &&& all.len() == acc.len() + count
            &&& to == behind::<T>(input, at, count)
            &&& forall|i: int| 0 <= i < acc.len() ==> all[i] == acc[i]
            &&& forall|i: nat|
                #![trigger behind::<T>(input, at, i)]
                i < count ==> literal_is::<T>(input, at, i, all[(acc.len() + i) as int])
        },
        lanes::<T>(input, at, count, acc) matches Err(e) ==> exists|i: nat|
            i < count && #[trigger] T::grammar(input, behind::<T>(input, at, i)) == Err::<
                (T::Ast, Cursor),
                Error,
            >(e),
    decreases count,
{
    if count > 0 {
        match T::grammar(input, at) {
            Ok((v, to)) => {
                let next = acc.push(v);
                let less = (count - 1) as nat;
                lemma_lanes_in_order::<T>(input, to, less, next);
                match lanes::<T>(input, to, less, next) {
                    Ok((all, end)) => {
                        lemma_behind::<T>(input, at, to, less);
                        assert forall|i: nat|
                            #![trigger behind::<T>(input, at, i)]
                            i < count implies literal_is::<T>(
                            input,
                            at,
                            i,
                            all[(acc.len() + i) as int],
                        ) by {
                            if i == 0 {
                                assert(all[acc.len() as int] == next[acc.len() as int]);
                            } else {
                                lemma_behind::<T>(input, at, to, (i - 1) as nat);
                                assert(literal_is::<T>(
                                    input,
                                    to,
                                    (i - 1) as nat,
                                    all[next.len() + (i - 1)],
                                ));
                            }
                        }
                        assert forall|i: int| 0 <= i < acc.len() implies all[i] == acc[i] by {
                            assert(all[i] == next[i]);
                        }
                    },
                    Err(e) => {
                        let i = choose|i: nat|
                            i < less && #[trigger] T::grammar(input, behind::<T>(input, to, i))
                                == Err::<(T::Ast, Cursor), Error>(e);
                        lemma_behind::<T>(input, at, to, i);
                        assert(T::grammar(input, behind::<T>(input, at, i + 1)) == Err::<
                            (T::Ast, Cursor),
                            Error,
                        >(e));
                    },
                }
            },
            Err(e) => {
                assert(behind::<T>(input, at, 0) == at);
            },
        }
    }
}

/// The lanes of a vector constant that was parsed are the literals behind the shape,
/// in the order of the text, and the text goes on behind the last one.
pub proof fn law_lanes_of_text<'a>(input: Input<'a>, at: Cursor, v: V128Const, to: Cursor)
    requires
        V128Const::grammar(input, at) == Ok::<_, Error>((v.ast(), to)),
    ensures
        ({
            let a = input.step(at);
            match v {
                V128Const::I8x16(arr) => {
                    &&& input.at_keyword(at, "i8x16"@)
                    &&& to == behind::<i8>(input, a, 16)
                    &&& forall|i: nat|
                        i < 16 ==> #[trigger] literal_is::<i8>(input, a, i, arr@[i as int])
                },
                V128Const::I16x8(arr) => {
                    &&& input.at_keyword(at, "i16x8"@)
                    &&& to == behind::<i16>(input, a, 8)
                    &&& forall|i: nat|
                        i < 8 ==> #[trigger] literal_is::<i16>(input, a, i, arr@[i as int])
                },
                V128Const::I32x4(arr) => {
                    &&& input.at_keyword(at, "i32x4"@)
                    &&& to == behind::<i32>(input, a, 4)
                    &&& forall|i: nat|
                        i < 4 ==> #[trigger] literal_is::<i32>(input, a, i, arr@[i as int])
                },
                V128Const::I64x2(arr) => {
                    &&& input.at_keyword(at, "i64x2"@)
                    &&& to == behind::<i64>(input, a, 2)
                    &&& forall|i: nat|
                        i < 2 ==> #[trigger] literal_is::<i64>(input, a, i, arr@[i as int])
                },
                V128Const::F32x4(arr) => {
                    &&& input.at_keyword(at, "f32x4"@)
                    &&& to == behind::<F32>(input, a, 4)
                    &&& forall|i: nat|
                        i < 4 ==> #[trigger] literal_is::<F32>(input, a, i, arr@[i as int])
                },
                V128Const::F64x2(arr) => {
                    &&& input.at_keyword(at, "f64x2"@)
                    &&& to == behind::<F64>(input, a, 2)
                    &&& forall|i: nat|
                        i < 2 ==> #[trigger] literal_is::<F64>(input, a, i, arr@[i as int])
                },
            }
        }),
{
    let a = input.step(at);
    lemma_lanes_in_order::<i8>(input, a, 16, Seq::empty());
    lemma_lanes_in_order::<i16>(input, a, 8, Seq::empty());
    lemma_lanes_in_order::<i32>(input, a, 4, Seq::empty());
    lemma_lanes_in_order::<i64>(input, a, 2, Seq::empty());
    lemma_lanes_in_order::<F32>(input, a, 4, Seq::empty());
    lemma_lanes_in_order::<F64>(input, a, 2, Seq::empty());
}

/// Each of the first `count` literals is one.
pub open spec fn all_literals<'a, T: Parse<'a>>(input: Input<'a>, at: Cursor, count: nat) -> bool {
    forall|i: nat| i < count ==> #[trigger] T::grammar(input, behind::<T>(input, at, i)) is Ok
}

/// A shape with as many literals as it has lanes is a vector constant of that shape.
pub proof fn law_text_of_lanes<'a>(input: Input<'a>, at: Cursor)
    ensures
        ({
            let a = input.step(at);
            let r = V128Const::grammar(input, at);
            &&& input.at_keyword(at, "i8x16"@) ==> (r is Ok) == all_literals::<i8>(input, a, 16)
            &&& input.at_keyword(at, "i16x8"@) ==> (r is Ok) == all_literals::<i16>(input, a, 8)
            &&& input.at_keyword(at, "i32x4"@) ==> (r is Ok) == all_literals::<i32>(input, a, 4)
            &&& input.at_keyword(at, "i64x2"@) ==> (r is Ok) == all_literals::<i64>(input, a, 2)
            &&& input.at_keyword(at, "f32x4"@) ==> (r is Ok) == all_literals::<F32>(input, a, 4)
            &&& input.at_keyword(at, "f64x2"@) ==> (r is Ok) == all_literals::<F64>(input, a, 2)
        }),
{
    let a = input.step(at);
    reveal_strlit("i8x16");
    reveal_strlit("i16x8");
    reveal_strlit("i32x4");
    reveal_strlit("i64x2");
    reveal_strlit("f32x4");
    reveal_strlit("f64x2");
    assert("i8x16"@[1] == '8' && "i16x8"@[1] == '1' && "i32x4"@[1] == '3' && "i64x2"@[1] == '6');
    assert("f32x4"@[0] == 'f' && "f64x2"@[0] == 'f' && "f32x4"@[1] == '3' && "f64x2"@[1] == '6');
    assert("i32x4"@[0] == 'i' && "i64x2"@[0] == 'i');
    lemma_lanes_found::<i8>(input, a, 16);
    lemma_lanes_found::<i16>(input, a, 8);
    lemma_lanes_found::<i32>(input, a, 4);
    lemma_lanes_found::<i64>(input, a, 2);
    lemma_lanes_found::<F32>(input, a, 4);
    lemma_lanes_found::<F64>(input, a, 2);
}

proof fn lemma_lanes_found<'a, T: Parse<'a>>(input: Input<'a>, at: Cursor, count: nat)
    ensures
        (lanes::<T>(input, at, count, Seq::empty()) is Ok) == all_literals::<T>(input, at, count),
{
    lemma_lanes_in_order::<T>(input, at, count, Seq::empty());
    match lanes::<T>(input, at, count, Seq::empty()) {
        Ok((all, _)) => {
            assert forall|i: nat| i < count implies #[trigger] T::grammar(
                input,
                behind::<T>(input, at, i),
            ) is Ok by {
                assert(literal_is::<T>(input, at, i, all[i as int]));
            }
        },
        Err(_) => {},
    }
}

/// The lanes of a shuffle are the sixteen numbers of the text, in their order.
pub proof fn law_lanes_of_shuffle<'a>(input: Input<'a>, at: Cursor, v: I8x16Shuffle, to: Cursor)
    requires
        I8x16Shuffle::grammar(input, at) == Ok::<_, Error>((v.ast(), to)),
    ensures
        to == behind::<u8>(input, at, 16),
        forall|i: nat| i < 16 ==> #[trigger] literal_is::<u8>(input, at, i, v.lanes@[i as int]),
{
    lemma_lanes_in_order::<u8>(input, at, 16, Seq::empty());
}

/// The bits of a lane, as an unsigned number, where the lane is a signed one of a
/// type with `size` values.
pub open spec fn unsigned_lane(value: int, size: int) -> int {
    if value < 0 {
        value + size
    } else {
        value
    }
}

/// The bytes of a vector constant are those of its lanes, one lane after the other,
/// each with its lowest byte first.
pub proof fn law_bytes_of_lanes(v: V128Const, i: int)
    ensures
        ({
            let bytes = v.le_bytes();
            &&& bytes.len() == 16
            &&& match v {
                V128Const::I8x16(arr) => 0 <= i < 16 ==> le_value(bytes.subrange(i, i + 1))
                    == unsigned_lane(arr@[i] as int, 0x100),
                V128Const::I16x8(arr) => 0 <= i < 8 ==> le_value(
                    bytes.subrange(2 * i, 2 * i + 2),
                ) == unsigned_lane(arr@[i] as int, 0x10000),
                V128Const::I32x4(arr) => 0 <= i < 4 ==> le_value(
                    bytes.subrange(4 * i, 4 * i + 4),
                ) == unsigned_lane(arr@[i] as int, 0x1_0000_0000),
                V128Const::I64x2(arr) => 0 <= i < 2 ==> le_value(
                    bytes.subrange(8 * i, 8 * i + 8),
                ) == unsigned_lane(arr@[i] as int, 0x1_0000_0000_0000_0000),
                V128Const::F32x4(arr) => 0 <= i < 4 ==> le_value(
                    bytes.subrange(4 * i, 4 * i + 4),
                ) == arr@[i].bits,
                V128Const::F64x2(arr) => 0 <= i < 2 ==> le_value(
                    bytes.subrange(8 * i, 8 * i + 8),
                ) == arr@[i].bits,
            }
        }),
{
    match v {
        V128Const::I8x16(_) => lemma_lane(v, i, 1, 16),
        V128Const::I16x8(_) => lemma_lane(v, i, 2, 8),
        V128Const::I32x4(_) => lemma_lane(v, i, 4, 4),
        V128Const::I64x2(_) => lemma_lane(v, i, 8, 2),
        V128Const::F32x4(_) => lemma_lane(v, i, 4, 4),
        V128Const::F64x2(_) => lemma_lane(v, i, 8, 2),
    }
}

proof fn lemma_lane(v: V128Const, i: int, w: int, n: int)
    requires
        v.lane_width() == w,
        w > 0,
        n * w == 16,
    ensures
        0 <= i < n ==> le_value(v.le_bytes().subrange(w * i, w * i + w)) == v.lane_bits(i),
{
    if 0 <= i < n {
        assert(i * w == w * i && (i + 1) * w == w * i + w && (i + 1) * w <= n * w)
            by (nonlinear_arith)
            requires
                0 <= i < n,
                w > 0,
        ;
        law_vector_bytes(v, i);
    }
}

/// A lane index is an unsigned number below 256, without any sign.
pub proof fn law_lane_index<'a>(input: Input<'a>, at: Cursor)
    ensures
        LaneArg::grammar(input, at) matches Ok((l, to)) ==> {
            &&& input.tok(at) matches Some(TokenKind::Integer(i)) && i.sign is None
            &&& u8::grammar(input, at) == Ok::<_, Error>((l.lane, to))
        },
        input.tok(at) matches Some(TokenKind::Integer(i)) ==> i.sign is None ==> (u8::grammar(
            input,
            at,
        ) is Ok ==> LaneArg::grammar(input, at) is Ok),
{
}

/// Sixteen numbers below 256 are a shuffle.
pub proof fn law_text_of_shuffle<'a>(input: Input<'a>, at: Cursor)
    ensures
        (I8x16Shuffle::grammar(input, at) is Ok) == all_literals::<u8>(input, at, 16),
{
    lemma_lanes_found::<u8>(input, at, 16);
}

} // verus!
