//! What the operands of instructions are, in terms of the tokens they are written as.

use vstd::arithmetic::power2::is_pow2;
use vstd::prelude::*;

use crate::control::{ContBind, Switch};
use crate::gc::{
    ArrayCopy, ArrayFill, ArrayInit, ArrayNewData, ArrayNewElem, ArrayNewFixed, BrOnCast,
    BrOnCastFail, RefCast, RefTest, StructAccess,
};
use crate::labels::{Label, LabelAnnotation, LabeledInstruction, MemoryInstruction};
use crate::literal::{word_value, WordValue};
use crate::memory::{
    is_field, MemArg, MemoryArg, MemoryCopy, MemoryInit, Ordered, TableArg, TableCopy,
    TableInit,
};
use crate::numerals::{law_unsigned_literal, literal_of};
use crate::parser::{Cursor, Input, Parse, Peek};
use crate::token::{Error, Id, Index, Integer, NameAnnotation, SignToken, TokenKind, F32, F64};
use crate::types::RefType;

verus! {

/// The text at `at` is parsed as `value`, and goes on at `to`.
pub open spec fn parsed_as<'a, T: Parse<'a>>(
    input: Input<'a>,
    at: Cursor,
    value: T,
    to: Cursor,
) -> bool {
    T::grammar(input, at) == Ok::<_, Error>((value.ast(), to))
}

/// An identifier is an index, and so is a number of 32 bits. Each is kept as it is
/// written, with its position. Nothing else is an index.
pub proof fn law_index<'a>(input: Input<'a>, at: Cursor, x: Index<'a>, to: Cursor, n: nat)
    ensures
        parsed_as(input, at, x, to) ==> to == input.step(at) && match x {
            Index::Id(id) => {
                &&& input.tok(at) == Some(TokenKind::Id(id.name))
                &&& id.gen == 0
                &&& id.span == input.here(at)
            },
            Index::Num(m, span) => {
                &&& input.tok(at) matches Some(TokenKind::Integer(i))
                &&& span == input.here(at)
                &&& literal_of(i, n) ==> m == n && i.sign != Some(SignToken::Minus)
            },
        },
        match input.tok(at) {
            Some(TokenKind::Id(_)) => Index::grammar(input, at) is Ok,
            Some(TokenKind::Integer(i)) => literal_of(i, n) && n <= u32::MAX && i.sign != Some(
                SignToken::Minus,
            ) ==> Index::grammar(input, at) is Ok,
            _ => Index::grammar(input, at) is Err,
        },
        Index::starts(input, at) <==> (input.tok(at) matches Some(k) && (k is Id || k is Integer)),
{
    if let Some(TokenKind::Integer(i)) = input.tok(at) {
        if literal_of(i, n) {
            law_unsigned_literal(input, at, i, n);
        }
    }
}

/// Two indices in a row are taken in the order of the text.
pub proof fn law_two_indices<'a>(
    input: Input<'a>,
    at: Cursor,
    x: Index<'a>,
    a: Cursor,
    y: Index<'a>,
    b: Cursor,
)
    requires
        parsed_as(input, at, x, a),
        parsed_as(input, a, y, b),
    ensures
        TableInit::grammar(input, at) is Ok,
        forall|t: TableInit<'a>, to: Cursor| #[trigger]
            parsed_as(input, at, t, to) ==> t.table == x && t.elem == y && to == b,
        MemoryInit::grammar(input, at) is Ok,
        forall|t: MemoryInit<'a>, to: Cursor| #[trigger]
            parsed_as(input, at, t, to) ==> t.mem == x && t.data == y && to == b,
        TableCopy::grammar(input, at) is Ok,
        forall|t: TableCopy<'a>, to: Cursor| #[trigger]
            parsed_as(input, at, t, to) ==> t.dst == x && t.src == y && to == b,
        MemoryCopy::grammar(input, at) is Ok,
        forall|t: MemoryCopy<'a>, to: Cursor| #[trigger]
            parsed_as(input, at, t, to) ==> t.dst == x && t.src == y && to == b,
        ContBind::grammar(input, at) is Ok,
        forall|t: ContBind<'a>, to: Cursor| #[trigger]
            parsed_as(input, at, t, to) ==> t.argument_index == x && t.result_index == y && to == b,
        Switch::grammar(input, at) is Ok,
        forall|t: Switch<'a>, to: Cursor| #[trigger]
            parsed_as(input, at, t, to) ==> t.type_index == x && t.tag_index == y && to == b,
        StructAccess::grammar(input, at) is Ok,
        forall|t: StructAccess<'a>, to: Cursor| #[trigger]
            parsed_as(input, at, t, to) ==> t.struct_type == x && t.field == y && to == b,
        ArrayCopy::grammar(input, at) is Ok,
        forall|t: ArrayCopy<'a>, to: Cursor| #[trigger]
            parsed_as(input, at, t, to) ==> t.dest_array == x && t.src_array == y && to == b,
        ArrayInit::grammar(input, at) is Ok,
        forall|t: ArrayInit<'a>, to: Cursor| #[trigger]
            parsed_as(input, at, t, to) ==> t.array == x && t.segment == y && to == b,
        ArrayNewData::grammar(input, at) is Ok,
        forall|t: ArrayNewData<'a>, to: Cursor| #[trigger]
            parsed_as(input, at, t, to) ==> t.array == x && t.data_idx == y && to == b,
        ArrayNewElem::grammar(input, at) is Ok,
        forall|t: ArrayNewElem<'a>, to: Cursor| #[trigger]
            parsed_as(input, at, t, to) ==> t.array == x && t.elem_idx == y && to == b,
{
}

/// Of one index alone, an argument that may leave out a table or a memory takes it
/// for the segment, and the table or memory is the first one.
pub proof fn law_one_index<'a>(input: Input<'a>, at: Cursor, x: Index<'a>, a: Cursor)
    requires
        parsed_as(input, at, x, a),
    ensures
        !Index::starts(input, a) ==> TableInit::grammar(input, at) is Ok && MemoryInit::grammar(
            input,
            at,
        ) is Ok,
        !Index::starts(input, a) ==> TableCopy::grammar(input, at) is Err && MemoryCopy::grammar(
            input,
            at,
        ) is Err,
        forall|t: TableInit<'a>, to: Cursor| #[trigger]
            parsed_as(input, at, t, to) ==> !Index::starts(input, a) ==> t.elem == x && to == a
                && t.table == Index::Num(0, at.prev),
        forall|t: MemoryInit<'a>, to: Cursor| #[trigger]
            parsed_as(input, at, t, to) ==> !Index::starts(input, a) ==> t.data == x && to == a
                && t.mem == Index::Num(0, at.prev),
        TableArg::grammar(input, at) is Ok,
        forall|t: TableArg<'a>, to: Cursor| #[trigger]
            parsed_as(input, at, t, to) ==> t.dst == x && to == a,
        MemoryArg::grammar(input, at) is Ok,
        forall|t: MemoryArg<'a>, to: Cursor| #[trigger]
            parsed_as(input, at, t, to) ==> t.mem == x && to == a,
        ArrayFill::grammar(input, at) is Ok,
        forall|t: ArrayFill<'a>, to: Cursor| #[trigger]
            parsed_as(input, at, t, to) ==> t.array == x && to == a,
        u32::grammar(input, a) is Ok ==> ArrayNewFixed::grammar(input, at) is Ok,
        forall|t: ArrayNewFixed<'a>, to: Cursor| #[trigger]
            parsed_as(input, at, t, to) ==> t.array == x && parsed_as(input, a, t.length, to),
{
}

/// Where an index is left out that may be, it is that of the first table or memory.
pub proof fn law_no_index<'a>(input: Input<'a>, at: Cursor)
    requires
        !Index::starts(input, at),
    ensures
        TableArg::grammar(input, at) is Ok,
        forall|t: TableArg<'a>, to: Cursor| #[trigger]
            parsed_as(input, at, t, to) ==> t.dst == Index::Num(0, at.prev) && to == at,
        MemoryArg::grammar(input, at) is Ok,
        forall|t: MemoryArg<'a>, to: Cursor| #[trigger]
            parsed_as(input, at, t, to) ==> t.mem == Index::Num(0, at.prev) && to == at,
        TableCopy::grammar(input, at) is Ok,
        forall|t: TableCopy<'a>, to: Cursor| #[trigger]
            parsed_as(input, at, t, to) ==> t.dst == Index::Num(0, at.prev) && t.src == Index::Num(
                0,
                at.prev,
            ) && to == at,
        MemoryCopy::grammar(input, at) is Ok,
        forall|t: MemoryCopy<'a>, to: Cursor| #[trigger]
            parsed_as(input, at, t, to) ==> t.dst == Index::Num(0, at.prev) && t.src == Index::Num(
                0,
                at.prev,
            ) && to == at,
        TableInit::grammar(input, at) is Err,
        MemoryInit::grammar(input, at) is Err,
{
}

/// A cast branches to the label that comes first, from the type that comes second, to
/// the type that comes third.
pub proof fn law_casts<'a>(
    input: Input<'a>,
    at: Cursor,
    l: Index<'a>,
    a: Cursor,
    x: RefType<'a>,
    b: Cursor,
    y: RefType<'a>,
    c: Cursor,
)
    requires
        parsed_as(input, at, l, a),
        parsed_as(input, a, x, b),
        parsed_as(input, b, y, c),
    ensures
        BrOnCast::grammar(input, at) is Ok,
        forall|t: BrOnCast<'a>, to: Cursor| #[trigger]
            parsed_as(input, at, t, to) ==> t.label == l && t.from_type == x && t.to_type == y && to
                == c,
        BrOnCastFail::grammar(input, at) is Ok,
        forall|t: BrOnCastFail<'a>, to: Cursor| #[trigger]
            parsed_as(input, at, t, to) ==> t.label == l && t.from_type == x && t.to_type == y && to
                == c,
        RefCast::grammar(input, a) is Ok,
        forall|t: RefCast<'a>, to: Cursor| #[trigger]
            parsed_as(input, a, t, to) ==> t.ref_type == x && to == b,
        RefTest::grammar(input, a) is Ok,
        forall|t: RefTest<'a>, to: Cursor| #[trigger]
            parsed_as(input, a, t, to) ==> t.ref_type == x && to == b,
{
}

/// The argument of an atomic access stands behind its ordering.
pub proof fn law_orderings<'a, T: Parse<'a>>(
    input: Input<'a>,
    at: Cursor,
    x: T,
    to: Cursor,
    t: Ordered<T>,
    end: Cursor,
)
    requires
        parsed_as(input, input.step(at), x, to),
    ensures
        parsed_as(input, at, t, end) ==> {
            &&& t.inner.ast() == x.ast()
            &&& end == to
            &&& t.ordering is SeqCst <==> input.at_keyword(at, "seq_cst"@)
            &&& t.ordering is AcqRel <==> input.at_keyword(at, "acq_rel"@)
        },
        input.at_keyword(at, "seq_cst"@) || input.at_keyword(at, "acq_rel"@) ==> Ordered::<
            T,
        >::grammar(input, at) is Ok,
{
    reveal_strlit("seq_cst");
    reveal_strlit("acq_rel");
    assert("seq_cst"@[0] != "acq_rel"@[0]);
}

/// A float has the bits that its literal has in the float's own format, whether the
/// literal is one of a float or of an integer.
pub proof fn law_floats<'a>(input: Input<'a>, at: Cursor, x: F32, y: F64, to: Cursor)
    ensures
        parsed_as(input, at, x, to) ==> to == input.step(at) && match input.tok(at) {
            Some(TokenKind::Float(f)) => f.f32_bits == Some(x.bits),
            Some(TokenKind::Integer(i)) => i.f32_bits == Some(x.bits),
            _ => false,
        },
        parsed_as(input, at, y, to) ==> to == input.step(at) && match input.tok(at) {
            Some(TokenKind::Float(f)) => f.f64_bits == Some(y.bits),
            Some(TokenKind::Integer(i)) => i.f64_bits == Some(y.bits),
            _ => false,
        },
        input.tok(at) matches Some(TokenKind::Float(f)) ==> {
            &&& F32::grammar(input, at) is Ok <==> f.f32_bits is Some
            &&& F64::grammar(input, at) is Ok <==> f.f64_bits is Some
        },
        input.tok(at) matches Some(TokenKind::Integer(i)) ==> {
            &&& F32::grammar(input, at) is Ok <==> i.f32_bits is Some
            &&& F64::grammar(input, at) is Ok <==> i.f64_bits is Some
        },
{
}

/// Where an identifier may stand, it is taken, and otherwise nothing is.
pub proof fn law_optional_identifier<'a>(
    input: Input<'a>,
    at: Cursor,
    x: Option<Id<'a>>,
    to: Cursor,
)
    ensures
        Option::<Id<'a>>::grammar(input, at) is Ok,
        parsed_as(input, at, x, to) ==> match x {
            Some(id) => {
                &&& input.tok(at) == Some(TokenKind::Id(id.name))
                &&& id.gen == 0
                &&& id.span == input.here(at)
                &&& to == input.step(at)
            },
            None => to == at && !(input.tok(at) matches Some(TokenKind::Id(_))),
        },
{
}

/// A name is the text of the string in `(@name "...")`.
pub proof fn law_name<'a>(input: Input<'a>, at: Cursor, x: NameAnnotation<'a>, to: Cursor)
    ensures
        parsed_as(input, at, x, to) ==> {
            &&& input.at_annotation(at, "name"@)
            &&& input.tok(input.step(at)) matches Some(TokenKind::String { text: Some(text), .. })
            &&& x.name == text
            &&& to == input.step(input.step(at))
        },
        input.at_annotation(at, "name"@) && <&'a str>::grammar(input, input.step(at)) is Ok
            ==> NameAnnotation::grammar(input, at) is Ok,
{
}

/// A label is the text of the string behind `@label`. Labels are equal where their
/// texts are.
pub proof fn law_label<'a>(
    input: Input<'a>,
    at: Cursor,
    x: LabelAnnotation<'a>,
    to: Cursor,
    other: Label<'a>,
)
    ensures
        parsed_as(input, at, x, to) ==> {
            &&& input.at_annotation(at, "label"@)
            &&& input.tok(input.step(at)) matches Some(TokenKind::String { text: Some(text), .. })
            &&& x.label == Label::Id(text)
            &&& to == input.step(input.step(at))
        },
        input.at_annotation(at, "label"@) && <&'a str>::grammar(input, input.step(at)) is Ok
            ==> LabelAnnotation::grammar(input, at) is Ok,
        vstd::std_specs::cmp::PartialEqSpec::eq_spec(&x.label, &other) <==> match (x.label, other) {
            (Label::Id(a), Label::Id(b)) => a@ == b@,
        },
{
}

/// A labeled instruction has the label that stands before it.
pub proof fn law_labeled_instruction<'a>(
    input: Input<'a>,
    at: Cursor,
    l: LabelAnnotation<'a>,
    a: Cursor,
    i: MemoryInstruction<'a>,
    b: Cursor,
    t: LabeledInstruction<'a>,
    to: Cursor,
)
    requires
        parsed_as(input, at, l, a),
        parsed_as(input, a, i, b),
    ensures
        LabeledInstruction::grammar(input, at) is Ok,
        parsed_as(input, at, t, to) ==> t.label == l && t.instruction == i && to == b,
{
}

/// A field `name=word` stands at `at`, where `word` is read as the number `n`; or no
/// such field does.
pub open spec fn field_stands<'a>(
    input: Input<'a>,
    at: Cursor,
    name: Seq<char>,
    n: Option<u64>,
    to: Cursor,
) -> bool {
    match n {
        Some(n) => {
            &&& input.tok(at) matches Some(TokenKind::Keyword(k))
            &&& exists|word: Seq<char>|
                #[trigger] has_field(k@, name, word) && word_value(word) == WordValue::Value(n)
            &&& to == input.step(at)
        },
        None => {
            &&& input.tok(at) matches Some(TokenKind::Keyword(k)) ==> forall|word: Seq<char>|
                !#[trigger] has_field(k@, name, word)
            &&& to == at
        },
    }
}

/// The keyword is the name, an equals sign and the word.
pub open spec fn has_field(keyword: Seq<char>, name: Seq<char>, word: Seq<char>) -> bool {
    keyword == name + seq!['='] + word
}

proof fn lemma_field(keyword: Seq<char>, name: Seq<char>)
    ensures
        is_field(keyword, name) ==> has_field(keyword, name, keyword.skip(name.len() as int + 1)),
        forall|word: Seq<char>| #[trigger]
            has_field(keyword, name, word) ==> is_field(keyword, name) && word == keyword.skip(
                name.len() as int + 1,
            ),
{
    let n = name.len() as int;
    if is_field(keyword, name) {
        assert(keyword =~= keyword.take(n) + seq!['='] + keyword.skip(n + 1));
    }
    assert forall|word: Seq<char>| #[trigger] has_field(keyword, name, word) implies is_field(
        keyword,
        name,
    ) && word == keyword.skip(n + 1) by {
        assert(keyword.take(n) =~= name);
        assert(keyword.skip(n + 1) =~= word);
    }
}

/// A memory argument is an index of a memory, `offset=` and `align=`, in this order.
/// What is left out is the first memory, 0, and the alignment that the instruction
/// has by itself. An alignment must be a power of two.
pub proof fn law_memory_argument<'a>(
    input: Input<'a>,
    at: Cursor,
    default_align: u64,
    memory: Option<Index<'a>>,
    a: Cursor,
    offset: Option<u64>,
    b: Cursor,
    align: Option<u64>,
    to: Cursor,
)
    requires
        match memory {
            Some(x) => parsed_as(input, at, x, a),
            None => !Index::starts(input, at) && a == at,
        },
        field_stands(input, a, "offset"@, offset, b),
        field_stands(input, b, "align"@, align, to),
    ensures
        match MemArg::grammar(input, at, default_align) {
            Ok((m, end)) => {
                &&& end == to
                &&& m.memory == match memory {
                    Some(x) => x,
                    None => Index::Num(0, at.prev),
                }
                &&& m.offset == match offset {
                    Some(n) => n,
                    None => 0,
                }
                &&& m.align == match align {
                    Some(n) => n,
                    None => default_align,
                }
                &&& align matches Some(n) ==> is_pow2(n as int)
            },
            Err(_) => align matches Some(n) && !is_pow2(n as int),
        },
{
    if let Some(TokenKind::Keyword(k)) = input.tok(a) {
        lemma_field(k@, "offset"@);
    }
    if let Some(TokenKind::Keyword(k)) = input.tok(b) {
        lemma_field(k@, "align"@);
    }
}

} // verus!
