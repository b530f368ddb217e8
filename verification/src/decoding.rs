//! The binary form can be read back: what a reader of the bytes finds is what was
//! encoded, and it stops where the next value starts.

use vstd::arithmetic::power2::{is_pow2, pow2};
use vstd::prelude::*;
use vstd::std_specs::bits::axiom_u64_trailing_zeros;

use crate::bytes::{byte_of, lemma_places, place};
use crate::control::{
    BlockType, BlockTypeAst, BrTableIndices, BrTableIndicesAst, CallIndirect, CallIndirectAst,
    SelectTypes, TryTable, TryTableAst, TryTableCatch, TryTableCatchKind,
};
use crate::encode::{
    items, list_encoded, select_encodable, select_encoded, sleb, uleb, Encode,
};
use crate::instruction::{Instruction, InstructionAst, Operand};
use crate::labels::{AllInstructions, AllInstructionsAst, LabeledInstruction};
use crate::laws::{law_encoded_alignment, le_value, lemma_le_value};
use crate::memory::MemArg;
use crate::opcode::Encoding;
use crate::token::{Index, F32, F64};
use crate::types::{AbstractHeapType, HeapType, LabeledValType, ValType};

verus! {

/// What a reader finds at the front of the bytes, and what is left of them.
pub type Found<T> = Option<(T, Seq<u8>)>;

/// Reads an unsigned number: seven bits of each byte, the lowest first, up to the
/// first byte below 128.
pub open spec fn read_unsigned(bytes: Seq<u8>) -> Found<nat>
    decreases bytes.len(),
{
    if bytes.len() == 0 {
        None
    } else if bytes[0] < 128 {
        Some((bytes[0] as nat, bytes.skip(1)))
    } else {
        match read_unsigned(bytes.skip(1)) {
            Some((n, rest)) => Some(((bytes[0] - 128 + 128 * n) as nat, rest)),
            None => None,
        }
    }
}

/// Reads a signed number: as an unsigned one, but for bit 6 of the last byte, which
/// counts as -64.
pub open spec fn read_signed(bytes: Seq<u8>) -> Found<int>
    decreases bytes.len(),
{
    if bytes.len() == 0 {
        None
    } else if bytes[0] < 64 {
        Some((bytes[0] as int, bytes.skip(1)))
    } else if bytes[0] < 128 {
        Some((bytes[0] - 128, bytes.skip(1)))
    } else {
        match read_signed(bytes.skip(1)) {
            Some((n, rest)) => Some((bytes[0] - 128 + 128 * n, rest)),
            None => None,
        }
    }
}

/// Reads a number of `size` bytes, the lowest first.
pub open spec fn read_fixed(bytes: Seq<u8>, size: nat) -> Found<nat> {
    if bytes.len() < size {
        None
    } else {
        Some((le_value(bytes.take(size as int)), bytes.skip(size as int)))
    }
}

/// Reads a value, and another one behind it.
pub open spec fn read_two<A, B>(
    bytes: Seq<u8>,
    first: spec_fn(Seq<u8>) -> Found<A>,
    second: spec_fn(Seq<u8>) -> Found<B>,
) -> Found<(A, B)> {
    match first(bytes) {
        Some((a, rest)) => match second(rest) {
            Some((b, rest)) => Some(((a, b), rest)),
            None => None,
        },
        None => None,
    }
}

/// Reads `count` values in a row.
pub open spec fn read_many<A>(
    bytes: Seq<u8>,
    count: nat,
    one: spec_fn(Seq<u8>) -> Found<A>,
) -> Found<Seq<A>>
    decreases count,
{
    if count == 0 {
        Some((Seq::empty(), bytes))
    } else {
        match one(bytes) {
            Some((a, rest)) => match read_many(rest, (count - 1) as nat, one) {
                Some((more, rest)) => Some((seq![a] + more, rest)),
                None => None,
            },
            None => None,
        }
    }
}

/// Reads a count, and as many values.
pub open spec fn read_list<A>(bytes: Seq<u8>, one: spec_fn(Seq<u8>) -> Found<A>) -> Found<Seq<A>> {
    match read_unsigned(bytes) {
        Some((count, rest)) => read_many(rest, count, one),
        None => None,
    }
}

proof fn lemma_read_unsigned(n: nat, rest: Seq<u8>)
    ensures
        read_unsigned(uleb(n) + rest) == Some((n, rest)),
    decreases n,
{
    let bytes = uleb(n) + rest;
    if n < 128 {
        assert(bytes.skip(1) =~= rest);
    } else {
        assert(bytes.skip(1) =~= uleb(n / 128) + rest);
        lemma_read_unsigned(n / 128, rest);
    }
}

proof fn lemma_read_signed(n: int, rest: Seq<u8>)
    ensures
        read_signed(sleb(n) + rest) == Some((n, rest)),
    decreases
            if n < 0 {
                -n
            } else {
                n
            },
{
    let bytes = sleb(n) + rest;
    if -64 <= n < 64 {
        assert(bytes.skip(1) =~= rest);
    } else {
        assert(bytes.skip(1) =~= sleb(n / 128) + rest);
        lemma_read_signed(n / 128, rest);
    }
}

/// An unsigned number is read back.
pub proof fn law_unsigned_is_read_back(n: u64, m: u32, rest: Seq<u8>)
    ensures
        read_unsigned(n.encoded() + rest) == Some((n as nat, rest)),
        read_unsigned(m.encoded() + rest) == Some((m as nat, rest)),
{
    lemma_read_unsigned(n as nat, rest);
    lemma_read_unsigned(m as nat, rest);
}

/// A signed number is read back.
pub proof fn law_signed_is_read_back(n: i64, m: i32, rest: Seq<u8>)
    ensures
        read_signed(n.encoded() + rest) == Some((n as int, rest)),
        read_signed(m.encoded() + rest) == Some((m as int, rest)),
{
    lemma_read_signed(n as int, rest);
    lemma_read_signed(m as int, rest);
}

/// The bits of a float are read back from its bytes, the lowest first.
pub proof fn law_floats_are_read_back(x: F32, y: F64, rest: Seq<u8>)
    ensures
        x.encoded().len() == 4,
        y.encoded().len() == 8,
        le_value(x.encoded()) == x.bits,
        le_value(y.encoded()) == y.bits,
        read_fixed(x.encoded() + rest, 4) == Some((x.bits as nat, rest)),
        read_fixed(y.encoded() + rest, 8) == Some((y.bits as nat, rest)),
{
    lemma_places();
    assert(place(8) == 256 * place(7));
    lemma_le_value(x.bits as nat, 4);
    lemma_le_value(y.bits as nat, 8);
    assert(x.encoded() =~= Seq::new(4, |k: int| byte_of(x.bits as nat, k as nat)));
    assert(y.encoded() =~= Seq::new(8, |k: int| byte_of(y.bits as nat, k as nat)));
    assert((x.encoded() + rest).take(4) =~= x.encoded());
    assert((x.encoded() + rest).skip(4) =~= rest);
    assert((y.encoded() + rest).take(8) =~= y.encoded());
    assert((y.encoded() + rest).skip(8) =~= rest);
}

/// The number that an index stands for.
pub open spec fn index_number<'a>(i: Index<'a>) -> nat {
    match i {
        Index::Num(n, _) => n as nat,
        Index::Id(_) => 0,
    }
}

/// An index is read back as its number.
pub proof fn law_index_is_read_back<'a>(i: Index<'a>, rest: Seq<u8>)
    requires
        i is Num,
    ensures
        i.encodable(),
        read_unsigned(i.encoded() + rest) == Some((index_number(i), rest)),
{
    lemma_read_unsigned(index_number(i), rest);
}

/// What the bytes of a memory argument say.
pub struct Access {
    /// The alignment is 2 to the power of this.
    pub log: nat,
    pub memory: nat,
    pub offset: nat,
}

/// Reads a memory argument. Where bit 6 of the first number is set, the number of a
/// memory follows it; otherwise it is the first memory.
pub open spec fn read_access(bytes: Seq<u8>) -> Found<Access> {
    match read_unsigned(bytes) {
        Some((flags, rest)) => {
            let memory = if flags < 64 {
                Some((0nat, rest))
            } else {
                read_unsigned(rest)
            };
            match memory {
                Some((memory, rest)) => match read_unsigned(rest) {
                    Some((offset, rest)) => Some((Access { log: flags % 64, memory, offset }, rest)),
                    None => None,
                },
                None => None,
            }
        },
        None => None,
    }
}

/// A memory argument is read back: the alignment as its logarithm, the memory and
/// the offset.
pub proof fn law_memory_argument_is_read_back<'a>(m: MemArg<'a>, rest: Seq<u8>)
    requires
        m.memory is Num,
        is_pow2(m.align as int),
    ensures
        m.encodable(),
        ({
            &&& read_access(m.encoded() + rest) matches Some((a, left))
            &&& pow2(a.log) == m.align
            &&& a.memory == index_number(m.memory)
            &&& a.offset == m.offset
            &&& left == rest
        }),
        read_unsigned(m.encoded() + rest) matches Some((flags, _)) && flags < 128 && (flags >= 64
            <==> index_number(m.memory) != 0),
{
    law_encoded_alignment(m.align);
    axiom_u64_trailing_zeros(m.align);
    let log = m.align.trailing_zeros();
    reveal(is_pow2);
    assert(m.align != 0);
    assert(log < 64);
    assert(log | 64 == log + 64) by (bit_vector)
        requires
            log < 64,
    ;
    let offset = uleb(m.offset as nat);
    let memory = m.memory.encoded();
    if index_number(m.memory) == 0 {
        assert(m.encoded() + rest =~= uleb(log as nat) + (offset + rest));
        lemma_read_unsigned(log as nat, offset + rest);
    } else {
        assert(m.encoded() + rest =~= uleb((log | 64) as nat) + (memory + (offset + rest)));
        lemma_read_unsigned((log | 64) as nat, memory + (offset + rest));
        law_index_is_read_back(m.memory, offset + rest);
    }
    lemma_read_unsigned(m.offset as nat, rest);
}

/// What the bytes of a type say: a number, or a reference with its prefix. Types have
/// negative numbers, and the indices of types stand for themselves.
pub enum TypeCode {
    Plain(int),
    Ref { nullable: bool, heap: int },
}

/// Reads a type.
pub open spec fn read_type(bytes: Seq<u8>) -> Found<TypeCode> {
    if bytes.len() > 0 && (bytes[0] == 0x63 || bytes[0] == 0x64) {
        match read_signed(bytes.skip(1)) {
            Some((heap, rest)) => Some((TypeCode::Ref { nullable: bytes[0] == 0x63, heap }, rest)),
            None => None,
        }
    } else {
        match read_signed(bytes) {
            Some((n, rest)) => Some((TypeCode::Plain(n), rest)),
            None => None,
        }
    }
}

/// The number of an abstract heap type. They count down from -12.
pub open spec fn abstract_number(t: AbstractHeapType) -> int {
    -12 - match t {
        AbstractHeapType::NoExn => 0int,
        AbstractHeapType::NoFunc => 1,
        AbstractHeapType::NoExtern => 2,
        AbstractHeapType::NoAny => 3,
        AbstractHeapType::Func => 4,
        AbstractHeapType::Extern => 5,
        AbstractHeapType::Any => 6,
        AbstractHeapType::Eq => 7,
        AbstractHeapType::I31 => 8,
        AbstractHeapType::Struct => 9,
        AbstractHeapType::Array => 10,
        AbstractHeapType::Exn => 11,
    }
}

/// The number of a heap type.
pub open spec fn heap_number<'a>(h: HeapType<'a>) -> int {
    match h {
        HeapType::Abstract(t) => abstract_number(t),
        HeapType::Concrete(i) => index_number(i) as int,
    }
}

/// The indices in a heap type have numbers.
pub open spec fn heap_is_numbered<'a>(h: HeapType<'a>) -> bool {
    h matches HeapType::Concrete(i) ==> i is Num
}

/// The same of a value type.
pub open spec fn type_is_numbered<'a>(t: ValType<'a>) -> bool {
    t matches ValType::Ref(r) ==> heap_is_numbered(r.heap)
}

/// What is read of a value type. The numeric types count down from -1. A reference
/// has a prefix, unless it is nullable and its heap type is abstract.
pub open spec fn type_code<'a>(t: ValType<'a>) -> TypeCode {
    match t {
        ValType::I32 => TypeCode::Plain(-1),
        ValType::I64 => TypeCode::Plain(-2),
        ValType::F32 => TypeCode::Plain(-3),
        ValType::F64 => TypeCode::Plain(-4),
        ValType::V128 => TypeCode::Plain(-5),
        ValType::Ref(r) => if r.nullable && r.heap is Abstract {
            TypeCode::Plain(heap_number(r.heap))
        } else {
            TypeCode::Ref { nullable: r.nullable, heap: heap_number(r.heap) }
        },
    }
}

/// A heap type is read back.
pub proof fn law_heap_type_is_read_back<'a>(h: HeapType<'a>, rest: Seq<u8>)
    requires
        heap_is_numbered(h),
    ensures
        h.encodable(),
        read_signed(h.encoded() + rest) == Some((heap_number(h), rest)),
        h is Abstract ==> h.encoded().len() == 1 && 0x69 <= h.encoded()[0] <= 0x74,
{
    match h {
        HeapType::Abstract(_) => {
            assert((h.encoded() + rest).skip(1) =~= rest);
        },
        HeapType::Concrete(i) => {
            lemma_read_signed(index_number(i) as int, rest);
        },
    }
}

/// A value type is read back, whatever its label.
pub proof fn law_value_type_is_read_back<'a>(t: LabeledValType<'a>, rest: Seq<u8>)
    requires
        type_is_numbered(t.ty),
    ensures
        t.encodable(),
        t.ty.encodable(),
        read_type(t.encoded() + rest) == Some((type_code(t.ty), rest)),
        read_type(t.ty.encoded() + rest) == Some((type_code(t.ty), rest)),
        t.ty matches ValType::Ref(r) ==> r.encodable() && read_type(r.encoded() + rest) == Some(
            (type_code(t.ty), rest),
        ),
{
    let bytes = t.encoded() + rest;
    match t.ty {
        ValType::Ref(r) => {
            law_heap_type_is_read_back(r.heap, rest);
            if r.nullable && r.heap is Abstract {
                assert(bytes[0] == r.heap.encoded()[0]);
            } else {
                assert(bytes.skip(1) =~= r.heap.encoded() + rest);
            }
        },
        _ => {
            assert(bytes.skip(1) =~= rest);
        },
    }
}

/// The indices and types that a block needs in its binary form are there.
pub open spec fn block_is_numbered<'a>(b: BlockTypeAst<'a>) -> bool {
    match (b.ty.index, b.ty.inline) {
        (Some(Index::Num(_, _)), _) => true,
        (_, Some(f)) => {
            &&& f.params.len() == 0
            &&& f.results.len() <= 1
            &&& f.results.len() == 1 ==> type_is_numbered(f.results[0].ty)
        },
        _ => false,
    }
}

/// What is read of a block's type: the index of a type, -64 where the block leaves
/// nothing, or the type of the one value that it leaves.
pub open spec fn block_code<'a>(b: BlockTypeAst<'a>) -> TypeCode {
    match (b.ty.index, b.ty.inline) {
        (Some(Index::Num(n, _)), _) => TypeCode::Plain(n as int),
        (_, Some(f)) => if f.results.len() == 1 {
            type_code(f.results[0].ty)
        } else {
            TypeCode::Plain(-64)
        },
        _ => TypeCode::Plain(-64),
    }
}

/// The type of a block is read back.
pub proof fn law_block_type_is_read_back<'a>(b: BlockTypeAst<'a>, rest: Seq<u8>)
    requires
        block_is_numbered(b),
    ensures
        b.encodable(),
        read_type(b.encoded() + rest) == Some((block_code(b), rest)),
{
    let bytes = b.encoded() + rest;
    match b.ty.index {
        Some(Index::Num(n, _)) => {
            lemma_read_signed(n as int, rest);
            assert(bytes[0] == sleb(n as int)[0]);
        },
        _ => {
            let f = b.ty.inline.unwrap();
            if f.results.len() == 1 {
                law_value_type_is_read_back(f.results[0], rest);
            } else {
                assert(bytes.skip(1) =~= rest);
            }
        },
    }
}

/// The first item comes first.
proof fn lemma_first_item<T: Encode>(list: Seq<T>)
    requires
        list.len() > 0,
    ensures
        items(list) == list[0].encoded() + items(list.skip(1)),
    decreases list.len(),
{
    let init = list.drop_last();
    if list.len() == 1 {
        assert(init =~= Seq::<T>::empty());
        assert(list.skip(1) =~= Seq::<T>::empty());
        assert(items(list) =~= list[0].encoded() + items(list.skip(1)));
    } else {
        lemma_first_item(init);
        assert(init.skip(1) =~= list.skip(1).drop_last());
        assert(list.skip(1).last() == list.last());
        assert(items(list) =~= list[0].encoded() + items(list.skip(1)));
    }
}

/// Values that are read back one by one are read back in a row.
proof fn lemma_read_many<T: Encode, A>(
    list: Seq<T>,
    one: spec_fn(Seq<u8>) -> Found<A>,
    value: spec_fn(T) -> A,
    rest: Seq<u8>,
)
    requires
        forall|k: int, r: Seq<u8>|
            0 <= k < list.len() ==> #[trigger] one(list[k].encoded() + r) == Some(
                (value(list[k]), r),
            ),
    ensures
        read_many(items(list) + rest, list.len(), one) == Some((list.map_values(value), rest)),
    decreases list.len(),
{
    if list.len() == 0 {
        assert(items(list) + rest =~= rest);
        assert(list.map_values(value) =~= Seq::<A>::empty());
    } else {
        let tail = list.skip(1);
        lemma_first_item(list);
        assert forall|k: int, r: Seq<u8>| 0 <= k < tail.len() implies #[trigger] one(
            tail[k].encoded() + r,
        ) == Some((value(tail[k]), r)) by {
            assert(tail[k] == list[k + 1]);
        }
        lemma_read_many(tail, one, value, rest);
        assert(items(list) + rest =~= list[0].encoded() + (items(tail) + rest));
        assert(one(list[0].encoded() + (items(tail) + rest)) == Some(
            (value(list[0]), items(tail) + rest),
        ));
        assert(list.map_values(value) =~= seq![value(list[0])] + tail.map_values(value));
    }
}

/// A list is read back, in its order: its length, and each item.
pub proof fn law_list_is_read_back<T: Encode, A>(
    list: Vec<T>,
    one: spec_fn(Seq<u8>) -> Found<A>,
    value: spec_fn(T) -> A,
    rest: Seq<u8>,
)
    requires
        forall|k: int, r: Seq<u8>|
            0 <= k < list@.len() ==> #[trigger] one(list@[k].encoded() + r) == Some(
                (value(list@[k]), r),
            ),
    ensures
        read_list(list.encoded() + rest, one) == Some((list@.map_values(value), rest)),
{
    lemma_read_list(list@, one, value, rest);
}

proof fn lemma_read_list<T: Encode, A>(
    list: Seq<T>,
    one: spec_fn(Seq<u8>) -> Found<A>,
    value: spec_fn(T) -> A,
    rest: Seq<u8>,
)
    requires
        forall|k: int, r: Seq<u8>|
            0 <= k < list.len() ==> #[trigger] one(list[k].encoded() + r) == Some(
                (value(list[k]), r),
            ),
    ensures
        read_list(list_encoded(list) + rest, one) == Some((list.map_values(value), rest)),
{
    assert(list_encoded(list) + rest =~= uleb(list.len()) + (items(list) + rest));
    lemma_read_unsigned(list.len(), items(list) + rest);
    lemma_read_many(list, one, value, rest);
}

/// What the bytes of a catch clause say.
pub struct Clause {
    /// Every exception is caught, not only those with a tag.
    pub all: bool,
    /// The exception itself is handed on.
    pub reference: bool,
    pub tag: Option<nat>,
    pub label: nat,
}

/// Reads a catch clause: bit 1 of the first byte tells whether all exceptions are
/// caught, bit 0 whether the exception is handed on.
pub open spec fn read_clause(bytes: Seq<u8>) -> Found<Clause> {
    if bytes.len() == 0 || bytes[0] >= 4 {
        None
    } else {
        let (all, reference) = (bytes[0] / 2 == 1, bytes[0] % 2 == 1);
        if all {
            match read_unsigned(bytes.skip(1)) {
                Some((label, rest)) => Some((Clause { all, reference, tag: None, label }, rest)),
                None => None,
            }
        } else {
            match read_two(
                bytes.skip(1),
                |b: Seq<u8>| read_unsigned(b),
                |b: Seq<u8>| read_unsigned(b),
            ) {
                Some(((tag, label), rest)) => Some(
                    (Clause { all, reference, tag: Some(tag), label }, rest),
                ),
                None => None,
            }
        }
    }
}

/// The indices in a catch clause have numbers.
pub open spec fn clause_is_numbered<'a>(c: TryTableCatch<'a>) -> bool {
    &&& c.label is Num
    &&& match c.kind {
        TryTableCatchKind::Catch(tag) => tag is Num,
        TryTableCatchKind::CatchRef(tag) => tag is Num,
        _ => true,
    }
}

/// What is read of a catch clause.
pub open spec fn clause_code<'a>(c: TryTableCatch<'a>) -> Clause {
    Clause {
        all: c.kind is CatchAll || c.kind is CatchAllRef,
        reference: c.kind is CatchRef || c.kind is CatchAllRef,
        tag: match c.kind {
            TryTableCatchKind::Catch(tag) => Some(index_number(tag)),
            TryTableCatchKind::CatchRef(tag) => Some(index_number(tag)),
            _ => None,
        },
        label: index_number(c.label),
    }
}

/// A catch clause is read back.
pub proof fn law_catch_clause_is_read_back<'a>(c: TryTableCatch<'a>, rest: Seq<u8>)
    requires
        clause_is_numbered(c),
    ensures
        c.encodable(),
        read_clause(c.encoded() + rest) == Some((clause_code(c), rest)),
{
    let bytes = c.encoded() + rest;
    law_index_is_read_back(c.label, rest);
    match c.kind {
        TryTableCatchKind::Catch(tag) => {
            assert(bytes.skip(1) =~= tag.encoded() + (c.label.encoded() + rest));
            law_index_is_read_back(tag, c.label.encoded() + rest);
        },
        TryTableCatchKind::CatchRef(tag) => {
            assert(bytes.skip(1) =~= tag.encoded() + (c.label.encoded() + rest));
            law_index_is_read_back(tag, c.label.encoded() + rest);
        },
        _ => {
            assert(bytes.skip(1) =~= c.label.encoded() + rest);
        },
    }
}

/// Reads two unsigned numbers.
pub open spec fn read_pair(bytes: Seq<u8>) -> Found<(nat, nat)> {
    read_two(bytes, |b: Seq<u8>| read_unsigned(b), |b: Seq<u8>| read_unsigned(b))
}

proof fn lemma_read_pair<'a>(i: Index<'a>, j: Index<'a>, bytes: Seq<u8>, rest: Seq<u8>)
    requires
        i is Num,
        j is Num,
        bytes == i.encoded() + j.encoded() + rest,
    ensures
        read_pair(bytes) == Some(((index_number(i), index_number(j)), rest)),
{
    assert(bytes =~= i.encoded() + (j.encoded() + rest));
    law_index_is_read_back(i, j.encoded() + rest);
    law_index_is_read_back(j, rest);
}

/// The type of a called function is read back, and the table behind it.
pub proof fn law_call_indirect_is_read_back<'a>(c: CallIndirectAst<'a>, rest: Seq<u8>)
    requires
        c.ty.index matches Some(i) && i is Num,
        c.table is Num,
    ensures
        c.encodable(),
        read_pair(c.encoded() + rest) == Some(
            ((index_number(c.ty.index.unwrap()), index_number(c.table)), rest),
        ),
{
    lemma_read_pair(c.ty.index.unwrap(), c.table, c.encoded() + rest, rest);
}

/// The numbers of indices.
pub open spec fn index_numbers<'a>(list: Seq<Index<'a>>) -> Seq<nat> {
    Seq::new(list.len(), |k: int| index_number(list[k]))
}

/// Every index has a number.
pub open spec fn all_numbered<'a>(list: Seq<Index<'a>>) -> bool {
    forall|k: int| 0 <= k < list.len() ==> (#[trigger] list[k]) is Num
}

/// Reads the labels of a branch table, and the default label behind them.
pub open spec fn read_labels(bytes: Seq<u8>) -> Found<(Seq<nat>, nat)> {
    read_two(
        bytes,
        |b: Seq<u8>| read_list(b, |c: Seq<u8>| read_unsigned(c)),
        |b: Seq<u8>| read_unsigned(b),
    )
}

/// A branch table is read back: the labels, in their order, and the default.
pub proof fn law_branch_table_is_read_back<'a>(t: BrTableIndicesAst<'a>, rest: Seq<u8>)
    requires
        all_numbered(t.labels),
        t.labels.len() <= 0xffff_ffff,
        t.default is Num,
    ensures
        t.encodable(),
        read_labels(t.encoded() + rest) == Some(
            ((index_numbers(t.labels), index_number(t.default)), rest),
        ),
{
    let one = |b: Seq<u8>| read_unsigned(b);
    let value = |i: Index<'a>| index_number(i);
    let more = t.default.encoded() + rest;
    assert forall|k: int, r: Seq<u8>| 0 <= k < t.labels.len() implies #[trigger] one(
        t.labels[k].encoded() + r,
    ) == Some((value(t.labels[k]), r)) by {
        law_index_is_read_back(t.labels[k], r);
    }
    lemma_read_list(t.labels, one, value, more);
    assert(t.encoded() + rest =~= list_encoded(t.labels) + more);
    assert(t.labels.map_values(value) =~= index_numbers(t.labels));
    law_index_is_read_back(t.default, rest);
}

/// What is read of value types.
pub open spec fn type_codes<'a>(list: Seq<LabeledValType<'a>>) -> Seq<TypeCode> {
    Seq::new(list.len(), |k: int| type_code(list[k].ty))
}

/// Reads a `select` with its code: 0x1b has no types, and 0x1c has some.
pub open spec fn read_select(bytes: Seq<u8>) -> Found<Option<Seq<TypeCode>>> {
    if bytes.len() > 0 && bytes[0] == 0x1b {
        Some((None, bytes.skip(1)))
    } else if bytes.len() > 0 && bytes[0] == 0x1c {
        match read_list(bytes.skip(1), |b: Seq<u8>| read_type(b)) {
            Some((types, rest)) => Some((Some(types), rest)),
            None => None,
        }
    } else {
        None
    }
}

/// Every type is numbered, and their number can be written.
pub open spec fn types_are_numbered<'a>(list: Seq<LabeledValType<'a>>) -> bool {
    &&& list.len() <= 0xffff_ffff
    &&& forall|k: int| 0 <= k < list.len() ==> type_is_numbered((#[trigger] list[k]).ty)
}

/// A `select` is read back, and its types in their order.
pub proof fn law_select_is_read_back<'a>(types: Option<Seq<LabeledValType<'a>>>, rest: Seq<u8>)
    requires
        types matches Some(list) ==> types_are_numbered(list),
    ensures
        select_encodable(types),
        read_select(select_encoded(types) + rest) == Some(
            (
                match types {
                    Some(list) => Some(type_codes(list)),
                    None => None,
                },
                rest,
            ),
        ),
{
    let bytes = select_encoded(types) + rest;
    match types {
        Some(list) => {
            let one = |b: Seq<u8>| read_type(b);
            let value = |t: LabeledValType<'a>| type_code(t.ty);
            assert forall|k: int, r: Seq<u8>| 0 <= k < list.len() implies #[trigger] one(
                list[k].encoded() + r,
            ) == Some((value(list[k]), r)) by {
                law_value_type_is_read_back(list[k], r);
            }
            assert forall|k: int| 0 <= k < list.len() implies (#[trigger] list[k]).encodable() by {
                law_value_type_is_read_back(list[k], rest);
            }
            lemma_read_list(list, one, value, rest);
            assert(bytes.skip(1) =~= list_encoded(list) + rest);
            assert(list.map_values(value) =~= type_codes(list));
        },
        None => {
            assert(bytes.skip(1) =~= rest);
        },
    }
}

/// What is read of catch clauses.
pub open spec fn clause_codes<'a>(list: Seq<TryTableCatch<'a>>) -> Seq<Clause> {
    Seq::new(list.len(), |k: int| clause_code(list[k]))
}

/// Reads the type of a block, and catch clauses behind it.
pub open spec fn read_try_table(bytes: Seq<u8>) -> Found<(TypeCode, Seq<Clause>)> {
    read_two(
        bytes,
        |b: Seq<u8>| read_type(b),
        |b: Seq<u8>| read_list(b, |c: Seq<u8>| read_clause(c)),
    )
}

/// The indices and types that a `try_table` needs in its binary form are there.
pub open spec fn try_table_is_numbered<'a>(t: TryTableAst<'a>) -> bool {
    &&& block_is_numbered(t.block)
    &&& t.catches.len() <= 0xffff_ffff
    &&& forall|k: int| 0 <= k < t.catches.len() ==> clause_is_numbered(#[trigger] t.catches[k])
}

/// A `try_table` is read back: its type, and its catch clauses in their order.
pub proof fn law_try_table_is_read_back<'a>(t: TryTableAst<'a>, rest: Seq<u8>)
    requires
        try_table_is_numbered(t),
    ensures
        t.encodable(),
        read_try_table(t.encoded() + rest) == Some(
            ((block_code(t.block), clause_codes(t.catches)), rest),
        ),
{
    let one = |b: Seq<u8>| read_clause(b);
    let value = |c: TryTableCatch<'a>| clause_code(c);
    let more = list_encoded(t.catches) + rest;
    assert forall|k: int, r: Seq<u8>| 0 <= k < t.catches.len() implies #[trigger] one(
        t.catches[k].encoded() + r,
    ) == Some((value(t.catches[k]), r)) by {
        law_catch_clause_is_read_back(t.catches[k], r);
    }
    assert forall|k: int| 0 <= k < t.catches.len() implies (#[trigger] t.catches[k]).encodable() by {
        law_catch_clause_is_read_back(t.catches[k], rest);
    }
    lemma_read_list(t.catches, one, value, rest);
    law_block_type_is_read_back(t.block, more);
    assert(t.encoded() + rest =~= t.block.encoded() + more);
    assert(t.catches.map_values(value) =~= clause_codes(t.catches));
}

/// The indices and types that an operand needs in its binary form are there, and
/// each of its lists is short enough.
pub open spec fn is_numbered<'a>(operand: Operand<'a>) -> bool {
    match operand {
        Operand::Index(i) => i is Num,
        Operand::Table(x) => x.dst is Num,
        Operand::Memory(x) => x.mem is Num,
        Operand::Block(x) => block_is_numbered(x),
        Operand::CallIndirect(x) => x.table is Num && (x.ty.index matches Some(i) && i is Num),
        Operand::BrTable(x) => {
            &&& all_numbered(x.labels)
            &&& x.labels.len() <= 0xffff_ffff
            &&& x.default is Num
        },
        Operand::Select(x) => x matches Some(list) ==> types_are_numbered(list),
        Operand::MemoryInit(x) => x.data is Num && x.mem is Num,
        Operand::MemoryCopy(x) => x.dst is Num && x.src is Num,
        Operand::TableInit(x) => x.elem is Num && x.table is Num,
        Operand::TableCopy(x) => x.dst is Num && x.src is Num,
        Operand::Heap(x) => heap_is_numbered(x),
        Operand::TryTable(x) => try_table_is_numbered(x),
        _ => true,
    }
}

/// A reader of the bytes finds the operand, and `rest` behind it.
pub open spec fn is_read_from<'a>(operand: Operand<'a>, bytes: Seq<u8>, rest: Seq<u8>) -> bool {
    match operand {
        Operand::Nothing => bytes == rest,
        Operand::OptionalId(_) => bytes == rest,
        Operand::Index(i) => read_unsigned(bytes) == Some((index_number(i), rest)),
        Operand::Table(x) => read_unsigned(bytes) == Some((index_number(x.dst), rest)),
        Operand::Memory(x) => read_unsigned(bytes) == Some((index_number(x.mem), rest)),
        Operand::Block(x) => read_type(bytes) == Some((block_code(x), rest)),
        Operand::CallIndirect(x) => read_pair(bytes) == Some(
            ((index_number(x.ty.index.unwrap()), index_number(x.table)), rest),
        ),
        Operand::BrTable(x) => read_labels(bytes) == Some(
            ((index_numbers(x.labels), index_number(x.default)), rest),
        ),
        Operand::Select(x) => read_select(bytes) == Some(
            (
                match x {
                    Some(list) => Some(type_codes(list)),
                    None => None,
                },
                rest,
            ),
        ),
        Operand::MemoryInit(x) => read_pair(bytes) == Some(
            ((index_number(x.data), index_number(x.mem)), rest),
        ),
        Operand::MemoryCopy(x) => read_pair(bytes) == Some(
            ((index_number(x.dst), index_number(x.src)), rest),
        ),
        Operand::TableInit(x) => read_pair(bytes) == Some(
            ((index_number(x.elem), index_number(x.table)), rest),
        ),
        Operand::TableCopy(x) => read_pair(bytes) == Some(
            ((index_number(x.dst), index_number(x.src)), rest),
        ),
        Operand::Heap(x) => read_signed(bytes) == Some((heap_number(x), rest)),
        Operand::I32(n) => read_signed(bytes) == Some((n as int, rest)),
        Operand::I64(n) => read_signed(bytes) == Some((n as int, rest)),
        Operand::F32(x) => read_fixed(bytes, 4) == Some((x.bits as nat, rest)),
        Operand::F64(x) => read_fixed(bytes, 8) == Some((x.bits as nat, rest)),
        Operand::TryTable(x) => read_try_table(bytes) == Some(
            ((block_code(x.block), clause_codes(x.catches)), rest),
        ),
    }
}

/// Every operand is read back. A segment comes before the table or memory that it is
/// copied into, and a destination before a source.
#[verifier::rlimit(40)]
pub proof fn law_operand_is_read_back<'a>(operand: Operand<'a>, rest: Seq<u8>)
    requires
        is_numbered(operand),
    ensures
        operand.encodable(),
        is_read_from(operand, operand.encoded() + rest, rest),
{
    let bytes = operand.encoded() + rest;
    match operand {
        Operand::Nothing => assert(bytes =~= rest),
        Operand::OptionalId(_) => assert(bytes =~= rest),
        Operand::Index(i) => law_index_is_read_back(i, rest),
        Operand::Table(x) => law_index_is_read_back(x.dst, rest),
        Operand::Memory(x) => law_index_is_read_back(x.mem, rest),
        Operand::Block(x) => law_block_type_is_read_back(x, rest),
        Operand::CallIndirect(x) => law_call_indirect_is_read_back(x, rest),
        Operand::BrTable(x) => law_branch_table_is_read_back(x, rest),
        Operand::Select(x) => law_select_is_read_back(x, rest),
        Operand::MemoryInit(x) => lemma_read_pair(x.data, x.mem, bytes, rest),
        Operand::MemoryCopy(x) => lemma_read_pair(x.dst, x.src, bytes, rest),
        Operand::TableInit(x) => lemma_read_pair(x.elem, x.table, bytes, rest),
        Operand::TableCopy(x) => lemma_read_pair(x.dst, x.src, bytes, rest),
        Operand::Heap(x) => law_heap_type_is_read_back(x, rest),
        Operand::I32(n) => law_signed_is_read_back(0, n, rest),
        Operand::I64(n) => law_signed_is_read_back(n, 0, rest),
        Operand::F32(x) => law_floats_are_read_back(x, F64 { bits: 0 }, rest),
        Operand::F64(x) => law_floats_are_read_back(F32 { bits: 0 }, x, rest),
        Operand::TryTable(x) => law_try_table_is_read_back(x, rest),
    }
}

/// An instruction is read back: its code, and its operand behind that. The code of a
/// `select` belongs to what is read of its types.
pub proof fn law_instruction_is_read_back<'a>(i: InstructionAst<'a>, rest: Seq<u8>)
    requires
        is_numbered(i.operand),
    ensures
        AllInstructionsAst::Other(i).encodable(),
        ({
            let bytes = AllInstructionsAst::Other(i).encoded() + rest;
            match i.op.encoding() {
                Encoding::Implied => is_read_from(i.operand, bytes, rest),
                Encoding::Byte(b) => {
                    &&& bytes.len() >= 1 && bytes[0] == b
                    &&& is_read_from(i.operand, bytes.skip(1), rest)
                },
                Encoding::Prefixed(p, b) => {
                    &&& bytes.len() >= 2 && bytes[0] == p && bytes[1] == b
                    &&& is_read_from(i.operand, bytes.skip(2), rest)
                },
            }
        }),
{
    let bytes = AllInstructionsAst::Other(i).encoded() + rest;
    let tail = i.operand.encoded() + rest;
    law_operand_is_read_back(i.operand, rest);
    match i.op.encoding() {
        Encoding::Implied => assert(bytes =~= tail),
        Encoding::Byte(_) => assert(bytes.skip(1) =~= tail),
        Encoding::Prefixed(_, _) => assert(bytes.skip(2) =~= tail),
    }
}

/// A labeled instruction is read back: the byte of its code, and its argument. Of its
/// label nothing is left.
pub proof fn law_labeled_instruction_is_read_back<'a>(l: LabeledInstruction<'a>, rest: Seq<u8>)
    requires
        l.instruction.arg().memory is Num,
        is_pow2(l.instruction.arg().align as int),
    ensures
        AllInstructionsAst::Labeled(l).encodable(),
        ({
            let bytes = AllInstructionsAst::Labeled(l).encoded() + rest;
            let arg = l.instruction.arg();
            &&& bytes.len() >= 1 && bytes[0] == l.instruction.op().byte()
            &&& read_access(bytes.skip(1)) matches Some((a, left))
            &&& pow2(a.log) == arg.align
            &&& a.memory == index_number(arg.memory)
            &&& a.offset == arg.offset
            &&& left == rest
        }),
{
    let bytes = AllInstructionsAst::Labeled(l).encoded() + rest;
    law_memory_argument_is_read_back(l.instruction.arg(), rest);
    assert(bytes.skip(1) =~= l.instruction.arg().encoded() + rest);
}

/// Operands that are made of several parts are read back part by part, in the order of
/// their lists.
pub proof fn law_values_are_read_back<'a>(
    block: BlockType<'a>,
    call: CallIndirect<'a>,
    table: BrTableIndices<'a>,
    select: SelectTypes<'a>,
    handled: TryTable<'a>,
    rest: Seq<u8>,
)
    ensures
        block_is_numbered(block@) ==> block.encodable() && read_type(block.encoded() + rest)
            == Some((block_code(block@), rest)),
        call.ty.index matches Some(i) ==> i is Num && call.table is Num ==> call.encodable()
            && read_pair(call.encoded() + rest) == Some(
            ((index_number(i), index_number(call.table)), rest),
        ),
        all_numbered(table.labels@) && table.labels@.len() <= 0xffff_ffff && table.default is Num
            ==> table.encodable() && read_labels(table.encoded() + rest) == Some(
            ((index_numbers(table.labels@), index_number(table.default)), rest),
        ),
        match select.tys {
            Some(list) => types_are_numbered(list@) ==> select.encodable() && read_select(
                select.encoded() + rest,
            ) == Some((Some(type_codes(list@)), rest)),
            None => select.encodable() && read_select(select.encoded() + rest) == Some(
                (None::<Seq<TypeCode>>, rest),
            ),
        },
        try_table_is_numbered(handled@) ==> handled.encodable() && read_try_table(
            handled.encoded() + rest,
        ) == Some(((block_code((*handled.block)@), clause_codes(handled.catches@)), rest)),
{
    if block_is_numbered(block@) {
        law_block_type_is_read_back(block@, rest);
    }
    if let Some(i) = call.ty.index {
        if i is Num && call.table is Num {
            law_call_indirect_is_read_back(call@, rest);
        }
    }
    if all_numbered(table.labels@) && table.labels@.len() <= 0xffff_ffff && table.default is Num {
        law_branch_table_is_read_back(table@, rest);
    }
    if select.tys matches Some(list) ==> types_are_numbered(list@) {
        law_select_is_read_back(select@, rest);
    }
    if try_table_is_numbered(handled@) {
        law_try_table_is_read_back(handled@, rest);
    }
}

/// An instruction is encoded by itself as it is among all instructions, and of a labeled
/// one, what it is without its label.
pub proof fn law_one_binary_form<'a>(l: LabeledInstruction<'a>, i: Instruction<'a>)
    ensures
        AllInstructions::Labeled(l)@ == AllInstructionsAst::Labeled(l),
        AllInstructions::Labeled(l).encodable() == l.instruction.encodable(),
        AllInstructions::Labeled(l).encoded() == l.instruction.encoded(),
        AllInstructionsAst::Labeled(l).encoded() == l.instruction.encoded(),
        AllInstructions::Other(i)@ == AllInstructionsAst::Other(i@),
        AllInstructions::Other(i).encodable() == i.encodable(),
        AllInstructions::Other(i).encoded() == i.encoded(),
        AllInstructionsAst::Other(i@).encoded() == i.encoded(),
{
}

/// The unsigned form of a number is the shortest that is read as that number.
pub proof fn law_shortest_unsigned_form(n: nat, bytes: Seq<u8>, rest: Seq<u8>)
    requires
        read_unsigned(bytes) == Some((n, rest)),
    ensures
        bytes.len() >= uleb(n).len() + rest.len(),
    decreases bytes.len(),
{
    if bytes[0] >= 128 {
        let (m, left) = read_unsigned(bytes.skip(1)).unwrap();
        law_shortest_unsigned_form(m, bytes.skip(1), left);
        assert(n >= 128 ==> n / 128 == m);
    }
}

/// So is the signed form.
pub proof fn law_shortest_signed_form(n: int, bytes: Seq<u8>, rest: Seq<u8>)
    requires
        read_signed(bytes) == Some((n, rest)),
    ensures
        bytes.len() >= sleb(n).len() + rest.len(),
    decreases bytes.len(),
{
    if bytes[0] >= 128 {
        let (m, left) = read_signed(bytes.skip(1)).unwrap();
        law_shortest_signed_form(m, bytes.skip(1), left);
        assert(n / 128 == m);
    }
}

/// Numbers, and indices with them, are written in the shortest form.
pub proof fn law_numbers_are_short<'a>(
    u: u64,
    m: u32,
    i: i64,
    j: i32,
    index: Index<'a>,
    bytes: Seq<u8>,
)
    ensures
        read_unsigned(bytes) == Some((u as nat, Seq::<u8>::empty())) ==> bytes.len()
            >= u.encoded().len(),
        read_unsigned(bytes) == Some((m as nat, Seq::<u8>::empty())) ==> bytes.len()
            >= m.encoded().len(),
        read_signed(bytes) == Some((i as int, Seq::<u8>::empty())) ==> bytes.len()
            >= i.encoded().len(),
        read_signed(bytes) == Some((j as int, Seq::<u8>::empty())) ==> bytes.len()
            >= j.encoded().len(),
        index is Num && read_unsigned(bytes) == Some((index_number(index), Seq::<u8>::empty()))
            ==> bytes.len() >= index.encoded().len(),
{
    if let Some((n, rest)) = read_unsigned(bytes) {
        law_shortest_unsigned_form(n, bytes, rest);
    }
    if let Some((n, rest)) = read_signed(bytes) {
        law_shortest_signed_form(n, bytes, rest);
    }
}

} // verus!
