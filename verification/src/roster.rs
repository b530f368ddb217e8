//! The instructions: how each one is written, and which code it has.

use vstd::prelude::*;

use crate::control::{BlockType, BrTableIndices, CallIndirect, SelectTypes, TryTable};
use crate::encode::Encode;
use crate::instruction::{Instruction, Operand};
use crate::labels::MemoryInstruction;
use crate::memory::{
    MemArg, MemoryArg, MemoryCopy, MemoryInit, TableArg, TableCopy, TableInit,
};
use crate::opcode::{MemoryOpcode, Opcode};
use crate::parser::{Cursor, Input, Parse};
use crate::token::{Error, Id, Index, F32, F64};
use crate::types::HeapType;

verus! {

/// The instruction is written as the keyword `word` alone, and `code` is its binary
/// form.
#[verifier::opaque]
pub open spec fn plain_row<'a>(i: Instruction<'a>, word: Seq<char>, code: Seq<u8>) -> bool {
    &&& forall|input: Input<'a>, at: Cursor|
        input.at_keyword(at, word) ==> #[trigger] Instruction::grammar(input, at) == Ok::<_, Error>(
            (i@, input.step(at)),
        )
    &&& i.encodable()
    &&& i.encoded() == code
}

/// The instruction is written as the keyword `word` and its operand `x`. Its binary
/// form is `code` and that of the operand.
#[verifier::opaque]
pub open spec fn row<'a, T: Parse<'a> + Encode>(
    i: Instruction<'a>,
    x: T,
    word: Seq<char>,
    code: Seq<u8>,
) -> bool {
    &&& forall|input: Input<'a>, at: Cursor|
        input.at_keyword(at, word) ==> match T::grammar(input, input.step(at)) {
            Ok((ast, to)) => ast == x.ast() ==> #[trigger] Instruction::grammar(input, at) == Ok::<
                _,
                Error,
            >((i@, to)),
            Err(e) => Instruction::grammar(input, at) is Err,
        }
    &&& i.encodable() == x.encodable()
    &&& i.encoded() == code + x.encoded()
}

/// The instruction is written as the keyword `word` and its argument, in which the
/// alignment is `align` where none is given. Its binary form is `code` and that of
/// the argument.
#[verifier::opaque]
pub open spec fn memory_row<'a>(
    i: MemoryInstruction<'a>,
    x: MemArg<'a>,
    word: Seq<char>,
    code: u8,
    align: u64,
) -> bool {
    &&& forall|input: Input<'a>, at: Cursor|
        input.at_keyword(at, word) ==> match MemArg::grammar(input, input.step(at), align) {
            Ok((arg, to)) => arg == x ==> #[trigger] MemoryInstruction::grammar(input, at) == Ok::<
                _,
                Error,
            >((i, to)),
            Err(e) => MemoryInstruction::grammar(input, at) is Err,
        }
    &&& i.arg() == x
    &&& i.encodable() == x.encodable()
    &&& i.encoded() == seq![code] + x.encoded()
}

proof fn lemma_plain_row<'a>(i: Instruction<'a>, op: Opcode)
    requires
        i@.op == op,
        i@.operand is Nothing,
        op.operand() is Nothing,
    ensures
        plain_row(i, op.mnemonic(), op.encoding().bytes()),
{
    reveal(plain_row);
    Opcode::lemma_named(op);
    assert(i.encoded() =~= op.encoding().bytes());
}

proof fn lemma_index_row<'a>(i: Instruction<'a>, x: Index<'a>, op: Opcode)
    requires
        i@.op == op,
        i@.operand == Operand::Index(x),
        op.operand() is Index,
    ensures
        row(i, x, op.mnemonic(), op.encoding().bytes()),
{
    reveal(row);
    Opcode::lemma_named(op);
}

proof fn lemma_table_row<'a>(i: Instruction<'a>, x: TableArg<'a>, op: Opcode)
    requires
        i@.op == op,
        i@.operand == Operand::Table(x),
        op.operand() is Table,
    ensures
        row(i, x, op.mnemonic(), op.encoding().bytes()),
{
    reveal(row);
    Opcode::lemma_named(op);
}

proof fn lemma_block_row<'a>(i: Instruction<'a>, x: BlockType<'a>, op: Opcode)
    requires
        i@.op == op,
        i@.operand == Operand::Block(x@),
        op.operand() is Block,
    ensures
        row(i, x, op.mnemonic(), op.encoding().bytes()),
{
    reveal(row);
    Opcode::lemma_named(op);
}

proof fn lemma_memory_row<'a>(i: Instruction<'a>, x: MemoryArg<'a>, op: Opcode)
    requires
        i@.op == op,
        i@.operand == Operand::Memory(x),
        op.operand() is Memory,
    ensures
        row(i, x, op.mnemonic(), op.encoding().bytes()),
{
    reveal(row);
    Opcode::lemma_named(op);
}

proof fn lemma_optional_id_row<'a>(i: Instruction<'a>, x: Option<Id<'a>>, op: Opcode)
    requires
        i@.op == op,
        i@.operand == Operand::OptionalId(x),
        op.operand() is OptionalId,
    ensures
        row(i, x, op.mnemonic(), op.encoding().bytes()),
{
    reveal(row);
    Opcode::lemma_named(op);
}

proof fn lemma_call_indirect_row<'a>(i: Instruction<'a>, x: CallIndirect<'a>, op: Opcode)
    requires
        i@.op == op,
        i@.operand == Operand::CallIndirect(x@),
        op.operand() is CallIndirect,
    ensures
        row(i, x, op.mnemonic(), op.encoding().bytes()),
{
    reveal(row);
    Opcode::lemma_named(op);
}

proof fn lemma_br_table_row<'a>(i: Instruction<'a>, x: BrTableIndices<'a>, op: Opcode)
    requires
        i@.op == op,
        i@.operand == Operand::BrTable(x@),
        op.operand() is BrTable,
    ensures
        row(i, x, op.mnemonic(), op.encoding().bytes()),
{
    reveal(row);
    Opcode::lemma_named(op);
}

proof fn lemma_select_row<'a>(i: Instruction<'a>, x: SelectTypes<'a>, op: Opcode)
    requires
        i@.op == op,
        i@.operand == Operand::Select(x@),
        op.operand() is Select,
    ensures
        row(i, x, op.mnemonic(), op.encoding().bytes()),
{
    reveal(row);
    Opcode::lemma_named(op);
}

proof fn lemma_memory_init_row<'a>(i: Instruction<'a>, x: MemoryInit<'a>, op: Opcode)
    requires
        i@.op == op,
        i@.operand == Operand::MemoryInit(x),
        op.operand() is MemoryInit,
    ensures
        row(i, x, op.mnemonic(), op.encoding().bytes()),
{
    reveal(row);
    Opcode::lemma_named(op);
}

proof fn lemma_memory_copy_row<'a>(i: Instruction<'a>, x: MemoryCopy<'a>, op: Opcode)
    requires
        i@.op == op,
        i@.operand == Operand::MemoryCopy(x),
        op.operand() is MemoryCopy,
    ensures
        row(i, x, op.mnemonic(), op.encoding().bytes()),
{
    reveal(row);
    Opcode::lemma_named(op);
}

proof fn lemma_table_init_row<'a>(i: Instruction<'a>, x: TableInit<'a>, op: Opcode)
    requires
        i@.op == op,
        i@.operand == Operand::TableInit(x),
        op.operand() is TableInit,
    ensures
        row(i, x, op.mnemonic(), op.encoding().bytes()),
{
    reveal(row);
    Opcode::lemma_named(op);
}

proof fn lemma_table_copy_row<'a>(i: Instruction<'a>, x: TableCopy<'a>, op: Opcode)
    requires
        i@.op == op,
        i@.operand == Operand::TableCopy(x),
        op.operand() is TableCopy,
    ensures
        row(i, x, op.mnemonic(), op.encoding().bytes()),
{
    reveal(row);
    Opcode::lemma_named(op);
}

proof fn lemma_heap_row<'a>(i: Instruction<'a>, x: HeapType<'a>, op: Opcode)
    requires
        i@.op == op,
        i@.operand == Operand::Heap(x),
        op.operand() is Heap,
    ensures
        row(i, x, op.mnemonic(), op.encoding().bytes()),
{
    reveal(row);
    Opcode::lemma_named(op);
}

proof fn lemma_i32_row<'a>(i: Instruction<'a>, x: i32, op: Opcode)
    requires
        i@.op == op,
        i@.operand == Operand::I32(x),
        op.operand() is I32,
    ensures
        row(i, x, op.mnemonic(), op.encoding().bytes()),
{
    reveal(row);
    Opcode::lemma_named(op);
}

proof fn lemma_i64_row<'a>(i: Instruction<'a>, x: i64, op: Opcode)
    requires
        i@.op == op,
        i@.operand == Operand::I64(x),
        op.operand() is I64,
    ensures
        row(i, x, op.mnemonic(), op.encoding().bytes()),
{
    reveal(row);
    Opcode::lemma_named(op);
}

proof fn lemma_f32_row<'a>(i: Instruction<'a>, x: F32, op: Opcode)
    requires
        i@.op == op,
        i@.operand == Operand::F32(x),
        op.operand() is F32,
    ensures
        row(i, x, op.mnemonic(), op.encoding().bytes()),
{
    reveal(row);
    Opcode::lemma_named(op);
}

proof fn lemma_f64_row<'a>(i: Instruction<'a>, x: F64, op: Opcode)
    requires
        i@.op == op,
        i@.operand == Operand::F64(x),
        op.operand() is F64,
    ensures
        row(i, x, op.mnemonic(), op.encoding().bytes()),
{
    reveal(row);
    Opcode::lemma_named(op);
}

proof fn lemma_try_table_row<'a>(i: Instruction<'a>, x: TryTable<'a>, op: Opcode)
    requires
        i@.op == op,
        i@.operand == Operand::TryTable(x@),
        op.operand() is TryTable,
    ensures
        row(i, x, op.mnemonic(), op.encoding().bytes()),
{
    reveal(row);
    Opcode::lemma_named(op);
}

proof fn lemma_memory_access_row<'a>(i: MemoryInstruction<'a>, x: MemArg<'a>, op: MemoryOpcode)
    requires
        i == MemoryInstruction::of(op, x),
        i.arg() == x,
        i.op() == op,
    ensures
        memory_row(i, x, op.mnemonic(), op.byte(), op.natural_align()),
{
    reveal(memory_row);
    MemoryOpcode::lemma_named(op);
}

/// Control instructions without operands, and the others that come before the
/// variables.
pub proof fn law_control_instructions<'a>()
    ensures
        plain_row(Instruction::<'a>::Unreachable, "unreachable"@, seq![0x00u8]),
        plain_row(Instruction::<'a>::Nop, "nop"@, seq![0x01u8]),
        plain_row(Instruction::<'a>::ThrowRef, "throw_ref"@, seq![0x0au8]),
        plain_row(Instruction::<'a>::Return, "return"@, seq![0x0fu8]),
        plain_row(Instruction::<'a>::CatchAll, "catch_all"@, seq![0x19u8]),
        plain_row(Instruction::<'a>::Drop, "drop"@, seq![0x1au8]),
{
    assert(plain_row(Instruction::<'a>::Unreachable, "unreachable"@, seq![0x00u8])) by {
        lemma_plain_row(Instruction::<'a>::Unreachable, Opcode::Unreachable);
    }
    assert(plain_row(Instruction::<'a>::Nop, "nop"@, seq![0x01u8])) by {
        lemma_plain_row(Instruction::<'a>::Nop, Opcode::Nop);
    }
    assert(plain_row(Instruction::<'a>::ThrowRef, "throw_ref"@, seq![0x0au8])) by {
        lemma_plain_row(Instruction::<'a>::ThrowRef, Opcode::ThrowRef);
    }
    assert(plain_row(Instruction::<'a>::Return, "return"@, seq![0x0fu8])) by {
        lemma_plain_row(Instruction::<'a>::Return, Opcode::Return);
    }
    assert(plain_row(Instruction::<'a>::CatchAll, "catch_all"@, seq![0x19u8])) by {
        lemma_plain_row(Instruction::<'a>::CatchAll, Opcode::CatchAll);
    }
    assert(plain_row(Instruction::<'a>::Drop, "drop"@, seq![0x1au8])) by {
        lemma_plain_row(Instruction::<'a>::Drop, Opcode::Drop);
    }
}

/// Instructions on references without operands.
pub proof fn law_reference_instructions<'a>()
    ensures
        plain_row(Instruction::<'a>::RefIsNull, "ref.is_null"@, seq![0xd1u8]),
        plain_row(Instruction::<'a>::RefAsNonNull, "ref.as_non_null"@, seq![0xd4u8]),
{
    assert(plain_row(Instruction::<'a>::RefIsNull, "ref.is_null"@, seq![0xd1u8])) by {
        lemma_plain_row(Instruction::<'a>::RefIsNull, Opcode::RefIsNull);
    }
    assert(plain_row(Instruction::<'a>::RefAsNonNull, "ref.as_non_null"@, seq![0xd4u8])) by {
        lemma_plain_row(Instruction::<'a>::RefAsNonNull, Opcode::RefAsNonNull);
    }
}

/// The comparisons of `i32` have consecutive codes from 0x45 on.
pub proof fn law_i32_comparisons<'a>()
    ensures
        plain_row(Instruction::<'a>::I32Eqz, "i32.eqz"@, seq![0x45u8]),
        plain_row(Instruction::<'a>::I32Eq, "i32.eq"@, seq![0x46u8]),
        plain_row(Instruction::<'a>::I32Ne, "i32.ne"@, seq![0x47u8]),
        plain_row(Instruction::<'a>::I32LtS, "i32.lt_s"@, seq![0x48u8]),
        plain_row(Instruction::<'a>::I32LtU, "i32.lt_u"@, seq![0x49u8]),
        plain_row(Instruction::<'a>::I32GtS, "i32.gt_s"@, seq![0x4au8]),
        plain_row(Instruction::<'a>::I32GtU, "i32.gt_u"@, seq![0x4bu8]),
        plain_row(Instruction::<'a>::I32LeS, "i32.le_s"@, seq![0x4cu8]),
        plain_row(Instruction::<'a>::I32LeU, "i32.le_u"@, seq![0x4du8]),
        plain_row(Instruction::<'a>::I32GeS, "i32.ge_s"@, seq![0x4eu8]),
        plain_row(Instruction::<'a>::I32GeU, "i32.ge_u"@, seq![0x4fu8]),
{
    assert(plain_row(Instruction::<'a>::I32Eqz, "i32.eqz"@, seq![0x45u8])) by {
        lemma_plain_row(Instruction::<'a>::I32Eqz, Opcode::I32Eqz);
    }
    assert(plain_row(Instruction::<'a>::I32Eq, "i32.eq"@, seq![0x46u8])) by {
        lemma_plain_row(Instruction::<'a>::I32Eq, Opcode::I32Eq);
    }
    assert(plain_row(Instruction::<'a>::I32Ne, "i32.ne"@, seq![0x47u8])) by {
        lemma_plain_row(Instruction::<'a>::I32Ne, Opcode::I32Ne);
    }
    assert(plain_row(Instruction::<'a>::I32LtS, "i32.lt_s"@, seq![0x48u8])) by {
        lemma_plain_row(Instruction::<'a>::I32LtS, Opcode::I32LtS);
    }
    assert(plain_row(Instruction::<'a>::I32LtU, "i32.lt_u"@, seq![0x49u8])) by {
        lemma_plain_row(Instruction::<'a>::I32LtU, Opcode::I32LtU);
    }
    assert(plain_row(Instruction::<'a>::I32GtS, "i32.gt_s"@, seq![0x4au8])) by {
        lemma_plain_row(Instruction::<'a>::I32GtS, Opcode::I32GtS);
    }
    assert(plain_row(Instruction::<'a>::I32GtU, "i32.gt_u"@, seq![0x4bu8])) by {
        lemma_plain_row(Instruction::<'a>::I32GtU, Opcode::I32GtU);
    }
    assert(plain_row(Instruction::<'a>::I32LeS, "i32.le_s"@, seq![0x4cu8])) by {
        lemma_plain_row(Instruction::<'a>::I32LeS, Opcode::I32LeS);
    }
    assert(plain_row(Instruction::<'a>::I32LeU, "i32.le_u"@, seq![0x4du8])) by {
        lemma_plain_row(Instruction::<'a>::I32LeU, Opcode::I32LeU);
    }
    assert(plain_row(Instruction::<'a>::I32GeS, "i32.ge_s"@, seq![0x4eu8])) by {
        lemma_plain_row(Instruction::<'a>::I32GeS, Opcode::I32GeS);
    }
    assert(plain_row(Instruction::<'a>::I32GeU, "i32.ge_u"@, seq![0x4fu8])) by {
        lemma_plain_row(Instruction::<'a>::I32GeU, Opcode::I32GeU);
    }
}

/// The comparisons of `i64` have consecutive codes from 0x50 on.
pub proof fn law_i64_comparisons<'a>()
    ensures
        plain_row(Instruction::<'a>::I64Eqz, "i64.eqz"@, seq![0x50u8]),
        plain_row(Instruction::<'a>::I64Eq, "i64.eq"@, seq![0x51u8]),
        plain_row(Instruction::<'a>::I64Ne, "i64.ne"@, seq![0x52u8]),
        plain_row(Instruction::<'a>::I64LtS, "i64.lt_s"@, seq![0x53u8]),
        plain_row(Instruction::<'a>::I64LtU, "i64.lt_u"@, seq![0x54u8]),
        plain_row(Instruction::<'a>::I64GtS, "i64.gt_s"@, seq![0x55u8]),
        plain_row(Instruction::<'a>::I64GtU, "i64.gt_u"@, seq![0x56u8]),
        plain_row(Instruction::<'a>::I64LeS, "i64.le_s"@, seq![0x57u8]),
        plain_row(Instruction::<'a>::I64LeU, "i64.le_u"@, seq![0x58u8]),
        plain_row(Instruction::<'a>::I64GeS, "i64.ge_s"@, seq![0x59u8]),
        plain_row(Instruction::<'a>::I64GeU, "i64.ge_u"@, seq![0x5au8]),
{
    assert(plain_row(Instruction::<'a>::I64Eqz, "i64.eqz"@, seq![0x50u8])) by {
        lemma_plain_row(Instruction::<'a>::I64Eqz, Opcode::I64Eqz);
    }
    assert(plain_row(Instruction::<'a>::I64Eq, "i64.eq"@, seq![0x51u8])) by {
        lemma_plain_row(Instruction::<'a>::I64Eq, Opcode::I64Eq);
    }
    assert(plain_row(Instruction::<'a>::I64Ne, "i64.ne"@, seq![0x52u8])) by {
        lemma_plain_row(Instruction::<'a>::I64Ne, Opcode::I64Ne);
    }
    assert(plain_row(Instruction::<'a>::I64LtS, "i64.lt_s"@, seq![0x53u8])) by {
        lemma_plain_row(Instruction::<'a>::I64LtS, Opcode::I64LtS);
    }
    assert(plain_row(Instruction::<'a>::I64LtU, "i64.lt_u"@, seq![0x54u8])) by {
        lemma_plain_row(Instruction::<'a>::I64LtU, Opcode::I64LtU);
    }
    assert(plain_row(Instruction::<'a>::I64GtS, "i64.gt_s"@, seq![0x55u8])) by {
        lemma_plain_row(Instruction::<'a>::I64GtS, Opcode::I64GtS);
    }
    assert(plain_row(Instruction::<'a>::I64GtU, "i64.gt_u"@, seq![0x56u8])) by {
        lemma_plain_row(Instruction::<'a>::I64GtU, Opcode::I64GtU);
    }
    assert(plain_row(Instruction::<'a>::I64LeS, "i64.le_s"@, seq![0x57u8])) by {
        lemma_plain_row(Instruction::<'a>::I64LeS, Opcode::I64LeS);
    }
    assert(plain_row(Instruction::<'a>::I64LeU, "i64.le_u"@, seq![0x58u8])) by {
        lemma_plain_row(Instruction::<'a>::I64LeU, Opcode::I64LeU);
    }
    assert(plain_row(Instruction::<'a>::I64GeS, "i64.ge_s"@, seq![0x59u8])) by {
        lemma_plain_row(Instruction::<'a>::I64GeS, Opcode::I64GeS);
    }
    assert(plain_row(Instruction::<'a>::I64GeU, "i64.ge_u"@, seq![0x5au8])) by {
        lemma_plain_row(Instruction::<'a>::I64GeU, Opcode::I64GeU);
    }
}

/// The comparisons of `f32` and `f64` have consecutive codes from 0x5b on.
pub proof fn law_float_comparisons<'a>()
    ensures
        plain_row(Instruction::<'a>::F32Eq, "f32.eq"@, seq![0x5bu8]),
        plain_row(Instruction::<'a>::F32Ne, "f32.ne"@, seq![0x5cu8]),
        plain_row(Instruction::<'a>::F32Lt, "f32.lt"@, seq![0x5du8]),
        plain_row(Instruction::<'a>::F32Gt, "f32.gt"@, seq![0x5eu8]),
        plain_row(Instruction::<'a>::F32Le, "f32.le"@, seq![0x5fu8]),
        plain_row(Instruction::<'a>::F32Ge, "f32.ge"@, seq![0x60u8]),
        plain_row(Instruction::<'a>::F64Eq, "f64.eq"@, seq![0x61u8]),
        plain_row(Instruction::<'a>::F64Ne, "f64.ne"@, seq![0x62u8]),
        plain_row(Instruction::<'a>::F64Lt, "f64.lt"@, seq![0x63u8]),
        plain_row(Instruction::<'a>::F64Gt, "f64.gt"@, seq![0x64u8]),
        plain_row(Instruction::<'a>::F64Le, "f64.le"@, seq![0x65u8]),
        plain_row(Instruction::<'a>::F64Ge, "f64.ge"@, seq![0x66u8]),
{
    assert(plain_row(Instruction::<'a>::F32Eq, "f32.eq"@, seq![0x5bu8])) by {
        lemma_plain_row(Instruction::<'a>::F32Eq, Opcode::F32Eq);
    }
    assert(plain_row(Instruction::<'a>::F32Ne, "f32.ne"@, seq![0x5cu8])) by {
        lemma_plain_row(Instruction::<'a>::F32Ne, Opcode::F32Ne);
    }
    assert(plain_row(Instruction::<'a>::F32Lt, "f32.lt"@, seq![0x5du8])) by {
        lemma_plain_row(Instruction::<'a>::F32Lt, Opcode::F32Lt);
    }
    assert(plain_row(Instruction::<'a>::F32Gt, "f32.gt"@, seq![0x5eu8])) by {
        lemma_plain_row(Instruction::<'a>::F32Gt, Opcode::F32Gt);
    }
    assert(plain_row(Instruction::<'a>::F32Le, "f32.le"@, seq![0x5fu8])) by {
        lemma_plain_row(Instruction::<'a>::F32Le, Opcode::F32Le);
    }
    assert(plain_row(Instruction::<'a>::F32Ge, "f32.ge"@, seq![0x60u8])) by {
        lemma_plain_row(Instruction::<'a>::F32Ge, Opcode::F32Ge);
    }
    assert(plain_row(Instruction::<'a>::F64Eq, "f64.eq"@, seq![0x61u8])) by {
        lemma_plain_row(Instruction::<'a>::F64Eq, Opcode::F64Eq);
    }
    assert(plain_row(Instruction::<'a>::F64Ne, "f64.ne"@, seq![0x62u8])) by {
        lemma_plain_row(Instruction::<'a>::F64Ne, Opcode::F64Ne);
    }
    assert(plain_row(Instruction::<'a>::F64Lt, "f64.lt"@, seq![0x63u8])) by {
        lemma_plain_row(Instruction::<'a>::F64Lt, Opcode::F64Lt);
    }
    assert(plain_row(Instruction::<'a>::F64Gt, "f64.gt"@, seq![0x64u8])) by {
        lemma_plain_row(Instruction::<'a>::F64Gt, Opcode::F64Gt);
    }
    assert(plain_row(Instruction::<'a>::F64Le, "f64.le"@, seq![0x65u8])) by {
        lemma_plain_row(Instruction::<'a>::F64Le, Opcode::F64Le);
    }
    assert(plain_row(Instruction::<'a>::F64Ge, "f64.ge"@, seq![0x66u8])) by {
        lemma_plain_row(Instruction::<'a>::F64Ge, Opcode::F64Ge);
    }
}

/// The arithmetic of `i32` has consecutive codes from 0x67 on.
pub proof fn law_i32_arithmetic<'a>()
    ensures
        plain_row(Instruction::<'a>::I32Clz, "i32.clz"@, seq![0x67u8]),
        plain_row(Instruction::<'a>::I32Ctz, "i32.ctz"@, seq![0x68u8]),
        plain_row(Instruction::<'a>::I32Popcnt, "i32.popcnt"@, seq![0x69u8]),
        plain_row(Instruction::<'a>::I32Add, "i32.add"@, seq![0x6au8]),
        plain_row(Instruction::<'a>::I32Sub, "i32.sub"@, seq![0x6bu8]),
        plain_row(Instruction::<'a>::I32Mul, "i32.mul"@, seq![0x6cu8]),
        plain_row(Instruction::<'a>::I32DivS, "i32.div_s"@, seq![0x6du8]),
        plain_row(Instruction::<'a>::I32DivU, "i32.div_u"@, seq![0x6eu8]),
        plain_row(Instruction::<'a>::I32RemS, "i32.rem_s"@, seq![0x6fu8]),
        plain_row(Instruction::<'a>::I32RemU, "i32.rem_u"@, seq![0x70u8]),
        plain_row(Instruction::<'a>::I32And, "i32.and"@, seq![0x71u8]),
        plain_row(Instruction::<'a>::I32Or, "i32.or"@, seq![0x72u8]),
        plain_row(Instruction::<'a>::I32Xor, "i32.xor"@, seq![0x73u8]),
        plain_row(Instruction::<'a>::I32Shl, "i32.shl"@, seq![0x74u8]),
        plain_row(Instruction::<'a>::I32ShrS, "i32.shr_s"@, seq![0x75u8]),
        plain_row(Instruction::<'a>::I32ShrU, "i32.shr_u"@, seq![0x76u8]),
        plain_row(Instruction::<'a>::I32Rotl, "i32.rotl"@, seq![0x77u8]),
        plain_row(Instruction::<'a>::I32Rotr, "i32.rotr"@, seq![0x78u8]),
{
    assert(plain_row(Instruction::<'a>::I32Clz, "i32.clz"@, seq![0x67u8])) by {
        lemma_plain_row(Instruction::<'a>::I32Clz, Opcode::I32Clz);
    }
    assert(plain_row(Instruction::<'a>::I32Ctz, "i32.ctz"@, seq![0x68u8])) by {
        lemma_plain_row(Instruction::<'a>::I32Ctz, Opcode::I32Ctz);
    }
    assert(plain_row(Instruction::<'a>::I32Popcnt, "i32.popcnt"@, seq![0x69u8])) by {
        lemma_plain_row(Instruction::<'a>::I32Popcnt, Opcode::I32Popcnt);
    }
    assert(plain_row(Instruction::<'a>::I32Add, "i32.add"@, seq![0x6au8])) by {
        lemma_plain_row(Instruction::<'a>::I32Add, Opcode::I32Add);
    }
    assert(plain_row(Instruction::<'a>::I32Sub, "i32.sub"@, seq![0x6bu8])) by {
        lemma_plain_row(Instruction::<'a>::I32Sub, Opcode::I32Sub);
    }
    assert(plain_row(Instruction::<'a>::I32Mul, "i32.mul"@, seq![0x6cu8])) by {
        lemma_plain_row(Instruction::<'a>::I32Mul, Opcode::I32Mul);
    }
    assert(plain_row(Instruction::<'a>::I32DivS, "i32.div_s"@, seq![0x6du8])) by {
        lemma_plain_row(Instruction::<'a>::I32DivS, Opcode::I32DivS);
    }
    assert(plain_row(Instruction::<'a>::I32DivU, "i32.div_u"@, seq![0x6eu8])) by {
        lemma_plain_row(Instruction::<'a>::I32DivU, Opcode::I32DivU);
    }
    assert(plain_row(Instruction::<'a>::I32RemS, "i32.rem_s"@, seq![0x6fu8])) by {
        lemma_plain_row(Instruction::<'a>::I32RemS, Opcode::I32RemS);
    }
    assert(plain_row(Instruction::<'a>::I32RemU, "i32.rem_u"@, seq![0x70u8])) by {
        lemma_plain_row(Instruction::<'a>::I32RemU, Opcode::I32RemU);
    }
    assert(plain_row(Instruction::<'a>::I32And, "i32.and"@, seq![0x71u8])) by {
        lemma_plain_row(Instruction::<'a>::I32And, Opcode::I32And);
    }
    assert(plain_row(Instruction::<'a>::I32Or, "i32.or"@, seq![0x72u8])) by {
        lemma_plain_row(Instruction::<'a>::I32Or, Opcode::I32Or);
    }
    assert(plain_row(Instruction::<'a>::I32Xor, "i32.xor"@, seq![0x73u8])) by {
        lemma_plain_row(Instruction::<'a>::I32Xor, Opcode::I32Xor);
    }
    assert(plain_row(Instruction::<'a>::I32Shl, "i32.shl"@, seq![0x74u8])) by {
        lemma_plain_row(Instruction::<'a>::I32Shl, Opcode::I32Shl);
    }
    assert(plain_row(Instruction::<'a>::I32ShrS, "i32.shr_s"@, seq![0x75u8])) by {
        lemma_plain_row(Instruction::<'a>::I32ShrS, Opcode::I32ShrS);
    }
    assert(plain_row(Instruction::<'a>::I32ShrU, "i32.shr_u"@, seq![0x76u8])) by {
        lemma_plain_row(Instruction::<'a>::I32ShrU, Opcode::I32ShrU);
    }
    assert(plain_row(Instruction::<'a>::I32Rotl, "i32.rotl"@, seq![0x77u8])) by {
        lemma_plain_row(Instruction::<'a>::I32Rotl, Opcode::I32Rotl);
    }
    assert(plain_row(Instruction::<'a>::I32Rotr, "i32.rotr"@, seq![0x78u8])) by {
        lemma_plain_row(Instruction::<'a>::I32Rotr, Opcode::I32Rotr);
    }
}

/// The arithmetic of `i64` has consecutive codes from 0x79 on.
pub proof fn law_i64_arithmetic<'a>()
    ensures
        plain_row(Instruction::<'a>::I64Clz, "i64.clz"@, seq![0x79u8]),
        plain_row(Instruction::<'a>::I64Ctz, "i64.ctz"@, seq![0x7au8]),
        plain_row(Instruction::<'a>::I64Popcnt, "i64.popcnt"@, seq![0x7bu8]),
        plain_row(Instruction::<'a>::I64Add, "i64.add"@, seq![0x7cu8]),
        plain_row(Instruction::<'a>::I64Sub, "i64.sub"@, seq![0x7du8]),
        plain_row(Instruction::<'a>::I64Mul, "i64.mul"@, seq![0x7eu8]),
        plain_row(Instruction::<'a>::I64DivS, "i64.div_s"@, seq![0x7fu8]),
        plain_row(Instruction::<'a>::I64DivU, "i64.div_u"@, seq![0x80u8]),
        plain_row(Instruction::<'a>::I64RemS, "i64.rem_s"@, seq![0x81u8]),
        plain_row(Instruction::<'a>::I64RemU, "i64.rem_u"@, seq![0x82u8]),
        plain_row(Instruction::<'a>::I64And, "i64.and"@, seq![0x83u8]),
        plain_row(Instruction::<'a>::I64Or, "i64.or"@, seq![0x84u8]),
        plain_row(Instruction::<'a>::I64Xor, "i64.xor"@, seq![0x85u8]),
        plain_row(Instruction::<'a>::I64Shl, "i64.shl"@, seq![0x86u8]),
        plain_row(Instruction::<'a>::I64ShrS, "i64.shr_s"@, seq![0x87u8]),
        plain_row(Instruction::<'a>::I64ShrU, "i64.shr_u"@, seq![0x88u8]),
        plain_row(Instruction::<'a>::I64Rotl, "i64.rotl"@, seq![0x89u8]),
        plain_row(Instruction::<'a>::I64Rotr, "i64.rotr"@, seq![0x8au8]),
{
    assert(plain_row(Instruction::<'a>::I64Clz, "i64.clz"@, seq![0x79u8])) by {
        lemma_plain_row(Instruction::<'a>::I64Clz, Opcode::I64Clz);
    }
    assert(plain_row(Instruction::<'a>::I64Ctz, "i64.ctz"@, seq![0x7au8])) by {
        lemma_plain_row(Instruction::<'a>::I64Ctz, Opcode::I64Ctz);
    }
    assert(plain_row(Instruction::<'a>::I64Popcnt, "i64.popcnt"@, seq![0x7bu8])) by {
        lemma_plain_row(Instruction::<'a>::I64Popcnt, Opcode::I64Popcnt);
    }
    assert(plain_row(Instruction::<'a>::I64Add, "i64.add"@, seq![0x7cu8])) by {
        lemma_plain_row(Instruction::<'a>::I64Add, Opcode::I64Add);
    }
    assert(plain_row(Instruction::<'a>::I64Sub, "i64.sub"@, seq![0x7du8])) by {
        lemma_plain_row(Instruction::<'a>::I64Sub, Opcode::I64Sub);
    }
    assert(plain_row(Instruction::<'a>::I64Mul, "i64.mul"@, seq![0x7eu8])) by {
        lemma_plain_row(Instruction::<'a>::I64Mul, Opcode::I64Mul);
    }
    assert(plain_row(Instruction::<'a>::I64DivS, "i64.div_s"@, seq![0x7fu8])) by {
        lemma_plain_row(Instruction::<'a>::I64DivS, Opcode::I64DivS);
    }
    assert(plain_row(Instruction::<'a>::I64DivU, "i64.div_u"@, seq![0x80u8])) by {
        lemma_plain_row(Instruction::<'a>::I64DivU, Opcode::I64DivU);
    }
    assert(plain_row(Instruction::<'a>::I64RemS, "i64.rem_s"@, seq![0x81u8])) by {
        lemma_plain_row(Instruction::<'a>::I64RemS, Opcode::I64RemS);
    }
    assert(plain_row(Instruction::<'a>::I64RemU, "i64.rem_u"@, seq![0x82u8])) by {
        lemma_plain_row(Instruction::<'a>::I64RemU, Opcode::I64RemU);
    }
    assert(plain_row(Instruction::<'a>::I64And, "i64.and"@, seq![0x83u8])) by {
        lemma_plain_row(Instruction::<'a>::I64And, Opcode::I64And);
    }
    assert(plain_row(Instruction::<'a>::I64Or, "i64.or"@, seq![0x84u8])) by {
        lemma_plain_row(Instruction::<'a>::I64Or, Opcode::I64Or);
    }
    assert(plain_row(Instruction::<'a>::I64Xor, "i64.xor"@, seq![0x85u8])) by {
        lemma_plain_row(Instruction::<'a>::I64Xor, Opcode::I64Xor);
    }
    assert(plain_row(Instruction::<'a>::I64Shl, "i64.shl"@, seq![0x86u8])) by {
        lemma_plain_row(Instruction::<'a>::I64Shl, Opcode::I64Shl);
    }
    assert(plain_row(Instruction::<'a>::I64ShrS, "i64.shr_s"@, seq![0x87u8])) by {
        lemma_plain_row(Instruction::<'a>::I64ShrS, Opcode::I64ShrS);
    }
    assert(plain_row(Instruction::<'a>::I64ShrU, "i64.shr_u"@, seq![0x88u8])) by {
        lemma_plain_row(Instruction::<'a>::I64ShrU, Opcode::I64ShrU);
    }
    assert(plain_row(Instruction::<'a>::I64Rotl, "i64.rotl"@, seq![0x89u8])) by {
        lemma_plain_row(Instruction::<'a>::I64Rotl, Opcode::I64Rotl);
    }
    assert(plain_row(Instruction::<'a>::I64Rotr, "i64.rotr"@, seq![0x8au8])) by {
        lemma_plain_row(Instruction::<'a>::I64Rotr, Opcode::I64Rotr);
    }
}

/// The arithmetic of `f32` has consecutive codes from 0x8b on.
pub proof fn law_f32_arithmetic<'a>()
    ensures
        plain_row(Instruction::<'a>::F32Abs, "f32.abs"@, seq![0x8bu8]),
        plain_row(Instruction::<'a>::F32Neg, "f32.neg"@, seq![0x8cu8]),
        plain_row(Instruction::<'a>::F32Ceil, "f32.ceil"@, seq![0x8du8]),
        plain_row(Instruction::<'a>::F32Floor, "f32.floor"@, seq![0x8eu8]),
        plain_row(Instruction::<'a>::F32Trunc, "f32.trunc"@, seq![0x8fu8]),
        plain_row(Instruction::<'a>::F32Nearest, "f32.nearest"@, seq![0x90u8]),
        plain_row(Instruction::<'a>::F32Sqrt, "f32.sqrt"@, seq![0x91u8]),
        plain_row(Instruction::<'a>::F32Add, "f32.add"@, seq![0x92u8]),
        plain_row(Instruction::<'a>::F32Sub, "f32.sub"@, seq![0x93u8]),
        plain_row(Instruction::<'a>::F32Mul, "f32.mul"@, seq![0x94u8]),
        plain_row(Instruction::<'a>::F32Div, "f32.div"@, seq![0x95u8]),
        plain_row(Instruction::<'a>::F32Min, "f32.min"@, seq![0x96u8]),
        plain_row(Instruction::<'a>::F32Max, "f32.max"@, seq![0x97u8]),
        plain_row(Instruction::<'a>::F32Copysign, "f32.copysign"@, seq![0x98u8]),
{
    assert(plain_row(Instruction::<'a>::F32Abs, "f32.abs"@, seq![0x8bu8])) by {
        lemma_plain_row(Instruction::<'a>::F32Abs, Opcode::F32Abs);
    }
    assert(plain_row(Instruction::<'a>::F32Neg, "f32.neg"@, seq![0x8cu8])) by {
        lemma_plain_row(Instruction::<'a>::F32Neg, Opcode::F32Neg);
    }
    assert(plain_row(Instruction::<'a>::F32Ceil, "f32.ceil"@, seq![0x8du8])) by {
        lemma_plain_row(Instruction::<'a>::F32Ceil, Opcode::F32Ceil);
    }
    assert(plain_row(Instruction::<'a>::F32Floor, "f32.floor"@, seq![0x8eu8])) by {
        lemma_plain_row(Instruction::<'a>::F32Floor, Opcode::F32Floor);
    }
    assert(plain_row(Instruction::<'a>::F32Trunc, "f32.trunc"@, seq![0x8fu8])) by {
        lemma_plain_row(Instruction::<'a>::F32Trunc, Opcode::F32Trunc);
    }
    assert(plain_row(Instruction::<'a>::F32Nearest, "f32.nearest"@, seq![0x90u8])) by {
        lemma_plain_row(Instruction::<'a>::F32Nearest, Opcode::F32Nearest);
    }
    assert(plain_row(Instruction::<'a>::F32Sqrt, "f32.sqrt"@, seq![0x91u8])) by {
        lemma_plain_row(Instruction::<'a>::F32Sqrt, Opcode::F32Sqrt);
    }
    assert(plain_row(Instruction::<'a>::F32Add, "f32.add"@, seq![0x92u8])) by {
        lemma_plain_row(Instruction::<'a>::F32Add, Opcode::F32Add);
    }
    assert(plain_row(Instruction::<'a>::F32Sub, "f32.sub"@, seq![0x93u8])) by {
        lemma_plain_row(Instruction::<'a>::F32Sub, Opcode::F32Sub);
    }
    assert(plain_row(Instruction::<'a>::F32Mul, "f32.mul"@, seq![0x94u8])) by {
        lemma_plain_row(Instruction::<'a>::F32Mul, Opcode::F32Mul);
    }
    assert(plain_row(Instruction::<'a>::F32Div, "f32.div"@, seq![0x95u8])) by {
        lemma_plain_row(Instruction::<'a>::F32Div, Opcode::F32Div);
    }
    assert(plain_row(Instruction::<'a>::F32Min, "f32.min"@, seq![0x96u8])) by {
        lemma_plain_row(Instruction::<'a>::F32Min, Opcode::F32Min);
    }
    assert(plain_row(Instruction::<'a>::F32Max, "f32.max"@, seq![0x97u8])) by {
        lemma_plain_row(Instruction::<'a>::F32Max, Opcode::F32Max);
    }
    assert(plain_row(Instruction::<'a>::F32Copysign, "f32.copysign"@, seq![0x98u8])) by {
        lemma_plain_row(Instruction::<'a>::F32Copysign, Opcode::F32Copysign);
    }
}

/// The arithmetic of `f64` has consecutive codes from 0x99 on.
pub proof fn law_f64_arithmetic<'a>()
    ensures
        plain_row(Instruction::<'a>::F64Abs, "f64.abs"@, seq![0x99u8]),
        plain_row(Instruction::<'a>::F64Neg, "f64.neg"@, seq![0x9au8]),
        plain_row(Instruction::<'a>::F64Ceil, "f64.ceil"@, seq![0x9bu8]),
        plain_row(Instruction::<'a>::F64Floor, "f64.floor"@, seq![0x9cu8]),
        plain_row(Instruction::<'a>::F64Trunc, "f64.trunc"@, seq![0x9du8]),
        plain_row(Instruction::<'a>::F64Nearest, "f64.nearest"@, seq![0x9eu8]),
        plain_row(Instruction::<'a>::F64Sqrt, "f64.sqrt"@, seq![0x9fu8]),
        plain_row(Instruction::<'a>::F64Add, "f64.add"@, seq![0xa0u8]),
        plain_row(Instruction::<'a>::F64Sub, "f64.sub"@, seq![0xa1u8]),
        plain_row(Instruction::<'a>::F64Mul, "f64.mul"@, seq![0xa2u8]),
        plain_row(Instruction::<'a>::F64Div, "f64.div"@, seq![0xa3u8]),
        plain_row(Instruction::<'a>::F64Min, "f64.min"@, seq![0xa4u8]),
        plain_row(Instruction::<'a>::F64Max, "f64.max"@, seq![0xa5u8]),
        plain_row(Instruction::<'a>::F64Copysign, "f64.copysign"@, seq![0xa6u8]),
{
    assert(plain_row(Instruction::<'a>::F64Abs, "f64.abs"@, seq![0x99u8])) by {
        lemma_plain_row(Instruction::<'a>::F64Abs, Opcode::F64Abs);
    }
    assert(plain_row(Instruction::<'a>::F64Neg, "f64.neg"@, seq![0x9au8])) by {
        lemma_plain_row(Instruction::<'a>::F64Neg, Opcode::F64Neg);
    }
    assert(plain_row(Instruction::<'a>::F64Ceil, "f64.ceil"@, seq![0x9bu8])) by {
        lemma_plain_row(Instruction::<'a>::F64Ceil, Opcode::F64Ceil);
    }
    assert(plain_row(Instruction::<'a>::F64Floor, "f64.floor"@, seq![0x9cu8])) by {
        lemma_plain_row(Instruction::<'a>::F64Floor, Opcode::F64Floor);
    }
    assert(plain_row(Instruction::<'a>::F64Trunc, "f64.trunc"@, seq![0x9du8])) by {
        lemma_plain_row(Instruction::<'a>::F64Trunc, Opcode::F64Trunc);
    }
    assert(plain_row(Instruction::<'a>::F64Nearest, "f64.nearest"@, seq![0x9eu8])) by {
        lemma_plain_row(Instruction::<'a>::F64Nearest, Opcode::F64Nearest);
    }
    assert(plain_row(Instruction::<'a>::F64Sqrt, "f64.sqrt"@, seq![0x9fu8])) by {
        lemma_plain_row(Instruction::<'a>::F64Sqrt, Opcode::F64Sqrt);
    }
    assert(plain_row(Instruction::<'a>::F64Add, "f64.add"@, seq![0xa0u8])) by {
        lemma_plain_row(Instruction::<'a>::F64Add, Opcode::F64Add);
    }
    assert(plain_row(Instruction::<'a>::F64Sub, "f64.sub"@, seq![0xa1u8])) by {
        lemma_plain_row(Instruction::<'a>::F64Sub, Opcode::F64Sub);
    }
    assert(plain_row(Instruction::<'a>::F64Mul, "f64.mul"@, seq![0xa2u8])) by {
        lemma_plain_row(Instruction::<'a>::F64Mul, Opcode::F64Mul);
    }
    assert(plain_row(Instruction::<'a>::F64Div, "f64.div"@, seq![0xa3u8])) by {
        lemma_plain_row(Instruction::<'a>::F64Div, Opcode::F64Div);
    }
    assert(plain_row(Instruction::<'a>::F64Min, "f64.min"@, seq![0xa4u8])) by {
        lemma_plain_row(Instruction::<'a>::F64Min, Opcode::F64Min);
    }
    assert(plain_row(Instruction::<'a>::F64Max, "f64.max"@, seq![0xa5u8])) by {
        lemma_plain_row(Instruction::<'a>::F64Max, Opcode::F64Max);
    }
    assert(plain_row(Instruction::<'a>::F64Copysign, "f64.copysign"@, seq![0xa6u8])) by {
        lemma_plain_row(Instruction::<'a>::F64Copysign, Opcode::F64Copysign);
    }
}

/// The conversions have consecutive codes from 0xa7 on.
pub proof fn law_conversions<'a>()
    ensures
        plain_row(Instruction::<'a>::I32WrapI64, "i32.wrap_i64"@, seq![0xa7u8]),
        plain_row(Instruction::<'a>::I32TruncF32S, "i32.trunc_f32_s"@, seq![0xa8u8]),
        plain_row(Instruction::<'a>::I32TruncF32U, "i32.trunc_f32_u"@, seq![0xa9u8]),
        plain_row(Instruction::<'a>::I32TruncF64S, "i32.trunc_f64_s"@, seq![0xaau8]),
        plain_row(Instruction::<'a>::I32TruncF64U, "i32.trunc_f64_u"@, seq![0xabu8]),
        plain_row(Instruction::<'a>::I64ExtendI32S, "i64.extend_i32_s"@, seq![0xacu8]),
        plain_row(Instruction::<'a>::I64ExtendI32U, "i64.extend_i32_u"@, seq![0xadu8]),
        plain_row(Instruction::<'a>::I64TruncF32S, "i64.trunc_f32_s"@, seq![0xaeu8]),
        plain_row(Instruction::<'a>::I64TruncF32U, "i64.trunc_f32_u"@, seq![0xafu8]),
        plain_row(Instruction::<'a>::I64TruncF64S, "i64.trunc_f64_s"@, seq![0xb0u8]),
        plain_row(Instruction::<'a>::I64TruncF64U, "i64.trunc_f64_u"@, seq![0xb1u8]),
        plain_row(Instruction::<'a>::F32ConvertI32S, "f32.convert_i32_s"@, seq![0xb2u8]),
        plain_row(Instruction::<'a>::F32ConvertI32U, "f32.convert_i32_u"@, seq![0xb3u8]),
        plain_row(Instruction::<'a>::F32ConvertI64S, "f32.convert_i64_s"@, seq![0xb4u8]),
        plain_row(Instruction::<'a>::F32ConvertI64U, "f32.convert_i64_u"@, seq![0xb5u8]),
        plain_row(Instruction::<'a>::F32DemoteF64, "f32.demote_f64"@, seq![0xb6u8]),
        plain_row(Instruction::<'a>::F64ConvertI32S, "f64.convert_i32_s"@, seq![0xb7u8]),
        plain_row(Instruction::<'a>::F64ConvertI32U, "f64.convert_i32_u"@, seq![0xb8u8]),
        plain_row(Instruction::<'a>::F64ConvertI64S, "f64.convert_i64_s"@, seq![0xb9u8]),
        plain_row(Instruction::<'a>::F64ConvertI64U, "f64.convert_i64_u"@, seq![0xbau8]),
        plain_row(Instruction::<'a>::F64PromoteF32, "f64.promote_f32"@, seq![0xbbu8]),
        plain_row(Instruction::<'a>::I32ReinterpretF32, "i32.reinterpret_f32"@, seq![0xbcu8]),
        plain_row(Instruction::<'a>::I64ReinterpretF64, "i64.reinterpret_f64"@, seq![0xbdu8]),
        plain_row(Instruction::<'a>::F32ReinterpretI32, "f32.reinterpret_i32"@, seq![0xbeu8]),
        plain_row(Instruction::<'a>::F64ReinterpretI64, "f64.reinterpret_i64"@, seq![0xbfu8]),
        plain_row(Instruction::<'a>::I32Extend8S, "i32.extend8_s"@, seq![0xc0u8]),
        plain_row(Instruction::<'a>::I32Extend16S, "i32.extend16_s"@, seq![0xc1u8]),
        plain_row(Instruction::<'a>::I64Extend8S, "i64.extend8_s"@, seq![0xc2u8]),
        plain_row(Instruction::<'a>::I64Extend16S, "i64.extend16_s"@, seq![0xc3u8]),
        plain_row(Instruction::<'a>::I64Extend32S, "i64.extend32_s"@, seq![0xc4u8]),
{
    assert(plain_row(Instruction::<'a>::I32WrapI64, "i32.wrap_i64"@, seq![0xa7u8])) by {
        lemma_plain_row(Instruction::<'a>::I32WrapI64, Opcode::I32WrapI64);
    }
    assert(plain_row(Instruction::<'a>::I32TruncF32S, "i32.trunc_f32_s"@, seq![0xa8u8])) by {
        lemma_plain_row(Instruction::<'a>::I32TruncF32S, Opcode::I32TruncF32S);
    }
    assert(plain_row(Instruction::<'a>::I32TruncF32U, "i32.trunc_f32_u"@, seq![0xa9u8])) by {
        lemma_plain_row(Instruction::<'a>::I32TruncF32U, Opcode::I32TruncF32U);
    }
    assert(plain_row(Instruction::<'a>::I32TruncF64S, "i32.trunc_f64_s"@, seq![0xaau8])) by {
        lemma_plain_row(Instruction::<'a>::I32TruncF64S, Opcode::I32TruncF64S);
    }
    assert(plain_row(Instruction::<'a>::I32TruncF64U, "i32.trunc_f64_u"@, seq![0xabu8])) by {
        lemma_plain_row(Instruction::<'a>::I32TruncF64U, Opcode::I32TruncF64U);
    }
    assert(plain_row(Instruction::<'a>::I64ExtendI32S, "i64.extend_i32_s"@, seq![0xacu8])) by {
        lemma_plain_row(Instruction::<'a>::I64ExtendI32S, Opcode::I64ExtendI32S);
    }
    assert(plain_row(Instruction::<'a>::I64ExtendI32U, "i64.extend_i32_u"@, seq![0xadu8])) by {
        lemma_plain_row(Instruction::<'a>::I64ExtendI32U, Opcode::I64ExtendI32U);
    }
    assert(plain_row(Instruction::<'a>::I64TruncF32S, "i64.trunc_f32_s"@, seq![0xaeu8])) by {
        lemma_plain_row(Instruction::<'a>::I64TruncF32S, Opcode::I64TruncF32S);
    }
    assert(plain_row(Instruction::<'a>::I64TruncF32U, "i64.trunc_f32_u"@, seq![0xafu8])) by {
        lemma_plain_row(Instruction::<'a>::I64TruncF32U, Opcode::I64TruncF32U);
    }
    assert(plain_row(Instruction::<'a>::I64TruncF64S, "i64.trunc_f64_s"@, seq![0xb0u8])) by {
        lemma_plain_row(Instruction::<'a>::I64TruncF64S, Opcode::I64TruncF64S);
    }
    assert(plain_row(Instruction::<'a>::I64TruncF64U, "i64.trunc_f64_u"@, seq![0xb1u8])) by {
        lemma_plain_row(Instruction::<'a>::I64TruncF64U, Opcode::I64TruncF64U);
    }
    assert(plain_row(Instruction::<'a>::F32ConvertI32S, "f32.convert_i32_s"@, seq![0xb2u8])) by {
        lemma_plain_row(Instruction::<'a>::F32ConvertI32S, Opcode::F32ConvertI32S);
    }
    assert(plain_row(Instruction::<'a>::F32ConvertI32U, "f32.convert_i32_u"@, seq![0xb3u8])) by {
        lemma_plain_row(Instruction::<'a>::F32ConvertI32U, Opcode::F32ConvertI32U);
    }
    assert(plain_row(Instruction::<'a>::F32ConvertI64S, "f32.convert_i64_s"@, seq![0xb4u8])) by {
        lemma_plain_row(Instruction::<'a>::F32ConvertI64S, Opcode::F32ConvertI64S);
    }
    assert(plain_row(Instruction::<'a>::F32ConvertI64U, "f32.convert_i64_u"@, seq![0xb5u8])) by {
        lemma_plain_row(Instruction::<'a>::F32ConvertI64U, Opcode::F32ConvertI64U);
    }
    assert(plain_row(Instruction::<'a>::F32DemoteF64, "f32.demote_f64"@, seq![0xb6u8])) by {
        lemma_plain_row(Instruction::<'a>::F32DemoteF64, Opcode::F32DemoteF64);
    }
    assert(plain_row(Instruction::<'a>::F64ConvertI32S, "f64.convert_i32_s"@, seq![0xb7u8])) by {
        lemma_plain_row(Instruction::<'a>::F64ConvertI32S, Opcode::F64ConvertI32S);
    }
    assert(plain_row(Instruction::<'a>::F64ConvertI32U, "f64.convert_i32_u"@, seq![0xb8u8])) by {
        lemma_plain_row(Instruction::<'a>::F64ConvertI32U, Opcode::F64ConvertI32U);
    }
    assert(plain_row(Instruction::<'a>::F64ConvertI64S, "f64.convert_i64_s"@, seq![0xb9u8])) by {
        lemma_plain_row(Instruction::<'a>::F64ConvertI64S, Opcode::F64ConvertI64S);
    }
    assert(plain_row(Instruction::<'a>::F64ConvertI64U, "f64.convert_i64_u"@, seq![0xbau8])) by {
        lemma_plain_row(Instruction::<'a>::F64ConvertI64U, Opcode::F64ConvertI64U);
    }
    assert(plain_row(Instruction::<'a>::F64PromoteF32, "f64.promote_f32"@, seq![0xbbu8])) by {
        lemma_plain_row(Instruction::<'a>::F64PromoteF32, Opcode::F64PromoteF32);
    }
    assert(plain_row(Instruction::<'a>::I32ReinterpretF32, "i32.reinterpret_f32"@, seq![0xbcu8])) by {
        lemma_plain_row(Instruction::<'a>::I32ReinterpretF32, Opcode::I32ReinterpretF32);
    }
    assert(plain_row(Instruction::<'a>::I64ReinterpretF64, "i64.reinterpret_f64"@, seq![0xbdu8])) by {
        lemma_plain_row(Instruction::<'a>::I64ReinterpretF64, Opcode::I64ReinterpretF64);
    }
    assert(plain_row(Instruction::<'a>::F32ReinterpretI32, "f32.reinterpret_i32"@, seq![0xbeu8])) by {
        lemma_plain_row(Instruction::<'a>::F32ReinterpretI32, Opcode::F32ReinterpretI32);
    }
    assert(plain_row(Instruction::<'a>::F64ReinterpretI64, "f64.reinterpret_i64"@, seq![0xbfu8])) by {
        lemma_plain_row(Instruction::<'a>::F64ReinterpretI64, Opcode::F64ReinterpretI64);
    }
    assert(plain_row(Instruction::<'a>::I32Extend8S, "i32.extend8_s"@, seq![0xc0u8])) by {
        lemma_plain_row(Instruction::<'a>::I32Extend8S, Opcode::I32Extend8S);
    }
    assert(plain_row(Instruction::<'a>::I32Extend16S, "i32.extend16_s"@, seq![0xc1u8])) by {
        lemma_plain_row(Instruction::<'a>::I32Extend16S, Opcode::I32Extend16S);
    }
    assert(plain_row(Instruction::<'a>::I64Extend8S, "i64.extend8_s"@, seq![0xc2u8])) by {
        lemma_plain_row(Instruction::<'a>::I64Extend8S, Opcode::I64Extend8S);
    }
    assert(plain_row(Instruction::<'a>::I64Extend16S, "i64.extend16_s"@, seq![0xc3u8])) by {
        lemma_plain_row(Instruction::<'a>::I64Extend16S, Opcode::I64Extend16S);
    }
    assert(plain_row(Instruction::<'a>::I64Extend32S, "i64.extend32_s"@, seq![0xc4u8])) by {
        lemma_plain_row(Instruction::<'a>::I64Extend32S, Opcode::I64Extend32S);
    }
}

/// The saturating conversions have consecutive codes behind the prefix 0xfc.
pub proof fn law_saturating_conversions<'a>()
    ensures
        plain_row(Instruction::<'a>::I32TruncSatF32S, "i32.trunc_sat_f32_s"@, seq![0xfcu8, 0x00]),
        plain_row(Instruction::<'a>::I32TruncSatF32U, "i32.trunc_sat_f32_u"@, seq![0xfcu8, 0x01]),
        plain_row(Instruction::<'a>::I32TruncSatF64S, "i32.trunc_sat_f64_s"@, seq![0xfcu8, 0x02]),
        plain_row(Instruction::<'a>::I32TruncSatF64U, "i32.trunc_sat_f64_u"@, seq![0xfcu8, 0x03]),
        plain_row(Instruction::<'a>::I64TruncSatF32S, "i64.trunc_sat_f32_s"@, seq![0xfcu8, 0x04]),
        plain_row(Instruction::<'a>::I64TruncSatF32U, "i64.trunc_sat_f32_u"@, seq![0xfcu8, 0x05]),
        plain_row(Instruction::<'a>::I64TruncSatF64S, "i64.trunc_sat_f64_s"@, seq![0xfcu8, 0x06]),
        plain_row(Instruction::<'a>::I64TruncSatF64U, "i64.trunc_sat_f64_u"@, seq![0xfcu8, 0x07]),
{
    assert(plain_row(Instruction::<'a>::I32TruncSatF32S, "i32.trunc_sat_f32_s"@, seq![0xfcu8, 0x00])) by {
        lemma_plain_row(Instruction::<'a>::I32TruncSatF32S, Opcode::I32TruncSatF32S);
    }
    assert(plain_row(Instruction::<'a>::I32TruncSatF32U, "i32.trunc_sat_f32_u"@, seq![0xfcu8, 0x01])) by {
        lemma_plain_row(Instruction::<'a>::I32TruncSatF32U, Opcode::I32TruncSatF32U);
    }
    assert(plain_row(Instruction::<'a>::I32TruncSatF64S, "i32.trunc_sat_f64_s"@, seq![0xfcu8, 0x02])) by {
        lemma_plain_row(Instruction::<'a>::I32TruncSatF64S, Opcode::I32TruncSatF64S);
    }
    assert(plain_row(Instruction::<'a>::I32TruncSatF64U, "i32.trunc_sat_f64_u"@, seq![0xfcu8, 0x03])) by {
        lemma_plain_row(Instruction::<'a>::I32TruncSatF64U, Opcode::I32TruncSatF64U);
    }
    assert(plain_row(Instruction::<'a>::I64TruncSatF32S, "i64.trunc_sat_f32_s"@, seq![0xfcu8, 0x04])) by {
        lemma_plain_row(Instruction::<'a>::I64TruncSatF32S, Opcode::I64TruncSatF32S);
    }
    assert(plain_row(Instruction::<'a>::I64TruncSatF32U, "i64.trunc_sat_f32_u"@, seq![0xfcu8, 0x05])) by {
        lemma_plain_row(Instruction::<'a>::I64TruncSatF32U, Opcode::I64TruncSatF32U);
    }
    assert(plain_row(Instruction::<'a>::I64TruncSatF64S, "i64.trunc_sat_f64_s"@, seq![0xfcu8, 0x06])) by {
        lemma_plain_row(Instruction::<'a>::I64TruncSatF64S, Opcode::I64TruncSatF64S);
    }
    assert(plain_row(Instruction::<'a>::I64TruncSatF64U, "i64.trunc_sat_f64_u"@, seq![0xfcu8, 0x07])) by {
        lemma_plain_row(Instruction::<'a>::I64TruncSatF64U, Opcode::I64TruncSatF64U);
    }
}

/// Instructions whose operand is an index.
pub proof fn law_index_instructions<'a>(x: Index<'a>)
    ensures
        row(Instruction::Catch(x), x, "catch"@, seq![0x07u8]),
        row(Instruction::Throw(x), x, "throw"@, seq![0x08u8]),
        row(Instruction::Rethrow(x), x, "rethrow"@, seq![0x09u8]),
        row(Instruction::Br(x), x, "br"@, seq![0x0cu8]),
        row(Instruction::BrIf(x), x, "br_if"@, seq![0x0du8]),
        row(Instruction::Call(x), x, "call"@, seq![0x10u8]),
        row(Instruction::ReturnCall(x), x, "return_call"@, seq![0x12u8]),
        row(Instruction::CallRef(x), x, "call_ref"@, seq![0x14u8]),
        row(Instruction::ReturnCallRef(x), x, "return_call_ref"@, seq![0x15u8]),
        row(Instruction::Delegate(x), x, "delegate"@, seq![0x18u8]),
        row(Instruction::LocalGet(x), x, "local.get"@, seq![0x20u8]),
        row(Instruction::LocalSet(x), x, "local.set"@, seq![0x21u8]),
        row(Instruction::LocalTee(x), x, "local.tee"@, seq![0x22u8]),
        row(Instruction::GlobalGet(x), x, "global.get"@, seq![0x23u8]),
        row(Instruction::GlobalSet(x), x, "global.set"@, seq![0x24u8]),
        row(Instruction::RefFunc(x), x, "ref.func"@, seq![0xd2u8]),
        row(Instruction::BrOnNull(x), x, "br_on_null"@, seq![0xd5u8]),
        row(Instruction::BrOnNonNull(x), x, "br_on_non_null"@, seq![0xd6u8]),
        row(Instruction::DataDrop(x), x, "data.drop"@, seq![0xfcu8, 0x09]),
        row(Instruction::ElemDrop(x), x, "elem.drop"@, seq![0xfcu8, 0x0d]),
{
    assert(row(Instruction::Catch(x), x, "catch"@, seq![0x07u8])) by {
        lemma_index_row(Instruction::Catch(x), x, Opcode::Catch);
    }
    assert(row(Instruction::Throw(x), x, "throw"@, seq![0x08u8])) by {
        lemma_index_row(Instruction::Throw(x), x, Opcode::Throw);
    }
    assert(row(Instruction::Rethrow(x), x, "rethrow"@, seq![0x09u8])) by {
        lemma_index_row(Instruction::Rethrow(x), x, Opcode::Rethrow);
    }
    assert(row(Instruction::Br(x), x, "br"@, seq![0x0cu8])) by {
        lemma_index_row(Instruction::Br(x), x, Opcode::Br);
    }
    assert(row(Instruction::BrIf(x), x, "br_if"@, seq![0x0du8])) by {
        lemma_index_row(Instruction::BrIf(x), x, Opcode::BrIf);
    }
    assert(row(Instruction::Call(x), x, "call"@, seq![0x10u8])) by {
        lemma_index_row(Instruction::Call(x), x, Opcode::Call);
    }
    assert(row(Instruction::ReturnCall(x), x, "return_call"@, seq![0x12u8])) by {
        lemma_index_row(Instruction::ReturnCall(x), x, Opcode::ReturnCall);
    }
    assert(row(Instruction::CallRef(x), x, "call_ref"@, seq![0x14u8])) by {
        lemma_index_row(Instruction::CallRef(x), x, Opcode::CallRef);
    }
    assert(row(Instruction::ReturnCallRef(x), x, "return_call_ref"@, seq![0x15u8])) by {
        lemma_index_row(Instruction::ReturnCallRef(x), x, Opcode::ReturnCallRef);
    }
    assert(row(Instruction::Delegate(x), x, "delegate"@, seq![0x18u8])) by {
        lemma_index_row(Instruction::Delegate(x), x, Opcode::Delegate);
    }
    assert(row(Instruction::LocalGet(x), x, "local.get"@, seq![0x20u8])) by {
        lemma_index_row(Instruction::LocalGet(x), x, Opcode::LocalGet);
    }
    assert(row(Instruction::LocalSet(x), x, "local.set"@, seq![0x21u8])) by {
        lemma_index_row(Instruction::LocalSet(x), x, Opcode::LocalSet);
    }
    assert(row(Instruction::LocalTee(x), x, "local.tee"@, seq![0x22u8])) by {
        lemma_index_row(Instruction::LocalTee(x), x, Opcode::LocalTee);
    }
    assert(row(Instruction::GlobalGet(x), x, "global.get"@, seq![0x23u8])) by {
        lemma_index_row(Instruction::GlobalGet(x), x, Opcode::GlobalGet);
    }
    assert(row(Instruction::GlobalSet(x), x, "global.set"@, seq![0x24u8])) by {
        lemma_index_row(Instruction::GlobalSet(x), x, Opcode::GlobalSet);
    }
    assert(row(Instruction::RefFunc(x), x, "ref.func"@, seq![0xd2u8])) by {
        lemma_index_row(Instruction::RefFunc(x), x, Opcode::RefFunc);
    }
    assert(row(Instruction::BrOnNull(x), x, "br_on_null"@, seq![0xd5u8])) by {
        lemma_index_row(Instruction::BrOnNull(x), x, Opcode::BrOnNull);
    }
    assert(row(Instruction::BrOnNonNull(x), x, "br_on_non_null"@, seq![0xd6u8])) by {
        lemma_index_row(Instruction::BrOnNonNull(x), x, Opcode::BrOnNonNull);
    }
    assert(row(Instruction::DataDrop(x), x, "data.drop"@, seq![0xfcu8, 0x09])) by {
        lemma_index_row(Instruction::DataDrop(x), x, Opcode::DataDrop);
    }
    assert(row(Instruction::ElemDrop(x), x, "elem.drop"@, seq![0xfcu8, 0x0d])) by {
        lemma_index_row(Instruction::ElemDrop(x), x, Opcode::ElemDrop);
    }
}

/// Instructions whose operand is a table.
pub proof fn law_table_instructions<'a>(x: TableArg<'a>)
    ensures
        row(Instruction::TableGet(x), x, "table.get"@, seq![0x25u8]),
        row(Instruction::TableSet(x), x, "table.set"@, seq![0x26u8]),
        row(Instruction::TableGrow(x), x, "table.grow"@, seq![0xfcu8, 0x0f]),
        row(Instruction::TableSize(x), x, "table.size"@, seq![0xfcu8, 0x10]),
        row(Instruction::TableFill(x), x, "table.fill"@, seq![0xfcu8, 0x11]),
{
    assert(row(Instruction::TableGet(x), x, "table.get"@, seq![0x25u8])) by {
        lemma_table_row(Instruction::TableGet(x), x, Opcode::TableGet);
    }
    assert(row(Instruction::TableSet(x), x, "table.set"@, seq![0x26u8])) by {
        lemma_table_row(Instruction::TableSet(x), x, Opcode::TableSet);
    }
    assert(row(Instruction::TableGrow(x), x, "table.grow"@, seq![0xfcu8, 0x0f])) by {
        lemma_table_row(Instruction::TableGrow(x), x, Opcode::TableGrow);
    }
    assert(row(Instruction::TableSize(x), x, "table.size"@, seq![0xfcu8, 0x10])) by {
        lemma_table_row(Instruction::TableSize(x), x, Opcode::TableSize);
    }
    assert(row(Instruction::TableFill(x), x, "table.fill"@, seq![0xfcu8, 0x11])) by {
        lemma_table_row(Instruction::TableFill(x), x, Opcode::TableFill);
    }
}

/// Instructions whose operand is the type of a block.
pub proof fn law_block_instructions<'a>(x: BlockType<'a>)
    ensures
        row(Instruction::Block(Box::new(x)), x, "block"@, seq![0x02u8]),
        row(Instruction::Loop(Box::new(x)), x, "loop"@, seq![0x03u8]),
        row(Instruction::If(Box::new(x)), x, "if"@, seq![0x04u8]),
        row(Instruction::Try(Box::new(x)), x, "try"@, seq![0x06u8]),
{
    assert(row(Instruction::Block(Box::new(x)), x, "block"@, seq![0x02u8])) by {
        lemma_block_row(Instruction::Block(Box::new(x)), x, Opcode::Block);
    }
    assert(row(Instruction::Loop(Box::new(x)), x, "loop"@, seq![0x03u8])) by {
        lemma_block_row(Instruction::Loop(Box::new(x)), x, Opcode::Loop);
    }
    assert(row(Instruction::If(Box::new(x)), x, "if"@, seq![0x04u8])) by {
        lemma_block_row(Instruction::If(Box::new(x)), x, Opcode::If);
    }
    assert(row(Instruction::Try(Box::new(x)), x, "try"@, seq![0x06u8])) by {
        lemma_block_row(Instruction::Try(Box::new(x)), x, Opcode::Try);
    }
}

/// Instructions whose operand is a memory.
pub proof fn law_memory_instructions<'a>(x: MemoryArg<'a>)
    ensures
        row(Instruction::MemorySize(x), x, "memory.size"@, seq![0x3fu8]),
        row(Instruction::MemoryGrow(x), x, "memory.grow"@, seq![0x40u8]),
        row(Instruction::MemoryFill(x), x, "memory.fill"@, seq![0xfcu8, 0x0b]),
        row(Instruction::MemoryDiscard(x), x, "memory.discard"@, seq![0xfcu8, 0x12]),
{
    assert(row(Instruction::MemorySize(x), x, "memory.size"@, seq![0x3fu8])) by {
        lemma_memory_row(Instruction::MemorySize(x), x, Opcode::MemorySize);
    }
    assert(row(Instruction::MemoryGrow(x), x, "memory.grow"@, seq![0x40u8])) by {
        lemma_memory_row(Instruction::MemoryGrow(x), x, Opcode::MemoryGrow);
    }
    assert(row(Instruction::MemoryFill(x), x, "memory.fill"@, seq![0xfcu8, 0x0b])) by {
        lemma_memory_row(Instruction::MemoryFill(x), x, Opcode::MemoryFill);
    }
    assert(row(Instruction::MemoryDiscard(x), x, "memory.discard"@, seq![0xfcu8, 0x12])) by {
        lemma_memory_row(Instruction::MemoryDiscard(x), x, Opcode::MemoryDiscard);
    }
}

/// Instructions whose operand is a label that leaves nothing in the binary form.
pub proof fn law_optional_id_instructions<'a>(x: Option<Id<'a>>)
    ensures
        row(Instruction::Else(x), x, "else"@, seq![0x05u8]),
        row(Instruction::End(x), x, "end"@, seq![0x0bu8]),
{
    assert(row(Instruction::Else(x), x, "else"@, seq![0x05u8])) by {
        lemma_optional_id_row(Instruction::Else(x), x, Opcode::Else);
    }
    assert(row(Instruction::End(x), x, "end"@, seq![0x0bu8])) by {
        lemma_optional_id_row(Instruction::End(x), x, Opcode::End);
    }
}

/// Calls through a table.
pub proof fn law_call_indirect_instructions<'a>(x: CallIndirect<'a>)
    ensures
        row(Instruction::CallIndirect(Box::new(x)), x, "call_indirect"@, seq![0x11u8]),
        row(Instruction::ReturnCallIndirect(Box::new(x)), x, "return_call_indirect"@, seq![0x13u8]),
{
    assert(row(Instruction::CallIndirect(Box::new(x)), x, "call_indirect"@, seq![0x11u8])) by {
        lemma_call_indirect_row(Instruction::CallIndirect(Box::new(x)), x, Opcode::CallIndirect);
    }
    assert(row(Instruction::ReturnCallIndirect(Box::new(x)), x, "return_call_indirect"@, seq![0x13u8])) by {
        lemma_call_indirect_row(Instruction::ReturnCallIndirect(Box::new(x)), x, Opcode::ReturnCallIndirect);
    }
}

/// Instructions with an operand that no other instruction has.
pub proof fn law_other_instructions<'a>(
    br_table: BrTableIndices<'a>,
    select: SelectTypes<'a>,
    memory_init: MemoryInit<'a>,
    memory_copy: MemoryCopy<'a>,
    table_init: TableInit<'a>,
    table_copy: TableCopy<'a>,
    heap: HeapType<'a>,
    i: i32,
    j: i64,
    f: F32,
    g: F64,
    try_table: TryTable<'a>,
)
    ensures
        row(Instruction::BrTable(br_table), br_table, "br_table"@, seq![0x0eu8]),
        row(Instruction::Select(select), select, "select"@, Seq::<u8>::empty()),
        row(Instruction::MemoryInit(memory_init), memory_init, "memory.init"@, seq![0xfcu8, 0x08]),
        row(Instruction::MemoryCopy(memory_copy), memory_copy, "memory.copy"@, seq![0xfcu8, 0x0a]),
        row(Instruction::TableInit(table_init), table_init, "table.init"@, seq![0xfcu8, 0x0c]),
        row(Instruction::TableCopy(table_copy), table_copy, "table.copy"@, seq![0xfcu8, 0x0e]),
        row(Instruction::RefNull(heap), heap, "ref.null"@, seq![0xd0u8]),
        row(Instruction::I32Const(i), i, "i32.const"@, seq![0x41u8]),
        row(Instruction::I64Const(j), j, "i64.const"@, seq![0x42u8]),
        row(Instruction::F32Const(f), f, "f32.const"@, seq![0x43u8]),
        row(Instruction::F64Const(g), g, "f64.const"@, seq![0x44u8]),
        row(Instruction::TryTable(try_table), try_table, "try_table"@, seq![0x1fu8]),
{
    assert(row(Instruction::BrTable(br_table), br_table, "br_table"@, seq![0x0eu8])) by {
        lemma_br_table_row(Instruction::BrTable(br_table), br_table, Opcode::BrTable);
    }
    assert(row(Instruction::Select(select), select, "select"@, Seq::<u8>::empty())) by {
        lemma_select_row(Instruction::Select(select), select, Opcode::Select);
    }
    assert(row(Instruction::MemoryInit(memory_init), memory_init, "memory.init"@, seq![0xfcu8, 0x08])) by {
        lemma_memory_init_row(Instruction::MemoryInit(memory_init), memory_init, Opcode::MemoryInit);
    }
    assert(row(Instruction::MemoryCopy(memory_copy), memory_copy, "memory.copy"@, seq![0xfcu8, 0x0a])) by {
        lemma_memory_copy_row(Instruction::MemoryCopy(memory_copy), memory_copy, Opcode::MemoryCopy);
    }
    assert(row(Instruction::TableInit(table_init), table_init, "table.init"@, seq![0xfcu8, 0x0c])) by {
        lemma_table_init_row(Instruction::TableInit(table_init), table_init, Opcode::TableInit);
    }
    assert(row(Instruction::TableCopy(table_copy), table_copy, "table.copy"@, seq![0xfcu8, 0x0e])) by {
        lemma_table_copy_row(Instruction::TableCopy(table_copy), table_copy, Opcode::TableCopy);
    }
    assert(row(Instruction::RefNull(heap), heap, "ref.null"@, seq![0xd0u8])) by {
        lemma_heap_row(Instruction::RefNull(heap), heap, Opcode::RefNull);
    }
    assert(row(Instruction::I32Const(i), i, "i32.const"@, seq![0x41u8])) by {
        lemma_i32_row(Instruction::I32Const(i), i, Opcode::I32Const);
    }
    assert(row(Instruction::I64Const(j), j, "i64.const"@, seq![0x42u8])) by {
        lemma_i64_row(Instruction::I64Const(j), j, Opcode::I64Const);
    }
    assert(row(Instruction::F32Const(f), f, "f32.const"@, seq![0x43u8])) by {
        lemma_f32_row(Instruction::F32Const(f), f, Opcode::F32Const);
    }
    assert(row(Instruction::F64Const(g), g, "f64.const"@, seq![0x44u8])) by {
        lemma_f64_row(Instruction::F64Const(g), g, Opcode::F64Const);
    }
    assert(row(Instruction::TryTable(try_table), try_table, "try_table"@, seq![0x1fu8])) by {
        lemma_try_table_row(Instruction::TryTable(try_table), try_table, Opcode::TryTable);
    }
}

/// Instructions that access a memory have consecutive codes from 0x28 on. Without an
/// alignment of its own, an access is aligned to the number of bytes it accesses.
pub proof fn law_memory_accesses<'a>(x: MemArg<'a>)
    ensures
        memory_row(MemoryInstruction::I32Load(x), x, "i32.load"@, 0x28, 4),
        memory_row(MemoryInstruction::I64Load(x), x, "i64.load"@, 0x29, 8),
        memory_row(MemoryInstruction::F32Load(x), x, "f32.load"@, 0x2a, 4),
        memory_row(MemoryInstruction::F64Load(x), x, "f64.load"@, 0x2b, 8),
        memory_row(MemoryInstruction::I32Load8s(x), x, "i32.load8_s"@, 0x2c, 1),
        memory_row(MemoryInstruction::I32Load8u(x), x, "i32.load8_u"@, 0x2d, 1),
        memory_row(MemoryInstruction::I32Load16s(x), x, "i32.load16_s"@, 0x2e, 2),
        memory_row(MemoryInstruction::I32Load16u(x), x, "i32.load16_u"@, 0x2f, 2),
        memory_row(MemoryInstruction::I64Load8s(x), x, "i64.load8_s"@, 0x30, 1),
        memory_row(MemoryInstruction::I64Load8u(x), x, "i64.load8_u"@, 0x31, 1),
        memory_row(MemoryInstruction::I64Load16s(x), x, "i64.load16_s"@, 0x32, 2),
        memory_row(MemoryInstruction::I64Load16u(x), x, "i64.load16_u"@, 0x33, 2),
        memory_row(MemoryInstruction::I64Load32s(x), x, "i64.load32_s"@, 0x34, 4),
        memory_row(MemoryInstruction::I64Load32u(x), x, "i64.load32_u"@, 0x35, 4),
        memory_row(MemoryInstruction::I32Store(x), x, "i32.store"@, 0x36, 4),
        memory_row(MemoryInstruction::I64Store(x), x, "i64.store"@, 0x37, 8),
        memory_row(MemoryInstruction::F32Store(x), x, "f32.store"@, 0x38, 4),
        memory_row(MemoryInstruction::F64Store(x), x, "f64.store"@, 0x39, 8),
        memory_row(MemoryInstruction::I32Store8(x), x, "i32.store8"@, 0x3a, 1),
        memory_row(MemoryInstruction::I32Store16(x), x, "i32.store16"@, 0x3b, 2),
        memory_row(MemoryInstruction::I64Store8(x), x, "i64.store8"@, 0x3c, 1),
        memory_row(MemoryInstruction::I64Store16(x), x, "i64.store16"@, 0x3d, 2),
        memory_row(MemoryInstruction::I64Store32(x), x, "i64.store32"@, 0x3e, 4),
{
    assert(memory_row(MemoryInstruction::I32Load(x), x, "i32.load"@, 0x28, 4)) by {
        lemma_memory_access_row(MemoryInstruction::I32Load(x), x, MemoryOpcode::I32Load);
    }
    assert(memory_row(MemoryInstruction::I64Load(x), x, "i64.load"@, 0x29, 8)) by {
        lemma_memory_access_row(MemoryInstruction::I64Load(x), x, MemoryOpcode::I64Load);
    }
    assert(memory_row(MemoryInstruction::F32Load(x), x, "f32.load"@, 0x2a, 4)) by {
        lemma_memory_access_row(MemoryInstruction::F32Load(x), x, MemoryOpcode::F32Load);
    }
    assert(memory_row(MemoryInstruction::F64Load(x), x, "f64.load"@, 0x2b, 8)) by {
        lemma_memory_access_row(MemoryInstruction::F64Load(x), x, MemoryOpcode::F64Load);
    }
    assert(memory_row(MemoryInstruction::I32Load8s(x), x, "i32.load8_s"@, 0x2c, 1)) by {
        lemma_memory_access_row(MemoryInstruction::I32Load8s(x), x, MemoryOpcode::I32Load8s);
    }
    assert(memory_row(MemoryInstruction::I32Load8u(x), x, "i32.load8_u"@, 0x2d, 1)) by {
        lemma_memory_access_row(MemoryInstruction::I32Load8u(x), x, MemoryOpcode::I32Load8u);
    }
    assert(memory_row(MemoryInstruction::I32Load16s(x), x, "i32.load16_s"@, 0x2e, 2)) by {
        lemma_memory_access_row(MemoryInstruction::I32Load16s(x), x, MemoryOpcode::I32Load16s);
    }
    assert(memory_row(MemoryInstruction::I32Load16u(x), x, "i32.load16_u"@, 0x2f, 2)) by {
        lemma_memory_access_row(MemoryInstruction::I32Load16u(x), x, MemoryOpcode::I32Load16u);
    }
    assert(memory_row(MemoryInstruction::I64Load8s(x), x, "i64.load8_s"@, 0x30, 1)) by {
        lemma_memory_access_row(MemoryInstruction::I64Load8s(x), x, MemoryOpcode::I64Load8s);
    }
    assert(memory_row(MemoryInstruction::I64Load8u(x), x, "i64.load8_u"@, 0x31, 1)) by {
        lemma_memory_access_row(MemoryInstruction::I64Load8u(x), x, MemoryOpcode::I64Load8u);
    }
    assert(memory_row(MemoryInstruction::I64Load16s(x), x, "i64.load16_s"@, 0x32, 2)) by {
        lemma_memory_access_row(MemoryInstruction::I64Load16s(x), x, MemoryOpcode::I64Load16s);
    }
    assert(memory_row(MemoryInstruction::I64Load16u(x), x, "i64.load16_u"@, 0x33, 2)) by {
        lemma_memory_access_row(MemoryInstruction::I64Load16u(x), x, MemoryOpcode::I64Load16u);
    }
    assert(memory_row(MemoryInstruction::I64Load32s(x), x, "i64.load32_s"@, 0x34, 4)) by {
        lemma_memory_access_row(MemoryInstruction::I64Load32s(x), x, MemoryOpcode::I64Load32s);
    }
    assert(memory_row(MemoryInstruction::I64Load32u(x), x, "i64.load32_u"@, 0x35, 4)) by {
        lemma_memory_access_row(MemoryInstruction::I64Load32u(x), x, MemoryOpcode::I64Load32u);
    }
    assert(memory_row(MemoryInstruction::I32Store(x), x, "i32.store"@, 0x36, 4)) by {
        lemma_memory_access_row(MemoryInstruction::I32Store(x), x, MemoryOpcode::I32Store);
    }
    assert(memory_row(MemoryInstruction::I64Store(x), x, "i64.store"@, 0x37, 8)) by {
        lemma_memory_access_row(MemoryInstruction::I64Store(x), x, MemoryOpcode::I64Store);
    }
    assert(memory_row(MemoryInstruction::F32Store(x), x, "f32.store"@, 0x38, 4)) by {
        lemma_memory_access_row(MemoryInstruction::F32Store(x), x, MemoryOpcode::F32Store);
    }
    assert(memory_row(MemoryInstruction::F64Store(x), x, "f64.store"@, 0x39, 8)) by {
        lemma_memory_access_row(MemoryInstruction::F64Store(x), x, MemoryOpcode::F64Store);
    }
    assert(memory_row(MemoryInstruction::I32Store8(x), x, "i32.store8"@, 0x3a, 1)) by {
        lemma_memory_access_row(MemoryInstruction::I32Store8(x), x, MemoryOpcode::I32Store8);
    }
    assert(memory_row(MemoryInstruction::I32Store16(x), x, "i32.store16"@, 0x3b, 2)) by {
        lemma_memory_access_row(MemoryInstruction::I32Store16(x), x, MemoryOpcode::I32Store16);
    }
    assert(memory_row(MemoryInstruction::I64Store8(x), x, "i64.store8"@, 0x3c, 1)) by {
        lemma_memory_access_row(MemoryInstruction::I64Store8(x), x, MemoryOpcode::I64Store8);
    }
    assert(memory_row(MemoryInstruction::I64Store16(x), x, "i64.store16"@, 0x3d, 2)) by {
        lemma_memory_access_row(MemoryInstruction::I64Store16(x), x, MemoryOpcode::I64Store16);
    }
    assert(memory_row(MemoryInstruction::I64Store32(x), x, "i64.store32"@, 0x3e, 4)) by {
        lemma_memory_access_row(MemoryInstruction::I64Store32(x), x, MemoryOpcode::I64Store32);
    }
}

} // verus!
