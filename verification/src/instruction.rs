//! The instructions that access no memory, and how they are parsed and encoded.

use vstd::prelude::*;

use crate::control::{
    BlockType, BlockTypeAst, BrTableIndices, BrTableIndicesAst, CallIndirect, CallIndirectAst,
    SelectTypes, TryTable, TryTableAst,
};
use crate::encode::{select_encodable, select_encoded, Encode};
use crate::memory::{
    MemArg, MemoryArg, MemoryCopy, MemoryInit, TableArg, TableCopy, TableInit,
};
use crate::opcode::{Encoding, Opcode, OperandKind};
use crate::parser::{Cursor, Input, Parse, Parsed, Parser};
use crate::token::{Error, Id, Index, TokenKind, F32, F64};
use crate::types::{HeapType, LabeledValType};

verus! {

/// A listing of all WebAssembly instructions that can be in a module that this
/// crate currently parses, but for those that access a memory.
#[derive(Debug, Clone)]
pub enum Instruction<'a> {
    Block(Box<BlockType<'a>>),
    If(Box<BlockType<'a>>),
    Else(Option<Id<'a>>),
    Loop(Box<BlockType<'a>>),
    End(Option<Id<'a>>),
    Unreachable,
    Nop,
    Br(Index<'a>),
    BrIf(Index<'a>),
    BrTable(BrTableIndices<'a>),
    Return,
    Call(Index<'a>),
    CallIndirect(Box<CallIndirect<'a>>),
    ReturnCall(Index<'a>),
    ReturnCallIndirect(Box<CallIndirect<'a>>),
    CallRef(Index<'a>),
    ReturnCallRef(Index<'a>),
    Drop,
    Select(SelectTypes<'a>),
    LocalGet(Index<'a>),
    LocalSet(Index<'a>),
    LocalTee(Index<'a>),
    GlobalGet(Index<'a>),
    GlobalSet(Index<'a>),
    TableGet(TableArg<'a>),
    TableSet(TableArg<'a>),
    MemorySize(MemoryArg<'a>),
    MemoryGrow(MemoryArg<'a>),
    MemoryInit(MemoryInit<'a>),
    MemoryCopy(MemoryCopy<'a>),
    MemoryFill(MemoryArg<'a>),
    MemoryDiscard(MemoryArg<'a>),
    DataDrop(Index<'a>),
    ElemDrop(Index<'a>),
    TableInit(TableInit<'a>),
    TableCopy(TableCopy<'a>),
    TableFill(TableArg<'a>),
    TableSize(TableArg<'a>),
    TableGrow(TableArg<'a>),
    RefNull(HeapType<'a>),
    RefIsNull,
    RefFunc(Index<'a>),
    RefAsNonNull,
    BrOnNull(Index<'a>),
    BrOnNonNull(Index<'a>),
    I32Const(i32),
    I64Const(i64),
    F32Const(F32),
    F64Const(F64),
    I32Clz,
    I32Ctz,
    I32Popcnt,
    I32Add,
    I32Sub,
    I32Mul,
    I32DivS,
    I32DivU,
    I32RemS,
    I32RemU,
    I32And,
    I32Or,
    I32Xor,
    I32Shl,
    I32ShrS,
    I32ShrU,
    I32Rotl,
    I32Rotr,
    I64Clz,
    I64Ctz,
    I64Popcnt,
    I64Add,
    I64Sub,
    I64Mul,
    I64DivS,
    I64DivU,
    I64RemS,
    I64RemU,
    I64And,
    I64Or,
    I64Xor,
    I64Shl,
    I64ShrS,
    I64ShrU,
    I64Rotl,
    I64Rotr,
    F32Abs,
    F32Neg,
    F32Ceil,
    F32Floor,
    F32Trunc,
    F32Nearest,
    F32Sqrt,
    F32Add,
    F32Sub,
    F32Mul,
    F32Div,
    F32Min,
    F32Max,
    F32Copysign,
    F64Abs,
    F64Neg,
    F64Ceil,
    F64Floor,
    F64Trunc,
    F64Nearest,
    F64Sqrt,
    F64Add,
    F64Sub,
    F64Mul,
    F64Div,
    F64Min,
    F64Max,
    F64Copysign,
    I32Eqz,
    I32Eq,
    I32Ne,
    I32LtS,
    I32LtU,
    I32GtS,
    I32GtU,
    I32LeS,
    I32LeU,
    I32GeS,
    I32GeU,
    I64Eqz,
    I64Eq,
    I64Ne,
    I64LtS,
    I64LtU,
    I64GtS,
    I64GtU,
    I64LeS,
    I64LeU,
    I64GeS,
    I64GeU,
    F32Eq,
    F32Ne,
    F32Lt,
    F32Gt,
    F32Le,
    F32Ge,
    F64Eq,
    F64Ne,
    F64Lt,
    F64Gt,
    F64Le,
    F64Ge,
    I32WrapI64,
    I32TruncF32S,
    I32TruncF32U,
    I32TruncF64S,
    I32TruncF64U,
    I64ExtendI32S,
    I64ExtendI32U,
    I64TruncF32S,
    I64TruncF32U,
    I64TruncF64S,
    I64TruncF64U,
    F32ConvertI32S,
    F32ConvertI32U,
    F32ConvertI64S,
    F32ConvertI64U,
    F32DemoteF64,
    F64ConvertI32S,
    F64ConvertI32U,
    F64ConvertI64S,
    F64ConvertI64U,
    F64PromoteF32,
    I32ReinterpretF32,
    I64ReinterpretF64,
    F32ReinterpretI32,
    F64ReinterpretI64,
    I32TruncSatF32S,
    I32TruncSatF32U,
    I32TruncSatF64S,
    I32TruncSatF64U,
    I64TruncSatF32S,
    I64TruncSatF32U,
    I64TruncSatF64S,
    I64TruncSatF64U,
    I32Extend8S,
    I32Extend16S,
    I64Extend8S,
    I64Extend16S,
    I64Extend32S,
    ThrowRef,
    TryTable(TryTable<'a>),
    Throw(Index<'a>),
    Try(Box<BlockType<'a>>),
    Catch(Index<'a>),
    Rethrow(Index<'a>),
    Delegate(Index<'a>),
    CatchAll,
}

/// The operand of an instruction.
pub enum Operand<'a> {
    Nothing,
    Index(Index<'a>),
    Table(TableArg<'a>),
    Block(BlockTypeAst<'a>),
    Memory(MemoryArg<'a>),
    OptionalId(Option<Id<'a>>),
    CallIndirect(CallIndirectAst<'a>),
    BrTable(BrTableIndicesAst<'a>),
    Select(Option<Seq<LabeledValType<'a>>>),
    MemoryInit(MemoryInit<'a>),
    MemoryCopy(MemoryCopy<'a>),
    TableInit(TableInit<'a>),
    TableCopy(TableCopy<'a>),
    Heap(HeapType<'a>),
    I32(i32),
    I64(i64),
    F32(F32),
    F64(F64),
    TryTable(TryTableAst<'a>),
}

/// The parts of an [`Instruction`].
pub struct InstructionAst<'a> {
    pub op: Opcode,
    pub operand: Operand<'a>,
}

impl<'a> View for Instruction<'a> {
    type V = InstructionAst<'a>;

    open spec fn view(&self) -> InstructionAst<'a> {
        InstructionAst { op: self.op(), operand: self.operand() }
    }
}

impl<'a> Instruction<'a> {
    /// Which instruction this is.
    pub open spec fn op(&self) -> Opcode {
        match self {
            Instruction::Block(_) => Opcode::Block,
            Instruction::If(_) => Opcode::If,
            Instruction::Else(_) => Opcode::Else,
            Instruction::Loop(_) => Opcode::Loop,
            Instruction::End(_) => Opcode::End,
            Instruction::Unreachable => Opcode::Unreachable,
            Instruction::Nop => Opcode::Nop,
            Instruction::Br(_) => Opcode::Br,
            Instruction::BrIf(_) => Opcode::BrIf,
            Instruction::BrTable(_) => Opcode::BrTable,
            Instruction::Return => Opcode::Return,
            Instruction::Call(_) => Opcode::Call,
            Instruction::CallIndirect(_) => Opcode::CallIndirect,
            Instruction::ReturnCall(_) => Opcode::ReturnCall,
            Instruction::ReturnCallIndirect(_) => Opcode::ReturnCallIndirect,
            Instruction::CallRef(_) => Opcode::CallRef,
            Instruction::ReturnCallRef(_) => Opcode::ReturnCallRef,
            Instruction::Drop => Opcode::Drop,
            Instruction::Select(_) => Opcode::Select,
            Instruction::LocalGet(_) => Opcode::LocalGet,
            Instruction::LocalSet(_) => Opcode::LocalSet,
            Instruction::LocalTee(_) => Opcode::LocalTee,
            Instruction::GlobalGet(_) => Opcode::GlobalGet,
            Instruction::GlobalSet(_) => Opcode::GlobalSet,
            Instruction::TableGet(_) => Opcode::TableGet,
            Instruction::TableSet(_) => Opcode::TableSet,
            Instruction::MemorySize(_) => Opcode::MemorySize,
            Instruction::MemoryGrow(_) => Opcode::MemoryGrow,
            Instruction::MemoryInit(_) => Opcode::MemoryInit,
            Instruction::MemoryCopy(_) => Opcode::MemoryCopy,
            Instruction::MemoryFill(_) => Opcode::MemoryFill,
            Instruction::MemoryDiscard(_) => Opcode::MemoryDiscard,
            Instruction::DataDrop(_) => Opcode::DataDrop,
            Instruction::ElemDrop(_) => Opcode::ElemDrop,
            Instruction::TableInit(_) => Opcode::TableInit,
            Instruction::TableCopy(_) => Opcode::TableCopy,
            Instruction::TableFill(_) => Opcode::TableFill,
            Instruction::TableSize(_) => Opcode::TableSize,
            Instruction::TableGrow(_) => Opcode::TableGrow,
            Instruction::RefNull(_) => Opcode::RefNull,
            Instruction::RefIsNull => Opcode::RefIsNull,
            Instruction::RefFunc(_) => Opcode::RefFunc,
            Instruction::RefAsNonNull => Opcode::RefAsNonNull,
            Instruction::BrOnNull(_) => Opcode::BrOnNull,
            Instruction::BrOnNonNull(_) => Opcode::BrOnNonNull,
            Instruction::I32Const(_) => Opcode::I32Const,
            Instruction::I64Const(_) => Opcode::I64Const,
            Instruction::F32Const(_) => Opcode::F32Const,
            Instruction::F64Const(_) => Opcode::F64Const,
            Instruction::I32Clz => Opcode::I32Clz,
            Instruction::I32Ctz => Opcode::I32Ctz,
            Instruction::I32Popcnt => Opcode::I32Popcnt,
            Instruction::I32Add => Opcode::I32Add,
            Instruction::I32Sub => Opcode::I32Sub,
            Instruction::I32Mul => Opcode::I32Mul,
            Instruction::I32DivS => Opcode::I32DivS,
            Instruction::I32DivU => Opcode::I32DivU,
            Instruction::I32RemS => Opcode::I32RemS,
            Instruction::I32RemU => Opcode::I32RemU,
            Instruction::I32And => Opcode::I32And,
            Instruction::I32Or => Opcode::I32Or,
            Instruction::I32Xor => Opcode::I32Xor,
            Instruction::I32Shl => Opcode::I32Shl,
            Instruction::I32ShrS => Opcode::I32ShrS,
            Instruction::I32ShrU => Opcode::I32ShrU,
            Instruction::I32Rotl => Opcode::I32Rotl,
            Instruction::I32Rotr => Opcode::I32Rotr,
            Instruction::I64Clz => Opcode::I64Clz,
            Instruction::I64Ctz => Opcode::I64Ctz,
            Instruction::I64Popcnt => Opcode::I64Popcnt,
            Instruction::I64Add => Opcode::I64Add,
            Instruction::I64Sub => Opcode::I64Sub,
            Instruction::I64Mul => Opcode::I64Mul,
            Instruction::I64DivS => Opcode::I64DivS,
            Instruction::I64DivU => Opcode::I64DivU,
            Instruction::I64RemS => Opcode::I64RemS,
            Instruction::I64RemU => Opcode::I64RemU,
            Instruction::I64And => Opcode::I64And,
            Instruction::I64Or => Opcode::I64Or,
            Instruction::I64Xor => Opcode::I64Xor,
            Instruction::I64Shl => Opcode::I64Shl,
            Instruction::I64ShrS => Opcode::I64ShrS,
            Instruction::I64ShrU => Opcode::I64ShrU,
            Instruction::I64Rotl => Opcode::I64Rotl,
            Instruction::I64Rotr => Opcode::I64Rotr,
            Instruction::F32Abs => Opcode::F32Abs,
            Instruction::F32Neg => Opcode::F32Neg,
            Instruction::F32Ceil => Opcode::F32Ceil,
            Instruction::F32Floor => Opcode::F32Floor,
            Instruction::F32Trunc => Opcode::F32Trunc,
            Instruction::F32Nearest => Opcode::F32Nearest,
            Instruction::F32Sqrt => Opcode::F32Sqrt,
            Instruction::F32Add => Opcode::F32Add,
            Instruction::F32Sub => Opcode::F32Sub,
            Instruction::F32Mul => Opcode::F32Mul,
            Instruction::F32Div => Opcode::F32Div,
            Instruction::F32Min => Opcode::F32Min,
            Instruction::F32Max => Opcode::F32Max,
            Instruction::F32Copysign => Opcode::F32Copysign,
            Instruction::F64Abs => Opcode::F64Abs,
            Instruction::F64Neg => Opcode::F64Neg,
            Instruction::F64Ceil => Opcode::F64Ceil,
            Instruction::F64Floor => Opcode::F64Floor,
            Instruction::F64Trunc => Opcode::F64Trunc,
            Instruction::F64Nearest => Opcode::F64Nearest,
            Instruction::F64Sqrt => Opcode::F64Sqrt,
            Instruction::F64Add => Opcode::F64Add,
            Instruction::F64Sub => Opcode::F64Sub,
            Instruction::F64Mul => Opcode::F64Mul,
            Instruction::F64Div => Opcode::F64Div,
            Instruction::F64Min => Opcode::F64Min,
            Instruction::F64Max => Opcode::F64Max,
            Instruction::F64Copysign => Opcode::F64Copysign,
            Instruction::I32Eqz => Opcode::I32Eqz,
            Instruction::I32Eq => Opcode::I32Eq,
            Instruction::I32Ne => Opcode::I32Ne,
            Instruction::I32LtS => Opcode::I32LtS,
            Instruction::I32LtU => Opcode::I32LtU,
            Instruction::I32GtS => Opcode::I32GtS,
            Instruction::I32GtU => Opcode::I32GtU,
            Instruction::I32LeS => Opcode::I32LeS,
            Instruction::I32LeU => Opcode::I32LeU,
            Instruction::I32GeS => Opcode::I32GeS,
            Instruction::I32GeU => Opcode::I32GeU,
            Instruction::I64Eqz => Opcode::I64Eqz,
            Instruction::I64Eq => Opcode::I64Eq,
            Instruction::I64Ne => Opcode::I64Ne,
            Instruction::I64LtS => Opcode::I64LtS,
            Instruction::I64LtU => Opcode::I64LtU,
            Instruction::I64GtS => Opcode::I64GtS,
            Instruction::I64GtU => Opcode::I64GtU,
            Instruction::I64LeS => Opcode::I64LeS,
            Instruction::I64LeU => Opcode::I64LeU,
            Instruction::I64GeS => Opcode::I64GeS,
            Instruction::I64GeU => Opcode::I64GeU,
            Instruction::F32Eq => Opcode::F32Eq,
            Instruction::F32Ne => Opcode::F32Ne,
            Instruction::F32Lt => Opcode::F32Lt,
            Instruction::F32Gt => Opcode::F32Gt,
            Instruction::F32Le => Opcode::F32Le,
            Instruction::F32Ge => Opcode::F32Ge,
            Instruction::F64Eq => Opcode::F64Eq,
            Instruction::F64Ne => Opcode::F64Ne,
            Instruction::F64Lt => Opcode::F64Lt,
            Instruction::F64Gt => Opcode::F64Gt,
            Instruction::F64Le => Opcode::F64Le,
            Instruction::F64Ge => Opcode::F64Ge,
            Instruction::I32WrapI64 => Opcode::I32WrapI64,
            Instruction::I32TruncF32S => Opcode::I32TruncF32S,
            Instruction::I32TruncF32U => Opcode::I32TruncF32U,
            Instruction::I32TruncF64S => Opcode::I32TruncF64S,
            Instruction::I32TruncF64U => Opcode::I32TruncF64U,
            Instruction::I64ExtendI32S => Opcode::I64ExtendI32S,
            Instruction::I64ExtendI32U => Opcode::I64ExtendI32U,
            Instruction::I64TruncF32S => Opcode::I64TruncF32S,
            Instruction::I64TruncF32U => Opcode::I64TruncF32U,
            Instruction::I64TruncF64S => Opcode::I64TruncF64S,
            Instruction::I64TruncF64U => Opcode::I64TruncF64U,
            Instruction::F32ConvertI32S => Opcode::F32ConvertI32S,
            Instruction::F32ConvertI32U => Opcode::F32ConvertI32U,
            Instruction::F32ConvertI64S => Opcode::F32ConvertI64S,
            Instruction::F32ConvertI64U => Opcode::F32ConvertI64U,
            Instruction::F32DemoteF64 => Opcode::F32DemoteF64,
            Instruction::F64ConvertI32S => Opcode::F64ConvertI32S,
            Instruction::F64ConvertI32U => Opcode::F64ConvertI32U,
            Instruction::F64ConvertI64S => Opcode::F64ConvertI64S,
            Instruction::F64ConvertI64U => Opcode::F64ConvertI64U,
            Instruction::F64PromoteF32 => Opcode::F64PromoteF32,
            Instruction::I32ReinterpretF32 => Opcode::I32ReinterpretF32,
            Instruction::I64ReinterpretF64 => Opcode::I64ReinterpretF64,
            Instruction::F32ReinterpretI32 => Opcode::F32ReinterpretI32,
            Instruction::F64ReinterpretI64 => Opcode::F64ReinterpretI64,
            Instruction::I32TruncSatF32S => Opcode::I32TruncSatF32S,
            Instruction::I32TruncSatF32U => Opcode::I32TruncSatF32U,
            Instruction::I32TruncSatF64S => Opcode::I32TruncSatF64S,
            Instruction::I32TruncSatF64U => Opcode::I32TruncSatF64U,
            Instruction::I64TruncSatF32S => Opcode::I64TruncSatF32S,
            Instruction::I64TruncSatF32U => Opcode::I64TruncSatF32U,
            Instruction::I64TruncSatF64S => Opcode::I64TruncSatF64S,
            Instruction::I64TruncSatF64U => Opcode::I64TruncSatF64U,
            Instruction::I32Extend8S => Opcode::I32Extend8S,
            Instruction::I32Extend16S => Opcode::I32Extend16S,
            Instruction::I64Extend8S => Opcode::I64Extend8S,
            Instruction::I64Extend16S => Opcode::I64Extend16S,
            Instruction::I64Extend32S => Opcode::I64Extend32S,
            Instruction::ThrowRef => Opcode::ThrowRef,
            Instruction::TryTable(_) => Opcode::TryTable,
            Instruction::Throw(_) => Opcode::Throw,
            Instruction::Try(_) => Opcode::Try,
            Instruction::Catch(_) => Opcode::Catch,
            Instruction::Rethrow(_) => Opcode::Rethrow,
            Instruction::Delegate(_) => Opcode::Delegate,
            Instruction::CatchAll => Opcode::CatchAll,
        }
    }

    /// The operand.
    pub open spec fn operand(&self) -> Operand<'a> {
        match self {
            Instruction::Block(x) => Operand::Block((**x)@),
            Instruction::If(x) => Operand::Block((**x)@),
            Instruction::Else(x) => Operand::OptionalId(*x),
            Instruction::Loop(x) => Operand::Block((**x)@),
            Instruction::End(x) => Operand::OptionalId(*x),
            Instruction::Br(x) => Operand::Index(*x),
            Instruction::BrIf(x) => Operand::Index(*x),
            Instruction::BrTable(x) => Operand::BrTable(x@),
            Instruction::Call(x) => Operand::Index(*x),
            Instruction::CallIndirect(x) => Operand::CallIndirect((**x)@),
            Instruction::ReturnCall(x) => Operand::Index(*x),
            Instruction::ReturnCallIndirect(x) => Operand::CallIndirect((**x)@),
            Instruction::CallRef(x) => Operand::Index(*x),
            Instruction::ReturnCallRef(x) => Operand::Index(*x),
            Instruction::Select(x) => Operand::Select(x@),
            Instruction::LocalGet(x) => Operand::Index(*x),
            Instruction::LocalSet(x) => Operand::Index(*x),
            Instruction::LocalTee(x) => Operand::Index(*x),
            Instruction::GlobalGet(x) => Operand::Index(*x),
            Instruction::GlobalSet(x) => Operand::Index(*x),
            Instruction::TableGet(x) => Operand::Table(*x),
            Instruction::TableSet(x) => Operand::Table(*x),
            Instruction::MemorySize(x) => Operand::Memory(*x),
            Instruction::MemoryGrow(x) => Operand::Memory(*x),
            Instruction::MemoryInit(x) => Operand::MemoryInit(*x),
            Instruction::MemoryCopy(x) => Operand::MemoryCopy(*x),
            Instruction::MemoryFill(x) => Operand::Memory(*x),
            Instruction::MemoryDiscard(x) => Operand::Memory(*x),
            Instruction::DataDrop(x) => Operand::Index(*x),
            Instruction::ElemDrop(x) => Operand::Index(*x),
            Instruction::TableInit(x) => Operand::TableInit(*x),
            Instruction::TableCopy(x) => Operand::TableCopy(*x),
            Instruction::TableFill(x) => Operand::Table(*x),
            Instruction::TableSize(x) => Operand::Table(*x),
            Instruction::TableGrow(x) => Operand::Table(*x),
            Instruction::RefNull(x) => Operand::Heap(*x),
            Instruction::RefFunc(x) => Operand::Index(*x),
            Instruction::BrOnNull(x) => Operand::Index(*x),
            Instruction::BrOnNonNull(x) => Operand::Index(*x),
            Instruction::I32Const(x) => Operand::I32(*x),
            Instruction::I64Const(x) => Operand::I64(*x),
            Instruction::F32Const(x) => Operand::F32(*x),
            Instruction::F64Const(x) => Operand::F64(*x),
            Instruction::TryTable(x) => Operand::TryTable(x@),
            Instruction::Throw(x) => Operand::Index(*x),
            Instruction::Try(x) => Operand::Block((**x)@),
            Instruction::Catch(x) => Operand::Index(*x),
            Instruction::Rethrow(x) => Operand::Index(*x),
            Instruction::Delegate(x) => Operand::Index(*x),
            _ => Operand::Nothing,
        }
    }

    /// Tells which instruction this is.
    pub fn opcode(&self) -> (op: Opcode)
        ensures
            op == self@.op,
    {
        match self {
            Instruction::Block(_) => Opcode::Block,
            Instruction::If(_) => Opcode::If,
            Instruction::Else(_) => Opcode::Else,
            Instruction::Loop(_) => Opcode::Loop,
            Instruction::End(_) => Opcode::End,
            Instruction::Unreachable => Opcode::Unreachable,
            Instruction::Nop => Opcode::Nop,
            Instruction::Br(_) => Opcode::Br,
            Instruction::BrIf(_) => Opcode::BrIf,
            Instruction::BrTable(_) => Opcode::BrTable,
            Instruction::Return => Opcode::Return,
            Instruction::Call(_) => Opcode::Call,
            Instruction::CallIndirect(_) => Opcode::CallIndirect,
            Instruction::ReturnCall(_) => Opcode::ReturnCall,
            Instruction::ReturnCallIndirect(_) => Opcode::ReturnCallIndirect,
            Instruction::CallRef(_) => Opcode::CallRef,
            Instruction::ReturnCallRef(_) => Opcode::ReturnCallRef,
            Instruction::Drop => Opcode::Drop,
            Instruction::Select(_) => Opcode::Select,
            Instruction::LocalGet(_) => Opcode::LocalGet,
            Instruction::LocalSet(_) => Opcode::LocalSet,
            Instruction::LocalTee(_) => Opcode::LocalTee,
            Instruction::GlobalGet(_) => Opcode::GlobalGet,
            Instruction::GlobalSet(_) => Opcode::GlobalSet,
            Instruction::TableGet(_) => Opcode::TableGet,
            Instruction::TableSet(_) => Opcode::TableSet,
            Instruction::MemorySize(_) => Opcode::MemorySize,
            Instruction::MemoryGrow(_) => Opcode::MemoryGrow,
            Instruction::MemoryInit(_) => Opcode::MemoryInit,
            Instruction::MemoryCopy(_) => Opcode::MemoryCopy,
            Instruction::MemoryFill(_) => Opcode::MemoryFill,
            Instruction::MemoryDiscard(_) => Opcode::MemoryDiscard,
            Instruction::DataDrop(_) => Opcode::DataDrop,
            Instruction::ElemDrop(_) => Opcode::ElemDrop,
            Instruction::TableInit(_) => Opcode::TableInit,
            Instruction::TableCopy(_) => Opcode::TableCopy,
            Instruction::TableFill(_) => Opcode::TableFill,
            Instruction::TableSize(_) => Opcode::TableSize,
            Instruction::TableGrow(_) => Opcode::TableGrow,
            Instruction::RefNull(_) => Opcode::RefNull,
            Instruction::RefIsNull => Opcode::RefIsNull,
            Instruction::RefFunc(_) => Opcode::RefFunc,
            Instruction::RefAsNonNull => Opcode::RefAsNonNull,
            Instruction::BrOnNull(_) => Opcode::BrOnNull,
            Instruction::BrOnNonNull(_) => Opcode::BrOnNonNull,
            Instruction::I32Const(_) => Opcode::I32Const,
            Instruction::I64Const(_) => Opcode::I64Const,
            Instruction::F32Const(_) => Opcode::F32Const,
            Instruction::F64Const(_) => Opcode::F64Const,
            Instruction::I32Clz => Opcode::I32Clz,
            Instruction::I32Ctz => Opcode::I32Ctz,
            Instruction::I32Popcnt => Opcode::I32Popcnt,
            Instruction::I32Add => Opcode::I32Add,
            Instruction::I32Sub => Opcode::I32Sub,
            Instruction::I32Mul => Opcode::I32Mul,
            Instruction::I32DivS => Opcode::I32DivS,
            Instruction::I32DivU => Opcode::I32DivU,
            Instruction::I32RemS => Opcode::I32RemS,
            Instruction::I32RemU => Opcode::I32RemU,
            Instruction::I32And => Opcode::I32And,
            Instruction::I32Or => Opcode::I32Or,
            Instruction::I32Xor => Opcode::I32Xor,
            Instruction::I32Shl => Opcode::I32Shl,
            Instruction::I32ShrS => Opcode::I32ShrS,
            Instruction::I32ShrU => Opcode::I32ShrU,
            Instruction::I32Rotl => Opcode::I32Rotl,
            Instruction::I32Rotr => Opcode::I32Rotr,
            Instruction::I64Clz => Opcode::I64Clz,
            Instruction::I64Ctz => Opcode::I64Ctz,
            Instruction::I64Popcnt => Opcode::I64Popcnt,
            Instruction::I64Add => Opcode::I64Add,
            Instruction::I64Sub => Opcode::I64Sub,
            Instruction::I64Mul => Opcode::I64Mul,
            Instruction::I64DivS => Opcode::I64DivS,
            Instruction::I64DivU => Opcode::I64DivU,
            Instruction::I64RemS => Opcode::I64RemS,
            Instruction::I64RemU => Opcode::I64RemU,
            Instruction::I64And => Opcode::I64And,
            Instruction::I64Or => Opcode::I64Or,
            Instruction::I64Xor => Opcode::I64Xor,
            Instruction::I64Shl => Opcode::I64Shl,
            Instruction::I64ShrS => Opcode::I64ShrS,
            Instruction::I64ShrU => Opcode::I64ShrU,
            Instruction::I64Rotl => Opcode::I64Rotl,
            Instruction::I64Rotr => Opcode::I64Rotr,
            Instruction::F32Abs => Opcode::F32Abs,
            Instruction::F32Neg => Opcode::F32Neg,
            Instruction::F32Ceil => Opcode::F32Ceil,
            Instruction::F32Floor => Opcode::F32Floor,
            Instruction::F32Trunc => Opcode::F32Trunc,
            Instruction::F32Nearest => Opcode::F32Nearest,
            Instruction::F32Sqrt => Opcode::F32Sqrt,
            Instruction::F32Add => Opcode::F32Add,
            Instruction::F32Sub => Opcode::F32Sub,
            Instruction::F32Mul => Opcode::F32Mul,
            Instruction::F32Div => Opcode::F32Div,
            Instruction::F32Min => Opcode::F32Min,
            Instruction::F32Max => Opcode::F32Max,
            Instruction::F32Copysign => Opcode::F32Copysign,
            Instruction::F64Abs => Opcode::F64Abs,
            Instruction::F64Neg => Opcode::F64Neg,
            Instruction::F64Ceil => Opcode::F64Ceil,
            Instruction::F64Floor => Opcode::F64Floor,
            Instruction::F64Trunc => Opcode::F64Trunc,
            Instruction::F64Nearest => Opcode::F64Nearest,
            Instruction::F64Sqrt => Opcode::F64Sqrt,
            Instruction::F64Add => Opcode::F64Add,
            Instruction::F64Sub => Opcode::F64Sub,
            Instruction::F64Mul => Opcode::F64Mul,
            Instruction::F64Div => Opcode::F64Div,
            Instruction::F64Min => Opcode::F64Min,
            Instruction::F64Max => Opcode::F64Max,
            Instruction::F64Copysign => Opcode::F64Copysign,
            Instruction::I32Eqz => Opcode::I32Eqz,
            Instruction::I32Eq => Opcode::I32Eq,
            Instruction::I32Ne => Opcode::I32Ne,
            Instruction::I32LtS => Opcode::I32LtS,
            Instruction::I32LtU => Opcode::I32LtU,
            Instruction::I32GtS => Opcode::I32GtS,
            Instruction::I32GtU => Opcode::I32GtU,
            Instruction::I32LeS => Opcode::I32LeS,
            Instruction::I32LeU => Opcode::I32LeU,
            Instruction::I32GeS => Opcode::I32GeS,
            Instruction::I32GeU => Opcode::I32GeU,
            Instruction::I64Eqz => Opcode::I64Eqz,
            Instruction::I64Eq => Opcode::I64Eq,
            Instruction::I64Ne => Opcode::I64Ne,
            Instruction::I64LtS => Opcode::I64LtS,
            Instruction::I64LtU => Opcode::I64LtU,
            Instruction::I64GtS => Opcode::I64GtS,
            Instruction::I64GtU => Opcode::I64GtU,
            Instruction::I64LeS => Opcode::I64LeS,
            Instruction::I64LeU => Opcode::I64LeU,
            Instruction::I64GeS => Opcode::I64GeS,
            Instruction::I64GeU => Opcode::I64GeU,
            Instruction::F32Eq => Opcode::F32Eq,
            Instruction::F32Ne => Opcode::F32Ne,
            Instruction::F32Lt => Opcode::F32Lt,
            Instruction::F32Gt => Opcode::F32Gt,
            Instruction::F32Le => Opcode::F32Le,
            Instruction::F32Ge => Opcode::F32Ge,
            Instruction::F64Eq => Opcode::F64Eq,
            Instruction::F64Ne => Opcode::F64Ne,
            Instruction::F64Lt => Opcode::F64Lt,
            Instruction::F64Gt => Opcode::F64Gt,
            Instruction::F64Le => Opcode::F64Le,
            Instruction::F64Ge => Opcode::F64Ge,
            Instruction::I32WrapI64 => Opcode::I32WrapI64,
            Instruction::I32TruncF32S => Opcode::I32TruncF32S,
            Instruction::I32TruncF32U => Opcode::I32TruncF32U,
            Instruction::I32TruncF64S => Opcode::I32TruncF64S,
            Instruction::I32TruncF64U => Opcode::I32TruncF64U,
            Instruction::I64ExtendI32S => Opcode::I64ExtendI32S,
            Instruction::I64ExtendI32U => Opcode::I64ExtendI32U,
            Instruction::I64TruncF32S => Opcode::I64TruncF32S,
            Instruction::I64TruncF32U => Opcode::I64TruncF32U,
            Instruction::I64TruncF64S => Opcode::I64TruncF64S,
            Instruction::I64TruncF64U => Opcode::I64TruncF64U,
            Instruction::F32ConvertI32S => Opcode::F32ConvertI32S,
            Instruction::F32ConvertI32U => Opcode::F32ConvertI32U,
            Instruction::F32ConvertI64S => Opcode::F32ConvertI64S,
            Instruction::F32ConvertI64U => Opcode::F32ConvertI64U,
            Instruction::F32DemoteF64 => Opcode::F32DemoteF64,
            Instruction::F64ConvertI32S => Opcode::F64ConvertI32S,
            Instruction::F64ConvertI32U => Opcode::F64ConvertI32U,
            Instruction::F64ConvertI64S => Opcode::F64ConvertI64S,
            Instruction::F64ConvertI64U => Opcode::F64ConvertI64U,
            Instruction::F64PromoteF32 => Opcode::F64PromoteF32,
            Instruction::I32ReinterpretF32 => Opcode::I32ReinterpretF32,
            Instruction::I64ReinterpretF64 => Opcode::I64ReinterpretF64,
            Instruction::F32ReinterpretI32 => Opcode::F32ReinterpretI32,
            Instruction::F64ReinterpretI64 => Opcode::F64ReinterpretI64,
            Instruction::I32TruncSatF32S => Opcode::I32TruncSatF32S,
            Instruction::I32TruncSatF32U => Opcode::I32TruncSatF32U,
            Instruction::I32TruncSatF64S => Opcode::I32TruncSatF64S,
            Instruction::I32TruncSatF64U => Opcode::I32TruncSatF64U,
            Instruction::I64TruncSatF32S => Opcode::I64TruncSatF32S,
            Instruction::I64TruncSatF32U => Opcode::I64TruncSatF32U,
            Instruction::I64TruncSatF64S => Opcode::I64TruncSatF64S,
            Instruction::I64TruncSatF64U => Opcode::I64TruncSatF64U,
            Instruction::I32Extend8S => Opcode::I32Extend8S,
            Instruction::I32Extend16S => Opcode::I32Extend16S,
            Instruction::I64Extend8S => Opcode::I64Extend8S,
            Instruction::I64Extend16S => Opcode::I64Extend16S,
            Instruction::I64Extend32S => Opcode::I64Extend32S,
            Instruction::ThrowRef => Opcode::ThrowRef,
            Instruction::TryTable(_) => Opcode::TryTable,
            Instruction::Throw(_) => Opcode::Throw,
            Instruction::Try(_) => Opcode::Try,
            Instruction::Catch(_) => Opcode::Catch,
            Instruction::Rethrow(_) => Opcode::Rethrow,
            Instruction::Delegate(_) => Opcode::Delegate,
            Instruction::CatchAll => Opcode::CatchAll,
        }
    }
}

/// An operand of the given kind.
pub open spec fn operand_grammar<'a>(kind: OperandKind, input: Input<'a>, at: Cursor) -> Parsed<
    Operand<'a>,
> {
    match kind {
        OperandKind::Nothing => Ok((Operand::Nothing, at)),
        OperandKind::Index => match Index::grammar(input, at) {
            Ok((x, to)) => Ok((Operand::Index(x), to)),
            Err(e) => Err(e),
        },
        OperandKind::Table => match TableArg::grammar(input, at) {
            Ok((x, to)) => Ok((Operand::Table(x), to)),
            Err(e) => Err(e),
        },
        OperandKind::Block => match BlockType::grammar(input, at) {
            Ok((x, to)) => Ok((Operand::Block(x), to)),
            Err(e) => Err(e),
        },
        OperandKind::Memory => match MemoryArg::grammar(input, at) {
            Ok((x, to)) => Ok((Operand::Memory(x), to)),
            Err(e) => Err(e),
        },
        OperandKind::OptionalId => match Option::<Id<'a>>::grammar(input, at) {
            Ok((x, to)) => Ok((Operand::OptionalId(x), to)),
            Err(e) => Err(e),
        },
        OperandKind::CallIndirect => match CallIndirect::grammar(input, at) {
            Ok((x, to)) => Ok((Operand::CallIndirect(x), to)),
            Err(e) => Err(e),
        },
        OperandKind::BrTable => match BrTableIndices::grammar(input, at) {
            Ok((x, to)) => Ok((Operand::BrTable(x), to)),
            Err(e) => Err(e),
        },
        OperandKind::Select => match SelectTypes::grammar(input, at) {
            Ok((x, to)) => Ok((Operand::Select(x), to)),
            Err(e) => Err(e),
        },
        OperandKind::MemoryInit => match MemoryInit::grammar(input, at) {
            Ok((x, to)) => Ok((Operand::MemoryInit(x), to)),
            Err(e) => Err(e),
        },
        OperandKind::MemoryCopy => match MemoryCopy::grammar(input, at) {
            Ok((x, to)) => Ok((Operand::MemoryCopy(x), to)),
            Err(e) => Err(e),
        },
        OperandKind::TableInit => match TableInit::grammar(input, at) {
            Ok((x, to)) => Ok((Operand::TableInit(x), to)),
            Err(e) => Err(e),
        },
        OperandKind::TableCopy => match TableCopy::grammar(input, at) {
            Ok((x, to)) => Ok((Operand::TableCopy(x), to)),
            Err(e) => Err(e),
        },
        OperandKind::Heap => match HeapType::grammar(input, at) {
            Ok((x, to)) => Ok((Operand::Heap(x), to)),
            Err(e) => Err(e),
        },
        OperandKind::I32 => match i32::grammar(input, at) {
            Ok((x, to)) => Ok((Operand::I32(x), to)),
            Err(e) => Err(e),
        },
        OperandKind::I64 => match i64::grammar(input, at) {
            Ok((x, to)) => Ok((Operand::I64(x), to)),
            Err(e) => Err(e),
        },
        OperandKind::F32 => match F32::grammar(input, at) {
            Ok((x, to)) => Ok((Operand::F32(x), to)),
            Err(e) => Err(e),
        },
        OperandKind::F64 => match F64::grammar(input, at) {
            Ok((x, to)) => Ok((Operand::F64(x), to)),
            Err(e) => Err(e),
        },
        OperandKind::TryTable => match TryTable::grammar(input, at) {
            Ok((x, to)) => Ok((Operand::TryTable(x), to)),
            Err(e) => Err(e),
        },
    }
}

proof fn lemma_operand_advances<'a>(kind: OperandKind, input: Input<'a>, at: Cursor)
    ensures
        operand_grammar(kind, input, at) matches Ok((_, to)) ==> at.pos <= to.pos,
{
    match kind {
        OperandKind::Nothing => {},
        OperandKind::Index => Index::lemma_advances(input, at),
        OperandKind::Table => TableArg::lemma_advances(input, at),
        OperandKind::Block => BlockType::lemma_advances(input, at),
        OperandKind::Memory => MemoryArg::lemma_advances(input, at),
        OperandKind::OptionalId => Option::<Id<'a>>::lemma_advances(input, at),
        OperandKind::CallIndirect => CallIndirect::lemma_advances(input, at),
        OperandKind::BrTable => BrTableIndices::lemma_advances(input, at),
        OperandKind::Select => SelectTypes::lemma_advances(input, at),
        OperandKind::MemoryInit => MemoryInit::lemma_advances(input, at),
        OperandKind::MemoryCopy => MemoryCopy::lemma_advances(input, at),
        OperandKind::TableInit => TableInit::lemma_advances(input, at),
        OperandKind::TableCopy => TableCopy::lemma_advances(input, at),
        OperandKind::Heap => HeapType::lemma_advances(input, at),
        OperandKind::I32 => i32::lemma_advances(input, at),
        OperandKind::I64 => i64::lemma_advances(input, at),
        OperandKind::F32 => F32::lemma_advances(input, at),
        OperandKind::F64 => F64::lemma_advances(input, at),
        OperandKind::TryTable => TryTable::lemma_advances(input, at),
    }
}

/// The instruction `op`, with an operand of its kind.
pub open spec fn instruction_rest<'a>(op: Opcode, input: Input<'a>, at: Cursor) -> Parsed<
    InstructionAst<'a>,
> {
    match operand_grammar(op.operand(), input, at) {
        Ok((operand, to)) => Ok((InstructionAst { op, operand }, to)),
        Err(e) => Err(e),
    }
}

/// An instruction moves the cursor on.
pub proof fn lemma_instruction_advances<'a>(input: Input<'a>, at: Cursor)
    ensures
        Instruction::grammar(input, at) matches Ok((_, to)) ==> at.pos < to.pos,
{
    input.lemma_step(at);
    if let Some(TokenKind::Keyword(k)) = input.tok(at) {
        if let Some(op) = Opcode::named(k@) {
            lemma_operand_advances(op.operand(), input, input.step(at));
        }
    }
}

/// The keyword of an instruction, and its operand.
impl<'a> Parse<'a> for Instruction<'a> {
    type Ast = InstructionAst<'a>;

    open spec fn ast(&self) -> InstructionAst<'a> {
        self@
    }

    open spec fn grammar(input: Input<'a>, at: Cursor) -> Parsed<InstructionAst<'a>> {
        match input.tok(at) {
            Some(TokenKind::Keyword(k)) => match Opcode::named(k@) {
                Some(op) => instruction_rest(op, input, input.step(at)),
                None => input.fail(at, "unknown operator or unexpected token"),
            },
            _ => input.fail(at, "expected an instruction"),
        }
    }

    proof fn lemma_advances(input: Input<'a>, at: Cursor) {
        lemma_instruction_advances(input, at);
    }

    fn parse(parser: &mut Parser<'a>) -> (r: Result<Self, Error>) {
        match parser.token() {
            Some(TokenKind::Keyword(k)) => {
                match Opcode::find(k) {
                    Some(op) => {
                        parser.advance();
                        parse_rest(op, parser)
                    },
                    None => Err(parser.error("unknown operator or unexpected token")),
                }
            },
            _ => Err(parser.error("expected an instruction")),
        }
    }
}

/// The kind of an instruction's operand; see [`Opcode::operand`].
fn operand_kind(op: Opcode) -> (k: OperandKind)
    ensures
        k == op.operand(),
{
    match op {
        Opcode::Block => OperandKind::Block,
        Opcode::If => OperandKind::Block,
        Opcode::Else => OperandKind::OptionalId,
        Opcode::Loop => OperandKind::Block,
        Opcode::End => OperandKind::OptionalId,
        Opcode::Br => OperandKind::Index,
        Opcode::BrIf => OperandKind::Index,
        Opcode::BrTable => OperandKind::BrTable,
        Opcode::Call => OperandKind::Index,
        Opcode::CallIndirect => OperandKind::CallIndirect,
        Opcode::ReturnCall => OperandKind::Index,
        Opcode::ReturnCallIndirect => OperandKind::CallIndirect,
        Opcode::CallRef => OperandKind::Index,
        Opcode::ReturnCallRef => OperandKind::Index,
        Opcode::Select => OperandKind::Select,
        Opcode::LocalGet => OperandKind::Index,
        Opcode::LocalSet => OperandKind::Index,
        Opcode::LocalTee => OperandKind::Index,
        Opcode::GlobalGet => OperandKind::Index,
        Opcode::GlobalSet => OperandKind::Index,
        Opcode::TableGet => OperandKind::Table,
        Opcode::TableSet => OperandKind::Table,
        Opcode::MemorySize => OperandKind::Memory,
        Opcode::MemoryGrow => OperandKind::Memory,
        Opcode::MemoryInit => OperandKind::MemoryInit,
        Opcode::MemoryCopy => OperandKind::MemoryCopy,
        Opcode::MemoryFill => OperandKind::Memory,
        Opcode::MemoryDiscard => OperandKind::Memory,
        Opcode::DataDrop => OperandKind::Index,
        Opcode::ElemDrop => OperandKind::Index,
        Opcode::TableInit => OperandKind::TableInit,
        Opcode::TableCopy => OperandKind::TableCopy,
        Opcode::TableFill => OperandKind::Table,
        Opcode::TableSize => OperandKind::Table,
        Opcode::TableGrow => OperandKind::Table,
        Opcode::RefNull => OperandKind::Heap,
        Opcode::RefFunc => OperandKind::Index,
        Opcode::BrOnNull => OperandKind::Index,
        Opcode::BrOnNonNull => OperandKind::Index,
        Opcode::I32Const => OperandKind::I32,
        Opcode::I64Const => OperandKind::I64,
        Opcode::F32Const => OperandKind::F32,
        Opcode::F64Const => OperandKind::F64,
        Opcode::TryTable => OperandKind::TryTable,
        Opcode::Throw => OperandKind::Index,
        Opcode::Try => OperandKind::Block,
        Opcode::Catch => OperandKind::Index,
        Opcode::Rethrow => OperandKind::Index,
        Opcode::Delegate => OperandKind::Index,
        _ => OperandKind::Nothing,
    }
}

/// An instruction has an operand exactly where its code asks for one.
pub proof fn lemma_operand_expected<'a>(i: Instruction<'a>)
    ensures
        i@.operand is Nothing <==> i@.op.operand() is Nothing,
{
}

/// The instructions that take no operand.
#[verifier::rlimit(60)]
fn without_operand<'a>(op: Opcode) -> (i: Instruction<'a>)
    requires
        op.operand() is Nothing,
    ensures
        i@ == (InstructionAst { op, operand: Operand::Nothing }),
{
    let i = match op {
        Opcode::Unreachable => Instruction::Unreachable,
        Opcode::Nop => Instruction::Nop,
        Opcode::Return => Instruction::Return,
        Opcode::Drop => Instruction::Drop,
        Opcode::RefIsNull => Instruction::RefIsNull,
        Opcode::RefAsNonNull => Instruction::RefAsNonNull,
        Opcode::I32Clz => Instruction::I32Clz,
        Opcode::I32Ctz => Instruction::I32Ctz,
        Opcode::I32Popcnt => Instruction::I32Popcnt,
        Opcode::I32Add => Instruction::I32Add,
        Opcode::I32Sub => Instruction::I32Sub,
        Opcode::I32Mul => Instruction::I32Mul,
        Opcode::I32DivS => Instruction::I32DivS,
        Opcode::I32DivU => Instruction::I32DivU,
        Opcode::I32RemS => Instruction::I32RemS,
        Opcode::I32RemU => Instruction::I32RemU,
        Opcode::I32And => Instruction::I32And,
        Opcode::I32Or => Instruction::I32Or,
        Opcode::I32Xor => Instruction::I32Xor,
        Opcode::I32Shl => Instruction::I32Shl,
        Opcode::I32ShrS => Instruction::I32ShrS,
        Opcode::I32ShrU => Instruction::I32ShrU,
        Opcode::I32Rotl => Instruction::I32Rotl,
        Opcode::I32Rotr => Instruction::I32Rotr,
        Opcode::I64Clz => Instruction::I64Clz,
        Opcode::I64Ctz => Instruction::I64Ctz,
        Opcode::I64Popcnt => Instruction::I64Popcnt,
        Opcode::I64Add => Instruction::I64Add,
        Opcode::I64Sub => Instruction::I64Sub,
        Opcode::I64Mul => Instruction::I64Mul,
        Opcode::I64DivS => Instruction::I64DivS,
        Opcode::I64DivU => Instruction::I64DivU,
        Opcode::I64RemS => Instruction::I64RemS,
        Opcode::I64RemU => Instruction::I64RemU,
        Opcode::I64And => Instruction::I64And,
        Opcode::I64Or => Instruction::I64Or,
        Opcode::I64Xor => Instruction::I64Xor,
        Opcode::I64Shl => Instruction::I64Shl,
        Opcode::I64ShrS => Instruction::I64ShrS,
        Opcode::I64ShrU => Instruction::I64ShrU,
        Opcode::I64Rotl => Instruction::I64Rotl,
        Opcode::I64Rotr => Instruction::I64Rotr,
        Opcode::F32Abs => Instruction::F32Abs,
        Opcode::F32Neg => Instruction::F32Neg,
        Opcode::F32Ceil => Instruction::F32Ceil,
        Opcode::F32Floor => Instruction::F32Floor,
        Opcode::F32Trunc => Instruction::F32Trunc,
        Opcode::F32Nearest => Instruction::F32Nearest,
        Opcode::F32Sqrt => Instruction::F32Sqrt,
        Opcode::F32Add => Instruction::F32Add,
        Opcode::F32Sub => Instruction::F32Sub,
        Opcode::F32Mul => Instruction::F32Mul,
        Opcode::F32Div => Instruction::F32Div,
        Opcode::F32Min => Instruction::F32Min,
        Opcode::F32Max => Instruction::F32Max,
        Opcode::F32Copysign => Instruction::F32Copysign,
        Opcode::F64Abs => Instruction::F64Abs,
        Opcode::F64Neg => Instruction::F64Neg,
        Opcode::F64Ceil => Instruction::F64Ceil,
        Opcode::F64Floor => Instruction::F64Floor,
        Opcode::F64Trunc => Instruction::F64Trunc,
        Opcode::F64Nearest => Instruction::F64Nearest,
        Opcode::F64Sqrt => Instruction::F64Sqrt,
        Opcode::F64Add => Instruction::F64Add,
        Opcode::F64Sub => Instruction::F64Sub,
        Opcode::F64Mul => Instruction::F64Mul,
        Opcode::F64Div => Instruction::F64Div,
        Opcode::F64Min => Instruction::F64Min,
        Opcode::F64Max => Instruction::F64Max,
        Opcode::F64Copysign => Instruction::F64Copysign,
        Opcode::I32Eqz => Instruction::I32Eqz,
        Opcode::I32Eq => Instruction::I32Eq,
        Opcode::I32Ne => Instruction::I32Ne,
        Opcode::I32LtS => Instruction::I32LtS,
        Opcode::I32LtU => Instruction::I32LtU,
        Opcode::I32GtS => Instruction::I32GtS,
        Opcode::I32GtU => Instruction::I32GtU,
        Opcode::I32LeS => Instruction::I32LeS,
        Opcode::I32LeU => Instruction::I32LeU,
        Opcode::I32GeS => Instruction::I32GeS,
        Opcode::I32GeU => Instruction::I32GeU,
        Opcode::I64Eqz => Instruction::I64Eqz,
        Opcode::I64Eq => Instruction::I64Eq,
        Opcode::I64Ne => Instruction::I64Ne,
        Opcode::I64LtS => Instruction::I64LtS,
        Opcode::I64LtU => Instruction::I64LtU,
        Opcode::I64GtS => Instruction::I64GtS,
        Opcode::I64GtU => Instruction::I64GtU,
        Opcode::I64LeS => Instruction::I64LeS,
        Opcode::I64LeU => Instruction::I64LeU,
        Opcode::I64GeS => Instruction::I64GeS,
        Opcode::I64GeU => Instruction::I64GeU,
        Opcode::F32Eq => Instruction::F32Eq,
        Opcode::F32Ne => Instruction::F32Ne,
        Opcode::F32Lt => Instruction::F32Lt,
        Opcode::F32Gt => Instruction::F32Gt,
        Opcode::F32Le => Instruction::F32Le,
        Opcode::F32Ge => Instruction::F32Ge,
        Opcode::F64Eq => Instruction::F64Eq,
        Opcode::F64Ne => Instruction::F64Ne,
        Opcode::F64Lt => Instruction::F64Lt,
        Opcode::F64Gt => Instruction::F64Gt,
        Opcode::F64Le => Instruction::F64Le,
        Opcode::F64Ge => Instruction::F64Ge,
        Opcode::I32WrapI64 => Instruction::I32WrapI64,
        Opcode::I32TruncF32S => Instruction::I32TruncF32S,
        Opcode::I32TruncF32U => Instruction::I32TruncF32U,
        Opcode::I32TruncF64S => Instruction::I32TruncF64S,
        Opcode::I32TruncF64U => Instruction::I32TruncF64U,
        Opcode::I64ExtendI32S => Instruction::I64ExtendI32S,
        Opcode::I64ExtendI32U => Instruction::I64ExtendI32U,
        Opcode::I64TruncF32S => Instruction::I64TruncF32S,
        Opcode::I64TruncF32U => Instruction::I64TruncF32U,
        Opcode::I64TruncF64S => Instruction::I64TruncF64S,
        Opcode::I64TruncF64U => Instruction::I64TruncF64U,
        Opcode::F32ConvertI32S => Instruction::F32ConvertI32S,
        Opcode::F32ConvertI32U => Instruction::F32ConvertI32U,
        Opcode::F32ConvertI64S => Instruction::F32ConvertI64S,
        Opcode::F32ConvertI64U => Instruction::F32ConvertI64U,
        Opcode::F32DemoteF64 => Instruction::F32DemoteF64,
        Opcode::F64ConvertI32S => Instruction::F64ConvertI32S,
        Opcode::F64ConvertI32U => Instruction::F64ConvertI32U,
        Opcode::F64ConvertI64S => Instruction::F64ConvertI64S,
        Opcode::F64ConvertI64U => Instruction::F64ConvertI64U,
        Opcode::F64PromoteF32 => Instruction::F64PromoteF32,
        Opcode::I32ReinterpretF32 => Instruction::I32ReinterpretF32,
        Opcode::I64ReinterpretF64 => Instruction::I64ReinterpretF64,
        Opcode::F32ReinterpretI32 => Instruction::F32ReinterpretI32,
        Opcode::F64ReinterpretI64 => Instruction::F64ReinterpretI64,
        Opcode::I32TruncSatF32S => Instruction::I32TruncSatF32S,
        Opcode::I32TruncSatF32U => Instruction::I32TruncSatF32U,
        Opcode::I32TruncSatF64S => Instruction::I32TruncSatF64S,
        Opcode::I32TruncSatF64U => Instruction::I32TruncSatF64U,
        Opcode::I64TruncSatF32S => Instruction::I64TruncSatF32S,
        Opcode::I64TruncSatF32U => Instruction::I64TruncSatF32U,
        Opcode::I64TruncSatF64S => Instruction::I64TruncSatF64S,
        Opcode::I64TruncSatF64U => Instruction::I64TruncSatF64U,
        Opcode::I32Extend8S => Instruction::I32Extend8S,
        Opcode::I32Extend16S => Instruction::I32Extend16S,
        Opcode::I64Extend8S => Instruction::I64Extend8S,
        Opcode::I64Extend16S => Instruction::I64Extend16S,
        Opcode::I64Extend32S => Instruction::I64Extend32S,
        Opcode::ThrowRef => Instruction::ThrowRef,
        _ => Instruction::CatchAll,
    };
    assert(i.op() == op);
    proof {
        lemma_operand_expected(i);
    }
    i
}

/// The instructions that take an index.
fn with_index<'a>(op: Opcode, x: Index<'a>) -> (i: Instruction<'a>)
    requires
        op.operand() is Index,
    ensures
        i@ == (InstructionAst { op, operand: Operand::Index(x) }),
{
    match op {
        Opcode::Br => Instruction::Br(x),
        Opcode::BrIf => Instruction::BrIf(x),
        Opcode::Call => Instruction::Call(x),
        Opcode::ReturnCall => Instruction::ReturnCall(x),
        Opcode::CallRef => Instruction::CallRef(x),
        Opcode::ReturnCallRef => Instruction::ReturnCallRef(x),
        Opcode::LocalGet => Instruction::LocalGet(x),
        Opcode::LocalSet => Instruction::LocalSet(x),
        Opcode::LocalTee => Instruction::LocalTee(x),
        Opcode::GlobalGet => Instruction::GlobalGet(x),
        Opcode::GlobalSet => Instruction::GlobalSet(x),
        Opcode::DataDrop => Instruction::DataDrop(x),
        Opcode::ElemDrop => Instruction::ElemDrop(x),
        Opcode::RefFunc => Instruction::RefFunc(x),
        Opcode::BrOnNull => Instruction::BrOnNull(x),
        Opcode::BrOnNonNull => Instruction::BrOnNonNull(x),
        Opcode::Throw => Instruction::Throw(x),
        Opcode::Catch => Instruction::Catch(x),
        Opcode::Rethrow => Instruction::Rethrow(x),
        _ => Instruction::Delegate(x),
    }
}

/// The instructions that take a table.
fn with_table<'a>(op: Opcode, x: TableArg<'a>) -> (i: Instruction<'a>)
    requires
        op.operand() is Table,
    ensures
        i@ == (InstructionAst { op, operand: Operand::Table(x) }),
{
    match op {
        Opcode::TableGet => Instruction::TableGet(x),
        Opcode::TableSet => Instruction::TableSet(x),
        Opcode::TableFill => Instruction::TableFill(x),
        Opcode::TableSize => Instruction::TableSize(x),
        _ => Instruction::TableGrow(x),
    }
}

/// The instructions that take a block type.
fn with_block<'a>(op: Opcode, x: Box<BlockType<'a>>) -> (i: Instruction<'a>)
    requires
        op.operand() is Block,
    ensures
        i@ == (InstructionAst { op, operand: Operand::Block((*x)@) }),
{
    match op {
        Opcode::Block => Instruction::Block(x),
        Opcode::If => Instruction::If(x),
        Opcode::Loop => Instruction::Loop(x),
        _ => Instruction::Try(x),
    }
}

/// The instructions that take a memory.
fn with_memory<'a>(op: Opcode, x: MemoryArg<'a>) -> (i: Instruction<'a>)
    requires
        op.operand() is Memory,
    ensures
        i@ == (InstructionAst { op, operand: Operand::Memory(x) }),
{
    match op {
        Opcode::MemorySize => Instruction::MemorySize(x),
        Opcode::MemoryGrow => Instruction::MemoryGrow(x),
        Opcode::MemoryFill => Instruction::MemoryFill(x),
        _ => Instruction::MemoryDiscard(x),
    }
}

/// The instructions that take an optional label.
fn with_label<'a>(op: Opcode, x: Option<Id<'a>>) -> (i: Instruction<'a>)
    requires
        op.operand() is OptionalId,
    ensures
        i@ == (InstructionAst { op, operand: Operand::OptionalId(x) }),
{
    match op {
        Opcode::Else => Instruction::Else(x),
        _ => Instruction::End(x),
    }
}

/// The instructions that take a table and a type.
fn with_call<'a>(op: Opcode, x: Box<CallIndirect<'a>>) -> (i: Instruction<'a>)
    requires
        op.operand() is CallIndirect,
    ensures
        i@ == (InstructionAst { op, operand: Operand::CallIndirect((*x)@) }),
{
    match op {
        Opcode::CallIndirect => Instruction::CallIndirect(x),
        _ => Instruction::ReturnCallIndirect(x),
    }
}

/// Parses the operand of `op`.
fn parse_rest<'a>(op: Opcode, parser: &mut Parser<'a>) -> (r: Result<Instruction<'a>, Error>)
    requires
        old(parser).wf(),
    ensures
        final(parser).same_source(old(parser)),
        match r {
            Ok(i) => instruction_rest(op, old(parser).input(), old(parser).at()) == Ok::<_, Error>(
                (i@, final(parser).at()),
            ),
            Err(e) => instruction_rest(op, old(parser).input(), old(parser).at()) == Err::<
                (InstructionAst<'a>, Cursor),
                Error,
            >(e),
        },
{
    match operand_kind(op) {
        OperandKind::Nothing => Ok(without_operand(op)),
        OperandKind::Index => {
            let x = Index::parse(parser)?;
            Ok(with_index(op, x))
        },
        OperandKind::Table => {
            let x = TableArg::parse(parser)?;
            Ok(with_table(op, x))
        },
        OperandKind::Block => {
            let x = BlockType::parse(parser)?;
            Ok(with_block(op, Box::new(x)))
        },
        OperandKind::Memory => {
            let x = MemoryArg::parse(parser)?;
            Ok(with_memory(op, x))
        },
        OperandKind::OptionalId => {
            let x = Option::<Id<'a>>::parse(parser)?;
            Ok(with_label(op, x))
        },
        OperandKind::CallIndirect => {
            let x = CallIndirect::parse(parser)?;
            Ok(with_call(op, Box::new(x)))
        },
        OperandKind::BrTable => {
            let x = BrTableIndices::parse(parser)?;
            Ok(Instruction::BrTable(x))
        },
        OperandKind::Select => {
            let x = SelectTypes::parse(parser)?;
            Ok(Instruction::Select(x))
        },
        OperandKind::MemoryInit => {
            let x = MemoryInit::parse(parser)?;
            Ok(Instruction::MemoryInit(x))
        },
        OperandKind::MemoryCopy => {
            let x = MemoryCopy::parse(parser)?;
            Ok(Instruction::MemoryCopy(x))
        },
        OperandKind::TableInit => {
            let x = TableInit::parse(parser)?;
            Ok(Instruction::TableInit(x))
        },
        OperandKind::TableCopy => {
            let x = TableCopy::parse(parser)?;
            Ok(Instruction::TableCopy(x))
        },
        OperandKind::Heap => {
            let x = HeapType::parse(parser)?;
            Ok(Instruction::RefNull(x))
        },
        OperandKind::I32 => {
            let x = i32::parse(parser)?;
            Ok(Instruction::I32Const(x))
        },
        OperandKind::I64 => {
            let x = i64::parse(parser)?;
            Ok(Instruction::I64Const(x))
        },
        OperandKind::F32 => {
            let x = F32::parse(parser)?;
            Ok(Instruction::F32Const(x))
        },
        OperandKind::F64 => {
            let x = F64::parse(parser)?;
            Ok(Instruction::F64Const(x))
        },
        OperandKind::TryTable => {
            let x = TryTable::parse(parser)?;
            Ok(Instruction::TryTable(x))
        },
    }
}

impl<'a> Operand<'a> {
    pub open spec fn encodable(self) -> bool {
        match self {
            Operand::Nothing => true,
            Operand::Index(x) => x.encodable(),
            Operand::Table(x) => x.encodable(),
            Operand::Block(x) => x.encodable(),
            Operand::Memory(x) => x.encodable(),
            Operand::OptionalId(x) => x.encodable(),
            Operand::CallIndirect(x) => x.encodable(),
            Operand::BrTable(x) => x.encodable(),
            Operand::Select(x) => select_encodable(x),
            Operand::MemoryInit(x) => x.encodable(),
            Operand::MemoryCopy(x) => x.encodable(),
            Operand::TableInit(x) => x.encodable(),
            Operand::TableCopy(x) => x.encodable(),
            Operand::Heap(x) => x.encodable(),
            Operand::I32(x) => x.encodable(),
            Operand::I64(x) => x.encodable(),
            Operand::F32(x) => x.encodable(),
            Operand::F64(x) => x.encodable(),
            Operand::TryTable(x) => x.encodable(),
        }
    }

    pub open spec fn encoded(self) -> Seq<u8> {
        match self {
            Operand::Nothing => Seq::empty(),
            Operand::Index(x) => x.encoded(),
            Operand::Table(x) => x.encoded(),
            Operand::Block(x) => x.encoded(),
            Operand::Memory(x) => x.encoded(),
            Operand::OptionalId(x) => x.encoded(),
            Operand::CallIndirect(x) => x.encoded(),
            Operand::BrTable(x) => x.encoded(),
            Operand::Select(x) => select_encoded(x),
            Operand::MemoryInit(x) => x.encoded(),
            Operand::MemoryCopy(x) => x.encoded(),
            Operand::TableInit(x) => x.encoded(),
            Operand::TableCopy(x) => x.encoded(),
            Operand::Heap(x) => x.encoded(),
            Operand::I32(x) => x.encoded(),
            Operand::I64(x) => x.encoded(),
            Operand::F32(x) => x.encoded(),
            Operand::F64(x) => x.encoded(),
            Operand::TryTable(x) => x.encoded(),
        }
    }
}

impl<'a> InstructionAst<'a> {
    pub open spec fn encodable(self) -> bool {
        self.operand.encodable()
    }

    pub open spec fn encoded(self) -> Seq<u8> {
        self.op.encoding().bytes() + self.operand.encoded()
    }
}

/// The code of an instruction, and its operand.
impl<'a> Encode for Instruction<'a> {
    open spec fn encodable(&self) -> bool {
        self@.encodable()
    }

    open spec fn encoded(&self) -> Seq<u8> {
        self@.encoded()
    }

    fn encode(&self, out: &mut Vec<u8>) {
        match self.opcode().code() {
            Encoding::Implied => {},
            Encoding::Byte(b) => out.push(b),
            Encoding::Prefixed(p, b) => {
                out.push(p);
                out.push(b);
            },
        }
        assert(out@ =~= old(out)@ + self@.op.encoding().bytes());
        self.encode_operand(out);
        assert(out@ =~= old(out)@ + self.encoded());
    }
}

impl<'a> Instruction<'a> {
    fn encode_operand(&self, out: &mut Vec<u8>)
        requires
            self.encodable(),
        ensures
            final(out)@ == old(out)@ + self@.operand.encoded(),
    {
        match self {
            Instruction::Block(x) => x.encode(out),
            Instruction::If(x) => x.encode(out),
            Instruction::Else(x) => x.encode(out),
            Instruction::Loop(x) => x.encode(out),
            Instruction::End(x) => x.encode(out),
            Instruction::Br(x) => x.encode(out),
            Instruction::BrIf(x) => x.encode(out),
            Instruction::BrTable(x) => x.encode(out),
            Instruction::Call(x) => x.encode(out),
            Instruction::CallIndirect(x) => x.encode(out),
            Instruction::ReturnCall(x) => x.encode(out),
            Instruction::ReturnCallIndirect(x) => x.encode(out),
            Instruction::CallRef(x) => x.encode(out),
            Instruction::ReturnCallRef(x) => x.encode(out),
            Instruction::Select(x) => x.encode(out),
            Instruction::LocalGet(x) => x.encode(out),
            Instruction::LocalSet(x) => x.encode(out),
            Instruction::LocalTee(x) => x.encode(out),
            Instruction::GlobalGet(x) => x.encode(out),
            Instruction::GlobalSet(x) => x.encode(out),
            Instruction::TableGet(x) => x.encode(out),
            Instruction::TableSet(x) => x.encode(out),
            Instruction::MemorySize(x) => x.encode(out),
            Instruction::MemoryGrow(x) => x.encode(out),
            Instruction::MemoryInit(x) => x.encode(out),
            Instruction::MemoryCopy(x) => x.encode(out),
            Instruction::MemoryFill(x) => x.encode(out),
            Instruction::MemoryDiscard(x) => x.encode(out),
            Instruction::DataDrop(x) => x.encode(out),
            Instruction::ElemDrop(x) => x.encode(out),
            Instruction::TableInit(x) => x.encode(out),
            Instruction::TableCopy(x) => x.encode(out),
            Instruction::TableFill(x) => x.encode(out),
            Instruction::TableSize(x) => x.encode(out),
            Instruction::TableGrow(x) => x.encode(out),
            Instruction::RefNull(x) => x.encode(out),
            Instruction::RefFunc(x) => x.encode(out),
            Instruction::BrOnNull(x) => x.encode(out),
            Instruction::BrOnNonNull(x) => x.encode(out),
            Instruction::I32Const(x) => x.encode(out),
            Instruction::I64Const(x) => x.encode(out),
            Instruction::F32Const(x) => x.encode(out),
            Instruction::F64Const(x) => x.encode(out),
            Instruction::TryTable(x) => x.encode(out),
            Instruction::Throw(x) => x.encode(out),
            Instruction::Try(x) => x.encode(out),
            Instruction::Catch(x) => x.encode(out),
            Instruction::Rethrow(x) => x.encode(out),
            Instruction::Delegate(x) => x.encode(out),
            _ => {
                assert(out@ =~= old(out)@ + self@.operand.encoded());
            },
        }
    }

    /// Tells whether a module with this instruction must tell the number of its
    /// data segments ahead of its code.
    pub fn needs_data_count(&self) -> (b: bool)
        ensures
            b == (self@.op is MemoryInit || self@.op is DataDrop),
    {
        match self {
            Instruction::MemoryInit(_) => true,
            Instruction::DataDrop(_) => true,
            _ => false,
        }
    }

    /// Returns the associated [`MemArg`] if one is available for this
    /// instruction. None of these instructions has one.
    pub fn memarg_mut(&mut self) -> (r: Option<&mut MemArg<'a>>)
        ensures
            r is None,
            *final(self) == *old(self),
    {
        None
    }
}

} // verus!
