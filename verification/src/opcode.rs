//! The instructions by name: how each is written, how it is encoded, and which
//! operand it takes.

use vstd::prelude::*;

use crate::text::same_text;

verus! {

/// The instructions that access no memory, without their operands.
#[derive(Clone, Copy, Debug, PartialEq, Eq, Structural)]
pub enum Opcode {
    Block,
    If,
    Else,
    Loop,
    End,
    Unreachable,
    Nop,
    Br,
    BrIf,
    BrTable,
    Return,
    Call,
    CallIndirect,
    ReturnCall,
    ReturnCallIndirect,
    CallRef,
    ReturnCallRef,
    Drop,
    Select,
    LocalGet,
    LocalSet,
    LocalTee,
    GlobalGet,
    GlobalSet,
    TableGet,
    TableSet,
    MemorySize,
    MemoryGrow,
    MemoryInit,
    MemoryCopy,
    MemoryFill,
    MemoryDiscard,
    DataDrop,
    ElemDrop,
    TableInit,
    TableCopy,
    TableFill,
    TableSize,
    TableGrow,
    RefNull,
    RefIsNull,
    RefFunc,
    RefAsNonNull,
    BrOnNull,
    BrOnNonNull,
    I32Const,
    I64Const,
    F32Const,
    F64Const,
    I32Clz,
    I32Ctz,
    I32Popcnt,
    I32Add,
    I32Sub,
    I32Mul,
    I32DivS,
    I32DivU,
    I32RemS,
    I32RemU,
    I32And,
    I32Or,
    I32Xor,
    I32Shl,
    I32ShrS,
    I32ShrU,
    I32Rotl,
    I32Rotr,
    I64Clz,
    I64Ctz,
    I64Popcnt,
    I64Add,
    I64Sub,
    I64Mul,
    I64DivS,
    I64DivU,
    I64RemS,
    I64RemU,
    I64And,
    I64Or,
    I64Xor,
    I64Shl,
    I64ShrS,
    I64ShrU,
    I64Rotl,
    I64Rotr,
    F32Abs,
    F32Neg,
    F32Ceil,
    F32Floor,
    F32Trunc,
    F32Nearest,
    F32Sqrt,
    F32Add,
    F32Sub,
    F32Mul,
    F32Div,
    F32Min,
    F32Max,
    F32Copysign,
    F64Abs,
    F64Neg,
    F64Ceil,
    F64Floor,
    F64Trunc,
    F64Nearest,
    F64Sqrt,
    F64Add,
    F64Sub,
    F64Mul,
    F64Div,
    F64Min,
    F64Max,
    F64Copysign,
    I32Eqz,
    I32Eq,
    I32Ne,
    I32LtS,
    I32LtU,
    I32GtS,
    I32GtU,
    I32LeS,
    I32LeU,
    I32GeS,
    I32GeU,
    I64Eqz,
    I64Eq,
    I64Ne,
    I64LtS,
    I64LtU,
    I64GtS,
    I64GtU,
    I64LeS,
    I64LeU,
    I64GeS,
    I64GeU,
    F32Eq,
    F32Ne,
    F32Lt,
    F32Gt,
    F32Le,
    F32Ge,
    F64Eq,
    F64Ne,
    F64Lt,
    F64Gt,
    F64Le,
    F64Ge,
    I32WrapI64,
    I32TruncF32S,
    I32TruncF32U,
    I32TruncF64S,
    I32TruncF64U,
    I64ExtendI32S,
    I64ExtendI32U,
    I64TruncF32S,
    I64TruncF32U,
    I64TruncF64S,
    I64TruncF64U,
    F32ConvertI32S,
    F32ConvertI32U,
    F32ConvertI64S,
    F32ConvertI64U,
    F32DemoteF64,
    F64ConvertI32S,
    F64ConvertI32U,
    F64ConvertI64S,
    F64ConvertI64U,
    F64PromoteF32,
    I32ReinterpretF32,
    I64ReinterpretF64,
    F32ReinterpretI32,
    F64ReinterpretI64,
    I32TruncSatF32S,
    I32TruncSatF32U,
    I32TruncSatF64S,
    I32TruncSatF64U,
    I64TruncSatF32S,
    I64TruncSatF32U,
    I64TruncSatF64S,
    I64TruncSatF64U,
    I32Extend8S,
    I32Extend16S,
    I64Extend8S,
    I64Extend16S,
    I64Extend32S,
    ThrowRef,
    TryTable,
    Throw,
    Try,
    Catch,
    Rethrow,
    Delegate,
    CatchAll,
}

/// How the code of an instruction is encoded.
#[derive(Clone, Copy, Debug, PartialEq, Eq, Structural)]
pub enum Encoding {
    /// The operand brings the code along.
    Implied,
    /// A single byte.
    Byte(u8),
    /// A prefix and a byte.
    Prefixed(u8, u8),
}

impl Encoding {
    pub open spec fn bytes(self) -> Seq<u8> {
        match self {
            Encoding::Implied => Seq::empty(),
            Encoding::Byte(b) => seq![b],
            Encoding::Prefixed(p, b) => seq![p, b],
        }
    }
}

/// What an instruction takes as its operand.
pub enum OperandKind {
    Nothing,
    Index,
    Table,
    Block,
    Memory,
    OptionalId,
    CallIndirect,
    BrTable,
    Select,
    MemoryInit,
    MemoryCopy,
    TableInit,
    TableCopy,
    Heap,
    I32,
    I64,
    F32,
    F64,
    TryTable,
}

impl Opcode {
    /// The keyword that an instruction is written with.
    pub open spec fn mnemonic(self) -> Seq<char> {
        match self {
            Opcode::Block => "block"@,
            Opcode::If => "if"@,
            Opcode::Else => "else"@,
            Opcode::Loop => "loop"@,
            Opcode::End => "end"@,
            Opcode::Unreachable => "unreachable"@,
            Opcode::Nop => "nop"@,
            Opcode::Br => "br"@,
            Opcode::BrIf => "br_if"@,
            Opcode::BrTable => "br_table"@,
            Opcode::Return => "return"@,
            Opcode::Call => "call"@,
            Opcode::CallIndirect => "call_indirect"@,
            Opcode::ReturnCall => "return_call"@,
            Opcode::ReturnCallIndirect => "return_call_indirect"@,
            Opcode::CallRef => "call_ref"@,
            Opcode::ReturnCallRef => "return_call_ref"@,
            Opcode::Drop => "drop"@,
            Opcode::Select => "select"@,
            Opcode::LocalGet => "local.get"@,
            Opcode::LocalSet => "local.set"@,
            Opcode::LocalTee => "local.tee"@,
            Opcode::GlobalGet => "global.get"@,
            Opcode::GlobalSet => "global.set"@,
            Opcode::TableGet => "table.get"@,
            Opcode::TableSet => "table.set"@,
            Opcode::MemorySize => "memory.size"@,
            Opcode::MemoryGrow => "memory.grow"@,
            Opcode::MemoryInit => "memory.init"@,
            Opcode::MemoryCopy => "memory.copy"@,
            Opcode::MemoryFill => "memory.fill"@,
            Opcode::MemoryDiscard => "memory.discard"@,
            Opcode::DataDrop => "data.drop"@,
            Opcode::ElemDrop => "elem.drop"@,
            Opcode::TableInit => "table.init"@,
            Opcode::TableCopy => "table.copy"@,
            Opcode::TableFill => "table.fill"@,
            Opcode::TableSize => "table.size"@,
            Opcode::TableGrow => "table.grow"@,
            Opcode::RefNull => "ref.null"@,
            Opcode::RefIsNull => "ref.is_null"@,
            Opcode::RefFunc => "ref.func"@,
            Opcode::RefAsNonNull => "ref.as_non_null"@,
            Opcode::BrOnNull => "br_on_null"@,
            Opcode::BrOnNonNull => "br_on_non_null"@,
            Opcode::I32Const => "i32.const"@,
            Opcode::I64Const => "i64.const"@,
            Opcode::F32Const => "f32.const"@,
            Opcode::F64Const => "f64.const"@,
            Opcode::I32Clz => "i32.clz"@,
            Opcode::I32Ctz => "i32.ctz"@,
            Opcode::I32Popcnt => "i32.popcnt"@,
            Opcode::I32Add => "i32.add"@,
            Opcode::I32Sub => "i32.sub"@,
            Opcode::I32Mul => "i32.mul"@,
            Opcode::I32DivS => "i32.div_s"@,
            Opcode::I32DivU => "i32.div_u"@,
            Opcode::I32RemS => "i32.rem_s"@,
            Opcode::I32RemU => "i32.rem_u"@,
            Opcode::I32And => "i32.and"@,
            Opcode::I32Or => "i32.or"@,
            Opcode::I32Xor => "i32.xor"@,
            Opcode::I32Shl => "i32.shl"@,
            Opcode::I32ShrS => "i32.shr_s"@,
            Opcode::I32ShrU => "i32.shr_u"@,
            Opcode::I32Rotl => "i32.rotl"@,
            Opcode::I32Rotr => "i32.rotr"@,
            Opcode::I64Clz => "i64.clz"@,
            Opcode::I64Ctz => "i64.ctz"@,
            Opcode::I64Popcnt => "i64.popcnt"@,
            Opcode::I64Add => "i64.add"@,
            Opcode::I64Sub => "i64.sub"@,
            Opcode::I64Mul => "i64.mul"@,
            Opcode::I64DivS => "i64.div_s"@,
            Opcode::I64DivU => "i64.div_u"@,
            Opcode::I64RemS => "i64.rem_s"@,
            Opcode::I64RemU => "i64.rem_u"@,
            Opcode::I64And => "i64.and"@,
            Opcode::I64Or => "i64.or"@,
            Opcode::I64Xor => "i64.xor"@,
            Opcode::I64Shl => "i64.shl"@,
            Opcode::I64ShrS => "i64.shr_s"@,
            Opcode::I64ShrU => "i64.shr_u"@,
            Opcode::I64Rotl => "i64.rotl"@,
            Opcode::I64Rotr => "i64.rotr"@,
            Opcode::F32Abs => "f32.abs"@,
            Opcode::F32Neg => "f32.neg"@,
            Opcode::F32Ceil => "f32.ceil"@,
            Opcode::F32Floor => "f32.floor"@,
            Opcode::F32Trunc => "f32.trunc"@,
            Opcode::F32Nearest => "f32.nearest"@,
            Opcode::F32Sqrt => "f32.sqrt"@,
            Opcode::F32Add => "f32.add"@,
            Opcode::F32Sub => "f32.sub"@,
            Opcode::F32Mul => "f32.mul"@,
            Opcode::F32Div => "f32.div"@,
            Opcode::F32Min => "f32.min"@,
            Opcode::F32Max => "f32.max"@,
            Opcode::F32Copysign => "f32.copysign"@,
            Opcode::F64Abs => "f64.abs"@,
            Opcode::F64Neg => "f64.neg"@,
            Opcode::F64Ceil => "f64.ceil"@,
            Opcode::F64Floor => "f64.floor"@,
            Opcode::F64Trunc => "f64.trunc"@,
            Opcode::F64Nearest => "f64.nearest"@,
            Opcode::F64Sqrt => "f64.sqrt"@,
            Opcode::F64Add => "f64.add"@,
            Opcode::F64Sub => "f64.sub"@,
            Opcode::F64Mul => "f64.mul"@,
            Opcode::F64Div => "f64.div"@,
            Opcode::F64Min => "f64.min"@,
            Opcode::F64Max => "f64.max"@,
            Opcode::F64Copysign => "f64.copysign"@,
            Opcode::I32Eqz => "i32.eqz"@,
            Opcode::I32Eq => "i32.eq"@,
            Opcode::I32Ne => "i32.ne"@,
            Opcode::I32LtS => "i32.lt_s"@,
            Opcode::I32LtU => "i32.lt_u"@,
            Opcode::I32GtS => "i32.gt_s"@,
            Opcode::I32GtU => "i32.gt_u"@,
            Opcode::I32LeS => "i32.le_s"@,
            Opcode::I32LeU => "i32.le_u"@,
            Opcode::I32GeS => "i32.ge_s"@,
            Opcode::I32GeU => "i32.ge_u"@,
            Opcode::I64Eqz => "i64.eqz"@,
            Opcode::I64Eq => "i64.eq"@,
            Opcode::I64Ne => "i64.ne"@,
            Opcode::I64LtS => "i64.lt_s"@,
            Opcode::I64LtU => "i64.lt_u"@,
            Opcode::I64GtS => "i64.gt_s"@,
            Opcode::I64GtU => "i64.gt_u"@,
            Opcode::I64LeS => "i64.le_s"@,
            Opcode::I64LeU => "i64.le_u"@,
            Opcode::I64GeS => "i64.ge_s"@,
            Opcode::I64GeU => "i64.ge_u"@,
            Opcode::F32Eq => "f32.eq"@,
            Opcode::F32Ne => "f32.ne"@,
            Opcode::F32Lt => "f32.lt"@,
            Opcode::F32Gt => "f32.gt"@,
            Opcode::F32Le => "f32.le"@,
            Opcode::F32Ge => "f32.ge"@,
            Opcode::F64Eq => "f64.eq"@,
            Opcode::F64Ne => "f64.ne"@,
            Opcode::F64Lt => "f64.lt"@,
            Opcode::F64Gt => "f64.gt"@,
            Opcode::F64Le => "f64.le"@,
            Opcode::F64Ge => "f64.ge"@,
            Opcode::I32WrapI64 => "i32.wrap_i64"@,
            Opcode::I32TruncF32S => "i32.trunc_f32_s"@,
            Opcode::I32TruncF32U => "i32.trunc_f32_u"@,
            Opcode::I32TruncF64S => "i32.trunc_f64_s"@,
            Opcode::I32TruncF64U => "i32.trunc_f64_u"@,
            Opcode::I64ExtendI32S => "i64.extend_i32_s"@,
            Opcode::I64ExtendI32U => "i64.extend_i32_u"@,
            Opcode::I64TruncF32S => "i64.trunc_f32_s"@,
            Opcode::I64TruncF32U => "i64.trunc_f32_u"@,
            Opcode::I64TruncF64S => "i64.trunc_f64_s"@,
            Opcode::I64TruncF64U => "i64.trunc_f64_u"@,
            Opcode::F32ConvertI32S => "f32.convert_i32_s"@,
            Opcode::F32ConvertI32U => "f32.convert_i32_u"@,
            Opcode::F32ConvertI64S => "f32.convert_i64_s"@,
            Opcode::F32ConvertI64U => "f32.convert_i64_u"@,
            Opcode::F32DemoteF64 => "f32.demote_f64"@,
            Opcode::F64ConvertI32S => "f64.convert_i32_s"@,
            Opcode::F64ConvertI32U => "f64.convert_i32_u"@,
            Opcode::F64ConvertI64S => "f64.convert_i64_s"@,
            Opcode::F64ConvertI64U => "f64.convert_i64_u"@,
            Opcode::F64PromoteF32 => "f64.promote_f32"@,
            Opcode::I32ReinterpretF32 => "i32.reinterpret_f32"@,
            Opcode::I64ReinterpretF64 => "i64.reinterpret_f64"@,
            Opcode::F32ReinterpretI32 => "f32.reinterpret_i32"@,
            Opcode::F64ReinterpretI64 => "f64.reinterpret_i64"@,
            Opcode::I32TruncSatF32S => "i32.trunc_sat_f32_s"@,
            Opcode::I32TruncSatF32U => "i32.trunc_sat_f32_u"@,
            Opcode::I32TruncSatF64S => "i32.trunc_sat_f64_s"@,
            Opcode::I32TruncSatF64U => "i32.trunc_sat_f64_u"@,
            Opcode::I64TruncSatF32S => "i64.trunc_sat_f32_s"@,
            Opcode::I64TruncSatF32U => "i64.trunc_sat_f32_u"@,
            Opcode::I64TruncSatF64S => "i64.trunc_sat_f64_s"@,
            Opcode::I64TruncSatF64U => "i64.trunc_sat_f64_u"@,
            Opcode::I32Extend8S => "i32.extend8_s"@,
            Opcode::I32Extend16S => "i32.extend16_s"@,
            Opcode::I64Extend8S => "i64.extend8_s"@,
            Opcode::I64Extend16S => "i64.extend16_s"@,
            Opcode::I64Extend32S => "i64.extend32_s"@,
            Opcode::ThrowRef => "throw_ref"@,
            Opcode::TryTable => "try_table"@,
            Opcode::Throw => "throw"@,
            Opcode::Try => "try"@,
            Opcode::Catch => "catch"@,
            Opcode::Rethrow => "rethrow"@,
            Opcode::Delegate => "delegate"@,
            Opcode::CatchAll => "catch_all"@,
        }
    }

    /// How an instruction's code is encoded.
    pub open spec fn encoding(self) -> Encoding {
        match self {
            Opcode::Block => Encoding::Byte(0x02),
            Opcode::If => Encoding::Byte(0x04),
            Opcode::Else => Encoding::Byte(0x05),
            Opcode::Loop => Encoding::Byte(0x03),
            Opcode::End => Encoding::Byte(0x0b),
            Opcode::Unreachable => Encoding::Byte(0x00),
            Opcode::Nop => Encoding::Byte(0x01),
            Opcode::Br => Encoding::Byte(0x0c),
            Opcode::BrIf => Encoding::Byte(0x0d),
            Opcode::BrTable => Encoding::Byte(0x0e),
            Opcode::Return => Encoding::Byte(0x0f),
            Opcode::Call => Encoding::Byte(0x10),
            Opcode::CallIndirect => Encoding::Byte(0x11),
            Opcode::ReturnCall => Encoding::Byte(0x12),
            Opcode::ReturnCallIndirect => Encoding::Byte(0x13),
            Opcode::CallRef => Encoding::Byte(0x14),
            Opcode::ReturnCallRef => Encoding::Byte(0x15),
            Opcode::Drop => Encoding::Byte(0x1a),
            Opcode::Select => Encoding::Implied,
            Opcode::LocalGet => Encoding::Byte(0x20),
            Opcode::LocalSet => Encoding::Byte(0x21),
            Opcode::LocalTee => Encoding::Byte(0x22),
            Opcode::GlobalGet => Encoding::Byte(0x23),
            Opcode::GlobalSet => Encoding::Byte(0x24),
            Opcode::TableGet => Encoding::Byte(0x25),
            Opcode::TableSet => Encoding::Byte(0x26),
            Opcode::MemorySize => Encoding::Byte(0x3f),
            Opcode::MemoryGrow => Encoding::Byte(0x40),
            Opcode::MemoryInit => Encoding::Prefixed(0xfc, 0x08),
            Opcode::MemoryCopy => Encoding::Prefixed(0xfc, 0x0a),
            Opcode::MemoryFill => Encoding::Prefixed(0xfc, 0x0b),
            Opcode::MemoryDiscard => Encoding::Prefixed(0xfc, 0x12),
            Opcode::DataDrop => Encoding::Prefixed(0xfc, 0x09),
            Opcode::ElemDrop => Encoding::Prefixed(0xfc, 0x0d),
            Opcode::TableInit => Encoding::Prefixed(0xfc, 0x0c),
            Opcode::TableCopy => Encoding::Prefixed(0xfc, 0x0e),
            Opcode::TableFill => Encoding::Prefixed(0xfc, 0x11),
            Opcode::TableSize => Encoding::Prefixed(0xfc, 0x10),
            Opcode::TableGrow => Encoding::Prefixed(0xfc, 0x0f),
            Opcode::RefNull => Encoding::Byte(0xd0),
            Opcode::RefIsNull => Encoding::Byte(0xd1),
            Opcode::RefFunc => Encoding::Byte(0xd2),
            Opcode::RefAsNonNull => Encoding::Byte(0xd4),
            Opcode::BrOnNull => Encoding::Byte(0xd5),
            Opcode::BrOnNonNull => Encoding::Byte(0xd6),
            Opcode::I32Const => Encoding::Byte(0x41),
            Opcode::I64Const => Encoding::Byte(0x42),
            Opcode::F32Const => Encoding::Byte(0x43),
            Opcode::F64Const => Encoding::Byte(0x44),
            Opcode::I32Clz => Encoding::Byte(0x67),
            Opcode::I32Ctz => Encoding::Byte(0x68),
            Opcode::I32Popcnt => Encoding::Byte(0x69),
            Opcode::I32Add => Encoding::Byte(0x6a),
            Opcode::I32Sub => Encoding::Byte(0x6b),
            Opcode::I32Mul => Encoding::Byte(0x6c),
            Opcode::I32DivS => Encoding::Byte(0x6d),
            Opcode::I32DivU => Encoding::Byte(0x6e),
            Opcode::I32RemS => Encoding::Byte(0x6f),
            Opcode::I32RemU => Encoding::Byte(0x70),
            Opcode::I32And => Encoding::Byte(0x71),
            Opcode::I32Or => Encoding::Byte(0x72),
            Opcode::I32Xor => Encoding::Byte(0x73),
            Opcode::I32Shl => Encoding::Byte(0x74),
            Opcode::I32ShrS => Encoding::Byte(0x75),
            Opcode::I32ShrU => Encoding::Byte(0x76),
            Opcode::I32Rotl => Encoding::Byte(0x77),
            Opcode::I32Rotr => Encoding::Byte(0x78),
            Opcode::I64Clz => Encoding::Byte(0x79),
            Opcode::I64Ctz => Encoding::Byte(0x7a),
            Opcode::I64Popcnt => Encoding::Byte(0x7b),
            Opcode::I64Add => Encoding::Byte(0x7c),
            Opcode::I64Sub => Encoding::Byte(0x7d),
            Opcode::I64Mul => Encoding::Byte(0x7e),
            Opcode::I64DivS => Encoding::Byte(0x7f),
            Opcode::I64DivU => Encoding::Byte(0x80),
            Opcode::I64RemS => Encoding::Byte(0x81),
            Opcode::I64RemU => Encoding::Byte(0x82),
            Opcode::I64And => Encoding::Byte(0x83),
            Opcode::I64Or => Encoding::Byte(0x84),
            Opcode::I64Xor => Encoding::Byte(0x85),
            Opcode::I64Shl => Encoding::Byte(0x86),
            Opcode::I64ShrS => Encoding::Byte(0x87),
            Opcode::I64ShrU => Encoding::Byte(0x88),
            Opcode::I64Rotl => Encoding::Byte(0x89),
            Opcode::I64Rotr => Encoding::Byte(0x8a),
            Opcode::F32Abs => Encoding::Byte(0x8b),
            Opcode::F32Neg => Encoding::Byte(0x8c),
            Opcode::F32Ceil => Encoding::Byte(0x8d),
            Opcode::F32Floor => Encoding::Byte(0x8e),
            Opcode::F32Trunc => Encoding::Byte(0x8f),
            Opcode::F32Nearest => Encoding::Byte(0x90),
            Opcode::F32Sqrt => Encoding::Byte(0x91),
            Opcode::F32Add => Encoding::Byte(0x92),
            Opcode::F32Sub => Encoding::Byte(0x93),
            Opcode::F32Mul => Encoding::Byte(0x94),
            Opcode::F32Div => Encoding::Byte(0x95),
            Opcode::F32Min => Encoding::Byte(0x96),
            Opcode::F32Max => Encoding::Byte(0x97),
            Opcode::F32Copysign => Encoding::Byte(0x98),
            Opcode::F64Abs => Encoding::Byte(0x99),
            Opcode::F64Neg => Encoding::Byte(0x9a),
            Opcode::F64Ceil => Encoding::Byte(0x9b),
            Opcode::F64Floor => Encoding::Byte(0x9c),
            Opcode::F64Trunc => Encoding::Byte(0x9d),
            Opcode::F64Nearest => Encoding::Byte(0x9e),
            Opcode::F64Sqrt => Encoding::Byte(0x9f),
            Opcode::F64Add => Encoding::Byte(0xa0),
            Opcode::F64Sub => Encoding::Byte(0xa1),
            Opcode::F64Mul => Encoding::Byte(0xa2),
            Opcode::F64Div => Encoding::Byte(0xa3),
            Opcode::F64Min => Encoding::Byte(0xa4),
            Opcode::F64Max => Encoding::Byte(0xa5),
            Opcode::F64Copysign => Encoding::Byte(0xa6),
            Opcode::I32Eqz => Encoding::Byte(0x45),
            Opcode::I32Eq => Encoding::Byte(0x46),
            Opcode::I32Ne => Encoding::Byte(0x47),
            Opcode::I32LtS => Encoding::Byte(0x48),
            Opcode::I32LtU => Encoding::Byte(0x49),
            Opcode::I32GtS => Encoding::Byte(0x4a),
            Opcode::I32GtU => Encoding::Byte(0x4b),
            Opcode::I32LeS => Encoding::Byte(0x4c),
            Opcode::I32LeU => Encoding::Byte(0x4d),
            Opcode::I32GeS => Encoding::Byte(0x4e),
            Opcode::I32GeU => Encoding::Byte(0x4f),
            Opcode::I64Eqz => Encoding::Byte(0x50),
            Opcode::I64Eq => Encoding::Byte(0x51),
            Opcode::I64Ne => Encoding::Byte(0x52),
            Opcode::I64LtS => Encoding::Byte(0x53),
            Opcode::I64LtU => Encoding::Byte(0x54),
            Opcode::I64GtS => Encoding::Byte(0x55),
            Opcode::I64GtU => Encoding::Byte(0x56),
            Opcode::I64LeS => Encoding::Byte(0x57),
            Opcode::I64LeU => Encoding::Byte(0x58),
            Opcode::I64GeS => Encoding::Byte(0x59),
            Opcode::I64GeU => Encoding::Byte(0x5a),
            Opcode::F32Eq => Encoding::Byte(0x5b),
            Opcode::F32Ne => Encoding::Byte(0x5c),
            Opcode::F32Lt => Encoding::Byte(0x5d),
            Opcode::F32Gt => Encoding::Byte(0x5e),
            Opcode::F32Le => Encoding::Byte(0x5f),
            Opcode::F32Ge => Encoding::Byte(0x60),
            Opcode::F64Eq => Encoding::Byte(0x61),
            Opcode::F64Ne => Encoding::Byte(0x62),
            Opcode::F64Lt => Encoding::Byte(0x63),
            Opcode::F64Gt => Encoding::Byte(0x64),
            Opcode::F64Le => Encoding::Byte(0x65),
            Opcode::F64Ge => Encoding::Byte(0x66),
            Opcode::I32WrapI64 => Encoding::Byte(0xa7),
            Opcode::I32TruncF32S => Encoding::Byte(0xa8),
            Opcode::I32TruncF32U => Encoding::Byte(0xa9),
            Opcode::I32TruncF64S => Encoding::Byte(0xaa),
            Opcode::I32TruncF64U => Encoding::Byte(0xab),
            Opcode::I64ExtendI32S => Encoding::Byte(0xac),
            Opcode::I64ExtendI32U => Encoding::Byte(0xad),
            Opcode::I64TruncF32S => Encoding::Byte(0xae),
            Opcode::I64TruncF32U => Encoding::Byte(0xaf),
            Opcode::I64TruncF64S => Encoding::Byte(0xb0),
            Opcode::I64TruncF64U => Encoding::Byte(0xb1),
            Opcode::F32ConvertI32S => Encoding::Byte(0xb2),
            Opcode::F32ConvertI32U => Encoding::Byte(0xb3),
            Opcode::F32ConvertI64S => Encoding::Byte(0xb4),
            Opcode::F32ConvertI64U => Encoding::Byte(0xb5),
            Opcode::F32DemoteF64 => Encoding::Byte(0xb6),
            Opcode::F64ConvertI32S => Encoding::Byte(0xb7),
            Opcode::F64ConvertI32U => Encoding::Byte(0xb8),
            Opcode::F64ConvertI64S => Encoding::Byte(0xb9),
            Opcode::F64ConvertI64U => Encoding::Byte(0xba),
            Opcode::F64PromoteF32 => Encoding::Byte(0xbb),
            Opcode::I32ReinterpretF32 => Encoding::Byte(0xbc),
            Opcode::I64ReinterpretF64 => Encoding::Byte(0xbd),
            Opcode::F32ReinterpretI32 => Encoding::Byte(0xbe),
            Opcode::F64ReinterpretI64 => Encoding::Byte(0xbf),
            Opcode::I32TruncSatF32S => Encoding::Prefixed(0xfc, 0x00),
            Opcode::I32TruncSatF32U => Encoding::Prefixed(0xfc, 0x01),
            Opcode::I32TruncSatF64S => Encoding::Prefixed(0xfc, 0x02),
            Opcode::I32TruncSatF64U => Encoding::Prefixed(0xfc, 0x03),
            Opcode::I64TruncSatF32S => Encoding::Prefixed(0xfc, 0x04),
            Opcode::I64TruncSatF32U => Encoding::Prefixed(0xfc, 0x05),
            Opcode::I64TruncSatF64S => Encoding::Prefixed(0xfc, 0x06),
            Opcode::I64TruncSatF64U => Encoding::Prefixed(0xfc, 0x07),
            Opcode::I32Extend8S => Encoding::Byte(0xc0),
            Opcode::I32Extend16S => Encoding::Byte(0xc1),
            Opcode::I64Extend8S => Encoding::Byte(0xc2),
            Opcode::I64Extend16S => Encoding::Byte(0xc3),
            Opcode::I64Extend32S => Encoding::Byte(0xc4),
            Opcode::ThrowRef => Encoding::Byte(0x0a),
            Opcode::TryTable => Encoding::Byte(0x1f),
            Opcode::Throw => Encoding::Byte(0x08),
            Opcode::Try => Encoding::Byte(0x06),
            Opcode::Catch => Encoding::Byte(0x07),
            Opcode::Rethrow => Encoding::Byte(0x09),
            Opcode::Delegate => Encoding::Byte(0x18),
            Opcode::CatchAll => Encoding::Byte(0x19),
        }
    }

    /// What an instruction takes as its operand.
    pub open spec fn operand(self) -> OperandKind {
        match self {
            Opcode::Block => OperandKind::Block,
            Opcode::If => OperandKind::Block,
            Opcode::Else => OperandKind::OptionalId,
            Opcode::Loop => OperandKind::Block,
            Opcode::End => OperandKind::OptionalId,
            Opcode::Br => OperandKind::Index,
            Opcode::BrIf => OperandKind::Index,
            Opcode::BrTable => OperandKind::BrTable,
            Opcode::Call => OperandKind::Index,
            Opcode::CallIndirect => OperandKind::CallIndirect,
            Opcode::ReturnCall => OperandKind::Index,
            Opcode::ReturnCallIndirect => OperandKind::CallIndirect,
            Opcode::CallRef => OperandKind::Index,
            Opcode::ReturnCallRef => OperandKind::Index,
            Opcode::Select => OperandKind::Select,
            Opcode::LocalGet => OperandKind::Index,
            Opcode::LocalSet => OperandKind::Index,
            Opcode::LocalTee => OperandKind::Index,
            Opcode::GlobalGet => OperandKind::Index,
            Opcode::GlobalSet => OperandKind::Index,
            Opcode::TableGet => OperandKind::Table,
            Opcode::TableSet => OperandKind::Table,
            Opcode::MemorySize => OperandKind::Memory,
            Opcode::MemoryGrow => OperandKind::Memory,
            Opcode::MemoryInit => OperandKind::MemoryInit,
            Opcode::MemoryCopy => OperandKind::MemoryCopy,
            Opcode::MemoryFill => OperandKind::Memory,
            Opcode::MemoryDiscard => OperandKind::Memory,
            Opcode::DataDrop => OperandKind::Index,
            Opcode::ElemDrop => OperandKind::Index,
            Opcode::TableInit => OperandKind::TableInit,
            Opcode::TableCopy => OperandKind::TableCopy,
            Opcode::TableFill => OperandKind::Table,
            Opcode::TableSize => OperandKind::Table,
            Opcode::TableGrow => OperandKind::Table,
            Opcode::RefNull => OperandKind::Heap,
            Opcode::RefFunc => OperandKind::Index,
            Opcode::BrOnNull => OperandKind::Index,
            Opcode::BrOnNonNull => OperandKind::Index,
            Opcode::I32Const => OperandKind::I32,
            Opcode::I64Const => OperandKind::I64,
            Opcode::F32Const => OperandKind::F32,
            Opcode::F64Const => OperandKind::F64,
            Opcode::TryTable => OperandKind::TryTable,
            Opcode::Throw => OperandKind::Index,
            Opcode::Try => OperandKind::Block,
            Opcode::Catch => OperandKind::Index,
            Opcode::Rethrow => OperandKind::Index,
            Opcode::Delegate => OperandKind::Index,
            _ => OperandKind::Nothing,
        }
    }

    /// Tells how the instruction's code is encoded.
    pub fn code(self) -> (e: Encoding)
        ensures
            e == self.encoding(),
    {
        match self {
            Opcode::Block => Encoding::Byte(0x02),
            Opcode::If => Encoding::Byte(0x04),
            Opcode::Else => Encoding::Byte(0x05),
            Opcode::Loop => Encoding::Byte(0x03),
            Opcode::End => Encoding::Byte(0x0b),
            Opcode::Unreachable => Encoding::Byte(0x00),
            Opcode::Nop => Encoding::Byte(0x01),
            Opcode::Br => Encoding::Byte(0x0c),
            Opcode::BrIf => Encoding::Byte(0x0d),
            Opcode::BrTable => Encoding::Byte(0x0e),
            Opcode::Return => Encoding::Byte(0x0f),
            Opcode::Call => Encoding::Byte(0x10),
            Opcode::CallIndirect => Encoding::Byte(0x11),
            Opcode::ReturnCall => Encoding::Byte(0x12),
            Opcode::ReturnCallIndirect => Encoding::Byte(0x13),
            Opcode::CallRef => Encoding::Byte(0x14),
            Opcode::ReturnCallRef => Encoding::Byte(0x15),
            Opcode::Drop => Encoding::Byte(0x1a),
            Opcode::Select => Encoding::Implied,
            Opcode::LocalGet => Encoding::Byte(0x20),
            Opcode::LocalSet => Encoding::Byte(0x21),
            Opcode::LocalTee => Encoding::Byte(0x22),
            Opcode::GlobalGet => Encoding::Byte(0x23),
            Opcode::GlobalSet => Encoding::Byte(0x24),
            Opcode::TableGet => Encoding::Byte(0x25),
            Opcode::TableSet => Encoding::Byte(0x26),
            Opcode::MemorySize => Encoding::Byte(0x3f),
            Opcode::MemoryGrow => Encoding::Byte(0x40),
            Opcode::MemoryInit => Encoding::Prefixed(0xfc, 0x08),
            Opcode::MemoryCopy => Encoding::Prefixed(0xfc, 0x0a),
            Opcode::MemoryFill => Encoding::Prefixed(0xfc, 0x0b),
            Opcode::MemoryDiscard => Encoding::Prefixed(0xfc, 0x12),
            Opcode::DataDrop => Encoding::Prefixed(0xfc, 0x09),
            Opcode::ElemDrop => Encoding::Prefixed(0xfc, 0x0d),
            Opcode::TableInit => Encoding::Prefixed(0xfc, 0x0c),
            Opcode::TableCopy => Encoding::Prefixed(0xfc, 0x0e),
            Opcode::TableFill => Encoding::Prefixed(0xfc, 0x11),
            Opcode::TableSize => Encoding::Prefixed(0xfc, 0x10),
            Opcode::TableGrow => Encoding::Prefixed(0xfc, 0x0f),
            Opcode::RefNull => Encoding::Byte(0xd0),
            Opcode::RefIsNull => Encoding::Byte(0xd1),
            Opcode::RefFunc => Encoding::Byte(0xd2),
            Opcode::RefAsNonNull => Encoding::Byte(0xd4),
            Opcode::BrOnNull => Encoding::Byte(0xd5),
            Opcode::BrOnNonNull => Encoding::Byte(0xd6),
            Opcode::I32Const => Encoding::Byte(0x41),
            Opcode::I64Const => Encoding::Byte(0x42),
            Opcode::F32Const => Encoding::Byte(0x43),
            Opcode::F64Const => Encoding::Byte(0x44),
            Opcode::I32Clz => Encoding::Byte(0x67),
            Opcode::I32Ctz => Encoding::Byte(0x68),
            Opcode::I32Popcnt => Encoding::Byte(0x69),
            Opcode::I32Add => Encoding::Byte(0x6a),
            Opcode::I32Sub => Encoding::Byte(0x6b),
            Opcode::I32Mul => Encoding::Byte(0x6c),
            Opcode::I32DivS => Encoding::Byte(0x6d),
            Opcode::I32DivU => Encoding::Byte(0x6e),
            Opcode::I32RemS => Encoding::Byte(0x6f),
            Opcode::I32RemU => Encoding::Byte(0x70),
            Opcode::I32And => Encoding::Byte(0x71),
            Opcode::I32Or => Encoding::Byte(0x72),
            Opcode::I32Xor => Encoding::Byte(0x73),
            Opcode::I32Shl => Encoding::Byte(0x74),
            Opcode::I32ShrS => Encoding::Byte(0x75),
            Opcode::I32ShrU => Encoding::Byte(0x76),
            Opcode::I32Rotl => Encoding::Byte(0x77),
            Opcode::I32Rotr => Encoding::Byte(0x78),
            Opcode::I64Clz => Encoding::Byte(0x79),
            Opcode::I64Ctz => Encoding::Byte(0x7a),
            Opcode::I64Popcnt => Encoding::Byte(0x7b),
            Opcode::I64Add => Encoding::Byte(0x7c),
            Opcode::I64Sub => Encoding::Byte(0x7d),
            Opcode::I64Mul => Encoding::Byte(0x7e),
            Opcode::I64DivS => Encoding::Byte(0x7f),
            Opcode::I64DivU => Encoding::Byte(0x80),
            Opcode::I64RemS => Encoding::Byte(0x81),
            Opcode::I64RemU => Encoding::Byte(0x82),
            Opcode::I64And => Encoding::Byte(0x83),
            Opcode::I64Or => Encoding::Byte(0x84),
            Opcode::I64Xor => Encoding::Byte(0x85),
            Opcode::I64Shl => Encoding::Byte(0x86),
            Opcode::I64ShrS => Encoding::Byte(0x87),
            Opcode::I64ShrU => Encoding::Byte(0x88),
            Opcode::I64Rotl => Encoding::Byte(0x89),
            Opcode::I64Rotr => Encoding::Byte(0x8a),
            Opcode::F32Abs => Encoding::Byte(0x8b),
            Opcode::F32Neg => Encoding::Byte(0x8c),
            Opcode::F32Ceil => Encoding::Byte(0x8d),
            Opcode::F32Floor => Encoding::Byte(0x8e),
            Opcode::F32Trunc => Encoding::Byte(0x8f),
            Opcode::F32Nearest => Encoding::Byte(0x90),
            Opcode::F32Sqrt => Encoding::Byte(0x91),
            Opcode::F32Add => Encoding::Byte(0x92),
            Opcode::F32Sub => Encoding::Byte(0x93),
            Opcode::F32Mul => Encoding::Byte(0x94),
            Opcode::F32Div => Encoding::Byte(0x95),
            Opcode::F32Min => Encoding::Byte(0x96),
            Opcode::F32Max => Encoding::Byte(0x97),
            Opcode::F32Copysign => Encoding::Byte(0x98),
            Opcode::F64Abs => Encoding::Byte(0x99),
            Opcode::F64Neg => Encoding::Byte(0x9a),
            Opcode::F64Ceil => Encoding::Byte(0x9b),
            Opcode::F64Floor => Encoding::Byte(0x9c),
            Opcode::F64Trunc => Encoding::Byte(0x9d),
            Opcode::F64Nearest => Encoding::Byte(0x9e),
            Opcode::F64Sqrt => Encoding::Byte(0x9f),
            Opcode::F64Add => Encoding::Byte(0xa0),
            Opcode::F64Sub => Encoding::Byte(0xa1),
            Opcode::F64Mul => Encoding::Byte(0xa2),
            Opcode::F64Div => Encoding::Byte(0xa3),
            Opcode::F64Min => Encoding::Byte(0xa4),
            Opcode::F64Max => Encoding::Byte(0xa5),
            Opcode::F64Copysign => Encoding::Byte(0xa6),
            Opcode::I32Eqz => Encoding::Byte(0x45),
            Opcode::I32Eq => Encoding::Byte(0x46),
            Opcode::I32Ne => Encoding::Byte(0x47),
            Opcode::I32LtS => Encoding::Byte(0x48),
            Opcode::I32LtU => Encoding::Byte(0x49),
            Opcode::I32GtS => Encoding::Byte(0x4a),
            Opcode::I32GtU => Encoding::Byte(0x4b),
            Opcode::I32LeS => Encoding::Byte(0x4c),
            Opcode::I32LeU => Encoding::Byte(0x4d),
            Opcode::I32GeS => Encoding::Byte(0x4e),
            Opcode::I32GeU => Encoding::Byte(0x4f),
            Opcode::I64Eqz => Encoding::Byte(0x50),
            Opcode::I64Eq => Encoding::Byte(0x51),
            Opcode::I64Ne => Encoding::Byte(0x52),
            Opcode::I64LtS => Encoding::Byte(0x53),
            Opcode::I64LtU => Encoding::Byte(0x54),
            Opcode::I64GtS => Encoding::Byte(0x55),
            Opcode::I64GtU => Encoding::Byte(0x56),
            Opcode::I64LeS => Encoding::Byte(0x57),
            Opcode::I64LeU => Encoding::Byte(0x58),
            Opcode::I64GeS => Encoding::Byte(0x59),
            Opcode::I64GeU => Encoding::Byte(0x5a),
            Opcode::F32Eq => Encoding::Byte(0x5b),
            Opcode::F32Ne => Encoding::Byte(0x5c),
            Opcode::F32Lt => Encoding::Byte(0x5d),
            Opcode::F32Gt => Encoding::Byte(0x5e),
            Opcode::F32Le => Encoding::Byte(0x5f),
            Opcode::F32Ge => Encoding::Byte(0x60),
            Opcode::F64Eq => Encoding::Byte(0x61),
            Opcode::F64Ne => Encoding::Byte(0x62),
            Opcode::F64Lt => Encoding::Byte(0x63),
            Opcode::F64Gt => Encoding::Byte(0x64),
            Opcode::F64Le => Encoding::Byte(0x65),
            Opcode::F64Ge => Encoding::Byte(0x66),
            Opcode::I32WrapI64 => Encoding::Byte(0xa7),
            Opcode::I32TruncF32S => Encoding::Byte(0xa8),
            Opcode::I32TruncF32U => Encoding::Byte(0xa9),
            Opcode::I32TruncF64S => Encoding::Byte(0xaa),
            Opcode::I32TruncF64U => Encoding::Byte(0xab),
            Opcode::I64ExtendI32S => Encoding::Byte(0xac),
            Opcode::I64ExtendI32U => Encoding::Byte(0xad),
            Opcode::I64TruncF32S => Encoding::Byte(0xae),
            Opcode::I64TruncF32U => Encoding::Byte(0xaf),
            Opcode::I64TruncF64S => Encoding::Byte(0xb0),
            Opcode::I64TruncF64U => Encoding::Byte(0xb1),
            Opcode::F32ConvertI32S => Encoding::Byte(0xb2),
            Opcode::F32ConvertI32U => Encoding::Byte(0xb3),
            Opcode::F32ConvertI64S => Encoding::Byte(0xb4),
            Opcode::F32ConvertI64U => Encoding::Byte(0xb5),
            Opcode::F32DemoteF64 => Encoding::Byte(0xb6),
            Opcode::F64ConvertI32S => Encoding::Byte(0xb7),
            Opcode::F64ConvertI32U => Encoding::Byte(0xb8),
            Opcode::F64ConvertI64S => Encoding::Byte(0xb9),
            Opcode::F64ConvertI64U => Encoding::Byte(0xba),
            Opcode::F64PromoteF32 => Encoding::Byte(0xbb),
            Opcode::I32ReinterpretF32 => Encoding::Byte(0xbc),
            Opcode::I64ReinterpretF64 => Encoding::Byte(0xbd),
            Opcode::F32ReinterpretI32 => Encoding::Byte(0xbe),
            Opcode::F64ReinterpretI64 => Encoding::Byte(0xbf),
            Opcode::I32TruncSatF32S => Encoding::Prefixed(0xfc, 0x00),
            Opcode::I32TruncSatF32U => Encoding::Prefixed(0xfc, 0x01),
            Opcode::I32TruncSatF64S => Encoding::Prefixed(0xfc, 0x02),
            Opcode::I32TruncSatF64U => Encoding::Prefixed(0xfc, 0x03),
            Opcode::I64TruncSatF32S => Encoding::Prefixed(0xfc, 0x04),
            Opcode::I64TruncSatF32U => Encoding::Prefixed(0xfc, 0x05),
            Opcode::I64TruncSatF64S => Encoding::Prefixed(0xfc, 0x06),
            Opcode::I64TruncSatF64U => Encoding::Prefixed(0xfc, 0x07),
            Opcode::I32Extend8S => Encoding::Byte(0xc0),
            Opcode::I32Extend16S => Encoding::Byte(0xc1),
            Opcode::I64Extend8S => Encoding::Byte(0xc2),
            Opcode::I64Extend16S => Encoding::Byte(0xc3),
            Opcode::I64Extend32S => Encoding::Byte(0xc4),
            Opcode::ThrowRef => Encoding::Byte(0x0a),
            Opcode::TryTable => Encoding::Byte(0x1f),
            Opcode::Throw => Encoding::Byte(0x08),
            Opcode::Try => Encoding::Byte(0x06),
            Opcode::Catch => Encoding::Byte(0x07),
            Opcode::Rethrow => Encoding::Byte(0x09),
            Opcode::Delegate => Encoding::Byte(0x18),
            Opcode::CatchAll => Encoding::Byte(0x19),
        }
    }

    /// No two instructions are encoded alike.
    pub proof fn lemma_encodings_differ(a: Opcode, b: Opcode)
        requires
            a.encoding() == b.encoding(),
        ensures
            a == b,
    {
    }

    /// No two instructions are written alike.
    #[verifier::rlimit(100)]
    pub proof fn lemma_mnemonics_differ(a: Opcode, b: Opcode)
        requires
            a.mnemonic() == b.mnemonic(),
        ensures
            a == b,
    {
        reveal_strlit("block");
        reveal_strlit("if");
        reveal_strlit("else");
        reveal_strlit("loop");
        reveal_strlit("end");
        reveal_strlit("unreachable");
        reveal_strlit("nop");
        reveal_strlit("br");
        reveal_strlit("br_if");
        reveal_strlit("br_table");
        reveal_strlit("return");
        reveal_strlit("call");
        reveal_strlit("call_indirect");
        reveal_strlit("return_call");
        reveal_strlit("return_call_indirect");
        reveal_strlit("call_ref");
        reveal_strlit("return_call_ref");
        reveal_strlit("drop");
        reveal_strlit("select");
        reveal_strlit("local.get");
        reveal_strlit("local.set");
        reveal_strlit("local.tee");
        reveal_strlit("global.get");
        reveal_strlit("global.set");
        reveal_strlit("table.get");
        reveal_strlit("table.set");
        reveal_strlit("memory.size");
        reveal_strlit("memory.grow");
        reveal_strlit("memory.init");
        reveal_strlit("memory.copy");
        reveal_strlit("memory.fill");
        reveal_strlit("memory.discard");
        reveal_strlit("data.drop");
        reveal_strlit("elem.drop");
        reveal_strlit("table.init");
        reveal_strlit("table.copy");
        reveal_strlit("table.fill");
        reveal_strlit("table.size");
        reveal_strlit("table.grow");
        reveal_strlit("ref.null");
        reveal_strlit("ref.is_null");
        reveal_strlit("ref.func");
        reveal_strlit("ref.as_non_null");
        reveal_strlit("br_on_null");
        reveal_strlit("br_on_non_null");
        reveal_strlit("i32.const");
        reveal_strlit("i64.const");
        reveal_strlit("f32.const");
        reveal_strlit("f64.const");
        reveal_strlit("i32.clz");
        reveal_strlit("i32.ctz");
        reveal_strlit("i32.popcnt");
        reveal_strlit("i32.add");
        reveal_strlit("i32.sub");
        reveal_strlit("i32.mul");
        reveal_strlit("i32.div_s");
        reveal_strlit("i32.div_u");
        reveal_strlit("i32.rem_s");
        reveal_strlit("i32.rem_u");
        reveal_strlit("i32.and");
        reveal_strlit("i32.or");
        reveal_strlit("i32.xor");
        reveal_strlit("i32.shl");
        reveal_strlit("i32.shr_s");
        reveal_strlit("i32.shr_u");
        reveal_strlit("i32.rotl");
        reveal_strlit("i32.rotr");
        reveal_strlit("i64.clz");
        reveal_strlit("i64.ctz");
        reveal_strlit("i64.popcnt");
        reveal_strlit("i64.add");
        reveal_strlit("i64.sub");
        reveal_strlit("i64.mul");
        reveal_strlit("i64.div_s");
        reveal_strlit("i64.div_u");
        reveal_strlit("i64.rem_s");
        reveal_strlit("i64.rem_u");
        reveal_strlit("i64.and");
        reveal_strlit("i64.or");
        reveal_strlit("i64.xor");
        reveal_strlit("i64.shl");
        reveal_strlit("i64.shr_s");
        reveal_strlit("i64.shr_u");
        reveal_strlit("i64.rotl");
        reveal_strlit("i64.rotr");
        reveal_strlit("f32.abs");
        reveal_strlit("f32.neg");
        reveal_strlit("f32.ceil");
        reveal_strlit("f32.floor");
        reveal_strlit("f32.trunc");
        reveal_strlit("f32.nearest");
        reveal_strlit("f32.sqrt");
        reveal_strlit("f32.add");
        reveal_strlit("f32.sub");
        reveal_strlit("f32.mul");
        reveal_strlit("f32.div");
        reveal_strlit("f32.min");
        reveal_strlit("f32.max");
        reveal_strlit("f32.copysign");
        reveal_strlit("f64.abs");
        reveal_strlit("f64.neg");
        reveal_strlit("f64.ceil");
        reveal_strlit("f64.floor");
        reveal_strlit("f64.trunc");
        reveal_strlit("f64.nearest");
        reveal_strlit("f64.sqrt");
        reveal_strlit("f64.add");
        reveal_strlit("f64.sub");
        reveal_strlit("f64.mul");
        reveal_strlit("f64.div");
        reveal_strlit("f64.min");
        reveal_strlit("f64.max");
        reveal_strlit("f64.copysign");
        reveal_strlit("i32.eqz");
        reveal_strlit("i32.eq");
        reveal_strlit("i32.ne");
        reveal_strlit("i32.lt_s");
        reveal_strlit("i32.lt_u");
        reveal_strlit("i32.gt_s");
        reveal_strlit("i32.gt_u");
        reveal_strlit("i32.le_s");
        reveal_strlit("i32.le_u");
        reveal_strlit("i32.ge_s");
        reveal_strlit("i32.ge_u");
        reveal_strlit("i64.eqz");
        reveal_strlit("i64.eq");
        reveal_strlit("i64.ne");
        reveal_strlit("i64.lt_s");
        reveal_strlit("i64.lt_u");
        reveal_strlit("i64.gt_s");
        reveal_strlit("i64.gt_u");
        reveal_strlit("i64.le_s");
        reveal_strlit("i64.le_u");
        reveal_strlit("i64.ge_s");
        reveal_strlit("i64.ge_u");
        reveal_strlit("f32.eq");
        reveal_strlit("f32.ne");
        reveal_strlit("f32.lt");
        reveal_strlit("f32.gt");
        reveal_strlit("f32.le");
        reveal_strlit("f32.ge");
        reveal_strlit("f64.eq");
        reveal_strlit("f64.ne");
        reveal_strlit("f64.lt");
        reveal_strlit("f64.gt");
        reveal_strlit("f64.le");
        reveal_strlit("f64.ge");
        reveal_strlit("i32.wrap_i64");
        reveal_strlit("i32.trunc_f32_s");
        reveal_strlit("i32.trunc_f32_u");
        reveal_strlit("i32.trunc_f64_s");
        reveal_strlit("i32.trunc_f64_u");
        reveal_strlit("i64.extend_i32_s");
        reveal_strlit("i64.extend_i32_u");
        reveal_strlit("i64.trunc_f32_s");
        reveal_strlit("i64.trunc_f32_u");
        reveal_strlit("i64.trunc_f64_s");
        reveal_strlit("i64.trunc_f64_u");
        reveal_strlit("f32.convert_i32_s");
        reveal_strlit("f32.convert_i32_u");
        reveal_strlit("f32.convert_i64_s");
        reveal_strlit("f32.convert_i64_u");
        reveal_strlit("f32.demote_f64");
        reveal_strlit("f64.convert_i32_s");
        reveal_strlit("f64.convert_i32_u");
        reveal_strlit("f64.convert_i64_s");
        reveal_strlit("f64.convert_i64_u");
        reveal_strlit("f64.promote_f32");
        reveal_strlit("i32.reinterpret_f32");
        reveal_strlit("i64.reinterpret_f64");
        reveal_strlit("f32.reinterpret_i32");
        reveal_strlit("f64.reinterpret_i64");
        reveal_strlit("i32.trunc_sat_f32_s");
        reveal_strlit("i32.trunc_sat_f32_u");
        reveal_strlit("i32.trunc_sat_f64_s");
        reveal_strlit("i32.trunc_sat_f64_u");
        reveal_strlit("i64.trunc_sat_f32_s");
        reveal_strlit("i64.trunc_sat_f32_u");
        reveal_strlit("i64.trunc_sat_f64_s");
        reveal_strlit("i64.trunc_sat_f64_u");
        reveal_strlit("i32.extend8_s");
        reveal_strlit("i32.extend16_s");
        reveal_strlit("i64.extend8_s");
        reveal_strlit("i64.extend16_s");
        reveal_strlit("i64.extend32_s");
        reveal_strlit("throw_ref");
        reveal_strlit("try_table");
        reveal_strlit("throw");
        reveal_strlit("try");
        reveal_strlit("catch");
        reveal_strlit("rethrow");
        reveal_strlit("delegate");
        reveal_strlit("catch_all");
        let (x, y) = (a.mnemonic(), b.mnemonic());
        assert(x.len() == y.len());
        assert(x[0] == y[0]);
        assert(x[1] == y[1]);
        assert(x[2] == y[2]);
        assert(x[3] == y[3]);
        assert(x[4] == y[4]);
        assert(x[5] == y[5]);
        assert(x[6] == y[6]);
        assert(x[7] == y[7]);
        assert(x[8] == y[8]);
        assert(x[9] == y[9]);
        assert(x[10] == y[10]);
        assert(x[11] == y[11]);
        assert(x[12] == y[12]);
        assert(x[13] == y[13]);
        assert(x[14] == y[14]);
        assert(x[15] == y[15]);
        assert(x[16] == y[16]);
        assert(x[17] == y[17]);
        assert(x[18] == y[18]);
        assert(x[19] == y[19]);
    }

    /// No instruction is written as a keyword that starts or fills an operand, nor as
    /// one that starts an arm of a conditional.
    #[verifier::rlimit(100)]
    pub proof fn lemma_mnemonic_is_no_operand(op: Opcode)
        ensures
            op.mnemonic() != "type"@,
            op.mnemonic() != "param"@,
            op.mnemonic() != "result"@,
            op.mnemonic() != "then"@,
            op.mnemonic().len() > 0,
            op.mnemonic()[0] != 'o' && op.mnemonic()[0] != 'a',
    {
        reveal_strlit("type");
        reveal_strlit("param");
        reveal_strlit("result");
        reveal_strlit("then");
        reveal_strlit("block");
        reveal_strlit("if");
        reveal_strlit("else");
        reveal_strlit("loop");
        reveal_strlit("end");
        reveal_strlit("unreachable");
        reveal_strlit("nop");
        reveal_strlit("br");
        reveal_strlit("br_if");
        reveal_strlit("br_table");
        reveal_strlit("return");
        reveal_strlit("call");
        reveal_strlit("call_indirect");
        reveal_strlit("return_call");
        reveal_strlit("return_call_indirect");
        reveal_strlit("call_ref");
        reveal_strlit("return_call_ref");
        reveal_strlit("drop");
        reveal_strlit("select");
        reveal_strlit("local.get");
        reveal_strlit("local.set");
        reveal_strlit("local.tee");
        reveal_strlit("global.get");
        reveal_strlit("global.set");
        reveal_strlit("table.get");
        reveal_strlit("table.set");
        reveal_strlit("memory.size");
        reveal_strlit("memory.grow");
        reveal_strlit("memory.init");
        reveal_strlit("memory.copy");
        reveal_strlit("memory.fill");
        reveal_strlit("memory.discard");
        reveal_strlit("data.drop");
        reveal_strlit("elem.drop");
        reveal_strlit("table.init");
        reveal_strlit("table.copy");
        reveal_strlit("table.fill");
        reveal_strlit("table.size");
        reveal_strlit("table.grow");
        reveal_strlit("ref.null");
        reveal_strlit("ref.is_null");
        reveal_strlit("ref.func");
        reveal_strlit("ref.as_non_null");
        reveal_strlit("br_on_null");
        reveal_strlit("br_on_non_null");
        reveal_strlit("i32.const");
        reveal_strlit("i64.const");
        reveal_strlit("f32.const");
        reveal_strlit("f64.const");
        reveal_strlit("i32.clz");
        reveal_strlit("i32.ctz");
        reveal_strlit("i32.popcnt");
        reveal_strlit("i32.add");
        reveal_strlit("i32.sub");
        reveal_strlit("i32.mul");
        reveal_strlit("i32.div_s");
        reveal_strlit("i32.div_u");
        reveal_strlit("i32.rem_s");
        reveal_strlit("i32.rem_u");
        reveal_strlit("i32.and");
        reveal_strlit("i32.or");
        reveal_strlit("i32.xor");
        reveal_strlit("i32.shl");
        reveal_strlit("i32.shr_s");
        reveal_strlit("i32.shr_u");
        reveal_strlit("i32.rotl");
        reveal_strlit("i32.rotr");
        reveal_strlit("i64.clz");
        reveal_strlit("i64.ctz");
        reveal_strlit("i64.popcnt");
        reveal_strlit("i64.add");
        reveal_strlit("i64.sub");
        reveal_strlit("i64.mul");
        reveal_strlit("i64.div_s");
        reveal_strlit("i64.div_u");
        reveal_strlit("i64.rem_s");
        reveal_strlit("i64.rem_u");
        reveal_strlit("i64.and");
        reveal_strlit("i64.or");
        reveal_strlit("i64.xor");
        reveal_strlit("i64.shl");
        reveal_strlit("i64.shr_s");
        reveal_strlit("i64.shr_u");
        reveal_strlit("i64.rotl");
        reveal_strlit("i64.rotr");
        reveal_strlit("f32.abs");
        reveal_strlit("f32.neg");
        reveal_strlit("f32.ceil");
        reveal_strlit("f32.floor");
        reveal_strlit("f32.trunc");
        reveal_strlit("f32.nearest");
        reveal_strlit("f32.sqrt");
        reveal_strlit("f32.add");
        reveal_strlit("f32.sub");
        reveal_strlit("f32.mul");
        reveal_strlit("f32.div");
        reveal_strlit("f32.min");
        reveal_strlit("f32.max");
        reveal_strlit("f32.copysign");
        reveal_strlit("f64.abs");
        reveal_strlit("f64.neg");
        reveal_strlit("f64.ceil");
        reveal_strlit("f64.floor");
        reveal_strlit("f64.trunc");
        reveal_strlit("f64.nearest");
        reveal_strlit("f64.sqrt");
        reveal_strlit("f64.add");
        reveal_strlit("f64.sub");
        reveal_strlit("f64.mul");
        reveal_strlit("f64.div");
        reveal_strlit("f64.min");
        reveal_strlit("f64.max");
        reveal_strlit("f64.copysign");
        reveal_strlit("i32.eqz");
        reveal_strlit("i32.eq");
        reveal_strlit("i32.ne");
        reveal_strlit("i32.lt_s");
        reveal_strlit("i32.lt_u");
        reveal_strlit("i32.gt_s");
        reveal_strlit("i32.gt_u");
        reveal_strlit("i32.le_s");
        reveal_strlit("i32.le_u");
        reveal_strlit("i32.ge_s");
        reveal_strlit("i32.ge_u");
        reveal_strlit("i64.eqz");
        reveal_strlit("i64.eq");
        reveal_strlit("i64.ne");
        reveal_strlit("i64.lt_s");
        reveal_strlit("i64.lt_u");
        reveal_strlit("i64.gt_s");
        reveal_strlit("i64.gt_u");
        reveal_strlit("i64.le_s");
        reveal_strlit("i64.le_u");
        reveal_strlit("i64.ge_s");
        reveal_strlit("i64.ge_u");
        reveal_strlit("f32.eq");
        reveal_strlit("f32.ne");
        reveal_strlit("f32.lt");
        reveal_strlit("f32.gt");
        reveal_strlit("f32.le");
        reveal_strlit("f32.ge");
        reveal_strlit("f64.eq");
        reveal_strlit("f64.ne");
        reveal_strlit("f64.lt");
        reveal_strlit("f64.gt");
        reveal_strlit("f64.le");
        reveal_strlit("f64.ge");
        reveal_strlit("i32.wrap_i64");
        reveal_strlit("i32.trunc_f32_s");
        reveal_strlit("i32.trunc_f32_u");
        reveal_strlit("i32.trunc_f64_s");
        reveal_strlit("i32.trunc_f64_u");
        reveal_strlit("i64.extend_i32_s");
        reveal_strlit("i64.extend_i32_u");
        reveal_strlit("i64.trunc_f32_s");
        reveal_strlit("i64.trunc_f32_u");
        reveal_strlit("i64.trunc_f64_s");
        reveal_strlit("i64.trunc_f64_u");
        reveal_strlit("f32.convert_i32_s");
        reveal_strlit("f32.convert_i32_u");
        reveal_strlit("f32.convert_i64_s");
        reveal_strlit("f32.convert_i64_u");
        reveal_strlit("f32.demote_f64");
        reveal_strlit("f64.convert_i32_s");
        reveal_strlit("f64.convert_i32_u");
        reveal_strlit("f64.convert_i64_s");
        reveal_strlit("f64.convert_i64_u");
        reveal_strlit("f64.promote_f32");
        reveal_strlit("i32.reinterpret_f32");
        reveal_strlit("i64.reinterpret_f64");
        reveal_strlit("f32.reinterpret_i32");
        reveal_strlit("f64.reinterpret_i64");
        reveal_strlit("i32.trunc_sat_f32_s");
        reveal_strlit("i32.trunc_sat_f32_u");
        reveal_strlit("i32.trunc_sat_f64_s");
        reveal_strlit("i32.trunc_sat_f64_u");
        reveal_strlit("i64.trunc_sat_f32_s");
        reveal_strlit("i64.trunc_sat_f32_u");
        reveal_strlit("i64.trunc_sat_f64_s");
        reveal_strlit("i64.trunc_sat_f64_u");
        reveal_strlit("i32.extend8_s");
        reveal_strlit("i32.extend16_s");
        reveal_strlit("i64.extend8_s");
        reveal_strlit("i64.extend16_s");
        reveal_strlit("i64.extend32_s");
        reveal_strlit("throw_ref");
        reveal_strlit("try_table");
        reveal_strlit("throw");
        reveal_strlit("try");
        reveal_strlit("catch");
        reveal_strlit("rethrow");
        reveal_strlit("delegate");
        reveal_strlit("catch_all");
        let word = op.mnemonic();
        assert(word.len() > 0 && word[0] != 'o' && word[0] != 'a' && word[0] != 'p');
        assert(word.len() != 4 || word[0] != 't' || word[1] != 'y' && word[1] != 'h');
        assert(word.len() != 6 || word[0] != 'r' || word[1] != 'e' || word[2] != 's');
    }

    /// The instruction that a keyword names.
    pub open spec fn named(word: Seq<char>) -> Option<Opcode> {
        if exists|op: Opcode| op.mnemonic() == word {
            Some(choose|op: Opcode| op.mnemonic() == word)
        } else {
            None
        }
    }

    /// A keyword names the instruction that is written with it.
    pub proof fn lemma_named(op: Opcode)
        ensures
            Opcode::named(op.mnemonic()) == Some(op),
    {
        let named = choose|o: Opcode| o.mnemonic() == op.mnemonic();
        Opcode::lemma_mnemonics_differ(op, named);
    }

    /// Finds the instruction that a keyword names; see [`Opcode::named`].
    pub fn find(word: &str) -> (op: Option<Opcode>)
        ensures
            op == Opcode::named(word@),
    {
        let found = Opcode::scan(word);
        proof {
            if let Some(op) = found {
                Opcode::lemma_named(op);
            }
        }
        found
    }

    #[verifier::rlimit(100)]
    fn scan(word: &str) -> (op: Option<Opcode>)
        ensures
            match op {
                Some(op) => op.mnemonic() == word@,
                None => forall|op: Opcode| op.mnemonic() != word@,
            },
    {
        if same_text(word, "block") {
            return Some(Opcode::Block);
        }
        if same_text(word, "if") {
            return Some(Opcode::If);
        }
        if same_text(word, "else") {
            return Some(Opcode::Else);
        }
        if same_text(word, "loop") {
            return Some(Opcode::Loop);
        }
        if same_text(word, "end") {
            return Some(Opcode::End);
        }
        if same_text(word, "unreachable") {
            return Some(Opcode::Unreachable);
        }
        if same_text(word, "nop") {
            return Some(Opcode::Nop);
        }
        if same_text(word, "br") {
            return Some(Opcode::Br);
        }
        if same_text(word, "br_if") {
            return Some(Opcode::BrIf);
        }
        if same_text(word, "br_table") {
            return Some(Opcode::BrTable);
        }
        if same_text(word, "return") {
            return Some(Opcode::Return);
        }
        if same_text(word, "call") {
            return Some(Opcode::Call);
        }
        if same_text(word, "call_indirect") {
            return Some(Opcode::CallIndirect);
        }
        if same_text(word, "return_call") {
            return Some(Opcode::ReturnCall);
        }
        if same_text(word, "return_call_indirect") {
            return Some(Opcode::ReturnCallIndirect);
        }
        if same_text(word, "call_ref") {
            return Some(Opcode::CallRef);
        }
        if same_text(word, "return_call_ref") {
            return Some(Opcode::ReturnCallRef);
        }
        if same_text(word, "drop") {
            return Some(Opcode::Drop);
        }
        if same_text(word, "select") {
            return Some(Opcode::Select);
        }
        if same_text(word, "local.get") {
            return Some(Opcode::LocalGet);
        }
        if same_text(word, "local.set") {
            return Some(Opcode::LocalSet);
        }
        if same_text(word, "local.tee") {
            return Some(Opcode::LocalTee);
        }
        if same_text(word, "global.get") {
            return Some(Opcode::GlobalGet);
        }
        if same_text(word, "global.set") {
            return Some(Opcode::GlobalSet);
        }
        if same_text(word, "table.get") {
            return Some(Opcode::TableGet);
        }
        if same_text(word, "table.set") {
            return Some(Opcode::TableSet);
        }
        if same_text(word, "memory.size") {
            return Some(Opcode::MemorySize);
        }
        if same_text(word, "memory.grow") {
            return Some(Opcode::MemoryGrow);
        }
        if same_text(word, "memory.init") {
            return Some(Opcode::MemoryInit);
        }
        if same_text(word, "memory.copy") {
            return Some(Opcode::MemoryCopy);
        }
        if same_text(word, "memory.fill") {
            return Some(Opcode::MemoryFill);
        }
        if same_text(word, "memory.discard") {
            return Some(Opcode::MemoryDiscard);
        }
        if same_text(word, "data.drop") {
            return Some(Opcode::DataDrop);
        }
        if same_text(word, "elem.drop") {
            return Some(Opcode::ElemDrop);
        }
        if same_text(word, "table.init") {
            return Some(Opcode::TableInit);
        }
        if same_text(word, "table.copy") {
            return Some(Opcode::TableCopy);
        }
        if same_text(word, "table.fill") {
            return Some(Opcode::TableFill);
        }
        if same_text(word, "table.size") {
            return Some(Opcode::TableSize);
        }
        if same_text(word, "table.grow") {
            return Some(Opcode::TableGrow);
        }
        if same_text(word, "ref.null") {
            return Some(Opcode::RefNull);
        }
        if same_text(word, "ref.is_null") {
            return Some(Opcode::RefIsNull);
        }
        if same_text(word, "ref.func") {
            return Some(Opcode::RefFunc);
        }
        if same_text(word, "ref.as_non_null") {
            return Some(Opcode::RefAsNonNull);
        }
        if same_text(word, "br_on_null") {
            return Some(Opcode::BrOnNull);
        }
        if same_text(word, "br_on_non_null") {
            return Some(Opcode::BrOnNonNull);
        }
        if same_text(word, "i32.const") {
            return Some(Opcode::I32Const);
        }
        if same_text(word, "i64.const") {
            return Some(Opcode::I64Const);
        }
        if same_text(word, "f32.const") {
            return Some(Opcode::F32Const);
        }
        if same_text(word, "f64.const") {
            return Some(Opcode::F64Const);
        }
        if same_text(word, "i32.clz") {
            return Some(Opcode::I32Clz);
        }
        if same_text(word, "i32.ctz") {
            return Some(Opcode::I32Ctz);
        }
        if same_text(word, "i32.popcnt") {
            return Some(Opcode::I32Popcnt);
        }
        if same_text(word, "i32.add") {
            return Some(Opcode::I32Add);
        }
        if same_text(word, "i32.sub") {
            return Some(Opcode::I32Sub);
        }
        if same_text(word, "i32.mul") {
            return Some(Opcode::I32Mul);
        }
        if same_text(word, "i32.div_s") {
            return Some(Opcode::I32DivS);
        }
        if same_text(word, "i32.div_u") {
            return Some(Opcode::I32DivU);
        }
        if same_text(word, "i32.rem_s") {
            return Some(Opcode::I32RemS);
        }
        if same_text(word, "i32.rem_u") {
            return Some(Opcode::I32RemU);
        }
        if same_text(word, "i32.and") {
            return Some(Opcode::I32And);
        }
        if same_text(word, "i32.or") {
            return Some(Opcode::I32Or);
        }
        if same_text(word, "i32.xor") {
            return Some(Opcode::I32Xor);
        }
        if same_text(word, "i32.shl") {
            return Some(Opcode::I32Shl);
        }
        if same_text(word, "i32.shr_s") {
            return Some(Opcode::I32ShrS);
        }
        if same_text(word, "i32.shr_u") {
            return Some(Opcode::I32ShrU);
        }
        if same_text(word, "i32.rotl") {
            return Some(Opcode::I32Rotl);
        }
        if same_text(word, "i32.rotr") {
            return Some(Opcode::I32Rotr);
        }
        if same_text(word, "i64.clz") {
            return Some(Opcode::I64Clz);
        }
        if same_text(word, "i64.ctz") {
            return Some(Opcode::I64Ctz);
        }
        if same_text(word, "i64.popcnt") {
            return Some(Opcode::I64Popcnt);
        }
        if same_text(word, "i64.add") {
            return Some(Opcode::I64Add);
        }
        if same_text(word, "i64.sub") {
            return Some(Opcode::I64Sub);
        }
        if same_text(word, "i64.mul") {
            return Some(Opcode::I64Mul);
        }
        if same_text(word, "i64.div_s") {
            return Some(Opcode::I64DivS);
        }
        if same_text(word, "i64.div_u") {
            return Some(Opcode::I64DivU);
        }
        if same_text(word, "i64.rem_s") {
            return Some(Opcode::I64RemS);
        }
        if same_text(word, "i64.rem_u") {
            return Some(Opcode::I64RemU);
        }
        if same_text(word, "i64.and") {
            return Some(Opcode::I64And);
        }
        if same_text(word, "i64.or") {
            return Some(Opcode::I64Or);
        }
        if same_text(word, "i64.xor") {
            return Some(Opcode::I64Xor);
        }
        if same_text(word, "i64.shl") {
            return Some(Opcode::I64Shl);
        }
        if same_text(word, "i64.shr_s") {
            return Some(Opcode::I64ShrS);
        }
        if same_text(word, "i64.shr_u") {
            return Some(Opcode::I64ShrU);
        }
        if same_text(word, "i64.rotl") {
            return Some(Opcode::I64Rotl);
        }
        if same_text(word, "i64.rotr") {
            return Some(Opcode::I64Rotr);
        }
        if same_text(word, "f32.abs") {
            return Some(Opcode::F32Abs);
        }
        if same_text(word, "f32.neg") {
            return Some(Opcode::F32Neg);
        }
        if same_text(word, "f32.ceil") {
            return Some(Opcode::F32Ceil);
        }
        if same_text(word, "f32.floor") {
            return Some(Opcode::F32Floor);
        }
        if same_text(word, "f32.trunc") {
            return Some(Opcode::F32Trunc);
        }
        if same_text(word, "f32.nearest") {
            return Some(Opcode::F32Nearest);
        }
        if same_text(word, "f32.sqrt") {
            return Some(Opcode::F32Sqrt);
        }
        if same_text(word, "f32.add") {
            return Some(Opcode::F32Add);
        }
        if same_text(word, "f32.sub") {
            return Some(Opcode::F32Sub);
        }
        if same_text(word, "f32.mul") {
            return Some(Opcode::F32Mul);
        }
        if same_text(word, "f32.div") {
            return Some(Opcode::F32Div);
        }
        if same_text(word, "f32.min") {
            return Some(Opcode::F32Min);
        }
        if same_text(word, "f32.max") {
            return Some(Opcode::F32Max);
        }
        if same_text(word, "f32.copysign") {
            return Some(Opcode::F32Copysign);
        }
        if same_text(word, "f64.abs") {
            return Some(Opcode::F64Abs);
        }
        if same_text(word, "f64.neg") {
            return Some(Opcode::F64Neg);
        }
        if same_text(word, "f64.ceil") {
            return Some(Opcode::F64Ceil);
        }
        if same_text(word, "f64.floor") {
            return Some(Opcode::F64Floor);
        }
        if same_text(word, "f64.trunc") {
            return Some(Opcode::F64Trunc);
        }
        if same_text(word, "f64.nearest") {
            return Some(Opcode::F64Nearest);
        }
        if same_text(word, "f64.sqrt") {
            return Some(Opcode::F64Sqrt);
        }
        if same_text(word, "f64.add") {
            return Some(Opcode::F64Add);
        }
        if same_text(word, "f64.sub") {
            return Some(Opcode::F64Sub);
        }
        if same_text(word, "f64.mul") {
            return Some(Opcode::F64Mul);
        }
        if same_text(word, "f64.div") {
            return Some(Opcode::F64Div);
        }
        if same_text(word, "f64.min") {
            return Some(Opcode::F64Min);
        }
        if same_text(word, "f64.max") {
            return Some(Opcode::F64Max);
        }
        if same_text(word, "f64.copysign") {
            return Some(Opcode::F64Copysign);
        }
        if same_text(word, "i32.eqz") {
            return Some(Opcode::I32Eqz);
        }
        if same_text(word, "i32.eq") {
            return Some(Opcode::I32Eq);
        }
        if same_text(word, "i32.ne") {
            return Some(Opcode::I32Ne);
        }
        if same_text(word, "i32.lt_s") {
            return Some(Opcode::I32LtS);
        }
        if same_text(word, "i32.lt_u") {
            return Some(Opcode::I32LtU);
        }
        if same_text(word, "i32.gt_s") {
            return Some(Opcode::I32GtS);
        }
        if same_text(word, "i32.gt_u") {
            return Some(Opcode::I32GtU);
        }
        if same_text(word, "i32.le_s") {
            return Some(Opcode::I32LeS);
        }
        if same_text(word, "i32.le_u") {
            return Some(Opcode::I32LeU);
        }
        if same_text(word, "i32.ge_s") {
            return Some(Opcode::I32GeS);
        }
        if same_text(word, "i32.ge_u") {
            return Some(Opcode::I32GeU);
        }
        if same_text(word, "i64.eqz") {
            return Some(Opcode::I64Eqz);
        }
        if same_text(word, "i64.eq") {
            return Some(Opcode::I64Eq);
        }
        if same_text(word, "i64.ne") {
            return Some(Opcode::I64Ne);
        }
        if same_text(word, "i64.lt_s") {
            return Some(Opcode::I64LtS);
        }
        if same_text(word, "i64.lt_u") {
            return Some(Opcode::I64LtU);
        }
        if same_text(word, "i64.gt_s") {
            return Some(Opcode::I64GtS);
        }
        if same_text(word, "i64.gt_u") {
            return Some(Opcode::I64GtU);
        }
        if same_text(word, "i64.le_s") {
            return Some(Opcode::I64LeS);
        }
        if same_text(word, "i64.le_u") {
            return Some(Opcode::I64LeU);
        }
        if same_text(word, "i64.ge_s") {
            return Some(Opcode::I64GeS);
        }
        if same_text(word, "i64.ge_u") {
            return Some(Opcode::I64GeU);
        }
        if same_text(word, "f32.eq") {
            return Some(Opcode::F32Eq);
        }
        if same_text(word, "f32.ne") {
            return Some(Opcode::F32Ne);
        }
        if same_text(word, "f32.lt") {
            return Some(Opcode::F32Lt);
        }
        if same_text(word, "f32.gt") {
            return Some(Opcode::F32Gt);
        }
        if same_text(word, "f32.le") {
            return Some(Opcode::F32Le);
        }
        if same_text(word, "f32.ge") {
            return Some(Opcode::F32Ge);
        }
        if same_text(word, "f64.eq") {
            return Some(Opcode::F64Eq);
        }
        if same_text(word, "f64.ne") {
            return Some(Opcode::F64Ne);
        }
        if same_text(word, "f64.lt") {
            return Some(Opcode::F64Lt);
        }
        if same_text(word, "f64.gt") {
            return Some(Opcode::F64Gt);
        }
        if same_text(word, "f64.le") {
            return Some(Opcode::F64Le);
        }
        if same_text(word, "f64.ge") {
            return Some(Opcode::F64Ge);
        }
        if same_text(word, "i32.wrap_i64") {
            return Some(Opcode::I32WrapI64);
        }
        if same_text(word, "i32.trunc_f32_s") {
            return Some(Opcode::I32TruncF32S);
        }
        if same_text(word, "i32.trunc_f32_u") {
            return Some(Opcode::I32TruncF32U);
        }
        if same_text(word, "i32.trunc_f64_s") {
            return Some(Opcode::I32TruncF64S);
        }
        if same_text(word, "i32.trunc_f64_u") {
            return Some(Opcode::I32TruncF64U);
        }
        if same_text(word, "i64.extend_i32_s") {
            return Some(Opcode::I64ExtendI32S);
        }
        if same_text(word, "i64.extend_i32_u") {
            return Some(Opcode::I64ExtendI32U);
        }
        if same_text(word, "i64.trunc_f32_s") {
            return Some(Opcode::I64TruncF32S);
        }
        if same_text(word, "i64.trunc_f32_u") {
            return Some(Opcode::I64TruncF32U);
        }
        if same_text(word, "i64.trunc_f64_s") {
            return Some(Opcode::I64TruncF64S);
        }
        if same_text(word, "i64.trunc_f64_u") {
            return Some(Opcode::I64TruncF64U);
        }
        if same_text(word, "f32.convert_i32_s") {
            return Some(Opcode::F32ConvertI32S);
        }
        if same_text(word, "f32.convert_i32_u") {
            return Some(Opcode::F32ConvertI32U);
        }
        if same_text(word, "f32.convert_i64_s") {
            return Some(Opcode::F32ConvertI64S);
        }
        if same_text(word, "f32.convert_i64_u") {
            return Some(Opcode::F32ConvertI64U);
        }
        if same_text(word, "f32.demote_f64") {
            return Some(Opcode::F32DemoteF64);
        }
        if same_text(word, "f64.convert_i32_s") {
            return Some(Opcode::F64ConvertI32S);
        }
        if same_text(word, "f64.convert_i32_u") {
            return Some(Opcode::F64ConvertI32U);
        }
        if same_text(word, "f64.convert_i64_s") {
            return Some(Opcode::F64ConvertI64S);
        }
        if same_text(word, "f64.convert_i64_u") {
            return Some(Opcode::F64ConvertI64U);
        }
        if same_text(word, "f64.promote_f32") {
            return Some(Opcode::F64PromoteF32);
        }
        if same_text(word, "i32.reinterpret_f32") {
            return Some(Opcode::I32ReinterpretF32);
        }
        if same_text(word, "i64.reinterpret_f64") {
            return Some(Opcode::I64ReinterpretF64);
        }
        if same_text(word, "f32.reinterpret_i32") {
            return Some(Opcode::F32ReinterpretI32);
        }
        if same_text(word, "f64.reinterpret_i64") {
            return Some(Opcode::F64ReinterpretI64);
        }
        if same_text(word, "i32.trunc_sat_f32_s") {
            return Some(Opcode::I32TruncSatF32S);
        }
        if same_text(word, "i32.trunc_sat_f32_u") {
            return Some(Opcode::I32TruncSatF32U);
        }
        if same_text(word, "i32.trunc_sat_f64_s") {
            return Some(Opcode::I32TruncSatF64S);
        }
        if same_text(word, "i32.trunc_sat_f64_u") {
            return Some(Opcode::I32TruncSatF64U);
        }
        if same_text(word, "i64.trunc_sat_f32_s") {
            return Some(Opcode::I64TruncSatF32S);
        }
        if same_text(word, "i64.trunc_sat_f32_u") {
            return Some(Opcode::I64TruncSatF32U);
        }
        if same_text(word, "i64.trunc_sat_f64_s") {
            return Some(Opcode::I64TruncSatF64S);
        }
        if same_text(word, "i64.trunc_sat_f64_u") {
            return Some(Opcode::I64TruncSatF64U);
        }
        if same_text(word, "i32.extend8_s") {
            return Some(Opcode::I32Extend8S);
        }
        if same_text(word, "i32.extend16_s") {
            return Some(Opcode::I32Extend16S);
        }
        if same_text(word, "i64.extend8_s") {
            return Some(Opcode::I64Extend8S);
        }
        if same_text(word, "i64.extend16_s") {
            return Some(Opcode::I64Extend16S);
        }
        if same_text(word, "i64.extend32_s") {
            return Some(Opcode::I64Extend32S);
        }
        if same_text(word, "throw_ref") {
            return Some(Opcode::ThrowRef);
        }
        if same_text(word, "try_table") {
            return Some(Opcode::TryTable);
        }
        if same_text(word, "throw") {
            return Some(Opcode::Throw);
        }
        if same_text(word, "try") {
            return Some(Opcode::Try);
        }
        if same_text(word, "catch") {
            return Some(Opcode::Catch);
        }
        if same_text(word, "rethrow") {
            return Some(Opcode::Rethrow);
        }
        if same_text(word, "delegate") {
            return Some(Opcode::Delegate);
        }
        if same_text(word, "catch_all") {
            return Some(Opcode::CatchAll);
        }
        None
    }
}

/// The instructions that access a memory, without their operands.
#[derive(Clone, Copy, Debug, PartialEq, Eq, Structural)]
pub enum MemoryOpcode {
    I32Load,
    I64Load,
    F32Load,
    F64Load,
    I32Load8s,
    I32Load8u,
    I32Load16s,
    I32Load16u,
    I64Load8s,
    I64Load8u,
    I64Load16s,
    I64Load16u,
    I64Load32s,
    I64Load32u,
    I32Store,
    I64Store,
    F32Store,
    F64Store,
    I32Store8,
    I32Store16,
    I64Store8,
    I64Store16,
    I64Store32,
}

impl MemoryOpcode {
    /// The keyword that an instruction is written with.
    pub open spec fn mnemonic(self) -> Seq<char> {
        match self {
            MemoryOpcode::I32Load => "i32.load"@,
            MemoryOpcode::I64Load => "i64.load"@,
            MemoryOpcode::F32Load => "f32.load"@,
            MemoryOpcode::F64Load => "f64.load"@,
            MemoryOpcode::I32Load8s => "i32.load8_s"@,
            MemoryOpcode::I32Load8u => "i32.load8_u"@,
            MemoryOpcode::I32Load16s => "i32.load16_s"@,
            MemoryOpcode::I32Load16u => "i32.load16_u"@,
            MemoryOpcode::I64Load8s => "i64.load8_s"@,
            MemoryOpcode::I64Load8u => "i64.load8_u"@,
            MemoryOpcode::I64Load16s => "i64.load16_s"@,
            MemoryOpcode::I64Load16u => "i64.load16_u"@,
            MemoryOpcode::I64Load32s => "i64.load32_s"@,
            MemoryOpcode::I64Load32u => "i64.load32_u"@,
            MemoryOpcode::I32Store => "i32.store"@,
            MemoryOpcode::I64Store => "i64.store"@,
            MemoryOpcode::F32Store => "f32.store"@,
            MemoryOpcode::F64Store => "f64.store"@,
            MemoryOpcode::I32Store8 => "i32.store8"@,
            MemoryOpcode::I32Store16 => "i32.store16"@,
            MemoryOpcode::I64Store8 => "i64.store8"@,
            MemoryOpcode::I64Store16 => "i64.store16"@,
            MemoryOpcode::I64Store32 => "i64.store32"@,
        }
    }

    /// The byte that encodes an instruction.
    pub open spec fn byte(self) -> u8 {
        match self {
            MemoryOpcode::I32Load => 0x28,
            MemoryOpcode::I64Load => 0x29,
            MemoryOpcode::F32Load => 0x2a,
            MemoryOpcode::F64Load => 0x2b,
            MemoryOpcode::I32Load8s => 0x2c,
            MemoryOpcode::I32Load8u => 0x2d,
            MemoryOpcode::I32Load16s => 0x2e,
            MemoryOpcode::I32Load16u => 0x2f,
            MemoryOpcode::I64Load8s => 0x30,
            MemoryOpcode::I64Load8u => 0x31,
            MemoryOpcode::I64Load16s => 0x32,
            MemoryOpcode::I64Load16u => 0x33,
            MemoryOpcode::I64Load32s => 0x34,
            MemoryOpcode::I64Load32u => 0x35,
            MemoryOpcode::I32Store => 0x36,
            MemoryOpcode::I64Store => 0x37,
            MemoryOpcode::F32Store => 0x38,
            MemoryOpcode::F64Store => 0x39,
            MemoryOpcode::I32Store8 => 0x3a,
            MemoryOpcode::I32Store16 => 0x3b,
            MemoryOpcode::I64Store8 => 0x3c,
            MemoryOpcode::I64Store16 => 0x3d,
            MemoryOpcode::I64Store32 => 0x3e,
        }
    }

    /// The alignment of an access for which none is given: the number of bytes
    /// that the instruction accesses.
    pub open spec fn natural_align(self) -> u64 {
        match self {
            MemoryOpcode::I32Load => 4,
            MemoryOpcode::I64Load => 8,
            MemoryOpcode::F32Load => 4,
            MemoryOpcode::F64Load => 8,
            MemoryOpcode::I32Load8s => 1,
            MemoryOpcode::I32Load8u => 1,
            MemoryOpcode::I32Load16s => 2,
            MemoryOpcode::I32Load16u => 2,
            MemoryOpcode::I64Load8s => 1,
            MemoryOpcode::I64Load8u => 1,
            MemoryOpcode::I64Load16s => 2,
            MemoryOpcode::I64Load16u => 2,
            MemoryOpcode::I64Load32s => 4,
            MemoryOpcode::I64Load32u => 4,
            MemoryOpcode::I32Store => 4,
            MemoryOpcode::I64Store => 8,
            MemoryOpcode::F32Store => 4,
            MemoryOpcode::F64Store => 8,
            MemoryOpcode::I32Store8 => 1,
            MemoryOpcode::I32Store16 => 2,
            MemoryOpcode::I64Store8 => 1,
            MemoryOpcode::I64Store16 => 2,
            MemoryOpcode::I64Store32 => 4,
        }
    }

    /// Tells which byte encodes the instruction.
    pub fn code(self) -> (b: u8)
        ensures
            b == self.byte(),
    {
        match self {
            MemoryOpcode::I32Load => 0x28,
            MemoryOpcode::I64Load => 0x29,
            MemoryOpcode::F32Load => 0x2a,
            MemoryOpcode::F64Load => 0x2b,
            MemoryOpcode::I32Load8s => 0x2c,
            MemoryOpcode::I32Load8u => 0x2d,
            MemoryOpcode::I32Load16s => 0x2e,
            MemoryOpcode::I32Load16u => 0x2f,
            MemoryOpcode::I64Load8s => 0x30,
            MemoryOpcode::I64Load8u => 0x31,
            MemoryOpcode::I64Load16s => 0x32,
            MemoryOpcode::I64Load16u => 0x33,
            MemoryOpcode::I64Load32s => 0x34,
            MemoryOpcode::I64Load32u => 0x35,
            MemoryOpcode::I32Store => 0x36,
            MemoryOpcode::I64Store => 0x37,
            MemoryOpcode::F32Store => 0x38,
            MemoryOpcode::F64Store => 0x39,
            MemoryOpcode::I32Store8 => 0x3a,
            MemoryOpcode::I32Store16 => 0x3b,
            MemoryOpcode::I64Store8 => 0x3c,
            MemoryOpcode::I64Store16 => 0x3d,
            MemoryOpcode::I64Store32 => 0x3e,
        }
    }

    /// Tells the alignment of an access for which none is given.
    pub fn default_align(self) -> (n: u64)
        ensures
            n == self.natural_align(),
    {
        match self {
            MemoryOpcode::I32Load => 4,
            MemoryOpcode::I64Load => 8,
            MemoryOpcode::F32Load => 4,
            MemoryOpcode::F64Load => 8,
            MemoryOpcode::I32Load8s => 1,
            MemoryOpcode::I32Load8u => 1,
            MemoryOpcode::I32Load16s => 2,
            MemoryOpcode::I32Load16u => 2,
            MemoryOpcode::I64Load8s => 1,
            MemoryOpcode::I64Load8u => 1,
            MemoryOpcode::I64Load16s => 2,
            MemoryOpcode::I64Load16u => 2,
            MemoryOpcode::I64Load32s => 4,
            MemoryOpcode::I64Load32u => 4,
            MemoryOpcode::I32Store => 4,
            MemoryOpcode::I64Store => 8,
            MemoryOpcode::F32Store => 4,
            MemoryOpcode::F64Store => 8,
            MemoryOpcode::I32Store8 => 1,
            MemoryOpcode::I32Store16 => 2,
            MemoryOpcode::I64Store8 => 1,
            MemoryOpcode::I64Store16 => 2,
            MemoryOpcode::I64Store32 => 4,
        }
    }

    /// No two instructions are encoded alike.
    pub proof fn lemma_bytes_differ(a: MemoryOpcode, b: MemoryOpcode)
        requires
            a.byte() == b.byte(),
        ensures
            a == b,
    {
    }

    /// No instruction that accesses a memory is encoded like one that does not.
    pub proof fn lemma_bytes_apart(a: MemoryOpcode, b: Opcode)
        ensures
            b.encoding() != Encoding::Byte(a.byte()),
    {
    }

    /// No two instructions are written alike.
    #[verifier::rlimit(100)]
    pub proof fn lemma_mnemonics_differ(a: MemoryOpcode, b: MemoryOpcode)
        requires
            a.mnemonic() == b.mnemonic(),
        ensures
            a == b,
    {
        reveal_strlit("i32.load");
        reveal_strlit("i64.load");
        reveal_strlit("f32.load");
        reveal_strlit("f64.load");
        reveal_strlit("i32.load8_s");
        reveal_strlit("i32.load8_u");
        reveal_strlit("i32.load16_s");
        reveal_strlit("i32.load16_u");
        reveal_strlit("i64.load8_s");
        reveal_strlit("i64.load8_u");
        reveal_strlit("i64.load16_s");
        reveal_strlit("i64.load16_u");
        reveal_strlit("i64.load32_s");
        reveal_strlit("i64.load32_u");
        reveal_strlit("i32.store");
        reveal_strlit("i64.store");
        reveal_strlit("f32.store");
        reveal_strlit("f64.store");
        reveal_strlit("i32.store8");
        reveal_strlit("i32.store16");
        reveal_strlit("i64.store8");
        reveal_strlit("i64.store16");
        reveal_strlit("i64.store32");
        let (x, y) = (a.mnemonic(), b.mnemonic());
        assert(x.len() == y.len());
        assert(x[0] == y[0]);
        assert(x[1] == y[1]);
        assert(x[2] == y[2]);
        assert(x[3] == y[3]);
        assert(x[4] == y[4]);
        assert(x[5] == y[5]);
        assert(x[6] == y[6]);
        assert(x[7] == y[7]);
        assert(x[8] == y[8]);
        assert(x[9] == y[9]);
        assert(x[10] == y[10]);
        assert(x[11] == y[11]);
    }

    /// The instruction that a keyword names.
    pub open spec fn named(word: Seq<char>) -> Option<MemoryOpcode> {
        if exists|op: MemoryOpcode| op.mnemonic() == word {
            Some(choose|op: MemoryOpcode| op.mnemonic() == word)
        } else {
            None
        }
    }

    /// A keyword names the instruction that is written with it.
    pub proof fn lemma_named(op: MemoryOpcode)
        ensures
            MemoryOpcode::named(op.mnemonic()) == Some(op),
    {
        let named = choose|o: MemoryOpcode| o.mnemonic() == op.mnemonic();
        MemoryOpcode::lemma_mnemonics_differ(op, named);
    }

    /// Finds the instruction that a keyword names; see [`MemoryOpcode::named`].
    pub fn find(word: &str) -> (op: Option<MemoryOpcode>)
        ensures
            op == MemoryOpcode::named(word@),
    {
        let found = MemoryOpcode::scan(word);
        proof {
            if let Some(op) = found {
                MemoryOpcode::lemma_named(op);
            }
        }
        found
    }

    #[verifier::rlimit(100)]
    fn scan(word: &str) -> (op: Option<MemoryOpcode>)
        ensures
            match op {
                Some(op) => op.mnemonic() == word@,
                None => forall|op: MemoryOpcode| op.mnemonic() != word@,
            },
    {
        if same_text(word, "i32.load") {
            return Some(MemoryOpcode::I32Load);
        }
        if same_text(word, "i64.load") {
            return Some(MemoryOpcode::I64Load);
        }
        if same_text(word, "f32.load") {
            return Some(MemoryOpcode::F32Load);
        }
        if same_text(word, "f64.load") {
            return Some(MemoryOpcode::F64Load);
        }
        if same_text(word, "i32.load8_s") {
            return Some(MemoryOpcode::I32Load8s);
        }
        if same_text(word, "i32.load8_u") {
            return Some(MemoryOpcode::I32Load8u);
        }
        if same_text(word, "i32.load16_s") {
            return Some(MemoryOpcode::I32Load16s);
        }
        if same_text(word, "i32.load16_u") {
            return Some(MemoryOpcode::I32Load16u);
        }
        if same_text(word, "i64.load8_s") {
            return Some(MemoryOpcode::I64Load8s);
        }
        if same_text(word, "i64.load8_u") {
            return Some(MemoryOpcode::I64Load8u);
        }
        if same_text(word, "i64.load16_s") {
            return Some(MemoryOpcode::I64Load16s);
        }
        if same_text(word, "i64.load16_u") {
            return Some(MemoryOpcode::I64Load16u);
        }
        if same_text(word, "i64.load32_s") {
            return Some(MemoryOpcode::I64Load32s);
        }
        if same_text(word, "i64.load32_u") {
            return Some(MemoryOpcode::I64Load32u);
        }
        if same_text(word, "i32.store") {
            return Some(MemoryOpcode::I32Store);
        }
        if same_text(word, "i64.store") {
            return Some(MemoryOpcode::I64Store);
        }
        if same_text(word, "f32.store") {
            return Some(MemoryOpcode::F32Store);
        }
        if same_text(word, "f64.store") {
            return Some(MemoryOpcode::F64Store);
        }
        if same_text(word, "i32.store8") {
            return Some(MemoryOpcode::I32Store8);
        }
        if same_text(word, "i32.store16") {
            return Some(MemoryOpcode::I32Store16);
        }
        if same_text(word, "i64.store8") {
            return Some(MemoryOpcode::I64Store8);
        }
        if same_text(word, "i64.store16") {
            return Some(MemoryOpcode::I64Store16);
        }
        if same_text(word, "i64.store32") {
            return Some(MemoryOpcode::I64Store32);
        }
        None
    }

    /// No instruction that accesses a memory is written like one that does not.
    #[verifier::rlimit(100)]
    pub proof fn lemma_mnemonics_apart(a: MemoryOpcode, b: Opcode)
        ensures
            a.mnemonic() != b.mnemonic(),
    {
        let (x, y) = (a.mnemonic(), b.mnemonic());
        reveal_strlit("i32.load");
        reveal_strlit("i64.load");
        reveal_strlit("f32.load");
        reveal_strlit("f64.load");
        reveal_strlit("i32.load8_s");
        reveal_strlit("i32.load8_u");
        reveal_strlit("i32.load16_s");
        reveal_strlit("i32.load16_u");
        reveal_strlit("i64.load8_s");
        reveal_strlit("i64.load8_u");
        reveal_strlit("i64.load16_s");
        reveal_strlit("i64.load16_u");
        reveal_strlit("i64.load32_s");
        reveal_strlit("i64.load32_u");
        reveal_strlit("i32.store");
        reveal_strlit("i64.store");
        reveal_strlit("f32.store");
        reveal_strlit("f64.store");
        reveal_strlit("i32.store8");
        reveal_strlit("i32.store16");
        reveal_strlit("i64.store8");
        reveal_strlit("i64.store16");
        reveal_strlit("i64.store32");
        reveal_strlit("block");
        reveal_strlit("if");
        reveal_strlit("else");
        reveal_strlit("loop");
        reveal_strlit("end");
        reveal_strlit("unreachable");
        reveal_strlit("nop");
        reveal_strlit("br");
        reveal_strlit("br_if");
        reveal_strlit("br_table");
        reveal_strlit("return");
        reveal_strlit("call");
        reveal_strlit("call_indirect");
        reveal_strlit("return_call");
        reveal_strlit("return_call_indirect");
        reveal_strlit("call_ref");
        reveal_strlit("return_call_ref");
        reveal_strlit("drop");
        reveal_strlit("select");
        reveal_strlit("local.get");
        reveal_strlit("local.set");
        reveal_strlit("local.tee");
        reveal_strlit("global.get");
        reveal_strlit("global.set");
        reveal_strlit("table.get");
        reveal_strlit("table.set");
        reveal_strlit("memory.size");
        reveal_strlit("memory.grow");
        reveal_strlit("memory.init");
        reveal_strlit("memory.copy");
        reveal_strlit("memory.fill");
        reveal_strlit("memory.discard");
        reveal_strlit("data.drop");
        reveal_strlit("elem.drop");
        reveal_strlit("table.init");
        reveal_strlit("table.copy");
        reveal_strlit("table.fill");
        reveal_strlit("table.size");
        reveal_strlit("table.grow");
        reveal_strlit("ref.null");
        reveal_strlit("ref.is_null");
        reveal_strlit("ref.func");
        reveal_strlit("ref.as_non_null");
        reveal_strlit("br_on_null");
        reveal_strlit("br_on_non_null");
        reveal_strlit("i32.const");
        reveal_strlit("i64.const");
        reveal_strlit("f32.const");
        reveal_strlit("f64.const");
        reveal_strlit("i32.clz");
        reveal_strlit("i32.ctz");
        reveal_strlit("i32.popcnt");
        reveal_strlit("i32.add");
        reveal_strlit("i32.sub");
        reveal_strlit("i32.mul");
        reveal_strlit("i32.div_s");
        reveal_strlit("i32.div_u");
        reveal_strlit("i32.rem_s");
        reveal_strlit("i32.rem_u");
        reveal_strlit("i32.and");
        reveal_strlit("i32.or");
        reveal_strlit("i32.xor");
        reveal_strlit("i32.shl");
        reveal_strlit("i32.shr_s");
        reveal_strlit("i32.shr_u");
        reveal_strlit("i32.rotl");
        reveal_strlit("i32.rotr");
        reveal_strlit("i64.clz");
        reveal_strlit("i64.ctz");
        reveal_strlit("i64.popcnt");
        reveal_strlit("i64.add");
        reveal_strlit("i64.sub");
        reveal_strlit("i64.mul");
        reveal_strlit("i64.div_s");
        reveal_strlit("i64.div_u");
        reveal_strlit("i64.rem_s");
        reveal_strlit("i64.rem_u");
        reveal_strlit("i64.and");
        reveal_strlit("i64.or");
        reveal_strlit("i64.xor");
        reveal_strlit("i64.shl");
        reveal_strlit("i64.shr_s");
        reveal_strlit("i64.shr_u");
        reveal_strlit("i64.rotl");
        reveal_strlit("i64.rotr");
        reveal_strlit("f32.abs");
        reveal_strlit("f32.neg");
        reveal_strlit("f32.ceil");
        reveal_strlit("f32.floor");
        reveal_strlit("f32.trunc");
        reveal_strlit("f32.nearest");
        reveal_strlit("f32.sqrt");
        reveal_strlit("f32.add");
        reveal_strlit("f32.sub");
        reveal_strlit("f32.mul");
        reveal_strlit("f32.div");
        reveal_strlit("f32.min");
        reveal_strlit("f32.max");
        reveal_strlit("f32.copysign");
        reveal_strlit("f64.abs");
        reveal_strlit("f64.neg");
        reveal_strlit("f64.ceil");
        reveal_strlit("f64.floor");
        reveal_strlit("f64.trunc");
        reveal_strlit("f64.nearest");
        reveal_strlit("f64.sqrt");
        reveal_strlit("f64.add");
        reveal_strlit("f64.sub");
        reveal_strlit("f64.mul");
        reveal_strlit("f64.div");
        reveal_strlit("f64.min");
        reveal_strlit("f64.max");
        reveal_strlit("f64.copysign");
        reveal_strlit("i32.eqz");
        reveal_strlit("i32.eq");
        reveal_strlit("i32.ne");
        reveal_strlit("i32.lt_s");
        reveal_strlit("i32.lt_u");
        reveal_strlit("i32.gt_s");
        reveal_strlit("i32.gt_u");
        reveal_strlit("i32.le_s");
        reveal_strlit("i32.le_u");
        reveal_strlit("i32.ge_s");
        reveal_strlit("i32.ge_u");
        reveal_strlit("i64.eqz");
        reveal_strlit("i64.eq");
        reveal_strlit("i64.ne");
        reveal_strlit("i64.lt_s");
        reveal_strlit("i64.lt_u");
        reveal_strlit("i64.gt_s");
        reveal_strlit("i64.gt_u");
        reveal_strlit("i64.le_s");
        reveal_strlit("i64.le_u");
        reveal_strlit("i64.ge_s");
        reveal_strlit("i64.ge_u");
        reveal_strlit("f32.eq");
        reveal_strlit("f32.ne");
        reveal_strlit("f32.lt");
        reveal_strlit("f32.gt");
        reveal_strlit("f32.le");
        reveal_strlit("f32.ge");
        reveal_strlit("f64.eq");
        reveal_strlit("f64.ne");
        reveal_strlit("f64.lt");
        reveal_strlit("f64.gt");
        reveal_strlit("f64.le");
        reveal_strlit("f64.ge");
        reveal_strlit("i32.wrap_i64");
        reveal_strlit("i32.trunc_f32_s");
        reveal_strlit("i32.trunc_f32_u");
        reveal_strlit("i32.trunc_f64_s");
        reveal_strlit("i32.trunc_f64_u");
        reveal_strlit("i64.extend_i32_s");
        reveal_strlit("i64.extend_i32_u");
        reveal_strlit("i64.trunc_f32_s");
        reveal_strlit("i64.trunc_f32_u");
        reveal_strlit("i64.trunc_f64_s");
        reveal_strlit("i64.trunc_f64_u");
        reveal_strlit("f32.convert_i32_s");
        reveal_strlit("f32.convert_i32_u");
        reveal_strlit("f32.convert_i64_s");
        reveal_strlit("f32.convert_i64_u");
        reveal_strlit("f32.demote_f64");
        reveal_strlit("f64.convert_i32_s");
        reveal_strlit("f64.convert_i32_u");
        reveal_strlit("f64.convert_i64_s");
        reveal_strlit("f64.convert_i64_u");
        reveal_strlit("f64.promote_f32");
        reveal_strlit("i32.reinterpret_f32");
        reveal_strlit("i64.reinterpret_f64");
        reveal_strlit("f32.reinterpret_i32");
        reveal_strlit("f64.reinterpret_i64");
        reveal_strlit("i32.trunc_sat_f32_s");
        reveal_strlit("i32.trunc_sat_f32_u");
        reveal_strlit("i32.trunc_sat_f64_s");
        reveal_strlit("i32.trunc_sat_f64_u");
        reveal_strlit("i64.trunc_sat_f32_s");
        reveal_strlit("i64.trunc_sat_f32_u");
        reveal_strlit("i64.trunc_sat_f64_s");
        reveal_strlit("i64.trunc_sat_f64_u");
        reveal_strlit("i32.extend8_s");
        reveal_strlit("i32.extend16_s");
        reveal_strlit("i64.extend8_s");
        reveal_strlit("i64.extend16_s");
        reveal_strlit("i64.extend32_s");
        reveal_strlit("throw_ref");
        reveal_strlit("try_table");
        reveal_strlit("throw");
        reveal_strlit("try");
        reveal_strlit("catch");
        reveal_strlit("rethrow");
        reveal_strlit("delegate");
        reveal_strlit("catch_all");
        if x == y {
            assert(x.len() == y.len());
            assert(x[0] == y[0]);
            assert(x[1] == y[1]);
            assert(x[2] == y[2]);
            assert(x[3] == y[3]);
            assert(x[4] == y[4]);
            assert(x[5] == y[5]);
            assert(x[6] == y[6]);
            assert(x[7] == y[7]);
            assert(x[8] == y[8]);
            assert(x[9] == y[9]);
            assert(x[10] == y[10]);
            assert(x[11] == y[11]);
        }
    }
}

} // verus!
