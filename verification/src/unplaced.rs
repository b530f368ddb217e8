//! Instructions without the positions that their operands stand at.

use vstd::prelude::*;

use crate::control::{
    BlockTypeAst, BrTableIndicesAst, CallIndirectAst, TryTableAst, TryTableCatch, TryTableCatchKind,
};
use crate::instruction::{InstructionAst, Operand};
use crate::labels::{AllInstructionsAst, LabeledInstruction, MemoryInstruction};
use crate::memory::{MemArg, MemoryArg, MemoryCopy, MemoryInit, TableArg, TableCopy, TableInit};
use crate::token::{Id, Index, Span};
use crate::types::{
    FunctionTypeAst, HeapType, LabeledValType, Param, RefType, TypeUseAst, ValType,
};

verus! {

pub open spec fn id<'a>(x: Id<'a>) -> Id<'a> {
    Id { name: x.name, gen: x.gen, span: Span { offset: 0 } }
}

pub open spec fn optional_id<'a>(x: Option<Id<'a>>) -> Option<Id<'a>> {
    match x {
        Some(i) => Some(id(i)),
        None => None,
    }
}

pub open spec fn index<'a>(x: Index<'a>) -> Index<'a> {
    match x {
        Index::Num(n, _) => Index::Num(n, Span { offset: 0 }),
        Index::Id(i) => Index::Id(id(i)),
    }
}

pub open spec fn heap_type<'a>(x: HeapType<'a>) -> HeapType<'a> {
    match x {
        HeapType::Abstract(t) => HeapType::Abstract(t),
        HeapType::Concrete(i) => HeapType::Concrete(index(i)),
    }
}

pub open spec fn val_type<'a>(x: ValType<'a>) -> ValType<'a> {
    match x {
        ValType::Ref(r) => ValType::Ref(RefType { nullable: r.nullable, heap: heap_type(r.heap) }),
        t => t,
    }
}

pub open spec fn labeled_type<'a>(x: LabeledValType<'a>) -> LabeledValType<'a> {
    LabeledValType { label: x.label, ty: val_type(x.ty) }
}

pub open spec fn labeled_types<'a>(x: Seq<LabeledValType<'a>>) -> Seq<LabeledValType<'a>> {
    Seq::new(x.len(), |k: int| labeled_type(x[k]))
}

pub open spec fn param<'a>(x: Param<'a>) -> Param<'a> {
    (optional_id(x.0), x.1, labeled_type(x.2))
}

pub open spec fn params<'a>(x: Seq<Param<'a>>) -> Seq<Param<'a>> {
    Seq::new(x.len(), |k: int| param(x[k]))
}

pub open spec fn function_type<'a>(x: FunctionTypeAst<'a>) -> FunctionTypeAst<'a> {
    FunctionTypeAst { params: params(x.params), results: labeled_types(x.results) }
}

pub open spec fn type_use<'a>(x: TypeUseAst<'a>) -> TypeUseAst<'a> {
    TypeUseAst {
        index: match x.index {
            Some(i) => Some(index(i)),
            None => None,
        },
        inline: match x.inline {
            Some(f) => Some(function_type(f)),
            None => None,
        },
    }
}

pub open spec fn block_type<'a>(x: BlockTypeAst<'a>) -> BlockTypeAst<'a> {
    BlockTypeAst {
        label: optional_id(x.label),
        label_name: x.label_name,
        ty: type_use(x.ty),
    }
}

pub open spec fn catch_clause<'a>(x: TryTableCatch<'a>) -> TryTableCatch<'a> {
    TryTableCatch {
        kind: match x.kind {
            TryTableCatchKind::Catch(tag) => TryTableCatchKind::Catch(index(tag)),
            TryTableCatchKind::CatchRef(tag) => TryTableCatchKind::CatchRef(index(tag)),
            kind => kind,
        },
        label: index(x.label),
    }
}

pub open spec fn catch_clauses<'a>(x: Seq<TryTableCatch<'a>>) -> Seq<TryTableCatch<'a>> {
    Seq::new(x.len(), |k: int| catch_clause(x[k]))
}

pub open spec fn indices<'a>(x: Seq<Index<'a>>) -> Seq<Index<'a>> {
    Seq::new(x.len(), |k: int| index(x[k]))
}

/// An operand without positions.
pub open spec fn operand<'a>(x: Operand<'a>) -> Operand<'a> {
    match x {
        Operand::Index(i) => Operand::Index(index(i)),
        Operand::Table(t) => Operand::Table(TableArg { dst: index(t.dst) }),
        Operand::Block(b) => Operand::Block(block_type(b)),
        Operand::Memory(m) => Operand::Memory(MemoryArg { mem: index(m.mem) }),
        Operand::OptionalId(i) => Operand::OptionalId(optional_id(i)),
        Operand::CallIndirect(c) => Operand::CallIndirect(
            CallIndirectAst { table: index(c.table), ty: type_use(c.ty) },
        ),
        Operand::BrTable(b) => Operand::BrTable(
            BrTableIndicesAst {
                labels: indices(b.labels),
                default: index(b.default),
            },
        ),
        Operand::Select(types) => Operand::Select(
            match types {
                Some(list) => Some(labeled_types(list)),
                None => None,
            },
        ),
        Operand::MemoryInit(m) => Operand::MemoryInit(
            MemoryInit { data: index(m.data), mem: index(m.mem) },
        ),
        Operand::MemoryCopy(m) => Operand::MemoryCopy(
            MemoryCopy { src: index(m.src), dst: index(m.dst) },
        ),
        Operand::TableInit(t) => Operand::TableInit(
            TableInit { table: index(t.table), elem: index(t.elem) },
        ),
        Operand::TableCopy(t) => Operand::TableCopy(
            TableCopy { dst: index(t.dst), src: index(t.src) },
        ),
        Operand::Heap(h) => Operand::Heap(heap_type(h)),
        Operand::TryTable(t) => Operand::TryTable(
            TryTableAst {
                block: block_type(t.block),
                catches: catch_clauses(t.catches),
            },
        ),
        other => other,
    }
}

/// An instruction without positions.
pub open spec fn instruction<'a>(x: AllInstructionsAst<'a>) -> AllInstructionsAst<'a> {
    match x {
        AllInstructionsAst::Labeled(l) => AllInstructionsAst::Labeled(
            LabeledInstruction {
                label: l.label,
                instruction: MemoryInstruction::of(
                    l.instruction.op(),
                    MemArg {
                        align: l.instruction.arg().align,
                        offset: l.instruction.arg().offset,
                        memory: index(l.instruction.arg().memory),
                    },
                ),
            },
        ),
        AllInstructionsAst::Other(i) => AllInstructionsAst::Other(
            InstructionAst { op: i.op, operand: operand(i.operand) },
        ),
    }
}

/// Each instruction without positions.
pub open spec fn instructions<'a>(x: Seq<AllInstructionsAst<'a>>) -> Seq<AllInstructionsAst<'a>> {
    Seq::new(x.len(), |k: int| instruction(x[k]))
}

} // verus!
