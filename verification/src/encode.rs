//! The binary form of operands.

use vstd::prelude::*;

use crate::bytes::{byte_of, le32, le64};
use crate::control::{
    BlockType, BlockTypeAst, BrTableIndices, BrTableIndicesAst, CallIndirect, CallIndirectAst,
    SelectTypes, TryTable, TryTableAst, TryTableCatch, TryTableCatchKind,
};
use crate::memory::{
    MemArg, MemoryArg, MemoryCopy, MemoryInit, TableArg, TableCopy, TableInit,
};
use crate::token::{Id, Index, F32, F64};
use crate::types::{AbstractHeapType, HeapType, LabeledValType, RefType, ValType};

verus! {

/// What has a binary form.
pub trait Encode {
    /// The value can be encoded: every index in it is a number by now, every type
    /// that must be in the module's type section has its index there, and every
    /// list is short enough for its length to be written.
    spec fn encodable(&self) -> bool;

    /// The binary form.
    spec fn encoded(&self) -> Seq<u8>;

    /// Appends the binary form to `out`.
    fn encode(&self, out: &mut Vec<u8>)
        requires
            self.encodable(),
        ensures
            final(out)@ == old(out)@ + self.encoded(),
    ;
}

/// An unsigned number, seven bits to a byte, the lowest first. The top bit of a
/// byte tells that more bytes follow.
pub open spec fn uleb(n: nat) -> Seq<u8>
    decreases n,
{
    if n < 128 {
        seq![n as u8]
    } else {
        seq![(n % 128 + 128) as u8] + uleb(n / 128)
    }
}

/// A signed number in the same form; bit 6 of the last byte is its sign.
pub open spec fn sleb(n: int) -> Seq<u8>
    decreases
            if n < 0 {
                -n
            } else {
                n
            },
{
    if -64 <= n < 64 {
        seq![(n % 128) as u8]
    } else {
        seq![(n % 128 + 128) as u8] + sleb(n / 128)
    }
}

impl Encode for u64 {
    open spec fn encodable(&self) -> bool {
        true
    }

    open spec fn encoded(&self) -> Seq<u8> {
        uleb(*self as nat)
    }

    fn encode(&self, out: &mut Vec<u8>) {
        let mut n: u64 = *self;
        while n >= 128
            invariant
                out@ + uleb(n as nat) =~= old(out)@ + uleb(*self as nat),
            decreases n,
        {
            out.push((n % 128 + 128) as u8);
            n = n / 128;
        }
        out.push(n as u8);
    }
}

impl Encode for u32 {
    open spec fn encodable(&self) -> bool {
        true
    }

    open spec fn encoded(&self) -> Seq<u8> {
        uleb(*self as nat)
    }

    fn encode(&self, out: &mut Vec<u8>) {
        (*self as u64).encode(out);
    }
}

impl Encode for i64 {
    open spec fn encodable(&self) -> bool {
        true
    }

    open spec fn encoded(&self) -> Seq<u8> {
        sleb(*self as int)
    }

    fn encode(&self, out: &mut Vec<u8>) {
        let mut n: i64 = *self;
        while n < -64 || n >= 64
            invariant
                out@ + sleb(n as int) =~= old(out)@ + sleb(*self as int),
            decreases
                    if n < 0 {
                        -n
                    } else {
                        n as int
                    },
        {
            let rest: i64 = if n < 0 {
                -((-(n + 1)) / 128) - 1
            } else {
                n / 128
            };
            assert(rest == n as int / 128);
            let low: i64 = n - rest * 128;
            out.push((low + 128) as u8);
            n = rest;
        }
        let last: i64 = if n < 0 {
            n + 128
        } else {
            n
        };
        out.push(last as u8);
    }
}

impl Encode for i32 {
    open spec fn encodable(&self) -> bool {
        true
    }

    open spec fn encoded(&self) -> Seq<u8> {
        sleb(*self as int)
    }

    fn encode(&self, out: &mut Vec<u8>) {
        (*self as i64).encode(out);
    }
}

/// The bytes of a float's bits, from the low end.
impl Encode for F32 {
    open spec fn encodable(&self) -> bool {
        true
    }

    open spec fn encoded(&self) -> Seq<u8> {
        Seq::new(4, |k: int| byte_of(self.bits as nat, k as nat))
    }

    fn encode(&self, out: &mut Vec<u8>) {
        let b = le32(self.bits);
        out.push(b[0]);
        out.push(b[1]);
        out.push(b[2]);
        out.push(b[3]);
        assert(out@ =~= old(out)@ + self.encoded());
    }
}

/// The bytes of a float's bits, from the low end.
impl Encode for F64 {
    open spec fn encodable(&self) -> bool {
        true
    }

    open spec fn encoded(&self) -> Seq<u8> {
        Seq::new(8, |k: int| byte_of(self.bits as nat, k as nat))
    }

    fn encode(&self, out: &mut Vec<u8>) {
        let b = le64(self.bits);
        out.push(b[0]);
        out.push(b[1]);
        out.push(b[2]);
        out.push(b[3]);
        out.push(b[4]);
        out.push(b[5]);
        out.push(b[6]);
        out.push(b[7]);
        assert(out@ =~= old(out)@ + self.encoded());
    }
}

/// A number. A name must have been resolved to one.
impl<'a> Encode for Index<'a> {
    open spec fn encodable(&self) -> bool {
        self is Num
    }

    open spec fn encoded(&self) -> Seq<u8> {
        match self {
            Index::Num(n, _) => uleb(*n as nat),
            Index::Id(_) => Seq::empty(),
        }
    }

    fn encode(&self, out: &mut Vec<u8>) {
        match self {
            Index::Num(n, _) => n.encode(out),
            Index::Id(_) => {},
        }
    }
}

/// Labels of blocks leave nothing in the binary form.
impl<'a> Encode for Option<Id<'a>> {
    open spec fn encodable(&self) -> bool {
        true
    }

    open spec fn encoded(&self) -> Seq<u8> {
        Seq::empty()
    }

    fn encode(&self, out: &mut Vec<u8>) {
        assert(out@ =~= old(out)@ + self.encoded());
    }
}

impl AbstractHeapType {
    /// The byte that stands for the heap type.
    pub open spec fn byte(self) -> u8 {
        match self {
            AbstractHeapType::Func => 0x70,
            AbstractHeapType::Extern => 0x6f,
            AbstractHeapType::Exn => 0x69,
            AbstractHeapType::Any => 0x6e,
            AbstractHeapType::Eq => 0x6d,
            AbstractHeapType::Struct => 0x6b,
            AbstractHeapType::Array => 0x6a,
            AbstractHeapType::I31 => 0x6c,
            AbstractHeapType::NoFunc => 0x73,
            AbstractHeapType::NoExtern => 0x72,
            AbstractHeapType::NoExn => 0x74,
            AbstractHeapType::NoAny => 0x71,
        }
    }

    fn code(self) -> (b: u8)
        ensures
            b == self.byte(),
    {
        match self {
            AbstractHeapType::Func => 0x70,
            AbstractHeapType::Extern => 0x6f,
            AbstractHeapType::Exn => 0x69,
            AbstractHeapType::Any => 0x6e,
            AbstractHeapType::Eq => 0x6d,
            AbstractHeapType::Struct => 0x6b,
            AbstractHeapType::Array => 0x6a,
            AbstractHeapType::I31 => 0x6c,
            AbstractHeapType::NoFunc => 0x73,
            AbstractHeapType::NoExtern => 0x72,
            AbstractHeapType::NoExn => 0x74,
            AbstractHeapType::NoAny => 0x71,
        }
    }
}

/// A byte, or the index of a type as a signed number.
impl<'a> Encode for HeapType<'a> {
    open spec fn encodable(&self) -> bool {
        match self {
            HeapType::Abstract(_) => true,
            HeapType::Concrete(i) => i is Num,
        }
    }

    open spec fn encoded(&self) -> Seq<u8> {
        match self {
            HeapType::Abstract(t) => seq![t.byte()],
            HeapType::Concrete(Index::Num(n, _)) => sleb(*n as int),
            HeapType::Concrete(Index::Id(_)) => Seq::empty(),
        }
    }

    fn encode(&self, out: &mut Vec<u8>) {
        match self {
            HeapType::Abstract(t) => out.push(t.code()),
            HeapType::Concrete(Index::Num(n, _)) => (*n as i64).encode(out),
            HeapType::Concrete(Index::Id(_)) => {},
        }
    }
}

/// A prefix and a heap type. The prefix is left out of nullable references to
/// abstract heap types.
impl<'a> Encode for RefType<'a> {
    open spec fn encodable(&self) -> bool {
        self.heap.encodable()
    }

    open spec fn encoded(&self) -> Seq<u8> {
        if !self.nullable {
            seq![0x64u8] + self.heap.encoded()
        } else if self.heap is Abstract {
            self.heap.encoded()
        } else {
            seq![0x63u8] + self.heap.encoded()
        }
    }

    fn encode(&self, out: &mut Vec<u8>) {
        if !self.nullable {
            out.push(0x64);
        } else {
            match self.heap {
                HeapType::Abstract(_) => {},
                HeapType::Concrete(_) => out.push(0x63),
            }
        }
        self.heap.encode(out);
        assert(out@ =~= old(out)@ + self.encoded());
    }
}

impl<'a> Encode for ValType<'a> {
    open spec fn encodable(&self) -> bool {
        match self {
            ValType::Ref(r) => r.encodable(),
            _ => true,
        }
    }

    open spec fn encoded(&self) -> Seq<u8> {
        match self {
            ValType::I32 => seq![0x7fu8],
            ValType::I64 => seq![0x7eu8],
            ValType::F32 => seq![0x7du8],
            ValType::F64 => seq![0x7cu8],
            ValType::V128 => seq![0x7bu8],
            ValType::Ref(r) => r.encoded(),
        }
    }

    fn encode(&self, out: &mut Vec<u8>) {
        match self {
            ValType::I32 => out.push(0x7f),
            ValType::I64 => out.push(0x7e),
            ValType::F32 => out.push(0x7d),
            ValType::F64 => out.push(0x7c),
            ValType::V128 => out.push(0x7b),
            ValType::Ref(r) => r.encode(out),
        }
    }
}

/// The type alone: labels leave nothing in the binary form.
impl<'a> Encode for LabeledValType<'a> {
    open spec fn encodable(&self) -> bool {
        self.ty.encodable()
    }

    open spec fn encoded(&self) -> Seq<u8> {
        self.ty.encoded()
    }

    fn encode(&self, out: &mut Vec<u8>) {
        self.ty.encode(out);
    }
}

/// The items one after the other.
pub open spec fn items<T: Encode>(list: Seq<T>) -> Seq<u8>
    decreases list.len(),
{
    if list.len() == 0 {
        Seq::empty()
    } else {
        items(list.drop_last()) + list.last().encoded()
    }
}

/// Each item can be encoded, and the length can be written.
pub open spec fn list_encodable<T: Encode>(list: Seq<T>) -> bool {
    &&& list.len() <= 0xffff_ffff
    &&& forall|i: int| 0 <= i < list.len() ==> (#[trigger] list[i]).encodable()
}

/// The length and the items.
pub open spec fn list_encoded<T: Encode>(list: Seq<T>) -> Seq<u8> {
    uleb(list.len()) + items(list)
}

impl<T: Encode> Encode for Vec<T> {
    open spec fn encodable(&self) -> bool {
        list_encodable(self@)
    }

    open spec fn encoded(&self) -> Seq<u8> {
        list_encoded(self@)
    }

    fn encode(&self, out: &mut Vec<u8>) {
        (self.len() as u64).encode(out);
        let ghost start = out@;
        let mut i: usize = 0;
        assert(self@.take(0) =~= Seq::<T>::empty());
        assert(out@ =~= start + items(self@.take(0)));
        while i < self.len()
            invariant
                i <= self.len(),
                self.encodable(),
                out@ == start + items(self@.take(i as int)),
            decreases self.len() - i,
        {
            self[i].encode(out);
            assert(self@.take(i + 1).drop_last() =~= self@.take(i as int));
            assert(out@ =~= start + items(self@.take(i + 1)));
            i += 1;
        }
        assert(self@.take(i as int) =~= self@);
        assert(out@ =~= old(out)@ + self.encoded());
    }
}

impl<'a> Encode for TableArg<'a> {
    open spec fn encodable(&self) -> bool {
        self.dst.encodable()
    }

    open spec fn encoded(&self) -> Seq<u8> {
        self.dst.encoded()
    }

    fn encode(&self, out: &mut Vec<u8>) {
        self.dst.encode(out);
    }
}

impl<'a> Encode for MemoryArg<'a> {
    open spec fn encodable(&self) -> bool {
        self.mem.encodable()
    }

    open spec fn encoded(&self) -> Seq<u8> {
        self.mem.encoded()
    }

    fn encode(&self, out: &mut Vec<u8>) {
        self.mem.encode(out);
    }
}

/// The element segment comes first.
impl<'a> Encode for TableInit<'a> {
    open spec fn encodable(&self) -> bool {
        self.elem.encodable() && self.table.encodable()
    }

    open spec fn encoded(&self) -> Seq<u8> {
        self.elem.encoded() + self.table.encoded()
    }

    fn encode(&self, out: &mut Vec<u8>) {
        self.elem.encode(out);
        self.table.encode(out);
        assert(out@ =~= old(out)@ + self.encoded());
    }
}

impl<'a> Encode for TableCopy<'a> {
    open spec fn encodable(&self) -> bool {
        self.dst.encodable() && self.src.encodable()
    }

    open spec fn encoded(&self) -> Seq<u8> {
        self.dst.encoded() + self.src.encoded()
    }

    fn encode(&self, out: &mut Vec<u8>) {
        self.dst.encode(out);
        self.src.encode(out);
        assert(out@ =~= old(out)@ + self.encoded());
    }
}

/// The data segment comes first.
impl<'a> Encode for MemoryInit<'a> {
    open spec fn encodable(&self) -> bool {
        self.data.encodable() && self.mem.encodable()
    }

    open spec fn encoded(&self) -> Seq<u8> {
        self.data.encoded() + self.mem.encoded()
    }

    fn encode(&self, out: &mut Vec<u8>) {
        self.data.encode(out);
        self.mem.encode(out);
        assert(out@ =~= old(out)@ + self.encoded());
    }
}

/// The destination comes first.
impl<'a> Encode for MemoryCopy<'a> {
    open spec fn encodable(&self) -> bool {
        self.dst.encodable() && self.src.encodable()
    }

    open spec fn encoded(&self) -> Seq<u8> {
        self.dst.encoded() + self.src.encoded()
    }

    fn encode(&self, out: &mut Vec<u8>) {
        self.dst.encode(out);
        self.src.encode(out);
        assert(out@ =~= old(out)@ + self.encoded());
    }
}

/// The logarithm of the alignment, and the offset. Where the memory is not the
/// first one, bit 6 is added to the former, and the memory stands in between.
impl<'a> Encode for MemArg<'a> {
    open spec fn encodable(&self) -> bool {
        self.memory is Num
    }

    open spec fn encoded(&self) -> Seq<u8> {
        let log = self.align.trailing_zeros();
        match self.memory {
            Index::Num(0, _) => uleb(log as nat) + uleb(self.offset as nat),
            _ => uleb((log | 64) as nat) + self.memory.encoded() + uleb(self.offset as nat),
        }
    }

    fn encode(&self, out: &mut Vec<u8>) {
        let log = self.align.trailing_zeros();
        match self.memory {
            Index::Num(0, _) => {
                log.encode(out);
            },
            _ => {
                (log | 64).encode(out);
                self.memory.encode(out);
            },
        }
        self.offset.encode(out);
        assert(out@ =~= old(out)@ + self.encoded());
    }
}

/// Either the index of a type, as a signed number, or the type itself, where
/// that has no parameter and at most one result.
impl<'a> BlockTypeAst<'a> {
    pub open spec fn encodable(self) -> bool {
        match self.ty.index {
            Some(Index::Num(_, _)) => true,
            _ => match self.ty.inline {
                Some(f) => {
                    &&& f.params.len() == 0
                    &&& f.results.len() <= 1
                    &&& f.results.len() == 1 ==> f.results[0].encodable()
                },
                None => false,
            },
        }
    }

    pub open spec fn encoded(self) -> Seq<u8> {
        match self.ty.index {
            Some(Index::Num(n, _)) => sleb(n as int),
            _ => if self.ty.inline.unwrap().results.len() == 0 {
                seq![0x40u8]
            } else {
                self.ty.inline.unwrap().results[0].encoded()
            },
        }
    }
}

impl<'a> Encode for BlockType<'a> {
    open spec fn encodable(&self) -> bool {
        self@.encodable()
    }

    open spec fn encoded(&self) -> Seq<u8> {
        self@.encoded()
    }

    fn encode(&self, out: &mut Vec<u8>) {
        match &self.ty.index {
            Some(Index::Num(n, _)) => {
                (*n as i64).encode(out);
            },
            _ => {
                match &self.ty.inline {
                    Some(f) => {
                        if f.results.len() == 0 {
                            out.push(0x40);
                        } else {
                            f.results[0].encode(out);
                        }
                    },
                    None => {},
                }
            },
        }
    }
}

impl<'a> BrTableIndicesAst<'a> {
    pub open spec fn encodable(self) -> bool {
        list_encodable(self.labels) && self.default.encodable()
    }

    pub open spec fn encoded(self) -> Seq<u8> {
        list_encoded(self.labels) + self.default.encoded()
    }
}

impl<'a> Encode for BrTableIndices<'a> {
    open spec fn encodable(&self) -> bool {
        self@.encodable()
    }

    open spec fn encoded(&self) -> Seq<u8> {
        self@.encoded()
    }

    fn encode(&self, out: &mut Vec<u8>) {
        self.labels.encode(out);
        self.default.encode(out);
        assert(out@ =~= old(out)@ + self.encoded());
    }
}

/// The index of the type, which it must have by now, and the table.
impl<'a> CallIndirectAst<'a> {
    pub open spec fn encodable(self) -> bool {
        &&& self.ty.index matches Some(i) && i.encodable()
        &&& self.table.encodable()
    }

    pub open spec fn encoded(self) -> Seq<u8> {
        self.ty.index.unwrap().encoded() + self.table.encoded()
    }
}

impl<'a> Encode for CallIndirect<'a> {
    open spec fn encodable(&self) -> bool {
        self@.encodable()
    }

    open spec fn encoded(&self) -> Seq<u8> {
        self@.encoded()
    }

    fn encode(&self, out: &mut Vec<u8>) {
        match &self.ty.index {
            Some(i) => i.encode(out),
            None => {},
        }
        self.table.encode(out);
        assert(out@ =~= old(out)@ + self.encoded());
    }
}

pub open spec fn select_encodable<'a>(types: Option<Seq<LabeledValType<'a>>>) -> bool {
    match types {
        Some(list) => list_encodable(list),
        None => true,
    }
}

/// The code of the instruction, which depends on whether there are types, and
/// the types.
pub open spec fn select_encoded<'a>(types: Option<Seq<LabeledValType<'a>>>) -> Seq<u8> {
    match types {
        Some(list) => seq![0x1cu8] + list_encoded(list),
        None => seq![0x1bu8],
    }
}

impl<'a> Encode for SelectTypes<'a> {
    open spec fn encodable(&self) -> bool {
        select_encodable(self@)
    }

    open spec fn encoded(&self) -> Seq<u8> {
        select_encoded(self@)
    }

    fn encode(&self, out: &mut Vec<u8>) {
        match &self.tys {
            Some(list) => {
                out.push(0x1c);
                list.encode(out);
                assert(out@ =~= old(out)@ + self.encoded());
            },
            None => out.push(0x1b),
        }
    }
}

/// Which exceptions are caught and how, the tag where a single one is caught,
/// and the label.
impl<'a> Encode for TryTableCatch<'a> {
    open spec fn encodable(&self) -> bool {
        &&& self.kind.tag_index() matches Some(tag) ==> tag.encodable()
        &&& self.label.encodable()
    }

    open spec fn encoded(&self) -> Seq<u8> {
        let kind = match self.kind {
            TryTableCatchKind::Catch(tag) => seq![0x00u8] + tag.encoded(),
            TryTableCatchKind::CatchRef(tag) => seq![0x01u8] + tag.encoded(),
            TryTableCatchKind::CatchAll => seq![0x02u8],
            TryTableCatchKind::CatchAllRef => seq![0x03u8],
        };
        kind + self.label.encoded()
    }

    fn encode(&self, out: &mut Vec<u8>) {
        match &self.kind {
            TryTableCatchKind::Catch(tag) => {
                out.push(0x00);
                tag.encode(out);
            },
            TryTableCatchKind::CatchRef(tag) => {
                out.push(0x01);
                tag.encode(out);
            },
            TryTableCatchKind::CatchAll => out.push(0x02),
            TryTableCatchKind::CatchAllRef => out.push(0x03),
        }
        self.label.encode(out);
        assert(out@ =~= old(out)@ + self.encoded());
    }
}

impl<'a> TryTableAst<'a> {
    pub open spec fn encodable(self) -> bool {
        self.block.encodable() && list_encodable(self.catches)
    }

    pub open spec fn encoded(self) -> Seq<u8> {
        self.block.encoded() + list_encoded(self.catches)
    }
}

impl<'a> Encode for TryTable<'a> {
    open spec fn encodable(&self) -> bool {
        self@.encodable()
    }

    open spec fn encoded(&self) -> Seq<u8> {
        self@.encoded()
    }

    fn encode(&self, out: &mut Vec<u8>) {
        self.block.encode(out);
        self.catches.encode(out);
        assert(out@ =~= old(out)@ + self.encoded());
    }
}

} // verus!
