//! Operands of the instructions on memories and tables.

use vstd::arithmetic::power2::is_pow2;
use vstd::prelude::*;
use vstd::string::StrSliceExecFns;

use crate::atoms::{index_follows, peek2_index};
use crate::literal::{read_word, word_value, WordValue};
use crate::parser::{Cursor, Input, Parse, Parsed, Parser};
use crate::token::{Error, Index, TokenKind};

verus! {

/// Payload for memory-related instructions indicating offset/alignment of
/// memory accesses.
#[derive(Debug, Clone)]
pub struct MemArg<'a> {
    /// The alignment of this access.
    ///
    /// This is not stored as a log, this is the actual alignment (e.g. 1, 2, 4,
    /// 8, etc).
    pub align: u64,
    /// The offset, in bytes of this access.
    pub offset: u64,
    /// The memory index we're accessing
    pub memory: Index<'a>,
}

/// The keyword has the form `name=...`.
pub open spec fn is_field(keyword: Seq<char>, name: Seq<char>) -> bool {
    &&& keyword.len() > name.len()
    &&& keyword.take(name.len() as int) == name
    &&& keyword[name.len() as int] == '='
}

/// An optional field `name=n`, where `n` is an integer literal.
pub open spec fn mem_field<'a>(input: Input<'a>, at: Cursor, name: Seq<char>) -> Parsed<
    Option<u64>,
> {
    match input.tok(at) {
        Some(TokenKind::Keyword(k)) => if is_field(k@, name) {
            match word_value(k@.skip(name.len() as int + 1)) {
                WordValue::Value(n) => Ok((Some(n), input.step(at))),
                WordValue::OutOfRange => input.fail(at, "u64 constant out of range"),
                WordValue::NotInteger => input.fail(at, "expected u64 integer constant"),
            }
        } else {
            Ok((None, at))
        },
        _ => Ok((None, at)),
    }
}

fn check_field(keyword: &str, name: &str) -> (b: bool)
    ensures
        b == is_field(keyword@, name@),
{
    let len = name.unicode_len();
    if keyword.unicode_len() <= len {
        return false;
    }
    let mut i: usize = 0;
    while i < len
        invariant
            i <= len == name@.len(),
            len < keyword@.len(),
            forall|j: int| 0 <= j < i ==> keyword@[j] == name@[j],
        decreases len - i,
    {
        if keyword.get_char(i) != name.get_char(i) {
            assert(keyword@.take(len as int)[i as int] != name@[i as int]);
            return false;
        }
        i += 1;
    }
    assert(keyword@.take(len as int) =~= name@);
    keyword.get_char(len) == '='
}

fn parse_field<'a>(name: &str, parser: &mut Parser<'a>) -> (r: Result<Option<u64>, Error>)
    requires
        old(parser).wf(),
    ensures
        final(parser).same_source(old(parser)),
        mem_field(old(parser).input(), old(parser).at(), name@) == final(parser).outcome(r),
{
    match parser.token() {
        Some(TokenKind::Keyword(k)) => {
            if check_field(k, name) {
                let len = name.unicode_len();
                let size = k.unicode_len();
                assert(len < size);
                match read_word(k, len + 1) {
                    WordValue::Value(n) => {
                        parser.advance();
                        Ok(Some(n))
                    },
                    WordValue::OutOfRange => Err(parser.error("u64 constant out of range")),
                    WordValue::NotInteger => Err(parser.error("expected u64 integer constant")),
                }
            } else {
                Ok(None)
            }
        },
        _ => Ok(None),
    }
}

fn is_power_of_two(n: u64) -> (b: bool)
    ensures
        b == is_pow2(n as int),
{
    proof {
        reveal(is_pow2);
    }
    if n == 0 {
        return false;
    }
    let mut m: u64 = n;
    while m % 2 == 0
        invariant
            m > 0,
            is_pow2(n as int) == is_pow2(m as int),
        decreases m,
    {
        proof {
            reveal(is_pow2);
        }
        m = m / 2;
    }
    m == 1
}

impl<'a> MemArg<'a> {
    /// The grammar rule of a memory argument: an optional index of a memory, an
    /// optional `offset=` and an optional `align=`, in this order. What is
    /// missing is 0, 0 and `default_align`.
    pub open spec fn grammar(input: Input<'a>, at: Cursor, default_align: u64) -> Parsed<
        MemArg<'a>,
    > {
        match Option::<Index<'a>>::grammar(input, at) {
            Ok((index, a)) => {
                let memory = match index {
                    Some(i) => i,
                    None => Index::Num(0, a.prev),
                };
                match mem_field(input, a, "offset"@) {
                    Ok((offset, b)) => match mem_field(input, b, "align"@) {
                        Ok((align, to)) => match align {
                            Some(n) if !is_pow2(n as int) => input.fail(
                                to,
                                "alignment must be a power of two",
                            ),
                            _ => Ok(
                                (
                                    MemArg {
                                        align: align.unwrap_or(default_align),
                                        offset: offset.unwrap_or(0),
                                        memory,
                                    },
                                    to,
                                ),
                            ),
                        },
                        Err(e) => Err(e),
                    },
                    Err(e) => Err(e),
                }
            },
            Err(e) => Err(e),
        }
    }

    pub proof fn lemma_advances(input: Input<'a>, at: Cursor, default_align: u64)
        ensures
            Self::grammar(input, at, default_align) matches Ok((_, to)) ==> at.pos <= to.pos,
    {
        Option::<Index<'a>>::lemma_advances(input, at);
        if let Ok((_, a)) = Option::<Index<'a>>::grammar(input, at) {
            input.lemma_step(a);
            if let Ok((_, b)) = mem_field(input, a, "offset"@) {
                input.lemma_step(b);
            }
        }
    }

    /// Parses a memory argument; see [`MemArg::grammar`].
    pub fn parse(parser: &mut Parser<'a>, default_align: u64) -> (r: Result<MemArg<'a>, Error>)
        requires
            old(parser).wf(),
        ensures
            final(parser).same_source(old(parser)),
            Self::grammar(old(parser).input(), old(parser).at(), default_align)
                == final(parser).outcome(r),
    {
        let memory = match Option::<Index<'a>>::parse(parser)? {
            Some(i) => i,
            None => Index::Num(0, parser.prev_span()),
        };
        let offset = parse_field("offset", parser)?.unwrap_or(0);
        let align = match parse_field("align", parser)? {
            Some(n) => {
                if !is_power_of_two(n) {
                    return Err(parser.error("alignment must be a power of two"));
                }
                n
            },
            None => default_align,
        };
        Ok(MemArg { offset, align, memory })
    }
}

/// Extra data associated with the `table.init` instruction
#[derive(Debug, Clone)]
pub struct TableInit<'a> {
    /// The index of the table we're copying into.
    pub table: Index<'a>,
    /// The index of the element segment we're copying into a table.
    pub elem: Index<'a>,
}

/// One index or two; the first of two is `table`, which is 0 where only one is
/// given.
impl<'a> Parse<'a> for TableInit<'a> {
    type Ast = TableInit<'a>;

    open spec fn ast(&self) -> TableInit<'a> {
        *self
    }

    open spec fn grammar(input: Input<'a>, at: Cursor) -> Parsed<TableInit<'a>> {
        if index_follows(input, at) {
            match Index::grammar(input, at) {
                Ok((table, a)) => match Index::grammar(input, a) {
                    Ok((elem, to)) => Ok((TableInit { elem, table }, to)),
                    Err(e) => Err(e),
                },
                Err(e) => Err(e),
            }
        } else {
            match Index::grammar(input, at) {
                Ok((elem, to)) => Ok((TableInit { elem, table: Index::Num(0, at.prev) }, to)),
                Err(e) => Err(e),
            }
        }
    }

    proof fn lemma_advances(input: Input<'a>, at: Cursor) {
        Index::lemma_advances(input, at);
        if let Ok((_, a)) = Index::grammar(input, at) {
            Index::lemma_advances(input, a);
        }
    }

    fn parse(parser: &mut Parser<'a>) -> (r: Result<Self, Error>) {
        let prev_span = parser.prev_span();
        if peek2_index(parser) {
            let table = Index::parse(parser)?;
            let elem = Index::parse(parser)?;
            Ok(TableInit { elem, table })
        } else {
            let elem = Index::parse(parser)?;
            Ok(TableInit { elem, table: Index::Num(0, prev_span) })
        }
    }
}

/// Extra data associated with the `table.copy` instruction.
#[derive(Debug, Clone)]
pub struct TableCopy<'a> {
    /// The index of the destination table to copy into.
    pub dst: Index<'a>,
    /// The index of the source table to copy from.
    pub src: Index<'a>,
}

/// The index of the destination, then that of the source; both are 0 where none
/// is given.
impl<'a> Parse<'a> for TableCopy<'a> {
    type Ast = TableCopy<'a>;

    open spec fn ast(&self) -> TableCopy<'a> {
        *self
    }

    open spec fn grammar(input: Input<'a>, at: Cursor) -> Parsed<TableCopy<'a>> {
        match Option::<Index<'a>>::grammar(input, at) {
            Ok((Some(dst), a)) => match Index::grammar(input, a) {
                Ok((src, to)) => Ok((TableCopy { dst, src }, to)),
                Err(e) => Err(e),
            },
            Ok((None, to)) => Ok(
                (TableCopy { dst: Index::Num(0, to.prev), src: Index::Num(0, to.prev) }, to),
            ),
            Err(e) => Err(e),
        }
    }

    proof fn lemma_advances(input: Input<'a>, at: Cursor) {
        Option::<Index<'a>>::lemma_advances(input, at);
        if let Ok((_, a)) = Option::<Index<'a>>::grammar(input, at) {
            Index::lemma_advances(input, a);
        }
    }

    fn parse(parser: &mut Parser<'a>) -> (r: Result<Self, Error>) {
        match Option::<Index<'a>>::parse(parser)? {
            Some(dst) => {
                let src = Index::parse(parser)?;
                Ok(TableCopy { dst, src })
            },
            None => Ok(
                TableCopy {
                    dst: Index::Num(0, parser.prev_span()),
                    src: Index::Num(0, parser.prev_span()),
                },
            ),
        }
    }
}

/// Extra data associated with unary table instructions.
#[derive(Debug, Clone)]
pub struct TableArg<'a> {
    /// The index of the table argument.
    pub dst: Index<'a>,
}

/// An index, which is 0 where none is given.
impl<'a> Parse<'a> for TableArg<'a> {
    type Ast = TableArg<'a>;

    open spec fn ast(&self) -> TableArg<'a> {
        *self
    }

    open spec fn grammar(input: Input<'a>, at: Cursor) -> Parsed<TableArg<'a>> {
        match Option::<Index<'a>>::grammar(input, at) {
            Ok((Some(dst), to)) => Ok((TableArg { dst }, to)),
            Ok((None, to)) => Ok((TableArg { dst: Index::Num(0, to.prev) }, to)),
            Err(e) => Err(e),
        }
    }

    proof fn lemma_advances(input: Input<'a>, at: Cursor) {
        Option::<Index<'a>>::lemma_advances(input, at);
    }

    fn parse(parser: &mut Parser<'a>) -> (r: Result<Self, Error>) {
        let dst = match Option::<Index<'a>>::parse(parser)? {
            Some(dst) => dst,
            None => Index::Num(0, parser.prev_span()),
        };
        Ok(TableArg { dst })
    }
}

/// Extra data associated with unary memory instructions.
#[derive(Debug, Clone)]
pub struct MemoryArg<'a> {
    /// The index of the memory space.
    pub mem: Index<'a>,
}

/// An index, which is 0 where none is given.
impl<'a> Parse<'a> for MemoryArg<'a> {
    type Ast = MemoryArg<'a>;

    open spec fn ast(&self) -> MemoryArg<'a> {
        *self
    }

    open spec fn grammar(input: Input<'a>, at: Cursor) -> Parsed<MemoryArg<'a>> {
        match Option::<Index<'a>>::grammar(input, at) {
            Ok((Some(mem), to)) => Ok((MemoryArg { mem }, to)),
            Ok((None, to)) => Ok((MemoryArg { mem: Index::Num(0, to.prev) }, to)),
            Err(e) => Err(e),
        }
    }

    proof fn lemma_advances(input: Input<'a>, at: Cursor) {
        Option::<Index<'a>>::lemma_advances(input, at);
    }

    fn parse(parser: &mut Parser<'a>) -> (r: Result<Self, Error>) {
        let mem = match Option::<Index<'a>>::parse(parser)? {
            Some(mem) => mem,
            None => Index::Num(0, parser.prev_span()),
        };
        Ok(MemoryArg { mem })
    }
}

/// Extra data associated with the `memory.init` instruction
#[derive(Debug, Clone)]
pub struct MemoryInit<'a> {
    /// The index of the data segment we're copying into memory.
    pub data: Index<'a>,
    /// The index of the memory we're copying into,
    pub mem: Index<'a>,
}

/// One index or two; the first of two is `mem`, which is 0 where only one is
/// given.
impl<'a> Parse<'a> for MemoryInit<'a> {
    type Ast = MemoryInit<'a>;

    open spec fn ast(&self) -> MemoryInit<'a> {
        *self
    }

    open spec fn grammar(input: Input<'a>, at: Cursor) -> Parsed<MemoryInit<'a>> {
        if index_follows(input, at) {
            match Index::grammar(input, at) {
                Ok((mem, a)) => match Index::grammar(input, a) {
                    Ok((data, to)) => Ok((MemoryInit { data, mem }, to)),
                    Err(e) => Err(e),
                },
                Err(e) => Err(e),
            }
        } else {
            match Index::grammar(input, at) {
                Ok((data, to)) => Ok((MemoryInit { data, mem: Index::Num(0, at.prev) }, to)),
                Err(e) => Err(e),
            }
        }
    }

    proof fn lemma_advances(input: Input<'a>, at: Cursor) {
        Index::lemma_advances(input, at);
        if let Ok((_, a)) = Index::grammar(input, at) {
            Index::lemma_advances(input, a);
        }
    }

    fn parse(parser: &mut Parser<'a>) -> (r: Result<Self, Error>) {
        let prev_span = parser.prev_span();
        if peek2_index(parser) {
            let mem = Index::parse(parser)?;
            let data = Index::parse(parser)?;
            Ok(MemoryInit { data, mem })
        } else {
            let data = Index::parse(parser)?;
            Ok(MemoryInit { data, mem: Index::Num(0, prev_span) })
        }
    }
}

/// Extra data associated with the `memory.copy` instruction
#[derive(Debug, Clone)]
pub struct MemoryCopy<'a> {
    /// The index of the memory we're copying from.
    pub src: Index<'a>,
    /// The index of the memory we're copying to.
    pub dst: Index<'a>,
}

/// The index of the destination, then that of the source; both are 0 where none
/// is given.
impl<'a> Parse<'a> for MemoryCopy<'a> {
    type Ast = MemoryCopy<'a>;

    open spec fn ast(&self) -> MemoryCopy<'a> {
        *self
    }

    open spec fn grammar(input: Input<'a>, at: Cursor) -> Parsed<MemoryCopy<'a>> {
        match Option::<Index<'a>>::grammar(input, at) {
            Ok((Some(dst), a)) => match Index::grammar(input, a) {
                Ok((src, to)) => Ok((MemoryCopy { dst, src }, to)),
                Err(e) => Err(e),
            },
            Ok((None, to)) => Ok(
                (MemoryCopy { dst: Index::Num(0, to.prev), src: Index::Num(0, to.prev) }, to),
            ),
            Err(e) => Err(e),
        }
    }

    proof fn lemma_advances(input: Input<'a>, at: Cursor) {
        Option::<Index<'a>>::lemma_advances(input, at);
        if let Ok((_, a)) = Option::<Index<'a>>::grammar(input, at) {
            Index::lemma_advances(input, a);
        }
    }

    fn parse(parser: &mut Parser<'a>) -> (r: Result<Self, Error>) {
        match Option::<Index<'a>>::parse(parser)? {
            Some(dst) => {
                let src = Index::parse(parser)?;
                Ok(MemoryCopy { dst, src })
            },
            None => Ok(
                MemoryCopy {
                    dst: Index::Num(0, parser.prev_span()),
                    src: Index::Num(0, parser.prev_span()),
                },
            ),
        }
    }
}

/// The memory ordering for atomic instructions.
///
/// For an in-depth explanation of memory orderings, see the C++ documentation
/// for [`memory_order`].
///
/// [`memory_order`]: https://en.cppreference.com/w/cpp/atomic/memory_order
#[derive(Clone, Debug)]
pub enum MemoryOrdering {
    /// Like `AcqRel` but all threads see all sequentially consistent operations
    /// in the same order.
    AcqRel,
    /// For a load, it acquires; this orders all operations before the last
    /// "releasing" store. For a store, it releases; this orders all operations
    /// before it at the next "acquiring" load.
    SeqCst,
}

impl<'a> Parse<'a> for MemoryOrdering {
    type Ast = MemoryOrdering;

    open spec fn ast(&self) -> MemoryOrdering {
        *self
    }

    open spec fn grammar(input: Input<'a>, at: Cursor) -> Parsed<MemoryOrdering> {
        if input.at_keyword(at, "seq_cst"@) {
            Ok((MemoryOrdering::SeqCst, input.step(at)))
        } else if input.at_keyword(at, "acq_rel"@) {
            Ok((MemoryOrdering::AcqRel, input.step(at)))
        } else {
            input.fail(at, "expected a memory ordering: `seq_cst` or `acq_rel`")
        }
    }

    proof fn lemma_advances(input: Input<'a>, at: Cursor) {
        input.lemma_step(at);
    }

    fn parse(parser: &mut Parser<'a>) -> (r: Result<Self, Error>) {
        if parser.peek_keyword("seq_cst") {
            parser.advance();
            Ok(MemoryOrdering::SeqCst)
        } else if parser.peek_keyword("acq_rel") {
            parser.advance();
            Ok(MemoryOrdering::AcqRel)
        } else {
            Err(parser.error("expected a memory ordering: `seq_cst` or `acq_rel`"))
        }
    }
}

/// Add a memory [`MemoryOrdering`] to the argument `T` of some instruction.
///
/// This is helpful for many kinds of `*.atomic.*` instructions introduced by
/// the shared-everything-threads proposal. Many of these instructions "build
/// on" existing instructions by simply adding a memory order to them.
#[derive(Clone, Debug)]
pub struct Ordered<T> {
    /// The memory ordering for this atomic instruction.
    pub ordering: MemoryOrdering,
    /// The argument itself.
    pub inner: T,
}

impl<'a, T: Parse<'a>> Parse<'a> for Ordered<T> {
    type Ast = Ordered<T::Ast>;

    open spec fn ast(&self) -> Ordered<T::Ast> {
        Ordered { ordering: self.ordering, inner: self.inner.ast() }
    }

    open spec fn grammar(input: Input<'a>, at: Cursor) -> Parsed<Ordered<T::Ast>> {
        match MemoryOrdering::grammar(input, at) {
            Ok((ordering, a)) => match T::grammar(input, a) {
                Ok((inner, to)) => Ok((Ordered { ordering, inner }, to)),
                Err(e) => Err(e),
            },
            Err(e) => Err(e),
        }
    }

    proof fn lemma_advances(input: Input<'a>, at: Cursor) {
        MemoryOrdering::lemma_advances(input, at);
        if let Ok((_, a)) = MemoryOrdering::grammar(input, at) {
            T::lemma_advances(input, a);
        }
    }

    fn parse(parser: &mut Parser<'a>) -> (r: Result<Self, Error>) {
        let ordering = MemoryOrdering::parse(parser)?;
        let inner = T::parse(parser)?;
        Ok(Ordered { ordering, inner })
    }
}

} // verus!
