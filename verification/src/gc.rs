//! Operands of the instructions on structs, arrays and casts.

use vstd::prelude::*;

use crate::parser::{Cursor, Input, Parse, Parsed, Parser};
use crate::token::{Error, Index};
use crate::types::RefType;

verus! {

/// Extra data associated with the `struct.get/set` instructions
#[derive(Debug, Clone)]
pub struct StructAccess<'a> {
    /// The index of the struct type we're accessing.
    pub struct_type: Index<'a>,
    /// The index of the field of the struct we're accessing
    pub field: Index<'a>,
}

impl<'a> Parse<'a> for StructAccess<'a> {
    type Ast = StructAccess<'a>;

    open spec fn ast(&self) -> StructAccess<'a> {
        *self
    }

    open spec fn grammar(input: Input<'a>, at: Cursor) -> Parsed<StructAccess<'a>> {
        match Index::grammar(input, at) {
            Ok((struct_type, a)) => match Index::grammar(input, a) {
                Ok((field, to)) => Ok((StructAccess { struct_type, field }, to)),
                Err(e) => Err(e),
            },
            Err(e) => Err(e),
        }
    }

    proof fn lemma_advances(input: Input<'a>, at: Cursor) {
        Index::lemma_advances(input, at);
        if let Ok((_, a)) = Index::grammar(input, at) {
            Index::lemma_advances(input, a);
        }
    }

    fn parse(parser: &mut Parser<'a>) -> (r: Result<Self, Error>) {
        let struct_type = Index::parse(parser)?;
        let field = Index::parse(parser)?;
        Ok(StructAccess { struct_type, field })
    }
}

/// Extra data associated with the `array.fill` instruction
#[derive(Debug, Clone)]
pub struct ArrayFill<'a> {
    /// The index of the array type we're filling.
    pub array: Index<'a>,
}

impl<'a> Parse<'a> for ArrayFill<'a> {
    type Ast = ArrayFill<'a>;

    open spec fn ast(&self) -> ArrayFill<'a> {
        *self
    }

    open spec fn grammar(input: Input<'a>, at: Cursor) -> Parsed<ArrayFill<'a>> {
        match Index::grammar(input, at) {
            Ok((array, to)) => Ok((ArrayFill { array }, to)),
            Err(e) => Err(e),
        }
    }

    proof fn lemma_advances(input: Input<'a>, at: Cursor) {
        Index::lemma_advances(input, at);
    }

    fn parse(parser: &mut Parser<'a>) -> (r: Result<Self, Error>) {
        let array = Index::parse(parser)?;
        Ok(ArrayFill { array })
    }
}

/// Extra data associated with the `array.copy` instruction
#[derive(Debug, Clone)]
pub struct ArrayCopy<'a> {
    /// The index of the array type we're copying to.
    pub dest_array: Index<'a>,
    /// The index of the array type we're copying from.
    pub src_array: Index<'a>,
}

impl<'a> Parse<'a> for ArrayCopy<'a> {
    type Ast = ArrayCopy<'a>;

    open spec fn ast(&self) -> ArrayCopy<'a> {
        *self
    }

    open spec fn grammar(input: Input<'a>, at: Cursor) -> Parsed<ArrayCopy<'a>> {
        match Index::grammar(input, at) {
            Ok((dest_array, a)) => match Index::grammar(input, a) {
                Ok((src_array, to)) => Ok((ArrayCopy { dest_array, src_array }, to)),
                Err(e) => Err(e),
            },
            Err(e) => Err(e),
        }
    }

    proof fn lemma_advances(input: Input<'a>, at: Cursor) {
        Index::lemma_advances(input, at);
        if let Ok((_, a)) = Index::grammar(input, at) {
            Index::lemma_advances(input, a);
        }
    }

    fn parse(parser: &mut Parser<'a>) -> (r: Result<Self, Error>) {
        let dest_array = Index::parse(parser)?;
        let src_array = Index::parse(parser)?;
        Ok(ArrayCopy { dest_array, src_array })
    }
}

/// Extra data associated with the `array.init_[data/elem]` instruction
#[derive(Debug, Clone)]
pub struct ArrayInit<'a> {
    /// The index of the array type we're initializing.
    pub array: Index<'a>,
    /// The index of the data or elem segment we're reading from.
    pub segment: Index<'a>,
}

impl<'a> Parse<'a> for ArrayInit<'a> {
    type Ast = ArrayInit<'a>;

    open spec fn ast(&self) -> ArrayInit<'a> {
        *self
    }

    open spec fn grammar(input: Input<'a>, at: Cursor) -> Parsed<ArrayInit<'a>> {
        match Index::grammar(input, at) {
            Ok((array, a)) => match Index::grammar(input, a) {
                Ok((segment, to)) => Ok((ArrayInit { array, segment }, to)),
                Err(e) => Err(e),
            },
            Err(e) => Err(e),
        }
    }

    proof fn lemma_advances(input: Input<'a>, at: Cursor) {
        Index::lemma_advances(input, at);
        if let Ok((_, a)) = Index::grammar(input, at) {
            Index::lemma_advances(input, a);
        }
    }

    fn parse(parser: &mut Parser<'a>) -> (r: Result<Self, Error>) {
        let array = Index::parse(parser)?;
        let segment = Index::parse(parser)?;
        Ok(ArrayInit { array, segment })
    }
}

/// Extra data associated with the `array.new_fixed` instruction
#[derive(Debug, Clone)]
pub struct ArrayNewFixed<'a> {
    /// The index of the array type we're accessing.
    pub array: Index<'a>,
    /// The amount of values to initialize the array with.
    pub length: u32,
}

impl<'a> Parse<'a> for ArrayNewFixed<'a> {
    type Ast = ArrayNewFixed<'a>;

    open spec fn ast(&self) -> ArrayNewFixed<'a> {
        *self
    }

    open spec fn grammar(input: Input<'a>, at: Cursor) -> Parsed<ArrayNewFixed<'a>> {
        match Index::grammar(input, at) {
            Ok((array, a)) => match u32::grammar(input, a) {
                Ok((length, to)) => Ok((ArrayNewFixed { array, length }, to)),
                Err(e) => Err(e),
            },
            Err(e) => Err(e),
        }
    }

    proof fn lemma_advances(input: Input<'a>, at: Cursor) {
        Index::lemma_advances(input, at);
        if let Ok((_, a)) = Index::grammar(input, at) {
            u32::lemma_advances(input, a);
        }
    }

    fn parse(parser: &mut Parser<'a>) -> (r: Result<Self, Error>) {
        let array = Index::parse(parser)?;
        let length = u32::parse(parser)?;
        Ok(ArrayNewFixed { array, length })
    }
}

/// Extra data associated with the `array.new_data` instruction
#[derive(Debug, Clone)]
pub struct ArrayNewData<'a> {
    /// The index of the array type we're accessing.
    pub array: Index<'a>,
    /// The data segment to initialize from.
    pub data_idx: Index<'a>,
}

impl<'a> Parse<'a> for ArrayNewData<'a> {
    type Ast = ArrayNewData<'a>;

    open spec fn ast(&self) -> ArrayNewData<'a> {
        *self
    }

    open spec fn grammar(input: Input<'a>, at: Cursor) -> Parsed<ArrayNewData<'a>> {
        match Index::grammar(input, at) {
            Ok((array, a)) => match Index::grammar(input, a) {
                Ok((data_idx, to)) => Ok((ArrayNewData { array, data_idx }, to)),
                Err(e) => Err(e),
            },
            Err(e) => Err(e),
        }
    }

    proof fn lemma_advances(input: Input<'a>, at: Cursor) {
        Index::lemma_advances(input, at);
        if let Ok((_, a)) = Index::grammar(input, at) {
            Index::lemma_advances(input, a);
        }
    }

    fn parse(parser: &mut Parser<'a>) -> (r: Result<Self, Error>) {
        let array = Index::parse(parser)?;
        let data_idx = Index::parse(parser)?;
        Ok(ArrayNewData { array, data_idx })
    }
}

/// Extra data associated with the `array.new_elem` instruction
#[derive(Debug, Clone)]
pub struct ArrayNewElem<'a> {
    /// The index of the array type we're accessing.
    pub array: Index<'a>,
    /// The elem segment to initialize from.
    pub elem_idx: Index<'a>,
}

impl<'a> Parse<'a> for ArrayNewElem<'a> {
    type Ast = ArrayNewElem<'a>;

    open spec fn ast(&self) -> ArrayNewElem<'a> {
        *self
    }

    open spec fn grammar(input: Input<'a>, at: Cursor) -> Parsed<ArrayNewElem<'a>> {
        match Index::grammar(input, at) {
            Ok((array, a)) => match Index::grammar(input, a) {
                Ok((elem_idx, to)) => Ok((ArrayNewElem { array, elem_idx }, to)),
                Err(e) => Err(e),
            },
            Err(e) => Err(e),
        }
    }

    proof fn lemma_advances(input: Input<'a>, at: Cursor) {
        Index::lemma_advances(input, at);
        if let Ok((_, a)) = Index::grammar(input, at) {
            Index::lemma_advances(input, a);
        }
    }

    fn parse(parser: &mut Parser<'a>) -> (r: Result<Self, Error>) {
        let array = Index::parse(parser)?;
        let elem_idx = Index::parse(parser)?;
        Ok(ArrayNewElem { array, elem_idx })
    }
}

/// Extra data associated with the `ref.cast` instruction
#[derive(Debug, Clone)]
pub struct RefCast<'a> {
    /// The type to cast to.
    pub ref_type: RefType<'a>,
}

impl<'a> Parse<'a> for RefCast<'a> {
    type Ast = RefCast<'a>;

    open spec fn ast(&self) -> RefCast<'a> {
        *self
    }

    open spec fn grammar(input: Input<'a>, at: Cursor) -> Parsed<RefCast<'a>> {
        match RefType::grammar(input, at) {
            Ok((ref_type, to)) => Ok((RefCast { ref_type }, to)),
            Err(e) => Err(e),
        }
    }

    proof fn lemma_advances(input: Input<'a>, at: Cursor) {
        RefType::lemma_advances(input, at);
    }

    fn parse(parser: &mut Parser<'a>) -> (r: Result<Self, Error>) {
        let ref_type = RefType::parse(parser)?;
        Ok(RefCast { ref_type })
    }
}

/// Extra data associated with the `ref.test` instruction
#[derive(Debug, Clone)]
pub struct RefTest<'a> {
    /// The type to test for.
    pub ref_type: RefType<'a>,
}

impl<'a> Parse<'a> for RefTest<'a> {
    type Ast = RefTest<'a>;

    open spec fn ast(&self) -> RefTest<'a> {
        *self
    }

    open spec fn grammar(input: Input<'a>, at: Cursor) -> Parsed<RefTest<'a>> {
        match RefType::grammar(input, at) {
            Ok((ref_type, to)) => Ok((RefTest { ref_type }, to)),
            Err(e) => Err(e),
        }
    }

    proof fn lemma_advances(input: Input<'a>, at: Cursor) {
        RefType::lemma_advances(input, at);
    }

    fn parse(parser: &mut Parser<'a>) -> (r: Result<Self, Error>) {
        let ref_type = RefType::parse(parser)?;
        Ok(RefTest { ref_type })
    }
}

/// Extra data associated with the `br_on_cast` instruction
#[derive(Debug, Clone)]
pub struct BrOnCast<'a> {
    /// The label to branch to.
    pub label: Index<'a>,
    /// The type we're casting from.
    pub from_type: RefType<'a>,
    /// The type we're casting to.
    pub to_type: RefType<'a>,
}

impl<'a> Parse<'a> for BrOnCast<'a> {
    type Ast = BrOnCast<'a>;

    open spec fn ast(&self) -> BrOnCast<'a> {
        *self
    }

    open spec fn grammar(input: Input<'a>, at: Cursor) -> Parsed<BrOnCast<'a>> {
        match Index::grammar(input, at) {
            Ok((label, a)) => match RefType::grammar(input, a) {
                Ok((from_type, b)) => match RefType::grammar(input, b) {
                    Ok((to_type, to)) => Ok((BrOnCast { label, from_type, to_type }, to)),
                    Err(e) => Err(e),
                },
                Err(e) => Err(e),
            },
            Err(e) => Err(e),
        }
    }

    proof fn lemma_advances(input: Input<'a>, at: Cursor) {
        Index::lemma_advances(input, at);
        if let Ok((_, a)) = Index::grammar(input, at) {
            RefType::lemma_advances(input, a);
            if let Ok((_, b)) = RefType::grammar(input, a) {
                RefType::lemma_advances(input, b);
            }
        }
    }

    fn parse(parser: &mut Parser<'a>) -> (r: Result<Self, Error>) {
        let label = Index::parse(parser)?;
        let from_type = RefType::parse(parser)?;
        let to_type = RefType::parse(parser)?;
        Ok(BrOnCast { label, from_type, to_type })
    }
}

/// Extra data associated with the `br_on_cast_fail` instruction
#[derive(Debug, Clone)]
pub struct BrOnCastFail<'a> {
    /// The label to branch to.
    pub label: Index<'a>,
    /// The type we're casting from.
    pub from_type: RefType<'a>,
    /// The type we're casting to.
    pub to_type: RefType<'a>,
}

impl<'a> Parse<'a> for BrOnCastFail<'a> {
    type Ast = BrOnCastFail<'a>;

    open spec fn ast(&self) -> BrOnCastFail<'a> {
        *self
    }

    open spec fn grammar(input: Input<'a>, at: Cursor) -> Parsed<BrOnCastFail<'a>> {
        match Index::grammar(input, at) {
            Ok((label, a)) => match RefType::grammar(input, a) {
                Ok((from_type, b)) => match RefType::grammar(input, b) {
                    Ok((to_type, to)) => Ok((BrOnCastFail { label, from_type, to_type }, to)),
                    Err(e) => Err(e),
                },
                Err(e) => Err(e),
            },
            Err(e) => Err(e),
        }
    }

    proof fn lemma_advances(input: Input<'a>, at: Cursor) {
        Index::lemma_advances(input, at);
        if let Ok((_, a)) = Index::grammar(input, at) {
            RefType::lemma_advances(input, a);
            if let Ok((_, b)) = RefType::grammar(input, a) {
                RefType::lemma_advances(input, b);
            }
        }
    }

    fn parse(parser: &mut Parser<'a>) -> (r: Result<Self, Error>) {
        let label = Index::parse(parser)?;
        let from_type = RefType::parse(parser)?;
        let to_type = RefType::parse(parser)?;
        Ok(BrOnCastFail { label, from_type, to_type })
    }
}

} // verus!
