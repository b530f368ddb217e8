//! Operands of the control instructions.

use vstd::prelude::*;

use crate::atoms::lemma_index_advances;
use crate::parser::{Cursor, Input, Parse, Parsed, Parser, Peek};
use crate::token::{Error, Id, Index, NameAnnotation};
use crate::types::{
    lemma_types_to_end_advances, parse_types_to_end, types_to_end, FunctionType, FunctionTypeNoNames,
    LabeledValType, TypeUse, TypeUseAst,
};

verus! {

/// Extra information associated with block-related instructions.
///
/// This is used to label blocks and also annotate what types are expected for
/// the block.
#[derive(Debug, Clone)]
pub struct BlockType<'a> {
    pub label: Option<Id<'a>>,
    pub label_name: Option<NameAnnotation<'a>>,
    pub ty: TypeUse<'a, FunctionType<'a>>,
}

/// The parts of a [`BlockType`].
pub struct BlockTypeAst<'a> {
    pub label: Option<Id<'a>>,
    pub label_name: Option<NameAnnotation<'a>>,
    pub ty: TypeUseAst<'a>,
}

impl<'a> View for BlockType<'a> {
    type V = BlockTypeAst<'a>;

    open spec fn view(&self) -> BlockTypeAst<'a> {
        BlockTypeAst { label: self.label, label_name: self.label_name, ty: self.ty@ }
    }
}

impl<'a> Parse<'a> for BlockType<'a> {
    type Ast = BlockTypeAst<'a>;

    open spec fn ast(&self) -> BlockTypeAst<'a> {
        self@
    }

    open spec fn grammar(input: Input<'a>, at: Cursor) -> Parsed<BlockTypeAst<'a>> {
        match Option::<Id<'a>>::grammar(input, at) {
            Ok((label, a)) => match Option::<NameAnnotation<'a>>::grammar(input, a) {
                Ok((label_name, b)) => match TypeUse::<'a, FunctionTypeNoNames<'a>>::grammar(
                    input,
                    b,
                ) {
                    Ok((ty, to)) => Ok((BlockTypeAst { label, label_name, ty }, to)),
                    Err(e) => Err(e),
                },
                Err(e) => Err(e),
            },
            Err(e) => Err(e),
        }
    }

    proof fn lemma_advances(input: Input<'a>, at: Cursor) {
        Option::<Id<'a>>::lemma_advances(input, at);
        if let Ok((_, a)) = Option::<Id<'a>>::grammar(input, at) {
            Option::<NameAnnotation<'a>>::lemma_advances(input, a);
            if let Ok((_, b)) = Option::<NameAnnotation<'a>>::grammar(input, a) {
                TypeUse::<'a, FunctionTypeNoNames<'a>>::lemma_advances(input, b);
            }
        }
    }

    fn parse(parser: &mut Parser<'a>) -> (r: Result<Self, Error>) {
        let label = Option::<Id<'a>>::parse(parser)?;
        let label_name = Option::<NameAnnotation<'a>>::parse(parser)?;
        let ty = TypeUse::<'a, FunctionTypeNoNames<'a>>::parse(parser)?;
        Ok(BlockType { label, label_name, ty: ty.with_names() })
    }
}

/// Extra information associated with the cont.bind instruction
#[derive(Debug, Clone)]
pub struct ContBind<'a> {
    pub argument_index: Index<'a>,
    pub result_index: Index<'a>,
}

impl<'a> Parse<'a> for ContBind<'a> {
    type Ast = ContBind<'a>;

    open spec fn ast(&self) -> ContBind<'a> {
        *self
    }

    open spec fn grammar(input: Input<'a>, at: Cursor) -> Parsed<ContBind<'a>> {
        match Index::grammar(input, at) {
            Ok((argument_index, a)) => match Index::grammar(input, a) {
                Ok((result_index, to)) => Ok((ContBind { argument_index, result_index }, to)),
                Err(e) => Err(e),
            },
            Err(e) => Err(e),
        }
    }

    proof fn lemma_advances(input: Input<'a>, at: Cursor) {
        Index::lemma_advances(input, at);
        if let Ok((_, a)) = Index::grammar(input, at) {
            Index::lemma_advances(input, a);
        }
    }

    fn parse(parser: &mut Parser<'a>) -> (r: Result<Self, Error>) {
        let argument_index = Index::parse(parser)?;
        let result_index = Index::parse(parser)?;
        Ok(ContBind { argument_index, result_index })
    }
}

/// Extra information associated with the resume instruction
#[derive(Debug, Clone)]
pub struct Resume<'a> {
    pub type_index: Index<'a>,
    pub table: ResumeTable<'a>,
}

/// The parts of a [`Resume`].
pub struct ResumeAst<'a> {
    pub type_index: Index<'a>,
    pub table: Seq<Handle<'a>>,
}

impl<'a> Parse<'a> for Resume<'a> {
    type Ast = ResumeAst<'a>;

    open spec fn ast(&self) -> ResumeAst<'a> {
        ResumeAst { type_index: self.type_index, table: self.table.ast() }
    }

    open spec fn grammar(input: Input<'a>, at: Cursor) -> Parsed<ResumeAst<'a>> {
        match Index::grammar(input, at) {
            Ok((type_index, a)) => match ResumeTable::grammar(input, a) {
                Ok((table, to)) => Ok((ResumeAst { type_index, table }, to)),
                Err(e) => Err(e),
            },
            Err(e) => Err(e),
        }
    }

    proof fn lemma_advances(input: Input<'a>, at: Cursor) {
        Index::lemma_advances(input, at);
        if let Ok((_, a)) = Index::grammar(input, at) {
            ResumeTable::lemma_advances(input, a);
        }
    }

    fn parse(parser: &mut Parser<'a>) -> (r: Result<Self, Error>) {
        let type_index = Index::parse(parser)?;
        let table = ResumeTable::parse(parser)?;
        Ok(Resume { type_index, table })
    }
}

/// Extra information associated with the resume_throw instruction
#[derive(Debug, Clone)]
pub struct ResumeThrow<'a> {
    pub type_index: Index<'a>,
    pub tag_index: Index<'a>,
    pub table: ResumeTable<'a>,
}

/// The parts of a [`ResumeThrow`].
pub struct ResumeThrowAst<'a> {
    pub type_index: Index<'a>,
    pub tag_index: Index<'a>,
    pub table: Seq<Handle<'a>>,
}

impl<'a> Parse<'a> for ResumeThrow<'a> {
    type Ast = ResumeThrowAst<'a>;

    open spec fn ast(&self) -> ResumeThrowAst<'a> {
        ResumeThrowAst { type_index: self.type_index, tag_index: self.tag_index, table: self.table.ast() }
    }

    open spec fn grammar(input: Input<'a>, at: Cursor) -> Parsed<ResumeThrowAst<'a>> {
        match Index::grammar(input, at) {
            Ok((type_index, a)) => match Index::grammar(input, a) {
                Ok((tag_index, b)) => match ResumeTable::grammar(input, b) {
                    Ok((table, to)) => Ok((ResumeThrowAst { type_index, tag_index, table }, to)),
                    Err(e) => Err(e),
                },
                Err(e) => Err(e),
            },
            Err(e) => Err(e),
        }
    }

    proof fn lemma_advances(input: Input<'a>, at: Cursor) {
        Index::lemma_advances(input, at);
        if let Ok((_, a)) = Index::grammar(input, at) {
            Index::lemma_advances(input, a);
            if let Ok((_, b)) = Index::grammar(input, a) {
                ResumeTable::lemma_advances(input, b);
            }
        }
    }

    fn parse(parser: &mut Parser<'a>) -> (r: Result<Self, Error>) {
        let type_index = Index::parse(parser)?;
        let tag_index = Index::parse(parser)?;
        let table = ResumeTable::parse(parser)?;
        Ok(ResumeThrow { type_index, tag_index, table })
    }
}

/// Extra information associated with the switch instruction
#[derive(Debug, Clone)]
pub struct Switch<'a> {
    pub type_index: Index<'a>,
    pub tag_index: Index<'a>,
}

impl<'a> Parse<'a> for Switch<'a> {
    type Ast = Switch<'a>;

    open spec fn ast(&self) -> Switch<'a> {
        *self
    }

    open spec fn grammar(input: Input<'a>, at: Cursor) -> Parsed<Switch<'a>> {
        match Index::grammar(input, at) {
            Ok((type_index, a)) => match Index::grammar(input, a) {
                Ok((tag_index, to)) => Ok((Switch { type_index, tag_index }, to)),
                Err(e) => Err(e),
            },
            Err(e) => Err(e),
        }
    }

    proof fn lemma_advances(input: Input<'a>, at: Cursor) {
        Index::lemma_advances(input, at);
        if let Ok((_, a)) = Index::grammar(input, at) {
            Index::lemma_advances(input, a);
        }
    }

    fn parse(parser: &mut Parser<'a>) -> (r: Result<Self, Error>) {
        let type_index = Index::parse(parser)?;
        let tag_index = Index::parse(parser)?;
        Ok(Switch { type_index, tag_index })
    }
}

/// A representation of resume tables
#[derive(Debug, Clone)]
pub struct ResumeTable<'a> {
    pub handlers: Vec<Handle<'a>>,
}

/// A representation of resume table entries
#[derive(Debug, Clone)]
pub enum Handle<'a> {
    OnLabel { tag: Index<'a>, label: Index<'a> },
    OnSwitch { tag: Index<'a> },
}

/// `(on tag switch)` or `(on tag label)`.
pub open spec fn handler<'a>(input: Input<'a>, at: Cursor) -> Parsed<Handle<'a>> {
    match input.open(at) {
        Ok((_, a)) => match input.keyword(a, "on"@, "expected keyword `on`") {
            Ok((_, b)) => match Index::grammar(input, b) {
                Ok((tag, c)) => {
                    let handle = if input.at_keyword(c, "switch"@) {
                        Ok((Handle::OnSwitch { tag }, input.step(c)))
                    } else {
                        match Index::grammar(input, c) {
                            Ok((label, d)) => Ok((Handle::OnLabel { tag, label }, d)),
                            Err(e) => Err(e),
                        }
                    };
                    match handle {
                        Ok((h, d)) => match input.close(d) {
                            Ok((_, to)) => Ok((h, to)),
                            Err(e) => Err(e),
                        },
                        Err(e) => Err(e),
                    }
                },
                Err(e) => Err(e),
            },
            Err(e) => Err(e),
        },
        Err(e) => Err(e),
    }
}

pub proof fn lemma_handler_advances<'a>(input: Input<'a>, at: Cursor)
    ensures
        handler(input, at) matches Ok((_, to)) ==> at.pos < to.pos,
{
    input.lemma_step(at);
    let a = input.step(at);
    input.lemma_step(a);
    let b = input.step(a);
    lemma_index_advances(input, b);
    if let Ok((_, c)) = Index::grammar(input, b) {
        input.lemma_step(c);
        input.lemma_step(input.step(c));
        lemma_index_advances(input, c);
        if let Ok((_, d)) = Index::grammar(input, c) {
            input.lemma_step(d);
        }
    }
}

fn parse_handler<'a>(parser: &mut Parser<'a>) -> (r: Result<Handle<'a>, Error>)
    requires
        old(parser).wf(),
    ensures
        final(parser).same_source(old(parser)),
        handler(old(parser).input(), old(parser).at()) == final(parser).outcome(r),
{
    let _ = parser.open()?;
    let _ = parser.keyword("on", "expected keyword `on`")?;
    let tag = Index::parse(parser)?;
    let handle = if parser.peek_keyword("switch") {
        parser.advance();
        Handle::OnSwitch { tag }
    } else {
        let label = Index::parse(parser)?;
        Handle::OnLabel { tag, label }
    };
    let _ = parser.close()?;
    Ok(handle)
}

/// The handlers from here on, behind those of `acc`.
pub open spec fn handlers<'a>(input: Input<'a>, at: Cursor, acc: Seq<Handle<'a>>) -> Parsed<
    Seq<Handle<'a>>,
>
    decreases input.left(at),
{
    if input.at_lparen(at) && input.keyword_follows(at, "on"@) {
        proof {
            lemma_handler_advances(input, at);
        }
        match handler(input, at) {
            Ok((h, to)) => handlers(input, to, acc.push(h)),
            Err(e) => Err(e),
        }
    } else {
        Ok((acc, at))
    }
}

pub proof fn lemma_handlers_advance<'a>(input: Input<'a>, at: Cursor, acc: Seq<Handle<'a>>)
    ensures
        handlers(input, at, acc) matches Ok((_, to)) ==> at.pos <= to.pos,
    decreases input.left(at),
{
    if input.at_lparen(at) && input.keyword_follows(at, "on"@) {
        lemma_handler_advances(input, at);
        if let Ok((h, to)) = handler(input, at) {
            lemma_handlers_advance(input, to, acc.push(h));
        }
    }
}

impl<'a> Parse<'a> for ResumeTable<'a> {
    type Ast = Seq<Handle<'a>>;

    open spec fn ast(&self) -> Seq<Handle<'a>> {
        self.handlers@
    }

    open spec fn grammar(input: Input<'a>, at: Cursor) -> Parsed<Seq<Handle<'a>>> {
        handlers(input, at, Seq::empty())
    }

    proof fn lemma_advances(input: Input<'a>, at: Cursor) {
        lemma_handlers_advance(input, at, Seq::empty());
    }

    fn parse(parser: &mut Parser<'a>) -> (r: Result<Self, Error>) {
        let ghost input = parser.input();
        let mut list: Vec<Handle<'a>> = Vec::new();
        while parser.peek_lparen() && parser.peek2_keyword("on")
            invariant
                parser.same_source(old(parser)),
                input == old(parser).input(),
                handlers(input, old(parser).at(), Seq::empty()) == handlers(
                    input,
                    parser.at(),
                    list@,
                ),
            decreases input.left(parser.at()),
        {
            proof {
                lemma_handler_advances(input, parser.at());
            }
            let h = parse_handler(parser)?;
            list.push(h);
        }
        Ok(ResumeTable { handlers: list })
    }
}

/// Extra information associated with the `try_table` instruction.
#[derive(Debug, Clone)]
pub struct TryTable<'a> {
    pub block: Box<BlockType<'a>>,
    pub catches: Vec<TryTableCatch<'a>>,
}

/// The parts of a [`TryTable`].
#[verifier::ext_equal]
pub struct TryTableAst<'a> {
    pub block: BlockTypeAst<'a>,
    pub catches: Seq<TryTableCatch<'a>>,
}

/// Which exceptions a catch clause catches.
#[derive(Debug, Clone)]
pub enum TryTableCatchKind<'a> {
    /// Catch a tagged exception, do not capture an exnref.
    Catch(Index<'a>),
    /// Catch a tagged exception, and capture the exnref.
    CatchRef(Index<'a>),
    /// Catch any exception, do not capture an exnref.
    CatchAll,
    /// Catch any exception, and capture the exnref.
    CatchAllRef,
}

impl<'a> TryTableCatchKind<'a> {
    /// The tag that is caught, if a single one is.
    pub open spec fn tag_index(self) -> Option<Index<'a>> {
        match self {
            TryTableCatchKind::Catch(tag) => Some(tag),
            TryTableCatchKind::CatchRef(tag) => Some(tag),
            TryTableCatchKind::CatchAll => None,
            TryTableCatchKind::CatchAllRef => None,
        }
    }

    /// The same kind, with another tag where it has one.
    pub open spec fn with_tag_index(self, tag: Index<'a>) -> TryTableCatchKind<'a> {
        match self {
            TryTableCatchKind::Catch(_) => TryTableCatchKind::Catch(tag),
            TryTableCatchKind::CatchRef(_) => TryTableCatchKind::CatchRef(tag),
            kind => kind,
        }
    }

    /// Gives access to the tag that is caught, if a single one is.
    pub fn tag_index_mut(&mut self) -> (r: Option<&mut Index<'a>>)
        ensures
            match r {
                Some(tag) => {
                    &&& old(self).tag_index() == Some(*tag)
                    &&& *final(self) == old(self).with_tag_index(*final(tag))
                },
                None => old(self).tag_index() is None && *final(self) == *old(self),
            },
    {
        match self {
            TryTableCatchKind::Catch(tag) => Some(tag),
            TryTableCatchKind::CatchRef(tag) => Some(tag),
            TryTableCatchKind::CatchAll => None,
            TryTableCatchKind::CatchAllRef => None,
        }
    }
}

/// A catch clause: what it catches, and where it branches to.
#[derive(Debug, Clone)]
pub struct TryTableCatch<'a> {
    pub kind: TryTableCatchKind<'a>,
    pub label: Index<'a>,
}

/// The keyword and the tag of a catch clause.
pub open spec fn catch_kind<'a>(input: Input<'a>, at: Cursor) -> Parsed<TryTableCatchKind<'a>> {
    if input.at_keyword(at, "catch_ref"@) {
        match Index::grammar(input, input.step(at)) {
            Ok((tag, to)) => Ok((TryTableCatchKind::CatchRef(tag), to)),
            Err(e) => Err(e),
        }
    } else if input.at_keyword(at, "catch"@) {
        match Index::grammar(input, input.step(at)) {
            Ok((tag, to)) => Ok((TryTableCatchKind::Catch(tag), to)),
            Err(e) => Err(e),
        }
    } else if input.at_keyword(at, "catch_all"@) {
        Ok((TryTableCatchKind::CatchAll, input.step(at)))
    } else if input.at_keyword(at, "catch_all_ref"@) {
        Ok((TryTableCatchKind::CatchAllRef, input.step(at)))
    } else {
        input.fail(at, "expected keyword `catch_all_ref`")
    }
}

/// A catch clause, in its parentheses.
pub open spec fn catch_clause<'a>(input: Input<'a>, at: Cursor) -> Parsed<TryTableCatch<'a>> {
    match input.open(at) {
        Ok((_, a)) => match catch_kind(input, a) {
            Ok((kind, b)) => match Index::grammar(input, b) {
                Ok((label, c)) => match input.close(c) {
                    Ok((_, to)) => Ok((TryTableCatch { kind, label }, to)),
                    Err(e) => Err(e),
                },
                Err(e) => Err(e),
            },
            Err(e) => Err(e),
        },
        Err(e) => Err(e),
    }
}

pub proof fn lemma_catch_clause_advances<'a>(input: Input<'a>, at: Cursor)
    ensures
        catch_clause(input, at) matches Ok((_, to)) ==> at.pos < to.pos,
{
    input.lemma_step(at);
    let a = input.step(at);
    input.lemma_step(a);
    lemma_index_advances(input, input.step(a));
    if let Ok((_, b)) = catch_kind(input, a) {
        lemma_index_advances(input, b);
        if let Ok((_, c)) = Index::grammar(input, b) {
            input.lemma_step(c);
        }
    }
}

fn parse_catch_kind<'a>(parser: &mut Parser<'a>) -> (r: Result<TryTableCatchKind<'a>, Error>)
    requires
        old(parser).wf(),
    ensures
        final(parser).same_source(old(parser)),
        catch_kind(old(parser).input(), old(parser).at()) == final(parser).outcome(r),
{
    if parser.peek_keyword("catch_ref") {
        parser.advance();
        let tag = Index::parse(parser)?;
        Ok(TryTableCatchKind::CatchRef(tag))
    } else if parser.peek_keyword("catch") {
        parser.advance();
        let tag = Index::parse(parser)?;
        Ok(TryTableCatchKind::Catch(tag))
    } else if parser.peek_keyword("catch_all") {
        parser.advance();
        Ok(TryTableCatchKind::CatchAll)
    } else {
        let _ = parser.keyword("catch_all_ref", "expected keyword `catch_all_ref`")?;
        Ok(TryTableCatchKind::CatchAllRef)
    }
}

fn parse_catch_clause<'a>(parser: &mut Parser<'a>) -> (r: Result<TryTableCatch<'a>, Error>)
    requires
        old(parser).wf(),
    ensures
        final(parser).same_source(old(parser)),
        catch_clause(old(parser).input(), old(parser).at()) == final(parser).outcome(r),
{
    let _ = parser.open()?;
    let kind = parse_catch_kind(parser)?;
    let label = Index::parse(parser)?;
    let _ = parser.close()?;
    Ok(TryTableCatch { kind, label })
}

/// A catch clause starts here.
pub open spec fn at_catch<'a>(input: Input<'a>, at: Cursor) -> bool {
    input.at_lparen(at) && (input.keyword_follows(at, "catch"@) || input.keyword_follows(
        at,
        "catch_ref"@,
    ) || input.keyword_follows(at, "catch_all"@) || input.keyword_follows(at, "catch_all_ref"@))
}

/// The catch clauses from here on, behind those of `acc`.
pub open spec fn catch_clauses<'a>(
    input: Input<'a>,
    at: Cursor,
    acc: Seq<TryTableCatch<'a>>,
) -> Parsed<Seq<TryTableCatch<'a>>>
    decreases input.left(at),
{
    if at_catch(input, at) {
        proof {
            lemma_catch_clause_advances(input, at);
        }
        match catch_clause(input, at) {
            Ok((c, to)) => catch_clauses(input, to, acc.push(c)),
            Err(e) => Err(e),
        }
    } else {
        Ok((acc, at))
    }
}

pub proof fn lemma_catch_clauses_advance<'a>(
    input: Input<'a>,
    at: Cursor,
    acc: Seq<TryTableCatch<'a>>,
)
    ensures
        catch_clauses(input, at, acc) matches Ok((_, to)) ==> at.pos <= to.pos,
    decreases input.left(at),
{
    if at_catch(input, at) {
        lemma_catch_clause_advances(input, at);
        if let Ok((c, to)) = catch_clause(input, at) {
            lemma_catch_clauses_advance(input, to, acc.push(c));
        }
    }
}

impl<'a> View for TryTable<'a> {
    type V = TryTableAst<'a>;

    open spec fn view(&self) -> TryTableAst<'a> {
        TryTableAst { block: (*self.block)@, catches: self.catches@ }
    }
}

impl<'a> Parse<'a> for TryTable<'a> {
    type Ast = TryTableAst<'a>;

    open spec fn ast(&self) -> TryTableAst<'a> {
        self@
    }

    open spec fn grammar(input: Input<'a>, at: Cursor) -> Parsed<TryTableAst<'a>> {
        match BlockType::grammar(input, at) {
            Ok((block, a)) => match catch_clauses(input, a, Seq::empty()) {
                Ok((catches, to)) => Ok((TryTableAst { block, catches }, to)),
                Err(e) => Err(e),
            },
            Err(e) => Err(e),
        }
    }

    proof fn lemma_advances(input: Input<'a>, at: Cursor) {
        BlockType::lemma_advances(input, at);
        if let Ok((_, a)) = BlockType::grammar(input, at) {
            lemma_catch_clauses_advance(input, a, Seq::empty());
        }
    }

    fn parse(parser: &mut Parser<'a>) -> (r: Result<Self, Error>) {
        let ghost input = parser.input();
        let block = BlockType::parse(parser)?;
        let ghost a = parser.at();
        let mut catches: Vec<TryTableCatch<'a>> = Vec::new();
        while parser.peek_lparen() && (parser.peek2_keyword("catch") || parser.peek2_keyword(
            "catch_ref",
        ) || parser.peek2_keyword("catch_all") || parser.peek2_keyword("catch_all_ref"))
            invariant
                parser.same_source(old(parser)),
                input == old(parser).input(),
                BlockType::grammar(input, old(parser).at()) == Ok::<_, Error>((block@, a)),
                catch_clauses(input, a, Seq::empty()) == catch_clauses(
                    input,
                    parser.at(),
                    catches@,
                ),
            decreases input.left(parser.at()),
        {
            proof {
                lemma_catch_clause_advances(input, parser.at());
            }
            let c = parse_catch_clause(parser)?;
            catches.push(c);
        }
        Ok(TryTable { block: Box::new(block), catches })
    }
}

/// Extra information associated with the `br_table` instruction.
#[derive(Debug, Clone)]
pub struct BrTableIndices<'a> {
    pub labels: Vec<Index<'a>>,
    pub default: Index<'a>,
}

/// The parts of a [`BrTableIndices`].
#[verifier::ext_equal]
pub struct BrTableIndicesAst<'a> {
    pub labels: Seq<Index<'a>>,
    pub default: Index<'a>,
}

impl<'a> View for BrTableIndices<'a> {
    type V = BrTableIndicesAst<'a>;

    open spec fn view(&self) -> BrTableIndicesAst<'a> {
        BrTableIndicesAst { labels: self.labels@, default: self.default }
    }
}

/// The indices from here on, behind those of `acc`.
pub open spec fn indices<'a>(input: Input<'a>, at: Cursor, acc: Seq<Index<'a>>) -> Parsed<
    Seq<Index<'a>>,
>
    decreases input.left(at),
{
    if Index::starts(input, at) {
        proof {
            lemma_index_advances(input, at);
        }
        match Index::grammar(input, at) {
            Ok((i, to)) => indices(input, to, acc.push(i)),
            Err(e) => Err(e),
        }
    } else {
        Ok((acc, at))
    }
}

pub proof fn lemma_indices<'a>(input: Input<'a>, at: Cursor, acc: Seq<Index<'a>>)
    ensures
        indices(input, at, acc) matches Ok((all, to)) ==> at.pos <= to.pos && all.len()
            >= acc.len(),
    decreases input.left(at),
{
    if Index::starts(input, at) {
        lemma_index_advances(input, at);
        if let Ok((i, to)) = Index::grammar(input, at) {
            lemma_indices(input, to, acc.push(i));
        }
    }
}

/// One index or more; the last one is the default.
impl<'a> Parse<'a> for BrTableIndices<'a> {
    type Ast = BrTableIndicesAst<'a>;

    open spec fn ast(&self) -> BrTableIndicesAst<'a> {
        self@
    }

    open spec fn grammar(input: Input<'a>, at: Cursor) -> Parsed<BrTableIndicesAst<'a>> {
        match Index::grammar(input, at) {
            Ok((first, a)) => match indices(input, a, seq![first]) {
                Ok((all, to)) => Ok(
                    (BrTableIndicesAst { labels: all.drop_last(), default: all.last() }, to),
                ),
                Err(e) => Err(e),
            },
            Err(e) => Err(e),
        }
    }

    proof fn lemma_advances(input: Input<'a>, at: Cursor) {
        lemma_index_advances(input, at);
        if let Ok((first, a)) = Index::grammar(input, at) {
            lemma_indices(input, a, seq![first]);
        }
    }

    fn parse(parser: &mut Parser<'a>) -> (r: Result<Self, Error>) {
        let ghost input = parser.input();
        let first = Index::parse(parser)?;
        let ghost a = parser.at();
        let mut labels: Vec<Index<'a>> = Vec::new();
        labels.push(first);
        assert(labels@ =~= seq![first]);
        while Index::peek(parser)
            invariant
                labels@.len() > 0,
                parser.same_source(old(parser)),
                input == old(parser).input(),
                Index::grammar(input, old(parser).at()) == Ok::<_, Error>((first, a)),
                indices(input, a, seq![first]) == indices(input, parser.at(), labels@),
            decreases input.left(parser.at()),
        {
            proof {
                lemma_index_advances(input, parser.at());
            }
            let i = Index::parse(parser)?;
            labels.push(i);
        }
        let default = labels.pop().unwrap();
        Ok(BrTableIndices { labels, default })
    }
}

/// Extra data associated with the `call_indirect` instruction.
#[derive(Debug, Clone)]
pub struct CallIndirect<'a> {
    /// The table that this call is going to be indexing.
    pub table: Index<'a>,
    /// Type type signature that this `call_indirect` instruction is using.
    pub ty: TypeUse<'a, FunctionType<'a>>,
}

/// The parts of a [`CallIndirect`].
pub struct CallIndirectAst<'a> {
    pub table: Index<'a>,
    pub ty: TypeUseAst<'a>,
}

impl<'a> View for CallIndirect<'a> {
    type V = CallIndirectAst<'a>;

    open spec fn view(&self) -> CallIndirectAst<'a> {
        CallIndirectAst { table: self.table, ty: self.ty@ }
    }
}

/// The index of a table, which is 0 where none is given, and a type use.
impl<'a> Parse<'a> for CallIndirect<'a> {
    type Ast = CallIndirectAst<'a>;

    open spec fn ast(&self) -> CallIndirectAst<'a> {
        self@
    }

    open spec fn grammar(input: Input<'a>, at: Cursor) -> Parsed<CallIndirectAst<'a>> {
        match Option::<Index<'a>>::grammar(input, at) {
            Ok((index, a)) => match TypeUse::<'a, FunctionTypeNoNames<'a>>::grammar(input, a) {
                Ok((ty, to)) => Ok(
                    (
                        CallIndirectAst { table: index.unwrap_or(Index::Num(0, at.prev)), ty },
                        to,
                    ),
                ),
                Err(e) => Err(e),
            },
            Err(e) => Err(e),
        }
    }

    proof fn lemma_advances(input: Input<'a>, at: Cursor) {
        Option::<Index<'a>>::lemma_advances(input, at);
        if let Ok((_, a)) = Option::<Index<'a>>::grammar(input, at) {
            TypeUse::<'a, FunctionTypeNoNames<'a>>::lemma_advances(input, a);
        }
    }

    fn parse(parser: &mut Parser<'a>) -> (r: Result<Self, Error>) {
        let prev_span = parser.prev_span();
        let table = Option::<Index<'a>>::parse(parser)?;
        let ty = TypeUse::<'a, FunctionTypeNoNames<'a>>::parse(parser)?;
        Ok(
            CallIndirect {
                table: table.unwrap_or(Index::Num(0, prev_span)),
                ty: ty.with_names(),
            },
        )
    }
}

/// Payload of the `select` instructions
#[derive(Debug, Clone)]
pub struct SelectTypes<'a> {
    pub tys: Option<Vec<LabeledValType<'a>>>,
}

impl<'a> View for SelectTypes<'a> {
    type V = Option<Seq<LabeledValType<'a>>>;

    open spec fn view(&self) -> Option<Seq<LabeledValType<'a>>> {
        match self.tys {
            Some(tys) => Some(tys@),
            None => None,
        }
    }
}

/// A group `(result ...)`, whose types stand behind those of `acc`.
pub open spec fn result_group<'a>(
    input: Input<'a>,
    at: Cursor,
    acc: Seq<LabeledValType<'a>>,
) -> Parsed<Seq<LabeledValType<'a>>> {
    match input.open(at) {
        Ok((_, a)) => match input.keyword(a, "result"@, "expected keyword `result`") {
            Ok((_, b)) => match types_to_end(input, b, acc) {
                Ok((types, c)) => match input.close(c) {
                    Ok((_, to)) => Ok((types, to)),
                    Err(e) => Err(e),
                },
                Err(e) => Err(e),
            },
            Err(e) => Err(e),
        },
        Err(e) => Err(e),
    }
}

pub proof fn lemma_result_group_advances<'a>(
    input: Input<'a>,
    at: Cursor,
    acc: Seq<LabeledValType<'a>>,
)
    ensures
        result_group(input, at, acc) matches Ok((_, to)) ==> at.pos < to.pos,
{
    input.lemma_step(at);
    let a = input.step(at);
    input.lemma_step(a);
    let b = input.step(a);
    lemma_types_to_end_advances(input, b, acc);
    if let Ok((_, c)) = types_to_end(input, b, acc) {
        input.lemma_step(c);
    }
}

/// The groups `(result ...)` from here on, whose types stand behind those of
/// `acc`.
pub open spec fn result_groups<'a>(
    input: Input<'a>,
    at: Cursor,
    acc: Seq<LabeledValType<'a>>,
) -> Parsed<Seq<LabeledValType<'a>>>
    decreases input.left(at),
{
    if input.keyword_follows(at, "result"@) {
        proof {
            lemma_result_group_advances(input, at, acc);
        }
        match result_group(input, at, acc) {
            Ok((types, to)) => result_groups(input, to, types),
            Err(e) => Err(e),
        }
    } else {
        Ok((acc, at))
    }
}

pub proof fn lemma_result_groups_advance<'a>(
    input: Input<'a>,
    at: Cursor,
    acc: Seq<LabeledValType<'a>>,
)
    ensures
        result_groups(input, at, acc) matches Ok((_, to)) ==> at.pos <= to.pos,
    decreases input.left(at),
{
    if input.keyword_follows(at, "result"@) {
        lemma_result_group_advances(input, at, acc);
        if let Ok((types, to)) = result_group(input, at, acc) {
            lemma_result_groups_advance(input, to, types);
        }
    }
}

fn parse_result_group<'a>(parser: &mut Parser<'a>, list: &mut Vec<LabeledValType<'a>>) -> (r:
    Result<(), Error>)
    requires
        old(parser).wf(),
    ensures
        final(parser).same_source(old(parser)),
        match r {
            Ok(_) => result_group(old(parser).input(), old(parser).at(), old(list)@) == Ok::<
                _,
                Error,
            >((final(list)@, final(parser).at())),
            Err(e) => result_group(old(parser).input(), old(parser).at(), old(list)@) == Err::<
                (Seq<LabeledValType<'a>>, Cursor),
                Error,
            >(e),
        },
{
    let _ = parser.open()?;
    let _ = parser.keyword("result", "expected keyword `result`")?;
    parse_types_to_end(parser, list)?;
    let _ = parser.close()?;
    Ok(())
}

/// The types of all groups `(result ...)`; nothing where there is no such group.
impl<'a> Parse<'a> for SelectTypes<'a> {
    type Ast = Option<Seq<LabeledValType<'a>>>;

    open spec fn ast(&self) -> Option<Seq<LabeledValType<'a>>> {
        self@
    }

    open spec fn grammar(input: Input<'a>, at: Cursor) -> Parsed<
        Option<Seq<LabeledValType<'a>>>,
    > {
        if input.keyword_follows(at, "result"@) {
            match result_groups(input, at, Seq::empty()) {
                Ok((types, to)) => Ok((Some(types), to)),
                Err(e) => Err(e),
            }
        } else {
            Ok((None, at))
        }
    }

    proof fn lemma_advances(input: Input<'a>, at: Cursor) {
        lemma_result_groups_advance(input, at, Seq::empty());
    }

    fn parse(parser: &mut Parser<'a>) -> (r: Result<Self, Error>) {
        let ghost input = parser.input();
        let mut found = false;
        let mut list: Vec<LabeledValType<'a>> = Vec::new();
        while parser.peek2_keyword("result")
            invariant
                parser.same_source(old(parser)),
                input == old(parser).input(),
                found ==> input.keyword_follows(old(parser).at(), "result"@),
                !found ==> parser.at() == old(parser).at(),
                result_groups(input, old(parser).at(), Seq::empty()) == result_groups(
                    input,
                    parser.at(),
                    list@,
                ),
            decreases input.left(parser.at()),
        {
            found = true;
            proof {
                lemma_result_group_advances(input, parser.at(), list@);
            }
            parse_result_group(parser, &mut list)?;
        }
        Ok(
            SelectTypes {
                tys: if found {
                    Some(list)
                } else {
                    None
                },
            },
        )
    }
}

} // verus!
