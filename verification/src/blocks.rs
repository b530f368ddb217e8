//! Operands that are made of several parts: blocks, calls, and tables of labels,
//! clauses and handlers.

use vstd::prelude::*;

use crate::arguments::parsed_as;
use crate::atoms::lemma_index_advances;
use crate::control::{
    at_catch, catch_clause, catch_clauses, handler, handlers, indices, lemma_catch_clause_advances,
    lemma_handler_advances, BlockType, BrTableIndices, CallIndirect, Handle, Resume, ResumeTable,
    ResumeThrow, TryTable, TryTableCatch, TryTableCatchKind,
};
use crate::parser::{Cursor, Input, Parse, Peek};
use crate::token::{Error, Id, Index, NameAnnotation};
use crate::types::{FunctionType, FunctionTypeNoNames, TypeUse};

verus! {

/// The same type, where parameters could be named.
pub open spec fn same_type<'a>(
    t: TypeUse<'a, FunctionType<'a>>,
    u: TypeUse<'a, FunctionTypeNoNames<'a>>,
) -> bool {
    &&& t.index == u.index
    &&& match (t.inline, u.inline) {
        (Some(f), Some(g)) => f.params@ == g.0.params@ && f.results@ == g.0.results@,
        (None, None) => true,
        _ => false,
    }
}

/// A block has the label, the name and the type that are written, in this order.
pub proof fn law_block<'a>(
    input: Input<'a>,
    at: Cursor,
    label: Option<Id<'a>>,
    a: Cursor,
    name: Option<NameAnnotation<'a>>,
    b: Cursor,
    t: TypeUse<'a, FunctionTypeNoNames<'a>>,
    c: Cursor,
    x: BlockType<'a>,
    to: Cursor,
)
    requires
        parsed_as(input, at, label, a),
        Option::<NameAnnotation<'a>>::grammar(input, a) == Ok::<_, Error>((name, b)),
        parsed_as(input, b, t, c),
    ensures
        BlockType::grammar(input, at) is Ok,
        parsed_as(input, at, x, to) ==> {
            &&& x.label == label
            &&& x.label_name == name
            &&& same_type(x.ty, t)
            &&& to == c
        },
{
    if parsed_as(input, at, x, to) {
        assert(x.ty@.inline == t.inline.ast());
    }
}

/// The name of a block stands in a group `(@name "...")`; where no such group stands,
/// it has none.
pub proof fn law_optional_name<'a>(input: Input<'a>, at: Cursor, x: NameAnnotation<'a>, c: Cursor)
    requires
        ({
            let named = input.with_annotation("name"@);
            let a = named.step(at);
            named.at_lparen(at) && parsed_as(named, a, x, c) && named.at_rparen(c)
        }),
    ensures
        Option::<NameAnnotation<'a>>::grammar(input, at) == Ok::<_, Error>(
            (Some(x), input.with_annotation("name"@).step(c)),
        ),
{
}

/// A call through a table names the table, which is the first one if it is left out,
/// and then the type of the function.
pub proof fn law_call_indirect<'a>(
    input: Input<'a>,
    at: Cursor,
    table: Option<Index<'a>>,
    a: Cursor,
    t: TypeUse<'a, FunctionTypeNoNames<'a>>,
    b: Cursor,
    x: CallIndirect<'a>,
    to: Cursor,
)
    requires
        match table {
            Some(i) => parsed_as(input, at, i, a),
            None => !Index::starts(input, at) && a == at,
        },
        parsed_as(input, a, t, b),
    ensures
        CallIndirect::grammar(input, at) is Ok,
        parsed_as(input, at, x, to) ==> {
            &&& x.table == match table {
                Some(i) => i,
                None => Index::Num(0, at.prev),
            }
            &&& same_type(x.ty, t)
            &&& to == b
        },
{
    if parsed_as(input, at, x, to) {
        assert(x.ty@.inline == t.inline.ast());
    }
}

/// The indices of `list` stand in a row from `at` to `to`.
pub open spec fn indices_stand<'a>(
    input: Input<'a>,
    at: Cursor,
    list: Seq<Index<'a>>,
    to: Cursor,
) -> bool
    decreases list.len(),
{
    if list.len() == 0 {
        to == at
    } else {
        match Index::grammar(input, at) {
            Ok((x, a)) => x == list[0] && indices_stand(input, a, list.skip(1), to),
            Err(_) => false,
        }
    }
}

proof fn lemma_indices_stand<'a>(
    input: Input<'a>,
    at: Cursor,
    list: Seq<Index<'a>>,
    to: Cursor,
    acc: Seq<Index<'a>>,
)
    requires
        indices_stand(input, at, list, to),
        !Index::starts(input, to),
    ensures
        indices(input, at, acc) == Ok::<_, Error>((acc + list, to)),
    decreases list.len(),
{
    if list.len() == 0 {
        assert(acc + list =~= acc);
    } else {
        let (x, a) = Index::grammar(input, at)->Ok_0;
        lemma_index_advances(input, at);
        lemma_indices_stand(input, a, list.skip(1), to, acc.push(x));
        assert(acc.push(x) + list.skip(1) =~= acc + list);
    }
}

/// A branch table is the indices in a row: the last one is the default, and those
/// before it are the labels, in the order of the text.
pub proof fn law_branch_table<'a>(
    input: Input<'a>,
    at: Cursor,
    list: Seq<Index<'a>>,
    end: Cursor,
    x: BrTableIndices<'a>,
    to: Cursor,
)
    requires
        list.len() > 0,
        indices_stand(input, at, list, end),
        !Index::starts(input, end),
    ensures
        BrTableIndices::grammar(input, at) is Ok,
        parsed_as(input, at, x, to) ==> {
            &&& x.labels@.push(x.default) == list
            &&& to == end
        },
{
    let (first, a) = Index::grammar(input, at)->Ok_0;
    lemma_indices_stand(input, a, list.skip(1), end, seq![first]);
    assert(seq![first] + list.skip(1) =~= list);
    assert(list.drop_last().push(list.last()) =~= list);
    if parsed_as(input, at, x, to) {
        assert(x.ast().labels == x.labels@);
    }
}

/// A catch clause names its tag, where it catches only exceptions with one, and then
/// the label that it branches to. The keyword tells which exceptions it catches, and
/// whether it hands them on.
pub proof fn law_catch_clause<'a>(
    input: Input<'a>,
    at: Cursor,
    tag: Index<'a>,
    b: Cursor,
    label: Index<'a>,
    c: Cursor,
)
    requires
        input.at_lparen(at),
        ({
            let a = input.step(at);
            if input.at_keyword(a, "catch"@) || input.at_keyword(a, "catch_ref"@) {
                parsed_as(input, input.step(a), tag, b)
            } else {
                b == input.step(a) && (input.at_keyword(a, "catch_all"@) || input.at_keyword(
                    a,
                    "catch_all_ref"@,
                ))
            }
        }),
        parsed_as(input, b, label, c),
        input.at_rparen(c),
    ensures
        at_catch(input, at),
        catch_clause(input, at) matches Ok((x, to)) && x.label == label && to == input.step(c)
            && match x.kind {
            TryTableCatchKind::Catch(t) => input.at_keyword(input.step(at), "catch"@) && t == tag,
            TryTableCatchKind::CatchRef(t) => input.at_keyword(input.step(at), "catch_ref"@) && t
                == tag,
            TryTableCatchKind::CatchAll => input.at_keyword(input.step(at), "catch_all"@),
            TryTableCatchKind::CatchAllRef => input.at_keyword(input.step(at), "catch_all_ref"@),
        },
{
    reveal_strlit("catch");
    reveal_strlit("catch_ref");
    reveal_strlit("catch_all");
    reveal_strlit("catch_all_ref");
    assert("catch_ref"@[6] != "catch_all"@[6]);
}

/// The clauses of `list` stand in a row from `at` to `to`.
pub open spec fn clauses_stand<'a>(
    input: Input<'a>,
    at: Cursor,
    list: Seq<TryTableCatch<'a>>,
    to: Cursor,
) -> bool
    decreases list.len(),
{
    if list.len() == 0 {
        to == at
    } else {
        match catch_clause(input, at) {
            Ok((x, a)) => at_catch(input, at) && x == list[0] && clauses_stand(
                input,
                a,
                list.skip(1),
                to,
            ),
            Err(_) => false,
        }
    }
}

proof fn lemma_clauses_stand<'a>(
    input: Input<'a>,
    at: Cursor,
    list: Seq<TryTableCatch<'a>>,
    to: Cursor,
    acc: Seq<TryTableCatch<'a>>,
)
    requires
        clauses_stand(input, at, list, to),
        !at_catch(input, to),
    ensures
        catch_clauses(input, at, acc) == Ok::<_, Error>((acc + list, to)),
    decreases list.len(),
{
    if list.len() == 0 {
        assert(acc + list =~= acc);
    } else {
        let (x, a) = catch_clause(input, at)->Ok_0;
        lemma_catch_clause_advances(input, at);
        lemma_clauses_stand(input, a, list.skip(1), to, acc.push(x));
        assert(acc.push(x) + list.skip(1) =~= acc + list);
    }
}

/// A `try_table` is a block with the catch clauses behind it, in the order of the
/// text.
pub proof fn law_try_table<'a>(
    input: Input<'a>,
    at: Cursor,
    block: BlockType<'a>,
    a: Cursor,
    list: Seq<TryTableCatch<'a>>,
    end: Cursor,
    x: TryTable<'a>,
    to: Cursor,
)
    requires
        parsed_as(input, at, block, a),
        clauses_stand(input, a, list, end),
        !at_catch(input, end),
    ensures
        TryTable::grammar(input, at) is Ok,
        parsed_as(input, at, x, to) ==> x.catches@ == list && (*x.block)@ == block@ && to == end,
{
    lemma_clauses_stand(input, a, list, end, Seq::empty());
    assert(Seq::empty() + list =~= list);
    if parsed_as(input, at, x, to) {
        assert(x.ast().catches == x.catches@);
    }
}

/// A handler is for the tag that comes first. It branches to the label behind it, or
/// switches.
pub proof fn law_handler<'a>(
    input: Input<'a>,
    at: Cursor,
    tag: Index<'a>,
    b: Cursor,
    label: Index<'a>,
    c: Cursor,
)
    requires
        input.at_lparen(at),
        input.at_keyword(input.step(at), "on"@),
        parsed_as(input, input.step(input.step(at)), tag, b),
        input.at_keyword(b, "switch"@) && c == input.step(b) || parsed_as(input, b, label, c),
        input.at_rparen(c),
    ensures
        handler(input, at) matches Ok((h, to)) && to == input.step(c) && match h {
            Handle::OnSwitch { tag: t } => t == tag && input.at_keyword(b, "switch"@),
            Handle::OnLabel { tag: t, label: l } => t == tag && l == label && parsed_as(
                input,
                b,
                label,
                c,
            ),
        },
{
}

/// The handlers of `list` stand in a row from `at` to `to`.
pub open spec fn handlers_stand<'a>(
    input: Input<'a>,
    at: Cursor,
    list: Seq<Handle<'a>>,
    to: Cursor,
) -> bool
    decreases list.len(),
{
    if list.len() == 0 {
        to == at
    } else {
        match handler(input, at) {
            Ok((x, a)) => x == list[0] && handlers_stand(input, a, list.skip(1), to),
            Err(_) => false,
        }
    }
}

proof fn lemma_handlers_stand<'a>(
    input: Input<'a>,
    at: Cursor,
    list: Seq<Handle<'a>>,
    to: Cursor,
    acc: Seq<Handle<'a>>,
)
    requires
        handlers_stand(input, at, list, to),
        !(input.at_lparen(to) && input.keyword_follows(to, "on"@)),
    ensures
        handlers(input, at, acc) == Ok::<_, Error>((acc + list, to)),
    decreases list.len(),
{
    if list.len() == 0 {
        assert(acc + list =~= acc);
    } else {
        let (x, a) = handler(input, at)->Ok_0;
        lemma_handler_advances(input, at);
        lemma_handlers_stand(input, a, list.skip(1), to, acc.push(x));
        assert(acc.push(x) + list.skip(1) =~= acc + list);
    }
}

/// A resumption names the type of the continuation, the tag that it throws where it
/// throws one, and the handlers, in the order of the text.
pub proof fn law_resumptions<'a>(
    input: Input<'a>,
    at: Cursor,
    x: Index<'a>,
    a: Cursor,
    y: Index<'a>,
    b: Cursor,
    list: Seq<Handle<'a>>,
    end: Cursor,
)
    requires
        parsed_as(input, at, x, a),
        parsed_as(input, a, y, b),
        handlers_stand(input, b, list, end),
        !(input.at_lparen(end) && input.keyword_follows(end, "on"@)),
    ensures
        ResumeThrow::grammar(input, at) is Ok,
        forall|t: ResumeThrow<'a>, to: Cursor| #[trigger]
            parsed_as(input, at, t, to) ==> {
                &&& t.type_index == x
                &&& t.tag_index == y
                &&& t.table.handlers@ == list
                &&& to == end
            },
        Resume::grammar(input, a) is Ok,
        forall|t: Resume<'a>, to: Cursor| #[trigger]
            parsed_as(input, a, t, to) ==> {
                &&& t.type_index == y
                &&& t.table.handlers@ == list
                &&& to == end
            },
        ResumeTable::grammar(input, b) is Ok,
        forall|t: ResumeTable<'a>, to: Cursor| #[trigger]
            parsed_as(input, b, t, to) ==> t.handlers@ == list && to == end,
{
    lemma_handlers_stand(input, b, list, end, Seq::empty());
    assert(Seq::empty() + list =~= list);
}

/// The tag of a catch clause can be replaced where it has one, and nothing else of it
/// changes.
pub proof fn law_tags<'a>(kind: TryTableCatchKind<'a>, tag: Index<'a>)
    ensures
        match kind {
            TryTableCatchKind::Catch(t) => kind.tag_index() == Some(t) && kind.with_tag_index(tag)
                == TryTableCatchKind::Catch(tag),
            TryTableCatchKind::CatchRef(t) => kind.tag_index() == Some(t) && kind.with_tag_index(
                tag,
            ) == TryTableCatchKind::CatchRef(tag),
            _ => kind.tag_index() is None && kind.with_tag_index(tag) == kind,
        },
{
}

/// A catch clause that was parsed starts with one of the four keywords, behind a
/// parenthesis, and a handler with `on`.
pub proof fn law_clause_keywords<'a>(input: Input<'a>, at: Cursor)
    ensures
        catch_clause(input, at) is Ok ==> at_catch(input, at),
        at_catch(input, at) ==> {
            let a = input.step(at);
            &&& input.at_lparen(at)
            &&& input.at_keyword(a, "catch"@) || input.at_keyword(a, "catch_ref"@)
                || input.at_keyword(a, "catch_all"@) || input.at_keyword(a, "catch_all_ref"@)
        },
        handler(input, at) is Ok ==> input.at_lparen(at) && input.at_keyword(input.step(at), "on"@),
{
}

} // verus!
