//! An instruction denotes the same wherever it stands, but for positions.

use vstd::prelude::*;

use crate::atoms::{index_follows, lemma_index_advances};
use crate::control::{
    at_catch, catch_clause, catch_clauses, catch_kind, indices, lemma_catch_clause_advances,
    lemma_catch_clauses_advance, lemma_indices, lemma_result_group_advances,
    lemma_result_groups_advance, result_group, result_groups, BlockType, BrTableIndices,
    CallIndirect, SelectTypes, TryTable, TryTableCatch,
};
use crate::grammar::form;
use crate::instruction::{operand_grammar, Operand};
use crate::labels::{AllInstructions, LabelAnnotation, MemoryInstruction};
use crate::memory::{is_field, mem_field, MemArg};
use crate::opcode::{MemoryOpcode, Opcode, OperandKind};
use crate::parser::{
    annotation_at, annotations_closed, group_end, lemma_group_end_bounds, Cursor, Input, Parse,
    Peek,
};
use crate::token::{Id, Index, NameAnnotation, TokenKind};
use crate::types::{
    lemma_labeled_val_type_advances, lemma_signature_advances, lemma_signature_group_advances,
    signature, signature_group, type_index, types_to_end, unnamed, FunctionTypeAst,
    FunctionTypeNoNames, HeapType, LabeledValType, RefType, TypeUse, ValType,
};
use crate::unplaced;

verus! {

/// The whole of the text `x` stands in `y`, from the token `p` on, but for
/// positions. Neither text is cut inside of an annotation.
pub open spec fn stands_in<'a>(x: Input<'a>, y: Input<'a>, p: int) -> bool {
    let e = p + x.toks.len();
    &&& x.known == y.known
    &&& 0 <= p && e <= y.toks.len()
    &&& forall|i: int| 0 <= i < x.toks.len() ==> #[trigger] x.toks[i].kind == y.toks[p + i].kind
    &&& annotations_closed(x.toks)
    &&& x.toks.len() > 0 ==> !(x.toks.last().kind is LParen)
    &&& y.skip(e) == e
}

/// A token that continues no instruction in front of it, neither by itself nor
/// together with the token in front of it.
pub open spec fn idle<'a>(kind: TokenKind<'a>) -> bool {
    match kind {
        TokenKind::Id(_) => false,
        TokenKind::Integer(_) => false,
        TokenKind::Keyword(k) => {
            &&& k@ != "type"@ && k@ != "param"@ && k@ != "result"@
            &&& !is_field(k@, "offset"@) && !is_field(k@, "align"@)
        },
        TokenKind::Annotation(n) => n@ != "name"@,
        _ => true,
    }
}

/// The text `x` stands in `y`, and the token behind it continues no instruction.
pub open spec fn set_in<'a>(x: Input<'a>, y: Input<'a>, p: int) -> bool {
    let e = p + x.toks.len();
    stands_in(x, y, p) && (e < y.toks.len() ==> idle(y.toks[e].kind))
}

/// The cursors are at the same place of the text.
pub open spec fn abreast<'a>(x: Input<'a>, p: int, a: Cursor, b: Cursor) -> bool {
    0 <= a.pos <= x.toks.len() && b.pos == a.pos + p
}

proof fn lemma_group_end_moves<'a>(x: Input<'a>, y: Input<'a>, p: int, i: int, depth: nat)
    requires
        stands_in(x, y, p),
        0 <= i,
    ensures
        group_end(x.toks, i, depth) matches Some(e) ==> e <= x.toks.len() && group_end(
            y.toks,
            i + p,
            depth,
        ) == Some(e + p),
    decreases x.toks.len() - i,
{
    lemma_group_end_bounds(x.toks, i, depth);
    if i < x.toks.len() {
        assert(x.toks[i].kind == y.toks[p + i].kind);
        lemma_group_end_moves(x, y, p, i + 1, depth + 1);
        lemma_group_end_moves(x, y, p, i + 1, depth);
        if depth > 1 {
            lemma_group_end_moves(x, y, p, i + 1, (depth - 1) as nat);
        }
    }
}

pub proof fn lemma_skip_moves<'a>(x: Input<'a>, y: Input<'a>, p: int, i: int)
    requires
        stands_in(x, y, p),
        0 <= i <= x.toks.len(),
    ensures
        y.skip(i + p) == x.skip(i) + p,
        i <= x.skip(i) <= x.toks.len(),
    decreases x.toks.len() - i,
{
    x.lemma_skip_bounds(i);
    if i < x.toks.len() {
        assert(x.toks[i].kind == y.toks[p + i].kind);
        if i + 1 < x.toks.len() {
            assert(x.toks[i + 1].kind == y.toks[p + (i + 1)].kind);
        }
        assert(annotation_at(x.toks, i) == annotation_at(y.toks, i + p));
        if annotation_at(x.toks, i) is Some {
            lemma_group_end_bounds(x.toks, i + 1, 1);
            lemma_group_end_moves(x, y, p, i + 1, 1);
            if let Some(e) = group_end(x.toks, i + 1, 1) {
                lemma_skip_moves(x, y, p, e);
            }
        }
    }
}

/// With one more annotation registered, a parser skips less: it stops at the same
/// token, or earlier at a parenthesis.
pub proof fn lemma_skip_known<'a>(x: Input<'a>, name: Seq<char>, i: int)
    ensures
        ({
            let (s, t) = (x.with_annotation(name).skip(i), x.skip(i));
            s == t || (s < t && 0 <= s < x.toks.len() && x.toks[s].kind is LParen)
        }),
    decreases x.toks.len() - i,
{
    let z = x.with_annotation(name);
    assert forall|n: Seq<char>| x.known.contains(n) implies z.known.contains(n) by {
        let k = choose|k: int| 0 <= k < x.known.len() && x.known[k] == n;
        assert(z.known[k] == n);
    }
    if let Some(n) = annotation_at(x.toks, i) {
        lemma_group_end_bounds(x.toks, i + 1, 1);
        if let Some(e) = group_end(x.toks, i + 1, 1) {
            lemma_skip_known(x, name, e);
            x.lemma_skip_bounds(e);
        }
    }
}

/// Registering an annotation leaves a text where it stands.
pub proof fn lemma_set_in_known<'a>(x: Input<'a>, y: Input<'a>, p: int, name: Seq<char>)
    requires
        set_in(x, y, p),
    ensures
        set_in(x.with_annotation(name), y.with_annotation(name), p),
{
    lemma_skip_known(y, name, p + x.toks.len());
    y.with_annotation(name).lemma_skip_bounds(p + x.toks.len());
}

/// The parser takes the same steps in both texts.
pub proof fn lemma_moves<'a>(x: Input<'a>, y: Input<'a>, p: int)
    requires
        stands_in(x, y, p),
    ensures
        forall|a: Cursor, b: Cursor|
            #![trigger x.step(a), y.step(b)]
            abreast(x, p, a, b) && a.pos < x.toks.len() ==> abreast(x, p, x.step(a), y.step(b))
                && a.pos < x.step(a).pos,
        forall|a: Cursor, b: Cursor|
            #![trigger x.tok(a), y.tok(b)]
            abreast(x, p, a, b) && a.pos < x.toks.len() ==> x.tok(a) == y.tok(b),
{
    assert forall|a: Cursor, b: Cursor|
        #![trigger x.step(a), y.step(b)]
        abreast(x, p, a, b) && a.pos < x.toks.len() implies abreast(x, p, x.step(a), y.step(b))
        && a.pos < x.step(a).pos by {
        lemma_skip_moves(x, y, p, a.pos + 1);
    }
    assert forall|a: Cursor, b: Cursor|
        #![trigger x.tok(a), y.tok(b)]
        abreast(x, p, a, b) && a.pos < x.toks.len() implies x.tok(a) == y.tok(b) by {
        assert(x.toks[a.pos].kind == y.toks[p + a.pos].kind);
    }
}

proof fn lemma_index_moves<'a>(x: Input<'a>, y: Input<'a>, p: int, a: Cursor, b: Cursor)
    requires
        set_in(x, y, p),
        abreast(x, p, a, b),
    ensures
        Index::grammar(x, a) matches Ok((v, to)) ==> {
            &&& Index::grammar(y, b) matches Ok((w, end))
            &&& unplaced::index(v) == unplaced::index(w)
            &&& abreast(x, p, to, end)
            &&& a.pos < to.pos
        },
{
    lemma_moves(x, y, p);
    assert(x.tok(a) is Some ==> x.tok(a) == y.tok(b));
    let (s, t) = (x.step(a), y.step(b));
}

proof fn lemma_optional_index_moves<'a>(x: Input<'a>, y: Input<'a>, p: int, a: Cursor, b: Cursor)
    requires
        set_in(x, y, p),
        abreast(x, p, a, b),
    ensures
        Option::<Index<'a>>::grammar(x, a) matches Ok((v, to)) ==> {
            &&& Option::<Index<'a>>::grammar(y, b) matches Ok((w, end))
            &&& match (v, w) {
                (Some(i), Some(j)) => unplaced::index(i) == unplaced::index(j),
                (None, None) => true,
                _ => false,
            }
            &&& abreast(x, p, to, end)
        },
{
    lemma_moves(x, y, p);
    lemma_index_moves(x, y, p, a, b);
    if a.pos < x.toks.len() {
        assert(x.tok(a) == y.tok(b));
    }
}

proof fn lemma_optional_id_moves<'a>(x: Input<'a>, y: Input<'a>, p: int, a: Cursor, b: Cursor)
    requires
        set_in(x, y, p),
        abreast(x, p, a, b),
    ensures
        Option::<Id<'a>>::grammar(x, a) matches Ok((v, to)) ==> {
            &&& Option::<Id<'a>>::grammar(y, b) matches Ok((w, end))
            &&& unplaced::optional_id(v) == unplaced::optional_id(w)
            &&& abreast(x, p, to, end)
        },
{
    lemma_moves(x, y, p);
    if a.pos < x.toks.len() {
        assert(x.tok(a) == y.tok(b));
    }
    let (s, t) = (x.step(a), y.step(b));
}

proof fn lemma_heap_type_moves<'a>(x: Input<'a>, y: Input<'a>, p: int, a: Cursor, b: Cursor)
    requires
        set_in(x, y, p),
        abreast(x, p, a, b),
    ensures
        HeapType::grammar(x, a) matches Ok((v, to)) ==> {
            &&& HeapType::grammar(y, b) matches Ok((w, end))
            &&& unplaced::heap_type(v) == unplaced::heap_type(w)
            &&& abreast(x, p, to, end)
            &&& a.pos < to.pos
        },
{
    lemma_moves(x, y, p);
    assert(x.tok(a) is Some ==> x.tok(a) == y.tok(b));
    let (c, d) = (x.step(a), y.step(b));
    lemma_index_moves(x, y, p, a, b);
}

proof fn lemma_ref_type_moves<'a>(x: Input<'a>, y: Input<'a>, p: int, a: Cursor, b: Cursor)
    requires
        set_in(x, y, p),
        abreast(x, p, a, b),
    ensures
        RefType::grammar(x, a) matches Ok((v, to)) ==> {
            &&& RefType::grammar(y, b) matches Ok((w, end))
            &&& v.nullable == w.nullable && unplaced::heap_type(v.heap) == unplaced::heap_type(w.heap)
            &&& abreast(x, p, to, end)
            &&& a.pos < to.pos
        },
{
    lemma_moves(x, y, p);
    assert(x.tok(a) is Some ==> x.tok(a) == y.tok(b));
    let (c, d) = (x.step(a), y.step(b));
    assert(x.tok(c) is Some ==> x.tok(c) == y.tok(d));
    let (e, f) = (x.step(c), y.step(d));
    assert(x.tok(e) is Some ==> x.tok(e) == y.tok(f));
    let (g, h) = (x.step(e), y.step(f));
    if x.at_lparen(a) && x.at_keyword(c, "ref"@) {
        assert(y.at_keyword(d, "ref"@));
        if x.tok(e) is Some {
            let (m, n) = if x.at_keyword(e, "null"@) {
                (g, h)
            } else {
                (e, f)
            };
            lemma_heap_type_moves(x, y, p, m, n);
            if let (Ok((_, to)), Ok((_, end))) = (HeapType::grammar(x, m), HeapType::grammar(y, n)) {
                assert(x.tok(to) is Some ==> x.tok(to) == y.tok(end));
                let (k, l) = (x.step(to), y.step(end));
            }
        }
    }
}

proof fn lemma_val_type_moves<'a>(x: Input<'a>, y: Input<'a>, p: int, a: Cursor, b: Cursor)
    requires
        set_in(x, y, p),
        abreast(x, p, a, b),
    ensures
        ValType::grammar(x, a) matches Ok((v, to)) ==> {
            &&& ValType::grammar(y, b) matches Ok((w, end))
            &&& unplaced::val_type(v) == unplaced::val_type(w)
            &&& abreast(x, p, to, end)
            &&& a.pos < to.pos
        },
{
    lemma_moves(x, y, p);
    assert(x.tok(a) is Some ==> x.tok(a) == y.tok(b));
    let (c, d) = (x.step(a), y.step(b));
    lemma_ref_type_moves(x, y, p, a, b);
}

proof fn lemma_label_moves<'a>(x: Input<'a>, y: Input<'a>, p: int, a: Cursor, b: Cursor)
    requires
        set_in(x, y, p),
        abreast(x, p, a, b),
    ensures
        LabelAnnotation::grammar(x, a) matches Ok((v, to)) ==> {
            &&& LabelAnnotation::grammar(y, b) matches Ok((w, end))
            &&& v == w
            &&& abreast(x, p, to, end)
            &&& a.pos < to.pos
        },
{
    lemma_moves(x, y, p);
    assert(x.tok(a) is Some ==> x.tok(a) == y.tok(b));
    let (c, d) = (x.step(a), y.step(b));
    assert(x.tok(c) is Some ==> x.tok(c) == y.tok(d));
    let (e, f) = (x.step(c), y.step(d));
}

proof fn lemma_labeled_type_moves<'a>(x: Input<'a>, y: Input<'a>, p: int, a: Cursor, b: Cursor)
    requires
        set_in(x, y, p),
        abreast(x, p, a, b),
    ensures
        LabeledValType::grammar(x, a) matches Ok((v, to)) ==> {
            &&& LabeledValType::grammar(y, b) matches Ok((w, end))
            &&& unplaced::labeled_type(v) == unplaced::labeled_type(w)
            &&& abreast(x, p, to, end)
            &&& a.pos < to.pos
        },
{
    lemma_moves(x, y, p);
    assert(x.tok(a) is Some ==> x.tok(a) == y.tok(b));
    let (c, d) = (x.step(a), y.step(b));
    lemma_label_moves(x, y, p, a, b);
    lemma_val_type_moves(x, y, p, a, b);
    if let (Ok((_, to)), Ok((_, end))) = (
        LabelAnnotation::grammar(x, a),
        LabelAnnotation::grammar(y, b),
    ) {
        lemma_val_type_moves(x, y, p, to, end);
    }
}

proof fn lemma_types_to_end_moves<'a>(
    x: Input<'a>,
    y: Input<'a>,
    p: int,
    a: Cursor,
    b: Cursor,
    l: Seq<LabeledValType<'a>>,
    m: Seq<LabeledValType<'a>>,
)
    requires
        set_in(x, y, p),
        abreast(x, p, a, b),
        unplaced::labeled_types(l) == unplaced::labeled_types(m),
    ensures
        (types_to_end(x, a, l) matches Ok((v, to)) && to.pos < x.toks.len()) ==> {
            &&& types_to_end(y, b, m) matches Ok((w, end))
            &&& unplaced::labeled_types(types_to_end(x, a, l)->Ok_0.0) == unplaced::labeled_types(w)
            &&& abreast(x, p, types_to_end(x, a, l)->Ok_0.1, end)
            &&& a.pos <= types_to_end(x, a, l)->Ok_0.1.pos
        },
    decreases x.left(a),
{
    lemma_moves(x, y, p);
    lemma_labeled_type_moves(x, y, p, a, b);
    lemma_labeled_val_type_advances(y, b);
    if a.pos < x.toks.len() {
        assert(x.tok(a) == y.tok(b));
        if !x.at_end(a) {
            if let (Ok((t, c)), Ok((u, d))) = (
                LabeledValType::grammar(x, a),
                LabeledValType::grammar(y, b),
            ) {
                lemma_labeled_types_push(l, m, t, u);
                lemma_types_to_end_moves(x, y, p, c, d, l.push(t), m.push(u));
            }
        }
    }
}

proof fn lemma_labeled_types_push<'a>(
    l: Seq<LabeledValType<'a>>,
    m: Seq<LabeledValType<'a>>,
    t: LabeledValType<'a>,
    u: LabeledValType<'a>,
)
    requires
        unplaced::labeled_types(l) == unplaced::labeled_types(m),
        unplaced::labeled_type(t) == unplaced::labeled_type(u),
    ensures
        unplaced::labeled_types(l.push(t)) == unplaced::labeled_types(m.push(u)),
{
    assert(unplaced::labeled_types(l.push(t)) =~= unplaced::labeled_types(l).push(
        unplaced::labeled_type(t),
    ));
    assert(unplaced::labeled_types(m.push(u)) =~= unplaced::labeled_types(m).push(
        unplaced::labeled_type(u),
    ));
}

/// Behind a token, this one starts no operand of the instruction in front of both.
pub open spec fn apart<'a>(kind: TokenKind<'a>) -> bool {
    match kind {
        TokenKind::Keyword(k) => k@ != "type"@ && k@ != "param"@ && k@ != "result"@,
        TokenKind::Annotation(n) => n@ != "name"@,
        _ => true,
    }
}

/// The token behind the one at `e` does not make that one continue an instruction.
pub open spec fn still<'a>(y: Input<'a>, e: int) -> bool {
    e < y.toks.len() && y.skip(e + 1) < y.toks.len() ==> apart(y.toks[y.skip(e + 1)].kind)
}

proof fn lemma_still_known<'a>(y: Input<'a>, e: int, name: Seq<char>)
    requires
        still(y, e),
    ensures
        still(y.with_annotation(name), e),
{
    lemma_skip_known(y, name, e + 1);
}

/// What can be looked up behind the next token is the same in both texts.
proof fn lemma_second_moves<'a>(x: Input<'a>, y: Input<'a>, p: int, a: Cursor, b: Cursor)
    requires
        set_in(x, y, p),
        abreast(x, p, a, b),
        a.pos < x.toks.len() || still(y, p + x.toks.len()),
        0 <= p,
    ensures
        x.keyword_follows(a, "type"@) == y.keyword_follows(b, "type"@),
        x.keyword_follows(a, "param"@) == y.keyword_follows(b, "param"@),
        x.keyword_follows(a, "result"@) == y.keyword_follows(b, "result"@),
        x.annotation_follows(a, "name"@) == y.annotation_follows(b, "name"@),
{
    lemma_moves(x, y, p);
    let (c, d) = (x.step(a), y.step(b));
    if a.pos < x.toks.len() {
        assert(x.tok(a) == y.tok(b));
        if c.pos < x.toks.len() {
            assert(x.tok(c) == y.tok(d));
        }
    } else {
        y.lemma_skip_bounds(b.pos + 1);
    }
}

proof fn lemma_signature_group_moves<'a>(
    x: Input<'a>,
    y: Input<'a>,
    p: int,
    a: Cursor,
    b: Cursor,
    l: FunctionTypeAst<'a>,
    m: FunctionTypeAst<'a>,
)
    requires
        set_in(x, y, p),
        abreast(x, p, a, b),
        unplaced::function_type(l) == unplaced::function_type(m),
    ensures
        signature_group(x, a, l) matches Ok((v, to)) ==> {
            &&& signature_group(y, b, m) matches Ok((w, end))
            &&& unplaced::function_type(v) == unplaced::function_type(w)
            &&& abreast(x, p, to, end)
        },
{
    lemma_moves(x, y, p);
    assert(x.tok(a) is Some ==> x.tok(a) == y.tok(b));
    let (c, d) = (x.step(a), y.step(b));
    assert(x.tok(c) is Some ==> x.tok(c) == y.tok(d));
    let (e, f) = (x.step(c), y.step(d));
    let none = Seq::<LabeledValType<'a>>::empty();
    assert(unplaced::labeled_types(l.results).len() == unplaced::labeled_types(m.results).len());
    if x.at_lparen(a) && x.tok(c) is Some {
        lemma_types_to_end_moves(x, y, p, e, f, none, none);
        lemma_types_to_end_moves(x, y, p, e, f, l.results, m.results);
        if let (Ok((t, g)), Ok((u, h))) = (types_to_end(x, e, none), types_to_end(y, f, none)) {
            assert(x.tok(g) is Some ==> x.tok(g) == y.tok(h));
            let (i, j) = (x.step(g), y.step(h));
            if g.pos < x.toks.len() {
                lemma_params_add(l, m, t, u);
            }
        }
        if let (Ok((t, g)), Ok((u, h))) = (
            types_to_end(x, e, l.results),
            types_to_end(y, f, m.results),
        ) {
            assert(x.tok(g) is Some ==> x.tok(g) == y.tok(h));
            let (i, j) = (x.step(g), y.step(h));
        }
    }
}

proof fn lemma_params_add<'a>(
    l: FunctionTypeAst<'a>,
    m: FunctionTypeAst<'a>,
    t: Seq<LabeledValType<'a>>,
    u: Seq<LabeledValType<'a>>,
)
    requires
        unplaced::function_type(l) == unplaced::function_type(m),
        unplaced::labeled_types(t) == unplaced::labeled_types(u),
    ensures
        unplaced::params(l.params + unnamed(t)) == unplaced::params(m.params + unnamed(u)),
{
    assert(unplaced::function_type(l).params == unplaced::function_type(m).params);
    assert(unplaced::params(l.params).len() == l.params.len());
    assert(unplaced::params(m.params).len() == m.params.len());
    assert(unplaced::labeled_types(t).len() == t.len());
    assert(unplaced::labeled_types(u).len() == u.len());
    assert forall|k: int| 0 <= k < l.params.len() + t.len() implies #[trigger] unplaced::param(
        (l.params + unnamed(t))[k],
    ) == unplaced::param((m.params + unnamed(u))[k]) by {
        if k < l.params.len() {
            assert(unplaced::params(l.params)[k] == unplaced::params(m.params)[k]);
        } else {
            let n = k - l.params.len();
            assert(unplaced::labeled_types(t)[n] == unplaced::labeled_type(t[n]));
            assert(unplaced::labeled_types(u)[n] == unplaced::labeled_type(u[n]));
        }
    }
    assert(unplaced::params(l.params + unnamed(t)) =~= unplaced::params(m.params + unnamed(u)));
}

proof fn lemma_signature_moves<'a>(
    x: Input<'a>,
    y: Input<'a>,
    p: int,
    a: Cursor,
    b: Cursor,
    l: FunctionTypeAst<'a>,
    m: FunctionTypeAst<'a>,
)
    requires
        set_in(x, y, p),
        abreast(x, p, a, b),
        unplaced::function_type(l) == unplaced::function_type(m),
    ensures
        signature(x, a, l) matches Ok((v, to)) ==> to.pos < x.toks.len() || still(
            y,
            p + x.toks.len(),
        ) ==> {
            &&& signature(y, b, m) matches Ok((w, end))
            &&& unplaced::function_type(v) == unplaced::function_type(w)
            &&& abreast(x, p, to, end)
        },
    decreases x.left(a),
{
    if a.pos < x.toks.len() || still(y, p + x.toks.len()) {
        lemma_second_moves(x, y, p, a, b);
    }
    if x.keyword_follows(a, "param"@) || x.keyword_follows(a, "result"@) {
        lemma_signature_group_advances(x, a, l);
        lemma_signature_group_advances(y, b, m);
        lemma_signature_group_moves(x, y, p, a, b, l, m);
        if let (Ok((t, c)), Ok((u, d))) = (signature_group(x, a, l), signature_group(y, b, m)) {
            lemma_signature_moves(x, y, p, c, d, t, u);
        }
    }
}

proof fn lemma_type_use_moves<'a>(x: Input<'a>, y: Input<'a>, p: int, a: Cursor, b: Cursor)
    requires
        set_in(x, y, p),
        abreast(x, p, a, b),
    ensures
        TypeUse::<'a, FunctionTypeNoNames<'a>>::grammar(x, a) matches Ok((v, to)) ==> to.pos
            < x.toks.len() || still(y, p + x.toks.len()) ==> {
            &&& TypeUse::<'a, FunctionTypeNoNames<'a>>::grammar(y, b) matches Ok((w, end))
            &&& unplaced::type_use(v) == unplaced::type_use(w)
            &&& abreast(x, p, to, end)
        },
{
    lemma_moves(x, y, p);
    let far = still(y, p + x.toks.len());
    if a.pos < x.toks.len() || far {
        lemma_second_moves(x, y, p, a, b);
        let (c, d) = if x.keyword_follows(a, "type"@) {
            assert(x.tok(a) == y.tok(b));
            let (e, f) = (x.step(a), y.step(b));
            assert(x.tok(e) is Some ==> x.tok(e) == y.tok(f));
            let (g, h) = (x.step(e), y.step(f));
            if x.tok(e) is Some {
                lemma_index_moves(x, y, p, g, h);
                if let (Ok((_, i)), Ok((_, j))) = (Index::grammar(x, g), Index::grammar(y, h)) {
                    assert(x.tok(i) is Some ==> x.tok(i) == y.tok(j));
                    let (k, l) = (x.step(i), y.step(j));
                }
            }
            if let (Ok((v, i)), Ok((w, j))) = (type_index(x, a), type_index(y, b)) {
                (i, j)
            } else {
                (a, b)
            }
        } else {
            (a, b)
        };
        if x.keyword_follows(a, "type"@) ==> type_index(x, a) is Ok {
            assert(abreast(x, p, c, d));
            let none = FunctionTypeAst { params: Seq::empty(), results: Seq::empty() };
            lemma_signature_moves(x, y, p, c, d, none, none);
            lemma_signature_advances(x, c, none);
            if c.pos < x.toks.len() || far {
                lemma_second_moves(x, y, p, c, d);
            }
            if c.pos < x.toks.len() {
                assert(x.tok(c) == y.tok(d));
            }
        }
    }
}

proof fn lemma_block_type_moves<'a>(x: Input<'a>, y: Input<'a>, p: int, a: Cursor, b: Cursor)
    requires
        set_in(x, y, p),
        abreast(x, p, a, b),
    ensures
        BlockType::grammar(x, a) matches Ok((v, to)) ==> to.pos < x.toks.len() || still(
            y,
            p + x.toks.len(),
        ) ==> {
            &&& BlockType::grammar(y, b) matches Ok((w, end))
            &&& unplaced::block_type(v) == unplaced::block_type(w)
            &&& abreast(x, p, to, end)
        },
{
    let far = still(y, p + x.toks.len());
    lemma_optional_id_moves(x, y, p, a, b);
    if let (Ok((_, c)), Ok((_, d))) = (
        Option::<Id<'a>>::grammar(x, a),
        Option::<Id<'a>>::grammar(y, b),
    ) {
        Option::<NameAnnotation<'a>>::lemma_advances(x, c);
        if c.pos < x.toks.len() || far {
            lemma_optional_name_moves(x, y, p, c, d);
        }
        if let (Ok((_, e)), Ok((_, f))) = (
            Option::<NameAnnotation<'a>>::grammar(x, c),
            Option::<NameAnnotation<'a>>::grammar(y, d),
        ) {
            if c.pos < x.toks.len() || far {
                lemma_type_use_moves(x, y, p, e, f);
            }
        }
        if let Ok((_, e)) = Option::<NameAnnotation<'a>>::grammar(x, c) {
            TypeUse::<'a, FunctionTypeNoNames<'a>>::lemma_advances(x, e);
        }
    }
}

proof fn lemma_optional_name_moves<'a>(x: Input<'a>, y: Input<'a>, p: int, a: Cursor, b: Cursor)
    requires
        set_in(x, y, p),
        abreast(x, p, a, b),
        a.pos < x.toks.len() || still(y, p + x.toks.len()),
    ensures
        Option::<NameAnnotation<'a>>::grammar(x, a) matches Ok((v, to)) ==> {
            &&& Option::<NameAnnotation<'a>>::grammar(y, b) matches Ok((w, end))
            &&& v == w
            &&& abreast(x, p, to, end)
        },
{
    let (v, w) = (x.with_annotation("name"@), y.with_annotation("name"@));
    lemma_set_in_known(x, y, p, "name"@);
    if a.pos >= x.toks.len() {
        lemma_still_known(y, p + x.toks.len(), "name"@);
    }
    lemma_moves(v, w, p);
    lemma_second_moves(v, w, p, a, b);
    assert(v.tok(a) is Some ==> v.tok(a) == w.tok(b));
    let (c, d) = (v.step(a), w.step(b));
    if v.tok(a) is Some {
        assert(v.tok(c) is Some ==> v.tok(c) == w.tok(d));
        let (e, f) = (v.step(c), w.step(d));
        if v.tok(c) is Some {
            assert(v.tok(e) is Some ==> v.tok(e) == w.tok(f));
            let (g, h) = (v.step(e), w.step(f));
            if v.tok(e) is Some {
                assert(v.tok(g) is Some ==> v.tok(g) == w.tok(h));
                let (i, j) = (v.step(g), w.step(h));
            }
        }
    }
}

/// No catch clause starts at `e`.
pub open spec fn uncaught<'a>(y: Input<'a>, e: int) -> bool {
    forall|b: Cursor| b.pos == e ==> !#[trigger] at_catch(y, b)
}

proof fn lemma_catch_clause_moves<'a>(x: Input<'a>, y: Input<'a>, p: int, a: Cursor, b: Cursor)
    requires
        set_in(x, y, p),
        abreast(x, p, a, b),
    ensures
        catch_clause(x, a) matches Ok((v, to)) ==> {
            &&& catch_clause(y, b) matches Ok((w, end))
            &&& unplaced::catch_clause(v) == unplaced::catch_clause(w)
            &&& abreast(x, p, to, end)
        },
{
    lemma_moves(x, y, p);
    assert(x.tok(a) is Some ==> x.tok(a) == y.tok(b));
    let (c, d) = (x.step(a), y.step(b));
    if x.at_lparen(a) {
        assert(x.tok(c) is Some ==> x.tok(c) == y.tok(d));
        let (e, f) = (x.step(c), y.step(d));
        if x.tok(c) is Some {
            lemma_index_moves(x, y, p, e, f);
        }
        if let (Ok((_, g)), Ok((_, h))) = (catch_kind(x, c), catch_kind(y, d)) {
            lemma_index_moves(x, y, p, g, h);
            if let (Ok((_, i)), Ok((_, j))) = (Index::grammar(x, g), Index::grammar(y, h)) {
                assert(x.tok(i) is Some ==> x.tok(i) == y.tok(j));
                let (k, l) = (x.step(i), y.step(j));
            }
        }
    }
}

proof fn lemma_catch_clauses_move<'a>(
    x: Input<'a>,
    y: Input<'a>,
    p: int,
    a: Cursor,
    b: Cursor,
    l: Seq<TryTableCatch<'a>>,
    m: Seq<TryTableCatch<'a>>,
)
    requires
        set_in(x, y, p),
        abreast(x, p, a, b),
        unplaced::catch_clauses(l) == unplaced::catch_clauses(m),
    ensures
        catch_clauses(x, a, l) matches Ok((v, to)) ==> to.pos < x.toks.len() || uncaught(
            y,
            p + x.toks.len(),
        ) ==> (x.at_lparen(to) ==> x.step(to).pos < x.toks.len()) ==> {
            &&& catch_clauses(y, b, m) matches Ok((w, end))
            &&& unplaced::catch_clauses(v) == unplaced::catch_clauses(w)
            &&& abreast(x, p, to, end)
        },
    decreases x.left(a),
{
    lemma_moves(x, y, p);
    let (c, d) = (x.step(a), y.step(b));
    if a.pos < x.toks.len() {
        assert(x.tok(a) == y.tok(b));
        if c.pos < x.toks.len() {
            assert(x.tok(c) == y.tok(d));
        }
    }
    if at_catch(x, a) {
        lemma_catch_clause_advances(x, a);
        lemma_catch_clause_advances(y, b);
        lemma_catch_clause_moves(x, y, p, a, b);
        if let (Ok((t, e)), Ok((u, f))) = (catch_clause(x, a), catch_clause(y, b)) {
            assert(unplaced::catch_clauses(l.push(t)) =~= unplaced::catch_clauses(l).push(
                unplaced::catch_clause(t),
            ));
            assert(unplaced::catch_clauses(m.push(u)) =~= unplaced::catch_clauses(m).push(
                unplaced::catch_clause(u),
            ));
            lemma_catch_clauses_move(x, y, p, e, f, l.push(t), m.push(u));
        }
    }
}

proof fn lemma_indices_move<'a>(
    x: Input<'a>,
    y: Input<'a>,
    p: int,
    a: Cursor,
    b: Cursor,
    l: Seq<Index<'a>>,
    m: Seq<Index<'a>>,
)
    requires
        set_in(x, y, p),
        abreast(x, p, a, b),
        unplaced::indices(l) == unplaced::indices(m),
    ensures
        indices(x, a, l) matches Ok((v, to)) ==> {
            &&& indices(y, b, m) matches Ok((w, end))
            &&& unplaced::indices(v) == unplaced::indices(w)
            &&& abreast(x, p, to, end)
        },
    decreases x.left(a),
{
    lemma_moves(x, y, p);
    if a.pos < x.toks.len() {
        assert(x.tok(a) == y.tok(b));
    }
    if Index::starts(x, a) {
        lemma_index_advances(x, a);
        lemma_index_advances(y, b);
        lemma_index_moves(x, y, p, a, b);
        if let (Ok((t, e)), Ok((u, f))) = (Index::grammar(x, a), Index::grammar(y, b)) {
            assert(unplaced::indices(l.push(t)) =~= unplaced::indices(l).push(unplaced::index(t)));
            assert(unplaced::indices(m.push(u)) =~= unplaced::indices(m).push(unplaced::index(u)));
            lemma_indices_move(x, y, p, e, f, l.push(t), m.push(u));
        }
    }
}

proof fn lemma_br_table_moves<'a>(x: Input<'a>, y: Input<'a>, p: int, a: Cursor, b: Cursor)
    requires
        set_in(x, y, p),
        abreast(x, p, a, b),
    ensures
        BrTableIndices::grammar(x, a) matches Ok((v, to)) ==> {
            &&& BrTableIndices::grammar(y, b) matches Ok((w, end))
            &&& unplaced::operand(Operand::BrTable(v)) == unplaced::operand(Operand::BrTable(w))
            &&& abreast(x, p, to, end)
        },
{
    lemma_index_moves(x, y, p, a, b);
    if let (Ok((t, c)), Ok((u, d))) = (Index::grammar(x, a), Index::grammar(y, b)) {
        let (l, m) = (seq![t], seq![u]);
        assert(unplaced::indices(l) =~= unplaced::indices(m));
        lemma_indices_move(x, y, p, c, d, l, m);
        lemma_indices(x, c, l);
        if let (Ok((v, _)), Ok((w, _))) = (indices(x, c, l), indices(y, d, m)) {
            assert(unplaced::indices(v).len() == v.len());
            assert(unplaced::indices(w).len() == w.len());
            assert(unplaced::indices(v.drop_last()) =~= unplaced::indices(v).drop_last());
            assert(unplaced::indices(w.drop_last()) =~= unplaced::indices(w).drop_last());
            assert(unplaced::index(v.last()) == unplaced::indices(v).last());
            assert(unplaced::index(w.last()) == unplaced::indices(w).last());
        }
    }
}

proof fn lemma_result_groups_move<'a>(
    x: Input<'a>,
    y: Input<'a>,
    p: int,
    a: Cursor,
    b: Cursor,
    l: Seq<LabeledValType<'a>>,
    m: Seq<LabeledValType<'a>>,
)
    requires
        set_in(x, y, p),
        abreast(x, p, a, b),
        unplaced::labeled_types(l) == unplaced::labeled_types(m),
    ensures
        result_groups(x, a, l) matches Ok((v, to)) ==> to.pos < x.toks.len() || still(
            y,
            p + x.toks.len(),
        ) ==> {
            &&& result_groups(y, b, m) matches Ok((w, end))
            &&& unplaced::labeled_types(v) == unplaced::labeled_types(w)
            &&& abreast(x, p, to, end)
        },
    decreases x.left(a),
{
    lemma_moves(x, y, p);
    if a.pos < x.toks.len() || still(y, p + x.toks.len()) {
        lemma_second_moves(x, y, p, a, b);
    }
    if x.keyword_follows(a, "result"@) {
        assert(x.tok(a) == y.tok(b));
        let (c, d) = (x.step(a), y.step(b));
        assert(x.tok(c) == y.tok(d));
        let (e, f) = (x.step(c), y.step(d));
        lemma_types_to_end_moves(x, y, p, e, f, l, m);
        if let (Ok((_, g)), Ok((_, h))) = (types_to_end(x, e, l), types_to_end(y, f, m)) {
            assert(x.tok(g) is Some ==> x.tok(g) == y.tok(h));
            let (i, j) = (x.step(g), y.step(h));
        }
        lemma_result_group_advances(x, a, l);
        lemma_result_group_advances(y, b, m);
        if let (Ok((t, g)), Ok((u, h))) = (result_group(x, a, l), result_group(y, b, m)) {
            lemma_result_groups_move(x, y, p, g, h, t, u);
        }
    }
}

proof fn lemma_select_moves<'a>(x: Input<'a>, y: Input<'a>, p: int, a: Cursor, b: Cursor)
    requires
        set_in(x, y, p),
        abreast(x, p, a, b),
    ensures
        SelectTypes::grammar(x, a) matches Ok((v, to)) ==> to.pos < x.toks.len() || still(
            y,
            p + x.toks.len(),
        ) ==> {
            &&& SelectTypes::grammar(y, b) matches Ok((w, end))
            &&& unplaced::operand(Operand::Select(v)) == unplaced::operand(Operand::Select(w))
            &&& abreast(x, p, to, end)
        },
{
    let none = Seq::<LabeledValType<'a>>::empty();
    lemma_result_groups_move(x, y, p, a, b, none, none);
    lemma_result_groups_advance(x, a, none);
    if a.pos < x.toks.len() || still(y, p + x.toks.len()) {
        lemma_second_moves(x, y, p, a, b);
    }
}

proof fn lemma_field_moves<'a>(
    x: Input<'a>,
    y: Input<'a>,
    p: int,
    a: Cursor,
    b: Cursor,
    name: Seq<char>,
)
    requires
        set_in(x, y, p),
        abreast(x, p, a, b),
        name == "offset"@ || name == "align"@,
    ensures
        mem_field(x, a, name) matches Ok((v, to)) ==> {
            &&& mem_field(y, b, name) matches Ok((w, end))
            &&& v == w
            &&& abreast(x, p, to, end)
        },
{
    lemma_moves(x, y, p);
    if a.pos < x.toks.len() {
        assert(x.tok(a) == y.tok(b));
    }
    let (c, d) = (x.step(a), y.step(b));
}

proof fn lemma_mem_arg_moves<'a>(
    x: Input<'a>,
    y: Input<'a>,
    p: int,
    a: Cursor,
    b: Cursor,
    align: u64,
)
    requires
        set_in(x, y, p),
        abreast(x, p, a, b),
    ensures
        MemArg::grammar(x, a, align) matches Ok((v, to)) ==> {
            &&& MemArg::grammar(y, b, align) matches Ok((w, end))
            &&& v.align == w.align && v.offset == w.offset
            &&& unplaced::index(v.memory) == unplaced::index(w.memory)
            &&& abreast(x, p, to, end)
        },
{
    lemma_optional_index_moves(x, y, p, a, b);
    if let (Ok((_, c)), Ok((_, d))) = (
        Option::<Index<'a>>::grammar(x, a),
        Option::<Index<'a>>::grammar(y, b),
    ) {
        lemma_field_moves(x, y, p, c, d, "offset"@);
        if let (Ok((_, e)), Ok((_, f))) = (
            mem_field(x, c, "offset"@),
            mem_field(y, d, "offset"@),
        ) {
            lemma_field_moves(x, y, p, e, f, "align"@);
        }
    }
}

/// Two indices, one behind the other.
proof fn lemma_pair_moves<'a>(x: Input<'a>, y: Input<'a>, p: int, a: Cursor, b: Cursor)
    requires
        set_in(x, y, p),
        abreast(x, p, a, b),
    ensures
        Index::grammar(x, a) matches Ok((_, c)) ==> {
            &&& Index::grammar(y, b) matches Ok((_, d))
            &&& Index::grammar(x, c) matches Ok((v, to)) ==> {
                &&& Index::grammar(y, d) matches Ok((w, end))
                &&& unplaced::index(v) == unplaced::index(w)
                &&& abreast(x, p, to, end)
            }
        },
        a.pos < x.toks.len() ==> index_follows(x, a) == index_follows(y, b),
{
    lemma_moves(x, y, p);
    lemma_index_moves(x, y, p, a, b);
    if let (Ok((_, c)), Ok((_, d))) = (Index::grammar(x, a), Index::grammar(y, b)) {
        lemma_index_moves(x, y, p, c, d);
    }
    let (c, d) = (x.step(a), y.step(b));
    if a.pos < x.toks.len() {
        assert(x.tok(a) == y.tok(b));
        if c.pos < x.toks.len() {
            assert(x.tok(c) == y.tok(d));
        }
    }
}

/// What follows an operand that extends to `to` leaves it alone.
pub open spec fn ends_well<'a>(
    x: Input<'a>,
    y: Input<'a>,
    p: int,
    kind: OperandKind,
    to: Cursor,
) -> bool {
    &&& to.pos < x.toks.len() || still(y, p + x.toks.len())
    &&& kind is TryTable ==> {
        &&& to.pos < x.toks.len() || uncaught(y, p + x.toks.len())
        &&& x.at_lparen(to) ==> x.step(to).pos < x.toks.len()
    }
}

proof fn lemma_call_moves<'a>(x: Input<'a>, y: Input<'a>, p: int, a: Cursor, b: Cursor)
    requires
        set_in(x, y, p),
        abreast(x, p, a, b),
    ensures
        CallIndirect::grammar(x, a) matches Ok((v, to)) ==> to.pos < x.toks.len() || still(
            y,
            p + x.toks.len(),
        ) ==> {
            &&& CallIndirect::grammar(y, b) matches Ok((w, end))
            &&& unplaced::index(v.table) == unplaced::index(w.table)
            &&& unplaced::type_use(v.ty) == unplaced::type_use(w.ty)
            &&& abreast(x, p, to, end)
        },
{
    lemma_optional_index_moves(x, y, p, a, b);
    if let (Ok((_, c)), Ok((_, d))) = (
        Option::<Index<'a>>::grammar(x, a),
        Option::<Index<'a>>::grammar(y, b),
    ) {
        lemma_type_use_moves(x, y, p, c, d);
    }
}

proof fn lemma_init_moves<'a>(
    x: Input<'a>,
    y: Input<'a>,
    p: int,
    kind: OperandKind,
    a: Cursor,
    b: Cursor,
)
    requires
        set_in(x, y, p),
        abreast(x, p, a, b),
        kind is MemoryInit || kind is TableInit,
    ensures
        operand_grammar(kind, x, a) matches Ok((v, to)) ==> ends_well(x, y, p, kind, to) ==> {
            &&& operand_grammar(kind, y, b) matches Ok((w, end))
            &&& unplaced::operand(v) == unplaced::operand(w)
            &&& abreast(x, p, to, end)
        },
{
    lemma_pair_moves(x, y, p, a, b);
    lemma_index_moves(x, y, p, a, b);
}

proof fn lemma_copy_moves<'a>(
    x: Input<'a>,
    y: Input<'a>,
    p: int,
    kind: OperandKind,
    a: Cursor,
    b: Cursor,
)
    requires
        set_in(x, y, p),
        abreast(x, p, a, b),
        kind is MemoryCopy || kind is TableCopy,
    ensures
        operand_grammar(kind, x, a) matches Ok((v, to)) ==> ends_well(x, y, p, kind, to) ==> {
            &&& operand_grammar(kind, y, b) matches Ok((w, end))
            &&& unplaced::operand(v) == unplaced::operand(w)
            &&& abreast(x, p, to, end)
        },
{
    lemma_pair_moves(x, y, p, a, b);
    lemma_optional_index_moves(x, y, p, a, b);
    lemma_index_moves(x, y, p, a, b);
}

proof fn lemma_number_moves<'a>(
    x: Input<'a>,
    y: Input<'a>,
    p: int,
    kind: OperandKind,
    a: Cursor,
    b: Cursor,
)
    requires
        set_in(x, y, p),
        abreast(x, p, a, b),
        kind is I32 || kind is I64 || kind is F32 || kind is F64,
    ensures
        operand_grammar(kind, x, a) matches Ok((v, to)) ==> ends_well(x, y, p, kind, to) ==> {
            &&& operand_grammar(kind, y, b) matches Ok((w, end))
            &&& unplaced::operand(v) == unplaced::operand(w)
            &&& abreast(x, p, to, end)
        },
{
    lemma_moves(x, y, p);
    assert(x.tok(a) is Some ==> x.tok(a) == y.tok(b));
    let (c, d) = (x.step(a), y.step(b));
}

proof fn lemma_try_table_moves<'a>(x: Input<'a>, y: Input<'a>, p: int, a: Cursor, b: Cursor)
    requires
        set_in(x, y, p),
        abreast(x, p, a, b),
    ensures
        TryTable::grammar(x, a) matches Ok((v, to)) ==> ends_well(
            x,
            y,
            p,
            OperandKind::TryTable,
            to,
        ) ==> {
            &&& TryTable::grammar(y, b) matches Ok((w, end))
            &&& unplaced::block_type(v.block) == unplaced::block_type(w.block)
            &&& unplaced::catch_clauses(v.catches) == unplaced::catch_clauses(w.catches)
            &&& abreast(x, p, to, end)
        },
{
    let none = Seq::<TryTableCatch<'a>>::empty();
    lemma_block_type_moves(x, y, p, a, b);
    if let Ok((_, c)) = BlockType::grammar(x, a) {
        lemma_catch_clauses_advance(x, c, none);
        if let Ok((_, d)) = BlockType::grammar(y, b) {
            if abreast(x, p, c, d) {
                lemma_catch_clauses_move(x, y, p, c, d, none, none);
            }
        }
    }
}

#[verifier::rlimit(60)]
proof fn lemma_operand_moves<'a>(
    x: Input<'a>,
    y: Input<'a>,
    p: int,
    kind: OperandKind,
    a: Cursor,
    b: Cursor,
)
    requires
        set_in(x, y, p),
        abreast(x, p, a, b),
    ensures
        operand_grammar(kind, x, a) matches Ok((v, to)) ==> ends_well(x, y, p, kind, to) ==> {
            &&& operand_grammar(kind, y, b) matches Ok((w, end))
            &&& unplaced::operand(v) == unplaced::operand(w)
            &&& abreast(x, p, to, end)
        },
{
    match kind {
        OperandKind::Nothing => {},
        OperandKind::Index => lemma_index_moves(x, y, p, a, b),
        OperandKind::Table => lemma_optional_index_moves(x, y, p, a, b),
        OperandKind::Memory => lemma_optional_index_moves(x, y, p, a, b),
        OperandKind::OptionalId => lemma_optional_id_moves(x, y, p, a, b),
        OperandKind::Block => lemma_block_type_moves(x, y, p, a, b),
        OperandKind::CallIndirect => lemma_call_moves(x, y, p, a, b),
        OperandKind::BrTable => lemma_br_table_moves(x, y, p, a, b),
        OperandKind::Select => lemma_select_moves(x, y, p, a, b),
        OperandKind::MemoryInit => lemma_init_moves(x, y, p, kind, a, b),
        OperandKind::TableInit => lemma_init_moves(x, y, p, kind, a, b),
        OperandKind::MemoryCopy => lemma_copy_moves(x, y, p, kind, a, b),
        OperandKind::TableCopy => lemma_copy_moves(x, y, p, kind, a, b),
        OperandKind::Heap => lemma_heap_type_moves(x, y, p, a, b),
        OperandKind::TryTable => lemma_try_table_moves(x, y, p, a, b),
        _ => lemma_number_moves(x, y, p, kind, a, b),
    }
}

proof fn lemma_memory_instruction_moves<'a>(
    x: Input<'a>,
    y: Input<'a>,
    p: int,
    a: Cursor,
    b: Cursor,
)
    requires
        set_in(x, y, p),
        abreast(x, p, a, b),
    ensures
        MemoryInstruction::grammar(x, a) matches Ok((v, to)) ==> {
            &&& MemoryInstruction::grammar(y, b) matches Ok((w, end))
            &&& v.op() == w.op()
            &&& v.arg().align == w.arg().align && v.arg().offset == w.arg().offset
            &&& unplaced::index(v.arg().memory) == unplaced::index(w.arg().memory)
            &&& abreast(x, p, to, end)
        },
{
    lemma_moves(x, y, p);
    assert(x.tok(a) is Some ==> x.tok(a) == y.tok(b));
    let (c, d) = (x.step(a), y.step(b));
    if let Some(TokenKind::Keyword(k)) = x.tok(a) {
        if let Some(op) = MemoryOpcode::named(k@) {
            lemma_mem_arg_moves(x, y, p, c, d, op.natural_align());
        }
    }
}

/// A parenthesis that opens here has something behind it.
pub open spec fn opens<'a>(x: Input<'a>, at: Cursor) -> bool {
    x.at_lparen(at) ==> x.with_annotation("label"@).step(at).pos < x.toks.len()
}

/// What stands at `e` is not taken for an operand of an instruction that ends in
/// front of it, nor for a catch clause, where that instruction may have some.
pub open spec fn complete<'a>(y: Input<'a>, e: int, catches: bool) -> bool {
    let w = y.with_annotation("label"@);
    still(w, e) && (catches ==> uncaught(w, e))
}

/// An instruction denotes the same wherever it stands.
pub proof fn lemma_instruction_moves<'a>(
    x: Input<'a>,
    y: Input<'a>,
    p: int,
    a: Cursor,
    b: Cursor,
)
    requires
        set_in(x, y, p),
        abreast(x, p, a, b),
    ensures
        AllInstructions::grammar(x, a) matches Ok((i, to)) ==> {
            ||| to.pos < x.toks.len() && opens(x, to)
            ||| to.pos >= x.toks.len() && complete(y, p + x.toks.len(), form(i) is Block)
        } ==> {
            &&& AllInstructions::grammar(y, b) matches Ok((j, end))
            &&& unplaced::instruction(i) == unplaced::instruction(j)
            &&& abreast(x, p, to, end)
            &&& a.pos < x.toks.len()
        },
{
    let (v, w) = (x.with_annotation("label"@), y.with_annotation("label"@));
    lemma_set_in_known(x, y, p, "label"@);
    lemma_moves(v, w, p);
    if a.pos < x.toks.len() {
        assert(v.tok(a) == w.tok(b));
    }
    let (c, d) = (v.step(a), w.step(b));
    if LabelAnnotation::starts(v, a) {
        lemma_label_moves(v, w, p, a, b);
        if let (Ok((_, f)), Ok((_, g))) = (
            LabelAnnotation::grammar(v, a),
            LabelAnnotation::grammar(w, b),
        ) {
            lemma_memory_instruction_moves(v, w, p, f, g);
        }
    } else {
        if let Some(TokenKind::Keyword(k)) = v.tok(a) {
            if let Some(op) = Opcode::named(k@) {
                lemma_operand_moves(v, w, p, op.operand(), c, d);
            }
        }
    }
}

} // verus!
