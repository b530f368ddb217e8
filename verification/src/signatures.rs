//! Types in the text: which words name them, and in which order they are taken.

use vstd::prelude::*;

use crate::arguments::parsed_as;
use crate::control::{
    lemma_result_group_advances, result_group, result_groups, SelectTypes,
};
use crate::decoding::{abstract_number, heap_number, type_code, TypeCode};
use crate::labels::LabelAnnotation;
use crate::parser::{Cursor, Input, Parse, Peek};
use crate::token::{Error, Index, TokenKind};
use crate::types::{
    heap_keyword, lemma_labeled_val_type_advances, lemma_signature_group_advances, ref_keyword,
    signature, signature_group, types_to_end, unnamed, val_keyword, FunctionTypeAst,
    FunctionTypeNoNames, HeapType, LabeledValType, RefType, TypeUse, ValType,
};
use crate::vectors::{behind, literal_is};

verus! {

/// The words for heap types, in the order of their numbers.
pub open spec fn heap_word(k: int) -> Seq<char> {
    if k == 0 {
        "noexn"@
    } else if k == 1 {
        "nofunc"@
    } else if k == 2 {
        "noextern"@
    } else if k == 3 {
        "none"@
    } else if k == 4 {
        "func"@
    } else if k == 5 {
        "extern"@
    } else if k == 6 {
        "any"@
    } else if k == 7 {
        "eq"@
    } else if k == 8 {
        "i31"@
    } else if k == 9 {
        "struct"@
    } else if k == 10 {
        "array"@
    } else {
        "exn"@
    }
}

/// The words for nullable references to them, in the same order.
pub open spec fn ref_word(k: int) -> Seq<char> {
    if k == 0 {
        "nullexnref"@
    } else if k == 1 {
        "nullfuncref"@
    } else if k == 2 {
        "nullexternref"@
    } else if k == 3 {
        "nullref"@
    } else if k == 4 {
        "funcref"@
    } else if k == 5 {
        "externref"@
    } else if k == 6 {
        "anyref"@
    } else if k == 7 {
        "eqref"@
    } else if k == 8 {
        "i31ref"@
    } else if k == 9 {
        "structref"@
    } else if k == 10 {
        "arrayref"@
    } else {
        "exnref"@
    }
}

/// The words for the other value types, in the order of their numbers.
pub open spec fn val_word(k: int) -> Seq<char> {
    if k == 0 {
        "i32"@
    } else if k == 1 {
        "i64"@
    } else if k == 2 {
        "f32"@
    } else if k == 3 {
        "f64"@
    } else {
        "v128"@
    }
}

/// A heap type is written as its word, or as the index of a type.
pub proof fn law_heap_types<'a>(input: Input<'a>, at: Cursor, k: int, h: HeapType<'a>, to: Cursor)
    requires
        0 <= k < 12,
    ensures
        input.at_keyword(at, heap_word(k)) ==> HeapType::grammar(input, at) is Ok,
        input.at_keyword(at, heap_word(k)) && parsed_as(input, at, h, to) ==> h is Abstract
            && heap_number(h) == -12 - k && to == input.step(at),
        Index::starts(input, at) && parsed_as(input, at, h, to) ==> (h matches HeapType::Concrete(
            i,
        ) && parsed_as(input, at, i, to)),
        Index::starts(input, at) ==> (HeapType::grammar(input, at) is Ok) == (Index::grammar(
            input,
            at,
        ) is Ok),
{
    reveal_strlit("noexn");
    assert("noexn"@.len() == 5 && "noexn"@[0] == 'n' && "noexn"@[1] == 'o');
    reveal_strlit("nofunc");
    assert("nofunc"@.len() == 6 && "nofunc"@[0] == 'n' && "nofunc"@[1] == 'o');
    reveal_strlit("noextern");
    assert("noextern"@.len() == 8 && "noextern"@[0] == 'n' && "noextern"@[1] == 'o');
    reveal_strlit("none");
    assert("none"@.len() == 4 && "none"@[0] == 'n' && "none"@[1] == 'o');
    reveal_strlit("func");
    assert("func"@.len() == 4 && "func"@[0] == 'f' && "func"@[1] == 'u');
    reveal_strlit("extern");
    assert("extern"@.len() == 6 && "extern"@[0] == 'e' && "extern"@[1] == 'x');
    reveal_strlit("any");
    assert("any"@.len() == 3 && "any"@[0] == 'a' && "any"@[1] == 'n');
    reveal_strlit("eq");
    assert("eq"@.len() == 2 && "eq"@[0] == 'e' && "eq"@[1] == 'q');
    reveal_strlit("i31");
    assert("i31"@.len() == 3 && "i31"@[0] == 'i' && "i31"@[1] == '3');
    reveal_strlit("struct");
    assert("struct"@.len() == 6 && "struct"@[0] == 's' && "struct"@[1] == 't');
    reveal_strlit("array");
    assert("array"@.len() == 5 && "array"@[0] == 'a' && "array"@[1] == 'r');
    reveal_strlit("exn");
    assert("exn"@.len() == 3 && "exn"@[0] == 'e' && "exn"@[1] == 'x');
    if let Some(TokenKind::Keyword(word)) = input.tok(at) {
        let w = word@;
        if w == heap_word(k) {
            assert(heap_keyword(w) matches Some(t) && abstract_number(t) == -12 - k);
        }
    }
}

/// Nothing else is written for a type: a heap type is a word or an index, a reference
/// type a word or a group `(ref ...)`, and a value type a word or a reference type.
pub proof fn law_nothing_else_is_a_type<'a>(input: Input<'a>, at: Cursor)
    ensures
        HeapType::grammar(input, at) is Ok ==> Index::starts(input, at) || exists|k: int|
            0 <= k < 12 && input.at_keyword(at, #[trigger] heap_word(k)),
        RefType::grammar(input, at) is Ok ==> (input.at_lparen(at) && input.at_keyword(
            input.step(at),
            "ref"@,
        )) || exists|k: int| 0 <= k < 12 && input.at_keyword(at, #[trigger] ref_word(k)),
        ValType::grammar(input, at) is Ok ==> RefType::grammar(input, at) is Ok || exists|k: int|
            0 <= k < 5 && input.at_keyword(at, #[trigger] val_word(k)),
{
    assert(heap_word(0) == "noexn"@);
    assert(heap_word(1) == "nofunc"@);
    assert(heap_word(2) == "noextern"@);
    assert(heap_word(3) == "none"@);
    assert(heap_word(4) == "func"@);
    assert(heap_word(5) == "extern"@);
    assert(heap_word(6) == "any"@);
    assert(heap_word(7) == "eq"@);
    assert(heap_word(8) == "i31"@);
    assert(heap_word(9) == "struct"@);
    assert(heap_word(10) == "array"@);
    assert(heap_word(11) == "exn"@);
    assert(ref_word(0) == "nullexnref"@);
    assert(ref_word(1) == "nullfuncref"@);
    assert(ref_word(2) == "nullexternref"@);
    assert(ref_word(3) == "nullref"@);
    assert(ref_word(4) == "funcref"@);
    assert(ref_word(5) == "externref"@);
    assert(ref_word(6) == "anyref"@);
    assert(ref_word(7) == "eqref"@);
    assert(ref_word(8) == "i31ref"@);
    assert(ref_word(9) == "structref"@);
    assert(ref_word(10) == "arrayref"@);
    assert(ref_word(11) == "exnref"@);
    assert(val_word(0) == "i32"@);
    assert(val_word(1) == "i64"@);
    assert(val_word(2) == "f32"@);
    assert(val_word(3) == "f64"@);
    assert(val_word(4) == "v128"@);
}

/// A nullable reference to an abstract heap type is written as one word.
pub proof fn law_reference_words<'a>(
    input: Input<'a>,
    at: Cursor,
    k: int,
    r: RefType<'a>,
    to: Cursor,
)
    requires
        0 <= k < 12,
        input.at_keyword(at, ref_word(k)),
    ensures
        RefType::grammar(input, at) is Ok,
        parsed_as(input, at, r, to) ==> r.nullable && r.heap is Abstract && heap_number(r.heap)
            == -12 - k && to == input.step(at),
        ValType::grammar(input, at) == Ok::<_, Error>((ValType::Ref(r), to)) <==> RefType::grammar(
            input,
            at,
        ) == Ok::<_, Error>((r, to)),
{
    reveal_strlit("nullexnref");
    assert("nullexnref"@.len() == 10 && "nullexnref"@[0] == 'n' && "nullexnref"@[1] == 'u');
    reveal_strlit("nullfuncref");
    assert("nullfuncref"@.len() == 11 && "nullfuncref"@[0] == 'n' && "nullfuncref"@[1] == 'u');
    reveal_strlit("nullexternref");
    assert("nullexternref"@.len() == 13 && "nullexternref"@[0] == 'n' && "nullexternref"@[1] == 'u');
    reveal_strlit("nullref");
    assert("nullref"@.len() == 7 && "nullref"@[0] == 'n' && "nullref"@[1] == 'u');
    reveal_strlit("funcref");
    assert("funcref"@.len() == 7 && "funcref"@[0] == 'f' && "funcref"@[1] == 'u');
    reveal_strlit("externref");
    assert("externref"@.len() == 9 && "externref"@[0] == 'e' && "externref"@[1] == 'x');
    reveal_strlit("anyref");
    assert("anyref"@.len() == 6 && "anyref"@[0] == 'a' && "anyref"@[1] == 'n');
    reveal_strlit("eqref");
    assert("eqref"@.len() == 5 && "eqref"@[0] == 'e' && "eqref"@[1] == 'q');
    reveal_strlit("i31ref");
    assert("i31ref"@.len() == 6 && "i31ref"@[0] == 'i' && "i31ref"@[1] == '3');
    reveal_strlit("structref");
    assert("structref"@.len() == 9 && "structref"@[0] == 's' && "structref"@[1] == 't');
    reveal_strlit("arrayref");
    assert("arrayref"@.len() == 8 && "arrayref"@[0] == 'a' && "arrayref"@[1] == 'r');
    reveal_strlit("exnref");
    assert("exnref"@.len() == 6 && "exnref"@[0] == 'e' && "exnref"@[1] == 'x');
    reveal_strlit("i32");
    assert("i32"@.len() == 3 && "i32"@[0] == 'i' && "i32"@[1] == '3');
    reveal_strlit("i64");
    assert("i64"@.len() == 3 && "i64"@[0] == 'i' && "i64"@[1] == '6');
    reveal_strlit("f32");
    assert("f32"@.len() == 3 && "f32"@[0] == 'f' && "f32"@[1] == '3');
    reveal_strlit("f64");
    assert("f64"@.len() == 3 && "f64"@[0] == 'f' && "f64"@[1] == '6');
    reveal_strlit("v128");
    assert("v128"@.len() == 4 && "v128"@[0] == 'v' && "v128"@[1] == '1');
    if let Some(TokenKind::Keyword(word)) = input.tok(at) {
        let w = word@;
        assert(ref_keyword(w) matches Some(t) && abstract_number(t) == -12 - k);
        assert(val_keyword::<'a>(w) is None);
    }
}

/// Any reference is written as `(ref heap)`, or as `(ref null heap)` if it is nullable.
pub proof fn law_reference_types<'a>(
    input: Input<'a>,
    at: Cursor,
    nullable: bool,
    h: HeapType<'a>,
    c: Cursor,
    r: RefType<'a>,
    to: Cursor,
)
    requires
        input.at_lparen(at),
        input.at_keyword(input.step(at), "ref"@),
        nullable == input.at_keyword(input.step(input.step(at)), "null"@),
        nullable ==> parsed_as(input, input.step(input.step(input.step(at))), h, c),
        !nullable ==> parsed_as(input, input.step(input.step(at)), h, c),
        input.at_rparen(c),
    ensures
        RefType::grammar(input, at) is Ok,
        parsed_as(input, at, r, to) ==> r.nullable == nullable && r.heap == h && to == input.step(
            c,
        ),
        ValType::grammar(input, at) == Ok::<_, Error>((ValType::Ref(r), to)) <==> RefType::grammar(
            input,
            at,
        ) == Ok::<_, Error>((r, to)),
{
}

/// A value type other than a reference is written as its word.
pub proof fn law_value_words<'a>(input: Input<'a>, at: Cursor, k: int, t: ValType<'a>, to: Cursor)
    requires
        0 <= k < 5,
        input.at_keyword(at, val_word(k)),
    ensures
        ValType::grammar(input, at) is Ok,
        parsed_as(input, at, t, to) ==> type_code(t) == TypeCode::Plain(-1 - k) && !(t is Ref) && to
            == input.step(at),
{
    reveal_strlit("i32");
    assert("i32"@.len() == 3 && "i32"@[0] == 'i' && "i32"@[1] == '3');
    reveal_strlit("i64");
    assert("i64"@.len() == 3 && "i64"@[0] == 'i' && "i64"@[1] == '6');
    reveal_strlit("f32");
    assert("f32"@.len() == 3 && "f32"@[0] == 'f' && "f32"@[1] == '3');
    reveal_strlit("f64");
    assert("f64"@.len() == 3 && "f64"@[0] == 'f' && "f64"@[1] == '6');
    reveal_strlit("v128");
    assert("v128"@.len() == 4 && "v128"@[0] == 'v' && "v128"@[1] == '1');
}

/// The label of a type stands before the type, if there is one.
pub proof fn law_labeled_types<'a>(
    input: Input<'a>,
    at: Cursor,
    l: Option<LabelAnnotation<'a>>,
    a: Cursor,
    t: ValType<'a>,
    b: Cursor,
    x: LabeledValType<'a>,
    to: Cursor,
)
    requires
        match l {
            Some(l) => parsed_as(input, at, l, a),
            None => !input.at_annotation(at, "label"@) && a == at,
        },
        parsed_as(input, a, t, b),
    ensures
        LabeledValType::grammar(input, at) is Ok,
        parsed_as(input, at, x, to) ==> x.label == l && x.ty == t && to == b,
{
}

/// The types of `list` stand in a row from `at` on.
pub open spec fn types_stand<'a>(
    input: Input<'a>,
    at: Cursor,
    list: Seq<LabeledValType<'a>>,
) -> bool {
    forall|i: nat|
        #![trigger behind::<LabeledValType<'a>>(input, at, i)]
        i < list.len() ==> literal_is::<LabeledValType<'a>>(input, at, i, list[i as int])
}

/// Where the text goes on behind them.
pub open spec fn types_end<'a>(
    input: Input<'a>,
    at: Cursor,
    list: Seq<LabeledValType<'a>>,
) -> Cursor {
    behind::<LabeledValType<'a>>(input, at, list.len())
}

proof fn lemma_shift<'a>(input: Input<'a>, at: Cursor, to: Cursor, i: nat)
    requires
        LabeledValType::grammar(input, at) matches Ok((_, c)) && c == to,
    ensures
        behind::<LabeledValType<'a>>(input, at, i + 1) == behind::<LabeledValType<'a>>(input, to, i),
    decreases i,
{
    if i == 0 {
        assert(behind::<LabeledValType<'a>>(input, at, 0) == at);
        assert(behind::<LabeledValType<'a>>(input, at, 1) == to);
    } else {
        lemma_shift(input, at, to, (i - 1) as nat);
    }
}

proof fn lemma_types<'a>(
    input: Input<'a>,
    at: Cursor,
    list: Seq<LabeledValType<'a>>,
    acc: Seq<LabeledValType<'a>>,
)
    requires
        types_stand(input, at, list),
        input.at_rparen(types_end(input, at, list)),
    ensures
        types_to_end(input, at, acc) == Ok::<_, Error>((acc + list, types_end(input, at, list))),
    decreases list.len(),
{
    assert(behind::<LabeledValType<'a>>(input, at, 0) == at);
    if list.len() == 0 {
        assert(acc + list =~= acc);
    } else {
        assert(literal_is::<LabeledValType<'a>>(input, at, 0, list[0]));
        let (t, to) = LabeledValType::grammar(input, at)->Ok_0;
        let tail = list.skip(1);
        assert(!input.at_end(at));
        assert forall|i: nat|
            #![trigger behind::<LabeledValType<'a>>(input, to, i)]
            i < tail.len() implies literal_is::<LabeledValType<'a>>(
            input,
            to,
            i,
            tail[i as int],
        ) by {
            lemma_shift(input, at, to, i);
            assert(literal_is::<LabeledValType<'a>>(input, at, i + 1, list[i as int + 1]));
        }
        lemma_shift(input, at, to, tail.len());
        lemma_types(input, to, tail, acc.push(t));
        assert(acc.push(t) + tail =~= acc + list);
        lemma_labeled_val_type_advances(input, at);
    }
}

/// A group of a signature: whether it holds parameters or results, and its types.
pub struct Group<'a> {
    pub params: bool,
    pub types: Seq<LabeledValType<'a>>,
}

/// The groups stand in a row from `at` to `to`, each as `(param types)` or
/// `(result types)`.
pub open spec fn groups_stand<'a>(
    input: Input<'a>,
    at: Cursor,
    groups: Seq<Group<'a>>,
    to: Cursor,
) -> bool
    decreases groups.len(),
{
    if groups.len() == 0 {
        to == at
    } else {
        let a = input.step(at);
        let b = input.step(a);
        let c = types_end(input, b, groups[0].types);
        &&& input.at_lparen(at)
        &&& if groups[0].params {
            input.at_keyword(a, "param"@)
        } else {
            input.at_keyword(a, "result"@)
        }
        &&& types_stand(input, b, groups[0].types)
        &&& input.at_rparen(c)
        &&& groups_stand(input, input.step(c), groups.skip(1), to)
    }
}

/// The types of all groups of one sort, in the order of the text.
pub open spec fn types_of<'a>(groups: Seq<Group<'a>>, params: bool) -> Seq<LabeledValType<'a>>
    decreases groups.len(),
{
    if groups.len() == 0 {
        Seq::empty()
    } else if groups[0].params == params {
        groups[0].types + types_of(groups.skip(1), params)
    } else {
        types_of(groups.skip(1), params)
    }
}

/// No parameter stands behind a result.
pub open spec fn params_first<'a>(groups: Seq<Group<'a>>, results: nat) -> bool
    decreases groups.len(),
{
    groups.len() > 0 ==> {
        &&& groups[0].params ==> results == 0
        &&& params_first(
            groups.skip(1),
            if groups[0].params {
                results
            } else {
                results + groups[0].types.len()
            },
        )
    }
}

/// No group of a signature starts here.
pub open spec fn no_group<'a>(input: Input<'a>, at: Cursor) -> bool {
    !input.keyword_follows(at, "param"@) && !input.keyword_follows(at, "result"@)
}

proof fn lemma_signature<'a>(
    input: Input<'a>,
    at: Cursor,
    groups: Seq<Group<'a>>,
    to: Cursor,
    acc: FunctionTypeAst<'a>,
)
    requires
        groups_stand(input, at, groups, to),
        no_group(input, to),
    ensures
        match signature(input, at, acc) {
            Ok((f, end)) => {
                &&& params_first(groups, acc.results.len())
                &&& f.params == acc.params + unnamed(types_of(groups, true))
                &&& f.results == acc.results + types_of(groups, false)
                &&& end == to
            },
            Err(_) => !params_first(groups, acc.results.len()),
        },
    decreases groups.len(),
{
    if groups.len() == 0 {
        assert(unnamed(types_of(groups, true)) =~= Seq::empty());
        assert(acc.params + unnamed(types_of(groups, true)) =~= acc.params);
        assert(acc.results + types_of(groups, false) =~= acc.results);
    } else {
        reveal_strlit("param");
        reveal_strlit("result");
        assert("param"@.len() != "result"@.len());
        let b = input.step(input.step(at));
        let g = groups[0];
        let tail = groups.skip(1);
        let c = types_end(input, b, g.types);
        lemma_types(input, b, g.types, Seq::empty());
        lemma_types(input, b, g.types, acc.results);
        assert(Seq::empty() + g.types =~= g.types);
        lemma_signature_group_advances(input, at, acc);
        if g.params {
            if acc.results.len() == 0 {
                let next = FunctionTypeAst {
                    params: acc.params + unnamed(g.types),
                    results: acc.results,
                };
                assert(signature_group(input, at, acc) == Ok::<_, Error>((next, input.step(c))));
                lemma_signature(input, input.step(c), tail, to, next);
                assert(unnamed(g.types + types_of(tail, true)) =~= unnamed(g.types) + unnamed(
                    types_of(tail, true),
                ));
                assert(acc.params + (unnamed(g.types) + unnamed(types_of(tail, true)))
                    =~= acc.params + unnamed(g.types) + unnamed(types_of(tail, true)));
            }
        } else {
            let next = FunctionTypeAst { params: acc.params, results: acc.results + g.types };
            assert(signature_group(input, at, acc) == Ok::<_, Error>((next, input.step(c))));
            lemma_signature(input, input.step(c), tail, to, next);
            assert(acc.results + (g.types + types_of(tail, false)) =~= acc.results + g.types
                + types_of(tail, false));
        }
    }
}

/// A function type has the types of its `(param ...)` groups as its parameters, without
/// names, and those of its `(result ...)` groups as its results, in the order of the
/// text. Parameters must come first.
pub proof fn law_signature<'a>(
    input: Input<'a>,
    at: Cursor,
    groups: Seq<Group<'a>>,
    to: Cursor,
    f: FunctionTypeNoNames<'a>,
    end: Cursor,
)
    requires
        groups_stand(input, at, groups, to),
        no_group(input, to),
    ensures
        (FunctionTypeNoNames::grammar(input, at) is Ok) == params_first(groups, 0),
        parsed_as(input, at, f, end) ==> {
            &&& end == to
            &&& f.0.results@ == types_of(groups, false)
            &&& f.0.params@.len() == types_of(groups, true).len()
            &&& forall|k: int|
                0 <= k < f.0.params@.len() ==> (#[trigger] f.0.params@[k]).0 is None
                    && f.0.params@[k].1 is None && f.0.params@[k].2 == types_of(groups, true)[k]
        },
{
    let none = FunctionTypeAst { params: Seq::empty(), results: Seq::empty() };
    lemma_signature(input, at, groups, to, none);
    assert(none.params + unnamed(types_of(groups, true)) =~= unnamed(types_of(groups, true)));
    assert(none.results + types_of(groups, false) =~= types_of(groups, false));
    if parsed_as(input, at, f, end) {
        assert(f.ast().params == f.0.params@);
        assert(f.0.params@ == unnamed(types_of(groups, true)));
    }
}

proof fn lemma_results<'a>(
    input: Input<'a>,
    at: Cursor,
    groups: Seq<Group<'a>>,
    to: Cursor,
    acc: Seq<LabeledValType<'a>>,
)
    requires
        groups_stand(input, at, groups, to),
        forall|k: int| 0 <= k < groups.len() ==> !(#[trigger] groups[k]).params,
        !input.keyword_follows(to, "result"@),
    ensures
        result_groups(input, at, acc) == Ok::<_, Error>((acc + types_of(groups, false), to)),
    decreases groups.len(),
{
    if groups.len() == 0 {
        assert(acc + types_of(groups, false) =~= acc);
    } else {
        let b = input.step(input.step(at));
        let g = groups[0];
        let tail = groups.skip(1);
        let c = types_end(input, b, g.types);
        lemma_types(input, b, g.types, acc);
        assert(result_group(input, at, acc) == Ok::<_, Error>((acc + g.types, input.step(c))));
        lemma_result_group_advances(input, at, acc);
        assert forall|k: int| 0 <= k < tail.len() implies !(#[trigger] tail[k]).params by {
            assert(tail[k] == groups[k + 1]);
        }
        lemma_results(input, input.step(c), tail, to, acc + g.types);
        assert(acc + g.types + types_of(tail, false) =~= acc + (g.types + types_of(tail, false)));
    }
}

/// A `select` has the types of the `(result ...)` groups behind it, in the order of the
/// text; without such a group it has none.
pub proof fn law_select_types<'a>(
    input: Input<'a>,
    at: Cursor,
    groups: Seq<Group<'a>>,
    to: Cursor,
    s: SelectTypes<'a>,
    end: Cursor,
)
    requires
        groups_stand(input, at, groups, to),
        forall|k: int| 0 <= k < groups.len() ==> !(#[trigger] groups[k]).params,
        !input.keyword_follows(to, "result"@),
    ensures
        SelectTypes::grammar(input, at) is Ok,
        parsed_as(input, at, s, end) ==> end == to && match s.tys {
            Some(list) => groups.len() > 0 && list@ == types_of(groups, false),
            None => groups.len() == 0,
        },
{
    lemma_results(input, at, groups, to, Seq::empty());
    assert(Seq::empty() + types_of(groups, false) =~= types_of(groups, false));
    if groups.len() > 0 {
        assert(!groups[0].params);
    }
}

/// A type use starts with the index of a type, as `(type index)`, where it has one.
pub proof fn law_type_use<'a>(
    input: Input<'a>,
    at: Cursor,
    index: Option<Index<'a>>,
    a: Cursor,
    t: TypeUse<'a, FunctionTypeNoNames<'a>>,
    to: Cursor,
)
    requires
        match index {
            Some(x) => {
                let b = input.step(input.step(at));
                &&& input.at_lparen(at)
                &&& input.at_keyword(input.step(at), "type"@)
                &&& Index::grammar(input, b) matches Ok((y, c)) && x == y && input.at_rparen(c)
                    && a == input.step(c)
            },
            None => !input.keyword_follows(at, "type"@) && a == at,
        },
        parsed_as(input, at, t, to),
    ensures
        t.index == index,
        match t.inline {
            Some(f) => parsed_as(input, a, f, to),
            None => to == a && !(input.at_lparen(a) && !no_group(input, a)),
        },
        input.at_lparen(a) && !no_group(input, a) ==> t.inline is Some,
{
}

} // verus!
