//! Recording the positions of instructions changes nothing else.

use vstd::prelude::*;

use crate::atoms::lemma_index_advances;
use crate::control::{
    catch_clause, catch_clauses, indices, lemma_catch_clause_advances, lemma_result_group_advances,
    result_group, result_groups, BlockType, TryTableCatch,
};
use crate::expr::Expression;
use crate::grammar::{
    branch_hint, folded, folded_only, folded_operands, form, group_items, group_rest, if_clause,
    if_then, item, items, lemma_branch_hint_advances, lemma_folded_advances,
    lemma_folded_only_advances, lemma_group_rest_advances, lemma_item_advances, otherwise, Form,
    Listing,
};
use crate::instruction::{operand_grammar, Instruction};
use crate::labels::{
    lemma_any_instruction_advances, AllInstructions, AllInstructionsAst, LabelAnnotation,
    MemoryInstruction,
};
use crate::opcode::OperandKind;
use crate::parser::{
    annotation_at, group_end, lemma_group_end_bounds, Cursor, Input, Parse, Parsed, Peek,
};
use crate::token::{Id, Index, NameAnnotation, Span};
use crate::types::{
    lemma_labeled_val_type_advances, lemma_signature_group_advances, signature, signature_group,
    types_to_end, FunctionTypeAst, FunctionTypeNoNames, LabeledValType, TypeUse,
};

verus! {

/// The inputs differ in nothing but whether positions are recorded.
pub open spec fn same_tokens<'a>(x: Input<'a>, y: Input<'a>) -> bool {
    x.toks == y.toks && x.known == y.known && x.end == y.end
}

proof fn lemma_skip<'a>(x: Input<'a>, y: Input<'a>, i: int)
    requires
        same_tokens(x, y),
    ensures
        x.skip(i) == y.skip(i),
    decreases x.toks.len() - i,
{
    lemma_group_end_bounds(x.toks, i + 1, 1);
    if annotation_at(x.toks, i) is Some {
        if let Some(e) = group_end(x.toks, i + 1, 1) {
            lemma_skip(x, y, e);
        }
    }
}

/// The parser's steps are the same.
proof fn lemma_steps<'a>(x: Input<'a>, y: Input<'a>)
    requires
        same_tokens(x, y),
    ensures
        forall|at: Cursor| #[trigger] x.step(at) == y.step(at),
        same_tokens(x.with_annotation("label"@), y.with_annotation("label"@)),
        same_tokens(x.with_annotation("name"@), y.with_annotation("name"@)),
{
    assert forall|at: Cursor| #[trigger] x.step(at) == y.step(at) by {
        lemma_skip(x, y, at.pos + 1);
    }
}

proof fn lemma_labeled_val_type<'a>(x: Input<'a>, y: Input<'a>, at: Cursor)
    requires
        same_tokens(x, y),
    ensures
        LabeledValType::grammar(x, at) == LabeledValType::grammar(y, at),
{
    lemma_steps(x, y);
}

proof fn lemma_types_to_end<'a>(
    x: Input<'a>,
    y: Input<'a>,
    at: Cursor,
    acc: Seq<LabeledValType<'a>>,
)
    requires
        same_tokens(x, y),
    ensures
        types_to_end(x, at, acc) == types_to_end(y, at, acc),
    decreases x.left(at),
{
    if !x.at_end(at) {
        lemma_labeled_val_type(x, y, at);
        lemma_labeled_val_type_advances(x, at);
        if let Ok((t, to)) = LabeledValType::grammar(x, at) {
            lemma_types_to_end(x, y, to, acc.push(t));
        }
    }
}

proof fn lemma_signature<'a>(x: Input<'a>, y: Input<'a>, at: Cursor, acc: FunctionTypeAst<'a>)
    requires
        same_tokens(x, y),
    ensures
        signature(x, at, acc) == signature(y, at, acc),
    decreases x.left(at),
{
    lemma_steps(x, y);
    let b = x.step(x.step(at));
    lemma_types_to_end(x, y, b, Seq::empty());
    lemma_types_to_end(x, y, b, acc.results);
    lemma_signature_group_advances(x, at, acc);
    assert(signature_group(x, at, acc) == signature_group(y, at, acc));
    if let Ok((next, to)) = signature_group(x, at, acc) {
        if to.pos > at.pos && x.tok(at) is Some {
            lemma_signature(x, y, to, next);
        }
    }
}

proof fn lemma_type_use<'a>(x: Input<'a>, y: Input<'a>, at: Cursor)
    requires
        same_tokens(x, y),
    ensures
        TypeUse::<'a, FunctionTypeNoNames<'a>>::grammar(x, at) == TypeUse::<
            'a,
            FunctionTypeNoNames<'a>,
        >::grammar(y, at),
{
    lemma_steps(x, y);
    let none = FunctionTypeAst { params: Seq::empty(), results: Seq::empty() };
    assert forall|a: Cursor| #[trigger]
        signature(x, a, none) == signature(y, a, none) by {
        lemma_signature(x, y, a, none);
    }
}

proof fn lemma_block_type<'a>(x: Input<'a>, y: Input<'a>, at: Cursor)
    requires
        same_tokens(x, y),
    ensures
        BlockType::grammar(x, at) == BlockType::grammar(y, at),
{
    lemma_steps(x, y);
    lemma_steps(x.with_annotation("name"@), y.with_annotation("name"@));
    if let Ok((_, a)) = Option::<Id<'a>>::grammar(x, at) {
        assert(Option::<NameAnnotation<'a>>::grammar(x, a) == Option::<NameAnnotation<'a>>::grammar(
            y,
            a,
        ));
        if let Ok((_, b)) = Option::<NameAnnotation<'a>>::grammar(x, a) {
            lemma_type_use(x, y, b);
        }
    }
}

proof fn lemma_catch_clauses<'a>(
    x: Input<'a>,
    y: Input<'a>,
    at: Cursor,
    acc: Seq<TryTableCatch<'a>>,
)
    requires
        same_tokens(x, y),
    ensures
        catch_clauses(x, at, acc) == catch_clauses(y, at, acc),
    decreases x.left(at),
{
    lemma_steps(x, y);
    if x.at_lparen(at) {
        lemma_catch_clause_advances(x, at);
        assert(catch_clause(x, at) == catch_clause(y, at));
        if let Ok((c, to)) = catch_clause(x, at) {
            lemma_catch_clauses(x, y, to, acc.push(c));
        }
    }
}

proof fn lemma_indices<'a>(x: Input<'a>, y: Input<'a>, at: Cursor, acc: Seq<Index<'a>>)
    requires
        same_tokens(x, y),
    ensures
        indices(x, at, acc) == indices(y, at, acc),
    decreases x.left(at),
{
    lemma_steps(x, y);
    if Index::starts(x, at) {
        lemma_index_advances(x, at);
        if let Ok((i, to)) = Index::grammar(x, at) {
            lemma_indices(x, y, to, acc.push(i));
        }
    }
}

proof fn lemma_result_groups<'a>(
    x: Input<'a>,
    y: Input<'a>,
    at: Cursor,
    acc: Seq<LabeledValType<'a>>,
)
    requires
        same_tokens(x, y),
    ensures
        result_groups(x, at, acc) == result_groups(y, at, acc),
    decreases x.left(at),
{
    lemma_steps(x, y);
    if x.keyword_follows(at, "result"@) {
        lemma_types_to_end(x, y, x.step(x.step(at)), acc);
        lemma_result_group_advances(x, at, acc);
        assert(result_group(x, at, acc) == result_group(y, at, acc));
        if let Ok((types, to)) = result_group(x, at, acc) {
            lemma_result_groups(x, y, to, types);
        }
    }
}

proof fn lemma_operand<'a>(x: Input<'a>, y: Input<'a>, kind: OperandKind, at: Cursor)
    requires
        same_tokens(x, y),
    ensures
        operand_grammar(kind, x, at) == operand_grammar(kind, y, at),
{
    lemma_steps(x, y);
    match kind {
        OperandKind::Block => lemma_block_type(x, y, at),
        OperandKind::CallIndirect => {
            if let Ok((_, a)) = Option::<Index<'a>>::grammar(x, at) {
                lemma_type_use(x, y, a);
            }
        },
        OperandKind::BrTable => {
            if let Ok((first, a)) = Index::grammar(x, at) {
                lemma_indices(x, y, a, seq![first]);
            }
        },
        OperandKind::Select => lemma_result_groups(x, y, at, Seq::empty()),
        OperandKind::TryTable => {
            lemma_block_type(x, y, at);
            if let Ok((_, a)) = BlockType::grammar(x, at) {
                lemma_catch_clauses(x, y, a, Seq::empty());
            }
        },
        _ => {},
    }
}

proof fn lemma_instruction<'a>(x: Input<'a>, y: Input<'a>, at: Cursor)
    requires
        same_tokens(x, y),
    ensures
        AllInstructions::grammar(x, at) == AllInstructions::grammar(y, at),
{
    lemma_steps(x, y);
    let (v, w) = (x.with_annotation("label"@), y.with_annotation("label"@));
    lemma_steps(v, w);
    assert forall|kind: OperandKind, a: Cursor| #[trigger]
        operand_grammar(kind, v, a) == operand_grammar(kind, w, a) by {
        lemma_operand(v, w, kind, a);
    }
    assert(Instruction::grammar(v, at) == Instruction::grammar(w, at));
    assert(LabelAnnotation::grammar(v, at) == LabelAnnotation::grammar(w, at));
    if let Ok((_, a)) = LabelAnnotation::grammar(v, at) {
        assert(MemoryInstruction::grammar(v, a) == MemoryInstruction::grammar(w, a));
    }
}

/// The same instructions and branch hints.
pub open spec fn alike<'a>(x: Listing<'a>, y: Listing<'a>) -> bool {
    x.instrs == y.instrs && x.hints == y.hints && x.pending == y.pending
}

/// The same instructions, branch hints and cursors, or the same error.
pub open spec fn agree<'a>(x: Parsed<Listing<'a>>, y: Parsed<Listing<'a>>) -> bool {
    match (x, y) {
        (Ok((o, to)), Ok((p, end))) => alike(o, p) && to == end,
        (Err(e), Err(f)) => e == f,
        _ => false,
    }
}

/// Recording the positions of instructions changes nothing else: with it and
/// without it, an expression has the same instructions and branch hints and
/// extends to the same place, or gives the same error; and so does a single
/// folded instruction.
pub proof fn law_tracking_changes_nothing_else<'a>(x: Input<'a>, y: Input<'a>, at: Cursor)
    requires
        same_tokens(x, y),
    ensures
        agree(Expression::grammar(x, at), Expression::grammar(y, at)),
        agree(
            folded_only(x, at, Listing::empty(x.track)),
            folded_only(y, at, Listing::empty(y.track)),
        ),
{
    let (l, m) = (Listing::empty(x.track), Listing::empty(y.track));
    lemma_items_agree(x, y, at, l, m);
    lemma_folded_only_agrees(x, y, at, l, m);
}

proof fn lemma_item_agrees<'a>(
    x: Input<'a>,
    y: Input<'a>,
    at: Cursor,
    l: Listing<'a>,
    m: Listing<'a>,
)
    requires
        same_tokens(x, y),
        alike(l, m),
    ensures
        agree(item(x, at, l), item(y, at, m)),
    decreases x.left(at), 0nat,
{
    lemma_steps(x, y);
    if x.at_lparen(at) {
        x.lemma_step(at);
        lemma_folded_agrees(x, y, x.step(at), l, m);
    } else {
        lemma_instruction(x, y, at);
    }
}

proof fn lemma_items_agree<'a>(
    x: Input<'a>,
    y: Input<'a>,
    at: Cursor,
    l: Listing<'a>,
    m: Listing<'a>,
)
    requires
        same_tokens(x, y),
        alike(l, m),
    ensures
        agree(items(x, at, l), items(y, at, m)),
    decreases x.left(at), 1nat,
{
    if !x.at_end(at) {
        lemma_item_advances(x, at, l);
        lemma_item_agrees(x, y, at, l, m);
        if let (Ok((o, to)), Ok((p, _))) = (item(x, at, l), item(y, at, m)) {
            lemma_items_agree(x, y, to, o, p);
        }
    }
}

proof fn lemma_group_items_agree<'a>(
    x: Input<'a>,
    y: Input<'a>,
    at: Cursor,
    l: Listing<'a>,
    m: Listing<'a>,
)
    requires
        same_tokens(x, y),
        alike(l, m),
    ensures
        match (group_items(x, at, l), group_items(y, at, m)) {
            (Ok(((o, s), to)), Ok(((p, t), end))) => alike(o, p) && s == t && to == end,
            (Err(e), Err(f)) => e == f,
            _ => false,
        },
    decreases x.left(at), 2nat,
{
    lemma_steps(x, y);
    lemma_items_agree(x, y, at, l, m);
}

proof fn lemma_group_rest_agrees<'a>(
    x: Input<'a>,
    y: Input<'a>,
    at: Cursor,
    l: Listing<'a>,
    m: Listing<'a>,
)
    requires
        same_tokens(x, y),
        alike(l, m),
    ensures
        match (group_rest(x, at, l), group_rest(y, at, m)) {
            (Ok(((o, s), to)), Ok(((p, t), end))) => alike(o, p) && s == t && to == end,
            (Err(e), Err(f)) => e == f,
            _ => false,
        },
    decreases x.left(at), 3nat,
{
    lemma_group_items_agree(x, y, at, l, m);
}

proof fn lemma_folded_agrees<'a>(
    x: Input<'a>,
    y: Input<'a>,
    at: Cursor,
    l: Listing<'a>,
    m: Listing<'a>,
)
    requires
        same_tokens(x, y),
        alike(l, m),
    ensures
        agree(folded(x, at, l), folded(y, at, m)),
    decreases x.left(at), 4nat,
{
    lemma_steps(x, y);
    let (v, w) = (l.unhinted(), m.unhinted());
    if x.at_annotation(at, "metadata.code.branch_hint"@) {
        lemma_branch_hint_advances(x, at);
        assert(branch_hint(x, at) == branch_hint(y, at));
        if let Ok((value, a)) = branch_hint(x, at) {
            lemma_group_items_agree(x, y, a, l.hint(value), m.hint(value));
        }
    } else {
        lemma_instruction(x, y, at);
        lemma_any_instruction_advances(x, at);
        let span = x.here(at);
        if let Ok((i, a)) = AllInstructions::grammar(x, at) {
            match form(i) {
                Form::Block => lemma_group_rest_agrees(x, y, a, v.push(i, span), w.push(i, span)),
                Form::Conditional => lemma_if_clause_agrees(x, y, a, v, w, i, span, l.pending),
                Form::Plain => lemma_group_rest_agrees(x, y, a, v, w),
            }
        }
    }
}

proof fn lemma_if_clause_agrees<'a>(
    x: Input<'a>,
    y: Input<'a>,
    at: Cursor,
    l: Listing<'a>,
    m: Listing<'a>,
    i: AllInstructionsAst<'a>,
    span: Span,
    hint: Option<u32>,
)
    requires
        same_tokens(x, y),
        alike(l, m),
    ensures
        agree(if_clause(x, at, l, i, span, hint), if_clause(y, at, m, i, span, hint)),
    decreases x.left(at), 1nat,
{
    lemma_steps(x, y);
    if x.at_lparen(at) {
        let a = x.step(at);
        let b = x.step(a);
        x.lemma_step(at);
        x.lemma_step(a);
        if x.at_keyword(a, "then"@) {
            let (v, w) = (l.note(hint).push(i, span), m.note(hint).push(i, span));
            lemma_group_rest_advances(x, b, v);
            lemma_group_rest_agrees(x, y, b, v, w);
            if let (Ok(((o, _), to)), Ok(((p, _), _))) = (group_rest(x, b, v), group_rest(y, b, w)) {
                lemma_if_then_agrees(x, y, to, o, p);
            }
        } else {
            lemma_folded_advances(x, a, l);
            lemma_folded_agrees(x, y, a, l, m);
            if let (Ok((o, to)), Ok((p, _))) = (folded(x, a, l), folded(y, a, m)) {
                lemma_if_clause_agrees(x, y, to, o, p, i, span, hint);
            }
        }
    }
}

proof fn lemma_if_then_agrees<'a>(
    x: Input<'a>,
    y: Input<'a>,
    at: Cursor,
    l: Listing<'a>,
    m: Listing<'a>,
)
    requires
        same_tokens(x, y),
        alike(l, m),
    ensures
        agree(if_then(x, at, l), if_then(y, at, m)),
    decreases x.left(at), 1nat,
{
    lemma_steps(x, y);
    let a = x.step(at);
    let b = x.step(a);
    x.lemma_step(at);
    x.lemma_step(a);
    if x.at_lparen(at) && x.at_keyword(a, "else"@) {
        let span = x.here(a);
        lemma_group_rest_agrees(x, y, b, l.push(otherwise(), span), m.push(otherwise(), span));
    }
}

proof fn lemma_folded_only_agrees<'a>(
    x: Input<'a>,
    y: Input<'a>,
    at: Cursor,
    l: Listing<'a>,
    m: Listing<'a>,
)
    requires
        same_tokens(x, y),
        alike(l, m),
    ensures
        agree(folded_only(x, at, l), folded_only(y, at, m)),
    decreases x.left(at), 0nat,
{
    lemma_steps(x, y);
    if x.at_lparen(at) {
        let a = x.step(at);
        x.lemma_step(at);
        lemma_instruction(x, y, a);
        lemma_any_instruction_advances(x, a);
        if let Ok((_, b)) = AllInstructions::grammar(x, a) {
            lemma_folded_operands_agree(x, y, b, l, m);
        }
    }
}

proof fn lemma_folded_operands_agree<'a>(
    x: Input<'a>,
    y: Input<'a>,
    at: Cursor,
    l: Listing<'a>,
    m: Listing<'a>,
)
    requires
        same_tokens(x, y),
        alike(l, m),
    ensures
        agree(folded_operands(x, at, l), folded_operands(y, at, m)),
    decreases x.left(at), 1nat,
{
    if !x.at_rparen(at) {
        lemma_folded_only_advances(x, at, l);
        lemma_folded_only_agrees(x, y, at, l, m);
        if let (Ok((o, to)), Ok((p, _))) = (folded_only(x, at, l), folded_only(y, at, m)) {
            lemma_folded_operands_agree(x, y, to, o, p);
        }
    }
}

} // verus!
