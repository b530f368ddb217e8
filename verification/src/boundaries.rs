//! Where one item of a text ends and the next one starts.

use vstd::prelude::*;

use crate::control::{BlockType, BrTableIndices, CallIndirect, SelectTypes, TryTable};
use crate::grammar::{folded, item, items, lemma_item_advances, Listing};
use crate::instruction::{instruction_rest, operand_grammar, Instruction};
use crate::labels::{AllInstructions, Label, LabelAnnotation};
use crate::memory::is_field;
use crate::opcode::{Opcode, OperandKind};
use crate::parser::{Cursor, Input, Parse, Peek};
use crate::placement::{apart, idle, lemma_skip_known, still};
use crate::token::{Error, Id, Index, NameAnnotation, TokenKind};
use crate::types::{signature_group, FunctionTypeAst, FunctionTypeNoNames, HeapType, TypeUse};

verus! {

/// What names an instruction continues none in front of it, and starts no arm.
proof fn lemma_named_is_idle<'a>(word: &'a str)
    requires
        Opcode::named(word@) is Some,
    ensures
        idle(TokenKind::Keyword(word)),
        word@ != "then"@,
{
    let op = choose|op: Opcode| op.mnemonic() == word@;
    Opcode::lemma_mnemonic_is_no_operand(op);
    reveal_strlit("offset");
    reveal_strlit("align");
    if is_field(word@, "offset"@) {
        assert(word@.take(6)[0] == word@[0]);
    }
    if is_field(word@, "align"@) {
        assert(word@.take(5)[0] == word@[0]);
    }
}

/// An instruction starts with a token that continues none in front of it.
pub proof fn lemma_instruction_head<'a>(y: Input<'a>, c: Cursor)
    requires
        AllInstructions::grammar(y, c) is Ok,
    ensures
        y.tok(c) matches Some(kind) && idle(kind) && !(kind is LParen) && !(kind is RParen),
        !y.at_keyword(c, "then"@),
{
    reveal_strlit("label");
    reveal_strlit("name");
    assert("label"@.len() != "name"@.len());
    let w = y.with_annotation("label"@);
    assert(w.tok(c) == y.tok(c));
    if let Some(TokenKind::Keyword(k)) = y.tok(c) {
        lemma_named_is_idle(k);
    }
}

/// So does an item.
pub proof fn lemma_item_head<'a>(y: Input<'a>, c: Cursor, out: Listing<'a>)
    requires
        item(y, c, out) is Ok,
    ensures
        y.tok(c) matches Some(kind) && idle(kind) && !(kind is RParen),
        y.at_lparen(c) ==> {
            &&& y.tok(y.step(c)) matches Some(kind)
            &&& idle(kind)
            &&& !y.at_keyword(y.step(c), "then"@)
        },
{
    if y.at_lparen(c) {
        let a = y.step(c);
        assert(folded(y, a, out) is Ok);
        reveal_strlit("metadata.code.branch_hint");
        reveal_strlit("name");
        assert("metadata.code.branch_hint"@.len() != "name"@.len());
        if !y.at_annotation(a, "metadata.code.branch_hint"@) {
            lemma_instruction_head(y, a);
        }
    } else {
        lemma_instruction_head(y, c);
    }
}

/// A token that belongs into a group stands outside of one.
spec fn ungrouped<'a>(w: Input<'a>, s: Cursor) -> bool {
    w.tok(s) matches Some(k) && !apart(k)
}

proof fn lemma_ungrouped_type<'a>(w: Input<'a>, s: Cursor)
    requires
        ungrouped(w, s),
    ensures
        TypeUse::<'a, FunctionTypeNoNames<'a>>::grammar(w, s) matches Ok((_, to)) ==> to == s,
        BlockType::grammar(w, s) matches Ok((_, to)) ==> to == s,
        SelectTypes::grammar(w, s) matches Ok((_, to)) ==> to == s,
        HeapType::grammar(w, s) is Err,
{
    let named = w.with_annotation("name"@);
    assert(named.tok(s) == w.tok(s));
    assert(!w.at_lparen(s));
    assert(w.open(s) is Err);
    assert(forall|acc: FunctionTypeAst<'a>| signature_group(w, s, acc) is Err);
    assert(TypeUse::<'a, FunctionTypeNoNames<'a>>::grammar(w, s) matches Ok((_, to)) ==> to == s);
    assert(Option::<NameAnnotation<'a>>::grammar(w, s) matches Ok((_, to)) ==> to == s);
    assert(Option::<Id<'a>>::grammar(w, s) == Ok::<_, Error>((None::<Id<'a>>, s)));
    assert(HeapType::grammar(w, s) is Err) by {
        reveal_strlit("type");
        reveal_strlit("param");
        reveal_strlit("result");
        reveal_strlit("func");
        reveal_strlit("extern");
        reveal_strlit("exn");
        reveal_strlit("any");
        reveal_strlit("eq");
        reveal_strlit("struct");
        reveal_strlit("array");
        reveal_strlit("i31");
        reveal_strlit("nofunc");
        reveal_strlit("noextern");
        reveal_strlit("noexn");
        reveal_strlit("none");
        if let Some(TokenKind::Keyword(k)) = w.tok(s) {
            assert(k@[0] == 't' || k@[0] == 'p' || k@[0] == 'r');
        }
    }
}

/// An operand takes nothing where a token stands that belongs into a group.
proof fn lemma_ungrouped_operand<'a>(w: Input<'a>, kind: OperandKind, s: Cursor)
    requires
        ungrouped(w, s),
    ensures
        operand_grammar(kind, w, s) matches Ok((_, to)) ==> to == s,
{
    lemma_ungrouped_type(w, s);
    assert(!Index::starts(w, s));
    match kind {
        OperandKind::BrTable => {
            assert(BrTableIndices::grammar(w, s) is Err);
        },
        OperandKind::TryTable => {
            assert(TryTable::grammar(w, s) matches Ok((_, to)) ==> to == s);
        },
        OperandKind::CallIndirect => {
            assert(CallIndirect::grammar(w, s) matches Ok((_, to)) ==> to == s);
        },
        _ => {},
    }
}

/// An instruction that a token follows that belongs into a group has no operand.
proof fn lemma_ungrouped_second<'a>(y: Input<'a>, c: Cursor)
    requires
        AllInstructions::grammar(y, c) is Ok,
        !still(y.with_annotation("label"@), c.pos),
    ensures
        AllInstructions::grammar(y, c) matches Ok((_, to)) && ungrouped(y, to),
{
    let w = y.with_annotation("label"@);
    let s = w.step(c);
    assert(w.tok(s) == Some(w.toks[s.pos].kind)) by {
        w.lemma_step(c);
    }
    assert(w.tok(c) == y.tok(c));
    assert(ungrouped(w, s));
    if LabelAnnotation::starts(w, c) {
        assert(Label::grammar(w, s) is Err);
        assert(LabelAnnotation::grammar(w, c) is Err);
        assert(false);
    } else if let Some(TokenKind::Keyword(k)) = w.tok(c) {
        if let Some(op) = Opcode::named(k@) {
            lemma_ungrouped_operand(w, op.operand(), s);
            assert(Instruction::grammar(w, c) == match instruction_rest(op, w, s) {
                Ok((i, to)) => Ok((i, to)),
                Err(e) => Err(e),
            });
            assert(AllInstructions::grammar(y, c) matches Ok((_, to)) && to == s);
            assert(y.tok(s) == w.tok(s));
        }
    }
}

proof fn lemma_group_stands_apart<'a>(y: Input<'a>, c: Cursor, out: Listing<'a>)
    requires
        item(y, c, out) is Ok,
        y.at_lparen(c),
    ensures
        still(y.with_annotation("label"@), c.pos),
{
    lemma_item_head(y, c, out);
    lemma_skip_known(y, "label"@, c.pos + 1);
    assert(y.step(c).pos == y.skip(c.pos + 1));
}

proof fn lemma_flat_stands_apart<'a>(y: Input<'a>, c: Cursor, out: Listing<'a>)
    requires
        item(y, c, out) is Ok,
        !y.at_lparen(c),
        item(y, c, out) matches Ok((o, to)) && (y.at_end(to) || item(y, to, o) is Ok),
    ensures
        still(y.with_annotation("label"@), c.pos),
{
    if !still(y.with_annotation("label"@), c.pos) {
        assert(AllInstructions::grammar(y, c) is Ok);
        lemma_ungrouped_second(y, c);
        if let Ok((o, to)) = item(y, c, out) {
            assert(AllInstructions::grammar(y, c) matches Ok((_, d)) && d == to);
            assert(!y.at_end(to));
            lemma_item_head(y, to, o);
        }
    }
}

/// Where items are parsed, the first one continues no instruction in front of it,
/// neither by its first token nor by its second one.
pub proof fn lemma_items_stand_apart<'a>(y: Input<'a>, c: Cursor, out: Listing<'a>)
    requires
        items(y, c, out) is Ok,
        !y.at_end(c),
    ensures
        y.tok(c) matches Some(kind) && idle(kind),
        still(y.with_annotation("label"@), c.pos),
{
    lemma_item_advances(y, c, out);
    assert(item(y, c, out) is Ok);
    lemma_item_head(y, c, out);
    if y.at_lparen(c) {
        lemma_group_stands_apart(y, c, out);
    } else if let Ok((o, to)) = item(y, c, out) {
        assert(items(y, to, o) is Ok);
        assert(y.at_end(to) || item(y, to, o) is Ok);
        lemma_flat_stands_apart(y, c, out);
    }
}

} // verus!
