//! Annotations that nobody has registered are as if they were not there.

use vstd::prelude::*;

use crate::parser::{annotation_at, first_unclosed, group_end, Cursor, Input};
use crate::token::{Token, TokenKind};

verus! {

/// How many more parentheses are opened than closed from token `i` up to token `j`.
pub open spec fn level(toks: Seq<Token>, i: int, j: int) -> int
    decreases j - i,
{
    if j <= i {
        0
    } else {
        level(toks, i, j - 1) + match toks[j - 1].kind {
            TokenKind::LParen => 1int,
            TokenKind::RParen => -1,
            _ => 0,
        }
    }
}

/// The group that opens at token `i` is closed right before token `e`.
pub open spec fn closes(toks: Seq<Token>, i: int, e: int) -> bool {
    &&& 0 <= i < e <= toks.len()
    &&& toks[i].kind is LParen
    &&& level(toks, i, e) == 0
    &&& forall|k: int| i < k < e ==> #[trigger] level(toks, i, k) > 0
}

/// A scan from inside of the group finds its end.
proof fn lemma_group_end(toks: Seq<Token>, i: int, e: int, j: int)
    requires
        closes(toks, i, e),
        i < j < e,
    ensures
        group_end(toks, j, level(toks, i, j) as nat) == Some(e),
    decreases e - j,
{
    assert(level(toks, i, j) > 0);
    assert(level(toks, i, j + 1) == level(toks, i, j) + match toks[j].kind {
        TokenKind::LParen => 1int,
        TokenKind::RParen => -1,
        _ => 0,
    });
    if j + 1 < e {
        lemma_group_end(toks, i, e, j + 1);
    } else {
        assert(level(toks, i, e) == 0);
    }
}

/// An annotation that nobody has registered is skipped, with all of its group, and so
/// are those that follow it.
pub proof fn law_unregistered_annotations_are_skipped<'a>(
    input: Input<'a>,
    i: int,
    e: int,
    name: &'a str,
)
    requires
        closes(input.toks, i, e),
        i + 1 < e,
        input.toks[i + 1].kind == TokenKind::Annotation(name),
        !input.known.contains(name@),
    ensures
        input.skip(i) == input.skip(e),
{
    assert(level(input.toks, i, i) == 0);
    assert(level(input.toks, i, i + 1) == 1);
    lemma_group_end(input.toks, i, e, i + 1);
}

/// Nothing else is skipped: neither an annotation that somebody has registered, nor any
/// other token.
pub proof fn law_nothing_else_is_skipped<'a>(input: Input<'a>, i: int)
    ensures
        ({
            let opens = 0 <= i && i + 1 < input.toks.len() && input.toks[i].kind is LParen;
            match input.toks[i + 1].kind {
                TokenKind::Annotation(name) => opens ==> input.known.contains(name@) ==> input.skip(
                    i,
                ) == i,
                _ => opens ==> input.skip(i) == i,
            }
        }),
        0 <= i < input.toks.len() && !(input.toks[i].kind is LParen) ==> input.skip(i) == i,
        i + 1 >= input.toks.len() ==> input.skip(i) == i,
{
}

/// Consuming a token leads to the next one that is not skipped.
pub proof fn law_step<'a>(input: Input<'a>, at: Cursor, name: Seq<char>)
    ensures
        input.step(at).pos == input.skip(at.pos + 1),
        input.step(at).pos > at.pos,
        0 <= at.pos < input.toks.len() ==> input.tok(at) == Some(input.toks[at.pos].kind)
            && input.here(at) == input.toks[at.pos].span && input.step(at).prev
            == input.toks[at.pos].span,
        at.pos >= input.toks.len() ==> input.tok(at) is None && input.here(at) == input.end,
        input.with_annotation(name).known.contains(name),
        forall|n: Seq<char>|
            input.known.contains(n) ==> #[trigger] input.with_annotation(name).known.contains(n),
        forall|n: Seq<char>| #[trigger]
            input.with_annotation(name).known.contains(n) ==> n == name || input.known.contains(n),
        input.with_annotation(name).toks == input.toks,
{
    input.lemma_step(at);
    let w = input.with_annotation(name);
    assert(w.known[w.known.len() - 1] == name);
    assert forall|n: Seq<char>| input.known.contains(n) implies #[trigger] w.known.contains(n) by {
        let k = choose|k: int| 0 <= k < input.known.len() && input.known[k] == n;
        assert(w.known[k] == n);
    }
    assert forall|n: Seq<char>| #[trigger] w.known.contains(n) implies n == name
        || input.known.contains(n) by {
        let k = choose|k: int| 0 <= k < w.known.len() && w.known[k] == n;
        if k < input.known.len() {
            assert(input.known[k] == n);
        }
    }
}

/// What a scan from inside of a group finds is its end.
proof fn lemma_found_end(toks: Seq<Token>, i: int, j: int)
    requires
        0 <= i < j <= toks.len(),
        toks[i].kind is LParen,
        forall|k: int| i < k <= j ==> #[trigger] level(toks, i, k) > 0,
    ensures
        group_end(toks, j, level(toks, i, j) as nat) matches Some(e) ==> closes(toks, i, e),
    decreases toks.len() - j,
{
    if j < toks.len() {
        assert(level(toks, i, j + 1) == level(toks, i, j) + match toks[j].kind {
            TokenKind::LParen => 1int,
            TokenKind::RParen => -1,
            _ => 0,
        });
        if level(toks, i, j + 1) > 0 {
            assert forall|k: int| i < k <= j + 1 implies #[trigger] level(toks, i, k) > 0 by {
                if k <= j {
                    assert(level(toks, i, k) > 0);
                }
            }
            lemma_found_end(toks, i, j + 1);
        } else {
            assert forall|k: int| i < k < j + 1 implies #[trigger] level(toks, i, k) > 0 by {}
        }
    }
}

/// Tokens are refused for the first annotation that is not closed.
pub proof fn law_first_unclosed_annotation(toks: Seq<Token>, i: int, j: int)
    requires
        first_unclosed(toks, i),
    ensures
        annotation_at(toks, i) is Some,
        forall|e: int| !#[trigger] closes(toks, i, e),
        j < i && annotation_at(toks, j) is Some ==> exists|e: int| #[trigger] closes(toks, j, e),
{
    assert forall|e: int| !#[trigger] closes(toks, i, e) by {
        if closes(toks, i, e) {
            assert(level(toks, i, i) == 0);
            assert(level(toks, i, i + 1) == 1);
            lemma_group_end(toks, i, e, i + 1);
        }
    }
    if j < i && annotation_at(toks, j) is Some {
        assert(level(toks, j, j) == 0);
        assert(level(toks, j, j + 1) == 1);
        lemma_found_end(toks, j, j + 1);
        let e = group_end(toks, j + 1, 1).unwrap();
        assert(closes(toks, j, e));
    }
}

} // verus!
