//! The parser: a cursor over a list of tokens.

use vstd::prelude::*;

use crate::text::same_text;
use crate::token::{Error, Span, Token, TokenKind};

verus! {

/// What a parser reads from: the tokens, the annotations that somebody has
/// registered an interest in, the position of the end of the source text, and
/// whether expressions are to record the position of each instruction.
#[verifier::ext_equal]
pub struct Input<'a> {
    pub toks: Seq<Token<'a>>,
    pub known: Seq<Seq<char>>,
    pub end: Span,
    pub track: bool,
}

/// Where a parser is: the index of its next token, and the position of the token
/// it consumed last.
pub struct Cursor {
    pub pos: int,
    pub prev: Span,
}

/// What a grammar rule makes of an input: a value and the cursor behind it, or
/// an error.
pub type Parsed<T> = Result<(T, Cursor), Error>;

/// The name of the annotation that opens at token `i`, if one does.
pub open spec fn annotation_at(toks: Seq<Token>, i: int) -> Option<Seq<char>> {
    if 0 <= i && i + 1 < toks.len() && toks[i].kind is LParen {
        match toks[i + 1].kind {
            TokenKind::Annotation(name) => Some(name@),
            _ => None,
        }
    } else {
        None
    }
}

/// The index behind the parenthesis that closes a group `depth` levels deep, for
/// a scan that starts at token `i` inside of it.
pub open spec fn group_end(toks: Seq<Token>, i: int, depth: nat) -> Option<int>
    decreases toks.len() - i,
{
    if i < 0 || i >= toks.len() {
        None
    } else {
        match toks[i].kind {
            TokenKind::LParen => group_end(toks, i + 1, depth + 1),
            TokenKind::RParen => if depth <= 1 {
                Some(i + 1)
            } else {
                group_end(toks, i + 1, (depth - 1) as nat)
            },
            _ => group_end(toks, i + 1, depth),
        }
    }
}

/// Every annotation is closed.
pub open spec fn annotations_closed(toks: Seq<Token>) -> bool {
    forall|i: int|
        #![trigger annotation_at(toks, i)]
        annotation_at(toks, i) is Some ==> group_end(toks, i + 1, 1) is Some
}

pub proof fn lemma_group_end_bounds(toks: Seq<Token>, i: int, depth: nat)
    ensures
        group_end(toks, i, depth) matches Some(e) ==> i < e <= toks.len(),
    decreases toks.len() - i,
{
    if 0 <= i < toks.len() {
        lemma_group_end_bounds(toks, i + 1, depth + 1);
        lemma_group_end_bounds(toks, i + 1, depth);
        if depth > 1 {
            lemma_group_end_bounds(toks, i + 1, (depth - 1) as nat);
        }
    }
}

impl<'a> Input<'a> {
    /// The first token at or behind `i` that is not part of an annotation
    /// nobody has registered.
    pub open spec fn skip(self, i: int) -> int
        decreases self.toks.len() - i,
    {
        match annotation_at(self.toks, i) {
            Some(name) => if self.known.contains(name) {
                i
            } else {
                proof {
                    lemma_group_end_bounds(self.toks, i + 1, 1);
                }
                match group_end(self.toks, i + 1, 1) {
                    Some(e) => self.skip(e),
                    None => i,
                }
            },
            None => i,
        }
    }

    /// How many tokens are left.
    pub open spec fn left(self, at: Cursor) -> nat {
        if at.pos < self.toks.len() {
            (self.toks.len() - at.pos) as nat
        } else {
            0
        }
    }

    /// The next token.
    pub open spec fn tok(self, at: Cursor) -> Option<TokenKind<'a>> {
        if 0 <= at.pos < self.toks.len() {
            Some(self.toks[at.pos].kind)
        } else {
            None
        }
    }

    /// The position of the next token, or of the end of the text.
    pub open spec fn here(self, at: Cursor) -> Span {
        if 0 <= at.pos < self.toks.len() {
            self.toks[at.pos].span
        } else {
            self.end
        }
    }

    /// The cursor behind the next token.
    pub open spec fn step(self, at: Cursor) -> Cursor {
        Cursor { pos: self.skip(at.pos + 1), prev: self.here(at) }
    }

    /// An error at the next token.
    pub open spec fn fail<T>(self, at: Cursor, msg: &'static str) -> Parsed<T> {
        Err(Error { span: self.here(at), msg })
    }

    pub open spec fn at_lparen(self, at: Cursor) -> bool {
        self.tok(at) == Some(TokenKind::<'a>::LParen)
    }

    pub open spec fn at_rparen(self, at: Cursor) -> bool {
        self.tok(at) == Some(TokenKind::<'a>::RParen)
    }

    /// Nothing is left of the innermost group, or of the text.
    pub open spec fn at_end(self, at: Cursor) -> bool {
        self.tok(at) is None || self.at_rparen(at)
    }

    pub open spec fn at_keyword(self, at: Cursor, word: Seq<char>) -> bool {
        self.tok(at) matches Some(TokenKind::Keyword(k)) && k@ == word
    }

    pub open spec fn at_annotation(self, at: Cursor, name: Seq<char>) -> bool {
        self.tok(at) matches Some(TokenKind::Annotation(n)) && n@ == name
    }

    /// A keyword stands behind the next token.
    pub open spec fn keyword_follows(self, at: Cursor, word: Seq<char>) -> bool {
        self.tok(at) is Some && self.at_keyword(self.step(at), word)
    }

    /// An annotation stands behind the next token.
    pub open spec fn annotation_follows(self, at: Cursor, name: Seq<char>) -> bool {
        self.tok(at) is Some && self.at_annotation(self.step(at), name)
    }

    /// `word`, or the error `msg`. The value is where the keyword stands.
    pub open spec fn keyword(self, at: Cursor, word: Seq<char>, msg: &'static str) -> Parsed<Span> {
        if self.at_keyword(at, word) {
            Ok((self.here(at), self.step(at)))
        } else {
            self.fail(at, msg)
        }
    }

    /// The annotation `name`, or the error `msg`.
    pub open spec fn annotation(self, at: Cursor, name: Seq<char>, msg: &'static str) -> Parsed<Span> {
        if self.at_annotation(at, name) {
            Ok((self.here(at), self.step(at)))
        } else {
            self.fail(at, msg)
        }
    }

    /// `(`. The value is where it stands.
    pub open spec fn open(self, at: Cursor) -> Parsed<Span> {
        if self.at_lparen(at) {
            Ok((self.here(at), self.step(at)))
        } else {
            self.fail(at, "expected `(`")
        }
    }

    /// `)`. The value is where it stands.
    pub open spec fn close(self, at: Cursor) -> Parsed<Span> {
        if self.at_rparen(at) {
            Ok((self.here(at), self.step(at)))
        } else {
            self.fail(at, "expected `)`")
        }
    }

    /// The same input, with one more annotation registered.
    pub open spec fn with_annotation(self, name: Seq<char>) -> Input<'a> {
        Input { known: self.known.push(name), ..self }
    }

    pub proof fn lemma_skip_bounds(self, i: int)
        ensures
            i <= self.skip(i),
            i <= self.toks.len() ==> self.skip(i) <= self.toks.len(),
        decreases self.toks.len() - i,
    {
        if annotation_at(self.toks, i) is Some {
            lemma_group_end_bounds(self.toks, i + 1, 1);
            if let Some(e) = group_end(self.toks, i + 1, 1) {
                self.lemma_skip_bounds(e);
            }
        }
    }

    /// Consuming a token moves the cursor on.
    pub proof fn lemma_step(self, at: Cursor)
        ensures
            at.pos < self.step(at).pos,
            at.pos < self.toks.len() ==> self.step(at).pos <= self.toks.len(),
    {
        self.lemma_skip_bounds(at.pos + 1);
    }
}

/// A parser over a list of tokens.
pub struct Parser<'a> {
    toks: &'a [Token<'a>],
    known: Vec<&'static str>,
    end: Span,
    pos: usize,
    prev: Span,
    track: bool,
}

impl<'a> Parser<'a> {
    pub closed spec fn input(&self) -> Input<'a> {
        Input {
            toks: self.toks@,
            known: Seq::new(self.known@.len(), |i: int| self.known@[i]@),
            end: self.end,
            track: self.track,
        }
    }

    pub closed spec fn at(&self) -> Cursor {
        Cursor { pos: self.pos as int, prev: self.prev }
    }

    /// The cursor is within the tokens, and every annotation is closed.
    pub closed spec fn wf(&self) -> bool {
        &&& self.pos <= self.toks@.len()
        &&& annotations_closed(self.toks@)
    }

    /// The parsers read the same input.
    pub open spec fn same_source(&self, other: &Parser<'a>) -> bool {
        &&& self.wf()
        &&& self.input() == other.input()
    }
}

/// Finds the end of a group; see [`group_end`].
fn find_group_end<'a>(toks: &'a [Token<'a>], start: usize) -> (end: Option<usize>)
    requires
        1 <= start <= toks.len(),
    ensures
        match end {
            Some(e) => group_end(toks@, start as int, 1) == Some(e as int) && e <= toks.len(),
            None => group_end(toks@, start as int, 1) is None,
        },
{
    let mut i: usize = start;
    let mut depth: usize = 1;
    while i < toks.len()
        invariant
            1 <= start <= i <= toks.len(),
            1 <= depth <= i - start + 1,
            group_end(toks@, start as int, 1) == group_end(toks@, i as int, depth as nat),
        decreases toks.len() - i,
    {
        match toks[i].kind {
            TokenKind::LParen => {
                depth += 1;
            },
            TokenKind::RParen => {
                if depth == 1 {
                    return Some(i + 1);
                }
                depth -= 1;
            },
            _ => {},
        }
        i += 1;
    }
    None
}

/// Tells whether an annotation opens at token `i`, and finds its name.
fn find_annotation<'a>(toks: &'a [Token<'a>], i: usize) -> (name: Option<&'a str>)
    ensures
        match name {
            Some(n) => annotation_at(toks@, i as int) == Some(n@),
            None => annotation_at(toks@, i as int) is None,
        },
{
    if i < toks.len() && toks.len() - i > 1 {
        match (toks[i].kind, toks[i + 1].kind) {
            (TokenKind::LParen, TokenKind::Annotation(name)) => Some(name),
            _ => None,
        }
    } else {
        None
    }
}

/// The first annotation that is never closed.
pub open spec fn first_unclosed(toks: Seq<Token>, i: int) -> bool {
    &&& annotation_at(toks, i) is Some
    &&& group_end(toks, i + 1, 1) is None
    &&& forall|j: int|
        #![trigger annotation_at(toks, j)]
        0 <= j < i && annotation_at(toks, j) is Some ==> group_end(toks, j + 1, 1) is Some
}

impl<'a> Parser<'a> {
    /// Starts a parser at the first token.
    ///
    /// `end` is the position of the end of the source text. Fails where an
    /// annotation is never closed.
    pub fn new(toks: &'a [Token<'a>], end: Span, track_instr_spans: bool) -> (r: Result<
        Parser<'a>,
        Error,
    >)
        ensures
            match r {
                Ok(p) => {
                    let input = Input {
                        toks: toks@,
                        known: Seq::<Seq<char>>::empty(),
                        end,
                        track: track_instr_spans,
                    };
                    &&& annotations_closed(toks@)
                    &&& p.wf()
                    &&& p.input() == input
                    &&& p.at() == (Cursor { pos: input.skip(0), prev: (Span { offset: 0 }) })
                },
                Err(e) => exists|i: int|
                    first_unclosed(toks@, i) && e == (Error {
                        span: toks@[i].span,
                        msg: "unclosed annotation",
                    }),
            },
    {
        let mut i: usize = 0;
        while i < toks.len()
            invariant
                i <= toks.len(),
                forall|j: int|
                    #![trigger annotation_at(toks@, j)]
                    0 <= j < i && annotation_at(toks@, j) is Some ==> group_end(toks@, j + 1, 1) is Some,
            decreases toks.len() - i,
        {
            if find_annotation(toks, i).is_some() && find_group_end(toks, i + 1).is_none() {
                assert(first_unclosed(toks@, i as int));
                return Err(Error { span: toks[i].span, msg: "unclosed annotation" });
            }
            i += 1;
        }
        let known: Vec<&'static str> = Vec::new();
        let mut p = Parser {
            toks,
            known,
            end,
            pos: 0,
            prev: Span { offset: 0 },
            track: track_instr_spans,
        };
        assert(p.input().known =~= Seq::<Seq<char>>::empty());
        p.pos = p.skip_annotations(0);
        assert(p.input().known =~= Seq::<Seq<char>>::empty());
        Ok(p)
    }

    fn is_known(&self, name: &str) -> (known: bool)
        ensures
            known == self.input().known.contains(name@),
    {
        let mut i: usize = 0;
        while i < self.known.len()
            invariant
                i <= self.known.len(),
                forall|j: int| 0 <= j < i ==> self.known@[j]@ != name@,
            decreases self.known.len() - i,
        {
            if same_text(self.known[i], name) {
                assert(self.input().known[i as int] == name@);
                return true;
            }
            i += 1;
        }
        false
    }

    /// Finds the first token at or behind `from` that counts; see
    /// [`Input::skip`].
    fn skip_annotations(&self, from: usize) -> (to: usize)
        requires
            self.wf(),
            from <= self.input().toks.len(),
        ensures
            to == self.input().skip(from as int),
            to <= self.input().toks.len(),
    {
        let len = self.toks.len();
        let mut i: usize = from;
        loop
            invariant
                self.wf(),
                i <= len == self.toks@.len(),
                self.input().skip(from as int) == self.input().skip(i as int),
            ensures
                i <= len,
                self.input().skip(i as int) == i,
            decreases len - i,
        {
            match find_annotation(self.toks, i) {
                Some(name) => {
                    if self.is_known(name) {
                        break;
                    }
                    match find_group_end(self.toks, i + 1) {
                        Some(e) => {
                            proof {
                                lemma_group_end_bounds(self.toks@, i + 1, 1);
                            }
                            i = e;
                        },
                        None => {
                            break;
                        },
                    }
                },
                None => {
                    break;
                },
            }
        }
        i
    }

    /// The next token.
    pub fn token(&self) -> (t: Option<TokenKind<'a>>)
        requires
            self.wf(),
        ensures
            t == self.input().tok(self.at()),
    {
        if self.pos < self.toks.len() {
            Some(self.toks[self.pos].kind)
        } else {
            None
        }
    }

    /// The position of the next token, or of the end of the text.
    pub fn cur_span(&self) -> (s: Span)
        requires
            self.wf(),
        ensures
            s == self.input().here(self.at()),
    {
        if self.pos < self.toks.len() {
            self.toks[self.pos].span
        } else {
            self.end
        }
    }

    /// The position of the token consumed last, or of the start of the text.
    pub fn prev_span(&self) -> (s: Span)
        ensures
            s == self.at().prev,
    {
        self.prev
    }

    /// An error at the next token.
    pub fn error(&self, msg: &'static str) -> (e: Error)
        requires
            self.wf(),
        ensures
            e == (Error { span: self.input().here(self.at()), msg }),
    {
        Error { span: self.cur_span(), msg }
    }

    /// Whether expressions record the position of each instruction.
    pub fn track_instr_spans(&self) -> (t: bool)
        ensures
            t == self.input().track,
    {
        self.track
    }

    /// Consumes the next token.
    pub fn advance(&mut self)
        requires
            old(self).wf(),
            old(self).input().tok(old(self).at()) is Some,
        ensures
            final(self).same_source(old(self)),
            final(self).at() == old(self).input().step(old(self).at()),
    {
        if self.pos < self.toks.len() {
            let span = self.toks[self.pos].span;
            self.pos = self.skip_annotations(self.pos + 1);
            self.prev = span;
            assert(self.input() =~= old(self).input());
        }
    }

    /// The token behind the next one.
    pub fn second_token(&self) -> (t: Option<TokenKind<'a>>)
        requires
            self.wf(),
            self.input().tok(self.at()) is Some,
        ensures
            t == self.input().tok(self.input().step(self.at())),
    {
        if self.pos < self.toks.len() {
            let next = self.skip_annotations(self.pos + 1);
            if next < self.toks.len() {
                return Some(self.toks[next].kind);
            }
        }
        None
    }

    /// Tells whether nothing is left of the innermost group, or of the text.
    pub fn is_empty(&self) -> (b: bool)
        requires
            self.wf(),
        ensures
            b == self.input().at_end(self.at()),
    {
        match self.token() {
            None => true,
            Some(TokenKind::RParen) => true,
            _ => false,
        }
    }

    pub fn peek_lparen(&self) -> (b: bool)
        requires
            self.wf(),
        ensures
            b == self.input().at_lparen(self.at()),
    {
        match self.token() {
            Some(TokenKind::LParen) => true,
            _ => false,
        }
    }

    pub fn peek_rparen(&self) -> (b: bool)
        requires
            self.wf(),
        ensures
            b == self.input().at_rparen(self.at()),
    {
        match self.token() {
            Some(TokenKind::RParen) => true,
            _ => false,
        }
    }

    pub fn peek_keyword(&self, word: &str) -> (b: bool)
        requires
            self.wf(),
        ensures
            b == self.input().at_keyword(self.at(), word@),
    {
        match self.token() {
            Some(TokenKind::Keyword(k)) => same_text(k, word),
            _ => false,
        }
    }

    pub fn peek_annotation(&self, name: &str) -> (b: bool)
        requires
            self.wf(),
        ensures
            b == self.input().at_annotation(self.at(), name@),
    {
        match self.token() {
            Some(TokenKind::Annotation(n)) => same_text(n, name),
            _ => false,
        }
    }

    /// Looks for a keyword behind the next token.
    pub fn peek2_keyword(&self, word: &str) -> (b: bool)
        requires
            self.wf(),
        ensures
            b == self.input().keyword_follows(self.at(), word@),
    {
        if self.token().is_none() {
            return false;
        }
        match self.second_token() {
            Some(TokenKind::Keyword(k)) => same_text(k, word),
            _ => false,
        }
    }

    /// Looks for an annotation behind the next token.
    pub fn peek2_annotation(&self, name: &str) -> (b: bool)
        requires
            self.wf(),
        ensures
            b == self.input().annotation_follows(self.at(), name@),
    {
        if self.token().is_none() {
            return false;
        }
        match self.second_token() {
            Some(TokenKind::Annotation(n)) => same_text(n, name),
            _ => false,
        }
    }

    /// Consumes the keyword `word`, or fails with `msg`.
    pub fn keyword(&mut self, word: &str, msg: &'static str) -> (r: Result<Span, Error>)
        requires
            old(self).wf(),
        ensures
            final(self).same_source(old(self)),
            old(self).input().keyword(old(self).at(), word@, msg) == final(self).outcome(r),
    {
        if self.peek_keyword(word) {
            let span = self.cur_span();
            self.advance();
            Ok(span)
        } else {
            Err(self.error(msg))
        }
    }

    /// Consumes the annotation `name`, or fails with `msg`.
    pub fn annotation(&mut self, name: &str, msg: &'static str) -> (r: Result<Span, Error>)
        requires
            old(self).wf(),
        ensures
            final(self).same_source(old(self)),
            old(self).input().annotation(old(self).at(), name@, msg) == final(self).outcome(r),
    {
        if self.peek_annotation(name) {
            let span = self.cur_span();
            self.advance();
            Ok(span)
        } else {
            Err(self.error(msg))
        }
    }

    /// Consumes `(`.
    pub fn open(&mut self) -> (r: Result<Span, Error>)
        requires
            old(self).wf(),
        ensures
            final(self).same_source(old(self)),
            old(self).input().open(old(self).at()) == final(self).outcome(r),
    {
        if self.peek_lparen() {
            let span = self.cur_span();
            self.advance();
            Ok(span)
        } else {
            Err(self.error("expected `(`"))
        }
    }

    /// Consumes `)`.
    pub fn close(&mut self) -> (r: Result<Span, Error>)
        requires
            old(self).wf(),
        ensures
            final(self).same_source(old(self)),
            old(self).input().close(old(self).at()) == final(self).outcome(r),
    {
        if self.peek_rparen() {
            let span = self.cur_span();
            self.advance();
            Ok(span)
        } else {
            Err(self.error("expected `)`"))
        }
    }

    /// Registers an interest in the annotation `name`: from the next token
    /// consumed on, annotations of that name are no longer skipped.
    pub fn register_annotation(&mut self, name: &'static str)
        requires
            old(self).wf(),
        ensures
            final(self).wf(),
            final(self).input() == old(self).input().with_annotation(name@),
            final(self).at() == old(self).at(),
    {
        self.known.push(name);
        assert(self.input() =~= old(self).input().with_annotation(name@));
    }

    /// Ends the registration made last.
    pub fn unregister_annotation(&mut self)
        requires
            old(self).wf(),
            old(self).input().known.len() > 0,
        ensures
            final(self).wf(),
            final(self).input() == (Input {
                known: old(self).input().known.drop_last(),
                ..old(self).input()
            }),
            final(self).at() == old(self).at(),
    {
        let _ = self.known.pop();
        assert(self.input() =~= (Input {
            known: old(self).input().known.drop_last(),
            ..old(self).input()
        }));
    }

    /// What a result and this parser, as they are after a rule was parsed, say
    /// of that rule.
    pub open spec fn outcome<T>(&self, r: Result<T, Error>) -> Parsed<T> {
        match r {
            Ok(v) => Ok((v, self.at())),
            Err(e) => Err(e),
        }
    }
}

/// What can be parsed.
pub trait Parse<'a>: Sized {
    /// A value of the type, without what does not matter about it.
    type Ast;

    spec fn ast(&self) -> Self::Ast;

    /// The type's grammar rule: what stands at a place of an input.
    spec fn grammar(input: Input<'a>, at: Cursor) -> Parsed<Self::Ast>;

    /// A rule never moves backwards.
    proof fn lemma_advances(input: Input<'a>, at: Cursor)
        ensures
            Self::grammar(input, at) matches Ok((_, to)) ==> at.pos <= to.pos,
    ;

    /// Parses what stands at the parser's cursor and moves behind it. Where this
    /// fails, it is left open how far the cursor has moved.
    fn parse(parser: &mut Parser<'a>) -> (r: Result<Self, Error>)
        requires
            old(parser).wf(),
        ensures
            final(parser).same_source(old(parser)),
            match r {
                Ok(v) => Self::grammar(old(parser).input(), old(parser).at()) == Ok::<_, Error>(
                    (v.ast(), final(parser).at()),
                ),
                Err(e) => Self::grammar(old(parser).input(), old(parser).at()) == Err::<
                    (Self::Ast, Cursor),
                    Error,
                >(e),
            },
    ;
}

/// What can be recognised by looking at the next tokens.
pub trait Peek<'a>: Sized {
    spec fn starts(input: Input<'a>, at: Cursor) -> bool;

    fn peek(parser: &Parser<'a>) -> (b: bool)
        requires
            parser.wf(),
        ensures
            b == Self::starts(parser.input(), parser.at()),
    ;
}

/// Something that may be missing.
impl<'a, T: Parse<'a> + Peek<'a>> Parse<'a> for Option<T> {
    type Ast = Option<T::Ast>;

    open spec fn ast(&self) -> Option<T::Ast> {
        match self {
            Some(v) => Some(v.ast()),
            None => None,
        }
    }

    open spec fn grammar(input: Input<'a>, at: Cursor) -> Parsed<Option<T::Ast>> {
        if T::starts(input, at) {
            match T::grammar(input, at) {
                Ok((v, to)) => Ok((Some(v), to)),
                Err(e) => Err(e),
            }
        } else {
            Ok((None, at))
        }
    }

    proof fn lemma_advances(input: Input<'a>, at: Cursor) {
        T::lemma_advances(input, at);
    }

    fn parse(parser: &mut Parser<'a>) -> (r: Result<Self, Error>) {
        if T::peek(parser) {
            let v = T::parse(parser)?;
            Ok(Some(v))
        } else {
            Ok(None)
        }
    }
}

} // verus!
