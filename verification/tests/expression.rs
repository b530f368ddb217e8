use secwast::encode::Encode;
use secwast::expr::Expression;
use secwast::instruction::Instruction;
use secwast::labels::{AllInstructions, Label};
use secwast::parser::{Parse, Parser};
use secwast::token::{Error, Float, Id, Integer, SignToken, Span, Token, TokenKind};

/// Splits a text into tokens: enough of a lexer for these tests.
fn lex(src: &'static str) -> &'static [Token<'static>] {
    let bytes = src.as_bytes();
    let mut toks = Vec::new();
    let mut i = 0;
    while i < bytes.len() {
        let start = i;
        let kind = match bytes[i] {
            b' ' => {
                i += 1;
                continue;
            }
            b'(' => {
                i += 1;
                TokenKind::LParen
            }
            b')' => {
                i += 1;
                TokenKind::RParen
            }
            b'"' => {
                i += 1;
                let mut content = Vec::new();
                while bytes[i] != b'"' {
                    if bytes[i] == b'\\' {
                        content.push(u8::from_str_radix(&src[i + 1..i + 3], 16).unwrap());
                        i += 3;
                    } else {
                        content.push(bytes[i]);
                        i += 1;
                    }
                }
                i += 1;
                let content: &'static [u8] = Box::leak(content.into_boxed_slice());
                TokenKind::String { bytes: content, text: std::str::from_utf8(content).ok() }
            }
            _ => {
                while i < bytes.len() && !b" ()\"".contains(&bytes[i]) {
                    i += 1;
                }
                word(&src[start..i])
            }
        };
        toks.push(Token { span: Span { offset: start }, kind });
    }
    Box::leak(toks.into_boxed_slice())
}

fn word(w: &'static str) -> TokenKind<'static> {
    let (sign, rest) = match w.as_bytes()[0] {
        b'+' => (Some(SignToken::Plus), &w[1..]),
        b'-' => (Some(SignToken::Minus), &w[1..]),
        _ => (None, w),
    };
    if rest.starts_with(|c: char| c.is_ascii_digit()) {
        if rest.contains('.') {
            let value: f64 = w.parse().unwrap();
            return TokenKind::Float(Float {
                f32_bits: Some((value as f32).to_bits()),
                f64_bits: Some(value.to_bits()),
            });
        }
        let hex = rest.starts_with("0x");
        let digits = if hex { &rest[2..] } else { rest };
        let value = u64::from_str_radix(digits, if hex { 16 } else { 10 }).unwrap_or(u64::MAX) as f64;
        let value = if sign == Some(SignToken::Minus) { -value } else { value };
        return TokenKind::Integer(Integer {
            sign,
            digits,
            hex,
            f32_bits: Some((value as f32).to_bits()),
            f64_bits: Some(value.to_bits()),
        });
    }
    match w.as_bytes()[0] {
        b'$' => TokenKind::Id(&w[1..]),
        b'@' => TokenKind::Annotation(&w[1..]),
        b'a'..=b'z' => TokenKind::Keyword(w),
        _ => TokenKind::Reserved(w),
    }
}

/// A parser at the start of a text.
fn parser(src: &'static str) -> Parser<'static> {
    Parser::new(lex(src), Span { offset: src.len() }, false).unwrap()
}

/// Parses a whole text.
fn parse<T: Parse<'static>>(src: &'static str) -> Result<T, Error> {
    let mut p = parser(src);
    let r = T::parse(&mut p);
    if r.is_ok() {
        assert!(p.token().is_none(), "something is left of {src:?}");
    }
    r
}

/// The error that a text gives: where, and what.
fn error<T: Parse<'static>>(src: &'static str) -> (usize, &'static str) {
    match T::parse(&mut parser(src)) {
        Ok(_) => panic!("no error for {src:?}"),
        Err(e) => (e.span.offset, e.msg),
    }
}

/// The instructions of an expression, by name.
fn names(e: &Expression<'static>) -> Vec<String> {
    e.instrs
        .iter()
        .map(|i| match i {
            AllInstructions::Labeled(l) => format!("{:?}", l.instruction.opcode()),
            AllInstructions::Other(i) => format!("{:?}", i.opcode()),
        })
        .collect()
}

fn flat(src: &'static str) -> Vec<String> {
    names(&parse::<Expression>(src).unwrap())
}

/// Parses an expression with the positions of its instructions.
fn spanned(src: &'static str) -> Expression<'static> {
    let mut p = Parser::new(lex(src), Span { offset: src.len() }, true).unwrap();
    Expression::parse(&mut p).unwrap()
}

/// Parses an expression with branch hints.
fn hinted(src: &'static str) -> Result<Expression<'static>, Error> {
    let mut p = parser(src);
    p.register_annotation("metadata.code.branch_hint");
    Expression::parse(&mut p)
}

#[test]
fn empty_expression_has_no_instructions() {
    let e = parse::<Expression>("").unwrap();
    assert_eq!(e.instrs.len(), 0);
    assert_eq!(e.branch_hints.len(), 0);
    assert!(e.instr_spans.is_none());
}

#[test]
fn plain_instructions_stay_in_order() {
    assert_eq!(
        flat("i32.const 1 i32.const 2 i32.add drop"),
        ["I32Const", "I32Const", "I32Add", "Drop"]
    );
}

#[test]
fn operands_come_before_their_operator() {
    assert_eq!(
        flat("(i32.add (i32.const 1) (i32.mul (local.get 0) (local.get 1)))"),
        ["I32Const", "LocalGet", "LocalGet", "I32Mul", "I32Add"]
    );
    assert_eq!(flat("(drop i32.const 1 nop)"), ["I32Const", "Nop", "Drop"]);
}

#[test]
fn blocks_are_ended() {
    assert_eq!(flat("(block nop)"), ["Block", "Nop", "End"]);
    assert_eq!(flat("(loop (nop) (br 0))"), ["Loop", "Nop", "Br", "End"]);
    assert_eq!(
        flat("(try_table (catch_all 0) (nop))"),
        ["TryTable", "Nop", "End"]
    );
    assert_eq!(flat("block nop end"), ["Block", "Nop", "End"]);
    assert_eq!(flat("(try)"), ["Try"]);
}

#[test]
fn conditionals_are_flattened() {
    assert_eq!(
        flat("(if (i32.const 1) (then nop) (else drop))"),
        ["I32Const", "If", "Nop", "Else", "Drop", "End"]
    );
    assert_eq!(
        flat("(if (local.get 0) (local.get 1) (then))"),
        ["LocalGet", "LocalGet", "If", "End"]
    );
    assert_eq!(
        flat("(if (if (local.get 0) (then nop)) (then (if (then) (else (nop)))))"),
        ["LocalGet", "If", "Nop", "End", "If", "If", "Else", "Nop", "End", "End"]
    );
    assert_eq!(flat("if nop else nop end"), ["If", "Nop", "Else", "Nop", "End"]);
}

#[test]
fn implied_end_and_else_have_no_label() {
    let e = parse::<Expression>("(if $l (then) (else))").unwrap();
    assert!(matches!(e.instrs[1], AllInstructions::Other(Instruction::Else(None))));
    assert!(matches!(e.instrs[2], AllInstructions::Other(Instruction::End(None))));
    let e = parse::<Expression>("block $l end $l").unwrap();
    assert!(matches!(
        e.instrs[1],
        AllInstructions::Other(Instruction::End(Some(Id { name: "l", .. })))
    ));
}

#[test]
fn an_expression_ends_at_a_closing_parenthesis() {
    let mut p = parser("nop ) nop");
    let e = Expression::parse(&mut p).unwrap();
    assert_eq!(names(&e), ["Nop"]);
    assert!(matches!(p.token(), Some(TokenKind::RParen)));
    assert_eq!(p.cur_span().offset, 4);
}

#[test]
fn labeled_instructions_stand_among_the_others() {
    let e = parse::<Expression>("i32.const 0 @label \"secret\" i32.load offset=4 drop").unwrap();
    assert_eq!(names(&e), ["I32Const", "I32Load", "Drop"]);
    match &e.instrs[1] {
        AllInstructions::Labeled(l) => {
            assert!(l.label.label == Label::Id("secret"));
            assert_eq!(l.instruction.memarg().offset, 4);
        }
        _ => panic!("not labeled"),
    }
}

#[test]
fn a_labeled_instruction_can_be_folded() {
    // The annotation is still registered when the token in front of it is
    // consumed, since that is part of an instruction.
    assert_eq!(
        flat("nop (@label \"secret\" i32.store (i32.const 0) (i32.const 1))"),
        ["Nop", "I32Const", "I32Const", "I32Store"]
    );
    // Nobody has registered it at the start of a text, so the group is skipped.
    assert_eq!(flat("(@label \"secret\" i32.load (i32.const 0)) nop"), ["Nop"]);
}

#[test]
fn spans_are_recorded_on_request() {
    let e = spanned("(i32.add (i32.const 1) (block nop)) (if (then) (else))");
    assert_eq!(
        names(&e),
        ["I32Const", "Block", "Nop", "End", "I32Add", "If", "Else", "End"]
    );
    let spans: Vec<usize> = e.instr_spans.unwrap().iter().map(|s| s.offset).collect();
    assert_eq!(spans, [10, 24, 30, 33, 1, 37, 48, 53]);
}

#[test]
fn tracking_changes_nothing_else() {
    let src = "(if (local.get 0) (then (block (nop))) (else drop)) nop";
    let plain = parse::<Expression>(src).unwrap();
    let with_spans = spanned(src);
    assert_eq!(names(&plain), names(&with_spans));
    assert!(plain.instr_spans.is_none());
    assert_eq!(with_spans.instr_spans.unwrap().len(), with_spans.instrs.len());
}

#[test]
fn hints_store_the_place_of_the_next_instruction() {
    let e = hinted(
        "nop local.get 0 (@metadata.code.branch_hint \"\\01\") br_if 0 (@metadata.code.branch_hint \"\\00\") if end",
    )
    .unwrap();
    assert_eq!(names(&e), ["Nop", "LocalGet", "BrIf", "If", "End"]);
    let hints: Vec<(usize, u32)> =
        e.branch_hints.iter().map(|h| (h.instr_index, h.value)).collect();
    assert_eq!(hints, [(2, 1), (3, 0)]);
}

fn hints(e: &Expression<'static>) -> Vec<(usize, u32)> {
    e.branch_hints.iter().map(|h| (h.instr_index, h.value)).collect()
}

#[test]
fn a_hint_applies_to_a_folded_if_behind_its_clause() {
    let e = hinted("nop (@metadata.code.branch_hint \"\\01\") (if (local.get 0) (then nop))").unwrap();
    assert_eq!(names(&e), ["Nop", "LocalGet", "If", "Nop", "End"]);
    assert_eq!(hints(&e), [(2, 1)]);
    let e = hinted("nop (@metadata.code.branch_hint \"\\00\") (if (then) (else nop))").unwrap();
    assert_eq!(names(&e), ["Nop", "If", "Else", "Nop", "End"]);
    assert_eq!(hints(&e), [(1, 0)]);
}

#[test]
fn a_hint_applies_to_a_folded_br_if_behind_its_operands() {
    let e = hinted(
        "nop (@metadata.code.branch_hint \"\\01\") (br_if 0 (i32.add (local.get 0) (local.get 1)))",
    )
    .unwrap();
    assert_eq!(names(&e), ["Nop", "LocalGet", "LocalGet", "I32Add", "BrIf"]);
    assert_eq!(hints(&e), [(4, 1)]);
}

#[test]
fn hints_are_in_the_order_of_the_instructions() {
    let e = hinted(
        "nop (@metadata.code.branch_hint \"\\01\") (if (nop) (@metadata.code.branch_hint \"\\00\") (br_if 0 (local.get 0)) (then))",
    )
    .unwrap();
    assert_eq!(names(&e), ["Nop", "Nop", "LocalGet", "BrIf", "If", "End"]);
    assert_eq!(hints(&e), [(3, 0), (4, 1)]);
}

#[test]
fn a_hinted_branch_may_stand_in_the_group_of_the_hint() {
    let e = hinted("nop (@metadata.code.branch_hint \"\\01\" br_if 0)").unwrap();
    assert_eq!(names(&e), ["Nop", "BrIf"]);
    assert_eq!(hints(&e), [(1, 1)]);
}

#[test]
fn a_hint_must_be_followed_by_a_branch() {
    let msg = "a branch hint must be followed by `br_if` or `if`";
    let err = |src| {
        let e = hinted(src).unwrap_err();
        (e.span.offset, e.msg)
    };
    assert_eq!(err("nop (@metadata.code.branch_hint \"\\01\") nop"), (39, msg));
    assert_eq!(err("nop (@metadata.code.branch_hint \"\\01\") br 0"), (39, msg));
    assert_eq!(err("nop (@metadata.code.branch_hint \"\\01\") (nop)"), (40, msg));
    assert_eq!(err("nop (@metadata.code.branch_hint \"\\01\") (block (br_if 0))"), (40, msg));
    assert_eq!(err("nop (@metadata.code.branch_hint \"\\01\") (@metadata.code.branch_hint \"\\01\") if"), (40, msg));
    assert_eq!(err("nop (@metadata.code.branch_hint \"\\01\")"), (38, msg));
    assert_eq!(err("nop (@metadata.code.branch_hint \"\\01\") ) br_if 0"), (39, msg));
    assert_eq!(err("(block (@metadata.code.branch_hint \"\\01\")) br_if 0"), (41, msg));
    assert_eq!(err("(br_if 0 (@metadata.code.branch_hint \"\\01\"))"), (43, msg));
    assert_eq!(err("(if (then (@metadata.code.branch_hint \"\\01\")))"), (44, msg));
    assert_eq!(err("(if (nop) (@metadata.code.branch_hint \"\\01\") (then))"), (46, msg));
    assert_eq!(err("nop (@metadata.code.branch_hint \"\\01\" drop)"), (38, msg));
}

#[test]
fn folded_text_denotes_what_flat_text_denotes() {
    assert_eq!(
        flat("(i32.add (local.get 0) (i32.eqz (local.get 1)))"),
        flat("(local.get 0) (i32.eqz (local.get 1)) i32.add")
    );
    assert_eq!(flat("(loop (nop) br 0)"), flat("loop (nop) br 0 end"));
    assert_eq!(
        flat("(if (local.get 0) (nop) (then drop))"),
        flat("(local.get 0) (nop) if drop end")
    );
    assert_eq!(
        flat("(if (local.get 0) (then drop) (else nop))"),
        flat("(local.get 0) if drop else nop end")
    );
}

#[test]
fn one_text_behind_another() {
    let (a, b) = (
        "nop (@metadata.code.branch_hint \"\\01\") (if (local.get 0) (then))",
        "drop (@metadata.code.branch_hint \"\\00\") br_if 0",
    );
    let whole = hinted(Box::leak(format!("{a} {b}").into_boxed_str())).unwrap();
    let (first, second) = (hinted(a).unwrap(), hinted(b).unwrap());
    assert_eq!(names(&whole), [names(&first), names(&second)].concat());
    assert_eq!(hints(&first), [(2, 1)]);
    assert_eq!(hints(&second), [(1, 0)]);
    assert_eq!(hints(&whole), [(2, 1), (5, 0)]);
}

/// The binary form of the instructions of an expression.
fn code(src: &str) -> Vec<u8> {
    let e = parse::<Expression>(Box::leak(String::from(src).into_boxed_str())).unwrap();
    let mut out = Vec::new();
    for i in e.instrs.iter() {
        Encode::encode(i, &mut out);
    }
    out
}

#[test]
fn a_text_denotes_the_same_wherever_it_stands() {
    let text = "(i32.add (local.get 3) (i32.const 7)) br_table 1 2 br 4";
    let own = code(text);
    assert_eq!(own, [0x20, 3, 0x41, 7, 0x6a, 0x0e, 1, 1, 2, 0x0c, 4]);
    assert_eq!(code(&format!("nop {text} nop")), [vec![1], own.clone(), vec![1]].concat());
    assert_eq!(code(&format!("(drop {text})")), [own.clone(), vec![0x1a]].concat());
    assert_eq!(
        code(&format!("(loop (result i32) {text})")),
        [vec![0x03, 0x7f], own.clone(), vec![0x0b]].concat()
    );
    assert_eq!(
        code(&format!("(if (result i32) (then {text}) (else {text}))")),
        [vec![0x04, 0x7f], own.clone(), vec![0x05], own, vec![0x0b]].concat()
    );
}

#[test]
fn folded_texts_are_made_of_their_parts() {
    let (a, b) = ("(local.get 5)", "(i32.eqz (local.get 6))");
    let both = [code(a), code(b)].concat();
    assert_eq!(code(&format!("{a} {b}")), both);
    let sum = [both.clone(), code("i32.add")].concat();
    assert_eq!(code(&format!("(i32.add {a} {b})")), sum);
    assert_eq!(code(&format!("{a} {b} i32.add")), sum);
    let body = format!("block (result i32) {a} br 0");
    let block = [code(&body), code("end")].concat();
    assert_eq!(code(&format!("({body})")), block);
    assert_eq!(code(&format!("{body} end")), block);
    let (head, arm) = ("if (result i32)", "nop i32.const 1");
    let short = [code(b), code(head), code(arm), code("end")].concat();
    assert_eq!(code(&format!("({head} {b} (then {arm}))")), short);
    assert_eq!(code(&format!("{b} {head} {arm} end")), short);
    let long = [code(b), code(head), code(arm), code("else"), code(a), code("end")].concat();
    assert_eq!(code(&format!("({head} {b} (then {arm}) (else {a}))")), long);
    assert_eq!(code(&format!("{b} {head} {arm} else {a} end")), long);
}

#[test]
fn a_flat_header_takes_the_catch_clauses_behind_it() {
    assert_eq!(flat("try_table"), ["TryTable"]);
    assert_eq!(flat("(catch_all (nop))"), ["Nop", "CatchAll"]);
    assert_eq!(
        error::<Expression>("try_table (catch_all (nop))"),
        (21, "unexpected token, expected an identifier or a u32")
    );
    assert_eq!(
        flat("(try_table) (catch_all (nop))"),
        ["TryTable", "End", "Nop", "CatchAll"]
    );
}

#[test]
fn hints_are_skipped_where_nobody_asks_for_them() {
    let e = parse::<Expression>("nop (@metadata.code.branch_hint \"\\05\") nop").unwrap();
    assert_eq!(names(&e), ["Nop", "Nop"]);
    assert_eq!(e.branch_hints.len(), 0);
}

#[test]
fn bad_hints_are_refused() {
    let e = hinted("nop (@metadata.code.branch_hint \"\\02\") nop").unwrap_err();
    assert_eq!((e.span.offset, e.msg), (37, "invalid value for branch hint"));
    let e = hinted("nop (@metadata.code.branch_hint \"\\00\\00\") nop").unwrap_err();
    assert_eq!((e.span.offset, e.msg), (40, "invalid value for branch hint"));
    let e = hinted("nop (@metadata.code.branch_hint \"\") nop").unwrap_err();
    assert_eq!((e.span.offset, e.msg), (34, "invalid value for branch hint"));
    let e = hinted("nop (@metadata.code.branch_hint \"\\ff\") nop").unwrap_err();
    assert_eq!((e.span.offset, e.msg), (32, "malformed UTF-8 encoding"));
    let e = hinted("nop (@metadata.code.branch_hint 0) nop").unwrap_err();
    assert_eq!((e.span.offset, e.msg), (32, "expected a string"));
}

#[test]
fn errors_in_expressions() {
    assert_eq!(error::<Expression>("nop 5"), (4, "expected an instruction"));
    assert_eq!(
        error::<Expression>("nop frobnicate"),
        (4, "unknown operator or unexpected token")
    );
    assert_eq!(error::<Expression>("(block nop"), (10, "expected an instruction"));
    assert_eq!(error::<Expression>("()"), (1, "expected an instruction"));
    assert_eq!(error::<Expression>("((nop))"), (1, "expected an instruction"));
    assert_eq!(
        error::<Expression>("(i32.add (br))"),
        (12, "unexpected token, expected an identifier or a u32")
    );
}

#[test]
fn errors_in_conditionals() {
    assert_eq!(
        error::<Expression>("(if (local.get 0)) nop"),
        (19, "previous `if` had no `then`")
    );
    assert_eq!(error::<Expression>("(if nop (then))"), (4, "expected `(`"));
    assert_eq!(error::<Expression>("(if (then) nop)"), (11, "expected `(`"));
    assert_eq!(error::<Expression>("(if (then) (else) nop)"), (18, "expected `(`"));
    assert_eq!(error::<Expression>("(if (then) (nop))"), (12, "expected keyword `else`"));
    assert_eq!(error::<Expression>("(if (then) (then))"), (12, "expected keyword `else`"));
    assert_eq!(
        error::<Expression>("(if (then) (else) (nop))"),
        (19, "unexpected token: too many payloads inside of `(if)`")
    );
    assert_eq!(error::<Expression>("(if"), (3, "expected an instruction"));
    assert_eq!(error::<Expression>("(if (then)"), (10, "expected an instruction"));
    assert_eq!(error::<Expression>("(if (then) (else)"), (17, "expected an instruction"));
    assert_eq!(
        error::<Expression>("(then)"),
        (1, "unknown operator or unexpected token")
    );
}

fn folded(src: &'static str) -> Result<Expression<'static>, (usize, &'static str)> {
    match Expression::parse_folded_instruction(&mut parser(src)) {
        Ok(e) => Ok(e),
        Err(e) => Err((e.span.offset, e.msg)),
    }
}

#[test]
fn a_single_folded_instruction() {
    let e = folded("(i32.add (i32.const 1) (global.get 0))").unwrap();
    assert_eq!(names(&e), ["I32Const", "GlobalGet", "I32Add"]);
    assert!(e.instr_spans.is_none());
    // Blocks get no `end` here.
    assert_eq!(names(&folded("(block (nop))").unwrap()), ["Nop", "Block"]);
}

#[test]
fn a_folded_instruction_ends_with_its_group() {
    let mut p = parser("(nop) (drop)");
    let e = Expression::parse_folded_instruction(&mut p).unwrap();
    assert_eq!(names(&e), ["Nop"]);
    assert_eq!(p.cur_span().offset, 6);
    let mut p = Parser::new(lex("(drop (nop))"), Span { offset: 12 }, true).unwrap();
    let e = Expression::parse_folded_instruction(&mut p).unwrap();
    let spans: Vec<usize> = e.instr_spans.unwrap().iter().map(|s| s.offset).collect();
    assert_eq!(spans, [7, 1]);
}

#[test]
fn folded_instructions_agree_with_groups() {
    let src = "(i32.add (i32.const 1) (i32.eqz (i32.const 2)))";
    assert_eq!(names(&folded(src).unwrap()), flat(src));
}

#[test]
fn errors_in_folded_instructions() {
    let msg = "expected to continue a folded instruction";
    assert_eq!(folded("nop").unwrap_err(), (0, msg));
    assert_eq!(folded(")").unwrap_err(), (0, msg));
    assert_eq!(folded("").unwrap_err(), (0, msg));
    assert_eq!(folded("(drop nop)").unwrap_err(), (6, msg));
    assert_eq!(folded("(drop").unwrap_err(), (5, msg));
    assert_eq!(folded("(what)").unwrap_err(), (1, "unknown operator or unexpected token"));
    assert_eq!(folded("()").unwrap_err(), (1, "expected an instruction"));
}

#[test]
fn expressions_of_one_instruction() {
    let e = Expression::one_other(Instruction::I32Const(7));
    assert_eq!(e.instrs.len(), 1);
    assert!(matches!(e.instrs[0], AllInstructions::Other(Instruction::I32Const(7))));
    assert_eq!(e.branch_hints.len(), 0);
    assert!(e.instr_spans.is_none());
    let labeled = parse::<AllInstructions>("@label \"low\" f64.load").unwrap();
    let e = Expression::one(labeled);
    assert_eq!(names(&e), ["F64Load"]);
}

#[test]
fn deep_nesting_needs_no_deep_call_stack() {
    let depth = 200_000;
    let mut toks = Vec::new();
    for i in 0..depth {
        toks.push(Token { span: Span { offset: 2 * i }, kind: TokenKind::LParen });
        toks.push(Token { span: Span { offset: 2 * i + 1 }, kind: TokenKind::Keyword("drop") });
    }
    for i in 0..depth {
        toks.push(Token { span: Span { offset: 2 * depth + i }, kind: TokenKind::RParen });
    }
    let mut p = Parser::new(&toks, Span { offset: 3 * depth }, false).unwrap();
    let e = Expression::parse(&mut p).unwrap();
    assert_eq!(e.instrs.len(), depth);
}

#[test]
fn unclosed_annotations_are_refused() {
    let toks = lex("nop (@name \"x\" (nop)");
    let e = Parser::new(toks, Span { offset: 20 }, false).err().unwrap();
    assert_eq!((e.span.offset, e.msg), (4, "unclosed annotation"));
}
