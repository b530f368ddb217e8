use secwast::labels::{AllInstructions, Label, LabelAnnotation, LabeledInstruction, MemoryInstruction};
use secwast::opcode::MemoryOpcode;
use secwast::parser::{Parse, Parser};
use secwast::token::{Error, Float, Id, Index, Integer, SignToken, Span, Token, TokenKind};

/// Splits a text into tokens: enough of a lexer for these tests.
fn lex(src: &'static str) -> &'static [Token<'static>] {
    let bytes = src.as_bytes();
    let mut toks = Vec::new();
    let mut i = 0;
    while i < bytes.len() {
        let start = i;
        let kind = match bytes[i] {
            b' ' => {
                i += 1;
                continue;
            }
            b'(' => {
                i += 1;
                TokenKind::LParen
            }
            b')' => {
                i += 1;
                TokenKind::RParen
            }
            b'"' => {
                i += 1;
                let mut content = Vec::new();
                while bytes[i] != b'"' {
                    if bytes[i] == b'\\' {
                        content.push(u8::from_str_radix(&src[i + 1..i + 3], 16).unwrap());
                        i += 3;
                    } else {
                        content.push(bytes[i]);
                        i += 1;
                    }
                }
                i += 1;
                let content: &'static [u8] = Box::leak(content.into_boxed_slice());
                TokenKind::String { bytes: content, text: std::str::from_utf8(content).ok() }
            }
            _ => {
                while i < bytes.len() && !b" ()\"".contains(&bytes[i]) {
                    i += 1;
                }
                word(&src[start..i])
            }
        };
        toks.push(Token { span: Span { offset: start }, kind });
    }
    Box::leak(toks.into_boxed_slice())
}

fn word(w: &'static str) -> TokenKind<'static> {
    let (sign, rest) = match w.as_bytes()[0] {
        b'+' => (Some(SignToken::Plus), &w[1..]),
        b'-' => (Some(SignToken::Minus), &w[1..]),
        _ => (None, w),
    };
    if rest.starts_with(|c: char| c.is_ascii_digit()) {
        if rest.contains('.') {
            let value: f64 = w.parse().unwrap();
            return TokenKind::Float(Float {
                f32_bits: Some((value as f32).to_bits()),
                f64_bits: Some(value.to_bits()),
            });
        }
        let hex = rest.starts_with("0x");
        let digits = if hex { &rest[2..] } else { rest };
        let value = u64::from_str_radix(digits, if hex { 16 } else { 10 }).unwrap_or(u64::MAX) as f64;
        let value = if sign == Some(SignToken::Minus) { -value } else { value };
        return TokenKind::Integer(Integer {
            sign,
            digits,
            hex,
            f32_bits: Some((value as f32).to_bits()),
            f64_bits: Some(value.to_bits()),
        });
    }
    match w.as_bytes()[0] {
        b'$' => TokenKind::Id(&w[1..]),
        b'@' => TokenKind::Annotation(&w[1..]),
        b'a'..=b'z' => TokenKind::Keyword(w),
        _ => TokenKind::Reserved(w),
    }
}

/// A parser at the start of a text.
fn parser(src: &'static str) -> Parser<'static> {
    Parser::new(lex(src), Span { offset: src.len() }, false).unwrap()
}

/// Parses a whole text.
fn parse<T: Parse<'static>>(src: &'static str) -> Result<T, Error> {
    let mut p = parser(src);
    let r = T::parse(&mut p);
    if r.is_ok() {
        assert!(p.token().is_none(), "something is left of {src:?}");
    }
    r
}

/// The error that a text gives: where, and what.
fn error<T: Parse<'static>>(src: &'static str) -> (usize, &'static str) {
    match T::parse(&mut parser(src)) {
        Ok(_) => panic!("no error for {src:?}"),
        Err(e) => (e.span.offset, e.msg),
    }
}

#[test]
fn labels_are_compared_by_their_text() {
    let a = parse::<Label>("\"secret\"").unwrap();
    assert!(a == Label::Id("secret"));
    assert!(a == a.clone());
    assert!(a != Label::Id("Secret"));
    assert!(Label::Id("") != Label::Id("a"));
    assert!(Label::Id("\u{e9}") == Label::Id("é"));
}

#[test]
fn label_annotations() {
    let l = parse::<LabelAnnotation>("@label \"low\"").unwrap();
    assert!(l.label == Label::Id("low"));
    assert_eq!(error::<LabelAnnotation>("\"low\""), (0, "expected annotation `@label`"));
    assert_eq!(error::<LabelAnnotation>("@name \"low\""), (0, "expected annotation `@label`"));
    assert_eq!(error::<LabelAnnotation>("@label low"), (7, "expected a string"));
    assert_eq!(error::<LabelAnnotation>("@label \"\\ff\""), (7, "malformed UTF-8 encoding"));
}

#[test]
fn labeled_instructions() {
    let l = parse::<LabeledInstruction>("@label \"low\" i64.load16_s offset=2 align=1").unwrap();
    assert!(l.label.label == Label::Id("low"));
    assert_eq!(l.instruction.opcode(), MemoryOpcode::I64Load16s);
    assert_eq!(l.instruction.memarg().offset, 2);
    assert_eq!(l.instruction.memarg().align, 1);
    assert_eq!(
        error::<LabeledInstruction>("i64.load"),
        (0, "expected annotation `@label`")
    );
}

#[test]
fn memory_accesses_must_be_labeled() {
    assert_eq!(
        error::<AllInstructions>("i32.load"),
        (0, "unknown operator or unexpected token")
    );
    assert!(parse::<AllInstructions>("@label \"a\" i32.load").is_ok());
}

#[test]
fn nothing_else_can_be_labeled() {
    assert_eq!(
        error::<AllInstructions>("@label \"a\" i32.add"),
        (11, "unknown operator or unexpected token")
    );
    assert_eq!(
        error::<AllInstructions>("@label \"a\" 5"),
        (11, "expected an instruction")
    );
    assert_eq!(
        error::<AllInstructions>("@label \"a\" i32.load align=3"),
        (27, "alignment must be a power of two")
    );
}

#[test]
fn alignments_default_to_the_size_of_the_access() {
    let align = |src| parse::<MemoryInstruction>(src).unwrap().memarg().align;
    assert_eq!(align("i32.load"), 4);
    assert_eq!(align("i64.load"), 8);
    assert_eq!(align("f32.load"), 4);
    assert_eq!(align("f64.load"), 8);
    assert_eq!(align("i32.load8_s"), 1);
    assert_eq!(align("i32.load8_u"), 1);
    assert_eq!(align("i32.load16_s"), 2);
    assert_eq!(align("i32.load16_u"), 2);
    assert_eq!(align("i64.load8_s"), 1);
    assert_eq!(align("i64.load8_u"), 1);
    assert_eq!(align("i64.load16_s"), 2);
    assert_eq!(align("i64.load16_u"), 2);
    assert_eq!(align("i64.load32_s"), 4);
    assert_eq!(align("i64.load32_u"), 4);
    assert_eq!(align("i32.store"), 4);
    assert_eq!(align("i64.store"), 8);
    assert_eq!(align("f32.store"), 4);
    assert_eq!(align("f64.store"), 8);
    assert_eq!(align("i32.store8"), 1);
    assert_eq!(align("i32.store16"), 2);
    assert_eq!(align("i64.store8"), 1);
    assert_eq!(align("i64.store16"), 2);
    assert_eq!(align("i64.store32"), 4);
}

#[test]
fn memory_arguments_can_be_changed() {
    let mut i = parse::<AllInstructions>("@label \"a\" f32.store $m offset=4").unwrap();
    i.memarg_mut().unwrap().memory = Index::Num(2, Span { offset: 0 });
    match &i {
        AllInstructions::Labeled(l) => {
            assert_eq!(l.instruction.opcode(), MemoryOpcode::F32Store);
            assert!(matches!(l.instruction.memarg().memory, Index::Num(2, _)));
            assert_eq!(l.instruction.memarg().offset, 4);
            assert!(l.label.label == Label::Id("a"));
        }
        _ => panic!("not labeled"),
    }
}

#[test]
fn registrations_end_with_the_instruction() {
    let mut p = parser("nop nop (@label \"a\") nop");
    assert!(AllInstructions::parse(&mut p).is_ok());
    p.advance();
    // Nobody has registered the annotation any more, so it is skipped.
    assert!(matches!(p.token(), Some(TokenKind::Keyword("nop"))));
}
