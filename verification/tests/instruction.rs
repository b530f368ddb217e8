use secwast::control::BlockType;
use secwast::encode::Encode;
use secwast::instruction::Instruction;
use secwast::labels::AllInstructions;
use secwast::opcode::{MemoryOpcode, Opcode};
use secwast::parser::{Parse, Parser};
use secwast::token::{Error, Float, Id, Integer, SignToken, Span, Token, TokenKind};
use secwast::types::{FunctionType, TypeUse};

/// Splits a text into tokens: enough of a lexer for these tests.
fn lex(src: &'static str) -> &'static [Token<'static>] {
    let bytes = src.as_bytes();
    let mut toks = Vec::new();
    let mut i = 0;
    while i < bytes.len() {
        let start = i;
        let kind = match bytes[i] {
            b' ' => {
                i += 1;
                continue;
            }
            b'(' => {
                i += 1;
                TokenKind::LParen
            }
            b')' => {
                i += 1;
                TokenKind::RParen
            }
            b'"' => {
                i += 1;
                let mut content = Vec::new();
                while bytes[i] != b'"' {
                    if bytes[i] == b'\\' {
                        content.push(u8::from_str_radix(&src[i + 1..i + 3], 16).unwrap());
                        i += 3;
                    } else {
                        content.push(bytes[i]);
                        i += 1;
                    }
                }
                i += 1;
                let content: &'static [u8] = Box::leak(content.into_boxed_slice());
                TokenKind::String { bytes: content, text: std::str::from_utf8(content).ok() }
            }
            _ => {
                while i < bytes.len() && !b" ()\"".contains(&bytes[i]) {
                    i += 1;
                }
                word(&src[start..i])
            }
        };
        toks.push(Token { span: Span { offset: start }, kind });
    }
    Box::leak(toks.into_boxed_slice())
}

fn word(w: &'static str) -> TokenKind<'static> {
    let (sign, rest) = match w.as_bytes()[0] {
        b'+' => (Some(SignToken::Plus), &w[1..]),
        b'-' => (Some(SignToken::Minus), &w[1..]),
        _ => (None, w),
    };
    if rest.starts_with(|c: char| c.is_ascii_digit()) {
        if rest.contains('.') {
            let value: f64 = w.parse().unwrap();
            return TokenKind::Float(Float {
                f32_bits: Some((value as f32).to_bits()),
                f64_bits: Some(value.to_bits()),
            });
        }
        let hex = rest.starts_with("0x");
        let digits = if hex { &rest[2..] } else { rest };
        let value = u64::from_str_radix(digits, if hex { 16 } else { 10 }).unwrap_or(u64::MAX) as f64;
        let value = if sign == Some(SignToken::Minus) { -value } else { value };
        return TokenKind::Integer(Integer {
            sign,
            digits,
            hex,
            f32_bits: Some((value as f32).to_bits()),
            f64_bits: Some(value.to_bits()),
        });
    }
    match w.as_bytes()[0] {
        b'$' => TokenKind::Id(&w[1..]),
        b'@' => TokenKind::Annotation(&w[1..]),
        b'a'..=b'z' => TokenKind::Keyword(w),
        _ => TokenKind::Reserved(w),
    }
}

/// A parser at the start of a text.
fn parser(src: &'static str) -> Parser<'static> {
    Parser::new(lex(src), Span { offset: src.len() }, false).unwrap()
}

/// Parses a whole text.
fn parse<T: Parse<'static>>(src: &'static str) -> Result<T, Error> {
    let mut p = parser(src);
    let r = T::parse(&mut p);
    if r.is_ok() {
        assert!(p.token().is_none(), "something is left of {src:?}");
    }
    r
}

/// The error that a text gives: where, and what.
fn error<T: Parse<'static>>(src: &'static str) -> (usize, &'static str) {
    match T::parse(&mut parser(src)) {
        Ok(_) => panic!("no error for {src:?}"),
        Err(e) => (e.span.offset, e.msg),
    }
}

fn encoded<T: Encode>(x: &T) -> Vec<u8> {
    let mut out = vec![0xaa];
    x.encode(&mut out);
    assert_eq!(out[0], 0xaa);
    out[1..].to_vec()
}

fn code(src: &'static str) -> Vec<u8> {
    encoded(&parse::<AllInstructions>(src).unwrap())
}

// The size of an instruction matters for large texts, so it must not grow.
#[test]
fn assert_instruction_not_too_large() {
    let size = std::mem::size_of::<Instruction<'_>>();
    let pointer = std::mem::size_of::<u64>();
    assert!(size <= pointer * 11);
}

#[test]
fn instructions_are_found_by_their_keyword() {
    assert_eq!(Opcode::find("i32.trunc_sat_f32_s"), Some(Opcode::I32TruncSatF32S));
    assert_eq!(Opcode::find("br_if"), Some(Opcode::BrIf));
    assert_eq!(Opcode::find("i32.load"), None);
    assert_eq!(Opcode::find(""), None);
    assert_eq!(MemoryOpcode::find("i64.load32_u"), Some(MemoryOpcode::I64Load32u));
    assert_eq!(MemoryOpcode::find("i32.add"), None);
}

#[test]
fn codes_of_instructions() {
    assert_eq!(code("unreachable"), [0x00]);
    assert_eq!(code("i32.add"), [0x6a]);
    assert_eq!(code("f64.copysign"), [0xa6]);
    assert_eq!(code("i64.trunc_sat_f64_u"), [0xfc, 0x07]);
    assert_eq!(code("catch_all"), [0x19]);
    assert_eq!(code("br 3"), [0x0c, 0x03]);
    assert_eq!(code("br_table 1 2 300"), [0x0e, 0x02, 0x01, 0x02, 0xac, 0x02]);
    assert_eq!(code("end $l"), [0x0b]);
    assert_eq!(code("select"), [0x1b]);
    assert_eq!(code("select (result i32) (result f64)"), [0x1c, 0x02, 0x7f, 0x7c]);
    assert_eq!(code("table.init 1 2"), [0xfc, 0x0c, 0x02, 0x01]);
    assert_eq!(code("table.copy 1 2"), [0xfc, 0x0e, 0x01, 0x02]);
    assert_eq!(code("memory.init 4"), [0xfc, 0x08, 0x04, 0x00]);
    assert_eq!(code("memory.copy 1 2"), [0xfc, 0x0a, 0x01, 0x02]);
    assert_eq!(code("memory.size"), [0x3f, 0x00]);
    assert_eq!(code("ref.null func"), [0xd0, 0x70]);
    assert_eq!(code("ref.null 64"), [0xd0, 0xc0, 0x00]);
    assert_eq!(code("call_indirect 2 (type 5)"), [0x11, 0x05, 0x02]);
}

#[test]
fn codes_of_constants() {
    assert_eq!(code("i32.const 0"), [0x41, 0x00]);
    assert_eq!(code("i32.const 63"), [0x41, 0x3f]);
    assert_eq!(code("i32.const 64"), [0x41, 0xc0, 0x00]);
    assert_eq!(code("i32.const -64"), [0x41, 0x40]);
    assert_eq!(code("i32.const -65"), [0x41, 0xbf, 0x7f]);
    assert_eq!(code("i32.const 0x80000000"), [0x41, 0x80, 0x80, 0x80, 0x80, 0x78]);
    assert_eq!(
        code("i64.const -9223372036854775808"),
        [0x42, 0x80, 0x80, 0x80, 0x80, 0x80, 0x80, 0x80, 0x80, 0x80, 0x7f]
    );
    assert_eq!(code("f32.const 1.5"), [0x43, 0x00, 0x00, 0xc0, 0x3f]);
    assert_eq!(code("f64.const -2"), [0x44, 0, 0, 0, 0, 0, 0, 0, 0xc0]);
}

#[test]
fn codes_of_blocks() {
    let no_types = FunctionType { params: Vec::new(), results: Vec::new() };
    let ty = TypeUse { index: None, inline: Some(no_types) };
    let block = BlockType { label: None, label_name: None, ty };
    assert_eq!(encoded(&Instruction::Block(Box::new(block))), [0x02, 0x40]);
    assert_eq!(code("loop (result i64)"), [0x03, 0x7e]);
    assert_eq!(code("if (type 3)"), [0x04, 0x03]);
    assert_eq!(code("block (type 64)"), [0x02, 0xc0, 0x00]);
    assert_eq!(code("try (result funcref)"), [0x06, 0x70]);
    assert_eq!(code("block (result (ref null 7))"), [0x02, 0x63, 0x07]);
    assert_eq!(code("block (result (ref any))"), [0x02, 0x64, 0x6e]);
    assert_eq!(
        code("try_table (result i32) (catch 1 2) (catch_ref 3 4) (catch_all 5) (catch_all_ref 6)"),
        [0x1f, 0x7f, 0x04, 0x00, 1, 2, 0x01, 3, 4, 0x02, 5, 0x03, 6]
    );
}

#[test]
fn codes_of_memory_accesses() {
    assert_eq!(code("@label \"a\" i32.load"), [0x28, 0x02, 0x00]);
    assert_eq!(code("@label \"a\" i64.store32 offset=128 align=1"), [0x3e, 0x00, 0x80, 0x01]);
    assert_eq!(code("@label \"a\" f64.load 3 offset=8"), [0x2b, 0x43, 0x03, 0x08]);
    assert_eq!(
        code("@label \"a\" i32.load8_u offset=0xffffffffffffffff"),
        [0x2d, 0x00, 0xff, 0xff, 0xff, 0xff, 0xff, 0xff, 0xff, 0xff, 0xff, 0x01]
    );
}

#[test]
fn labels_are_erased() {
    assert_eq!(code("@label \"high\" i32.load"), code("@label \"low\" i32.load"));
    assert_eq!(code("select (result @label \"high\" i32)"), code("select (result i32)"));
}

#[test]
fn errors_of_instructions() {
    assert_eq!(error::<Instruction>("(nop)"), (0, "expected an instruction"));
    assert_eq!(error::<Instruction>("$nop"), (0, "expected an instruction"));
    assert_eq!(error::<Instruction>(""), (0, "expected an instruction"));
    assert_eq!(error::<Instruction>("nope"), (0, "unknown operator or unexpected token"));
    assert_eq!(
        error::<Instruction>("i32.const 4294967296"),
        (10, "invalid i32 number: constant out of range")
    );
    assert_eq!(error::<Instruction>("f32.const x"), (10, "expected a float"));
}

#[test]
fn which_instructions_need_the_data_count() {
    let needs = |src| parse::<Instruction>(src).unwrap().needs_data_count();
    assert!(needs("memory.init 0"));
    assert!(needs("data.drop 0"));
    assert!(!needs("memory.copy"));
    assert!(!needs("elem.drop 0"));
    let needs = |src| parse::<AllInstructions>(src).unwrap().needs_data_count();
    assert!(needs("@label \"a\" i32.load"));
    assert!(needs("data.drop 0"));
    assert!(!needs("nop"));
}

#[test]
fn plain_instructions_have_no_memory_argument() {
    let mut i = parse::<Instruction>("memory.init 0").unwrap();
    assert!(i.memarg_mut().is_none());
    let mut i = parse::<AllInstructions>("memory.size").unwrap();
    assert!(i.memarg_mut().is_none());
}
