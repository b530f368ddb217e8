use secwast::parser::{Parse, Parser};
use secwast::simd::{I8x16Shuffle, LaneArg, V128Const};
use secwast::token::{Error, Float, Id, Integer, SignToken, Span, Token, TokenKind};

/// Splits a text into tokens: enough of a lexer for these tests.
fn lex(src: &'static str) -> &'static [Token<'static>] {
    let bytes = src.as_bytes();
    let mut toks = Vec::new();
    let mut i = 0;
    while i < bytes.len() {
        let start = i;
        let kind = match bytes[i] {
            b' ' => {
                i += 1;
                continue;
            }
            b'(' => {
                i += 1;
                TokenKind::LParen
            }
            b')' => {
                i += 1;
                TokenKind::RParen
            }
            b'"' => {
                i += 1;
                let mut content = Vec::new();
                while bytes[i] != b'"' {
                    if bytes[i] == b'\\' {
                        content.push(u8::from_str_radix(&src[i + 1..i + 3], 16).unwrap());
                        i += 3;
                    } else {
                        content.push(bytes[i]);
                        i += 1;
                    }
                }
                i += 1;
                let content: &'static [u8] = Box::leak(content.into_boxed_slice());
                TokenKind::String { bytes: content, text: std::str::from_utf8(content).ok() }
            }
            _ => {
                while i < bytes.len() && !b" ()\"".contains(&bytes[i]) {
                    i += 1;
                }
                word(&src[start..i])
            }
        };
        toks.push(Token { span: Span { offset: start }, kind });
    }
    Box::leak(toks.into_boxed_slice())
}

fn word(w: &'static str) -> TokenKind<'static> {
    let (sign, rest) = match w.as_bytes()[0] {
        b'+' => (Some(SignToken::Plus), &w[1..]),
        b'-' => (Some(SignToken::Minus), &w[1..]),
        _ => (None, w),
    };
    if rest.starts_with(|c: char| c.is_ascii_digit()) {
        if rest.contains('.') {
            let value: f64 = w.parse().unwrap();
            return TokenKind::Float(Float {
                f32_bits: Some((value as f32).to_bits()),
                f64_bits: Some(value.to_bits()),
            });
        }
        let hex = rest.starts_with("0x");
        let digits = if hex { &rest[2..] } else { rest };
        let value = u64::from_str_radix(digits, if hex { 16 } else { 10 }).unwrap_or(u64::MAX) as f64;
        let value = if sign == Some(SignToken::Minus) { -value } else { value };
        return TokenKind::Integer(Integer {
            sign,
            digits,
            hex,
            f32_bits: Some((value as f32).to_bits()),
            f64_bits: Some(value.to_bits()),
        });
    }
    match w.as_bytes()[0] {
        b'$' => TokenKind::Id(&w[1..]),
        b'@' => TokenKind::Annotation(&w[1..]),
        b'a'..=b'z' => TokenKind::Keyword(w),
        _ => TokenKind::Reserved(w),
    }
}

/// A parser at the start of a text.
fn parser(src: &'static str) -> Parser<'static> {
    Parser::new(lex(src), Span { offset: src.len() }, false).unwrap()
}

/// Parses a whole text.
fn parse<T: Parse<'static>>(src: &'static str) -> Result<T, Error> {
    let mut p = parser(src);
    let r = T::parse(&mut p);
    if r.is_ok() {
        assert!(p.token().is_none(), "something is left of {src:?}");
    }
    r
}

/// The error that a text gives: where, and what.
fn error<T: Parse<'static>>(src: &'static str) -> (usize, &'static str) {
    match T::parse(&mut parser(src)) {
        Ok(_) => panic!("no error for {src:?}"),
        Err(e) => (e.span.offset, e.msg),
    }
}

#[test]
fn lanes_of_vector_constants() {
    let v = parse::<V128Const>("i8x16 0 1 2 3 4 5 6 7 8 9 10 11 12 13 -1 0x80").unwrap();
    assert_eq!(
        v.to_le_bytes(),
        [0, 1, 2, 3, 4, 5, 6, 7, 8, 9, 10, 11, 12, 13, 0xff, 0x80]
    );
    let v = parse::<V128Const>("i16x8 1 -2 0x1234 0 0 0 0 0x8000").unwrap();
    assert_eq!(
        v.to_le_bytes(),
        [1, 0, 0xfe, 0xff, 0x34, 0x12, 0, 0, 0, 0, 0, 0, 0, 0, 0, 0x80]
    );
    let v = parse::<V128Const>("i32x4 1 -1 0x12345678 0").unwrap();
    assert_eq!(
        v.to_le_bytes(),
        [1, 0, 0, 0, 0xff, 0xff, 0xff, 0xff, 0x78, 0x56, 0x34, 0x12, 0, 0, 0, 0]
    );
    let v = parse::<V128Const>("i64x2 -2 0x0102030405060708").unwrap();
    assert_eq!(
        v.to_le_bytes(),
        [0xfe, 0xff, 0xff, 0xff, 0xff, 0xff, 0xff, 0xff, 8, 7, 6, 5, 4, 3, 2, 1]
    );
    let v = parse::<V128Const>("f32x4 1.5 0 -2 0.0").unwrap();
    assert_eq!(
        v.to_le_bytes(),
        [0, 0, 0xc0, 0x3f, 0, 0, 0, 0, 0, 0, 0, 0xc0, 0, 0, 0, 0]
    );
    let v = parse::<V128Const>("f64x2 1.5 -2").unwrap();
    assert_eq!(
        v.to_le_bytes(),
        [0, 0, 0, 0, 0, 0, 0xf8, 0x3f, 0, 0, 0, 0, 0, 0, 0, 0xc0]
    );
}

#[test]
fn lanes_can_be_read_back() {
    let lanes = [i32::MIN, -1, 0, i32::MAX];
    let bytes = V128Const::I32x4(lanes).to_le_bytes();
    for (i, lane) in lanes.iter().enumerate() {
        let b = [bytes[4 * i], bytes[4 * i + 1], bytes[4 * i + 2], bytes[4 * i + 3]];
        assert_eq!(i32::from_le_bytes(b), *lane);
    }
}

#[test]
fn errors_of_vector_constants() {
    assert_eq!(error::<V128Const>("i64x2 1"), (7, "expected a i64"));
    assert_eq!(
        error::<V128Const>("i8x16 256"),
        (6, "invalid i8 number: constant out of range")
    );
    assert_eq!(
        error::<V128Const>("i8x8"),
        (0, "unexpected token, expected one of: `i8x16`, `i16x8`, `i32x4`, `i64x2`, `f32x4`, `f64x2`")
    );
}

#[test]
fn lane_indices() {
    assert_eq!(parse::<LaneArg>("0x1f").unwrap().lane, 31);
    assert_eq!(parse::<LaneArg>("255").unwrap().lane, 255);
    assert_eq!(error::<LaneArg>("256"), (0, "malformed lane index"));
    assert_eq!(error::<LaneArg>("+1"), (0, "unexpected token"));
    assert_eq!(error::<LaneArg>("nop"), (0, "expected a lane index"));
}

#[test]
fn shuffles() {
    let s = parse::<I8x16Shuffle>("0 1 2 3 4 5 6 7 8 9 10 11 12 13 14 31").unwrap();
    assert_eq!(s.lanes, [0, 1, 2, 3, 4, 5, 6, 7, 8, 9, 10, 11, 12, 13, 14, 31]);
    assert_eq!(error::<I8x16Shuffle>("0 1"), (3, "expected a u8"));
}
