use secwast::control::{BlockType, BrTableIndices, CallIndirect, ContBind, Handle, Resume, ResumeTable, ResumeThrow, SelectTypes, Switch, TryTable, TryTableCatchKind};
use secwast::gc::{ArrayCopy, ArrayFill, ArrayInit, ArrayNewData, ArrayNewElem, ArrayNewFixed, BrOnCast, BrOnCastFail, RefCast, RefTest, StructAccess};
use secwast::memory::{MemArg, MemoryArg, MemoryCopy, MemoryInit, MemoryOrdering, Ordered, TableArg, TableCopy, TableInit};
use secwast::parser::{Parse, Parser};
use secwast::token::{Error, Float, Id, Index, Integer, SignToken, Span, Token, TokenKind};
use secwast::types::{AbstractHeapType, HeapType, ValType};

/// Splits a text into tokens: enough of a lexer for these tests.
fn lex(src: &'static str) -> &'static [Token<'static>] {
    let bytes = src.as_bytes();
    let mut toks = Vec::new();
    let mut i = 0;
    while i < bytes.len() {
        let start = i;
        let kind = match bytes[i] {
            b' ' => {
                i += 1;
                continue;
            }
            b'(' => {
                i += 1;
                TokenKind::LParen
            }
            b')' => {
                i += 1;
                TokenKind::RParen
            }
            b'"' => {
                i += 1;
                let mut content = Vec::new();
                while bytes[i] != b'"' {
                    if bytes[i] == b'\\' {
                        content.push(u8::from_str_radix(&src[i + 1..i + 3], 16).unwrap());
                        i += 3;
                    } else {
                        content.push(bytes[i]);
                        i += 1;
                    }
                }
                i += 1;
                let content: &'static [u8] = Box::leak(content.into_boxed_slice());
                TokenKind::String { bytes: content, text: std::str::from_utf8(content).ok() }
            }
            _ => {
                while i < bytes.len() && !b" ()\"".contains(&bytes[i]) {
                    i += 1;
                }
                word(&src[start..i])
            }
        };
        toks.push(Token { span: Span { offset: start }, kind });
    }
    Box::leak(toks.into_boxed_slice())
}

fn word(w: &'static str) -> TokenKind<'static> {
    let (sign, rest) = match w.as_bytes()[0] {
        b'+' => (Some(SignToken::Plus), &w[1..]),
        b'-' => (Some(SignToken::Minus), &w[1..]),
        _ => (None, w),
    };
    if rest.starts_with(|c: char| c.is_ascii_digit()) {
        if rest.contains('.') {
            let value: f64 = w.parse().unwrap();
            return TokenKind::Float(Float {
                f32_bits: Some((value as f32).to_bits()),
                f64_bits: Some(value.to_bits()),
            });
        }
        let hex = rest.starts_with("0x");
        let digits = if hex { &rest[2..] } else { rest };
        let value = u64::from_str_radix(digits, if hex { 16 } else { 10 }).unwrap_or(u64::MAX) as f64;
        let value = if sign == Some(SignToken::Minus) { -value } else { value };
        return TokenKind::Integer(Integer {
            sign,
            digits,
            hex,
            f32_bits: Some((value as f32).to_bits()),
            f64_bits: Some(value.to_bits()),
        });
    }
    match w.as_bytes()[0] {
        b'$' => TokenKind::Id(&w[1..]),
        b'@' => TokenKind::Annotation(&w[1..]),
        b'a'..=b'z' => TokenKind::Keyword(w),
        _ => TokenKind::Reserved(w),
    }
}

/// A parser at the start of a text.
fn parser(src: &'static str) -> Parser<'static> {
    Parser::new(lex(src), Span { offset: src.len() }, false).unwrap()
}

/// Parses a whole text.
fn parse<T: Parse<'static>>(src: &'static str) -> Result<T, Error> {
    let mut p = parser(src);
    let r = T::parse(&mut p);
    if r.is_ok() {
        assert!(p.token().is_none(), "something is left of {src:?}");
    }
    r
}

/// The error that a text gives: where, and what.
fn error<T: Parse<'static>>(src: &'static str) -> (usize, &'static str) {
    match T::parse(&mut parser(src)) {
        Ok(_) => panic!("no error for {src:?}"),
        Err(e) => (e.span.offset, e.msg),
    }
}

fn num(i: &Index<'static>) -> u32 {
    match i {
        Index::Num(n, _) => *n,
        Index::Id(_) => panic!("a name"),
    }
}

fn name(i: &Index<'static>) -> &'static str {
    match i {
        Index::Num(..) => panic!("a number"),
        Index::Id(id) => id.name,
    }
}

fn mem_arg(src: &'static str) -> Result<(u64, u64, u32), (usize, &'static str)> {
    let mut p = parser(src);
    match MemArg::parse(&mut p, 16) {
        Ok(m) => Ok((m.align, m.offset, num(&m.memory))),
        Err(e) => Err((e.span.offset, e.msg)),
    }
}

#[test]
fn memory_arguments() {
    assert_eq!(mem_arg(""), Ok((16, 0, 0)));
    assert_eq!(mem_arg("1"), Ok((16, 0, 1)));
    assert_eq!(mem_arg("1 offset=2 align=4"), Ok((4, 2, 1)));
    assert_eq!(mem_arg("align=0x8"), Ok((8, 0, 0)));
    assert_eq!(mem_arg("offset=1_000"), Ok((16, 1000, 0)));
    assert_eq!(mem_arg("offset=0xff_ff"), Ok((16, 0xffff, 0)));
    assert_eq!(mem_arg("offset=18446744073709551615"), Ok((16, u64::MAX, 0)));
    // The offset comes first; what does not fit is left alone.
    assert_eq!(mem_arg("align=2 offset=4"), Ok((2, 0, 0)));
    assert_eq!(mem_arg("offsets=4"), Ok((16, 0, 0)));
    assert_eq!(mem_arg("offset"), Ok((16, 0, 0)));
}

#[test]
fn errors_of_memory_arguments() {
    assert_eq!(
        mem_arg("offset=18446744073709551616"),
        Err((0, "u64 constant out of range"))
    );
    assert_eq!(mem_arg("offset=x"), Err((0, "expected u64 integer constant")));
    assert_eq!(mem_arg("offset="), Err((0, "expected u64 integer constant")));
    assert_eq!(mem_arg("align=3"), Err((7, "alignment must be a power of two")));
    assert_eq!(mem_arg("align=0 nop"), Err((8, "alignment must be a power of two")));
    assert_eq!(mem_arg("4294967296"), Err((0, "invalid u32 number: constant out of range")));
}

#[test]
fn missing_indices_are_zero() {
    assert_eq!(num(&parse::<TableArg>("").unwrap().dst), 0);
    assert_eq!(num(&parse::<TableArg>("4").unwrap().dst), 4);
    assert_eq!(num(&parse::<MemoryArg>("").unwrap().mem), 0);
    assert_eq!(name(&parse::<MemoryArg>("$m").unwrap().mem), "m");
    let t = parse::<TableInit>("3").unwrap();
    assert_eq!((num(&t.table), num(&t.elem)), (0, 3));
    let t = parse::<TableInit>("3 4").unwrap();
    assert_eq!((num(&t.table), num(&t.elem)), (3, 4));
    let m = parse::<MemoryInit>("3").unwrap();
    assert_eq!((num(&m.mem), num(&m.data)), (0, 3));
    let m = parse::<MemoryInit>("3 4").unwrap();
    assert_eq!((num(&m.mem), num(&m.data)), (3, 4));
    let t = parse::<TableCopy>("").unwrap();
    assert_eq!((num(&t.dst), num(&t.src)), (0, 0));
    let t = parse::<TableCopy>("1 2").unwrap();
    assert_eq!((num(&t.dst), num(&t.src)), (1, 2));
    let m = parse::<MemoryCopy>("").unwrap();
    assert_eq!((num(&m.dst), num(&m.src)), (0, 0));
    let m = parse::<MemoryCopy>("1 2").unwrap();
    assert_eq!((num(&m.dst), num(&m.src)), (1, 2));
    let c = parse::<CallIndirect>("(type $t)").unwrap();
    assert_eq!(num(&c.table), 0);
    assert_eq!(name(&c.ty.index.unwrap()), "t");
}

#[test]
fn missing_indices_are_errors() {
    let msg = "unexpected token, expected an identifier or a u32";
    assert_eq!(error::<TableInit>(""), (0, msg));
    assert_eq!(error::<MemoryInit>("nop"), (0, msg));
    assert_eq!(error::<TableCopy>("1"), (1, msg));
    assert_eq!(error::<MemoryCopy>("1 nop"), (2, msg));
    assert_eq!(error::<BrTableIndices>(""), (0, msg));
}

#[test]
fn an_implied_index_stands_at_the_token_before_it() {
    let mut p = parser("memory.size nop");
    p.advance();
    let m = MemoryArg::parse(&mut p).unwrap();
    assert!(matches!(m.mem, Index::Num(0, Span { offset: 0 })));
}

#[test]
fn branch_tables() {
    let b = parse::<BrTableIndices>("1 $x 3").unwrap();
    assert_eq!(b.labels.len(), 2);
    assert_eq!(num(&b.labels[0]), 1);
    assert_eq!(name(&b.labels[1]), "x");
    assert_eq!(num(&b.default), 3);
    let b = parse::<BrTableIndices>("7").unwrap();
    assert_eq!((b.labels.len(), num(&b.default)), (0, 7));
}

#[test]
fn block_types() {
    let b = parse::<BlockType>("$l (param i32) (result i64 f32) (result f64)").unwrap();
    assert_eq!(b.label.unwrap().name, "l");
    assert!(b.label_name.is_none());
    let f = b.ty.inline.unwrap();
    assert_eq!((f.params.len(), f.results.len()), (1, 3));
    assert!(matches!(f.results[2].ty, ValType::F64));
    let b = parse::<BlockType>("(type 4)").unwrap();
    assert!(b.label.is_none());
    assert_eq!(num(&b.ty.index.unwrap()), 4);
}

#[test]
fn block_names() {
    // The name is registered while it is looked for, but not before.
    let mut p = parser("block $l (@name \"x\")");
    p.register_annotation("name");
    p.advance();
    let b = BlockType::parse(&mut p).unwrap();
    assert_eq!(b.label_name.unwrap().name, "x");
}

#[test]
fn select_types() {
    assert!(parse::<SelectTypes>("").unwrap().tys.is_none());
    assert_eq!(parse::<SelectTypes>("(result)").unwrap().tys.unwrap().len(), 0);
    let tys = parse::<SelectTypes>("(result i32 i64) (result funcref)").unwrap().tys.unwrap();
    assert_eq!(tys.len(), 3);
    assert!(matches!(tys[1].ty, ValType::I64));
    assert_eq!(error::<SelectTypes>("(result"), (7, "expected `)`"));
    assert_eq!(error::<SelectTypes>("nop result"), (0, "expected `(`"));
}

#[test]
fn try_tables() {
    let t = parse::<TryTable>("(result i32) (catch $e 1) (catch_all_ref 2)").unwrap();
    assert_eq!(t.block.ty.inline.unwrap().results.len(), 1);
    assert_eq!(t.catches.len(), 2);
    assert!(matches!(t.catches[0].kind, TryTableCatchKind::Catch(Index::Id(_))));
    assert!(matches!(t.catches[1].kind, TryTableCatchKind::CatchAllRef));
    assert_eq!(num(&t.catches[1].label), 2);
    assert_eq!(error::<TryTable>("(catch 1 2 3)"), (11, "expected `)`"));
    assert_eq!(parse::<TryTable>("").unwrap().catches.len(), 0);
}

#[test]
fn tags_can_be_changed() {
    let mut t = parse::<TryTable>("(catch $e 1) (catch_ref $f 1) (catch_all 2) (catch_all_ref 3)").unwrap();
    for c in t.catches.iter_mut().take(2) {
        *c.kind.tag_index_mut().unwrap() = Index::Num(9, Span { offset: 0 });
    }
    assert!(matches!(t.catches[0].kind, TryTableCatchKind::Catch(Index::Num(9, _))));
    assert!(matches!(t.catches[1].kind, TryTableCatchKind::CatchRef(Index::Num(9, _))));
    assert!(t.catches[2].kind.tag_index_mut().is_none());
    assert!(t.catches[3].kind.tag_index_mut().is_none());
}

#[test]
fn continuations() {
    let c = parse::<ContBind>("1 2").unwrap();
    assert_eq!((num(&c.argument_index), num(&c.result_index)), (1, 2));
    let r = parse::<Resume>("1 (on 2 3) (on 4 switch)").unwrap();
    assert_eq!(num(&r.type_index), 1);
    assert_eq!(r.table.handlers.len(), 2);
    match &r.table.handlers[0] {
        Handle::OnLabel { tag, label } => assert_eq!((num(tag), num(label)), (2, 3)),
        _ => panic!("a switch"),
    }
    match &r.table.handlers[1] {
        Handle::OnSwitch { tag } => assert_eq!(num(tag), 4),
        _ => panic!("a label"),
    }
    let r = parse::<ResumeThrow>("1 2 (on 3 4)").unwrap();
    assert_eq!((num(&r.type_index), num(&r.tag_index), r.table.handlers.len()), (1, 2, 1));
    let s = parse::<Switch>("1 2").unwrap();
    assert_eq!((num(&s.type_index), num(&s.tag_index)), (1, 2));
    assert_eq!(parse::<ResumeTable>("").unwrap().handlers.len(), 0);
    assert_eq!(
        error::<ResumeTable>("(on 2)"),
        (5, "unexpected token, expected an identifier or a u32")
    );
    assert_eq!(error::<ResumeTable>("(on 2 3 4)"), (8, "expected `)`"));
}

#[test]
fn structs_and_arrays() {
    let s = parse::<StructAccess>("$s 1").unwrap();
    assert_eq!((name(&s.struct_type), num(&s.field)), ("s", 1));
    assert_eq!(num(&parse::<ArrayFill>("5").unwrap().array), 5);
    let a = parse::<ArrayCopy>("1 2").unwrap();
    assert_eq!((num(&a.dest_array), num(&a.src_array)), (1, 2));
    let a = parse::<ArrayInit>("1 2").unwrap();
    assert_eq!((num(&a.array), num(&a.segment)), (1, 2));
    let a = parse::<ArrayNewFixed>("1 0x20").unwrap();
    assert_eq!((num(&a.array), a.length), (1, 32));
    let a = parse::<ArrayNewData>("1 2").unwrap();
    assert_eq!((num(&a.array), num(&a.data_idx)), (1, 2));
    let a = parse::<ArrayNewElem>("1 2").unwrap();
    assert_eq!((num(&a.array), num(&a.elem_idx)), (1, 2));
}

#[test]
fn casts() {
    let r = parse::<RefCast>("(ref null $t)").unwrap().ref_type;
    assert!(r.nullable);
    assert!(matches!(r.heap, HeapType::Concrete(Index::Id(_))));
    let r = parse::<RefTest>("i31ref").unwrap().ref_type;
    assert!(r.nullable);
    assert!(matches!(r.heap, HeapType::Abstract(AbstractHeapType::I31)));
    let b = parse::<BrOnCast>("1 anyref (ref eq)").unwrap();
    assert_eq!(num(&b.label), 1);
    assert!(b.from_type.nullable);
    assert!(!b.to_type.nullable);
    let b = parse::<BrOnCastFail>("2 (ref none) nullref").unwrap();
    assert_eq!(num(&b.label), 2);
    assert!(!b.from_type.nullable);
    assert!(matches!(b.to_type.heap, HeapType::Abstract(AbstractHeapType::NoAny)));
}

#[test]
fn memory_orderings() {
    assert!(matches!(parse::<MemoryOrdering>("seq_cst"), Ok(MemoryOrdering::SeqCst)));
    assert!(matches!(parse::<MemoryOrdering>("acq_rel"), Ok(MemoryOrdering::AcqRel)));
    assert_eq!(
        error::<MemoryOrdering>("relaxed"),
        (0, "expected a memory ordering: `seq_cst` or `acq_rel`")
    );
    let o = parse::<Ordered<TableArg>>("acq_rel 4").unwrap();
    assert!(matches!(o.ordering, MemoryOrdering::AcqRel));
    assert_eq!(num(&o.inner.dst), 4);
}
