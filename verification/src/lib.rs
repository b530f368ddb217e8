//! Parsing and encoding of WebAssembly text expressions whose memory accesses
//! carry information-flow labels.

pub mod annotations;
pub mod arguments;
pub mod atoms;
pub mod blocks;
pub mod boundaries;
pub mod bytes;
pub mod composition;
pub mod control;
pub mod decoding;
pub mod encode;
pub mod expr;
pub mod folding;
pub mod forms;
pub mod gc;
pub mod grammar;
pub mod instruction;
pub mod labels;
pub mod laws;
pub mod literal;
pub mod memory;
pub mod numerals;
pub mod opcode;
pub mod parser;
pub mod parts;
pub mod placement;
pub mod positions;
pub mod roster;
pub mod signatures;
pub mod simd;
pub mod text;
pub mod texts;
pub mod token;
pub mod tracking;
pub mod types;
pub mod unplaced;
pub mod vectors;
