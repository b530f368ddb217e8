//! Numbers as bytes, the low end first.

use vstd::prelude::*;

verus! {

/// The `k`-th byte of a number, counted from its low end.
pub open spec fn byte_of(bits: nat, k: nat) -> u8 {
    ((bits / place(k)) % 256) as u8
}

/// 256 to the power of `k`.
pub open spec fn place(k: nat) -> nat
    decreases k,
{
    if k == 0 {
        1
    } else {
        256 * place((k - 1) as nat)
    }
}

/// The two's complement bits of a number, for a type of `size` values.
pub open spec fn twos_complement(v: int, size: nat) -> nat {
    if v < 0 {
        (v + size) as nat
    } else {
        v as nat
    }
}

/// The powers of 256 that a 64-bit number has bytes at.
pub proof fn lemma_places()
    ensures
        place(0) == 0x1,
        place(1) == 0x100,
        place(2) == 0x10000,
        place(3) == 0x1000000,
        place(4) == 0x100000000,
        place(5) == 0x10000000000,
        place(6) == 0x1000000000000,
        place(7) == 0x100000000000000,
{
    reveal_with_fuel(place, 9);
}

/// The byte of a signed number.
pub fn le8(v: i8) -> (byte: u8)
    ensures
        byte == byte_of(twos_complement(v as int, 0x100), 0),
{
    proof {
        lemma_places();
    }
    bits8(v)
}

/// The bits of a signed number.
fn bits8(v: i8) -> (u: u8)
    ensures
        u == twos_complement(v as int, 0x100),
{
    if v < 0 {
        (v as i32 + 0x100) as u8
    } else {
        v as u8
    }
}

/// The bits of a signed number.
pub fn bits16(v: i16) -> (u: u16)
    ensures
        u == twos_complement(v as int, 0x10000),
{
    if v < 0 {
        (v as i32 + 0x10000) as u16
    } else {
        v as u16
    }
}

/// The bits of a signed number.
pub fn bits32(v: i32) -> (u: u32)
    ensures
        u == twos_complement(v as int, 0x100000000),
{
    if v < 0 {
        (v as i64 + 0x100000000) as u32
    } else {
        v as u32
    }
}

/// The bits of a signed number.
pub fn bits64(v: i64) -> (u: u64)
    ensures
        u == twos_complement(v as int, 0x10000000000000000),
{
    if v < 0 {
        (v as i128 + 0x10000000000000000) as u64
    } else {
        v as u64
    }
}

/// The bytes of a number, from its low end.
pub fn le16(v: u16) -> (bytes: [u8; 2])
    ensures
        bytes@[0] == byte_of(v as nat, 0),
        bytes@[1] == byte_of(v as nat, 1),
{
    proof {
        lemma_places();
    }
    [
        (v % 256) as u8,
        (v / 0x100 % 256) as u8,
    ]
}

/// The bytes of a number, from its low end.
pub fn le32(v: u32) -> (bytes: [u8; 4])
    ensures
        bytes@[0] == byte_of(v as nat, 0),
        bytes@[1] == byte_of(v as nat, 1),
        bytes@[2] == byte_of(v as nat, 2),
        bytes@[3] == byte_of(v as nat, 3),
{
    proof {
        lemma_places();
    }
    [
        (v % 256) as u8,
        (v / 0x100 % 256) as u8,
        (v / 0x10000 % 256) as u8,
        (v / 0x1000000 % 256) as u8,
    ]
}

/// The bytes of a number, from its low end.
pub fn le64(v: u64) -> (bytes: [u8; 8])
    ensures
        bytes@[0] == byte_of(v as nat, 0),
        bytes@[1] == byte_of(v as nat, 1),
        bytes@[2] == byte_of(v as nat, 2),
        bytes@[3] == byte_of(v as nat, 3),
        bytes@[4] == byte_of(v as nat, 4),
        bytes@[5] == byte_of(v as nat, 5),
        bytes@[6] == byte_of(v as nat, 6),
        bytes@[7] == byte_of(v as nat, 7),
{
    proof {
        lemma_places();
    }
    [
        (v % 256) as u8,
        (v / 0x100 % 256) as u8,
        (v / 0x10000 % 256) as u8,
        (v / 0x1000000 % 256) as u8,
        (v / 0x100000000 % 256) as u8,
        (v / 0x10000000000 % 256) as u8,
        (v / 0x1000000000000 % 256) as u8,
        (v / 0x100000000000000 % 256) as u8,
    ]
}

} // verus!
