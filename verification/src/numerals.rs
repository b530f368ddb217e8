//! Numbers that are written down are read as what was written.

use vstd::prelude::*;

use crate::literal::{
    digit_value, is_grouped_number, is_hex, is_number, number_value, ungrouped,
    unsigned_part, word_value, WordValue,
};
use crate::parser::{Cursor, Input, Parse};
use crate::token::{Integer, SignToken, TokenKind};

verus! {

/// The digit for a number below sixteen.
pub open spec fn digit(d: nat) -> char {
    "0123456789abcdef"@[d as int]
}

/// The same digit, where a letter is a capital.
pub open spec fn capital_digit(d: nat) -> char {
    "0123456789ABCDEF"@[d as int]
}

/// A digit is worth its place among the digits, whether or not it is a capital.
/// Nothing else is a digit, and neither is a digit of a larger radix.
pub proof fn law_digits(d: nat, c: char, radix: nat)
    requires
        d < 16,
        radix <= 16,
    ensures
        d < radix ==> digit_value(digit(d), radix) == Some(d),
        d < radix ==> digit_value(capital_digit(d), radix) == Some(d),
        d >= radix ==> digit_value(digit(d), radix) is None,
        d >= radix ==> digit_value(capital_digit(d), radix) is None,
        digit_value(c, radix) matches Some(e) ==> e < radix && (c == digit(e) || c
            == capital_digit(e)),
{
    reveal_strlit("0123456789abcdef");
    reveal_strlit("0123456789ABCDEF");
}

/// The digits of a number, the highest first.
pub open spec fn digits_of(n: nat, radix: nat) -> Seq<nat>
    decreases n,
{
    if n < radix || radix < 2 {
        seq![n]
    } else {
        proof {
            assert(n / radix < n) by (nonlinear_arith)
                requires
                    n >= radix >= 2,
            ;
        }
        digits_of(n / radix, radix).push(n % radix)
    }
}

/// The text is these digits, each in either case.
pub open spec fn spells(text: Seq<char>, digits: Seq<nat>) -> bool {
    &&& text.len() == digits.len()
    &&& forall|k: int|
        0 <= k < text.len() ==> #[trigger] text[k] == digit(digits[k]) || text[k] == capital_digit(
            digits[k],
        )
}

/// A number that is written down, in digits of either case, is read as that number.
pub proof fn law_written_number(text: Seq<char>, n: nat, radix: nat)
    requires
        2 <= radix <= 16,
        spells(text, digits_of(n, radix)),
    ensures
        is_number(text, radix),
        number_value(text, radix) == n,
    decreases n,
{
    let digits = digits_of(n, radix);
    if n < radix {
        law_digits(n, text[0], radix);
        assert(text.drop_last() =~= Seq::<char>::empty());
        assert(number_value(text.drop_last(), radix) == 0);
        assert(0 * radix == 0) by (nonlinear_arith);
    } else {
        let init = text.drop_last();
        let (q, r) = (n / radix, n % radix);
        assert(n == q * radix + r && q < n && r < radix) by (nonlinear_arith)
            requires
                q == n / radix,
                r == n % radix,
                n >= radix >= 2,
        ;
        assert(digits == digits_of(q, radix).push(r));
        assert forall|k: int| 0 <= k < init.len() implies #[trigger] init[k] == digit(
            digits_of(q, radix)[k],
        ) || init[k] == capital_digit(digits_of(q, radix)[k]) by {
            assert(init[k] == text[k]);
        }
        law_written_number(init, q, radix);
        law_digits(r, text.last(), radix);
        assert(text.last() == text[text.len() - 1]);
        assert forall|k: int| 0 <= k < text.len() implies digit_value(
            #[trigger] text[k],
            radix,
        ) is Some by {
            if k < init.len() {
                assert(text[k] == init[k]);
            }
        }
    }
}

/// Zeros in front of a number change nothing.
pub proof fn law_leading_zero(text: Seq<char>, radix: nat)
    requires
        2 <= radix <= 16,
        is_number(text, radix),
    ensures
        is_number(seq!['0'] + text, radix),
        number_value(seq!['0'] + text, radix) == number_value(text, radix),
    decreases text.len(),
{
    let all = seq!['0'] + text;
    assert forall|k: int| 0 <= k < all.len() implies digit_value(#[trigger] all[k], radix) is Some by {
        if k > 0 {
            assert(all[k] == text[k - 1]);
        }
    }
    assert(all.last() == text.last());
    let init = text.drop_last();
    assert(all.drop_last() =~= seq!['0'] + init);
    if init.len() > 0 {
        assert forall|k: int| 0 <= k < init.len() implies digit_value(
            #[trigger] init[k],
            radix,
        ) is Some by {
            assert(init[k] == text[k]);
        }
        law_leading_zero(init, radix);
    } else {
        assert(init =~= Seq::<char>::empty());
        assert(number_value(init, radix) == 0);
        assert(all.drop_last() =~= seq!['0']);
        assert(seq!['0'].drop_last() =~= Seq::<char>::empty());
        assert(number_value(seq!['0'], radix) == 0) by {
            assert(number_value(Seq::<char>::empty(), radix) == 0);
            assert(0 * radix == 0) by (nonlinear_arith);
            assert(seq!['0'].last() == '0');
        }
    }
}

/// The digits of the literal are those of `n`, in its radix.
pub open spec fn literal_of<'a>(i: Integer<'a>, n: nat) -> bool {
    spells(
        i.digits@,
        digits_of(
            n,
            if i.hex {
                16
            } else {
                10
            },
        ),
    )
}

/// What a literal says: `n`, or `-n` behind a minus sign.
pub open spec fn signed_value<'a>(i: Integer<'a>, n: nat) -> int {
    if i.sign == Some(SignToken::Minus) {
        -n
    } else {
        n as int
    }
}

/// An unsigned integer is what its literal says, where the type has that number.
pub proof fn law_unsigned_literal<'a>(input: Input<'a>, at: Cursor, i: Integer<'a>, n: nat)
    requires
        input.tok(at) == Some(TokenKind::Integer(i)),
        literal_of(i, n),
    ensures
        ({
            let minus = i.sign == Some(SignToken::Minus);
            &&& match u8::grammar(input, at) {
                Ok((v, to)) => v == n && !minus && to == input.step(at),
                Err(e) => (minus || n > u8::MAX) && e.span == input.here(at),
            }
            &&& match u32::grammar(input, at) {
                Ok((v, to)) => v == n && !minus && to == input.step(at),
                Err(e) => (minus || n > u32::MAX) && e.span == input.here(at),
            }
        }),
{
    law_written_number(i.digits@, n, i.radix());
}

/// A signed integer is what its literal says, where the type has that number. The
/// literal without a minus sign may also be that of the unsigned number with the
/// same bits.
pub proof fn law_signed_literal<'a>(input: Input<'a>, at: Cursor, i: Integer<'a>, n: nat)
    requires
        input.tok(at) == Some(TokenKind::Integer(i)),
        literal_of(i, n),
    ensures
        ({
            let v = signed_value(i, n);
            &&& match i8::grammar(input, at) {
                Ok((w, to)) => to == input.step(at) && if v <= i8::MAX {
                    w == v
                } else {
                    w == v - 256 && v <= u8::MAX
                },
                Err(e) => (v < i8::MIN || v > u8::MAX) && e.span == input.here(at),
            }
            &&& match i16::grammar(input, at) {
                Ok((w, to)) => to == input.step(at) && if v <= i16::MAX {
                    w == v
                } else {
                    w == v - 65536 && v <= u16::MAX
                },
                Err(e) => (v < i16::MIN || v > u16::MAX) && e.span == input.here(at),
            }
            &&& match i32::grammar(input, at) {
                Ok((w, to)) => to == input.step(at) && if v <= i32::MAX {
                    w == v
                } else {
                    w == v - u32::MAX - 1 && v <= u32::MAX
                },
                Err(e) => (v < i32::MIN || v > u32::MAX) && e.span == input.here(at),
            }
            &&& match i64::grammar(input, at) {
                Ok((w, to)) => to == input.step(at) && if v <= i64::MAX {
                    w == v
                } else {
                    w == v - u64::MAX - 1 && v <= u64::MAX
                },
                Err(e) => (v < i64::MIN || v > u64::MAX) && e.span == input.here(at),
            }
        }),
{
    law_written_number(i.digits@, n, i.radix());
}

/// Digits hold no underscore and no `x`.
proof fn lemma_digits_are_plain(text: Seq<char>, radix: nat)
    requires
        radix <= 16,
        is_number(text, radix),
    ensures
        is_grouped_number(text, radix),
        ungrouped(text) == text,
        text.len() >= 2 ==> text[1] != 'x',
        text[0] != '+' && text[0] != '-',
{
    assert forall|k: int| 0 <= k < text.len() implies #[trigger] text[k] != '_' && text[k] != 'x'
        && text[k] != '+' && text[k] != '-' by {
        assert(digit_value(text[k], radix) is Some);
    }
    assert(text.last() == text[text.len() - 1]);
    lemma_filter_all(text);
}

proof fn lemma_filter_all(text: Seq<char>)
    requires
        forall|k: int| 0 <= k < text.len() ==> #[trigger] text[k] != '_',
    ensures
        ungrouped(text) == text,
    decreases text.len(),
{
    reveal(Seq::filter);
    if text.len() > 0 {
        lemma_filter_all(text.drop_last());
        assert(text.last() == text[text.len() - 1]);
        assert(text.drop_last().push(text.last()) =~= text);
    } else {
        assert(ungrouped(text) =~= text);
    }
}

/// The characters that a sign is written with.
pub open spec fn sign_text(sign: Option<SignToken>) -> Seq<char> {
    match sign {
        Some(SignToken::Plus) => seq!['+'],
        Some(SignToken::Minus) => seq!['-'],
        None => Seq::empty(),
    }
}

/// The characters that mark a hexadecimal number.
pub open spec fn radix_text(hex: bool) -> Seq<char> {
    if hex {
        seq!['0', 'x']
    } else {
        Seq::empty()
    }
}

proof fn lemma_word_parts(sign: Option<SignToken>, hex: bool, text: Seq<char>, radix: nat)
    requires
        radix <= 16,
        is_grouped_number(text, radix),
    ensures
        ({
            let word = sign_text(sign) + radix_text(hex) + text;
            &&& word.len() > 0
            &&& word[0] == '-' <==> sign == Some(SignToken::Minus)
            &&& unsigned_part(word) == radix_text(hex) + text
            &&& is_hex(radix_text(hex) + text) == hex
            &&& hex ==> (radix_text(hex) + text).skip(2) == text
            &&& !hex ==> radix_text(hex) + text == text
        }),
{
    assert(digit_value(text[0], radix) is Some);
    if text.len() >= 2 {
        assert(text[1] == '_' || digit_value(text[1], radix) is Some);
    }
    let part = radix_text(hex) + text;
    let word = sign_text(sign) + radix_text(hex) + text;
    assert(word =~= sign_text(sign) + part);
    if hex {
        assert(part[0] == '0' && part[1] == 'x');
        assert(part.skip(2) =~= text);
    } else {
        assert(part =~= text);
    }
    if sign is Some {
        assert(word[0] == sign_text(sign)[0]);
        assert(word.skip(1) =~= part);
    } else {
        assert(word =~= part);
    }
}

/// A word that is a number is read as that number, below 2 to the power of 64: an
/// optional sign, an optional `0x`, and the digits. A negative number is none.
pub proof fn law_written_word(sign: Option<SignToken>, hex: bool, text: Seq<char>, n: nat)
    requires
        hex ==> spells(text, digits_of(n, 16)),
        !hex ==> spells(text, digits_of(n, 10)),
    ensures
        word_value(sign_text(sign) + radix_text(hex) + text) == if sign == Some(SignToken::Minus)
            || n > u64::MAX {
            WordValue::OutOfRange
        } else {
            WordValue::Value(n as u64)
        },
{
    let radix: nat = if hex {
        16
    } else {
        10
    };
    law_written_number(text, n, radix);
    lemma_digits_are_plain(text, radix);
    lemma_word_parts(sign, hex, text, radix);
}

/// An underscore between two digits of a word changes nothing.
pub proof fn law_underscore(sign: Option<SignToken>, hex: bool, front: Seq<char>, back: Seq<char>)
    requires
        hex ==> is_grouped_number(front, 16) && is_grouped_number(back, 16),
        !hex ==> is_grouped_number(front, 10) && is_grouped_number(back, 10),
    ensures
        word_value(sign_text(sign) + radix_text(hex) + (front + seq!['_'] + back)) == word_value(
            sign_text(sign) + radix_text(hex) + (front + back),
        ),
        !(word_value(sign_text(sign) + radix_text(hex) + (front + back)) is NotInteger),
{
    let radix: nat = if hex {
        16
    } else {
        10
    };
    lemma_underscore(front, back, radix);
    lemma_word_parts(sign, hex, front + seq!['_'] + back, radix);
    lemma_word_parts(sign, hex, front + back, radix);
}

proof fn lemma_underscore(front: Seq<char>, back: Seq<char>, radix: nat)
    requires
        2 <= radix <= 16,
        is_grouped_number(front, radix),
        is_grouped_number(back, radix),
    ensures
        is_grouped_number(front + seq!['_'] + back, radix),
        is_grouped_number(front + back, radix),
        number_value(ungrouped(front + seq!['_'] + back), radix) == number_value(
            ungrouped(front + back),
            radix,
        ),
{
    let all = front + seq!['_'] + back;
    let both = front + back;
    let p = |c: char| c != '_';
    let n = front.len() as int;
    assert forall|i: int| 0 <= i < all.len() implies #[trigger] all[i] == '_' || digit_value(
        all[i],
        radix,
    ) is Some by {
        if i < n {
            assert(all[i] == front[i]);
        } else if i > n {
            assert(all[i] == back[i - n - 1]);
        }
    }
    assert forall|i: int| 0 < i < all.len() && #[trigger] all[i] == '_' implies all[i - 1]
        != '_' by {
        if i < n {
            assert(all[i] == front[i] && all[i - 1] == front[i - 1]);
        } else if i == n {
            assert(all[i - 1] == front.last());
        } else {
            assert(all[i] == back[i - n - 1]);
            if i > n + 1 {
                assert(all[i - 1] == back[i - n - 2]);
            }
        }
    }
    assert(all.last() == back.last());
    assert forall|i: int| 0 <= i < both.len() implies #[trigger] both[i] == '_' || digit_value(
        both[i],
        radix,
    ) is Some by {
        if i < n {
            assert(both[i] == front[i]);
        } else {
            assert(both[i] == back[i - n]);
        }
    }
    assert forall|i: int| 0 < i < both.len() && #[trigger] both[i] == '_' implies both[i - 1]
        != '_' by {
        if i < n {
            assert(both[i] == front[i] && both[i - 1] == front[i - 1]);
        } else {
            assert(both[i] == back[i - n]);
            if i > n {
                assert(both[i - 1] == back[i - n - 1]);
            }
        }
    }
    assert(both.last() == back.last());
    Seq::filter_distributes_over_add(front + seq!['_'], back, p);
    Seq::filter_distributes_over_add(front, seq!['_'], p);
    Seq::filter_distributes_over_add(front, back, p);
    let joint = seq!['_'];
    assert(joint.filter(p) =~= Seq::<char>::empty()) by {
        reveal_with_fuel(Seq::filter, 2);
        assert(joint.drop_last() =~= Seq::<char>::empty());
        assert(joint.last() == '_');
    }
    assert(ungrouped(all) =~= ungrouped(both));
}

/// Digits that are none, or none at all, are no number.
pub proof fn law_no_number<'a>(input: Input<'a>, at: Cursor, i: Integer<'a>)
    requires
        input.tok(at) == Some(TokenKind::Integer(i)),
        ({
            let radix: nat = if i.hex {
                16
            } else {
                10
            };
            i.digits@.len() == 0 || exists|k: int|
                0 <= k < i.digits@.len() && digit_value(#[trigger] i.digits@[k], radix) is None
        }),
    ensures
        u8::grammar(input, at) is Err,
        u32::grammar(input, at) is Err,
        i8::grammar(input, at) is Err,
        i16::grammar(input, at) is Err,
        i32::grammar(input, at) is Err,
        i64::grammar(input, at) is Err,
{
    assert(!is_number(i.digits@, i.radix()));
}

/// The text has an underscore that does not stand between two digits, or a character
/// that is neither an underscore nor a digit, or it is empty.
pub open spec fn misspelled(text: Seq<char>, radix: nat) -> bool {
    ||| text.len() == 0
    ||| text[0] == '_'
    ||| text.last() == '_'
    ||| exists|k: int| 0 < k < text.len() && #[trigger] text[k] == '_' && text[k - 1] == '_'
    ||| exists|k: int|
        0 <= k < text.len() && #[trigger] text[k] != '_' && digit_value(text[k], radix) is None
}

/// Such a text is no number, with or without a sign.
pub proof fn law_no_word(sign: Option<SignToken>, hex: bool, text: Seq<char>)
    requires
        hex ==> misspelled(text, 16),
        !hex ==> misspelled(text, 10) && !(text.len() >= 2 && text[0] == '0' && text[1] == 'x'),
        sign is None && !hex && text.len() > 0 ==> text[0] != '+' && text[0] != '-',
    ensures
        word_value(sign_text(sign) + radix_text(hex) + text) is NotInteger,
{
    let word = sign_text(sign) + radix_text(hex) + text;
    let part = radix_text(hex) + text;
    assert(word =~= sign_text(sign) + part);
    if sign is Some {
        assert(word[0] == sign_text(sign)[0]);
        assert(word.skip(1) =~= part);
    } else {
        assert(word =~= part);
        if hex {
            assert(word[0] == '0');
        }
    }
    assert(unsigned_part(word) == part);
    if hex {
        assert(part[0] == '0' && part[1] == 'x');
        assert(part.skip(2) =~= text);
    } else {
        assert(part =~= text);
    }
}

} // verus!
