//! Numbers as bytes and as text.
use crate::bytes;
use crate::text;
use crate::text::NumberError;
use vstd::arithmetic::power::*;
use vstd::prelude::*;
use vstd::string::*;

verus! {

/// Byte `i` of a number's encoding is its digit in base 256 that counts `256` to the power `i`.
pub proof fn law_encoding_digits(value: nat, width: nat, i: nat)
    requires
        i < width,
    ensures
        bytes::le_bytes(value, width).len() == width,
        bytes::le_bytes(value, width)[i as int] == (value as int / pow(256, i)) % 256,
    decreases width,
{
    bytes::lemma_le_bytes_len(value, width);
    reveal(pow);
    if i > 0 {
        let j = (i - 1) as nat;
        law_encoding_digits(value / 256, (width - 1) as nat, j);
        lemma_pow_positive(256, j);
        vstd::arithmetic::div_mod::lemma_div_denominator(value as int, 256, pow(256, j));
        assert(bytes::le_bytes(value, width)[i as int] == bytes::le_bytes(
            value / 256,
            (width - 1) as nat,
        )[j as int]);
    }
}

/// The numbers stored at `at` are the bytes there, each counting 256 times as much as the one before.
pub proof fn law_stored_numbers(data: Seq<u8>, at: int)
    requires
        0 <= at,
    ensures
        at + 2 <= data.len() ==> bytes::u16_at(data, at) == data[at] + 0x100 * data[at + 1],
        at + 4 <= data.len() ==> bytes::u32_at(data, at) == data[at] + 0x100 * data[at + 1]
            + 0x1_0000 * data[at + 2] + 0x100_0000 * data[at + 3],
        at + 8 <= data.len() ==> bytes::u64_at(data, at) == data[at] + 0x100 * data[at + 1]
            + 0x1_0000 * data[at + 2] + 0x100_0000 * data[at + 3] + 0x1_0000_0000 * data[at + 4]
            + 0x100_0000_0000 * data[at + 5] + 0x1_0000_0000_0000 * data[at + 6]
            + 0x100_0000_0000_0000 * data[at + 7],
{
    if at + 2 <= data.len() {
        let w = data.subrange(at, at + 2);
        lemma_two(w);
    }
    if at + 4 <= data.len() {
        let w = data.subrange(at, at + 4);
        lemma_four(w);
    }
    if at + 8 <= data.len() {
        let w = data.subrange(at, at + 8);
        lemma_eight(w);
    }
}

proof fn lemma_two(w: Seq<u8>)
    requires
        w.len() == 2,
    ensures
        bytes::le_value(w) == w[0] + 0x100 * w[1],
{
    reveal_with_fuel(bytes::le_value, 3);
    assert(w.drop_first()[0] == w[1]);
}

proof fn lemma_four(w: Seq<u8>)
    requires
        w.len() == 4,
    ensures
        bytes::le_value(w) == w[0] + 0x100 * w[1] + 0x1_0000 * w[2] + 0x100_0000 * w[3],
{
    let rest = w.drop_first();
    lemma_two(rest.drop_first());
    assert(bytes::le_value(rest) == rest[0] + 0x100 * bytes::le_value(rest.drop_first()));
}

proof fn lemma_eight(w: Seq<u8>)
    requires
        w.len() == 8,
    ensures
        bytes::le_value(w) == w[0] + 0x100 * w[1] + 0x1_0000 * w[2] + 0x100_0000 * w[3]
            + 0x1_0000_0000 * w[4] + 0x100_0000_0000 * w[5] + 0x1_0000_0000_0000 * w[6]
            + 0x100_0000_0000_0000 * w[7],
{
    let a = w.drop_first();
    let b = a.drop_first();
    let c = b.drop_first();
    let d = c.drop_first();
    lemma_four(d);
    assert(bytes::le_value(c) == c[0] + 0x100 * bytes::le_value(d));
    assert(bytes::le_value(b) == b[0] + 0x100 * bytes::le_value(c));
    assert(bytes::le_value(a) == a[0] + 0x100 * bytes::le_value(b));
    assert(d[0] == w[4] && d[1] == w[5] && d[2] == w[6] && d[3] == w[7]);
}

/// Writing data into memory replaces exactly the bytes from its address on.
pub proof fn law_overlay(memory: Seq<u8>, at: int, data: Seq<u8>, i: int)
    requires
        0 <= i < memory.len(),
    ensures
        bytes::overlay(memory, at, data).len() == memory.len(),
        0 <= i - at < data.len() ==> bytes::overlay(memory, at, data)[i] == data[i - at],
        i < at || at + data.len() <= i ==> bytes::overlay(memory, at, data)[i] == memory[i],
{
}

/// A number is written with its last digit last, in front of it the number without that digit, and
/// no digit at all in front of a single one. Digits beyond nine are the letters from `a` on.
pub proof fn law_digits(n: nat, radix: nat)
    requires
        2 <= radix <= 16,
    ensures
        text::digits(n, radix).len() > 0,
        n < radix ==> text::digits(n, radix).len() == 1,
        n >= radix ==> text::digits(n, radix).drop_last() == text::digits(n / radix, radix),
        n % radix < 10 ==> text::digits(n, radix).last() as int == 0x30 + n % radix,
        n % radix >= 10 ==> text::digits(n, radix).last() as int == 0x61 + n % radix - 10,
{
    if n < radix {
        vstd::arithmetic::div_mod::lemma_small_mod(n, radix);
    } else {
        assert(text::digits(n, radix).drop_last() =~= text::digits(n / radix, radix));
    }
    assert(n % radix < radix) by (nonlinear_arith)
        requires
            radix >= 2,
    ;
}

/// Decimal numbers have no prefix, hexadecimal ones have `0x`, and a byte has two digits and none.
pub proof fn law_number_text(n: nat, b: u8)
    ensures
        text::dec_text(n) == text::digits(n, 10),
        text::hex_text(n).len() == text::digits(n, 16).len() + 2,
        text::hex_text(n)[0] == '0',
        text::hex_text(n)[1] == 'x',
        text::hex_text(n).skip(2) == text::digits(n, 16),
        text::byte_text(b) == seq![
            text::digits((b / 16) as nat, 16).last(),
            text::digits((b % 16) as nat, 16).last(),
        ],
{
    reveal_strlit("0x");
    assert(text::hex_text(n).skip(2) =~= text::digits(n, 16));
}

/// The value of a character as a digit, told by its code.
pub open spec fn code_digit(c: char) -> int {
    let code = c as int;
    if 0x30 <= code <= 0x39 {
        code - 0x30
    } else if 0x41 <= code <= 0x46 {
        code - 0x41 + 10
    } else if 0x61 <= code <= 0x66 {
        code - 0x61 + 10
    } else {
        16
    }
}

/// One more digit multiplies a parsed number by the base and adds the digit. A character that is no
/// digit of the base, anywhere but for a plus in front, spoils the number; so does a number that is too
/// large.
pub proof fn law_parsing_goes_digit_by_digit(chars: Seq<char>, c: char, radix: nat)
    requires
        radix == 10 || radix == 16,
    ensures
        text::parse_radix_spec(Seq::empty(), radix) == Err::<nat, NumberError>(NumberError::Empty),
        text::parse_radix_spec(seq![c], radix) == (if code_digit(c) < radix {
            Ok::<nat, NumberError>(code_digit(c) as nat)
        } else {
            Err(NumberError::InvalidDigit)
        }),
        text::parse_radix_spec(seq!['+', c], radix) == text::parse_radix_spec(seq![c], radix),
        chars.len() > 0 && chars != seq!['+'] ==> text::parse_radix_spec(chars.push(c), radix) == (
        match text::parse_radix_spec(chars, radix) {
            Err(e) => Err(e),
            Ok(n) => if code_digit(c) >= radix {
                Err(NumberError::InvalidDigit)
            } else if n * radix + code_digit(c) > 0xffff_ffff_ffff_ffff {
                Err(NumberError::Overflow)
            } else {
                Ok((n * radix + code_digit(c)) as nat)
            },
        }),
{
    reveal_with_fuel(text::scan_digits, 3);
    assert(seq![c].drop_first() =~= Seq::<char>::empty());
    assert(seq!['+', c].drop_first() =~= seq![c]);
    assert(code_digit(c) < radix <==> text::digit_value(c, radix) is Some);
    if chars.len() > 0 && chars != seq!['+'] {
        if chars[0] == '+' && chars.len() == 1 {
            assert(chars =~= seq!['+']);
        }
        if chars[0] == '+' && chars.len() > 1 {
            assert(chars.push(c).drop_first() =~= chars.drop_first().push(c));
            text::lemma_scan_push(chars.drop_first(), c, radix, 0);
        } else {
            text::lemma_scan_push(chars, c, radix, 0);
        }
    }
}

} // verus!
