//! Numbers as text: decimal and hexadecimal formatting, and parsing.
use vstd::prelude::*;
use vstd::string::*;

verus! {

/// Why a number could not be parsed.
#[derive(Debug, Clone, Copy, PartialEq, Eq, Structural)]
pub enum NumberError {
    /// There was nothing to parse.
    Empty,
    /// A character is no digit of the radix.
    InvalidDigit,
    /// The number does not fit in 64 bits.
    Overflow,
}

/// What is said of each error.
pub open spec fn number_error_text(error: NumberError) -> Seq<char> {
    match error {
        NumberError::Empty => "cannot parse integer from empty string"@,
        NumberError::InvalidDigit => "invalid digit found in string"@,
        NumberError::Overflow => "number too large to fit in target type"@,
    }
}

impl NumberError {
    /// What is said of the error.
    pub fn message(&self) -> (text: &'static str)
        ensures
            text@ == number_error_text(*self),
    {
        match self {
            NumberError::Empty => "cannot parse integer from empty string",
            NumberError::InvalidDigit => "invalid digit found in string",
            NumberError::Overflow => "number too large to fit in target type",
        }
    }
}

/// The characters of each of some strings.
pub open spec fn texts(strings: Seq<String>) -> Seq<Seq<char>> {
    Seq::new(strings.len(), |i: int| strings[i]@)
}

/// The characters of an optional string.
pub open spec fn text_of(s: Option<String>) -> Option<Seq<char>> {
    match s {
        Some(s) => Some(s@),
        None => None,
    }
}

/// The lower-case digit that stands for `d`.
pub open spec fn digit_char(d: nat) -> char {
    if d == 0 {
        '0'
    } else if d == 1 {
        '1'
    } else if d == 2 {
        '2'
    } else if d == 3 {
        '3'
    } else if d == 4 {
        '4'
    } else if d == 5 {
        '5'
    } else if d == 6 {
        '6'
    } else if d == 7 {
        '7'
    } else if d == 8 {
        '8'
    } else if d == 9 {
        '9'
    } else if d == 10 {
        'a'
    } else if d == 11 {
        'b'
    } else if d == 12 {
        'c'
    } else if d == 13 {
        'd'
    } else if d == 14 {
        'e'
    } else {
        'f'
    }
}

/// `n` in base `radix`, without leading zeros.
pub open spec fn digits(n: nat, radix: nat) -> Seq<char>
    decreases n,
{
    if n < radix || radix < 2 {
        seq![digit_char(n)]
    } else {
        proof {
            assert(n / radix < n) by (nonlinear_arith)
                requires
                    n >= radix,
                    radix >= 2,
            ;
        }
        digits(n / radix, radix).push(digit_char(n % radix))
    }
}

/// `n` in decimal.
pub open spec fn dec_text(n: nat) -> Seq<char> {
    digits(n, 10)
}

/// `n` in hexadecimal, with its `0x` prefix.
pub open spec fn hex_text(n: nat) -> Seq<char> {
    "0x"@ + digits(n, 16)
}

/// A byte as exactly two hexadecimal digits, without a prefix.
pub open spec fn byte_text(b: u8) -> Seq<char> {
    seq![digit_char(b as nat / 16), digit_char(b as nat % 16)]
}

fn digit_str(d: u64) -> (text: &'static str)
    requires
        d < 16,
    ensures
        text@ == seq![digit_char(d as nat)],
{
    proof {
        reveal_strlit("0");
        reveal_strlit("1");
        reveal_strlit("2");
        reveal_strlit("3");
        reveal_strlit("4");
        reveal_strlit("5");
        reveal_strlit("6");
        reveal_strlit("7");
        reveal_strlit("8");
        reveal_strlit("9");
        reveal_strlit("a");
        reveal_strlit("b");
        reveal_strlit("c");
        reveal_strlit("d");
        reveal_strlit("e");
        reveal_strlit("f");
    }
    let text = match d {
        0 => "0",
        1 => "1",
        2 => "2",
        3 => "3",
        4 => "4",
        5 => "5",
        6 => "6",
        7 => "7",
        8 => "8",
        9 => "9",
        10 => "a",
        11 => "b",
        12 => "c",
        13 => "d",
        14 => "e",
        _ => "f",
    };
    assert(text@ =~= seq![digit_char(d as nat)]);
    text
}

fn push_digits(out: &mut String, n: u64, radix: u64)
    requires
        2 <= radix <= 16,
    ensures
        final(out)@ == old(out)@ + digits(n as nat, radix as nat),
    decreases n,
{
    if n >= radix {
        assert(n / radix < n) by (nonlinear_arith)
            requires
                n >= radix,
                radix >= 2,
        ;
        push_digits(out, n / radix, radix);
    }
    out.append(digit_str(n % radix));
    proof {
        if n < radix {
            vstd::arithmetic::div_mod::lemma_small_mod(n as nat, radix as nat);
        }
    }
    assert(out@ =~= old(out)@ + digits(n as nat, radix as nat));
}

/// Appends `n` in decimal.
pub fn push_dec(out: &mut String, n: u64)
    ensures
        final(out)@ == old(out)@ + dec_text(n as nat),
{
    push_digits(out, n, 10)
}

/// Appends `n` in hexadecimal.
pub fn push_hex(out: &mut String, n: u64)
    ensures
        final(out)@ == old(out)@ + hex_text(n as nat),
{
    out.append("0x");
    push_digits(out, n, 16);
    assert(out@ =~= old(out)@ + hex_text(n as nat));
}

/// Appends a byte as two hexadecimal digits.
pub fn push_byte(out: &mut String, b: u8)
    ensures
        final(out)@ == old(out)@ + byte_text(b),
{
    out.append(digit_str((b / 16) as u64));
    out.append(digit_str((b % 16) as u64));
    assert(out@ =~= old(out)@ + byte_text(b));
}

/// The value of `c` as a digit of `radix`; letters of either case count from ten.
pub open spec fn digit_value(c: char, radix: nat) -> Option<nat> {
    let d = if '0' <= c <= '9' {
        (c as nat - '0' as nat) as nat
    } else if 'a' <= c <= 'z' {
        (c as nat - 'a' as nat + 10) as nat
    } else if 'A' <= c <= 'Z' {
        (c as nat - 'A' as nat + 10) as nat
    } else {
        radix
    };
    if d < radix {
        Some(d)
    } else {
        None
    }
}

/// Reads digits from the left on top of `acc`; the first character at which reading cannot go on
/// decides the error.
pub open spec fn scan_digits(chars: Seq<char>, radix: nat, acc: nat) -> Result<nat, NumberError>
    decreases chars.len(),
{
    if chars.len() == 0 {
        Ok(acc)
    } else {
        match digit_value(chars[0], radix) {
            None => Err(NumberError::InvalidDigit),
            Some(d) => if acc * radix + d > u64::MAX {
                Err(NumberError::Overflow)
            } else {
                scan_digits(chars.drop_first(), radix, acc * radix + d)
            },
        }
    }
}

/// An unsigned 64-bit number in base `radix`: one or more digits, after an optional `+`.
pub open spec fn parse_radix_spec(chars: Seq<char>, radix: nat) -> Result<nat, NumberError> {
    if chars.len() == 0 {
        Err(NumberError::Empty)
    } else if chars[0] == '+' && chars.len() > 1 {
        scan_digits(chars.drop_first(), radix, 0)
    } else {
        scan_digits(chars, radix, 0)
    }
}

fn digit_of(c: char, radix: u64) -> (d: Option<u64>)
    requires
        2 <= radix <= 16,
    ensures
        match d {
            Some(v) => digit_value(c, radix as nat) == Some(v as nat),
            None => digit_value(c, radix as nat) is None,
        },
{
    let d: u64 = if '0' <= c && c <= '9' {
        c as u64 - '0' as u64
    } else if 'a' <= c && c <= 'z' {
        c as u64 - 'a' as u64 + 10
    } else if 'A' <= c && c <= 'Z' {
        c as u64 - 'A' as u64 + 10
    } else {
        radix
    };
    if d < radix {
        Some(d)
    } else {
        None
    }
}

/// Parses the characters of `value` from index `from` on as a number in base `radix`.
pub fn parse_radix(value: &str, from: usize, radix: u64) -> (res: Result<u64, NumberError>)
    requires
        from <= value@.len(),
        2 <= radix <= 16,
    ensures
        match res {
            Ok(n) => parse_radix_spec(value@.skip(from as int), radix as nat) == Ok::<
                nat,
                NumberError,
            >(n as nat),
            Err(e) => parse_radix_spec(value@.skip(from as int), radix as nat) == Err::<
                nat,
                NumberError,
            >(e),
        },
{
    let len: usize = value.unicode_len();
    let ghost chars = value@.skip(from as int);
    if from == len {
        return Err(NumberError::Empty);
    }
    let mut i: usize = from;
    if value.get_char(from) == '+' && len - from > 1 {
        i = from + 1;
        assert(chars.drop_first() =~= value@.skip(i as int));
    }
    let mut acc: u64 = 0;
    while i < len
        invariant
            from <= i <= len,
            len == value@.len(),
            2 <= radix <= 16,
            chars == value@.skip(from as int),
            parse_radix_spec(chars, radix as nat) == scan_digits(
                value@.skip(i as int),
                radix as nat,
                acc as nat,
            ),
        decreases len - i,
    {
        let ghost rest = value@.skip(i as int);
        assert(rest.drop_first() =~= value@.skip(i + 1));
        match digit_of(value.get_char(i), radix) {
            None => {
                return Err(NumberError::InvalidDigit);
            },
            Some(d) => {
                assert(0 <= acc * radix <= u64::MAX * 16) by (nonlinear_arith)
                    requires
                        0 <= acc <= u64::MAX,
                        2 <= radix <= 16,
                ;
                let next: u128 = acc as u128 * radix as u128 + d as u128;
                if next > u64::MAX as u128 {
                    return Err(NumberError::Overflow);
                }
                acc = next as u64;
            },
        }
        i = i + 1;
    }
    Ok(acc)
}

/// Scanning one more character goes on from what was scanned before it.
pub proof fn lemma_scan_push(chars: Seq<char>, c: char, radix: nat, acc: nat)
    ensures
        scan_digits(chars.push(c), radix, acc) == (match scan_digits(chars, radix, acc) {
            Err(e) => Err(e),
            Ok(v) => scan_digits(seq![c], radix, v),
        }),
    decreases chars.len(),
{
    if chars.len() == 0 {
        assert(chars.push(c) =~= seq![c]);
    } else {
        assert(chars.push(c).drop_first() =~= chars.drop_first().push(c));
        if let Some(d) = digit_value(chars[0], radix) {
            lemma_scan_push(chars.drop_first(), c, radix, acc * radix + d);
        }
    }
}

proof fn lemma_scan_of_digits(n: nat, radix: nat)
    requires
        n <= u64::MAX,
        2 <= radix <= 16,
    ensures
        scan_digits(digits(n, radix), radix, 0) == Ok::<nat, NumberError>(n),
        digits(n, radix).len() > 0,
        digits(n, radix)[0] != '+',
    decreases n,
{
    reveal_with_fuel(scan_digits, 2);
    let last = n % radix;
    assert(last < radix) by (nonlinear_arith)
        requires
            last == n % radix,
            radix >= 2,
    ;
    assert(digit_value(digit_char(last), radix) == Some(last));
    if n < radix {
        assert(n % radix == n) by (nonlinear_arith)
            requires
                n < radix,
        ;
        assert(digits(n, radix).drop_first() =~= Seq::<char>::empty());
    } else {
        let front = n / radix;
        assert(front < n && front * radix + last == n) by (nonlinear_arith)
            requires
                n >= radix,
                radix >= 2,
                front == n / radix,
                last == n % radix,
        ;
        lemma_scan_of_digits(front, radix);
        lemma_scan_push(digits(front, radix), digit_char(last), radix, 0);
        assert(seq![digit_char(last)].drop_first() =~= Seq::<char>::empty());
    }
}

/// Parsing what was formatted in the same base gives the number back.
pub proof fn law_parse_of_digits(n: u64, radix: nat)
    requires
        2 <= radix <= 16,
    ensures
        parse_radix_spec(digits(n as nat, radix), radix) == Ok::<nat, NumberError>(n as nat),
{
    lemma_scan_of_digits(n as nat, radix);
}

} // verus!
