//! Decimal numerals: writing integers into scripts and reading the counts
//! that scripts print.

use vstd::prelude::*;

verus! {

/// The numeral character of the digit `d` (below 10).
pub open spec fn digit_char(d: nat) -> char {
    (48 + d) as char
}

/// The value of a numeral character.
pub open spec fn digit_value(c: char) -> nat {
    (c as u32 - 48) as nat
}

/// Whether `c` is one of `0` to `9`.
pub open spec fn is_digit(c: char) -> bool {
    '0' <= c <= '9'
}

/// The decimal numeral of `n`, without leading zeros.
pub open spec fn decimal(n: nat) -> Seq<char>
    decreases n,
{
    if n < 10 {
        seq![digit_char(n)]
    } else {
        decimal(n / 10).push(digit_char(n % 10))
    }
}

/// The decimal numeral of `n`, with a `-` in front when `n` is negative
/// (how std prints an integer).
pub open spec fn signed_decimal(n: int) -> Seq<char> {
    if n < 0 {
        seq!['-'] + decimal((-n) as nat)
    } else {
        decimal(n as nat)
    }
}

/// Appends the decimal numeral of `n` to `v`.
pub fn push_decimal(v: &mut Vec<char>, n: u128)
    ensures
        final(v)@ == old(v)@ + decimal(n as nat),
    decreases n,
{
    if n >= 10 {
        push_decimal(v, n / 10);
    }
    let d: u8 = (n % 10) as u8;
    let c: char = (48u8 + d) as char;
    assert(c == digit_char((n % 10) as nat));
    v.push(c);
}

/// Appends the numeral of the signed integer `n` to `v`.
pub fn push_signed_decimal(v: &mut Vec<char>, n: i64)
    ensures
        final(v)@ == old(v)@ + signed_decimal(n as int),
{
    let wide: i128 = n as i128;
    if wide < 0 {
        v.push('-');
        let ghost mid = v@;
        push_decimal(v, (-wide) as u128);
        assert(v@ == old(v)@ + (seq!['-'] + decimal((-n) as nat)));
    } else {
        push_decimal(v, wide as u128);
    }
}

/// Why a text is not the numeral of a `usize`; std's `IntErrorKind` for the
/// cases that arise when parsing an unsigned integer.
#[derive(Debug, Clone, Copy, PartialEq, Eq, Structural)]
pub enum IntError {
    /// The text is empty.
    Empty,
    /// The text holds a character that is not a digit.
    InvalidDigit,
    /// The value exceeds `usize::MAX`.
    PosOverflow,
}

/// The value of the digits `d` read after the value `acc` so far, left to right,
/// stopping at the first character that is not a digit or that takes the value
/// past `usize::MAX`.
pub open spec fn parse_digits(acc: nat, d: Seq<char>) -> Result<nat, IntError>
    decreases d.len(),
{
    if d.len() == 0 {
        Ok(acc)
    } else if !is_digit(d[0]) {
        Err(IntError::InvalidDigit)
    } else if acc * 10 + digit_value(d[0]) > usize::MAX {
        Err(IntError::PosOverflow)
    } else {
        parse_digits(acc * 10 + digit_value(d[0]), d.drop_first())
    }
}

/// What std's `str::parse::<usize>` gives on `s`: an optional leading `+`,
/// then one or more decimal digits.
pub open spec fn parse_usize_spec(s: Seq<char>) -> Result<nat, IntError> {
    if s.len() == 0 {
        Err(IntError::Empty)
    } else if s[0] == '+' {
        if s.len() == 1 {
            Err(IntError::InvalidDigit)
        } else {
            parse_digits(0, s.drop_first())
        }
    } else {
        parse_digits(0, s)
    }
}

/// Reads the `usize` that `s` spells in decimal.
pub fn parse_usize(s: &[char]) -> (res: Result<usize, IntError>)
    ensures
        match res {
            Ok(v) => parse_usize_spec(s@) == Ok::<nat, IntError>(v as nat),
            Err(e) => parse_usize_spec(s@) == Err::<nat, IntError>(e),
        },
{
    if s.len() == 0 {
        return Err(IntError::Empty);
    }
    let mut i: usize = 0;
    if s[0] == '+' {
        if s.len() == 1 {
            return Err(IntError::InvalidDigit);
        }
        i = 1;
    }
    let ghost digits = s@.skip(i as int);
    assert(parse_usize_spec(s@) == parse_digits(0, digits)) by {
        if i == 0 {
            assert(digits == s@);
        } else {
            assert(digits == s@.drop_first());
        }
    }
    let start = i;
    let mut acc: usize = 0;
    while i < s.len()
        invariant
            start <= i <= s.len(),
            digits == s@.skip(start as int),
            parse_usize_spec(s@) == parse_digits(acc as nat, s@.skip(i as int)),
        decreases s.len() - i,
    {
        let c = s[i];
        assert(s@.skip(i as int)[0] == c);
        assert(s@.skip(i as int).drop_first() == s@.skip(i + 1));
        if !('0' <= c && c <= '9') {
            return Err(IntError::InvalidDigit);
        }
        let d: usize = ((c as u32) - 48) as usize;
        let next = acc.checked_mul(10);
        match next {
            Some(m) => {
                match m.checked_add(d) {
                    Some(v) => {
                        acc = v;
                    },
                    None => {
                        return Err(IntError::PosOverflow);
                    },
                }
            },
            None => {
                return Err(IntError::PosOverflow);
            },
        }
        i += 1;
    }
    assert(s@.skip(i as int).len() == 0);
    Ok(acc)
}

proof fn lemma_digit(d: nat)
    requires
        d < 10,
    ensures
        is_digit(digit_char(d)),
        digit_value(digit_char(d)) == d,
        digit_char(d) != '+',
{
}

proof fn lemma_parse_digits_push(acc: nat, d: Seq<char>, x: char)
    requires
        is_digit(x),
    ensures
        parse_digits(acc, d.push(x)) == match parse_digits(acc, d) {
            Ok(v) => if v * 10 + digit_value(x) > usize::MAX {
                Err(IntError::PosOverflow)
            } else {
                Ok(v * 10 + digit_value(x))
            },
            Err(e) => Err(e),
        },
    decreases d.len(),
{
    if d.len() == 0 {
        assert(d.push(x).drop_first() == Seq::<char>::empty());
        assert(d.push(x)[0] == x);
        let v = acc * 10 + digit_value(x);
        assert(parse_digits(v, Seq::<char>::empty()) == Ok::<nat, IntError>(v));
        assert(parse_digits(acc, d) == Ok::<nat, IntError>(acc));
    } else {
        assert(d.push(x)[0] == d[0]);
        assert(d.push(x).drop_first() == d.drop_first().push(x));
        if is_digit(d[0]) && acc * 10 + digit_value(d[0]) <= usize::MAX {
            lemma_parse_digits_push(acc * 10 + digit_value(d[0]), d.drop_first(), x);
        }
    }
}

proof fn lemma_parse_decimal_digits(n: nat)
    requires
        n <= usize::MAX,
    ensures
        parse_digits(0, decimal(n)) == Ok::<nat, IntError>(n),
        decimal(n).len() > 0,
        decimal(n)[0] != '+',
    decreases n,
{
    if n < 10 {
        lemma_digit(n);
        assert(decimal(n) == seq![digit_char(n)]);
        assert(decimal(n).drop_first() == Seq::<char>::empty());
        assert(parse_digits(n, Seq::<char>::empty()) == Ok::<nat, IntError>(n));
    } else {
        lemma_parse_decimal_digits(n / 10);
        lemma_digit(n % 10);
        lemma_parse_digits_push(0, decimal(n / 10), digit_char(n % 10));
        assert(decimal(n) == decimal(n / 10).push(digit_char(n % 10)));
        assert((n / 10) * 10 + n % 10 == n);
        assert(decimal(n)[0] == decimal(n / 10)[0]);
    }
}

/// Reading the decimal numeral of a number gives back the number: a count
/// written by `decimal` is read back by `parse_usize` unchanged.
pub proof fn lemma_parse_reads_decimal(n: nat)
    requires
        n <= usize::MAX,
    ensures
        parse_usize_spec(decimal(n)) == Ok::<nat, IntError>(n),
{
    lemma_parse_decimal_digits(n);
}

} // verus!
