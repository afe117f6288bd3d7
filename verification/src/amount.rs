//! Stored amounts: signed decimal numbers, held exactly.
//!
//! An amount is a sign, a mantissa and a scale; its value is the mantissa
//! divided by ten to the power of the scale. Amounts are read from decimal
//! numerals: an optional sign, digits, and at most one decimal point.
use vstd::prelude::*;
use crate::text::{chars_of, find_first};

verus! {

/// The largest scale that an amount can have.
pub const MAX_SCALE: u8 = 18;

/// A signed decimal number: `mantissa / 10^scale`, negated where `negative`.
#[derive(Clone, Copy, Debug, PartialEq, Eq, Structural)]
pub struct Amount {
    pub negative: bool,
    pub mantissa: u64,
    pub scale: u8,
}

/// Ten to the power of `n`.
pub open spec fn pow10(n: nat) -> nat
    decreases n,
{
    if n == 0 {
        1
    } else {
        10 * pow10((n - 1) as nat)
    }
}

/// Whether `c` is a decimal digit.
pub open spec fn is_digit(c: char) -> bool {
    '0' <= c && c <= '9'
}

/// The value of the decimal digit `c`.
pub open spec fn digit_value(c: char) -> nat
    recommends
        is_digit(c),
{
    (c as u32 - '0' as u32) as nat
}

/// Whether every character of `text` is a decimal digit.
pub open spec fn all_digits(text: Seq<char>) -> bool {
    forall|i: int| 0 <= i < text.len() ==> is_digit(#[trigger] text[i])
}

/// The number that comes of writing the digits of `digits` behind the
/// numeral of `start`.
pub open spec fn extend_value(start: nat, digits: Seq<char>) -> nat
    decreases digits.len(),
{
    if digits.len() == 0 {
        start
    } else {
        extend_value(start, digits.drop_last()) * 10 + digit_value(digits.last())
    }
}

/// A numeral, taken apart: its sign, the digits before the decimal point and
/// the digits behind it.
pub struct Numeral {
    pub negative: bool,
    pub whole: Seq<char>,
    pub fraction: Seq<char>,
}

/// The numeral without its sign.
pub open spec fn unsigned_part(text: Seq<char>) -> Seq<char> {
    if text.len() > 0 && (text[0] == '-' || text[0] == '+') {
        text.skip(1)
    } else {
        text
    }
}

/// Takes a numeral apart, where `text` is one: an optional sign, then digits
/// with at most one decimal point among them, and at least one digit.
pub open spec fn numeral_of(text: Seq<char>) -> Option<Numeral> {
    let body = unsigned_part(text);
    let whole = match body.index_of_first('.') {
        Some(dot) => body.take(dot),
        None => body,
    };
    let fraction = match body.index_of_first('.') {
        Some(dot) => body.skip(dot + 1),
        None => Seq::empty(),
    };
    if all_digits(whole) && all_digits(fraction) && whole.len() + fraction.len() > 0 {
        Some(Numeral { negative: text[0] == '-', whole, fraction })
    } else {
        None
    }
}

/// The amount that `text` denotes, where `text` is a numeral with at most
/// eighteen digits behind the decimal point whose digits, read as one
/// number, fit the mantissa.
pub open spec fn amount_of(text: Seq<char>) -> Option<Amount> {
    match numeral_of(text) {
        Some(numeral) => {
            let mantissa = extend_value(extend_value(0, numeral.whole), numeral.fraction);
            if numeral.fraction.len() <= MAX_SCALE && mantissa <= u64::MAX {
                Some(
                    Amount {
                        negative: numeral.negative,
                        mantissa: mantissa as u64,
                        scale: numeral.fraction.len() as u8,
                    },
                )
            } else {
                None
            }
        },
        None => None,
    }
}

/// Writing more digits behind a numeral never makes the number smaller.
proof fn lemma_extend_value_grows(start: nat, digits: Seq<char>, n: int)
    requires
        0 <= n <= digits.len(),
    ensures
        extend_value(start, digits.take(n)) <= extend_value(start, digits),
    decreases digits.len() - n,
{
    if n == digits.len() {
        assert(digits.take(n) =~= digits);
    } else {
        lemma_extend_value_grows(start, digits, n + 1);
        assert(digits.take(n + 1).drop_last() =~= digits.take(n));
    }
}

fn is_digit_char(c: char) -> (yes: bool)
    ensures
        yes == is_digit(c),
{
    '0' <= c && c <= '9'
}

fn value_of_digit(c: char) -> (value: u64)
    requires
        is_digit(c),
    ensures
        value == digit_value(c),
        value <= 9,
{
    (c as u32 - '0' as u32) as u64
}

/// Whether the characters of `chars` from `from` up to `to` are all digits.
fn digits_only(chars: &Vec<char>, from: usize, to: usize) -> (yes: bool)
    requires
        from <= to <= chars.len(),
    ensures
        yes == all_digits(chars@.subrange(from as int, to as int)),
{
    let ghost part = chars@.subrange(from as int, to as int);
    let mut i: usize = from;
    while i < to
        invariant
            from <= i <= to <= chars.len(),
            part == chars@.subrange(from as int, to as int),
            forall|j: int| 0 <= j < i - from ==> is_digit(#[trigger] part[j]),
        decreases to - i,
    {
        if !is_digit_char(chars[i]) {
            assert(part[i - from] == chars@[i as int]);
            return false;
        }
        assert(part[i - from] == chars@[i as int]);
        i += 1;
    }
    true
}

/// Writes the digits of `chars` from `from` up to `to` behind the numeral of
/// `start`; nothing where the number does not fit.
fn extend(start: u64, chars: &Vec<char>, from: usize, to: usize) -> (value: Option<u64>)
    requires
        from <= to <= chars.len(),
        all_digits(chars@.subrange(from as int, to as int)),
    ensures
        value is Some <==> extend_value(start as nat, chars@.subrange(from as int, to as int))
            <= u64::MAX,
        value matches Some(v) ==> v == extend_value(
            start as nat,
            chars@.subrange(from as int, to as int),
        ),
{
    let ghost part = chars@.subrange(from as int, to as int);
    let mut value: u64 = start;
    let mut i: usize = from;
    while i < to
        invariant
            from <= i <= to <= chars.len(),
            part == chars@.subrange(from as int, to as int),
            all_digits(part),
            value == extend_value(start as nat, part.take(i - from)),
        decreases to - i,
    {
        let ghost done = part.take(i - from);
        let ghost next = part.take(i - from + 1);
        assert(next.drop_last() =~= done);
        assert(next.last() == chars@[i as int]);
        assert(is_digit(part[i - from]));
        let digit = value_of_digit(chars[i]);
        proof {
            lemma_extend_value_grows(start as nat, part, i - from + 1);
        }
        if value > (u64::MAX - digit) / 10 {
            assert(value * 10 + digit > u64::MAX);
            return None;
        }
        value = value * 10 + digit;
        i += 1;
    }
    assert(part.take(i - from) =~= part);
    Some(value)
}

/// Reads an amount from a numeral.
pub fn parse_amount(text: &str) -> (amount: Option<Amount>)
    ensures
        amount == amount_of(text@),
{
    let chars = chars_of(text);
    let mut from: usize = 0;
    let mut negative = false;
    if chars.len() > 0 {
        if chars[0] == '-' {
            negative = true;
            from = 1;
        } else if chars[0] == '+' {
            from = 1;
        }
    }
    let ghost body = unsigned_part(text@);
    assert(body == chars@.skip(from as int)) by {
        assert(chars@.skip(0) =~= chars@);
    }
    let end = chars.len();
    assert(chars@.subrange(from as int, end as int) =~= chars@.skip(from as int));
    let (whole_end, fraction_start) = match find_first(&chars, from, end, '.') {
        Some(dot) => (from + dot, from + dot + 1),
        None => (end, end),
    };
    let ghost whole = chars@.subrange(from as int, whole_end as int);
    let ghost fraction = chars@.subrange(fraction_start as int, end as int);
    proof {
        match body.index_of_first('.') {
            Some(dot) => {
                assert(whole =~= body.take(dot));
                assert(fraction =~= body.skip(dot + 1));
            },
            None => {
                assert(whole =~= body);
                assert(fraction =~= Seq::<char>::empty());
            },
        }
    }
    if !digits_only(&chars, from, whole_end) || !digits_only(&chars, fraction_start, end) {
        return None;
    }
    if whole_end - from + (end - fraction_start) == 0 {
        return None;
    }
    if end - fraction_start > MAX_SCALE as usize {
        return None;
    }
    let scale = (end - fraction_start) as u8;
    match extend(0, &chars, from, whole_end) {
        Some(units) => match extend(units, &chars, fraction_start, end) {
            Some(mantissa) => Some(Amount { negative, mantissa, scale }),
            None => None,
        },
        None => {
            proof {
                lemma_extend_value_grows(extend_value(0, whole), fraction, 0);
                assert(fraction.take(0) =~= Seq::<char>::empty());
            }
            None
        },
    }
}

/// The number that an unsigned numeral denotes: an optional `+`, then at
/// least one digit and nothing else, where the number fits.
pub open spec fn unsigned_of(text: Seq<char>) -> Option<u64> {
    let digits = if text.len() > 0 && text[0] == '+' {
        text.skip(1)
    } else {
        text
    };
    if digits.len() > 0 && all_digits(digits) && extend_value(0, digits) <= u64::MAX {
        Some(extend_value(0, digits) as u64)
    } else {
        None
    }
}

/// Reads an unsigned number from the characters of `chars` from `from` up to
/// `to`.
pub fn parse_unsigned(chars: &Vec<char>, from: usize, to: usize) -> (number: Option<u64>)
    requires
        from <= to <= chars.len(),
    ensures
        number == unsigned_of(chars@.subrange(from as int, to as int)),
{
    let ghost text = chars@.subrange(from as int, to as int);
    let start = if from < to && chars[from] == '+' {
        assert(text.skip(1) =~= chars@.subrange(from + 1, to as int));
        from + 1
    } else {
        assert(from < to ==> text[0] == chars@[from as int]);
        from
    };
    if start == to || !digits_only(chars, start, to) {
        return None;
    }
    extend(0, chars, start, to)
}

} // verus!
