//! Modifier semantics: what a raw modifier field means to a reader.
//!
//! A descriptor gives a raw internal field name its human-facing name, its
//! numeric format, its sign convention and its display multiplier. Given a
//! descriptor and a stored amount, the amount is rendered as a signed string.
use vstd::prelude::*;
use crate::amount::{Amount, amount_of, MAX_SCALE, parse_amount, pow10};
use crate::modifier_table::{descriptor, find_modifier};
use crate::text::{
    decimal_text, digit_char, digit_of, lowercase, lowercase_of, push_decimal, string_of, text_eq,
};

verus! {

/// How the magnitude of a modifier is shown.
#[derive(Copy, Clone, Debug, Default, PartialEq, Eq, Structural)]
pub enum ModifierFormat {
    /// Scaled, rounded to the nearest integer, and followed by `%`.
    Percent,
    /// Scaled and shown as it is.
    Flat,
    /// Not shown: the modifier is a toggle without magnitude.
    #[default]
    NoValue,
}

/// Whether a positive stored value is good or bad for the country.
#[derive(Copy, Clone, Debug, Default, PartialEq, Eq, Structural)]
pub enum ModifierNormal {
    #[default]
    Positive,
    Negative,
}

/// The descriptor of a modifier.
#[derive(Clone, Copy, Debug, Default)]
pub struct Modifier {
    pub id: &'static str,
    pub name: &'static str,
    pub format: ModifierFormat,
    pub normal: ModifierNormal,
    pub multiplier: usize,
}

/// Whether the modifier `id` is one of those whose sign is shown flipped.
pub open spec fn inverted(id: Seq<char>) -> bool {
    id == "reduced_liberty_desire"@ || id == "reduced_liberty_desire_on_same_continent"@
}

/// Whether `amount` is shown with a minus sign under the modifier `id`: a
/// negative amount is, unless the modifier is inverted, and then a positive
/// amount is. Zero never is.
pub open spec fn shown_negative(id: Seq<char>, amount: Amount) -> bool {
    amount.mantissa > 0 && (inverted(id) != amount.negative)
}

/// The sign under which `amount` is shown.
pub open spec fn sign_text(id: Seq<char>, amount: Amount) -> Seq<char> {
    if shown_negative(id, amount) {
        seq!['-']
    } else {
        seq!['+']
    }
}

/// The magnitude of `amount`, times `multiplier`, times ten to the power of
/// the amount's scale.
pub open spec fn scaled(amount: Amount, multiplier: usize) -> nat {
    (amount.mantissa * multiplier) as nat
}

/// The quotient of `value` by `unit`, rounded to the nearest integer, halves
/// away from zero.
pub open spec fn rounded(value: nat, unit: nat) -> nat {
    if 2 * (value % unit) >= unit {
        value / unit + 1
    } else {
        value / unit
    }
}

/// The digits of `fraction / 10^scale` behind the decimal point, without
/// trailing zeros.
pub open spec fn fraction_digits(fraction: nat, scale: nat) -> Seq<char>
    decreases scale,
{
    if fraction == 0 || scale == 0 {
        Seq::empty()
    } else {
        seq![digit_char(fraction / pow10((scale - 1) as nat))] + fraction_digits(
            fraction % pow10((scale - 1) as nat),
            (scale - 1) as nat,
        )
    }
}

/// The decimal numeral of `value / 10^scale`, exactly: no trailing zeros, and
/// no decimal point where nothing stands behind it.
pub open spec fn exact_text(value: nat, scale: nat) -> Seq<char> {
    if value % pow10(scale) == 0 {
        decimal_text(value / pow10(scale))
    } else {
        decimal_text(value / pow10(scale)) + seq!['.'] + fraction_digits(
            value % pow10(scale),
            scale,
        )
    }
}

/// How `amount` reads under the descriptor `modifier`.
pub open spec fn readable(modifier: Modifier, amount: Amount) -> Seq<char> {
    match modifier.format {
        ModifierFormat::Percent => sign_text(modifier.id@, amount) + decimal_text(
            rounded(scaled(amount, modifier.multiplier), pow10(amount.scale as nat)),
        ) + seq!['%'],
        ModifierFormat::Flat => sign_text(modifier.id@, amount) + exact_text(
            scaled(amount, modifier.multiplier),
            amount.scale as nat,
        ),
        ModifierFormat::NoValue => Seq::empty(),
    }
}

/// Ten to the power of eighteen fits sixty-four bits, and the powers grow.
proof fn lemma_pow10_bounds(n: nat)
    requires
        n <= 18,
    ensures
        1 <= pow10(n) <= 1_000_000_000_000_000_000,
    decreases 18 - n,
{
    reveal_with_fuel(pow10, 20);
    if n < 18 {
        lemma_pow10_bounds(n + 1);
    }
}

fn power_of_ten(n: u8) -> (power: u128)
    requires
        n <= MAX_SCALE,
    ensures
        power == pow10(n as nat),
        1 <= power <= 1_000_000_000_000_000_000,
{
    let mut power: u128 = 1;
    let mut i: u8 = 0;
    while i < n
        invariant
            i <= n <= MAX_SCALE,
            power == pow10(i as nat),
        decreases n - i,
    {
        proof {
            lemma_pow10_bounds(i as nat);
            lemma_pow10_bounds((i + 1) as nat);
        }
        power = power * 10;
        i += 1;
    }
    proof {
        lemma_pow10_bounds(n as nat);
    }
    power
}

fn push_fraction(out: &mut Vec<char>, fraction: u128, scale: u8)
    requires
        scale <= MAX_SCALE,
        fraction < pow10(scale as nat),
    ensures
        final(out)@ == old(out)@ + fraction_digits(fraction as nat, scale as nat),
    decreases scale,
{
    if fraction == 0 || scale == 0 {
        assert(out@ =~= old(out)@ + Seq::<char>::empty());
    } else {
        let unit = power_of_ten(scale - 1);
        assert(fraction / unit < 10) by (nonlinear_arith)
            requires
                fraction < 10 * unit,
                unit >= 1,
        ;
        assert(fraction % unit < unit) by (nonlinear_arith)
            requires
                unit >= 1,
        ;
        let ghost before = out@;
        out.push(digit_of((fraction / unit) as u8));
        push_fraction(out, fraction % unit, scale - 1);
        assert(out@ =~= before + (seq![digit_char((fraction / unit) as nat)] + fraction_digits(
            (fraction % unit) as nat,
            (scale - 1) as nat,
        )));
    }
}

impl Modifier {
    /// Renders `amount` as a signed string: the sign, then the magnitude
    /// times the multiplier, rounded and followed by `%` for a percentage,
    /// exact for a flat value; nothing for a modifier without magnitude.
    pub fn to_human_readable(self, amount: Amount) -> (text: String)
        requires
            amount.scale <= MAX_SCALE,
        ensures
            text@ == readable(self, amount),
    {
        let minus = amount.mantissa > 0 && (is_inverted(self.id) != amount.negative);
        let mut out: Vec<char> = Vec::new();
        match self.format {
            ModifierFormat::NoValue => {},
            ModifierFormat::Percent => {
                out.push(if minus {
                    '-'
                } else {
                    '+'
                });
                let unit = power_of_ten(amount.scale);
                assert(amount.mantissa * self.multiplier <= 0xffff_ffff_ffff_ffff
                    * 0xffff_ffff_ffff_ffff) by (nonlinear_arith)
                    requires
                        amount.mantissa <= 0xffff_ffff_ffff_ffff,
                        self.multiplier <= 0xffff_ffff_ffff_ffff,
                ;
                let value = amount.mantissa as u128 * self.multiplier as u128;
                let whole = value / unit;
                let rest = value % unit;
                let shown = if rest >= unit - rest {
                    whole + 1
                } else {
                    whole
                };
                let ghost before = out@;
                push_decimal(&mut out, shown);
                out.push('%');
                assert(out@ =~= before + decimal_text(shown as nat) + seq!['%']);
            },
            ModifierFormat::Flat => {
                out.push(if minus {
                    '-'
                } else {
                    '+'
                });
                let unit = power_of_ten(amount.scale);
                assert(amount.mantissa * self.multiplier <= 0xffff_ffff_ffff_ffff
                    * 0xffff_ffff_ffff_ffff) by (nonlinear_arith)
                    requires
                        amount.mantissa <= 0xffff_ffff_ffff_ffff,
                        self.multiplier <= 0xffff_ffff_ffff_ffff,
                ;
                let value = amount.mantissa as u128 * self.multiplier as u128;
                let whole = value / unit;
                let rest = value % unit;
                let ghost before = out@;
                push_decimal(&mut out, whole);
                if rest != 0 {
                    out.push('.');
                    push_fraction(&mut out, rest, amount.scale);
                    assert(out@ =~= before + (decimal_text(whole as nat) + seq!['.']
                        + fraction_digits(rest as nat, amount.scale as nat)));
                }
            },
        }
        string_of(&out)
    }
}

fn is_inverted(id: &str) -> (yes: bool)
    ensures
        yes == inverted(id@),
{
    text_eq(id, "reduced_liberty_desire") || text_eq(
        id,
        "reduced_liberty_desire_on_same_continent",
    )
}

/// The descriptor of the modifier `id`, whatever the case of its letters.
pub open spec fn modifier_for(id: Seq<char>) -> Option<Modifier> {
    descriptor(lowercase_of(id))
}

/// Looks the descriptor of a raw modifier field up. The lookup ignores the
/// case of the field's name; an unknown field has no descriptor.
pub fn get_modifier(id: &String) -> (found: Option<Modifier>)
    ensures
        found == modifier_for(id@),
{
    let lower = lowercase(id.as_str());
    find_modifier(lower.as_str())
}

/// The lookup is insensitive to case: two names with the same lower-case
/// form have the same descriptor.
pub proof fn lemma_lookup_ignores_case(a: Seq<char>, b: Seq<char>)
    requires
        lowercase_of(a) == lowercase_of(b),
    ensures
        modifier_for(a) == modifier_for(b),
{
}

/// How a raw value reads under `modifier`: rendered where it is a numeral
/// that an amount can hold, and left as it stands otherwise.
pub open spec fn value_text(modifier: Modifier, value: Seq<char>) -> Seq<char> {
    match amount_of(value) {
        Some(amount) => readable(modifier, amount),
        None => value,
    }
}

/// The human-facing name of `modifier`, and the raw `value` as it reads
/// under it.
pub fn describe(modifier: Modifier, value: &str) -> (pair: (String, String))
    ensures
        pair.0@ == modifier.name@,
        pair.1@ == value_text(modifier, value@),
{
    let shown = match parse_amount(value) {
        Some(amount) => modifier.to_human_readable(amount),
        None => value.to_owned(),
    };
    (modifier.name.to_owned(), shown)
}

/// Localises a raw modifier entry, where the table knows the modifier.
pub fn try_localise_strings(description: &String, value: &String) -> (pair: Option<
    (String, String),
>)
    ensures
        pair is Some <==> modifier_for(description@) is Some,
        pair matches Some(p) ==> p.0@ == modifier_for(description@).unwrap().name@ && p.1@
            == value_text(modifier_for(description@).unwrap(), value@),
{
    match get_modifier(description) {
        Some(modifier) => Some(describe(modifier, value.as_str())),
        None => None,
    }
}

/// Localises a raw modifier entry: the human-facing name of the modifier,
/// and the value as it reads under it.
pub fn localise_strings(description: &String, value: &String) -> (pair: (String, String))
    requires
        modifier_for(description@) is Some,
    ensures
        pair.0@ == modifier_for(description@).unwrap().name@,
        pair.1@ == value_text(modifier_for(description@).unwrap(), value@),
{
    match try_localise_strings(description, value) {
        Some(pair) => pair,
        None => (description.clone(), value.clone()),
    }
}

/// The sign convention: an amount that is not zero reads with the opposite
/// sign under an inverted modifier, and zero reads with a plus under both.
pub proof fn lemma_inverted_flips_sign(plain_id: Seq<char>, inverted_id: Seq<char>, amount: Amount)
    requires
        !inverted(plain_id),
        inverted(inverted_id),
    ensures
        amount.mantissa > 0 ==> shown_negative(plain_id, amount) != shown_negative(
            inverted_id,
            amount,
        ),
        amount.mantissa > 0 ==> shown_negative(plain_id, amount) == amount.negative,
        amount.mantissa == 0 ==> !shown_negative(plain_id, amount) && !shown_negative(
            inverted_id,
            amount,
        ),
{
}

} // verus!
