use vstd::prelude::*;
use vstd::string::*;
use crate::trusted::{push_char, regex_accepts, regex_compiles, regex_is_match};

verus! {

/// A phone number: an optional `+` and then 10 to 15 digits.
pub const PHONE_PATTERN: &'static str = r"^\+?[0-9]{10,15}$";

/// A name: 2 to 50 letters, whitespace, hyphens, apostrophes and dots.
pub const NAME_PATTERN: &'static str = r"^[a-zA-Z\s\-'.]{2,50}$";

/// The largest amount a single operation may name, in minor units.
pub const MAX_AMOUNT: i32 = 1_000_000;

/// The longest validity period of a card, in days.
pub const MAX_EXPIRATION_DAYS: i32 = 1825;

/// Whether `phone` has the form of a phone number.
pub fn validate_phone(phone: &str) -> (r: bool)
    ensures
        r == (regex_compiles(PHONE_PATTERN@) && regex_accepts(PHONE_PATTERN@, phone@)),
{
    match regex_is_match(PHONE_PATTERN, phone) {
        Some(b) => b,
        None => false,
    }
}

/// Whether `name` has the form of a person's name.
pub fn validate_name(name: &str) -> (r: bool)
    ensures
        r == (regex_compiles(NAME_PATTERN@) && regex_accepts(NAME_PATTERN@, name@)),
{
    match regex_is_match(NAME_PATTERN, name) {
        Some(b) => b,
        None => false,
    }
}

/// Whether an amount in minor units is positive and at most the limit.
pub fn validate_amount(amount: i32) -> (r: bool)
    ensures
        r == (0 < amount <= MAX_AMOUNT),
{
    amount > 0 && amount <= MAX_AMOUNT
}

/// Whether a validity period lies between one day and five years.
pub fn validate_expiration_days(days: i32) -> (r: bool)
    ensures
        r == (0 < days <= MAX_EXPIRATION_DAYS),
{
    days > 0 && days <= MAX_EXPIRATION_DAYS
}

/// Whether `c` is one of the ASCII digits.
pub open spec fn is_digit(c: char) -> bool {
    '0' <= c <= '9'
}

/// The ASCII digits of `s`, in order.
pub open spec fn digits_of(s: Seq<char>) -> Seq<char>
    decreases s.len(),
{
    if s.len() == 0 {
        s
    } else if is_digit(s.last()) {
        digits_of(s.drop_last()).push(s.last())
    } else {
        digits_of(s.drop_last())
    }
}

/// How a phone number is displayed: ten digits as `(ddd) ddd-dddd`, eleven
/// digits starting with 1 as `+1 (ddd) ddd-dddd`, anything else as given.
pub open spec fn phone_display(phone: Seq<char>) -> Seq<char> {
    let d = digits_of(phone);
    if d.len() == 10 {
        "("@ + d.subrange(0, 3) + ") "@ + d.subrange(3, 6) + "-"@ + d.subrange(6, 10)
    } else if d.len() == 11 && d[0] == '1' {
        "+1 ("@ + d.subrange(1, 4) + ") "@ + d.subrange(4, 7) + "-"@ + d.subrange(7, 11)
    } else {
        phone
    }
}

/// The ASCII digits of `s`.
fn ascii_digits(s: &str) -> (r: String)
    ensures
        r@ == digits_of(s@),
{
    let n = s.unicode_len();
    let mut out = String::new();
    let mut i: usize = 0;
    while i < n
        invariant
            n == s@.len(),
            0 <= i <= n,
            out@ == digits_of(s@.take(i as int)),
        decreases n - i,
    {
        let c = s.get_char(i);
        assert(s@.take(i as int + 1).drop_last() =~= s@.take(i as int));
        if '0' <= c && c <= '9' {
            push_char(&mut out, c);
        }
        i = i + 1;
    }
    assert(s@.take(n as int) =~= s@);
    out
}

/// Formats a phone number for display.
pub fn format_phone_for_display(phone: &str) -> (r: String)
    ensures
        r@ == phone_display(phone@),
{
    let digits = ascii_digits(phone);
    let d = digits.as_str();
    let n = d.unicode_len();
    if n == 10 {
        let mut out = String::from_str("(");
        out.append(d.substring_char(0, 3));
        out.append(") ");
        out.append(d.substring_char(3, 6));
        out.append("-");
        out.append(d.substring_char(6, 10));
        out
    } else if n == 11 && d.get_char(0) == '1' {
        let mut out = String::from_str("+1 (");
        out.append(d.substring_char(1, 4));
        out.append(") ");
        out.append(d.substring_char(4, 7));
        out.append("-");
        out.append(d.substring_char(7, 11));
        out
    } else {
        String::from_str(phone)
    }
}

/// The character of a decimal digit.
pub open spec fn digit_char(d: int) -> char {
    if d == 0 {
        '0'
    } else if d == 1 {
        '1'
    } else if d == 2 {
        '2'
    } else if d == 3 {
        '3'
    } else if d == 4 {
        '4'
    } else if d == 5 {
        '5'
    } else if d == 6 {
        '6'
    } else if d == 7 {
        '7'
    } else if d == 8 {
        '8'
    } else {
        '9'
    }
}

/// The decimal numeral of `n`, without leading zeros.
pub open spec fn decimal(n: nat) -> Seq<char>
    decreases n,
{
    if n < 10 {
        seq![digit_char(n as int)]
    } else {
        decimal(n / 10).push(digit_char((n % 10) as int))
    }
}

/// An amount of cents shown as dollars with two decimals, the sign after
/// the dollar sign: `$12.34`, `$-0.05`.
pub open spec fn money_text(cents: int) -> Seq<char> {
    let a = if cents < 0 {
        -cents
    } else {
        cents
    };
    let sign = if cents < 0 {
        "-"@
    } else {
        Seq::<char>::empty()
    };
    "$"@ + sign + decimal((a / 100) as nat) + "."@ + seq![digit_char((a % 100) / 10), digit_char(a % 10)]
}

fn digit(d: u64) -> (r: char)
    requires
        d < 10,
    ensures
        r == digit_char(d as int),
{
    if d == 0 {
        '0'
    } else if d == 1 {
        '1'
    } else if d == 2 {
        '2'
    } else if d == 3 {
        '3'
    } else if d == 4 {
        '4'
    } else if d == 5 {
        '5'
    } else if d == 6 {
        '6'
    } else if d == 7 {
        '7'
    } else if d == 8 {
        '8'
    } else {
        '9'
    }
}

/// Appends the decimal numeral of `n`.
fn push_decimal(s: &mut String, n: u64)
    ensures
        final(s)@ == old(s)@ + decimal(n as nat),
    decreases n,
{
    if n >= 10 {
        push_decimal(s, n / 10);
    }
    push_char(s, digit(n % 10));
    assert(final(s)@ =~= old(s)@ + decimal(n as nat));
}

/// Formats an amount of cents as dollars.
pub fn format_money(amount_cents: i32) -> (r: String)
    ensures
        r@ == money_text(amount_cents as int),
{
    let a: u64 = if amount_cents < 0 {
        (-(amount_cents as i64)) as u64
    } else {
        amount_cents as u64
    };
    let mut out = String::from_str("$");
    if amount_cents < 0 {
        out.append("-");
    }
    push_decimal(&mut out, a / 100);
    out.append(".");
    push_char(&mut out, digit((a % 100) / 10));
    push_char(&mut out, digit(a % 10));
    proof {
        let sign = if amount_cents < 0 {
            "-"@
        } else {
            Seq::<char>::empty()
        };
        assert(sign + Seq::<char>::empty() =~= sign);
        assert(out@ =~= money_text(amount_cents as int));
    }
    out
}

} // verus!
