//! Decimal numerals: what a run of digits denotes, how it is read, and how a
//! number is written.

use vstd::prelude::*;
use vstd::std_specs::iter::IteratorSpec;
use vstd::string::StringExecFns;

verus! {

broadcast use vstd::string::group_string_axioms;

/// True for the ten ASCII decimal digits.
pub open spec fn is_digit(c: char) -> bool {
    '0' <= c && c <= '9'
}

/// The number a decimal digit stands for.
pub open spec fn digit_value(c: char) -> nat {
    (c as u32 - '0' as u32) as nat
}

/// True when every character of `s` is a decimal digit.
pub open spec fn all_digits(s: Seq<char>) -> bool {
    forall|i: int| 0 <= i < s.len() ==> is_digit(#[trigger] s[i])
}

/// The number that the digit string `s` denotes in base ten.
pub open spec fn decimal_value(s: Seq<char>) -> nat
    decreases s.len(),
{
    if s.len() == 0 {
        0
    } else {
        decimal_value(s.drop_last()) * 10 + digit_value(s.last())
    }
}

/// What a run of digits denotes as a `u64`: `None` when `s` is empty, holds
/// anything but digits, or denotes a number above `u64::MAX`.
pub open spec fn digits_to_u64(s: Seq<char>) -> Option<u64> {
    if s.len() > 0 && all_digits(s) && decimal_value(s) <= u64::MAX {
        Some(decimal_value(s) as u64)
    } else {
        None
    }
}

/// True when `s` starts with a sign that the reader sets aside: a `+` where
/// `plus` allows one, a `-` where `minus` does.
pub open spec fn has_sign(s: Seq<char>, plus: bool, minus: bool) -> bool {
    s.len() > 0 && ((plus && s[0] == '+') || (minus && s[0] == '-'))
}

/// The digits of `s`, once a leading sign is set aside.
pub open spec fn digit_part(s: Seq<char>, plus: bool, minus: bool) -> Seq<char> {
    if has_sign(s, plus, minus) {
        s.skip(1)
    } else {
        s
    }
}

/// True when `s` starts with a `-` and `minus` allows one.
pub open spec fn is_negative(s: Seq<char>, minus: bool) -> bool {
    minus && s.len() > 0 && s[0] == '-'
}

/// What the standard text parser of an integer type makes of `s`, for a type
/// that holds `min` to `max`: an optional `+`, or for a signed type an
/// optional `-`, then a non-empty run of digits that denotes a number of the
/// type.
pub open spec fn integer_from_text(s: Seq<char>, signed: bool, min: int, max: int) -> Option<int> {
    let digits = digit_part(s, true, signed);
    let value = if is_negative(s, signed) {
        -(decimal_value(digits) as int)
    } else {
        decimal_value(digits) as int
    };
    if digits.len() > 0 && all_digits(digits) && min <= value <= max {
        Some(value)
    } else {
        None
    }
}

/// A digit string denotes at least what any of its prefixes denotes.
pub proof fn lemma_decimal_value_prefix(s: Seq<char>, k: int)
    requires
        0 <= k <= s.len(),
    ensures
        decimal_value(s.take(k)) <= decimal_value(s),
    decreases s.len() - k,
{
    if k == s.len() {
        assert(s.take(k) =~= s);
    } else {
        lemma_decimal_value_prefix(s.drop_last(), k);
        assert(s.drop_last().take(k) =~= s.take(k));
    }
}

/// What scanning `s` gives: whether a `-` was set aside, and what the digits
/// denote; `None` where the digits are none, are not all digits, or denote a
/// number above `u64::MAX`.
pub open spec fn scanned(s: Seq<char>, plus: bool, minus: bool) -> Option<(bool, u64)> {
    match digits_to_u64(digit_part(s, plus, minus)) {
        Some(magnitude) => Some((is_negative(s, minus), magnitude)),
        None => None,
    }
}

/// Scans an optional sign and a run of digits.
pub fn scan(s: &str, plus: bool, minus: bool) -> (r: Option<(bool, u64)>)
    ensures
        r == scanned(s@, plus, minus),
{
    let mut it = s.chars();
    let mut negative = false;
    let mut probe = s.chars();
    match probe.next() {
        Some(c) => {
            if (plus && c == '+') || (minus && c == '-') {
                negative = c == '-';
                it = probe;
            }
        },
        None => {},
    }
    let ghost body = digit_part(s@, plus, minus);
    let ghost mut seen: int = 0;
    let mut acc: u64 = 0;
    let mut any: bool = false;
    proof {
        assert(body.skip(0) =~= body);
    }
    loop
        invariant
            body == digit_part(s@, plus, minus),
            negative == is_negative(s@, minus),
            0 <= seen <= body.len(),
            it.remaining() == body.skip(seen),
            any == (seen > 0),
            all_digits(body.take(seen)),
            acc == decimal_value(body.take(seen)),
        decreases body.len() - seen,
    {
        match it.next() {
            None => {
                proof {
                    assert(body.take(seen) =~= body);
                }
                return if any {
                    Some((negative, acc))
                } else {
                    None
                };
            },
            Some(c) => {
                proof {
                    assert(c == body[seen]);
                    assert(body.skip(seen).drop_first() =~= body.skip(seen + 1));
                    assert(body.take(seen + 1).drop_last() =~= body.take(seen));
                    assert(body.take(seen + 1).last() == c);
                }
                if c < '0' || c > '9' {
                    return None;
                }
                let d: u64 = (c as u32 - '0' as u32) as u64;
                if acc > (u64::MAX - d) / 10 {
                    proof {
                        lemma_decimal_value_prefix(body, seen + 1);
                    }
                    return None;
                }
                acc = acc * 10 + d;
                any = true;
                proof {
                    seen = seen + 1;
                }
            },
        }
    }
}

/// Reads a run of decimal digits as a `u64`.
pub fn parse_digits(s: &str) -> (r: Option<u64>)
    ensures
        r == digits_to_u64(s@),
{
    match scan(s, false, false) {
        Some(found) => Some(found.1),
        None => None,
    }
}

/// The view of an optional `u64` as an optional integer.
pub open spec fn wide(r: Option<u64>) -> Option<int> {
    match r {
        Some(n) => Some(n as int),
        None => None,
    }
}

/// The view of an optional `i64` as an optional integer.
pub open spec fn wide_signed(r: Option<i64>) -> Option<int> {
    match r {
        Some(n) => Some(n as int),
        None => None,
    }
}

/// Reads `s` as the standard parser of an unsigned type does that holds
/// zero to `max`.
pub fn parse_unsigned_within(s: &str, max: u64) -> (r: Option<u64>)
    ensures
        wide(r) == integer_from_text(s@, false, 0, max as int),
{
    match scan(s, true, false) {
        Some(found) => {
            if found.1 <= max {
                Some(found.1)
            } else {
                None
            }
        },
        None => None,
    }
}

/// Reads `s` as the standard parser of a signed type does that holds `min`
/// to `max`.
pub fn parse_signed_within(s: &str, min: i64, max: i64) -> (r: Option<i64>)
    ensures
        wide_signed(r) == integer_from_text(s@, true, min as int, max as int),
{
    match scan(s, true, true) {
        Some(found) => {
            let (negative, magnitude) = found;
            if negative {
                if magnitude > 0x8000_0000_0000_0000 {
                    None
                } else {
                    let value: i64 = if magnitude == 0x8000_0000_0000_0000 {
                        i64::MIN
                    } else {
                        -(magnitude as i64)
                    };
                    if min <= value && value <= max {
                        Some(value)
                    } else {
                        None
                    }
                }
            } else {
                if magnitude > 0x7fff_ffff_ffff_ffff {
                    None
                } else {
                    let value: i64 = magnitude as i64;
                    if min <= value && value <= max {
                        Some(value)
                    } else {
                        None
                    }
                }
            }
        },
        None => None,
    }
}

/// The character that writes the digit `d`.
pub open spec fn digit_char(d: nat) -> char {
    if d == 0 {
        '0'
    } else if d == 1 {
        '1'
    } else if d == 2 {
        '2'
    } else if d == 3 {
        '3'
    } else if d == 4 {
        '4'
    } else if d == 5 {
        '5'
    } else if d == 6 {
        '6'
    } else if d == 7 {
        '7'
    } else if d == 8 {
        '8'
    } else {
        '9'
    }
}

/// The shortest decimal numeral of `n`: no sign, and no leading zero but for
/// zero itself.
pub open spec fn decimal_text(n: nat) -> Seq<char>
    decreases n,
{
    if n < 10 {
        seq![digit_char(n)]
    } else {
        decimal_text(n / 10).push(digit_char(n % 10))
    }
}

/// A numeral is a non-empty run of digits that denotes the number it was
/// written for.
pub proof fn lemma_decimal_text_value(n: nat)
    ensures
        decimal_text(n).len() > 0,
        all_digits(decimal_text(n)),
        decimal_value(decimal_text(n)) == n,
    decreases n,
{
    let t = decimal_text(n);
    if n < 10 {
        assert(t.drop_last() =~= Seq::<char>::empty());
        assert(decimal_value(t.drop_last()) == 0);
        assert(t.last() == digit_char(n));
    } else {
        lemma_decimal_text_value(n / 10);
        assert(t.drop_last() =~= decimal_text(n / 10));
        assert(t.last() == digit_char(n % 10));
    }
}

/// Reading the numeral of a number gives the number back: as a run of
/// digits, and with the parser of any integer type that holds the number.
pub proof fn lemma_decimal_round_trip(n: u64)
    ensures
        digits_to_u64(decimal_text(n as nat)) == Some(n),
        forall|signed: bool, min: int, max: int|
            min <= n <= max ==> #[trigger] integer_from_text(
                decimal_text(n as nat),
                signed,
                min,
                max,
            ) == Some(n as int),
{
    lemma_decimal_text_value(n as nat);
    assert(is_digit(decimal_text(n as nat)[0]));
}

/// The one-character text of the digit `d`.
fn digit_str(d: u64) -> (r: &'static str)
    requires
        d < 10,
    ensures
        r@ == seq![digit_char(d as nat)],
{
    proof {
        reveal_strlit("0");
        reveal_strlit("1");
        reveal_strlit("2");
        reveal_strlit("3");
        reveal_strlit("4");
        reveal_strlit("5");
        reveal_strlit("6");
        reveal_strlit("7");
        reveal_strlit("8");
        reveal_strlit("9");
    }
    let r = if d == 0 {
        "0"
    } else if d == 1 {
        "1"
    } else if d == 2 {
        "2"
    } else if d == 3 {
        "3"
    } else if d == 4 {
        "4"
    } else if d == 5 {
        "5"
    } else if d == 6 {
        "6"
    } else if d == 7 {
        "7"
    } else if d == 8 {
        "8"
    } else {
        "9"
    };
    assert(r@ =~= seq![digit_char(d as nat)]);
    r
}

/// Writes `n` as its shortest decimal numeral.
pub fn format_unsigned(n: u64) -> (r: String)
    ensures
        r@ == decimal_text(n as nat),
    decreases n,
{
    if n < 10 {
        String::from_str(digit_str(n))
    } else {
        let mut r = format_unsigned(n / 10);
        r.append(digit_str(n % 10));
        assert(r@ =~= decimal_text(n as nat));
        r
    }
}

} // verus!
