//! Tolerant readers for the service's irregular scalar encodings: numbers
//! sent as text, and booleans sent as single-letter flags.

use crate::decimal::{
    decimal_text, integer_from_text, lemma_decimal_round_trip, lemma_decimal_text_value,
    parse_signed_within, parse_unsigned_within,
};
use crate::error::{decode_error, ErrorView, MyError};
use vstd::prelude::*;

verus! {

broadcast use vstd::string::group_string_axioms;

/// An integer type that a string-encoded number can decode to.
pub trait Numeric: Sized {
    /// The integer that a value of the type stands for.
    spec fn value(&self) -> int;

    /// True for a type that holds negative numbers.
    spec fn signed() -> bool;

    /// The least number of the type.
    spec fn least() -> int;

    /// The greatest number of the type.
    spec fn greatest() -> int;

    /// Reads `text` as the type's standard text parser does.
    fn parse(text: &str) -> (r: Option<Self>)
        ensures
            match r {
                Some(n) => integer_from_text(
                    text@,
                    Self::signed(),
                    Self::least(),
                    Self::greatest(),
                ) == Some(n.value()),
                None => integer_from_text(text@, Self::signed(), Self::least(), Self::greatest())
                    is None,
            },
    ;

    /// The zero of the type.
    fn zero() -> (r: Self)
        ensures
            r.value() == 0,
    ;
}

impl Numeric for u8 {
    open spec fn value(&self) -> int {
        *self as int
    }

    open spec fn signed() -> bool {
        false
    }

    open spec fn least() -> int {
        0
    }

    open spec fn greatest() -> int {
        u8::MAX as int
    }

    fn parse(text: &str) -> (r: Option<u8>) {
        match parse_unsigned_within(text, u8::MAX as u64) {
            Some(n) => Some(n as u8),
            None => None,
        }
    }

    fn zero() -> (r: u8) {
        0
    }
}

impl Numeric for u16 {
    open spec fn value(&self) -> int {
        *self as int
    }

    open spec fn signed() -> bool {
        false
    }

    open spec fn least() -> int {
        0
    }

    open spec fn greatest() -> int {
        u16::MAX as int
    }

    fn parse(text: &str) -> (r: Option<u16>) {
        match parse_unsigned_within(text, u16::MAX as u64) {
            Some(n) => Some(n as u16),
            None => None,
        }
    }

    fn zero() -> (r: u16) {
        0
    }
}

impl Numeric for u32 {
    open spec fn value(&self) -> int {
        *self as int
    }

    open spec fn signed() -> bool {
        false
    }

    open spec fn least() -> int {
        0
    }

    open spec fn greatest() -> int {
        u32::MAX as int
    }

    fn parse(text: &str) -> (r: Option<u32>) {
        match parse_unsigned_within(text, u32::MAX as u64) {
            Some(n) => Some(n as u32),
            None => None,
        }
    }

    fn zero() -> (r: u32) {
        0
    }
}

impl Numeric for u64 {
    open spec fn value(&self) -> int {
        *self as int
    }

    open spec fn signed() -> bool {
        false
    }

    open spec fn least() -> int {
        0
    }

    open spec fn greatest() -> int {
        u64::MAX as int
    }

    fn parse(text: &str) -> (r: Option<u64>) {
        match parse_unsigned_within(text, u64::MAX as u64) {
            Some(n) => Some(n as u64),
            None => None,
        }
    }

    fn zero() -> (r: u64) {
        0
    }
}

impl Numeric for usize {
    open spec fn value(&self) -> int {
        *self as int
    }

    open spec fn signed() -> bool {
        false
    }

    open spec fn least() -> int {
        0
    }

    open spec fn greatest() -> int {
        usize::MAX as int
    }

    fn parse(text: &str) -> (r: Option<usize>) {
        match parse_unsigned_within(text, usize::MAX as u64) {
            Some(n) => Some(n as usize),
            None => None,
        }
    }

    fn zero() -> (r: usize) {
        0
    }
}

impl Numeric for i8 {
    open spec fn value(&self) -> int {
        *self as int
    }

    open spec fn signed() -> bool {
        true
    }

    open spec fn least() -> int {
        i8::MIN as int
    }

    open spec fn greatest() -> int {
        i8::MAX as int
    }

    fn parse(text: &str) -> (r: Option<i8>) {
        match parse_signed_within(text, i8::MIN as i64, i8::MAX as i64) {
            Some(n) => Some(n as i8),
            None => None,
        }
    }

    fn zero() -> (r: i8) {
        0
    }
}

impl Numeric for i16 {
    open spec fn value(&self) -> int {
        *self as int
    }

    open spec fn signed() -> bool {
        true
    }

    open spec fn least() -> int {
        i16::MIN as int
    }

    open spec fn greatest() -> int {
        i16::MAX as int
    }

    fn parse(text: &str) -> (r: Option<i16>) {
        match parse_signed_within(text, i16::MIN as i64, i16::MAX as i64) {
            Some(n) => Some(n as i16),
            None => None,
        }
    }

    fn zero() -> (r: i16) {
        0
    }
}

impl Numeric for i32 {
    open spec fn value(&self) -> int {
        *self as int
    }

    open spec fn signed() -> bool {
        true
    }

    open spec fn least() -> int {
        i32::MIN as int
    }

    open spec fn greatest() -> int {
        i32::MAX as int
    }

    fn parse(text: &str) -> (r: Option<i32>) {
        match parse_signed_within(text, i32::MIN as i64, i32::MAX as i64) {
            Some(n) => Some(n as i32),
            None => None,
        }
    }

    fn zero() -> (r: i32) {
        0
    }
}

impl Numeric for i64 {
    open spec fn value(&self) -> int {
        *self as int
    }

    open spec fn signed() -> bool {
        true
    }

    open spec fn least() -> int {
        i64::MIN as int
    }

    open spec fn greatest() -> int {
        i64::MAX as int
    }

    fn parse(text: &str) -> (r: Option<i64>) {
        match parse_signed_within(text, i64::MIN as i64, i64::MAX as i64) {
            Some(n) => Some(n as i64),
            None => None,
        }
    }

    fn zero() -> (r: i64) {
        0
    }
}

impl Numeric for isize {
    open spec fn value(&self) -> int {
        *self as int
    }

    open spec fn signed() -> bool {
        true
    }

    open spec fn least() -> int {
        isize::MIN as int
    }

    open spec fn greatest() -> int {
        isize::MAX as int
    }

    fn parse(text: &str) -> (r: Option<isize>) {
        match parse_signed_within(text, isize::MIN as i64, isize::MAX as i64) {
            Some(n) => Some(n as isize),
            None => None,
        }
    }

    fn zero() -> (r: isize) {
        0
    }
}

/// What a string-encoded number decodes to, for a type that holds `min` to
/// `max`: the empty text stands for zero, any other text goes through the
/// type's standard parser.
pub open spec fn number_from_text(raw: Seq<char>, signed: bool, min: int, max: int) -> Option<int> {
    if raw.len() == 0 {
        Some(0int)
    } else {
        integer_from_text(raw, signed, min, max)
    }
}

/// The result of decoding the string-encoded number `raw` of the field
/// `field` as a `u64`.
pub open spec fn coerced_number(field: Seq<char>, raw: Seq<char>) -> Result<u64, ErrorView> {
    match number_from_text(raw, false, 0, u64::MAX as int) {
        Some(n) => Ok(n as u64),
        None => Err(ErrorView::Decode { field, raw }),
    }
}

/// Decodes a number that the service sent as text. The empty text is zero;
/// text that the parser of the target type refuses fails with a decode
/// error that names the field and carries the text.
pub fn from_str<T: Numeric>(field: &str, raw: &str) -> (r: Result<T, MyError>)
    ensures
        match r {
            Ok(n) => number_from_text(raw@, T::signed(), T::least(), T::greatest()) == Some(
                n.value(),
            ),
            Err(e) => number_from_text(raw@, T::signed(), T::least(), T::greatest()) is None
                && e@ == (ErrorView::Decode { field: field@, raw: raw@ }),
        },
{
    if raw.is_empty() {
        return Ok(T::zero());
    }
    match T::parse(raw) {
        Some(n) => Ok(n),
        None => Err(decode_error(field, raw)),
    }
}

/// What a flag letter decodes to: `N`, `F` and the empty text are false,
/// every other text is true.
pub open spec fn flag_from_text(raw: Seq<char>) -> bool {
    !(raw == seq!['N'] || raw == seq!['F'] || raw.len() == 0)
}

/// Decodes a boolean that the service sent as a flag letter. Never fails.
pub fn from_bool_str(raw: &str) -> (b: bool)
    ensures
        b == flag_from_text(raw@),
{
    let mut it = raw.chars();
    match it.next() {
        None => false,
        Some(c) => match it.next() {
            None => {
                proof {
                    assert(raw@ =~= seq![c]);
                    assert(seq!['N'][0] == 'N' && seq!['F'][0] == 'F');
                }
                !(c == 'N' || c == 'F')
            },
            Some(_) => {
                proof {
                    assert(raw@.len() >= 2);
                    assert(seq!['N'].len() == 1 && seq!['F'].len() == 1);
                }
                true
            },
        },
    }
}

/// The letter that a flag is written as: `Y` for true, `N` for false.
pub open spec fn flag_text(b: bool) -> Seq<char> {
    if b {
        seq!['Y']
    } else {
        seq!['N']
    }
}

/// Writes a boolean as its flag letter.
pub fn flag_letter(b: bool) -> (r: &'static str)
    ensures
        r@ == flag_text(b),
{
    proof {
        reveal_strlit("Y");
        reveal_strlit("N");
    }
    let r = if b {
        "Y"
    } else {
        "N"
    };
    assert(r@ =~= flag_text(b));
    r
}

/// A flag letter is read back as the boolean it was written for.
pub proof fn lemma_flag_round_trip(b: bool)
    ensures
        flag_from_text(flag_text(b)) == b,
{
    assert(seq!['Y'][0] != seq!['N'][0]);
    assert(seq!['Y'][0] != seq!['F'][0]);
    assert(seq!['Y'].len() == 1 && seq!['N'].len() == 1);
}

/// The numeral of a number is read back as that number, by every type that
/// holds it.
pub proof fn lemma_number_round_trip(n: u64)
    ensures
        forall|field: Seq<char>| #[trigger]
            coerced_number(field, decimal_text(n as nat)) == Ok::<u64, ErrorView>(n),
        forall|signed: bool, min: int, max: int|
            min <= n <= max ==> #[trigger] number_from_text(
                decimal_text(n as nat),
                signed,
                min,
                max,
            ) == Some(n as int),
{
    lemma_decimal_round_trip(n);
    lemma_decimal_text_value(n as nat);
}

} // verus!
