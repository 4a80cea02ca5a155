//! Readers for one member of an object, one per shape that a field can
//! arrive in. Each either gives the field's value or fails with a decode
//! error that names the field and carries the text it arrived as.

use crate::coercion::{coerced_number, flag_from_text, from_bool_str, from_str};
use crate::date::{iso_date, Date, Ymd};
use crate::decimal::{digits_to_u64, parse_digits};
use crate::error::{decode_error, outcome, ErrorView, MyError};
use crate::json::{optional_view, Json, JsonView};
use vstd::prelude::*;

verus! {

/// The error for the field `name` that arrived as `found`, or not at all.
pub open spec fn mismatch(name: Seq<char>, found: Option<JsonView>) -> ErrorView {
    ErrorView::Decode {
        field: name,
        raw: match found {
            Some(value) => value.raw_text(),
            None => Seq::empty(),
        },
    }
}

/// The error for a document that is not the object a record is read from:
/// it names no field and carries the document's text.
pub open spec fn wrong_shape(doc: JsonView) -> ErrorView {
    mismatch(Seq::empty(), Some(doc))
}

/// A field that must arrive as a JSON string.
pub open spec fn text_field(doc: JsonView, name: Seq<char>) -> Result<Seq<char>, ErrorView> {
    match doc.member(name) {
        Some(JsonView::Text(text)) => Ok(text),
        found => Err(mismatch(name, found)),
    }
}

/// A field that must arrive as a JSON boolean.
pub open spec fn bool_field(doc: JsonView, name: Seq<char>) -> Result<bool, ErrorView> {
    match doc.member(name) {
        Some(JsonView::Bool(b)) => Ok(b),
        found => Err(mismatch(name, found)),
    }
}

/// A field that must arrive as a JSON number written in digits alone and no
/// greater than `u64::MAX`.
pub open spec fn count_field(doc: JsonView, name: Seq<char>) -> Result<u64, ErrorView> {
    match doc.member(name) {
        Some(JsonView::Number(text)) => match digits_to_u64(text) {
            Some(n) => Ok(n),
            None => Err(mismatch(name, doc.member(name))),
        },
        found => Err(mismatch(name, found)),
    }
}

/// A field that must arrive as a JSON number of any form; its decimal text
/// is kept as it is.
pub open spec fn decimal_field(doc: JsonView, name: Seq<char>) -> Result<Seq<char>, ErrorView> {
    match doc.member(name) {
        Some(JsonView::Number(text)) => Ok(text),
        found => Err(mismatch(name, found)),
    }
}

/// A number that arrives as a JSON string: absent it is zero, and so is the
/// empty string.
pub open spec fn number_text_field(doc: JsonView, name: Seq<char>) -> Result<u64, ErrorView> {
    match doc.member(name) {
        None => Ok(0u64),
        Some(JsonView::Text(text)) => coerced_number(name, text),
        found => Err(mismatch(name, found)),
    }
}

/// A boolean that arrives as a flag letter in a JSON string: absent it is
/// false, as the empty string is.
pub open spec fn letter_field(doc: JsonView, name: Seq<char>) -> Result<bool, ErrorView> {
    match doc.member(name) {
        None => Ok(false),
        Some(JsonView::Text(text)) => Ok(flag_from_text(text)),
        found => Err(mismatch(name, found)),
    }
}

/// What becomes of a date field whose text `raw` was read as `parsed`.
pub open spec fn settled_date(name: Seq<char>, raw: Seq<char>, parsed: Option<Ymd>) -> Result<
    Ymd,
    ErrorView,
> {
    match parsed {
        Some(date) => Ok(date),
        None => Err(ErrorView::Decode { field: name, raw }),
    }
}

/// A calendar date that arrives as a JSON string.
pub open spec fn date_field(doc: JsonView, name: Seq<char>) -> Result<Ymd, ErrorView> {
    match doc.member(name) {
        Some(JsonView::Text(text)) => settled_date(name, text, iso_date(text)),
        found => Err(mismatch(name, found)),
    }
}

impl Json {
    /// The text a scalar arrived as; empty for arrays and objects.
    pub fn raw_text(&self) -> (r: String)
        ensures
            r@ == self@.raw_text(),
    {
        match self {
            Json::Null => "null".to_owned(),
            Json::Bool(b) => if *b {
                "true".to_owned()
            } else {
                "false".to_owned()
            },
            Json::Number(text) => text.clone(),
            Json::Text(text) => text.clone(),
            _ => String::new(),
        }
    }
}

/// Builds the error for the field `name` that arrived as `found`.
pub fn field_error(name: &str, found: Option<&Json>) -> (e: MyError)
    ensures
        e@ == mismatch(name@, optional_view(found)),
{
    match found {
        Some(value) => {
            let raw = value.raw_text();
            decode_error(name, raw.as_str())
        },
        None => {
            proof {
                reveal_strlit("");
                assert(""@ =~= Seq::<char>::empty());
            }
            decode_error(name, "")
        },
    }
}

/// Builds the error for a document that is not the object a record is read
/// from.
pub fn shape_error(doc: &Json) -> (e: MyError)
    ensures
        e@ == wrong_shape(doc@),
{
    proof {
        reveal_strlit("");
        assert(""@ =~= Seq::<char>::empty());
    }
    field_error("", Some(doc))
}

/// Reads a field that must arrive as a JSON string.
pub fn read_text(doc: &Json, name: &str) -> (r: Result<String, MyError>)
    ensures
        outcome(r) == text_field(doc@, name@),
{
    let found = doc.member(name);
    match found {
        Some(Json::Text(text)) => Ok(text.clone()),
        _ => Err(field_error(name, found)),
    }
}

/// Reads a field that must arrive as a JSON boolean.
pub fn read_bool(doc: &Json, name: &str) -> (r: Result<bool, MyError>)
    ensures
        outcome(r) == bool_field(doc@, name@),
{
    let found = doc.member(name);
    match found {
        Some(Json::Bool(b)) => Ok(*b),
        _ => Err(field_error(name, found)),
    }
}

/// Reads a field that must arrive as a JSON number within `u64`.
pub fn read_count(doc: &Json, name: &str) -> (r: Result<u64, MyError>)
    ensures
        outcome(r) == count_field(doc@, name@),
{
    let found = doc.member(name);
    match found {
        Some(Json::Number(text)) => match parse_digits(text.as_str()) {
            Some(n) => Ok(n),
            None => Err(field_error(name, found)),
        },
        _ => Err(field_error(name, found)),
    }
}

/// Reads a field that must arrive as a JSON number, keeping its text.
pub fn read_decimal(doc: &Json, name: &str) -> (r: Result<String, MyError>)
    ensures
        outcome(r) == decimal_field(doc@, name@),
{
    let found = doc.member(name);
    match found {
        Some(Json::Number(text)) => Ok(text.clone()),
        _ => Err(field_error(name, found)),
    }
}

/// Reads a number that arrives as a JSON string; absent or empty it is zero.
pub fn read_number_text(doc: &Json, name: &str) -> (r: Result<u64, MyError>)
    ensures
        outcome(r) == number_text_field(doc@, name@),
{
    let found = doc.member(name);
    match found {
        None => Ok(0),
        Some(Json::Text(text)) => from_str::<u64>(name, text.as_str()),
        _ => Err(field_error(name, found)),
    }
}

/// Reads a boolean that arrives as a flag letter; absent it is false.
pub fn read_letter(doc: &Json, name: &str) -> (r: Result<bool, MyError>)
    ensures
        outcome(r) == letter_field(doc@, name@),
{
    let found = doc.member(name);
    match found {
        None => Ok(false),
        Some(Json::Text(text)) => Ok(from_bool_str(text.as_str())),
        _ => Err(field_error(name, found)),
    }
}

/// Decides what becomes of a date field once its text has been read:
/// the date, or a decode error that names the field and carries the text.
pub fn settle_date(name: &str, raw: &str, parsed: Option<Date>) -> (r: Result<Date, MyError>)
    ensures
        outcome(r) == settled_date(
            name@,
            raw@,
            match parsed {
                Some(date) => Some(date@),
                None => None,
            },
        ),
{
    match parsed {
        Some(date) => Ok(date),
        None => Err(decode_error(name, raw)),
    }
}

/// Reads a calendar date that arrives as a JSON string.
pub fn read_date(doc: &Json, name: &str) -> (r: Result<Date, MyError>)
    ensures
        outcome(r) == date_field(doc@, name@),
{
    let found = doc.member(name);
    match found {
        Some(Json::Text(text)) => {
            let parsed = Date::parse(text.as_str());
            settle_date(name, text.as_str(), parsed)
        },
        _ => Err(field_error(name, found)),
    }
}

} // verus!
