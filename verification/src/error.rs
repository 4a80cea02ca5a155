//! The failures a request can end in, one variant per stage.

use crate::decimal::{decimal_text, format_unsigned};
use vstd::prelude::*;
use vstd::string::StringExecFns;

verus! {

/// Why a request gave no record.
#[derive(Debug, PartialEq, Eq)]
pub enum MyError {
    /// The transport failed: no reply at all (`status` is `None`), or a reply
    /// whose status is not a success.
    Transport { status: Option<u16> },
    /// The reply is not well-formed JSON; `line` and `column` say where the
    /// parser gave up, lines counted from one.
    JsonSyntax { line: usize, column: usize },
    /// A field could not be brought into its target shape. `field` is its wire
    /// name, `raw` the text it arrived as (empty where it was absent or not a
    /// scalar).
    Decode { field: String, raw: String },
}

/// The mathematical value of a [`MyError`].
pub enum ErrorView {
    Transport { status: Option<u16> },
    JsonSyntax { line: usize, column: usize },
    Decode { field: Seq<char>, raw: Seq<char> },
}

impl View for MyError {
    type V = ErrorView;

    open spec fn view(&self) -> ErrorView {
        match *self {
            MyError::Transport { status } => ErrorView::Transport { status },
            MyError::JsonSyntax { line, column } => ErrorView::JsonSyntax { line, column },
            MyError::Decode { field, raw } => ErrorView::Decode { field: field@, raw: raw@ },
        }
    }
}

/// The view of a result that fails with [`MyError`].
pub open spec fn outcome<T: View>(r: Result<T, MyError>) -> Result<T::V, ErrorView> {
    match r {
        Ok(v) => Ok(v@),
        Err(e) => Err(e@),
    }
}

/// Builds the error for `field` that arrived as `raw`.
pub fn decode_error(field: &str, raw: &str) -> (e: MyError)
    ensures
        e@ == (ErrorView::Decode { field: field@, raw: raw@ }),
{
    MyError::Decode { field: field.to_owned(), raw: raw.to_owned() }
}

/// What an error says of itself: the stage that failed, and for a decode
/// error the field and the text it arrived as.
pub open spec fn description(e: ErrorView) -> Seq<char> {
    match e {
        ErrorView::Transport { status: None } => "transport failure: no reply"@,
        ErrorView::Transport { status: Some(code) } => "transport failure: status "@ + decimal_text(
            code as nat,
        ),
        ErrorView::JsonSyntax { line, column } => "malformed JSON at line "@ + decimal_text(
            line as nat,
        ) + " column "@ + decimal_text(column as nat),
        ErrorView::Decode { field, raw } => "cannot decode field `"@ + field + "` from `"@ + raw
            + "`"@,
    }
}

impl MyError {
    /// Says which stage failed, and for a decode error which field.
    pub fn message(&self) -> (r: String)
        ensures
            r@ == description(self@),
    {
        match self {
            MyError::Transport { status: None } => String::from_str("transport failure: no reply"),
            MyError::Transport { status: Some(code) } => {
                let digits = format_unsigned(*code as u64);
                String::from_str("transport failure: status ").concat(digits.as_str())
            },
            MyError::JsonSyntax { line, column } => {
                let mut r = String::from_str("malformed JSON at line ");
                r.append(format_unsigned(*line as u64).as_str());
                r.append(" column ");
                r.append(format_unsigned(*column as u64).as_str());
                r
            },
            MyError::Decode { field, raw } => {
                let mut r = String::from_str("cannot decode field `");
                r.append(field.as_str());
                r.append("` from `");
                r.append(raw.as_str());
                r.append("`");
                r
            },
        }
    }
}

} // verus!
