//! Timestamps that a source gives as RFC 3339 text.

use vstd::prelude::*;
use crate::cell::{Cell, CellView, SemanticType};
use crate::mapper::{IntoRowError, IntoRowErrorView, slot_outcome_view};

verus! {

/// The seconds since the Unix epoch of the instant that `text` names in RFC
/// 3339 form, or `None` where `chrono` does not read `text` as such a date
/// and time.
pub uninterp spec fn rfc3339_seconds(text: Seq<char>) -> Option<i64>;

/// Reads an RFC 3339 date and time, by `chrono::DateTime::parse_from_rfc3339`
/// and, on the parsed value, `chrono::DateTime::timestamp`.
///
/// Trusted: the result depends on the characters of `text` alone. It is the
/// number of non-leap seconds from 1970-01-01 00:00:00 UTC to the parsed
/// instant, and `None` where the parser refuses the text.
#[verifier::external_body]
fn parse_rfc3339_seconds(text: &str) -> (seconds: Option<i64>)
    ensures
        seconds == rfc3339_seconds(text@),
{
    match chrono::DateTime::parse_from_rfc3339(text) {
        Ok(parsed) => Some(parsed.timestamp()),
        Err(_) => None,
    }
}

/// The slot of a timestamp column, given what reading the field's text
/// gave: the seconds, or the error that the value of `column` cannot be
/// read as a timestamp.
pub open spec fn timestamp_slot_spec(column: Seq<char>, seconds: Option<i64>) -> Result<
    Option<CellView>,
    IntoRowErrorView,
> {
    match seconds {
        Some(seconds) => Ok(Some(CellView::Timestamp(seconds))),
        None => Err(
            IntoRowErrorView::InvalidFieldValue { column, expected: SemanticType::Timestamp },
        ),
    }
}

/// The slot of the timestamp column `column`, given what reading the
/// field's text gave.
pub fn timestamp_slot(column: &str, seconds: Option<i64>) -> (outcome: Result<
    Option<Cell>,
    IntoRowError,
>)
    ensures
        slot_outcome_view(outcome) == timestamp_slot_spec(column@, seconds),
{
    match seconds {
        Some(seconds) => Ok(Some(Cell::Timestamp(seconds))),
        None => Err(
            IntoRowError::InvalidFieldValue {
                column: String::from_str(column),
                expected: SemanticType::Timestamp,
            },
        ),
    }
}

/// The slot of the timestamp column `column` for a field that holds `text`.
///
/// Text that is no RFC 3339 date and time is an error: it is never turned
/// into an empty slot.
pub fn timestamp_cell(column: &str, text: &str) -> (outcome: Result<Option<Cell>, IntoRowError>)
    ensures
        slot_outcome_view(outcome) == timestamp_slot_spec(column@, rfc3339_seconds(text@)),
{
    timestamp_slot(column, parse_rfc3339_seconds(text))
}

} // verus!
