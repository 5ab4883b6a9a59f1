//! The failures of a scan, by kind.
//!
//! What can be known from the declaration alone is found when a scan
//! begins, before anything is fetched: a missing option, a column that the
//! connector does not offer or offers with another type. What is found
//! while rows are pulled ends the scan: a fetch that failed, a record that
//! cannot be made into a row. The rows handed out before stand. Reaching
//! the end of the source is no failure.

use vstd::prelude::*;
use crate::cursor::ClientError;
use crate::mapper::{IntoRowError, IntoRowErrorView};
use crate::options::OptionsError;
use crate::schema::{SchemaError, SchemaErrorView};
use crate::session::SessionState;
use crate::text::{append_decimal, decimal_text};

verus! {

/// The kind of a failure.
#[derive(Clone, Copy, Debug, PartialEq, Eq, Structural)]
pub enum ErrorKind {
    /// A required option is missing.
    Configuration,
    /// The column list does not fit the connector.
    Schema,
    /// A fetch failed.
    Client,
    /// A record could not be made into a row.
    Mapping,
    /// A call came in a state of the session in which it is not valid.
    Protocol,
}

/// A failure of a scan.
#[derive(Debug, PartialEq, Eq)]
pub enum ScanError {
    Configuration(OptionsError),
    Schema(SchemaError),
    /// A fetch failed after `index` rows had been handed out.
    Client { index: u64, error: ClientError },
    /// The record that follows the first `index` rows could not be mapped.
    Mapping { index: u64, cause: IntoRowError },
    /// The session was in the state `found`, in which the call is not valid.
    InvalidState { found: SessionState },
}

/// The mathematical value of a [`ScanError`].
pub enum ScanErrorView {
    /// By the name of the missing option.
    Configuration(Seq<char>),
    Schema(SchemaErrorView),
    Client { index: u64, error: ClientError },
    Mapping { index: u64, cause: IntoRowErrorView },
    InvalidState { found: SessionState },
}

impl View for ScanError {
    type V = ScanErrorView;

    open spec fn view(&self) -> ScanErrorView {
        match self {
            ScanError::Configuration(error) => ScanErrorView::Configuration(
                error.spec_option_name(),
            ),
            ScanError::Schema(error) => ScanErrorView::Schema(error@),
            ScanError::Client { index, error } => ScanErrorView::Client {
                index: *index,
                error: *error,
            },
            ScanError::Mapping { index, cause } => ScanErrorView::Mapping {
                index: *index,
                cause: cause@,
            },
            ScanError::InvalidState { found } => ScanErrorView::InvalidState { found: *found },
        }
    }
}

/// The code under which the host engine files a failure.
#[derive(Clone, Copy, Debug, PartialEq, Eq, Structural)]
pub enum ErrorCode {
    /// A failure of a foreign data wrapper, without a class of its own.
    FdwError,
    /// A foreign data wrapper did not find an option.
    FdwOptionNameNotFound,
}

/// What the host engine is told of a failure.
#[derive(Debug, PartialEq, Eq)]
pub struct ErrorReport {
    pub code: ErrorCode,
    pub message: String,
}

/// The mathematical value of an [`ErrorReport`].
pub struct ErrorReportView {
    pub code: ErrorCode,
    pub message: Seq<char>,
}

impl View for ErrorReport {
    type V = ErrorReportView;

    open spec fn view(&self) -> ErrorReportView {
        ErrorReportView { code: self.code, message: self.message@ }
    }
}

impl ScanErrorView {
    /// The kind of the failure.
    pub open spec fn kind(self) -> ErrorKind {
        match self {
            ScanErrorView::Configuration(_) => ErrorKind::Configuration,
            ScanErrorView::Schema(_) => ErrorKind::Schema,
            ScanErrorView::Client { .. } => ErrorKind::Client,
            ScanErrorView::Mapping { .. } => ErrorKind::Mapping,
            ScanErrorView::InvalidState { .. } => ErrorKind::Protocol,
        }
    }

    /// The text of the diagnostic. A failure about an option or a column
    /// names it; a failure in the middle of a scan says after how many rows
    /// it came.
    pub open spec fn message(self) -> Seq<char> {
        match self {
            ScanErrorView::Configuration(name) => "required option `"@ + name
                + "` is not specified"@,
            ScanErrorView::Schema(error) => error.message(),
            ScanErrorView::Client { index, error } => "fetch failed after "@ + decimal_text(
                index as nat,
            ) + " rows: "@ + error.message@,
            ScanErrorView::Mapping { index, cause } => "record at index "@ + decimal_text(
                index as nat,
            ) + ": "@ + cause.message(),
            ScanErrorView::InvalidState { found } => "the scan is "@ + found.spec_name(),
        }
    }

    /// The code of the failure: a missing option has a code of its own.
    pub open spec fn code(self) -> ErrorCode {
        match self {
            ScanErrorView::Configuration(_) => ErrorCode::FdwOptionNameNotFound,
            _ => ErrorCode::FdwError,
        }
    }

    /// The report of the failure: its code and its text.
    pub open spec fn report(self) -> ErrorReportView {
        ErrorReportView { code: self.code(), message: self.message() }
    }
}

impl ErrorKind {
    /// Whether failures of this kind are found when a scan begins, before
    /// anything is fetched, so that no scan takes place.
    pub open spec fn spec_before_fetch(self) -> bool {
        self == ErrorKind::Configuration || self == ErrorKind::Schema
    }

    /// Whether failures of this kind are found before anything is fetched.
    pub fn before_fetch(self) -> (early: bool)
        ensures
            early == self.spec_before_fetch(),
    {
        match self {
            ErrorKind::Configuration => true,
            ErrorKind::Schema => true,
            _ => false,
        }
    }

    /// Whether failures of this kind come while rows are pulled and end the
    /// scan.
    pub open spec fn spec_ends_scan(self) -> bool {
        self == ErrorKind::Client || self == ErrorKind::Mapping
    }

    /// Whether failures of this kind end a scan that is under way.
    pub fn ends_scan(self) -> (fatal: bool)
        ensures
            fatal == self.spec_ends_scan(),
    {
        match self {
            ErrorKind::Client => true,
            ErrorKind::Mapping => true,
            _ => false,
        }
    }
}

impl ScanError {
    /// The kind of the failure.
    pub fn kind(&self) -> (kind: ErrorKind)
        ensures
            kind == self@.kind(),
    {
        match self {
            ScanError::Configuration(_) => ErrorKind::Configuration,
            ScanError::Schema(_) => ErrorKind::Schema,
            ScanError::Client { .. } => ErrorKind::Client,
            ScanError::Mapping { .. } => ErrorKind::Mapping,
            ScanError::InvalidState { .. } => ErrorKind::Protocol,
        }
    }

    /// The text of the diagnostic.
    pub fn message(&self) -> (text: String)
        ensures
            text@ == self@.message(),
    {
        match self {
            ScanError::Configuration(error) => error.message(),
            ScanError::Schema(error) => error.message(),
            ScanError::Client { index, error } => {
                let mut text = String::from_str("fetch failed after ");
                append_decimal(&mut text, *index);
                text.append(" rows: ");
                text.append(error.message.as_str());
                text
            },
            ScanError::Mapping { index, cause } => {
                let mut text = String::from_str("record at index ");
                append_decimal(&mut text, *index);
                text.append(": ");
                let inner = cause.message();
                text.append(inner.as_str());
                text
            },
            ScanError::InvalidState { found } => {
                let mut text = String::from_str("the scan is ");
                text.append(found.name());
                text
            },
        }
    }

    /// The report of the failure for the host engine.
    pub fn report(&self) -> (report: ErrorReport)
        ensures
            report@ == self@.report(),
    {
        let code = match self {
            ScanError::Configuration(_) => ErrorCode::FdwOptionNameNotFound,
            _ => ErrorCode::FdwError,
        };
        ErrorReport { code, message: self.message() }
    }
}

} // verus!
