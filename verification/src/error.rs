//! The ways in which an export can fail.

use vstd::prelude::*;

verus! {

/// Why an export produced no file, one variant per source of failure.
#[derive(Debug, PartialEq, Eq)]
pub enum ExportError {
    /// The invocation arguments could not be used; holds the reason.
    Argument(String),
    /// No connection could be opened; holds the driver's message verbatim.
    Connection(String),
    /// The driver refused the statement or failed while serving the cursor;
    /// holds the driver's message verbatim.
    Query(String),
    /// The statement ran but produced no result set.
    EmptyResult,
    /// The output file could not be created, written or flushed.
    Io(String),
}

/// Mathematical model of an [`ExportError`].
pub enum ErrorView {
    Argument(Seq<char>),
    Connection(Seq<char>),
    Query(Seq<char>),
    EmptyResult,
    Io(Seq<char>),
}

impl View for ExportError {
    type V = ErrorView;

    open spec fn view(&self) -> ErrorView {
        match self {
            ExportError::Argument(m) => ErrorView::Argument(m@),
            ExportError::Connection(m) => ErrorView::Connection(m@),
            ExportError::Query(m) => ErrorView::Query(m@),
            ExportError::EmptyResult => ErrorView::EmptyResult,
            ExportError::Io(m) => ErrorView::Io(m@),
        }
    }
}

/// The text shown for a statement that produced no result set.
pub open spec fn empty_result_text() -> Seq<char> {
    "Error: Query came back empty. No output has been created."@
}

impl ErrorView {
    /// The human-readable text of the error.
    pub open spec fn message(self) -> Seq<char> {
        match self {
            ErrorView::Argument(m) => m,
            ErrorView::Connection(m) => m,
            ErrorView::Query(m) => m,
            ErrorView::EmptyResult => empty_result_text(),
            ErrorView::Io(m) => m,
        }
    }
}

impl ExportError {
    /// The human-readable text of the error: the carried message, or a fixed
    /// sentence for [`ExportError::EmptyResult`].
    pub fn message(&self) -> (text: String)
        ensures
            text@ == self@.message(),
    {
        match self {
            ExportError::Argument(m) => m.clone(),
            ExportError::Connection(m) => m.clone(),
            ExportError::Query(m) => m.clone(),
            ExportError::EmptyResult => {
                "Error: Query came back empty. No output has been created.".to_owned()
            },
            ExportError::Io(m) => m.clone(),
        }
    }
}

} // verus!
