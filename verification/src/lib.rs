//! Streaming export of one SQL result set to a CSV file.
//!
//! The crate holds the decisions of an export: how the invocation arguments
//! are read, where the file goes, which driver call comes next, what bytes
//! are written for each fetched batch, and what the caller is told at the
//! end. Talking to the ODBC driver and to the file system is left to the
//! program that embeds the crate: it performs each [`export::Action`] and
//! hands back the [`export::Event`] that describes how it went.
//!
//! - [`params`]: the positional arguments and the batch size they ask for.
//! - [`path`]: the name and place of the output file.
//! - [`rows`]: a bounded batch of raw rows.
//! - [`encode`]: rows to text to CSV records.
//! - [`export`]: the export as a state machine.
//! - [`response`]: the record handed back to the host.
//! - [`error`]: the kinds of failure.
//! - [`laws`]: what is proved of every export.

pub mod encode;
pub mod error;
pub mod export;
pub mod laws;
pub mod params;
pub mod path;
pub mod response;
pub mod rows;

pub use crate::error::ExportError;
pub use crate::export::{Action, Event, Export, Phase};
pub use crate::params::Params;
pub use crate::response::Response;
pub use crate::rows::RowBatch;
