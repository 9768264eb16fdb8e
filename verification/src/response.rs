//! What the caller is told when the export is over.

use vstd::prelude::*;
use vstd::string::*;

use crate::error::{ErrorView, ExportError};

verus! {

/// The result record handed back to the host: whether a file was written,
/// a message for a human, and the path of the file if there is one.
#[derive(Debug, PartialEq, Eq)]
pub struct Response {
    pub success: bool,
    pub msg: String,
    pub fname: Option<String>,
}

/// Mathematical model of a [`Response`].
pub struct ResponseView {
    pub success: bool,
    pub msg: Seq<char>,
    pub fname: Option<Seq<char>>,
}

impl View for Response {
    type V = ResponseView;

    open spec fn view(&self) -> ResponseView {
        ResponseView {
            success: self.success,
            msg: self.msg@,
            fname: match self.fname {
                Some(path) => Some(path@),
                None => None,
            },
        }
    }
}

/// Mathematical model of how an export ended: the path of the file, or the
/// error.
pub type OutcomeView = Result<Seq<char>, ErrorView>;

/// The model of an outcome.
pub open spec fn outcome_view(outcome: Result<String, ExportError>) -> OutcomeView {
    match outcome {
        Ok(path) => Ok(path@),
        Err(error) => Err(error@),
    }
}

/// The response for each way in which an export can end.
pub open spec fn response_of(outcome: OutcomeView) -> ResponseView {
    match outcome {
        Ok(path) => ResponseView { success: true, msg: "Success: "@ + path, fname: Some(path) },
        Err(ErrorView::Argument(reason)) => ResponseView {
            success: false,
            msg: "Problem parsing argumants: "@ + reason,
            fname: None,
        },
        Err(error) => ResponseView {
            success: false,
            msg: "Error: "@ + error.message(),
            fname: None,
        },
    }
}

impl Response {
    /// The response for an export that ended with `outcome`: success names
    /// the file, every failure carries a message and no path.
    pub fn from_outcome(outcome: Result<String, ExportError>) -> (response: Response)
        ensures
            response@ == response_of(outcome_view(outcome)),
    {
        match outcome {
            Ok(path) => {
                let mut msg = "Success: ".to_owned();
                msg.append(path.as_str());
                Response { success: true, msg, fname: Some(path) }
            },
            Err(ExportError::Argument(reason)) => {
                let mut msg = "Problem parsing argumants: ".to_owned();
                msg.append(reason.as_str());
                Response { success: false, msg, fname: None }
            },
            Err(error) => {
                let mut msg = "Error: ".to_owned();
                let text = error.message();
                msg.append(text.as_str());
                Response { success: false, msg, fname: None }
            },
        }
    }
}

/// A response names a file exactly when the export succeeded: every failure,
/// of whatever kind, reports `success == false` and no path.
pub proof fn lemma_path_only_on_success(outcome: OutcomeView)
    ensures
        response_of(outcome).success == outcome.is_ok(),
        response_of(outcome).fname.is_some() == outcome.is_ok(),
        outcome matches Ok(path) ==> response_of(outcome).fname == Some(path),
{
}

} // verus!
