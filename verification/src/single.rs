//! A run on one image.
//!
//! The caller opens the image, has it resized, and writes it to the destination that
//! [`crate::request::plan`] worked out. What came of that is told here, and the answer is
//! what to print and how to end.

use crate::error::{ProcessingError, ProcessingErrorView, EXIT_FAILURE, EXIT_SUCCESS};
use crate::report::{on_output, saved_message, saved_text, Notice, NoticeView};
use vstd::prelude::*;
use vstd::string::StringExecFns;

verus! {

/// What came of a run on one image.
#[derive(Clone, Debug, PartialEq, Eq)]
pub enum SingleEvent {
    /// The input could not be opened or decoded; `reason` words the failure.
    OpenFailed { reason: String },
    /// The resized image could not be written; `reason` words the failure.
    SaveFailed { reason: String },
    /// The resized image was written.
    Saved,
}

/// The view of what [`conclude`] returns.
pub open spec fn conclusion_view(conclusion: Result<Notice, ProcessingError>) -> Result<
    NoticeView,
    ProcessingErrorView,
> {
    match conclusion {
        Ok(notice) => Ok(notice@),
        Err(error) => Err(error@),
    }
}

/// How a run from `input` to `destination` ends after `event`: with the confirmation that
/// names both paths, or with the error of the step that failed.
pub open spec fn concluded(input: Seq<char>, destination: Seq<char>, event: SingleEvent) -> Result<
    NoticeView,
    ProcessingErrorView,
> {
    match event {
        SingleEvent::OpenFailed { reason } => Err(
            ProcessingErrorView::Open { source: input, reason: reason@ },
        ),
        SingleEvent::SaveFailed { reason } => Err(
            ProcessingErrorView::Save { destination, reason: reason@ },
        ),
        SingleEvent::Saved => Ok(on_output(saved_text(input, destination))),
    }
}

/// Ends a run from `input` to `destination`: any failure is final.
pub fn conclude(input: &str, destination: &str, event: SingleEvent) -> (conclusion: Result<
    Notice,
    ProcessingError,
>)
    ensures
        conclusion_view(conclusion) == concluded(input@, destination@, event),
{
    match event {
        SingleEvent::OpenFailed { reason } => Err(
            ProcessingError::Open { source: String::from_str(input), reason },
        ),
        SingleEvent::SaveFailed { reason } => Err(
            ProcessingError::Save { destination: String::from_str(destination), reason },
        ),
        SingleEvent::Saved => Ok(Notice::output(saved_message(input, destination))),
    }
}

/// The status the process ends with: success after the confirmation, failure after any error.
pub fn exit_code(conclusion: &Result<Notice, ProcessingError>) -> (code: i32)
    ensures
        code == if conclusion is Ok {
            EXIT_SUCCESS
        } else {
            EXIT_FAILURE
        },
{
    match conclusion {
        Ok(_) => EXIT_SUCCESS,
        Err(error) => error.exit_code(),
    }
}

} // verus!
