//! The errors that end a run, each with the two lines it is printed as.

use crate::dimensions::{DimensionsError, DimensionsErrorView};
use crate::report::{
    explain, on_error, open_failed_message, open_failed_text, save_failed_message,
    save_failed_text, with_reason, Notice, NoticeView,
};
use vstd::prelude::*;
use vstd::string::StringExecFns;

verus! {

/// The status of a process that did what it was asked.
pub const EXIT_SUCCESS: i32 = 0;

/// The status of a process that gave up.
pub const EXIT_FAILURE: i32 = 1;

/// What is wrong with the options of an invocation.
#[derive(Clone, Copy, Debug, PartialEq, Eq, Structural)]
pub enum ArgumentError {
    /// Neither a scale factor nor a target size was given.
    MissingSize,
    /// A scale factor and a target size were both given.
    ConflictingSizes,
    /// Neither an input file nor a batch directory was given.
    MissingSource,
    /// An input file and a batch directory were both given.
    ConflictingSources,
}

impl ArgumentError {
    /// The first line of the error: which pair of options is at fault.
    pub open spec fn summary(self) -> Seq<char> {
        match self {
            ArgumentError::MissingSize | ArgumentError::ConflictingSizes =>
                "Error: You must provide either --scale or --dimensions."@,
            ArgumentError::MissingSource | ArgumentError::ConflictingSources =>
                "Error: You must provide either --input or --batch."@,
        }
    }

    /// The cause given on the second line.
    pub open spec fn reason(self) -> Seq<char> {
        match self {
            ArgumentError::MissingSize | ArgumentError::MissingSource =>
                "neither of the two options was given"@,
            ArgumentError::ConflictingSizes | ArgumentError::ConflictingSources =>
                "both options were given"@,
        }
    }

    /// The error as it is printed: the summary line, then the line that gives the cause.
    pub fn message(&self) -> (text: String)
        ensures
            text@ == with_reason(self.summary(), self.reason()),
    {
        let summary = match self {
            ArgumentError::MissingSize | ArgumentError::ConflictingSizes => String::from_str(
                "Error: You must provide either --scale or --dimensions.",
            ),
            ArgumentError::MissingSource | ArgumentError::ConflictingSources => String::from_str(
                "Error: You must provide either --input or --batch.",
            ),
        };
        match self {
            ArgumentError::MissingSize | ArgumentError::MissingSource => explain(
                summary,
                "neither of the two options was given",
            ),
            ArgumentError::ConflictingSizes | ArgumentError::ConflictingSources => explain(
                summary,
                "both options were given",
            ),
        }
    }
}

/// An error that ends the run.
#[derive(Clone, Debug, PartialEq, Eq)]
pub enum ProcessingError {
    /// The options of the invocation do not say what to do.
    Argument(ArgumentError),
    /// The text given as target size is none.
    Dimensions(DimensionsError),
    /// The input image at `source` could not be opened or decoded.
    Open { source: String, reason: String },
    /// The resized image could not be written to `destination`.
    Save { destination: String, reason: String },
}

/// A [`ProcessingError`] with its texts as sequences of characters.
pub enum ProcessingErrorView {
    Argument(ArgumentError),
    Dimensions(DimensionsErrorView),
    Open { source: Seq<char>, reason: Seq<char> },
    Save { destination: Seq<char>, reason: Seq<char> },
}

impl View for ProcessingError {
    type V = ProcessingErrorView;

    open spec fn view(&self) -> ProcessingErrorView {
        match *self {
            ProcessingError::Argument(error) => ProcessingErrorView::Argument(error),
            ProcessingError::Dimensions(error) => ProcessingErrorView::Dimensions(error@),
            ProcessingError::Open { source, reason } => ProcessingErrorView::Open {
                source: source@,
                reason: reason@,
            },
            ProcessingError::Save { destination, reason } => ProcessingErrorView::Save {
                destination: destination@,
                reason: reason@,
            },
        }
    }
}

impl ProcessingErrorView {
    /// The error in its two-line shape.
    pub open spec fn message(self) -> Seq<char> {
        match self {
            ProcessingErrorView::Argument(error) => with_reason(error.summary(), error.reason()),
            ProcessingErrorView::Dimensions(error) => error.message(),
            ProcessingErrorView::Open { source, reason } => with_reason(
                open_failed_text(source),
                reason,
            ),
            ProcessingErrorView::Save { destination, reason } => with_reason(
                save_failed_text(destination),
                reason,
            ),
        }
    }
}

impl ProcessingError {
    /// The error as it is printed: the summary line, then the line that gives the cause.
    pub fn message(&self) -> (text: String)
        ensures
            text@ == self@.message(),
    {
        match self {
            ProcessingError::Argument(error) => error.message(),
            ProcessingError::Dimensions(error) => error.message(),
            ProcessingError::Open { source, reason } => open_failed_message(
                source.as_str(),
                reason.as_str(),
            ),
            ProcessingError::Save { destination, reason } => save_failed_message(
                destination.as_str(),
                reason.as_str(),
            ),
        }
    }

    /// The error as a message for standard error.
    pub fn notice(&self) -> (notice: Notice)
        ensures
            notice@ == on_error(self@.message()),
    {
        Notice::error(self.message())
    }

    /// The status the process ends with: every one of these errors is fatal.
    pub fn exit_code(&self) -> (code: i32)
        ensures
            code == EXIT_FAILURE,
    {
        EXIT_FAILURE
    }
}

} // verus!
