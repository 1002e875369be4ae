//! What the program says: the wording of every message and where it is printed.

use crate::text::{decimal, decimal_text, framed, framed_pair};
use vstd::prelude::*;
use vstd::string::StringExecFns;

verus! {

/// The stream a message is printed on.
#[derive(Clone, Copy, Debug, PartialEq, Eq, Structural)]
pub enum Stream {
    /// Standard output: confirmations and the batch summary.
    Output,
    /// Standard error: warnings and errors.
    Error,
}

/// A message for the user. `text` holds one line, or two lines separated by a line feed;
/// neither ends in a line feed.
#[derive(Clone, Debug, PartialEq, Eq)]
pub struct Notice {
    pub stream: Stream,
    pub text: String,
}

/// A [`Notice`] with its text as a sequence of characters.
pub struct NoticeView {
    pub stream: Stream,
    pub text: Seq<char>,
}

impl View for Notice {
    type V = NoticeView;

    open spec fn view(&self) -> NoticeView {
        NoticeView { stream: self.stream, text: self.text@ }
    }
}

impl Notice {
    /// A message for standard output.
    pub fn output(text: String) -> (notice: Notice)
        ensures
            notice@ == on_output(text@),
    {
        Notice { stream: Stream::Output, text }
    }

    /// A message for standard error.
    pub fn error(text: String) -> (notice: Notice)
        ensures
            notice@ == on_error(text@),
    {
        Notice { stream: Stream::Error, text }
    }

    /// The view of an optional notice.
    pub open spec fn view_of(notice: Option<Notice>) -> Option<NoticeView> {
        match notice {
            Some(n) => Some(n@),
            None => None,
        }
    }
}

/// `text` as a message for standard output.
pub open spec fn on_output(text: Seq<char>) -> NoticeView {
    NoticeView { stream: Stream::Output, text }
}

/// `text` as a message for standard error.
pub open spec fn on_error(text: Seq<char>) -> NoticeView {
    NoticeView { stream: Stream::Error, text }
}

/// An error in its two-line shape: the summary line, then a line that gives the cause.
pub open spec fn with_reason(summary: Seq<char>, reason: Seq<char>) -> Seq<char> {
    summary + "\nReason: "@ + reason
}

/// The confirmation that the image at `source` was resized and written to `destination`.
pub open spec fn saved_text(source: Seq<char>, destination: Seq<char>) -> Seq<char> {
    "Image '"@ + source + "' resized successfully and saved to '"@ + destination + "'."@
}

/// The summary line of an input image that could not be opened.
pub open spec fn open_failed_text(source: Seq<char>) -> Seq<char> {
    "Error: Failed to open the input image file '"@ + source + "'."@
}

/// The summary line of a resized image that could not be written.
pub open spec fn save_failed_text(destination: Seq<char>) -> Seq<char> {
    "Error: Failed to save the resized image to '"@ + destination + "'."@
}

/// The summary line of a resized image that could not be written during a batch run.
pub open spec fn save_skipped_text(destination: Seq<char>) -> Seq<char> {
    "Error: Failed to save the resized image to '"@ + destination + "'. Skipping."@
}

/// The warning for a file of the batch directory that is no readable image.
pub open spec fn undecodable_text(source: Seq<char>) -> Seq<char> {
    "Warning: File '"@ + source + "' is not a valid image or could not be opened. Skipping."@
}

/// The warning for a path whose last component cannot name an output file.
pub open spec fn missing_name_text(source: Seq<char>) -> Seq<char> {
    "Warning: Unable to get file name for '"@ + source + "'. Skipping."@
}

/// The summary line of an output directory that could not be created.
pub open spec fn create_dir_failed_text(output_dir: Seq<char>) -> Seq<char> {
    "Error: Failed to create output directory '"@ + output_dir + "'."@
}

/// The summary line of a batch directory that could not be listed.
pub open spec fn read_dir_failed_text(batch_dir: Seq<char>) -> Seq<char> {
    "Error: Failed to read the batch directory '"@ + batch_dir + "'."@
}

/// The closing line of a batch run that wrote `processed` files and gave up on `skipped`.
pub open spec fn summary_text(processed: nat, skipped: nat) -> Seq<char> {
    "Batch processing completed. "@ + decimal(processed) + " files processed, "@ + decimal(skipped)
        + " files skipped."@
}

/// Appends the cause line to a summary line.
pub fn explain(summary: String, reason: &str) -> (text: String)
    ensures
        text@ == with_reason(summary@, reason@),
{
    let mut text = summary;
    text.append("\nReason: ");
    text.append(reason);
    text
}

/// Builds [`saved_text`].
pub fn saved_message(source: &str, destination: &str) -> (text: String)
    ensures
        text@ == saved_text(source@, destination@),
{
    framed_pair("Image '", source, "' resized successfully and saved to '", destination, "'.")
}

/// Builds [`open_failed_text`] with its cause.
pub fn open_failed_message(source: &str, reason: &str) -> (text: String)
    ensures
        text@ == with_reason(open_failed_text(source@), reason@),
{
    explain(framed("Error: Failed to open the input image file '", source, "'."), reason)
}

/// Builds [`save_failed_text`] with its cause.
pub fn save_failed_message(destination: &str, reason: &str) -> (text: String)
    ensures
        text@ == with_reason(save_failed_text(destination@), reason@),
{
    explain(framed("Error: Failed to save the resized image to '", destination, "'."), reason)
}

/// Builds [`save_skipped_text`] with its cause.
pub fn save_skipped_message(destination: &str, reason: &str) -> (text: String)
    ensures
        text@ == with_reason(save_skipped_text(destination@), reason@),
{
    explain(
        framed("Error: Failed to save the resized image to '", destination, "'. Skipping."),
        reason,
    )
}

/// Builds [`undecodable_text`].
pub fn undecodable_message(source: &str) -> (text: String)
    ensures
        text@ == undecodable_text(source@),
{
    framed("Warning: File '", source, "' is not a valid image or could not be opened. Skipping.")
}

/// Builds [`missing_name_text`].
pub fn missing_name_message(source: &str) -> (text: String)
    ensures
        text@ == missing_name_text(source@),
{
    framed("Warning: Unable to get file name for '", source, "'. Skipping.")
}

/// Builds [`create_dir_failed_text`] with its cause.
pub fn create_dir_failed_message(output_dir: &str, reason: &str) -> (text: String)
    ensures
        text@ == with_reason(create_dir_failed_text(output_dir@), reason@),
{
    explain(framed("Error: Failed to create output directory '", output_dir, "'."), reason)
}

/// Builds [`read_dir_failed_text`] with its cause.
pub fn read_dir_failed_message(batch_dir: &str, reason: &str) -> (text: String)
    ensures
        text@ == with_reason(read_dir_failed_text(batch_dir@), reason@),
{
    explain(framed("Error: Failed to read the batch directory '", batch_dir, "'."), reason)
}

/// Builds [`summary_text`].
pub fn summary_message(processed: u64, skipped: u64) -> (text: String)
    ensures
        text@ == summary_text(processed as nat, skipped as nat),
{
    let processed_text = decimal_text(processed);
    let skipped_text = decimal_text(skipped);
    framed_pair(
        "Batch processing completed. ",
        processed_text.as_str(),
        " files processed, ",
        skipped_text.as_str(),
        " files skipped.",
    )
}

} // verus!
