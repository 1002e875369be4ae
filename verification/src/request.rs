//! What one invocation asks for: the size, the source and the destination.

use crate::dimensions::{parse_dimensions, parsed_dimensions};
use crate::error::{ArgumentError, ProcessingError, ProcessingErrorView};
use crate::scale::{
    exact_scaled_length, lemma_scaling_is_near_exact, scale_length, scaled_length, ScaleFactor,
    PRECISION_LIMIT,
};
use vstd::prelude::*;
use vstd::string::StringExecFns;

verus! {

/// How the new size of an image is given: by a scale factor or outright, never both.
#[derive(Clone, Copy, Debug, PartialEq, Eq, Structural)]
pub enum ResizeRequest {
    /// Width and height are both multiplied by the same factor.
    Scale(ScaleFactor),
    /// Width and height are taken as given, whatever the image's proportions.
    TargetSize { width: u32, height: u32 },
}

impl ResizeRequest {
    /// The new size of an image that is `orig_width` wide and `orig_height` high.
    pub open spec fn target(self, orig_width: u32, orig_height: u32) -> (u32, u32) {
        match self {
            ResizeRequest::Scale(scale) => (
                scaled_length(orig_width, scale),
                scaled_length(orig_height, scale),
            ),
            ResizeRequest::TargetSize { width, height } => (width, height),
        }
    }

    /// Works out the new size of an image that is `orig_width` wide and `orig_height` high.
    /// A target size is handed on untouched, be it zero.
    pub fn resolve(&self, orig_width: u32, orig_height: u32) -> (size: (u32, u32))
        ensures
            size == self.target(orig_width, orig_height),
    {
        match self {
            ResizeRequest::Scale(scale) => (
                scale_length(orig_width, *scale),
                scale_length(orig_height, *scale),
            ),
            ResizeRequest::TargetSize { width, height } => (*width, *height),
        }
    }

    /// The request that the two size options make, or why they make none.
    pub open spec fn requested(scale: Option<ScaleFactor>, dimensions: Option<Seq<char>>) -> Result<
        ResizeRequest,
        ProcessingErrorView,
    > {
        match (scale, dimensions) {
            (Some(_), Some(_)) => Err(ProcessingErrorView::Argument(ArgumentError::ConflictingSizes)),
            (None, None) => Err(ProcessingErrorView::Argument(ArgumentError::MissingSize)),
            (Some(factor), None) => Ok(ResizeRequest::Scale(factor)),
            (None, Some(text)) => match parsed_dimensions(text) {
                Ok((width, height)) => Ok(ResizeRequest::TargetSize { width, height }),
                Err(error) => Err(ProcessingErrorView::Dimensions(error)),
            },
        }
    }

    /// Makes the request out of the two size options, of which exactly one must be given.
    pub fn from_options(scale: Option<ScaleFactor>, dimensions: Option<&str>) -> (request: Result<
        ResizeRequest,
        ProcessingError,
    >)
        ensures
            outcome_view(request) == ResizeRequest::requested(scale, text_view(dimensions)),
    {
        match (scale, dimensions) {
            (Some(_), Some(_)) => Err(ProcessingError::Argument(ArgumentError::ConflictingSizes)),
            (None, None) => Err(ProcessingError::Argument(ArgumentError::MissingSize)),
            (Some(factor), None) => Ok(ResizeRequest::Scale(factor)),
            (None, Some(text)) => match parse_dimensions(text) {
                Ok((width, height)) => Ok(ResizeRequest::TargetSize { width, height }),
                Err(error) => Err(ProcessingError::Dimensions(error)),
            },
        }
    }
}

/// A scale factor above zero gives each side the whole part of its exact product with the
/// factor, or one more where single precision rounds the product up to the next whole
/// number; this holds as long as the sides and the products are below 16,777,216.
pub proof fn lemma_scaled_size_is_near_exact(orig_width: u32, orig_height: u32, scale: ScaleFactor)
    requires
        scale.is_positive_finite(),
        orig_width < PRECISION_LIMIT,
        orig_height < PRECISION_LIMIT,
        exact_scaled_length(orig_width, scale) < PRECISION_LIMIT,
        exact_scaled_length(orig_height, scale) < PRECISION_LIMIT,
    ensures
        ({
            let (width, height) = ResizeRequest::Scale(scale).target(orig_width, orig_height);
            &&& exact_scaled_length(orig_width, scale) <= width <= exact_scaled_length(
                orig_width,
                scale,
            ) + 1
            &&& exact_scaled_length(orig_height, scale) <= height <= exact_scaled_length(
                orig_height,
                scale,
            ) + 1
        }),
{
    lemma_scaling_is_near_exact(orig_width, scale);
    lemma_scaling_is_near_exact(orig_height, scale);
}

/// The characters of an optional text.
pub open spec fn text_view(text: Option<&str>) -> Option<Seq<char>> {
    match text {
        Some(t) => Some(t@),
        None => None,
    }
}

/// The characters of an optional owned text.
pub open spec fn string_view(text: Option<String>) -> Option<Seq<char>> {
    match text {
        Some(t) => Some(t@),
        None => None,
    }
}

/// The view of a result whose error is a [`ProcessingError`].
pub open spec fn outcome_view<T>(outcome: Result<T, ProcessingError>) -> Result<
    T,
    ProcessingErrorView,
> {
    match outcome {
        Ok(value) => Ok(value),
        Err(error) => Err(error@),
    }
}

/// Where a single resized image goes: to `output`, and over the input where none is given.
pub open spec fn single_destination(input: Seq<char>, output: Option<Seq<char>>) -> Seq<char> {
    match output {
        Some(path) => path,
        None => input,
    }
}

/// Where the resized images of a batch go: to `output_dir`, and to the directory `resized`
/// inside the batch directory where none is given.
pub open spec fn batch_destination(batch_dir: Seq<char>, output_dir: Option<Seq<char>>) -> Seq<
    char,
> {
    match output_dir {
        Some(path) => path,
        None => batch_dir + "/resized"@,
    }
}

/// The path a single resized image is written to. Without `output` it is the input path
/// itself: the input file is overwritten.
pub fn single_output_path(input: &str, output: Option<&str>) -> (path: String)
    ensures
        path@ == single_destination(input@, text_view(output)),
{
    match output {
        Some(path) => String::from_str(path),
        None => String::from_str(input),
    }
}

/// The directory the resized images of a batch are written to.
pub fn batch_output_dir(batch_dir: &str, output_dir: Option<&str>) -> (path: String)
    ensures
        path@ == batch_destination(batch_dir@, text_view(output_dir)),
{
    match output_dir {
        Some(path) => String::from_str(path),
        None => {
            let mut path = String::from_str(batch_dir);
            path.append("/resized");
            path
        },
    }
}

/// The options of an invocation, as they were given.
#[derive(Clone, Debug, PartialEq, Eq)]
pub struct Arguments {
    /// The input image of a single run.
    pub input: Option<String>,
    /// The directory of a batch run.
    pub batch: Option<String>,
    /// Where a single run writes.
    pub output: Option<String>,
    /// Where a batch run writes.
    pub output_dir: Option<String>,
    /// The scale factor.
    pub scale: Option<ScaleFactor>,
    /// The target size, as `WIDTHxHEIGHT`.
    pub dimensions: Option<String>,
}

/// What there is to do.
#[derive(Clone, Debug, PartialEq, Eq)]
pub enum Job {
    /// Resize the image at `input` and write it to `output`.
    Single { input: String, output: String, request: ResizeRequest },
    /// Resize every image in `batch_dir` and write each under its own name into `output_dir`.
    Batch { batch_dir: String, output_dir: String, request: ResizeRequest },
}

/// A [`Job`] with its paths as sequences of characters.
pub enum JobView {
    Single { input: Seq<char>, output: Seq<char>, request: ResizeRequest },
    Batch { batch_dir: Seq<char>, output_dir: Seq<char>, request: ResizeRequest },
}

impl View for Job {
    type V = JobView;

    open spec fn view(&self) -> JobView {
        match *self {
            Job::Single { input, output, request } => JobView::Single {
                input: input@,
                output: output@,
                request,
            },
            Job::Batch { batch_dir, output_dir, request } => JobView::Batch {
                batch_dir: batch_dir@,
                output_dir: output_dir@,
                request,
            },
        }
    }
}

/// The view of what [`plan`] returns.
pub open spec fn plan_view(planned: Result<Job, ProcessingError>) -> Result<
    JobView,
    ProcessingErrorView,
> {
    match planned {
        Ok(job) => Ok(job@),
        Err(error) => Err(error@),
    }
}

/// The job that `arguments` ask for, or why they ask for none. The size options are looked
/// at before the source options, and the target size is read only when both pairs are in
/// order. An output option of the other mode is passed over.
pub open spec fn planned(arguments: Arguments) -> Result<JobView, ProcessingErrorView> {
    let scale = arguments.scale;
    let dimensions = string_view(arguments.dimensions);
    if scale is Some && dimensions is Some {
        Err(ProcessingErrorView::Argument(ArgumentError::ConflictingSizes))
    } else if scale is None && dimensions is None {
        Err(ProcessingErrorView::Argument(ArgumentError::MissingSize))
    } else if arguments.input is Some && arguments.batch is Some {
        Err(ProcessingErrorView::Argument(ArgumentError::ConflictingSources))
    } else if arguments.input is None && arguments.batch is None {
        Err(ProcessingErrorView::Argument(ArgumentError::MissingSource))
    } else {
        match ResizeRequest::requested(scale, dimensions) {
            Err(error) => Err(error),
            Ok(request) => match arguments.input {
                Some(input) => Ok(
                    JobView::Single {
                        input: input@,
                        output: single_destination(input@, string_view(arguments.output)),
                        request,
                    },
                ),
                None => Ok(
                    JobView::Batch {
                        batch_dir: arguments.batch->0@,
                        output_dir: batch_destination(
                            arguments.batch->0@,
                            string_view(arguments.output_dir),
                        ),
                        request,
                    },
                ),
            },
        }
    }
}

fn as_text(text: &Option<String>) -> (slice: Option<&str>)
    ensures
        text_view(slice) == string_view(*text),
{
    match text {
        Some(t) => Some(t.as_str()),
        None => None,
    }
}

/// Turns the options of an invocation into the job to do.
pub fn plan(arguments: Arguments) -> (planned_job: Result<Job, ProcessingError>)
    ensures
        plan_view(planned_job) == planned(arguments),
{
    if arguments.scale.is_some() && arguments.dimensions.is_some() {
        return Err(ProcessingError::Argument(ArgumentError::ConflictingSizes));
    }
    if arguments.scale.is_none() && arguments.dimensions.is_none() {
        return Err(ProcessingError::Argument(ArgumentError::MissingSize));
    }
    if arguments.input.is_some() && arguments.batch.is_some() {
        return Err(ProcessingError::Argument(ArgumentError::ConflictingSources));
    }
    if arguments.input.is_none() && arguments.batch.is_none() {
        return Err(ProcessingError::Argument(ArgumentError::MissingSource));
    }
    let request = match ResizeRequest::from_options(arguments.scale, as_text(&arguments.dimensions)) {
        Ok(request) => request,
        Err(error) => {
            return Err(error);
        },
    };
    match arguments.input {
        Some(input) => {
            let output = single_output_path(input.as_str(), as_text(&arguments.output));
            Ok(Job::Single { input, output, request })
        },
        None => match arguments.batch {
            Some(batch_dir) => {
                let output_dir = batch_output_dir(
                    batch_dir.as_str(),
                    as_text(&arguments.output_dir),
                );
                Ok(Job::Batch { batch_dir, output_dir, request })
            },
            None => Err(ProcessingError::Argument(ArgumentError::MissingSource)),
        },
    }
}

/// Without an output path a single run writes over its input: the destination is the
/// source path itself.
pub proof fn lemma_omitted_output_overwrites_input(arguments: Arguments)
    requires
        arguments.input is Some,
        arguments.output is None,
    ensures
        single_destination(arguments.input->0@, string_view(arguments.output))
            == arguments.input->0@,
        planned(arguments) matches Ok(job) ==> job matches JobView::Single { input, output, .. }
            && input == arguments.input->0@ && output == input,
{
}

} // verus!
