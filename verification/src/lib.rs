//! The rules of a command-line image resizer: how a new size is worked out, how the options
//! of an invocation are read, what a run over one image or over a directory counts and
//! prints, and how it ends.
//!
//! Files are read and written by the program around this library. Pixels are resampled by
//! the `image` crate, of which [`imaging`] states what it relies on.
//!
//! - [`scale`]: a length times a scale factor, as single-precision arithmetic gives it
//! - [`dimensions`]: a target size read from `WIDTHxHEIGHT`
//! - [`request`]: the options of an invocation and the job they ask for
//! - [`imaging`]: resizing a decoded image, wording a codec error
//! - [`single`]: how a run on one image ends
//! - [`batch`]: a run over a directory, step by step
//! - [`error`], [`report`], [`text`]: errors, messages and the text they are made of

use vstd::prelude::*;

pub mod batch;
pub mod dimensions;
pub mod error;
pub mod imaging;
pub mod report;
pub mod request;
pub mod scale;
pub mod single;
pub mod text;
