//! Decoded images: reading their size, resizing them, and wording what went wrong with them.
//!
//! Pixels are the `image` crate's business. This module states what the library relies on
//! and proves the rest from that.

use crate::request::ResizeRequest;
use crate::text::joined;
use vstd::prelude::*;

verus! {

/// A decoded image of the `image` crate. The library sees nothing of it but its size.
#[verifier::external_type_specification]
#[verifier::external_body]
pub struct ExDynamicImage(image::DynamicImage);

/// The error type of the `image` crate.
#[verifier::external_type_specification]
#[verifier::external_body]
pub struct ExImageError(image::ImageError);

/// Width and height of a decoded image, in pixels: what `GenericImageView::dimensions`
/// returns for it.
pub uninterp spec fn image_dimensions(img: image::DynamicImage) -> (u32, u32);

/// Calls `GenericImageView::dimensions` on a `DynamicImage`. The size of an image is fixed
/// as long as the image is not changed, so the call gives the image's width and height.
#[verifier::external_body]
fn dimensions_of(img: &image::DynamicImage) -> (size: (u32, u32))
    ensures
        size == image_dimensions(*img),
{
    image::GenericImageView::dimensions(img)
}

/// The length, in pixels, from which on a resampling pass is no longer relied on: 2^23.
pub const SAMPLING_LIMIT: u32 = 0x80_0000;

/// Whether an image of the size `source` can be resized to `target`.
///
/// A target equal to the source is a copy and always can. An empty source gives a blank
/// buffer of the target size, which must not be larger than `isize::MAX` bytes; a pixel
/// takes up to 16 bytes. Anything else is resampled: the pass over the columns fills a
/// buffer as wide as the source and as high as the target, with 16 bytes a pixel, and the
/// pass over the rows one of the target size; both must fit, and all four lengths must be
/// below [`SAMPLING_LIMIT`].
pub open spec fn resizable(source: (u32, u32), target: (u32, u32)) -> bool {
    if target == source {
        true
    } else if source.0 == 0 || source.1 == 0 {
        16 * target.0 * target.1 <= isize::MAX
    } else {
        &&& source.0 < SAMPLING_LIMIT
        &&& source.1 < SAMPLING_LIMIT
        &&& target.0 < SAMPLING_LIMIT
        &&& target.1 < SAMPLING_LIMIT
        &&& 16 * source.0 * target.1 <= isize::MAX
        &&& 16 * target.0 * target.1 <= isize::MAX
    }
}

/// Calls `DynamicImage::resize_exact` with the `Lanczos3` filter. The crate documents that
/// the two numbers are the new image's dimensions, and its source shows that this holds on
/// each of the three paths of [`resizable`].
///
/// The source also shows two ways to panic, which `requires` leaves out. One is a buffer of
/// more than `isize::MAX` bytes. The other is in the resampling, which works out in single
/// precision where each output pixel lies in the source and fails where the weights of the
/// source pixels around that place sum to zero. From 2^24 on single precision no longer
/// tells neighbouring pixels apart, and all weights can be zero. Below 2^23 it holds every
/// pixel position exactly and places an output pixel less than one source pixel off, so
/// that the nearest source pixel lies within the filter's reach. That the weights within
/// reach never cancel each other exactly is not shown by the source: it rests on the shape
/// of the filter, whose middle outweighs its sides.
///
/// Like any allocation, the buffers end the process where the machine has not the memory
/// for them.
#[verifier::external_body]
fn resize_exact_lanczos3(img: &image::DynamicImage, width: u32, height: u32) -> (resized:
    image::DynamicImage)
    requires
        resizable(image_dimensions(*img), (width, height)),
    ensures
        image_dimensions(resized) == (width, height),
{
    img.resize_exact(width, height, image::imageops::FilterType::Lanczos3)
}

/// The new size that `request` gives the image `img`.
pub open spec fn new_dimensions(img: image::DynamicImage, request: ResizeRequest) -> (u32, u32) {
    request.target(image_dimensions(img).0, image_dimensions(img).1)
}

/// Works out the new size of `img`.
pub fn calculate_new_dimensions(img: &image::DynamicImage, request: &ResizeRequest) -> (size: (
    u32,
    u32,
))
    ensures
        size == new_dimensions(*img, *request),
{
    let (orig_width, orig_height) = dimensions_of(img);
    request.resolve(orig_width, orig_height)
}

/// Whether `img` can be resized as `request` asks.
pub open spec fn can_resize(img: image::DynamicImage, request: ResizeRequest) -> bool {
    resizable(image_dimensions(img), new_dimensions(img, request))
}

/// What [`resize_image`] returns: an image of exactly the new size, or nothing where the
/// image cannot be resized to it.
pub open spec fn resized_as_asked(
    img: image::DynamicImage,
    request: ResizeRequest,
    resized: Option<image::DynamicImage>,
) -> bool {
    match resized {
        Some(out) => can_resize(img, request) && image_dimensions(out) == new_dimensions(
            img,
            request,
        ),
        None => !can_resize(img, request),
    }
}

/// Tells whether a buffer of `width` by `height` pixels of 16 bytes can be allocated.
fn buffer_fits(width: u32, height: u32) -> (fit: bool)
    ensures
        fit == (16 * width * height <= isize::MAX),
{
    assert(16 * width * height <= 0x1_0000_0000_0000_0000_0000) by (nonlinear_arith)
        requires
            width <= 0xffff_ffff,
            height <= 0xffff_ffff,
    ;
    let bytes: u128 = 16 * (width as u128) * (height as u128);
    bytes <= isize::MAX as u128
}

/// Tells whether an image of the size `source` can be resized to `target`.
pub fn is_resizable(source: (u32, u32), target: (u32, u32)) -> (able: bool)
    ensures
        able == resizable(source, target),
{
    if target.0 == source.0 && target.1 == source.1 {
        true
    } else if source.0 == 0 || source.1 == 0 {
        buffer_fits(target.0, target.1)
    } else {
        source.0 < SAMPLING_LIMIT && source.1 < SAMPLING_LIMIT && target.0 < SAMPLING_LIMIT
            && target.1 < SAMPLING_LIMIT && buffer_fits(source.0, target.1) && buffer_fits(
            target.0,
            target.1,
        )
    }
}

/// Resizes `img` to exactly the size that `request` gives it; the proportions of the image
/// are not kept. The result is a new image, and `None` where [`resizable`] does not hold
/// of the two sizes.
pub fn resize_image(img: &image::DynamicImage, request: &ResizeRequest) -> (resized: Option<
    image::DynamicImage,
>)
    ensures
        resized_as_asked(*img, *request, resized),
{
    let source = dimensions_of(img);
    let (width, height) = request.resolve(source.0, source.1);
    if is_resizable(source, (width, height)) {
        Some(resize_exact_lanczos3(img, width, height))
    } else {
        None
    }
}

/// Resizing an image to the size it has never fails, and gives an image of that same size.
pub proof fn lemma_native_size_is_kept(
    img: image::DynamicImage,
    resized: Option<image::DynamicImage>,
)
    requires
        resized_as_asked(
            img,
            ResizeRequest::TargetSize {
                width: image_dimensions(img).0,
                height: image_dimensions(img).1,
            },
            resized,
        ),
    ensures
        resized matches Some(out) && image_dimensions(out) == image_dimensions(img),
{
}

/// The kind of a failure of the codec.
#[derive(Clone, Copy, Debug, PartialEq, Eq, Structural)]
pub enum FailureKind {
    /// The file could not be read.
    Io,
    /// The format is none that can be handled.
    Unsupported,
    /// The data is not what its format asks for.
    Decoding,
    /// The image cannot be written in the format.
    Encoding,
    /// Anything else.
    Other,
}

impl FailureKind {
    /// The words a failure of this kind begins with.
    pub open spec fn prefix(self) -> Seq<char> {
        match self {
            FailureKind::Io => "I/O error: "@,
            FailureKind::Unsupported => "Unsupported image format: "@,
            FailureKind::Decoding => "Decoding error: "@,
            FailureKind::Encoding => "Encoding error: "@,
            FailureKind::Other => "An unknown error occurred: "@,
        }
    }
}

/// The kind of an error of the `image` crate, which its variant decides.
pub uninterp spec fn error_kind(error: image::ImageError) -> FailureKind;

/// Why an image could not be opened: the kind of failure, and the text that the `image`
/// crate gives for it.
#[derive(Clone, Debug, PartialEq, Eq)]
pub enum ImageFailure {
    /// The file could not be read.
    Io(String),
    /// The format is none that can be handled.
    Unsupported(String),
    /// The data is not what its format asks for.
    Decoding(String),
    /// The image cannot be written in the format.
    Encoding(String),
    /// Anything else.
    Other(String),
}

/// An [`ImageFailure`] with its text as a sequence of characters.
pub enum ImageFailureView {
    Io(Seq<char>),
    Unsupported(Seq<char>),
    Decoding(Seq<char>),
    Encoding(Seq<char>),
    Other(Seq<char>),
}

impl View for ImageFailure {
    type V = ImageFailureView;

    open spec fn view(&self) -> ImageFailureView {
        match *self {
            ImageFailure::Io(detail) => ImageFailureView::Io(detail@),
            ImageFailure::Unsupported(detail) => ImageFailureView::Unsupported(detail@),
            ImageFailure::Decoding(detail) => ImageFailureView::Decoding(detail@),
            ImageFailure::Encoding(detail) => ImageFailureView::Encoding(detail@),
            ImageFailure::Other(detail) => ImageFailureView::Other(detail@),
        }
    }
}

impl ImageFailureView {
    /// The kind of the failure.
    pub open spec fn kind(self) -> FailureKind {
        match self {
            ImageFailureView::Io(_) => FailureKind::Io,
            ImageFailureView::Unsupported(_) => FailureKind::Unsupported,
            ImageFailureView::Decoding(_) => FailureKind::Decoding,
            ImageFailureView::Encoding(_) => FailureKind::Encoding,
            ImageFailureView::Other(_) => FailureKind::Other,
        }
    }

    /// The text that the codec gives for the failure.
    pub open spec fn detail(self) -> Seq<char> {
        match self {
            ImageFailureView::Io(detail) => detail,
            ImageFailureView::Unsupported(detail) => detail,
            ImageFailureView::Decoding(detail) => detail,
            ImageFailureView::Encoding(detail) => detail,
            ImageFailureView::Other(detail) => detail,
        }
    }

    /// The failure in words: its kind, then the detail.
    pub open spec fn message(self) -> Seq<char> {
        self.kind().prefix() + self.detail()
    }
}

impl ImageFailure {
    /// The failure in words: its kind, then the detail.
    pub fn message(&self) -> (text: String)
        ensures
            text@ == self@.message(),
    {
        match self {
            ImageFailure::Io(detail) => joined("I/O error: ", detail.as_str()),
            ImageFailure::Unsupported(detail) => joined(
                "Unsupported image format: ",
                detail.as_str(),
            ),
            ImageFailure::Decoding(detail) => joined("Decoding error: ", detail.as_str()),
            ImageFailure::Encoding(detail) => joined("Encoding error: ", detail.as_str()),
            ImageFailure::Other(detail) => joined("An unknown error occurred: ", detail.as_str()),
        }
    }
}

/// Tells the variants of `image::ImageError` apart and takes from each the text that its
/// `Display` gives. The kind of the result is the one that the variant decides; of the text
/// nothing is claimed, since that of an I/O error depends on the machine.
#[verifier::external_body]
fn classify(error: image::ImageError) -> (failure: ImageFailure)
    ensures
        failure@.kind() == error_kind(error),
{
    match error {
        image::ImageError::IoError(inner) => ImageFailure::Io(inner.to_string()),
        image::ImageError::Unsupported(inner) => ImageFailure::Unsupported(inner.to_string()),
        image::ImageError::Decoding(inner) => ImageFailure::Decoding(inner.to_string()),
        image::ImageError::Encoding(inner) => ImageFailure::Encoding(inner.to_string()),
        other => ImageFailure::Other(other.to_string()),
    }
}

/// Whether `text` words a failure of the kind `kind`: the words of the kind, then whatever
/// detail.
pub open spec fn is_failure_message(kind: FailureKind, text: Seq<char>) -> bool {
    kind.prefix().is_prefix_of(text)
}

/// Words an error of the `image` crate for the user: the words of its kind, then the text
/// that the crate gives for it.
pub fn get_image_error_message(error: image::ImageError) -> (text: String)
    ensures
        is_failure_message(error_kind(error), text@),
{
    let failure = classify(error);
    let text = failure.message();
    assert(text@.subrange(0, failure@.kind().prefix().len() as int) =~= failure@.kind().prefix());
    text
}

} // verus!
