use image_resizer::dimensions::DimensionsError;
use image_resizer::error::{ArgumentError, ProcessingError};
use image_resizer::request::{
    batch_output_dir, plan, single_output_path, Arguments, Job, ResizeRequest,
};
use image_resizer::scale::ScaleFactor;

fn factor(scale: f32) -> ScaleFactor {
    ScaleFactor::from_bits(scale.to_bits())
}

fn nothing() -> Arguments {
    Arguments { input: None, batch: None, output: None, output_dir: None, scale: None, dimensions: None }
}

#[test]
fn a_scale_factor_applies_to_both_sides() {
    let request = ResizeRequest::Scale(factor(0.5));
    assert_eq!(request.resolve(800, 600), (400, 300));
    assert_eq!(request.resolve(801, 601), (400, 300));
    assert_eq!(request.resolve(1, 1), (0, 0));
    let request = ResizeRequest::Scale(factor(1.5));
    assert_eq!(request.resolve(3, 5), (4, 7));
    let request = ResizeRequest::Scale(factor(0.1));
    assert_eq!(request.resolve(1920, 1080), (192, 108));
}

#[test]
fn a_scale_factor_gives_what_hardware_gives() {
    for &scale in [0.1f32, 0.3, 0.75, 1.1, 2.5, 3.3333].iter() {
        for &(width, height) in [(640u32, 480u32), (1920, 1080), (3, 7), (4000, 3000)].iter() {
            let expected = ((width as f32 * scale) as u32, (height as f32 * scale) as u32);
            assert_eq!(ResizeRequest::Scale(factor(scale)).resolve(width, height), expected);
        }
    }
}

#[test]
fn a_target_size_is_handed_on_untouched() {
    let request = ResizeRequest::TargetSize { width: 800, height: 600 };
    assert_eq!(request.resolve(1, 1), (800, 600));
    assert_eq!(request.resolve(4000, 10), (800, 600));
    let request = ResizeRequest::TargetSize { width: 0, height: 0 };
    assert_eq!(request.resolve(640, 480), (0, 0));
    let request = ResizeRequest::TargetSize { width: u32::MAX, height: 1 };
    assert_eq!(request.resolve(640, 480), (u32::MAX, 1));
}

#[test]
fn exactly_one_size_option_is_needed() {
    assert_eq!(
        ResizeRequest::from_options(None, None),
        Err(ProcessingError::Argument(ArgumentError::MissingSize))
    );
    assert_eq!(
        ResizeRequest::from_options(Some(factor(0.5)), Some("800x600")),
        Err(ProcessingError::Argument(ArgumentError::ConflictingSizes))
    );
    assert_eq!(
        ResizeRequest::from_options(Some(factor(0.5)), None),
        Ok(ResizeRequest::Scale(factor(0.5)))
    );
    assert_eq!(
        ResizeRequest::from_options(None, Some("800x600")),
        Ok(ResizeRequest::TargetSize { width: 800, height: 600 })
    );
}

#[test]
fn a_bad_target_size_is_an_error() {
    assert_eq!(
        ResizeRequest::from_options(None, Some("800x600x10")),
        Err(ProcessingError::Dimensions(DimensionsError::InvalidDimensionsFormat))
    );
    assert_eq!(
        ResizeRequest::from_options(None, Some("abcx600")),
        Err(ProcessingError::Dimensions(DimensionsError::InvalidWidth("abc".to_string())))
    );
    assert_eq!(
        ResizeRequest::from_options(None, Some("800x-5")),
        Err(ProcessingError::Dimensions(DimensionsError::InvalidHeight("-5".to_string())))
    );
}

#[test]
fn without_an_output_the_input_is_overwritten() {
    assert_eq!(single_output_path("photo.png", None), "photo.png");
    assert_eq!(single_output_path("dir/photo.png", Some("small.png")), "small.png");
    assert_eq!(single_output_path("", None), "");
}

#[test]
fn without_an_output_directory_a_batch_writes_inside_the_source() {
    assert_eq!(batch_output_dir("photos", None), "photos/resized");
    assert_eq!(batch_output_dir("photos/", None), "photos//resized");
    assert_eq!(batch_output_dir("photos", Some("small")), "small");
    assert_eq!(batch_output_dir("", None), "/resized");
}

#[test]
fn a_single_job_is_planned() {
    let arguments = Arguments {
        input: Some("photo.png".to_string()),
        scale: Some(factor(0.5)),
        ..nothing()
    };
    assert_eq!(
        plan(arguments),
        Ok(Job::Single {
            input: "photo.png".to_string(),
            output: "photo.png".to_string(),
            request: ResizeRequest::Scale(factor(0.5)),
        })
    );
    let arguments = Arguments {
        input: Some("photo.png".to_string()),
        output: Some("small.png".to_string()),
        output_dir: Some("elsewhere".to_string()),
        dimensions: Some("80x60".to_string()),
        ..nothing()
    };
    assert_eq!(
        plan(arguments),
        Ok(Job::Single {
            input: "photo.png".to_string(),
            output: "small.png".to_string(),
            request: ResizeRequest::TargetSize { width: 80, height: 60 },
        })
    );
}

#[test]
fn a_batch_job_is_planned() {
    let arguments = Arguments {
        batch: Some("photos".to_string()),
        dimensions: Some("80x60".to_string()),
        ..nothing()
    };
    assert_eq!(
        plan(arguments),
        Ok(Job::Batch {
            batch_dir: "photos".to_string(),
            output_dir: "photos/resized".to_string(),
            request: ResizeRequest::TargetSize { width: 80, height: 60 },
        })
    );
    let arguments = Arguments {
        batch: Some("photos".to_string()),
        output: Some("ignored.png".to_string()),
        output_dir: Some("small".to_string()),
        scale: Some(factor(2.0)),
        ..nothing()
    };
    assert_eq!(
        plan(arguments),
        Ok(Job::Batch {
            batch_dir: "photos".to_string(),
            output_dir: "small".to_string(),
            request: ResizeRequest::Scale(factor(2.0)),
        })
    );
}

#[test]
fn options_that_say_too_little_or_too_much_are_refused() {
    let refused = |arguments: Arguments, error: ArgumentError| {
        assert_eq!(plan(arguments), Err(ProcessingError::Argument(error)));
    };
    refused(nothing(), ArgumentError::MissingSize);
    refused(Arguments { input: Some("a.png".to_string()), ..nothing() }, ArgumentError::MissingSize);
    refused(
        Arguments {
            input: Some("a.png".to_string()),
            scale: Some(factor(1.0)),
            dimensions: Some("1x1".to_string()),
            ..nothing()
        },
        ArgumentError::ConflictingSizes,
    );
    refused(Arguments { scale: Some(factor(1.0)), ..nothing() }, ArgumentError::MissingSource);
    refused(
        Arguments {
            input: Some("a.png".to_string()),
            batch: Some("photos".to_string()),
            scale: Some(factor(1.0)),
            ..nothing()
        },
        ArgumentError::ConflictingSources,
    );
    // the options are looked at before the target size is read
    refused(Arguments { dimensions: Some("bad".to_string()), ..nothing() }, ArgumentError::MissingSource);
}

#[test]
fn a_bad_target_size_stops_the_plan() {
    let arguments = Arguments {
        batch: Some("photos".to_string()),
        dimensions: Some("800x".to_string()),
        ..nothing()
    };
    assert_eq!(
        plan(arguments),
        Err(ProcessingError::Dimensions(DimensionsError::InvalidHeight("".to_string())))
    );
}
