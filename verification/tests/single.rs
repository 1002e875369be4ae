use image_resizer::error::ProcessingError;
use image_resizer::report::{Notice, Stream};
use image_resizer::single::{conclude, exit_code, SingleEvent};

#[test]
fn a_written_image_is_confirmed_with_both_paths() {
    let conclusion = conclude("photo.png", "small.png", SingleEvent::Saved);
    assert_eq!(
        conclusion,
        Ok(Notice {
            stream: Stream::Output,
            text: "Image 'photo.png' resized successfully and saved to 'small.png'.".to_string(),
        })
    );
    assert_eq!(exit_code(&conclusion), 0);
}

#[test]
fn an_overwritten_image_is_confirmed_with_its_path_twice() {
    assert_eq!(
        conclude("photo.png", "photo.png", SingleEvent::Saved),
        Ok(Notice {
            stream: Stream::Output,
            text: "Image 'photo.png' resized successfully and saved to 'photo.png'.".to_string(),
        })
    );
}

#[test]
fn an_unopenable_input_is_fatal() {
    let event = SingleEvent::OpenFailed { reason: "Decoding error: Format error".to_string() };
    let conclusion = conclude("photo.png", "small.png", event);
    assert_eq!(
        conclusion,
        Err(ProcessingError::Open {
            source: "photo.png".to_string(),
            reason: "Decoding error: Format error".to_string(),
        })
    );
    assert_eq!(exit_code(&conclusion), 1);
}

#[test]
fn an_unwritable_output_is_fatal() {
    let event = SingleEvent::SaveFailed { reason: "Permission denied (os error 13)".to_string() };
    let conclusion = conclude("photo.png", "small.png", event);
    assert_eq!(
        conclusion,
        Err(ProcessingError::Save {
            destination: "small.png".to_string(),
            reason: "Permission denied (os error 13)".to_string(),
        })
    );
    assert_eq!(exit_code(&conclusion), 1);
}
