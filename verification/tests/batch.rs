use image_resizer::batch::{
    BatchAction, BatchEvent, BatchOutcome, BatchRun, BatchStage, EntryEvent,
};
use image_resizer::report::{Notice, Stream};

fn saved(name: &str) -> EntryEvent {
    EntryEvent::Saved { source: format!("in/{name}"), destination: format!("out/{name}") }
}

fn undecodable(name: &str) -> EntryEvent {
    EntryEvent::Undecodable { source: format!("in/{name}") }
}

fn warning(text: &str) -> Option<Notice> {
    Some(Notice { stream: Stream::Error, text: text.to_string() })
}

fn listed_run() -> BatchRun {
    let mut run = BatchRun::new();
    assert!(run.accepts(&BatchEvent::OutputDirCreated));
    assert_eq!(run.step(&BatchEvent::OutputDirCreated), BatchAction::ListEntries);
    assert!(run.accepts(&BatchEvent::EntriesListed));
    assert_eq!(run.step(&BatchEvent::EntriesListed), BatchAction::NextEntry(None));
    run
}

fn run_over(entries: &[EntryEvent]) -> (BatchRun, BatchAction) {
    let mut run = listed_run();
    for entry in entries.iter() {
        let event = BatchEvent::Entry(entry.clone());
        assert!(run.accepts(&event));
        let action = run.step(&event);
        assert!(matches!(action, BatchAction::NextEntry(_)));
        assert_eq!(run.stage, BatchStage::ProcessingEntries);
    }
    assert!(run.accepts(&BatchEvent::NoMoreEntries));
    let action = run.step(&BatchEvent::NoMoreEntries);
    (run, action)
}

#[test]
fn a_new_outcome_counts_nothing() {
    assert_eq!(BatchOutcome::new(), BatchOutcome { processed_count: 0, skipped_count: 0 });
}

#[test]
fn a_new_run_creates_the_output_directory_first() {
    let run = BatchRun::new();
    assert_eq!(run.stage, BatchStage::CreatingOutputDir);
    assert_eq!(run.outcome, BatchOutcome::new());
    assert!(run.accepts(&BatchEvent::OutputDirCreated));
    assert!(!run.accepts(&BatchEvent::EntriesListed));
    assert!(!run.accepts(&BatchEvent::NoMoreEntries));
    assert!(!run.accepts(&BatchEvent::Entry(EntryEvent::Ignored)));
}

#[test]
fn images_files_and_directories_are_counted_apart() {
    // three images, two files that are no images, two directories, in no particular order
    let entries = [
        EntryEvent::Ignored,
        saved("a.png"),
        undecodable("notes.txt"),
        saved("b.jpg"),
        EntryEvent::Ignored,
        undecodable("data.bin"),
        saved("c.gif"),
    ];
    let (run, action) = run_over(&entries);
    assert_eq!(run.outcome, BatchOutcome { processed_count: 3, skipped_count: 2 });
    assert_eq!(run.stage, BatchStage::Completed);
    assert_eq!(action.exit_code(), Some(0));
    assert_eq!(
        action,
        BatchAction::Finish(Notice {
            stream: Stream::Output,
            text: "Batch processing completed. 3 files processed, 2 files skipped.".to_string(),
        })
    );
}

#[test]
fn the_order_of_the_entries_does_not_matter() {
    let forward = [saved("a.png"), undecodable("b.txt"), EntryEvent::Ignored, saved("c.png")];
    let backward = [saved("c.png"), EntryEvent::Ignored, undecodable("b.txt"), saved("a.png")];
    assert_eq!(run_over(&forward).0.outcome, run_over(&backward).0.outcome);
    assert_eq!(run_over(&forward).1, run_over(&backward).1);
}

#[test]
fn a_run_of_skipped_files_still_ends_in_success() {
    let entries = [undecodable("a"), undecodable("b"), undecodable("c")];
    let (run, action) = run_over(&entries);
    assert_eq!(run.outcome, BatchOutcome { processed_count: 0, skipped_count: 3 });
    assert_eq!(action.exit_code(), Some(0));
}

#[test]
fn an_empty_directory_gives_an_empty_summary() {
    let (run, action) = run_over(&[]);
    assert_eq!(run.outcome, BatchOutcome::new());
    assert_eq!(
        action,
        BatchAction::Finish(Notice {
            stream: Stream::Output,
            text: "Batch processing completed. 0 files processed, 0 files skipped.".to_string(),
        })
    );
}

#[test]
fn an_uncreatable_output_directory_ends_the_run_at_once() {
    let mut run = BatchRun::new();
    let failure = BatchEvent::OutputDirFailed {
        output_dir: "photos/resized".to_string(),
        reason: "File exists (os error 17)".to_string(),
    };
    assert!(run.accepts(&failure));
    let action = run.step(&failure);
    assert_eq!(action.exit_code(), Some(1));
    assert_eq!(
        action,
        BatchAction::Abort(Notice {
            stream: Stream::Error,
            text: "Error: Failed to create output directory 'photos/resized'.\n\
                   Reason: File exists (os error 17)"
                .to_string(),
        })
    );
    assert_eq!(run.stage, BatchStage::Aborted);
    assert_eq!(run.outcome, BatchOutcome::new());
    assert!(!run.accepts(&BatchEvent::EntriesListed));
    assert!(!run.accepts(&BatchEvent::Entry(saved("a.png"))));
    assert!(!run.accepts(&BatchEvent::NoMoreEntries));
    assert!(!run.accepts(&BatchEvent::OutputDirCreated));
}

#[test]
fn an_unreadable_batch_directory_ends_the_run() {
    let mut run = BatchRun::new();
    run.step(&BatchEvent::OutputDirCreated);
    let failure = BatchEvent::ListingFailed {
        batch_dir: "photos".to_string(),
        reason: "No such file or directory (os error 2)".to_string(),
    };
    assert!(run.accepts(&failure));
    let action = run.step(&failure);
    assert_eq!(action.exit_code(), Some(1));
    assert_eq!(
        action,
        BatchAction::Abort(Notice {
            stream: Stream::Error,
            text: "Error: Failed to read the batch directory 'photos'.\n\
                   Reason: No such file or directory (os error 2)"
                .to_string(),
        })
    );
    assert_eq!(run.stage, BatchStage::Aborted);
    assert!(!run.accepts(&BatchEvent::Entry(EntryEvent::Ignored)));
}

#[test]
fn a_completed_run_takes_nothing_more() {
    let (run, _) = run_over(&[saved("a.png")]);
    assert!(!run.accepts(&BatchEvent::Entry(saved("b.png"))));
    assert!(!run.accepts(&BatchEvent::NoMoreEntries));
    assert!(!run.accepts(&BatchEvent::OutputDirCreated));
}

#[test]
fn each_entry_has_its_notice() {
    let mut outcome = BatchOutcome::new();
    assert_eq!(outcome.record(&EntryEvent::Ignored), None);
    assert_eq!(outcome, BatchOutcome { processed_count: 0, skipped_count: 0 });

    assert_eq!(
        outcome.record(&undecodable("notes.txt")),
        warning("Warning: File 'in/notes.txt' is not a valid image or could not be opened. Skipping.")
    );
    assert_eq!(outcome, BatchOutcome { processed_count: 0, skipped_count: 1 });

    assert_eq!(
        outcome.record(&EntryEvent::MissingFileName { source: "in/..".to_string() }),
        warning("Warning: Unable to get file name for 'in/..'. Skipping.")
    );
    assert_eq!(outcome, BatchOutcome { processed_count: 0, skipped_count: 2 });

    assert_eq!(
        outcome.record(&EntryEvent::SaveFailed {
            destination: "out/a.xyz".to_string(),
            reason: "The image format could not be determined".to_string(),
        }),
        warning(
            "Error: Failed to save the resized image to 'out/a.xyz'. Skipping.\n\
             Reason: The image format could not be determined"
        )
    );
    assert_eq!(outcome, BatchOutcome { processed_count: 0, skipped_count: 3 });

    assert_eq!(
        outcome.record(&saved("a.png")),
        Some(Notice {
            stream: Stream::Output,
            text: "Image 'in/a.png' resized successfully and saved to 'out/a.png'.".to_string(),
        })
    );
    assert_eq!(outcome, BatchOutcome { processed_count: 1, skipped_count: 3 });
}

#[test]
fn the_summary_names_both_counts() {
    let outcome = BatchOutcome { processed_count: 12, skipped_count: 0 };
    assert_eq!(
        outcome.summary(),
        Notice {
            stream: Stream::Output,
            text: "Batch processing completed. 12 files processed, 0 files skipped.".to_string(),
        }
    );
}

#[test]
fn a_full_counter_takes_no_more() {
    let full = BatchOutcome { processed_count: u64::MAX, skipped_count: 5 };
    assert!(!full.has_room_for(&saved("a.png")));
    assert!(full.has_room_for(&undecodable("a.txt")));
    assert!(full.has_room_for(&EntryEvent::Ignored));
    let full = BatchOutcome { processed_count: 5, skipped_count: u64::MAX };
    assert!(full.has_room_for(&saved("a.png")));
    assert!(!full.has_room_for(&undecodable("a.txt")));
    assert!(!full.has_room_for(&EntryEvent::MissingFileName { source: "a".to_string() }));
    let run = BatchRun { stage: BatchStage::ProcessingEntries, outcome: full };
    assert!(!run.accepts(&BatchEvent::Entry(undecodable("a.txt"))));
    assert!(run.accepts(&BatchEvent::Entry(saved("a.png"))));
}

#[test]
fn only_the_last_action_ends_the_process() {
    assert_eq!(BatchAction::ListEntries.exit_code(), None);
    assert_eq!(BatchAction::NextEntry(None).exit_code(), None);
}
