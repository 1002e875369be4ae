//! A run over every file of a directory.
//!
//! The run itself reads and writes files, which this library does not do. What it decides is
//! here: [`BatchRun`] is told what happened and answers with what to do next.
//! The caller first tries to create the output directory and reports the result.

use crate::error::{EXIT_FAILURE, EXIT_SUCCESS};
use crate::report::{
    create_dir_failed_message, create_dir_failed_text, missing_name_message, missing_name_text,
    on_error, on_output, read_dir_failed_message, read_dir_failed_text, save_skipped_message,
    save_skipped_text, saved_message, saved_text, summary_message, summary_text,
    undecodable_message, undecodable_text, with_reason, Notice, NoticeView,
};
use vstd::prelude::*;

verus! {

/// How many files a batch run has written and how many it has given up on.
#[derive(Clone, Copy, Debug, PartialEq, Eq, Structural)]
pub struct BatchOutcome {
    pub processed_count: u64,
    pub skipped_count: u64,
}

/// What became of one entry of the batch directory.
#[derive(Clone, Debug, PartialEq, Eq)]
pub enum EntryEvent {
    /// The entry is no regular file, or the listing could not read it: passed over in silence.
    Ignored,
    /// The file at `source` could not be decoded as an image.
    Undecodable { source: String },
    /// The path `source` has no last component to name the output file after.
    MissingFileName { source: String },
    /// The resized image could not be written to `destination`.
    SaveFailed { destination: String, reason: String },
    /// The image at `source` was resized and written to `destination`.
    Saved { source: String, destination: String },
}

impl EntryEvent {
    /// Whether the entry adds to the count of processed files.
    pub open spec fn is_processed(self) -> bool {
        self is Saved
    }

    /// Whether the entry adds to the count of skipped files.
    pub open spec fn is_skipped(self) -> bool {
        self is Undecodable || self is MissingFileName || self is SaveFailed
    }

    /// What the user is told about the entry.
    pub open spec fn notice(self) -> Option<NoticeView> {
        match self {
            EntryEvent::Ignored => None,
            EntryEvent::Undecodable { source } => Some(on_error(undecodable_text(source@))),
            EntryEvent::MissingFileName { source } => Some(on_error(missing_name_text(source@))),
            EntryEvent::SaveFailed { destination, reason } => Some(
                on_error(with_reason(save_skipped_text(destination@), reason@)),
            ),
            EntryEvent::Saved { source, destination } => Some(
                on_output(saved_text(source@, destination@)),
            ),
        }
    }
}

/// The number of entries of `entries` that count as processed.
pub open spec fn processed_among(entries: Seq<EntryEvent>) -> nat {
    entries.filter(|e: EntryEvent| e.is_processed()).len()
}

/// The number of entries of `entries` that count as skipped.
pub open spec fn skipped_among(entries: Seq<EntryEvent>) -> nat {
    entries.filter(|e: EntryEvent| e.is_skipped()).len()
}

impl BatchOutcome {
    /// The outcome of a run that has not looked at any file yet.
    pub open spec fn zero() -> BatchOutcome {
        BatchOutcome { processed_count: 0, skipped_count: 0 }
    }

    /// Whether the counter that `event` adds to can still grow.
    pub open spec fn can_count(self, event: EntryEvent) -> bool {
        &&& event.is_processed() ==> self.processed_count < u64::MAX
        &&& event.is_skipped() ==> self.skipped_count < u64::MAX
    }

    /// The outcome once `event` is counted.
    pub open spec fn after(self, event: EntryEvent) -> BatchOutcome {
        if event.is_processed() {
            BatchOutcome { processed_count: (self.processed_count + 1) as u64, ..self }
        } else if event.is_skipped() {
            BatchOutcome { skipped_count: (self.skipped_count + 1) as u64, ..self }
        } else {
            self
        }
    }

    /// The outcome once every entry of `entries` is counted, first to last.
    pub open spec fn after_all(self, entries: Seq<EntryEvent>) -> BatchOutcome
        decreases entries.len(),
    {
        if entries.len() == 0 {
            self
        } else {
            self.after_all(entries.drop_last()).after(entries.last())
        }
    }

    /// The outcome of a run that has not looked at any file yet.
    pub fn new() -> (outcome: BatchOutcome)
        ensures
            outcome == BatchOutcome::zero(),
    {
        BatchOutcome { processed_count: 0, skipped_count: 0 }
    }

    /// Tells whether [`BatchOutcome::record`] may be called with `event`.
    pub fn has_room_for(&self, event: &EntryEvent) -> (room: bool)
        ensures
            room == self.can_count(*event),
    {
        match event {
            EntryEvent::Ignored => true,
            EntryEvent::Saved { .. } => self.processed_count < u64::MAX,
            _ => self.skipped_count < u64::MAX,
        }
    }

    /// Counts one entry and returns what to tell the user about it.
    pub fn record(&mut self, event: &EntryEvent) -> (notice: Option<Notice>)
        requires
            old(self).can_count(*event),
        ensures
            *final(self) == old(self).after(*event),
            Notice::view_of(notice) == event.notice(),
    {
        match event {
            EntryEvent::Ignored => None,
            EntryEvent::Undecodable { source } => {
                self.skipped_count = self.skipped_count + 1;
                Some(Notice::error(undecodable_message(source.as_str())))
            },
            EntryEvent::MissingFileName { source } => {
                self.skipped_count = self.skipped_count + 1;
                Some(Notice::error(missing_name_message(source.as_str())))
            },
            EntryEvent::SaveFailed { destination, reason } => {
                self.skipped_count = self.skipped_count + 1;
                Some(Notice::error(save_skipped_message(destination.as_str(), reason.as_str())))
            },
            EntryEvent::Saved { source, destination } => {
                self.processed_count = self.processed_count + 1;
                Some(Notice::output(saved_message(source.as_str(), destination.as_str())))
            },
        }
    }

    /// The closing line of the run.
    pub fn summary(&self) -> (notice: Notice)
        ensures
            notice@ == on_output(
                summary_text(self.processed_count as nat, self.skipped_count as nat),
            ),
    {
        Notice::output(summary_message(self.processed_count, self.skipped_count))
    }
}

/// Where a batch run stands.
#[derive(Clone, Copy, Debug, PartialEq, Eq, Structural)]
pub enum BatchStage {
    /// The output directory is being created.
    CreatingOutputDir,
    /// The batch directory is being opened for listing.
    ListingEntries,
    /// The entries are being worked through, one at a time.
    ProcessingEntries,
    /// Every entry was attempted and the summary is out.
    Completed,
    /// The run was given up before any entry was looked at.
    Aborted,
}

/// What the caller reports to a [`BatchRun`].
#[derive(Clone, Debug, PartialEq, Eq)]
pub enum BatchEvent {
    /// The output directory exists now.
    OutputDirCreated,
    /// The output directory could not be created.
    OutputDirFailed { output_dir: String, reason: String },
    /// The batch directory is open for listing.
    EntriesListed,
    /// The batch directory could not be listed.
    ListingFailed { batch_dir: String, reason: String },
    /// The listing gave one more entry, and this became of it.
    Entry(EntryEvent),
    /// The listing is at its end.
    NoMoreEntries,
}

/// What a [`BatchRun`] asks the caller to do next.
#[derive(Clone, Debug, PartialEq, Eq)]
pub enum BatchAction {
    /// Open the batch directory for listing.
    ListEntries,
    /// Print the notice, if there is one, and attend to the next entry.
    NextEntry(Option<Notice>),
    /// Print the summary and end the process with success.
    Finish(Notice),
    /// Print the error and end the process with failure.
    Abort(Notice),
}

/// A [`BatchAction`] with its texts as sequences of characters.
pub enum BatchActionView {
    ListEntries,
    NextEntry(Option<NoticeView>),
    Finish(NoticeView),
    Abort(NoticeView),
}

impl View for BatchAction {
    type V = BatchActionView;

    open spec fn view(&self) -> BatchActionView {
        match *self {
            BatchAction::ListEntries => BatchActionView::ListEntries,
            BatchAction::NextEntry(notice) => BatchActionView::NextEntry(Notice::view_of(notice)),
            BatchAction::Finish(notice) => BatchActionView::Finish(notice@),
            BatchAction::Abort(notice) => BatchActionView::Abort(notice@),
        }
    }
}

impl BatchActionView {
    /// The status the process ends with, where the action ends it.
    pub open spec fn exit_code(self) -> Option<i32> {
        match self {
            BatchActionView::Finish(_) => Some(EXIT_SUCCESS),
            BatchActionView::Abort(_) => Some(EXIT_FAILURE),
            _ => None,
        }
    }
}

impl BatchAction {
    /// The status the process ends with, where the action ends it: 0 after the summary,
    /// 1 after an error.
    pub fn exit_code(&self) -> (code: Option<i32>)
        ensures
            code == self@.exit_code(),
    {
        match self {
            BatchAction::Finish(_) => Some(EXIT_SUCCESS),
            BatchAction::Abort(_) => Some(EXIT_FAILURE),
            _ => None,
        }
    }
}

/// A batch run: its stage and what it has counted so far.
#[derive(Clone, Copy, Debug, PartialEq, Eq, Structural)]
pub struct BatchRun {
    pub stage: BatchStage,
    pub outcome: BatchOutcome,
}

impl BatchRun {
    /// A run at its start.
    pub open spec fn fresh() -> BatchRun {
        BatchRun { stage: BatchStage::CreatingOutputDir, outcome: BatchOutcome::zero() }
    }

    /// Whether `event` can happen at this stage and can be counted.
    pub open spec fn expects(self, event: BatchEvent) -> bool {
        match self.stage {
            BatchStage::CreatingOutputDir => event is OutputDirCreated || event is OutputDirFailed,
            BatchStage::ListingEntries => event is EntriesListed || event is ListingFailed,
            BatchStage::ProcessingEntries => match event {
                BatchEvent::Entry(entry) => self.outcome.can_count(entry),
                BatchEvent::NoMoreEntries => true,
                _ => false,
            },
            BatchStage::Completed => false,
            BatchStage::Aborted => false,
        }
    }

    /// The run after `event`.
    pub open spec fn next(self, event: BatchEvent) -> BatchRun {
        match event {
            BatchEvent::OutputDirCreated => BatchRun { stage: BatchStage::ListingEntries, ..self },
            BatchEvent::OutputDirFailed { .. } => BatchRun { stage: BatchStage::Aborted, ..self },
            BatchEvent::EntriesListed => BatchRun { stage: BatchStage::ProcessingEntries, ..self },
            BatchEvent::ListingFailed { .. } => BatchRun { stage: BatchStage::Aborted, ..self },
            BatchEvent::Entry(entry) => BatchRun { outcome: self.outcome.after(entry), ..self },
            BatchEvent::NoMoreEntries => BatchRun { stage: BatchStage::Completed, ..self },
        }
    }

    /// What the caller is asked to do after `event`.
    pub open spec fn action(self, event: BatchEvent) -> BatchActionView {
        match event {
            BatchEvent::OutputDirCreated => BatchActionView::ListEntries,
            BatchEvent::OutputDirFailed { output_dir, reason } => BatchActionView::Abort(
                on_error(with_reason(create_dir_failed_text(output_dir@), reason@)),
            ),
            BatchEvent::EntriesListed => BatchActionView::NextEntry(None),
            BatchEvent::ListingFailed { batch_dir, reason } => BatchActionView::Abort(
                on_error(with_reason(read_dir_failed_text(batch_dir@), reason@)),
            ),
            BatchEvent::Entry(entry) => BatchActionView::NextEntry(entry.notice()),
            BatchEvent::NoMoreEntries => BatchActionView::Finish(
                on_output(
                    summary_text(
                        self.outcome.processed_count as nat,
                        self.outcome.skipped_count as nat,
                    ),
                ),
            ),
        }
    }

    /// The run after every entry of `entries`, first to last.
    pub open spec fn after_entries(self, entries: Seq<EntryEvent>) -> BatchRun
        decreases entries.len(),
    {
        if entries.len() == 0 {
            self
        } else {
            self.after_entries(entries.drop_last()).next(BatchEvent::Entry(entries.last()))
        }
    }

    /// A run at its start. The caller tries to create the output directory and reports
    /// the result with [`BatchRun::step`].
    pub fn new() -> (run: BatchRun)
        ensures
            run == BatchRun::fresh(),
    {
        BatchRun { stage: BatchStage::CreatingOutputDir, outcome: BatchOutcome::new() }
    }

    /// Tells whether [`BatchRun::step`] may be called with `event`.
    pub fn accepts(&self, event: &BatchEvent) -> (accepted: bool)
        ensures
            accepted == self.expects(*event),
    {
        match self.stage {
            BatchStage::CreatingOutputDir => match event {
                BatchEvent::OutputDirCreated => true,
                BatchEvent::OutputDirFailed { .. } => true,
                _ => false,
            },
            BatchStage::ListingEntries => match event {
                BatchEvent::EntriesListed => true,
                BatchEvent::ListingFailed { .. } => true,
                _ => false,
            },
            BatchStage::ProcessingEntries => match event {
                BatchEvent::Entry(entry) => self.outcome.has_room_for(entry),
                BatchEvent::NoMoreEntries => true,
                _ => false,
            },
            BatchStage::Completed => false,
            BatchStage::Aborted => false,
        }
    }

    /// Takes in what happened and answers with what to do next.
    pub fn step(&mut self, event: &BatchEvent) -> (action: BatchAction)
        requires
            old(self).expects(*event),
        ensures
            *final(self) == old(self).next(*event),
            action@ == old(self).action(*event),
    {
        match event {
            BatchEvent::OutputDirCreated => {
                self.stage = BatchStage::ListingEntries;
                BatchAction::ListEntries
            },
            BatchEvent::OutputDirFailed { output_dir, reason } => {
                self.stage = BatchStage::Aborted;
                BatchAction::Abort(
                    Notice::error(create_dir_failed_message(output_dir.as_str(), reason.as_str())),
                )
            },
            BatchEvent::EntriesListed => {
                self.stage = BatchStage::ProcessingEntries;
                BatchAction::NextEntry(None)
            },
            BatchEvent::ListingFailed { batch_dir, reason } => {
                self.stage = BatchStage::Aborted;
                BatchAction::Abort(
                    Notice::error(read_dir_failed_message(batch_dir.as_str(), reason.as_str())),
                )
            },
            BatchEvent::Entry(entry) => {
                let notice = self.outcome.record(entry);
                BatchAction::NextEntry(notice)
            },
            BatchEvent::NoMoreEntries => {
                self.stage = BatchStage::Completed;
                BatchAction::Finish(self.outcome.summary())
            },
        }
    }
}

/// Counting the entries one by one, in whatever order the listing gives them, yields the
/// number of written files and the number of files given up on; an entry is counted at most
/// once, and an ignored entry not at all.
pub proof fn lemma_outcome_counts_entries(entries: Seq<EntryEvent>)
    requires
        entries.len() <= u64::MAX,
    ensures
        BatchOutcome::zero().after_all(entries).processed_count == processed_among(entries),
        BatchOutcome::zero().after_all(entries).skipped_count == skipped_among(entries),
        processed_among(entries) + skipped_among(entries) <= entries.len(),
    decreases entries.len(),
{
    reveal(Seq::filter);
    if entries.len() > 0 {
        lemma_outcome_counts_entries(entries.drop_last());
    }
}

/// A run whose output directory and listing are in order accepts every entry, counts the
/// written files and the files given up on, leaves ignored entries uncounted, and ends with
/// the summary and status 0 however many files were skipped.
pub proof fn lemma_run_counts_entries(entries: Seq<EntryEvent>)
    requires
        entries.len() <= u64::MAX,
    ensures
        ({
            let created = BatchRun::fresh().next(BatchEvent::OutputDirCreated);
            let listed = created.next(BatchEvent::EntriesListed);
            let attempted = listed.after_entries(entries);
            let processed = processed_among(entries);
            let skipped = skipped_among(entries);
            &&& BatchRun::fresh().expects(BatchEvent::OutputDirCreated)
            &&& created.expects(BatchEvent::EntriesListed)
            &&& forall|i: int|
                0 <= i < entries.len() ==> #[trigger] listed.after_entries(entries.take(i)).expects(
                    BatchEvent::Entry(entries[i]),
                )
            &&& attempted.expects(BatchEvent::NoMoreEntries)
            &&& attempted.outcome.processed_count == processed
            &&& attempted.outcome.skipped_count == skipped
            &&& attempted.next(BatchEvent::NoMoreEntries).stage == BatchStage::Completed
            &&& attempted.next(BatchEvent::NoMoreEntries).outcome == attempted.outcome
            &&& attempted.action(BatchEvent::NoMoreEntries) == BatchActionView::Finish(
                on_output(summary_text(processed, skipped)),
            )
            &&& attempted.action(BatchEvent::NoMoreEntries).exit_code() == Some(0i32)
        }),
{
    let listed = BatchRun::fresh().next(BatchEvent::OutputDirCreated).next(
        BatchEvent::EntriesListed,
    );
    lemma_after_entries(listed, entries);
    lemma_outcome_counts_entries(entries);
    assert forall|i: int| 0 <= i < entries.len() implies #[trigger] listed.after_entries(
        entries.take(i),
    ).expects(BatchEvent::Entry(entries[i])) by {
        lemma_after_entries(listed, entries.take(i));
        lemma_outcome_counts_entries(entries.take(i));
    }
}

/// Entries move a run through no stage: they only add to its outcome.
proof fn lemma_after_entries(run: BatchRun, entries: Seq<EntryEvent>)
    ensures
        run.after_entries(entries).stage == run.stage,
        run.after_entries(entries).outcome == run.outcome.after_all(entries),
    decreases entries.len(),
{
    if entries.len() > 0 {
        lemma_after_entries(run, entries.drop_last());
    }
}

/// A run whose output directory cannot be created ends at once with the error and status 1:
/// nothing is counted, and the run expects no further event, so no entry is ever attended to.
pub proof fn lemma_uncreatable_output_dir_aborts(output_dir: String, reason: String)
    ensures
        ({
            let failure = BatchEvent::OutputDirFailed { output_dir, reason };
            let aborted = BatchRun::fresh().next(failure);
            &&& BatchRun::fresh().expects(failure)
            &&& BatchRun::fresh().action(failure) == BatchActionView::Abort(
                on_error(with_reason(create_dir_failed_text(output_dir@), reason@)),
            )
            &&& BatchRun::fresh().action(failure).exit_code() == Some(1i32)
            &&& aborted.stage == BatchStage::Aborted
            &&& aborted.outcome == BatchOutcome::zero()
            &&& forall|later: BatchEvent| !aborted.expects(later)
        }),
{
}

} // verus!
