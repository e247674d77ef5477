//! One history download: the walk, window by window, from today back to a
//! stream's checkpoint.
//!
//! The downloader fetches and stores nothing itself. It says what is to be
//! done next ([`DownloadAction`]) and is told how that went
//! ([`DownloadEvent`]); whoever drives it talks to the provider, the store and
//! the event sink.

use vstd::prelude::*;
use crate::calendar::Date;
use crate::calendar::Timestamp;
use crate::calendar::days_of_seconds;
use crate::window::Window;
use crate::window::WindowPolicy;
use crate::window::end_to_end;
use crate::window::lemma_percent_done_grows;
use crate::window::lemma_starts_decrease;
use crate::window::percent_done;
use crate::window::plan_windows;
use crate::window::planned;
use crate::window::progress_percentage;
use crate::window::spans;

verus! {

/// Progress of one download, as it is shown to the user.
#[derive(Debug)]
pub struct DownloadUpdateEvent {
    /// Share of the walk that is done, from 0 to 100.
    pub percentage: u32,
    /// What is being downloaded.
    pub name: String,
}

/// Why a download was given up.
#[derive(Clone, Copy, Debug, PartialEq, Eq, Structural)]
pub enum DownloadFailure {
    /// The provider did not deliver a window.
    Load,
    /// A window could not be stored.
    Insert,
    /// The downloader was told of something it had not asked for.
    OutOfTurn,
}

/// What the driver of a download reports back.
#[derive(Clone, Copy, Debug, PartialEq, Eq, Structural)]
pub enum DownloadEvent {
    /// The provider delivered the window asked for, with this many records.
    Loaded { records: usize },
    /// The provider failed.
    LoadFailed,
    /// The records of the window are stored.
    Inserted,
    /// The store failed.
    InsertFailed,
    /// The progress event was handed to the event sink, delivered or not.
    Reported,
}

/// What the driver of a download is to do next.
#[derive(Debug)]
pub enum DownloadAction {
    /// Fetch the records of `[start, end)` from the provider.
    Load { start: Date, end: Date },
    /// Store the records that were just fetched.
    Insert,
    /// Emit a progress event.
    Report(DownloadUpdateEvent),
    /// Nothing more: the stream is synchronised up to `checkpoint`.
    Complete { checkpoint: Date },
    /// Nothing more: the download has failed and no checkpoint is to be set.
    Abandon { failure: DownloadFailure },
}

/// Where a download stands.
#[derive(Clone, Copy, Debug, PartialEq, Eq, Structural)]
pub enum DownloadPhase {
    /// The current window is being fetched.
    Loading,
    /// The current window is being stored.
    Inserting,
    /// Progress after the current window is being reported.
    Reporting,
    /// All windows are done; the closing progress event is being reported.
    Closing,
    /// The download has succeeded.
    Complete,
    /// The download has failed.
    Abandoned(DownloadFailure),
}

/// The state of one download.
pub struct Downloader {
    /// What is being downloaded.
    pub name: String,
    /// The policy that cuts the windows.
    pub policy: WindowPolicy,
    /// The day of the pass, which becomes the checkpoint when it succeeds.
    pub today: Date,
    /// The day the walk goes back to.
    pub until: Date,
    /// The windows of the walk, newest first.
    pub windows: Vec<Window>,
    /// Number of windows that are finished.
    pub position: usize,
    /// Where the download stands.
    pub phase: DownloadPhase,
}

/// The phase and the number of finished windows after `event` arrives in
/// `phase`, `position` of `count` windows being finished.
pub open spec fn phase_after(
    phase: DownloadPhase,
    position: int,
    count: int,
    event: DownloadEvent,
) -> (DownloadPhase, int) {
    match (phase, event) {
        (DownloadPhase::Loading, DownloadEvent::Loaded { records }) => if records > 0 {
            (DownloadPhase::Inserting, position)
        } else {
            (DownloadPhase::Reporting, position)
        },
        (DownloadPhase::Loading, DownloadEvent::LoadFailed) => (
            DownloadPhase::Abandoned(DownloadFailure::Load),
            position,
        ),
        (DownloadPhase::Inserting, DownloadEvent::Inserted) => (DownloadPhase::Reporting, position),
        (DownloadPhase::Inserting, DownloadEvent::InsertFailed) => (
            DownloadPhase::Abandoned(DownloadFailure::Insert),
            position,
        ),
        (DownloadPhase::Reporting, DownloadEvent::Reported) => if position + 1 < count {
            (DownloadPhase::Loading, position + 1)
        } else {
            (DownloadPhase::Closing, position + 1)
        },
        (DownloadPhase::Closing, DownloadEvent::Reported) => (DownloadPhase::Complete, position),
        (DownloadPhase::Complete, _) => (DownloadPhase::Complete, position),
        (DownloadPhase::Abandoned(failure), _) => (DownloadPhase::Abandoned(failure), position),
        _ => (DownloadPhase::Abandoned(DownloadFailure::OutOfTurn), position),
    }
}

impl Downloader {
    /// The windows are those of the walk from `today` back to `until`, and
    /// the phase fits the number of finished windows.
    pub open spec fn wf(&self) -> bool {
        &&& self.today.valid()
        &&& self.until.valid()
        &&& spans(self.windows@) == planned(
            self.policy,
            self.today.days as int,
            self.until.days as int,
        )
        &&& end_to_end(self.windows@, self.today, self.until)
        &&& self.windows@.len() <= usize::MAX
        &&& self.until.days >= self.today.days ==> self.windows@.len() == 0
        &&& forall|i: int|
            0 <= i < self.windows@.len() ==> until_le_start(self.until, #[trigger] self.windows@[i])
        &&& match self.phase {
            DownloadPhase::Loading | DownloadPhase::Inserting | DownloadPhase::Reporting => {
                self.position < self.windows@.len()
            },
            DownloadPhase::Closing | DownloadPhase::Complete => {
                self.position == self.windows@.len()
            },
            DownloadPhase::Abandoned(_) => self.position <= self.windows@.len(),
        }
    }

    /// Whether the download has just begun.
    pub open spec fn fresh(&self) -> bool {
        &&& self.position == 0
        &&& self.phase == (if self.windows@.len() == 0 {
            DownloadPhase::Closing
        } else {
            DownloadPhase::Loading
        })
    }

    /// Share of the walk that is done once the window at `index` is.
    pub open spec fn percent_after(&self, index: int) -> int {
        percent_done(
            self.today.days - self.until.days,
            self.windows@[index].start.days - self.until.days,
        )
    }

    /// What the driver is to do in this state.
    pub open spec fn pending(&self) -> DownloadAction {
        match self.phase {
            DownloadPhase::Loading => DownloadAction::Load {
                start: self.windows@[self.position as int].start,
                end: self.windows@[self.position as int].end,
            },
            DownloadPhase::Inserting => DownloadAction::Insert,
            DownloadPhase::Reporting => DownloadAction::Report(
                DownloadUpdateEvent {
                    percentage: self.percent_after(self.position as int) as u32,
                    name: self.name,
                },
            ),
            DownloadPhase::Closing => DownloadAction::Report(
                DownloadUpdateEvent { percentage: 100, name: self.name },
            ),
            DownloadPhase::Complete => DownloadAction::Complete { checkpoint: self.today },
            DownloadPhase::Abandoned(failure) => DownloadAction::Abandon { failure },
        }
    }

    /// The state that `event` leads to.
    pub open spec fn after(&self, event: DownloadEvent) -> Downloader {
        let (phase, position) = phase_after(
            self.phase,
            self.position as int,
            self.windows@.len() as int,
            event,
        );
        Downloader {
            name: self.name,
            policy: self.policy,
            today: self.today,
            until: self.until,
            windows: self.windows,
            position: position as usize,
            phase,
        }
    }

    /// Begins the download called `name` on `today`, back to the date of the
    /// checkpoint `until`, and says what to do first: fetch the newest
    /// window, or, where nothing is missing, report 100 %.
    pub fn start(name: String, policy: WindowPolicy, today: Date, until: Timestamp) -> (begun: (
        Downloader,
        DownloadAction,
    ))
        requires
            today.valid(),
            until.valid(),
        ensures
            begun.0.wf(),
            begun.0.fresh(),
            begun.0.name@ == name@,
            begun.0.policy == policy,
            begun.0.today == today,
            begun.0.until.days == days_of_seconds(until.seconds as int),
            spans(begun.0.windows@) == planned(
                policy,
                today.days as int,
                days_of_seconds(until.seconds as int),
            ),
            begun.1 == begun.0.pending(),
    {
        let until_date = until.date();
        let windows = plan_windows(policy, today, until_date);
        let phase = if windows.len() == 0 {
            DownloadPhase::Closing
        } else {
            DownloadPhase::Loading
        };
        let downloader = Downloader {
            name,
            policy,
            today,
            until: until_date,
            windows,
            position: 0,
            phase,
        };
        assert forall|i: int| 0 <= i < downloader.windows@.len() implies until_le_start(
            downloader.until,
            #[trigger] downloader.windows@[i],
        ) by {}
        let action = downloader.action();
        (downloader, action)
    }

    /// Takes in what the driver reports and says what to do next.
    ///
    /// A failed load or insert ends the download without a checkpoint, and so
    /// does a report that was not asked for. After the last window the
    /// closing 100 % is reported, and only then is the download complete,
    /// with `today` as its checkpoint.
    pub fn step(self, event: DownloadEvent) -> (next: (Downloader, DownloadAction))
        requires
            self.wf(),
        ensures
            next.0.wf(),
            next.0 == self.after(event),
            next.1 == next.0.pending(),
    {
        let count = self.windows.len();
        let (phase, position) = match (self.phase, event) {
            (DownloadPhase::Loading, DownloadEvent::Loaded { records }) => {
                if records > 0 {
                    (DownloadPhase::Inserting, self.position)
                } else {
                    (DownloadPhase::Reporting, self.position)
                }
            },
            (DownloadPhase::Loading, DownloadEvent::LoadFailed) => {
                (DownloadPhase::Abandoned(DownloadFailure::Load), self.position)
            },
            (DownloadPhase::Inserting, DownloadEvent::Inserted) => {
                (DownloadPhase::Reporting, self.position)
            },
            (DownloadPhase::Inserting, DownloadEvent::InsertFailed) => {
                (DownloadPhase::Abandoned(DownloadFailure::Insert), self.position)
            },
            (DownloadPhase::Reporting, DownloadEvent::Reported) => {
                if self.position + 1 < count {
                    (DownloadPhase::Loading, self.position + 1)
                } else {
                    (DownloadPhase::Closing, self.position + 1)
                }
            },
            (DownloadPhase::Closing, DownloadEvent::Reported) => {
                (DownloadPhase::Complete, self.position)
            },
            (DownloadPhase::Complete, _) => (DownloadPhase::Complete, self.position),
            (DownloadPhase::Abandoned(failure), _) => {
                (DownloadPhase::Abandoned(failure), self.position)
            },
            _ => (DownloadPhase::Abandoned(DownloadFailure::OutOfTurn), self.position),
        };
        let next = Downloader {
            name: self.name,
            policy: self.policy,
            today: self.today,
            until: self.until,
            windows: self.windows,
            position,
            phase,
        };
        let action = next.action();
        (next, action)
    }

    /// Whether the download has ended, in success or in failure.
    pub fn is_over(&self) -> (over: bool)
        ensures
            over == (self.phase is Complete || self.phase is Abandoned),
    {
        match self.phase {
            DownloadPhase::Complete => true,
            DownloadPhase::Abandoned(_) => true,
            _ => false,
        }
    }

    /// Number of windows in the walk.
    pub fn window_count(&self) -> (count: usize)
        ensures
            count == self.windows@.len(),
    {
        self.windows.len()
    }

    fn action(&self) -> (action: DownloadAction)
        requires
            self.wf(),
        ensures
            action == self.pending(),
    {
        match self.phase {
            DownloadPhase::Loading => {
                let window = self.windows[self.position];
                DownloadAction::Load { start: window.start, end: window.end }
            },
            DownloadPhase::Inserting => DownloadAction::Insert,
            DownloadPhase::Reporting => {
                let window = self.windows[self.position];
                assert(until_le_start(self.until, window));
                let percentage = progress_percentage(
                    self.today.days_since(self.until),
                    window.start.days_since(self.until),
                );
                DownloadAction::Report(DownloadUpdateEvent { percentage, name: self.name.clone() })
            },
            DownloadPhase::Closing => DownloadAction::Report(
                DownloadUpdateEvent { percentage: 100, name: self.name.clone() },
            ),
            DownloadPhase::Complete => DownloadAction::Complete { checkpoint: self.today },
            DownloadPhase::Abandoned(failure) => DownloadAction::Abandon { failure },
        }
    }
}

/// Whether `window` starts on or after `until`.
pub open spec fn until_le_start(until: Date, window: Window) -> bool {
    until.days <= window.start.days
}

/// A download that finds nothing missing fetches nothing: it reports 100 %
/// once and is then complete, with the day of the pass as its checkpoint.
pub proof fn lemma_nothing_missing(begun: Downloader)
    requires
        begun.wf(),
        begun.fresh(),
        begun.until.days >= begun.today.days,
    ensures
        begun.windows@.len() == 0,
        begun.pending() == DownloadAction::Report(
            DownloadUpdateEvent { percentage: 100, name: begun.pending()->Report_0.name },
        ),
        begun.pending()->Report_0.name@ == begun.name@,
        begun.after(DownloadEvent::Reported).pending() == (DownloadAction::Complete {
            checkpoint: begun.today,
        }),
{
}

/// The windows are fetched in the order of the walk: while a download is
/// loading, the window it asks for is the first that is not finished, and
/// finishing it moves on by exactly one.
pub proof fn lemma_windows_in_order(state: Downloader)
    requires
        state.wf(),
        state.phase is Loading,
    ensures
        0 <= state.position < state.windows@.len(),
        state.pending() == (DownloadAction::Load {
            start: state.windows@[state.position as int].start,
            end: state.windows@[state.position as int].end,
        }),
        forall|records: usize|
            records > 0 ==> (#[trigger] state.after(DownloadEvent::Loaded { records })).pending()
                == DownloadAction::Insert,
        state.after(DownloadEvent::Loaded { records: 0 }).phase is Reporting,
        state.after(DownloadEvent::Loaded { records: 0 }).after(
            DownloadEvent::Reported,
        ).position == state.position + 1,
{
}

/// A download that has failed stays failed: whatever is reported afterwards,
/// it never completes and never names a checkpoint.
pub proof fn lemma_failure_is_final(state: Downloader, event: DownloadEvent)
    requires
        state.wf(),
    ensures
        state.phase is Loading && event is LoadFailed ==> state.after(event).phase
            == DownloadPhase::Abandoned(DownloadFailure::Load),
        state.phase is Inserting && event is InsertFailed ==> state.after(event).phase
            == DownloadPhase::Abandoned(DownloadFailure::Insert),
        state.phase is Abandoned ==> state.after(event).phase == state.phase,
        state.after(event).phase is Abandoned ==> state.after(event).pending() is Abandon,
        state.after(event).pending() is Complete ==> {
            &&& state.phase is Closing || state.phase is Complete
            &&& state.after(event).pending() == (DownloadAction::Complete {
                checkpoint: state.today,
            })
        },
{
}

/// Progress never goes back: the share reported after a later window is at
/// least that reported after an earlier one, every share lies between 0 and
/// 100, and the share after the last window is 100.
pub proof fn lemma_progress_grows(state: Downloader, earlier: int, later: int)
    requires
        state.wf(),
        0 <= earlier <= later < state.windows@.len(),
    ensures
        0 <= state.percent_after(earlier) <= state.percent_after(later) <= 100,
        state.percent_after(state.windows@.len() - 1) == 100,
{
    let total = state.today.days - state.until.days;
    let last = state.windows@.len() - 1;
    lemma_starts_decrease(state.windows@, state.today, state.until, earlier, later);
    lemma_percent_done_grows(
        total,
        state.windows@[earlier].start.days - state.until.days,
        state.windows@[later].start.days - state.until.days,
    );
    lemma_percent_done_grows(total, 0, 0);
}

} // verus!
