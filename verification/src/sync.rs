//! One synchronisation pass over all streams, and the guard that lets at
//! most one pass run at a time.
//!
//! Like a download, a pass does nothing to the outside world itself: it names
//! the next thing to be done ([`SyncAction`]) and is told the outcome
//! ([`SyncEvent`]). The streams are worked in a fixed order, electricity
//! before gas, and within a stream consumption before tariff.

use vstd::prelude::*;
use crate::calendar::Date;
use crate::calendar::Timestamp;
use crate::calendar::midnight_seconds;
use crate::download::DownloadAction;
use crate::download::DownloadEvent;
use crate::download::Downloader;
use crate::profile::EnergyProfile;

verus! {

/// What the user interface is told about the application.
#[derive(Clone, Copy, Debug, PartialEq, Eq, Structural)]
pub struct StatusResponse {
    pub is_downloading: bool,
    pub is_client_available: bool,
}

/// Sent when a pass begins and when it ends.
#[derive(Clone, Copy, Debug, PartialEq, Eq, Structural)]
pub struct AppStatusUpdateEvent {
    pub is_downloading: bool,
}

/// The two flags that all tasks of the process share: whether a pass is
/// running, and whether a provider could be set up.
#[derive(Clone, Copy, Debug, PartialEq, Eq, Structural)]
pub struct SyncGuard {
    pub downloading: bool,
    pub client_available: bool,
}

impl SyncGuard {
    /// Whether a pass that asks now is let in.
    pub open spec fn admits(self) -> bool {
        !self.downloading
    }

    /// The guard while a pass runs.
    pub open spec fn taken(self) -> SyncGuard {
        SyncGuard { downloading: true, client_available: self.client_available }
    }

    /// The guard when no pass runs.
    pub open spec fn released(self) -> SyncGuard {
        SyncGuard { downloading: false, client_available: self.client_available }
    }

    /// A guard with no pass running and no provider known.
    pub fn new() -> (guard: SyncGuard)
        ensures
            guard == (SyncGuard { downloading: false, client_available: false }),
    {
        SyncGuard { downloading: false, client_available: false }
    }

    /// Asks to run a pass. The answer is yes exactly when none is running,
    /// and from then on one is; a pass that is refused changes nothing.
    pub fn try_begin(&mut self) -> (admitted: bool)
        ensures
            admitted == old(self).admits(),
            *final(self) == old(self).taken(),
            !admitted ==> *final(self) == *old(self),
    {
        if self.downloading {
            false
        } else {
            self.downloading = true;
            true
        }
    }

    /// Ends the pass, if one runs.
    pub fn finish(&mut self)
        ensures
            *final(self) == old(self).released(),
            final(self).admits(),
    {
        self.downloading = false;
    }

    /// Records whether a provider could be set up.
    pub fn set_client_available(&mut self, available: bool)
        ensures
            *final(self) == (SyncGuard { client_available: available, ..*old(self) }),
    {
        self.client_available = available;
    }

    /// The flags as the user interface sees them.
    pub fn status(&self) -> (status: StatusResponse)
        ensures
            status == (StatusResponse {
                is_downloading: self.downloading,
                is_client_available: self.client_available,
            }),
    {
        StatusResponse {
            is_downloading: self.downloading,
            is_client_available: self.client_available,
        }
    }
}

/// Of two passes that ask one after the other, only the first is let in, and
/// the second leaves the guard as it found it; once the first has finished,
/// the next is let in again.
pub proof fn lemma_single_flight(guard: SyncGuard)
    ensures
        !guard.taken().admits(),
        guard.taken().taken() == guard.taken(),
        guard.taken().released().admits(),
        guard.released().released() == guard.released(),
{
}

/// A stream of data with a profile and a checkpoint of its own.
#[derive(Clone, Copy, Debug, PartialEq, Eq, Structural)]
pub enum Stream {
    Electricity,
    Gas,
}

/// What is downloaded for a stream.
#[derive(Clone, Copy, Debug, PartialEq, Eq, Structural)]
pub enum DataKind {
    Consumption,
    Tariff,
}

/// What a provider can deliver besides consumption.
#[derive(Clone, Copy, Debug, PartialEq, Eq, Structural)]
pub struct Capabilities {
    pub electricity_tariff_history: bool,
    pub gas_tariff_history: bool,
}

impl Capabilities {
    /// Whether the provider has the tariff history of `stream`.
    pub open spec fn tariff_history(self, stream: Stream) -> bool {
        match stream {
            Stream::Electricity => self.electricity_tariff_history,
            Stream::Gas => self.gas_tariff_history,
        }
    }

    /// Whether the provider has the tariff history of `stream`.
    pub fn has_tariff_history(&self, stream: Stream) -> (has: bool)
        ensures
            has == self.tariff_history(stream),
    {
        match stream {
            Stream::Electricity => self.electricity_tariff_history,
            Stream::Gas => self.gas_tariff_history,
        }
    }
}

impl Stream {
    /// The stream that is worked after this one, if any.
    pub open spec fn following(self) -> Option<Stream> {
        match self {
            Stream::Electricity => Some(Stream::Gas),
            Stream::Gas => None,
        }
    }

    /// Name of the stream's profile.
    pub fn profile_name(&self) -> (name: &'static str)
        ensures
            name@ == (match self {
                Stream::Electricity => "electricity"@,
                Stream::Gas => "gas"@,
            }),
    {
        match self {
            Stream::Electricity => "electricity",
            Stream::Gas => "gas",
        }
    }

    /// Unit that a profile of the stream is created with.
    pub fn base_unit(&self) -> (unit: &'static str)
        ensures
            unit@ == "kWh"@,
    {
        "kWh"
    }

    /// What a download of this stream is called in progress events.
    pub fn download_name(&self, kind: DataKind) -> (name: &'static str)
        ensures
            name@ == (match (*self, kind) {
                (Stream::Electricity, DataKind::Consumption) => "electricity consumption"@,
                (Stream::Electricity, DataKind::Tariff) => "electricity tariff"@,
                (Stream::Gas, DataKind::Consumption) => "gas consumption"@,
                (Stream::Gas, DataKind::Tariff) => "gas tariff"@,
            }),
    {
        match (*self, kind) {
            (Stream::Electricity, DataKind::Consumption) => "electricity consumption",
            (Stream::Electricity, DataKind::Tariff) => "electricity tariff",
            (Stream::Gas, DataKind::Consumption) => "gas consumption",
            (Stream::Gas, DataKind::Tariff) => "gas tariff",
        }
    }
}

/// The later of two dates.
pub open spec fn later_of(first: Date, second: Date) -> Date {
    if first.days >= second.days {
        first
    } else {
        second
    }
}

/// Why a pass did not do all it set out to do.
#[derive(Clone, Copy, Debug, PartialEq, Eq, Structural)]
pub enum SyncFailure {
    /// The profile of the stream could be neither found nor created.
    Profile(Stream),
    /// A download of the stream failed.
    Download(Stream, DataKind),
    /// The new checkpoint of the stream could not be stored.
    Save(Stream),
    /// The pass was told of something it had not asked for.
    OutOfTurn,
}

/// What the driver of a pass reports back.
#[derive(Debug)]
pub enum SyncEvent {
    /// The status event was handed to the event sink, delivered or not.
    Announced,
    /// The profile of the stream, found or newly created.
    ProfileReady(EnergyProfile),
    /// The profile could be neither found nor created.
    ProfileFailed,
    /// The download asked for is complete.
    Downloaded { checkpoint: Date },
    /// The download asked for has failed.
    DownloadFailed,
    /// The profile is stored with its new checkpoint.
    ProfileSaved,
    /// The profile could not be stored.
    ProfileSaveFailed,
    /// The guard has been told that the pass is over.
    Released,
}

/// What the driver of a pass is to do next.
#[derive(Debug)]
pub enum SyncAction {
    /// Emit a status event.
    Announce(AppStatusUpdateEvent),
    /// Look the stream's profile up, creating it where there is none.
    FetchProfile { stream: Stream },
    /// Run a download of the stream back to `until`.
    Download { stream: Stream, kind: DataKind, until: Timestamp },
    /// Store the profile with these values.
    SaveProfile {
        energy_profile_id: i32,
        is_active: bool,
        start_date: Timestamp,
        last_date_retrieved: Timestamp,
    },
    /// Tell the guard that the pass is over.
    Release,
    /// Nothing more; `outcome` is the first failure, if there was one.
    Done { outcome: Result<(), SyncFailure> },
}

/// Where a pass stands.
#[derive(Clone, Copy, Debug, PartialEq, Eq, Structural)]
pub enum SyncPhase {
    AnnouncingStart,
    FetchingProfile(Stream),
    Downloading(Stream, DataKind),
    SavingProfile(Stream),
    Releasing,
    AnnouncingEnd,
    Finished,
}

/// The state of one pass.
#[derive(Debug)]
pub struct SyncPass {
    /// What the provider of this pass can deliver.
    pub capabilities: Capabilities,
    /// Where the pass stands.
    pub phase: SyncPhase,
    /// The profile of the stream in work, once it is known.
    pub profile: Option<EnergyProfile>,
    /// The latest checkpoint that a download of the stream in work has
    /// returned so far.
    pub checkpoint: Option<Date>,
    /// The first failure of the pass.
    pub failure: Option<SyncFailure>,
}

impl SyncPhase {
    /// Whether the phase belongs to the close of a pass, in which nothing is
    /// fetched or stored any more.
    pub open spec fn closing(self) -> bool {
        self is Releasing || self is AnnouncingEnd || self is Finished
    }

    /// How many steps a pass in this phase takes at most until it has
    /// finished, whatever is reported to it.
    pub open spec fn steps_left(self) -> nat {
        match self {
            SyncPhase::AnnouncingStart => 12,
            SyncPhase::FetchingProfile(Stream::Electricity) => 11,
            SyncPhase::Downloading(Stream::Electricity, DataKind::Consumption) => 10,
            SyncPhase::Downloading(Stream::Electricity, DataKind::Tariff) => 9,
            SyncPhase::SavingProfile(Stream::Electricity) => 8,
            SyncPhase::FetchingProfile(Stream::Gas) => 7,
            SyncPhase::Downloading(Stream::Gas, DataKind::Consumption) => 6,
            SyncPhase::Downloading(Stream::Gas, DataKind::Tariff) => 5,
            SyncPhase::SavingProfile(Stream::Gas) => 4,
            SyncPhase::Releasing => 2,
            SyncPhase::AnnouncingEnd => 1,
            SyncPhase::Finished => 0,
        }
    }
}

impl SyncPass {
    /// The profile and the checkpoint that the phase needs are there.
    pub open spec fn wf(&self) -> bool {
        match self.phase {
            SyncPhase::Downloading(_, DataKind::Consumption) => self.profile is Some,
            SyncPhase::Downloading(_, DataKind::Tariff) => self.profile is Some
                && self.checkpoint is Some,
            SyncPhase::SavingProfile(_) => self.profile is Some && self.checkpoint is Some,
            _ => true,
        }
    }

    /// The pass with `failure` noted, unless one is noted already.
    pub open spec fn failing(&self, failure: SyncFailure) -> Option<SyncFailure> {
        match self.failure {
            Some(first) => Some(first),
            None => Some(failure),
        }
    }

    /// The pass as it turns to the stream after `stream`, or to its close
    /// where there is none.
    pub open spec fn moved_on(&self, stream: Stream, failure: Option<SyncFailure>) -> SyncPass {
        SyncPass {
            capabilities: self.capabilities,
            phase: match stream.following() {
                Some(next) => SyncPhase::FetchingProfile(next),
                None => SyncPhase::Releasing,
            },
            profile: None,
            checkpoint: None,
            failure,
        }
    }

    /// The pass as it gives up what it was doing and turns to its close.
    pub open spec fn given_up(&self, failure: SyncFailure) -> SyncPass {
        SyncPass {
            capabilities: self.capabilities,
            phase: SyncPhase::Releasing,
            profile: None,
            checkpoint: None,
            failure: self.failing(failure),
        }
    }

    /// The state that `event` leads to.
    pub open spec fn after(&self, event: SyncEvent) -> SyncPass {
        match (self.phase, event) {
            (SyncPhase::AnnouncingStart, SyncEvent::Announced) => SyncPass {
                phase: SyncPhase::FetchingProfile(Stream::Electricity),
                profile: None,
                checkpoint: None,
                ..*self
            },
            (SyncPhase::FetchingProfile(stream), SyncEvent::ProfileReady(profile)) => {
                if profile.is_active {
                    SyncPass {
                        phase: SyncPhase::Downloading(stream, DataKind::Consumption),
                        profile: Some(profile),
                        checkpoint: None,
                        ..*self
                    }
                } else {
                    self.moved_on(stream, self.failure)
                }
            },
            (SyncPhase::FetchingProfile(stream), SyncEvent::ProfileFailed) => self.given_up(
                SyncFailure::Profile(stream),
            ),
            (
                SyncPhase::Downloading(stream, DataKind::Consumption),
                SyncEvent::Downloaded { checkpoint },
            ) => SyncPass {
                phase: if self.capabilities.tariff_history(stream) {
                    SyncPhase::Downloading(stream, DataKind::Tariff)
                } else {
                    SyncPhase::SavingProfile(stream)
                },
                checkpoint: Some(checkpoint),
                ..*self
            },
            (
                SyncPhase::Downloading(stream, DataKind::Tariff),
                SyncEvent::Downloaded { checkpoint },
            ) => SyncPass {
                phase: SyncPhase::SavingProfile(stream),
                checkpoint: Some(later_of(self.checkpoint.unwrap(), checkpoint)),
                ..*self
            },
            (SyncPhase::Downloading(stream, kind), SyncEvent::DownloadFailed) => self.given_up(
                SyncFailure::Download(stream, kind),
            ),
            (SyncPhase::SavingProfile(stream), SyncEvent::ProfileSaved) => self.moved_on(
                stream,
                self.failure,
            ),
            (SyncPhase::SavingProfile(stream), SyncEvent::ProfileSaveFailed) => self.moved_on(
                stream,
                self.failing(SyncFailure::Save(stream)),
            ),
            (SyncPhase::Releasing, _) => SyncPass {
                phase: SyncPhase::AnnouncingEnd,
                profile: None,
                checkpoint: None,
                ..*self
            },
            (SyncPhase::AnnouncingEnd, _) => SyncPass {
                phase: SyncPhase::Finished,
                profile: None,
                checkpoint: None,
                ..*self
            },
            (SyncPhase::Finished, _) => SyncPass {
                phase: SyncPhase::Finished,
                profile: None,
                checkpoint: None,
                ..*self
            },
            _ => self.given_up(SyncFailure::OutOfTurn),
        }
    }

    /// What the driver is to do in this state.
    pub open spec fn pending(&self) -> SyncAction {
        match self.phase {
            SyncPhase::AnnouncingStart => SyncAction::Announce(
                AppStatusUpdateEvent { is_downloading: true },
            ),
            SyncPhase::FetchingProfile(stream) => SyncAction::FetchProfile { stream },
            SyncPhase::Downloading(stream, kind) => SyncAction::Download {
                stream,
                kind,
                until: self.profile.unwrap().missing_from(),
            },
            SyncPhase::SavingProfile(_) => SyncAction::SaveProfile {
                energy_profile_id: self.profile.unwrap().energy_profile_id,
                is_active: self.profile.unwrap().is_active,
                start_date: self.profile.unwrap().start_date,
                last_date_retrieved: self.checkpoint.unwrap().midnight(),
            },
            SyncPhase::Releasing => SyncAction::Release,
            SyncPhase::AnnouncingEnd => SyncAction::Announce(
                AppStatusUpdateEvent { is_downloading: false },
            ),
            SyncPhase::Finished => SyncAction::Done {
                outcome: match self.failure {
                    Some(failure) => Err(failure),
                    None => Ok(()),
                },
            },
        }
    }

    /// Begins a pass, if the guard lets it in, and says what to do first:
    /// announce that a download is running. Where a pass is running already,
    /// nothing is begun and the guard is left as it is.
    pub fn begin(guard: &mut SyncGuard, capabilities: Capabilities) -> (begun: Option<
        (SyncPass, SyncAction),
    >)
        ensures
            begun is Some <==> old(guard).admits(),
            *final(guard) == old(guard).taken(),
            begun is None ==> *final(guard) == *old(guard),
            begun matches Some((pass, action)) ==> {
                &&& pass == (SyncPass {
                    capabilities,
                    phase: SyncPhase::AnnouncingStart,
                    profile: None,
                    checkpoint: None,
                    failure: None,
                })
                &&& pass.wf()
                &&& action == pass.pending()
            },
    {
        if !guard.try_begin() {
            return None;
        }
        let pass = SyncPass {
            capabilities,
            phase: SyncPhase::AnnouncingStart,
            profile: None,
            checkpoint: None,
            failure: None,
        };
        let action = pass.action();
        Some((pass, action))
    }

    /// Takes in what the driver reports and says what to do next.
    ///
    /// A stream whose profile is not active is passed over. A profile is
    /// stored only after every download of its stream is complete, with the
    /// later of their checkpoints. A failed download or a profile that cannot
    /// be had ends the work of the pass; a profile that cannot be stored
    /// does not keep the next stream from being worked. However the work
    /// ends, the guard is released and the end is announced before the pass
    /// is done.
    pub fn step(self, event: SyncEvent) -> (next: (SyncPass, SyncAction))
        requires
            self.wf(),
        ensures
            next.0.wf(),
            next.0 == self.after(event),
            next.1 == next.0.pending(),
    {
        let capabilities = self.capabilities;
        let failure = self.failure;
        let next = match (self.phase, event) {
            (SyncPhase::AnnouncingStart, SyncEvent::Announced) => SyncPass {
                capabilities,
                phase: SyncPhase::FetchingProfile(Stream::Electricity),
                profile: None,
                checkpoint: None,
                failure,
            },
            (SyncPhase::FetchingProfile(stream), SyncEvent::ProfileReady(profile)) => {
                if profile.is_active {
                    SyncPass {
                        capabilities,
                        phase: SyncPhase::Downloading(stream, DataKind::Consumption),
                        profile: Some(profile),
                        checkpoint: None,
                        failure,
                    }
                } else {
                    Self::turn_to_next(capabilities, stream, failure)
                }
            },
            (SyncPhase::FetchingProfile(stream), SyncEvent::ProfileFailed) => Self::give_up(
                capabilities,
                failure,
                SyncFailure::Profile(stream),
            ),
            (
                SyncPhase::Downloading(stream, DataKind::Consumption),
                SyncEvent::Downloaded { checkpoint },
            ) => {
                let phase = if capabilities.has_tariff_history(stream) {
                    SyncPhase::Downloading(stream, DataKind::Tariff)
                } else {
                    SyncPhase::SavingProfile(stream)
                };
                SyncPass {
                    capabilities,
                    phase,
                    profile: self.profile,
                    checkpoint: Some(checkpoint),
                    failure,
                }
            },
            (
                SyncPhase::Downloading(stream, DataKind::Tariff),
                SyncEvent::Downloaded { checkpoint },
            ) => {
                let first = self.checkpoint.unwrap();
                let latest = if first.days >= checkpoint.days {
                    first
                } else {
                    checkpoint
                };
                SyncPass {
                    capabilities,
                    phase: SyncPhase::SavingProfile(stream),
                    profile: self.profile,
                    checkpoint: Some(latest),
                    failure,
                }
            },
            (SyncPhase::Downloading(stream, kind), SyncEvent::DownloadFailed) => Self::give_up(
                capabilities,
                failure,
                SyncFailure::Download(stream, kind),
            ),
            (SyncPhase::SavingProfile(stream), SyncEvent::ProfileSaved) => Self::turn_to_next(
                capabilities,
                stream,
                failure,
            ),
            (SyncPhase::SavingProfile(stream), SyncEvent::ProfileSaveFailed) => {
                let noted = match failure {
                    Some(first) => Some(first),
                    None => Some(SyncFailure::Save(stream)),
                };
                Self::turn_to_next(capabilities, stream, noted)
            },
            (SyncPhase::Releasing, _) => SyncPass {
                capabilities,
                phase: SyncPhase::AnnouncingEnd,
                profile: None,
                checkpoint: None,
                failure,
            },
            (SyncPhase::AnnouncingEnd, _) => SyncPass {
                capabilities,
                phase: SyncPhase::Finished,
                profile: None,
                checkpoint: None,
                failure,
            },
            (SyncPhase::Finished, _) => SyncPass {
                capabilities,
                phase: SyncPhase::Finished,
                profile: None,
                checkpoint: None,
                failure,
            },
            _ => Self::give_up(capabilities, failure, SyncFailure::OutOfTurn),
        };
        let action = next.action();
        (next, action)
    }

    /// Whether the pass is done.
    pub fn is_finished(&self) -> (finished: bool)
        ensures
            finished == (self.phase is Finished),
    {
        match self.phase {
            SyncPhase::Finished => true,
            _ => false,
        }
    }

    fn turn_to_next(capabilities: Capabilities, stream: Stream, failure: Option<SyncFailure>) -> (next:
        SyncPass)
        ensures
            next == (SyncPass {
                capabilities,
                phase: match stream.following() {
                    Some(following) => SyncPhase::FetchingProfile(following),
                    None => SyncPhase::Releasing,
                },
                profile: None,
                checkpoint: None,
                failure,
            }),
    {
        let phase = match stream {
            Stream::Electricity => SyncPhase::FetchingProfile(Stream::Gas),
            Stream::Gas => SyncPhase::Releasing,
        };
        SyncPass { capabilities, phase, profile: None, checkpoint: None, failure }
    }

    fn give_up(capabilities: Capabilities, noted: Option<SyncFailure>, failure: SyncFailure) -> (next:
        SyncPass)
        ensures
            next == (SyncPass {
                capabilities,
                phase: SyncPhase::Releasing,
                profile: None,
                checkpoint: None,
                failure: match noted {
                    Some(first) => Some(first),
                    None => Some(failure),
                },
            }),
    {
        let failure = match noted {
            Some(first) => Some(first),
            None => Some(failure),
        };
        SyncPass { capabilities, phase: SyncPhase::Releasing, profile: None, checkpoint: None, failure }
    }

    fn action(&self) -> (action: SyncAction)
        requires
            self.wf(),
        ensures
            action == self.pending(),
    {
        match self.phase {
            SyncPhase::AnnouncingStart => SyncAction::Announce(
                AppStatusUpdateEvent { is_downloading: true },
            ),
            SyncPhase::FetchingProfile(stream) => SyncAction::FetchProfile { stream },
            SyncPhase::Downloading(stream, kind) => {
                match &self.profile {
                    Some(profile) => SyncAction::Download {
                        stream,
                        kind,
                        until: profile.until_date_time(),
                    },
                    None => SyncAction::Release,
                }
            },
            SyncPhase::SavingProfile(_) => {
                match (&self.profile, self.checkpoint) {
                    (Some(profile), Some(checkpoint)) => SyncAction::SaveProfile {
                        energy_profile_id: profile.energy_profile_id,
                        is_active: profile.is_active,
                        start_date: profile.start_date,
                        last_date_retrieved: checkpoint.at_midnight(),
                    },
                    _ => SyncAction::Release,
                }
            },
            SyncPhase::Releasing => SyncAction::Release,
            SyncPhase::AnnouncingEnd => SyncAction::Announce(
                AppStatusUpdateEvent { is_downloading: false },
            ),
            SyncPhase::Finished => SyncAction::Done {
                outcome: match self.failure {
                    Some(failure) => Err(failure),
                    None => Ok(()),
                },
            },
        }
    }
}

/// What the end of a download means to the pass that asked for it: a
/// checkpoint where it completed, a failure where it was abandoned, and
/// nothing while it is still under way.
pub open spec fn outcome_of(action: DownloadAction) -> Option<SyncEvent> {
    match action {
        DownloadAction::Complete { checkpoint } => Some(SyncEvent::Downloaded { checkpoint }),
        DownloadAction::Abandon { failure } => Some(SyncEvent::DownloadFailed),
        _ => None,
    }
}

/// Turns the closing word of a download into the report that the pass
/// expects of it.
pub fn download_outcome(action: &DownloadAction) -> (event: Option<SyncEvent>)
    ensures
        event == outcome_of(*action),
{
    match action {
        DownloadAction::Complete { checkpoint } => Some(
            SyncEvent::Downloaded { checkpoint: *checkpoint },
        ),
        DownloadAction::Abandon { failure: _ } => Some(SyncEvent::DownloadFailed),
        _ => None,
    }
}

/// The checkpoint moves only on success. A profile is stored only in answer
/// to a completed download, and then the profile that was fetched for the
/// stream is stored, its settings untouched; a failed download leads straight
/// to the close of the pass, in which nothing is fetched, downloaded or
/// stored any more.
pub proof fn lemma_checkpoint_moves_only_on_success(pass: SyncPass, event: SyncEvent)
    requires
        pass.wf(),
    ensures
        pass.after(event).phase is SavingProfile ==> {
            &&& event is Downloaded
            &&& pass.phase is Downloading
            &&& pass.after(event).profile == pass.profile
            &&& pass.after(event).pending() matches SyncAction::SaveProfile {
                energy_profile_id,
                is_active,
                start_date,
                last_date_retrieved,
            }
            &&& energy_profile_id == pass.profile.unwrap().energy_profile_id
            &&& is_active == pass.profile.unwrap().is_active
            &&& start_date == pass.profile.unwrap().start_date
            &&& last_date_retrieved.seconds >= midnight_seconds(event->checkpoint.days as int)
        },
        pass.phase is Downloading && event is DownloadFailed ==> pass.after(event).phase
            is Releasing,
        pass.phase.closing() ==> pass.after(event).phase.closing(),
        pass.after(event).phase.closing() ==> {
            &&& !(pass.after(event).pending() is SaveProfile)
            &&& !(pass.after(event).pending() is Download)
            &&& !(pass.after(event).pending() is FetchProfile)
        },
{
    if pass.after(event).phase is SavingProfile {
        let checkpoint = event->checkpoint;
        let merged = pass.after(event).checkpoint.unwrap();
        assert(merged.days >= checkpoint.days);
        assert(midnight_seconds(merged.days as int) >= midnight_seconds(checkpoint.days as int));
        assert(-9_000_000_000_000_000 < midnight_seconds(merged.days as int)
            < 9_000_000_000_000_000);
    }
}

/// A pass always comes to its end, and never without releasing the guard:
/// every report takes it at least one step closer to being done, the only
/// way to the closing announcement is through the release, and the only way
/// to the end is through the closing announcement.
pub proof fn lemma_pass_always_releases(pass: SyncPass, event: SyncEvent)
    requires
        pass.wf(),
    ensures
        pass.after(event).wf(),
        !(pass.phase is Finished) ==> pass.after(event).phase.steps_left()
            < pass.phase.steps_left(),
        pass.phase is Finished ==> pass.after(event).phase is Finished,
        pass.after(event).phase is Releasing ==> pass.after(event).pending() is Release,
        pass.after(event).phase is AnnouncingEnd ==> pass.phase is Releasing,
        pass.after(event).phase is Finished ==> pass.phase is AnnouncingEnd || pass.phase
            is Finished,
        pass.after(event).capabilities == pass.capabilities,
{
}

/// The streams are worked in their fixed order: a profile is fetched for
/// electricity first and for gas only after electricity is settled, and
/// the tariff of a stream is downloaded only after its consumption, and only
/// where the provider has it.
pub proof fn lemma_fixed_order(pass: SyncPass, event: SyncEvent)
    requires
        pass.wf(),
    ensures
        pass.after(event).phase == SyncPhase::FetchingProfile(Stream::Electricity) ==> pass.phase
            is AnnouncingStart,
        pass.after(event).phase == SyncPhase::FetchingProfile(Stream::Gas) ==> {
            ||| pass.phase == SyncPhase::FetchingProfile(Stream::Electricity)
            ||| pass.phase == SyncPhase::SavingProfile(Stream::Electricity)
        },
        forall|stream: Stream|
            pass.after(event).phase == SyncPhase::Downloading(stream, DataKind::Consumption)
                ==> pass.phase == SyncPhase::FetchingProfile(stream),
        forall|stream: Stream|
            pass.after(event).phase == SyncPhase::Downloading(stream, DataKind::Tariff) ==> {
                &&& pass.phase == SyncPhase::Downloading(stream, DataKind::Consumption)
                &&& pass.capabilities.tariff_history(stream)
            },
{
}

/// A window that cannot be loaded or stored costs the stream its pass: the
/// download is abandoned, which the pass takes as a failed download, upon
/// which it asks for the release of the guard and, whatever is reported to it
/// from then on, never asks for a profile to be stored.
pub proof fn lemma_failed_window_saves_nothing(download: Downloader, pass: SyncPass, next: SyncEvent)
    requires
        download.wf(),
        pass.wf(),
        pass.phase is Downloading,
    ensures
        download.phase is Loading ==> outcome_of(
            download.after(DownloadEvent::LoadFailed).pending(),
        ) == Some(SyncEvent::DownloadFailed),
        download.phase is Inserting ==> outcome_of(
            download.after(DownloadEvent::InsertFailed).pending(),
        ) == Some(SyncEvent::DownloadFailed),
        pass.after(SyncEvent::DownloadFailed).pending() == SyncAction::Release,
        pass.after(SyncEvent::DownloadFailed).failure is Some,
        !(pass.after(SyncEvent::DownloadFailed).after(next).pending() is SaveProfile),
        !(pass.after(SyncEvent::DownloadFailed).after(next).pending() is Download),
{
}

} // verus!
