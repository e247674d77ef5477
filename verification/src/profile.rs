//! Sync profiles: one per stream, holding whether the stream is synchronised
//! at all, from when on, and how far it has got.

use vstd::prelude::*;
use vstd::string::StringExecFns;
use crate::calendar::Date;
use crate::calendar::Timestamp;
use crate::calendar::lemma_midnight_round_trip;
use crate::calendar::midnight_seconds;
use crate::calendar::iso_date_of;
use crate::calendar::previous_month_start_days;
use crate::error::parse_iso_string_to_naive_date;
use crate::error::ApiError;
use crate::error::AppError;
use crate::error::RepositoryError;

verus! {

/// What is known about the synchronisation of one stream.
#[derive(Debug)]
pub struct EnergyProfile {
    pub energy_profile_id: i32,
    /// Name of the stream; no two profiles share one.
    pub name: String,
    /// History is downloaded only for an active profile.
    pub is_active: bool,
    /// The earliest instant the user wants history for.
    pub start_date: Timestamp,
    /// Up to when history has been stored; `None` before the first pass.
    pub last_date_retrieved: Option<Timestamp>,
    /// Unit in which the stream's values are shown.
    pub base_unit: String,
}

/// One change of a profile's settings, as the user sends it.
#[derive(Debug)]
pub struct EnergyProfileUpdateParam {
    pub energy_profile_id: i32,
    pub is_active: bool,
    /// The new start, as an ISO 8601 date or date-time.
    pub start_date: String,
}

/// The checkpoint that is kept when the start of a profile moves from
/// `old_start` to `new_start`: history that was fetched stays fetched, unless
/// the start moves back, in which case everything is fetched again.
pub open spec fn checkpoint_after_restart(
    old_start: Timestamp,
    new_start: Timestamp,
    checkpoint: Option<Timestamp>,
) -> Option<Timestamp> {
    if new_start.seconds < old_start.seconds {
        None
    } else {
        checkpoint
    }
}

impl EnergyProfile {
    /// From when on history is missing: the checkpoint, or the start where
    /// nothing has been stored yet.
    pub open spec fn missing_from(&self) -> Timestamp {
        match self.last_date_retrieved {
            Some(checkpoint) => checkpoint,
            None => self.start_date,
        }
    }

    /// From when on history is missing: the checkpoint, or the start where
    /// nothing has been stored yet.
    pub fn until_date_time(&self) -> (until: Timestamp)
        ensures
            until == self.missing_from(),
    {
        match self.last_date_retrieved {
            Some(checkpoint) => checkpoint,
            None => self.start_date,
        }
    }

    /// The profile a stream gets when it is first met: active, with nothing
    /// stored yet.
    pub fn created(energy_profile_id: i32, name: String, base_unit: String, start_date: Timestamp) -> (profile:
        EnergyProfile)
        ensures
            profile == (EnergyProfile {
                energy_profile_id,
                name,
                is_active: true,
                start_date,
                last_date_retrieved: None,
                base_unit,
            }),
    {
        EnergyProfile {
            energy_profile_id,
            name,
            is_active: true,
            start_date,
            last_date_retrieved: None,
            base_unit,
        }
    }

    /// The profile after a pass: the three changeable fields are
    /// overwritten, whatever they held.
    pub fn updated(self, is_active: bool, start_date: Timestamp, last_date_retrieved: Timestamp) -> (profile:
        EnergyProfile)
        ensures
            profile == (EnergyProfile {
                is_active,
                start_date,
                last_date_retrieved: Some(last_date_retrieved),
                ..self
            }),
    {
        EnergyProfile {
            energy_profile_id: self.energy_profile_id,
            name: self.name,
            is_active,
            start_date,
            last_date_retrieved: Some(last_date_retrieved),
            base_unit: self.base_unit,
        }
    }

    /// The profile after the user has changed its settings. The checkpoint
    /// is kept, also where the start moves past it; it is dropped only where
    /// the start moves back.
    pub fn with_settings(self, is_active: bool, start_date: Timestamp) -> (profile: EnergyProfile)
        ensures
            profile == (EnergyProfile {
                is_active,
                start_date,
                last_date_retrieved: checkpoint_after_restart(
                    self.start_date,
                    start_date,
                    self.last_date_retrieved,
                ),
                ..self
            }),
    {
        let last_date_retrieved = if start_date.seconds < self.start_date.seconds {
            None
        } else {
            self.last_date_retrieved
        };
        EnergyProfile {
            energy_profile_id: self.energy_profile_id,
            name: self.name,
            is_active,
            start_date,
            last_date_retrieved,
            base_unit: self.base_unit,
        }
    }
}

/// From when on a stream that is met for the first time on `today` is
/// synchronised: midnight of the first day of the month before.
pub fn default_start_date(today: Date) -> (start: Option<Timestamp>)
    ensures
        start is Some <==> today.has_previous_month(),
        start matches Some(instant) ==> {
            &&& instant.seconds == midnight_seconds(previous_month_start_days(today.days as int))
            &&& instant.valid()
            &&& instant.seconds < midnight_seconds(today.days as int)
        },
{
    match today.start_of_previous_month() {
        Some(first) => {
            proof {
                lemma_midnight_round_trip(first.days as int);
            }
            Some(first.at_midnight())
        },
        None => None,
    }
}

/// A store of sync profiles, as the synchronisation needs it. Every method
/// may fail. What a store can answer to a lookup and to a creation it says
/// itself, in `may_find` and `may_create`; a store that says nothing of
/// itself can answer anything. What is done with the answers is said where
/// they are used.
pub trait EnergyProfileRepository: Sized {
    /// Whether the store, being as `self` is, can answer a lookup of `name`
    /// with `answer` and be as `after` is from then on.
    open spec fn may_find(
        &self,
        name: Seq<char>,
        answer: Result<EnergyProfile, RepositoryError>,
        after: &Self,
    ) -> bool {
        true
    }

    /// Whether the store, being as `self` is, can answer the creation of a
    /// profile called `name` with the unit `base_unit` with `answer` and be
    /// as `after` is from then on.
    open spec fn may_create(
        &self,
        name: Seq<char>,
        base_unit: Seq<char>,
        answer: Result<EnergyProfile, RepositoryError>,
        after: &Self,
    ) -> bool {
        true
    }

    /// The profile called `name`.
    fn get_energy_profile(&mut self, name: &str) -> (answer: Result<EnergyProfile, RepositoryError>)
        ensures
            old(self).may_find(name@, answer, final(self)),
    ;

    /// All profiles.
    fn get_all_energy_profiles(&mut self) -> Result<Vec<EnergyProfile>, RepositoryError>;

    /// Creates an active profile called `name` and returns it.
    fn create_energy_profile(&mut self, name: &str, base_unit: &str) -> (answer: Result<
        EnergyProfile,
        RepositoryError,
    >)
        ensures
            old(self).may_create(name@, base_unit@, answer, final(self)),
    ;

    /// Overwrites the changeable fields of the profile with the given id.
    fn update_energy_profile(
        &mut self,
        energy_profile_id: i32,
        is_active: bool,
        start_date: Timestamp,
        last_date_retrieved: Timestamp,
    ) -> Result<EnergyProfile, RepositoryError>;

    /// Changes the settings of the profile with the given id.
    fn update_energy_profile_settings(
        &mut self,
        energy_profile_id: i32,
        is_active: bool,
        start_date: Timestamp,
    ) -> Result<EnergyProfile, RepositoryError>;
}

/// What is said when a profile can be neither found nor created.
pub open spec fn no_profile_text(name: Seq<char>, get_error: Seq<char>, create_error: Seq<char>) -> Seq<
    char,
> {
    "Failed to fetch profile "@ + name + ", get error: "@ + get_error + ", create error: "@
        + create_error
}

/// What a lookup after a failed creation comes to: the profile, where
/// someone else has created it in the meantime, or an error that tells of
/// the failed lookup and the failed creation.
pub fn found_or_failure(
    name: &str,
    get_error: &RepositoryError,
    create_error: &RepositoryError,
    found: Result<EnergyProfile, RepositoryError>,
) -> (settled: Result<EnergyProfile, AppError>)
    ensures
        settles(name@, *get_error, *create_error, found, settled),
{
    match found {
        Ok(profile) => Ok(profile),
        Err(_) => {
            let mut text = String::from_str("Failed to fetch profile ");
            text.append(name);
            text.append(", get error: ");
            text.append(get_error.message().as_str());
            text.append(", create error: ");
            text.append(create_error.message().as_str());
            Err(AppError::CustomError(text))
        },
    }
}

/// Whether `settled` is what [`found_or_failure`] makes of `found`.
pub open spec fn settles(
    name: Seq<char>,
    get_error: RepositoryError,
    create_error: RepositoryError,
    found: Result<EnergyProfile, RepositoryError>,
    settled: Result<EnergyProfile, AppError>,
) -> bool {
    match found {
        Ok(profile) => settled == Ok::<EnergyProfile, AppError>(profile),
        Err(_) => settled matches Err(AppError::CustomError(text)) && text@ == no_profile_text(
            name,
            get_error.text(),
            create_error.text(),
        ),
    }
}

/// Whether `settled` and `after` are what comes of asking `before` once more
/// for the profile called `name`, after the lookup and the creation have
/// failed: the profile that is found now, or else the error that tells of
/// both failures.
pub open spec fn found_at_last<R: EnergyProfileRepository>(
    before: R,
    name: Seq<char>,
    get_error: RepositoryError,
    create_error: RepositoryError,
    settled: Result<EnergyProfile, AppError>,
    after: R,
) -> bool {
    exists|found: Result<EnergyProfile, RepositoryError>| #[trigger]
        before.may_find(name, found, &after) && settles(
            name,
            get_error,
            create_error,
            found,
            settled,
        )
}

/// Whether `settled` and `after` are what comes of asking `before` to create
/// the profile called `name`, after the lookup has failed: the profile that
/// is created, or else what a second lookup comes to.
pub open spec fn created_after_miss<R: EnergyProfileRepository>(
    before: R,
    name: Seq<char>,
    base_unit: Seq<char>,
    get_error: RepositoryError,
    settled: Result<EnergyProfile, AppError>,
    after: R,
) -> bool {
    exists|created: Result<EnergyProfile, RepositoryError>, then: R| #[trigger]
        before.may_create(name, base_unit, created, &then) && match created {
            Ok(profile) => settled == Ok::<EnergyProfile, AppError>(profile) && after == then,
            Err(create_error) => found_at_last(then, name, get_error, create_error, settled, after),
        }
}

/// Whether `settled` and `after` are what getting or creating the profile
/// called `name` in the store `before` comes to: what the store answers to
/// the lookup of `name` where that is a profile; else what it answers to the
/// creation of `name` with `base_unit`, where that is a profile; else what
/// it answers to a second lookup of `name`, where that is a profile; else
/// an error. The store is asked nothing else, and each time it is as the
/// answer before left it.
pub open spec fn got_or_created<R: EnergyProfileRepository>(
    before: R,
    name: Seq<char>,
    base_unit: Seq<char>,
    settled: Result<EnergyProfile, AppError>,
    after: R,
) -> bool {
    exists|first: Result<EnergyProfile, RepositoryError>, then: R| #[trigger]
        before.may_find(name, first, &then) && match first {
            Ok(profile) => settled == Ok::<EnergyProfile, AppError>(profile) && after == then,
            Err(get_error) => created_after_miss(then, name, base_unit, get_error, settled, after),
        }
}

/// The profile called `name`, created where the store does not have it.
/// The store is asked for the profile first; only where that fails is it
/// asked to create one. Where that fails too, someone else may have created
/// the profile in between, so the store is asked for it once more, and only
/// where it is still not there is there an error.
pub fn get_or_create_energy_profile<R: EnergyProfileRepository>(
    repository: &mut R,
    name: &str,
    base_unit: &str,
) -> (profile: Result<EnergyProfile, AppError>)
    ensures
        got_or_created(*old(repository), name@, base_unit@, profile, *final(repository)),
        profile matches Err(error) ==> error is CustomError,
{
    let ghost start = *repository;
    let first = repository.get_energy_profile(name);
    let ghost looked_up = *repository;
    match first {
        Ok(profile) => {
            assert(start.may_find(name@, Ok(profile), &looked_up));
            Ok(profile)
        },
        Err(get_error) => {
            let created = repository.create_energy_profile(name, base_unit);
            let ghost tried = *repository;
            match created {
                Ok(profile) => {
                    assert(looked_up.may_create(name@, base_unit@, Ok(profile), &tried));
                    assert(created_after_miss(
                        looked_up,
                        name@,
                        base_unit@,
                        get_error,
                        Ok(profile),
                        tried,
                    ));
                    assert(start.may_find(name@, Err(get_error), &looked_up));
                    Ok(profile)
                },
                Err(create_error) => {
                    let found = repository.get_energy_profile(name);
                    let ghost last = *repository;
                    let settled = found_or_failure(name, &get_error, &create_error, found);
                    proof {
                        assert(tried.may_find(name@, found, &last));
                        assert(settles(name@, get_error, create_error, found, settled));
                        assert(found_at_last(tried, name@, get_error, create_error, settled, last));
                        assert(looked_up.may_create(
                            name@,
                            base_unit@,
                            Err(create_error),
                            &tried,
                        ));
                        assert(created_after_miss(
                            looked_up,
                            name@,
                            base_unit@,
                            get_error,
                            settled,
                            last,
                        ));
                        assert(start.may_find(name@, Err(get_error), &looked_up));
                    }
                    settled
                },
            }
        },
    }
}

/// Sync profiles kept in memory, numbered from 1 in the order they were
/// created. No profile is ever removed.
#[derive(Debug)]
pub struct EnergyProfileTable {
    pub profiles: Vec<EnergyProfile>,
}

/// Whether some profile is called `name`.
pub open spec fn has_profile(profiles: Seq<EnergyProfile>, name: Seq<char>) -> bool {
    exists|i: int| 0 <= i < profiles.len() && (#[trigger] profiles[i]).name@ == name
}

/// Whether a profile has the given id.
pub open spec fn has_id(profiles: Seq<EnergyProfile>, energy_profile_id: int) -> bool {
    1 <= energy_profile_id <= profiles.len()
}

impl EnergyProfileTable {
    /// Every profile has its position as its id, and no two profiles have
    /// the same name.
    pub open spec fn wf(&self) -> bool {
        &&& self.profiles@.len() <= i32::MAX
        &&& forall|i: int|
            0 <= i < self.profiles@.len() ==> (#[trigger] self.profiles@[i]).energy_profile_id == i
                + 1
        &&& forall|i: int, j: int|
            0 <= i < j < self.profiles@.len() ==> (#[trigger] self.profiles@[i]).name@ != (
            #[trigger] self.profiles@[j]).name@
    }

    /// A table without profiles.
    pub fn new() -> (table: EnergyProfileTable)
        ensures
            table.wf(),
            table.profiles@.len() == 0,
    {
        EnergyProfileTable { profiles: Vec::new() }
    }

    /// The profile called `name`, if there is one.
    pub fn get_energy_profile(&self, name: &str) -> (found: Option<EnergyProfile>)
        requires
            self.wf(),
        ensures
            found is Some <==> has_profile(self.profiles@, name@),
            found matches Some(profile) ==> {
                &&& profile.name@ == name@
                &&& has_id(self.profiles@, profile.energy_profile_id as int)
                &&& profile == self.profiles@[profile.energy_profile_id - 1]
            },
    {
        match self.position(name) {
            Some(index) => Some(self.profiles[index].duplicate()),
            None => None,
        }
    }

    /// The profile called `name`. Where there is none, one is created:
    /// active, starting at `start_date`, with nothing stored yet, and with
    /// the next free id. Where there is one, nothing changes, so that asking
    /// twice gives the same profile. The only failure is a table that is
    /// full.
    pub fn get_or_create(&mut self, name: &str, base_unit: &str, start_date: Timestamp) -> (profile:
        Result<EnergyProfile, RepositoryError>)
        requires
            old(self).wf(),
        ensures
            final(self).wf(),
            has_profile(old(self).profiles@, name@) ==> {
                &&& final(self).profiles@ == old(self).profiles@
                &&& profile matches Ok(found)
                &&& found.name@ == name@
                &&& has_id(old(self).profiles@, found.energy_profile_id as int)
                &&& found == old(self).profiles@[found.energy_profile_id - 1]
            },
            !has_profile(old(self).profiles@, name@) && old(self).profiles@.len() < i32::MAX ==> {
                &&& profile matches Ok(created)
                &&& created.energy_profile_id == old(self).profiles@.len() + 1
                &&& created.name@ == name@
                &&& created.is_active
                &&& created.start_date == start_date
                &&& created.last_date_retrieved is None
                &&& created.base_unit@ == base_unit@
                &&& final(self).profiles@ == old(self).profiles@.push(created)
                &&& has_profile(final(self).profiles@, name@)
            },
            !has_profile(old(self).profiles@, name@) && old(self).profiles@.len() >= i32::MAX ==> {
                &&& profile matches Err(RepositoryError::DieselError(detail))
                &&& detail@ == "no id is left"@
                &&& final(self).profiles@ == old(self).profiles@
            },
    {
        match self.position(name) {
            Some(index) => Ok(self.profiles[index].duplicate()),
            None => {
                if self.profiles.len() >= i32::MAX as usize {
                    return Err(RepositoryError::DieselError(String::from_str("no id is left")));
                }
                let energy_profile_id = (self.profiles.len() + 1) as i32;
                let created = EnergyProfile::created(
                    energy_profile_id,
                    String::from_str(name),
                    String::from_str(base_unit),
                    start_date,
                );
                let copy = created.duplicate();
                self.profiles.push(created);
                proof {
                    assert(self.profiles@[self.profiles@.len() - 1].name@ == name@);
                }
                Ok(copy)
            },
        }
    }

    /// Overwrites the three changeable fields of the profile with the given
    /// id and returns the profile as it then is. There is an error, and
    /// nothing changes, where no profile has the id.
    pub fn update_energy_profile(
        &mut self,
        energy_profile_id: i32,
        is_active: bool,
        start_date: Timestamp,
        last_date_retrieved: Timestamp,
    ) -> (profile: Result<EnergyProfile, RepositoryError>)
        requires
            old(self).wf(),
        ensures
            final(self).wf(),
            has_id(old(self).profiles@, energy_profile_id as int) ==> {
                &&& profile matches Ok(stored)
                &&& stored == (EnergyProfile {
                    is_active,
                    start_date,
                    last_date_retrieved: Some(last_date_retrieved),
                    ..old(self).profiles@[energy_profile_id - 1]
                })
                &&& final(self).profiles@ == old(self).profiles@.update(
                    energy_profile_id - 1,
                    stored,
                )
            },
            !has_id(old(self).profiles@, energy_profile_id as int) ==> {
                &&& profile matches Err(RepositoryError::NotFound)
                &&& final(self).profiles@ == old(self).profiles@
            },
    {
        if energy_profile_id < 1 || energy_profile_id as usize > self.profiles.len() {
            return Err(RepositoryError::NotFound);
        }
        let index = (energy_profile_id - 1) as usize;
        let stored = self.profiles[index].duplicate().updated(
            is_active,
            start_date,
            last_date_retrieved,
        );
        let copy = stored.duplicate();
        self.profiles.set(index, stored);
        Ok(copy)
    }

    /// Changes the settings of the profile with the given id and returns the
    /// profile as it then is. The checkpoint stays, unless the start moves
    /// back. There is an error, and nothing changes, where no profile has the
    /// id.
    pub fn update_energy_profile_settings(
        &mut self,
        energy_profile_id: i32,
        is_active: bool,
        start_date: Timestamp,
    ) -> (profile: Result<EnergyProfile, RepositoryError>)
        requires
            old(self).wf(),
        ensures
            final(self).wf(),
            has_id(old(self).profiles@, energy_profile_id as int) ==> {
                &&& profile matches Ok(stored)
                &&& stored == (EnergyProfile {
                    is_active,
                    start_date,
                    last_date_retrieved: checkpoint_after_restart(
                        old(self).profiles@[energy_profile_id - 1].start_date,
                        start_date,
                        old(self).profiles@[energy_profile_id - 1].last_date_retrieved,
                    ),
                    ..old(self).profiles@[energy_profile_id - 1]
                })
                &&& final(self).profiles@ == old(self).profiles@.update(
                    energy_profile_id - 1,
                    stored,
                )
            },
            !has_id(old(self).profiles@, energy_profile_id as int) ==> {
                &&& profile matches Err(RepositoryError::NotFound)
                &&& final(self).profiles@ == old(self).profiles@
            },
    {
        if energy_profile_id < 1 || energy_profile_id as usize > self.profiles.len() {
            return Err(RepositoryError::NotFound);
        }
        let index = (energy_profile_id - 1) as usize;
        let stored = self.profiles[index].duplicate().with_settings(is_active, start_date);
        let copy = stored.duplicate();
        self.profiles.set(index, stored);
        Ok(copy)
    }

    fn position(&self, name: &str) -> (found: Option<usize>)
        ensures
            found is Some <==> has_profile(self.profiles@, name@),
            found matches Some(index) ==> index < self.profiles@.len()
                && self.profiles@[index as int].name@ == name@,
    {
        let wanted = String::from_str(name);
        let mut index: usize = 0;
        while index < self.profiles.len()
            invariant
                index <= self.profiles.len(),
                wanted@ == name@,
                forall|i: int| 0 <= i < index ==> (#[trigger] self.profiles@[i]).name@ != name@,
            decreases self.profiles.len() - index,
        {
            if self.profiles[index].name == wanted {
                return Some(index);
            }
            index = index + 1;
        }
        None
    }
}

impl EnergyProfile {
    /// A copy of the profile.
    pub fn duplicate(&self) -> (copy: EnergyProfile)
        ensures
            copy == *self,
    {
        EnergyProfile {
            energy_profile_id: self.energy_profile_id,
            name: self.name.clone(),
            is_active: self.is_active,
            start_date: self.start_date,
            last_date_retrieved: self.last_date_retrieved,
            base_unit: self.base_unit.clone(),
        }
    }
}

/// Looking a stream's profile up creates it at most once: after the first
/// lookup the profile is there, so a second lookup finds it and adds nothing.
pub proof fn lemma_created_once(profiles: Seq<EnergyProfile>, created: EnergyProfile)
    ensures
        has_profile(profiles.push(created), created.name@),
        forall|name: Seq<char>|
            has_profile(profiles, name) ==> has_profile(profiles.push(created), name),
{
    let grown = profiles.push(created);
    assert(grown[grown.len() - 1].name@ == created.name@);
    assert forall|name: Seq<char>| has_profile(profiles, name) implies has_profile(
        grown,
        name,
    ) by {
        let i = choose|i: int| 0 <= i < profiles.len() && (#[trigger] profiles[i]).name@ == name;
        assert(grown[i].name@ == name);
    }
}

/// A change of a profile's settings, with the new start as an instant.
#[derive(Clone, Copy, Debug, PartialEq, Eq, Structural)]
pub struct ProfileSettings {
    pub energy_profile_id: i32,
    pub is_active: bool,
    pub start_date: Timestamp,
}

/// Whether `error` is what an unreadable start date is answered with.
pub open spec fn tells_of(error: ApiError, start_date: Seq<char>) -> bool {
    if crate::calendar::has_date_prefix(start_date) {
        error is ChronoParseError
    } else {
        error matches ApiError::Custom(detail) && detail@ == crate::error::no_date_text()
    }
}

/// Whether the new start of a change can be read.
pub open spec fn readable(update: EnergyProfileUpdateParam) -> bool {
    iso_date_of(update.start_date@) is Some
}

/// A change as it is applied: the new start is midnight of the date given.
pub open spec fn settings_of(update: EnergyProfileUpdateParam) -> ProfileSettings {
    ProfileSettings {
        energy_profile_id: update.energy_profile_id,
        is_active: update.is_active,
        start_date: Timestamp {
            seconds: midnight_seconds(iso_date_of(update.start_date@).unwrap()) as i64,
        },
    }
}

/// Reads the changes the user has made to the profiles. Either every start
/// date can be read, and the changes come back in the order given, or none
/// is to be applied: the error is that of the first date that cannot be
/// read.
pub fn parse_profile_updates(updates: &Vec<EnergyProfileUpdateParam>) -> (parsed: Result<
    Vec<ProfileSettings>,
    ApiError,
>)
    ensures
        parsed is Ok <==> forall|i: int| 0 <= i < updates.len() ==> readable(#[trigger] updates[i]),
        parsed matches Ok(settings) ==> {
            &&& settings.len() == updates.len()
            &&& forall|i: int|
                0 <= i < updates.len() ==> #[trigger] settings[i] == settings_of(updates[i])
        },
        parsed matches Err(error) ==> exists|first: int|
            {
                &&& 0 <= first < updates.len()
                &&& !readable(#[trigger] updates[first])
                &&& forall|i: int| 0 <= i < first ==> readable(#[trigger] updates[i])
                &&& tells_of(error, updates[first].start_date@)
            },
{
    let mut settings: Vec<ProfileSettings> = Vec::new();
    let mut index: usize = 0;
    while index < updates.len()
        invariant
            index <= updates.len(),
            settings.len() == index,
            forall|i: int| 0 <= i < index ==> readable(#[trigger] updates[i]),
            forall|i: int| 0 <= i < index ==> #[trigger] settings[i] == settings_of(updates[i]),
        decreases updates.len() - index,
    {
        let update = &updates[index];
        match parse_iso_string_to_naive_date(update.start_date.as_str()) {
            Ok(date) => {
                settings.push(
                    ProfileSettings {
                        energy_profile_id: update.energy_profile_id,
                        is_active: update.is_active,
                        start_date: date.at_midnight(),
                    },
                );
            },
            Err(error) => {
                assert(!readable(updates[index as int]));
                return Err(error);
            },
        }
        index = index + 1;
    }
    Ok(settings)
}

} // verus!
