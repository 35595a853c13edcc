//! The progress-update state machine: from a client's report, which may be
//! partial, to the one change that it makes to the consumption history.

use vstd::prelude::*;
use crate::clock::{Date, Timestamp};
use crate::error::ServiceError;
use crate::media::MetadataLot;
use crate::seen::{
    SeenExtraInformation, SeenPodcastExtraInformation, SeenRecord, SeenShowExtraInformation,
};

verus! {

/// A client's report of progress on one media item.
#[derive(Clone, Debug, PartialEq, Eq)]
pub struct ProgressUpdateInput {
    pub metadata_id: i32,
    /// Percentage consumed, `0..=100`; absent to give the item up.
    pub progress: Option<i32>,
    /// The day on which the item was finished.
    pub date: Option<Date>,
    pub show_season_number: Option<i32>,
    pub show_episode_number: Option<i32>,
    pub podcast_episode_number: Option<i32>,
    /// A key of the client's choosing: a report whose key is already stored
    /// is not applied again.
    pub identifier: Option<String>,
}

/// What a report amounts to.
#[derive(Clone, Copy, Debug, PartialEq, Eq, Structural)]
pub enum ProgressUpdateAction {
    /// The record under way moves on.
    Update,
    /// The item was finished today, in one go.
    Now,
    /// The item was finished at some earlier time.
    InThePast,
    /// The item was begun.
    JustStarted,
    /// The record under way is given up.
    Drop,
}

/// The action that a report stands for, given whether the user has a record
/// of the item under way.
pub open spec fn classify(
    progress: Option<i32>,
    date: Option<Date>,
    today: Date,
    has_active: bool,
) -> ProgressUpdateAction {
    match progress {
        None => ProgressUpdateAction::Drop,
        Some(p) => if p == 100 {
            match date {
                None => ProgressUpdateAction::InThePast,
                Some(day) => if day != today {
                    ProgressUpdateAction::InThePast
                } else if has_active {
                    ProgressUpdateAction::Update
                } else {
                    ProgressUpdateAction::Now
                },
            }
        } else if has_active {
            ProgressUpdateAction::Update
        } else {
            ProgressUpdateAction::JustStarted
        },
    }
}

impl ProgressUpdateAction {
    /// Classifies a report.
    pub fn of(progress: Option<i32>, date: Option<Date>, today: Date, has_active: bool) -> (action:
        ProgressUpdateAction)
        ensures
            action == classify(progress, date, today, has_active),
    {
        match progress {
            None => ProgressUpdateAction::Drop,
            Some(p) => {
                if p == 100 {
                    match date {
                        None => ProgressUpdateAction::InThePast,
                        Some(day) => {
                            if day.days_from_ce != today.days_from_ce {
                                ProgressUpdateAction::InThePast
                            } else if has_active {
                                ProgressUpdateAction::Update
                            } else {
                                ProgressUpdateAction::Now
                            }
                        },
                    }
                } else if has_active {
                    ProgressUpdateAction::Update
                } else {
                    ProgressUpdateAction::JustStarted
                }
            },
        }
    }
}

/// Whether a progress is one that a report may carry.
pub open spec fn valid_progress(progress: Option<i32>) -> bool {
    match progress {
        None => true,
        Some(p) => 0 <= p <= 100,
    }
}

/// Whether `record` is a record of `user_id` on `metadata_id` that is
/// neither finished nor given up.
pub open spec fn is_underway(record: SeenRecord, user_id: i32, metadata_id: i32) -> bool {
    &&& record.user_id == user_id
    &&& record.metadata_id == metadata_id
    &&& record.progress < 100
    &&& !record.dropped
}

/// Whether `records[i]` is the active record of the user on the item: of the
/// records under way the one updated last, and of several updated at the
/// same instant the one stored first.
pub open spec fn is_active_at(
    records: Seq<SeenRecord>,
    user_id: i32,
    metadata_id: i32,
    i: int,
) -> bool {
    &&& 0 <= i < records.len()
    &&& is_underway(records[i], user_id, metadata_id)
    &&& forall|j: int|
        0 <= j < records.len() && is_underway(#[trigger] records[j], user_id, metadata_id)
            ==> records[j].last_updated_on.micros <= records[i].last_updated_on.micros
    &&& forall|j: int|
        0 <= j < i && is_underway(#[trigger] records[j], user_id, metadata_id)
            ==> records[j].last_updated_on.micros < records[i].last_updated_on.micros
}

/// The place of the active record of the user on the item, if there is one.
pub open spec fn active_record(records: Seq<SeenRecord>, user_id: i32, metadata_id: i32) -> Option<
    int,
> {
    if exists|i: int| is_active_at(records, user_id, metadata_id, i) {
        Some(choose|i: int| is_active_at(records, user_id, metadata_id, i))
    } else {
        None
    }
}

/// There is an active record exactly where some record is under way, and
/// no two places hold the active record.
pub proof fn lemma_active_record(records: Seq<SeenRecord>, user_id: i32, metadata_id: i32)
    ensures
        active_record(records, user_id, metadata_id) is Some <==> exists|j: int|
            0 <= j < records.len() && is_underway(#[trigger] records[j], user_id, metadata_id),
        forall|i: int| #[trigger]
            is_active_at(records, user_id, metadata_id, i) ==> active_record(
                records,
                user_id,
                metadata_id,
            ) == Some(i),
        active_record(records, user_id, metadata_id) matches Some(i) ==> is_active_at(
            records,
            user_id,
            metadata_id,
            i,
        ),
{
    assert forall|i: int, k: int|
        is_active_at(records, user_id, metadata_id, i) && is_active_at(
            records,
            user_id,
            metadata_id,
            k,
        ) implies i == k by {
        if i < k {
            assert(is_underway(records[i], user_id, metadata_id));
        } else if k < i {
            assert(is_underway(records[k], user_id, metadata_id));
        }
    }
    let best = lemma_latest_underway_exists(records, user_id, metadata_id, records.len() as int);
    assert(records.take(records.len() as int) =~= records);
    if let Some(i) = active_record(records, user_id, metadata_id) {
        assert(is_underway(records[i], user_id, metadata_id));
    }
}

/// The better of the best place so far and place `n`.
spec fn next_best(
    records: Seq<SeenRecord>,
    user_id: i32,
    metadata_id: i32,
    n: int,
    best: Option<int>,
) -> Option<int> {
    if is_underway(records[n], user_id, metadata_id) {
        match best {
            None => Some(n),
            Some(b) => if records[b].last_updated_on.micros < records[n].last_updated_on.micros {
                Some(n)
            } else {
                Some(b)
            },
        }
    } else {
        best
    }
}

/// Whether `best` is the active record among the first `n` records.
spec fn best_among(
    records: Seq<SeenRecord>,
    user_id: i32,
    metadata_id: i32,
    n: int,
    best: Option<int>,
) -> bool {
    match best {
        Some(b) => is_active_at(records.take(n), user_id, metadata_id, b),
        None => forall|j: int| 0 <= j < n ==> !is_underway(#[trigger] records[j], user_id, metadata_id),
    }
}

proof fn lemma_best_step(
    records: Seq<SeenRecord>,
    user_id: i32,
    metadata_id: i32,
    n: int,
    best: Option<int>,
)
    requires
        0 <= n < records.len(),
        best_among(records, user_id, metadata_id, n, best),
    ensures
        best_among(
            records,
            user_id,
            metadata_id,
            n + 1,
            next_best(records, user_id, metadata_id, n, best),
        ),
{
    let head = records.take(n + 1);
    let shorter = records.take(n);
    match next_best(records, user_id, metadata_id, n, best) {
        None => {},
        Some(next) => {
            assert forall|k: int|
                0 <= k < head.len() && is_underway(
                    #[trigger] head[k],
                    user_id,
                    metadata_id,
                ) implies head[k].last_updated_on.micros <= head[next].last_updated_on.micros by {
                if k < n {
                    assert(is_underway(shorter[k], user_id, metadata_id));
                    assert(is_underway(records[k], user_id, metadata_id));
                }
            }
            assert forall|k: int|
                0 <= k < next && is_underway(
                    #[trigger] head[k],
                    user_id,
                    metadata_id,
                ) implies head[k].last_updated_on.micros < head[next].last_updated_on.micros by {
                assert(is_underway(shorter[k], user_id, metadata_id));
                assert(is_underway(records[k], user_id, metadata_id));
            }
            assert(is_active_at(head, user_id, metadata_id, next));
        },
    }
}

/// Where one of the first `n` records is under way, one of them is the
/// active record among those `n`.
proof fn lemma_latest_underway_exists(
    records: Seq<SeenRecord>,
    user_id: i32,
    metadata_id: i32,
    n: int,
) -> (best: Option<int>)
    requires
        0 <= n <= records.len(),
    ensures
        best_among(records, user_id, metadata_id, n, best),
    decreases n,
{
    if n > 0 {
        let before = lemma_latest_underway_exists(records, user_id, metadata_id, n - 1);
        lemma_best_step(records, user_id, metadata_id, n - 1, before);
        next_best(records, user_id, metadata_id, n - 1, before)
    } else {
        None
    }
}

/// Finds the active record of the user on the item.
pub fn find_active(records: &Vec<SeenRecord>, user_id: i32, metadata_id: i32) -> (found: Option<
    usize,
>)
    ensures
        match found {
            Some(i) => active_record(records@, user_id, metadata_id) == Some(i as int),
            None => active_record(records@, user_id, metadata_id) is None,
        },
{
    let mut best: Option<usize> = None;
    let mut k: usize = 0;
    while k < records.len()
        invariant
            k <= records@.len(),
            best matches Some(b) ==> b < k,
            best_among(
                records@,
                user_id,
                metadata_id,
                k as int,
                match best {
                    Some(b) => Some(b as int),
                    None => None,
                },
            ),
        decreases records@.len() - k,
    {
        proof {
            lemma_best_step(
                records@,
                user_id,
                metadata_id,
                k as int,
                match best {
                    Some(b) => Some(b as int),
                    None => None,
                },
            );
        }
        let record = &records[k];
        if record.user_id == user_id && record.metadata_id == metadata_id && record.progress < 100
            && !record.dropped {
            match best {
                None => {
                    best = Some(k);
                },
                Some(b) => {
                    if records[b].last_updated_on.micros < record.last_updated_on.micros {
                        best = Some(k);
                    }
                },
            }
        }
        k += 1;
    }
    proof {
        assert(records@.take(records@.len() as int) =~= records@);
        lemma_active_record(records@, user_id, metadata_id);
    }
    best
}

/// Whether `record` was stored under the key `identifier`. A report
/// without a key matches no record.
pub open spec fn carries_identifier(record: SeenRecord, identifier: Option<String>) -> bool {
    match (record.identifier, identifier) {
        (Some(stored), Some(given)) => stored@ == given@,
        _ => false,
    }
}

/// Whether `records[i]` is the first record stored under `identifier`.
pub open spec fn is_first_with_identifier(
    records: Seq<SeenRecord>,
    identifier: Option<String>,
    i: int,
) -> bool {
    &&& 0 <= i < records.len()
    &&& carries_identifier(records[i], identifier)
    &&& forall|j: int| 0 <= j < i ==> !carries_identifier(#[trigger] records[j], identifier)
}

/// The place of the first record stored under `identifier`, if there is one.
pub open spec fn replayed_record(records: Seq<SeenRecord>, identifier: Option<String>) -> Option<
    int,
> {
    if exists|i: int| is_first_with_identifier(records, identifier, i) {
        Some(choose|i: int| is_first_with_identifier(records, identifier, i))
    } else {
        None
    }
}

/// Finds the first record stored under `identifier`.
pub fn find_replayed(records: &Vec<SeenRecord>, identifier: &Option<String>) -> (found: Option<
    usize,
>)
    ensures
        match found {
            Some(i) => replayed_record(records@, *identifier) == Some(i as int),
            None => replayed_record(records@, *identifier) is None,
        },
        found is Some <==> exists|j: int|
            0 <= j < records@.len() && carries_identifier(#[trigger] records@[j], *identifier),
{
    let mut k: usize = 0;
    while k < records.len()
        invariant
            k <= records@.len(),
            forall|j: int| 0 <= j < k ==> !carries_identifier(#[trigger] records@[j], *identifier),
        decreases records@.len() - k,
    {
        let same = match (&records[k].identifier, identifier) {
            (Some(stored), Some(given)) => *stored == *given,
            _ => false,
        };
        if same {
            assert(is_first_with_identifier(records@, *identifier, k as int));
            assert forall|i: int| #[trigger]
                is_first_with_identifier(records@, *identifier, i) implies i == k by {
                if i < k {
                    assert(!carries_identifier(records@[i], *identifier));
                } else if k < i {
                    assert(!carries_identifier(records@[k as int], *identifier));
                }
            }
            return Some(k);
        }
        k += 1;
    }
    None
}

/// The episode locator that a new record of an item of kind `lot` gets from
/// the report: a show needs season and episode, a podcast its episode, and
/// other kinds take none.
pub open spec fn locator_for(lot: MetadataLot, input: ProgressUpdateInput) -> Result<
    Option<SeenExtraInformation>,
    ServiceError,
> {
    match lot {
        MetadataLot::Show => match (input.show_season_number, input.show_episode_number) {
            (Some(season), Some(episode)) => Ok(
                Some(SeenExtraInformation::Show(SeenShowExtraInformation { season, episode })),
            ),
            _ => Err(ServiceError::ValidationError),
        },
        MetadataLot::Podcast => match input.podcast_episode_number {
            Some(episode) => Ok(
                Some(SeenExtraInformation::Podcast(SeenPodcastExtraInformation { episode })),
            ),
            None => Err(ServiceError::ValidationError),
        },
        _ => Ok(None),
    }
}

/// Reads the episode locator for a new record from the report.
pub fn locate(lot: MetadataLot, input: &ProgressUpdateInput) -> (locator: Result<
    Option<SeenExtraInformation>,
    ServiceError,
>)
    ensures
        locator == locator_for(lot, *input),
{
    match lot {
        MetadataLot::Show => match (input.show_season_number, input.show_episode_number) {
            (Some(season), Some(episode)) => Ok(
                Some(SeenExtraInformation::Show(SeenShowExtraInformation { season, episode })),
            ),
            _ => Err(ServiceError::ValidationError),
        },
        MetadataLot::Podcast => match input.podcast_episode_number {
            Some(episode) => Ok(
                Some(SeenExtraInformation::Podcast(SeenPodcastExtraInformation { episode })),
            ),
            None => Err(ServiceError::ValidationError),
        },
        _ => Ok(None),
    }
}

/// The one change that a report makes to the records it was weighed
/// against.
#[derive(Clone, Debug, PartialEq, Eq)]
pub enum ProgressPlan {
    /// The report is stored already, on the item `metadata_id`: nothing
    /// changes.
    Replay { metadata_id: i32 },
    /// The record at `index` moves on to `progress`; where that finishes
    /// it, `completes_on` is the day to note.
    Advance { index: usize, progress: i32, completes_on: Option<Date>, last_updated_on: Timestamp },
    /// The record at `index` is given up.
    Abandon { index: usize, last_updated_on: Timestamp },
    /// `record` is stored.
    Create { record: SeenRecord },
}

/// The record that a report creates.
pub open spec fn created_record(
    action: ProgressUpdateAction,
    input: ProgressUpdateInput,
    user_id: i32,
    new_id: i32,
    locator: Option<SeenExtraInformation>,
    today: Date,
    now: Timestamp,
) -> SeenRecord {
    let begun = action == ProgressUpdateAction::JustStarted;
    SeenRecord {
        id: new_id,
        user_id,
        metadata_id: input.metadata_id,
        progress: if begun {
            0
        } else {
            100
        },
        started_on: if begun {
            Some(today)
        } else {
            None
        },
        finished_on: if begun {
            None
        } else {
            Some(today)
        },
        dropped: false,
        last_updated_on: now,
        identifier: input.identifier,
        extra_information: locator,
        show_information: None,
        podcast_information: None,
    }
}

/// What a report does, weighed against `records`.
///
/// A report whose key is stored already changes nothing. Otherwise its
/// progress must lie in `0..=100`. Then the active record, if any, decides
/// with the report what happens: the active record moves on or is given
/// up, or a record is created with the identity `new_id`. To give up an
/// item of which nothing is under way fails, whether or not the item
/// exists. Anything else needs the item to exist, `lot` being its kind.
pub open spec fn plan_for(
    records: Seq<SeenRecord>,
    lot: Option<MetadataLot>,
    input: ProgressUpdateInput,
    user_id: i32,
    new_id: i32,
    today: Date,
    now: Timestamp,
) -> Result<ProgressPlan, ServiceError> {
    let active = active_record(records, user_id, input.metadata_id);
    let action = classify(input.progress, input.date, today, active is Some);
    if let Some(stored) = replayed_record(records, input.identifier) {
        Ok(ProgressPlan::Replay { metadata_id: records[stored].metadata_id })
    } else if !valid_progress(input.progress) {
        Err(ServiceError::ValidationError)
    } else if action == ProgressUpdateAction::Drop && active is None {
        Err(ServiceError::StateConflict)
    } else if lot is None {
        Err(ServiceError::NotFound)
    } else {
        match action {
            ProgressUpdateAction::Update => Ok(
                ProgressPlan::Advance {
                    index: active->0 as usize,
                    progress: input.progress->0,
                    completes_on: if input.progress->0 == 100 {
                        Some(today)
                    } else {
                        None
                    },
                    last_updated_on: now,
                },
            ),
            ProgressUpdateAction::Drop => Ok(
                ProgressPlan::Abandon { index: active->0 as usize, last_updated_on: now },
            ),
            _ => match locator_for(lot->0, input) {
                Ok(locator) => Ok(
                    ProgressPlan::Create {
                        record: created_record(action, input, user_id, new_id, locator, today, now),
                    },
                ),
                Err(e) => Err(e),
            },
        }
    }
}

/// Weighs a report against `records`, which must hold every record of the
/// user on the item and every record stored under the report's key.
/// `lot` is the kind of the item, `None` where the item does not exist, and
/// `new_id` the identity for a record that the report may create.
pub fn plan_progress_update(
    records: &Vec<SeenRecord>,
    lot: Option<MetadataLot>,
    input: ProgressUpdateInput,
    user_id: i32,
    new_id: i32,
    today: Date,
    now: Timestamp,
) -> (plan: Result<ProgressPlan, ServiceError>)
    ensures
        plan == plan_for(records@, lot, input, user_id, new_id, today, now),
        plan matches Ok(ProgressPlan::Advance { index, .. }) ==> index < records@.len(),
        plan matches Ok(ProgressPlan::Abandon { index, .. }) ==> index < records@.len(),
{
    if let Some(stored) = find_replayed(records, &input.identifier) {
        return Ok(ProgressPlan::Replay { metadata_id: records[stored].metadata_id });
    }
    let valid = match input.progress {
        None => true,
        Some(p) => 0 <= p && p <= 100,
    };
    if !valid {
        return Err(ServiceError::ValidationError);
    }
    let active = find_active(records, user_id, input.metadata_id);
    proof {
        lemma_active_record(records@, user_id, input.metadata_id);
    }
    let action = ProgressUpdateAction::of(input.progress, input.date, today, active.is_some());
    if matches!(action, ProgressUpdateAction::Drop) && active.is_none() {
        return Err(ServiceError::StateConflict);
    }
    let lot = match lot {
        Some(lot) => lot,
        None => {
            return Err(ServiceError::NotFound);
        },
    };
    match action {
        ProgressUpdateAction::Update => {
            let index = active.unwrap();
            let progress = input.progress.unwrap();
            let completes_on = if progress == 100 {
                Some(today)
            } else {
                None
            };
            Ok(ProgressPlan::Advance { index, progress, completes_on, last_updated_on: now })
        },
        ProgressUpdateAction::Drop => {
            let index = active.unwrap();
            Ok(ProgressPlan::Abandon { index, last_updated_on: now })
        },
        _ => match locate(lot, &input) {
            Ok(locator) => {
                let begun = matches!(action, ProgressUpdateAction::JustStarted);
                let record = SeenRecord {
                    id: new_id,
                    user_id,
                    metadata_id: input.metadata_id,
                    progress: if begun {
                        0
                    } else {
                        100
                    },
                    started_on: if begun {
                        Some(today)
                    } else {
                        None
                    },
                    finished_on: if begun {
                        None
                    } else {
                        Some(today)
                    },
                    dropped: false,
                    last_updated_on: now,
                    identifier: input.identifier,
                    extra_information: locator,
                    show_information: None,
                    podcast_information: None,
                };
                Ok(ProgressPlan::Create { record })
            },
            Err(e) => Err(e),
        },
    }
}

impl ProgressPlan {
    /// Whether the plan can be carried out on `records`.
    pub open spec fn fits(self, records: Seq<SeenRecord>) -> bool {
        match self {
            ProgressPlan::Advance { index, .. } => index < records.len(),
            ProgressPlan::Abandon { index, .. } => index < records.len(),
            _ => true,
        }
    }

    /// The records after the plan was carried out.
    pub open spec fn applied(self, records: Seq<SeenRecord>) -> Seq<SeenRecord> {
        match self {
            ProgressPlan::Replay { .. } => records,
            ProgressPlan::Advance { index, progress, completes_on, last_updated_on } => {
                let before = records[index as int];
                records.update(
                    index as int,
                    SeenRecord {
                        progress,
                        last_updated_on,
                        finished_on: if completes_on is Some {
                            completes_on
                        } else {
                            before.finished_on
                        },
                        ..before
                    },
                )
            },
            ProgressPlan::Abandon { index, last_updated_on } => {
                let before = records[index as int];
                records.update(
                    index as int,
                    SeenRecord { dropped: true, last_updated_on, ..before },
                )
            },
            ProgressPlan::Create { record } => records.push(record),
        }
    }

    /// The place, after the plan was carried out, of the record that it
    /// made or changed; a replay has none.
    pub open spec fn affected(self, records: Seq<SeenRecord>) -> Option<int> {
        match self {
            ProgressPlan::Replay { .. } => None,
            ProgressPlan::Advance { index, .. } => Some(index as int),
            ProgressPlan::Abandon { index, .. } => Some(index as int),
            ProgressPlan::Create { .. } => Some(records.len() as int),
        }
    }

    /// The number that the caller is answered with: the identity of the
    /// record made or changed, and for a replay the item that the stored
    /// report was about.
    pub open spec fn answer(self, records: Seq<SeenRecord>) -> i32 {
        match self {
            ProgressPlan::Replay { metadata_id } => metadata_id,
            ProgressPlan::Advance { index, .. } => records[index as int].id,
            ProgressPlan::Abandon { index, .. } => records[index as int].id,
            ProgressPlan::Create { record } => record.id,
        }
    }

    /// Carries the plan out on `records` and returns the place of the
    /// record made or changed.
    pub fn apply(self, records: &mut Vec<SeenRecord>) -> (place: Option<usize>)
        requires
            self.fits(old(records)@),
        ensures
            final(records)@ == self.applied(old(records)@),
            match place {
                Some(i) => {
                    &&& self.affected(old(records)@) == Some(i as int)
                    &&& i < final(records)@.len()
                },
                None => self.affected(old(records)@) is None,
            },
    {
        match self {
            ProgressPlan::Replay { .. } => None,
            ProgressPlan::Advance { index, progress, completes_on, last_updated_on } => {
                records[index].progress = progress;
                records[index].last_updated_on = last_updated_on;
                if completes_on.is_some() {
                    records[index].finished_on = completes_on;
                }
                Some(index)
            },
            ProgressPlan::Abandon { index, last_updated_on } => {
                records[index].dropped = true;
                records[index].last_updated_on = last_updated_on;
                Some(index)
            },
            ProgressPlan::Create { record } => {
                let place = records.len();
                records.push(record);
                Some(place)
            },
        }
    }
}

} // verus!
