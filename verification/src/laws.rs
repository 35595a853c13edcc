//! What holds of the service whatever it has stored.

use vstd::prelude::*;
use crate::background::AfterMediaSeenJob;
use crate::clock::{Date, Timestamp};
use crate::collection::{
    is_default_name, is_outside, owned_and_named, CreateOrUpdateCollectionInput,
    DefaultCollection,
};
use crate::error::ServiceError;
use crate::media::{IdObject, MediaSpecifics, MetadataLot, ShowSpecifics};
use crate::progress::{
    active_record, carries_identifier, classify, is_first_with_identifier, lemma_active_record,
    locator_for, plan_for, replayed_record, ProgressPlan, ProgressUpdateAction,
    ProgressUpdateInput,
};
use crate::seen::SeenRecord;
use crate::lookup::{
    any, first_index, kept, lemma_first_index, lemma_ids_push, lemma_ids_update,
    lemma_kept_all, lemma_kept_concat, lemma_kept_members, lemma_kept_none, lemma_kept_push,
    lemma_kept_split, lemma_kept_twice,
};
use crate::review::PostReviewInput;
use crate::service::collections::{are_default_requests, is_default_request};
use crate::service::summaries::{is_latest_summary, of_other_user};
use crate::service::merge::{
    is_other_metadata, rehomed_reviews, rehomed_seen, review_refers_elsewhere, review_refers_to,
    seen_refers_elsewhere, seen_refers_to,
};
use crate::service::{has_metadata_id, lot_of, seen_key, ServiceState};
use crate::summary::{
    checked_totals_of, matched_podcast_episode, matched_show_episode, totals_of, Summary,
    SummaryModel,
};

verus! {

/// A report of a progress between 1 and 99 on an item of which the user has
/// no record under way begins the item. Unless the report is stored
/// already or lacks the episode that the kind of item demands, it creates a
/// record that is begun today, not finished, and stands at no progress.
pub proof fn law_first_report_begins(
    records: Seq<SeenRecord>,
    lot: MetadataLot,
    input: ProgressUpdateInput,
    user_id: i32,
    new_id: i32,
    today: Date,
    now: Timestamp,
)
    requires
        input.progress matches Some(p) && 1 <= p <= 99,
        active_record(records, user_id, input.metadata_id) is None,
    ensures
        classify(input.progress, input.date, today, false) == ProgressUpdateAction::JustStarted,
        replayed_record(records, input.identifier) is None && locator_for(lot, input) is Ok ==> {
            &&& plan_for(records, Some(lot), input, user_id, new_id, today, now) matches Ok(
                ProgressPlan::Create { record },
            )
            &&& record.id == new_id
            &&& record.user_id == user_id
            &&& record.metadata_id == input.metadata_id
            &&& record.progress == 0
            &&& record.started_on == Some(today)
            &&& record.finished_on is None
            &&& !record.dropped
        },
{
}

/// A report that an item was finished today, of which the user has no
/// record under way, is of an item finished in one go. Unless the report is
/// stored already or lacks the episode that the kind of item demands, it
/// creates a record that is finished today.
pub proof fn law_finished_today(
    records: Seq<SeenRecord>,
    lot: MetadataLot,
    input: ProgressUpdateInput,
    user_id: i32,
    new_id: i32,
    today: Date,
    now: Timestamp,
)
    requires
        input.progress == Some(100i32),
        input.date == Some(today),
        active_record(records, user_id, input.metadata_id) is None,
    ensures
        classify(input.progress, input.date, today, false) == ProgressUpdateAction::Now,
        replayed_record(records, input.identifier) is None && locator_for(lot, input) is Ok ==> {
            &&& plan_for(records, Some(lot), input, user_id, new_id, today, now) matches Ok(
                ProgressPlan::Create { record },
            )
            &&& record.id == new_id
            &&& record.progress == 100
            &&& record.started_on is None
            &&& record.finished_on == Some(today)
        },
{
}

/// A report that an item was finished on another day than today, or on no
/// stated day, is of an item finished in the past, whether or not the user
/// has a record of it under way. Unless the report is stored already or
/// lacks the episode that the kind of item demands, it creates a finished
/// record and leaves every other record as it was.
pub proof fn law_finished_in_the_past(
    records: Seq<SeenRecord>,
    lot: MetadataLot,
    input: ProgressUpdateInput,
    user_id: i32,
    new_id: i32,
    today: Date,
    now: Timestamp,
)
    requires
        input.progress == Some(100i32),
        input.date != Some(today),
    ensures
        forall|has_active: bool| #[trigger]
            classify(input.progress, input.date, today, has_active)
                == ProgressUpdateAction::InThePast,
        replayed_record(records, input.identifier) is None && locator_for(lot, input) is Ok ==> {
            &&& plan_for(records, Some(lot), input, user_id, new_id, today, now) matches Ok(
                ProgressPlan::Create { record },
            )
            &&& record.progress == 100
            &&& record.finished_on is Some
            &&& ProgressPlan::Create { record }.applied(records) == records.push(record)
        },
{
}

/// A report of a progress below 100 on an item of which the user has a
/// record under way moves that record on. Unless the report is stored
/// already, the active record then stands at the reported progress, bears
/// the instant of the report, and is otherwise as it was; no other record
/// changes.
pub proof fn law_report_advances(
    records: Seq<SeenRecord>,
    lot: MetadataLot,
    input: ProgressUpdateInput,
    user_id: i32,
    new_id: i32,
    today: Date,
    now: Timestamp,
)
    requires
        records.len() <= usize::MAX,
        input.progress matches Some(p) && 0 <= p < 100,
        active_record(records, user_id, input.metadata_id) is Some,
    ensures
        classify(input.progress, input.date, today, true) == ProgressUpdateAction::Update,
        replayed_record(records, input.identifier) is None ==> {
            let active = active_record(records, user_id, input.metadata_id)->0;
            &&& plan_for(records, Some(lot), input, user_id, new_id, today, now) matches Ok(plan)
            &&& plan.fits(records)
            &&& plan.affected(records) == Some(active)
            &&& plan.applied(records) == records.update(
                active,
                SeenRecord {
                    progress: input.progress->0,
                    last_updated_on: now,
                    ..records[active]
                },
            )
        },
{
    lemma_active_record(records, user_id, input.metadata_id);
}

/// A report without a progress on an item of which the user has no record
/// under way fails, there being nothing to give up, unless the report is
/// stored already. It fails so whether or not the item exists.
pub proof fn law_nothing_to_drop(
    records: Seq<SeenRecord>,
    lot: Option<MetadataLot>,
    input: ProgressUpdateInput,
    user_id: i32,
    new_id: i32,
    today: Date,
    now: Timestamp,
)
    requires
        input.progress is None,
        active_record(records, user_id, input.metadata_id) is None,
    ensures
        classify(input.progress, input.date, today, false) == ProgressUpdateAction::Drop,
        replayed_record(records, input.identifier) is None ==> plan_for(
            records,
            lot,
            input,
            user_id,
            new_id,
            today,
            now,
        ) == Err::<ProgressPlan, ServiceError>(ServiceError::StateConflict),
{
}

/// The service refuses to give up what is not under way and changes
/// nothing: a report without a progress whose key is not stored, on an
/// item of which the user has no record under way, fails with a conflict
/// of state, whether or not the item is stored. No record is made, given
/// up or touched, and no job is left.
pub proof fn law_service_has_nothing_to_drop(
    state: ServiceState,
    input: ProgressUpdateInput,
    user_id: i32,
    today: Date,
    now: Timestamp,
)
    requires
        input.progress is None,
        replayed_record(state.seen, input.identifier) is None,
        active_record(state.seen, user_id, input.metadata_id) is None,
    ensures
        state.progress_update(input, user_id, today, now) == (
            state,
            Err::<IdObject, ServiceError>(ServiceError::StateConflict),
        ),
{
}

/// Whether `after` is `before` with one record more, `made`, behind the
/// records that were there, and with a job that carries `made` and the
/// kind `lot` behind the jobs that were there; nothing else differs.
pub open spec fn stores_one_more(
    before: ServiceState,
    after: ServiceState,
    made: SeenRecord,
    lot: MetadataLot,
) -> bool {
    after == (ServiceState {
        seen: before.seen.push(made),
        next_seen_id: (before.next_seen_id + 1) as i32,
        after_media_seen: before.after_media_seen.push(
            AfterMediaSeenJob { seen: made, metadata_lot: lot },
        ),
        ..before
    })
}

/// The service begins an item on its first report. A report of a progress
/// between 1 and 99 whose key is not stored, on a stored item of which the
/// user has no record under way, is answered with the identity of a new
/// record, where the report names the episode that the kind of item
/// demands and an identity is left. The new record is the user's, of the
/// item, begun today and not finished; it stands behind the records that
/// were there, none of which changes.
pub proof fn law_service_begins_on_first_report(
    state: ServiceState,
    input: ProgressUpdateInput,
    user_id: i32,
    today: Date,
    now: Timestamp,
)
    requires
        input.progress matches Some(p) && 1 <= p <= 99,
        replayed_record(state.seen, input.identifier) is None,
        active_record(state.seen, user_id, input.metadata_id) is None,
        lot_of(state.metadata, input.metadata_id) matches Some(lot) && locator_for(lot, input)
            is Ok,
        state.next_seen_id < i32::MAX,
    ensures
        ({
            let (after, answer) = state.progress_update(input, user_id, today, now);
            let made = after.seen.last();
            &&& answer == Ok::<IdObject, ServiceError>(IdObject { id: made.id })
            &&& stores_one_more(state, after, made, lot_of(state.metadata, input.metadata_id)->0)
            &&& made.id == state.next_seen_id
            &&& made.user_id == user_id
            &&& made.metadata_id == input.metadata_id
            &&& made.progress == 0
            &&& made.started_on == Some(today)
            &&& made.finished_on is None
            &&& !made.dropped
        }),
{
    let (after, answer) = state.progress_update(input, user_id, today, now);
    let lot = lot_of(state.metadata, input.metadata_id);
    let plan = plan_for(state.seen, lot, input, user_id, state.next_seen_id, today, now)->Ok_0;
    assert(plan is Create);
    assert(after.seen == state.seen.push(plan->Create_record));
    assert(after.seen[state.seen.len() as int] == plan->Create_record);
}

/// The service records an item finished today in one go. A report of the
/// progress 100 dated today whose key is not stored, on a stored item of
/// which the user has no record under way, is answered with the identity
/// of a new record, where the report names the episode that the kind of
/// item demands and an identity is left. The new record is finished today
/// and bears no day of beginning; it stands behind the records that were
/// there, none of which changes.
pub proof fn law_service_finishes_today(
    state: ServiceState,
    input: ProgressUpdateInput,
    user_id: i32,
    today: Date,
    now: Timestamp,
)
    requires
        input.progress == Some(100i32),
        input.date == Some(today),
        replayed_record(state.seen, input.identifier) is None,
        active_record(state.seen, user_id, input.metadata_id) is None,
        lot_of(state.metadata, input.metadata_id) matches Some(lot) && locator_for(lot, input)
            is Ok,
        state.next_seen_id < i32::MAX,
    ensures
        ({
            let (after, answer) = state.progress_update(input, user_id, today, now);
            let made = after.seen.last();
            &&& answer == Ok::<IdObject, ServiceError>(IdObject { id: made.id })
            &&& stores_one_more(state, after, made, lot_of(state.metadata, input.metadata_id)->0)
            &&& made.id == state.next_seen_id
            &&& made.user_id == user_id
            &&& made.metadata_id == input.metadata_id
            &&& made.progress == 100
            &&& made.started_on is None
            &&& made.finished_on == Some(today)
        }),
{
    let (after, answer) = state.progress_update(input, user_id, today, now);
    let lot = lot_of(state.metadata, input.metadata_id);
    let plan = plan_for(state.seen, lot, input, user_id, state.next_seen_id, today, now)->Ok_0;
    assert(plan is Create);
    assert(after.seen == state.seen.push(plan->Create_record));
    assert(after.seen[state.seen.len() as int] == plan->Create_record);
}

/// The service records an item finished in the past beside whatever is
/// under way. A report of the progress 100, dated another day than today
/// or not at all, whose key is not stored, on a stored item, is answered
/// with the identity of a new record, where the report names the episode
/// that the kind of item demands and an identity is left. This is so
/// whether or not the user has a record of the item under way. The new
/// record is finished and bears no day of beginning; it stands behind the
/// records that were there, none of which changes, a record under way
/// included.
pub proof fn law_service_finishes_in_the_past(
    state: ServiceState,
    input: ProgressUpdateInput,
    user_id: i32,
    today: Date,
    now: Timestamp,
)
    requires
        input.progress == Some(100i32),
        input.date != Some(today),
        replayed_record(state.seen, input.identifier) is None,
        lot_of(state.metadata, input.metadata_id) matches Some(lot) && locator_for(lot, input)
            is Ok,
        state.next_seen_id < i32::MAX,
    ensures
        ({
            let (after, answer) = state.progress_update(input, user_id, today, now);
            let made = after.seen.last();
            &&& answer == Ok::<IdObject, ServiceError>(IdObject { id: made.id })
            &&& stores_one_more(state, after, made, lot_of(state.metadata, input.metadata_id)->0)
            &&& made.id == state.next_seen_id
            &&& made.user_id == user_id
            &&& made.metadata_id == input.metadata_id
            &&& made.progress == 100
            &&& made.started_on is None
            &&& made.finished_on is Some
            &&& forall|i: int| 0 <= i < state.seen.len() ==> after.seen[i] == state.seen[i]
        }),
{
    let (after, answer) = state.progress_update(input, user_id, today, now);
    let lot = lot_of(state.metadata, input.metadata_id);
    let plan = plan_for(state.seen, lot, input, user_id, state.next_seen_id, today, now)->Ok_0;
    assert(plan is Create);
    assert(after.seen == state.seen.push(plan->Create_record));
    assert(after.seen[state.seen.len() as int] == plan->Create_record);
}

/// A report whose key is stored already changes nothing, whenever it
/// comes: no record is added or changed and no job is left. It is answered
/// with the item that the stored report was about.
pub proof fn law_stored_report_changes_nothing(
    state: ServiceState,
    input: ProgressUpdateInput,
    user_id: i32,
    today: Date,
    now: Timestamp,
)
    requires
        replayed_record(state.seen, input.identifier) is Some,
    ensures
        state.progress_update(input, user_id, today, now) == (
            state,
            Ok::<IdObject, ServiceError>(
                IdObject {
                    id: state.seen[replayed_record(state.seen, input.identifier)->0].metadata_id,
                },
            ),
        ),
{
}

/// A report with a key that stored a record is not applied twice: sent
/// again, at whatever time, it leaves the service as the first report left
/// it, so that no record is added, and it is answered with the item. The
/// two answers are the same exactly where the first was the identity of
/// the item too.
pub proof fn law_report_is_not_applied_twice(
    state: ServiceState,
    input: ProgressUpdateInput,
    user_id: i32,
    today: Date,
    now: Timestamp,
    later_day: Date,
    later: Timestamp,
)
    requires
        state.wf(),
        input.identifier is Some,
        state.progress_update(input, user_id, today, now).1 is Ok,
        state.progress_update(input, user_id, today, now).0.seen.len() == state.seen.len() + 1,
    ensures
        ({
            let first = state.progress_update(input, user_id, today, now);
            let second = first.0.progress_update(input, user_id, later_day, later);
            &&& second.0 == first.0
            &&& second.1 == Ok::<IdObject, ServiceError>(IdObject { id: input.metadata_id })
            &&& second.1 == first.1 <==> first.1->Ok_0.id == input.metadata_id
        }),
{
    let first = state.progress_update(input, user_id, today, now);
    let lot = lot_of(state.metadata, input.metadata_id);
    let plan = plan_for(state.seen, lot, input, user_id, state.next_seen_id, today, now)->Ok_0;
    lemma_active_record(state.seen, user_id, input.metadata_id);
    assert(plan is Create);
    let record = plan->Create_record;
    let stored = state.seen.len() as int;
    assert(first.0.seen == state.seen.push(record));
    assert(carries_identifier(first.0.seen[stored], input.identifier));
    assert forall|j: int| 0 <= j < stored implies !carries_identifier(
        #[trigger] first.0.seen[j],
        input.identifier,
    ) by {
        if carries_identifier(state.seen[j], input.identifier) {
            lemma_some_record_carries(state.seen, input.identifier, j);
        }
    }
    assert(is_first_with_identifier(first.0.seen, input.identifier, stored));
    let again = choose|i: int| is_first_with_identifier(first.0.seen, input.identifier, i);
    if again < stored {
        assert(!carries_identifier(first.0.seen[again], input.identifier));
    } else if stored < again {
        assert(!carries_identifier(first.0.seen[stored], input.identifier));
    }
}

/// Where some record carries the key, the first such record is found.
proof fn lemma_some_record_carries(records: Seq<SeenRecord>, identifier: Option<String>, j: int)
    requires
        0 <= j < records.len(),
        carries_identifier(records[j], identifier),
    ensures
        replayed_record(records, identifier) is Some,
    decreases j,
{
    if exists|k: int| 0 <= k < j && carries_identifier(#[trigger] records[k], identifier) {
        let k = choose|k: int| 0 <= k < j && carries_identifier(#[trigger] records[k], identifier);
        lemma_some_record_carries(records, identifier, k);
    } else {
        assert(is_first_with_identifier(records, identifier, j));
    }
}

/// A record of a show or a podcast whose locator names no episode that the
/// item declares adds nothing to any total.
pub proof fn law_unmatched_record_counts_nothing(
    totals: SummaryModel,
    seen: SeenRecord,
    specifics: MediaSpecifics,
)
    requires
        match specifics {
            MediaSpecifics::Show(show) => matched_show_episode(show, seen.extra_information)
                is None,
            MediaSpecifics::Podcast(podcast) => matched_podcast_episode(
                podcast,
                seen.extra_information,
            ) is None,
            _ => false,
        },
    ensures
        totals.with(seen, specifics) == totals,
        totals.fits() ==> totals.with(seen, specifics).fits(),
{
}

/// Two records of one show that name two different episodes that the show
/// declares count as two watched episodes of one show.
pub proof fn law_two_episodes_of_one_show(
    totals: SummaryModel,
    first: SeenRecord,
    second: SeenRecord,
    show: ShowSpecifics,
)
    requires
        totals.finite(),
        first.metadata_id == second.metadata_id,
        first.extra_information != second.extra_information,
        matched_show_episode(show, first.extra_information) is Some,
        matched_show_episode(show, second.extra_information) is Some,
    ensures
        ({
            let after = totals.with(first, MediaSpecifics::Show(show)).with(
                second,
                MediaSpecifics::Show(show),
            );
            &&& after.shows_watched_episodes == totals.shows_watched_episodes + 2
            &&& after.shows == totals.shows.insert(first.metadata_id)
            &&& after.shows.len() == if totals.shows.contains(first.metadata_id) {
                totals.shows.len()
            } else {
                totals.shows.len() + 1
            }
            &&& after.show_episodes.len() >= 2
        }),
{
    let one = totals.with(first, MediaSpecifics::Show(show));
    let after = one.with(second, MediaSpecifics::Show(show));
    assert(after.shows =~= totals.shows.insert(first.metadata_id));
    let a = first.extra_information->0->Show_0;
    let b = second.extra_information->0->Show_0;
    assert((a.season, a.episode) != (b.season, b.episode));
    let pairs = set![(a.season, a.episode), (b.season, b.episode)];
    assert(pairs.subset_of(after.show_episodes));
    vstd::set_lib::lemma_len_subset(pairs, after.show_episodes);
    assert(pairs.len() == 2) by {
        assert(pairs =~= Set::<(i32, i32)>::empty().insert((a.season, a.episode)).insert(
            (b.season, b.episode),
        ));
    }
}

/// Merging an item into another moves everything and loses nothing.
/// Afterwards no seen record and no review is about the first item, the
/// first item is gone, the second has its own seen records and reviews and
/// as many more as the first had, and there are as many seen records and
/// reviews as before.
pub proof fn law_merge_moves_everything(state: ServiceState, merge_from: i32, merge_into: i32)
    requires
        state.wf(),
        merge_from != merge_into,
        state.merge_metadata(merge_from, merge_into).1 is Ok,
    ensures
        ({
            let after = state.merge_metadata(merge_from, merge_into).0;
            &&& forall|i: int|
                0 <= i < after.seen.len() ==> (#[trigger] after.seen[i]).metadata_id != merge_from
            &&& forall|i: int|
                0 <= i < after.reviews.len() ==> (#[trigger] after.reviews[i]).metadata_id
                    != merge_from
            &&& !any(after.metadata, has_metadata_id(merge_from))
            &&& kept(after.seen, seen_refers_to(merge_into)).len() == kept(
                state.seen,
                seen_refers_to(merge_into),
            ).len() + kept(state.seen, seen_refers_to(merge_from)).len()
            &&& kept(after.reviews, review_refers_to(merge_into)).len() == kept(
                state.reviews,
                review_refers_to(merge_into),
            ).len() + kept(state.reviews, review_refers_to(merge_from)).len()
            &&& after.seen.len() == state.seen.len()
            &&& after.reviews.len() == state.reviews.len()
        }),
{
    let after = state.merge_metadata(merge_from, merge_into).0;
    // seen records
    let seen_staying = kept(state.seen, seen_refers_elsewhere(merge_from));
    let seen_moving = kept(state.seen, seen_refers_to(merge_from));
    let seen_moved = rehomed_seen(seen_moving, merge_into, state.next_seen_id as int);
    lemma_kept_members(state.seen, seen_refers_elsewhere(merge_from));
    assert forall|i: int| 0 <= i < after.seen.len() implies (#[trigger] after.seen[i]).metadata_id
        != merge_from by {
        if i < seen_staying.len() {
            assert(seen_refers_elsewhere(merge_from)(seen_staying[i]));
        }
    }
    lemma_kept_concat(seen_staying, seen_moved, seen_refers_to(merge_into));
    lemma_kept_twice(state.seen, seen_refers_elsewhere(merge_from), seen_refers_to(merge_into));
    lemma_kept_all(seen_moved, seen_refers_to(merge_into));
    lemma_kept_split(state.seen, seen_refers_to(merge_from), seen_refers_elsewhere(merge_from));
    // reviews
    let reviews_staying = kept(state.reviews, review_refers_elsewhere(merge_from));
    let reviews_moving = kept(state.reviews, review_refers_to(merge_from));
    let reviews_moved = rehomed_reviews(reviews_moving, merge_into, state.next_review_id as int);
    lemma_kept_members(state.reviews, review_refers_elsewhere(merge_from));
    assert forall|i: int| 0 <= i < after.reviews.len() implies (
    #[trigger] after.reviews[i]).metadata_id != merge_from by {
        if i < reviews_staying.len() {
            assert(review_refers_elsewhere(merge_from)(reviews_staying[i]));
        }
    }
    lemma_kept_concat(reviews_staying, reviews_moved, review_refers_to(merge_into));
    lemma_kept_twice(
        state.reviews,
        review_refers_elsewhere(merge_from),
        review_refers_to(merge_into),
    );
    lemma_kept_all(reviews_moved, review_refers_to(merge_into));
    lemma_kept_split(
        state.reviews,
        review_refers_to(merge_from),
        review_refers_elsewhere(merge_from),
    );
    // the item
    lemma_kept_members(state.metadata, is_other_metadata(merge_from));
    assert forall|j: int| 0 <= j < after.metadata.len() implies !has_metadata_id(merge_from)(
        #[trigger] after.metadata[j],
    ) by {
        assert(is_other_metadata(merge_from)(after.metadata[j]));
    }
}

/// Whether a summary belongs to `user_id`.
pub open spec fn is_summary_of(user_id: i32) -> spec_fn(Summary) -> bool {
    |row: Summary| row.user_id == user_id
}

/// A user has one summary once it was made: the new summary is the only
/// one of the user and so the latest, and the summaries of other users are
/// as they were.
pub proof fn law_one_summary_per_user(state: ServiceState, user_id: i32, now: Timestamp)
    requires
        state.calculate_user_summary(user_id, now).1 is Ok,
    ensures
        ({
            let after = state.calculate_user_summary(user_id, now).0;
            let made = after.summaries.last();
            &&& kept(after.summaries, is_summary_of(user_id)) == seq![made]
            &&& made.id == state.calculate_user_summary(user_id, now).1->Ok_0.id
            &&& made.created_on == now
            &&& after.latest_user_summary(user_id) == made
            &&& kept(after.summaries, of_other_user(user_id)) == kept(
                state.summaries,
                of_other_user(user_id),
            )
        }),
{
    let after = state.calculate_user_summary(user_id, now).0;
    let others = kept(state.summaries, of_other_user(user_id));
    let made = after.summaries.last();
    assert(after.summaries == others.push(made));
    lemma_kept_members(state.summaries, of_other_user(user_id));
    assert forall|i: int| 0 <= i < others.len() implies !is_summary_of(user_id)(
        #[trigger] others[i],
    ) by {
        assert(of_other_user(user_id)(others[i]));
    }
    lemma_kept_none(others, is_summary_of(user_id));
    lemma_kept_push(others, is_summary_of(user_id), made);
    assert(kept(after.summaries, is_summary_of(user_id)) =~= seq![made]);
    assert forall|i: int| 0 <= i < others.len() implies of_other_user(user_id)(
        #[trigger] others[i],
    ) by {}
    lemma_kept_all(others, of_other_user(user_id));
    lemma_kept_push(others, of_other_user(user_id), made);
    // the new summary is the latest
    let place = others.len() as int;
    assert forall|j: int|
        0 <= j < after.summaries.len() && (#[trigger] after.summaries[j]).user_id
            == user_id implies j == place by {
        if j < place {
            assert(of_other_user(user_id)(others[j]));
        }
    }
    assert(is_latest_summary(after.summaries, user_id, place));
    let chosen = choose|i: int| is_latest_summary(after.summaries, user_id, i);
    assert(after.summaries[chosen].user_id == user_id);
}

/// Whether `user_id` has the default collection `which`, or no collection
/// can be made any more.
spec fn is_settled(state: ServiceState, user_id: i32, which: DefaultCollection) -> bool {
    any(state.collections, owned_and_named(user_id, which.name_of()@)) || state.next_collection_id
        == i32::MAX
}

/// A request to make a collection leaves those that are there, and after
/// it the collection is there unless none can be made any more.
proof fn lemma_request_settles(
    state: ServiceState,
    user_id: i32,
    input: CreateOrUpdateCollectionInput,
    which: DefaultCollection,
    other: DefaultCollection,
)
    requires
        is_default_request(input, which),
    ensures
        is_settled(state.create_or_update_collection(user_id, input).0, user_id, which),
        is_settled(state, user_id, other) ==> is_settled(
            state.create_or_update_collection(user_id, input).0,
            user_id,
            other,
        ),
        is_settled(state, user_id, which) ==> state.create_or_update_collection(user_id, input).0
            == state,
{
    let after = state.create_or_update_collection(user_id, input).0;
    let wanted = owned_and_named(user_id, which.name_of()@);
    lemma_first_index(state.collections, wanted);
    if after != state {
        let made = after.collections.last();
        assert(after.collections == state.collections.push(made));
        assert(wanted(after.collections[state.collections.len() as int]));
        if any(state.collections, owned_and_named(user_id, other.name_of()@)) {
            let j = choose|j: int|
                0 <= j < state.collections.len() && owned_and_named(user_id, other.name_of()@)(
                    #[trigger] state.collections[j],
                );
            assert(owned_and_named(user_id, other.name_of()@)(after.collections[j]));
        }
    }
}

/// After the default collections were asked for, each is there unless
/// none can be made any more.
proof fn lemma_seeded_is_settled(
    state: ServiceState,
    user_id: i32,
    inputs: Seq<CreateOrUpdateCollectionInput>,
    upto: int,
    which: int,
)
    requires
        0 <= upto <= DefaultCollection::all().len(),
        are_default_requests(inputs, upto),
        0 <= which < DefaultCollection::all().len(),
        which < upto || is_settled(state, user_id, DefaultCollection::all()[which]),
    ensures
        is_settled(state.create_collections(user_id, inputs), user_id, DefaultCollection::all()[which]),
    decreases upto,
{
    if upto > 0 {
        let before = inputs.drop_last();
        assert(are_default_requests(before, upto - 1)) by {
            assert forall|i: int| 0 <= i < upto - 1 implies is_default_request(
                #[trigger] before[i],
                DefaultCollection::all()[i],
            ) by {
                assert(before[i] == inputs[i]);
            }
        }
        assert(is_default_request(inputs[upto - 1], DefaultCollection::all()[upto - 1]));
        if which < upto - 1 || is_settled(state, user_id, DefaultCollection::all()[which]) {
            lemma_seeded_is_settled(state, user_id, before, upto - 1, which);
        }
        lemma_request_settles(
            state.create_collections(user_id, before),
            user_id,
            inputs.last(),
            DefaultCollection::all()[upto - 1],
            DefaultCollection::all()[which],
        );
    }
}

/// Asking for default collections that are all there, or cannot be made,
/// changes nothing.
proof fn lemma_settled_stays(
    state: ServiceState,
    user_id: i32,
    inputs: Seq<CreateOrUpdateCollectionInput>,
    upto: int,
)
    requires
        0 <= upto <= DefaultCollection::all().len(),
        are_default_requests(inputs, upto),
        forall|which: int|
            0 <= which < DefaultCollection::all().len() ==> is_settled(
                state,
                user_id,
                #[trigger] DefaultCollection::all()[which],
            ),
    ensures
        state.create_collections(user_id, inputs) == state,
    decreases upto,
{
    if upto > 0 {
        let before = inputs.drop_last();
        assert(are_default_requests(before, upto - 1)) by {
            assert forall|i: int| 0 <= i < upto - 1 implies is_default_request(
                #[trigger] before[i],
                DefaultCollection::all()[i],
            ) by {
                assert(before[i] == inputs[i]);
            }
        }
        lemma_settled_stays(state, user_id, before, upto - 1);
        assert(is_default_request(inputs[upto - 1], DefaultCollection::all()[upto - 1]));
        assert(is_settled(state, user_id, DefaultCollection::all()[upto - 1]));
        lemma_request_settles(
            state,
            user_id,
            inputs.last(),
            DefaultCollection::all()[upto - 1],
            DefaultCollection::all()[upto - 1],
        );
    }
}

/// The default collections are given once: giving them to a user again
/// changes nothing.
pub proof fn law_default_collections_are_given_once(
    state: ServiceState,
    user_id: i32,
    first: Seq<CreateOrUpdateCollectionInput>,
    again: Seq<CreateOrUpdateCollectionInput>,
)
    requires
        are_default_requests(first, DefaultCollection::all().len() as int),
        are_default_requests(again, DefaultCollection::all().len() as int),
    ensures
        state.create_collections(user_id, first).create_collections(user_id, again)
            == state.create_collections(user_id, first),
{
    let count = DefaultCollection::all().len() as int;
    let seeded = state.create_collections(user_id, first);
    assert forall|which: int| 0 <= which < count implies is_settled(
        seeded,
        user_id,
        #[trigger] DefaultCollection::all()[which],
    ) by {
        lemma_seeded_is_settled(state, user_id, first, count, which);
    }
    lemma_settled_stays(seeded, user_id, again, count);
}

/// A collection that is not a default collection can be deleted: where the
/// user has one of the name, it is gone afterwards with its memberships,
/// and every other collection is as it was.
pub proof fn law_other_collections_can_be_deleted(state: ServiceState, user_id: i32, name: Seq<char>)
    requires
        !is_default_name(name),
        any(state.collections, owned_and_named(user_id, name)),
    ensures
        ({
            let found = first_index(state.collections, owned_and_named(user_id, name))->0;
            let after = state.delete_collection(user_id, name);
            &&& after.1 == Ok::<bool, ServiceError>(true)
            &&& after.0.collections == state.collections.remove(found)
            &&& forall|i: int|
                0 <= i < after.0.memberships.len() ==> (#[trigger] after.0.memberships[i]).collection_id
                    != state.collections[found].id
        }),
{
    lemma_first_index(state.collections, owned_and_named(user_id, name));
    let found = first_index(state.collections, owned_and_named(user_id, name))->0;
    lemma_kept_members(state.memberships, is_outside(state.collections[found].id));
    let after = state.delete_collection(user_id, name);
    assert forall|i: int| 0 <= i < after.0.memberships.len() implies (
    #[trigger] after.0.memberships[i]).collection_id != state.collections[found].id by {
        assert(is_outside(state.collections[found].id)(after.0.memberships[i]));
    }
}

/// A default collection is never deleted, whoever asks and whatever is
/// stored.
pub proof fn law_default_collections_stay(state: ServiceState, user_id: i32, which: DefaultCollection)
    ensures
        state.delete_collection(user_id, which.name_of()@) == (
            state,
            Err::<bool, ServiceError>(ServiceError::DefaultCollection),
        ),
{
}

/// The totals over any records count distinct things in finite sets, so
/// that their sizes are numbers.
pub proof fn law_totals_are_finite(items: Seq<(SeenRecord, MediaSpecifics)>)
    ensures
        totals_of(items).finite(),
    decreases items.len(),
{
    if items.len() > 0 {
        law_totals_are_finite(items.drop_last());
    }
}

/// Totals that could be held in counters all along are the totals over the
/// records, neither more nor less, and they can be held.
pub proof fn law_checked_totals_are_the_totals(items: Seq<(SeenRecord, MediaSpecifics)>)
    ensures
        checked_totals_of(items) matches Some(totals) ==> totals == totals_of(items)
            && totals.fits(),
    decreases items.len(),
{
    if items.len() > 0 {
        law_checked_totals_are_the_totals(items.drop_last());
    }
}

/// A progress report keeps the history in order: where the tables were in
/// order before it, they are after it. In particular the progress of every
/// record still lies in `0..=100`, and a record bears the day on which it
/// was finished exactly where it is finished. The history is one that a
/// machine can hold.
pub proof fn law_report_keeps_history_in_order(
    state: ServiceState,
    input: ProgressUpdateInput,
    user_id: i32,
    today: Date,
    now: Timestamp,
)
    requires
        state.wf(),
        state.seen.len() <= usize::MAX,
    ensures
        state.progress_update(input, user_id, today, now).0.wf(),
{
    let after = state.progress_update(input, user_id, today, now).0;
    if after != state {
        let lot = lot_of(state.metadata, input.metadata_id);
        let plan = plan_for(state.seen, lot, input, user_id, state.next_seen_id, today, now)->Ok_0;
        let place = plan.affected(state.seen)->0;
        lemma_active_record(state.seen, user_id, input.metadata_id);
        match plan {
            ProgressPlan::Create { record } => {
                lemma_ids_push(
                    state.seen,
                    seen_key(),
                    state.next_seen_id as int,
                    record,
                    state.next_seen_id + 1,
                );
            },
            _ => {
                assert(active_record(state.seen, user_id, input.metadata_id) == Some(place));
                assert(state.seen[place].is_sound());
                lemma_ids_update(
                    state.seen,
                    seen_key(),
                    state.next_seen_id as int,
                    place,
                    after.seen[place],
                );
                assert(after.seen =~= state.seen.update(place, after.seen[place]));
            },
        }
        assert forall|i: int| 0 <= i < after.seen.len() implies (
        #[trigger] after.seen[i]).is_sound() by {
            if i < state.seen.len() && i != place {
                assert(state.seen[i].is_sound());
            }
        }
    }
}

/// An operation that fails changes nothing: no table and no queue is other
/// than before. This holds of a merge too, which moves all or nothing.
pub proof fn law_failure_changes_nothing(
    state: ServiceState,
    user_id: i32,
    report: ProgressUpdateInput,
    review: PostReviewInput,
    collection: CreateOrUpdateCollectionInput,
    name: Seq<char>,
    first: i32,
    second: i32,
    today: Date,
    now: Timestamp,
)
    ensures
        state.progress_update(report, user_id, today, now).1 is Err ==> state.progress_update(
            report,
            user_id,
            today,
            now,
        ).0 == state,
        state.merge_metadata(first, second).1 is Err ==> state.merge_metadata(first, second).0
            == state,
        state.calculate_user_summary(user_id, now).1 is Err ==> state.calculate_user_summary(
            user_id,
            now,
        ).0 == state,
        state.delete_seen_item(first, user_id).1 is Err ==> state.delete_seen_item(
            first,
            user_id,
        ).0 == state,
        state.delete_collection(user_id, name).1 is Err ==> state.delete_collection(
            user_id,
            name,
        ).0 == state,
        state.create_or_update_collection(user_id, collection).1 is Err
            ==> state.create_or_update_collection(user_id, collection).0 == state,
        state.add_media_to_collection(user_id, name, first).1 is Err
            ==> state.add_media_to_collection(user_id, name, first).0 == state,
        state.remove_media_item_from_collection(user_id, first, name).1 is Err
            ==> state.remove_media_item_from_collection(user_id, first, name).0 == state,
        state.post_review(user_id, review, now).1 is Err ==> state.post_review(
            user_id,
            review,
            now,
        ).0 == state,
        state.delete_review(user_id, first).1 is Err ==> state.delete_review(user_id, first).0
            == state,
{
}

} // verus!
