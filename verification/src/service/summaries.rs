//! The summary of a user's finished media, made from the service's tables.

use vstd::prelude::*;
use crate::background::RecalculateUserSummaryJob;
use crate::clock::{utc_now, Timestamp};
use crate::error::ServiceError;
use crate::lookup::{first_index, kept, lemma_ids_kept, lemma_ids_push, lemma_kept_push};
use crate::media::{IdObject, MediaSpecifics, Metadata};
use crate::seen::SeenRecord;
use crate::service::{has_metadata_id, summary_key, MiscellaneousService, ServiceState};
use crate::summary::{
    checked_totals_of, lemma_checked_totals_push, Summary, SummaryAccumulator, UserMediaSummary,
    UserSummary,
};

verus! {

/// Whether a summary belongs to another user than `user_id`.
pub open spec fn of_other_user(user_id: i32) -> spec_fn(Summary) -> bool {
    |row: Summary| row.user_id != user_id
}

/// The finished records of `user_id`, in stored order, each joined to the
/// details of its item. A record whose item is not stored joins to nothing
/// and is left out.
pub open spec fn finished_items(
    seen: Seq<SeenRecord>,
    metadata: Seq<Metadata>,
    user_id: i32,
) -> Seq<(SeenRecord, MediaSpecifics)>
    decreases seen.len(),
{
    if seen.len() == 0 {
        Seq::empty()
    } else {
        let before = finished_items(seen.drop_last(), metadata, user_id);
        let record = seen.last();
        match first_index(metadata, has_metadata_id(record.metadata_id)) {
            Some(item) if record.user_id == user_id && record.progress == 100 => before.push(
                (record, metadata[item].specifics),
            ),
            _ => before,
        }
    }
}

/// Whether `rows[i]` is the latest summary of `user_id`: none of the user's
/// was made later, and of several made at the same instant it is the one
/// stored last.
pub open spec fn is_latest_summary(rows: Seq<Summary>, user_id: i32, i: int) -> bool {
    &&& 0 <= i < rows.len()
    &&& rows[i].user_id == user_id
    &&& forall|j: int|
        0 <= j < rows.len() && (#[trigger] rows[j]).user_id == user_id
            ==> rows[j].created_on.micros <= rows[i].created_on.micros
    &&& forall|j: int|
        i < j < rows.len() && (#[trigger] rows[j]).user_id == user_id ==> rows[j].created_on.micros
            < rows[i].created_on.micros
}

impl ServiceState {
    /// The state after every summary of `user_id` was deleted.
    pub open spec fn cleanup_summaries_for_user(self, user_id: i32) -> ServiceState {
        ServiceState { summaries: kept(self.summaries, of_other_user(user_id)), ..self }
    }

    /// The state after the summary of `user_id` was made anew at the
    /// instant `now`, and the identity of the new summary.
    ///
    /// The new summary reports the totals over the user's finished records
    /// and takes the place of every summary that the user had. Where the
    /// totals cannot be held in counters, or no identity is left, nothing
    /// changes.
    pub open spec fn calculate_user_summary(self, user_id: i32, now: Timestamp) -> (
        ServiceState,
        Result<IdObject, ServiceError>,
    ) {
        match checked_totals_of(finished_items(self.seen, self.metadata, user_id)) {
            Some(totals) if self.next_summary_id < i32::MAX => (
                ServiceState {
                    summaries: kept(self.summaries, of_other_user(user_id)).push(
                        Summary {
                            id: self.next_summary_id,
                            user_id,
                            created_on: now,
                            data: totals.report(),
                        },
                    ),
                    next_summary_id: (self.next_summary_id + 1) as i32,
                    ..self
                },
                Ok(IdObject { id: self.next_summary_id }),
            ),
            _ => (self, Err(ServiceError::StorageError)),
        }
    }

    /// The state after a job to make the summary of `user_id` anew joined
    /// the queue.
    pub open spec fn deploy_recalculate_summary_job(self, user_id: i32) -> ServiceState {
        ServiceState {
            recalculate_user_summary: self.recalculate_user_summary.push(
                RecalculateUserSummaryJob { user_id },
            ),
            ..self
        }
    }

    /// The state after the summaries of `users` were made anew at the
    /// instant `now`, one user after the other: for each, the summaries
    /// that the user had are deleted and a new one is made. The first
    /// summary that cannot be made ends the run, and the users after it
    /// keep what they had.
    pub open spec fn regenerate_user_summaries(self, users: Seq<i32>, now: Timestamp) -> (
        ServiceState,
        Result<(), ServiceError>,
    )
        decreases users.len(),
    {
        if users.len() == 0 {
            (self, Ok(()))
        } else {
            let (before, done) = self.regenerate_user_summaries(users.drop_last(), now);
            let cleaned = before.cleanup_summaries_for_user(users.last());
            match (done, cleaned.calculate_user_summary(users.last(), now).1) {
                (Err(e), _) => (before, Err(e)),
                (Ok(_), Err(e)) => (cleaned, Err(e)),
                (Ok(_), Ok(_)) => (cleaned.calculate_user_summary(users.last(), now).0, Ok(())),
            }
        }
    }

    /// The latest summary of `user_id`, and one that reports nothing where
    /// the user has none.
    pub open spec fn latest_user_summary(self, user_id: i32) -> Summary {
        if exists|i: int| is_latest_summary(self.summaries, user_id, i) {
            self.summaries[choose|i: int| is_latest_summary(self.summaries, user_id, i)]
        } else {
            Summary {
                id: 0,
                user_id: 0,
                created_on: Timestamp { micros: 0 },
                data: UserMediaSummary::zero(),
            }
        }
    }
}

impl MiscellaneousService {
    /// Deletes every summary of `user_id`.
    pub fn cleanup_summaries_for_user(&mut self, user_id: i32)
        requires
            old(self).wf(),
        ensures
            final(self).wf(),
            final(self)@ == old(self)@.cleanup_summaries_for_user(user_id),
    {
        let others = self.summaries_of_others(user_id);
        proof {
            lemma_ids_kept(
                self.summaries@,
                summary_key(),
                self.next_summary_id as int,
                of_other_user(user_id),
            );
        }
        self.summaries = others;
    }

    /// The summaries of other users than `user_id`, in stored order.
    fn summaries_of_others(&self, user_id: i32) -> (others: Vec<Summary>)
        ensures
            others@ == kept(self@.summaries, of_other_user(user_id)),
    {
        let mut others: Vec<Summary> = Vec::new();
        let mut k: usize = 0;
        proof {
            reveal(Seq::filter);
            assert(self.summaries@.take(0) =~= Seq::<Summary>::empty());
        }
        while k < self.summaries.len()
            invariant
                k <= self.summaries@.len(),
                others@ == kept(self.summaries@.take(k as int), of_other_user(user_id)),
            decreases self.summaries@.len() - k,
        {
            proof {
                lemma_kept_push(
                    self.summaries@.take(k as int),
                    of_other_user(user_id),
                    self.summaries@[k as int],
                );
                assert(self.summaries@.take(k as int).push(self.summaries@[k as int])
                    =~= self.summaries@.take(k + 1));
            }
            if self.summaries[k].user_id != user_id {
                others.push(self.summaries[k]);
            }
            k += 1;
        }
        proof {
            assert(self.summaries@.take(k as int) =~= self.summaries@);
        }
        others
    }

    /// The summary over the finished records of `user_id`, where the totals
    /// can be held in counters.
    fn summarize(&self, user_id: i32) -> (summary: Option<UserMediaSummary>)
        ensures
            match checked_totals_of(finished_items(self@.seen, self@.metadata, user_id)) {
                Some(totals) => summary == Some(totals.report()),
                None => summary is None,
            },
    {
        let mut accumulator = SummaryAccumulator::new();
        let mut k: usize = 0;
        proof {
            assert(self.seen@.take(0) =~= Seq::<SeenRecord>::empty());
        }
        while k < self.seen.len()
            invariant
                k <= self.seen@.len(),
                accumulator.wf(),
                checked_totals_of(finished_items(self.seen@.take(k as int), self.metadata@, user_id))
                    == Some(accumulator@),
            decreases self.seen@.len() - k,
        {
            let record = &self.seen[k];
            proof {
                lemma_finished_items_step(self.seen@, self.metadata@, user_id, k as int);
            }
            if record.user_id == user_id && record.progress == 100 {
                if let Some(item) = self.find_metadata(record.metadata_id) {
                    proof {
                        lemma_checked_totals_push(
                            finished_items(self.seen@.take(k as int), self.metadata@, user_id),
                            *record,
                            self.metadata@[item as int].specifics,
                        );
                    }
                    let taken = accumulator.record(record, &self.metadata[item].specifics);
                    if !taken {
                        proof {
                            lemma_unsummable(
                                self.seen@,
                                self.metadata@,
                                user_id,
                                k + 1,
                                self.seen@.len() as int,
                            );
                            assert(self.seen@.take(self.seen@.len() as int) =~= self.seen@);
                        }
                        return None;
                    }
                }
            }
            k += 1;
        }
        proof {
            assert(self.seen@.take(k as int) =~= self.seen@);
        }
        Some(accumulator.finish())
    }

    /// Makes the summary of `user_id` anew, as of the instant `now`.
    pub fn calculate_user_summary_at(&mut self, user_id: i32, now: Timestamp) -> (result: Result<
        IdObject,
        ServiceError,
    >)
        requires
            old(self).wf(),
        ensures
            final(self).wf(),
            (final(self)@, result) == old(self)@.calculate_user_summary(user_id, now),
    {
        let data = match self.summarize(user_id) {
            Some(data) => data,
            None => {
                return Err(ServiceError::StorageError);
            },
        };
        if self.next_summary_id == i32::MAX {
            return Err(ServiceError::StorageError);
        }
        let id = self.next_summary_id;
        let mut summaries = self.summaries_of_others(user_id);
        let summary = Summary { id, user_id, created_on: now, data };
        proof {
            lemma_ids_kept(
                self.summaries@,
                summary_key(),
                self.next_summary_id as int,
                of_other_user(user_id),
            );
            lemma_ids_push(summaries@, summary_key(), id as int, summary, id + 1);
        }
        summaries.push(summary);
        self.summaries = summaries;
        self.next_summary_id = id + 1;
        Ok(IdObject { id })
    }

    /// Makes the summary of `user_id` anew, as of the instant that the
    /// system clock shows.
    pub fn calculate_user_summary(&mut self, user_id: i32) -> (result: Result<
        IdObject,
        ServiceError,
    >)
        requires
            old(self).wf(),
        ensures
            final(self).wf(),
            exists|now: Timestamp|
                (final(self)@, result) == #[trigger] old(self)@.calculate_user_summary(
                    user_id,
                    now,
                ),
    {
        let now = utc_now();
        self.calculate_user_summary_at(user_id, now)
    }

    /// Makes the summaries of `users` anew, one user after the other, as of
    /// the instant `now`.
    pub fn regenerate_user_summaries_at(&mut self, users: &Vec<i32>, now: Timestamp) -> (result:
        Result<(), ServiceError>)
        requires
            old(self).wf(),
        ensures
            final(self).wf(),
            (final(self)@, result) == old(self)@.regenerate_user_summaries(users@, now),
    {
        let mut k: usize = 0;
        proof {
            assert(users@.take(0) =~= Seq::<i32>::empty());
        }
        while k < users.len()
            invariant
                k <= users@.len(),
                self.wf(),
                (self@, Ok::<(), ServiceError>(())) == old(self)@.regenerate_user_summaries(
                    users@.take(k as int),
                    now,
                ),
            decreases users@.len() - k,
        {
            proof {
                assert(users@.take(k + 1).drop_last() =~= users@.take(k as int));
                assert(users@.take(k + 1).last() == users@[k as int]);
            }
            self.cleanup_summaries_for_user(users[k]);
            if let Err(e) = self.calculate_user_summary_at(users[k], now) {
                proof {
                    lemma_run_ended(old(self)@, users@, now, k + 1, users@.len() as int);
                    assert(users@.take(users@.len() as int) =~= users@);
                }
                return Err(e);
            }
            k += 1;
        }
        proof {
            assert(users@.take(k as int) =~= users@);
        }
        Ok(())
    }

    /// Makes the summaries of `users` anew, one user after the other, as of
    /// the instant that the system clock shows.
    pub fn regenerate_user_summaries(&mut self, users: &Vec<i32>) -> (result: Result<
        (),
        ServiceError,
    >)
        requires
            old(self).wf(),
        ensures
            final(self).wf(),
            exists|now: Timestamp|
                (final(self)@, result) == #[trigger] old(self)@.regenerate_user_summaries(
                    users@,
                    now,
                ),
    {
        let now = utc_now();
        self.regenerate_user_summaries_at(users, now)
    }

    /// Hands out the jobs left to make summaries anew, oldest first, and
    /// forgets them.
    pub fn take_recalculate_user_summary(&mut self) -> (jobs: Vec<RecalculateUserSummaryJob>)
        ensures
            jobs@ == old(self)@.recalculate_user_summary,
            final(self)@ == (ServiceState {
                recalculate_user_summary: Seq::empty(),
                ..old(self)@
            }),
    {
        let mut jobs: Vec<RecalculateUserSummaryJob> = Vec::new();
        core::mem::swap(&mut self.recalculate_user_summary, &mut jobs);
        jobs
    }

    /// Leaves a job to make the summary of `user_id` anew.
    pub fn deploy_recalculate_summary_job(&mut self, user_id: i32)
        ensures
            final(self)@ == old(self)@.deploy_recalculate_summary_job(user_id),
    {
        self.recalculate_user_summary.push(RecalculateUserSummaryJob { user_id });
    }

    /// Deletes every summary of `user_id` and leaves a job to make a new
    /// one.
    pub fn regenerate_user_summary(&mut self, user_id: i32) -> (done: bool)
        requires
            old(self).wf(),
        ensures
            final(self).wf(),
            done,
            final(self)@ == old(self)@.cleanup_summaries_for_user(
                user_id,
            ).deploy_recalculate_summary_job(user_id),
    {
        self.cleanup_summaries_for_user(user_id);
        self.deploy_recalculate_summary_job(user_id);
        true
    }

    /// The latest summary of `user_id`.
    pub fn latest_user_summary(&self, user_id: i32) -> (summary: Summary)
        ensures
            summary == self@.latest_user_summary(user_id),
    {
        let mut best: Option<usize> = None;
        let mut k: usize = 0;
        while k < self.summaries.len()
            invariant
                k <= self.summaries@.len(),
                match best {
                    Some(b) => b < k && is_latest_summary(
                        self.summaries@.take(k as int),
                        user_id,
                        b as int,
                    ),
                    None => forall|j: int|
                        0 <= j < k ==> (#[trigger] self.summaries@[j]).user_id != user_id,
                },
            decreases self.summaries@.len() - k,
        {
            let row = &self.summaries[k];
            let ghost head = self.summaries@.take(k + 1);
            if row.user_id == user_id {
                let later = match best {
                    Some(b) => self.summaries[b].created_on.micros <= row.created_on.micros,
                    None => true,
                };
                if later {
                    best = Some(k);
                }
            }
            proof {
                let shorter = self.summaries@.take(k as int);
                if let Some(b) = best {
                    assert forall|j: int|
                        0 <= j < head.len() && (#[trigger] head[j]).user_id
                            == user_id implies head[j].created_on.micros
                        <= head[b as int].created_on.micros by {
                        if j < k {
                            assert(shorter[j].user_id == user_id);
                        }
                    }
                    assert forall|j: int|
                        b < j < head.len() && (#[trigger] head[j]).user_id
                            == user_id implies head[j].created_on.micros
                        < head[b as int].created_on.micros by {
                        if j < k {
                            assert(shorter[j].user_id == user_id);
                        }
                    }
                }
            }
            k += 1;
        }
        proof {
            assert(self.summaries@.take(k as int) =~= self.summaries@);
        }
        match best {
            Some(b) => {
                proof {
                    let rows = self.summaries@;
                    assert(is_latest_summary(rows, user_id, b as int));
                    let chosen = choose|i: int| is_latest_summary(rows, user_id, i);
                    assert(rows[b as int].user_id == user_id);
                    assert(rows[chosen].user_id == user_id);
                    assert(chosen == b);
                    assert(self@.summaries == rows);
                }
                self.summaries[b]
            },
            None => {
                proof {
                    assert forall|i: int| !is_latest_summary(self.summaries@, user_id, i) by {
                        if is_latest_summary(self.summaries@, user_id, i) {
                            assert(self.summaries@[i].user_id == user_id);
                        }
                    }
                }
                assert(!exists|i: int| is_latest_summary(self@.summaries, user_id, i));
                Summary {
                    id: 0,
                    user_id: 0,
                    created_on: Timestamp { micros: 0 },
                    data: UserMediaSummary::new(),
                }
            },
        }
    }

    /// What `user_id` has finished, as of the latest summary.
    pub fn user_summary(&self, user_id: i32) -> (summary: UserSummary)
        ensures
            summary.media == self@.latest_user_summary(user_id).data,
            summary.calculated_on == self@.latest_user_summary(user_id).created_on,
    {
        let latest = self.latest_user_summary(user_id);
        UserSummary { media: latest.data, calculated_on: latest.created_on }
    }
}

/// A run that has ended with a failure after some users stays as it is
/// however many users follow.
proof fn lemma_run_ended(state: ServiceState, users: Seq<i32>, now: Timestamp, short: int, long: int)
    requires
        0 <= short <= long <= users.len(),
        state.regenerate_user_summaries(users.take(short), now).1 is Err,
    ensures
        state.regenerate_user_summaries(users.take(long), now) == state.regenerate_user_summaries(
            users.take(short),
            now,
        ),
    decreases long - short,
{
    if short < long {
        assert(users.take(long).drop_last() =~= users.take(long - 1));
        lemma_run_ended(state, users, now, short, long - 1);
    }
}

/// Once the totals over a beginning of the records cannot be held, those
/// over a longer beginning cannot either.
proof fn lemma_unsummable(
    seen: Seq<SeenRecord>,
    metadata: Seq<Metadata>,
    user_id: i32,
    short: int,
    long: int,
)
    requires
        0 <= short <= long <= seen.len(),
        checked_totals_of(finished_items(seen.take(short), metadata, user_id)) is None,
    ensures
        checked_totals_of(finished_items(seen.take(long), metadata, user_id)) is None,
    decreases long - short,
{
    if short < long {
        lemma_finished_items_step(seen, metadata, user_id, short);
        let record = seen[short];
        if let Some(item) = first_index(metadata, has_metadata_id(record.metadata_id)) {
            lemma_checked_totals_push(
                finished_items(seen.take(short), metadata, user_id),
                record,
                metadata[item].specifics,
            );
        }
        lemma_unsummable(seen, metadata, user_id, short + 1, long);
    }
}

/// The finished items among one more record: those before it, and the
/// record with the details of its item where it is a finished record of the
/// user and its item is stored.
proof fn lemma_finished_items_step(
    seen: Seq<SeenRecord>,
    metadata: Seq<Metadata>,
    user_id: i32,
    k: int,
)
    requires
        0 <= k < seen.len(),
    ensures
        finished_items(seen.take(k + 1), metadata, user_id) == match first_index(
            metadata,
            has_metadata_id(seen[k].metadata_id),
        ) {
            Some(item) if seen[k].user_id == user_id && seen[k].progress == 100 => finished_items(
                seen.take(k),
                metadata,
                user_id,
            ).push((seen[k], metadata[item].specifics)),
            _ => finished_items(seen.take(k), metadata, user_id),
        },
{
    assert(seen.take(k + 1).drop_last() =~= seen.take(k));
    assert(seen.take(k + 1).last() == seen[k]);
}

} // verus!
