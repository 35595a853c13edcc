//! Progress reports against the service's history.

use vstd::prelude::*;
use crate::background::AfterMediaSeenJob;
use crate::clock::{utc_now, utc_today, Date, Timestamp};
use crate::error::ServiceError;
use crate::media::IdObject;
use crate::progress::{
    active_record, is_underway, lemma_active_record, plan_for, plan_progress_update, ProgressPlan, ProgressUpdateInput,
};
use crate::lookup::{lemma_ids_push, lemma_ids_update};
use crate::service::{lot_of, seen_key, MiscellaneousService, ServiceState};

verus! {

impl ServiceState {
    /// The state after a progress report of `user_id`, and the answer to
    /// it.
    ///
    /// The report is weighed against the seen records. Where it makes or
    /// changes a record, a job that carries the record as it then stands,
    /// with the kind of its item, joins the queue. A replay changes nothing
    /// and is answered with the item that the stored report was about. A
    /// new record takes the next identity; where none is left, the report
    /// fails.
    pub open spec fn progress_update(
        self,
        input: ProgressUpdateInput,
        user_id: i32,
        today: Date,
        now: Timestamp,
    ) -> (ServiceState, Result<IdObject, ServiceError>) {
        let lot = lot_of(self.metadata, input.metadata_id);
        match plan_for(self.seen, lot, input, user_id, self.next_seen_id, today, now) {
            Err(e) => (self, Err(e)),
            Ok(plan) => {
                let answer = Ok(IdObject { id: plan.answer(self.seen) });
                match plan.affected(self.seen) {
                    None => (self, answer),
                    Some(place) => if plan is Create && self.next_seen_id == i32::MAX {
                        (self, Err(ServiceError::StorageError))
                    } else {
                        let seen = plan.applied(self.seen);
                        (
                            ServiceState {
                                seen,
                                next_seen_id: if plan is Create {
                                    (self.next_seen_id + 1) as i32
                                } else {
                                    self.next_seen_id
                                },
                                after_media_seen: self.after_media_seen.push(
                                    AfterMediaSeenJob { seen: seen[place], metadata_lot: lot->0 },
                                ),
                                ..self
                            },
                            answer,
                        )
                    },
                }
            },
        }
    }
}

impl MiscellaneousService {
    /// Takes a progress report of `user_id`, as of the day `today` and the
    /// instant `now`.
    pub fn progress_update_at(
        &mut self,
        input: ProgressUpdateInput,
        user_id: i32,
        today: Date,
        now: Timestamp,
    ) -> (result: Result<IdObject, ServiceError>)
        requires
            old(self).wf(),
        ensures
            final(self).wf(),
            (final(self)@, result) == old(self)@.progress_update(input, user_id, today, now),
    {
        let lot = match self.find_metadata(input.metadata_id) {
            Some(i) => Some(self.metadata[i].lot),
            None => None,
        };
        let plan = match plan_progress_update(
            &self.seen,
            lot,
            input,
            user_id,
            self.next_seen_id,
            today,
            now,
        ) {
            Ok(plan) => plan,
            Err(e) => {
                return Err(e);
            },
        };
        let creates = matches!(plan, ProgressPlan::Create { .. });
        if creates && self.next_seen_id == i32::MAX {
            return Err(ServiceError::StorageError);
        }
        let id = match &plan {
            ProgressPlan::Replay { metadata_id } => *metadata_id,
            ProgressPlan::Advance { index, .. } => self.seen[*index].id,
            ProgressPlan::Abandon { index, .. } => self.seen[*index].id,
            ProgressPlan::Create { record } => record.id,
        };
        let ghost planned = plan;
        match plan.apply(&mut self.seen) {
            None => {},
            Some(place) => {
                if creates {
                    self.next_seen_id = self.next_seen_id + 1;
                }
                proof {
                    let before = old(self).seen@;
                    let after = self.seen@;
                    match planned {
                        ProgressPlan::Create { record } => {
                            lemma_ids_push(
                                before,
                                seen_key(),
                                old(self).next_seen_id as int,
                                record,
                                old(self).next_seen_id + 1,
                            );
                        },
                        _ => {
                            lemma_ids_update(
                                before,
                                seen_key(),
                                old(self).next_seen_id as int,
                                place as int,
                                after[place as int],
                            );
                            assert(after =~= before.update(place as int, after[place as int]));
                        },
                    }
                    lemma_active_record(before, user_id, input.metadata_id);
                    if !(planned is Create) {
                        assert(before.len() == old(self).seen.len());
                        assert(active_record(before, user_id, input.metadata_id) == Some(
                            place as int,
                        ));
                        assert(is_underway(before[place as int], user_id, input.metadata_id));
                        assert(before[place as int].is_sound());
                    }
                    assert(after.len() == self.seen.len());
                    assert(after[place as int].is_sound());
                    assert forall|i: int| 0 <= i < after.len() implies (
                    #[trigger] after[i]).is_sound() by {
                        if i < before.len() && i != place {
                            assert(before[i].is_sound());
                        }
                    }
                }
                let job = AfterMediaSeenJob {
                    seen: self.seen[place].duplicate(),
                    metadata_lot: lot.unwrap(),
                };
                self.after_media_seen.push(job);
            },
        }
        Ok(IdObject { id })
    }

    /// Hands out the jobs left by progress reports, oldest first, and
    /// forgets them.
    pub fn take_after_media_seen(&mut self) -> (jobs: Vec<AfterMediaSeenJob>)
        ensures
            jobs@ == old(self)@.after_media_seen,
            final(self)@ == (ServiceState { after_media_seen: Seq::empty(), ..old(self)@ }),
    {
        let mut jobs: Vec<AfterMediaSeenJob> = Vec::new();
        core::mem::swap(&mut self.after_media_seen, &mut jobs);
        jobs
    }

    /// Takes a progress report of `user_id`, as of the day and the instant
    /// that the system clock shows.
    pub fn progress_update(&mut self, input: ProgressUpdateInput, user_id: i32) -> (result: Result<
        IdObject,
        ServiceError,
    >)
        requires
            old(self).wf(),
        ensures
            final(self).wf(),
            exists|today: Date, now: Timestamp|
                (final(self)@, result) == #[trigger] old(self)@.progress_update(
                    input,
                    user_id,
                    today,
                    now,
                ),
    {
        let today = utc_today();
        let now = utc_now();
        self.progress_update_at(input, user_id, today, now)
    }
}

} // verus!
