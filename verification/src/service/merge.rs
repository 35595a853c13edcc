//! Merging one media item into another.

use vstd::prelude::*;
use crate::error::ServiceError;
use crate::lookup::{
    any, kept, lemma_first_index, lemma_ids_append, lemma_ids_kept, lemma_sift_end,
    lemma_sift_start, lemma_sift_step, sifted,
};
use crate::media::Metadata;
use crate::review::Review;
use crate::seen::SeenRecord;
use crate::service::{
    has_metadata_id, metadata_key, review_key, seen_key, MiscellaneousService, ServiceState,
};

verus! {

/// Whether a seen record is about the item `id`.
pub open spec fn seen_refers_to(id: i32) -> spec_fn(SeenRecord) -> bool {
    |row: SeenRecord| row.metadata_id == id
}

/// Whether a seen record is about another item than `id`.
pub open spec fn seen_refers_elsewhere(id: i32) -> spec_fn(SeenRecord) -> bool {
    |row: SeenRecord| row.metadata_id != id
}

/// Whether a review is about the item `id`.
pub open spec fn review_refers_to(id: i32) -> spec_fn(Review) -> bool {
    |row: Review| row.metadata_id == id
}

/// Whether a review is about another item than `id`.
pub open spec fn review_refers_elsewhere(id: i32) -> spec_fn(Review) -> bool {
    |row: Review| row.metadata_id != id
}

/// Whether an item is another than `id`.
pub open spec fn is_other_metadata(id: i32) -> spec_fn(Metadata) -> bool {
    |row: Metadata| row.id != id
}

/// The seen records `rows` stored anew for the item `into`: each as it
/// was but for the item and its identity, the identities being `first_id`
/// and those that follow it.
pub open spec fn rehomed_seen(rows: Seq<SeenRecord>, into: i32, first_id: int) -> Seq<SeenRecord> {
    Seq::new(
        rows.len(),
        |i: int| SeenRecord { id: (first_id + i) as i32, metadata_id: into, ..rows[i] },
    )
}

/// The reviews `rows` stored anew for the item `into`: each as it was but
/// for the item and its identity, the identities being `first_id` and those
/// that follow it.
pub open spec fn rehomed_reviews(rows: Seq<Review>, into: i32, first_id: int) -> Seq<Review> {
    Seq::new(
        rows.len(),
        |i: int| Review { id: (first_id + i) as i32, metadata_id: into, ..rows[i] },
    )
}

impl ServiceState {
    /// The state after the item `merge_from` was merged into `merge_into`.
    ///
    /// Every seen record and every review of `merge_from` is stored anew
    /// for `merge_into`, behind the rows that were there, and the item
    /// `merge_from` is deleted. `merge_into` must be stored, and there must
    /// be identities left for the rows stored anew; otherwise nothing
    /// changes.
    pub open spec fn merge_metadata(self, merge_from: i32, merge_into: i32) -> (
        ServiceState,
        Result<bool, ServiceError>,
    ) {
        let seen_moving = kept(self.seen, seen_refers_to(merge_from));
        let reviews_moving = kept(self.reviews, review_refers_to(merge_from));
        if !any(self.metadata, has_metadata_id(merge_into)) {
            (self, Err(ServiceError::NotFound))
        } else if self.next_seen_id + seen_moving.len() > i32::MAX || self.next_review_id
            + reviews_moving.len() > i32::MAX {
            (self, Err(ServiceError::StorageError))
        } else {
            (
                ServiceState {
                    seen: kept(self.seen, seen_refers_elsewhere(merge_from)) + rehomed_seen(
                        seen_moving,
                        merge_into,
                        self.next_seen_id as int,
                    ),
                    next_seen_id: (self.next_seen_id + seen_moving.len()) as i32,
                    reviews: kept(self.reviews, review_refers_elsewhere(merge_from))
                        + rehomed_reviews(reviews_moving, merge_into, self.next_review_id as int),
                    next_review_id: (self.next_review_id + reviews_moving.len()) as i32,
                    metadata: kept(self.metadata, is_other_metadata(merge_from)),
                    ..self
                },
                Ok(true),
            )
        }
    }
}

impl MiscellaneousService {
    /// The number of seen records about the item `id`.
    fn count_seen_of(&self, id: i32) -> (n: usize)
        ensures
            n == kept(self@.seen, seen_refers_to(id)).len(),
    {
        let mut n: usize = 0;
        let mut k: usize = 0;
        proof {
            lemma_sift_start(self.seen@, seen_refers_to(id));
        }
        while k < self.seen.len()
            invariant
                k <= self.seen@.len(),
                n == kept(self.seen@.take(k as int), seen_refers_to(id)).len(),
                n <= k,
            decreases self.seen@.len() - k,
        {
            proof {
                lemma_sift_step(self.seen@, seen_refers_to(id), k as int);
            }
            if self.seen[k].metadata_id == id {
                n += 1;
            }
            k += 1;
        }
        proof {
            assert(self.seen@.take(k as int) =~= self.seen@);
        }
        n
    }

    /// The number of reviews about the item `id`.
    fn count_reviews_of(&self, id: i32) -> (n: usize)
        ensures
            n == kept(self@.reviews, review_refers_to(id)).len(),
    {
        let mut n: usize = 0;
        let mut k: usize = 0;
        proof {
            lemma_sift_start(self.reviews@, review_refers_to(id));
        }
        while k < self.reviews.len()
            invariant
                k <= self.reviews@.len(),
                n == kept(self.reviews@.take(k as int), review_refers_to(id)).len(),
                n <= k,
            decreases self.reviews@.len() - k,
        {
            proof {
                lemma_sift_step(self.reviews@, review_refers_to(id), k as int);
            }
            if self.reviews[k].metadata_id == id {
                n += 1;
            }
            k += 1;
        }
        proof {
            assert(self.reviews@.take(k as int) =~= self.reviews@);
        }
        n
    }

    /// Stores the seen records of `merge_from` anew for `merge_into`.
    fn rehome_seen(&mut self, merge_from: i32, merge_into: i32)
        requires
            old(self).wf(),
            old(self)@.next_seen_id + kept(old(self)@.seen, seen_refers_to(merge_from)).len()
                <= i32::MAX,
        ensures
            final(self)@ == (ServiceState {
                seen: kept(old(self)@.seen, seen_refers_elsewhere(merge_from)) + rehomed_seen(
                    kept(old(self)@.seen, seen_refers_to(merge_from)),
                    merge_into,
                    old(self)@.next_seen_id as int,
                ),
                next_seen_id: (old(self)@.next_seen_id + kept(
                    old(self)@.seen,
                    seen_refers_to(merge_from),
                ).len()) as i32,
                ..old(self)@
            }),
            final(self).wf(),
    {
        let ghost rows = self.seen@;
        let ghost first = self.next_seen_id as int;
        let ghost mut done: int = 0;
        let mut moved: Vec<SeenRecord> = Vec::new();
        let mut i: usize = 0;
        proof {
            lemma_sift_start(rows, seen_refers_elsewhere(merge_from));
            lemma_sift_start(rows, seen_refers_to(merge_from));
            assert(moved@ =~= rehomed_seen(
                kept(rows.take(0), seen_refers_to(merge_from)),
                merge_into,
                first,
            ));
        }
        while i < self.seen.len()
            invariant
                rows == old(self).seen@,
                first == old(self).next_seen_id,
                first + kept(rows, seen_refers_to(merge_from)).len() <= i32::MAX,
                0 <= done <= rows.len(),
                self.seen@ == sifted(rows, seen_refers_elsewhere(merge_from), done),
                i == kept(rows.take(done), seen_refers_elsewhere(merge_from)).len(),
                self.seen@.len() == i + rows.len() - done,
                moved@ == rehomed_seen(
                    kept(rows.take(done), seen_refers_to(merge_from)),
                    merge_into,
                    first,
                ),
                self.next_seen_id == first + moved@.len(),
                self@ == (ServiceState {
                    seen: self.seen@,
                    next_seen_id: self.next_seen_id,
                    ..old(self)@
                }),
            decreases rows.len() - done,
        {
            proof {
                lemma_sift_step(rows, seen_refers_elsewhere(merge_from), done);
                lemma_sift_step(rows, seen_refers_to(merge_from), done);
                lemma_moving_bound(rows, seen_refers_to(merge_from), done + 1);
            }
            if self.seen[i].metadata_id == merge_from {
                let mut row = self.seen.remove(i);
                let ghost before = row;
                row.id = self.next_seen_id;
                row.metadata_id = merge_into;
                self.next_seen_id = self.next_seen_id + 1;
                moved.push(row);
                proof {
                    let earlier = kept(rows.take(done), seen_refers_to(merge_from));
                    assert(row == SeenRecord {
                        id: (first + earlier.len()) as i32,
                        metadata_id: merge_into,
                        ..before
                    });
                    assert(moved@ =~= rehomed_seen(earlier.push(before), merge_into, first));
                }
            } else {
                i += 1;
            }
            proof {
                done = done + 1;
            }
        }
        proof {
            lemma_sift_end(rows, seen_refers_elsewhere(merge_from));
            assert(rows.take(done) =~= rows);
            lemma_ids_kept(rows, seen_key(), first, seen_refers_elsewhere(merge_from));
            lemma_ids_append(self.seen@, seen_key(), first, moved@);
            crate::lookup::lemma_kept_members(rows, seen_refers_to(merge_from));
            crate::lookup::lemma_kept_members(rows, seen_refers_elsewhere(merge_from));
            let after = self.seen@ + moved@;
            assert forall|j: int| 0 <= j < after.len() implies (#[trigger] after[j]).is_sound() by {
                let source = if j < self.seen@.len() {
                    self.seen@[j]
                } else {
                    kept(rows, seen_refers_to(merge_from))[j - self.seen@.len()]
                };
                assert(rows.contains(source));
                let k = choose|k: int| 0 <= k < rows.len() && rows[k] == source;
                assert(rows[k].is_sound());
            }
        }
        self.seen.append(&mut moved);
        assert(self.seen@.len() == self.seen.len());
    }

    /// Stores the reviews of `merge_from` anew for `merge_into`.
    fn rehome_reviews(&mut self, merge_from: i32, merge_into: i32)
        requires
            old(self).wf(),
            old(self)@.next_review_id + kept(old(self)@.reviews, review_refers_to(merge_from)).len()
                <= i32::MAX,
        ensures
            final(self)@ == (ServiceState {
                reviews: kept(old(self)@.reviews, review_refers_elsewhere(merge_from))
                    + rehomed_reviews(
                    kept(old(self)@.reviews, review_refers_to(merge_from)),
                    merge_into,
                    old(self)@.next_review_id as int,
                ),
                next_review_id: (old(self)@.next_review_id + kept(
                    old(self)@.reviews,
                    review_refers_to(merge_from),
                ).len()) as i32,
                ..old(self)@
            }),
            final(self).wf(),
    {
        let ghost rows = self.reviews@;
        let ghost first = self.next_review_id as int;
        let ghost mut done: int = 0;
        let mut moved: Vec<Review> = Vec::new();
        let mut i: usize = 0;
        proof {
            lemma_sift_start(rows, review_refers_elsewhere(merge_from));
            lemma_sift_start(rows, review_refers_to(merge_from));
            assert(moved@ =~= rehomed_reviews(
                kept(rows.take(0), review_refers_to(merge_from)),
                merge_into,
                first,
            ));
        }
        while i < self.reviews.len()
            invariant
                rows == old(self).reviews@,
                first == old(self).next_review_id,
                first + kept(rows, review_refers_to(merge_from)).len() <= i32::MAX,
                0 <= done <= rows.len(),
                self.reviews@ == sifted(rows, review_refers_elsewhere(merge_from), done),
                i == kept(rows.take(done), review_refers_elsewhere(merge_from)).len(),
                self.reviews@.len() == i + rows.len() - done,
                moved@ == rehomed_reviews(
                    kept(rows.take(done), review_refers_to(merge_from)),
                    merge_into,
                    first,
                ),
                self.next_review_id == first + moved@.len(),
                self@ == (ServiceState {
                    reviews: self.reviews@,
                    next_review_id: self.next_review_id,
                    ..old(self)@
                }),
            decreases rows.len() - done,
        {
            proof {
                lemma_sift_step(rows, review_refers_elsewhere(merge_from), done);
                lemma_sift_step(rows, review_refers_to(merge_from), done);
                lemma_moving_bound(rows, review_refers_to(merge_from), done + 1);
            }
            if self.reviews[i].metadata_id == merge_from {
                let mut row = self.reviews.remove(i);
                let ghost before = row;
                row.id = self.next_review_id;
                row.metadata_id = merge_into;
                self.next_review_id = self.next_review_id + 1;
                moved.push(row);
                proof {
                    let earlier = kept(rows.take(done), review_refers_to(merge_from));
                    assert(row == Review {
                        id: (first + earlier.len()) as i32,
                        metadata_id: merge_into,
                        ..before
                    });
                    assert(moved@ =~= rehomed_reviews(earlier.push(before), merge_into, first));
                }
            } else {
                i += 1;
            }
            proof {
                done = done + 1;
            }
        }
        proof {
            lemma_sift_end(rows, review_refers_elsewhere(merge_from));
            assert(rows.take(done) =~= rows);
            lemma_ids_kept(rows, review_key(), first, review_refers_elsewhere(merge_from));
            lemma_ids_append(self.reviews@, review_key(), first, moved@);
        }
        self.reviews.append(&mut moved);
    }

    /// Deletes the item `id`.
    fn delete_metadata(&mut self, id: i32)
        requires
            old(self).wf(),
        ensures
            final(self)@ == (ServiceState {
                metadata: kept(old(self)@.metadata, is_other_metadata(id)),
                ..old(self)@
            }),
            final(self).wf(),
    {
        let ghost rows = self.metadata@;
        let ghost mut done: int = 0;
        let mut i: usize = 0;
        proof {
            lemma_sift_start(rows, is_other_metadata(id));
        }
        while i < self.metadata.len()
            invariant
                rows == old(self).metadata@,
                0 <= done <= rows.len(),
                self.metadata@ == sifted(rows, is_other_metadata(id), done),
                i == kept(rows.take(done), is_other_metadata(id)).len(),
                self.metadata@.len() == i + rows.len() - done,
                self@ == (ServiceState { metadata: self.metadata@, ..old(self)@ }),
            decreases rows.len() - done,
        {
            proof {
                lemma_sift_step(rows, is_other_metadata(id), done);
            }
            if self.metadata[i].id == id {
                self.metadata.remove(i);
            } else {
                i += 1;
            }
            proof {
                done = done + 1;
            }
        }
        proof {
            lemma_sift_end(rows, is_other_metadata(id));
            lemma_ids_kept(
                rows,
                metadata_key(),
                self.next_metadata_id as int,
                is_other_metadata(id),
            );
        }
    }

    /// Merges the item `merge_from` into `merge_into`: what users recorded
    /// and wrote about the first is then about the second, and the first is
    /// gone.
    pub fn merge_metadata(&mut self, merge_from: i32, merge_into: i32) -> (result: Result<
        bool,
        ServiceError,
    >)
        requires
            old(self).wf(),
        ensures
            final(self).wf(),
            (final(self)@, result) == old(self)@.merge_metadata(merge_from, merge_into),
    {
        proof {
            lemma_first_index(self.metadata@, has_metadata_id(merge_into));
        }
        if self.find_metadata(merge_into).is_none() {
            return Err(ServiceError::NotFound);
        }
        let seen_moving = self.count_seen_of(merge_from);
        let reviews_moving = self.count_reviews_of(merge_from);
        if seen_moving > (i32::MAX - self.next_seen_id) as usize || reviews_moving > (i32::MAX
            - self.next_review_id) as usize {
            return Err(ServiceError::StorageError);
        }
        self.rehome_seen(merge_from, merge_into);
        self.rehome_reviews(merge_from, merge_into);
        self.delete_metadata(merge_from);
        Ok(true)
    }
}

/// No more rows are kept of a beginning of a table than of the whole.
proof fn lemma_moving_bound<T>(rows: Seq<T>, keep: spec_fn(T) -> bool, done: int)
    requires
        0 <= done <= rows.len(),
    ensures
        kept(rows.take(done), keep).len() <= kept(rows, keep).len(),
    decreases rows.len() - done,
{
    if done < rows.len() {
        lemma_sift_step(rows, keep, done);
        lemma_moving_bound(rows, keep, done + 1);
    } else {
        assert(rows.take(done) =~= rows);
    }
}

} // verus!
