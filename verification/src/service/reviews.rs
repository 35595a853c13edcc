//! Reviews of the service: posting, changing and deleting them.

use vstd::prelude::*;
use crate::clock::{utc_now, Timestamp};
use crate::collection::Visibility;
use crate::error::{check_owner, ServiceError};
use crate::lookup::{
    any, first_index, lemma_first_found, lemma_first_index, lemma_ids_push, lemma_ids_remove,
    lemma_ids_update, lemma_none_found,
};
use crate::media::IdObject;
use crate::review::{locator_of, review_locator, PostReviewInput, Review};
use crate::service::{has_metadata_id, review_key, MiscellaneousService, ServiceState};

verus! {

/// Whether a review was stored under the key `identifier`. A request
/// without a key matches no review.
pub open spec fn review_carries(identifier: Option<String>) -> spec_fn(Review) -> bool {
    |row: Review|
        match (row.identifier, identifier) {
            (Some(stored), Some(given)) => stored@ == given@,
            _ => false,
        }
}

/// Whether a review has the identity `id`.
pub open spec fn has_review_id(id: i32) -> spec_fn(Review) -> bool {
    |row: Review| row.id == id
}

/// The review that a request makes for `user_id`, with the identity `id`:
/// private and without spoilers unless the request says otherwise, and
/// posted at `now` unless the request gives an instant.
pub open spec fn posted_review(input: PostReviewInput, user_id: i32, id: i32, now: Timestamp) -> Review {
    Review {
        id,
        user_id,
        metadata_id: input.metadata_id,
        posted_on: match input.date {
            Some(date) => date,
            None => now,
        },
        rating: input.rating,
        text: input.text,
        visibility: match input.visibility {
            Some(visibility) => visibility,
            None => Visibility::Private,
        },
        spoiler: match input.spoiler {
            Some(spoiler) => spoiler,
            None => false,
        },
        extra_information: review_locator(input.season_number, input.episode_number),
        identifier: input.identifier,
    }
}

/// The review `before` as a request changes it: rating, text, item and key
/// are taken from the request, and the rest where the request gives it.
pub open spec fn revised_review(before: Review, input: PostReviewInput) -> Review {
    Review {
        id: before.id,
        user_id: before.user_id,
        metadata_id: input.metadata_id,
        posted_on: match input.date {
            Some(date) => date,
            None => before.posted_on,
        },
        rating: input.rating,
        text: input.text,
        visibility: match input.visibility {
            Some(visibility) => visibility,
            None => before.visibility,
        },
        spoiler: match input.spoiler {
            Some(spoiler) => spoiler,
            None => before.spoiler,
        },
        extra_information: match review_locator(input.season_number, input.episode_number) {
            Some(locator) => Some(locator),
            None => before.extra_information,
        },
        identifier: input.identifier,
    }
}

impl ServiceState {
    /// The state after `user_id` posted a review at the instant `now`, and
    /// the answer.
    ///
    /// A request whose key is stored already changes nothing and is
    /// answered with the item that the stored review is about. Otherwise
    /// the item must be stored. With `review_id`, the review of that
    /// identity, which must be the user's, is changed; without, a review is
    /// made.
    pub open spec fn post_review(self, user_id: i32, input: PostReviewInput, now: Timestamp) -> (
        ServiceState,
        Result<IdObject, ServiceError>,
    ) {
        if let Some(stored) = first_index(self.reviews, review_carries(input.identifier)) {
            (self, Ok(IdObject { id: self.reviews[stored].metadata_id }))
        } else if !any(self.metadata, has_metadata_id(input.metadata_id)) {
            (self, Err(ServiceError::NotFound))
        } else {
            match input.review_id {
                Some(id) => match first_index(self.reviews, has_review_id(id)) {
                    None => (self, Err(ServiceError::NotFound)),
                    Some(found) => if self.reviews[found].user_id != user_id {
                        (self, Err(ServiceError::Unauthorized))
                    } else {
                        (
                            ServiceState {
                                reviews: self.reviews.update(
                                    found,
                                    revised_review(self.reviews[found], input),
                                ),
                                ..self
                            },
                            Ok(IdObject { id }),
                        )
                    },
                },
                None => if self.next_review_id == i32::MAX {
                    (self, Err(ServiceError::StorageError))
                } else {
                    (
                        ServiceState {
                            reviews: self.reviews.push(
                                posted_review(input, user_id, self.next_review_id, now),
                            ),
                            next_review_id: (self.next_review_id + 1) as i32,
                            ..self
                        },
                        Ok(IdObject { id: self.next_review_id }),
                    )
                },
            }
        }
    }

    /// The state after `user_id` asked for the review `review_id` to be
    /// deleted, and whether there was one to delete. The review must be the
    /// user's.
    pub open spec fn delete_review(self, user_id: i32, review_id: i32) -> (
        ServiceState,
        Result<bool, ServiceError>,
    ) {
        match first_index(self.reviews, has_review_id(review_id)) {
            None => (self, Ok(false)),
            Some(found) => if self.reviews[found].user_id != user_id {
                (self, Err(ServiceError::Unauthorized))
            } else {
                (ServiceState { reviews: self.reviews.remove(found), ..self }, Ok(true))
            },
        }
    }
}

impl MiscellaneousService {
    /// The place of the first review stored under `identifier`.
    fn find_review_by_identifier(&self, identifier: &Option<String>) -> (found: Option<usize>)
        ensures
            match found {
                Some(i) => first_index(self@.reviews, review_carries(*identifier)) == Some(i as int)
                    && i < self@.reviews.len(),
                None => first_index(self@.reviews, review_carries(*identifier)) is None,
            },
    {
        let mut k: usize = 0;
        while k < self.reviews.len()
            invariant
                k <= self.reviews@.len(),
                forall|j: int|
                    0 <= j < k ==> !review_carries(*identifier)(#[trigger] self.reviews@[j]),
            decreases self.reviews@.len() - k,
        {
            let same = match (&self.reviews[k].identifier, identifier) {
                (Some(stored), Some(given)) => *stored == *given,
                _ => false,
            };
            if same {
                proof {
                    lemma_first_found(self.reviews@, review_carries(*identifier), k as int);
                }
                return Some(k);
            }
            k += 1;
        }
        proof {
            lemma_none_found(self.reviews@, review_carries(*identifier));
        }
        None
    }

    /// The place of the review with the identity `id`.
    fn find_review(&self, id: i32) -> (found: Option<usize>)
        ensures
            match found {
                Some(i) => first_index(self@.reviews, has_review_id(id)) == Some(i as int) && i
                    < self@.reviews.len(),
                None => first_index(self@.reviews, has_review_id(id)) is None,
            },
    {
        let mut k: usize = 0;
        while k < self.reviews.len()
            invariant
                k <= self.reviews@.len(),
                forall|j: int| 0 <= j < k ==> !has_review_id(id)(#[trigger] self.reviews@[j]),
            decreases self.reviews@.len() - k,
        {
            if self.reviews[k].id == id {
                proof {
                    lemma_first_found(self.reviews@, has_review_id(id), k as int);
                }
                return Some(k);
            }
            k += 1;
        }
        proof {
            lemma_none_found(self.reviews@, has_review_id(id));
        }
        None
    }

    /// Posts a review of `user_id`, or changes one, as of the instant
    /// `now`.
    pub fn post_review_at(&mut self, user_id: i32, input: PostReviewInput, now: Timestamp) -> (result:
        Result<IdObject, ServiceError>)
        requires
            old(self).wf(),
        ensures
            final(self).wf(),
            (final(self)@, result) == old(self)@.post_review(user_id, input, now),
    {
        if let Some(stored) = self.find_review_by_identifier(&input.identifier) {
            return Ok(IdObject { id: self.reviews[stored].metadata_id });
        }
        proof {
            lemma_first_index(self.metadata@, has_metadata_id(input.metadata_id));
        }
        if self.find_metadata(input.metadata_id).is_none() {
            return Err(ServiceError::NotFound);
        }
        let locator = locator_of(input.season_number, input.episode_number);
        match input.review_id {
            Some(id) => {
                let found = match self.find_review(id) {
                    Some(found) => found,
                    None => {
                        return Err(ServiceError::NotFound);
                    },
                };
                if self.reviews[found].user_id != user_id {
                    return Err(ServiceError::Unauthorized);
                }
                proof {
                    lemma_first_index(self.reviews@, has_review_id(id));
                }
                self.reviews[found].metadata_id = input.metadata_id;
                self.reviews[found].rating = input.rating;
                self.reviews[found].text = input.text;
                self.reviews[found].identifier = input.identifier;
                if let Some(date) = input.date {
                    self.reviews[found].posted_on = date;
                }
                if let Some(visibility) = input.visibility {
                    self.reviews[found].visibility = visibility;
                }
                if let Some(spoiler) = input.spoiler {
                    self.reviews[found].spoiler = spoiler;
                }
                if locator.is_some() {
                    self.reviews[found].extra_information = locator;
                }
                proof {
                    let after = self.reviews@[found as int];
                    assert(after == revised_review(old(self).reviews@[found as int], input));
                    lemma_ids_update(
                        old(self).reviews@,
                        review_key(),
                        self.next_review_id as int,
                        found as int,
                        after,
                    );
                    assert(self.reviews@ =~= old(self).reviews@.update(found as int, after));
                }
                Ok(IdObject { id })
            },
            None => {
                if self.next_review_id == i32::MAX {
                    return Err(ServiceError::StorageError);
                }
                let id = self.next_review_id;
                let row = Review {
                    id,
                    user_id,
                    metadata_id: input.metadata_id,
                    posted_on: match input.date {
                        Some(date) => date,
                        None => now,
                    },
                    rating: input.rating,
                    text: input.text,
                    visibility: match input.visibility {
                        Some(visibility) => visibility,
                        None => Visibility::Private,
                    },
                    spoiler: match input.spoiler {
                        Some(spoiler) => spoiler,
                        None => false,
                    },
                    extra_information: locator,
                    identifier: input.identifier,
                };
                proof {
                    lemma_ids_push(self.reviews@, review_key(), id as int, row, id + 1);
                }
                self.reviews.push(row);
                self.next_review_id = id + 1;
                Ok(IdObject { id })
            },
        }
    }

    /// Posts a review of `user_id`, or changes one, as of the instant that
    /// the system clock shows.
    pub fn post_review(&mut self, user_id: i32, input: PostReviewInput) -> (result: Result<
        IdObject,
        ServiceError,
    >)
        requires
            old(self).wf(),
        ensures
            final(self).wf(),
            exists|now: Timestamp|
                (final(self)@, result) == #[trigger] old(self)@.post_review(user_id, input, now),
    {
        let now = utc_now();
        self.post_review_at(user_id, input, now)
    }

    /// Deletes a review of `user_id`.
    pub fn delete_review(&mut self, user_id: i32, review_id: i32) -> (result: Result<
        bool,
        ServiceError,
    >)
        requires
            old(self).wf(),
        ensures
            final(self).wf(),
            (final(self)@, result) == old(self)@.delete_review(user_id, review_id),
    {
        match self.find_review(review_id) {
            None => Ok(false),
            Some(found) => {
                if let Err(e) = check_owner(self.reviews[found].user_id, user_id) {
                    return Err(e);
                }
                proof {
                    lemma_ids_remove(
                        self.reviews@,
                        review_key(),
                        self.next_review_id as int,
                        found as int,
                    );
                }
                self.reviews.remove(found);
                Ok(true)
            },
        }
    }
}

} // verus!
