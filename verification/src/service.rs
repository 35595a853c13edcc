//! The service: its tables and queues, and the operations on them.
//!
//! The tables are held in memory, in the order in which their rows were
//! stored. Every operation either succeeds or leaves every table and queue
//! as it was.

use vstd::prelude::*;
use crate::background::{AfterMediaSeenJob, RecalculateUserSummaryJob, UpdateMetadataJob};
use crate::collection::{Collection, MetadataToCollection};
use crate::lookup::{first_index, ids_in_order};
use crate::media::{Metadata, MetadataLot};
use crate::review::Review;
use crate::seen::SeenRecord;
use crate::summary::Summary;

pub mod collections;
pub mod custom;
pub mod history;
pub mod merge;
pub mod progress;
pub mod queries;
pub mod reviews;
pub mod summaries;

verus! {

/// What the service holds, as sequences of rows.
pub struct ServiceState {
    pub seen: Seq<SeenRecord>,
    /// The identity that the next seen record gets.
    pub next_seen_id: i32,
    pub reviews: Seq<Review>,
    pub next_review_id: i32,
    pub metadata: Seq<Metadata>,
    pub next_metadata_id: i32,
    pub collections: Seq<Collection>,
    pub next_collection_id: i32,
    pub memberships: Seq<MetadataToCollection>,
    pub summaries: Seq<Summary>,
    pub next_summary_id: i32,
    /// Jobs waiting, oldest first.
    pub after_media_seen: Seq<AfterMediaSeenJob>,
    pub recalculate_user_summary: Seq<RecalculateUserSummaryJob>,
    pub update_metadata: Seq<UpdateMetadataJob>,
}

/// The identity of a seen record.
pub open spec fn seen_key() -> spec_fn(SeenRecord) -> int {
    |row: SeenRecord| row.id as int
}

/// The identity of a review.
pub open spec fn review_key() -> spec_fn(Review) -> int {
    |row: Review| row.id as int
}

/// The identity of a media item.
pub open spec fn metadata_key() -> spec_fn(Metadata) -> int {
    |row: Metadata| row.id as int
}

/// The identity of a collection.
pub open spec fn collection_key() -> spec_fn(Collection) -> int {
    |row: Collection| row.id as int
}

/// The identity of a summary.
pub open spec fn summary_key() -> spec_fn(Summary) -> int {
    |row: Summary| row.id as int
}

/// Whether the item has the identity `id`.
pub open spec fn has_metadata_id(id: i32) -> spec_fn(Metadata) -> bool {
    |item: Metadata| item.id == id
}

/// The kind of the item with the identity `id`, where there is one.
pub open spec fn lot_of(items: Seq<Metadata>, id: i32) -> Option<MetadataLot> {
    match first_index(items, has_metadata_id(id)) {
        Some(i) => Some(items[i].lot),
        None => None,
    }
}

impl ServiceState {
    /// The state of a service that has stored nothing.
    pub open spec fn empty() -> ServiceState {
        ServiceState {
            seen: Seq::empty(),
            next_seen_id: 1,
            reviews: Seq::empty(),
            next_review_id: 1,
            metadata: Seq::empty(),
            next_metadata_id: 1,
            collections: Seq::empty(),
            next_collection_id: 1,
            memberships: Seq::empty(),
            summaries: Seq::empty(),
            next_summary_id: 1,
            after_media_seen: Seq::empty(),
            recalculate_user_summary: Seq::empty(),
            update_metadata: Seq::empty(),
        }
    }

    /// No two rows of a table share an identity, the identities to be given
    /// next are positive, the progress of every seen record lies in
    /// `0..=100`, and a seen record bears the day on which it was finished
    /// exactly where it is finished.
    pub open spec fn wf(self) -> bool {
        &&& self.next_seen_id >= 1
        &&& self.next_review_id >= 1
        &&& self.next_metadata_id >= 1
        &&& self.next_collection_id >= 1
        &&& self.next_summary_id >= 1
        &&& ids_in_order(self.seen, seen_key(), self.next_seen_id as int)
        &&& ids_in_order(self.reviews, review_key(), self.next_review_id as int)
        &&& ids_in_order(self.metadata, metadata_key(), self.next_metadata_id as int)
        &&& ids_in_order(self.collections, collection_key(), self.next_collection_id as int)
        &&& ids_in_order(self.summaries, summary_key(), self.next_summary_id as int)
        &&& forall|i: int| 0 <= i < self.seen.len() ==> (#[trigger] self.seen[i]).is_sound()
    }
}

/// The service.
#[derive(Debug)]
pub struct MiscellaneousService {
    seen: Vec<SeenRecord>,
    next_seen_id: i32,
    reviews: Vec<Review>,
    next_review_id: i32,
    metadata: Vec<Metadata>,
    next_metadata_id: i32,
    collections: Vec<Collection>,
    next_collection_id: i32,
    memberships: Vec<MetadataToCollection>,
    summaries: Vec<Summary>,
    next_summary_id: i32,
    after_media_seen: Vec<AfterMediaSeenJob>,
    recalculate_user_summary: Vec<RecalculateUserSummaryJob>,
    update_metadata: Vec<UpdateMetadataJob>,
}

impl View for MiscellaneousService {
    type V = ServiceState;

    closed spec fn view(&self) -> ServiceState {
        ServiceState {
            seen: self.seen@,
            next_seen_id: self.next_seen_id,
            reviews: self.reviews@,
            next_review_id: self.next_review_id,
            metadata: self.metadata@,
            next_metadata_id: self.next_metadata_id,
            collections: self.collections@,
            next_collection_id: self.next_collection_id,
            memberships: self.memberships@,
            summaries: self.summaries@,
            next_summary_id: self.next_summary_id,
            after_media_seen: self.after_media_seen@,
            recalculate_user_summary: self.recalculate_user_summary@,
            update_metadata: self.update_metadata@,
        }
    }
}

impl MiscellaneousService {
    /// Whether the tables are in order.
    pub open spec fn wf(&self) -> bool {
        self@.wf()
    }

    /// A service that has stored nothing.
    pub fn new() -> (service: MiscellaneousService)
        ensures
            service.wf(),
            service@ == ServiceState::empty(),
    {
        MiscellaneousService {
            seen: Vec::new(),
            next_seen_id: 1,
            reviews: Vec::new(),
            next_review_id: 1,
            metadata: Vec::new(),
            next_metadata_id: 1,
            collections: Vec::new(),
            next_collection_id: 1,
            memberships: Vec::new(),
            summaries: Vec::new(),
            next_summary_id: 1,
            after_media_seen: Vec::new(),
            recalculate_user_summary: Vec::new(),
            update_metadata: Vec::new(),
        }
    }

    /// The seen records, in stored order.
    pub fn seen(&self) -> (rows: &Vec<SeenRecord>)
        ensures
            rows@ == self@.seen,
    {
        &self.seen
    }

    /// The reviews, in stored order.
    pub fn reviews(&self) -> (rows: &Vec<Review>)
        ensures
            rows@ == self@.reviews,
    {
        &self.reviews
    }

    /// The media items, in stored order.
    pub fn metadata(&self) -> (rows: &Vec<Metadata>)
        ensures
            rows@ == self@.metadata,
    {
        &self.metadata
    }

    /// The collections of all users, in stored order.
    pub fn collections(&self) -> (rows: &Vec<Collection>)
        ensures
            rows@ == self@.collections,
    {
        &self.collections
    }

    /// The memberships of media items in collections, in stored order.
    pub fn memberships(&self) -> (rows: &Vec<MetadataToCollection>)
        ensures
            rows@ == self@.memberships,
    {
        &self.memberships
    }

    /// The summaries of all users, in stored order.
    pub fn summaries(&self) -> (rows: &Vec<Summary>)
        ensures
            rows@ == self@.summaries,
    {
        &self.summaries
    }

    /// The jobs left by progress reports, oldest first.
    pub fn after_media_seen(&self) -> (jobs: &Vec<AfterMediaSeenJob>)
        ensures
            jobs@ == self@.after_media_seen,
    {
        &self.after_media_seen
    }

    /// The jobs left to make summaries anew, oldest first.
    pub fn recalculate_user_summary(&self) -> (jobs: &Vec<RecalculateUserSummaryJob>)
        ensures
            jobs@ == self@.recalculate_user_summary,
    {
        &self.recalculate_user_summary
    }

    /// The jobs left to fetch details anew, oldest first.
    pub fn update_metadata(&self) -> (jobs: &Vec<UpdateMetadataJob>)
        ensures
            jobs@ == self@.update_metadata,
    {
        &self.update_metadata
    }

    /// The place of the item with the identity `id`.
    pub(crate) fn find_metadata(&self, id: i32) -> (found: Option<usize>)
        ensures
            match found {
                Some(i) => first_index(self@.metadata, has_metadata_id(id)) == Some(i as int) && i
                    < self@.metadata.len() && self@.metadata[i as int].id == id,
                None => first_index(self@.metadata, has_metadata_id(id)) is None,
            },
    {
        let mut k: usize = 0;
        while k < self.metadata.len()
            invariant
                k <= self.metadata@.len(),
                forall|j: int|
                    0 <= j < k ==> !has_metadata_id(id)(#[trigger] self.metadata@[j]),
            decreases self.metadata@.len() - k,
        {
            if self.metadata[k].id == id {
                proof {
                    crate::lookup::lemma_first_found(
                        self.metadata@,
                        has_metadata_id(id),
                        k as int,
                    );
                }
                return Some(k);
            }
            k += 1;
        }
        proof {
            crate::lookup::lemma_none_found(self.metadata@, has_metadata_id(id));
        }
        None
    }
}

} // verus!
