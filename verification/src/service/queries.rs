//! What the service shows of its tables: histories, reviews and
//! collections as a user sees them.

use vstd::prelude::*;
use crate::collection::{
    is_chosen, is_inside, is_membership, Collection, CollectionInput, CollectionItem,
};
use crate::lookup::{any, kept, lemma_sift_start, lemma_sift_step};
use crate::order::{descending_order, is_descending_order};
use crate::review::{is_readable_by, review_item, shows, Review, ReviewItem};
use crate::seen::{modify_seen_elements, SeenRecord};
use crate::service::{MiscellaneousService, ServiceState};

verus! {

/// Whether a seen record is one of `user_id` on the item `metadata_id`.
pub open spec fn is_history_row(user_id: i32, metadata_id: i32) -> spec_fn(SeenRecord) -> bool {
    |row: SeenRecord| row.user_id == user_id && row.metadata_id == metadata_id
}

/// Whether a review is about the item `metadata_id` and may be read by
/// `reader`.
pub open spec fn is_shown_review(reader: i32, metadata_id: i32) -> spec_fn(Review) -> bool {
    |row: Review| row.metadata_id == metadata_id && is_readable_by(row, reader)
}

/// The instants at which seen records were last updated.
pub open spec fn updated_instants(rows: Seq<SeenRecord>) -> Seq<i64> {
    Seq::new(rows.len(), |i: int| rows[i].last_updated_on.micros)
}

/// The instants at which reviews were posted.
pub open spec fn posted_instants(rows: Seq<Review>) -> Seq<i64> {
    Seq::new(rows.len(), |i: int| rows[i].posted_on.micros)
}

impl ServiceState {
    /// Whether `history` is the history of `user_id` on `metadata_id`: the
    /// user's records of the item, the one updated last first and records
    /// updated at the same instant in stored order, each with its display
    /// fields filled.
    pub open spec fn is_seen_history(
        self,
        metadata_id: i32,
        user_id: i32,
        history: Seq<SeenRecord>,
    ) -> bool {
        let rows = kept(self.seen, is_history_row(user_id, metadata_id));
        exists|order: Seq<usize>|
            {
                &&& #[trigger] is_descending_order(updated_instants(rows), order)
                &&& history.len() == rows.len()
                &&& forall|i: int|
                    0 <= i < history.len() ==> #[trigger] history[i]
                        == rows[order[i] as int].with_display_information()
            }
    }

    /// Whether `items` are the reviews of `metadata_id` as `reader` sees
    /// them: the reviews of the item that the reader may read, the one
    /// posted last first and reviews posted at the same instant in stored
    /// order, each as it is shown.
    pub open spec fn is_review_list(
        self,
        reader: i32,
        metadata_id: i32,
        items: Seq<ReviewItem>,
    ) -> bool {
        let rows = kept(self.reviews, is_shown_review(reader, metadata_id));
        exists|order: Seq<usize>|
            {
                &&& #[trigger] is_descending_order(posted_instants(rows), order)
                &&& items.len() == rows.len()
                &&& forall|i: int|
                    0 <= i < items.len() ==> shows(#[trigger] items[i], rows[order[i] as int])
            }
    }

    /// Whether `items` list the collections of `user_id` that `input`
    /// chooses, in stored order, each with the number of its items.
    pub open spec fn is_collection_list(
        self,
        user_id: i32,
        name: Option<String>,
        items: Seq<CollectionItem>,
    ) -> bool {
        self.is_collection_list_of(kept(self.collections, is_chosen(user_id, name)), items)
    }
}

impl MiscellaneousService {
    /// The history of `user_id` on the item `metadata_id`, latest first.
    pub fn seen_history(&self, metadata_id: i32, user_id: i32) -> (history: Vec<SeenRecord>)
        ensures
            self@.is_seen_history(metadata_id, user_id, history@),
    {
        let ghost wanted = is_history_row(user_id, metadata_id);
        let mut places: Vec<usize> = Vec::new();
        let mut instants: Vec<i64> = Vec::new();
        let mut k: usize = 0;
        proof {
            lemma_sift_start(self.seen@, wanted);
        }
        while k < self.seen.len()
            invariant
                wanted == is_history_row(user_id, metadata_id),
                k <= self.seen@.len(),
                places@.len() == kept(self.seen@.take(k as int), wanted).len(),
                instants@ == updated_instants(kept(self.seen@.take(k as int), wanted)),
                forall|i: int|
                    0 <= i < places@.len() ==> (#[trigger] places@[i]) < k && self.seen@[places@[i] as int]
                        == kept(self.seen@.take(k as int), wanted)[i],
            decreases self.seen@.len() - k,
        {
            proof {
                lemma_sift_step(self.seen@, wanted, k as int);
            }
            if self.seen[k].user_id == user_id && self.seen[k].metadata_id == metadata_id {
                places.push(k);
                instants.push(self.seen[k].last_updated_on.micros);
                assert(instants@ =~= updated_instants(
                    kept(self.seen@.take(k + 1), wanted),
                ));
            }
            k += 1;
        }
        proof {
            assert(self.seen@.take(k as int) =~= self.seen@);
        }
        let ghost rows = kept(self.seen@, wanted);
        let order = descending_order(&instants);
        let mut history: Vec<SeenRecord> = Vec::new();
        let mut i: usize = 0;
        while i < order.len()
            invariant
                i <= order@.len(),
                is_descending_order(updated_instants(rows), order@),
                places@.len() == rows.len(),
                forall|j: int|
                    0 <= j < places@.len() ==> (#[trigger] places@[j]) < self.seen@.len()
                        && self.seen@[places@[j] as int] == rows[j],
                history@.len() == i,
                forall|j: int| 0 <= j < i ==> #[trigger] history@[j] == rows[order@[j] as int],
            decreases order@.len() - i,
        {
            history.push(self.seen[places[order[i]]].duplicate());
            i += 1;
        }
        let ghost copied = history@;
        modify_seen_elements(&mut history);
        proof {
            assert(is_descending_order(updated_instants(rows), order@));
            assert forall|j: int| 0 <= j < history@.len() implies #[trigger] history@[j]
                == rows[order@[j] as int].with_display_information() by {
                assert(copied[j] == rows[order@[j] as int]);
            }
            assert(rows == kept(self@.seen, is_history_row(user_id, metadata_id)));
            assert(history@.len() == rows.len());
        }
        history
    }

    /// The reviews of the item `metadata_id` that `reader` may read, latest
    /// first, as they are shown.
    pub fn media_item_reviews(&self, reader: i32, metadata_id: i32) -> (items: Vec<ReviewItem>)
        ensures
            self@.is_review_list(reader, metadata_id, items@),
    {
        let ghost wanted = is_shown_review(reader, metadata_id);
        let mut places: Vec<usize> = Vec::new();
        let mut instants: Vec<i64> = Vec::new();
        let mut k: usize = 0;
        proof {
            lemma_sift_start(self.reviews@, wanted);
        }
        while k < self.reviews.len()
            invariant
                wanted == is_shown_review(reader, metadata_id),
                k <= self.reviews@.len(),
                places@.len() == kept(self.reviews@.take(k as int), wanted).len(),
                instants@ == posted_instants(kept(self.reviews@.take(k as int), wanted)),
                forall|i: int|
                    0 <= i < places@.len() ==> (#[trigger] places@[i]) < k
                        && self.reviews@[places@[i] as int] == kept(
                        self.reviews@.take(k as int),
                        wanted,
                    )[i],
            decreases self.reviews@.len() - k,
        {
            proof {
                lemma_sift_step(self.reviews@, wanted, k as int);
            }
            if self.reviews[k].metadata_id == metadata_id && crate::review::can_read(
                &self.reviews[k],
                reader,
            ) {
                places.push(k);
                instants.push(self.reviews[k].posted_on.micros);
                assert(instants@ =~= posted_instants(
                    kept(self.reviews@.take(k + 1), wanted),
                ));
            }
            k += 1;
        }
        proof {
            assert(self.reviews@.take(k as int) =~= self.reviews@);
        }
        let ghost rows = kept(self.reviews@, wanted);
        let order = descending_order(&instants);
        let mut items: Vec<ReviewItem> = Vec::new();
        let mut i: usize = 0;
        while i < order.len()
            invariant
                i <= order@.len(),
                is_descending_order(posted_instants(rows), order@),
                places@.len() == rows.len(),
                forall|j: int|
                    0 <= j < places@.len() ==> (#[trigger] places@[j]) < self.reviews@.len()
                        && self.reviews@[places@[j] as int] == rows[j],
                items@.len() == i,
                forall|j: int| 0 <= j < i ==> shows(#[trigger] items@[j], rows[order@[j] as int]),
            decreases order@.len() - i,
        {
            items.push(review_item(&self.reviews[places[order[i]]]));
            i += 1;
        }
        proof {
            assert(is_descending_order(posted_instants(rows), order@));
            assert(rows == kept(self@.reviews, is_shown_review(reader, metadata_id)));
            assert(items@.len() == rows.len());
        }
        items
    }

    /// The number of items in the collection `collection_id`.
    fn count_items(&self, collection_id: i32) -> (n: usize)
        ensures
            n == kept(self@.memberships, is_inside(collection_id)).len(),
    {
        let mut n: usize = 0;
        let mut k: usize = 0;
        proof {
            lemma_sift_start(self.memberships@, is_inside(collection_id));
        }
        while k < self.memberships.len()
            invariant
                k <= self.memberships@.len(),
                n == kept(self.memberships@.take(k as int), is_inside(collection_id)).len(),
                n <= k,
            decreases self.memberships@.len() - k,
        {
            proof {
                lemma_sift_step(self.memberships@, is_inside(collection_id), k as int);
            }
            if self.memberships[k].collection_id == collection_id {
                n += 1;
            }
            k += 1;
        }
        proof {
            assert(self.memberships@.take(k as int) =~= self.memberships@);
        }
        n
    }

    /// The collections of `user_id` that `input` chooses, each with the
    /// number of its items.
    pub fn collection_list(&self, user_id: i32, input: &CollectionInput) -> (items: Vec<
        CollectionItem,
    >)
        ensures
            self@.is_collection_list(user_id, input.name, items@),
    {
        let ghost wanted = is_chosen(user_id, input.name);
        let mut items: Vec<CollectionItem> = Vec::new();
        let mut k: usize = 0;
        proof {
            lemma_sift_start(self.collections@, wanted);
        }
        while k < self.collections.len()
            invariant
                wanted == is_chosen(user_id, input.name),
                k <= self.collections@.len(),
                self@.is_collection_list_of(kept(self.collections@.take(k as int), wanted), items@),
            decreases self.collections@.len() - k,
        {
            proof {
                lemma_sift_step(self.collections@, wanted, k as int);
            }
            let row = &self.collections[k];
            let named = match &input.name {
                Some(name) => row.name == *name,
                None => true,
            };
            if row.user_id == user_id && named {
                let copy = row.duplicate();
                items.push(
                    CollectionItem {
                        id: copy.id,
                        name: copy.name,
                        num_items: self.count_items(row.id) as u64,
                        description: copy.description,
                        visibility: copy.visibility,
                    },
                );
            }
            k += 1;
        }
        proof {
            assert(self.collections@.take(k as int) =~= self.collections@);
        }
        items
    }

    /// The collections of `user_id` that hold the item `metadata_id`, in
    /// stored order.
    pub fn media_in_collections(&self, user_id: i32, metadata_id: i32) -> (holding: Vec<Collection>)
        ensures
            holding@ == kept(self@.collections, self@.is_holding(user_id, metadata_id)),
    {
        let ghost wanted = self@.is_holding(user_id, metadata_id);
        let mut holding: Vec<Collection> = Vec::new();
        let mut k: usize = 0;
        proof {
            lemma_sift_start(self.collections@, wanted);
        }
        while k < self.collections.len()
            invariant
                wanted == self@.is_holding(user_id, metadata_id),
                k <= self.collections@.len(),
                holding@ == kept(self.collections@.take(k as int), wanted),
            decreases self.collections@.len() - k,
        {
            proof {
                lemma_sift_step(self.collections@, wanted, k as int);
            }
            let row = &self.collections[k];
            if row.user_id == user_id && self.holds(row.id, metadata_id) {
                holding.push(row.duplicate());
            }
            k += 1;
        }
        proof {
            assert(self.collections@.take(k as int) =~= self.collections@);
        }
        holding
    }

    /// Whether `metadata_id` is in the collection `collection_id`.
    fn holds(&self, collection_id: i32, metadata_id: i32) -> (held: bool)
        ensures
            held == any(self@.memberships, is_membership(collection_id, metadata_id)),
    {
        let mut k: usize = 0;
        while k < self.memberships.len()
            invariant
                k <= self.memberships@.len(),
                forall|j: int|
                    0 <= j < k ==> !is_membership(collection_id, metadata_id)(
                        #[trigger] self.memberships@[j],
                    ),
            decreases self.memberships@.len() - k,
        {
            if self.memberships[k].collection_id == collection_id && self.memberships[k].metadata_id
                == metadata_id {
                assert(is_membership(collection_id, metadata_id)(self.memberships@[k as int]));
                return true;
            }
            k += 1;
        }
        false
    }
}

impl ServiceState {
    /// Whether `items` list `rows`, each with the number of its items.
    pub open spec fn is_collection_list_of(
        self,
        rows: Seq<Collection>,
        items: Seq<CollectionItem>,
    ) -> bool {
        &&& items.len() == rows.len()
        &&& forall|i: int|
            0 <= i < items.len() ==> {
                &&& (#[trigger] items[i]).id == rows[i].id
                &&& items[i].name == rows[i].name
                &&& items[i].description == rows[i].description
                &&& items[i].visibility == rows[i].visibility
                &&& items[i].num_items == kept(self.memberships, is_inside(rows[i].id)).len()
            }
    }

    /// Whether a collection belongs to `user_id` and holds the item
    /// `metadata_id`.
    pub open spec fn is_holding(self, user_id: i32, metadata_id: i32) -> spec_fn(Collection) -> bool {
        |row: Collection|
            row.user_id == user_id && any(self.memberships, is_membership(row.id, metadata_id))
    }
}

} // verus!
