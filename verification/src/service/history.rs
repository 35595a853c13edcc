//! The stored media items and the deletion of seen records.

use vstd::prelude::*;
use crate::background::UpdateMetadataJob;
use crate::collection::{is_other_membership, owned_and_named, DefaultCollection};
use crate::error::{check_owner, ServiceError};
use crate::lookup::{
    any, first_index, kept, lemma_first_found, lemma_first_index, lemma_ids_push,
    lemma_ids_remove, lemma_none_found,
};
use crate::media::{
    sources_for_lot, IdObject, MediaDetails, Metadata, MetadataLot, MetadataSource,
};
use crate::seen::SeenRecord;
use crate::service::{has_metadata_id, metadata_key, seen_key, MiscellaneousService, ServiceState};

verus! {

/// Whether a seen record has the identity `id`.
pub open spec fn has_seen_id(id: i32) -> spec_fn(SeenRecord) -> bool {
    |row: SeenRecord| row.id == id
}

impl ServiceState {
    /// The state after a media item with `details` was stored, and its
    /// identity.
    pub open spec fn commit_media_internal(self, details: MediaDetails) -> (
        ServiceState,
        Result<IdObject, ServiceError>,
    ) {
        if self.next_metadata_id == i32::MAX {
            (self, Err(ServiceError::StorageError))
        } else {
            (
                ServiceState {
                    metadata: self.metadata.push(
                        Metadata {
                            id: self.next_metadata_id,
                            lot: details.lot,
                            source: details.source,
                            identifier: details.identifier,
                            title: details.title,
                            specifics: details.specifics,
                        },
                    ),
                    next_metadata_id: (self.next_metadata_id + 1) as i32,
                    ..self
                },
                Ok(IdObject { id: self.next_metadata_id }),
            )
        }
    }

    /// The state after `user_id` asked for the seen record `seen_id` to be
    /// deleted, and the identity of the record.
    ///
    /// The record must exist and be the user's. Where it was not finished,
    /// its item also leaves the user's collection of media in progress, if
    /// it was there.
    pub open spec fn delete_seen_item(self, seen_id: i32, user_id: i32) -> (
        ServiceState,
        Result<IdObject, ServiceError>,
    ) {
        match first_index(self.seen, has_seen_id(seen_id)) {
            None => (self, Err(ServiceError::NotFound)),
            Some(found) => {
                let record = self.seen[found];
                let in_progress = first_index(
                    self.collections,
                    owned_and_named(user_id, DefaultCollection::InProgress.name_of()@),
                );
                if record.user_id != user_id {
                    (self, Err(ServiceError::Unauthorized))
                } else {
                    (
                        ServiceState {
                            seen: self.seen.remove(found),
                            memberships: match in_progress {
                                Some(collection) if record.is_unfinished() => kept(
                                    self.memberships,
                                    is_other_membership(
                                        self.collections[collection].id,
                                        record.metadata_id,
                                    ),
                                ),
                                _ => self.memberships,
                            },
                            ..self
                        },
                        Ok(IdObject { id: seen_id }),
                    )
                }
            },
        }
    }

    /// The state after a job to fetch the details of `metadata_id` anew
    /// joined the queue; the item must be stored.
    pub open spec fn deploy_update_metadata_job(self, metadata_id: i32) -> (
        ServiceState,
        Result<(), ServiceError>,
    ) {
        if any(self.metadata, has_metadata_id(metadata_id)) {
            (
                ServiceState {
                    update_metadata: self.update_metadata.push(UpdateMetadataJob { metadata_id }),
                    ..self
                },
                Ok(()),
            )
        } else {
            (self, Err(ServiceError::NotFound))
        }
    }
}

impl MiscellaneousService {
    /// The providers that offer items of a kind.
    pub fn media_sources_for_lot(&self, lot: MetadataLot) -> (sources: Vec<MetadataSource>)
        ensures
            sources@ == sources_for_lot(lot),
    {
        crate::media::media_sources_for_lot(lot)
    }

    /// Stores a media item.
    pub fn commit_media_internal(&mut self, details: MediaDetails) -> (result: Result<
        IdObject,
        ServiceError,
    >)
        requires
            old(self).wf(),
        ensures
            final(self).wf(),
            (final(self)@, result) == old(self)@.commit_media_internal(details),
    {
        if self.next_metadata_id == i32::MAX {
            return Err(ServiceError::StorageError);
        }
        let id = self.next_metadata_id;
        let row = Metadata {
            id,
            lot: details.lot,
            source: details.source,
            identifier: details.identifier,
            title: details.title,
            specifics: details.specifics,
        };
        proof {
            lemma_ids_push(self.metadata@, metadata_key(), id as int, row, id + 1);
        }
        self.metadata.push(row);
        self.next_metadata_id = id + 1;
        Ok(IdObject { id })
    }

    /// The place of the seen record with the identity `id`.
    fn find_seen(&self, id: i32) -> (found: Option<usize>)
        ensures
            match found {
                Some(i) => first_index(self@.seen, has_seen_id(id)) == Some(i as int) && i
                    < self@.seen.len(),
                None => first_index(self@.seen, has_seen_id(id)) is None,
            },
    {
        let mut k: usize = 0;
        while k < self.seen.len()
            invariant
                k <= self.seen@.len(),
                forall|j: int| 0 <= j < k ==> !has_seen_id(id)(#[trigger] self.seen@[j]),
            decreases self.seen@.len() - k,
        {
            if self.seen[k].id == id {
                proof {
                    lemma_first_found(self.seen@, has_seen_id(id), k as int);
                }
                return Some(k);
            }
            k += 1;
        }
        proof {
            lemma_none_found(self.seen@, has_seen_id(id));
        }
        None
    }

    /// Deletes a seen record of `user_id`.
    pub fn delete_seen_item(&mut self, seen_id: i32, user_id: i32) -> (result: Result<
        IdObject,
        ServiceError,
    >)
        requires
            old(self).wf(),
        ensures
            final(self).wf(),
            (final(self)@, result) == old(self)@.delete_seen_item(seen_id, user_id),
    {
        let found = match self.find_seen(seen_id) {
            Some(found) => found,
            None => {
                return Err(ServiceError::NotFound);
            },
        };
        if let Err(e) = check_owner(self.seen[found].user_id, user_id) {
            return Err(e);
        }
        proof {
            lemma_ids_remove(self.seen@, seen_key(), self.next_seen_id as int, found as int);
        }
        let record = self.seen.remove(found);
        if record.unfinished() {
            let name = DefaultCollection::InProgress.to_string();
            if let Some(collection) = self.find_collection(user_id, &name) {
                self.memberships = self.other_memberships(
                    self.collections[collection].id,
                    record.metadata_id,
                );
            }
        }
        Ok(IdObject { id: seen_id })
    }

    /// Hands out the jobs left to fetch details anew, oldest first, and
    /// forgets them.
    pub fn take_update_metadata(&mut self) -> (jobs: Vec<UpdateMetadataJob>)
        ensures
            jobs@ == old(self)@.update_metadata,
            final(self)@ == (ServiceState { update_metadata: Seq::empty(), ..old(self)@ }),
    {
        let mut jobs: Vec<UpdateMetadataJob> = Vec::new();
        core::mem::swap(&mut self.update_metadata, &mut jobs);
        jobs
    }

    /// Leaves a job to fetch the details of a stored item anew.
    pub fn deploy_update_metadata_job(&mut self, metadata_id: i32) -> (result: Result<
        (),
        ServiceError,
    >)
        ensures
            (final(self)@, result) == old(self)@.deploy_update_metadata_job(metadata_id),
    {
        proof {
            lemma_first_index(self.metadata@, has_metadata_id(metadata_id));
        }
        match self.find_metadata(metadata_id) {
            Some(_) => {
                self.update_metadata.push(UpdateMetadataJob { metadata_id });
                Ok(())
            },
            None => Err(ServiceError::NotFound),
        }
    }
}

} // verus!
