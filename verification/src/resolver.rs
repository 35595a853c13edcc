//! The operations as a client reaches them: each is done for the user who
//! is logged in, and refused where nobody is.

use vstd::prelude::*;
use crate::clock::{Date, Timestamp};
use crate::collection::{AddMediaToCollection, CreateOrUpdateCollectionInput};
use crate::error::ServiceError;
use crate::media::{sources_for_lot, IdObject, MetadataLot, MetadataSource};
use crate::progress::ProgressUpdateInput;
use crate::review::PostReviewInput;
use crate::service::MiscellaneousService;
use crate::summary::UserSummary;

verus! {

/// The answer to a caller who is not logged in.
pub open spec fn not_logged_in<T>() -> Result<T, ServiceError> {
    Err(ServiceError::Unauthorized)
}

/// The operations that read.
#[derive(Clone, Copy, Debug, Default)]
pub struct MiscellaneousQuery;

/// The operations that change something.
#[derive(Clone, Copy, Debug, Default)]
pub struct MiscellaneousMutation;

impl MiscellaneousQuery {
    /// What the caller has finished, as of the latest summary.
    pub fn user_summary(&self, service: &MiscellaneousService, caller: Option<i32>) -> (result:
        Result<UserSummary, ServiceError>)
        ensures
            match caller {
                Some(user_id) => result matches Ok(summary) && summary.media
                    == service@.latest_user_summary(user_id).data && summary.calculated_on
                    == service@.latest_user_summary(user_id).created_on,
                None => result == not_logged_in::<UserSummary>(),
            },
    {
        match caller {
            Some(user_id) => Ok(service.user_summary(user_id)),
            None => Err(ServiceError::Unauthorized),
        }
    }

    /// The providers that offer items of a kind. Anybody may ask.
    pub fn media_sources_for_lot(&self, service: &MiscellaneousService, lot: MetadataLot) -> (sources:
        Vec<MetadataSource>)
        ensures
            sources@ == sources_for_lot(lot),
    {
        service.media_sources_for_lot(lot)
    }
}

impl MiscellaneousMutation {
    /// Posts a review of the caller, or changes one.
    pub fn post_review(
        &self,
        service: &mut MiscellaneousService,
        caller: Option<i32>,
        input: PostReviewInput,
    ) -> (result: Result<IdObject, ServiceError>)
        requires
            old(service).wf(),
        ensures
            final(service).wf(),
            match caller {
                Some(user_id) => exists|now: Timestamp|
                    (final(service)@, result) == #[trigger] old(service)@.post_review(
                        user_id,
                        input,
                        now,
                    ),
                None => (final(service)@, result) == (old(service)@, not_logged_in::<IdObject>()),
            },
    {
        match caller {
            Some(user_id) => service.post_review(user_id, input),
            None => Err(ServiceError::Unauthorized),
        }
    }

    /// Deletes a review of the caller.
    pub fn delete_review(
        &self,
        service: &mut MiscellaneousService,
        caller: Option<i32>,
        review_id: i32,
    ) -> (result: Result<bool, ServiceError>)
        requires
            old(service).wf(),
        ensures
            final(service).wf(),
            (final(service)@, result) == match caller {
                Some(user_id) => old(service)@.delete_review(user_id, review_id),
                None => (old(service)@, not_logged_in::<bool>()),
            },
    {
        match caller {
            Some(user_id) => service.delete_review(user_id, review_id),
            None => Err(ServiceError::Unauthorized),
        }
    }

    /// Makes a collection for the caller, or changes one.
    pub fn create_or_update_collection(
        &self,
        service: &mut MiscellaneousService,
        caller: Option<i32>,
        input: CreateOrUpdateCollectionInput,
    ) -> (result: Result<IdObject, ServiceError>)
        requires
            old(service).wf(),
        ensures
            final(service).wf(),
            (final(service)@, result) == match caller {
                Some(user_id) => old(service)@.create_or_update_collection(user_id, input),
                None => (old(service)@, not_logged_in::<IdObject>()),
            },
    {
        match caller {
            Some(user_id) => service.create_or_update_collection(user_id, input),
            None => Err(ServiceError::Unauthorized),
        }
    }

    /// Puts a media item into a collection of the caller.
    pub fn add_media_to_collection(
        &self,
        service: &mut MiscellaneousService,
        caller: Option<i32>,
        input: AddMediaToCollection,
    ) -> (result: Result<bool, ServiceError>)
        requires
            old(service).wf(),
        ensures
            final(service).wf(),
            (final(service)@, result) == match caller {
                Some(user_id) => old(service)@.add_media_to_collection(
                    user_id,
                    input.collection_name@,
                    input.media_id,
                ),
                None => (old(service)@, not_logged_in::<bool>()),
            },
    {
        match caller {
            Some(user_id) => service.add_media_to_collection(user_id, input),
            None => Err(ServiceError::Unauthorized),
        }
    }

    /// Takes a media item out of a collection of the caller.
    pub fn remove_media_from_collection(
        &self,
        service: &mut MiscellaneousService,
        caller: Option<i32>,
        metadata_id: i32,
        collection_name: &str,
    ) -> (result: Result<IdObject, ServiceError>)
        requires
            old(service).wf(),
        ensures
            final(service).wf(),
            (final(service)@, result) == match caller {
                Some(user_id) => old(service)@.remove_media_item_from_collection(
                    user_id,
                    metadata_id,
                    collection_name@,
                ),
                None => (old(service)@, not_logged_in::<IdObject>()),
            },
    {
        match caller {
            Some(user_id) => service.remove_media_item_from_collection(
                user_id,
                metadata_id,
                collection_name,
            ),
            None => Err(ServiceError::Unauthorized),
        }
    }

    /// Deletes a collection of the caller.
    pub fn delete_collection(
        &self,
        service: &mut MiscellaneousService,
        caller: Option<i32>,
        collection_name: &str,
    ) -> (result: Result<bool, ServiceError>)
        requires
            old(service).wf(),
        ensures
            final(service).wf(),
            (final(service)@, result) == match caller {
                Some(user_id) => old(service)@.delete_collection(user_id, collection_name@),
                None => (old(service)@, not_logged_in::<bool>()),
            },
    {
        match caller {
            Some(user_id) => service.delete_collection(user_id, collection_name),
            None => Err(ServiceError::Unauthorized),
        }
    }

    /// Deletes a seen record of the caller.
    pub fn delete_seen_item(
        &self,
        service: &mut MiscellaneousService,
        caller: Option<i32>,
        seen_id: i32,
    ) -> (result: Result<IdObject, ServiceError>)
        requires
            old(service).wf(),
        ensures
            final(service).wf(),
            (final(service)@, result) == match caller {
                Some(user_id) => old(service)@.delete_seen_item(seen_id, user_id),
                None => (old(service)@, not_logged_in::<IdObject>()),
            },
    {
        match caller {
            Some(user_id) => service.delete_seen_item(seen_id, user_id),
            None => Err(ServiceError::Unauthorized),
        }
    }

    /// Deletes every summary of the caller and leaves a job to make a new
    /// one.
    pub fn regenerate_user_summary(&self, service: &mut MiscellaneousService, caller: Option<i32>) -> (result:
        Result<bool, ServiceError>)
        requires
            old(service).wf(),
        ensures
            final(service).wf(),
            (final(service)@, result) == match caller {
                Some(user_id) => (
                    old(service)@.cleanup_summaries_for_user(
                        user_id,
                    ).deploy_recalculate_summary_job(user_id),
                    Ok::<bool, ServiceError>(true),
                ),
                None => (old(service)@, not_logged_in::<bool>()),
            },
    {
        match caller {
            Some(user_id) => Ok(service.regenerate_user_summary(user_id)),
            None => Err(ServiceError::Unauthorized),
        }
    }

    /// Takes a progress report of the caller.
    pub fn progress_update(
        &self,
        service: &mut MiscellaneousService,
        caller: Option<i32>,
        input: ProgressUpdateInput,
    ) -> (result: Result<IdObject, ServiceError>)
        requires
            old(service).wf(),
        ensures
            final(service).wf(),
            match caller {
                Some(user_id) => exists|today: Date, now: Timestamp|
                    (final(service)@, result) == #[trigger] old(service)@.progress_update(
                        input,
                        user_id,
                        today,
                        now,
                    ),
                None => (final(service)@, result) == (old(service)@, not_logged_in::<IdObject>()),
            },
    {
        match caller {
            Some(user_id) => service.progress_update(input, user_id),
            None => Err(ServiceError::Unauthorized),
        }
    }

    /// Leaves a job to fetch the details of a stored item anew. Anybody may
    /// ask.
    pub fn deploy_update_metadata_job(&self, service: &mut MiscellaneousService, metadata_id: i32) -> (result:
        Result<(), ServiceError>)
        ensures
            (final(service)@, result) == old(service)@.deploy_update_metadata_job(metadata_id),
    {
        service.deploy_update_metadata_job(metadata_id)
    }

    /// Merges one item into another. Anybody may ask.
    pub fn merge_metadata(
        &self,
        service: &mut MiscellaneousService,
        merge_from: i32,
        merge_into: i32,
    ) -> (result: Result<bool, ServiceError>)
        requires
            old(service).wf(),
        ensures
            final(service).wf(),
            (final(service)@, result) == old(service)@.merge_metadata(merge_from, merge_into),
    {
        service.merge_metadata(merge_from, merge_into)
    }
}

} // verus!
