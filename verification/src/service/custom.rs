//! Storing media items of a user's own making.

use vstd::prelude::*;
use crate::collection::{owned_and_named, DefaultCollection, MetadataToCollection};
use crate::custom::{
    custom_specifics, custom_specifics_of, fresh_identifier, CreateCustomMediaError,
    CreateCustomMediaErrorVariant, CreateCustomMediaInput, CreateCustomMediaResult,
};
use crate::error::ServiceError;
use crate::lookup::{first_index, lemma_ids_push};
use crate::media::{IdObject, Metadata, MetadataSource};
use crate::service::{metadata_key, MiscellaneousService, ServiceState};

verus! {

impl ServiceState {
    /// The state after `user_id` asked for an item of the user's own to be
    /// stored under the identifier `identifier`, and the answer.
    ///
    /// A request without the details of the kind that it names is turned
    /// down. Otherwise the item is stored and put into the user's
    /// collection of items made by hand, which must exist.
    pub open spec fn create_custom_media(
        self,
        input: CreateCustomMediaInput,
        user_id: i32,
        identifier: String,
    ) -> (ServiceState, Result<CreateCustomMediaResult, ServiceError>) {
        let custom = first_index(
            self.collections,
            owned_and_named(user_id, DefaultCollection::Custom.name_of()@),
        );
        match (custom_specifics_of(input), custom) {
            (None, _) => (
                self,
                Ok(
                    CreateCustomMediaResult::Error(
                        CreateCustomMediaError {
                            error: CreateCustomMediaErrorVariant::LotDoesNotMatchSpecifics,
                        },
                    ),
                ),
            ),
            (Some(_), None) => (self, Err(ServiceError::NotFound)),
            (Some(specifics), Some(collection)) => if self.next_metadata_id == i32::MAX {
                (self, Err(ServiceError::StorageError))
            } else {
                (
                    ServiceState {
                        metadata: self.metadata.push(
                            Metadata {
                                id: self.next_metadata_id,
                                lot: input.lot,
                                source: MetadataSource::Custom,
                                identifier,
                                title: input.title,
                                specifics,
                            },
                        ),
                        next_metadata_id: (self.next_metadata_id + 1) as i32,
                        memberships: self.memberships.push(
                            MetadataToCollection {
                                metadata_id: self.next_metadata_id,
                                collection_id: self.collections[collection].id,
                            },
                        ),
                        ..self
                    },
                    Ok(CreateCustomMediaResult::Stored(IdObject { id: self.next_metadata_id })),
                )
            },
        }
    }
}

impl MiscellaneousService {
    /// Stores an item of the making of `user_id`, under a fresh identifier.
    pub fn create_custom_media(&mut self, input: CreateCustomMediaInput, user_id: i32) -> (result:
        Result<CreateCustomMediaResult, ServiceError>)
        requires
            old(self).wf(),
        ensures
            final(self).wf(),
            exists|identifier: String|
                (final(self)@, result) == #[trigger] old(self)@.create_custom_media(
                    input,
                    user_id,
                    identifier,
                ),
    {
        let identifier = fresh_identifier();
        self.create_custom_media_as(input, user_id, identifier)
    }

    /// Stores an item of the making of `user_id`, under the identifier
    /// `identifier`.
    pub fn create_custom_media_as(
        &mut self,
        input: CreateCustomMediaInput,
        user_id: i32,
        identifier: String,
    ) -> (result: Result<CreateCustomMediaResult, ServiceError>)
        requires
            old(self).wf(),
        ensures
            final(self).wf(),
            (final(self)@, result) == old(self)@.create_custom_media(input, user_id, identifier),
    {
        let lot = input.lot;
        let (title, specifics) = custom_specifics(input);
        let specifics = match specifics {
            Some(specifics) => specifics,
            None => {
                return Ok(
                    CreateCustomMediaResult::Error(
                        CreateCustomMediaError {
                            error: CreateCustomMediaErrorVariant::LotDoesNotMatchSpecifics,
                        },
                    ),
                );
            },
        };
        let name = DefaultCollection::Custom.to_string();
        let collection = match self.find_collection(user_id, &name) {
            Some(collection) => collection,
            None => {
                return Err(ServiceError::NotFound);
            },
        };
        if self.next_metadata_id == i32::MAX {
            return Err(ServiceError::StorageError);
        }
        let id = self.next_metadata_id;
        let row = Metadata {
            id,
            lot,
            source: MetadataSource::Custom,
            identifier,
            title,
            specifics,
        };
        proof {
            lemma_ids_push(self.metadata@, metadata_key(), id as int, row, id + 1);
        }
        self.metadata.push(row);
        self.next_metadata_id = id + 1;
        self.memberships.push(
            MetadataToCollection { metadata_id: id, collection_id: self.collections[collection].id },
        );
        Ok(CreateCustomMediaResult::Stored(IdObject { id }))
    }
}

} // verus!
