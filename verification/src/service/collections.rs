//! Collections of the service: making, filling, emptying and deleting them.

use vstd::prelude::*;
use vstd::string::StringExecFns;
use crate::collection::{
    has_collection_id, is_default_collection_name, is_default_name, is_membership,
    is_other_membership, is_outside, owned_and_named, AddMediaToCollection, Collection,
    CreateOrUpdateCollectionInput, DefaultCollection, MetadataToCollection, Visibility,
};
use crate::error::ServiceError;
use crate::lookup::{
    any, first_index, kept, lemma_first_found, lemma_first_index, lemma_ids_push,
    lemma_ids_remove, lemma_ids_update, lemma_kept_push, lemma_none_found,
};
use crate::media::IdObject;
use crate::service::{collection_key, has_metadata_id, MiscellaneousService, ServiceState};

verus! {

impl ServiceState {
    /// The state after `user_id` asked for a collection to be made or
    /// changed, and the identity of the collection.
    ///
    /// Without `update_id`, a collection of the user with the name is
    /// answered with as it stands, and otherwise one is made, private
    /// unless the request says otherwise. With `update_id`, the collection
    /// of that identity, which must be the user's, takes the name and the
    /// description of the request, and its visibility where it gives one.
    pub open spec fn create_or_update_collection(
        self,
        user_id: i32,
        input: CreateOrUpdateCollectionInput,
    ) -> (ServiceState, Result<IdObject, ServiceError>) {
        match input.update_id {
            None => match first_index(self.collections, owned_and_named(user_id, input.name@)) {
                Some(found) => (self, Ok(IdObject { id: self.collections[found].id })),
                None => if self.next_collection_id == i32::MAX {
                    (self, Err(ServiceError::StorageError))
                } else {
                    (
                        ServiceState {
                            collections: self.collections.push(
                                Collection {
                                    id: self.next_collection_id,
                                    user_id,
                                    name: input.name,
                                    description: input.description,
                                    visibility: match input.visibility {
                                        Some(visibility) => visibility,
                                        None => Visibility::Private,
                                    },
                                },
                            ),
                            next_collection_id: (self.next_collection_id + 1) as i32,
                            ..self
                        },
                        Ok(IdObject { id: self.next_collection_id }),
                    )
                },
            },
            Some(id) => match first_index(self.collections, has_collection_id(id)) {
                None => (self, Err(ServiceError::NotFound)),
                Some(found) => if self.collections[found].user_id != user_id {
                    (self, Err(ServiceError::Unauthorized))
                } else {
                    (
                        ServiceState {
                            collections: self.collections.update(
                                found,
                                Collection {
                                    name: input.name,
                                    description: input.description,
                                    visibility: match input.visibility {
                                        Some(visibility) => visibility,
                                        None => self.collections[found].visibility,
                                    },
                                    ..self.collections[found]
                                },
                            ),
                            ..self
                        },
                        Ok(IdObject { id }),
                    )
                },
            },
        }
    }

    /// The state after `user_id` asked for the collection `name` to be
    /// deleted, and whether there was one to delete.
    ///
    /// A default collection is never deleted. With a collection go its
    /// memberships.
    pub open spec fn delete_collection(self, user_id: i32, name: Seq<char>) -> (
        ServiceState,
        Result<bool, ServiceError>,
    ) {
        if is_default_name(name) {
            (self, Err(ServiceError::DefaultCollection))
        } else {
            match first_index(self.collections, owned_and_named(user_id, name)) {
                None => (self, Ok(false)),
                Some(found) => (
                    ServiceState {
                        collections: self.collections.remove(found),
                        memberships: kept(
                            self.memberships,
                            is_outside(self.collections[found].id),
                        ),
                        ..self
                    },
                    Ok(true),
                ),
            }
        }
    }

    /// The state after `user_id` asked for `metadata_id` to be taken out of
    /// the collection `name`, and the identity of the collection.
    ///
    /// Taking out what is not in the collection changes nothing and is no
    /// failure.
    pub open spec fn remove_media_item_from_collection(
        self,
        user_id: i32,
        metadata_id: i32,
        name: Seq<char>,
    ) -> (ServiceState, Result<IdObject, ServiceError>) {
        match first_index(self.collections, owned_and_named(user_id, name)) {
            None => (self, Err(ServiceError::NotFound)),
            Some(found) => {
                let id = self.collections[found].id;
                (
                    ServiceState {
                        memberships: kept(self.memberships, is_other_membership(id, metadata_id)),
                        ..self
                    },
                    Ok(IdObject { id }),
                )
            },
        }
    }

    /// The state after `user_id` asked for a media item to be put into a
    /// collection of a name, and whether it was put in: it is not where it
    /// was in the collection already, or is not stored.
    pub open spec fn add_media_to_collection(
        self,
        user_id: i32,
        collection_name: Seq<char>,
        media_id: i32,
    ) -> (ServiceState, Result<bool, ServiceError>) {
        match first_index(self.collections, owned_and_named(user_id, collection_name)) {
            None => (self, Err(ServiceError::NotFound)),
            Some(found) => {
                let id = self.collections[found].id;
                if any(self.memberships, is_membership(id, media_id)) || !any(
                    self.metadata,
                    has_metadata_id(media_id),
                ) {
                    (self, Ok(false))
                } else {
                    (
                        ServiceState {
                            memberships: self.memberships.push(
                                MetadataToCollection { metadata_id: media_id, collection_id: id },
                            ),
                            ..self
                        },
                        Ok(true),
                    )
                }
            },
        }
    }
}

/// Whether `input` asks for the default collection `which` to be made.
pub open spec fn is_default_request(
    input: CreateOrUpdateCollectionInput,
    which: DefaultCollection,
) -> bool {
    &&& input.name@ == which.name_of()@
    &&& input.description matches Some(description) && description@ == which.description_of()@
    &&& input.visibility is None
    &&& input.update_id is None
}

/// Whether `inputs` ask for the first `upto` default collections, in
/// their order.
pub open spec fn are_default_requests(inputs: Seq<CreateOrUpdateCollectionInput>, upto: int) -> bool {
    &&& inputs.len() == upto
    &&& forall|i: int|
        0 <= i < upto ==> is_default_request(#[trigger] inputs[i], DefaultCollection::all()[i])
}

impl ServiceState {
    /// The state after `user_id` asked for each of `inputs` in turn, a
    /// request that fails being passed over.
    pub open spec fn create_collections(
        self,
        user_id: i32,
        inputs: Seq<CreateOrUpdateCollectionInput>,
    ) -> ServiceState
        decreases inputs.len(),
    {
        if inputs.len() == 0 {
            self
        } else {
            self.create_collections(user_id, inputs.drop_last()).create_or_update_collection(
                user_id,
                inputs.last(),
            ).0
        }
    }
}

impl MiscellaneousService {
    /// Gives `user_id` the default collections, each with its description.
    /// One that the user has already is left as it is.
    pub fn user_created_job(&mut self, user_id: i32)
        requires
            old(self).wf(),
        ensures
            final(self).wf(),
            exists|inputs: Seq<CreateOrUpdateCollectionInput>|
                are_default_requests(inputs, DefaultCollection::all().len() as int) && final(self)@
                    == #[trigger] old(self)@.create_collections(user_id, inputs),
    {
        let all = DefaultCollection::iter();
        let ghost mut inputs: Seq<CreateOrUpdateCollectionInput> = Seq::empty();
        let mut k: usize = 0;
        while k < all.len()
            invariant
                all@ == DefaultCollection::all(),
                k <= all@.len(),
                self.wf(),
                are_default_requests(inputs, k as int),
                self@ == old(self)@.create_collections(user_id, inputs),
            decreases all@.len() - k,
        {
            let input = CreateOrUpdateCollectionInput {
                name: all[k].to_string(),
                description: Some(String::from_str(all[k].meta())),
                visibility: None,
                update_id: None,
            };
            proof {
                assert(inputs.push(input).drop_last() =~= inputs);
                inputs = inputs.push(input);
            }
            let _ = self.create_or_update_collection(user_id, input);
            k += 1;
        }
    }

    /// The place of the collection of `user_id` with the name `name`.
    pub(crate) fn find_collection(&self, user_id: i32, name: &String) -> (found: Option<usize>)
        ensures
            match found {
                Some(i) => first_index(self@.collections, owned_and_named(user_id, name@)) == Some(
                    i as int,
                ) && i < self@.collections.len(),
                None => first_index(self@.collections, owned_and_named(user_id, name@)) is None,
            },
    {
        let mut k: usize = 0;
        while k < self.collections.len()
            invariant
                k <= self.collections@.len(),
                forall|j: int|
                    0 <= j < k ==> !owned_and_named(user_id, name@)(#[trigger] self.collections@[j]),
            decreases self.collections@.len() - k,
        {
            if self.collections[k].user_id == user_id && self.collections[k].name == *name {
                proof {
                    lemma_first_found(
                        self.collections@,
                        owned_and_named(user_id, name@),
                        k as int,
                    );
                }
                return Some(k);
            }
            k += 1;
        }
        proof {
            lemma_none_found(self.collections@, owned_and_named(user_id, name@));
        }
        None
    }

    /// The place of the collection with the identity `id`.
    fn find_collection_by_id(&self, id: i32) -> (found: Option<usize>)
        ensures
            match found {
                Some(i) => first_index(self@.collections, has_collection_id(id)) == Some(i as int)
                    && i < self@.collections.len(),
                None => first_index(self@.collections, has_collection_id(id)) is None,
            },
    {
        let mut k: usize = 0;
        while k < self.collections.len()
            invariant
                k <= self.collections@.len(),
                forall|j: int|
                    0 <= j < k ==> !has_collection_id(id)(#[trigger] self.collections@[j]),
            decreases self.collections@.len() - k,
        {
            if self.collections[k].id == id {
                proof {
                    lemma_first_found(self.collections@, has_collection_id(id), k as int);
                }
                return Some(k);
            }
            k += 1;
        }
        proof {
            lemma_none_found(self.collections@, has_collection_id(id));
        }
        None
    }

    /// Whether `metadata_id` is in the collection `collection_id`.
    fn has_membership(&self, collection_id: i32, metadata_id: i32) -> (held: bool)
        ensures
            held == any(self@.memberships, is_membership(collection_id, metadata_id)),
    {
        let mut k: usize = 0;
        while k < self.memberships.len()
            invariant
                k <= self.memberships@.len(),
                forall|j: int|
                    0 <= j < k ==> !is_membership(collection_id, metadata_id)(
                        #[trigger] self.memberships@[j],
                    ),
            decreases self.memberships@.len() - k,
        {
            if self.memberships[k].collection_id == collection_id && self.memberships[k].metadata_id
                == metadata_id {
                assert(is_membership(collection_id, metadata_id)(self.memberships@[k as int]));
                return true;
            }
            k += 1;
        }
        false
    }

    /// The memberships but that of `metadata_id` in `collection_id`.
    pub(crate) fn other_memberships(&self, collection_id: i32, metadata_id: i32) -> (others: Vec<
        MetadataToCollection,
    >)
        ensures
            others@ == kept(self@.memberships, is_other_membership(collection_id, metadata_id)),
    {
        let mut others: Vec<MetadataToCollection> = Vec::new();
        let mut k: usize = 0;
        proof {
            reveal(Seq::filter);
            assert(self.memberships@.take(0) =~= Seq::<MetadataToCollection>::empty());
        }
        while k < self.memberships.len()
            invariant
                k <= self.memberships@.len(),
                others@ == kept(
                    self.memberships@.take(k as int),
                    is_other_membership(collection_id, metadata_id),
                ),
            decreases self.memberships@.len() - k,
        {
            proof {
                lemma_kept_push(
                    self.memberships@.take(k as int),
                    is_other_membership(collection_id, metadata_id),
                    self.memberships@[k as int],
                );
                assert(self.memberships@.take(k as int).push(self.memberships@[k as int])
                    =~= self.memberships@.take(k + 1));
            }
            let row = self.memberships[k];
            if !(row.collection_id == collection_id && row.metadata_id == metadata_id) {
                others.push(row);
            }
            k += 1;
        }
        proof {
            assert(self.memberships@.take(k as int) =~= self.memberships@);
        }
        others
    }

    /// The memberships in other collections than `collection_id`.
    fn memberships_outside(&self, collection_id: i32) -> (others: Vec<MetadataToCollection>)
        ensures
            others@ == kept(self@.memberships, is_outside(collection_id)),
    {
        let mut others: Vec<MetadataToCollection> = Vec::new();
        let mut k: usize = 0;
        proof {
            reveal(Seq::filter);
            assert(self.memberships@.take(0) =~= Seq::<MetadataToCollection>::empty());
        }
        while k < self.memberships.len()
            invariant
                k <= self.memberships@.len(),
                others@ == kept(self.memberships@.take(k as int), is_outside(collection_id)),
            decreases self.memberships@.len() - k,
        {
            proof {
                lemma_kept_push(
                    self.memberships@.take(k as int),
                    is_outside(collection_id),
                    self.memberships@[k as int],
                );
                assert(self.memberships@.take(k as int).push(self.memberships@[k as int])
                    =~= self.memberships@.take(k + 1));
            }
            let row = self.memberships[k];
            if row.collection_id != collection_id {
                others.push(row);
            }
            k += 1;
        }
        proof {
            assert(self.memberships@.take(k as int) =~= self.memberships@);
        }
        others
    }

    /// Makes a collection for `user_id`, or changes one.
    pub fn create_or_update_collection(
        &mut self,
        user_id: i32,
        input: CreateOrUpdateCollectionInput,
    ) -> (result: Result<IdObject, ServiceError>)
        requires
            old(self).wf(),
        ensures
            final(self).wf(),
            (final(self)@, result) == old(self)@.create_or_update_collection(user_id, input),
    {
        match input.update_id {
            None => {
                if let Some(found) = self.find_collection(user_id, &input.name) {
                    return Ok(IdObject { id: self.collections[found].id });
                }
                if self.next_collection_id == i32::MAX {
                    return Err(ServiceError::StorageError);
                }
                let id = self.next_collection_id;
                let row = Collection {
                    id,
                    user_id,
                    name: input.name,
                    description: input.description,
                    visibility: match input.visibility {
                        Some(visibility) => visibility,
                        None => Visibility::Private,
                    },
                };
                proof {
                    lemma_ids_push(self.collections@, collection_key(), id as int, row, id + 1);
                }
                self.collections.push(row);
                self.next_collection_id = id + 1;
                Ok(IdObject { id })
            },
            Some(id) => {
                let found = match self.find_collection_by_id(id) {
                    Some(found) => found,
                    None => {
                        return Err(ServiceError::NotFound);
                    },
                };
                if self.collections[found].user_id != user_id {
                    return Err(ServiceError::Unauthorized);
                }
                proof {
                    lemma_first_index(self.collections@, has_collection_id(id));
                }
                self.collections[found].name = input.name;
                self.collections[found].description = input.description;
                if let Some(visibility) = input.visibility {
                    self.collections[found].visibility = visibility;
                }
                proof {
                    lemma_ids_update(
                        old(self).collections@,
                        collection_key(),
                        self.next_collection_id as int,
                        found as int,
                        self.collections@[found as int],
                    );
                    assert(self.collections@ =~= old(self).collections@.update(
                        found as int,
                        self.collections@[found as int],
                    ));
                }
                Ok(IdObject { id })
            },
        }
    }

    /// Deletes the collection of `user_id` with the name `name`, unless it
    /// is a default collection.
    pub fn delete_collection(&mut self, user_id: i32, name: &str) -> (result: Result<
        bool,
        ServiceError,
    >)
        requires
            old(self).wf(),
        ensures
            final(self).wf(),
            (final(self)@, result) == old(self)@.delete_collection(user_id, name@),
    {
        let name = name.to_owned();
        if is_default_collection_name(&name) {
            return Err(ServiceError::DefaultCollection);
        }
        match self.find_collection(user_id, &name) {
            None => Ok(false),
            Some(found) => {
                let memberships = self.memberships_outside(self.collections[found].id);
                proof {
                    lemma_ids_remove(
                        self.collections@,
                        collection_key(),
                        self.next_collection_id as int,
                        found as int,
                    );
                }
                self.collections.remove(found);
                self.memberships = memberships;
                Ok(true)
            },
        }
    }

    /// Takes `metadata_id` out of the collection of `user_id` with the name
    /// `collection_name`.
    pub fn remove_media_item_from_collection(
        &mut self,
        user_id: i32,
        metadata_id: i32,
        collection_name: &str,
    ) -> (result: Result<IdObject, ServiceError>)
        requires
            old(self).wf(),
        ensures
            final(self).wf(),
            (final(self)@, result) == old(self)@.remove_media_item_from_collection(
                user_id,
                metadata_id,
                collection_name@,
            ),
    {
        let name = collection_name.to_owned();
        match self.find_collection(user_id, &name) {
            None => Err(ServiceError::NotFound),
            Some(found) => {
                let id = self.collections[found].id;
                self.memberships = self.other_memberships(id, metadata_id);
                Ok(IdObject { id })
            },
        }
    }

    /// Puts a media item into a collection of `user_id`.
    pub fn add_media_to_collection(&mut self, user_id: i32, input: AddMediaToCollection) -> (result:
        Result<bool, ServiceError>)
        requires
            old(self).wf(),
        ensures
            final(self).wf(),
            (final(self)@, result) == old(self)@.add_media_to_collection(
                user_id,
                input.collection_name@,
                input.media_id,
            ),
    {
        match self.find_collection(user_id, &input.collection_name) {
            None => Err(ServiceError::NotFound),
            Some(found) => {
                let id = self.collections[found].id;
                let stored = self.find_metadata(input.media_id).is_some();
                proof {
                    lemma_first_index(self.metadata@, has_metadata_id(input.media_id));
                }
                if self.has_membership(id, input.media_id) || !stored {
                    Ok(false)
                } else {
                    self.memberships.push(
                        MetadataToCollection { metadata_id: input.media_id, collection_id: id },
                    );
                    Ok(true)
                }
            },
        }
    }
}

} // verus!
