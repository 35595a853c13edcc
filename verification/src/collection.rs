//! Collections: named groupings of media items owned by a user, and the
//! fixed set of collections that every user starts with.

use vstd::prelude::*;
use vstd::string::StringExecFns;
use crate::error::ServiceError;

verus! {

/// Who may see a collection or a review.
#[derive(Clone, Copy, Debug, PartialEq, Eq, Structural)]
pub enum Visibility {
    Public,
    Private,
}

/// A named grouping of media items.
#[derive(Clone, Debug, PartialEq, Eq)]
pub struct Collection {
    pub id: i32,
    pub user_id: i32,
    pub name: String,
    pub description: Option<String>,
    pub visibility: Visibility,
}

impl Collection {
    /// A copy of the collection.
    pub fn duplicate(&self) -> (copy: Collection)
        ensures
            copy == *self,
    {
        Collection {
            id: self.id,
            user_id: self.user_id,
            name: self.name.clone(),
            description: match &self.description {
                Some(text) => Some(text.clone()),
                None => None,
            },
            visibility: self.visibility,
        }
    }
}

/// A collection as it is listed, with the number of items in it.
#[derive(Clone, Debug, PartialEq, Eq)]
pub struct CollectionItem {
    pub id: i32,
    pub name: String,
    pub num_items: u64,
    pub description: Option<String>,
    pub visibility: Visibility,
}

/// A choice among the caller's collections: the one of a name, or, without
/// a name, all.
#[derive(Clone, Debug, PartialEq, Eq)]
pub struct CollectionInput {
    pub name: Option<String>,
}

/// The membership of a media item in a collection.
#[derive(Clone, Copy, Debug, PartialEq, Eq, Structural)]
pub struct MetadataToCollection {
    pub metadata_id: i32,
    pub collection_id: i32,
}

/// A request to create a collection, or to change the one with the
/// identity `update_id`.
#[derive(Clone, Debug, PartialEq, Eq)]
pub struct CreateOrUpdateCollectionInput {
    pub name: String,
    pub description: Option<String>,
    pub visibility: Option<Visibility>,
    pub update_id: Option<i32>,
}

/// A request to put a media item into the caller's collection of a name.
#[derive(Clone, Debug, PartialEq, Eq)]
pub struct AddMediaToCollection {
    pub collection_name: String,
    pub media_id: i32,
}

/// The collections that every user is given when the account is made, and
/// that cannot be deleted.
#[derive(Clone, Copy, Debug, PartialEq, Eq, Structural)]
pub enum DefaultCollection {
    Watchlist,
    InProgress,
    Completed,
    Custom,
}

impl DefaultCollection {
    /// Every default collection, in the order in which they are made.
    pub open spec fn all() -> Seq<DefaultCollection> {
        seq![
            DefaultCollection::Watchlist,
            DefaultCollection::InProgress,
            DefaultCollection::Completed,
            DefaultCollection::Custom,
        ]
    }

    /// The name under which the collection is stored.
    pub open spec fn name_of(self) -> &'static str {
        match self {
            DefaultCollection::Watchlist => "Watchlist",
            DefaultCollection::InProgress => "In Progress",
            DefaultCollection::Completed => "Completed",
            DefaultCollection::Custom => "Custom",
        }
    }

    /// What the collection is for.
    pub open spec fn description_of(self) -> &'static str {
        match self {
            DefaultCollection::Watchlist => "Things I want to watch in the future.",
            DefaultCollection::InProgress => "Media items that I am currently watching.",
            DefaultCollection::Completed => "Media items that I have completed.",
            DefaultCollection::Custom => "Items that I have created manually.",
        }
    }

    /// Every default collection, in the order in which they are made.
    pub fn iter() -> (all: Vec<DefaultCollection>)
        ensures
            all@ == DefaultCollection::all(),
    {
        let mut all = Vec::new();
        all.push(DefaultCollection::Watchlist);
        all.push(DefaultCollection::InProgress);
        all.push(DefaultCollection::Completed);
        all.push(DefaultCollection::Custom);
        assert(all@ =~= DefaultCollection::all());
        all
    }

    /// The name under which the collection is stored.
    pub fn name(&self) -> (name: &'static str)
        ensures
            name@ == self.name_of()@,
    {
        match self {
            DefaultCollection::Watchlist => "Watchlist",
            DefaultCollection::InProgress => "In Progress",
            DefaultCollection::Completed => "Completed",
            DefaultCollection::Custom => "Custom",
        }
    }

    /// What the collection is for.
    pub fn meta(&self) -> (description: &'static str)
        ensures
            description@ == self.description_of()@,
    {
        match self {
            DefaultCollection::Watchlist => "Things I want to watch in the future.",
            DefaultCollection::InProgress => "Media items that I am currently watching.",
            DefaultCollection::Completed => "Media items that I have completed.",
            DefaultCollection::Custom => "Items that I have created manually.",
        }
    }

    /// The name as an owned string.
    pub fn to_string(&self) -> (name: String)
        ensures
            name@ == self.name_of()@,
    {
        String::from_str(self.name())
    }
}

/// Whether `name` is the name of a default collection.
pub open spec fn is_default_name(name: Seq<char>) -> bool {
    ||| name == DefaultCollection::Watchlist.name_of()@
    ||| name == DefaultCollection::InProgress.name_of()@
    ||| name == DefaultCollection::Completed.name_of()@
    ||| name == DefaultCollection::Custom.name_of()@
}

/// Whether `name` is the name of a default collection.
pub fn is_default_collection_name(name: &String) -> (protected: bool)
    ensures
        protected == is_default_name(name@),
{
    let all = DefaultCollection::iter();
    let mut k: usize = 0;
    let mut protected = false;
    while k < all.len()
        invariant
            all@ == DefaultCollection::all(),
            k <= all@.len(),
            protected == exists|j: int| 0 <= j < k && (#[trigger] all@[j]).name_of()@ == name@,
        decreases all@.len() - k,
    {
        if all[k].to_string() == *name {
            protected = true;
        }
        k += 1;
    }
    proof {
        if is_default_name(name@) {
            assert(all@[0] == DefaultCollection::Watchlist);
            assert(all@[1] == DefaultCollection::InProgress);
            assert(all@[2] == DefaultCollection::Completed);
            assert(all@[3] == DefaultCollection::Custom);
        }
    }
    protected
}

/// Whether a collection belongs to `user_id` and has the name `name`.
pub open spec fn owned_and_named(user_id: i32, name: Seq<char>) -> spec_fn(Collection) -> bool {
    |row: Collection| row.user_id == user_id && row.name@ == name
}

/// Whether a collection has the identity `id`.
pub open spec fn has_collection_id(id: i32) -> spec_fn(Collection) -> bool {
    |row: Collection| row.id == id
}

/// Whether a membership is that of `metadata_id` in `collection_id`.
pub open spec fn is_membership(collection_id: i32, metadata_id: i32) -> spec_fn(
    MetadataToCollection,
) -> bool {
    |row: MetadataToCollection| row.collection_id == collection_id && row.metadata_id == metadata_id
}

/// Whether a membership is another than that of `metadata_id` in
/// `collection_id`.
pub open spec fn is_other_membership(collection_id: i32, metadata_id: i32) -> spec_fn(
    MetadataToCollection,
) -> bool {
    |row: MetadataToCollection|
        !(row.collection_id == collection_id && row.metadata_id == metadata_id)
}

/// Whether a membership is in another collection than `collection_id`.
pub open spec fn is_outside(collection_id: i32) -> spec_fn(MetadataToCollection) -> bool {
    |row: MetadataToCollection| row.collection_id != collection_id
}

/// Whether a membership is in the collection `collection_id`.
pub open spec fn is_inside(collection_id: i32) -> spec_fn(MetadataToCollection) -> bool {
    |row: MetadataToCollection| row.collection_id == collection_id
}

/// Whether a collection belongs to `user_id` and, where a name is given,
/// has that name.
pub open spec fn is_chosen(user_id: i32, name: Option<String>) -> spec_fn(Collection) -> bool {
    |row: Collection|
        row.user_id == user_id && match name {
            Some(name) => row.name@ == name@,
            None => true,
        }
}

/// Whether `viewer`, who may not be logged in, may see what is in a
/// collection: a public collection is for everybody, any other for its
/// owner.
pub open spec fn view_check(collection: Collection, viewer: Option<i32>) -> Result<
    (),
    ServiceError,
> {
    if collection.visibility == Visibility::Public || viewer == Some(collection.user_id) {
        Ok(())
    } else {
        Err(ServiceError::Unauthorized)
    }
}

/// Checks that `viewer` may see what is in a collection.
pub fn check_may_view(collection: &Collection, viewer: Option<i32>) -> (checked: Result<
    (),
    ServiceError,
>)
    ensures
        checked == view_check(*collection, viewer),
{
    match collection.visibility {
        Visibility::Public => Ok(()),
        Visibility::Private => match viewer {
            Some(user_id) => crate::error::check_owner(collection.user_id, user_id),
            None => Err(ServiceError::Unauthorized),
        },
    }
}

} // verus!
