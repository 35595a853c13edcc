//! The ways in which an operation of the service can fail.

use vstd::prelude::*;

verus! {

/// Why an operation was refused. No operation changes any state when it
/// fails.
#[derive(Clone, Copy, Debug, PartialEq, Eq, Structural)]
pub enum ServiceError {
    /// A metadata item, record, review or collection that the operation
    /// refers to does not exist.
    NotFound,
    /// The input is malformed: a progress outside `0..=100`, or a missing
    /// episode locator where the kind of media demands one.
    ValidationError,
    /// The operation makes no sense in the current state, such as dropping
    /// media that is not under way.
    StateConflict,
    /// The target belongs to another user, or the caller is not logged in.
    Unauthorized,
    /// A table or a queue cannot take another row.
    StorageError,
    /// A default collection was to be deleted.
    DefaultCollection,
}

impl ServiceError {
    /// A sentence for the user.
    pub fn message(&self) -> (text: &'static str)
        ensures
            text@ == Self::message_of(*self)@,
    {
        match self {
            ServiceError::NotFound => "The record does not exist",
            ServiceError::ValidationError => "The input is not valid",
            ServiceError::StateConflict => "There is no `seen` item underway",
            ServiceError::Unauthorized => "This item does not belong to this user",
            ServiceError::StorageError => "The storage could not complete the operation",
            ServiceError::DefaultCollection => "Can not delete a default collection",
        }
    }

    pub open spec fn message_of(e: ServiceError) -> &'static str {
        match e {
            ServiceError::NotFound => "The record does not exist",
            ServiceError::ValidationError => "The input is not valid",
            ServiceError::StateConflict => "There is no `seen` item underway",
            ServiceError::Unauthorized => "This item does not belong to this user",
            ServiceError::StorageError => "The storage could not complete the operation",
            ServiceError::DefaultCollection => "Can not delete a default collection",
        }
    }
}

/// Whether `caller` may touch what `owner` owns: only the owner may.
pub open spec fn owner_check(owner: i32, caller: i32) -> Result<(), ServiceError> {
    if owner == caller {
        Ok(())
    } else {
        Err(ServiceError::Unauthorized)
    }
}

/// Checks that `caller` is the owner.
pub fn check_owner(owner: i32, caller: i32) -> (checked: Result<(), ServiceError>)
    ensures
        checked == owner_check(owner, caller),
{
    if owner == caller {
        Ok(())
    } else {
        Err(ServiceError::Unauthorized)
    }
}

} // verus!
