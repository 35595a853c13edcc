//! The jobs that the service leaves for its workers.

use vstd::prelude::*;
use crate::media::MetadataLot;
use crate::seen::SeenRecord;

verus! {

/// A record was made or changed by a progress report.
#[derive(Clone, Debug, PartialEq, Eq)]
pub struct AfterMediaSeenJob {
    pub seen: SeenRecord,
    pub metadata_lot: MetadataLot,
}

/// The summary of a user is to be made anew.
#[derive(Clone, Copy, Debug, PartialEq, Eq, Structural)]
pub struct RecalculateUserSummaryJob {
    pub user_id: i32,
}

/// The details of a media item are to be fetched anew.
#[derive(Clone, Copy, Debug, PartialEq, Eq, Structural)]
pub struct UpdateMetadataJob {
    pub metadata_id: i32,
}

/// A user account was made.
#[derive(Clone, Copy, Debug, PartialEq, Eq, Structural)]
pub struct UserCreatedJob {
    pub user_id: i32,
}

} // verus!
