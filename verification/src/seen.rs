//! Seen records: the persisted facts that a user reported progress on a
//! media item.

use vstd::prelude::*;
use crate::clock::{Date, Timestamp};

verus! {

/// Where in a show a record stands.
#[derive(Clone, Copy, Debug, PartialEq, Eq, Structural)]
pub struct SeenShowExtraInformation {
    pub season: i32,
    pub episode: i32,
}

/// Where in a podcast a record stands.
#[derive(Clone, Copy, Debug, PartialEq, Eq, Structural)]
pub struct SeenPodcastExtraInformation {
    pub episode: i32,
}

/// The episode that a record of episodic media is about.
#[derive(Clone, Copy, Debug, PartialEq, Eq, Structural)]
pub enum SeenExtraInformation {
    Show(SeenShowExtraInformation),
    Podcast(SeenPodcastExtraInformation),
}

/// One row of a user's consumption history.
#[derive(Clone, Debug, PartialEq, Eq)]
pub struct SeenRecord {
    pub id: i32,
    pub user_id: i32,
    pub metadata_id: i32,
    /// Percentage consumed, `0..=100`.
    pub progress: i32,
    pub started_on: Option<Date>,
    pub finished_on: Option<Date>,
    pub dropped: bool,
    pub last_updated_on: Timestamp,
    /// The key under which the client submitted the report, if it gave one.
    pub identifier: Option<String>,
    pub extra_information: Option<SeenExtraInformation>,
    /// `extra_information`, where it is about a show; filled for display.
    pub show_information: Option<SeenShowExtraInformation>,
    /// `extra_information`, where it is about a podcast; filled for display.
    pub podcast_information: Option<SeenPodcastExtraInformation>,
}

impl SeenRecord {
    /// The record with its two display fields filled from
    /// `extra_information`. A field that `extra_information` does not speak
    /// of keeps what it held.
    pub open spec fn with_display_information(self) -> SeenRecord {
        match self.extra_information {
            Some(SeenExtraInformation::Show(show)) => SeenRecord {
                show_information: Some(show),
                ..self
            },
            Some(SeenExtraInformation::Podcast(podcast)) => SeenRecord {
                podcast_information: Some(podcast),
                ..self
            },
            None => self,
        }
    }

    /// Whether the progress lies in `0..=100` and the record bears the day
    /// on which it was finished exactly where it is finished.
    pub open spec fn is_sound(self) -> bool {
        &&& 0 <= self.progress <= 100
        &&& self.finished_on is Some <==> self.progress == 100
    }

    /// Whether the record is not finished, so that its item counts as in
    /// progress.
    pub open spec fn is_unfinished(self) -> bool {
        self.progress < 100
    }

    /// Whether the record is not finished.
    pub fn unfinished(&self) -> (open: bool)
        ensures
            open == self.is_unfinished(),
    {
        self.progress < 100
    }

    /// A copy of the record.
    pub fn duplicate(&self) -> (copy: SeenRecord)
        ensures
            copy == *self,
    {
        SeenRecord {
            id: self.id,
            user_id: self.user_id,
            metadata_id: self.metadata_id,
            progress: self.progress,
            started_on: self.started_on,
            finished_on: self.finished_on,
            dropped: self.dropped,
            last_updated_on: self.last_updated_on,
            identifier: match &self.identifier {
                Some(key) => Some(key.clone()),
                None => None,
            },
            extra_information: self.extra_information,
            show_information: self.show_information,
            podcast_information: self.podcast_information,
        }
    }
}

/// Fills the display fields of every record from its `extra_information`.
pub fn modify_seen_elements(all_seen: &mut Vec<SeenRecord>)
    ensures
        final(all_seen)@.len() == old(all_seen)@.len(),
        forall|i: int|
            0 <= i < old(all_seen)@.len() ==> #[trigger] final(all_seen)@[i] == old(
                all_seen,
            )@[i].with_display_information(),
{
    let mut i: usize = 0;
    while i < all_seen.len()
        invariant
            i <= all_seen@.len(),
            all_seen@.len() == old(all_seen)@.len(),
            forall|j: int|
                0 <= j < i ==> #[trigger] all_seen@[j] == old(
                    all_seen,
                )@[j].with_display_information(),
            forall|j: int| i <= j < all_seen@.len() ==> #[trigger] all_seen@[j] == old(all_seen)@[j],
        decreases all_seen@.len() - i,
    {
        match all_seen[i].extra_information {
            Some(SeenExtraInformation::Show(show)) => {
                all_seen[i].show_information = Some(show);
            },
            Some(SeenExtraInformation::Podcast(podcast)) => {
                all_seen[i].podcast_information = Some(podcast);
            },
            None => {},
        }
        i += 1;
    }
}

} // verus!
