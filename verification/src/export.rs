//! A user's media as they are handed out for safekeeping.

use vstd::prelude::*;
use crate::media::{Metadata, MetadataLot, MetadataSource};
use crate::review::Review;
use crate::seen::SeenRecord;

verus! {

/// One media item of a user with what the user recorded and wrote about
/// it. The provider's identifier of the item stands in the field of its
/// provider.
#[derive(Clone, Debug, PartialEq, Eq)]
pub struct ExportMedia {
    pub ryot_id: i32,
    pub title: String,
    pub lot: MetadataLot,
    pub audible_id: Option<String>,
    pub custom_id: Option<String>,
    pub igdb_id: Option<String>,
    pub listennotes_id: Option<String>,
    pub google_books_id: Option<String>,
    pub openlibrary_id: Option<String>,
    pub tmdb_id: Option<String>,
    pub itunes_id: Option<String>,
    pub anilist_id: Option<String>,
    pub seen_history: Vec<SeenRecord>,
    pub user_reviews: Vec<Review>,
}

impl ExportMedia {
    /// The identifier that stands in the field of `source`.
    pub open spec fn id_of(self, source: MetadataSource) -> Option<String> {
        match source {
            MetadataSource::Anilist => self.anilist_id,
            MetadataSource::Audible => self.audible_id,
            MetadataSource::Custom => self.custom_id,
            MetadataSource::GoogleBooks => self.google_books_id,
            MetadataSource::Igdb => self.igdb_id,
            MetadataSource::Itunes => self.itunes_id,
            MetadataSource::Listennotes => self.listennotes_id,
            MetadataSource::Openlibrary => self.openlibrary_id,
            MetadataSource::Tmdb => self.tmdb_id,
        }
    }
}

/// An item for export, with the history and the reviews given.
pub fn export_media(item: Metadata, seen_history: Vec<SeenRecord>, user_reviews: Vec<Review>) -> (exported:
    ExportMedia)
    ensures
        exported.ryot_id == item.id,
        exported.title == item.title,
        exported.lot == item.lot,
        exported.seen_history == seen_history,
        exported.user_reviews == user_reviews,
        forall|source: MetadataSource|
            #![trigger exported.id_of(source)]
            exported.id_of(source) == if source == item.source {
                Some(item.identifier)
            } else {
                None
            },
{
    let mut exported = ExportMedia {
        ryot_id: item.id,
        title: item.title,
        lot: item.lot,
        audible_id: None,
        custom_id: None,
        igdb_id: None,
        listennotes_id: None,
        google_books_id: None,
        openlibrary_id: None,
        tmdb_id: None,
        itunes_id: None,
        anilist_id: None,
        seen_history,
        user_reviews,
    };
    match item.source {
        MetadataSource::Audible => {
            exported.audible_id = Some(item.identifier);
        },
        MetadataSource::Custom => {
            exported.custom_id = Some(item.identifier);
        },
        MetadataSource::GoogleBooks => {
            exported.google_books_id = Some(item.identifier);
        },
        MetadataSource::Igdb => {
            exported.igdb_id = Some(item.identifier);
        },
        MetadataSource::Listennotes => {
            exported.listennotes_id = Some(item.identifier);
        },
        MetadataSource::Openlibrary => {
            exported.openlibrary_id = Some(item.identifier);
        },
        MetadataSource::Tmdb => {
            exported.tmdb_id = Some(item.identifier);
        },
        MetadataSource::Anilist => {
            exported.anilist_id = Some(item.identifier);
        },
        MetadataSource::Itunes => {
            exported.itunes_id = Some(item.identifier);
        },
    }
    exported
}

} // verus!
