//! Which provider serves the details of an item.

use vstd::prelude::*;
use crate::error::ServiceError;
use crate::links::has_page_kind;
use crate::media::{MetadataLot, MetadataSource};

verus! {

/// The services that details are fetched from.
#[derive(Clone, Copy, Debug, PartialEq, Eq, Hash, Structural)]
pub enum Provider {
    Openlibrary,
    Itunes,
    GoogleBooks,
    Audible,
    Listennotes,
    TmdbShows,
    TmdbMovies,
    AnilistAnime,
    AnilistManga,
    Igdb,
}

/// The service that has the details of items of the kind `lot` from
/// `source`. Items that users wrote come from no service.
pub open spec fn provider_of(lot: MetadataLot, source: MetadataSource) -> Result<
    Provider,
    ServiceError,
> {
    match source {
        MetadataSource::Openlibrary => Ok(Provider::Openlibrary),
        MetadataSource::Itunes => Ok(Provider::Itunes),
        MetadataSource::GoogleBooks => Ok(Provider::GoogleBooks),
        MetadataSource::Audible => Ok(Provider::Audible),
        MetadataSource::Listennotes => Ok(Provider::Listennotes),
        MetadataSource::Tmdb => if lot == MetadataLot::Show {
            Ok(Provider::TmdbShows)
        } else {
            Ok(Provider::TmdbMovies)
        },
        MetadataSource::Anilist => if lot == MetadataLot::Anime {
            Ok(Provider::AnilistAnime)
        } else {
            Ok(Provider::AnilistManga)
        },
        MetadataSource::Igdb => Ok(Provider::Igdb),
        MetadataSource::Custom => Err(ServiceError::ValidationError),
    }
}

/// The service that has the details of items of the kind `lot` from
/// `source`.
pub fn get_provider(lot: MetadataLot, source: MetadataSource) -> (provider: Result<
    Provider,
    ServiceError,
>)
    requires
        has_page_kind(source, lot),
    ensures
        provider == provider_of(lot, source),
{
    match source {
        MetadataSource::Openlibrary => Ok(Provider::Openlibrary),
        MetadataSource::Itunes => Ok(Provider::Itunes),
        MetadataSource::GoogleBooks => Ok(Provider::GoogleBooks),
        MetadataSource::Audible => Ok(Provider::Audible),
        MetadataSource::Listennotes => Ok(Provider::Listennotes),
        MetadataSource::Tmdb => match lot {
            MetadataLot::Show => Ok(Provider::TmdbShows),
            _ => Ok(Provider::TmdbMovies),
        },
        MetadataSource::Anilist => match lot {
            MetadataLot::Anime => Ok(Provider::AnilistAnime),
            _ => Ok(Provider::AnilistManga),
        },
        MetadataSource::Igdb => Ok(Provider::Igdb),
        MetadataSource::Custom => Err(ServiceError::ValidationError),
    }
}

} // verus!
