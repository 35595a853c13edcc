//! Media items: their kind, where their details come from, and the
//! kind-specific details that the statistics read.

use vstd::prelude::*;

verus! {

/// The kind of a media item.
#[derive(Clone, Copy, Debug, PartialEq, Eq, Hash, Structural)]
pub enum MetadataLot {
    AudioBook,
    Anime,
    Book,
    Podcast,
    Manga,
    Movie,
    Show,
    VideoGame,
}

/// The provider that an item's details come from.
#[derive(Clone, Copy, Debug, PartialEq, Eq, Hash, Structural)]
pub enum MetadataSource {
    Anilist,
    Audible,
    Custom,
    GoogleBooks,
    Igdb,
    Itunes,
    Listennotes,
    Openlibrary,
    Tmdb,
}

#[derive(Clone, Copy, Debug, PartialEq, Eq, Structural)]
pub struct AudioBookSpecifics {
    /// Length in minutes.
    pub runtime: Option<i32>,
}

#[derive(Clone, Copy, Debug, PartialEq, Eq, Structural)]
pub struct BookSpecifics {
    pub pages: Option<i32>,
}

#[derive(Clone, Copy, Debug, PartialEq, Eq, Structural)]
pub struct MovieSpecifics {
    /// Length in minutes.
    pub runtime: Option<i32>,
}

#[derive(Clone, Debug, PartialEq, Eq)]
pub struct VideoGameSpecifics {
    pub platforms: Vec<String>,
}

#[derive(Clone, Copy, Debug, PartialEq, Eq, Structural)]
pub struct AnimeSpecifics {
    pub episodes: Option<i32>,
}

#[derive(Clone, Copy, Debug, PartialEq, Eq, Structural)]
pub struct MangaSpecifics {
    pub chapters: Option<i32>,
    pub volumes: Option<i32>,
}

#[derive(Clone, Copy, Debug, PartialEq, Eq, Structural)]
pub struct ShowEpisode {
    pub id: i32,
    pub episode_number: i32,
    /// Length in minutes.
    pub runtime: Option<i32>,
}

#[derive(Clone, Debug, PartialEq, Eq)]
pub struct ShowSeason {
    pub id: i32,
    pub season_number: i32,
    pub episodes: Vec<ShowEpisode>,
}

#[derive(Clone, Debug, PartialEq, Eq)]
pub struct ShowSpecifics {
    pub seasons: Vec<ShowSeason>,
}

#[derive(Clone, Debug, PartialEq, Eq)]
pub struct PodcastEpisode {
    /// The provider's identifier of the episode.
    pub id: String,
    pub number: i32,
    /// Length in minutes.
    pub runtime: Option<i32>,
}

#[derive(Clone, Debug, PartialEq, Eq)]
pub struct PodcastSpecifics {
    pub episodes: Vec<PodcastEpisode>,
}

/// The details of an item that depend on its kind.
#[derive(Clone, Debug, PartialEq, Eq)]
pub enum MediaSpecifics {
    AudioBook(AudioBookSpecifics),
    Book(BookSpecifics),
    Movie(MovieSpecifics),
    Podcast(PodcastSpecifics),
    Show(ShowSpecifics),
    VideoGame(VideoGameSpecifics),
    Anime(AnimeSpecifics),
    Manga(MangaSpecifics),
    Unknown,
}

/// A media item as the service knows it. Items are shared between users.
#[derive(Clone, Debug, PartialEq, Eq)]
pub struct Metadata {
    pub id: i32,
    pub lot: MetadataLot,
    pub source: MetadataSource,
    /// The provider's identifier of the item.
    pub identifier: String,
    pub title: String,
    pub specifics: MediaSpecifics,
}

/// The details of a media item as a provider gives them, or as a user
/// wrote them.
#[derive(Clone, Debug, PartialEq, Eq)]
pub struct MediaDetails {
    pub identifier: String,
    pub title: String,
    pub lot: MetadataLot,
    pub source: MetadataSource,
    pub specifics: MediaSpecifics,
}

/// The answer of an operation that made or touched one row.
#[derive(Clone, Copy, Debug, PartialEq, Eq, Structural)]
pub struct IdObject {
    pub id: i32,
}

/// The providers that offer items of a kind, in the order in which they are
/// shown.
pub open spec fn sources_for_lot(lot: MetadataLot) -> Seq<MetadataSource> {
    match lot {
        MetadataLot::AudioBook => seq![MetadataSource::Audible],
        MetadataLot::Book => seq![MetadataSource::Openlibrary, MetadataSource::GoogleBooks],
        MetadataLot::Podcast => seq![MetadataSource::Itunes, MetadataSource::Listennotes],
        MetadataLot::VideoGame => seq![MetadataSource::Igdb],
        MetadataLot::Anime | MetadataLot::Manga => seq![MetadataSource::Anilist],
        MetadataLot::Movie | MetadataLot::Show => seq![MetadataSource::Tmdb],
    }
}

/// The providers that offer items of a kind, in the order in which they are
/// shown.
pub fn media_sources_for_lot(lot: MetadataLot) -> (sources: Vec<MetadataSource>)
    ensures
        sources@ == sources_for_lot(lot),
{
    let mut sources = Vec::new();
    match lot {
        MetadataLot::AudioBook => {
            sources.push(MetadataSource::Audible);
        },
        MetadataLot::Book => {
            sources.push(MetadataSource::Openlibrary);
            sources.push(MetadataSource::GoogleBooks);
        },
        MetadataLot::Podcast => {
            sources.push(MetadataSource::Itunes);
            sources.push(MetadataSource::Listennotes);
        },
        MetadataLot::VideoGame => {
            sources.push(MetadataSource::Igdb);
        },
        MetadataLot::Anime | MetadataLot::Manga => {
            sources.push(MetadataSource::Anilist);
        },
        MetadataLot::Movie | MetadataLot::Show => {
            sources.push(MetadataSource::Tmdb);
        },
    }
    assert(sources@ =~= sources_for_lot(lot));
    sources
}

} // verus!
