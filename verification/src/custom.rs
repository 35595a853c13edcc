//! Media items that a user writes up by hand.

use vstd::prelude::*;
use crate::media::{
    AnimeSpecifics, AudioBookSpecifics, BookSpecifics, IdObject, MangaSpecifics, MediaSpecifics,
    MetadataLot, MovieSpecifics, PodcastSpecifics, ShowSpecifics, VideoGameSpecifics,
};

verus! {

/// A request to store a media item of the caller's own making. Of the
/// kind-specific details those of the kind `lot` are read.
#[derive(Clone, Debug, PartialEq, Eq)]
pub struct CreateCustomMediaInput {
    pub title: String,
    pub lot: MetadataLot,
    pub audio_book_specifics: Option<AudioBookSpecifics>,
    pub book_specifics: Option<BookSpecifics>,
    pub movie_specifics: Option<MovieSpecifics>,
    pub podcast_specifics: Option<PodcastSpecifics>,
    pub show_specifics: Option<ShowSpecifics>,
    pub video_game_specifics: Option<VideoGameSpecifics>,
    pub manga_specifics: Option<MangaSpecifics>,
    pub anime_specifics: Option<AnimeSpecifics>,
}

/// Why a request to store an item of the caller's own was turned down.
#[derive(Clone, Copy, Debug, PartialEq, Eq, Structural)]
pub enum CreateCustomMediaErrorVariant {
    LotDoesNotMatchSpecifics,
}

#[derive(Clone, Copy, Debug, PartialEq, Eq, Structural)]
pub struct CreateCustomMediaError {
    pub error: CreateCustomMediaErrorVariant,
}

/// The answer to a request to store an item of the caller's own.
#[derive(Clone, Copy, Debug, PartialEq, Eq, Structural)]
pub enum CreateCustomMediaResult {
    Stored(IdObject),
    Error(CreateCustomMediaError),
}

/// The details of the kind that the request names, where it gives them.
pub open spec fn custom_specifics_of(input: CreateCustomMediaInput) -> Option<MediaSpecifics> {
    match input.lot {
        MetadataLot::AudioBook => match input.audio_book_specifics {
            Some(specifics) => Some(MediaSpecifics::AudioBook(specifics)),
            None => None,
        },
        MetadataLot::Book => match input.book_specifics {
            Some(specifics) => Some(MediaSpecifics::Book(specifics)),
            None => None,
        },
        MetadataLot::Movie => match input.movie_specifics {
            Some(specifics) => Some(MediaSpecifics::Movie(specifics)),
            None => None,
        },
        MetadataLot::Podcast => match input.podcast_specifics {
            Some(specifics) => Some(MediaSpecifics::Podcast(specifics)),
            None => None,
        },
        MetadataLot::Show => match input.show_specifics {
            Some(specifics) => Some(MediaSpecifics::Show(specifics)),
            None => None,
        },
        MetadataLot::VideoGame => match input.video_game_specifics {
            Some(specifics) => Some(MediaSpecifics::VideoGame(specifics)),
            None => None,
        },
        MetadataLot::Anime => match input.anime_specifics {
            Some(specifics) => Some(MediaSpecifics::Anime(specifics)),
            None => None,
        },
        MetadataLot::Manga => match input.manga_specifics {
            Some(specifics) => Some(MediaSpecifics::Manga(specifics)),
            None => None,
        },
    }
}

/// Takes the title and the details of the kind that the request names out
/// of the request.
pub fn custom_specifics(input: CreateCustomMediaInput) -> (taken: (String, Option<MediaSpecifics>))
    ensures
        taken.0 == input.title,
        taken.1 == custom_specifics_of(input),
{
    let specifics = match input.lot {
        MetadataLot::AudioBook => match input.audio_book_specifics {
            Some(specifics) => Some(MediaSpecifics::AudioBook(specifics)),
            None => None,
        },
        MetadataLot::Book => match input.book_specifics {
            Some(specifics) => Some(MediaSpecifics::Book(specifics)),
            None => None,
        },
        MetadataLot::Movie => match input.movie_specifics {
            Some(specifics) => Some(MediaSpecifics::Movie(specifics)),
            None => None,
        },
        MetadataLot::Podcast => match input.podcast_specifics {
            Some(specifics) => Some(MediaSpecifics::Podcast(specifics)),
            None => None,
        },
        MetadataLot::Show => match input.show_specifics {
            Some(specifics) => Some(MediaSpecifics::Show(specifics)),
            None => None,
        },
        MetadataLot::VideoGame => match input.video_game_specifics {
            Some(specifics) => Some(MediaSpecifics::VideoGame(specifics)),
            None => None,
        },
        MetadataLot::Anime => match input.anime_specifics {
            Some(specifics) => Some(MediaSpecifics::Anime(specifics)),
            None => None,
        },
        MetadataLot::Manga => match input.manga_specifics {
            Some(specifics) => Some(MediaSpecifics::Manga(specifics)),
            None => None,
        },
    };
    (input.title, specifics)
}

/// A fresh identifier for an item: a random UUID of version 4, written as
/// `uuid::Uuid` writes it, from `Uuid::new_v4`. Nothing is claimed of the
/// result: it is drawn by chance.
#[verifier::external_body]
pub(crate) fn fresh_identifier() -> (identifier: String) {
    uuid::Uuid::new_v4().to_string()
}

} // verus!
