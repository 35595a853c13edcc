//! The page of a media item at the provider that its details come from.

use vstd::prelude::*;
use vstd::string::StringExecFns;
use crate::media::{MetadataLot, MetadataSource};

verus! {

/// The slug that `slug::slugify` makes of a text: the text in lower-case
/// ASCII letters and digits, with single hyphens where anything else stood.
pub uninterp spec fn slugified(text: Seq<char>) -> Seq<char>;

/// `slug::slugify`. The result is a function of the text alone; the
/// contract gives it a name and says no more of it.
#[verifier::external_body]
pub(crate) fn slugify(text: &str) -> (slug: String)
    ensures
        slug@ == slugified(text@),
{
    slug::slugify(text)
}

/// Whether items of the kind `lot` can come from `source`, as far as the
/// address of their page depends on it.
pub open spec fn has_page_kind(source: MetadataSource, lot: MetadataLot) -> bool {
    match source {
        MetadataSource::Tmdb => lot == MetadataLot::Movie || lot == MetadataLot::Show,
        MetadataSource::Anilist => lot == MetadataLot::Anime || lot == MetadataLot::Manga,
        _ => true,
    }
}

/// The address of the page of an item at its provider, from the slug of
/// its title and the provider's identifier of it. Items that a user wrote
/// have no page.
pub open spec fn source_url_of(
    source: MetadataSource,
    lot: MetadataLot,
    slug: Seq<char>,
    identifier: Seq<char>,
) -> Option<Seq<char>> {
    match source {
        MetadataSource::Custom => None,
        MetadataSource::Itunes => Some(
            "https://podcasts.apple.com/us/podcast/"@ + slug + "/id"@ + identifier,
        ),
        MetadataSource::GoogleBooks => Some(
            "https://www.google.co.in/books/edition/"@ + slug + "/"@ + identifier,
        ),
        MetadataSource::Audible => Some("https://www.audible.com/pd/"@ + slug + "/"@ + identifier),
        MetadataSource::Openlibrary => Some(
            "https://openlibrary.org/works/"@ + identifier + "/"@ + slug,
        ),
        MetadataSource::Tmdb => Some(
            "https://www.themoviedb.org/"@ + (if lot == MetadataLot::Movie {
                "movie"@
            } else {
                "tv"@
            }) + "/"@ + identifier + "-"@ + slug,
        ),
        MetadataSource::Listennotes => Some(
            "https://www.listennotes.com/podcasts/"@ + slug + "-"@ + identifier,
        ),
        MetadataSource::Igdb => Some("https://www.igdb.com/games/"@ + slug),
        MetadataSource::Anilist => Some(
            "https://anilist.co/"@ + (if lot == MetadataLot::Anime {
                "anime"@
            } else {
                "manga"@
            }) + "/"@ + identifier + "/"@ + slug,
        ),
    }
}

/// Whether items of the kind `lot` can come from `source`, as far as the
/// address of their page depends on it.
pub fn page_kind_fits(source: MetadataSource, lot: MetadataLot) -> (fits: bool)
    ensures
        fits == has_page_kind(source, lot),
{
    match source {
        MetadataSource::Tmdb => matches!(lot, MetadataLot::Movie | MetadataLot::Show),
        MetadataSource::Anilist => matches!(lot, MetadataLot::Anime | MetadataLot::Manga),
        _ => true,
    }
}

/// The text `head`, followed by `first`, `between` and `second`.
fn joined(head: &str, first: &str, between: &str, second: &str) -> (text: String)
    ensures
        text@ == head@ + first@ + between@ + second@,
{
    let mut text = String::from_str(head);
    text.append(first);
    text.append(between);
    text.append(second);
    text
}

/// The address of the page of an item at its provider, from the slug of
/// its title.
pub fn source_url_with_slug(
    source: MetadataSource,
    lot: MetadataLot,
    slug: &str,
    identifier: &str,
) -> (url: Option<String>)
    requires
        has_page_kind(source, lot),
    ensures
        match source_url_of(source, lot, slug@, identifier@) {
            Some(address) => url matches Some(text) && text@ == address,
            None => url is None,
        },
{
    match source {
        MetadataSource::Custom => None,
        MetadataSource::Itunes => Some(
            joined("https://podcasts.apple.com/us/podcast/", slug, "/id", identifier),
        ),
        MetadataSource::GoogleBooks => Some(
            joined("https://www.google.co.in/books/edition/", slug, "/", identifier),
        ),
        MetadataSource::Audible => Some(
            joined("https://www.audible.com/pd/", slug, "/", identifier),
        ),
        MetadataSource::Openlibrary => Some(
            joined("https://openlibrary.org/works/", identifier, "/", slug),
        ),
        MetadataSource::Tmdb => {
            let kind = match lot {
                MetadataLot::Movie => "movie",
                _ => "tv",
            };
            let mut text = joined("https://www.themoviedb.org/", kind, "/", identifier);
            text.append("-");
            text.append(slug);
            Some(text)
        },
        MetadataSource::Listennotes => Some(
            joined("https://www.listennotes.com/podcasts/", slug, "-", identifier),
        ),
        MetadataSource::Igdb => {
            let mut text = String::from_str("https://www.igdb.com/games/");
            text.append(slug);
            Some(text)
        },
        MetadataSource::Anilist => {
            let kind = match lot {
                MetadataLot::Anime => "anime",
                _ => "manga",
            };
            let mut text = joined("https://anilist.co/", kind, "/", identifier);
            text.append("/");
            text.append(slug);
            Some(text)
        },
    }
}

/// The address of the page of an item at its provider, from its title.
pub fn source_url(source: MetadataSource, lot: MetadataLot, title: &str, identifier: &str) -> (url:
    Option<String>)
    requires
        has_page_kind(source, lot),
    ensures
        match source_url_of(source, lot, slugified(title@), identifier@) {
            Some(address) => url matches Some(text) && text@ == address,
            None => url is None,
        },
{
    let slug = slugify(title);
    source_url_with_slug(source, lot, slug.as_str(), identifier)
}

} // verus!
