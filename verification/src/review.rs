//! Reviews: what a user wrote about a media item, and who may read it.

use vstd::prelude::*;
use crate::clock::Timestamp;
use crate::collection::Visibility;
use crate::seen::{SeenExtraInformation, SeenShowExtraInformation};

verus! {

/// A decimal number of the crate `rust_decimal`. The library carries
/// ratings from the request to the stored review and reads nothing of
/// them.
#[verifier::external_type_specification]
#[verifier::external_body]
pub struct ExDecimal(rust_decimal::Decimal);

/// A stored review.
#[derive(Clone, Debug, PartialEq, Eq)]
pub struct Review {
    pub id: i32,
    pub user_id: i32,
    pub metadata_id: i32,
    pub posted_on: Timestamp,
    pub rating: Option<rust_decimal::Decimal>,
    pub text: Option<String>,
    pub visibility: Visibility,
    pub spoiler: bool,
    /// The episode that the review is about, for episodic media.
    pub extra_information: Option<SeenExtraInformation>,
    /// The key under which the client submitted the review, if it gave one.
    pub identifier: Option<String>,
}

/// A request to post a review, or to change the one with the identity
/// `review_id`.
#[derive(Clone, Debug, PartialEq, Eq)]
pub struct PostReviewInput {
    pub rating: Option<rust_decimal::Decimal>,
    pub text: Option<String>,
    pub visibility: Option<Visibility>,
    pub spoiler: Option<bool>,
    pub metadata_id: i32,
    pub date: Option<Timestamp>,
    pub review_id: Option<i32>,
    pub season_number: Option<i32>,
    pub episode_number: Option<i32>,
    /// A key of the client's choosing: a review whose key is already stored
    /// is not posted again.
    pub identifier: Option<String>,
}

/// Whether `reader` may read `review`: a private review is for its author
/// alone.
pub open spec fn is_readable_by(review: Review, reader: i32) -> bool {
    review.visibility == Visibility::Private ==> review.user_id == reader
}

/// Whether `reader` may read `review`.
pub fn can_read(review: &Review, reader: i32) -> (allowed: bool)
    ensures
        allowed == is_readable_by(*review, reader),
{
    match review.visibility {
        Visibility::Private => review.user_id == reader,
        Visibility::Public => true,
    }
}

/// The episode that a review is about: season and episode are taken
/// together or not at all.
pub open spec fn review_locator(season: Option<i32>, episode: Option<i32>) -> Option<
    SeenExtraInformation,
> {
    match (season, episode) {
        (Some(season), Some(episode)) => Some(
            SeenExtraInformation::Show(SeenShowExtraInformation { season, episode }),
        ),
        _ => None,
    }
}

/// The episode that a review is about.
pub fn locator_of(season: Option<i32>, episode: Option<i32>) -> (locator: Option<
    SeenExtraInformation,
>)
    ensures
        locator == review_locator(season, episode),
{
    match (season, episode) {
        (Some(season), Some(episode)) => Some(
            SeenExtraInformation::Show(SeenShowExtraInformation { season, episode }),
        ),
        _ => None,
    }
}

/// The HTML that `markdown::to_html` makes of a text written in markdown,
/// with the crate's default options: markup of the author's own is shown as
/// text, not passed through.
pub uninterp spec fn markdown_html(text: Seq<char>) -> Seq<char>;

/// `markdown::to_html`. The result is a function of the text alone; the
/// contract gives it a name and says no more of it.
#[verifier::external_body]
pub(crate) fn markdown_to_html(text: &str) -> (html: String)
    ensures
        html@ == markdown_html(text@),
{
    markdown::to_html(text)
}

/// A review as it is shown to a reader.
#[derive(Clone, Debug, PartialEq, Eq)]
pub struct ReviewItem {
    pub id: i32,
    pub posted_on: Timestamp,
    pub rating: Option<rust_decimal::Decimal>,
    /// The text as HTML.
    pub text: Option<String>,
    pub visibility: Visibility,
    pub spoiler: bool,
    pub season_number: Option<i32>,
    pub episode_number: Option<i32>,
    pub podcast_episode_id: Option<i32>,
    /// The author.
    pub posted_by: i32,
}

/// The season that a locator names.
pub open spec fn season_of(locator: Option<SeenExtraInformation>) -> Option<i32> {
    match locator {
        Some(SeenExtraInformation::Show(at)) => Some(at.season),
        _ => None,
    }
}

/// The episode of a show that a locator names.
pub open spec fn episode_of(locator: Option<SeenExtraInformation>) -> Option<i32> {
    match locator {
        Some(SeenExtraInformation::Show(at)) => Some(at.episode),
        _ => None,
    }
}

/// The episode of a podcast that a locator names.
pub open spec fn podcast_episode_of(locator: Option<SeenExtraInformation>) -> Option<i32> {
    match locator {
        Some(SeenExtraInformation::Podcast(at)) => Some(at.episode),
        _ => None,
    }
}

/// Whether `item` shows `review`: every field as stored, the locator
/// spread over its three fields, and the text as the HTML made of it.
pub open spec fn shows(item: ReviewItem, review: Review) -> bool {
    &&& item.id == review.id
    &&& item.posted_on == review.posted_on
    &&& item.rating == review.rating
    &&& match review.text {
        Some(text) => item.text matches Some(html) && html@ == markdown_html(text@),
        None => item.text is None,
    }
    &&& item.visibility == review.visibility
    &&& item.spoiler == review.spoiler
    &&& item.season_number == season_of(review.extra_information)
    &&& item.episode_number == episode_of(review.extra_information)
    &&& item.podcast_episode_id == podcast_episode_of(review.extra_information)
    &&& item.posted_by == review.user_id
}

/// A review as it is shown to a reader.
pub fn review_item(review: &Review) -> (item: ReviewItem)
    ensures
        shows(item, *review),
{
    let (season_number, episode_number, podcast_episode_id) = match review.extra_information {
        Some(SeenExtraInformation::Show(at)) => (Some(at.season), Some(at.episode), None),
        Some(SeenExtraInformation::Podcast(at)) => (None, None, Some(at.episode)),
        None => (None, None, None),
    };
    ReviewItem {
        id: review.id,
        posted_on: review.posted_on,
        rating: review.rating,
        text: match &review.text {
            Some(text) => Some(markdown_to_html(text.as_str())),
            None => None,
        },
        visibility: review.visibility,
        spoiler: review.spoiler,
        season_number,
        episode_number,
        podcast_episode_id,
        posted_by: review.user_id,
    }
}

} // verus!
