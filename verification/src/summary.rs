//! The summary of a user's finished media: one pass over the finished
//! records, each joined to the details of its item.

use std::collections::HashSet;
use vstd::prelude::*;
use vstd::std_specs::hash::group_hash_axioms;
use crate::clock::Timestamp;
use crate::distinct::{DistinctNames, DistinctPairs};
use crate::media::{MediaSpecifics, PodcastSpecifics, ShowEpisode, ShowSpecifics};
use crate::seen::{
    SeenExtraInformation, SeenPodcastExtraInformation, SeenRecord, SeenShowExtraInformation,
};

verus! {

broadcast use group_hash_axioms;

#[derive(Clone, Copy, Debug, PartialEq, Eq, Structural)]
pub struct AudioBooksSummary {
    pub runtime: i32,
    pub played: i32,
}

#[derive(Clone, Copy, Debug, PartialEq, Eq, Structural)]
pub struct VideoGamesSummary {
    pub played: i32,
}

#[derive(Clone, Copy, Debug, PartialEq, Eq, Structural)]
pub struct BooksSummary {
    pub pages: i32,
    pub read: i32,
}

#[derive(Clone, Copy, Debug, PartialEq, Eq, Structural)]
pub struct MoviesSummary {
    pub runtime: i32,
    pub watched: i32,
}

#[derive(Clone, Copy, Debug, PartialEq, Eq, Structural)]
pub struct PodcastsSummary {
    pub runtime: i32,
    /// Distinct podcasts.
    pub played: i32,
    /// Distinct episodes.
    pub played_episodes: i32,
}

#[derive(Clone, Copy, Debug, PartialEq, Eq, Structural)]
pub struct ShowsSummary {
    pub runtime: i32,
    /// Distinct shows.
    pub watched: i32,
    /// Records of episodes, repeats included.
    pub watched_episodes: i32,
    /// Distinct pairs of season and episode.
    pub watched_seasons: i32,
}

#[derive(Clone, Copy, Debug, PartialEq, Eq, Structural)]
pub struct MangaSummary {
    pub chapters: i32,
    pub read: i32,
}

#[derive(Clone, Copy, Debug, PartialEq, Eq, Structural)]
pub struct AnimeSummary {
    pub episodes: i32,
    pub watched: i32,
}

/// What a user has finished, by kind of media.
#[derive(Clone, Copy, Debug, PartialEq, Eq, Structural)]
pub struct UserMediaSummary {
    pub books: BooksSummary,
    pub movies: MoviesSummary,
    pub podcasts: PodcastsSummary,
    pub shows: ShowsSummary,
    pub video_games: VideoGamesSummary,
    pub audio_books: AudioBooksSummary,
    pub anime: AnimeSummary,
    pub manga: MangaSummary,
}

/// A user's summary and the instant at which it was made.
#[derive(Clone, Copy, Debug, PartialEq, Eq, Structural)]
pub struct UserSummary {
    pub media: UserMediaSummary,
    pub calculated_on: Timestamp,
}

/// A stored summary.
#[derive(Clone, Copy, Debug, PartialEq, Eq, Structural)]
pub struct Summary {
    pub id: i32,
    pub user_id: i32,
    pub created_on: Timestamp,
    pub data: UserMediaSummary,
}

impl UserMediaSummary {
    pub open spec fn zero() -> UserMediaSummary {
        UserMediaSummary {
            books: BooksSummary { pages: 0, read: 0 },
            movies: MoviesSummary { runtime: 0, watched: 0 },
            podcasts: PodcastsSummary { runtime: 0, played: 0, played_episodes: 0 },
            shows: ShowsSummary { runtime: 0, watched: 0, watched_episodes: 0, watched_seasons: 0 },
            video_games: VideoGamesSummary { played: 0 },
            audio_books: AudioBooksSummary { runtime: 0, played: 0 },
            anime: AnimeSummary { episodes: 0, watched: 0 },
            manga: MangaSummary { chapters: 0, read: 0 },
        }
    }

    /// The summary of a user who has finished nothing.
    pub fn new() -> (summary: UserMediaSummary)
        ensures
            summary == UserMediaSummary::zero(),
    {
        UserMediaSummary {
            books: BooksSummary { pages: 0, read: 0 },
            movies: MoviesSummary { runtime: 0, watched: 0 },
            podcasts: PodcastsSummary { runtime: 0, played: 0, played_episodes: 0 },
            shows: ShowsSummary { runtime: 0, watched: 0, watched_episodes: 0, watched_seasons: 0 },
            video_games: VideoGamesSummary { played: 0 },
            audio_books: AudioBooksSummary { runtime: 0, played: 0 },
            anime: AnimeSummary { episodes: 0, watched: 0 },
            manga: MangaSummary { chapters: 0, read: 0 },
        }
    }
}

/// What an optional amount adds to a total: nothing where it is absent.
pub open spec fn amount(value: Option<i32>) -> int {
    match value {
        Some(v) => v as int,
        None => 0,
    }
}

/// Whether episode `e` of season `s` of `show` is the one that `at` names.
pub open spec fn is_show_match(
    show: ShowSpecifics,
    at: SeenShowExtraInformation,
    s: int,
    e: int,
) -> bool {
    &&& 0 <= s < show.seasons@.len()
    &&& 0 <= e < show.seasons@[s].episodes@.len()
    &&& show.seasons@[s].season_number == at.season
    &&& show.seasons@[s].episodes@[e].episode_number == at.episode
}

/// Whether episode `e` of season `s` is the first that `at` names, in the
/// order in which `show` declares its seasons and their episodes.
pub open spec fn is_first_show_match(
    show: ShowSpecifics,
    at: SeenShowExtraInformation,
    s: int,
    e: int,
) -> bool {
    &&& is_show_match(show, at, s, e)
    &&& forall|s2: int, e2: int| #[trigger]
        is_show_match(show, at, s2, e2) ==> s < s2 || (s == s2 && e <= e2)
}

/// The declared episode of `show` that a record's locator names, if it
/// names one: the first, should `show` declare it more than once.
pub open spec fn matched_show_episode(
    show: ShowSpecifics,
    locator: Option<SeenExtraInformation>,
) -> Option<ShowEpisode> {
    match locator {
        Some(SeenExtraInformation::Show(at)) => {
            if exists|s: int, e: int| is_first_show_match(show, at, s, e) {
                let (s, e) = choose|s: int, e: int| is_first_show_match(show, at, s, e);
                Some(show.seasons@[s].episodes@[e])
            } else {
                None
            }
        },
        _ => None,
    }
}

/// Looks up the declared episode that a record's locator names.
pub fn find_show_episode(show: &ShowSpecifics, locator: &Option<SeenExtraInformation>) -> (found:
    Option<ShowEpisode>)
    ensures
        found == matched_show_episode(*show, *locator),
{
    let at = match locator {
        Some(SeenExtraInformation::Show(at)) => *at,
        _ => {
            return None;
        },
    };
    let mut s: usize = 0;
    while s < show.seasons.len()
        invariant
            *locator == Some(SeenExtraInformation::Show(at)),
            s <= show.seasons@.len(),
            forall|s2: int, e2: int| #[trigger] is_show_match(*show, at, s2, e2) ==> s <= s2,
        decreases show.seasons@.len() - s,
    {
        let season = &show.seasons[s];
        if season.season_number == at.season {
            let mut e: usize = 0;
            while e < season.episodes.len()
                invariant
                    *locator == Some(SeenExtraInformation::Show(at)),
                    s < show.seasons@.len(),
                    *season == show.seasons@[s as int],
                    season.season_number == at.season,
                    e <= season.episodes@.len(),
                    forall|s2: int, e2: int| #[trigger]
                        is_show_match(*show, at, s2, e2) ==> s < s2 || (s == s2 && e <= e2),
                decreases season.episodes@.len() - e,
            {
                if season.episodes[e].episode_number == at.episode {
                    proof {
                        assert(is_show_match(*show, at, s as int, e as int));
                        assert(is_first_show_match(*show, at, s as int, e as int));
                        let (s1, e1) = choose|s1: int, e1: int|
                            is_first_show_match(*show, at, s1, e1);
                        assert(is_show_match(*show, at, s1, e1));
                        assert(s1 == s && e1 == e);
                    }
                    return Some(season.episodes[e]);
                }
                e += 1;
            }
        }
        s += 1;
    }
    proof {
        assert forall|s1: int, e1: int| !is_first_show_match(*show, at, s1, e1) by {
            if is_first_show_match(*show, at, s1, e1) {
                assert(is_show_match(*show, at, s1, e1));
            }
        }
    }
    None
}

/// Whether episode `e` of `podcast` is the first, in declared order, with
/// the number that `at` names.
pub open spec fn is_first_podcast_match(
    podcast: PodcastSpecifics,
    at: SeenPodcastExtraInformation,
    e: int,
) -> bool {
    &&& 0 <= e < podcast.episodes@.len()
    &&& podcast.episodes@[e].number == at.episode
    &&& forall|j: int| 0 <= j < e ==> (#[trigger] podcast.episodes@[j]).number != at.episode
}

/// The place among the declared episodes of `podcast` of the episode that
/// a record's locator names, if it names one.
pub open spec fn matched_podcast_episode(
    podcast: PodcastSpecifics,
    locator: Option<SeenExtraInformation>,
) -> Option<int> {
    match locator {
        Some(SeenExtraInformation::Podcast(at)) => {
            if exists|e: int| is_first_podcast_match(podcast, at, e) {
                Some(choose|e: int| is_first_podcast_match(podcast, at, e))
            } else {
                None
            }
        },
        _ => None,
    }
}

/// Looks up the declared episode that a record's locator names.
pub fn find_podcast_episode(
    podcast: &PodcastSpecifics,
    locator: &Option<SeenExtraInformation>,
) -> (found: Option<usize>)
    ensures
        match found {
            Some(e) => matched_podcast_episode(*podcast, *locator) == Some(e as int) && e
                < podcast.episodes@.len(),
            None => matched_podcast_episode(*podcast, *locator) is None,
        },
{
    let at = match locator {
        Some(SeenExtraInformation::Podcast(at)) => *at,
        _ => {
            return None;
        },
    };
    let mut e: usize = 0;
    while e < podcast.episodes.len()
        invariant
            *locator == Some(SeenExtraInformation::Podcast(at)),
            e <= podcast.episodes@.len(),
            forall|j: int| 0 <= j < e ==> (#[trigger] podcast.episodes@[j]).number != at.episode,
        decreases podcast.episodes@.len() - e,
    {
        if podcast.episodes[e].number == at.episode {
            proof {
                assert(is_first_podcast_match(*podcast, at, e as int));
                let e1 = choose|e1: int| is_first_podcast_match(*podcast, at, e1);
                if e1 < e {
                    assert(podcast.episodes@[e1].number != at.episode);
                } else if e < e1 {
                    assert(podcast.episodes@[e as int].number != at.episode);
                }
            }
            return Some(e);
        }
        e += 1;
    }
    proof {
        assert forall|e1: int| !is_first_podcast_match(*podcast, at, e1) by {
            if is_first_podcast_match(*podcast, at, e1) {
                assert(podcast.episodes@[e1].number == at.episode);
            }
        }
    }
    None
}

/// The running totals of a summary, as numbers and sets without bounds.
pub struct SummaryModel {
    pub audio_books_played: int,
    pub audio_books_runtime: int,
    pub anime_watched: int,
    pub anime_episodes: int,
    pub manga_read: int,
    pub manga_chapters: int,
    pub books_read: int,
    pub books_pages: int,
    pub movies_watched: int,
    pub movies_runtime: int,
    pub video_games_played: int,
    pub shows_runtime: int,
    pub shows_watched_episodes: int,
    pub podcasts_runtime: int,
    /// The shows of which an episode was watched.
    pub shows: Set<i32>,
    /// The pairs of season and episode that were watched.
    pub show_episodes: Set<(i32, i32)>,
    /// The podcasts of which an episode was played.
    pub podcasts: Set<i32>,
    /// The identifiers of the episodes that were played.
    pub podcast_episodes: Set<Seq<char>>,
}

/// Whether a total can be held in a counter.
pub open spec fn countable(total: int) -> bool {
    i32::MIN <= total <= i32::MAX
}

impl SummaryModel {
    /// The totals before any record.
    pub open spec fn empty() -> SummaryModel {
        SummaryModel {
            audio_books_played: 0,
            audio_books_runtime: 0,
            anime_watched: 0,
            anime_episodes: 0,
            manga_read: 0,
            manga_chapters: 0,
            books_read: 0,
            books_pages: 0,
            movies_watched: 0,
            movies_runtime: 0,
            video_games_played: 0,
            shows_runtime: 0,
            shows_watched_episodes: 0,
            podcasts_runtime: 0,
            shows: Set::empty(),
            show_episodes: Set::empty(),
            podcasts: Set::empty(),
            podcast_episodes: Set::empty(),
        }
    }

    /// The totals after one more finished record, joined to the details of
    /// its item.
    ///
    /// A record of a show or a podcast counts only where its locator names
    /// an episode that the item declares; otherwise it leaves every total as
    /// it was. A record that counts adds once to the running totals, however
    /// often the same episode was recorded, and the sets take what is new
    /// to them.
    pub open spec fn with(self, seen: SeenRecord, specifics: MediaSpecifics) -> SummaryModel {
        match specifics {
            MediaSpecifics::AudioBook(item) => SummaryModel {
                audio_books_played: self.audio_books_played + 1,
                audio_books_runtime: self.audio_books_runtime + amount(item.runtime),
                ..self
            },
            MediaSpecifics::Anime(item) => SummaryModel {
                anime_watched: self.anime_watched + 1,
                anime_episodes: self.anime_episodes + amount(item.episodes),
                ..self
            },
            MediaSpecifics::Manga(item) => SummaryModel {
                manga_read: self.manga_read + 1,
                manga_chapters: self.manga_chapters + amount(item.chapters),
                ..self
            },
            MediaSpecifics::Book(item) => SummaryModel {
                books_read: self.books_read + 1,
                books_pages: self.books_pages + amount(item.pages),
                ..self
            },
            MediaSpecifics::Movie(item) => SummaryModel {
                movies_watched: self.movies_watched + 1,
                movies_runtime: self.movies_runtime + amount(item.runtime),
                ..self
            },
            MediaSpecifics::VideoGame(_) => SummaryModel {
                video_games_played: self.video_games_played + 1,
                ..self
            },
            MediaSpecifics::Show(show) => match (
                matched_show_episode(show, seen.extra_information),
                seen.extra_information,
            ) {
                (Some(episode), Some(SeenExtraInformation::Show(at))) => SummaryModel {
                    shows_runtime: self.shows_runtime + amount(episode.runtime),
                    shows_watched_episodes: self.shows_watched_episodes + 1,
                    shows: self.shows.insert(seen.metadata_id),
                    show_episodes: self.show_episodes.insert((at.season, at.episode)),
                    ..self
                },
                _ => self,
            },
            MediaSpecifics::Podcast(podcast) => match matched_podcast_episode(
                podcast,
                seen.extra_information,
            ) {
                Some(e) => SummaryModel {
                    podcasts_runtime: self.podcasts_runtime + amount(podcast.episodes@[e].runtime),
                    podcasts: self.podcasts.insert(seen.metadata_id),
                    podcast_episodes: self.podcast_episodes.insert(podcast.episodes@[e].id@),
                    ..self
                },
                None => self,
            },
            MediaSpecifics::Unknown => self,
        }
    }

    /// Whether every total, and the size of every set, can be held in a
    /// counter.
    pub open spec fn fits(self) -> bool {
        &&& countable(self.audio_books_played)
        &&& countable(self.audio_books_runtime)
        &&& countable(self.anime_watched)
        &&& countable(self.anime_episodes)
        &&& countable(self.manga_read)
        &&& countable(self.manga_chapters)
        &&& countable(self.books_read)
        &&& countable(self.books_pages)
        &&& countable(self.movies_watched)
        &&& countable(self.movies_runtime)
        &&& countable(self.video_games_played)
        &&& countable(self.shows_runtime)
        &&& countable(self.shows_watched_episodes)
        &&& countable(self.podcasts_runtime)
        &&& countable(self.shows.len() as int)
        &&& countable(self.show_episodes.len() as int)
        &&& countable(self.podcasts.len() as int)
        &&& countable(self.podcast_episodes.len() as int)
    }

    /// Whether the four sets are finite.
    pub open spec fn finite(self) -> bool {
        &&& self.shows.finite()
        &&& self.show_episodes.finite()
        &&& self.podcasts.finite()
        &&& self.podcast_episodes.finite()
    }

    /// The summary that reports the totals: each counter holds its total,
    /// and the counts of distinct things are the sizes of the sets.
    pub open spec fn report(self) -> UserMediaSummary {
        UserMediaSummary {
            books: BooksSummary { pages: self.books_pages as i32, read: self.books_read as i32 },
            movies: MoviesSummary {
                runtime: self.movies_runtime as i32,
                watched: self.movies_watched as i32,
            },
            podcasts: PodcastsSummary {
                runtime: self.podcasts_runtime as i32,
                played: self.podcasts.len() as i32,
                played_episodes: self.podcast_episodes.len() as i32,
            },
            shows: ShowsSummary {
                runtime: self.shows_runtime as i32,
                watched: self.shows.len() as i32,
                watched_episodes: self.shows_watched_episodes as i32,
                watched_seasons: self.show_episodes.len() as i32,
            },
            video_games: VideoGamesSummary { played: self.video_games_played as i32 },
            audio_books: AudioBooksSummary {
                runtime: self.audio_books_runtime as i32,
                played: self.audio_books_played as i32,
            },
            anime: AnimeSummary {
                episodes: self.anime_episodes as i32,
                watched: self.anime_watched as i32,
            },
            manga: MangaSummary {
                chapters: self.manga_chapters as i32,
                read: self.manga_read as i32,
            },
        }
    }
}

/// The totals over finished records in the order given, each joined to the
/// details of its item.
pub open spec fn totals_of(items: Seq<(SeenRecord, MediaSpecifics)>) -> SummaryModel
    decreases items.len(),
{
    if items.len() == 0 {
        SummaryModel::empty()
    } else {
        totals_of(items.drop_last()).with(items.last().0, items.last().1)
    }
}

/// The totals over `items`, where the totals over each of its beginnings
/// can be held in counters; `None` where those over some beginning cannot.
pub open spec fn checked_totals_of(items: Seq<(SeenRecord, MediaSpecifics)>) -> Option<
    SummaryModel,
>
    decreases items.len(),
{
    if items.len() == 0 {
        Some(SummaryModel::empty())
    } else {
        match checked_totals_of(items.drop_last()) {
            Some(before) => {
                let after = before.with(items.last().0, items.last().1);
                if after.fits() {
                    Some(after)
                } else {
                    None
                }
            },
            None => None,
        }
    }
}

/// The totals with one more record: those before it with the record, where
/// both can be held.
pub proof fn lemma_checked_totals_push(
    items: Seq<(SeenRecord, MediaSpecifics)>,
    seen: SeenRecord,
    specifics: MediaSpecifics,
)
    ensures
        checked_totals_of(items.push((seen, specifics))) == match checked_totals_of(items) {
            Some(before) => if before.with(seen, specifics).fits() {
                Some(before.with(seen, specifics))
            } else {
                None
            },
            None => None,
        },
{
    assert(items.push((seen, specifics)).drop_last() =~= items);
}

/// A counter and what one record adds to it, where the sum can be held.
fn raised(counter: i32, by: Option<i32>) -> (sum: Option<i32>)
    ensures
        match sum {
            Some(total) => total == counter + amount(by),
            None => !countable(counter + amount(by)),
        },
{
    match by {
        Some(value) => counter.checked_add(value),
        None => Some(counter),
    }
}

/// The running totals of a summary in the making. Records are handed to it
/// one at a time, so that a history of any length can be summed without
/// being held in memory.
#[derive(Debug)]
pub struct SummaryAccumulator {
    totals: UserMediaSummary,
    shows: HashSet<i32>,
    show_episodes: DistinctPairs,
    podcasts: HashSet<i32>,
    podcast_episodes: DistinctNames,
}

impl View for SummaryAccumulator {
    type V = SummaryModel;

    closed spec fn view(&self) -> SummaryModel {
        SummaryModel {
            audio_books_played: self.totals.audio_books.played as int,
            audio_books_runtime: self.totals.audio_books.runtime as int,
            anime_watched: self.totals.anime.watched as int,
            anime_episodes: self.totals.anime.episodes as int,
            manga_read: self.totals.manga.read as int,
            manga_chapters: self.totals.manga.chapters as int,
            books_read: self.totals.books.read as int,
            books_pages: self.totals.books.pages as int,
            movies_watched: self.totals.movies.watched as int,
            movies_runtime: self.totals.movies.runtime as int,
            video_games_played: self.totals.video_games.played as int,
            shows_runtime: self.totals.shows.runtime as int,
            shows_watched_episodes: self.totals.shows.watched_episodes as int,
            podcasts_runtime: self.totals.podcasts.runtime as int,
            shows: self.shows@,
            show_episodes: self.show_episodes@,
            podcasts: self.podcasts@,
            podcast_episodes: self.podcast_episodes@,
        }
    }
}

impl SummaryAccumulator {
    /// The totals can be reported: they can be held in counters, and the
    /// sets are in order.
    pub closed spec fn wf(&self) -> bool {
        &&& self@.fits()
        &&& self@.finite()
        &&& self.show_episodes.wf()
        &&& self.podcast_episodes.wf()
    }

    /// An accumulator that has taken no record.
    pub fn new() -> (accumulator: SummaryAccumulator)
        ensures
            accumulator.wf(),
            accumulator@ == SummaryModel::empty(),
    {
        SummaryAccumulator {
            totals: UserMediaSummary::new(),
            shows: HashSet::new(),
            show_episodes: DistinctPairs::new(),
            podcasts: HashSet::new(),
            podcast_episodes: DistinctNames::new(),
        }
    }

    /// Takes one finished record with the details of its item. Where the
    /// totals with the record could no longer be held in counters, the
    /// record is refused and the accumulator stays as it was.
    pub fn record(&mut self, seen: &SeenRecord, specifics: &MediaSpecifics) -> (taken: bool)
        requires
            old(self).wf(),
        ensures
            final(self).wf(),
            taken == old(self)@.with(*seen, *specifics).fits(),
            final(self)@ == if taken {
                old(self)@.with(*seen, *specifics)
            } else {
                old(self)@
            },
    {
        match specifics {
            MediaSpecifics::AudioBook(item) => {
                match (raised(self.totals.audio_books.played, Some(1)), raised(
                    self.totals.audio_books.runtime,
                    item.runtime,
                )) {
                    (Some(played), Some(runtime)) => {
                        self.totals.audio_books.played = played;
                        self.totals.audio_books.runtime = runtime;
                        true
                    },
                    _ => false,
                }
            },
            MediaSpecifics::Anime(item) => {
                match (raised(self.totals.anime.watched, Some(1)), raised(
                    self.totals.anime.episodes,
                    item.episodes,
                )) {
                    (Some(watched), Some(episodes)) => {
                        self.totals.anime.watched = watched;
                        self.totals.anime.episodes = episodes;
                        true
                    },
                    _ => false,
                }
            },
            MediaSpecifics::Manga(item) => {
                match (raised(self.totals.manga.read, Some(1)), raised(
                    self.totals.manga.chapters,
                    item.chapters,
                )) {
                    (Some(read), Some(chapters)) => {
                        self.totals.manga.read = read;
                        self.totals.manga.chapters = chapters;
                        true
                    },
                    _ => false,
                }
            },
            MediaSpecifics::Book(item) => {
                match (raised(self.totals.books.read, Some(1)), raised(
                    self.totals.books.pages,
                    item.pages,
                )) {
                    (Some(read), Some(pages)) => {
                        self.totals.books.read = read;
                        self.totals.books.pages = pages;
                        true
                    },
                    _ => false,
                }
            },
            MediaSpecifics::Movie(item) => {
                match (raised(self.totals.movies.watched, Some(1)), raised(
                    self.totals.movies.runtime,
                    item.runtime,
                )) {
                    (Some(watched), Some(runtime)) => {
                        self.totals.movies.watched = watched;
                        self.totals.movies.runtime = runtime;
                        true
                    },
                    _ => false,
                }
            },
            MediaSpecifics::VideoGame(_) => {
                match raised(self.totals.video_games.played, Some(1)) {
                    Some(played) => {
                        self.totals.video_games.played = played;
                        true
                    },
                    None => false,
                }
            },
            MediaSpecifics::Show(show) => {
                let episode = match find_show_episode(show, &seen.extra_information) {
                    Some(episode) => episode,
                    None => {
                        return true;
                    },
                };
                let at = match seen.extra_information {
                    Some(SeenExtraInformation::Show(at)) => at,
                    _ => {
                        return true;
                    },
                };
                let pair = (at.season, at.episode);
                let room_for_show = self.shows.contains(&seen.metadata_id) || self.shows.len()
                    < i32::MAX as usize;
                let room_for_episode = self.show_episodes.contains(pair)
                    || self.show_episodes.len() < i32::MAX as usize;
                match (raised(self.totals.shows.runtime, episode.runtime), raised(
                    self.totals.shows.watched_episodes,
                    Some(1),
                )) {
                    (Some(runtime), Some(watched_episodes)) => {
                        if room_for_show && room_for_episode {
                            self.totals.shows.runtime = runtime;
                            self.totals.shows.watched_episodes = watched_episodes;
                            self.shows.insert(seen.metadata_id);
                            self.show_episodes.insert(pair);
                            true
                        } else {
                            false
                        }
                    },
                    _ => false,
                }
            },
            MediaSpecifics::Podcast(podcast) => {
                let e = match find_podcast_episode(podcast, &seen.extra_information) {
                    Some(e) => e,
                    None => {
                        return true;
                    },
                };
                let episode = &podcast.episodes[e];
                let room_for_podcast = self.podcasts.contains(&seen.metadata_id)
                    || self.podcasts.len() < i32::MAX as usize;
                let room_for_episode = self.podcast_episodes.contains(&episode.id)
                    || self.podcast_episodes.len() < i32::MAX as usize;
                match raised(self.totals.podcasts.runtime, episode.runtime) {
                    Some(runtime) => {
                        if room_for_podcast && room_for_episode {
                            self.totals.podcasts.runtime = runtime;
                            self.podcasts.insert(seen.metadata_id);
                            self.podcast_episodes.insert(&episode.id);
                            true
                        } else {
                            false
                        }
                    },
                    None => false,
                }
            },
            MediaSpecifics::Unknown => true,
        }
    }

    /// The summary of the records taken.
    pub fn finish(self) -> (summary: UserMediaSummary)
        requires
            self.wf(),
        ensures
            summary == self@.report(),
    {
        let mut summary = self.totals;
        summary.podcasts.played = self.podcasts.len() as i32;
        summary.podcasts.played_episodes = self.podcast_episodes.len() as i32;
        summary.shows.watched = self.shows.len() as i32;
        summary.shows.watched_seasons = self.show_episodes.len() as i32;
        summary
    }
}

} // verus!
