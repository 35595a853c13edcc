//! What a user has switched on, and the integrations that a user has set
//! up to have progress fetched from elsewhere.

use vstd::prelude::*;
use crate::clock::{Date, Timestamp};
use crate::lookup::{kept, lemma_sift_start, lemma_sift_step};
use crate::media::MetadataLot;
use crate::progress::ProgressUpdateInput;

verus! {

/// The kinds of media that are switched on.
#[derive(Clone, Copy, Debug, PartialEq, Eq, Structural)]
pub struct UserFeaturesEnabledPreferences {
    pub anime: bool,
    pub audio_books: bool,
    pub books: bool,
    pub manga: bool,
    pub movies: bool,
    pub podcasts: bool,
    pub shows: bool,
    pub video_games: bool,
}

/// The preferences of a user.
#[derive(Clone, Copy, Debug, PartialEq, Eq, Structural)]
pub struct UserPreferences {
    pub features_enabled: UserFeaturesEnabledPreferences,
}

/// A request to switch a kind of media on or off.
#[derive(Clone, Copy, Debug, PartialEq, Eq, Structural)]
pub struct UpdateUserFeaturePreferenceInput {
    pub property: MetadataLot,
    pub value: bool,
}

impl UserFeaturesEnabledPreferences {
    /// Whether the kind `lot` is switched on.
    pub open spec fn allows(self, lot: MetadataLot) -> bool {
        match lot {
            MetadataLot::AudioBook => self.audio_books,
            MetadataLot::Anime => self.anime,
            MetadataLot::Book => self.books,
            MetadataLot::Podcast => self.podcasts,
            MetadataLot::Manga => self.manga,
            MetadataLot::Movie => self.movies,
            MetadataLot::Show => self.shows,
            MetadataLot::VideoGame => self.video_games,
        }
    }
}

impl UserPreferences {
    /// The preferences as they take effect on a server whose operator has
    /// switched on the kinds in `server`: a kind is on where both the user
    /// and the operator have it on.
    pub fn effective(&self, server: &UserFeaturesEnabledPreferences) -> (preferences: UserPreferences)
        ensures
            forall|lot: MetadataLot|
                preferences.features_enabled.allows(lot) == (self.features_enabled.allows(lot)
                    && server.allows(lot)),
    {
        let mine = self.features_enabled;
        UserPreferences {
            features_enabled: UserFeaturesEnabledPreferences {
                anime: server.anime && mine.anime,
                audio_books: server.audio_books && mine.audio_books,
                books: server.books && mine.books,
                manga: server.manga && mine.manga,
                movies: server.movies && mine.movies,
                podcasts: server.podcasts && mine.podcasts,
                shows: server.shows && mine.shows,
                video_games: server.video_games && mine.video_games,
            },
        }
    }

    /// The preferences with one kind switched as the request says, and the
    /// others as they were.
    pub fn update_user_feature_preference(&self, input: UpdateUserFeaturePreferenceInput) -> (preferences:
        UserPreferences)
        ensures
            forall|lot: MetadataLot|
                preferences.features_enabled.allows(lot) == if lot == input.property {
                    input.value
                } else {
                    self.features_enabled.allows(lot)
                },
    {
        let mut features = self.features_enabled;
        match input.property {
            MetadataLot::AudioBook => {
                features.audio_books = input.value;
            },
            MetadataLot::Anime => {
                features.anime = input.value;
            },
            MetadataLot::Book => {
                features.books = input.value;
            },
            MetadataLot::Podcast => {
                features.podcasts = input.value;
            },
            MetadataLot::Manga => {
                features.manga = input.value;
            },
            MetadataLot::Movie => {
                features.movies = input.value;
            },
            MetadataLot::Show => {
                features.shows = input.value;
            },
            MetadataLot::VideoGame => {
                features.video_games = input.value;
            },
        }
        UserPreferences { features_enabled: features }
    }
}

/// How an integration reaches the service that it fetches from.
#[derive(Clone, Debug, PartialEq, Eq)]
pub enum UserYankIntegrationSetting {
    Audiobookshelf { base_url: String, token: String },
}

/// An integration that a user has set up.
#[derive(Clone, Debug, PartialEq, Eq)]
pub struct UserYankIntegration {
    pub id: usize,
    pub settings: UserYankIntegrationSetting,
    pub timestamp: Timestamp,
}

/// The kind of service that an integration fetches from.
#[derive(Clone, Copy, Debug, PartialEq, Eq, Structural)]
pub enum UserYankIntegrationLot {
    Audiobookshelf,
}

/// An integration as it is listed: without what is secret.
#[derive(Clone, Debug, PartialEq, Eq)]
pub struct GraphqlUserYankIntegration {
    pub id: usize,
    pub lot: UserYankIntegrationLot,
    pub description: String,
    pub timestamp: Timestamp,
}

/// A request to set an integration up.
#[derive(Clone, Debug, PartialEq, Eq)]
pub struct CreateUserYankIntegrationInput {
    pub lot: UserYankIntegrationLot,
    pub base_url: String,
    pub token: String,
}

/// An integration as it is listed.
pub open spec fn listed(integration: UserYankIntegration) -> GraphqlUserYankIntegration {
    match integration.settings {
        UserYankIntegrationSetting::Audiobookshelf { base_url, .. } => GraphqlUserYankIntegration {
            id: integration.id,
            lot: UserYankIntegrationLot::Audiobookshelf,
            description: base_url,
            timestamp: integration.timestamp,
        },
    }
}

/// Whether an integration has another identity than `id`.
pub open spec fn is_other_integration(id: usize) -> spec_fn(UserYankIntegration) -> bool {
    |integration: UserYankIntegration| integration.id != id
}

/// The integrations of a user as they are listed, in their order.
pub fn user_yank_integrations(integrations: Vec<UserYankIntegration>) -> (list: Vec<
    GraphqlUserYankIntegration,
>)
    ensures
        list@.len() == integrations@.len(),
        forall|i: int| 0 <= i < list@.len() ==> #[trigger] list@[i] == listed(integrations@[i]),
{
    let mut rest = integrations;
    let mut list: Vec<GraphqlUserYankIntegration> = Vec::new();
    while rest.len() > 0
        invariant
            list@.len() + rest@.len() == integrations@.len(),
            forall|i: int| 0 <= i < list@.len() ==> #[trigger] list@[i] == listed(integrations@[i]),
            forall|i: int|
                0 <= i < rest@.len() ==> #[trigger] rest@[i] == integrations@[list@.len() + i],
        decreases rest@.len(),
    {
        let integration = rest.remove(0);
        let item = match integration.settings {
            UserYankIntegrationSetting::Audiobookshelf { base_url, .. } => GraphqlUserYankIntegration {
                id: integration.id,
                lot: UserYankIntegrationLot::Audiobookshelf,
                description: base_url,
                timestamp: integration.timestamp,
            },
        };
        list.push(item);
    }
    list
}

/// Sets an integration up at the instant `now`: it joins the user's
/// integrations with the number that follows their count, which is
/// returned.
pub fn create_user_yank_integration(
    integrations: &mut Vec<UserYankIntegration>,
    input: CreateUserYankIntegrationInput,
    now: Timestamp,
) -> (id: usize)
    requires
        old(integrations)@.len() < usize::MAX,
    ensures
        id == old(integrations)@.len() + 1,
        final(integrations)@ == old(integrations)@.push(
            UserYankIntegration {
                id,
                settings: UserYankIntegrationSetting::Audiobookshelf {
                    base_url: input.base_url,
                    token: input.token,
                },
                timestamp: now,
            },
        ),
{
    let id = integrations.len() + 1;
    let settings = match input.lot {
        UserYankIntegrationLot::Audiobookshelf => UserYankIntegrationSetting::Audiobookshelf {
            base_url: input.base_url,
            token: input.token,
        },
    };
    integrations.push(UserYankIntegration { id, settings, timestamp: now });
    id
}

/// Takes the integrations with the identity `id` away. What is left is
/// returned, and nothing where none is left.
pub fn delete_user_yank_integration(integrations: Vec<UserYankIntegration>, id: usize) -> (left:
    Option<Vec<UserYankIntegration>>)
    ensures
        match left {
            Some(rest) => rest@ == kept(integrations@, is_other_integration(id)) && rest@.len() > 0,
            None => kept(integrations@, is_other_integration(id)).len() == 0,
        },
{
    let ghost rows = integrations@;
    let ghost mut done: int = 0;
    let mut rest = integrations;
    let mut i: usize = 0;
    proof {
        lemma_sift_start(rows, is_other_integration(id));
    }
    while i < rest.len()
        invariant
            rows == integrations@,
            0 <= done <= rows.len(),
            rest@ == crate::lookup::sifted(rows, is_other_integration(id), done),
            i == kept(rows.take(done), is_other_integration(id)).len(),
            rest@.len() == i + rows.len() - done,
        decreases rows.len() - done,
    {
        proof {
            lemma_sift_step(rows, is_other_integration(id), done);
        }
        if rest[i].id == id {
            rest.remove(i);
        } else {
            i += 1;
        }
        proof {
            done = done + 1;
        }
    }
    proof {
        crate::lookup::lemma_sift_end(rows, is_other_integration(id));
    }
    if rest.len() == 0 {
        None
    } else {
        Some(rest)
    }
}

/// Whether a progress that an integration reports is taken over: what is
/// barely begun or all but finished is not.
pub open spec fn is_yanked(progress: i32) -> bool {
    1 <= progress <= 95
}

/// Whether a progress that an integration reports is taken over.
pub fn is_yanked_progress(progress: i32) -> (taken: bool)
    ensures
        taken == is_yanked(progress),
{
    1 <= progress && progress <= 95
}

/// The report that is made of a progress that an integration reports on
/// the item `metadata_id`: dated `today`, without locator or key.
pub fn yanked_report(metadata_id: i32, progress: i32, today: Date) -> (input: ProgressUpdateInput)
    ensures
        input == (ProgressUpdateInput {
            metadata_id,
            progress: Some(progress),
            date: Some(today),
            show_season_number: None,
            show_episode_number: None,
            podcast_episode_number: None,
            identifier: None,
        }),
{
    ProgressUpdateInput {
        metadata_id,
        progress: Some(progress),
        date: Some(today),
        show_season_number: None,
        show_episode_number: None,
        podcast_episode_number: None,
        identifier: None,
    }
}

/// The standing of a user.
#[derive(Clone, Copy, Debug, PartialEq, Eq, Structural)]
pub enum UserLot {
    Admin,
    Normal,
}

/// Why nobody was registered.
#[derive(Clone, Copy, Debug, PartialEq, Eq, Structural)]
pub enum RegisterErrorVariant {
    UsernameAlreadyExists,
    Disabled,
}

/// Why nobody was logged in.
#[derive(Clone, Copy, Debug, PartialEq, Eq, Structural)]
pub enum LoginErrorVariant {
    UsernameDoesNotExist,
    CredentialsMismatch,
    MutexError,
}

/// The standing that a new user gets, or why none is registered: nobody is
/// where registering is switched off or the name is taken, and the first
/// user of all administers.
pub open spec fn registration_of(allowed: bool, name_taken: bool, first_user: bool) -> Result<
    UserLot,
    RegisterErrorVariant,
> {
    if !allowed {
        Err(RegisterErrorVariant::Disabled)
    } else if name_taken {
        Err(RegisterErrorVariant::UsernameAlreadyExists)
    } else if first_user {
        Ok(UserLot::Admin)
    } else {
        Ok(UserLot::Normal)
    }
}

/// The standing that a new user gets, or why none is registered.
pub fn registration(allowed: bool, name_taken: bool, first_user: bool) -> (outcome: Result<
    UserLot,
    RegisterErrorVariant,
>)
    ensures
        outcome == registration_of(allowed, name_taken, first_user),
{
    if !allowed {
        Err(RegisterErrorVariant::Disabled)
    } else if name_taken {
        Err(RegisterErrorVariant::UsernameAlreadyExists)
    } else if first_user {
        Ok(UserLot::Admin)
    } else {
        Ok(UserLot::Normal)
    }
}

/// Why a login fails, if it does: the user must exist, the password must
/// be the user's, and the token must have been noted.
pub open spec fn login_failure_of(user_exists: bool, password_matches: bool, token_noted: bool) -> Option<
    LoginErrorVariant,
> {
    if !user_exists {
        Some(LoginErrorVariant::UsernameDoesNotExist)
    } else if !password_matches {
        Some(LoginErrorVariant::CredentialsMismatch)
    } else if !token_noted {
        Some(LoginErrorVariant::MutexError)
    } else {
        None
    }
}

/// Why a login fails, if it does.
pub fn login_failure(user_exists: bool, password_matches: bool, token_noted: bool) -> (failure:
    Option<LoginErrorVariant>)
    ensures
        failure == login_failure_of(user_exists, password_matches, token_noted),
{
    if !user_exists {
        Some(LoginErrorVariant::UsernameDoesNotExist)
    } else if !password_matches {
        Some(LoginErrorVariant::CredentialsMismatch)
    } else if !token_noted {
        Some(LoginErrorVariant::MutexError)
    } else {
        None
    }
}

/// Whether nothing ties a user to a media item any more: no seen record,
/// no review, and no collection of the user that holds it.
pub open spec fn is_unused_association(seen: u64, reviews: u64, in_collection: bool) -> bool {
    seen == 0 && reviews == 0 && !in_collection
}

/// Whether nothing ties a user to a media item any more, given the number
/// of the user's seen records and reviews of it and whether a collection of
/// the user holds it.
pub fn association_is_unused(seen: u64, reviews: u64, in_collection: bool) -> (unused: bool)
    ensures
        unused == is_unused_association(seen, reviews, in_collection),
{
    seen == 0 && reviews == 0 && !in_collection
}

} // verus!
