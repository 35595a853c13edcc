use ryot::clock::{Date, Timestamp};
use ryot::collection::{
    AddMediaToCollection, CollectionInput, CollectionItem, CreateOrUpdateCollectionInput,
    Visibility,
};
use ryot::custom::{
    custom_specifics, CreateCustomMediaError, CreateCustomMediaErrorVariant,
    CreateCustomMediaInput, CreateCustomMediaResult,
};
use ryot::error::ServiceError;
use ryot::export::export_media;
use ryot::links::{page_kind_fits, source_url, source_url_with_slug};
use ryot::media::{
    BookSpecifics, IdObject, MediaDetails, MediaSpecifics, Metadata, MetadataLot,
    MetadataSource, MovieSpecifics,
};
use ryot::order::descending_order;
use ryot::progress::ProgressUpdateInput;
use ryot::providers::{get_provider, Provider};
use ryot::review::{review_item, PostReviewInput, Review};
use ryot::seen::{SeenExtraInformation, SeenPodcastExtraInformation, SeenShowExtraInformation};
use ryot::service::MiscellaneousService;
use ryot::users::{
    create_user_yank_integration, delete_user_yank_integration, is_yanked_progress,
    user_yank_integrations, yanked_report, CreateUserYankIntegrationInput,
    GraphqlUserYankIntegration, UpdateUserFeaturePreferenceInput,
    UserFeaturesEnabledPreferences, UserPreferences, UserYankIntegration,
    UserYankIntegrationLot, UserYankIntegrationSetting,
};
use rust_decimal::Decimal;

const ANN: i32 = 1;
const BEN: i32 = 2;

fn at(micros: i64) -> Timestamp {
    Timestamp { micros }
}

fn today() -> Date {
    Date { days_from_ce: 738_000 }
}

fn book(service: &mut MiscellaneousService) -> i32 {
    service
        .commit_media_internal(MediaDetails {
            identifier: "b".to_string(),
            title: "Book".to_string(),
            lot: MetadataLot::Book,
            source: MetadataSource::Openlibrary,
            specifics: MediaSpecifics::Book(BookSpecifics { pages: None }),
        })
        .unwrap()
        .id
}

fn report(metadata_id: i32, progress: i32) -> ProgressUpdateInput {
    ProgressUpdateInput {
        metadata_id,
        progress: Some(progress),
        date: None,
        show_season_number: None,
        show_episode_number: None,
        podcast_episode_number: None,
        identifier: None,
    }
}

fn review(metadata_id: i32, text: Option<&str>, visibility: Visibility, date: i64) -> PostReviewInput {
    PostReviewInput {
        rating: None,
        text: text.map(|t| t.to_string()),
        visibility: Some(visibility),
        spoiler: None,
        metadata_id,
        date: Some(at(date)),
        review_id: None,
        season_number: None,
        episode_number: None,
        identifier: None,
    }
}

#[test]
fn provider_pages_are_built_from_slug_and_identifier() {
    let url = |source, lot| source_url_with_slug(source, lot, "the-title", "id42");
    assert_eq!(url(MetadataSource::Custom, MetadataLot::Book), None);
    assert_eq!(
        url(MetadataSource::Itunes, MetadataLot::Podcast).unwrap(),
        "https://podcasts.apple.com/us/podcast/the-title/idid42"
    );
    assert_eq!(
        url(MetadataSource::GoogleBooks, MetadataLot::Book).unwrap(),
        "https://www.google.co.in/books/edition/the-title/id42"
    );
    assert_eq!(
        url(MetadataSource::Audible, MetadataLot::AudioBook).unwrap(),
        "https://www.audible.com/pd/the-title/id42"
    );
    assert_eq!(
        url(MetadataSource::Openlibrary, MetadataLot::Book).unwrap(),
        "https://openlibrary.org/works/id42/the-title"
    );
    assert_eq!(
        url(MetadataSource::Tmdb, MetadataLot::Movie).unwrap(),
        "https://www.themoviedb.org/movie/id42-the-title"
    );
    assert_eq!(
        url(MetadataSource::Tmdb, MetadataLot::Show).unwrap(),
        "https://www.themoviedb.org/tv/id42-the-title"
    );
    assert_eq!(
        url(MetadataSource::Listennotes, MetadataLot::Podcast).unwrap(),
        "https://www.listennotes.com/podcasts/the-title-id42"
    );
    assert_eq!(
        url(MetadataSource::Igdb, MetadataLot::VideoGame).unwrap(),
        "https://www.igdb.com/games/the-title"
    );
    assert_eq!(
        url(MetadataSource::Anilist, MetadataLot::Anime).unwrap(),
        "https://anilist.co/anime/id42/the-title"
    );
    assert_eq!(
        url(MetadataSource::Anilist, MetadataLot::Manga).unwrap(),
        "https://anilist.co/manga/id42/the-title"
    );
}

#[test]
fn provider_page_takes_the_slug_of_the_title() {
    assert_eq!(
        source_url(MetadataSource::Igdb, MetadataLot::VideoGame, "My Test String!!!1!1", "7").unwrap(),
        "https://www.igdb.com/games/my-test-string-1-1"
    );
    assert_eq!(
        source_url(MetadataSource::Openlibrary, MetadataLot::Book, "Æúű--cool?", "OL7W").unwrap(),
        "https://openlibrary.org/works/OL7W/aeuu-cool"
    );
    assert_eq!(source_url(MetadataSource::Custom, MetadataLot::Book, "x", "y"), None);
}

#[test]
fn tmdb_and_anilist_serve_two_kinds_each() {
    for lot in [
        MetadataLot::AudioBook,
        MetadataLot::Anime,
        MetadataLot::Book,
        MetadataLot::Podcast,
        MetadataLot::Manga,
        MetadataLot::Movie,
        MetadataLot::Show,
        MetadataLot::VideoGame,
    ] {
        assert_eq!(
            page_kind_fits(MetadataSource::Tmdb, lot),
            matches!(lot, MetadataLot::Movie | MetadataLot::Show)
        );
        assert_eq!(
            page_kind_fits(MetadataSource::Anilist, lot),
            matches!(lot, MetadataLot::Anime | MetadataLot::Manga)
        );
        assert!(page_kind_fits(MetadataSource::Igdb, lot));
        assert!(page_kind_fits(MetadataSource::Custom, lot));
    }
    assert_eq!(get_provider(MetadataLot::Show, MetadataSource::Tmdb), Ok(Provider::TmdbShows));
    assert_eq!(get_provider(MetadataLot::Movie, MetadataSource::Tmdb), Ok(Provider::TmdbMovies));
    assert_eq!(get_provider(MetadataLot::Anime, MetadataSource::Anilist), Ok(Provider::AnilistAnime));
    assert_eq!(get_provider(MetadataLot::Manga, MetadataSource::Anilist), Ok(Provider::AnilistManga));
    assert_eq!(get_provider(MetadataLot::Book, MetadataSource::Openlibrary), Ok(Provider::Openlibrary));
    assert_eq!(get_provider(MetadataLot::Book, MetadataSource::GoogleBooks), Ok(Provider::GoogleBooks));
    assert_eq!(get_provider(MetadataLot::Podcast, MetadataSource::Itunes), Ok(Provider::Itunes));
    assert_eq!(get_provider(MetadataLot::Podcast, MetadataSource::Listennotes), Ok(Provider::Listennotes));
    assert_eq!(get_provider(MetadataLot::AudioBook, MetadataSource::Audible), Ok(Provider::Audible));
    assert_eq!(get_provider(MetadataLot::VideoGame, MetadataSource::Igdb), Ok(Provider::Igdb));
    assert_eq!(
        get_provider(MetadataLot::Book, MetadataSource::Custom),
        Err(ServiceError::ValidationError)
    );
}

#[test]
fn review_text_is_shown_as_html() {
    let stored = Review {
        id: 3,
        user_id: ANN,
        metadata_id: 9,
        posted_on: at(5),
        rating: Some(Decimal::new(75, 1)),
        text: Some("Hello *world*".to_string()),
        visibility: Visibility::Public,
        spoiler: true,
        extra_information: Some(SeenExtraInformation::Show(SeenShowExtraInformation {
            season: 2,
            episode: 4,
        })),
        identifier: None,
    };
    let item = review_item(&stored);
    assert_eq!(item.text, Some("<p>Hello <em>world</em></p>".to_string()));
    assert_eq!(item.id, 3);
    assert_eq!(item.posted_by, ANN);
    assert_eq!(item.posted_on, at(5));
    assert_eq!(item.rating, Some(Decimal::new(75, 1)));
    assert_eq!(item.visibility, Visibility::Public);
    assert!(item.spoiler);
    assert_eq!((item.season_number, item.episode_number, item.podcast_episode_id), (Some(2), Some(4), None));
    let podcast = Review {
        text: None,
        extra_information: Some(SeenExtraInformation::Podcast(SeenPodcastExtraInformation { episode: 8 })),
        ..stored.clone()
    };
    let item = review_item(&podcast);
    assert_eq!(item.text, None);
    assert_eq!((item.season_number, item.episode_number, item.podcast_episode_id), (None, None, Some(8)));
    let bare = Review { extra_information: None, text: Some("<b>x</b>".to_string()), ..stored };
    let item = review_item(&bare);
    assert_eq!(item.text, Some("<p>&lt;b&gt;x&lt;/b&gt;</p>".to_string()));
    assert_eq!((item.season_number, item.episode_number, item.podcast_episode_id), (None, None, None));
}

#[test]
fn reviews_are_listed_latest_first_to_those_who_may_read_them() {
    let mut service = MiscellaneousService::new();
    let item = book(&mut service);
    let other = book(&mut service);
    service.post_review_at(ANN, review(item, Some("first"), Visibility::Public, 10), at(0)).unwrap();
    service.post_review_at(ANN, review(item, Some("secret"), Visibility::Private, 30), at(0)).unwrap();
    service.post_review_at(BEN, review(item, None, Visibility::Public, 20), at(0)).unwrap();
    service.post_review_at(BEN, review(other, Some("elsewhere"), Visibility::Public, 40), at(0)).unwrap();
    service.post_review_at(BEN, review(item, Some("tie"), Visibility::Public, 20), at(0)).unwrap();
    let ids = |reader| -> Vec<i32> {
        service.media_item_reviews(reader, item).iter().map(|r| r.id).collect()
    };
    assert_eq!(ids(ANN), vec![2, 3, 5, 1]);
    assert_eq!(ids(BEN), vec![3, 5, 1]);
    assert_eq!(service.media_item_reviews(BEN, item)[2].text, Some("<p>first</p>".to_string()));
    assert!(service.media_item_reviews(ANN, 99).is_empty());
}

#[test]
fn history_is_listed_latest_first_with_display_fields() {
    let mut service = MiscellaneousService::new();
    let item = book(&mut service);
    let other = book(&mut service);
    let finished = |metadata_id| ProgressUpdateInput { date: None, ..report(metadata_id, 100) };
    service.progress_update_at(finished(item), ANN, today(), at(10)).unwrap();
    service.progress_update_at(finished(item), ANN, today(), at(30)).unwrap();
    service.progress_update_at(finished(other), ANN, today(), at(40)).unwrap();
    service.progress_update_at(finished(item), BEN, today(), at(50)).unwrap();
    service.progress_update_at(finished(item), ANN, today(), at(30)).unwrap();
    service.progress_update_at(report(item, 10), ANN, today(), at(20)).unwrap();
    let history = service.seen_history(item, ANN);
    let ids: Vec<i32> = history.iter().map(|r| r.id).collect();
    assert_eq!(ids, vec![2, 5, 6, 1]);
    assert_eq!(history[0], service.seen()[1]);
    assert!(service.seen_history(item, 3).is_empty());
    assert_eq!(service.seen_history(other, ANN).len(), 1);
}

#[test]
fn history_of_a_show_carries_the_episode_for_display() {
    let mut service = MiscellaneousService::new();
    let show = service
        .commit_media_internal(MediaDetails {
            identifier: "s".to_string(),
            title: "Show".to_string(),
            lot: MetadataLot::Show,
            source: MetadataSource::Tmdb,
            specifics: MediaSpecifics::Unknown,
        })
        .unwrap()
        .id;
    let input = ProgressUpdateInput {
        show_season_number: Some(3),
        show_episode_number: Some(4),
        ..report(show, 100)
    };
    service.progress_update_at(input, ANN, today(), at(1)).unwrap();
    assert_eq!(service.seen()[0].show_information, None);
    let history = service.seen_history(show, ANN);
    assert_eq!(
        history[0].show_information,
        Some(SeenShowExtraInformation { season: 3, episode: 4 })
    );
    assert_eq!(history[0].podcast_information, None);
}

#[test]
fn instants_are_ordered_latest_first_and_ties_keep_their_order() {
    assert_eq!(descending_order(&vec![]), Vec::<usize>::new());
    assert_eq!(descending_order(&vec![5]), vec![0]);
    assert_eq!(descending_order(&vec![1, 2, 3]), vec![2, 1, 0]);
    assert_eq!(descending_order(&vec![3, 2, 1]), vec![0, 1, 2]);
    assert_eq!(descending_order(&vec![2, 9, 2, -4, 9, i64::MIN, i64::MAX]), vec![6, 1, 4, 0, 2, 3, 5]);
    assert_eq!(descending_order(&vec![7, 7, 7]), vec![0, 1, 2]);
}

#[test]
fn collections_are_listed_with_their_sizes() {
    let mut service = MiscellaneousService::new();
    let item = book(&mut service);
    let other = book(&mut service);
    let named = |name: &str, description: Option<&str>| CreateOrUpdateCollectionInput {
        name: name.to_string(),
        description: description.map(|d| d.to_string()),
        visibility: None,
        update_id: None,
    };
    service.create_or_update_collection(ANN, named("Shelf", Some("mine"))).unwrap();
    service.create_or_update_collection(BEN, named("Shelf", None)).unwrap();
    service.create_or_update_collection(ANN, named("Pile", None)).unwrap();
    for (user, name, media) in [(ANN, "Shelf", item), (ANN, "Shelf", other), (BEN, "Shelf", item), (ANN, "Pile", other)] {
        let put = AddMediaToCollection { collection_name: name.to_string(), media_id: media };
        assert_eq!(service.add_media_to_collection(user, put), Ok(true));
    }
    assert_eq!(
        service.collection_list(ANN, &CollectionInput { name: None }),
        vec![
            CollectionItem {
                id: 1,
                name: "Shelf".to_string(),
                num_items: 2,
                description: Some("mine".to_string()),
                visibility: Visibility::Private,
            },
            CollectionItem {
                id: 3,
                name: "Pile".to_string(),
                num_items: 1,
                description: None,
                visibility: Visibility::Private,
            },
        ]
    );
    let pile = service.collection_list(ANN, &CollectionInput { name: Some("Pile".to_string()) });
    assert_eq!(pile.len(), 1);
    assert_eq!(pile[0].id, 3);
    assert!(service.collection_list(3, &CollectionInput { name: None }).is_empty());
    let holding: Vec<i32> = service.media_in_collections(ANN, other).iter().map(|c| c.id).collect();
    assert_eq!(holding, vec![1, 3]);
    let holding: Vec<i32> = service.media_in_collections(BEN, item).iter().map(|c| c.id).collect();
    assert_eq!(holding, vec![2]);
    assert!(service.media_in_collections(BEN, other).is_empty());
}

fn custom(lot: MetadataLot) -> CreateCustomMediaInput {
    CreateCustomMediaInput {
        title: "Home video".to_string(),
        lot,
        audio_book_specifics: None,
        book_specifics: Some(BookSpecifics { pages: Some(12) }),
        movie_specifics: Some(MovieSpecifics { runtime: Some(3) }),
        podcast_specifics: None,
        show_specifics: None,
        video_game_specifics: None,
        manga_specifics: None,
        anime_specifics: None,
    }
}

#[test]
fn custom_item_needs_the_details_of_its_kind() {
    assert_eq!(
        custom_specifics(custom(MetadataLot::Movie)),
        ("Home video".to_string(), Some(MediaSpecifics::Movie(MovieSpecifics { runtime: Some(3) })))
    );
    assert_eq!(
        custom_specifics(custom(MetadataLot::Book)).1,
        Some(MediaSpecifics::Book(BookSpecifics { pages: Some(12) }))
    );
    for lot in [
        MetadataLot::AudioBook,
        MetadataLot::Anime,
        MetadataLot::Podcast,
        MetadataLot::Manga,
        MetadataLot::Show,
        MetadataLot::VideoGame,
    ] {
        assert_eq!(custom_specifics(custom(lot)).1, None);
    }
}

#[test]
fn custom_item_is_stored_in_the_custom_collection() {
    let mut service = MiscellaneousService::new();
    let refused = CreateCustomMediaResult::Error(CreateCustomMediaError {
        error: CreateCustomMediaErrorVariant::LotDoesNotMatchSpecifics,
    });
    assert_eq!(service.create_custom_media(custom(MetadataLot::Show), ANN), Ok(refused));
    assert_eq!(
        service.create_custom_media(custom(MetadataLot::Movie), ANN),
        Err(ServiceError::NotFound)
    );
    assert!(service.metadata().is_empty());
    service.user_created_job(ANN);
    let stored = service.create_custom_media(custom(MetadataLot::Movie), ANN).unwrap();
    assert_eq!(stored, CreateCustomMediaResult::Stored(IdObject { id: 1 }));
    let item = &service.metadata()[0];
    assert_eq!(item.source, MetadataSource::Custom);
    assert_eq!(item.lot, MetadataLot::Movie);
    assert_eq!(item.title, "Home video");
    assert_eq!(item.specifics, MediaSpecifics::Movie(MovieSpecifics { runtime: Some(3) }));
    // a random identifier, written as a UUID
    assert_eq!(item.identifier.len(), 36);
    assert_eq!(item.identifier.matches('-').count(), 4);
    let custom_collection = service.collections().iter().find(|c| c.name == "Custom").unwrap().id;
    assert_eq!(service.memberships().len(), 1);
    assert_eq!(service.memberships()[0].collection_id, custom_collection);
    assert_eq!(service.memberships()[0].metadata_id, 1);
    service.create_custom_media(custom(MetadataLot::Book), ANN).unwrap();
    assert_ne!(service.metadata()[0].identifier, service.metadata()[1].identifier);
    let fixed = service.create_custom_media_as(custom(MetadataLot::Book), ANN, "fixed".to_string());
    assert_eq!(fixed, Ok(CreateCustomMediaResult::Stored(IdObject { id: 3 })));
    assert_eq!(service.metadata()[2].identifier, "fixed");
}

#[test]
fn features_take_effect_where_user_and_server_agree() {
    let all = UserFeaturesEnabledPreferences {
        anime: true,
        audio_books: true,
        books: true,
        manga: true,
        movies: true,
        podcasts: true,
        shows: true,
        video_games: true,
    };
    let mine = UserPreferences {
        features_enabled: UserFeaturesEnabledPreferences { anime: false, shows: false, ..all },
    };
    let server = UserFeaturesEnabledPreferences { books: false, shows: false, ..all };
    assert_eq!(
        mine.effective(&server).features_enabled,
        UserFeaturesEnabledPreferences { anime: false, books: false, shows: false, ..all }
    );
    assert_eq!(mine.effective(&all), mine);
    let switched = mine.update_user_feature_preference(UpdateUserFeaturePreferenceInput {
        property: MetadataLot::Anime,
        value: true,
    });
    assert_eq!(switched.features_enabled, UserFeaturesEnabledPreferences { shows: false, ..all });
    let off = switched.update_user_feature_preference(UpdateUserFeaturePreferenceInput {
        property: MetadataLot::VideoGame,
        value: false,
    });
    assert_eq!(
        off.features_enabled,
        UserFeaturesEnabledPreferences { shows: false, video_games: false, ..all }
    );
}

fn integration(id: usize, url: &str) -> UserYankIntegration {
    UserYankIntegration {
        id,
        settings: UserYankIntegrationSetting::Audiobookshelf {
            base_url: url.to_string(),
            token: "secret".to_string(),
        },
        timestamp: at(id as i64),
    }
}

#[test]
fn integrations_are_numbered_listed_and_deleted() {
    let mut integrations = Vec::new();
    let input = |url: &str| CreateUserYankIntegrationInput {
        lot: UserYankIntegrationLot::Audiobookshelf,
        base_url: url.to_string(),
        token: "secret".to_string(),
    };
    assert_eq!(create_user_yank_integration(&mut integrations, input("http://a"), at(1)), 1);
    assert_eq!(create_user_yank_integration(&mut integrations, input("http://b"), at(2)), 2);
    assert_eq!(integrations, vec![integration(1, "http://a"), integration(2, "http://b")]);
    assert_eq!(
        user_yank_integrations(integrations.clone()),
        vec![
            GraphqlUserYankIntegration {
                id: 1,
                lot: UserYankIntegrationLot::Audiobookshelf,
                description: "http://a".to_string(),
                timestamp: at(1),
            },
            GraphqlUserYankIntegration {
                id: 2,
                lot: UserYankIntegrationLot::Audiobookshelf,
                description: "http://b".to_string(),
                timestamp: at(2),
            },
        ]
    );
    assert!(user_yank_integrations(Vec::new()).is_empty());
    assert_eq!(
        delete_user_yank_integration(integrations.clone(), 1),
        Some(vec![integration(2, "http://b")])
    );
    assert_eq!(delete_user_yank_integration(integrations.clone(), 9), Some(integrations.clone()));
    assert_eq!(delete_user_yank_integration(vec![integration(2, "x"), integration(2, "y")], 2), None);
    assert_eq!(delete_user_yank_integration(Vec::new(), 1), None);
}

#[test]
fn fetched_progress_is_taken_between_one_and_ninety_five() {
    for (progress, taken) in [(0, false), (1, true), (50, true), (95, true), (96, false), (100, false), (-1, false)] {
        assert_eq!(is_yanked_progress(progress), taken);
    }
    assert_eq!(
        yanked_report(4, 33, today()),
        ProgressUpdateInput { date: Some(today()), ..report(4, 33) }
    );
}

#[test]
fn export_puts_the_identifier_in_the_field_of_its_provider() {
    let item = |source| Metadata {
        id: 5,
        lot: MetadataLot::Movie,
        source,
        identifier: "xyz".to_string(),
        title: "Title".to_string(),
        specifics: MediaSpecifics::Unknown,
    };
    let sources = [
        MetadataSource::Audible,
        MetadataSource::Custom,
        MetadataSource::Igdb,
        MetadataSource::Listennotes,
        MetadataSource::GoogleBooks,
        MetadataSource::Openlibrary,
        MetadataSource::Tmdb,
        MetadataSource::Itunes,
        MetadataSource::Anilist,
    ];
    for (place, source) in sources.iter().enumerate() {
        let exported = export_media(item(*source), Vec::new(), Vec::new());
        let fields = [
            &exported.audible_id,
            &exported.custom_id,
            &exported.igdb_id,
            &exported.listennotes_id,
            &exported.google_books_id,
            &exported.openlibrary_id,
            &exported.tmdb_id,
            &exported.itunes_id,
            &exported.anilist_id,
        ];
        for (i, field) in fields.iter().enumerate() {
            let expected = if i == place { Some("xyz".to_string()) } else { None };
            assert_eq!(**field, expected);
        }
        assert_eq!(exported.ryot_id, 5);
        assert_eq!(exported.title, "Title");
        assert_eq!(exported.lot, MetadataLot::Movie);
    }
}
