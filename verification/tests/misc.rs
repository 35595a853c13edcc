use ryot::clock::Timestamp;
use ryot::collection::CreateOrUpdateCollectionInput;
use ryot::error::ServiceError;
use ryot::media::{
    BookSpecifics, MediaDetails, MediaSpecifics, Metadata, MetadataLot, MetadataSource,
};
use ryot::progress::ProgressUpdateInput;
use ryot::resolver::{MiscellaneousMutation, MiscellaneousQuery};
use ryot::search::{next_page, search_results, ExercisesListInput, SearchResults, PAGE_LIMIT};
use ryot::seen::{
    modify_seen_elements, SeenExtraInformation, SeenPodcastExtraInformation, SeenRecord,
    SeenShowExtraInformation,
};
use ryot::service::MiscellaneousService;
use ryot::summary::UserMediaSummary;

fn plain(id: i32, extra: Option<SeenExtraInformation>) -> SeenRecord {
    SeenRecord {
        id,
        user_id: 1,
        metadata_id: 1,
        progress: 100,
        started_on: None,
        finished_on: None,
        dropped: false,
        last_updated_on: Timestamp { micros: 0 },
        identifier: None,
        extra_information: extra,
        show_information: None,
        podcast_information: None,
    }
}

#[test]
fn display_fields_are_filled_from_the_locator() {
    let show = SeenShowExtraInformation { season: 2, episode: 3 };
    let podcast = SeenPodcastExtraInformation { episode: 9 };
    let stale = SeenRecord {
        podcast_information: Some(podcast),
        ..plain(4, Some(SeenExtraInformation::Show(show)))
    };
    let mut all = vec![
        plain(1, Some(SeenExtraInformation::Show(show))),
        plain(2, None),
        plain(3, Some(SeenExtraInformation::Podcast(podcast))),
        stale.clone(),
    ];
    modify_seen_elements(&mut all);
    assert_eq!(
        all,
        vec![
            SeenRecord { show_information: Some(show), ..plain(1, Some(SeenExtraInformation::Show(show))) },
            plain(2, None),
            SeenRecord {
                podcast_information: Some(podcast),
                ..plain(3, Some(SeenExtraInformation::Podcast(podcast)))
            },
            SeenRecord { show_information: Some(show), ..stale },
        ]
    );
    let mut none: Vec<SeenRecord> = Vec::new();
    modify_seen_elements(&mut none);
    assert!(none.is_empty());
}

#[test]
fn copy_of_a_record_equals_it() {
    let original = SeenRecord {
        identifier: Some("key".to_string()),
        ..plain(1, Some(SeenExtraInformation::Podcast(SeenPodcastExtraInformation { episode: 1 })))
    };
    assert_eq!(original.duplicate(), original);
    assert_eq!(plain(2, None).duplicate(), plain(2, None));
}

#[test]
fn following_page_exists_while_items_are_left() {
    assert_eq!(PAGE_LIMIT, 20);
    assert_eq!(next_page(45, 1), Some(2));
    assert_eq!(next_page(45, 2), Some(3));
    assert_eq!(next_page(45, 3), None);
    assert_eq!(next_page(40, 2), None);
    assert_eq!(next_page(41, 2), Some(3));
    assert_eq!(next_page(0, 1), None);
    assert_eq!(next_page(1, 0), Some(1));
    assert_eq!(next_page(0, -1), Some(0));
    assert_eq!(next_page(i32::MAX, i32::MAX), None);
    assert_eq!(next_page(i32::MIN, i32::MIN), Some(i32::MIN + 1));
    assert_eq!(next_page(i32::MAX, 107_374_182), Some(107_374_183));
    assert_eq!(next_page(i32::MAX, 107_374_183), None);
}

#[test]
fn offset_counts_the_items_before_the_page() {
    let input = |page| ExercisesListInput { page, query: None };
    assert_eq!(input(1).offset(), Some(0));
    assert_eq!(input(2).offset(), Some(20));
    assert_eq!(input(i32::MAX).offset(), Some(42_949_672_920));
    assert_eq!(input(0).offset(), None);
    assert_eq!(input(-3).offset(), None);
}

#[test]
fn search_results_carry_items_and_following_page() {
    let results = search_results(21, vec!["a", "b"], 1);
    assert_eq!(results, SearchResults { total: 21, items: vec!["a", "b"], next_page: Some(2) });
    let last: SearchResults<u8> = search_results(21, vec![], 2);
    assert_eq!(last.next_page, None);
}

#[test]
fn sources_for_each_kind() {
    let service = MiscellaneousService::new();
    let query = MiscellaneousQuery;
    let expect = |lot, sources: Vec<MetadataSource>| {
        assert_eq!(service.media_sources_for_lot(lot), sources);
        assert_eq!(query.media_sources_for_lot(&service, lot), sources);
    };
    expect(MetadataLot::AudioBook, vec![MetadataSource::Audible]);
    expect(MetadataLot::Book, vec![MetadataSource::Openlibrary, MetadataSource::GoogleBooks]);
    expect(MetadataLot::Podcast, vec![MetadataSource::Itunes, MetadataSource::Listennotes]);
    expect(MetadataLot::VideoGame, vec![MetadataSource::Igdb]);
    expect(MetadataLot::Anime, vec![MetadataSource::Anilist]);
    expect(MetadataLot::Manga, vec![MetadataSource::Anilist]);
    expect(MetadataLot::Movie, vec![MetadataSource::Tmdb]);
    expect(MetadataLot::Show, vec![MetadataSource::Tmdb]);
}

#[test]
fn every_error_has_its_message() {
    assert_eq!(ServiceError::NotFound.message(), "The record does not exist");
    assert_eq!(ServiceError::ValidationError.message(), "The input is not valid");
    assert_eq!(ServiceError::StateConflict.message(), "There is no `seen` item underway");
    assert_eq!(ServiceError::Unauthorized.message(), "This item does not belong to this user");
    assert_eq!(
        ServiceError::StorageError.message(),
        "The storage could not complete the operation"
    );
    assert_eq!(ServiceError::DefaultCollection.message(), "Can not delete a default collection");
}

#[test]
fn stored_items_take_identities_in_order() {
    let mut service = MiscellaneousService::new();
    let details = MediaDetails {
        identifier: "OL1".to_string(),
        title: "One".to_string(),
        lot: MetadataLot::Book,
        source: MetadataSource::Openlibrary,
        specifics: MediaSpecifics::Book(BookSpecifics { pages: Some(5) }),
    };
    assert_eq!(service.commit_media_internal(details.clone()).unwrap().id, 1);
    assert_eq!(service.commit_media_internal(details).unwrap().id, 2);
    assert_eq!(
        service.metadata()[1],
        Metadata {
            id: 2,
            lot: MetadataLot::Book,
            source: MetadataSource::Openlibrary,
            identifier: "OL1".to_string(),
            title: "One".to_string(),
            specifics: MediaSpecifics::Book(BookSpecifics { pages: Some(5) }),
        }
    );
    assert_eq!(service.deploy_update_metadata_job(2), Ok(()));
    assert_eq!(service.deploy_update_metadata_job(3), Err(ServiceError::NotFound));
    assert_eq!(service.update_metadata().len(), 1);
    assert_eq!(service.update_metadata()[0].metadata_id, 2);
}

#[test]
fn callers_who_are_not_logged_in_are_refused() {
    let mut service = MiscellaneousService::new();
    let mutation = MiscellaneousMutation;
    let query = MiscellaneousQuery;
    let input = ProgressUpdateInput {
        metadata_id: 1,
        progress: Some(10),
        date: None,
        show_season_number: None,
        show_episode_number: None,
        podcast_episode_number: None,
        identifier: None,
    };
    assert_eq!(
        mutation.progress_update(&mut service, None, input.clone()),
        Err(ServiceError::Unauthorized)
    );
    assert_eq!(mutation.delete_seen_item(&mut service, None, 1), Err(ServiceError::Unauthorized));
    assert_eq!(mutation.delete_collection(&mut service, None, "x"), Err(ServiceError::Unauthorized));
    assert_eq!(mutation.delete_review(&mut service, None, 1), Err(ServiceError::Unauthorized));
    assert_eq!(mutation.regenerate_user_summary(&mut service, None), Err(ServiceError::Unauthorized));
    assert_eq!(
        mutation.remove_media_from_collection(&mut service, None, 1, "x"),
        Err(ServiceError::Unauthorized)
    );
    assert_eq!(query.user_summary(&service, None), Err(ServiceError::Unauthorized));
    let shelf = CreateOrUpdateCollectionInput {
        name: "Shelf".to_string(),
        description: None,
        visibility: None,
        update_id: None,
    };
    assert_eq!(
        mutation.create_or_update_collection(&mut service, None, shelf.clone()),
        Err(ServiceError::Unauthorized)
    );
    assert!(service.collections().is_empty());
    assert!(service.recalculate_user_summary().is_empty());

    // logged in, the operations go through
    assert_eq!(mutation.create_or_update_collection(&mut service, Some(4), shelf).unwrap().id, 1);
    assert_eq!(mutation.delete_collection(&mut service, Some(4), "Shelf"), Ok(true));
    assert_eq!(mutation.progress_update(&mut service, Some(4), input), Err(ServiceError::NotFound));
    assert_eq!(mutation.regenerate_user_summary(&mut service, Some(4)), Ok(true));
    assert_eq!(query.user_summary(&service, Some(4)).unwrap().media, UserMediaSummary::new());
    assert_eq!(mutation.merge_metadata(&mut service, 1, 2), Err(ServiceError::NotFound));
    assert_eq!(mutation.deploy_update_metadata_job(&mut service, 1), Err(ServiceError::NotFound));
}
