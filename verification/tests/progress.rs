use ryot::background::AfterMediaSeenJob;
use ryot::clock::{Date, Timestamp};
use ryot::error::ServiceError;
use ryot::media::{
    BookSpecifics, IdObject, MediaDetails, MediaSpecifics, MetadataLot, MetadataSource,
    MovieSpecifics, PodcastEpisode, PodcastSpecifics, ShowEpisode, ShowSeason, ShowSpecifics,
};
use ryot::progress::{
    find_active, find_replayed, locate, plan_progress_update, ProgressPlan, ProgressUpdateAction,
    ProgressUpdateInput,
};
use ryot::seen::{
    SeenExtraInformation, SeenPodcastExtraInformation, SeenRecord, SeenShowExtraInformation,
};
use ryot::service::MiscellaneousService;

const USER: i32 = 7;

fn today() -> Date {
    Date { days_from_ce: 738_000 }
}

fn yesterday() -> Date {
    Date { days_from_ce: 737_999 }
}

fn at(micros: i64) -> Timestamp {
    Timestamp { micros }
}

fn details(lot: MetadataLot, specifics: MediaSpecifics, title: &str) -> MediaDetails {
    MediaDetails {
        identifier: format!("provider-{title}"),
        title: title.to_string(),
        lot,
        source: MetadataSource::Custom,
        specifics,
    }
}

fn with_book(service: &mut MiscellaneousService) -> i32 {
    service
        .commit_media_internal(details(
            MetadataLot::Book,
            MediaSpecifics::Book(BookSpecifics { pages: Some(300) }),
            "book",
        ))
        .unwrap()
        .id
}

fn with_show(service: &mut MiscellaneousService) -> i32 {
    let show = ShowSpecifics {
        seasons: vec![ShowSeason {
            id: 11,
            season_number: 1,
            episodes: vec![
                ShowEpisode { id: 101, episode_number: 1, runtime: Some(40) },
                ShowEpisode { id: 102, episode_number: 2, runtime: None },
            ],
        }],
    };
    service
        .commit_media_internal(details(MetadataLot::Show, MediaSpecifics::Show(show), "show"))
        .unwrap()
        .id
}

fn with_podcast(service: &mut MiscellaneousService) -> i32 {
    let podcast = PodcastSpecifics {
        episodes: vec![PodcastEpisode { id: "ep-1".to_string(), number: 1, runtime: Some(30) }],
    };
    service
        .commit_media_internal(details(
            MetadataLot::Podcast,
            MediaSpecifics::Podcast(podcast),
            "podcast",
        ))
        .unwrap()
        .id
}

fn report(metadata_id: i32, progress: Option<i32>, date: Option<Date>) -> ProgressUpdateInput {
    ProgressUpdateInput {
        metadata_id,
        progress,
        date,
        show_season_number: None,
        show_episode_number: None,
        podcast_episode_number: None,
        identifier: None,
    }
}

fn keyed(mut input: ProgressUpdateInput, key: &str) -> ProgressUpdateInput {
    input.identifier = Some(key.to_string());
    input
}

fn record(id: i32, user_id: i32, metadata_id: i32, progress: i32, updated: i64) -> SeenRecord {
    SeenRecord {
        id,
        user_id,
        metadata_id,
        progress,
        started_on: None,
        finished_on: if progress == 100 { Some(yesterday()) } else { None },
        dropped: false,
        last_updated_on: at(updated),
        identifier: None,
        extra_information: None,
        show_information: None,
        podcast_information: None,
    }
}

#[test]
fn finishing_on_another_day_is_in_the_past() {
    for has_active in [false, true] {
        assert_eq!(
            ProgressUpdateAction::of(Some(100), Some(yesterday()), today(), has_active),
            ProgressUpdateAction::InThePast
        );
        assert_eq!(
            ProgressUpdateAction::of(Some(100), None, today(), has_active),
            ProgressUpdateAction::InThePast
        );
    }
}

#[test]
fn classification_follows_progress_date_and_active_record() {
    let t = today();
    assert_eq!(ProgressUpdateAction::of(None, None, t, false), ProgressUpdateAction::Drop);
    assert_eq!(ProgressUpdateAction::of(None, Some(t), t, true), ProgressUpdateAction::Drop);
    assert_eq!(ProgressUpdateAction::of(Some(100), Some(t), t, false), ProgressUpdateAction::Now);
    assert_eq!(ProgressUpdateAction::of(Some(100), Some(t), t, true), ProgressUpdateAction::Update);
    assert_eq!(ProgressUpdateAction::of(Some(0), None, t, false), ProgressUpdateAction::JustStarted);
    assert_eq!(ProgressUpdateAction::of(Some(99), Some(t), t, false), ProgressUpdateAction::JustStarted);
    assert_eq!(ProgressUpdateAction::of(Some(50), None, t, true), ProgressUpdateAction::Update);
}

#[test]
fn every_partial_progress_without_active_record_just_starts() {
    for progress in 1..=99 {
        let mut service = MiscellaneousService::new();
        let book = with_book(&mut service);
        assert_eq!(
            ProgressUpdateAction::of(Some(progress), None, today(), false),
            ProgressUpdateAction::JustStarted
        );
        let answer = service
            .progress_update_at(report(book, Some(progress), None), USER, today(), at(5))
            .unwrap();
        assert_eq!(service.seen().len(), 1);
        let created = &service.seen()[0];
        assert_eq!(answer, IdObject { id: created.id });
        assert_eq!(created.user_id, USER);
        assert_eq!(created.metadata_id, book);
        assert_eq!(created.progress, 0);
        assert_eq!(created.started_on, Some(today()));
        assert_eq!(created.finished_on, None);
        assert!(!created.dropped);
        assert_eq!(created.last_updated_on, at(5));
    }
}

#[test]
fn finishing_today_without_active_record_is_now() {
    let mut service = MiscellaneousService::new();
    let book = with_book(&mut service);
    let answer = service
        .progress_update_at(report(book, Some(100), Some(today())), USER, today(), at(9))
        .unwrap();
    assert_eq!(answer, IdObject { id: 1 });
    let created = &service.seen()[0];
    assert_eq!(created.progress, 100);
    assert_eq!(created.finished_on, Some(today()));
    assert_eq!(created.started_on, None);
}

#[test]
fn finishing_yesterday_creates_a_record_beside_the_active_one() {
    let mut service = MiscellaneousService::new();
    let book = with_book(&mut service);
    service.progress_update_at(report(book, Some(10), None), USER, today(), at(1)).unwrap();
    let answer = service
        .progress_update_at(report(book, Some(100), Some(yesterday())), USER, today(), at(2))
        .unwrap();
    assert_eq!(answer, IdObject { id: 2 });
    assert_eq!(service.seen().len(), 2);
    assert_eq!(service.seen()[0].progress, 0);
    assert_eq!(service.seen()[0].finished_on, None);
    assert_eq!(service.seen()[1].progress, 100);
    assert_eq!(service.seen()[1].finished_on, Some(today()));
    assert_eq!(service.seen()[1].started_on, None);
}

#[test]
fn report_on_active_record_updates_it() {
    let mut service = MiscellaneousService::new();
    let book = with_book(&mut service);
    service.progress_update_at(report(book, Some(10), None), USER, today(), at(1)).unwrap();
    service.progress_update_at(report(book, Some(40), None), USER, today(), at(2)).unwrap();
    assert_eq!(service.seen()[0].progress, 40);
    let answer =
        service.progress_update_at(report(book, Some(60), None), USER, today(), at(3)).unwrap();
    assert_eq!(answer, IdObject { id: 1 });
    assert_eq!(service.seen().len(), 1);
    let updated = &service.seen()[0];
    assert_eq!(updated.progress, 60);
    assert_eq!(updated.finished_on, None);
    assert_eq!(updated.started_on, Some(today()));
    assert_eq!(updated.last_updated_on, at(3));
}

#[test]
fn finishing_today_with_active_record_completes_it() {
    let mut service = MiscellaneousService::new();
    let book = with_book(&mut service);
    service.progress_update_at(report(book, Some(10), None), USER, yesterday(), at(1)).unwrap();
    let answer = service
        .progress_update_at(report(book, Some(100), Some(today())), USER, today(), at(2))
        .unwrap();
    assert_eq!(answer, IdObject { id: 1 });
    assert_eq!(service.seen().len(), 1);
    assert_eq!(service.seen()[0].progress, 100);
    assert_eq!(service.seen()[0].finished_on, Some(today()));
    assert_eq!(service.seen()[0].started_on, Some(yesterday()));
}

#[test]
fn dropping_without_active_record_is_a_state_conflict() {
    let mut service = MiscellaneousService::new();
    let book = with_book(&mut service);
    let result = service.progress_update_at(report(book, None, None), USER, today(), at(1));
    assert_eq!(result, Err(ServiceError::StateConflict));
    assert!(service.seen().is_empty());
    assert!(service.after_media_seen().is_empty());
}

#[test]
fn dropping_marks_the_active_record() {
    let mut service = MiscellaneousService::new();
    let book = with_book(&mut service);
    service.progress_update_at(report(book, Some(10), None), USER, today(), at(1)).unwrap();
    let answer = service.progress_update_at(report(book, None, None), USER, today(), at(2)).unwrap();
    assert_eq!(answer, IdObject { id: 1 });
    assert!(service.seen()[0].dropped);
    assert_eq!(service.seen()[0].last_updated_on, at(2));
    assert_eq!(service.seen()[0].progress, 0);
    // nothing is under way any more
    assert_eq!(
        service.progress_update_at(report(book, None, None), USER, today(), at(3)),
        Err(ServiceError::StateConflict)
    );
    // and a new report begins anew
    let again =
        service.progress_update_at(report(book, Some(5), None), USER, today(), at(4)).unwrap();
    assert_eq!(again, IdObject { id: 2 });
}

#[test]
fn same_identifier_is_not_applied_twice() {
    let mut service = MiscellaneousService::new();
    let _other = with_book(&mut service);
    let book = with_book(&mut service);
    assert_eq!(book, 2);
    let first = service
        .progress_update_at(
            keyed(report(book, Some(100), Some(yesterday())), "key-1"),
            USER,
            today(),
            at(1),
        )
        .unwrap();
    assert_eq!(first, IdObject { id: 1 });
    assert_eq!(service.seen().len(), 1);
    assert_eq!(service.after_media_seen().len(), 1);
    let second = service
        .progress_update_at(
            keyed(report(book, Some(100), Some(yesterday())), "key-1"),
            USER,
            today(),
            at(2),
        )
        .unwrap();
    // the replay is answered with the item of the stored report
    assert_eq!(second, IdObject { id: book });
    assert_eq!(service.seen().len(), 1);
    assert_eq!(service.after_media_seen().len(), 1);
    assert_eq!(service.seen()[0].last_updated_on, at(1));
    let third = service
        .progress_update_at(keyed(report(book, None, None), "key-1"), 99, yesterday(), at(3))
        .unwrap();
    assert_eq!(third, second);
    assert_eq!(service.seen().len(), 1);
}

#[test]
fn identifier_equal_to_item_gives_same_answer_twice() {
    let mut service = MiscellaneousService::new();
    let book = with_book(&mut service);
    assert_eq!(book, 1);
    let input = keyed(report(book, Some(30), None), "again");
    let first = service.progress_update_at(input.clone(), USER, today(), at(1)).unwrap();
    let second = service.progress_update_at(input, USER, today(), at(2)).unwrap();
    assert_eq!(first, second);
    assert_eq!(service.seen().len(), 1);
}

#[test]
fn reports_without_identifier_are_never_replays() {
    let mut service = MiscellaneousService::new();
    let book = with_book(&mut service);
    let input = report(book, Some(100), Some(yesterday()));
    service.progress_update_at(input.clone(), USER, today(), at(1)).unwrap();
    service.progress_update_at(input, USER, today(), at(2)).unwrap();
    assert_eq!(service.seen().len(), 2);
}

#[test]
fn progress_out_of_range_is_a_validation_error() {
    let mut service = MiscellaneousService::new();
    let book = with_book(&mut service);
    for progress in [-1, 101, i32::MIN, i32::MAX] {
        assert_eq!(
            service.progress_update_at(report(book, Some(progress), None), USER, today(), at(1)),
            Err(ServiceError::ValidationError)
        );
    }
    assert!(service.seen().is_empty());
    for progress in [0, 100] {
        assert!(service
            .progress_update_at(report(book, Some(progress), None), USER, today(), at(1))
            .is_ok());
    }
}

#[test]
fn report_on_unknown_item_is_not_found() {
    let mut service = MiscellaneousService::new();
    assert_eq!(
        service.progress_update_at(report(42, Some(10), None), USER, today(), at(1)),
        Err(ServiceError::NotFound)
    );
    assert_eq!(
        service.progress_update_at(report(42, Some(100), Some(today())), USER, today(), at(1)),
        Err(ServiceError::NotFound)
    );
    assert!(service.seen().is_empty());
    assert!(service.after_media_seen().is_empty());
}

#[test]
fn dropping_on_unknown_item_is_a_state_conflict() {
    let mut service = MiscellaneousService::new();
    assert_eq!(
        service.progress_update_at(report(42, None, None), USER, today(), at(1)),
        Err(ServiceError::StateConflict)
    );
    assert_eq!(
        service.progress_update_at(keyed(report(42, None, None), "k"), USER, today(), at(1)),
        Err(ServiceError::StateConflict)
    );
    assert!(service.seen().is_empty());
    assert!(service.after_media_seen().is_empty());
    // the plan says the same, with or without the kind of the item
    for lot in [None, Some(MetadataLot::Book), Some(MetadataLot::Show)] {
        assert_eq!(
            plan_progress_update(&Vec::new(), lot, report(42, None, None), USER, 1, today(), at(1)),
            Err(ServiceError::StateConflict)
        );
    }
}

#[test]
fn dropping_beside_finished_and_dropped_records_is_a_state_conflict() {
    let records = vec![
        record(1, USER, 3, 100, 100),
        SeenRecord { dropped: true, ..record(2, USER, 3, 40, 200) },
        record(3, USER, 4, 10, 300),
        record(4, 8, 3, 10, 400),
    ];
    for lot in [None, Some(MetadataLot::Movie)] {
        assert_eq!(
            plan_progress_update(&records, lot, report(3, None, None), USER, 5, today(), at(500)),
            Err(ServiceError::StateConflict)
        );
    }
    // with a record under way the item must be known, for the job that is left
    assert_eq!(
        plan_progress_update(&records, None, report(4, None, None), USER, 5, today(), at(500)),
        Err(ServiceError::NotFound)
    );
    assert_eq!(
        plan_progress_update(&records, Some(MetadataLot::Movie), report(4, None, None), USER, 5, today(), at(500)),
        Ok(ProgressPlan::Abandon { index: 2, last_updated_on: at(500) })
    );
    assert_eq!(
        plan_progress_update(&records, None, report(4, Some(50), None), USER, 5, today(), at(500)),
        Err(ServiceError::NotFound)
    );
}

#[test]
fn show_needs_season_and_episode() {
    let mut service = MiscellaneousService::new();
    let show = with_show(&mut service);
    let mut input = report(show, Some(100), Some(today()));
    assert_eq!(
        service.progress_update_at(input.clone(), USER, today(), at(1)),
        Err(ServiceError::ValidationError)
    );
    input.show_season_number = Some(1);
    assert_eq!(
        service.progress_update_at(input.clone(), USER, today(), at(1)),
        Err(ServiceError::ValidationError)
    );
    input.show_episode_number = Some(2);
    assert!(service.seen().is_empty());
    service.progress_update_at(input, USER, today(), at(1)).unwrap();
    assert_eq!(
        service.seen()[0].extra_information,
        Some(SeenExtraInformation::Show(SeenShowExtraInformation { season: 1, episode: 2 }))
    );
}

#[test]
fn podcast_needs_episode() {
    let mut service = MiscellaneousService::new();
    let podcast = with_podcast(&mut service);
    let mut input = report(podcast, Some(20), None);
    assert_eq!(
        service.progress_update_at(input.clone(), USER, today(), at(1)),
        Err(ServiceError::ValidationError)
    );
    input.podcast_episode_number = Some(1);
    service.progress_update_at(input, USER, today(), at(1)).unwrap();
    assert_eq!(
        service.seen()[0].extra_information,
        Some(SeenExtraInformation::Podcast(SeenPodcastExtraInformation { episode: 1 }))
    );
}

#[test]
fn other_kinds_take_no_locator() {
    let input = ProgressUpdateInput {
        show_season_number: Some(1),
        show_episode_number: Some(1),
        podcast_episode_number: Some(1),
        ..report(1, Some(10), None)
    };
    for lot in [
        MetadataLot::AudioBook,
        MetadataLot::Anime,
        MetadataLot::Book,
        MetadataLot::Manga,
        MetadataLot::Movie,
        MetadataLot::VideoGame,
    ] {
        assert_eq!(locate(lot, &input), Ok(None));
    }
}

#[test]
fn update_or_create_leaves_a_job_with_the_record() {
    let mut service = MiscellaneousService::new();
    let book = with_book(&mut service);
    service.progress_update_at(report(book, Some(10), None), USER, today(), at(1)).unwrap();
    service.progress_update_at(report(book, Some(70), None), USER, today(), at(2)).unwrap();
    let jobs = service.after_media_seen();
    assert_eq!(jobs.len(), 2);
    assert_eq!(jobs[0].metadata_lot, MetadataLot::Book);
    assert_eq!(jobs[0].seen.progress, 0);
    assert_eq!(
        jobs[1],
        AfterMediaSeenJob { seen: service.seen()[0].clone(), metadata_lot: MetadataLot::Book }
    );
    assert_eq!(jobs[1].seen.progress, 70);
}

#[test]
fn records_of_other_users_and_items_are_not_active() {
    let mut service = MiscellaneousService::new();
    let book = with_book(&mut service);
    let other = with_book(&mut service);
    service.progress_update_at(report(book, Some(10), None), 1, today(), at(1)).unwrap();
    service.progress_update_at(report(other, Some(10), None), 2, today(), at(2)).unwrap();
    // user 2 has nothing under way on `book`
    service.progress_update_at(report(book, Some(50), None), 2, today(), at(3)).unwrap();
    assert_eq!(service.seen().len(), 3);
    assert_eq!(service.seen()[2].user_id, 2);
    assert_eq!(service.seen()[2].metadata_id, book);
    assert_eq!(service.seen()[2].progress, 0);
    assert_eq!(service.seen()[0].progress, 0);
}

#[test]
fn the_most_recently_updated_record_is_the_active_one() {
    let records = vec![
        record(1, USER, 3, 20, 100),
        record(2, USER, 3, 100, 900),
        record(3, USER, 3, 30, 300),
        record(4, USER, 4, 30, 800),
        record(5, 8, 3, 30, 700),
        record(6, USER, 3, 10, 300),
        SeenRecord { dropped: true, ..record(7, USER, 3, 50, 600) },
    ];
    assert_eq!(find_active(&records, USER, 3), Some(2));
    assert_eq!(find_active(&records, USER, 4), Some(3));
    assert_eq!(find_active(&records, 8, 3), Some(4));
    assert_eq!(find_active(&records, 8, 4), None);
    assert_eq!(find_active(&Vec::new(), USER, 3), None);
    let plan =
        plan_progress_update(&records, Some(MetadataLot::Movie), report(3, Some(45), None), USER, 8, today(), at(1000));
    assert_eq!(
        plan,
        Ok(ProgressPlan::Advance {
            index: 2,
            progress: 45,
            completes_on: None,
            last_updated_on: at(1000)
        })
    );
    let mut after = records.clone();
    assert_eq!(plan.unwrap().apply(&mut after), Some(2));
    assert_eq!(after[2], SeenRecord { progress: 45, last_updated_on: at(1000), ..records[2].clone() });
    assert_eq!(after[0], records[0]);
    assert_eq!(after[5], records[5]);
}

#[test]
fn replay_is_found_by_key_only() {
    let mut records = vec![record(1, USER, 3, 20, 100), record(2, 9, 5, 100, 200), record(3, 9, 6, 100, 300)];
    records[1].identifier = Some("k".to_string());
    records[2].identifier = Some("k".to_string());
    assert_eq!(find_replayed(&records, &Some("k".to_string())), Some(1));
    assert_eq!(find_replayed(&records, &Some("K".to_string())), None);
    assert_eq!(find_replayed(&records, &None), None);
    // a replay comes before every other check
    let plan = plan_progress_update(
        &records,
        None,
        keyed(report(77, Some(1000), None), "k"),
        USER,
        4,
        today(),
        at(1),
    );
    assert_eq!(plan, Ok(ProgressPlan::Replay { metadata_id: 5 }));
    let mut after = records.clone();
    assert_eq!(plan.unwrap().apply(&mut after), None);
    assert_eq!(after, records);
}

#[test]
fn plan_creates_with_the_given_identity() {
    let plan = plan_progress_update(
        &Vec::new(),
        Some(MetadataLot::Movie),
        keyed(report(3, Some(100), None), "m"),
        USER,
        41,
        today(),
        at(6),
    )
    .unwrap();
    let expected = SeenRecord {
        id: 41,
        user_id: USER,
        metadata_id: 3,
        progress: 100,
        started_on: None,
        finished_on: Some(today()),
        dropped: false,
        last_updated_on: at(6),
        identifier: Some("m".to_string()),
        extra_information: None,
        show_information: None,
        podcast_information: None,
    };
    assert_eq!(plan, ProgressPlan::Create { record: expected.clone() });
    let mut records = Vec::new();
    assert_eq!(plan.apply(&mut records), Some(0));
    assert_eq!(records, vec![expected]);
}

#[test]
fn clock_report_uses_the_current_day() {
    let mut service = MiscellaneousService::new();
    let movie = service
        .commit_media_internal(details(
            MetadataLot::Movie,
            MediaSpecifics::Movie(MovieSpecifics { runtime: Some(90) }),
            "movie",
        ))
        .unwrap()
        .id;
    let before = chrono::Utc::now();
    service.progress_update(report(movie, Some(25), None), USER).unwrap();
    let after = chrono::Utc::now();
    let created = &service.seen()[0];
    let started = created.started_on.unwrap().days_from_ce;
    let low = chrono::Datelike::num_days_from_ce(&before.date_naive());
    let high = chrono::Datelike::num_days_from_ce(&after.date_naive());
    assert!(low <= started && started <= high);
    assert!(started > 730_000);
    assert!(before.timestamp_micros() <= created.last_updated_on.micros);
    assert!(created.last_updated_on.micros <= after.timestamp_micros());
    // a report dated today on the record under way completes it
    let today = created.started_on.unwrap();
    service.progress_update(report(movie, Some(100), Some(today)), USER).unwrap();
    if high == low {
        assert_eq!(service.seen().len(), 1);
        assert_eq!(service.seen()[0].progress, 100);
        assert_eq!(service.seen()[0].finished_on, Some(today));
    }
}
