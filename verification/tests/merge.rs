use ryot::clock::{Date, Timestamp};
use ryot::collection::Visibility;
use ryot::error::ServiceError;
use ryot::media::{
    BookSpecifics, MediaDetails, MediaSpecifics, MetadataLot, MetadataSource,
};
use ryot::progress::ProgressUpdateInput;
use ryot::review::{can_read, PostReviewInput, Review};
use ryot::seen::{SeenExtraInformation, SeenRecord, SeenShowExtraInformation};
use ryot::service::MiscellaneousService;
use rust_decimal::Decimal;

const ANN: i32 = 1;
const BEN: i32 = 2;

fn today() -> Date {
    Date { days_from_ce: 738_000 }
}

fn at(micros: i64) -> Timestamp {
    Timestamp { micros }
}

fn item(service: &mut MiscellaneousService, title: &str) -> i32 {
    service
        .commit_media_internal(MediaDetails {
            identifier: title.to_lowercase(),
            title: title.to_string(),
            lot: MetadataLot::Book,
            source: MetadataSource::Openlibrary,
            specifics: MediaSpecifics::Book(BookSpecifics { pages: Some(10) }),
        })
        .unwrap()
        .id
}

fn report(metadata_id: i32, progress: i32, key: Option<&str>) -> ProgressUpdateInput {
    ProgressUpdateInput {
        metadata_id,
        progress: Some(progress),
        date: None,
        show_season_number: None,
        show_episode_number: None,
        podcast_episode_number: None,
        identifier: key.map(|k| k.to_string()),
    }
}

fn review(metadata_id: i32, text: &str) -> PostReviewInput {
    PostReviewInput {
        rating: Some(Decimal::new(45, 1)),
        text: Some(text.to_string()),
        visibility: None,
        spoiler: None,
        metadata_id,
        date: None,
        review_id: None,
        season_number: None,
        episode_number: None,
        identifier: None,
    }
}

#[test]
fn merging_moves_every_seen_record_and_review() {
    let mut service = MiscellaneousService::new();
    let a = item(&mut service, "A");
    let b = item(&mut service, "B");
    let c = item(&mut service, "C");
    service.progress_update_at(report(a, 100, Some("a1")), ANN, today(), at(1)).unwrap();
    service.progress_update_at(report(b, 100, None), ANN, today(), at(2)).unwrap();
    service.progress_update_at(report(a, 30, None), BEN, today(), at(3)).unwrap();
    service.progress_update_at(report(c, 100, None), BEN, today(), at(4)).unwrap();
    service.progress_update_at(report(a, 100, None), BEN, today(), at(5)).unwrap();
    service.post_review_at(ANN, review(a, "on a"), at(6)).unwrap();
    service.post_review_at(BEN, review(b, "on b"), at(7)).unwrap();
    service.post_review_at(BEN, review(a, "also on a"), at(8)).unwrap();
    let seen_before: Vec<SeenRecord> = service.seen().clone();
    let reviews_before: Vec<Review> = service.reviews().clone();

    assert_eq!(service.merge_metadata(a, b), Ok(true));

    // nothing refers to A, and A is gone
    assert!(service.seen().iter().all(|r| r.metadata_id != a));
    assert!(service.reviews().iter().all(|r| r.metadata_id != a));
    assert!(service.metadata().iter().all(|m| m.id != a));
    assert_eq!(service.metadata().len(), 2);
    // all rows are still there
    assert_eq!(service.seen().len(), 5);
    assert_eq!(service.reviews().len(), 3);
    assert_eq!(service.seen().iter().filter(|r| r.metadata_id == b).count(), 4);
    assert_eq!(service.reviews().iter().filter(|r| r.metadata_id == b).count(), 3);
    // rows of other items stay in place, rows of A follow with new identities
    let expected_seen = vec![
        seen_before[1].clone(),
        seen_before[3].clone(),
        SeenRecord { id: 6, metadata_id: b, ..seen_before[0].clone() },
        SeenRecord { id: 7, metadata_id: b, ..seen_before[2].clone() },
        SeenRecord { id: 8, metadata_id: b, ..seen_before[4].clone() },
    ];
    assert_eq!(service.seen(), &expected_seen);
    let expected_reviews = vec![
        reviews_before[1].clone(),
        Review { id: 4, metadata_id: b, ..reviews_before[0].clone() },
        Review { id: 5, metadata_id: b, ..reviews_before[2].clone() },
    ];
    assert_eq!(service.reviews(), &expected_reviews);
    // identities go on from there
    let next = service.progress_update_at(report(c, 100, None), ANN, today(), at(9)).unwrap();
    assert_eq!(next.id, 9);
    // the key of a moved record is still known
    let replay = service.progress_update_at(report(a, 100, Some("a1")), ANN, today(), at(9)).unwrap();
    assert_eq!(replay.id, b);
}

#[test]
fn merging_into_an_unknown_item_changes_nothing() {
    let mut service = MiscellaneousService::new();
    let a = item(&mut service, "A");
    service.progress_update_at(report(a, 100, None), ANN, today(), at(1)).unwrap();
    assert_eq!(service.merge_metadata(a, 77), Err(ServiceError::NotFound));
    assert_eq!(service.seen()[0].metadata_id, a);
    assert_eq!(service.seen()[0].id, 1);
    assert_eq!(service.metadata().len(), 1);
}

#[test]
fn merging_from_an_unknown_item_moves_nothing() {
    let mut service = MiscellaneousService::new();
    let a = item(&mut service, "A");
    service.progress_update_at(report(a, 100, None), ANN, today(), at(1)).unwrap();
    let before = service.seen().clone();
    assert_eq!(service.merge_metadata(77, a), Ok(true));
    assert_eq!(service.seen(), &before);
    assert_eq!(service.metadata().len(), 1);
}

#[test]
fn two_records_under_way_after_a_merge_the_later_one_is_active() {
    let mut service = MiscellaneousService::new();
    let a = item(&mut service, "A");
    let b = item(&mut service, "B");
    service.progress_update_at(report(a, 10, None), ANN, today(), at(50)).unwrap();
    service.progress_update_at(report(b, 10, None), ANN, today(), at(20)).unwrap();
    service.merge_metadata(a, b).unwrap();
    assert_eq!(service.seen().len(), 2);
    // stored first: B's own record (updated at 20); moved behind it: A's (updated at 50)
    let answer = service.progress_update_at(report(b, 80, None), ANN, today(), at(60)).unwrap();
    assert_eq!(answer.id, 3);
    assert_eq!(service.seen()[0].progress, 0);
    assert_eq!(service.seen()[1].progress, 80);
    assert_eq!(service.seen()[1].id, 3);
}

#[test]
fn posting_a_review() {
    let mut service = MiscellaneousService::new();
    let a = item(&mut service, "A");
    let posted = service.post_review_at(ANN, review(a, "fine"), at(6)).unwrap();
    assert_eq!(posted.id, 1);
    assert_eq!(
        service.reviews(),
        &vec![Review {
            id: 1,
            user_id: ANN,
            metadata_id: a,
            posted_on: at(6),
            rating: Some(Decimal::new(45, 1)),
            text: Some("fine".to_string()),
            visibility: Visibility::Private,
            spoiler: false,
            extra_information: None,
            identifier: None,
        }]
    );
    let detailed = PostReviewInput {
        rating: None,
        visibility: Some(Visibility::Public),
        spoiler: Some(true),
        date: Some(at(3)),
        season_number: Some(2),
        episode_number: Some(5),
        identifier: Some("r".to_string()),
        ..review(a, "spoils")
    };
    assert_eq!(service.post_review_at(BEN, detailed.clone(), at(7)).unwrap().id, 2);
    let stored = &service.reviews()[1];
    assert_eq!(stored.posted_on, at(3));
    assert_eq!(stored.rating, None);
    assert_eq!(stored.visibility, Visibility::Public);
    assert!(stored.spoiler);
    assert_eq!(
        stored.extra_information,
        Some(SeenExtraInformation::Show(SeenShowExtraInformation { season: 2, episode: 5 }))
    );
    // the same key again: nothing is posted, the answer is the item
    assert_eq!(service.post_review_at(ANN, detailed, at(8)).unwrap().id, a);
    assert_eq!(service.reviews().len(), 2);
    // season without episode is no locator
    let half = PostReviewInput { season_number: Some(1), ..review(a, "half") };
    service.post_review_at(ANN, half, at(9)).unwrap();
    assert_eq!(service.reviews()[2].extra_information, None);
    assert_eq!(service.post_review_at(ANN, review(99, "?"), at(9)), Err(ServiceError::NotFound));
}

#[test]
fn changing_a_review() {
    let mut service = MiscellaneousService::new();
    let a = item(&mut service, "A");
    let b = item(&mut service, "B");
    let first = PostReviewInput {
        spoiler: Some(true),
        visibility: Some(Visibility::Public),
        season_number: Some(1),
        episode_number: Some(1),
        ..review(a, "first")
    };
    let id = service.post_review_at(ANN, first, at(1)).unwrap().id;
    let change = PostReviewInput {
        rating: None,
        review_id: Some(id),
        ..review(b, "second thoughts")
    };
    assert_eq!(service.post_review_at(BEN, change.clone(), at(2)), Err(ServiceError::Unauthorized));
    assert_eq!(service.post_review_at(ANN, change, at(2)).unwrap().id, id);
    assert_eq!(
        service.reviews(),
        &vec![Review {
            id,
            user_id: ANN,
            metadata_id: b,
            posted_on: at(1),
            rating: None,
            text: Some("second thoughts".to_string()),
            visibility: Visibility::Public,
            spoiler: true,
            extra_information: Some(SeenExtraInformation::Show(SeenShowExtraInformation {
                season: 1,
                episode: 1
            })),
            identifier: None,
        }]
    );
    let missing = PostReviewInput { review_id: Some(50), ..review(a, "x") };
    assert_eq!(service.post_review_at(ANN, missing, at(3)), Err(ServiceError::NotFound));
}

#[test]
fn deleting_a_review() {
    let mut service = MiscellaneousService::new();
    let a = item(&mut service, "A");
    let id = service.post_review_at(ANN, review(a, "mine"), at(1)).unwrap().id;
    let other = service.post_review_at(BEN, review(a, "his"), at(1)).unwrap().id;
    assert_eq!(service.delete_review(BEN, id), Err(ServiceError::Unauthorized));
    assert_eq!(service.delete_review(ANN, 99), Ok(false));
    assert_eq!(service.reviews().len(), 2);
    assert_eq!(service.delete_review(ANN, id), Ok(true));
    assert_eq!(service.delete_review(ANN, id), Ok(false));
    assert_eq!(service.reviews().len(), 1);
    assert_eq!(service.reviews()[0].id, other);
}

#[test]
fn private_reviews_are_for_their_author() {
    let mut service = MiscellaneousService::new();
    let a = item(&mut service, "A");
    service.post_review_at(ANN, review(a, "private"), at(1)).unwrap();
    let public = PostReviewInput { visibility: Some(Visibility::Public), ..review(a, "public") };
    service.post_review_at(ANN, public, at(1)).unwrap();
    assert!(can_read(&service.reviews()[0], ANN));
    assert!(!can_read(&service.reviews()[0], BEN));
    assert!(can_read(&service.reviews()[1], ANN));
    assert!(can_read(&service.reviews()[1], BEN));
}

#[test]
fn clock_review_bears_the_current_instant() {
    let mut service = MiscellaneousService::new();
    let a = item(&mut service, "A");
    let before = chrono::Utc::now().timestamp_micros();
    service.post_review(ANN, review(a, "now")).unwrap();
    let after = chrono::Utc::now().timestamp_micros();
    let posted = service.reviews()[0].posted_on.micros;
    assert!(before <= posted && posted <= after);
}
