use ryot::clock::Timestamp;
use ryot::collection::{check_may_view, Collection, Visibility};
use ryot::error::{check_owner, ServiceError};
use ryot::seen::SeenRecord;
use ryot::users::{
    association_is_unused, login_failure, registration, LoginErrorVariant,
    RegisterErrorVariant, UserLot,
};

#[test]
fn only_the_owner_passes_the_owner_check() {
    assert_eq!(check_owner(3, 3), Ok(()));
    assert_eq!(check_owner(3, 4), Err(ServiceError::Unauthorized));
    assert_eq!(check_owner(i32::MIN, i32::MAX), Err(ServiceError::Unauthorized));
}

#[test]
fn private_collections_are_for_their_owner() {
    let collection = |visibility| Collection {
        id: 1,
        user_id: 5,
        name: "Shelf".to_string(),
        description: None,
        visibility,
    };
    for viewer in [None, Some(5), Some(6)] {
        assert_eq!(check_may_view(&collection(Visibility::Public), viewer), Ok(()));
    }
    assert_eq!(check_may_view(&collection(Visibility::Private), Some(5)), Ok(()));
    assert_eq!(
        check_may_view(&collection(Visibility::Private), Some(6)),
        Err(ServiceError::Unauthorized)
    );
    assert_eq!(
        check_may_view(&collection(Visibility::Private), None),
        Err(ServiceError::Unauthorized)
    );
}

#[test]
fn a_record_is_unfinished_below_full_progress() {
    let record = |progress| SeenRecord {
        id: 1,
        user_id: 1,
        metadata_id: 1,
        progress,
        started_on: None,
        finished_on: None,
        dropped: false,
        last_updated_on: Timestamp { micros: 0 },
        identifier: None,
        extra_information: None,
        show_information: None,
        podcast_information: None,
    };
    assert!(record(0).unfinished());
    assert!(record(99).unfinished());
    assert!(!record(100).unfinished());
}

#[test]
fn registration_needs_leave_and_a_free_name() {
    assert_eq!(registration(false, false, true), Err(RegisterErrorVariant::Disabled));
    assert_eq!(registration(false, true, false), Err(RegisterErrorVariant::Disabled));
    assert_eq!(registration(true, true, false), Err(RegisterErrorVariant::UsernameAlreadyExists));
    assert_eq!(registration(true, true, true), Err(RegisterErrorVariant::UsernameAlreadyExists));
    assert_eq!(registration(true, false, true), Ok(UserLot::Admin));
    assert_eq!(registration(true, false, false), Ok(UserLot::Normal));
}

#[test]
fn login_fails_for_the_first_thing_amiss() {
    assert_eq!(login_failure(false, true, true), Some(LoginErrorVariant::UsernameDoesNotExist));
    assert_eq!(login_failure(false, false, false), Some(LoginErrorVariant::UsernameDoesNotExist));
    assert_eq!(login_failure(true, false, true), Some(LoginErrorVariant::CredentialsMismatch));
    assert_eq!(login_failure(true, true, false), Some(LoginErrorVariant::MutexError));
    assert_eq!(login_failure(true, true, true), None);
}

#[test]
fn an_association_is_unused_when_nothing_refers_to_it() {
    assert!(association_is_unused(0, 0, false));
    assert!(!association_is_unused(1, 0, false));
    assert!(!association_is_unused(0, 1, false));
    assert!(!association_is_unused(0, 0, true));
    assert!(!association_is_unused(u64::MAX, u64::MAX, false));
}

#[test]
fn pictures_of_the_dataset_get_the_shared_address() {
    let images = vec!["a/0.jpg".to_string(), "b.png".to_string(), String::new()];
    assert_eq!(
        ryot::exercise::prefix_images("https://host/exercises", &images),
        vec!["https://host/exercises/a/0.jpg", "https://host/exercises/b.png", "https://host/exercises/"]
    );
    assert!(ryot::exercise::prefix_images("x", &Vec::new()).is_empty());
}

#[test]
fn pictures_are_kept_under_the_slug_of_their_exercise() {
    assert_eq!(
        ryot::exercise::image_key_with_slug("3-4-sit-up", "0", "jpg"),
        "fitness/exercises/3-4-sit-up/0.jpg"
    );
    assert_eq!(
        ryot::exercise::image_key("3/4 Sit-Up", "1", Some("jpg")),
        "fitness/exercises/3-4-sit-up/1.jpg"
    );
    assert_eq!(
        ryot::exercise::image_key("Ab Roller", "12", None),
        "fitness/exercises/ab-roller/12.png"
    );
}
