use ryot_misc::clock::Timestamp;
use ryot_misc::error::Error;
use ryot_misc::media::{
    SeenExtraInformation, SeenPodcastExtraInformation, SeenShowExtraInformation,
};
use ryot_misc::reviews::{PostReviewInput, RemoveReview, ReviewPostedBy};
use ryot_misc::service::{DefaultCollections, MiscService};
use ryot_misc::step::Step;
use ryot_misc::store::{
    ActiveValue, IdObject, Identifier, ReviewModel, ReviewVisibility, UserLot, UserModel,
};
use rust_decimal::Decimal;

fn service() -> MiscService {
    MiscService::new(DefaultCollections {
        names: vec!["In Progress".to_string(), "Custom".to_string()],
        in_progress: "In Progress".to_string(),
        custom: "Custom".to_string(),
    })
}

fn user(id: i32, name: &str) -> UserModel {
    UserModel {
        id,
        name: name.to_string(),
        email: None,
        password: String::new(),
        lot: UserLot::Normal,
    }
}

fn review(id: i32, user_id: i32, visibility: ReviewVisibility) -> ReviewModel {
    ReviewModel {
        id,
        posted_on: Timestamp { secs: 1000 - i64::from(id), nanos: 7 },
        rating: Some(Decimal::new(45, 1)),
        text: Some(format!("review {}", id)),
        visibility,
        spoiler: id % 2 == 0,
        user_id,
        metadata_id: 70,
        extra_information: None,
        identifier: None,
    }
}

fn input() -> PostReviewInput {
    PostReviewInput {
        rating: None,
        text: None,
        visibility: None,
        spoiler: None,
        metadata_id: Identifier(70),
        date: None,
        identifier: None,
        review_id: None,
        season_number: None,
        episode_number: None,
    }
}

#[test]
fn private_reviews_are_for_their_author() {
    let find = service().media_item_reviews(1, 70);
    assert_eq!(find.metadata_id, 70);
    assert_eq!(find.user_id, 1);
    let rows = vec![
        (review(4, 2, ReviewVisibility::Private), user(2, "other")),
        (review(5, 1, ReviewVisibility::Private), user(1, "me")),
        (review(6, 2, ReviewVisibility::Public), user(2, "other")),
        (review(7, 1, ReviewVisibility::Public), user(1, "me")),
    ];
    let items = find.found(rows).unwrap();
    let ids: Vec<i32> = items.iter().map(|item| item.id.0).collect();
    assert_eq!(ids, vec![5, 6, 7]);
}

#[test]
fn no_reviews_are_shown_where_there_are_none() {
    assert_eq!(service().media_item_reviews(1, 70).found(vec![]), Ok(vec![]));
}

#[test]
fn a_review_is_shown_with_all_of_its_fields() {
    let items = service()
        .media_item_reviews(9, 70)
        .found(vec![(review(4, 2, ReviewVisibility::Public), user(2, "other"))])
        .unwrap();
    let item = &items[0];
    assert_eq!(item.id, Identifier(4));
    assert_eq!(item.posted_on, Timestamp { secs: 996, nanos: 7 });
    assert_eq!(item.rating, Some(Decimal::new(45, 1)));
    assert_eq!(item.text, Some("review 4".to_string()));
    assert_eq!(item.visibility, ReviewVisibility::Public);
    assert!(item.spoiler);
    assert_eq!(item.posted_by, ReviewPostedBy { id: Identifier(2), name: "other".to_string() });
    assert_eq!((item.season_number, item.episode_number, item.podcast_episode_id), (None, None, None));
}

#[test]
fn a_review_tells_its_part() {
    let mut show = review(1, 1, ReviewVisibility::Public);
    show.extra_information =
        Some(SeenExtraInformation::Show(SeenShowExtraInformation { season: 3, episode: 8 }));
    let mut podcast = review(2, 1, ReviewVisibility::Public);
    podcast.extra_information =
        Some(SeenExtraInformation::Podcast(SeenPodcastExtraInformation { episode: 12 }));
    let items = service()
        .media_item_reviews(1, 70)
        .found(vec![(show, user(1, "me")), (podcast, user(1, "me"))])
        .unwrap();
    assert_eq!(
        (items[0].season_number, items[0].episode_number, items[0].podcast_episode_id),
        (Some(3), Some(8), None)
    );
    assert_eq!(
        (items[1].season_number, items[1].episode_number, items[1].podcast_episode_id),
        (None, None, Some(12))
    );
}

#[test]
fn a_known_review_is_not_posted_again() {
    let mut given = input();
    given.identifier = Some("abc".to_string());
    let post = service().post_review(1, given);
    assert_eq!(post.identifier, Some("abc".to_string()));
    let next = post.found(Some(review(4, 2, ReviewVisibility::Public)));
    assert_eq!(next, Step::Done(Ok(IdObject { id: Identifier(70) })));
}

#[test]
fn a_review_without_extras_leaves_them_to_the_store() {
    let next = service().post_review(1, input()).found(None);
    match next {
        Step::Do(save) => {
            assert_eq!(save.review.id, ActiveValue::NotSet);
            assert_eq!(save.review.posted_on, ActiveValue::NotSet);
            assert_eq!(save.review.rating, ActiveValue::Write(None));
            assert_eq!(save.review.text, ActiveValue::Write(None));
            assert_eq!(save.review.visibility, ActiveValue::NotSet);
            assert_eq!(save.review.spoiler, ActiveValue::NotSet);
            assert_eq!(save.review.user_id, ActiveValue::Write(1));
            assert_eq!(save.review.metadata_id, ActiveValue::Write(70));
            assert_eq!(save.review.extra_information, ActiveValue::NotSet);
            assert_eq!(save.review.identifier, ActiveValue::Write(None));
            assert_eq!(save.saved(33), Ok(IdObject { id: Identifier(33) }));
        }
        Step::Done(_) => panic!("nothing was saved"),
    }
}

#[test]
fn a_review_with_everything_is_written_in_full() {
    let mut given = input();
    given.rating = Some(Decimal::new(5, 0));
    given.text = Some("great".to_string());
    given.visibility = Some(ReviewVisibility::Private);
    given.spoiler = Some(true);
    given.date = Some(Timestamp { secs: 5, nanos: 6 });
    given.identifier = Some("abc".to_string());
    given.review_id = Some(Identifier(12));
    given.season_number = Some(1);
    given.episode_number = Some(2);
    match service().post_review(1, given).found(None) {
        Step::Do(save) => {
            assert_eq!(save.review.id, ActiveValue::Write(12));
            assert_eq!(save.review.posted_on, ActiveValue::Write(Timestamp { secs: 5, nanos: 6 }));
            assert_eq!(save.review.rating, ActiveValue::Write(Some(Decimal::new(5, 0))));
            assert_eq!(save.review.text, ActiveValue::Write(Some("great".to_string())));
            assert_eq!(save.review.visibility, ActiveValue::Write(ReviewVisibility::Private));
            assert_eq!(save.review.spoiler, ActiveValue::Write(true));
            assert_eq!(
                save.review.extra_information,
                ActiveValue::Write(Some(SeenExtraInformation::Show(SeenShowExtraInformation {
                    season: 1,
                    episode: 2,
                })))
            );
            assert_eq!(save.review.identifier, ActiveValue::Write(Some("abc".to_string())));
        }
        Step::Done(_) => panic!("nothing was saved"),
    }
}

#[test]
fn a_season_alone_is_no_part() {
    let mut given = input();
    given.season_number = Some(1);
    match service().post_review(1, given).found(None) {
        Step::Do(save) => assert_eq!(save.review.extra_information, ActiveValue::NotSet),
        Step::Done(_) => panic!("nothing was saved"),
    }
    let mut given = input();
    given.episode_number = Some(1);
    match service().post_review(1, given).found(None) {
        Step::Do(save) => assert_eq!(save.review.extra_information, ActiveValue::NotSet),
        Step::Done(_) => panic!("nothing was saved"),
    }
}

#[test]
fn only_the_author_deletes_a_review() {
    let delete = service().delete_review(1, 4);
    assert_eq!((delete.review_id, delete.user_id), (4, 1));
    assert_eq!(
        delete.found(Some(review(4, 1, ReviewVisibility::Public))),
        Step::Do(RemoveReview { review_id: 4 })
    );
    assert_eq!(
        service().delete_review(1, 4).found(Some(review(4, 2, ReviewVisibility::Public))),
        Step::Done(Err(Error::ReviewNotOwned))
    );
    assert_eq!(service().delete_review(1, 4).found(None), Step::Done(Ok(false)));
}

#[test]
fn a_removed_review_is_reported() {
    let remove = RemoveReview { review_id: 4 };
    assert_eq!(remove.removed(Ok(())), Ok(true));
    let remove = RemoveReview { review_id: 4 };
    let error = Error::Outside("locked".to_string());
    assert_eq!(remove.removed(Err(error)), Err(Error::Outside("locked".to_string())));
}

#[test]
fn errors_have_their_words() {
    assert_eq!(Error::ReviewNotOwned.message(), "This review does not belong to you");
    assert_eq!(
        Error::CollectionNotCreated.message(),
        "There was an error creating the collection"
    );
    assert_eq!(Error::DefaultCollection.message(), "Can not delete a default collection");
    assert_eq!(
        Error::SeenItemNotOwned.message(),
        "This seen item does not belong to this user"
    );
    assert_eq!(Error::SeenItemMissing.message(), "This seen item does not exist");
    assert_eq!(Error::Outside("down".to_string()).message(), "down");
}
