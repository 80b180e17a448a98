use ryot_misc::collections::{AddMediaToCollection, Collections};
use ryot_misc::config::{AppConfig, UsersConfig, WebConfig};
use ryot_misc::custom_media::CreateCustomMediaInput;
use ryot_misc::error::Error;
use ryot_misc::graphql::{MiscMutation, MiscQuery};
use ryot_misc::media::{BookSpecifics, MetadataLot};
use ryot_misc::reviews::{DeleteReview, MediaItemReviews, PostReviewInput};
use ryot_misc::service::{DefaultCollections, MiscService};
use ryot_misc::sessions::{LoginError, LoginErrorVariant, LoginResponse, LoginResult};
use ryot_misc::step::{Queue, Step};
use ryot_misc::store::{Identifier, NamedObject};
use ryot_misc::users::{UpdateUserInput, UserInput};

fn service() -> MiscService {
    MiscService::new(DefaultCollections {
        names: vec!["In Progress".to_string(), "Custom".to_string()],
        in_progress: "In Progress".to_string(),
        custom: "Custom".to_string(),
    })
}

fn config() -> AppConfig {
    AppConfig {
        users: UsersConfig { allow_changing_username: true, token_valid_for_days: 2 },
        web: WebConfig { insecure_cookie: true },
    }
}

fn stranger() -> Error {
    Error::Outside("The auth token is not present".to_string())
}

fn review() -> PostReviewInput {
    PostReviewInput {
        rating: None,
        text: None,
        visibility: None,
        spoiler: None,
        metadata_id: Identifier(7),
        date: None,
        identifier: None,
        review_id: None,
        season_number: None,
        episode_number: None,
    }
}

fn book() -> CreateCustomMediaInput {
    CreateCustomMediaInput {
        title: "mine".to_string(),
        lot: MetadataLot::Book,
        description: None,
        creators: None,
        genres: None,
        images: None,
        publish_year: None,
        book_specifics: Some(BookSpecifics { pages: None }),
        movie_specifics: None,
        show_specifics: None,
        video_game_specifics: None,
        audio_book_specifics: None,
        podcast_specifics: None,
    }
}

fn put() -> AddMediaToCollection {
    AddMediaToCollection { collection_name: "a".to_string(), media_id: Identifier(7) }
}

fn no_change() -> UpdateUserInput {
    UpdateUserInput { username: None, email: None, password: None }
}

fn credentials() -> UserInput {
    UserInput { username: "me".to_string(), password: "pw".to_string() }
}

#[test]
fn strangers_get_no_answers() {
    let (query, service) = (MiscQuery::default(), service());
    assert_eq!(
        query.media_item_reviews(&service, Err(stranger()), Identifier(7)),
        Step::Done(Err(stranger()))
    );
    assert_eq!(query.collections(&service, Err(stranger())), Step::Done(Err(stranger())));
    assert_eq!(query.user_details(&service, Err(stranger())), Step::Done(Err(stranger())));
    assert_eq!(query.user_summary(&service, Err(stranger())), Step::Done(Err(stranger())));
}

#[test]
fn strangers_change_nothing() {
    let (mutation, service) = (MiscMutation::default(), service());
    let done = || Err(stranger());
    assert_eq!(mutation.post_review(&service, done(), review()), Step::Done(Err(stranger())));
    assert_eq!(
        mutation.delete_review(&service, done(), Identifier(7)),
        Step::Done(Err(stranger()))
    );
    assert_eq!(
        mutation.create_collection(&service, done(), NamedObject { name: "a".to_string() }),
        Step::Done(Err(stranger()))
    );
    assert_eq!(
        mutation.add_media_to_collection(&service, done(), put()),
        Step::Done(Err(stranger()))
    );
    assert_eq!(
        mutation.remove_media_from_collection(&service, done(), Identifier(7), "a".to_string()),
        Step::Done(Err(stranger()))
    );
    assert_eq!(
        mutation.delete_collection(&service, done(), "Custom".to_string()),
        Step::Done(Err(stranger()))
    );
    assert_eq!(
        mutation.delete_seen_item(&service, done(), Identifier(7)),
        Step::Done(Err(stranger()))
    );
    assert_eq!(
        mutation.update_user(&service, done(), &config(), no_change()),
        Step::Done(Err(stranger()))
    );
    assert_eq!(
        mutation.regenerate_user_summary(&service, done()),
        Step::Done(Err(stranger()))
    );
    assert_eq!(
        mutation.create_custom_media(&service, done(), book()),
        Step::Done(Err(stranger()))
    );
}

#[test]
fn queries_are_about_their_sender() {
    let (query, service) = (MiscQuery::default(), service());
    assert_eq!(
        query.media_item_reviews(&service, Ok(4), Identifier(7)),
        Step::Do(MediaItemReviews { metadata_id: 7, user_id: 4 })
    );
    assert_eq!(query.collections(&service, Ok(4)), Step::Do(Collections { user_id: 4 }));
    assert_eq!(
        query.user_details(&service, Ok("key".to_string())),
        Step::Do(service.user_details("key"))
    );
    assert_eq!(query.user_summary(&service, Ok(4)), Step::Do(service.user_summary(4)));
}

#[test]
fn mutations_are_made_for_their_sender() {
    let (mutation, service) = (MiscMutation::default(), service());
    assert_eq!(
        mutation.post_review(&service, Ok(4), review()),
        Step::Do(service.post_review(4, review()))
    );
    assert_eq!(
        mutation.delete_review(&service, Ok(4), Identifier(7)),
        Step::Do(DeleteReview { review_id: 7, user_id: 4 })
    );
    assert_eq!(
        mutation.create_collection(&service, Ok(4), NamedObject { name: "a".to_string() }),
        Step::Do(service.create_collection(4, NamedObject { name: "a".to_string() }))
    );
    assert_eq!(
        mutation.add_media_to_collection(&service, Ok(4), put()),
        Step::Do(service.add_media_to_collection(4, put()))
    );
    assert_eq!(
        mutation.remove_media_from_collection(&service, Ok(4), Identifier(7), "a".to_string()),
        Step::Do(service.remove_media_item_from_collection(4, 7, "a".to_string()))
    );
    assert_eq!(
        mutation.delete_collection(&service, Ok(4), "Custom".to_string()),
        Step::Done(Err(Error::DefaultCollection))
    );
    assert_eq!(
        mutation.delete_seen_item(&service, Ok(4), Identifier(7)),
        Step::Do(service.delete_seen_item(7, 4))
    );
    assert_eq!(
        mutation.update_user(&service, Ok(4), &config(), no_change()),
        Step::Do(service.update_user(4, no_change(), &config()))
    );
    assert_eq!(
        mutation.regenerate_user_summary(&service, Ok(4)),
        Step::Do(service.regenerate_user_summary(4))
    );
    assert_eq!(mutation.update_all_metadata(&service), service.update_all_metadata());
    match mutation.create_custom_media(&service, Ok(4), book()) {
        Step::Do(save) => assert_eq!(save.user_id, 4),
        Step::Done(_) => panic!("nothing was saved"),
    }
}

#[test]
fn anybody_may_register_or_log_in() {
    let (mutation, service) = (MiscMutation::default(), service());
    assert_eq!(
        mutation.register_user(&service, credentials()),
        service.register_user("me".to_string(), "pw".to_string())
    );
    assert_eq!(
        mutation.login_user(&service, &config(), credentials()),
        service.login_user("me".to_string(), "pw".to_string(), 2)
    );
}

#[test]
fn only_a_login_that_worked_has_a_cookie() {
    let mutation = MiscMutation::default();
    let ok = Ok(LoginResult::Success(LoginResponse { api_key: "key".to_string() }));
    assert_eq!(
        mutation.logged_in_at(&config(), &ok, 1_445_412_480),
        Some("auth=key; Expires=Fri, 23 Oct 2015 07:28:00 GMT".to_string())
    );
    assert!(mutation.logged_in(&config(), &ok).unwrap().starts_with("auth=key; Expires="));
    let error = LoginErrorVariant::CredentialsMismatch;
    let refused = Ok(LoginResult::Error(LoginError { error }));
    assert_eq!(mutation.logged_in_at(&config(), &refused, 0), None);
    assert_eq!(mutation.logged_in(&config(), &refused), None);
    assert_eq!(mutation.logged_in(&config(), &Err(stranger())), None);
}

#[test]
fn a_logout_takes_the_cookie_back_in_any_case() {
    let (mutation, service) = (MiscMutation::default(), service());
    let cookie = "auth=; Expires=Wed, 21 Oct 2015 07:28:00 GMT".to_string();
    let at = 1_445_412_480;
    assert_eq!(
        mutation.logout_user_at(&service, &config(), Ok("key".to_string()), at),
        (cookie.clone(), Step::Do(service.logout_user("key")))
    );
    assert_eq!(
        mutation.logout_user_at(&service, &config(), Err(stranger()), at),
        (cookie, Step::Done(Err(stranger())))
    );
    let (cookie, step) = mutation.logout_user(&service, &config(), Err(stranger()));
    assert!(cookie.starts_with("auth=; Expires="));
    assert_eq!(step, Step::Done(Err(stranger())));
}

#[test]
fn a_line_of_work_is_gone_through_in_order() {
    assert_eq!(Queue::<i32>::line_up(vec![]), None);
    let mut line = Queue::line_up(vec![3, 1, 2]);
    let mut turns = vec![];
    while let Some(queue) = line {
        turns.push(*queue.current());
        line = queue.advance();
    }
    assert_eq!(turns, vec![3, 1, 2]);
}
