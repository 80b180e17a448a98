//! The queries and mutations that users may send.
//!
//! Who sends a request is found out outside: a request comes with the id or the token of its
//! sender, or with the error of somebody who is not known. The latter is all that they get.
use vstd::prelude::*;

use crate::clock::utc_second;
use crate::collections::{
    AddMediaToCollection, CollectionItem, Collections, CreateCollection, DeleteCollection,
    PutMediaIntoCollection, RemoveMediaFromCollection,
};
use crate::config::AppConfig;
use crate::custom_media::{CreateCustomMediaInput, CreateCustomMediaResult, SaveMedia};
use crate::error::Error;
use crate::history::DeleteSeenItem;
use crate::metadata::UpdateAllMetadata;
use crate::reviews::{DeleteReview, MediaItemReviews, PostReview, PostReviewInput, ReviewItem};
use crate::service::MiscService;
use crate::session_cookie::create_cookie_at;
use crate::sessions::{LoginResult, LoginUser, LogoutUser, UserDetails, UserDetailsResult};
use crate::step::Step;
use crate::store::{IdObject, Identifier, NamedObject};
use crate::summaries::{GetUserSummary, LatestSummary, RegenerateSummary};
use crate::summary::UserSummary;
use crate::users::{RegisterUser, UpdateUser, UpdateUserInput, UserInput};

verus! {

/// The work that is done for a sender who is known; the others are sent away with the error
/// that says so.
pub open spec fn done_for<S, W, T>(sender: Result<S, Error>, work: spec_fn(S) -> W) -> Step<W, T> {
    match sender {
        Ok(sender) => Step::Do(work(sender)),
        Err(error) => Step::Done(Err(error)),
    }
}

/// Law: somebody who is not known starts no work at all, and is told why.
pub proof fn law_nothing_is_done_for_strangers<S, W, T>(error: Error, work: spec_fn(S) -> W)
    ensures
        done_for::<S, W, T>(Err(error), work) == Step::<W, T>::Done(Err(error)),
{
}

/// What users may ask for.
#[derive(Debug, Clone, Copy, PartialEq, Eq)]
pub struct MiscQuery {}

impl Default for MiscQuery {
    fn default() -> (query: Self)
        ensures
            query == (MiscQuery {  }),
    {
        MiscQuery {  }
    }
}

impl MiscQuery {
    /// Get all the public reviews for a media item.
    pub fn media_item_reviews(
        &self,
        service: &MiscService,
        user: Result<i32, Error>,
        metadata_id: Identifier,
    ) -> (next: Step<MediaItemReviews, Vec<ReviewItem>>)
        ensures
            next == done_for::<i32, MediaItemReviews, Vec<ReviewItem>>(
                user,
                |user_id: i32| MediaItemReviews { metadata_id: metadata_id.0, user_id },
            ),
    {
        match user {
            Ok(user_id) => Step::Do(service.media_item_reviews(user_id, metadata_id.0)),
            Err(error) => Step::Done(Err(error)),
        }
    }

    /// Get all collections for the currently logged in user.
    pub fn collections(&self, service: &MiscService, user: Result<i32, Error>) -> (next: Step<
        Collections,
        Vec<CollectionItem>,
    >)
        ensures
            next == done_for::<i32, Collections, Vec<CollectionItem>>(
                user,
                |user_id: i32| Collections { user_id },
            ),
    {
        match user {
            Ok(user_id) => Step::Do(service.collections(user_id)),
            Err(error) => Step::Done(Err(error)),
        }
    }

    /// Get details about the currently logged in user.
    pub fn user_details(&self, service: &MiscService, token: Result<String, Error>) -> (next: Step<
        UserDetails,
        UserDetailsResult,
    >)
        ensures
            match token {
                Ok(token) => next matches Step::Do(details) && details.key@
                    == vstd::utf8::encode_utf8(token@),
                Err(error) => next == Step::<UserDetails, UserDetailsResult>::Done(Err(error)),
            },
    {
        match token {
            Ok(token) => Step::Do(service.user_details(token.as_str())),
            Err(error) => Step::Done(Err(error)),
        }
    }

    /// Get a summary of all the media items that have been consumed by this user.
    pub fn user_summary(&self, service: &MiscService, user: Result<i32, Error>) -> (next: Step<
        GetUserSummary,
        UserSummary,
    >)
        ensures
            next == done_for::<i32, GetUserSummary, UserSummary>(
                user,
                |user_id: i32| GetUserSummary { latest: LatestSummary { user_id } },
            ),
    {
        match user {
            Ok(user_id) => Step::Do(service.user_summary(user_id)),
            Err(error) => Step::Done(Err(error)),
        }
    }
}

/// What users may change.
#[derive(Debug, Clone, Copy, PartialEq, Eq)]
pub struct MiscMutation {}

impl Default for MiscMutation {
    fn default() -> (mutation: Self)
        ensures
            mutation == (MiscMutation {  }),
    {
        MiscMutation {  }
    }
}

/// The cookie that goes with the outcome of a login: one with the API key, where one was
/// handed out.
pub open spec fn login_cookie(
    outcome: Result<LoginResult, Error>,
    config: AppConfig,
    at: i64,
) -> Option<Seq<char>> {
    match outcome {
        Ok(LoginResult::Success(response)) => Some(
            crate::session_cookie::session_cookie_text(
                response.api_key@,
                false,
                config.web.insecure_cookie,
                config.users.token_valid_for_days,
                at,
            ),
        ),
        _ => None,
    }
}

/// The cookie that takes an API key back from the browser.
pub open spec fn logout_cookie(config: AppConfig, at: i64) -> Seq<char> {
    crate::session_cookie::session_cookie_text(
        Seq::empty(),
        true,
        config.web.insecure_cookie,
        config.users.token_valid_for_days,
        at,
    )
}

/// Law: a login comes with a cookie exactly if an API key was handed out, and the cookie
/// carries that key.
pub proof fn law_cookie_comes_with_key(
    outcome: Result<LoginResult, Error>,
    config: AppConfig,
    at: i64,
)
    ensures
        login_cookie(outcome, config, at) is Some <==> outcome matches Ok(LoginResult::Success(_)),
        outcome matches Ok(LoginResult::Success(response)) ==> (
        crate::session_cookie::COOKIE_NAME@ + "="@ + response.api_key@).is_prefix_of(
            login_cookie(outcome, config, at)->0,
        ),
{
    if let Ok(LoginResult::Success(response)) = outcome {
        crate::session_cookie::law_cookie_carries_key(
            response.api_key@,
            false,
            config.web.insecure_cookie,
            config.users.token_valid_for_days,
            at,
        );
    }
}

/// Law: the cookie of a logout holds no API key and expires at once.
pub proof fn law_logout_cookie_is_empty(config: AppConfig, at: i64)
    ensures
        logout_cookie(config, at) == crate::session_cookie::cookie_text(
            crate::session_cookie::COOKIE_NAME@,
            Seq::empty(),
            !config.web.insecure_cookie,
            Some(at),
        ),
{
}

impl MiscMutation {
    /// Create or update a review.
    pub fn post_review(
        &self,
        service: &MiscService,
        user: Result<i32, Error>,
        input: PostReviewInput,
    ) -> (next: Step<PostReview, IdObject>)
        ensures
            next == done_for::<i32, PostReview, IdObject>(
                user,
                |user_id: i32| PostReview { identifier: input.identifier, user_id, input },
            ),
    {
        match user {
            Ok(user_id) => Step::Do(service.post_review(user_id, input)),
            Err(error) => Step::Done(Err(error)),
        }
    }

    /// Delete a review if it belongs to the user.
    pub fn delete_review(
        &self,
        service: &MiscService,
        user: Result<i32, Error>,
        review_id: Identifier,
    ) -> (next: Step<DeleteReview, bool>)
        ensures
            next == done_for::<i32, DeleteReview, bool>(
                user,
                |user_id: i32| DeleteReview { review_id: review_id.0, user_id },
            ),
    {
        match user {
            Ok(user_id) => Step::Do(service.delete_review(user_id, review_id.0)),
            Err(error) => Step::Done(Err(error)),
        }
    }

    /// Create a new collection for the logged in user.
    pub fn create_collection(
        &self,
        service: &MiscService,
        user: Result<i32, Error>,
        input: NamedObject,
    ) -> (next: Step<CreateCollection, IdObject>)
        ensures
            next == done_for::<i32, CreateCollection, IdObject>(
                user,
                |user_id: i32| CreateCollection { name: input.name, user_id },
            ),
    {
        match user {
            Ok(user_id) => Step::Do(service.create_collection(user_id, input)),
            Err(error) => Step::Done(Err(error)),
        }
    }

    /// Add a media item to a collection if it is not there, otherwise do nothing.
    pub fn add_media_to_collection(
        &self,
        service: &MiscService,
        user: Result<i32, Error>,
        input: AddMediaToCollection,
    ) -> (next: Step<PutMediaIntoCollection, bool>)
        ensures
            next == done_for::<i32, PutMediaIntoCollection, bool>(
                user,
                |user_id: i32|
                    PutMediaIntoCollection {
                        collection_name: input.collection_name,
                        user_id,
                        media_id: input.media_id,
                    },
            ),
    {
        match user {
            Ok(user_id) => Step::Do(service.add_media_to_collection(user_id, input)),
            Err(error) => Step::Done(Err(error)),
        }
    }

    /// Remove a media item from a collection if it is there, otherwise do nothing.
    pub fn remove_media_from_collection(
        &self,
        service: &MiscService,
        user: Result<i32, Error>,
        metadata_id: Identifier,
        collection_name: String,
    ) -> (next: Step<RemoveMediaFromCollection, IdObject>)
        ensures
            next == done_for::<i32, RemoveMediaFromCollection, IdObject>(
                user,
                |user_id: i32|
                    RemoveMediaFromCollection {
                        collection_name,
                        user_id,
                        metadata_id: metadata_id.0,
                    },
            ),
    {
        match user {
            Ok(user_id) => Step::Do(
                service.remove_media_item_from_collection(user_id, metadata_id.0, collection_name),
            ),
            Err(error) => Step::Done(Err(error)),
        }
    }

    /// Delete a collection.
    pub fn delete_collection(
        &self,
        service: &MiscService,
        user: Result<i32, Error>,
        collection_name: String,
    ) -> (next: Step<DeleteCollection, bool>)
        ensures
            next == (match user {
                Ok(user_id) => service.deletion(user_id, collection_name),
                Err(error) => Step::Done(Err(error)),
            }),
    {
        match user {
            Ok(user_id) => service.delete_collection(user_id, collection_name),
            Err(error) => Step::Done(Err(error)),
        }
    }

    /// Delete a seen item from a user's history.
    pub fn delete_seen_item(
        &self,
        service: &MiscService,
        user: Result<i32, Error>,
        seen_id: Identifier,
    ) -> (next: Step<DeleteSeenItem, IdObject>)
        ensures
            next == done_for::<i32, DeleteSeenItem, IdObject>(
                user,
                |user_id: i32| service.seen_deletion(seen_id.0, user_id),
            ),
    {
        match user {
            Ok(user_id) => Step::Do(service.delete_seen_item(seen_id.0, user_id)),
            Err(error) => Step::Done(Err(error)),
        }
    }

    /// Deploy jobs to update all media item's metadata.
    pub fn update_all_metadata(&self, service: &MiscService) -> (next: UpdateAllMetadata)
        ensures
            next == (UpdateAllMetadata {  }),
    {
        service.update_all_metadata()
    }

    /// Create a new user for the service. Also set their `lot` as admin if they are the first
    /// user.
    pub fn register_user(&self, service: &MiscService, input: UserInput) -> (next: RegisterUser)
        ensures
            next == (RegisterUser { username: input.username, password: input.password }),
    {
        service.register_user(input.username, input.password)
    }

    /// Login a user using their username and password and return an API key.
    pub fn login_user(&self, service: &MiscService, config: &AppConfig, input: UserInput) -> (next:
        LoginUser)
        ensures
            next == (LoginUser {
                username: input.username,
                password: input.password,
                valid_for_days: config.users.token_valid_for_days,
            }),
    {
        service.login_user(input.username, input.password, config.users.token_valid_for_days)
    }

    /// The cookie that goes with the outcome of a login, for a given moment.
    pub fn logged_in_at(
        &self,
        config: &AppConfig,
        outcome: &Result<LoginResult, Error>,
        at: i64,
    ) -> (cookie: Option<String>)
        requires
            crate::clock::is_dated(at as int),
        ensures
            match cookie {
                Some(cookie) => login_cookie(*outcome, *config, at) == Some(cookie@),
                None => login_cookie(*outcome, *config, at) is None,
            },
    {
        match outcome {
            Ok(LoginResult::Success(response)) => Some(
                create_cookie_at(
                    response.api_key.as_str(),
                    false,
                    config.web.insecure_cookie,
                    config.users.token_valid_for_days,
                    at,
                ),
            ),
            _ => None,
        }
    }

    /// The cookie that goes with the outcome of a login.
    pub fn logged_in(&self, config: &AppConfig, outcome: &Result<LoginResult, Error>) -> (cookie:
        Option<String>)
        ensures
            exists|at: i64|
                crate::clock::is_dated(at as int) && match cookie {
                    Some(cookie) => #[trigger] login_cookie(*outcome, *config, at) == Some(cookie@),
                    None => login_cookie(*outcome, *config, at) is None,
                },
    {
        self.logged_in_at(config, outcome, utc_second())
    }

    /// Logout a user from the server, deleting their login token, at a given moment. The
    /// cookie is taken back in any case.
    pub fn logout_user_at(
        &self,
        service: &MiscService,
        config: &AppConfig,
        token: Result<String, Error>,
        at: i64,
    ) -> (next: (String, Step<LogoutUser, bool>))
        requires
            crate::clock::is_dated(at as int),
        ensures
            next.0@ == logout_cookie(*config, at),
            match token {
                Ok(token) => next.1 matches Step::Do(logout) && logout.key@
                    == vstd::utf8::encode_utf8(token@),
                Err(error) => next.1 == Step::<LogoutUser, bool>::Done(Err(error)),
            },
    {
        proof {
            reveal_strlit("");
            assert(""@ =~= Seq::<char>::empty());
        }
        let cookie = create_cookie_at(
            "",
            true,
            config.web.insecure_cookie,
            config.users.token_valid_for_days,
            at,
        );
        match token {
            Ok(token) => (cookie, Step::Do(service.logout_user(token.as_str()))),
            Err(error) => (cookie, Step::Done(Err(error))),
        }
    }

    /// Logout a user from the server, deleting their login token. The cookie is taken back in
    /// any case.
    pub fn logout_user(
        &self,
        service: &MiscService,
        config: &AppConfig,
        token: Result<String, Error>,
    ) -> (next: (String, Step<LogoutUser, bool>))
        ensures
            exists|at: i64|
                crate::clock::is_dated(at as int) && next.0@ == #[trigger] logout_cookie(
                    *config,
                    at,
                ),
            match token {
                Ok(token) => next.1 matches Step::Do(logout) && logout.key@
                    == vstd::utf8::encode_utf8(token@),
                Err(error) => next.1 == Step::<LogoutUser, bool>::Done(Err(error)),
            },
    {
        self.logout_user_at(service, config, token, utc_second())
    }

    /// Update a user's profile details.
    pub fn update_user(
        &self,
        service: &MiscService,
        user: Result<i32, Error>,
        config: &AppConfig,
        input: UpdateUserInput,
    ) -> (next: Step<UpdateUser, IdObject>)
        ensures
            next == done_for::<i32, UpdateUser, IdObject>(
                user,
                |user_id: i32|
                    UpdateUser {
                        user_id,
                        input,
                        allow_changing_username: config.users.allow_changing_username,
                    },
            ),
    {
        match user {
            Ok(user_id) => Step::Do(service.update_user(user_id, input, config)),
            Err(error) => Step::Done(Err(error)),
        }
    }

    /// Delete all summaries for the currently logged in user and then generate one from
    /// scratch.
    pub fn regenerate_user_summary(&self, service: &MiscService, user: Result<i32, Error>) -> (next:
        Step<RegenerateSummary, bool>)
        ensures
            next == done_for::<i32, RegenerateSummary, bool>(
                user,
                |user_id: i32|
                    RegenerateSummary { cleanup: crate::summaries::CleanupSummaries { user_id } },
            ),
    {
        match user {
            Ok(user_id) => Step::Do(service.regenerate_user_summary(user_id)),
            Err(error) => Step::Done(Err(error)),
        }
    }

    /// Create a custom media item.
    pub fn create_custom_media(
        &self,
        service: &MiscService,
        user: Result<i32, Error>,
        input: CreateCustomMediaInput,
    ) -> (next: Step<SaveMedia, CreateCustomMediaResult>)
        ensures
            match user {
                Ok(user_id) => exists|identifier: Seq<char>|
                    crate::unique_id::is_unique_id(identifier)
                        && #[trigger] crate::custom_media::begins_custom_media(
                        next,
                        *service,
                        input,
                        user_id,
                        identifier,
                    ),
                Err(error) => next == Step::<SaveMedia, CreateCustomMediaResult>::Done(Err(error)),
            },
    {
        match user {
            Ok(user_id) => service.create_custom_media(input, user_id),
            Err(error) => Step::Done(Err(error)),
        }
    }
}

/// Law: somebody who is known gets the work done that they asked for, and nobody else does.
pub proof fn law_known_senders_are_served<S, W, T>(
    sender: S,
    error: Error,
    work: spec_fn(S) -> W,
)
    ensures
        done_for::<S, W, T>(Ok(sender), work) == Step::<W, T>::Do(work(sender)),
        done_for::<S, W, T>(Err(error), work) == Step::<W, T>::Done(Err(error)),
{
}

/// Law: the cookie of a login holds the API key that was handed out, goes over secure
/// connections only unless it may be insecure, and lasts for as many days as a token does, as
/// far as there are dates. Without an API key there is no cookie.
pub proof fn law_login_cookie_in_full(
    response: crate::sessions::LoginResponse,
    refusal: crate::sessions::LoginError,
    error: Error,
    config: AppConfig,
    at: i64,
)
    ensures
        login_cookie(Err(error), config, at) is None,
        login_cookie(Ok(LoginResult::Error(refusal)), config, at) is None,
        ({
            let bare = if config.web.insecure_cookie {
                "auth"@ + "="@ + response.api_key@
            } else {
                "auth"@ + "="@ + response.api_key@ + "; Secure"@
            };
            let expiry = at + config.users.token_valid_for_days * 86_400;
            login_cookie(Ok(LoginResult::Success(response)), config, at) == Some(
                if -377_705_116_800 <= expiry <= 253_402_300_799 {
                    bare + "; Expires="@ + crate::session_cookie::http_date(expiry as i64)
                } else {
                    bare
                },
            )
        }),
{
    crate::session_cookie::law_cookie_in_full(
        response.api_key@,
        config.web.insecure_cookie,
        config.users.token_valid_for_days,
        at,
    );
}

/// Law: the cookie of a logout in full: no API key, expired at the moment of the logout.
pub proof fn law_logout_cookie_in_full(config: AppConfig, at: i64)
    ensures
        logout_cookie(config, at) == if config.web.insecure_cookie {
            "auth"@ + "="@ + Seq::<char>::empty() + "; Expires="@
                + crate::session_cookie::http_date(at)
        } else {
            "auth"@ + "="@ + Seq::<char>::empty() + "; Secure"@ + "; Expires="@
                + crate::session_cookie::http_date(at)
        },
{
    crate::session_cookie::law_cookie_in_full(
        Seq::empty(),
        config.web.insecure_cookie,
        config.users.token_valid_for_days,
        at,
    );
}

} // verus!
