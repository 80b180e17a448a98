//! Sessions: logging in, being recognized, and logging out.
//!
//! A session is an entry of a key-value store. Its key is the API key that was handed out,
//! its value is the id of the user, and it goes away by itself after a while.
use vstd::prelude::*;

use crate::clock::days_in_seconds;
use crate::decimal::{from_decimal, to_decimal};
use crate::error::Error;
use crate::password::{check_password, reads_as_hash};
use crate::service::MiscService;
use crate::step::Step;
use crate::store::UserModel;
use crate::unique_id::draw;

verus! {

#[derive(Debug, Clone, Copy, PartialEq, Eq)]
pub enum UserDetailsErrorVariant {
    AuthTokenInvalid,
}

#[derive(Debug, Clone, Copy, PartialEq, Eq)]
pub struct UserDetailsError {
    pub error: UserDetailsErrorVariant,
}

#[derive(Debug, PartialEq, Eq)]
pub enum UserDetailsResult {
    Success(UserModel),
    Error(UserDetailsError),
}

#[derive(Debug, Clone, Copy, PartialEq, Eq)]
pub enum LoginErrorVariant {
    UsernameDoesNotExist,
    CredentialsMismatch,
    MutexError,
}

#[derive(Debug, Clone, Copy, PartialEq, Eq)]
pub struct LoginError {
    pub error: LoginErrorVariant,
}

#[derive(Debug, PartialEq, Eq)]
pub struct LoginResponse {
    pub api_key: String,
}

#[derive(Debug, PartialEq, Eq)]
pub enum LoginResult {
    Success(LoginResponse),
    Error(LoginError),
}

/// A login that was turned down.
pub open spec fn turned_down(error: LoginErrorVariant) -> Result<LoginResult, Error> {
    Ok(LoginResult::Error(LoginError { error }))
}

/// How storing a session went.
#[derive(Debug, PartialEq, Eq)]
pub enum SessionReply {
    Stored,
    /// The store did not take the session.
    Failed(Error),
    /// The store could not be locked.
    LockPoisoned,
}

/// Waits for the user of this name, if there is one.
#[derive(Debug, PartialEq, Eq)]
pub struct LoginUser {
    pub username: String,
    pub password: String,
    pub valid_for_days: i32,
}

impl LoginUser {
    /// Whether a password can be held against the one that is stored for the user.
    pub open spec fn can_check(self, user: UserModel) -> bool {
        crate::password::is_password_hash(user.password@)
    }

    /// What follows once it is known whether the password given is the user's: a session
    /// under the API key, or none.
    pub open spec fn goes_on(
        self,
        next: Step<StoreSession, LoginResult>,
        user: UserModel,
        fits: bool,
        api_key: Seq<char>,
    ) -> bool {
        match next {
            Step::Do(session) => fits && is_session(session, user.id, self.valid_for_days, api_key),
            Step::Done(outcome) => !fits && outcome == turned_down(
                LoginErrorVariant::CredentialsMismatch,
            ),
        }
    }

    /// Goes on once it is known whether the password given is the user's.
    pub fn checked(self, user: UserModel, fits: bool, api_key: String) -> (next: Step<
        StoreSession,
        LoginResult,
    >)
        ensures
            self.goes_on(next, user, fits, api_key@),
    {
        if !fits {
            return Step::Done(
                Ok(LoginResult::Error(LoginError { error: LoginErrorVariant::CredentialsMismatch })),
            );
        }
        Step::Do(open_session(user.id, self.valid_for_days, api_key))
    }

    /// Checks the password and, where it is the user's, opens a session under a new API key.
    pub fn found(self, user: Option<UserModel>) -> (next: Step<StoreSession, LoginResult>)
        requires
            user matches Some(user) ==> self.can_check(user),
        ensures
            match user {
                Some(user) => exists|api_key: Seq<char>|
                    crate::unique_id::is_unique_id(api_key) && #[trigger] self.goes_on(
                        next,
                        user,
                        crate::password::is_password(
                            user.password@,
                            vstd::utf8::encode_utf8(self.password@),
                        ),
                        api_key,
                    ),
                None => next == Step::<StoreSession, LoginResult>::Done(
                    turned_down(LoginErrorVariant::UsernameDoesNotExist),
                ),
            },
    {
        match user {
            Some(user) => {
                let fits: bool = check_password(
                    user.password.as_str(),
                    self.password.as_str().as_bytes(),
                );
                self.checked(user, fits, draw())
            },
            None => Step::Done(
                Ok(LoginResult::Error(LoginError { error: LoginErrorVariant::UsernameDoesNotExist })),
            ),
        }
    }

    /// Checks the password where that is possible, and gives nothing otherwise.
    pub fn try_found(self, user: Option<UserModel>) -> (next: Option<
        Step<StoreSession, LoginResult>,
    >)
        ensures
            next is Some <==> (user matches Some(user) ==> self.can_check(user)),
            next matches Some(next) ==> match user {
                Some(user) => exists|api_key: Seq<char>|
                    crate::unique_id::is_unique_id(api_key) && #[trigger] self.goes_on(
                        next,
                        user,
                        crate::password::is_password(
                            user.password@,
                            vstd::utf8::encode_utf8(self.password@),
                        ),
                        api_key,
                    ),
                None => next == Step::<StoreSession, LoginResult>::Done(
                    turned_down(LoginErrorVariant::UsernameDoesNotExist),
                ),
            },
    {
        let possible: bool = match &user {
            Some(user) => reads_as_hash(user.password.as_str()),
            None => true,
        };
        if possible {
            Some(self.found(user))
        } else {
            None
        }
    }
}

/// Waits for the session to be put into the store, to stay there for so many days.
#[derive(Debug, PartialEq, Eq)]
pub struct StoreSession {
    pub key: Vec<u8>,
    pub value: Vec<u8>,
    pub valid_for_days: i32,
    pub api_key: String,
}

/// The session of a user under an API key, for a number of days.
pub open spec fn is_session(
    session: StoreSession,
    user_id: i32,
    valid_for_days: i32,
    api_key: Seq<char>,
) -> bool {
    &&& session.key@ == vstd::utf8::encode_utf8(api_key)
    &&& session.value@ == crate::decimal::decimal(user_id as int)
    &&& session.valid_for_days == valid_for_days
    &&& session.api_key@ == api_key
}

/// Opens a session for a user under a given API key.
pub fn open_session(user_id: i32, valid_for_days: i32, api_key: String) -> (session: StoreSession)
    ensures
        is_session(session, user_id, valid_for_days, api_key@),
{
    StoreSession {
        key: api_key.as_str().as_bytes_vec(),
        value: to_decimal(user_id),
        valid_for_days,
        api_key,
    }
}

impl StoreSession {
    /// What the store holds once the session is in it.
    pub open spec fn put_into(self, store: Map<Seq<u8>, Seq<u8>>) -> Map<Seq<u8>, Seq<u8>> {
        store.insert(self.key@, self.value@)
    }

    /// For how many seconds the session stays in the store.
    pub fn seconds(&self) -> (seconds: u64)
        requires
            self.valid_for_days >= 0,
        ensures
            seconds == self.valid_for_days * crate::clock::SECONDS_PER_DAY,
    {
        let seconds: i64 = days_in_seconds(self.valid_for_days);
        seconds as u64
    }

    /// The API key, once the session is stored.
    pub open spec fn after(self, reply: SessionReply) -> Result<LoginResult, Error> {
        match reply {
            SessionReply::Stored => Ok(
                LoginResult::Success(LoginResponse { api_key: self.api_key }),
            ),
            SessionReply::Failed(error) => Err(error),
            SessionReply::LockPoisoned => turned_down(LoginErrorVariant::MutexError),
        }
    }

    pub fn stored(self, reply: SessionReply) -> (outcome: Result<LoginResult, Error>)
        ensures
            outcome == self.after(reply),
    {
        match reply {
            SessionReply::Stored => Ok(
                LoginResult::Success(LoginResponse { api_key: self.api_key }),
            ),
            SessionReply::Failed(error) => Err(error),
            SessionReply::LockPoisoned => Ok(
                LoginResult::Error(LoginError { error: LoginErrorVariant::MutexError }),
            ),
        }
    }
}

/// What the store holds under a key.
pub open spec fn looked_up(store: Map<Seq<u8>, Seq<u8>>, key: Seq<u8>) -> Option<Seq<u8>> {
    if store.dom().contains(key) {
        Some(store[key])
    } else {
        None
    }
}

/// Waits for what the store holds under the key of a session, if anything.
#[derive(Debug, PartialEq, Eq)]
pub struct UserDetails {
    pub key: Vec<u8>,
}

impl UserDetails {
    /// Somebody who is not known by their session is told so; otherwise the user is found.
    pub open spec fn after(self, value: Option<Seq<u8>>) -> Step<FindUser, UserDetailsResult> {
        match value {
            Some(value) => Step::Do(FindUser { user_id: crate::decimal::parsed(value)->0 }),
            None => Step::Done(
                Ok(
                    UserDetailsResult::Error(
                        UserDetailsError { error: UserDetailsErrorVariant::AuthTokenInvalid },
                    ),
                ),
            ),
        }
    }

    pub fn found(self, value: Option<Vec<u8>>) -> (next: Step<FindUser, UserDetailsResult>)
        requires
            value matches Some(value) ==> crate::decimal::parsed(value@) is Some,
        ensures
            next == self.after(
                match value {
                    Some(value) => Some(value@),
                    None => None,
                },
            ),
    {
        match value {
            Some(value) => Step::Do(FindUser { user_id: from_decimal(&value).unwrap() }),
            None => Step::Done(
                Ok(
                    UserDetailsResult::Error(
                        UserDetailsError { error: UserDetailsErrorVariant::AuthTokenInvalid },
                    ),
                ),
            ),
        }
    }

    /// Goes on where the value is the id of a user or there is none, and gives nothing
    /// otherwise.
    pub fn try_found(self, value: Option<Vec<u8>>) -> (next: Option<
        Step<FindUser, UserDetailsResult>,
    >)
        ensures
            next is Some <==> (value matches Some(value) ==> crate::decimal::parsed(value@)
                is Some),
            next matches Some(next) ==> next == self.after(
                match value {
                    Some(value) => Some(value@),
                    None => None,
                },
            ),
    {
        let readable: bool = match &value {
            Some(value) => from_decimal(value).is_some(),
            None => true,
        };
        if readable {
            Some(self.found(value))
        } else {
            None
        }
    }
}

/// Waits for the user with this id.
#[derive(Debug, PartialEq, Eq)]
pub struct FindUser {
    pub user_id: i32,
}

impl FindUser {
    pub fn found(self, user: UserModel) -> (outcome: Result<UserDetailsResult, Error>)
        ensures
            outcome == Ok::<UserDetailsResult, Error>(UserDetailsResult::Success(user)),
    {
        Ok(UserDetailsResult::Success(user))
    }
}

/// Waits for what the store holds under the key of a session, if anything.
#[derive(Debug, PartialEq, Eq)]
pub struct LogoutUser {
    pub key: Vec<u8>,
}

impl LogoutUser {
    /// A session that is there is removed.
    pub open spec fn after(self, value: Option<Seq<u8>>) -> Step<RemoveSession, bool> {
        match value {
            Some(_) => Step::Do(RemoveSession { key: self.key }),
            None => Step::Done(Ok(false)),
        }
    }

    pub fn found(self, value: Option<Vec<u8>>) -> (next: Step<RemoveSession, bool>)
        ensures
            next == self.after(
                match value {
                    Some(value) => Some(value@),
                    None => None,
                },
            ),
    {
        match value {
            Some(_) => Step::Do(RemoveSession { key: self.key }),
            None => Step::Done(Ok(false)),
        }
    }
}

/// Waits for the session under this key to be removed from the store.
#[derive(Debug, PartialEq, Eq)]
pub struct RemoveSession {
    pub key: Vec<u8>,
}

impl RemoveSession {
    /// What the store holds once the session is removed.
    pub open spec fn taken_out_of(self, store: Map<Seq<u8>, Seq<u8>>) -> Map<Seq<u8>, Seq<u8>> {
        store.remove(self.key@)
    }

    pub fn removed(self, removal: Result<(), Error>) -> (outcome: Result<bool, Error>)
        ensures
            outcome == (match removal {
                Ok(_) => Ok(true),
                Err(error) => Err(error),
            }),
    {
        match removal {
            Ok(_) => Ok(true),
            Err(error) => Err(error),
        }
    }
}

impl MiscService {
    /// Login a user using their username and password.
    pub fn login_user(&self, username: String, password: String, valid_for_days: i32) -> (next:
        LoginUser)
        ensures
            next == (LoginUser { username, password, valid_for_days }),
    {
        LoginUser { username, password, valid_for_days }
    }

    /// Get details about the user whose session this is.
    pub fn user_details(&self, token: &str) -> (next: UserDetails)
        ensures
            next.key@ == vstd::utf8::encode_utf8(token@),
    {
        UserDetails { key: token.as_bytes_vec() }
    }

    /// Logout a user, deleting their login token.
    pub fn logout_user(&self, token: &str) -> (next: LogoutUser)
        ensures
            next.key@ == vstd::utf8::encode_utf8(token@),
    {
        LogoutUser { key: token.as_bytes_vec() }
    }
}

proof fn lemma_keys_are_told_apart(token: Seq<char>, other: Seq<char>)
    requires
        token != other,
    ensures
        vstd::utf8::encode_utf8(token) != vstd::utf8::encode_utf8(other),
{
    vstd::utf8::encode_utf8_decode_utf8(token);
    vstd::utf8::encode_utf8_decode_utf8(other);
}

/// Law: a session is opened exactly if the password given is the user's, and it is a session
/// of that user; otherwise the login is turned down.
pub proof fn law_wrong_password_opens_no_session(
    login: LoginUser,
    next: Step<StoreSession, LoginResult>,
    user: UserModel,
    fits: bool,
    api_key: Seq<char>,
)
    requires
        login.goes_on(next, user, fits, api_key),
    ensures
        next is Do <==> fits,
        next matches Step::Do(session) ==> crate::decimal::parsed(session.value@) == Some(user.id),
        !fits ==> next == Step::<StoreSession, LoginResult>::Done(
            turned_down(LoginErrorVariant::CredentialsMismatch),
        ),
{
    crate::decimal::law_decimal_round_trip(user.id);
}

/// Law: while a session is in the store, its API key leads to the user who logged in, and to
/// nobody else.
pub proof fn law_session_leads_to_its_user(
    session: StoreSession,
    user_id: i32,
    valid_for_days: i32,
    api_key: Seq<char>,
    store: Map<Seq<u8>, Seq<u8>>,
    details: UserDetails,
)
    requires
        is_session(session, user_id, valid_for_days, api_key),
        details.key@ == vstd::utf8::encode_utf8(api_key),
    ensures
        looked_up(session.put_into(store), details.key@) matches Some(value)
            && crate::decimal::parsed(value) == Some(user_id),
        details.after(looked_up(session.put_into(store), details.key@)) == Step::<
            FindUser,
            UserDetailsResult,
        >::Do(FindUser { user_id }),
{
    crate::decimal::law_decimal_round_trip(user_id);
}

/// Law: a new session changes nothing for anybody with another API key.
pub proof fn law_sessions_are_apart(
    session: StoreSession,
    user_id: i32,
    valid_for_days: i32,
    api_key: Seq<char>,
    store: Map<Seq<u8>, Seq<u8>>,
    token: Seq<char>,
    details: UserDetails,
)
    requires
        is_session(session, user_id, valid_for_days, api_key),
        details.key@ == vstd::utf8::encode_utf8(token),
        token != api_key,
    ensures
        looked_up(session.put_into(store), details.key@) == looked_up(store, details.key@),
{
    lemma_keys_are_told_apart(token, api_key);
}

/// Law: a session that is there is removed by logging out. From then on its token is
/// invalid, and all other sessions are as they were.
pub proof fn law_logout_ends_the_session(
    token: Seq<char>,
    other: Seq<char>,
    store: Map<Seq<u8>, Seq<u8>>,
    logout: LogoutUser,
    remove: RemoveSession,
    details: UserDetails,
)
    requires
        logout.key@ == vstd::utf8::encode_utf8(token),
        details.key@ == vstd::utf8::encode_utf8(token),
        logout.after(looked_up(store, logout.key@)) == Step::<RemoveSession, bool>::Do(remove),
        token != other,
    ensures
        store.dom().contains(vstd::utf8::encode_utf8(token)),
        details.after(looked_up(remove.taken_out_of(store), details.key@)) == Step::<
            FindUser,
            UserDetailsResult,
        >::Done(
            Ok(
                UserDetailsResult::Error(
                    UserDetailsError { error: UserDetailsErrorVariant::AuthTokenInvalid },
                ),
            ),
        ),
        logout.after(looked_up(remove.taken_out_of(store), logout.key@)) == Step::<
            RemoveSession,
            bool,
        >::Done(Ok(false)),
        looked_up(remove.taken_out_of(store), vstd::utf8::encode_utf8(other)) == looked_up(
            store,
            vstd::utf8::encode_utf8(other),
        ),
{
    lemma_keys_are_told_apart(token, other);
}

/// Law: logging out undoes a login, where the API key was not in use.
pub proof fn law_logout_undoes_login(
    session: StoreSession,
    user_id: i32,
    valid_for_days: i32,
    api_key: Seq<char>,
    store: Map<Seq<u8>, Seq<u8>>,
    logout: LogoutUser,
)
    requires
        is_session(session, user_id, valid_for_days, api_key),
        logout.key@ == vstd::utf8::encode_utf8(api_key),
        !store.dom().contains(vstd::utf8::encode_utf8(api_key)),
    ensures
        logout.after(looked_up(session.put_into(store), logout.key@)) matches Step::Do(remove)
            && remove.taken_out_of(session.put_into(store)) == store,
{
    let remove = RemoveSession { key: logout.key };
    assert(remove.taken_out_of(session.put_into(store)) =~= store);
}

/// Law: whoever logs in gets the API key that the store was given.
pub proof fn law_login_hands_out_the_stored_key(
    session: StoreSession,
    user_id: i32,
    valid_for_days: i32,
    api_key: Seq<char>,
    reply: SessionReply,
)
    requires
        is_session(session, user_id, valid_for_days, api_key),
    ensures
        session.after(reply) matches Ok(LoginResult::Success(response)) ==> reply is Stored
            && vstd::utf8::encode_utf8(response.api_key@) == session.key@,
        reply is Stored ==> session.after(reply) matches Ok(LoginResult::Success(_)),
{
}

/// Law: what becomes of a login, in full: a session under the API key for the user and as many
/// days as were asked for, where the password is theirs; otherwise the answer that the
/// credentials do not match.
pub proof fn law_login_is_answered(
    login: LoginUser,
    next: Step<StoreSession, LoginResult>,
    user: UserModel,
    fits: bool,
    api_key: Seq<char>,
)
    requires
        login.goes_on(next, user, fits, api_key),
    ensures
        fits ==> (next matches Step::Do(session) && {
            &&& session.key@ == vstd::utf8::encode_utf8(api_key)
            &&& session.api_key@ == api_key
            &&& session.valid_for_days == login.valid_for_days
            &&& session.value@ == crate::decimal::decimal(user.id as int)
        }),
        !fits ==> next == Step::<StoreSession, LoginResult>::Done(
            Ok(LoginResult::Error(LoginError { error: LoginErrorVariant::CredentialsMismatch })),
        ),
{
}

/// Law: who can be checked, and in which words a login is turned down.
pub proof fn law_refusals_name_their_reason(
    login: LoginUser,
    user: UserModel,
    error: LoginErrorVariant,
)
    ensures
        login.can_check(user) <==> crate::password::is_password_hash(user.password@),
        turned_down(error) == Ok::<LoginResult, Error>(LoginResult::Error(LoginError { error })),
{
}

/// Law: what is answered once the store has spoken: the API key where the session is stored,
/// the store's own error where it is not, and that the store is locked where it is.
pub proof fn law_store_reply_is_passed_on(session: StoreSession, error: Error)
    ensures
        session.after(SessionReply::Stored) == Ok::<LoginResult, Error>(
            LoginResult::Success(LoginResponse { api_key: session.api_key }),
        ),
        session.after(SessionReply::Failed(error)) == Err::<LoginResult, Error>(error),
        session.after(SessionReply::LockPoisoned) == Ok::<LoginResult, Error>(
            LoginResult::Error(LoginError { error: LoginErrorVariant::MutexError }),
        ),
{
}

/// Law: what a token comes to: the user whose id, written in decimal, is stored under it, or the
/// answer that it is not valid; and logging out removes what is stored under that very token,
/// if anything is.
pub proof fn law_tokens_are_answered(
    details: UserDetails,
    logout: LogoutUser,
    user_id: i32,
    value: Seq<u8>,
)
    ensures
        details.after(Some(crate::decimal::decimal(user_id as int))) == Step::<
            FindUser,
            UserDetailsResult,
        >::Do(FindUser { user_id }),
        crate::decimal::parsed(value) matches Some(id) ==> details.after(Some(value)) == Step::<
            FindUser,
            UserDetailsResult,
        >::Do(FindUser { user_id: id }),
        details.after(None) == Step::<FindUser, UserDetailsResult>::Done(
            Ok(
                UserDetailsResult::Error(
                    UserDetailsError { error: UserDetailsErrorVariant::AuthTokenInvalid },
                ),
            ),
        ),
        logout.after(Some(value)) == Step::<RemoveSession, bool>::Do(
            RemoveSession { key: logout.key },
        ),
        logout.after(None) == Step::<RemoveSession, bool>::Done(Ok(false)),
{
    crate::decimal::law_decimal_round_trip(user_id);
}

} // verus!
