//! Accounts.
use vstd::prelude::*;

use crate::config::AppConfig;
use crate::error::Error;
use crate::service::MiscService;
use crate::step::Step;
use crate::store::{ActiveValue, IdObject, Identifier, UserActiveModel, UserLot, UserModel};

verus! {

/// What a user types in to register or to log in.
#[derive(Debug, PartialEq, Eq)]
pub struct UserInput {
    pub username: String,
    pub password: String,
}

#[derive(Debug, Clone, Copy, PartialEq, Eq)]
pub enum RegisterErrorVariant {
    UsernameAlreadyExists,
}

#[derive(Debug, Clone, Copy, PartialEq, Eq)]
pub struct RegisterError {
    pub error: RegisterErrorVariant,
}

#[derive(Debug, Clone, Copy, PartialEq, Eq)]
pub enum RegisterResult {
    Success(IdObject),
    Error(RegisterError),
}

/// What a user wants to change about their account.
#[derive(Debug, PartialEq, Eq)]
pub struct UpdateUserInput {
    pub username: Option<String>,
    pub email: Option<String>,
    pub password: Option<String>,
}

/// Waits for the number of users with this name.
#[derive(Debug, PartialEq, Eq)]
pub struct RegisterUser {
    pub username: String,
    pub password: String,
}

impl RegisterUser {
    /// Only a name that nobody has can be registered.
    pub open spec fn after(self, namesakes: u64) -> Step<CountUsers, RegisterResult> {
        if namesakes == 0 {
            Step::Do(CountUsers { username: self.username, password: self.password })
        } else {
            Step::Done(
                Ok(
                    RegisterResult::Error(
                        RegisterError { error: RegisterErrorVariant::UsernameAlreadyExists },
                    ),
                ),
            )
        }
    }

    pub fn counted(self, namesakes: u64) -> (next: Step<CountUsers, RegisterResult>)
        ensures
            next == self.after(namesakes),
    {
        if namesakes != 0 {
            return Step::Done(
                Ok(
                    RegisterResult::Error(
                        RegisterError { error: RegisterErrorVariant::UsernameAlreadyExists },
                    ),
                ),
            );
        }
        Step::Do(CountUsers { username: self.username, password: self.password })
    }
}

/// Waits for the number of all users.
#[derive(Debug, PartialEq, Eq)]
pub struct CountUsers {
    pub username: String,
    pub password: String,
}

impl CountUsers {
    /// The first user is an administrator, all others are not.
    pub open spec fn after(self, users: u64) -> InsertUser {
        InsertUser {
            user: UserActiveModel {
                id: ActiveValue::NotSet,
                name: ActiveValue::Write(self.username),
                email: ActiveValue::NotSet,
                password: ActiveValue::Write(self.password),
                lot: ActiveValue::Write(
                    if users == 0 {
                        UserLot::Admin
                    } else {
                        UserLot::Normal
                    },
                ),
            },
        }
    }

    pub fn counted(self, users: u64) -> (next: InsertUser)
        ensures
            next == self.after(users),
    {
        let lot: UserLot = if users == 0 {
            UserLot::Admin
        } else {
            UserLot::Normal
        };
        InsertUser {
            user: UserActiveModel {
                id: ActiveValue::NotSet,
                name: ActiveValue::Write(self.username),
                email: ActiveValue::NotSet,
                password: ActiveValue::Write(self.password),
                lot: ActiveValue::Write(lot),
            },
        }
    }
}

/// Waits for the user to be inserted. The store keeps a hash of the password that it is given.
#[derive(Debug, PartialEq, Eq)]
pub struct InsertUser {
    pub user: UserActiveModel,
}

impl InsertUser {
    pub fn inserted(self, user_id: i32) -> (next: PushUserCreatedJob)
        ensures
            next == (PushUserCreatedJob { user_id: Identifier(user_id) }),
    {
        PushUserCreatedJob { user_id: Identifier(user_id) }
    }
}

/// Waits for the job that is run for a new user to be put on the job queue.
#[derive(Debug, PartialEq, Eq)]
pub struct PushUserCreatedJob {
    pub user_id: Identifier,
}

impl PushUserCreatedJob {
    pub fn pushed(self, push: Result<(), Error>) -> (outcome: Result<RegisterResult, Error>)
        ensures
            outcome == (match push {
                Ok(_) => Ok(RegisterResult::Success(IdObject { id: self.user_id })),
                Err(error) => Err(error),
            }),
    {
        match push {
            Ok(_) => Ok(RegisterResult::Success(IdObject { id: self.user_id })),
            Err(error) => Err(error),
        }
    }
}

/// Waits for the user with this id.
#[derive(Debug, PartialEq, Eq)]
pub struct UpdateUser {
    pub user_id: i32,
    pub input: UpdateUserInput,
    pub allow_changing_username: bool,
}

/// The column once a value is asked for; where none is, it keeps what it holds.
pub open spec fn changed<T>(asked: Option<T>, held: T) -> ActiveValue<T> {
    match asked {
        Some(value) => ActiveValue::Write(value),
        None => ActiveValue::Unchanged(held),
    }
}

fn change<T>(asked: Option<T>, held: T) -> (column: ActiveValue<T>)
    ensures
        column == changed(asked, held),
{
    match asked {
        Some(value) => ActiveValue::Write(value),
        None => ActiveValue::Unchanged(held),
    }
}

impl UpdateUser {
    /// What is asked for is written; a new name only where names may be changed.
    pub open spec fn after(self, user: UserModel) -> SaveUser {
        SaveUser {
            user: UserActiveModel {
                id: ActiveValue::Unchanged(user.id),
                name: if self.allow_changing_username {
                    changed(self.input.username, user.name)
                } else {
                    ActiveValue::Unchanged(user.name)
                },
                email: match self.input.email {
                    Some(email) => ActiveValue::Write(Some(email)),
                    None => ActiveValue::Unchanged(user.email),
                },
                password: changed(self.input.password, user.password),
                lot: ActiveValue::Unchanged(user.lot),
            },
        }
    }

    pub fn found(self, user: UserModel) -> (next: SaveUser)
        ensures
            next == self.after(user),
    {
        let username: Option<String> = if self.allow_changing_username {
            self.input.username
        } else {
            None
        };
        let email: ActiveValue<Option<String>> = match self.input.email {
            Some(email) => ActiveValue::Write(Some(email)),
            None => ActiveValue::Unchanged(user.email),
        };
        SaveUser {
            user: UserActiveModel {
                id: ActiveValue::Unchanged(user.id),
                name: change(username, user.name),
                email,
                password: change(self.input.password, user.password),
                lot: ActiveValue::Unchanged(user.lot),
            },
        }
    }
}

/// Waits for the user to be updated. The store keeps a hash of a password that it is given.
#[derive(Debug, PartialEq, Eq)]
pub struct SaveUser {
    pub user: UserActiveModel,
}

impl SaveUser {
    pub fn updated(self, user_id: i32) -> (outcome: Result<IdObject, Error>)
        ensures
            outcome == Ok::<IdObject, Error>(IdObject { id: Identifier(user_id) }),
    {
        Ok(IdObject { id: Identifier(user_id) })
    }
}

impl MiscService {
    /// Create a new user for the service. Also set their `lot` as admin if they are the first
    /// user.
    pub fn register_user(&self, username: String, password: String) -> (next: RegisterUser)
        ensures
            next == (RegisterUser { username, password }),
    {
        RegisterUser { username, password }
    }

    /// Update a user's profile details.
    pub fn update_user(
        &self,
        user_id: i32,
        input: UpdateUserInput,
        config: &AppConfig,
    ) -> (next: UpdateUser)
        ensures
            next == (UpdateUser {
                user_id,
                input,
                allow_changing_username: config.users.allow_changing_username,
            }),
    {
        UpdateUser {
            user_id,
            input,
            allow_changing_username: config.users.allow_changing_username,
        }
    }
}

/// Law: a name is registered once at most, and whoever is registered is an administrator
/// exactly if there were no users before.
pub proof fn law_first_user_is_admin(
    register: RegisterUser,
    namesakes: u64,
    users: u64,
)
    ensures
        register.after(namesakes) is Do <==> namesakes == 0,
        register.after(namesakes) matches Step::Do(count) ==> {
            let user = count.after(users).user;
            &&& user.name == ActiveValue::Write(register.username)
            &&& user.password == ActiveValue::Write(register.password)
            &&& user.lot == ActiveValue::Write(UserLot::Admin) <==> users == 0
            &&& user.lot == ActiveValue::Write(UserLot::Normal) <==> users > 0
        },
{
}

/// Law: an update never changes who a user is or what they may do, changes nothing that was
/// not asked for, and leaves the name alone where names may not be changed.
pub proof fn law_update_changes_what_was_asked(update: UpdateUser, user: UserModel)
    ensures
        ({
            let after = update.after(user).user.written(user);
            &&& after.id == user.id
            &&& after.lot == user.lot
            &&& update.input.username is None || !update.allow_changing_username ==> after.name
                == user.name
            &&& update.input.email is None ==> after.email == user.email
            &&& update.input.password is None ==> after.password == user.password
            &&& update.input.username matches Some(name) ==> update.allow_changing_username
                ==> after.name == name
            &&& update.input.email matches Some(email) ==> after.email == Some(email)
            &&& update.input.password matches Some(password) ==> after.password == password
        }),
{
}

/// Law: registering is answered by the number of users of that name: where there is one, that
/// is what is told; where there is none, the user is inserted with the name and password given,
/// as an administrator exactly if there are no users, and with all else left to the store.
pub proof fn law_registration_is_answered(register: RegisterUser, namesakes: u64, users: u64)
    ensures
        namesakes > 0 ==> register.after(namesakes) == Step::<CountUsers, RegisterResult>::Done(
            Ok(
                RegisterResult::Error(
                    RegisterError { error: RegisterErrorVariant::UsernameAlreadyExists },
                ),
            ),
        ),
        namesakes == 0 ==> (register.after(namesakes) matches Step::Do(count) && {
            let row = count.after(users).user;
            &&& row.id is NotSet
            &&& row.name == ActiveValue::Write(register.username)
            &&& row.email is NotSet
            &&& row.password == ActiveValue::Write(register.password)
            &&& row.lot == ActiveValue::Write(
                if users == 0 {
                    UserLot::Admin
                } else {
                    UserLot::Normal
                },
            )
        }),
{
}

/// Law: an update writes exactly the columns that were asked for, and a name only where names
/// may be changed; every other column is handed back unchanged.
pub proof fn law_update_writes_what_was_asked(update: UpdateUser, user: UserModel)
    ensures
        ({
            let row = update.after(user).user;
            &&& row.id == ActiveValue::Unchanged(user.id)
            &&& row.lot == ActiveValue::Unchanged(user.lot)
            &&& row.name == match update.input.username {
                Some(name) => if update.allow_changing_username {
                    ActiveValue::Write(name)
                } else {
                    ActiveValue::Unchanged(user.name)
                },
                None => ActiveValue::Unchanged(user.name),
            }
            &&& row.email == match update.input.email {
                Some(email) => ActiveValue::Write(Some(email)),
                None => ActiveValue::Unchanged(user.email),
            }
            &&& row.password == match update.input.password {
                Some(password) => ActiveValue::Write(password),
                None => ActiveValue::Unchanged(user.password),
            }
        }),
{
}

} // verus!
