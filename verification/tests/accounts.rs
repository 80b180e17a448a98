use ryot_misc::config::{AppConfig, UsersConfig, WebConfig};
use ryot_misc::error::Error;
use ryot_misc::service::{DefaultCollections, MiscService};
use ryot_misc::step::Step;
use ryot_misc::store::{
    ActiveValue, IdObject, Identifier, UserActiveModel, UserLot, UserModel,
};
use ryot_misc::users::{
    PushUserCreatedJob, RegisterError, RegisterErrorVariant, RegisterResult, SaveUser,
    UpdateUserInput,
};

fn service() -> MiscService {
    MiscService::new(DefaultCollections {
        names: vec!["In Progress".to_string(), "Custom".to_string()],
        in_progress: "In Progress".to_string(),
        custom: "Custom".to_string(),
    })
}

fn config(allow_changing_username: bool) -> AppConfig {
    AppConfig {
        users: UsersConfig { allow_changing_username, token_valid_for_days: 90 },
        web: WebConfig { insecure_cookie: false },
    }
}

fn user() -> UserModel {
    UserModel {
        id: 3,
        name: "old".to_string(),
        email: Some("old@example.org".to_string()),
        password: "hash".to_string(),
        lot: UserLot::Admin,
    }
}

fn registered_as(users: u64) -> UserActiveModel {
    match service().register_user("me".to_string(), "pw".to_string()).counted(0) {
        Step::Do(count) => count.counted(users).user,
        Step::Done(_) => panic!("the name was turned down"),
    }
}

#[test]
fn a_name_is_registered_once() {
    let register = service().register_user("me".to_string(), "pw".to_string());
    assert_eq!(register.username, "me");
    let taken = RegisterResult::Error(RegisterError {
        error: RegisterErrorVariant::UsernameAlreadyExists,
    });
    assert_eq!(register.counted(1), Step::Done(Ok(taken)));
    let register = service().register_user("me".to_string(), "pw".to_string());
    assert_eq!(register.counted(u64::MAX), Step::Done(Ok(taken)));
}

#[test]
fn the_first_user_is_an_administrator() {
    let row = |lot| UserActiveModel {
        id: ActiveValue::NotSet,
        name: ActiveValue::Write("me".to_string()),
        email: ActiveValue::NotSet,
        password: ActiveValue::Write("pw".to_string()),
        lot: ActiveValue::Write(lot),
    };
    assert_eq!(registered_as(0), row(UserLot::Admin));
    assert_eq!(registered_as(1), row(UserLot::Normal));
    assert_eq!(registered_as(500), row(UserLot::Normal));
}

#[test]
fn a_registered_user_gets_a_job() {
    match service().register_user("me".to_string(), "pw".to_string()).counted(0) {
        Step::Do(count) => {
            let push = count.counted(0).inserted(41);
            assert_eq!(push, PushUserCreatedJob { user_id: Identifier(41) });
            assert_eq!(
                push.pushed(Ok(())),
                Ok(RegisterResult::Success(IdObject { id: Identifier(41) }))
            );
        }
        Step::Done(_) => panic!("the name was turned down"),
    }
    let push = PushUserCreatedJob { user_id: Identifier(41) };
    assert_eq!(
        push.pushed(Err(Error::Outside("full".to_string()))),
        Err(Error::Outside("full".to_string()))
    );
}

#[test]
fn an_update_writes_what_was_asked() {
    let input = UpdateUserInput {
        username: Some("new".to_string()),
        email: Some("new@example.org".to_string()),
        password: Some("newpw".to_string()),
    };
    let update = service().update_user(3, input, &config(true));
    assert_eq!(update.user_id, 3);
    assert_eq!(
        update.found(user()).user,
        UserActiveModel {
            id: ActiveValue::Unchanged(3),
            name: ActiveValue::Write("new".to_string()),
            email: ActiveValue::Write(Some("new@example.org".to_string())),
            password: ActiveValue::Write("newpw".to_string()),
            lot: ActiveValue::Unchanged(UserLot::Admin),
        }
    );
}

#[test]
fn an_update_of_nothing_keeps_everything() {
    let input = UpdateUserInput { username: None, email: None, password: None };
    let save = service().update_user(3, input, &config(true)).found(user());
    assert_eq!(
        save.user,
        UserActiveModel {
            id: ActiveValue::Unchanged(3),
            name: ActiveValue::Unchanged("old".to_string()),
            email: ActiveValue::Unchanged(Some("old@example.org".to_string())),
            password: ActiveValue::Unchanged("hash".to_string()),
            lot: ActiveValue::Unchanged(UserLot::Admin),
        }
    );
    assert_eq!(save.updated(3), Ok(IdObject { id: Identifier(3) }));
}

#[test]
fn names_may_be_fixed() {
    let input =
        UpdateUserInput { username: Some("new".to_string()), email: None, password: None };
    let SaveUser { user } = service().update_user(3, input, &config(false)).found(user());
    assert_eq!(user.name, ActiveValue::Unchanged("old".to_string()));
}
