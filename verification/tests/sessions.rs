use argon2::password_hash::SaltString;
use argon2::{Argon2, PasswordHasher};
use ryot_misc::decimal::{from_decimal, to_decimal, to_decimal_string};
use ryot_misc::error::Error;
use ryot_misc::service::{DefaultCollections, MiscService};
use ryot_misc::session_cookie::{create_cookie, create_cookie_at, COOKIE_NAME};
use ryot_misc::sessions::{
    open_session, FindUser, LoginError, LoginErrorVariant, LoginResponse, LoginResult,
    RemoveSession, SessionReply, StoreSession, UserDetailsError, UserDetailsErrorVariant,
    UserDetailsResult,
};
use ryot_misc::step::Step;
use ryot_misc::store::{UserLot, UserModel};

fn service() -> MiscService {
    MiscService::new(DefaultCollections {
        names: vec!["In Progress".to_string(), "Custom".to_string()],
        in_progress: "In Progress".to_string(),
        custom: "Custom".to_string(),
    })
}

fn hashed(password: &str) -> String {
    let salt = SaltString::from_b64("c29tZXNhbHQ").unwrap();
    Argon2::default().hash_password(password.as_bytes(), &salt).unwrap().to_string()
}

fn user(id: i32, password: String) -> UserModel {
    UserModel { id, name: "me".to_string(), email: None, password, lot: UserLot::Normal }
}

fn turned_down(error: LoginErrorVariant) -> Result<LoginResult, Error> {
    Ok(LoginResult::Error(LoginError { error }))
}

fn is_v4(text: &str) -> bool {
    let chars: Vec<char> = text.chars().collect();
    chars.len() == 36
        && chars.iter().enumerate().all(|(i, c)| match i {
            8 | 13 | 18 | 23 => *c == '-',
            14 => *c == '4',
            19 => matches!(*c, '8' | '9' | 'a' | 'b'),
            _ => c.is_ascii_digit() || ('a'..='f').contains(c),
        })
}

#[test]
fn an_unknown_name_is_turned_down() {
    let login = service().login_user("nobody".to_string(), "pw".to_string(), 1);
    assert_eq!(login.username, "nobody");
    assert_eq!(
        login.found(None),
        Step::Done(turned_down(LoginErrorVariant::UsernameDoesNotExist))
    );
    let login = service().login_user("nobody".to_string(), "pw".to_string(), -1);
    assert_eq!(
        login.try_found(None),
        Some(Step::Done(turned_down(LoginErrorVariant::UsernameDoesNotExist)))
    );
}

#[test]
fn a_wrong_password_is_turned_down() {
    let login = service().login_user("me".to_string(), "wrong".to_string(), 1);
    assert_eq!(
        login.found(Some(user(7, hashed("right")))),
        Step::Done(turned_down(LoginErrorVariant::CredentialsMismatch))
    );
}

#[test]
fn the_right_password_opens_a_session() {
    let login = service().login_user("me".to_string(), "right".to_string(), 90);
    match login.found(Some(user(-17, hashed("right")))) {
        Step::Do(session) => {
            assert!(is_v4(&session.api_key));
            assert_eq!(session.key, session.api_key.as_bytes());
            assert_eq!(session.value, b"-17");
            assert_eq!(session.valid_for_days, 90);
            assert_eq!(session.seconds(), 7_776_000);
            let api_key = session.api_key.clone();
            assert_eq!(
                session.stored(SessionReply::Stored),
                Ok(LoginResult::Success(LoginResponse { api_key }))
            );
        }
        Step::Done(_) => panic!("the login was turned down"),
    }
}

#[test]
fn api_keys_differ() {
    let open = || {
        let login = service().login_user("me".to_string(), "right".to_string(), 0);
        match login.found(Some(user(7, hashed("right")))) {
            Step::Do(session) => session.api_key,
            Step::Done(_) => panic!("the login was turned down"),
        }
    };
    assert_ne!(open(), open());
}

#[test]
fn an_unreadable_password_is_noticed() {
    let login = service().login_user("me".to_string(), "right".to_string(), 1);
    assert_eq!(login.try_found(Some(user(7, "plain".to_string()))), None);
    let login = service().login_user("me".to_string(), "wrong".to_string(), 1);
    assert_eq!(
        login.try_found(Some(user(7, hashed("right")))),
        Some(Step::Done(turned_down(LoginErrorVariant::CredentialsMismatch)))
    );
    let login = service().login_user("me".to_string(), "right".to_string(), 1);
    assert!(matches!(login.try_found(Some(user(7, hashed("right")))), Some(Step::Do(_))));
}

#[test]
fn a_negative_lifetime_matters_only_once_the_store_is_locked() {
    let login = service().login_user("me".to_string(), "right".to_string(), -1);
    match login.try_found(Some(user(7, hashed("right")))) {
        Some(Step::Do(session)) => {
            assert_eq!(session.valid_for_days, -1);
            assert_eq!(
                session.stored(SessionReply::LockPoisoned),
                turned_down(LoginErrorVariant::MutexError)
            );
        }
        _ => panic!("the login was turned down"),
    }
}

fn login_with_parameters(parameters: &str) -> Option<Step<StoreSession, LoginResult>> {
    let stored = format!("$argon2id$v=19${}$c29tZXNhbHQ$c29tZXNhbHRzb21lc2FsdA", parameters);
    service()
        .login_user("me".to_string(), "right".to_string(), 1)
        .try_found(Some(user(7, stored)))
}

#[test]
fn no_password_is_hashed_on_that_many_lanes() {
    let refused = || Some(Step::Done(turned_down(LoginErrorVariant::CredentialsMismatch)));
    for lanes in ["536870911", "536870912", "536870913", "4294967295", "4294967296", "100000000"] {
        assert_eq!(login_with_parameters(&format!("m=19456,t=2,p={}", lanes)), refused());
        assert_eq!(login_with_parameters(&format!("p={},m=19456,t=2", lanes)), refused());
        assert_eq!(login_with_parameters(&format!("m=8,t=1,p=1,p={}", lanes)), refused());
        assert_eq!(login_with_parameters(&format!("m=8,t=1,p={},xp=1", lanes)), refused());
    }
    assert_eq!(login_with_parameters("m=8,t=1,p=16777216"), refused());
    assert_eq!(login_with_parameters("m=8,t=1,p=99999999"), refused());
    assert_eq!(login_with_parameters("m=8,t=1,p=1"), refused());
}

#[test]
fn the_last_number_of_lanes_counts() {
    let stored = hashed("right").replace("p=1", "p=536870912,p=1");
    let login = || service().login_user("me".to_string(), "right".to_string(), 1);
    assert!(matches!(login().found(Some(user(7, stored))), Step::Do(_)));
    let stored = hashed("right").replace("p=1", "p=1,p=536870912");
    assert_eq!(
        login().found(Some(user(7, stored))),
        Step::Done(turned_down(LoginErrorVariant::CredentialsMismatch))
    );
}

#[test]
fn a_checked_password_decides() {
    let login = || service().login_user("me".to_string(), "pw".to_string(), 2);
    assert_eq!(
        login().checked(user(7, String::new()), false, "key".to_string()),
        Step::Done(turned_down(LoginErrorVariant::CredentialsMismatch))
    );
    assert_eq!(
        login().checked(user(7, String::new()), true, "key".to_string()),
        Step::Do(StoreSession {
            key: b"key".to_vec(),
            value: b"7".to_vec(),
            valid_for_days: 2,
            api_key: "key".to_string(),
        })
    );
}

#[test]
fn a_session_that_is_not_stored_is_none() {
    let session = open_session(7, i32::MAX, "key".to_string());
    assert_eq!(session.seconds(), 185_542_587_100_800);
    assert_eq!(
        session.stored(SessionReply::LockPoisoned),
        turned_down(LoginErrorVariant::MutexError)
    );
    let session = open_session(7, 0, "key".to_string());
    assert_eq!(session.seconds(), 0);
    assert_eq!(
        session.stored(SessionReply::Failed(Error::Outside("full".to_string()))),
        Err(Error::Outside("full".to_string()))
    );
}

#[test]
fn a_session_leads_to_its_user() {
    let session = open_session(1234, 1, "k\u{e9}y".to_string());
    let details = service().user_details("k\u{e9}y");
    assert_eq!(details.key, session.key);
    assert_eq!(
        details.found(Some(session.value)),
        Step::Do(FindUser { user_id: 1234 })
    );
    assert_eq!(
        FindUser { user_id: 1234 }.found(user(1234, String::new())),
        Ok(UserDetailsResult::Success(user(1234, String::new())))
    );
}

#[test]
fn a_stranger_is_told_so() {
    let invalid = UserDetailsResult::Error(UserDetailsError {
        error: UserDetailsErrorVariant::AuthTokenInvalid,
    });
    assert_eq!(service().user_details("x").found(None), Step::Done(Ok(invalid)));
    let invalid = UserDetailsResult::Error(UserDetailsError {
        error: UserDetailsErrorVariant::AuthTokenInvalid,
    });
    assert_eq!(service().user_details("x").try_found(None), Some(Step::Done(Ok(invalid))));
}

#[test]
fn an_unreadable_session_is_noticed() {
    let details = || service().user_details("x");
    assert_eq!(details().try_found(Some(b"12a".to_vec())), None);
    assert_eq!(details().try_found(Some(vec![])), None);
    assert_eq!(
        details().try_found(Some(b"12".to_vec())),
        Some(Step::Do(FindUser { user_id: 12 }))
    );
}

#[test]
fn logging_out_removes_the_session_under_its_key() {
    let logout = service().logout_user("key");
    assert_eq!(logout.key, b"key");
    assert_eq!(
        logout.found(Some(b"7".to_vec())),
        Step::Do(RemoveSession { key: b"key".to_vec() })
    );
    assert_eq!(service().logout_user("key").found(None), Step::Done(Ok(false)));
    assert_eq!(RemoveSession { key: b"key".to_vec() }.removed(Ok(())), Ok(true));
    assert_eq!(
        RemoveSession { key: b"key".to_vec() }.removed(Err(Error::Outside("down".to_string()))),
        Err(Error::Outside("down".to_string()))
    );
}

#[test]
fn a_session_cookie_reads_as_a_header() {
    assert_eq!(COOKIE_NAME, "auth");
    assert_eq!(
        create_cookie_at("key", true, false, 90, 1_445_412_480),
        "auth=key; Secure; Expires=Wed, 21 Oct 2015 07:28:00 GMT"
    );
    assert_eq!(
        create_cookie_at("", true, true, 90, 1_445_412_480),
        "auth=; Expires=Wed, 21 Oct 2015 07:28:00 GMT"
    );
    assert_eq!(
        create_cookie_at("key", false, true, 2, 1_445_412_480),
        "auth=key; Expires=Fri, 23 Oct 2015 07:28:00 GMT"
    );
    assert_eq!(
        create_cookie_at("key", false, true, -1, 1_445_412_480),
        "auth=key; Expires=Tue, 20 Oct 2015 07:28:00 GMT"
    );
}

#[test]
fn a_cookie_beyond_all_dates_does_not_expire() {
    assert_eq!(create_cookie_at("key", false, false, i32::MAX, 0), "auth=key; Secure");
    assert_eq!(create_cookie_at("key", false, true, i32::MIN, 0), "auth=key");
}

#[test]
fn the_first_and_last_dates_can_be_written() {
    let last = ryot_misc::clock::LAST_SECOND;
    assert_eq!(
        create_cookie_at("key", true, true, 0, last),
        "auth=key; Expires=Fri, 31 Dec 9999 23:59:59 GMT"
    );
    assert_eq!(create_cookie_at("key", false, true, 1, last), "auth=key");
    let first = ryot_misc::clock::FIRST_SECOND;
    assert!(create_cookie_at("key", true, true, 0, first).starts_with("auth=key; Expires="));
    assert_eq!(create_cookie_at("key", false, true, -1, first), "auth=key");
}

#[test]
fn a_session_cookie_is_made_for_now() {
    let second = || cookie::time::OffsetDateTime::now_utc().unix_timestamp();
    for expires in [false, true] {
        let before = second();
        let text = create_cookie("key", expires, true, 1);
        let after = second();
        assert!((before..=after).any(|at| text == create_cookie_at("key", expires, true, 1, at)));
    }
}

#[test]
fn numbers_are_written_and_read() {
    for n in [0, 1, -1, 7, 10, -10, 12345, i32::MAX, i32::MIN] {
        assert_eq!(to_decimal(n), n.to_string().into_bytes());
        assert_eq!(to_decimal_string(n), n.to_string());
        assert_eq!(from_decimal(&to_decimal(n)), Some(n));
    }
}

#[test]
fn numbers_are_read_as_std_reads_them() {
    for text in [
        "", "+", "-", "+5", "-0", "007", "2147483647", "2147483648", "-2147483648",
        "-2147483649", "99999999999999999999", "1 ", " 1", "--1", "+-1", "1e3", "0000000000001",
        "\u{661}",
    ] {
        assert_eq!(from_decimal(&text.as_bytes().to_vec()), text.parse::<i32>().ok());
    }
    assert_eq!(from_decimal(&vec![0xff]), None);
}
