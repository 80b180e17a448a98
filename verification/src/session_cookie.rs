//! The cookie that carries a session's API key to the browser.
use vstd::prelude::*;

use crate::clock::{add_days, utc_second};

verus! {

/// The name of the session cookie.
pub const COOKIE_NAME: &'static str = "auth";

/// The date that the `cookie` crate writes for a second, such as
/// `Wed, 21 Oct 2015 07:28:00 GMT`.
pub uninterp spec fn http_date(second: i64) -> Seq<char>;

/// A cookie without an expiry, as the value of a `Set-Cookie` header.
pub open spec fn lasting_cookie_text(name: Seq<char>, value: Seq<char>, secure: bool) -> Seq<char> {
    if secure {
        name + "="@ + value + "; Secure"@
    } else {
        name + "="@ + value
    }
}

/// A cookie as the value of a `Set-Cookie` header.
pub open spec fn cookie_text(
    name: Seq<char>,
    value: Seq<char>,
    secure: bool,
    expires: Option<i64>,
) -> Seq<char> {
    match expires {
        Some(second) => lasting_cookie_text(name, value, secure) + "; Expires="@ + http_date(second),
        None => lasting_cookie_text(name, value, secure),
    }
}

/// Builds a cookie with `cookie::Cookie::build` and formats it by its `Display`: name and
/// value as they are, `; Secure` where asked for, and `; Expires=` with the date where there
/// is one. How the date is written is left to that crate, under the name `http_date`.
#[verifier::external_body]
fn render(name: &str, value: &str, secure: bool, expires: Option<i64>) -> (text: String)
    requires
        expires matches Some(second) ==> crate::clock::is_dated(second as int),
    ensures
        expires is None ==> text@ == lasting_cookie_text(name@, value@, secure),
        expires matches Some(second) ==> text@ == lasting_cookie_text(name@, value@, secure)
            + "; Expires="@ + http_date(second),
{
    let expires = match expires {
        Some(second) => Some(cookie::time::OffsetDateTime::from_unix_timestamp(second).unwrap()),
        None => None,
    };
    let builder = cookie::Cookie::build(name.to_string(), value.to_string());
    builder.secure(secure).expires(expires).finish().to_string()
}

/// When the cookie made at a second expires: at once, or after so many days; never on its
/// own where that day is beyond all dates.
pub open spec fn cookie_expiry(at: i64, expires: bool, token_valid_till: i32) -> Option<i64> {
    if expires {
        Some(at)
    } else {
        crate::clock::later_by_days(at, token_valid_till)
    }
}

/// The session cookie made at a second.
pub open spec fn session_cookie_text(
    api_key: Seq<char>,
    expires: bool,
    insecure_cookie: bool,
    token_valid_till: i32,
    at: i64,
) -> Seq<char> {
    cookie_text(
        COOKIE_NAME@,
        api_key,
        !insecure_cookie,
        cookie_expiry(at, expires, token_valid_till),
    )
}

/// The session cookie, for a given moment.
pub fn create_cookie_at(
    api_key: &str,
    expires: bool,
    insecure_cookie: bool,
    token_valid_till: i32,
    at: i64,
) -> (text: String)
    requires
        crate::clock::is_dated(at as int),
    ensures
        text@ == session_cookie_text(api_key@, expires, insecure_cookie, token_valid_till, at),
{
    let expiry: Option<i64> = if expires {
        Some(at)
    } else {
        add_days(at, token_valid_till)
    };
    render(COOKIE_NAME, api_key, !insecure_cookie, expiry)
}

/// The session cookie, for now.
pub fn create_cookie(
    api_key: &str,
    expires: bool,
    insecure_cookie: bool,
    token_valid_till: i32,
) -> (text: String)
    ensures
        exists|at: i64|
            crate::clock::is_dated(at as int) && text@ == #[trigger] session_cookie_text(
                api_key@,
                expires,
                insecure_cookie,
                token_valid_till,
                at,
            ),
{
    let at: i64 = utc_second();
    create_cookie_at(api_key, expires, insecure_cookie, token_valid_till, at)
}

/// Law: an expiring cookie is made out for the moment at which it is made, whatever the
/// lifetime of a token.
pub proof fn law_expiring_cookie_ignores_lifetime(
    api_key: Seq<char>,
    insecure_cookie: bool,
    days: i32,
    other_days: i32,
    at: i64,
)
    ensures
        session_cookie_text(api_key, true, insecure_cookie, days, at) == session_cookie_text(
            api_key,
            true,
            insecure_cookie,
            other_days,
            at,
        ),
{
}

/// Law: every session cookie begins with the cookie's name and the API key.
pub proof fn law_cookie_carries_key(
    api_key: Seq<char>,
    expires: bool,
    insecure_cookie: bool,
    days: i32,
    at: i64,
)
    ensures
        (COOKIE_NAME@ + "="@ + api_key).is_prefix_of(
            session_cookie_text(api_key, expires, insecure_cookie, days, at),
        ),
{
}

/// Law: the session cookie in full. It is made out for the name `auth` and the API key, it
/// goes over secure connections only unless it may be insecure, and it expires at once or after
/// as many days as were asked for, as far as there are dates.
pub proof fn law_cookie_in_full(
    api_key: Seq<char>,
    insecure_cookie: bool,
    token_valid_till: i32,
    at: i64,
)
    ensures
        ({
            let bare = if insecure_cookie {
                "auth"@ + "="@ + api_key
            } else {
                "auth"@ + "="@ + api_key + "; Secure"@
            };
            let expiry = at + token_valid_till * 86_400;
            &&& session_cookie_text(api_key, true, insecure_cookie, token_valid_till, at) == bare
                + "; Expires="@ + http_date(at)
            &&& session_cookie_text(api_key, false, insecure_cookie, token_valid_till, at) == if
                -377_705_116_800 <= expiry <= 253_402_300_799 {
                bare + "; Expires="@ + http_date(expiry as i64)
            } else {
                bare
            }
        }),
{
}

} // verus!
