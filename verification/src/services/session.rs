//! The signed-in user of a request: the `user_id` private cookie holds the
//! decimal id of the account.

use vstd::prelude::*;
use crate::decimal::{parse_i32, parsed_i32, int_digits, lemma_parse_decimal_roundtrip};
use crate::models::user_model::{Model as User, UserDTO};
use crate::web::CookieJar;

verus! {

/// The name of the cookie that holds the signed-in account's id.
pub const USER_ID_COOKIE: &'static str = "user_id";

/// The address shown for an account that has none.
pub const UNKNOWN_EMAIL: &'static str = "unknown@oauth.user";

/// The id that a jar of cookies signs in, if any: the `user_id` cookie read as an `i32`.
pub open spec fn session_id_of(cookies: Map<Seq<char>, Seq<char>>) -> Option<i32> {
    if cookies.contains_key(USER_ID_COOKIE@) {
        parsed_i32(cookies[USER_ID_COOKIE@])
    } else {
        None
    }
}

/// The id of the signed-in account: `None` without a `user_id` cookie or when
/// its value is not an `i32`.
pub fn session_user_id(cookies: &CookieJar) -> (id: Option<i32>)
    ensures
        id == session_id_of(cookies@),
{
    match cookies.get_private(USER_ID_COOKIE) {
        Some(value) => parse_i32(value.as_str()),
        None => None,
    }
}

/// The id that the e-mail confirmation form acts for: the signed-in id, or 0
/// without one.
pub fn cookie_user_id(cookies: &CookieJar) -> (id: i32)
    ensures
        id == match session_id_of(cookies@) {
            Some(i) => i,
            None => 0,
        },
{
    match session_user_id(cookies) {
        Some(i) => i,
        None => 0,
    }
}

/// What the pages show of the signed-in account; an account without an
/// address shows `unknown@oauth.user`.
pub fn session_user(user: User) -> (dto: UserDTO)
    ensures
        dto.id == user.id,
        user.email matches Some(e) ==> dto.email == e,
        user.email is None ==> dto.email@ == UNKNOWN_EMAIL@,
        dto.is_active == user.is_active,
        dto.oauth_provider == user.oauth_provider,
        dto.twofa_enabled == user.twofa_enabled,
{
    let email = match user.email {
        Some(e) => e,
        None => UNKNOWN_EMAIL.to_string(),
    };
    UserDTO {
        id: user.id,
        email,
        is_active: user.is_active,
        oauth_provider: user.oauth_provider,
        twofa_enabled: user.twofa_enabled,
    }
}

/// Signing in writes the account's decimal id into the `user_id` cookie; the
/// session then reads that same id back.
pub proof fn lemma_session_reads_back_sign_in(cookies: Map<Seq<char>, Seq<char>>, id: i32)
    ensures
        session_id_of(cookies.insert(USER_ID_COOKIE@, int_digits(id as int))) == Some(id),
{
    lemma_parse_decimal_roundtrip(id);
}

/// After signing out no account is signed in, and every other cookie is as it was.
pub proof fn lemma_sign_out_ends_session(cookies: Map<Seq<char>, Seq<char>>, other: Seq<char>)
    requires
        other != USER_ID_COOKIE@,
    ensures
        session_id_of(cookies.remove(USER_ID_COOKIE@)) is None,
        cookies.remove(USER_ID_COOKIE@).contains_key(other) == cookies.contains_key(other),
        cookies.remove(USER_ID_COOKIE@)[other] == cookies[other],
{
}

} // verus!
