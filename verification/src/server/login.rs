//! The server's login endpoint.

use crate::server::sessions::SessionStore;
use crate::text::concat3;
use crate::utils::structs::{LoginRequest, LoginResponse};
use vstd::prelude::*;

verus! {

/// A lower-case hexadecimal digit.
pub open spec fn is_lower_hex(c: char) -> bool {
    ('0' <= c && c <= '9') || ('a' <= c && c <= 'f')
}

/// The positions of the hyphens in a hyphenated UUID.
pub open spec fn is_hyphen_position(i: int) -> bool {
    i == 8 || i == 13 || i == 18 || i == 23
}

/// The text of a random (version 4) UUID in its hyphenated lower-case form,
/// such as `67e55044-10b1-426f-9247-bb680e5fe0c8`.
pub open spec fn is_v4_token(t: Seq<char>) -> bool {
    &&& t.len() == 36
    &&& forall|i: int|
        0 <= i < 36 ==> if is_hyphen_position(i) {
            t[i] == '-'
        } else {
            is_lower_hex(#[trigger] t[i])
        }
    &&& t[14] == '4'
    &&& (t[19] == '8' || t[19] == '9' || t[19] == 'a' || t[19] == 'b')
}

/// A login lacks a user name or a password.
pub open spec fn credentials_missing(username: Seq<char>, password: Seq<char>) -> bool {
    username.len() == 0 || password.len() == 0
}

/// The sessions after a login with these credentials that was handed `token`.
pub open spec fn login_effect(
    sessions: Map<Seq<char>, Seq<char>>,
    username: Seq<char>,
    password: Seq<char>,
    token: Seq<char>,
) -> Map<Seq<char>, Seq<char>> {
    if credentials_missing(username, password) {
        sessions
    } else {
        sessions.insert(token, username)
    }
}

/// The greeting of a successful login.
pub open spec fn welcome_message(username: Seq<char>) -> Seq<char> {
    "Welcome, "@ + username + "!"@
}

/// The message of a login that lacks a user name or a password.
pub open spec fn missing_credentials_message() -> Seq<char> {
    "Username and password are required"@
}

/// A fresh session token: `uuid::Uuid::new_v4()` written out with
/// `to_string`. `new_v4` masks a random 128-bit number so that its version
/// digit is `4` and its variant digit one of `8`, `9`, `a`, `b`; `Display`
/// writes the 36-character hyphenated form in lower-case hexadecimal. Which
/// digits come out is left unsaid: they are random. The call panics if the
/// operating system gives no random bytes.
#[verifier::external_body]
fn new_session_token() -> (token: String)
    ensures
        is_v4_token(token@),
{
    uuid::Uuid::new_v4().to_string()
}

/// Finishes a login whose credentials are present: binds `token` to the
/// user and answers with the token and a greeting.
pub fn complete_login(sessions: &mut SessionStore, payload: LoginRequest, token: String) -> (resp:
    LoginResponse)
    ensures
        final(sessions)@ == old(sessions)@.insert(token@, payload.username@),
        resp.token@ == token@,
        resp.success,
        resp.msg matches Some(m) && m@ == welcome_message(payload.username@),
{
    let msg = concat3("Welcome, ", payload.username.as_str(), "!");
    sessions.open_session(token.clone(), payload.username);
    LoginResponse { token, success: true, msg: Some(msg) }
}

/// Answers a login request. A request without a user name or a password is
/// refused and changes nothing; any other opens a session under a fresh
/// token, whatever the password.
pub fn handle_login(sessions: &mut SessionStore, payload: LoginRequest) -> (resp: LoginResponse)
    ensures
        final(sessions)@ == login_effect(
            old(sessions)@,
            payload.username@,
            payload.password@,
            resp.token@,
        ),
        credentials_missing(payload.username@, payload.password@) ==> {
            &&& resp.token@.len() == 0
            &&& !resp.success
            &&& resp.msg matches Some(m) && m@ == missing_credentials_message()
        },
        !credentials_missing(payload.username@, payload.password@) ==> {
            &&& resp.success
            &&& is_v4_token(resp.token@)
            &&& resp.msg matches Some(m) && m@ == welcome_message(payload.username@)
        },
{
    if payload.username.as_str().is_empty() || payload.password.as_str().is_empty() {
        return LoginResponse {
            token: String::new(),
            success: false,
            msg: Some(String::from_str("Username and password are required")),
        };
    }
    let token = new_session_token();
    complete_login(sessions, payload, token)
}

/// The greeting names the user whole: "Welcome, ", the user name, then
/// "!".
pub proof fn welcome_names_the_user(username: Seq<char>)
    ensures
        welcome_message(username).len() == username.len() + 10,
        welcome_message(username).subrange(0, 9) == "Welcome, "@,
        welcome_message(username).subrange(9, 9 + username.len() as int) == username,
        welcome_message(username).last() == '!',
        missing_credentials_message() == "Username and password are required"@,
{
    reveal_strlit("Welcome, ");
    reveal_strlit("!");
    let w = welcome_message(username);
    assert(w.subrange(0, 9) =~= "Welcome, "@);
    assert(w.subrange(9, 9 + username.len() as int) =~= username);
}

} // verus!
