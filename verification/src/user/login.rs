//! The client's side of logging in: the credentials typed at the prompt, the
//! address of the login endpoint, and what the server's reply means.

use crate::text::{concat2, concat3, strip_line_ending, strip_line_ending_spec};
use crate::utils::structs::{ErrorResponse, LoginResponse};
use vstd::prelude::*;

verus! {

/// How a login request ended.
pub enum LoginReply {
    /// No answer came; `detail` is the transport error's text.
    NetworkError { detail: String },
    /// The server answered with a success status; its body either parsed as
    /// a login response or failed to parse, with that error's text.
    Answered { parsed: Result<LoginResponse, String> },
    /// The server answered with an error status; `status` is the status's
    /// text and `error_body` the body, where it parsed as an error body.
    Refused { status: String, error_body: Option<ErrorResponse> },
}

/// What the client makes of a login reply: the session token, or the text
/// of the error to show.
pub open spec fn login_outcome(reply: LoginReply) -> Result<Option<Seq<char>>, Seq<char>> {
    match reply {
        LoginReply::NetworkError { detail } => Err("Network error: "@ + detail@),
        LoginReply::Answered { parsed } => match parsed {
            Ok(resp) => if resp.success {
                Ok(Some(resp.token@))
            } else {
                match resp.msg {
                    Some(m) => Err(m@),
                    None => Err("Login failed."@),
                }
            },
            Err(e) => Err("Failed to parse JSON: "@ + e@ + "."@),
        },
        LoginReply::Refused { status, error_body } => match error_body {
            Some(b) => Err(b.error@),
            None => Err("Login failed with status: "@ + status@),
        },
    }
}

/// The credentials typed at the login prompt: the two lines read for the
/// user name and the password, each without its line ending.
pub fn prompt_login(username_line: String, password_line: String) -> (creds: (String, String))
    ensures
        creds.0@ == strip_line_ending_spec(username_line@),
        creds.1@ == strip_line_ending_spec(password_line@),
{
    let username = strip_line_ending(username_line);
    let password = strip_line_ending(password_line);
    (username, password)
}

/// The address of the server's login endpoint.
pub fn login_url(server_url: &str) -> (url: String)
    ensures
        url@ == server_url@ + "/login"@,
{
    concat2(server_url, "/login")
}

/// Turns the end of a login request into the session token or the error
/// text to show. A success status with a successful body gives the token;
/// every other ending is an error.
pub fn handle_login(reply: LoginReply) -> (r: Result<Option<String>, String>)
    ensures
        match (r, login_outcome(reply)) {
            (Ok(Some(token)), Ok(Some(expected))) => token@ == expected,
            (Err(e), Err(expected)) => e@ == expected,
            _ => false,
        },
        reply matches LoginReply::Answered { parsed: Ok(resp) } ==> (resp.success ==> (r matches Ok(
            Some(t),
        ) && t@ == resp.token@)),
        r matches Ok(t) ==> t is Some,
{
    proof {
        login_reply_meanings(reply);
    }
    match reply {
        LoginReply::NetworkError { detail } => Err(concat2("Network error: ", detail.as_str())),
        LoginReply::Answered { parsed } => match parsed {
            Ok(login_data) => {
                if login_data.success {
                    Ok(Some(login_data.token))
                } else {
                    match login_data.msg {
                        Some(m) => Err(m),
                        None => Err(String::from_str("Login failed.")),
                    }
                }
            },
            Err(e) => Err(concat3("Failed to parse JSON: ", e.as_str(), ".")),
        },
        LoginReply::Refused { status, error_body } => match error_body {
            Some(error_data) => Err(error_data.error),
            None => Err(concat2("Login failed with status: ", status.as_str())),
        },
    }
}

/// What the login prompt does after one attempt.
pub enum LoginStep {
    /// Stop prompting: print `notice` and open the chat with `token`.
    LoggedIn { token: String, notice: String },
    /// Prompt again, after printing `error` (if any) to the error stream
    /// and `notice` to the output.
    TryAgain { error: Option<String>, notice: String },
}

/// Decides the login prompt's next step from an attempt's result: a token
/// ends the prompting; no token, or an error, asks again.
pub fn next_login_step(attempt: Result<Option<String>, String>) -> (step: LoginStep)
    ensures
        match attempt {
            Ok(Some(token)) => step matches LoginStep::LoggedIn { token: t, notice }
                && t@ == token@ && notice@ == "Login successful."@,
            Ok(None) => step matches LoginStep::TryAgain { error, notice } && error is None
                && notice@ == "Login failed: Invalid credentials. Please try again."@,
            Err(e) => step matches LoginStep::TryAgain { error, notice } && error matches Some(
                m,
            ) && m@ == "Login error: "@ + e@ && notice@ == "Please try again."@,
        },
{
    match attempt {
        Ok(Some(token)) => LoginStep::LoggedIn { token, notice: String::from_str("Login successful.") },
        Ok(None) => LoginStep::TryAgain {
            error: None,
            notice: String::from_str("Login failed: Invalid credentials. Please try again."),
        },
        Err(e) => LoginStep::TryAgain {
            error: Some(concat2("Login error: ", e.as_str())),
            notice: String::from_str("Please try again."),
        },
    }
}

/// What a login reply means: a successful answer gives back exactly its
/// token; an unsuccessful one gives exactly its message, or "Login failed."
/// without one; a refusal gives exactly the body's error; a transport error
/// or an unreadable body gives an error text that ends with the whole error;
/// and no reply ever gives success without a token.
pub proof fn login_reply_meanings(reply: LoginReply)
    ensures
        login_outcome(reply) matches Ok(t) ==> t is Some,
        match reply {
            LoginReply::Answered { parsed: Ok(resp) } => if resp.success {
                login_outcome(reply) == Ok::<Option<Seq<char>>, Seq<char>>(Some(resp.token@))
            } else {
                login_outcome(reply) == Err::<Option<Seq<char>>, Seq<char>>(
                    match resp.msg {
                        Some(m) => m@,
                        None => "Login failed."@,
                    },
                )
            },
            LoginReply::Answered { parsed: Err(e) } => login_outcome(reply) matches Err(text)
                && text.len() >= e@.len() + 1 && text.subrange(
                text.len() - 1 - e@.len(),
                text.len() - 1,
            ) == e@,
            LoginReply::NetworkError { detail } => login_outcome(reply) matches Err(text)
                && text.len() >= detail@.len() && text.subrange(
                text.len() - detail@.len(),
                text.len() as int,
            ) == detail@,
            LoginReply::Refused { status, error_body } => match error_body {
                Some(b) => login_outcome(reply) == Err::<Option<Seq<char>>, Seq<char>>(b.error@),
                None => login_outcome(reply) matches Err(text) && text.len() >= status@.len()
                    && text.subrange(text.len() - status@.len(), text.len() as int) == status@,
            },
        },
{
    reveal_strlit(".");
    match reply {
        LoginReply::Answered { parsed: Err(e) } => {
            let text = "Failed to parse JSON: "@ + e@ + "."@;
            assert(text.subrange(text.len() - 1 - e@.len(), text.len() - 1) =~= e@);
        },
        LoginReply::NetworkError { detail } => {
            let text = "Network error: "@ + detail@;
            assert(text.subrange(text.len() - detail@.len(), text.len() as int) =~= detail@);
        },
        LoginReply::Refused { status, error_body } => {
            let text = "Login failed with status: "@ + status@;
            assert(text.subrange(text.len() - status@.len(), text.len() as int) =~= status@);
        },
        _ => {},
    }
}

} // verus!
