use loofa::text::{replace, starts_with, strip_line_ending};
use loofa::user::client::{check_handshake_status, ws_handshake_url};
use loofa::user::login::{handle_login, login_url, next_login_step, prompt_login, LoginReply, LoginStep};
use loofa::utils::structs::{ErrorResponse, LoginResponse};

#[test]
fn prompt_login_drops_line_endings() {
    let (u, p) = prompt_login("alice\r\n".to_string(), "secret\n".to_string());
    assert_eq!(u, "alice");
    assert_eq!(p, "secret");
}

#[test]
fn prompt_login_keeps_lines_without_endings() {
    let (u, p) = prompt_login("alice".to_string(), String::new());
    assert_eq!(u, "alice");
    assert_eq!(p, "");
}

#[test]
fn strip_line_ending_removes_one_ending_only() {
    assert_eq!(strip_line_ending("a\n\n".to_string()), "a\n");
    assert_eq!(strip_line_ending("a\r".to_string()), "a");
    assert_eq!(strip_line_ending("a\n\r".to_string()), "a\n");
    assert_eq!(strip_line_ending("\r\n".to_string()), "");
    assert_eq!(strip_line_ending("héllo\n".to_string()), "héllo");
}

#[test]
fn https_server_becomes_wss() {
    assert_eq!(
        ws_handshake_url("https://optionally-helping-python.ngrok-free.app", "abc"),
        "wss://optionally-helping-python.ngrok-free.app/ws?token=abc"
    );
}

#[test]
fn http_server_becomes_ws() {
    assert_eq!(ws_handshake_url("http://127.0.0.1:8080", "t-1"), "ws://127.0.0.1:8080/ws?token=t-1");
}

#[test]
fn every_occurrence_of_the_scheme_is_replaced() {
    assert_eq!(ws_handshake_url("http://a/http://b", "t"), "ws://a/ws://b/ws?token=t");
}

#[test]
fn other_addresses_are_kept() {
    assert_eq!(ws_handshake_url("ws://host", "t"), "ws://host/ws?token=t");
    assert_eq!(ws_handshake_url("host/http://x", "t"), "host/http://x/ws?token=t");
}

#[test]
fn replace_matches_left_to_right_without_overlap() {
    assert_eq!(replace("aaaa", "aa", "b"), "bb");
    assert_eq!(replace("aaa", "aa", "b"), "ba");
    assert_eq!(replace("xyz", "q", "r"), "xyz");
    assert_eq!(replace("é-é", "é", "e"), "e-e");
}

#[test]
fn starts_with_compares_characters() {
    assert!(starts_with("https://x", "https://"));
    assert!(!starts_with("http", "https://"));
    assert!(starts_with("abc", ""));
}

#[test]
fn handshake_accepts_only_switching_protocols() {
    assert!(check_handshake_status(101, "101 Switching Protocols").is_ok());
    assert_eq!(
        check_handshake_status(200, "200 OK").unwrap_err(),
        "Websocket connection failed : 200 OK"
    );
}

#[test]
fn login_url_appends_the_endpoint() {
    assert_eq!(login_url("https://example.org"), "https://example.org/login");
}

#[test]
fn successful_reply_gives_the_token() {
    let reply = LoginReply::Answered {
        parsed: Ok(LoginResponse { token: "tok".to_string(), success: true, msg: Some("Welcome, a!".to_string()) }),
    };
    assert_eq!(handle_login(reply), Ok(Some("tok".to_string())));
}

#[test]
fn unsuccessful_reply_gives_its_message() {
    let reply = LoginReply::Answered {
        parsed: Ok(LoginResponse {
            token: String::new(),
            success: false,
            msg: Some("Username and password are required".to_string()),
        }),
    };
    assert_eq!(handle_login(reply), Err("Username and password are required".to_string()));
}

#[test]
fn unsuccessful_reply_without_message() {
    let reply = LoginReply::Answered { parsed: Ok(LoginResponse { token: String::new(), success: false, msg: None }) };
    assert_eq!(handle_login(reply), Err("Login failed.".to_string()));
}

#[test]
fn unparsable_reply() {
    let reply = LoginReply::Answered { parsed: Err("expected value at line 1 column 1".to_string()) };
    assert_eq!(
        handle_login(reply),
        Err("Failed to parse JSON: expected value at line 1 column 1.".to_string())
    );
}

#[test]
fn network_error() {
    let reply = LoginReply::NetworkError { detail: "connection refused".to_string() };
    assert_eq!(handle_login(reply), Err("Network error: connection refused".to_string()));
}

#[test]
fn refused_with_error_body() {
    let reply = LoginReply::Refused {
        status: "500 Internal Server Error".to_string(),
        error_body: Some(ErrorResponse { error: "database down".to_string() }),
    };
    assert_eq!(handle_login(reply), Err("database down".to_string()));
}

#[test]
fn refused_without_error_body() {
    let reply = LoginReply::Refused { status: "404 Not Found".to_string(), error_body: None };
    assert_eq!(handle_login(reply), Err("Login failed with status: 404 Not Found".to_string()));
}

#[test]
fn a_token_ends_the_login_prompt() {
    match next_login_step(Ok(Some("tok".to_string()))) {
        LoginStep::LoggedIn { token, notice } => {
            assert_eq!(token, "tok");
            assert_eq!(notice, "Login successful.");
        }
        _ => panic!("a token must end the prompt"),
    }
}

#[test]
fn no_token_asks_again() {
    match next_login_step(Ok(None)) {
        LoginStep::TryAgain { error, notice } => {
            assert_eq!(error, None);
            assert_eq!(notice, "Login failed: Invalid credentials. Please try again.");
        }
        _ => panic!("no token must ask again"),
    }
}

#[test]
fn an_error_is_reported_and_asks_again() {
    match next_login_step(Err("Network error: refused".to_string())) {
        LoginStep::TryAgain { error, notice } => {
            assert_eq!(error.as_deref(), Some("Login error: Network error: refused"));
            assert_eq!(notice, "Please try again.");
        }
        _ => panic!("an error must ask again"),
    }
}
