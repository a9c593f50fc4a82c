//! The client's socket handshake: the address it connects to and the status
//! it accepts.

use crate::text::{
    concat2, concat3, has_prefix, no_match, replace, replace_all, replace_leading_match,
    replace_without_match_keeps_text, starts_with,
};
use vstd::prelude::*;

verus! {

/// The socket base address of a server address: `http://` becomes `ws://`
/// and `https://` becomes `wss://`, at every place they occur, when the
/// address begins with them; any other address is kept as it is.
pub open spec fn ws_base(server_url: Seq<char>) -> Seq<char> {
    if has_prefix(server_url, "http://"@) {
        replace_all(server_url, "http://"@, "ws://"@)
    } else if has_prefix(server_url, "https://"@) {
        replace_all(server_url, "https://"@, "wss://"@)
    } else {
        server_url
    }
}

/// The address of the socket endpoint for a server and a session token.
pub open spec fn ws_endpoint(server_url: Seq<char>, token: Seq<char>) -> Seq<char> {
    ws_base(server_url) + "/ws?token="@ + token
}

/// The address that the client's socket connects to.
pub fn ws_handshake_url(server_url: &str, token: &str) -> (url: String)
    ensures
        url@ == ws_endpoint(server_url@, token@),
        url@.len() >= token@.len(),
        url@.subrange(url@.len() - token@.len(), url@.len() as int) == token@,
{
    proof {
        reveal_strlit("http://");
        reveal_strlit("https://");
    }
    let ws_url = if starts_with(server_url, "http://") {
        replace(server_url, "http://", "ws://")
    } else if starts_with(server_url, "https://") {
        replace(server_url, "https://", "wss://")
    } else {
        String::from_str(server_url)
    };
    proof {
        address_ends_with_the_token(server_url@, token@);
    }
    concat3(ws_url.as_str(), "/ws?token=", token)
}

/// Accepts the handshake when the server switched protocols (status 101);
/// otherwise the error names the status, given as its text.
pub fn check_handshake_status(status_code: u16, status_text: &str) -> (r: Result<(), String>)
    ensures
        r is Ok <==> status_code == 101,
        r matches Err(e) ==> e@ == "Websocket connection failed : "@ + status_text@,
{
    if status_code != 101 {
        return Err(concat2("Websocket connection failed : ", status_text));
    }
    Ok(())
}

/// The socket address ends with `/ws?token=` and the whole token, and what
/// comes before the token does not depend on it.
pub proof fn address_ends_with_the_token(server_url: Seq<char>, token: Seq<char>)
    ensures
        ws_endpoint(server_url, token).len() >= token.len() + 10,
        ({
            let url = ws_endpoint(server_url, token);
            &&& url.subrange(url.len() - token.len(), url.len() as int) == token
            &&& url.subrange(url.len() - token.len() - 10, url.len() - token.len())
                == "/ws?token="@
            &&& url.subrange(0, url.len() - token.len()) == ws_endpoint(server_url, Seq::empty())
        }),
{
    reveal_strlit("/ws?token=");
    let url = ws_endpoint(server_url, token);
    let head = ws_base(server_url) + "/ws?token="@;
    assert(url =~= head + token);
    assert(ws_endpoint(server_url, Seq::empty()) =~= head);
    assert(url.subrange(url.len() - token.len(), url.len() as int) =~= token);
    assert(url.subrange(0, url.len() - token.len()) =~= head);
    assert(url.subrange(url.len() - token.len() - 10, url.len() - token.len()) =~= "/ws?token="@);
}

/// An `https://` address whose scheme occurs only at its start becomes the
/// same address under `wss://`.
pub proof fn https_address_becomes_wss(rest: Seq<char>)
    requires
        no_match(rest, "https://"@),
    ensures
        ws_base("https://"@ + rest) == "wss://"@ + rest,
{
    reveal_strlit("https://");
    reveal_strlit("http://");
    let url = "https://"@ + rest;
    assert(url.subrange(0, 8) =~= "https://"@);
    assert(url[4] == 's');
    assert("http://"@[4] == ':');
    assert(url.subrange(0, 7) != "http://"@);
    replace_leading_match("https://"@, rest, "wss://"@);
    replace_without_match_keeps_text(rest, "https://"@, "wss://"@);
}

/// An `http://` address whose scheme occurs only at its start becomes the
/// same address under `ws://`.
pub proof fn http_address_becomes_ws(rest: Seq<char>)
    requires
        no_match(rest, "http://"@),
    ensures
        ws_base("http://"@ + rest) == "ws://"@ + rest,
{
    reveal_strlit("http://");
    let url = "http://"@ + rest;
    assert(url.subrange(0, 7) =~= "http://"@);
    replace_leading_match("http://"@, rest, "ws://"@);
    replace_without_match_keeps_text(rest, "http://"@, "ws://"@);
}

/// An address that begins with neither `http://` nor `https://` is kept.
pub proof fn other_address_is_kept(server_url: Seq<char>)
    requires
        !has_prefix(server_url, "http://"@),
        !has_prefix(server_url, "https://"@),
    ensures
        ws_base(server_url) == server_url,
{
}

} // verus!
