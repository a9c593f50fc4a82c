//! The server's socket endpoint: who may open a socket, and what a socket's
//! messages become.

use crate::server::login::login_effect;
use crate::server::sessions::{ConnectionRegistry, SessionStore};
use crate::text::concat3;
use crate::utils::structs::WsQuery;
use vstd::prelude::*;

verus! {

/// The user that `token` admits at the socket endpoint, if any.
pub open spec fn admitted_user(sessions: Map<Seq<char>, Seq<char>>, token: Seq<char>) -> Option<
    Seq<char>,
> {
    if sessions.contains_key(token) {
        Some(sessions[token])
    } else {
        None
    }
}

/// The line that everyone receives when `sender` says `text`.
pub open spec fn broadcast_line(sender: Seq<char>, text: Seq<char>) -> Seq<char> {
    sender + ": "@ + text
}

/// The answer to a socket request whose token admits nobody.
pub struct WsRejection {
    /// The HTTP status (401, unauthorized).
    pub status: u16,
    pub body: String,
}

/// A message that a client sends over its socket.
pub enum ClientFrame {
    Text(String),
    /// Binary data, a ping, a pong or a close.
    Other,
}

/// Decides a socket request: the user that the query's token admits, or the
/// rejection "401 Invalid token".
pub fn ws_handler(sessions: &SessionStore, params: &WsQuery) -> (r: Result<String, WsRejection>)
    ensures
        match r {
            Ok(user) => admitted_user(sessions@, params.token@) == Some(user@),
            Err(rej) => {
                &&& admitted_user(sessions@, params.token@) is None
                &&& rej.status == 401
                &&& rej.body@ == "Invalid token"@
            },
        },
{
    match sessions.lookup(params.token.as_str()) {
        Some(user) => Ok(user),
        None => Err(WsRejection { status: 401, body: String::from_str("Invalid token") }),
    }
}

/// The line broadcast when `sender` says `text`.
pub fn broadcast_message(text: &String, sender: &String) -> (line: String)
    ensures
        line@ == broadcast_line(sender@, text@),
        line@.len() == sender@.len() + 2 + text@.len(),
        line@.subrange(sender@.len() as int + 2, line@.len() as int) == text@,
{
    proof {
        broadcast_line_is_sender_colon_text(sender@, text@);
    }
    concat3(sender.as_str(), ": ", text.as_str())
}

/// What a message from `username`'s socket makes the server broadcast: a
/// text is relayed with its sender's name, anything else is ignored.
pub fn relay(username: &String, frame: ClientFrame) -> (out: Option<String>)
    ensures
        match frame {
            ClientFrame::Text(text) => out matches Some(line) && line@ == broadcast_line(
                username@,
                text@,
            ),
            ClientFrame::Other => out is None,
        },
{
    match frame {
        ClientFrame::Text(text) => Some(broadcast_message(&text, username)),
        ClientFrame::Other => None,
    }
}

/// Records the socket of a user who has just been admitted.
pub fn connect<C>(connections: &mut ConnectionRegistry<C>, username: String, conn: C)
    ensures
        final(connections)@ == old(connections)@.insert(username@, conn),
{
    connections.register(username, conn);
}

/// Forgets the socket of a user whose socket has closed.
pub fn disconnect<C>(connections: &mut ConnectionRegistry<C>, username: &str)
    ensures
        final(connections)@ == old(connections)@.remove(username@),
{
    connections.unregister(username);
}

/// A token handed out by a successful login admits its user at the socket
/// endpoint, and every other token admits whom it admitted before.
pub proof fn login_token_admits_user(
    sessions: Map<Seq<char>, Seq<char>>,
    username: Seq<char>,
    password: Seq<char>,
    token: Seq<char>,
    other: Seq<char>,
)
    requires
        username.len() > 0,
        password.len() > 0,
    ensures
        admitted_user(login_effect(sessions, username, password, token), token) == Some(username),
        other != token ==> admitted_user(login_effect(sessions, username, password, token), other)
            == admitted_user(sessions, other),
{
}

/// A refused login (no user name or no password) changes whom no token
/// admits.
pub proof fn refused_login_changes_nothing(
    sessions: Map<Seq<char>, Seq<char>>,
    username: Seq<char>,
    password: Seq<char>,
    token: Seq<char>,
    any: Seq<char>,
)
    requires
        username.len() == 0 || password.len() == 0,
    ensures
        admitted_user(login_effect(sessions, username, password, token), any) == admitted_user(
            sessions,
            any,
        ),
{
}

/// A user whose socket closes is no longer connected, even when the same
/// user had opened a second socket meanwhile; nobody else's connection
/// changes.
pub proof fn disconnect_forgets_user<C>(
    connections: Map<Seq<char>, C>,
    username: Seq<char>,
    first: C,
    second: C,
    other: Seq<char>,
)
    ensures
        !connections.insert(username, first).insert(username, second).remove(
            username,
        ).contains_key(username),
        other != username ==> connections.insert(username, first).remove(username).contains_key(
            other,
        ) == connections.contains_key(other),
{
}

/// The broadcast line is the sender's name, a colon and a space, then the
/// whole text.
pub proof fn broadcast_line_is_sender_colon_text(sender: Seq<char>, text: Seq<char>)
    ensures
        ({
            let line = broadcast_line(sender, text);
            &&& line.len() == sender.len() + 2 + text.len()
            &&& line.subrange(0, sender.len() as int) == sender
            &&& line[sender.len() as int] == ':'
            &&& line[sender.len() as int + 1] == ' '
            &&& line.subrange(sender.len() as int + 2, line.len() as int) == text
        }),
{
    reveal_strlit(": ");
    let line = broadcast_line(sender, text);
    assert(line =~= sender + ": "@ + text);
    assert(line.subrange(0, sender.len() as int) =~= sender);
    assert(line.subrange(sender.len() as int + 2, line.len() as int) =~= text);
}

} // verus!
