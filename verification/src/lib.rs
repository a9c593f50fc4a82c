//! Loofa: a small terminal chat.
//!
//! The library holds the logic of the chat server (logins, sessions and the
//! socket handshake), of the chat client (login replies, the socket address,
//! the chat window and its input line) and of the first terminal prototype.
//! Terminal, network and task plumbing live in the program around it.

pub mod screen;
pub mod server;
pub mod text;
pub mod user;
pub mod utils;
