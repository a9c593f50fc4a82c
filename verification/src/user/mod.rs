pub mod client;
pub mod login;
pub mod ui;

pub use client::ws_handshake_url;
pub use login::{handle_login, prompt_login};
pub use ui::ChatUI;
