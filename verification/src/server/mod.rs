pub mod login;
pub mod sessions;
pub mod ws;

pub use login::handle_login;
pub use ws::ws_handler;
