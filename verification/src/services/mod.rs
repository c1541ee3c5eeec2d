//! The services behind the HTTP handlers.
pub mod url_shortener;
pub mod passwords;
pub mod users;
pub mod authentication;
