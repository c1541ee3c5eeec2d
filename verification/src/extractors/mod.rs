//! Values the HTTP layer extracts from requests.
pub mod authenticated_user;
