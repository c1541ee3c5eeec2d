//! Verified core of a URL shortener service: request validation, expiration
//! policy, short-id generation, blacklisting, credential checks and the
//! replies the HTTP layer sends back.
pub mod time;
pub mod dtos;
pub mod controller;
pub mod services;
pub mod extractors;
