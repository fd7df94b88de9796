//! Request construction and response mapping for the tweet endpoints of a
//! social-media REST API.
//!
//! The library performs no I/O.  For every endpoint it offers a builder that
//! turns the caller's parameters into an [`api::request::ApiRequest`], and,
//! where the endpoint has a typed result, a mapper that turns what the
//! transport handed back into that result or into an
//! [`api::error::TweetyError`].
pub mod api;
pub mod types;
