//! The endpoint layer: data model, request builders and response mappers.
pub mod error;
pub mod json;
pub mod mentions;
pub mod query;
pub mod request;
pub mod text;
pub mod tweet;
