//! Parameter objects that callers hand to the endpoints.
pub mod tweet;
