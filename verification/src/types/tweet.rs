//! The optional parameters of a post.
use crate::api::json::Json;
use crate::api::tweet::{make_tweet_body, tweet_body, Media, MediaView};
use vstd::prelude::*;

verus! {

/// What a post may carry besides its text.
#[derive(Debug, PartialEq, Eq)]
pub struct PostTweetParams {
    /// The media to attach, if any.
    pub media: Option<Media>,
}

impl PostTweetParams {
    /// The value of the attachment, if there is one.
    pub open spec fn spec_media(&self) -> Option<MediaView> {
        match self.media {
            Some(media) => Some(media@),
            None => None,
        }
    }

    /// The body that posts `message` with these parameters.
    pub fn to_json(&self, message: &str) -> (out: Json)
        ensures
            out@ == tweet_body(message@, self.spec_media()),
    {
        match &self.media {
            Some(media) => make_tweet_body(message, Some(media)),
            None => make_tweet_body(message, None),
        }
    }
}

} // verus!
