//! The selectable fields and expansions of a lookup, and the tweet that a
//! lookup yields.
use crate::api::json::{Json, JsonView};
use crate::api::text::{is_plain, views};
use vstd::prelude::*;

verus! {

/// A value that is written into a query under a fixed name.
pub trait WireName {
    /// The name under which the value is written into a query.
    spec fn spec_wire_name(&self) -> Seq<char>;

    /// The name under which the value is written into a query.
    fn wire_name(&self) -> (out: &'static str)
        ensures
            out@ == self.spec_wire_name(),
    ;

    /// The name needs no escaping in a query.
    proof fn lemma_wire_name_is_plain(&self)
        ensures
            is_plain(self.spec_wire_name()),
    ;
}

/// The names of `items`, in order.
pub open spec fn wire_names<T: WireName>(items: Seq<T>) -> Seq<Seq<char>> {
    Seq::new(items.len(), |i: int| items[i].spec_wire_name())
}

/// A field that a tweet can be asked to carry.
#[derive(Debug, Clone, Copy, PartialEq, Eq)]
pub enum TweetField {
    Attachments,
    AuthorId,
    ContextAnnotations,
    ConversationId,
    CreatedAt,
    EditControls,
    Entities,
    Geo,
    Id,
    InReplyToUserId,
    Lang,
    NonPublicMetrics,
    PublicMetrics,
    OrganicMetrics,
    PromotedMetrics,
    PossiblySensitive,
    ReferencedTweets,
    ReplySettings,
    Source,
    Text,
    Withheld,
}

impl WireName for TweetField {
    open spec fn spec_wire_name(&self) -> Seq<char> {
        match self {
            TweetField::Attachments => "attachments"@,
            TweetField::AuthorId => "author_id"@,
            TweetField::ContextAnnotations => "context_annotations"@,
            TweetField::ConversationId => "conversation_id"@,
            TweetField::CreatedAt => "created_at"@,
            TweetField::EditControls => "edit_controls"@,
            TweetField::Entities => "entities"@,
            TweetField::Geo => "geo"@,
            TweetField::Id => "id"@,
            TweetField::InReplyToUserId => "in_reply_to_user_id"@,
            TweetField::Lang => "lang"@,
            TweetField::NonPublicMetrics => "non_public_metrics"@,
            TweetField::PublicMetrics => "public_metrics"@,
            TweetField::OrganicMetrics => "organic_metrics"@,
            TweetField::PromotedMetrics => "promoted_metrics"@,
            TweetField::PossiblySensitive => "possibly_sensitive"@,
            TweetField::ReferencedTweets => "referenced_tweets"@,
            TweetField::ReplySettings => "reply_settings"@,
            TweetField::Source => "source"@,
            TweetField::Text => "text"@,
            TweetField::Withheld => "withheld"@,
        }
    }

    fn wire_name(&self) -> (out: &'static str) {
        match self {
            TweetField::Attachments => "attachments",
            TweetField::AuthorId => "author_id",
            TweetField::ContextAnnotations => "context_annotations",
            TweetField::ConversationId => "conversation_id",
            TweetField::CreatedAt => "created_at",
            TweetField::EditControls => "edit_controls",
            TweetField::Entities => "entities",
            TweetField::Geo => "geo",
            TweetField::Id => "id",
            TweetField::InReplyToUserId => "in_reply_to_user_id",
            TweetField::Lang => "lang",
            TweetField::NonPublicMetrics => "non_public_metrics",
            TweetField::PublicMetrics => "public_metrics",
            TweetField::OrganicMetrics => "organic_metrics",
            TweetField::PromotedMetrics => "promoted_metrics",
            TweetField::PossiblySensitive => "possibly_sensitive",
            TweetField::ReferencedTweets => "referenced_tweets",
            TweetField::ReplySettings => "reply_settings",
            TweetField::Source => "source",
            TweetField::Text => "text",
            TweetField::Withheld => "withheld",
        }
    }

    proof fn lemma_wire_name_is_plain(&self) {
        match self {
            TweetField::Attachments => {
                reveal_strlit("attachments");
            },
            TweetField::AuthorId => {
                reveal_strlit("author_id");
            },
            TweetField::ContextAnnotations => {
                reveal_strlit("context_annotations");
            },
            TweetField::ConversationId => {
                reveal_strlit("conversation_id");
            },
            TweetField::CreatedAt => {
                reveal_strlit("created_at");
            },
            TweetField::EditControls => {
                reveal_strlit("edit_controls");
            },
            TweetField::Entities => {
                reveal_strlit("entities");
            },
            TweetField::Geo => {
                reveal_strlit("geo");
            },
            TweetField::Id => {
                reveal_strlit("id");
            },
            TweetField::InReplyToUserId => {
                reveal_strlit("in_reply_to_user_id");
            },
            TweetField::Lang => {
                reveal_strlit("lang");
            },
            TweetField::NonPublicMetrics => {
                reveal_strlit("non_public_metrics");
            },
            TweetField::PublicMetrics => {
                reveal_strlit("public_metrics");
            },
            TweetField::OrganicMetrics => {
                reveal_strlit("organic_metrics");
            },
            TweetField::PromotedMetrics => {
                reveal_strlit("promoted_metrics");
            },
            TweetField::PossiblySensitive => {
                reveal_strlit("possibly_sensitive");
            },
            TweetField::ReferencedTweets => {
                reveal_strlit("referenced_tweets");
            },
            TweetField::ReplySettings => {
                reveal_strlit("reply_settings");
            },
            TweetField::Source => {
                reveal_strlit("source");
            },
            TweetField::Text => {
                reveal_strlit("text");
            },
            TweetField::Withheld => {
                reveal_strlit("withheld");
            },
        }
    }
}

/// A related entity that a response can be asked to embed.
#[derive(Debug, Clone, Copy, PartialEq, Eq)]
pub enum ExpansionType {
    AttachmentsPollIds,
    AttachmentsMediaKeys,
    AuthorId,
    EditHistoryTweetIds,
    EntitiesMentionsUsername,
    GeoPlaceId,
    InReplyToUserId,
    ReferencedTweetsId,
    ReferencedTweetsIdAuthorId,
}

impl WireName for ExpansionType {
    open spec fn spec_wire_name(&self) -> Seq<char> {
        match self {
            ExpansionType::AttachmentsPollIds => "attachments.poll_ids"@,
            ExpansionType::AttachmentsMediaKeys => "attachments.media_keys"@,
            ExpansionType::AuthorId => "author_id"@,
            ExpansionType::EditHistoryTweetIds => "edit_history_tweet_ids"@,
            ExpansionType::EntitiesMentionsUsername => "entities.mentions.username"@,
            ExpansionType::GeoPlaceId => "geo.place_id"@,
            ExpansionType::InReplyToUserId => "in_reply_to_user_id"@,
            ExpansionType::ReferencedTweetsId => "referenced_tweets.id"@,
            ExpansionType::ReferencedTweetsIdAuthorId => "referenced_tweets.id.author_id"@,
        }
    }

    fn wire_name(&self) -> (out: &'static str) {
        match self {
            ExpansionType::AttachmentsPollIds => "attachments.poll_ids",
            ExpansionType::AttachmentsMediaKeys => "attachments.media_keys",
            ExpansionType::AuthorId => "author_id",
            ExpansionType::EditHistoryTweetIds => "edit_history_tweet_ids",
            ExpansionType::EntitiesMentionsUsername => "entities.mentions.username",
            ExpansionType::GeoPlaceId => "geo.place_id",
            ExpansionType::InReplyToUserId => "in_reply_to_user_id",
            ExpansionType::ReferencedTweetsId => "referenced_tweets.id",
            ExpansionType::ReferencedTweetsIdAuthorId => "referenced_tweets.id.author_id",
        }
    }

    proof fn lemma_wire_name_is_plain(&self) {
        match self {
            ExpansionType::AttachmentsPollIds => {
                reveal_strlit("attachments.poll_ids");
            },
            ExpansionType::AttachmentsMediaKeys => {
                reveal_strlit("attachments.media_keys");
            },
            ExpansionType::AuthorId => {
                reveal_strlit("author_id");
            },
            ExpansionType::EditHistoryTweetIds => {
                reveal_strlit("edit_history_tweet_ids");
            },
            ExpansionType::EntitiesMentionsUsername => {
                reveal_strlit("entities.mentions.username");
            },
            ExpansionType::GeoPlaceId => {
                reveal_strlit("geo.place_id");
            },
            ExpansionType::InReplyToUserId => {
                reveal_strlit("in_reply_to_user_id");
            },
            ExpansionType::ReferencedTweetsId => {
                reveal_strlit("referenced_tweets.id");
            },
            ExpansionType::ReferencedTweetsIdAuthorId => {
                reveal_strlit("referenced_tweets.id.author_id");
            },
        }
    }
}

/// A field that an embedded media object can be asked to carry.
#[derive(Debug, Clone, Copy, PartialEq, Eq)]
pub enum MediaField {
    DurationMs,
    Height,
    MediaKey,
    PreviewImageUrl,
    Type,
    Url,
    Width,
    PublicMetrics,
    NonPublicMetrics,
    OrganicMetrics,
    PromotedMetrics,
    AltText,
    Variants,
}

impl WireName for MediaField {
    open spec fn spec_wire_name(&self) -> Seq<char> {
        match self {
            MediaField::DurationMs => "duration_ms"@,
            MediaField::Height => "height"@,
            MediaField::MediaKey => "media_key"@,
            MediaField::PreviewImageUrl => "preview_image_url"@,
            MediaField::Type => "type"@,
            MediaField::Url => "url"@,
            MediaField::Width => "width"@,
            MediaField::PublicMetrics => "public_metrics"@,
            MediaField::NonPublicMetrics => "non_public_metrics"@,
            MediaField::OrganicMetrics => "organic_metrics"@,
            MediaField::PromotedMetrics => "promoted_metrics"@,
            MediaField::AltText => "alt_text"@,
            MediaField::Variants => "variants"@,
        }
    }

    fn wire_name(&self) -> (out: &'static str) {
        match self {
            MediaField::DurationMs => "duration_ms",
            MediaField::Height => "height",
            MediaField::MediaKey => "media_key",
            MediaField::PreviewImageUrl => "preview_image_url",
            MediaField::Type => "type",
            MediaField::Url => "url",
            MediaField::Width => "width",
            MediaField::PublicMetrics => "public_metrics",
            MediaField::NonPublicMetrics => "non_public_metrics",
            MediaField::OrganicMetrics => "organic_metrics",
            MediaField::PromotedMetrics => "promoted_metrics",
            MediaField::AltText => "alt_text",
            MediaField::Variants => "variants",
        }
    }

    proof fn lemma_wire_name_is_plain(&self) {
        match self {
            MediaField::DurationMs => {
                reveal_strlit("duration_ms");
            },
            MediaField::Height => {
                reveal_strlit("height");
            },
            MediaField::MediaKey => {
                reveal_strlit("media_key");
            },
            MediaField::PreviewImageUrl => {
                reveal_strlit("preview_image_url");
            },
            MediaField::Type => {
                reveal_strlit("type");
            },
            MediaField::Url => {
                reveal_strlit("url");
            },
            MediaField::Width => {
                reveal_strlit("width");
            },
            MediaField::PublicMetrics => {
                reveal_strlit("public_metrics");
            },
            MediaField::NonPublicMetrics => {
                reveal_strlit("non_public_metrics");
            },
            MediaField::OrganicMetrics => {
                reveal_strlit("organic_metrics");
            },
            MediaField::PromotedMetrics => {
                reveal_strlit("promoted_metrics");
            },
            MediaField::AltText => {
                reveal_strlit("alt_text");
            },
            MediaField::Variants => {
                reveal_strlit("variants");
            },
        }
    }
}

/// A field that an embedded poll can be asked to carry.
#[derive(Debug, Clone, Copy, PartialEq, Eq)]
pub enum PollField {
    DurationMinutes,
    EndDatetime,
    Id,
    Options,
    VotingStatus,
}

impl WireName for PollField {
    open spec fn spec_wire_name(&self) -> Seq<char> {
        match self {
            PollField::DurationMinutes => "duration_minutes"@,
            PollField::EndDatetime => "end_datetime"@,
            PollField::Id => "id"@,
            PollField::Options => "options"@,
            PollField::VotingStatus => "voting_status"@,
        }
    }

    fn wire_name(&self) -> (out: &'static str) {
        match self {
            PollField::DurationMinutes => "duration_minutes",
            PollField::EndDatetime => "end_datetime",
            PollField::Id => "id",
            PollField::Options => "options",
            PollField::VotingStatus => "voting_status",
        }
    }

    proof fn lemma_wire_name_is_plain(&self) {
        match self {
            PollField::DurationMinutes => {
                reveal_strlit("duration_minutes");
            },
            PollField::EndDatetime => {
                reveal_strlit("end_datetime");
            },
            PollField::Id => {
                reveal_strlit("id");
            },
            PollField::Options => {
                reveal_strlit("options");
            },
            PollField::VotingStatus => {
                reveal_strlit("voting_status");
            },
        }
    }
}

/// A field that an embedded user can be asked to carry.
#[derive(Debug, Clone, Copy, PartialEq, Eq)]
pub enum UserField {
    CreatedAt,
    Description,
    Entities,
    Id,
    Location,
    MostRecentTweetId,
    Name,
    PinnedTweetId,
    ProfileImageUrl,
    Protected,
    PublicMetrics,
    Url,
    Username,
    Verified,
    VerifiedType,
    Withheld,
}

impl WireName for UserField {
    open spec fn spec_wire_name(&self) -> Seq<char> {
        match self {
            UserField::CreatedAt => "created_at"@,
            UserField::Description => "description"@,
            UserField::Entities => "entities"@,
            UserField::Id => "id"@,
            UserField::Location => "location"@,
            UserField::MostRecentTweetId => "most_recent_tweet_id"@,
            UserField::Name => "name"@,
            UserField::PinnedTweetId => "pinned_tweet_id"@,
            UserField::ProfileImageUrl => "profile_image_url"@,
            UserField::Protected => "protected"@,
            UserField::PublicMetrics => "public_metrics"@,
            UserField::Url => "url"@,
            UserField::Username => "username"@,
            UserField::Verified => "verified"@,
            UserField::VerifiedType => "verified_type"@,
            UserField::Withheld => "withheld"@,
        }
    }

    fn wire_name(&self) -> (out: &'static str) {
        match self {
            UserField::CreatedAt => "created_at",
            UserField::Description => "description",
            UserField::Entities => "entities",
            UserField::Id => "id",
            UserField::Location => "location",
            UserField::MostRecentTweetId => "most_recent_tweet_id",
            UserField::Name => "name",
            UserField::PinnedTweetId => "pinned_tweet_id",
            UserField::ProfileImageUrl => "profile_image_url",
            UserField::Protected => "protected",
            UserField::PublicMetrics => "public_metrics",
            UserField::Url => "url",
            UserField::Username => "username",
            UserField::Verified => "verified",
            UserField::VerifiedType => "verified_type",
            UserField::Withheld => "withheld",
        }
    }

    proof fn lemma_wire_name_is_plain(&self) {
        match self {
            UserField::CreatedAt => {
                reveal_strlit("created_at");
            },
            UserField::Description => {
                reveal_strlit("description");
            },
            UserField::Entities => {
                reveal_strlit("entities");
            },
            UserField::Id => {
                reveal_strlit("id");
            },
            UserField::Location => {
                reveal_strlit("location");
            },
            UserField::MostRecentTweetId => {
                reveal_strlit("most_recent_tweet_id");
            },
            UserField::Name => {
                reveal_strlit("name");
            },
            UserField::PinnedTweetId => {
                reveal_strlit("pinned_tweet_id");
            },
            UserField::ProfileImageUrl => {
                reveal_strlit("profile_image_url");
            },
            UserField::Protected => {
                reveal_strlit("protected");
            },
            UserField::PublicMetrics => {
                reveal_strlit("public_metrics");
            },
            UserField::Url => {
                reveal_strlit("url");
            },
            UserField::Username => {
                reveal_strlit("username");
            },
            UserField::Verified => {
                reveal_strlit("verified");
            },
            UserField::VerifiedType => {
                reveal_strlit("verified_type");
            },
            UserField::Withheld => {
                reveal_strlit("withheld");
            },
        }
    }
}

/// A field that an embedded place can be asked to carry.
#[derive(Debug, Clone, Copy, PartialEq, Eq)]
pub enum PlaceField {
    ContainedWithin,
    Country,
    CountryCode,
    FullName,
    Geo,
    Id,
    Name,
    PlaceType,
}

impl WireName for PlaceField {
    open spec fn spec_wire_name(&self) -> Seq<char> {
        match self {
            PlaceField::ContainedWithin => "contained_within"@,
            PlaceField::Country => "country"@,
            PlaceField::CountryCode => "country_code"@,
            PlaceField::FullName => "full_name"@,
            PlaceField::Geo => "geo"@,
            PlaceField::Id => "id"@,
            PlaceField::Name => "name"@,
            PlaceField::PlaceType => "place_type"@,
        }
    }

    fn wire_name(&self) -> (out: &'static str) {
        match self {
            PlaceField::ContainedWithin => "contained_within",
            PlaceField::Country => "country",
            PlaceField::CountryCode => "country_code",
            PlaceField::FullName => "full_name",
            PlaceField::Geo => "geo",
            PlaceField::Id => "id",
            PlaceField::Name => "name",
            PlaceField::PlaceType => "place_type",
        }
    }

    proof fn lemma_wire_name_is_plain(&self) {
        match self {
            PlaceField::ContainedWithin => {
                reveal_strlit("contained_within");
            },
            PlaceField::Country => {
                reveal_strlit("country");
            },
            PlaceField::CountryCode => {
                reveal_strlit("country_code");
            },
            PlaceField::FullName => {
                reveal_strlit("full_name");
            },
            PlaceField::Geo => {
                reveal_strlit("geo");
            },
            PlaceField::Id => {
                reveal_strlit("id");
            },
            PlaceField::Name => {
                reveal_strlit("name");
            },
            PlaceField::PlaceType => {
                reveal_strlit("place_type");
            },
        }
    }
}

/// A tweet as a lookup yields it.
#[derive(Debug, PartialEq, Eq)]
pub struct TweetData {
    /// The tweet's identifier.
    pub id: String,
    /// The tweet's text.
    pub text: String,
    /// The identifiers of the versions of the tweet, where the response
    /// carries them.
    pub edit_history_tweet_ids: Option<Vec<String>>,
}

/// The mathematical value of a [`TweetData`].
pub struct TweetDataView {
    pub id: Seq<char>,
    pub text: Seq<char>,
    pub edit_history_tweet_ids: Option<Seq<Seq<char>>>,
}

impl View for TweetData {
    type V = TweetDataView;

    open spec fn view(&self) -> TweetDataView {
        TweetDataView {
            id: self.id@,
            text: self.text@,
            edit_history_tweet_ids: match self.edit_history_tweet_ids {
                Some(ids) => Some(views(ids@)),
                None => None,
            },
        }
    }
}

impl TweetDataView {
    /// The tweet that the document `doc` describes, if it describes one: a
    /// struct of the fields `id` and `text`, both strings, and
    /// `edit_history_tweet_ids`, a list of strings that may be left out.
    pub open spec fn decoded(doc: JsonView) -> Option<TweetDataView> {
        match (
            doc.text_field(0, "id"@, 3),
            doc.text_field(1, "text"@, 3),
            doc.optional_texts_field(2, "edit_history_tweet_ids"@, 3),
        ) {
            (Some(id), Some(text), Some(edit_history_tweet_ids)) => Some(
                TweetDataView { id, text, edit_history_tweet_ids },
            ),
            _ => None,
        }
    }
}

impl TweetData {
    /// Reads a tweet from the document `doc`.
    pub fn from_json(doc: &Json) -> (out: Option<TweetData>)
        ensures
            out is Some <==> TweetDataView::decoded(doc@) is Some,
            out matches Some(tweet) ==> TweetDataView::decoded(doc@) == Some(tweet@),
    {
        let id = match doc.text_field(0, "id", 3) {
            Some(id) => id,
            None => return None,
        };
        let text = match doc.text_field(1, "text", 3) {
            Some(text) => text,
            None => return None,
        };
        let edit_history_tweet_ids = match doc.optional_texts_field(2, "edit_history_tweet_ids", 3) {
            Some(ids) => ids,
            None => return None,
        };
        Some(TweetData { id, text, edit_history_tweet_ids })
    }
}

} // verus!
