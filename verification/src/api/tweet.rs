//! The tweet endpoints: lookup, posting, editing and deletion.
//!
//! Each endpoint has a builder, which turns the caller's parameters into the
//! request to send.  The endpoints with a typed result also have a mapper,
//! which turns what the transport handed back into that result.
use crate::api::error::{ErrorKind, TweetyError, TweetyErrorView};
use crate::api::json::{
    key_at, lemma_member_of_only_entry, only_at, EntryView, Field, Json, JsonView,
};
use crate::api::mentions::{
    wire_names, ExpansionType, MediaField, PlaceField, PollField, TweetData, TweetDataView,
    TweetField, UserField, WireName,
};
use crate::api::query::{
    group_names, groups_view, writable, written_query, yaup_error_text, yaup_to_string,
    QueryGroup, QueryGroupView,
};
use crate::api::request::{ApiRequest, ApiRequestView, HttpMethod};
use crate::api::text::{is_plain, join, joined, views};
use crate::types::tweet::PostTweetParams;
use vstd::prelude::*;
use vstd::string::StringExecFns;

verus! {

/// The tweets that a lookup asks for: one identifier, or a list of them.
#[derive(Debug, PartialEq, Eq)]
pub enum Ids {
    Single(String),
    Multiple(Vec<String>),
}

impl Ids {
    /// The text that stands for the identifiers in a query: the single
    /// identifier as it is, or the identifiers of the list in their order
    /// with a comma between neighbours.
    pub open spec fn rendered(&self) -> Seq<char> {
        match self {
            Ids::Single(id) => id@,
            Ids::Multiple(ids) => joined(views(ids@), ","@),
        }
    }

    /// Renders the identifiers as they stand in a query.
    pub fn to_string(&self) -> (out: String)
        ensures
            out@ == self.rendered(),
    {
        match self {
            Ids::Single(id) => id.clone(),
            Ids::Multiple(ids) => join(ids, ","),
        }
    }
}

/// The field and expansion selections of a lookup.
///
/// A selection that is `None` is left out of the query.  A selection that is
/// present is written under its parameter name even when its list is empty.
#[derive(Debug, PartialEq, Eq)]
pub struct QueryParams {
    /// Written as `tweet.fields`.
    pub tweet_fields: Option<Vec<TweetField>>,
    /// Written as `expansions`.
    pub expansions: Option<Vec<ExpansionType>>,
    /// Written as `media.fields`.
    pub media_fields: Option<Vec<MediaField>>,
    /// Written as `poll.fields`.
    pub poll_fields: Option<Vec<PollField>>,
    /// Written as `user.fields`.
    pub user_fields: Option<Vec<UserField>>,
    /// Written as `place.fields`.
    pub place_fields: Option<Vec<PlaceField>>,
}

/// The query parameters that one selection contributes: the parameter `name`
/// with the names of the selected items where the selection is present, and
/// nothing where it is absent.
pub open spec fn selection_groups<T: WireName>(name: Seq<char>, selection: Option<Vec<T>>) -> Seq<
    QueryGroupView,
> {
    match selection {
        Some(items) => seq![QueryGroupView { name, values: wire_names(items@) }],
        None => Seq::empty(),
    }
}

/// Appends to `groups` what `selection` contributes under `name`.
fn push_selection<T: WireName>(
    groups: &mut Vec<QueryGroup>,
    name: &str,
    selection: &Option<Vec<T>>,
)
    ensures
        groups_view(final(groups)@) == groups_view(old(groups)@) + selection_groups(
            name@,
            *selection,
        ),
{
    match selection {
        None => {
            assert(groups_view(groups@) + Seq::<QueryGroupView>::empty() =~= groups_view(groups@));
        },
        Some(items) => {
            let mut values: Vec<String> = Vec::new();
            let mut i: usize = 0;
            while i < items.len()
                invariant
                    i <= items.len(),
                    values@.len() == i,
                    forall|j: int|
                        0 <= j < i ==> (#[trigger] values@[j])@ == items@[j].spec_wire_name(),
                decreases items.len() - i,
            {
                values.push(String::from_str(items[i].wire_name()));
                i += 1;
            }
            let group = QueryGroup { name: String::from_str(name), values };
            proof {
                assert(views(group.values@) =~= wire_names(items@));
                assert(groups_view(groups@.push(group)) =~= groups_view(groups@) + selection_groups(
                    name@,
                    *selection,
                ));
            }
            groups.push(group);
        },
    }
}

/// The names of the items of a selection need no escaping.
proof fn lemma_selection_is_plain<T: WireName>(name: Seq<char>, selection: Option<Vec<T>>)
    requires
        is_plain(name),
    ensures
        forall|i: int|
            0 <= i < selection_groups(name, selection).len() ==> (#[trigger] selection_groups(
                name,
                selection,
            )[i]).is_plain(),
{
    match selection {
        Some(items) => {
            let group = selection_groups(name, selection)[0];
            assert forall|j: int| 0 <= j < group.values.len() implies is_plain(
                #[trigger] group.values[j],
            ) by {
                items@[j].lemma_wire_name_is_plain();
            }
        },
        None => {},
    }
}

impl QueryParams {
    /// The parameters of the query, in the order in which they are written:
    /// one for each selection that is present.
    pub open spec fn spec_groups(&self) -> Seq<QueryGroupView> {
        selection_groups("tweet.fields"@, self.tweet_fields) + selection_groups(
            "expansions"@,
            self.expansions,
        ) + selection_groups("media.fields"@, self.media_fields) + selection_groups(
            "poll.fields"@,
            self.poll_fields,
        ) + selection_groups("user.fields"@, self.user_fields) + selection_groups(
            "place.fields"@,
            self.place_fields,
        )
    }

    /// Whether no selection is present.
    pub open spec fn spec_is_empty(&self) -> bool {
        &&& self.tweet_fields is None
        &&& self.expansions is None
        &&& self.media_fields is None
        &&& self.poll_fields is None
        &&& self.user_fields is None
        &&& self.place_fields is None
    }

    /// The selections with nothing selected: every one is absent.
    pub fn new() -> (out: QueryParams)
        ensures
            out.spec_is_empty(),
    {
        QueryParams {
            tweet_fields: None,
            expansions: None,
            media_fields: None,
            poll_fields: None,
            user_fields: None,
            place_fields: None,
        }
    }

    /// The query string of the selections: empty where no selection is
    /// present, and otherwise a question mark followed by the parameters of
    /// the present selections, each as its name, an equals sign and the
    /// names of its items separated by commas, with an ampersand between
    /// parameters.
    pub open spec fn spec_query(&self) -> Seq<char> {
        if self.spec_groups().len() == 0 {
            Seq::empty()
        } else {
            written_query(self.spec_groups())
        }
    }

    /// The parameters of the query, in the order in which they are written.
    pub fn groups(&self) -> (out: Vec<QueryGroup>)
        ensures
            groups_view(out@) == self.spec_groups(),
    {
        let mut out: Vec<QueryGroup> = Vec::new();
        assert(groups_view(out@) =~= Seq::<QueryGroupView>::empty());
        push_selection(&mut out, "tweet.fields", &self.tweet_fields);
        push_selection(&mut out, "expansions", &self.expansions);
        push_selection(&mut out, "media.fields", &self.media_fields);
        push_selection(&mut out, "poll.fields", &self.poll_fields);
        push_selection(&mut out, "user.fields", &self.user_fields);
        push_selection(&mut out, "place.fields", &self.place_fields);
        assert(groups_view(out@) =~= self.spec_groups());
        out
    }

    /// Writes the query string of the selections.
    ///
    /// The names of the selections and of their items need no escaping, so
    /// the encoder has nothing to refuse; the error side exists to hand on
    /// its description if it ever reports one.
    pub fn to_query_string(&self) -> (out: Result<String, String>)
        ensures
            out matches Ok(text) && text@ == self.spec_query(),
    {
        let groups = self.groups();
        if groups.len() == 0 {
            return Ok(String::new());
        }
        proof {
            lemma_groups_are_writable(*self);
        }
        match yaup_to_string(&groups) {
            Ok(text) => Ok(text),
            Err(error) => Err(yaup_error_text(&error)),
        }
    }
}

/// The media attached to a tweet that is posted.
#[derive(Debug, PartialEq, Eq)]
pub struct Media {
    pub media_ids: Vec<String>,
}

/// The mathematical value of a [`Media`].
pub struct MediaView {
    pub media_ids: Seq<Seq<char>>,
}

impl View for Media {
    type V = MediaView;

    open spec fn view(&self) -> MediaView {
        MediaView { media_ids: views(self.media_ids@) }
    }
}

impl MediaView {
    /// The document that carries the attachment: an object whose
    /// `media_ids` is the list of the identifiers.
    pub open spec fn to_json(self) -> JsonView {
        JsonView::Object(
            seq![EntryView { key: "media_ids"@, value: JsonView::of_texts(self.media_ids) }],
        )
    }
}

impl Media {
    /// The document that carries the attachment.
    pub fn to_json(&self) -> (out: Json)
        ensures
            out@ == self@.to_json(),
    {
        let mut entries: Vec<(String, Json)> = Vec::new();
        entries.push((String::from_str("media_ids"), Json::texts(&self.media_ids)));
        let out = Json::object(entries);
        assert(out@->Object_0 =~= self@.to_json()->Object_0);
        out
    }
}

/// The body of a post: the text alone where nothing is attached, and the
/// text followed by the attachment otherwise.
pub open spec fn tweet_body(text: Seq<char>, media: Option<MediaView>) -> JsonView {
    match media {
        None => JsonView::Object(seq![EntryView { key: "text"@, value: JsonView::Str(text) }]),
        Some(media) => JsonView::Object(
            seq![
                EntryView { key: "text"@, value: JsonView::Str(text) },
                EntryView { key: "media"@, value: media.to_json() },
            ],
        ),
    }
}

/// Builds the body of a post.
pub fn make_tweet_body(text: &str, media: Option<&Media>) -> (out: Json)
    ensures
        out@ == tweet_body(
            text@,
            match media {
                Some(media) => Some(media@),
                None => None,
            },
        ),
{
    let mut entries: Vec<(String, Json)> = Vec::new();
    entries.push((String::from_str("text"), Json::text(text)));
    match media {
        Some(media) => {
            entries.push((String::from_str("media"), media.to_json()));
        },
        None => {},
    }
    let out = Json::object(entries);
    assert(out@->Object_0 =~= tweet_body(
        text@,
        match media {
            Some(media) => Some(media@),
            None => None,
        },
    )->Object_0);
    out
}

/// A post with its attachment.
#[derive(Debug, PartialEq, Eq)]
pub struct TweetRequest {
    pub text: String,
    pub media: Media,
}

/// The mathematical value of a [`TweetRequest`].
pub struct TweetRequestView {
    pub text: Seq<char>,
    pub media: MediaView,
}

impl View for TweetRequest {
    type V = TweetRequestView;

    open spec fn view(&self) -> TweetRequestView {
        TweetRequestView { text: self.text@, media: self.media@ }
    }
}

impl TweetRequest {
    /// The body that posts this tweet.
    pub fn to_json(&self) -> (out: Json)
        ensures
            out@ == tweet_body(self@.text, Some(self@.media)),
    {
        make_tweet_body(self.text.as_str(), Some(&self.media))
    }
}

/// Whether a deletion took place.
#[derive(Debug, Clone, Copy, PartialEq, Eq, Structural)]
pub struct DeleteData {
    pub deleted: bool,
}

/// The response to a deletion.
#[derive(Debug, Clone, Copy, PartialEq, Eq, Structural)]
pub struct DeleteResponse {
    pub data: DeleteData,
}

impl DeleteData {
    /// The deletion flag that the document `doc` describes, if it describes
    /// one: a struct of the boolean field `deleted`.
    pub open spec fn decoded(doc: JsonView) -> Option<DeleteData> {
        match doc.bool_field(0, "deleted"@, 1) {
            Some(deleted) => Some(DeleteData { deleted }),
            None => None,
        }
    }

    /// Reads a deletion flag from the document `doc`.
    pub fn from_json(doc: &Json) -> (out: Option<DeleteData>)
        ensures
            out == DeleteData::decoded(doc@),
    {
        match doc.bool_field(0, "deleted", 1) {
            Some(deleted) => Some(DeleteData { deleted }),
            None => None,
        }
    }
}

impl DeleteResponse {
    /// The deletion response that the document `doc` describes, if it
    /// describes one: a struct of the field `data`, which describes a
    /// deletion flag.
    pub open spec fn decoded(doc: JsonView) -> Option<DeleteResponse> {
        match doc.field(0, "data"@, 1) {
            Field::Present(inner) => match DeleteData::decoded(inner) {
                Some(data) => Some(DeleteResponse { data }),
                None => None,
            },
            _ => None,
        }
    }

    /// Reads a deletion response from the document `doc`.
    pub fn from_json(doc: &Json) -> (out: Option<DeleteResponse>)
        ensures
            out == DeleteResponse::decoded(doc@),
    {
        match doc.field(0, "data", 1) {
            Field::Present(inner) => match DeleteData::from_json(inner) {
                Some(data) => Some(DeleteResponse { data }),
                None => None,
            },
            _ => None,
        }
    }
}

/// The response to a lookup of one tweet.
#[derive(Debug, PartialEq, Eq)]
pub struct LookupResponse {
    pub data: TweetData,
}

/// The mathematical value of a [`LookupResponse`].
pub struct LookupResponseView {
    pub data: TweetDataView,
}

impl View for LookupResponse {
    type V = LookupResponseView;

    open spec fn view(&self) -> LookupResponseView {
        LookupResponseView { data: self.data@ }
    }
}

impl LookupResponseView {
    /// The lookup response that the document `doc` describes, if it
    /// describes one: a struct of the field `data`, which describes a tweet.
    pub open spec fn decoded(doc: JsonView) -> Option<LookupResponseView> {
        match doc.field(0, "data"@, 1) {
            Field::Present(inner) => match TweetDataView::decoded(inner) {
                Some(data) => Some(LookupResponseView { data }),
                None => None,
            },
            _ => None,
        }
    }
}

impl LookupResponse {
    /// Reads a lookup response from the document `doc`.
    pub fn from_json(doc: &Json) -> (out: Option<LookupResponse>)
        ensures
            out is Some <==> LookupResponseView::decoded(doc@) is Some,
            out matches Some(response) ==> LookupResponseView::decoded(doc@) == Some(response@),
    {
        match doc.field(0, "data", 1) {
            Field::Present(inner) => match TweetData::from_json(inner) {
                Some(data) => Some(LookupResponse { data }),
                None => None,
            },
            _ => None,
        }
    }
}

/// A tweet as a post yields it.
#[derive(Debug, PartialEq, Eq)]
pub struct TweetResponse {
    /// The identifiers of the versions of the tweet.
    pub edit_history_tweet_ids: Vec<String>,
    /// The tweet's identifier.
    pub id: String,
    /// The tweet's text.
    pub text: String,
}

/// The mathematical value of a [`TweetResponse`].
pub struct TweetResponseView {
    pub edit_history_tweet_ids: Seq<Seq<char>>,
    pub id: Seq<char>,
    pub text: Seq<char>,
}

impl View for TweetResponse {
    type V = TweetResponseView;

    open spec fn view(&self) -> TweetResponseView {
        TweetResponseView {
            edit_history_tweet_ids: views(self.edit_history_tweet_ids@),
            id: self.id@,
            text: self.text@,
        }
    }
}

impl TweetResponseView {
    /// The posted tweet that the document `doc` describes, if it describes
    /// one: a struct of the fields `edit_history_tweet_ids`, a list of
    /// strings, and `id` and `text`, both strings.
    pub open spec fn decoded(doc: JsonView) -> Option<TweetResponseView> {
        match (
            doc.texts_field(0, "edit_history_tweet_ids"@, 3),
            doc.text_field(1, "id"@, 3),
            doc.text_field(2, "text"@, 3),
        ) {
            (Some(edit_history_tweet_ids), Some(id), Some(text)) => Some(
                TweetResponseView { edit_history_tweet_ids, id, text },
            ),
            _ => None,
        }
    }
}

impl TweetResponse {
    /// Reads a posted tweet from the document `doc`.
    pub fn from_json(doc: &Json) -> (out: Option<TweetResponse>)
        ensures
            out is Some <==> TweetResponseView::decoded(doc@) is Some,
            out matches Some(tweet) ==> TweetResponseView::decoded(doc@) == Some(tweet@),
    {
        let edit_history_tweet_ids = match doc.texts_field(0, "edit_history_tweet_ids", 3) {
            Some(ids) => ids,
            None => return None,
        };
        let id = match doc.text_field(1, "id", 3) {
            Some(id) => id,
            None => return None,
        };
        let text = match doc.text_field(2, "text", 3) {
            Some(text) => text,
            None => return None,
        };
        Some(TweetResponse { edit_history_tweet_ids, id, text })
    }
}

/// The response to a post.
#[derive(Debug, PartialEq, Eq)]
pub struct PostTweetResponseData {
    pub data: TweetResponse,
}

/// The mathematical value of a [`PostTweetResponseData`].
pub struct PostTweetResponseDataView {
    pub data: TweetResponseView,
}

impl View for PostTweetResponseData {
    type V = PostTweetResponseDataView;

    open spec fn view(&self) -> PostTweetResponseDataView {
        PostTweetResponseDataView { data: self.data@ }
    }
}

impl PostTweetResponseDataView {
    /// The response to a post that the document `doc` describes, if it
    /// describes one: a struct of the field `data`, which describes a posted
    /// tweet.
    pub open spec fn decoded(doc: JsonView) -> Option<PostTweetResponseDataView> {
        match doc.field(0, "data"@, 1) {
            Field::Present(inner) => match TweetResponseView::decoded(inner) {
                Some(data) => Some(PostTweetResponseDataView { data }),
                None => None,
            },
            _ => None,
        }
    }
}

impl PostTweetResponseData {
    /// Reads the response to a post from the document `doc`.
    pub fn from_json(doc: &Json) -> (out: Option<PostTweetResponseData>)
        ensures
            out is Some <==> PostTweetResponseDataView::decoded(doc@) is Some,
            out matches Some(response) ==> PostTweetResponseDataView::decoded(doc@) == Some(
                response@,
            ),
    {
        match doc.field(0, "data", 1) {
            Field::Present(inner) => match TweetResponse::from_json(inner) {
                Some(data) => Some(PostTweetResponseData { data }),
                None => None,
            },
            _ => None,
        }
    }
}

/// Where tweets are looked up and deleted; an identifier follows.
pub const TWEETS_URL: &'static str = "https://api.x.com/2/tweets/";

/// Where tweets are looked up by a list of identifiers; the list follows.
pub const TWEETS_BY_IDS_URL: &'static str = "https://api.x.com/2/tweets/?ids=";

/// Where tweets are posted.  Posting and editing go to the platform's
/// former host name.
pub const POST_URL: &'static str = "https://api.twitter.com/2/tweets";

/// Where tweets are edited; an identifier follows.
pub const EDIT_URL: &'static str = "https://api.twitter.com/2/tweets/";

/// The description of a lookup response that does not have the expected
/// shape.
pub const LOOKUP_MISMATCH: &'static str =
    "the response does not describe a tweet: `data` must hold the strings `id` and `text`";

/// The description of a post response that does not have the expected shape.
pub const POST_MISMATCH: &'static str =
    "the response does not describe a posted tweet: `data` must hold the list `edit_history_tweet_ids` and the strings `id` and `text`";

/// The description of a deletion response that does not have the expected
/// shape.
pub const DELETE_MISMATCH: &'static str =
    "the response does not describe a deletion: `data` must hold the boolean `deleted`";

/// A request without a body.
pub open spec fn bare_request(method: HttpMethod, url: Seq<char>) -> ApiRequestView {
    ApiRequestView { method, url, body: None }
}

/// The request that looks up the tweets `tweet_id`: a GET whose query names
/// the identifiers.
pub fn get_tweet_request(tweet_id: &Ids) -> (out: ApiRequest)
    ensures
        out@ == bare_request(HttpMethod::Get, TWEETS_BY_IDS_URL@ + tweet_id.rendered()),
{
    let mut url = String::from_str(TWEETS_BY_IDS_URL);
    let ids = tweet_id.to_string();
    url.append(ids.as_str());
    ApiRequest { method: HttpMethod::Get, url, body: None }
}

/// The request that looks up the tweet `tweet_id`: a GET of the tweet's
/// address.
pub fn get_tweet_info_request(tweet_id: &str) -> (out: ApiRequest)
    ensures
        out@ == bare_request(HttpMethod::Get, TWEETS_URL@ + tweet_id@),
{
    let mut url = String::from_str(TWEETS_URL);
    url.append(tweet_id);
    ApiRequest { method: HttpMethod::Get, url, body: None }
}

/// The lookup of the tweet `tweet_id` with a query, given how the encoding of
/// the query ended: the request whose address ends in the query string, or
/// the serialize error that carries the encoder's description.  Without a
/// query the address is that of the tweet.
pub open spec fn lookup_with_query(
    tweet_id: Seq<char>,
    encoded: Option<Result<Seq<char>, Seq<char>>>,
) -> Result<ApiRequestView, TweetyErrorView> {
    match encoded {
        None => Ok(bare_request(HttpMethod::Get, TWEETS_URL@ + tweet_id)),
        Some(Ok(query)) => Ok(bare_request(HttpMethod::Get, TWEETS_URL@ + tweet_id + query)),
        Some(Err(why)) => Err(TweetyErrorView { kind: ErrorKind::Serialize, message: why }),
    }
}

/// The views of the two sides of an encoding outcome.
pub open spec fn encoding_view(encoded: Option<Result<String, String>>) -> Option<
    Result<Seq<char>, Seq<char>>,
> {
    match encoded {
        None => None,
        Some(Ok(query)) => Some(Ok(query@)),
        Some(Err(why)) => Some(Err(why@)),
    }
}

/// Builds the lookup of the tweet `tweet_id` from how the encoding of its
/// query ended.
pub fn lookup_with_query_request(tweet_id: &str, encoded: Option<Result<String, String>>) -> (out:
    Result<ApiRequest, TweetyError>)
    ensures
        match lookup_with_query(tweet_id@, encoding_view(encoded)) {
            Ok(request) => (out matches Ok(built) && built@ == request),
            Err(error) => (out matches Err(raised) && raised@ == error),
        },
{
    let mut url = String::from_str(TWEETS_URL);
    url.append(tweet_id);
    match encoded {
        None => {},
        Some(Ok(query)) => {
            url.append(query.as_str());
        },
        Some(Err(why)) => {
            return Err(TweetyError::SerializeError(why));
        },
    }
    Ok(ApiRequest { method: HttpMethod::Get, url, body: None })
}

/// The request that looks up the tweet `tweet_id` with the selections
/// `params`.
///
/// Without selections it is the plain lookup.  With selections the address
/// ends in their query string, which is empty where every selection is
/// absent.
pub fn get_tweet_info_with_params_request(tweet_id: &str, params: Option<QueryParams>) -> (out:
    Result<ApiRequest, TweetyError>)
    ensures
        out matches Ok(built) && built@ == bare_request(
            HttpMethod::Get,
            TWEETS_URL@ + tweet_id@ + match params {
                Some(selections) => selections.spec_query(),
                None => Seq::empty(),
            },
        ),
{
    match params {
        None => {
            assert(TWEETS_URL@ + tweet_id@ + Seq::<char>::empty() =~= TWEETS_URL@ + tweet_id@);
            lookup_with_query_request(tweet_id, None)
        },
        Some(selections) => lookup_with_query_request(
            tweet_id,
            Some(selections.to_query_string()),
        ),
    }
}

/// What a lookup with selections yields, given what the transport handed
/// back: the typed response where the document describes one, a parse error
/// where it does not, and an API error that carries the rendering of the
/// transport's error where the call failed.
pub open spec fn lookup_outcome(sent: Result<JsonView, TweetyErrorView>) -> Result<
    LookupResponseView,
    TweetyErrorView,
> {
    match sent {
        Ok(doc) => match LookupResponseView::decoded(doc) {
            Some(response) => Ok(response),
            None => Err(TweetyErrorView { kind: ErrorKind::JsonParse, message: LOOKUP_MISMATCH@ }),
        },
        Err(error) => Err(TweetyErrorView { kind: ErrorKind::Api, message: error.rendered() }),
    }
}

/// The views of the two sides of what the transport handed back.
pub open spec fn sent_view(sent: Result<Json, TweetyError>) -> Result<JsonView, TweetyErrorView> {
    match sent {
        Ok(doc) => Ok(doc@),
        Err(error) => Err(error@),
    }
}

/// Maps what the transport handed back for a lookup with selections.
pub fn get_tweet_info_with_params_response(sent: Result<Json, TweetyError>) -> (out: Result<
    LookupResponse,
    TweetyError,
>)
    ensures
        match lookup_outcome(sent_view(sent)) {
            Ok(response) => (out matches Ok(mapped) && mapped@ == response),
            Err(error) => (out matches Err(raised) && raised@ == error),
        },
{
    match sent {
        Ok(doc) => match LookupResponse::from_json(&doc) {
            Some(response) => Ok(response),
            None => Err(TweetyError::JsonParseError(String::from_str(LOOKUP_MISMATCH))),
        },
        Err(error) => Err(TweetyError::ApiError(error.to_string())),
    }
}

/// The request that posts `message`: a POST whose body is the text alone
/// where no parameters are given, and the body that the parameters make of
/// the text otherwise.
pub fn post_tweet_request(message: &str, body_params: Option<PostTweetParams>) -> (out: ApiRequest)
    ensures
        out@ == (ApiRequestView {
            method: HttpMethod::Post,
            url: POST_URL@,
            body: Some(
                tweet_body(
                    message@,
                    match body_params {
                        Some(params) => params.spec_media(),
                        None => None,
                    },
                ),
            ),
        }),
{
    let body = match &body_params {
        Some(params) => params.to_json(message),
        None => make_tweet_body(message, None),
    };
    ApiRequest { method: HttpMethod::Post, url: String::from_str(POST_URL), body: Some(body) }
}

/// What a post yields, given what the transport handed back: the typed
/// response where the document describes one, a parse error where it does
/// not, and an API error that carries the rendering of the transport's error
/// where the call failed.
pub open spec fn post_outcome(sent: Result<JsonView, TweetyErrorView>) -> Result<
    PostTweetResponseDataView,
    TweetyErrorView,
> {
    match sent {
        Ok(doc) => match PostTweetResponseDataView::decoded(doc) {
            Some(response) => Ok(response),
            None => Err(TweetyErrorView { kind: ErrorKind::JsonParse, message: POST_MISMATCH@ }),
        },
        Err(error) => Err(TweetyErrorView { kind: ErrorKind::Api, message: error.rendered() }),
    }
}

/// Maps what the transport handed back for a post.
pub fn post_tweet_response(sent: Result<Json, TweetyError>) -> (out: Result<
    PostTweetResponseData,
    TweetyError,
>)
    ensures
        match post_outcome(sent_view(sent)) {
            Ok(response) => (out matches Ok(mapped) && mapped@ == response),
            Err(error) => (out matches Err(raised) && raised@ == error),
        },
{
    match sent {
        Ok(doc) => match PostTweetResponseData::from_json(&doc) {
            Some(response) => Ok(response),
            None => Err(TweetyError::JsonParseError(String::from_str(POST_MISMATCH))),
        },
        Err(error) => Err(TweetyError::ApiError(error.to_string())),
    }
}

/// The request that replaces the text of the tweet `media_id` by `message`:
/// a PATCH of the tweet's address whose body is the text alone.
pub fn edit_tweet_request(message: &str, media_id: &str) -> (out: ApiRequest)
    ensures
        out@ == (ApiRequestView {
            method: HttpMethod::Patch,
            url: EDIT_URL@ + media_id@,
            body: Some(tweet_body(message@, None)),
        }),
{
    let mut url = String::from_str(EDIT_URL);
    url.append(media_id);
    ApiRequest { method: HttpMethod::Patch, url, body: Some(make_tweet_body(message, None)) }
}

/// The request that deletes the tweet `tweet_id`: a DELETE of the tweet's
/// address, without a body.
pub fn delete_tweet_request(tweet_id: &str) -> (out: ApiRequest)
    ensures
        out@ == bare_request(HttpMethod::Delete, TWEETS_URL@ + tweet_id@),
{
    let mut url = String::from_str(TWEETS_URL);
    url.append(tweet_id);
    ApiRequest { method: HttpMethod::Delete, url, body: None }
}

/// What a deletion yields, given what the transport handed back: the typed
/// response where the document describes one, a parse error where it does
/// not, and the transport's own error where the call failed.
pub open spec fn delete_outcome(sent: Result<JsonView, TweetyErrorView>) -> Result<
    DeleteResponse,
    TweetyErrorView,
> {
    match sent {
        Ok(doc) => match DeleteResponse::decoded(doc) {
            Some(response) => Ok(response),
            None => Err(TweetyErrorView { kind: ErrorKind::JsonParse, message: DELETE_MISMATCH@ }),
        },
        Err(error) => Err(error),
    }
}

/// Maps what the transport handed back for a deletion.
pub fn delete_tweet_response(sent: Result<Json, TweetyError>) -> (out: Result<
    DeleteResponse,
    TweetyError,
>)
    ensures
        match delete_outcome(sent_view(sent)) {
            Ok(response) => out == Ok::<DeleteResponse, TweetyError>(response),
            Err(error) => (out matches Err(raised) && raised@ == error),
        },
{
    match sent {
        Ok(doc) => match DeleteResponse::from_json(&doc) {
            Some(response) => Ok(response),
            None => Err(TweetyError::JsonParseError(String::from_str(DELETE_MISMATCH))),
        },
        Err(error) => Err(error),
    }
}

/// Whether the selection that is written under `name` is present in
/// `params`.  No selection is written under any other name.
pub open spec fn selection_present(params: QueryParams, name: Seq<char>) -> bool {
    ||| name == "tweet.fields"@ && params.tweet_fields is Some
    ||| name == "expansions"@ && params.expansions is Some
    ||| name == "media.fields"@ && params.media_fields is Some
    ||| name == "poll.fields"@ && params.poll_fields is Some
    ||| name == "user.fields"@ && params.user_fields is Some
    ||| name == "place.fields"@ && params.place_fields is Some
}

/// With every selection absent the query string is empty; with any selection
/// present it is not.
pub proof fn law_query_is_empty_without_selections(params: QueryParams)
    ensures
        params.spec_is_empty() <==> params.spec_query().len() == 0,
{
    if !params.spec_is_empty() {
        let name = if params.tweet_fields is Some {
            "tweet.fields"@
        } else if params.expansions is Some {
            "expansions"@
        } else if params.media_fields is Some {
            "media.fields"@
        } else if params.poll_fields is Some {
            "poll.fields"@
        } else if params.user_fields is Some {
            "user.fields"@
        } else {
            "place.fields"@
        };
        law_query_names_are_present_selections(params, name);
        reveal_strlit("?");
    }
}

/// The query holds a parameter of a given name exactly when the selection
/// that is written under that name is present.
pub proof fn law_query_names_are_present_selections(params: QueryParams, name: Seq<char>)
    ensures
        group_names(params.spec_groups()).contains(name) <==> selection_present(params, name),
{
    let groups = params.spec_groups();
    let names = group_names(groups);
    let g0 = selection_groups("tweet.fields"@, params.tweet_fields);
    let g1 = selection_groups("expansions"@, params.expansions);
    let g2 = selection_groups("media.fields"@, params.media_fields);
    let g3 = selection_groups("poll.fields"@, params.poll_fields);
    let g4 = selection_groups("user.fields"@, params.user_fields);
    let g5 = selection_groups("place.fields"@, params.place_fields);
    assert(groups == g0 + g1 + g2 + g3 + g4 + g5);
    if selection_present(params, name) {
        let i: int = if name == "tweet.fields"@ && params.tweet_fields is Some {
            0
        } else if name == "expansions"@ && params.expansions is Some {
            g0.len() as int
        } else if name == "media.fields"@ && params.media_fields is Some {
            (g0 + g1).len() as int
        } else if name == "poll.fields"@ && params.poll_fields is Some {
            (g0 + g1 + g2).len() as int
        } else if name == "user.fields"@ && params.user_fields is Some {
            (g0 + g1 + g2 + g3).len() as int
        } else {
            (g0 + g1 + g2 + g3 + g4).len() as int
        };
        assert(0 <= i < names.len() && names[i] == name);
    }
    if names.contains(name) {
        let i = choose|i: int| 0 <= i < names.len() && names[i] == name;
        assert(names[i] == groups[i].name);
    }
}

/// No parameter name occurs twice in a query.
pub proof fn law_query_names_are_distinct(params: QueryParams)
    ensures
        group_names(params.spec_groups()).no_duplicates(),
{
    reveal_strlit("tweet.fields");
    reveal_strlit("expansions");
    reveal_strlit("media.fields");
    reveal_strlit("poll.fields");
    reveal_strlit("user.fields");
    reveal_strlit("place.fields");
    let groups = params.spec_groups();
    let names = group_names(groups);
    let g0 = selection_groups("tweet.fields"@, params.tweet_fields);
    let g1 = selection_groups("expansions"@, params.expansions);
    let g2 = selection_groups("media.fields"@, params.media_fields);
    let g3 = selection_groups("poll.fields"@, params.poll_fields);
    let g4 = selection_groups("user.fields"@, params.user_fields);
    let g5 = selection_groups("place.fields"@, params.place_fields);
    assert(groups == g0 + g1 + g2 + g3 + g4 + g5);
    assert("tweet.fields"@[0] == 't' && "expansions"@[0] == 'e' && "media.fields"@[0] == 'm');
    assert("poll.fields"@[1] == 'o' && "user.fields"@[0] == 'u' && "place.fields"@[1] == 'l');
    assert("poll.fields"@[0] == 'p' && "place.fields"@[0] == 'p');
    assert forall|i: int, j: int| 0 <= i < names.len() && 0 <= j < names.len() && i != j implies names[i]
        != names[j] by {
        assert(names[i] == groups[i].name);
        assert(names[j] == groups[j].name);
    }
}

/// The parameters of a query can be written without escaping and without
/// merging.
proof fn lemma_groups_are_writable(params: QueryParams)
    ensures
        writable(params.spec_groups()),
{
    reveal_strlit("tweet.fields");
    reveal_strlit("expansions");
    reveal_strlit("media.fields");
    reveal_strlit("poll.fields");
    reveal_strlit("user.fields");
    reveal_strlit("place.fields");
    law_query_names_are_distinct(params);
    lemma_selection_is_plain("tweet.fields"@, params.tweet_fields);
    lemma_selection_is_plain("expansions"@, params.expansions);
    lemma_selection_is_plain("media.fields"@, params.media_fields);
    lemma_selection_is_plain("poll.fields"@, params.poll_fields);
    lemma_selection_is_plain("user.fields"@, params.user_fields);
    lemma_selection_is_plain("place.fields"@, params.place_fields);
}

/// A response that is an object without an entry named `data` is answered
/// with a parse error by every typed endpoint, whatever else it holds.
pub proof fn law_missing_data_is_parse_error(entries: Seq<EntryView>)
    requires
        forall|i: int| !key_at(entries, "data"@, i),
    ensures
        lookup_outcome(Ok(JsonView::Object(entries))) matches Err(error) && error.kind
            == ErrorKind::JsonParse,
        post_outcome(Ok(JsonView::Object(entries))) matches Err(error) && error.kind
            == ErrorKind::JsonParse,
        delete_outcome(Ok(JsonView::Object(entries))) matches Err(error) && error.kind
            == ErrorKind::JsonParse,
{
}

/// A deletion response whose `data` holds the boolean `deleted` yields that
/// boolean as its flag, whatever else the response and its `data` hold.
pub proof fn law_deletion_yields_the_flag(
    outer: Seq<EntryView>,
    i: int,
    inner: Seq<EntryView>,
    j: int,
    deleted: bool,
)
    requires
        only_at(outer, "data"@, i),
        outer[i].value == JsonView::Object(inner),
        only_at(inner, "deleted"@, j),
        inner[j].value == JsonView::Bool(deleted),
    ensures
        delete_outcome(Ok(JsonView::Object(outer))) == Ok::<DeleteResponse, TweetyErrorView>(
            DeleteResponse { data: DeleteData { deleted } },
        ),
{
    lemma_member_of_only_entry(outer, "data"@, i);
    lemma_member_of_only_entry(inner, "deleted"@, j);
}

/// A lookup response whose `data` holds the strings `id` and `text` yields a
/// tweet with that identifier and that text, whatever else the response and
/// its `data` hold, so long as `data` holds either no edit history or a
/// well-formed one.
pub proof fn law_lookup_yields_the_identifier(
    outer: Seq<EntryView>,
    i: int,
    inner: Seq<EntryView>,
    j: int,
    k: int,
    id: Seq<char>,
    text: Seq<char>,
)
    requires
        only_at(outer, "data"@, i),
        outer[i].value == JsonView::Object(inner),
        only_at(inner, "id"@, j),
        inner[j].value == JsonView::Str(id),
        only_at(inner, "text"@, k),
        inner[k].value == JsonView::Str(text),
        JsonView::Object(inner).optional_texts_field(2, "edit_history_tweet_ids"@, 3) is Some,
    ensures
        lookup_outcome(Ok(JsonView::Object(outer))) matches Ok(response) && response.data.id == id
            && response.data.text == text,
{
    lemma_member_of_only_entry(outer, "data"@, i);
    lemma_member_of_only_entry(inner, "id"@, j);
    lemma_member_of_only_entry(inner, "text"@, k);
}

/// A typed endpoint answers a response either with what the response
/// describes or with a parse error; it never makes a result up.
pub proof fn law_undecodable_is_parse_error(doc: JsonView)
    ensures
        lookup_outcome(Ok(doc)) is Ok <==> LookupResponseView::decoded(doc) is Some,
        lookup_outcome(Ok(doc)) matches Err(error) ==> error.kind == ErrorKind::JsonParse,
        post_outcome(Ok(doc)) is Ok <==> PostTweetResponseDataView::decoded(doc) is Some,
        post_outcome(Ok(doc)) matches Err(error) ==> error.kind == ErrorKind::JsonParse,
        delete_outcome(Ok(doc)) is Ok <==> DeleteResponse::decoded(doc) is Some,
        delete_outcome(Ok(doc)) matches Err(error) ==> error.kind == ErrorKind::JsonParse,
{
}

} // verus!
