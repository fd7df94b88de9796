use tweety_rs::api::error::TweetyError;
use tweety_rs::api::json::Json;
use tweety_rs::api::mentions::{
    ExpansionType, MediaField, PlaceField, PollField, TweetField, UserField, WireName,
};
use tweety_rs::api::query::QueryGroup;
use tweety_rs::api::request::{ApiRequest, HttpMethod};
use tweety_rs::api::text::join;
use tweety_rs::api::tweet::{
    delete_tweet_request, edit_tweet_request, get_tweet_info_request,
    get_tweet_info_with_params_request, get_tweet_request, lookup_with_query_request,
    make_tweet_body, post_tweet_request, Ids, Media, QueryParams, TweetRequest,
};
use tweety_rs::types::tweet::PostTweetParams;

fn strings(items: &[&str]) -> Vec<String> {
    items.iter().map(|item| item.to_string()).collect()
}

fn text_entry(text: &str) -> (String, Json) {
    ("text".to_string(), Json::Str(text.to_string()))
}

fn lookup_url(params: QueryParams) -> String {
    match get_tweet_info_with_params_request("42", Some(params)) {
        Ok(request) => {
            assert_eq!(request.method, HttpMethod::Get);
            assert_eq!(request.body, None);
            request.url
        }
        Err(error) => panic!("no request: {}", error.to_string()),
    }
}

#[test]
fn join_puts_the_separator_between_neighbours() {
    assert_eq!(join(&strings(&["a", "b", "c"]), ", "), "a, b, c");
    assert_eq!(join(&strings(&["a"]), ", "), "a");
    assert_eq!(join(&strings(&[]), ", "), "");
    assert_eq!(join(&strings(&["", ""]), "-"), "-");
}

#[test]
fn ids_render_comma_joined_in_order() {
    let ids = Ids::Multiple(strings(&["1", "2", "3"]));
    assert_eq!(ids.to_string(), "1,2,3");
    let reversed = Ids::Multiple(strings(&["3", "2", "1"]));
    assert_eq!(reversed.to_string(), "3,2,1");
}

#[test]
fn single_id_renders_as_itself() {
    assert_eq!(Ids::Single("1453489038376132611".to_string()).to_string(), "1453489038376132611");
    assert_eq!(Ids::Multiple(strings(&["7"])).to_string(), "7");
}

#[test]
fn empty_id_list_renders_empty() {
    assert_eq!(Ids::Multiple(Vec::new()).to_string(), "");
}

#[test]
fn get_tweet_names_the_ids_in_the_query() {
    let request = get_tweet_request(&Ids::Multiple(strings(&["1", "2", "3"])));
    assert_eq!(
        request,
        ApiRequest {
            method: HttpMethod::Get,
            url: "https://api.x.com/2/tweets/?ids=1,2,3".to_string(),
            body: None,
        }
    );
    let single = get_tweet_request(&Ids::Single("99".to_string()));
    assert_eq!(single.url, "https://api.x.com/2/tweets/?ids=99");
}

#[test]
fn get_tweet_info_addresses_the_tweet() {
    let request = get_tweet_info_request("42");
    assert_eq!(
        request,
        ApiRequest {
            method: HttpMethod::Get,
            url: "https://api.x.com/2/tweets/42".to_string(),
            body: None,
        }
    );
}

#[test]
fn lookup_without_params_is_the_plain_lookup() {
    let request = get_tweet_info_with_params_request("42", None);
    assert_eq!(request, Ok(get_tweet_info_request("42")));
}

#[test]
fn lookup_with_all_selections_absent_has_no_query() {
    assert_eq!(lookup_url(QueryParams::new()), "https://api.x.com/2/tweets/42");
    assert!(QueryParams::new().groups().is_empty());
}

#[test]
fn lookup_with_one_selection_names_only_that_parameter() {
    let mut params = QueryParams::new();
    params.tweet_fields = Some(vec![TweetField::CreatedAt, TweetField::AuthorId]);
    assert_eq!(
        lookup_url(params),
        "https://api.x.com/2/tweets/42?tweet.fields=created_at,author_id"
    );
    let mut params = QueryParams::new();
    params.place_fields = Some(vec![PlaceField::CountryCode]);
    assert_eq!(lookup_url(params), "https://api.x.com/2/tweets/42?place.fields=country_code");
}

#[test]
fn lookup_with_a_subset_names_exactly_the_present_parameters() {
    let mut params = QueryParams::new();
    params.expansions = Some(vec![ExpansionType::AuthorId, ExpansionType::AttachmentsMediaKeys]);
    params.user_fields = Some(vec![UserField::Username]);
    let url = lookup_url(params);
    assert_eq!(
        url,
        "https://api.x.com/2/tweets/42?expansions=author_id,attachments.media_keys&user.fields=username"
    );
    for absent in ["tweet.fields", "media.fields", "poll.fields", "place.fields"] {
        assert!(!url.contains(absent));
    }
}

#[test]
fn lookup_with_every_selection_writes_them_in_order() {
    let params = QueryParams {
        tweet_fields: Some(vec![TweetField::Text]),
        expansions: Some(vec![ExpansionType::GeoPlaceId]),
        media_fields: Some(vec![MediaField::Url, MediaField::AltText]),
        poll_fields: Some(vec![PollField::VotingStatus]),
        user_fields: Some(vec![UserField::Verified]),
        place_fields: Some(vec![PlaceField::FullName]),
    };
    assert_eq!(
        lookup_url(params),
        "https://api.x.com/2/tweets/42?tweet.fields=text&expansions=geo.place_id&media.fields=url,alt_text&poll.fields=voting_status&user.fields=verified&place.fields=full_name"
    );
}

#[test]
fn a_present_but_empty_selection_is_still_written() {
    let mut params = QueryParams::new();
    params.poll_fields = Some(Vec::new());
    assert_eq!(lookup_url(params), "https://api.x.com/2/tweets/42?poll.fields=");
}

#[test]
fn groups_follow_the_present_selections() {
    let mut params = QueryParams::new();
    params.media_fields = Some(vec![MediaField::Height, MediaField::Width]);
    params.tweet_fields = Some(vec![TweetField::Lang]);
    let groups = params.groups();
    assert_eq!(
        groups,
        vec![
            QueryGroup { name: "tweet.fields".to_string(), values: strings(&["lang"]) },
            QueryGroup { name: "media.fields".to_string(), values: strings(&["height", "width"]) },
        ]
    );
}

#[test]
fn query_string_is_empty_only_without_selections() {
    assert_eq!(QueryParams::new().to_query_string(), Ok(String::new()));
    let mut params = QueryParams::new();
    params.user_fields = Some(Vec::new());
    assert_eq!(params.to_query_string(), Ok("?user.fields=".to_string()));
    let mut params = QueryParams::new();
    params.expansions = Some(vec![ExpansionType::EntitiesMentionsUsername]);
    params.media_fields = Some(vec![MediaField::DurationMs]);
    assert_eq!(
        params.to_query_string(),
        Ok("?expansions=entities.mentions.username&media.fields=duration_ms".to_string())
    );
}

#[test]
fn a_failed_encoding_is_a_serialize_error() {
    let request = lookup_with_query_request("42", Some(Err("no keys".to_string())));
    assert_eq!(request, Err(TweetyError::SerializeError("no keys".to_string())));
}

#[test]
fn an_encoded_query_ends_the_address() {
    let request = lookup_with_query_request("42", Some(Ok("?tweet.fields=id".to_string())));
    assert_eq!(
        request,
        Ok(ApiRequest {
            method: HttpMethod::Get,
            url: "https://api.x.com/2/tweets/42?tweet.fields=id".to_string(),
            body: None,
        })
    );
}

#[test]
fn post_without_params_sends_the_text_alone() {
    let request = post_tweet_request("hello", None);
    assert_eq!(
        request,
        ApiRequest {
            method: HttpMethod::Post,
            url: "https://api.twitter.com/2/tweets".to_string(),
            body: Some(Json::Object(vec![text_entry("hello")])),
        }
    );
}

#[test]
fn post_with_params_without_media_sends_the_text_alone() {
    let request = post_tweet_request("hello", Some(PostTweetParams { media: None }));
    assert_eq!(request.body, Some(Json::Object(vec![text_entry("hello")])));
}

#[test]
fn post_with_media_attaches_the_ids() {
    let params = PostTweetParams { media: Some(Media { media_ids: strings(&["11", "12"]) }) };
    let request = post_tweet_request("look", Some(params));
    let media = Json::Object(vec![(
        "media_ids".to_string(),
        Json::Array(vec![Json::Str("11".to_string()), Json::Str("12".to_string())]),
    )]);
    assert_eq!(
        request.body,
        Some(Json::Object(vec![text_entry("look"), ("media".to_string(), media)]))
    );
    assert_eq!(request.method, HttpMethod::Post);
    assert_eq!(request.url, "https://api.twitter.com/2/tweets");
}

#[test]
fn tweet_request_and_params_make_the_same_body() {
    let request = TweetRequest {
        text: "look".to_string(),
        media: Media { media_ids: strings(&["11"]) },
    };
    let params = PostTweetParams { media: Some(Media { media_ids: strings(&["11"]) }) };
    assert_eq!(request.to_json(), params.to_json("look"));
    assert_eq!(
        request.to_json(),
        make_tweet_body("look", Some(&Media { media_ids: strings(&["11"]) }))
    );
}

#[test]
fn media_with_no_ids_is_an_empty_list() {
    let media = Media { media_ids: Vec::new() };
    assert_eq!(
        media.to_json(),
        Json::Object(vec![("media_ids".to_string(), Json::Array(Vec::new()))])
    );
}

#[test]
fn edit_patches_the_tweet_with_the_text_alone() {
    let request = edit_tweet_request("fixed", "77");
    assert_eq!(
        request,
        ApiRequest {
            method: HttpMethod::Patch,
            url: "https://api.twitter.com/2/tweets/77".to_string(),
            body: Some(Json::Object(vec![text_entry("fixed")])),
        }
    );
}

#[test]
fn delete_addresses_the_tweet_without_a_body() {
    let request = delete_tweet_request("77");
    assert_eq!(
        request,
        ApiRequest {
            method: HttpMethod::Delete,
            url: "https://api.x.com/2/tweets/77".to_string(),
            body: None,
        }
    );
}

#[test]
fn wire_names_are_the_documented_ones() {
    assert_eq!(TweetField::InReplyToUserId.wire_name(), "in_reply_to_user_id");
    assert_eq!(ExpansionType::ReferencedTweetsIdAuthorId.wire_name(), "referenced_tweets.id.author_id");
    assert_eq!(MediaField::PreviewImageUrl.wire_name(), "preview_image_url");
    assert_eq!(PollField::EndDatetime.wire_name(), "end_datetime");
    assert_eq!(UserField::MostRecentTweetId.wire_name(), "most_recent_tweet_id");
    assert_eq!(PlaceField::ContainedWithin.wire_name(), "contained_within");
}
