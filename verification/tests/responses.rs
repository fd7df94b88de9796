use tweety_rs::api::error::{ErrorKind, TweetyError};
use tweety_rs::api::json::{Field, Json};
use tweety_rs::api::mentions::TweetData;
use tweety_rs::api::tweet::{
    delete_tweet_response, get_tweet_info_with_params_response, post_tweet_response, DeleteData,
    DeleteResponse, LookupResponse, PostTweetResponseData, TweetResponse, DELETE_MISMATCH,
    LOOKUP_MISMATCH, POST_MISMATCH,
};

fn text(value: &str) -> Json {
    Json::Str(value.to_string())
}

fn texts(values: &[&str]) -> Json {
    Json::Array(values.iter().map(|value| text(value)).collect())
}

fn object(entries: Vec<(&str, Json)>) -> Json {
    Json::Object(entries.into_iter().map(|(key, value)| (key.to_string(), value)).collect())
}

fn enveloped(payload: Json) -> Json {
    object(vec![("data", payload)])
}

fn parse_error(description: &str) -> TweetyError {
    TweetyError::JsonParseError(description.to_string())
}

#[test]
fn lookup_response_yields_the_identifier() {
    let doc = enveloped(object(vec![
        ("id", text("42")),
        ("text", text("hi")),
        ("edit_history_tweet_ids", texts(&["42"])),
    ]));
    let response = get_tweet_info_with_params_response(Ok(doc)).unwrap();
    assert_eq!(response.data.id, "42");
    assert_eq!(response.data.text, "hi");
    assert_eq!(response.data.edit_history_tweet_ids, Some(vec!["42".to_string()]));
}

#[test]
fn lookup_response_may_leave_the_edit_history_out() {
    let doc = enveloped(object(vec![("id", text("42")), ("text", text("hi"))]));
    assert_eq!(
        get_tweet_info_with_params_response(Ok(doc)),
        Ok(LookupResponse {
            data: TweetData {
                id: "42".to_string(),
                text: "hi".to_string(),
                edit_history_tweet_ids: None,
            },
        })
    );
    let with_null = enveloped(object(vec![
        ("id", text("42")),
        ("text", text("hi")),
        ("edit_history_tweet_ids", Json::Null),
    ]));
    assert_eq!(
        LookupResponse::from_json(&with_null).map(|response| response.data.edit_history_tweet_ids),
        Some(None)
    );
}

#[test]
fn lookup_response_ignores_entries_it_does_not_know() {
    let doc = object(vec![
        ("includes", object(vec![("users", Json::Array(Vec::new()))])),
        (
            "data",
            object(vec![
                ("lang", text("en")),
                ("id", text("42")),
                ("public_metrics", object(vec![("like_count", Json::Number("3".to_string()))])),
                ("text", text("hi")),
            ]),
        ),
    ]);
    let response = get_tweet_info_with_params_response(Ok(doc)).unwrap();
    assert_eq!(response.data.id, "42");
}

#[test]
fn lookup_response_without_data_is_a_parse_error() {
    let doc = object(vec![("errors", Json::Array(Vec::new()))]);
    let outcome = get_tweet_info_with_params_response(Ok(doc));
    assert_eq!(outcome, Err(parse_error(LOOKUP_MISMATCH)));
    assert_eq!(outcome.unwrap_err().kind(), ErrorKind::JsonParse);
    assert_eq!(
        get_tweet_info_with_params_response(Ok(Json::Object(Vec::new()))),
        Err(parse_error(LOOKUP_MISMATCH))
    );
}

#[test]
fn lookup_response_with_a_wrong_type_is_a_parse_error() {
    let number_id = enveloped(object(vec![
        ("id", Json::Number("42".to_string())),
        ("text", text("hi")),
    ]));
    assert_eq!(
        get_tweet_info_with_params_response(Ok(number_id)),
        Err(parse_error(LOOKUP_MISMATCH))
    );
    let mixed_history = enveloped(object(vec![
        ("id", text("42")),
        ("text", text("hi")),
        ("edit_history_tweet_ids", Json::Array(vec![text("42"), Json::Bool(true)])),
    ]));
    assert_eq!(
        get_tweet_info_with_params_response(Ok(mixed_history)),
        Err(parse_error(LOOKUP_MISMATCH))
    );
    for doc in [Json::Null, Json::Bool(true), text("data"), Json::Number("1".to_string())] {
        assert_eq!(
            get_tweet_info_with_params_response(Ok(doc)),
            Err(parse_error(LOOKUP_MISMATCH))
        );
    }
}

#[test]
fn lookup_failure_is_redescribed_as_an_api_error() {
    let sent = Err(TweetyError::ApiError("status 404".to_string()));
    assert_eq!(
        get_tweet_info_with_params_response(sent),
        Err(TweetyError::ApiError("API error: status 404".to_string()))
    );
    let sent = Err(parse_error("not json"));
    assert_eq!(
        get_tweet_info_with_params_response(sent),
        Err(TweetyError::ApiError("JSON parse error: not json".to_string()))
    );
}

#[test]
fn post_response_yields_the_posted_tweet() {
    let doc = enveloped(object(vec![
        ("edit_history_tweet_ids", texts(&["7", "8"])),
        ("id", text("8")),
        ("text", text("hello")),
    ]));
    assert_eq!(
        post_tweet_response(Ok(doc)),
        Ok(PostTweetResponseData {
            data: TweetResponse {
                edit_history_tweet_ids: vec!["7".to_string(), "8".to_string()],
                id: "8".to_string(),
                text: "hello".to_string(),
            },
        })
    );
}

#[test]
fn post_response_needs_every_field() {
    let no_history = enveloped(object(vec![("id", text("8")), ("text", text("hello"))]));
    assert_eq!(post_tweet_response(Ok(no_history)), Err(parse_error(POST_MISMATCH)));
    let null_history = enveloped(object(vec![
        ("edit_history_tweet_ids", Json::Null),
        ("id", text("8")),
        ("text", text("hello")),
    ]));
    assert_eq!(post_tweet_response(Ok(null_history)), Err(parse_error(POST_MISMATCH)));
    let no_data = object(vec![("id", text("8")), ("text", text("hello"))]);
    assert_eq!(post_tweet_response(Ok(no_data)), Err(parse_error(POST_MISMATCH)));
}

#[test]
fn post_failure_is_redescribed_as_an_api_error() {
    let sent = Err(TweetyError::SerializeError("bad".to_string()));
    assert_eq!(
        post_tweet_response(sent),
        Err(TweetyError::ApiError("Serialize error: bad".to_string()))
    );
}

#[test]
fn deletion_response_yields_the_flag() {
    let deleted = enveloped(object(vec![("deleted", Json::Bool(true))]));
    assert_eq!(
        delete_tweet_response(Ok(deleted)),
        Ok(DeleteResponse { data: DeleteData { deleted: true } })
    );
    let kept = enveloped(object(vec![("deleted", Json::Bool(false))]));
    assert_eq!(
        delete_tweet_response(Ok(kept)),
        Ok(DeleteResponse { data: DeleteData { deleted: false } })
    );
}

#[test]
fn deletion_response_of_another_shape_is_a_parse_error() {
    let as_text = enveloped(object(vec![("deleted", text("true"))]));
    assert_eq!(delete_tweet_response(Ok(as_text)), Err(parse_error(DELETE_MISMATCH)));
    let no_flag = enveloped(Json::Object(Vec::new()));
    assert_eq!(delete_tweet_response(Ok(no_flag)), Err(parse_error(DELETE_MISMATCH)));
    let no_data = object(vec![("deleted", Json::Bool(true))]);
    assert_eq!(delete_tweet_response(Ok(no_data)), Err(parse_error(DELETE_MISMATCH)));
}

#[test]
fn deletion_failure_is_handed_on_unchanged() {
    let sent = Err(TweetyError::ApiError("status 403".to_string()));
    assert_eq!(
        delete_tweet_response(sent),
        Err(TweetyError::ApiError("status 403".to_string()))
    );
    let sent = Err(parse_error("not json"));
    assert_eq!(delete_tweet_response(sent), Err(parse_error("not json")));
}

#[test]
fn structs_are_also_read_by_position() {
    let doc = Json::Array(vec![Json::Array(vec![Json::Bool(true)])]);
    assert_eq!(
        DeleteResponse::from_json(&doc),
        Some(DeleteResponse { data: DeleteData { deleted: true } })
    );
    let posted = Json::Array(vec![Json::Array(vec![texts(&["1"]), text("1"), text("hi")])]);
    assert_eq!(
        PostTweetResponseData::from_json(&posted).map(|response| response.data.id),
        Some("1".to_string())
    );
    let looked_up = Json::Array(vec![text("1"), text("hi"), Json::Null]);
    assert_eq!(
        TweetData::from_json(&looked_up),
        Some(TweetData { id: "1".to_string(), text: "hi".to_string(), edit_history_tweet_ids: None })
    );
}

#[test]
fn positional_structs_need_the_exact_length() {
    let short = Json::Array(vec![text("1"), text("hi")]);
    assert_eq!(TweetData::from_json(&short), None);
    assert_eq!(TweetResponse::from_json(&short), None);
    let long = Json::Array(vec![Json::Bool(true), Json::Bool(true)]);
    assert_eq!(DeleteData::from_json(&long), None);
    assert_eq!(DeleteData::from_json(&Json::Array(Vec::new())), None);
}

#[test]
fn a_field_named_twice_is_refused() {
    let doc = enveloped(object(vec![
        ("deleted", Json::Bool(true)),
        ("deleted", Json::Bool(true)),
    ]));
    assert_eq!(delete_tweet_response(Ok(doc)), Err(parse_error(DELETE_MISMATCH)));
    let twice_data = object(vec![
        ("data", object(vec![("deleted", Json::Bool(true))])),
        ("data", object(vec![("deleted", Json::Bool(false))])),
    ]);
    assert_eq!(DeleteResponse::from_json(&twice_data), None);
}

#[test]
fn field_tells_present_absent_and_malformed_apart() {
    let doc = object(vec![("a", Json::Null), ("b", Json::Bool(true)), ("a", Json::Bool(false))]);
    assert_eq!(doc.field(0, "b", 1), Field::Present(&Json::Bool(true)));
    assert_eq!(doc.field(0, "c", 1), Field::Absent);
    assert_eq!(doc.field(0, "a", 1), Field::Malformed);
    let list = Json::Array(vec![text("x"), text("y")]);
    assert_eq!(list.field(1, "b", 2), Field::Present(&text("y")));
    assert_eq!(list.field(0, "b", 3), Field::Malformed);
    assert_eq!(list.field(2, "b", 2), Field::Malformed);
    assert_eq!(Json::Null.field(0, "b", 1), Field::Malformed);
}

#[test]
fn typed_readers_accept_only_their_type() {
    assert_eq!(Json::Bool(false).as_bool(), Some(false));
    assert_eq!(text("true").as_bool(), None);
    assert_eq!(text("x").as_text(), Some("x".to_string()));
    assert_eq!(Json::Number("1".to_string()).as_text(), None);
    assert_eq!(texts(&["a", "b"]).as_texts(), Some(vec!["a".to_string(), "b".to_string()]));
    assert_eq!(Json::Array(Vec::new()).as_texts(), Some(Vec::new()));
    assert_eq!(Json::Array(vec![text("a"), Json::Null]).as_texts(), None);
    assert_eq!(text("a").as_texts(), None);
}

#[test]
fn builders_make_the_documents_they_name() {
    assert_eq!(Json::text("a"), text("a"));
    assert_eq!(Json::texts(&vec!["a".to_string(), "b".to_string()]), texts(&["a", "b"]));
    assert_eq!(
        Json::object(vec![("k".to_string(), Json::Null)]),
        Json::Object(vec![("k".to_string(), Json::Null)])
    );
}

#[test]
fn errors_render_with_their_kind() {
    let error = TweetyError::SerializeError("bad map".to_string());
    assert_eq!(error.kind(), ErrorKind::Serialize);
    assert_eq!(error.message(), "bad map");
    assert_eq!(error.to_string(), "Serialize error: bad map");
    assert_eq!(TweetyError::ApiError("down".to_string()).to_string(), "API error: down");
    assert_eq!(
        TweetyError::JsonParseError("odd".to_string()).to_string(),
        "JSON parse error: odd"
    );
    assert_eq!(ErrorKind::Api.label(), "API error");
}
