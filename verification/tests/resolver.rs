use repo_sync::error::RemoteQueryError;
use repo_sync::json::{parse, Json};
use repo_sync::resolver::{
    classify_status, entry_commit_id, head_of_body, head_of_listing, head_of_reply, resolve,
    RemoteReply,
};

fn response(status: u16, body: &str) -> RemoteReply {
    RemoteReply::Response { status, body: body.to_string() }
}

fn commit(id: &str) -> Json {
    Json::Object(vec![("commitId".to_string(), Json::Text(id.to_string()))])
}

fn listing(entries: Vec<Json>) -> Json {
    Json::Object(vec![
        ("count".to_string(), Json::Number),
        ("value".to_string(), Json::List(entries)),
    ])
}

#[test]
fn first_listed_commit_is_the_head() {
    let body = r#"{"count":2,"value":[{"commitId":"def456","comment":"b"},{"commitId":"abc123"}]}"#;
    assert_eq!(head_of_body(body).unwrap(), "def456");
    assert_eq!(resolve(&response(200, body)).unwrap(), "def456");
}

#[test]
fn empty_listing_is_empty_history() {
    assert_eq!(resolve(&response(200, r#"{"value":[]}"#)), Err(RemoteQueryError::EmptyHistory));
    assert_eq!(head_of_listing(&listing(vec![])), Err(RemoteQueryError::EmptyHistory));
}

#[test]
fn text_that_is_not_json_is_malformed() {
    assert_eq!(head_of_body("<html>Sign in</html>"), Err(RemoteQueryError::Malformed));
    assert_eq!(head_of_body(""), Err(RemoteQueryError::Malformed));
    assert_eq!(head_of_body(r#"{"value":["#), Err(RemoteQueryError::Malformed));
}

#[test]
fn document_of_another_shape_is_malformed() {
    assert_eq!(head_of_body("[]"), Err(RemoteQueryError::Malformed));
    assert_eq!(head_of_body(r#"{"count":0}"#), Err(RemoteQueryError::Malformed));
    assert_eq!(head_of_body(r#"{"value":{"commitId":"abc123"}}"#), Err(RemoteQueryError::Malformed));
    assert_eq!(head_of_body(r#"{"value":[{"commitId":17}]}"#), Err(RemoteQueryError::Malformed));
    assert_eq!(head_of_body(r#"{"value":[{"id":"abc123"}]}"#), Err(RemoteQueryError::Malformed));
    assert_eq!(head_of_body(r#"{"value":["abc123"]}"#), Err(RemoteQueryError::Malformed));
}

#[test]
fn later_entry_at_fault_is_malformed() {
    let body = r#"{"value":[{"commitId":"def456"},{"comment":"no id"}]}"#;
    assert_eq!(head_of_body(body), Err(RemoteQueryError::Malformed));
    let doc = listing(vec![commit("def456"), Json::Null]);
    assert_eq!(head_of_listing(&doc), Err(RemoteQueryError::Malformed));
}

#[test]
fn listing_built_by_hand_reads_like_a_parsed_one() {
    let doc = listing(vec![commit("def456"), commit("abc123")]);
    assert_eq!(head_of_listing(&doc).unwrap(), "def456");
    assert_eq!(entry_commit_id(&commit("abc123")).unwrap(), "abc123");
    assert!(entry_commit_id(&Json::Text("abc123".to_string())).is_none());
}

#[test]
fn statuses_are_classified() {
    assert_eq!(classify_status(200), None);
    assert_eq!(classify_status(204), None);
    assert_eq!(classify_status(299), None);
    assert_eq!(classify_status(401), Some(RemoteQueryError::Auth));
    assert_eq!(classify_status(403), Some(RemoteQueryError::Auth));
    assert_eq!(classify_status(199), Some(RemoteQueryError::Network));
    assert_eq!(classify_status(300), Some(RemoteQueryError::Network));
    assert_eq!(classify_status(404), Some(RemoteQueryError::Network));
    assert_eq!(classify_status(500), Some(RemoteQueryError::Network));
}

#[test]
fn status_is_looked_at_before_the_body() {
    let body = r#"{"value":[{"commitId":"def456"}]}"#;
    assert_eq!(resolve(&response(401, body)), Err(RemoteQueryError::Auth));
    assert_eq!(resolve(&response(503, body)), Err(RemoteQueryError::Network));
    assert_eq!(resolve(&response(200, body)).unwrap(), "def456");
}

#[test]
fn replies_without_an_answer_are_errors() {
    assert_eq!(resolve(&RemoteReply::Unreachable), Err(RemoteQueryError::Network));
    assert_eq!(resolve(&RemoteReply::TimedOut), Err(RemoteQueryError::TimedOut));
}

#[test]
fn reply_with_a_document_read_beforehand() {
    let doc = listing(vec![commit("def456")]);
    assert_eq!(head_of_reply(&response(200, ""), Some(&doc)).unwrap(), "def456");
    assert_eq!(head_of_reply(&response(200, ""), None), Err(RemoteQueryError::Malformed));
    assert_eq!(head_of_reply(&response(401, ""), Some(&doc)), Err(RemoteQueryError::Auth));
}

#[test]
fn parse_copies_every_kind_of_node() {
    let doc = parse(r#"{"a":null,"b":true,"c":1.5,"d":"x","e":[1,"y"],"f":{"g":false}}"#).unwrap();
    assert!(matches!(doc.get("a"), Some(Json::Null)));
    assert!(matches!(doc.get("b"), Some(Json::Bool(true))));
    assert!(matches!(doc.get("c"), Some(Json::Number)));
    assert!(matches!(doc.get("d"), Some(Json::Text(s)) if s == "x"));
    match doc.get("e") {
        Some(Json::List(items)) => {
            assert_eq!(items.len(), 2);
            assert!(matches!(items[0], Json::Number));
            assert!(matches!(&items[1], Json::Text(s) if s == "y"));
        }
        other => panic!("expected a list, got {:?}", other),
    }
    assert!(matches!(doc.get("f").unwrap().get("g"), Some(Json::Bool(false))));
    assert!(doc.get("missing").is_none());
    assert!(doc.get("f").unwrap().get("a").is_none());
    assert!(Json::Null.get("a").is_none());
    assert!(parse("{").is_none());
    assert!(parse("not json").is_none());
}

#[test]
fn get_takes_the_first_of_equal_names() {
    let doc = Json::Object(vec![
        ("k".to_string(), Json::Bool(true)),
        ("k".to_string(), Json::Bool(false)),
    ]);
    assert!(matches!(doc.get("k"), Some(Json::Bool(true))));
}
