use pocket::actions::{Action, PocketAction, PocketAddAction, PocketItemAction, PocketItemActionKind, PocketTagRenameAction};
use pocket::client::{Pocket, GET_ENDPOINT, OAUTH_REQUEST_ENDPOINT, SEND_ENDPOINT};
use pocket::json::JsonValue;
use pocket::protocol::{check_headers, PocketError, Reply};
use pocket::requests::PocketGetTag;
use pocket::url::WebUrl;
use pocket::wire::{DecodeError, PocketItemHas, PocketItemStatus, Timestamp};

fn s(text: &str) -> JsonValue {
    JsonValue::Str(text.to_string())
}

fn obj(entries: Vec<(&str, JsonValue)>) -> JsonValue {
    JsonValue::Object(entries.into_iter().map(|(k, v)| (k.to_string(), v)).collect())
}

fn ok_reply(body: JsonValue) -> Reply {
    Reply { error_code: None, error_message: None, body: Ok(body) }
}

fn field<'a>(v: &'a JsonValue, name: &str) -> &'a JsonValue {
    match v {
        JsonValue::Object(es) => &es.iter().find(|(k, _)| k == name).expect("no such field").1,
        _ => panic!("not an object"),
    }
}

fn text(v: &JsonValue) -> &str {
    match v {
        JsonValue::Str(t) => t,
        _ => panic!("not a string"),
    }
}

fn item_json() -> JsonValue {
    obj(vec![
        ("item_id", s("229279689")),
        ("resolved_id", s("229279689")),
        ("given_url", s("http://www.grantland.com/blog/the-triangle/post/_/id/38347/")),
        ("given_title", s("The Massive Ryder Cup Preview")),
        ("favorite", s("0")),
        ("status", s("1")),
        ("resolved_title", s("The Massive Ryder Cup Preview")),
        ("resolved_url", s("http://www.grantland.com/blog/the-triangle/post/_/id/38347/")),
        ("excerpt", s("The list of things I love about the Ryder Cup is so long")),
        ("is_article", s("1")),
        ("has_video", s("1")),
        ("has_image", s("2")),
        ("word_count", s("3197")),
        ("time_added", s("1346976937")),
        ("time_updated", s("1346976938")),
        ("time_read", s("0")),
        ("time_favorited", s("0")),
        ("sort_id", JsonValue::U64(0)),
        ("is_index", s("0")),
        (
            "images",
            obj(vec![(
                "0",
                obj(vec![
                    ("item_id", s("229279689")),
                    ("image_id", s("1")),
                    ("src", s("http://a.espncdn.com/photo/2012/0927/grant_g_ryder_cr_640.jpg")),
                    ("width", s("0")),
                    ("height", s("0")),
                    ("credit", s("Getty Images")),
                    ("caption", s("")),
                ]),
            )]),
        ),
        (
            "videos",
            obj(vec![(
                "0",
                obj(vec![
                    ("item_id", s("229279689")),
                    ("video_id", s("1")),
                    ("src", s("http://www.youtube.com/v/Er34PbFkVGk")),
                    ("width", s("420")),
                    ("height", s("315")),
                    ("type", s("1")),
                    ("vid", s("Er34PbFkVGk")),
                ]),
            )]),
        ),
    ])
}

fn authorized() -> Pocket {
    Pocket::new("abc", Some("def"))
}

#[test]
fn test_actions_serialize() {
    let pocket = Pocket::new("abc", Some("def"));
    let add_action = PocketAddAction { item_id: None, ref_id: None, tags: None, time: None, title: None, url: None };
    assert_eq!(add_action.name(), "add");
    let req = pocket.send_request(vec![Action::Add(add_action)]).unwrap();
    assert_eq!(req.endpoint, SEND_ENDPOINT);
    assert_eq!(text(field(&req.body, "consumer_key")), "abc");
    assert_eq!(text(field(&req.body, "access_token")), "def");
    match field(&req.body, "actions") {
        JsonValue::Array(a) => {
            assert_eq!(a.len(), 1);
            match &a[0] {
                JsonValue::Object(es) => {
                    assert_eq!(es.len(), 1);
                    assert_eq!(es[0].0, "name");
                    assert_eq!(text(&es[0].1), "add");
                }
                _ => panic!("not an object"),
            }
        }
        _ => panic!("not an array"),
    }
}

#[test]
fn actions_carry_only_their_fields() {
    let archive = PocketItemAction { kind: PocketItemActionKind::Archive, item_id: 12, time: Some(99) };
    let json = archive.to_json();
    assert_eq!(text(field(&json, "name")), "archive");
    assert!(matches!(field(&json, "item_id"), JsonValue::U64(12)));
    assert!(matches!(field(&json, "time"), JsonValue::U64(99)));
    let rename = PocketTagRenameAction { item_id: 3, old_tag: "a".to_string(), new_tag: "b".to_string(), time: None };
    match rename.to_json() {
        JsonValue::Object(es) => {
            let keys: Vec<&str> = es.iter().map(|(k, _)| k.as_str()).collect();
            assert_eq!(keys, vec!["name", "item_id", "old_tag", "new_tag"]);
        }
        _ => panic!("not an object"),
    }
}

#[test]
fn header_precedence() {
    assert_eq!(check_headers(Some(401), Some("bad key")), Err(PocketError::Proto(401, "bad key".to_string())));
    assert_eq!(
        check_headers(Some(401), None),
        Err(PocketError::Proto(401, "unknown protocol error".to_string()))
    );
    assert_eq!(check_headers(None, Some("oops")), Err(PocketError::Proto(0, "oops".to_string())));
    assert_eq!(check_headers(None, None), Ok(()));
}

#[test]
fn reply_headers_win_over_body() {
    let reply = Reply {
        error_code: None,
        error_message: Some("down".to_string()),
        body: Err(PocketError::Http("connection reset".to_string())),
    };
    assert_eq!(reply.json(), Err(PocketError::Proto(0, "down".to_string())));
    let reply = Reply { error_code: None, error_message: None, body: Err(PocketError::Http("reset".to_string())) };
    assert_eq!(reply.json(), Err(PocketError::Http("reset".to_string())));
}

#[test]
fn error_code_without_message() {
    let reply = Reply { error_code: Some(200), error_message: None, body: Ok(JsonValue::Null) };
    let err = authorized().filter().unwrap().get(reply).unwrap_err();
    assert_eq!(err, PocketError::Proto(200, "unknown protocol error".to_string()));
    assert_eq!(err.message(), "unknown protocol error (code 200)");
    assert_eq!(err.description(), "protocol error");
}

#[test]
fn authorize_before_code_fails() {
    let mut pocket = Pocket::new("K", None);
    assert_eq!(pocket.authorize_request().err(), Some(PocketError::MissingCode));
    let reply = ok_reply(obj(vec![("access_token", s("T")), ("username", s("u"))]));
    assert_eq!(pocket.authorize(reply), Err(PocketError::MissingCode));
    assert_eq!(pocket.access_token(), None);
    assert_eq!(pocket.pending_code(), None);
}

#[test]
fn authorization_flow() {
    let mut pocket = Pocket::new("K", None);
    let first = pocket.oauth_request().unwrap();
    assert_eq!(first.endpoint, OAUTH_REQUEST_ENDPOINT);
    assert_eq!(text(field(&first.body, "consumer_key")), "K");
    assert_eq!(text(field(&first.body, "redirect_uri")), "rustapi:finishauth");
    assert!(matches!(field(&first.body, "state"), JsonValue::Null));
    let url = pocket.get_auth_url(ok_reply(obj(vec![("code", s("C0DE"))]))).unwrap();
    assert!(url.as_str().starts_with("https://getpocket.com/auth/authorize?"));
    assert!(url.as_str().contains("request_token=C0DE"));
    assert!(url.as_str().contains("redirect_uri=rustapi%3Afinishauth"));
    assert_eq!(pocket.pending_code(), Some("C0DE"));
    let second = pocket.authorize_request().unwrap();
    assert_eq!(text(field(&second.body, "code")), "C0DE");
    let name = pocket.authorize(ok_reply(obj(vec![("access_token", s("T0K")), ("username", s("reader"))]))).unwrap();
    assert_eq!(name, "reader");
    assert_eq!(pocket.access_token(), Some("T0K"));
    assert_eq!(pocket.pending_code(), None);
    assert_eq!(pocket.oauth_request().err(), Some(PocketError::AlreadyAuthorized));
}

#[test]
fn failed_authorization_keeps_code() {
    let mut pocket = Pocket::new("K", None);
    pocket.get_auth_url(ok_reply(obj(vec![("code", s("C"))]))).unwrap();
    let reply = Reply { error_code: Some(403), error_message: Some("denied".to_string()), body: Ok(JsonValue::Null) };
    assert_eq!(pocket.authorize(reply), Err(PocketError::Proto(403, "denied".to_string())));
    assert_eq!(pocket.pending_code(), Some("C"));
    assert_eq!(pocket.authorize(ok_reply(obj(vec![("username", s("u"))]))), Err(PocketError::Json(DecodeError::MissingField("access_token"))));
    assert_eq!(pocket.access_token(), None);
}

#[test]
fn calls_need_a_token() {
    let pocket = Pocket::new("K", None);
    let url = WebUrl::parse("http://example.com").unwrap();
    assert_eq!(pocket.push(&url).err(), Some(PocketError::MissingToken));
    assert_eq!(pocket.filter().err(), Some(PocketError::MissingToken));
    assert_eq!(pocket.send_request(Vec::new()).err(), Some(PocketError::MissingToken));
}

#[test]
fn list_items_scenario() {
    let body = obj(vec![
        ("status", JsonValue::U64(1)),
        ("complete", JsonValue::U64(1)),
        ("since", JsonValue::U64(1000)),
        ("list", obj(vec![("0", item_json())])),
    ]);
    let items = authorized().filter().unwrap().get(ok_reply(body)).unwrap();
    assert_eq!(items.len(), 1);
    let it = &items[0];
    assert_eq!(it.item_id, 229279689);
    assert_eq!(it.given_url.as_str(), "http://www.grantland.com/blog/the-triangle/post/_/id/38347/");
    assert_eq!(it.given_title, "The Massive Ryder Cup Preview");
    assert_eq!(it.word_count, 3197);
    assert_eq!(it.time_added, Timestamp { sec: 1346976937 });
    assert_eq!(it.time_read, Timestamp { sec: 0 });
    assert!(!it.favorite);
    assert!(it.is_article);
    assert!(!it.is_index);
    assert_eq!(it.has_image, PocketItemHas::Is);
    assert_eq!(it.has_video, PocketItemHas::Yes);
    assert_eq!(it.status, PocketItemStatus::Archived);
    let images = it.images.as_ref().unwrap();
    assert_eq!(images.len(), 1);
    assert_eq!(images[0].credit, "Getty Images");
    let videos = it.videos.as_ref().unwrap();
    assert_eq!(videos[0].vid, "Er34PbFkVGk");
    assert_eq!(videos[0].vtype, 1);
    assert_eq!(videos[0].length, None);
}

#[test]
fn list_items_empty_array() {
    let body = obj(vec![
        ("status", JsonValue::U64(2)),
        ("complete", JsonValue::U64(1)),
        ("since", JsonValue::U64(5)),
        ("list", JsonValue::Array(Vec::new())),
    ]);
    assert_eq!(authorized().filter().unwrap().get(ok_reply(body)).unwrap().len(), 0);
}

#[test]
fn list_items_strict() {
    let mut bad = item_json();
    if let JsonValue::Object(es) = &mut bad {
        es.retain(|(k, _)| k != "sort_id");
    }
    let body = obj(vec![
        ("status", JsonValue::U64(1)),
        ("complete", JsonValue::U64(1)),
        ("since", JsonValue::U64(1000)),
        ("list", obj(vec![("0", item_json()), ("1", bad)])),
    ]);
    assert_eq!(
        authorized().filter().unwrap().get(ok_reply(body)),
        Err(PocketError::Json(DecodeError::MissingField("sort_id")))
    );
}

#[test]
fn filter_request_body() {
    let pocket = authorized();
    let mut q = pocket.filter().unwrap();
    q.search("rust").unread().videos().complete().favorite(true).tag(PocketGetTag::Untagged).sort_by_newest().slice(10, 5);
    q.since(Timestamp { sec: 1000 });
    let req = q.request();
    assert_eq!(req.endpoint, GET_ENDPOINT);
    let b = &req.body;
    assert_eq!(text(field(b, "consumer_key")), "abc");
    assert_eq!(text(field(b, "access_token")), "def");
    assert_eq!(text(field(b, "search")), "rust");
    assert!(matches!(field(b, "domain"), JsonValue::Null));
    assert_eq!(text(field(b, "tag")), "_untagged_");
    assert_eq!(text(field(b, "state")), "unread");
    assert_eq!(text(field(b, "content_type")), "video");
    assert_eq!(text(field(b, "detail_type")), "complete");
    assert!(matches!(field(b, "favorite"), JsonValue::U64(1)));
    assert!(matches!(field(b, "since"), JsonValue::I64(1000)));
    assert_eq!(text(field(b, "sort")), "newest");
    assert!(matches!(field(b, "offset"), JsonValue::U64(10)));
    assert!(matches!(field(b, "count"), JsonValue::U64(5)));
}

#[test]
fn batch_results_in_order() {
    let body = obj(vec![
        ("status", JsonValue::U64(1)),
        ("action_results", JsonValue::Array(vec![JsonValue::Bool(true), JsonValue::Bool(false), JsonValue::Bool(true)])),
    ]);
    assert_eq!(Pocket::send(3, ok_reply(body)), Ok(vec![true, false, true]));
}

#[test]
fn batch_result_count_mismatch() {
    let body = obj(vec![
        ("status", JsonValue::U64(1)),
        ("action_results", JsonValue::Array(vec![JsonValue::Bool(true)])),
    ]);
    assert_eq!(Pocket::send(2, ok_reply(body)), Err(PocketError::Json(DecodeError::ResultCount)));
}

#[test]
fn add_request_and_reply() {
    let pocket = authorized();
    let url = WebUrl::parse("http://example.com").unwrap();
    let req = pocket.add(&url, Some("Title"), None, None).unwrap();
    assert_eq!(text(field(&req.body, "url")), "http://example.com/");
    assert_eq!(text(field(&req.body, "title")), "Title");
    assert!(matches!(field(&req.body, "tags"), JsonValue::Null));
    let added = obj(vec![
        ("item_id", s("1")),
        ("extended_item_id", s("1")),
        ("given_url", s("http://example.com/")),
        ("normal_url", s("http://example.com")),
        ("content_length", s("10")),
        ("word_count", s("2")),
        ("encoding", s("utf-8")),
        ("mime_type", s("text/html")),
        ("lang", s("en")),
        ("title", s("Example")),
        ("excerpt", s("An example")),
        ("date_published", s("0000-00-00 00:00:00")),
        ("date_resolved", s("2014-01-01 00:00:00")),
        ("resolved_id", s("1")),
        ("resolved_url", s("http://example.com/")),
        ("resolved_normal_url", s("http://example.com")),
        ("login_required", s("0")),
        ("response_code", s("200")),
        ("used_fallback", s("0")),
        ("domain_id", s("5")),
        ("origin_domain_id", s("5")),
        ("innerdomain_redirect", s("0")),
        ("is_index", s("1")),
        ("is_article", s("0")),
        ("has_image", s("0")),
        ("has_video", s("0")),
        ("images", JsonValue::Array(Vec::new())),
    ]);
    let item = Pocket::add_reply(ok_reply(obj(vec![("item", added), ("status", JsonValue::U64(1))]))).unwrap();
    assert_eq!(item.response_code, 200);
    assert!(item.is_index);
    assert_eq!(item.normal_url.as_str(), "http://example.com/");
    assert!(item.videos.is_empty());
    assert!(item.images.is_empty());
}
