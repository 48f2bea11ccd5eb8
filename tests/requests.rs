use reqwest::header::{HeaderMap, HeaderValue};
use upstash_qstash::client::auth_headers;
use upstash_qstash::{is_success_status, Client, Method, MessageSettings, QStashError};

fn query_of(url: &str) -> Option<String> {
    url::Url::parse(url).unwrap().query().map(|q| q.to_string())
}

fn client() -> Client {
    Client::new("test-token").expect("client")
}

#[test]
fn new_accepts_plain_token() {
    assert!(Client::new("abc123").is_ok());
}

#[test]
fn new_accepts_empty_token() {
    assert!(Client::new("").is_ok());
}

#[test]
fn new_rejects_newline_in_token() {
    match Client::new("abc\ndef") {
        Err(QStashError::InvalidHeaderValue(_)) => {}
        _ => panic!("expected an invalid header value"),
    }
}

#[test]
fn new_rejects_delete_byte_in_token() {
    assert!(matches!(Client::new("abc\u{7f}"), Err(QStashError::InvalidHeaderValue(_))));
}

#[test]
fn new_accepts_tab_and_non_ascii_in_token() {
    assert!(Client::new("a\tb").is_ok());
    assert!(Client::new("tökén").is_ok());
}

#[test]
fn base_url_is_the_service_address() {
    assert_eq!(client().base_url(), "https://qstash.upstash.io/v1/");
}

#[test]
fn quota_request_gets_quota() {
    let req = client().quota_request().expect("request");
    assert_eq!(req.method, Method::Get);
    assert_eq!(req.path, "quota");
    assert_eq!(req.query, None);
    assert_eq!(req.url.as_str(), "https://qstash.upstash.io/v1/quota");
    assert!(req.headers.is_empty());
    assert!(req.body.is_none());
}

#[test]
fn message_request_gets_message() {
    let req = client().message_request("msg_abc").expect("request");
    assert_eq!(req.method, Method::Get);
    assert_eq!(req.path, "messages/msg_abc");
    assert_eq!(req.url.as_str(), "https://qstash.upstash.io/v1/messages/msg_abc");
    assert!(req.body.is_none());
}

#[test]
fn cancel_request_deletes_message() {
    let req = client().cancel_request("msg_abc").expect("request");
    assert_eq!(req.method, Method::Delete);
    assert_eq!(req.path, "messages/msg_abc");
    assert_eq!(req.query, None);
    assert_eq!(req.url.as_str(), "https://qstash.upstash.io/v1/messages/msg_abc");
    assert!(req.headers.is_empty());
    assert!(req.body.is_none());
}

#[test]
fn tasks_request_without_cursor_has_no_query() {
    let req = client().tasks_request("m1", None).expect("request");
    assert_eq!(req.method, Method::Get);
    assert_eq!(req.path, "messages/m1/tasks");
    assert_eq!(req.query, None);
    assert_eq!(query_of(&req.url), None);
    assert_eq!(req.url.as_str(), "https://qstash.upstash.io/v1/messages/m1/tasks");
}

#[test]
fn tasks_request_with_cursor_has_cursor_query() {
    let req = client().tasks_request("m1", Some(42)).expect("request");
    assert_eq!(req.query, Some("cursor=42".to_string()));
    assert_eq!(query_of(&req.url), Some("cursor=42".to_string()));
    assert_eq!(req.url.as_str(), "https://qstash.upstash.io/v1/messages/m1/tasks?cursor=42");
}

#[test]
fn tasks_request_with_negative_and_extreme_cursors() {
    let req = client().tasks_request("m1", Some(-7)).expect("request");
    assert_eq!(req.query, Some("cursor=-7".to_string()));
    let req = client().tasks_request("m1", Some(0)).expect("request");
    assert_eq!(req.query, Some("cursor=0".to_string()));
    let req = client().tasks_request("m1", Some(i64::MAX)).expect("request");
    assert_eq!(req.query, Some("cursor=9223372036854775807".to_string()));
    let req = client().tasks_request("m1", Some(i64::MIN)).expect("request");
    assert_eq!(req.query, Some("cursor=-9223372036854775808".to_string()));
}

#[test]
fn same_request_twice_is_the_same() {
    let c = client();
    let a = c.tasks_request("m1", Some(5)).expect("request");
    let b = c.tasks_request("m1", Some(5)).expect("request");
    assert_eq!(a.path, b.path);
    assert_eq!(a.query, b.query);
    assert_eq!(a.url, b.url);
    assert_eq!(a.method, b.method);
}

fn key1_body() -> serde_json::Value {
    let mut map = serde_json::Map::new();
    map.insert("key1".to_string(), serde_json::Value::String("value1".to_string()));
    serde_json::Value::Object(map)
}

#[test]
fn publish_with_delay_and_retries() {
    let settings = MessageSettings::new().delay("10s").retries(3);
    let req = client()
        .publish_request("https://example.com/hook", key1_body(), Some(settings))
        .expect("request");
    assert_eq!(req.method, Method::Post);
    assert_eq!(req.path, "publish/https://example.com/hook");
    assert_eq!(req.query, None);
    assert_eq!(req.headers.get("Upstash-Delay").unwrap(), "10s");
    assert_eq!(req.headers.get("Upstash-Retries").unwrap(), "3");
    assert_eq!(req.headers.len(), 2);
    assert_eq!(req.body, Some(key1_body()));
    assert_eq!(serde_json::to_string(req.body.as_ref().unwrap()).unwrap(), "{\"key1\":\"value1\"}");
    assert_eq!(req.url, "https://qstash.upstash.io/v1/publish/https://example.com/hook");
    let reply: serde_json::Value = serde_json::from_str("{\"messageId\":\"msg_abc\"}").unwrap();
    assert!(is_success_status(200));
    assert_eq!(reply["messageId"], "msg_abc");
}

#[test]
fn publish_without_settings_has_no_headers() {
    let req = client().publish_request("my-topic", key1_body(), None).expect("request");
    assert_eq!(req.path, "publish/my-topic");
    assert!(req.headers.is_empty());
    assert_eq!(req.url.as_str(), "https://qstash.upstash.io/v1/publish/my-topic");
}

#[test]
fn publish_with_invalid_settings_fails() {
    let settings = MessageSettings::new().cron("* * *\n");
    let r = client().publish_request("my-topic", key1_body(), Some(settings));
    assert!(matches!(r, Err(QStashError::InvalidHeaderValue(_))));
}

#[test]
fn failure_statuses_are_not_success() {
    assert!(!is_success_status(401));
    assert!(!is_success_status(500));
    assert!(!is_success_status(199));
    assert!(!is_success_status(300));
    assert!(is_success_status(200));
    assert!(is_success_status(204));
    assert!(is_success_status(299));
}

#[test]
fn empty_settings_give_no_headers() {
    let headers = MessageSettings::new().as_headers().expect("headers");
    assert!(headers.is_empty());
}

#[test]
fn every_directive_gives_one_header() {
    let headers = MessageSettings::new()
        .delay("2h")
        .retries(0)
        .cron("*/5 * * * *")
        .callback_url("https://example.com/cb")
        .dedup_id("abc-1")
        .as_headers()
        .expect("headers");
    assert_eq!(headers.len(), 5);
    assert_eq!(headers.get("upstash-delay").unwrap(), "2h");
    assert_eq!(headers.get("upstash-retries").unwrap(), "0");
    assert_eq!(headers.get("upstash-cron").unwrap(), "*/5 * * * *");
    assert_eq!(headers.get("upstash-callback").unwrap(), "https://example.com/cb");
    assert_eq!(headers.get("upstash-deduplication-id").unwrap(), "abc-1");
}

#[test]
fn largest_retry_count_in_decimal() {
    let headers = MessageSettings::new().retries(u32::MAX).as_headers().expect("headers");
    assert_eq!(headers.get("upstash-retries").unwrap(), "4294967295");
}

#[test]
fn last_setter_call_wins() {
    let headers = MessageSettings::new().delay("1m").delay("7d").as_headers().expect("headers");
    assert_eq!(headers.len(), 1);
    assert_eq!(headers.get("upstash-delay").unwrap(), "7d");
}

#[test]
fn custom_headers_are_added_and_win() {
    let mut custom = HeaderMap::new();
    custom.insert("Upstash-Delay", HeaderValue::from_static("30m"));
    custom.insert("x-extra", HeaderValue::from_static("yes"));
    let headers = MessageSettings::new()
        .delay("10s")
        .retries(3)
        .custom_headers(custom)
        .as_headers()
        .expect("headers");
    assert_eq!(headers.len(), 3);
    assert_eq!(headers.get("upstash-delay").unwrap(), "30m");
    assert_eq!(headers.get("upstash-retries").unwrap(), "3");
    assert_eq!(headers.get("x-extra").unwrap(), "yes");
}

#[test]
fn custom_header_with_several_values_replaces_directive() {
    let mut custom = HeaderMap::new();
    custom.append("upstash-cron", HeaderValue::from_static("a"));
    custom.append("upstash-cron", HeaderValue::from_static("b"));
    let headers = MessageSettings::new()
        .cron("0 * * * *")
        .custom_headers(custom)
        .as_headers()
        .expect("headers");
    let values: Vec<_> = headers.get_all("upstash-cron").iter().collect();
    assert_eq!(values, vec!["a", "b"]);
}

#[test]
fn invalid_directive_values_are_rejected() {
    for settings in [
        MessageSettings::new().delay("10s\r\n"),
        MessageSettings::new().callback_url("x\u{0}"),
        MessageSettings::new().dedup_id("\u{7f}"),
    ] {
        assert!(matches!(settings.as_headers(), Err(QStashError::InvalidHeaderValue(_))));
    }
}

#[test]
fn too_many_custom_headers_are_refused() {
    let mut custom = HeaderMap::new();
    for i in 0..4092 {
        custom.insert(
            reqwest::header::HeaderName::from_bytes(format!("x-h{}", i).as_bytes()).unwrap(),
            HeaderValue::from_static("v"),
        );
    }
    let r = MessageSettings::new().custom_headers(custom).as_headers();
    assert!(matches!(r, Err(QStashError::Unknown)));
}

#[test]
fn auth_headers_hold_bearer_token_marked_sensitive() {
    let headers = auth_headers("tok-1").expect("headers");
    assert_eq!(headers.len(), 1);
    let value = headers.get("Authorization").unwrap();
    assert_eq!(value, "Bearer tok-1");
    assert!(value.is_sensitive());
    assert!(!format!("{:?}", headers).contains("tok-1"));
}

#[test]
fn auth_headers_reject_newline() {
    assert!(matches!(auth_headers("a\nb"), Err(QStashError::InvalidHeaderValue(_))));
}

#[test]
fn directive_headers_are_not_sensitive() {
    let headers = MessageSettings::new().dedup_id("d").as_headers().expect("headers");
    assert!(!headers.get("upstash-deduplication-id").unwrap().is_sensitive());
}

#[test]
fn cancel_and_get_address_the_same_url() {
    let c = client();
    let get = c.message_request("msg_abc").expect("request");
    let cancel = c.cancel_request("msg_abc").expect("request");
    assert_eq!(get.url, cancel.url);
    assert_ne!(get.method, cancel.method);
}
