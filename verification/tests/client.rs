use bark_rs::{BarkClient, BarkError, BarkMessage, Level, SyncBarkClient};
use serde_json::Value;

fn text(s: &str) -> Value {
    Value::String(s.to_string())
}

#[test]
fn test_sync_client_creation() {
    let client = SyncBarkClient::new("https://api.day.app");
    assert_eq!(client.base_url(), "https://api.day.app");
    assert_eq!(client.default_device_key(), None);

    let client_with_key = SyncBarkClient::with_device_key("https://api.day.app/", "test_key");
    assert_eq!(client_with_key.base_url(), "https://api.day.app");
    assert_eq!(
        client_with_key.default_device_key().map(|key| key.to_string()),
        Some("test_key".to_string())
    );
}

#[test]
fn with_device_key_strips_the_slash_and_keeps_the_key() {
    let client = SyncBarkClient::with_device_key("https://api.day.app/", "k");
    assert_eq!(client.base_url(), "https://api.day.app");
    assert_eq!(client.default_device_key(), Some("k"));
}

#[test]
fn every_slash_at_the_end_is_stripped() {
    assert_eq!(
        SyncBarkClient::new("https://api.day.app///").base_url(),
        "https://api.day.app"
    );
    assert_eq!(SyncBarkClient::new("/").base_url(), "");
    assert_eq!(SyncBarkClient::new("//").base_url(), "");
    assert_eq!(SyncBarkClient::new("").base_url(), "");
}

#[test]
fn slashes_elsewhere_stay() {
    assert_eq!(SyncBarkClient::new("https://host/a/b").base_url(), "https://host/a/b");
    assert_eq!(SyncBarkClient::new("https://host/a/b/").base_url(), "https://host/a/b");
    assert_eq!(SyncBarkClient::new("/x").base_url(), "/x");
}

#[test]
fn base_url_may_hold_any_characters() {
    assert_eq!(SyncBarkClient::new("https://例え.jp/通知/").base_url(), "https://例え.jp/通知");
}

#[test]
fn device_key_of_the_message_comes_before_the_clients() {
    let client = SyncBarkClient::with_device_key("https://api.day.app", "default");
    let own = BarkMessage::builder().body("b").device_key("own").build();
    let none = BarkMessage::builder().body("b").build();
    assert_eq!(client.get_device_key(&own).unwrap(), "own");
    assert_eq!(client.get_device_key(&none).unwrap(), "default");
}

#[test]
fn device_key_is_missing_where_nobody_names_one() {
    let client = SyncBarkClient::new("https://api.day.app");
    let message = BarkMessage::builder().body("b").build();
    assert!(matches!(client.get_device_key(&message), Err(BarkError::MissingDeviceKey)));
    let own = BarkMessage::builder().body("b").device_key("own").build();
    assert_eq!(client.get_device_key(&own).unwrap(), "own");
}

#[test]
fn request_without_any_device_key_is_refused() {
    let client = SyncBarkClient::new("https://api.day.app");
    let message = BarkMessage::builder().body("b").title("t").build();
    assert!(matches!(client.request(&message), Err(BarkError::MissingDeviceKey)));
    assert!(matches!(
        client.message().body("b").request(),
        Err(BarkError::MissingDeviceKey)
    ));
}

#[test]
fn request_goes_to_push_below_the_base_url() {
    let client = SyncBarkClient::with_device_key("https://api.day.app/", "k");
    let message = BarkMessage::builder().body("b").build();
    let request = client.request(&message).unwrap();
    assert_eq!(request.url, "https://api.day.app/push");
    let batch = BarkMessage::builder().body("b").device_keys(vec!["a".to_string()]).build();
    assert_eq!(client.request(&batch).unwrap().url, "https://api.day.app/push");
}

#[test]
fn payload_of_a_bare_message_holds_body_and_device_key() {
    let client = SyncBarkClient::with_device_key("https://api.day.app", "k");
    let message = BarkMessage::builder().body("hello").build();
    let mut expected = serde_json::Map::new();
    expected.insert("body".to_string(), text("hello"));
    expected.insert("device_key".to_string(), text("k"));
    assert_eq!(client.request(&message).unwrap().payload, expected);
}

#[test]
fn payload_of_an_empty_message_still_holds_the_body() {
    let client = SyncBarkClient::new("https://api.day.app");
    let message = BarkMessage::builder().build();
    let mut expected = serde_json::Map::new();
    expected.insert("body".to_string(), text(""));
    assert_eq!(client.build_json_payload(&message).unwrap(), expected);
}

#[test]
fn payload_holds_every_field_that_is_set() {
    let client = SyncBarkClient::with_device_key("https://api.day.app", "default");
    let message = BarkMessage::builder()
        .body("test body")
        .title("test title")
        .subtitle("test subtitle")
        .device_key("own")
        .level(Level::TimeSensitive)
        .volume(8)
        .badge(5)
        .call(true)
        .auto_copy(false)
        .copy("copy text")
        .sound("alarm")
        .icon("https://example.com/icon.png")
        .group("test group")
        .ciphertext("secret")
        .is_archive(true)
        .url("https://example.com")
        .action("none")
        .id("message_id")
        .delete(false)
        .build();
    let mut expected = serde_json::Map::new();
    expected.insert("body".to_string(), text("test body"));
    expected.insert("title".to_string(), text("test title"));
    expected.insert("subtitle".to_string(), text("test subtitle"));
    expected.insert("device_key".to_string(), text("own"));
    expected.insert("level".to_string(), text("timeSensitive"));
    expected.insert("volume".to_string(), Value::from(8u64));
    expected.insert("badge".to_string(), Value::from(5u64));
    expected.insert("call".to_string(), text("1"));
    expected.insert("autoCopy".to_string(), text("0"));
    expected.insert("copy".to_string(), text("copy text"));
    expected.insert("sound".to_string(), text("alarm"));
    expected.insert("icon".to_string(), text("https://example.com/icon.png"));
    expected.insert("group".to_string(), text("test group"));
    expected.insert("ciphertext".to_string(), text("secret"));
    expected.insert("isArchive".to_string(), text("1"));
    expected.insert("url".to_string(), text("https://example.com"));
    expected.insert("action".to_string(), text("none"));
    expected.insert("id".to_string(), text("message_id"));
    expected.insert("delete".to_string(), text("0"));
    let request = client.request(&message).unwrap();
    assert_eq!(request.payload, expected);
    assert_eq!(request.payload.len(), 19);
}

#[test]
fn build_json_payload_leaves_the_single_device_out() {
    let client = SyncBarkClient::with_device_key("https://api.day.app", "default");
    let message = BarkMessage::builder().body("b").device_key("own").build();
    let payload = client.build_json_payload(&message).unwrap();
    assert!(!payload.contains_key("device_key"));
    assert_eq!(payload.get("body"), Some(&text("b")));
    assert_eq!(payload.len(), 1);
}

#[test]
fn flags_travel_as_the_strings_one_and_zero() {
    let client = SyncBarkClient::with_device_key("https://api.day.app", "k");
    let on = BarkMessage::builder()
        .call(true)
        .auto_copy(true)
        .is_archive(true)
        .delete(true)
        .build();
    let off = BarkMessage::builder()
        .call(false)
        .auto_copy(false)
        .is_archive(false)
        .delete(false)
        .build();
    let on = client.request(&on).unwrap().payload;
    let off = client.request(&off).unwrap().payload;
    for key in ["call", "autoCopy", "isArchive", "delete"] {
        assert_eq!(on.get(key), Some(&Value::String("1".to_string())));
        assert_eq!(off.get(key), Some(&Value::String("0".to_string())));
        assert_ne!(on.get(key), Some(&Value::Bool(true)));
        assert_ne!(off.get(key), Some(&Value::Bool(false)));
    }
    assert_eq!(serde_json::to_string(&on["call"]).unwrap(), "\"1\"");
    assert_eq!(serde_json::to_string(&off["delete"]).unwrap(), "\"0\"");
}

#[test]
fn flags_that_are_not_set_are_left_out() {
    let client = SyncBarkClient::with_device_key("https://api.day.app", "k");
    let message = BarkMessage::builder().body("b").call(true).build();
    let payload = client.request(&message).unwrap().payload;
    assert!(payload.contains_key("call"));
    assert!(!payload.contains_key("autoCopy"));
    assert!(!payload.contains_key("isArchive"));
    assert!(!payload.contains_key("delete"));
}

#[test]
fn numbers_travel_as_json_numbers() {
    let client = SyncBarkClient::with_device_key("https://api.day.app", "k");
    let message = BarkMessage::builder().volume(0).badge(4_294_967_295).build();
    let payload = client.request(&message).unwrap().payload;
    assert_eq!(payload.get("volume"), Some(&Value::from(0u64)));
    assert_eq!(payload.get("badge"), Some(&Value::from(4_294_967_295u64)));
    assert_eq!(payload["volume"].as_u64(), Some(0));
    assert_eq!(serde_json::to_string(&payload["badge"]).unwrap(), "4294967295");
}

#[test]
fn volume_above_ten_never_reaches_the_payload() {
    let client = SyncBarkClient::with_device_key("https://api.day.app", "k");
    let mut message = BarkMessage::builder().body("b").build();
    message.volume = Some(11);
    assert!(!client.request(&message).unwrap().payload.contains_key("volume"));
    message.volume = Some(10);
    assert_eq!(
        client.request(&message).unwrap().payload.get("volume"),
        Some(&Value::from(10u64))
    );
}

#[test]
fn every_level_travels_under_its_name() {
    let client = SyncBarkClient::with_device_key("https://api.day.app", "k");
    for (level, name) in [
        (Level::Critical, "critical"),
        (Level::Active, "active"),
        (Level::TimeSensitive, "timeSensitive"),
        (Level::Passive, "passive"),
    ] {
        let message = BarkMessage::builder().level(level).build();
        assert_eq!(client.request(&message).unwrap().payload.get("level"), Some(&text(name)));
    }
}

#[test]
fn device_keys_route_to_the_batch_path() {
    let client = SyncBarkClient::with_device_key("https://api.day.app", "default");
    let keys = vec!["key1".to_string(), "key2".to_string(), "key3".to_string()];
    let message = BarkMessage::builder().body("batch").device_keys(keys).build();
    let payload = client.request(&message).unwrap().payload;
    let mut expected = serde_json::Map::new();
    expected.insert("body".to_string(), text("batch"));
    expected.insert(
        "device_keys".to_string(),
        Value::Array(vec![text("key1"), text("key2"), text("key3")]),
    );
    assert_eq!(payload, expected);
}

#[test]
fn device_keys_route_to_the_batch_path_whatever_device_key_says() {
    let keys = vec!["key1".to_string(), "key2".to_string()];
    let with_own = BarkMessage::builder()
        .body("batch")
        .device_key("own")
        .device_keys(keys.clone())
        .build();
    let without_own = BarkMessage::builder().body("batch").device_keys(keys).build();
    let with_default = SyncBarkClient::with_device_key("https://api.day.app", "default");
    let without_default = SyncBarkClient::new("https://api.day.app");
    let expected = with_default.request(&without_own).unwrap().payload;
    assert!(!expected.contains_key("device_key"));
    assert_eq!(with_default.request(&with_own).unwrap().payload, expected);
    assert_eq!(without_default.request(&with_own).unwrap().payload, expected);
    assert_eq!(without_default.request(&without_own).unwrap().payload, expected);
}

#[test]
fn empty_list_of_device_keys_still_routes_to_the_batch_path() {
    let client = SyncBarkClient::new("https://api.day.app");
    let message = BarkMessage::builder().body("b").device_keys(Vec::new()).build();
    let payload = client.request(&message).unwrap().payload;
    assert_eq!(payload.get("device_keys"), Some(&Value::Array(Vec::new())));
    assert!(!payload.contains_key("device_key"));
}

#[test]
fn one_message_serves_two_clients() {
    let message = BarkMessage::builder().body("shared").title("t").build();
    let first = SyncBarkClient::with_device_key("https://one.example/", "k1");
    let second = SyncBarkClient::with_device_key("https://two.example", "k2");
    let a = first.request(&message).unwrap();
    let b = second.request(&message).unwrap();
    assert_eq!(a.url, "https://one.example/push");
    assert_eq!(b.url, "https://two.example/push");
    assert_eq!(a.payload.get("device_key"), Some(&text("k1")));
    assert_eq!(b.payload.get("device_key"), Some(&text("k2")));
    assert_eq!(a.payload.get("body"), Some(&text("shared")));
    assert_eq!(b.payload.get("body"), Some(&text("shared")));
    assert_eq!(message.body, "shared");
    assert_eq!(message.title, Some("t".to_string()));
    assert_eq!(message.device_key, None);
    let again = first.request(&message).unwrap();
    assert_eq!(again.payload, a.payload);
}

#[test]
fn client_builder_assembles_what_the_plain_builder_does() {
    let client = SyncBarkClient::with_device_key("https://api.day.app", "k");
    let message = client
        .message()
        .body("test body")
        .title("test title")
        .subtitle("test subtitle")
        .device_key("own")
        .device_keys(vec!["a".to_string()])
        .level(Level::Critical)
        .volume(8)
        .badge(5)
        .call(true)
        .auto_copy(false)
        .copy("copy text")
        .sound("alarm")
        .icon("icon")
        .group("group")
        .ciphertext("cipher")
        .is_archive(true)
        .url("url")
        .action("none")
        .id("id")
        .delete(false)
        .build();
    assert_eq!(message.body, "test body");
    assert_eq!(message.title, Some("test title".to_string()));
    assert_eq!(message.subtitle, Some("test subtitle".to_string()));
    assert_eq!(message.device_key, Some("own".to_string()));
    assert_eq!(message.device_keys, Some(vec!["a".to_string()]));
    assert_eq!(message.level, Some(Level::Critical));
    assert_eq!(message.volume, Some(8));
    assert_eq!(message.badge, Some(5));
    assert_eq!(message.call, Some(true));
    assert_eq!(message.auto_copy, Some(false));
    assert_eq!(message.copy, Some("copy text".to_string()));
    assert_eq!(message.sound, Some("alarm".to_string()));
    assert_eq!(message.icon, Some("icon".to_string()));
    assert_eq!(message.group, Some("group".to_string()));
    assert_eq!(message.ciphertext, Some("cipher".to_string()));
    assert_eq!(message.is_archive, Some(true));
    assert_eq!(message.url, Some("url".to_string()));
    assert_eq!(message.action, Some("none".to_string()));
    assert_eq!(message.id, Some("id".to_string()));
    assert_eq!(message.delete, Some(false));
}

#[test]
fn client_builder_passes_a_volume_above_ten_over() {
    let client = SyncBarkClient::new("https://api.day.app");
    assert_eq!(client.message().volume(15).build().volume, None);
    assert_eq!(client.message().volume(10).build().volume, Some(10));
}

#[test]
fn client_builder_requests_for_its_client() {
    let client = SyncBarkClient::with_device_key("https://api.day.app/", "k");
    let request = client.message().body("b").sound("bell").request().unwrap();
    let mut expected = serde_json::Map::new();
    expected.insert("body".to_string(), text("b"));
    expected.insert("sound".to_string(), text("bell"));
    expected.insert("device_key".to_string(), text("k"));
    assert_eq!(request.url, "https://api.day.app/push");
    assert_eq!(request.payload, expected);
}

#[test]
fn text_reaches_the_payload_unchanged() {
    let client = SyncBarkClient::with_device_key("https://api.day.app", "k");
    let message = BarkMessage::builder().body("推送 \"quoted\"\n").build();
    let payload = client.request(&message).unwrap().payload;
    assert_eq!(payload.get("body"), Some(&text("推送 \"quoted\"\n")));
}

#[test]
fn client_answers_to_its_shorter_name() {
    let client = BarkClient::with_device_key("https://api.day.app/", "k");
    assert_eq!(client.base_url(), "https://api.day.app");
    assert_eq!(client.default_device_key(), Some("k"));
}
