use foxtrail_bridge::bridge::ListenerState;
use foxtrail_bridge::bridge::PlatformListener;
use foxtrail_bridge::bridge::process_batch;
use foxtrail_bridge::bridge::process_payload;
use foxtrail_bridge::commands::greet;
use foxtrail_bridge::event::Platform;
use foxtrail_bridge::event::inbound_event_name;
use foxtrail_bridge::event::outbound_event_name;
use foxtrail_bridge::scheme::ValidatedDeepLink;
use foxtrail_bridge::scheme::accepts_scheme;
use foxtrail_bridge::scheme::scheme_prefix_str;
use foxtrail_bridge::scheme::str_starts_with;

const SCHEME: &str = "com.fox5352.foxtrail_frontend://";

#[test]
fn reset_password_link_is_emitted_once() {
    let payload = "{\"url\":\"com.fox5352.foxtrail_frontend://reset-password?token=abc\"}";
    let events = process_payload(payload);
    assert_eq!(events.len(), 1);
    assert_eq!(events[0].name, "deep-link");
    assert_eq!(events[0].url, "com.fox5352.foxtrail_frontend://reset-password?token=abc");
}

#[test]
fn foreign_url_is_dropped() {
    let events = process_payload("{\"url\":\"https://example.com\"}");
    assert_eq!(events.len(), 0);
}

#[test]
fn missing_url_key_is_a_silent_no_op() {
    let events = process_payload("{}");
    assert_eq!(events.len(), 0);
    let nested = "{\"data\":{\"url\":\"com.fox5352.foxtrail_frontend://a\"}}";
    assert_eq!(process_payload(nested).len(), 0);
}

#[test]
fn non_json_payload_is_a_silent_no_op() {
    let events = process_payload("raw non-JSON text");
    assert_eq!(events.len(), 0);
    assert_eq!(process_payload("[1,2,3]").len(), 0);
    assert_eq!(process_payload("\"com.fox5352.foxtrail_frontend://a\"").len(), 0);
}

#[test]
fn scheme_only_link_is_emitted_verbatim() {
    let events = process_payload("{\"url\":\"com.fox5352.foxtrail_frontend://\"}");
    assert_eq!(events.len(), 1);
    assert_eq!(events[0].name, "deep-link");
    assert_eq!(events[0].url, "com.fox5352.foxtrail_frontend://");
}

#[test]
fn non_string_url_value_is_a_silent_no_op() {
    assert_eq!(process_payload("{\"url\":42}").len(), 0);
    assert_eq!(process_payload("{\"url\":null}").len(), 0);
    assert_eq!(process_payload("{\"url\":[\"com.fox5352.foxtrail_frontend://\"]}").len(), 0);
}

#[test]
fn empty_payload_is_a_silent_no_op() {
    assert_eq!(process_payload("").len(), 0);
}

#[test]
fn replay_of_one_payload_emits_one_event_per_copy() {
    let payload = "{\"url\":\"com.fox5352.foxtrail_frontend://home\"}".to_string();
    let payloads = vec![payload.clone(), payload.clone(), payload];
    let events = process_batch(&payloads);
    assert_eq!(events.len(), 3);
    for event in &events {
        assert_eq!(event.name, "deep-link");
        assert_eq!(event.url, "com.fox5352.foxtrail_frontend://home");
    }
}

#[test]
fn batch_keeps_order_of_arrival_and_drops_the_rest() {
    let payloads = vec![
        "{\"url\":\"com.fox5352.foxtrail_frontend://a\"}".to_string(),
        "{\"url\":\"https://example.com\"}".to_string(),
        "not structured".to_string(),
        "{\"url\":\"com.fox5352.foxtrail_frontend://b\"}".to_string(),
        "{}".to_string(),
    ];
    let events = process_batch(&payloads);
    assert_eq!(events.len(), 2);
    assert_eq!(events[0].url, "com.fox5352.foxtrail_frontend://a");
    assert_eq!(events[1].url, "com.fox5352.foxtrail_frontend://b");
}

#[test]
fn validator_wants_the_exact_prefix() {
    assert!(accepts_scheme("com.fox5352.foxtrail_frontend://reset-password?token=abc"));
    assert!(accepts_scheme("com.fox5352.foxtrail_frontend://"));
    assert!(!accepts_scheme(""));
    assert!(!accepts_scheme("com.fox5352.foxtrail_frontend:/"));
    assert!(!accepts_scheme("COM.FOX5352.FOXTRAIL_FRONTEND://x"));
    assert!(!accepts_scheme("https://example.com"));
    assert!(!accepts_scheme("xcom.fox5352.foxtrail_frontend://"));
}

#[test]
fn prefix_match_edges() {
    assert!(str_starts_with("anything", ""));
    assert!(str_starts_with("abc", "abc"));
    assert!(!str_starts_with("ab", "abc"));
    assert!(str_starts_with("abcd", "abc"));
    assert!(!str_starts_with("abd", "abc"));
}

#[test]
fn validated_deep_link_carries_the_url_verbatim() {
    let url = format!("{}profile?id=7", SCHEME);
    let link = ValidatedDeepLink::new(url.clone()).expect("a deep link of the registered scheme");
    assert_eq!(link.url_str(), url);
    assert_eq!(link.into_url(), url);
    assert!(ValidatedDeepLink::new("https://example.com".to_string()).is_none());
}

#[test]
fn event_channel_names() {
    assert_eq!(scheme_prefix_str(), SCHEME);
    assert_eq!(outbound_event_name(), "deep-link");
    assert_eq!(inbound_event_name(Platform::Android), "android-intent");
    assert_eq!(inbound_event_name(Platform::Ios), "ios-url");
}

#[test]
fn listener_registers_once_and_triggers_repeatedly() {
    let mut listener = PlatformListener::new(Platform::Android);
    assert_eq!(listener.state, ListenerState::Unregistered);
    listener.register();
    listener.register();
    assert_eq!(listener.state, ListenerState::Registered);
    assert_eq!(listener.platform, Platform::Android);
    let first = listener.on_trigger("{\"url\":\"com.fox5352.foxtrail_frontend://a\"}");
    let second = listener.on_trigger("{\"url\":\"com.fox5352.foxtrail_frontend://a\"}");
    assert_eq!(first.len(), 1);
    assert_eq!(second.len(), 1);
    assert_eq!(first[0].url, second[0].url);
    assert_eq!(listener.on_trigger("unrelated").len(), 0);
}

#[test]
fn greet_names_the_caller() {
    assert_eq!(greet("World"), "Hello, World! You've been greeted from Rust!");
}
