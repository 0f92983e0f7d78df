use std::sync::Arc;

use racetime::builder::DEFAULT_USER_AGENT;
use racetime::text::{decimal_string, str_eq};
use racetime::{BotBuilder, HostInfo, RACETIME_HOST, UDuration, authorize_form, http_uri, uri};

#[test]
fn decimal_strings() {
    assert_eq!(decimal_string(0), "0");
    assert_eq!(decimal_string(7), "7");
    assert_eq!(decimal_string(10), "10");
    assert_eq!(decimal_string(255), "255");
    assert_eq!(decimal_string(u64::MAX), u64::MAX.to_string());
}

#[test]
fn string_equality() {
    assert!(str_eq("", ""));
    assert!(str_eq("abc", "abc"));
    assert!(!str_eq("abc", "abd"));
    assert!(!str_eq("abc", "ab"));
    assert!(str_eq("ü", "ü"));
}

#[test]
fn durations() {
    let d = UDuration::from_millis(1500);
    assert_eq!((d.as_secs(), d.subsec_nanos()), (1, 500_000_000));
    let d = UDuration::from_micros(2_000_001);
    assert_eq!((d.as_secs(), d.subsec_nanos()), (2, 1_000));
    assert_eq!(UDuration::from_mins(5).as_secs(), 300);
    assert_eq!(UDuration::from_hours(24).as_secs(), 86400);
    let max = UDuration::new(u64::MAX, 999_999_999);
    assert!(max.checked_add(&UDuration::new(0, 1)).is_none());
    let sum = UDuration::new(1, 600_000_000).checked_add(&UDuration::new(2, 700_000_000)).unwrap();
    assert_eq!((sum.as_secs(), sum.subsec_nanos()), (4, 300_000_000));
    assert_eq!(max.saturating_double().as_secs(), u64::MAX);
    assert_eq!(UDuration::from_secs(3).saturating_double().as_secs(), 6);
    assert!(UDuration::from_secs(1).lt(&UDuration::from_secs(2)));
    assert!(UDuration::from_secs(2).ge(&UDuration::from_secs(2)));
    assert!(UDuration::from_secs(2).eq(&UDuration::from_millis(2000)));
    assert_eq!(UDuration::from_secs(9).min(UDuration::from_secs(4)).as_secs(), 4);
}

#[test]
fn host_info_uris() {
    let host = HostInfo::default();
    assert_eq!(host.hostname, RACETIME_HOST);
    assert_eq!(host.authority(), "racetime.gg:443");
    assert_eq!(host.http_uri("/o/token").unwrap().url().as_str(), "https://racetime.gg/o/token");
    assert_eq!(host.websocket_uri("/ws/o/bot/abc").unwrap().url().as_str(), "wss://racetime.gg/ws/o/bot/abc");
    let local = HostInfo::new("127.0.0.1".to_string(), 8000, false);
    assert_eq!(local.http_uri("/ootr/data").unwrap().url().as_str(), "http://127.0.0.1:8000/ootr/data");
    assert_eq!(local.websocket_uri("/ws").unwrap().url().as_str(), "ws://127.0.0.1:8000/ws");
    assert!(HostInfo::new("bad host".to_string(), 80, true).http_uri("/").is_err());
}

#[test]
fn plain_uris() {
    assert_eq!(http_uri("racetime.gg", "/o/token").unwrap().url().as_str(), "https://racetime.gg/o/token");
    assert_eq!(uri("ws", "example.com", "/x").unwrap().url().as_str(), "ws://example.com/x");
}

#[test]
fn authorization_form() {
    let form = authorize_form("id", "secret");
    let fields: Vec<(&str, &str)> = form.iter().map(|(k, v)| (k.as_str(), v.as_str())).collect();
    assert_eq!(fields, vec![("client_id", "id"), ("client_secret", "secret"), ("grant_type", "client_credentials")]);
}

#[test]
fn bot_builder_defaults_and_settings() {
    let builder = BotBuilder::new("ootr", "id", "secret");
    assert_eq!(builder.category_slug, "ootr");
    assert_eq!(builder.client_id, "id");
    assert_eq!(builder.client_secret, "secret");
    assert_eq!(builder.host_info.hostname, "racetime.gg");
    assert_eq!(builder.user_agent, DEFAULT_USER_AGENT);
    assert_eq!(builder.scan_races_every.as_secs(), 30);
    assert_eq!(builder.network_timeout.map(|t| t.as_secs()), Some(3600));
    let builder = builder
        .state(Arc::new(5u32))
        .host(HostInfo::new("localhost".to_string(), 8000, false))
        .user_agent("test-bot")
        .scan_races_every(UDuration::from_secs(5))
        .network_timeout(None);
    assert_eq!(*builder.state, 5);
    assert_eq!(builder.host_info.port, 8000);
    assert!(!builder.host_info.secure);
    assert_eq!(builder.user_agent, "test-bot");
    assert_eq!(builder.scan_races_every.as_secs(), 5);
    assert!(builder.network_timeout.is_none());
    assert_eq!(builder.category_slug, "ootr");
}

#[test]
fn durations_carry_extra_nanoseconds() {
    let d = UDuration::new(1, 2_500_000_000);
    assert_eq!(d.as_secs(), 3);
    assert_eq!(d.subsec_nanos(), 500_000_000);
}
