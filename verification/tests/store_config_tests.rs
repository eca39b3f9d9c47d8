use opsbot::config::{resolve_config, BroadcastConfig, ConfigError, DEFAULT_INTERVAL_SECS};
use opsbot::decimal::{parse_u64, u64_dec};
use opsbot::store::{message_id_text, parse_message_id};

#[test]
fn decimal_rendering() {
    assert_eq!(u64_dec(0), "0");
    assert_eq!(u64_dec(7), "7");
    assert_eq!(u64_dec(12345), "12345");
    assert_eq!(u64_dec(u64::MAX), "18446744073709551615");
}

#[test]
fn decimal_parsing() {
    assert_eq!(parse_u64("0"), Some(0));
    assert_eq!(parse_u64("12345"), Some(12345));
    assert_eq!(parse_u64("18446744073709551615"), Some(u64::MAX));
    assert_eq!(parse_u64("18446744073709551616"), None);
    assert_eq!(parse_u64(""), None);
    assert_eq!(parse_u64("12a"), None);
    assert_eq!(parse_u64("-3"), None);
}

#[test]
fn record_parses_with_surrounding_whitespace() {
    assert_eq!(parse_message_id("42\n"), Some(42));
    assert_eq!(parse_message_id("  123  "), Some(123));
    assert_eq!(parse_message_id("\t7\r\n"), Some(7));
}

#[test]
fn unreadable_record_means_no_record() {
    assert_eq!(parse_message_id(""), None);
    assert_eq!(parse_message_id("   "), None);
    assert_eq!(parse_message_id("not a number"), None);
    assert_eq!(parse_message_id("12 34"), None);
    assert_eq!(parse_message_id("18446744073709551616"), None);
}

#[test]
fn record_round_trips() {
    for id in [0u64, 1, 42, 600, u64::MAX] {
        assert_eq!(parse_message_id(&message_id_text(id)), Some(id));
    }
}

#[test]
fn missing_channel_is_fatal() {
    assert_eq!(resolve_config(None, Some("5")), Err(ConfigError::MissingChannel));
}

#[test]
fn unparsable_channel_is_fatal() {
    assert_eq!(resolve_config(Some("abc"), None), Err(ConfigError::InvalidChannel));
    assert_eq!(resolve_config(Some(""), None), Err(ConfigError::InvalidChannel));
}

#[test]
fn interval_falls_back_to_default() {
    assert_eq!(
        resolve_config(Some("123"), None),
        Ok(BroadcastConfig { channel_id: 123, interval_secs: DEFAULT_INTERVAL_SECS })
    );
    assert_eq!(
        resolve_config(Some("123"), Some("abc")),
        Ok(BroadcastConfig { channel_id: 123, interval_secs: 600 })
    );
    assert_eq!(
        resolve_config(Some("123"), Some("0")),
        Ok(BroadcastConfig { channel_id: 123, interval_secs: 600 })
    );
}

#[test]
fn explicit_interval_is_kept() {
    assert_eq!(
        resolve_config(Some("9"), Some("5")),
        Ok(BroadcastConfig { channel_id: 9, interval_secs: 5 })
    );
}
