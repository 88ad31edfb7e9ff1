use betteruptime_heartbeat::config::{spawn_from_env, EnvSource, HeartbeatConfig};
use betteruptime_heartbeat::machine::{
    status_is_success, step, HeartbeatAction, HeartbeatEvent, HeartbeatState,
};
use betteruptime_heartbeat::text::{is_blank, parse_u64};

fn source(url: Option<&str>, interval: Option<&str>, timeout: Option<&str>) -> EnvSource {
    EnvSource {
        url: url.map(String::from),
        interval_secs: interval.map(String::from),
        timeout_secs: timeout.map(String::from),
    }
}

#[test]
fn test_config_from_env_returns_none_when_url_not_set() {
    let config = HeartbeatConfig::resolve(source(None, None, None));
    assert!(config.is_none());
}

#[test]
fn test_config_from_env_returns_none_when_url_is_empty() {
    let config = HeartbeatConfig::resolve(source(Some(""), None, None));
    assert!(config.is_none());
}

#[test]
fn test_config_from_env_returns_none_when_url_is_whitespace() {
    let config = HeartbeatConfig::resolve(source(Some("   "), None, None));
    assert!(config.is_none());
}

#[test]
fn test_config_from_env_uses_defaults() {
    let config = HeartbeatConfig::resolve(source(Some("https://example.com/heartbeat"), None, None))
        .expect("config should be Some");
    assert_eq!(config.url, "https://example.com/heartbeat");
    assert_eq!(config.interval_secs, 60);
    assert_eq!(config.timeout_secs, 10);
}

#[test]
fn test_config_from_env_parses_custom_values() {
    let config = HeartbeatConfig::resolve(source(
        Some("https://example.com/custom"),
        Some("120"),
        Some("30"),
    ))
    .expect("config should be Some");
    assert_eq!(config.url, "https://example.com/custom");
    assert_eq!(config.interval_secs, 120);
    assert_eq!(config.timeout_secs, 30);
}

#[test]
fn test_config_from_env_ignores_invalid_interval() {
    let config = HeartbeatConfig::resolve(source(
        Some("https://example.com/heartbeat"),
        Some("invalid"),
        None,
    ))
    .expect("config should be Some");
    assert_eq!(config.interval_secs, 60);
}

#[test]
fn test_config_from_env_ignores_invalid_timeout() {
    let config = HeartbeatConfig::resolve(source(
        Some("https://example.com/heartbeat"),
        None,
        Some("not-a-number"),
    ))
    .expect("config should be Some");
    assert_eq!(config.timeout_secs, 10);
}

#[test]
fn test_spawn_from_env_returns_false_when_not_configured() {
    let spawned = spawn_from_env(source(None, None, None));
    assert!(spawned.is_none());
}

#[test]
fn test_spawn_from_env_returns_true_when_configured() {
    let spawned = spawn_from_env(source(Some("https://example.com/heartbeat"), None, None));
    assert!(spawned.is_some());
}

#[test]
fn test_resolver_keeps_url_as_given() {
    let config = HeartbeatConfig::resolve(source(Some("  https://example.com/x  "), None, None))
        .expect("config should be Some");
    assert_eq!(config.url, "  https://example.com/x  ");
}

#[test]
fn test_resolver_accepts_zero_values_as_is() {
    let config =
        HeartbeatConfig::resolve(source(Some("https://example.com/x"), Some("0"), Some("0")))
            .expect("config should be Some");
    assert_eq!(config.interval_secs, 0);
    assert_eq!(config.timeout_secs, 0);
}

#[test]
fn test_parse_u64_exact_values() {
    assert_eq!(parse_u64("0"), Some(0));
    assert_eq!(parse_u64("120"), Some(120));
    assert_eq!(parse_u64("+5"), Some(5));
    assert_eq!(parse_u64("007"), Some(7));
    assert_eq!(parse_u64("18446744073709551615"), Some(u64::MAX));
}

#[test]
fn test_parse_u64_rejects_bad_shapes() {
    assert_eq!(parse_u64(""), None);
    assert_eq!(parse_u64("+"), None);
    assert_eq!(parse_u64(" 5"), None);
    assert_eq!(parse_u64("5 "), None);
    assert_eq!(parse_u64("-1"), None);
    assert_eq!(parse_u64("1.5"), None);
    assert_eq!(parse_u64("0x10"), None);
    assert_eq!(parse_u64("++1"), None);
}

#[test]
fn test_parse_u64_rejects_overflow() {
    assert_eq!(parse_u64("18446744073709551616"), None);
    assert_eq!(parse_u64("99999999999999999999999999999999"), None);
}

#[test]
fn test_is_blank_cases() {
    assert!(is_blank(""));
    assert!(is_blank(" \t\r\n"));
    assert!(is_blank("\u{3000}\u{00a0}"));
    assert!(!is_blank(" x "));
}

#[test]
fn test_machine_start_sequence() {
    let (s, a) = step(HeartbeatState::Init, HeartbeatEvent::ClientReady);
    assert_eq!((s, a), (HeartbeatState::Armed, HeartbeatAction::ArmTimer));
    let (s, a) = step(s, HeartbeatEvent::Tick);
    assert_eq!((s, a), (HeartbeatState::Pinging, HeartbeatAction::SendPing));
    let (s, a) = step(s, HeartbeatEvent::PingStatus(200));
    assert_eq!((s, a), (HeartbeatState::Armed, HeartbeatAction::WaitTick));
}

#[test]
fn test_machine_client_failure_terminates() {
    let (s, a) = step(HeartbeatState::Init, HeartbeatEvent::ClientFailed);
    assert_eq!((s, a), (HeartbeatState::Terminated, HeartbeatAction::Stop));
    let (s, a) = step(s, HeartbeatEvent::Tick);
    assert_eq!((s, a), (HeartbeatState::Terminated, HeartbeatAction::Stop));
}

#[test]
fn test_machine_failure_does_not_stop_pings() {
    let (s, _) = step(HeartbeatState::Armed, HeartbeatEvent::Tick);
    let (s, a) = step(s, HeartbeatEvent::PingFailed);
    assert_eq!((s, a), (HeartbeatState::Armed, HeartbeatAction::WaitTick));
    let (s, a) = step(s, HeartbeatEvent::Tick);
    assert_eq!((s, a), (HeartbeatState::Pinging, HeartbeatAction::SendPing));
    let (s, a) = step(s, HeartbeatEvent::PingStatus(500));
    assert_eq!((s, a), (HeartbeatState::Armed, HeartbeatAction::WaitTick));
    let (_, a) = step(s, HeartbeatEvent::Tick);
    assert_eq!(a, HeartbeatAction::SendPing);
}

#[test]
fn test_machine_skips_tick_while_pinging() {
    let (s, a) = step(HeartbeatState::Pinging, HeartbeatEvent::Tick);
    assert_eq!((s, a), (HeartbeatState::Pinging, HeartbeatAction::Skip));
}

#[test]
fn test_status_classification() {
    assert!(status_is_success(200));
    assert!(status_is_success(204));
    assert!(status_is_success(299));
    assert!(!status_is_success(199));
    assert!(!status_is_success(300));
    assert!(!status_is_success(404));
    assert!(!status_is_success(500));
}
