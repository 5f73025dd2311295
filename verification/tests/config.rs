use insh::config::{
    check_escape_timeout, default_escape_timeout, Config, EscapeTimeoutError, InputConfig,
    RenderEngineConfig,
};
use std::time::Duration;

#[test]
fn test_the_escape_timeout_can_be_set() {
    let input = InputConfig { escape_timeout: check_escape_timeout(250).unwrap() };
    assert_eq!(input.escape_timeout(), Duration::from_millis(250));
}

#[test]
fn test_an_escape_timeout_of_zero_is_refused() {
    let error = check_escape_timeout(0).expect_err("An escape timeout of zero should not be allowed.");
    assert_eq!(error, EscapeTimeoutError::Zero);
    assert!(error.message().contains("cannot be zero"), "unhelpful error: {}", error.message());
}

#[test]
fn test_the_escape_timeout_has_a_default() {
    assert_eq!(Config::default().input().escape_timeout(), Duration::from_millis(50));
    assert_eq!(InputConfig::default().escape_timeout(), Duration::from_millis(50));
    assert_eq!(default_escape_timeout(), 50);
}

#[test]
fn the_defaults_ring_the_bell_and_draw_only_what_changed() {
    let config = Config::default();
    assert!(config.general().bell());
    assert_eq!(config.general().tab_width(), 4);
    assert_eq!(config.render().engine(), RenderEngineConfig::Incr);
    assert!(config.browser().sort().is_some());
}
