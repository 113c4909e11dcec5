use rustberry_poe_monitor::config::{
    default_brightness, default_periodic_off, default_periodic_off_duration_seconds,
    default_periodic_on_duration_seconds, default_refresh_interval_ms, default_screen_timeout,
    Config,
};

#[test]
fn documented_defaults() {
    assert_eq!(default_brightness(), 2);
    assert_eq!(default_screen_timeout(), 300);
    assert!(!default_periodic_off());
    assert_eq!(default_periodic_on_duration_seconds(), 10);
    assert_eq!(default_periodic_off_duration_seconds(), 20);
    assert_eq!(default_refresh_interval_ms(), 1000);
}

#[test]
fn default_config_uses_documented_defaults() {
    let config = Config::default();
    assert_eq!(config.display.brightness, 2);
    assert_eq!(config.display.screen_timeout, 300);
    assert!(!config.display.enable_periodic_off);
    assert_eq!(config.display.periodic_on_duration, 10);
    assert_eq!(config.display.periodic_off_duration, 20);
    assert_eq!(config.display.refresh_interval_ms, 1000);
    // Fan thresholds 60 C on, 50 C off, millidegrees.
    assert_eq!(config.fan.temp_on, 60000);
    assert_eq!(config.fan.temp_off, 50000);
}

#[test]
fn duration_getters_convert_to_milliseconds() {
    let config = Config::default();
    assert_eq!(config.display_timeout(), 300_000);
    assert_eq!(config.periodic_on_duration(), 10_000);
    assert_eq!(config.periodic_off_duration(), 20_000);
    assert_eq!(config.refresh_interval(), 1000);
}
