use rustberry_poe_monitor::config::{Config, DisplayConfig, FanConfig};
use rustberry_poe_monitor::display::Point;
use rustberry_poe_monitor::display_state::{update_display_state, update_pixel_shift, AppState};

fn test_config(enable_periodic_off: bool) -> Config {
    Config {
        display: DisplayConfig {
            brightness: 2,
            screen_timeout: 300,
            enable_periodic_off,
            periodic_on_duration: 10,
            periodic_off_duration: 20,
            refresh_interval_ms: 1000,
        },
        fan: FanConfig {
            temp_on: 60000,
            temp_off: 50000,
        },
    }
}

fn initial_state() -> AppState {
    AppState {
        last_shift_time: 0,
        shift_index: 0,
        shift_offset: Point::new(0, 0),
        last_periodic_toggle_time: 0,
        is_display_periodically_on: true,
        screen_dimmed: false,
    }
}

#[test]
fn dim_fires_once_at_timeout() {
    let config = test_config(false);
    let mut state = initial_state();
    // 300 s timeout: nothing at 299 s, dim at 300 s, never again.
    let a = update_display_state(&config, 0, 299_000, 300_000, 10_000, 20_000, &mut state);
    assert!(!a.dim_display);
    assert!(!state.screen_dimmed);
    let a = update_display_state(&config, 0, 300_000, 300_000, 10_000, 20_000, &mut state);
    assert!(a.dim_display);
    assert!(state.screen_dimmed);
    let a = update_display_state(&config, 0, 400_000, 300_000, 10_000, 20_000, &mut state);
    assert!(!a.dim_display);
    assert!(state.screen_dimmed);
}

#[test]
fn zero_timeout_never_dims() {
    let config = test_config(false);
    let mut state = initial_state();
    for k in 0..1000u64 {
        let a = update_display_state(&config, 0, k * 1000, 0, 10_000, 20_000, &mut state);
        assert!(!a.dim_display);
        assert!(!state.screen_dimmed);
    }
}

#[test]
fn screen_dim_is_monotone() {
    // Once dimmed, no sequence of further ticks undoes it.
    let config = test_config(true);
    let mut state = initial_state();
    update_display_state(&config, 0, 300_000, 300_000, 10_000, 20_000, &mut state);
    assert!(state.screen_dimmed);
    for k in 300..500u64 {
        update_display_state(&config, 0, k * 1000, 300_000, 10_000, 20_000, &mut state);
        assert!(state.screen_dimmed);
    }
}

#[test]
fn periodic_cycle_alternates_10_on_20_off() {
    // 10 s on / 20 s off, 1 s ticks: off begins at tick 10, on returns at
    // tick 30, repeating with period 30.
    let config = test_config(true);
    let mut state = initial_state();
    for k in 0..120u64 {
        let a = update_display_state(&config, 0, k * 1000, 0, 10_000, 20_000, &mut state);
        let expect_on = k % 30 < 10;
        assert_eq!(state.is_display_periodically_on, expect_on, "tick {}", k);
        assert_eq!(a.turn_display_off, k % 30 == 10, "tick {}", k);
        assert_eq!(a.turn_display_on, k > 0 && k % 30 == 0, "tick {}", k);
    }
}

#[test]
fn periodic_cycle_inert_when_disabled() {
    let config = test_config(false);
    let mut state = initial_state();
    for k in 0..100u64 {
        let a = update_display_state(&config, 0, k * 1000, 0, 10_000, 20_000, &mut state);
        assert!(state.is_display_periodically_on);
        assert!(!a.turn_display_off);
        assert!(!a.turn_display_on);
    }
}

#[test]
fn pixel_shift_advances_and_wraps() {
    let pattern = vec![
        Point::new(0, 0),
        Point::new(1, 0),
        Point::new(1, 1),
        Point::new(0, 1),
    ];
    let mut state = initial_state();
    // Nothing before the interval has elapsed.
    assert!(!update_pixel_shift(59_999, 60_000, &pattern, &mut state));
    assert_eq!(state.shift_index, 0);
    assert_eq!(state.shift_offset, Point::new(0, 0));
    // One shift per full interval, wrapping after the fourth.
    for (k, want) in [(1usize, 1usize), (2, 2), (3, 3), (4, 0), (5, 1)] {
        assert!(update_pixel_shift(k as u64 * 60_000, 60_000, &pattern, &mut state));
        assert_eq!(state.shift_index, want);
        assert_eq!(state.shift_offset, pattern[want]);
    }
}

#[test]
fn shift_offset_follows_pattern_by_minute() {
    // With a 4-element pattern and a 60 s interval, the offset at tick
    // 60 k + r equals pattern[k mod 4].
    let pattern = vec![
        Point::new(0, 0),
        Point::new(1, 0),
        Point::new(1, 1),
        Point::new(0, 1),
    ];
    let mut state = initial_state();
    for t in 0..600u64 {
        update_pixel_shift(t * 1000, 60_000, &pattern, &mut state);
        let k = (t / 60) as usize;
        assert_eq!(state.shift_offset, pattern[k % 4], "tick {}", t);
    }
}
