use rustberry_poe_monitor::config::{Config, DisplayConfig, FanConfig};
use rustberry_poe_monitor::control::{ControlLoop, DiskSpace, SensorSample};
use rustberry_poe_monitor::display::Point;
use rustberry_poe_monitor::fan_controller::FanController;

fn config(enable_periodic_off: bool, screen_timeout: u64) -> Config {
    Config {
        display: DisplayConfig {
            brightness: 2,
            screen_timeout,
            enable_periodic_off,
            periodic_on_duration: 10,
            periodic_off_duration: 20,
            refresh_interval_ms: 1000,
        },
        fan: FanConfig {
            temp_on: 60000,
            temp_off: 50000,
        },
    }
}

fn make_loop(cfg: Config) -> ControlLoop {
    let fan = FanController::new(cfg.fan.temp_on, cfg.fan.temp_off).unwrap();
    let pattern = vec![Point::new(0, 0), Point::new(1, 0)];
    ControlLoop::new(cfg, fan, pattern, 60_000, 0)
}

fn sample(temp_millidegrees: i32, disk: Option<DiskSpace>) -> SensorSample {
    SensorSample {
        ip_output: Some(b"10.0.0.2 \n".to_vec()),
        temp_contents: Some(format!("{}\n", temp_millidegrees).into_bytes()),
        cpu_usage_tenths: 123,
        total_memory: 8_000_000,
        used_memory: 2_000_000,
        disk_space: disk,
    }
}

#[test]
fn end_to_end_fan_scenario() {
    // temp_on 60 C, temp_off 50 C, no timeout, no periodic cycling;
    // 55, 61, 58, 49, 52 C -> fan off, on, on, off, off.
    let mut cl = make_loop(config(false, 0));
    let temps = [55_000, 61_000, 58_000, 49_000, 52_000];
    let expected = [false, true, true, false, false];
    for (k, (t, want)) in temps.iter().zip(expected.iter()).enumerate() {
        let disk = if cl.disk_refresh_due() {
            Some(DiskSpace {
                total_space: 1000,
                available_space: 250,
            })
        } else {
            None
        };
        let actions = cl.tick(k as u64 * 1000, &sample(*t, disk));
        assert_eq!(cl.fan_controller.is_running, *want, "tick {}", k);
        assert_eq!(actions.stats.cpu_temp, *t);
        // No timeout and no cycling: never dimmed, always rendering.
        assert!(!actions.display.dim_display);
        assert!(!actions.display.turn_display_off);
        assert!(!actions.display.turn_display_on);
        assert!(actions.render.is_some());
    }
}

#[test]
fn disk_sampled_once_per_sixty_ticks() {
    let mut cl = make_loop(config(false, 0));
    let mut samples_asked = 0u32;
    for k in 0..180u64 {
        let due = cl.disk_refresh_due();
        assert_eq!(due, k % 60 == 0, "tick {}", k);
        let disk = if due {
            samples_asked += 1;
            Some(DiskSpace {
                total_space: 1000,
                available_space: 1000 - k as u64,
            })
        } else {
            // Changing counters between refreshes must not show: the
            // collaborator is not even consulted.
            None
        };
        let actions = cl.tick(k * 1000, &sample(40_000, disk));
        // The shown value is the one sampled at the last refresh tick.
        let expect = match k {
            0..=59 => "0.0",     // 1000 available of 1000
            60..=119 => "6.0",   // 940 available of 1000
            _ => "12.0",         // 880 available of 1000
        };
        assert_eq!(actions.stats.disk_usage, expect, "tick {}", k);
    }
    assert_eq!(samples_asked, 3);
}

#[test]
fn periodic_cycle_through_ticks() {
    // Cycling enabled, 10 s on / 20 s off, 1 s ticks: the off phase is
    // observed from tick 10, the on phase returns at tick 30, period 30.
    let mut cl = make_loop(config(true, 0));
    for k in 0..120u64 {
        let actions = cl.tick(k * 1000, &sample(40_000, None));
        let expect_on = k % 30 < 10;
        assert_eq!(
            cl.app_state.is_display_periodically_on, expect_on,
            "tick {}",
            k
        );
        assert_eq!(actions.render.is_some(), expect_on, "tick {}", k);
        assert_eq!(actions.display.turn_display_off, k % 30 == 10, "tick {}", k);
        assert_eq!(
            actions.display.turn_display_on,
            k > 0 && k % 30 == 0,
            "tick {}",
            k
        );
    }
}

#[test]
fn dim_fires_once_through_ticks() {
    // 5 s timeout: dim at tick 5 and never again, and the latch holds.
    let mut cl = make_loop(config(false, 5));
    for k in 0..60u64 {
        let actions = cl.tick(k * 1000, &sample(40_000, None));
        assert_eq!(actions.display.dim_display, k == 5, "tick {}", k);
        assert_eq!(cl.app_state.screen_dimmed, k >= 5, "tick {}", k);
    }
}

#[test]
fn shift_offset_cycles_through_ticks() {
    // 2-element pattern, 60 s interval: the offset alternates each minute.
    let mut cl = make_loop(config(false, 0));
    let pattern = [Point::new(0, 0), Point::new(1, 0)];
    for k in 0..300u64 {
        let actions = cl.tick(k * 1000, &sample(40_000, None));
        let want = pattern[((k / 60) % 2) as usize];
        assert_eq!(cl.app_state.shift_offset, want, "tick {}", k);
        let layout = actions.render.unwrap();
        // "10.0.0.2" is 8 chars: centred at (128 - 64) / 2 = 32.
        assert_eq!(layout.ip_position, Point::new(32 + want.x, 7 + want.y));
    }
}

#[test]
fn initial_state_of_the_loop() {
    let cl = make_loop(config(true, 300));
    assert_eq!(cl.iteration, 0);
    assert_eq!(cl.disk_usage_tenths, 0);
    assert!(cl.app_state.is_display_periodically_on);
    assert!(!cl.app_state.screen_dimmed);
    assert_eq!(cl.app_state.shift_index, 0);
    assert_eq!(cl.app_state.shift_offset, Point::new(0, 0));
    assert!(!cl.fan_controller.is_running);
}

#[test]
fn stats_strings_through_tick() {
    let mut cl = make_loop(config(false, 0));
    let actions = cl.tick(
        0,
        &sample(
            55_432,
            Some(DiskSpace {
                total_space: 1000,
                available_space: 250,
            }),
        ),
    );
    assert_eq!(actions.stats.ip_address, "10.0.0.2");
    assert_eq!(actions.stats.cpu_usage, "12.3");
    assert_eq!(actions.stats.cpu_temp_str, "55.4");
    assert_eq!(actions.stats.ram_usage, "25.0");
    assert_eq!(actions.stats.disk_usage, "75.0");
}
