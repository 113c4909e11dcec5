use rustberry_poe_monitor::fan_controller::{
    handle_fan_control, ConfigError, FanCommand, FanController,
};

#[test]
fn new_rejects_non_positive_temp_on() {
    assert_eq!(
        FanController::new(0, -5),
        Err(ConfigError::NonPositiveThreshold)
    );
    assert_eq!(
        FanController::new(-1, 50000),
        Err(ConfigError::NonPositiveThreshold)
    );
}

#[test]
fn new_rejects_non_positive_temp_off() {
    assert_eq!(
        FanController::new(60000, 0),
        Err(ConfigError::NonPositiveThreshold)
    );
    assert_eq!(
        FanController::new(60000, -2),
        Err(ConfigError::NonPositiveThreshold)
    );
}

#[test]
fn new_rejects_inverted_thresholds() {
    assert_eq!(
        FanController::new(50000, 60000),
        Err(ConfigError::InvertedThresholds)
    );
    assert_eq!(
        FanController::new(50000, 50000),
        Err(ConfigError::InvertedThresholds)
    );
}

#[test]
fn new_accepts_valid_thresholds() {
    let fan = FanController::new(60000, 50000).unwrap();
    assert!(!fan.is_running);
    assert_eq!(fan.temp_on, 60000);
    assert_eq!(fan.temp_off, 50000);
}

#[test]
fn error_messages() {
    assert_eq!(
        ConfigError::NonPositiveThreshold.message(),
        "Temperatures must be greater than 0"
    );
    assert_eq!(
        ConfigError::InvertedThresholds.message(),
        "temp_on must be greater than temp_off"
    );
}

#[test]
fn fan_on_and_off_set_state() {
    let mut fan = FanController::new(60000, 50000).unwrap();
    fan.fan_on();
    assert!(fan.is_running);
    fan.fan_off();
    assert!(!fan.is_running);
}

#[test]
fn engages_at_temp_on() {
    let mut fan = FanController::new(60000, 50000).unwrap();
    assert_eq!(handle_fan_control(&mut fan, 60000), FanCommand::TurnOn);
    assert!(fan.is_running);
}

#[test]
fn disengages_at_temp_off() {
    let mut fan = FanController::new(60000, 50000).unwrap();
    fan.fan_on();
    assert_eq!(handle_fan_control(&mut fan, 50000), FanCommand::TurnOff);
    assert!(!fan.is_running);
}

#[test]
fn no_chatter_between_thresholds() {
    // Temperatures held strictly between the thresholds never change the
    // fan state, whichever state it starts in.
    let between = [50001, 55000, 59999, 51000, 58000, 55500];
    let mut fan = FanController::new(60000, 50000).unwrap();
    for &t in between.iter() {
        assert_eq!(handle_fan_control(&mut fan, t), FanCommand::NoChange);
        assert!(!fan.is_running);
    }
    fan.fan_on();
    for &t in between.iter() {
        assert_eq!(handle_fan_control(&mut fan, t), FanCommand::NoChange);
        assert!(fan.is_running);
    }
}

#[test]
fn temperature_scenario_drives_fan() {
    // 55 C, 61 C, 58 C, 49 C, 52 C -> off, on, on, off, off.
    let mut fan = FanController::new(60000, 50000).unwrap();
    let temps = [55000, 61000, 58000, 49000, 52000];
    let expected = [false, true, true, false, false];
    for (t, want) in temps.iter().zip(expected.iter()) {
        handle_fan_control(&mut fan, *t);
        assert_eq!(fan.is_running, *want);
    }
}
