//! Control core of a headless status monitor for a single-board computer.
//!
//! The library holds the stateful decision logic: two-threshold hysteresis
//! control of a cooling fan, the display power state machine (timeout dim,
//! periodic anti-burn-in power cycling, pixel shifting), sensor value
//! formatting, and the per-tick orchestration. Hardware access, sensor
//! sampling and configuration file handling live outside the library and
//! exchange plain values with it.

pub mod config;
pub mod control;
pub mod display;
pub mod display_state;
pub mod fan_controller;
pub mod stats;
