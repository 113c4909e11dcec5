//! Process-lifetime configuration.
//!
//! The configuration file itself is read, defaulted and written by an outside
//! collaborator; the library only holds the resulting plain values. Durations
//! are seconds (or milliseconds where the field name says so) and fan
//! thresholds are millidegrees Celsius.

use vstd::prelude::*;

use crate::fan_controller::valid_thresholds;

verus! {

/// Display-related settings.
#[derive(Clone, Copy, Debug, PartialEq, Eq, Structural)]
pub struct DisplayConfig {
    /// Initial brightness step, 0 (dimmest) through 4 (brightest); anything
    /// else falls back to the dimmest step.
    pub brightness: u8,
    /// Seconds after start before the one-shot auto-dim; 0 disables it.
    pub screen_timeout: u64,
    /// Enables the anti-burn-in full power cycling of the panel.
    pub enable_periodic_off: bool,
    /// Seconds the panel stays on in each power cycle.
    pub periodic_on_duration: u64,
    /// Seconds the panel stays off in each power cycle.
    pub periodic_off_duration: u64,
    /// Tick period of the control loop, milliseconds.
    pub refresh_interval_ms: u64,
}

/// Fan hysteresis thresholds, millidegrees Celsius.
#[derive(Clone, Copy, Debug, PartialEq, Eq, Structural)]
pub struct FanConfig {
    /// Engage threshold.
    pub temp_on: i32,
    /// Disengage threshold.
    pub temp_off: i32,
}

/// The whole configuration, immutable for the process lifetime.
#[derive(Clone, Copy, Debug, PartialEq, Eq, Structural)]
pub struct Config {
    pub display: DisplayConfig,
    pub fan: FanConfig,
}

/// Default initial brightness step.
pub fn default_brightness() -> (r: u8)
    ensures
        r == 2,
{
    2
}

/// Default auto-dim timeout, seconds.
pub fn default_screen_timeout() -> (r: u64)
    ensures
        r == 300,
{
    300
}

/// Periodic power cycling is off by default.
pub fn default_periodic_off() -> (r: bool)
    ensures
        r == false,
{
    false
}

/// Default on-phase length of the power cycle, seconds.
pub fn default_periodic_on_duration_seconds() -> (r: u64)
    ensures
        r == 10,
{
    10
}

/// Default off-phase length of the power cycle, seconds.
pub fn default_periodic_off_duration_seconds() -> (r: u64)
    ensures
        r == 20,
{
    20
}

/// Default tick period, milliseconds.
pub fn default_refresh_interval_ms() -> (r: u64)
    ensures
        r == 1000,
{
    1000
}

/// The configuration a fresh installation runs with.
pub open spec fn spec_default_config() -> Config {
    Config {
        display: DisplayConfig {
            brightness: 2,
            screen_timeout: 300,
            enable_periodic_off: false,
            periodic_on_duration: 10,
            periodic_off_duration: 20,
            refresh_interval_ms: 1000,
        },
        fan: FanConfig { temp_on: 60000, temp_off: 50000 },
    }
}

impl DisplayConfig {
    /// Well-formedness: the tick period is positive, both phases of the
    /// power cycle are positive when the cycle is enabled, and the
    /// second-valued durations are small enough to be converted to
    /// milliseconds.
    pub open spec fn wf(&self) -> bool {
        &&& self.refresh_interval_ms > 0
        &&& self.screen_timeout <= u64::MAX as int / 1000
        &&& self.periodic_on_duration <= u64::MAX as int / 1000
        &&& self.periodic_off_duration <= u64::MAX as int / 1000
        &&& (self.enable_periodic_off ==> self.periodic_on_duration > 0
            && self.periodic_off_duration > 0)
    }
}

impl Config {
    /// Well-formedness of the whole configuration.
    pub open spec fn wf(&self) -> bool {
        self.display.wf() && valid_thresholds(self.fan.temp_on as int, self.fan.temp_off as int)
    }

    /// The auto-dim timeout, milliseconds.
    pub fn display_timeout(&self) -> (r: u64)
        requires
            self.display.screen_timeout <= u64::MAX as int / 1000,
        ensures
            r == self.display.screen_timeout * 1000,
    {
        self.display.screen_timeout * 1000
    }

    /// The on-phase length of the power cycle, milliseconds.
    pub fn periodic_on_duration(&self) -> (r: u64)
        requires
            self.display.periodic_on_duration <= u64::MAX as int / 1000,
        ensures
            r == self.display.periodic_on_duration * 1000,
    {
        self.display.periodic_on_duration * 1000
    }

    /// The off-phase length of the power cycle, milliseconds.
    pub fn periodic_off_duration(&self) -> (r: u64)
        requires
            self.display.periodic_off_duration <= u64::MAX as int / 1000,
        ensures
            r == self.display.periodic_off_duration * 1000,
    {
        self.display.periodic_off_duration * 1000
    }

    /// The tick period, milliseconds.
    pub fn refresh_interval(&self) -> (r: u64)
        ensures
            r == self.display.refresh_interval_ms,
    {
        self.display.refresh_interval_ms
    }
}

impl Default for Config {
    /// The documented defaults: 2 (normal) brightness, 300 s auto-dim,
    /// power cycling off with 10 s on / 20 s off phases, 1 s ticks, fan
    /// engaging at 60 C and disengaging at 50 C.
    fn default() -> (r: Config)
        ensures
            r == spec_default_config(),
            r.wf(),
    {
        Config {
            display: DisplayConfig {
                brightness: default_brightness(),
                screen_timeout: default_screen_timeout(),
                enable_periodic_off: default_periodic_off(),
                periodic_on_duration: default_periodic_on_duration_seconds(),
                periodic_off_duration: default_periodic_off_duration_seconds(),
                refresh_interval_ms: default_refresh_interval_ms(),
            },
            fan: FanConfig { temp_on: 60000, temp_off: 50000 },
        }
    }
}

} // verus!
