//! Two-threshold hysteresis control of the cooling fan.
//!
//! Temperatures are carried as integer millidegrees Celsius, the unit the
//! kernel's thermal interface reports. The fan engages when the temperature
//! reaches `temp_on` and disengages when it falls to `temp_off`; strictly
//! between the two thresholds the state is held, which is what prevents
//! chatter.

use vstd::prelude::*;

verus! {

/// Why construction of a [`FanController`] was rejected.
#[derive(Clone, Copy, Debug, PartialEq, Eq, Structural)]
pub enum ConfigError {
    /// One of the two thresholds was zero or negative.
    NonPositiveThreshold,
    /// The engage threshold did not lie strictly above the disengage one.
    InvertedThresholds,
}

impl ConfigError {
    /// A human-readable description of the error.
    pub fn message(&self) -> (r: &'static str)
        ensures
            *self is NonPositiveThreshold ==> r@ == "Temperatures must be greater than 0"@,
            *self is InvertedThresholds ==> r@ == "temp_on must be greater than temp_off"@,
    {
        match self {
            ConfigError::NonPositiveThreshold => "Temperatures must be greater than 0",
            ConfigError::InvertedThresholds => "temp_on must be greater than temp_off",
        }
    }
}

/// The command the hardware layer must carry out after a fan decision.
#[derive(Clone, Copy, Debug, PartialEq, Eq, Structural)]
pub enum FanCommand {
    /// Drive the fan line on.
    TurnOn,
    /// Drive the fan line off.
    TurnOff,
    /// Leave the hardware untouched.
    NoChange,
}

/// Owns the commanded fan state and the two hysteresis thresholds.
///
/// Thresholds are millidegrees Celsius and satisfy
/// `temp_on > temp_off > 0` for every controller that `new` hands out.
#[derive(Clone, Copy, Debug, PartialEq, Eq, Structural)]
pub struct FanController {
    /// Currently commanded fan state.
    pub is_running: bool,
    /// Engage threshold, millidegrees Celsius.
    pub temp_on: i32,
    /// Disengage threshold, millidegrees Celsius.
    pub temp_off: i32,
}

/// Thresholds that make hysteresis well-defined: engage strictly above
/// disengage, both strictly positive.
pub open spec fn valid_thresholds(temp_on: int, temp_off: int) -> bool {
    temp_on > temp_off > 0
}

/// The fan state after one decision on temperature `t` (millidegrees),
/// given the current state and the thresholds.
pub open spec fn fan_next(is_running: bool, temp_on: int, temp_off: int, t: int) -> bool {
    if is_running {
        !(t <= temp_off)
    } else {
        t >= temp_on
    }
}

/// The fan state after deciding on each temperature of `temps` in turn,
/// starting from `is_running`.
pub open spec fn fan_run(is_running: bool, temp_on: int, temp_off: int, temps: Seq<int>) -> bool
    decreases temps.len(),
{
    if temps.len() == 0 {
        is_running
    } else {
        fan_run(fan_next(is_running, temp_on, temp_off, temps[0]), temp_on, temp_off, temps.drop_first())
    }
}

impl FanController {
    /// The invariant every constructed controller satisfies.
    pub open spec fn wf(&self) -> bool {
        valid_thresholds(self.temp_on as int, self.temp_off as int)
    }

    /// Validates the two thresholds and hands out a controller with the fan
    /// commanded off. Rejects a zero or negative threshold first, then an
    /// engage threshold that does not lie strictly above the disengage one.
    pub fn new(temp_on: i32, temp_off: i32) -> (r: Result<FanController, ConfigError>)
        ensures
            temp_off <= 0 || temp_on <= 0 ==> r == Err::<FanController, ConfigError>(
                ConfigError::NonPositiveThreshold,
            ),
            temp_off > 0 && temp_on > 0 && temp_on <= temp_off ==> r == Err::<
                FanController,
                ConfigError,
            >(ConfigError::InvertedThresholds),
            valid_thresholds(temp_on as int, temp_off as int) ==> r == Ok::<
                FanController,
                ConfigError,
            >(FanController { is_running: false, temp_on, temp_off }),
            r is Ok <==> valid_thresholds(temp_on as int, temp_off as int),
            r is Ok ==> r.unwrap().wf(),
    {
        if temp_off <= 0 || temp_on <= 0 {
            return Err(ConfigError::NonPositiveThreshold);
        }
        if temp_on <= temp_off {
            return Err(ConfigError::InvertedThresholds);
        }
        Ok(FanController { is_running: false, temp_off, temp_on })
    }

    /// Records that the fan has been commanded on. The hardware write that
    /// accompanies this lives outside the library.
    pub fn fan_on(&mut self)
        ensures
            *final(self) == (FanController { is_running: true, ..*old(self) }),
    {
        self.is_running = true;
    }

    /// Records that the fan has been commanded off. The hardware write that
    /// accompanies this lives outside the library.
    pub fn fan_off(&mut self)
        ensures
            *final(self) == (FanController { is_running: false, ..*old(self) }),
    {
        self.is_running = false;
    }
}

/// One per-tick fan decision on `cpu_temp` (millidegrees Celsius): applies
/// the hysteresis rule to the controller state and says which hardware
/// command, if any, must follow.
pub fn handle_fan_control(fan_controller: &mut FanController, cpu_temp: i32) -> (command:
    FanCommand)
    ensures
        final(fan_controller).is_running == fan_next(
            old(fan_controller).is_running,
            old(fan_controller).temp_on as int,
            old(fan_controller).temp_off as int,
            cpu_temp as int,
        ),
        final(fan_controller).temp_on == old(fan_controller).temp_on,
        final(fan_controller).temp_off == old(fan_controller).temp_off,
        command == (if old(fan_controller).is_running && cpu_temp <= old(fan_controller).temp_off {
            FanCommand::TurnOff
        } else if !old(fan_controller).is_running && cpu_temp >= old(fan_controller).temp_on {
            FanCommand::TurnOn
        } else {
            FanCommand::NoChange
        }),
        command == FanCommand::NoChange ==> *final(fan_controller) == *old(fan_controller),
{
    if fan_controller.is_running {
        if cpu_temp <= fan_controller.temp_off {
            fan_controller.fan_off();
            return FanCommand::TurnOff;
        }
        FanCommand::NoChange
    } else if cpu_temp >= fan_controller.temp_on {
        fan_controller.fan_on();
        FanCommand::TurnOn
    } else {
        FanCommand::NoChange
    }
}

/// Hysteresis never chatters: a temperature sequence held strictly between
/// the two thresholds leaves the fan state exactly where it started.
pub proof fn lemma_hysteresis_no_chatter(
    is_running: bool,
    temp_on: int,
    temp_off: int,
    temps: Seq<int>,
)
    requires
        valid_thresholds(temp_on, temp_off),
        forall|i: int| 0 <= i < temps.len() ==> temp_off < #[trigger] temps[i] < temp_on,
    ensures
        fan_run(is_running, temp_on, temp_off, temps) == is_running,
    decreases temps.len(),
{
    if temps.len() > 0 {
        assert(temp_off < temps[0] < temp_on);
        assert(fan_next(is_running, temp_on, temp_off, temps[0]) == is_running);
        assert(forall|i: int|
            0 <= i < temps.drop_first().len() ==> temp_off < #[trigger] temps.drop_first()[i]
                < temp_on);
        lemma_hysteresis_no_chatter(is_running, temp_on, temp_off, temps.drop_first());
    }
}

} // verus!
