//! The per-tick orchestrator.
//!
//! Once per tick the caller samples the monotone clock and the sensors and
//! hands the plain values in; `tick` advances the display state machine and
//! the fan hysteresis, maintains the disk-usage cache, builds the statistics
//! strings, and returns every action the hardware layer must carry out:
//! brightness and power writes, the fan command, and the laid-out frame to
//! draw while the panel is on.

use vstd::prelude::*;

use vstd::arithmetic::div_mod::lemma_fundamental_div_mod_converse_mod;

use crate::config::Config;
use crate::display::{
    compute_layout, offset_in_range, spec_layout, FrameLayout, Point, MAX_TEXT_LEN,
};
use crate::display_state::{
    dim_fires, display_run, display_step, lemma_periodic_cycle, lemma_shift_cycle,
    periodic_off_fires, periodic_on_fires, shift_run, shift_step, tick_times,
    update_display_state, update_pixel_shift, AppState, DisplayActions,
};
use crate::fan_controller::{fan_next, handle_fan_control, FanCommand, FanController};
use crate::stats::{ascii_len, gather_stats, get_disk_usage, opt_bytes, spec_disk_tenths,
    spec_ip_address, spec_parse_temp, spec_percent_tenths, spec_temp_string, spec_tenths_string,
    SystemStats,
};

verus! {

/// The disk usage is refreshed on every tick whose index is a multiple of
/// this; in between the cached value is shown.
pub const DISK_REFRESH_TICKS: u64 = 60;

/// Space counters of the disk whose usage is shown.
#[derive(Clone, Copy, Debug, PartialEq, Eq, Structural)]
pub struct DiskSpace {
    pub total_space: u64,
    pub available_space: u64,
}

/// One tick's raw sensor readings, sampled by the caller. `None` marks a
/// reading that failed; the disk counters are only sampled on the ticks the
/// cache policy asks for them.
#[derive(Debug)]
pub struct SensorSample {
    /// What the hostname query printed, when it succeeded.
    pub ip_output: Option<Vec<u8>>,
    /// The bytes of the kernel's thermal file, when it could be read.
    pub temp_contents: Option<Vec<u8>>,
    /// Global CPU usage, tenths of a percent.
    pub cpu_usage_tenths: u64,
    pub total_memory: u64,
    pub used_memory: u64,
    /// Disk counters, when this tick samples them.
    pub disk_space: Option<DiskSpace>,
}

/// Everything one tick asks the hardware layer to do.
#[derive(Debug)]
pub struct TickActions {
    /// Brightness and power writes of the display state machine.
    pub display: DisplayActions,
    /// The fan line write, if the hysteresis decided one.
    pub fan_command: FanCommand,
    /// The statistics of this tick.
    pub stats: SystemStats,
    /// Where to draw each statistic; absent while the panel is powered
    /// down, when nothing must be written to it.
    pub render: Option<FrameLayout>,
}

/// The cached disk share after one tick: refreshed from freshly sampled
/// counters on the ticks the policy names, kept otherwise.
pub open spec fn disk_cache_step(
    iteration: u64,
    disk_space: Option<DiskSpace>,
    cached: u64,
) -> int {
    if iteration % DISK_REFRESH_TICKS == 0 {
        match disk_space {
            Some(space) => spec_disk_tenths(space.total_space, space.available_space),
            None => cached as int,
        }
    } else {
        cached as int
    }
}

/// The state the control loop owns for the process lifetime.
pub struct ControlLoop {
    pub config: Config,
    pub fan_controller: FanController,
    pub app_state: AppState,
    /// The cyclic anti-burn-in offsets; the state always sits on one.
    pub shift_pattern: Vec<Point>,
    /// Milliseconds between anti-burn-in shifts.
    pub shift_interval: u64,
    /// When the loop started, milliseconds.
    pub start_time: u64,
    /// Ticks run so far.
    pub iteration: u64,
    /// Cached disk usage, tenths of a percent.
    pub disk_usage_tenths: u64,
}

impl ControlLoop {
    /// The invariant every tick preserves.
    pub open spec fn wf(&self) -> bool {
        &&& self.config.wf()
        &&& self.fan_controller.wf()
        &&& self.fan_controller.temp_on == self.config.fan.temp_on
        &&& self.fan_controller.temp_off == self.config.fan.temp_off
        &&& self.shift_pattern@.len() > 0
        &&& (forall|k: int|
            0 <= k < self.shift_pattern@.len() ==> offset_in_range(#[trigger] self.shift_pattern@[k]))
        &&& self.app_state.shift_index < self.shift_pattern@.len()
        &&& self.app_state.shift_offset == self.shift_pattern@[self.app_state.shift_index as int]
        &&& self.disk_usage_tenths <= 1000
    }

    /// Sets up the loop state at `start_time`: panel on and undimmed, both
    /// timers anchored at the start, the shift pattern entered at its first
    /// element, and the tick counter at zero (so the first tick samples the
    /// disk).
    pub fn new(
        config: Config,
        fan_controller: FanController,
        shift_pattern: Vec<Point>,
        shift_interval: u64,
        start_time: u64,
    ) -> (r: ControlLoop)
        requires
            config.wf(),
            fan_controller.wf(),
            fan_controller.temp_on == config.fan.temp_on,
            fan_controller.temp_off == config.fan.temp_off,
            shift_pattern@.len() > 0,
            forall|k: int|
                0 <= k < shift_pattern@.len() ==> offset_in_range(#[trigger] shift_pattern@[k]),
        ensures
            r.wf(),
            r.config == config,
            r.fan_controller == fan_controller,
            r.shift_pattern == shift_pattern,
            r.shift_interval == shift_interval,
            r.start_time == start_time,
            r.iteration == 0,
            r.disk_usage_tenths == 0,
            r.app_state == (AppState {
                last_shift_time: start_time,
                shift_index: 0,
                shift_offset: shift_pattern@[0],
                last_periodic_toggle_time: start_time,
                is_display_periodically_on: true,
                screen_dimmed: false,
            }),
    {
        let shift_offset = shift_pattern[0];
        ControlLoop {
            config,
            fan_controller,
            app_state: AppState {
                last_shift_time: start_time,
                shift_index: 0,
                shift_offset,
                last_periodic_toggle_time: start_time,
                is_display_periodically_on: true,
                screen_dimmed: false,
            },
            shift_pattern,
            shift_interval,
            start_time,
            iteration: 0,
            disk_usage_tenths: 0,
        }
    }

    /// Whether this tick refreshes the disk counters; the caller samples
    /// them only when it says so.
    pub fn disk_refresh_due(&self) -> (due: bool)
        ensures
            due == (self.iteration % DISK_REFRESH_TICKS == 0),
    {
        self.iteration % DISK_REFRESH_TICKS == 0
    }

    /// One tick at time `now` (milliseconds on the monotone clock the loop
    /// started on). In order: advances the display power state, advances
    /// the anti-burn-in shift, refreshes the disk cache when due, builds
    /// the statistics, decides the fan, and lays out the frame to draw
    /// while the panel is on.
    pub fn tick(&mut self, now: u64, sample: &SensorSample) -> (r: TickActions)
        requires
            old(self).wf(),
            now >= old(self).start_time,
            now >= old(self).app_state.last_periodic_toggle_time,
            now >= old(self).app_state.last_shift_time,
            old(self).iteration < u64::MAX,
            sample.cpu_usage_tenths <= 1000,
            sample.ip_output matches Some(v) ==> v@.len() <= MAX_TEXT_LEN,
        ensures
    // what stays

            final(self).config == old(self).config,
            final(self).shift_pattern == old(self).shift_pattern,
            final(self).shift_interval == old(self).shift_interval,
            final(self).start_time == old(self).start_time,
            final(self).wf(),
            final(self).iteration == old(self).iteration + 1,
            // the display state machine advances by exactly one step of
            // each axis, power cycle first, pixel shift second
            final(self).app_state == loop_state_step(
                old(self).config,
                old(self).shift_interval,
                old(self).shift_pattern@,
                old(self).start_time,
                now,
                old(self).app_state,
            ),
            r.display.dim_display == dim_fires(
                (old(self).config.display.screen_timeout * 1000) as u64,
                old(self).start_time,
                now,
                old(self).app_state,
            ),
            r.display.turn_display_off == periodic_off_fires(
                old(self).config.display.enable_periodic_off,
                (old(self).config.display.periodic_on_duration * 1000) as u64,
                now,
                old(self).app_state,
            ),
            r.display.turn_display_on == periodic_on_fires(
                old(self).config.display.enable_periodic_off,
                (old(self).config.display.periodic_off_duration * 1000) as u64,
                now,
                old(self).app_state,
            ),
            old(self).app_state.screen_dimmed ==> final(self).app_state.screen_dimmed,
            final(self).app_state.last_periodic_toggle_time <= now,
            final(self).app_state.last_shift_time <= now,
            // the disk cache is refreshed exactly on the due ticks
            final(self).disk_usage_tenths as int == disk_cache_step(
                old(self).iteration,
                sample.disk_space,
                old(self).disk_usage_tenths,
            ),
            // the fan follows the hysteresis rule on the parsed temperature
            r.stats.cpu_temp as int == spec_parse_temp(opt_bytes(sample.temp_contents)),
            final(self).fan_controller.is_running == fan_next(
                old(self).fan_controller.is_running,
                old(self).config.fan.temp_on as int,
                old(self).config.fan.temp_off as int,
                r.stats.cpu_temp as int,
            ),
            r.fan_command == (if old(self).fan_controller.is_running && r.stats.cpu_temp <= old(
                self,
            ).config.fan.temp_off {
                FanCommand::TurnOff
            } else if !old(self).fan_controller.is_running && r.stats.cpu_temp >= old(
                self,
            ).config.fan.temp_on {
                FanCommand::TurnOn
            } else {
                FanCommand::NoChange
            }),
            // the statistics shown
            r.stats.ip_address@ == spec_ip_address(opt_bytes(sample.ip_output)),
            r.stats.cpu_usage@ == spec_tenths_string(sample.cpu_usage_tenths as nat),
            r.stats.cpu_temp_str@ == spec_temp_string(r.stats.cpu_temp as int),
            r.stats.ram_usage@ == spec_tenths_string(
                spec_percent_tenths(sample.used_memory, sample.total_memory) as nat,
            ),
            r.stats.disk_usage@ == spec_tenths_string(final(self).disk_usage_tenths as nat),
            // a frame is drawn exactly while the panel is on, at the
            // positions the layout gives for these strings and this offset
            r.render is Some <==> final(self).app_state.is_display_periodically_on,
            r.render matches Some(layout) ==> layout == spec_layout(
                r.stats.ip_address@.len() as int,
                r.stats.cpu_usage@.len() as int,
                r.stats.cpu_temp_str@.len() as int,
                r.stats.ram_usage@.len() as int,
                r.stats.disk_usage@.len() as int,
                final(self).app_state.shift_offset,
            ),
    {
        let config = self.config;
        let start_time = self.start_time;
        let screen_timeout_ms = config.display_timeout();
        let on_ms = config.periodic_on_duration();
        let off_ms = config.periodic_off_duration();
        let display = update_display_state(
            &config,
            start_time,
            now,
            screen_timeout_ms,
            on_ms,
            off_ms,
            &mut self.app_state,
        );
        update_pixel_shift(now, self.shift_interval, &self.shift_pattern, &mut self.app_state);
        if self.iteration % DISK_REFRESH_TICKS == 0 {
            match &sample.disk_space {
                Some(space) => {
                    self.disk_usage_tenths = get_disk_usage(
                        space.total_space,
                        space.available_space,
                    );
                },
                None => {},
            }
        }
        let stats = gather_stats(
            &sample.ip_output,
            &sample.temp_contents,
            sample.cpu_usage_tenths,
            sample.total_memory,
            sample.used_memory,
            self.disk_usage_tenths,
        );
        let fan_command = handle_fan_control(&mut self.fan_controller, stats.cpu_temp);
        let render = if self.app_state.is_display_periodically_on {
            let ip_len = ascii_len(&stats.ip_address);
            let cpu_len = ascii_len(&stats.cpu_usage);
            let temp_len = ascii_len(&stats.cpu_temp_str);
            let ram_len = ascii_len(&stats.ram_usage);
            let disk_len = ascii_len(&stats.disk_usage);
            Some(
                compute_layout(
                    ip_len,
                    cpu_len,
                    temp_len,
                    ram_len,
                    disk_len,
                    self.app_state.shift_offset,
                ),
            )
        } else {
            None
        };
        self.iteration = self.iteration + 1;
        TickActions { display, fan_command, stats, render }
    }
}

/// The display-relevant state after one whole tick: the power state
/// machine advances first, the pixel shift second, exactly as `tick`
/// applies them.
pub open spec fn loop_state_step(
    config: Config,
    shift_interval: u64,
    pattern: Seq<Point>,
    start_time: u64,
    now: u64,
    st: AppState,
) -> AppState {
    shift_step(
        shift_interval,
        pattern,
        now,
        display_step(
            config.display.enable_periodic_off,
            (config.display.screen_timeout * 1000) as u64,
            (config.display.periodic_on_duration * 1000) as u64,
            (config.display.periodic_off_duration * 1000) as u64,
            start_time,
            now,
            st,
        ),
    )
}

/// The display-relevant state after whole ticks at each time of `nows`.
pub open spec fn loop_state_run(
    config: Config,
    shift_interval: u64,
    pattern: Seq<Point>,
    start_time: u64,
    st: AppState,
    nows: Seq<u64>,
) -> AppState
    decreases nows.len(),
{
    if nows.len() == 0 {
        st
    } else {
        loop_state_step(
            config,
            shift_interval,
            pattern,
            start_time,
            nows.last(),
            loop_state_run(config, shift_interval, pattern, start_time, st, nows.drop_last()),
        )
    }
}

/// The two axes of a tick do not interfere: over any tick times, the power
/// state and its timer follow the power cycle alone, and the shift fields
/// follow the pixel shift alone.
pub proof fn lemma_loop_run_projections(
    config: Config,
    shift_interval: u64,
    pattern: Seq<Point>,
    start_time: u64,
    st: AppState,
    nows: Seq<u64>,
)
    ensures
        ({
            let whole = loop_state_run(config, shift_interval, pattern, start_time, st, nows);
            let power = display_run(
                config.display.enable_periodic_off,
                (config.display.screen_timeout * 1000) as u64,
                (config.display.periodic_on_duration * 1000) as u64,
                (config.display.periodic_off_duration * 1000) as u64,
                start_time,
                st,
                nows,
            );
            let shift = shift_run(shift_interval, pattern, st, nows);
            &&& whole.screen_dimmed == power.screen_dimmed
            &&& whole.is_display_periodically_on == power.is_display_periodically_on
            &&& whole.last_periodic_toggle_time == power.last_periodic_toggle_time
            &&& whole.shift_index == shift.shift_index
            &&& whole.shift_offset == shift.shift_offset
            &&& whole.last_shift_time == shift.last_shift_time
        }),
    decreases nows.len(),
{
    if nows.len() > 0 {
        lemma_loop_run_projections(
            config,
            shift_interval,
            pattern,
            start_time,
            st,
            nows.drop_last(),
        );
    }
}

/// The power cycle observed through whole ticks, once a second from
/// `start_time`: after tick `i` the panel is in its on phase exactly when
/// `i` lies in the first `periodic_on_duration` seconds of its cycle.
pub proof fn lemma_periodic_cycle_in_loop(
    config: Config,
    shift_interval: u64,
    pattern: Seq<Point>,
    start_time: u64,
    st0: AppState,
    i: nat,
)
    requires
        config.display.wf(),
        config.display.enable_periodic_off,
        st0.is_display_periodically_on,
        st0.last_periodic_toggle_time == start_time,
        start_time + (i + 1) * 1000 <= u64::MAX,
    ensures
        ({
            let on_s = config.display.periodic_on_duration;
            let off_s = config.display.periodic_off_duration;
            let st = loop_state_run(
                config,
                shift_interval,
                pattern,
                start_time,
                st0,
                tick_times(start_time, i + 1),
            );
            st.is_display_periodically_on <==> i as int % (on_s as int + off_s as int) < on_s
        }),
{
    lemma_loop_run_projections(
        config,
        shift_interval,
        pattern,
        start_time,
        st0,
        tick_times(start_time, i + 1),
    );
    lemma_periodic_cycle(
        (config.display.screen_timeout * 1000) as u64,
        config.display.periodic_on_duration,
        config.display.periodic_off_duration,
        start_time,
        st0,
        i,
    );
}

/// The anti-burn-in offset observed through whole ticks, once a second from
/// `start_time`: after tick `i` the offset is the pattern element at
/// `(i / interval_s) mod pattern.len()`.
pub proof fn lemma_shift_cycle_in_loop(
    config: Config,
    interval_s: u64,
    pattern: Seq<Point>,
    start_time: u64,
    st0: AppState,
    i: nat,
)
    requires
        interval_s > 0,
        interval_s * 1000 <= u64::MAX,
        pattern.len() > 0,
        pattern.len() <= usize::MAX,
        st0.shift_index == 0,
        st0.shift_offset == pattern[0],
        st0.last_shift_time == start_time,
        start_time + (i + 1) * 1000 <= u64::MAX,
    ensures
        ({
            let st = loop_state_run(
                config,
                (interval_s * 1000) as u64,
                pattern,
                start_time,
                st0,
                tick_times(start_time, i + 1),
            );
            &&& st.shift_index as int == (i as int / interval_s as int) % pattern.len() as int
            &&& st.shift_offset == pattern[st.shift_index as int]
        }),
{
    lemma_loop_run_projections(
        config,
        (interval_s * 1000) as u64,
        pattern,
        start_time,
        st0,
        tick_times(start_time, i + 1),
    );
    lemma_shift_cycle(interval_s, pattern, start_time, st0, i);
}

/// The disk collaborator is consulted exactly once per refresh window: of
/// the ticks `60 k` through `60 k + 59`, the refresh is due at the first
/// and at no other.
pub proof fn lemma_disk_refresh_once_per_window(k: nat, t: nat)
    requires
        60 * k <= t < 60 * (k + 1),
    ensures
        (t as int % (DISK_REFRESH_TICKS as int) == 0) <==> (t == 60 * k),
{
    let r = t - 60 * k;
    assert(t as int == k as int * 60 + r) by (nonlinear_arith)
        requires
            r == t - 60 * k,
    ;
    lemma_fundamental_div_mod_converse_mod(t as int, 60, k as int, r as int);
}

} // verus!
