//! The display power state machine and the anti-burn-in pixel shift.
//!
//! Time is carried as milliseconds on a monotone clock; the caller samples
//! the clock once per tick and hands the value in. Three independent axes:
//! a one-shot dim once the configured timeout has elapsed since start, a
//! periodic on/off power cycle of the panel, and a cyclic pixel shift that
//! spreads wear across display cells. The hardware writes each transition
//! calls for are returned to the caller as actions.

use vstd::prelude::*;

use vstd::arithmetic::div_mod::{
    lemma_fundamental_div_mod, lemma_fundamental_div_mod_converse_div,
    lemma_fundamental_div_mod_converse_mod, lemma_mod_division_less_than_divisor,
    lemma_mod_self_0, lemma_small_mod,
};

use crate::config::Config;
use crate::display::Point;

verus! {

/// The mutable state the display decisions depend on.
#[derive(Clone, Copy, Debug, PartialEq, Eq, Structural)]
pub struct AppState {
    /// When the pixel shift last advanced, milliseconds.
    pub last_shift_time: u64,
    /// Position in the shift pattern.
    pub shift_index: usize,
    /// The translation currently applied to all rendered text; always the
    /// pattern element at `shift_index`.
    pub shift_offset: Point,
    /// When the power cycle last toggled, milliseconds.
    pub last_periodic_toggle_time: u64,
    /// Current phase of the power cycle: true while the panel is on.
    pub is_display_periodically_on: bool,
    /// Whether the one-shot timeout dim has fired; never unset.
    pub screen_dimmed: bool,
}

/// The hardware writes one display-state update calls for.
#[derive(Clone, Copy, Debug, PartialEq, Eq, Structural)]
pub struct DisplayActions {
    /// Set the panel to the dimmest brightness step.
    pub dim_display: bool,
    /// Power the panel off for the off phase of the cycle.
    pub turn_display_off: bool,
    /// Power the panel back on for the on phase of the cycle.
    pub turn_display_on: bool,
}

/// The one-shot dim fires now: a timeout is configured, it has not fired
/// yet, and the time elapsed since start has reached it.
pub open spec fn dim_fires(screen_timeout_ms: u64, start_time: u64, now: u64, st: AppState) -> bool {
    screen_timeout_ms > 0 && !st.screen_dimmed && now - start_time >= screen_timeout_ms
}

/// The power cycle switches the panel off now: cycling is enabled, the
/// panel is in its on phase, and the on phase has run its length.
pub open spec fn periodic_off_fires(enable: bool, periodic_on_ms: u64, now: u64, st: AppState) -> bool {
    enable && st.is_display_periodically_on && now - st.last_periodic_toggle_time
        >= periodic_on_ms
}

/// The power cycle switches the panel back on now: cycling is enabled, the
/// panel is in its off phase, and the off phase has run its length.
pub open spec fn periodic_on_fires(enable: bool, periodic_off_ms: u64, now: u64, st: AppState) -> bool {
    enable && !st.is_display_periodically_on && now - st.last_periodic_toggle_time
        >= periodic_off_ms
}

/// The state after one display-state update at time `now`.
pub open spec fn display_step(
    enable: bool,
    screen_timeout_ms: u64,
    periodic_on_ms: u64,
    periodic_off_ms: u64,
    start_time: u64,
    now: u64,
    st: AppState,
) -> AppState {
    let dimmed = st.screen_dimmed || dim_fires(screen_timeout_ms, start_time, now, st);
    if periodic_off_fires(enable, periodic_on_ms, now, st) {
        AppState {
            screen_dimmed: dimmed,
            is_display_periodically_on: false,
            last_periodic_toggle_time: now,
            ..st
        }
    } else if periodic_on_fires(enable, periodic_off_ms, now, st) {
        AppState {
            screen_dimmed: dimmed,
            is_display_periodically_on: true,
            last_periodic_toggle_time: now,
            ..st
        }
    } else {
        AppState { screen_dimmed: dimmed, ..st }
    }
}

/// The state after display-state updates at each time of `nows` in turn.
pub open spec fn display_run(
    enable: bool,
    screen_timeout_ms: u64,
    periodic_on_ms: u64,
    periodic_off_ms: u64,
    start_time: u64,
    st: AppState,
    nows: Seq<u64>,
) -> AppState
    decreases nows.len(),
{
    if nows.len() == 0 {
        st
    } else {
        display_step(
            enable,
            screen_timeout_ms,
            periodic_on_ms,
            periodic_off_ms,
            start_time,
            nows.last(),
            display_run(
                enable,
                screen_timeout_ms,
                periodic_on_ms,
                periodic_off_ms,
                start_time,
                st,
                nows.drop_last(),
            ),
        )
    }
}

/// Advances the one-shot dim and the periodic power cycle of the display to
/// time `now` and says which hardware writes must follow. The dim fires at
/// most once ever; the power cycle toggles at most one way per tick and
/// anchors its timer at the toggle.
pub fn update_display_state(
    config: &Config,
    start_time: u64,
    now: u64,
    screen_timeout_duration: u64,
    periodic_on_duration: u64,
    periodic_off_duration: u64,
    state: &mut AppState,
) -> (actions: DisplayActions)
    requires
        now >= start_time,
        now >= old(state).last_periodic_toggle_time,
    ensures
        *final(state) == display_step(
            config.display.enable_periodic_off,
            screen_timeout_duration,
            periodic_on_duration,
            periodic_off_duration,
            start_time,
            now,
            *old(state),
        ),
        actions.dim_display == dim_fires(screen_timeout_duration, start_time, now, *old(state)),
        actions.turn_display_off == periodic_off_fires(
            config.display.enable_periodic_off,
            periodic_on_duration,
            now,
            *old(state),
        ),
        actions.turn_display_on == periodic_on_fires(
            config.display.enable_periodic_off,
            periodic_off_duration,
            now,
            *old(state),
        ),
        old(state).screen_dimmed ==> final(state).screen_dimmed,
        final(state).shift_index == old(state).shift_index,
        final(state).shift_offset == old(state).shift_offset,
        final(state).last_shift_time == old(state).last_shift_time,
        final(state).last_periodic_toggle_time <= now,
{
    let total_elapsed_time: u64 = now - start_time;
    let time_since_last_toggle: u64 = now - state.last_periodic_toggle_time;

    let mut actions = DisplayActions {
        dim_display: false,
        turn_display_off: false,
        turn_display_on: false,
    };

    if screen_timeout_duration > 0 && !state.screen_dimmed && total_elapsed_time
        >= screen_timeout_duration {
        actions.dim_display = true;
        state.screen_dimmed = true;
    }

    if config.display.enable_periodic_off {
        if state.is_display_periodically_on && time_since_last_toggle >= periodic_on_duration {
            actions.turn_display_off = true;
            state.is_display_periodically_on = false;
            state.last_periodic_toggle_time = now;
        } else if !state.is_display_periodically_on && time_since_last_toggle
            >= periodic_off_duration {
            actions.turn_display_on = true;
            state.is_display_periodically_on = true;
            state.last_periodic_toggle_time = now;
        }
    }
    actions
}

/// The state after one pixel-shift check at time `now`: every
/// `shift_interval` milliseconds the offset advances to the next pattern
/// element, wrapping around.
pub open spec fn shift_step(shift_interval: u64, pattern: Seq<Point>, now: u64, st: AppState) -> AppState {
    if pattern.len() > 0 && now - st.last_shift_time >= shift_interval {
        let idx = ((st.shift_index + 1) as int % pattern.len() as int) as usize;
        AppState {
            shift_index: idx,
            shift_offset: pattern[idx as int],
            last_shift_time: now,
            ..st
        }
    } else {
        st
    }
}

/// The state after pixel-shift checks at each time of `nows` in turn.
pub open spec fn shift_run(shift_interval: u64, pattern: Seq<Point>, st: AppState, nows: Seq<u64>) -> AppState
    decreases nows.len(),
{
    if nows.len() == 0 {
        st
    } else {
        shift_step(
            shift_interval,
            pattern,
            nows.last(),
            shift_run(shift_interval, pattern, st, nows.drop_last()),
        )
    }
}

/// Advances the anti-burn-in pixel shift to time `now`: once
/// `shift_interval` milliseconds have elapsed since the last shift, the
/// offset moves to the next pattern element, wrapping around.
pub fn update_pixel_shift(
    now: u64,
    shift_interval: u64,
    shift_pattern: &Vec<Point>,
    state: &mut AppState,
) -> (shifted: bool)
    requires
        shift_pattern@.len() > 0,
        old(state).shift_index < shift_pattern@.len(),
        old(state).shift_offset == shift_pattern@[old(state).shift_index as int],
        now >= old(state).last_shift_time,
    ensures
        *final(state) == shift_step(shift_interval, shift_pattern@, now, *old(state)),
        shifted == (now - old(state).last_shift_time >= shift_interval),
        final(state).shift_index < shift_pattern@.len(),
        final(state).shift_offset == shift_pattern@[final(state).shift_index as int],
        final(state).screen_dimmed == old(state).screen_dimmed,
        final(state).is_display_periodically_on == old(state).is_display_periodically_on,
        final(state).last_periodic_toggle_time == old(state).last_periodic_toggle_time,
        final(state).last_shift_time <= now,
{
    if now - state.last_shift_time >= shift_interval {
        let n: usize = shift_pattern.len();
        state.shift_index = (state.shift_index + 1) % n;
        state.shift_offset = shift_pattern[state.shift_index];
        state.last_shift_time = now;
        true
    } else {
        false
    }
}

/// The times of ticks 0 through `n - 1` of a loop that starts at
/// `start_time` and ticks once a second.
pub open spec fn tick_times(start_time: u64, n: nat) -> Seq<u64> {
    Seq::new(n, |k: int| (start_time + k * 1000) as u64)
}

/// With the power cycle enabled and a loop that ticks once a second from
/// `start_time`, the panel phase follows an exact cycle: after tick `i` it
/// is in the on phase exactly when `i` lies in the first `on_s` seconds of
/// its cycle of `on_s + off_s` seconds, and the toggle timer is anchored at
/// the start of the current phase.
pub proof fn lemma_periodic_cycle(
    screen_timeout_ms: u64,
    on_s: u64,
    off_s: u64,
    start_time: u64,
    st0: AppState,
    i: nat,
)
    requires
        on_s > 0,
        off_s > 0,
        st0.is_display_periodically_on,
        st0.last_periodic_toggle_time == start_time,
        start_time + (i + 1) * 1000 <= u64::MAX,
        on_s * 1000 <= u64::MAX,
        off_s * 1000 <= u64::MAX,
    ensures
        ({
            let p = on_s as int + off_s as int;
            let c = i as int % p;
            let st = display_run(
                true,
                screen_timeout_ms,
                (on_s * 1000) as u64,
                (off_s * 1000) as u64,
                start_time,
                st0,
                tick_times(start_time, i + 1),
            );
            &&& c < on_s ==> st.is_display_periodically_on && st.last_periodic_toggle_time
                == start_time + (i - c) * 1000
            &&& c >= on_s ==> !st.is_display_periodically_on && st.last_periodic_toggle_time
                == start_time + (i - c + on_s) * 1000
        }),
    decreases i,
{
    let p = on_s as int + off_s as int;
    let on_ms = (on_s * 1000) as u64;
    let off_ms = (off_s * 1000) as u64;
    let nows = tick_times(start_time, i + 1);
    assert(nows.last() == (start_time + i * 1000) as u64);
    let st = display_run(true, screen_timeout_ms, on_ms, off_ms, start_time, st0, nows);
    let prev = display_run(
        true,
        screen_timeout_ms,
        on_ms,
        off_ms,
        start_time,
        st0,
        nows.drop_last(),
    );
    assert(st == display_step(
        true,
        screen_timeout_ms,
        on_ms,
        off_ms,
        start_time,
        nows.last(),
        prev,
    ));
    if i == 0 {
        assert(nows.drop_last() =~= tick_times(start_time, 0));
        assert(prev == st0);
        lemma_small_mod(0, p as nat);
    } else {
        assert(nows.drop_last() =~= tick_times(start_time, i));
        lemma_periodic_cycle(screen_timeout_ms, on_s, off_s, start_time, st0, (i - 1) as nat);
        assert(prev == display_run(
            true,
            screen_timeout_ms,
            on_ms,
            off_ms,
            start_time,
            st0,
            tick_times(start_time, ((i - 1) as nat + 1) as nat),
        ));
        let c_prev = (i - 1) % p;
        let q_prev = (i - 1) / p;
        lemma_fundamental_div_mod(i - 1, p);
        lemma_mod_division_less_than_divisor(i - 1, p);
        let now = start_time + i * 1000;
        if c_prev < on_s {
            // On phase so far; the toggle timer was anchored at the phase
            // start, so `c_prev + 1` full seconds of the on phase have now
            // elapsed.
            assert(now - prev.last_periodic_toggle_time == (c_prev + 1) * 1000);
            if c_prev + 1 < on_s {
                lemma_fundamental_div_mod_converse_mod(i as int, p, q_prev, c_prev + 1);
            } else {
                assert(c_prev + 1 == on_s);
                lemma_fundamental_div_mod_converse_mod(i as int, p, q_prev, on_s as int);
            }
        } else {
            // Off phase so far.
            assert(now - prev.last_periodic_toggle_time == (c_prev + 1 - on_s) * 1000);
            if c_prev + 1 < p {
                lemma_fundamental_div_mod_converse_mod(i as int, p, q_prev, c_prev + 1);
            } else {
                assert(c_prev + 1 == p);
                assert((q_prev + 1) * p == q_prev * p + p) by (nonlinear_arith);
                lemma_fundamental_div_mod_converse_mod(i as int, p, q_prev + 1, 0);
            }
        }
    }
}

/// With a loop that ticks once a second from `start_time` and a shift
/// pattern entered at its first element, the anti-burn-in offset follows an
/// exact cycle: after tick `i` the shift index is `(i / interval_s)` modulo
/// the pattern length, the offset is the pattern element there, and the
/// shift timer is anchored at the last multiple of the interval.
pub proof fn lemma_shift_cycle(
    interval_s: u64,
    pattern: Seq<Point>,
    start_time: u64,
    st0: AppState,
    i: nat,
)
    requires
        interval_s > 0,
        pattern.len() > 0,
        pattern.len() <= usize::MAX,
        st0.shift_index == 0,
        st0.shift_offset == pattern[0],
        st0.last_shift_time == start_time,
        start_time + (i + 1) * 1000 <= u64::MAX,
        interval_s * 1000 <= u64::MAX,
    ensures
        ({
            let v = interval_s as int;
            let len = pattern.len() as int;
            let st = shift_run(
                (interval_s * 1000) as u64,
                pattern,
                st0,
                tick_times(start_time, i + 1),
            );
            &&& st.shift_index as int == (i as int / v) % len
            &&& st.shift_offset == pattern[st.shift_index as int]
            &&& st.last_shift_time == start_time + (i - (i as int % v)) * 1000
        }),
    decreases i,
{
    let v = interval_s as int;
    let len = pattern.len() as int;
    let interval_ms = (interval_s * 1000) as u64;
    let nows = tick_times(start_time, i + 1);
    assert(nows.last() == (start_time + i * 1000) as u64);
    let st = shift_run(interval_ms, pattern, st0, nows);
    let prev = shift_run(interval_ms, pattern, st0, nows.drop_last());
    assert(st == shift_step(interval_ms, pattern, nows.last(), prev));
    if i == 0 {
        assert(nows.drop_last() =~= tick_times(start_time, 0));
        assert(prev == st0);
        lemma_small_mod(0, v as nat);
        lemma_small_mod(0, len as nat);
        assert(0int / v == 0) by {
            lemma_fundamental_div_mod_converse_div(0, v, 0, 0);
        }
    } else {
        assert(nows.drop_last() =~= tick_times(start_time, i));
        lemma_shift_cycle(interval_s, pattern, start_time, st0, (i - 1) as nat);
        assert(prev == shift_run(
            interval_ms,
            pattern,
            st0,
            tick_times(start_time, ((i - 1) as nat + 1) as nat),
        ));
        let c_prev = (i - 1) % v;
        let q_prev = (i - 1) / v;
        lemma_fundamental_div_mod(i - 1, v);
        lemma_mod_division_less_than_divisor(i - 1, v);
        lemma_mod_division_less_than_divisor(q_prev, len);
        let now = start_time + i * 1000;
        assert(now - prev.last_shift_time == (c_prev + 1) * 1000);
        if c_prev + 1 < v {
            // The interval has not elapsed: the index and the anchor stay.
            lemma_fundamental_div_mod_converse_mod(i as int, v, q_prev, c_prev + 1);
            lemma_fundamental_div_mod_converse_div(i as int, v, q_prev, c_prev + 1);
        } else {
            // A full interval has elapsed: the index advances, wrapping.
            assert(c_prev + 1 == v);
            assert((q_prev + 1) * v == q_prev * v + v) by (nonlinear_arith);
            lemma_fundamental_div_mod_converse_mod(i as int, v, q_prev + 1, 0);
            lemma_fundamental_div_mod_converse_div(i as int, v, q_prev + 1, 0);
            let idx_prev = q_prev % len;
            lemma_fundamental_div_mod(q_prev, len);
            assert(len * (q_prev / len) == (q_prev / len) * len) by (nonlinear_arith);
            assert(q_prev + 1 == (q_prev / len) * len + (idx_prev + 1));
            lemma_mod_division_less_than_divisor(prev.shift_index as int + 1, len);
            if idx_prev + 1 < len {
                lemma_fundamental_div_mod_converse_mod(q_prev + 1, len, q_prev / len, idx_prev + 1);
                lemma_small_mod((idx_prev + 1) as nat, len as nat);
            } else {
                assert(idx_prev + 1 == len);
                assert((q_prev / len + 1) * len == (q_prev / len) * len + len) by (nonlinear_arith);
                lemma_fundamental_div_mod_converse_mod(q_prev + 1, len, q_prev / len + 1, 0);
                lemma_mod_self_0(len);
            }
        }
    }
}

/// The timeout dim is a one-way latch: once the screen has dimmed, no
/// sequence of further display-state updates, at whatever times, undoes it.
pub proof fn lemma_screen_dim_monotone(
    enable: bool,
    screen_timeout_ms: u64,
    periodic_on_ms: u64,
    periodic_off_ms: u64,
    start_time: u64,
    st: AppState,
    nows: Seq<u64>,
)
    requires
        st.screen_dimmed,
    ensures
        display_run(
            enable,
            screen_timeout_ms,
            periodic_on_ms,
            periodic_off_ms,
            start_time,
            st,
            nows,
        ).screen_dimmed,
    decreases nows.len(),
{
    if nows.len() > 0 {
        lemma_screen_dim_monotone(
            enable,
            screen_timeout_ms,
            periodic_on_ms,
            periodic_off_ms,
            start_time,
            st,
            nows.drop_last(),
        );
    }
}

} // verus!
