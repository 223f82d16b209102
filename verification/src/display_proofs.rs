//! What holds of the display timers over whole runs of ticks.

use vstd::prelude::*;
use vstd::arithmetic::div_mod::{lemma_fundamental_div_mod, lemma_fundamental_div_mod_converse};
use crate::clock::elapsed;
use crate::display::{DisplayConfig, DisplayState, SHIFT_INTERVAL, shift_offsets};

verus! {

/// Whether `times` are the times of successive ticks that follow a tick at
/// `from`: they never go back, and no two neighbours are further apart than
/// `tick_interval`.
pub open spec fn paced(from: u64, times: Seq<u64>, tick_interval: u64) -> bool {
    &&& times.len() > 0 ==> from <= times[0] <= from + tick_interval
    &&& forall|i: int|
        0 <= i < times.len() - 1 ==> times[i] <= #[trigger] times[i + 1] <= times[i]
            + tick_interval
}

/// Dimming is a latch. Over any run of ticks the flag never goes back from
/// set to clear, and `Dim` is issued exactly once if the run sets the flag and
/// not at all otherwise; in particular never once the display is dimmed.
pub proof fn lemma_dims_once(state: DisplayState, config: DisplayConfig, times: Seq<u64>)
    ensures
        state.screen_dimmed ==> state.after_ticks(config, times).screen_dimmed,
        state.dims_during(config, times) == if !state.screen_dimmed && state.after_ticks(
            config,
            times,
        ).screen_dimmed {
            1nat
        } else {
            0nat
        },
        state.after_ticks(config, times).start_time == state.start_time,
    decreases times.len(),
{
    if times.len() > 0 {
        lemma_dims_once(state, config, times.drop_last());
    }
}

/// A tick leaves the periodic cycle in time: the phase it leaves the display
/// in either began at that tick or is short of its duration.
pub proof fn lemma_tick_leaves_phase_in_time(state: DisplayState, config: DisplayConfig, now: u64)
    requires
        config.enable_periodic_off,
        state.last_periodic_toggle_time <= now,
    ensures
        state.after_tick(config, now).phase_in_time(config, now),
{
}

/// The display is never on for longer than the on duration plus one tick
/// interval, nor off for longer than the off duration plus one tick interval.
///
/// Take a state that a tick at `previous` left in time, and let the next tick
/// come at `now`, at most `tick_interval` later. At that tick the current
/// phase has lasted at most its duration plus `tick_interval`; the tick ends
/// the phase unless it has lasted less than its duration; and the tick leaves
/// the cycle in time again.
pub proof fn lemma_phase_ends_in_time(
    state: DisplayState,
    config: DisplayConfig,
    previous: u64,
    now: u64,
    tick_interval: u64,
)
    requires
        config.enable_periodic_off,
        state.phase_in_time(config, previous),
        previous <= now <= previous + tick_interval,
    ensures
        elapsed(now, state.last_periodic_toggle_time) <= state.phase_duration(config)
            + tick_interval,
        state.after_tick(config, now).is_display_periodically_on
            == state.is_display_periodically_on ==> elapsed(now, state.last_periodic_toggle_time)
            < state.phase_duration(config),
        state.after_tick(config, now).phase_in_time(config, now),
{
}

/// Over a whole run of paced ticks every phase of the periodic cycle stays
/// within its bound: whenever a tick is evaluated, the phase that the display
/// is in has lasted at most its duration plus one tick interval.
pub proof fn lemma_run_keeps_phases_bounded(
    state: DisplayState,
    config: DisplayConfig,
    from: u64,
    times: Seq<u64>,
    tick_interval: u64,
)
    requires
        config.enable_periodic_off,
        state.phase_in_time(config, from),
        paced(from, times, tick_interval),
    ensures
        forall|k: int|
            0 <= k < times.len() ==> elapsed(
                times[k],
                (#[trigger] state.after_ticks(config, times.take(k))).last_periodic_toggle_time,
            ) <= state.after_ticks(config, times.take(k)).phase_duration(config) + tick_interval,
        times.len() > 0 ==> state.after_ticks(config, times).phase_in_time(config, times.last()),
    decreases times.len(),
{
    if times.len() > 0 {
        let front = times.drop_last();
        let last = times.last();
        assert(paced(from, front, tick_interval)) by {
            assert forall|i: int| 0 <= i < front.len() - 1 implies front[i] <= #[trigger] front[i
                + 1] <= front[i] + tick_interval by {
                assert(front[i + 1] == times[i + 1]);
            }
        }
        lemma_run_keeps_phases_bounded(state, config, from, front, tick_interval);
        let before = state.after_ticks(config, front);
        let previous = if front.len() > 0 {
            front.last()
        } else {
            from
        };
        assert(previous <= last <= previous + tick_interval) by {
            if front.len() > 0 {
                let i = front.len() - 1;
                assert(times[i] <= times[i + 1] <= times[i] + tick_interval);
            }
        }
        lemma_phase_ends_in_time(before, config, previous, last, tick_interval);
        assert forall|k: int| 0 <= k < times.len() implies elapsed(
            times[k],
            (#[trigger] state.after_ticks(config, times.take(k))).last_periodic_toggle_time,
        ) <= state.after_ticks(config, times.take(k)).phase_duration(config) + tick_interval by {
            if k < front.len() {
                assert(times.take(k) =~= front.take(k));
            } else {
                assert(times.take(k) =~= front);
            }
        }
    }
}

/// A tick keeps the shift in step, and a shift that is due moves to the other
/// of the two offsets.
pub proof fn lemma_shift_alternates(state: DisplayState, config: DisplayConfig, now: u64)
    requires
        state.shift_in_step(),
    ensures
        state.after_tick(config, now).shift_in_step(),
        state.shifts_at(now, SHIFT_INTERVAL) ==> {
            &&& state.after_tick(config, now).shift_index == 1 - state.shift_index
            &&& state.after_tick(config, now).shift_offset != state.shift_offset
            &&& state.after_tick(config, now).last_shift_time == now
        },
        !state.shifts_at(now, SHIFT_INTERVAL) ==> state.after_tick(config, now).same_shift(state),
{
    assert(shift_offsets()[0] != shift_offsets()[1]);
}

/// The shift has a period of twice the shift interval. Before one interval
/// has passed since the last shift, a tick leaves the offset alone; a tick
/// one interval after it moves to the other offset; a tick one more interval
/// later is back at the first.
pub proof fn lemma_shift_period(state: DisplayState, config: DisplayConfig, early: u64)
    requires
        state.shift_in_step(),
        state.last_shift_time + 2 * SHIFT_INTERVAL <= u64::MAX,
        state.last_shift_time <= early < state.last_shift_time + SHIFT_INTERVAL,
    ensures
        state.after_tick(config, early).same_shift(state),
        ({
            let first = (state.last_shift_time + SHIFT_INTERVAL) as u64;
            let second = (state.last_shift_time + 2 * SHIFT_INTERVAL) as u64;
            let half = state.after_tick(config, first);
            let whole = half.after_tick(config, second);
            &&& half.shift_offset != state.shift_offset
            &&& half.last_shift_time == first
            &&& whole.shift_offset == state.shift_offset
            &&& whole.shift_index == state.shift_index
            &&& whole.last_shift_time == second
        }),
{
    let first = (state.last_shift_time + SHIFT_INTERVAL) as u64;
    let second = (state.last_shift_time + 2 * SHIFT_INTERVAL) as u64;
    lemma_shift_alternates(state, config, first);
    lemma_shift_alternates(state.after_tick(config, first), config, second);
}

/// The times of `count` ticks that come `step` apart, the first at time zero.
pub open spec fn regular_ticks(count: nat, step: u64) -> Seq<u64> {
    Seq::new(count, |k: int| (k * step) as u64)
}

/// On regular ticks that divide the shift interval, the shift keeps wall-clock
/// time. Let the ticks come `step` apart from time zero, with `per_interval`
/// of them to a shift interval, and let the shift timer start at zero. As the
/// tick with the number `last` leaves it, the shift has advanced once for
/// every whole interval that has passed: the offset is the one it started
/// with after an even number of intervals and the other one after an odd
/// number, so it repeats every two intervals.
pub proof fn lemma_shift_keeps_time_on_regular_ticks(
    state: DisplayState,
    config: DisplayConfig,
    step: u64,
    per_interval: nat,
    last: nat,
)
    requires
        state.shift_in_step(),
        state.last_shift_time == 0,
        per_interval * step == SHIFT_INTERVAL,
        last * step <= u64::MAX,
    ensures
        ({
            let after = state.after_ticks(config, regular_ticks(last + 1, step));
            let intervals = last * step / (SHIFT_INTERVAL as int);
            &&& intervals == last / per_interval
            &&& after.shift_in_step()
            &&& after.shift_index == (state.shift_index + intervals) % 2
            &&& after.last_shift_time == intervals * SHIFT_INTERVAL
        }),
    decreases last,
{
    let m = per_interval as int;
    let d = step as int;
    let interval = SHIFT_INTERVAL as int;
    assert(m > 0 && d > 0) by (nonlinear_arith)
        requires
            m * d == 60_000_000_000,
            m >= 0,
            d >= 0,
    ;
    let ticks = regular_ticks(last + 1, step);
    let front = regular_ticks(last, step);
    let now = (last * step) as u64;
    assert(ticks.drop_last() =~= front);
    let q = last as int / m;
    let r = last as int % m;
    lemma_fundamental_div_mod(last as int, m);
    assert(last * d == q * interval + r * d && r * d < interval && 0 <= r * d && 0 <= q) by (nonlinear_arith)
        requires
            last == m * q + r,
            interval == m * d,
            0 <= r < m,
            d > 0,
            m > 0,
            last >= 0,
    ;
    lemma_fundamental_div_mod_converse(last * d, interval, q, r * d);
    if last == 0 {
        lemma_shift_alternates(state, config, 0);
    } else {
        let earlier = (last - 1) as nat;
        assert(earlier * d <= last * d) by (nonlinear_arith)
            requires
                earlier == last - 1,
                d > 0,
        ;
        lemma_shift_keeps_time_on_regular_ticks(state, config, step, per_interval, earlier);
        let before = state.after_ticks(config, front);
        let q0 = earlier as int / m;
        let r0 = earlier as int % m;
        lemma_fundamental_div_mod(earlier as int, m);
        assert(last * d - q0 * interval == (r0 + 1) * d) by (nonlinear_arith)
            requires
                last == m * q0 + r0 + 1,
                interval == m * d,
        ;
        lemma_shift_alternates(before, config, now);
        if r0 + 1 == m {
            assert(last == (q0 + 1) * m + 0) by (nonlinear_arith)
                requires
                    last == m * q0 + r0 + 1,
                    r0 + 1 == m,
            ;
            lemma_fundamental_div_mod_converse(last as int, m, q0 + 1, 0);
            assert(last * d == (q0 + 1) * interval) by (nonlinear_arith)
                requires
                    last == m * q0 + r0 + 1,
                    r0 + 1 == m,
                    interval == m * d,
            ;
        } else {
            assert(last == q0 * m + (r0 + 1)) by (nonlinear_arith)
                requires
                    last == m * q0 + r0 + 1,
            ;
            lemma_fundamental_div_mod_converse(last as int, m, q0, r0 + 1);
            assert((r0 + 1) * d < interval) by (nonlinear_arith)
                requires
                    r0 + 1 < m,
                    interval == m * d,
                    d > 0,
            ;
        }
    }
}

/// The shift goes its own way: what a tick does to it depends on the time and
/// on the shift alone, not on dimming, on the periodic cycle or on their
/// settings.
pub proof fn lemma_shift_ignores_other_timers(
    a: DisplayState,
    config_a: DisplayConfig,
    b: DisplayState,
    config_b: DisplayConfig,
    now: u64,
)
    requires
        a.same_shift(b),
    ensures
        a.after_tick(config_a, now).same_shift(b.after_tick(config_b, now)),
{
}

} // verus!
