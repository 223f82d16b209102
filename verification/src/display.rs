//! The display's three timers: a one-shot dimming after a fixed uptime, a
//! periodic power cycle, and a small pixel shift against burn-in.
//!
//! Each timer is a step function on [`DisplayState`]. A step never talks to the
//! display: it updates the state and returns the command that the caller has to
//! send.

use vstd::prelude::*;
use crate::clock::{elapsed, elapsed_since};

verus! {

/// Interval between two pixel shifts: 60 seconds.
pub const SHIFT_INTERVAL: u64 = 60_000_000_000;

/// A displacement of the rendered content, in pixels.
#[derive(Clone, Copy, Debug, PartialEq, Eq, Structural)]
pub struct Offset {
    pub x: i32,
    pub y: i32,
}

/// A command for the display hardware.
#[derive(Clone, Copy, Debug, PartialEq, Eq, Structural)]
pub enum DisplayCommand {
    /// Lower the brightness to its minimum.
    Dim,
    /// Power the panel down.
    PowerOff,
    /// Power the panel up.
    PowerOn,
}

/// Settings of the display timers, fixed for the lifetime of the process.
/// Durations are in nanoseconds.
#[derive(Clone, Copy, Debug, PartialEq, Eq, Structural)]
pub struct DisplayConfig {
    /// Uptime after which the display is dimmed. Zero switches dimming off.
    pub screen_timeout: u64,
    /// Whether the display is powered off and on periodically.
    pub enable_periodic_off: bool,
    /// How long the display stays on in each cycle.
    pub periodic_on_duration: u64,
    /// How long the display stays off in each cycle.
    pub periodic_off_duration: u64,
}

/// Flags and timestamps of the display timers. Times are in nanoseconds on
/// the caller's monotonic clock.
#[derive(Clone, Copy, Debug, PartialEq, Eq, Structural)]
pub struct DisplayState {
    /// When the process started; uptime is measured from here.
    pub start_time: u64,
    /// Set once the display has been dimmed, and never cleared.
    pub screen_dimmed: bool,
    /// Whether the periodic cycle currently has the display powered.
    pub is_display_periodically_on: bool,
    /// When the periodic cycle last switched.
    pub last_periodic_toggle_time: u64,
    /// Position in the shift pattern.
    pub shift_index: usize,
    /// The pattern's entry at `shift_index`, applied to the next rendering.
    pub shift_offset: Offset,
    /// When the shift last advanced.
    pub last_shift_time: u64,
}

/// The offsets that the pixel shift cycles through.
pub open spec fn shift_offsets() -> Seq<Offset> {
    seq![Offset { x: 0, y: 0 }, Offset { x: 1, y: 0 }]
}

/// The offsets that the pixel shift cycles through.
pub fn shift_pattern() -> (pattern: [Offset; 2])
    ensures
        pattern@ == shift_offsets(),
{
    let pattern = [Offset { x: 0, y: 0 }, Offset { x: 1, y: 0 }];
    pattern
}

impl DisplayState {
    /// Whether the dimming is due at `now`: it is enabled, has not happened
    /// yet, and the uptime has reached `timeout`.
    pub open spec fn dims_at(self, now: u64, timeout: u64) -> bool {
        timeout > 0 && !self.screen_dimmed && elapsed(now, self.start_time) >= timeout
    }

    /// The state after the dimming timer has been evaluated at `now`.
    pub open spec fn after_screen_timeout(self, now: u64, timeout: u64) -> DisplayState {
        if self.dims_at(now, timeout) {
            DisplayState { screen_dimmed: true, ..self }
        } else {
            self
        }
    }

    /// Length of the phase of the periodic cycle that the display is in.
    pub open spec fn phase_duration(self, config: DisplayConfig) -> u64 {
        if self.is_display_periodically_on {
            config.periodic_on_duration
        } else {
            config.periodic_off_duration
        }
    }

    /// Whether the periodic cycle switches at `now`: it is enabled and the
    /// current phase has lasted its full duration.
    pub open spec fn toggles_at(self, config: DisplayConfig, now: u64) -> bool {
        config.enable_periodic_off && elapsed(now, self.last_periodic_toggle_time)
            >= self.phase_duration(config)
    }

    /// The power command that the periodic cycle issues at `now`, if any.
    pub open spec fn periodic_command(
        self,
        config: DisplayConfig,
        now: u64,
    ) -> Option<DisplayCommand> {
        if !self.toggles_at(config, now) {
            None
        } else if self.is_display_periodically_on {
            Some(DisplayCommand::PowerOff)
        } else {
            Some(DisplayCommand::PowerOn)
        }
    }

    /// The state after the periodic cycle has been evaluated at `now`.
    pub open spec fn after_periodic(self, config: DisplayConfig, now: u64) -> DisplayState {
        if self.toggles_at(config, now) {
            DisplayState {
                is_display_periodically_on: !self.is_display_periodically_on,
                last_periodic_toggle_time: now,
                ..self
            }
        } else {
            self
        }
    }

    /// Whether the pixel shift advances at `now`.
    pub open spec fn shifts_at(self, now: u64, interval: u64) -> bool {
        elapsed(now, self.last_shift_time) >= interval
    }

    /// The state after the pixel shift has been evaluated at `now` against a
    /// non-empty `pattern`.
    pub open spec fn after_shift(self, now: u64, interval: u64, pattern: Seq<Offset>) -> DisplayState
        recommends
            pattern.len() > 0,
    {
        if self.shifts_at(now, interval) {
            let next = (self.shift_index + 1) % (pattern.len() as int);
            DisplayState {
                shift_index: next as usize,
                shift_offset: pattern[next],
                last_shift_time: now,
                ..self
            }
        } else {
            self
        }
    }

    /// The state after one whole tick at `now`: dimming, periodic cycle and
    /// pixel shift, in that order.
    pub open spec fn after_tick(self, config: DisplayConfig, now: u64) -> DisplayState {
        let dimmed = self.after_screen_timeout(now, config.screen_timeout);
        let cycled = dimmed.after_periodic(config, now);
        cycled.after_shift(now, SHIFT_INTERVAL, shift_offsets())
    }

    /// The commands that one whole tick at `now` issues, in the order in which
    /// they have to be sent.
    pub open spec fn tick_commands(self, config: DisplayConfig, now: u64) -> Seq<DisplayCommand> {
        let dim = if self.dims_at(now, config.screen_timeout) {
            seq![DisplayCommand::Dim]
        } else {
            Seq::empty()
        };
        let power = match self.periodic_command(config, now) {
            Some(command) => seq![command],
            None => Seq::empty(),
        };
        dim + power
    }

    /// The state after a run of ticks at the given times, in order.
    pub open spec fn after_ticks(self, config: DisplayConfig, times: Seq<u64>) -> DisplayState
        decreases times.len(),
    {
        if times.len() == 0 {
            self
        } else {
            self.after_ticks(config, times.drop_last()).after_tick(config, times.last())
        }
    }

    /// How many `Dim` commands a run of ticks at the given times issues.
    pub open spec fn dims_during(self, config: DisplayConfig, times: Seq<u64>) -> nat
        decreases times.len(),
    {
        if times.len() == 0 {
            0
        } else {
            let before = self.after_ticks(config, times.drop_last());
            let last: nat = if before.dims_at(times.last(), config.screen_timeout) {
                1
            } else {
                0
            };
            self.dims_during(config, times.drop_last()) + last
        }
    }

    /// Whether, as a tick at `at` leaves it, the current phase of the periodic
    /// cycle is short of its duration: it began at `at`, or it has lasted less
    /// than its duration.
    pub open spec fn phase_in_time(self, config: DisplayConfig, at: u64) -> bool {
        self.last_periodic_toggle_time == at || (self.last_periodic_toggle_time <= at && at
            - self.last_periodic_toggle_time < self.phase_duration(config))
    }

    /// Whether the shift cursor points into the pattern and the offset is the
    /// entry it points at.
    pub open spec fn shift_in_step(self) -> bool {
        self.shift_index < shift_offsets().len() && self.shift_offset
            == shift_offsets()[self.shift_index as int]
    }

    /// Whether two states agree on everything that the pixel shift reads and
    /// writes.
    pub open spec fn same_shift(self, other: DisplayState) -> bool {
        &&& self.shift_index == other.shift_index
        &&& self.shift_offset == other.shift_offset
        &&& self.last_shift_time == other.last_shift_time
    }

    /// The state at process start: not dimmed, powered on, shift at the first
    /// entry of the pattern, every timer started at `now`.
    pub fn new(now: u64) -> (state: DisplayState)
        ensures
            state == (DisplayState {
                start_time: now,
                screen_dimmed: false,
                is_display_periodically_on: true,
                last_periodic_toggle_time: now,
                shift_index: 0,
                shift_offset: Offset { x: 0, y: 0 },
                last_shift_time: now,
            }),
            state.shift_in_step(),
    {
        DisplayState {
            start_time: now,
            screen_dimmed: false,
            is_display_periodically_on: true,
            last_periodic_toggle_time: now,
            shift_index: 0,
            shift_offset: Offset { x: 0, y: 0 },
            last_shift_time: now,
        }
    }
}

/// Dims the display once the uptime reaches `timeout_duration`. Returns
/// `Dim` on the one tick on which that happens; a zero `timeout_duration`
/// never dims.
pub fn handle_screen_timeout(
    now: u64,
    timeout_duration: u64,
    state: &mut DisplayState,
) -> (command: Option<DisplayCommand>)
    ensures
        *final(state) == old(state).after_screen_timeout(now, timeout_duration),
        command == if old(state).dims_at(now, timeout_duration) {
            Some(DisplayCommand::Dim)
        } else {
            None
        },
{
    let elapsed_time = elapsed_since(now, state.start_time);
    if timeout_duration > 0 && !state.screen_dimmed && elapsed_time >= timeout_duration {
        state.screen_dimmed = true;
        return Some(DisplayCommand::Dim);
    }
    None
}

/// Runs the periodic power cycle: once the current phase has lasted its
/// duration, switches to the other phase, restarts the phase timer at `now`
/// and returns the power command. Does nothing when the cycle is disabled.
pub fn handle_periodic_display(
    config: &DisplayConfig,
    now: u64,
    state: &mut DisplayState,
) -> (command: Option<DisplayCommand>)
    ensures
        *final(state) == old(state).after_periodic(*config, now),
        command == old(state).periodic_command(*config, now),
{
    if config.enable_periodic_off {
        let time_since_last_toggle = elapsed_since(now, state.last_periodic_toggle_time);
        if state.is_display_periodically_on && time_since_last_toggle
            >= config.periodic_on_duration {
            state.is_display_periodically_on = false;
            state.last_periodic_toggle_time = now;
            return Some(DisplayCommand::PowerOff);
        } else if !state.is_display_periodically_on && time_since_last_toggle
            >= config.periodic_off_duration {
            state.is_display_periodically_on = true;
            state.last_periodic_toggle_time = now;
            return Some(DisplayCommand::PowerOn);
        }
    }
    None
}

/// The successor of `index` on a cycle of `len` positions.
fn next_on_cycle(index: usize, len: usize) -> (next: usize)
    requires
        len > 0,
    ensures
        next == (index + 1) % (len as int),
{
    let at = index % len;
    assert((index + 1) % (len as int) == if at == len - 1 {
        0
    } else {
        at + 1
    }) by (nonlinear_arith)
        requires
            len > 0,
            index >= 0,
            at == index % len,
    ;
    if at == len - 1 {
        0
    } else {
        at + 1
    }
}

/// Advances the pixel shift once `shift_interval` has passed since it last
/// advanced: moves to the next entry of `shift_pattern`, wrapping round at its
/// end, and restarts the shift timer at `now`.
pub fn update_pixel_shift(
    now: u64,
    shift_interval: u64,
    shift_pattern: &[Offset],
    state: &mut DisplayState,
)
    requires
        shift_pattern@.len() > 0,
    ensures
        *final(state) == old(state).after_shift(now, shift_interval, shift_pattern@),
{
    if elapsed_since(now, state.last_shift_time) >= shift_interval {
        let next = next_on_cycle(state.shift_index, shift_pattern.len());
        state.shift_index = next;
        state.shift_offset = shift_pattern[next];
        state.last_shift_time = now;
    }
}

impl DisplayState {
    /// Evaluates the three timers at `now`, in their fixed order: dimming,
    /// periodic cycle, pixel shift. Returns the commands to send, in order.
    pub fn tick(&mut self, config: &DisplayConfig, now: u64) -> (commands: Vec<DisplayCommand>)
        ensures
            *final(self) == old(self).after_tick(*config, now),
            commands@ == old(self).tick_commands(*config, now),
            old(self).shift_in_step() ==> final(self).shift_in_step(),
    {
        let mut commands: Vec<DisplayCommand> = Vec::new();
        if let Some(command) = handle_screen_timeout(now, config.screen_timeout, self) {
            commands.push(command);
        }
        if let Some(command) = handle_periodic_display(config, now, self) {
            commands.push(command);
        }
        let pattern = shift_pattern();
        update_pixel_shift(now, SHIFT_INTERVAL, pattern.as_slice(), self);
        commands
    }

    /// Where to render, if at all: the current shift offset while the periodic
    /// cycle has the display powered, nothing while it is off.
    pub fn render_offset(&self) -> (offset: Option<Offset>)
        ensures
            offset == if self.is_display_periodically_on {
                Some(self.shift_offset)
            } else {
                None
            },
    {
        if self.is_display_periodically_on {
            Some(self.shift_offset)
        } else {
            None
        }
    }
}

} // verus!
