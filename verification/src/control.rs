//! One tick of the control loop: the display timers, then the fan, then the
//! decision whether to render.
//!
//! The loop itself, with its clock, its sensors and its sleep, belongs to the
//! caller. A tick falls into two halves because the sensors are read between
//! them: [`ControlLoop::begin_tick`] takes the time and steps the display,
//! [`ControlLoop::finish_tick`] takes the temperature, steps the fan and says
//! where to render. [`ControlLoop::tick`] is both in one call.

use vstd::prelude::*;
use crate::display::{DisplayCommand, DisplayConfig, DisplayState, Offset};
use crate::fan::{FanCommand, FanController};

verus! {

/// Everything that the loop carries from one tick to the next.
#[derive(Clone, Copy, Debug, PartialEq, Eq, Structural)]
pub struct ControlLoop {
    pub config: DisplayConfig,
    pub fan: FanController,
    pub display: DisplayState,
}

/// What the caller has to do after a tick, in this order: send the display
/// commands, send the fan command, render.
#[derive(Debug, PartialEq, Eq)]
pub struct TickActions {
    /// Commands for the display, in the order in which to send them.
    pub display: Vec<DisplayCommand>,
    /// Command for the fan, if its state changed.
    pub fan: Option<FanCommand>,
    /// Offset at which to render the fresh statistics; `None` while the
    /// display is powered off, when nothing is rendered.
    pub render: Option<Offset>,
}

impl ControlLoop {
    /// The loop after the display half of a tick at `now`.
    pub open spec fn after_display(self, now: u64) -> ControlLoop {
        ControlLoop { display: self.display.after_tick(self.config, now), ..self }
    }

    /// The loop after the fan half of a tick with the sample `cpu_temp`.
    pub open spec fn after_fan(self, cpu_temp: i64) -> ControlLoop {
        ControlLoop { fan: self.fan.after(cpu_temp), ..self }
    }

    /// The loop after a whole tick.
    pub open spec fn after_tick(self, now: u64, cpu_temp: i64) -> ControlLoop {
        self.after_display(now).after_fan(cpu_temp)
    }

    /// Where the loop renders in its current state: at the shift offset while
    /// the display is powered, nowhere while it is off.
    pub open spec fn render_target(self) -> Option<Offset> {
        if self.display.is_display_periodically_on {
            Some(self.display.shift_offset)
        } else {
            None
        }
    }

    /// A loop that starts at `now` with a stopped fan and a fresh display
    /// state.
    pub fn new(config: DisplayConfig, temp_on: i64, temp_off: i64, now: u64) -> (control: ControlLoop)
        ensures
            control.config == config,
            control.fan == (FanController { temp_on, temp_off, is_running: false }),
            control.display == (DisplayState {
                start_time: now,
                screen_dimmed: false,
                is_display_periodically_on: true,
                last_periodic_toggle_time: now,
                shift_index: 0,
                shift_offset: Offset { x: 0, y: 0 },
                last_shift_time: now,
            }),
    {
        ControlLoop {
            config,
            fan: FanController::new(temp_on, temp_off),
            display: DisplayState::new(now),
        }
    }

    /// First half of a tick: evaluates the display timers at `now` and
    /// returns the display commands to send, in order. The fan is not
    /// touched.
    pub fn begin_tick(&mut self, now: u64) -> (commands: Vec<DisplayCommand>)
        ensures
            *final(self) == old(self).after_display(now),
            commands@ == old(self).display.tick_commands(old(self).config, now),
    {
        let config = self.config;
        self.display.tick(&config, now)
    }

    /// Second half of a tick: feeds `cpu_temp` to the fan controller and
    /// returns its command together with the place to render. The place is
    /// `Some` exactly while the display is powered, so nothing is ever
    /// rendered to a display that the periodic cycle has switched off.
    pub fn finish_tick(&mut self, cpu_temp: i64) -> (actions: (Option<FanCommand>, Option<Offset>))
        ensures
            *final(self) == old(self).after_fan(cpu_temp),
            actions.0 == old(self).fan.command_for(cpu_temp),
            actions.1 == old(self).render_target(),
            actions.1 is Some <==> final(self).display.is_display_periodically_on,
    {
        let fan = self.fan.decide(cpu_temp);
        let render = self.display.render_offset();
        (fan, render)
    }

    /// A whole tick at `now` with the sample `cpu_temp`.
    pub fn tick(&mut self, now: u64, cpu_temp: i64) -> (actions: TickActions)
        ensures
            *final(self) == old(self).after_tick(now, cpu_temp),
            actions.display@ == old(self).display.tick_commands(old(self).config, now),
            actions.fan == old(self).fan.command_for(cpu_temp),
            actions.render == final(self).render_target(),
            actions.render is Some <==> final(self).display.is_display_periodically_on,
    {
        let display = self.begin_tick(now);
        let (fan, render) = self.finish_tick(cpu_temp);
        TickActions { display, fan, render }
    }
}

/// The display goes by the time and its own state alone, whatever the fan
/// does and whatever the temperature is; and its pixel shift goes by the time
/// and the shift alone, whatever the rest of the display does.
pub proof fn lemma_display_ignores_fan(
    a: ControlLoop,
    b: ControlLoop,
    now: u64,
    temp_a: i64,
    temp_b: i64,
)
    ensures
        a.display == b.display && a.config == b.config ==> a.after_tick(now, temp_a).display
            == b.after_tick(now, temp_b).display,
        a.display.same_shift(b.display) ==> a.after_tick(now, temp_a).display.same_shift(
            b.after_tick(now, temp_b).display,
        ),
{
}

/// The fan goes by the temperature and its own state alone, whatever the time
/// is and whatever the display does.
pub proof fn lemma_fan_ignores_display(
    a: ControlLoop,
    b: ControlLoop,
    now_a: u64,
    now_b: u64,
    temp: i64,
)
    ensures
        a.fan == b.fan ==> a.after_tick(now_a, temp).fan == b.after_tick(now_b, temp).fan,
{
}

} // verus!
