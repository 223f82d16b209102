//! Two-threshold (hysteresis) control of the cooling fan.
//!
//! Temperatures are signed integers. The controller only compares them, so
//! any scale that keeps the order of the temperatures will do, as long as the
//! thresholds and the samples share it.

use vstd::prelude::*;

verus! {

/// What the fan hardware has to do after a decision.
#[derive(Clone, Copy, Debug, PartialEq, Eq, Structural)]
pub enum FanCommand {
    TurnOn,
    TurnOff,
}

/// Thresholds and commanded state of the fan.
#[derive(Clone, Copy, Debug, PartialEq, Eq, Structural)]
pub struct FanController {
    /// The fan starts when a sample reaches this temperature.
    pub temp_on: i64,
    /// The fan stops when a sample falls to this temperature.
    pub temp_off: i64,
    /// Whether the fan is currently commanded to run.
    pub is_running: bool,
}

impl FanController {
    /// Whether the thresholds leave a dead band between them: `temp_on` lies
    /// above `temp_off`. Without one the fan can be switched by every sample.
    pub open spec fn has_dead_band(self) -> bool {
        self.temp_on > self.temp_off
    }

    /// The command that a sample `temp` calls for in this state.
    pub open spec fn command_for(self, temp: i64) -> Option<FanCommand> {
        if self.is_running && temp <= self.temp_off {
            Some(FanCommand::TurnOff)
        } else if !self.is_running && temp >= self.temp_on {
            Some(FanCommand::TurnOn)
        } else {
            None
        }
    }

    /// The controller after it has seen the sample `temp`.
    pub open spec fn after(self, temp: i64) -> FanController {
        match self.command_for(temp) {
            Some(FanCommand::TurnOn) => FanController { is_running: true, ..self },
            Some(FanCommand::TurnOff) => FanController { is_running: false, ..self },
            None => self,
        }
    }

    /// The controller after it has seen every sample of `temps`, in order.
    pub open spec fn after_all(self, temps: Seq<i64>) -> FanController
        decreases temps.len(),
    {
        if temps.len() == 0 {
            self
        } else {
            self.after_all(temps.drop_last()).after(temps.last())
        }
    }

    /// A controller with the given thresholds whose fan is not running.
    pub fn new(temp_on: i64, temp_off: i64) -> (fan: FanController)
        ensures
            fan == (FanController { temp_on, temp_off, is_running: false }),
    {
        FanController { temp_on, temp_off, is_running: false }
    }

    /// Computes [`Self::has_dead_band`]. `new` does not insist on a dead
    /// band; a caller that wants one asks here.
    pub fn check_dead_band(&self) -> (ordered: bool)
        ensures
            ordered == self.has_dead_band(),
    {
        self.temp_on > self.temp_off
    }

    /// Marks the fan as running and returns the command that starts it.
    pub fn fan_on(&mut self) -> (command: FanCommand)
        ensures
            command == FanCommand::TurnOn,
            *final(self) == (FanController { is_running: true, ..*old(self) }),
    {
        self.is_running = true;
        FanCommand::TurnOn
    }

    /// Marks the fan as stopped and returns the command that stops it.
    pub fn fan_off(&mut self) -> (command: FanCommand)
        ensures
            command == FanCommand::TurnOff,
            *final(self) == (FanController { is_running: false, ..*old(self) }),
    {
        self.is_running = false;
        FanCommand::TurnOff
    }

    /// Feeds one temperature sample to the controller. Returns the command to
    /// carry out, if the sample crosses the threshold that matters in the
    /// current state; between the thresholds nothing changes.
    pub fn decide(&mut self, current_temp: i64) -> (command: Option<FanCommand>)
        ensures
            command == old(self).command_for(current_temp),
            *final(self) == old(self).after(current_temp),
            command is Some <==> final(self).is_running != old(self).is_running,
    {
        if self.is_running {
            if current_temp <= self.temp_off {
                return Some(self.fan_off());
            }
        } else if current_temp >= self.temp_on {
            return Some(self.fan_on());
        }
        None
    }
}

/// Samples that each leave the controller as it is leave it as it is all
/// along.
proof fn lemma_unchanged_all_along(fan: FanController, temps: Seq<i64>)
    requires
        forall|i: int| 0 <= i < temps.len() ==> fan.command_for(#[trigger] temps[i]) is None,
    ensures
        forall|k: int| 0 <= k <= temps.len() ==> #[trigger] fan.after_all(temps.take(k)) == fan,
    decreases temps.len(),
{
    if temps.len() > 0 {
        let front = temps.drop_last();
        lemma_unchanged_all_along(fan, front);
        assert forall|k: int| 0 <= k <= temps.len() implies #[trigger] fan.after_all(temps.take(k))
            == fan by {
            if k < temps.len() {
                assert(temps.take(k) =~= front.take(k));
            } else {
                assert(temps.take(k) =~= temps);
                assert(front.take(front.len() as int) =~= front);
                assert(fan.after_all(front.take(front.len() as int)) == fan);
            }
        }
    }
}

/// A running fan keeps running, and no command is issued, for as long as every
/// sample stays above `temp_off`, however the samples move about below
/// `temp_on`.
pub proof fn lemma_stays_running_above_temp_off(fan: FanController, temps: Seq<i64>)
    requires
        fan.is_running,
        forall|i: int| 0 <= i < temps.len() ==> temps[i] > fan.temp_off,
    ensures
        forall|k: int| 0 <= k <= temps.len() ==> #[trigger] fan.after_all(temps.take(k)) == fan,
        forall|k: int|
            0 <= k < temps.len() ==> (#[trigger] fan.after_all(temps.take(k))).command_for(temps[k])
                is None,
{
    lemma_unchanged_all_along(fan, temps);
}

/// A stopped fan stays stopped, and no command is issued, for as long as every
/// sample stays below `temp_on`.
pub proof fn lemma_stays_stopped_below_temp_on(fan: FanController, temps: Seq<i64>)
    requires
        !fan.is_running,
        forall|i: int| 0 <= i < temps.len() ==> temps[i] < fan.temp_on,
    ensures
        forall|k: int| 0 <= k <= temps.len() ==> #[trigger] fan.after_all(temps.take(k)) == fan,
        forall|k: int|
            0 <= k < temps.len() ==> (#[trigger] fan.after_all(temps.take(k))).command_for(temps[k])
                is None,
{
    lemma_unchanged_all_along(fan, temps);
}

/// Once a sample has turned the fan on, it is not turned off again before a
/// sample falls to `temp_off` or below.
pub proof fn lemma_no_chatter_after_turn_on(fan: FanController, rising: i64, temps: Seq<i64>)
    requires
        fan.command_for(rising) == Some(FanCommand::TurnOn),
        forall|i: int| 0 <= i < temps.len() ==> temps[i] > fan.temp_off,
    ensures
        forall|k: int|
            0 <= k <= temps.len() ==> (#[trigger] fan.after(rising).after_all(
                temps.take(k),
            )).is_running,
        forall|k: int|
            0 <= k < temps.len() ==> (#[trigger] fan.after(rising).after_all(
                temps.take(k),
            )).command_for(temps[k]) is None,
{
    lemma_stays_running_above_temp_off(fan.after(rising), temps);
}

/// The fan changes state only on a threshold: it is turned off only by a
/// sample at or below `temp_off`, and turned on only by one at or above
/// `temp_on`.
pub proof fn lemma_commands_only_at_thresholds(fan: FanController, temp: i64)
    ensures
        fan.command_for(temp) == Some(FanCommand::TurnOff) <==> fan.is_running && temp
            <= fan.temp_off,
        fan.command_for(temp) == Some(FanCommand::TurnOn) <==> !fan.is_running && temp
            >= fan.temp_on,
        fan.after(temp).temp_on == fan.temp_on,
        fan.after(temp).temp_off == fan.temp_off,
        fan.after(temp).is_running != fan.is_running <==> fan.command_for(temp) is Some,
{
}

/// With a dead band, a temperature that holds still switches the fan at most
/// once: the sample that caused a command causes none when it comes again.
/// Without a dead band some temperature switches the fan on every sample.
pub proof fn lemma_steady_temperature_settles(fan: FanController, temp: i64)
    ensures
        fan.has_dead_band() ==> fan.after(temp).command_for(temp) is None,
        fan.has_dead_band() ==> fan.after(temp).after(temp) == fan.after(temp),
        fan.after(temp).has_dead_band() == fan.has_dead_band(),
        !fan.has_dead_band() ==> fan.command_for(fan.temp_on) is Some && fan.after(
            fan.temp_on,
        ).command_for(fan.temp_on) is Some,
{
}

} // verus!
