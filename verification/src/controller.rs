//! The sequence of the incubator: a splash screen, then an endless cycle that reads
//! both sensors, switches the relays and shows one frame.
//!
//! The controller names the action to carry out next, and is then told its outcome.

use vstd::prelude::*;

use crate::label::{Label, Notice};
use crate::relay::{spec_switching, switching, PinWrite, Relays, Switching};
use crate::temperature::Temperature;

verus! {

/// How long the splash screen stays, in seconds.
pub const SPLASH_SECONDS: u64 = 3;

/// How long a frame stays, in seconds.
pub const FRAME_SECONDS: u64 = 2;

/// How long the DS18B20 may take for one measurement, in milliseconds.
pub const MEASUREMENT_MILLIS: u64 = 750;

/// What the controller wants done.
#[derive(Clone, Copy, Debug, PartialEq, Eq, Structural)]
pub enum Action {
    /// Initialise the screen.
    InitDisplay,
    /// Blank the picture in memory.
    Clear,
    /// Draw a label into the picture in memory.
    Draw(Label),
    /// Show the picture on the screen.
    Flush,
    /// Let this many seconds pass.
    Wait(u64),
    /// Print a notice on the serial port.
    Log(Notice),
    /// Tell the DS18B20 to measure.
    StartMeasurement,
    /// Read the last completed measurement of the DS18B20.
    ReadTemperature,
    /// Read the DHT11.
    ReadHumidity,
    /// Write one relay pin.
    Switch(PinWrite),
}

/// How an action went.
#[derive(Clone, Copy, Debug, PartialEq, Eq, Structural)]
pub enum Outcome {
    /// The action succeeded.
    Done,
    /// The action failed.
    Failed,
    /// The DS18B20 gave a temperature.
    Temperature(Temperature),
    /// The DHT11 gave a relative humidity, in percent.
    Humidity(u8),
}

/// The step that the controller has reached.
#[derive(Clone, Copy, Debug, PartialEq, Eq, Structural)]
pub enum Stage {
    InitDisplay,
    DrawSplash,
    FlushSplash,
    HoldSplash,
    WipeSplash,
    FlushWiped,
    ClearFrame,
    LogCycle,
    DrawTitle,
    StartMeasurement,
    ReadTemperature,
    DrawTemperature(Temperature),
    DrawTemperatureError,
    SwitchFirst(Switching),
    SwitchSecond(Switching),
    ReadHumidity,
    DrawHumidity(u8),
    DrawHumidityError,
    FlushFrame,
    HoldFrame,
    WipeFrame,
    /// An action that must succeed failed: the incubator has stopped.
    Halted,
}

/// The stage of the incubator and the levels of its relay pins.
#[derive(Clone, Copy, Debug, PartialEq, Eq, Structural)]
pub struct Controller {
    pub stage: Stage,
    pub relays: Relays,
}

impl Action {
    /// The action must succeed for the incubator to go on.
    pub open spec fn must_succeed(self) -> bool {
        match self {
            Action::InitDisplay | Action::Draw(_) | Action::Flush | Action::StartMeasurement => true,
            _ => false,
        }
    }
}

impl Stage {
    /// The action of a stage.
    pub open spec fn spec_action(self) -> Action {
        match self {
            Stage::InitDisplay => Action::InitDisplay,
            Stage::DrawSplash => Action::Draw(Label::Splash),
            Stage::FlushSplash => Action::Flush,
            Stage::HoldSplash => Action::Wait(SPLASH_SECONDS),
            Stage::WipeSplash => Action::Clear,
            Stage::FlushWiped => Action::Flush,
            Stage::ClearFrame => Action::Clear,
            Stage::LogCycle => Action::Log(Notice::Cycle),
            Stage::DrawTitle => Action::Draw(Label::Title),
            Stage::StartMeasurement => Action::StartMeasurement,
            Stage::ReadTemperature => Action::ReadTemperature,
            Stage::DrawTemperature(t) => Action::Draw(Label::Temperature(t)),
            Stage::DrawTemperatureError => Action::Draw(Label::TemperatureError),
            Stage::SwitchFirst(writes) => Action::Switch(writes.first),
            Stage::SwitchSecond(writes) => Action::Switch(writes.second),
            Stage::ReadHumidity => Action::ReadHumidity,
            Stage::DrawHumidity(percent) => Action::Draw(Label::Humidity(percent)),
            Stage::DrawHumidityError => Action::Draw(Label::HumidityError),
            Stage::FlushFrame => Action::Flush,
            Stage::HoldFrame => Action::Wait(FRAME_SECONDS),
            Stage::WipeFrame => Action::Clear,
            Stage::Halted => Action::Log(Notice::Panic),
        }
    }

    /// The stage that follows when the action of this one has not stopped the
    /// incubator. A sensor that gave no reading of its kind could not be read.
    pub open spec fn following(self, outcome: Outcome) -> Stage {
        match self {
            Stage::InitDisplay => Stage::DrawSplash,
            Stage::DrawSplash => Stage::FlushSplash,
            Stage::FlushSplash => Stage::HoldSplash,
            Stage::HoldSplash => Stage::WipeSplash,
            Stage::WipeSplash => Stage::FlushWiped,
            Stage::FlushWiped => Stage::ClearFrame,
            Stage::ClearFrame => Stage::LogCycle,
            Stage::LogCycle => Stage::DrawTitle,
            Stage::DrawTitle => Stage::StartMeasurement,
            Stage::StartMeasurement => Stage::ReadTemperature,
            Stage::ReadTemperature => match outcome {
                Outcome::Temperature(t) => Stage::DrawTemperature(t),
                _ => Stage::DrawTemperatureError,
            },
            Stage::DrawTemperature(t) => match spec_switching(t) {
                Some(writes) => Stage::SwitchFirst(writes),
                None => Stage::ReadHumidity,
            },
            Stage::DrawTemperatureError => Stage::ReadHumidity,
            Stage::SwitchFirst(writes) => Stage::SwitchSecond(writes),
            Stage::SwitchSecond(_) => Stage::ReadHumidity,
            Stage::ReadHumidity => match outcome {
                Outcome::Humidity(percent) => Stage::DrawHumidity(percent),
                _ => Stage::DrawHumidityError,
            },
            Stage::DrawHumidity(_) => Stage::FlushFrame,
            Stage::DrawHumidityError => Stage::FlushFrame,
            Stage::FlushFrame => Stage::HoldFrame,
            Stage::HoldFrame => Stage::WipeFrame,
            Stage::WipeFrame => Stage::ClearFrame,
            Stage::Halted => Stage::Halted,
        }
    }
}

impl Controller {
    /// The controller before its first action, with both relays at rest.
    pub open spec fn spec_start() -> Controller {
        Controller { stage: Stage::InitDisplay, relays: Relays::spec_at_rest() }
    }

    /// The invariant: the two systems are not on together, and two pin writes under
    /// way turn one system off before they reach the other.
    pub open spec fn well_formed(self) -> bool {
        &&& self.relays.exclusive()
        &&& match self.stage {
            Stage::SwitchFirst(writes) => writes.breaks_first(),
            Stage::SwitchSecond(writes) => {
                &&& writes.breaks_first()
                &&& self.relays == self.relays.after_write(writes.first)
            },
            _ => true,
        }
    }

    /// The controller after its action had the given outcome.
    pub open spec fn next(self, outcome: Outcome) -> Controller {
        let action = self.stage.spec_action();
        Controller {
            stage: if outcome == Outcome::Failed && action.must_succeed() {
                Stage::Halted
            } else {
                self.stage.following(outcome)
            },
            relays: match action {
                Action::Switch(write) => self.relays.after_write(write),
                _ => self.relays,
            },
        }
    }

    /// The controller after a row of outcomes.
    pub open spec fn run(self, outcomes: Seq<Outcome>) -> Controller
        decreases outcomes.len(),
    {
        if outcomes.len() == 0 {
            self
        } else {
            self.next(outcomes[0]).run(outcomes.drop_first())
        }
    }

    /// The actions that had a row of outcomes.
    pub open spec fn actions(self, outcomes: Seq<Outcome>) -> Seq<Action>
        decreases outcomes.len(),
    {
        if outcomes.len() == 0 {
            Seq::empty()
        } else {
            seq![self.stage.spec_action()] + self.next(outcomes[0]).actions(outcomes.drop_first())
        }
    }

    /// The controller before its first action, with both relays at rest.
    pub fn start() -> (controller: Controller)
        ensures
            controller == Controller::spec_start(),
            controller.well_formed(),
    {
        Controller { stage: Stage::InitDisplay, relays: Relays::at_rest() }
    }

    /// The action to carry out now.
    pub fn action(&self) -> (action: Action)
        ensures
            action == self.stage.spec_action(),
    {
        match self.stage {
            Stage::InitDisplay => Action::InitDisplay,
            Stage::DrawSplash => Action::Draw(Label::Splash),
            Stage::FlushSplash => Action::Flush,
            Stage::HoldSplash => Action::Wait(SPLASH_SECONDS),
            Stage::WipeSplash => Action::Clear,
            Stage::FlushWiped => Action::Flush,
            Stage::ClearFrame => Action::Clear,
            Stage::LogCycle => Action::Log(Notice::Cycle),
            Stage::DrawTitle => Action::Draw(Label::Title),
            Stage::StartMeasurement => Action::StartMeasurement,
            Stage::ReadTemperature => Action::ReadTemperature,
            Stage::DrawTemperature(t) => Action::Draw(Label::Temperature(t)),
            Stage::DrawTemperatureError => Action::Draw(Label::TemperatureError),
            Stage::SwitchFirst(writes) => Action::Switch(writes.first),
            Stage::SwitchSecond(writes) => Action::Switch(writes.second),
            Stage::ReadHumidity => Action::ReadHumidity,
            Stage::DrawHumidity(percent) => Action::Draw(Label::Humidity(percent)),
            Stage::DrawHumidityError => Action::Draw(Label::HumidityError),
            Stage::FlushFrame => Action::Flush,
            Stage::HoldFrame => Action::Wait(FRAME_SECONDS),
            Stage::WipeFrame => Action::Clear,
            Stage::Halted => Action::Log(Notice::Panic),
        }
    }

    /// Takes note of how the current action went, and moves on.
    pub fn advance(&mut self, outcome: Outcome)
        ensures
            *final(self) == old(self).next(outcome),
            old(self).well_formed() ==> final(self).well_formed(),
    {
        let action = self.action();
        match action {
            Action::Switch(write) => {
                self.relays.write(write);
            },
            _ => {},
        }
        let failed = match outcome {
            Outcome::Failed => true,
            _ => false,
        };
        let needed = match action {
            Action::InitDisplay | Action::Draw(_) | Action::Flush | Action::StartMeasurement => true,
            _ => false,
        };
        self.stage = if failed && needed {
            Stage::Halted
        } else {
            self.follow(outcome)
        };
    }

    /// The stage that follows when the action has not stopped the incubator.
    fn follow(&self, outcome: Outcome) -> (stage: Stage)
        ensures
            stage == self.stage.following(outcome),
    {
        match self.stage {
            Stage::InitDisplay => Stage::DrawSplash,
            Stage::DrawSplash => Stage::FlushSplash,
            Stage::FlushSplash => Stage::HoldSplash,
            Stage::HoldSplash => Stage::WipeSplash,
            Stage::WipeSplash => Stage::FlushWiped,
            Stage::FlushWiped => Stage::ClearFrame,
            Stage::ClearFrame => Stage::LogCycle,
            Stage::LogCycle => Stage::DrawTitle,
            Stage::DrawTitle => Stage::StartMeasurement,
            Stage::StartMeasurement => Stage::ReadTemperature,
            Stage::ReadTemperature => match outcome {
                Outcome::Temperature(t) => Stage::DrawTemperature(t),
                _ => Stage::DrawTemperatureError,
            },
            Stage::DrawTemperature(t) => match switching(t) {
                Some(writes) => Stage::SwitchFirst(writes),
                None => Stage::ReadHumidity,
            },
            Stage::DrawTemperatureError => Stage::ReadHumidity,
            Stage::SwitchFirst(writes) => Stage::SwitchSecond(writes),
            Stage::SwitchSecond(_) => Stage::ReadHumidity,
            Stage::ReadHumidity => match outcome {
                Outcome::Humidity(percent) => Stage::DrawHumidity(percent),
                _ => Stage::DrawHumidityError,
            },
            Stage::DrawHumidity(_) => Stage::FlushFrame,
            Stage::DrawHumidityError => Stage::FlushFrame,
            Stage::FlushFrame => Stage::HoldFrame,
            Stage::HoldFrame => Stage::WipeFrame,
            Stage::WipeFrame => Stage::ClearFrame,
            Stage::Halted => Stage::Halted,
        }
    }
}

} // verus!
