use couveuse::controller::{Action, Controller, Outcome, Stage};
use couveuse::label::{Label, Notice};
use couveuse::relay::{switching, Level, Relays};
use couveuse::temperature::Temperature;

const OFF: Relays = Relays { cooling: Level::High, heating: Level::High };
const HEATING: Relays = Relays { cooling: Level::High, heating: Level::Low };
const COOLING: Relays = Relays { cooling: Level::Low, heating: Level::High };

fn at(sixteenths: i32) -> Temperature {
    Temperature { sixteenths }
}

/// Gives each sensor reading, lets all else succeed, and stops before the next frame.
fn cycle(controller: &mut Controller, t: Option<Temperature>, h: Option<u8>) -> Vec<Action> {
    let mut actions = Vec::new();
    loop {
        let action = controller.action();
        actions.push(action);
        controller.advance(match action {
            Action::ReadTemperature => t.map_or(Outcome::Failed, Outcome::Temperature),
            Action::ReadHumidity => h.map_or(Outcome::Failed, Outcome::Humidity),
            _ => Outcome::Done,
        });
        if controller.stage == Stage::ClearFrame {
            return actions;
        }
    }
}

fn started() -> Controller {
    let mut controller = Controller::start();
    for _ in 0..6 {
        controller.advance(Outcome::Done);
    }
    controller
}

#[test]
fn startup_shows_the_splash_for_three_seconds() {
    let mut controller = Controller::start();
    assert_eq!(controller.relays, OFF);
    let actions = cycle(&mut controller, None, None);
    assert_eq!(
        actions,
        vec![
            Action::InitDisplay,
            Action::Draw(Label::Splash),
            Action::Flush,
            Action::Wait(3),
            Action::Clear,
            Action::Flush,
        ]
    );
    assert_eq!(controller, Controller { stage: Stage::ClearFrame, relays: OFF });
}

#[test]
fn cold_cycle() {
    let mut controller = started();
    let t = at(590);
    let writes = switching(t).unwrap();
    assert_eq!(
        cycle(&mut controller, Some(t), Some(55)),
        vec![
            Action::Clear,
            Action::Log(Notice::Cycle),
            Action::Draw(Label::Title),
            Action::StartMeasurement,
            Action::ReadTemperature,
            Action::Draw(Label::Temperature(t)),
            Action::Switch(writes.first),
            Action::Switch(writes.second),
            Action::ReadHumidity,
            Action::Draw(Label::Humidity(55)),
            Action::Flush,
            Action::Wait(2),
            Action::Clear,
        ]
    );
    assert_eq!(controller, Controller { stage: Stage::ClearFrame, relays: HEATING });
}

#[test]
fn cycle_on_the_threshold_writes_no_pin() {
    let mut controller = started();
    cycle(&mut controller, Some(at(590)), Some(55));
    let actions = cycle(&mut controller, Some(at(600)), Some(55));
    assert_eq!(actions.len(), 11);
    assert_eq!(controller.relays, HEATING);
}

#[test]
fn failed_clear_changes_nothing_in_a_cycle() {
    let mut smooth = started();
    let expected = cycle(&mut smooth, Some(at(700)), Some(55));
    let mut controller = started();
    let mut actions = Vec::new();
    loop {
        let action = controller.action();
        actions.push(action);
        controller.advance(match action {
            Action::Clear => Outcome::Failed,
            Action::ReadTemperature => Outcome::Temperature(at(700)),
            Action::ReadHumidity => Outcome::Humidity(55),
            _ => Outcome::Done,
        });
        if controller.stage == Stage::ClearFrame {
            break;
        }
    }
    assert_eq!(actions, expected);
    assert_eq!(controller, smooth);
}

#[test]
fn cycle_without_readings_shows_errors_and_keeps_the_relays() {
    let mut controller = started();
    cycle(&mut controller, Some(at(700)), Some(55));
    assert_eq!(controller.relays, COOLING);
    assert_eq!(
        cycle(&mut controller, None, None),
        vec![
            Action::Clear,
            Action::Log(Notice::Cycle),
            Action::Draw(Label::Title),
            Action::StartMeasurement,
            Action::ReadTemperature,
            Action::Draw(Label::TemperatureError),
            Action::ReadHumidity,
            Action::Draw(Label::HumidityError),
            Action::Flush,
            Action::Wait(2),
            Action::Clear,
        ]
    );
    assert_eq!(controller.relays, COOLING);
}

#[test]
fn reading_of_the_wrong_kind_is_no_reading() {
    let mut controller = Controller { stage: Stage::ReadTemperature, relays: OFF };
    controller.advance(Outcome::Humidity(40));
    assert_eq!(controller.stage, Stage::DrawTemperatureError);
    let mut controller = Controller { stage: Stage::ReadHumidity, relays: OFF };
    controller.advance(Outcome::Done);
    assert_eq!(controller.stage, Stage::DrawHumidityError);
}

#[test]
fn relays_follow_the_temperatures_of_many_cycles() {
    let mut controller = started();
    let expected = [
        (Some(85 * 16), COOLING),
        (Some(560), HEATING),
        (Some(599), HEATING),
        (Some(600), HEATING),
        (Some(601), OFF),
        (None, OFF),
        (Some(605), COOLING),
        (Some(604), OFF),
        (Some(600), OFF),
    ];
    for (sixteenths, relays) in expected {
        cycle(&mut controller, sixteenths.map(at), Some(50));
        assert_eq!(controller.relays, relays);
    }
}

#[test]
fn failures_that_stop_the_incubator() {
    let needed = [
        Stage::InitDisplay,
        Stage::DrawSplash,
        Stage::FlushSplash,
        Stage::FlushWiped,
        Stage::DrawTitle,
        Stage::StartMeasurement,
        Stage::DrawTemperature(at(700)),
        Stage::DrawTemperatureError,
        Stage::DrawHumidity(1),
        Stage::DrawHumidityError,
        Stage::FlushFrame,
    ];
    for stage in needed {
        let mut controller = Controller { stage, relays: HEATING };
        controller.advance(Outcome::Failed);
        assert_eq!(controller, Controller { stage: Stage::Halted, relays: HEATING });
    }
}

#[test]
fn failures_that_are_passed_over() {
    let tolerated = [
        (Stage::WipeSplash, Stage::FlushWiped),
        (Stage::ClearFrame, Stage::LogCycle),
        (Stage::WipeFrame, Stage::ClearFrame),
        (Stage::ReadTemperature, Stage::DrawTemperatureError),
        (Stage::ReadHumidity, Stage::DrawHumidityError),
    ];
    for (stage, next) in tolerated {
        let mut controller = Controller { stage, relays: COOLING };
        controller.advance(Outcome::Failed);
        assert_eq!(controller, Controller { stage: next, relays: COOLING });
    }
}

#[test]
fn stopped_incubator_stays_stopped() {
    let mut controller = Controller { stage: Stage::Halted, relays: COOLING };
    let outcomes =
        [Outcome::Done, Outcome::Failed, Outcome::Temperature(at(590)), Outcome::Humidity(9)];
    for outcome in outcomes {
        assert_eq!(controller.action(), Action::Log(Notice::Panic));
        controller.advance(outcome);
        assert_eq!(controller, Controller { stage: Stage::Halted, relays: COOLING });
    }
}

#[test]
fn systems_never_overlap_in_a_long_run() {
    let mut controller = Controller::start();
    let readings = [700, 500, 600, 602, 500, 700, 604, 605, 599];
    let mut i = 0;
    for _ in 0..2000 {
        let outcome = match controller.action() {
            Action::ReadTemperature => {
                i += 1;
                if i % 4 == 0 {
                    Outcome::Failed
                } else {
                    Outcome::Temperature(at(readings[i % readings.len()]))
                }
            }
            Action::ReadHumidity => Outcome::Humidity((i % 100) as u8),
            _ => Outcome::Done,
        };
        controller.advance(outcome);
        assert!(controller.relays.cooling == Level::High || controller.relays.heating == Level::High);
    }
}

#[test]
fn two_seconds_pass_between_measurements() {
    let mut controller = started();
    let mut waited = None;
    for _ in 0..200 {
        match controller.action() {
            Action::StartMeasurement => {
                if let Some(seconds) = waited {
                    assert_eq!(seconds, 2);
                }
                waited = Some(0);
            }
            Action::Wait(seconds) => waited = waited.map(|total| total + seconds),
            _ => {}
        }
        controller.advance(Outcome::Done);
    }
    assert!(waited.is_some());
}
