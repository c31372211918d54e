//! What holds of every run of the controller.

use vstd::prelude::*;

use crate::controller::{
    Action, Controller, Outcome, Stage, FRAME_SECONDS, MEASUREMENT_MILLIS, SPLASH_SECONDS,
};
use crate::label::{Label, Notice};
use crate::relay::{spec_switching, Level, PinWrite, Relays, System};
use crate::temperature::Temperature;

verus! {

/// What may differ between cycles that are carried out to the end.
pub struct Cycle {
    /// How blanking the picture went at the beginning.
    pub cleared: Outcome,
    /// The temperature, `None` where the DS18B20 could not be read.
    pub temperature: Option<Temperature>,
    /// The humidity, `None` where the DHT11 could not be read.
    pub humidity: Option<u8>,
    /// How blanking the picture went at the end.
    pub wiped: Outcome,
}

/// The outcomes of one cycle.
pub open spec fn cycle_outcomes(cycle: Cycle) -> Seq<Outcome> {
    let done = Outcome::Done;
    let temperature = match cycle.temperature {
        Some(t) => Outcome::Temperature(t),
        None => Outcome::Failed,
    };
    let humidity = match cycle.humidity {
        Some(percent) => Outcome::Humidity(percent),
        None => Outcome::Failed,
    };
    seq![cycle.cleared, done, done, done, temperature, done] + switch_outcomes(
        cycle.temperature,
    ) + seq![humidity, done, done, done, cycle.wiped]
}

/// The outcomes of the pin writes of one cycle.
pub open spec fn switch_outcomes(temperature: Option<Temperature>) -> Seq<Outcome> {
    if temperature is Some && spec_switching(temperature.unwrap()) is Some {
        seq![Outcome::Done, Outcome::Done]
    } else {
        Seq::empty()
    }
}

/// The pin writes of one cycle.
pub open spec fn switch_actions(temperature: Option<Temperature>) -> Seq<Action> {
    if temperature is Some && spec_switching(temperature.unwrap()) is Some {
        let writes = spec_switching(temperature.unwrap()).unwrap();
        seq![Action::Switch(writes.first), Action::Switch(writes.second)]
    } else {
        Seq::empty()
    }
}

/// The actions of one cycle: a frame with the title, the temperature and the
/// humidity, an error in the place of a sensor that could not be read, and the pin
/// writes that the temperature calls for.
pub open spec fn cycle_actions(cycle: Cycle) -> Seq<Action> {
    let temperature = match cycle.temperature {
        Some(t) => Label::Temperature(t),
        None => Label::TemperatureError,
    };
    let humidity = match cycle.humidity {
        Some(percent) => Label::Humidity(percent),
        None => Label::HumidityError,
    };
    seq![
        Action::Clear,
        Action::Log(Notice::Cycle),
        Action::Draw(Label::Title),
        Action::StartMeasurement,
        Action::ReadTemperature,
        Action::Draw(temperature),
    ] + switch_actions(cycle.temperature) + seq![
        Action::ReadHumidity,
        Action::Draw(humidity),
        Action::Flush,
        Action::Wait(FRAME_SECONDS),
        Action::Clear,
    ]
}

/// The relays after one cycle: a temperature is acted on, a failed reading is not.
pub open spec fn relays_after_cycle(relays: Relays, cycle: Cycle) -> Relays {
    match cycle.temperature {
        Some(t) => relays.regulated(t),
        None => relays,
    }
}

/// The outcomes of a row of cycles.
pub open spec fn all_outcomes(cycles: Seq<Cycle>) -> Seq<Outcome>
    decreases cycles.len(),
{
    if cycles.len() == 0 {
        Seq::empty()
    } else {
        all_outcomes(cycles.drop_last()) + cycle_outcomes(cycles.last())
    }
}

/// The actions of a row of cycles.
pub open spec fn all_actions(cycles: Seq<Cycle>) -> Seq<Action>
    decreases cycles.len(),
{
    if cycles.len() == 0 {
        Seq::empty()
    } else {
        all_actions(cycles.drop_last()) + cycle_actions(cycles.last())
    }
}

/// The relays after a row of cycles.
pub open spec fn relays_after(relays: Relays, cycles: Seq<Cycle>) -> Relays
    decreases cycles.len(),
{
    if cycles.len() == 0 {
        relays
    } else {
        relays_after_cycle(relays_after(relays, cycles.drop_last()), cycles.last())
    }
}

/// A run takes its outcomes one by one.
proof fn lemma_run_step(c: Controller, outcome: Outcome, rest: Seq<Outcome>)
    ensures
        c.run(seq![outcome] + rest) == c.next(outcome).run(rest),
        c.actions(seq![outcome] + rest) == seq![c.stage.spec_action()] + c.next(outcome).actions(
            rest,
        ),
{
    assert((seq![outcome] + rest).drop_first() =~= rest);
}

/// A run may be split anywhere.
proof fn lemma_run_concat(c: Controller, first: Seq<Outcome>, second: Seq<Outcome>)
    ensures
        c.run(first + second) == c.run(first).run(second),
        c.actions(first + second) == c.actions(first) + c.run(first).actions(second),
    decreases first.len(),
{
    if first.len() == 0 {
        assert(first + second =~= second);
        assert(c.actions(first + second) =~= c.actions(first) + c.run(first).actions(second));
    } else {
        let rest = first.drop_first();
        assert(first =~= seq![first[0]] + rest);
        assert(first + second =~= seq![first[0]] + (rest + second));
        lemma_run_step(c, first[0], rest);
        lemma_run_step(c, first[0], rest + second);
        lemma_run_concat(c.next(first[0]), rest, second);
        assert(c.actions(first + second) =~= c.actions(first) + c.run(first).actions(second));
    }
}

/// The first six steps of a cycle, up to the temperature on the screen.
proof fn lemma_cycle_head(c: Controller, cycle: Cycle)
    requires
        c.stage == Stage::ClearFrame,
    ensures
        ({
            let head = cycle_outcomes(cycle).take(6);
            &&& c.actions(head) == cycle_actions(cycle).take(6)
            &&& c.run(head).relays == c.relays
            &&& c.run(head).stage == match cycle.temperature {
                Some(t) => Stage::DrawTemperature(t),
                None => Stage::DrawTemperatureError,
            }.following(Outcome::Done)
        }),
{
    let all = cycle_outcomes(cycle);
    let head = all.take(6);
    reveal_with_fuel(Controller::run, 7);
    reveal_with_fuel(Controller::actions, 7);
    assert(head.drop_first().drop_first().drop_first().drop_first().drop_first().drop_first()
        =~= Seq::<Outcome>::empty());
    assert(c.actions(head) =~= cycle_actions(cycle).take(6));
}

/// The steps of a cycle from the humidity on.
proof fn lemma_cycle_tail(c: Controller, cycle: Cycle)
    requires
        c.stage == Stage::ReadHumidity,
    ensures
        ({
            let skipped = 6 + switch_outcomes(cycle.temperature).len() as int;
            let tail = cycle_outcomes(cycle).skip(skipped);
            &&& c.actions(tail) == cycle_actions(cycle).skip(skipped)
            &&& c.run(tail) == (Controller { stage: Stage::ClearFrame, relays: c.relays })
        }),
{
    let skipped = 6 + switch_outcomes(cycle.temperature).len() as int;
    let tail = cycle_outcomes(cycle).skip(skipped);
    reveal_with_fuel(Controller::run, 6);
    reveal_with_fuel(Controller::actions, 6);
    assert(tail.drop_first().drop_first().drop_first().drop_first().drop_first() =~= Seq::<
        Outcome,
    >::empty());
    assert(c.actions(tail) =~= cycle_actions(cycle).skip(skipped));
}

/// The pin writes of a cycle.
proof fn lemma_cycle_switch(c: Controller, temperature: Option<Temperature>)
    requires
        c.stage == match temperature {
            Some(t) => Stage::DrawTemperature(t),
            None => Stage::DrawTemperatureError,
        }.following(Outcome::Done),
    ensures
        c.actions(switch_outcomes(temperature)) == switch_actions(temperature),
        c.run(switch_outcomes(temperature)) == (Controller {
            stage: Stage::ReadHumidity,
            relays: match temperature {
                Some(t) => c.relays.regulated(t),
                None => c.relays,
            },
        }),
{
    reveal_with_fuel(Controller::run, 3);
    reveal_with_fuel(Controller::actions, 3);
    let outcomes = switch_outcomes(temperature);
    assert(outcomes.len() == 2 ==> outcomes.drop_first().drop_first() =~= Seq::<Outcome>::empty());
    assert(c.actions(outcomes) =~= switch_actions(temperature));
}

/// One cycle, whether or not the picture in memory could be blanked: it shows
/// exactly the title, the temperature and the humidity, or an error for a sensor
/// that could not be read; it brings the relays to what the temperature calls for,
/// and leaves them alone when there is none, whatever the humidity; and it ends
/// where it began.
pub proof fn one_cycle(c: Controller, cycle: Cycle)
    requires
        c.stage == Stage::ClearFrame,
    ensures
        c.actions(cycle_outcomes(cycle)) == cycle_actions(cycle),
        c.run(cycle_outcomes(cycle)) == (Controller {
            stage: Stage::ClearFrame,
            relays: relays_after_cycle(c.relays, cycle),
        }),
{
    let all = cycle_outcomes(cycle);
    let middle = switch_outcomes(cycle.temperature);
    let head = all.take(6);
    let tail = all.skip(6 + middle.len() as int);
    assert(all =~= head + (middle + tail));
    lemma_cycle_head(c, cycle);
    let drawn = c.run(head);
    lemma_cycle_switch(drawn, cycle.temperature);
    let switched = drawn.run(middle);
    lemma_cycle_tail(switched, cycle);
    lemma_run_concat(c, head, middle + tail);
    lemma_run_concat(drawn, middle, tail);
    let actions = cycle_actions(cycle);
    assert(actions =~= actions.take(6) + (switch_actions(cycle.temperature) + actions.skip(
        6 + middle.len() as int,
    )));
}

/// Any number of cycles: their actions follow one another, and the relays have been
/// brought to what each temperature called for in turn.
pub proof fn many_cycles(c: Controller, cycles: Seq<Cycle>)
    requires
        c.stage == Stage::ClearFrame,
    ensures
        c.actions(all_outcomes(cycles)) == all_actions(cycles),
        c.run(all_outcomes(cycles)) == (Controller {
            stage: Stage::ClearFrame,
            relays: relays_after(c.relays, cycles),
        }),
    decreases cycles.len(),
{
    if cycles.len() > 0 {
        let earlier = cycles.drop_last();
        many_cycles(c, earlier);
        one_cycle(c.run(all_outcomes(earlier)), cycles.last());
        lemma_run_concat(c, all_outcomes(earlier), cycle_outcomes(cycles.last()));
    }
}

/// What a temperature reading leads to, whatever the state of the relays: it is shown
/// first; below 37.5 °C the cooling pin then goes high and the heating pin low, above
/// 37.8 °C the heating pin high and the cooling pin low, between them both high, and
/// at 37.5 °C no pin is written. The humidity is read next.
pub proof fn temperature_reading_is_acted_on(c: Controller, t: Temperature)
    requires
        c.stage.spec_action() == Action::ReadTemperature,
    ensures
        ({
            let shown = c.next(Outcome::Temperature(t));
            let first = shown.next(Outcome::Done);
            let second = first.next(Outcome::Done);
            let last = second.next(Outcome::Done);
            let write = |system: System, level: Level| Action::Switch(PinWrite { system, level });
            &&& shown.stage.spec_action() == Action::Draw(Label::Temperature(t))
            &&& shown.relays == c.relays
            &&& t.sixteenths < 600 ==> {
                &&& first.stage.spec_action() == write(System::Cooling, Level::High)
                &&& second.stage.spec_action() == write(System::Heating, Level::Low)
                &&& last.relays == (Relays { cooling: Level::High, heating: Level::Low })
                &&& last.stage.spec_action() == Action::ReadHumidity
            }
            &&& t.sixteenths > 604 ==> {
                &&& first.stage.spec_action() == write(System::Heating, Level::High)
                &&& second.stage.spec_action() == write(System::Cooling, Level::Low)
                &&& last.relays == (Relays { cooling: Level::Low, heating: Level::High })
                &&& last.stage.spec_action() == Action::ReadHumidity
            }
            &&& 600 < t.sixteenths <= 604 ==> {
                &&& first.stage.spec_action() == write(System::Heating, Level::High)
                &&& second.stage.spec_action() == write(System::Cooling, Level::High)
                &&& last.relays == (Relays { cooling: Level::High, heating: Level::High })
                &&& last.stage.spec_action() == Action::ReadHumidity
            }
            &&& t.sixteenths == 600 ==> {
                &&& first.stage.spec_action() == Action::ReadHumidity
                &&& first.relays == c.relays
            }
        }),
{
}

/// A temperature that could not be read is shown as an error and moves no relay; the
/// humidity is read next.
pub proof fn missing_temperature_moves_nothing(c: Controller, outcome: Outcome)
    requires
        c.stage.spec_action() == Action::ReadTemperature,
        outcome !is Temperature,
    ensures
        c.next(outcome).stage.spec_action() == Action::Draw(Label::TemperatureError),
        c.next(outcome).next(Outcome::Done).stage.spec_action() == Action::ReadHumidity,
        c.next(outcome).next(Outcome::Done).relays == c.relays,
{
}

/// A humidity is shown as it was read, or an error in its place; then the frame is
/// put on the screen for two seconds. No relay moves.
pub proof fn humidity_reading_is_shown(c: Controller, outcome: Outcome)
    requires
        c.stage.spec_action() == Action::ReadHumidity,
    ensures
        ({
            let drawn = c.next(outcome);
            let flushed = drawn.next(Outcome::Done);
            let held = flushed.next(Outcome::Done);
            &&& outcome matches Outcome::Humidity(percent) ==> drawn.stage.spec_action()
                == Action::Draw(Label::Humidity(percent))
            &&& outcome !is Humidity ==> drawn.stage.spec_action() == Action::Draw(
                Label::HumidityError,
            )
            &&& flushed.stage.spec_action() == Action::Flush
            &&& held.stage.spec_action() == Action::Wait(2)
            &&& held.relays == c.relays
        }),
{
}

/// But for the readings of the sensors, an outcome matters only as success or failure,
/// and failure matters only for the screen and the start of a measurement.
pub proof fn other_outcomes_do_not_matter(c: Controller, outcome: Outcome)
    requires
        c.stage.spec_action() !is ReadTemperature,
        c.stage.spec_action() !is ReadHumidity,
    ensures
        outcome != Outcome::Failed ==> c.next(outcome) == c.next(Outcome::Done),
        c.stage.spec_action() is Clear || c.stage.spec_action() is Wait
            || c.stage.spec_action() is Log || c.stage.spec_action() is Switch ==> c.next(outcome)
            == c.next(Outcome::Done),
{
}

/// After every cycle in which a temperature was read, the heating is on if it was
/// below 37.5 °C, the cooling if it was above 37.8 °C, and neither between; without a
/// temperature, or at 37.5 °C, the relays are as they were. Every frame draws the
/// title, the temperature and the humidity as they were read, in this order, before
/// the one flush.
pub proof fn cycles_regulate_and_show(c: Controller, cycle: Cycle)
    requires
        c.stage == Stage::ClearFrame,
    ensures
        ({
            let relays = c.run(cycle_outcomes(cycle)).relays;
            let actions = c.actions(cycle_outcomes(cycle));
            let length = actions.len();
            &&& match cycle.temperature {
                Some(t) => {
                    &&& t.sixteenths < 600 ==> relays.heating == Level::Low && relays.cooling
                        == Level::High
                    &&& t.sixteenths > 604 ==> relays.heating == Level::High && relays.cooling
                        == Level::Low
                    &&& 600 < t.sixteenths <= 604 ==> relays.heating == Level::High
                        && relays.cooling == Level::High
                    &&& t.sixteenths == 600 ==> relays == c.relays
                    &&& length == if t.sixteenths == 600 {
                        11int
                    } else {
                        13int
                    }
                    &&& actions[5] == Action::Draw(Label::Temperature(t))
                },
                None => {
                    &&& relays == c.relays
                    &&& length == 11
                    &&& actions[5] == Action::Draw(Label::TemperatureError)
                },
            }
            &&& actions[2] == Action::Draw(Label::Title)
            &&& actions[3] == Action::StartMeasurement
            &&& actions[length - 4] == match cycle.humidity {
                Some(percent) => Action::Draw(Label::Humidity(percent)),
                None => Action::Draw(Label::HumidityError),
            }
            &&& actions[length - 3] == Action::Flush
            &&& actions[length - 2] == Action::Wait(2)
            &&& c.run(cycle_outcomes(cycle)).stage == Stage::ClearFrame
        }),
{
    one_cycle(c, cycle);
}

/// The last temperature that was read and is not 37.5 °C decides what is on after any
/// number of cycles.
pub proof fn last_temperature_decides(c: Controller, cycles: Seq<Cycle>, last: int)
    requires
        c.stage == Stage::ClearFrame,
        0 <= last < cycles.len(),
        cycles[last].temperature is Some,
        cycles[last].temperature.unwrap().sixteenths != 600,
        forall|i: int|
            last < i < cycles.len() ==> {
                ||| (#[trigger] cycles[i]).temperature is None
                ||| cycles[i].temperature.unwrap().sixteenths == 600
            },
    ensures
        ({
            let t = cycles[last].temperature.unwrap();
            let relays = c.run(all_outcomes(cycles)).relays;
            &&& relays.heating == Level::Low <==> t.sixteenths < 600
            &&& relays.cooling == Level::Low <==> t.sixteenths > 604
        }),
    decreases cycles.len(),
{
    let earlier = cycles.drop_last();
    many_cycles(c, cycles);
    many_cycles(c, earlier);
    if last < cycles.len() - 1 {
        assert forall|i: int| last < i < earlier.len() implies {
            ||| (#[trigger] earlier[i]).temperature is None
            ||| earlier[i].temperature.unwrap().sixteenths == 600
        } by {
            assert(earlier[i] == cycles[i]);
        }
        assert(cycles.last() == cycles[cycles.len() - 1]);
        last_temperature_decides(c, earlier, last);
    }
}

/// Start-up: the splash screen is shown for its time and wiped, whether or not the
/// picture in memory could be blanked; then the first cycle begins, with both
/// relays at rest.
pub proof fn startup(blanked: Outcome)
    ensures
        ({
            let done = Outcome::Done;
            let outcomes = seq![done, done, done, done, blanked, done];
            &&& Controller::spec_start().actions(outcomes) == seq![
                Action::InitDisplay,
                Action::Draw(Label::Splash),
                Action::Flush,
                Action::Wait(SPLASH_SECONDS),
                Action::Clear,
                Action::Flush,
            ]
            &&& Controller::spec_start().run(outcomes) == (Controller {
                stage: Stage::ClearFrame,
                relays: Relays::spec_at_rest(),
            })
        }),
{
    let done = Outcome::Done;
    let outcomes = seq![done, done, done, done, blanked, done];
    reveal_with_fuel(Controller::run, 7);
    reveal_with_fuel(Controller::actions, 7);
    assert(outcomes.drop_first().drop_first().drop_first().drop_first().drop_first().drop_first()
        =~= Seq::<Outcome>::empty());
    assert(Controller::spec_start().actions(outcomes) =~= seq![
        Action::InitDisplay,
        Action::Draw(Label::Splash),
        Action::Flush,
        Action::Wait(SPLASH_SECONDS),
        Action::Clear,
        Action::Flush,
    ]);
}

/// Every step keeps the invariant.
pub proof fn steps_keep_well_formed(c: Controller, outcome: Outcome)
    requires
        c.well_formed(),
    ensures
        c.next(outcome).well_formed(),
{
}

/// Whatever happens, every run keeps the invariant.
pub proof fn runs_keep_well_formed(c: Controller, outcomes: Seq<Outcome>)
    requires
        c.well_formed(),
    ensures
        c.run(outcomes).well_formed(),
    decreases outcomes.len(),
{
    if outcomes.len() > 0 {
        steps_keep_well_formed(c, outcomes[0]);
        runs_keep_well_formed(c.next(outcomes[0]), outcomes.drop_first());
    }
}

/// Heating and cooling are never on together, at no step of any run.
pub proof fn heating_and_cooling_never_overlap(outcomes: Seq<Outcome>)
    ensures
        Controller::spec_start().run(outcomes).relays.exclusive(),
{
    runs_keep_well_formed(Controller::spec_start(), outcomes);
}

/// The relays change only by a pin write, which brings one pin to its level and leaves
/// the other alone.
pub proof fn relays_change_only_by_pin_writes(c: Controller, outcome: Outcome)
    ensures
        c.stage.spec_action() !is Switch ==> c.next(outcome).relays == c.relays,
        c.stage.spec_action() matches Action::Switch(write) ==> match write.system {
            System::Cooling => c.next(outcome).relays == (Relays {
                cooling: write.level,
                heating: c.relays.heating,
            }),
            System::Heating => c.next(outcome).relays == (Relays {
                cooling: c.relays.cooling,
                heating: write.level,
            }),
        },
{
}

/// The incubator stops exactly when the screen cannot be initialised, drawn on or
/// flushed, or a measurement cannot be started.
pub proof fn stops_exactly_on_failure_of_a_needed_action(c: Controller, outcome: Outcome)
    requires
        c.stage != Stage::Halted,
    ensures
        c.next(outcome).stage == Stage::Halted <==> {
            &&& outcome == Outcome::Failed
            &&& (c.stage.spec_action() is InitDisplay || c.stage.spec_action() is Draw
                || c.stage.spec_action() is Flush || c.stage.spec_action() is StartMeasurement)
        },
{
}

/// Once stopped, the incubator prints its error for ever and leaves the relays as
/// they are.
pub proof fn stopped_for_good(c: Controller, outcomes: Seq<Outcome>)
    requires
        c.stage == Stage::Halted,
    ensures
        c.run(outcomes) == c,
        c.actions(outcomes) == Seq::new(outcomes.len(), |i: int| Action::Log(Notice::Panic)),
    decreases outcomes.len(),
{
    if outcomes.len() > 0 {
        stopped_for_good(c.next(outcomes[0]), outcomes.drop_first());
    }
    assert(c.actions(outcomes) =~= Seq::new(
        outcomes.len(),
        |i: int| Action::Log(Notice::Panic),
    ));
}

/// The stages from the start of a measurement to the end of its frame.
spec fn measuring(stage: Stage) -> bool {
    match stage {
        Stage::ReadTemperature
        | Stage::DrawTemperature(_)
        | Stage::DrawTemperatureError
        | Stage::SwitchFirst(_)
        | Stage::SwitchSecond(_)
        | Stage::ReadHumidity
        | Stage::DrawHumidity(_)
        | Stage::DrawHumidityError
        | Stage::FlushFrame
        | Stage::HoldFrame => true,
        _ => false,
    }
}

/// From a measurement, the next one is reached only by way of the wait.
proof fn lemma_wait_before_next_measurement(c: Controller, outcomes: Seq<Outcome>)
    requires
        measuring(c.stage),
        c.run(outcomes).stage == Stage::StartMeasurement,
    ensures
        c.actions(outcomes).contains(Action::Wait(FRAME_SECONDS)),
    decreases outcomes.len(),
{
    let actions = c.actions(outcomes);
    let next = c.next(outcomes[0]);
    let rest = outcomes.drop_first();
    assert(actions == seq![c.stage.spec_action()] + next.actions(rest));
    if c.stage == Stage::HoldFrame {
        assert(actions[0] == Action::Wait(FRAME_SECONDS));
    } else if next.stage == Stage::Halted {
        stopped_for_good(next, rest);
    } else {
        lemma_wait_before_next_measurement(next, rest);
        let i = choose|i: int|
            0 <= i < next.actions(rest).len() && next.actions(rest)[i] == Action::Wait(
                FRAME_SECONDS,
            );
        assert(actions[i + 1] == Action::Wait(FRAME_SECONDS));
    }
}

/// Between the start of a measurement and the start of the next one, after which it
/// is read, the incubator waits longer than a measurement takes.
pub proof fn measurements_have_time_to_complete(c: Controller, outcomes: Seq<Outcome>)
    requires
        c.stage == Stage::StartMeasurement,
        outcomes.len() > 0,
        c.run(outcomes).stage == Stage::StartMeasurement,
    ensures
        c.actions(outcomes).contains(Action::Wait(FRAME_SECONDS)),
        1000 * FRAME_SECONDS >= MEASUREMENT_MILLIS,
{
    let next = c.next(outcomes[0]);
    let rest = outcomes.drop_first();
    if next.stage == Stage::Halted {
        stopped_for_good(next, rest);
    } else {
        lemma_wait_before_next_measurement(next, rest);
        let i = choose|i: int|
            0 <= i < next.actions(rest).len() && next.actions(rest)[i] == Action::Wait(
                FRAME_SECONDS,
            );
        assert(c.actions(outcomes)[i + 1] == Action::Wait(FRAME_SECONDS));
    }
}

} // verus!
