//! The two relays of the incubator and the rule that switches them.
//!
//! A relay is driven by one pin and is active-low: a low level energises it and
//! turns its system on, a high level leaves it at rest.

use vstd::prelude::*;

use crate::temperature::{Band, Temperature, TEMP_MAX, TEMP_MIN};

verus! {

/// The level of an output pin.
#[derive(Clone, Copy, Debug, PartialEq, Eq, Structural)]
pub enum Level {
    Low,
    High,
}

impl Level {
    /// A relay with this level on its input is energised.
    pub open spec fn energises(self) -> bool {
        self == Level::Low
    }
}

/// One of the two systems that a relay switches.
#[derive(Clone, Copy, Debug, PartialEq, Eq, Structural)]
pub enum System {
    Cooling,
    Heating,
}

/// The command to bring the pin of one system to a level.
#[derive(Clone, Copy, Debug, PartialEq, Eq, Structural)]
pub struct PinWrite {
    pub system: System,
    pub level: Level,
}

/// Two pin writes, to be carried out one after the other.
#[derive(Clone, Copy, Debug, PartialEq, Eq, Structural)]
pub struct Switching {
    pub first: PinWrite,
    pub second: PinWrite,
}

impl Switching {
    /// The first write turns one system off, the second reaches the other one.
    pub open spec fn breaks_first(self) -> bool {
        &&& !self.first.level.energises()
        &&& self.first.system != self.second.system
    }
}

/// The levels of both relay pins.
#[derive(Clone, Copy, Debug, PartialEq, Eq, Structural)]
pub struct Relays {
    pub cooling: Level,
    pub heating: Level,
}

impl Relays {
    /// Both systems off.
    pub open spec fn spec_at_rest() -> Relays {
        Relays { cooling: Level::High, heating: Level::High }
    }

    /// The two systems are not on together.
    pub open spec fn exclusive(self) -> bool {
        !(self.cooling.energises() && self.heating.energises())
    }

    /// The levels after one pin write.
    pub open spec fn after_write(self, write: PinWrite) -> Relays {
        match write.system {
            System::Cooling => Relays { cooling: write.level, heating: self.heating },
            System::Heating => Relays { cooling: self.cooling, heating: write.level },
        }
    }

    /// The levels once a temperature has been acted on: heating alone when it is
    /// too cold, cooling alone when it is too hot, neither in the ideal range, and
    /// whatever was on before on a threshold.
    pub open spec fn regulated(self, t: Temperature) -> Relays {
        match t.spec_band() {
            Band::TooCold => Relays { cooling: Level::High, heating: Level::Low },
            Band::TooHot => Relays { cooling: Level::Low, heating: Level::High },
            Band::Ideal => Relays { cooling: Level::High, heating: Level::High },
            Band::Threshold => self,
        }
    }

    /// The levels with which the pins are set up.
    pub fn at_rest() -> (relays: Relays)
        ensures
            relays == Relays::spec_at_rest(),
    {
        Relays { cooling: Level::High, heating: Level::High }
    }

    /// Records one pin write.
    pub fn write(&mut self, write: PinWrite)
        ensures
            *final(self) == old(self).after_write(write),
    {
        match write.system {
            System::Cooling => {
                self.cooling = write.level;
            },
            System::Heating => {
                self.heating = write.level;
            },
        }
    }

    /// Acts on a temperature: records the pin writes that it calls for.
    pub fn regulate(&mut self, t: Temperature)
        ensures
            *final(self) == old(self).regulated(t),
    {
        match switching(t) {
            Some(writes) => {
                self.write(writes.first);
                self.write(writes.second);
            },
            None => {},
        }
    }
}

/// The pin writes that a temperature calls for: the system to be turned off comes
/// first, and on a threshold no pin is written.
pub open spec fn spec_switching(t: Temperature) -> Option<Switching> {
    match t.spec_band() {
        Band::TooCold => Some(
            Switching {
                first: PinWrite { system: System::Cooling, level: Level::High },
                second: PinWrite { system: System::Heating, level: Level::Low },
            },
        ),
        Band::TooHot => Some(
            Switching {
                first: PinWrite { system: System::Heating, level: Level::High },
                second: PinWrite { system: System::Cooling, level: Level::Low },
            },
        ),
        Band::Ideal => Some(
            Switching {
                first: PinWrite { system: System::Heating, level: Level::High },
                second: PinWrite { system: System::Cooling, level: Level::High },
            },
        ),
        Band::Threshold => None,
    }
}

/// The pin writes that a temperature calls for, in order.
pub fn switching(t: Temperature) -> (writes: Option<Switching>)
    ensures
        writes == spec_switching(t),
{
    match t.band() {
        Band::TooCold => Some(
            Switching {
                first: PinWrite { system: System::Cooling, level: Level::High },
                second: PinWrite { system: System::Heating, level: Level::Low },
            },
        ),
        Band::TooHot => Some(
            Switching {
                first: PinWrite { system: System::Heating, level: Level::High },
                second: PinWrite { system: System::Cooling, level: Level::Low },
            },
        ),
        Band::Ideal => Some(
            Switching {
                first: PinWrite { system: System::Heating, level: Level::High },
                second: PinWrite { system: System::Cooling, level: Level::High },
            },
        ),
        Band::Threshold => None,
    }
}

/// The pin writes of a temperature, carried out in order, bring the relays to the
/// levels that the temperature calls for.
pub proof fn switching_regulates(relays: Relays, t: Temperature)
    ensures
        match spec_switching(t) {
            Some(writes) => relays.after_write(writes.first).after_write(writes.second)
                == relays.regulated(t),
            None => relays == relays.regulated(t),
        },
{
}

/// Heating and cooling are never on together while the pins are switched, not even
/// between the two writes.
pub proof fn switching_never_overlaps(relays: Relays, t: Temperature)
    requires
        relays.exclusive(),
    ensures
        spec_switching(t) matches Some(writes) ==> {
            &&& relays.after_write(writes.first).exclusive()
            &&& relays.after_write(writes.first).after_write(writes.second).exclusive()
        },
        relays.regulated(t).exclusive(),
{
}

/// One write brings the pin of its system to its level and leaves the other pin alone.
pub proof fn one_write_reaches_one_pin(relays: Relays, write: PinWrite)
    ensures
        write.system == System::Cooling ==> {
            &&& relays.after_write(write).cooling == write.level
            &&& relays.after_write(write).heating == relays.heating
        },
        write.system == System::Heating ==> {
            &&& relays.after_write(write).heating == write.level
            &&& relays.after_write(write).cooling == relays.cooling
        },
{
}

/// Whenever the temperature is below 37.5 °C the heating is on and the cooling is
/// off, whatever was on before, and the cooling is cut first.
pub proof fn cold_is_heated(relays: Relays, t: Temperature)
    requires
        10 * t.sixteenths < 16 * 375,
    ensures
        relays.regulated(t).heating == Level::Low,
        relays.regulated(t).heating.energises(),
        relays.regulated(t).cooling == Level::High,
        !relays.regulated(t).cooling.energises(),
        spec_switching(t) == Some(
            Switching {
                first: PinWrite { system: System::Cooling, level: Level::High },
                second: PinWrite { system: System::Heating, level: Level::Low },
            },
        ),
{
}

/// Whenever the temperature is above 37.8 °C the cooling is on and the heating is
/// off, whatever was on before, and the heating is cut first.
pub proof fn heat_is_cooled(relays: Relays, t: Temperature)
    requires
        10 * t.sixteenths > 16 * 378,
    ensures
        relays.regulated(t).cooling == Level::Low,
        relays.regulated(t).cooling.energises(),
        relays.regulated(t).heating == Level::High,
        !relays.regulated(t).heating.energises(),
        spec_switching(t) == Some(
            Switching {
                first: PinWrite { system: System::Heating, level: Level::High },
                second: PinWrite { system: System::Cooling, level: Level::Low },
            },
        ),
{
}

/// Strictly between 37.5 °C and 37.8 °C both pins are brought to rest, whatever was
/// on before.
pub proof fn ideal_temperature_rests(relays: Relays, t: Temperature)
    requires
        16 * 375 < 10 * t.sixteenths < 16 * 378,
    ensures
        relays.regulated(t).cooling == Level::High,
        relays.regulated(t).heating == Level::High,
        spec_switching(t) == Some(
            Switching {
                first: PinWrite { system: System::Heating, level: Level::High },
                second: PinWrite { system: System::Cooling, level: Level::High },
            },
        ),
{
}

/// Exactly at 37.5 °C, and at no other temperature, no pin is written.
pub proof fn threshold_keeps_the_relays(relays: Relays, t: Temperature)
    ensures
        10 * t.sixteenths == 16 * 375 ==> relays.regulated(t) == relays,
        10 * t.sixteenths == 16 * 375 <==> spec_switching(t) is None,
{
}

/// A colder temperature never turns the heating off, and a warmer one never turns
/// the cooling off.
pub proof fn regulation_is_monotone(relays: Relays, colder: Temperature, warmer: Temperature)
    requires
        colder.sixteenths <= warmer.sixteenths,
        relays.exclusive(),
    ensures
        warmer.sixteenths < 600 ==> relays.regulated(colder).heating.energises(),
        colder.sixteenths > 604 ==> relays.regulated(warmer).cooling.energises(),
        warmer.sixteenths != 600 && relays.regulated(warmer).heating.energises()
            ==> relays.regulated(colder).heating.energises(),
        colder.sixteenths != 600 && relays.regulated(colder).cooling.energises()
            ==> relays.regulated(warmer).cooling.energises(),
{
}

/// In the ideal range neither system is on.
pub proof fn ideal_range_is_left_alone(relays: Relays, t: Temperature)
    requires
        t.is_above(TEMP_MIN as int),
        t.is_below(TEMP_MAX as int),
    ensures
        relays.regulated(t) == Relays::spec_at_rest(),
{
}

/// Heating turns on only below the range, and cooling only above it.
pub proof fn systems_turn_on_only_outside_the_range(relays: Relays, t: Temperature)
    ensures
        !relays.heating.energises() && relays.regulated(t).heating.energises()
            ==> t.is_below(TEMP_MIN as int),
        !relays.cooling.energises() && relays.regulated(t).cooling.energises()
            ==> t.is_above(TEMP_MAX as int),
{
}

/// Acting twice on one temperature changes nothing more than acting once.
pub proof fn regulation_is_idempotent(relays: Relays, t: Temperature)
    ensures
        relays.regulated(t).regulated(t) == relays.regulated(t),
{
}

/// Off the thresholds, what was on before does not matter.
pub proof fn regulation_forgets_the_past(a: Relays, b: Relays, t: Temperature)
    requires
        t.spec_band() != Band::Threshold,
    ensures
        a.regulated(t) == b.regulated(t),
{
}

} // verus!
