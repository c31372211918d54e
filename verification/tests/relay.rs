use couveuse::relay::{switching, Level, PinWrite, Relays, Switching, System};
use couveuse::temperature::Temperature;

fn at(sixteenths: i32) -> Temperature {
    Temperature { sixteenths }
}

fn write(system: System, level: Level) -> PinWrite {
    PinWrite { system, level }
}

const STATES: [Relays; 3] = [
    Relays { cooling: Level::High, heating: Level::High },
    Relays { cooling: Level::Low, heating: Level::High },
    Relays { cooling: Level::High, heating: Level::Low },
];

#[test]
fn relays_start_at_rest() {
    assert_eq!(Relays::at_rest(), Relays { cooling: Level::High, heating: Level::High });
}

#[test]
fn cold_turns_cooling_off_before_heating_on() {
    let expected = Switching {
        first: write(System::Cooling, Level::High),
        second: write(System::Heating, Level::Low),
    };
    assert_eq!(switching(at(599)), Some(expected));
}

#[test]
fn heat_turns_heating_off_before_cooling_on() {
    let expected = Switching {
        first: write(System::Heating, Level::High),
        second: write(System::Cooling, Level::Low),
    };
    assert_eq!(switching(at(605)), Some(expected));
}

#[test]
fn ideal_temperature_turns_both_off() {
    let expected = Switching {
        first: write(System::Heating, Level::High),
        second: write(System::Cooling, Level::High),
    };
    assert_eq!(switching(at(602)), Some(expected));
}

#[test]
fn threshold_writes_no_pin() {
    assert_eq!(switching(at(600)), None);
}

#[test]
fn one_write_reaches_one_pin() {
    let mut relays = Relays::at_rest();
    relays.write(write(System::Heating, Level::Low));
    assert_eq!(relays, Relays { cooling: Level::High, heating: Level::Low });
    relays.write(write(System::Cooling, Level::Low));
    assert_eq!(relays, Relays { cooling: Level::Low, heating: Level::Low });
    relays.write(write(System::Heating, Level::High));
    assert_eq!(relays, Relays { cooling: Level::Low, heating: Level::High });
}

#[test]
fn regulation_from_every_state() {
    for state in STATES {
        let mut relays = state;
        relays.regulate(at(500));
        assert_eq!(relays, Relays { cooling: Level::High, heating: Level::Low });
        let mut relays = state;
        relays.regulate(at(700));
        assert_eq!(relays, Relays { cooling: Level::Low, heating: Level::High });
        let mut relays = state;
        relays.regulate(at(603));
        assert_eq!(relays, Relays { cooling: Level::High, heating: Level::High });
        let mut relays = state;
        relays.regulate(at(600));
        assert_eq!(relays, state);
    }
}

#[test]
fn regulation_twice_is_regulation_once() {
    for state in STATES {
        for sixteenths in 590..615 {
            let mut once = state;
            once.regulate(at(sixteenths));
            let mut twice = once;
            twice.regulate(at(sixteenths));
            assert_eq!(once, twice);
        }
    }
}

#[test]
fn pins_never_overlap_between_writes() {
    for state in STATES {
        for sixteenths in 590..615 {
            if let Some(writes) = switching(at(sixteenths)) {
                let mut relays = state;
                relays.write(writes.first);
                assert!(relays.cooling == Level::High || relays.heating == Level::High);
                relays.write(writes.second);
                assert!(relays.cooling == Level::High || relays.heating == Level::High);
            }
        }
    }
}
