use couveuse::temperature::{Band, Temperature, TEMP_MAX, TEMP_MIN};

fn at(sixteenths: i32) -> Temperature {
    Temperature { sixteenths }
}

#[test]
fn thresholds_are_37_5_and_37_8_degrees() {
    assert_eq!(TEMP_MIN, 375);
    assert_eq!(TEMP_MAX, 378);
}

#[test]
fn bands_around_the_ideal_range() {
    assert_eq!(at(599).band(), Band::TooCold);
    assert_eq!(at(600).band(), Band::Threshold);
    assert_eq!(at(601).band(), Band::Ideal);
    assert_eq!(at(604).band(), Band::Ideal);
    assert_eq!(at(605).band(), Band::TooHot);
}

#[test]
fn bands_of_extreme_temperatures() {
    assert_eq!(at(i32::MIN).band(), Band::TooCold);
    assert_eq!(at(-1).band(), Band::TooCold);
    assert_eq!(at(0).band(), Band::TooCold);
    assert_eq!(at(85 * 16).band(), Band::TooHot);
    assert_eq!(at(i32::MAX).band(), Band::TooHot);
}

#[test]
fn bands_agree_with_floating_point_thresholds() {
    let low: f32 = 37.5;
    let high: f32 = 37.8;
    for raw in 0..=u16::MAX {
        // The sensor divides its raw value by 16, 8, 4 or 2, as its resolution says.
        for step in [1, 2, 4, 8] {
            let celsius = (raw as f32) / (16.0 / step as f32);
            let expected = if celsius < low {
                Band::TooCold
            } else if celsius > high {
                Band::TooHot
            } else if celsius < high && celsius > low {
                Band::Ideal
            } else {
                Band::Threshold
            };
            assert_eq!((celsius * 16.0) as i32, raw as i32 * step);
            assert_eq!(at(raw as i32 * step).band(), expected);
        }
    }
}

#[test]
fn only_one_temperature_lies_on_a_threshold() {
    let mut found = 0;
    for sixteenths in -100_000..100_000 {
        if at(sixteenths).band() == Band::Threshold {
            assert_eq!(sixteenths, 600);
            found += 1;
        }
    }
    assert_eq!(found, 1);
}

#[test]
fn warmer_is_never_in_a_colder_band() {
    assert_eq!(at(605).band(), Band::TooHot);
    assert_eq!(at(606).band(), Band::TooHot);
    assert_eq!(at(598).band(), Band::TooCold);
    assert_eq!(at(599).band(), Band::TooCold);
}

#[test]
fn hundredths_round_to_nearest_and_halves_to_even() {
    assert_eq!(at(0).hundredths(), 0);
    assert_eq!(at(1).hundredths(), 6);
    assert_eq!(at(2).hundredths(), 12);
    assert_eq!(at(3).hundredths(), 19);
    assert_eq!(at(6).hundredths(), 38);
    assert_eq!(at(10).hundredths(), 62);
    assert_eq!(at(14).hundredths(), 88);
    assert_eq!(at(600).hundredths(), 3750);
    assert_eq!(at(-1).hundredths(), 6);
    assert_eq!(at(i32::MIN).hundredths(), 13_421_772_800);
}
