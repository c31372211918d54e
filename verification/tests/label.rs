use couveuse::label::{Baseline, Label, Notice, Place};
use couveuse::temperature::Temperature;

fn temperature_text(sixteenths: i32) -> String {
    let message = Label::Temperature(Temperature { sixteenths }).compose();
    message.as_str().to_string()
}

#[test]
fn fixed_labels() {
    assert_eq!(Label::Splash.compose().as_str(), "Initialisation ...");
    assert_eq!(Label::Title.compose().as_str(), "   Couveuse   ");
    assert_eq!(Label::TemperatureError.compose().as_str(), "Error");
    assert_eq!(Label::HumidityError.compose().as_str(), "Error");
}

#[test]
fn notices() {
    assert_eq!(Notice::Cycle.text(), "test");
    assert_eq!(Notice::Panic.text(), "Error");
}

#[test]
fn temperatures_have_two_decimals() {
    assert_eq!(temperature_text(600), "Temp: 37.50°C");
    assert_eq!(temperature_text(605), "Temp: 37.81°C");
    assert_eq!(temperature_text(602), "Temp: 37.62°C");
    assert_eq!(temperature_text(85 * 16), "Temp: 85.00°C");
    assert_eq!(temperature_text(0), "Temp: 0.00°C");
    assert_eq!(temperature_text(-1), "Temp: -0.06°C");
    assert_eq!(temperature_text(-55 * 16), "Temp: -55.00°C");
}

#[test]
fn longest_temperatures_fit() {
    assert_eq!(temperature_text(i32::MIN), "Temp: -134217728.00°C");
    assert_eq!(temperature_text(i32::MAX), "Temp: 134217727.94°C");
}

#[test]
fn temperatures_agree_with_float_formatting() {
    for sixteenths in -40_000..=70_000 {
        let celsius = sixteenths as f32 / 16.0;
        assert_eq!(temperature_text(sixteenths), format!("Temp: {:.2}°C", celsius));
    }
}

#[test]
fn humidities() {
    for percent in 0..=u8::MAX {
        let message = Label::Humidity(percent).compose();
        assert_eq!(message.as_str(), format!("Humidité: {}%", percent));
    }
}

#[test]
fn places() {
    let alphabetic = |y| Place { x: 20, y, baseline: Baseline::Alphabetic };
    let t = Temperature { sixteenths: 600 };
    assert_eq!(Label::Splash.place(), Place { x: 10, y: 30, baseline: Baseline::Top });
    assert_eq!(Label::Title.place(), alphabetic(16));
    assert_eq!(Label::Temperature(t).place(), alphabetic(36));
    assert_eq!(Label::TemperatureError.place(), alphabetic(36));
    assert_eq!(Label::Humidity(55).place(), Place { x: 20, y: 40, baseline: Baseline::Top });
    assert_eq!(Label::HumidityError.place(), alphabetic(40));
}
