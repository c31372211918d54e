//! The texts on the screen and on the serial port, and where the screen shows them.

use vstd::prelude::*;

use crate::digits::{
    decimal, decimal_is_canonical, decimal_reads_back, decimal_value, digit, digit_str,
    is_decimal_digit, lemma_decimal_ascii, lemma_decimal_len, push_decimal,
};
use crate::message::{
    byte_len, lemma_byte_len_ascii, lemma_byte_len_concat, Message, MESSAGE_CAPACITY,
};
use crate::temperature::Temperature;

verus! {

/// The width of the screen, in pixels.
pub const SCREEN_WIDTH: i32 = 128;

/// The height of the screen, in pixels.
pub const SCREEN_HEIGHT: i32 = 64;

/// The width of a character on the screen, in pixels.
pub const CHARACTER_WIDTH: i32 = 6;

/// The height of a character on the screen, in pixels.
pub const CHARACTER_HEIGHT: i32 = 11;

/// The rows of a character above the line on which the letters stand, in pixels.
pub const CHARACTER_ASCENT: i32 = 8;

/// A text that the screen shows.
#[derive(Clone, Copy, Debug, PartialEq, Eq, Structural)]
pub enum Label {
    /// Shown while the incubator starts.
    Splash,
    /// The heading of every frame.
    Title,
    /// The temperature that the DS18B20 gave.
    Temperature(Temperature),
    /// The DS18B20 could not be read.
    TemperatureError,
    /// The relative humidity that the DHT11 gave, in percent.
    Humidity(u8),
    /// The DHT11 could not be read.
    HumidityError,
}

/// Which horizontal line of a text lies at its vertical position.
#[derive(Clone, Copy, Debug, PartialEq, Eq, Structural)]
pub enum Baseline {
    /// The upper edge of the characters.
    Top,
    /// The line on which the letters stand.
    Alphabetic,
}

/// The position of a text on the screen, in pixels from the upper left corner.
#[derive(Clone, Copy, Debug, PartialEq, Eq, Structural)]
pub struct Place {
    pub x: i32,
    pub y: i32,
    pub baseline: Baseline,
}

impl Place {
    /// The uppermost row of a text at this place.
    pub open spec fn top(self) -> int {
        match self.baseline {
            Baseline::Top => self.y as int,
            Baseline::Alphabetic => self.y - CHARACTER_ASCENT,
        }
    }

    /// The first row below a text at this place.
    pub open spec fn bottom(self) -> int {
        self.top() + CHARACTER_HEIGHT
    }
}

/// A text on the serial port.
#[derive(Clone, Copy, Debug, PartialEq, Eq, Structural)]
pub enum Notice {
    /// A new cycle begins.
    Cycle,
    /// The incubator has stopped.
    Panic,
}

/// A number of hundredths, written with two decimals.
pub open spec fn two_decimals(hundredths: nat) -> Seq<char> {
    decimal(hundredths / 100) + seq![
        '.',
        digit(hundredths / 10 % 10),
        digit(hundredths % 10),
    ]
}

/// A temperature in degrees, written with two decimals.
pub open spec fn degrees_text(t: Temperature) -> Seq<char> {
    if t.sixteenths < 0 {
        "-"@ + two_decimals(t.spec_hundredths())
    } else {
        two_decimals(t.spec_hundredths())
    }
}

impl Notice {
    /// The characters of the notice.
    pub open spec fn spec_text(self) -> Seq<char> {
        match self {
            Notice::Cycle => "test"@,
            Notice::Panic => "Error"@,
        }
    }

    /// The characters of the notice.
    pub fn text(&self) -> (text: &'static str)
        ensures
            text@ == self.spec_text(),
    {
        match self {
            Notice::Cycle => "test",
            Notice::Panic => "Error",
        }
    }
}

impl Label {
    /// The characters of the label.
    pub open spec fn spec_text(self) -> Seq<char> {
        match self {
            Label::Splash => "Initialisation ..."@,
            Label::Title => "   Couveuse   "@,
            Label::Temperature(t) => "Temp: "@ + degrees_text(t) + "°C"@,
            Label::TemperatureError => "Error"@,
            Label::Humidity(percent) => "Humidité: "@ + decimal(percent as nat) + "%"@,
            Label::HumidityError => "Error"@,
        }
    }

    /// The position of the label.
    pub open spec fn spec_place(self) -> Place {
        match self {
            Label::Splash => Place { x: 10, y: 30, baseline: Baseline::Top },
            Label::Title => Place { x: 20, y: 16, baseline: Baseline::Alphabetic },
            Label::Temperature(_) => Place { x: 20, y: 36, baseline: Baseline::Alphabetic },
            Label::TemperatureError => Place { x: 20, y: 36, baseline: Baseline::Alphabetic },
            Label::Humidity(_) => Place { x: 20, y: 40, baseline: Baseline::Top },
            Label::HumidityError => Place { x: 20, y: 40, baseline: Baseline::Alphabetic },
        }
    }

    /// The position of the label.
    pub fn place(&self) -> (place: Place)
        ensures
            place == self.spec_place(),
    {
        match self {
            Label::Splash => Place { x: 10, y: 30, baseline: Baseline::Top },
            Label::Title => Place { x: 20, y: 16, baseline: Baseline::Alphabetic },
            Label::Temperature(_) => Place { x: 20, y: 36, baseline: Baseline::Alphabetic },
            Label::TemperatureError => Place { x: 20, y: 36, baseline: Baseline::Alphabetic },
            Label::Humidity(_) => Place { x: 20, y: 40, baseline: Baseline::Top },
            Label::HumidityError => Place { x: 20, y: 40, baseline: Baseline::Alphabetic },
        }
    }

    /// Composes the text of the label. Every label fits in a message whole.
    pub fn compose(&self) -> (message: Message)
        ensures
            message@ == self.spec_text(),
            byte_len(self.spec_text()) <= MESSAGE_CAPACITY,
    {
        proof {
            lemma_fixed_texts();
        }
        match self {
            Label::Splash => fixed_message("Initialisation ..."),
            Label::Title => fixed_message("   Couveuse   "),
            Label::Temperature(t) => temperature_message(*t),
            Label::TemperatureError => fixed_message("Error"),
            Label::Humidity(percent) => humidity_message(*percent),
            Label::HumidityError => fixed_message("Error"),
        }
    }
}

/// The sizes of the texts that do not depend on a reading.
proof fn lemma_fixed_texts()
    ensures
        byte_len("Initialisation ..."@) <= 32,
        byte_len("   Couveuse   "@) <= 32,
        byte_len("Error"@) <= 32,
        byte_len("Temp: "@) == 6,
        byte_len("°C"@) == 3,
        byte_len("Humidité: "@) == 11,
        byte_len("%"@) == 1,
        byte_len("-"@) == 1,
        byte_len("."@) == 1,
{
    reveal_strlit("Initialisation ...");
    reveal_strlit("   Couveuse   ");
    reveal_strlit("Error");
    reveal_strlit("Temp: ");
    reveal_strlit("°C");
    reveal_strlit("Humidité: ");
    reveal_strlit("%");
    reveal_strlit("-");
    reveal_strlit(".");
    lemma_byte_len_ascii("Initialisation ..."@);
    lemma_byte_len_ascii("   Couveuse   "@);
    lemma_byte_len_ascii("Error"@);
    lemma_byte_len_ascii("Temp: "@);
    lemma_byte_len_ascii("%"@);
    lemma_byte_len_ascii("-"@);
    lemma_byte_len_ascii("."@);
    reveal_with_fuel(vstd::utf8::encode_utf8, 12);
}

/// A message that holds `text`.
fn fixed_message(text: &str) -> (message: Message)
    requires
        byte_len(text@) <= MESSAGE_CAPACITY,
    ensures
        message@ == text@,
{
    let mut message = Message::new();
    assert(message@ + text@ =~= text@);
    message.push_str(text);
    message
}

/// Appends `piece` to a message that has room for it.
fn push_fitting(message: &mut Message, piece: &str)
    requires
        byte_len(old(message)@) + byte_len(piece@) <= MESSAGE_CAPACITY,
    ensures
        final(message)@ == old(message)@ + piece@,
        byte_len(final(message)@) == byte_len(old(message)@) + byte_len(piece@),
{
    proof {
        lemma_byte_len_concat(message@, piece@);
    }
    message.push_str(piece);
}

/// The line that shows a humidity.
fn humidity_message(percent: u8) -> (message: Message)
    ensures
        message@ == Label::Humidity(percent).spec_text(),
        byte_len(message@) <= MESSAGE_CAPACITY,
{
    proof {
        lemma_fixed_texts();
        lemma_decimal_len(percent as nat);
        lemma_decimal_ascii(percent as nat);
        lemma_byte_len_ascii(decimal(percent as nat));
    }
    let mut message = fixed_message("Humidité: ");
    proof {
        lemma_byte_len_concat(message@, decimal(percent as nat));
    }
    push_decimal(&mut message, percent as u64);
    push_fitting(&mut message, "%");
    message
}

/// The line that shows a temperature.
fn temperature_message(t: Temperature) -> (message: Message)
    ensures
        message@ == Label::Temperature(t).spec_text(),
        byte_len(message@) <= MESSAGE_CAPACITY,
{
    let hundredths: u64 = t.hundredths();
    let whole: u64 = hundredths / 100;
    let tenth: u64 = hundredths / 10 % 10;
    let hundredth: u64 = hundredths % 10;
    proof {
        lemma_fixed_texts();
        lemma_decimal_len(whole as nat);
        lemma_decimal_ascii(whole as nat);
        lemma_byte_len_ascii(decimal(whole as nat));
        lemma_byte_len_ascii(seq![digit(tenth as nat)]);
        lemma_byte_len_ascii(seq![digit(hundredth as nat)]);
    }
    let mut message = fixed_message("Temp: ");
    if t.sixteenths < 0 {
        push_fitting(&mut message, "-");
    }
    let ghost prefix = message@;
    proof {
        lemma_byte_len_concat(message@, decimal(whole as nat));
    }
    push_decimal(&mut message, whole);
    push_fitting(&mut message, ".");
    push_fitting(&mut message, digit_str(tenth));
    push_fitting(&mut message, digit_str(hundredth));
    proof {
        reveal_strlit(".");
        assert(message@ =~= prefix + two_decimals(hundredths as nat));
        assert(message@ =~= "Temp: "@ + degrees_text(t));
    }
    push_fitting(&mut message, "°C");
    message
}

/// Two decimals read back to the hundredths.
proof fn lemma_two_decimals(hundredths: nat)
    ensures
        ({
            let number = two_decimals(hundredths);
            let point = number.len() - 3;
            &&& point >= 1
            &&& number[point] == '.'
            &&& forall|i: int|
                0 <= i < number.len() && i != point ==> is_decimal_digit(#[trigger] number[i])
            &&& point > 1 ==> number[0] != '0'
            &&& 100 * decimal_value(number.take(point)) + decimal_value(number.skip(point + 1))
                == hundredths
        }),
{
    let number = two_decimals(hundredths);
    let whole = decimal(hundredths / 100);
    let point = number.len() - 3;
    decimal_is_canonical(hundredths / 100);
    decimal_reads_back(hundredths / 100);
    assert(number.take(point) =~= whole);
    let decimals = number.skip(point + 1);
    assert(decimals =~= seq![digit(hundredths / 10 % 10), digit(hundredths % 10)]);
    assert(decimal_value(decimals) == hundredths % 100) by {
        reveal_with_fuel(decimal_value, 3);
        assert(decimals.drop_last() =~= seq![digit(hundredths / 10 % 10)]);
        assert(decimals.drop_last().drop_last() =~= Seq::<char>::empty());
    }
    assert forall|i: int| 0 <= i < number.len() && i != point implies is_decimal_digit(
        #[trigger] number[i],
    ) by {
        if i < point {
            assert(number[i] == whole[i]);
        }
    }
    assert(number[0] == whole[0]);
}

/// The line of a temperature tells the temperature: it opens with `Temp: `, a minus
/// sign if and only if it is below zero, and closes with `°C`; the number between has
/// two decimals and no needless zero before them, and is off by at most half a
/// hundredth of a degree, by a full half only where its last digit is even. Here
/// `begin` is where the number begins, and `size` the temperature without its sign.
pub proof fn temperature_line_tells_the_temperature(t: Temperature, begin: int, size: int)
    requires
        t.sixteenths < 0 ==> begin == 7 && size == -t.sixteenths,
        t.sixteenths >= 0 ==> begin == 6 && size == t.sixteenths,
    ensures
        ({
            let line = Label::Temperature(t).spec_text();
            let end = line.len() - 2;
            let number = line.subrange(begin, end);
            let point = number.len() - 3;
            let shown = 100 * decimal_value(number.take(point)) + decimal_value(
                number.skip(point + 1),
            );
            &&& line.take(6) == "Temp: "@
            &&& line[6] == '-' <==> t.sixteenths < 0
            &&& line.skip(end) == "°C"@
            &&& point >= 1
            &&& number[point] == '.'
            &&& forall|i: int|
                0 <= i < number.len() && i != point ==> is_decimal_digit(#[trigger] number[i])
            &&& point > 1 ==> number[0] != '0'
            &&& -8 <= 16 * shown - 100 * size <= 8
            &&& (16 * shown - 100 * size == 8 || 16 * shown - 100 * size == -8) ==> shown % 2 == 0
        }),
{
    let line = Label::Temperature(t).spec_text();
    let number = two_decimals(t.spec_hundredths());
    lemma_two_decimals(t.spec_hundredths());
    reveal_strlit("Temp: ");
    reveal_strlit("°C");
    reveal_strlit("-");
    assert(line.take(6) =~= "Temp: "@);
    assert(line.skip(line.len() - 2) =~= "°C"@);
    assert(line.subrange(begin, line.len() - 2) =~= number);
    assert(line[begin] == number[0]);
    assert(is_decimal_digit(number[0]));
}

/// The line of a humidity tells the humidity: between `Humidité: ` and `%` stand
/// digits, without a needless zero, that read back to the percentage itself.
pub proof fn humidity_line_tells_the_humidity(percent: u8)
    ensures
        ({
            let line = Label::Humidity(percent).spec_text();
            let number = line.subrange(10, line.len() - 1);
            &&& line.take(10) == "Humidité: "@
            &&& line.last() == '%'
            &&& number.len() >= 1
            &&& forall|i: int|
                0 <= i < number.len() ==> is_decimal_digit(#[trigger] number[i])
            &&& number.len() > 1 ==> number[0] != '0'
            &&& decimal_value(number) == percent
        }),
{
    let line = Label::Humidity(percent).spec_text();
    reveal_strlit("Humidité: ");
    reveal_strlit("%");
    decimal_is_canonical(percent as nat);
    decimal_reads_back(percent as nat);
    assert(line.take(10) =~= "Humidité: "@);
    assert(line.subrange(10, line.len() - 1) =~= decimal(percent as nat));
}

/// The place of a reading does not depend on its value: every temperature stands on
/// row 36, where its error would, and every humidity hangs from row 40.
pub proof fn readings_have_fixed_places(t: Temperature, percent: u8)
    ensures
        Label::Temperature(t).spec_place() == (Place {
            x: 20,
            y: 36,
            baseline: Baseline::Alphabetic,
        }),
        Label::Temperature(t).spec_place() == Label::TemperatureError.spec_place(),
        Label::Humidity(percent).spec_place() == (Place { x: 20, y: 40, baseline: Baseline::Top }),
{
}

/// Every label lies on the screen whole, with a temperature of at most five digits
/// before the point.
pub proof fn labels_lie_on_the_screen(label: Label)
    requires
        label matches Label::Temperature(t) ==> -1_600_000 < t.sixteenths < 1_600_000,
    ensures
        label.spec_place().x >= 0,
        label.spec_place().x + CHARACTER_WIDTH * label.spec_text().len() <= SCREEN_WIDTH,
        label.spec_place().top() >= 0,
        label.spec_place().bottom() <= SCREEN_HEIGHT,
{
    reveal_strlit("Initialisation ...");
    reveal_strlit("   Couveuse   ");
    reveal_strlit("Error");
    reveal_strlit("Temp: ");
    reveal_strlit("°C");
    reveal_strlit("-");
    reveal_strlit("Humidité: ");
    reveal_strlit("%");
    match label {
        Label::Temperature(t) => {
            lemma_decimal_len(t.spec_hundredths() / 100);
        },
        Label::Humidity(percent) => {
            lemma_decimal_len(percent as nat);
        },
        _ => {},
    }
}

/// In a frame with both readings, or with a temperature error, the three lines stand
/// one below the other.
pub proof fn lines_of_a_frame_do_not_overlap(t: Temperature, percent: u8)
    ensures
        Label::Title.spec_place().bottom() <= Label::Temperature(t).spec_place().top(),
        Label::Title.spec_place().bottom() <= Label::TemperatureError.spec_place().top(),
        Label::Temperature(t).spec_place().bottom() <= Label::Humidity(percent).spec_place().top(),
        Label::TemperatureError.spec_place().bottom() <= Label::Humidity(
            percent,
        ).spec_place().top(),
        Label::Title.spec_place().bottom() <= Label::HumidityError.spec_place().top(),
{
}

} // verus!
