//! Temperatures as the DS18B20 sensor gives them, and the range in which hen eggs
//! are incubated.

use vstd::prelude::*;

verus! {

/// Lower end of the ideal range, in tenths of a degree Celsius (37.5 °C).
pub const TEMP_MIN: i32 = 375;

/// Upper end of the ideal range, in tenths of a degree Celsius (37.8 °C).
pub const TEMP_MAX: i32 = 378;

/// A temperature in sixteenths of a degree Celsius, the finest step of the sensor.
#[derive(Clone, Copy, Debug, PartialEq, Eq, Structural)]
pub struct Temperature {
    pub sixteenths: i32,
}

/// Where a temperature lies with respect to the ideal range.
#[derive(Clone, Copy, Debug, PartialEq, Eq, Structural)]
pub enum Band {
    /// Below `TEMP_MIN`.
    TooCold,
    /// Strictly between `TEMP_MIN` and `TEMP_MAX`.
    Ideal,
    /// Above `TEMP_MAX`.
    TooHot,
    /// Exactly `TEMP_MIN` or `TEMP_MAX`.
    Threshold,
}

/// `n / d` rounded to the nearest integer, and to the even one of the two nearest
/// where `n / d` lies halfway.
pub open spec fn round_half_even(n: nat, d: nat) -> nat {
    let quotient = n / d;
    let remainder = n % d;
    if 2 * remainder < d || (2 * remainder == d && quotient % 2 == 0) {
        quotient
    } else {
        quotient + 1
    }
}

impl Temperature {
    /// The temperature is below `tenths` tenths of a degree.
    pub open spec fn is_below(self, tenths: int) -> bool {
        10 * self.sixteenths < 16 * tenths
    }

    /// The temperature is above `tenths` tenths of a degree.
    pub open spec fn is_above(self, tenths: int) -> bool {
        10 * self.sixteenths > 16 * tenths
    }

    /// The band of the temperature.
    pub open spec fn spec_band(self) -> Band {
        if self.is_below(TEMP_MIN as int) {
            Band::TooCold
        } else if self.is_above(TEMP_MAX as int) {
            Band::TooHot
        } else if self.is_above(TEMP_MIN as int) && self.is_below(TEMP_MAX as int) {
            Band::Ideal
        } else {
            Band::Threshold
        }
    }

    /// The absolute value of the temperature in sixteenths of a degree.
    pub open spec fn magnitude(self) -> nat {
        if self.sixteenths < 0 {
            (-self.sixteenths) as nat
        } else {
            self.sixteenths as nat
        }
    }

    /// The absolute value of the temperature, rounded to hundredths of a degree.
    pub open spec fn spec_hundredths(self) -> nat {
        round_half_even(100 * self.magnitude(), 16)
    }

    /// The band of the temperature.
    pub fn band(&self) -> (band: Band)
        ensures
            band == self.spec_band(),
    {
        let scaled: i64 = 10 * (self.sixteenths as i64);
        let low: i64 = 16 * (TEMP_MIN as i64);
        let high: i64 = 16 * (TEMP_MAX as i64);
        if scaled < low {
            Band::TooCold
        } else if scaled > high {
            Band::TooHot
        } else if scaled > low && scaled < high {
            Band::Ideal
        } else {
            Band::Threshold
        }
    }

    /// The absolute value of the temperature in hundredths of a degree, rounded to
    /// the nearest, halves to even.
    pub fn hundredths(&self) -> (hundredths: u64)
        ensures
            hundredths == self.spec_hundredths(),
    {
        let wide: i64 = self.sixteenths as i64;
        let magnitude: u64 = if wide < 0 {
            (-wide) as u64
        } else {
            wide as u64
        };
        let scaled: u64 = 100 * magnitude;
        let quotient: u64 = scaled / 16;
        let remainder: u64 = scaled % 16;
        if remainder < 8 || (remainder == 8 && quotient % 2 == 0) {
            quotient
        } else {
            quotient + 1
        }
    }
}

/// Rounding stays within half a unit of `n / d`, and within a full half only at an
/// even number. No other number does.
pub proof fn rounding_is_nearest_even(n: nat, d: nat, r: nat)
    requires
        d > 0,
    ensures
        r == round_half_even(n, d) <==> {
            let error = d * r - n;
            &&& -d <= 2 * error <= d
            &&& (2 * error == d || 2 * error == -d) ==> r % 2 == 0
        },
{
    let q = n / d;
    let rem = n % d;
    assert(n == d * q + rem && rem < d) by {
        vstd::arithmetic::div_mod::lemma_fundamental_div_mod(n as int, d as int);
        vstd::arithmetic::div_mod::lemma_mod_bound(n as int, d as int);
    }
    assert(d * (q + 1) == d * q + d) by (nonlinear_arith);
    if r < q {
        assert(d * r <= d * q - d) by (nonlinear_arith)
            requires
                r + 1 <= q,
                d > 0,
        ;
    } else if r > q + 1 {
        assert(d * r >= d * q + 2 * d) by (nonlinear_arith)
            requires
                r >= q + 2,
                d > 0,
        ;
    }
}

/// Of the temperatures that the sensor can give, 37.5 °C alone lies on a threshold.
pub proof fn only_the_lower_threshold_is_met(t: Temperature)
    ensures
        t.spec_band() == Band::Threshold <==> t.sixteenths == 600,
{
}

/// The bands in degrees: below 37.5 °C is too cold, above 37.8 °C too hot, and what
/// lies strictly between is ideal.
pub proof fn bands_in_degrees(t: Temperature)
    ensures
        t.spec_band() == Band::TooCold <==> 10 * t.sixteenths < 16 * 375,
        t.spec_band() == Band::TooHot <==> 10 * t.sixteenths > 16 * 378,
        t.spec_band() == Band::Ideal <==> 16 * 375 < 10 * t.sixteenths < 16 * 378,
        t.spec_band() == Band::Threshold <==> 10 * t.sixteenths == 16 * 375,
        forall|tenths: int| #[trigger]
            t.is_below(tenths) <==> 10 * t.sixteenths < 16 * tenths,
        forall|tenths: int| #[trigger]
            t.is_above(tenths) <==> 10 * t.sixteenths > 16 * tenths,
{
}

/// The hundredths of a temperature are off by at most half a hundredth, and by a full
/// half only where they are even; a temperature and its opposite have the same.
pub proof fn hundredths_are_nearest(t: Temperature, opposite: Temperature)
    requires
        opposite.sixteenths == -t.sixteenths,
    ensures
        t.sixteenths >= 0 ==> {
            let error = 16 * t.spec_hundredths() - 100 * t.sixteenths;
            &&& -8 <= error <= 8
            &&& (error == 8 || error == -8) ==> t.spec_hundredths() % 2 == 0
        },
        t.spec_hundredths() == opposite.spec_hundredths(),
{
}

/// A warmer temperature never lies in a colder band.
pub proof fn bands_are_ordered(a: Temperature, b: Temperature)
    requires
        a.sixteenths <= b.sixteenths,
    ensures
        b.spec_band() == Band::TooCold ==> a.spec_band() == Band::TooCold,
        a.spec_band() == Band::TooHot ==> b.spec_band() == Band::TooHot,
        a.spec_band() == Band::Ideal ==> b.spec_band() == Band::Ideal || b.spec_band()
            == Band::TooHot,
{
}

} // verus!
