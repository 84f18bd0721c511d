//! The current-weather record. Readings that providers give as fractional
//! numbers are kept as the decimal text they read as (`25.8`): a report only
//! shows them.

use vstd::prelude::*;

use crate::datetime::DateTime;
use crate::units::Units;

verus! {

/// The unit of wind speed in a unit system.
pub open spec fn speed_unit_spec(units: Units) -> Seq<char> {
    match units {
        Units::Celsius => "meter/sec"@,
        Units::Fahrenheit => "miles/hour"@,
    }
}

/// A wind speed with its unit.
pub open spec fn speed_text_spec(value: Seq<char>, units: Units) -> Seq<char> {
    value + " "@ + speed_unit_spec(units)
}

/// Wind readings.
#[derive(Clone, Debug)]
pub struct Wind {
    pub speed: String,
    pub degrees: i32,
    pub gust: String,
}

impl Wind {
    /// The unit of wind speed: meters per second for metric reports, miles per
    /// hour for imperial ones.
    pub fn format_metric(units: Units) -> (r: &'static str)
        ensures
            r@ == speed_unit_spec(units),
    {
        match units {
            Units::Celsius => "meter/sec",
            Units::Fahrenheit => "miles/hour",
        }
    }

    /// The speed with its unit.
    pub fn format_speed(&self, units: Units) -> (r: String)
        ensures
            r@ == speed_text_spec(self.speed@, units),
    {
        self.speed.clone().concat(" ").concat(Wind::format_metric(units))
    }

    /// The gust speed with its unit.
    pub fn format_gust(&self, units: Units) -> (r: String)
        ensures
            r@ == speed_text_spec(self.gust@, units),
    {
        self.gust.clone().concat(" ").concat(Wind::format_metric(units))
    }
}

/// Current weather at a place.
#[derive(Clone, Debug)]
pub struct Weather {
    pub temperature: String,
    pub icon: String,
    pub description: String,
    pub feels_like: String,
    pub min_temperature: String,
    pub max_temperature: String,
    pub pressure: i32,
    pub humidity: i32,
    pub sea_level: Option<i32>,
    pub ground_level: Option<i32>,
    pub wind: Wind,
    pub clouds: i32,
    pub date_time: DateTime,
    pub sunrise: DateTime,
    pub sunset: DateTime,
}

} // verus!
