//! The report shown for a location and its weather.

use vstd::prelude::*;

use crate::datetime::{rfc3339_seconds_of, FIRST_UNFORMATTABLE};
use crate::location::model::{Location, NOT_DEFINED};
use crate::text::{capitalize, capitalized, decimal, decimal_spec};
use crate::units::{symbol_spec, Units};
use crate::weather::model::{speed_text_spec, Weather, Wind};

verus! {

/// The one-line summary: city, country, temperature with its unit symbol, icon.
pub open spec fn summary_spec(l: Location, w: Weather, u: Units) -> Seq<char> {
    l.city@ + ", "@ + l.country@ + ": "@ + w.temperature@ + symbol_spec(u) + " "@ + w.icon@
}

/// A level in hectopascal, or the stand-in when it is missing.
pub open spec fn level_spec(v: Option<i32>) -> Seq<char> {
    match v {
        Some(x) => decimal_spec(x as int),
        None => NOT_DEFINED@,
    }
}

/// The description and the temperatures, each on a line of its own.
pub open spec fn readings_spec(w: Weather, u: Units) -> Seq<char> {
    "\nWeather: "@ + capitalized(w.description@) + "\nFeels like: "@ + w.feels_like@
        + symbol_spec(u) + "\nMin: "@ + w.min_temperature@ + symbol_spec(u) + "\nMax: "@
        + w.max_temperature@ + symbol_spec(u)
}

/// Humidity, pressure, sea and ground level, and cloud cover.
pub open spec fn levels_spec(w: Weather) -> Seq<char> {
    "\nHumidity: "@ + decimal_spec(w.humidity as int) + "%"@ + "\nPressure: "@ + decimal_spec(
        w.pressure as int,
    ) + " hPa"@ + "\nSea level: "@ + level_spec(w.sea_level) + " hPa"@ + "\nGround level: "@
        + level_spec(w.ground_level) + " hPa"@ + "\nClouds: "@ + decimal_spec(w.clouds as int)
        + "%"@
}

/// The wind block.
pub open spec fn wind_spec(wind: Wind, u: Units) -> Seq<char> {
    "\nWind:\n  Speed: "@ + speed_text_spec(wind.speed@, u) + "\n  Degrees: "@ + decimal_spec(
        wind.degrees as int,
    ) + "\n  Gust: "@ + speed_text_spec(wind.gust@, u)
}

/// The coordinates block and the three times.
pub open spec fn place_and_times_spec(l: Location, w: Weather) -> Seq<char> {
    "\nCoordinates:\n  Longitude: "@ + l.coordinates.longitude@ + "\n  Latitude: "@
        + l.coordinates.latitude@ + "\nSunrise: "@ + rfc3339_seconds_of(w.sunrise@)
        + "\nSunset: "@ + rfc3339_seconds_of(w.sunset@) + "\nDate/time: "@ + rfc3339_seconds_of(
        w.date_time@,
    )
}

/// The lines that the full report adds after the summary.
pub open spec fn details_spec(l: Location, w: Weather, u: Units) -> Seq<char> {
    readings_spec(w, u) + levels_spec(w) + wind_spec(w.wind, u) + place_and_times_spec(l, w)
}

/// The report: the summary, followed by the details when it is full.
pub open spec fn report_spec(l: Location, w: Weather, u: Units, verbose: bool) -> Seq<char> {
    if verbose {
        summary_spec(l, w, u) + details_spec(l, w, u)
    } else {
        summary_spec(l, w, u)
    }
}

/// The times of the weather can all be shown as RFC 3339 text.
pub open spec fn times_formattable(w: Weather) -> bool {
    &&& w.sunrise@ < FIRST_UNFORMATTABLE
    &&& w.sunset@ < FIRST_UNFORMATTABLE
    &&& w.date_time@ < FIRST_UNFORMATTABLE
}

fn level_text(v: Option<i32>) -> (r: String)
    ensures
        r@ == level_spec(v),
{
    match v {
        Some(x) => decimal(x),
        None => String::from_str(NOT_DEFINED),
    }
}

/// A report on a location's weather, short or full.
#[derive(Clone, Copy, Debug)]
pub struct Info<'a> {
    location: &'a Location,
    weather: &'a Weather,
    units: Units,
    verbose: bool,
}

impl<'a> View for Info<'a> {
    /// Location, weather, unit system, and whether the report is full.
    type V = (Location, Weather, Units, bool);

    closed spec fn view(&self) -> Self::V {
        (*self.location, *self.weather, self.units, self.verbose)
    }
}

impl<'a> Info<'a> {
    /// A short report.
    pub fn new(location: &'a Location, weather: &'a Weather, units: Units) -> (r: Self)
        ensures
            r@ == (*location, *weather, units, false),
    {
        Info { location, weather, units, verbose: false }
    }

    /// The same report, full or short as `verbose` says.
    pub fn set_verbose(self, verbose: bool) -> (r: Self)
        ensures
            r@ == (self@.0, self@.1, self@.2, verbose),
    {
        Info { verbose, ..self }
    }

    /// The text of the report.
    pub fn to_string(&self) -> (r: String)
        requires
            times_formattable(self@.1),
        ensures
            r@ == report_spec(self@.0, self@.1, self@.2, self@.3),
    {
        let l = self.location;
        let w = self.weather;
        let symbol = self.units.symbol();
        let summary = l.city.clone().concat(", ").concat(l.country.as_str()).concat(": ").concat(
            w.temperature.as_str(),
        ).concat(symbol).concat(" ").concat(w.icon.as_str());
        if !self.verbose {
            return summary;
        }
        let details = details_text(l, w, self.units);
        summary.concat(details.as_str())
    }
}

fn readings_text(w: &Weather, units: Units) -> (r: String)
    ensures
        r@ == readings_spec(*w, units),
{
    let symbol = units.symbol();
    let description = capitalize(w.description.as_str());
    String::from_str("\nWeather: ").concat(description.as_str()).concat("\nFeels like: ").concat(
        w.feels_like.as_str(),
    ).concat(symbol).concat("\nMin: ").concat(w.min_temperature.as_str()).concat(symbol).concat(
        "\nMax: ",
    ).concat(w.max_temperature.as_str()).concat(symbol)
}

fn levels_text(w: &Weather) -> (r: String)
    ensures
        r@ == levels_spec(*w),
{
    let humidity = decimal(w.humidity);
    let pressure = decimal(w.pressure);
    let sea_level = level_text(w.sea_level);
    let ground_level = level_text(w.ground_level);
    let clouds = decimal(w.clouds);
    String::from_str("\nHumidity: ").concat(humidity.as_str()).concat("%").concat(
        "\nPressure: ",
    ).concat(pressure.as_str()).concat(" hPa").concat("\nSea level: ").concat(
        sea_level.as_str(),
    ).concat(" hPa").concat("\nGround level: ").concat(ground_level.as_str()).concat(
        " hPa",
    ).concat("\nClouds: ").concat(clouds.as_str()).concat("%")
}

fn wind_text(wind: &Wind, units: Units) -> (r: String)
    ensures
        r@ == wind_spec(*wind, units),
{
    let speed = wind.format_speed(units);
    let degrees = decimal(wind.degrees);
    let gust = wind.format_gust(units);
    String::from_str("\nWind:\n  Speed: ").concat(speed.as_str()).concat("\n  Degrees: ").concat(
        degrees.as_str(),
    ).concat("\n  Gust: ").concat(gust.as_str())
}

fn place_and_times_text(l: &Location, w: &Weather) -> (r: String)
    requires
        times_formattable(*w),
    ensures
        r@ == place_and_times_spec(*l, *w),
{
    let sunrise = w.sunrise.to_string();
    let sunset = w.sunset.to_string();
    let date_time = w.date_time.to_string();
    String::from_str("\nCoordinates:\n  Longitude: ").concat(
        l.coordinates.longitude.as_str(),
    ).concat("\n  Latitude: ").concat(l.coordinates.latitude.as_str()).concat(
        "\nSunrise: ",
    ).concat(sunrise.as_str()).concat("\nSunset: ").concat(sunset.as_str()).concat(
        "\nDate/time: ",
    ).concat(date_time.as_str())
}

fn details_text(l: &Location, w: &Weather, units: Units) -> (r: String)
    requires
        times_formattable(*w),
    ensures
        r@ == details_spec(*l, *w, units),
{
    let readings = readings_text(w, units);
    let levels = levels_text(w);
    let wind = wind_text(&w.wind, units);
    let rest = place_and_times_text(l, w);
    readings.concat(levels.as_str()).concat(wind.as_str()).concat(rest.as_str())
}

} // verus!
