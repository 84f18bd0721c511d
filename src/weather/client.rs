//! The weather request, and how a provider's answer becomes a `Weather`.

use vstd::prelude::*;

use crate::datetime::DateTime;
use crate::emoji::icon_rule_spec;
use crate::location::model::Coordinates;
use crate::text::{capitalize, capitalized};
use crate::units::{query_name_spec, Units};
use crate::weather::emoji::{get_emoji, icon_spec};
use crate::weather::model::{Weather, Wind};

verus! {

/// Current-weather endpoint.
pub const URL_WEATHER: &'static str = "http://api.openweathermap.org/data/2.5/weather";

/// Text of a reading that a provider did not give.
pub const ZERO_READING: &'static str = "0";

/// The current-weather request for a place and a unit system, with API key
/// `appid`.
pub open spec fn weather_url_spec(
    latitude: Seq<char>,
    longitude: Seq<char>,
    units: Units,
    appid: Seq<char>,
) -> Seq<char> {
    URL_WEATHER@ + "?lat="@ + latitude + "&lon="@ + longitude + "&units="@ + query_name_spec(units)
        + "&appid="@ + appid
}

/// The current-weather request for `coordinates` in `units`.
pub fn weather_url(coordinates: &Coordinates, units: Units, appid: &str) -> (r: String)
    ensures
        r@ == weather_url_spec(coordinates.latitude@, coordinates.longitude@, units, appid@),
{
    let units_name = units.to_string();
    String::from_str(URL_WEATHER).concat("?lat=").concat(coordinates.latitude.as_str()).concat(
        "&lon=",
    ).concat(coordinates.longitude.as_str()).concat("&units=").concat(units_name.as_str()).concat(
        "&appid=",
    ).concat(appid)
}

/// One weather condition of an answer.
#[derive(Clone, Debug)]
pub struct WeatherMap {
    pub description: String,
}

/// The main readings of an answer.
#[derive(Clone, Debug)]
pub struct WeatherMain {
    pub temp: String,
    pub feels_like: String,
    pub temp_min: String,
    pub temp_max: String,
    pub pressure: i32,
    pub humidity: i32,
    pub sea_level: Option<i32>,
    pub grnd_level: Option<i32>,
}

impl Default for WeatherMain {
    /// Zero readings, sea and ground level absent.
    fn default() -> (r: Self)
        ensures
            r.temp@ == ZERO_READING@,
            r.feels_like@ == ZERO_READING@,
            r.temp_min@ == ZERO_READING@,
            r.temp_max@ == ZERO_READING@,
            r.pressure == 0,
            r.humidity == 0,
            r.sea_level is None,
            r.grnd_level is None,
    {
        WeatherMain {
            temp: String::from_str(ZERO_READING),
            feels_like: String::from_str(ZERO_READING),
            temp_min: String::from_str(ZERO_READING),
            temp_max: String::from_str(ZERO_READING),
            pressure: 0,
            humidity: 0,
            sea_level: None,
            grnd_level: None,
        }
    }
}

/// The wind readings of an answer, each of which may be missing.
#[derive(Clone, Debug)]
pub struct WeatherWindMap {
    pub speed: Option<String>,
    pub deg: Option<i32>,
    pub gust: Option<String>,
}

/// A reading, or zero when it is missing.
pub open spec fn reading_or_zero(v: Option<Seq<char>>) -> Seq<char> {
    match v {
        Some(x) => x,
        None => ZERO_READING@,
    }
}

fn unwrap_reading(v: Option<String>) -> (r: String)
    ensures
        r@ == reading_or_zero(v.deep_view()),
{
    match v {
        Some(x) => x,
        None => String::from_str(ZERO_READING),
    }
}

impl WeatherWindMap {
    /// The wind, with zero for each missing reading.
    pub fn into_wind(self) -> (r: Wind)
        ensures
            r.speed@ == reading_or_zero(self.speed.deep_view()),
            r.degrees == match self.deg {
                Some(d) => d,
                None => 0,
            },
            r.gust@ == reading_or_zero(self.gust.deep_view()),
    {
        Wind {
            speed: unwrap_reading(self.speed),
            degrees: match self.deg {
                Some(d) => d,
                None => 0,
            },
            gust: unwrap_reading(self.gust),
        }
    }
}

/// Cloud cover of an answer, in percent.
#[derive(Clone, Debug)]
pub struct WeatherClouds {
    pub all: i32,
}

/// Sunrise and sunset of an answer, in seconds since the Unix epoch.
#[derive(Clone, Debug)]
pub struct WeatherSys {
    pub sunrise: u64,
    pub sunset: u64,
}

/// A current-weather answer; each part may be missing.
#[derive(Clone, Debug)]
pub struct WeatherResponse {
    pub weather: Option<Vec<WeatherMap>>,
    pub main: Option<WeatherMain>,
    pub wind: Option<WeatherWindMap>,
    pub clouds: Option<WeatherClouds>,
    pub dt: Option<u64>,
    pub sys: Option<WeatherSys>,
}

/// The description of an answer's first condition; empty when it lists none.
pub open spec fn description_spec(weather: Option<Vec<WeatherMap>>) -> Seq<char> {
    match weather {
        Some(v) => if v@.len() > 0 {
            v@[0].description@
        } else {
            Seq::<char>::empty()
        },
        None => Seq::<char>::empty(),
    }
}

/// The icon for a description: that of its rule, or empty text.
pub open spec fn icon_text_spec(d: Seq<char>) -> Seq<char> {
    match icon_rule_spec(d) {
        Some(k) => icon_spec(k),
        None => Seq::<char>::empty(),
    }
}

fn first_description(weather: Option<Vec<WeatherMap>>) -> (r: String)
    ensures
        r@ == description_spec(weather),
{
    match weather {
        Some(mut v) => {
            if v.len() > 0 {
                let first = v.swap_remove(0);
                first.description
            } else {
                String::new()
            }
        },
        None => String::new(),
    }
}

impl WeatherResponse {
    /// The weather the answer reports. Missing readings are zero, missing
    /// times are the epoch, a missing condition gives an empty description;
    /// the description gets an upper-case first letter and the icon of the
    /// keyword table, or no icon.
    pub fn into_weather(self) -> (r: Weather)
        ensures
            r.description@ == capitalized(description_spec(self.weather)),
            r.icon@ == icon_text_spec(description_spec(self.weather)),
            match self.main {
                Some(m) => {
                    &&& r.temperature@ == m.temp@
                    &&& r.feels_like@ == m.feels_like@
                    &&& r.min_temperature@ == m.temp_min@
                    &&& r.max_temperature@ == m.temp_max@
                    &&& r.pressure == m.pressure
                    &&& r.humidity == m.humidity
                    &&& r.sea_level == m.sea_level
                    &&& r.ground_level == m.grnd_level
                },
                None => {
                    &&& r.temperature@ == ZERO_READING@
                    &&& r.feels_like@ == ZERO_READING@
                    &&& r.min_temperature@ == ZERO_READING@
                    &&& r.max_temperature@ == ZERO_READING@
                    &&& r.pressure == 0
                    &&& r.humidity == 0
                    &&& r.sea_level is None
                    &&& r.ground_level is None
                },
            },
            match self.wind {
                Some(w) => {
                    &&& r.wind.speed@ == reading_or_zero(w.speed.deep_view())
                    &&& r.wind.degrees == match w.deg {
                        Some(d) => d,
                        None => 0,
                    }
                    &&& r.wind.gust@ == reading_or_zero(w.gust.deep_view())
                },
                None => r.wind.speed@ == ZERO_READING@ && r.wind.degrees == 0 && r.wind.gust@
                    == ZERO_READING@,
            },
            r.clouds == match self.clouds {
                Some(c) => c.all,
                None => 0,
            },
            r.date_time@ == match self.dt {
                Some(t) => t,
                None => 0,
            },
            r.sunrise@ == match self.sys {
                Some(s) => s.sunrise,
                None => 0,
            },
            r.sunset@ == match self.sys {
                Some(s) => s.sunset,
                None => 0,
            },
    {
        let description = first_description(self.weather);
        let icon = match get_emoji(description.as_str()) {
            Some(i) => String::from_str(i),
            None => String::new(),
        };
        let main = match self.main {
            Some(m) => m,
            None => WeatherMain::default(),
        };
        let wind = match self.wind {
            Some(w) => w.into_wind(),
            None => Wind {
                speed: String::from_str(ZERO_READING),
                degrees: 0,
                gust: String::from_str(ZERO_READING),
            },
        };
        let (sunrise, sunset) = match self.sys {
            Some(s) => (s.sunrise, s.sunset),
            None => (0, 0),
        };
        Weather {
            temperature: main.temp,
            icon,
            description: capitalize(description.as_str()),
            feels_like: main.feels_like,
            min_temperature: main.temp_min,
            max_temperature: main.temp_max,
            pressure: main.pressure,
            humidity: main.humidity,
            sea_level: main.sea_level,
            ground_level: main.grnd_level,
            wind,
            clouds: match self.clouds {
                Some(c) => c.all,
                None => 0,
            },
            date_time: DateTime::from_unix(
                match self.dt {
                    Some(t) => t,
                    None => 0,
                },
            ),
            sunrise: DateTime::from_unix(sunrise),
            sunset: DateTime::from_unix(sunset),
        }
    }
}

} // verus!
