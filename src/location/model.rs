//! The resolved location.

use vstd::prelude::*;

verus! {

/// A point on Earth. Each angle is kept as the decimal text in degrees that
/// the provider's number reads as (`-7.9194`, `0`): a report only ever shows
/// it or hands it on in a query.
#[derive(Clone, Debug)]
pub struct Coordinates {
    pub latitude: String,
    pub longitude: String,
}

impl Coordinates {
    pub fn new(latitude: String, longitude: String) -> (r: Self)
        ensures
            r.latitude@ == latitude@,
            r.longitude@ == longitude@,
    {
        Coordinates { latitude, longitude }
    }
}

/// Where the weather is looked up, as one provider reported it.
#[derive(Clone, Debug)]
pub struct Location {
    pub city: String,
    pub country: String,
    pub coordinates: Coordinates,
}

/// Text that stands for a value a provider did not give.
pub const NOT_DEFINED: &'static str = "N/D";

/// Text of a coordinate that a provider did not give.
pub const ZERO_COORDINATE: &'static str = "0";

impl View for Location {
    /// City, country, latitude and longitude.
    type V = (Seq<char>, Seq<char>, Seq<char>, Seq<char>);

    open spec fn view(&self) -> Self::V {
        (self.city@, self.country@, self.coordinates.latitude@, self.coordinates.longitude@)
    }
}

/// The value of an optional text, or the stand-in for a missing value.
pub open spec fn or_not_defined(v: Option<Seq<char>>) -> Seq<char> {
    match v {
        Some(x) => x,
        None => NOT_DEFINED@,
    }
}

/// The text of an optional value, or the stand-in for a missing value.
pub fn unwrap_or_not_defined(v: Option<String>) -> (r: String)
    ensures
        r@ == or_not_defined(v.deep_view()),
{
    match v {
        Some(x) => x,
        None => String::from_str(NOT_DEFINED),
    }
}

} // verus!
