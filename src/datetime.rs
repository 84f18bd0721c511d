//! Instants given as seconds since the Unix epoch, shown as RFC 3339 text.

use vstd::prelude::*;

verus! {

/// First second, counted from the epoch, of the year 10000: RFC 3339 text has
/// four digits for the year.
pub const FIRST_UNFORMATTABLE: u64 = 253_402_300_800;

/// RFC 3339 text, UTC, whole seconds, of the instant `secs` seconds after the
/// Unix epoch.
pub uninterp spec fn rfc3339_seconds_of(secs: u64) -> Seq<char>;

/// Relies on humantime::format_rfc3339_seconds, whose `Display` writes the
/// UTC date and time to the second and fails from the year 10000 on.
#[verifier::external_body]
fn format_rfc3339_seconds(secs: u64) -> (r: String)
    requires
        secs < FIRST_UNFORMATTABLE,
    ensures
        r@ == rfc3339_seconds_of(secs),
{
    let time = std::time::UNIX_EPOCH + std::time::Duration::from_secs(secs);
    humantime::format_rfc3339_seconds(time).to_string()
}

/// An instant, to the second, at or after the Unix epoch.
#[derive(Clone, Copy, Debug, PartialEq, Eq, Structural)]
pub struct DateTime {
    secs: u64,
}

impl View for DateTime {
    type V = u64;

    closed spec fn view(&self) -> u64 {
        self.secs
    }
}

impl DateTime {
    /// The instant `value` seconds after the Unix epoch.
    pub fn from_unix(value: u64) -> (r: Self)
        ensures
            r@ == value,
    {
        DateTime { secs: value }
    }

    /// Seconds since the Unix epoch.
    pub fn unix(&self) -> (r: u64)
        ensures
            r == self@,
    {
        self.secs
    }

    /// RFC 3339 text of the instant, in UTC, to the second.
    pub fn to_string(&self) -> (r: String)
        requires
            self@ < FIRST_UNFORMATTABLE,
        ensures
            r@ == rfc3339_seconds_of(self@),
    {
        format_rfc3339_seconds(self.secs)
    }
}

} // verus!
