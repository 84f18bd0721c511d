//! What the command line asks for.

use vstd::prelude::*;

use crate::location::client::LocationProvider;
use crate::units::Units;

verus! {

/// Settings read from the command line; `None` where a setting was not given.
#[derive(Clone, Debug)]
pub struct Options {
    pub units: Option<Units>,
    pub connect_timeout: Option<u64>,
    pub timeout: Option<u64>,
    pub query: Option<String>,
    pub location_provider: Option<LocationProvider>,
    pub full_info: Option<bool>,
    pub silent: Option<bool>,
    pub version: Option<String>,
    pub help: Option<String>,
}

} // verus!
