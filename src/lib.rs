//! Weather lookup: location resolution, weather mapping and report rendering,
//! with the decisions of the progress spinner as a state machine.

pub mod datetime;
pub mod emoji;
pub mod info;
pub mod location;
pub mod options;
pub mod spinner;
pub mod text;
pub mod units;
pub mod weather;
