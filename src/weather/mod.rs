//! Current weather: the record, its mapping from a provider response, and icons.

pub mod client;
pub mod emoji;
pub mod model;
