//! Resolving where the caller is: by network-address providers or by a
//! free-text place query.

pub mod client;
pub mod model;
