//! Client-side logic for a UniFi-style network controller: request
//! addresses, reply handling, and the host listings derived from the
//! controller's client records.

pub mod text;
pub mod hosts;
pub mod report;
pub mod unificlient;
