//! Reading and shaping inverter data served by the Solarman cloud API.
//!
//! The library holds the request and response shapes of the API, the
//! conversions of the string readings the API reports, the assembly of a
//! database record from one report, and the small decisions around the HTTP
//! exchanges. Sending requests, decoding JSON and writing to the database are
//! left to the caller.

pub mod text;
pub mod time;
pub mod models;
pub mod record;
pub mod api;
pub mod backfill;
pub mod laws;
