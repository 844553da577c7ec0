//! Verified core of a small weather station: wire-protocol decoders for the
//! attached sensors, the per-driver read-caching policy, and the polling
//! engine that collects measurement bundles and hands them to a transmitter.
//!
//! All physical quantities are carried as fixed-point integers: the wire
//! protocols deliver values scaled by 0.1, and the measurement model stores
//! temperatures in hundredths of a degree so that unit conversions of exact
//! inputs stay exact.

pub mod errors;
pub mod bus;
pub mod engine;
pub mod modality;
pub mod payload;
pub mod readouts;
pub mod sensors;
pub mod transmitters;
