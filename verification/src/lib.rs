//! Measurement and calibration core of an SGP30 air-quality station.
//!
//! The crate holds the rules of the station and proves them: how an absolute
//! humidity is turned into the sensor's 8.8 fixed-point pair, which inputs
//! are accepted, and in which order the sensor is initialised, calibrated
//! and read. Bus transfers, files and the web front end stay with the
//! caller, which performs each [`session::Action`] and reports back with a
//! [`session::Event`].

pub mod error;
pub mod binary32;
pub mod humidity;
pub mod driver;
pub mod air_quality;
pub mod baseline;
pub mod session;
pub mod trace;
pub mod request;
