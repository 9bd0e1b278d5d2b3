//! A temperature and humidity station that forwards each reading to a
//! collection endpoint.
//!
//! The crate holds the station's rules: how a reading is written as a JSON
//! payload, what request carries it, how the endpoint's answer is classified,
//! how the command line is read, and in which order the steps of one cycle
//! follow each other. Reading the sensor, the clock and the network is left to
//! the program that drives [`station::Station::step`].

pub mod decimal;
pub mod json;
pub mod reading;
pub mod uplink;
pub mod cli;
pub mod station;
