//! A garden drawn from a year of activity: a calendar grid of commit
//! intensity, sprites scattered by contribution counters, and a landmark,
//! composed into one vector image.
//!
//! Every executable function in this crate carries a contract that Verus
//! proves. The crate reads no clock, no file and no network: whoever calls
//! it hands in the day, the time, the pictures and what was fetched.
//!
//! Numbers are whole numbers throughout. Lengths count units, of which
//! [`utils::coordinate::UNITS_PER_PIXEL`] make a pixel; shares count
//! hundredths of a percent; days are numbered through the proleptic
//! Gregorian calendar; times count the ticks of the caller's clock.
//!
//! - [`utils::coordinate`] places a sprite by a key, off a zone if it can.
//! - [`render`] holds the catalog of sprites, the layers and the image.
//! - [`cache`] keeps what was fetched until its time is up, and
//!   [`services::farm`] decides when to fetch and draws what was fetched.
//! - [`api`] reads the answers of the services that the data comes from.

pub mod api;
pub mod cache;
pub mod constants;
pub mod controllers;
pub mod env;
pub mod render;
pub mod services;
pub mod utils;
