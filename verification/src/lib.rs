//! Drives the visual state of an electric fireplace appliance: a model of
//! every controllable light channel, a byte-exact wire encoding of that
//! model, a composer that derives channel settings from physical
//! percentages, and a time-driven controller that winds the fire down
//! towards a bedtime deadline.

pub mod codec;
pub mod commands;
pub mod controller;
pub mod model;

pub use model::{Color, Flame, MoodLightLedString, PrimaryLedString, SecondaryLedString};
