//! A Buhlmann tissue-loading engine for decompression planning, verified with Verus.
//!
//! Each compartment of a tissue model tracks its inert-gas pressure under exposures to
//! breathing gas (Haldane saturation, with a linear ramp taken at its mean pressure), and
//! its M-value line gives the ceiling at any gradient. All quantities are fixed-point
//! integers: pressures in nanobar, times in seconds, ratios in billionths.

pub mod buhlmann;
pub mod compartment;
pub mod decay;
pub mod deco;
pub mod error;
pub mod gf;
pub mod mix;
pub mod models;
pub mod plan;
pub mod roots;
pub mod scr;
pub mod tank;
pub mod tank_config;
pub mod units;
pub mod utils;
pub mod water;
