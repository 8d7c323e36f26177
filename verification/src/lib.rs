//! Electrical power subsystem (EPS) model for a small satellite.
//!
//! The crate models power generation (solar panels), storage (a battery with
//! efficiency losses, rate limits and health derating), distribution
//! (switchable loads owned by a distribution unit), and the controller that
//! balances generation against demand each simulation tick, shedding
//! non-critical loads and falling back to safe mode under a sustained
//! deficit.
//!
//! All physical quantities are integers in fixed sub-units so that every
//! computation is exact and verifiable:
//!
//! - power in microwatts (uW),
//! - energy in microwatt-hours (uWh),
//! - tick duration in thousandths of an hour (mh),
//! - efficiencies, pointing-angle modifiers and degradation factors in
//!   per-mille (0..=1000 standing for 0.0..=1.0),
//! - battery health in percent (0..=100),
//! - panel area in square centimetres,
//! - solar intensity in watts per square metre.

pub mod battery;
pub mod consts;
pub mod enums;
pub mod eps;
pub mod pdu;
pub mod solar_panel;
