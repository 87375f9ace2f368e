//! Discrete time-step simulation of the electrical and thermal energy balance
//! of buildings and nested grid cells.
//!
//! All quantities are integers in fixed units:
//! - power in watts (W);
//! - energy in watt-steps: one watt held for one simulation step of a quarter
//!   hour, i.e. 0.25 Wh;
//! - efficiencies and relative values in per mille;
//! - temperatures in hundredths of a degree Celsius.
pub mod units;
mod random;
pub mod storage;
pub mod boiler;
pub mod chp;
pub mod control;
pub mod heatpump;
pub mod tank;
pub mod chp_system;
pub mod sizing;
pub mod heatpump_system;
pub mod agent;
pub mod sep_bsl_agent;
pub mod hist_memory;
pub mod pv;
pub mod solarthermal;
pub mod wind;
pub mod building;
pub mod cell;
