//! A deterministic, age- and gender-structured population model.
//!
//! Counts are integers; rates are fixed-point numbers in millionths, so every
//! yearly transition is an exact, reproducible computation.
pub mod dynamics;
pub mod population;
pub mod simulator;
pub mod stability;
pub mod tables;
