//! Simulation core of an endless-lane runner.
//!
//! All quantities are integers: time in milliseconds, lengths in
//! millimetres, and the health and resource meters in thousandths of a
//! full meter.
pub mod commands;
pub mod generator;
pub mod geometry;
pub mod gui;
pub mod kinematics;
pub mod obstacles;
pub mod world;
