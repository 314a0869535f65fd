//! A closed-loop thermal governor for CPU frequency caps.
//!
//! The crate holds the decisions of the governor: how control files are read
//! and written as text, which temperature sensor is consulted, what is written
//! to which core, and when the frequency cap moves. Touching the file system,
//! sleeping and ending the process are left to the program that drives it.

pub mod actuator;
pub mod bounds;
pub mod cli;
pub mod control;
pub mod decimal;
pub mod error;
pub mod governor;
pub mod sensor;
