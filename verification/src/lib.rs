//! A verified system-health report builder.
//!
//! The library turns plain measurements (battery energies in milliwatt-hours,
//! memory and disk sizes in bytes, temperatures in tenths of a degree, uptime
//! in seconds) into the lines of a human-readable report. Every quantity is
//! carried as an integer in a fixed-point scale, and every formatting function
//! is specified exactly: its contract pins the produced character sequence.
//!
//! Reading the hardware counters is I/O and stays outside the library; callers
//! hand in the plain values.

pub mod battery;
pub mod disk;
pub mod memory;
pub mod numfmt;
pub mod report;
pub mod search;
pub mod sensors;
pub mod units;
pub mod uptime;
