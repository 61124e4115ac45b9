//! Drivers that answer import resolution for a conformance-test harness.

pub mod spec_driver;
