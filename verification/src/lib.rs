//! Decision logic of a Windows junk cleaner: where junk lives, which registry
//! start-up entries are dead, which files count as large, and the state machine
//! that drives the cleaner's window.

pub mod locations;
pub mod model;
pub mod paths;
pub mod scanner;
pub mod text;
pub mod units;
pub mod window;
