//! Retry middleware: wraps a service behind a caller-supplied retry policy.
//!
//! The crate verifies the control logic of the retry loop as a state
//! machine: each transition is an executable function with an exact
//! contract, and the loop's end-to-end behaviour is stated and proved
//! over a model of whole runs.

pub mod machine;
pub mod retry;
pub mod run;
