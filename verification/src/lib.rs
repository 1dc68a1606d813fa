//! A minimal stateful execution unit with all-or-nothing commit semantics.
//!
//! A call against the unit computes a candidate next value for a single
//! persistent state cell together with an outcome. The candidate becomes the
//! cell's committed value if and only if the outcome is a success; a failed
//! call leaves the cell exactly as it was, indistinguishable from a call that
//! never happened.

pub mod cell;
pub mod outcome;
pub mod unit;

pub use cell::StateCell;
pub use outcome::FlipError;
pub use outcome::Outcome;
pub use unit::UnitTestBug;
