//! The three requests, each with its arguments and its rules.

pub mod open_or_preview;
pub mod set;
pub mod query;
