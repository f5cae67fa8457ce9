//! The configuration: command tables for reading, a document for editing,
//! and the one file that holds both.

pub mod open_config;
pub mod edit_config;
pub mod quoting;
pub mod utils;
