//! Command resolution for a file opener: media types, layered command
//! tables, the resolution state machine and the editable configuration
//! document.

pub mod text;
pub mod media_type;
pub mod mime_helpers;
pub mod config;
pub mod opt;
