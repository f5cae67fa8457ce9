//! What the opener is asked to do: open or preview a file, set a command,
//! or answer a query.

pub mod ext_mime_path;
pub mod subcommand;
