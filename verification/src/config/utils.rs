//! The one configuration file, as a value: what it holds, what loading
//! makes of it and what storing leaves in it. Reading and writing the real
//! file is the caller's part.

use vstd::prelude::*;
use vstd::string::*;
use crate::text::owned;

verus! {

/// The configuration that is used where the file does not exist yet.
pub const DEFAULT_CONFIG: &'static str =
    "# Commands by media type. Each [[open]] table is one layer: the first is\n# tried first, the later ones are fallbacks. \"$f\" in a command stands for\n# the path; without it the path is put at the command's end.\n[[open]]\n# \"text/plain\" = \"less\"\n# \"image/*\" = \"feh $f\"\n\n# Commands by regular expression, matched against the path. They are tried\n# before the media types.\n[[open_regex]]\n# \"\\\\.pdf$\" = \"zathura\"\n\n# The same two lists, for previewing.\n[[preview]]\n\n[[preview_regex]]\n";

/// The text of the default configuration.
pub open spec fn default_text() -> Seq<char> {
    DEFAULT_CONFIG@
}

/// What was found where the configuration file should be.
#[derive(Debug)]
pub enum ConfigFile {
    /// There is no file.
    Absent,
    /// The file and its text.
    Present(String),
    /// There is a file, and it could not be read.
    Unreadable,
}

/// Why the configuration could not be loaded.
#[derive(Debug, Clone, Copy, PartialEq, Eq, Structural)]
pub enum ConfigIOFailure {
    /// The file could not be read.
    LoadFailed,
}

/// The text that a file holds, if it holds one.
pub open spec fn content_of(file: ConfigFile) -> Option<Seq<char>> {
    match file {
        ConfigFile::Present(s) => Some(s@),
        _ => None,
    }
}

/// The text that loading gives: the file's own, or the default where
/// there is no file.
pub open spec fn loaded_text(file: ConfigFile) -> Option<Seq<char>> {
    match file {
        ConfigFile::Absent => Some(default_text()),
        ConfigFile::Present(s) => Some(s@),
        ConfigFile::Unreadable => None,
    }
}

/// Puts the default configuration into the file and hands its text back.
pub fn store_default(file: &mut ConfigFile) -> (r: String)
    ensures
        r@ == default_text(),
        content_of(*final(file)) == Some(default_text()),
{
    *file = ConfigFile::Present(owned(DEFAULT_CONFIG));
    owned(DEFAULT_CONFIG)
}

/// Loads the configuration text. Where there is no file, the default
/// configuration is stored and used; a file that cannot be read is an
/// error, and is left alone.
pub fn load_to_string(file: &mut ConfigFile) -> (r: Result<String, ConfigIOFailure>)
    ensures
        r.is_ok() == loaded_text(*old(file)).is_some(),
        r.is_ok() ==> Some(r.unwrap()@) == loaded_text(*old(file)),
        r.is_ok() ==> content_of(*final(file)) == loaded_text(*old(file)),
        r.is_err() ==> r.unwrap_err() == ConfigIOFailure::LoadFailed && *final(file) == *old(file),
{
    match file {
        ConfigFile::Absent => Ok(store_default(file)),
        ConfigFile::Present(s) => Ok(s.clone()),
        ConfigFile::Unreadable => Err(ConfigIOFailure::LoadFailed),
    }
}

/// Replaces what the file holds by a text.
pub fn store_string(file: &mut ConfigFile, s: &str)
    ensures
        content_of(*final(file)) == Some(s@),
{
    *file = ConfigFile::Present(owned(s));
}

/// Loading a file that exists and storing what was loaded leaves the
/// file's text as it was.
pub proof fn lemma_load_then_store(file: ConfigFile)
    requires
        content_of(file).is_some(),
    ensures
        loaded_text(file) == content_of(file),
{
}

} // verus!
