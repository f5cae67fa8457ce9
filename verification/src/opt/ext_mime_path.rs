//! An argument that names a media type in one of three ways: as a file
//! extension, as the media type itself, or as the path of a file.

use vstd::prelude::*;
use vstd::string::*;
use crate::text::owned;
use crate::media_type::{MediaType, valid_name, is_wildcard_name};
use crate::mime_helpers::{
    SniffOutcome,
    TypeError,
    parsed_name,
    extension_guess,
    sniffed_name,
    determine_mime,
    portable_path,
    path_guess,
    guessed_name,
    resolved_name,
};

verus! {

/// An extension, a media type or a path.
#[derive(Debug)]
pub enum ExtMimePath {
    /// A file extension, without its dot.
    Extension(String),
    /// A media type.
    Mime(MediaType),
    /// The path of a file that exists.
    Path(String),
}

/// Why an argument names no media type.
#[derive(Debug, Clone, Copy, PartialEq, Eq, Structural)]
pub enum ArgumentError {
    /// The text is no extension, no media type and no path that exists.
    NotExtensionMimeOrPath,
}

/// Why no media type was found for an argument.
#[derive(Debug, Clone, Copy, PartialEq, Eq, Structural)]
pub enum ConvertError {
    /// No media type is known for the extension.
    UnknownExtension,
    /// No media type could be found for the path.
    Path(TypeError),
}

/// Whether a text starts with a dot.
pub open spec fn is_dotted(s: Seq<char>) -> bool {
    s.len() > 0 && s[0] == '.'
}

/// Whether an argument is what a text, and the knowledge whether a file of
/// that name exists, stand for: a text that starts with a dot is an
/// extension; any other that reads as a media type is one; any other is a
/// path, where the file exists.
pub open spec fn classifies(src: Seq<char>, exists: bool, r: Result<ExtMimePath, ArgumentError>) -> bool {
    match r {
        Ok(ExtMimePath::Extension(e)) => is_dotted(src) && e@ == src.skip(1),
        Ok(ExtMimePath::Mime(m)) => !is_dotted(src) && parsed_name(src) == Some(m@),
        Ok(ExtMimePath::Path(p)) => !is_dotted(src) && parsed_name(src).is_none() && exists && p@
            == src,
        Err(_) => !is_dotted(src) && parsed_name(src).is_none() && !exists,
    }
}

/// A path's media type, or why it has none, as a conversion's result.
pub open spec fn path_conversion(r: Result<(Seq<char>, Seq<char>), TypeError>) -> Result<
    (Seq<char>, Seq<char>),
    ConvertError,
> {
    match r {
        Ok(n) => Ok(n),
        Err(e) => Err(ConvertError::Path(e)),
    }
}

/// Whether a result is the media type that an argument and an inspection's
/// report stand for. An extension stands for the first media type known
/// for it; a media type for itself. For a path the extension is asked
/// first and the report second: for a portable path the result is the
/// concrete media type known for its extension, else what the report
/// gives; for every path the result is concrete, an error is the report's
/// own, and a usable report rules an error out.
pub open spec fn converts(
    arg: ExtMimePath,
    sniff: SniffOutcome,
    r: Result<(Seq<char>, Seq<char>), ConvertError>,
) -> bool {
    match arg {
        ExtMimePath::Extension(ext) => r == match extension_guess(ext@) {
            Some(g) => match parsed_name(g) {
                Some(n) => Ok::<(Seq<char>, Seq<char>), ConvertError>(n),
                None => Err(ConvertError::UnknownExtension),
            },
            None => Err(ConvertError::UnknownExtension),
        },
        ExtMimePath::Mime(m) => r == Ok::<(Seq<char>, Seq<char>), ConvertError>(m@),
        ExtMimePath::Path(path) => {
            &&& portable_path(path@) ==> r == path_conversion(
                resolved_name(guessed_name(path_guess(path@)), sniff),
            )
            &&& match r {
                Ok(n) => valid_name(n) && !is_wildcard_name(n),
                Err(ConvertError::Path(e)) => sniffed_name(sniff) == Err::<
                    (Seq<char>, Seq<char>),
                    TypeError,
                >(e),
                Err(ConvertError::UnknownExtension) => false,
            }
        },
    }
}

/// The view of a conversion's result.
pub open spec fn converted_name(r: Result<MediaType, ConvertError>) -> Result<
    (Seq<char>, Seq<char>),
    ConvertError,
> {
    match r {
        Ok(m) => Ok(m@),
        Err(e) => Err(e),
    }
}

/// Reads an argument. Whether a file of that name exists is the caller's
/// to find out.
pub fn parse_addtype(src: &str, exists: bool) -> (r: Result<ExtMimePath, ArgumentError>)
    ensures
        classifies(src@, exists, r),
{
    ExtMimePath::try_from(src, exists)
}

impl ExtMimePath {
    /// Reads an argument. Whether a file of that name exists is the
    /// caller's to find out.
    pub fn try_from(value: &str, exists: bool) -> (r: Result<ExtMimePath, ArgumentError>)
        ensures
            classifies(value@, exists, r),
    {
        let n: usize = value.unicode_len();
        if n > 0 && value.get_char(0) == '.' {
            let rest = value.substring_char(1, n);
            assert(value@.subrange(1, n as int) =~= value@.skip(1));
            return Ok(ExtMimePath::Extension(owned(rest)));
        }
        match MediaType::parse(value) {
            Some(m) => Ok(ExtMimePath::Mime(m)),
            None => {
                if exists {
                    Ok(ExtMimePath::Path(owned(value)))
                } else {
                    Err(ArgumentError::NotExtensionMimeOrPath)
                }
            },
        }
    }

    /// Whether the media type of this argument may depend on the file's
    /// content: only a path's does.
    pub fn needs_sniff(&self) -> (r: bool)
        ensures
            r == (*self matches ExtMimePath::Path(_)),
    {
        match self {
            ExtMimePath::Path(_) => true,
            _ => false,
        }
    }

    /// The media type that the argument stands for.
    pub fn convert_to_mime(&self, sniff: &SniffOutcome) -> (r: Result<MediaType, ConvertError>)
        ensures
            converts(*self, *sniff, converted_name(r)),
    {
        match self {
            ExtMimePath::Extension(ext) => match MediaType::from_extension(ext.as_str()) {
                Some(m) => Ok(m),
                None => Err(ConvertError::UnknownExtension),
            },
            ExtMimePath::Mime(m) => Ok(m.duplicate()),
            ExtMimePath::Path(path) => match determine_mime(path.as_str(), sniff) {
                Ok(m) => Ok(m),
                Err(e) => Err(ConvertError::Path(e)),
            },
        }
    }
}

} // verus!
