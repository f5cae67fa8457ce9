//! Finding the media type of a path: by its extension first, then by what
//! an inspection of the file's content reported.

use vstd::prelude::*;
use crate::media_type::{MediaType, split_essence, is_wildcard_name, valid_name};

verus! {

/// The characters of an optional string.
pub open spec fn text_of(o: Option<String>) -> Option<Seq<char>> {
    match o {
        Some(s) => Some(s@),
        None => None,
    }
}

/// The value of an optional media type.
pub open spec fn name_of(o: Option<MediaType>) -> Option<(Seq<char>, Seq<char>)> {
    match o {
        Some(m) => Some(m@),
        None => None,
    }
}

/// What the `mime` crate reads a text as: the essence (`type/subtype`, with
/// any `+suffix`, in lower case and without parameters) of the media type it
/// parses, or nothing where it rejects the text.
pub uninterp spec fn mime_essence(s: Seq<char>) -> Option<Seq<char>>;

/// What `mime_guess` knows of a file extension: the written form of the
/// first media type its table lists for it.
pub uninterp spec fn extension_guess(ext: Seq<char>) -> Option<Seq<char>>;

/// What `mime_guess` knows of a media type: the file extensions its table
/// lists for the type and subtype.
pub uninterp spec fn known_extensions(top: Seq<char>, sub: Seq<char>) -> Option<Seq<Seq<char>>>;

/// The views of a list of strings.
pub open spec fn texts_of(v: Seq<String>) -> Seq<Seq<char>> {
    v.map_values(|s: String| s@)
}

/// Parses a text with `<mime::Mime as FromStr>::from_str` and hands back
/// `Mime::essence_str` of the result. Trusted: the result is a function of
/// the text alone, named `mime_essence`; nothing more is claimed of it.
#[verifier::external_body]
pub(crate) fn parse_essence(s: &str) -> (r: Option<String>)
    ensures
        text_of(r) == mime_essence(s@),
{
    match s.parse::<mime::Mime>() {
        Ok(m) => Some(m.essence_str().to_string()),
        Err(_) => None,
    }
}

/// Looks an extension up with `mime_guess::from_ext` and takes
/// `MimeGuess::first_raw`. Trusted: the result is a function of the
/// extension alone, named `extension_guess`.
#[verifier::external_body]
pub(crate) fn guess_from_ext(ext: &str) -> (r: Option<String>)
    ensures
        text_of(r) == extension_guess(ext@),
{
    mime_guess::from_ext(ext).first_raw().map(|s| s.to_string())
}

/// The position of the last occurrence of a character in a text; -1
/// where the text does not hold it.
pub open spec fn last_of(s: Seq<char>, c: char) -> int
    decreases s.len(),
{
    if s.len() == 0 {
        -1
    } else if s.last() == c {
        s.len() - 1
    } else {
        last_of(s.drop_last(), c)
    }
}

/// What follows the last `/` of a path; the whole path where it holds
/// none.
pub open spec fn last_segment(path: Seq<char>) -> Seq<char> {
    path.subrange(last_of(path, '/') + 1, path.len() as int)
}

/// Whether every platform reads the same file name from a path, namely
/// its last segment. That is so where the path is cut at `/` only (it
/// holds no `\` and no `:`, and does not begin with `//`) and its last
/// segment is a name: not `..`, and, where the path holds a `/`, neither
/// empty nor `.`.
pub open spec fn portable_path(path: Seq<char>) -> bool {
    &&& forall|i: int| 0 <= i < path.len() ==> (#[trigger] path[i]) != '\\' && path[i] != ':'
    &&& !(path.len() >= 2 && path[0] == '/' && path[1] == '/')
    &&& last_segment(path) != seq!['.', '.']
    &&& last_of(path, '/') >= 0 ==> last_segment(path).len() > 0 && last_segment(path) != seq!['.']
}

/// The extension of a file name: none where the name holds no dot, none
/// where its only dot is its first character, else what follows its last
/// dot.
pub open spec fn name_extension(name: Seq<char>) -> Option<Seq<char>> {
    if last_of(name, '.') <= 0 {
        None
    } else {
        Some(name.subrange(last_of(name, '.') + 1, name.len() as int))
    }
}

/// What `mime_guess` knows of a path: what it knows of the extension of
/// the path's last segment.
pub open spec fn path_guess(path: Seq<char>) -> Option<Seq<char>> {
    match name_extension(last_segment(path)) {
        Some(ext) => extension_guess(ext),
        None => None,
    }
}

/// Looks a path up with `mime_guess::from_path` and takes
/// `MimeGuess::first_raw`. That function hands the result of
/// `Path::extension` to `from_ext`. Trusted, of a portable path only: the
/// file name is the path's last segment, as `Path::file_name` and
/// `Path::components` document it (a path is cut at its separators); the
/// extension is the one that `Path::extension` documents (none without a
/// dot, none where the only dot comes first, else what follows the last
/// dot); and the result is what `from_ext` gives for it. Of a path with a
/// `\`, a `:` or a leading `//`, which some platforms read as a separator
/// or a prefix, and of a path that ends in `/`, `/.` or `..`, nothing is
/// claimed.
#[verifier::external_body]
pub(crate) fn guess_from_path(path: &str) -> (r: Option<String>)
    ensures
        portable_path(path@) ==> text_of(r) == path_guess(path@),
{
    mime_guess::from_path(path).first_raw().map(|s| s.to_string())
}

/// Lists the extensions of a media type with `mime_guess::get_extensions`.
/// Trusted: the result is a function of type and subtype alone, named
/// `known_extensions`.
#[verifier::external_body]
pub(crate) fn extensions_of(top: &str, sub: &str) -> (r: Option<Vec<String>>)
    ensures
        r.is_some() == known_extensions(top@, sub@).is_some(),
        r.is_some() ==> texts_of(r.unwrap()@) == known_extensions(top@, sub@).unwrap(),
{
    mime_guess::get_extensions(top, sub).map(|l| l.iter().map(|e| e.to_string()).collect())
}

/// The media type that a text stands for: what the `mime` crate reads it
/// as, cut into type and subtype.
pub open spec fn parsed_name(s: Seq<char>) -> Option<(Seq<char>, Seq<char>)> {
    match mime_essence(s) {
        Some(e) => split_essence(e),
        None => None,
    }
}

/// A text's media type where it is one that a file can have: not a
/// wildcard.
pub open spec fn concrete_name(s: Seq<char>) -> Option<(Seq<char>, Seq<char>)> {
    match parsed_name(s) {
        Some(n) => if is_wildcard_name(n) {
            None
        } else {
            Some(n)
        },
        None => None,
    }
}

impl MediaType {
    /// Parses a media type from text. Parameters are dropped.
    pub fn parse(s: &str) -> (r: Option<MediaType>)
        ensures
            name_of(r) == parsed_name(s@),
    {
        match parse_essence(s) {
            Some(e) => MediaType::from_essence(e.as_str()),
            None => None,
        }
    }

    /// The first media type known for a file extension.
    pub fn from_extension(ext: &str) -> (r: Option<MediaType>)
        ensures
            name_of(r) == match extension_guess(ext@) {
                Some(g) => parsed_name(g),
                None => None,
            },
    {
        match guess_from_ext(ext) {
            Some(g) => MediaType::parse(g.as_str()),
            None => None,
        }
    }

    /// The file extensions known for this media type.
    pub fn extensions(&self) -> (r: Option<Vec<String>>)
        ensures
            r.is_some() == known_extensions(self@.0, self@.1).is_some(),
            r.is_some() ==> texts_of(r.unwrap()@) == known_extensions(self@.0, self@.1).unwrap(),
    {
        extensions_of(self.type_(), self.subtype())
    }
}

/// What an inspection of a file's content reported.
#[derive(Debug)]
pub enum SniffOutcome {
    /// The path does not exist.
    NotFound,
    /// The file could not be read.
    Unreadable,
    /// The inspection's best guess, as text.
    Guess(String),
}

/// Why no media type could be found for a path.
#[derive(Debug, Clone, Copy, PartialEq, Eq, Structural)]
pub enum TypeError {
    /// The path does not exist.
    NotFound,
    /// The file could not be read.
    IOFailure,
    /// The inspection's guess is no media type that a file can have.
    TypeUnparseable,
}

/// The media type that an inspection's report gives, or the error it
/// stands for.
pub open spec fn sniffed_name(sniff: SniffOutcome) -> Result<(Seq<char>, Seq<char>), TypeError> {
    match sniff {
        SniffOutcome::NotFound => Err(TypeError::NotFound),
        SniffOutcome::Unreadable => Err(TypeError::IOFailure),
        SniffOutcome::Guess(s) => match concrete_name(s@) {
            Some(n) => Ok(n),
            None => Err(TypeError::TypeUnparseable),
        },
    }
}

/// The media type of a path, given the guess from its extension and the
/// inspection's report: a concrete guess wins, else the report decides.
pub open spec fn resolved_name(
    guess: Option<(Seq<char>, Seq<char>)>,
    sniff: SniffOutcome,
) -> Result<(Seq<char>, Seq<char>), TypeError> {
    match guess {
        Some(n) => if is_wildcard_name(n) {
            sniffed_name(sniff)
        } else {
            Ok(n)
        },
        None => sniffed_name(sniff),
    }
}

/// The view of a resolution's result.
pub open spec fn outcome_of(r: Result<MediaType, TypeError>) -> Result<
    (Seq<char>, Seq<char>),
    TypeError,
> {
    match r {
        Ok(m) => Ok(m@),
        Err(e) => Err(e),
    }
}

/// Turns an inspection's report into a media type.
pub fn sniffed_type(sniff: &SniffOutcome) -> (r: Result<MediaType, TypeError>)
    ensures
        outcome_of(r) == sniffed_name(*sniff),
{
    match sniff {
        SniffOutcome::NotFound => Err(TypeError::NotFound),
        SniffOutcome::Unreadable => Err(TypeError::IOFailure),
        SniffOutcome::Guess(s) => match MediaType::parse(s.as_str()) {
            Some(m) => if m.is_wildcard() {
                Err(TypeError::TypeUnparseable)
            } else {
                Ok(m)
            },
            None => Err(TypeError::TypeUnparseable),
        },
    }
}

/// Decides a path's media type from the extension's guess and the
/// inspection's report.
pub fn resolve_type(guess: Option<MediaType>, sniff: &SniffOutcome) -> (r: Result<
    MediaType,
    TypeError,
>)
    ensures
        outcome_of(r) == resolved_name(name_of(guess), *sniff),
{
    match guess {
        Some(m) => if m.is_wildcard() {
            sniffed_type(sniff)
        } else {
            Ok(m)
        },
        None => sniffed_type(sniff),
    }
}

/// The media type that a guess stands for, where there is a guess.
pub open spec fn guessed_name(guess: Option<Seq<char>>) -> Option<(Seq<char>, Seq<char>)> {
    match guess {
        Some(g) => parsed_name(g),
        None => None,
    }
}

/// Reads the guess that a lookup gave: no guess gives no media type, and a
/// guess gives the media type that its text stands for.
pub fn guessed_type(guess: Option<String>) -> (r: Option<MediaType>)
    ensures
        name_of(r) == guessed_name(text_of(guess)),
{
    match guess {
        Some(g) => MediaType::parse(g.as_str()),
        None => None,
    }
}

/// The media type that the extension of a path suggests, if any. For a
/// portable path it is the media type known for what follows the last dot
/// of the path's last segment, and none where that name has no extension.
pub fn extension_type(path: &str) -> (r: Option<MediaType>)
    ensures
        r.is_some() ==> valid_name(r.unwrap()@),
        portable_path(path@) ==> name_of(r) == guessed_name(path_guess(path@)),
{
    guessed_type(guess_from_path(path))
}

/// Determines the media type of a path: first from its extension, then
/// from the inspection's report. For a portable path, a concrete media
/// type known for its extension is the result, whatever the report says;
/// otherwise the report decides. For every path, the result is concrete,
/// an error is the report's own error, and a usable report rules an error
/// out.
pub fn determine_mime(path: &str, sniff: &SniffOutcome) -> (r: Result<MediaType, TypeError>)
    ensures
        portable_path(path@) ==> outcome_of(r) == resolved_name(
            guessed_name(path_guess(path@)),
            *sniff,
        ),
        r.is_ok() ==> valid_name(r.unwrap()@) && !is_wildcard_name(r.unwrap()@),
        r.is_err() ==> sniffed_name(*sniff) == Err::<(Seq<char>, Seq<char>), TypeError>(
            r.unwrap_err(),
        ),
        sniffed_name(*sniff).is_ok() ==> r.is_ok(),
{
    let guess = extension_type(path);
    resolve_type(guess, sniff)
}

} // verus!
