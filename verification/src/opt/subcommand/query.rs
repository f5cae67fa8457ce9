//! Answering a query: the media type of an extension or a path, or the
//! extensions of a media type.

use vstd::prelude::*;
use vstd::string::*;
use crate::media_type::essence_of;
use crate::mime_helpers::{SniffOutcome, known_extensions, texts_of};
use crate::opt::ext_mime_path::{ExtMimePath, ConvertError, converts};

verus! {

/// What is asked for in a query.
#[derive(Debug)]
pub struct QueryOptions {
    /// The extension, media type or path that is asked about.
    pub ext_mime_path: ExtMimePath,
}

/// Why a query has no answer.
#[derive(Debug, Clone, Copy, PartialEq, Eq, Structural)]
pub enum QueryError {
    /// No extension is known for the media type.
    NoExtensions,
    /// No media type was found for the extension or the path.
    NoMediaType(ConvertError),
}

/// A list of extensions in a row: each with a dot before it and a space
/// after it.
pub open spec fn dotted(exts: Seq<Seq<char>>) -> Seq<char>
    decreases exts.len(),
{
    if exts.len() == 0 {
        Seq::empty()
    } else {
        dotted(exts.drop_last()) + seq!['.'] + exts.last() + seq![' ']
    }
}

/// The answer's line for a list of extensions.
pub open spec fn extension_line(exts: Seq<Seq<char>>) -> Seq<char> {
    dotted(exts) + seq!['\n']
}

/// The answer's line for a media type.
pub open spec fn type_line(name: (Seq<char>, Seq<char>)) -> Seq<char> {
    essence_of(name) + seq!['\n']
}

/// Writes the line that lists extensions.
pub fn list_extensions(exts: &Vec<String>) -> (r: String)
    ensures
        r@ == extension_line(texts_of(exts@)),
{
    let mut line = String::new();
    let mut i: usize = 0;
    proof {
        reveal_strlit(".");
        reveal_strlit(" ");
        reveal_strlit("\n");
        assert("."@ =~= seq!['.']);
        assert(" "@ =~= seq![' ']);
        assert("\n"@ =~= seq!['\n']);
        assert(texts_of(exts@).take(0) =~= Seq::<Seq<char>>::empty());
    }
    while i < exts.len()
        invariant
            i <= exts.len(),
            line@ == dotted(texts_of(exts@).take(i as int)),
            "."@ == seq!['.'],
            " "@ == seq![' '],
        decreases exts.len() - i,
    {
        proof {
            let all = texts_of(exts@);
            assert(all.take(i + 1).drop_last() =~= all.take(i as int));
            assert(all.take(i + 1).last() == exts[i as int]@);
        }
        line.append(".");
        line.append(exts[i].as_str());
        line.append(" ");
        i += 1;
    }
    proof {
        assert(texts_of(exts@).take(exts.len() as int) =~= texts_of(exts@));
    }
    line.append("\n");
    line
}

impl QueryOptions {
    /// The answer to the query, as the line to print. For a media type it
    /// lists the extensions known for it; for an extension or a path it
    /// names the media type.
    pub fn run(self, sniff: &SniffOutcome) -> (r: Result<String, QueryError>)
        ensures
            match self.ext_mime_path {
                ExtMimePath::Mime(m) => match r {
                    Ok(line) => known_extensions(m@.0, m@.1).is_some() && line@ == extension_line(
                        known_extensions(m@.0, m@.1).unwrap(),
                    ),
                    Err(e) => known_extensions(m@.0, m@.1).is_none() && e
                        == QueryError::NoExtensions,
                },
                _ => match r {
                    Ok(line) => exists|name: (Seq<char>, Seq<char>)|
                        converts(self.ext_mime_path, *sniff, Ok(name)) && line@ == type_line(name),
                    Err(QueryError::NoMediaType(e)) => converts(self.ext_mime_path, *sniff, Err(e)),
                    Err(QueryError::NoExtensions) => false,
                },
            },
    {
        match &self.ext_mime_path {
            ExtMimePath::Mime(m) => match m.extensions() {
                Some(exts) => Ok(list_extensions(&exts)),
                None => Err(QueryError::NoExtensions),
            },
            _ => match self.ext_mime_path.convert_to_mime(sniff) {
                Ok(m) => {
                    let mut line = m.essence();
                    line.append("\n");
                    proof {
                        reveal_strlit("\n");
                        assert("\n"@ =~= seq!['\n']);
                        assert(line@ =~= type_line(m@));
                        assert(converts(self.ext_mime_path, *sniff, Ok(m@)));
                    }
                    Ok(line)
                },
                Err(e) => Err(QueryError::NoMediaType(e)),
            },
        }
    }
}

} // verus!
