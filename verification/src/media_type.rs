//! Media types: a `type/subtype` pair with a wildcard-aware comparison.

use vstd::prelude::*;
use vstd::string::*;
use crate::text::owned;

verus! {

/// ASCII white space.
pub open spec fn is_blank(c: char) -> bool {
    c == ' ' || c == '\t' || c == '\n' || c == '\r' || c == '\x0b' || c == '\x0c'
}

/// An ASCII capital letter.
pub open spec fn is_capital(c: char) -> bool {
    'A' <= c && c <= 'Z'
}

/// A character that may stand in the type or the subtype of a media type.
pub open spec fn component_char(c: char) -> bool {
    !is_blank(c) && !is_capital(c) && c != '/'
}

/// A type or subtype: not empty, lower case, free of white space and of `/`.
pub open spec fn valid_component(s: Seq<char>) -> bool {
    s.len() > 0 && forall|i: int| 0 <= i < s.len() ==> component_char(#[trigger] s[i])
}

/// A media type as the contracts see it: the type, then the subtype.
pub open spec fn valid_name(name: (Seq<char>, Seq<char>)) -> bool {
    valid_component(name.0) && valid_component(name.1)
}

/// The component that stands for "any".
pub open spec fn star() -> Seq<char> {
    seq!['*']
}

/// Whether a media type has `*` as its type or as its subtype.
pub open spec fn is_wildcard_name(name: (Seq<char>, Seq<char>)) -> bool {
    name.0 == star() || name.1 == star()
}

/// The comparison of two media types: the types are the same, and the
/// subtypes are the same or one of them is `*`.
pub open spec fn names_equal(a: (Seq<char>, Seq<char>), b: (Seq<char>, Seq<char>)) -> bool {
    a.0 == b.0 && (a.1 == b.1 || a.1 == star() || b.1 == star())
}

/// The written form `type/subtype`.
pub open spec fn essence_of(name: (Seq<char>, Seq<char>)) -> Seq<char> {
    name.0 + seq!['/'] + name.1
}

/// The media type that covers every subtype of the same type.
pub open spec fn wildcard_of(name: (Seq<char>, Seq<char>)) -> (Seq<char>, Seq<char>) {
    (name.0, star())
}

/// Whether `i` is the position of the first `/` of `s`.
pub open spec fn first_slash_at(s: Seq<char>, i: int) -> bool {
    0 <= i < s.len() && s[i] == '/' && forall|j: int| 0 <= j < i ==> s[j] != '/'
}

/// The media type that a written form `type/subtype` stands for, if any:
/// the text is cut at its first `/`, and both parts must be valid.
pub open spec fn split_essence(s: Seq<char>) -> Option<(Seq<char>, Seq<char>)> {
    if exists|i: int| first_slash_at(s, i) {
        let i = choose|i: int| first_slash_at(s, i);
        let name = (s.subrange(0, i), s.subrange(i + 1, s.len() as int));
        if valid_name(name) {
            Some(name)
        } else {
            None
        }
    } else {
        None
    }
}

/// Whether a character may stand in a component.
pub fn check_component_char(c: char) -> (r: bool)
    ensures
        r == component_char(c),
{
    !(c == ' ' || c == '\t' || c == '\n' || c == '\r' || c == '\x0b' || c == '\x0c')
        && !('A' <= c && c <= 'Z') && c != '/'
}

/// Whether a string is a valid type or subtype.
pub fn check_component(s: &str) -> (r: bool)
    ensures
        r == valid_component(s@),
{
    let n: usize = s.unicode_len();
    if n == 0 {
        return false;
    }
    let mut i: usize = 0;
    while i < n
        invariant
            n == s@.len(),
            i <= n,
            forall|j: int| 0 <= j < i ==> component_char(#[trigger] s@[j]),
        decreases n - i,
    {
        if !check_component_char(s.get_char(i)) {
            return false;
        }
        i += 1;
    }
    true
}

/// Whether a string is the single character `*`.
pub fn is_star(s: &str) -> (r: bool)
    ensures
        r == (s@ == star()),
{
    let n: usize = s.unicode_len();
    if n != 1 {
        return false;
    }
    let c = s.get_char(0);
    assert(c == '*' ==> s@ =~= star());
    c == '*'
}

/// A media type. Both components are valid for as long as the value lives.
#[derive(Debug)]
pub struct MediaType {
    type_: String,
    subtype: String,
}

impl View for MediaType {
    type V = (Seq<char>, Seq<char>);

    closed spec fn view(&self) -> (Seq<char>, Seq<char>) {
        (self.type_@, self.subtype@)
    }
}

impl MediaType {
    #[verifier::type_invariant]
    spec fn inv(self) -> bool {
        valid_component(self.type_@) && valid_component(self.subtype@)
    }

    /// The media type with the given components, where both are valid.
    pub fn new(type_: &str, subtype: &str) -> (r: Option<MediaType>)
        ensures
            valid_name((type_@, subtype@)) ==> r.is_some() && r.unwrap()@ == (type_@, subtype@),
            !valid_name((type_@, subtype@)) ==> r.is_none(),
    {
        if check_component(type_) && check_component(subtype) {
            Some(MediaType { type_: owned(type_), subtype: owned(subtype) })
        } else {
            None
        }
    }

    /// Reads the written form `type/subtype`.
    pub fn from_essence(essence: &str) -> (r: Option<MediaType>)
        ensures
            r.is_some() == split_essence(essence@).is_some(),
            r.is_some() ==> Some(r.unwrap()@) == split_essence(essence@),
    {
        let n: usize = essence.unicode_len();
        let mut i: usize = 0;
        while i < n && essence.get_char(i) != '/'
            invariant
                n == essence@.len(),
                i <= n,
                forall|j: int| 0 <= j < i ==> essence@[j] != '/',
            decreases n - i,
        {
            i += 1;
        }
        if i >= n {
            assert(forall|k: int| !first_slash_at(essence@, k));
            return None;
        }
        assert(first_slash_at(essence@, i as int));
        assert(forall|k: int| first_slash_at(essence@, k) ==> k == i);
        let top = essence.substring_char(0, i);
        let sub = essence.substring_char(i + 1, n);
        MediaType::new(top, sub)
    }

    /// The type, the part before the `/`.
    pub fn type_(&self) -> (r: &str)
        ensures
            r@ == self@.0,
            valid_name(self@),
    {
        proof {
            use_type_invariant(self);
        }
        self.type_.as_str()
    }

    /// The subtype, the part after the `/`.
    pub fn subtype(&self) -> (r: &str)
        ensures
            r@ == self@.1,
            valid_name(self@),
    {
        proof {
            use_type_invariant(self);
        }
        self.subtype.as_str()
    }

    /// A copy of this media type.
    pub fn duplicate(&self) -> (r: MediaType)
        ensures
            r@ == self@,
    {
        proof {
            use_type_invariant(self);
        }
        MediaType { type_: self.type_.clone(), subtype: self.subtype.clone() }
    }

    /// The written form `type/subtype`.
    pub fn essence(&self) -> (r: String)
        ensures
            r@ == essence_of(self@),
    {
        let mut r = owned(self.type_.as_str());
        r.append("/");
        r.append(self.subtype.as_str());
        proof {
            reveal_strlit("/");
            assert("/"@ =~= seq!['/']);
        }
        r
    }

    /// Whether the type or the subtype is `*`.
    pub fn is_wildcard(&self) -> (r: bool)
        ensures
            r == is_wildcard_name(self@),
    {
        is_star(self.type_.as_str()) || is_star(self.subtype.as_str())
    }

    /// The media type `type/*` of the same type.
    pub fn wildcard(&self) -> (r: MediaType)
        ensures
            r@ == wildcard_of(self@),
    {
        proof {
            use_type_invariant(self);
            reveal_strlit("*");
            assert("*"@ =~= star());
        }
        MediaType { type_: self.type_.clone(), subtype: owned("*") }
    }

    /// Whether both values name exactly the same type and subtype.
    pub fn same(&self, other: &MediaType) -> (r: bool)
        ensures
            r == (self@ == other@),
    {
        self.type_ == other.type_ && self.subtype == other.subtype
    }

    /// Compares two media types, a `*` subtype standing for any subtype.
    pub fn equal(&self, other: &MediaType) -> (r: bool)
        ensures
            r == names_equal(self@, other@),
    {
        self.type_ == other.type_ && (self.subtype == other.subtype || is_star(
            self.subtype.as_str(),
        ) || is_star(other.subtype.as_str()))
    }
}

/// Two media types whose subtypes are both concrete and differ are not equal.
pub proof fn lemma_concrete_subtypes_differ(a: (Seq<char>, Seq<char>), b: (Seq<char>, Seq<char>))
    requires
        a.1 != star(),
        b.1 != star(),
        a.1 != b.1,
    ensures
        !names_equal(a, b),
{
}

/// The comparison does not depend on the order of its arguments.
pub proof fn lemma_equal_symmetric(a: (Seq<char>, Seq<char>), b: (Seq<char>, Seq<char>))
    ensures
        names_equal(a, b) == names_equal(b, a),
{
}

/// A media type equals itself, and `type/*` equals every media type of that
/// type.
pub proof fn lemma_wildcard_subtype_matches(a: (Seq<char>, Seq<char>))
    ensures
        names_equal(a, a),
        names_equal(wildcard_of(a), a),
        names_equal(a, wildcard_of(a)),
{
}

/// Media types of different types are never equal, wildcards included.
pub proof fn lemma_types_differ(a: (Seq<char>, Seq<char>), b: (Seq<char>, Seq<char>))
    requires
        a.0 != b.0,
    ensures
        !names_equal(a, b),
{
}

/// Reading the written form of a valid media type gives the media type
/// back.
pub proof fn lemma_essence_round_trip(name: (Seq<char>, Seq<char>))
    requires
        valid_name(name),
    ensures
        split_essence(essence_of(name)) == Some(name),
{
    let s = essence_of(name);
    let i = name.0.len() as int;
    assert(s[i] == '/');
    assert(forall|j: int| 0 <= j < i ==> s[j] == name.0[j]);
    assert(first_slash_at(s, i));
    assert(forall|k: int| first_slash_at(s, k) ==> k == i);
    assert(s.subrange(0, i) =~= name.0);
    assert(s.subrange(i + 1, s.len() as int) =~= name.1);
}

} // verus!
