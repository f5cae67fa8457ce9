//! The command tables that a file is opened with: layers keyed by media
//! type and layers keyed by regular expression.

use vstd::prelude::*;
use vstd::string::*;
use crate::media_type::{MediaType, is_wildcard_name, wildcard_of};
use crate::mime_helpers::{parsed_name, text_of, texts_of};

verus! {

/// The views of a list of key and command pairs.
pub open spec fn pairs_of(v: Seq<(String, String)>) -> Seq<(Seq<char>, Seq<char>)> {
    v.map_values(|e: (String, String)| (e.0@, e.1@))
}

/// The views of a list of media type and command pairs.
pub open spec fn entry_views(v: Seq<(MediaType, String)>) -> Seq<
    ((Seq<char>, Seq<char>), Seq<char>),
> {
    v.map_values(|e: (MediaType, String)| (e.0@, e.1@))
}

/// The table that a list of entries makes: of two entries with the same
/// media type the earlier one stays.
pub open spec fn table_of(s: Seq<((Seq<char>, Seq<char>), Seq<char>)>) -> Map<
    (Seq<char>, Seq<char>),
    Seq<char>,
>
    decreases s.len(),
{
    if s.len() == 0 {
        Map::empty()
    } else {
        let rest = table_of(s.drop_last());
        if rest.contains_key(s.last().0) {
            rest
        } else {
            rest.insert(s.last().0, s.last().1)
        }
    }
}

/// The table that a list of raw entries makes: an entry whose key is no
/// media type is left out, and of two entries with the same media type the
/// earlier one stays.
pub open spec fn parsed_table(s: Seq<(Seq<char>, Seq<char>)>) -> Map<
    (Seq<char>, Seq<char>),
    Seq<char>,
>
    decreases s.len(),
{
    if s.len() == 0 {
        Map::empty()
    } else {
        let rest = parsed_table(s.drop_last());
        match parsed_name(s.last().0) {
            Some(n) => if rest.contains_key(n) {
                rest
            } else {
                rest.insert(n, s.last().1)
            },
            None => rest,
        }
    }
}

/// The keys of a list of raw entries that are no media types, in the
/// list's order: the entries that a layer by media type leaves out.
pub open spec fn rejected_keys(s: Seq<(Seq<char>, Seq<char>)>) -> Seq<Seq<char>>
    decreases s.len(),
{
    if s.len() == 0 {
        Seq::empty()
    } else {
        let rest = rejected_keys(s.drop_last());
        if parsed_name(s.last().0).is_none() {
            rest.push(s.last().0)
        } else {
            rest
        }
    }
}

/// The command that a table gives for a media type: that of the exact key
/// where there is one, else that of `type/*`.
pub open spec fn narrowed(
    table: Map<(Seq<char>, Seq<char>), Seq<char>>,
    name: (Seq<char>, Seq<char>),
) -> Option<Seq<char>> {
    if table.contains_key(name) {
        Some(table[name])
    } else if table.contains_key(wildcard_of(name)) {
        Some(table[wildcard_of(name)])
    } else {
        None
    }
}

/// Whether a list of entries and a table hold the same keys and commands.
pub closed spec fn entries_match(
    entries: Seq<(MediaType, String)>,
    table: Map<(Seq<char>, Seq<char>), Seq<char>>,
) -> bool {
    &&& forall|i: int|
        0 <= i < entries.len() ==> table.contains_key((#[trigger] entries[i]).0@)
            && table[entries[i].0@] == entries[i].1@
    &&& forall|k: (Seq<char>, Seq<char>)|
        table.contains_key(k) ==> exists|i: int|
            0 <= i < entries.len() && (#[trigger] entries[i]).0@ == k
}

/// Something that can be narrowed down to the command for one thing that
/// it is compared with.
pub trait PossibleCommands {
    /// What the layer's keys are compared with.
    type Compare;

    /// What narrowing gives.
    type Narrowed;

    /// Whether the layer can be asked about a value.
    spec fn comparable(compare: &Self::Compare) -> bool;

    /// Whether a result is what the layer gives for a value.
    spec fn narrows_to(&self, compare: &Self::Compare, r: Self::Narrowed) -> bool;

    /// Narrows the layer down according to what is compared against each
    /// key.
    fn find_correct_command(&self, compare: &Self::Compare) -> (r: Self::Narrowed)
        requires
            Self::comparable(compare),
        ensures
            self.narrows_to(compare, r),
    ;
}

/// One layer of commands keyed by media type.
pub struct MimeCommands {
    entries: Vec<(MediaType, String)>,
    table: Ghost<Map<(Seq<char>, Seq<char>), Seq<char>>>,
}

impl View for MimeCommands {
    type V = Map<(Seq<char>, Seq<char>), Seq<char>>;

    closed spec fn view(&self) -> Map<(Seq<char>, Seq<char>), Seq<char>> {
        self.table@
    }
}

/// Where a media type stands in a list of entries.
fn position(entries: &Vec<(MediaType, String)>, key: &MediaType) -> (r: Option<usize>)
    ensures
        r.is_some() ==> r.unwrap() < entries.len() && entries[r.unwrap() as int].0@ == key@,
        r.is_none() ==> forall|i: int| 0 <= i < entries.len() ==> entries[i].0@ != key@,
{
    let mut i: usize = 0;
    while i < entries.len()
        invariant
            i <= entries.len(),
            forall|j: int| 0 <= j < i ==> entries[j].0@ != key@,
        decreases entries.len() - i,
    {
        if entries[i].0.same(key) {
            return Some(i);
        }
        i += 1;
    }
    None
}

impl MimeCommands {
    #[verifier::type_invariant]
    spec fn inv(self) -> bool {
        entries_match(self.entries@, self.table@)
    }

    /// The layer that a list of entries makes.
    pub fn from_entries(list: Vec<(MediaType, String)>) -> (r: MimeCommands)
        ensures
            r@ == table_of(entry_views(list@)),
    {
        let mut entries: Vec<(MediaType, String)> = Vec::new();
        let ghost mut table: Map<(Seq<char>, Seq<char>), Seq<char>> = Map::empty();
        let mut i: usize = 0;
        while i < list.len()
            invariant
                i <= list.len(),
                entries_match(entries@, table),
                table == table_of(entry_views(list@).take(i as int)),
            decreases list.len() - i,
        {
            let ghost views = entry_views(list@);
            proof {
                assert(views.take(i + 1).drop_last() =~= views.take(i as int));
                assert(views.take(i + 1).last() == (list[i as int].0@, list[i as int].1@));
            }
            if position(&entries, &list[i].0).is_none() {
                let ghost old_entries = entries@;
                let key = list[i].0.duplicate();
                let command = list[i].1.clone();
                entries.push((key, command));
                proof {
                    table = table.insert(list[i as int].0@, list[i as int].1@);
                    assert(forall|j: int| 0 <= j < old_entries.len() ==> entries[j] == old_entries[j]);
                    assert(entries[old_entries.len() as int].0@ == list[i as int].0@);
                }
            }
            i += 1;
        }
        proof {
            assert(entry_views(list@).take(list.len() as int) =~= entry_views(list@));
        }
        MimeCommands { entries, table: Ghost(table) }
    }

    /// The layer that a list of raw entries makes. An entry whose key does
    /// not parse as a media type is left out.
    pub fn new(map: Vec<(String, String)>) -> (r: MimeCommands)
        ensures
            r@ == parsed_table(pairs_of(map@)),
    {
        MimeCommands::build(&map)
    }

    /// The layer that a borrowed list of raw entries makes.
    fn build(map: &Vec<(String, String)>) -> (r: MimeCommands)
        ensures
            r@ == parsed_table(pairs_of(map@)),
    {
        let mut entries: Vec<(MediaType, String)> = Vec::new();
        let ghost mut table: Map<(Seq<char>, Seq<char>), Seq<char>> = Map::empty();
        let mut i: usize = 0;
        while i < map.len()
            invariant
                i <= map.len(),
                entries_match(entries@, table),
                table == parsed_table(pairs_of(map@).take(i as int)),
            decreases map.len() - i,
        {
            let ghost views = pairs_of(map@);
            proof {
                assert(views.take(i + 1).drop_last() =~= views.take(i as int));
                assert(views.take(i + 1).last() == (map[i as int].0@, map[i as int].1@));
            }
            match MediaType::parse(map[i].0.as_str()) {
                Some(key) => {
                    if position(&entries, &key).is_none() {
                        let ghost old_entries = entries@;
                        let ghost name = key@;
                        let command = map[i].1.clone();
                        entries.push((key, command));
                        proof {
                            table = table.insert(name, map[i as int].1@);
                            assert(forall|j: int|
                                0 <= j < old_entries.len() ==> entries[j] == old_entries[j]);
                            assert(entries[old_entries.len() as int].0@ == name);
                        }
                    }
                },
                None => {},
            }
            i += 1;
        }
        proof {
            assert(pairs_of(map@).take(map.len() as int) =~= pairs_of(map@));
        }
        MimeCommands { entries, table: Ghost(table) }
    }

    /// The keys of a list of raw entries that `new` leaves out, for a
    /// warning: those that are no media types.
    pub fn left_out(map: &Vec<(String, String)>) -> (r: Vec<String>)
        ensures
            texts_of(r@) == rejected_keys(pairs_of(map@)),
    {
        let mut keys: Vec<String> = Vec::new();
        let mut i: usize = 0;
        while i < map.len()
            invariant
                i <= map.len(),
                texts_of(keys@) == rejected_keys(pairs_of(map@).take(i as int)),
            decreases map.len() - i,
        {
            let ghost views = pairs_of(map@);
            let ghost before = texts_of(keys@);
            proof {
                assert(views.take(i + 1).drop_last() =~= views.take(i as int));
                assert(views.take(i + 1).last() == (map[i as int].0@, map[i as int].1@));
            }
            if MediaType::parse(map[i].0.as_str()).is_none() {
                keys.push(map[i].0.clone());
                proof {
                    assert(texts_of(keys@) =~= before.push(map[i as int].0@));
                }
            }
            i += 1;
        }
        proof {
            assert(pairs_of(map@).take(map.len() as int) =~= pairs_of(map@));
        }
        keys
    }

    /// The layers that a list of raw layers makes, in the same order: the
    /// first is tried first, the others are fallbacks.
    pub fn new_vec(map: Vec<Vec<(String, String)>>) -> (r: Vec<MimeCommands>)
        ensures
            r.len() == map.len(),
            forall|i: int| 0 <= i < map.len() ==> r[i]@ == parsed_table(pairs_of(map[i]@)),
    {
        let mut layers: Vec<MimeCommands> = Vec::new();
        let mut i: usize = 0;
        while i < map.len()
            invariant
                i <= map.len(),
                layers.len() == i,
                forall|j: int| 0 <= j < i ==> layers[j]@ == parsed_table(pairs_of(map[j]@)),
            decreases map.len() - i,
        {
            let layer = MimeCommands::build(&map[i]);
            layers.push(layer);
            i += 1;
        }
        layers
    }

    /// The command stored under exactly this media type.
    pub fn get(&self, key: &MediaType) -> (r: Option<String>)
        ensures
            text_of(r) == if self@.contains_key(key@) {
                Some(self@[key@])
            } else {
                None
            },
    {
        proof {
            use_type_invariant(self);
        }
        match position(&self.entries, key) {
            Some(i) => Some(self.entries[i].1.clone()),
            None => None,
        }
    }

}

impl PossibleCommands for MimeCommands {
    type Compare = MediaType;

    type Narrowed = Option<String>;

    /// Only a concrete media type can be asked about: no file has a
    /// wildcard for its type.
    open spec fn comparable(compare: &MediaType) -> bool {
        !is_wildcard_name(compare@)
    }

    open spec fn narrows_to(&self, compare: &MediaType, r: Option<String>) -> bool {
        text_of(r) == narrowed(self@, compare@)
    }

    /// Narrows the layer down to the command for a concrete media type: the
    /// command of the exact key, else that of `type/*`, else none.
    fn find_correct_command(&self, mime: &MediaType) -> (r: Option<String>) {
        let exact = self.get(mime);
        if exact.is_some() {
            exact
        } else {
            self.get(&mime.wildcard())
        }
    }
}

/// The exact key's command is chosen even where the layer also holds a
/// command for `type/*`.
pub proof fn lemma_exact_beats_wildcard(
    table: Map<(Seq<char>, Seq<char>), Seq<char>>,
    name: (Seq<char>, Seq<char>),
)
    requires
        table.contains_key(name),
    ensures
        narrowed(table, name) == Some(table[name]),
{
}

/// Whether a regular expression matches a text, as the `regex` crate
/// decides it; nothing where the expression does not compile.
pub uninterp spec fn regex_match(pattern: Seq<char>, text: Seq<char>) -> Option<bool>;

/// Compiles a pattern with `regex::Regex::new` and tests a text with
/// `Regex::is_match`. Trusted: the result is a function of pattern and
/// text alone, named `regex_match`; a pattern that does not compile gives
/// nothing.
#[verifier::external_body]
pub(crate) fn pattern_matches(pattern: &str, text: &str) -> (r: Option<bool>)
    ensures
        r == regex_match(pattern@, text@),
{
    match regex::Regex::new(pattern) {
        Ok(re) => Some(re.is_match(text)),
        Err(_) => None,
    }
}

/// Whether a list of entries holds a key.
pub open spec fn has_key(s: Seq<(Seq<char>, Seq<char>)>, k: Seq<char>) -> bool {
    exists|i: int| 0 <= i < s.len() && (#[trigger] s[i]).0 == k
}

/// Whether no key stands twice in a list of entries.
pub open spec fn keys_distinct(s: Seq<(Seq<char>, Seq<char>)>) -> bool {
    forall|i: int, j: int| 0 <= i < j < s.len() ==> (#[trigger] s[i]).0 != (#[trigger] s[j]).0
}

/// A list of entries without its repeated keys: of two entries with the
/// same key the earlier one stays.
pub open spec fn distinct_entries(s: Seq<(Seq<char>, Seq<char>)>) -> Seq<(Seq<char>, Seq<char>)>
    decreases s.len(),
{
    if s.len() == 0 {
        Seq::empty()
    } else {
        let rest = distinct_entries(s.drop_last());
        if has_key(rest, s.last().0) {
            rest
        } else {
            rest.push(s.last())
        }
    }
}

/// Whether a pattern compiles. Whether it does is the same for every
/// text, so the empty text is asked.
pub open spec fn compiles(pattern: Seq<char>) -> bool {
    regex_match(pattern, Seq::empty()).is_some()
}

/// The patterns of a list of entries that do not compile, in the list's
/// order: the entries that never match.
pub open spec fn rejected_patterns(s: Seq<(Seq<char>, Seq<char>)>) -> Seq<Seq<char>>
    decreases s.len(),
{
    if s.len() == 0 {
        Seq::empty()
    } else {
        let rest = rejected_patterns(s.drop_last());
        if compiles(s.last().0) {
            rest
        } else {
            rest.push(s.last().0)
        }
    }
}

/// The commands of the entries whose pattern compiles and matches a text,
/// in the entries' order.
pub open spec fn matching_commands(s: Seq<(Seq<char>, Seq<char>)>, text: Seq<char>) -> Seq<
    Seq<char>,
>
    decreases s.len(),
{
    if s.len() == 0 {
        Seq::empty()
    } else {
        let rest = matching_commands(s.drop_last(), text);
        if regex_match(s.last().0, text) == Some(true) {
            rest.push(s.last().1)
        } else {
            rest
        }
    }
}

/// What a layer of patterns gives for a path.
#[derive(Debug)]
pub enum PatternChoice {
    /// No pattern matched.
    NoMatch,
    /// Exactly one pattern matched: its command.
    Single(String),
    /// Several patterns matched: their commands, for someone to choose from.
    Ambiguous(Vec<String>),
}

/// Whether a choice is the one that a list of matching commands calls for.
pub open spec fn choice_is(r: PatternChoice, m: Seq<Seq<char>>) -> bool {
    match r {
        PatternChoice::NoMatch => m.len() == 0,
        PatternChoice::Single(c) => m.len() == 1 && c@ == m[0],
        PatternChoice::Ambiguous(v) => m.len() > 1 && texts_of(v@) == m,
    }
}

/// The command that a list of matching commands gives when nobody can
/// choose: the only one, if there is exactly one.
pub open spec fn sole_command(m: Seq<Seq<char>>) -> Option<Seq<char>> {
    if m.len() == 1 {
        Some(m[0])
    } else {
        None
    }
}

/// Sorts a list of matching commands into none, one or several.
pub fn choose_command(matches: Vec<String>) -> (r: PatternChoice)
    ensures
        choice_is(r, texts_of(matches@)),
{
    if matches.len() == 0 {
        PatternChoice::NoMatch
    } else if matches.len() == 1 {
        PatternChoice::Single(matches[0].clone())
    } else {
        PatternChoice::Ambiguous(matches)
    }
}

/// One layer of commands keyed by regular expression. No pattern stands
/// twice in it.
pub struct RegexCommands {
    entries: Vec<(String, String)>,
}

impl View for RegexCommands {
    type V = Seq<(Seq<char>, Seq<char>)>;

    closed spec fn view(&self) -> Seq<(Seq<char>, Seq<char>)> {
        pairs_of(self.entries@)
    }
}

/// Whether a pattern stands in a list of entries.
fn holds_pattern(entries: &Vec<(String, String)>, key: &String) -> (r: bool)
    ensures
        r == has_key(pairs_of(entries@), key@),
{
    let mut i: usize = 0;
    while i < entries.len()
        invariant
            i <= entries.len(),
            forall|j: int| 0 <= j < i ==> pairs_of(entries@)[j].0 != key@,
        decreases entries.len() - i,
    {
        if entries[i].0 == *key {
            assert(pairs_of(entries@)[i as int].0 == key@);
            return true;
        }
        i += 1;
    }
    false
}

impl RegexCommands {
    #[verifier::type_invariant]
    spec fn inv(self) -> bool {
        keys_distinct(pairs_of(self.entries@))
    }

    /// The layer that a list of raw entries makes.
    pub fn new(map: Vec<(String, String)>) -> (r: RegexCommands)
        ensures
            r@ == distinct_entries(pairs_of(map@)),
            keys_distinct(r@),
    {
        RegexCommands::build(&map)
    }

    /// The layer that a borrowed list of raw entries makes.
    fn build(map: &Vec<(String, String)>) -> (r: RegexCommands)
        ensures
            r@ == distinct_entries(pairs_of(map@)),
            keys_distinct(r@),
    {
        let mut entries: Vec<(String, String)> = Vec::new();
        let mut i: usize = 0;
        while i < map.len()
            invariant
                i <= map.len(),
                keys_distinct(pairs_of(entries@)),
                pairs_of(entries@) == distinct_entries(pairs_of(map@).take(i as int)),
            decreases map.len() - i,
        {
            let ghost views = pairs_of(map@);
            let ghost before = pairs_of(entries@);
            proof {
                assert(views.take(i + 1).drop_last() =~= views.take(i as int));
                assert(views.take(i + 1).last() == (map[i as int].0@, map[i as int].1@));
            }
            if !holds_pattern(&entries, &map[i].0) {
                entries.push((map[i].0.clone(), map[i].1.clone()));
                proof {
                    assert(pairs_of(entries@) =~= before.push((map[i as int].0@, map[i as int].1@)));
                }
            }
            i += 1;
        }
        proof {
            assert(pairs_of(map@).take(map.len() as int) =~= pairs_of(map@));
        }
        RegexCommands { entries }
    }

    /// The layers that a list of raw layers makes, in the same order.
    pub fn new_vec(map: Vec<Vec<(String, String)>>) -> (r: Vec<RegexCommands>)
        ensures
            r.len() == map.len(),
            forall|i: int| 0 <= i < map.len() ==> r[i]@ == distinct_entries(pairs_of(map[i]@)),
    {
        let mut layers: Vec<RegexCommands> = Vec::new();
        let mut i: usize = 0;
        while i < map.len()
            invariant
                i <= map.len(),
                layers.len() == i,
                forall|j: int| 0 <= j < i ==> layers[j]@ == distinct_entries(pairs_of(map[j]@)),
            decreases map.len() - i,
        {
            let layer = RegexCommands::build(&map[i]);
            layers.push(layer);
            i += 1;
        }
        layers
    }

    /// The commands whose pattern matches a path, in the layer's order. A
    /// pattern that does not compile matches nothing.
    pub fn matching(&self, compare: &str) -> (r: Vec<String>)
        ensures
            texts_of(r@) == matching_commands(self@, compare@),
    {
        let mut found: Vec<String> = Vec::new();
        let mut i: usize = 0;
        while i < self.entries.len()
            invariant
                i <= self.entries.len(),
                texts_of(found@) == matching_commands(self@.take(i as int), compare@),
            decreases self.entries.len() - i,
        {
            let ghost before = texts_of(found@);
            proof {
                assert(self@.take(i + 1).drop_last() =~= self@.take(i as int));
                assert(self@.take(i + 1).last() == (self.entries[i as int].0@, self.entries[i as int].1@));
            }
            match pattern_matches(self.entries[i].0.as_str(), compare) {
                Some(true) => {
                    found.push(self.entries[i].1.clone());
                    proof {
                        assert(texts_of(found@) =~= before.push(self.entries[i as int].1@));
                    }
                },
                _ => {},
            }
            i += 1;
        }
        proof {
            assert(self@.take(self.entries.len() as int) =~= self@);
        }
        found
    }

    /// The patterns of the layer that do not compile, for a warning.
    pub fn left_out(&self) -> (r: Vec<String>)
        ensures
            texts_of(r@) == rejected_patterns(self@),
    {
        let mut keys: Vec<String> = Vec::new();
        let mut i: usize = 0;
        proof {
            reveal_strlit("");
            assert(""@ =~= Seq::<char>::empty());
        }
        while i < self.entries.len()
            invariant
                i <= self.entries.len(),
                texts_of(keys@) == rejected_patterns(self@.take(i as int)),
                ""@ == Seq::<char>::empty(),
            decreases self.entries.len() - i,
        {
            let ghost before = texts_of(keys@);
            proof {
                assert(self@.take(i + 1).drop_last() =~= self@.take(i as int));
                assert(self@.take(i + 1).last() == (
                    self.entries[i as int].0@,
                    self.entries[i as int].1@,
                ));
            }
            if pattern_matches(self.entries[i].0.as_str(), "").is_none() {
                keys.push(self.entries[i].0.clone());
                proof {
                    assert(texts_of(keys@) =~= before.push(self.entries[i as int].0@));
                }
            }
            i += 1;
        }
        proof {
            assert(self@.take(self.entries.len() as int) =~= self@);
        }
        keys
    }

    /// Narrows the layer down for a path where nobody can choose: the one
    /// command whose pattern matched, and none where several did.
    pub fn narrow(&self, compare: &str) -> (r: Option<String>)
        ensures
            text_of(r) == sole_command(matching_commands(self@, compare@)),
    {
        match choose_command(self.matching(compare)) {
            PatternChoice::Single(c) => Some(c),
            _ => None,
        }
    }
}

impl PossibleCommands for RegexCommands {
    type Compare = String;

    type Narrowed = PatternChoice;

    open spec fn comparable(compare: &String) -> bool {
        true
    }

    open spec fn narrows_to(&self, compare: &String, r: PatternChoice) -> bool {
        choice_is(r, matching_commands(self@, compare@))
    }

    /// Narrows the layer down for a path: no command, the one command whose
    /// pattern matched, or the several to choose from.
    fn find_correct_command(&self, compare: &String) -> (r: PatternChoice) {
        choose_command(self.matching(compare.as_str()))
    }
}

/// The configuration as it is read from storage: for each list its raw
/// layers, in the file's order, each with its key and command pairs in the
/// order in which the reader hands them over.
pub struct OpenConfigString {
    pub open: Vec<Vec<(String, String)>>,
    pub open_regex: Vec<Vec<(String, String)>>,
    pub preview: Vec<Vec<(String, String)>>,
    pub preview_regex: Vec<Vec<(String, String)>>,
}

/// The configuration that files are opened with: layers by media type and
/// layers by pattern, for opening and for previewing.
pub struct OpenConfig {
    pub open: Vec<MimeCommands>,
    pub open_regex: Vec<RegexCommands>,
    pub preview: Vec<MimeCommands>,
    pub preview_regex: Vec<RegexCommands>,
}

/// Whether layers by media type are those that raw layers make.
pub open spec fn type_layers_of(layers: Seq<MimeCommands>, raw: Seq<Vec<(String, String)>>) -> bool {
    layers.len() == raw.len() && forall|i: int|
        0 <= i < raw.len() ==> (#[trigger] layers[i])@ == parsed_table(pairs_of(raw[i]@))
}

/// Whether layers by pattern are those that raw layers make.
pub open spec fn pattern_layers_of(layers: Seq<RegexCommands>, raw: Seq<Vec<(String, String)>>) -> bool {
    layers.len() == raw.len() && forall|i: int|
        0 <= i < raw.len() ==> (#[trigger] layers[i])@ == distinct_entries(pairs_of(raw[i]@))
}

impl OpenConfigString {
    /// Turns the raw layers into command tables, layer by layer.
    pub fn convert(self) -> (r: OpenConfig)
        ensures
            type_layers_of(r.open@, self.open@),
            pattern_layers_of(r.open_regex@, self.open_regex@),
            type_layers_of(r.preview@, self.preview@),
            pattern_layers_of(r.preview_regex@, self.preview_regex@),
    {
        let open = MimeCommands::new_vec(self.open);
        let open_regex = RegexCommands::new_vec(self.open_regex);
        let preview = MimeCommands::new_vec(self.preview);
        let preview_regex = RegexCommands::new_vec(self.preview_regex);
        OpenConfig { open, open_regex, preview, preview_regex }
    }
}

impl OpenConfig {
    /// The configuration that raw layers make.
    pub fn load(raw: OpenConfigString) -> (r: OpenConfig)
        ensures
            type_layers_of(r.open@, raw.open@),
            pattern_layers_of(r.open_regex@, raw.open_regex@),
            type_layers_of(r.preview@, raw.preview@),
            pattern_layers_of(r.preview_regex@, raw.preview_regex@),
    {
        raw.convert()
    }

    /// The layers for previewing: by media type, and by pattern.
    pub fn get_preview(self) -> (r: (Vec<MimeCommands>, Vec<RegexCommands>))
        ensures
            r.0 == self.preview,
            r.1 == self.preview_regex,
    {
        (self.preview, self.preview_regex)
    }

    /// The layers for opening: by media type, and by pattern.
    pub fn get_open(self) -> (r: (Vec<MimeCommands>, Vec<RegexCommands>))
        ensures
            r.0 == self.open,
            r.1 == self.open_regex,
    {
        (self.open, self.open_regex)
    }
}

/// A layer in which no pattern matches gives no command, one in which
/// exactly one matches gives that command, and one in which several match
/// gives none where nobody can choose.
pub proof fn lemma_sole_command(m: Seq<Seq<char>>)
    ensures
        m.len() == 0 ==> sole_command(m).is_none(),
        m.len() == 1 ==> sole_command(m) == Some(m[0]),
        m.len() >= 2 ==> sole_command(m).is_none(),
{
}

} // verus!
