//! The configuration as a document that can be edited in place: comments
//! and layout of what is not touched stay as they are.

use vstd::prelude::*;
use vstd::string::*;
use crate::media_type::{MediaType, essence_of};
use crate::mime_helpers::text_of;
use crate::text::owned;
use crate::config::quoting::{quote, is_quoted, unquoted};
use crate::config::utils::{ConfigFile, content_of, loaded_text, load_to_string, store_string};

verus! {

/// The document type of `toml_edit`. The proofs see nothing inside it.
#[verifier::external_type_specification]
#[verifier::external_body]
pub struct ExDocument(toml_edit::Document);

/// What a document holds: for each key of the root table that is an array
/// of tables, its tables in order, each as a map from its keys to the text
/// of a string value, or to nothing where the value is no string.
pub uninterp spec fn document_sections(doc: toml_edit::Document) -> Map<
    Seq<char>,
    Seq<Map<Seq<char>, Option<Seq<char>>>>,
>;

/// The text that a document is written out as.
pub uninterp spec fn document_text(doc: toml_edit::Document) -> Seq<char>;

/// What a text holds when it is read as a document; nothing where it is
/// malformed.
pub uninterp spec fn parsed_sections(text: Seq<char>) -> Option<
    Map<Seq<char>, Seq<Map<Seq<char>, Option<Seq<char>>>>>,
>;

/// A printable ASCII character other than the two quotes and the
/// backslash.
pub open spec fn plain_char(c: char) -> bool {
    ' ' <= c && c <= '~' && c != '"' && c != '\'' && c != '\\'
}

/// A name that the document finds letter for letter when it is handed
/// over as it is, without quotes.
pub open spec fn plain_key(s: Seq<char>) -> bool {
    forall|i: int| 0 <= i < s.len() ==> plain_char(#[trigger] s[i])
}

/// Reads a text with `<toml_edit::Document as FromStr>::from_str`.
/// Trusted: whether the text is accepted and what the document then holds
/// are functions of the text alone, named `parsed_sections`.
#[verifier::external_body]
fn parse_document(text: &str) -> (r: Option<toml_edit::Document>)
    ensures
        r.is_some() == parsed_sections(text@).is_some(),
        r.is_some() ==> document_sections(r.unwrap()) == parsed_sections(text@).unwrap(),
{
    text.parse::<toml_edit::Document>().ok()
}

/// Writes a document out with its `Display` impl (`to_string`). Trusted:
/// the result is the document's text.
#[verifier::external_body]
fn render_document(doc: &toml_edit::Document) -> (r: String)
    ensures
        r@ == document_text(*doc),
{
    doc.to_string()
}

/// Counts the tables of a section with `ArrayOfTables::len`, reached
/// through `Item::as_table`, `Table::get` and `Item::as_array_of_tables`.
/// Trusted: a key of the root that is an array of tables has as many layers
/// as that array has tables; any other key has none to count.
#[verifier::external_body]
fn count_layers(doc: &toml_edit::Document, section: &str) -> (r: Option<usize>)
    ensures
        r.is_some() == document_sections(*doc).contains_key(section@),
        r.is_some() ==> r.unwrap() == document_sections(*doc)[section@].len(),
{
    doc.root.as_table().and_then(|t| t.get(section)).and_then(|i| i.as_array_of_tables()).map(
        |a| a.len(),
    )
}

/// Looks a key up in one table of a section with `Table::get`, and reads
/// the item with `Item::is_none` and `Item::as_str`. Trusted: the outer
/// result tells whether the layer holds the key, the inner one is the text
/// of a string value.
#[verifier::external_body]
fn read_entry(doc: &toml_edit::Document, section: &str, layer: usize, key: &str) -> (r: Option<
    Option<String>,
>)
    requires
        document_sections(*doc).contains_key(section@),
        layer < document_sections(*doc)[section@].len(),
    ensures
        r.is_some() == document_sections(*doc)[section@][layer as int].contains_key(key@),
        r.is_some() ==> text_of(r.unwrap()) == document_sections(
            *doc,
        )[section@][layer as int][key@],
{
    let tables = doc.root.as_table()?.get(section)?.as_array_of_tables()?;
    let item = tables.get(layer)?.get(key)?;
    if item.is_none() {
        None
    } else {
        Some(item.as_str().map(|s| s.to_string()))
    }
}

/// Stores a command under a key in one table of a section, by index
/// assignment (`IndexMut` of `Item`, down to `Table::entry`) of
/// `toml_edit::value`. Key and command are handed over as quoted strings,
/// which the crate reads with its parser of basic strings: every character
/// between the quotes stands for itself, but for the escapes `\"`, `\\`
/// and `\u00` with two digits, which stand for one character each.
/// Trusted, for a plain section name: the call does not panic, that layer
/// then maps the text that the quoted key stands for to the text that the
/// quoted command stands for, and every other layer and section holds what
/// it held.
#[verifier::external_body]
fn write_entry(doc: &mut toml_edit::Document, section: &str, layer: usize, key: &str, command: &str)
    requires
        document_sections(*old(doc)).contains_key(section@),
        layer < document_sections(*old(doc))[section@].len(),
        plain_key(section@),
        is_quoted(key@),
        is_quoted(command@),
    ensures
        document_sections(*final(doc)) == document_sections(*old(doc)).insert(
            section@,
            document_sections(*old(doc))[section@].update(
                layer as int,
                document_sections(*old(doc))[section@][layer as int].insert(
                    unquoted(key@),
                    Some(unquoted(command@)),
                ),
            ),
        ),
    no_unwind
{
    doc.root[section][layer][key] = toml_edit::value(command);
}

/// Appends an empty table (`Table::new`) to a section with
/// `ArrayOfTables::append`. Trusted, for a plain section name: the call
/// does not panic, and the section has one more layer, which holds
/// nothing; the rest is as it was.
#[verifier::external_body]
fn append_layer(doc: &mut toml_edit::Document, section: &str)
    requires
        document_sections(*old(doc)).contains_key(section@),
        plain_key(section@),
    ensures
        document_sections(*final(doc)) == document_sections(*old(doc)).insert(
            section@,
            document_sections(*old(doc))[section@].push(
                Map::<Seq<char>, Option<Seq<char>>>::empty(),
            ),
        ),
    no_unwind
{
    if let Some(tables) = doc.root[section].as_array_of_tables_mut() {
        tables.append(toml_edit::Table::new());
    }
}

/// The name of the section that a selector picks.
pub open spec fn section_name(preview: bool) -> Seq<char> {
    if preview {
        seq!['p', 'r', 'e', 'v', 'i', 'e', 'w']
    } else {
        seq!['o', 'p', 'e', 'n']
    }
}

/// Whether a layer holds the key with a command other than the given one:
/// such a layer is passed over.
pub open spec fn holds_other(
    layer: Map<Seq<char>, Option<Seq<char>>>,
    key: Seq<char>,
    command: Seq<char>,
) -> bool {
    layer.contains_key(key) && layer[key].is_some() && layer[key].unwrap() != command
}

/// The first layer at or after `from` that is not passed over; the number
/// of layers where every one is.
pub open spec fn deciding_layer(
    layers: Seq<Map<Seq<char>, Option<Seq<char>>>>,
    key: Seq<char>,
    command: Seq<char>,
    from: int,
) -> int
    decreases layers.len() - from,
{
    if from < 0 || from >= layers.len() {
        layers.len() as int
    } else if holds_other(layers[from], key, command) {
        deciding_layer(layers, key, command, from + 1)
    } else {
        from
    }
}

/// How setting a command ended.
#[derive(Debug, Clone, Copy, PartialEq, Eq, Structural)]
pub enum SetOutcome {
    /// A layer already gave the key this command: nothing was changed.
    Unchanged,
    /// The layer with this index lacked the key and now holds it.
    Inserted(usize),
    /// Every layer held the key with another command: a new last layer
    /// holds the pair.
    Appended,
}

/// Why a command could not be set.
#[derive(Debug, Clone, Copy, PartialEq, Eq, Structural)]
pub enum SetError {
    /// The document has no such array of tables.
    MissingSection,
    /// The layer with this index holds the key with a value that is no
    /// string.
    NotACommand(usize),
}

/// What setting a command in a list of layers comes to.
pub open spec fn set_result(
    layers: Seq<Map<Seq<char>, Option<Seq<char>>>>,
    key: Seq<char>,
    command: Seq<char>,
) -> Result<SetOutcome, SetError> {
    let d = deciding_layer(layers, key, command, 0);
    if d >= layers.len() {
        Ok(SetOutcome::Appended)
    } else if !layers[d].contains_key(key) {
        Ok(SetOutcome::Inserted(d as usize))
    } else if layers[d][key].is_none() {
        Err(SetError::NotACommand(d as usize))
    } else {
        Ok(SetOutcome::Unchanged)
    }
}

/// The layers after a command was set in them.
pub open spec fn after_set(
    layers: Seq<Map<Seq<char>, Option<Seq<char>>>>,
    key: Seq<char>,
    command: Seq<char>,
) -> Seq<Map<Seq<char>, Option<Seq<char>>>> {
    let d = deciding_layer(layers, key, command, 0);
    if d >= layers.len() {
        layers.push(Map::<Seq<char>, Option<Seq<char>>>::empty().insert(key, Some(command)))
    } else if !layers[d].contains_key(key) {
        layers.update(d, layers[d].insert(key, Some(command)))
    } else {
        layers
    }
}

/// What setting a command in a document comes to.
pub open spec fn set_entry_result(
    sections: Map<Seq<char>, Seq<Map<Seq<char>, Option<Seq<char>>>>>,
    preview: bool,
    name: (Seq<char>, Seq<char>),
    command: Seq<char>,
) -> Result<SetOutcome, SetError> {
    if !sections.contains_key(section_name(preview)) {
        Err(SetError::MissingSection)
    } else {
        set_result(sections[section_name(preview)], essence_of(name), command)
    }
}

/// Whether an outcome changed the document.
pub open spec fn changes_document(r: Result<SetOutcome, SetError>) -> bool {
    r matches Ok(o) && o != SetOutcome::Unchanged
}

/// Why no configuration could be loaded.
#[derive(Debug, Clone, Copy, PartialEq, Eq, Structural)]
pub enum ConfigError {
    /// The file could not be read.
    IOFailure,
    /// The text is malformed.
    ParseFailure,
}

/// The section that a selector picks.
fn section(preview: bool) -> (r: &'static str)
    ensures
        r@ == section_name(preview),
        plain_key(r@),
{
    proof {
        reveal_strlit("preview");
        reveal_strlit("open");
        assert("preview"@ =~= section_name(true));
        assert("open"@ =~= section_name(false));
    }
    if preview {
        "preview"
    } else {
        "open"
    }
}

/// The configuration as an editable document. Until it is changed, it
/// keeps the text that it was read from.
#[derive(Debug)]
pub struct EditConfig {
    doc: toml_edit::Document,
    source: String,
    changed: bool,
}

impl EditConfig {
    #[verifier::type_invariant]
    spec fn inv(self) -> bool {
        !self.changed ==> parsed_sections(self.source@) == Some(document_sections(self.doc))
    }

    /// Whether an entry was set since the document was read.
    pub closed spec fn changed(&self) -> bool {
        self.changed
    }

    /// What the document holds: the layers of each array of tables of its
    /// root.
    pub closed spec fn sections(&self) -> Map<Seq<char>, Seq<Map<Seq<char>, Option<Seq<char>>>>> {
        document_sections(self.doc)
    }

    /// The text that the document is written out as: the text that it
    /// was read from, until it is changed.
    pub closed spec fn text(&self) -> Seq<char> {
        if self.changed {
            document_text(self.doc)
        } else {
            self.source@
        }
    }

    /// Reads a configuration text. A malformed text is refused.
    pub fn from_text(toml_string: &str) -> (r: Result<EditConfig, ConfigError>)
        ensures
            r.is_ok() == parsed_sections(toml_string@).is_some(),
            r.is_ok() ==> r.unwrap().sections() == parsed_sections(toml_string@).unwrap(),
            r.is_ok() ==> r.unwrap().text() == toml_string@ && !r.unwrap().changed(),
            r.is_err() ==> r.unwrap_err() == ConfigError::ParseFailure,
    {
        match parse_document(toml_string) {
            Some(doc) => Ok(EditConfig { doc, source: owned(toml_string), changed: false }),
            None => Err(ConfigError::ParseFailure),
        }
    }

    /// Loads the configuration from its file. Where there is no file, the
    /// default configuration is stored in it and used. A file that cannot
    /// be read and a malformed text are refused.
    pub fn load(file: &mut ConfigFile) -> (r: Result<EditConfig, ConfigError>)
        ensures
            match loaded_text(*old(file)) {
                Some(text) => {
                    &&& content_of(*final(file)) == Some(text)
                    &&& r.is_ok() == parsed_sections(text).is_some()
                    &&& r.is_ok() ==> r.unwrap().sections() == parsed_sections(text).unwrap()
                    &&& r.is_ok() ==> r.unwrap().text() == text && !r.unwrap().changed()
                    &&& r.is_err() ==> r.unwrap_err() == ConfigError::ParseFailure
                },
                None => r.is_err() && r.unwrap_err() == ConfigError::IOFailure && *final(file)
                    == *old(file),
            },
    {
        match load_to_string(file) {
            Ok(text) => EditConfig::from_text(text.as_str()),
            Err(_) => Err(ConfigError::IOFailure),
        }
    }

    /// Writes the document out. A document that was not changed is
    /// written as the text that it was read from, which reads back with
    /// the same entries.
    pub fn to_string(&self) -> (r: String)
        ensures
            r@ == self.text(),
            !self.changed() ==> parsed_sections(r@) == Some(self.sections()),
    {
        proof {
            use_type_invariant(self);
        }
        if self.changed {
            render_document(&self.doc)
        } else {
            self.source.clone()
        }
    }

    /// Stores the document's text in the configuration file. Storing a
    /// document that was not changed leaves in the file the text that the
    /// document was read from, and so every entry of it.
    pub fn store(&self, file: &mut ConfigFile)
        ensures
            content_of(*final(file)) == Some(self.text()),
            !self.changed() ==> parsed_sections(self.text()) == Some(self.sections()),
    {
        let text = self.to_string();
        store_string(file, text.as_str());
    }

    /// The number of layers for opening, or for previewing; none where the
    /// document has no such array of tables.
    pub fn layer_count(&self, preview: bool) -> (r: Option<usize>)
        ensures
            r.is_some() == self.sections().contains_key(section_name(preview)),
            r.is_some() ==> r.unwrap() == self.sections()[section_name(preview)].len(),
    {
        count_layers(&self.doc, section(preview))
    }

    /// The command that one layer gives a key: none where there is no such
    /// layer, where the layer lacks the key, or where its value is no
    /// string.
    pub fn get(&self, preview: bool, layer: usize, key: &str) -> (r: Option<String>)
        ensures
            text_of(r) == if self.sections().contains_key(section_name(preview)) && layer
                < self.sections()[section_name(preview)].len()
                && self.sections()[section_name(preview)][layer as int].contains_key(key@) {
                self.sections()[section_name(preview)][layer as int][key@]
            } else {
                None
            },
    {
        let name = section(preview);
        match count_layers(&self.doc, name) {
            Some(n) => {
                if layer < n {
                    match read_entry(&self.doc, name, layer, key) {
                        Some(value) => value,
                        None => None,
                    }
                } else {
                    None
                }
            },
            None => None,
        }
    }

    /// Sets the command of a media type, for opening or for previewing.
    ///
    /// The layers are gone through in order. A layer that holds the key
    /// with another command is passed over. The first other layer decides:
    /// where it holds the key with this command nothing is changed; where it
    /// lacks the key, it gets the pair. Where every layer is passed over, a
    /// new last layer gets the pair. Key and command are stored letter for
    /// letter, whatever characters they hold. A missing section and a value
    /// that is no string are refused, and the document stays as it was.
    pub fn set_entry(&mut self, preview: bool, media_type: &MediaType, command: &str) -> (r: Result<
        SetOutcome,
        SetError,
    >)
        ensures
            r == set_entry_result(old(self).sections(), preview, media_type@, command@),
            changes_document(r) ==> final(self).sections() == old(self).sections().insert(
                section_name(preview),
                after_set(
                    old(self).sections()[section_name(preview)],
                    essence_of(media_type@),
                    command@,
                ),
            ),
            !changes_document(r) ==> *final(self) == *old(self),
            changes_document(r) ==> final(self).changed(),
    {
        let key = media_type.essence();
        let quoted_key = quote(key.as_str());
        let quoted_command = quote(command);
        let name = section(preview);
        let count: usize = match count_layers(&self.doc, name) {
            Some(n) => n,
            None => {
                return Err(SetError::MissingSection);
            },
        };
        let ghost layers = self.sections()[section_name(preview)];
        let mut i: usize = 0;
        while i < count
            invariant
                i <= count,
                count == layers.len(),
                *self == *old(self),
                name@ == section_name(preview),
                key@ == essence_of(media_type@),
                plain_key(name@),
                is_quoted(quoted_key@),
                is_quoted(quoted_command@),
                unquoted(quoted_key@) == key@,
                unquoted(quoted_command@) == command@,
                self.sections().contains_key(section_name(preview)),
                layers == self.sections()[section_name(preview)],
                deciding_layer(layers, key@, command@, 0) == deciding_layer(
                    layers,
                    key@,
                    command@,
                    i as int,
                ),
            decreases count - i,
        {
            match read_entry(&self.doc, name, i, key.as_str()) {
                Some(Some(found)) => {
                    if crate::text::same_text(found.as_str(), command) {
                        return Ok(SetOutcome::Unchanged);
                    }
                },
                Some(None) => {
                    return Err(SetError::NotACommand(i));
                },
                None => {
                    self.changed = true;
                    write_entry(
                        &mut self.doc,
                        name,
                        i,
                        quoted_key.as_str(),
                        quoted_command.as_str(),
                    );
                    return Ok(SetOutcome::Inserted(i));
                },
            }
            i += 1;
        }
        self.changed = true;
        append_layer(&mut self.doc, name);
        write_entry(&mut self.doc, name, count, quoted_key.as_str(), quoted_command.as_str());
        proof {
            let empty = Map::<Seq<char>, Option<Seq<char>>>::empty();
            assert(layers.push(empty).update(count as int, empty.insert(key@, Some(command@)))
                =~= layers.push(empty.insert(key@, Some(command@))));
            assert(self.sections() =~= old(self).sections().insert(
                section_name(preview),
                after_set(layers, key@, command@),
            ));
        }
        Ok(SetOutcome::Appended)
    }
}

/// The deciding layer lies at or after the start, every layer before it
/// is passed over, and it is not passed over itself.
pub proof fn lemma_deciding_layer(
    layers: Seq<Map<Seq<char>, Option<Seq<char>>>>,
    key: Seq<char>,
    command: Seq<char>,
    from: int,
)
    requires
        0 <= from <= layers.len(),
    ensures
        from <= deciding_layer(layers, key, command, from) <= layers.len(),
        forall|j: int|
            from <= j < deciding_layer(layers, key, command, from) ==> holds_other(
                #[trigger] layers[j],
                key,
                command,
            ),
        deciding_layer(layers, key, command, from) < layers.len() ==> !holds_other(
            layers[deciding_layer(layers, key, command, from)],
            key,
            command,
        ),
    decreases layers.len() - from,
{
    if from < layers.len() && holds_other(layers[from], key, command) {
        lemma_deciding_layer(layers, key, command, from + 1);
    }
}

/// A layer that is not passed over, with only passed-over layers between
/// the start and itself, is the deciding layer.
pub proof fn lemma_deciding_layer_is(
    layers: Seq<Map<Seq<char>, Option<Seq<char>>>>,
    key: Seq<char>,
    command: Seq<char>,
    from: int,
    d: int,
)
    requires
        0 <= from <= d <= layers.len(),
        forall|j: int| from <= j < d ==> holds_other(#[trigger] layers[j], key, command),
        d < layers.len() ==> !holds_other(layers[d], key, command),
    ensures
        deciding_layer(layers, key, command, from) == d,
    decreases d - from,
{
    if from < d {
        lemma_deciding_layer_is(layers, key, command, from + 1, d);
    }
}

/// Setting the same command twice is setting it once: after a first call
/// that succeeded, a second one finds the command in place, reports
/// `Unchanged` and leaves the layers as they are.
pub proof fn lemma_set_twice(
    layers: Seq<Map<Seq<char>, Option<Seq<char>>>>,
    key: Seq<char>,
    command: Seq<char>,
)
    requires
        set_result(layers, key, command).is_ok(),
    ensures
        set_result(after_set(layers, key, command), key, command) == Ok::<SetOutcome, SetError>(
            SetOutcome::Unchanged,
        ),
        after_set(after_set(layers, key, command), key, command) == after_set(
            layers,
            key,
            command,
        ),
{
    let d = deciding_layer(layers, key, command, 0);
    let next = after_set(layers, key, command);
    lemma_deciding_layer(layers, key, command, 0);
    assert forall|j: int| 0 <= j < d implies holds_other(#[trigger] next[j], key, command) by {
        assert(next[j] == layers[j]);
    }
    lemma_deciding_layer_is(next, key, command, 0, d);
}

/// The same, of a whole document: where a first call of `set_entry`
/// succeeded, a second call with the same arguments reports `Unchanged`,
/// which leaves the document, and so its text, as it was.
pub proof fn lemma_set_entry_twice(
    sections: Map<Seq<char>, Seq<Map<Seq<char>, Option<Seq<char>>>>>,
    preview: bool,
    name: (Seq<char>, Seq<char>),
    command: Seq<char>,
)
    requires
        set_entry_result(sections, preview, name, command).is_ok(),
    ensures
        set_entry_result(
            sections.insert(
                section_name(preview),
                after_set(sections[section_name(preview)], essence_of(name), command),
            ),
            preview,
            name,
            command,
        ) == Ok::<SetOutcome, SetError>(SetOutcome::Unchanged),
        !changes_document(set_entry_result(sections, preview, name, command))
            ==> set_entry_result(sections, preview, name, command) == Ok::<SetOutcome, SetError>(
            SetOutcome::Unchanged,
        ),
{
    lemma_set_twice(sections[section_name(preview)], essence_of(name), command);
}

/// A layer that holds the key with another command is never modified:
/// setting a command leaves every layer but the deciding one as it was,
/// and every layer before the deciding one is such a layer. Where the call
/// inserts, it does so into the first layer that lacks the key.
pub proof fn lemma_earlier_layers_stay(
    layers: Seq<Map<Seq<char>, Option<Seq<char>>>>,
    key: Seq<char>,
    command: Seq<char>,
)
    ensures
        after_set(layers, key, command).len() >= layers.len(),
        forall|j: int|
            0 <= j < layers.len() && j != deciding_layer(layers, key, command, 0) ==> (
            #[trigger] after_set(layers, key, command)[j]) == layers[j],
        forall|j: int|
            0 <= j < deciding_layer(layers, key, command, 0) ==> holds_other(
                #[trigger] layers[j],
                key,
                command,
            ),
        layers.len() > 0 && holds_other(layers[0], key, command) ==> deciding_layer(
            layers,
            key,
            command,
            0,
        ) >= 1 && after_set(layers, key, command)[0] == layers[0],
        set_result(layers, key, command) matches Ok(SetOutcome::Inserted(_)) ==> {
            let d = deciding_layer(layers, key, command, 0);
            &&& d < layers.len()
            &&& !layers[d].contains_key(key)
            &&& after_set(layers, key, command) == layers.update(
                d,
                layers[d].insert(key, Some(command)),
            )
        },
{
    lemma_deciding_layer(layers, key, command, 0);
}

/// No layer ever holds a key twice, and after a successful call the
/// deciding layer gives the key the command.
pub proof fn lemma_set_entry_stores(
    layers: Seq<Map<Seq<char>, Option<Seq<char>>>>,
    key: Seq<char>,
    command: Seq<char>,
)
    requires
        set_result(layers, key, command).is_ok(),
    ensures
        deciding_layer(layers, key, command, 0) < after_set(layers, key, command).len(),
        after_set(layers, key, command)[deciding_layer(layers, key, command, 0)].contains_key(
            key,
        ),
        after_set(layers, key, command)[deciding_layer(layers, key, command, 0)][key] == Some(
            command,
        ),
{
    lemma_deciding_layer(layers, key, command, 0);
}

} // verus!
