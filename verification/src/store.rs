//! The configuration as a TOML document.
//!
//! The file holds at most two keys the store knows:
//!
//! ```toml
//! background = "/path/to/current.png"
//! gallery = ["/path/to/current.png", "/path/to/other.png"]
//! ```
//!
//! Without `background` nothing is selected; without `gallery` the gallery is
//! empty. Other keys are passed over. A document with neither key, or one in
//! which a known key holds a value of another shape, is no configuration.
//! Reading never fails: whatever cannot be read as a configuration counts as
//! "no configuration", and the caller goes on with the defaults.
//!
//! This module reads and writes no file. The caller hands in what the file
//! held and writes out the text it gets.

use vstd::prelude::*;
use crate::config::{opt_text, opt_view, texts, Config, ConfigView};
use crate::table::{
    entries_are_plain, opt_texts, parse_table, render_table, table_entries, table_get, table_new,
    table_put_list, table_put_text, toml_parse, toml_text, Found, Item,
};

verus! {

/// Why the store could not do what was asked.
#[derive(Clone, Copy, Debug, PartialEq, Eq, Structural)]
pub enum StoreError {
    /// The user's configuration directory cannot be determined.
    PathResolution,
    /// The configuration could not be written.
    Persist,
}

impl StoreError {
    /// A line for the user that says what went wrong.
    pub fn message(&self) -> (line: &'static str)
        ensures
            line@ == match self {
                StoreError::PathResolution => "cannot determine the configuration directory"@,
                StoreError::Persist => "cannot write the configuration"@,
            },
    {
        match self {
            StoreError::PathResolution => "cannot determine the configuration directory",
            StoreError::Persist => "cannot write the configuration",
        }
    }
}

/// The key of the selected background.
pub open spec fn background_key() -> Seq<char> {
    "background"@
}

/// The key of the gallery.
pub open spec fn gallery_key() -> Seq<char> {
    "gallery"@
}

/// A text as the element of an array that holds it.
pub open spec fn present() -> spec_fn(Seq<char>) -> Option<Seq<char>> {
    |text: Seq<char>| Some(text)
}

/// Every element of an array is a string.
pub open spec fn all_texts(elements: Seq<Option<Seq<char>>>) -> bool {
    forall|i: int| 0 <= i < elements.len() ==> (#[trigger] elements[i]) is Some
}

/// The strings of an array of strings, in order.
pub open spec fn strings(elements: Seq<Option<Seq<char>>>) -> Seq<Seq<char>> {
    Seq::new(elements.len(), |i: int| elements[i].unwrap())
}

/// The selection that stands under the background key: none where the key is
/// absent, the string where it holds one. `None` where it holds anything else.
pub open spec fn background_from(item: Option<Item>) -> Option<Option<Seq<char>>> {
    match item {
        None => Some(None),
        Some(Item::Text(path)) => Some(Some(path)),
        Some(_) => None,
    }
}

/// The gallery that stands under the gallery key: empty where the key is
/// absent, the strings in order where it holds an array of strings. `None`
/// where it holds anything else.
pub open spec fn gallery_from(item: Option<Item>) -> Option<Seq<Seq<char>>> {
    match item {
        None => Some(Seq::empty()),
        Some(Item::List(elements)) => if all_texts(elements) {
            Some(strings(elements))
        } else {
            None
        },
        Some(_) => None,
    }
}

/// The configuration made of what stands under the two keys, if it is one.
pub open spec fn assembled(background: Option<Item>, gallery: Option<Item>) -> Option<ConfigView> {
    if background is None && gallery is None {
        None
    } else {
        match (background_from(background), gallery_from(gallery)) {
            (Some(b), Some(g)) => Some(ConfigView { background: b, gallery: g }),
            _ => None,
        }
    }
}

/// The configuration that a document with these entries holds, if it holds one.
pub open spec fn decoded(entries: Map<Seq<char>, Item>) -> Option<ConfigView> {
    assembled(entries.get(background_key()), entries.get(gallery_key()))
}

/// The entries of the document written for a configuration: the gallery
/// always, the background where one is selected.
pub open spec fn encoded(config: ConfigView) -> Map<Seq<char>, Item> {
    let gallery = Map::<Seq<char>, Item>::empty().insert(
        gallery_key(),
        Item::List(config.gallery.map_values(present())),
    );
    match config.background {
        Some(path) => gallery.insert(background_key(), Item::Text(path)),
        None => gallery,
    }
}

/// The two keys differ.
pub proof fn lemma_keys_differ()
    ensures
        background_key() != gallery_key(),
{
    reveal_strlit("background");
    reveal_strlit("gallery");
    assert("background"@[0] == 'b');
    assert("gallery"@[0] == 'g');
}

/// The location of the configuration file below the user's configuration
/// directory.
pub fn config_file() -> (name: &'static str)
    ensures
        name@ == "icepaper/config.toml"@,
{
    "icepaper/config.toml"
}

/// The strings of an array, in order, where every element is a string.
fn strings_of(elements: &Vec<Option<String>>) -> (paths: Option<Vec<String>>)
    ensures
        match paths {
            Some(p) => all_texts(opt_texts(elements@)) && texts(p@) == strings(
                opt_texts(elements@),
            ),
            None => !all_texts(opt_texts(elements@)),
        },
{
    let ghost all = opt_texts(elements@);
    let mut paths: Vec<String> = Vec::new();
    let mut i: usize = 0;
    while i < elements.len()
        invariant
            i <= elements.len(),
            all == opt_texts(elements@),
            paths.len() == i,
            forall|j: int| 0 <= j < i ==> (#[trigger] all[j]) == Some(paths[j]@),
        decreases elements.len() - i,
    {
        match &elements[i] {
            Some(path) => {
                paths.push(path.clone());
            },
            None => {
                assert(all[i as int] is None);
                return None;
            },
        }
        i += 1;
    }
    assert(texts(paths@) =~= strings(all));
    Some(paths)
}

/// Makes a configuration of what was found under the two keys.
pub fn assemble(background: Found, gallery: Found) -> (config: Option<Config>)
    ensures
        opt_view(config) == assembled(background.item(), gallery.item()),
{
    let selection = match background {
        Found::Absent => {
            if let Found::Absent = gallery {
                return None;
            }
            None
        },
        Found::Text(path) => Some(path),
        _ => {
            return None;
        },
    };
    let paths = match gallery {
        Found::Absent => {
            let paths: Vec<String> = Vec::new();
            assert(texts(paths@) =~= Seq::empty());
            paths
        },
        Found::List(elements) => match strings_of(&elements) {
            Some(paths) => paths,
            None => {
                return None;
            },
        },
        _ => {
            return None;
        },
    };
    Some(Config { background: selection, gallery: paths })
}

/// Reads a configuration out of a parsed document.
pub fn decode_table(table: &toml::Table) -> (config: Option<Config>)
    ensures
        opt_view(config) == decoded(table_entries(*table)),
{
    let background = table_get(table, "background");
    let gallery = table_get(table, "gallery");
    assemble(background, gallery)
}

/// Builds the document to write for a configuration.
pub fn encode_table(config: &Config) -> (table: toml::Table)
    ensures
        table_entries(table) == encoded(config@),
{
    let mut table = table_new();
    table_put_list(&mut table, "gallery", &config.gallery);
    proof {
        assert(config.gallery@.map_values(|element: String| Some(element@))
            =~= config@.gallery.map_values(present()));
    }
    if let Some(background) = &config.background {
        table_put_text(&mut table, "background", background.as_str());
    }
    table
}

/// Reads a configuration out of TOML text. `None` where the text is no TOML
/// document or the document is no configuration.
pub fn parse_config(text: &str) -> (config: Option<Config>)
    ensures
        opt_view(config) == match toml_parse(text@) {
            Some(entries) => decoded(entries),
            None => None,
        },
{
    match parse_table(text) {
        Some(table) => decode_table(&table),
        None => None,
    }
}

/// The TOML text of a configuration. `None` where the serializer refuses the
/// document.
pub fn render_config(config: &Config) -> (text: Option<String>)
    ensures
        opt_text(text) == toml_text(encoded(config@)),
{
    let table = encode_table(config);
    proof {
        lemma_encoded_is_plain(config@);
    }
    render_table(&table)
}

/// What reading the store yields, given what the file held: `content` is the
/// file's text, or `None` where there is no file or it cannot be read. Missing,
/// unreadable and malformed files all yield "no configuration".
pub fn read_config(content: Option<&str>) -> (config: Option<Config>)
    ensures
        opt_view(config) == match content {
            Some(text) => match toml_parse(text@) {
                Some(entries) => decoded(entries),
                None => None,
            },
            None => None,
        },
{
    match content {
        Some(text) => parse_config(text),
        None => None,
    }
}

/// The text to write to the file for a configuration, replacing what the file
/// held. Fails with [`StoreError::Persist`] exactly where the configuration
/// cannot be put into TOML.
pub fn write_config(config: &Config) -> (text: Result<String, StoreError>)
    ensures
        match toml_text(encoded(config@)) {
            Some(expected) => text matches Ok(written) && written@ == expected,
            None => text == Err::<String, StoreError>(StoreError::Persist),
        },
{
    match render_config(config) {
        Some(written) => Ok(written),
        None => Err(StoreError::Persist),
    }
}

/// The document written for a configuration holds strings and arrays of
/// strings only.
pub proof fn lemma_encoded_is_plain(config: ConfigView)
    ensures
        entries_are_plain(encoded(config)),
{
    lemma_keys_differ();
}

/// Round trip: the document written for a configuration is read back as that
/// configuration, whatever its background and gallery.
pub proof fn lemma_round_trip(config: ConfigView)
    ensures
        decoded(encoded(config)) == Some(config),
{
    lemma_keys_differ();
    let elements = config.gallery.map_values(present());
    assert(encoded(config).get(gallery_key()) == Some(Item::List(elements)));
    assert(strings(elements) =~= config.gallery);
}

/// A document without the two keys is no configuration, whatever else it
/// holds; an empty document in particular.
pub proof fn lemma_no_keys_no_config(entries: Map<Seq<char>, Item>)
    requires
        !entries.contains_key(background_key()),
        !entries.contains_key(gallery_key()),
    ensures
        decoded(entries) is None,
{
}

/// A known key with a value of the wrong shape spoils the document, whatever
/// stands under the other key.
pub proof fn lemma_wrong_shape_no_config(entries: Map<Seq<char>, Item>)
    ensures
        background_from(entries.get(background_key())) is None ==> decoded(entries) is None,
        gallery_from(entries.get(gallery_key())) is None ==> decoded(entries) is None,
{
}

} // verus!
