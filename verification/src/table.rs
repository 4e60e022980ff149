//! The TOML tables the store reads and writes, as far as it looks into them.
//!
//! Parsing and rendering are the `toml` crate's, and so is the table type.
//! Verus sees nothing inside a table; contracts speak of its contents through
//! [`table_entries`]. The functions below that call into `toml` are not
//! verified: each states what the crate's source shows of the call it makes.

use vstd::prelude::*;

verus! {

/// `toml::map::Map`, of which `toml::Table` is the instance from `String` to
/// `toml::Value`. Nothing is claimed of it here.
#[verifier::external_type_specification]
#[verifier::external_body]
#[verifier::reject_recursive_types(K)]
#[verifier::reject_recursive_types(V)]
pub struct ExMap<K, V>(toml::map::Map<K, V>);

/// `toml::Value`, the values of a table. Nothing is claimed of it here.
#[verifier::external_type_specification]
#[verifier::external_body]
pub struct ExValue(toml::Value);

/// What a value of a table is, as far as the store tells values apart.
#[verifier::ext_equal]
pub enum Item {
    /// A string.
    Text(Seq<char>),
    /// An array; of each element its text where the element is a string.
    List(Seq<Option<Seq<char>>>),
    /// Anything else: a number, a boolean, a date or a nested table.
    Other,
}

/// What the store found under a key of a table.
pub enum Found {
    /// The table has no such key.
    Absent,
    /// A string.
    Text(String),
    /// An array; of each element its text where the element is a string.
    List(Vec<Option<String>>),
    /// A value of another kind.
    Other,
}

/// The entries of a table: its keys, and what stands under each.
pub uninterp spec fn table_entries(table: toml::Table) -> Map<Seq<char>, Item>;

/// The entries of the table that `text` parses to as a TOML document, or
/// `None` where `text` is no TOML document.
pub uninterp spec fn toml_parse(text: Seq<char>) -> Option<Map<Seq<char>, Item>>;

/// The TOML text of the table with plain entries `entries`, or `None` where
/// the serializer refuses it.
pub uninterp spec fn toml_text(entries: Map<Seq<char>, Item>) -> Option<Seq<char>>;

/// An item made of strings alone.
pub open spec fn item_is_plain(item: Item) -> bool {
    match item {
        Item::Text(_) => true,
        Item::List(elements) => forall|i: int| 0 <= i < elements.len() ==> elements[i] is Some,
        Item::Other => false,
    }
}

/// Entries whose values are strings and arrays of strings.
pub open spec fn entries_are_plain(entries: Map<Seq<char>, Item>) -> bool {
    forall|key: Seq<char>| entries.contains_key(key) ==> item_is_plain(#[trigger] entries[key])
}

/// Of each element of an array its text, where it has one.
pub open spec fn opt_texts(elements: Seq<Option<String>>) -> Seq<Option<Seq<char>>> {
    elements.map_values(|element: Option<String>| crate::config::opt_text(element))
}

impl Found {
    /// The item found, or `None` for an absent key.
    pub open spec fn item(self) -> Option<Item> {
        match self {
            Found::Absent => None,
            Found::Text(text) => Some(Item::Text(text@)),
            Found::List(elements) => Some(Item::List(opt_texts(elements@))),
            Found::Other => Some(Item::Other),
        }
    }
}

/// `toml::from_str` at `toml::Table`: the table that `text` holds as a TOML
/// document, or `None` where the parser reports an error.
#[verifier::external_body]
pub(crate) fn parse_table(text: &str) -> (table: Option<toml::Table>)
    ensures
        match table {
            Some(t) => toml_parse(text@) == Some(table_entries(t)),
            None => toml_parse(text@) is None,
        },
{
    toml::from_str::<toml::Table>(text).ok()
}

/// `toml::map::Map::get`: what stands under `key`, told apart by the variant of
/// `toml::Value` found there.
#[verifier::external_body]
pub(crate) fn table_get(table: &toml::Table, key: &str) -> (found: Found)
    ensures
        found.item() == if table_entries(*table).contains_key(key@) {
            Some(table_entries(*table)[key@])
        } else {
            None
        },
{
    match table.get(key) {
        None => Found::Absent,
        Some(toml::Value::String(text)) => Found::Text(text.clone()),
        Some(toml::Value::Array(elements)) => Found::List(
            elements.iter().map(|element| element.as_str().map(str::to_owned)).collect(),
        ),
        Some(_) => Found::Other,
    }
}

/// `toml::map::Map::new`: a table without entries.
#[verifier::external_body]
pub(crate) fn table_new() -> (table: toml::Table)
    ensures
        table_entries(table) == (Map::<Seq<char>, Item>::empty()),
{
    toml::Table::new()
}

/// `toml::map::Map::insert` of a string value: afterwards `key` holds `text`,
/// and every other key what it held.
#[verifier::external_body]
pub(crate) fn table_put_text(table: &mut toml::Table, key: &str, text: &str)
    ensures
        table_entries(*final(table)) == table_entries(*old(table)).insert(key@, Item::Text(text@)),
{
    table.insert(key.to_owned(), toml::Value::String(text.to_owned()));
}

/// `toml::map::Map::insert` of an array of strings: afterwards `key` holds the
/// array of `elements`, and every other key what it held.
#[verifier::external_body]
pub(crate) fn table_put_list(table: &mut toml::Table, key: &str, elements: &Vec<String>)
    ensures
        table_entries(*final(table)) == table_entries(*old(table)).insert(
            key@,
            Item::List(elements@.map_values(|element: String| Some(element@))),
        ),
{
    let array = elements.iter().cloned().map(toml::Value::String).collect();
    table.insert(key.to_owned(), toml::Value::Array(array));
}

/// `toml::to_string` at `toml::Table`: the TOML text of the table, or `None`
/// where the serializer reports an error. For a table of strings and arrays of
/// strings the text depends on the entries alone.
#[verifier::external_body]
pub(crate) fn render_table(table: &toml::Table) -> (text: Option<String>)
    ensures
        entries_are_plain(table_entries(*table)) ==> crate::config::opt_text(text) == toml_text(
            table_entries(*table),
        ),
{
    toml::to_string(table).ok()
}

} // verus!
