//! TOML documents, as the `toml` crate parses and prints them.
//!
//! A document is a `toml::Table`. The library reads one thing of it: which keys
//! it holds, and for each key whether its value is a string, and which. The
//! functions here that call the `toml` crate are trusted: their contracts are
//! stated, not proved.

use vstd::prelude::*;

verus! {

/// `toml::map::Map`, of which `toml::Table` is the case with `String` keys and
/// `toml::Value` values. Nothing inside it is seen; `table_entries` names what
/// a table holds.
#[verifier::external_type_specification]
#[verifier::external_body]
#[verifier::reject_recursive_types(K)]
#[verifier::reject_recursive_types(V)]
pub struct ExMap<K, V>(toml::map::Map<K, V>);

/// `toml::Value`, a table's value. Nothing inside it is seen.
#[verifier::external_type_specification]
#[verifier::external_body]
pub struct ExValue(toml::Value);

/// `toml::de::Error`, the parser's error. Nothing inside it is seen.
#[verifier::external_type_specification]
#[verifier::external_body]
pub struct ExParseError(toml::de::Error);

/// `toml::ser::Error`, the printer's error. Nothing inside it is seen.
#[verifier::external_type_specification]
#[verifier::external_body]
pub struct ExPrintError(toml::ser::Error);

/// What a table holds under a key: a string, or a value of another type.
#[derive(Debug, Clone, PartialEq, Eq)]
pub enum Entry {
    Text(String),
    Other,
}

/// An `Entry` with its string as a sequence of characters.
pub enum EntryView {
    Text(Seq<char>),
    Other,
}

impl View for Entry {
    type V = EntryView;

    open spec fn view(&self) -> EntryView {
        match self {
            Entry::Text(text) => EntryView::Text(text@),
            Entry::Other => EntryView::Other,
        }
    }
}

/// The keys of a document, each with what the document holds under it.
pub type Entries = Map<Seq<char>, EntryView>;

/// Whether every value of `entries` is a string.
pub open spec fn all_text(entries: Entries) -> bool {
    forall|key: Seq<char>| entries.contains_key(key) ==> #[trigger] entries[key] is Text
}

/// The keys of a table, each with what the table holds under it.
pub uninterp spec fn table_entries(table: toml::Table) -> Entries;

/// What `toml::from_str` makes of a text: the entries of the table that it
/// returns, or `None` where it returns an error.
pub uninterp spec fn parsed_document(text: Seq<char>) -> Option<Entries>;

/// What `toml::to_string` prints for a table of strings with these entries.
pub uninterp spec fn printed_document(entries: Entries) -> Seq<char>;

/// `toml::map::Map::new`: a table without keys.
#[verifier::external_body]
pub(crate) fn empty_table() -> (table: toml::Table)
    ensures
        table_entries(table) == Entries::empty(),
{
    toml::Table::new()
}

/// `toml::map::Map::insert`, with a string as the value: afterwards the table
/// holds the string under the key, whatever it held there before, and its
/// other keys are as they were.
#[verifier::external_body]
pub(crate) fn insert_text(table: &mut toml::Table, key: &str, text: &str)
    ensures
        table_entries(*final(table)) == table_entries(*old(table)).insert(
            key@,
            EntryView::Text(text@),
        ),
{
    table.insert(key.to_owned(), toml::Value::String(text.to_owned()));
}

/// `toml::map::Map::get`: `None` where the table lacks the key; else what it
/// holds under it, the string copied out where the value is one.
#[verifier::external_body]
pub(crate) fn lookup(table: &toml::Table, key: &str) -> (found: Option<Entry>)
    ensures
        found is Some <==> table_entries(*table).contains_key(key@),
        found matches Some(entry) ==> entry@ == table_entries(*table)[key@],
{
    match table.get(key) {
        None => None,
        Some(toml::Value::String(text)) => Some(Entry::Text(text.clone())),
        Some(toml::Value::Integer(_)) => Some(Entry::Other),
        Some(toml::Value::Float(_)) => Some(Entry::Other),
        Some(toml::Value::Boolean(_)) => Some(Entry::Other),
        Some(toml::Value::Datetime(_)) => Some(Entry::Other),
        Some(toml::Value::Array(_)) => Some(Entry::Other),
        Some(toml::Value::Table(_)) => Some(Entry::Other),
    }
}

/// `toml::from_str`, read as a `toml::Table`: the table of the document that
/// the text is, or the parser's error. The result depends on the text alone.
#[verifier::external_body]
pub(crate) fn parse_document(text: &str) -> (parsed: Result<toml::Table, toml::de::Error>)
    ensures
        match parsed {
            Ok(table) => parsed_document(text@) == Some(table_entries(table)),
            Err(_) => parsed_document(text@) is None,
        },
{
    toml::from_str::<toml::Table>(text)
}

/// `toml::de::Error::message`: what the parser says went wrong. Nothing is
/// claimed of the text.
pub assume_specification<'a>[ toml::de::Error::message ](error: &'a toml::de::Error) -> (message:
    &'a str);

/// `toml::to_string` on a table whose values are all strings: it succeeds,
/// with the document's text, which depends on the entries alone. Keys and
/// values are then written as strings into a `String`; the printer's errors
/// are for values of other types and for writes that fail, and a write into a
/// `String` does not.
#[verifier::external_body]
pub(crate) fn print_document(table: &toml::Table) -> (printed: Result<String, toml::ser::Error>)
    requires
        all_text(table_entries(*table)),
    ensures
        printed is Ok,
        printed matches Ok(text) ==> text@ == printed_document(table_entries(*table)),
{
    toml::to_string(table)
}

} // verus!
