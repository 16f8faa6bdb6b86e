//! TOML tables, as far as credentials are read from and written to them.
//!
//! Parsing and rendering are the TOML library's work. This module declares its
//! table type and states what the calls made here do; none of these statements
//! is proved here.

use crate::nesting::{nesting_peak, MAX_NESTING};
use toml::value::{Table, Value};
use vstd::prelude::*;
use vstd::string::StringSliceAdditionalSpecFns;
use vstd::utf8::encode_utf8;

verus! {

/// `toml::map::Map`, opaque to the verifier.
#[verifier::external_type_specification]
#[verifier::external_body]
#[verifier::reject_recursive_types(K)]
#[verifier::reject_recursive_types(V)]
pub struct ExTable<K, V>(toml::map::Map<K, V>);

/// `toml::Value`, opaque to the verifier.
#[verifier::external_type_specification]
#[verifier::external_body]
pub struct ExValue(Value);

/// The entries of a table as a mathematical map: each key with the text of
/// its value where the value is a string, and with `None` where it is of
/// another kind.
pub type Entries = Map<Seq<char>, Option<Seq<char>>>;

/// The entries that a table holds.
pub uninterp spec fn table_entries(table: Table) -> Map<Seq<char>, Option<Seq<char>>>;

/// The entries of the table that a text denotes, or `None` for a text that is
/// no TOML document.
pub uninterp spec fn toml_document(text: Seq<char>) -> Option<Map<Seq<char>, Option<Seq<char>>>>;

/// The TOML text of a table whose values are all strings.
pub uninterp spec fn toml_text(entries: Map<Seq<char>, Option<Seq<char>>>) -> Seq<char>;

/// Whether `entries` holds a string under `key`.
pub open spec fn has_text(entries: Entries, key: Seq<char>) -> bool {
    entries.contains_key(key) && entries[key] is Some
}

/// Whether every value in `entries` is a string.
pub open spec fn all_text(entries: Entries) -> bool {
    forall|key: Seq<char>| entries.contains_key(key) ==> (#[trigger] entries[key]) is Some
}

/// A character that a key can hold without being quoted.
pub open spec fn is_bare_char(c: char) -> bool {
    ('a' <= c && c <= 'z') || ('A' <= c && c <= 'Z') || ('0' <= c && c <= '9') || c == '-' || c
        == '_'
}

/// Whether every key in `entries` is one that is written without quotes:
/// not empty, and made of letters, digits, hyphens and underscores.
pub open spec fn bare_keys(entries: Entries) -> bool {
    forall|key: Seq<char>| #[trigger]
        entries.contains_key(key) ==> key.len() > 0 && forall|i: int|
            0 <= i < key.len() ==> is_bare_char(#[trigger] key[i])
}

/// `toml::from_str`, asked for a value: it succeeds on the texts that are
/// TOML documents, a key given twice being an error, and the table it
/// returns depends on the text alone.
///
/// The parser calls itself once for each level of arrays, inline tables and
/// dotted keys, and sets no limit to that: a text nested some hundreds of
/// levels deep exhausts the stack. No value in a text lies deeper than the
/// greatest weight of a table header plus that of a line, so a text whose
/// peak is within `MAX_NESTING` stays far below that depth.
#[verifier::external_body]
pub(crate) fn parse_table(text: &str) -> (parsed: Option<Table>)
    requires
        nesting_peak(text.spec_bytes()) <= MAX_NESTING,
    ensures
        match parsed {
            Some(table) => toml_document(text@) == Some(table_entries(table)),
            None => toml_document(text@) is None,
        },
{
    match toml::from_str::<Value>(text) {
        Ok(Value::Table(table)) => Some(table),
        _ => None,
    }
}

/// `Map::get`, for a string value: the text under `key`, or `None` where the
/// table has no such key or holds a value of another kind under it.
#[verifier::external_body]
pub(crate) fn text_at(table: &Table, key: &str) -> (text: Option<String>)
    ensures
        match text {
            Some(found) => table_entries(*table).contains_key(key@) && table_entries(*table)[key@]
                == Some(found@),
            None => !has_text(table_entries(*table), key@),
        },
{
    match table.get(key) {
        Some(Value::String(found)) => Some(found.clone()),
        _ => None,
    }
}

/// `Map::new`: the table it returns has no entry.
#[verifier::external_body]
pub(crate) fn empty_table() -> (table: Table)
    ensures
        table_entries(table) == Entries::empty(),
{
    Table::new()
}

/// `Map::insert`, of a string value: the table then holds `value` under
/// `key`, in place of what stood there, and its other entries as before.
#[verifier::external_body]
pub(crate) fn set_text(table: &mut Table, key: &str, value: &str)
    ensures
        table_entries(*final(table)) == table_entries(*old(table)).insert(key@, Some(value@)),
{
    table.insert(key.to_owned(), Value::String(value.to_owned()));
}

/// `toml::to_string`, on a table of strings: it always returns a text (every
/// key can be written, quoted where it must be, and so can every string),
/// and the text depends on the keys and their strings alone: the table keeps
/// its keys sorted, so the order in which they were set leaves no trace.
/// (That is so as long as the TOML library is built without its
/// `preserve_order` feature, as it is for this crate.)
///
/// The text is one line for each entry: the key, ` = `, and the string
/// between double quotes, in which every double quote, backslash and control
/// character is written as an escape. So no bracket, brace or period stands
/// outside a string, and the peak of the text is 0. Where the keys need no
/// quotes, `toml::from_str` reads each line back as the key and the string
/// they were written from: the text denotes the table again.
#[verifier::external_body]
pub(crate) fn render_table(table: &Table) -> (rendered: Option<String>)
    requires
        all_text(table_entries(*table)),
    ensures
        rendered is Some,
        rendered->0@ == toml_text(table_entries(*table)),
        nesting_peak(encode_utf8(rendered->0@)) == 0,
        bare_keys(table_entries(*table)) ==> toml_document(rendered->0@) == Some(
            table_entries(*table),
        ),
{
    toml::to_string(table).ok()
}

} // verus!
