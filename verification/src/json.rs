//! Reading a glyph source from JSON text. Parsing is the work of
//! `serde_json`; what this module adds is the walk through the parsed value
//! that keeps the parts a glyph source is made of.

use crate::glyph_source::{
    entries_view, rows_view, EntryValue, EntryValueView, GlyphSource, GlyphSourceView, RowValue,
    RowValueView, SourceEntry, SourceEntryView,
};
use vstd::prelude::*;

verus! {

/// A parsed JSON value, as `serde_json` holds it.
#[verifier::external_type_specification]
#[verifier::external_body]
pub struct ExJsonValue(serde_json::Value);

/// The error of the JSON parser.
#[verifier::external_type_specification]
#[verifier::external_body]
pub struct ExJsonError(serde_json::Error);

/// A JSON value, as far as a glyph source depends on it.
pub enum JsonTree {
    /// A string, with its characters.
    Text(Seq<char>),
    /// An array, with its elements in order.
    Array(Seq<JsonTree>),
    /// An object, with its keys and their values.
    Object(Seq<(Seq<char>, JsonTree)>),
    /// Null, a boolean or a number.
    Other,
}

/// The value that `serde_json::from_str` parses `text` to, or `None` where it
/// reports an error.
pub uninterp spec fn parsed_tree(text: Seq<char>) -> Option<JsonTree>;

/// What a `serde_json::Value` holds. The members of an object stand in the
/// order in which `serde_json` walks them.
pub uninterp spec fn json_tree(value: serde_json::Value) -> JsonTree;

/// `serde_json::from_str`, asked for a `serde_json::Value`: the parsed value,
/// which depends on the text alone, or the error of the parser.
#[verifier::external_body]
fn parse_json(text: &str) -> (parsed: Result<serde_json::Value, serde_json::Error>)
    ensures
        match parsed {
            Ok(value) => parsed_tree(text@) == Some(json_tree(value)),
            Err(_) => parsed_tree(text@) is None,
        },
{
    serde_json::from_str::<serde_json::Value>(text)
}

/// `serde_json::Value::as_object`, with the entries of the map handed out in
/// the order of `serde_json::Map::iter`: `None` unless the value is an object.
#[verifier::external_body]
fn object_members<'a>(value: &'a serde_json::Value) -> (members: Option<
    Vec<(&'a String, &'a serde_json::Value)>,
>)
    ensures
        match members {
            Some(list) => json_tree(*value) == JsonTree::Object(
                Seq::new(list@.len(), |i: int| (list@[i].0@, json_tree(*list@[i].1))),
            ),
            None => !(json_tree(*value) is Object),
        },
{
    match value.as_object() {
        Some(map) => Some(map.iter().collect()),
        None => None,
    }
}

/// `serde_json::Value::as_array` gives the elements of an array, and `None`
/// for a value that is no array.
pub assume_specification[ serde_json::Value::as_array ](value: &serde_json::Value) -> (items:
    Option<&Vec<serde_json::Value>>)
    ensures
        match items {
            Some(list) => json_tree(*value) == JsonTree::Array(
                Seq::new(list@.len(), |i: int| json_tree(list@[i])),
            ),
            None => !(json_tree(*value) is Array),
        },
;

/// `serde_json::Value::as_str` gives the text of a string, and `None` for a
/// value that is no string.
pub assume_specification[ serde_json::Value::as_str ](value: &serde_json::Value) -> (text: Option<
    &str,
>)
    ensures
        match text {
            Some(t) => json_tree(*value) == JsonTree::Text(t@),
            None => !(json_tree(*value) is Text),
        },
;

/// What an element of an array stands for in a glyph source.
pub open spec fn row_of(tree: JsonTree) -> RowValueView {
    match tree {
        JsonTree::Text(text) => RowValueView::Text(text),
        _ => RowValueView::Other,
    }
}

/// What the value under a key stands for in a glyph source.
pub open spec fn entry_value_of(tree: JsonTree) -> EntryValueView {
    match tree {
        JsonTree::Array(items) => EntryValueView::Rows(
            Seq::new(items.len(), |i: int| row_of(items[i])),
        ),
        _ => EntryValueView::Other,
    }
}

/// The glyph source that a JSON value stands for.
pub open spec fn source_of(tree: JsonTree) -> GlyphSourceView {
    match tree {
        JsonTree::Object(members) => GlyphSourceView::Table(
            Seq::new(
                members.len(),
                |i: int|
                    SourceEntryView { key: members[i].0, value: entry_value_of(members[i].1) },
            ),
        ),
        _ => GlyphSourceView::Other,
    }
}

/// The glyph source that a text stands for, or `None` where the text is not
/// JSON.
pub open spec fn parsed_source(text: Seq<char>) -> Option<GlyphSourceView> {
    match parsed_tree(text) {
        Some(tree) => Some(source_of(tree)),
        None => None,
    }
}

/// Reads one element of an array.
fn read_row(value: &serde_json::Value) -> (row: RowValue)
    ensures
        row@ == row_of(json_tree(*value)),
{
    match value.as_str() {
        Some(text) => RowValue::Text(text.to_owned()),
        None => RowValue::Other,
    }
}

/// Reads the value under a key.
fn read_entry_value(value: &serde_json::Value) -> (read: EntryValue)
    ensures
        read@ == entry_value_of(json_tree(*value)),
{
    match value.as_array() {
        None => EntryValue::Other,
        Some(items) => {
            let ghost trees = json_tree(*value)->Array_0;
            let mut rows: Vec<RowValue> = Vec::new();
            let mut i: usize = 0;
            while i < items.len()
                invariant
                    i <= items.len(),
                    rows@.len() == i,
                    trees.len() == items@.len(),
                    forall|j: int| 0 <= j < items@.len() ==> trees[j] == json_tree(items@[j]),
                    forall|j: int| 0 <= j < i ==> (#[trigger] rows@[j])@ == row_of(trees[j]),
                decreases items.len() - i,
            {
                rows.push(read_row(&items[i]));
                i += 1;
            }
            assert(rows_view(rows@) =~= Seq::new(trees.len(), |i: int| row_of(trees[i])));
            EntryValue::Rows(rows)
        },
    }
}

/// Reads a parsed value as a glyph source.
fn read_source(value: &serde_json::Value) -> (source: GlyphSource)
    ensures
        source@ == source_of(json_tree(*value)),
{
    match object_members(value) {
        None => GlyphSource::Other,
        Some(members) => {
            let ghost trees = json_tree(*value)->Object_0;
            let mut entries: Vec<SourceEntry> = Vec::new();
            let mut i: usize = 0;
            while i < members.len()
                invariant
                    i <= members.len(),
                    entries@.len() == i,
                    trees.len() == members@.len(),
                    forall|j: int|
                        0 <= j < members@.len() ==> (#[trigger] trees[j]) == (
                            members@[j].0@,
                            json_tree(*members@[j].1),
                        ),
                    forall|j: int|
                        0 <= j < i ==> (#[trigger] entries@[j])@ == (SourceEntryView {
                            key: trees[j].0,
                            value: entry_value_of(trees[j].1),
                        }),
                decreases members.len() - i,
            {
                let (key, member) = members[i];
                entries.push(SourceEntry { key: key.clone(), value: read_entry_value(member) });
                i += 1;
            }
            assert(entries_view(entries@) =~= Seq::new(
                trees.len(),
                |i: int| SourceEntryView { key: trees[i].0, value: entry_value_of(trees[i].1) },
            ));
            GlyphSource::Table(entries)
        },
    }
}

/// Parses a text as JSON and reads the value as a glyph source. `None` where
/// the text is not JSON.
pub fn parse_source(text: &str) -> (source: Option<GlyphSource>)
    ensures
        match source {
            Some(s) => parsed_source(text@) == Some(s@),
            None => parsed_source(text@) is None,
        },
{
    match parse_json(text) {
        Ok(value) => Some(read_source(&value)),
        Err(_) => None,
    }
}

} // verus!
