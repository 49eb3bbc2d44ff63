//! Glyph sources: the shape a glyph definition has once it is parsed, and the
//! rules by which such a definition becomes a table of glyphs.

use crate::character_maps::{glyph_rows, CharacterMap, Glyph, Glyphs};
use vstd::prelude::*;
use vstd::string::*;

verus! {

/// Why a glyph source was turned down.
#[derive(Debug, Clone, Copy, PartialEq, Eq, Structural)]
pub enum LoadError {
    /// The source is no object, the value of a key is no array, or an array
    /// has more than five elements.
    MalformedSource,
    /// A key is the empty string.
    InvalidKey,
    /// An element of an array is no string.
    InvalidRowValue,
}

/// One element of the array under a key.
#[derive(Debug, Clone, PartialEq, Eq)]
pub enum RowValue {
    /// A string: the text of a row.
    Text(String),
    /// A value of any other kind.
    Other,
}

/// The value under a key.
#[derive(Debug, Clone, PartialEq, Eq)]
pub enum EntryValue {
    /// An array, with its elements in order.
    Rows(Vec<RowValue>),
    /// A value of any other kind.
    Other,
}

/// A key of the source with its value.
#[derive(Debug, Clone, PartialEq, Eq)]
pub struct SourceEntry {
    /// The key; its first character is the one that the entry defines.
    pub key: String,
    /// What stands under the key.
    pub value: EntryValue,
}

/// A parsed glyph definition.
#[derive(Debug, Clone, PartialEq, Eq)]
pub enum GlyphSource {
    /// An object, with its entries in order.
    Table(Vec<SourceEntry>),
    /// A value of any other kind.
    Other,
}

/// The mathematical form of a [`RowValue`].
pub enum RowValueView {
    Text(Seq<char>),
    Other,
}

/// The mathematical form of an [`EntryValue`].
pub enum EntryValueView {
    Rows(Seq<RowValueView>),
    Other,
}

/// The mathematical form of a [`SourceEntry`].
pub struct SourceEntryView {
    pub key: Seq<char>,
    pub value: EntryValueView,
}

/// The mathematical form of a [`GlyphSource`].
pub enum GlyphSourceView {
    Table(Seq<SourceEntryView>),
    Other,
}

/// The mathematical form of the elements of an array.
pub open spec fn rows_view(rows: Seq<RowValue>) -> Seq<RowValueView> {
    Seq::new(rows.len(), |i: int| rows[i]@)
}

/// The mathematical form of the entries of an object.
pub open spec fn entries_view(entries: Seq<SourceEntry>) -> Seq<SourceEntryView> {
    Seq::new(entries.len(), |i: int| entries[i]@)
}

impl View for RowValue {
    type V = RowValueView;

    open spec fn view(&self) -> RowValueView {
        match self {
            RowValue::Text(text) => RowValueView::Text(text@),
            RowValue::Other => RowValueView::Other,
        }
    }
}

impl View for EntryValue {
    type V = EntryValueView;

    open spec fn view(&self) -> EntryValueView {
        match self {
            EntryValue::Rows(rows) => EntryValueView::Rows(rows_view(rows@)),
            EntryValue::Other => EntryValueView::Other,
        }
    }
}

impl View for SourceEntry {
    type V = SourceEntryView;

    open spec fn view(&self) -> SourceEntryView {
        SourceEntryView { key: self.key@, value: self.value@ }
    }
}

impl View for GlyphSource {
    type V = GlyphSourceView;

    open spec fn view(&self) -> GlyphSourceView {
        match self {
            GlyphSource::Table(entries) => GlyphSourceView::Table(entries_view(entries@)),
            GlyphSource::Other => GlyphSourceView::Other,
        }
    }
}

/// The row that stands in for a row the source leaves out: five spaces.
pub open spec fn blank_row() -> Seq<char> {
    seq![' ', ' ', ' ', ' ', ' ']
}

/// Whether every element of `rows` is a string.
pub open spec fn all_text(rows: Seq<RowValueView>) -> bool {
    forall|i: int| 0 <= i < rows.len() ==> #[trigger] rows[i] is Text
}

/// Row `row` of the glyph that `rows` defines: the string at that place, or a
/// blank row behind the last element.
pub open spec fn row_text(rows: Seq<RowValueView>, row: int) -> Seq<char> {
    if row < rows.len() {
        rows[row]->Text_0
    } else {
        blank_row()
    }
}

/// The glyph that the value under a key defines. The value must be an array
/// of at most five elements, and the elements must be strings.
pub open spec fn loaded_glyph(value: EntryValueView) -> Result<Seq<Seq<char>>, LoadError> {
    match value {
        EntryValueView::Other => Err(LoadError::MalformedSource),
        EntryValueView::Rows(rows) => if rows.len() > 5 {
            Err(LoadError::MalformedSource)
        } else if !all_text(rows) {
            Err(LoadError::InvalidRowValue)
        } else {
            Ok(Seq::new(5, |row: int| row_text(rows, row)))
        },
    }
}

/// The character and glyph that an entry defines. The character is the first
/// one of the key, so the key must not be empty.
pub open spec fn loaded_entry(entry: SourceEntryView) -> Result<(char, Seq<Seq<char>>), LoadError> {
    if entry.key.len() == 0 {
        Err(LoadError::InvalidKey)
    } else {
        match loaded_glyph(entry.value) {
            Ok(glyph) => Ok((entry.key[0], glyph)),
            Err(e) => Err(e),
        }
    }
}

/// The table that `entries` define, taken in order: each entry is put into the
/// table of those before it, so the last entry of a character is the one that
/// stays. The first entry that is turned down decides the error.
pub open spec fn loaded_entries(entries: Seq<SourceEntryView>) -> Result<Glyphs, LoadError>
    decreases entries.len(),
{
    if entries.len() == 0 {
        Ok(Map::empty())
    } else {
        match loaded_entries(entries.drop_last()) {
            Err(e) => Err(e),
            Ok(glyphs) => match loaded_entry(entries.last()) {
                Err(e) => Err(e),
                Ok((c, glyph)) => Ok(glyphs.insert(c, glyph)),
            },
        }
    }
}

/// The table that a source defines, or the reason why it defines none.
pub open spec fn loaded(source: GlyphSourceView) -> Result<Glyphs, LoadError> {
    match source {
        GlyphSourceView::Other => Err(LoadError::MalformedSource),
        GlyphSourceView::Table(entries) => loaded_entries(entries),
    }
}

/// The outcome of loading, with the table taken by its glyphs.
pub open spec fn outcome_view(outcome: Result<CharacterMap, LoadError>) -> Result<
    Glyphs,
    LoadError,
> {
    match outcome {
        Ok(table) => Ok(table@),
        Err(e) => Err(e),
    }
}

/// The characters that `entries` define: the first character of every key.
pub open spec fn defined_characters(entries: Seq<SourceEntryView>) -> Set<char> {
    Set::new(
        |c: char|
            exists|i: int|
                0 <= i < entries.len() && (#[trigger] entries[i]).key.len() > 0
                    && entries[i].key[0] == c,
    )
}

/// Loading succeeds exactly where every entry is accepted. Where one is not,
/// the first such entry gives the error.
pub proof fn lemma_loaded_entries_outcome(entries: Seq<SourceEntryView>)
    ensures
        loaded_entries(entries) is Ok <==> forall|i: int|
            0 <= i < entries.len() ==> (#[trigger] loaded_entry(entries[i])) is Ok,
        forall|i: int|
            0 <= i < entries.len() && (#[trigger] loaded_entry(entries[i])) is Err && (forall|j: int|
                0 <= j < i ==> (#[trigger] loaded_entry(entries[j])) is Ok) ==> loaded_entries(
                entries,
            ) == Err::<Glyphs, LoadError>(loaded_entry(entries[i])->Err_0),
    decreases entries.len(),
{
    if entries.len() > 0 {
        let init = entries.drop_last();
        lemma_loaded_entries_outcome(init);
        assert forall|i: int| 0 <= i < init.len() implies init[i] == entries[i] by {}
    }
}

/// A table that was loaded holds exactly the characters that the entries
/// define, so it has as many glyphs as the entries have distinct characters.
/// Every glyph has five rows, and each character has the glyph of the last
/// entry that defines it.
pub proof fn lemma_loaded_table(entries: Seq<SourceEntryView>)
    requires
        loaded_entries(entries) is Ok,
    ensures
        loaded_entries(entries)->Ok_0.dom() == defined_characters(entries),
        defined_characters(entries).finite(),
        loaded_entries(entries)->Ok_0.len() == defined_characters(entries).len(),
        forall|c: char| #[trigger]
            loaded_entries(entries)->Ok_0.contains_key(c) ==> loaded_entries(entries)->Ok_0[c].len()
                == 5,
        forall|i: int|
            0 <= i < entries.len() && (forall|j: int|
                i < j < entries.len() ==> (#[trigger] entries[j]).key[0] != entries[i].key[0])
                ==> loaded_entries(entries)->Ok_0[(#[trigger] entries[i]).key[0]] == loaded_entry(
                entries[i],
            )->Ok_0.1,
    decreases entries.len(),
{
    let table = loaded_entries(entries)->Ok_0;
    if entries.len() > 0 {
        let init = entries.drop_last();
        lemma_loaded_table(init);
        assert forall|d: char| table.dom().contains(d) == defined_characters(entries).contains(
            d,
        ) by {
            if defined_characters(init).contains(d) {
                let i = choose|i: int|
                    0 <= i < init.len() && (#[trigger] init[i]).key.len() > 0 && init[i].key[0]
                        == d;
                assert(entries[i] == init[i]);
            }
            if defined_characters(entries).contains(d) {
                let i = choose|i: int|
                    0 <= i < entries.len() && (#[trigger] entries[i]).key.len() > 0
                        && entries[i].key[0] == d;
                if i < init.len() {
                    assert(init[i] == entries[i]);
                }
            }
        }
        assert(table.dom() =~= defined_characters(entries));
        assert forall|i: int|
            0 <= i < entries.len() && (forall|j: int|
                i < j < entries.len() ==> (#[trigger] entries[j]).key[0]
                    != entries[i].key[0]) implies table[(#[trigger] entries[i]).key[0]]
            == loaded_entry(entries[i])->Ok_0.1 by {
            if i < init.len() {
                assert(init[i] == entries[i]);
                assert forall|j: int| i < j < init.len() implies (#[trigger] init[j]).key[0]
                    != init[i].key[0] by {
                    assert(init[j] == entries[j]);
                }
            }
        }
    }
}

/// The first `n + 1` entries load as the first `n` do, followed by entry `n`.
proof fn lemma_loaded_step(entries: Seq<SourceEntryView>, n: int)
    requires
        0 <= n < entries.len(),
    ensures
        loaded_entries(entries.take(n + 1)) == match loaded_entries(entries.take(n)) {
            Err(e) => Err::<Glyphs, LoadError>(e),
            Ok(glyphs) => match loaded_entry(entries[n]) {
                Err(e) => Err(e),
                Ok((c, glyph)) => Ok(glyphs.insert(c, glyph)),
            },
        },
{
    assert(entries.take(n + 1).drop_last() =~= entries.take(n));
}

/// An error among the first `n` entries is the error of them all.
proof fn lemma_error_stays(entries: Seq<SourceEntryView>, n: int)
    requires
        0 <= n <= entries.len(),
        loaded_entries(entries.take(n)) is Err,
    ensures
        loaded_entries(entries) == loaded_entries(entries.take(n)),
    decreases entries.len() - n,
{
    if n < entries.len() {
        lemma_loaded_step(entries, n);
        lemma_error_stays(entries, n + 1);
    } else {
        assert(entries.take(n) =~= entries);
    }
}

/// Whether every element of an array is a string.
fn rows_are_text(rows: &Vec<RowValue>) -> (all: bool)
    ensures
        all == all_text(rows_view(rows@)),
{
    let mut i: usize = 0;
    while i < rows.len()
        invariant
            i <= rows.len(),
            forall|j: int| 0 <= j < i ==> #[trigger] rows_view(rows@)[j] is Text,
        decreases rows.len() - i,
    {
        match &rows[i] {
            RowValue::Text(_) => {},
            RowValue::Other => {
                assert(rows_view(rows@)[i as int] is Other);
                return false;
            },
        }
        i += 1;
    }
    true
}

/// Row `row` of the glyph that an array of strings defines.
fn load_row(rows: &Vec<RowValue>, row: usize) -> (text: String)
    requires
        all_text(rows_view(rows@)),
    ensures
        text@ == row_text(rows_view(rows@), row as int),
{
    if row < rows.len() {
        if let RowValue::Text(text) = &rows[row] {
            return text.clone();
        }
    }
    proof {
        reveal_strlit("     ");
    }
    "     ".to_owned()
}

/// The glyph that the value under a key defines.
fn load_glyph(value: &EntryValue) -> (glyph: Result<Glyph, LoadError>)
    ensures
        match glyph {
            Ok(g) => loaded_glyph(value@) == Ok::<Seq<Seq<char>>, LoadError>(glyph_rows(g)),
            Err(e) => loaded_glyph(value@) == Err::<Seq<Seq<char>>, LoadError>(e),
        },
{
    match value {
        EntryValue::Other => Err(LoadError::MalformedSource),
        EntryValue::Rows(rows) => {
            if rows.len() > 5 {
                Err(LoadError::MalformedSource)
            } else if !rows_are_text(rows) {
                Err(LoadError::InvalidRowValue)
            } else {
                let glyph = [
                    load_row(rows, 0),
                    load_row(rows, 1),
                    load_row(rows, 2),
                    load_row(rows, 3),
                    load_row(rows, 4),
                ];
                assert(glyph_rows(glyph) =~= Seq::new(
                    5,
                    |row: int| row_text(rows_view(rows@), row),
                ));
                Ok(glyph)
            }
        },
    }
}

/// The character and glyph that an entry defines.
fn load_entry(entry: &SourceEntry) -> (loaded: Result<(char, Glyph), LoadError>)
    ensures
        match loaded {
            Ok((c, g)) => loaded_entry(entry@) == Ok::<(char, Seq<Seq<char>>), LoadError>(
                (c, glyph_rows(g)),
            ),
            Err(e) => loaded_entry(entry@) == Err::<(char, Seq<Seq<char>>), LoadError>(e),
        },
{
    let key = entry.key.as_str();
    if key.is_empty() {
        return Err(LoadError::InvalidKey);
    }
    let c = key.get_char(0);
    match load_glyph(&entry.value) {
        Ok(g) => Ok((c, g)),
        Err(e) => Err(e),
    }
}

/// The table that the entries of an object define.
fn load_entries(entries: &Vec<SourceEntry>) -> (outcome: Result<CharacterMap, LoadError>)
    ensures
        outcome_view(outcome) == loaded_entries(entries_view(entries@)),
{
    let ghost model = entries_view(entries@);
    let mut table = CharacterMap::new();
    let mut i: usize = 0;
    while i < entries.len()
        invariant
            i <= entries.len(),
            model == entries_view(entries@),
            loaded_entries(model.take(i as int)) == Ok::<Glyphs, LoadError>(table@),
        decreases entries.len() - i,
    {
        proof {
            lemma_loaded_step(model, i as int);
        }
        match load_entry(&entries[i]) {
            Ok((c, glyph)) => {
                table.insert(c, glyph);
            },
            Err(e) => {
                proof {
                    lemma_error_stays(model, i + 1);
                }
                return Err(e);
            },
        }
        i += 1;
    }
    assert(model.take(i as int) =~= model);
    Ok(table)
}

/// Builds the table that a source defines. Every key gives one glyph, under
/// its first character; rows that the source leaves out are blank; of two
/// entries for one character the later one stays.
///
/// Fails with [`LoadError::MalformedSource`] where the source is no object,
/// a value is no array or an array has more than five elements, with
/// [`LoadError::InvalidKey`] where a key is empty, and with
/// [`LoadError::InvalidRowValue`] where an element of an array is no string.
pub fn load_table(source: &GlyphSource) -> (outcome: Result<CharacterMap, LoadError>)
    ensures
        outcome_view(outcome) == loaded(source@),
{
    match source {
        GlyphSource::Other => Err(LoadError::MalformedSource),
        GlyphSource::Table(entries) => load_entries(entries),
    }
}

} // verus!
