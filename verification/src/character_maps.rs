//! Glyph tables: the mapping from a character to its five-row pattern.

use crate::builtin::{DIGITS, LETTERS, PUNCTUATION, WHITESPACE};
use crate::glyph_source::{load_table, loaded, outcome_view, LoadError};
use crate::json::{parse_source, parsed_source};
use std::collections::HashMap;
use vstd::prelude::*;
use vstd::std_specs::iter::IteratorSpec;

verus! {

/// The five rows of one character, top to bottom.
pub type Glyph = [String; 5];

/// The glyphs of a table: for each character that has one, the text of its
/// five rows.
pub type Glyphs = Map<char, Seq<Seq<char>>>;

/// The text of the rows of a glyph.
pub open spec fn glyph_rows(glyph: Glyph) -> Seq<Seq<char>> {
    Seq::new(5, |r: int| glyph@[r]@)
}

/// The code point of a character: the key under which a table keeps its glyph.
spec fn code_point(c: char) -> u32 {
    c as u32
}

/// Whether `code` is the code point of a character.
pub open spec fn is_scalar(code: u32) -> bool {
    code <= 0xD7FF || 0xE000 <= code <= 0x10FFFF
}

/// Two characters with one code point are the same character, every code
/// point of a character is a scalar value, and every scalar value is the code
/// point of the character it converts to.
proof fn lemma_code_points()
    ensures
        forall|a: char, b: char| #[trigger] code_point(a) == #[trigger] code_point(b) ==> a == b,
        forall|a: char| is_scalar(#[trigger] code_point(a)),
        forall|code: u32| is_scalar(code) ==> #[trigger] code_point(code as char) == code,
        forall|a: char| (#[trigger] code_point(a)) as char == a,
{
    assert forall|a: char| (#[trigger] code_point(a)) as char == a by {
        vstd::utf8::char_u32_cast(a, a as u32);
    }
}

/// `char::from_u32` gives the character with the code point `i`, and `None`
/// where `i` is a surrogate or lies above `0x10FFFF`.
pub assume_specification[ char::from_u32 ](i: u32) -> (c: Option<char>)
    ensures
        c == if is_scalar(i) { Some(i as char) } else { None::<char> },
;

/// A copy of a glyph, row by row.
fn clone_glyph(glyph: &Glyph) -> (copy: Glyph)
    ensures
        copy == *glyph,
{
    let copy = [
        glyph[0].clone(),
        glyph[1].clone(),
        glyph[2].clone(),
        glyph[3].clone(),
        glyph[4].clone(),
    ];
    assert(copy =~= *glyph);
    copy
}

/// Whether one of the first `n` entries of `entries` has the key `k`.
spec fn listed(entries: Seq<(&u32, &Glyph)>, n: int, k: u32) -> bool {
    exists|i: int| 0 <= i < n && *(#[trigger] entries[i]).0 == k
}

/// A table of glyphs, keyed by character.
#[derive(Debug, PartialEq, Eq)]
pub struct CharacterMap {
    /// The glyphs, each under the code point of its character.
    glyphs: HashMap<u32, Glyph>,
}

impl View for CharacterMap {
    type V = Glyphs;

    closed spec fn view(&self) -> Glyphs {
        Map::new(
            |c: char| self.glyphs@.contains_key(code_point(c)),
            |c: char| glyph_rows(self.glyphs@[code_point(c)]),
        )
    }
}

impl Clone for CharacterMap {
    fn clone(&self) -> (copy: Self)
        ensures
            copy@ == self@,
    {
        proof {
            use_type_invariant(self);
        }
        CharacterMap { glyphs: self.glyphs.clone() }
    }
}

impl CharacterMap {
    #[verifier::type_invariant]
    spec fn keys_are_characters(&self) -> bool {
        forall|code: u32| self.glyphs@.contains_key(code) ==> is_scalar(code)
    }

    /// A table without glyphs.
    pub fn new() -> (table: Self)
        ensures
            table@ == Glyphs::empty(),
    {
        CharacterMap { glyphs: HashMap::new() }
    }

    /// Puts `glyph` under `c`, in place of the glyph that `c` had, if any.
    pub fn insert(&mut self, c: char, glyph: Glyph)
        ensures
            final(self)@ == old(self)@.insert(c, glyph_rows(glyph)),
    {
        proof {
            use_type_invariant(&*self);
            lemma_code_points();
        }
        let mut glyphs = HashMap::new();
        std::mem::swap(&mut self.glyphs, &mut glyphs);
        glyphs.insert(c as u32, glyph);
        self.glyphs = glyphs;
    }

    /// The glyph of `c`, if the table has one.
    pub fn get(&self, c: char) -> (found: Option<&Glyph>)
        ensures
            match found {
                Some(glyph) => self@.contains_key(c) && glyph_rows(*glyph) == self@[c],
                None => !self@.contains_key(c),
            },
    {
        let code = c as u32;
        self.glyphs.get(&code)
    }

    /// Whether the table has a glyph for `c`.
    pub fn contains_key(&self, c: char) -> (found: bool)
        ensures
            found == self@.contains_key(c),
    {
        let code = c as u32;
        self.glyphs.contains_key(&code)
    }

    /// The number of characters that have a glyph.
    pub fn len(&self) -> (n: usize)
        ensures
            self@.dom().finite(),
            n == self@.len(),
    {
        proof {
            use_type_invariant(self);
            self.lemma_domain();
        }
        self.glyphs.len()
    }

    /// Every table has finitely many glyphs, and every glyph has five rows.
    pub proof fn lemma_well_formed(&self)
        ensures
            self@.dom().finite(),
            forall|c: char| self@.contains_key(c) ==> (#[trigger] self@[c]).len() == 5,
    {
        let codes = self.glyphs@.dom();
        let f = |code: u32| code as char;
        assert(codes.map(f).finite()) by {
            codes.lemma_map_finite(f);
        }
        assert(self@.dom().subset_of(codes.map(f))) by {
            lemma_code_points();
        }
    }

    /// The domain of the table is the set of the characters whose code points
    /// are keys, and has as many members.
    proof fn lemma_domain(&self)
        requires
            self.keys_are_characters(),
        ensures
            self@.dom().finite(),
            self@.dom().len() == self.glyphs@.dom().len(),
    {
        lemma_code_points();
        let f = |code: u32| code as char;
        let codes = self.glyphs@.dom();
        assert(vstd::relations::injective_on(f, codes)) by {
            assert forall|x: u32, y: u32|
                codes.contains(x) && codes.contains(y) && #[trigger] f(x) == #[trigger] f(
                    y,
                ) implies x == y by {
                assert(code_point(y as char) == y);
            }
        }
        assert(codes.map(f) =~= self@.dom());
        vstd::set_lib::lemma_map_size(codes, self@.dom(), f);
    }

    /// Adds every glyph of `other`; where both tables have a glyph for a
    /// character, the one of `other` stays.
    pub fn extend(&mut self, other: &CharacterMap)
        ensures
            final(self)@ == old(self)@.union_prefer_right(other@),
    {
        proof {
            use_type_invariant(&*self);
            use_type_invariant(other);
        }
        let mut glyphs = HashMap::new();
        std::mem::swap(&mut self.glyphs, &mut glyphs);
        let ghost before = glyphs@;
        for entry in it: other.glyphs.iter()
            invariant
                it.seq() == other.glyphs.iter().remaining(),
                forall|k: u32| #[trigger]
                    glyphs@.contains_key(k) <==> before.contains_key(k) || listed(
                        it.seq(),
                        it.index(),
                        k,
                    ),
                forall|k: u32| #[trigger]
                    glyphs@.contains_key(k) ==> glyphs@[k] == if listed(it.seq(), it.index(), k) {
                        other.glyphs@[k]
                    } else {
                        before[k]
                    },
        {
            let (code, glyph) = entry;
            glyphs.insert(*code, clone_glyph(glyph));
        }
        self.glyphs = glyphs;
    }

    /// The characters that have a glyph, each once, in no particular order.
    pub fn keys(&self) -> (keys: Vec<char>)
        ensures
            keys@.no_duplicates(),
            keys@.to_set() == self@.dom(),
    {
        proof {
            use_type_invariant(self);
            lemma_code_points();
        }
        let mut keys: Vec<char> = Vec::new();
        for code in it: self.glyphs.keys()
            invariant
                it.seq() == self.glyphs.keys().remaining(),
                forall|k: u32| self.glyphs@.contains_key(k) ==> is_scalar(k),
                keys@.len() == it.index(),
                forall|i: int| 0 <= i < keys@.len() ==> code_point(#[trigger] keys@[i]) == *it.seq()[i],
        {
            match char::from_u32(*code) {
                Some(c) => {
                    keys.push(c);
                },
                None => {},
            }
        }
        proof {
            let codes = self.glyphs.keys().remaining().unref();
            assert(keys@.to_set() =~= self@.dom()) by {
                assert forall|c: char| keys@.to_set().contains(c) == self@.dom().contains(c) by {
                    if keys@.to_set().contains(c) {
                        let i = choose|i: int| 0 <= i < keys@.len() && keys@[i] == c;
                        assert(codes[i] == code_point(c));
                    }
                    if self@.dom().contains(c) {
                        let i = choose|i: int| 0 <= i < codes.len() && codes[i] == code_point(c);
                        assert(keys@[i] == c);
                    }
                }
            }
        }
        keys
    }
}

/// The table that a JSON text defines, or the reason why it defines none: a
/// text that is not JSON is malformed, and any other text goes by the rules
/// for glyph sources.
pub open spec fn loaded_text(text: Seq<char>) -> Result<Glyphs, LoadError> {
    match parsed_source(text) {
        Some(source) => loaded(source),
        None => Err(LoadError::MalformedSource),
    }
}

/// The glyphs of a definition that comes with the library: what the text
/// defines. The definitions are well formed; one that were not would give no
/// glyphs.
pub open spec fn builtin_glyphs(text: Seq<char>) -> Glyphs {
    match loaded_text(text) {
        Ok(glyphs) => glyphs,
        Err(_) => Map::empty(),
    }
}

/// The glyphs of [`ascii_letters`].
pub open spec fn letter_glyphs() -> Glyphs {
    builtin_glyphs(LETTERS@)
}

/// The glyphs of [`digits`].
pub open spec fn digit_glyphs() -> Glyphs {
    builtin_glyphs(DIGITS@)
}

/// The glyphs of [`punctuation`].
pub open spec fn punctuation_glyphs() -> Glyphs {
    builtin_glyphs(PUNCTUATION@)
}

/// The glyphs of [`whitespace`].
pub open spec fn whitespace_glyphs() -> Glyphs {
    builtin_glyphs(WHITESPACE@)
}

/// The glyphs of four tables put together: where two of them have a glyph for
/// one character, the glyph of the later table stays.
pub open spec fn combined(first: Glyphs, second: Glyphs, third: Glyphs, fourth: Glyphs) -> Glyphs {
    first.union_prefer_right(second).union_prefer_right(third).union_prefer_right(fourth)
}

/// The glyphs of [`printables`]: those of the letters, the digits, the
/// punctuation marks and the space, put together in this order.
pub open spec fn printable_glyphs() -> Glyphs {
    combined(letter_glyphs(), digit_glyphs(), punctuation_glyphs(), whitespace_glyphs())
}

/// Whether no two of four tables have a glyph for one character.
pub open spec fn share_no_character(
    first: Glyphs,
    second: Glyphs,
    third: Glyphs,
    fourth: Glyphs,
) -> bool {
    &&& first.dom().disjoint(second.dom())
    &&& first.dom().disjoint(third.dom())
    &&& first.dom().disjoint(fourth.dom())
    &&& second.dom().disjoint(third.dom())
    &&& second.dom().disjoint(fourth.dom())
    &&& third.dom().disjoint(fourth.dom())
}

/// Four tables put together have a glyph for exactly the characters that one
/// of the four has a glyph for, and the glyph is that of the last table that
/// has one.
pub proof fn lemma_combined(first: Glyphs, second: Glyphs, third: Glyphs, fourth: Glyphs, c: char)
    ensures
        combined(first, second, third, fourth).contains_key(c) <==> first.contains_key(c)
            || second.contains_key(c) || third.contains_key(c) || fourth.contains_key(c),
        combined(first, second, third, fourth).contains_key(c) ==> combined(
            first,
            second,
            third,
            fourth,
        )[c] == if fourth.contains_key(c) {
            fourth[c]
        } else if third.contains_key(c) {
            third[c]
        } else if second.contains_key(c) {
            second[c]
        } else {
            first[c]
        },
{
}

/// Where no two of four tables share a character, the four put together
/// have every glyph of each of them, unchanged.
pub proof fn lemma_combined_holds_each(
    first: Glyphs,
    second: Glyphs,
    third: Glyphs,
    fourth: Glyphs,
)
    requires
        share_no_character(first, second, third, fourth),
    ensures
        first.submap_of(combined(first, second, third, fourth)),
        second.submap_of(combined(first, second, third, fourth)),
        third.submap_of(combined(first, second, third, fourth)),
        fourth.submap_of(combined(first, second, third, fourth)),
{
}

/// Every character that has a glyph in the table of the letters, the digits,
/// the punctuation marks or the space has one in [`printables`], and no other
/// character has. Where no two of the four tables share a character, the
/// glyph in [`printables`] is the one of the table it came from.
pub proof fn lemma_printables()
    ensures
        printable_glyphs().dom() == letter_glyphs().dom() + digit_glyphs().dom()
            + punctuation_glyphs().dom() + whitespace_glyphs().dom(),
        share_no_character(
            letter_glyphs(),
            digit_glyphs(),
            punctuation_glyphs(),
            whitespace_glyphs(),
        ) ==> letter_glyphs().submap_of(printable_glyphs()) && digit_glyphs().submap_of(
            printable_glyphs(),
        ) && punctuation_glyphs().submap_of(printable_glyphs()) && whitespace_glyphs().submap_of(
            printable_glyphs(),
        ),
{
}

/// Loads a table from JSON text: an object that gives, under each key, an
/// array of up to five strings, the rows of the glyph of the key's first
/// character.
///
/// Fails with [`LoadError::MalformedSource`] where the text is not JSON, is
/// no object, or gives a key something other than an array of at most five
/// elements; with [`LoadError::InvalidKey`] where a key is empty; with
/// [`LoadError::InvalidRowValue`] where an element of an array is no string.
pub fn from_json(map_data: &str) -> (outcome: Result<CharacterMap, LoadError>)
    ensures
        outcome_view(outcome) == loaded_text(map_data@),
{
    match parse_source(map_data) {
        Some(source) => load_table(&source),
        None => Err(LoadError::MalformedSource),
    }
}

/// Loads a definition that comes with the library.
fn builtin_table(text: &str) -> (table: CharacterMap)
    ensures
        table@ == builtin_glyphs(text@),
{
    match from_json(text) {
        Ok(table) => table,
        Err(_) => CharacterMap::new(),
    }
}

/// The table of the capital letters `A` to `Z`.
pub fn ascii_letters() -> (table: CharacterMap)
    ensures
        table@ == letter_glyphs(),
{
    builtin_table(LETTERS)
}

/// The table of the digits `0` to `9`.
pub fn digits() -> (table: CharacterMap)
    ensures
        table@ == digit_glyphs(),
{
    builtin_table(DIGITS)
}

/// The table of the punctuation marks
/// `! @ # $ % ^ & * ( ) [ ] ; " \ , . ?`.
pub fn punctuation() -> (table: CharacterMap)
    ensures
        table@ == punctuation_glyphs(),
{
    builtin_table(PUNCTUATION)
}

/// The table of the space.
pub fn whitespace() -> (table: CharacterMap)
    ensures
        table@ == whitespace_glyphs(),
{
    builtin_table(WHITESPACE)
}

/// The table of every character that [`ascii_letters`], [`digits`],
/// [`punctuation`] and [`whitespace`] have a glyph for. The four are put
/// together in this order, a later one first where two share a character.
pub fn printables() -> (table: CharacterMap)
    ensures
        table@ == printable_glyphs(),
{
    let mut table = CharacterMap::new();
    table.extend(&ascii_letters());
    table.extend(&digits());
    table.extend(&punctuation());
    table.extend(&whitespace());
    table
}

} // verus!
