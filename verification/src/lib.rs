//! Block-letter rendering of text: every character is drawn as a glyph of
//! five rows, looked up in a table of glyphs.

pub mod builtin;
pub mod character_maps;
pub mod glyph_source;
pub mod json;
pub mod render;

use crate::character_maps::{printable_glyphs, printables, CharacterMap, Glyphs};
use crate::render::{lemma_line_push, line, rendering};
use vstd::prelude::*;
use vstd::string::*;

verus! {

/// `String::push` appends one character to a string.
pub assume_specification[ String::push ](s: &mut String, c: char)
    ensures
        final(s)@ == old(s)@.push(c),
;

/// Whether `characters` lists the characters that have a glyph, each once.
pub open spec fn lists_glyphs(characters: Seq<char>, glyphs: Glyphs) -> bool {
    characters.no_duplicates() && characters.to_set() == glyphs.dom()
}

/// The first `n` lines of a rendering, each followed by a newline.
spec fn leading_lines(glyphs: Glyphs, text: Seq<char>, n: int) -> Seq<char>
    decreases n,
{
    if n <= 0 {
        Seq::empty()
    } else {
        leading_lines(glyphs, text, n - 1) + line(glyphs, text, n - 1).push('\n')
    }
}

/// A rendering is its five leading lines.
proof fn lemma_leading_lines(glyphs: Glyphs, text: Seq<char>)
    ensures
        leading_lines(glyphs, text, 5) == rendering(glyphs, text),
{
    reveal_with_fuel(leading_lines, 6);
}

/// A text to draw in block letters, with the table of glyphs to draw it with.
pub struct BigText {
    /// The text to draw.
    text: String,
    /// The characters that have a glyph in the table.
    supported_characters: String,
    /// The table that gives each character its glyph.
    character_map: CharacterMap,
}

/// What a [`BigText`] holds.
pub struct BigTextView {
    /// The text to draw.
    pub text: Seq<char>,
    /// The characters that have a glyph, in the order in which they are
    /// listed.
    pub supported_characters: Seq<char>,
    /// The glyphs of the table.
    pub glyphs: Glyphs,
}

impl View for BigText {
    type V = BigTextView;

    closed spec fn view(&self) -> BigTextView {
        BigTextView {
            text: self.text@,
            supported_characters: self.supported_characters@,
            glyphs: self.character_map@,
        }
    }
}

impl BigText {
    #[verifier::type_invariant]
    spec fn lists_its_glyphs(&self) -> bool {
        lists_glyphs(self.supported_characters@, self.character_map@)
    }

    /// A `BigText` that draws `text` with the glyphs of `character_map`, or
    /// with those of [`printables`] where no table is given.
    pub fn new(text: &str, character_map: Option<CharacterMap>) -> (big_text: Self)
        ensures
            big_text@.text == text@,
            big_text@.glyphs == match character_map {
                Some(table) => table@,
                None => printable_glyphs(),
            },
            lists_glyphs(big_text@.supported_characters, big_text@.glyphs),
    {
        let text = text.to_owned();
        let character_map = match character_map {
            None => printables(),
            Some(map) => map,
        };
        let supported_characters = Self::get_supported_characters(&character_map);
        BigText { text, supported_characters, character_map }
    }

    /// The text to draw.
    pub fn text(&self) -> (text: &str)
        ensures
            text@ == self@.text,
    {
        self.text.as_str()
    }

    /// The characters that the table has a glyph for, each once, in no
    /// particular order.
    pub fn supported_characters(&self) -> (characters: &str)
        ensures
            characters@ == self@.supported_characters,
            lists_glyphs(characters@, self@.glyphs),
    {
        proof {
            use_type_invariant(self);
        }
        self.supported_characters.as_str()
    }

    /// Replaces the text to draw; the table and the characters it lists
    /// stay. Gives back `self`, so that calls can be chained.
    pub fn set_text(&mut self, text: &str) -> (this: &mut Self)
        ensures
            this@.text == text@,
            this@ == (BigTextView { text: text@, ..old(self)@ }),
            *final(self) == *final(this),
    {
        proof {
            use_type_invariant(&*self);
        }
        self.text = text.to_owned();
        self
    }

    /// The characters that `map` has a glyph for, each once, in no particular
    /// order.
    pub fn get_supported_characters(map: &CharacterMap) -> (characters: String)
        ensures
            lists_glyphs(characters@, map@),
    {
        let keys = map.keys();
        let mut characters = String::new();
        let mut i: usize = 0;
        while i < keys.len()
            invariant
                i <= keys.len(),
                characters@ == keys@.take(i as int),
            decreases keys.len() - i,
        {
            characters.push(keys[i]);
            i += 1;
        }
        assert(keys@.take(i as int) =~= keys@);
        characters
    }

    /// Replaces the table; the text stays. The supported characters are
    /// those of the new table.
    pub fn set_character_map(&mut self, character_map: CharacterMap)
        ensures
            final(self)@.text == old(self)@.text,
            final(self)@.glyphs == character_map@,
            lists_glyphs(final(self)@.supported_characters, final(self)@.glyphs),
    {
        proof {
            use_type_invariant(&*self);
        }
        let supported_characters = Self::get_supported_characters(&character_map);
        let mut text = String::new();
        std::mem::swap(&mut self.text, &mut text);
        *self = BigText { text, supported_characters, character_map };
    }

    /// The table that gives each character its glyph.
    pub fn character_map(&self) -> (table: &CharacterMap)
        ensures
            table@ == self@.glyphs,
    {
        &self.character_map
    }

    /// Appends line `row` of the rendering, with its newline, to `out`.
    fn render_line(&self, out: &mut String, row: usize)
        requires
            row < 5,
        ensures
            final(out)@ == old(out)@ + line(self@.glyphs, self@.text, row as int).push('\n'),
    {
        let ghost glyphs = self@.glyphs;
        let ghost text = self@.text;
        let ghost start = out@;
        for c in it: self.text.as_str().chars()
            invariant
                row < 5,
                glyphs == self@.glyphs,
                text == self@.text,
                it.seq() == text,
                out@ == start + line(glyphs, text.take(it.index()), row as int),
        {
            proof {
                lemma_line_push(glyphs, text.take(it.index()), c, row as int);
                assert(text.take(it.index() + 1) =~= text.take(it.index()).push(c));
            }
            match self.character_map.get(c) {
                Some(glyph) => {
                    out.append(glyph[row].as_str());
                    out.push(' ');
                },
                None => {
                    proof {
                        reveal_strlit("      ");
                    }
                    out.append("      ");
                },
            }
        }
        assert(text.take(text.len() as int) =~= text);
        out.push('\n');
    }

    /// The text in block letters: five lines, each ended by a newline. Line
    /// `r` holds, for every character of the text in order, row `r` of its
    /// glyph followed by one space, or six spaces where the table has no
    /// glyph for the character.
    pub fn render(&self) -> (out: String)
        ensures
            out@ == rendering(self@.glyphs, self@.text),
    {
        let mut out = String::new();
        for row in 0..5usize
            invariant
                out@ == leading_lines(self@.glyphs, self@.text, row as int),
        {
            self.render_line(&mut out, row);
        }
        proof {
            lemma_leading_lines(self@.glyphs, self@.text);
        }
        out
    }
}

} // verus!
