//! What a text looks like in block letters: the five lines of a rendering,
//! stated over the glyphs of a table.

use crate::character_maps::Glyphs;
use vstd::prelude::*;

verus! {

/// What a character without a glyph adds to every line: a blank row and the
/// separator, six spaces in all.
pub open spec fn blank_cell() -> Seq<char> {
    seq![' ', ' ', ' ', ' ', ' ', ' ']
}

/// What the character `c` adds to line `row`: the row of its glyph and one
/// space, or six spaces where the table has no glyph for it.
pub open spec fn cell(glyphs: Glyphs, c: char, row: int) -> Seq<char> {
    if glyphs.contains_key(c) {
        glyphs[c][row].push(' ')
    } else {
        blank_cell()
    }
}

/// Line `row` of the rendering of `text`, without its newline: the cells of
/// the characters of `text`, in their order.
pub open spec fn line(glyphs: Glyphs, text: Seq<char>, row: int) -> Seq<char> {
    text.flat_map(|c: char| cell(glyphs, c, row))
}

/// The five lines of the rendering of `text`, top to bottom, without their
/// newlines.
pub open spec fn lines(glyphs: Glyphs, text: Seq<char>) -> Seq<Seq<char>> {
    Seq::new(5, |row: int| line(glyphs, text, row))
}

/// The rendering of `text`: its five lines, each followed by a newline.
pub open spec fn rendering(glyphs: Glyphs, text: Seq<char>) -> Seq<char> {
    line(glyphs, text, 0).push('\n') + line(glyphs, text, 1).push('\n') + line(
        glyphs,
        text,
        2,
    ).push('\n') + line(glyphs, text, 3).push('\n') + line(glyphs, text, 4).push('\n')
}

/// Whether no row of any glyph holds a newline.
pub open spec fn rows_on_one_line(glyphs: Glyphs) -> bool {
    forall|c: char, row: int|
        glyphs.contains_key(c) && 0 <= row < 5 ==> !(#[trigger] glyphs[c][row]).contains('\n')
}

/// The line of an empty text is empty.
pub proof fn lemma_line_empty(glyphs: Glyphs, row: int)
    ensures
        line(glyphs, Seq::<char>::empty(), row) == Seq::<char>::empty(),
{
}

/// A character appended to a text appends its cell to every line.
pub proof fn lemma_line_push(glyphs: Glyphs, text: Seq<char>, c: char, row: int)
    ensures
        line(glyphs, text.push(c), row) == line(glyphs, text, row) + cell(glyphs, c, row),
{
    let f = |c: char| cell(glyphs, c, row);
    assert(text.push(c).map_values(f) =~= text.map_values(f).push(f(c)));
    text.map_values(f).lemma_flatten_push(f(c));
}

/// The line of two texts, one after the other, is the line of the first
/// followed by the line of the second.
pub proof fn lemma_line_concat(glyphs: Glyphs, first: Seq<char>, second: Seq<char>, row: int)
    ensures
        line(glyphs, first + second, row) == line(glyphs, first, row) + line(glyphs, second, row),
    decreases second.len(),
{
    if second.len() > 0 {
        let init = second.drop_last();
        let c = second.last();
        assert(second =~= init.push(c));
        lemma_line_concat(glyphs, first, init, row);
        lemma_line_push(glyphs, first + init, c, row);
        lemma_line_push(glyphs, init, c, row);
    }
}

/// A character that has no glyph adds exactly six spaces to every line,
/// wherever it stands in the text.
pub proof fn lemma_missing_glyph(
    glyphs: Glyphs,
    before: Seq<char>,
    c: char,
    after: Seq<char>,
    row: int,
)
    requires
        !glyphs.contains_key(c),
    ensures
        line(glyphs, before.push(c) + after, row) == line(glyphs, before, row)
            + seq![' ', ' ', ' ', ' ', ' ', ' '] + line(glyphs, after, row),
{
    lemma_line_concat(glyphs, before.push(c), after, row);
    lemma_line_push(glyphs, before, c, row);
}

/// A character that has a glyph adds the row of that glyph and one space to
/// every line, wherever it stands in the text.
pub proof fn lemma_present_glyph(
    glyphs: Glyphs,
    before: Seq<char>,
    c: char,
    after: Seq<char>,
    row: int,
)
    requires
        glyphs.contains_key(c),
    ensures
        line(glyphs, before.push(c) + after, row) == line(glyphs, before, row) + glyphs[c][row]
            + seq![' '] + line(glyphs, after, row),
{
    lemma_line_concat(glyphs, before.push(c), after, row);
    lemma_line_push(glyphs, before, c, row);
}

/// Where no row of a glyph holds a newline, no line of a rendering does.
pub proof fn lemma_line_on_one_line(glyphs: Glyphs, text: Seq<char>, row: int)
    requires
        rows_on_one_line(glyphs),
        0 <= row < 5,
    ensures
        !line(glyphs, text, row).contains('\n'),
    decreases text.len(),
{
    if text.len() > 0 {
        let init = text.drop_last();
        let c = text.last();
        assert(text =~= init.push(c));
        lemma_line_on_one_line(glyphs, init, row);
        lemma_line_push(glyphs, init, c, row);
    }
}

/// Every rendering has exactly five lines, each ended by a newline: it is
/// five pieces, one after the other, and each piece is a line followed by a
/// newline. Where no row of a glyph holds a newline, no line holds one, so
/// the rendering has five newlines in all.
pub proof fn lemma_five_lines(glyphs: Glyphs, text: Seq<char>)
    ensures
        lines(glyphs, text).len() == 5,
        rendering(glyphs, text) == lines(glyphs, text).map_values(
            |l: Seq<char>| l.push('\n'),
        ).flatten(),
        rendering(glyphs, text).len() > 0 && rendering(glyphs, text).last() == '\n',
        rows_on_one_line(glyphs) ==> forall|row: int|
            0 <= row < 5 ==> !(#[trigger] lines(glyphs, text)[row]).contains('\n'),
{
    let ls = lines(glyphs, text);
    let pieces = ls.map_values(|l: Seq<char>| l.push('\n'));
    let e = Seq::<Seq<char>>::empty();
    assert(pieces =~= e.push(pieces[0]).push(pieces[1]).push(pieces[2]).push(pieces[3]).push(
        pieces[4],
    ));
    e.lemma_flatten_push(pieces[0]);
    e.push(pieces[0]).lemma_flatten_push(pieces[1]);
    e.push(pieces[0]).push(pieces[1]).lemma_flatten_push(pieces[2]);
    e.push(pieces[0]).push(pieces[1]).push(pieces[2]).lemma_flatten_push(pieces[3]);
    e.push(pieces[0]).push(pieces[1]).push(pieces[2]).push(pieces[3]).lemma_flatten_push(
        pieces[4],
    );
    if rows_on_one_line(glyphs) {
        assert forall|row: int| 0 <= row < 5 implies !(#[trigger] lines(glyphs, text)[row]).contains(
            '\n',
        ) by {
            lemma_line_on_one_line(glyphs, text, row);
        }
    }
}

} // verus!
