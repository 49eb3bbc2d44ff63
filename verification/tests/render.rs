use print_big_text_rs::character_maps::{CharacterMap, Glyph};
use print_big_text_rs::BigText;

fn glyph(rows: [&str; 5]) -> Glyph {
    [
        rows[0].to_string(),
        rows[1].to_string(),
        rows[2].to_string(),
        rows[3].to_string(),
        rows[4].to_string(),
    ]
}

fn only_a() -> CharacterMap {
    let mut map = CharacterMap::new();
    map.insert('A', glyph(["*  *", "* **", "****", "*   ", "*   "]));
    map
}

#[test]
fn renders_a_glyph_with_one_space_after_each_row() {
    let printer = BigText::new("A", Some(only_a()));
    assert_eq!(printer.render(), "*  * \n* ** \n**** \n*    \n*    \n");
}

#[test]
fn renders_six_spaces_for_a_character_without_a_glyph() {
    let printer = BigText::new("X", Some(CharacterMap::new()));
    assert_eq!(
        printer.render(),
        "      \n      \n      \n      \n      \n"
    );
}

#[test]
fn renders_five_empty_lines_for_an_empty_text() {
    assert_eq!(BigText::new("", None).render(), "\n\n\n\n\n");
    assert_eq!(BigText::new("", Some(only_a())).render(), "\n\n\n\n\n");
    assert_eq!(
        BigText::new("", Some(CharacterMap::new())).render(),
        "\n\n\n\n\n"
    );
}

#[test]
fn renders_letter_digit_and_mark_side_by_side() {
    let printer = BigText::new("A1?", None);
    assert_eq!(
        " ***      * ****  \n*   *     *     * \n*****     *   **  \n*   *     *       \n*   *     *   *   \n",
        printer.render()
    );
}

#[test]
fn renders_five_lines_for_every_text() {
    for text in ["", "A", "HELLO WORLD", "abc", "A\nB", "héllo", "1234567890", "?!", "日本語"] {
        let out = BigText::new(text, None).render();
        assert!(out.ends_with('\n'));
        assert_eq!(out.matches('\n').count(), 5);
        let lines: Vec<&str> = out.split('\n').collect();
        assert_eq!(lines.len(), 6);
        assert_eq!(lines[5], "");
        for line in &lines[..5] {
            assert_eq!(line.chars().count(), 6 * text.chars().count());
        }
    }
}

#[test]
fn missing_and_present_characters_mix_in_order() {
    let printer = BigText::new("xAyA", Some(only_a()));
    assert_eq!(
        printer.render(),
        "      *  *       *  * \n      * **       * ** \n      ****       **** \n      *          *    \n      *          *    \n"
    );
}

#[test]
fn a_present_glyph_with_short_rows_is_not_padded() {
    let mut map = CharacterMap::new();
    map.insert('s', glyph(["", "a", "bb", "ccc", "dddd"]));
    let printer = BigText::new("s", Some(map.clone()));
    assert_eq!(printer.render(), " \na \nbb \nccc \ndddd \n");
    let printer = BigText::new("s?", Some(map));
    assert_eq!(
        printer.render(),
        "       \na       \nbb       \nccc       \ndddd       \n"
    );
}

#[test]
fn a_present_glyph_with_long_rows_is_not_cut() {
    let mut map = CharacterMap::new();
    map.insert('w', glyph(["1234567", "12345", "123", "1", ""]));
    let printer = BigText::new("ww", Some(map));
    assert_eq!(
        printer.render(),
        "1234567 1234567 \n12345 12345 \n123 123 \n1 1 \n  \n"
    );
}

#[test]
fn render_follows_the_text_and_the_table() {
    let mut printer = BigText::new("A", Some(only_a()));
    printer.set_text("AA");
    assert_eq!(
        printer.render(),
        "*  * *  * \n* ** * ** \n**** **** \n*    *    \n*    *    \n"
    );
    printer.set_character_map(CharacterMap::new());
    assert_eq!(
        printer.render(),
        "            \n            \n            \n            \n            \n"
    );
}

#[test]
fn lower_case_letters_have_no_glyph() {
    let printer = BigText::new("a", None);
    assert_eq!(
        printer.render(),
        "      \n      \n      \n      \n      \n"
    );
}

#[test]
fn the_space_renders_like_a_missing_glyph() {
    assert_eq!(
        BigText::new(" ", None).render(),
        "      \n      \n      \n      \n      \n"
    );
}
