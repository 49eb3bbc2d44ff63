use print_big_text_rs::character_maps::{CharacterMap, Glyph};
use print_big_text_rs::BigText;

fn blank_glyph() -> Glyph {
    [
        String::from("     "),
        String::from("     "),
        String::from("     "),
        String::from("     "),
        String::from("     "),
    ]
}

fn blank_map() -> CharacterMap {
    let mut map = CharacterMap::new();
    map.insert('A', blank_glyph());
    map.insert('1', blank_glyph());
    map.insert('"', blank_glyph());
    map
}

#[test]
fn test_text() {
    let printer = BigText::new("Ab1", None);
    assert_eq!(printer.text(), "Ab1");
}

#[test]
fn test_supported_characters() {
    let _printer = BigText::new("Ab1", None);
}

#[test]
fn test_set_text() {
    let mut printer = BigText::new("Ab1", None);
    printer.set_text("cY@");
    assert_eq!(printer.text(), "cY@");
}

#[test]
fn test_print() {
    let printer = BigText::new("A", None);
    let str = printer.render();
    println!("{}", str);

    assert_eq!(" ***  \n*   * \n***** \n*   * \n*   * \n", str);
}

#[test]
fn test_character_map() {
    let map: CharacterMap = blank_map();
    let printer = BigText::new("", Some(map.clone()));
    assert_eq!(&map, printer.character_map())
}

#[test]
fn test_set_character_map() {
    let map: CharacterMap = blank_map();
    let mut printer = BigText::new("", None);
    printer.set_character_map(map.clone());
    assert_eq!(&map, printer.character_map())
}

#[test]
fn get_supported_characters() {
    let mut map = CharacterMap::new();
    for key in ['A', '1', '"'] {
        map.insert(
            key,
            [
                "".to_string(),
                "".to_string(),
                "".to_string(),
                "".to_string(),
                "".to_string(),
            ],
        );
    }

    let supported_characters = BigText::get_supported_characters(&map);
    assert!(supported_characters.contains("A"));
    assert!(supported_characters.contains("\""));
    assert!(supported_characters.contains("1"));
    assert!(!supported_characters.contains("B"));
}

#[test]
fn new_without_a_table_uses_the_printables() {
    let printer = BigText::new("", None);
    assert_eq!(
        &print_big_text_rs::character_maps::printables(),
        printer.character_map()
    );
}

#[test]
fn set_text_can_be_chained() {
    let mut printer = BigText::new("69", None);
    assert_eq!("69", printer.text());
    assert_eq!("420", printer.set_text("420").text());
    assert_eq!("420", printer.text());
}

#[test]
fn set_text_round_trips() {
    let mut printer = BigText::new("start", None);
    for text in ["", "A", "Ab1", "cY@", "  ", "héllo wörld", "日本語", "a\nb", "🙂🙃"] {
        printer.set_text(text);
        assert_eq!(printer.text(), text);
        printer.set_text(text);
        assert_eq!(printer.text(), text);
    }
}

#[test]
fn set_text_keeps_the_table() {
    let map = blank_map();
    let mut printer = BigText::new("x", Some(map.clone()));
    let before = printer.supported_characters().to_string();
    printer.set_text("other");
    assert_eq!(&map, printer.character_map());
    assert_eq!(before, printer.supported_characters());
}

#[test]
fn supported_characters_are_the_keys_of_the_table() {
    let mut printer = BigText::new("", None);
    let mut expected: Vec<char> = print_big_text_rs::character_maps::printables().keys();
    expected.sort();
    let mut listed: Vec<char> = printer.supported_characters().chars().collect();
    listed.sort();
    assert_eq!(listed, expected);
    assert_eq!(listed.len(), 55);

    printer.set_character_map(blank_map());
    let mut listed: Vec<char> = printer.supported_characters().chars().collect();
    listed.sort();
    assert_eq!(listed, vec!['"', '1', 'A']);

    printer.set_character_map(CharacterMap::new());
    assert_eq!(printer.supported_characters(), "");
}

#[test]
fn supported_characters_beyond_ascii() {
    let mut map = CharacterMap::new();
    map.insert('é', blank_glyph());
    map.insert('日', blank_glyph());
    map.insert('🙂', blank_glyph());
    map.insert('\u{10FFFF}', blank_glyph());
    map.insert('\u{0}', blank_glyph());
    let listed = BigText::get_supported_characters(&map);
    let mut chars: Vec<char> = listed.chars().collect();
    chars.sort();
    assert_eq!(chars, vec!['\u{0}', 'é', '日', '🙂', '\u{10FFFF}']);
}

#[test]
fn set_character_map_keeps_the_text() {
    let mut printer = BigText::new("Ab1", None);
    printer.set_character_map(blank_map());
    assert_eq!(printer.text(), "Ab1");
}
