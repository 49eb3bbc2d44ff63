//! The glyph definitions that come with the library, as JSON text: an object
//! that gives, for each character, the five rows of its glyph.

use vstd::prelude::*;

verus! {

/// The glyphs of the capital letters `A` to `Z`, as JSON.
pub const LETTERS: &'static str = r##"{
    "A": [" *** ", "*   *", "*****", "*   *", "*   *"],
    "B": ["**** ", "*   *", "**** ", "*   *", "**** "],
    "C": [" ****", "*    ", "*    ", "*    ", " ****"],
    "D": ["**** ", "*   *", "*   *", "*   *", "**** "],
    "E": ["*****", "*    ", "**** ", "*    ", "*****"],
    "F": ["*****", "*    ", "**** ", "*    ", "*    "],
    "G": [" ****", "*    ", "*  **", "*   *", " ****"],
    "H": ["*   *", "*   *", "*****", "*   *", "*   *"],
    "I": ["*****", "  *  ", "  *  ", "  *  ", "*****"],
    "J": ["*****", "   * ", "   * ", "*  * ", " **  "],
    "K": ["*   *", "*  * ", "***  ", "*  * ", "*   *"],
    "L": ["*    ", "*    ", "*    ", "*    ", "*****"],
    "M": ["*   *", "** **", "* * *", "*   *", "*   *"],
    "N": ["*   *", "**  *", "* * *", "*  **", "*   *"],
    "O": [" *** ", "*   *", "*   *", "*   *", " *** "],
    "P": ["**** ", "*   *", "**** ", "*    ", "*    "],
    "Q": [" *** ", "*   *", "* * *", "*  * ", " ** *"],
    "R": ["**** ", "*   *", "**** ", "*  * ", "*   *"],
    "S": [" ****", "*    ", " *** ", "    *", "**** "],
    "T": ["*****", "  *  ", "  *  ", "  *  ", "  *  "],
    "U": ["*   *", "*   *", "*   *", "*   *", " *** "],
    "V": ["*   *", "*   *", "*   *", " * * ", "  *  "],
    "W": ["*   *", "*   *", "* * *", "** **", "*   *"],
    "X": ["*   *", " * * ", "  *  ", " * * ", "*   *"],
    "Y": ["*   *", " * * ", "  *  ", "  *  ", "  *  "],
    "Z": ["*****", "   * ", "  *  ", " *   ", "*****"]
}"##;

/// The glyphs of the digits `0` to `9`, as JSON.
pub const DIGITS: &'static str = r##"{
    "0": [" *** ", "*  **", "* * *", "**  *", " *** "],
    "1": ["    *", "    *", "    *", "    *", "    *"],
    "2": ["**** ", "    *", " *** ", "*    ", "*****"],
    "3": ["**** ", "    *", " *** ", "    *", "**** "],
    "4": ["*   *", "*   *", "*****", "    *", "    *"],
    "5": ["*****", "*    ", "**** ", "    *", "**** "],
    "6": [" *** ", "*    ", "**** ", "*   *", " *** "],
    "7": ["*****", "    *", "   * ", "  *  ", "  *  "],
    "8": [" *** ", "*   *", " *** ", "*   *", " *** "],
    "9": [" *** ", "*   *", " ****", "    *", " *** "]
}"##;

/// The glyphs of the punctuation marks, as JSON.
pub const PUNCTUATION: &'static str = r##"{
    "!": ["  *  ", "  *  ", "  *  ", "     ", "  *  "],
    "@": [" *** ", "*   *", "* ***", "*    ", " ****"],
    "#": [" * * ", "*****", " * * ", "*****", " * * "],
    "$": [" ****", "* *  ", " *** ", "  * *", "**** "],
    "%": ["**  *", "** * ", "  *  ", " * **", "*  **"],
    "^": ["  *  ", " * * ", "*   *", "     ", "     "],
    "&": [" **  ", "*  * ", " ** *", "*  * ", " ** *"],
    "*": ["* * *", " *** ", "*****", " *** ", "* * *"],
    "(": ["   * ", "  *  ", "  *  ", "  *  ", "   * "],
    ")": [" *   ", "  *  ", "  *  ", "  *  ", " *   "],
    "[": ["  ** ", "  *  ", "  *  ", "  *  ", "  ** "],
    "]": [" **  ", "  *  ", "  *  ", "  *  ", " **  "],
    ";": ["     ", "  *  ", "     ", "  *  ", " *   "],
    "\"": [" * * ", " * * ", "     ", "     ", "     "],
    "\\": ["*    ", " *   ", "  *  ", "   * ", "    *"],
    ",": ["     ", "     ", "     ", "  *  ", " *   "],
    ".": ["     ", "     ", "     ", "     ", "  *  "],
    "?": ["**** ", "    *", "  ** ", "     ", "  *  "]
}"##;

/// The glyph of the space, as JSON.
pub const WHITESPACE: &'static str = r##"{
    " ": ["     ", "     ", "     ", "     ", "     "]
}"##;

} // verus!
