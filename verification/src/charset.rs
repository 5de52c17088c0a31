//! Character sets used when building glyph atlases.
use vstd::prelude::*;

verus! {

/// The first printable ASCII character (`'!'`).
pub const FIRST_PRINTABLE_ASCII: u8 = 33;

/// The last printable ASCII character (`'~'`).
pub const LAST_PRINTABLE_ASCII: u8 = 126;

/// The printable, non-space ASCII characters in code-point order: `'!'` through `'~'`.
pub open spec fn spec_printable_ascii_chars() -> Seq<char> {
    Seq::new(94, |i: int| (i + 33) as char)
}

/// Returns every printable ASCII character other than the space, in ascending order.
pub fn printable_ascii_chars() -> (chars: Vec<char>)
    ensures
        chars@ == spec_printable_ascii_chars(),
{
    let mut chars: Vec<char> = Vec::new();
    let mut code: u8 = FIRST_PRINTABLE_ASCII;
    while code <= LAST_PRINTABLE_ASCII
        invariant
            FIRST_PRINTABLE_ASCII <= code <= LAST_PRINTABLE_ASCII + 1,
            chars@.len() == code - FIRST_PRINTABLE_ASCII,
            forall|i: int| 0 <= i < chars@.len() ==> chars@[i] == (i + 33) as char,
        decreases LAST_PRINTABLE_ASCII + 1 - code,
    {
        chars.push(code as char);
        code = code + 1;
    }
    assert(chars@ =~= spec_printable_ascii_chars());
    chars
}

/// The characters with the Unicode `White_Space` property (Unicode PropList.txt): tab, line
/// feed, vertical tab, form feed, carriage return, space, next line, no-break space, ogham
/// space mark, the spaces U+2000 to U+200A, line and paragraph separators, narrow no-break
/// space, medium mathematical space and ideographic space.
pub open spec fn is_white_space(c: char) -> bool {
    let u = c as u32;
    ||| 0x09 <= u <= 0x0D
    ||| u == 0x20
    ||| u == 0x85
    ||| u == 0xA0
    ||| u == 0x1680
    ||| 0x2000 <= u <= 0x200A
    ||| u == 0x2028
    ||| u == 0x2029
    ||| u == 0x202F
    ||| u == 0x205F
    ||| u == 0x3000
}

/// The ASCII control characters: U+0000 to U+001F and U+007F.
pub open spec fn is_ascii_control_char(c: char) -> bool {
    (c as u32) <= 0x1F || (c as u32) == 0x7F
}

/// Whether `c` has the Unicode `White_Space` property, as `char::is_whitespace` tests it.
fn char_is_whitespace(c: char) -> (r: bool)
    ensures
        r == is_white_space(c),
{
    let u = c as u32;
    (0x09 <= u && u <= 0x0D) || u == 0x20 || u == 0x85 || u == 0xA0 || u == 0x1680 || (0x2000 <= u
        && u <= 0x200A) || u == 0x2028 || u == 0x2029 || u == 0x202F || u == 0x205F || u == 0x3000
}

/// Whether `c` is an ASCII control character, as `char::is_ascii_control` tests it.
fn char_is_ascii_control(c: char) -> (r: bool)
    ensures
        r == is_ascii_control_char(c),
{
    let u = c as u32;
    u <= 0x1F || u == 0x7F
}

/// A character gets a bitmap in the atlas unless it is white space or an ASCII control.
pub open spec fn spec_is_drawable_char(c: char) -> bool {
    !is_white_space(c) && !is_ascii_control_char(c)
}

/// Whether the atlas renders a bitmap for `c`: white space and ASCII controls keep an empty cell.
pub fn is_drawable_char(c: char) -> (r: bool)
    ensures
        r == spec_is_drawable_char(c),
        r <==> !({
            let u = c as u32;
            ||| u <= 0x20
            ||| u == 0x7F
            ||| u == 0x85
            ||| u == 0xA0
            ||| u == 0x1680
            ||| 0x2000 <= u <= 0x200A
            ||| u == 0x2028
            ||| u == 0x2029
            ||| u == 0x202F
            ||| u == 0x205F
            ||| u == 0x3000
        }),
        (c as u32) >= 0x3100 ==> r,
{
    !(char_is_whitespace(c) || char_is_ascii_control(c))
}

/// Law: every printable ASCII character is drawn into the atlas.
pub proof fn lemma_printable_ascii_drawable(i: int)
    requires
        0 <= i < 94,
    ensures
        spec_is_drawable_char(spec_printable_ascii_chars()[i]),
{
}

/// Law: the characters left without a bitmap are exactly the ASCII controls, the space and the
/// other Unicode `White_Space` characters, listed here by code point; every other character,
/// and in particular every character from U+3100 on, is drawn.
pub proof fn lemma_drawable_chars_are_all_but_space_and_controls(c: char)
    ensures
        spec_is_drawable_char(c) <==> !({
            let u = c as u32;
            ||| u <= 0x20
            ||| u == 0x7F
            ||| u == 0x85
            ||| u == 0xA0
            ||| u == 0x1680
            ||| 0x2000 <= u <= 0x200A
            ||| u == 0x2028
            ||| u == 0x2029
            ||| u == 0x202F
            ||| u == 0x205F
            ||| u == 0x3000
        }),
        (c as u32) >= 0x3100 ==> spec_is_drawable_char(c),
{
}

} // verus!
