//! The two display panels: a text field in a box, held up by a crab.

use vstd::prelude::*;
use vstd::utf8::*;
use crate::field::{
    byte_len, centered, format_response, lemma_byte_len_concat, lemma_odd_field_is_filled,
    FIELD_WIDTH,
};

verus! {

/// The top and bottom border of the box.
pub const BORDER: &'static str = "  |---------------------|";

/// What stands left of the field in the box's content line.
pub const LEFT_WALL: &'static str = "  |";

/// What stands right of the field in the box's content line.
pub const RIGHT_WALL: &'static str = "|";

/// What stands under the box when a weather description is shown.
pub const HAPPY_CRAB: [&'static str; 9] = [
    r"  |                     |",
    r" /\/\ (O)       (O)   /\/\ ",
    r" \  /  \\ ______//    \  / ",
    r" / /   /         \     \ \ ",
    r" \ \  |///   V   ///   / / ",
    r"  \ \ \    ___     \  / /  ",
    r"   \ \/    ___      \/ /   ",
    r"    |     _______     |    ",
    r"    |________________/     ",
];

/// What stands under the box when an error message is shown.
pub const SAD_CRAB: [&'static str; 9] = [
    r"  |                     |",
    r" /\/\ (_)       (_)   /\/\ ",
    r" \  /  \\ ______//    \  / ",
    r" / /   /         \     \ \ ",
    r" \ \  |      ^    \    / / ",
    r"  \ \ \    ___     \  / /  ",
    r"   \ \/    ___      \/ /   ",
    r"    |     _______     |    ",
    r"    |________________/     ",
];

/// The content line of the box: a field between the box's two walls.
pub open spec fn framed(field: Seq<char>) -> Seq<char> {
    LEFT_WALL@ + field + RIGHT_WALL@
}

/// The box with `text` centred in its field: border, content line, border.
pub open spec fn sign(text: Seq<char>) -> Seq<Seq<char>> {
    seq![BORDER@, framed(centered(text, FIELD_WIDTH as nat)), BORDER@]
}

/// The nine rows of a crab, top to bottom.
pub open spec fn rows(art: [&'static str; 9]) -> Seq<Seq<char>> {
    Seq::new(9, |i: int| art@[i]@)
}

/// The panel for `text` with the crab `art` below the box.
pub open spec fn panel(text: Seq<char>, art: [&'static str; 9]) -> Seq<Seq<char>> {
    sign(text) + rows(art)
}

/// The panel shown for a weather description.
pub open spec fn happy_panel(description: Seq<char>) -> Seq<Seq<char>> {
    panel(description, HAPPY_CRAB)
}

/// The panel shown for an error message.
pub open spec fn sad_panel(message: Seq<char>) -> Seq<Seq<char>> {
    panel(message, SAD_CRAB)
}

/// The lines of the box with `text` centred in its field.
fn sign_lines(text: &str) -> (lines: Vec<String>)
    ensures
        lines.deep_view() == sign(text@),
{
    let field = format_response(text);
    let mut content = String::from_str(LEFT_WALL);
    content.append(field.as_str());
    content.append(RIGHT_WALL);
    let mut lines: Vec<String> = Vec::new();
    lines.push(String::from_str(BORDER));
    lines.push(content);
    lines.push(String::from_str(BORDER));
    lines
}

/// The lines of the panel for `text` with the crab `art` below the box.
fn panel_lines(text: &str, art: [&'static str; 9]) -> (lines: Vec<String>)
    ensures
        lines.deep_view() == panel(text@, art),
{
    let mut lines = sign_lines(text);
    let mut i: usize = 0;
    while i < 9
        invariant
            i <= 9,
            lines.deep_view() == sign(text@) + rows(art).take(i as int),
        decreases 9 - i,
    {
        let ghost before = lines.deep_view();
        lines.push(String::from_str(art[i]));
        assert(lines.deep_view() =~= before.push(art@[i as int]@));
        assert(rows(art).take(i + 1) =~= rows(art).take(i as int).push(art@[i as int]@));
        i = i + 1;
    }
    lines
}

/// The lines of the panel that shows a weather description: the box with
/// the description centred in it, and the happy crab below.
pub fn happy_weather_crab(description: &str) -> (lines: Vec<String>)
    ensures
        lines.deep_view() == happy_panel(description@),
{
    panel_lines(description, HAPPY_CRAB)
}

/// The lines of the panel that shows an error message: the box with the
/// message centred in it, and the sad crab below.
pub fn sad_crab(err_message: &str) -> (lines: Vec<String>)
    ensures
        lines.deep_view() == sad_panel(err_message@),
{
    panel_lines(err_message, SAD_CRAB)
}

/// A panel has twelve lines: the box's three and the crab's nine. The first
/// and the third are the border, whatever the text.
pub proof fn lemma_panel_shape(text: Seq<char>, art: [&'static str; 9])
    ensures
        panel(text, art).len() == 12,
        panel(text, art)[0] == BORDER@,
        panel(text, art)[1] == framed(centered(text, FIELD_WIDTH as nat)),
        panel(text, art)[2] == BORDER@,
        forall|i: int| 0 <= i < 9 ==> panel(text, art)[3 + i] == #[trigger] rows(art)[i],
{
}

/// The content line of a text shorter than the field is as long as the
/// border, so that the box's right wall stands in the border's last column.
pub proof fn lemma_content_line_matches_border(text: Seq<char>)
    requires
        byte_len(text) < FIELD_WIDTH,
    ensures
        byte_len(framed(centered(text, FIELD_WIDTH as nat))) == byte_len(BORDER@),
{
    let field = centered(text, FIELD_WIDTH as nat);
    reveal_strlit("  |---------------------|");
    reveal_strlit("  |");
    reveal_strlit("|");
    lemma_odd_field_is_filled(text, FIELD_WIDTH as nat);
    lemma_byte_len_concat(LEFT_WALL@, field);
    lemma_byte_len_concat(LEFT_WALL@ + field, RIGHT_WALL@);
    is_ascii_chars_encode_utf8(LEFT_WALL@);
    is_ascii_chars_encode_utf8(RIGHT_WALL@);
    is_ascii_chars_encode_utf8(BORDER@);
}

} // verus!
