//! Centring a text in a field of fixed width.

use vstd::prelude::*;
use vstd::utf8::*;

verus! {

/// Interior width of the display box, in columns.
pub const FIELD_WIDTH: usize = 21;

/// A run of `n` spaces.
pub open spec fn spaces(n: nat) -> Seq<char> {
    Seq::new(n, |i: int| ' ')
}

/// The length of a text as the field measures it: the number of bytes of its
/// UTF-8 encoding. For ASCII text this is the number of characters.
pub open spec fn byte_len(text: Seq<char>) -> nat {
    encode_utf8(text).len()
}

/// The text centred in a field of `width` columns.
///
/// A text that does not leave at least one column free is dropped: the field
/// is then empty. Otherwise half of the free columns, rounded down, go to
/// each side, and a text of even length gets one more space at its end.
pub open spec fn centered(text: Seq<char>, width: nat) -> Seq<char> {
    let len = byte_len(text);
    if len >= width {
        Seq::empty()
    } else {
        let side = spaces(((width - len) / 2) as nat);
        if len % 2 != 0 {
            side + text + side
        } else {
            side + text + side + spaces(1)
        }
    }
}

/// Builds a run of `n` spaces.
pub fn blank(n: usize) -> (r: String)
    ensures
        r@ == spaces(n as nat),
{
    let mut r = String::new();
    let mut i: usize = 0;
    while i < n
        invariant
            i <= n,
            r@ == spaces(i as nat),
        decreases n - i,
    {
        proof {
            reveal_strlit(" ");
        }
        r.append(" ");
        i = i + 1;
    }
    r
}

/// Centres `text` in a field of `field_width` columns.
pub fn format_field(text: &str, field_width: usize) -> (r: String)
    ensures
        r@ == centered(text@, field_width as nat),
{
    let len: usize = text.as_bytes().len();
    if len < field_width {
        let side = blank((field_width - len) / 2);
        let mut r = String::new();
        r.append(side.as_str());
        r.append(text);
        r.append(side.as_str());
        if len % 2 == 0 {
            proof {
                reveal_strlit(" ");
            }
            r.append(" ");
        }
        r
    } else {
        String::new()
    }
}

/// Centres a weather description, or a message shown in its place, in the
/// display's text field.
pub fn format_response(description: &str) -> (r: String)
    ensures
        r@ == centered(description@, FIELD_WIDTH as nat),
{
    format_field(description, FIELD_WIDTH)
}

/// The UTF-8 encoding of two texts joined is the two encodings joined.
pub proof fn lemma_encode_concat(a: Seq<char>, b: Seq<char>)
    ensures
        encode_utf8(a + b) == encode_utf8(a) + encode_utf8(b),
    decreases a.len(),
{
    if a.len() == 0 {
        assert(a + b =~= b);
        assert(encode_utf8(a) + encode_utf8(b) =~= encode_utf8(b));
    } else {
        assert((a + b).drop_first() =~= a.drop_first() + b);
        lemma_encode_concat(a.drop_first(), b);
        assert(encode_utf8(a + b) =~= encode_utf8(a) + encode_utf8(b));
    }
}

/// The length of two texts joined is the sum of their lengths.
pub proof fn lemma_byte_len_concat(a: Seq<char>, b: Seq<char>)
    ensures
        byte_len(a + b) == byte_len(a) + byte_len(b),
{
    lemma_encode_concat(a, b);
}

/// A run of `n` spaces has length `n`.
pub proof fn lemma_byte_len_spaces(n: nat)
    ensures
        byte_len(spaces(n)) == n,
{
    is_ascii_chars_encode_utf8(spaces(n));
}

/// The length of what `centered` gives for a text of length `len` in a field
/// of `width` columns.
pub open spec fn centered_len(len: nat, width: nat) -> nat {
    if len >= width {
        0
    } else if len % 2 != 0 {
        (2 * ((width - len) / 2) + len) as nat
    } else {
        (2 * ((width - len) / 2) + len + 1) as nat
    }
}

/// The length of a centred text depends on the text's length alone: the
/// padding adds two equal sides and, for a text of even length, one space.
pub proof fn lemma_centered_byte_len(text: Seq<char>, width: nat)
    ensures
        byte_len(centered(text, width)) == centered_len(byte_len(text), width),
{
    let len = byte_len(text);
    if len < width {
        let side = spaces(((width - len) / 2) as nat);
        lemma_byte_len_spaces(((width - len) / 2) as nat);
        lemma_byte_len_spaces(1);
        lemma_byte_len_concat(side, text);
        lemma_byte_len_concat(side + text, side);
        lemma_byte_len_concat(side + text + side, spaces(1));
    }
}

/// In a field of odd width every text shorter than the field is padded to
/// exactly the field's width.
pub proof fn lemma_odd_field_is_filled(text: Seq<char>, width: nat)
    requires
        width % 2 == 1,
        byte_len(text) < width,
    ensures
        byte_len(centered(text, width)) == width,
{
    lemma_centered_byte_len(text, width);
}

/// A text of even length, shorter than the display's field, is padded to
/// exactly the field's 21 columns.
pub proof fn lemma_even_text_fills_field(text: Seq<char>)
    requires
        byte_len(text) < FIELD_WIDTH,
        byte_len(text) % 2 == 0,
    ensures
        byte_len(centered(text, FIELD_WIDTH as nat)) == FIELD_WIDTH,
{
    lemma_centered_byte_len(text, FIELD_WIDTH as nat);
}

/// A text that does not leave a column of the field free is dropped.
pub proof fn lemma_long_text_is_dropped(text: Seq<char>, width: nat)
    requires
        byte_len(text) >= width,
    ensures
        centered(text, width) == Seq::<char>::empty(),
{
}

/// For ASCII text the field's measure is the number of characters.
pub proof fn lemma_ascii_byte_len(text: Seq<char>)
    requires
        is_ascii_chars(text),
    ensures
        byte_len(text) == text.len(),
{
    is_ascii_chars_encode_utf8(text);
}

/// An ASCII text of fewer characters than the display's field has columns
/// comes out as exactly 21 characters.
pub proof fn lemma_ascii_text_fills_field(text: Seq<char>)
    requires
        is_ascii_chars(text),
        text.len() < FIELD_WIDTH,
    ensures
        centered(text, FIELD_WIDTH as nat).len() == FIELD_WIDTH,
{
    lemma_ascii_byte_len(text);
}

} // verus!
