//! Strings and characters.
use vstd::prelude::*;
use vstd::utf8::{decode_utf8, encode_utf8, valid_utf8};

verus! {

/// Whether `needle` stands in `text` from the place `start` on.
pub open spec fn occurs_at(needle: Seq<char>, text: Seq<char>, start: int) -> bool {
    0 <= start <= text.len() - needle.len() && text.subrange(start, start + needle.len()) == needle
}

/// Whether `needle` stands somewhere in `text`.
pub open spec fn occurs_in(needle: Seq<char>, text: Seq<char>) -> bool {
    exists|start: int| #[trigger] occurs_at(needle, text, start)
}

/// Whether the character is a control code: one of U+0000 to U+001F or U+007F to U+009F.
pub open spec fn is_control_char(c: char) -> bool {
    c as u32 <= 0x1f || 0x7f <= c as u32 <= 0x9f
}

/// Whether some character of the text is a control code.
pub open spec fn has_control(text: Seq<char>) -> bool {
    exists|i: int| 0 <= i < text.len() && is_control_char(#[trigger] text[i])
}

/// The length of the text in bytes, in UTF-8.
pub open spec fn byte_length(text: Seq<char>) -> nat {
    encode_utf8(text).len()
}

/// The texts of a sequence of strings.
pub open spec fn texts_of(strings: Seq<String>) -> Seq<Seq<char>> {
    strings.map_values(|string: String| string@)
}

/// The texts of a sequence of string slices.
pub open spec fn slices_of(slices: Seq<&str>) -> Seq<Seq<char>> {
    slices.map_values(|slice: &str| slice@)
}

/// What `String::from_utf8_lossy` makes of the bytes.
pub uninterp spec fn utf8_lossy(bytes: Seq<u8>) -> Seq<char>;

/// `str::contains` with a string: whether `needle` stands somewhere in `text`.
#[verifier::external_body]
pub(crate) fn contains(text: &str, needle: &str) -> (found: bool)
    ensures
        found == occurs_in(needle@, text@),
{
    text.contains(needle)
}

/// `str::starts_with` with a string: whether `text` begins with `prefix`.
#[verifier::external_body]
pub(crate) fn starts_with(text: &str, prefix: &str) -> (found: bool)
    ensures
        found == prefix@.is_prefix_of(text@),
{
    text.starts_with(prefix)
}

/// `String::from_utf8_lossy`: the text that the bytes encode where they are valid UTF-8. Of other
/// bytes, which come out with replacement characters, only that the text depends on the bytes
/// alone.
#[verifier::external_body]
pub(crate) fn from_utf8_lossy(bytes: &[u8]) -> (text: String)
    ensures
        text@ == utf8_lossy(bytes@),
        valid_utf8(bytes@) ==> text@ == decode_utf8(bytes@),
{
    String::from_utf8_lossy(bytes).into_owned()
}

/// The two texts one after the other.
pub fn joined(first: &str, second: &str) -> (text: String)
    ensures
        text@ == first@ + second@,
{
    let mut text = first.to_owned();
    text.append(second);
    text
}

/// The length of the text in bytes.
pub fn byte_len(text: &str) -> (length: usize)
    ensures
        length == byte_length(text@),
{
    text.as_bytes().len()
}

/// Whether the character is a control code.
pub fn is_control(c: char) -> (answer: bool)
    ensures
        answer == is_control_char(c),
{
    let code: u32 = c as u32;
    code <= 0x1f || (0x7f <= code && code <= 0x9f)
}

/// Whether some character of the text is a control code.
pub fn contains_control(text: &str) -> (answer: bool)
    ensures
        answer == has_control(text@),
{
    for c in chars: text.chars()
        invariant
            chars.seq() == text@,
            forall|i: int| 0 <= i < chars.index() ==> !is_control_char(#[trigger] text@[i]),
    {
        if is_control(c) {
            assert(is_control_char(text@[chars.index() as int]));
            return true;
        }
    }
    false
}

} // verus!
