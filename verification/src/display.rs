//! The short text form of an identifier, for logs and diagnostics.
//!
//! The form keeps the first two and the last two bytes only: it cannot be
//! read back into an identifier.

use crate::node_id::NodeId;
use vstd::prelude::*;
use vstd::string::StrSliceExecFns;
use vstd::string::StringExecFns;

verus! {

/// The sixteen hexadecimal digits, in lower case and in order of value.
pub open spec fn hex_digits() -> Seq<char> {
    "0123456789abcdef"@
}

/// The two lower-case hexadecimal digits of a byte, the high one first.
pub open spec fn hex_byte(byte: u8) -> Seq<char> {
    seq![hex_digits()[byte as int / 16], hex_digits()[byte as int % 16]]
}

/// The short form of 32 bytes: `0x`, the first two bytes in hexadecimal, two
/// dots, and the last two bytes in hexadecimal.
pub open spec fn short_form(raw: Seq<u8>) -> Seq<char>
    recommends
        raw.len() == 32,
{
    "0x"@ + hex_byte(raw[0]) + hex_byte(raw[1]) + ".."@ + hex_byte(raw[30]) + hex_byte(raw[31])
}

/// The hexadecimal digit of a value below sixteen, as a string of one
/// character.
fn hex_digit(value: u8) -> (digit: &'static str)
    requires
        value < 16,
    ensures
        digit@ == seq![hex_digits()[value as int]],
{
    proof {
        reveal_strlit("0123456789abcdef");
    }
    let start: usize = value as usize;
    let digit = "0123456789abcdef".substring_char(start, start + 1);
    assert(digit@ =~= seq![hex_digits()[value as int]]);
    digit
}

/// Appends the two hexadecimal digits of `byte` to `text`.
fn push_hex_byte(text: &mut String, byte: u8)
    ensures
        final(text)@ == old(text)@ + hex_byte(byte),
{
    text.append(hex_digit(byte / 16));
    text.append(hex_digit(byte % 16));
    assert(final(text)@ =~= old(text)@ + hex_byte(byte));
}

impl NodeId {
    /// Renders the identifier in its short form, such as `0xab12..cd34`.
    pub fn to_string(&self) -> (text: String)
        ensures
            text@ == short_form(self@),
    {
        let raw = self.raw();
        let mut text = String::from_str("0x");
        push_hex_byte(&mut text, raw[0]);
        push_hex_byte(&mut text, raw[1]);
        text.append("..");
        push_hex_byte(&mut text, raw[30]);
        push_hex_byte(&mut text, raw[31]);
        text
    }
}

/// The short form always has twelve characters and starts with `0x`.
pub proof fn lemma_short_form_shape(raw: Seq<u8>)
    requires
        raw.len() == 32,
    ensures
        short_form(raw).len() == 12,
        short_form(raw)[0] == '0',
        short_form(raw)[1] == 'x',
        short_form(raw)[6] == '.',
        short_form(raw)[7] == '.',
{
    reveal_strlit("0x");
    reveal_strlit("..");
}

} // verus!
