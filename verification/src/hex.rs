//! Fixed-width lowercase hexadecimal text.

use vstd::prelude::*;

verus! {

/// The sixteen digits, in the order of their values.
pub open spec fn digits() -> Seq<char> {
    seq!['0', '1', '2', '3', '4', '5', '6', '7', '8', '9', 'a', 'b', 'c', 'd', 'e', 'f']
}

/// Whether a character is one of the sixteen lowercase hexadecimal digits.
pub open spec fn is_lower_hex(c: char) -> bool {
    exists|nibble: int| 0 <= nibble < 16 && c == #[trigger] digits()[nibble]
}

/// Whether a text is made of lowercase hexadecimal digits alone.
pub open spec fn all_lower_hex(text: Seq<char>) -> bool {
    forall|i: int| 0 <= i < text.len() ==> is_lower_hex(#[trigger] text[i])
}

/// The last `width` hexadecimal digits of `value`, most significant first,
/// with zeros in front where the value is short.
pub open spec fn lower_hex(value: nat, width: nat) -> Seq<char>
    decreases width,
{
    if width == 0 {
        Seq::empty()
    } else {
        lower_hex(value / 16, (width - 1) as nat).push(digits()[(value % 16) as int])
    }
}

/// A rendering has exactly the width asked for and holds digits only.
pub proof fn lemma_lower_hex_shape(value: nat, width: nat)
    ensures
        lower_hex(value, width).len() == width,
        all_lower_hex(lower_hex(value, width)),
    decreases width,
{
    if width > 0 {
        lemma_lower_hex_shape(value / 16, (width - 1) as nat);
        let head = lower_hex(value / 16, (width - 1) as nat);
        let text = lower_hex(value, width);
        assert forall|i: int| 0 <= i < text.len() implies is_lower_hex(#[trigger] text[i]) by {
            if i < head.len() {
                assert(text[i] == head[i]);
            } else {
                assert(text[i] == digits()[(value % 16) as int]);
            }
        }
    }
}

/// `String::push` of std: the character is appended at the end of the text.
pub assume_specification[ String::push ](text: &mut String, c: char)
    ensures
        final(text)@ == old(text)@.push(c),
;

/// The digit that stands for a value below sixteen.
fn digit(nibble: u8) -> (c: char)
    requires
        nibble < 16,
    ensures
        c == digits()[nibble as int],
{
    if nibble < 10 {
        // 48 is the code of '0'.
        (48u8 + nibble) as char
    } else {
        // 97 is the code of 'a'.
        (97u8 + (nibble - 10)) as char
    }
}

/// Appends the last `width` hexadecimal digits of `value` to `text`.
fn push_lower_hex(text: &mut String, value: u64, width: u8)
    ensures
        final(text)@ == old(text)@ + lower_hex(value as nat, width as nat),
    decreases width,
{
    if width > 0 {
        push_lower_hex(text, value / 16, width - 1);
        text.push(digit((value % 16) as u8));
        assert(text@ =~= old(text)@ + lower_hex(value as nat, width as nat));
    }
}

/// Renders a 64-bit value as sixteen lowercase hexadecimal digits.
pub fn hex_u64(value: u64) -> (text: String)
    ensures
        text@ == lower_hex(value as nat, 16),
        text@.len() == 16,
        all_lower_hex(text@),
{
    let mut text = String::new();
    push_lower_hex(&mut text, value, 16);
    proof {
        lemma_lower_hex_shape(value as nat, 16);
    }
    text
}

} // verus!
