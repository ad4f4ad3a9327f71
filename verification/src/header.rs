//! The shape of a `traceparent` header value.
//!
//! A value has four fields, set apart by hyphens: two digits of version,
//! thirty-two of trace id, sixteen of span id and two of flags, all of them
//! lowercase hexadecimal.

use vstd::prelude::*;
use vstd::string::is_ascii_spec_bytes;
use vstd::string::StringSliceAdditionalSpecFns;

verus! {

/// The number of characters of a header value.
pub const TRACEPARENT_LEN: usize = 55;

/// Whether a character is a digit of lowercase hexadecimal.
pub open spec fn is_lower_hex(c: char) -> bool {
    ('0' <= c && c <= '9') || ('a' <= c && c <= 'f')
}

/// Whether a hyphen stands at this place of a header value.
pub open spec fn is_hyphen_place(i: int) -> bool {
    i == 2 || i == 35 || i == 52
}

/// Whether a character may stand at this place of a header value: a hyphen
/// between two fields, a digit of lowercase hexadecimal inside a field.
pub open spec fn fits_place(c: char, i: int) -> bool {
    if is_hyphen_place(i) {
        c == '-'
    } else {
        is_lower_hex(c)
    }
}

/// Whether a text has the shape of a header value.
pub open spec fn has_traceparent_shape(text: Seq<char>) -> bool {
    text.len() == TRACEPARENT_LEN && forall|i: int|
        0 <= i < text.len() ==> fits_place(#[trigger] text[i], i)
}

/// Whether the character that a byte encodes may stand at this place.
fn byte_fits_place(byte: u8, i: usize, Ghost(c): Ghost<char>) -> (fits: bool)
    requires
        c as int == byte as int,
    ensures
        fits == fits_place(c, i as int),
{
    if i == 2 || i == 35 || i == 52 {
        byte == 0x2d
    } else {
        (0x30 <= byte && byte <= 0x39) || (0x61 <= byte && byte <= 0x66)
    }
}

/// Tests whether a text has the shape of a header value.
pub fn is_traceparent_shaped(text: &str) -> (shaped: bool)
    ensures
        shaped == has_traceparent_shape(text@),
{
    if !text.is_ascii() {
        return false;
    }
    proof {
        is_ascii_spec_bytes(text);
    }
    let bytes = text.as_bytes();
    if bytes.len() != TRACEPARENT_LEN {
        return false;
    }
    let mut i: usize = 0;
    while i < TRACEPARENT_LEN
        invariant
            i <= TRACEPARENT_LEN,
            bytes@.len() == TRACEPARENT_LEN,
            text@.len() == TRACEPARENT_LEN,
            forall|j: int| 0 <= j < text@.len() ==> bytes@[j] as int == (#[trigger] text@[j]) as int,
            forall|j: int| 0 <= j < i ==> fits_place(#[trigger] text@[j], j),
        decreases TRACEPARENT_LEN - i,
    {
        if !byte_fits_place(bytes[i], i, Ghost(text@[i as int])) {
            return false;
        }
        i += 1;
    }
    true
}

} // verus!
