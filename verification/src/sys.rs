//! Plain values in the form in which the video driver takes them.

use vstd::prelude::*;
use vstd::string::StrSliceExecFns;
use vstd::utf8::{char_is_scalar, encode_scalar, encode_utf8};

verus! {

/// A colour as four channels: red, green, blue and alpha.
#[derive(Debug, Copy, Clone)]
pub struct Color {
    pub r: u8,
    pub g: u8,
    pub b: u8,
    pub a: u8,
}

/// Whether `text` holds the null character. The driver reads a text as
/// ending at the first null byte, so such a text cannot be handed to it
/// whole.
pub open spec fn has_nul(text: Seq<char>) -> bool {
    text.contains('\0')
}

/// The form in which the driver takes `text`: its UTF-8 bytes, then one
/// null byte.
pub open spec fn terminated(text: Seq<char>) -> Seq<u8> {
    encode_utf8(text).push(0u8)
}

proof fn lemma_scalar_bytes(c: u32)
    by (bit_vector)
    requires
        c <= 0x10FFFF,
    ensures
        c <= 0x7F ==> ((c & 0x7F) as u8 == 0u8 <==> c == 0),
        0xC0u8 | ((c >> 6) & 0x1F) as u8 != 0u8,
        0xE0u8 | ((c >> 12) & 0x0F) as u8 != 0u8,
        0xF0u8 | ((c >> 18) & 0x7) as u8 != 0u8,
        0x80u8 | (c & 0x3F) as u8 != 0u8,
        0x80u8 | ((c >> 6) & 0x3F) as u8 != 0u8,
        0x80u8 | ((c >> 12) & 0x3F) as u8 != 0u8,
{
}

/// Only the null character has a null byte in its encoding.
proof fn lemma_char_bytes(c: char)
    ensures
        encode_scalar(c as u32).contains(0u8) <==> c == '\0',
{
    let v = c as u32;
    char_is_scalar(c);
    lemma_scalar_bytes(v);
    let bytes = encode_scalar(v);
    if c == '\0' {
        assert(bytes[0] == 0u8);
    } else {
        assert(forall|i: int| 0 <= i < bytes.len() ==> bytes[i] != 0u8);
    }
}

/// The UTF-8 bytes of a text hold a null byte exactly if the text holds the
/// null character.
pub proof fn law_nul_byte_is_nul_char(text: Seq<char>)
    ensures
        encode_utf8(text).contains(0u8) <==> has_nul(text),
    decreases text.len(),
{
    if text.len() > 0 {
        let head = encode_scalar(text[0] as u32);
        let tail = encode_utf8(text.drop_first());
        lemma_char_bytes(text[0]);
        law_nul_byte_is_nul_char(text.drop_first());
        if has_nul(text) {
            let i = choose|i: int| 0 <= i < text.len() && text[i] == '\0';
            if i == 0 {
                let j = choose|j: int| 0 <= j < head.len() && head[j] == 0u8;
                assert((head + tail)[j] == 0u8);
            } else {
                assert(text.drop_first()[i - 1] == '\0');
                let j = choose|j: int| 0 <= j < tail.len() && tail[j] == 0u8;
                assert((head + tail)[head.len() + j] == 0u8);
            }
        }
        if encode_utf8(text).contains(0u8) {
            let j = choose|j: int| 0 <= j < (head + tail).len() && (head + tail)[j] == 0u8;
            if j < head.len() {
                assert(head[j] == 0u8);
                assert(text[0] == '\0');
            } else {
                assert(tail[j - head.len()] == 0u8);
                let i = choose|i: int|
                    0 <= i < text.drop_first().len() && text.drop_first()[i] == '\0';
                assert(text[i + 1] == '\0');
            }
        }
    }
}

/// The null-terminated form of a text without the null character ends with
/// a null byte and holds no other, so that the driver reads the text whole.
pub proof fn law_terminated_ends_at_its_only_nul(text: Seq<char>)
    requires
        !has_nul(text),
    ensures
        terminated(text).len() == encode_utf8(text).len() + 1,
        terminated(text).last() == 0u8,
        forall|i: int| 0 <= i < terminated(text).len() - 1 ==> terminated(text)[i] != 0u8,
{
    law_nul_byte_is_nul_char(text);
}

/// The null-terminated form of `text`, for a driver that reads a text up to
/// its first null byte. A text that holds the null character has none.
pub fn c_string(text: &str) -> (out: Option<Vec<u8>>)
    ensures
        out is None <==> has_nul(text@),
        out matches Some(bytes) ==> bytes@ == terminated(text@),
{
    let mut bytes = text.as_bytes_vec();
    let mut i: usize = 0;
    while i < bytes.len()
        invariant
            i <= bytes.len(),
            bytes@ == encode_utf8(text@),
            forall|j: int| 0 <= j < i ==> bytes[j] != 0u8,
        decreases bytes.len() - i,
    {
        if bytes[i] == 0 {
            proof {
                law_nul_byte_is_nul_char(text@);
            }
            return None;
        }
        i += 1;
    }
    proof {
        law_nul_byte_is_nul_char(text@);
    }
    bytes.push(0);
    Some(bytes)
}

} // verus!
