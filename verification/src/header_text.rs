//! Which texts a header value can hold, said of the characters of the text
//! rather than of the bytes it is encoded with.

use crate::header::{
    header_byte_accepted, header_byte_visible, header_bytes_accepted, header_bytes_visible,
};
use vstd::prelude::*;
use vstd::utf8::{char_is_scalar, encode_scalar, encode_utf8, has_width_1_encoding};

verus! {

/// A character that a header value can be made with: any character but the
/// control characters of ASCII, and the tab.
pub open spec fn header_char_accepted(c: char) -> bool {
    (c >= ' ' && c != '\u{7f}') || c == '\t'
}

/// A character that is read back from a header value as text: visible
/// ASCII, the blank and the tab.
pub open spec fn header_char_visible(c: char) -> bool {
    (' ' <= c <= '~') || c == '\t'
}

/// A header value can be made with `text`.
pub open spec fn header_text_accepted(text: Seq<char>) -> bool {
    forall|i: int| 0 <= i < text.len() ==> header_char_accepted(#[trigger] text[i])
}

/// A header value that holds `text` can be read back as text.
pub open spec fn header_text_visible(text: Seq<char>) -> bool {
    forall|i: int| 0 <= i < text.len() ==> header_char_visible(#[trigger] text[i])
}

/// The one byte of a character of ASCII is its code.
proof fn lemma_single_byte(s: u32)
    by (bit_vector)
    requires
        s <= 0x7F,
    ensures
        (s & 0x7F) as u8 == s as u8,
        s as u8 <= 0x7F,
        s >= 32 <==> s as u8 >= 32,
        s == 127 <==> s as u8 == 127,
        s == 9 <==> s as u8 == 9,
{
}

/// Every byte of a character beyond ASCII is 128 or more.
proof fn lemma_high_bytes(s: u32)
    by (bit_vector)
    ensures
        (0xC0 | ((s >> 6) & 0x1F) as u8) >= 0x80u8,
        (0xE0 | ((s >> 12) & 0x0F) as u8) >= 0x80u8,
        (0xF0 | ((s >> 18) & 0x7) as u8) >= 0x80u8,
        (0x80 | (s & 0x3F) as u8) >= 0x80u8,
        (0x80 | ((s >> 6) & 0x3F) as u8) >= 0x80u8,
        (0x80 | ((s >> 12) & 0x3F) as u8) >= 0x80u8,
{
}

/// The bytes of one character are accepted exactly when the character is,
/// and visible exactly when the character is.
proof fn lemma_char_bytes(c: char)
    ensures
        header_bytes_accepted(encode_scalar(c as u32)) <==> header_char_accepted(c),
        header_bytes_visible(encode_scalar(c as u32)) <==> header_char_visible(c),
        encode_scalar(c as u32).len() >= 1,
{
    let s = c as u32;
    let bytes = encode_scalar(s);
    char_is_scalar(c);
    lemma_high_bytes(s);
    if has_width_1_encoding(s) {
        lemma_single_byte(s);
        assert(bytes[0] == s as u8);
        assert(bytes.len() == 1);
        assert(header_byte_accepted(bytes[0]) <==> header_char_accepted(c));
        assert(header_byte_visible(bytes[0]) <==> header_char_visible(c));
    } else {
        assert(s >= 0x80);
        assert(header_char_accepted(c));
        assert(!header_char_visible(c));
        assert(bytes[0] >= 0x80);
        assert(!header_byte_visible(bytes[0]));
        assert forall|i: int| 0 <= i < bytes.len() implies header_byte_accepted(
            #[trigger] bytes[i],
        ) by {
            assert(bytes[i] >= 0x80);
        }
    }
}

/// A header value can be made with a text exactly when each of its
/// characters is accepted: the bytes of the text are accepted exactly then.
pub proof fn lemma_accepted_text(text: Seq<char>)
    ensures
        header_bytes_accepted(encode_utf8(text)) <==> header_text_accepted(text),
    decreases text.len(),
{
    if text.len() > 0 {
        let first = encode_scalar(text[0] as u32);
        let rest = encode_utf8(text.drop_first());
        let bytes = encode_utf8(text);
        assert(bytes == first + rest);
        lemma_char_bytes(text[0]);
        lemma_accepted_text(text.drop_first());
        if header_bytes_accepted(bytes) {
            assert forall|i: int| 0 <= i < first.len() implies header_byte_accepted(
                #[trigger] first[i],
            ) by {
                assert(first[i] == bytes[i]);
            }
            assert forall|i: int| 0 <= i < rest.len() implies header_byte_accepted(
                #[trigger] rest[i],
            ) by {
                assert(rest[i] == bytes[i + first.len()]);
            }
            assert forall|i: int| 0 <= i < text.len() implies header_char_accepted(
                #[trigger] text[i],
            ) by {
                if i > 0 {
                    assert(text[i] == text.drop_first()[i - 1]);
                }
            }
        }
        if header_text_accepted(text) {
            assert forall|i: int| 0 <= i < text.drop_first().len() implies header_char_accepted(
                #[trigger] text.drop_first()[i],
            ) by {
                assert(text.drop_first()[i] == text[i + 1]);
            }
            assert forall|i: int| 0 <= i < bytes.len() implies header_byte_accepted(
                #[trigger] bytes[i],
            ) by {
                if i < first.len() {
                    assert(bytes[i] == first[i]);
                } else {
                    assert(bytes[i] == rest[i - first.len()]);
                }
            }
        }
    }
}

/// A header value that holds a text can be read back as text exactly when
/// each of its characters is visible: the bytes of the text are visible
/// exactly then.
pub proof fn lemma_visible_text(text: Seq<char>)
    ensures
        header_bytes_visible(encode_utf8(text)) <==> header_text_visible(text),
    decreases text.len(),
{
    if text.len() > 0 {
        let first = encode_scalar(text[0] as u32);
        let rest = encode_utf8(text.drop_first());
        let bytes = encode_utf8(text);
        assert(bytes == first + rest);
        lemma_char_bytes(text[0]);
        lemma_visible_text(text.drop_first());
        if header_bytes_visible(bytes) {
            assert forall|i: int| 0 <= i < first.len() implies header_byte_visible(
                #[trigger] first[i],
            ) by {
                assert(first[i] == bytes[i]);
            }
            assert forall|i: int| 0 <= i < rest.len() implies header_byte_visible(
                #[trigger] rest[i],
            ) by {
                assert(rest[i] == bytes[i + first.len()]);
            }
            assert forall|i: int| 0 <= i < text.len() implies header_char_visible(
                #[trigger] text[i],
            ) by {
                if i > 0 {
                    assert(text[i] == text.drop_first()[i - 1]);
                }
            }
        }
        if header_text_visible(text) {
            assert forall|i: int| 0 <= i < text.drop_first().len() implies header_char_visible(
                #[trigger] text.drop_first()[i],
            ) by {
                assert(text.drop_first()[i] == text[i + 1]);
            }
            assert forall|i: int| 0 <= i < bytes.len() implies header_byte_visible(
                #[trigger] bytes[i],
            ) by {
                if i < first.len() {
                    assert(bytes[i] == first[i]);
                } else {
                    assert(bytes[i] == rest[i - first.len()]);
                }
            }
        }
    }
}

} // verus!
