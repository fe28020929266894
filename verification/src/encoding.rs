//! The `application/x-www-form-urlencoded` form of a text: what a name or a
//! value of a query string looks like once it has been written into a URL.

use crate::text::{lemma_absent, occurrences};
use vstd::prelude::*;
use vstd::utf8::encode_utf8;

verus! {

broadcast use vstd::slice::group_slice_axioms;

/// Whether the serializer writes a byte as it is: `*`, `-`, `.`, `_`, a digit
/// or an ASCII letter.
pub open spec fn kept(byte: u8) -> bool {
    ||| byte == 0x2A
    ||| byte == 0x2D
    ||| byte == 0x2E
    ||| byte == 0x5F
    ||| 0x30 <= byte <= 0x39
    ||| 0x41 <= byte <= 0x5A
    ||| 0x61 <= byte <= 0x7A
}

/// The upper-case hexadecimal digit of a value below sixteen.
pub open spec fn hex_digit(nibble: int) -> char {
    seq!['0', '1', '2', '3', '4', '5', '6', '7', '8', '9', 'A', 'B', 'C', 'D', 'E', 'F'][nibble]
}

/// One byte as the serializer writes it: itself, `+` for a space, or `%` and
/// two hexadecimal digits.
pub open spec fn encoded_byte(byte: u8) -> Seq<char> {
    if kept(byte) {
        seq![byte as char]
    } else if byte == 0x20 {
        seq!['+']
    } else {
        seq!['%', hex_digit(byte as int / 16), hex_digit(byte as int % 16)]
    }
}

/// A run of bytes as the serializer writes it, byte by byte.
pub open spec fn encoded_bytes(bytes: Seq<u8>) -> Seq<char>
    decreases bytes.len(),
{
    if bytes.len() == 0 {
        Seq::empty()
    } else {
        encoded_bytes(bytes.drop_last()) + encoded_byte(bytes.last())
    }
}

/// A text in form-urlencoded spelling: its UTF-8 bytes, each written by
/// [`encoded_byte`].
pub open spec fn form_encoded(text: Seq<char>) -> Seq<char> {
    encoded_bytes(encode_utf8(text))
}

/// The characters that a form-urlencoded text is made of.
pub open spec fn is_encoded_char(c: char) -> bool {
    ||| c == '*'
    ||| c == '-'
    ||| c == '.'
    ||| c == '_'
    ||| c == '+'
    ||| c == '%'
    ||| '0' <= c <= '9'
    ||| 'A' <= c <= 'Z'
    ||| 'a' <= c <= 'z'
}

/// Every character that stands for a byte is one of the encoded characters.
pub proof fn lemma_encoded_byte_chars(byte: u8)
    ensures
        1 <= encoded_byte(byte).len() <= 3,
        forall|i: int|
            0 <= i < encoded_byte(byte).len() ==> is_encoded_char(#[trigger] encoded_byte(byte)[i]),
{
    if !kept(byte) && byte != 0x20 {
        let high = byte as int / 16;
        let low = byte as int % 16;
        assert(0 <= high < 16 && 0 <= low < 16);
        assert(is_encoded_char(hex_digit(high)));
        assert(is_encoded_char(hex_digit(low)));
    }
}

/// A form-urlencoded text holds encoded characters only. None of them is
/// `&`, `=`, `?` or `#`, so within a query string the text stays in one piece.
pub proof fn lemma_form_encoded_chars(text: Seq<char>)
    ensures
        forall|i: int|
            0 <= i < form_encoded(text).len() ==> is_encoded_char(#[trigger] form_encoded(text)[i]),
{
    lemma_encoded_bytes_chars(encode_utf8(text));
}

/// The same for any run of bytes.
pub proof fn lemma_encoded_bytes_chars(bytes: Seq<u8>)
    ensures
        forall|i: int|
            0 <= i < encoded_bytes(bytes).len() ==> is_encoded_char(
                #[trigger] encoded_bytes(bytes)[i],
            ),
    decreases bytes.len(),
{
    if bytes.len() > 0 {
        let front = encoded_bytes(bytes.drop_last());
        let back = encoded_byte(bytes.last());
        lemma_encoded_bytes_chars(bytes.drop_last());
        lemma_encoded_byte_chars(bytes.last());
        assert forall|i: int| 0 <= i < encoded_bytes(bytes).len() implies is_encoded_char(
            #[trigger] encoded_bytes(bytes)[i],
        ) by {
            if i < front.len() {
                assert(encoded_bytes(bytes)[i] == front[i]);
            } else {
                assert(encoded_bytes(bytes)[i] == back[i - front.len()]);
            }
        }
    }
}

/// The characters that the serializer writes as they are.
pub open spec fn is_kept_char(c: char) -> bool {
    ||| c == '*'
    ||| c == '-'
    ||| c == '.'
    ||| c == '_'
    ||| '0' <= c <= '9'
    ||| 'A' <= c <= 'Z'
    ||| 'a' <= c <= 'z'
}

/// Whether a text is made of such characters only.
pub open spec fn is_plain(text: Seq<char>) -> bool {
    forall|i: int| 0 <= i < text.len() ==> is_kept_char(#[trigger] text[i])
}

/// A text of letters, digits, `*`, `-`, `.` and `_` is its own encoding.
pub proof fn lemma_plain_text_is_kept(text: Seq<char>)
    requires
        is_plain(text),
    ensures
        form_encoded(text) == text,
{
    let bytes = encode_utf8(text);
    assert forall|i: int| 0 <= i < text.len() implies '\0' <= #[trigger] text[i] <= '\u{7f}' by {
        assert(is_kept_char(text[i]));
    }
    vstd::utf8::is_ascii_chars_encode_utf8(text);
    assert forall|i: int| 0 <= i < bytes.len() implies kept(#[trigger] bytes[i]) && bytes[i] as char
        == text[i] by {
        assert(is_kept_char(text[i]));
        assert(text[i] as u8 == bytes[i]);
    }
    lemma_kept_bytes(bytes);
    assert(encoded_bytes(bytes) =~= text);
}

/// Bytes that are all written as they are give one character each.
pub proof fn lemma_kept_bytes(bytes: Seq<u8>)
    requires
        forall|i: int| 0 <= i < bytes.len() ==> kept(#[trigger] bytes[i]),
    ensures
        encoded_bytes(bytes).len() == bytes.len(),
        forall|i: int|
            0 <= i < bytes.len() ==> (#[trigger] encoded_bytes(bytes)[i]) == bytes[i] as char,
    decreases bytes.len(),
{
    if bytes.len() > 0 {
        lemma_kept_bytes(bytes.drop_last());
        assert(kept(bytes.last()));
    }
}

/// A character that is none of the encoded characters occurs in no
/// form-urlencoded text.
pub proof fn lemma_absent_from_encoded(text: Seq<char>, c: char)
    requires
        !is_encoded_char(c),
    ensures
        occurrences(form_encoded(text), c) == 0,
{
    lemma_form_encoded_chars(text);
    lemma_absent(form_encoded(text), c);
}

/// A byte takes one character or three.
pub proof fn lemma_encoded_bytes_len(bytes: Seq<u8>)
    ensures
        bytes.len() <= encoded_bytes(bytes).len() <= 3 * bytes.len(),
    decreases bytes.len(),
{
    if bytes.len() > 0 {
        lemma_encoded_bytes_len(bytes.drop_last());
        lemma_encoded_byte_chars(bytes.last());
    }
}

/// Whether the serializer writes a byte as it is.
pub fn is_kept(byte: u8) -> (keeps: bool)
    ensures
        keeps == kept(byte),
{
    byte == 0x2A || byte == 0x2D || byte == 0x2E || byte == 0x5F || (0x30 <= byte && byte <= 0x39)
        || (0x41 <= byte && byte <= 0x5A) || (0x61 <= byte && byte <= 0x7A)
}

/// How long a text is in form-urlencoded spelling.
pub fn encoded_len(text: &str) -> (length: u128)
    ensures
        length == form_encoded(text@).len(),
{
    let bytes: &[u8] = text.as_bytes();
    let mut length: u128 = 0;
    let mut i: usize = 0;
    while i < bytes.len()
        invariant
            i <= bytes.len(),
            bytes@ == encode_utf8(text@),
            length == encoded_bytes(bytes@.take(i as int)).len(),
            length <= 3 * i,
        decreases bytes.len() - i,
    {
        proof {
            assert(bytes@.take(i as int + 1).drop_last() =~= bytes@.take(i as int));
            assert(bytes@.take(i as int + 1).last() == bytes@[i as int]);
        }
        if is_kept(bytes[i]) || bytes[i] == 0x20 {
            length = length + 1;
        } else {
            length = length + 3;
        }
        i = i + 1;
    }
    assert(bytes@.take(i as int) =~= bytes@);
    length
}

} // verus!
