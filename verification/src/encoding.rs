//! The `application/x-www-form-urlencoded` encoding of bytes, as a
//! mathematical model, and the proof that decoding undoes encoding.

use vstd::prelude::*;

verus! {

/// The bytes that the encoding leaves as they are: `*`, `-`, `.`, `_`, the
/// ASCII digits and the ASCII letters.
pub open spec fn is_unreserved(b: u8) -> bool {
    b == 0x2A || b == 0x2D || b == 0x2E || b == 0x5F || (0x30 <= b <= 0x39) || (0x41 <= b <= 0x5A)
        || (0x61 <= b <= 0x7A)
}

/// The sixteen hexadecimal digits, upper case.
pub open spec fn hex_digits() -> Seq<char> {
    seq!['0', '1', '2', '3', '4', '5', '6', '7', '8', '9', 'A', 'B', 'C', 'D', 'E', 'F']
}

/// The value of a hexadecimal digit of either case, if `c` is one.
pub open spec fn hex_value(c: char) -> Option<int> {
    if '0' <= c <= '9' {
        Some(c as int - '0' as int)
    } else if 'A' <= c <= 'F' {
        Some(c as int - 'A' as int + 10)
    } else if 'a' <= c <= 'f' {
        Some(c as int - 'a' as int + 10)
    } else {
        None
    }
}

/// What one byte becomes: itself if unreserved, `+` for a space, and
/// otherwise `%` with its two upper-case hexadecimal digits.
pub open spec fn encode_byte(b: u8) -> Seq<char> {
    if is_unreserved(b) {
        seq![b as char]
    } else if b == 0x20 {
        seq!['+']
    } else {
        seq!['%', hex_digits()[b as int / 16], hex_digits()[b as int % 16]]
    }
}

/// The encoding of a byte string: the encodings of its bytes, in order.
pub open spec fn form_encode(bytes: Seq<u8>) -> Seq<char>
    decreases bytes.len(),
{
    if bytes.len() == 0 {
        Seq::empty()
    } else {
        encode_byte(bytes[0]) + form_encode(bytes.skip(1))
    }
}

/// The decoding of a query component: `+` is a space, `%` followed by two
/// hexadecimal digits is the byte they spell, anything else stands for itself.
pub open spec fn form_decode(text: Seq<char>) -> Seq<u8>
    decreases text.len(),
{
    if text.len() == 0 {
        Seq::empty()
    } else if text[0] == '%' && text.len() >= 3 && hex_value(text[1]) is Some && hex_value(
        text[2],
    ) is Some {
        seq![(hex_value(text[1])->0 * 16 + hex_value(text[2])->0) as u8] + form_decode(text.skip(3))
    } else if text[0] == '+' {
        seq![0x20u8] + form_decode(text.skip(1))
    } else {
        seq![text[0] as u8] + form_decode(text.skip(1))
    }
}

/// A character that may occur in encoded text.
pub open spec fn is_encoded_char(c: char) -> bool {
    c == '+' || c == '%' || (c as int <= 0x7A && is_unreserved(c as u8))
}

/// Decoding the encoding of one byte, followed by any text, gives the byte
/// followed by the decoding of that text.
proof fn lemma_decode_step(b: u8, rest: Seq<char>)
    ensures
        form_decode(encode_byte(b) + rest) == seq![b] + form_decode(rest),
{
    let text = encode_byte(b) + rest;
    if is_unreserved(b) {
        assert(text[0] == b as char);
        assert(text.skip(1) =~= rest);
    } else if b == 0x20 {
        assert(text[0] == '+');
        assert(text.skip(1) =~= rest);
    } else {
        let hi = b as int / 16;
        let lo = b as int % 16;
        assert(text[0] == '%');
        assert(text[1] == hex_digits()[hi]);
        assert(text[2] == hex_digits()[lo]);
        assert(hex_value(hex_digits()[hi]) == Some(hi));
        assert(hex_value(hex_digits()[lo]) == Some(lo));
        assert(text.skip(3) =~= rest);
        assert((hi * 16 + lo) as u8 == b);
    }
}

/// Decoding undoes encoding: whatever bytes a term holds, reserved
/// characters such as spaces, `&` and `=` among them, reading its encoded
/// form back yields exactly those bytes.
pub proof fn lemma_decode_encode(bytes: Seq<u8>)
    ensures
        form_decode(form_encode(bytes)) == bytes,
    decreases bytes.len(),
{
    if bytes.len() > 0 {
        let rest = bytes.skip(1);
        lemma_decode_encode(rest);
        lemma_decode_step(bytes[0], form_encode(rest));
        assert(seq![bytes[0]] + rest =~= bytes);
    }
}

/// Encoded text holds only unreserved characters, `+` and `%`; in particular
/// none of the separators `&`, `=`, `?` and `#` of an address.
pub proof fn lemma_encode_chars(bytes: Seq<u8>, i: int)
    requires
        0 <= i < form_encode(bytes).len(),
    ensures
        is_encoded_char(form_encode(bytes)[i]),
        form_encode(bytes)[i] != '&',
        form_encode(bytes)[i] != '=',
        form_encode(bytes)[i] != '?',
        form_encode(bytes)[i] != '#',
    decreases bytes.len(),
{
    let head = encode_byte(bytes[0]);
    if i >= head.len() {
        lemma_encode_chars(bytes.skip(1), i - head.len());
    } else if !is_unreserved(bytes[0]) && bytes[0] != 0x20 {
        let hi = bytes[0] as int / 16;
        let lo = bytes[0] as int % 16;
        assert(is_encoded_char(hex_digits()[hi]));
        assert(is_encoded_char(hex_digits()[lo]));
    }
}

} // verus!
