//! Percent-encoding of a URL query component, and what decoding gives back.

use vstd::prelude::*;
use vstd::utf8::encode_utf8;

verus! {

/// The bytes that percent-encoding leaves as they are: ASCII letters and
/// digits, `-`, `.`, `_` and `~`.
pub open spec fn is_unreserved(byte: u8) -> bool {
    ||| 0x30 <= byte <= 0x39
    ||| 0x41 <= byte <= 0x5a
    ||| 0x61 <= byte <= 0x7a
    ||| byte == 0x2d
    ||| byte == 0x2e
    ||| byte == 0x5f
    ||| byte == 0x7e
}

/// The upper-case hexadecimal digit of a value below 16.
pub open spec fn hex_digit(value: int) -> char
    recommends
        0 <= value < 16,
{
    if value < 10 {
        (0x30 + value) as char
    } else {
        (0x41 + value - 10) as char
    }
}

/// One byte, percent-encoded: itself where it is unreserved, else `%` and its
/// two hexadecimal digits.
pub open spec fn escaped_byte(byte: u8) -> Seq<char> {
    if is_unreserved(byte) {
        seq![byte as char]
    } else {
        seq!['%', hex_digit(byte as int / 16), hex_digit(byte as int % 16)]
    }
}

/// A byte string, percent-encoded byte by byte.
pub open spec fn percent_encoded(bytes: Seq<u8>) -> Seq<char>
    decreases bytes.len(),
{
    if bytes.len() == 0 {
        Seq::empty()
    } else {
        escaped_byte(bytes[0]) + percent_encoded(bytes.drop_first())
    }
}

/// The value of a hexadecimal digit of either case; 0 for any other character.
pub open spec fn hex_value(digit: char) -> int {
    if '0' <= digit <= '9' {
        digit as int - 0x30
    } else if 'A' <= digit <= 'F' {
        digit as int - 0x41 + 10
    } else if 'a' <= digit <= 'f' {
        digit as int - 0x61 + 10
    } else {
        0
    }
}

/// Percent-decoding: `%` with two characters behind it stands for the byte
/// that they spell in hexadecimal, any other character for itself.
pub open spec fn percent_decoded(text: Seq<char>) -> Seq<u8>
    decreases text.len(),
{
    if text.len() == 0 {
        Seq::empty()
    } else if text[0] == '%' && text.len() >= 3 {
        seq![(hex_value(text[1]) * 16 + hex_value(text[2])) as u8] + percent_decoded(text.skip(3))
    } else {
        seq![text[0] as u8] + percent_decoded(text.skip(1))
    }
}

/// The text up to the first `stop`, or all of it where `stop` does not occur.
pub open spec fn text_before(text: Seq<char>, stop: char) -> Seq<char>
    decreases text.len(),
{
    if text.len() == 0 || text[0] == stop {
        Seq::empty()
    } else {
        seq![text[0]] + text_before(text.drop_first(), stop)
    }
}

/// Decoding gives back the bytes that were encoded.
pub proof fn lemma_percent_round_trip(bytes: Seq<u8>)
    ensures
        percent_decoded(percent_encoded(bytes)) == bytes,
    decreases bytes.len(),
{
    if bytes.len() > 0 {
        let first = bytes[0];
        let rest = bytes.drop_first();
        let text = percent_encoded(bytes);
        lemma_percent_round_trip(rest);
        if is_unreserved(first) {
            assert(text[0] == first as char);
            assert(text[0] != '%');
            assert(text.skip(1) =~= percent_encoded(rest));
            assert(text[0] as u8 == first);
        } else {
            let high = first as int / 16;
            let low = first as int % 16;
            assert(text[0] == '%' && text[1] == hex_digit(high) && text[2] == hex_digit(low));
            assert(text.skip(3) =~= percent_encoded(rest));
            assert(hex_value(hex_digit(high)) == high);
            assert(hex_value(hex_digit(low)) == low);
        }
        assert(percent_decoded(text) =~= seq![first] + percent_decoded(percent_encoded(rest)));
    }
}

/// Encoded text holds no `&`: the byte of `&` is not unreserved, and neither
/// `%` nor a hexadecimal digit is one.
pub proof fn lemma_encoded_has_no_ampersand(bytes: Seq<u8>)
    ensures
        forall|i: int|
            0 <= i < percent_encoded(bytes).len() ==> #[trigger] percent_encoded(bytes)[i] != '&',
    decreases bytes.len(),
{
    if bytes.len() > 0 {
        let head = escaped_byte(bytes[0]);
        let tail = percent_encoded(bytes.drop_first());
        lemma_encoded_has_no_ampersand(bytes.drop_first());
        assert forall|i: int| 0 <= i < percent_encoded(bytes).len() implies #[trigger] percent_encoded(
            bytes,
        )[i] != '&' by {
            if i < head.len() {
                assert(percent_encoded(bytes)[i] == head[i]);
            } else {
                assert(percent_encoded(bytes)[i] == tail[i - head.len()]);
            }
        }
    }
}

/// Where `text` holds no `stop` and what follows it is empty or begins with
/// `stop`, the text before the first `stop` of the two together is `text`.
pub proof fn lemma_text_before_prefix(text: Seq<char>, rest: Seq<char>, stop: char)
    requires
        forall|i: int| 0 <= i < text.len() ==> #[trigger] text[i] != stop,
        rest.len() == 0 || rest[0] == stop,
    ensures
        text_before(text + rest, stop) == text,
    decreases text.len(),
{
    if text.len() == 0 {
        assert(text + rest =~= rest);
    } else {
        let whole = text + rest;
        assert(whole[0] == text[0]);
        assert(whole.drop_first() =~= text.drop_first() + rest);
        assert forall|i: int| 0 <= i < text.drop_first().len() implies #[trigger] text.drop_first()[i]
            != stop by {
            assert(text.drop_first()[i] == text[i + 1]);
        }
        lemma_text_before_prefix(text.drop_first(), rest, stop);
        assert(text =~= seq![text[0]] + text.drop_first());
    }
}

/// `urlencoding::encode`: the UTF-8 bytes of `text`, each left alone where it
/// is unreserved and written as `%` with two upper-case hexadecimal digits
/// where it is not.
#[verifier::external_body]
pub(crate) fn percent_encode(text: &str) -> (encoded: String)
    ensures
        encoded@ == percent_encoded(encode_utf8(text@)),
{
    urlencoding::encode(text).into_owned()
}

} // verus!
