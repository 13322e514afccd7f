//! The signature of a request: HMAC-SHA256 over the timestamp and the
//! secret, in base64, percent-encoded for the URL.

use vstd::prelude::*;
use vstd::string::StringExecFns;
use vstd::utf8::decode_utf8;
use vstd::utf8::encode_utf8;
use vstd::utf8::encode_utf8_decode_utf8;
use vstd::utf8::is_ascii_chars;
use vstd::utf8::is_ascii_chars_encode_utf8;

use crate::decimal::decimal;
use crate::decimal::decimal_string;
use crate::decimal::digit_count;
use crate::decimal::lemma_decimal_digits;
use crate::decimal::lemma_decimal_injective;
use crate::percent::lemma_percent_round_trip;
use crate::percent::percent_decoded;
use crate::percent::percent_encode;
use crate::percent::percent_encoded;

verus! {

/// The HMAC-SHA256 code of `message` under `key`: the 32 bytes that
/// rust-crypto's `Hmac<Sha256>` computes.
pub uninterp spec fn hmac_sha256_code(key: Seq<u8>, message: Seq<u8>) -> Seq<u8>;

/// The text that `base64::encode` gives for `bytes`: standard alphabet, padded.
pub uninterp spec fn base64_text(bytes: Seq<u8>) -> Seq<char>;

/// The length below which a key and a message are accepted: 2^60 bytes.
///
/// rust-crypto's SHA-256 counts the bits of its input in a 64-bit integer
/// and stops the program when one hash is fed 2^61 bytes or more. HMAC feeds
/// a hash the key alone, or 64 bytes and the message.
pub open spec fn hmac_input_limit() -> int {
    0x1000_0000_0000_0000
}

/// `Hmac::new(Sha256::new(), key)`, `input(message)`, `result().code()` of
/// rust-crypto: the HMAC-SHA256 code of the message under the key, which is 32
/// bytes long. Key and message stay below [`hmac_input_limit`].
#[verifier::external_body]
pub(crate) fn calc_hmac_sha256(key: &[u8], message: &[u8]) -> (code: Vec<u8>)
    requires
        key@.len() < hmac_input_limit(),
        message@.len() < hmac_input_limit(),
    ensures
        code@ == hmac_sha256_code(key@, message@),
        code@.len() == 32,
{
    let mut hmac = crypto::hmac::Hmac::new(crypto::sha2::Sha256::new(), key);
    crypto::mac::Mac::input(&mut hmac, message);
    crypto::mac::Mac::result(&mut hmac).code().to_vec()
}

/// `base64::encode`: the bytes in base64, four characters for every started
/// group of three bytes. The call stops the program where the length of its
/// result does not fit in `usize`, so the input is bounded.
#[verifier::external_body]
pub(crate) fn base64_encode(bytes: &[u8]) -> (text: String)
    requires
        bytes@.len() <= 0x4000_0000,
    ensures
        text@ == base64_text(bytes@),
        text@.len() == 4 * ((bytes@.len() + 2) / 3),
{
    base64::encode(bytes)
}

/// What is signed: the timestamp in decimal, a line feed, the secret.
pub open spec fn string_to_sign(secret: Seq<char>, timestamp_millis: nat) -> Seq<char> {
    decimal(timestamp_millis) + seq!['\n'] + secret
}

/// The signature as it stands in the URL: the HMAC-SHA256 code of the string
/// to sign under the secret, in base64, percent-encoded.
pub open spec fn signature(secret: Seq<char>, timestamp_millis: nat) -> Seq<char> {
    percent_encoded(
        encode_utf8(
            base64_text(
                hmac_sha256_code(
                    encode_utf8(secret),
                    encode_utf8(string_to_sign(secret, timestamp_millis)),
                ),
            ),
        ),
    )
}

/// A secret that can be signed with: in UTF-8 it is shorter than 2^59 bytes,
/// so that it stays, together with the longest timestamp, under the limit of
/// the hash.
pub open spec fn signable(secret: Seq<char>) -> bool {
    encode_utf8(secret).len() < 0x0800_0000_0000_0000
}

/// UTF-8 encodes a text piece by piece.
pub proof fn lemma_encode_utf8_concat(first: Seq<char>, second: Seq<char>)
    ensures
        encode_utf8(first + second) == encode_utf8(first) + encode_utf8(second),
    decreases first.len(),
{
    if first.len() == 0 {
        assert(first + second =~= second);
        assert(encode_utf8(first) + encode_utf8(second) =~= encode_utf8(second));
    } else {
        lemma_encode_utf8_concat(first.drop_first(), second);
        assert((first + second).drop_first() =~= first.drop_first() + second);
        assert((first + second)[0] == first[0]);
        assert(encode_utf8(first + second) =~= encode_utf8(first) + encode_utf8(second));
    }
}

/// A number below 2^128 has at most 39 digits.
proof fn lemma_digit_count_bound(number: nat)
    requires
        number <= u128::MAX,
    ensures
        digit_count(number) <= 39,
{
    reveal_with_fuel(digit_count, 40);
}

/// The string to sign is at most 40 bytes longer than the secret.
proof fn lemma_string_to_sign_length(secret: Seq<char>, timestamp_millis: nat)
    requires
        timestamp_millis <= u128::MAX,
    ensures
        encode_utf8(string_to_sign(secret, timestamp_millis)).len() <= encode_utf8(secret).len()
            + 40,
{
    let head = decimal(timestamp_millis) + seq!['\n'];
    lemma_decimal_digits(timestamp_millis);
    lemma_digit_count_bound(timestamp_millis);
    assert(is_ascii_chars(head));
    is_ascii_chars_encode_utf8(head);
    lemma_encode_utf8_concat(head, secret);
}

/// Different timestamps give different strings to sign, whatever the secret.
pub proof fn lemma_string_to_sign_injective(secret: Seq<char>, first: nat, second: nat)
    requires
        first != second,
    ensures
        string_to_sign(secret, first) != string_to_sign(secret, second),
{
    let a = decimal(first);
    let b = decimal(second);
    if string_to_sign(secret, first) == string_to_sign(secret, second) {
        lemma_decimal_digits(first);
        lemma_decimal_digits(second);
        assert(string_to_sign(secret, first).len() == a.len() + 1 + secret.len());
        assert(string_to_sign(secret, second).len() == b.len() + 1 + secret.len());
        assert(a =~= string_to_sign(secret, first).subrange(0, a.len() as int));
        assert(b =~= string_to_sign(secret, second).subrange(0, b.len() as int));
        lemma_decimal_injective(first, second);
    }
}

/// The signature is a function of the secret and the timestamp: the same two
/// always give the same signature.
pub proof fn lemma_signature_deterministic(
    secret: Seq<char>,
    timestamp_millis: nat,
    again: Seq<char>,
    again_millis: nat,
)
    requires
        secret == again,
        timestamp_millis == again_millis,
    ensures
        signature(secret, timestamp_millis) == signature(again, again_millis),
{
}

/// What is signed for a timestamp: the timestamp in decimal, a line feed and
/// the secret.
pub fn signing_text(secret: &str, timestamp_millis: u128) -> (text: String)
    ensures
        text@ == string_to_sign(secret@, timestamp_millis as nat),
{
    let mut text = decimal_string(timestamp_millis);
    text.append("\n");
    text.append(secret);
    proof {
        reveal_strlit("\n");
        assert("\n"@ =~= seq!['\n']);
    }
    text
}

/// Signs a timestamp with a secret.
///
/// The result is the signature of exactly these two arguments, so two calls
/// with the same secret and timestamp return the same text. Percent-decoded,
/// it is a base64 text of 44 characters, as 32 bytes give.
pub fn sign(secret: &str, timestamp_millis: u128) -> (text: String)
    requires
        signable(secret@),
    ensures
        text@ == signature(secret@, timestamp_millis as nat),
        decode_utf8(percent_decoded(text@)).len() == 44,
{
    let to_sign = signing_text(secret, timestamp_millis);
    proof {
        lemma_string_to_sign_length(secret@, timestamp_millis as nat);
    }
    let code = calc_hmac_sha256(secret.as_bytes(), to_sign.as_str().as_bytes());
    let text = base64_encode(code.as_slice());
    proof {
        lemma_percent_round_trip(encode_utf8(text@));
        encode_utf8_decode_utf8(text@);
    }
    percent_encode(text.as_str())
}

} // verus!
