//! JSON values of the `json` crate, and what the library assumes of them.
//!
//! A `json::JsonValue` is opaque to the verifier. Contracts speak of it through
//! [`json_shape`], its contents as a [`JsonTree`]. Every function in this file
//! that is marked `external_body` is believed, not proved: each holds one call
//! into the `json` crate.

use vstd::prelude::*;
use vstd::utf8::encode_utf8;

verus! {

/// The contents of a JSON value.
///
/// A string is its characters, whichever of its two representations
/// (`Short` or `String`) the `json` crate chose for it. A number is the three
/// fields of `json::number::Number`. An object is its members in the order in
/// which they were first inserted, which is the order in which the `json` crate
/// stores, walks and prints them; no key occurs twice.
pub enum JsonTree {
    Null,
    Text(Seq<char>),
    Number { category: u8, mantissa: u64, exponent: i16 },
    Boolean(bool),
    Array(Seq<JsonTree>),
    Object(Seq<(Seq<char>, JsonTree)>),
}

#[verifier::external_type_specification]
#[verifier::external_body]
pub struct ExJsonValue(json::JsonValue);

#[verifier::external_type_specification]
#[verifier::external_body]
pub struct ExJsonError(json::Error);

/// What a `json::JsonValue` holds.
pub uninterp spec fn json_shape(value: json::JsonValue) -> JsonTree;

/// The text that `json::stringify` prints for a value with the given contents.
pub uninterp spec fn json_text(tree: JsonTree) -> Seq<char>;

/// The contents of the value that `json::parse` reads from a text, or `None`
/// where it reports an error. It is spoken of only for texts that
/// [`json_parse`] admits.
pub uninterp spec fn json_parsed(text: Seq<char>) -> Option<JsonTree>;

/// The most digits that the fraction of a number may have for the text to be
/// parsed.
///
/// The parser of the `json` crate lowers an `i16` by one for a digit of a
/// fraction, without a check, so one digit more than this can stop the
/// program. Digits elsewhere do no harm: those of a string are not counted,
/// those before the point and those of an exponent are counted with a check.
pub const MAX_FRACTION_DIGITS: usize = 32768;

/// Where a reader stands in a JSON text, as far as fractions are concerned.
pub struct ScanState {
    /// Inside a string literal.
    pub in_string: bool,
    /// Inside a string literal, just behind a backslash.
    pub escaped: bool,
    /// Outside every string literal, behind a point and nothing but digits.
    pub in_fraction: bool,
    /// How many digits have followed that point.
    pub digits: nat,
}

/// An ASCII decimal digit.
pub open spec fn is_digit_byte(byte: u8) -> bool {
    0x30 <= byte <= 0x39
}

/// The state at the start of a text: outside strings and fractions.
pub open spec fn scan_start() -> ScanState {
    ScanState { in_string: false, escaped: false, in_fraction: false, digits: 0 }
}

/// The state behind one more byte.
///
/// Inside a string a backslash takes the next byte with it, and a quote that
/// is not taken so ends the string. Outside, a quote begins a string, a point
/// begins a fraction, a digit behind a point is counted, and any other byte
/// ends the fraction.
pub open spec fn scan_step(state: ScanState, byte: u8) -> ScanState {
    if state.in_string {
        if state.escaped {
            ScanState { escaped: false, ..state }
        } else if byte == 0x5c {
            ScanState { escaped: true, ..state }
        } else if byte == 0x22 {
            ScanState { in_string: false, ..state }
        } else {
            state
        }
    } else if byte == 0x22 {
        ScanState { in_string: true, escaped: false, in_fraction: false, digits: 0 }
    } else if byte == 0x2e {
        ScanState { in_string: false, escaped: false, in_fraction: true, digits: 0 }
    } else if is_digit_byte(byte) && state.in_fraction {
        ScanState { digits: state.digits + 1, ..state }
    } else if is_digit_byte(byte) {
        state
    } else {
        scan_start()
    }
}

/// The state behind the first `end` bytes.
pub open spec fn scan_state(bytes: Seq<u8>, end: int) -> ScanState
    decreases end,
{
    if end <= 0 {
        scan_start()
    } else {
        scan_step(scan_state(bytes, end - 1), bytes[end - 1])
    }
}

/// Whether no fraction outside the string literals of `bytes` has more than
/// [`MAX_FRACTION_DIGITS`] digits.
pub open spec fn fractions_fit(bytes: Seq<u8>) -> bool {
    forall|end: int|
        0 <= end <= bytes.len() ==> (#[trigger] scan_state(bytes, end)).digits
            <= MAX_FRACTION_DIGITS
}

/// The index of the first member of `members` whose key is `key`, or the
/// number of members where there is none.
pub open spec fn member_index(members: Seq<(Seq<char>, JsonTree)>, key: Seq<char>) -> int
    decreases members.len(),
{
    if members.len() == 0 {
        0
    } else if members[0].0 == key {
        0
    } else {
        1 + member_index(members.drop_first(), key)
    }
}

/// The members of an object after `key` has been set to `value`: an existing
/// member keeps its place and takes the new value, a new one goes to the end.
pub open spec fn with_member(
    members: Seq<(Seq<char>, JsonTree)>,
    key: Seq<char>,
    value: JsonTree,
) -> Seq<(Seq<char>, JsonTree)> {
    let at = member_index(members, key);
    if at < members.len() {
        members.update(at, (key, value))
    } else {
        members.push((key, value))
    }
}

/// The value of the member `key` of an object; null where the object has no
/// such member and where the value is no object at all.
pub open spec fn member_value(tree: JsonTree, key: Seq<char>) -> JsonTree {
    match tree {
        JsonTree::Object(members) => {
            let at = member_index(members, key);
            if at < members.len() {
                members[at].1
            } else {
                JsonTree::Null
            }
        },
        _ => JsonTree::Null,
    }
}

/// Whether an object has a member `key`.
pub open spec fn has_member(tree: JsonTree, key: Seq<char>) -> bool {
    tree is Object && member_index(tree->Object_0, key) < tree->Object_0.len()
}

/// The first member with a given key is where [`member_index`] points.
pub proof fn lemma_member_found(members: Seq<(Seq<char>, JsonTree)>, key: Seq<char>, at: int)
    requires
        0 <= at < members.len(),
        members[at].0 == key,
        forall|i: int| 0 <= i < at ==> (#[trigger] members[i]).0 != key,
    ensures
        member_index(members, key) == at,
    decreases at,
{
    if at > 0 {
        let rest = members.drop_first();
        assert(members[0].0 != key);
        assert(rest[at - 1] == members[at]);
        assert forall|i: int| 0 <= i < at - 1 implies (#[trigger] rest[i]).0 != key by {
            assert(rest[i] == members[i + 1]);
        }
        lemma_member_found(rest, key, at - 1);
    }
}

/// A key that no member has is found nowhere.
pub proof fn lemma_member_index_absent(members: Seq<(Seq<char>, JsonTree)>, key: Seq<char>)
    requires
        forall|i: int| 0 <= i < members.len() ==> (#[trigger] members[i]).0 != key,
    ensures
        member_index(members, key) == members.len(),
    decreases members.len(),
{
    if members.len() > 0 {
        let rest = members.drop_first();
        assert forall|i: int| 0 <= i < rest.len() implies (#[trigger] rest[i]).0 != key by {
            assert(rest[i] == members[i + 1]);
        }
        lemma_member_index_absent(rest, key);
    }
}

/// A key that no member has yet goes to the end.
pub proof fn lemma_with_new_member(
    members: Seq<(Seq<char>, JsonTree)>,
    key: Seq<char>,
    value: JsonTree,
)
    requires
        forall|i: int| 0 <= i < members.len() ==> (#[trigger] members[i]).0 != key,
    ensures
        with_member(members, key, value) == members.push((key, value)),
{
    lemma_member_index_absent(members, key);
}

/// `JsonValue::from(&str)`: a string value with the characters of `text`.
#[verifier::external_body]
pub(crate) fn json_string(text: &str) -> (value: json::JsonValue)
    ensures
        json_shape(value) == JsonTree::Text(text@),
{
    json::JsonValue::from(text)
}

/// `JsonValue::from(bool)`: a boolean value.
#[verifier::external_body]
pub(crate) fn json_boolean(flag: bool) -> (value: json::JsonValue)
    ensures
        json_shape(value) == JsonTree::Boolean(flag),
{
    json::JsonValue::from(flag)
}

/// `JsonValue::new_object`: an object without members.
#[verifier::external_body]
pub(crate) fn json_new_object() -> (value: json::JsonValue)
    ensures
        json_shape(value) == JsonTree::Object(Seq::empty()),
{
    json::JsonValue::new_object()
}

/// `JsonValue::new_array`: an array without items.
#[verifier::external_body]
pub(crate) fn json_new_array() -> (value: json::JsonValue)
    ensures
        json_shape(value) == JsonTree::Array(Seq::empty()),
{
    json::JsonValue::new_array()
}

/// `JsonValue::insert` on an object: sets `key` to `value`, as [`with_member`]
/// says. The call cannot fail on an object, so its result is dropped.
#[verifier::external_body]
pub(crate) fn json_insert(object: &mut json::JsonValue, key: &str, value: json::JsonValue)
    requires
        json_shape(*old(object)) is Object,
    ensures
        json_shape(*final(object)) == JsonTree::Object(
            with_member(json_shape(*old(object))->Object_0, key@, json_shape(value)),
        ),
{
    let _ = object.insert(key, value);
}

/// `JsonValue::push` on an array: `value` becomes the last item. The call
/// cannot fail on an array, so its result is dropped.
#[verifier::external_body]
pub(crate) fn json_push(array: &mut json::JsonValue, value: json::JsonValue)
    requires
        json_shape(*old(array)) is Array,
    ensures
        json_shape(*final(array)) == JsonTree::Array(
            json_shape(*old(array))->Array_0.push(json_shape(value)),
        ),
{
    let _ = array.push(value);
}

/// `json::stringify`: the text of a value, which depends on its contents alone.
#[verifier::external_body]
pub(crate) fn json_stringify(value: json::JsonValue) -> (text: String)
    ensures
        text@ == json_text(json_shape(value)),
{
    json::stringify(value)
}

/// `json::parse`: reads a JSON text. What it reads depends on the text alone.
///
/// Only texts whose fractions fit are admitted. As long as the parser reads
/// on, it is inside a string literal exactly where [`scan_state`] is, and a
/// fraction that it reads begins at a point outside of them; so its count of
/// a fraction's digits never goes below `i16::MIN`.
#[verifier::external_body]
pub(crate) fn json_parse(text: &str) -> (parsed: Result<json::JsonValue, json::Error>)
    requires
        fractions_fit(encode_utf8(text@)),
    ensures
        match parsed {
            Ok(value) => json_parsed(text@) == Some(json_shape(value)),
            Err(_) => json_parsed(text@) is None,
        },
{
    json::parse(text)
}

/// `JsonValue::is_object`: whether the value is an object.
#[verifier::external_body]
pub(crate) fn json_is_object(value: &json::JsonValue) -> (yes: bool)
    ensures
        yes == (json_shape(*value) is Object),
{
    value.is_object()
}

/// Indexing a `JsonValue` by `&str`: the member of that name, as
/// [`member_value`] says.
#[verifier::external_body]
pub(crate) fn json_member<'a>(value: &'a json::JsonValue, key: &str) -> (member: &'a json::JsonValue)
    ensures
        json_shape(*member) == member_value(json_shape(*value), key@),
{
    &value[key]
}

/// `JsonValue::as_str`: the characters of a string value, `None` for any
/// other value.
#[verifier::external_body]
pub(crate) fn json_as_str<'a>(value: &'a json::JsonValue) -> (text: Option<&'a str>)
    ensures
        match text {
            Some(text) => json_shape(*value) == JsonTree::Text(text@),
            None => !(json_shape(*value) is Text),
        },
{
    value.as_str()
}

/// Whether no fraction outside the string literals of a text has more than
/// [`MAX_FRACTION_DIGITS`] digits, so that the text can be handed to the
/// parser.
pub fn has_fitting_fractions(bytes: &[u8]) -> (fits: bool)
    ensures
        fits == fractions_fit(bytes@),
{
    let mut in_string = false;
    let mut escaped = false;
    let mut in_fraction = false;
    let mut digits: usize = 0;
    let mut at: usize = 0;
    while at < bytes.len()
        invariant
            at <= bytes.len(),
            digits <= MAX_FRACTION_DIGITS,
            scan_state(bytes@, at as int) == (ScanState {
                in_string,
                escaped,
                in_fraction,
                digits: digits as nat,
            }),
            forall|end: int|
                0 <= end <= at ==> (#[trigger] scan_state(bytes@, end)).digits
                    <= MAX_FRACTION_DIGITS,
        decreases bytes.len() - at,
    {
        let byte = bytes[at];
        if in_string {
            if escaped {
                escaped = false;
            } else if byte == 0x5c {
                escaped = true;
            } else if byte == 0x22 {
                in_string = false;
            }
        } else if byte == 0x22 {
            in_string = true;
            escaped = false;
            in_fraction = false;
            digits = 0;
        } else if byte == 0x2e {
            escaped = false;
            in_fraction = true;
            digits = 0;
        } else if 0x30 <= byte && byte <= 0x39 {
            if in_fraction {
                if digits == MAX_FRACTION_DIGITS {
                    assert(scan_state(bytes@, at + 1).digits == digits + 1);
                    return false;
                }
                digits += 1;
            }
        } else {
            escaped = false;
            in_fraction = false;
            digits = 0;
        }
        at += 1;
    }
    true
}

/// Adds a member under a key that the object does not have yet.
pub(crate) fn insert_new(object: &mut json::JsonValue, key: &str, value: json::JsonValue)
    requires
        json_shape(*old(object)) is Object,
        forall|i: int|
            0 <= i < json_shape(*old(object))->Object_0.len() ==> (
            #[trigger] json_shape(*old(object))->Object_0[i]).0 != key@,
    ensures
        json_shape(*final(object)) == JsonTree::Object(
            json_shape(*old(object))->Object_0.push((key@, json_shape(value))),
        ),
{
    proof {
        lemma_with_new_member(json_shape(*object)->Object_0, key@, json_shape(value));
    }
    json_insert(object, key, value);
}

} // verus!
