//! What identifies a robot, and the URL that a message for it is posted to.

use vstd::prelude::*;
use vstd::string::StringExecFns;
use vstd::utf8::decode_utf8;
use vstd::utf8::encode_utf8;
use vstd::utf8::encode_utf8_decode_utf8;

use crate::clock::unix_millis;
use crate::decimal::decimal;
use crate::decimal::decimal_string;
use crate::decimal::lemma_decimal_digits;
use crate::decimal::lemma_decimal_injective;
use crate::percent::lemma_encoded_has_no_ampersand;
use crate::percent::lemma_percent_round_trip;
use crate::percent::lemma_text_before_prefix;
use crate::percent::percent_decoded;
use crate::percent::percent_encode;
use crate::percent::percent_encoded;
use crate::percent::text_before;
use crate::sign::sign;
use crate::sign::signable;
use crate::sign::signature;
use crate::wire::fractions_fit;
use crate::wire::has_fitting_fractions;
use crate::wire::json_as_str;
use crate::wire::json_is_object;
use crate::wire::json_member;
use crate::wire::json_parse;
use crate::wire::json_parsed;
use crate::wire::json_shape;
use crate::wire::member_value;
use crate::wire::JsonTree;

verus! {

/// The endpoint of DingTalk's robots, up to and including the name of the
/// token parameter.
pub const DEFAULT_DINGTALK_ROBOT_URL: &'static str =
    "https://oapi.dingtalk.com/robot/send?access_token=";

/// The credentials of one robot.
///
/// A `direct_url` that is not empty is the whole target URL and overrides the
/// other three fields. An empty `sec_token` means that requests are not signed.
#[derive(Debug)]
pub struct DingTalk {
    pub default_webhook_url: String,
    pub access_token: String,
    pub sec_token: String,
    pub direct_url: String,
}

/// Credentials as contracts see them.
pub struct CredentialsModel {
    pub default_webhook_url: Seq<char>,
    pub access_token: Seq<char>,
    pub sec_token: Seq<char>,
    pub direct_url: Seq<char>,
}

impl View for DingTalk {
    type V = CredentialsModel;

    open spec fn view(&self) -> CredentialsModel {
        CredentialsModel {
            default_webhook_url: self.default_webhook_url@,
            access_token: self.access_token@,
            sec_token: self.sec_token@,
            direct_url: self.direct_url@,
        }
    }
}

/// Why a configuration text gives no credentials.
#[derive(Clone, Copy, Debug, PartialEq, Eq, Structural)]
pub enum ConfigError {
    /// A number in the text, or what reads like one outside of its string
    /// literals, has a fraction of more than 32768 digits. The parser cannot
    /// be given such a text.
    TooManyDigits,
    /// The text is not JSON.
    Malformed,
    /// The text is JSON, but not an object.
    NotAnObject,
}

/// The URL without a signature: the endpoint, then the access token
/// percent-encoded.
pub open spec fn unsigned_url(credentials: CredentialsModel) -> Seq<char> {
    credentials.default_webhook_url + percent_encoded(encode_utf8(credentials.access_token))
}

/// What is appended for a signed request: the timestamp, and the signature
/// made with that same timestamp.
pub open spec fn signature_query(secret: Seq<char>, timestamp_millis: nat) -> Seq<char> {
    "&timestamp="@ + decimal(timestamp_millis) + "&sign="@ + signature(secret, timestamp_millis)
}

/// Whether a request is signed: there is no direct URL, and a secret is set.
pub open spec fn needs_signature(credentials: CredentialsModel) -> bool {
    credentials.direct_url.len() == 0 && credentials.sec_token.len() > 0
}

/// The URL of a request made at `timestamp_millis`.
pub open spec fn composed(credentials: CredentialsModel, timestamp_millis: nat) -> Seq<char> {
    if credentials.direct_url.len() > 0 {
        credentials.direct_url
    } else if credentials.sec_token.len() > 0 {
        unsigned_url(credentials) + signature_query(credentials.sec_token, timestamp_millis)
    } else {
        unsigned_url(credentials)
    }
}

/// The token segment of a URL: what follows the endpoint, up to the first `&`.
pub open spec fn token_segment(url: Seq<char>, endpoint: Seq<char>) -> Seq<char> {
    text_before(url.skip(endpoint.len() as int), '&')
}

/// The string member `key` of a JSON object, where it has one.
pub open spec fn member_text(tree: JsonTree, key: Seq<char>) -> Option<Seq<char>> {
    match member_value(tree, key) {
        JsonTree::Text(text) => Some(text),
        _ => None,
    }
}

/// The credentials that a configuration object describes: each of the three
/// members where it is a string, else the default endpoint and empty tokens.
pub open spec fn configured(tree: JsonTree) -> CredentialsModel {
    CredentialsModel {
        default_webhook_url: match member_text(tree, "default_webhook_url"@) {
            Some(text) => text,
            None => DEFAULT_DINGTALK_ROBOT_URL@,
        },
        access_token: match member_text(tree, "access_token"@) {
            Some(text) => text,
            None => Seq::empty(),
        },
        sec_token: match member_text(tree, "sec_token"@) {
            Some(text) => text,
            None => Seq::empty(),
        },
        direct_url: Seq::empty(),
    }
}

/// What a configuration tree gives: credentials for an object, an error for
/// anything else.
pub open spec fn configuration_result(tree: JsonTree) -> Result<CredentialsModel, ConfigError> {
    if tree is Object {
        Ok(configured(tree))
    } else {
        Err(ConfigError::NotAnObject)
    }
}

/// What a configuration text gives: `TooManyDigits` where a fraction outside
/// its string literals has more than 32768 digits, `Malformed` where it is
/// not JSON, else what the parsed value gives.
pub open spec fn text_configuration(text: Seq<char>) -> Result<CredentialsModel, ConfigError> {
    if !fractions_fit(encode_utf8(text)) {
        Err(ConfigError::TooManyDigits)
    } else {
        match json_parsed(text) {
            Some(tree) => configuration_result(tree),
            None => Err(ConfigError::Malformed),
        }
    }
}

/// Whether `result` is what `expected` asks for: the same error, or
/// credentials with the expected contents.
pub open spec fn matches_configuration(
    result: Result<DingTalk, ConfigError>,
    expected: Result<CredentialsModel, ConfigError>,
) -> bool {
    match (result, expected) {
        (Ok(credentials), Ok(model)) => credentials@ == model,
        (Err(error), Err(wanted)) => error == wanted,
        _ => false,
    }
}

/// Percent-decoding the token segment of a composed URL gives back the access
/// token, byte for byte and so character for character.
pub proof fn lemma_token_round_trip(credentials: CredentialsModel, timestamp_millis: nat)
    requires
        credentials.direct_url.len() == 0,
    ensures
        percent_decoded(
            token_segment(composed(credentials, timestamp_millis), credentials.default_webhook_url),
        ) == encode_utf8(credentials.access_token),
        decode_utf8(
            percent_decoded(
                token_segment(
                    composed(credentials, timestamp_millis),
                    credentials.default_webhook_url,
                ),
            ),
        ) == credentials.access_token,
{
    let endpoint = credentials.default_webhook_url;
    let token = percent_encoded(encode_utf8(credentials.access_token));
    let url = composed(credentials, timestamp_millis);
    let rest: Seq<char> = if credentials.sec_token.len() > 0 {
        signature_query(credentials.sec_token, timestamp_millis)
    } else {
        Seq::empty()
    };
    reveal_strlit("&timestamp=");
    assert("&timestamp="@.len() == 11);
    assert(rest.len() == 0 || rest[0] == '&');
    assert(url =~= endpoint + (token + rest));
    assert(url.skip(endpoint.len() as int) =~= token + rest);
    lemma_encoded_has_no_ampersand(encode_utf8(credentials.access_token));
    lemma_text_before_prefix(token, rest, '&');
    lemma_percent_round_trip(encode_utf8(credentials.access_token));
    encode_utf8_decode_utf8(credentials.access_token);
}

/// A signed URL changes with the time: two different timestamps give two
/// different URLs, because the `timestamp` parameters differ. (Whether the
/// two signatures differ as well is a matter of the hash function.)
pub proof fn lemma_signed_url_changes_with_time(
    credentials: CredentialsModel,
    first: nat,
    second: nat,
)
    requires
        needs_signature(credentials),
        first != second,
    ensures
        composed(credentials, first) != composed(credentials, second),
{
    let head = unsigned_url(credentials) + "&timestamp="@;
    let tail = "&sign="@ + signature(credentials.sec_token, first);
    let other_tail = "&sign="@ + signature(credentials.sec_token, second);
    let url = composed(credentials, first);
    let other = composed(credentials, second);
    reveal_strlit("&sign=");
    assert("&sign="@.len() == 6);
    assert(tail[0] == '&' && other_tail[0] == '&');
    assert(url =~= head + (decimal(first) + tail));
    assert(other =~= head + (decimal(second) + other_tail));
    assert(url.skip(head.len() as int) =~= decimal(first) + tail);
    assert(other.skip(head.len() as int) =~= decimal(second) + other_tail);
    lemma_decimal_digits(first);
    lemma_decimal_digits(second);
    lemma_text_before_prefix(decimal(first), tail, '&');
    lemma_text_before_prefix(decimal(second), other_tail, '&');
    if url == other {
        assert(decimal(first) == decimal(second));
        lemma_decimal_injective(first, second);
    }
}

/// A direct URL is the composed URL, whatever the other fields and the time.
pub proof fn lemma_direct_url_bypass(
    credentials: CredentialsModel,
    other: CredentialsModel,
    timestamp_millis: nat,
    other_millis: nat,
)
    requires
        credentials.direct_url.len() > 0,
        other.direct_url == credentials.direct_url,
    ensures
        composed(credentials, timestamp_millis) == credentials.direct_url,
        composed(other, other_millis) == composed(credentials, timestamp_millis),
{
}

impl Default for DingTalk {
    fn default() -> (credentials: Self)
        ensures
            credentials@ == (CredentialsModel {
                default_webhook_url: Seq::empty(),
                access_token: Seq::empty(),
                sec_token: Seq::empty(),
                direct_url: Seq::empty(),
            }),
    {
        DingTalk {
            default_webhook_url: String::new(),
            access_token: String::new(),
            sec_token: String::new(),
            direct_url: String::new(),
        }
    }
}

impl DingTalk {
    /// Credentials for DingTalk's own endpoint. `sec_token` may be empty.
    pub fn new(access_token: &str, sec_token: &str) -> (credentials: Self)
        ensures
            credentials@ == (CredentialsModel {
                default_webhook_url: DEFAULT_DINGTALK_ROBOT_URL@,
                access_token: access_token@,
                sec_token: sec_token@,
                direct_url: Seq::empty(),
            }),
    {
        DingTalk {
            default_webhook_url: DEFAULT_DINGTALK_ROBOT_URL.to_owned(),
            access_token: access_token.to_owned(),
            sec_token: sec_token.to_owned(),
            direct_url: String::new(),
        }
    }

    /// Credentials that are one complete URL, as an outgoing robot hands out.
    pub fn from_url(url: &str) -> (credentials: Self)
        ensures
            credentials@ == (CredentialsModel {
                default_webhook_url: Seq::empty(),
                access_token: Seq::empty(),
                sec_token: Seq::empty(),
                direct_url: url@,
            }),
    {
        DingTalk {
            default_webhook_url: String::new(),
            access_token: String::new(),
            sec_token: String::new(),
            direct_url: url.to_owned(),
        }
    }

    /// Replaces the endpoint.
    pub fn set_default_webhook_url(&mut self, default_webhook_url: &str)
        ensures
            final(self)@ == (CredentialsModel {
                default_webhook_url: default_webhook_url@,
                ..old(self)@
            }),
    {
        self.default_webhook_url = default_webhook_url.to_owned();
    }

    /// Credentials from a parsed configuration.
    ///
    /// An object gives credentials: `default_webhook_url`, `access_token` and
    /// `sec_token` are taken where they are strings, and default to
    /// DingTalk's endpoint and to empty tokens where they are not. Any other
    /// value is refused.
    pub fn from_json_value(value: &json::JsonValue) -> (result: Result<Self, ConfigError>)
        ensures
            matches_configuration(result, configuration_result(json_shape(*value))),
    {
        if !json_is_object(value) {
            return Err(ConfigError::NotAnObject);
        }
        let default_webhook_url = match json_as_str(json_member(value, "default_webhook_url")) {
            Some(text) => text.to_owned(),
            None => DEFAULT_DINGTALK_ROBOT_URL.to_owned(),
        };
        let access_token = match json_as_str(json_member(value, "access_token")) {
            Some(text) => text.to_owned(),
            None => String::new(),
        };
        let sec_token = match json_as_str(json_member(value, "sec_token")) {
            Some(text) => text.to_owned(),
            None => String::new(),
        };
        Ok(DingTalk { default_webhook_url, access_token, sec_token, direct_url: String::new() })
    }

    /// Credentials from a configuration in JSON:
    /// `{"default_webhook_url": "..", "access_token": "..", "sec_token": ".."}`,
    /// of which the first and the last member are optional.
    ///
    /// A text in which the fraction of a number has more than 32768 digits
    /// gives `TooManyDigits` and is not parsed; digits in strings, before the
    /// point and in exponents are not limited. Text that is not JSON gives
    /// `Malformed`. What is read from JSON is what
    /// [`DingTalk::from_json_value`] makes of it.
    pub fn from_json(json: &str) -> (result: Result<Self, ConfigError>)
        ensures
            matches_configuration(result, text_configuration(json@)),
    {
        if !has_fitting_fractions(json.as_bytes()) {
            return Err(ConfigError::TooManyDigits);
        }
        match json_parse(json) {
            Ok(value) => DingTalk::from_json_value(&value),
            Err(_) => Err(ConfigError::Malformed),
        }
    }

    /// Whether the secret is short enough to sign with. Every secret that a
    /// machine of today can hold is; the bound is that of the hash function.
    pub fn can_sign(&self) -> (yes: bool)
        ensures
            yes == signable(self@.sec_token),
    {
        (self.sec_token.as_str().as_bytes().len() as u64) < 0x0800_0000_0000_0000u64
    }

    /// The URL of a request made at `timestamp_millis`.
    ///
    /// A direct URL is returned as it is. Otherwise the URL is the endpoint
    /// and the percent-encoded access token, followed, where a secret is set,
    /// by `&timestamp=` with the timestamp and `&sign=` with the signature
    /// for that timestamp.
    pub fn compose(&self, timestamp_millis: u128) -> (url: String)
        requires
            needs_signature(self@) ==> signable(self@.sec_token),
        ensures
            url@ == composed(self@, timestamp_millis as nat),
            self@.direct_url.len() > 0 ==> url@ == self@.direct_url,
    {
        if !self.direct_url.as_str().is_empty() {
            return self.direct_url.clone();
        }
        let mut url = self.default_webhook_url.clone();
        url.append(percent_encode(self.access_token.as_str()).as_str());
        if !self.sec_token.as_str().is_empty() {
            url.append("&timestamp=");
            url.append(decimal_string(timestamp_millis).as_str());
            url.append("&sign=");
            url.append(sign(self.sec_token.as_str(), timestamp_millis).as_str());
            assert(url@ =~= unsigned_url(self@) + signature_query(
                self@.sec_token,
                timestamp_millis as nat,
            ));
        }
        url
    }

    /// The URL of a request made now.
    ///
    /// The clock is read only where a signature is needed, once, and the one
    /// timestamp goes into both the `timestamp` parameter and the signature.
    /// So the result is the composed URL of some timestamp; without a secret,
    /// or with a direct URL, it does not depend on the time at all.
    ///
    /// The timestamp is the system clock's time in milliseconds since the
    /// Unix epoch. This function does not panic on a clock that is set before
    /// the epoch: such a clock gives the timestamp 0, and the URL is signed
    /// for that.
    pub fn generate_signed_url(&self) -> (url: String)
        requires
            needs_signature(self@) ==> signable(self@.sec_token),
        ensures
            exists|timestamp_millis: nat|
                timestamp_millis <= u128::MAX && url@ == #[trigger] composed(
                    self@,
                    timestamp_millis,
                ),
            !needs_signature(self@) ==> url@ == composed(self@, 0),
            self@.direct_url.len() > 0 ==> url@ == self@.direct_url,
    {
        let timestamp_millis: u128 = if self.direct_url.as_str().is_empty()
            && !self.sec_token.as_str().is_empty() {
            unix_millis()
        } else {
            0
        };
        self.compose(timestamp_millis)
    }
}

} // verus!
