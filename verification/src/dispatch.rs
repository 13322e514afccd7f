//! What is handed to the HTTP client, and how its answer is read.
//!
//! The library makes no request itself. It says what to post and where, and
//! judges the status that comes back.

use vstd::prelude::*;
use vstd::string::StrSliceExecFns;
use vstd::utf8::encode_utf8;

use crate::credentials::composed;
use crate::credentials::needs_signature;
use crate::credentials::DingTalk;
use crate::sign::signable;

verus! {

/// The name of the header that tells the robot how the body is encoded.
pub const CONTENT_TYPE: &'static str = "Content-Type";

/// The value of that header.
pub const APPLICATION_JSON_UTF8: &'static str = "application/json; charset=utf-8";

/// One POST request: where to, and the body in UTF-8. It is sent with the
/// header [`CONTENT_TYPE`] set to `content_type`.
#[derive(Debug)]
pub struct PostRequest {
    pub url: String,
    pub content_type: &'static str,
    pub body: Vec<u8>,
}

/// Why a message was not delivered.
#[derive(Clone, Copy, Debug, PartialEq, Eq, Structural)]
pub enum SendError {
    /// The request did not get through to the robot.
    Transport,
    /// The robot answered with a status other than 200, which is given.
    Protocol(u16),
}

/// How one attempt ended: only status 200 is a success.
pub open spec fn delivery(status: Option<u16>) -> Result<(), SendError> {
    match status {
        None => Err(SendError::Transport),
        Some(code) => if code == 200 {
            Ok(())
        } else {
            Err(SendError::Protocol(code))
        },
    }
}

/// Judges one attempt by the status that the HTTP client reports, `None`
/// where the request failed before any status came back.
pub fn interpret_response(status: Option<u16>) -> (result: Result<(), SendError>)
    ensures
        result == delivery(status),
{
    match status {
        None => Err(SendError::Transport),
        Some(code) => if code == 200 {
            Ok(())
        } else {
            Err(SendError::Protocol(code))
        },
    }
}

impl DingTalk {
    /// The request that delivers `json_message` now: posted to the URL of
    /// [`DingTalk::generate_signed_url`], as JSON in UTF-8.
    pub fn prepare(&self, json_message: &str) -> (request: PostRequest)
        requires
            needs_signature(self@) ==> signable(self@.sec_token),
        ensures
            exists|timestamp_millis: nat|
                timestamp_millis <= u128::MAX && request.url@ == #[trigger] composed(
                    self@,
                    timestamp_millis,
                ),
            request.content_type@ == APPLICATION_JSON_UTF8@,
            request.body@ == encode_utf8(json_message@),
    {
        PostRequest {
            url: self.generate_signed_url(),
            content_type: APPLICATION_JSON_UTF8,
            body: json_message.as_bytes_vec(),
        }
    }
}

} // verus!
