//! What comes back from the CI server, and what can go wrong.

use vstd::prelude::*;
use vstd::utf8::{decode_utf8, valid_utf8};
use crate::text::decimal_text;

verus! {

/// The standard reason phrase of a status code, or the placeholder
/// `<unknown status code>` where the code has none.
pub uninterp spec fn reason_text(code: int) -> Seq<char>;

/// How a status code is written out: the number in decimal, a space, and the
/// reason phrase.
pub open spec fn status_text(code: int) -> Seq<char> {
    decimal_text(code as nat) + " "@ + reason_text(code)
}

/// The text that `bytes` are read as where they are not well-formed UTF-8:
/// what is well formed in them decoded, each malformed stretch replaced by the
/// replacement character.
pub uninterp spec fn lossy_text(bytes: Seq<u8>) -> Seq<char>;

/// `reqwest::StatusCode::from_u16`, then its `Display`. Trusted: a code is
/// accepted exactly from 100 to 999, and what is written for an accepted code
/// is the code in decimal, a space, and its reason phrase; the phrase depends
/// on the code alone, so it is the named `reason_text` of it.
#[verifier::external_body]
fn write_status(code: u16) -> (text: Option<String>)
    ensures
        text is Some <==> 100 <= code <= 999,
        text matches Some(t) ==> t@ == decimal_text(code as nat) + " "@ + reason_text(code as int),
{
    reqwest::StatusCode::from_u16(code).ok().map(|status| status.to_string())
}

/// `String::from_utf8_lossy`. Trusted: well-formed UTF-8 is decoded as it
/// stands; for other bytes the text depends on the bytes alone, so it is the
/// named `lossy_text` of them.
#[verifier::external_body]
fn decode_lossy(bytes: &[u8]) -> (text: String)
    ensures
        valid_utf8(bytes@) ==> text@ == decode_utf8(bytes@),
        !valid_utf8(bytes@) ==> text@ == lossy_text(bytes@),
{
    String::from_utf8_lossy(bytes).into_owned()
}

/// Bytes read as text, leniently: decoded where they are well-formed UTF-8,
/// patched up where they are not.
pub open spec fn lenient_text(bytes: Seq<u8>) -> Seq<char> {
    if valid_utf8(bytes) {
        decode_utf8(bytes)
    } else {
        lossy_text(bytes)
    }
}

/// Whether a status code reports success: the codes from 200 to 299.
pub open spec fn is_success(status: u16) -> bool {
    200 <= status < 300
}

/// A reply of the server: its status code, its `Location` header where it has
/// a readable one, and its body where the body could be read.
#[derive(Debug, PartialEq, Eq)]
pub struct Reply {
    status: u16,
    written: String,
    location: Option<String>,
    body: Option<Vec<u8>>,
}

/// What a `Reply` is, over sequences.
pub struct ReplyView {
    pub status: u16,
    pub location: Option<Seq<char>>,
    pub body: Option<Seq<u8>>,
}

impl ReplyView {
    /// A status code has three digits.
    pub open spec fn well_formed(self) -> bool {
        100 <= self.status <= 999
    }
}

impl View for Reply {
    type V = ReplyView;

    closed spec fn view(&self) -> ReplyView {
        ReplyView {
            status: self.status,
            location: self.location.deep_view(),
            body: bytes_of(self.body),
        }
    }
}

/// The bytes of an optional buffer.
pub open spec fn bytes_of(body: Option<Vec<u8>>) -> Option<Seq<u8>> {
    match body {
        Some(bytes) => Some(bytes@),
        None => None,
    }
}

impl Reply {
    /// The status is a status code, and `written` is how it is written out.
    #[verifier::type_invariant]
    closed spec fn status_is_written(&self) -> bool {
        &&& 100 <= self.status <= 999
        &&& self.written@ == status_text(self.status as int)
    }

    /// A reply with these parts; `None` where `status` is no status code.
    pub fn new(status: u16, location: Option<String>, body: Option<Vec<u8>>) -> (made: Option<
        Reply,
    >)
        ensures
            made is Some <==> 100 <= status <= 999,
            made matches Some(reply) ==> reply@ == (ReplyView {
                status,
                location: location.deep_view(),
                body: bytes_of(body),
            }),
    {
        match write_status(status) {
            Some(written) => Some(Reply { status, written, location, body }),
            None => None,
        }
    }

    /// The status code.
    pub fn status(&self) -> (status: u16)
        ensures
            status == self@.status,
            self@.well_formed(),
    {
        proof {
            use_type_invariant(self);
        }
        self.status
    }

    /// Whether the status code reports success.
    pub fn is_success(&self) -> (success: bool)
        ensures
            success == is_success(self@.status),
    {
        200 <= self.status && self.status < 300
    }

    /// The status code written out.
    pub fn status_text(&self) -> (text: String)
        ensures
            text@ == status_text(self@.status as int),
    {
        proof {
            use_type_invariant(self);
        }
        self.written.clone()
    }

    /// The `Location` header.
    pub fn location(&self) -> (location: Option<&String>)
        ensures
            location.deep_view() == self@.location,
    {
        self.location.as_ref()
    }

    /// The body as text, or `Unknown error` where the body could not be read.
    pub fn body_text(&self) -> (text: String)
        ensures
            text@ == body_text_of(self@.body),
    {
        match &self.body {
            Some(bytes) => decode_lossy(bytes.as_slice()),
            None => String::from_str("Unknown error"),
        }
    }

    /// The bytes of the body.
    pub fn body(&self) -> (body: Option<&Vec<u8>>)
        ensures
            body is Some <==> self@.body is Some,
            body matches Some(bytes) ==> self@.body == Some(bytes@),
    {
        self.body.as_ref()
    }
}

/// A body as text: read leniently, or `Unknown error` where there is none.
pub open spec fn body_text_of(body: Option<Seq<u8>>) -> Seq<char> {
    match body {
        Some(bytes) => lenient_text(bytes),
        None => "Unknown error"@,
    }
}

/// Why a call to the server did not succeed.
#[derive(Debug, PartialEq, Eq)]
pub enum ClientError {
    /// No reply: the request could not be sent, or nothing came back in time.
    Connection,
    /// The server answered with a status other than success. `status` is the
    /// status written out; `detail` is the body of the reply, where the call
    /// reports it.
    Status { code: u16, status: String, detail: Option<String> },
    /// The reply could not be read as JSON.
    Decode,
}

/// What a `ClientError` is, over character sequences.
pub enum ClientErrorView {
    Connection,
    Status { code: u16, status: Seq<char>, detail: Option<Seq<char>> },
    Decode,
}

impl View for ClientError {
    type V = ClientErrorView;

    open spec fn view(&self) -> ClientErrorView {
        match self {
            ClientError::Connection => ClientErrorView::Connection,
            ClientError::Status { code, status, detail } => ClientErrorView::Status {
                code: *code,
                status: status@,
                detail: detail.deep_view(),
            },
            ClientError::Decode => ClientErrorView::Decode,
        }
    }
}

/// The message of an error.
pub open spec fn message_text(error: ClientErrorView) -> Seq<char> {
    match error {
        ClientErrorView::Connection => "connection error"@,
        ClientErrorView::Status { code, status, detail } => match detail {
            Some(body) => "jenkins API returned status "@ + status + ": "@ + body,
            None => "jenkins API returned status "@ + status,
        },
        ClientErrorView::Decode => "failed to decode response"@,
    }
}

impl ClientError {
    /// The message of the error.
    pub fn message(&self) -> (text: String)
        ensures
            text@ == message_text(self@),
    {
        match self {
            ClientError::Connection => String::from_str("connection error"),
            ClientError::Status { code, status, detail } => {
                let mut text: String = String::from_str("jenkins API returned status ");
                text.append(status.as_str());
                match detail {
                    Some(body) => {
                        text.append(": ");
                        text.append(body.as_str());
                    },
                    None => {},
                }
                text
            },
            ClientError::Decode => String::from_str("failed to decode response"),
        }
    }
}

} // verus!
