use vstd::prelude::*;

use crate::hex::{all_hex_digits, decode_hex, hex_decode, is_hex_digits};
use crate::secure::{self, signature_matches};

verus! {

/// Name of the header that carries the event type.
pub const X_GITHUB_EVENT: &'static str = "X-GitHub-Event";

/// Name of the header that carries the payload's signature.
pub const X_HUB_SIGNATURE: &'static str = "X-Hub-Signature";

/// Total length of a signature header: `sha1=` and forty hex digits.
pub const SIGNATURE_HEADER_LEN: usize = 45;

/// The canonical serialization of the JSON document that bytes hold: compact,
/// on one line, or `None` where they hold no JSON document.
pub uninterp spec fn canonical_json(b: Seq<u8>) -> Option<Seq<char>>;

/// Relies on `serde_json::from_slice::<Value>` and `Value`'s `to_string`:
/// whether the bytes parse, and the text that the parsed value prints as,
/// depend on the bytes alone.
#[verifier::external_body]
fn serialize_json(body: &[u8]) -> (r: Option<String>)
    ensures
        match r {
            Some(t) => canonical_json(body@) == Some(t@),
            None => canonical_json(body@).is_none(),
        },
{
    match serde_json::from_slice::<serde_json::Value>(body) {
        Ok(v) => Some(v.to_string()),
        Err(_) => None,
    }
}

/// Why a webhook request is refused.
#[derive(Clone, Copy, Debug, PartialEq, Eq, Structural)]
pub enum ErrorKind {
    /// The event-type header is missing.
    GitHubEventHeaderRequired,
    /// The signature header is missing, or not 45 bytes long.
    GitHubSignatureHeaderRequired,
    /// The signature's digits are not hexadecimal.
    InvalidSignatureHeader,
    /// The signature header does not start with `sha1=`.
    UnsupportedHMACMethod,
    /// The signature does not match the payload.
    Forbidden,
    /// The payload is no JSON document.
    InvalidPayload,
    /// The event queue is closed: the service is shutting down.
    ShuttingDown,
}

impl ErrorKind {
    /// The HTTP status code of the reply.
    pub fn status_code(&self) -> (r: u16)
        ensures
            r == match *self {
                ErrorKind::GitHubEventHeaderRequired => 404u16,
                ErrorKind::InvalidPayload => 400u16,
                ErrorKind::ShuttingDown => 500u16,
                _ => 401u16,
            },
    {
        match self {
            ErrorKind::GitHubEventHeaderRequired => 404,
            ErrorKind::InvalidPayload => 400,
            ErrorKind::ShuttingDown => 500,
            _ => 401,
        }
    }

    /// The text of the reply's `error` field.
    pub fn message(&self) -> (r: &'static str)
        ensures
            r@ == match *self {
                ErrorKind::GitHubEventHeaderRequired => "header `X-GitHub-Event` is required"@,
                ErrorKind::GitHubSignatureHeaderRequired => "header `X-Hub-Signature` is required"@,
                ErrorKind::InvalidSignatureHeader => "invalid `X-Hub-Signature` header"@,
                ErrorKind::UnsupportedHMACMethod => "unsupported HMAC method"@,
                ErrorKind::Forbidden => "forbidden"@,
                ErrorKind::InvalidPayload => "invalid JSON payload"@,
                ErrorKind::ShuttingDown => "shutting down"@,
            },
    {
        match self {
            ErrorKind::GitHubEventHeaderRequired => "header `X-GitHub-Event` is required",
            ErrorKind::GitHubSignatureHeaderRequired => "header `X-Hub-Signature` is required",
            ErrorKind::InvalidSignatureHeader => "invalid `X-Hub-Signature` header",
            ErrorKind::UnsupportedHMACMethod => "unsupported HMAC method",
            ErrorKind::Forbidden => "forbidden",
            ErrorKind::InvalidPayload => "invalid JSON payload",
            ErrorKind::ShuttingDown => "shutting down",
        }
    }
}

/// The event type of the provider's liveness probe.
pub open spec fn ping_event() -> Seq<u8> {
    seq![0x70u8, 0x69, 0x6e, 0x67]
}

/// The algorithm prefix of a signature header.
pub open spec fn sha1_prefix() -> Seq<u8> {
    seq![0x73u8, 0x68, 0x61, 0x31, 0x3d]
}

/// What the signature header yields: the claimed code, or why it is refused.
/// A header of any length but 45 counts as absent; the forty bytes after
/// `sha1=` must all be hexadecimal digits.
pub open spec fn signature_verdict(signature: Option<Seq<u8>>) -> Result<Seq<u8>, ErrorKind> {
    match signature {
        None => Err(ErrorKind::GitHubSignatureHeaderRequired),
        Some(s) => if s.len() != SIGNATURE_HEADER_LEN {
            Err(ErrorKind::GitHubSignatureHeaderRequired)
        } else if s.subrange(0, 5) != sha1_prefix() {
            Err(ErrorKind::UnsupportedHMACMethod)
        } else if !all_hex_digits(s.subrange(5, s.len() as int)) {
            Err(ErrorKind::InvalidSignatureHeader)
        } else {
            match hex_decode(s.subrange(5, s.len() as int)) {
                Some(code) => Ok(code),
                None => Err(ErrorKind::InvalidSignatureHeader),
            }
        },
    }
}

/// What the headers of a request decide, before its body is read.
#[derive(Clone, Debug)]
pub enum Admission {
    /// A liveness probe: reply 200 at once.
    Ping,
    /// Refuse the request.
    Reject(ErrorKind),
    /// Read the body and check it against this claimed code.
    ReadBody(Vec<u8>),
}

/// The bytes of a header, if it is present.
pub open spec fn header_bytes(h: Option<&[u8]>) -> Option<Seq<u8>> {
    match h {
        Some(v) => Some(v@),
        None => None,
    }
}

/// Whether `a` is what the event-type and signature headers decide.
pub open spec fn admission_of(
    event: Option<Seq<u8>>,
    signature: Option<Seq<u8>>,
    a: Admission,
) -> bool {
    match event {
        None => a == Admission::Reject(ErrorKind::GitHubEventHeaderRequired),
        Some(e) => if e == ping_event() {
            a is Ping
        } else {
            match (signature_verdict(signature), a) {
                (Ok(code), Admission::ReadBody(v)) => v@ == code,
                (Err(k), Admission::Reject(j)) => j == k,
                _ => false,
            }
        },
    }
}

/// A webhook event accepted into the queue.
#[derive(Clone, Debug, PartialEq)]
pub enum Event {
    /// The payload in its canonical JSON serialization, to be appended to
    /// the event log.
    Log(String),
}

/// The line of the event log for an event: its text and a line feed.
pub open spec fn log_line_of(e: Event) -> Seq<char> {
    match e {
        Event::Log(t) => t@ + "\n"@,
    }
}

impl Event {
    /// The line that the event log gets for this event.
    pub fn log_line(&self) -> (r: String)
        ensures
            r@ == log_line_of(*self),
    {
        match self {
            Event::Log(t) => t.clone().concat("\n"),
        }
    }
}

fn is_ping(e: &[u8]) -> (r: bool)
    ensures
        r == (e@ == ping_event()),
{
    if e.len() != 4 {
        return false;
    }
    let r = e[0] == 0x70 && e[1] == 0x69 && e[2] == 0x6e && e[3] == 0x67;
    if r {
        assert(e@ =~= ping_event());
    }
    r
}

fn is_sha1_prefix(p: &[u8]) -> (r: bool)
    ensures
        r == (p@ == sha1_prefix()),
{
    if p.len() != 5 {
        return false;
    }
    let r = p[0] == 0x73 && p[1] == 0x68 && p[2] == 0x61 && p[3] == 0x31 && p[4] == 0x3d;
    if r {
        assert(p@ =~= sha1_prefix());
    }
    r
}

/// Decides on a request from its event-type and signature headers. A ping is
/// let through before the signature header is looked at.
pub fn check_headers(event: Option<&[u8]>, signature: Option<&[u8]>) -> (r: Admission)
    ensures
        admission_of(header_bytes(event), header_bytes(signature), r),
{
    match event {
        None => Admission::Reject(ErrorKind::GitHubEventHeaderRequired),
        Some(e) => {
            if is_ping(e) {
                return Admission::Ping;
            }
            match signature {
                None => Admission::Reject(ErrorKind::GitHubSignatureHeaderRequired),
                Some(s) => {
                    if s.len() != SIGNATURE_HEADER_LEN {
                        return Admission::Reject(ErrorKind::GitHubSignatureHeaderRequired);
                    }
                    let (prefix, digits) = s.split_at(5);
                    if !is_sha1_prefix(prefix) {
                        return Admission::Reject(ErrorKind::UnsupportedHMACMethod);
                    }
                    if !is_hex_digits(digits) {
                        return Admission::Reject(ErrorKind::InvalidSignatureHeader);
                    }
                    match decode_hex(digits) {
                        Some(code) => Admission::ReadBody(code),
                        None => Admission::Reject(ErrorKind::InvalidSignatureHeader),
                    }
                },
            }
        },
    }
}

/// The request handler's state: the queue's sending side and the shared secret.
#[derive(Clone, Debug)]
pub struct Server<W> {
    pub tx: W,
    pub secret: Vec<u8>,
}

impl<W> Server<W> {
    /// A handler with the built-in secret `<secret>`.
    pub fn new(tx: W) -> (r: Self)
        ensures
            r.tx == tx,
            r.secret@ == seq![0x3cu8, 0x73, 0x65, 0x63, 0x72, 0x65, 0x74, 0x3e],
    {
        let secret: Vec<u8> = vec![0x3cu8, 0x73, 0x65, 0x63, 0x72, 0x65, 0x74, 0x3e];
        Server { tx, secret }
    }

    /// A handler that checks signatures against `secret`.
    pub fn with_secret(tx: W, secret: Vec<u8>) -> (r: Self)
        ensures
            r.tx == tx,
            r.secret@ == secret@,
    {
        Server { tx, secret }
    }

    /// Checks a payload against the claimed code under this handler's secret.
    pub fn verify(&self, data: &[u8], signature: &[u8]) -> (r: Result<(), secure::Forbidden>)
        ensures
            signature@.len() != secure::DIGEST_LEN ==> r.is_err(),
            r.is_ok() == signature_matches(data@, self.secret@, signature@),
    {
        secure::verify(data, self.secret.as_slice(), signature)
    }

    /// Authenticates a raw body against the claimed code, then parses it: the
    /// event to enqueue, or why the request is refused.
    pub fn accept(&self, body: &[u8], signature: &[u8]) -> (r: Result<Event, ErrorKind>)
        ensures
            !signature_matches(body@, self.secret@, signature@) ==> r == Err::<Event, ErrorKind>(
                ErrorKind::Forbidden,
            ),
            signature_matches(body@, self.secret@, signature@) && canonical_json(body@).is_none()
                ==> r == Err::<Event, ErrorKind>(ErrorKind::InvalidPayload),
            r.is_ok() == (signature_matches(body@, self.secret@, signature@) && canonical_json(
                body@,
            ).is_some()),
            match r {
                Ok(Event::Log(t)) => canonical_json(body@) == Some(t@),
                Err(_) => true,
            },
    {
        if self.verify(body, signature).is_err() {
            return Err(ErrorKind::Forbidden);
        }
        match serialize_json(body) {
            Some(t) => Ok(Event::Log(t)),
            None => Err(ErrorKind::InvalidPayload),
        }
    }
}

/// A signature header of any length but 45 bytes is refused as if it were
/// absent, whatever it holds; one of 45 bytes that starts with `sha1=` but
/// holds a byte other than a hexadecimal digit after it (a space too) is
/// refused as invalid before the body is read; a ping is let through without
/// one.
pub proof fn lemma_signature_length_decides(event: Seq<u8>, signature: Seq<u8>, a: Admission)
    requires
        admission_of(Some(event), Some(signature), a),
    ensures
        event == ping_event() ==> a is Ping,
        event != ping_event() && signature.len() != SIGNATURE_HEADER_LEN ==> a == Admission::Reject(
            ErrorKind::GitHubSignatureHeaderRequired,
        ),
        event != ping_event() && signature.len() == SIGNATURE_HEADER_LEN && signature.subrange(0, 5)
            == sha1_prefix() && !all_hex_digits(signature.subrange(5, signature.len() as int))
            ==> a == Admission::Reject(ErrorKind::InvalidSignatureHeader),
{
}

/// A request whose signature header is `sha1=` and forty hexadecimal digits
/// that spell the HMAC-SHA1 code of its body under the secret is let through to the body check with a
/// code that the body matches.
pub proof fn lemma_signed_request_reaches_body(
    event: Seq<u8>,
    header: Seq<u8>,
    body: Seq<u8>,
    secret: Seq<u8>,
    a: Admission,
)
    requires
        event != ping_event(),
        header.len() == SIGNATURE_HEADER_LEN,
        header.subrange(0, 5) == sha1_prefix(),
        all_hex_digits(header.subrange(5, header.len() as int)),
        hex_decode(header.subrange(5, header.len() as int)) == Some(
            crate::secure::hmac_sha1(secret, body),
        ),
        admission_of(Some(event), Some(header), a),
    ensures
        a matches Admission::ReadBody(code) && signature_matches(body, secret, code@),
{
}

/// An event accepted for a body is logged as the body's canonical JSON
/// serialization followed by a line feed.
pub proof fn lemma_accepted_body_logged_canonically(body: Seq<u8>, e: Event)
    requires
        e matches Event::Log(t) && canonical_json(body) == Some(t@),
    ensures
        canonical_json(body) is Some,
        log_line_of(e) == canonical_json(body).unwrap() + "\n"@,
{
}

} // verus!
