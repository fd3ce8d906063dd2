//! Device authentication and ingestion decisions for the WebSocket server.
//!
//! A connection starts with one text message, either a registration request
//! (accepted only while the pairing window is open) or an authentication
//! request (a known device presenting its token). Only then may the device
//! stream payloads. The socket, the JSON wire format and the database calls
//! belong to the application; every decision is taken here.

use vstd::prelude::*;

use rand::Rng;
use sha2::{Digest, Sha256};

use crate::crypto::{encrypt_payload, sealed_blob, MAX_PLAINTEXT_LEN, NONCE_LEN, TAG_LEN};
use crate::db::DeviceRow;
use crate::encoding::{hex_encode, hex_encode_bytes};
use crate::error::SentinelError;

verus! {

/// The first message of a connection.
#[derive(Debug)]
pub enum AuthMessage {
    Register { device_id: String, friendly_name: String },
    Auth { device_id: String, token: String },
}

/// The gateway's reply to the first message.
#[derive(Debug)]
pub enum AuthResponse {
    Registered { token: String },
    Authenticated,
    Error { message: String },
}

/// Length of a device token.
pub const TOKEN_LEN: usize = 32;

/// The byte a device receives for every payload that was stored.
pub const PAYLOAD_ACK: u8 = 1;

/// The SHA-256 digest of some bytes.
pub uninterp spec fn sha256(data: Seq<u8>) -> Seq<u8>;

/// Calls `sha2::Sha256` (`update`, then `finalize`): the 32-byte SHA-256
/// digest of `data`.
#[verifier::external_body]
fn sha256_digest(data: &[u8]) -> (d: Vec<u8>)
    ensures
        d@ == sha256(data@),
        d@.len() == 32,
{
    let mut hasher = Sha256::new();
    hasher.update(data);
    hasher.finalize().to_vec()
}

/// The stored form of a token: the lowercase hexadecimal SHA-256 digest of
/// its UTF-8 bytes.
pub open spec fn spec_token_hash(token: Seq<char>) -> Seq<char> {
    hex_encode(sha256(vstd::utf8::encode_utf8(token)))
}

/// Hashes a device token for storage and comparison.
pub fn hash_token(token: &str) -> (h: String)
    ensures
        h@ == spec_token_hash(token@),
        h@.len() == 64,
{
    let digest = sha256_digest(token.as_bytes());
    hex_encode_bytes(digest.as_slice())
}

/// A character that `rand`'s `Alphanumeric` distribution draws from.
pub open spec fn is_alphanumeric_ascii(c: char) -> bool {
    ('0' <= c && c <= '9') || ('A' <= c && c <= 'Z') || ('a' <= c && c <= 'z')
}

/// Calls `rand::thread_rng().sample_iter(Alphanumeric)` for `len` characters:
/// a random token of ASCII letters and digits.
#[verifier::external_body]
fn generate_token(len: usize) -> (t: String)
    ensures
        t@.len() == len,
        forall|i: int| 0 <= i < t@.len() ==> is_alphanumeric_ascii(#[trigger] t@[i]),
{
    rand::thread_rng().sample_iter(&rand::distributions::Alphanumeric).take(len).map(char::from).collect()
}

/// What to do after the first message of a connection.
#[derive(Debug)]
pub enum HelloDecision {
    /// Nothing usable arrived: close the connection.
    Close,
    /// Send this refusal and close the connection.
    Refuse(AuthResponse),
    /// Store this new device; `token` is handed to the device on success.
    Register { device: DeviceRow, token: String },
    /// Look the device up and check the presented token.
    Lookup { device_id: String, token: String },
}

/// The row stored for a device registered at `now` with `token`.
pub open spec fn registered_row(row: DeviceRow, device_id: Seq<char>, friendly_name: Seq<char>, token: Seq<char>, now: i64) -> bool {
    &&& row.device_id@ == device_id
    &&& row.friendly_name@ == friendly_name
    &&& row.token_hash@ == spec_token_hash(token)
    &&& row.created_at == now
    &&& row.last_seen == now
}

/// Decides on the first message of a connection (`None` when it was not a
/// well-formed text message). Registration is only possible while the
/// pairing window is open; a fresh random token is then issued and only its
/// hash is kept in the row.
pub fn decide_hello(hello: Option<AuthMessage>, pairing_active: bool, now: i64) -> (d: HelloDecision)
    ensures
        match hello {
            None => d is Close,
            Some(AuthMessage::Register { device_id, friendly_name }) => if pairing_active {
                d matches HelloDecision::Register { device, token }
                    && registered_row(device, device_id@, friendly_name@, token@, now)
                    && token@.len() == TOKEN_LEN
                    && forall|i: int| 0 <= i < token@.len() ==> is_alphanumeric_ascii(#[trigger] token@[i])
            } else {
                d matches HelloDecision::Refuse(AuthResponse::Error { message })
                    && message@ == "Pairing mode is disabled"@
            },
            Some(AuthMessage::Auth { device_id: id, token: tok }) => d
                matches HelloDecision::Lookup { device_id, token } && device_id == id && token == tok,
        },
{
    match hello {
        None => HelloDecision::Close,
        Some(AuthMessage::Register { device_id, friendly_name }) => {
            if pairing_active {
                let token = generate_token(TOKEN_LEN);
                let token_hash = hash_token(token.as_str());
                let device = DeviceRow { device_id, friendly_name, token_hash, created_at: now, last_seen: now };
                HelloDecision::Register { device, token }
            } else {
                HelloDecision::Refuse(AuthResponse::Error { message: "Pairing mode is disabled".to_owned() })
            }
        },
        Some(AuthMessage::Auth { device_id, token }) => HelloDecision::Lookup { device_id, token },
    }
}

/// The reply to a registration, given how storing the new row went, and the
/// streaming session of the newly registered device (`None` on failure).
pub fn finish_registration(stored: Result<(), SentinelError>, device_id: String, token: String) -> (r: (AuthResponse, Option<IngestSession>))
    ensures
        match stored {
            Ok(()) => r.0 == AuthResponse::Registered { token } && (r.1 matches Some(s) && s.device() == device_id@),
            Err(e) => (r.0 matches AuthResponse::Error { message }
                && message@ == "Registration failed: "@ + e.spec_message()) && r.1 is None,
        },
{
    match stored {
        Ok(()) => (AuthResponse::Registered { token }, Some(IngestSession { device_id })),
        Err(e) => {
            let mut message = "Registration failed: ".to_owned();
            message.append(e.to_message().as_str());
            (AuthResponse::Error { message }, None)
        },
    }
}

/// Whether a looked-up device accepts `token`: it must exist and the hash of
/// the presented token must equal the stored hash.
pub open spec fn accepts(lookup: Result<Option<DeviceRow>, SentinelError>, token: Seq<char>) -> bool {
    lookup matches Ok(Some(dev)) && dev.token_hash@ == spec_token_hash(token)
}

/// The reply to an authentication request, given the device lookup, and the
/// streaming session of the authenticated device (`None` when refused).
pub fn finish_authentication(lookup: Result<Option<DeviceRow>, SentinelError>, device_id: String, token: &str) -> (r: (AuthResponse, Option<IngestSession>))
    ensures
        accepts(lookup, token@) ==> r.0 is Authenticated && (r.1 matches Some(s) && s.device() == device_id@),
        !accepts(lookup, token@) ==> r.1 is None,
        lookup matches Ok(Some(dev)) && !accepts(lookup, token@) ==> (r.0 matches AuthResponse::Error { message }
            && message@ == "Invalid token"@),
        !(lookup matches Ok(Some(_))) ==> (r.0 matches AuthResponse::Error { message }
            && message@ == "Device not found"@),
{
    match lookup {
        Ok(Some(dev)) => {
            let presented = hash_token(token);
            if dev.token_hash == presented {
                (AuthResponse::Authenticated, Some(IngestSession { device_id }))
            } else {
                (AuthResponse::Error { message: "Invalid token".to_owned() }, None)
            }
        },
        _ => (AuthResponse::Error { message: "Device not found".to_owned() }, None),
    }
}

/// A device row stored at registration accepts the token that was issued
/// with it: the token handed to the device authenticates it later.
pub proof fn lemma_issued_token_authenticates(
    row: DeviceRow,
    device_id: Seq<char>,
    friendly_name: Seq<char>,
    token: Seq<char>,
    now: i64,
)
    requires
        registered_row(row, device_id, friendly_name, token, now),
    ensures
        accepts(Ok(Some(row)), token),
{
}

/// A message received after authentication.
#[derive(Debug)]
pub enum Frame {
    Text(String),
    Binary(Vec<u8>),
    Ping(Vec<u8>),
    Close,
    /// The connection failed.
    Failed,
    /// Anything else (e.g. a pong).
    Other,
}

/// What to do with a frame from an authorized device.
#[derive(Debug)]
pub enum FrameAction {
    /// Encrypt and store these payload bytes, then acknowledge.
    Store(Vec<u8>),
    /// Answer a ping with a pong carrying the same data.
    Pong(Vec<u8>),
    /// End the session.
    Stop,
    /// Nothing to do.
    Ignore,
}

/// Maps a frame to an action: binary payloads and text payloads (as their
/// UTF-8 bytes) are stored, pings answered, close and failures end the session.
pub fn ingest_frame(frame: Frame) -> (a: FrameAction)
    ensures
        match frame {
            Frame::Text(t) => a matches FrameAction::Store(b) && b@ == vstd::utf8::encode_utf8(t@),
            Frame::Binary(b) => a == FrameAction::Store(b),
            Frame::Ping(d) => a == FrameAction::Pong(d),
            Frame::Close => a is Stop,
            Frame::Failed => a is Stop,
            Frame::Other => a is Ignore,
        },
{
    match frame {
        Frame::Text(t) => FrameAction::Store(t.as_str().as_bytes_vec()),
        Frame::Binary(b) => FrameAction::Store(b),
        Frame::Ping(d) => FrameAction::Pong(d),
        Frame::Close => FrameAction::Stop,
        Frame::Failed => FrameAction::Stop,
        Frame::Other => FrameAction::Ignore,
    }
}

/// The payload bytes a frame carries: a binary frame's bytes, a text
/// frame's UTF-8 bytes; `None` for any other frame.
pub open spec fn frame_payload(frame: Frame) -> Option<Seq<u8>> {
    match frame {
        Frame::Text(t) => Some(vstd::utf8::encode_utf8(t@)),
        Frame::Binary(b) => Some(b@),
        _ => None,
    }
}

/// The streaming session of a device that passed the handshake. Only
/// `finish_registration` and `finish_authentication` hand one out, so nothing
/// is ingested before authentication.
pub struct IngestSession {
    device_id: String,
}

/// What to do with a frame received in a session.
#[derive(Debug)]
pub enum IngestAction {
    /// Store this sealed blob for the device, then acknowledge.
    Store { device_id: String, sealed: Vec<u8> },
    /// The payload could not be sealed: report the error; nothing is stored.
    Failed(SentinelError),
    /// Answer a ping with a pong carrying the same data.
    Pong(Vec<u8>),
    /// End the session.
    Stop,
    /// Nothing to do.
    Ignore,
}

impl IngestSession {
    /// The device this session belongs to.
    pub closed spec fn device(&self) -> Seq<char> {
        self.device_id@
    }

    /// The device this session belongs to.
    pub fn device_id(&self) -> (d: &String)
        ensures
            d@ == self.device(),
    {
        &self.device_id
    }

    /// Handles one frame. A payload is sealed under `key` before it is handed
    /// out for storage, so only sealed blobs reach the store.
    pub fn handle(&self, frame: Frame, key: &[u8; 32]) -> (a: IngestAction)
        ensures
            match frame_payload(frame) {
                Some(p) => if p.len() <= MAX_PLAINTEXT_LEN {
                    a matches IngestAction::Store { device_id, sealed } && device_id@ == self.device()
                        && sealed_blob(key@, p, sealed@) && sealed@.len() == NONCE_LEN + p.len() + TAG_LEN
                } else {
                    a matches IngestAction::Failed(SentinelError::Crypto(m)) && m@ == "aead::Error"@
                },
                None => match frame {
                    Frame::Ping(d) => a == IngestAction::Pong(d),
                    Frame::Other => a is Ignore,
                    _ => a is Stop,
                },
            },
    {
        match ingest_frame(frame) {
            FrameAction::Store(payload) => match encrypt_payload(payload.as_slice(), key) {
                Ok(sealed) => IngestAction::Store { device_id: self.device_id.clone(), sealed },
                Err(e) => IngestAction::Failed(e),
            },
            FrameAction::Pong(d) => IngestAction::Pong(d),
            FrameAction::Stop => IngestAction::Stop,
            FrameAction::Ignore => IngestAction::Ignore,
        }
    }
}

} // verus!
