//! Wire records and the request/reply protocol of the named message port.
//!
//! Each request and each reply is a fixed-size binary record agreed by both
//! ends out of band. A request is a single tag byte; the version reply is
//! three little-endian 16-bit fields; the shutdown acknowledgement is an
//! empty record. A request of the wrong byte size is bogus: the server
//! answers it with an empty reply and never hands it to the handler.

use vstd::arithmetic::div_mod::{lemma_fundamental_div_mod, lemma_fundamental_div_mod_converse};
use vstd::prelude::*;

use crate::version::AppVersion;

verus! {

/// Byte length of every client request record.
pub const REQUEST_SIZE: usize = 1;

/// Byte length of the version-query reply record.
pub const VERSION_REPLY_SIZE: usize = 6;

/// Tag byte of the version-query request.
pub const REQUEST_VERSION_INFO: u8 = 0;

/// Tag byte of the shutdown request.
pub const REQUEST_SHUTDOWN: u8 = 1;

/// A client request as it travels on the wire: one tag byte.
#[derive(Clone, Copy, Debug, PartialEq, Eq, Structural)]
pub struct ClientRequest(pub u8);

/// The little-endian record of one 16-bit field.
pub open spec fn u16_le_bytes(v: u16) -> Seq<u8> {
    seq![(v as int % 256) as u8, (v as int / 256) as u8]
}

/// The 16-bit field a little-endian byte pair holds.
pub open spec fn u16_from_le(lo: u8, hi: u8) -> u16 {
    (lo + 256 * hi) as u16
}

/// The six-byte wire record of a version reply.
pub open spec fn version_bytes(v: AppVersion) -> Seq<u8> {
    u16_le_bytes(v.major) + u16_le_bytes(v.minor) + u16_le_bytes(v.patch)
}

/// The version a six-byte wire record holds.
pub open spec fn version_from_bytes(s: Seq<u8>) -> AppVersion
    recommends
        s.len() == VERSION_REPLY_SIZE,
{
    AppVersion {
        major: u16_from_le(s[0], s[1]),
        minor: u16_from_le(s[2], s[3]),
        patch: u16_from_le(s[4], s[5]),
    }
}

/// Appends the little-endian record of `v`.
fn push_u16_le(out: &mut Vec<u8>, v: u16)
    ensures
        final(out)@ == old(out)@ + u16_le_bytes(v),
{
    out.push((v % 256) as u8);
    out.push((v / 256) as u8);
    proof {
        assert(final(out)@ =~= old(out)@ + u16_le_bytes(v));
    }
}

/// Encodes a version as its six-byte wire record.
pub fn encode_version(v: &AppVersion) -> (r: Vec<u8>)
    ensures
        r@ == version_bytes(*v),
{
    let mut out: Vec<u8> = Vec::new();
    push_u16_le(&mut out, v.major);
    push_u16_le(&mut out, v.minor);
    push_u16_le(&mut out, v.patch);
    proof {
        assert(out@ =~= version_bytes(*v));
    }
    out
}

/// Reads the little-endian 16-bit field at offset `i`.
fn read_u16_le(bytes: &Vec<u8>, i: usize) -> (r: u16)
    requires
        i + 2 <= bytes@.len() <= usize::MAX,
    ensures
        r == u16_from_le(bytes@[i as int], bytes@[i + 1]),
{
    let lo = bytes[i];
    let hi = bytes[i + 1];
    (lo as u16) + (hi as u16) * 256
}

/// Decodes a version reply. Succeeds exactly on records of the agreed
/// size, and then yields the one version whose record the bytes are.
pub fn decode_version(bytes: &Vec<u8>) -> (r: Option<AppVersion>)
    ensures
        (r is Some) <==> bytes@.len() == VERSION_REPLY_SIZE,
        r is Some ==> r->0 == version_from_bytes(bytes@),
{
    if bytes.len() != VERSION_REPLY_SIZE {
        None
    } else {
        Some(
            AppVersion {
                major: read_u16_le(bytes, 0),
                minor: read_u16_le(bytes, 2),
                patch: read_u16_le(bytes, 4),
            },
        )
    }
}

/// Encodes a request as its single-byte wire record.
pub fn encode_request(req: ClientRequest) -> (r: Vec<u8>)
    ensures
        r@ == seq![req.0],
{
    let mut out: Vec<u8> = Vec::new();
    out.push(req.0);
    proof {
        assert(out@ =~= seq![req.0]);
    }
    out
}

proof fn lemma_u16_le_round_trip(v: u16)
    ensures
        u16_from_le(u16_le_bytes(v)[0], u16_le_bytes(v)[1]) == v,
{
    lemma_fundamental_div_mod(v as int, 256);
}

/// A version survives the trip onto the wire and back: decoding the record
/// that `version_bytes` lays out yields the version itself.
pub proof fn lemma_version_codec_round_trip(v: AppVersion)
    ensures
        version_bytes(v).len() == VERSION_REPLY_SIZE,
        version_from_bytes(version_bytes(v)) == v,
{
    lemma_u16_le_round_trip(v.major);
    lemma_u16_le_round_trip(v.minor);
    lemma_u16_le_round_trip(v.patch);
}

/// Every six-byte record is the wire form of exactly one version: encoding
/// what a record decodes to lays the same bytes back down.
pub proof fn lemma_version_codec_bijective(s: Seq<u8>)
    requires
        s.len() == VERSION_REPLY_SIZE,
    ensures
        version_bytes(version_from_bytes(s)) == s,
{
    let v = version_from_bytes(s);
    lemma_fundamental_div_mod_converse(s[0] + 256 * s[1], 256, s[1] as int, s[0] as int);
    lemma_fundamental_div_mod_converse(s[2] + 256 * s[3], 256, s[3] as int, s[2] as int);
    lemma_fundamental_div_mod_converse(s[4] + 256 * s[5], 256, s[5] as int, s[4] as int);
    assert(version_bytes(v) =~= s);
}

/// What the server sends back after a stop-serving request, once the reply
/// value has been handed to the transport.
#[derive(Clone, Copy, Debug, PartialEq, Eq, Structural)]
pub enum PostReplyEffect {
    /// Stop the serving loop; the serving thread then ends the process.
    StopServing,
}

/// A handler's answer to one request: an optional reply record and an
/// optional effect to run after the reply has been handed back.
pub struct ReplyWith {
    pub data: Option<Vec<u8>>,
    pub after_reply: Option<PostReplyEffect>,
}

impl ReplyWith {
    pub fn new(data: Option<Vec<u8>>, after_reply: Option<PostReplyEffect>) -> (r: ReplyWith)
        ensures
            r.data == data,
            r.after_reply == after_reply,
    {
        ReplyWith { data, after_reply }
    }
}

/// The reply record the service owes for a request tag: the running
/// version for a version query, an empty acknowledgement for a shutdown
/// request, and nothing for an unknown tag.
pub open spec fn reply_data_spec(current: AppVersion, tag: u8) -> Option<Seq<u8>> {
    if tag == REQUEST_VERSION_INFO {
        Some(version_bytes(current))
    } else if tag == REQUEST_SHUTDOWN {
        Some(Seq::<u8>::empty())
    } else {
        None
    }
}

/// The post-reply effect a request tag triggers: only a shutdown request
/// stops the serving loop.
pub open spec fn reply_effect_spec(tag: u8) -> Option<PostReplyEffect> {
    if tag == REQUEST_SHUTDOWN {
        Some(PostReplyEffect::StopServing)
    } else {
        None
    }
}

/// The service's handler: answers a version query with the running
/// version, a shutdown request with an empty acknowledgement and a
/// stop-serving effect, and any other tag with an empty reply.
pub fn handle_client_request(current: &AppVersion, req: ClientRequest) -> (r: ReplyWith)
    ensures
        r.after_reply == reply_effect_spec(req.0),
        (r.data is Some) <==> (reply_data_spec(*current, req.0) is Some),
        r.data is Some ==> (r.data->0)@ == reply_data_spec(*current, req.0)->0,
{
    if req.0 == REQUEST_VERSION_INFO {
        ReplyWith::new(Some(encode_version(current)), None)
    } else if req.0 == REQUEST_SHUTDOWN {
        ReplyWith::new(Some(Vec::new()), Some(PostReplyEffect::StopServing))
    } else {
        ReplyWith::new(None, None)
    }
}

/// One inbound message on the server's port. A payload whose byte length
/// is not the request size is rejected with an empty reply and no effect,
/// before the handler is reached; a well-sized payload is decoded and
/// answered by the handler.
pub fn handle_port_message(current: &AppVersion, msg: &Vec<u8>) -> (r: ReplyWith)
    ensures
        msg@.len() != REQUEST_SIZE ==> r.data is None && r.after_reply is None,
        msg@.len() == REQUEST_SIZE ==> r.after_reply == reply_effect_spec(msg@[0]),
        msg@.len() == REQUEST_SIZE ==> ((r.data is Some) <==> (reply_data_spec(
            *current,
            msg@[0],
        ) is Some)),
        msg@.len() == REQUEST_SIZE && r.data is Some ==> (r.data->0)@ == reply_data_spec(
            *current,
            msg@[0],
        )->0,
{
    if msg.len() != REQUEST_SIZE {
        ReplyWith::new(None, None)
    } else {
        handle_client_request(current, ClientRequest(msg[0]))
    }
}

/// The transport's verdict on one synchronous round trip.
#[derive(Clone, Copy, Debug, PartialEq, Eq, Structural)]
pub enum SendOutcome {
    Success,
    SendTimeout,
    ReceiveTimeout,
    InvalidPort,
    TransportError,
    BecameInvalid,
}

/// The outcome a transport status code stands for.
pub open spec fn outcome_of_code(code: int) -> SendOutcome {
    if code == 0 {
        SendOutcome::Success
    } else if code == -1 {
        SendOutcome::SendTimeout
    } else if code == -2 {
        SendOutcome::ReceiveTimeout
    } else if code == -3 {
        SendOutcome::InvalidPort
    } else if code == -4 {
        SendOutcome::TransportError
    } else {
        SendOutcome::BecameInvalid
    }
}

/// Classifies the transport's status code. The transport defines exactly
/// six codes; any other value would be a broken transport.
pub fn outcome_from_code(code: i32) -> (r: SendOutcome)
    requires
        -5 <= code <= 0,
    ensures
        r == outcome_of_code(code as int),
{
    if code == 0 {
        SendOutcome::Success
    } else if code == -1 {
        SendOutcome::SendTimeout
    } else if code == -2 {
        SendOutcome::ReceiveTimeout
    } else if code == -3 {
        SendOutcome::InvalidPort
    } else if code == -4 {
        SendOutcome::TransportError
    } else {
        SendOutcome::BecameInvalid
    }
}

/// Why a send aborted the operation that issued it.
#[derive(Clone, Copy, Debug, PartialEq, Eq, Structural)]
pub enum SendError {
    SendTimeout,
    ReceiveTimeout,
    InvalidPort,
    TransportError,
    BecameInvalid,
    /// The transport reported success but the reply payload was missing or
    /// not the expected record size.
    MalformedReply,
}

/// What a finished round trip hands the caller: the reply record on
/// success with a well-sized payload, and otherwise the error that aborts
/// the caller's current operation.
pub open spec fn complete_send_spec(
    outcome: SendOutcome,
    reply: Option<Vec<u8>>,
    expected_len: int,
) -> Result<Vec<u8>, SendError> {
    match outcome {
        SendOutcome::Success => match reply {
            Some(d) => if d@.len() == expected_len {
                Ok(d)
            } else {
                Err(SendError::MalformedReply)
            },
            None => Err(SendError::MalformedReply),
        },
        SendOutcome::SendTimeout => Err(SendError::SendTimeout),
        SendOutcome::ReceiveTimeout => Err(SendError::ReceiveTimeout),
        SendOutcome::InvalidPort => Err(SendError::InvalidPort),
        SendOutcome::TransportError => Err(SendError::TransportError),
        SendOutcome::BecameInvalid => Err(SendError::BecameInvalid),
    }
}

/// Finishes one synchronous round trip: keeps the reply record when the
/// transport succeeded and the payload has the expected size, and turns
/// every other outcome into the error that aborts the caller's operation.
pub fn complete_send(outcome: SendOutcome, reply: Option<Vec<u8>>, expected_len: usize) -> (r:
    Result<Vec<u8>, SendError>)
    ensures
        r == complete_send_spec(outcome, reply, expected_len as int),
{
    match outcome {
        SendOutcome::Success => match reply {
            Some(d) => if d.len() == expected_len {
                Ok(d)
            } else {
                Err(SendError::MalformedReply)
            },
            None => Err(SendError::MalformedReply),
        },
        SendOutcome::SendTimeout => Err(SendError::SendTimeout),
        SendOutcome::ReceiveTimeout => Err(SendError::ReceiveTimeout),
        SendOutcome::InvalidPort => Err(SendError::InvalidPort),
        SendOutcome::TransportError => Err(SendError::TransportError),
        SendOutcome::BecameInvalid => Err(SendError::BecameInvalid),
    }
}

/// Every transport outcome but success is fatal to the operation that sent
/// the request: the caller gets an error, never a made-up reply.
pub proof fn lemma_failed_send_aborts(
    outcome: SendOutcome,
    reply: Option<Vec<u8>>,
    expected_len: int,
)
    requires
        outcome != SendOutcome::Success,
    ensures
        complete_send_spec(outcome, reply, expected_len) is Err,
{
}

} // verus!
