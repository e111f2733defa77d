//! The decisions of the HTTP endpoint that receives interactions: which
//! requests are refused and with what status, and what an authenticated
//! interaction is answered with.

use ed25519_dalek::Verifier;

use vstd::prelude::*;

use crate::context::InteractionType;

verus! {

pub const STATUS_OK: u16 = 200;

pub const STATUS_BAD_REQUEST: u16 = 400;

pub const STATUS_UNAUTHORIZED: u16 = 401;

pub const STATUS_NOT_FOUND: u16 = 404;

pub const STATUS_METHOD_NOT_ALLOWED: u16 = 405;

/// What is known of a request before its body is read.
#[derive(Clone, Copy, Debug, PartialEq, Eq, Structural)]
pub struct RequestHead {
    pub is_post: bool,
    pub path_is_root: bool,
    pub has_timestamp: bool,
    pub has_signature: bool,
}

/// The status a request is refused with before its body is read, in the
/// order the checks are made: method, path, timestamp header, signature
/// header.
pub open spec fn spec_refusal(head: RequestHead) -> Option<u16> {
    if !head.is_post {
        Some(STATUS_METHOD_NOT_ALLOWED)
    } else if !head.path_is_root {
        Some(STATUS_NOT_FOUND)
    } else if !head.has_timestamp || !head.has_signature {
        Some(STATUS_BAD_REQUEST)
    } else {
        None
    }
}

/// The status the request is refused with, or `None` where its body is to be
/// read and its signature checked.
pub fn refusal(head: RequestHead) -> (r: Option<u16>)
    ensures
        r == spec_refusal(head),
{
    if !head.is_post {
        Some(STATUS_METHOD_NOT_ALLOWED)
    } else if !head.path_is_root {
        Some(STATUS_NOT_FOUND)
    } else if !head.has_timestamp || !head.has_signature {
        Some(STATUS_BAD_REQUEST)
    } else {
        None
    }
}

/// Whether `signature` is an Ed25519 signature of `message` under the public
/// key `key`, as `ed25519-dalek` decides: bytes that are no valid key, or no
/// well-formed signature, verify nothing.
pub uninterp spec fn ed25519_accepts(key: Seq<u8>, message: Seq<u8>, signature: Seq<u8>) -> bool;

/// Relies on `ed25519_dalek::PublicKey::verify` (with the key read by
/// `PublicKey::from_bytes` and the signature by `Signature::from_bytes`):
/// whether the signature of `message` checks out under `key`.
#[verifier::external_body]
fn ed25519_verify(key: &[u8; 32], message: &[u8], signature: &[u8; 64]) -> (r: bool)
    ensures
        r == ed25519_accepts(key@, message@, signature@),
{
    let Ok(key) = ed25519_dalek::PublicKey::from_bytes(key) else {
        return false;
    };
    let Ok(signature) = ed25519_dalek::Signature::from_bytes(signature) else {
        return false;
    };
    key.verify(message, &signature).is_ok()
}

/// The bytes that a request's signature covers: its timestamp header, then
/// its body.
pub fn signed_message(timestamp: &[u8], body: &[u8]) -> (r: Vec<u8>)
    ensures
        r@ == timestamp@ + body@,
{
    let mut r: Vec<u8> = Vec::new();
    let mut i: usize = 0;
    while i < timestamp.len()
        invariant
            i <= timestamp@.len(),
            r@ == timestamp@.take(i as int),
        decreases timestamp@.len() - i,
    {
        r.push(timestamp[i]);
        i = i + 1;
        assert(r@ =~= timestamp@.take(i as int));
    }
    let mut j: usize = 0;
    while j < body.len()
        invariant
            i == timestamp@.len(),
            j <= body@.len(),
            r@ == timestamp@.take(i as int) + body@.take(j as int),
        decreases body@.len() - j,
    {
        r.push(body[j]);
        j = j + 1;
        assert(r@ =~= timestamp@.take(i as int) + body@.take(j as int));
    }
    assert(timestamp@.take(i as int) =~= timestamp@);
    assert(body@.take(j as int) =~= body@);
    r
}

/// Whether a request is signed by the holder of `key`: the signature must
/// cover the timestamp header followed by the body.
pub fn signature_valid(key: &[u8; 32], timestamp: &[u8], body: &[u8], signature: &[u8; 64]) -> (r:
    bool)
    ensures
        r == ed25519_accepts(key@, timestamp@ + body@, signature@),
{
    let message = signed_message(timestamp, body);
    ed25519_verify(key, message.as_slice(), signature)
}

/// How a request whose body was read is answered.
#[derive(Clone, Copy, Debug, PartialEq, Eq, Structural)]
pub enum Answer {
    /// An empty response with this status.
    Refuse(u16),
    /// A pong, with status 200.
    Pong,
    /// The command's response, with status 200.
    RunCommand,
}

/// The answer to a request with a body: unauthorized where the signature
/// does not match, else by the interaction's type.
pub open spec fn spec_answer(signature_valid: bool, kind: InteractionType) -> Answer {
    if !signature_valid {
        Answer::Refuse(STATUS_UNAUTHORIZED)
    } else {
        match kind {
            InteractionType::Ping => Answer::Pong,
            InteractionType::ApplicationCommand => Answer::RunCommand,
            _ => Answer::Refuse(STATUS_BAD_REQUEST),
        }
    }
}

/// Decides the answer to a request with a body.
pub fn answer(signature_valid: bool, kind: InteractionType) -> (r: Answer)
    ensures
        r == spec_answer(signature_valid, kind),
{
    if !signature_valid {
        Answer::Refuse(STATUS_UNAUTHORIZED)
    } else {
        match kind {
            InteractionType::Ping => Answer::Pong,
            InteractionType::ApplicationCommand => Answer::RunCommand,
            _ => Answer::Refuse(STATUS_BAD_REQUEST),
        }
    }
}

} // verus!
