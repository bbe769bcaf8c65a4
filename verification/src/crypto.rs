//! Signature verification over domain-separated digests.
//!
//! An action is authorized when its Ed25519 signature, produced by the
//! holder of the group key's private counterpart, validates over the
//! SHA-512 digest of `context tag ++ canonical payload bytes`. The digest
//! and the verification itself are outside calls; their results are given
//! names here (`sha512_of`, `ed25519_verifies`) and everything the
//! contracts state goes through those names.

use vstd::prelude::*;
use sha2::Digest;
use crate::codec::push_all;

verus! {

/// The SHA-512 digest of a byte sequence.
pub uninterp spec fn sha512_of(msg: Seq<u8>) -> Seq<u8>;

/// Whether an Ed25519 signature validates over a message under a 32-byte
/// public key.
pub uninterp spec fn ed25519_verifies(key: Seq<u8>, msg: Seq<u8>, sig: Seq<u8>) -> bool;

/// Relies on sha2::Sha512::digest: the digest is 64 bytes and depends on
/// the input bytes alone.
#[verifier::external_body]
fn sha512(msg: &Vec<u8>) -> (r: Vec<u8>)
    ensures
        r@ == sha512_of(msg@),
        r@.len() == 64,
{
    sha2::Sha512::digest(msg.as_slice()).to_vec()
}

/// Relies on ed25519_compact::PublicKey::verify: acceptance of a
/// signature depends on the key, message and signature bytes alone, and
/// the call returns a Result rather than panicking.
#[verifier::external_body]
fn ed25519_verify(key: &[u8; 32], msg: &Vec<u8>, sig: &Vec<u8>) -> (r: bool)
    requires
        sig@.len() == 64,
    ensures
        r == ed25519_verifies(key@, msg@, sig@),
{
    let pk = ed25519_compact::PublicKey::new(*key);
    let mut sig_bytes = [0u8; 64];
    sig_bytes.copy_from_slice(sig.as_slice());
    let s = ed25519_compact::Signature::new(sig_bytes);
    pk.verify(msg.as_slice(), &s).is_ok()
}

/// Whether `sig` is an accepted signature under `key` over the digest of
/// `msg`: it has the right length and Ed25519 accepts it.
pub open spec fn sig_accepted(key: Seq<u8>, msg: Seq<u8>, sig: Seq<u8>) -> bool {
    sig.len() == 64 && ed25519_verifies(key, sha512_of(msg), sig)
}

/// Whether `sig` authorizes `payload` for the operation tagged `tag`
/// under `key`: the signature is over the digest of the tag followed by
/// the canonical payload bytes, so it can never be replayed against
/// another operation type.
pub open spec fn action_authorized(
    key: Seq<u8>,
    tag: Seq<u8>,
    payload: Seq<u8>,
    sig: Seq<u8>,
) -> bool {
    sig_accepted(key, tag + payload, sig)
}

/// Verifies a signature over the digest of a message.
pub fn verify_hashed_sig(key: &[u8; 32], msg: &Vec<u8>, sig: &Vec<u8>) -> (r: bool)
    ensures
        r == sig_accepted(key@, msg@, sig@),
{
    if sig.len() != 64 {
        return false;
    }
    let digest = sha512(msg);
    ed25519_verify(key, &digest, sig)
}

/// Verifies a signature over the domain-separated digest of a payload.
pub fn verify_action_sig(key: &[u8; 32], tag: &Vec<u8>, payload: &Vec<u8>, sig: &Vec<u8>) -> (r:
    bool)
    ensures
        r == action_authorized(key@, tag@, payload@, sig@),
{
    let mut msg: Vec<u8> = Vec::new();
    push_all(&mut msg, tag);
    push_all(&mut msg, payload);
    proof {
        assert(msg@ =~= tag@ + payload@);
    }
    verify_hashed_sig(key, &msg, sig)
}

} // verus!
