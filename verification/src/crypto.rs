//! The two primitives that authenticate gossip: the double SHA-256 digest and
//! ECDSA verification over secp256k1. Both are computed by the crates that
//! implement them; this module names their results and combines them.
use bitcoin::hashes::sha256d;
use secp256k1::ecdsa::Signature;
use secp256k1::Message;
use secp256k1::PublicKey;
use secp256k1::Secp256k1;
use vstd::prelude::*;
use vstd::slice::slice_subrange;

verus! {

/// Length of a compact ECDSA signature on the wire.
pub const SIGNATURE_LEN: usize = 64;

/// The double SHA-256 digest of `data`, as `bitcoin::hashes::sha256d` computes
/// it. Nothing is stated of its value but that it is 32 bytes long.
pub uninterp spec fn sha256d_digest(data: Seq<u8>) -> Seq<u8>;

/// Whether secp256k1 accepts `signature`, 64 bytes in compact form, as an ECDSA
/// signature of the 32-byte `digest` under the compressed public key `key`.
/// It is false where one of the three does not parse.
pub uninterp spec fn ecdsa_valid(key: Seq<u8>, digest: Seq<u8>, signature: Seq<u8>) -> bool;

/// Whether `signature` signs the double SHA-256 digest of `payload` under `key`.
pub open spec fn signature_covers(key: Seq<u8>, payload: Seq<u8>, signature: Seq<u8>) -> bool {
    ecdsa_valid(key, sha256d_digest(payload), signature)
}

/// Calls `bitcoin::hashes::sha256d::Hash::hash` and hands out the digest's 32
/// bytes in the order in which the hash function produced them. Trusted: the
/// result is the digest of exactly the bytes given.
#[verifier::external_body]
pub(crate) fn sha256d(data: &[u8]) -> (digest: [u8; 32])
    ensures
        digest@ == sha256d_digest(data@),
{
    let hash: sha256d::Hash = bitcoin::hashes::Hash::hash(data);
    bitcoin::hashes::Hash::into_inner(hash)
}

/// Calls `secp256k1::Secp256k1::verify_ecdsa` on a verification-only context,
/// after parsing the key with `PublicKey::from_slice`, the signature with
/// `ecdsa::Signature::from_compact` and the digest with `Message::from_slice`.
/// Trusted: the answer is true exactly where all three parse and the
/// verification returns `Ok`, and depends on the three byte strings alone.
#[verifier::external_body]
pub(crate) fn ecdsa_verify(key: &[u8; 33], digest: &[u8; 32], signature: &[u8]) -> (valid: bool)
    ensures
        valid == ecdsa_valid(key@, digest@, signature@),
{
    let parsed =
        (PublicKey::from_slice(key), Message::from_slice(digest), Signature::from_compact(signature));
    match parsed {
        (Ok(key), Ok(message), Ok(signature)) => {
            Secp256k1::verification_only().verify_ecdsa(&message, &signature, &key).is_ok()
        },
        _ => false,
    }
}

/// Checks that `signature` signs `payload` under `key`: the payload is hashed
/// twice with SHA-256 and the signature is verified against that digest.
pub fn verify_signature(key: &[u8; 33], payload: &[u8], signature: &[u8]) -> (valid: bool)
    ensures
        valid == signature_covers(key@, payload@, signature@),
{
    let digest = sha256d(payload);
    ecdsa_verify(key, &digest, signature)
}

/// Whether a signature stands at `offset` in `wire`, 64 bytes long, that signs
/// `payload` under `key`.
pub open spec fn signed_at(wire: Seq<u8>, offset: int, key: Seq<u8>, payload: Seq<u8>) -> bool {
    &&& 0 <= offset
    &&& offset + SIGNATURE_LEN <= wire.len()
    &&& signature_covers(key, payload, wire.subrange(offset, offset + SIGNATURE_LEN as int))
}

/// Checks the signature that starts at `offset` in `wire` against `key` and
/// `payload`. Where `wire` does not reach that far, there is no signature.
pub fn verify_signature_at(wire: &[u8], offset: usize, key: &[u8; 33], payload: &[u8]) -> (valid:
    bool)
    ensures
        valid == signed_at(wire@, offset as int, key@, payload@),
{
    let len = wire.len();
    if offset > len || len - offset < SIGNATURE_LEN {
        return false;
    }
    let signature = slice_subrange(wire, offset, offset + SIGNATURE_LEN);
    verify_signature(key, payload, signature)
}

} // verus!
