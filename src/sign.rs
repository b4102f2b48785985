//! Ed25519 signing and verification of envelopes. Keys travel as their
//! 32-byte encodings: the secret key's seed and the public key's compressed
//! point.
use crate::canonical::{envelope_signing_bytes, signing_bytes_of};
use crate::enums::SigAlg;
use crate::types::Envelope;
use crate::validate::SIGNATURE_LEN;
use ed25519_dalek::{Signature, Signer, SigningKey, Verifier, VerifyingKey};
use vstd::prelude::*;

verus! {

/// The Ed25519 signature (RFC 8032, deterministic) that the secret key with
/// seed `sk` gives for `msg`.
pub uninterp spec fn ed25519_signature_of(sk: Seq<u8>, msg: Seq<u8>) -> Seq<u8>;

/// Whether `sig` is a valid Ed25519 signature of `msg` under the public key
/// whose compressed encoding is `pk`; false where `pk` encodes no point.
pub uninterp spec fn ed25519_verifies(pk: Seq<u8>, msg: Seq<u8>, sig: Seq<u8>) -> bool;

/// Relies on ed25519-dalek's `SigningKey::from_bytes` and `Signer::sign`
/// (whose `try_sign` cannot fail for this key type): the deterministic
/// Ed25519 signature of the message.
#[verifier::external_body]
pub fn sign(signing_key: &[u8; 32], msg: &[u8]) -> (r: [u8; 64])
    ensures
        r@ == ed25519_signature_of(signing_key@, msg@),
{
    SigningKey::from_bytes(signing_key).sign(msg).to_bytes()
}

/// Relies on ed25519-dalek's `VerifyingKey::from_bytes`, ed25519's
/// `Signature::from_slice` (which succeeds on 64 bytes) and
/// `Verifier::verify`: whether the signature checks; a key that encodes no
/// point accepts nothing.
#[verifier::external_body]
fn ed25519_verify(verifying_key: &[u8; 32], msg: &[u8], sig: &[u8]) -> (r: bool)
    requires
        sig@.len() == 64,
    ensures
        r == ed25519_verifies(verifying_key@, msg@, sig@),
{
    match (VerifyingKey::from_bytes(verifying_key), Signature::from_slice(sig)) {
        (Ok(k), Ok(s)) => k.verify(msg, &s).is_ok(),
        _ => false,
    }
}

/// Checks a detached signature over `msg`; a signature that is not 64 bytes
/// long is rejected.
pub fn verify(verifying_key: &[u8; 32], msg: &[u8], sig: &[u8]) -> (r: bool)
    ensures
        r == (sig@.len() == SIGNATURE_LEN && ed25519_verifies(verifying_key@, msg@, sig@)),
{
    if sig.len() != SIGNATURE_LEN {
        return false;
    }
    ed25519_verify(verifying_key, msg, sig)
}

/// Signs the envelope: sets the algorithm and key id, then stores the
/// signature over the envelope's signing bytes. Nothing else changes.
pub fn sign_envelope_ed25519(env: &mut Envelope, key_id: &str, signing_key: &[u8; 32])
    requires
        old(env).payload is Some,
    ensures
        *final(env) == (Envelope {
            sig_alg: SigAlg::Ed25519,
            key_id: final(env).key_id,
            signature: final(env).signature,
            ..*old(env)
        }),
        final(env).key_id@ == key_id@,
        final(env).signature@ == ed25519_signature_of(signing_key@, signing_bytes_of(*final(env))),
        final(env).signature@.len() == SIGNATURE_LEN,
{
    env.sig_alg = SigAlg::Ed25519;
    env.key_id = key_id.to_owned();
    let msg = envelope_signing_bytes(env);
    let sig = sign(signing_key, msg.as_slice());
    let mut out: Vec<u8> = Vec::new();
    let mut i: usize = 0;
    while i < 64
        invariant
            i <= 64,
            out@ == sig@.subrange(0, i as int),
        decreases 64 - i,
    {
        out.push(sig[i]);
        assert(sig@.subrange(0, i + 1) =~= sig@.subrange(0, i as int).push(sig@[i as int]));
        i = i + 1;
    }
    assert(sig@.subrange(0, 64) =~= sig@);
    env.signature = out;
}

/// Verifies the envelope's signature with the public key `verifying_key`:
/// true exactly when the algorithm is Ed25519, the signature is 64 bytes
/// long, a payload is present and the signature checks over the envelope's
/// signing bytes.
pub fn verify_envelope_ed25519(env: &Envelope, verifying_key: &[u8; 32]) -> (r: bool)
    ensures
        r == (env.sig_alg == SigAlg::Ed25519 && env.signature@.len() == SIGNATURE_LEN && env.payload is Some
            && ed25519_verifies(verifying_key@, signing_bytes_of(*env), env.signature@)),
{
    if env.sig_alg != SigAlg::Ed25519 {
        return false;
    }
    if env.signature.len() != SIGNATURE_LEN {
        return false;
    }
    if env.payload.is_none() {
        return false;
    }
    let msg = envelope_signing_bytes(env);
    ed25519_verify(verifying_key, msg.as_slice(), env.signature.as_slice())
}

} // verus!
