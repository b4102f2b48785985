use crate::enums::{MsgClass, SigAlg};
use crate::error::ValidateError;
use crate::types::{Envelope, Payload, EXPECTED_PROTO_VER};
use vstd::prelude::*;

verus! {

/// Length of an Ed25519 signature.
pub const SIGNATURE_LEN: usize = 64;

/// The name of a payload's domain, as validation errors report it.
pub open spec fn payload_kind_of(p: Payload) -> &'static str {
    match p {
        Payload::Telemetry(_) => "telemetry",
        Payload::Command(_) => "command",
        Payload::Config(_) => "config",
        Payload::Engineering(_) => "engineering",
    }
}

/// The outcome of validation: the checks in order, the first failure wins.
pub open spec fn validation_of(env: Envelope) -> Result<(), ValidateError> {
    if env.proto_ver != EXPECTED_PROTO_VER {
        Err(ValidateError::BadProtoVer { got: env.proto_ver, expected: EXPECTED_PROTO_VER })
    } else if env.ttl_ms == 0 {
        Err(ValidateError::BadTtl)
    } else if env.counter == 0 {
        Err(ValidateError::BadCounter)
    } else if env.sig_alg != SigAlg::Ed25519 {
        Err(ValidateError::BadSigAlg { got: env.sig_alg })
    } else if env.signature@.len() != SIGNATURE_LEN {
        Err(ValidateError::BadSignatureLen { expected: SIGNATURE_LEN, got: env.signature@.len() as usize })
    } else if env.key_id@.len() == 0 {
        Err(ValidateError::BadKeyId)
    } else if env.payload is None {
        Err(ValidateError::MissingPayload)
    } else if env.msg_class != env.payload.unwrap().msg_class() {
        Err(ValidateError::MsgClassMismatch {
            msg_class: env.msg_class,
            payload_kind: payload_kind_of(env.payload.unwrap()),
        })
    } else {
        Ok(())
    }
}

/// Checks the protocol invariants of an envelope.
pub fn envelope_validate(env: &Envelope) -> (r: Result<(), ValidateError>)
    ensures
        r == validation_of(*env),
{
    if env.proto_ver != EXPECTED_PROTO_VER {
        return Err(ValidateError::BadProtoVer { got: env.proto_ver, expected: EXPECTED_PROTO_VER });
    }
    if env.ttl_ms == 0 {
        return Err(ValidateError::BadTtl);
    }
    if env.counter == 0 {
        return Err(ValidateError::BadCounter);
    }
    if env.sig_alg != SigAlg::Ed25519 {
        return Err(ValidateError::BadSigAlg { got: env.sig_alg });
    }
    if env.signature.len() != SIGNATURE_LEN {
        return Err(ValidateError::BadSignatureLen { expected: SIGNATURE_LEN, got: env.signature.len() });
    }
    if env.key_id.as_str().is_empty() {
        return Err(ValidateError::BadKeyId);
    }
    match &env.payload {
        None => Err(ValidateError::MissingPayload),
        Some(p) => {
            let (expected, kind) = match p {
                Payload::Telemetry(_) => (MsgClass::Telemetry, "telemetry"),
                Payload::Command(_) => (MsgClass::Command, "command"),
                Payload::Config(_) => (MsgClass::Config, "config"),
                Payload::Engineering(_) => (MsgClass::Engineering, "engineering"),
            };
            if env.msg_class != expected {
                Err(ValidateError::MsgClassMismatch { msg_class: env.msg_class, payload_kind: kind })
            } else {
                Ok(())
            }
        },
    }
}

} // verus!
