use crate::enums::{MsgClass, SigAlg};
use vstd::prelude::*;

verus! {

/// Why an envelope is rejected by validation; each variant carries the
/// offending values.
#[derive(Clone, Debug, PartialEq, Eq)]
pub enum ValidateError {
    BadProtoVer { got: u32, expected: u32 },
    MissingPayload,
    MsgClassMismatch { msg_class: MsgClass, payload_kind: &'static str },
    BadTtl,
    BadCounter,
    BadSigAlg { got: SigAlg },
    BadSignatureLen { expected: usize, got: usize },
    BadKeyId,
}

/// Failure of the wire codec or of conversion from the wire model.
#[derive(Clone, Debug, PartialEq, Eq)]
pub enum WireError {
    Decode(String),
    Encode(String),
    Convert(String),
}

#[verifier::external_type_specification]
#[verifier::external_body]
pub struct ExIoError(std::io::Error);

/// Failure of record framing.
#[derive(Debug)]
pub enum RecordError {
    Io(std::io::Error),
    TooLarge { len: usize, max: usize },
    Truncated { expected: usize, got: usize },
}

/// Failure of a whole-message transport operation; it keeps the kind of the
/// stage that failed.
#[derive(Debug)]
pub enum TransportError {
    Io(std::io::Error),
    Record(RecordError),
    Wire(WireError),
    Validate(ValidateError),
}

} // verus!
