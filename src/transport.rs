//! Whole-message operations over a byte stream. The wire codec's encode and
//! decode sit between these steps and are supplied by the caller.
use crate::convert::{envelope_core_to_proto, envelope_proto_to_core, envelope_wire};
use crate::error::{RecordError, TransportError};
use crate::proto;
use crate::record::{io_error_kind, read_exact_bytes, record_decode_from, record_encode, IoErrorKind, MAX_RECORD_LEN};
use crate::types::Envelope;
use crate::validate::{envelope_validate, validation_of};
use std::io::{Read, Write};
use vstd::prelude::*;

verus! {

/// Whether an I/O failure of this kind means the peer closed the connection.
pub open spec fn closes_stream(kind: IoErrorKind) -> bool {
    kind == IoErrorKind::UnexpectedEof || kind == IoErrorKind::ConnectionReset
        || kind == IoErrorKind::ConnectionAborted
}

pub fn is_closed(kind: IoErrorKind) -> (r: bool)
    ensures
        r == closes_stream(kind),
{
    match kind {
        IoErrorKind::UnexpectedEof | IoErrorKind::ConnectionReset | IoErrorKind::ConnectionAborted => true,
        IoErrorKind::Other => false,
    }
}

/// The first half of sending: validates the envelope and converts it to
/// the wire model. A validation failure is returned as `Validate`.
pub fn outbound_wire(env: Envelope) -> (r: Result<proto::Envelope, TransportError>)
    ensures
        r is Ok <==> validation_of(env) is Ok,
        r is Ok ==> envelope_wire(env, r->Ok_0),
        r is Err ==> (match r->Err_0 {
            TransportError::Validate(e) => validation_of(env) == Err::<(), _>(e),
            _ => false,
        }),
{
    match envelope_validate(&env) {
        Err(e) => Err(TransportError::Validate(e)),
        Ok(()) => Ok(envelope_core_to_proto(env)),
    }
}

/// Relies on std's `Write::write_all`; whether the stream took every byte
/// depends on the stream alone.
#[verifier::external_body]
fn write_all_bytes<W: Write>(stream: &mut W, bytes: &[u8]) -> (r: Result<(), std::io::Error>) {
    stream.write_all(bytes)
}

/// The second half of sending: frames the encoded envelope and writes the
/// whole record in one call. An oversized payload is refused before anything
/// is written.
pub fn write_frame<W: Write>(stream: &mut W, payload: &[u8]) -> (r: Result<(), TransportError>)
    ensures
        payload@.len() > MAX_RECORD_LEN ==> r is Err && (match r->Err_0 {
            TransportError::Record(RecordError::TooLarge { len, max }) => len == payload@.len() && max == MAX_RECORD_LEN,
            _ => false,
        }),
        payload@.len() <= MAX_RECORD_LEN && r is Err ==> r->Err_0 is Io,
{
    let record = match record_encode(payload) {
        Ok(b) => b,
        Err(e) => return Err(TransportError::Record(e)),
    };
    match write_all_bytes(stream, record.as_slice()) {
        Ok(()) => Ok(()),
        Err(e) => Err(TransportError::Io(e)),
    }
}

/// What reading a record's first byte means for a reader: the byte, or
/// `None` where the peer closed the connection before sending any byte of a
/// record, or the I/O error.
pub fn frame_start_outcome(first: Result<Vec<u8>, std::io::Error>, kind: IoErrorKind) -> (r: Result<
    Option<u8>,
    TransportError,
>)
    requires
        first matches Ok(b) ==> b@.len() == 1,
    ensures
        first matches Ok(b) ==> r == Ok::<Option<u8>, TransportError>(Some(b@[0])),
        first is Err && closes_stream(kind) ==> r == Ok::<Option<u8>, TransportError>(None),
        first is Err && !closes_stream(kind) ==> r is Err && (match r->Err_0 {
            TransportError::Record(RecordError::Io(x)) => x == first->Err_0,
            _ => false,
        }),
{
    match first {
        Ok(b) => Ok(Some(b[0])),
        Err(e) => {
            if is_closed(kind) {
                Ok(None)
            } else {
                Err(TransportError::Record(RecordError::Io(e)))
            }
        },
    }
}

/// The first half of receiving: reads one record of at most `MAX_RECORD_LEN`
/// bytes. Only a connection closed before any byte of the record yields
/// `None`; a close or a failure after the first byte is an error.
pub fn read_frame<R: Read>(stream: &mut R) -> (r: Result<Option<Vec<u8>>, TransportError>)
    ensures
        r matches Ok(Some(b)) ==> b@.len() <= MAX_RECORD_LEN,
        r matches Err(e) ==> e is Record,
{
    let first = read_exact_bytes(stream, 1);
    let kind = match &first {
        Err(e) => io_error_kind(e),
        Ok(_) => IoErrorKind::Other,
    };
    let b = match frame_start_outcome(first, kind) {
        Ok(Some(b)) => b,
        Ok(None) => return Ok(None),
        Err(e) => return Err(e),
    };
    match record_decode_from(stream, b, MAX_RECORD_LEN) {
        Ok(p) => Ok(Some(p)),
        Err(e) => Err(TransportError::Record(e)),
    }
}

/// The second half of receiving: converts a decoded wire envelope and
/// validates it. Signatures are not checked here.
pub fn inbound_envelope(w: proto::Envelope) -> (r: Result<Envelope, TransportError>)
    ensures
        r is Ok ==> envelope_wire(r->Ok_0, w) && r->Ok_0.wf() && validation_of(r->Ok_0) is Ok,
        r is Err ==> (match r->Err_0 {
            TransportError::Validate(e) => exists|d: Envelope|
                envelope_wire(d, w) && d.wf() && #[trigger] validation_of(d) == Err::<(), _>(e),
            _ => false,
        }),
{
    let env = match envelope_proto_to_core(w) {
        Ok(e) => e,
        Err(e) => return Err(TransportError::Wire(e)),
    };
    match envelope_validate(&env) {
        Ok(()) => Ok(env),
        Err(e) => {
            assert(envelope_wire(env, w) && env.wf() && validation_of(env) == Err::<(), _>(e));
            Err(TransportError::Validate(e))
        },
    }
}

} // verus!
