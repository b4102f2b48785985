use crate::canonical::be_u32;
use crate::error::RecordError;
use std::io::Read;
use vstd::prelude::*;

verus! {

/// Largest payload a record may carry: 1 MiB.
pub const MAX_RECORD_LEN: usize = 1048576;

/// The value of four bytes read as a big-endian `u32`.
pub open spec fn be_u32_value(b: Seq<u8>) -> int {
    b[0] * 16777216 + b[1] * 65536 + b[2] * 256 + b[3]
}

/// Encodes a payload as a record: its length as a big-endian `u32`, then
/// the payload unchanged. A payload over `MAX_RECORD_LEN` bytes is refused.
pub fn record_encode(payload: &[u8]) -> (r: Result<Vec<u8>, RecordError>)
    ensures
        r is Ok <==> payload@.len() <= MAX_RECORD_LEN,
        r is Ok ==> r->Ok_0@ == be_u32(payload@.len() as u32) + payload@,
        r is Err ==> match r->Err_0 {
            RecordError::TooLarge { len, max } => len == payload@.len() && max == MAX_RECORD_LEN,
            _ => false,
        },
{
    let len = payload.len();
    if len > MAX_RECORD_LEN {
        return Err(RecordError::TooLarge { len, max: MAX_RECORD_LEN });
    }
    let n = len as u32;
    let mut out: Vec<u8> = Vec::new();
    out.push((n >> 24u32) as u8);
    out.push((n >> 16u32) as u8);
    out.push((n >> 8u32) as u8);
    out.push(n as u8);
    let mut i: usize = 0;
    while i < len
        invariant
            len == payload@.len(),
            i <= len,
            out@ == be_u32(n) + payload@.subrange(0, i as int),
        decreases len - i,
    {
        out.push(payload[i]);
        assert(payload@.subrange(0, i + 1) =~= payload@.subrange(0, i as int).push(payload@[i as int]));
        i = i + 1;
    }
    assert(payload@.subrange(0, len as int) =~= payload@);
    Ok(out)
}

/// The length that a record's four-byte prefix announces, or `TooLarge`
/// where it exceeds `max_len`.
pub fn decode_record_len(prefix: &[u8], max_len: usize) -> (r: Result<usize, RecordError>)
    requires
        prefix@.len() == 4,
    ensures
        r is Ok <==> be_u32_value(prefix@) <= max_len,
        r is Ok ==> r->Ok_0 == be_u32_value(prefix@),
        r is Err ==> match r->Err_0 {
            RecordError::TooLarge { len, max } => len == be_u32_value(prefix@) && max == max_len,
            _ => false,
        },
{
    let len: u32 = (prefix[0] as u32) * 16777216 + (prefix[1] as u32) * 65536 + (prefix[2] as u32) * 256
        + (prefix[3] as u32);
    let len = len as usize;
    if len > max_len {
        Err(RecordError::TooLarge { len, max: max_len })
    } else {
        Ok(len)
    }
}

/// The kinds of I/O failure that framing tells apart.
#[derive(Clone, Copy, Debug, PartialEq, Eq, Structural)]
pub enum IoErrorKind {
    UnexpectedEof,
    ConnectionReset,
    ConnectionAborted,
    Other,
}

/// Relies on std's `Read::read_exact`: on success exactly `n` bytes were read.
#[verifier::external_body]
pub(crate) fn read_exact_bytes<R: Read>(reader: &mut R, n: usize) -> (r: Result<Vec<u8>, std::io::Error>)
    ensures
        r is Ok ==> r->Ok_0@.len() == n,
{
    let mut buf = vec![0u8; n];
    match reader.read_exact(&mut buf) {
        Ok(()) => Ok(buf),
        Err(e) => Err(e),
    }
}

/// Relies on std's `io::Error::kind`, one arm per kind that framing tells apart.
#[verifier::external_body]
pub(crate) fn io_error_kind(e: &std::io::Error) -> (r: IoErrorKind) {
    match e.kind() {
        std::io::ErrorKind::UnexpectedEof => IoErrorKind::UnexpectedEof,
        std::io::ErrorKind::ConnectionReset => IoErrorKind::ConnectionReset,
        std::io::ErrorKind::ConnectionAborted => IoErrorKind::ConnectionAborted,
        _ => IoErrorKind::Other,
    }
}

/// The outcome of reading a record's payload of `expected` bytes: a stream
/// that ends early gives `Truncated`, other failures pass through.
pub fn payload_read_outcome(expected: usize, read: Result<Vec<u8>, std::io::Error>, kind: IoErrorKind) -> (r:
    Result<Vec<u8>, RecordError>)
    ensures
        read is Ok ==> r is Ok && r->Ok_0 == read->Ok_0,
        read is Err ==> r is Err && match r->Err_0 {
            RecordError::Truncated { expected: e, got } => kind == IoErrorKind::UnexpectedEof && e == expected && got == 0,
            RecordError::Io(x) => kind != IoErrorKind::UnexpectedEof && x == read->Err_0,
            _ => false,
        },
{
    match read {
        Ok(p) => Ok(p),
        Err(e) => {
            if kind == IoErrorKind::UnexpectedEof {
                Err(RecordError::Truncated { expected, got: 0 })
            } else {
                Err(RecordError::Io(e))
            }
        },
    }
}

/// The length that a prefix read announces: a failed read is passed on
/// unchanged as `Io`; four bytes read go through `decode_record_len`.
pub fn prefix_outcome(read: Result<Vec<u8>, std::io::Error>, max_len: usize) -> (r: Result<usize, RecordError>)
    requires
        read matches Ok(p) ==> p@.len() == 4,
    ensures
        read matches Err(e) ==> r is Err && (match r->Err_0 {
            RecordError::Io(x) => x == e,
            _ => false,
        }),
        read matches Ok(p) ==> {
            &&& (r is Ok <==> be_u32_value(p@) <= max_len)
            &&& (r is Ok ==> r->Ok_0 == be_u32_value(p@))
            &&& (r is Err ==> match r->Err_0 {
                RecordError::TooLarge { len, max } => len == be_u32_value(p@) && max == max_len,
                _ => false,
            })
        },
{
    match read {
        Err(e) => Err(RecordError::Io(e)),
        Ok(p) => decode_record_len(p.as_slice(), max_len),
    }
}

/// Reads the remaining three prefix bytes after `first`.
fn read_prefix_after<R: Read>(reader: &mut R, first: u8) -> (r: Result<Vec<u8>, std::io::Error>)
    ensures
        r matches Ok(p) ==> p@.len() == 4 && p@[0] == first,
{
    match read_exact_bytes(reader, 3) {
        Err(e) => Err(e),
        Ok(rest) => {
            let mut p: Vec<u8> = Vec::new();
            p.push(first);
            p.push(rest[0]);
            p.push(rest[1]);
            p.push(rest[2]);
            Ok(p)
        },
    }
}

/// Reads the rest of a record whose first prefix byte was `first`: three
/// more prefix bytes, then the payload. A failed prefix read is passed on as
/// `Io`; a length over `max_len` gives `TooLarge`; a stream that ends inside
/// the payload gives `Truncated`; other payload read failures pass on as `Io`.
pub fn record_decode_from<R: Read>(reader: &mut R, first: u8, max_len: usize) -> (r: Result<Vec<u8>, RecordError>)
    ensures
        r is Ok ==> r->Ok_0@.len() <= max_len,
        r is Err ==> match r->Err_0 {
            RecordError::TooLarge { len, max } => len > max_len && max == max_len,
            RecordError::Truncated { expected, got } => expected <= max_len && got == 0,
            RecordError::Io(_) => true,
        },
{
    let prefix = read_prefix_after(reader, first);
    let len = match prefix_outcome(prefix, max_len) {
        Ok(n) => n,
        Err(e) => return Err(e),
    };
    let read = read_exact_bytes(reader, len);
    let kind = match &read {
        Ok(_) => IoErrorKind::Other,
        Err(e) => io_error_kind(e),
    };
    payload_read_outcome(len, read, kind)
}

/// Reads one record from a stream: a four-byte big-endian length, then that
/// many payload bytes. A failure to read the prefix is passed on as `Io`; a
/// length over `max_len` gives `TooLarge`; a stream that ends inside the
/// payload gives `Truncated`.
pub fn record_decode<R: Read>(reader: &mut R, max_len: usize) -> (r: Result<Vec<u8>, RecordError>)
    ensures
        r is Ok ==> r->Ok_0@.len() <= max_len,
        r is Err ==> match r->Err_0 {
            RecordError::TooLarge { len, max } => len > max_len && max == max_len,
            RecordError::Truncated { expected, got } => expected <= max_len && got == 0,
            RecordError::Io(_) => true,
        },
{
    match read_exact_bytes(reader, 1) {
        Err(e) => Err(RecordError::Io(e)),
        Ok(b) => record_decode_from(reader, b[0], max_len),
    }
}

/// Framing round trip: the prefix that `record_encode` writes announces the
/// payload's length, which `decode_record_len` accepts whenever the payload
/// fits a record, and the payload follows the prefix unchanged.
pub proof fn lemma_frame_round_trip(payload: Seq<u8>)
    requires
        payload.len() <= MAX_RECORD_LEN,
    ensures
        ({
            let frame = be_u32(payload.len() as u32) + payload;
            &&& be_u32_value(frame.subrange(0, 4)) == payload.len()
            &&& frame.subrange(4, frame.len() as int) == payload
        }),
{
    let v = payload.len() as u32;
    let frame = be_u32(v) + payload;
    assert(((v >> 24u32) as u8) as u32 * 16777216u32 + ((v >> 16u32) as u8) as u32 * 65536u32
        + ((v >> 8u32) as u8) as u32 * 256u32 + (v as u8) as u32 == v) by (bit_vector);
    assert(frame.subrange(0, 4) =~= be_u32(v));
    assert(frame.subrange(4, frame.len() as int) =~= payload);
}

} // verus!
