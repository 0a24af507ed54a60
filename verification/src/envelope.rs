//! The envelope around a stored payload: one byte that names the format,
//! then the payload itself.

use vstd::prelude::*;
use vstd::slice::{slice_subrange, slice_to_vec};

verus! {

/// The format tag of a payload that holds a document as text, with the
/// number of its version in it.
pub const FORMAT_TAG: u8 = 1;

/// Why stored bytes could not be read as a document.
#[derive(Debug, Clone, Copy, PartialEq, Eq, Structural)]
pub enum DecodeError {
    /// There were no bytes at all, so not even a format tag.
    Empty,
    /// The format tag is not one that this program reads.
    UnsupportedFormat { tag: u8 },
    /// The payload is not a document of any known version.
    MalformedPayload,
}

/// The bytes that are stored for `payload`.
pub open spec fn envelope_of(payload: Seq<u8>) -> Seq<u8> {
    seq![FORMAT_TAG] + payload
}

/// The payload that `bytes` hold, or why they hold none.
pub open spec fn payload_of(bytes: Seq<u8>) -> Result<Seq<u8>, DecodeError> {
    if bytes.len() == 0 {
        Err(DecodeError::Empty)
    } else if bytes[0] != FORMAT_TAG {
        Err(DecodeError::UnsupportedFormat { tag: bytes[0] })
    } else {
        Ok(bytes.skip(1))
    }
}

/// What was put into an envelope comes out of it again.
pub proof fn lemma_envelope_round_trip(payload: Seq<u8>)
    ensures
        payload_of(envelope_of(payload)) == Ok::<Seq<u8>, DecodeError>(payload),
{
    assert(envelope_of(payload).skip(1) =~= payload);
}

/// Bytes that hold a payload are the envelope of that payload, and of no
/// other.
pub proof fn lemma_envelope_is_unique(bytes: Seq<u8>, payload: Seq<u8>)
    ensures
        payload_of(bytes) == Ok::<Seq<u8>, DecodeError>(payload) <==> bytes == envelope_of(payload),
{
    if payload_of(bytes) == Ok::<Seq<u8>, DecodeError>(payload) {
        assert(bytes =~= envelope_of(payload));
    }
    if bytes == envelope_of(payload) {
        lemma_envelope_round_trip(payload);
    }
}

/// Bytes whose first byte is not the format tag hold no payload.
pub proof fn lemma_unsupported_format_is_refused(bytes: Seq<u8>)
    requires
        bytes.len() > 0,
        bytes[0] != FORMAT_TAG,
    ensures
        payload_of(bytes) == Err::<Seq<u8>, DecodeError>(
            DecodeError::UnsupportedFormat { tag: bytes[0] },
        ),
{
}

/// Puts `payload` into an envelope.
pub fn encode_envelope(payload: &[u8]) -> (bytes: Vec<u8>)
    ensures
        bytes@ == envelope_of(payload@),
{
    let mut bytes: Vec<u8> = Vec::new();
    bytes.push(FORMAT_TAG);
    let n: usize = payload.len();
    let mut i: usize = 0;
    while i < n
        invariant
            n == payload@.len(),
            i <= n,
            bytes@ == seq![FORMAT_TAG] + payload@.take(i as int),
        decreases n - i,
    {
        bytes.push(payload[i]);
        assert(payload@.take(i + 1) =~= payload@.take(i as int).push(payload@[i as int]));
        i = i + 1;
    }
    assert(payload@.take(n as int) =~= payload@);
    bytes
}

/// Takes the payload out of its envelope. Bytes without a format tag, or
/// with one that is not read here, are refused.
pub fn decode_envelope(bytes: &[u8]) -> (payload: Result<Vec<u8>, DecodeError>)
    ensures
        match payload {
            Ok(p) => payload_of(bytes@) == Ok::<Seq<u8>, DecodeError>(p@),
            Err(e) => payload_of(bytes@) == Err::<Seq<u8>, DecodeError>(e),
        },
{
    if bytes.len() == 0 {
        return Err(DecodeError::Empty);
    }
    if bytes[0] != FORMAT_TAG {
        return Err(DecodeError::UnsupportedFormat { tag: bytes[0] });
    }
    Ok(slice_to_vec(slice_subrange(bytes, 1, bytes.len())))
}

} // verus!
