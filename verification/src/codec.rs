//! Reading and writing the contents of a basket as stored bytes.
//!
//! Stored bytes are an envelope around a payload; the payload is the text of
//! a document with the number of its version. Turning text into a document
//! and back is the business of a parser and a printer that the caller
//! brings. This module does the rest: it checks the envelope, and carries
//! whatever version was stored over to the latest.

use crate::envelope::{decode_envelope, encode_envelope, envelope_of, payload_of, DecodeError};
use crate::schema::{BasketContents, Version};
use crate::versions::Upgrade;
use vstd::prelude::*;

verus! {

/// What is made of a payload once it was parsed: a document of any version
/// is carried over to the latest, and a payload that held none is refused.
pub open spec fn parsed_contents(parsed: Option<Version>) -> Result<BasketContents, DecodeError> {
    match parsed {
        Some(stored) => Ok(stored.latest()),
        None => Err(DecodeError::MalformedPayload),
    }
}

/// What `bytes` hold, by a parser that makes `parse` of a payload: the
/// envelope is checked first, and only the payload of a sound envelope is
/// parsed.
pub open spec fn decoded_with(
    bytes: Seq<u8>,
    parse: spec_fn(Seq<u8>) -> Option<Version>,
) -> Result<BasketContents, DecodeError> {
    match payload_of(bytes) {
        Ok(payload) => parsed_contents(parse(payload)),
        Err(e) => Err(e),
    }
}

/// The bytes that are stored for `contents`, by a printer that makes `print`
/// of a document: the contents are printed in the latest version, and the
/// payload is put into its envelope.
pub open spec fn encoded_with(
    contents: BasketContents,
    print: spec_fn(Version) -> Seq<u8>,
) -> Seq<u8> {
    envelope_of(print(Version::V1(contents.0)))
}

/// Carries what the parser found over to the latest version, or refuses the
/// payload where it found nothing.
pub fn finish_decode(parsed: Option<Version>) -> (contents: Result<BasketContents, DecodeError>)
    ensures
        contents == parsed_contents(parsed),
{
    match parsed {
        Some(stored) => Ok(stored.upgrade_full()),
        None => Err(DecodeError::MalformedPayload),
    }
}

/// Reads stored bytes as the contents of a basket. The envelope is checked
/// first; `parse` is called only on the payload of a sound envelope, and a
/// document of any version that it finds comes back in the latest.
pub fn decode<P>(bytes: &[u8], parse: P) -> (contents: Result<BasketContents, DecodeError>) where
    P: FnOnce(Vec<u8>) -> Option<Version>,

    requires
        forall|payload: Vec<u8>| call_requires(parse, (payload,)),
    ensures
        match payload_of(bytes@) {
            Ok(expected) => exists|payload: Vec<u8>, parsed: Option<Version>|
                payload@ == expected && call_ensures(parse, (payload,), parsed) && contents
                    == parsed_contents(parsed),
            Err(e) => contents == Err::<BasketContents, DecodeError>(e),
        },
{
    match decode_envelope(bytes) {
        Ok(payload) => finish_decode(parse(payload)),
        Err(e) => Err(e),
    }
}

/// Writes the contents of a basket as stored bytes: `print` turns them into
/// a payload, in the latest version always, and the payload is put into its
/// envelope.
pub fn encode<P>(contents: BasketContents, print: P) -> (bytes: Vec<u8>) where
    P: FnOnce(Version) -> Vec<u8>,

    requires
        call_requires(print, (Version::V1(contents.0),)),
    ensures
        exists|payload: Vec<u8>|
            call_ensures(print, (Version::V1(contents.0),), payload) && bytes@ == envelope_of(
                payload@,
            ),
{
    let payload = print(Version::of(contents));
    encode_envelope(payload.as_slice())
}

/// What was written is read again as it was: with a parser that finds in
/// a payload the document that the printer wrote there, decoding the
/// encoded contents gives the contents back.
pub proof fn lemma_decode_inverts_encode(
    contents: BasketContents,
    print: spec_fn(Version) -> Seq<u8>,
    parse: spec_fn(Seq<u8>) -> Option<Version>,
)
    requires
        parse(print(Version::V1(contents.0))) == Some(Version::V1(contents.0)),
    ensures
        decoded_with(encoded_with(contents, print), parse) == Ok::<BasketContents, DecodeError>(
            contents,
        ),
{
    crate::envelope::lemma_envelope_round_trip(print(Version::V1(contents.0)));
}

/// What was stored in any version is read in the latest: decoding gives the
/// stored document carried over the whole chain of upgrades.
pub proof fn lemma_decode_upgrades(
    stored: Version,
    print: spec_fn(Version) -> Seq<u8>,
    parse: spec_fn(Seq<u8>) -> Option<Version>,
)
    requires
        parse(print(stored)) == Some(stored),
    ensures
        decoded_with(envelope_of(print(stored)), parse) == Ok::<BasketContents, DecodeError>(
            stored.latest(),
        ),
        stored matches Version::V1(contents) ==> stored.latest() == contents.fully_upgraded(),
{
    crate::envelope::lemma_envelope_round_trip(print(stored));
}

/// Bytes with a format tag that is not read here are never read as a
/// document, whatever the parser would make of them.
pub proof fn lemma_unknown_format_is_never_decoded(
    bytes: Seq<u8>,
    parse: spec_fn(Seq<u8>) -> Option<Version>,
)
    requires
        bytes.len() > 0,
        bytes[0] != crate::envelope::FORMAT_TAG,
    ensures
        decoded_with(bytes, parse) == Err::<BasketContents, DecodeError>(
            DecodeError::UnsupportedFormat { tag: bytes[0] },
        ),
{
}

/// Bytes without any byte are never read as a document either.
pub proof fn lemma_no_bytes_are_never_decoded(parse: spec_fn(Seq<u8>) -> Option<Version>)
    ensures
        decoded_with(Seq::empty(), parse) == Err::<BasketContents, DecodeError>(DecodeError::Empty),
{
}

} // verus!
