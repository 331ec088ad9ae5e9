//! Functions that other layers hand in: hashes and framings.
//!
//! What such a function does is not known here. A contract says what it was asked
//! and what came of its answer.

use vstd::prelude::*;

use crate::codec::error::EnvelopeError;
use crate::codec::record_type::RecordType;
use crate::ids::Digest;

verus! {

/// Whether a digest is what a hash gives of bytes.
pub open spec fn hash_gives<H: Fn(Vec<u8>) -> Digest>(
    hash: H,
    bytes: Seq<u8>,
    digest: Digest,
) -> bool {
    exists|preimage: Vec<u8>| preimage@ == bytes && #[trigger] hash.ensures((preimage,), digest)
}

/// A hash gives one digest for equal bytes.
pub open spec fn hash_is_function<H: Fn(Vec<u8>) -> Digest>(hash: H) -> bool {
    forall|bytes: Seq<u8>, a: Digest, b: Digest|
        #[trigger] hash_gives(hash, bytes, a) && #[trigger] hash_gives(hash, bytes, b) ==> a == b
}

/// Whether a digest is what a hash gives of labelled bytes.
pub open spec fn hashes_to<H: Fn(Vec<u8>) -> Digest>(
    hash: H,
    label: Seq<u8>,
    bytes: Seq<u8>,
    digest: Digest,
) -> bool {
    hash_gives(hash, label + bytes, digest)
}

/// What framing came to: the framed bytes or why there are none.
pub open spec fn framed_view(framed: Result<Vec<u8>, EnvelopeError>) -> Result<
    Seq<u8>,
    EnvelopeError,
> {
    match framed {
        Ok(bytes) => Ok(bytes@),
        Err(error) => Err(error),
    }
}

/// Whether framed bytes are what a framing layer gives for a record type and a
/// payload.
pub open spec fn frames_to<F: Fn(RecordType, Vec<u8>) -> Result<Vec<u8>, EnvelopeError>>(
    frame: F,
    record_type: RecordType,
    payload: Seq<u8>,
    framed: Result<Vec<u8>, EnvelopeError>,
) -> bool {
    exists|bytes: Vec<u8>|
        bytes@ == payload && #[trigger] frame.ensures((record_type, bytes), framed)
}

/// A framing layer gives one outcome for equal payloads of one record type.
pub open spec fn framing_is_function<
    F: Fn(RecordType, Vec<u8>) -> Result<Vec<u8>, EnvelopeError>,
>(frame: F) -> bool {
    forall|
        record_type: RecordType,
        payload: Seq<u8>,
        a: Result<Vec<u8>, EnvelopeError>,
        b: Result<Vec<u8>, EnvelopeError>,
    |
        #[trigger] frames_to(frame, record_type, payload, a) && #[trigger] frames_to(
            frame,
            record_type,
            payload,
            b,
        ) ==> framed_view(a) == framed_view(b)
}

} // verus!
