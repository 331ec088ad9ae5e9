//! Safe failures at the durable boundary.

use vstd::prelude::*;

use crate::value_error::StorageValueError;

verus! {

/// Closed, payload-safe durable codec failure classes.
#[derive(Clone, Copy, Debug, PartialEq, Eq, Structural)]
pub enum DurableCodecErrorKind {
    /// The envelope version, record type, or schema hash is unsupported.
    IncompatibleFormat,
    /// Durable bytes do not reconstruct one canonical semantic value.
    CorruptData,
    /// A durable hard size or collection bound was exceeded.
    LimitExceeded,
    /// A checked in-memory value could not be encoded as its accepted schema.
    InvariantViolation,
    /// Actual canonical bytes exceeded a retained pre-sequence reservation.
    ReservationExceeded,
    /// A typed decoder was given a different registered record type.
    UnexpectedRecordType,
}

/// How a payload fails its own validation.
#[derive(Clone, Copy, Debug, PartialEq, Eq, Structural)]
pub enum PayloadValidationError {
    LimitExceeded,
    Malformed,
    NonCanonical,
}

/// How an envelope fails to be framed or read.
#[derive(Clone, Copy, Debug, PartialEq, Eq, Structural)]
pub enum EnvelopeError {
    EnvelopeTooLarge,
    PayloadTooLarge,
    Malformed,
    UnsupportedStorageFormatVersion,
    UnknownRecordType,
    InvalidRecordType,
    InvalidSchemaHashLength,
    UnsupportedSchemaHash,
    ChecksumMismatch,
    NonCanonicalEnvelope,
    InvalidPayload(PayloadValidationError),
}

impl EnvelopeError {
    /// A size bound was exceeded.
    pub open spec fn over_limit(self) -> bool {
        self is EnvelopeTooLarge || self is PayloadTooLarge || self
            == EnvelopeError::InvalidPayload(PayloadValidationError::LimitExceeded)
    }

    /// The format, the record type or the schema is not known here.
    pub open spec fn incompatible(self) -> bool {
        self is UnsupportedStorageFormatVersion || self is UnknownRecordType || self
            is UnsupportedSchemaHash
    }
}

/// The failure class of a refused storage value.
pub open spec fn value_failure(error: StorageValueError) -> DurableCodecErrorKind {
    if error is LimitExceeded || error is SizeOverflow {
        DurableCodecErrorKind::LimitExceeded
    } else {
        DurableCodecErrorKind::CorruptData
    }
}

/// The failure class of a message that cannot be read: over a limit where an owning type
/// says so of a part and nothing that is read before it is unsound, and corrupt
/// otherwise.
pub open spec fn unread_failure(over_limit: bool) -> DurableCodecErrorKind {
    if over_limit {
        DurableCodecErrorKind::LimitExceeded
    } else {
        DurableCodecErrorKind::CorruptData
    }
}

/// Whether an owning type refuses a part for a limit.
pub open spec fn over_limit(error: StorageValueError) -> bool {
    error is LimitExceeded || error is SizeOverflow
}

/// The failure class of an envelope that could not be read.
pub open spec fn read_failure(error: EnvelopeError) -> DurableCodecErrorKind {
    if error.incompatible() {
        DurableCodecErrorKind::IncompatibleFormat
    } else if error.over_limit() {
        DurableCodecErrorKind::LimitExceeded
    } else {
        DurableCodecErrorKind::CorruptData
    }
}

/// The failure class of an envelope that could not be framed.
pub open spec fn frame_failure(error: EnvelopeError) -> DurableCodecErrorKind {
    if error.over_limit() {
        DurableCodecErrorKind::LimitExceeded
    } else {
        DurableCodecErrorKind::InvariantViolation
    }
}

/// A redacted durable codec failure.
#[derive(Clone, Copy, Debug, PartialEq, Eq, Structural)]
pub struct DurableCodecError {
    pub kind: DurableCodecErrorKind,
}

impl DurableCodecError {
    /// Constructs a safe closed failure.
    pub fn new(kind: DurableCodecErrorKind) -> (result: Self)
        ensures
            result == (DurableCodecError { kind }),
    {
        DurableCodecError { kind }
    }

    /// Returns the closed failure class.
    pub fn kind(self) -> (result: DurableCodecErrorKind)
        ensures
            result == self.kind,
    {
        self.kind
    }

    /// Durable bytes are corrupt.
    pub fn corrupt() -> (result: Self)
        ensures
            result.kind == DurableCodecErrorKind::CorruptData,
    {
        DurableCodecError { kind: DurableCodecErrorKind::CorruptData }
    }

    /// A checked value could not be encoded.
    pub fn invariant_violation() -> (result: Self)
        ensures
            result.kind == DurableCodecErrorKind::InvariantViolation,
    {
        DurableCodecError { kind: DurableCodecErrorKind::InvariantViolation }
    }

    /// Classifies a refused storage value.
    pub fn from_storage_value(error: StorageValueError) -> (result: Self)
        ensures
            result.kind == value_failure(error),
    {
        match error {
            StorageValueError::LimitExceeded | StorageValueError::SizeOverflow => Self::new(
                DurableCodecErrorKind::LimitExceeded,
            ),
            StorageValueError::Empty
            | StorageValueError::NonCanonicalOrder
            | StorageValueError::Duplicate
            | StorageValueError::IdentityMismatch
            | StorageValueError::InvalidShape => Self::corrupt(),
        }
    }

    /// Classifies an envelope that could not be read.
    pub fn from_decode_envelope(error: EnvelopeError) -> (result: Self)
        ensures
            result.kind == read_failure(error),
    {
        match error {
            EnvelopeError::UnsupportedStorageFormatVersion
            | EnvelopeError::UnknownRecordType
            | EnvelopeError::UnsupportedSchemaHash => Self::new(
                DurableCodecErrorKind::IncompatibleFormat,
            ),
            EnvelopeError::EnvelopeTooLarge
            | EnvelopeError::PayloadTooLarge
            | EnvelopeError::InvalidPayload(PayloadValidationError::LimitExceeded) => Self::new(
                DurableCodecErrorKind::LimitExceeded,
            ),
            EnvelopeError::Malformed
            | EnvelopeError::InvalidRecordType
            | EnvelopeError::InvalidSchemaHashLength
            | EnvelopeError::ChecksumMismatch
            | EnvelopeError::NonCanonicalEnvelope
            | EnvelopeError::InvalidPayload(PayloadValidationError::Malformed)
            | EnvelopeError::InvalidPayload(PayloadValidationError::NonCanonical) =>
                Self::corrupt(),
        }
    }

    /// Classifies an envelope that could not be framed.
    pub fn from_encode_envelope(error: EnvelopeError) -> (result: Self)
        ensures
            result.kind == frame_failure(error),
    {
        match error {
            EnvelopeError::EnvelopeTooLarge
            | EnvelopeError::PayloadTooLarge
            | EnvelopeError::InvalidPayload(PayloadValidationError::LimitExceeded) => Self::new(
                DurableCodecErrorKind::LimitExceeded,
            ),
            EnvelopeError::Malformed
            | EnvelopeError::UnsupportedStorageFormatVersion
            | EnvelopeError::UnknownRecordType
            | EnvelopeError::InvalidRecordType
            | EnvelopeError::InvalidSchemaHashLength
            | EnvelopeError::UnsupportedSchemaHash
            | EnvelopeError::ChecksumMismatch
            | EnvelopeError::NonCanonicalEnvelope
            | EnvelopeError::InvalidPayload(PayloadValidationError::Malformed)
            | EnvelopeError::InvalidPayload(PayloadValidationError::NonCanonical) =>
                Self::invariant_violation(),
        }
    }

    /// The failure as safe text.
    pub fn message(self) -> (result: &'static str)
        ensures
            result@ == failure_text(self.kind),
    {
        match self.kind {
            DurableCodecErrorKind::IncompatibleFormat => "durable record format is incompatible",
            DurableCodecErrorKind::CorruptData => "durable record is corrupt",
            DurableCodecErrorKind::LimitExceeded => "durable record exceeds a hard limit",
            DurableCodecErrorKind::InvariantViolation =>
                "checked durable value violates its codec invariant",
            DurableCodecErrorKind::ReservationExceeded =>
                "durable record exceeds its retained reservation",
            DurableCodecErrorKind::UnexpectedRecordType =>
                "durable record has an unexpected registered type",
        }
    }
}

/// The safe text of a failure class.
pub open spec fn failure_text(kind: DurableCodecErrorKind) -> Seq<char> {
    match kind {
        DurableCodecErrorKind::IncompatibleFormat => "durable record format is incompatible"@,
        DurableCodecErrorKind::CorruptData => "durable record is corrupt"@,
        DurableCodecErrorKind::LimitExceeded => "durable record exceeds a hard limit"@,
        DurableCodecErrorKind::InvariantViolation =>
            "checked durable value violates its codec invariant"@,
        DurableCodecErrorKind::ReservationExceeded =>
            "durable record exceeds its retained reservation"@,
        DurableCodecErrorKind::UnexpectedRecordType =>
            "durable record has an unexpected registered type"@,
    }
}

/// Carries a checked storage value over the durable boundary.
pub fn storage_result<T>(value: Result<T, StorageValueError>) -> (result: Result<
    T,
    DurableCodecError,
>)
    ensures
        match value {
            Ok(held) => result == Ok::<T, DurableCodecError>(held),
            Err(error) => result == Err::<T, DurableCodecError>(
                DurableCodecError { kind: value_failure(error) },
            ),
        },
{
    match value {
        Ok(held) => Ok(held),
        Err(error) => Err(DurableCodecError::from_storage_value(error)),
    }
}

/// A corrupt failure.
pub open spec fn is_corrupt(error: DurableCodecError) -> bool {
    error.kind == DurableCodecErrorKind::CorruptData
}

/// Demands a required part of a message.
pub fn require<T>(value: Option<T>) -> (result: Result<T, DurableCodecError>)
    ensures
        match value {
            Some(held) => result == Ok::<T, DurableCodecError>(held),
            None => result is Err && is_corrupt(result->Err_0),
        },
{
    match value {
        Some(held) => Ok(held),
        None => Err(DurableCodecError::corrupt()),
    }
}

/// Demands bytes of one exact length.
pub fn fixed<const N: usize>(bytes: Vec<u8>) -> (result: Result<[u8; N], DurableCodecError>)
    ensures
        bytes@.len() == N ==> result is Ok && result->Ok_0@ == bytes@,
        bytes@.len() != N ==> result is Err && is_corrupt(result->Err_0),
{
    if bytes.len() != N {
        return Err(DurableCodecError::corrupt());
    }
    let mut fixed: [u8; N] = [0; N];
    let mut i: usize = 0;
    while i < N
        invariant
            i <= N,
            bytes@.len() == N,
            forall|k: int| 0 <= k < i ==> fixed[k] == bytes@[k],
        decreases N - i,
    {
        fixed[i] = bytes[i];
        i += 1;
    }
    assert(fixed@ =~= bytes@);
    Ok(fixed)
}

} // verus!
