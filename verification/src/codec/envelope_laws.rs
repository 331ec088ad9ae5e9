//! What a record that cannot be written or read is reported as, and what a read yields.

use vstd::prelude::*;

use super::envelope::{read_outcome, refusal_of, variant_outcome, ReadAttempt};
use super::error::{
    frame_failure, read_failure, unread_failure, value_failure, DurableCodecErrorKind,
    EnvelopeError, PayloadValidationError,
};
use super::record_type::{place_of, RecordType};
use crate::value_error::StorageValueError;

verus! {

/// A value over a limit or a machine word is over a limit; everything else that is
/// refused of a stored value is corrupt.
pub proof fn refused_values_have_their_class(error: StorageValueError)
    ensures
        value_failure(error) == match error {
            StorageValueError::LimitExceeded => DurableCodecErrorKind::LimitExceeded,
            StorageValueError::SizeOverflow => DurableCodecErrorKind::LimitExceeded,
            StorageValueError::Empty => DurableCodecErrorKind::CorruptData,
            StorageValueError::NonCanonicalOrder => DurableCodecErrorKind::CorruptData,
            StorageValueError::Duplicate => DurableCodecErrorKind::CorruptData,
            StorageValueError::IdentityMismatch => DurableCodecErrorKind::CorruptData,
            StorageValueError::InvalidShape => DurableCodecErrorKind::CorruptData,
        },
        unread_failure(true) == DurableCodecErrorKind::LimitExceeded,
        unread_failure(false) == DurableCodecErrorKind::CorruptData,
{
}

/// An envelope of an unknown version, type or schema is incompatible, one that is too
/// large is over a limit, and any other that cannot be read is corrupt. One that cannot
/// be written is over a limit where it is too large, and a broken promise otherwise.
pub proof fn refused_envelopes_have_their_class(error: EnvelopeError)
    ensures
        read_failure(error) == match error {
            EnvelopeError::EnvelopeTooLarge => DurableCodecErrorKind::LimitExceeded,
            EnvelopeError::PayloadTooLarge => DurableCodecErrorKind::LimitExceeded,
            EnvelopeError::Malformed => DurableCodecErrorKind::CorruptData,
            EnvelopeError::UnsupportedStorageFormatVersion =>
                DurableCodecErrorKind::IncompatibleFormat,
            EnvelopeError::UnknownRecordType => DurableCodecErrorKind::IncompatibleFormat,
            EnvelopeError::InvalidRecordType => DurableCodecErrorKind::CorruptData,
            EnvelopeError::InvalidSchemaHashLength => DurableCodecErrorKind::CorruptData,
            EnvelopeError::UnsupportedSchemaHash => DurableCodecErrorKind::IncompatibleFormat,
            EnvelopeError::ChecksumMismatch => DurableCodecErrorKind::CorruptData,
            EnvelopeError::NonCanonicalEnvelope => DurableCodecErrorKind::CorruptData,
            EnvelopeError::InvalidPayload(PayloadValidationError::LimitExceeded) =>
                DurableCodecErrorKind::LimitExceeded,
            EnvelopeError::InvalidPayload(_) => DurableCodecErrorKind::CorruptData,
        },
        frame_failure(error) == match error {
            EnvelopeError::EnvelopeTooLarge => DurableCodecErrorKind::LimitExceeded,
            EnvelopeError::PayloadTooLarge => DurableCodecErrorKind::LimitExceeded,
            EnvelopeError::InvalidPayload(PayloadValidationError::LimitExceeded) =>
                DurableCodecErrorKind::LimitExceeded,
            _ => DurableCodecErrorKind::InvariantViolation,
        },
{
}

/// A read yields what the typed reader found or, where that found nothing, what the
/// registry found under the expected type, and nothing else; a record of another type is
/// unexpected, one without a message corrupt.
pub proof fn reads_yield_the_expected_record<M>(expected: RecordType, attempt: ReadAttempt<M>)
    ensures
        forall|message: M|
            read_outcome(expected, attempt) == Ok::<M, DurableCodecErrorKind>(message) <==> (
            attempt.typed == Some(message)
                || (attempt.typed is None && (attempt.registry matches Ok(
                record,
            ) && record.record_type == expected && record.message == Some(message)))),
        attempt.typed is None ==> match attempt.registry {
            Err(error) => read_outcome(expected, attempt) == Err::<M, _>(read_failure(error)),
            Ok(record) => {
                &&& record.record_type != expected ==> read_outcome(expected, attempt) == Err::<
                    M,
                    _,
                >(DurableCodecErrorKind::UnexpectedRecordType)
                &&& record.record_type == expected && record.message is None ==> read_outcome(
                    expected,
                    attempt,
                ) == Err::<M, _>(DurableCodecErrorKind::CorruptData)
            },
        },
{
}

/// What was read is a record exactly when it has a valid form, the record's own rules
/// accept it, and it takes some bytes; the rules decide before the bytes.
pub proof fn records_keep_their_rules(
    readable: bool,
    admission: Option<StorageValueError>,
    encoded_len: usize,
)
    ensures
        refusal_of(readable, admission, encoded_len) is None <==> readable && admission is None
            && encoded_len > 0,
        readable && admission is Some ==> refusal_of(readable, admission, encoded_len) == Some(
            value_failure(admission->Some_0),
        ),
        !readable || (admission is None && encoded_len == 0) ==> refusal_of(
            readable,
            admission,
            encoded_len,
        ) == Some(DurableCodecErrorKind::CorruptData),
{
}

/// Of two accepted types a record is of the current one or of the legacy one; where both
/// are the same it counts as current.
pub proof fn variants_are_told_by_their_type(
    found: RecordType,
    current: RecordType,
    legacy: RecordType,
)
    ensures
        variant_outcome(Ok(found), current, legacy) == Ok::<bool, DurableCodecErrorKind>(true)
            <==> found == current,
        variant_outcome(Ok(found), current, legacy) == Ok::<bool, DurableCodecErrorKind>(false)
            <==> found == legacy && found != current,
        found != current && found != legacy
            ==> variant_outcome(Ok(found), current, legacy) == Err::<
            bool,
            _,
        >(DurableCodecErrorKind::UnexpectedRecordType),
{
}

/// Among accepted types a record's place is the first one with its type, and it has none
/// exactly where its type is not among them.
pub proof fn places_are_the_first_of_their_type(accepted: Seq<RecordType>, found: RecordType)
    ensures
        match place_of(accepted, found) {
            Some(place) => 0 <= place < accepted.len() && accepted[place] == found && forall|i: int|
                0 <= i < place ==> #[trigger] accepted[i] != found,
            None => forall|i: int| 0 <= i < accepted.len() ==> #[trigger] accepted[i] != found,
        },
    decreases accepted.len(),
{
    if accepted.len() > 0 && accepted[0] != found {
        let rest = accepted.skip(1);
        places_are_the_first_of_their_type(rest, found);
        assert forall|i: int| 0 < i < accepted.len() implies #[trigger] accepted[i] == rest[i
            - 1] by {}
    }
}

} // verus!
