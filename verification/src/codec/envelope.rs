//! Envelopes: what goes into the framing, what comes back, and what it is charged.

use vstd::prelude::*;

use super::error::{
    frame_failure, is_corrupt, read_failure, value_failure, DurableCodecError,
    DurableCodecErrorKind, EnvelopeError,
};
use super::record_type::{find_record_type, place_of, RecordType};
use crate::page::{EncodedContentCharge, EncodedPageItem};
use crate::value_error::StorageValueError;

verus! {

/// One complete canonical durable envelope and its exact byte charge.
#[derive(Clone, PartialEq, Eq)]
pub struct CanonicalStoredEnvelopeV1 {
    pub bytes: Vec<u8>,
    pub charge: EncodedContentCharge,
}

impl CanonicalStoredEnvelopeV1 {
    /// An envelope is not empty and is charged for exactly its bytes.
    pub open spec fn wf(self) -> bool {
        self.bytes@.len() > 0 && self.charge.bytes == self.bytes@.len()
    }

    /// Borrows the complete canonical envelope bytes.
    pub fn as_bytes(&self) -> (result: &[u8])
        ensures
            result@ == self.bytes@,
    {
        self.bytes.as_slice()
    }

    /// Consumes the wrapper and returns the complete canonical envelope bytes.
    pub fn into_bytes(self) -> (result: Vec<u8>)
        ensures
            result == self.bytes,
    {
        self.bytes
    }

    /// Returns the exact complete-envelope byte charge.
    pub fn encoded_content_charge(&self) -> (result: EncodedContentCharge)
        ensures
            result == self.charge,
    {
        self.charge
    }
}

/// What framed bytes become: an envelope charged for them, or a failure of the
/// given class where there are none.
pub open spec fn envelope_of(bytes: Seq<u8>, result: Result<
    CanonicalStoredEnvelopeV1,
    DurableCodecError,
>, when_empty: DurableCodecErrorKind) -> bool {
    if bytes.len() == 0 {
        result == Err::<CanonicalStoredEnvelopeV1, DurableCodecError>(
            DurableCodecError { kind: when_empty },
        )
    } else {
        result is Ok && result->Ok_0.bytes@ == bytes && result->Ok_0.wf()
    }
}

/// The outcome of framing one record, given what the framing layer returned for
/// its payload: a refusal of the framing is a limit or a broken invariant.
pub fn seal_envelope(framed: Result<Vec<u8>, EnvelopeError>) -> (result: Result<
    CanonicalStoredEnvelopeV1,
    DurableCodecError,
>)
    ensures
        match framed {
            Ok(bytes) => envelope_of(
                bytes@,
                result,
                DurableCodecErrorKind::InvariantViolation,
            ),
            Err(error) => result == Err::<CanonicalStoredEnvelopeV1, DurableCodecError>(
                DurableCodecError { kind: frame_failure(error) },
            ),
        },
{
    match framed {
        Ok(bytes) => match EncodedContentCharge::new(bytes.len()) {
            Some(charge) => Ok(CanonicalStoredEnvelopeV1 { bytes, charge }),
            None => Err(DurableCodecError::invariant_violation()),
        },
        Err(error) => Err(DurableCodecError::from_encode_envelope(error)),
    }
}

fn transcoded_envelope(transcoded: Result<Vec<u8>, EnvelopeError>) -> (result: Result<
    CanonicalStoredEnvelopeV1,
    DurableCodecError,
>)
    ensures
        match transcoded {
            Ok(bytes) => envelope_of(bytes@, result, DurableCodecErrorKind::CorruptData),
            Err(error) => result == Err::<CanonicalStoredEnvelopeV1, DurableCodecError>(
                DurableCodecError { kind: read_failure(error) },
            ),
        },
{
    match transcoded {
        Ok(bytes) => match EncodedContentCharge::new(bytes.len()) {
            Some(charge) => Ok(CanonicalStoredEnvelopeV1 { bytes, charge }),
            None => Err(DurableCodecError::corrupt()),
        },
        Err(error) => Err(DurableCodecError::from_decode_envelope(error)),
    }
}

/// The compact envelope of a readable record, given what the registry's
/// transcoder returned for it.
pub fn transcode_durable_record_to_v2(transcoded: Result<Vec<u8>, EnvelopeError>) -> (result:
    Result<CanonicalStoredEnvelopeV1, DurableCodecError>)
    ensures
        match transcoded {
            Ok(bytes) => envelope_of(bytes@, result, DurableCodecErrorKind::CorruptData),
            Err(error) => result == Err::<CanonicalStoredEnvelopeV1, DurableCodecError>(
                DurableCodecError { kind: read_failure(error) },
            ),
        },
{
    transcoded_envelope(transcoded)
}

/// The legacy envelope of a readable record, given what the registry's
/// transcoder returned for it.
pub fn transcode_durable_record_to_v1(transcoded: Result<Vec<u8>, EnvelopeError>) -> (result:
    Result<CanonicalStoredEnvelopeV1, DurableCodecError>)
    ensures
        match transcoded {
            Ok(bytes) => envelope_of(bytes@, result, DurableCodecErrorKind::CorruptData),
            Err(error) => result == Err::<CanonicalStoredEnvelopeV1, DurableCodecError>(
                DurableCodecError { kind: read_failure(error) },
            ),
        },
{
    transcoded_envelope(transcoded)
}

/// The charge of a record that is sized but not framed, given the framed length.
pub fn encoded_message_charge(framed_len: Result<usize, EnvelopeError>) -> (result: Result<
    EncodedContentCharge,
    DurableCodecError,
>)
    ensures
        match framed_len {
            Ok(bytes) => if bytes == 0 {
                result == Err::<EncodedContentCharge, DurableCodecError>(
                    DurableCodecError { kind: DurableCodecErrorKind::InvariantViolation },
                )
            } else {
                result == Ok::<EncodedContentCharge, DurableCodecError>(
                    EncodedContentCharge { bytes },
                )
            },
            Err(error) => result == Err::<EncodedContentCharge, DurableCodecError>(
                DurableCodecError { kind: frame_failure(error) },
            ),
        },
{
    match framed_len {
        Ok(bytes) => match EncodedContentCharge::new(bytes) {
            Some(charge) => Ok(charge),
            None => Err(DurableCodecError::invariant_violation()),
        },
        Err(error) => Err(DurableCodecError::from_encode_envelope(error)),
    }
}

/// A record is charged the same whether it is framed or only sized.
pub proof fn sizing_agrees_with_framing(
    framed: Result<Vec<u8>, EnvelopeError>,
    sealed: Result<CanonicalStoredEnvelopeV1, DurableCodecError>,
    framed_len: Result<usize, EnvelopeError>,
    charge: Result<EncodedContentCharge, DurableCodecError>,
)
    requires
        match (framed, framed_len) {
            (Ok(bytes), Ok(length)) => bytes@.len() == length,
            (Err(a), Err(b)) => a == b,
            _ => false,
        },
        call_ensures(seal_envelope, (framed,), sealed),
        call_ensures(encoded_message_charge, (framed_len,), charge),
    ensures
        match (sealed, charge) {
            (Ok(envelope), Ok(charge)) => envelope.charge == charge,
            (Err(a), Err(b)) => a == b,
            _ => false,
        },
{
}

/// What the registry found in an envelope: the record type, and the payload as
/// the message that was asked for, where it decodes as that.
pub struct RegistryRecord<M> {
    pub record_type: RecordType,
    pub message: Option<M>,
}

/// One attempt to read an envelope as one message type: the exact-current typed
/// reader's message, where it gave one, what the registry found otherwise, and
/// the length of what was read.
pub struct ReadAttempt<M> {
    pub typed: Option<M>,
    pub registry: Result<RegistryRecord<M>, EnvelopeError>,
    pub encoded_len: usize,
}

/// The message that an attempt yields, or why it yields none.
pub open spec fn read_outcome<M>(expected: RecordType, attempt: ReadAttempt<M>) -> Result<
    M,
    DurableCodecErrorKind,
> {
    match attempt.typed {
        Some(message) => Ok(message),
        None => match attempt.registry {
            Err(error) => Err(read_failure(error)),
            Ok(record) => if record.record_type != expected {
                Err(DurableCodecErrorKind::UnexpectedRecordType)
            } else {
                match record.message {
                    Some(message) => Ok(message),
                    None => Err(DurableCodecErrorKind::CorruptData),
                }
            },
        },
    }
}

/// Takes the message out of an attempt to read one record type.
///
/// The typed reader is exact-current; a record type that retains historical
/// schemas falls back to the registry, which fails closed.
pub fn read_message<M>(expected: RecordType, attempt: ReadAttempt<M>) -> (result: Result<
    M,
    DurableCodecError,
>)
    ensures
        match read_outcome(expected, attempt) {
            Ok(message) => result == Ok::<M, DurableCodecError>(message),
            Err(kind) => result == Err::<M, DurableCodecError>(DurableCodecError { kind }),
        },
{
    match attempt.typed {
        Some(message) => Ok(message),
        None => match attempt.registry {
            Err(error) => Err(DurableCodecError::from_decode_envelope(error)),
            Ok(record) => {
                if record.record_type != expected {
                    return Err(
                        DurableCodecError::new(DurableCodecErrorKind::UnexpectedRecordType),
                    );
                }
                match record.message {
                    Some(message) => Ok(message),
                    None => Err(DurableCodecError::corrupt()),
                }
            },
        },
    }
}

/// Joins a reconstructed value to the charge of what was read.
pub fn charged<T>(value: T, encoded_len: usize) -> (result: Result<
    EncodedPageItem<T>,
    DurableCodecError,
>)
    ensures
        encoded_len == 0 ==> result is Err && is_corrupt(result->Err_0),
        encoded_len > 0 ==> result == Ok::<EncodedPageItem<T>, DurableCodecError>(
            EncodedPageItem { value, charge: EncodedContentCharge { bytes: encoded_len } },
        ),
{
    match EncodedContentCharge::new(encoded_len) {
        Some(charge) => Ok(EncodedPageItem::new(value, charge)),
        None => Err(DurableCodecError::corrupt()),
    }
}

/// Why a message that was read gives no record, if it gives none: it is not the
/// form of a valid value, the record's own rules refuse the value, or nothing
/// was read.
pub open spec fn refusal_of(
    readable: bool,
    admission: Option<StorageValueError>,
    encoded_len: usize,
) -> Option<DurableCodecErrorKind> {
    if !readable {
        Some(DurableCodecErrorKind::CorruptData)
    } else if admission is Some {
        Some(value_failure(admission->Some_0))
    } else if encoded_len == 0 {
        Some(DurableCodecErrorKind::CorruptData)
    } else {
        None
    }
}

/// Joins a value to its charge, unless the record's own rules refuse it.
pub fn admitted_item<T>(
    value: T,
    admission: Option<StorageValueError>,
    encoded_len: usize,
) -> (result: Result<EncodedPageItem<T>, DurableCodecError>)
    ensures
        match refusal_of(true, admission, encoded_len) {
            Some(kind) => result == Err::<EncodedPageItem<T>, _>(DurableCodecError { kind }),
            None => result == Ok::<EncodedPageItem<T>, DurableCodecError>(
                EncodedPageItem { value, charge: EncodedContentCharge { bytes: encoded_len } },
            ),
        },
{
    match admission {
        Some(error) => Err(DurableCodecError::from_storage_value(error)),
        None => charged(value, encoded_len),
    }
}

/// What a value that was read comes to under the record's own rule: the rule's
/// refusal, or the value beside its charge.
pub open spec fn ruled<T, R: Fn(&T) -> Option<StorageValueError>>(
    rule: R,
    value: T,
    encoded_len: usize,
    result: Result<EncodedPageItem<T>, DurableCodecError>,
) -> bool {
    exists|verdict: Option<StorageValueError>| #[trigger]
        rule.ensures((&value,), verdict) && match refusal_of(true, verdict, encoded_len) {
            Some(kind) => result == Err::<EncodedPageItem<T>, DurableCodecError>(
                DurableCodecError { kind },
            ),
            None => result == Ok::<EncodedPageItem<T>, DurableCodecError>(
                EncodedPageItem { value, charge: EncodedContentCharge { bytes: encoded_len } },
            ),
        }
}

/// Joins a value to its charge, unless the record's own rule refuses it.
pub fn ruled_item<T, R: Fn(&T) -> Option<StorageValueError>>(
    value: T,
    rule: R,
    encoded_len: usize,
) -> (result: Result<EncodedPageItem<T>, DurableCodecError>)
    requires
        forall|value: &T| #[trigger] rule.requires((value,)),
    ensures
        ruled(rule, value, encoded_len, result),
{
    let verdict = rule(&value);
    assert(rule.ensures((&value,), verdict));
    admitted_item(value, verdict, encoded_len)
}

/// A record to be framed: its registered type and its message.
pub struct OutgoingRecord<M> {
    pub record_type: RecordType,
    pub message: M,
}

/// Whether an attempt reads what was written: the reader finds the record's own message,
/// in an encoding that is not empty.
pub open spec fn reads_back<M>(record: OutgoingRecord<M>, attempt: ReadAttempt<M>) -> bool {
    &&& read_outcome(record.record_type, attempt) == Ok::<M, DurableCodecErrorKind>(record.message)
    &&& attempt.encoded_len > 0
}

/// Whether an attempt at one message meets a record of a given other type: the typed
/// reader yields nothing, and the registry names the type.
pub open spec fn reads_another<M>(found: RecordType, attempt: ReadAttempt<M>) -> bool {
    attempt.typed is None && (attempt.registry matches Ok(record) && record.record_type == found)
}

/// Whether the registry lets a message be framed as a record type: the type is
/// writable, and it is the message's own.
pub fn check_writable(
    current_schema: Option<RecordType>,
    message_schema: RecordType,
) -> (result: Result<(), DurableCodecError>)
    ensures
        result == if current_schema == Some(message_schema) {
            Ok::<(), DurableCodecError>(())
        } else {
            Err(DurableCodecError { kind: DurableCodecErrorKind::InvariantViolation })
        },
{
    match current_schema {
        Some(schema) => if schema == message_schema {
            Ok(())
        } else {
            Err(DurableCodecError::invariant_violation())
        },
        None => Err(DurableCodecError::invariant_violation()),
    }
}

/// Whether a record is of its current type rather than its legacy one, or why it
/// is of neither.
pub open spec fn variant_outcome(
    found: Result<RecordType, EnvelopeError>,
    current: RecordType,
    legacy: RecordType,
) -> Result<bool, DurableCodecErrorKind> {
    match found {
        Err(error) => Err(read_failure(error)),
        Ok(found) => if found == current {
            Ok(true)
        } else if found == legacy {
            Ok(false)
        } else {
            Err(DurableCodecErrorKind::UnexpectedRecordType)
        },
    }
}

/// Tells a record's current type from its legacy one, given what type the
/// registry found.
pub fn decode_record_variant(
    found: Result<RecordType, EnvelopeError>,
    current: RecordType,
    legacy: RecordType,
) -> (result: Result<bool, DurableCodecError>)
    ensures
        match variant_outcome(found, current, legacy) {
            Ok(is_current) => result == Ok::<bool, DurableCodecError>(is_current),
            Err(kind) => result == Err::<bool, DurableCodecError>(DurableCodecError { kind }),
        },
{
    match found {
        Err(error) => Err(DurableCodecError::from_decode_envelope(error)),
        Ok(found) => if found == current {
            Ok(true)
        } else if found == legacy {
            Ok(false)
        } else {
            Err(DurableCodecError::new(DurableCodecErrorKind::UnexpectedRecordType))
        },
    }
}

/// Finds a record's type among accepted ones, given what type the registry found.
pub fn decode_record_variant_chain(
    found: Result<RecordType, EnvelopeError>,
    accepted: &[RecordType],
) -> (result: Result<usize, DurableCodecError>)
    ensures
        match found {
            Err(error) => result == Err::<usize, DurableCodecError>(
                DurableCodecError { kind: read_failure(error) },
            ),
            Ok(found) => match place_of(accepted@, found) {
                Some(place) => result is Ok && result->Ok_0 == place && place < accepted@.len()
                    && accepted@[place] == found,
                None => result == Err::<usize, DurableCodecError>(
                    DurableCodecError { kind: DurableCodecErrorKind::UnexpectedRecordType },
                ),
            },
        },
{
    match found {
        Err(error) => Err(DurableCodecError::from_decode_envelope(error)),
        Ok(found) => match find_record_type(accepted, found) {
            Some(place) => Ok(place),
            None => Err(DurableCodecError::new(DurableCodecErrorKind::UnexpectedRecordType)),
        },
    }
}

/// Fixed-cardinality timing for one exact readable record decode.
#[derive(Clone, Copy, Debug, PartialEq, Eq, Structural)]
pub struct DurableReadDecodeProfileV1 {
    pub identity_bounds_ns: u64,
    pub checksum_ns: u64,
    pub wire_preflight_ns: u64,
    pub prost_decode_ns: u64,
    pub canonical_reencode_ns: u64,
    pub semantic_reconstruct_ns: u64,
}

impl Default for DurableReadDecodeProfileV1 {
    fn default() -> (result: DurableReadDecodeProfileV1)
        ensures
            result == zero_profile(),
    {
        DurableReadDecodeProfileV1 {
            identity_bounds_ns: 0,
            checksum_ns: 0,
            wire_preflight_ns: 0,
            prost_decode_ns: 0,
            canonical_reencode_ns: 0,
            semantic_reconstruct_ns: 0,
        }
    }
}

/// The profile in which nothing took any time.
pub open spec fn zero_profile() -> DurableReadDecodeProfileV1 {
    DurableReadDecodeProfileV1 {
        identity_bounds_ns: 0,
        checksum_ns: 0,
        wire_preflight_ns: 0,
        prost_decode_ns: 0,
        canonical_reencode_ns: 0,
        semantic_reconstruct_ns: 0,
    }
}

/// Elapsed nanoseconds, capped at the largest word.
pub fn elapsed_nanos(nanoseconds: u128) -> (result: u64)
    ensures
        result == if nanoseconds > u64::MAX {
            u64::MAX as int
        } else {
            nanoseconds as int
        },
{
    if nanoseconds > u64::MAX as u128 {
        u64::MAX
    } else {
        nanoseconds as u64
    }
}

/// The profile of one decode: the typed reader's own timings, or the registry
/// fallback's time as a whole, and the time of the reconstruction.
pub fn decode_profile(
    typed: Option<DurableReadDecodeProfileV1>,
    fallback_ns: u128,
    semantic_ns: u128,
) -> (result: DurableReadDecodeProfileV1)
    ensures
        ({
            let read = match typed {
                Some(profile) => profile,
                None => DurableReadDecodeProfileV1 {
                    identity_bounds_ns: (if fallback_ns > u64::MAX {
                        u64::MAX as int
                    } else {
                        fallback_ns as int
                    }) as u64,
                    ..zero_profile()
                },
            };
            result == (DurableReadDecodeProfileV1 {
                semantic_reconstruct_ns: (if semantic_ns > u64::MAX {
                    u64::MAX as int
                } else {
                    semantic_ns as int
                }) as u64,
                ..read
            })
        }),
{
    let mut profile = match typed {
        Some(profile) => profile,
        None => {
            let mut fallback = DurableReadDecodeProfileV1::default();
            fallback.identity_bounds_ns = elapsed_nanos(fallback_ns);
            fallback
        },
    };
    profile.semantic_reconstruct_ns = elapsed_nanos(semantic_ns);
    profile
}

/// Frames one record as its registered type, which has to be writable, and charges
/// the envelope for its exact bytes.
pub fn encode_message<M, F: FnOnce(M) -> Result<Vec<u8>, EnvelopeError>>(
    current_schema: Option<RecordType>,
    record: OutgoingRecord<M>,
    frame: F,
) -> (result: Result<CanonicalStoredEnvelopeV1, DurableCodecError>)
    requires
        frame.requires((record.message,)),
    ensures
        if current_schema != Some(record.record_type) {
            result == Err::<CanonicalStoredEnvelopeV1, DurableCodecError>(
                DurableCodecError { kind: DurableCodecErrorKind::InvariantViolation },
            )
        } else {
            exists|framed: Result<Vec<u8>, EnvelopeError>|
                #[trigger] frame.ensures((record.message,), framed) && match framed {
                    Ok(bytes) => envelope_of(
                        bytes@,
                        result,
                        DurableCodecErrorKind::InvariantViolation,
                    ),
                    Err(error) => result == Err::<CanonicalStoredEnvelopeV1, DurableCodecError>(
                        DurableCodecError { kind: frame_failure(error) },
                    ),
                }
        },
{
    check_writable(current_schema, record.record_type)?;
    let framed = frame(record.message);
    seal_envelope(framed)
}

/// What a message that was read comes to: what the reconstruction of it gives,
/// charged for what was read.
pub open spec fn reconstructed<T>(
    value: Result<T, DurableCodecError>,
    encoded_len: usize,
    result: Result<EncodedPageItem<T>, DurableCodecError>,
) -> bool {
    match value {
        Err(error) => result == Err::<EncodedPageItem<T>, DurableCodecError>(error),
        Ok(value) => if encoded_len == 0 {
            result is Err && is_corrupt(result->Err_0)
        } else {
            result == Ok::<EncodedPageItem<T>, DurableCodecError>(
                EncodedPageItem { value, charge: EncodedContentCharge { bytes: encoded_len } },
            )
        },
    }
}

/// Reads one record of an expected type and reconstructs its value.
pub fn decode_message<M, T, R: FnOnce(M) -> Result<T, DurableCodecError>>(
    expected: RecordType,
    attempt: ReadAttempt<M>,
    reconstruct: R,
) -> (result: Result<EncodedPageItem<T>, DurableCodecError>)
    requires
        forall|message: M| #[trigger] reconstruct.requires((message,)),
    ensures
        match read_outcome(expected, attempt) {
            Err(kind) => result == Err::<EncodedPageItem<T>, DurableCodecError>(
                DurableCodecError { kind },
            ),
            Ok(message) => exists|value: Result<T, DurableCodecError>|
                #[trigger] reconstruct.ensures((message,), value) && reconstructed(
                    value,
                    attempt.encoded_len,
                    result,
                ),
        },
{
    let encoded_len = attempt.encoded_len;
    let message = read_message(expected, attempt)?;
    let value = reconstruct(message);
    match value {
        Err(error) => Err(error),
        Ok(value) => charged(value, encoded_len),
    }
}

/// Reads one record of an expected type, reconstructs its value, and says how long
/// each part took: a record that only the registry could read is timed as a whole.
pub fn decode_message_profiled<M, T, R: FnOnce(M) -> Result<T, DurableCodecError>>(
    expected: RecordType,
    attempt: ReadAttempt<M>,
    reconstruct: R,
    typed_profile: Option<DurableReadDecodeProfileV1>,
    fallback_ns: u128,
    semantic_ns: u128,
) -> (result: Result<(EncodedPageItem<T>, DurableReadDecodeProfileV1), DurableCodecError>)
    requires
        forall|message: M| #[trigger] reconstruct.requires((message,)),
    ensures
        match read_outcome(expected, attempt) {
            Err(kind) => result == Err::<
                (EncodedPageItem<T>, DurableReadDecodeProfileV1),
                DurableCodecError,
            >(DurableCodecError { kind }),
            Ok(message) => exists|
                value: Result<T, DurableCodecError>,
                item: Result<EncodedPageItem<T>, DurableCodecError>,
            |
                #[trigger] reconstruct.ensures((message,), value) && #[trigger] reconstructed(
                    value,
                    attempt.encoded_len,
                    item,
                ) && match item {
                    Err(error) => result == Err::<
                        (EncodedPageItem<T>, DurableReadDecodeProfileV1),
                        DurableCodecError,
                    >(error),
                    Ok(item) => result is Ok && result->Ok_0.0 == item && call_ensures(
                        decode_profile,
                        (typed_profile, fallback_ns, semantic_ns),
                        result->Ok_0.1,
                    ),
                },
        },
{
    let encoded_len = attempt.encoded_len;
    let message = read_message(expected, attempt)?;
    let value = reconstruct(message);
    let item = match value {
        Err(error) => Err(error),
        Ok(value) => charged(value, encoded_len),
    };
    proof {
        assert(reconstruct.ensures((message,), value));
        assert(reconstructed(value, encoded_len, item));
    }
    match item {
        Err(error) => Err(error),
        Ok(item) => Ok((item, decode_profile(typed_profile, fallback_ns, semantic_ns))),
    }
}

} // verus!
