//! Database metadata records as durable messages.

use vstd::prelude::*;

use crate::bytes::copy_bytes;
use crate::codec::envelope::{
    admitted_item, read_message, read_outcome, refusal_of, OutgoingRecord, ReadAttempt,
};
use crate::codec::error::{is_corrupt, require, DurableCodecError};
use crate::codec::parts::{
    digest_from_wire, identifier_carries, identifier_from_wire, identifier_to_wire, require_ref,
    word_from_wire, Vetted,
};
use crate::codec::record_type::RecordType;
use crate::ids::{CommitSequence, Id64};
use crate::page::EncodedPageItem;
use crate::stored::metadata::{
    AdministrationSequenceAllocator, ApplicationSequenceAllocator, DatabaseIdentity,
    RecordRegistryDigest, StorageFormatVersion,
};
use crate::wire;

verus! {

/// Whether a message is the form of a supported storage format version.
pub open spec fn format_version_carries(
    message: wire::StoredStorageFormatVersionV1,
    value: StorageFormatVersion,
) -> bool {
    &&& (message.storage_format_version.accepted
        && message.storage_format_version.value == value.version)
}

/// A message is the form of at most one value.
pub proof fn format_version_form_is_exact(
    message: wire::StoredStorageFormatVersionV1,
    a: StorageFormatVersion,
    b: StorageFormatVersion,
)
    requires
        format_version_carries(message, a),
        format_version_carries(message, b),
    ensures
        a == b,
{
}

/// The message form of a supported storage format version.
pub fn format_version_to_proto(
    value: StorageFormatVersion,
) -> (result: wire::StoredStorageFormatVersionV1)
    ensures
        format_version_carries(result, value),
{
    wire::StoredStorageFormatVersionV1 {
        storage_format_version: Vetted { value: value.version, accepted: true },
    }
}

/// What reading a message gives: the value that it is the form of, or a
/// corruption where it is the form of no valid one.
pub open spec fn format_version_read(
    message: wire::StoredStorageFormatVersionV1,
    result: Result<StorageFormatVersion, DurableCodecError>,
) -> bool {
    match result {
        Ok(held) => format_version_carries(message, held),
        Err(error) => is_corrupt(error) && forall|other: StorageFormatVersion|
            !#[trigger] format_version_carries(message, other),
    }
}

/// Reads a supported storage format version.
pub fn format_version_from_proto(value: &wire::StoredStorageFormatVersionV1) -> (result: Result<
    StorageFormatVersion,
    DurableCodecError,
>)
    ensures
        format_version_read(*value, result),
{
    let version = word_from_wire(&value.storage_format_version)?;
    Ok(StorageFormatVersion { version })
}

/// Reading the message form of a supported storage format version gives back what was written.
pub proof fn format_version_round_trip(
    value: StorageFormatVersion,
    message: wire::StoredStorageFormatVersionV1,
    read: Result<StorageFormatVersion, DurableCodecError>,
)
    requires
        format_version_carries(message, value),
        format_version_read(message, read),
    ensures
        read is Ok,
        read->Ok_0 == value,
{
    if let Ok(held) = read {
        format_version_form_is_exact(message, held, value);
    }
}

/// Whether a message is the form of the digest of the record registry.
pub open spec fn record_registry_carries(
    message: wire::StoredRecordRegistryV2,
    value: RecordRegistryDigest,
) -> bool {
    &&& message.registry_digest@ == value.digest.bytes@
}

/// A message is the form of at most one value.
pub proof fn record_registry_form_is_exact(
    message: wire::StoredRecordRegistryV2,
    a: RecordRegistryDigest,
    b: RecordRegistryDigest,
)
    requires
        record_registry_carries(message, a),
        record_registry_carries(message, b),
    ensures
        a == b,
{
    assert(a.digest.bytes =~= b.digest.bytes);
}

/// The message form of the digest of the record registry.
pub fn record_registry_to_proto(
    value: RecordRegistryDigest,
) -> (result: wire::StoredRecordRegistryV2)
    ensures
        record_registry_carries(result, value),
{
    wire::StoredRecordRegistryV2 {
        registry_digest: copy_bytes(value.digest.bytes.as_slice()),
    }
}

/// What reading a message gives: the value that it is the form of, or a
/// corruption where it is the form of no valid one.
pub open spec fn record_registry_read(
    message: wire::StoredRecordRegistryV2,
    result: Result<RecordRegistryDigest, DurableCodecError>,
) -> bool {
    match result {
        Ok(held) => record_registry_carries(message, held),
        Err(error) => is_corrupt(error) && forall|other: RecordRegistryDigest|
            !#[trigger] record_registry_carries(message, other),
    }
}

/// Reads the digest of the record registry.
pub fn record_registry_from_proto(value: &wire::StoredRecordRegistryV2) -> (result: Result<
    RecordRegistryDigest,
    DurableCodecError,
>)
    ensures
        record_registry_read(*value, result),
{
    let digest = digest_from_wire(&value.registry_digest)?;
    Ok(RecordRegistryDigest { digest })
}

/// Reading the message form of the digest of the record registry gives back what was written.
pub proof fn record_registry_round_trip(
    value: RecordRegistryDigest,
    message: wire::StoredRecordRegistryV2,
    read: Result<RecordRegistryDigest, DurableCodecError>,
)
    requires
        record_registry_carries(message, value),
        record_registry_read(message, read),
    ensures
        read is Ok,
        read->Ok_0 == value,
{
    if let Ok(held) = read {
        record_registry_form_is_exact(message, held, value);
    }
}

/// Whether a message is the form of the permanent identity of a database.
pub open spec fn database_identity_carries(
    message: wire::StoredDatabaseIdentityV1,
    value: DatabaseIdentity,
) -> bool {
    &&& identifier_carries(message.database_id, value.database_id)
}

/// A message is the form of at most one value.
pub proof fn database_identity_form_is_exact(
    message: wire::StoredDatabaseIdentityV1,
    a: DatabaseIdentity,
    b: DatabaseIdentity,
)
    requires
        database_identity_carries(message, a),
        database_identity_carries(message, b),
    ensures
        a == b,
{
    assert(a.database_id.bytes =~= b.database_id.bytes);
}

/// The message form of the permanent identity of a database.
pub fn database_identity_to_proto(
    value: DatabaseIdentity,
) -> (result: wire::StoredDatabaseIdentityV1)
    ensures
        database_identity_carries(result, value),
{
    wire::StoredDatabaseIdentityV1 {
        database_id: identifier_to_wire(value.database_id),
    }
}

/// What reading a message gives: the value that it is the form of, or a
/// corruption where it is the form of no valid one.
pub open spec fn database_identity_read(
    message: wire::StoredDatabaseIdentityV1,
    result: Result<DatabaseIdentity, DurableCodecError>,
) -> bool {
    match result {
        Ok(held) => database_identity_carries(message, held),
        Err(error) => is_corrupt(error) && forall|other: DatabaseIdentity|
            !#[trigger] database_identity_carries(message, other),
    }
}

/// Reads the permanent identity of a database.
pub fn database_identity_from_proto(value: &wire::StoredDatabaseIdentityV1) -> (result: Result<
    DatabaseIdentity,
    DurableCodecError,
>)
    ensures
        database_identity_read(*value, result),
{
    let database_id = identifier_from_wire(&value.database_id)?;
    Ok(DatabaseIdentity { database_id })
}

/// Reading the message form of the permanent identity of a database gives back what was written.
pub proof fn database_identity_round_trip(
    value: DatabaseIdentity,
    message: wire::StoredDatabaseIdentityV1,
    read: Result<DatabaseIdentity, DurableCodecError>,
)
    requires
        database_identity_carries(message, value),
        database_identity_read(message, read),
    ensures
        read is Ok,
        read->Ok_0 == value,
{
    if let Ok(held) = read {
        database_identity_form_is_exact(message, held, value);
    }
}

/// Whether a message is the form of the allocator of commit positions.
pub open spec fn application_allocator_carries(
    message: wire::StoredApplicationSequenceAllocatorV1,
    value: ApplicationSequenceAllocator,
) -> bool {
    match value {
        ApplicationSequenceAllocator::Next(part) => message.state matches Some(
            wire::StoredApplicationSequenceAllocatorV1State::NextCommitSequence(form),
        ) && form == part.value,
        ApplicationSequenceAllocator::Exhausted => message.state matches Some(
            wire::StoredApplicationSequenceAllocatorV1State::Exhausted,
        ),
    }
}

/// The parts of the allocator of commit positions are valid.
pub open spec fn application_allocator_valid(value: ApplicationSequenceAllocator) -> bool {
    match value {
        ApplicationSequenceAllocator::Next(part) => part.valid(),
        ApplicationSequenceAllocator::Exhausted => true,
    }
}

/// A message is the form of at most one value.
pub proof fn application_allocator_form_is_exact(
    message: wire::StoredApplicationSequenceAllocatorV1,
    a: ApplicationSequenceAllocator,
    b: ApplicationSequenceAllocator,
)
    requires
        application_allocator_carries(message, a),
        application_allocator_carries(message, b),
    ensures
        a == b,
{
}

/// The message form of the allocator of commit positions.
pub fn application_allocator_to_proto(
    value: ApplicationSequenceAllocator,
) -> (result: wire::StoredApplicationSequenceAllocatorV1)
    ensures
        application_allocator_carries(result, value),
{
    let form = match value {
        ApplicationSequenceAllocator::Next(part) =>
            wire::StoredApplicationSequenceAllocatorV1State::NextCommitSequence(
            part.get(),
        ),
        ApplicationSequenceAllocator::Exhausted =>
            wire::StoredApplicationSequenceAllocatorV1State::Exhausted,
    };
    wire::StoredApplicationSequenceAllocatorV1 { state: Some(form) }
}

/// What reading a message gives: the value that it is the form of, or a
/// corruption where it is the form of no valid one.
pub open spec fn application_allocator_read(
    message: wire::StoredApplicationSequenceAllocatorV1,
    result: Result<ApplicationSequenceAllocator, DurableCodecError>,
) -> bool {
    match result {
        Ok(held) =>
            application_allocator_carries(message, held) && application_allocator_valid(held),
        Err(error) => is_corrupt(error) && forall|other: ApplicationSequenceAllocator| #[trigger]
            application_allocator_carries(message, other) ==> !application_allocator_valid(other),
    }
}

/// Reads the allocator of commit positions.
pub fn application_allocator_from_proto(
    value: &wire::StoredApplicationSequenceAllocatorV1,
) -> (result: Result<
    ApplicationSequenceAllocator,
    DurableCodecError,
>)
    ensures
        application_allocator_read(*value, result),
{
    match require_ref(&value.state)? {
        wire::StoredApplicationSequenceAllocatorV1State::NextCommitSequence(form) => {
            let part = require(CommitSequence::new(*form))?;
            Ok(ApplicationSequenceAllocator::Next(part))
        },
        wire::StoredApplicationSequenceAllocatorV1State::Exhausted => Ok(
            ApplicationSequenceAllocator::Exhausted,
        ),
    }
}

/// Reading the message form of the allocator of commit positions gives back what was written.
pub proof fn application_allocator_round_trip(
    value: ApplicationSequenceAllocator,
    message: wire::StoredApplicationSequenceAllocatorV1,
    read: Result<ApplicationSequenceAllocator, DurableCodecError>,
)
    requires
        application_allocator_valid(value),
        application_allocator_carries(message, value),
        application_allocator_read(message, read),
    ensures
        read is Ok,
        read->Ok_0 == value,
{
    if let Ok(held) = read {
        application_allocator_form_is_exact(message, held, value);
    }
}

/// Whether a message is the form of the allocator of administrative positions.
pub open spec fn administration_allocator_carries(
    message: wire::StoredAdministrationSequenceAllocatorV1,
    value: AdministrationSequenceAllocator,
) -> bool {
    match value {
        AdministrationSequenceAllocator::Next(part) => message.state matches Some(
            wire::StoredAdministrationSequenceAllocatorV1State::NextAdministrationSequence(form),
        ) && form == part.value,
        AdministrationSequenceAllocator::Exhausted => message.state matches Some(
            wire::StoredAdministrationSequenceAllocatorV1State::Exhausted,
        ),
    }
}

/// The parts of the allocator of administrative positions are valid.
pub open spec fn administration_allocator_valid(value: AdministrationSequenceAllocator) -> bool {
    match value {
        AdministrationSequenceAllocator::Next(part) => part.valid(),
        AdministrationSequenceAllocator::Exhausted => true,
    }
}

/// A message is the form of at most one value.
pub proof fn administration_allocator_form_is_exact(
    message: wire::StoredAdministrationSequenceAllocatorV1,
    a: AdministrationSequenceAllocator,
    b: AdministrationSequenceAllocator,
)
    requires
        administration_allocator_carries(message, a),
        administration_allocator_carries(message, b),
    ensures
        a == b,
{
}

/// The message form of the allocator of administrative positions.
pub fn administration_allocator_to_proto(
    value: AdministrationSequenceAllocator,
) -> (result: wire::StoredAdministrationSequenceAllocatorV1)
    ensures
        administration_allocator_carries(result, value),
{
    let form = match value {
        AdministrationSequenceAllocator::Next(part) =>
            wire::StoredAdministrationSequenceAllocatorV1State::NextAdministrationSequence(
            part.get(),
        ),
        AdministrationSequenceAllocator::Exhausted =>
            wire::StoredAdministrationSequenceAllocatorV1State::Exhausted,
    };
    wire::StoredAdministrationSequenceAllocatorV1 { state: Some(form) }
}

/// What reading a message gives: the value that it is the form of, or a
/// corruption where it is the form of no valid one.
pub open spec fn administration_allocator_read(
    message: wire::StoredAdministrationSequenceAllocatorV1,
    result: Result<AdministrationSequenceAllocator, DurableCodecError>,
) -> bool {
    match result {
        Ok(held) =>
            administration_allocator_carries(message, held) && administration_allocator_valid(held),
        Err(error) => is_corrupt(error) && forall|other: AdministrationSequenceAllocator| #[trigger]
            administration_allocator_carries(message, other)
                ==> !administration_allocator_valid(other),
    }
}

/// Reads the allocator of administrative positions.
pub fn administration_allocator_from_proto(
    value: &wire::StoredAdministrationSequenceAllocatorV1,
) -> (result: Result<
    AdministrationSequenceAllocator,
    DurableCodecError,
>)
    ensures
        administration_allocator_read(*value, result),
{
    match require_ref(&value.state)? {
        wire::StoredAdministrationSequenceAllocatorV1State::NextAdministrationSequence(form) => {
            let part = require(Id64::new(*form))?;
            Ok(AdministrationSequenceAllocator::Next(part))
        },
        wire::StoredAdministrationSequenceAllocatorV1State::Exhausted => Ok(
            AdministrationSequenceAllocator::Exhausted,
        ),
    }
}

/// Reading the message form of the allocator of administrative positions gives back what
/// was written.
pub proof fn administration_allocator_round_trip(
    value: AdministrationSequenceAllocator,
    message: wire::StoredAdministrationSequenceAllocatorV1,
    read: Result<AdministrationSequenceAllocator, DurableCodecError>,
)
    requires
        administration_allocator_valid(value),
        administration_allocator_carries(message, value),
        administration_allocator_read(message, read),
    ensures
        read is Ok,
        read->Ok_0 == value,
{
    if let Ok(held) = read {
        administration_allocator_form_is_exact(message, held, value);
    }
}

/// Encodes the supported durable storage-format metadata record.
pub fn encode_storage_format_version_v1(value: StorageFormatVersion) -> (result: OutgoingRecord<
    wire::StoredStorageFormatVersionV1,
>)
    ensures
        result.record_type == RecordType::StoredStorageFormatVersionV1,
        format_version_carries(result.message, value),
{
    OutgoingRecord {
        record_type: RecordType::StoredStorageFormatVersionV1,
        message: format_version_to_proto(value),
    }
}

/// Whether a message is the form of some valid value.
pub open spec fn format_version_readable(message: wire::StoredStorageFormatVersionV1) -> bool {
    exists|value: StorageFormatVersion| #[trigger] format_version_carries(message, value)
}

/// Decodes the supported durable storage-format metadata record.
pub fn decode_storage_format_version_v1(
    attempt: ReadAttempt<wire::StoredStorageFormatVersionV1>,
) -> (result: Result<EncodedPageItem<StorageFormatVersion>, DurableCodecError>)
    ensures
        match read_outcome(RecordType::StoredStorageFormatVersionV1, attempt) {
            Err(kind) => result == Err::<EncodedPageItem<StorageFormatVersion>, _>(
                DurableCodecError { kind },
            ),
            Ok(message) => match refusal_of(
                format_version_readable(message),
                None,
                attempt.encoded_len,
            ) {
                Some(kind) => result == Err::<EncodedPageItem<StorageFormatVersion>, _>(
                    DurableCodecError { kind },
                ),
                None => result is Ok && format_version_carries(message, result->Ok_0.value)
                            && result->Ok_0.charge.bytes == attempt.encoded_len,
            },
        },
{
    let encoded_len = attempt.encoded_len;
    let message = read_message(RecordType::StoredStorageFormatVersionV1, attempt)?;
    let value = format_version_from_proto(&message)?;
    admitted_item(value, None, encoded_len)
}

/// Encodes the exact compact durable-record registry digest.
pub fn encode_record_registry_v2(value: RecordRegistryDigest) -> (result: OutgoingRecord<
    wire::StoredRecordRegistryV2,
>)
    ensures
        result.record_type == RecordType::StoredRecordRegistryV2,
        record_registry_carries(result.message, value),
{
    OutgoingRecord {
        record_type: RecordType::StoredRecordRegistryV2,
        message: record_registry_to_proto(value),
    }
}

/// Whether a message is the form of some valid value.
pub open spec fn record_registry_readable(message: wire::StoredRecordRegistryV2) -> bool {
    exists|value: RecordRegistryDigest| #[trigger] record_registry_carries(message, value)
}

/// Decodes the exact compact durable-record registry digest.
pub fn decode_record_registry_v2(
    attempt: ReadAttempt<wire::StoredRecordRegistryV2>,
) -> (result: Result<EncodedPageItem<RecordRegistryDigest>, DurableCodecError>)
    ensures
        match read_outcome(RecordType::StoredRecordRegistryV2, attempt) {
            Err(kind) => result == Err::<EncodedPageItem<RecordRegistryDigest>, _>(
                DurableCodecError { kind },
            ),
            Ok(message) => match refusal_of(
                record_registry_readable(message),
                None,
                attempt.encoded_len,
            ) {
                Some(kind) => result == Err::<EncodedPageItem<RecordRegistryDigest>, _>(
                    DurableCodecError { kind },
                ),
                None => result is Ok && record_registry_carries(message, result->Ok_0.value)
                            && result->Ok_0.charge.bytes == attempt.encoded_len,
            },
        },
{
    let encoded_len = attempt.encoded_len;
    let message = read_message(RecordType::StoredRecordRegistryV2, attempt)?;
    let value = record_registry_from_proto(&message)?;
    admitted_item(value, None, encoded_len)
}

/// Encodes the permanent database identity metadata record.
pub fn encode_database_identity_v1(value: DatabaseIdentity) -> (result: OutgoingRecord<
    wire::StoredDatabaseIdentityV1,
>)
    ensures
        result.record_type == RecordType::StoredDatabaseIdentityV1,
        database_identity_carries(result.message, value),
{
    OutgoingRecord {
        record_type: RecordType::StoredDatabaseIdentityV1,
        message: database_identity_to_proto(value),
    }
}

/// Whether a message is the form of some valid value.
pub open spec fn database_identity_readable(message: wire::StoredDatabaseIdentityV1) -> bool {
    exists|value: DatabaseIdentity| #[trigger] database_identity_carries(message, value)
}

/// Decodes the permanent database identity metadata record.
pub fn decode_database_identity_v1(
    attempt: ReadAttempt<wire::StoredDatabaseIdentityV1>,
) -> (result: Result<EncodedPageItem<DatabaseIdentity>, DurableCodecError>)
    ensures
        match read_outcome(RecordType::StoredDatabaseIdentityV1, attempt) {
            Err(kind) => result == Err::<EncodedPageItem<DatabaseIdentity>, _>(
                DurableCodecError { kind },
            ),
            Ok(message) => match refusal_of(
                database_identity_readable(message),
                None,
                attempt.encoded_len,
            ) {
                Some(kind) => result == Err::<EncodedPageItem<DatabaseIdentity>, _>(
                    DurableCodecError { kind },
                ),
                None => result is Ok && database_identity_carries(message, result->Ok_0.value)
                            && result->Ok_0.charge.bytes == attempt.encoded_len,
            },
        },
{
    let encoded_len = attempt.encoded_len;
    let message = read_message(RecordType::StoredDatabaseIdentityV1, attempt)?;
    let value = database_identity_from_proto(&message)?;
    admitted_item(value, None, encoded_len)
}

/// Encodes the application-sequence allocator metadata record.
pub fn encode_application_sequence_allocator_v1(
    value: ApplicationSequenceAllocator,
) -> (result: OutgoingRecord<
    wire::StoredApplicationSequenceAllocatorV1,
>)
    ensures
        result.record_type == RecordType::StoredApplicationSequenceAllocatorV1,
        application_allocator_carries(result.message, value),
{
    OutgoingRecord {
        record_type: RecordType::StoredApplicationSequenceAllocatorV1,
        message: application_allocator_to_proto(value),
    }
}

/// Whether a message is the form of some valid value.
pub open spec fn application_allocator_readable(
    message: wire::StoredApplicationSequenceAllocatorV1,
) -> bool {
    exists|value: ApplicationSequenceAllocator| #[trigger]
        application_allocator_carries(message, value) && application_allocator_valid(value)
}

/// Decodes the application-sequence allocator metadata record.
pub fn decode_application_sequence_allocator_v1(
    attempt: ReadAttempt<wire::StoredApplicationSequenceAllocatorV1>,
) -> (result: Result<EncodedPageItem<ApplicationSequenceAllocator>, DurableCodecError>)
    ensures
        match read_outcome(RecordType::StoredApplicationSequenceAllocatorV1, attempt) {
            Err(kind) => result == Err::<EncodedPageItem<ApplicationSequenceAllocator>, _>(
                DurableCodecError { kind },
            ),
            Ok(message) => match refusal_of(
                application_allocator_readable(message),
                None,
                attempt.encoded_len,
            ) {
                Some(kind) => result == Err::<EncodedPageItem<ApplicationSequenceAllocator>, _>(
                    DurableCodecError { kind },
                ),
                None => result is Ok && application_allocator_carries(message, result->Ok_0.value)
                    && application_allocator_valid(result->Ok_0.value)
                    && result->Ok_0.charge.bytes == attempt.encoded_len,
            },
        },
{
    let encoded_len = attempt.encoded_len;
    let message = read_message(RecordType::StoredApplicationSequenceAllocatorV1, attempt)?;
    let value = application_allocator_from_proto(&message)?;
    admitted_item(value, None, encoded_len)
}

/// Encodes the administration-sequence allocator metadata record.
pub fn encode_administration_sequence_allocator_v1(
    value: AdministrationSequenceAllocator,
) -> (result: OutgoingRecord<
    wire::StoredAdministrationSequenceAllocatorV1,
>)
    ensures
        result.record_type == RecordType::StoredAdministrationSequenceAllocatorV1,
        administration_allocator_carries(result.message, value),
{
    OutgoingRecord {
        record_type: RecordType::StoredAdministrationSequenceAllocatorV1,
        message: administration_allocator_to_proto(value),
    }
}

/// Whether a message is the form of some valid value.
pub open spec fn administration_allocator_readable(
    message: wire::StoredAdministrationSequenceAllocatorV1,
) -> bool {
    exists|value: AdministrationSequenceAllocator| #[trigger]
        administration_allocator_carries(message, value) && administration_allocator_valid(value)
}

/// Decodes the administration-sequence allocator metadata record.
pub fn decode_administration_sequence_allocator_v1(
    attempt: ReadAttempt<wire::StoredAdministrationSequenceAllocatorV1>,
) -> (result: Result<EncodedPageItem<AdministrationSequenceAllocator>, DurableCodecError>)
    ensures
        match read_outcome(RecordType::StoredAdministrationSequenceAllocatorV1, attempt) {
            Err(kind) => result == Err::<EncodedPageItem<AdministrationSequenceAllocator>, _>(
                DurableCodecError { kind },
            ),
            Ok(message) => match refusal_of(
                administration_allocator_readable(message),
                None,
                attempt.encoded_len,
            ) {
                Some(kind) => result == Err::<EncodedPageItem<AdministrationSequenceAllocator>, _>(
                    DurableCodecError { kind },
                ),
                None => result is Ok && administration_allocator_carries(
                    message,
                    result->Ok_0.value,
                )
                    && administration_allocator_valid(result->Ok_0.value)
                    && result->Ok_0.charge.bytes == attempt.encoded_len,
            },
        },
{
    let encoded_len = attempt.encoded_len;
    let message = read_message(RecordType::StoredAdministrationSequenceAllocatorV1, attempt)?;
    let value = administration_allocator_from_proto(&message)?;
    admitted_item(value, None, encoded_len)
}

/// The first history incarnation of a database; the number is this library's own choice.
pub const HISTORY_INCARNATION_INITIAL: u64 = 1;

/// Encodes the durable history-incarnation metadata record.
pub fn encode_history_incarnation_v1(incarnation: u64) -> (result: Result<
    OutgoingRecord<wire::StoredHistoryIncarnationV1>,
    DurableCodecError,
>)
    ensures
        if incarnation < HISTORY_INCARNATION_INITIAL {
            result is Err && is_corrupt(result->Err_0)
        } else {
            result is Ok && result->Ok_0.record_type == RecordType::StoredHistoryIncarnationV1
                && result->Ok_0.message.incarnation == incarnation
        },
{
    if incarnation < HISTORY_INCARNATION_INITIAL {
        return Err(DurableCodecError::corrupt());
    }
    Ok(
        OutgoingRecord {
            record_type: RecordType::StoredHistoryIncarnationV1,
            message: wire::StoredHistoryIncarnationV1 { incarnation },
        },
    )
}

/// Decodes the durable history-incarnation metadata record.
pub fn decode_history_incarnation_v1(
    attempt: ReadAttempt<wire::StoredHistoryIncarnationV1>,
) -> (result: Result<EncodedPageItem<u64>, DurableCodecError>)
    ensures
        match read_outcome(RecordType::StoredHistoryIncarnationV1, attempt) {
            Err(kind) => result == Err::<EncodedPageItem<u64>, _>(DurableCodecError { kind }),
            Ok(message) => match refusal_of(
                message.incarnation >= HISTORY_INCARNATION_INITIAL,
                None,
                attempt.encoded_len,
            ) {
                Some(kind) => result == Err::<EncodedPageItem<u64>, _>(DurableCodecError { kind }),
                None => result is Ok && result->Ok_0.value == message.incarnation
                    && result->Ok_0.charge.bytes == attempt.encoded_len,
            },
        },
{
    let encoded_len = attempt.encoded_len;
    let message = read_message(RecordType::StoredHistoryIncarnationV1, attempt)?;
    if message.incarnation < HISTORY_INCARNATION_INITIAL {
        return Err(DurableCodecError::corrupt());
    }
    admitted_item(message.incarnation, None, encoded_len)
}

} // verus!
