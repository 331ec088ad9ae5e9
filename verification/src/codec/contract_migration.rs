//! Contract migration records as durable messages.

use vstd::prelude::*;

use crate::bytes::copy_bytes;
use crate::codec::application::{
    decode_entity_record_v1, entity_carries, entity_readable, entity_valid,
};
use crate::codec::common::{
    audit_principal_carries, audit_principal_form_is_exact, audit_principal_from_proto,
    audit_principal_to_proto, audit_principal_valid, entity_target_carries,
    entity_target_form_is_exact, entity_target_from_proto, entity_target_to_proto,
    entity_target_valid, optional_entity_target_carries, optional_entity_target_from_proto,
    optional_entity_target_to_proto,
};
use crate::codec::envelope::{
    admitted_item, read_message, read_outcome, refusal_of, ruled, ruled_item, OutgoingRecord,
    ReadAttempt,
};
use crate::codec::error::{
    is_corrupt, require, value_failure, DurableCodecError, DurableCodecErrorKind,
};
use crate::codec::parts::{
    digest_from_wire, identifier_carries, identifier_from_wire, identifier_to_wire, ids_carry,
    ids_from_wire, ids_to_wire, ids_valid, key_carries, key_from_wire, key_to_wire,
    optional_digest_carries, optional_digest_from_wire, optional_digest_to_wire,
    optional_sequence_carries, optional_sequence_from_wire, optional_sequence_to_wire,
    optional_text_carries, optional_text_from_wire, optional_text_to_wire, require_ref,
    text_carries, text_from_wire, text_to_wire,
};
use crate::codec::record_type::RecordType;
use crate::ids::{Digest, Id64};
use crate::page::EncodedPageItem;
use crate::records::{EntityTargetView, StoredEntityRecordV1};
use crate::stored::contract_migration::{
    ContractMigrationArtifactsV1, ContractMigrationJournalStepV1,
    ContractMigrationOperationArtifactsV1, MigrationJournalView, MigrationRecordView,
    RetiredEntityView, StoredContractMigrationJournalV1, StoredContractMigrationRecordV1,
    StoredContractWriteRetirementV1, StoredRetiredEntityRecordV1,
};
use crate::value_error::StorageValueError;
use crate::wire;

verus! {

/// Whether a message is the form of the artifacts of a contract migration.
pub open spec fn artifacts_carries(
    message: wire::ContractMigrationArtifactIdentityV1,
    value: ContractMigrationArtifactsV1,
) -> bool {
    &&& message.parent_bundle_hash@ == value.parent.bytes@
    &&& message.candidate_bundle_hash@ == value.candidate.bytes@
    &&& message.migration_bundle_hash@ == value.migration.bytes@
}

/// A message is the form of at most one value.
pub proof fn artifacts_form_is_exact(
    message: wire::ContractMigrationArtifactIdentityV1,
    a: ContractMigrationArtifactsV1,
    b: ContractMigrationArtifactsV1,
)
    requires
        artifacts_carries(message, a),
        artifacts_carries(message, b),
    ensures
        a == b,
{
    assert(a.parent.bytes =~= b.parent.bytes);
    assert(a.candidate.bytes =~= b.candidate.bytes);
    assert(a.migration.bytes =~= b.migration.bytes);
}

/// The message form of the artifacts of a contract migration.
pub fn artifacts_to_proto(
    value: ContractMigrationArtifactsV1,
) -> (result: wire::ContractMigrationArtifactIdentityV1)
    ensures
        artifacts_carries(result, value),
{
    wire::ContractMigrationArtifactIdentityV1 {
        parent_bundle_hash: copy_bytes(value.parent.bytes.as_slice()),
        candidate_bundle_hash: copy_bytes(value.candidate.bytes.as_slice()),
        migration_bundle_hash: copy_bytes(value.migration.bytes.as_slice()),
    }
}

/// Reads the artifacts of a contract migration.
pub fn artifacts_from_proto(value: &wire::ContractMigrationArtifactIdentityV1) -> (result: Result<
    ContractMigrationArtifactsV1,
    DurableCodecError,
>)
    ensures
        match result {
            Ok(held) => artifacts_carries(*value, held),
            Err(error) => is_corrupt(error) && forall|other: ContractMigrationArtifactsV1|
                !#[trigger] artifacts_carries(*value, other),
        },
{
    let parent = digest_from_wire(&value.parent_bundle_hash)?;
    let candidate = digest_from_wire(&value.candidate_bundle_hash)?;
    let migration = digest_from_wire(&value.migration_bundle_hash)?;
    Ok(ContractMigrationArtifactsV1 { parent, candidate, migration })
}

/// Whether a message is the form of the artifact files of a contract migration.
pub open spec fn operation_artifacts_carries(
    message: wire::ContractMigrationOperationArtifactsV1,
    value: ContractMigrationOperationArtifactsV1,
) -> bool {
    &&& message.candidate_bundle_length == value.candidate_length
    &&& message.candidate_bundle_sha256@ == value.candidate_sha256.bytes@
    &&& message.migration_bundle_length == value.migration_length
    &&& message.migration_bundle_sha256@ == value.migration_sha256.bytes@
}

/// A message is the form of at most one value.
pub proof fn operation_artifacts_form_is_exact(
    message: wire::ContractMigrationOperationArtifactsV1,
    a: ContractMigrationOperationArtifactsV1,
    b: ContractMigrationOperationArtifactsV1,
)
    requires
        operation_artifacts_carries(message, a),
        operation_artifacts_carries(message, b),
    ensures
        a == b,
{
    assert(a.candidate_sha256.bytes =~= b.candidate_sha256.bytes);
    assert(a.migration_sha256.bytes =~= b.migration_sha256.bytes);
}

/// The message form of the artifact files of a contract migration.
pub fn operation_artifacts_to_proto(
    value: ContractMigrationOperationArtifactsV1,
) -> (result: wire::ContractMigrationOperationArtifactsV1)
    ensures
        operation_artifacts_carries(result, value),
{
    wire::ContractMigrationOperationArtifactsV1 {
        candidate_bundle_length: value.candidate_length,
        candidate_bundle_sha256: copy_bytes(value.candidate_sha256.bytes.as_slice()),
        migration_bundle_length: value.migration_length,
        migration_bundle_sha256: copy_bytes(value.migration_sha256.bytes.as_slice()),
    }
}

/// Reads the artifact files of a contract migration.
pub fn operation_artifacts_from_proto(
    value: &wire::ContractMigrationOperationArtifactsV1,
) -> (result: Result<
    ContractMigrationOperationArtifactsV1,
    DurableCodecError,
>)
    ensures
        match result {
            Ok(held) => operation_artifacts_carries(*value, held),
            Err(error) => is_corrupt(error) && forall|other: ContractMigrationOperationArtifactsV1|
                !#[trigger] operation_artifacts_carries(*value, other),
        },
{
    let candidate_length = value.candidate_bundle_length;
    let candidate_sha256 = digest_from_wire(&value.candidate_bundle_sha256)?;
    let migration_length = value.migration_bundle_length;
    let migration_sha256 = digest_from_wire(&value.migration_bundle_sha256)?;
    Ok(
        ContractMigrationOperationArtifactsV1 {
            candidate_length,
            candidate_sha256,
            migration_length,
            migration_sha256,
        },
    )
}

/// Whether a message value is the form of a migration step.
pub open spec fn step_carries(
    message: wire::ContractMigrationJournalStepV1,
    value: ContractMigrationJournalStepV1,
) -> bool {
    match value {
        ContractMigrationJournalStepV1::Transforming => message is Transforming,
        ContractMigrationJournalStepV1::RebuildingProjections => message is RebuildingProjections,
        ContractMigrationJournalStepV1::Validating => message is Validating,
        ContractMigrationJournalStepV1::ReadyForCutover => message is ReadyForCutover,
        ContractMigrationJournalStepV1::Complete => message is Complete,
    }
}

/// The message form of a migration step.
pub fn step_to_proto(
    value: ContractMigrationJournalStepV1,
) -> (result: wire::ContractMigrationJournalStepV1)
    ensures
        step_carries(result, value),
{
    match value {
        ContractMigrationJournalStepV1::Transforming =>
            wire::ContractMigrationJournalStepV1::Transforming,
        ContractMigrationJournalStepV1::RebuildingProjections =>
            wire::ContractMigrationJournalStepV1::RebuildingProjections,
        ContractMigrationJournalStepV1::Validating =>
            wire::ContractMigrationJournalStepV1::Validating,
        ContractMigrationJournalStepV1::ReadyForCutover =>
            wire::ContractMigrationJournalStepV1::ReadyForCutover,
        ContractMigrationJournalStepV1::Complete => wire::ContractMigrationJournalStepV1::Complete,
    }
}

/// Reads a migration step.
pub fn step_from_proto(value: wire::ContractMigrationJournalStepV1) -> (result: Result<
    ContractMigrationJournalStepV1,
    DurableCodecError,
>)
    ensures
        match result {
            Ok(held) => step_carries(value, held),
            Err(error) => is_corrupt(error) && forall|other: ContractMigrationJournalStepV1|
                !#[trigger] step_carries(value, other),
        },
{
    match value {
        wire::ContractMigrationJournalStepV1::Transforming => Ok(
            ContractMigrationJournalStepV1::Transforming,
        ),
        wire::ContractMigrationJournalStepV1::RebuildingProjections => Ok(
            ContractMigrationJournalStepV1::RebuildingProjections,
        ),
        wire::ContractMigrationJournalStepV1::Validating => Ok(
            ContractMigrationJournalStepV1::Validating,
        ),
        wire::ContractMigrationJournalStepV1::ReadyForCutover => Ok(
            ContractMigrationJournalStepV1::ReadyForCutover,
        ),
        wire::ContractMigrationJournalStepV1::Complete => Ok(
            ContractMigrationJournalStepV1::Complete,
        ),
        wire::ContractMigrationJournalStepV1::Unspecified
            | wire::ContractMigrationJournalStepV1::Unrecognized => Err(
            DurableCodecError::corrupt(),
        ),
    }
}

/// Whether a message is the form of a contract migration journal.
pub open spec fn journal_carries(
    message: wire::StoredContractMigrationJournalV1,
    value: MigrationJournalView,
) -> bool {
    &&& identifier_carries(message.database_id, value.database_id)
    &&& identifier_carries(message.operation_id, value.operation_id)
    &&& message.semantic_input_hash@ == value.input_hash.bytes@
    &&& (message.artifacts matches Some(part) && artifacts_carries(part, value.artifacts))
    &&& step_carries(message.step, value.step)
    &&& optional_entity_target_carries(message.exclusive_cursor, value.cursor)
    &&& message.checked_rows == value.checked_rows
    &&& message.changed_rows == value.changed_rows
    &&& message.batch_count == value.batch_count
    &&& optional_sequence_carries(
        message.frozen_application_frontier,
        value.frozen_application_frontier,
    )
    &&& ids_carry(message.required_projection_ids@, value.required_projections)
    &&& optional_digest_carries(message.previous_journal_hash, value.previous_hash)
    &&& message.journal_hash@ == value.journal_hash.bytes@
}

/// The parts of a contract migration journal are valid.
pub open spec fn journal_valid(value: MigrationJournalView) -> bool {
    &&& (value.cursor matches Some(part) ==> entity_target_valid(part))
    &&& (value.frozen_application_frontier matches Some(part) ==> part.valid())
    &&& ids_valid(value.required_projections)
}

/// A message is the form of at most one value.
pub proof fn journal_form_is_exact(
    message: wire::StoredContractMigrationJournalV1,
    a: MigrationJournalView,
    b: MigrationJournalView,
)
    requires
        journal_carries(message, a),
        journal_carries(message, b),
    ensures
        a == b,
{
    assert(a.database_id.bytes =~= b.database_id.bytes);
    assert(a.operation_id.bytes =~= b.operation_id.bytes);
    assert(a.input_hash.bytes =~= b.input_hash.bytes);
    artifacts_form_is_exact(message.artifacts->Some_0, a.artifacts, b.artifacts);
    if a.cursor is Some {
        entity_target_form_is_exact(
            message.exclusive_cursor->Some_0,
            a.cursor->Some_0,
            b.cursor->Some_0,
        );
    }
    assert forall|i: int| 0 <= i < a.required_projections.len()
        implies a.required_projections[i] == b.required_projections[i] by {
        assert(message.required_projection_ids@[i] == a.required_projections[i].value
            && message.required_projection_ids@[i] == b.required_projections[i].value);
    }
    assert(a.required_projections =~= b.required_projections);
    if a.previous_hash is Some {
        assert(a.previous_hash->Some_0.bytes =~= b.previous_hash->Some_0.bytes);
    }
    assert(a.journal_hash.bytes =~= b.journal_hash.bytes);
}

/// The message form of a contract migration journal.
pub fn journal_to_proto(
    value: &StoredContractMigrationJournalV1,
) -> (result: wire::StoredContractMigrationJournalV1)
    ensures
        journal_carries(result, value@),
{
    wire::StoredContractMigrationJournalV1 {
        database_id: identifier_to_wire(value.database_id),
        operation_id: identifier_to_wire(value.operation_id),
        semantic_input_hash: copy_bytes(value.input_hash.bytes.as_slice()),
        artifacts: Some(artifacts_to_proto(value.artifacts)),
        step: step_to_proto(value.step),
        exclusive_cursor: optional_entity_target_to_proto(&value.cursor),
        checked_rows: value.checked_rows,
        changed_rows: value.changed_rows,
        batch_count: value.batch_count,
        frozen_application_frontier: optional_sequence_to_wire(value.frozen_application_frontier),
        required_projection_ids: ids_to_wire(&value.required_projections),
        previous_journal_hash: optional_digest_to_wire(value.previous_hash),
        journal_hash: copy_bytes(value.journal_hash.bytes.as_slice()),
    }
}

/// What reading a message gives: the value that it is the form of, or a
/// corruption where it is the form of no valid one.
pub open spec fn journal_read(
    message: wire::StoredContractMigrationJournalV1,
    result: Result<StoredContractMigrationJournalV1, DurableCodecError>,
) -> bool {
    match result {
        Ok(held) => journal_carries(message, held@) && journal_valid(held@),
        Err(error) => is_corrupt(error) && forall|other: MigrationJournalView| #[trigger]
            journal_carries(message, other) ==> !journal_valid(other),
    }
}

/// Reads a contract migration journal.
pub fn journal_from_proto(value: &wire::StoredContractMigrationJournalV1) -> (result: Result<
    StoredContractMigrationJournalV1,
    DurableCodecError,
>)
    ensures
        journal_read(*value, result),
{
    let database_id = identifier_from_wire(&value.database_id)?;
    let operation_id = identifier_from_wire(&value.operation_id)?;
    let input_hash = digest_from_wire(&value.semantic_input_hash)?;
    let artifacts = artifacts_from_proto(require_ref(&value.artifacts)?)?;
    let step = step_from_proto(value.step)?;
    let cursor = optional_entity_target_from_proto(&value.exclusive_cursor)?;
    let checked_rows = value.checked_rows;
    let changed_rows = value.changed_rows;
    let batch_count = value.batch_count;
    let frozen_application_frontier = optional_sequence_from_wire(
        value.frozen_application_frontier,
    )?;
    let required_projections = ids_from_wire(&value.required_projection_ids)?;
    let previous_hash = optional_digest_from_wire(&value.previous_journal_hash)?;
    let journal_hash = digest_from_wire(&value.journal_hash)?;
    Ok(
        StoredContractMigrationJournalV1 {
            database_id,
            operation_id,
            input_hash,
            artifacts,
            step,
            cursor,
            checked_rows,
            changed_rows,
            batch_count,
            frozen_application_frontier,
            required_projections,
            previous_hash,
            journal_hash,
        },
    )
}

/// Reading the message form of a contract migration journal gives back what was written.
pub proof fn journal_round_trip(
    value: MigrationJournalView,
    message: wire::StoredContractMigrationJournalV1,
    read: Result<StoredContractMigrationJournalV1, DurableCodecError>,
)
    requires
        journal_valid(value),
        journal_carries(message, value),
        journal_read(message, read),
    ensures
        read is Ok,
        read->Ok_0@ == value,
{
    if let Ok(held) = read {
        journal_form_is_exact(message, held@, value);
    }
}

/// Whether a message is the form of a permanent contract migration record.
pub open spec fn migration_record_carries(
    message: wire::StoredContractMigrationRecordV1,
    value: MigrationRecordView,
) -> bool {
    &&& identifier_carries(message.database_id, value.database_id)
    &&& identifier_carries(message.operation_id, value.operation_id)
    &&& message.semantic_input_hash@ == value.input_hash.bytes@
    &&& (message.artifacts matches Some(part) && artifacts_carries(part, value.artifacts))
    &&& (message.operation_artifacts matches Some(part) && operation_artifacts_carries(
        part,
        value.operation_artifacts,
    ))
    &&& text_carries(message.source_backup_name, value.source_backup_name)
    &&& key_carries(message.source_backup_manifest_checksum, value.source_backup_manifest)
    &&& (message.principal matches Some(part) && audit_principal_carries(part, value.principal))
    &&& optional_text_carries(message.approval_id, value.approval_id)
    &&& optional_sequence_carries(
        message.predecessor_application_frontier,
        value.predecessor_frontier,
    )
    &&& optional_sequence_carries(message.successor_application_frontier, value.successor_frontier)
    &&& message.checked_rows == value.checked_rows
    &&& message.changed_rows == value.changed_rows
    &&& message.batch_count == value.batch_count
    &&& message.terminal_validation_digest@ == value.validation_digest.bytes@
    &&& message.administration_sequence == value.administration_sequence.value
}

/// The parts of a permanent contract migration record are valid.
pub open spec fn migration_record_valid(value: MigrationRecordView) -> bool {
    &&& audit_principal_valid(value.principal)
    &&& (value.predecessor_frontier matches Some(part) ==> part.valid())
    &&& (value.successor_frontier matches Some(part) ==> part.valid())
    &&& value.administration_sequence.valid()
}

/// A message is the form of at most one value.
pub proof fn migration_record_form_is_exact(
    message: wire::StoredContractMigrationRecordV1,
    a: MigrationRecordView,
    b: MigrationRecordView,
)
    requires
        migration_record_carries(message, a),
        migration_record_carries(message, b),
    ensures
        a == b,
{
    assert(a.database_id.bytes =~= b.database_id.bytes);
    assert(a.operation_id.bytes =~= b.operation_id.bytes);
    assert(a.input_hash.bytes =~= b.input_hash.bytes);
    artifacts_form_is_exact(message.artifacts->Some_0, a.artifacts, b.artifacts);
    operation_artifacts_form_is_exact(
        message.operation_artifacts->Some_0,
        a.operation_artifacts,
        b.operation_artifacts,
    );
    audit_principal_form_is_exact(message.principal->Some_0, a.principal, b.principal);
    assert(a.validation_digest.bytes =~= b.validation_digest.bytes);
}

/// The message form of a permanent contract migration record.
pub fn migration_record_to_proto(
    value: &StoredContractMigrationRecordV1,
) -> (result: wire::StoredContractMigrationRecordV1)
    ensures
        migration_record_carries(result, value@),
{
    wire::StoredContractMigrationRecordV1 {
        database_id: identifier_to_wire(value.database_id),
        operation_id: identifier_to_wire(value.operation_id),
        semantic_input_hash: copy_bytes(value.input_hash.bytes.as_slice()),
        artifacts: Some(artifacts_to_proto(value.artifacts)),
        operation_artifacts: Some(operation_artifacts_to_proto(value.operation_artifacts)),
        source_backup_name: text_to_wire(&value.source_backup_name),
        source_backup_manifest_checksum: key_to_wire(&value.source_backup_manifest),
        principal: Some(audit_principal_to_proto(&value.principal)),
        approval_id: optional_text_to_wire(&value.approval_id),
        predecessor_application_frontier: optional_sequence_to_wire(value.predecessor_frontier),
        successor_application_frontier: optional_sequence_to_wire(value.successor_frontier),
        checked_rows: value.checked_rows,
        changed_rows: value.changed_rows,
        batch_count: value.batch_count,
        terminal_validation_digest: copy_bytes(value.validation_digest.bytes.as_slice()),
        administration_sequence: value.administration_sequence.get(),
    }
}

/// What reading a message gives: the value that it is the form of, or a
/// corruption where it is the form of no valid one.
pub open spec fn migration_record_read(
    message: wire::StoredContractMigrationRecordV1,
    result: Result<StoredContractMigrationRecordV1, DurableCodecError>,
) -> bool {
    match result {
        Ok(held) => migration_record_carries(message, held@) && migration_record_valid(held@),
        Err(error) => is_corrupt(error) && forall|other: MigrationRecordView| #[trigger]
            migration_record_carries(message, other) ==> !migration_record_valid(other),
    }
}

/// Reads a permanent contract migration record.
pub fn migration_record_from_proto(
    value: &wire::StoredContractMigrationRecordV1,
) -> (result: Result<
    StoredContractMigrationRecordV1,
    DurableCodecError,
>)
    ensures
        migration_record_read(*value, result),
{
    let database_id = identifier_from_wire(&value.database_id)?;
    let operation_id = identifier_from_wire(&value.operation_id)?;
    let input_hash = digest_from_wire(&value.semantic_input_hash)?;
    let artifacts = artifacts_from_proto(require_ref(&value.artifacts)?)?;
    let operation_artifacts = operation_artifacts_from_proto(
        require_ref(&value.operation_artifacts)?,
    )?;
    let source_backup_name = text_from_wire(&value.source_backup_name)?;
    let source_backup_manifest = key_from_wire(&value.source_backup_manifest_checksum)?;
    let principal = audit_principal_from_proto(require_ref(&value.principal)?)?;
    let approval_id = optional_text_from_wire(&value.approval_id)?;
    let predecessor_frontier = optional_sequence_from_wire(value.predecessor_application_frontier)?;
    let successor_frontier = optional_sequence_from_wire(value.successor_application_frontier)?;
    let checked_rows = value.checked_rows;
    let changed_rows = value.changed_rows;
    let batch_count = value.batch_count;
    let validation_digest = digest_from_wire(&value.terminal_validation_digest)?;
    let administration_sequence = require(Id64::new(value.administration_sequence))?;
    Ok(
        StoredContractMigrationRecordV1 {
            database_id,
            operation_id,
            input_hash,
            artifacts,
            operation_artifacts,
            source_backup_name,
            source_backup_manifest,
            principal,
            approval_id,
            predecessor_frontier,
            successor_frontier,
            checked_rows,
            changed_rows,
            batch_count,
            validation_digest,
            administration_sequence,
        },
    )
}

/// Reading the message form of a permanent contract migration record gives back what was written.
pub proof fn migration_record_round_trip(
    value: MigrationRecordView,
    message: wire::StoredContractMigrationRecordV1,
    read: Result<StoredContractMigrationRecordV1, DurableCodecError>,
)
    requires
        migration_record_valid(value),
        migration_record_carries(message, value),
        migration_record_read(message, read),
    ensures
        read is Ok,
        read->Ok_0@ == value,
{
    if let Ok(held) = read {
        migration_record_form_is_exact(message, held@, value);
    }
}

/// Whether a message is the form of the retirement of a predecessor's writes.
pub open spec fn retirement_carries(
    message: wire::StoredContractWriteRetirementV1,
    value: StoredContractWriteRetirementV1,
) -> bool {
    &&& artifacts_carries(message.artifacts, value.artifacts)
    &&& identifier_carries(message.operation_id, value.operation_id)
    &&& message.administration_sequence == value.administration_sequence.value
}

/// The parts of the retirement of a predecessor's writes are valid.
pub open spec fn retirement_valid(value: StoredContractWriteRetirementV1) -> bool {
    &&& value.administration_sequence.valid()
}

/// A message is the form of at most one value.
pub proof fn retirement_form_is_exact(
    message: wire::StoredContractWriteRetirementV1,
    a: StoredContractWriteRetirementV1,
    b: StoredContractWriteRetirementV1,
)
    requires
        retirement_carries(message, a),
        retirement_carries(message, b),
    ensures
        a == b,
{
    artifacts_form_is_exact(message.artifacts, a.artifacts, b.artifacts);
    assert(a.operation_id.bytes =~= b.operation_id.bytes);
}

/// The message form of the retirement of a predecessor's writes.
pub fn retirement_to_proto(
    value: StoredContractWriteRetirementV1,
) -> (result: wire::StoredContractWriteRetirementV1)
    ensures
        retirement_carries(result, value),
{
    wire::StoredContractWriteRetirementV1 {
        artifacts: artifacts_to_proto(value.artifacts),
        operation_id: identifier_to_wire(value.operation_id),
        administration_sequence: value.administration_sequence.get(),
    }
}

/// What reading a message gives: the value that it is the form of, or a
/// corruption where it is the form of no valid one.
pub open spec fn retirement_read(
    message: wire::StoredContractWriteRetirementV1,
    result: Result<StoredContractWriteRetirementV1, DurableCodecError>,
) -> bool {
    match result {
        Ok(held) => retirement_carries(message, held) && retirement_valid(held),
        Err(error) => is_corrupt(error) && forall|other: StoredContractWriteRetirementV1| #[trigger]
            retirement_carries(message, other) ==> !retirement_valid(other),
    }
}

/// Reads the retirement of a predecessor's writes.
pub fn retirement_from_proto(value: &wire::StoredContractWriteRetirementV1) -> (result: Result<
    StoredContractWriteRetirementV1,
    DurableCodecError,
>)
    ensures
        retirement_read(*value, result),
{
    let artifacts = artifacts_from_proto(&value.artifacts)?;
    let operation_id = identifier_from_wire(&value.operation_id)?;
    let administration_sequence = require(Id64::new(value.administration_sequence))?;
    Ok(StoredContractWriteRetirementV1 { artifacts, operation_id, administration_sequence })
}

/// Reading the message form of the retirement of a predecessor's writes gives back what was
/// written.
pub proof fn retirement_round_trip(
    value: StoredContractWriteRetirementV1,
    message: wire::StoredContractWriteRetirementV1,
    read: Result<StoredContractWriteRetirementV1, DurableCodecError>,
)
    requires
        retirement_valid(value),
        retirement_carries(message, value),
        retirement_read(message, read),
    ensures
        read is Ok,
        read->Ok_0 == value,
{
    if let Ok(held) = read {
        retirement_form_is_exact(message, held, value);
    }
}

/// Whether a message is the form of a retained predecessor entity.
pub open spec fn retired_entity_carries(
    message: wire::StoredRetiredEntityRecordV1,
    value: RetiredEntityView,
) -> bool {
    &&& identifier_carries(message.operation_id, value.operation_id)
    &&& message.migration_bundle_hash@ == value.migration.bytes@
    &&& (message.original_target matches Some(part) && entity_target_carries(
        part,
        value.original_target,
    ))
    &&& message.original_entity_envelope@ == value.original_entity_envelope
}

/// The parts of a retained predecessor entity are valid.
pub open spec fn retired_entity_valid(value: RetiredEntityView) -> bool {
    &&& entity_target_valid(value.original_target)
}

/// A message is the form of at most one value.
pub proof fn retired_entity_form_is_exact(
    message: wire::StoredRetiredEntityRecordV1,
    a: RetiredEntityView,
    b: RetiredEntityView,
)
    requires
        retired_entity_carries(message, a),
        retired_entity_carries(message, b),
    ensures
        a == b,
{
    assert(a.operation_id.bytes =~= b.operation_id.bytes);
    assert(a.migration.bytes =~= b.migration.bytes);
    entity_target_form_is_exact(
        message.original_target->Some_0,
        a.original_target,
        b.original_target,
    );
}

/// The message form of a retained predecessor entity.
pub fn retired_entity_to_proto(
    value: &StoredRetiredEntityRecordV1,
) -> (result: wire::StoredRetiredEntityRecordV1)
    ensures
        retired_entity_carries(result, value@),
{
    wire::StoredRetiredEntityRecordV1 {
        operation_id: identifier_to_wire(value.operation_id),
        migration_bundle_hash: copy_bytes(value.migration.bytes.as_slice()),
        original_target: Some(entity_target_to_proto(&value.original_target)),
        original_entity_envelope: copy_bytes(&value.original_entity_envelope),
    }
}

/// What reading a message gives: the value that it is the form of, or a
/// corruption where it is the form of no valid one.
pub open spec fn retired_entity_read(
    message: wire::StoredRetiredEntityRecordV1,
    result: Result<StoredRetiredEntityRecordV1, DurableCodecError>,
) -> bool {
    match result {
        Ok(held) => retired_entity_carries(message, held@) && retired_entity_valid(held@),
        Err(error) => is_corrupt(error) && forall|other: RetiredEntityView| #[trigger]
            retired_entity_carries(message, other) ==> !retired_entity_valid(other),
    }
}

/// Reads a retained predecessor entity.
pub fn retired_entity_from_proto(value: &wire::StoredRetiredEntityRecordV1) -> (result: Result<
    StoredRetiredEntityRecordV1,
    DurableCodecError,
>)
    ensures
        retired_entity_read(*value, result),
{
    let operation_id = identifier_from_wire(&value.operation_id)?;
    let migration = digest_from_wire(&value.migration_bundle_hash)?;
    let original_target = entity_target_from_proto(require_ref(&value.original_target)?)?;
    let original_entity_envelope = copy_bytes(&value.original_entity_envelope);
    Ok(
        StoredRetiredEntityRecordV1 {
            operation_id,
            migration,
            original_target,
            original_entity_envelope,
        },
    )
}

/// Reading the message form of a retained predecessor entity gives back what was written.
pub proof fn retired_entity_round_trip(
    value: RetiredEntityView,
    message: wire::StoredRetiredEntityRecordV1,
    read: Result<StoredRetiredEntityRecordV1, DurableCodecError>,
)
    requires
        retired_entity_valid(value),
        retired_entity_carries(message, value),
        retired_entity_read(message, read),
    ensures
        read is Ok,
        read->Ok_0@ == value,
{
    if let Ok(held) = read {
        retired_entity_form_is_exact(message, held@, value);
    }
}

/// Whether a message is the form of some valid value.
pub open spec fn journal_readable(message: wire::StoredContractMigrationJournalV1) -> bool {
    exists|value: MigrationJournalView| #[trigger] journal_carries(message, value)
        && journal_valid(value)
}

/// Decodes one canonical migration journal envelope.
pub fn decode_contract_migration_journal_v1<
    R: Fn(&StoredContractMigrationJournalV1) -> Option<StorageValueError>,
>(
    attempt: ReadAttempt<wire::StoredContractMigrationJournalV1>,
    rule: R,
) -> (result: Result<EncodedPageItem<StoredContractMigrationJournalV1>, DurableCodecError>)
    requires
        forall|value: &StoredContractMigrationJournalV1| #[trigger] rule.requires((value,)),
    ensures
        match read_outcome(RecordType::StoredContractMigrationJournalV1, attempt) {
            Err(kind) => result == Err::<EncodedPageItem<StoredContractMigrationJournalV1>, _>(
                DurableCodecError { kind },
            ),
            Ok(message) => if journal_readable(message) {
                exists|value: StoredContractMigrationJournalV1| {
                    &&& journal_carries(message, value@)
                    &&& journal_valid(value@)
                    &&& #[trigger] ruled(rule, value, attempt.encoded_len, result)
                }
            } else {
                result == Err::<EncodedPageItem<StoredContractMigrationJournalV1>, _>(
                    DurableCodecError { kind: DurableCodecErrorKind::CorruptData },
                )
            },
        },
{
    let encoded_len = attempt.encoded_len;
    let message = read_message(RecordType::StoredContractMigrationJournalV1, attempt)?;
    let value = journal_from_proto(&message)?;
    ruled_item(value, rule, encoded_len)
}

/// Encodes one permanent migration record envelope.
pub fn encode_contract_migration_record_v1(
    value: &StoredContractMigrationRecordV1,
) -> (result: OutgoingRecord<
    wire::StoredContractMigrationRecordV1,
>)
    ensures
        result.record_type == RecordType::StoredContractMigrationRecordV1,
        migration_record_carries(result.message, value@),
{
    OutgoingRecord {
        record_type: RecordType::StoredContractMigrationRecordV1,
        message: migration_record_to_proto(value),
    }
}

/// Whether a message is the form of some valid value.
pub open spec fn migration_record_readable(message: wire::StoredContractMigrationRecordV1) -> bool {
    exists|value: MigrationRecordView| #[trigger] migration_record_carries(message, value)
        && migration_record_valid(value)
}

/// Decodes one permanent migration record envelope.
pub fn decode_contract_migration_record_v1<
    R: Fn(&StoredContractMigrationRecordV1) -> Option<StorageValueError>,
>(
    attempt: ReadAttempt<wire::StoredContractMigrationRecordV1>,
    rule: R,
) -> (result: Result<EncodedPageItem<StoredContractMigrationRecordV1>, DurableCodecError>)
    requires
        forall|value: &StoredContractMigrationRecordV1| #[trigger] rule.requires((value,)),
    ensures
        match read_outcome(RecordType::StoredContractMigrationRecordV1, attempt) {
            Err(kind) => result == Err::<EncodedPageItem<StoredContractMigrationRecordV1>, _>(
                DurableCodecError { kind },
            ),
            Ok(message) => if migration_record_readable(message) {
                exists|value: StoredContractMigrationRecordV1| {
                    &&& migration_record_carries(message, value@)
                    &&& migration_record_valid(value@)
                    &&& #[trigger] ruled(rule, value, attempt.encoded_len, result)
                }
            } else {
                result == Err::<EncodedPageItem<StoredContractMigrationRecordV1>, _>(
                    DurableCodecError { kind: DurableCodecErrorKind::CorruptData },
                )
            },
        },
{
    let encoded_len = attempt.encoded_len;
    let message = read_message(RecordType::StoredContractMigrationRecordV1, attempt)?;
    let value = migration_record_from_proto(&message)?;
    ruled_item(value, rule, encoded_len)
}

/// Encodes one predecessor-write retirement envelope.
pub fn encode_contract_write_retirement_v1(
    value: StoredContractWriteRetirementV1,
) -> (result: OutgoingRecord<
    wire::StoredContractWriteRetirementV1,
>)
    ensures
        result.record_type == RecordType::StoredContractWriteRetirementV1,
        retirement_carries(result.message, value),
{
    OutgoingRecord {
        record_type: RecordType::StoredContractWriteRetirementV1,
        message: retirement_to_proto(value),
    }
}

/// Whether a message is the form of some valid value.
pub open spec fn retirement_readable(message: wire::StoredContractWriteRetirementV1) -> bool {
    exists|value: StoredContractWriteRetirementV1| #[trigger]
        retirement_carries(message, value) && retirement_valid(value)
}

/// Decodes one predecessor-write retirement envelope.
pub fn decode_contract_write_retirement_v1(
    attempt: ReadAttempt<wire::StoredContractWriteRetirementV1>,
) -> (result: Result<EncodedPageItem<StoredContractWriteRetirementV1>, DurableCodecError>)
    ensures
        match read_outcome(RecordType::StoredContractWriteRetirementV1, attempt) {
            Err(kind) => result == Err::<EncodedPageItem<StoredContractWriteRetirementV1>, _>(
                DurableCodecError { kind },
            ),
            Ok(message) => match refusal_of(
                retirement_readable(message),
                None,
                attempt.encoded_len,
            ) {
                Some(kind) => result == Err::<EncodedPageItem<StoredContractWriteRetirementV1>, _>(
                    DurableCodecError { kind },
                ),
                None => result is Ok && retirement_carries(message, result->Ok_0.value)
                    && retirement_valid(result->Ok_0.value)
                    && result->Ok_0.charge.bytes == attempt.encoded_len,
            },
        },
{
    let encoded_len = attempt.encoded_len;
    let message = read_message(RecordType::StoredContractWriteRetirementV1, attempt)?;
    let value = retirement_from_proto(&message)?;
    admitted_item(value, None, encoded_len)
}

/// What encoding a journal under the hash of its canonical parts comes to: a journal
/// whose own hash is another one is corrupt.
pub open spec fn journal_encoded(
    value: MigrationJournalView,
    computed_hash: Result<Digest, StorageValueError>,
    result: Result<OutgoingRecord<wire::StoredContractMigrationJournalV1>, DurableCodecError>,
) -> bool {
    match computed_hash {
        Err(error) => result == Err::<
            OutgoingRecord<wire::StoredContractMigrationJournalV1>,
            DurableCodecError,
        >(DurableCodecError { kind: value_failure(error) }),
        Ok(hash) => if hash != value.journal_hash {
            result is Err && is_corrupt(result->Err_0)
        } else {
            result is Ok && result->Ok_0.record_type
                == RecordType::StoredContractMigrationJournalV1 && journal_carries(
                result->Ok_0.message,
                value,
            )
        },
    }
}

/// Encodes one canonical migration journal, given how the canonical parts of a journal
/// are hashed.
pub fn encode_contract_migration_journal_v1<
    H: Fn(&StoredContractMigrationJournalV1) -> Result<Digest, StorageValueError>,
>(value: &StoredContractMigrationJournalV1, hash: H) -> (result: Result<
    OutgoingRecord<wire::StoredContractMigrationJournalV1>,
    DurableCodecError,
>)
    requires
        forall|value: &StoredContractMigrationJournalV1| #[trigger] hash.requires((value,)),
    ensures
        exists|computed_hash: Result<Digest, StorageValueError>| #[trigger]
            hash.ensures((value,), computed_hash) && journal_encoded(
                value@,
                computed_hash,
                result,
            ),
{
    let computed_hash = hash(value);
    assert(hash.ensures((value,), computed_hash));
    match computed_hash {
        Err(error) => Err(DurableCodecError::from_storage_value(error)),
        Ok(hash) => if hash.same(&value.journal_hash) {
            Ok(
                OutgoingRecord {
                    record_type: RecordType::StoredContractMigrationJournalV1,
                    message: journal_to_proto(value),
                },
            )
        } else {
            Err(DurableCodecError::corrupt())
        },
    }
}

/// What reading an entity row comes to.
pub open spec fn entity_outcome<R: Fn(&StoredEntityRecordV1) -> Option<StorageValueError>>(
    attempt: ReadAttempt<wire::StoredEntityRecordV1>,
    entity_rule: R,
    result: Result<EncodedPageItem<StoredEntityRecordV1>, DurableCodecError>,
) -> bool {
    match read_outcome(RecordType::StoredEntityRecordV1, attempt) {
        Err(kind) => result == Err::<EncodedPageItem<StoredEntityRecordV1>, _>(
            DurableCodecError { kind },
        ),
        Ok(message) => if entity_readable(message) {
            exists|value: StoredEntityRecordV1|
                entity_carries(message, value@) && entity_valid(value@) && #[trigger] ruled(
                    entity_rule,
                    value,
                    attempt.encoded_len,
                    result,
                )
        } else {
            result == Err::<EncodedPageItem<StoredEntityRecordV1>, _>(
                DurableCodecError { kind: DurableCodecErrorKind::CorruptData },
            )
        },
    }
}

/// Encodes one retained predecessor entity, given what its retained envelope reads
/// as: it has to be the entity that the record names.
pub fn encode_retired_entity_record_v1<R: Fn(&StoredEntityRecordV1) -> Option<StorageValueError>>(
    value: &StoredRetiredEntityRecordV1,
    entity: ReadAttempt<wire::StoredEntityRecordV1>,
    entity_rule: R,
) -> (result: Result<OutgoingRecord<wire::StoredRetiredEntityRecordV1>, DurableCodecError>)
    requires
        forall|value: &StoredEntityRecordV1| #[trigger] entity_rule.requires((value,)),
    ensures
        exists|read: Result<EncodedPageItem<StoredEntityRecordV1>, DurableCodecError>| #[trigger]
            entity_outcome(entity, entity_rule, read) && match read {
                Err(error) => result == Err::<
                    OutgoingRecord<wire::StoredRetiredEntityRecordV1>,
                    DurableCodecError,
                >(error),
                Ok(item) => if item.value@.target != value@.original_target {
                    result is Err && is_corrupt(result->Err_0)
                } else {
                    result is Ok && result->Ok_0.record_type
                        == RecordType::StoredRetiredEntityRecordV1 && retired_entity_carries(
                        result->Ok_0.message,
                        value@,
                    )
                },
            },
{
    let read = decode_entity_record_v1(entity, entity_rule);
    proof {
        assert(entity_outcome(entity, entity_rule, read));
    }
    match read {
        Err(error) => Err(error),
        Ok(item) => if item.value.target.same(&value.original_target) {
            Ok(
                OutgoingRecord {
                    record_type: RecordType::StoredRetiredEntityRecordV1,
                    message: retired_entity_to_proto(value),
                },
            )
        } else {
            Err(DurableCodecError::corrupt())
        },
    }
}

/// Whether a target field is the form of some valid target.
pub open spec fn retired_target_readable(message: wire::StoredRetiredEntityRecordV1) -> bool {
    message.original_target is Some && exists|target: EntityTargetView| #[trigger]
        entity_target_carries(message.original_target->Some_0, target) && entity_target_valid(
            target,
        )
}

/// Whether a message is the form of some valid value.
pub open spec fn retired_entity_readable(message: wire::StoredRetiredEntityRecordV1) -> bool {
    exists|value: RetiredEntityView| #[trigger]
        retired_entity_carries(message, value) && retired_entity_valid(value)
}

/// What a retired entity message comes to beside its retained envelope: its target
/// is read first, then the envelope, which has to hold that very entity, and then
/// every other part.
pub open spec fn retired_outcome<
    R: Fn(&StoredEntityRecordV1) -> Option<StorageValueError>,
    S: Fn(&StoredRetiredEntityRecordV1) -> Option<StorageValueError>,
>(
    message: wire::StoredRetiredEntityRecordV1,
    entity: ReadAttempt<wire::StoredEntityRecordV1>,
    entity_rule: R,
    rule: S,
    encoded_len: usize,
    result: Result<EncodedPageItem<StoredRetiredEntityRecordV1>, DurableCodecError>,
) -> bool {
    if !retired_target_readable(message) {
        result is Err && is_corrupt(result->Err_0)
    } else {
        exists|read: Result<EncodedPageItem<StoredEntityRecordV1>, DurableCodecError>| #[trigger]
            entity_outcome(entity, entity_rule, read) && match read {
                Err(error) => result == Err::<
                    EncodedPageItem<StoredRetiredEntityRecordV1>,
                    DurableCodecError,
                >(error),
                Ok(item) => if entity_target_carries(
                    message.original_target->Some_0,
                    item.value@.target,
                ) && retired_entity_readable(message) {
                    exists|value: StoredRetiredEntityRecordV1|
                        retired_entity_carries(message, value@) && retired_entity_valid(value@)
                            && value@.original_target == item.value@.target && #[trigger] ruled(
                            rule,
                            value,
                            encoded_len,
                            result,
                        )
                } else {
                    result == Err::<EncodedPageItem<StoredRetiredEntityRecordV1>, _>(
                        DurableCodecError { kind: DurableCodecErrorKind::CorruptData },
                    )
                },
            }
    }
}

/// Decodes one retained predecessor entity, given what its retained envelope reads
/// as.
pub fn decode_retired_entity_record_v1<
    R: Fn(&StoredEntityRecordV1) -> Option<StorageValueError>,
    S: Fn(&StoredRetiredEntityRecordV1) -> Option<StorageValueError>,
>(
    attempt: ReadAttempt<wire::StoredRetiredEntityRecordV1>,
    entity: ReadAttempt<wire::StoredEntityRecordV1>,
    entity_rule: R,
    rule: S,
) -> (result: Result<EncodedPageItem<StoredRetiredEntityRecordV1>, DurableCodecError>)
    requires
        forall|value: &StoredEntityRecordV1| #[trigger] entity_rule.requires((value,)),
        forall|value: &StoredRetiredEntityRecordV1| #[trigger] rule.requires((value,)),
    ensures
        match read_outcome(RecordType::StoredRetiredEntityRecordV1, attempt) {
            Err(kind) => result == Err::<EncodedPageItem<StoredRetiredEntityRecordV1>, _>(
                DurableCodecError { kind },
            ),
            Ok(message) => retired_outcome(
                message,
                entity,
                entity_rule,
                rule,
                attempt.encoded_len,
                result,
            ),
        },
{
    let encoded_len = attempt.encoded_len;
    let message = read_message(RecordType::StoredRetiredEntityRecordV1, attempt)?;
    let target = match &message.original_target {
        None => return Err(DurableCodecError::corrupt()),
        Some(part) => entity_target_from_proto(part)?,
    };
    proof {
        assert(entity_target_carries(message.original_target->Some_0, target@)
            && entity_target_valid(target@));
    }
    let read = decode_entity_record_v1(entity, entity_rule);
    proof {
        assert(entity_outcome(entity, entity_rule, read));
    }
    match read {
        Err(error) => Err(error),
        Ok(item) => {
            let own = item.value.target.same(&target);
            proof {
                if entity_target_carries(message.original_target->Some_0, item.value@.target) {
                    entity_target_form_is_exact(
                        message.original_target->Some_0,
                        target@,
                        item.value@.target,
                    );
                }
            }
            if !own {
                return Err(DurableCodecError::corrupt());
            }
            match retired_entity_from_proto(&message) {
                Err(error) => Err(error),
                Ok(value) => {
                    proof {
                        entity_target_form_is_exact(
                            message.original_target->Some_0,
                            target@,
                            value@.original_target,
                        );
                    }
                    ruled_item(value, rule, encoded_len)
                },
            }
        },
    }
}

} // verus!
