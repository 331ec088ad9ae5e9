//! Application records as durable messages.

use vstd::prelude::*;

use crate::bytes::copy_bytes;
use crate::codec::common::{
    actor_carries, actor_form_is_exact, actor_from_proto, actor_to_proto, binding_carries,
    binding_form_is_exact, binding_from_proto, binding_to_proto, binding_valid, claims_carries,
    claims_form_is_exact, claims_from_proto, claims_to_proto, declared_outcome_carries,
    declared_outcome_form_is_exact, declared_outcome_from_proto, declared_outcome_to_proto,
    declared_outcome_valid, entity_target_carries, entity_target_form_is_exact,
    entity_target_from_proto, entity_target_to_proto, entity_target_valid, epoch_carries,
    epoch_form_is_exact, epoch_from_proto, epoch_to_proto, epoch_valid, event_id_carries,
    event_id_form_is_exact, event_id_from_proto, event_id_list_carries, event_id_list_form_is_exact,
    event_id_list_from_proto, event_id_list_to_proto, event_id_list_valid, event_id_to_proto,
    event_id_valid, expected_carries, expected_form_is_exact, expected_from_proto,
    expected_to_proto, expected_valid, identity_carries, identity_form_is_exact,
    identity_from_proto, identity_to_proto, identity_valid, plan_carries, plan_form_is_exact,
    plan_from_proto, plan_to_proto, plan_valid, range_prefix_carries, range_prefix_form_is_exact,
    range_prefix_from_proto, range_prefix_to_proto, range_prefix_valid, timestamp_carries,
    timestamp_form_is_exact, timestamp_from_proto, timestamp_to_proto, timestamp_valid,
};
use crate::codec::envelope::{
    admitted_item, decode_record_variant, read_message, read_outcome, refusal_of, ruled, ruled_item,
    variant_outcome, OutgoingRecord, ReadAttempt,
};
use crate::codec::error::{
    is_corrupt, over_limit, require, unread_failure, DurableCodecError, DurableCodecErrorKind,
    EnvelopeError,
};
use crate::codec::parts::{
    digest_from_wire, digests_carry, digests_from_wire, digests_to_wire, document_carries,
    document_from_wire, document_to_wire, identifier_carries, identifier_from_wire,
    identifier_to_wire, key_carries, key_from_wire, key_to_wire, require_ref, Identifier,
};
use crate::codec::record_type::RecordType;
use crate::ids::{CommitSequence, Digest, EventId, Id32, Id64, Timestamp};
use crate::page::EncodedPageItem;
use crate::records::{
    DurableEventView, EntityRecordView, IndexEntryView, StoredDurableEventV1, StoredEntityRecordV1,
    StoredIndexEntryV2,
};
use crate::stored::application::{
    affected_views, copy_dependency_list, dependencies_rebuilt, dependency_views,
    entity_reference_views, event_views, mutation_views, same_dependency_list, AffectedEntityV1,
    AffectedEntityView, CommitParts, CommitPartsView, CommittedEntityMutationV1,
    CommittedEntityReferenceV2, DurabilityMode, EntityMutationView, EntityReadDependency,
    EntityReadDependencyView, EntityReferenceView, EventReferenceV2, ExecutionFailedBase,
    ExecutionFailedBaseView, ExecutionFailedView, ExecutionFailureCode, IndexEpochView,
    IndexRangeReadDependency, IndexRangeReadDependencyView, LegacyIndexEntryView,
    LegacyIndexEpochView, LegacyStoredIndexEpochV1, OutcomeBase, OutcomeBaseView,
    PendingAdmissionBase, PendingAdmissionBaseView, PendingAdmissionView, ProvenanceBase,
    ProvenanceBaseView, ProvenanceRecordView, ReadDependenciesView, ReadDependencyView,
    StoredCommandCausationV1, StoredEventRouteV1, StoredExecutionFailedV1, StoredIndexEntryV1,
    StoredIndexEpochV1, StoredOutcomeV1, StoredOutcomeView, StoredPendingAdmissionV1,
    StoredProvenanceRecordV1, StoredReadDependenciesV1, StoredReadDependencyV1,
};
use crate::stored::segment::affected_entities;
use crate::value_error::StorageValueError;
use crate::wire;
use crate::plan::ExecutablePlanRef;
use crate::stored::common::AdmittedActorContext;
use super::envelope::{reads_another, reads_back};

verus! {

/// Whether a message value is the form of a durability mode.
pub open spec fn durability_carries(
    message: wire::DurabilityModeV1,
    value: DurabilityMode,
) -> bool {
    match value {
        DurabilityMode::Sync => message is Sync,
        DurabilityMode::Group => message is Group,
        DurabilityMode::Memory => message is Memory,
    }
}

/// The message form of a durability mode.
pub fn durability_to_proto(value: DurabilityMode) -> (result: wire::DurabilityModeV1)
    ensures
        durability_carries(result, value),
{
    match value {
        DurabilityMode::Sync => wire::DurabilityModeV1::Sync,
        DurabilityMode::Group => wire::DurabilityModeV1::Group,
        DurabilityMode::Memory => wire::DurabilityModeV1::Memory,
    }
}

/// Reads a durability mode.
pub fn durability_from_proto(value: wire::DurabilityModeV1) -> (result: Result<
    DurabilityMode,
    DurableCodecError,
>)
    ensures
        match result {
            Ok(held) => durability_carries(value, held),
            Err(error) => is_corrupt(error) && forall|other: DurabilityMode|
                !#[trigger] durability_carries(value, other),
        },
{
    match value {
        wire::DurabilityModeV1::Sync => Ok(DurabilityMode::Sync),
        wire::DurabilityModeV1::Group => Ok(DurabilityMode::Group),
        wire::DurabilityModeV1::Memory => Ok(DurabilityMode::Memory),
        wire::DurabilityModeV1::Unspecified | wire::DurabilityModeV1::Unrecognized => Err(
            DurableCodecError::corrupt(),
        ),
    }
}

/// Whether a message value is the form of an execution failure code.
pub open spec fn execution_code_carries(
    message: wire::ExecutionFailureCodeV1,
    value: ExecutionFailureCode,
) -> bool {
    match value {
        ExecutionFailureCode::ArithmeticFault => message is ArithmeticFault,
        ExecutionFailureCode::ResourceLimit => message is ResourceLimit,
        ExecutionFailureCode::UniqueConflict => message is UniqueConflict,
    }
}

/// The message form of an execution failure code.
pub fn execution_code_to_proto(
    value: ExecutionFailureCode,
) -> (result: wire::ExecutionFailureCodeV1)
    ensures
        execution_code_carries(result, value),
{
    match value {
        ExecutionFailureCode::ArithmeticFault => wire::ExecutionFailureCodeV1::ArithmeticFault,
        ExecutionFailureCode::ResourceLimit => wire::ExecutionFailureCodeV1::ResourceLimit,
        ExecutionFailureCode::UniqueConflict => wire::ExecutionFailureCodeV1::UniqueConflict,
    }
}

/// Reads an execution failure code.
pub fn execution_code_from_proto(value: wire::ExecutionFailureCodeV1) -> (result: Result<
    ExecutionFailureCode,
    DurableCodecError,
>)
    ensures
        match result {
            Ok(held) => execution_code_carries(value, held),
            Err(error) => is_corrupt(error) && forall|other: ExecutionFailureCode|
                !#[trigger] execution_code_carries(value, other),
        },
{
    match value {
        wire::ExecutionFailureCodeV1::ArithmeticFault => Ok(ExecutionFailureCode::ArithmeticFault),
        wire::ExecutionFailureCodeV1::ResourceLimit => Ok(ExecutionFailureCode::ResourceLimit),
        wire::ExecutionFailureCodeV1::UniqueConflict => Ok(ExecutionFailureCode::UniqueConflict),
        wire::ExecutionFailureCodeV1::Unspecified | wire::ExecutionFailureCodeV1::Unrecognized =>
            Err(
            DurableCodecError::corrupt(),
        ),
    }
}

/// Whether a message is the form of a reference to an event by identity and hash.
pub open spec fn event_reference_carries(
    message: wire::EventReferenceV2,
    value: EventReferenceV2,
) -> bool {
    &&& (message.event_id matches Some(part) && event_id_carries(part, value.event_id))
    &&& message.event_hash@ == value.event_hash.bytes@
}

/// The parts of a reference to an event by identity and hash are valid.
pub open spec fn event_reference_valid(value: EventReferenceV2) -> bool {
    &&& event_id_valid(value.event_id)
}

/// A message is the form of at most one value.
pub proof fn event_reference_form_is_exact(
    message: wire::EventReferenceV2,
    a: EventReferenceV2,
    b: EventReferenceV2,
)
    requires
        event_reference_carries(message, a),
        event_reference_carries(message, b),
    ensures
        a == b,
{
    event_id_form_is_exact(message.event_id->Some_0, a.event_id, b.event_id);
    assert(a.event_hash.bytes =~= b.event_hash.bytes);
}

/// The message form of a reference to an event by identity and hash.
pub fn event_reference_to_proto(value: EventReferenceV2) -> (result: wire::EventReferenceV2)
    ensures
        event_reference_carries(result, value),
{
    wire::EventReferenceV2 {
        event_id: Some(event_id_to_proto(value.event_id)),
        event_hash: copy_bytes(value.event_hash.bytes.as_slice()),
    }
}

/// Reads a reference to an event by identity and hash.
pub fn event_reference_from_proto(value: &wire::EventReferenceV2) -> (result: Result<
    EventReferenceV2,
    DurableCodecError,
>)
    ensures
        match result {
            Ok(held) => event_reference_carries(*value, held) && event_reference_valid(held),
            Err(error) => is_corrupt(error) && forall|other: EventReferenceV2| #[trigger]
                event_reference_carries(*value, other) ==> !event_reference_valid(other),
        },
{
    let event_id = event_id_from_proto(require_ref(&value.event_id)?)?;
    let event_hash = digest_from_wire(&value.event_hash)?;
    Ok(EventReferenceV2 { event_id, event_hash })
}

/// Whether messages are the forms of values, one by one.
pub open spec fn event_reference_list_carries(
    messages: Seq<wire::EventReferenceV2>,
    values: Seq<EventReferenceV2>,
) -> bool {
    &&& messages.len() == values.len()
    &&& forall|i: int|
        0 <= i < messages.len() ==> event_reference_carries(#[trigger] messages[i], values[i])
}

/// All values are valid.
pub open spec fn event_reference_list_valid(values: Seq<EventReferenceV2>) -> bool {
    forall|i: int| 0 <= i < values.len() ==> event_reference_valid(#[trigger] values[i])
}

/// Messages are the forms of at most one list of values.
pub proof fn event_reference_list_form_is_exact(
    messages: Seq<wire::EventReferenceV2>,
    a: Seq<EventReferenceV2>,
    b: Seq<EventReferenceV2>,
)
    requires
        event_reference_list_carries(messages, a),
        event_reference_list_carries(messages, b),
    ensures
        a == b,
{
    assert forall|i: int| 0 <= i < a.len() implies a[i] == b[i] by {
        assert(event_reference_carries(messages[i], a[i])
            && event_reference_carries(messages[i], b[i]));
        event_reference_form_is_exact(messages[i], a[i], b[i]);
    }
    assert(a =~= b);
}

/// The message forms of values.
pub fn event_reference_list_to_proto(
    values: &[EventReferenceV2],
) -> (result: Vec<wire::EventReferenceV2>)
    ensures
        event_reference_list_carries(result@, values@),
{
    let mut result: Vec<wire::EventReferenceV2> = Vec::new();
    let mut i: usize = 0;
    while i < values.len()
        invariant
            i <= values@.len(),
            result@.len() == i,
            forall|k: int| 0 <= k < i ==> event_reference_carries(
                #[trigger] result@[k],
                values@[k],
            ),
        decreases values@.len() - i,
    {
        result.push(event_reference_to_proto(values[i]));
        i += 1;
    }
    result
}

/// Reads values from their message forms.
pub fn event_reference_list_from_proto(values: &[wire::EventReferenceV2]) -> (result: Result<
    Vec<EventReferenceV2>,
    DurableCodecError,
>)
    ensures
        match result {
            Ok(held) =>
                event_reference_list_carries(values@, held@) && event_reference_list_valid(held@),
            Err(error) => is_corrupt(error) && forall|other: Seq<EventReferenceV2>| #[trigger]
                event_reference_list_carries(values@, other) ==> !event_reference_list_valid(other),
        },
{
    let mut result: Vec<EventReferenceV2> = Vec::new();
    let mut i: usize = 0;
    while i < values.len()
        invariant
            i <= values@.len(),
            result@.len() == i,
            forall|k: int|
                0 <= k < i ==> event_reference_carries(values@[k], #[trigger] result@[k])
                    && event_reference_valid(result@[k]),
        decreases values@.len() - i,
    {
        match event_reference_from_proto(&values[i]) {
            Ok(held) => {
                result.push(held);
            },
            Err(error) => {
                assert forall|other: Seq<EventReferenceV2>| #[trigger]
                    event_reference_list_carries(values@, other)
                        implies !event_reference_list_valid(other) by {
                    assert(event_reference_carries(values@[i as int], other[i as int]));
                    assert(!event_reference_valid(other[i as int]));
                }
                return Err(error);
            },
        }
        i += 1;
    }
    Ok(result)
}

/// Whether a message is the form of an entity row.
pub open spec fn entity_carries(
    message: wire::StoredEntityRecordV1,
    value: EntityRecordView,
) -> bool {
    &&& (message.target matches Some(part) && entity_target_carries(part, value.target))
    &&& message.entity_version == value.entity_version.value
    &&& message.written_by_contract == value.written_by_contract.value
    &&& (message.schema_binding matches Some(part) && binding_carries(part, value.schema_binding))
    &&& document_carries(message.canonical_fields, value.fields)
}

/// The parts of an entity row are valid.
pub open spec fn entity_valid(value: EntityRecordView) -> bool {
    &&& entity_target_valid(value.target)
    &&& value.entity_version.valid()
    &&& value.written_by_contract.valid()
    &&& binding_valid(value.schema_binding)
}

/// A message is the form of at most one value.
pub proof fn entity_form_is_exact(
    message: wire::StoredEntityRecordV1,
    a: EntityRecordView,
    b: EntityRecordView,
)
    requires
        entity_carries(message, a),
        entity_carries(message, b),
    ensures
        a == b,
{
    entity_target_form_is_exact(message.target->Some_0, a.target, b.target);
    binding_form_is_exact(message.schema_binding->Some_0, a.schema_binding, b.schema_binding);
}

/// The message form of an entity row.
pub fn entity_to_proto(value: &StoredEntityRecordV1) -> (result: wire::StoredEntityRecordV1)
    ensures
        entity_carries(result, value@),
{
    wire::StoredEntityRecordV1 {
        target: Some(entity_target_to_proto(&value.target)),
        entity_version: value.entity_version.get(),
        written_by_contract: value.written_by_contract.get(),
        schema_binding: Some(binding_to_proto(&value.schema_binding)),
        canonical_fields: document_to_wire(&value.fields),
    }
}

/// What reading a message gives: the value that it is the form of, or a
/// corruption where it is the form of no valid one.
pub open spec fn entity_read(
    message: wire::StoredEntityRecordV1,
    result: Result<StoredEntityRecordV1, DurableCodecError>,
) -> bool {
    match result {
        Ok(held) => entity_carries(message, held@) && entity_valid(held@),
        Err(error) => is_corrupt(error) && forall|other: EntityRecordView| #[trigger]
            entity_carries(message, other) ==> !entity_valid(other),
    }
}

/// Reads an entity row.
pub fn entity_from_proto(value: &wire::StoredEntityRecordV1) -> (result: Result<
    StoredEntityRecordV1,
    DurableCodecError,
>)
    ensures
        entity_read(*value, result),
{
    let target = entity_target_from_proto(require_ref(&value.target)?)?;
    let entity_version = require(Id64::new(value.entity_version))?;
    let written_by_contract = require(Id64::new(value.written_by_contract))?;
    let schema_binding = binding_from_proto(require_ref(&value.schema_binding)?)?;
    let fields = document_from_wire(&value.canonical_fields)?;
    Ok(
        StoredEntityRecordV1 {
            target,
            entity_version,
            written_by_contract,
            schema_binding,
            fields,
        },
    )
}

/// Reading the message form of an entity row gives back what was written.
pub proof fn entity_round_trip(
    value: EntityRecordView,
    message: wire::StoredEntityRecordV1,
    read: Result<StoredEntityRecordV1, DurableCodecError>,
)
    requires
        entity_valid(value),
        entity_carries(message, value),
        entity_read(message, read),
    ensures
        read is Ok,
        read->Ok_0@ == value,
{
    if let Ok(held) = read {
        entity_form_is_exact(message, held@, value);
    }
}

/// Whether a message is the form of an index entry.
pub open spec fn index_entry_carries(
    message: wire::StoredIndexEntryV2,
    value: IndexEntryView,
) -> bool {
    &&& key_carries(message.index_entry_key, value.key)
    &&& (message.schema_binding matches Some(part) && binding_carries(part, value.schema_binding))
    &&& document_carries(message.canonical_covered_values, value.covered_values)
    &&& key_carries(message.partition_key, value.partition_key)
}

/// The parts of an index entry are valid.
pub open spec fn index_entry_valid(value: IndexEntryView) -> bool {
    &&& binding_valid(value.schema_binding)
}

/// A message is the form of at most one value.
pub proof fn index_entry_form_is_exact(
    message: wire::StoredIndexEntryV2,
    a: IndexEntryView,
    b: IndexEntryView,
)
    requires
        index_entry_carries(message, a),
        index_entry_carries(message, b),
    ensures
        a == b,
{
    binding_form_is_exact(message.schema_binding->Some_0, a.schema_binding, b.schema_binding);
}

/// The message form of an index entry.
pub fn index_entry_to_proto(value: &StoredIndexEntryV2) -> (result: wire::StoredIndexEntryV2)
    ensures
        index_entry_carries(result, value@),
{
    wire::StoredIndexEntryV2 {
        index_entry_key: key_to_wire(&value.key),
        schema_binding: Some(binding_to_proto(&value.schema_binding)),
        canonical_covered_values: document_to_wire(&value.covered_values),
        partition_key: key_to_wire(&value.partition_key),
    }
}

/// What reading a message gives: the value that it is the form of, or a
/// corruption where it is the form of no valid one.
pub open spec fn index_entry_read(
    message: wire::StoredIndexEntryV2,
    result: Result<StoredIndexEntryV2, DurableCodecError>,
) -> bool {
    match result {
        Ok(held) => index_entry_carries(message, held@) && index_entry_valid(held@),
        Err(error) => is_corrupt(error) && forall|other: IndexEntryView| #[trigger]
            index_entry_carries(message, other) ==> !index_entry_valid(other),
    }
}

/// Reads an index entry.
pub fn index_entry_from_proto(value: &wire::StoredIndexEntryV2) -> (result: Result<
    StoredIndexEntryV2,
    DurableCodecError,
>)
    ensures
        index_entry_read(*value, result),
{
    let key = key_from_wire(&value.index_entry_key)?;
    let schema_binding = binding_from_proto(require_ref(&value.schema_binding)?)?;
    let covered_values = document_from_wire(&value.canonical_covered_values)?;
    let partition_key = key_from_wire(&value.partition_key)?;
    Ok(StoredIndexEntryV2 { key, schema_binding, covered_values, partition_key })
}

/// Reading the message form of an index entry gives back what was written.
pub proof fn index_entry_round_trip(
    value: IndexEntryView,
    message: wire::StoredIndexEntryV2,
    read: Result<StoredIndexEntryV2, DurableCodecError>,
)
    requires
        index_entry_valid(value),
        index_entry_carries(message, value),
        index_entry_read(message, read),
    ensures
        read is Ok,
        read->Ok_0@ == value,
{
    if let Ok(held) = read {
        index_entry_form_is_exact(message, held@, value);
    }
}

/// Whether a message is the form of a legacy index entry.
pub open spec fn legacy_index_entry_carries(
    message: wire::StoredIndexEntryV1,
    value: LegacyIndexEntryView,
) -> bool {
    &&& key_carries(message.index_entry_key, value.key)
    &&& (message.schema_binding matches Some(part) && binding_carries(part, value.schema_binding))
    &&& document_carries(message.canonical_covered_values, value.covered_values)
}

/// The parts of a legacy index entry are valid.
pub open spec fn legacy_index_entry_valid(value: LegacyIndexEntryView) -> bool {
    &&& binding_valid(value.schema_binding)
}

/// A message is the form of at most one value.
pub proof fn legacy_index_entry_form_is_exact(
    message: wire::StoredIndexEntryV1,
    a: LegacyIndexEntryView,
    b: LegacyIndexEntryView,
)
    requires
        legacy_index_entry_carries(message, a),
        legacy_index_entry_carries(message, b),
    ensures
        a == b,
{
    binding_form_is_exact(message.schema_binding->Some_0, a.schema_binding, b.schema_binding);
}

/// The message form of a legacy index entry.
pub fn legacy_index_entry_to_proto(
    value: &StoredIndexEntryV1,
) -> (result: wire::StoredIndexEntryV1)
    ensures
        legacy_index_entry_carries(result, value@),
{
    wire::StoredIndexEntryV1 {
        index_entry_key: key_to_wire(&value.key),
        schema_binding: Some(binding_to_proto(&value.schema_binding)),
        canonical_covered_values: document_to_wire(&value.covered_values),
    }
}

/// What reading a message gives: the value that it is the form of, or a
/// corruption where it is the form of no valid one.
pub open spec fn legacy_index_entry_read(
    message: wire::StoredIndexEntryV1,
    result: Result<StoredIndexEntryV1, DurableCodecError>,
) -> bool {
    match result {
        Ok(held) => legacy_index_entry_carries(message, held@) && legacy_index_entry_valid(held@),
        Err(error) => is_corrupt(error) && forall|other: LegacyIndexEntryView| #[trigger]
            legacy_index_entry_carries(message, other) ==> !legacy_index_entry_valid(other),
    }
}

/// Reads a legacy index entry.
pub fn legacy_index_entry_from_proto(value: &wire::StoredIndexEntryV1) -> (result: Result<
    StoredIndexEntryV1,
    DurableCodecError,
>)
    ensures
        legacy_index_entry_read(*value, result),
{
    let key = key_from_wire(&value.index_entry_key)?;
    let schema_binding = binding_from_proto(require_ref(&value.schema_binding)?)?;
    let covered_values = document_from_wire(&value.canonical_covered_values)?;
    Ok(StoredIndexEntryV1 { key, schema_binding, covered_values })
}

/// Reading the message form of a legacy index entry gives back what was written.
pub proof fn legacy_index_entry_round_trip(
    value: LegacyIndexEntryView,
    message: wire::StoredIndexEntryV1,
    read: Result<StoredIndexEntryV1, DurableCodecError>,
)
    requires
        legacy_index_entry_valid(value),
        legacy_index_entry_carries(message, value),
        legacy_index_entry_read(message, read),
    ensures
        read is Ok,
        read->Ok_0@ == value,
{
    if let Ok(held) = read {
        legacy_index_entry_form_is_exact(message, held@, value);
    }
}

/// Whether a message is the form of the epoch of one partitioned index.
pub open spec fn index_epoch_carries(
    message: wire::StoredIndexGenerationV2,
    value: IndexEpochView,
) -> bool {
    &&& key_carries(message.partition_key, value.partition_key)
    &&& message.index_id == value.index_id.value
    &&& (message.schema_binding matches Some(part) && binding_carries(part, value.schema_binding))
    &&& message.generation == value.epoch.value
}

/// The parts of the epoch of one partitioned index are valid.
pub open spec fn index_epoch_valid(value: IndexEpochView) -> bool {
    &&& value.index_id.valid()
    &&& binding_valid(value.schema_binding)
    &&& value.epoch.valid()
}

/// A message is the form of at most one value.
pub proof fn index_epoch_form_is_exact(
    message: wire::StoredIndexGenerationV2,
    a: IndexEpochView,
    b: IndexEpochView,
)
    requires
        index_epoch_carries(message, a),
        index_epoch_carries(message, b),
    ensures
        a == b,
{
    binding_form_is_exact(message.schema_binding->Some_0, a.schema_binding, b.schema_binding);
}

/// The message form of the epoch of one partitioned index.
pub fn index_epoch_to_proto(value: &StoredIndexEpochV1) -> (result: wire::StoredIndexGenerationV2)
    ensures
        index_epoch_carries(result, value@),
{
    wire::StoredIndexGenerationV2 {
        partition_key: key_to_wire(&value.partition_key),
        index_id: value.index_id.get(),
        schema_binding: Some(binding_to_proto(&value.schema_binding)),
        generation: value.epoch.get(),
    }
}

/// What reading a message gives: the value that it is the form of, or a
/// corruption where it is the form of no valid one.
pub open spec fn index_epoch_read(
    message: wire::StoredIndexGenerationV2,
    result: Result<StoredIndexEpochV1, DurableCodecError>,
) -> bool {
    match result {
        Ok(held) => index_epoch_carries(message, held@) && index_epoch_valid(held@),
        Err(error) => is_corrupt(error) && forall|other: IndexEpochView| #[trigger]
            index_epoch_carries(message, other) ==> !index_epoch_valid(other),
    }
}

/// Reads the epoch of one partitioned index.
pub fn index_epoch_from_proto(value: &wire::StoredIndexGenerationV2) -> (result: Result<
    StoredIndexEpochV1,
    DurableCodecError,
>)
    ensures
        index_epoch_read(*value, result),
{
    let partition_key = key_from_wire(&value.partition_key)?;
    let index_id = require(Id32::new(value.index_id))?;
    let schema_binding = binding_from_proto(require_ref(&value.schema_binding)?)?;
    let epoch = require(Id64::new(value.generation))?;
    Ok(StoredIndexEpochV1 { partition_key, index_id, schema_binding, epoch })
}

/// Reading the message form of the epoch of one partitioned index gives back what was written.
pub proof fn index_epoch_round_trip(
    value: IndexEpochView,
    message: wire::StoredIndexGenerationV2,
    read: Result<StoredIndexEpochV1, DurableCodecError>,
)
    requires
        index_epoch_valid(value),
        index_epoch_carries(message, value),
        index_epoch_read(message, read),
    ensures
        read is Ok,
        read->Ok_0@ == value,
{
    if let Ok(held) = read {
        index_epoch_form_is_exact(message, held@, value);
    }
}

/// Whether a message is the form of the epoch of one historical index range prefix.
pub open spec fn legacy_index_epoch_carries(
    message: wire::StoredIndexEpochV1,
    value: LegacyIndexEpochView,
) -> bool {
    &&& range_prefix_carries(message.canonical_index_range_prefix, value.target)
    &&& (message.schema_binding matches Some(part) && binding_carries(part, value.schema_binding))
    &&& message.epoch == value.epoch.value
}

/// The parts of the epoch of one historical index range prefix are valid.
pub open spec fn legacy_index_epoch_valid(value: LegacyIndexEpochView) -> bool {
    &&& range_prefix_valid(value.target)
    &&& binding_valid(value.schema_binding)
    &&& value.epoch.valid()
}

/// A message is the form of at most one value.
pub proof fn legacy_index_epoch_form_is_exact(
    message: wire::StoredIndexEpochV1,
    a: LegacyIndexEpochView,
    b: LegacyIndexEpochView,
)
    requires
        legacy_index_epoch_carries(message, a),
        legacy_index_epoch_carries(message, b),
        legacy_index_epoch_valid(a),
        legacy_index_epoch_valid(b),
    ensures
        a == b,
{
    range_prefix_form_is_exact(message.canonical_index_range_prefix, a.target, b.target);
    binding_form_is_exact(message.schema_binding->Some_0, a.schema_binding, b.schema_binding);
}

/// The message form of the epoch of one historical index range prefix.
pub fn legacy_index_epoch_to_proto(
    value: &LegacyStoredIndexEpochV1,
) -> (result: wire::StoredIndexEpochV1)
    ensures
        legacy_index_epoch_carries(result, value@),
{
    wire::StoredIndexEpochV1 {
        canonical_index_range_prefix: range_prefix_to_proto(&value.target),
        schema_binding: Some(binding_to_proto(&value.schema_binding)),
        epoch: value.epoch.get(),
    }
}

/// What reading a message gives: the value that it is the form of, or a
/// corruption where it is the form of no valid one.
pub open spec fn legacy_index_epoch_read(
    message: wire::StoredIndexEpochV1,
    result: Result<LegacyStoredIndexEpochV1, DurableCodecError>,
) -> bool {
    match result {
        Ok(held) => legacy_index_epoch_carries(message, held@) && legacy_index_epoch_valid(held@),
        Err(error) => is_corrupt(error) && forall|other: LegacyIndexEpochView| #[trigger]
            legacy_index_epoch_carries(message, other) ==> !legacy_index_epoch_valid(other),
    }
}

/// Reads the epoch of one historical index range prefix.
pub fn legacy_index_epoch_from_proto(value: &wire::StoredIndexEpochV1) -> (result: Result<
    LegacyStoredIndexEpochV1,
    DurableCodecError,
>)
    ensures
        legacy_index_epoch_read(*value, result),
{
    let target = range_prefix_from_proto(&value.canonical_index_range_prefix)?;
    let schema_binding = binding_from_proto(require_ref(&value.schema_binding)?)?;
    let epoch = require(Id64::new(value.epoch))?;
    Ok(LegacyStoredIndexEpochV1 { target, schema_binding, epoch })
}

/// Reading the message form of the epoch of one historical index range prefix gives back
/// what was written.
pub proof fn legacy_index_epoch_round_trip(
    value: LegacyIndexEpochView,
    message: wire::StoredIndexEpochV1,
    read: Result<LegacyStoredIndexEpochV1, DurableCodecError>,
)
    requires
        legacy_index_epoch_valid(value),
        legacy_index_epoch_carries(message, value),
        legacy_index_epoch_read(message, read),
    ensures
        read is Ok,
        read->Ok_0@ == value,
{
    if let Ok(held) = read {
        legacy_index_epoch_form_is_exact(message, held@, value);
    }
}

/// Whether a message is the form of what caused a command.
pub open spec fn causation_carries(
    message: wire::StoredCommandCausationV1,
    value: StoredCommandCausationV1,
) -> bool {
    &&& (message.causing_event_id matches Some(part) && event_id_carries(
        part,
        value.causing_event_id,
    ))
    &&& identifier_carries(message.root_request_id, value.root_request_id)
}

/// The parts of what caused a command are valid.
pub open spec fn causation_valid(value: StoredCommandCausationV1) -> bool {
    &&& event_id_valid(value.causing_event_id)
}

/// A message is the form of at most one value.
pub proof fn causation_form_is_exact(
    message: wire::StoredCommandCausationV1,
    a: StoredCommandCausationV1,
    b: StoredCommandCausationV1,
)
    requires
        causation_carries(message, a),
        causation_carries(message, b),
    ensures
        a == b,
{
    event_id_form_is_exact(
        message.causing_event_id->Some_0,
        a.causing_event_id,
        b.causing_event_id,
    );
    assert(a.root_request_id.bytes =~= b.root_request_id.bytes);
}

/// The message form of what caused a command.
pub fn causation_to_proto(
    value: StoredCommandCausationV1,
) -> (result: wire::StoredCommandCausationV1)
    ensures
        causation_carries(result, value),
{
    wire::StoredCommandCausationV1 {
        causing_event_id: Some(event_id_to_proto(value.causing_event_id)),
        root_request_id: identifier_to_wire(value.root_request_id),
    }
}

/// Reads what caused a command.
pub fn causation_from_proto(value: &wire::StoredCommandCausationV1) -> (result: Result<
    StoredCommandCausationV1,
    DurableCodecError,
>)
    ensures
        match result {
            Ok(held) => causation_carries(*value, held) && causation_valid(held),
            Err(error) => is_corrupt(error) && forall|other: StoredCommandCausationV1| #[trigger]
                causation_carries(*value, other) ==> !causation_valid(other),
        },
{
    let causing_event_id = event_id_from_proto(require_ref(&value.causing_event_id)?)?;
    let root_request_id = identifier_from_wire(&value.root_request_id)?;
    Ok(StoredCommandCausationV1 { causing_event_id, root_request_id })
}

/// Whether an optional message is the form of an optional value.
pub open spec fn optional_causation_carries(
    message: Option<wire::StoredCommandCausationV1>,
    value: Option<StoredCommandCausationV1>,
) -> bool {
    match (message, value) {
        (Some(form), Some(part)) => causation_carries(form, part),
        (None, None) => true,
        _ => false,
    }
}

/// The optional message form of an optional value.
pub fn optional_causation_to_proto(value: &Option<StoredCommandCausationV1>) -> (result: Option<
    wire::StoredCommandCausationV1,
>)
    ensures
        optional_causation_carries(result, *value),
{
    match value {
        Some(part) => Some(causation_to_proto(*part)),
        None => None,
    }
}

/// Reads an optional value from its optional message form.
pub fn optional_causation_from_proto(
    value: &Option<wire::StoredCommandCausationV1>,
) -> (result: Result<
    Option<StoredCommandCausationV1>,
    DurableCodecError,
>)
    ensures
        match result {
            Ok(held) => optional_causation_carries(*value, held) && (held matches Some(part)
                ==> causation_valid(part)),
            Err(error) =>
                is_corrupt(error) && forall|other: Option<StoredCommandCausationV1>| #[trigger]
                optional_causation_carries(*value, other)
                    ==> !(other matches Some(part) ==> causation_valid(
                    part,
                )),
        },
{
    match value {
        Some(form) => {
            let part = causation_from_proto(form)?;
            Ok(Some(part))
        },
        None => Ok(None),
    }
}

/// Whether a message is the form of a pending admission apart from its causation.
pub open spec fn pending_carries(
    message: wire::StoredPendingAdmissionV1,
    value: PendingAdmissionBaseView,
) -> bool {
    &&& (message.identity matches Some(part) && identity_carries(part, value.identity))
    &&& message.canonical_input_hash@ == value.canonical_input_hash.bytes@
    &&& identifier_carries(message.admission_request_id, value.admission_request_id)
    &&& (message.plan matches Some(part) && plan_carries(part, value.plan))
    &&& (message.logical_time matches Some(part) && timestamp_carries(part, value.logical_time))
    &&& (message.actor matches Some(part) && actor_carries(part, value.actor))
    &&& key_carries(message.partition_key, value.partition_key)
    &&& (message.provenance_claims matches Some(part) && claims_carries(
        part,
        value.provenance_claims,
    ))
}

/// The parts of a pending admission apart from its causation are valid.
pub open spec fn pending_valid(value: PendingAdmissionBaseView) -> bool {
    &&& identity_valid(value.identity)
    &&& plan_valid(value.plan)
    &&& timestamp_valid(value.logical_time)
}

/// A message is the form of at most one value.
pub proof fn pending_form_is_exact(
    message: wire::StoredPendingAdmissionV1,
    a: PendingAdmissionBaseView,
    b: PendingAdmissionBaseView,
)
    requires
        pending_carries(message, a),
        pending_carries(message, b),
    ensures
        a == b,
{
    identity_form_is_exact(message.identity->Some_0, a.identity, b.identity);
    assert(a.canonical_input_hash.bytes =~= b.canonical_input_hash.bytes);
    assert(a.admission_request_id.bytes =~= b.admission_request_id.bytes);
    plan_form_is_exact(message.plan->Some_0, a.plan, b.plan);
    timestamp_form_is_exact(message.logical_time->Some_0, a.logical_time, b.logical_time);
    actor_form_is_exact(message.actor->Some_0, a.actor, b.actor);
    claims_form_is_exact(
        message.provenance_claims->Some_0,
        a.provenance_claims,
        b.provenance_claims,
    );
}

/// The message form of a pending admission apart from its causation.
pub fn pending_to_proto(value: &PendingAdmissionBase) -> (result: wire::StoredPendingAdmissionV1)
    ensures
        pending_carries(result, value@),
{
    wire::StoredPendingAdmissionV1 {
        identity: Some(identity_to_proto(&value.identity)),
        canonical_input_hash: copy_bytes(value.canonical_input_hash.bytes.as_slice()),
        admission_request_id: identifier_to_wire(value.admission_request_id),
        plan: Some(plan_to_proto(&value.plan)),
        logical_time: Some(timestamp_to_proto(value.logical_time)),
        actor: Some(actor_to_proto(&value.actor)),
        partition_key: key_to_wire(&value.partition_key),
        provenance_claims: Some(claims_to_proto(&value.provenance_claims)),
    }
}

/// What reading a message gives: the value that it is the form of, or a
/// corruption where it is the form of no valid one.
pub open spec fn pending_read(
    message: wire::StoredPendingAdmissionV1,
    result: Result<PendingAdmissionBase, DurableCodecError>,
) -> bool {
    match result {
        Ok(held) => pending_carries(message, held@) && pending_valid(held@),
        Err(error) => is_corrupt(error) && forall|other: PendingAdmissionBaseView| #[trigger]
            pending_carries(message, other) ==> !pending_valid(other),
    }
}

/// Reads a pending admission apart from its causation.
pub fn pending_from_proto(value: &wire::StoredPendingAdmissionV1) -> (result: Result<
    PendingAdmissionBase,
    DurableCodecError,
>)
    ensures
        pending_read(*value, result),
{
    let identity = identity_from_proto(require_ref(&value.identity)?)?;
    let canonical_input_hash = digest_from_wire(&value.canonical_input_hash)?;
    let admission_request_id = identifier_from_wire(&value.admission_request_id)?;
    let plan = plan_from_proto(require_ref(&value.plan)?)?;
    let logical_time = timestamp_from_proto(require_ref(&value.logical_time)?)?;
    let actor = actor_from_proto(require_ref(&value.actor)?)?;
    let partition_key = key_from_wire(&value.partition_key)?;
    let provenance_claims = claims_from_proto(require_ref(&value.provenance_claims)?)?;
    Ok(
        PendingAdmissionBase {
            identity,
            canonical_input_hash,
            admission_request_id,
            plan,
            logical_time,
            actor,
            partition_key,
            provenance_claims,
        },
    )
}

/// Reading the message form of a pending admission apart from its causation gives back what
/// was written.
pub proof fn pending_round_trip(
    value: PendingAdmissionBaseView,
    message: wire::StoredPendingAdmissionV1,
    read: Result<PendingAdmissionBase, DurableCodecError>,
)
    requires
        pending_valid(value),
        pending_carries(message, value),
        pending_read(message, read),
    ensures
        read is Ok,
        read->Ok_0@ == value,
{
    if let Ok(held) = read {
        pending_form_is_exact(message, held@, value);
    }
}

/// Whether a message is the form of a pending command admission.
pub open spec fn pending_v2_carries(
    message: wire::StoredPendingAdmissionV2,
    value: PendingAdmissionView,
) -> bool {
    &&& (message.base matches Some(part) && pending_carries(part, value.base))
    &&& optional_causation_carries(message.causation, value.causation)
}

/// The parts of a pending command admission are valid.
pub open spec fn pending_v2_valid(value: PendingAdmissionView) -> bool {
    &&& pending_valid(value.base)
    &&& (value.causation matches Some(part) ==> causation_valid(part))
}

/// A message is the form of at most one value.
pub proof fn pending_v2_form_is_exact(
    message: wire::StoredPendingAdmissionV2,
    a: PendingAdmissionView,
    b: PendingAdmissionView,
)
    requires
        pending_v2_carries(message, a),
        pending_v2_carries(message, b),
    ensures
        a == b,
{
    pending_form_is_exact(message.base->Some_0, a.base, b.base);
    if a.causation is Some {
        causation_form_is_exact(
            message.causation->Some_0,
            a.causation->Some_0,
            b.causation->Some_0,
        );
    }
}

/// The message form of a pending command admission.
pub fn pending_v2_to_proto(
    value: &StoredPendingAdmissionV1,
) -> (result: wire::StoredPendingAdmissionV2)
    ensures
        pending_v2_carries(result, value@),
{
    wire::StoredPendingAdmissionV2 {
        base: Some(pending_to_proto(&value.base)),
        causation: optional_causation_to_proto(&value.causation),
    }
}

/// What reading a message gives: the value that it is the form of, or a
/// corruption where it is the form of no valid one.
pub open spec fn pending_v2_read(
    message: wire::StoredPendingAdmissionV2,
    result: Result<StoredPendingAdmissionV1, DurableCodecError>,
) -> bool {
    match result {
        Ok(held) => pending_v2_carries(message, held@) && pending_v2_valid(held@),
        Err(error) => is_corrupt(error) && forall|other: PendingAdmissionView| #[trigger]
            pending_v2_carries(message, other) ==> !pending_v2_valid(other),
    }
}

/// Reads a pending command admission.
pub fn pending_v2_from_proto(value: &wire::StoredPendingAdmissionV2) -> (result: Result<
    StoredPendingAdmissionV1,
    DurableCodecError,
>)
    ensures
        pending_v2_read(*value, result),
{
    let base = pending_from_proto(require_ref(&value.base)?)?;
    let causation = optional_causation_from_proto(&value.causation)?;
    Ok(StoredPendingAdmissionV1 { base, causation })
}

/// Reading the message form of a pending command admission gives back what was written.
pub proof fn pending_v2_round_trip(
    value: PendingAdmissionView,
    message: wire::StoredPendingAdmissionV2,
    read: Result<StoredPendingAdmissionV1, DurableCodecError>,
)
    requires
        pending_v2_valid(value),
        pending_v2_carries(message, value),
        pending_v2_read(message, read),
    ensures
        read is Ok,
        read->Ok_0@ == value,
{
    if let Ok(held) = read {
        pending_v2_form_is_exact(message, held@, value);
    }
}

/// Whether a message is the form of a terminal deterministic execution failure.
pub open spec fn execution_failed_carries(
    message: wire::StoredExecutionFailedV2,
    value: ExecutionFailedView,
) -> bool {
    &&& (message.pending matches Some(part) && pending_v2_carries(part, value.pending))
    &&& execution_code_carries(message.code, value.code)
}

/// The parts of a terminal deterministic execution failure are valid.
pub open spec fn execution_failed_valid(value: ExecutionFailedView) -> bool {
    &&& pending_v2_valid(value.pending)
}

/// A message is the form of at most one value.
pub proof fn execution_failed_form_is_exact(
    message: wire::StoredExecutionFailedV2,
    a: ExecutionFailedView,
    b: ExecutionFailedView,
)
    requires
        execution_failed_carries(message, a),
        execution_failed_carries(message, b),
    ensures
        a == b,
{
    pending_v2_form_is_exact(message.pending->Some_0, a.pending, b.pending);
}

/// The message form of a terminal deterministic execution failure.
pub fn execution_failed_to_proto(
    value: &StoredExecutionFailedV1,
) -> (result: wire::StoredExecutionFailedV2)
    ensures
        execution_failed_carries(result, value@),
{
    wire::StoredExecutionFailedV2 {
        pending: Some(pending_v2_to_proto(&value.pending)),
        code: execution_code_to_proto(value.code),
    }
}

/// What reading a message gives: the value that it is the form of, or a
/// corruption where it is the form of no valid one.
pub open spec fn execution_failed_read(
    message: wire::StoredExecutionFailedV2,
    result: Result<StoredExecutionFailedV1, DurableCodecError>,
) -> bool {
    match result {
        Ok(held) => execution_failed_carries(message, held@) && execution_failed_valid(held@),
        Err(error) => is_corrupt(error) && forall|other: ExecutionFailedView| #[trigger]
            execution_failed_carries(message, other) ==> !execution_failed_valid(other),
    }
}

/// Reads a terminal deterministic execution failure.
pub fn execution_failed_from_proto(value: &wire::StoredExecutionFailedV2) -> (result: Result<
    StoredExecutionFailedV1,
    DurableCodecError,
>)
    ensures
        execution_failed_read(*value, result),
{
    let pending = pending_v2_from_proto(require_ref(&value.pending)?)?;
    let code = execution_code_from_proto(value.code)?;
    Ok(StoredExecutionFailedV1 { pending, code })
}

/// Reading the message form of a terminal deterministic execution failure gives back what
/// was written.
pub proof fn execution_failed_round_trip(
    value: ExecutionFailedView,
    message: wire::StoredExecutionFailedV2,
    read: Result<StoredExecutionFailedV1, DurableCodecError>,
)
    requires
        execution_failed_valid(value),
        execution_failed_carries(message, value),
        execution_failed_read(message, read),
    ensures
        read is Ok,
        read->Ok_0@ == value,
{
    if let Ok(held) = read {
        execution_failed_form_is_exact(message, held@, value);
    }
}

/// Whether a message is the form of a terminal execution failure apart from its causation.
pub open spec fn execution_failed_legacy_carries(
    message: wire::StoredExecutionFailedV1,
    value: ExecutionFailedBaseView,
) -> bool {
    &&& (message.pending matches Some(part) && pending_carries(part, value.pending))
    &&& execution_code_carries(message.code, value.code)
}

/// The parts of a terminal execution failure apart from its causation are valid.
pub open spec fn execution_failed_legacy_valid(value: ExecutionFailedBaseView) -> bool {
    &&& pending_valid(value.pending)
}

/// A message is the form of at most one value.
pub proof fn execution_failed_legacy_form_is_exact(
    message: wire::StoredExecutionFailedV1,
    a: ExecutionFailedBaseView,
    b: ExecutionFailedBaseView,
)
    requires
        execution_failed_legacy_carries(message, a),
        execution_failed_legacy_carries(message, b),
    ensures
        a == b,
{
    pending_form_is_exact(message.pending->Some_0, a.pending, b.pending);
}

/// The message form of a terminal execution failure apart from its causation.
pub fn execution_failed_legacy_to_proto(
    value: &ExecutionFailedBase,
) -> (result: wire::StoredExecutionFailedV1)
    ensures
        execution_failed_legacy_carries(result, value@),
{
    wire::StoredExecutionFailedV1 {
        pending: Some(pending_to_proto(&value.pending)),
        code: execution_code_to_proto(value.code),
    }
}

/// What reading a message gives: the value that it is the form of, or a
/// corruption where it is the form of no valid one.
pub open spec fn execution_failed_legacy_read(
    message: wire::StoredExecutionFailedV1,
    result: Result<ExecutionFailedBase, DurableCodecError>,
) -> bool {
    match result {
        Ok(held) =>
            execution_failed_legacy_carries(message, held@) && execution_failed_legacy_valid(held@),
        Err(error) => is_corrupt(error) && forall|other: ExecutionFailedBaseView| #[trigger]
            execution_failed_legacy_carries(message, other)
                ==> !execution_failed_legacy_valid(other),
    }
}

/// Reads a terminal execution failure apart from its causation.
pub fn execution_failed_legacy_from_proto(value: &wire::StoredExecutionFailedV1) -> (result: Result<
    ExecutionFailedBase,
    DurableCodecError,
>)
    ensures
        execution_failed_legacy_read(*value, result),
{
    let pending = pending_from_proto(require_ref(&value.pending)?)?;
    let code = execution_code_from_proto(value.code)?;
    Ok(ExecutionFailedBase { pending, code })
}

/// Reading the message form of a terminal execution failure apart from its causation gives
/// back what was written.
pub proof fn execution_failed_legacy_round_trip(
    value: ExecutionFailedBaseView,
    message: wire::StoredExecutionFailedV1,
    read: Result<ExecutionFailedBase, DurableCodecError>,
)
    requires
        execution_failed_legacy_valid(value),
        execution_failed_legacy_carries(message, value),
        execution_failed_legacy_read(message, read),
    ensures
        read is Ok,
        read->Ok_0@ == value,
{
    if let Ok(held) = read {
        execution_failed_legacy_form_is_exact(message, held@, value);
    }
}

/// Whether a message is the form of a durable event.
pub open spec fn event_carries(
    message: wire::StoredDurableEventV1,
    value: DurableEventView,
) -> bool {
    &&& (message.event_id matches Some(part) && event_id_carries(part, value.event_id))
    &&& message.event_type_id == value.event_type_id.value
    &&& document_carries(message.canonical_payload, value.payload)
    &&& message.event_hash@ == value.event_hash.bytes@
}

/// The parts of a durable event are valid.
pub open spec fn event_valid(value: DurableEventView) -> bool {
    &&& event_id_valid(value.event_id)
    &&& value.event_type_id.valid()
}

/// A message is the form of at most one value.
pub proof fn event_form_is_exact(
    message: wire::StoredDurableEventV1,
    a: DurableEventView,
    b: DurableEventView,
)
    requires
        event_carries(message, a),
        event_carries(message, b),
    ensures
        a == b,
{
    event_id_form_is_exact(message.event_id->Some_0, a.event_id, b.event_id);
    assert(a.event_hash.bytes =~= b.event_hash.bytes);
}

/// The message form of a durable event.
pub fn event_to_proto(value: &StoredDurableEventV1) -> (result: wire::StoredDurableEventV1)
    ensures
        event_carries(result, value@),
{
    wire::StoredDurableEventV1 {
        event_id: Some(event_id_to_proto(value.event_id)),
        event_type_id: value.event_type_id.get(),
        canonical_payload: document_to_wire(&value.payload),
        event_hash: copy_bytes(value.event_hash.bytes.as_slice()),
    }
}

/// What reading a message gives: the value that it is the form of, or a
/// corruption where it is the form of no valid one.
pub open spec fn event_read(
    message: wire::StoredDurableEventV1,
    result: Result<StoredDurableEventV1, DurableCodecError>,
) -> bool {
    match result {
        Ok(held) => event_carries(message, held@) && event_valid(held@),
        Err(error) => is_corrupt(error) && forall|other: DurableEventView| #[trigger]
            event_carries(message, other) ==> !event_valid(other),
    }
}

/// Reads a durable event.
pub fn event_from_proto(value: &wire::StoredDurableEventV1) -> (result: Result<
    StoredDurableEventV1,
    DurableCodecError,
>)
    ensures
        event_read(*value, result),
{
    let event_id = event_id_from_proto(require_ref(&value.event_id)?)?;
    let event_type_id = require(Id32::new(value.event_type_id))?;
    let payload = document_from_wire(&value.canonical_payload)?;
    let event_hash = digest_from_wire(&value.event_hash)?;
    Ok(StoredDurableEventV1 { event_id, event_type_id, payload, event_hash })
}

/// Reading the message form of a durable event gives back what was written.
pub proof fn event_round_trip(
    value: DurableEventView,
    message: wire::StoredDurableEventV1,
    read: Result<StoredDurableEventV1, DurableCodecError>,
)
    requires
        event_valid(value),
        event_carries(message, value),
        event_read(message, read),
    ensures
        read is Ok,
        read->Ok_0@ == value,
{
    if let Ok(held) = read {
        event_form_is_exact(message, held@, value);
    }
}

/// Whether messages are the forms of values, one by one.
pub open spec fn event_list_carries(
    messages: Seq<wire::StoredDurableEventV1>,
    values: Seq<DurableEventView>,
) -> bool {
    &&& messages.len() == values.len()
    &&& forall|i: int|
        0 <= i < messages.len() ==> event_carries(#[trigger] messages[i], values[i])
}

/// All values are valid.
pub open spec fn event_list_valid(values: Seq<DurableEventView>) -> bool {
    forall|i: int| 0 <= i < values.len() ==> event_valid(#[trigger] values[i])
}

/// Messages are the forms of at most one list of values.
pub proof fn event_list_form_is_exact(
    messages: Seq<wire::StoredDurableEventV1>,
    a: Seq<DurableEventView>,
    b: Seq<DurableEventView>,
)
    requires
        event_list_carries(messages, a),
        event_list_carries(messages, b),
    ensures
        a == b,
{
    assert forall|i: int| 0 <= i < a.len() implies a[i] == b[i] by {
        assert(event_carries(messages[i], a[i]) && event_carries(messages[i], b[i]));
        event_form_is_exact(messages[i], a[i], b[i]);
    }
    assert(a =~= b);
}

/// The message forms of values.
pub fn event_list_to_proto(
    values: &[StoredDurableEventV1],
) -> (result: Vec<wire::StoredDurableEventV1>)
    ensures
        event_list_carries(result@, event_views(values@)),
{
    let mut result: Vec<wire::StoredDurableEventV1> = Vec::new();
    let mut i: usize = 0;
    while i < values.len()
        invariant
            i <= values@.len(),
            result@.len() == i,
            forall|k: int| 0 <= k < i ==> event_carries(#[trigger] result@[k], values@[k]@),
        decreases values@.len() - i,
    {
        result.push(event_to_proto(&values[i]));
        i += 1;
    }
    result
}

/// Reads values from their message forms.
pub fn event_list_from_proto(values: &[wire::StoredDurableEventV1]) -> (result: Result<
    Vec<StoredDurableEventV1>,
    DurableCodecError,
>)
    ensures
        match result {
            Ok(held) => event_list_carries(
                values@,
                event_views(held@),
            ) && event_list_valid(event_views(held@)),
            Err(error) => is_corrupt(error) && forall|other: Seq<DurableEventView>| #[trigger]
                event_list_carries(values@, other) ==> !event_list_valid(other),
        },
{
    let mut result: Vec<StoredDurableEventV1> = Vec::new();
    let mut i: usize = 0;
    while i < values.len()
        invariant
            i <= values@.len(),
            result@.len() == i,
            forall|k: int|
                0 <= k < i ==> event_carries(values@[k], #[trigger] result@[k]@)
                    && event_valid(result@[k]@),
        decreases values@.len() - i,
    {
        match event_from_proto(&values[i]) {
            Ok(held) => {
                result.push(held);
            },
            Err(error) => {
                assert forall|other: Seq<DurableEventView>| #[trigger]
                    event_list_carries(values@, other) implies !event_list_valid(other) by {
                    assert(event_carries(values@[i as int], other[i as int]));
                    assert(!event_valid(other[i as int]));
                }
                return Err(error);
            },
        }
        i += 1;
    }
    Ok(result)
}

/// Whether a message is the form of a payload-free partition event route.
pub open spec fn event_route_carries(
    message: wire::StoredEventRouteV1,
    value: StoredEventRouteV1,
) -> bool {
    &&& (message.event_id matches Some(part) && event_id_carries(part, value.event_id))
    &&& message.event_type_id == value.event_type_id.value
    &&& message.event_hash@ == value.event_hash.bytes@
}

/// The parts of a payload-free partition event route are valid.
pub open spec fn event_route_valid(value: StoredEventRouteV1) -> bool {
    &&& event_id_valid(value.event_id)
    &&& value.event_type_id.valid()
}

/// A message is the form of at most one value.
pub proof fn event_route_form_is_exact(
    message: wire::StoredEventRouteV1,
    a: StoredEventRouteV1,
    b: StoredEventRouteV1,
)
    requires
        event_route_carries(message, a),
        event_route_carries(message, b),
    ensures
        a == b,
{
    event_id_form_is_exact(message.event_id->Some_0, a.event_id, b.event_id);
    assert(a.event_hash.bytes =~= b.event_hash.bytes);
}

/// The message form of a payload-free partition event route.
pub fn event_route_to_proto(value: StoredEventRouteV1) -> (result: wire::StoredEventRouteV1)
    ensures
        event_route_carries(result, value),
{
    wire::StoredEventRouteV1 {
        event_id: Some(event_id_to_proto(value.event_id)),
        event_type_id: value.event_type_id.get(),
        event_hash: copy_bytes(value.event_hash.bytes.as_slice()),
    }
}

/// What reading a message gives: the value that it is the form of, or a
/// corruption where it is the form of no valid one.
pub open spec fn event_route_read(
    message: wire::StoredEventRouteV1,
    result: Result<StoredEventRouteV1, DurableCodecError>,
) -> bool {
    match result {
        Ok(held) => event_route_carries(message, held) && event_route_valid(held),
        Err(error) => is_corrupt(error) && forall|other: StoredEventRouteV1| #[trigger]
            event_route_carries(message, other) ==> !event_route_valid(other),
    }
}

/// Reads a payload-free partition event route.
pub fn event_route_from_proto(value: &wire::StoredEventRouteV1) -> (result: Result<
    StoredEventRouteV1,
    DurableCodecError,
>)
    ensures
        event_route_read(*value, result),
{
    let event_id = event_id_from_proto(require_ref(&value.event_id)?)?;
    let event_type_id = require(Id32::new(value.event_type_id))?;
    let event_hash = digest_from_wire(&value.event_hash)?;
    Ok(StoredEventRouteV1 { event_id, event_type_id, event_hash })
}

/// Reading the message form of a payload-free partition event route gives back what was written.
pub proof fn event_route_round_trip(
    value: StoredEventRouteV1,
    message: wire::StoredEventRouteV1,
    read: Result<StoredEventRouteV1, DurableCodecError>,
)
    requires
        event_route_valid(value),
        event_route_carries(message, value),
        event_route_read(message, read),
    ensures
        read is Ok,
        read->Ok_0 == value,
{
    if let Ok(held) = read {
        event_route_form_is_exact(message, held, value);
    }
}

/// Whether a message is the form of a dependency on one observed entity.
pub open spec fn entity_dependency_carries(
    message: wire::EntityReadDependencyV1,
    value: EntityReadDependencyView,
) -> bool {
    &&& (message.target matches Some(part) && entity_target_carries(part, value.target))
    &&& (message.expected matches Some(part) && expected_carries(part, value.expected))
}

/// The parts of a dependency on one observed entity are valid.
pub open spec fn entity_dependency_valid(value: EntityReadDependencyView) -> bool {
    &&& entity_target_valid(value.target)
    &&& expected_valid(value.expected)
}

/// A message is the form of at most one value.
pub proof fn entity_dependency_form_is_exact(
    message: wire::EntityReadDependencyV1,
    a: EntityReadDependencyView,
    b: EntityReadDependencyView,
)
    requires
        entity_dependency_carries(message, a),
        entity_dependency_carries(message, b),
    ensures
        a == b,
{
    entity_target_form_is_exact(message.target->Some_0, a.target, b.target);
    expected_form_is_exact(message.expected->Some_0, a.expected, b.expected);
}

/// The message form of a dependency on one observed entity.
pub fn entity_dependency_to_proto(
    value: &EntityReadDependency,
) -> (result: wire::EntityReadDependencyV1)
    ensures
        entity_dependency_carries(result, value@),
{
    wire::EntityReadDependencyV1 {
        target: Some(entity_target_to_proto(&value.target)),
        expected: Some(expected_to_proto(value.expected)),
    }
}

/// Reads a dependency on one observed entity.
pub fn entity_dependency_from_proto(value: &wire::EntityReadDependencyV1) -> (result: Result<
    EntityReadDependency,
    DurableCodecError,
>)
    ensures
        match result {
            Ok(held) => entity_dependency_carries(*value, held@) && entity_dependency_valid(held@),
            Err(error) => is_corrupt(error) && forall|other: EntityReadDependencyView| #[trigger]
                entity_dependency_carries(*value, other) ==> !entity_dependency_valid(other),
        },
{
    let target = entity_target_from_proto(require_ref(&value.target)?)?;
    let expected = expected_from_proto(require_ref(&value.expected)?)?;
    Ok(EntityReadDependency { target, expected })
}

/// Whether a message is the form of a dependency on one index range epoch.
pub open spec fn range_dependency_carries(
    message: wire::IndexRangeReadDependencyV1,
    value: IndexRangeReadDependencyView,
) -> bool {
    &&& range_prefix_carries(message.canonical_index_range_prefix, value.target)
    &&& (message.expected matches Some(part) && epoch_carries(part, value.expected))
}

/// The parts of a dependency on one index range epoch are valid.
pub open spec fn range_dependency_valid(value: IndexRangeReadDependencyView) -> bool {
    &&& range_prefix_valid(value.target)
    &&& epoch_valid(value.expected)
}

/// A message is the form of at most one value.
pub proof fn range_dependency_form_is_exact(
    message: wire::IndexRangeReadDependencyV1,
    a: IndexRangeReadDependencyView,
    b: IndexRangeReadDependencyView,
)
    requires
        range_dependency_carries(message, a),
        range_dependency_carries(message, b),
        range_dependency_valid(a),
        range_dependency_valid(b),
    ensures
        a == b,
{
    range_prefix_form_is_exact(message.canonical_index_range_prefix, a.target, b.target);
    epoch_form_is_exact(message.expected->Some_0, a.expected, b.expected);
}

/// The message form of a dependency on one index range epoch.
pub fn range_dependency_to_proto(
    value: &IndexRangeReadDependency,
) -> (result: wire::IndexRangeReadDependencyV1)
    ensures
        range_dependency_carries(result, value@),
{
    wire::IndexRangeReadDependencyV1 {
        canonical_index_range_prefix: range_prefix_to_proto(&value.target),
        expected: Some(epoch_to_proto(value.expected)),
    }
}

/// Reads a dependency on one index range epoch.
pub fn range_dependency_from_proto(value: &wire::IndexRangeReadDependencyV1) -> (result: Result<
    IndexRangeReadDependency,
    DurableCodecError,
>)
    ensures
        match result {
            Ok(held) => range_dependency_carries(*value, held@) && range_dependency_valid(held@),
            Err(error) =>
                is_corrupt(error) && forall|other: IndexRangeReadDependencyView| #[trigger]
                range_dependency_carries(*value, other) ==> !range_dependency_valid(other),
        },
{
    let target = range_prefix_from_proto(&value.canonical_index_range_prefix)?;
    let expected = epoch_from_proto(require_ref(&value.expected)?)?;
    Ok(IndexRangeReadDependency { target, expected })
}

/// Whether a message is the form of a read dependency of a commit.
pub open spec fn dependency_carries(
    message: wire::StoredReadDependencyV1,
    value: ReadDependencyView,
) -> bool {
    match value {
        ReadDependencyView::EntityObservation(part) => message.dependency matches Some(
            wire::StoredReadDependencyV1Dependency::EntityObservation(form),
        ) && entity_dependency_carries(form, part),
        ReadDependencyView::IndexRangeEpoch(part) => message.dependency matches Some(
            wire::StoredReadDependencyV1Dependency::IndexRangeEpoch(form),
        ) && range_dependency_carries(form, part),
    }
}

/// The parts of a read dependency of a commit are valid.
pub open spec fn dependency_valid(value: ReadDependencyView) -> bool {
    match value {
        ReadDependencyView::EntityObservation(part) => entity_dependency_valid(part),
        ReadDependencyView::IndexRangeEpoch(part) => range_dependency_valid(part),
    }
}

/// A message is the form of at most one value.
pub proof fn dependency_form_is_exact(
    message: wire::StoredReadDependencyV1,
    a: ReadDependencyView,
    b: ReadDependencyView,
)
    requires
        dependency_carries(message, a),
        dependency_carries(message, b),
        dependency_valid(a),
        dependency_valid(b),
    ensures
        a == b,
{
    match (a, b) {
        (ReadDependencyView::EntityObservation(part),
            ReadDependencyView::EntityObservation(other)) => {
            if let Some(
                wire::StoredReadDependencyV1Dependency::EntityObservation(form),
            ) = message.dependency {
                entity_dependency_form_is_exact(form, part, other);
            }
        },
        (ReadDependencyView::IndexRangeEpoch(part), ReadDependencyView::IndexRangeEpoch(other)) => {
            if let Some(
                wire::StoredReadDependencyV1Dependency::IndexRangeEpoch(form),
            ) = message.dependency {
                range_dependency_form_is_exact(form, part, other);
            }
        },
        _ => {},
    }
}

/// The message form of a read dependency of a commit.
pub fn dependency_to_proto(
    value: &StoredReadDependencyV1,
) -> (result: wire::StoredReadDependencyV1)
    ensures
        dependency_carries(result, value@),
{
    let form = match value {
        StoredReadDependencyV1::EntityObservation(part) =>
            wire::StoredReadDependencyV1Dependency::EntityObservation(
            entity_dependency_to_proto(part),
        ),
        StoredReadDependencyV1::IndexRangeEpoch(part) =>
            wire::StoredReadDependencyV1Dependency::IndexRangeEpoch(
            range_dependency_to_proto(part),
        ),
    };
    wire::StoredReadDependencyV1 { dependency: Some(form) }
}

/// Reads a read dependency of a commit.
pub fn dependency_from_proto(value: &wire::StoredReadDependencyV1) -> (result: Result<
    StoredReadDependencyV1,
    DurableCodecError,
>)
    ensures
        match result {
            Ok(held) => dependency_carries(*value, held@) && dependency_valid(held@),
            Err(error) => is_corrupt(error) && forall|other: ReadDependencyView| #[trigger]
                dependency_carries(*value, other) ==> !dependency_valid(other),
        },
{
    match require_ref(&value.dependency)? {
        wire::StoredReadDependencyV1Dependency::EntityObservation(form) => {
            let part = entity_dependency_from_proto(form)?;
            Ok(StoredReadDependencyV1::EntityObservation(part))
        },
        wire::StoredReadDependencyV1Dependency::IndexRangeEpoch(form) => {
            let part = range_dependency_from_proto(form)?;
            Ok(StoredReadDependencyV1::IndexRangeEpoch(part))
        },
    }
}

/// Whether messages are the forms of values, one by one.
pub open spec fn dependency_list_carries(
    messages: Seq<wire::StoredReadDependencyV1>,
    values: Seq<ReadDependencyView>,
) -> bool {
    &&& messages.len() == values.len()
    &&& forall|i: int|
        0 <= i < messages.len() ==> dependency_carries(#[trigger] messages[i], values[i])
}

/// All values are valid.
pub open spec fn dependency_list_valid(values: Seq<ReadDependencyView>) -> bool {
    forall|i: int| 0 <= i < values.len() ==> dependency_valid(#[trigger] values[i])
}

/// Messages are the forms of at most one list of values.
pub proof fn dependency_list_form_is_exact(
    messages: Seq<wire::StoredReadDependencyV1>,
    a: Seq<ReadDependencyView>,
    b: Seq<ReadDependencyView>,
)
    requires
        dependency_list_carries(messages, a),
        dependency_list_carries(messages, b),
        dependency_list_valid(a),
        dependency_list_valid(b),
    ensures
        a == b,
{
    assert forall|i: int| 0 <= i < a.len() implies a[i] == b[i] by {
        assert(dependency_carries(messages[i], a[i]) && dependency_carries(messages[i], b[i]));
        assert(dependency_valid(a[i]) && dependency_valid(b[i]));
        dependency_form_is_exact(messages[i], a[i], b[i]);
    }
    assert(a =~= b);
}

/// The message forms of values.
pub fn dependency_list_to_proto(
    values: &[StoredReadDependencyV1],
) -> (result: Vec<wire::StoredReadDependencyV1>)
    ensures
        dependency_list_carries(result@, dependency_views(values@)),
{
    let mut result: Vec<wire::StoredReadDependencyV1> = Vec::new();
    let mut i: usize = 0;
    while i < values.len()
        invariant
            i <= values@.len(),
            result@.len() == i,
            forall|k: int| 0 <= k < i ==> dependency_carries(#[trigger] result@[k], values@[k]@),
        decreases values@.len() - i,
    {
        result.push(dependency_to_proto(&values[i]));
        i += 1;
    }
    result
}

/// Reads values from their message forms.
pub fn dependency_list_from_proto(values: &[wire::StoredReadDependencyV1]) -> (result: Result<
    Vec<StoredReadDependencyV1>,
    DurableCodecError,
>)
    ensures
        match result {
            Ok(held) => dependency_list_carries(
                values@,
                dependency_views(held@),
            ) && dependency_list_valid(dependency_views(held@)),
            Err(error) => is_corrupt(error) && forall|other: Seq<ReadDependencyView>| #[trigger]
                dependency_list_carries(values@, other) ==> !dependency_list_valid(other),
        },
{
    let mut result: Vec<StoredReadDependencyV1> = Vec::new();
    let mut i: usize = 0;
    while i < values.len()
        invariant
            i <= values@.len(),
            result@.len() == i,
            forall|k: int|
                0 <= k < i ==> dependency_carries(values@[k], #[trigger] result@[k]@)
                    && dependency_valid(result@[k]@),
        decreases values@.len() - i,
    {
        match dependency_from_proto(&values[i]) {
            Ok(held) => {
                result.push(held);
            },
            Err(error) => {
                assert forall|other: Seq<ReadDependencyView>| #[trigger]
                    dependency_list_carries(values@, other)
                        implies !dependency_list_valid(other) by {
                    assert(dependency_carries(values@[i as int], other[i as int]));
                    assert(!dependency_valid(other[i as int]));
                }
                return Err(error);
            },
        }
        i += 1;
    }
    Ok(result)
}

/// Whether a message is the form of the read dependencies of a commit in canonical order.
pub open spec fn dependencies_carries(
    message: wire::StoredReadDependenciesV1,
    value: ReadDependenciesView,
) -> bool {
    &&& dependency_list_carries(message.dependencies@, value.dependencies)
    &&& dependencies_rebuilt(message.rebuilt, value.dependencies)
}

/// Whether messages are the forms of valid read dependencies.
pub open spec fn dependency_list_readable(messages: Seq<wire::StoredReadDependencyV1>) -> bool {
    exists|values: Seq<ReadDependencyView>| #[trigger]
        dependency_list_carries(messages, values) && dependency_list_valid(values)
}

/// Whether read dependencies are refused for a limit.
pub open spec fn dependencies_over_limit(message: wire::StoredReadDependenciesV1) -> bool {
    &&& dependency_list_readable(message.dependencies@)
    &&& (message.rebuilt matches Err(error) && over_limit(error))
}

/// The parts of the read dependencies of a commit in canonical order are valid.
pub open spec fn dependencies_valid(value: ReadDependenciesView) -> bool {
    &&& dependency_list_valid(value.dependencies)
}

/// A message is the form of at most one value.
pub proof fn dependencies_form_is_exact(
    message: wire::StoredReadDependenciesV1,
    a: ReadDependenciesView,
    b: ReadDependenciesView,
)
    requires
        dependencies_carries(message, a),
        dependencies_carries(message, b),
        dependencies_valid(a),
        dependencies_valid(b),
    ensures
        a == b,
{
    dependency_list_form_is_exact(message.dependencies@, a.dependencies, b.dependencies);
}

/// The message form of the read dependencies of a commit in canonical order.
pub fn dependencies_to_proto(
    value: &StoredReadDependenciesV1,
) -> (result: wire::StoredReadDependenciesV1)
    ensures
        dependencies_carries(result, value@),
{
    wire::StoredReadDependenciesV1 {
        dependencies: dependency_list_to_proto(&value.dependencies),
        rebuilt: Ok(copy_dependency_list(&value.dependencies)),
    }
}

/// Reads the read dependencies of a commit in canonical order.
pub fn dependencies_from_proto(value: &wire::StoredReadDependenciesV1) -> (result: Result<
    StoredReadDependenciesV1,
    DurableCodecError,
>)
    ensures
        match result {
            Ok(held) => dependencies_carries(*value, held@) && dependencies_valid(held@),
            Err(error) => error.kind == unread_failure(dependencies_over_limit(*value)) && forall|
                other: ReadDependenciesView,
            | #[trigger]
                dependencies_carries(*value, other) ==> !dependencies_valid(other),
        },
{
    let dependencies = match dependency_list_from_proto(&value.dependencies) {
        Ok(dependencies) => dependencies,
        Err(error) => {
            assert(!dependency_list_readable(value.dependencies@));
            return Err(error);
        },
    };
    let ghost read = dependency_views(dependencies@);
    assert(dependency_list_carries(value.dependencies@, read));
    match &value.rebuilt {
        Err(error) => Err(DurableCodecError::from_storage_value(*error)),
        Ok(list) => if same_dependency_list(list, &dependencies) {
            Ok(StoredReadDependenciesV1 { dependencies })
        } else {
            assert forall|other: ReadDependenciesView| #[trigger]
                dependencies_carries(*value, other) implies !dependencies_valid(other) by {
                if dependencies_valid(other) {
                    dependency_list_form_is_exact(
                        value.dependencies@,
                        read,
                        other.dependencies,
                    );
                }
            }
            Err(DurableCodecError::corrupt())
        },
    }
}

/// Whether a message is the form of a terminal outcome apart from its causation.
pub open spec fn outcome_carries(message: wire::StoredOutcomeV1, value: OutcomeBaseView) -> bool {
    &&& (message.identity matches Some(part) && identity_carries(part, value.identity))
    &&& message.commit_sequence == value.commit_sequence.value
    &&& identifier_carries(message.admission_request_id, value.admission_request_id)
    &&& (message.plan matches Some(part) && plan_carries(part, value.plan))
    &&& message.canonical_input_hash@ == value.canonical_input_hash.bytes@
    &&& (message.actor matches Some(part) && actor_carries(part, value.actor))
    &&& (message.logical_time matches Some(part) && timestamp_carries(part, value.logical_time))
    &&& message.partition_hash@ == value.partition_hash.bytes@
    &&& digests_carry(message.conflict_hashes@, value.conflict_hashes)
    &&& (message.declared_outcome matches Some(part) && declared_outcome_carries(
        part,
        value.declared_outcome,
    ))
    &&& (message.admitted_claims matches Some(part) && claims_carries(part, value.admitted_claims))
    &&& identifier_carries(message.provenance_id, value.provenance_id)
    &&& durability_carries(message.durability_mode, value.durability_mode)
    &&& key_carries(message.partition_key, value.partition_key)
}

/// The parts of a terminal outcome apart from its causation are valid.
pub open spec fn outcome_valid(value: OutcomeBaseView) -> bool {
    &&& identity_valid(value.identity)
    &&& value.commit_sequence.valid()
    &&& plan_valid(value.plan)
    &&& timestamp_valid(value.logical_time)
    &&& declared_outcome_valid(value.declared_outcome)
}

/// A message is the form of at most one value.
pub proof fn outcome_form_is_exact(
    message: wire::StoredOutcomeV1,
    a: OutcomeBaseView,
    b: OutcomeBaseView,
)
    requires
        outcome_carries(message, a),
        outcome_carries(message, b),
    ensures
        a == b,
{
    identity_form_is_exact(message.identity->Some_0, a.identity, b.identity);
    assert(a.admission_request_id.bytes =~= b.admission_request_id.bytes);
    plan_form_is_exact(message.plan->Some_0, a.plan, b.plan);
    assert(a.canonical_input_hash.bytes =~= b.canonical_input_hash.bytes);
    actor_form_is_exact(message.actor->Some_0, a.actor, b.actor);
    timestamp_form_is_exact(message.logical_time->Some_0, a.logical_time, b.logical_time);
    assert(a.partition_hash.bytes =~= b.partition_hash.bytes);
    assert forall|i: int| 0 <= i < a.conflict_hashes.len()
        implies a.conflict_hashes[i] == b.conflict_hashes[i] by {
        assert(message.conflict_hashes@[i]@ == a.conflict_hashes[i].bytes@
            && message.conflict_hashes@[i]@ == b.conflict_hashes[i].bytes@);
        assert(a.conflict_hashes[i].bytes =~= b.conflict_hashes[i].bytes);
    }
    assert(a.conflict_hashes =~= b.conflict_hashes);
    declared_outcome_form_is_exact(
        message.declared_outcome->Some_0,
        a.declared_outcome,
        b.declared_outcome,
    );
    claims_form_is_exact(message.admitted_claims->Some_0, a.admitted_claims, b.admitted_claims);
    assert(a.provenance_id.bytes =~= b.provenance_id.bytes);
}

/// The message form of a terminal outcome apart from its causation.
pub fn outcome_to_proto(value: &OutcomeBase) -> (result: wire::StoredOutcomeV1)
    ensures
        outcome_carries(result, value@),
{
    wire::StoredOutcomeV1 {
        identity: Some(identity_to_proto(&value.identity)),
        commit_sequence: value.commit_sequence.get(),
        admission_request_id: identifier_to_wire(value.admission_request_id),
        plan: Some(plan_to_proto(&value.plan)),
        canonical_input_hash: copy_bytes(value.canonical_input_hash.bytes.as_slice()),
        actor: Some(actor_to_proto(&value.actor)),
        logical_time: Some(timestamp_to_proto(value.logical_time)),
        partition_hash: copy_bytes(value.partition_hash.bytes.as_slice()),
        conflict_hashes: digests_to_wire(&value.conflict_hashes),
        declared_outcome: Some(declared_outcome_to_proto(&value.declared_outcome)),
        admitted_claims: Some(claims_to_proto(&value.admitted_claims)),
        provenance_id: identifier_to_wire(value.provenance_id),
        durability_mode: durability_to_proto(value.durability_mode),
        partition_key: key_to_wire(&value.partition_key),
    }
}

/// What reading a message gives: the value that it is the form of, or a
/// corruption where it is the form of no valid one.
pub open spec fn outcome_read(
    message: wire::StoredOutcomeV1,
    result: Result<OutcomeBase, DurableCodecError>,
) -> bool {
    match result {
        Ok(held) => outcome_carries(message, held@) && outcome_valid(held@),
        Err(error) => is_corrupt(error) && forall|other: OutcomeBaseView| #[trigger]
            outcome_carries(message, other) ==> !outcome_valid(other),
    }
}

/// Reads a terminal outcome apart from its causation.
pub fn outcome_from_proto(value: &wire::StoredOutcomeV1) -> (result: Result<
    OutcomeBase,
    DurableCodecError,
>)
    ensures
        outcome_read(*value, result),
{
    let identity = identity_from_proto(require_ref(&value.identity)?)?;
    let commit_sequence = require(CommitSequence::new(value.commit_sequence))?;
    let admission_request_id = identifier_from_wire(&value.admission_request_id)?;
    let plan = plan_from_proto(require_ref(&value.plan)?)?;
    let canonical_input_hash = digest_from_wire(&value.canonical_input_hash)?;
    let actor = actor_from_proto(require_ref(&value.actor)?)?;
    let logical_time = timestamp_from_proto(require_ref(&value.logical_time)?)?;
    let partition_hash = digest_from_wire(&value.partition_hash)?;
    let conflict_hashes = digests_from_wire(&value.conflict_hashes)?;
    let declared_outcome = declared_outcome_from_proto(require_ref(&value.declared_outcome)?)?;
    let admitted_claims = claims_from_proto(require_ref(&value.admitted_claims)?)?;
    let provenance_id = identifier_from_wire(&value.provenance_id)?;
    let durability_mode = durability_from_proto(value.durability_mode)?;
    let partition_key = key_from_wire(&value.partition_key)?;
    Ok(
        OutcomeBase {
            identity,
            commit_sequence,
            admission_request_id,
            plan,
            canonical_input_hash,
            actor,
            logical_time,
            partition_hash,
            conflict_hashes,
            declared_outcome,
            admitted_claims,
            provenance_id,
            durability_mode,
            partition_key,
        },
    )
}

/// Reading the message form of a terminal outcome apart from its causation gives back what
/// was written.
pub proof fn outcome_round_trip(
    value: OutcomeBaseView,
    message: wire::StoredOutcomeV1,
    read: Result<OutcomeBase, DurableCodecError>,
)
    requires
        outcome_valid(value),
        outcome_carries(message, value),
        outcome_read(message, read),
    ensures
        read is Ok,
        read->Ok_0@ == value,
{
    if let Ok(held) = read {
        outcome_form_is_exact(message, held@, value);
    }
}

/// Whether a message is the form of a complete terminal idempotency outcome.
pub open spec fn outcome_v2_carries(
    message: wire::StoredOutcomeV2,
    value: StoredOutcomeView,
) -> bool {
    &&& (message.base matches Some(part) && outcome_carries(part, value.base))
    &&& optional_causation_carries(message.causation, value.causation)
}

/// The parts of a complete terminal idempotency outcome are valid.
pub open spec fn outcome_v2_valid(value: StoredOutcomeView) -> bool {
    &&& outcome_valid(value.base)
    &&& (value.causation matches Some(part) ==> causation_valid(part))
}

/// A message is the form of at most one value.
pub proof fn outcome_v2_form_is_exact(
    message: wire::StoredOutcomeV2,
    a: StoredOutcomeView,
    b: StoredOutcomeView,
)
    requires
        outcome_v2_carries(message, a),
        outcome_v2_carries(message, b),
    ensures
        a == b,
{
    outcome_form_is_exact(message.base->Some_0, a.base, b.base);
    if a.causation is Some {
        causation_form_is_exact(
            message.causation->Some_0,
            a.causation->Some_0,
            b.causation->Some_0,
        );
    }
}

/// The message form of a complete terminal idempotency outcome.
pub fn outcome_v2_to_proto(value: &StoredOutcomeV1) -> (result: wire::StoredOutcomeV2)
    ensures
        outcome_v2_carries(result, value@),
{
    wire::StoredOutcomeV2 {
        base: Some(outcome_to_proto(&value.base)),
        causation: optional_causation_to_proto(&value.causation),
    }
}

/// What reading a message gives: the value that it is the form of, or a
/// corruption where it is the form of no valid one.
pub open spec fn outcome_v2_read(
    message: wire::StoredOutcomeV2,
    result: Result<StoredOutcomeV1, DurableCodecError>,
) -> bool {
    match result {
        Ok(held) => outcome_v2_carries(message, held@) && outcome_v2_valid(held@),
        Err(error) => is_corrupt(error) && forall|other: StoredOutcomeView| #[trigger]
            outcome_v2_carries(message, other) ==> !outcome_v2_valid(other),
    }
}

/// Reads a complete terminal idempotency outcome.
pub fn outcome_v2_from_proto(value: &wire::StoredOutcomeV2) -> (result: Result<
    StoredOutcomeV1,
    DurableCodecError,
>)
    ensures
        outcome_v2_read(*value, result),
{
    let base = outcome_from_proto(require_ref(&value.base)?)?;
    let causation = optional_causation_from_proto(&value.causation)?;
    Ok(StoredOutcomeV1 { base, causation })
}

/// Reading the message form of a complete terminal idempotency outcome gives back what was written.
pub proof fn outcome_v2_round_trip(
    value: StoredOutcomeView,
    message: wire::StoredOutcomeV2,
    read: Result<StoredOutcomeV1, DurableCodecError>,
)
    requires
        outcome_v2_valid(value),
        outcome_v2_carries(message, value),
        outcome_v2_read(message, read),
    ensures
        read is Ok,
        read->Ok_0@ == value,
{
    if let Ok(held) = read {
        outcome_v2_form_is_exact(message, held@, value);
    }
}

/// Whether a message is the form of an entity that a command affected.
pub open spec fn affected_carries(
    message: wire::AffectedEntityV1,
    value: AffectedEntityView,
) -> bool {
    &&& (message.target matches Some(part) && entity_target_carries(part, value.target))
    &&& message.entity_version == value.entity_version.value
}

/// The parts of an entity that a command affected are valid.
pub open spec fn affected_valid(value: AffectedEntityView) -> bool {
    &&& entity_target_valid(value.target)
    &&& value.entity_version.valid()
}

/// A message is the form of at most one value.
pub proof fn affected_form_is_exact(
    message: wire::AffectedEntityV1,
    a: AffectedEntityView,
    b: AffectedEntityView,
)
    requires
        affected_carries(message, a),
        affected_carries(message, b),
    ensures
        a == b,
{
    entity_target_form_is_exact(message.target->Some_0, a.target, b.target);
}

/// The message form of an entity that a command affected.
pub fn affected_to_proto(value: &AffectedEntityV1) -> (result: wire::AffectedEntityV1)
    ensures
        affected_carries(result, value@),
{
    wire::AffectedEntityV1 {
        target: Some(entity_target_to_proto(&value.target)),
        entity_version: value.entity_version.get(),
    }
}

/// Reads an entity that a command affected.
pub fn affected_from_proto(value: &wire::AffectedEntityV1) -> (result: Result<
    AffectedEntityV1,
    DurableCodecError,
>)
    ensures
        match result {
            Ok(held) => affected_carries(*value, held@) && affected_valid(held@),
            Err(error) => is_corrupt(error) && forall|other: AffectedEntityView| #[trigger]
                affected_carries(*value, other) ==> !affected_valid(other),
        },
{
    let target = entity_target_from_proto(require_ref(&value.target)?)?;
    let entity_version = require(Id64::new(value.entity_version))?;
    Ok(AffectedEntityV1 { target, entity_version })
}

/// Whether messages are the forms of values, one by one.
pub open spec fn affected_list_carries(
    messages: Seq<wire::AffectedEntityV1>,
    values: Seq<AffectedEntityView>,
) -> bool {
    &&& messages.len() == values.len()
    &&& forall|i: int|
        0 <= i < messages.len() ==> affected_carries(#[trigger] messages[i], values[i])
}

/// All values are valid.
pub open spec fn affected_list_valid(values: Seq<AffectedEntityView>) -> bool {
    forall|i: int| 0 <= i < values.len() ==> affected_valid(#[trigger] values[i])
}

/// Messages are the forms of at most one list of values.
pub proof fn affected_list_form_is_exact(
    messages: Seq<wire::AffectedEntityV1>,
    a: Seq<AffectedEntityView>,
    b: Seq<AffectedEntityView>,
)
    requires
        affected_list_carries(messages, a),
        affected_list_carries(messages, b),
    ensures
        a == b,
{
    assert forall|i: int| 0 <= i < a.len() implies a[i] == b[i] by {
        assert(affected_carries(messages[i], a[i]) && affected_carries(messages[i], b[i]));
        affected_form_is_exact(messages[i], a[i], b[i]);
    }
    assert(a =~= b);
}

/// The message forms of values.
pub fn affected_list_to_proto(
    values: &[AffectedEntityV1],
) -> (result: Vec<wire::AffectedEntityV1>)
    ensures
        affected_list_carries(result@, affected_views(values@)),
{
    let mut result: Vec<wire::AffectedEntityV1> = Vec::new();
    let mut i: usize = 0;
    while i < values.len()
        invariant
            i <= values@.len(),
            result@.len() == i,
            forall|k: int| 0 <= k < i ==> affected_carries(#[trigger] result@[k], values@[k]@),
        decreases values@.len() - i,
    {
        result.push(affected_to_proto(&values[i]));
        i += 1;
    }
    result
}

/// Reads values from their message forms.
pub fn affected_list_from_proto(values: &[wire::AffectedEntityV1]) -> (result: Result<
    Vec<AffectedEntityV1>,
    DurableCodecError,
>)
    ensures
        match result {
            Ok(held) => affected_list_carries(
                values@,
                affected_views(held@),
            ) && affected_list_valid(affected_views(held@)),
            Err(error) => is_corrupt(error) && forall|other: Seq<AffectedEntityView>| #[trigger]
                affected_list_carries(values@, other) ==> !affected_list_valid(other),
        },
{
    let mut result: Vec<AffectedEntityV1> = Vec::new();
    let mut i: usize = 0;
    while i < values.len()
        invariant
            i <= values@.len(),
            result@.len() == i,
            forall|k: int|
                0 <= k < i ==> affected_carries(values@[k], #[trigger] result@[k]@)
                    && affected_valid(result@[k]@),
        decreases values@.len() - i,
    {
        match affected_from_proto(&values[i]) {
            Ok(held) => {
                result.push(held);
            },
            Err(error) => {
                assert forall|other: Seq<AffectedEntityView>| #[trigger]
                    affected_list_carries(values@, other) implies !affected_list_valid(other) by {
                    assert(affected_carries(values@[i as int], other[i as int]));
                    assert(!affected_valid(other[i as int]));
                }
                return Err(error);
            },
        }
        i += 1;
    }
    Ok(result)
}

/// Whether a message is the form of a provenance record apart from its causation.
pub open spec fn provenance_carries(
    message: wire::StoredProvenanceRecordV1,
    value: ProvenanceBaseView,
) -> bool {
    &&& identifier_carries(message.provenance_id, value.provenance_id)
    &&& message.commit_sequence == value.commit_sequence.value
    &&& (message.identity matches Some(part) && identity_carries(part, value.identity))
    &&& identifier_carries(message.admission_request_id, value.admission_request_id)
    &&& (message.plan matches Some(part) && plan_carries(part, value.plan))
    &&& message.canonical_input_hash@ == value.canonical_input_hash.bytes@
    &&& (message.actor matches Some(part) && actor_carries(part, value.actor))
    &&& (message.logical_time matches Some(part) && timestamp_carries(part, value.logical_time))
    &&& message.partition_hash@ == value.partition_hash.bytes@
    &&& digests_carry(message.conflict_hashes@, value.conflict_hashes)
    &&& message.outcome_id == value.outcome_id.value
    &&& affected_list_carries(message.affected_entities@, value.affected_entities)
    &&& event_id_list_carries(message.event_ids@, value.event_ids)
    &&& (message.admitted_claims matches Some(part) && claims_carries(part, value.admitted_claims))
}

/// The parts of a provenance record apart from its causation are valid.
pub open spec fn provenance_valid(value: ProvenanceBaseView) -> bool {
    &&& value.commit_sequence.valid()
    &&& identity_valid(value.identity)
    &&& plan_valid(value.plan)
    &&& timestamp_valid(value.logical_time)
    &&& value.outcome_id.valid()
    &&& affected_list_valid(value.affected_entities)
    &&& event_id_list_valid(value.event_ids)
}

/// A message is the form of at most one value.
pub proof fn provenance_form_is_exact(
    message: wire::StoredProvenanceRecordV1,
    a: ProvenanceBaseView,
    b: ProvenanceBaseView,
)
    requires
        provenance_carries(message, a),
        provenance_carries(message, b),
    ensures
        a == b,
{
    assert(a.provenance_id.bytes =~= b.provenance_id.bytes);
    identity_form_is_exact(message.identity->Some_0, a.identity, b.identity);
    assert(a.admission_request_id.bytes =~= b.admission_request_id.bytes);
    plan_form_is_exact(message.plan->Some_0, a.plan, b.plan);
    assert(a.canonical_input_hash.bytes =~= b.canonical_input_hash.bytes);
    actor_form_is_exact(message.actor->Some_0, a.actor, b.actor);
    timestamp_form_is_exact(message.logical_time->Some_0, a.logical_time, b.logical_time);
    assert(a.partition_hash.bytes =~= b.partition_hash.bytes);
    assert forall|i: int| 0 <= i < a.conflict_hashes.len()
        implies a.conflict_hashes[i] == b.conflict_hashes[i] by {
        assert(message.conflict_hashes@[i]@ == a.conflict_hashes[i].bytes@
            && message.conflict_hashes@[i]@ == b.conflict_hashes[i].bytes@);
        assert(a.conflict_hashes[i].bytes =~= b.conflict_hashes[i].bytes);
    }
    assert(a.conflict_hashes =~= b.conflict_hashes);
    affected_list_form_is_exact(
        message.affected_entities@,
        a.affected_entities,
        b.affected_entities,
    );
    event_id_list_form_is_exact(message.event_ids@, a.event_ids, b.event_ids);
    claims_form_is_exact(message.admitted_claims->Some_0, a.admitted_claims, b.admitted_claims);
}

/// The message form of a provenance record apart from its causation.
pub fn provenance_to_proto(value: &ProvenanceBase) -> (result: wire::StoredProvenanceRecordV1)
    ensures
        provenance_carries(result, value@),
{
    wire::StoredProvenanceRecordV1 {
        provenance_id: identifier_to_wire(value.provenance_id),
        commit_sequence: value.commit_sequence.get(),
        identity: Some(identity_to_proto(&value.identity)),
        admission_request_id: identifier_to_wire(value.admission_request_id),
        plan: Some(plan_to_proto(&value.plan)),
        canonical_input_hash: copy_bytes(value.canonical_input_hash.bytes.as_slice()),
        actor: Some(actor_to_proto(&value.actor)),
        logical_time: Some(timestamp_to_proto(value.logical_time)),
        partition_hash: copy_bytes(value.partition_hash.bytes.as_slice()),
        conflict_hashes: digests_to_wire(&value.conflict_hashes),
        outcome_id: value.outcome_id.get(),
        affected_entities: affected_list_to_proto(&value.affected_entities),
        event_ids: event_id_list_to_proto(&value.event_ids),
        admitted_claims: Some(claims_to_proto(&value.admitted_claims)),
    }
}

/// What reading a message gives: the value that it is the form of, or a
/// corruption where it is the form of no valid one.
pub open spec fn provenance_read(
    message: wire::StoredProvenanceRecordV1,
    result: Result<ProvenanceBase, DurableCodecError>,
) -> bool {
    match result {
        Ok(held) => provenance_carries(message, held@) && provenance_valid(held@),
        Err(error) => is_corrupt(error) && forall|other: ProvenanceBaseView| #[trigger]
            provenance_carries(message, other) ==> !provenance_valid(other),
    }
}

/// Reads a provenance record apart from its causation.
pub fn provenance_from_proto(value: &wire::StoredProvenanceRecordV1) -> (result: Result<
    ProvenanceBase,
    DurableCodecError,
>)
    ensures
        provenance_read(*value, result),
{
    let provenance_id = identifier_from_wire(&value.provenance_id)?;
    let commit_sequence = require(CommitSequence::new(value.commit_sequence))?;
    let identity = identity_from_proto(require_ref(&value.identity)?)?;
    let admission_request_id = identifier_from_wire(&value.admission_request_id)?;
    let plan = plan_from_proto(require_ref(&value.plan)?)?;
    let canonical_input_hash = digest_from_wire(&value.canonical_input_hash)?;
    let actor = actor_from_proto(require_ref(&value.actor)?)?;
    let logical_time = timestamp_from_proto(require_ref(&value.logical_time)?)?;
    let partition_hash = digest_from_wire(&value.partition_hash)?;
    let conflict_hashes = digests_from_wire(&value.conflict_hashes)?;
    let outcome_id = require(Id32::new(value.outcome_id))?;
    let affected_entities = affected_list_from_proto(&value.affected_entities)?;
    let event_ids = event_id_list_from_proto(&value.event_ids)?;
    let admitted_claims = claims_from_proto(require_ref(&value.admitted_claims)?)?;
    Ok(
        ProvenanceBase {
            provenance_id,
            commit_sequence,
            identity,
            admission_request_id,
            plan,
            canonical_input_hash,
            actor,
            logical_time,
            partition_hash,
            conflict_hashes,
            outcome_id,
            affected_entities,
            event_ids,
            admitted_claims,
        },
    )
}

/// Reading the message form of a provenance record apart from its causation gives back what
/// was written.
pub proof fn provenance_round_trip(
    value: ProvenanceBaseView,
    message: wire::StoredProvenanceRecordV1,
    read: Result<ProvenanceBase, DurableCodecError>,
)
    requires
        provenance_valid(value),
        provenance_carries(message, value),
        provenance_read(message, read),
    ensures
        read is Ok,
        read->Ok_0@ == value,
{
    if let Ok(held) = read {
        provenance_form_is_exact(message, held@, value);
    }
}

/// Whether a message is the form of an immutable command provenance record.
pub open spec fn provenance_v2_carries(
    message: wire::StoredProvenanceRecordV2,
    value: ProvenanceRecordView,
) -> bool {
    &&& (message.base matches Some(part) && provenance_carries(part, value.base))
    &&& optional_causation_carries(message.causation, value.causation)
}

/// The parts of an immutable command provenance record are valid.
pub open spec fn provenance_v2_valid(value: ProvenanceRecordView) -> bool {
    &&& provenance_valid(value.base)
    &&& (value.causation matches Some(part) ==> causation_valid(part))
}

/// A message is the form of at most one value.
pub proof fn provenance_v2_form_is_exact(
    message: wire::StoredProvenanceRecordV2,
    a: ProvenanceRecordView,
    b: ProvenanceRecordView,
)
    requires
        provenance_v2_carries(message, a),
        provenance_v2_carries(message, b),
    ensures
        a == b,
{
    provenance_form_is_exact(message.base->Some_0, a.base, b.base);
    if a.causation is Some {
        causation_form_is_exact(
            message.causation->Some_0,
            a.causation->Some_0,
            b.causation->Some_0,
        );
    }
}

/// The message form of an immutable command provenance record.
pub fn provenance_v2_to_proto(
    value: &StoredProvenanceRecordV1,
) -> (result: wire::StoredProvenanceRecordV2)
    ensures
        provenance_v2_carries(result, value@),
{
    wire::StoredProvenanceRecordV2 {
        base: Some(provenance_to_proto(&value.base)),
        causation: optional_causation_to_proto(&value.causation),
    }
}

/// What reading a message gives: the value that it is the form of, or a
/// corruption where it is the form of no valid one.
pub open spec fn provenance_v2_read(
    message: wire::StoredProvenanceRecordV2,
    result: Result<StoredProvenanceRecordV1, DurableCodecError>,
) -> bool {
    match result {
        Ok(held) => provenance_v2_carries(message, held@) && provenance_v2_valid(held@),
        Err(error) => is_corrupt(error) && forall|other: ProvenanceRecordView| #[trigger]
            provenance_v2_carries(message, other) ==> !provenance_v2_valid(other),
    }
}

/// Reads an immutable command provenance record.
pub fn provenance_v2_from_proto(value: &wire::StoredProvenanceRecordV2) -> (result: Result<
    StoredProvenanceRecordV1,
    DurableCodecError,
>)
    ensures
        provenance_v2_read(*value, result),
{
    let base = provenance_from_proto(require_ref(&value.base)?)?;
    let causation = optional_causation_from_proto(&value.causation)?;
    Ok(StoredProvenanceRecordV1 { base, causation })
}

/// Reading the message form of an immutable command provenance record gives back what was written.
pub proof fn provenance_v2_round_trip(
    value: ProvenanceRecordView,
    message: wire::StoredProvenanceRecordV2,
    read: Result<StoredProvenanceRecordV1, DurableCodecError>,
)
    requires
        provenance_v2_valid(value),
        provenance_v2_carries(message, value),
        provenance_v2_read(message, read),
    ensures
        read is Ok,
        read->Ok_0@ == value,
{
    if let Ok(held) = read {
        provenance_v2_form_is_exact(message, held@, value);
    }
}

/// Whether a message is the form of a reference to a committed entity by version and hash.
pub open spec fn entity_reference_carries(
    message: wire::CommittedEntityReferenceV2,
    value: EntityReferenceView,
) -> bool {
    &&& (message.target matches Some(part) && entity_target_carries(part, value.target))
    &&& message.entity_version == value.entity_version.value
    &&& message.post_image_hash@ == value.post_image_hash.bytes@
}

/// The parts of a reference to a committed entity by version and hash are valid.
pub open spec fn entity_reference_valid(value: EntityReferenceView) -> bool {
    &&& entity_target_valid(value.target)
    &&& value.entity_version.valid()
}

/// A message is the form of at most one value.
pub proof fn entity_reference_form_is_exact(
    message: wire::CommittedEntityReferenceV2,
    a: EntityReferenceView,
    b: EntityReferenceView,
)
    requires
        entity_reference_carries(message, a),
        entity_reference_carries(message, b),
    ensures
        a == b,
{
    entity_target_form_is_exact(message.target->Some_0, a.target, b.target);
    assert(a.post_image_hash.bytes =~= b.post_image_hash.bytes);
}

/// The message form of a reference to a committed entity by version and hash.
pub fn entity_reference_to_proto(
    value: &CommittedEntityReferenceV2,
) -> (result: wire::CommittedEntityReferenceV2)
    ensures
        entity_reference_carries(result, value@),
{
    wire::CommittedEntityReferenceV2 {
        target: Some(entity_target_to_proto(&value.target)),
        entity_version: value.entity_version.get(),
        post_image_hash: copy_bytes(value.post_image_hash.bytes.as_slice()),
    }
}

/// Reads a reference to a committed entity by version and hash.
pub fn entity_reference_from_proto(value: &wire::CommittedEntityReferenceV2) -> (result: Result<
    CommittedEntityReferenceV2,
    DurableCodecError,
>)
    ensures
        match result {
            Ok(held) => entity_reference_carries(*value, held@) && entity_reference_valid(held@),
            Err(error) => is_corrupt(error) && forall|other: EntityReferenceView| #[trigger]
                entity_reference_carries(*value, other) ==> !entity_reference_valid(other),
        },
{
    let target = entity_target_from_proto(require_ref(&value.target)?)?;
    let entity_version = require(Id64::new(value.entity_version))?;
    let post_image_hash = digest_from_wire(&value.post_image_hash)?;
    Ok(CommittedEntityReferenceV2 { target, entity_version, post_image_hash })
}

/// Whether messages are the forms of values, one by one.
pub open spec fn entity_reference_list_carries(
    messages: Seq<wire::CommittedEntityReferenceV2>,
    values: Seq<EntityReferenceView>,
) -> bool {
    &&& messages.len() == values.len()
    &&& forall|i: int|
        0 <= i < messages.len() ==> entity_reference_carries(#[trigger] messages[i], values[i])
}

/// All values are valid.
pub open spec fn entity_reference_list_valid(values: Seq<EntityReferenceView>) -> bool {
    forall|i: int| 0 <= i < values.len() ==> entity_reference_valid(#[trigger] values[i])
}

/// Messages are the forms of at most one list of values.
pub proof fn entity_reference_list_form_is_exact(
    messages: Seq<wire::CommittedEntityReferenceV2>,
    a: Seq<EntityReferenceView>,
    b: Seq<EntityReferenceView>,
)
    requires
        entity_reference_list_carries(messages, a),
        entity_reference_list_carries(messages, b),
    ensures
        a == b,
{
    assert forall|i: int| 0 <= i < a.len() implies a[i] == b[i] by {
        assert(entity_reference_carries(messages[i], a[i])
            && entity_reference_carries(messages[i], b[i]));
        entity_reference_form_is_exact(messages[i], a[i], b[i]);
    }
    assert(a =~= b);
}

/// The message forms of values.
pub fn entity_reference_list_to_proto(
    values: &[CommittedEntityReferenceV2],
) -> (result: Vec<wire::CommittedEntityReferenceV2>)
    ensures
        entity_reference_list_carries(result@, entity_reference_views(values@)),
{
    let mut result: Vec<wire::CommittedEntityReferenceV2> = Vec::new();
    let mut i: usize = 0;
    while i < values.len()
        invariant
            i <= values@.len(),
            result@.len() == i,
            forall|k: int| 0 <= k < i ==> entity_reference_carries(
                #[trigger] result@[k],
                values@[k]@,
            ),
        decreases values@.len() - i,
    {
        result.push(entity_reference_to_proto(&values[i]));
        i += 1;
    }
    result
}

/// Reads values from their message forms.
pub fn entity_reference_list_from_proto(
    values: &[wire::CommittedEntityReferenceV2],
) -> (result: Result<
    Vec<CommittedEntityReferenceV2>,
    DurableCodecError,
>)
    ensures
        match result {
            Ok(held) => entity_reference_list_carries(
                values@,
                entity_reference_views(held@),
            ) && entity_reference_list_valid(entity_reference_views(held@)),
            Err(error) => is_corrupt(error) && forall|other: Seq<EntityReferenceView>| #[trigger]
                entity_reference_list_carries(values@, other)
                    ==> !entity_reference_list_valid(other),
        },
{
    let mut result: Vec<CommittedEntityReferenceV2> = Vec::new();
    let mut i: usize = 0;
    while i < values.len()
        invariant
            i <= values@.len(),
            result@.len() == i,
            forall|k: int|
                0 <= k < i ==> entity_reference_carries(values@[k], #[trigger] result@[k]@)
                    && entity_reference_valid(result@[k]@),
        decreases values@.len() - i,
    {
        match entity_reference_from_proto(&values[i]) {
            Ok(held) => {
                result.push(held);
            },
            Err(error) => {
                assert forall|other: Seq<EntityReferenceView>| #[trigger]
                    entity_reference_list_carries(values@, other)
                        implies !entity_reference_list_valid(other) by {
                    assert(entity_reference_carries(values@[i as int], other[i as int]));
                    assert(!entity_reference_valid(other[i as int]));
                }
                return Err(error);
            },
        }
        i += 1;
    }
    Ok(result)
}

/// Whether a message is the form of a committed entity mutation.
pub open spec fn mutation_carries(
    message: wire::CommittedEntityMutationV1,
    value: EntityMutationView,
) -> bool {
    mutation_parts_carry(message, value) && message.refusal is None
}

/// Whether a message holds the parts of a committed entity mutation, whatever the owning
/// type says of them.
pub open spec fn mutation_parts_carry(
    message: wire::CommittedEntityMutationV1,
    value: EntityMutationView,
) -> bool {
    &&& (message.expected matches Some(part) && expected_carries(part, value.expected))
    &&& (message.post_image matches Some(part) && entity_carries(part, value.post_image))
}

/// Whether a committed entity mutation is refused for a limit although its parts are sound.
pub open spec fn mutation_over_limit(message: wire::CommittedEntityMutationV1) -> bool {
    &&& (message.refusal matches Some(error) && over_limit(error))
    &&& exists|value: EntityMutationView| #[trigger] mutation_parts_carry(message, value)
        && mutation_valid(value)
}

/// The parts of a committed entity mutation are valid.
pub open spec fn mutation_valid(value: EntityMutationView) -> bool {
    &&& expected_valid(value.expected)
    &&& entity_valid(value.post_image)
}

/// A message is the form of at most one value.
pub proof fn mutation_form_is_exact(
    message: wire::CommittedEntityMutationV1,
    a: EntityMutationView,
    b: EntityMutationView,
)
    requires
        mutation_carries(message, a),
        mutation_carries(message, b),
    ensures
        a == b,
{
    expected_form_is_exact(message.expected->Some_0, a.expected, b.expected);
    entity_form_is_exact(message.post_image->Some_0, a.post_image, b.post_image);
}

/// The message form of a committed entity mutation.
pub fn mutation_to_proto(
    value: &CommittedEntityMutationV1,
) -> (result: wire::CommittedEntityMutationV1)
    ensures
        mutation_carries(result, value@),
{
    wire::CommittedEntityMutationV1 {
        expected: Some(expected_to_proto(value.expected)),
        post_image: Some(entity_to_proto(&value.post_image)),
        refusal: None,
    }
}

/// Reads a committed entity mutation.
pub fn mutation_from_proto(value: &wire::CommittedEntityMutationV1) -> (result: Result<
    CommittedEntityMutationV1,
    DurableCodecError,
>)
    ensures
        match result {
            Ok(held) => mutation_carries(*value, held@) && mutation_valid(held@),
            Err(error) => error.kind == unread_failure(mutation_over_limit(*value)) && forall|
                other: EntityMutationView,
            | #[trigger]
                mutation_carries(*value, other) ==> !mutation_valid(other),
        },
{
    let expected = expected_from_proto(require_ref(&value.expected)?)?;
    let post_image = entity_from_proto(require_ref(&value.post_image)?)?;
    let read = CommittedEntityMutationV1 { expected, post_image };
    assert(mutation_parts_carry(*value, read@));
    match value.refusal {
        Some(error) => Err(DurableCodecError::from_storage_value(error)),
        None => Ok(read),
    }
}

/// Whether the first of these messages that cannot be read is refused for a limit.
pub open spec fn mutation_list_over_limit(messages: Seq<wire::CommittedEntityMutationV1>) -> bool {
    exists|place: int| #[trigger]
        mutation_stops_at(messages, place) && mutation_over_limit(messages[place])
}

/// Whether all messages before a place can be read.
pub open spec fn mutation_stops_at(
    messages: Seq<wire::CommittedEntityMutationV1>,
    place: int,
) -> bool {
    &&& 0 <= place < messages.len()
    &&& forall|k: int| 0 <= k < place ==> mutation_readable(#[trigger] messages[k])
}

/// Whether a message is the form of some valid value.
pub open spec fn mutation_readable(message: wire::CommittedEntityMutationV1) -> bool {
    exists|value: EntityMutationView| #[trigger] mutation_carries(message, value)
        && mutation_valid(value)
}

/// Whether messages are the forms of values, one by one.
pub open spec fn mutation_list_carries(
    messages: Seq<wire::CommittedEntityMutationV1>,
    values: Seq<EntityMutationView>,
) -> bool {
    &&& messages.len() == values.len()
    &&& forall|i: int|
        0 <= i < messages.len() ==> mutation_carries(#[trigger] messages[i], values[i])
}

/// All values are valid.
pub open spec fn mutation_list_valid(values: Seq<EntityMutationView>) -> bool {
    forall|i: int| 0 <= i < values.len() ==> mutation_valid(#[trigger] values[i])
}

/// Messages are the forms of at most one list of values.
pub proof fn mutation_list_form_is_exact(
    messages: Seq<wire::CommittedEntityMutationV1>,
    a: Seq<EntityMutationView>,
    b: Seq<EntityMutationView>,
)
    requires
        mutation_list_carries(messages, a),
        mutation_list_carries(messages, b),
    ensures
        a == b,
{
    assert forall|i: int| 0 <= i < a.len() implies a[i] == b[i] by {
        assert(mutation_carries(messages[i], a[i]) && mutation_carries(messages[i], b[i]));
        mutation_form_is_exact(messages[i], a[i], b[i]);
    }
    assert(a =~= b);
}

/// The message forms of values.
pub fn mutation_list_to_proto(
    values: &[CommittedEntityMutationV1],
) -> (result: Vec<wire::CommittedEntityMutationV1>)
    ensures
        mutation_list_carries(result@, mutation_views(values@)),
{
    let mut result: Vec<wire::CommittedEntityMutationV1> = Vec::new();
    let mut i: usize = 0;
    while i < values.len()
        invariant
            i <= values@.len(),
            result@.len() == i,
            forall|k: int| 0 <= k < i ==> mutation_carries(#[trigger] result@[k], values@[k]@),
        decreases values@.len() - i,
    {
        result.push(mutation_to_proto(&values[i]));
        i += 1;
    }
    result
}

/// Reads values from their message forms.
pub fn mutation_list_from_proto(values: &[wire::CommittedEntityMutationV1]) -> (result: Result<
    Vec<CommittedEntityMutationV1>,
    DurableCodecError,
>)
    ensures
        match result {
            Ok(held) => mutation_list_carries(
                values@,
                mutation_views(held@),
            ) && mutation_list_valid(mutation_views(held@)),
            Err(error) => error.kind == unread_failure(mutation_list_over_limit(values@))
                && forall|other: Seq<EntityMutationView>| #[trigger]
                mutation_list_carries(values@, other) ==> !mutation_list_valid(other),
        },
{
    let mut result: Vec<CommittedEntityMutationV1> = Vec::new();
    let mut i: usize = 0;
    while i < values.len()
        invariant
            i <= values@.len(),
            result@.len() == i,
            forall|k: int|
                0 <= k < i ==> mutation_carries(values@[k], #[trigger] result@[k]@)
                    && mutation_valid(result@[k]@),
        decreases values@.len() - i,
    {
        match mutation_from_proto(&values[i]) {
            Ok(held) => {
                result.push(held);
            },
            Err(error) => {
                assert forall|other: Seq<EntityMutationView>| #[trigger]
                    mutation_list_carries(values@, other) implies !mutation_list_valid(other) by {
                    assert(mutation_carries(values@[i as int], other[i as int]));
                    assert(!mutation_valid(other[i as int]));
                }
                proof {
                    assert forall|k: int| 0 <= k < i
                        implies mutation_readable(#[trigger] values@[k]) by {
                        assert(mutation_carries(values@[k], result@[k]@));
                    }
                    assert(mutation_stops_at(values@, i as int));
                    assert forall|place: int| #[trigger] mutation_stops_at(values@, place)
                        && mutation_over_limit(values@[place]) implies place == i by {
                        if place < i {
                            assert(mutation_readable(values@[place]));
                        } else if place > i {
                            assert(mutation_readable(values@[i as int]));
                        }
                    }
                }
                return Err(error);
            },
        }
        i += 1;
    }
    Ok(result)
}

/// Whether a message is the form of what every form of a commit record holds.
pub open spec fn commit_parts_carries(
    message: wire::CommitPartsV1,
    value: CommitPartsView,
) -> bool {
    &&& message.commit_sequence == value.commit_sequence.value
    &&& identifier_carries(message.admission_request_id, value.admission_request_id)
    &&& (message.plan matches Some(part) && plan_carries(part, value.plan))
    &&& message.canonical_input_hash@ == value.canonical_input_hash.bytes@
    &&& (message.actor matches Some(part) && actor_carries(part, value.actor))
    &&& (message.logical_time matches Some(part) && timestamp_carries(part, value.logical_time))
    &&& message.partition_hash@ == value.partition_hash.bytes@
    &&& digests_carry(message.conflict_hashes@, value.conflict_hashes)
    &&& (message.read_dependencies matches Some(part) && dependencies_carries(
        part,
        value.read_dependencies,
    ))
    &&& (message.declared_outcome matches Some(part) && declared_outcome_carries(
        part,
        value.declared_outcome,
    ))
    &&& identifier_carries(message.provenance_id, value.provenance_id)
    &&& event_id_list_carries(message.outbox_event_ids@, value.outbox_event_ids)
    &&& durability_carries(message.durability_mode, value.durability_mode)
}

/// The parts of what every form of a commit record holds are valid.
pub open spec fn commit_parts_valid(value: CommitPartsView) -> bool {
    &&& value.commit_sequence.valid()
    &&& plan_valid(value.plan)
    &&& timestamp_valid(value.logical_time)
    &&& dependencies_valid(value.read_dependencies)
    &&& declared_outcome_valid(value.declared_outcome)
    &&& event_id_list_valid(value.outbox_event_ids)
}

/// Whether a message holds what is read of a commit before its read dependencies.
pub open spec fn commit_lead_carries(
    message: wire::CommitPartsV1,
    value: CommitPartsView,
) -> bool {
    &&& event_id_list_carries(message.outbox_event_ids@, value.outbox_event_ids)
    &&& message.commit_sequence == value.commit_sequence.value
    &&& identifier_carries(message.admission_request_id, value.admission_request_id)
    &&& (message.plan matches Some(part) && plan_carries(part, value.plan))
    &&& message.canonical_input_hash@ == value.canonical_input_hash.bytes@
    &&& (message.actor matches Some(part) && actor_carries(part, value.actor))
    &&& (message.logical_time matches Some(part) && timestamp_carries(part, value.logical_time))
    &&& message.partition_hash@ == value.partition_hash.bytes@
    &&& digests_carry(message.conflict_hashes@, value.conflict_hashes)
}

/// What is read of a commit before its read dependencies is valid.
pub open spec fn commit_lead_valid(value: CommitPartsView) -> bool {
    &&& event_id_list_valid(value.outbox_event_ids)
    &&& value.commit_sequence.valid()
    &&& plan_valid(value.plan)
    &&& timestamp_valid(value.logical_time)
}

/// Whether a message holds what is read of a commit after its read dependencies.
pub open spec fn commit_tail_carries(
    message: wire::CommitPartsV1,
    value: CommitPartsView,
) -> bool {
    &&& (message.declared_outcome matches Some(part) && declared_outcome_carries(
        part,
        value.declared_outcome,
    ))
    &&& identifier_carries(message.provenance_id, value.provenance_id)
    &&& durability_carries(message.durability_mode, value.durability_mode)
}

/// Whether the read dependencies of a commit are refused for a limit, and nothing that
/// is read before them is unsound.
pub open spec fn commit_parts_over_limit(message: wire::CommitPartsV1) -> bool {
    &&& (message.read_dependencies matches Some(part) && dependencies_over_limit(part))
    &&& exists|lead: CommitPartsView| #[trigger]
        commit_lead_carries(message, lead) && commit_lead_valid(lead)
}

/// A message is the form of at most one value.
pub proof fn commit_parts_form_is_exact(
    message: wire::CommitPartsV1,
    a: CommitPartsView,
    b: CommitPartsView,
)
    requires
        commit_parts_carries(message, a),
        commit_parts_carries(message, b),
        commit_parts_valid(a),
        commit_parts_valid(b),
    ensures
        a == b,
{
    assert(a.admission_request_id.bytes =~= b.admission_request_id.bytes);
    plan_form_is_exact(message.plan->Some_0, a.plan, b.plan);
    assert(a.canonical_input_hash.bytes =~= b.canonical_input_hash.bytes);
    actor_form_is_exact(message.actor->Some_0, a.actor, b.actor);
    timestamp_form_is_exact(message.logical_time->Some_0, a.logical_time, b.logical_time);
    assert(a.partition_hash.bytes =~= b.partition_hash.bytes);
    assert forall|i: int| 0 <= i < a.conflict_hashes.len()
        implies a.conflict_hashes[i] == b.conflict_hashes[i] by {
        assert(message.conflict_hashes@[i]@ == a.conflict_hashes[i].bytes@
            && message.conflict_hashes@[i]@ == b.conflict_hashes[i].bytes@);
        assert(a.conflict_hashes[i].bytes =~= b.conflict_hashes[i].bytes);
    }
    assert(a.conflict_hashes =~= b.conflict_hashes);
    dependencies_form_is_exact(
        message.read_dependencies->Some_0,
        a.read_dependencies,
        b.read_dependencies,
    );
    declared_outcome_form_is_exact(
        message.declared_outcome->Some_0,
        a.declared_outcome,
        b.declared_outcome,
    );
    assert(a.provenance_id.bytes =~= b.provenance_id.bytes);
    event_id_list_form_is_exact(message.outbox_event_ids@, a.outbox_event_ids, b.outbox_event_ids);
}

/// The message form of what every form of a commit record holds.
pub fn commit_parts_to_proto(value: &CommitParts) -> (result: wire::CommitPartsV1)
    ensures
        commit_parts_carries(result, value@),
{
    wire::CommitPartsV1 {
        commit_sequence: value.commit_sequence.get(),
        admission_request_id: identifier_to_wire(value.admission_request_id),
        plan: Some(plan_to_proto(&value.plan)),
        canonical_input_hash: copy_bytes(value.canonical_input_hash.bytes.as_slice()),
        actor: Some(actor_to_proto(&value.actor)),
        logical_time: Some(timestamp_to_proto(value.logical_time)),
        partition_hash: copy_bytes(value.partition_hash.bytes.as_slice()),
        conflict_hashes: digests_to_wire(&value.conflict_hashes),
        read_dependencies: Some(dependencies_to_proto(&value.read_dependencies)),
        declared_outcome: Some(declared_outcome_to_proto(&value.declared_outcome)),
        provenance_id: identifier_to_wire(value.provenance_id),
        outbox_event_ids: event_id_list_to_proto(&value.outbox_event_ids),
        durability_mode: durability_to_proto(value.durability_mode),
    }
}

/// What reading a message gives: the value that it is the form of, or why it is the form
/// of no valid one.
pub open spec fn commit_parts_read(
    message: wire::CommitPartsV1,
    result: Result<CommitParts, DurableCodecError>,
) -> bool {
    match result {
        Ok(held) => commit_parts_carries(message, held@) && commit_parts_valid(held@),
        Err(error) => error.kind == unread_failure(commit_parts_over_limit(message)) && forall|
            other: CommitPartsView,
        | #[trigger]
            commit_parts_carries(message, other) ==> !commit_parts_valid(other),
    }
}

struct CommitLead {
    outbox_event_ids: Vec<EventId>,
    commit_sequence: CommitSequence,
    admission_request_id: Identifier,
    plan: ExecutablePlanRef,
    canonical_input_hash: Digest,
    actor: AdmittedActorContext,
    logical_time: Timestamp,
    partition_hash: Digest,
    conflict_hashes: Vec<Digest>,
}

spec fn lead_view(lead: CommitLead) -> CommitPartsView {
    CommitPartsView {
        outbox_event_ids: lead.outbox_event_ids@,
        commit_sequence: lead.commit_sequence,
        admission_request_id: lead.admission_request_id,
        plan: lead.plan@,
        canonical_input_hash: lead.canonical_input_hash,
        actor: lead.actor@,
        logical_time: lead.logical_time,
        partition_hash: lead.partition_hash,
        conflict_hashes: lead.conflict_hashes@,
        ..arbitrary()
    }
}

fn commit_lead_from_proto(value: &wire::CommitPartsV1) -> (result: Result<
    CommitLead,
    DurableCodecError,
>)
    ensures
        match result {
            Ok(held) => commit_lead_carries(*value, lead_view(held)) && commit_lead_valid(
                lead_view(held),
            ),
            Err(error) => is_corrupt(error) && forall|other: CommitPartsView| #[trigger]
                commit_lead_carries(*value, other) ==> !commit_lead_valid(other),
        },
{
    let outbox_event_ids = event_id_list_from_proto(&value.outbox_event_ids)?;
    let commit_sequence = require(CommitSequence::new(value.commit_sequence))?;
    let admission_request_id = identifier_from_wire(&value.admission_request_id)?;
    let plan = plan_from_proto(require_ref(&value.plan)?)?;
    let canonical_input_hash = digest_from_wire(&value.canonical_input_hash)?;
    let actor = actor_from_proto(require_ref(&value.actor)?)?;
    let logical_time = timestamp_from_proto(require_ref(&value.logical_time)?)?;
    let partition_hash = digest_from_wire(&value.partition_hash)?;
    let conflict_hashes = digests_from_wire(&value.conflict_hashes)?;
    Ok(
        CommitLead {
            outbox_event_ids,
            commit_sequence,
            admission_request_id,
            plan,
            canonical_input_hash,
            actor,
            logical_time,
            partition_hash,
            conflict_hashes,
        },
    )
}

/// Reads what every form of a commit record holds.
pub fn commit_parts_from_proto(value: &wire::CommitPartsV1) -> (result: Result<
    CommitParts,
    DurableCodecError,
>)
    ensures
        commit_parts_read(*value, result),
{
    let lead = match commit_lead_from_proto(value) {
        Ok(lead) => lead,
        Err(error) => {
            assert forall|other: CommitPartsView| #[trigger]
                commit_parts_carries(*value, other) implies !commit_parts_valid(other) by {
                assert(commit_lead_carries(*value, other));
            }
            return Err(error);
        },
    };
    assert(commit_lead_carries(*value, lead_view(lead)));
    let read_dependencies = dependencies_from_proto(require_ref(&value.read_dependencies)?)?;
    let declared_outcome = declared_outcome_from_proto(require_ref(&value.declared_outcome)?)?;
    let provenance_id = identifier_from_wire(&value.provenance_id)?;
    let durability_mode = durability_from_proto(value.durability_mode)?;
    Ok(
        CommitParts {
            commit_sequence: lead.commit_sequence,
            admission_request_id: lead.admission_request_id,
            plan: lead.plan,
            canonical_input_hash: lead.canonical_input_hash,
            actor: lead.actor,
            logical_time: lead.logical_time,
            partition_hash: lead.partition_hash,
            conflict_hashes: lead.conflict_hashes,
            read_dependencies,
            declared_outcome,
            provenance_id,
            outbox_event_ids: lead.outbox_event_ids,
            durability_mode,
        },
    )
}

/// Whether what is read of a commit after its read dependencies is sound.
pub fn check_commit_tail(value: &wire::CommitPartsV1) -> (result: Result<(), DurableCodecError>)
    ensures
        match result {
            Ok(_) => commit_tail_readable(*value),
            Err(error) => is_corrupt(error) && !commit_tail_readable(*value),
        },
{
    let declared_outcome = declared_outcome_from_proto(require_ref(&value.declared_outcome)?)?;
    let provenance_id = identifier_from_wire(&value.provenance_id)?;
    let durability_mode = durability_from_proto(value.durability_mode)?;
    proof {
        let tail = CommitPartsView {
            declared_outcome: declared_outcome@,
            provenance_id,
            durability_mode,
            ..arbitrary()
        };
        assert(commit_tail_carries(*value, tail));
    }
    Ok(())
}

/// Whether a message holds sound parts that are read of a commit after its read
/// dependencies.
pub open spec fn commit_tail_readable(message: wire::CommitPartsV1) -> bool {
    exists|tail: CommitPartsView| #[trigger]
        commit_tail_carries(message, tail) && declared_outcome_valid(tail.declared_outcome)
}

/// Reading the message form of what every form of a commit record holds gives back what was
/// written.
pub proof fn commit_parts_round_trip(
    value: CommitPartsView,
    message: wire::CommitPartsV1,
    read: Result<CommitParts, DurableCodecError>,
)
    requires
        commit_parts_valid(value),
        commit_parts_carries(message, value),
        commit_parts_read(message, read),
    ensures
        read is Ok,
        read->Ok_0@ == value,
{
    if let Ok(held) = read {
        commit_parts_form_is_exact(message, held@, value);
    }
}

/// Encodes one authoritative entity row.
pub fn encode_entity_record_v1(value: &StoredEntityRecordV1) -> (result: OutgoingRecord<
    wire::StoredEntityRecordV1,
>)
    ensures
        result.record_type == RecordType::StoredEntityRecordV1,
        entity_carries(result.message, value@),
{
    OutgoingRecord {
        record_type: RecordType::StoredEntityRecordV1,
        message: entity_to_proto(value),
    }
}

/// Whether a message is the form of some valid value.
pub open spec fn entity_readable(message: wire::StoredEntityRecordV1) -> bool {
    exists|value: EntityRecordView| #[trigger] entity_carries(message, value) && entity_valid(value)
}

/// What decoding an entity record gives.
pub open spec fn entity_record_decoded<R: Fn(&StoredEntityRecordV1) -> Option<StorageValueError>>(
    attempt: ReadAttempt<wire::StoredEntityRecordV1>,
    rule: R,
    result: Result<EncodedPageItem<StoredEntityRecordV1>, DurableCodecError>,
) -> bool {
    match read_outcome(RecordType::StoredEntityRecordV1, attempt) {
        Err(kind) => result == Err::<EncodedPageItem<StoredEntityRecordV1>, _>(
            DurableCodecError { kind },
        ),
        Ok(message) => if entity_readable(message) {
            exists|value: StoredEntityRecordV1| {
                &&& entity_carries(message, value@)
                &&& entity_valid(value@)
                &&& #[trigger] ruled(rule, value, attempt.encoded_len, result)
            }
        } else {
            result == Err::<EncodedPageItem<StoredEntityRecordV1>, _>(
                DurableCodecError { kind: DurableCodecErrorKind::CorruptData },
            )
        },
    }
}

/// Decodes one authoritative entity row.
pub fn decode_entity_record_v1<R: Fn(&StoredEntityRecordV1) -> Option<StorageValueError>>(
    attempt: ReadAttempt<wire::StoredEntityRecordV1>,
    rule: R,
) -> (result: Result<EncodedPageItem<StoredEntityRecordV1>, DurableCodecError>)
    requires
        forall|value: &StoredEntityRecordV1| #[trigger] rule.requires((value,)),
    ensures
        entity_record_decoded(attempt, rule, result),
{
    let encoded_len = attempt.encoded_len;
    let message = read_message(RecordType::StoredEntityRecordV1, attempt)?;
    let value = entity_from_proto(&message)?;
    ruled_item(value, rule, encoded_len)
}

/// An entity record that was encoded decodes to what was written, charged for its
/// encoded bytes, where its own rule admits it.
pub proof fn entity_record_comes_back<R: Fn(&StoredEntityRecordV1) -> Option<StorageValueError>>(
    value: EntityRecordView,
    record: OutgoingRecord<wire::StoredEntityRecordV1>,
    attempt: ReadAttempt<wire::StoredEntityRecordV1>,
    rule: R,
    result: Result<EncodedPageItem<StoredEntityRecordV1>, DurableCodecError>,
)
    requires
        entity_valid(value),
        record.record_type == RecordType::StoredEntityRecordV1,
        entity_carries(record.message, value),
        reads_back(record, attempt),
        forall|held: StoredEntityRecordV1, verdict: Option<StorageValueError>|
            held@ == value && #[trigger] rule.ensures((&held,), verdict) ==> verdict is None,
        entity_record_decoded(attempt, rule, result),
    ensures
        result is Ok,
        result->Ok_0.value@ == value,
        result->Ok_0.charge.bytes == attempt.encoded_len,
{
    assert(entity_readable(record.message));
    let held = choose|held: StoredEntityRecordV1| {
        &&& entity_carries(record.message, held@)
        &&& entity_valid(held@)
        &&& #[trigger] ruled(rule, held, attempt.encoded_len, result)
    };
    entity_form_is_exact(record.message, held@, value);
}

/// Encodes one current authoritative index-entry post-image.
pub fn encode_index_entry_v2(value: &StoredIndexEntryV2) -> (result: OutgoingRecord<
    wire::StoredIndexEntryV2,
>)
    ensures
        result.record_type == RecordType::StoredIndexEntryV2,
        index_entry_carries(result.message, value@),
{
    OutgoingRecord {
        record_type: RecordType::StoredIndexEntryV2,
        message: index_entry_to_proto(value),
    }
}

/// Whether a message is the form of some valid value.
pub open spec fn index_entry_readable(message: wire::StoredIndexEntryV2) -> bool {
    exists|value: IndexEntryView| #[trigger] index_entry_carries(message, value)
        && index_entry_valid(value)
}

/// What decoding an index entry gives.
pub open spec fn index_entry_decoded<R: Fn(&StoredIndexEntryV2) -> Option<StorageValueError>>(
    attempt: ReadAttempt<wire::StoredIndexEntryV2>,
    rule: R,
    result: Result<EncodedPageItem<StoredIndexEntryV2>, DurableCodecError>,
) -> bool {
    match read_outcome(RecordType::StoredIndexEntryV2, attempt) {
        Err(kind) => result == Err::<EncodedPageItem<StoredIndexEntryV2>, _>(
            DurableCodecError { kind },
        ),
        Ok(message) => if index_entry_readable(message) {
            exists|value: StoredIndexEntryV2| {
                &&& index_entry_carries(message, value@)
                &&& index_entry_valid(value@)
                &&& #[trigger] ruled(rule, value, attempt.encoded_len, result)
            }
        } else {
            result == Err::<EncodedPageItem<StoredIndexEntryV2>, _>(
                DurableCodecError { kind: DurableCodecErrorKind::CorruptData },
            )
        },
    }
}

/// Decodes one current authoritative index-entry post-image.
pub fn decode_index_entry_v2<R: Fn(&StoredIndexEntryV2) -> Option<StorageValueError>>(
    attempt: ReadAttempt<wire::StoredIndexEntryV2>,
    rule: R,
) -> (result: Result<EncodedPageItem<StoredIndexEntryV2>, DurableCodecError>)
    requires
        forall|value: &StoredIndexEntryV2| #[trigger] rule.requires((value,)),
    ensures
        index_entry_decoded(attempt, rule, result),
{
    let encoded_len = attempt.encoded_len;
    let message = read_message(RecordType::StoredIndexEntryV2, attempt)?;
    let value = index_entry_from_proto(&message)?;
    ruled_item(value, rule, encoded_len)
}

/// Encodes one legacy index row for migration and compatibility fixtures; no writer uses it.
pub fn encode_index_entry_v1_fixture(value: &StoredIndexEntryV1) -> (result: OutgoingRecord<
    wire::StoredIndexEntryV1,
>)
    ensures
        result.record_type == RecordType::StoredIndexEntryV1,
        legacy_index_entry_carries(result.message, value@),
{
    OutgoingRecord {
        record_type: RecordType::StoredIndexEntryV1,
        message: legacy_index_entry_to_proto(value),
    }
}

/// Whether a message is the form of some valid value.
pub open spec fn legacy_index_entry_readable(message: wire::StoredIndexEntryV1) -> bool {
    exists|value: LegacyIndexEntryView| #[trigger] legacy_index_entry_carries(message, value)
        && legacy_index_entry_valid(value)
}

/// What decoding an index entry in its first form gives.
pub open spec fn legacy_index_entry_decoded<R: Fn(&StoredIndexEntryV1)
    -> Option<StorageValueError>>(
    attempt: ReadAttempt<wire::StoredIndexEntryV1>,
    rule: R,
    result: Result<EncodedPageItem<StoredIndexEntryV1>, DurableCodecError>,
) -> bool {
    match read_outcome(RecordType::StoredIndexEntryV1, attempt) {
        Err(kind) => result == Err::<EncodedPageItem<StoredIndexEntryV1>, _>(
            DurableCodecError { kind },
        ),
        Ok(message) => if legacy_index_entry_readable(message) {
            exists|value: StoredIndexEntryV1| {
                &&& legacy_index_entry_carries(message, value@)
                &&& legacy_index_entry_valid(value@)
                &&& #[trigger] ruled(rule, value, attempt.encoded_len, result)
            }
        } else {
            result == Err::<EncodedPageItem<StoredIndexEntryV1>, _>(
                DurableCodecError { kind: DurableCodecErrorKind::CorruptData },
            )
        },
    }
}

/// Decodes one legacy migration-only index-entry post-image.
pub fn decode_index_entry_v1<R: Fn(&StoredIndexEntryV1) -> Option<StorageValueError>>(
    attempt: ReadAttempt<wire::StoredIndexEntryV1>,
    rule: R,
) -> (result: Result<EncodedPageItem<StoredIndexEntryV1>, DurableCodecError>)
    requires
        forall|value: &StoredIndexEntryV1| #[trigger] rule.requires((value,)),
    ensures
        legacy_index_entry_decoded(attempt, rule, result),
{
    let encoded_len = attempt.encoded_len;
    let message = read_message(RecordType::StoredIndexEntryV1, attempt)?;
    let value = legacy_index_entry_from_proto(&message)?;
    ruled_item(value, rule, encoded_len)
}

/// An index entry that was encoded decodes to what was written, charged for its encoded
/// bytes, where its own rule admits it.
pub proof fn index_entry_comes_back<R: Fn(&StoredIndexEntryV2) -> Option<StorageValueError>>(
    value: IndexEntryView,
    record: OutgoingRecord<wire::StoredIndexEntryV2>,
    attempt: ReadAttempt<wire::StoredIndexEntryV2>,
    rule: R,
    result: Result<EncodedPageItem<StoredIndexEntryV2>, DurableCodecError>,
)
    requires
        index_entry_valid(value),
        record.record_type == RecordType::StoredIndexEntryV2,
        index_entry_carries(record.message, value),
        reads_back(record, attempt),
        forall|held: StoredIndexEntryV2, verdict: Option<StorageValueError>|
            held@ == value && #[trigger] rule.ensures((&held,), verdict) ==> verdict is None,
        index_entry_decoded(attempt, rule, result),
    ensures
        result is Ok,
        result->Ok_0.value@ == value,
        result->Ok_0.charge.bytes == attempt.encoded_len,
{
    assert(index_entry_readable(record.message));
    let held = choose|held: StoredIndexEntryV2| {
        &&& index_entry_carries(record.message, held@)
        &&& index_entry_valid(held@)
        &&& #[trigger] ruled(rule, held, attempt.encoded_len, result)
    };
    index_entry_form_is_exact(record.message, held@, value);
}

/// An index entry in its current form is not taken for one in its first form: the record
/// type is refused.
pub proof fn index_entry_is_not_legacy<R: Fn(&StoredIndexEntryV1) -> Option<StorageValueError>>(
    record: OutgoingRecord<wire::StoredIndexEntryV2>,
    attempt: ReadAttempt<wire::StoredIndexEntryV1>,
    rule: R,
    result: Result<EncodedPageItem<StoredIndexEntryV1>, DurableCodecError>,
)
    requires
        record.record_type == RecordType::StoredIndexEntryV2,
        reads_another(record.record_type, attempt),
        legacy_index_entry_decoded(attempt, rule, result),
    ensures
        result == Err::<EncodedPageItem<StoredIndexEntryV1>, _>(
            DurableCodecError { kind: DurableCodecErrorKind::UnexpectedRecordType },
        ),
{
}

/// Encodes one authoritative index-range epoch post-image.
pub fn encode_index_epoch_v1(value: &StoredIndexEpochV1) -> (result: OutgoingRecord<
    wire::StoredIndexGenerationV2,
>)
    ensures
        result.record_type == RecordType::StoredIndexGenerationV2,
        index_epoch_carries(result.message, value@),
{
    OutgoingRecord {
        record_type: RecordType::StoredIndexGenerationV2,
        message: index_epoch_to_proto(value),
    }
}

/// Whether a message is the form of some valid value.
pub open spec fn index_epoch_readable(message: wire::StoredIndexGenerationV2) -> bool {
    exists|value: IndexEpochView| #[trigger] index_epoch_carries(message, value)
        && index_epoch_valid(value)
}

/// Decodes one authoritative index-range epoch post-image.
pub fn decode_index_epoch_v1(
    attempt: ReadAttempt<wire::StoredIndexGenerationV2>,
) -> (result: Result<EncodedPageItem<StoredIndexEpochV1>, DurableCodecError>)
    ensures
        match read_outcome(RecordType::StoredIndexGenerationV2, attempt) {
            Err(kind) => result == Err::<EncodedPageItem<StoredIndexEpochV1>, _>(
                DurableCodecError { kind },
            ),
            Ok(message) => match refusal_of(
                index_epoch_readable(message),
                None,
                attempt.encoded_len,
            ) {
                Some(kind) => result == Err::<EncodedPageItem<StoredIndexEpochV1>, _>(
                    DurableCodecError { kind },
                ),
                None => result is Ok && index_epoch_carries(message, result->Ok_0.value@)
                    && index_epoch_valid(result->Ok_0.value@)
                    && result->Ok_0.charge.bytes == attempt.encoded_len,
            },
        },
{
    let encoded_len = attempt.encoded_len;
    let message = read_message(RecordType::StoredIndexGenerationV2, attempt)?;
    let value = index_epoch_from_proto(&message)?;
    admitted_item(value, None, encoded_len)
}

/// Encodes one historical prefix epoch for migration and compatibility fixtures.
pub fn encode_legacy_index_epoch_v1_fixture(
    value: &LegacyStoredIndexEpochV1,
) -> (result: OutgoingRecord<
    wire::StoredIndexEpochV1,
>)
    ensures
        result.record_type == RecordType::StoredIndexEpochV1,
        legacy_index_epoch_carries(result.message, value@),
{
    OutgoingRecord {
        record_type: RecordType::StoredIndexEpochV1,
        message: legacy_index_epoch_to_proto(value),
    }
}

/// Whether a message is the form of some valid value.
pub open spec fn legacy_index_epoch_readable(message: wire::StoredIndexEpochV1) -> bool {
    exists|value: LegacyIndexEpochView| #[trigger] legacy_index_epoch_carries(message, value)
        && legacy_index_epoch_valid(value)
}

/// Decodes one historical prefix epoch for the bounded generation migration.
pub fn decode_legacy_index_epoch_v1(
    attempt: ReadAttempt<wire::StoredIndexEpochV1>,
) -> (result: Result<EncodedPageItem<LegacyStoredIndexEpochV1>, DurableCodecError>)
    ensures
        match read_outcome(RecordType::StoredIndexEpochV1, attempt) {
            Err(kind) => result == Err::<EncodedPageItem<LegacyStoredIndexEpochV1>, _>(
                DurableCodecError { kind },
            ),
            Ok(message) => match refusal_of(
                legacy_index_epoch_readable(message),
                None,
                attempt.encoded_len,
            ) {
                Some(kind) => result == Err::<EncodedPageItem<LegacyStoredIndexEpochV1>, _>(
                    DurableCodecError { kind },
                ),
                None => result is Ok && legacy_index_epoch_carries(message, result->Ok_0.value@)
                    && legacy_index_epoch_valid(result->Ok_0.value@)
                    && result->Ok_0.charge.bytes == attempt.encoded_len,
            },
        },
{
    let encoded_len = attempt.encoded_len;
    let message = read_message(RecordType::StoredIndexEpochV1, attempt)?;
    let value = legacy_index_epoch_from_proto(&message)?;
    admitted_item(value, None, encoded_len)
}

/// Encodes one pending command admission.
pub fn encode_pending_admission_v1(value: &StoredPendingAdmissionV1) -> (result: OutgoingRecord<
    wire::StoredPendingAdmissionV2,
>)
    ensures
        result.record_type == RecordType::StoredPendingAdmissionV2,
        pending_v2_carries(result.message, value@),
{
    OutgoingRecord {
        record_type: RecordType::StoredPendingAdmissionV2,
        message: pending_v2_to_proto(value),
    }
}

/// Encodes one terminal deterministic execution failure.
pub fn encode_execution_failed_v1(value: &StoredExecutionFailedV1) -> (result: OutgoingRecord<
    wire::StoredExecutionFailedV2,
>)
    ensures
        result.record_type == RecordType::StoredExecutionFailedV2,
        execution_failed_carries(result.message, value@),
{
    OutgoingRecord {
        record_type: RecordType::StoredExecutionFailedV2,
        message: execution_failed_to_proto(value),
    }
}

/// Encodes the one complete terminal idempotency outcome row.
pub fn encode_stored_outcome_v1(value: &StoredOutcomeV1) -> (result: OutgoingRecord<
    wire::StoredOutcomeV2,
>)
    ensures
        result.record_type == RecordType::StoredOutcomeV2,
        outcome_v2_carries(result.message, value@),
{
    OutgoingRecord {
        record_type: RecordType::StoredOutcomeV2,
        message: outcome_v2_to_proto(value),
    }
}

/// Encodes one standalone authoritative durable event.
pub fn encode_durable_event_v1(value: &StoredDurableEventV1) -> (result: OutgoingRecord<
    wire::StoredDurableEventV1,
>)
    ensures
        result.record_type == RecordType::StoredDurableEventV1,
        event_carries(result.message, value@),
{
    OutgoingRecord {
        record_type: RecordType::StoredDurableEventV1,
        message: event_to_proto(value),
    }
}

/// Whether a message is the form of some valid value.
pub open spec fn event_readable(message: wire::StoredDurableEventV1) -> bool {
    exists|value: DurableEventView| #[trigger] event_carries(message, value) && event_valid(value)
}

/// Decodes one standalone authoritative durable event.
pub fn decode_durable_event_v1<R: Fn(&StoredDurableEventV1) -> Option<StorageValueError>>(
    attempt: ReadAttempt<wire::StoredDurableEventV1>,
    rule: R,
) -> (result: Result<EncodedPageItem<StoredDurableEventV1>, DurableCodecError>)
    requires
        forall|value: &StoredDurableEventV1| #[trigger] rule.requires((value,)),
    ensures
        match read_outcome(RecordType::StoredDurableEventV1, attempt) {
            Err(kind) => result == Err::<EncodedPageItem<StoredDurableEventV1>, _>(
                DurableCodecError { kind },
            ),
            Ok(message) => if event_readable(message) {
                exists|value: StoredDurableEventV1| {
                    &&& event_carries(message, value@)
                    &&& event_valid(value@)
                    &&& #[trigger] ruled(rule, value, attempt.encoded_len, result)
                }
            } else {
                result == Err::<EncodedPageItem<StoredDurableEventV1>, _>(
                    DurableCodecError { kind: DurableCodecErrorKind::CorruptData },
                )
            },
        },
{
    let encoded_len = attempt.encoded_len;
    let message = read_message(RecordType::StoredDurableEventV1, attempt)?;
    let value = event_from_proto(&message)?;
    ruled_item(value, rule, encoded_len)
}

/// Encodes one payload-free partition event route.
pub fn encode_event_route_v1(value: StoredEventRouteV1) -> (result: OutgoingRecord<
    wire::StoredEventRouteV1,
>)
    ensures
        result.record_type == RecordType::StoredEventRouteV1,
        event_route_carries(result.message, value),
{
    OutgoingRecord {
        record_type: RecordType::StoredEventRouteV1,
        message: event_route_to_proto(value),
    }
}

/// Whether a message is the form of some valid value.
pub open spec fn event_route_readable(message: wire::StoredEventRouteV1) -> bool {
    exists|value: StoredEventRouteV1| #[trigger] event_route_carries(message, value)
        && event_route_valid(value)
}

/// Decodes one payload-free partition event route.
pub fn decode_event_route_v1(
    attempt: ReadAttempt<wire::StoredEventRouteV1>,
) -> (result: Result<EncodedPageItem<StoredEventRouteV1>, DurableCodecError>)
    ensures
        match read_outcome(RecordType::StoredEventRouteV1, attempt) {
            Err(kind) => result == Err::<EncodedPageItem<StoredEventRouteV1>, _>(
                DurableCodecError { kind },
            ),
            Ok(message) => match refusal_of(
                event_route_readable(message),
                None,
                attempt.encoded_len,
            ) {
                Some(kind) => result == Err::<EncodedPageItem<StoredEventRouteV1>, _>(
                    DurableCodecError { kind },
                ),
                None => result is Ok && event_route_carries(message, result->Ok_0.value)
                    && event_route_valid(result->Ok_0.value)
                    && result->Ok_0.charge.bytes == attempt.encoded_len,
            },
        },
{
    let encoded_len = attempt.encoded_len;
    let message = read_message(RecordType::StoredEventRouteV1, attempt)?;
    let value = event_route_from_proto(&message)?;
    admitted_item(value, None, encoded_len)
}

/// Encodes one immutable command provenance record.
pub fn encode_provenance_record_v1(value: &StoredProvenanceRecordV1) -> (result: OutgoingRecord<
    wire::StoredProvenanceRecordV2,
>)
    ensures
        result.record_type == RecordType::StoredProvenanceRecordV2,
        provenance_v2_carries(result.message, value@),
{
    OutgoingRecord {
        record_type: RecordType::StoredProvenanceRecordV2,
        message: provenance_v2_to_proto(value),
    }
}

/// Encodes one pending admission in its legacy form for compatibility fixtures.
pub fn encode_pending_admission_legacy_v1_fixture(
    value: &PendingAdmissionBase,
) -> (result: OutgoingRecord<
    wire::StoredPendingAdmissionV1,
>)
    ensures
        result.record_type == RecordType::StoredPendingAdmissionV1,
        pending_carries(result.message, value@),
{
    OutgoingRecord {
        record_type: RecordType::StoredPendingAdmissionV1,
        message: pending_to_proto(value),
    }
}

/// Encodes one execution failure in its legacy form for compatibility fixtures.
pub fn encode_execution_failed_legacy_v1_fixture(
    value: &ExecutionFailedBase,
) -> (result: OutgoingRecord<
    wire::StoredExecutionFailedV1,
>)
    ensures
        result.record_type == RecordType::StoredExecutionFailedV1,
        execution_failed_legacy_carries(result.message, value@),
{
    OutgoingRecord {
        record_type: RecordType::StoredExecutionFailedV1,
        message: execution_failed_legacy_to_proto(value),
    }
}

/// Encodes one outcome in its legacy form for compatibility fixtures.
pub fn encode_stored_outcome_legacy_v1_fixture(value: &OutcomeBase) -> (result: OutgoingRecord<
    wire::StoredOutcomeV1,
>)
    ensures
        result.record_type == RecordType::StoredOutcomeV1,
        outcome_carries(result.message, value@),
{
    OutgoingRecord {
        record_type: RecordType::StoredOutcomeV1,
        message: outcome_to_proto(value),
    }
}

/// Encodes one provenance record in its legacy form for compatibility fixtures.
pub fn encode_provenance_record_legacy_v1_fixture(
    value: &ProvenanceBase,
) -> (result: OutgoingRecord<
    wire::StoredProvenanceRecordV1,
>)
    ensures
        result.record_type == RecordType::StoredProvenanceRecordV1,
        provenance_carries(result.message, value@),
{
    OutgoingRecord {
        record_type: RecordType::StoredProvenanceRecordV1,
        message: provenance_to_proto(value),
    }
}

/// Whether a message is the form of some valid value.
pub open spec fn pending_v2_readable(message: wire::StoredPendingAdmissionV2) -> bool {
    exists|value: PendingAdmissionView| #[trigger] pending_v2_carries(message, value)
        && pending_v2_valid(value)
}

/// Whether a message is the form of some valid value.
pub open spec fn pending_readable(message: wire::StoredPendingAdmissionV1) -> bool {
    exists|value: PendingAdmissionBaseView| #[trigger] pending_carries(message, value)
        && pending_valid(value)
}

/// Decodes one pending command admission; a legacy one has no causation.
pub fn decode_pending_admission_v1<R: Fn(&StoredPendingAdmissionV1) -> Option<StorageValueError>>(
    found: Result<RecordType, EnvelopeError>,
    current: ReadAttempt<wire::StoredPendingAdmissionV2>,
    legacy: ReadAttempt<wire::StoredPendingAdmissionV1>,
    rule: R,
) -> (result: Result<EncodedPageItem<StoredPendingAdmissionV1>, DurableCodecError>)
    requires
        forall|value: &StoredPendingAdmissionV1| #[trigger] rule.requires((value,)),
    ensures
        match variant_outcome(
            found,
            RecordType::StoredPendingAdmissionV2,
            RecordType::StoredPendingAdmissionV1,
        ) {
            Err(kind) => result == Err::<EncodedPageItem<StoredPendingAdmissionV1>, _>(
                DurableCodecError { kind },
            ),
            Ok(true) => match read_outcome(RecordType::StoredPendingAdmissionV2, current) {
                Err(kind) => result == Err::<EncodedPageItem<StoredPendingAdmissionV1>, _>(
                    DurableCodecError { kind },
                ),
                Ok(message) => if pending_v2_readable(message) {
                exists|value: StoredPendingAdmissionV1| {
                    &&& pending_v2_carries(message, value@)
                    &&& pending_v2_valid(value@)
                    &&& #[trigger] ruled(rule, value, current.encoded_len, result)
                }
            } else {
                result == Err::<EncodedPageItem<StoredPendingAdmissionV1>, _>(
                    DurableCodecError { kind: DurableCodecErrorKind::CorruptData },
                )
            },
            },
            Ok(false) => match read_outcome(RecordType::StoredPendingAdmissionV1, legacy) {
                Err(kind) => result == Err::<EncodedPageItem<StoredPendingAdmissionV1>, _>(
                    DurableCodecError { kind },
                ),
                Ok(message) => if pending_readable(message) {
                exists|value: StoredPendingAdmissionV1| {
                    &&& pending_carries(message, value@.base)
                    &&& pending_valid(value@.base)
                    &&& value@.causation is None
                    &&& #[trigger] ruled(rule, value, legacy.encoded_len, result)
                }
            } else {
                result == Err::<EncodedPageItem<StoredPendingAdmissionV1>, _>(
                    DurableCodecError { kind: DurableCodecErrorKind::CorruptData },
                )
            },
            },
        },
{
    if decode_record_variant(
        found,
        RecordType::StoredPendingAdmissionV2,
        RecordType::StoredPendingAdmissionV1,
    )? {
        let encoded_len = current.encoded_len;
        let message = read_message(RecordType::StoredPendingAdmissionV2, current)?;
        let value = pending_v2_from_proto(&message)?;
        ruled_item(value, rule, encoded_len)
    } else {
        let encoded_len = legacy.encoded_len;
        let message = read_message(RecordType::StoredPendingAdmissionV1, legacy)?;
        let base = pending_from_proto(&message)?;
        ruled_item(StoredPendingAdmissionV1 { base, causation: None }, rule, encoded_len)
    }
}

/// Whether a message is the form of some valid value.
pub open spec fn execution_failed_readable(message: wire::StoredExecutionFailedV2) -> bool {
    exists|value: ExecutionFailedView| #[trigger] execution_failed_carries(message, value)
        && execution_failed_valid(value)
}

/// Whether a message is the form of some valid value.
pub open spec fn execution_failed_legacy_readable(message: wire::StoredExecutionFailedV1) -> bool {
    exists|value: ExecutionFailedBaseView| #[trigger]
        execution_failed_legacy_carries(message, value) && execution_failed_legacy_valid(value)
}

/// Decodes one terminal deterministic execution failure; a legacy one has no causation.
pub fn decode_execution_failed_v1<R: Fn(&StoredExecutionFailedV1) -> Option<StorageValueError>>(
    found: Result<RecordType, EnvelopeError>,
    current: ReadAttempt<wire::StoredExecutionFailedV2>,
    legacy: ReadAttempt<wire::StoredExecutionFailedV1>,
    rule: R,
) -> (result: Result<EncodedPageItem<StoredExecutionFailedV1>, DurableCodecError>)
    requires
        forall|value: &StoredExecutionFailedV1| #[trigger] rule.requires((value,)),
    ensures
        match variant_outcome(
            found,
            RecordType::StoredExecutionFailedV2,
            RecordType::StoredExecutionFailedV1,
        ) {
            Err(kind) => result == Err::<EncodedPageItem<StoredExecutionFailedV1>, _>(
                DurableCodecError { kind },
            ),
            Ok(true) => match read_outcome(RecordType::StoredExecutionFailedV2, current) {
                Err(kind) => result == Err::<EncodedPageItem<StoredExecutionFailedV1>, _>(
                    DurableCodecError { kind },
                ),
                Ok(message) => if execution_failed_readable(message) {
                exists|value: StoredExecutionFailedV1| {
                    &&& execution_failed_carries(message, value@)
                    &&& execution_failed_valid(value@)
                    &&& #[trigger] ruled(rule, value, current.encoded_len, result)
                }
            } else {
                result == Err::<EncodedPageItem<StoredExecutionFailedV1>, _>(
                    DurableCodecError { kind: DurableCodecErrorKind::CorruptData },
                )
            },
            },
            Ok(false) => match read_outcome(RecordType::StoredExecutionFailedV1, legacy) {
                Err(kind) => result == Err::<EncodedPageItem<StoredExecutionFailedV1>, _>(
                    DurableCodecError { kind },
                ),
                Ok(message) => if execution_failed_legacy_readable(message) {
                exists|value: StoredExecutionFailedV1| {
                    &&& (exists|base: ExecutionFailedBaseView| #[trigger]
                        execution_failed_legacy_carries(message, base)
                            && execution_failed_legacy_valid(base)
                            && value@.pending.base == base.pending
                            && value@.code == base.code)
                    &&& value@.pending.causation is None
                    &&& #[trigger] ruled(rule, value, legacy.encoded_len, result)
                }
            } else {
                result == Err::<EncodedPageItem<StoredExecutionFailedV1>, _>(
                    DurableCodecError { kind: DurableCodecErrorKind::CorruptData },
                )
            },
            },
        },
{
    if decode_record_variant(
        found,
        RecordType::StoredExecutionFailedV2,
        RecordType::StoredExecutionFailedV1,
    )? {
        let encoded_len = current.encoded_len;
        let message = read_message(RecordType::StoredExecutionFailedV2, current)?;
        let value = execution_failed_from_proto(&message)?;
        ruled_item(value, rule, encoded_len)
    } else {
        let encoded_len = legacy.encoded_len;
        let message = read_message(RecordType::StoredExecutionFailedV1, legacy)?;
        let base = execution_failed_legacy_from_proto(&message)?;
        ruled_item(StoredExecutionFailedV1 {
                pending: StoredPendingAdmissionV1 { base: base.pending, causation: None },
                code: base.code,
            }, rule, encoded_len)
    }
}

/// Whether a message is the form of some valid value.
pub open spec fn outcome_v2_readable(message: wire::StoredOutcomeV2) -> bool {
    exists|value: StoredOutcomeView| #[trigger] outcome_v2_carries(message, value)
        && outcome_v2_valid(value)
}

/// Whether a message is the form of some valid value.
pub open spec fn outcome_readable(message: wire::StoredOutcomeV1) -> bool {
    exists|value: OutcomeBaseView| #[trigger] outcome_carries(message, value)
        && outcome_valid(value)
}

/// Decodes the one complete terminal idempotency outcome row; a legacy one has no causation.
pub fn decode_stored_outcome_v1<R: Fn(&StoredOutcomeV1) -> Option<StorageValueError>>(
    found: Result<RecordType, EnvelopeError>,
    current: ReadAttempt<wire::StoredOutcomeV2>,
    legacy: ReadAttempt<wire::StoredOutcomeV1>,
    rule: R,
) -> (result: Result<EncodedPageItem<StoredOutcomeV1>, DurableCodecError>)
    requires
        forall|value: &StoredOutcomeV1| #[trigger] rule.requires((value,)),
    ensures
        match variant_outcome(
            found,
            RecordType::StoredOutcomeV2,
            RecordType::StoredOutcomeV1,
        ) {
            Err(kind) => result == Err::<EncodedPageItem<StoredOutcomeV1>, _>(
                DurableCodecError { kind },
            ),
            Ok(true) => match read_outcome(RecordType::StoredOutcomeV2, current) {
                Err(kind) => result == Err::<EncodedPageItem<StoredOutcomeV1>, _>(
                    DurableCodecError { kind },
                ),
                Ok(message) => if outcome_v2_readable(message) {
                exists|value: StoredOutcomeV1| {
                    &&& outcome_v2_carries(message, value@)
                    &&& outcome_v2_valid(value@)
                    &&& #[trigger] ruled(rule, value, current.encoded_len, result)
                }
            } else {
                result == Err::<EncodedPageItem<StoredOutcomeV1>, _>(
                    DurableCodecError { kind: DurableCodecErrorKind::CorruptData },
                )
            },
            },
            Ok(false) => match read_outcome(RecordType::StoredOutcomeV1, legacy) {
                Err(kind) => result == Err::<EncodedPageItem<StoredOutcomeV1>, _>(
                    DurableCodecError { kind },
                ),
                Ok(message) => if outcome_readable(message) {
                exists|value: StoredOutcomeV1| {
                    &&& outcome_carries(message, value@.base)
                    &&& outcome_valid(value@.base)
                    &&& value@.causation is None
                    &&& #[trigger] ruled(rule, value, legacy.encoded_len, result)
                }
            } else {
                result == Err::<EncodedPageItem<StoredOutcomeV1>, _>(
                    DurableCodecError { kind: DurableCodecErrorKind::CorruptData },
                )
            },
            },
        },
{
    if decode_record_variant(found, RecordType::StoredOutcomeV2, RecordType::StoredOutcomeV1)? {
        let encoded_len = current.encoded_len;
        let message = read_message(RecordType::StoredOutcomeV2, current)?;
        let value = outcome_v2_from_proto(&message)?;
        ruled_item(value, rule, encoded_len)
    } else {
        let encoded_len = legacy.encoded_len;
        let message = read_message(RecordType::StoredOutcomeV1, legacy)?;
        let base = outcome_from_proto(&message)?;
        ruled_item(StoredOutcomeV1 { base, causation: None }, rule, encoded_len)
    }
}

/// Whether a message is the form of some valid value.
pub open spec fn provenance_v2_readable(message: wire::StoredProvenanceRecordV2) -> bool {
    exists|value: ProvenanceRecordView| #[trigger] provenance_v2_carries(message, value)
        && provenance_v2_valid(value)
}

/// Whether a message is the form of some valid value.
pub open spec fn provenance_readable(message: wire::StoredProvenanceRecordV1) -> bool {
    exists|value: ProvenanceBaseView| #[trigger] provenance_carries(message, value)
        && provenance_valid(value)
}

/// Decodes one immutable command provenance record; a legacy one has no causation.
pub fn decode_provenance_record_v1<R: Fn(&StoredProvenanceRecordV1) -> Option<StorageValueError>>(
    found: Result<RecordType, EnvelopeError>,
    current: ReadAttempt<wire::StoredProvenanceRecordV2>,
    legacy: ReadAttempt<wire::StoredProvenanceRecordV1>,
    rule: R,
) -> (result: Result<EncodedPageItem<StoredProvenanceRecordV1>, DurableCodecError>)
    requires
        forall|value: &StoredProvenanceRecordV1| #[trigger] rule.requires((value,)),
    ensures
        match variant_outcome(
            found,
            RecordType::StoredProvenanceRecordV2,
            RecordType::StoredProvenanceRecordV1,
        ) {
            Err(kind) => result == Err::<EncodedPageItem<StoredProvenanceRecordV1>, _>(
                DurableCodecError { kind },
            ),
            Ok(true) => match read_outcome(RecordType::StoredProvenanceRecordV2, current) {
                Err(kind) => result == Err::<EncodedPageItem<StoredProvenanceRecordV1>, _>(
                    DurableCodecError { kind },
                ),
                Ok(message) => if provenance_v2_readable(message) {
                exists|value: StoredProvenanceRecordV1| {
                    &&& provenance_v2_carries(message, value@)
                    &&& provenance_v2_valid(value@)
                    &&& #[trigger] ruled(rule, value, current.encoded_len, result)
                }
            } else {
                result == Err::<EncodedPageItem<StoredProvenanceRecordV1>, _>(
                    DurableCodecError { kind: DurableCodecErrorKind::CorruptData },
                )
            },
            },
            Ok(false) => match read_outcome(RecordType::StoredProvenanceRecordV1, legacy) {
                Err(kind) => result == Err::<EncodedPageItem<StoredProvenanceRecordV1>, _>(
                    DurableCodecError { kind },
                ),
                Ok(message) => if provenance_readable(message) {
                exists|value: StoredProvenanceRecordV1| {
                    &&& provenance_carries(message, value@.base)
                    &&& provenance_valid(value@.base)
                    &&& value@.causation is None
                    &&& #[trigger] ruled(rule, value, legacy.encoded_len, result)
                }
            } else {
                result == Err::<EncodedPageItem<StoredProvenanceRecordV1>, _>(
                    DurableCodecError { kind: DurableCodecErrorKind::CorruptData },
                )
            },
            },
        },
{
    if decode_record_variant(
        found,
        RecordType::StoredProvenanceRecordV2,
        RecordType::StoredProvenanceRecordV1,
    )? {
        let encoded_len = current.encoded_len;
        let message = read_message(RecordType::StoredProvenanceRecordV2, current)?;
        let value = provenance_v2_from_proto(&message)?;
        ruled_item(value, rule, encoded_len)
    } else {
        let encoded_len = legacy.encoded_len;
        let message = read_message(RecordType::StoredProvenanceRecordV1, legacy)?;
        let base = provenance_from_proto(&message)?;
        ruled_item(StoredProvenanceRecordV1 { base, causation: None }, rule, encoded_len)
    }
}

} // verus!
