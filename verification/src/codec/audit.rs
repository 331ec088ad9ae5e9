//! Service audit records as durable messages.

use vstd::prelude::*;

use crate::codec::common::{
    audit_principal_form_is_exact, audit_principal_valid, optional_audit_principal_carries,
    optional_audit_principal_from_proto, optional_audit_principal_to_proto, timestamp_carries,
    timestamp_form_is_exact, timestamp_from_proto, timestamp_to_proto, timestamp_valid,
};
use crate::codec::envelope::{
    admitted_item, read_message, read_outcome, refusal_of, ruled, ruled_item, OutgoingRecord,
    ReadAttempt,
};
use crate::codec::error::{is_corrupt, require, DurableCodecError, DurableCodecErrorKind};
use crate::codec::parts::{
    identifier_carries, identifier_from_wire, identifier_to_wire, key_carries, key_from_wire,
    key_to_wire, optional_text_carries, optional_text_from_wire, optional_text_to_wire, require_ref,
    tag_carries, tag_from_wire, tag_to_wire, text_carries, text_from_wire, text_to_wire,
};
use crate::codec::record_type::RecordType;
use crate::ids::{CommitSequence, Id32, Id64};
use crate::page::EncodedPageItem;
use crate::stored::audit::{
    are_targets_rebuilt, are_targets_v3_rebuilt, copy_target_list, copy_target_v3_list,
    target_v3_views, target_views, targets_rebuilt, targets_v3_rebuilt, AuditTargetV3View,
    AuditTargetView, CommandAuditLink, CommandTarget, CommandTargetView, ContractVersionTarget,
    ContractVersionTargetView, ControlPlaneAuditLink, EntityTypeTarget, EntityTypeTargetView,
    IndexTarget, IndexTargetView, ProjectionTarget, ProjectionTargetView,
    ReplicationFollowerAuditTargetV1, ServiceAuditLinkV1, ServiceAuditRecordV3View,
    ServiceAuditRecordView, ServiceAuditTargetV1, ServiceAuditTargetV3, StoredServiceAuditRecordV1,
    StoredServiceAuditRecordV3, StoredServiceAuditRequestIndexV1,
};
use crate::value_error::StorageValueError;
use crate::wire;

verus! {

/// Whether a message is the form of an audited contract version.
pub open spec fn contract_version_target_carries(
    message: wire::ContractVersionAuditTargetV1,
    value: ContractVersionTargetView,
) -> bool {
    &&& text_carries(message.contract_lineage, value.lineage)
    &&& message.contract_version == value.version.value
}

/// The parts of an audited contract version are valid.
pub open spec fn contract_version_target_valid(value: ContractVersionTargetView) -> bool {
    &&& value.version.valid()
}

/// A message is the form of at most one value.
pub proof fn contract_version_target_form_is_exact(
    message: wire::ContractVersionAuditTargetV1,
    a: ContractVersionTargetView,
    b: ContractVersionTargetView,
)
    requires
        contract_version_target_carries(message, a),
        contract_version_target_carries(message, b),
    ensures
        a == b,
{
}

/// The message form of an audited contract version.
pub fn contract_version_target_to_proto(
    value: &ContractVersionTarget,
) -> (result: wire::ContractVersionAuditTargetV1)
    ensures
        contract_version_target_carries(result, value@),
{
    wire::ContractVersionAuditTargetV1 {
        contract_lineage: text_to_wire(&value.lineage),
        contract_version: value.version.get(),
    }
}

/// Reads an audited contract version.
pub fn contract_version_target_from_proto(
    value: &wire::ContractVersionAuditTargetV1,
) -> (result: Result<
    ContractVersionTarget,
    DurableCodecError,
>)
    ensures
        match result {
            Ok(held) =>
                contract_version_target_carries(*value, held@)
                    && contract_version_target_valid(held@),
            Err(error) => is_corrupt(error) && forall|other: ContractVersionTargetView| #[trigger]
                contract_version_target_carries(*value, other)
                    ==> !contract_version_target_valid(other),
        },
{
    let lineage = text_from_wire(&value.contract_lineage)?;
    let version = require(Id64::new(value.contract_version))?;
    Ok(ContractVersionTarget { lineage, version })
}

/// Whether a message is the form of an audited entity type.
pub open spec fn entity_type_target_carries(
    message: wire::EntityTypeAuditTargetV1,
    value: EntityTypeTargetView,
) -> bool {
    &&& text_carries(message.contract_lineage, value.lineage)
    &&& message.entity_type_id == value.entity_type_id.value
}

/// The parts of an audited entity type are valid.
pub open spec fn entity_type_target_valid(value: EntityTypeTargetView) -> bool {
    &&& value.entity_type_id.valid()
}

/// A message is the form of at most one value.
pub proof fn entity_type_target_form_is_exact(
    message: wire::EntityTypeAuditTargetV1,
    a: EntityTypeTargetView,
    b: EntityTypeTargetView,
)
    requires
        entity_type_target_carries(message, a),
        entity_type_target_carries(message, b),
    ensures
        a == b,
{
}

/// The message form of an audited entity type.
pub fn entity_type_target_to_proto(
    value: &EntityTypeTarget,
) -> (result: wire::EntityTypeAuditTargetV1)
    ensures
        entity_type_target_carries(result, value@),
{
    wire::EntityTypeAuditTargetV1 {
        contract_lineage: text_to_wire(&value.lineage),
        entity_type_id: value.entity_type_id.get(),
    }
}

/// Reads an audited entity type.
pub fn entity_type_target_from_proto(value: &wire::EntityTypeAuditTargetV1) -> (result: Result<
    EntityTypeTarget,
    DurableCodecError,
>)
    ensures
        match result {
            Ok(held) =>
                entity_type_target_carries(*value, held@) && entity_type_target_valid(held@),
            Err(error) => is_corrupt(error) && forall|other: EntityTypeTargetView| #[trigger]
                entity_type_target_carries(*value, other) ==> !entity_type_target_valid(other),
        },
{
    let lineage = text_from_wire(&value.contract_lineage)?;
    let entity_type_id = require(Id32::new(value.entity_type_id))?;
    Ok(EntityTypeTarget { lineage, entity_type_id })
}

/// Whether a message is the form of an audited command.
pub open spec fn command_target_carries(
    message: wire::CommandAuditTargetV1,
    value: CommandTargetView,
) -> bool {
    &&& text_carries(message.contract_lineage, value.lineage)
    &&& message.command_id == value.command_id.value
}

/// The parts of an audited command are valid.
pub open spec fn command_target_valid(value: CommandTargetView) -> bool {
    &&& value.command_id.valid()
}

/// A message is the form of at most one value.
pub proof fn command_target_form_is_exact(
    message: wire::CommandAuditTargetV1,
    a: CommandTargetView,
    b: CommandTargetView,
)
    requires
        command_target_carries(message, a),
        command_target_carries(message, b),
    ensures
        a == b,
{
}

/// The message form of an audited command.
pub fn command_target_to_proto(value: &CommandTarget) -> (result: wire::CommandAuditTargetV1)
    ensures
        command_target_carries(result, value@),
{
    wire::CommandAuditTargetV1 {
        contract_lineage: text_to_wire(&value.lineage),
        command_id: value.command_id.get(),
    }
}

/// Reads an audited command.
pub fn command_target_from_proto(value: &wire::CommandAuditTargetV1) -> (result: Result<
    CommandTarget,
    DurableCodecError,
>)
    ensures
        match result {
            Ok(held) => command_target_carries(*value, held@) && command_target_valid(held@),
            Err(error) => is_corrupt(error) && forall|other: CommandTargetView| #[trigger]
                command_target_carries(*value, other) ==> !command_target_valid(other),
        },
{
    let lineage = text_from_wire(&value.contract_lineage)?;
    let command_id = require(Id32::new(value.command_id))?;
    Ok(CommandTarget { lineage, command_id })
}

/// Whether a message is the form of an audited projection.
pub open spec fn projection_target_carries(
    message: wire::ProjectionAuditTargetV1,
    value: ProjectionTargetView,
) -> bool {
    &&& text_carries(message.contract_lineage, value.lineage)
    &&& message.projection_id == value.projection_id.value
}

/// The parts of an audited projection are valid.
pub open spec fn projection_target_valid(value: ProjectionTargetView) -> bool {
    &&& value.projection_id.valid()
}

/// A message is the form of at most one value.
pub proof fn projection_target_form_is_exact(
    message: wire::ProjectionAuditTargetV1,
    a: ProjectionTargetView,
    b: ProjectionTargetView,
)
    requires
        projection_target_carries(message, a),
        projection_target_carries(message, b),
    ensures
        a == b,
{
}

/// The message form of an audited projection.
pub fn projection_target_to_proto(
    value: &ProjectionTarget,
) -> (result: wire::ProjectionAuditTargetV1)
    ensures
        projection_target_carries(result, value@),
{
    wire::ProjectionAuditTargetV1 {
        contract_lineage: text_to_wire(&value.lineage),
        projection_id: value.projection_id.get(),
    }
}

/// Reads an audited projection.
pub fn projection_target_from_proto(value: &wire::ProjectionAuditTargetV1) -> (result: Result<
    ProjectionTarget,
    DurableCodecError,
>)
    ensures
        match result {
            Ok(held) => projection_target_carries(*value, held@) && projection_target_valid(held@),
            Err(error) => is_corrupt(error) && forall|other: ProjectionTargetView| #[trigger]
                projection_target_carries(*value, other) ==> !projection_target_valid(other),
        },
{
    let lineage = text_from_wire(&value.contract_lineage)?;
    let projection_id = require(Id32::new(value.projection_id))?;
    Ok(ProjectionTarget { lineage, projection_id })
}

/// Whether a message is the form of an audited index.
pub open spec fn index_target_carries(
    message: wire::IndexAuditTargetV1,
    value: IndexTargetView,
) -> bool {
    &&& text_carries(message.contract_lineage, value.lineage)
    &&& message.index_id == value.index_id.value
}

/// The parts of an audited index are valid.
pub open spec fn index_target_valid(value: IndexTargetView) -> bool {
    &&& value.index_id.valid()
}

/// A message is the form of at most one value.
pub proof fn index_target_form_is_exact(
    message: wire::IndexAuditTargetV1,
    a: IndexTargetView,
    b: IndexTargetView,
)
    requires
        index_target_carries(message, a),
        index_target_carries(message, b),
    ensures
        a == b,
{
}

/// The message form of an audited index.
pub fn index_target_to_proto(value: &IndexTarget) -> (result: wire::IndexAuditTargetV1)
    ensures
        index_target_carries(result, value@),
{
    wire::IndexAuditTargetV1 {
        contract_lineage: text_to_wire(&value.lineage),
        index_id: value.index_id.get(),
    }
}

/// Reads an audited index.
pub fn index_target_from_proto(value: &wire::IndexAuditTargetV1) -> (result: Result<
    IndexTarget,
    DurableCodecError,
>)
    ensures
        match result {
            Ok(held) => index_target_carries(*value, held@) && index_target_valid(held@),
            Err(error) => is_corrupt(error) && forall|other: IndexTargetView| #[trigger]
                index_target_carries(*value, other) ==> !index_target_valid(other),
        },
{
    let lineage = text_from_wire(&value.contract_lineage)?;
    let index_id = require(Id32::new(value.index_id))?;
    Ok(IndexTarget { lineage, index_id })
}

/// Whether a message is the form of a target of a service audit record.
pub open spec fn target_carries(
    message: wire::ServiceAuditTargetV1,
    value: AuditTargetView,
) -> bool {
    match value {
        AuditTargetView::ContractLineage(part) => message.target matches Some(
            wire::ServiceAuditTargetV1Target::ContractLineage(form),
        ) && text_carries(form, part),
        AuditTargetView::ContractVersion(part) => message.target matches Some(
            wire::ServiceAuditTargetV1Target::ContractVersion(form),
        ) && contract_version_target_carries(form, part),
        AuditTargetView::EntityType(part) => message.target matches Some(
            wire::ServiceAuditTargetV1Target::EntityType(form),
        ) && entity_type_target_carries(form, part),
        AuditTargetView::Command(part) => message.target matches Some(
            wire::ServiceAuditTargetV1Target::Command(form),
        ) && command_target_carries(form, part),
        AuditTargetView::Projection(part) => message.target matches Some(
            wire::ServiceAuditTargetV1Target::Projection(form),
        ) && projection_target_carries(form, part),
        AuditTargetView::Index(part) => message.target matches Some(
            wire::ServiceAuditTargetV1Target::Index(form),
        ) && index_target_carries(form, part),
        AuditTargetView::Commit(part) => message.target matches Some(
            wire::ServiceAuditTargetV1Target::CommitSequence(form),
        ) && form == part.value,
        AuditTargetView::Provenance(part) => message.target matches Some(
            wire::ServiceAuditTargetV1Target::ProvenanceId(form),
        ) && identifier_carries(form, part),
        AuditTargetView::Capability(part) => message.target matches Some(
            wire::ServiceAuditTargetV1Target::CapabilityId(form),
        ) && identifier_carries(form, part),
    }
}

/// The parts of a target of a service audit record are valid.
pub open spec fn target_valid(value: AuditTargetView) -> bool {
    match value {
        AuditTargetView::ContractLineage(part) => true,
        AuditTargetView::ContractVersion(part) => contract_version_target_valid(part),
        AuditTargetView::EntityType(part) => entity_type_target_valid(part),
        AuditTargetView::Command(part) => command_target_valid(part),
        AuditTargetView::Projection(part) => projection_target_valid(part),
        AuditTargetView::Index(part) => index_target_valid(part),
        AuditTargetView::Commit(part) => part.valid(),
        AuditTargetView::Provenance(part) => true,
        AuditTargetView::Capability(part) => true,
    }
}

/// A message is the form of at most one value.
pub proof fn target_form_is_exact(
    message: wire::ServiceAuditTargetV1,
    a: AuditTargetView,
    b: AuditTargetView,
)
    requires
        target_carries(message, a),
        target_carries(message, b),
    ensures
        a == b,
{
    match (a, b) {
        (AuditTargetView::ContractVersion(part), AuditTargetView::ContractVersion(other)) => {
            if let Some(wire::ServiceAuditTargetV1Target::ContractVersion(form)) = message.target {
                contract_version_target_form_is_exact(form, part, other);
            }
        },
        (AuditTargetView::EntityType(part), AuditTargetView::EntityType(other)) => {
            if let Some(wire::ServiceAuditTargetV1Target::EntityType(form)) = message.target {
                entity_type_target_form_is_exact(form, part, other);
            }
        },
        (AuditTargetView::Command(part), AuditTargetView::Command(other)) => {
            if let Some(wire::ServiceAuditTargetV1Target::Command(form)) = message.target {
                command_target_form_is_exact(form, part, other);
            }
        },
        (AuditTargetView::Projection(part), AuditTargetView::Projection(other)) => {
            if let Some(wire::ServiceAuditTargetV1Target::Projection(form)) = message.target {
                projection_target_form_is_exact(form, part, other);
            }
        },
        (AuditTargetView::Index(part), AuditTargetView::Index(other)) => {
            if let Some(wire::ServiceAuditTargetV1Target::Index(form)) = message.target {
                index_target_form_is_exact(form, part, other);
            }
        },
        (AuditTargetView::Provenance(part), AuditTargetView::Provenance(other)) => {
            if let Some(wire::ServiceAuditTargetV1Target::ProvenanceId(form)) = message.target {
                assert(part.bytes =~= other.bytes);
            }
        },
        (AuditTargetView::Capability(part), AuditTargetView::Capability(other)) => {
            if let Some(wire::ServiceAuditTargetV1Target::CapabilityId(form)) = message.target {
                assert(part.bytes =~= other.bytes);
            }
        },
        _ => {},
    }
}

/// The message form of a target of a service audit record.
pub fn target_to_proto(value: &ServiceAuditTargetV1) -> (result: wire::ServiceAuditTargetV1)
    ensures
        target_carries(result, value@),
{
    let form = match value {
        ServiceAuditTargetV1::ContractLineage(part) =>
            wire::ServiceAuditTargetV1Target::ContractLineage(
            text_to_wire(part),
        ),
        ServiceAuditTargetV1::ContractVersion(part) =>
            wire::ServiceAuditTargetV1Target::ContractVersion(
            contract_version_target_to_proto(part),
        ),
        ServiceAuditTargetV1::EntityType(part) => wire::ServiceAuditTargetV1Target::EntityType(
            entity_type_target_to_proto(part),
        ),
        ServiceAuditTargetV1::Command(part) => wire::ServiceAuditTargetV1Target::Command(
            command_target_to_proto(part),
        ),
        ServiceAuditTargetV1::Projection(part) => wire::ServiceAuditTargetV1Target::Projection(
            projection_target_to_proto(part),
        ),
        ServiceAuditTargetV1::Index(part) => wire::ServiceAuditTargetV1Target::Index(
            index_target_to_proto(part),
        ),
        ServiceAuditTargetV1::Commit(part) => wire::ServiceAuditTargetV1Target::CommitSequence(
            part.get(),
        ),
        ServiceAuditTargetV1::Provenance(part) => wire::ServiceAuditTargetV1Target::ProvenanceId(
            identifier_to_wire(*part),
        ),
        ServiceAuditTargetV1::Capability(part) => wire::ServiceAuditTargetV1Target::CapabilityId(
            identifier_to_wire(*part),
        ),
    };
    wire::ServiceAuditTargetV1 { target: Some(form) }
}

/// Reads a target of a service audit record.
pub fn target_from_proto(value: &wire::ServiceAuditTargetV1) -> (result: Result<
    ServiceAuditTargetV1,
    DurableCodecError,
>)
    ensures
        match result {
            Ok(held) => target_carries(*value, held@) && target_valid(held@),
            Err(error) => is_corrupt(error) && forall|other: AuditTargetView| #[trigger]
                target_carries(*value, other) ==> !target_valid(other),
        },
{
    match require_ref(&value.target)? {
        wire::ServiceAuditTargetV1Target::ContractLineage(form) => {
            let part = text_from_wire(form)?;
            Ok(ServiceAuditTargetV1::ContractLineage(part))
        },
        wire::ServiceAuditTargetV1Target::ContractVersion(form) => {
            let part = contract_version_target_from_proto(form)?;
            Ok(ServiceAuditTargetV1::ContractVersion(part))
        },
        wire::ServiceAuditTargetV1Target::EntityType(form) => {
            let part = entity_type_target_from_proto(form)?;
            Ok(ServiceAuditTargetV1::EntityType(part))
        },
        wire::ServiceAuditTargetV1Target::Command(form) => {
            let part = command_target_from_proto(form)?;
            Ok(ServiceAuditTargetV1::Command(part))
        },
        wire::ServiceAuditTargetV1Target::Projection(form) => {
            let part = projection_target_from_proto(form)?;
            Ok(ServiceAuditTargetV1::Projection(part))
        },
        wire::ServiceAuditTargetV1Target::Index(form) => {
            let part = index_target_from_proto(form)?;
            Ok(ServiceAuditTargetV1::Index(part))
        },
        wire::ServiceAuditTargetV1Target::CommitSequence(form) => {
            let part = require(CommitSequence::new(*form))?;
            Ok(ServiceAuditTargetV1::Commit(part))
        },
        wire::ServiceAuditTargetV1Target::ProvenanceId(form) => {
            let part = identifier_from_wire(form)?;
            Ok(ServiceAuditTargetV1::Provenance(part))
        },
        wire::ServiceAuditTargetV1Target::CapabilityId(form) => {
            let part = identifier_from_wire(form)?;
            Ok(ServiceAuditTargetV1::Capability(part))
        },
    }
}

/// Whether messages are the forms of values, one by one.
pub open spec fn target_list_carries(
    messages: Seq<wire::ServiceAuditTargetV1>,
    values: Seq<AuditTargetView>,
) -> bool {
    &&& messages.len() == values.len()
    &&& forall|i: int|
        0 <= i < messages.len() ==> target_carries(#[trigger] messages[i], values[i])
}

/// All values are valid.
pub open spec fn target_list_valid(values: Seq<AuditTargetView>) -> bool {
    forall|i: int| 0 <= i < values.len() ==> target_valid(#[trigger] values[i])
}

/// Messages are the forms of at most one list of values.
pub proof fn target_list_form_is_exact(
    messages: Seq<wire::ServiceAuditTargetV1>,
    a: Seq<AuditTargetView>,
    b: Seq<AuditTargetView>,
)
    requires
        target_list_carries(messages, a),
        target_list_carries(messages, b),
    ensures
        a == b,
{
    assert forall|i: int| 0 <= i < a.len() implies a[i] == b[i] by {
        assert(target_carries(messages[i], a[i]) && target_carries(messages[i], b[i]));
        target_form_is_exact(messages[i], a[i], b[i]);
    }
    assert(a =~= b);
}

/// The message forms of values.
pub fn target_list_to_proto(
    values: &[ServiceAuditTargetV1],
) -> (result: Vec<wire::ServiceAuditTargetV1>)
    ensures
        target_list_carries(result@, target_views(values@)),
{
    let mut result: Vec<wire::ServiceAuditTargetV1> = Vec::new();
    let mut i: usize = 0;
    while i < values.len()
        invariant
            i <= values@.len(),
            result@.len() == i,
            forall|k: int| 0 <= k < i ==> target_carries(#[trigger] result@[k], values@[k]@),
        decreases values@.len() - i,
    {
        result.push(target_to_proto(&values[i]));
        i += 1;
    }
    result
}

/// Reads values from their message forms.
pub fn target_list_from_proto(values: &[wire::ServiceAuditTargetV1]) -> (result: Result<
    Vec<ServiceAuditTargetV1>,
    DurableCodecError,
>)
    ensures
        match result {
            Ok(held) => target_list_carries(
                values@,
                target_views(held@),
            ) && target_list_valid(target_views(held@)),
            Err(error) => is_corrupt(error) && forall|other: Seq<AuditTargetView>| #[trigger]
                target_list_carries(values@, other) ==> !target_list_valid(other),
        },
{
    let mut result: Vec<ServiceAuditTargetV1> = Vec::new();
    let mut i: usize = 0;
    while i < values.len()
        invariant
            i <= values@.len(),
            result@.len() == i,
            forall|k: int|
                0 <= k < i ==> target_carries(values@[k], #[trigger] result@[k]@)
                    && target_valid(result@[k]@),
        decreases values@.len() - i,
    {
        match target_from_proto(&values[i]) {
            Ok(held) => {
                result.push(held);
            },
            Err(error) => {
                assert forall|other: Seq<AuditTargetView>| #[trigger]
                    target_list_carries(values@, other) implies !target_list_valid(other) by {
                    assert(target_carries(values@[i as int], other[i as int]));
                    assert(!target_valid(other[i as int]));
                }
                return Err(error);
            },
        }
        i += 1;
    }
    Ok(result)
}

/// Whether a message is the form of a replication follower by the hold that it has.
pub open spec fn follower_target_carries(
    message: wire::ReplicationFollowerAuditTargetV3,
    value: ReplicationFollowerAuditTargetV1,
) -> bool {
    &&& identifier_carries(message.database_id, value.database_id)
    &&& message.history_incarnation == value.history_incarnation
    &&& message.leadership_epoch == value.leadership_epoch.value
    &&& identifier_carries(message.hold_id, value.hold_id)
    &&& message.admitted
}

/// The parts of a replication follower by the hold that it has are valid.
pub open spec fn follower_target_valid(value: ReplicationFollowerAuditTargetV1) -> bool {
    &&& value.leadership_epoch.valid()
}

/// A message is the form of at most one value.
pub proof fn follower_target_form_is_exact(
    message: wire::ReplicationFollowerAuditTargetV3,
    a: ReplicationFollowerAuditTargetV1,
    b: ReplicationFollowerAuditTargetV1,
)
    requires
        follower_target_carries(message, a),
        follower_target_carries(message, b),
    ensures
        a == b,
{
    assert(a.database_id.bytes =~= b.database_id.bytes);
    assert(a.hold_id.bytes =~= b.hold_id.bytes);
}

/// The message form of a replication follower by the hold that it has.
pub fn follower_target_to_proto(
    value: ReplicationFollowerAuditTargetV1,
) -> (result: wire::ReplicationFollowerAuditTargetV3)
    ensures
        follower_target_carries(result, value),
{
    wire::ReplicationFollowerAuditTargetV3 {
        database_id: identifier_to_wire(value.database_id),
        history_incarnation: value.history_incarnation,
        leadership_epoch: value.leadership_epoch.get(),
        hold_id: identifier_to_wire(value.hold_id),
        admitted: true,
    }
}

/// Reads a replication follower by the hold that it has.
pub fn follower_target_from_proto(
    value: &wire::ReplicationFollowerAuditTargetV3,
) -> (result: Result<
    ReplicationFollowerAuditTargetV1,
    DurableCodecError,
>)
    ensures
        match result {
            Ok(held) => follower_target_carries(*value, held) && follower_target_valid(held),
            Err(error) =>
                is_corrupt(error) && forall|other: ReplicationFollowerAuditTargetV1| #[trigger]
                follower_target_carries(*value, other) ==> !follower_target_valid(other),
        },
{
    let database_id = identifier_from_wire(&value.database_id)?;
    let history_incarnation = value.history_incarnation;
    let leadership_epoch = require(Id64::new(value.leadership_epoch))?;
    let hold_id = identifier_from_wire(&value.hold_id)?;
    if !value.admitted {
        return Err(DurableCodecError::corrupt());
    }
    Ok(
        ReplicationFollowerAuditTargetV1 {
            database_id,
            history_incarnation,
            leadership_epoch,
            hold_id,
        },
    )
}

/// Whether a message is the form of a target of a service audit record of the third form.
pub open spec fn target_v3_carries(
    message: wire::ServiceAuditTargetV3,
    value: AuditTargetV3View,
) -> bool {
    match value {
        AuditTargetV3View::ContractLineage(part) => message.target matches Some(
            wire::ServiceAuditTargetV3Target::ContractLineage(form),
        ) && text_carries(form, part),
        AuditTargetV3View::ContractVersion(part) => message.target matches Some(
            wire::ServiceAuditTargetV3Target::ContractVersion(form),
        ) && contract_version_target_carries(form, part),
        AuditTargetV3View::EntityType(part) => message.target matches Some(
            wire::ServiceAuditTargetV3Target::EntityType(form),
        ) && entity_type_target_carries(form, part),
        AuditTargetV3View::Command(part) => message.target matches Some(
            wire::ServiceAuditTargetV3Target::Command(form),
        ) && command_target_carries(form, part),
        AuditTargetV3View::Projection(part) => message.target matches Some(
            wire::ServiceAuditTargetV3Target::Projection(form),
        ) && projection_target_carries(form, part),
        AuditTargetV3View::Index(part) => message.target matches Some(
            wire::ServiceAuditTargetV3Target::Index(form),
        ) && index_target_carries(form, part),
        AuditTargetV3View::Commit(part) => message.target matches Some(
            wire::ServiceAuditTargetV3Target::CommitSequence(form),
        ) && form == part.value,
        AuditTargetV3View::Provenance(part) => message.target matches Some(
            wire::ServiceAuditTargetV3Target::ProvenanceId(form),
        ) && identifier_carries(form, part),
        AuditTargetV3View::Capability(part) => message.target matches Some(
            wire::ServiceAuditTargetV3Target::CapabilityId(form),
        ) && identifier_carries(form, part),
        AuditTargetV3View::EventConsumer(part) => message.target matches Some(
            wire::ServiceAuditTargetV3Target::EventConsumer(form),
        ) && key_carries(form, part),
        AuditTargetV3View::ReplicationFollower(part) => message.target matches Some(
            wire::ServiceAuditTargetV3Target::ReplicationFollower(form),
        ) && follower_target_carries(form, part),
    }
}

/// The parts of a target of a service audit record of the third form are valid.
pub open spec fn target_v3_valid(value: AuditTargetV3View) -> bool {
    match value {
        AuditTargetV3View::ContractLineage(part) => true,
        AuditTargetV3View::ContractVersion(part) => contract_version_target_valid(part),
        AuditTargetV3View::EntityType(part) => entity_type_target_valid(part),
        AuditTargetV3View::Command(part) => command_target_valid(part),
        AuditTargetV3View::Projection(part) => projection_target_valid(part),
        AuditTargetV3View::Index(part) => index_target_valid(part),
        AuditTargetV3View::Commit(part) => part.valid(),
        AuditTargetV3View::Provenance(part) => true,
        AuditTargetV3View::Capability(part) => true,
        AuditTargetV3View::EventConsumer(part) => true,
        AuditTargetV3View::ReplicationFollower(part) => follower_target_valid(part),
    }
}

/// A message is the form of at most one value.
pub proof fn target_v3_form_is_exact(
    message: wire::ServiceAuditTargetV3,
    a: AuditTargetV3View,
    b: AuditTargetV3View,
)
    requires
        target_v3_carries(message, a),
        target_v3_carries(message, b),
    ensures
        a == b,
{
    match (a, b) {
        (AuditTargetV3View::ContractVersion(part), AuditTargetV3View::ContractVersion(other)) => {
            if let Some(wire::ServiceAuditTargetV3Target::ContractVersion(form)) = message.target {
                contract_version_target_form_is_exact(form, part, other);
            }
        },
        (AuditTargetV3View::EntityType(part), AuditTargetV3View::EntityType(other)) => {
            if let Some(wire::ServiceAuditTargetV3Target::EntityType(form)) = message.target {
                entity_type_target_form_is_exact(form, part, other);
            }
        },
        (AuditTargetV3View::Command(part), AuditTargetV3View::Command(other)) => {
            if let Some(wire::ServiceAuditTargetV3Target::Command(form)) = message.target {
                command_target_form_is_exact(form, part, other);
            }
        },
        (AuditTargetV3View::Projection(part), AuditTargetV3View::Projection(other)) => {
            if let Some(wire::ServiceAuditTargetV3Target::Projection(form)) = message.target {
                projection_target_form_is_exact(form, part, other);
            }
        },
        (AuditTargetV3View::Index(part), AuditTargetV3View::Index(other)) => {
            if let Some(wire::ServiceAuditTargetV3Target::Index(form)) = message.target {
                index_target_form_is_exact(form, part, other);
            }
        },
        (AuditTargetV3View::Provenance(part), AuditTargetV3View::Provenance(other)) => {
            if let Some(wire::ServiceAuditTargetV3Target::ProvenanceId(form)) = message.target {
                assert(part.bytes =~= other.bytes);
            }
        },
        (AuditTargetV3View::Capability(part), AuditTargetV3View::Capability(other)) => {
            if let Some(wire::ServiceAuditTargetV3Target::CapabilityId(form)) = message.target {
                assert(part.bytes =~= other.bytes);
            }
        },
        (AuditTargetV3View::ReplicationFollower(part),
            AuditTargetV3View::ReplicationFollower(other)) => {
            if let Some(
                wire::ServiceAuditTargetV3Target::ReplicationFollower(form),
            ) = message.target {
                follower_target_form_is_exact(form, part, other);
            }
        },
        _ => {},
    }
}

/// The message form of a target of a service audit record of the third form.
pub fn target_v3_to_proto(value: &ServiceAuditTargetV3) -> (result: wire::ServiceAuditTargetV3)
    ensures
        target_v3_carries(result, value@),
{
    let form = match value {
        ServiceAuditTargetV3::ContractLineage(part) =>
            wire::ServiceAuditTargetV3Target::ContractLineage(
            text_to_wire(part),
        ),
        ServiceAuditTargetV3::ContractVersion(part) =>
            wire::ServiceAuditTargetV3Target::ContractVersion(
            contract_version_target_to_proto(part),
        ),
        ServiceAuditTargetV3::EntityType(part) => wire::ServiceAuditTargetV3Target::EntityType(
            entity_type_target_to_proto(part),
        ),
        ServiceAuditTargetV3::Command(part) => wire::ServiceAuditTargetV3Target::Command(
            command_target_to_proto(part),
        ),
        ServiceAuditTargetV3::Projection(part) => wire::ServiceAuditTargetV3Target::Projection(
            projection_target_to_proto(part),
        ),
        ServiceAuditTargetV3::Index(part) => wire::ServiceAuditTargetV3Target::Index(
            index_target_to_proto(part),
        ),
        ServiceAuditTargetV3::Commit(part) => wire::ServiceAuditTargetV3Target::CommitSequence(
            part.get(),
        ),
        ServiceAuditTargetV3::Provenance(part) => wire::ServiceAuditTargetV3Target::ProvenanceId(
            identifier_to_wire(*part),
        ),
        ServiceAuditTargetV3::Capability(part) => wire::ServiceAuditTargetV3Target::CapabilityId(
            identifier_to_wire(*part),
        ),
        ServiceAuditTargetV3::EventConsumer(part) =>
            wire::ServiceAuditTargetV3Target::EventConsumer(
            key_to_wire(part),
        ),
        ServiceAuditTargetV3::ReplicationFollower(part) =>
            wire::ServiceAuditTargetV3Target::ReplicationFollower(
            follower_target_to_proto(*part),
        ),
    };
    wire::ServiceAuditTargetV3 { target: Some(form) }
}

/// Reads a target of a service audit record of the third form.
pub fn target_v3_from_proto(value: &wire::ServiceAuditTargetV3) -> (result: Result<
    ServiceAuditTargetV3,
    DurableCodecError,
>)
    ensures
        match result {
            Ok(held) => target_v3_carries(*value, held@) && target_v3_valid(held@),
            Err(error) => is_corrupt(error) && forall|other: AuditTargetV3View| #[trigger]
                target_v3_carries(*value, other) ==> !target_v3_valid(other),
        },
{
    match require_ref(&value.target)? {
        wire::ServiceAuditTargetV3Target::ContractLineage(form) => {
            let part = text_from_wire(form)?;
            Ok(ServiceAuditTargetV3::ContractLineage(part))
        },
        wire::ServiceAuditTargetV3Target::ContractVersion(form) => {
            let part = contract_version_target_from_proto(form)?;
            Ok(ServiceAuditTargetV3::ContractVersion(part))
        },
        wire::ServiceAuditTargetV3Target::EntityType(form) => {
            let part = entity_type_target_from_proto(form)?;
            Ok(ServiceAuditTargetV3::EntityType(part))
        },
        wire::ServiceAuditTargetV3Target::Command(form) => {
            let part = command_target_from_proto(form)?;
            Ok(ServiceAuditTargetV3::Command(part))
        },
        wire::ServiceAuditTargetV3Target::Projection(form) => {
            let part = projection_target_from_proto(form)?;
            Ok(ServiceAuditTargetV3::Projection(part))
        },
        wire::ServiceAuditTargetV3Target::Index(form) => {
            let part = index_target_from_proto(form)?;
            Ok(ServiceAuditTargetV3::Index(part))
        },
        wire::ServiceAuditTargetV3Target::CommitSequence(form) => {
            let part = require(CommitSequence::new(*form))?;
            Ok(ServiceAuditTargetV3::Commit(part))
        },
        wire::ServiceAuditTargetV3Target::ProvenanceId(form) => {
            let part = identifier_from_wire(form)?;
            Ok(ServiceAuditTargetV3::Provenance(part))
        },
        wire::ServiceAuditTargetV3Target::CapabilityId(form) => {
            let part = identifier_from_wire(form)?;
            Ok(ServiceAuditTargetV3::Capability(part))
        },
        wire::ServiceAuditTargetV3Target::EventConsumer(form) => {
            let part = key_from_wire(form)?;
            Ok(ServiceAuditTargetV3::EventConsumer(part))
        },
        wire::ServiceAuditTargetV3Target::ReplicationFollower(form) => {
            let part = follower_target_from_proto(form)?;
            Ok(ServiceAuditTargetV3::ReplicationFollower(part))
        },
    }
}

/// Whether messages are the forms of values, one by one.
pub open spec fn target_v3_list_carries(
    messages: Seq<wire::ServiceAuditTargetV3>,
    values: Seq<AuditTargetV3View>,
) -> bool {
    &&& messages.len() == values.len()
    &&& forall|i: int|
        0 <= i < messages.len() ==> target_v3_carries(#[trigger] messages[i], values[i])
}

/// All values are valid.
pub open spec fn target_v3_list_valid(values: Seq<AuditTargetV3View>) -> bool {
    forall|i: int| 0 <= i < values.len() ==> target_v3_valid(#[trigger] values[i])
}

/// Messages are the forms of at most one list of values.
pub proof fn target_v3_list_form_is_exact(
    messages: Seq<wire::ServiceAuditTargetV3>,
    a: Seq<AuditTargetV3View>,
    b: Seq<AuditTargetV3View>,
)
    requires
        target_v3_list_carries(messages, a),
        target_v3_list_carries(messages, b),
    ensures
        a == b,
{
    assert forall|i: int| 0 <= i < a.len() implies a[i] == b[i] by {
        assert(target_v3_carries(messages[i], a[i]) && target_v3_carries(messages[i], b[i]));
        target_v3_form_is_exact(messages[i], a[i], b[i]);
    }
    assert(a =~= b);
}

/// The message forms of values.
pub fn target_v3_list_to_proto(
    values: &[ServiceAuditTargetV3],
) -> (result: Vec<wire::ServiceAuditTargetV3>)
    ensures
        target_v3_list_carries(result@, target_v3_views(values@)),
{
    let mut result: Vec<wire::ServiceAuditTargetV3> = Vec::new();
    let mut i: usize = 0;
    while i < values.len()
        invariant
            i <= values@.len(),
            result@.len() == i,
            forall|k: int| 0 <= k < i ==> target_v3_carries(#[trigger] result@[k], values@[k]@),
        decreases values@.len() - i,
    {
        result.push(target_v3_to_proto(&values[i]));
        i += 1;
    }
    result
}

/// Reads values from their message forms.
pub fn target_v3_list_from_proto(values: &[wire::ServiceAuditTargetV3]) -> (result: Result<
    Vec<ServiceAuditTargetV3>,
    DurableCodecError,
>)
    ensures
        match result {
            Ok(held) => target_v3_list_carries(
                values@,
                target_v3_views(held@),
            ) && target_v3_list_valid(target_v3_views(held@)),
            Err(error) => is_corrupt(error) && forall|other: Seq<AuditTargetV3View>| #[trigger]
                target_v3_list_carries(values@, other) ==> !target_v3_list_valid(other),
        },
{
    let mut result: Vec<ServiceAuditTargetV3> = Vec::new();
    let mut i: usize = 0;
    while i < values.len()
        invariant
            i <= values@.len(),
            result@.len() == i,
            forall|k: int|
                0 <= k < i ==> target_v3_carries(values@[k], #[trigger] result@[k]@)
                    && target_v3_valid(result@[k]@),
        decreases values@.len() - i,
    {
        match target_v3_from_proto(&values[i]) {
            Ok(held) => {
                result.push(held);
            },
            Err(error) => {
                assert forall|other: Seq<AuditTargetV3View>| #[trigger]
                    target_v3_list_carries(values@, other) implies !target_v3_list_valid(other) by {
                    assert(target_v3_carries(values@[i as int], other[i as int]));
                    assert(!target_v3_valid(other[i as int]));
                }
                return Err(error);
            },
        }
        i += 1;
    }
    Ok(result)
}

/// Whether a message is the form of a link to a command's commit and provenance.
pub open spec fn command_link_carries(
    message: wire::CommandServiceAuditLinkV1,
    value: CommandAuditLink,
) -> bool {
    &&& message.commit_sequence == value.commit_sequence.value
    &&& identifier_carries(message.provenance_id, value.provenance_id)
}

/// The parts of a link to a command's commit and provenance are valid.
pub open spec fn command_link_valid(value: CommandAuditLink) -> bool {
    &&& value.commit_sequence.valid()
}

/// A message is the form of at most one value.
pub proof fn command_link_form_is_exact(
    message: wire::CommandServiceAuditLinkV1,
    a: CommandAuditLink,
    b: CommandAuditLink,
)
    requires
        command_link_carries(message, a),
        command_link_carries(message, b),
    ensures
        a == b,
{
    assert(a.provenance_id.bytes =~= b.provenance_id.bytes);
}

/// The message form of a link to a command's commit and provenance.
pub fn command_link_to_proto(value: CommandAuditLink) -> (result: wire::CommandServiceAuditLinkV1)
    ensures
        command_link_carries(result, value),
{
    wire::CommandServiceAuditLinkV1 {
        commit_sequence: value.commit_sequence.get(),
        provenance_id: identifier_to_wire(value.provenance_id),
    }
}

/// Reads a link to a command's commit and provenance.
pub fn command_link_from_proto(value: &wire::CommandServiceAuditLinkV1) -> (result: Result<
    CommandAuditLink,
    DurableCodecError,
>)
    ensures
        match result {
            Ok(held) => command_link_carries(*value, held) && command_link_valid(held),
            Err(error) => is_corrupt(error) && forall|other: CommandAuditLink| #[trigger]
                command_link_carries(*value, other) ==> !command_link_valid(other),
        },
{
    let commit_sequence = require(CommitSequence::new(value.commit_sequence))?;
    let provenance_id = identifier_from_wire(&value.provenance_id)?;
    Ok(CommandAuditLink { commit_sequence, provenance_id })
}

/// Whether a message is the form of a link to an administrative change.
pub open spec fn control_link_carries(
    message: wire::ControlPlaneServiceAuditLinkV1,
    value: ControlPlaneAuditLink,
) -> bool {
    &&& message.administration_sequence == value.administration_sequence.value
}

/// The parts of a link to an administrative change are valid.
pub open spec fn control_link_valid(value: ControlPlaneAuditLink) -> bool {
    &&& value.administration_sequence.valid()
}

/// A message is the form of at most one value.
pub proof fn control_link_form_is_exact(
    message: wire::ControlPlaneServiceAuditLinkV1,
    a: ControlPlaneAuditLink,
    b: ControlPlaneAuditLink,
)
    requires
        control_link_carries(message, a),
        control_link_carries(message, b),
    ensures
        a == b,
{
}

/// The message form of a link to an administrative change.
pub fn control_link_to_proto(
    value: ControlPlaneAuditLink,
) -> (result: wire::ControlPlaneServiceAuditLinkV1)
    ensures
        control_link_carries(result, value),
{
    wire::ControlPlaneServiceAuditLinkV1 {
        administration_sequence: value.administration_sequence.get(),
    }
}

/// Reads a link to an administrative change.
pub fn control_link_from_proto(value: &wire::ControlPlaneServiceAuditLinkV1) -> (result: Result<
    ControlPlaneAuditLink,
    DurableCodecError,
>)
    ensures
        match result {
            Ok(held) => control_link_carries(*value, held) && control_link_valid(held),
            Err(error) => is_corrupt(error) && forall|other: ControlPlaneAuditLink| #[trigger]
                control_link_carries(*value, other) ==> !control_link_valid(other),
        },
{
    let administration_sequence = require(Id64::new(value.administration_sequence))?;
    Ok(ControlPlaneAuditLink { administration_sequence })
}

/// Whether a message is the form of a link of a service audit record.
pub open spec fn link_carries(
    message: wire::ServiceAuditLinkV1,
    value: ServiceAuditLinkV1,
) -> bool {
    match value {
        ServiceAuditLinkV1::Nothing => message.link matches Some(
            wire::ServiceAuditLinkV1Link::Nothing,
        ),
        ServiceAuditLinkV1::Command(part) => message.link matches Some(
            wire::ServiceAuditLinkV1Link::Command(form),
        ) && command_link_carries(form, part),
        ServiceAuditLinkV1::ControlPlane(part) => message.link matches Some(
            wire::ServiceAuditLinkV1Link::ControlPlane(form),
        ) && control_link_carries(form, part),
    }
}

/// The parts of a link of a service audit record are valid.
pub open spec fn link_valid(value: ServiceAuditLinkV1) -> bool {
    match value {
        ServiceAuditLinkV1::Nothing => true,
        ServiceAuditLinkV1::Command(part) => command_link_valid(part),
        ServiceAuditLinkV1::ControlPlane(part) => control_link_valid(part),
    }
}

/// A message is the form of at most one value.
pub proof fn link_form_is_exact(
    message: wire::ServiceAuditLinkV1,
    a: ServiceAuditLinkV1,
    b: ServiceAuditLinkV1,
)
    requires
        link_carries(message, a),
        link_carries(message, b),
    ensures
        a == b,
{
    match (a, b) {
        (ServiceAuditLinkV1::Command(part), ServiceAuditLinkV1::Command(other)) => {
            if let Some(wire::ServiceAuditLinkV1Link::Command(form)) = message.link {
                command_link_form_is_exact(form, part, other);
            }
        },
        (ServiceAuditLinkV1::ControlPlane(part), ServiceAuditLinkV1::ControlPlane(other)) => {
            if let Some(wire::ServiceAuditLinkV1Link::ControlPlane(form)) = message.link {
                control_link_form_is_exact(form, part, other);
            }
        },
        _ => {},
    }
}

/// The message form of a link of a service audit record.
pub fn link_to_proto(value: ServiceAuditLinkV1) -> (result: wire::ServiceAuditLinkV1)
    ensures
        link_carries(result, value),
{
    let form = match value {
        ServiceAuditLinkV1::Nothing => wire::ServiceAuditLinkV1Link::Nothing,
        ServiceAuditLinkV1::Command(part) => wire::ServiceAuditLinkV1Link::Command(
            command_link_to_proto(part),
        ),
        ServiceAuditLinkV1::ControlPlane(part) => wire::ServiceAuditLinkV1Link::ControlPlane(
            control_link_to_proto(part),
        ),
    };
    wire::ServiceAuditLinkV1 { link: Some(form) }
}

/// Reads a link of a service audit record.
pub fn link_from_proto(value: &wire::ServiceAuditLinkV1) -> (result: Result<
    ServiceAuditLinkV1,
    DurableCodecError,
>)
    ensures
        match result {
            Ok(held) => link_carries(*value, held) && link_valid(held),
            Err(error) => is_corrupt(error) && forall|other: ServiceAuditLinkV1| #[trigger]
                link_carries(*value, other) ==> !link_valid(other),
        },
{
    match require_ref(&value.link)? {
        wire::ServiceAuditLinkV1Link::Nothing => Ok(ServiceAuditLinkV1::Nothing),
        wire::ServiceAuditLinkV1Link::Command(form) => {
            let part = command_link_from_proto(form)?;
            Ok(ServiceAuditLinkV1::Command(part))
        },
        wire::ServiceAuditLinkV1Link::ControlPlane(form) => {
            let part = control_link_from_proto(form)?;
            Ok(ServiceAuditLinkV1::ControlPlane(part))
        },
    }
}

/// Whether a message is the form of a service audit record.
pub open spec fn audit_record_carries(
    message: wire::ServiceAuditRecordV1,
    value: ServiceAuditRecordView,
) -> bool {
    &&& message.administration_sequence == value.administration_sequence.value
    &&& identifier_carries(message.request_id, value.request_id)
    &&& (message.timestamp matches Some(part) && timestamp_carries(part, value.timestamp))
    &&& tag_carries(message.operation, value.operation)
    &&& message.phase == Some(value.phase)
    &&& optional_audit_principal_carries(message.principal, value.principal)
    &&& tag_carries(message.ingress, value.ingress)
    &&& target_list_carries(message.targets@, value.targets)
    &&& targets_rebuilt(message.rebuilt, value.targets)
    &&& optional_text_carries(message.approval_id, value.approval_id)
    &&& (message.link matches Some(part) && link_carries(part, value.link))
}

/// The parts of a service audit record are valid.
pub open spec fn audit_record_valid(value: ServiceAuditRecordView) -> bool {
    &&& value.administration_sequence.valid()
    &&& timestamp_valid(value.timestamp)
    &&& (value.principal matches Some(part) ==> audit_principal_valid(part))
    &&& target_list_valid(value.targets)
    &&& link_valid(value.link)
}

/// A message is the form of at most one value.
pub proof fn audit_record_form_is_exact(
    message: wire::ServiceAuditRecordV1,
    a: ServiceAuditRecordView,
    b: ServiceAuditRecordView,
)
    requires
        audit_record_carries(message, a),
        audit_record_carries(message, b),
    ensures
        a == b,
{
    assert(a.request_id.bytes =~= b.request_id.bytes);
    timestamp_form_is_exact(message.timestamp->Some_0, a.timestamp, b.timestamp);
    if a.principal is Some {
        audit_principal_form_is_exact(
            message.principal->Some_0,
            a.principal->Some_0,
            b.principal->Some_0,
        );
    }
    target_list_form_is_exact(message.targets@, a.targets, b.targets);
    link_form_is_exact(message.link->Some_0, a.link, b.link);
}

/// The message form of a service audit record.
pub fn audit_record_to_proto(
    value: &StoredServiceAuditRecordV1,
) -> (result: wire::ServiceAuditRecordV1)
    ensures
        audit_record_carries(result, value@),
{
    wire::ServiceAuditRecordV1 {
        administration_sequence: value.administration_sequence.get(),
        request_id: identifier_to_wire(value.request_id),
        timestamp: Some(timestamp_to_proto(value.timestamp)),
        operation: tag_to_wire(value.operation),
        phase: Some(value.phase),
        principal: optional_audit_principal_to_proto(&value.principal),
        ingress: tag_to_wire(value.ingress),
        targets: target_list_to_proto(&value.targets),
        rebuilt: Ok(copy_target_list(&value.targets)),
        approval_id: optional_text_to_wire(&value.approval_id),
        link: Some(link_to_proto(value.link)),
    }
}

/// What reading a message gives: the value that it is the form of, or a
/// corruption where it is the form of no valid one.
pub open spec fn audit_record_read(
    message: wire::ServiceAuditRecordV1,
    result: Result<StoredServiceAuditRecordV1, DurableCodecError>,
) -> bool {
    match result {
        Ok(held) => audit_record_carries(message, held@) && audit_record_valid(held@),
        Err(error) => is_corrupt(error) && forall|other: ServiceAuditRecordView| #[trigger]
            audit_record_carries(message, other) ==> !audit_record_valid(other),
    }
}

/// Reads a service audit record.
pub fn audit_record_from_proto(value: &wire::ServiceAuditRecordV1) -> (result: Result<
    StoredServiceAuditRecordV1,
    DurableCodecError,
>)
    ensures
        audit_record_read(*value, result),
{
    let administration_sequence = require(Id64::new(value.administration_sequence))?;
    let request_id = identifier_from_wire(&value.request_id)?;
    let timestamp = timestamp_from_proto(require_ref(&value.timestamp)?)?;
    let operation = tag_from_wire(&value.operation)?;
    let phase = require(value.phase)?;
    let principal = optional_audit_principal_from_proto(&value.principal)?;
    let ingress = tag_from_wire(&value.ingress)?;
    let targets = target_list_from_proto(&value.targets)?;
    if !are_targets_rebuilt(&value.rebuilt, &targets) {
        assert forall|other: ServiceAuditRecordView| #[trigger]
            audit_record_carries(*value, other) implies
            !audit_record_valid(other) by {
            target_list_form_is_exact(value.targets@, target_views(targets@), other.targets);
        }
        return Err(DurableCodecError::corrupt());
    }
    let approval_id = optional_text_from_wire(&value.approval_id)?;
    let link = link_from_proto(require_ref(&value.link)?)?;
    Ok(
        StoredServiceAuditRecordV1 {
            administration_sequence,
            request_id,
            timestamp,
            operation,
            phase,
            principal,
            ingress,
            targets,
            approval_id,
            link,
        },
    )
}

/// Reading the message form of a service audit record gives back what was written.
pub proof fn audit_record_round_trip(
    value: ServiceAuditRecordView,
    message: wire::ServiceAuditRecordV1,
    read: Result<StoredServiceAuditRecordV1, DurableCodecError>,
)
    requires
        audit_record_valid(value),
        audit_record_carries(message, value),
        audit_record_read(message, read),
    ensures
        read is Ok,
        read->Ok_0@ == value,
{
    if let Ok(held) = read {
        audit_record_form_is_exact(message, held@, value);
    }
}

/// Whether a message is the form of a service audit record of the third form.
pub open spec fn audit_record_v3_carries(
    message: wire::ServiceAuditRecordV3,
    value: ServiceAuditRecordV3View,
) -> bool {
    &&& message.administration_sequence == value.administration_sequence.value
    &&& identifier_carries(message.request_id, value.request_id)
    &&& (message.timestamp matches Some(part) && timestamp_carries(part, value.timestamp))
    &&& tag_carries(message.operation, value.operation)
    &&& message.phase == Some(value.phase)
    &&& optional_audit_principal_carries(message.principal, value.principal)
    &&& tag_carries(message.ingress, value.ingress)
    &&& target_v3_list_carries(message.targets@, value.targets)
    &&& targets_v3_rebuilt(message.rebuilt, value.targets)
    &&& optional_text_carries(message.approval_id, value.approval_id)
    &&& (message.link matches Some(part) && link_carries(part, value.link))
}

/// The parts of a service audit record of the third form are valid.
pub open spec fn audit_record_v3_valid(value: ServiceAuditRecordV3View) -> bool {
    &&& value.administration_sequence.valid()
    &&& timestamp_valid(value.timestamp)
    &&& (value.principal matches Some(part) ==> audit_principal_valid(part))
    &&& target_v3_list_valid(value.targets)
    &&& link_valid(value.link)
}

/// A message is the form of at most one value.
pub proof fn audit_record_v3_form_is_exact(
    message: wire::ServiceAuditRecordV3,
    a: ServiceAuditRecordV3View,
    b: ServiceAuditRecordV3View,
)
    requires
        audit_record_v3_carries(message, a),
        audit_record_v3_carries(message, b),
    ensures
        a == b,
{
    assert(a.request_id.bytes =~= b.request_id.bytes);
    timestamp_form_is_exact(message.timestamp->Some_0, a.timestamp, b.timestamp);
    if a.principal is Some {
        audit_principal_form_is_exact(
            message.principal->Some_0,
            a.principal->Some_0,
            b.principal->Some_0,
        );
    }
    target_v3_list_form_is_exact(message.targets@, a.targets, b.targets);
    link_form_is_exact(message.link->Some_0, a.link, b.link);
}

/// The message form of a service audit record of the third form.
pub fn audit_record_v3_to_proto(
    value: &StoredServiceAuditRecordV3,
) -> (result: wire::ServiceAuditRecordV3)
    ensures
        audit_record_v3_carries(result, value@),
{
    wire::ServiceAuditRecordV3 {
        administration_sequence: value.administration_sequence.get(),
        request_id: identifier_to_wire(value.request_id),
        timestamp: Some(timestamp_to_proto(value.timestamp)),
        operation: tag_to_wire(value.operation),
        phase: Some(value.phase),
        principal: optional_audit_principal_to_proto(&value.principal),
        ingress: tag_to_wire(value.ingress),
        targets: target_v3_list_to_proto(&value.targets),
        rebuilt: Ok(copy_target_v3_list(&value.targets)),
        approval_id: optional_text_to_wire(&value.approval_id),
        link: Some(link_to_proto(value.link)),
    }
}

/// What reading a message gives: the value that it is the form of, or a
/// corruption where it is the form of no valid one.
pub open spec fn audit_record_v3_read(
    message: wire::ServiceAuditRecordV3,
    result: Result<StoredServiceAuditRecordV3, DurableCodecError>,
) -> bool {
    match result {
        Ok(held) => audit_record_v3_carries(message, held@) && audit_record_v3_valid(held@),
        Err(error) => is_corrupt(error) && forall|other: ServiceAuditRecordV3View| #[trigger]
            audit_record_v3_carries(message, other) ==> !audit_record_v3_valid(other),
    }
}

/// Reads a service audit record of the third form.
pub fn audit_record_v3_from_proto(value: &wire::ServiceAuditRecordV3) -> (result: Result<
    StoredServiceAuditRecordV3,
    DurableCodecError,
>)
    ensures
        audit_record_v3_read(*value, result),
{
    let administration_sequence = require(Id64::new(value.administration_sequence))?;
    let request_id = identifier_from_wire(&value.request_id)?;
    let timestamp = timestamp_from_proto(require_ref(&value.timestamp)?)?;
    let operation = tag_from_wire(&value.operation)?;
    let phase = require(value.phase)?;
    let principal = optional_audit_principal_from_proto(&value.principal)?;
    let ingress = tag_from_wire(&value.ingress)?;
    let targets = target_v3_list_from_proto(&value.targets)?;
    if !are_targets_v3_rebuilt(&value.rebuilt, &targets) {
        assert forall|other: ServiceAuditRecordV3View| #[trigger]
            audit_record_v3_carries(*value, other) implies
            !audit_record_v3_valid(other) by {
            target_v3_list_form_is_exact(value.targets@, target_v3_views(targets@), other.targets);
        }
        return Err(DurableCodecError::corrupt());
    }
    let approval_id = optional_text_from_wire(&value.approval_id)?;
    let link = link_from_proto(require_ref(&value.link)?)?;
    Ok(
        StoredServiceAuditRecordV3 {
            administration_sequence,
            request_id,
            timestamp,
            operation,
            phase,
            principal,
            ingress,
            targets,
            approval_id,
            link,
        },
    )
}

/// Reading the message form of a service audit record of the third form gives back what was
/// written.
pub proof fn audit_record_v3_round_trip(
    value: ServiceAuditRecordV3View,
    message: wire::ServiceAuditRecordV3,
    read: Result<StoredServiceAuditRecordV3, DurableCodecError>,
)
    requires
        audit_record_v3_valid(value),
        audit_record_v3_carries(message, value),
        audit_record_v3_read(message, read),
    ensures
        read is Ok,
        read->Ok_0@ == value,
{
    if let Ok(held) = read {
        audit_record_v3_form_is_exact(message, held@, value);
    }
}

/// Whether a message is the form of an index row from a request to its audit sequence.
pub open spec fn audit_index_carries(
    message: wire::StoredServiceAuditRequestIndexV1,
    value: StoredServiceAuditRequestIndexV1,
) -> bool {
    &&& identifier_carries(message.request_id, value.request_id)
    &&& message.administration_sequence == value.administration_sequence.value
}

/// The parts of an index row from a request to its audit sequence are valid.
pub open spec fn audit_index_valid(value: StoredServiceAuditRequestIndexV1) -> bool {
    &&& value.administration_sequence.valid()
}

/// A message is the form of at most one value.
pub proof fn audit_index_form_is_exact(
    message: wire::StoredServiceAuditRequestIndexV1,
    a: StoredServiceAuditRequestIndexV1,
    b: StoredServiceAuditRequestIndexV1,
)
    requires
        audit_index_carries(message, a),
        audit_index_carries(message, b),
    ensures
        a == b,
{
    assert(a.request_id.bytes =~= b.request_id.bytes);
}

/// The message form of an index row from a request to its audit sequence.
pub fn audit_index_to_proto(
    value: StoredServiceAuditRequestIndexV1,
) -> (result: wire::StoredServiceAuditRequestIndexV1)
    ensures
        audit_index_carries(result, value),
{
    wire::StoredServiceAuditRequestIndexV1 {
        request_id: identifier_to_wire(value.request_id),
        administration_sequence: value.administration_sequence.get(),
    }
}

/// What reading a message gives: the value that it is the form of, or a
/// corruption where it is the form of no valid one.
pub open spec fn audit_index_read(
    message: wire::StoredServiceAuditRequestIndexV1,
    result: Result<StoredServiceAuditRequestIndexV1, DurableCodecError>,
) -> bool {
    match result {
        Ok(held) => audit_index_carries(message, held) && audit_index_valid(held),
        Err(error) =>
            is_corrupt(error) && forall|other: StoredServiceAuditRequestIndexV1| #[trigger]
            audit_index_carries(message, other) ==> !audit_index_valid(other),
    }
}

/// Reads an index row from a request to its audit sequence.
pub fn audit_index_from_proto(value: &wire::StoredServiceAuditRequestIndexV1) -> (result: Result<
    StoredServiceAuditRequestIndexV1,
    DurableCodecError,
>)
    ensures
        audit_index_read(*value, result),
{
    let request_id = identifier_from_wire(&value.request_id)?;
    let administration_sequence = require(Id64::new(value.administration_sequence))?;
    Ok(StoredServiceAuditRequestIndexV1 { request_id, administration_sequence })
}

/// Reading the message form of an index row from a request to its audit sequence gives back
/// what was written.
pub proof fn audit_index_round_trip(
    value: StoredServiceAuditRequestIndexV1,
    message: wire::StoredServiceAuditRequestIndexV1,
    read: Result<StoredServiceAuditRequestIndexV1, DurableCodecError>,
)
    requires
        audit_index_valid(value),
        audit_index_carries(message, value),
        audit_index_read(message, read),
    ensures
        read is Ok,
        read->Ok_0 == value,
{
    if let Ok(held) = read {
        audit_index_form_is_exact(message, held, value);
    }
}

/// Encodes one service-audit request index row.
pub fn encode_service_audit_request_index_v1(
    value: StoredServiceAuditRequestIndexV1,
) -> (result: OutgoingRecord<
    wire::StoredServiceAuditRequestIndexV1,
>)
    ensures
        result.record_type == RecordType::StoredServiceAuditRequestIndexV1,
        audit_index_carries(result.message, value),
{
    OutgoingRecord {
        record_type: RecordType::StoredServiceAuditRequestIndexV1,
        message: audit_index_to_proto(value),
    }
}

/// Whether a message is the form of some valid value.
pub open spec fn audit_index_readable(message: wire::StoredServiceAuditRequestIndexV1) -> bool {
    exists|value: StoredServiceAuditRequestIndexV1| #[trigger]
        audit_index_carries(message, value) && audit_index_valid(value)
}

/// Decodes one service-audit request index row.
pub fn decode_service_audit_request_index_v1(
    attempt: ReadAttempt<wire::StoredServiceAuditRequestIndexV1>,
) -> (result: Result<EncodedPageItem<StoredServiceAuditRequestIndexV1>, DurableCodecError>)
    ensures
        match read_outcome(RecordType::StoredServiceAuditRequestIndexV1, attempt) {
            Err(kind) => result == Err::<EncodedPageItem<StoredServiceAuditRequestIndexV1>, _>(
                DurableCodecError { kind },
            ),
            Ok(message) => match refusal_of(
                audit_index_readable(message),
                None,
                attempt.encoded_len,
            ) {
                Some(kind) => result == Err::<EncodedPageItem<StoredServiceAuditRequestIndexV1>, _>(
                    DurableCodecError { kind },
                ),
                None => result is Ok && audit_index_carries(message, result->Ok_0.value)
                    && audit_index_valid(result->Ok_0.value)
                    && result->Ok_0.charge.bytes == attempt.encoded_len,
            },
        },
{
    let encoded_len = attempt.encoded_len;
    let message = read_message(RecordType::StoredServiceAuditRequestIndexV1, attempt)?;
    let value = audit_index_from_proto(&message)?;
    admitted_item(value, None, encoded_len)
}

/// Encodes one durable API-neutral service-audit record.
pub fn encode_service_audit_record_v1(
    value: &StoredServiceAuditRecordV1,
) -> (result: OutgoingRecord<
    wire::ServiceAuditRecordV1,
>)
    ensures
        result.record_type == RecordType::ServiceAuditRecordV1,
        audit_record_carries(result.message, value@),
{
    OutgoingRecord {
        record_type: RecordType::ServiceAuditRecordV1,
        message: audit_record_to_proto(value),
    }
}

/// Whether a message is the form of some valid value.
pub open spec fn audit_record_readable(message: wire::ServiceAuditRecordV1) -> bool {
    exists|value: ServiceAuditRecordView| #[trigger] audit_record_carries(message, value)
        && audit_record_valid(value)
}

/// Decodes one durable API-neutral service-audit record.
pub fn decode_service_audit_record_v1<
    R: Fn(&StoredServiceAuditRecordV1) -> Option<StorageValueError>,
>(
    attempt: ReadAttempt<wire::ServiceAuditRecordV1>,
    rule: R,
) -> (result: Result<EncodedPageItem<StoredServiceAuditRecordV1>, DurableCodecError>)
    requires
        forall|value: &StoredServiceAuditRecordV1| #[trigger] rule.requires((value,)),
    ensures
        match read_outcome(RecordType::ServiceAuditRecordV1, attempt) {
            Err(kind) => result == Err::<EncodedPageItem<StoredServiceAuditRecordV1>, _>(
                DurableCodecError { kind },
            ),
            Ok(message) => if audit_record_readable(message) {
                exists|value: StoredServiceAuditRecordV1| {
                    &&& audit_record_carries(message, value@)
                    &&& audit_record_valid(value@)
                    &&& #[trigger] ruled(rule, value, attempt.encoded_len, result)
                }
            } else {
                result == Err::<EncodedPageItem<StoredServiceAuditRecordV1>, _>(
                    DurableCodecError { kind: DurableCodecErrorKind::CorruptData },
                )
            },
        },
{
    let encoded_len = attempt.encoded_len;
    let message = read_message(RecordType::ServiceAuditRecordV1, attempt)?;
    let value = audit_record_from_proto(&message)?;
    ruled_item(value, rule, encoded_len)
}

/// Whether a message is the form of some valid value.
pub open spec fn audit_record_v3_readable(message: wire::ServiceAuditRecordV3) -> bool {
    exists|value: ServiceAuditRecordV3View| #[trigger] audit_record_v3_carries(message, value)
        && audit_record_v3_valid(value)
}

/// Decodes one durable API-neutral service-audit record of the third form.
pub fn decode_service_audit_record_v3<
    R: Fn(&StoredServiceAuditRecordV3) -> Option<StorageValueError>,
>(
    attempt: ReadAttempt<wire::ServiceAuditRecordV3>,
    rule: R,
) -> (result: Result<EncodedPageItem<StoredServiceAuditRecordV3>, DurableCodecError>)
    requires
        forall|value: &StoredServiceAuditRecordV3| #[trigger] rule.requires((value,)),
    ensures
        match read_outcome(RecordType::ServiceAuditRecordV3, attempt) {
            Err(kind) => result == Err::<EncodedPageItem<StoredServiceAuditRecordV3>, _>(
                DurableCodecError { kind },
            ),
            Ok(message) => if audit_record_v3_readable(message) {
                exists|value: StoredServiceAuditRecordV3| {
                    &&& audit_record_v3_carries(message, value@)
                    &&& audit_record_v3_valid(value@)
                    &&& #[trigger] ruled(rule, value, attempt.encoded_len, result)
                }
            } else {
                result == Err::<EncodedPageItem<StoredServiceAuditRecordV3>, _>(
                    DurableCodecError { kind: DurableCodecErrorKind::CorruptData },
                )
            },
        },
{
    let encoded_len = attempt.encoded_len;
    let message = read_message(RecordType::ServiceAuditRecordV3, attempt)?;
    let value = audit_record_v3_from_proto(&message)?;
    ruled_item(value, rule, encoded_len)
}

/// Some target of the record is a replication follower.
pub open spec fn names_a_follower(targets: Seq<AuditTargetV3View>) -> bool {
    exists|i: int| 0 <= i < targets.len() && (#[trigger] targets[i]) is ReplicationFollower
}

fn has_follower(targets: &[ServiceAuditTargetV3]) -> (result: bool)
    ensures
        result == names_a_follower(target_v3_views(targets@)),
{
    let mut i: usize = 0;
    while i < targets.len()
        invariant
            i <= targets@.len(),
            forall|k: int|
                0 <= k < i ==> !((#[trigger] target_v3_views(targets@)[k]) is ReplicationFollower),
        decreases targets@.len() - i,
    {
        let follower = match &targets[i] {
            ServiceAuditTargetV3::ReplicationFollower(_) => true,
            _ => false,
        };
        if follower {
            assert(target_v3_views(targets@)[i as int] is ReplicationFollower);
            return true;
        }
        i += 1;
    }
    false
}

/// Encodes one durable API-neutral service-audit record of the third form, which
/// is only for records that name a replication follower.
pub fn encode_service_audit_record_v3(value: &StoredServiceAuditRecordV3) -> (result: Result<
    OutgoingRecord<wire::ServiceAuditRecordV3>,
    DurableCodecError,
>)
    ensures
        if names_a_follower(value@.targets) {
            result is Ok && result->Ok_0.record_type == RecordType::ServiceAuditRecordV3
                && audit_record_v3_carries(result->Ok_0.message, value@)
        } else {
            result == Err::<OutgoingRecord<wire::ServiceAuditRecordV3>, _>(
                DurableCodecError { kind: DurableCodecErrorKind::InvariantViolation },
            )
        },
{
    if !has_follower(&value.targets) {
        return Err(DurableCodecError::invariant_violation());
    }
    Ok(
        OutgoingRecord {
            record_type: RecordType::ServiceAuditRecordV3,
            message: audit_record_v3_to_proto(value),
        },
    )
}

} // verus!
