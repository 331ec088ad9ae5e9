//! Capability records as durable messages.

use vstd::prelude::*;

use crate::bytes::copy_bytes;
use crate::codec::common::{
    actor_kind_carries, actor_kind_from_proto, actor_kind_to_proto, audit_principal_form_is_exact,
    audit_principal_valid, optional_audit_principal_carries, optional_audit_principal_from_proto,
    optional_audit_principal_to_proto, tenant_scope_carries, tenant_scope_form_is_exact,
    tenant_scope_from_proto, tenant_scope_to_proto, timestamp_carries, timestamp_form_is_exact,
    timestamp_from_proto, timestamp_to_proto, timestamp_valid,
};
use crate::codec::envelope::{
    admitted_item, read_message, read_outcome, refusal_of, ruled, ruled_item, OutgoingRecord,
    ReadAttempt,
};
use crate::codec::error::{
    is_corrupt, over_limit, require, unread_failure, DurableCodecError, DurableCodecErrorKind,
};
use crate::codec::parts::{
    are_tags_ascending, are_texts_ascending, copy_ids, digest_from_wire, identifier_carries,
    identifier_from_wire, identifier_to_wire, ids_carry, ids_from_wire, ids_to_wire, ids_valid,
    key_carries, key_from_wire, key_to_wire, limit_from_wire, optional_tag_carries,
    optional_tag_from_wire, optional_tag_to_wire, optional_text_carries, optional_text_from_wire,
    optional_text_to_wire, require_ref, same_ids, tag_carries, tag_from_wire, tag_to_wire,
    tags_ascend, tags_carry, tags_form_is_exact, tags_from_wire, tags_to_wire, text_carries,
    text_from_wire, text_to_wire, text_views, texts_ascend, texts_carry, texts_form_is_exact,
    texts_from_wire, texts_to_wire,
};
use crate::codec::record_type::RecordType;
use crate::ids::{Digest, Id32, Id64};
use crate::page::EncodedPageItem;
use crate::stored::capability::{
    bindings_rebuilt, copy_export_application_list, copy_kinds, copy_permission_list,
    copy_policy_binding_list, copy_scoped_partition_list, copy_visible_fields_list,
    export_application_views, exports_rebuilt, grant_rebuilt, ids_rebuilt,
    optional_export_extension_view, optional_lineage_extension_view, optional_row_policy_view,
    optional_secret_extension_view, partitions_rebuilt, permission_views, permissions_rebuilt,
    policy_binding_views, same_export_application_list, same_kind_list, same_permission_list,
    same_policy_binding_list, same_scoped_partition_list, same_visible_fields_list,
    scoped_partition_views, secret_fields_views, visible_fields_views, ApplicationExportGrantView,
    CapabilityAdministrationView, CapabilityApplicationExportGrantV1, CapabilityBootstrapMarkerV1,
    CapabilityExportGrantV1, CapabilityHeader, CapabilityHeaderView, CapabilityLifecycleV1,
    CapabilityPermissionKindV1, CapabilityPermissionV1, CapabilityPermissionsV1,
    CapabilityRecordBase, CapabilityRecordBaseView, CapabilityRecordParts,
    CapabilityRecordPartsView, CapabilityRowPolicyBindingV1, CapabilityRowPolicyGrantV1,
    CapabilityTokenDigest, CapabilityTokenLookupV1, ExplicitPartitionScope,
    ExplicitPartitionScopeView, ExportGrantView, GrantBase, GrantBaseView, LineageGrant,
    LineageGrantView, PartitionScopeV1, PartitionScopeView, PermissionView, PermissionsView,
    RebuiltGrant, RevokedCapability, RowPolicyBindingView, RowPolicyGrantView, ScopedPartitionV1,
    ScopedPartitionView, SecretFields, SecretFieldsView, SecretGrant, SecretGrantView,
    StoredCapabilityAdministrationV1, VisibleFields, VisibleFieldsView,
};
use crate::value_error::StorageValueError;
use crate::wire;
use crate::stored::common::TenantScopeView;

verus! {

/// Whether message kinds are known kinds, one by one.
pub open spec fn kinds_carry(
    messages: Seq<Option<CapabilityPermissionKindV1>>,
    values: Seq<CapabilityPermissionKindV1>,
) -> bool {
    &&& messages.len() == values.len()
    &&& forall|i: int| 0 <= i < messages.len() ==> (#[trigger] messages[i]) == Some(values[i])
}

/// Message kinds are the forms of at most one list of kinds.
pub proof fn kinds_form_is_exact(
    messages: Seq<Option<CapabilityPermissionKindV1>>,
    a: Seq<CapabilityPermissionKindV1>,
    b: Seq<CapabilityPermissionKindV1>,
)
    requires
        kinds_carry(messages, a),
        kinds_carry(messages, b),
    ensures
        a == b,
{
    assert forall|i: int| 0 <= i < a.len() implies a[i] == b[i] by {
        assert(messages[i] == Some(a[i]) && messages[i] == Some(b[i]));
    }
    assert(a =~= b);
}

/// The message forms of kinds.
pub fn kinds_to_wire(values: &[CapabilityPermissionKindV1]) -> (result: Vec<
    Option<CapabilityPermissionKindV1>,
>)
    ensures
        kinds_carry(result@, values@),
{
    let mut result: Vec<Option<CapabilityPermissionKindV1>> = Vec::new();
    let mut i: usize = 0;
    while i < values.len()
        invariant
            i <= values@.len(),
            result@.len() == i,
            forall|k: int| 0 <= k < i ==> (#[trigger] result@[k]) == Some(values@[k]),
        decreases values@.len() - i,
    {
        result.push(Some(values[i]));
        i += 1;
    }
    result
}

/// The kinds of message forms: all are known.
pub fn kinds_from_wire(values: &[Option<CapabilityPermissionKindV1>]) -> (result: Result<
    Vec<CapabilityPermissionKindV1>,
    DurableCodecError,
>)
    ensures
        match result {
            Ok(held) => kinds_carry(values@, held@),
            Err(error) => is_corrupt(error) && forall|other: Seq<CapabilityPermissionKindV1>|
                !#[trigger] kinds_carry(values@, other),
        },
{
    let mut result: Vec<CapabilityPermissionKindV1> = Vec::new();
    let mut i: usize = 0;
    while i < values.len()
        invariant
            i <= values@.len(),
            result@.len() == i,
            forall|k: int| 0 <= k < i ==> (#[trigger] values@[k]) == Some(result@[k]),
        decreases values@.len() - i,
    {
        match values[i] {
            Some(held) => {
                result.push(held);
            },
            None => {
                assert forall|other: Seq<CapabilityPermissionKindV1>|
                    !#[trigger] kinds_carry(values@, other) by {
                    assert(values@[i as int] != Some(other[i as int]));
                }
                return Err(DurableCodecError::corrupt());
            },
        }
        i += 1;
    }
    Ok(result)
}

/// The kind of a permission.
pub open spec fn kind_of(value: PermissionView) -> CapabilityPermissionKindV1 {
    match value {
        PermissionView::Unparameterized(tag) => CapabilityPermissionKindV1::Unparameterized(tag),
        PermissionView::ExplainCommand(_, _) => CapabilityPermissionKindV1::ExplainCommand,
        PermissionView::InvokeCommand(_, _) => CapabilityPermissionKindV1::InvokeCommand,
        PermissionView::ReadEntity(_, _) => CapabilityPermissionKindV1::ReadEntity,
        PermissionView::ScanIndex(_, _) => CapabilityPermissionKindV1::ScanIndex,
        PermissionView::QueryProjection(_, _) => CapabilityPermissionKindV1::QueryProjection,
        PermissionView::ReadProjectionStatus(_, _) =>
            CapabilityPermissionKindV1::ReadProjectionStatus,
        PermissionView::ExplainNamedQuery(_, _, _) => CapabilityPermissionKindV1::ExplainNamedQuery,
        PermissionView::ExecuteNamedQuery(_, _, _) => CapabilityPermissionKindV1::ExecuteNamedQuery,
        PermissionView::ApplicationRoleIdentity(_) =>
            CapabilityPermissionKindV1::ApplicationRoleIdentity,
        PermissionView::MigrateContract(_) => CapabilityPermissionKindV1::MigrateContract,
        PermissionView::InstallApplication(_) => CapabilityPermissionKindV1::InstallApplication,
        PermissionView::ConsumeEventStream(_, _, _) =>
            CapabilityPermissionKindV1::ConsumeEventStream,
        PermissionView::SeekEventStreamConsumer(_, _, _) =>
            CapabilityPermissionKindV1::SeekEventStreamConsumer,
        PermissionView::WatchNamedQuery(_, _, _) => CapabilityPermissionKindV1::WatchNamedQuery,
        PermissionView::ConsumeContextualSubscription(_, _, _) =>
            CapabilityPermissionKindV1::ConsumeContextualSubscription,
    }
}

/// What a permission applies to.
pub ghost enum PermissionParameterView {
    Nothing,
    Lineage(Seq<char>),
    StableId(Seq<char>, Id32),
    NamedQuery(Seq<char>, Digest, Seq<char>),
    ApplicationRole(Digest),
    ReactiveOperation(Seq<char>, Digest, Seq<char>),
}

/// The parameter of a permission.
pub open spec fn parameter_of(value: PermissionView) -> PermissionParameterView {
    match value {
        PermissionView::Unparameterized(_) => PermissionParameterView::Nothing,
        PermissionView::ExplainCommand(lineage, id)
        | PermissionView::InvokeCommand(lineage, id)
        | PermissionView::ReadEntity(lineage, id)
        | PermissionView::ScanIndex(lineage, id)
        | PermissionView::QueryProjection(lineage, id)
        | PermissionView::ReadProjectionStatus(lineage, id) => PermissionParameterView::StableId(
            lineage,
            id,
        ),
        PermissionView::ExplainNamedQuery(lineage, hash, name)
        | PermissionView::ExecuteNamedQuery(lineage, hash, name) =>
            PermissionParameterView::NamedQuery(lineage, hash, name),
        PermissionView::ApplicationRoleIdentity(hash) => PermissionParameterView::ApplicationRole(
            hash,
        ),
        PermissionView::MigrateContract(lineage) | PermissionView::InstallApplication(lineage) =>
            PermissionParameterView::Lineage(lineage),
        PermissionView::ConsumeEventStream(lineage, hash, name)
        | PermissionView::SeekEventStreamConsumer(lineage, hash, name)
        | PermissionView::WatchNamedQuery(lineage, hash, name)
        | PermissionView::ConsumeContextualSubscription(lineage, hash, name) =>
            PermissionParameterView::ReactiveOperation(lineage, hash, name),
    }
}

/// Which of the optional fields of a permission message are there.
pub open spec fn fields_present(
    message: wire::CapabilityPermissionV1,
    lineage: bool,
    stable_id: bool,
    query: bool,
    role: bool,
    reactive: bool,
) -> bool {
    &&& message.contract_lineage is Some == lineage
    &&& message.stable_id is Some == stable_id
    &&& message.query_module_hash is Some == query
    &&& message.query_name is Some == query
    &&& message.application_role_hash is Some == role
    &&& message.reactive_module_hash is Some == reactive
    &&& message.reactive_operation_name is Some == reactive
}

/// Whether a permission message holds exactly a parameter.
pub open spec fn parameter_carries(
    message: wire::CapabilityPermissionV1,
    parameter: PermissionParameterView,
) -> bool {
    match parameter {
        PermissionParameterView::Nothing => fields_present(
            message,
            false,
            false,
            false,
            false,
            false,
        ),
        PermissionParameterView::Lineage(lineage) => fields_present(
            message,
            true,
            false,
            false,
            false,
            false,
        ) && text_carries(message.contract_lineage->Some_0, lineage),
        PermissionParameterView::StableId(lineage, id) => fields_present(
            message,
            true,
            true,
            false,
            false,
            false,
        ) && text_carries(message.contract_lineage->Some_0, lineage) && message.stable_id->Some_0
            == id.value,
        PermissionParameterView::NamedQuery(lineage, hash, name) => fields_present(
            message,
            true,
            false,
            true,
            false,
            false,
        ) && text_carries(message.contract_lineage->Some_0, lineage)
            && message.query_module_hash->Some_0@ == hash.bytes@ && text_carries(
            message.query_name->Some_0,
            name,
        ),
        PermissionParameterView::ApplicationRole(hash) => fields_present(
            message,
            false,
            false,
            false,
            true,
            false,
        ) && message.application_role_hash->Some_0@ == hash.bytes@,
        PermissionParameterView::ReactiveOperation(lineage, hash, name) => fields_present(
            message,
            true,
            false,
            false,
            false,
            true,
        ) && text_carries(message.contract_lineage->Some_0, lineage)
            && message.reactive_module_hash->Some_0@ == hash.bytes@ && text_carries(
            message.reactive_operation_name->Some_0,
            name,
        ),
    }
}

/// Whether a message is the form of a permission: its kind and its parameter.
pub open spec fn permission_carries(
    message: wire::CapabilityPermissionV1,
    value: PermissionView,
) -> bool {
    message.kind == Some(kind_of(value)) && parameter_carries(message, parameter_of(value))
}

/// A permission that a base grant may hold: migration and installation live only
/// in their extensions, and identifiers are not zero.
pub open spec fn permission_valid(value: PermissionView) -> bool {
    match parameter_of(value) {
        PermissionParameterView::StableId(_, id) => id.valid(),
        PermissionParameterView::Lineage(_) => false,
        _ => true,
    }
}

/// A message is the form of at most one permission.
pub proof fn permission_form_is_exact(
    message: wire::CapabilityPermissionV1,
    a: PermissionView,
    b: PermissionView,
)
    requires
        permission_carries(message, a),
        permission_carries(message, b),
    ensures
        a == b,
{
    match (parameter_of(a), parameter_of(b)) {
        (
            PermissionParameterView::NamedQuery(_, x, _),
            PermissionParameterView::NamedQuery(_, y, _),
        ) => {
            assert(x.bytes =~= y.bytes);
        },
        (
            PermissionParameterView::ApplicationRole(x),
            PermissionParameterView::ApplicationRole(y),
        ) => {
            assert(x.bytes =~= y.bytes);
        },
        (
            PermissionParameterView::ReactiveOperation(_, x, _),
            PermissionParameterView::ReactiveOperation(_, y, _),
        ) => {
            assert(x.bytes =~= y.bytes);
        },
        _ => {},
    }
}

/// A permission message of a kind without a parameter.
fn bare_permission(kind: CapabilityPermissionKindV1) -> (result: wire::CapabilityPermissionV1)
    ensures
        result.kind == Some(kind),
        parameter_carries(result, PermissionParameterView::Nothing),
{
    wire::CapabilityPermissionV1 {
        kind: Some(kind),
        contract_lineage: None,
        stable_id: None,
        query_module_hash: None,
        query_name: None,
        application_role_hash: None,
        reactive_module_hash: None,
        reactive_operation_name: None,
    }
}

fn lineage_permission(kind: CapabilityPermissionKindV1, lineage: &String) -> (result:
    wire::CapabilityPermissionV1)
    ensures
        result.kind == Some(kind),
        parameter_carries(result, PermissionParameterView::Lineage(lineage@)),
{
    let mut message = bare_permission(kind);
    message.contract_lineage = Some(text_to_wire(lineage));
    message
}

fn stable_permission(kind: CapabilityPermissionKindV1, lineage: &String, id: Id32) -> (result:
    wire::CapabilityPermissionV1)
    ensures
        result.kind == Some(kind),
        parameter_carries(result, PermissionParameterView::StableId(lineage@, id)),
{
    let mut message = bare_permission(kind);
    message.contract_lineage = Some(text_to_wire(lineage));
    message.stable_id = Some(id.get());
    message
}

fn query_permission(
    kind: CapabilityPermissionKindV1,
    lineage: &String,
    hash: Digest,
    name: &String,
) -> (result: wire::CapabilityPermissionV1)
    ensures
        result.kind == Some(kind),
        parameter_carries(result, PermissionParameterView::NamedQuery(lineage@, hash, name@)),
{
    let mut message = bare_permission(kind);
    message.contract_lineage = Some(text_to_wire(lineage));
    message.query_module_hash = Some(copy_bytes(hash.bytes.as_slice()));
    message.query_name = Some(text_to_wire(name));
    message
}

fn reactive_permission(
    kind: CapabilityPermissionKindV1,
    lineage: &String,
    hash: Digest,
    name: &String,
) -> (result: wire::CapabilityPermissionV1)
    ensures
        result.kind == Some(kind),
        parameter_carries(
            result,
            PermissionParameterView::ReactiveOperation(lineage@, hash, name@),
        ),
{
    let mut message = bare_permission(kind);
    message.contract_lineage = Some(text_to_wire(lineage));
    message.reactive_module_hash = Some(copy_bytes(hash.bytes.as_slice()));
    message.reactive_operation_name = Some(text_to_wire(name));
    message
}

/// The message form of a permission.
pub fn permission_to_proto(value: &CapabilityPermissionV1) -> (result: wire::CapabilityPermissionV1)
    ensures
        permission_carries(result, value@),
{
    match value {
        CapabilityPermissionV1::Unparameterized(tag) => bare_permission(
            CapabilityPermissionKindV1::Unparameterized(*tag),
        ),
        CapabilityPermissionV1::ExplainCommand(lineage, id) => stable_permission(
            CapabilityPermissionKindV1::ExplainCommand,
            lineage,
            *id,
        ),
        CapabilityPermissionV1::InvokeCommand(lineage, id) => stable_permission(
            CapabilityPermissionKindV1::InvokeCommand,
            lineage,
            *id,
        ),
        CapabilityPermissionV1::ReadEntity(lineage, id) => stable_permission(
            CapabilityPermissionKindV1::ReadEntity,
            lineage,
            *id,
        ),
        CapabilityPermissionV1::ScanIndex(lineage, id) => stable_permission(
            CapabilityPermissionKindV1::ScanIndex,
            lineage,
            *id,
        ),
        CapabilityPermissionV1::QueryProjection(lineage, id) => stable_permission(
            CapabilityPermissionKindV1::QueryProjection,
            lineage,
            *id,
        ),
        CapabilityPermissionV1::ReadProjectionStatus(lineage, id) => stable_permission(
            CapabilityPermissionKindV1::ReadProjectionStatus,
            lineage,
            *id,
        ),
        CapabilityPermissionV1::ExplainNamedQuery(lineage, hash, name) => query_permission(
            CapabilityPermissionKindV1::ExplainNamedQuery,
            lineage,
            *hash,
            name,
        ),
        CapabilityPermissionV1::ExecuteNamedQuery(lineage, hash, name) => query_permission(
            CapabilityPermissionKindV1::ExecuteNamedQuery,
            lineage,
            *hash,
            name,
        ),
        CapabilityPermissionV1::ApplicationRoleIdentity(hash) => {
            let mut message = bare_permission(CapabilityPermissionKindV1::ApplicationRoleIdentity);
            message.application_role_hash = Some(copy_bytes(hash.bytes.as_slice()));
            message
        },
        CapabilityPermissionV1::MigrateContract(lineage) => lineage_permission(
            CapabilityPermissionKindV1::MigrateContract,
            lineage,
        ),
        CapabilityPermissionV1::InstallApplication(lineage) => lineage_permission(
            CapabilityPermissionKindV1::InstallApplication,
            lineage,
        ),
        CapabilityPermissionV1::ConsumeEventStream(lineage, hash, name) => reactive_permission(
            CapabilityPermissionKindV1::ConsumeEventStream,
            lineage,
            *hash,
            name,
        ),
        CapabilityPermissionV1::SeekEventStreamConsumer(lineage, hash, name) =>
            reactive_permission(
            CapabilityPermissionKindV1::SeekEventStreamConsumer,
            lineage,
            *hash,
            name,
        ),
        CapabilityPermissionV1::WatchNamedQuery(lineage, hash, name) => reactive_permission(
            CapabilityPermissionKindV1::WatchNamedQuery,
            lineage,
            *hash,
            name,
        ),
        CapabilityPermissionV1::ConsumeContextualSubscription(lineage, hash, name) =>
            reactive_permission(
            CapabilityPermissionKindV1::ConsumeContextualSubscription,
            lineage,
            *hash,
            name,
        ),
    }
}

/// What a permission applies to, as it is read from a message.
pub enum PermissionParameter {
    Nothing,
    Lineage(String),
    StableId(String, u32),
    NamedQuery(String, Digest, String),
    ApplicationRole(Digest),
    ReactiveOperation(String, Digest, String),
}

/// Whether a read parameter is a parameter.
pub open spec fn parameter_is(held: PermissionParameter, value: PermissionParameterView) -> bool {
    match (held, value) {
        (PermissionParameter::Nothing, PermissionParameterView::Nothing) => true,
        (PermissionParameter::Lineage(a), PermissionParameterView::Lineage(x)) => a@ == x,
        (PermissionParameter::StableId(a, b), PermissionParameterView::StableId(x, y)) => a@ == x
            && b == y.value,
        (PermissionParameter::NamedQuery(a, b, c), PermissionParameterView::NamedQuery(x, y, z)) =>
            a@ == x && b == y && c@ == z,
        (PermissionParameter::ApplicationRole(a), PermissionParameterView::ApplicationRole(x)) => a
            == x,
        (
            PermissionParameter::ReactiveOperation(a, b, c),
            PermissionParameterView::ReactiveOperation(x, y, z),
        ) => a@ == x && b == y && c@ == z,
        _ => false,
    }
}

fn parameter_from_proto(value: &wire::CapabilityPermissionV1) -> (result: Result<
    PermissionParameter,
    DurableCodecError,
>)
    ensures
        match result {
            Ok(held) => forall|other: PermissionParameterView| #[trigger]
                parameter_carries(*value, other) <==> parameter_is(held, other),
            Err(error) => is_corrupt(error) && forall|other: PermissionParameterView|
                !#[trigger] parameter_carries(*value, other),
        },
{
    match (
        &value.contract_lineage,
        &value.stable_id,
        &value.query_module_hash,
        &value.query_name,
        &value.application_role_hash,
        &value.reactive_module_hash,
        &value.reactive_operation_name,
    ) {
        (None, None, None, None, None, None, None) => Ok(PermissionParameter::Nothing),
        (Some(lineage), None, None, None, None, None, None) => {
            let lineage = text_from_wire(lineage)?;
            Ok(PermissionParameter::Lineage(lineage))
        },
        (Some(lineage), Some(id), None, None, None, None, None) => {
            let lineage = text_from_wire(lineage)?;
            Ok(PermissionParameter::StableId(lineage, *id))
        },
        (Some(lineage), None, Some(hash), Some(name), None, None, None) => {
            let hash = digest_from_wire(hash)?;
            let lineage = text_from_wire(lineage)?;
            let name = text_from_wire(name)?;
            proof {
                same_bytes_same_digest(hash);
            }
            Ok(PermissionParameter::NamedQuery(lineage, hash, name))
        },
        (None, None, None, None, Some(hash), None, None) => {
            let hash = digest_from_wire(hash)?;
            proof {
                same_bytes_same_digest(hash);
            }
            Ok(PermissionParameter::ApplicationRole(hash))
        },
        (Some(lineage), None, None, None, None, Some(hash), Some(name)) => {
            let hash = digest_from_wire(hash)?;
            let lineage = text_from_wire(lineage)?;
            let name = text_from_wire(name)?;
            proof {
                same_bytes_same_digest(hash);
            }
            Ok(PermissionParameter::ReactiveOperation(lineage, hash, name))
        },
        _ => Err(DurableCodecError::corrupt()),
    }
}

proof fn same_bytes_same_digest(held: Digest)
    ensures
        forall|other: Digest| #[trigger] other.bytes@ == held.bytes@ ==> other == held,
{
    assert forall|other: Digest| #[trigger] other.bytes@ == held.bytes@ implies other == held by {
        assert(other.bytes =~= held.bytes);
    }
}

/// What reading a message gives: the permission that it is the form of, or a
/// corruption where it is the form of no valid one.
pub open spec fn permission_read(
    message: wire::CapabilityPermissionV1,
    result: Result<CapabilityPermissionV1, DurableCodecError>,
) -> bool {
    match result {
        Ok(held) => permission_carries(message, held@) && permission_valid(held@),
        Err(error) => is_corrupt(error) && forall|other: PermissionView| #[trigger]
            permission_carries(message, other) ==> !permission_valid(other),
    }
}

/// Reads a permission: a kind with exactly its own parameter, and neither
/// migration nor installation.
pub fn permission_from_proto(value: &wire::CapabilityPermissionV1) -> (result: Result<
    CapabilityPermissionV1,
    DurableCodecError,
>)
    ensures
        permission_read(*value, result),
{
    let kind = require(value.kind)?;
    let parameter = parameter_from_proto(value)?;
    assert forall|other: PermissionView| #[trigger]
        permission_carries(*value, other) implies parameter_is(parameter, parameter_of(other)) by {
        assert(parameter_carries(*value, parameter_of(other)));
    }
    let ghost held_parameter = parameter;
    let result = match (kind, parameter) {
        (
            CapabilityPermissionKindV1::ExplainCommand,
            PermissionParameter::StableId(lineage, id),
        ) => CapabilityPermissionV1::ExplainCommand(lineage, require(Id32::new(id))?),
        (CapabilityPermissionKindV1::InvokeCommand, PermissionParameter::StableId(lineage, id)) =>
            CapabilityPermissionV1::InvokeCommand(lineage, require(Id32::new(id))?),
        (CapabilityPermissionKindV1::ReadEntity, PermissionParameter::StableId(lineage, id)) =>
            CapabilityPermissionV1::ReadEntity(lineage, require(Id32::new(id))?),
        (CapabilityPermissionKindV1::ScanIndex, PermissionParameter::StableId(lineage, id)) =>
            CapabilityPermissionV1::ScanIndex(lineage, require(Id32::new(id))?),
        (
            CapabilityPermissionKindV1::QueryProjection,
            PermissionParameter::StableId(lineage, id),
        ) => CapabilityPermissionV1::QueryProjection(lineage, require(Id32::new(id))?),
        (
            CapabilityPermissionKindV1::ReadProjectionStatus,
            PermissionParameter::StableId(lineage, id),
        ) => CapabilityPermissionV1::ReadProjectionStatus(lineage, require(Id32::new(id))?),
        (
            CapabilityPermissionKindV1::ExplainNamedQuery,
            PermissionParameter::NamedQuery(lineage, hash, name),
        ) => CapabilityPermissionV1::ExplainNamedQuery(lineage, hash, name),
        (
            CapabilityPermissionKindV1::ExecuteNamedQuery,
            PermissionParameter::NamedQuery(lineage, hash, name),
        ) => CapabilityPermissionV1::ExecuteNamedQuery(lineage, hash, name),
        (
            CapabilityPermissionKindV1::ApplicationRoleIdentity,
            PermissionParameter::ApplicationRole(hash),
        ) => CapabilityPermissionV1::ApplicationRoleIdentity(hash),
        (
            CapabilityPermissionKindV1::ConsumeEventStream,
            PermissionParameter::ReactiveOperation(lineage, hash, name),
        ) => CapabilityPermissionV1::ConsumeEventStream(lineage, hash, name),
        (
            CapabilityPermissionKindV1::SeekEventStreamConsumer,
            PermissionParameter::ReactiveOperation(lineage, hash, name),
        ) => CapabilityPermissionV1::SeekEventStreamConsumer(lineage, hash, name),
        (
            CapabilityPermissionKindV1::WatchNamedQuery,
            PermissionParameter::ReactiveOperation(lineage, hash, name),
        ) => CapabilityPermissionV1::WatchNamedQuery(lineage, hash, name),
        (
            CapabilityPermissionKindV1::ConsumeContextualSubscription,
            PermissionParameter::ReactiveOperation(lineage, hash, name),
        ) => CapabilityPermissionV1::ConsumeContextualSubscription(lineage, hash, name),
        (CapabilityPermissionKindV1::Unparameterized(tag), PermissionParameter::Nothing) =>
            CapabilityPermissionV1::Unparameterized(tag),
        _ => {
            return Err(DurableCodecError::corrupt());
        },
    };
    assert(parameter_is(held_parameter, parameter_of(result@)));
    Ok(result)
}

/// Reading the message form of a permission gives back what was written.
pub proof fn permission_round_trip(
    value: PermissionView,
    message: wire::CapabilityPermissionV1,
    read: Result<CapabilityPermissionV1, DurableCodecError>,
)
    requires
        permission_valid(value),
        permission_carries(message, value),
        permission_read(message, read),
    ensures
        read is Ok,
        read->Ok_0@ == value,
{
    if let Ok(held) = read {
        permission_form_is_exact(message, held@, value);
    }
}

/// Whether messages are the forms of values, one by one.
pub open spec fn permission_list_carries(
    messages: Seq<wire::CapabilityPermissionV1>,
    values: Seq<PermissionView>,
) -> bool {
    &&& messages.len() == values.len()
    &&& forall|i: int|
        0 <= i < messages.len() ==> permission_carries(#[trigger] messages[i], values[i])
}

/// All values are valid.
pub open spec fn permission_list_valid(values: Seq<PermissionView>) -> bool {
    forall|i: int| 0 <= i < values.len() ==> permission_valid(#[trigger] values[i])
}

/// Messages are the forms of at most one list of values.
pub proof fn permission_list_form_is_exact(
    messages: Seq<wire::CapabilityPermissionV1>,
    a: Seq<PermissionView>,
    b: Seq<PermissionView>,
)
    requires
        permission_list_carries(messages, a),
        permission_list_carries(messages, b),
    ensures
        a == b,
{
    assert forall|i: int| 0 <= i < a.len() implies a[i] == b[i] by {
        assert(permission_carries(messages[i], a[i]) && permission_carries(messages[i], b[i]));
        permission_form_is_exact(messages[i], a[i], b[i]);
    }
    assert(a =~= b);
}

/// The message forms of values.
pub fn permission_list_to_proto(
    values: &[CapabilityPermissionV1],
) -> (result: Vec<wire::CapabilityPermissionV1>)
    ensures
        permission_list_carries(result@, permission_views(values@)),
{
    let mut result: Vec<wire::CapabilityPermissionV1> = Vec::new();
    let mut i: usize = 0;
    while i < values.len()
        invariant
            i <= values@.len(),
            result@.len() == i,
            forall|k: int| 0 <= k < i ==> permission_carries(#[trigger] result@[k], values@[k]@),
        decreases values@.len() - i,
    {
        result.push(permission_to_proto(&values[i]));
        i += 1;
    }
    result
}

/// Reads values from their message forms.
pub fn permission_list_from_proto(values: &[wire::CapabilityPermissionV1]) -> (result: Result<
    Vec<CapabilityPermissionV1>,
    DurableCodecError,
>)
    ensures
        match result {
            Ok(held) => permission_list_carries(
                values@,
                permission_views(held@),
            ) && permission_list_valid(permission_views(held@)),
            Err(error) => is_corrupt(error) && forall|other: Seq<PermissionView>| #[trigger]
                permission_list_carries(values@, other) ==> !permission_list_valid(other),
        },
{
    let mut result: Vec<CapabilityPermissionV1> = Vec::new();
    let mut i: usize = 0;
    while i < values.len()
        invariant
            i <= values@.len(),
            result@.len() == i,
            forall|k: int|
                0 <= k < i ==> permission_carries(values@[k], #[trigger] result@[k]@)
                    && permission_valid(result@[k]@),
        decreases values@.len() - i,
    {
        match permission_from_proto(&values[i]) {
            Ok(held) => {
                result.push(held);
            },
            Err(error) => {
                assert forall|other: Seq<PermissionView>| #[trigger]
                    permission_list_carries(values@, other)
                        implies !permission_list_valid(other) by {
                    assert(permission_carries(values@[i as int], other[i as int]));
                    assert(!permission_valid(other[i as int]));
                }
                return Err(error);
            },
        }
        i += 1;
    }
    Ok(result)
}

/// Whether a message is the form of a keyed digest of a capability token.
pub open spec fn token_digest_carries(
    message: wire::CapabilityTokenDigestV1,
    value: CapabilityTokenDigest,
) -> bool {
    &&& message.digest_scheme == 1
    &&& message.digest_key_id == value.key_id.value
    &&& message.digest@ == value.digest.bytes@
}

/// The parts of a keyed digest of a capability token are valid.
pub open spec fn token_digest_valid(value: CapabilityTokenDigest) -> bool {
    &&& value.key_id.valid()
}

/// A message is the form of at most one value.
pub proof fn token_digest_form_is_exact(
    message: wire::CapabilityTokenDigestV1,
    a: CapabilityTokenDigest,
    b: CapabilityTokenDigest,
)
    requires
        token_digest_carries(message, a),
        token_digest_carries(message, b),
    ensures
        a == b,
{
    assert(a.digest.bytes =~= b.digest.bytes);
}

/// The message form of a keyed digest of a capability token.
pub fn token_digest_to_proto(
    value: CapabilityTokenDigest,
) -> (result: wire::CapabilityTokenDigestV1)
    ensures
        token_digest_carries(result, value),
{
    wire::CapabilityTokenDigestV1 {
        digest_scheme: 1,
        digest_key_id: value.key_id.get(),
        digest: copy_bytes(value.digest.bytes.as_slice()),
    }
}

/// Reads a keyed digest of a capability token.
pub fn token_digest_from_proto(value: &wire::CapabilityTokenDigestV1) -> (result: Result<
    CapabilityTokenDigest,
    DurableCodecError,
>)
    ensures
        match result {
            Ok(held) => token_digest_carries(*value, held) && token_digest_valid(held),
            Err(error) => is_corrupt(error) && forall|other: CapabilityTokenDigest| #[trigger]
                token_digest_carries(*value, other) ==> !token_digest_valid(other),
        },
{
    if value.digest_scheme != 1 {
        return Err(DurableCodecError::corrupt());
    }
    let key_id = require(Id32::new(value.digest_key_id))?;
    let digest = digest_from_wire(&value.digest)?;
    Ok(CapabilityTokenDigest { key_id, digest })
}

/// Whether a message is the form of the revocation of a capability.
pub open spec fn revoked_carries(
    message: wire::RevokedCapabilityV1,
    value: RevokedCapability,
) -> bool {
    &&& (message.revoked_at matches Some(part) && timestamp_carries(part, value.revoked_at))
    &&& message.administration_sequence == value.administration_sequence.value
    &&& tag_carries(message.reason, value.reason)
}

/// The parts of the revocation of a capability are valid.
pub open spec fn revoked_valid(value: RevokedCapability) -> bool {
    &&& timestamp_valid(value.revoked_at)
    &&& value.administration_sequence.valid()
}

/// A message is the form of at most one value.
pub proof fn revoked_form_is_exact(
    message: wire::RevokedCapabilityV1,
    a: RevokedCapability,
    b: RevokedCapability,
)
    requires
        revoked_carries(message, a),
        revoked_carries(message, b),
    ensures
        a == b,
{
    timestamp_form_is_exact(message.revoked_at->Some_0, a.revoked_at, b.revoked_at);
}

/// The message form of the revocation of a capability.
pub fn revoked_to_proto(value: RevokedCapability) -> (result: wire::RevokedCapabilityV1)
    ensures
        revoked_carries(result, value),
{
    wire::RevokedCapabilityV1 {
        revoked_at: Some(timestamp_to_proto(value.revoked_at)),
        administration_sequence: value.administration_sequence.get(),
        reason: tag_to_wire(value.reason),
    }
}

/// Reads the revocation of a capability.
pub fn revoked_from_proto(value: &wire::RevokedCapabilityV1) -> (result: Result<
    RevokedCapability,
    DurableCodecError,
>)
    ensures
        match result {
            Ok(held) => revoked_carries(*value, held) && revoked_valid(held),
            Err(error) => is_corrupt(error) && forall|other: RevokedCapability| #[trigger]
                revoked_carries(*value, other) ==> !revoked_valid(other),
        },
{
    let revoked_at = timestamp_from_proto(require_ref(&value.revoked_at)?)?;
    let administration_sequence = require(Id64::new(value.administration_sequence))?;
    let reason = tag_from_wire(&value.reason)?;
    Ok(RevokedCapability { revoked_at, administration_sequence, reason })
}

/// Whether a message is the form of a capability lifecycle.
pub open spec fn lifecycle_carries(
    message: wire::CapabilityLifecycleV1,
    value: CapabilityLifecycleV1,
) -> bool {
    match value {
        CapabilityLifecycleV1::Active => message.state matches Some(
            wire::CapabilityLifecycleV1State::Active,
        ),
        CapabilityLifecycleV1::Revoked(part) => message.state matches Some(
            wire::CapabilityLifecycleV1State::Revoked(form),
        ) && revoked_carries(form, part),
    }
}

/// The parts of a capability lifecycle are valid.
pub open spec fn lifecycle_valid(value: CapabilityLifecycleV1) -> bool {
    match value {
        CapabilityLifecycleV1::Active => true,
        CapabilityLifecycleV1::Revoked(part) => revoked_valid(part),
    }
}

/// A message is the form of at most one value.
pub proof fn lifecycle_form_is_exact(
    message: wire::CapabilityLifecycleV1,
    a: CapabilityLifecycleV1,
    b: CapabilityLifecycleV1,
)
    requires
        lifecycle_carries(message, a),
        lifecycle_carries(message, b),
    ensures
        a == b,
{
    match (a, b) {
        (CapabilityLifecycleV1::Revoked(part), CapabilityLifecycleV1::Revoked(other)) => {
            if let Some(wire::CapabilityLifecycleV1State::Revoked(form)) = message.state {
                revoked_form_is_exact(form, part, other);
            }
        },
        _ => {},
    }
}

/// The message form of a capability lifecycle.
pub fn lifecycle_to_proto(value: CapabilityLifecycleV1) -> (result: wire::CapabilityLifecycleV1)
    ensures
        lifecycle_carries(result, value),
{
    let form = match value {
        CapabilityLifecycleV1::Active => wire::CapabilityLifecycleV1State::Active,
        CapabilityLifecycleV1::Revoked(part) => wire::CapabilityLifecycleV1State::Revoked(
            revoked_to_proto(part),
        ),
    };
    wire::CapabilityLifecycleV1 { state: Some(form) }
}

/// Reads a capability lifecycle.
pub fn lifecycle_from_proto(value: &wire::CapabilityLifecycleV1) -> (result: Result<
    CapabilityLifecycleV1,
    DurableCodecError,
>)
    ensures
        match result {
            Ok(held) => lifecycle_carries(*value, held) && lifecycle_valid(held),
            Err(error) => is_corrupt(error) && forall|other: CapabilityLifecycleV1| #[trigger]
                lifecycle_carries(*value, other) ==> !lifecycle_valid(other),
        },
{
    match require_ref(&value.state)? {
        wire::CapabilityLifecycleV1State::Active => Ok(CapabilityLifecycleV1::Active),
        wire::CapabilityLifecycleV1State::Revoked(form) => {
            let part = revoked_from_proto(form)?;
            Ok(CapabilityLifecycleV1::Revoked(part))
        },
    }
}

/// Whether a message is the form of a partition of one contract lineage.
pub open spec fn scoped_partition_carries(
    message: wire::ScopedPartitionV1,
    value: ScopedPartitionView,
) -> bool {
    &&& text_carries(message.contract_lineage, value.lineage)
    &&& key_carries(message.partition_key, value.partition_key)
}

/// A message is the form of at most one value.
pub proof fn scoped_partition_form_is_exact(
    message: wire::ScopedPartitionV1,
    a: ScopedPartitionView,
    b: ScopedPartitionView,
)
    requires
        scoped_partition_carries(message, a),
        scoped_partition_carries(message, b),
    ensures
        a == b,
{
}

/// The message form of a partition of one contract lineage.
pub fn scoped_partition_to_proto(value: &ScopedPartitionV1) -> (result: wire::ScopedPartitionV1)
    ensures
        scoped_partition_carries(result, value@),
{
    wire::ScopedPartitionV1 {
        contract_lineage: text_to_wire(&value.lineage),
        partition_key: key_to_wire(&value.partition_key),
    }
}

/// Reads a partition of one contract lineage.
pub fn scoped_partition_from_proto(value: &wire::ScopedPartitionV1) -> (result: Result<
    ScopedPartitionV1,
    DurableCodecError,
>)
    ensures
        match result {
            Ok(held) => scoped_partition_carries(*value, held@),
            Err(error) => is_corrupt(error) && forall|other: ScopedPartitionView|
                !#[trigger] scoped_partition_carries(*value, other),
        },
{
    let lineage = text_from_wire(&value.contract_lineage)?;
    let partition_key = key_from_wire(&value.partition_key)?;
    Ok(ScopedPartitionV1 { lineage, partition_key })
}

/// Whether messages are the forms of values, one by one.
pub open spec fn scoped_partition_list_carries(
    messages: Seq<wire::ScopedPartitionV1>,
    values: Seq<ScopedPartitionView>,
) -> bool {
    &&& messages.len() == values.len()
    &&& forall|i: int|
        0 <= i < messages.len() ==> scoped_partition_carries(#[trigger] messages[i], values[i])
}

/// Messages are the forms of at most one list of values.
pub proof fn scoped_partition_list_form_is_exact(
    messages: Seq<wire::ScopedPartitionV1>,
    a: Seq<ScopedPartitionView>,
    b: Seq<ScopedPartitionView>,
)
    requires
        scoped_partition_list_carries(messages, a),
        scoped_partition_list_carries(messages, b),
    ensures
        a == b,
{
    assert forall|i: int| 0 <= i < a.len() implies a[i] == b[i] by {
        assert(scoped_partition_carries(messages[i], a[i])
            && scoped_partition_carries(messages[i], b[i]));
        scoped_partition_form_is_exact(messages[i], a[i], b[i]);
    }
    assert(a =~= b);
}

/// The message forms of values.
pub fn scoped_partition_list_to_proto(
    values: &[ScopedPartitionV1],
) -> (result: Vec<wire::ScopedPartitionV1>)
    ensures
        scoped_partition_list_carries(result@, scoped_partition_views(values@)),
{
    let mut result: Vec<wire::ScopedPartitionV1> = Vec::new();
    let mut i: usize = 0;
    while i < values.len()
        invariant
            i <= values@.len(),
            result@.len() == i,
            forall|k: int| 0 <= k < i ==> scoped_partition_carries(
                #[trigger] result@[k],
                values@[k]@,
            ),
        decreases values@.len() - i,
    {
        result.push(scoped_partition_to_proto(&values[i]));
        i += 1;
    }
    result
}

/// Reads values from their message forms.
pub fn scoped_partition_list_from_proto(values: &[wire::ScopedPartitionV1]) -> (result: Result<
    Vec<ScopedPartitionV1>,
    DurableCodecError,
>)
    ensures
        match result {
            Ok(held) => scoped_partition_list_carries(values@, scoped_partition_views(held@)),
            Err(error) => is_corrupt(error) && forall|other: Seq<ScopedPartitionView>|
                !#[trigger] scoped_partition_list_carries(values@, other),
        },
{
    let mut result: Vec<ScopedPartitionV1> = Vec::new();
    let mut i: usize = 0;
    while i < values.len()
        invariant
            i <= values@.len(),
            result@.len() == i,
            forall|k: int|
                0 <= k < i ==> scoped_partition_carries(values@[k], #[trigger] result@[k]@),
        decreases values@.len() - i,
    {
        match scoped_partition_from_proto(&values[i]) {
            Ok(held) => {
                result.push(held);
            },
            Err(error) => {
                assert forall|other: Seq<ScopedPartitionView>|
                    !#[trigger] scoped_partition_list_carries(values@, other) by {
                    assert(!scoped_partition_carries(values@[i as int], other[i as int]));
                }
                return Err(error);
            },
        }
        i += 1;
    }
    Ok(result)
}

/// Integers are the forms of at most one list of identifiers.
proof fn same_ids_carried(messages: Seq<u32>, a: Seq<Id32>, b: Seq<Id32>)
    requires
        ids_carry(messages, a),
        ids_carry(messages, b),
    ensures
        a == b,
{
    assert forall|i: int| 0 <= i < a.len() implies a[i] == b[i] by {
        assert(messages[i] == a[i].value && messages[i] == b[i].value);
    }
    assert(a =~= b);
}

/// Whether a message is the form of an explicit list of partitions in canonical order.
pub open spec fn explicit_scope_carries(
    message: wire::ExplicitPartitionScopeV1,
    value: ExplicitPartitionScopeView,
) -> bool {
    &&& explicit_scope_parts_carry(message, value)
    &&& partitions_rebuilt(message.rebuilt, value.partitions)
}

/// Whether a message holds the parts of an explicit list of partitions, whatever the owning
/// type says of them.
pub open spec fn explicit_scope_parts_carry(
    message: wire::ExplicitPartitionScopeV1,
    value: ExplicitPartitionScopeView,
) -> bool {
    &&& scoped_partition_list_carries(message.partitions@, value.partitions)
}

/// Whether the parts of an explicit list of partitions are sound, whatever the owning type
/// says of them.
pub open spec fn explicit_scope_parts_sound(message: wire::ExplicitPartitionScopeV1) -> bool {
    exists|value: ExplicitPartitionScopeView| #[trigger] explicit_scope_parts_carry(message, value)
}

/// Whether an explicit list of partitions is refused for a limit although its parts are sound.
pub open spec fn explicit_scope_over_limit(message: wire::ExplicitPartitionScopeV1) -> bool {
    &&& explicit_scope_parts_sound(message)
    &&& (message.rebuilt matches Err(error) && over_limit(error))
}

/// A message is the form of at most one value.
pub proof fn explicit_scope_form_is_exact(
    message: wire::ExplicitPartitionScopeV1,
    a: ExplicitPartitionScopeView,
    b: ExplicitPartitionScopeView,
)
    requires
        explicit_scope_carries(message, a),
        explicit_scope_carries(message, b),
    ensures
        a == b,
{
    scoped_partition_list_form_is_exact(message.partitions@, a.partitions, b.partitions);
}

/// The message form of an explicit list of partitions in canonical order.
pub fn explicit_scope_to_proto(
    value: &ExplicitPartitionScope,
) -> (result: wire::ExplicitPartitionScopeV1)
    ensures
        explicit_scope_carries(result, value@),
{
    wire::ExplicitPartitionScopeV1 {
        partitions: scoped_partition_list_to_proto(&value.partitions),
        rebuilt: Ok(copy_scoped_partition_list(&value.partitions)),
    }
}

/// Reads an explicit list of partitions in canonical order.
pub fn explicit_scope_from_proto(value: &wire::ExplicitPartitionScopeV1) -> (result: Result<
    ExplicitPartitionScope,
    DurableCodecError,
>)
    ensures
        match result {
            Ok(held) => explicit_scope_carries(*value, held@),
            Err(error) => error.kind == unread_failure(explicit_scope_over_limit(*value)) && forall|
                other: ExplicitPartitionScopeView,
            | !#[trigger] explicit_scope_carries(*value, other),
        },
{
    let partitions = scoped_partition_list_from_proto(&value.partitions)?;
    let read = ExplicitPartitionScope { partitions };
    assert(explicit_scope_parts_carry(*value, read@));
    match &value.rebuilt {
        Err(error) => Err(DurableCodecError::from_storage_value(*error)),
        Ok(list) => if same_scoped_partition_list(list, &read.partitions) {
            Ok(read)
        } else {
            assert forall|other: ExplicitPartitionScopeView| !#[trigger]
                explicit_scope_carries(*value, other) by {
                if explicit_scope_carries(*value, other) {
                    scoped_partition_list_form_is_exact(value.partitions@, read@.partitions,
                        other.partitions);
                }
            }
            Err(DurableCodecError::corrupt())
        },
    }
}

/// Whether a partition scope is refused for a limit.
pub open spec fn partition_scope_over_limit(message: wire::PartitionScopeV1) -> bool {
    message.scope matches Some(wire::PartitionScopeV1Scope::Explicit(form))
        && explicit_scope_over_limit(form)
}

/// Whether a message is the form of a partition scope.
pub open spec fn partition_scope_carries(
    message: wire::PartitionScopeV1,
    value: PartitionScopeView,
) -> bool {
    match value {
        PartitionScopeView::All => message.scope matches Some(
            wire::PartitionScopeV1Scope::All,
        ),
        PartitionScopeView::Explicit(part) => message.scope matches Some(
            wire::PartitionScopeV1Scope::Explicit(form),
        ) && explicit_scope_carries(form, part),
    }
}

/// A message is the form of at most one value.
pub proof fn partition_scope_form_is_exact(
    message: wire::PartitionScopeV1,
    a: PartitionScopeView,
    b: PartitionScopeView,
)
    requires
        partition_scope_carries(message, a),
        partition_scope_carries(message, b),
    ensures
        a == b,
{
    match (a, b) {
        (PartitionScopeView::Explicit(part), PartitionScopeView::Explicit(other)) => {
            if let Some(wire::PartitionScopeV1Scope::Explicit(form)) = message.scope {
                explicit_scope_form_is_exact(form, part, other);
            }
        },
        _ => {},
    }
}

/// The message form of a partition scope.
pub fn partition_scope_to_proto(value: &PartitionScopeV1) -> (result: wire::PartitionScopeV1)
    ensures
        partition_scope_carries(result, value@),
{
    let form = match value {
        PartitionScopeV1::All => wire::PartitionScopeV1Scope::All,
        PartitionScopeV1::Explicit(part) => wire::PartitionScopeV1Scope::Explicit(
            explicit_scope_to_proto(part),
        ),
    };
    wire::PartitionScopeV1 { scope: Some(form) }
}

/// Reads a partition scope.
pub fn partition_scope_from_proto(value: &wire::PartitionScopeV1) -> (result: Result<
    PartitionScopeV1,
    DurableCodecError,
>)
    ensures
        match result {
            Ok(held) => partition_scope_carries(*value, held@),
            Err(error) =>
                error.kind == unread_failure(partition_scope_over_limit(*value)) && forall|
                other: PartitionScopeView,
            | !#[trigger] partition_scope_carries(*value, other),
        },
{
    match require_ref(&value.scope)? {
        wire::PartitionScopeV1Scope::All => Ok(PartitionScopeV1::All),
        wire::PartitionScopeV1Scope::Explicit(form) => {
            let part = explicit_scope_from_proto(form)?;
            Ok(PartitionScopeV1::Explicit(part))
        },
    }
}

/// Whether a message is the form of the permissions of a grant in canonical order.
pub open spec fn permissions_carries(
    message: wire::CapabilityPermissionsV1,
    value: PermissionsView,
) -> bool {
    &&& permissions_parts_carry(message, value)
    &&& permissions_rebuilt(message.rebuilt, value.values)
}

/// Whether a message holds the parts of the permissions of a grant, whatever the owning
/// type says of them.
pub open spec fn permissions_parts_carry(
    message: wire::CapabilityPermissionsV1,
    value: PermissionsView,
) -> bool {
    &&& permission_list_carries(message.values@, value.values)
}

/// Whether the parts of a list of permissions are sound, whatever the owning type says of them.
pub open spec fn permissions_parts_sound(message: wire::CapabilityPermissionsV1) -> bool {
    exists|value: PermissionsView| #[trigger] permissions_parts_carry(message, value)
        && permissions_valid(value)
}

/// Whether a list of permissions is refused for a limit although its parts are sound.
pub open spec fn permissions_over_limit(message: wire::CapabilityPermissionsV1) -> bool {
    &&& permissions_parts_sound(message)
    &&& (message.rebuilt matches Err(error) && over_limit(error))
}

/// The parts of the permissions of a grant in canonical order are valid.
pub open spec fn permissions_valid(value: PermissionsView) -> bool {
    &&& permission_list_valid(value.values)
}

/// A message is the form of at most one value.
pub proof fn permissions_form_is_exact(
    message: wire::CapabilityPermissionsV1,
    a: PermissionsView,
    b: PermissionsView,
)
    requires
        permissions_carries(message, a),
        permissions_carries(message, b),
    ensures
        a == b,
{
    permission_list_form_is_exact(message.values@, a.values, b.values);
}

/// The message form of the permissions of a grant in canonical order.
pub fn permissions_to_proto(
    value: &CapabilityPermissionsV1,
) -> (result: wire::CapabilityPermissionsV1)
    ensures
        permissions_carries(result, value@),
{
    wire::CapabilityPermissionsV1 {
        values: permission_list_to_proto(&value.values),
        rebuilt: Ok(copy_permission_list(&value.values)),
    }
}

/// Reads the permissions of a grant in canonical order.
pub fn permissions_from_proto(value: &wire::CapabilityPermissionsV1) -> (result: Result<
    CapabilityPermissionsV1,
    DurableCodecError,
>)
    ensures
        match result {
            Ok(held) => permissions_carries(*value, held@) && permissions_valid(held@),
            Err(error) => error.kind == unread_failure(permissions_over_limit(*value)) && forall|
                other: PermissionsView,
            | #[trigger]
                permissions_carries(*value, other) ==> !permissions_valid(other),
        },
{
    let values = permission_list_from_proto(&value.values)?;
    let read = CapabilityPermissionsV1 { values };
    assert(permissions_parts_carry(*value, read@));
    match &value.rebuilt {
        Err(error) => Err(DurableCodecError::from_storage_value(*error)),
        Ok(list) => if same_permission_list(list, &read.values) {
            Ok(read)
        } else {
            assert forall|other: PermissionsView| #[trigger]
                permissions_carries(*value, other) implies
                !permissions_valid(other) by {
                permission_list_form_is_exact(value.values@, read@.values, other.values);
            }
            Err(DurableCodecError::corrupt())
        },
    }
}

/// Whether a message is the form of the fields of one entity type that a grant shows.
pub open spec fn visible_fields_carries(
    message: wire::EntityFieldVisibilityV1,
    value: VisibleFieldsView,
) -> bool {
    &&& visible_fields_parts_carry(message, value)
    &&& ids_rebuilt(message.rebuilt, value.fields)
}

/// Whether a message holds the parts of visible fields, whatever the owning type says of them.
pub open spec fn visible_fields_parts_carry(
    message: wire::EntityFieldVisibilityV1,
    value: VisibleFieldsView,
) -> bool {
    &&& text_carries(message.contract_lineage, value.lineage)
    &&& message.entity_type_id == value.entity_type.value
    &&& ids_carry(message.field_ids@, value.fields)
}

/// Whether the parts of visible fields are sound, whatever the owning type says of them.
pub open spec fn visible_fields_parts_sound(message: wire::EntityFieldVisibilityV1) -> bool {
    exists|value: VisibleFieldsView| #[trigger] visible_fields_parts_carry(message, value)
        && visible_fields_valid(value)
}

/// Whether visible fields are refused for a limit although their parts are sound.
pub open spec fn visible_fields_over_limit(message: wire::EntityFieldVisibilityV1) -> bool {
    &&& visible_fields_parts_sound(message)
    &&& (message.rebuilt matches Err(error) && over_limit(error))
}

/// The parts of the fields of one entity type that a grant shows are valid.
pub open spec fn visible_fields_valid(value: VisibleFieldsView) -> bool {
    &&& value.entity_type.valid()
    &&& ids_valid(value.fields)
}

/// A message is the form of at most one value.
pub proof fn visible_fields_form_is_exact(
    message: wire::EntityFieldVisibilityV1,
    a: VisibleFieldsView,
    b: VisibleFieldsView,
)
    requires
        visible_fields_carries(message, a),
        visible_fields_carries(message, b),
    ensures
        a == b,
{
    assert forall|i: int| 0 <= i < a.fields.len() implies a.fields[i] == b.fields[i] by {
        assert(message.field_ids@[i] == a.fields[i].value
            && message.field_ids@[i] == b.fields[i].value);
    }
    assert(a.fields =~= b.fields);
}

/// The message form of the fields of one entity type that a grant shows.
pub fn visible_fields_to_proto(value: &VisibleFields) -> (result: wire::EntityFieldVisibilityV1)
    ensures
        visible_fields_carries(result, value@),
{
    wire::EntityFieldVisibilityV1 {
        contract_lineage: text_to_wire(&value.lineage),
        entity_type_id: value.entity_type.get(),
        field_ids: ids_to_wire(&value.fields),
        rebuilt: Ok(copy_ids(&value.fields)),
    }
}

/// Reads the fields of one entity type that a grant shows.
pub fn visible_fields_from_proto(value: &wire::EntityFieldVisibilityV1) -> (result: Result<
    VisibleFields,
    DurableCodecError,
>)
    ensures
        match result {
            Ok(held) => visible_fields_carries(*value, held@) && visible_fields_valid(held@),
            Err(error) => error.kind == unread_failure(visible_fields_over_limit(*value)) && forall|
                other: VisibleFieldsView,
            | #[trigger]
                visible_fields_carries(*value, other) ==> !visible_fields_valid(other),
        },
{
    let lineage = text_from_wire(&value.contract_lineage)?;
    let entity_type = require(Id32::new(value.entity_type_id))?;
    let fields = ids_from_wire(&value.field_ids)?;
    let read = VisibleFields { lineage, entity_type, fields };
    assert(visible_fields_parts_carry(*value, read@));
    match &value.rebuilt {
        Err(error) => Err(DurableCodecError::from_storage_value(*error)),
        Ok(list) => if same_ids(list, &read.fields) {
            Ok(read)
        } else {
            assert forall|other: VisibleFieldsView| #[trigger]
                visible_fields_carries(*value, other) implies
                !visible_fields_valid(other) by {
                same_ids_carried(value.field_ids@, read@.fields, other.fields);
            }
            Err(DurableCodecError::corrupt())
        },
    }
}

/// Whether a message is the form of some valid value.
pub open spec fn visible_fields_readable(message: wire::EntityFieldVisibilityV1) -> bool {
    exists|value: VisibleFieldsView| #[trigger] visible_fields_carries(message, value)
        && visible_fields_valid(value)
}

/// Whether all messages before a place can be read.
pub open spec fn visible_fields_stops_at(
    messages: Seq<wire::EntityFieldVisibilityV1>,
    place: int,
) -> bool {
    &&& 0 <= place < messages.len()
    &&& forall|k: int| 0 <= k < place ==> visible_fields_readable(#[trigger] messages[k])
}

/// Whether the first of these messages that cannot be read is refused for a limit.
pub open spec fn visible_fields_list_over_limit(
    messages: Seq<wire::EntityFieldVisibilityV1>,
) -> bool {
    exists|place: int| #[trigger]
        visible_fields_stops_at(messages, place) && visible_fields_over_limit(messages[place])
}

/// Whether messages are the forms of values, one by one.
pub open spec fn visible_fields_list_carries(
    messages: Seq<wire::EntityFieldVisibilityV1>,
    values: Seq<VisibleFieldsView>,
) -> bool {
    &&& messages.len() == values.len()
    &&& forall|i: int|
        0 <= i < messages.len() ==> visible_fields_carries(#[trigger] messages[i], values[i])
}

/// All values are valid.
pub open spec fn visible_fields_list_valid(values: Seq<VisibleFieldsView>) -> bool {
    forall|i: int| 0 <= i < values.len() ==> visible_fields_valid(#[trigger] values[i])
}

/// Messages are the forms of at most one list of values.
pub proof fn visible_fields_list_form_is_exact(
    messages: Seq<wire::EntityFieldVisibilityV1>,
    a: Seq<VisibleFieldsView>,
    b: Seq<VisibleFieldsView>,
)
    requires
        visible_fields_list_carries(messages, a),
        visible_fields_list_carries(messages, b),
    ensures
        a == b,
{
    assert forall|i: int| 0 <= i < a.len() implies a[i] == b[i] by {
        assert(visible_fields_carries(messages[i], a[i])
            && visible_fields_carries(messages[i], b[i]));
        visible_fields_form_is_exact(messages[i], a[i], b[i]);
    }
    assert(a =~= b);
}

/// The message forms of values.
pub fn visible_fields_list_to_proto(
    values: &[VisibleFields],
) -> (result: Vec<wire::EntityFieldVisibilityV1>)
    ensures
        visible_fields_list_carries(result@, visible_fields_views(values@)),
{
    let mut result: Vec<wire::EntityFieldVisibilityV1> = Vec::new();
    let mut i: usize = 0;
    while i < values.len()
        invariant
            i <= values@.len(),
            result@.len() == i,
            forall|k: int| 0 <= k < i ==> visible_fields_carries(
                #[trigger] result@[k],
                values@[k]@,
            ),
        decreases values@.len() - i,
    {
        result.push(visible_fields_to_proto(&values[i]));
        i += 1;
    }
    result
}

/// Reads values from their message forms.
pub fn visible_fields_list_from_proto(values: &[wire::EntityFieldVisibilityV1]) -> (result: Result<
    Vec<VisibleFields>,
    DurableCodecError,
>)
    ensures
        match result {
            Ok(held) => visible_fields_list_carries(
                values@,
                visible_fields_views(held@),
            ) && visible_fields_list_valid(visible_fields_views(held@)),
            Err(error) =>
                error.kind == unread_failure(visible_fields_list_over_limit(values@)) && forall|
                other: Seq<VisibleFieldsView>,
            | #[trigger]
                visible_fields_list_carries(values@, other) ==> !visible_fields_list_valid(other),
        },
{
    let mut result: Vec<VisibleFields> = Vec::new();
    let mut i: usize = 0;
    while i < values.len()
        invariant
            i <= values@.len(),
            result@.len() == i,
            forall|k: int|
                0 <= k < i ==> visible_fields_carries(values@[k], #[trigger] result@[k]@)
                    && visible_fields_valid(result@[k]@),
        decreases values@.len() - i,
    {
        match visible_fields_from_proto(&values[i]) {
            Ok(held) => {
                result.push(held);
            },
            Err(error) => {
                assert forall|other: Seq<VisibleFieldsView>| #[trigger]
                    visible_fields_list_carries(values@, other)
                        implies !visible_fields_list_valid(other) by {
                    assert(visible_fields_carries(values@[i as int], other[i as int]));
                    assert(!visible_fields_valid(other[i as int]));
                }
                proof {
                    assert forall|k: int| 0 <= k < i
                        implies visible_fields_readable(#[trigger] values@[k]) by {
                        assert(visible_fields_carries(values@[k], result@[k]@));
                    }
                    assert(visible_fields_stops_at(values@, i as int));
                    assert forall|place: int| #[trigger] visible_fields_stops_at(values@, place)
                        && visible_fields_over_limit(values@[place]) implies place == i by {
                        if place < i {
                            assert(visible_fields_readable(values@[place]));
                        } else if place > i {
                            assert(visible_fields_readable(values@[i as int]));
                        }
                    }
                }
                return Err(error);
            },
        }
        i += 1;
    }
    Ok(result)
}

/// Whether a message is the form of the secret fields of one entity type that a grant names.
pub open spec fn secret_fields_carries(
    message: wire::CapabilitySecretVisibilityV1,
    value: SecretFieldsView,
) -> bool {
    &&& secret_fields_parts_carry(message, value)
    &&& ids_rebuilt(message.rebuilt, value.secret_fields)
}

/// Whether a message holds the parts of secret fields, whatever the owning type says of them.
pub open spec fn secret_fields_parts_carry(
    message: wire::CapabilitySecretVisibilityV1,
    value: SecretFieldsView,
) -> bool {
    &&& text_carries(message.contract_lineage, value.lineage)
    &&& message.entity_type_id == value.entity_type.value
    &&& ids_carry(message.secret_field_ids@, value.secret_fields)
}

/// Whether the parts of secret fields are sound, whatever the owning type says of them.
pub open spec fn secret_fields_parts_sound(message: wire::CapabilitySecretVisibilityV1) -> bool {
    exists|value: SecretFieldsView| #[trigger] secret_fields_parts_carry(message, value)
        && secret_fields_valid(value)
}

/// Whether secret fields are refused for a limit although their parts are sound.
pub open spec fn secret_fields_over_limit(message: wire::CapabilitySecretVisibilityV1) -> bool {
    &&& secret_fields_parts_sound(message)
    &&& (message.rebuilt matches Err(error) && over_limit(error))
}

/// The parts of the secret fields of one entity type that a grant names are valid.
pub open spec fn secret_fields_valid(value: SecretFieldsView) -> bool {
    &&& value.entity_type.valid()
    &&& ids_valid(value.secret_fields)
    &&& value.secret_fields.len() > 0
}

/// A message is the form of at most one value.
pub proof fn secret_fields_form_is_exact(
    message: wire::CapabilitySecretVisibilityV1,
    a: SecretFieldsView,
    b: SecretFieldsView,
)
    requires
        secret_fields_carries(message, a),
        secret_fields_carries(message, b),
    ensures
        a == b,
{
    assert forall|i: int| 0 <= i < a.secret_fields.len()
        implies a.secret_fields[i] == b.secret_fields[i] by {
        assert(message.secret_field_ids@[i] == a.secret_fields[i].value
            && message.secret_field_ids@[i] == b.secret_fields[i].value);
    }
    assert(a.secret_fields =~= b.secret_fields);
}

/// The message form of the secret fields of one entity type that a grant names.
pub fn secret_fields_to_proto(
    value: &SecretFields,
) -> (result: wire::CapabilitySecretVisibilityV1)
    ensures
        secret_fields_carries(result, value@),
{
    wire::CapabilitySecretVisibilityV1 {
        contract_lineage: text_to_wire(&value.lineage),
        entity_type_id: value.entity_type.get(),
        secret_field_ids: ids_to_wire(&value.secret_fields),
        rebuilt: Ok(copy_ids(&value.secret_fields)),
    }
}

/// Reads the secret fields of one entity type that a grant names.
pub fn secret_fields_from_proto(value: &wire::CapabilitySecretVisibilityV1) -> (result: Result<
    SecretFields,
    DurableCodecError,
>)
    ensures
        match result {
            Ok(held) => secret_fields_carries(*value, held@) && secret_fields_valid(held@),
            Err(error) => error.kind == unread_failure(secret_fields_over_limit(*value)) && forall|
                other: SecretFieldsView,
            | #[trigger]
                secret_fields_carries(*value, other) ==> !secret_fields_valid(other),
        },
{
    let lineage = text_from_wire(&value.contract_lineage)?;
    let entity_type = require(Id32::new(value.entity_type_id))?;
    let secret_fields = ids_from_wire(&value.secret_field_ids)?;
    if !(secret_fields.len() > 0) {
        assert forall|other: SecretFieldsView| #[trigger]
            secret_fields_carries(*value, other) implies !secret_fields_valid(other) by {
            assert forall|i: int| 0 <= i < other.secret_fields.len()
                implies other.secret_fields[i] == secret_fields@[i] by {
                assert(value.secret_field_ids@[i] == other.secret_fields[i].value
                    && value.secret_field_ids@[i] == secret_fields@[i].value);
            }
            assert(other.secret_fields =~= secret_fields@);
        }
        assert forall|other: SecretFieldsView| #[trigger]
            secret_fields_parts_carry(*value, other) implies !secret_fields_valid(other) by {
            same_ids_carried(value.secret_field_ids@, secret_fields@, other.secret_fields);
        }
        return Err(DurableCodecError::corrupt());
    }
    let read = SecretFields { lineage, entity_type, secret_fields };
    assert(secret_fields_parts_carry(*value, read@));
    match &value.rebuilt {
        Err(error) => Err(DurableCodecError::from_storage_value(*error)),
        Ok(list) => if same_ids(list, &read.secret_fields) {
            Ok(read)
        } else {
            assert forall|other: SecretFieldsView| #[trigger]
                secret_fields_carries(*value, other) implies
                !secret_fields_valid(other) by {
                same_ids_carried(value.secret_field_ids@, read@.secret_fields, other.secret_fields);
            }
            Err(DurableCodecError::corrupt())
        },
    }
}

/// Whether a message is the form of some valid value.
pub open spec fn secret_fields_readable(message: wire::CapabilitySecretVisibilityV1) -> bool {
    exists|value: SecretFieldsView| #[trigger] secret_fields_carries(message, value)
        && secret_fields_valid(value)
}

/// Whether all messages before a place can be read.
pub open spec fn secret_fields_stops_at(
    messages: Seq<wire::CapabilitySecretVisibilityV1>,
    place: int,
) -> bool {
    &&& 0 <= place < messages.len()
    &&& forall|k: int| 0 <= k < place ==> secret_fields_readable(#[trigger] messages[k])
}

/// Whether the first of these messages that cannot be read is refused for a limit.
pub open spec fn secret_fields_list_over_limit(
    messages: Seq<wire::CapabilitySecretVisibilityV1>,
) -> bool {
    exists|place: int| #[trigger]
        secret_fields_stops_at(messages, place) && secret_fields_over_limit(messages[place])
}

/// Whether messages are the forms of values, one by one.
pub open spec fn secret_fields_list_carries(
    messages: Seq<wire::CapabilitySecretVisibilityV1>,
    values: Seq<SecretFieldsView>,
) -> bool {
    &&& messages.len() == values.len()
    &&& forall|i: int|
        0 <= i < messages.len() ==> secret_fields_carries(#[trigger] messages[i], values[i])
}

/// All values are valid.
pub open spec fn secret_fields_list_valid(values: Seq<SecretFieldsView>) -> bool {
    forall|i: int| 0 <= i < values.len() ==> secret_fields_valid(#[trigger] values[i])
}

/// Messages are the forms of at most one list of values.
pub proof fn secret_fields_list_form_is_exact(
    messages: Seq<wire::CapabilitySecretVisibilityV1>,
    a: Seq<SecretFieldsView>,
    b: Seq<SecretFieldsView>,
)
    requires
        secret_fields_list_carries(messages, a),
        secret_fields_list_carries(messages, b),
    ensures
        a == b,
{
    assert forall|i: int| 0 <= i < a.len() implies a[i] == b[i] by {
        assert(secret_fields_carries(messages[i], a[i])
            && secret_fields_carries(messages[i], b[i]));
        secret_fields_form_is_exact(messages[i], a[i], b[i]);
    }
    assert(a =~= b);
}

/// The message forms of values.
pub fn secret_fields_list_to_proto(
    values: &[SecretFields],
) -> (result: Vec<wire::CapabilitySecretVisibilityV1>)
    ensures
        secret_fields_list_carries(result@, secret_fields_views(values@)),
{
    let mut result: Vec<wire::CapabilitySecretVisibilityV1> = Vec::new();
    let mut i: usize = 0;
    while i < values.len()
        invariant
            i <= values@.len(),
            result@.len() == i,
            forall|k: int| 0 <= k < i ==> secret_fields_carries(#[trigger] result@[k], values@[k]@),
        decreases values@.len() - i,
    {
        result.push(secret_fields_to_proto(&values[i]));
        i += 1;
    }
    result
}

/// Reads values from their message forms.
pub fn secret_fields_list_from_proto(
    values: &[wire::CapabilitySecretVisibilityV1],
) -> (result: Result<
    Vec<SecretFields>,
    DurableCodecError,
>)
    ensures
        match result {
            Ok(held) => secret_fields_list_carries(
                values@,
                secret_fields_views(held@),
            ) && secret_fields_list_valid(secret_fields_views(held@)),
            Err(error) =>
                error.kind == unread_failure(secret_fields_list_over_limit(values@)) && forall|
                other: Seq<SecretFieldsView>,
            | #[trigger]
                secret_fields_list_carries(values@, other) ==> !secret_fields_list_valid(other),
        },
{
    let mut result: Vec<SecretFields> = Vec::new();
    let mut i: usize = 0;
    while i < values.len()
        invariant
            i <= values@.len(),
            result@.len() == i,
            forall|k: int|
                0 <= k < i ==> secret_fields_carries(values@[k], #[trigger] result@[k]@)
                    && secret_fields_valid(result@[k]@),
        decreases values@.len() - i,
    {
        match secret_fields_from_proto(&values[i]) {
            Ok(held) => {
                result.push(held);
            },
            Err(error) => {
                assert forall|other: Seq<SecretFieldsView>| #[trigger]
                    secret_fields_list_carries(values@, other)
                        implies !secret_fields_list_valid(other) by {
                    assert(secret_fields_carries(values@[i as int], other[i as int]));
                    assert(!secret_fields_valid(other[i as int]));
                }
                proof {
                    assert forall|k: int| 0 <= k < i
                        implies secret_fields_readable(#[trigger] values@[k]) by {
                        assert(secret_fields_carries(values@[k], result@[k]@));
                    }
                    assert(secret_fields_stops_at(values@, i as int));
                    assert forall|place: int| #[trigger] secret_fields_stops_at(values@, place)
                        && secret_fields_over_limit(values@[place]) implies place == i by {
                        if place < i {
                            assert(secret_fields_readable(values@[place]));
                        } else if place > i {
                            assert(secret_fields_readable(values@[i as int]));
                        }
                    }
                }
                return Err(error);
            },
        }
        i += 1;
    }
    Ok(result)
}

/// Whether the secret fields that a grant names are refused for a limit.
pub open spec fn secret_extension_over_limit(
    message: wire::CapabilitySecretGrantExtensionV1,
) -> bool {
    secret_fields_list_over_limit(message.entries@)
}

/// Whether a message is the form of the secret fields that a grant names.
pub open spec fn secret_extension_carries(
    message: wire::CapabilitySecretGrantExtensionV1,
    value: SecretGrantView,
) -> bool {
    &&& secret_fields_list_carries(message.entries@, value.entries)
}

/// The parts of the secret fields that a grant names are valid.
pub open spec fn secret_extension_valid(value: SecretGrantView) -> bool {
    &&& secret_fields_list_valid(value.entries)
    &&& value.entries.len() > 0
}

/// A message is the form of at most one value.
pub proof fn secret_extension_form_is_exact(
    message: wire::CapabilitySecretGrantExtensionV1,
    a: SecretGrantView,
    b: SecretGrantView,
)
    requires
        secret_extension_carries(message, a),
        secret_extension_carries(message, b),
    ensures
        a == b,
{
    secret_fields_list_form_is_exact(message.entries@, a.entries, b.entries);
}

/// The message form of the secret fields that a grant names.
pub fn secret_extension_to_proto(
    value: &SecretGrant,
) -> (result: wire::CapabilitySecretGrantExtensionV1)
    ensures
        secret_extension_carries(result, value@),
{
    wire::CapabilitySecretGrantExtensionV1 {
        entries: secret_fields_list_to_proto(&value.entries),
    }
}

/// Reads the secret fields that a grant names.
pub fn secret_extension_from_proto(
    value: &wire::CapabilitySecretGrantExtensionV1,
) -> (result: Result<
    SecretGrant,
    DurableCodecError,
>)
    ensures
        match result {
            Ok(held) => secret_extension_carries(*value, held@) && secret_extension_valid(held@),
            Err(error) =>
                error.kind == unread_failure(secret_fields_list_over_limit(value.entries@))
                    && forall|
                other: SecretGrantView,
            | #[trigger]
                secret_extension_carries(*value, other) ==> !secret_extension_valid(other),
        },
{
    let entries = secret_fields_list_from_proto(&value.entries)?;
    if !(entries.len() > 0) {
        assert forall|other: SecretGrantView| #[trigger]
            secret_extension_carries(*value, other) implies !secret_extension_valid(other) by {
            if secret_extension_valid(other) {
                secret_fields_list_form_is_exact(
                    value.entries@,
                    other.entries,
                    secret_fields_views(entries@),
                );
            }
        }
        return Err(DurableCodecError::corrupt());
    }
    Ok(SecretGrant { entries })
}

/// Whether an optional message is there and refused for a limit.
pub open spec fn optional_secret_extension_over_limit(
    message: Option<wire::CapabilitySecretGrantExtensionV1>,
) -> bool {
    message matches Some(form) && secret_extension_over_limit(form)
}

/// Whether an optional message is the form of an optional value.
pub open spec fn optional_secret_extension_carries(
    message: Option<wire::CapabilitySecretGrantExtensionV1>,
    value: Option<SecretGrantView>,
) -> bool {
    match (message, value) {
        (Some(form), Some(part)) => secret_extension_carries(form, part),
        (None, None) => true,
        _ => false,
    }
}

/// The optional message form of an optional value.
pub fn optional_secret_extension_to_proto(value: &Option<SecretGrant>) -> (result: Option<
    wire::CapabilitySecretGrantExtensionV1,
>)
    ensures
        optional_secret_extension_carries(result, optional_secret_extension_view(*value)),
{
    match value {
        Some(part) => Some(secret_extension_to_proto(part)),
        None => None,
    }
}

/// Reads an optional value from its optional message form.
pub fn optional_secret_extension_from_proto(
    value: &Option<wire::CapabilitySecretGrantExtensionV1>,
) -> (result: Result<
    Option<SecretGrant>,
    DurableCodecError,
>)
    ensures
        match result {
            Ok(held) => optional_secret_extension_carries(
                *value,
                optional_secret_extension_view(held),
            ) && (optional_secret_extension_view(held) matches Some(part)
                ==> secret_extension_valid(part)),
            Err(error) =>
                error.kind == unread_failure(optional_secret_extension_over_limit(*value))
                    && forall|
                other: Option<SecretGrantView>,
            | #[trigger]
                optional_secret_extension_carries(*value, other)
                    ==> !(other matches Some(part) ==> secret_extension_valid(
                    part,
                )),
        },
{
    match value {
        Some(form) => {
            let part = secret_extension_from_proto(form)?;
            Ok(Some(part))
        },
        None => Ok(None),
    }
}

/// Whether a message is the form of the contract lineages that an extended permission covers.
pub open spec fn lineage_extension_carries(
    message: wire::CapabilityLineageGrantExtensionV1,
    value: LineageGrantView,
) -> bool {
    &&& texts_carry(message.contract_lineages@, value.lineages)
    &&& message.approval_required == value.approval_required
}

/// The parts of the contract lineages that an extended permission covers are valid.
pub open spec fn lineage_extension_valid(value: LineageGrantView) -> bool {
    &&& value.lineages.len() > 0
    &&& texts_ascend(value.lineages)
}

/// A message is the form of at most one value.
pub proof fn lineage_extension_form_is_exact(
    message: wire::CapabilityLineageGrantExtensionV1,
    a: LineageGrantView,
    b: LineageGrantView,
)
    requires
        lineage_extension_carries(message, a),
        lineage_extension_carries(message, b),
    ensures
        a == b,
{
    texts_form_is_exact(message.contract_lineages@, a.lineages, b.lineages);
}

/// The message form of the contract lineages that an extended permission covers.
pub fn lineage_extension_to_proto(
    value: &LineageGrant,
) -> (result: wire::CapabilityLineageGrantExtensionV1)
    ensures
        lineage_extension_carries(result, value@),
{
    wire::CapabilityLineageGrantExtensionV1 {
        contract_lineages: texts_to_wire(&value.lineages),
        approval_required: value.approval_required,
    }
}

/// Reads the contract lineages that an extended permission covers.
pub fn lineage_extension_from_proto(
    value: &wire::CapabilityLineageGrantExtensionV1,
) -> (result: Result<
    LineageGrant,
    DurableCodecError,
>)
    ensures
        match result {
            Ok(held) => lineage_extension_carries(*value, held@) && lineage_extension_valid(held@),
            Err(error) => is_corrupt(error) && forall|other: LineageGrantView| #[trigger]
                lineage_extension_carries(*value, other) ==> !lineage_extension_valid(other),
        },
{
    let lineages = texts_from_wire(&value.contract_lineages)?;
    let approval_required = value.approval_required;
    if !(lineages.len() > 0) {
        assert forall|other: LineageGrantView| #[trigger]
            lineage_extension_carries(*value, other) implies !lineage_extension_valid(other) by {
            texts_form_is_exact(value.contract_lineages@, other.lineages, text_views(lineages@));
        }
        return Err(DurableCodecError::corrupt());
    }
    if !(are_texts_ascending(&lineages)) {
        assert forall|other: LineageGrantView| #[trigger]
            lineage_extension_carries(*value, other) implies !lineage_extension_valid(other) by {
            texts_form_is_exact(value.contract_lineages@, other.lineages, text_views(lineages@));
        }
        return Err(DurableCodecError::corrupt());
    }
    Ok(LineageGrant { lineages, approval_required })
}

/// Whether an optional message is the form of an optional value.
pub open spec fn optional_lineage_extension_carries(
    message: Option<wire::CapabilityLineageGrantExtensionV1>,
    value: Option<LineageGrantView>,
) -> bool {
    match (message, value) {
        (Some(form), Some(part)) => lineage_extension_carries(form, part),
        (None, None) => true,
        _ => false,
    }
}

/// The optional message form of an optional value.
pub fn optional_lineage_extension_to_proto(value: &Option<LineageGrant>) -> (result: Option<
    wire::CapabilityLineageGrantExtensionV1,
>)
    ensures
        optional_lineage_extension_carries(result, optional_lineage_extension_view(*value)),
{
    match value {
        Some(part) => Some(lineage_extension_to_proto(part)),
        None => None,
    }
}

/// Reads an optional value from its optional message form.
pub fn optional_lineage_extension_from_proto(
    value: &Option<wire::CapabilityLineageGrantExtensionV1>,
) -> (result: Result<
    Option<LineageGrant>,
    DurableCodecError,
>)
    ensures
        match result {
            Ok(held) => optional_lineage_extension_carries(
                *value,
                optional_lineage_extension_view(held),
            ) && (optional_lineage_extension_view(held) matches Some(part)
                ==> lineage_extension_valid(part)),
            Err(error) => is_corrupt(error) && forall|other: Option<LineageGrantView>| #[trigger]
                optional_lineage_extension_carries(*value, other)
                    ==> !(other matches Some(part) ==> lineage_extension_valid(
                    part,
                )),
        },
{
    match value {
        Some(form) => {
            let part = lineage_extension_from_proto(form)?;
            Ok(Some(part))
        },
        None => Ok(None),
    }
}

/// Whether a message is the form of a row policy bound to an entity type.
pub open spec fn policy_binding_carries(
    message: wire::CapabilityRowPolicyBindingV1,
    value: RowPolicyBindingView,
) -> bool {
    &&& policy_binding_parts_carry(message, value)
    &&& message.refusal is None
}

/// Whether a message holds the parts of a row policy bound to an entity type, whatever the
/// owning type says of them.
pub open spec fn policy_binding_parts_carry(
    message: wire::CapabilityRowPolicyBindingV1,
    value: RowPolicyBindingView,
) -> bool {
    &&& text_carries(message.contract_lineage, value.lineage)
    &&& text_carries(message.policy_name, value.policy_name)
    &&& message.entity_type_id == value.entity_type.value
    &&& tags_carry(message.operations@, value.operations)
}

/// Whether the parts of a row policy bound to an entity type are sound, whatever the owning
/// type says of them.
pub open spec fn policy_binding_parts_sound(message: wire::CapabilityRowPolicyBindingV1) -> bool {
    exists|value: RowPolicyBindingView| #[trigger] policy_binding_parts_carry(message, value)
        && policy_binding_valid(value)
}

/// Whether a row policy bound to an entity type is refused for a limit although its parts
/// are sound.
pub open spec fn policy_binding_over_limit(message: wire::CapabilityRowPolicyBindingV1) -> bool {
    &&& policy_binding_parts_sound(message)
    &&& (message.refusal matches Some(error) && over_limit(error))
}

/// The parts of a row policy bound to an entity type are valid.
pub open spec fn policy_binding_valid(value: RowPolicyBindingView) -> bool {
    &&& value.entity_type.valid()
    &&& value.operations.len() > 0
    &&& tags_ascend(value.operations)
}

/// A message is the form of at most one value.
pub proof fn policy_binding_form_is_exact(
    message: wire::CapabilityRowPolicyBindingV1,
    a: RowPolicyBindingView,
    b: RowPolicyBindingView,
)
    requires
        policy_binding_carries(message, a),
        policy_binding_carries(message, b),
    ensures
        a == b,
{
    tags_form_is_exact(message.operations@, a.operations, b.operations);
}

/// The message form of a row policy bound to an entity type.
pub fn policy_binding_to_proto(
    value: &CapabilityRowPolicyBindingV1,
) -> (result: wire::CapabilityRowPolicyBindingV1)
    ensures
        policy_binding_carries(result, value@),
{
    wire::CapabilityRowPolicyBindingV1 {
        contract_lineage: text_to_wire(&value.lineage),
        policy_name: text_to_wire(&value.policy_name),
        entity_type_id: value.entity_type.get(),
        operations: tags_to_wire(&value.operations),
        refusal: None,
    }
}

/// Reads a row policy bound to an entity type.
pub fn policy_binding_from_proto(value: &wire::CapabilityRowPolicyBindingV1) -> (result: Result<
    CapabilityRowPolicyBindingV1,
    DurableCodecError,
>)
    ensures
        match result {
            Ok(held) => policy_binding_carries(*value, held@) && policy_binding_valid(held@),
            Err(error) => error.kind == unread_failure(policy_binding_over_limit(*value)) && forall|
                other: RowPolicyBindingView,
            | #[trigger]
                policy_binding_carries(*value, other) ==> !policy_binding_valid(other),
        },
{
    let lineage = text_from_wire(&value.contract_lineage)?;
    let policy_name = text_from_wire(&value.policy_name)?;
    let entity_type = require(Id32::new(value.entity_type_id))?;
    let operations = tags_from_wire(&value.operations)?;
    if !(operations.len() > 0) {
        assert forall|other: RowPolicyBindingView| #[trigger]
            policy_binding_parts_carry(*value, other) implies !policy_binding_valid(other) by {
            tags_form_is_exact(value.operations@, other.operations, operations@);
        }
        return Err(DurableCodecError::corrupt());
    }
    if !(are_tags_ascending(&operations)) {
        assert forall|other: RowPolicyBindingView| #[trigger]
            policy_binding_parts_carry(*value, other) implies !policy_binding_valid(other) by {
            tags_form_is_exact(value.operations@, other.operations, operations@);
        }
        return Err(DurableCodecError::corrupt());
    }
    let read = CapabilityRowPolicyBindingV1 { lineage, policy_name, entity_type, operations };
    assert(policy_binding_parts_carry(*value, read@));
    match value.refusal {
        Some(error) => Err(DurableCodecError::from_storage_value(error)),
        None => Ok(read),
    }
}

/// Whether a message is the form of some valid value.
pub open spec fn policy_binding_readable(message: wire::CapabilityRowPolicyBindingV1) -> bool {
    exists|value: RowPolicyBindingView| #[trigger] policy_binding_carries(message, value)
        && policy_binding_valid(value)
}

/// Whether all messages before a place can be read.
pub open spec fn policy_binding_stops_at(
    messages: Seq<wire::CapabilityRowPolicyBindingV1>,
    place: int,
) -> bool {
    &&& 0 <= place < messages.len()
    &&& forall|k: int| 0 <= k < place ==> policy_binding_readable(#[trigger] messages[k])
}

/// Whether the first of these messages that cannot be read is refused for a limit.
pub open spec fn policy_binding_list_over_limit(
    messages: Seq<wire::CapabilityRowPolicyBindingV1>,
) -> bool {
    exists|place: int| #[trigger]
        policy_binding_stops_at(messages, place) && policy_binding_over_limit(messages[place])
}

/// Whether messages are the forms of values, one by one.
pub open spec fn policy_binding_list_carries(
    messages: Seq<wire::CapabilityRowPolicyBindingV1>,
    values: Seq<RowPolicyBindingView>,
) -> bool {
    &&& messages.len() == values.len()
    &&& forall|i: int|
        0 <= i < messages.len() ==> policy_binding_carries(#[trigger] messages[i], values[i])
}

/// All values are valid.
pub open spec fn policy_binding_list_valid(values: Seq<RowPolicyBindingView>) -> bool {
    forall|i: int| 0 <= i < values.len() ==> policy_binding_valid(#[trigger] values[i])
}

/// Messages are the forms of at most one list of values.
pub proof fn policy_binding_list_form_is_exact(
    messages: Seq<wire::CapabilityRowPolicyBindingV1>,
    a: Seq<RowPolicyBindingView>,
    b: Seq<RowPolicyBindingView>,
)
    requires
        policy_binding_list_carries(messages, a),
        policy_binding_list_carries(messages, b),
    ensures
        a == b,
{
    assert forall|i: int| 0 <= i < a.len() implies a[i] == b[i] by {
        assert(policy_binding_carries(messages[i], a[i])
            && policy_binding_carries(messages[i], b[i]));
        policy_binding_form_is_exact(messages[i], a[i], b[i]);
    }
    assert(a =~= b);
}

/// The message forms of values.
pub fn policy_binding_list_to_proto(
    values: &[CapabilityRowPolicyBindingV1],
) -> (result: Vec<wire::CapabilityRowPolicyBindingV1>)
    ensures
        policy_binding_list_carries(result@, policy_binding_views(values@)),
{
    let mut result: Vec<wire::CapabilityRowPolicyBindingV1> = Vec::new();
    let mut i: usize = 0;
    while i < values.len()
        invariant
            i <= values@.len(),
            result@.len() == i,
            forall|k: int| 0 <= k < i ==> policy_binding_carries(
                #[trigger] result@[k],
                values@[k]@,
            ),
        decreases values@.len() - i,
    {
        result.push(policy_binding_to_proto(&values[i]));
        i += 1;
    }
    result
}

/// Reads values from their message forms.
pub fn policy_binding_list_from_proto(
    values: &[wire::CapabilityRowPolicyBindingV1],
) -> (result: Result<
    Vec<CapabilityRowPolicyBindingV1>,
    DurableCodecError,
>)
    ensures
        match result {
            Ok(held) => policy_binding_list_carries(
                values@,
                policy_binding_views(held@),
            ) && policy_binding_list_valid(policy_binding_views(held@)),
            Err(error) =>
                error.kind == unread_failure(policy_binding_list_over_limit(values@)) && forall|
                other: Seq<RowPolicyBindingView>,
            | #[trigger]
                policy_binding_list_carries(values@, other) ==> !policy_binding_list_valid(other),
        },
{
    let mut result: Vec<CapabilityRowPolicyBindingV1> = Vec::new();
    let mut i: usize = 0;
    while i < values.len()
        invariant
            i <= values@.len(),
            result@.len() == i,
            forall|k: int|
                0 <= k < i ==> policy_binding_carries(values@[k], #[trigger] result@[k]@)
                    && policy_binding_valid(result@[k]@),
        decreases values@.len() - i,
    {
        match policy_binding_from_proto(&values[i]) {
            Ok(held) => {
                result.push(held);
            },
            Err(error) => {
                assert forall|other: Seq<RowPolicyBindingView>| #[trigger]
                    policy_binding_list_carries(values@, other)
                        implies !policy_binding_list_valid(other) by {
                    assert(policy_binding_carries(values@[i as int], other[i as int]));
                    assert(!policy_binding_valid(other[i as int]));
                }
                proof {
                    assert forall|k: int| 0 <= k < i
                        implies policy_binding_readable(#[trigger] values@[k]) by {
                        assert(policy_binding_carries(values@[k], result@[k]@));
                    }
                    assert(policy_binding_stops_at(values@, i as int));
                    assert forall|place: int| #[trigger] policy_binding_stops_at(values@, place)
                        && policy_binding_over_limit(values@[place]) implies place == i by {
                        if place < i {
                            assert(policy_binding_readable(values@[place]));
                        } else if place > i {
                            assert(policy_binding_readable(values@[i as int]));
                        }
                    }
                }
                return Err(error);
            },
        }
        i += 1;
    }
    Ok(result)
}

/// Whether a message is the form of the row policies of a grant.
pub open spec fn row_policy_carries(
    message: wire::CapabilityRowPolicyGrantExtensionV1,
    value: RowPolicyGrantView,
) -> bool {
    &&& row_policy_parts_carry(message, value)
    &&& bindings_rebuilt(message.rebuilt, value.bindings)
    &&& message.refusal is None
}

/// Whether a message holds the parts of row policies, whatever the owning type says of them.
pub open spec fn row_policy_parts_carry(
    message: wire::CapabilityRowPolicyGrantExtensionV1,
    value: RowPolicyGrantView,
) -> bool {
    &&& message.application_role_hash@ == value.application_role_hash.bytes@
    &&& key_carries(message.canonical_principal_facts, value.principal_facts)
    &&& policy_binding_list_carries(message.policies@, value.bindings)
}

/// Whether the parts of row policies are sound, whatever the owning types say of them.
pub open spec fn row_policy_parts_sound(
    message: wire::CapabilityRowPolicyGrantExtensionV1,
) -> bool {
    exists|value: RowPolicyGrantView| #[trigger] row_policy_parts_carry(message, value)
        && row_policy_valid(value)
}

/// Whether row policies are refused for a limit: as an item, as a list, or by the grant that
/// they are for.
pub open spec fn row_policy_over_limit(message: wire::CapabilityRowPolicyGrantExtensionV1) -> bool {
    ||| message.application_role_hash@.len() == 32 && message.canonical_principal_facts.accepted
        && policy_binding_list_over_limit(message.policies@)
    ||| row_policy_parts_sound(message) && (message.rebuilt matches Err(error) && over_limit(error))
    ||| row_policy_listed(message) && (message.refusal matches Some(error) && over_limit(error))
}

/// Whether the parts of row policies are sound and their own canonical list.
pub open spec fn row_policy_listed(message: wire::CapabilityRowPolicyGrantExtensionV1) -> bool {
    exists|value: RowPolicyGrantView| #[trigger]
        row_policy_parts_carry(message, value) && row_policy_valid(value) && bindings_rebuilt(
            message.rebuilt,
            value.bindings,
        )
}

/// The parts of the row policies of a grant are valid.
pub open spec fn row_policy_valid(value: RowPolicyGrantView) -> bool {
    &&& policy_binding_list_valid(value.bindings)
    &&& value.bindings.len() > 0
}

/// A message is the form of at most one value.
pub proof fn row_policy_form_is_exact(
    message: wire::CapabilityRowPolicyGrantExtensionV1,
    a: RowPolicyGrantView,
    b: RowPolicyGrantView,
)
    requires
        row_policy_carries(message, a),
        row_policy_carries(message, b),
    ensures
        a == b,
{
    assert(a.application_role_hash.bytes =~= b.application_role_hash.bytes);
    policy_binding_list_form_is_exact(message.policies@, a.bindings, b.bindings);
}

/// The message form of the row policies of a grant.
pub fn row_policy_to_proto(
    value: &CapabilityRowPolicyGrantV1,
) -> (result: wire::CapabilityRowPolicyGrantExtensionV1)
    ensures
        row_policy_carries(result, value@),
{
    wire::CapabilityRowPolicyGrantExtensionV1 {
        application_role_hash: copy_bytes(value.application_role_hash.bytes.as_slice()),
        canonical_principal_facts: key_to_wire(&value.principal_facts),
        policies: policy_binding_list_to_proto(&value.bindings),
        rebuilt: Ok(copy_policy_binding_list(&value.bindings)),
        refusal: None,
    }
}

/// Reads the row policies of a grant.
pub fn row_policy_from_proto(value: &wire::CapabilityRowPolicyGrantExtensionV1) -> (result: Result<
    CapabilityRowPolicyGrantV1,
    DurableCodecError,
>)
    ensures
        match result {
            Ok(held) => row_policy_carries(*value, held@) && row_policy_valid(held@),
            Err(error) => error.kind == unread_failure(row_policy_over_limit(*value)) && forall|
                other: RowPolicyGrantView,
            | #[trigger]
                row_policy_carries(*value, other) ==> !row_policy_valid(other),
        },
{
    let application_role_hash = digest_from_wire(&value.application_role_hash)?;
    let principal_facts = key_from_wire(&value.canonical_principal_facts)?;
    let bindings = policy_binding_list_from_proto(&value.policies)?;
    if !(bindings.len() > 0) {
        assert forall|other: RowPolicyGrantView| #[trigger]
            row_policy_parts_carry(*value, other) implies !row_policy_valid(other) by {
            if row_policy_valid(other) {
                policy_binding_list_form_is_exact(
                    value.policies@,
                    other.bindings,
                    policy_binding_views(bindings@),
                );
            }
        }
        return Err(DurableCodecError::corrupt());
    }
    let read = CapabilityRowPolicyGrantV1 { application_role_hash, principal_facts, bindings };
    assert(row_policy_parts_carry(*value, read@));
    let list = match &value.rebuilt {
        Err(error) => return Err(DurableCodecError::from_storage_value(*error)),
        Ok(list) => list,
    };
    if !same_policy_binding_list(list, &read.bindings) {
        assert forall|other: RowPolicyGrantView| #[trigger] row_policy_parts_carry(*value, other)
            && row_policy_valid(other) implies !bindings_rebuilt(value.rebuilt, other.bindings) by {
            policy_binding_list_form_is_exact(value.policies@, read@.bindings, other.bindings);
        }
        return Err(DurableCodecError::corrupt());
    }
    match value.refusal {
        Some(error) => Err(DurableCodecError::from_storage_value(error)),
        None => Ok(read),
    }
}

/// Whether an optional message is there and refused for a limit.
pub open spec fn optional_row_policy_over_limit(
    message: Option<wire::CapabilityRowPolicyGrantExtensionV1>,
) -> bool {
    message matches Some(form) && row_policy_over_limit(form)
}

/// Whether an optional message is absent or the form of some valid value.
pub open spec fn optional_row_policy_readable(
    message: Option<wire::CapabilityRowPolicyGrantExtensionV1>,
) -> bool {
    exists|value: Option<RowPolicyGrantView>| #[trigger]
        optional_row_policy_carries(message, value)
            && (value matches Some(part) ==> row_policy_valid(part))
}

/// Whether an optional message is the form of an optional value.
pub open spec fn optional_row_policy_carries(
    message: Option<wire::CapabilityRowPolicyGrantExtensionV1>,
    value: Option<RowPolicyGrantView>,
) -> bool {
    match (message, value) {
        (Some(form), Some(part)) => row_policy_carries(form, part),
        (None, None) => true,
        _ => false,
    }
}

/// The optional message form of an optional value.
pub fn optional_row_policy_to_proto(value: &Option<CapabilityRowPolicyGrantV1>) -> (result: Option<
    wire::CapabilityRowPolicyGrantExtensionV1,
>)
    ensures
        optional_row_policy_carries(result, optional_row_policy_view(*value)),
{
    match value {
        Some(part) => Some(row_policy_to_proto(part)),
        None => None,
    }
}

/// Reads an optional value from its optional message form.
pub fn optional_row_policy_from_proto(
    value: &Option<wire::CapabilityRowPolicyGrantExtensionV1>,
) -> (result: Result<
    Option<CapabilityRowPolicyGrantV1>,
    DurableCodecError,
>)
    ensures
        match result {
            Ok(held) => optional_row_policy_carries(
                *value,
                optional_row_policy_view(held),
            ) && (optional_row_policy_view(held) matches Some(part)
                ==> row_policy_valid(part)),
            Err(error) =>
                error.kind == unread_failure(optional_row_policy_over_limit(*value)) && forall|
                other: Option<RowPolicyGrantView>,
            | #[trigger]
                optional_row_policy_carries(*value, other)
                    ==> !(other matches Some(part) ==> row_policy_valid(
                    part,
                )),
        },
{
    match value {
        Some(form) => {
            let part = row_policy_from_proto(form)?;
            Ok(Some(part))
        },
        None => Ok(None),
    }
}

/// Whether a message is the form of what a grant lets be exported of one application.
pub open spec fn export_application_carries(
    message: wire::CapabilityApplicationExportGrantV1,
    value: ApplicationExportGrantView,
) -> bool {
    &&& export_application_parts_carry(message, value)
    &&& message.refusal is None
}

/// Whether a message holds the parts of what a grant lets be exported of one application,
/// whatever the owning type says of them.
pub open spec fn export_application_parts_carry(
    message: wire::CapabilityApplicationExportGrantV1,
    value: ApplicationExportGrantView,
) -> bool {
    &&& text_carries(message.contract_lineage, value.lineage)
    &&& tag_carries(message.scope, value.scope)
    &&& message.entities == value.entities
    &&& message.events == value.events
    &&& message.provenance == value.provenance
    &&& message.public_audit == value.public_audit
}

/// Whether the parts of what a grant lets be exported of one application are sound,
/// whatever the owning type says of them.
pub open spec fn export_application_parts_sound(
    message: wire::CapabilityApplicationExportGrantV1,
) -> bool {
    exists|value: ApplicationExportGrantView| #[trigger]
        export_application_parts_carry(message, value)
}

/// Whether what a grant lets be exported of one application is refused for a limit: its
/// parts are sound.
pub open spec fn export_application_over_limit(
    message: wire::CapabilityApplicationExportGrantV1,
) -> bool {
    &&& export_application_parts_sound(message)
    &&& (message.refusal matches Some(error) && over_limit(error))
}

/// A message is the form of at most one value.
pub proof fn export_application_form_is_exact(
    message: wire::CapabilityApplicationExportGrantV1,
    a: ApplicationExportGrantView,
    b: ApplicationExportGrantView,
)
    requires
        export_application_carries(message, a),
        export_application_carries(message, b),
    ensures
        a == b,
{
}

/// The message form of what a grant lets be exported of one application.
pub fn export_application_to_proto(
    value: &CapabilityApplicationExportGrantV1,
) -> (result: wire::CapabilityApplicationExportGrantV1)
    ensures
        export_application_carries(result, value@),
{
    wire::CapabilityApplicationExportGrantV1 {
        contract_lineage: text_to_wire(&value.lineage),
        scope: tag_to_wire(value.scope),
        entities: value.entities,
        events: value.events,
        provenance: value.provenance,
        public_audit: value.public_audit,
        refusal: None,
    }
}

/// Reads what a grant lets be exported of one application.
pub fn export_application_from_proto(
    value: &wire::CapabilityApplicationExportGrantV1,
) -> (result: Result<
    CapabilityApplicationExportGrantV1,
    DurableCodecError,
>)
    ensures
        match result {
            Ok(held) => export_application_carries(*value, held@),
            Err(error) =>
                error.kind == unread_failure(export_application_over_limit(*value)) && forall|
                other: ApplicationExportGrantView,
            | !#[trigger] export_application_carries(*value, other),
        },
{
    let lineage = text_from_wire(&value.contract_lineage)?;
    let scope = tag_from_wire(&value.scope)?;
    let entities = value.entities;
    let events = value.events;
    let provenance = value.provenance;
    let public_audit = value.public_audit;
    let read = CapabilityApplicationExportGrantV1 {
        lineage,
        scope,
        entities,
        events,
        provenance,
        public_audit,
    };
    assert(export_application_parts_carry(*value, read@));
    match value.refusal {
        Some(error) => Err(DurableCodecError::from_storage_value(error)),
        None => Ok(read),
    }
}

/// Whether a message is the form of some valid value.
pub open spec fn export_application_readable(
    message: wire::CapabilityApplicationExportGrantV1,
) -> bool {
    exists|value: ApplicationExportGrantView| #[trigger] export_application_carries(message, value)
}

/// Whether all messages before a place can be read.
pub open spec fn export_application_stops_at(
    messages: Seq<wire::CapabilityApplicationExportGrantV1>,
    place: int,
) -> bool {
    &&& 0 <= place < messages.len()
    &&& forall|k: int| 0 <= k < place ==> export_application_readable(#[trigger] messages[k])
}

/// Whether the first of these messages that cannot be read is refused for a limit.
pub open spec fn export_application_list_over_limit(
    messages: Seq<wire::CapabilityApplicationExportGrantV1>,
) -> bool {
    exists|place: int| #[trigger]
        export_application_stops_at(messages, place)
            && export_application_over_limit(messages[place])
}

/// Whether messages are the forms of values, one by one.
pub open spec fn export_application_list_carries(
    messages: Seq<wire::CapabilityApplicationExportGrantV1>,
    values: Seq<ApplicationExportGrantView>,
) -> bool {
    &&& messages.len() == values.len()
    &&& forall|i: int|
        0 <= i < messages.len() ==> export_application_carries(#[trigger] messages[i], values[i])
}

/// Messages are the forms of at most one list of values.
pub proof fn export_application_list_form_is_exact(
    messages: Seq<wire::CapabilityApplicationExportGrantV1>,
    a: Seq<ApplicationExportGrantView>,
    b: Seq<ApplicationExportGrantView>,
)
    requires
        export_application_list_carries(messages, a),
        export_application_list_carries(messages, b),
    ensures
        a == b,
{
    assert forall|i: int| 0 <= i < a.len() implies a[i] == b[i] by {
        assert(export_application_carries(messages[i], a[i])
            && export_application_carries(messages[i], b[i]));
        export_application_form_is_exact(messages[i], a[i], b[i]);
    }
    assert(a =~= b);
}

/// The message forms of values.
pub fn export_application_list_to_proto(
    values: &[CapabilityApplicationExportGrantV1],
) -> (result: Vec<wire::CapabilityApplicationExportGrantV1>)
    ensures
        export_application_list_carries(result@, export_application_views(values@)),
{
    let mut result: Vec<wire::CapabilityApplicationExportGrantV1> = Vec::new();
    let mut i: usize = 0;
    while i < values.len()
        invariant
            i <= values@.len(),
            result@.len() == i,
            forall|k: int| 0 <= k < i ==> export_application_carries(
                #[trigger] result@[k],
                values@[k]@,
            ),
        decreases values@.len() - i,
    {
        result.push(export_application_to_proto(&values[i]));
        i += 1;
    }
    result
}

/// Reads values from their message forms.
pub fn export_application_list_from_proto(
    values: &[wire::CapabilityApplicationExportGrantV1],
) -> (result: Result<
    Vec<CapabilityApplicationExportGrantV1>,
    DurableCodecError,
>)
    ensures
        match result {
            Ok(held) => export_application_list_carries(values@, export_application_views(held@)),
            Err(error) =>
                error.kind == unread_failure(export_application_list_over_limit(values@)) && forall|
                other: Seq<ApplicationExportGrantView>,
            | !#[trigger] export_application_list_carries(values@, other),
        },
{
    let mut result: Vec<CapabilityApplicationExportGrantV1> = Vec::new();
    let mut i: usize = 0;
    while i < values.len()
        invariant
            i <= values@.len(),
            result@.len() == i,
            forall|k: int|
                0 <= k < i ==> export_application_carries(values@[k], #[trigger] result@[k]@),
        decreases values@.len() - i,
    {
        match export_application_from_proto(&values[i]) {
            Ok(held) => {
                result.push(held);
            },
            Err(error) => {
                assert forall|other: Seq<ApplicationExportGrantView>|
                    !#[trigger] export_application_list_carries(values@, other) by {
                    assert(!export_application_carries(values@[i as int], other[i as int]));
                }
                proof {
                    assert forall|k: int| 0 <= k < i
                        implies export_application_readable(#[trigger] values@[k]) by {
                        assert(export_application_carries(values@[k], result@[k]@));
                    }
                    assert(export_application_stops_at(values@, i as int));
                    assert forall|place: int| #[trigger] export_application_stops_at(values@, place)
                        && export_application_over_limit(values@[place]) implies place == i by {
                        if place < i {
                            assert(export_application_readable(values@[place]));
                        } else if place > i {
                            assert(export_application_readable(values@[i as int]));
                        }
                    }
                }
                return Err(error);
            },
        }
        i += 1;
    }
    Ok(result)
}

/// Whether a message is the form of what a grant lets be exported.
pub open spec fn export_extension_carries(
    message: wire::CapabilityExportGrantExtensionV1,
    value: ExportGrantView,
) -> bool {
    &&& export_extension_parts_carry(message, value)
    &&& exports_rebuilt(message.rebuilt, value.applications)
    &&& message.refusal is None
}

/// Whether a message holds the parts of exports, whatever the owning type says of them.
pub open spec fn export_extension_parts_carry(
    message: wire::CapabilityExportGrantExtensionV1,
    value: ExportGrantView,
) -> bool {
    &&& export_application_list_carries(message.applications@, value.applications)
}

/// Whether the parts of exports are sound, whatever the owning types say of them.
pub open spec fn export_extension_parts_sound(
    message: wire::CapabilityExportGrantExtensionV1,
) -> bool {
    exists|value: ExportGrantView| #[trigger] export_extension_parts_carry(message, value)
        && export_extension_valid(value)
}

/// Whether exports are refused for a limit: as an item, as a list, or by the grant that
/// they are for.
pub open spec fn export_extension_over_limit(
    message: wire::CapabilityExportGrantExtensionV1,
) -> bool {
    ||| export_application_list_over_limit(message.applications@)
    ||| export_extension_parts_sound(message)
        && (message.rebuilt matches Err(error) && over_limit(error))
    ||| export_extension_listed(message)
        && (message.refusal matches Some(error) && over_limit(error))
}

/// Whether the parts of exports are sound and their own canonical list.
pub open spec fn export_extension_listed(message: wire::CapabilityExportGrantExtensionV1) -> bool {
    exists|value: ExportGrantView| #[trigger]
        export_extension_parts_carry(message, value) && export_extension_valid(value)
            && exports_rebuilt(
            message.rebuilt,
            value.applications,
        )
}

/// The parts of what a grant lets be exported are valid.
pub open spec fn export_extension_valid(value: ExportGrantView) -> bool {
    &&& value.applications.len() > 0
}

/// A message is the form of at most one value.
pub proof fn export_extension_form_is_exact(
    message: wire::CapabilityExportGrantExtensionV1,
    a: ExportGrantView,
    b: ExportGrantView,
)
    requires
        export_extension_carries(message, a),
        export_extension_carries(message, b),
    ensures
        a == b,
{
    export_application_list_form_is_exact(message.applications@, a.applications, b.applications);
}

/// The message form of what a grant lets be exported.
pub fn export_extension_to_proto(
    value: &CapabilityExportGrantV1,
) -> (result: wire::CapabilityExportGrantExtensionV1)
    ensures
        export_extension_carries(result, value@),
{
    wire::CapabilityExportGrantExtensionV1 {
        applications: export_application_list_to_proto(&value.applications),
        rebuilt: Ok(copy_export_application_list(&value.applications)),
        refusal: None,
    }
}

/// Reads what a grant lets be exported.
pub fn export_extension_from_proto(
    value: &wire::CapabilityExportGrantExtensionV1,
) -> (result: Result<
    CapabilityExportGrantV1,
    DurableCodecError,
>)
    ensures
        match result {
            Ok(held) => export_extension_carries(*value, held@) && export_extension_valid(held@),
            Err(error) =>
                error.kind == unread_failure(export_extension_over_limit(*value)) && forall|
                other: ExportGrantView,
            | #[trigger]
                export_extension_carries(*value, other) ==> !export_extension_valid(other),
        },
{
    let applications = export_application_list_from_proto(&value.applications)?;
    if !(applications.len() > 0) {
        assert forall|other: ExportGrantView| #[trigger]
            export_extension_parts_carry(*value, other) implies !export_extension_valid(other) by {
            if export_extension_valid(other) {
                export_application_list_form_is_exact(
                    value.applications@,
                    other.applications,
                    export_application_views(applications@),
                );
            }
        }
        return Err(DurableCodecError::corrupt());
    }
    let read = CapabilityExportGrantV1 { applications };
    assert(export_extension_parts_carry(*value, read@));
    let list = match &value.rebuilt {
        Err(error) => return Err(DurableCodecError::from_storage_value(*error)),
        Ok(list) => list,
    };
    if !same_export_application_list(list, &read.applications) {
        assert forall|other: ExportGrantView| #[trigger] export_extension_parts_carry(*value, other)
            && export_extension_valid(other)
                implies !exports_rebuilt(value.rebuilt, other.applications) by {
            export_application_list_form_is_exact(value.applications@, read@.applications,
                other.applications);
        }
        return Err(DurableCodecError::corrupt());
    }
    match value.refusal {
        Some(error) => Err(DurableCodecError::from_storage_value(error)),
        None => Ok(read),
    }
}

/// Whether an optional message is there and refused for a limit.
pub open spec fn optional_export_extension_over_limit(
    message: Option<wire::CapabilityExportGrantExtensionV1>,
) -> bool {
    message matches Some(form) && export_extension_over_limit(form)
}

/// Whether an optional message is absent or the form of some valid value.
pub open spec fn optional_export_extension_readable(
    message: Option<wire::CapabilityExportGrantExtensionV1>,
) -> bool {
    exists|value: Option<ExportGrantView>| #[trigger]
        optional_export_extension_carries(message, value)
            && (value matches Some(part) ==> export_extension_valid(part))
}

/// Whether an optional message is the form of an optional value.
pub open spec fn optional_export_extension_carries(
    message: Option<wire::CapabilityExportGrantExtensionV1>,
    value: Option<ExportGrantView>,
) -> bool {
    match (message, value) {
        (Some(form), Some(part)) => export_extension_carries(form, part),
        (None, None) => true,
        _ => false,
    }
}

/// The optional message form of an optional value.
pub fn optional_export_extension_to_proto(
    value: &Option<CapabilityExportGrantV1>,
) -> (result: Option<
    wire::CapabilityExportGrantExtensionV1,
>)
    ensures
        optional_export_extension_carries(result, optional_export_extension_view(*value)),
{
    match value {
        Some(part) => Some(export_extension_to_proto(part)),
        None => None,
    }
}

/// Reads an optional value from its optional message form.
pub fn optional_export_extension_from_proto(
    value: &Option<wire::CapabilityExportGrantExtensionV1>,
) -> (result: Result<
    Option<CapabilityExportGrantV1>,
    DurableCodecError,
>)
    ensures
        match result {
            Ok(held) => optional_export_extension_carries(
                *value,
                optional_export_extension_view(held),
            ) && (optional_export_extension_view(held) matches Some(part)
                ==> export_extension_valid(part)),
            Err(error) =>
                error.kind == unread_failure(optional_export_extension_over_limit(*value))
                    && forall|
                other: Option<ExportGrantView>,
            | #[trigger]
                optional_export_extension_carries(*value, other)
                    ==> !(other matches Some(part) ==> export_extension_valid(
                    part,
                )),
        },
{
    match value {
        Some(form) => {
            let part = export_extension_from_proto(form)?;
            Ok(Some(part))
        },
        None => Ok(None),
    }
}

/// Whether a message is the form of a grant without its extensions.
pub open spec fn grant_carries(message: wire::CapabilityGrantV1, value: GrantBaseView) -> bool {
    &&& grant_parts_carry(message, value)
    &&& grant_rebuilt(message.rebuilt, value.field_visibility, value.approval_required)
}

/// Whether a message holds the parts of a grant without its extensions, whatever the owning
/// type says of them.
pub open spec fn grant_parts_carry(message: wire::CapabilityGrantV1, value: GrantBaseView) -> bool {
    &&& (message.tenant_scope matches Some(part) && tenant_scope_carries(part, value.tenant_scope))
    &&& (message.partition_scope matches Some(part) && partition_scope_carries(
        part,
        value.partition_scope,
    ))
    &&& (message.permissions matches Some(part) && permissions_carries(part, value.permissions))
    &&& visible_fields_list_carries(message.field_visibility@, value.field_visibility)
    &&& message.max_scan_rows == value.max_scan_rows.value
    &&& kinds_carry(message.approval_required@, value.approval_required)
}

/// Whether the parts of a grant without its extensions are sound, whatever the owning
/// type says of them.
pub open spec fn grant_parts_sound(message: wire::CapabilityGrantV1) -> bool {
    exists|value: GrantBaseView| #[trigger] grant_parts_carry(message, value) && grant_valid(value)
}

/// Whether what is read of a grant before its partition scope is sound: its
/// visibilities, its approvals and its tenant scope.
pub open spec fn grant_lead_sound(message: wire::CapabilityGrantV1) -> bool {
    &&& exists|values: Seq<VisibleFieldsView>| #[trigger]
        visible_fields_list_carries(message.field_visibility@, values)
            && visible_fields_list_valid(values)
    &&& exists|kinds: Seq<CapabilityPermissionKindV1>| #[trigger]
        kinds_carry(message.approval_required@, kinds)
    &&& (message.tenant_scope matches Some(part) && exists|scope: TenantScopeView| #[trigger]
        tenant_scope_carries(part, scope))
}

/// Whether a grant without its extensions is refused for a limit: for a visibility, for
/// its partition scope, for its permissions, or as a whole, in this order.
pub open spec fn grant_over_limit(message: wire::CapabilityGrantV1) -> bool {
    ||| visible_fields_list_over_limit(message.field_visibility@)
    ||| grant_lead_sound(message) && (message.partition_scope matches Some(part)
        && partition_scope_over_limit(part))
    ||| grant_lead_sound(message) && (message.partition_scope matches Some(part) && exists|
        scope: PartitionScopeView,
    | #[trigger] partition_scope_carries(part, scope)) && (message.permissions matches Some(part)
        && permissions_over_limit(part))
    ||| grant_parts_sound(message) && (message.rebuilt matches Err(error) && over_limit(error))
}

/// The parts of a grant without its extensions are valid.
pub open spec fn grant_valid(value: GrantBaseView) -> bool {
    &&& permissions_valid(value.permissions)
    &&& visible_fields_list_valid(value.field_visibility)
    &&& value.max_scan_rows.valid()
}

/// A message is the form of at most one value.
pub proof fn grant_form_is_exact(
    message: wire::CapabilityGrantV1,
    a: GrantBaseView,
    b: GrantBaseView,
)
    requires
        grant_carries(message, a),
        grant_carries(message, b),
    ensures
        a == b,
{
    tenant_scope_form_is_exact(message.tenant_scope->Some_0, a.tenant_scope, b.tenant_scope);
    partition_scope_form_is_exact(
        message.partition_scope->Some_0,
        a.partition_scope,
        b.partition_scope,
    );
    permissions_form_is_exact(message.permissions->Some_0, a.permissions, b.permissions);
    visible_fields_list_form_is_exact(
        message.field_visibility@,
        a.field_visibility,
        b.field_visibility,
    );
    kinds_form_is_exact(message.approval_required@, a.approval_required, b.approval_required);
}

/// The message form of a grant without its extensions.
pub fn grant_to_proto(value: &GrantBase) -> (result: wire::CapabilityGrantV1)
    ensures
        grant_carries(result, value@),
{
    wire::CapabilityGrantV1 {
        tenant_scope: Some(tenant_scope_to_proto(&value.tenant_scope)),
        partition_scope: Some(partition_scope_to_proto(&value.partition_scope)),
        permissions: Some(permissions_to_proto(&value.permissions)),
        field_visibility: visible_fields_list_to_proto(&value.field_visibility),
        max_scan_rows: value.max_scan_rows.get() as u32,
        approval_required: kinds_to_wire(&value.approval_required),
        rebuilt: Ok(
            RebuiltGrant {
                field_visibility: copy_visible_fields_list(&value.field_visibility),
                approval_required: copy_kinds(&value.approval_required),
            },
        ),
    }
}

/// Reads a grant without its extensions.
pub fn grant_from_proto(value: &wire::CapabilityGrantV1) -> (result: Result<
    GrantBase,
    DurableCodecError,
>)
    ensures
        match result {
            Ok(held) => grant_carries(*value, held@) && grant_valid(held@),
            Err(error) => error.kind == unread_failure(grant_over_limit(*value)) && forall|
                other: GrantBaseView,
            | #[trigger]
                grant_carries(*value, other) ==> !grant_valid(other),
        },
{
    let field_visibility = visible_fields_list_from_proto(&value.field_visibility)?;
    let approval_required = kinds_from_wire(&value.approval_required)?;
    let tenant_scope = tenant_scope_from_proto(require_ref(&value.tenant_scope)?)?;
    let partition_scope = partition_scope_from_proto(require_ref(&value.partition_scope)?)?;
    let permissions = permissions_from_proto(require_ref(&value.permissions)?)?;
    let max_scan_rows = limit_from_wire(value.max_scan_rows)?;
    let read = GrantBase {
        tenant_scope,
        partition_scope,
        permissions,
        field_visibility,
        max_scan_rows,
        approval_required,
    };
    assert(grant_parts_carry(*value, read@));
    match &value.rebuilt {
        Err(error) => Err(DurableCodecError::from_storage_value(*error)),
        Ok(list) => if same_visible_fields_list(&list.field_visibility, &read.field_visibility)
            && same_kind_list(&list.approval_required, &read.approval_required) {
            Ok(read)
        } else {
            assert forall|other: GrantBaseView| #[trigger] grant_carries(*value, other) implies
                !grant_valid(other) by {
                visible_fields_list_form_is_exact(
                    value.field_visibility@,
                    read@.field_visibility,
                    other.field_visibility,
                );
                kinds_form_is_exact(
                    value.approval_required@,
                    read@.approval_required,
                    other.approval_required,
                );
            }
            Err(DurableCodecError::corrupt())
        },
    }
}

/// Whether a message is the form of what a capability record holds beside its grant.
pub open spec fn capability_header_carries(
    message: wire::CapabilityHeaderV1,
    value: CapabilityHeaderView,
) -> bool {
    &&& identifier_carries(message.capability_id, value.capability_id)
    &&& message.revision == value.revision.value
    &&& (message.token_digest matches Some(part) && token_digest_carries(part, value.token_digest))
    &&& identifier_carries(message.database_id, value.database_id)
    &&& text_carries(message.environment, value.environment)
    &&& text_carries(message.principal_id, value.principal_id)
    &&& actor_kind_carries(message.actor_kind, value.actor_kind)
    &&& texts_carry(message.audiences@, value.audiences)
    &&& (message.issued_at matches Some(part) && timestamp_carries(part, value.issued_at))
    &&& (message.expires_at matches Some(part) && timestamp_carries(part, value.expires_at))
    &&& message.creation_sequence == value.creation_sequence.value
    &&& identifier_carries(message.creation_request_id, value.creation_request_id)
    &&& (message.lifecycle matches Some(part) && lifecycle_carries(part, value.lifecycle))
}

/// The parts of what a capability record holds beside its grant are valid.
pub open spec fn capability_header_valid(value: CapabilityHeaderView) -> bool {
    &&& value.revision.valid()
    &&& token_digest_valid(value.token_digest)
    &&& timestamp_valid(value.issued_at)
    &&& timestamp_valid(value.expires_at)
    &&& value.creation_sequence.valid()
    &&& lifecycle_valid(value.lifecycle)
}

/// A message is the form of at most one value.
pub proof fn capability_header_form_is_exact(
    message: wire::CapabilityHeaderV1,
    a: CapabilityHeaderView,
    b: CapabilityHeaderView,
)
    requires
        capability_header_carries(message, a),
        capability_header_carries(message, b),
    ensures
        a == b,
{
    assert(a.capability_id.bytes =~= b.capability_id.bytes);
    token_digest_form_is_exact(message.token_digest->Some_0, a.token_digest, b.token_digest);
    assert(a.database_id.bytes =~= b.database_id.bytes);
    texts_form_is_exact(message.audiences@, a.audiences, b.audiences);
    timestamp_form_is_exact(message.issued_at->Some_0, a.issued_at, b.issued_at);
    timestamp_form_is_exact(message.expires_at->Some_0, a.expires_at, b.expires_at);
    assert(a.creation_request_id.bytes =~= b.creation_request_id.bytes);
    lifecycle_form_is_exact(message.lifecycle->Some_0, a.lifecycle, b.lifecycle);
}

/// The message form of what a capability record holds beside its grant.
pub fn capability_header_to_proto(value: &CapabilityHeader) -> (result: wire::CapabilityHeaderV1)
    ensures
        capability_header_carries(result, value@),
{
    wire::CapabilityHeaderV1 {
        capability_id: identifier_to_wire(value.capability_id),
        revision: value.revision.get(),
        token_digest: Some(token_digest_to_proto(value.token_digest)),
        database_id: identifier_to_wire(value.database_id),
        environment: text_to_wire(&value.environment),
        principal_id: text_to_wire(&value.principal_id),
        actor_kind: actor_kind_to_proto(value.actor_kind),
        audiences: texts_to_wire(&value.audiences),
        issued_at: Some(timestamp_to_proto(value.issued_at)),
        expires_at: Some(timestamp_to_proto(value.expires_at)),
        creation_sequence: value.creation_sequence.get(),
        creation_request_id: identifier_to_wire(value.creation_request_id),
        lifecycle: Some(lifecycle_to_proto(value.lifecycle)),
    }
}

/// Reads what a capability record holds beside its grant.
pub fn capability_header_from_proto(value: &wire::CapabilityHeaderV1) -> (result: Result<
    CapabilityHeader,
    DurableCodecError,
>)
    ensures
        match result {
            Ok(held) => capability_header_carries(*value, held@) && capability_header_valid(held@),
            Err(error) => is_corrupt(error) && forall|other: CapabilityHeaderView| #[trigger]
                capability_header_carries(*value, other) ==> !capability_header_valid(other),
        },
{
    let capability_id = identifier_from_wire(&value.capability_id)?;
    let revision = require(Id64::new(value.revision))?;
    let token_digest = token_digest_from_proto(require_ref(&value.token_digest)?)?;
    let database_id = identifier_from_wire(&value.database_id)?;
    let environment = text_from_wire(&value.environment)?;
    let principal_id = text_from_wire(&value.principal_id)?;
    let actor_kind = actor_kind_from_proto(value.actor_kind)?;
    let audiences = texts_from_wire(&value.audiences)?;
    let issued_at = timestamp_from_proto(require_ref(&value.issued_at)?)?;
    let expires_at = timestamp_from_proto(require_ref(&value.expires_at)?)?;
    let creation_sequence = require(Id64::new(value.creation_sequence))?;
    let creation_request_id = identifier_from_wire(&value.creation_request_id)?;
    let lifecycle = lifecycle_from_proto(require_ref(&value.lifecycle)?)?;
    Ok(
        CapabilityHeader {
            capability_id,
            revision,
            token_digest,
            database_id,
            environment,
            principal_id,
            actor_kind,
            audiences,
            issued_at,
            expires_at,
            creation_sequence,
            creation_request_id,
            lifecycle,
        },
    )
}

/// Row policies that can be read are refused for no limit.
proof fn row_policy_read_is_within_limits(
    message: wire::CapabilityRowPolicyGrantExtensionV1,
    value: RowPolicyGrantView,
)
    requires
        row_policy_carries(message, value),
        row_policy_valid(value),
    ensures
        !row_policy_over_limit(message),
{
    if policy_binding_list_over_limit(message.policies@) {
        let place = choose|place: int| #[trigger]
            policy_binding_stops_at(message.policies@, place)
                && policy_binding_over_limit(message.policies@[place]);
        assert(policy_binding_carries(message.policies@[place], value.bindings[place]));
    }
}

/// Exports that can be read are refused for no limit.
proof fn export_extension_read_is_within_limits(
    message: wire::CapabilityExportGrantExtensionV1,
    value: ExportGrantView,
)
    requires
        export_extension_carries(message, value),
        export_extension_valid(value),
    ensures
        !export_extension_over_limit(message),
{
    if export_application_list_over_limit(message.applications@) {
        let place = choose|place: int| #[trigger]
            export_application_stops_at(message.applications@, place)
                && export_application_over_limit(message.applications@[place]);
        assert(export_application_carries(message.applications@[place], value.applications[place]));
    }
}

/// A grant that can be read is refused for no limit.
proof fn grant_read_is_within_limits(message: wire::CapabilityGrantV1, value: GrantBaseView)
    requires
        grant_carries(message, value),
        grant_valid(value),
    ensures
        !grant_over_limit(message),
{
    if visible_fields_list_over_limit(message.field_visibility@) {
        let place = choose|place: int| #[trigger]
            visible_fields_stops_at(message.field_visibility@, place) && visible_fields_over_limit(
                message.field_visibility@[place],
            );
        assert(visible_fields_carries(
            message.field_visibility@[place],
            value.field_visibility[place],
        ));
    }
}

/// Whether a message is the form of a capability record without its grant's extensions.
pub open spec fn capability_base_carries(
    message: wire::CapabilityRecordV1,
    value: CapabilityRecordBaseView,
) -> bool {
    &&& capability_header_carries(message.header, value.header)
    &&& (message.grant matches Some(part) && grant_carries(part, value.grant))
}

/// The parts of a capability record without its grant's extensions are valid.
pub open spec fn capability_base_valid(value: CapabilityRecordBaseView) -> bool {
    &&& capability_header_valid(value.header)
    &&& grant_valid(value.grant)
}

/// A message is the form of at most one value.
pub proof fn capability_base_form_is_exact(
    message: wire::CapabilityRecordV1,
    a: CapabilityRecordBaseView,
    b: CapabilityRecordBaseView,
)
    requires
        capability_base_carries(message, a),
        capability_base_carries(message, b),
    ensures
        a == b,
{
    capability_header_form_is_exact(message.header, a.header, b.header);
    grant_form_is_exact(message.grant->Some_0, a.grant, b.grant);
}

/// The message form of a capability record without its grant's extensions.
pub fn capability_base_to_proto(
    value: &CapabilityRecordBase,
) -> (result: wire::CapabilityRecordV1)
    ensures
        capability_base_carries(result, value@),
{
    wire::CapabilityRecordV1 {
        header: capability_header_to_proto(&value.header),
        grant: Some(grant_to_proto(&value.grant)),
    }
}

/// Whether a message is the form of a capability record in its parts.
pub open spec fn capability_parts_carries(
    message: wire::CapabilityRecordV6,
    value: CapabilityRecordPartsView,
) -> bool {
    &&& (message.base matches Some(part) && capability_base_carries(part, value.base))
    &&& optional_lineage_extension_carries(message.migration, value.migration)
    &&& optional_lineage_extension_carries(message.installation, value.installation)
    &&& optional_row_policy_carries(message.row_policy, value.row_policy)
    &&& optional_export_extension_carries(message.export, value.export)
    &&& optional_secret_extension_carries(message.secret, value.secret)
}

/// The parts of a capability record in its parts are valid.
pub open spec fn capability_parts_valid(value: CapabilityRecordPartsView) -> bool {
    &&& capability_base_valid(value.base)
    &&& (value.migration matches Some(part) ==> lineage_extension_valid(part))
    &&& (value.installation matches Some(part) ==> lineage_extension_valid(part))
    &&& (value.row_policy matches Some(part) ==> row_policy_valid(part))
    &&& (value.export matches Some(part) ==> export_extension_valid(part))
    &&& (value.secret matches Some(part) ==> secret_extension_valid(part))
}

/// A message is the form of at most one value.
pub proof fn capability_parts_form_is_exact(
    message: wire::CapabilityRecordV6,
    a: CapabilityRecordPartsView,
    b: CapabilityRecordPartsView,
)
    requires
        capability_parts_carries(message, a),
        capability_parts_carries(message, b),
    ensures
        a == b,
{
    capability_base_form_is_exact(message.base->Some_0, a.base, b.base);
    if a.migration is Some {
        lineage_extension_form_is_exact(
            message.migration->Some_0,
            a.migration->Some_0,
            b.migration->Some_0,
        );
    }
    if a.installation is Some {
        lineage_extension_form_is_exact(
            message.installation->Some_0,
            a.installation->Some_0,
            b.installation->Some_0,
        );
    }
    if a.row_policy is Some {
        row_policy_form_is_exact(
            message.row_policy->Some_0,
            a.row_policy->Some_0,
            b.row_policy->Some_0,
        );
    }
    if a.export is Some {
        export_extension_form_is_exact(message.export->Some_0, a.export->Some_0, b.export->Some_0);
    }
    if a.secret is Some {
        secret_extension_form_is_exact(message.secret->Some_0, a.secret->Some_0, b.secret->Some_0);
    }
}

/// The message form of a capability record in its parts.
pub fn capability_parts_to_proto(
    value: &CapabilityRecordParts,
) -> (result: wire::CapabilityRecordV6)
    ensures
        capability_parts_carries(result, value@),
{
    wire::CapabilityRecordV6 {
        base: Some(capability_base_to_proto(&value.base)),
        migration: optional_lineage_extension_to_proto(&value.migration),
        installation: optional_lineage_extension_to_proto(&value.installation),
        row_policy: optional_row_policy_to_proto(&value.row_policy),
        export: optional_export_extension_to_proto(&value.export),
        secret: optional_secret_extension_to_proto(&value.secret),
    }
}

/// Whether a migration extension, where there is one, names a lineage. This is asked
/// before anything is read.
pub open spec fn migration_named(message: wire::CapabilityRecordV6) -> bool {
    message.migration matches Some(part) ==> part.contract_lineages@.len() > 0
}

/// Whether the grant of a capability record is sound.
pub open spec fn capability_grant_sound(message: wire::CapabilityRecordV6) -> bool {
    message.base matches Some(base) && (base.grant matches Some(part) && exists|
        grant: GrantBaseView,
    | #[trigger] grant_carries(part, grant) && grant_valid(grant))
}

/// Whether what a capability record holds beside its grant is sound. This is read after
/// every extension but the secret fields.
pub open spec fn capability_header_sound(message: wire::CapabilityRecordV6) -> bool {
    message.base matches Some(base) && exists|header: CapabilityHeaderView| #[trigger]
        capability_header_carries(base.header, header) && capability_header_valid(header)
}

/// Whether what is read of a capability record before its row policies is sound.
pub open spec fn capability_lead_sound(message: wire::CapabilityRecordV6) -> bool {
    &&& migration_named(message)
    &&& capability_grant_sound(message)
    &&& optional_lineage_readable(message.migration)
    &&& optional_lineage_readable(message.installation)
}

/// Whether an optional message is absent or the form of valid lineages.
pub open spec fn optional_lineage_readable(
    message: Option<wire::CapabilityLineageGrantExtensionV1>,
) -> bool {
    exists|value: Option<LineageGrantView>| #[trigger]
        optional_lineage_extension_carries(message, value) && (value matches Some(part)
            ==> lineage_extension_valid(part))
}

/// Whether a part of a capability record is refused for a limit and nothing that is read
/// before it is unsound: the grant, then row policies, exports and secret fields.
pub open spec fn capability_parts_over_limit(message: wire::CapabilityRecordV6) -> bool {
    ||| migration_named(message) && (message.base matches Some(base)
        && (base.grant matches Some(part) && grant_over_limit(part)))
    ||| capability_lead_sound(message) && optional_row_policy_over_limit(message.row_policy)
    ||| capability_lead_sound(message) && optional_row_policy_readable(message.row_policy)
        && optional_export_extension_over_limit(message.export)
    ||| capability_lead_sound(message) && optional_row_policy_readable(message.row_policy)
        && optional_export_extension_readable(message.export) && capability_header_sound(message)
        && optional_secret_extension_over_limit(message.secret)
}

/// What reading a message gives: the value that it is the form of, or why it is the form
/// of no valid one.
pub open spec fn capability_parts_read(
    message: wire::CapabilityRecordV6,
    result: Result<CapabilityRecordParts, DurableCodecError>,
) -> bool {
    match result {
        Ok(held) => capability_parts_carries(message, held@) && capability_parts_valid(held@),
        Err(error) => error.kind == unread_failure(capability_parts_over_limit(message)) && forall|
            other: CapabilityRecordPartsView,
        | #[trigger]
            capability_parts_carries(message, other) ==> !capability_parts_valid(other),
    }
}

/// Reads a capability record in its parts.
pub fn capability_parts_from_proto(value: &wire::CapabilityRecordV6) -> (result: Result<
    CapabilityRecordParts,
    DurableCodecError,
>)
    ensures
        capability_parts_read(*value, result),
{
    let form = require_ref(&value.base)?;
    if let Some(extension) = &value.migration {
        if extension.contract_lineages.len() == 0 {
            return Err(DurableCodecError::corrupt());
        }
    }
    let grant = grant_from_proto(require_ref(&form.grant)?)?;
    proof {
        grant_read_is_within_limits(form.grant->Some_0, grant@);
    }
    let migration = optional_lineage_extension_from_proto(&value.migration)?;
    let installation = optional_lineage_extension_from_proto(&value.installation)?;
    let row_policy = optional_row_policy_from_proto(&value.row_policy)?;
    proof {
        if let Some(part) = optional_row_policy_view(row_policy) {
            row_policy_read_is_within_limits(value.row_policy->Some_0, part);
        }
    }
    let export = optional_export_extension_from_proto(&value.export)?;
    proof {
        if let Some(part) = optional_export_extension_view(export) {
            export_extension_read_is_within_limits(value.export->Some_0, part);
        }
    }
    let header = capability_header_from_proto(&form.header)?;
    let secret = optional_secret_extension_from_proto(&value.secret)?;
    let base = CapabilityRecordBase { header, grant };
    Ok(CapabilityRecordParts { base, migration, installation, row_policy, export, secret })
}

/// Reading the message form of a capability record in its parts gives back what was written.
pub proof fn capability_parts_round_trip(
    value: CapabilityRecordPartsView,
    message: wire::CapabilityRecordV6,
    read: Result<CapabilityRecordParts, DurableCodecError>,
)
    requires
        capability_parts_valid(value),
        capability_parts_carries(message, value),
        capability_parts_read(message, read),
    ensures
        read is Ok,
        read->Ok_0@ == value,
{
    if let Ok(held) = read {
        capability_parts_form_is_exact(message, held@, value);
    }
}

/// Whether a message is the form of the capability that a token digest leads to.
pub open spec fn token_lookup_carries(
    message: wire::CapabilityTokenLookupV1,
    value: CapabilityTokenLookupV1,
) -> bool {
    &&& identifier_carries(message.capability_id, value.capability_id)
}

/// A message is the form of at most one value.
pub proof fn token_lookup_form_is_exact(
    message: wire::CapabilityTokenLookupV1,
    a: CapabilityTokenLookupV1,
    b: CapabilityTokenLookupV1,
)
    requires
        token_lookup_carries(message, a),
        token_lookup_carries(message, b),
    ensures
        a == b,
{
    assert(a.capability_id.bytes =~= b.capability_id.bytes);
}

/// The message form of the capability that a token digest leads to.
pub fn token_lookup_to_proto(
    value: CapabilityTokenLookupV1,
) -> (result: wire::CapabilityTokenLookupV1)
    ensures
        token_lookup_carries(result, value),
{
    wire::CapabilityTokenLookupV1 {
        capability_id: identifier_to_wire(value.capability_id),
    }
}

/// What reading a message gives: the value that it is the form of, or a
/// corruption where it is the form of no valid one.
pub open spec fn token_lookup_read(
    message: wire::CapabilityTokenLookupV1,
    result: Result<CapabilityTokenLookupV1, DurableCodecError>,
) -> bool {
    match result {
        Ok(held) => token_lookup_carries(message, held),
        Err(error) => is_corrupt(error) && forall|other: CapabilityTokenLookupV1|
            !#[trigger] token_lookup_carries(message, other),
    }
}

/// Reads the capability that a token digest leads to.
pub fn token_lookup_from_proto(value: &wire::CapabilityTokenLookupV1) -> (result: Result<
    CapabilityTokenLookupV1,
    DurableCodecError,
>)
    ensures
        token_lookup_read(*value, result),
{
    let capability_id = identifier_from_wire(&value.capability_id)?;
    Ok(CapabilityTokenLookupV1 { capability_id })
}

/// Reading the message form of the capability that a token digest leads to gives back what
/// was written.
pub proof fn token_lookup_round_trip(
    value: CapabilityTokenLookupV1,
    message: wire::CapabilityTokenLookupV1,
    read: Result<CapabilityTokenLookupV1, DurableCodecError>,
)
    requires
        token_lookup_carries(message, value),
        token_lookup_read(message, read),
    ensures
        read is Ok,
        read->Ok_0 == value,
{
    if let Ok(held) = read {
        token_lookup_form_is_exact(message, held, value);
    }
}

/// Whether a message is the form of the irreversible capability-bootstrap marker.
pub open spec fn bootstrap_marker_carries(
    message: wire::CapabilityBootstrapMarkerV1,
    value: CapabilityBootstrapMarkerV1,
) -> bool {
    &&& identifier_carries(message.database_id, value.database_id)
    &&& identifier_carries(message.capability_id, value.capability_id)
    &&& message.administration_sequence == value.administration_sequence.value
}

/// The parts of the irreversible capability-bootstrap marker are valid.
pub open spec fn bootstrap_marker_valid(value: CapabilityBootstrapMarkerV1) -> bool {
    &&& value.administration_sequence.valid()
}

/// A message is the form of at most one value.
pub proof fn bootstrap_marker_form_is_exact(
    message: wire::CapabilityBootstrapMarkerV1,
    a: CapabilityBootstrapMarkerV1,
    b: CapabilityBootstrapMarkerV1,
)
    requires
        bootstrap_marker_carries(message, a),
        bootstrap_marker_carries(message, b),
    ensures
        a == b,
{
    assert(a.database_id.bytes =~= b.database_id.bytes);
    assert(a.capability_id.bytes =~= b.capability_id.bytes);
}

/// The message form of the irreversible capability-bootstrap marker.
pub fn bootstrap_marker_to_proto(
    value: CapabilityBootstrapMarkerV1,
) -> (result: wire::CapabilityBootstrapMarkerV1)
    ensures
        bootstrap_marker_carries(result, value),
{
    wire::CapabilityBootstrapMarkerV1 {
        database_id: identifier_to_wire(value.database_id),
        capability_id: identifier_to_wire(value.capability_id),
        administration_sequence: value.administration_sequence.get(),
    }
}

/// What reading a message gives: the value that it is the form of, or a
/// corruption where it is the form of no valid one.
pub open spec fn bootstrap_marker_read(
    message: wire::CapabilityBootstrapMarkerV1,
    result: Result<CapabilityBootstrapMarkerV1, DurableCodecError>,
) -> bool {
    match result {
        Ok(held) => bootstrap_marker_carries(message, held) && bootstrap_marker_valid(held),
        Err(error) => is_corrupt(error) && forall|other: CapabilityBootstrapMarkerV1| #[trigger]
            bootstrap_marker_carries(message, other) ==> !bootstrap_marker_valid(other),
    }
}

/// Reads the irreversible capability-bootstrap marker.
pub fn bootstrap_marker_from_proto(value: &wire::CapabilityBootstrapMarkerV1) -> (result: Result<
    CapabilityBootstrapMarkerV1,
    DurableCodecError,
>)
    ensures
        bootstrap_marker_read(*value, result),
{
    let database_id = identifier_from_wire(&value.database_id)?;
    let capability_id = identifier_from_wire(&value.capability_id)?;
    let administration_sequence = require(Id64::new(value.administration_sequence))?;
    Ok(CapabilityBootstrapMarkerV1 { database_id, capability_id, administration_sequence })
}

/// Reading the message form of the irreversible capability-bootstrap marker gives back what
/// was written.
pub proof fn bootstrap_marker_round_trip(
    value: CapabilityBootstrapMarkerV1,
    message: wire::CapabilityBootstrapMarkerV1,
    read: Result<CapabilityBootstrapMarkerV1, DurableCodecError>,
)
    requires
        bootstrap_marker_valid(value),
        bootstrap_marker_carries(message, value),
        bootstrap_marker_read(message, read),
    ensures
        read is Ok,
        read->Ok_0 == value,
{
    if let Ok(held) = read {
        bootstrap_marker_form_is_exact(message, held, value);
    }
}

/// Whether a message is the form of a capability-administration audit record.
pub open spec fn capability_administration_carries(
    message: wire::CapabilityAdministrationAuditV1,
    value: CapabilityAdministrationView,
) -> bool {
    &&& message.administration_sequence == value.administration_sequence.value
    &&& identifier_carries(message.request_id, value.request_id)
    &&& tag_carries(message.operation, value.operation)
    &&& (message.timestamp matches Some(part) && timestamp_carries(part, value.timestamp))
    &&& optional_audit_principal_carries(message.initiator, value.initiator)
    &&& identifier_carries(message.target_capability_id, value.target_capability_id)
    &&& message.resulting_revision == value.resulting_revision.value
    &&& optional_text_carries(message.approval_id, value.approval_id)
    &&& optional_tag_carries(message.revocation_reason, value.revocation_reason)
}

/// The parts of a capability-administration audit record are valid.
pub open spec fn capability_administration_valid(value: CapabilityAdministrationView) -> bool {
    &&& value.administration_sequence.valid()
    &&& timestamp_valid(value.timestamp)
    &&& (value.initiator matches Some(part) ==> audit_principal_valid(part))
    &&& value.resulting_revision.valid()
}

/// A message is the form of at most one value.
pub proof fn capability_administration_form_is_exact(
    message: wire::CapabilityAdministrationAuditV1,
    a: CapabilityAdministrationView,
    b: CapabilityAdministrationView,
)
    requires
        capability_administration_carries(message, a),
        capability_administration_carries(message, b),
    ensures
        a == b,
{
    assert(a.request_id.bytes =~= b.request_id.bytes);
    timestamp_form_is_exact(message.timestamp->Some_0, a.timestamp, b.timestamp);
    if a.initiator is Some {
        audit_principal_form_is_exact(
            message.initiator->Some_0,
            a.initiator->Some_0,
            b.initiator->Some_0,
        );
    }
    assert(a.target_capability_id.bytes =~= b.target_capability_id.bytes);
}

/// The message form of a capability-administration audit record.
pub fn capability_administration_to_proto(
    value: &StoredCapabilityAdministrationV1,
) -> (result: wire::CapabilityAdministrationAuditV1)
    ensures
        capability_administration_carries(result, value@),
{
    wire::CapabilityAdministrationAuditV1 {
        administration_sequence: value.administration_sequence.get(),
        request_id: identifier_to_wire(value.request_id),
        operation: tag_to_wire(value.operation),
        timestamp: Some(timestamp_to_proto(value.timestamp)),
        initiator: optional_audit_principal_to_proto(&value.initiator),
        target_capability_id: identifier_to_wire(value.target_capability_id),
        resulting_revision: value.resulting_revision.get(),
        approval_id: optional_text_to_wire(&value.approval_id),
        revocation_reason: optional_tag_to_wire(value.revocation_reason),
    }
}

/// What reading a message gives: the value that it is the form of, or a
/// corruption where it is the form of no valid one.
pub open spec fn capability_administration_read(
    message: wire::CapabilityAdministrationAuditV1,
    result: Result<StoredCapabilityAdministrationV1, DurableCodecError>,
) -> bool {
    match result {
        Ok(held) =>
            capability_administration_carries(message, held@)
                && capability_administration_valid(held@),
        Err(error) => is_corrupt(error) && forall|other: CapabilityAdministrationView| #[trigger]
            capability_administration_carries(message, other)
                ==> !capability_administration_valid(other),
    }
}

/// Reads a capability-administration audit record.
pub fn capability_administration_from_proto(
    value: &wire::CapabilityAdministrationAuditV1,
) -> (result: Result<
    StoredCapabilityAdministrationV1,
    DurableCodecError,
>)
    ensures
        capability_administration_read(*value, result),
{
    let administration_sequence = require(Id64::new(value.administration_sequence))?;
    let request_id = identifier_from_wire(&value.request_id)?;
    let operation = tag_from_wire(&value.operation)?;
    let timestamp = timestamp_from_proto(require_ref(&value.timestamp)?)?;
    let initiator = optional_audit_principal_from_proto(&value.initiator)?;
    let target_capability_id = identifier_from_wire(&value.target_capability_id)?;
    let resulting_revision = require(Id64::new(value.resulting_revision))?;
    let approval_id = optional_text_from_wire(&value.approval_id)?;
    let revocation_reason = optional_tag_from_wire(&value.revocation_reason)?;
    Ok(
        StoredCapabilityAdministrationV1 {
            administration_sequence,
            request_id,
            operation,
            timestamp,
            initiator,
            target_capability_id,
            resulting_revision,
            approval_id,
            revocation_reason,
        },
    )
}

/// Reading the message form of a capability-administration audit record gives back what was
/// written.
pub proof fn capability_administration_round_trip(
    value: CapabilityAdministrationView,
    message: wire::CapabilityAdministrationAuditV1,
    read: Result<StoredCapabilityAdministrationV1, DurableCodecError>,
)
    requires
        capability_administration_valid(value),
        capability_administration_carries(message, value),
        capability_administration_read(message, read),
    ensures
        read is Ok,
        read->Ok_0@ == value,
{
    if let Ok(held) = read {
        capability_administration_form_is_exact(message, held@, value);
    }
}

/// Encodes the reciprocal token-digest lookup value.
pub fn encode_capability_token_lookup_v1(value: CapabilityTokenLookupV1) -> (result: OutgoingRecord<
    wire::CapabilityTokenLookupV1,
>)
    ensures
        result.record_type == RecordType::CapabilityTokenLookupV1,
        token_lookup_carries(result.message, value),
{
    OutgoingRecord {
        record_type: RecordType::CapabilityTokenLookupV1,
        message: token_lookup_to_proto(value),
    }
}

/// Whether a message is the form of some valid value.
pub open spec fn token_lookup_readable(message: wire::CapabilityTokenLookupV1) -> bool {
    exists|value: CapabilityTokenLookupV1| #[trigger] token_lookup_carries(message, value)
}

/// Decodes the reciprocal token-digest lookup value.
pub fn decode_capability_token_lookup_v1(
    attempt: ReadAttempt<wire::CapabilityTokenLookupV1>,
) -> (result: Result<EncodedPageItem<CapabilityTokenLookupV1>, DurableCodecError>)
    ensures
        match read_outcome(RecordType::CapabilityTokenLookupV1, attempt) {
            Err(kind) => result == Err::<EncodedPageItem<CapabilityTokenLookupV1>, _>(
                DurableCodecError { kind },
            ),
            Ok(message) => match refusal_of(
                token_lookup_readable(message),
                None,
                attempt.encoded_len,
            ) {
                Some(kind) => result == Err::<EncodedPageItem<CapabilityTokenLookupV1>, _>(
                    DurableCodecError { kind },
                ),
                None => result is Ok && token_lookup_carries(message, result->Ok_0.value)
                            && result->Ok_0.charge.bytes == attempt.encoded_len,
            },
        },
{
    let encoded_len = attempt.encoded_len;
    let message = read_message(RecordType::CapabilityTokenLookupV1, attempt)?;
    let value = token_lookup_from_proto(&message)?;
    admitted_item(value, None, encoded_len)
}

/// Encodes the irreversible capability-bootstrap marker.
pub fn encode_capability_bootstrap_marker_v1(
    value: CapabilityBootstrapMarkerV1,
) -> (result: OutgoingRecord<
    wire::CapabilityBootstrapMarkerV1,
>)
    ensures
        result.record_type == RecordType::CapabilityBootstrapMarkerV1,
        bootstrap_marker_carries(result.message, value),
{
    OutgoingRecord {
        record_type: RecordType::CapabilityBootstrapMarkerV1,
        message: bootstrap_marker_to_proto(value),
    }
}

/// Whether a message is the form of some valid value.
pub open spec fn bootstrap_marker_readable(message: wire::CapabilityBootstrapMarkerV1) -> bool {
    exists|value: CapabilityBootstrapMarkerV1| #[trigger]
        bootstrap_marker_carries(message, value) && bootstrap_marker_valid(value)
}

/// Decodes the irreversible capability-bootstrap marker.
pub fn decode_capability_bootstrap_marker_v1(
    attempt: ReadAttempt<wire::CapabilityBootstrapMarkerV1>,
) -> (result: Result<EncodedPageItem<CapabilityBootstrapMarkerV1>, DurableCodecError>)
    ensures
        match read_outcome(RecordType::CapabilityBootstrapMarkerV1, attempt) {
            Err(kind) => result == Err::<EncodedPageItem<CapabilityBootstrapMarkerV1>, _>(
                DurableCodecError { kind },
            ),
            Ok(message) => match refusal_of(
                bootstrap_marker_readable(message),
                None,
                attempt.encoded_len,
            ) {
                Some(kind) => result == Err::<EncodedPageItem<CapabilityBootstrapMarkerV1>, _>(
                    DurableCodecError { kind },
                ),
                None => result is Ok && bootstrap_marker_carries(message, result->Ok_0.value)
                    && bootstrap_marker_valid(result->Ok_0.value)
                    && result->Ok_0.charge.bytes == attempt.encoded_len,
            },
        },
{
    let encoded_len = attempt.encoded_len;
    let message = read_message(RecordType::CapabilityBootstrapMarkerV1, attempt)?;
    let value = bootstrap_marker_from_proto(&message)?;
    admitted_item(value, None, encoded_len)
}

/// Encodes one capability-administration audit record.
pub fn encode_capability_administration_v1(
    value: &StoredCapabilityAdministrationV1,
) -> (result: OutgoingRecord<
    wire::CapabilityAdministrationAuditV1,
>)
    ensures
        result.record_type == RecordType::CapabilityAdministrationAuditV1,
        capability_administration_carries(result.message, value@),
{
    OutgoingRecord {
        record_type: RecordType::CapabilityAdministrationAuditV1,
        message: capability_administration_to_proto(value),
    }
}

/// Whether a message is the form of some valid value.
pub open spec fn capability_administration_readable(
    message: wire::CapabilityAdministrationAuditV1,
) -> bool {
    exists|value: CapabilityAdministrationView| #[trigger]
        capability_administration_carries(message, value) && capability_administration_valid(value)
}

/// Decodes one capability-administration audit record.
pub fn decode_capability_administration_v1<
    R: Fn(&StoredCapabilityAdministrationV1) -> Option<StorageValueError>,
>(
    attempt: ReadAttempt<wire::CapabilityAdministrationAuditV1>,
    rule: R,
) -> (result: Result<EncodedPageItem<StoredCapabilityAdministrationV1>, DurableCodecError>)
    requires
        forall|value: &StoredCapabilityAdministrationV1| #[trigger] rule.requires((value,)),
    ensures
        match read_outcome(RecordType::CapabilityAdministrationAuditV1, attempt) {
            Err(kind) => result == Err::<EncodedPageItem<StoredCapabilityAdministrationV1>, _>(
                DurableCodecError { kind },
            ),
            Ok(message) => if capability_administration_readable(message) {
                exists|value: StoredCapabilityAdministrationV1| {
                    &&& capability_administration_carries( message, value@, )
                    &&& capability_administration_valid(value@)
                    &&& #[trigger] ruled(rule, value, attempt.encoded_len, result)
                }
            } else {
                result == Err::<EncodedPageItem<StoredCapabilityAdministrationV1>, _>(
                    DurableCodecError { kind: DurableCodecErrorKind::CorruptData },
                )
            },
        },
{
    let encoded_len = attempt.encoded_len;
    let message = read_message(RecordType::CapabilityAdministrationAuditV1, attempt)?;
    let value = capability_administration_from_proto(&message)?;
    ruled_item(value, rule, encoded_len)
}

} // verus!
