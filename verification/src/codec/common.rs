//! Values that many records share as durable messages.

use vstd::prelude::*;

use crate::bytes::copy_bytes;
use crate::codec::error::{is_corrupt, require, DurableCodecError};
use crate::codec::parts::{
    digest_from_wire, document_carries, document_from_wire, document_to_wire, identifier_carries,
    identifier_from_wire, identifier_to_wire, key_carries, key_from_wire, key_to_wire,
    optional_identifier_carries, optional_identifier_from_wire, optional_identifier_to_wire,
    optional_text_carries, optional_text_from_wire, optional_text_to_wire, require_ref,
    text_carries, text_from_wire, text_to_wire,
};
use crate::ids::{CommitSequence, EventId, Id32, Id64, Timestamp};
use crate::plan::{ExecutablePlanRef, ExecutablePlanView};
use crate::records::{DurableKeySchemaBindingV1, EntityTarget, EntityTargetView, SchemaBindingView};
use crate::stored::common::{
    optional_audit_principal_view, optional_entity_target_view, ActorKind, AdmittedActorContext,
    AdmittedActorContextView, AuditPrincipalV1, AuditPrincipalV1View, DeclaredOutcome,
    DeclaredOutcomeView, ExpectedEntityState, IdempotencyIdentity, IdempotencyIdentityView,
    IdempotencyKeyDigest, IndexEpochPosition, IndexRangePrefixView, ProvenanceClaimsView,
    StoredAdmittedProvenanceClaimsV1, StructurallyDecodedIndexRangePrefixV1, TenantScope,
    TenantScopeView,
};
use crate::wire;

verus! {

/// Whether a message is the form of a point in time.
pub open spec fn timestamp_carries(message: wire::TimestampV1, value: Timestamp) -> bool {
    message.seconds == value.seconds && message.nanos == value.nanoseconds
}

/// The nanoseconds stay within one second.
pub open spec fn timestamp_valid(value: Timestamp) -> bool {
    value.valid()
}

/// The message form of a point in time.
pub fn timestamp_to_proto(value: Timestamp) -> (result: wire::TimestampV1)
    ensures
        timestamp_carries(result, value),
{
    wire::TimestampV1 { seconds: value.seconds, nanos: value.nanoseconds }
}

/// The point in time of a message form.
pub fn timestamp_from_proto(value: &wire::TimestampV1) -> (result: Result<
    Timestamp,
    DurableCodecError,
>)
    ensures
        match result {
            Ok(held) => timestamp_carries(*value, held) && timestamp_valid(held),
            Err(error) => is_corrupt(error) && forall|other: Timestamp|
                #[trigger] timestamp_carries(*value, other) ==> !timestamp_valid(other),
        },
{
    require(Timestamp::new(value.seconds, value.nanos))
}

/// The index that the owner bytes of a range prefix name, where they are there.
pub open spec fn prefix_owner(bytes: Seq<u8>) -> Option<int> {
    if bytes.len() < 6 {
        None
    } else {
        Some(
            bytes[2] * 0x100_0000 + bytes[3] * 0x1_0000 + bytes[4] * 0x100 + bytes[5],
        )
    }
}

/// Whether a message is the form of a range prefix.
pub open spec fn range_prefix_carries(
    message: wire::IndexRangePrefixV1,
    value: IndexRangePrefixView,
) -> bool {
    key_carries(message.bytes, value.bytes)
}

/// The prefix names its own nonzero index.
pub open spec fn range_prefix_valid(value: IndexRangePrefixView) -> bool {
    value.index_id.valid() && prefix_owner(value.bytes) == Some(value.index_id.value as int)
}

/// The message form of a range prefix.
pub fn range_prefix_to_proto(value: &StructurallyDecodedIndexRangePrefixV1) -> (result:
    wire::IndexRangePrefixV1)
    ensures
        range_prefix_carries(result, value@),
{
    wire::IndexRangePrefixV1 { bytes: key_to_wire(&value.bytes) }
}

/// The range prefix of a message form: its owner bytes name a nonzero index.
pub fn range_prefix_from_proto(value: &wire::IndexRangePrefixV1) -> (result: Result<
    StructurallyDecodedIndexRangePrefixV1,
    DurableCodecError,
>)
    ensures
        match result {
            Ok(held) => range_prefix_carries(*value, held@) && range_prefix_valid(held@),
            Err(error) => is_corrupt(error) && forall|other: IndexRangePrefixView|
                #[trigger] range_prefix_carries(*value, other) ==> !range_prefix_valid(other),
        },
{
    let bytes = key_from_wire(&value.bytes)?;
    if bytes.len() < 6 {
        return Err(DurableCodecError::corrupt());
    }
    let owner: u32 = bytes[2] as u32 * 0x100_0000 + bytes[3] as u32 * 0x1_0000 + bytes[4] as u32
        * 0x100 + bytes[5] as u32;
    let index_id = require(Id32::new(owner))?;
    Ok(StructurallyDecodedIndexRangePrefixV1 { index_id, bytes })
}

/// A message is the form of at most one point in time.
pub proof fn timestamp_form_is_exact(message: wire::TimestampV1, a: Timestamp, b: Timestamp)
    requires
        timestamp_carries(message, a),
        timestamp_carries(message, b),
    ensures
        a == b,
{
}

/// A message is the form of at most one range prefix that names its own index.
pub proof fn range_prefix_form_is_exact(
    message: wire::IndexRangePrefixV1,
    a: IndexRangePrefixView,
    b: IndexRangePrefixView,
)
    requires
        range_prefix_carries(message, a),
        range_prefix_carries(message, b),
        range_prefix_valid(a),
        range_prefix_valid(b),
    ensures
        a == b,
{
}

/// Whether a message value is the form of an actor kind.
pub open spec fn actor_kind_carries(message: wire::ActorKindV1, value: ActorKind) -> bool {
    match value {
        ActorKind::Human => message is Human,
        ActorKind::Agent => message is Agent,
        ActorKind::Service => message is Service,
    }
}

/// The message form of an actor kind.
pub fn actor_kind_to_proto(value: ActorKind) -> (result: wire::ActorKindV1)
    ensures
        actor_kind_carries(result, value),
{
    match value {
        ActorKind::Human => wire::ActorKindV1::Human,
        ActorKind::Agent => wire::ActorKindV1::Agent,
        ActorKind::Service => wire::ActorKindV1::Service,
    }
}

/// Reads an actor kind.
pub fn actor_kind_from_proto(value: wire::ActorKindV1) -> (result: Result<
    ActorKind,
    DurableCodecError,
>)
    ensures
        match result {
            Ok(held) => actor_kind_carries(value, held),
            Err(error) => is_corrupt(error) && forall|other: ActorKind|
                !#[trigger] actor_kind_carries(value, other),
        },
{
    match value {
        wire::ActorKindV1::Human => Ok(ActorKind::Human),
        wire::ActorKindV1::Agent => Ok(ActorKind::Agent),
        wire::ActorKindV1::Service => Ok(ActorKind::Service),
        wire::ActorKindV1::Unspecified | wire::ActorKindV1::Unrecognized => Err(
            DurableCodecError::corrupt(),
        ),
    }
}

/// Whether a message is the form of a tenant scope.
pub open spec fn tenant_scope_carries(
    message: wire::TenantScopeV1,
    value: TenantScopeView,
) -> bool {
    match value {
        TenantScopeView::Global => message.scope matches Some(
            wire::TenantScopeV1Scope::Global,
        ),
        TenantScopeView::Tenant(part) => message.scope matches Some(
            wire::TenantScopeV1Scope::TenantId(form),
        ) && text_carries(form, part),
    }
}

/// A message is the form of at most one value.
pub proof fn tenant_scope_form_is_exact(
    message: wire::TenantScopeV1,
    a: TenantScopeView,
    b: TenantScopeView,
)
    requires
        tenant_scope_carries(message, a),
        tenant_scope_carries(message, b),
    ensures
        a == b,
{
}

/// The message form of a tenant scope.
pub fn tenant_scope_to_proto(value: &TenantScope) -> (result: wire::TenantScopeV1)
    ensures
        tenant_scope_carries(result, value@),
{
    let form = match value {
        TenantScope::Global => wire::TenantScopeV1Scope::Global,
        TenantScope::Tenant(part) => wire::TenantScopeV1Scope::TenantId(
            text_to_wire(part),
        ),
    };
    wire::TenantScopeV1 { scope: Some(form) }
}

/// Reads a tenant scope.
pub fn tenant_scope_from_proto(value: &wire::TenantScopeV1) -> (result: Result<
    TenantScope,
    DurableCodecError,
>)
    ensures
        match result {
            Ok(held) => tenant_scope_carries(*value, held@),
            Err(error) => is_corrupt(error) && forall|other: TenantScopeView|
                !#[trigger] tenant_scope_carries(*value, other),
        },
{
    match require_ref(&value.scope)? {
        wire::TenantScopeV1Scope::Global => Ok(TenantScope::Global),
        wire::TenantScopeV1Scope::TenantId(form) => {
            let part = text_from_wire(form)?;
            Ok(TenantScope::Tenant(part))
        },
    }
}

/// Whether a message is the form of an admitted actor.
pub open spec fn actor_carries(
    message: wire::AdmittedActorContextV1,
    value: AdmittedActorContextView,
) -> bool {
    &&& text_carries(message.principal_id, value.principal_id)
    &&& actor_kind_carries(message.actor_kind, value.actor_kind)
    &&& (message.tenant_scope matches Some(part) && tenant_scope_carries(part, value.tenant_scope))
    &&& optional_identifier_carries(message.agent_session_id, value.agent_session_id)
}

/// A message is the form of at most one value.
pub proof fn actor_form_is_exact(
    message: wire::AdmittedActorContextV1,
    a: AdmittedActorContextView,
    b: AdmittedActorContextView,
)
    requires
        actor_carries(message, a),
        actor_carries(message, b),
    ensures
        a == b,
{
    tenant_scope_form_is_exact(message.tenant_scope->Some_0, a.tenant_scope, b.tenant_scope);
    if a.agent_session_id is Some {
        assert(a.agent_session_id->Some_0.bytes =~= b.agent_session_id->Some_0.bytes);
    }
}

/// The message form of an admitted actor.
pub fn actor_to_proto(value: &AdmittedActorContext) -> (result: wire::AdmittedActorContextV1)
    ensures
        actor_carries(result, value@),
{
    wire::AdmittedActorContextV1 {
        principal_id: text_to_wire(&value.principal_id),
        actor_kind: actor_kind_to_proto(value.actor_kind),
        tenant_scope: Some(tenant_scope_to_proto(&value.tenant_scope)),
        agent_session_id: optional_identifier_to_wire(value.agent_session_id),
    }
}

/// Reads an admitted actor.
pub fn actor_from_proto(value: &wire::AdmittedActorContextV1) -> (result: Result<
    AdmittedActorContext,
    DurableCodecError,
>)
    ensures
        match result {
            Ok(held) => actor_carries(*value, held@),
            Err(error) => is_corrupt(error) && forall|other: AdmittedActorContextView|
                !#[trigger] actor_carries(*value, other),
        },
{
    let principal_id = text_from_wire(&value.principal_id)?;
    let actor_kind = actor_kind_from_proto(value.actor_kind)?;
    let tenant_scope = tenant_scope_from_proto(require_ref(&value.tenant_scope)?)?;
    let agent_session_id = optional_identifier_from_wire(&value.agent_session_id)?;
    Ok(AdmittedActorContext { principal_id, actor_kind, tenant_scope, agent_session_id })
}

/// Whether a message is the form of an audited principal and the capability that it used.
pub open spec fn audit_principal_carries(
    message: wire::AuditPrincipalV1,
    value: AuditPrincipalV1View,
) -> bool {
    &&& text_carries(message.principal_id, value.principal_id)
    &&& actor_kind_carries(message.actor_kind, value.actor_kind)
    &&& identifier_carries(message.capability_id, value.capability_id)
    &&& message.capability_revision == value.capability_revision.value
}

/// The parts of an audited principal and the capability that it used are valid.
pub open spec fn audit_principal_valid(value: AuditPrincipalV1View) -> bool {
    &&& value.capability_revision.valid()
}

/// A message is the form of at most one value.
pub proof fn audit_principal_form_is_exact(
    message: wire::AuditPrincipalV1,
    a: AuditPrincipalV1View,
    b: AuditPrincipalV1View,
)
    requires
        audit_principal_carries(message, a),
        audit_principal_carries(message, b),
    ensures
        a == b,
{
    assert(a.capability_id.bytes =~= b.capability_id.bytes);
}

/// The message form of an audited principal and the capability that it used.
pub fn audit_principal_to_proto(value: &AuditPrincipalV1) -> (result: wire::AuditPrincipalV1)
    ensures
        audit_principal_carries(result, value@),
{
    wire::AuditPrincipalV1 {
        principal_id: text_to_wire(&value.principal_id),
        actor_kind: actor_kind_to_proto(value.actor_kind),
        capability_id: identifier_to_wire(value.capability_id),
        capability_revision: value.capability_revision.get(),
    }
}

/// Reads an audited principal and the capability that it used.
pub fn audit_principal_from_proto(value: &wire::AuditPrincipalV1) -> (result: Result<
    AuditPrincipalV1,
    DurableCodecError,
>)
    ensures
        match result {
            Ok(held) => audit_principal_carries(*value, held@) && audit_principal_valid(held@),
            Err(error) => is_corrupt(error) && forall|other: AuditPrincipalV1View| #[trigger]
                audit_principal_carries(*value, other) ==> !audit_principal_valid(other),
        },
{
    let principal_id = text_from_wire(&value.principal_id)?;
    let actor_kind = actor_kind_from_proto(value.actor_kind)?;
    let capability_id = identifier_from_wire(&value.capability_id)?;
    let capability_revision = require(Id64::new(value.capability_revision))?;
    Ok(AuditPrincipalV1 { principal_id, actor_kind, capability_id, capability_revision })
}

/// Whether an optional message is the form of an optional value.
pub open spec fn optional_audit_principal_carries(
    message: Option<wire::AuditPrincipalV1>,
    value: Option<AuditPrincipalV1View>,
) -> bool {
    match (message, value) {
        (Some(form), Some(part)) => audit_principal_carries(form, part),
        (None, None) => true,
        _ => false,
    }
}

/// The optional message form of an optional value.
pub fn optional_audit_principal_to_proto(value: &Option<AuditPrincipalV1>) -> (result: Option<
    wire::AuditPrincipalV1,
>)
    ensures
        optional_audit_principal_carries(result, optional_audit_principal_view(*value)),
{
    match value {
        Some(part) => Some(audit_principal_to_proto(part)),
        None => None,
    }
}

/// Reads an optional value from its optional message form.
pub fn optional_audit_principal_from_proto(
    value: &Option<wire::AuditPrincipalV1>,
) -> (result: Result<
    Option<AuditPrincipalV1>,
    DurableCodecError,
>)
    ensures
        match result {
            Ok(held) => optional_audit_principal_carries(
                *value,
                optional_audit_principal_view(held),
            ) && (optional_audit_principal_view(held) matches Some(part)
                ==> audit_principal_valid(part)),
            Err(error) =>
                is_corrupt(error) && forall|other: Option<AuditPrincipalV1View>| #[trigger]
                optional_audit_principal_carries(*value, other)
                    ==> !(other matches Some(part) ==> audit_principal_valid(
                    part,
                )),
        },
{
    match value {
        Some(form) => {
            let part = audit_principal_from_proto(form)?;
            Ok(Some(part))
        },
        None => Ok(None),
    }
}

/// Whether a message is the form of an event identity.
pub open spec fn event_id_carries(message: wire::EventIdV1, value: EventId) -> bool {
    &&& message.commit_sequence == value.commit_sequence.value
    &&& message.event_ordinal == value.event_ordinal
}

/// The parts of an event identity are valid.
pub open spec fn event_id_valid(value: EventId) -> bool {
    &&& value.commit_sequence.valid()
}

/// A message is the form of at most one value.
pub proof fn event_id_form_is_exact(
    message: wire::EventIdV1,
    a: EventId,
    b: EventId,
)
    requires
        event_id_carries(message, a),
        event_id_carries(message, b),
    ensures
        a == b,
{
}

/// The message form of an event identity.
pub fn event_id_to_proto(value: EventId) -> (result: wire::EventIdV1)
    ensures
        event_id_carries(result, value),
{
    wire::EventIdV1 {
        commit_sequence: value.commit_sequence.get(),
        event_ordinal: value.event_ordinal,
    }
}

/// Reads an event identity.
pub fn event_id_from_proto(value: &wire::EventIdV1) -> (result: Result<
    EventId,
    DurableCodecError,
>)
    ensures
        match result {
            Ok(held) => event_id_carries(*value, held) && event_id_valid(held),
            Err(error) => is_corrupt(error) && forall|other: EventId| #[trigger]
                event_id_carries(*value, other) ==> !event_id_valid(other),
        },
{
    let commit_sequence = require(CommitSequence::new(value.commit_sequence))?;
    let event_ordinal = value.event_ordinal;
    Ok(EventId { commit_sequence, event_ordinal })
}

/// Whether messages are the forms of values, one by one.
pub open spec fn event_id_list_carries(
    messages: Seq<wire::EventIdV1>,
    values: Seq<EventId>,
) -> bool {
    &&& messages.len() == values.len()
    &&& forall|i: int|
        0 <= i < messages.len() ==> event_id_carries(#[trigger] messages[i], values[i])
}

/// All values are valid.
pub open spec fn event_id_list_valid(values: Seq<EventId>) -> bool {
    forall|i: int| 0 <= i < values.len() ==> event_id_valid(#[trigger] values[i])
}

/// Messages are the forms of at most one list of values.
pub proof fn event_id_list_form_is_exact(
    messages: Seq<wire::EventIdV1>,
    a: Seq<EventId>,
    b: Seq<EventId>,
)
    requires
        event_id_list_carries(messages, a),
        event_id_list_carries(messages, b),
    ensures
        a == b,
{
    assert forall|i: int| 0 <= i < a.len() implies a[i] == b[i] by {
        assert(event_id_carries(messages[i], a[i]) && event_id_carries(messages[i], b[i]));
        event_id_form_is_exact(messages[i], a[i], b[i]);
    }
    assert(a =~= b);
}

/// The message forms of values.
pub fn event_id_list_to_proto(values: &[EventId]) -> (result: Vec<wire::EventIdV1>)
    ensures
        event_id_list_carries(result@, values@),
{
    let mut result: Vec<wire::EventIdV1> = Vec::new();
    let mut i: usize = 0;
    while i < values.len()
        invariant
            i <= values@.len(),
            result@.len() == i,
            forall|k: int| 0 <= k < i ==> event_id_carries(#[trigger] result@[k], values@[k]),
        decreases values@.len() - i,
    {
        result.push(event_id_to_proto(values[i]));
        i += 1;
    }
    result
}

/// Reads values from their message forms.
pub fn event_id_list_from_proto(values: &[wire::EventIdV1]) -> (result: Result<
    Vec<EventId>,
    DurableCodecError,
>)
    ensures
        match result {
            Ok(held) => event_id_list_carries(values@, held@) && event_id_list_valid(held@),
            Err(error) => is_corrupt(error) && forall|other: Seq<EventId>| #[trigger]
                event_id_list_carries(values@, other) ==> !event_id_list_valid(other),
        },
{
    let mut result: Vec<EventId> = Vec::new();
    let mut i: usize = 0;
    while i < values.len()
        invariant
            i <= values@.len(),
            result@.len() == i,
            forall|k: int|
                0 <= k < i ==> event_id_carries(values@[k], #[trigger] result@[k])
                    && event_id_valid(result@[k]),
        decreases values@.len() - i,
    {
        match event_id_from_proto(&values[i]) {
            Ok(held) => {
                result.push(held);
            },
            Err(error) => {
                assert forall|other: Seq<EventId>| #[trigger]
                    event_id_list_carries(values@, other) implies !event_id_list_valid(other) by {
                    assert(event_id_carries(values@[i as int], other[i as int]));
                    assert(!event_id_valid(other[i as int]));
                }
                return Err(error);
            },
        }
        i += 1;
    }
    Ok(result)
}

/// Whether an optional message is the form of an optional value.
pub open spec fn optional_event_id_carries(
    message: Option<wire::EventIdV1>,
    value: Option<EventId>,
) -> bool {
    match (message, value) {
        (Some(form), Some(part)) => event_id_carries(form, part),
        (None, None) => true,
        _ => false,
    }
}

/// The optional message form of an optional value.
pub fn optional_event_id_to_proto(value: &Option<EventId>) -> (result: Option<
    wire::EventIdV1,
>)
    ensures
        optional_event_id_carries(result, *value),
{
    match value {
        Some(part) => Some(event_id_to_proto(*part)),
        None => None,
    }
}

/// Reads an optional value from its optional message form.
pub fn optional_event_id_from_proto(value: &Option<wire::EventIdV1>) -> (result: Result<
    Option<EventId>,
    DurableCodecError,
>)
    ensures
        match result {
            Ok(held) => optional_event_id_carries(*value, held) && (held matches Some(part)
                ==> event_id_valid(part)),
            Err(error) => is_corrupt(error) && forall|other: Option<EventId>| #[trigger]
                optional_event_id_carries(*value, other)
                    ==> !(other matches Some(part) ==> event_id_valid(
                    part,
                )),
        },
{
    match value {
        Some(form) => {
            let part = event_id_from_proto(form)?;
            Ok(Some(part))
        },
        None => Ok(None),
    }
}

/// Whether a message is the form of an executable plan reference.
pub open spec fn plan_carries(
    message: wire::ExecutablePlanRefV1,
    value: ExecutablePlanView,
) -> bool {
    &&& text_carries(message.contract_lineage, value.contract_lineage)
    &&& message.contract_version == value.contract_version.value
    &&& message.contract_bundle_hash@ == value.contract_bundle_hash.bytes@
    &&& message.command_id == value.command_id.value
    &&& message.command_plan_hash@ == value.command_plan_hash.bytes@
}

/// The parts of an executable plan reference are valid.
pub open spec fn plan_valid(value: ExecutablePlanView) -> bool {
    &&& value.contract_version.valid()
    &&& value.command_id.valid()
}

/// A message is the form of at most one value.
pub proof fn plan_form_is_exact(
    message: wire::ExecutablePlanRefV1,
    a: ExecutablePlanView,
    b: ExecutablePlanView,
)
    requires
        plan_carries(message, a),
        plan_carries(message, b),
    ensures
        a == b,
{
    assert(a.contract_bundle_hash.bytes =~= b.contract_bundle_hash.bytes);
    assert(a.command_plan_hash.bytes =~= b.command_plan_hash.bytes);
}

/// The message form of an executable plan reference.
pub fn plan_to_proto(value: &ExecutablePlanRef) -> (result: wire::ExecutablePlanRefV1)
    ensures
        plan_carries(result, value@),
{
    wire::ExecutablePlanRefV1 {
        contract_lineage: text_to_wire(&value.contract_lineage),
        contract_version: value.contract_version.get(),
        contract_bundle_hash: copy_bytes(value.contract_bundle_hash.bytes.as_slice()),
        command_id: value.command_id.get(),
        command_plan_hash: copy_bytes(value.command_plan_hash.bytes.as_slice()),
    }
}

/// Reads an executable plan reference.
pub fn plan_from_proto(value: &wire::ExecutablePlanRefV1) -> (result: Result<
    ExecutablePlanRef,
    DurableCodecError,
>)
    ensures
        match result {
            Ok(held) => plan_carries(*value, held@) && plan_valid(held@),
            Err(error) => is_corrupt(error) && forall|other: ExecutablePlanView| #[trigger]
                plan_carries(*value, other) ==> !plan_valid(other),
        },
{
    let contract_lineage = text_from_wire(&value.contract_lineage)?;
    let contract_version = require(Id64::new(value.contract_version))?;
    let contract_bundle_hash = digest_from_wire(&value.contract_bundle_hash)?;
    let command_id = require(Id32::new(value.command_id))?;
    let command_plan_hash = digest_from_wire(&value.command_plan_hash)?;
    Ok(
        ExecutablePlanRef {
            contract_lineage,
            contract_version,
            contract_bundle_hash,
            command_id,
            command_plan_hash,
        },
    )
}

/// Whether a message is the form of a key schema binding.
pub open spec fn binding_carries(
    message: wire::DurableKeySchemaBindingV1,
    value: SchemaBindingView,
) -> bool {
    &&& text_carries(message.contract_lineage, value.lineage)
    &&& message.contract_version == value.contract_version.value
    &&& message.contract_bundle_hash@ == value.bundle_hash.bytes@
}

/// The parts of a key schema binding are valid.
pub open spec fn binding_valid(value: SchemaBindingView) -> bool {
    &&& value.contract_version.valid()
}

/// A message is the form of at most one value.
pub proof fn binding_form_is_exact(
    message: wire::DurableKeySchemaBindingV1,
    a: SchemaBindingView,
    b: SchemaBindingView,
)
    requires
        binding_carries(message, a),
        binding_carries(message, b),
    ensures
        a == b,
{
    assert(a.bundle_hash.bytes =~= b.bundle_hash.bytes);
}

/// The message form of a key schema binding.
pub fn binding_to_proto(
    value: &DurableKeySchemaBindingV1,
) -> (result: wire::DurableKeySchemaBindingV1)
    ensures
        binding_carries(result, value@),
{
    wire::DurableKeySchemaBindingV1 {
        contract_lineage: text_to_wire(&value.lineage),
        contract_version: value.contract_version.get(),
        contract_bundle_hash: copy_bytes(value.bundle_hash.bytes.as_slice()),
    }
}

/// Reads a key schema binding.
pub fn binding_from_proto(value: &wire::DurableKeySchemaBindingV1) -> (result: Result<
    DurableKeySchemaBindingV1,
    DurableCodecError,
>)
    ensures
        match result {
            Ok(held) => binding_carries(*value, held@) && binding_valid(held@),
            Err(error) => is_corrupt(error) && forall|other: SchemaBindingView| #[trigger]
                binding_carries(*value, other) ==> !binding_valid(other),
        },
{
    let lineage = text_from_wire(&value.contract_lineage)?;
    let contract_version = require(Id64::new(value.contract_version))?;
    let bundle_hash = digest_from_wire(&value.contract_bundle_hash)?;
    Ok(DurableKeySchemaBindingV1 { lineage, contract_version, bundle_hash })
}

/// Whether a message is the form of a keyed digest of a caller's idempotency key.
pub open spec fn key_digest_carries(
    message: wire::IdempotencyKeyDigestV1,
    value: IdempotencyKeyDigest,
) -> bool {
    &&& message.digest_scheme == 1
    &&& message.digest_key_id == value.key_id.value
    &&& message.digest@ == value.digest.bytes@
}

/// The parts of a keyed digest of a caller's idempotency key are valid.
pub open spec fn key_digest_valid(value: IdempotencyKeyDigest) -> bool {
    &&& value.key_id.valid()
}

/// A message is the form of at most one value.
pub proof fn key_digest_form_is_exact(
    message: wire::IdempotencyKeyDigestV1,
    a: IdempotencyKeyDigest,
    b: IdempotencyKeyDigest,
)
    requires
        key_digest_carries(message, a),
        key_digest_carries(message, b),
    ensures
        a == b,
{
    assert(a.digest.bytes =~= b.digest.bytes);
}

/// The message form of a keyed digest of a caller's idempotency key.
pub fn key_digest_to_proto(value: IdempotencyKeyDigest) -> (result: wire::IdempotencyKeyDigestV1)
    ensures
        key_digest_carries(result, value),
{
    wire::IdempotencyKeyDigestV1 {
        digest_scheme: 1,
        digest_key_id: value.key_id.get(),
        digest: copy_bytes(value.digest.bytes.as_slice()),
    }
}

/// Reads a keyed digest of a caller's idempotency key.
pub fn key_digest_from_proto(value: &wire::IdempotencyKeyDigestV1) -> (result: Result<
    IdempotencyKeyDigest,
    DurableCodecError,
>)
    ensures
        match result {
            Ok(held) => key_digest_carries(*value, held) && key_digest_valid(held),
            Err(error) => is_corrupt(error) && forall|other: IdempotencyKeyDigest| #[trigger]
                key_digest_carries(*value, other) ==> !key_digest_valid(other),
        },
{
    if value.digest_scheme != 1 {
        return Err(DurableCodecError::corrupt());
    }
    let key_id = require(Id32::new(value.digest_key_id))?;
    let digest = digest_from_wire(&value.digest)?;
    Ok(IdempotencyKeyDigest { key_id, digest })
}

/// Whether a message is the form of a command's idempotency identity.
pub open spec fn identity_carries(
    message: wire::IdempotencyIdentityV1,
    value: IdempotencyIdentityView,
) -> bool {
    &&& identifier_carries(message.database_id, value.database_id)
    &&& text_carries(message.environment, value.environment)
    &&& (message.tenant_scope matches Some(part) && tenant_scope_carries(part, value.tenant_scope))
    &&& text_carries(message.principal_id, value.principal_id)
    &&& text_carries(message.contract_lineage, value.contract_lineage)
    &&& message.command_id == value.command_id.value
    &&& (message.caller_key_digest matches Some(part) && key_digest_carries(
        part,
        value.caller_key_digest,
    ))
}

/// The parts of a command's idempotency identity are valid.
pub open spec fn identity_valid(value: IdempotencyIdentityView) -> bool {
    &&& value.command_id.valid()
    &&& key_digest_valid(value.caller_key_digest)
}

/// A message is the form of at most one value.
pub proof fn identity_form_is_exact(
    message: wire::IdempotencyIdentityV1,
    a: IdempotencyIdentityView,
    b: IdempotencyIdentityView,
)
    requires
        identity_carries(message, a),
        identity_carries(message, b),
    ensures
        a == b,
{
    assert(a.database_id.bytes =~= b.database_id.bytes);
    tenant_scope_form_is_exact(message.tenant_scope->Some_0, a.tenant_scope, b.tenant_scope);
    key_digest_form_is_exact(
        message.caller_key_digest->Some_0,
        a.caller_key_digest,
        b.caller_key_digest,
    );
}

/// The message form of a command's idempotency identity.
pub fn identity_to_proto(value: &IdempotencyIdentity) -> (result: wire::IdempotencyIdentityV1)
    ensures
        identity_carries(result, value@),
{
    wire::IdempotencyIdentityV1 {
        database_id: identifier_to_wire(value.database_id),
        environment: text_to_wire(&value.environment),
        tenant_scope: Some(tenant_scope_to_proto(&value.tenant_scope)),
        principal_id: text_to_wire(&value.principal_id),
        contract_lineage: text_to_wire(&value.contract_lineage),
        command_id: value.command_id.get(),
        caller_key_digest: Some(key_digest_to_proto(value.caller_key_digest)),
    }
}

/// Reads a command's idempotency identity.
pub fn identity_from_proto(value: &wire::IdempotencyIdentityV1) -> (result: Result<
    IdempotencyIdentity,
    DurableCodecError,
>)
    ensures
        match result {
            Ok(held) => identity_carries(*value, held@) && identity_valid(held@),
            Err(error) => is_corrupt(error) && forall|other: IdempotencyIdentityView| #[trigger]
                identity_carries(*value, other) ==> !identity_valid(other),
        },
{
    let database_id = identifier_from_wire(&value.database_id)?;
    let environment = text_from_wire(&value.environment)?;
    let tenant_scope = tenant_scope_from_proto(require_ref(&value.tenant_scope)?)?;
    let principal_id = text_from_wire(&value.principal_id)?;
    let contract_lineage = text_from_wire(&value.contract_lineage)?;
    let command_id = require(Id32::new(value.command_id))?;
    let caller_key_digest = key_digest_from_proto(require_ref(&value.caller_key_digest)?)?;
    Ok(
        IdempotencyIdentity {
            database_id,
            environment,
            tenant_scope,
            principal_id,
            contract_lineage,
            command_id,
            caller_key_digest,
        },
    )
}

/// Whether a message is the form of the admitted provenance claims of a command.
pub open spec fn claims_carries(
    message: wire::StoredAdmittedProvenanceClaimsV1,
    value: ProvenanceClaimsView,
) -> bool {
    &&& optional_text_carries(message.source_repository, value.source_repository)
    &&& optional_text_carries(message.source_commit, value.source_commit)
    &&& optional_text_carries(message.reason, value.reason)
    &&& optional_text_carries(message.approval_id, value.approval_id)
}

/// A message is the form of at most one value.
pub proof fn claims_form_is_exact(
    message: wire::StoredAdmittedProvenanceClaimsV1,
    a: ProvenanceClaimsView,
    b: ProvenanceClaimsView,
)
    requires
        claims_carries(message, a),
        claims_carries(message, b),
    ensures
        a == b,
{
}

/// The message form of the admitted provenance claims of a command.
pub fn claims_to_proto(
    value: &StoredAdmittedProvenanceClaimsV1,
) -> (result: wire::StoredAdmittedProvenanceClaimsV1)
    ensures
        claims_carries(result, value@),
{
    wire::StoredAdmittedProvenanceClaimsV1 {
        source_repository: optional_text_to_wire(&value.source_repository),
        source_commit: optional_text_to_wire(&value.source_commit),
        reason: optional_text_to_wire(&value.reason),
        approval_id: optional_text_to_wire(&value.approval_id),
    }
}

/// Reads the admitted provenance claims of a command.
pub fn claims_from_proto(value: &wire::StoredAdmittedProvenanceClaimsV1) -> (result: Result<
    StoredAdmittedProvenanceClaimsV1,
    DurableCodecError,
>)
    ensures
        match result {
            Ok(held) => claims_carries(*value, held@),
            Err(error) => is_corrupt(error) && forall|other: ProvenanceClaimsView|
                !#[trigger] claims_carries(*value, other),
        },
{
    let source_repository = optional_text_from_wire(&value.source_repository)?;
    let source_commit = optional_text_from_wire(&value.source_commit)?;
    let reason = optional_text_from_wire(&value.reason)?;
    let approval_id = optional_text_from_wire(&value.approval_id)?;
    Ok(
        StoredAdmittedProvenanceClaimsV1 {
            source_repository,
            source_commit,
            reason,
            approval_id,
        },
    )
}

/// Whether a message is the form of an entity target.
pub open spec fn entity_target_carries(
    message: wire::EntityTargetV1,
    value: EntityTargetView,
) -> bool {
    &&& message.entity_type_id == value.entity_type_id.value
    &&& key_carries(message.entity_key, value.key)
}

/// The parts of an entity target are valid.
pub open spec fn entity_target_valid(value: EntityTargetView) -> bool {
    &&& value.entity_type_id.valid()
}

/// A message is the form of at most one value.
pub proof fn entity_target_form_is_exact(
    message: wire::EntityTargetV1,
    a: EntityTargetView,
    b: EntityTargetView,
)
    requires
        entity_target_carries(message, a),
        entity_target_carries(message, b),
    ensures
        a == b,
{
}

/// The message form of an entity target.
pub fn entity_target_to_proto(value: &EntityTarget) -> (result: wire::EntityTargetV1)
    ensures
        entity_target_carries(result, value@),
{
    wire::EntityTargetV1 {
        entity_type_id: value.entity_type_id.get(),
        entity_key: key_to_wire(&value.key),
    }
}

/// Reads an entity target.
pub fn entity_target_from_proto(value: &wire::EntityTargetV1) -> (result: Result<
    EntityTarget,
    DurableCodecError,
>)
    ensures
        match result {
            Ok(held) => entity_target_carries(*value, held@) && entity_target_valid(held@),
            Err(error) => is_corrupt(error) && forall|other: EntityTargetView| #[trigger]
                entity_target_carries(*value, other) ==> !entity_target_valid(other),
        },
{
    let entity_type_id = require(Id32::new(value.entity_type_id))?;
    let key = key_from_wire(&value.entity_key)?;
    Ok(EntityTarget { entity_type_id, key })
}

/// Whether an optional message is the form of an optional value.
pub open spec fn optional_entity_target_carries(
    message: Option<wire::EntityTargetV1>,
    value: Option<EntityTargetView>,
) -> bool {
    match (message, value) {
        (Some(form), Some(part)) => entity_target_carries(form, part),
        (None, None) => true,
        _ => false,
    }
}

/// The optional message form of an optional value.
pub fn optional_entity_target_to_proto(value: &Option<EntityTarget>) -> (result: Option<
    wire::EntityTargetV1,
>)
    ensures
        optional_entity_target_carries(result, optional_entity_target_view(*value)),
{
    match value {
        Some(part) => Some(entity_target_to_proto(part)),
        None => None,
    }
}

/// Reads an optional value from its optional message form.
pub fn optional_entity_target_from_proto(value: &Option<wire::EntityTargetV1>) -> (result: Result<
    Option<EntityTarget>,
    DurableCodecError,
>)
    ensures
        match result {
            Ok(held) => optional_entity_target_carries(
                *value,
                optional_entity_target_view(held),
            ) && (optional_entity_target_view(held) matches Some(part)
                ==> entity_target_valid(part)),
            Err(error) => is_corrupt(error) && forall|other: Option<EntityTargetView>| #[trigger]
                optional_entity_target_carries(*value, other)
                    ==> !(other matches Some(part) ==> entity_target_valid(
                    part,
                )),
        },
{
    match value {
        Some(form) => {
            let part = entity_target_from_proto(form)?;
            Ok(Some(part))
        },
        None => Ok(None),
    }
}

/// Whether a message is the form of an expected entity state.
pub open spec fn expected_carries(
    message: wire::ExpectedEntityStateV1,
    value: ExpectedEntityState,
) -> bool {
    match value {
        ExpectedEntityState::Absent => message.state matches Some(
            wire::ExpectedEntityStateV1State::Absent,
        ),
        ExpectedEntityState::Present(part) => message.state matches Some(
            wire::ExpectedEntityStateV1State::PresentEntityVersion(form),
        ) && form == part.value,
    }
}

/// The parts of an expected entity state are valid.
pub open spec fn expected_valid(value: ExpectedEntityState) -> bool {
    match value {
        ExpectedEntityState::Absent => true,
        ExpectedEntityState::Present(part) => part.valid(),
    }
}

/// A message is the form of at most one value.
pub proof fn expected_form_is_exact(
    message: wire::ExpectedEntityStateV1,
    a: ExpectedEntityState,
    b: ExpectedEntityState,
)
    requires
        expected_carries(message, a),
        expected_carries(message, b),
    ensures
        a == b,
{
}

/// The message form of an expected entity state.
pub fn expected_to_proto(value: ExpectedEntityState) -> (result: wire::ExpectedEntityStateV1)
    ensures
        expected_carries(result, value),
{
    let form = match value {
        ExpectedEntityState::Absent => wire::ExpectedEntityStateV1State::Absent,
        ExpectedEntityState::Present(part) =>
            wire::ExpectedEntityStateV1State::PresentEntityVersion(
            part.get(),
        ),
    };
    wire::ExpectedEntityStateV1 { state: Some(form) }
}

/// Reads an expected entity state.
pub fn expected_from_proto(value: &wire::ExpectedEntityStateV1) -> (result: Result<
    ExpectedEntityState,
    DurableCodecError,
>)
    ensures
        match result {
            Ok(held) => expected_carries(*value, held) && expected_valid(held),
            Err(error) => is_corrupt(error) && forall|other: ExpectedEntityState| #[trigger]
                expected_carries(*value, other) ==> !expected_valid(other),
        },
{
    match require_ref(&value.state)? {
        wire::ExpectedEntityStateV1State::Absent => Ok(ExpectedEntityState::Absent),
        wire::ExpectedEntityStateV1State::PresentEntityVersion(form) => {
            let part = require(Id64::new(*form))?;
            Ok(ExpectedEntityState::Present(part))
        },
    }
}

/// Whether a message is the form of an index epoch position.
pub open spec fn epoch_carries(
    message: wire::IndexEpochPositionV1,
    value: IndexEpochPosition,
) -> bool {
    match value {
        IndexEpochPosition::BeforeFirst => message.position matches Some(
            wire::IndexEpochPositionV1Position::BeforeFirst,
        ),
        IndexEpochPosition::Value(part) => message.position matches Some(
            wire::IndexEpochPositionV1Position::Epoch(form),
        ) && form == part.value,
    }
}

/// The parts of an index epoch position are valid.
pub open spec fn epoch_valid(value: IndexEpochPosition) -> bool {
    match value {
        IndexEpochPosition::BeforeFirst => true,
        IndexEpochPosition::Value(part) => part.valid(),
    }
}

/// A message is the form of at most one value.
pub proof fn epoch_form_is_exact(
    message: wire::IndexEpochPositionV1,
    a: IndexEpochPosition,
    b: IndexEpochPosition,
)
    requires
        epoch_carries(message, a),
        epoch_carries(message, b),
    ensures
        a == b,
{
}

/// The message form of an index epoch position.
pub fn epoch_to_proto(value: IndexEpochPosition) -> (result: wire::IndexEpochPositionV1)
    ensures
        epoch_carries(result, value),
{
    let form = match value {
        IndexEpochPosition::BeforeFirst => wire::IndexEpochPositionV1Position::BeforeFirst,
        IndexEpochPosition::Value(part) => wire::IndexEpochPositionV1Position::Epoch(
            part.get(),
        ),
    };
    wire::IndexEpochPositionV1 { position: Some(form) }
}

/// Reads an index epoch position.
pub fn epoch_from_proto(value: &wire::IndexEpochPositionV1) -> (result: Result<
    IndexEpochPosition,
    DurableCodecError,
>)
    ensures
        match result {
            Ok(held) => epoch_carries(*value, held) && epoch_valid(held),
            Err(error) => is_corrupt(error) && forall|other: IndexEpochPosition| #[trigger]
                epoch_carries(*value, other) ==> !epoch_valid(other),
        },
{
    match require_ref(&value.position)? {
        wire::IndexEpochPositionV1Position::BeforeFirst => Ok(IndexEpochPosition::BeforeFirst),
        wire::IndexEpochPositionV1Position::Epoch(form) => {
            let part = require(Id64::new(*form))?;
            Ok(IndexEpochPosition::Value(part))
        },
    }
}

/// Whether a message is the form of a declared outcome.
pub open spec fn declared_outcome_carries(
    message: wire::DeclaredOutcomeV1,
    value: DeclaredOutcomeView,
) -> bool {
    &&& message.outcome_id == value.outcome_id.value
    &&& document_carries(message.canonical_value, value.value)
}

/// The parts of a declared outcome are valid.
pub open spec fn declared_outcome_valid(value: DeclaredOutcomeView) -> bool {
    &&& value.outcome_id.valid()
}

/// A message is the form of at most one value.
pub proof fn declared_outcome_form_is_exact(
    message: wire::DeclaredOutcomeV1,
    a: DeclaredOutcomeView,
    b: DeclaredOutcomeView,
)
    requires
        declared_outcome_carries(message, a),
        declared_outcome_carries(message, b),
    ensures
        a == b,
{
}

/// The message form of a declared outcome.
pub fn declared_outcome_to_proto(value: &DeclaredOutcome) -> (result: wire::DeclaredOutcomeV1)
    ensures
        declared_outcome_carries(result, value@),
{
    wire::DeclaredOutcomeV1 {
        outcome_id: value.outcome_id.get(),
        canonical_value: document_to_wire(&value.value),
    }
}

/// Reads a declared outcome.
pub fn declared_outcome_from_proto(value: &wire::DeclaredOutcomeV1) -> (result: Result<
    DeclaredOutcome,
    DurableCodecError,
>)
    ensures
        match result {
            Ok(held) => declared_outcome_carries(*value, held@) && declared_outcome_valid(held@),
            Err(error) => is_corrupt(error) && forall|other: DeclaredOutcomeView| #[trigger]
                declared_outcome_carries(*value, other) ==> !declared_outcome_valid(other),
        },
{
    let outcome_id = require(Id32::new(value.outcome_id))?;
    let value = document_from_wire(&value.canonical_value)?;
    Ok(DeclaredOutcome { outcome_id, value })
}

} // verus!
