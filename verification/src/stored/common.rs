//! Values that many records share.

use vstd::prelude::*;

use crate::bytes::{copy_bytes, same_bytes};
use crate::codec::parts::{copy_optional_text, optional_text_view, Identifier};
use crate::ids::{Digest, EventId, Id32, Id64};
use crate::keys::{CanonicalRecord, CanonicalRecordView};
use crate::records::{EntityTarget, EntityTargetView};

verus! {

/// What a structurally decoded index range prefix is.
#[verifier::ext_equal]
pub ghost struct IndexRangePrefixView {
    pub index_id: Id32,
    pub bytes: Seq<u8>,
}

/// A structurally decoded index range prefix.
#[derive(Debug, PartialEq, Eq)]
pub struct StructurallyDecodedIndexRangePrefixV1 {
    pub index_id: Id32,
    pub bytes: Vec<u8>,
}

impl View for StructurallyDecodedIndexRangePrefixV1 {
    type V = IndexRangePrefixView;

    open spec fn view(&self) -> IndexRangePrefixView {
        IndexRangePrefixView { index_id: self.index_id, bytes: self.bytes@ }
    }
}

impl Clone for StructurallyDecodedIndexRangePrefixV1 {
    fn clone(&self) -> (result: StructurallyDecodedIndexRangePrefixV1)
        ensures
            result@ == self@,
    {
        StructurallyDecodedIndexRangePrefixV1 {
            index_id: self.index_id,
            bytes: copy_bytes(&self.bytes),
        }
    }
}

/// What kind of actor acts.
#[derive(Clone, Copy, Debug, PartialEq, Eq, Structural)]
pub enum ActorKind {
    Human,
    Agent,
    Service,
}

/// What a tenant scope is.
pub ghost enum TenantScopeView {
    Global,
    Tenant(Seq<char>),
}

/// A tenant scope.
#[derive(Debug, PartialEq, Eq)]
pub enum TenantScope {
    /// Every tenant.
    Global,
    /// One tenant.
    Tenant(String),
}

impl View for TenantScope {
    type V = TenantScopeView;

    open spec fn view(&self) -> TenantScopeView {
        match self {
            TenantScope::Global => TenantScopeView::Global,
            TenantScope::Tenant(part) => TenantScopeView::Tenant(part@),
        }
    }
}

impl Clone for TenantScope {
    fn clone(&self) -> (result: TenantScope)
        ensures
            result@ == self@,
    {
        match self {
            TenantScope::Global => TenantScope::Global,
            TenantScope::Tenant(part) => TenantScope::Tenant(part.clone()),
        }
    }
}

/// What an admitted actor is.
#[verifier::ext_equal]
pub ghost struct AdmittedActorContextView {
    pub principal_id: Seq<char>,
    pub actor_kind: ActorKind,
    pub tenant_scope: TenantScopeView,
    pub agent_session_id: Option<Identifier>,
}

/// An admitted actor.
#[derive(Debug, PartialEq, Eq)]
pub struct AdmittedActorContext {
    pub principal_id: String,
    pub actor_kind: ActorKind,
    pub tenant_scope: TenantScope,
    pub agent_session_id: Option<Identifier>,
}

impl View for AdmittedActorContext {
    type V = AdmittedActorContextView;

    open spec fn view(&self) -> AdmittedActorContextView {
        AdmittedActorContextView {
            principal_id: self.principal_id@,
            actor_kind: self.actor_kind,
            tenant_scope: self.tenant_scope@,
            agent_session_id: self.agent_session_id,
        }
    }
}

impl Clone for AdmittedActorContext {
    fn clone(&self) -> (result: AdmittedActorContext)
        ensures
            result@ == self@,
    {
        AdmittedActorContext {
            principal_id: self.principal_id.clone(),
            actor_kind: self.actor_kind,
            tenant_scope: self.tenant_scope.clone(),
            agent_session_id: self.agent_session_id,
        }
    }
}

/// What an audited principal and the capability that it used is.
#[verifier::ext_equal]
pub ghost struct AuditPrincipalV1View {
    pub principal_id: Seq<char>,
    pub actor_kind: ActorKind,
    pub capability_id: Identifier,
    pub capability_revision: Id64,
}

/// An audited principal and the capability that it used.
#[derive(Debug, PartialEq, Eq)]
pub struct AuditPrincipalV1 {
    pub principal_id: String,
    pub actor_kind: ActorKind,
    pub capability_id: Identifier,
    pub capability_revision: Id64,
}

impl View for AuditPrincipalV1 {
    type V = AuditPrincipalV1View;

    open spec fn view(&self) -> AuditPrincipalV1View {
        AuditPrincipalV1View {
            principal_id: self.principal_id@,
            actor_kind: self.actor_kind,
            capability_id: self.capability_id,
            capability_revision: self.capability_revision,
        }
    }
}

impl Clone for AuditPrincipalV1 {
    fn clone(&self) -> (result: AuditPrincipalV1)
        ensures
            result@ == self@,
    {
        AuditPrincipalV1 {
            principal_id: self.principal_id.clone(),
            actor_kind: self.actor_kind,
            capability_id: self.capability_id,
            capability_revision: self.capability_revision,
        }
    }
}

/// A keyed digest of a caller's idempotency key.
#[derive(Clone, Copy, Debug, PartialEq, Eq)]
pub struct IdempotencyKeyDigest {
    pub key_id: Id32,
    pub digest: Digest,
}

/// What a command's idempotency identity is.
#[verifier::ext_equal]
pub ghost struct IdempotencyIdentityView {
    pub database_id: Identifier,
    pub environment: Seq<char>,
    pub tenant_scope: TenantScopeView,
    pub principal_id: Seq<char>,
    pub contract_lineage: Seq<char>,
    pub command_id: Id32,
    pub caller_key_digest: IdempotencyKeyDigest,
}

/// A command's idempotency identity.
#[derive(Debug, PartialEq, Eq)]
pub struct IdempotencyIdentity {
    pub database_id: Identifier,
    pub environment: String,
    pub tenant_scope: TenantScope,
    pub principal_id: String,
    pub contract_lineage: String,
    pub command_id: Id32,
    pub caller_key_digest: IdempotencyKeyDigest,
}

impl View for IdempotencyIdentity {
    type V = IdempotencyIdentityView;

    open spec fn view(&self) -> IdempotencyIdentityView {
        IdempotencyIdentityView {
            database_id: self.database_id,
            environment: self.environment@,
            tenant_scope: self.tenant_scope@,
            principal_id: self.principal_id@,
            contract_lineage: self.contract_lineage@,
            command_id: self.command_id,
            caller_key_digest: self.caller_key_digest,
        }
    }
}

impl Clone for IdempotencyIdentity {
    fn clone(&self) -> (result: IdempotencyIdentity)
        ensures
            result@ == self@,
    {
        IdempotencyIdentity {
            database_id: self.database_id,
            environment: self.environment.clone(),
            tenant_scope: self.tenant_scope.clone(),
            principal_id: self.principal_id.clone(),
            contract_lineage: self.contract_lineage.clone(),
            command_id: self.command_id,
            caller_key_digest: self.caller_key_digest,
        }
    }
}

/// What the admitted provenance claims of a command is.
#[verifier::ext_equal]
pub ghost struct ProvenanceClaimsView {
    pub source_repository: Option<Seq<char>>,
    pub source_commit: Option<Seq<char>>,
    pub reason: Option<Seq<char>>,
    pub approval_id: Option<Seq<char>>,
}

/// The admitted provenance claims of a command.
#[derive(Debug, PartialEq, Eq)]
pub struct StoredAdmittedProvenanceClaimsV1 {
    pub source_repository: Option<String>,
    pub source_commit: Option<String>,
    pub reason: Option<String>,
    pub approval_id: Option<String>,
}

impl View for StoredAdmittedProvenanceClaimsV1 {
    type V = ProvenanceClaimsView;

    open spec fn view(&self) -> ProvenanceClaimsView {
        ProvenanceClaimsView {
            source_repository: optional_text_view(self.source_repository),
            source_commit: optional_text_view(self.source_commit),
            reason: optional_text_view(self.reason),
            approval_id: optional_text_view(self.approval_id),
        }
    }
}

impl Clone for StoredAdmittedProvenanceClaimsV1 {
    fn clone(&self) -> (result: StoredAdmittedProvenanceClaimsV1)
        ensures
            result@ == self@,
    {
        StoredAdmittedProvenanceClaimsV1 {
            source_repository: copy_optional_text(&self.source_repository),
            source_commit: copy_optional_text(&self.source_commit),
            reason: copy_optional_text(&self.reason),
            approval_id: copy_optional_text(&self.approval_id),
        }
    }
}

/// An expected entity state.
#[derive(Clone, Copy, Debug, PartialEq, Eq)]
pub enum ExpectedEntityState {
    /// The entity does not exist.
    Absent,
    /// The entity exists in this version.
    Present(Id64),
}

/// An index epoch position.
#[derive(Clone, Copy, Debug, PartialEq, Eq)]
pub enum IndexEpochPosition {
    /// Nothing was written yet.
    BeforeFirst,
    /// The epoch of the last write.
    Value(Id64),
}

/// What a declared outcome is.
#[verifier::ext_equal]
pub ghost struct DeclaredOutcomeView {
    pub outcome_id: Id32,
    pub value: CanonicalRecordView,
}

/// A declared outcome.
#[derive(Debug, PartialEq, Eq)]
pub struct DeclaredOutcome {
    pub outcome_id: Id32,
    pub value: CanonicalRecord,
}

impl View for DeclaredOutcome {
    type V = DeclaredOutcomeView;

    open spec fn view(&self) -> DeclaredOutcomeView {
        DeclaredOutcomeView {
            outcome_id: self.outcome_id,
            value: self.value@,
        }
    }
}

impl Clone for DeclaredOutcome {
    fn clone(&self) -> (result: DeclaredOutcome)
        ensures
            result@ == self@,
    {
        DeclaredOutcome {
            outcome_id: self.outcome_id,
            value: self.value.clone(),
        }
    }
}

/// The view of an optional one.
pub open spec fn optional_audit_principal_view(
    value: Option<AuditPrincipalV1>,
) -> Option<AuditPrincipalV1View> {
    match value {
        Some(part) => Some(part@),
        None => None,
    }
}

/// Copies an optional one.
pub fn copy_optional_audit_principal(
    value: &Option<AuditPrincipalV1>,
) -> (result: Option<AuditPrincipalV1>)
    ensures
        optional_audit_principal_view(result) == optional_audit_principal_view(*value),
{
    match value {
        Some(part) => Some(part.clone()),
        None => None,
    }
}

/// Copies a list of such values.
pub fn copy_event_id_list(values: &[EventId]) -> (result: Vec<EventId>)
    ensures
        result@ == values@,
{
    let mut result: Vec<EventId> = Vec::new();
    let mut i: usize = 0;
    while i < values.len()
        invariant
            i <= values@.len(),
            result@.len() == i,
            forall|k: int| 0 <= k < i ==> result@[k] == values@[k],
        decreases values@.len() - i,
    {
        result.push(values[i]);
        i += 1;
    }
    assert(result@ =~= values@);
    result
}

/// The view of an optional one.
pub open spec fn optional_entity_target_view(
    value: Option<EntityTarget>,
) -> Option<EntityTargetView> {
    match value {
        Some(part) => Some(part@),
        None => None,
    }
}

/// Copies an optional one.
pub fn copy_optional_entity_target(value: &Option<EntityTarget>) -> (result: Option<EntityTarget>)
    ensures
        optional_entity_target_view(result) == optional_entity_target_view(*value),
{
    match value {
        Some(part) => Some(part.clone()),
        None => None,
    }
}

impl StructurallyDecodedIndexRangePrefixV1 {
    /// Decides equality of two such values.
    pub fn same(&self, other: &StructurallyDecodedIndexRangePrefixV1) -> (result: bool)
        ensures
            result == (self@ == other@),
    {
        self.index_id == other.index_id
            && same_bytes(&self.bytes, &other.bytes)
    }
}

impl ExpectedEntityState {
    /// Decides equality of two such values.
    pub fn same(&self, other: &ExpectedEntityState) -> (result: bool)
        ensures
            result == (*self == *other),
    {
        match (self, other) {
            (ExpectedEntityState::Absent, ExpectedEntityState::Absent) => true,
            (ExpectedEntityState::Present(part), ExpectedEntityState::Present(held)) =>
                *part == *held,
            _ => false,
        }
    }
}

impl IndexEpochPosition {
    /// Decides equality of two such values.
    pub fn same(&self, other: &IndexEpochPosition) -> (result: bool)
        ensures
            result == (*self == *other),
    {
        match (self, other) {
            (IndexEpochPosition::BeforeFirst, IndexEpochPosition::BeforeFirst) => true,
            (IndexEpochPosition::Value(part), IndexEpochPosition::Value(held)) => *part == *held,
            _ => false,
        }
    }
}

} // verus!
