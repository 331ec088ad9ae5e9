//! Capability records.

use vstd::prelude::*;

use crate::bytes::{copy_bytes, same_bytes};
use crate::codec::parts::{
    copy_ids, copy_optional_text, copy_texts, optional_text_view, same_ids, text_views, Identifier,
};
use crate::ids::{Digest, Id32, Id64, Timestamp};
use crate::page::NonZeroLimit;
use crate::stored::common::{
    copy_optional_audit_principal, optional_audit_principal_view, ActorKind, AuditPrincipalV1,
    AuditPrincipalV1View, TenantScope, TenantScopeView,
};
use crate::value_error::StorageValueError;

verus! {

/// The closed kinds of permissions; a kind without a parameter is named by its
/// stable tag.
#[derive(Clone, Copy, Debug, PartialEq, Eq, Structural)]
pub enum CapabilityPermissionKindV1 {
    Unparameterized(u8),
    ExplainCommand,
    InvokeCommand,
    ReadEntity,
    ScanIndex,
    QueryProjection,
    ReadProjectionStatus,
    ExplainNamedQuery,
    ExecuteNamedQuery,
    ApplicationRoleIdentity,
    MigrateContract,
    InstallApplication,
    ConsumeEventStream,
    SeekEventStreamConsumer,
    WatchNamedQuery,
    ConsumeContextualSubscription,
}

/// Copies kinds.
pub fn copy_kinds(values: &[CapabilityPermissionKindV1]) -> (result: Vec<
    CapabilityPermissionKindV1,
>)
    ensures
        result@ == values@,
{
    let mut result: Vec<CapabilityPermissionKindV1> = Vec::new();
    let mut i: usize = 0;
    while i < values.len()
        invariant
            i <= values@.len(),
            result@ == values@.take(i as int),
        decreases values@.len() - i,
    {
        result.push(values[i]);
        i += 1;
        assert(result@ =~= values@.take(i as int));
    }
    assert(result@ =~= values@);
    result
}

/// What a capability permission is.
pub ghost enum PermissionView {
    Unparameterized(u8),
    ExplainCommand(Seq<char>, Id32),
    InvokeCommand(Seq<char>, Id32),
    ReadEntity(Seq<char>, Id32),
    ScanIndex(Seq<char>, Id32),
    QueryProjection(Seq<char>, Id32),
    ReadProjectionStatus(Seq<char>, Id32),
    ExplainNamedQuery(Seq<char>, Digest, Seq<char>),
    ExecuteNamedQuery(Seq<char>, Digest, Seq<char>),
    ApplicationRoleIdentity(Digest),
    MigrateContract(Seq<char>),
    InstallApplication(Seq<char>),
    ConsumeEventStream(Seq<char>, Digest, Seq<char>),
    SeekEventStreamConsumer(Seq<char>, Digest, Seq<char>),
    WatchNamedQuery(Seq<char>, Digest, Seq<char>),
    ConsumeContextualSubscription(Seq<char>, Digest, Seq<char>),
}

/// One capability permission: what may be done, and to what.
#[derive(Debug, PartialEq, Eq)]
pub enum CapabilityPermissionV1 {
    /// A permission without a parameter, by its stable tag.
    Unparameterized(u8),
    /// A command of a contract lineage.
    ExplainCommand(String, Id32),
    /// A command of a contract lineage.
    InvokeCommand(String, Id32),
    /// An entity type of a contract lineage.
    ReadEntity(String, Id32),
    /// An index of a contract lineage.
    ScanIndex(String, Id32),
    /// A projection of a contract lineage.
    QueryProjection(String, Id32),
    /// A projection of a contract lineage.
    ReadProjectionStatus(String, Id32),
    /// A query of a module of a contract lineage.
    ExplainNamedQuery(String, Digest, String),
    /// A query of a module of a contract lineage.
    ExecuteNamedQuery(String, Digest, String),
    /// An application role.
    ApplicationRoleIdentity(Digest),
    /// A contract lineage.
    MigrateContract(String),
    /// A contract lineage.
    InstallApplication(String),
    /// An operation of a reactive module of a contract lineage.
    ConsumeEventStream(String, Digest, String),
    /// An operation of a reactive module of a contract lineage.
    SeekEventStreamConsumer(String, Digest, String),
    /// An operation of a reactive module of a contract lineage.
    WatchNamedQuery(String, Digest, String),
    /// An operation of a reactive module of a contract lineage.
    ConsumeContextualSubscription(String, Digest, String),
}

impl View for CapabilityPermissionV1 {
    type V = PermissionView;

    open spec fn view(&self) -> PermissionView {
        match self {
            CapabilityPermissionV1::Unparameterized(tag) => PermissionView::Unparameterized(*tag),
            CapabilityPermissionV1::ExplainCommand(lineage, id) => PermissionView::ExplainCommand(
                lineage@,
                *id,
            ),
            CapabilityPermissionV1::InvokeCommand(lineage, id) => PermissionView::InvokeCommand(
                lineage@,
                *id,
            ),
            CapabilityPermissionV1::ReadEntity(lineage, id) => PermissionView::ReadEntity(
                lineage@,
                *id,
            ),
            CapabilityPermissionV1::ScanIndex(lineage, id) => PermissionView::ScanIndex(
                lineage@,
                *id,
            ),
            CapabilityPermissionV1::QueryProjection(lineage, id) =>
                PermissionView::QueryProjection(lineage@, *id),
            CapabilityPermissionV1::ReadProjectionStatus(lineage, id) =>
                PermissionView::ReadProjectionStatus(lineage@, *id),
            CapabilityPermissionV1::ExplainNamedQuery(lineage, hash, name) =>
                PermissionView::ExplainNamedQuery(lineage@, *hash, name@),
            CapabilityPermissionV1::ExecuteNamedQuery(lineage, hash, name) =>
                PermissionView::ExecuteNamedQuery(lineage@, *hash, name@),
            CapabilityPermissionV1::ApplicationRoleIdentity(hash) =>
                PermissionView::ApplicationRoleIdentity(*hash),
            CapabilityPermissionV1::MigrateContract(lineage) => PermissionView::MigrateContract(
                lineage@,
            ),
            CapabilityPermissionV1::InstallApplication(lineage) =>
                PermissionView::InstallApplication(lineage@),
            CapabilityPermissionV1::ConsumeEventStream(lineage, hash, name) =>
                PermissionView::ConsumeEventStream(lineage@, *hash, name@),
            CapabilityPermissionV1::SeekEventStreamConsumer(lineage, hash, name) =>
                PermissionView::SeekEventStreamConsumer(lineage@, *hash, name@),
            CapabilityPermissionV1::WatchNamedQuery(lineage, hash, name) =>
                PermissionView::WatchNamedQuery(lineage@, *hash, name@),
            CapabilityPermissionV1::ConsumeContextualSubscription(lineage, hash, name) =>
                PermissionView::ConsumeContextualSubscription(lineage@, *hash, name@),
        }
    }
}

impl Clone for CapabilityPermissionV1 {
    fn clone(&self) -> (result: CapabilityPermissionV1)
        ensures
            result@ == self@,
    {
        match self {
            CapabilityPermissionV1::Unparameterized(tag) =>
                CapabilityPermissionV1::Unparameterized(*tag),
            CapabilityPermissionV1::ExplainCommand(lineage, id) =>
                CapabilityPermissionV1::ExplainCommand(lineage.clone(), *id),
            CapabilityPermissionV1::InvokeCommand(lineage, id) =>
                CapabilityPermissionV1::InvokeCommand(lineage.clone(), *id),
            CapabilityPermissionV1::ReadEntity(lineage, id) => CapabilityPermissionV1::ReadEntity(
                lineage.clone(),
                *id,
            ),
            CapabilityPermissionV1::ScanIndex(lineage, id) => CapabilityPermissionV1::ScanIndex(
                lineage.clone(),
                *id,
            ),
            CapabilityPermissionV1::QueryProjection(lineage, id) =>
                CapabilityPermissionV1::QueryProjection(lineage.clone(), *id),
            CapabilityPermissionV1::ReadProjectionStatus(lineage, id) =>
                CapabilityPermissionV1::ReadProjectionStatus(lineage.clone(), *id),
            CapabilityPermissionV1::ExplainNamedQuery(lineage, hash, name) =>
                CapabilityPermissionV1::ExplainNamedQuery(lineage.clone(), *hash, name.clone()),
            CapabilityPermissionV1::ExecuteNamedQuery(lineage, hash, name) =>
                CapabilityPermissionV1::ExecuteNamedQuery(lineage.clone(), *hash, name.clone()),
            CapabilityPermissionV1::ApplicationRoleIdentity(hash) =>
                CapabilityPermissionV1::ApplicationRoleIdentity(*hash),
            CapabilityPermissionV1::MigrateContract(lineage) =>
                CapabilityPermissionV1::MigrateContract(lineage.clone()),
            CapabilityPermissionV1::InstallApplication(lineage) =>
                CapabilityPermissionV1::InstallApplication(lineage.clone()),
            CapabilityPermissionV1::ConsumeEventStream(lineage, hash, name) =>
                CapabilityPermissionV1::ConsumeEventStream(lineage.clone(), *hash, name.clone()),
            CapabilityPermissionV1::SeekEventStreamConsumer(lineage, hash, name) =>
                CapabilityPermissionV1::SeekEventStreamConsumer(
                lineage.clone(),
                *hash,
                name.clone(),
            ),
            CapabilityPermissionV1::WatchNamedQuery(lineage, hash, name) =>
                CapabilityPermissionV1::WatchNamedQuery(lineage.clone(), *hash, name.clone()),
            CapabilityPermissionV1::ConsumeContextualSubscription(lineage, hash, name) =>
                CapabilityPermissionV1::ConsumeContextualSubscription(
                lineage.clone(),
                *hash,
                name.clone(),
            ),
        }
    }
}

/// A keyed digest of a capability token.
#[derive(Clone, Copy, Debug, PartialEq, Eq)]
pub struct CapabilityTokenDigest {
    pub key_id: Id32,
    pub digest: Digest,
}

/// The revocation of a capability.
#[derive(Clone, Copy, Debug, PartialEq, Eq)]
pub struct RevokedCapability {
    pub revoked_at: Timestamp,
    pub administration_sequence: Id64,
    pub reason: u8,
}

/// A capability lifecycle.
#[derive(Clone, Copy, Debug, PartialEq, Eq)]
pub enum CapabilityLifecycleV1 {
    Active,
    Revoked(RevokedCapability),
}

/// What a partition of one contract lineage is.
#[verifier::ext_equal]
pub ghost struct ScopedPartitionView {
    pub lineage: Seq<char>,
    pub partition_key: Seq<u8>,
}

/// A partition of one contract lineage.
#[derive(Debug, PartialEq, Eq)]
pub struct ScopedPartitionV1 {
    pub lineage: String,
    pub partition_key: Vec<u8>,
}

impl View for ScopedPartitionV1 {
    type V = ScopedPartitionView;

    open spec fn view(&self) -> ScopedPartitionView {
        ScopedPartitionView {
            lineage: self.lineage@,
            partition_key: self.partition_key@,
        }
    }
}

impl Clone for ScopedPartitionV1 {
    fn clone(&self) -> (result: ScopedPartitionV1)
        ensures
            result@ == self@,
    {
        ScopedPartitionV1 {
            lineage: self.lineage.clone(),
            partition_key: copy_bytes(&self.partition_key),
        }
    }
}

/// What an explicit list of partitions in canonical order is.
#[verifier::ext_equal]
pub ghost struct ExplicitPartitionScopeView {
    pub partitions: Seq<ScopedPartitionView>,
}

/// An explicit list of partitions in canonical order.
#[derive(Debug, PartialEq, Eq)]
pub struct ExplicitPartitionScope {
    pub partitions: Vec<ScopedPartitionV1>,
}

impl View for ExplicitPartitionScope {
    type V = ExplicitPartitionScopeView;

    open spec fn view(&self) -> ExplicitPartitionScopeView {
        ExplicitPartitionScopeView {
            partitions: scoped_partition_views(self.partitions@),
        }
    }
}

impl Clone for ExplicitPartitionScope {
    fn clone(&self) -> (result: ExplicitPartitionScope)
        ensures
            result@ == self@,
    {
        ExplicitPartitionScope {
            partitions: copy_scoped_partition_list(&self.partitions),
        }
    }
}

/// What a partition scope is.
pub ghost enum PartitionScopeView {
    All,
    Explicit(ExplicitPartitionScopeView),
}

/// A partition scope.
#[derive(Debug, PartialEq, Eq)]
pub enum PartitionScopeV1 {
    All,
    Explicit(ExplicitPartitionScope),
}

impl View for PartitionScopeV1 {
    type V = PartitionScopeView;

    open spec fn view(&self) -> PartitionScopeView {
        match self {
            PartitionScopeV1::All => PartitionScopeView::All,
            PartitionScopeV1::Explicit(part) => PartitionScopeView::Explicit(part@),
        }
    }
}

impl Clone for PartitionScopeV1 {
    fn clone(&self) -> (result: PartitionScopeV1)
        ensures
            result@ == self@,
    {
        match self {
            PartitionScopeV1::All => PartitionScopeV1::All,
            PartitionScopeV1::Explicit(part) => PartitionScopeV1::Explicit(part.clone()),
        }
    }
}

/// What the permissions of a grant in canonical order is.
#[verifier::ext_equal]
pub ghost struct PermissionsView {
    pub values: Seq<PermissionView>,
}

/// The permissions of a grant in canonical order.
#[derive(Debug, PartialEq, Eq)]
pub struct CapabilityPermissionsV1 {
    pub values: Vec<CapabilityPermissionV1>,
}

impl View for CapabilityPermissionsV1 {
    type V = PermissionsView;

    open spec fn view(&self) -> PermissionsView {
        PermissionsView {
            values: permission_views(self.values@),
        }
    }
}

impl Clone for CapabilityPermissionsV1 {
    fn clone(&self) -> (result: CapabilityPermissionsV1)
        ensures
            result@ == self@,
    {
        CapabilityPermissionsV1 {
            values: copy_permission_list(&self.values),
        }
    }
}

/// What the fields of one entity type that a grant shows is.
#[verifier::ext_equal]
pub ghost struct VisibleFieldsView {
    pub lineage: Seq<char>,
    pub entity_type: Id32,
    pub fields: Seq<Id32>,
}

/// The fields of one entity type that a grant shows.
#[derive(Debug, PartialEq, Eq)]
pub struct VisibleFields {
    pub lineage: String,
    pub entity_type: Id32,
    pub fields: Vec<Id32>,
}

impl View for VisibleFields {
    type V = VisibleFieldsView;

    open spec fn view(&self) -> VisibleFieldsView {
        VisibleFieldsView {
            lineage: self.lineage@,
            entity_type: self.entity_type,
            fields: self.fields@,
        }
    }
}

impl Clone for VisibleFields {
    fn clone(&self) -> (result: VisibleFields)
        ensures
            result@ == self@,
    {
        VisibleFields {
            lineage: self.lineage.clone(),
            entity_type: self.entity_type,
            fields: copy_ids(&self.fields),
        }
    }
}

/// What the secret fields of one entity type that a grant names is.
#[verifier::ext_equal]
pub ghost struct SecretFieldsView {
    pub lineage: Seq<char>,
    pub entity_type: Id32,
    pub secret_fields: Seq<Id32>,
}

/// The secret fields of one entity type that a grant names.
#[derive(Debug, PartialEq, Eq)]
pub struct SecretFields {
    pub lineage: String,
    pub entity_type: Id32,
    pub secret_fields: Vec<Id32>,
}

impl View for SecretFields {
    type V = SecretFieldsView;

    open spec fn view(&self) -> SecretFieldsView {
        SecretFieldsView {
            lineage: self.lineage@,
            entity_type: self.entity_type,
            secret_fields: self.secret_fields@,
        }
    }
}

impl Clone for SecretFields {
    fn clone(&self) -> (result: SecretFields)
        ensures
            result@ == self@,
    {
        SecretFields {
            lineage: self.lineage.clone(),
            entity_type: self.entity_type,
            secret_fields: copy_ids(&self.secret_fields),
        }
    }
}

/// What the secret fields that a grant names is.
#[verifier::ext_equal]
pub ghost struct SecretGrantView {
    pub entries: Seq<SecretFieldsView>,
}

/// The secret fields that a grant names.
#[derive(Debug, PartialEq, Eq)]
pub struct SecretGrant {
    pub entries: Vec<SecretFields>,
}

impl View for SecretGrant {
    type V = SecretGrantView;

    open spec fn view(&self) -> SecretGrantView {
        SecretGrantView {
            entries: secret_fields_views(self.entries@),
        }
    }
}

impl Clone for SecretGrant {
    fn clone(&self) -> (result: SecretGrant)
        ensures
            result@ == self@,
    {
        SecretGrant {
            entries: copy_secret_fields_list(&self.entries),
        }
    }
}

/// What the contract lineages that an extended permission covers is.
#[verifier::ext_equal]
pub ghost struct LineageGrantView {
    pub lineages: Seq<Seq<char>>,
    pub approval_required: bool,
}

/// The contract lineages that an extended permission covers.
#[derive(Debug, PartialEq, Eq)]
pub struct LineageGrant {
    pub lineages: Vec<String>,
    pub approval_required: bool,
}

impl View for LineageGrant {
    type V = LineageGrantView;

    open spec fn view(&self) -> LineageGrantView {
        LineageGrantView {
            lineages: text_views(self.lineages@),
            approval_required: self.approval_required,
        }
    }
}

impl Clone for LineageGrant {
    fn clone(&self) -> (result: LineageGrant)
        ensures
            result@ == self@,
    {
        LineageGrant {
            lineages: copy_texts(&self.lineages),
            approval_required: self.approval_required,
        }
    }
}

/// What a row policy bound to an entity type is.
#[verifier::ext_equal]
pub ghost struct RowPolicyBindingView {
    pub lineage: Seq<char>,
    pub policy_name: Seq<char>,
    pub entity_type: Id32,
    pub operations: Seq<u8>,
}

/// A row policy bound to an entity type.
#[derive(Debug, PartialEq, Eq)]
pub struct CapabilityRowPolicyBindingV1 {
    pub lineage: String,
    pub policy_name: String,
    pub entity_type: Id32,
    pub operations: Vec<u8>,
}

impl View for CapabilityRowPolicyBindingV1 {
    type V = RowPolicyBindingView;

    open spec fn view(&self) -> RowPolicyBindingView {
        RowPolicyBindingView {
            lineage: self.lineage@,
            policy_name: self.policy_name@,
            entity_type: self.entity_type,
            operations: self.operations@,
        }
    }
}

impl Clone for CapabilityRowPolicyBindingV1 {
    fn clone(&self) -> (result: CapabilityRowPolicyBindingV1)
        ensures
            result@ == self@,
    {
        CapabilityRowPolicyBindingV1 {
            lineage: self.lineage.clone(),
            policy_name: self.policy_name.clone(),
            entity_type: self.entity_type,
            operations: copy_bytes(&self.operations),
        }
    }
}

/// What the row policies of a grant is.
#[verifier::ext_equal]
pub ghost struct RowPolicyGrantView {
    pub application_role_hash: Digest,
    pub principal_facts: Seq<u8>,
    pub bindings: Seq<RowPolicyBindingView>,
}

/// The row policies of a grant.
#[derive(Debug, PartialEq, Eq)]
pub struct CapabilityRowPolicyGrantV1 {
    pub application_role_hash: Digest,
    pub principal_facts: Vec<u8>,
    pub bindings: Vec<CapabilityRowPolicyBindingV1>,
}

impl View for CapabilityRowPolicyGrantV1 {
    type V = RowPolicyGrantView;

    open spec fn view(&self) -> RowPolicyGrantView {
        RowPolicyGrantView {
            application_role_hash: self.application_role_hash,
            principal_facts: self.principal_facts@,
            bindings: policy_binding_views(self.bindings@),
        }
    }
}

impl Clone for CapabilityRowPolicyGrantV1 {
    fn clone(&self) -> (result: CapabilityRowPolicyGrantV1)
        ensures
            result@ == self@,
    {
        CapabilityRowPolicyGrantV1 {
            application_role_hash: self.application_role_hash,
            principal_facts: copy_bytes(&self.principal_facts),
            bindings: copy_policy_binding_list(&self.bindings),
        }
    }
}

/// What what a grant lets be exported of one application is.
#[verifier::ext_equal]
pub ghost struct ApplicationExportGrantView {
    pub lineage: Seq<char>,
    pub scope: u8,
    pub entities: bool,
    pub events: bool,
    pub provenance: bool,
    pub public_audit: bool,
}

/// What a grant lets be exported of one application.
#[derive(Debug, PartialEq, Eq)]
pub struct CapabilityApplicationExportGrantV1 {
    pub lineage: String,
    pub scope: u8,
    pub entities: bool,
    pub events: bool,
    pub provenance: bool,
    pub public_audit: bool,
}

impl View for CapabilityApplicationExportGrantV1 {
    type V = ApplicationExportGrantView;

    open spec fn view(&self) -> ApplicationExportGrantView {
        ApplicationExportGrantView {
            lineage: self.lineage@,
            scope: self.scope,
            entities: self.entities,
            events: self.events,
            provenance: self.provenance,
            public_audit: self.public_audit,
        }
    }
}

impl Clone for CapabilityApplicationExportGrantV1 {
    fn clone(&self) -> (result: CapabilityApplicationExportGrantV1)
        ensures
            result@ == self@,
    {
        CapabilityApplicationExportGrantV1 {
            lineage: self.lineage.clone(),
            scope: self.scope,
            entities: self.entities,
            events: self.events,
            provenance: self.provenance,
            public_audit: self.public_audit,
        }
    }
}

/// What what a grant lets be exported is.
#[verifier::ext_equal]
pub ghost struct ExportGrantView {
    pub applications: Seq<ApplicationExportGrantView>,
}

/// What a grant lets be exported.
#[derive(Debug, PartialEq, Eq)]
pub struct CapabilityExportGrantV1 {
    pub applications: Vec<CapabilityApplicationExportGrantV1>,
}

impl View for CapabilityExportGrantV1 {
    type V = ExportGrantView;

    open spec fn view(&self) -> ExportGrantView {
        ExportGrantView {
            applications: export_application_views(self.applications@),
        }
    }
}

impl Clone for CapabilityExportGrantV1 {
    fn clone(&self) -> (result: CapabilityExportGrantV1)
        ensures
            result@ == self@,
    {
        CapabilityExportGrantV1 {
            applications: copy_export_application_list(&self.applications),
        }
    }
}

/// What a grant without its extensions is.
#[verifier::ext_equal]
pub ghost struct GrantBaseView {
    pub tenant_scope: TenantScopeView,
    pub partition_scope: PartitionScopeView,
    pub permissions: PermissionsView,
    pub field_visibility: Seq<VisibleFieldsView>,
    pub max_scan_rows: NonZeroLimit,
    pub approval_required: Seq<CapabilityPermissionKindV1>,
}

/// A grant without its extensions.
#[derive(Debug, PartialEq, Eq)]
pub struct GrantBase {
    pub tenant_scope: TenantScope,
    pub partition_scope: PartitionScopeV1,
    pub permissions: CapabilityPermissionsV1,
    pub field_visibility: Vec<VisibleFields>,
    pub max_scan_rows: NonZeroLimit,
    pub approval_required: Vec<CapabilityPermissionKindV1>,
}

impl View for GrantBase {
    type V = GrantBaseView;

    open spec fn view(&self) -> GrantBaseView {
        GrantBaseView {
            tenant_scope: self.tenant_scope@,
            partition_scope: self.partition_scope@,
            permissions: self.permissions@,
            field_visibility: visible_fields_views(self.field_visibility@),
            max_scan_rows: self.max_scan_rows,
            approval_required: self.approval_required@,
        }
    }
}

impl Clone for GrantBase {
    fn clone(&self) -> (result: GrantBase)
        ensures
            result@ == self@,
    {
        GrantBase {
            tenant_scope: self.tenant_scope.clone(),
            partition_scope: self.partition_scope.clone(),
            permissions: self.permissions.clone(),
            field_visibility: copy_visible_fields_list(&self.field_visibility),
            max_scan_rows: self.max_scan_rows,
            approval_required: copy_kinds(&self.approval_required),
        }
    }
}

/// What what a capability record holds beside its grant is.
#[verifier::ext_equal]
pub ghost struct CapabilityHeaderView {
    pub capability_id: Identifier,
    pub revision: Id64,
    pub token_digest: CapabilityTokenDigest,
    pub database_id: Identifier,
    pub environment: Seq<char>,
    pub principal_id: Seq<char>,
    pub actor_kind: ActorKind,
    pub audiences: Seq<Seq<char>>,
    pub issued_at: Timestamp,
    pub expires_at: Timestamp,
    pub creation_sequence: Id64,
    pub creation_request_id: Identifier,
    pub lifecycle: CapabilityLifecycleV1,
}

/// What a capability record holds beside its grant.
#[derive(Debug, PartialEq, Eq)]
pub struct CapabilityHeader {
    pub capability_id: Identifier,
    pub revision: Id64,
    pub token_digest: CapabilityTokenDigest,
    pub database_id: Identifier,
    pub environment: String,
    pub principal_id: String,
    pub actor_kind: ActorKind,
    pub audiences: Vec<String>,
    pub issued_at: Timestamp,
    pub expires_at: Timestamp,
    pub creation_sequence: Id64,
    pub creation_request_id: Identifier,
    pub lifecycle: CapabilityLifecycleV1,
}

impl View for CapabilityHeader {
    type V = CapabilityHeaderView;

    open spec fn view(&self) -> CapabilityHeaderView {
        CapabilityHeaderView {
            capability_id: self.capability_id,
            revision: self.revision,
            token_digest: self.token_digest,
            database_id: self.database_id,
            environment: self.environment@,
            principal_id: self.principal_id@,
            actor_kind: self.actor_kind,
            audiences: text_views(self.audiences@),
            issued_at: self.issued_at,
            expires_at: self.expires_at,
            creation_sequence: self.creation_sequence,
            creation_request_id: self.creation_request_id,
            lifecycle: self.lifecycle,
        }
    }
}

impl Clone for CapabilityHeader {
    fn clone(&self) -> (result: CapabilityHeader)
        ensures
            result@ == self@,
    {
        CapabilityHeader {
            capability_id: self.capability_id,
            revision: self.revision,
            token_digest: self.token_digest,
            database_id: self.database_id,
            environment: self.environment.clone(),
            principal_id: self.principal_id.clone(),
            actor_kind: self.actor_kind,
            audiences: copy_texts(&self.audiences),
            issued_at: self.issued_at,
            expires_at: self.expires_at,
            creation_sequence: self.creation_sequence,
            creation_request_id: self.creation_request_id,
            lifecycle: self.lifecycle,
        }
    }
}

/// What a capability record without its grant's extensions is.
#[verifier::ext_equal]
pub ghost struct CapabilityRecordBaseView {
    pub header: CapabilityHeaderView,
    pub grant: GrantBaseView,
}

/// A capability record without its grant's extensions.
#[derive(Debug, PartialEq, Eq)]
pub struct CapabilityRecordBase {
    pub header: CapabilityHeader,
    pub grant: GrantBase,
}

impl View for CapabilityRecordBase {
    type V = CapabilityRecordBaseView;

    open spec fn view(&self) -> CapabilityRecordBaseView {
        CapabilityRecordBaseView {
            header: self.header@,
            grant: self.grant@,
        }
    }
}

impl Clone for CapabilityRecordBase {
    fn clone(&self) -> (result: CapabilityRecordBase)
        ensures
            result@ == self@,
    {
        CapabilityRecordBase {
            header: self.header.clone(),
            grant: self.grant.clone(),
        }
    }
}

/// What a capability record in its parts is.
#[verifier::ext_equal]
pub ghost struct CapabilityRecordPartsView {
    pub base: CapabilityRecordBaseView,
    pub migration: Option<LineageGrantView>,
    pub installation: Option<LineageGrantView>,
    pub row_policy: Option<RowPolicyGrantView>,
    pub export: Option<ExportGrantView>,
    pub secret: Option<SecretGrantView>,
}

/// A capability record in its parts.
#[derive(Debug, PartialEq, Eq)]
pub struct CapabilityRecordParts {
    pub base: CapabilityRecordBase,
    pub migration: Option<LineageGrant>,
    pub installation: Option<LineageGrant>,
    pub row_policy: Option<CapabilityRowPolicyGrantV1>,
    pub export: Option<CapabilityExportGrantV1>,
    pub secret: Option<SecretGrant>,
}

impl View for CapabilityRecordParts {
    type V = CapabilityRecordPartsView;

    open spec fn view(&self) -> CapabilityRecordPartsView {
        CapabilityRecordPartsView {
            base: self.base@,
            migration: optional_lineage_extension_view(self.migration),
            installation: optional_lineage_extension_view(self.installation),
            row_policy: optional_row_policy_view(self.row_policy),
            export: optional_export_extension_view(self.export),
            secret: optional_secret_extension_view(self.secret),
        }
    }
}

impl Clone for CapabilityRecordParts {
    fn clone(&self) -> (result: CapabilityRecordParts)
        ensures
            result@ == self@,
    {
        CapabilityRecordParts {
            base: self.base.clone(),
            migration: copy_optional_lineage_extension(&self.migration),
            installation: copy_optional_lineage_extension(&self.installation),
            row_policy: copy_optional_row_policy(&self.row_policy),
            export: copy_optional_export_extension(&self.export),
            secret: copy_optional_secret_extension(&self.secret),
        }
    }
}

/// The capability that a token digest leads to.
#[derive(Clone, Copy, Debug, PartialEq, Eq)]
pub struct CapabilityTokenLookupV1 {
    pub capability_id: Identifier,
}

/// The irreversible capability-bootstrap marker.
#[derive(Clone, Copy, Debug, PartialEq, Eq)]
pub struct CapabilityBootstrapMarkerV1 {
    pub database_id: Identifier,
    pub capability_id: Identifier,
    pub administration_sequence: Id64,
}

/// What a capability-administration audit record is.
#[verifier::ext_equal]
pub ghost struct CapabilityAdministrationView {
    pub administration_sequence: Id64,
    pub request_id: Identifier,
    pub operation: u8,
    pub timestamp: Timestamp,
    pub initiator: Option<AuditPrincipalV1View>,
    pub target_capability_id: Identifier,
    pub resulting_revision: Id64,
    pub approval_id: Option<Seq<char>>,
    pub revocation_reason: Option<u8>,
}

/// A capability-administration audit record.
#[derive(Debug, PartialEq, Eq)]
pub struct StoredCapabilityAdministrationV1 {
    pub administration_sequence: Id64,
    pub request_id: Identifier,
    pub operation: u8,
    pub timestamp: Timestamp,
    pub initiator: Option<AuditPrincipalV1>,
    pub target_capability_id: Identifier,
    pub resulting_revision: Id64,
    pub approval_id: Option<String>,
    pub revocation_reason: Option<u8>,
}

impl View for StoredCapabilityAdministrationV1 {
    type V = CapabilityAdministrationView;

    open spec fn view(&self) -> CapabilityAdministrationView {
        CapabilityAdministrationView {
            administration_sequence: self.administration_sequence,
            request_id: self.request_id,
            operation: self.operation,
            timestamp: self.timestamp,
            initiator: optional_audit_principal_view(self.initiator),
            target_capability_id: self.target_capability_id,
            resulting_revision: self.resulting_revision,
            approval_id: optional_text_view(self.approval_id),
            revocation_reason: self.revocation_reason,
        }
    }
}

impl Clone for StoredCapabilityAdministrationV1 {
    fn clone(&self) -> (result: StoredCapabilityAdministrationV1)
        ensures
            result@ == self@,
    {
        StoredCapabilityAdministrationV1 {
            administration_sequence: self.administration_sequence,
            request_id: self.request_id,
            operation: self.operation,
            timestamp: self.timestamp,
            initiator: copy_optional_audit_principal(&self.initiator),
            target_capability_id: self.target_capability_id,
            resulting_revision: self.resulting_revision,
            approval_id: copy_optional_text(&self.approval_id),
            revocation_reason: self.revocation_reason,
        }
    }
}

/// What a list of such values is.
pub open spec fn scoped_partition_views(
    values: Seq<ScopedPartitionV1>,
) -> Seq<ScopedPartitionView> {
    Seq::new(values.len(), |i: int| values[i]@)
}

/// Copies a list of such values.
pub fn copy_scoped_partition_list(values: &[ScopedPartitionV1]) -> (result: Vec<ScopedPartitionV1>)
    ensures
        scoped_partition_views(result@) == scoped_partition_views(values@),
{
    let mut result: Vec<ScopedPartitionV1> = Vec::new();
    let mut i: usize = 0;
    while i < values.len()
        invariant
            i <= values@.len(),
            result@.len() == i,
            forall|k: int| 0 <= k < i ==> result@[k]@ == values@[k]@,
        decreases values@.len() - i,
    {
        result.push(values[i].clone());
        i += 1;
    }
    assert(scoped_partition_views(result@) =~= scoped_partition_views(values@));
    result
}

/// What a list of such values is.
pub open spec fn visible_fields_views(values: Seq<VisibleFields>) -> Seq<VisibleFieldsView> {
    Seq::new(values.len(), |i: int| values[i]@)
}

/// Copies a list of such values.
pub fn copy_visible_fields_list(values: &[VisibleFields]) -> (result: Vec<VisibleFields>)
    ensures
        visible_fields_views(result@) == visible_fields_views(values@),
{
    let mut result: Vec<VisibleFields> = Vec::new();
    let mut i: usize = 0;
    while i < values.len()
        invariant
            i <= values@.len(),
            result@.len() == i,
            forall|k: int| 0 <= k < i ==> result@[k]@ == values@[k]@,
        decreases values@.len() - i,
    {
        result.push(values[i].clone());
        i += 1;
    }
    assert(visible_fields_views(result@) =~= visible_fields_views(values@));
    result
}

/// What a list of such values is.
pub open spec fn secret_fields_views(values: Seq<SecretFields>) -> Seq<SecretFieldsView> {
    Seq::new(values.len(), |i: int| values[i]@)
}

/// Copies a list of such values.
pub fn copy_secret_fields_list(values: &[SecretFields]) -> (result: Vec<SecretFields>)
    ensures
        secret_fields_views(result@) == secret_fields_views(values@),
{
    let mut result: Vec<SecretFields> = Vec::new();
    let mut i: usize = 0;
    while i < values.len()
        invariant
            i <= values@.len(),
            result@.len() == i,
            forall|k: int| 0 <= k < i ==> result@[k]@ == values@[k]@,
        decreases values@.len() - i,
    {
        result.push(values[i].clone());
        i += 1;
    }
    assert(secret_fields_views(result@) =~= secret_fields_views(values@));
    result
}

/// The view of an optional one.
pub open spec fn optional_secret_extension_view(
    value: Option<SecretGrant>,
) -> Option<SecretGrantView> {
    match value {
        Some(part) => Some(part@),
        None => None,
    }
}

/// Copies an optional one.
pub fn copy_optional_secret_extension(value: &Option<SecretGrant>) -> (result: Option<SecretGrant>)
    ensures
        optional_secret_extension_view(result) == optional_secret_extension_view(*value),
{
    match value {
        Some(part) => Some(part.clone()),
        None => None,
    }
}

/// The view of an optional one.
pub open spec fn optional_lineage_extension_view(
    value: Option<LineageGrant>,
) -> Option<LineageGrantView> {
    match value {
        Some(part) => Some(part@),
        None => None,
    }
}

/// Copies an optional one.
pub fn copy_optional_lineage_extension(
    value: &Option<LineageGrant>,
) -> (result: Option<LineageGrant>)
    ensures
        optional_lineage_extension_view(result) == optional_lineage_extension_view(*value),
{
    match value {
        Some(part) => Some(part.clone()),
        None => None,
    }
}

/// What a list of such values is.
pub open spec fn policy_binding_views(
    values: Seq<CapabilityRowPolicyBindingV1>,
) -> Seq<RowPolicyBindingView> {
    Seq::new(values.len(), |i: int| values[i]@)
}

/// Copies a list of such values.
pub fn copy_policy_binding_list(
    values: &[CapabilityRowPolicyBindingV1],
) -> (result: Vec<CapabilityRowPolicyBindingV1>)
    ensures
        policy_binding_views(result@) == policy_binding_views(values@),
{
    let mut result: Vec<CapabilityRowPolicyBindingV1> = Vec::new();
    let mut i: usize = 0;
    while i < values.len()
        invariant
            i <= values@.len(),
            result@.len() == i,
            forall|k: int| 0 <= k < i ==> result@[k]@ == values@[k]@,
        decreases values@.len() - i,
    {
        result.push(values[i].clone());
        i += 1;
    }
    assert(policy_binding_views(result@) =~= policy_binding_views(values@));
    result
}

/// The view of an optional one.
pub open spec fn optional_row_policy_view(
    value: Option<CapabilityRowPolicyGrantV1>,
) -> Option<RowPolicyGrantView> {
    match value {
        Some(part) => Some(part@),
        None => None,
    }
}

/// Copies an optional one.
pub fn copy_optional_row_policy(
    value: &Option<CapabilityRowPolicyGrantV1>,
) -> (result: Option<CapabilityRowPolicyGrantV1>)
    ensures
        optional_row_policy_view(result) == optional_row_policy_view(*value),
{
    match value {
        Some(part) => Some(part.clone()),
        None => None,
    }
}

/// What a list of such values is.
pub open spec fn export_application_views(
    values: Seq<CapabilityApplicationExportGrantV1>,
) -> Seq<ApplicationExportGrantView> {
    Seq::new(values.len(), |i: int| values[i]@)
}

/// Copies a list of such values.
pub fn copy_export_application_list(
    values: &[CapabilityApplicationExportGrantV1],
) -> (result: Vec<CapabilityApplicationExportGrantV1>)
    ensures
        export_application_views(result@) == export_application_views(values@),
{
    let mut result: Vec<CapabilityApplicationExportGrantV1> = Vec::new();
    let mut i: usize = 0;
    while i < values.len()
        invariant
            i <= values@.len(),
            result@.len() == i,
            forall|k: int| 0 <= k < i ==> result@[k]@ == values@[k]@,
        decreases values@.len() - i,
    {
        result.push(values[i].clone());
        i += 1;
    }
    assert(export_application_views(result@) =~= export_application_views(values@));
    result
}

/// The view of an optional one.
pub open spec fn optional_export_extension_view(
    value: Option<CapabilityExportGrantV1>,
) -> Option<ExportGrantView> {
    match value {
        Some(part) => Some(part@),
        None => None,
    }
}

/// Copies an optional one.
pub fn copy_optional_export_extension(
    value: &Option<CapabilityExportGrantV1>,
) -> (result: Option<CapabilityExportGrantV1>)
    ensures
        optional_export_extension_view(result) == optional_export_extension_view(*value),
{
    match value {
        Some(part) => Some(part.clone()),
        None => None,
    }
}

/// What a list of such values is.
pub open spec fn permission_views(values: Seq<CapabilityPermissionV1>) -> Seq<PermissionView> {
    Seq::new(values.len(), |i: int| values[i]@)
}

/// Copies a list of such values.
pub fn copy_permission_list(
    values: &[CapabilityPermissionV1],
) -> (result: Vec<CapabilityPermissionV1>)
    ensures
        permission_views(result@) == permission_views(values@),
{
    let mut result: Vec<CapabilityPermissionV1> = Vec::new();
    let mut i: usize = 0;
    while i < values.len()
        invariant
            i <= values@.len(),
            result@.len() == i,
            forall|k: int| 0 <= k < i ==> result@[k]@ == values@[k]@,
        decreases values@.len() - i,
    {
        result.push(values[i].clone());
        i += 1;
    }
    assert(permission_views(result@) =~= permission_views(values@));
    result
}

impl CapabilityPermissionV1 {
    /// Decides equality of two such values.
    pub fn same(&self, other: &CapabilityPermissionV1) -> (result: bool)
        ensures
            result == (self@ == other@),
    {
        match (self, other) {
            (CapabilityPermissionV1::Unparameterized(part),
                CapabilityPermissionV1::Unparameterized(held)) => *part == *held,
            (CapabilityPermissionV1::ExplainCommand(a, b),
                CapabilityPermissionV1::ExplainCommand(x, y)) => *a == *x && *b == *y,
            (CapabilityPermissionV1::InvokeCommand(a, b),
                CapabilityPermissionV1::InvokeCommand(x, y)) => *a == *x && *b == *y,
            (CapabilityPermissionV1::ReadEntity(a, b),
                CapabilityPermissionV1::ReadEntity(x, y)) => *a == *x && *b == *y,
            (CapabilityPermissionV1::ScanIndex(a, b), CapabilityPermissionV1::ScanIndex(x, y)) =>
                *a == *x && *b == *y,
            (CapabilityPermissionV1::QueryProjection(a, b),
                CapabilityPermissionV1::QueryProjection(x, y)) => *a == *x && *b == *y,
            (CapabilityPermissionV1::ReadProjectionStatus(a, b),
                CapabilityPermissionV1::ReadProjectionStatus(x, y)) => *a == *x && *b == *y,
            (CapabilityPermissionV1::ExplainNamedQuery(a, b, c),
                CapabilityPermissionV1::ExplainNamedQuery(x, y, z)) =>
                    *a == *x && b.same(y) && *c == *z,
            (CapabilityPermissionV1::ExecuteNamedQuery(a, b, c),
                CapabilityPermissionV1::ExecuteNamedQuery(x, y, z)) =>
                    *a == *x && b.same(y) && *c == *z,
            (CapabilityPermissionV1::ApplicationRoleIdentity(part),
                CapabilityPermissionV1::ApplicationRoleIdentity(held)) => part.same(held),
            (CapabilityPermissionV1::MigrateContract(part),
                CapabilityPermissionV1::MigrateContract(held)) => *part == *held,
            (CapabilityPermissionV1::InstallApplication(part),
                CapabilityPermissionV1::InstallApplication(held)) => *part == *held,
            (CapabilityPermissionV1::ConsumeEventStream(a, b, c),
                CapabilityPermissionV1::ConsumeEventStream(x, y, z)) =>
                    *a == *x && b.same(y) && *c == *z,
            (CapabilityPermissionV1::SeekEventStreamConsumer(a, b, c),
                CapabilityPermissionV1::SeekEventStreamConsumer(x, y, z)) =>
                    *a == *x && b.same(y) && *c == *z,
            (CapabilityPermissionV1::WatchNamedQuery(a, b, c),
                CapabilityPermissionV1::WatchNamedQuery(x, y, z)) =>
                    *a == *x && b.same(y) && *c == *z,
            (CapabilityPermissionV1::ConsumeContextualSubscription(a, b, c),
                CapabilityPermissionV1::ConsumeContextualSubscription(x, y, z)) =>
                    *a == *x && b.same(y) && *c == *z,
            _ => false,
        }
    }
}

impl ScopedPartitionV1 {
    /// Decides equality of two such values.
    pub fn same(&self, other: &ScopedPartitionV1) -> (result: bool)
        ensures
            result == (self@ == other@),
    {
        self.lineage == other.lineage
            && same_bytes(&self.partition_key, &other.partition_key)
    }
}

impl VisibleFields {
    /// Decides equality of two such values.
    pub fn same(&self, other: &VisibleFields) -> (result: bool)
        ensures
            result == (self@ == other@),
    {
        self.lineage == other.lineage
            && self.entity_type == other.entity_type
            && same_ids(&self.fields, &other.fields)
    }
}

impl CapabilityRowPolicyBindingV1 {
    /// Decides equality of two such values.
    pub fn same(&self, other: &CapabilityRowPolicyBindingV1) -> (result: bool)
        ensures
            result == (self@ == other@),
    {
        self.lineage == other.lineage
            && self.policy_name == other.policy_name
            && self.entity_type == other.entity_type
            && same_bytes(&self.operations, &other.operations)
    }
}

impl CapabilityApplicationExportGrantV1 {
    /// Decides equality of two such values.
    pub fn same(&self, other: &CapabilityApplicationExportGrantV1) -> (result: bool)
        ensures
            result == (self@ == other@),
    {
        self.lineage == other.lineage
            && self.scope == other.scope
            && self.entities == other.entities
            && self.events == other.events
            && self.provenance == other.provenance
            && self.public_audit == other.public_audit
    }
}

/// Decides equality of two lists.
pub fn same_permission_list(
    a: &[CapabilityPermissionV1],
    b: &[CapabilityPermissionV1],
) -> (result: bool)
    ensures
        result == (permission_views(a@) == permission_views(b@)),
{
    if a.len() != b.len() {
        assert(permission_views(a@).len() != permission_views(b@).len());
        return false;
    }
    let mut i: usize = 0;
    while i < a.len()
        invariant
            i <= a@.len(),
            a@.len() == b@.len(),
            forall|k: int| 0 <= k < i ==> (#[trigger] a@[k])@ == b@[k]@,
        decreases a@.len() - i,
    {
        if !a[i].same(&b[i]) {
            assert(permission_views(a@)[i as int] != permission_views(b@)[i as int]);
            return false;
        }
        i += 1;
    }
    assert(permission_views(a@) =~= permission_views(b@));
    true
}

/// Decides equality of two lists.
pub fn same_scoped_partition_list(
    a: &[ScopedPartitionV1],
    b: &[ScopedPartitionV1],
) -> (result: bool)
    ensures
        result == (scoped_partition_views(a@) == scoped_partition_views(b@)),
{
    if a.len() != b.len() {
        assert(scoped_partition_views(a@).len() != scoped_partition_views(b@).len());
        return false;
    }
    let mut i: usize = 0;
    while i < a.len()
        invariant
            i <= a@.len(),
            a@.len() == b@.len(),
            forall|k: int| 0 <= k < i ==> (#[trigger] a@[k])@ == b@[k]@,
        decreases a@.len() - i,
    {
        if !a[i].same(&b[i]) {
            assert(scoped_partition_views(a@)[i as int] != scoped_partition_views(b@)[i as int]);
            return false;
        }
        i += 1;
    }
    assert(scoped_partition_views(a@) =~= scoped_partition_views(b@));
    true
}

/// Decides equality of two lists.
pub fn same_visible_fields_list(a: &[VisibleFields], b: &[VisibleFields]) -> (result: bool)
    ensures
        result == (visible_fields_views(a@) == visible_fields_views(b@)),
{
    if a.len() != b.len() {
        assert(visible_fields_views(a@).len() != visible_fields_views(b@).len());
        return false;
    }
    let mut i: usize = 0;
    while i < a.len()
        invariant
            i <= a@.len(),
            a@.len() == b@.len(),
            forall|k: int| 0 <= k < i ==> (#[trigger] a@[k])@ == b@[k]@,
        decreases a@.len() - i,
    {
        if !a[i].same(&b[i]) {
            assert(visible_fields_views(a@)[i as int] != visible_fields_views(b@)[i as int]);
            return false;
        }
        i += 1;
    }
    assert(visible_fields_views(a@) =~= visible_fields_views(b@));
    true
}

/// Decides equality of two lists.
pub fn same_policy_binding_list(
    a: &[CapabilityRowPolicyBindingV1],
    b: &[CapabilityRowPolicyBindingV1],
) -> (result: bool)
    ensures
        result == (policy_binding_views(a@) == policy_binding_views(b@)),
{
    if a.len() != b.len() {
        assert(policy_binding_views(a@).len() != policy_binding_views(b@).len());
        return false;
    }
    let mut i: usize = 0;
    while i < a.len()
        invariant
            i <= a@.len(),
            a@.len() == b@.len(),
            forall|k: int| 0 <= k < i ==> (#[trigger] a@[k])@ == b@[k]@,
        decreases a@.len() - i,
    {
        if !a[i].same(&b[i]) {
            assert(policy_binding_views(a@)[i as int] != policy_binding_views(b@)[i as int]);
            return false;
        }
        i += 1;
    }
    assert(policy_binding_views(a@) =~= policy_binding_views(b@));
    true
}

/// Decides equality of two lists.
pub fn same_export_application_list(
    a: &[CapabilityApplicationExportGrantV1],
    b: &[CapabilityApplicationExportGrantV1],
) -> (result: bool)
    ensures
        result == (export_application_views(a@) == export_application_views(b@)),
{
    if a.len() != b.len() {
        assert(export_application_views(a@).len() != export_application_views(b@).len());
        return false;
    }
    let mut i: usize = 0;
    while i < a.len()
        invariant
            i <= a@.len(),
            a@.len() == b@.len(),
            forall|k: int| 0 <= k < i ==> (#[trigger] a@[k])@ == b@[k]@,
        decreases a@.len() - i,
    {
        if !a[i].same(&b[i]) {
            assert(export_application_views(a@)[i as int]
                != export_application_views(b@)[i as int]);
            return false;
        }
        i += 1;
    }
    assert(export_application_views(a@) =~= export_application_views(b@));
    true
}

/// Decides equality of two lists.
pub fn same_kind_list(
    a: &[CapabilityPermissionKindV1],
    b: &[CapabilityPermissionKindV1],
) -> (result: bool)
    ensures
        result == (a@ == b@),
{
    if a.len() != b.len() {
        assert(a@.len() != b@.len());
        return false;
    }
    let mut i: usize = 0;
    while i < a.len()
        invariant
            i <= a@.len(),
            a@.len() == b@.len(),
            forall|k: int| 0 <= k < i ==> (#[trigger] a@[k]) == b@[k],
        decreases a@.len() - i,
    {
        if !(a[i] == b[i]) {
            assert(a@[i as int] != b@[i as int]);
            return false;
        }
        i += 1;
    }
    assert(a@ =~= b@);
    true
}

/// What the grant type makes of the visibilities and the approvals that it is given.
#[derive(Debug, PartialEq, Eq)]
pub struct RebuiltGrant {
    pub field_visibility: Vec<VisibleFields>,
    pub approval_required: Vec<CapabilityPermissionKindV1>,
}

/// Whether visibilities and approvals are their own canonical lists.
pub open spec fn grant_rebuilt(
    rebuilt: Result<RebuiltGrant, StorageValueError>,
    field_visibility: Seq<VisibleFieldsView>,
    approval_required: Seq<CapabilityPermissionKindV1>,
) -> bool {
    rebuilt matches Ok(lists) && visible_fields_views(lists.field_visibility@) == field_visibility
        && lists.approval_required@ == approval_required
}

/// Whether partitions are their own canonical list.
pub open spec fn partitions_rebuilt(
    rebuilt: Result<Vec<ScopedPartitionV1>, StorageValueError>,
    values: Seq<ScopedPartitionView>,
) -> bool {
    rebuilt matches Ok(list) && scoped_partition_views(list@) == values
}

/// Whether permissions are their own canonical list.
pub open spec fn permissions_rebuilt(
    rebuilt: Result<Vec<CapabilityPermissionV1>, StorageValueError>,
    values: Seq<PermissionView>,
) -> bool {
    rebuilt matches Ok(list) && permission_views(list@) == values
}

/// Whether identifiers are their own canonical list.
pub open spec fn ids_rebuilt(
    rebuilt: Result<Vec<Id32>, StorageValueError>,
    values: Seq<Id32>,
) -> bool {
    rebuilt matches Ok(list) && list@ == values
}

/// Whether bound row policies are their own canonical list.
pub open spec fn bindings_rebuilt(
    rebuilt: Result<Vec<CapabilityRowPolicyBindingV1>, StorageValueError>,
    values: Seq<RowPolicyBindingView>,
) -> bool {
    rebuilt matches Ok(list) && policy_binding_views(list@) == values
}

/// Whether exports are their own canonical list.
pub open spec fn exports_rebuilt(
    rebuilt: Result<Vec<CapabilityApplicationExportGrantV1>, StorageValueError>,
    values: Seq<ApplicationExportGrantView>,
) -> bool {
    rebuilt matches Ok(list) && export_application_views(list@) == values
}

} // verus!
