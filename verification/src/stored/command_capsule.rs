//! Command capsules.

use vstd::prelude::*;

use crate::bytes::copy_bytes;
use crate::codec::parts::{copy_optional_text, optional_text_view, Identifier};
use crate::ids::{CommitSequence, Id64, Timestamp};
use crate::stored::application::{
    copy_entity_reference_list, copy_event_reference_list, entity_reference_views, CommitParts,
    CommitPartsView, CommittedEntityReferenceV2, EntityReferenceView, EventReferenceV2,
    StoredCommandCausationV1,
};
use crate::stored::audit::{copy_target_list, target_views, AuditTargetView, ServiceAuditTargetV1};
use crate::stored::common::{
    copy_optional_audit_principal, optional_audit_principal_view, AuditPrincipalV1,
    AuditPrincipalV1View, IdempotencyIdentity, IdempotencyIdentityView, ProvenanceClaimsView,
    StoredAdmittedProvenanceClaimsV1,
};

verus! {

/// What the audited invocation of a command is.
#[verifier::ext_equal]
pub ghost struct CommandAuditInvocationView {
    pub request_id: Identifier,
    pub operation: u8,
    pub principal: Option<AuditPrincipalV1View>,
    pub ingress: u8,
    pub targets: Seq<AuditTargetView>,
    pub approval_id: Option<Seq<char>>,
    pub started_sequence: Id64,
    pub started_at: Timestamp,
    pub terminal_sequence: Id64,
    pub terminal_at: Timestamp,
}

/// The audited invocation of a command.
#[derive(Debug, PartialEq, Eq)]
pub struct CommandAuditInvocation {
    pub request_id: Identifier,
    pub operation: u8,
    pub principal: Option<AuditPrincipalV1>,
    pub ingress: u8,
    pub targets: Vec<ServiceAuditTargetV1>,
    pub approval_id: Option<String>,
    pub started_sequence: Id64,
    pub started_at: Timestamp,
    pub terminal_sequence: Id64,
    pub terminal_at: Timestamp,
}

impl View for CommandAuditInvocation {
    type V = CommandAuditInvocationView;

    open spec fn view(&self) -> CommandAuditInvocationView {
        CommandAuditInvocationView {
            request_id: self.request_id,
            operation: self.operation,
            principal: optional_audit_principal_view(self.principal),
            ingress: self.ingress,
            targets: target_views(self.targets@),
            approval_id: optional_text_view(self.approval_id),
            started_sequence: self.started_sequence,
            started_at: self.started_at,
            terminal_sequence: self.terminal_sequence,
            terminal_at: self.terminal_at,
        }
    }
}

impl Clone for CommandAuditInvocation {
    fn clone(&self) -> (result: CommandAuditInvocation)
        ensures
            result@ == self@,
    {
        CommandAuditInvocation {
            request_id: self.request_id,
            operation: self.operation,
            principal: copy_optional_audit_principal(&self.principal),
            ingress: self.ingress,
            targets: copy_target_list(&self.targets),
            approval_id: copy_optional_text(&self.approval_id),
            started_sequence: self.started_sequence,
            started_at: self.started_at,
            terminal_sequence: self.terminal_sequence,
            terminal_at: self.terminal_at,
        }
    }
}

/// What a successful command apart from its audit is.
#[verifier::ext_equal]
pub ghost struct CapsuleHeadView {
    pub identity: IdempotencyIdentityView,
    pub parts: CommitPartsView,
    pub admitted_claims: ProvenanceClaimsView,
    pub partition_key: Seq<u8>,
    pub causation: Option<StoredCommandCausationV1>,
    pub entity_references: Seq<EntityReferenceView>,
    pub event_references: Seq<EventReferenceV2>,
}

/// A successful command apart from its audit.
#[derive(Debug, PartialEq, Eq)]
pub struct CapsuleHead {
    pub identity: IdempotencyIdentity,
    pub parts: CommitParts,
    pub admitted_claims: StoredAdmittedProvenanceClaimsV1,
    pub partition_key: Vec<u8>,
    pub causation: Option<StoredCommandCausationV1>,
    pub entity_references: Vec<CommittedEntityReferenceV2>,
    pub event_references: Vec<EventReferenceV2>,
}

impl View for CapsuleHead {
    type V = CapsuleHeadView;

    open spec fn view(&self) -> CapsuleHeadView {
        CapsuleHeadView {
            identity: self.identity@,
            parts: self.parts@,
            admitted_claims: self.admitted_claims@,
            partition_key: self.partition_key@,
            causation: self.causation,
            entity_references: entity_reference_views(self.entity_references@),
            event_references: self.event_references@,
        }
    }
}

impl Clone for CapsuleHead {
    fn clone(&self) -> (result: CapsuleHead)
        ensures
            result@ == self@,
    {
        CapsuleHead {
            identity: self.identity.clone(),
            parts: self.parts.clone(),
            admitted_claims: self.admitted_claims.clone(),
            partition_key: copy_bytes(&self.partition_key),
            causation: self.causation,
            entity_references: copy_entity_reference_list(&self.entity_references),
            event_references: copy_event_reference_list(&self.event_references),
        }
    }
}

/// Which audit record of a command.
#[derive(Clone, Copy, Debug, PartialEq, Eq, Structural)]
pub enum StoredCommandAuditMemberV1 {
    Started,
    Terminal,
}

/// A locator of a successful command.
#[derive(Clone, Copy, Debug, PartialEq, Eq)]
pub struct StoredCommandLocatorV1 {
    pub commit_sequence: CommitSequence,
}

/// A locator of a command's audit record.
#[derive(Clone, Copy, Debug, PartialEq, Eq)]
pub struct StoredCommandAuditLocatorV1 {
    pub commit_sequence: CommitSequence,
    pub member: StoredCommandAuditMemberV1,
}

} // verus!
