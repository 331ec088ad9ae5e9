//! One successful command as its five records.

use vstd::prelude::*;

use crate::codec::parts::{copy_digests, copy_optional_text};
use crate::bytes::copy_bytes;
use crate::ids::EventId;
use crate::records::{DurableEventView, StoredDurableEventV1};
use crate::stored::application::event_views;
use crate::stored::application::{
    affected_views, copy_entity_reference_list, entity_reference_views, AffectedEntityV1,
    AffectedEntityView, CommittedEntityReferenceV2, EntityReferenceView, OutcomeBase,
    OutcomeBaseView, ProvenanceBase, ProvenanceBaseView, ProvenanceRecordView, StoredOutcomeV1,
    StoredOutcomeView, StoredProvenanceRecordV1,
};
use crate::stored::audit::{
    copy_target_list, CommandAuditLink, ServiceAuditLinkV1, ServiceAuditPhaseV1,
    ServiceAuditRecordView, StoredServiceAuditRecordV1,
};
use crate::stored::command_capsule::{
    CapsuleHead, CapsuleHeadView, CommandAuditInvocation, CommandAuditInvocationView,
};
use crate::stored::commit::{
    event_references_of, references_to, CommitRecordView, StoredCommitRecordV1,
};
use crate::stored::common::copy_optional_audit_principal;

verus! {

/// What a successful command is.
#[verifier::ext_equal]
pub ghost struct CommandCapsuleView {
    pub outcome: StoredOutcomeView,
    pub provenance: ProvenanceRecordView,
    pub commit: CommitRecordView,
    pub started: ServiceAuditRecordView,
    pub terminal: ServiceAuditRecordView,
}

/// One successful command: its outcome, provenance, commit and two audit records.
#[derive(Debug, PartialEq, Eq)]
pub struct StoredCommandCapsuleV1 {
    pub outcome: StoredOutcomeV1,
    pub provenance: StoredProvenanceRecordV1,
    pub commit: StoredCommitRecordV1,
    pub started: StoredServiceAuditRecordV1,
    pub terminal: StoredServiceAuditRecordV1,
}

impl View for StoredCommandCapsuleV1 {
    type V = CommandCapsuleView;

    open spec fn view(&self) -> CommandCapsuleView {
        CommandCapsuleView {
            outcome: self.outcome@,
            provenance: self.provenance@,
            commit: self.commit@,
            started: self.started@,
            terminal: self.terminal@,
        }
    }
}

/// The entities that references name, as affected entities.
pub open spec fn affected_of(references: Seq<EntityReferenceView>) -> Seq<AffectedEntityView> {
    Seq::new(
        references.len(),
        |i: int|
            AffectedEntityView {
                target: references[i].target,
                entity_version: references[i].entity_version,
            },
    )
}

/// The identities of events.
pub open spec fn event_ids_of(events: Seq<DurableEventView>) -> Seq<EventId> {
    Seq::new(events.len(), |i: int| events[i].event_id)
}

/// The outcome that the parts of a command make.
pub open spec fn outcome_of(head: CapsuleHeadView) -> StoredOutcomeView {
    StoredOutcomeView {
        base: OutcomeBaseView {
            identity: head.identity,
            commit_sequence: head.parts.commit_sequence,
            admission_request_id: head.parts.admission_request_id,
            plan: head.parts.plan,
            canonical_input_hash: head.parts.canonical_input_hash,
            actor: head.parts.actor,
            logical_time: head.parts.logical_time,
            partition_hash: head.parts.partition_hash,
            conflict_hashes: head.parts.conflict_hashes,
            declared_outcome: head.parts.declared_outcome,
            admitted_claims: head.admitted_claims,
            provenance_id: head.parts.provenance_id,
            durability_mode: head.parts.durability_mode,
            partition_key: head.partition_key,
        },
        causation: head.causation,
    }
}

/// The provenance record that the parts of a command and its events make.
pub open spec fn provenance_of(
    head: CapsuleHeadView,
    events: Seq<DurableEventView>,
) -> ProvenanceRecordView {
    ProvenanceRecordView {
        base: ProvenanceBaseView {
            provenance_id: head.parts.provenance_id,
            commit_sequence: head.parts.commit_sequence,
            identity: head.identity,
            admission_request_id: head.parts.admission_request_id,
            plan: head.parts.plan,
            canonical_input_hash: head.parts.canonical_input_hash,
            actor: head.parts.actor,
            logical_time: head.parts.logical_time,
            partition_hash: head.parts.partition_hash,
            conflict_hashes: head.parts.conflict_hashes,
            outcome_id: head.parts.declared_outcome.outcome_id,
            affected_entities: affected_of(head.entity_references),
            event_ids: event_ids_of(events),
            admitted_claims: head.admitted_claims,
        },
        causation: head.causation,
    }
}

/// The audit record of a command's start.
pub open spec fn started_of(audit: CommandAuditInvocationView) -> ServiceAuditRecordView {
    ServiceAuditRecordView {
        administration_sequence: audit.started_sequence,
        request_id: audit.request_id,
        timestamp: audit.started_at,
        operation: audit.operation,
        phase: ServiceAuditPhaseV1::Started,
        principal: audit.principal,
        ingress: audit.ingress,
        targets: audit.targets,
        approval_id: audit.approval_id,
        link: ServiceAuditLinkV1::Nothing,
    }
}

/// The audit record of a command's success, linked to its commit.
pub open spec fn terminal_of(
    head: CapsuleHeadView,
    audit: CommandAuditInvocationView,
) -> ServiceAuditRecordView {
    ServiceAuditRecordView {
        administration_sequence: audit.terminal_sequence,
        timestamp: audit.terminal_at,
        phase: ServiceAuditPhaseV1::Succeeded,
        link: ServiceAuditLinkV1::Command(
            CommandAuditLink {
                commit_sequence: head.parts.commit_sequence,
                provenance_id: head.parts.provenance_id,
            },
        ),
        ..started_of(audit)
    }
}

/// The command that its parts, its events and its audited invocation make.
pub open spec fn capsule_of(
    head: CapsuleHeadView,
    events: Seq<DurableEventView>,
    audit: CommandAuditInvocationView,
) -> CommandCapsuleView {
    CommandCapsuleView {
        outcome: outcome_of(head),
        provenance: provenance_of(head, events),
        commit: CommitRecordView {
            parts: head.parts,
            entity_references: head.entity_references,
            events,
        },
        started: started_of(audit),
        terminal: terminal_of(head, audit),
    }
}

/// The parts of a command, as its outcome and its commit hold them.
pub open spec fn head_of(capsule: CommandCapsuleView) -> CapsuleHeadView {
    CapsuleHeadView {
        identity: capsule.outcome.base.identity,
        parts: capsule.commit.parts,
        admitted_claims: capsule.outcome.base.admitted_claims,
        partition_key: capsule.outcome.base.partition_key,
        causation: capsule.outcome.causation,
        entity_references: capsule.commit.entity_references,
        event_references: references_to(capsule.commit.events),
    }
}

/// The audited invocation of a command, as its audit records hold it.
pub open spec fn invocation_of(capsule: CommandCapsuleView) -> CommandAuditInvocationView {
    CommandAuditInvocationView {
        request_id: capsule.started.request_id,
        operation: capsule.started.operation,
        principal: capsule.started.principal,
        ingress: capsule.started.ingress,
        targets: capsule.started.targets,
        approval_id: capsule.started.approval_id,
        started_sequence: capsule.started.administration_sequence,
        started_at: capsule.started.timestamp,
        terminal_sequence: capsule.terminal.administration_sequence,
        terminal_at: capsule.terminal.timestamp,
    }
}

/// The five records of a command say the same of it.
pub open spec fn records_agree(capsule: CommandCapsuleView) -> bool {
    let parts = capsule.commit.parts;
    let outcome = capsule.outcome.base;
    let provenance = capsule.provenance.base;
    &&& outcome.commit_sequence == parts.commit_sequence
    &&& outcome.admission_request_id == parts.admission_request_id
    &&& outcome.plan == parts.plan
    &&& outcome.canonical_input_hash == parts.canonical_input_hash
    &&& outcome.actor == parts.actor
    &&& outcome.logical_time == parts.logical_time
    &&& outcome.partition_hash == parts.partition_hash
    &&& outcome.conflict_hashes == parts.conflict_hashes
    &&& outcome.declared_outcome == parts.declared_outcome
    &&& outcome.provenance_id == parts.provenance_id
    &&& outcome.durability_mode == parts.durability_mode
    &&& provenance.provenance_id == parts.provenance_id
    &&& provenance.commit_sequence == parts.commit_sequence
    &&& provenance.identity == outcome.identity
    &&& provenance.admission_request_id == parts.admission_request_id
    &&& provenance.plan == parts.plan
    &&& provenance.canonical_input_hash == parts.canonical_input_hash
    &&& provenance.actor == parts.actor
    &&& provenance.logical_time == parts.logical_time
    &&& provenance.partition_hash == parts.partition_hash
    &&& provenance.conflict_hashes == parts.conflict_hashes
    &&& provenance.outcome_id == parts.declared_outcome.outcome_id
    &&& provenance.affected_entities == affected_of(capsule.commit.entity_references)
    &&& provenance.event_ids == event_ids_of(capsule.commit.events)
    &&& provenance.admitted_claims == outcome.admitted_claims
    &&& capsule.provenance.causation == capsule.outcome.causation
    &&& capsule.started.phase is Started
    &&& capsule.started.link is Nothing
    &&& capsule.terminal.phase is Succeeded
    &&& capsule.terminal.link == ServiceAuditLinkV1::Command(
        CommandAuditLink {
            commit_sequence: parts.commit_sequence,
            provenance_id: parts.provenance_id,
        },
    )
    &&& capsule.terminal.request_id == capsule.started.request_id
    &&& capsule.terminal.operation == capsule.started.operation
    &&& capsule.terminal.principal == capsule.started.principal
    &&& capsule.terminal.ingress == capsule.started.ingress
    &&& capsule.terminal.targets == capsule.started.targets
    &&& capsule.terminal.approval_id == capsule.started.approval_id
}

/// A command whose records agree is made again from its parts, its events and its
/// audited invocation.
pub proof fn capsules_come_together_again(capsule: CommandCapsuleView)
    requires
        records_agree(capsule),
    ensures
        capsule_of(head_of(capsule), capsule.commit.events, invocation_of(capsule)) == capsule,
{
    let again = capsule_of(head_of(capsule), capsule.commit.events, invocation_of(capsule));
    assert(again.outcome.base =~= capsule.outcome.base);
    assert(again.outcome =~= capsule.outcome);
    assert(again.provenance.base =~= capsule.provenance.base);
    assert(again.provenance =~= capsule.provenance);
    assert(again.commit =~= capsule.commit);
    assert(again.started =~= capsule.started);
    assert(again.terminal =~= capsule.terminal);
    assert(again =~= capsule);
}

/// The records that parts make agree, and hold these very parts.
pub proof fn capsules_keep_their_parts(
    head: CapsuleHeadView,
    events: Seq<DurableEventView>,
    audit: CommandAuditInvocationView,
)
    requires
        head.event_references == references_to(events),
    ensures
        records_agree(capsule_of(head, events, audit)),
        head_of(capsule_of(head, events, audit)) == head,
        invocation_of(capsule_of(head, events, audit)) == audit,
{
    assert(head_of(capsule_of(head, events, audit)) =~= head);
    assert(invocation_of(capsule_of(head, events, audit)) =~= audit);
}

/// The two audit records of a command stand where and when it started and succeeded; the
/// first is linked to nothing, the second to the command's commit and provenance. Both
/// name the request, and its outcome and provenance name the commit.
pub proof fn commands_are_audited_from_start_to_success(
    head: CapsuleHeadView,
    events: Seq<DurableEventView>,
    audit: CommandAuditInvocationView,
)
    ensures
        ({
            let command = capsule_of(head, events, audit);
            &&& command.started.administration_sequence == audit.started_sequence
            &&& command.started.timestamp == audit.started_at
            &&& command.started.phase is Started
            &&& command.started.link is Nothing
            &&& command.terminal.administration_sequence == audit.terminal_sequence
            &&& command.terminal.timestamp == audit.terminal_at
            &&& command.terminal.phase is Succeeded
            &&& command.terminal.link matches ServiceAuditLinkV1::Command(link)
                && link.commit_sequence == head.parts.commit_sequence && link.provenance_id
                == head.parts.provenance_id
            &&& command.started.request_id == audit.request_id
            &&& command.terminal.request_id == audit.request_id
            &&& command.outcome.base.commit_sequence == head.parts.commit_sequence
            &&& command.provenance.base.commit_sequence == head.parts.commit_sequence
            &&& command.outcome.base.canonical_input_hash == head.parts.canonical_input_hash
            &&& command.outcome.base.partition_hash == head.parts.partition_hash
            &&& command.provenance.base.canonical_input_hash == head.parts.canonical_input_hash
            &&& command.provenance.base.partition_hash == head.parts.partition_hash
            &&& command.provenance.base.event_ids.len() == events.len()
            &&& forall|i: int|
                0 <= i < events.len() ==> #[trigger] command.provenance.base.event_ids[i]
                    == events[i].event_id
            &&& command.provenance.base.affected_entities.len() == head.entity_references.len()
            &&& forall|i: int|
                #![trigger command.provenance.base.affected_entities[i]]
                0 <= i < head.entity_references.len()
                    ==> command.provenance.base.affected_entities[i].target
                    == head.entity_references[i].target
                    && command.provenance.base.affected_entities[i].entity_version
                    == head.entity_references[i].entity_version
        }),
{
}

fn affected_list(references: &[CommittedEntityReferenceV2]) -> (result: Vec<AffectedEntityV1>)
    ensures
        affected_views(result@) == affected_of(entity_reference_views(references@)),
{
    let mut result: Vec<AffectedEntityV1> = Vec::new();
    let mut i: usize = 0;
    while i < references.len()
        invariant
            i <= references@.len(),
            result@.len() == i,
            forall|k: int|
                0 <= k < i ==> (#[trigger] result@[k])@ == affected_of(
                    entity_reference_views(references@),
                )[k],
        decreases references@.len() - i,
    {
        result.push(
            AffectedEntityV1 {
                target: references[i].target.clone(),
                entity_version: references[i].entity_version,
            },
        );
        i += 1;
    }
    assert(affected_views(result@) =~= affected_of(entity_reference_views(references@)));
    result
}

fn event_id_list(events: &[StoredDurableEventV1]) -> (result: Vec<EventId>)
    ensures
        result@ == event_ids_of(event_views(events@)),
{
    let mut result: Vec<EventId> = Vec::new();
    let mut i: usize = 0;
    while i < events.len()
        invariant
            i <= events@.len(),
            result@ == event_ids_of(event_views(events@)).take(i as int),
        decreases events@.len() - i,
    {
        result.push(events[i].event_id);
        i += 1;
        assert(result@ =~= event_ids_of(event_views(events@)).take(i as int));
    }
    assert(result@ =~= event_ids_of(event_views(events@)));
    result
}

fn outcome_from(head: &CapsuleHead) -> (result: StoredOutcomeV1)
    ensures
        result@ == outcome_of(head@),
{
    StoredOutcomeV1 {
        base: OutcomeBase {
            identity: head.identity.clone(),
            commit_sequence: head.parts.commit_sequence,
            admission_request_id: head.parts.admission_request_id,
            plan: head.parts.plan.clone(),
            canonical_input_hash: head.parts.canonical_input_hash,
            actor: head.parts.actor.clone(),
            logical_time: head.parts.logical_time,
            partition_hash: head.parts.partition_hash,
            conflict_hashes: copy_digests(&head.parts.conflict_hashes),
            declared_outcome: head.parts.declared_outcome.clone(),
            admitted_claims: head.admitted_claims.clone(),
            provenance_id: head.parts.provenance_id,
            durability_mode: head.parts.durability_mode,
            partition_key: copy_bytes(&head.partition_key),
        },
        causation: head.causation,
    }
}

fn provenance_from(head: &CapsuleHead, events: &[StoredDurableEventV1]) -> (result:
    StoredProvenanceRecordV1)
    ensures
        result@ == provenance_of(head@, event_views(events@)),
{
    StoredProvenanceRecordV1 {
        base: ProvenanceBase {
            provenance_id: head.parts.provenance_id,
            commit_sequence: head.parts.commit_sequence,
            identity: head.identity.clone(),
            admission_request_id: head.parts.admission_request_id,
            plan: head.parts.plan.clone(),
            canonical_input_hash: head.parts.canonical_input_hash,
            actor: head.parts.actor.clone(),
            logical_time: head.parts.logical_time,
            partition_hash: head.parts.partition_hash,
            conflict_hashes: copy_digests(&head.parts.conflict_hashes),
            outcome_id: head.parts.declared_outcome.outcome_id,
            affected_entities: affected_list(&head.entity_references),
            event_ids: event_id_list(events),
            admitted_claims: head.admitted_claims.clone(),
        },
        causation: head.causation,
    }
}

fn started_from(audit: &CommandAuditInvocation) -> (result: StoredServiceAuditRecordV1)
    ensures
        result@ == started_of(audit@),
{
    StoredServiceAuditRecordV1 {
        administration_sequence: audit.started_sequence,
        request_id: audit.request_id,
        timestamp: audit.started_at,
        operation: audit.operation,
        phase: ServiceAuditPhaseV1::Started,
        principal: copy_optional_audit_principal(&audit.principal),
        ingress: audit.ingress,
        targets: copy_target_list(&audit.targets),
        approval_id: copy_optional_text(&audit.approval_id),
        link: ServiceAuditLinkV1::Nothing,
    }
}

fn terminal_from(head: &CapsuleHead, audit: &CommandAuditInvocation) -> (result:
    StoredServiceAuditRecordV1)
    ensures
        result@ == terminal_of(head@, audit@),
{
    StoredServiceAuditRecordV1 {
        administration_sequence: audit.terminal_sequence,
        request_id: audit.request_id,
        timestamp: audit.terminal_at,
        operation: audit.operation,
        phase: ServiceAuditPhaseV1::Succeeded,
        principal: copy_optional_audit_principal(&audit.principal),
        ingress: audit.ingress,
        targets: copy_target_list(&audit.targets),
        approval_id: copy_optional_text(&audit.approval_id),
        link: ServiceAuditLinkV1::Command(
            CommandAuditLink {
                commit_sequence: head.parts.commit_sequence,
                provenance_id: head.parts.provenance_id,
            },
        ),
    }
}

/// Makes the five records of a command from its parts, its events and its audited
/// invocation.
pub fn assemble_capsule(
    head: CapsuleHead,
    events: Vec<StoredDurableEventV1>,
    audit: &CommandAuditInvocation,
) -> (result: StoredCommandCapsuleV1)
    ensures
        result@ == capsule_of(head@, event_views(events@), audit@),
{
    let outcome = outcome_from(&head);
    let provenance = provenance_from(&head, &events);
    let started = started_from(audit);
    let terminal = terminal_from(&head, audit);
    StoredCommandCapsuleV1 {
        outcome,
        provenance,
        commit: StoredCommitRecordV1 {
            parts: head.parts,
            entity_references: head.entity_references,
            events,
        },
        started,
        terminal,
    }
}

impl StoredCommandCapsuleV1 {
    /// The parts of the command.
    pub fn head(&self) -> (result: CapsuleHead)
        ensures
            result@ == head_of(self@),
    {
        CapsuleHead {
            identity: self.outcome.base.identity.clone(),
            parts: self.commit.parts.clone(),
            admitted_claims: self.outcome.base.admitted_claims.clone(),
            partition_key: copy_bytes(&self.outcome.base.partition_key),
            causation: self.outcome.causation,
            entity_references: copy_entity_reference_list(&self.commit.entity_references),
            event_references: event_references_of(&self.commit.events),
        }
    }

    /// The audited invocation of the command.
    pub fn invocation(&self) -> (result: CommandAuditInvocation)
        ensures
            result@ == invocation_of(self@),
    {
        CommandAuditInvocation {
            request_id: self.started.request_id,
            operation: self.started.operation,
            principal: copy_optional_audit_principal(&self.started.principal),
            ingress: self.started.ingress,
            targets: copy_target_list(&self.started.targets),
            approval_id: copy_optional_text(&self.started.approval_id),
            started_sequence: self.started.administration_sequence,
            started_at: self.started.timestamp,
            terminal_sequence: self.terminal.administration_sequence,
            terminal_at: self.terminal.timestamp,
        }
    }
}

impl Clone for StoredCommandCapsuleV1 {
    fn clone(&self) -> (result: StoredCommandCapsuleV1)
        ensures
            result@ == self@,
    {
        StoredCommandCapsuleV1 {
            outcome: self.outcome.clone(),
            provenance: self.provenance.clone(),
            commit: self.commit.clone(),
            started: self.started.clone(),
            terminal: self.terminal.clone(),
        }
    }
}

} // verus!
