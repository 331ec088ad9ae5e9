//! Changelog and replication records.

use vstd::prelude::*;

use crate::codec::parts::{copy_optional_text, optional_text_view, Identifier};
use crate::ids::{CommitSequence, Digest, Id64, Timestamp};
use crate::stored::audit::ReplicationFollowerAuditTargetV1;
use crate::stored::common::{AuditPrincipalV1, AuditPrincipalV1View};

verus! {

/// A point of the changelog history.
#[derive(Clone, Copy, Debug, PartialEq, Eq)]
pub struct ChangelogHistoryPointV3 {
    pub sequence: Id64,
    pub history_hash: Digest,
    pub application: Option<CommitSequence>,
    pub administration: Option<Id64>,
}

/// A changelog lineage.
#[derive(Clone, Copy, Debug, PartialEq, Eq)]
pub struct ChangelogLineageV3 {
    pub database_id: Identifier,
    pub history_incarnation: u64,
    pub leadership_epoch: Id64,
    pub catalog_digest: Digest,
}

/// Who owns a source hold.
#[derive(Clone, Copy, Debug, PartialEq, Eq, Structural)]
pub enum ReplicationSourceHoldKindV1 {
    FollowerAcknowledgement,
    ArchiveAcknowledgement,
    Bootstrap,
}

/// A source hold.
#[derive(Clone, Copy, Debug, PartialEq, Eq)]
pub struct ReplicationSourceHoldV1 {
    pub kind: ReplicationSourceHoldKindV1,
    pub hold_id: Identifier,
    pub lineage: ChangelogLineageV3,
    pub fence: ChangelogHistoryPointV3,
}

/// The phase of a follower registration.
#[derive(Clone, Copy, Debug, PartialEq, Eq, Structural)]
pub enum FollowerRegistrationPhaseV1 {
    AwaitingBootstrap,
    Attached,
    Retired,
}

/// A registered source hold.
#[derive(Clone, Copy, Debug, PartialEq, Eq)]
pub struct ReplicationSourceHoldV2 {
    pub hold: ReplicationSourceHoldV1,
    pub registered_at: ChangelogHistoryPointV3,
    pub hold_budget_sequences: u64,
    pub expires_at: Option<CommitSequence>,
    pub phase: FollowerRegistrationPhaseV1,
    pub degraded_at: Option<ChangelogHistoryPointV3>,
    pub generation: Id64,
}

/// An authoritative state catalog by its digest.
#[derive(Clone, Copy, Debug, PartialEq, Eq)]
pub struct AuthoritativeStateCatalog {
    pub catalog_digest: Digest,
}

/// A leadership epoch.
#[derive(Clone, Copy, Debug, PartialEq, Eq)]
pub struct LeadershipEpochV1 {
    pub epoch: Id64,
}

/// The lineage-shared roots of the changelog history.
#[derive(Clone, Copy, Debug, PartialEq, Eq)]
pub struct ChangelogHistoryStateV3 {
    pub lineage: ChangelogLineageV3,
    pub anchor: ChangelogHistoryPointV3,
    pub tail: ChangelogHistoryPointV3,
    pub minimum_resume: ChangelogHistoryPointV3,
}

/// An attached follower's progress.
#[derive(Clone, Copy, Debug, PartialEq, Eq)]
pub struct AttachedFollower {
    pub lineage: ChangelogLineageV3,
    pub applied: ChangelogHistoryPointV3,
    pub acknowledged: Option<ChangelogHistoryPointV3>,
}

/// A replication follower state.
#[derive(Clone, Copy, Debug, PartialEq, Eq)]
pub enum ReplicationFollowerStateV3 {
    Detached,
    Attached(AttachedFollower),
}

/// A source hold as it was before a change.
#[derive(Clone, Copy, Debug, PartialEq, Eq)]
pub enum HoldBefore {
    Absent,
    Legacy(ReplicationSourceHoldV1),
    Registered(ReplicationSourceHoldV2),
}

/// What an explicit request for a change is.
#[verifier::ext_equal]
pub ghost struct ExplicitOriginView {
    pub request_id: Identifier,
    pub principal: AuditPrincipalV1View,
    pub approval_id: Option<Seq<char>>,
}

/// An explicit request for a change.
#[derive(Debug, PartialEq, Eq)]
pub struct ExplicitOrigin {
    pub request_id: Identifier,
    pub principal: AuditPrincipalV1,
    pub approval_id: Option<String>,
}

impl View for ExplicitOrigin {
    type V = ExplicitOriginView;

    open spec fn view(&self) -> ExplicitOriginView {
        ExplicitOriginView {
            request_id: self.request_id,
            principal: self.principal@,
            approval_id: optional_text_view(self.approval_id),
        }
    }
}

impl Clone for ExplicitOrigin {
    fn clone(&self) -> (result: ExplicitOrigin)
        ensures
            result@ == self@,
    {
        ExplicitOrigin {
            request_id: self.request_id,
            principal: self.principal.clone(),
            approval_id: copy_optional_text(&self.approval_id),
        }
    }
}

/// A configured expiry.
#[derive(Clone, Copy, Debug, PartialEq, Eq)]
pub struct ConfiguredExpiryOrigin {
    pub registration: Id64,
}

/// What the origin of a replication change is.
pub ghost enum ReplicationOriginView {
    Explicit(ExplicitOriginView),
    ConfiguredExpiry(ConfiguredExpiryOrigin),
}

/// The origin of a replication change.
#[derive(Debug, PartialEq, Eq)]
pub enum ReplicationAdministrationOriginV1 {
    Explicit(ExplicitOrigin),
    ConfiguredExpiry(ConfiguredExpiryOrigin),
}

impl View for ReplicationAdministrationOriginV1 {
    type V = ReplicationOriginView;

    open spec fn view(&self) -> ReplicationOriginView {
        match self {
            ReplicationAdministrationOriginV1::Explicit(part) =>
                ReplicationOriginView::Explicit(part@),
            ReplicationAdministrationOriginV1::ConfiguredExpiry(part) =>
                ReplicationOriginView::ConfiguredExpiry(*part),
        }
    }
}

impl Clone for ReplicationAdministrationOriginV1 {
    fn clone(&self) -> (result: ReplicationAdministrationOriginV1)
        ensures
            result@ == self@,
    {
        match self {
            ReplicationAdministrationOriginV1::Explicit(part) =>
                ReplicationAdministrationOriginV1::Explicit(part.clone()),
            ReplicationAdministrationOriginV1::ConfiguredExpiry(part) =>
                ReplicationAdministrationOriginV1::ConfiguredExpiry(*part),
        }
    }
}

/// What was done to a follower.
#[derive(Clone, Copy, Debug, PartialEq, Eq, Structural)]
pub enum ReplicationAdministrationActionV1 {
    RegisterFollower,
    RetireFollower,
    ExpireFollower,
}

/// What a replication administration record is.
#[verifier::ext_equal]
pub ghost struct ReplicationAdministrationView {
    pub administration_sequence: Id64,
    pub timestamp: Timestamp,
    pub action: ReplicationAdministrationActionV1,
    pub target: ReplicationFollowerAuditTargetV1,
    pub generation: Id64,
    pub observed: ChangelogHistoryPointV3,
    pub before: HoldBefore,
    pub after: ReplicationSourceHoldV2,
    pub origin: ReplicationOriginView,
}

/// A replication administration record.
#[derive(Debug, PartialEq, Eq)]
pub struct StoredReplicationAdministrationV1 {
    pub administration_sequence: Id64,
    pub timestamp: Timestamp,
    pub action: ReplicationAdministrationActionV1,
    pub target: ReplicationFollowerAuditTargetV1,
    pub generation: Id64,
    pub observed: ChangelogHistoryPointV3,
    pub before: HoldBefore,
    pub after: ReplicationSourceHoldV2,
    pub origin: ReplicationAdministrationOriginV1,
}

impl View for StoredReplicationAdministrationV1 {
    type V = ReplicationAdministrationView;

    open spec fn view(&self) -> ReplicationAdministrationView {
        ReplicationAdministrationView {
            administration_sequence: self.administration_sequence,
            timestamp: self.timestamp,
            action: self.action,
            target: self.target,
            generation: self.generation,
            observed: self.observed,
            before: self.before,
            after: self.after,
            origin: self.origin@,
        }
    }
}

impl Clone for StoredReplicationAdministrationV1 {
    fn clone(&self) -> (result: StoredReplicationAdministrationV1)
        ensures
            result@ == self@,
    {
        StoredReplicationAdministrationV1 {
            administration_sequence: self.administration_sequence,
            timestamp: self.timestamp,
            action: self.action,
            target: self.target,
            generation: self.generation,
            observed: self.observed,
            before: self.before,
            after: self.after,
            origin: self.origin.clone(),
        }
    }
}

/// What a primary fence record is.
#[verifier::ext_equal]
pub ghost struct PrimaryFenceView {
    pub administration_sequence: Id64,
    pub timestamp: Timestamp,
    pub operation_id: Identifier,
    pub request_id: Identifier,
    pub principal: AuditPrincipalV1View,
    pub approval_id: Option<Seq<char>>,
    pub target: ReplicationFollowerAuditTargetV1,
    pub generation: Id64,
    pub observed: ChangelogHistoryPointV3,
}

/// A primary fence record.
#[derive(Debug, PartialEq, Eq)]
pub struct StoredPrimaryFenceAdministrationV1 {
    pub administration_sequence: Id64,
    pub timestamp: Timestamp,
    pub operation_id: Identifier,
    pub request_id: Identifier,
    pub principal: AuditPrincipalV1,
    pub approval_id: Option<String>,
    pub target: ReplicationFollowerAuditTargetV1,
    pub generation: Id64,
    pub observed: ChangelogHistoryPointV3,
}

impl View for StoredPrimaryFenceAdministrationV1 {
    type V = PrimaryFenceView;

    open spec fn view(&self) -> PrimaryFenceView {
        PrimaryFenceView {
            administration_sequence: self.administration_sequence,
            timestamp: self.timestamp,
            operation_id: self.operation_id,
            request_id: self.request_id,
            principal: self.principal@,
            approval_id: optional_text_view(self.approval_id),
            target: self.target,
            generation: self.generation,
            observed: self.observed,
        }
    }
}

impl Clone for StoredPrimaryFenceAdministrationV1 {
    fn clone(&self) -> (result: StoredPrimaryFenceAdministrationV1)
        ensures
            result@ == self@,
    {
        StoredPrimaryFenceAdministrationV1 {
            administration_sequence: self.administration_sequence,
            timestamp: self.timestamp,
            operation_id: self.operation_id,
            request_id: self.request_id,
            principal: self.principal.clone(),
            approval_id: copy_optional_text(&self.approval_id),
            target: self.target,
            generation: self.generation,
            observed: self.observed,
        }
    }
}

/// An active primary's lineage.
#[derive(Clone, Copy, Debug, PartialEq, Eq)]
pub struct ActiveAdmission {
    pub database_id: Identifier,
    pub history_incarnation: u64,
    pub leadership_epoch: Id64,
}

/// What a primary's admission state is.
pub ghost enum PrimaryAdmissionView {
    Active(ActiveAdmission),
    Fenced(PrimaryFenceView),
}

/// A primary's admission state.
#[derive(Debug, PartialEq, Eq)]
pub enum ReplicationPrimaryAdmissionV1 {
    Active(ActiveAdmission),
    Fenced(StoredPrimaryFenceAdministrationV1),
}

impl View for ReplicationPrimaryAdmissionV1 {
    type V = PrimaryAdmissionView;

    open spec fn view(&self) -> PrimaryAdmissionView {
        match self {
            ReplicationPrimaryAdmissionV1::Active(part) => PrimaryAdmissionView::Active(*part),
            ReplicationPrimaryAdmissionV1::Fenced(part) => PrimaryAdmissionView::Fenced(part@),
        }
    }
}

impl Clone for ReplicationPrimaryAdmissionV1 {
    fn clone(&self) -> (result: ReplicationPrimaryAdmissionV1)
        ensures
            result@ == self@,
    {
        match self {
            ReplicationPrimaryAdmissionV1::Active(part) =>
                ReplicationPrimaryAdmissionV1::Active(*part),
            ReplicationPrimaryAdmissionV1::Fenced(part) =>
                ReplicationPrimaryAdmissionV1::Fenced(part.clone()),
        }
    }
}

/// A step of a promotion attempt.
#[derive(Clone, Copy, Debug, PartialEq, Eq, Structural)]
pub enum ReplicationPromotionStepV1 {
    Attempted,
    Draining,
    Offline,
    Selected,
    CutoverPending,
    StorageUnavailable,
    ValidationFailed,
}

/// What a promotion selected is.
#[verifier::ext_equal]
pub ghost struct PromotionSelectionView {
    pub fence: PrimaryFenceView,
    pub applied: ChangelogHistoryPointV3,
    pub source_history: ChangelogHistoryStateV3,
    pub published_incarnation: u64,
    pub published_epoch: Id64,
    pub application_rpo: u64,
}

/// What a promotion selected.
#[derive(Debug, PartialEq, Eq)]
pub struct PromotionSelection {
    pub fence: StoredPrimaryFenceAdministrationV1,
    pub applied: ChangelogHistoryPointV3,
    pub source_history: ChangelogHistoryStateV3,
    pub published_incarnation: u64,
    pub published_epoch: Id64,
    pub application_rpo: u64,
}

impl View for PromotionSelection {
    type V = PromotionSelectionView;

    open spec fn view(&self) -> PromotionSelectionView {
        PromotionSelectionView {
            fence: self.fence@,
            applied: self.applied,
            source_history: self.source_history,
            published_incarnation: self.published_incarnation,
            published_epoch: self.published_epoch,
            application_rpo: self.application_rpo,
        }
    }
}

/// What a promotion attempt is.
#[verifier::ext_equal]
pub ghost struct PromotionAttemptView {
    pub administration_sequence: Id64,
    pub timestamp: Timestamp,
    pub promotion_operation_id: Identifier,
    pub request_id: Identifier,
    pub principal: AuditPrincipalV1View,
    pub approval_id: Option<Seq<char>>,
    pub attempted_at: Timestamp,
    pub selection: Option<PromotionSelectionView>,
    pub steps: Seq<Option<ReplicationPromotionStepV1>>,
    pub ingress: u8,
}

impl PromotionAttemptView {
    /// The record of the attempt: there is one where something was selected and every
    /// step is one that a record can hold.
    pub open spec fn record(self) -> Option<PromotionAdministrationView> {
        match self.selection {
            Some(selection) if all_steps_held(self.steps) => Some(
                PromotionAdministrationView {
                    administration_sequence: self.administration_sequence,
                    timestamp: self.timestamp,
                    promotion_operation_id: self.promotion_operation_id,
                    request_id: self.request_id,
                    principal: self.principal,
                    approval_id: self.approval_id,
                    attempted_at: self.attempted_at,
                    fence: selection.fence,
                    applied: selection.applied,
                    source_history: selection.source_history,
                    published_incarnation: selection.published_incarnation,
                    published_epoch: selection.published_epoch,
                    application_rpo: selection.application_rpo,
                    steps: held_steps(self.steps),
                    ingress: self.ingress,
                },
            ),
            _ => None,
        }
    }
}

/// Whether every step is one that a record can hold.
pub open spec fn all_steps_held(steps: Seq<Option<ReplicationPromotionStepV1>>) -> bool {
    forall|i: int| 0 <= i < steps.len() ==> (#[trigger] steps[i]) is Some
}

/// The steps that a record can hold, where all are.
pub open spec fn held_steps(steps: Seq<Option<ReplicationPromotionStepV1>>) -> Seq<
    ReplicationPromotionStepV1,
> {
    Seq::new(steps.len(), |i: int| steps[i]->Some_0)
}

/// A promotion attempt: it may have selected nothing yet, and a step that no record holds
/// stands as none.
#[derive(Debug, PartialEq, Eq)]
pub struct PromotionAttempt {
    pub administration_sequence: Id64,
    pub timestamp: Timestamp,
    pub promotion_operation_id: Identifier,
    pub request_id: Identifier,
    pub principal: AuditPrincipalV1,
    pub approval_id: Option<String>,
    pub attempted_at: Timestamp,
    pub selection: Option<PromotionSelection>,
    pub steps: Vec<Option<ReplicationPromotionStepV1>>,
    pub ingress: u8,
}

impl View for PromotionAttempt {
    type V = PromotionAttemptView;

    open spec fn view(&self) -> PromotionAttemptView {
        PromotionAttemptView {
            administration_sequence: self.administration_sequence,
            timestamp: self.timestamp,
            promotion_operation_id: self.promotion_operation_id,
            request_id: self.request_id,
            principal: self.principal@,
            approval_id: optional_text_view(self.approval_id),
            attempted_at: self.attempted_at,
            selection: match self.selection {
                Some(selection) => Some(selection@),
                None => None,
            },
            steps: self.steps@,
            ingress: self.ingress,
        }
    }
}

impl PromotionAttempt {
    fn held_steps(&self) -> (result: Option<Vec<ReplicationPromotionStepV1>>)
        ensures
            match result {
                Some(steps) => all_steps_held(self@.steps) && steps@ == held_steps(self@.steps),
                None => !all_steps_held(self@.steps),
            },
    {
        let mut result: Vec<ReplicationPromotionStepV1> = Vec::new();
        let mut i: usize = 0;
        while i < self.steps.len()
            invariant
                i <= self.steps@.len(),
                result@.len() == i,
                forall|k: int|
                    0 <= k < i ==> (#[trigger] self.steps@[k]) == Some(result@[k]),
            decreases self.steps@.len() - i,
        {
            match self.steps[i] {
                Some(step) => {
                    result.push(step);
                },
                None => {
                    return None;
                },
            }
            i += 1;
        }
        assert(result@ =~= held_steps(self@.steps));
        Some(result)
    }

    /// The record of the attempt, if it has one.
    pub fn record(&self) -> (result: Option<StoredPromotionAdministrationV1>)
        ensures
            match result {
                Some(record) => self@.record() == Some(record@),
                None => self@.record() is None,
            },
    {
        let selection = match &self.selection {
            Some(selection) => selection,
            None => {
                return None;
            },
        };
        let steps = match self.held_steps() {
            Some(steps) => steps,
            None => {
                return None;
            },
        };
        Some(
            StoredPromotionAdministrationV1 {
                administration_sequence: self.administration_sequence,
                timestamp: self.timestamp,
                promotion_operation_id: self.promotion_operation_id,
                request_id: self.request_id,
                principal: self.principal.clone(),
                approval_id: copy_optional_text(&self.approval_id),
                attempted_at: self.attempted_at,
                fence: selection.fence.clone(),
                applied: selection.applied,
                source_history: selection.source_history,
                published_incarnation: selection.published_incarnation,
                published_epoch: selection.published_epoch,
                application_rpo: selection.application_rpo,
                steps,
                ingress: self.ingress,
            },
        )
    }
}

/// What a promotion administration record is.
#[verifier::ext_equal]
pub ghost struct PromotionAdministrationView {
    pub administration_sequence: Id64,
    pub timestamp: Timestamp,
    pub promotion_operation_id: Identifier,
    pub request_id: Identifier,
    pub principal: AuditPrincipalV1View,
    pub approval_id: Option<Seq<char>>,
    pub attempted_at: Timestamp,
    pub fence: PrimaryFenceView,
    pub applied: ChangelogHistoryPointV3,
    pub source_history: ChangelogHistoryStateV3,
    pub published_incarnation: u64,
    pub published_epoch: Id64,
    pub application_rpo: u64,
    pub steps: Seq<ReplicationPromotionStepV1>,
    pub ingress: u8,
}

/// A promotion administration record.
#[derive(Debug, PartialEq, Eq)]
pub struct StoredPromotionAdministrationV1 {
    pub administration_sequence: Id64,
    pub timestamp: Timestamp,
    pub promotion_operation_id: Identifier,
    pub request_id: Identifier,
    pub principal: AuditPrincipalV1,
    pub approval_id: Option<String>,
    pub attempted_at: Timestamp,
    pub fence: StoredPrimaryFenceAdministrationV1,
    pub applied: ChangelogHistoryPointV3,
    pub source_history: ChangelogHistoryStateV3,
    pub published_incarnation: u64,
    pub published_epoch: Id64,
    pub application_rpo: u64,
    pub steps: Vec<ReplicationPromotionStepV1>,
    pub ingress: u8,
}

impl View for StoredPromotionAdministrationV1 {
    type V = PromotionAdministrationView;

    open spec fn view(&self) -> PromotionAdministrationView {
        PromotionAdministrationView {
            administration_sequence: self.administration_sequence,
            timestamp: self.timestamp,
            promotion_operation_id: self.promotion_operation_id,
            request_id: self.request_id,
            principal: self.principal@,
            approval_id: optional_text_view(self.approval_id),
            attempted_at: self.attempted_at,
            fence: self.fence@,
            applied: self.applied,
            source_history: self.source_history,
            published_incarnation: self.published_incarnation,
            published_epoch: self.published_epoch,
            application_rpo: self.application_rpo,
            steps: self.steps@,
            ingress: self.ingress,
        }
    }
}

impl Clone for StoredPromotionAdministrationV1 {
    fn clone(&self) -> (result: StoredPromotionAdministrationV1)
        ensures
            result@ == self@,
    {
        StoredPromotionAdministrationV1 {
            administration_sequence: self.administration_sequence,
            timestamp: self.timestamp,
            promotion_operation_id: self.promotion_operation_id,
            request_id: self.request_id,
            principal: self.principal.clone(),
            approval_id: copy_optional_text(&self.approval_id),
            attempted_at: self.attempted_at,
            fence: self.fence.clone(),
            applied: self.applied,
            source_history: self.source_history,
            published_incarnation: self.published_incarnation,
            published_epoch: self.published_epoch,
            application_rpo: self.application_rpo,
            steps: copy_promotion_step_list(&self.steps),
            ingress: self.ingress,
        }
    }
}

/// Copies a list of such values.
pub fn copy_promotion_step_list(
    values: &[ReplicationPromotionStepV1],
) -> (result: Vec<ReplicationPromotionStepV1>)
    ensures
        result@ == values@,
{
    let mut result: Vec<ReplicationPromotionStepV1> = Vec::new();
    let mut i: usize = 0;
    while i < values.len()
        invariant
            i <= values@.len(),
            result@ == values@.take(i as int),
        decreases values@.len() - i,
    {
        result.push(values[i]);
        i += 1;
        assert(result@ =~= values@.take(i as int));
    }
    assert(result@ =~= values@);
    result
}

} // verus!
