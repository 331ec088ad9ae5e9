//! The closed set of registered durable record types.

use vstd::prelude::*;

verus! {

/// One registered durable record type.
#[derive(Clone, Copy, Debug, PartialEq, Eq, Structural)]
pub enum RecordType {
    ActiveCatalogPointerV1,
    CapabilityAdministrationAuditV1,
    CapabilityBootstrapMarkerV1,
    CapabilityRecordV1,
    CapabilityRecordV2,
    CapabilityRecordV3,
    CapabilityRecordV4,
    CapabilityRecordV5,
    CapabilityRecordV6,
    CapabilityTokenLookupV1,
    ReplicationPrimaryAdmissionV1,
    ServiceAuditRecordV1,
    ServiceAuditRecordV3,
    StoredAdministrationSequenceAllocatorV1,
    StoredApplicationExportOperationV1,
    StoredApplicationExportOperationV2,
    StoredApplicationExportPageCommitmentV1,
    StoredApplicationInstallationCampaignV1,
    StoredApplicationSequenceAllocatorV1,
    StoredAuthoritativeStateCatalogV1,
    StoredCatalogAdministrationV1,
    StoredChangelogHistoryStateV3,
    StoredChangelogV2RotationReceiptV1,
    StoredColumnarProjectionControlV1,
    StoredCommandAuditLocatorV1,
    StoredCommandCapsuleV1,
    StoredCommandCapsuleV2,
    StoredCommandCapsuleV3,
    StoredCommandCapsuleV4,
    StoredCommandCapsuleV5,
    StoredCommandCapsuleV6,
    StoredCommandDerivedIndexCheckpointV1,
    StoredCommandLocatorV1,
    StoredCommandSegmentV1,
    StoredCommandSegmentV2,
    StoredCommandSegmentV3,
    StoredCommandSegmentV4,
    StoredCommandSegmentV5,
    StoredCommitRecordV1,
    StoredCommitRecordV2,
    StoredCommitRecordV3,
    StoredContractBundleV1,
    StoredContractMigrationJournalV1,
    StoredContractMigrationRecordV1,
    StoredContractWriteRetirementV1,
    StoredDatabaseIdentityV1,
    StoredDurableEventV1,
    StoredEntityChainHeadV1,
    StoredEntityRecordV1,
    StoredEventConsumerDeliveryV1,
    StoredEventConsumerV1,
    StoredEventRouteV1,
    StoredExecutionFailedV1,
    StoredExecutionFailedV2,
    StoredHistoryIncarnationV1,
    StoredIndexEntryV1,
    StoredIndexEntryV2,
    StoredIndexEpochV1,
    StoredIndexGenerationV2,
    StoredLeadershipEpochV1,
    StoredOutboxIntentV1,
    StoredOutboxIntentV2,
    StoredOutboxStatusV1,
    StoredOutcomeV1,
    StoredOutcomeV2,
    StoredOutcomeV3,
    StoredPendingAdmissionV1,
    StoredPendingAdmissionV2,
    StoredPrimaryFenceAdministrationV1,
    StoredProjectionApplyV1,
    StoredProjectionControlV1,
    StoredProjectionStateV1,
    StoredPromotionAdministrationV1,
    StoredProvenanceRecordV1,
    StoredProvenanceRecordV2,
    StoredRecordRegistryV2,
    StoredReplicationAdministrationV1,
    StoredReplicationFollowerStateV3,
    StoredReplicationSourceHoldV1,
    StoredReplicationSourceHoldV2,
    StoredRetiredEntityRecordV1,
    StoredServiceAuditRequestIndexV1,
    StoredStorageFormatVersionV1,
}

/// The registered name of a record type.
pub open spec fn registered_name(record_type: RecordType) -> Seq<char> {
    match record_type {
        RecordType::ActiveCatalogPointerV1 => "riffdb.storage.v1.ActiveCatalogPointerV1"@,
        RecordType::CapabilityAdministrationAuditV1 =>
            "riffdb.storage.v1.CapabilityAdministrationAuditV1"@,
        RecordType::CapabilityBootstrapMarkerV1 => "riffdb.storage.v1.CapabilityBootstrapMarkerV1"@,
        RecordType::CapabilityRecordV1 => "riffdb.storage.v1.CapabilityRecordV1"@,
        RecordType::CapabilityRecordV2 => "riffdb.storage.v1.CapabilityRecordV2"@,
        RecordType::CapabilityRecordV3 => "riffdb.storage.v1.CapabilityRecordV3"@,
        RecordType::CapabilityRecordV4 => "riffdb.storage.v1.CapabilityRecordV4"@,
        RecordType::CapabilityRecordV5 => "riffdb.storage.v1.CapabilityRecordV5"@,
        RecordType::CapabilityRecordV6 => "riffdb.storage.v1.CapabilityRecordV6"@,
        RecordType::CapabilityTokenLookupV1 => "riffdb.storage.v1.CapabilityTokenLookupV1"@,
        RecordType::ReplicationPrimaryAdmissionV1 =>
            "riffdb.storage.v1.ReplicationPrimaryAdmissionV1"@,
        RecordType::ServiceAuditRecordV1 => "riffdb.storage.v1.ServiceAuditRecordV1"@,
        RecordType::ServiceAuditRecordV3 => "riffdb.storage.v1.ServiceAuditRecordV3"@,
        RecordType::StoredAdministrationSequenceAllocatorV1 =>
            "riffdb.storage.v1.StoredAdministrationSequenceAllocatorV1"@,
        RecordType::StoredApplicationExportOperationV1 =>
            "riffdb.storage.v1.StoredApplicationExportOperationV1"@,
        RecordType::StoredApplicationExportOperationV2 =>
            "riffdb.storage.v1.StoredApplicationExportOperationV2"@,
        RecordType::StoredApplicationExportPageCommitmentV1 =>
            "riffdb.storage.v1.StoredApplicationExportPageCommitmentV1"@,
        RecordType::StoredApplicationInstallationCampaignV1 =>
            "riffdb.storage.v1.StoredApplicationInstallationCampaignV1"@,
        RecordType::StoredApplicationSequenceAllocatorV1 =>
            "riffdb.storage.v1.StoredApplicationSequenceAllocatorV1"@,
        RecordType::StoredAuthoritativeStateCatalogV1 =>
            "riffdb.storage.v1.StoredAuthoritativeStateCatalogV1"@,
        RecordType::StoredCatalogAdministrationV1 =>
            "riffdb.storage.v1.StoredCatalogAdministrationV1"@,
        RecordType::StoredChangelogHistoryStateV3 =>
            "riffdb.storage.v1.StoredChangelogHistoryStateV3"@,
        RecordType::StoredChangelogV2RotationReceiptV1 =>
            "riffdb.storage.v1.StoredChangelogV2RotationReceiptV1"@,
        RecordType::StoredColumnarProjectionControlV1 =>
            "riffdb.storage.v1.StoredColumnarProjectionControlV1"@,
        RecordType::StoredCommandAuditLocatorV1 => "riffdb.storage.v1.StoredCommandAuditLocatorV1"@,
        RecordType::StoredCommandCapsuleV1 => "riffdb.storage.v1.StoredCommandCapsuleV1"@,
        RecordType::StoredCommandCapsuleV2 => "riffdb.storage.v1.StoredCommandCapsuleV2"@,
        RecordType::StoredCommandCapsuleV3 => "riffdb.storage.v1.StoredCommandCapsuleV3"@,
        RecordType::StoredCommandCapsuleV4 => "riffdb.storage.v1.StoredCommandCapsuleV4"@,
        RecordType::StoredCommandCapsuleV5 => "riffdb.storage.v1.StoredCommandCapsuleV5"@,
        RecordType::StoredCommandCapsuleV6 => "riffdb.storage.v1.StoredCommandCapsuleV6"@,
        RecordType::StoredCommandDerivedIndexCheckpointV1 =>
            "riffdb.storage.v1.StoredCommandDerivedIndexCheckpointV1"@,
        RecordType::StoredCommandLocatorV1 => "riffdb.storage.v1.StoredCommandLocatorV1"@,
        RecordType::StoredCommandSegmentV1 => "riffdb.storage.v1.StoredCommandSegmentV1"@,
        RecordType::StoredCommandSegmentV2 => "riffdb.storage.v1.StoredCommandSegmentV2"@,
        RecordType::StoredCommandSegmentV3 => "riffdb.storage.v1.StoredCommandSegmentV3"@,
        RecordType::StoredCommandSegmentV4 => "riffdb.storage.v1.StoredCommandSegmentV4"@,
        RecordType::StoredCommandSegmentV5 => "riffdb.storage.v1.StoredCommandSegmentV5"@,
        RecordType::StoredCommitRecordV1 => "riffdb.storage.v1.StoredCommitRecordV1"@,
        RecordType::StoredCommitRecordV2 => "riffdb.storage.v1.StoredCommitRecordV2"@,
        RecordType::StoredCommitRecordV3 => "riffdb.storage.v1.StoredCommitRecordV3"@,
        RecordType::StoredContractBundleV1 => "riffdb.storage.v1.StoredContractBundleV1"@,
        RecordType::StoredContractMigrationJournalV1 =>
            "riffdb.storage.v1.StoredContractMigrationJournalV1"@,
        RecordType::StoredContractMigrationRecordV1 =>
            "riffdb.storage.v1.StoredContractMigrationRecordV1"@,
        RecordType::StoredContractWriteRetirementV1 =>
            "riffdb.storage.v1.StoredContractWriteRetirementV1"@,
        RecordType::StoredDatabaseIdentityV1 => "riffdb.storage.v1.StoredDatabaseIdentityV1"@,
        RecordType::StoredDurableEventV1 => "riffdb.storage.v1.StoredDurableEventV1"@,
        RecordType::StoredEntityChainHeadV1 => "riffdb.storage.v1.StoredEntityChainHeadV1"@,
        RecordType::StoredEntityRecordV1 => "riffdb.storage.v1.StoredEntityRecordV1"@,
        RecordType::StoredEventConsumerDeliveryV1 =>
            "riffdb.storage.v1.StoredEventConsumerDeliveryV1"@,
        RecordType::StoredEventConsumerV1 => "riffdb.storage.v1.StoredEventConsumerV1"@,
        RecordType::StoredEventRouteV1 => "riffdb.storage.v1.StoredEventRouteV1"@,
        RecordType::StoredExecutionFailedV1 => "riffdb.storage.v1.StoredExecutionFailedV1"@,
        RecordType::StoredExecutionFailedV2 => "riffdb.storage.v1.StoredExecutionFailedV2"@,
        RecordType::StoredHistoryIncarnationV1 => "riffdb.storage.v1.StoredHistoryIncarnationV1"@,
        RecordType::StoredIndexEntryV1 => "riffdb.storage.v1.StoredIndexEntryV1"@,
        RecordType::StoredIndexEntryV2 => "riffdb.storage.v1.StoredIndexEntryV2"@,
        RecordType::StoredIndexEpochV1 => "riffdb.storage.v1.StoredIndexEpochV1"@,
        RecordType::StoredIndexGenerationV2 => "riffdb.storage.v1.StoredIndexGenerationV2"@,
        RecordType::StoredLeadershipEpochV1 => "riffdb.storage.v1.StoredLeadershipEpochV1"@,
        RecordType::StoredOutboxIntentV1 => "riffdb.storage.v1.StoredOutboxIntentV1"@,
        RecordType::StoredOutboxIntentV2 => "riffdb.storage.v1.StoredOutboxIntentV2"@,
        RecordType::StoredOutboxStatusV1 => "riffdb.storage.v1.StoredOutboxStatusV1"@,
        RecordType::StoredOutcomeV1 => "riffdb.storage.v1.StoredOutcomeV1"@,
        RecordType::StoredOutcomeV2 => "riffdb.storage.v1.StoredOutcomeV2"@,
        RecordType::StoredOutcomeV3 => "riffdb.storage.v1.StoredOutcomeV3"@,
        RecordType::StoredPendingAdmissionV1 => "riffdb.storage.v1.StoredPendingAdmissionV1"@,
        RecordType::StoredPendingAdmissionV2 => "riffdb.storage.v1.StoredPendingAdmissionV2"@,
        RecordType::StoredPrimaryFenceAdministrationV1 =>
            "riffdb.storage.v1.StoredPrimaryFenceAdministrationV1"@,
        RecordType::StoredProjectionApplyV1 => "riffdb.storage.v1.StoredProjectionApplyV1"@,
        RecordType::StoredProjectionControlV1 => "riffdb.storage.v1.StoredProjectionControlV1"@,
        RecordType::StoredProjectionStateV1 => "riffdb.storage.v1.StoredProjectionStateV1"@,
        RecordType::StoredPromotionAdministrationV1 =>
            "riffdb.storage.v1.StoredPromotionAdministrationV1"@,
        RecordType::StoredProvenanceRecordV1 => "riffdb.storage.v1.StoredProvenanceRecordV1"@,
        RecordType::StoredProvenanceRecordV2 => "riffdb.storage.v1.StoredProvenanceRecordV2"@,
        RecordType::StoredRecordRegistryV2 => "riffdb.storage.v1.StoredRecordRegistryV2"@,
        RecordType::StoredReplicationAdministrationV1 =>
            "riffdb.storage.v1.StoredReplicationAdministrationV1"@,
        RecordType::StoredReplicationFollowerStateV3 =>
            "riffdb.storage.v1.StoredReplicationFollowerStateV3"@,
        RecordType::StoredReplicationSourceHoldV1 =>
            "riffdb.storage.v1.StoredReplicationSourceHoldV1"@,
        RecordType::StoredReplicationSourceHoldV2 =>
            "riffdb.storage.v1.StoredReplicationSourceHoldV2"@,
        RecordType::StoredRetiredEntityRecordV1 => "riffdb.storage.v1.StoredRetiredEntityRecordV1"@,
        RecordType::StoredServiceAuditRequestIndexV1 =>
            "riffdb.storage.v1.StoredServiceAuditRequestIndexV1"@,
        RecordType::StoredStorageFormatVersionV1 =>
            "riffdb.storage.v1.StoredStorageFormatVersionV1"@,
    }
}

impl RecordType {
    /// Returns the registered name.
    pub fn name(self) -> (result: &'static str)
        ensures
            result@ == registered_name(self),
    {
        match self {
            RecordType::ActiveCatalogPointerV1 => "riffdb.storage.v1.ActiveCatalogPointerV1",
            RecordType::CapabilityAdministrationAuditV1 =>
                "riffdb.storage.v1.CapabilityAdministrationAuditV1",
            RecordType::CapabilityBootstrapMarkerV1 =>
                "riffdb.storage.v1.CapabilityBootstrapMarkerV1",
            RecordType::CapabilityRecordV1 => "riffdb.storage.v1.CapabilityRecordV1",
            RecordType::CapabilityRecordV2 => "riffdb.storage.v1.CapabilityRecordV2",
            RecordType::CapabilityRecordV3 => "riffdb.storage.v1.CapabilityRecordV3",
            RecordType::CapabilityRecordV4 => "riffdb.storage.v1.CapabilityRecordV4",
            RecordType::CapabilityRecordV5 => "riffdb.storage.v1.CapabilityRecordV5",
            RecordType::CapabilityRecordV6 => "riffdb.storage.v1.CapabilityRecordV6",
            RecordType::CapabilityTokenLookupV1 => "riffdb.storage.v1.CapabilityTokenLookupV1",
            RecordType::ReplicationPrimaryAdmissionV1 =>
                "riffdb.storage.v1.ReplicationPrimaryAdmissionV1",
            RecordType::ServiceAuditRecordV1 => "riffdb.storage.v1.ServiceAuditRecordV1",
            RecordType::ServiceAuditRecordV3 => "riffdb.storage.v1.ServiceAuditRecordV3",
            RecordType::StoredAdministrationSequenceAllocatorV1 =>
                "riffdb.storage.v1.StoredAdministrationSequenceAllocatorV1",
            RecordType::StoredApplicationExportOperationV1 =>
                "riffdb.storage.v1.StoredApplicationExportOperationV1",
            RecordType::StoredApplicationExportOperationV2 =>
                "riffdb.storage.v1.StoredApplicationExportOperationV2",
            RecordType::StoredApplicationExportPageCommitmentV1 =>
                "riffdb.storage.v1.StoredApplicationExportPageCommitmentV1",
            RecordType::StoredApplicationInstallationCampaignV1 =>
                "riffdb.storage.v1.StoredApplicationInstallationCampaignV1",
            RecordType::StoredApplicationSequenceAllocatorV1 =>
                "riffdb.storage.v1.StoredApplicationSequenceAllocatorV1",
            RecordType::StoredAuthoritativeStateCatalogV1 =>
                "riffdb.storage.v1.StoredAuthoritativeStateCatalogV1",
            RecordType::StoredCatalogAdministrationV1 =>
                "riffdb.storage.v1.StoredCatalogAdministrationV1",
            RecordType::StoredChangelogHistoryStateV3 =>
                "riffdb.storage.v1.StoredChangelogHistoryStateV3",
            RecordType::StoredChangelogV2RotationReceiptV1 =>
                "riffdb.storage.v1.StoredChangelogV2RotationReceiptV1",
            RecordType::StoredColumnarProjectionControlV1 =>
                "riffdb.storage.v1.StoredColumnarProjectionControlV1",
            RecordType::StoredCommandAuditLocatorV1 =>
                "riffdb.storage.v1.StoredCommandAuditLocatorV1",
            RecordType::StoredCommandCapsuleV1 => "riffdb.storage.v1.StoredCommandCapsuleV1",
            RecordType::StoredCommandCapsuleV2 => "riffdb.storage.v1.StoredCommandCapsuleV2",
            RecordType::StoredCommandCapsuleV3 => "riffdb.storage.v1.StoredCommandCapsuleV3",
            RecordType::StoredCommandCapsuleV4 => "riffdb.storage.v1.StoredCommandCapsuleV4",
            RecordType::StoredCommandCapsuleV5 => "riffdb.storage.v1.StoredCommandCapsuleV5",
            RecordType::StoredCommandCapsuleV6 => "riffdb.storage.v1.StoredCommandCapsuleV6",
            RecordType::StoredCommandDerivedIndexCheckpointV1 =>
                "riffdb.storage.v1.StoredCommandDerivedIndexCheckpointV1",
            RecordType::StoredCommandLocatorV1 => "riffdb.storage.v1.StoredCommandLocatorV1",
            RecordType::StoredCommandSegmentV1 => "riffdb.storage.v1.StoredCommandSegmentV1",
            RecordType::StoredCommandSegmentV2 => "riffdb.storage.v1.StoredCommandSegmentV2",
            RecordType::StoredCommandSegmentV3 => "riffdb.storage.v1.StoredCommandSegmentV3",
            RecordType::StoredCommandSegmentV4 => "riffdb.storage.v1.StoredCommandSegmentV4",
            RecordType::StoredCommandSegmentV5 => "riffdb.storage.v1.StoredCommandSegmentV5",
            RecordType::StoredCommitRecordV1 => "riffdb.storage.v1.StoredCommitRecordV1",
            RecordType::StoredCommitRecordV2 => "riffdb.storage.v1.StoredCommitRecordV2",
            RecordType::StoredCommitRecordV3 => "riffdb.storage.v1.StoredCommitRecordV3",
            RecordType::StoredContractBundleV1 => "riffdb.storage.v1.StoredContractBundleV1",
            RecordType::StoredContractMigrationJournalV1 =>
                "riffdb.storage.v1.StoredContractMigrationJournalV1",
            RecordType::StoredContractMigrationRecordV1 =>
                "riffdb.storage.v1.StoredContractMigrationRecordV1",
            RecordType::StoredContractWriteRetirementV1 =>
                "riffdb.storage.v1.StoredContractWriteRetirementV1",
            RecordType::StoredDatabaseIdentityV1 => "riffdb.storage.v1.StoredDatabaseIdentityV1",
            RecordType::StoredDurableEventV1 => "riffdb.storage.v1.StoredDurableEventV1",
            RecordType::StoredEntityChainHeadV1 => "riffdb.storage.v1.StoredEntityChainHeadV1",
            RecordType::StoredEntityRecordV1 => "riffdb.storage.v1.StoredEntityRecordV1",
            RecordType::StoredEventConsumerDeliveryV1 =>
                "riffdb.storage.v1.StoredEventConsumerDeliveryV1",
            RecordType::StoredEventConsumerV1 => "riffdb.storage.v1.StoredEventConsumerV1",
            RecordType::StoredEventRouteV1 => "riffdb.storage.v1.StoredEventRouteV1",
            RecordType::StoredExecutionFailedV1 => "riffdb.storage.v1.StoredExecutionFailedV1",
            RecordType::StoredExecutionFailedV2 => "riffdb.storage.v1.StoredExecutionFailedV2",
            RecordType::StoredHistoryIncarnationV1 =>
                "riffdb.storage.v1.StoredHistoryIncarnationV1",
            RecordType::StoredIndexEntryV1 => "riffdb.storage.v1.StoredIndexEntryV1",
            RecordType::StoredIndexEntryV2 => "riffdb.storage.v1.StoredIndexEntryV2",
            RecordType::StoredIndexEpochV1 => "riffdb.storage.v1.StoredIndexEpochV1",
            RecordType::StoredIndexGenerationV2 => "riffdb.storage.v1.StoredIndexGenerationV2",
            RecordType::StoredLeadershipEpochV1 => "riffdb.storage.v1.StoredLeadershipEpochV1",
            RecordType::StoredOutboxIntentV1 => "riffdb.storage.v1.StoredOutboxIntentV1",
            RecordType::StoredOutboxIntentV2 => "riffdb.storage.v1.StoredOutboxIntentV2",
            RecordType::StoredOutboxStatusV1 => "riffdb.storage.v1.StoredOutboxStatusV1",
            RecordType::StoredOutcomeV1 => "riffdb.storage.v1.StoredOutcomeV1",
            RecordType::StoredOutcomeV2 => "riffdb.storage.v1.StoredOutcomeV2",
            RecordType::StoredOutcomeV3 => "riffdb.storage.v1.StoredOutcomeV3",
            RecordType::StoredPendingAdmissionV1 => "riffdb.storage.v1.StoredPendingAdmissionV1",
            RecordType::StoredPendingAdmissionV2 => "riffdb.storage.v1.StoredPendingAdmissionV2",
            RecordType::StoredPrimaryFenceAdministrationV1 =>
                "riffdb.storage.v1.StoredPrimaryFenceAdministrationV1",
            RecordType::StoredProjectionApplyV1 => "riffdb.storage.v1.StoredProjectionApplyV1",
            RecordType::StoredProjectionControlV1 => "riffdb.storage.v1.StoredProjectionControlV1",
            RecordType::StoredProjectionStateV1 => "riffdb.storage.v1.StoredProjectionStateV1",
            RecordType::StoredPromotionAdministrationV1 =>
                "riffdb.storage.v1.StoredPromotionAdministrationV1",
            RecordType::StoredProvenanceRecordV1 => "riffdb.storage.v1.StoredProvenanceRecordV1",
            RecordType::StoredProvenanceRecordV2 => "riffdb.storage.v1.StoredProvenanceRecordV2",
            RecordType::StoredRecordRegistryV2 => "riffdb.storage.v1.StoredRecordRegistryV2",
            RecordType::StoredReplicationAdministrationV1 =>
                "riffdb.storage.v1.StoredReplicationAdministrationV1",
            RecordType::StoredReplicationFollowerStateV3 =>
                "riffdb.storage.v1.StoredReplicationFollowerStateV3",
            RecordType::StoredReplicationSourceHoldV1 =>
                "riffdb.storage.v1.StoredReplicationSourceHoldV1",
            RecordType::StoredReplicationSourceHoldV2 =>
                "riffdb.storage.v1.StoredReplicationSourceHoldV2",
            RecordType::StoredRetiredEntityRecordV1 =>
                "riffdb.storage.v1.StoredRetiredEntityRecordV1",
            RecordType::StoredServiceAuditRequestIndexV1 =>
                "riffdb.storage.v1.StoredServiceAuditRequestIndexV1",
            RecordType::StoredStorageFormatVersionV1 =>
                "riffdb.storage.v1.StoredStorageFormatVersionV1",
        }
    }
}

/// The first place at which a record type is listed, if it is listed.
pub open spec fn place_of(accepted: Seq<RecordType>, found: RecordType) -> Option<int>
    decreases accepted.len(),
{
    if accepted.len() == 0 {
        None
    } else if accepted[0] == found {
        Some(0)
    } else {
        match place_of(accepted.skip(1), found) {
            Some(place) => Some(place + 1),
            None => None,
        }
    }
}

/// Finds the first place at which a record type is listed.
pub fn find_record_type(accepted: &[RecordType], found: RecordType) -> (result: Option<usize>)
    ensures
        match result {
            Some(place) => place_of(accepted@, found) == Some(place as int) && place
                < accepted@.len() && accepted@[place as int] == found,
            None => place_of(accepted@, found) is None,
        },
{
    let mut i: usize = 0;
    assert(accepted@.skip(0) =~= accepted@);
    while i < accepted.len()
        invariant
            i <= accepted@.len(),
            place_of(accepted@, found) == match place_of(accepted@.skip(i as int), found) {
                Some(place) => Some(place + i),
                None => None,
            },
        decreases accepted@.len() - i,
    {
        assert(accepted@.skip(i as int).skip(1) =~= accepted@.skip(i as int + 1));
        if accepted[i] == found {
            return Some(i);
        }
        i += 1;
    }
    None
}

} // verus!
