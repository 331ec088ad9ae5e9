//! Durable records at the codec boundary.

use riffdb_storage_api::codec::application::{
    decode_entity_record_v1, decode_index_entry_v1, decode_index_entry_v2,
    encode_entity_record_v1, encode_index_entry_v2,
};
use riffdb_storage_api::codec::application_export::{
    decode_application_export_head, decode_application_export_operation_v1,
    decode_application_export_operation_v2, decode_application_export_page_commitment_v1,
    encode_application_export_head, encode_application_export_operation_v1,
    encode_application_export_operation_v2, encode_application_export_page_commitment_v1,
    OutgoingExportHead,
};
use riffdb_storage_api::codec::audit::{
    decode_service_audit_record_v3, encode_service_audit_record_v3,
};
use riffdb_storage_api::codec::changelog::{
    encode_authoritative_state_catalog_v1, encode_promotion_administration_v1,
    encode_replication_administration_v1, encode_replication_source_hold_v1,
};
use riffdb_storage_api::codec::commit::{
    decode_commit_entity_references, decode_commit_record_v1, decode_commit_record_v3,
    encode_commit_record_legacy_v1, encode_commit_record_v1,
    transcode_commit_to_entity_reference_v3,
};
use riffdb_storage_api::codec::contract_migration::{
    decode_contract_migration_journal_v1, decode_retired_entity_record_v1,
    encode_contract_migration_journal_v1, encode_retired_entity_record_v1,
};
use riffdb_storage_api::codec::entity_transition::{
    decode_entity_chain_head_v1, encode_entity_chain_head_v1,
};
use riffdb_storage_api::codec::envelope::{
    decode_message, decode_message_profiled, decode_profile, decode_record_variant_chain,
    encode_message, encoded_message_charge, seal_envelope, transcode_durable_record_to_v2,
    DurableReadDecodeProfileV1, ReadAttempt, RegistryRecord,
};
use riffdb_storage_api::codec::error::{
    fixed, DurableCodecError, DurableCodecErrorKind, EnvelopeError, PayloadValidationError,
};
use riffdb_storage_api::codec::index_migration::{
    conservative_index_v2_payload_len, decode_index_migration_row, IndexRowMessage,
};
use riffdb_storage_api::codec::metadata::{
    decode_history_incarnation_v1, encode_history_incarnation_v1,
};
use riffdb_storage_api::codec::parts::{CanonicalDocument, Identifier, Vetted};
use riffdb_storage_api::codec::record_type::RecordType;
use riffdb_storage_api::codec::replication::{
    decode_authoritative_state_catalog_v1, decode_promotion_administration_v1,
    decode_replication_administration_v1, decode_replication_source_hold,
    decode_replication_source_hold_v1, ReplicationSourceHoldStateV1,
};
use riffdb_storage_api::ids::{CommitSequence, Digest, EventId, Id32, Id64, Timestamp};
use riffdb_storage_api::keys::CanonicalRecord;
use riffdb_storage_api::limits::MAX_KEY_BYTES;
use riffdb_storage_api::plan::ExecutablePlanRef;
use riffdb_storage_api::records::{
    DurableKeySchemaBindingV1, EntityTarget, StoredDurableEventV1, StoredEntityRecordV1,
    StoredIndexEntryV2,
};
use riffdb_storage_api::stored::application::{
    CommitParts, CommittedEntityMutationV1, CommittedEntityReferenceV2, DurabilityMode,
    EntityReadDependency, StoredReadDependenciesV1, StoredReadDependencyV1,
};
use riffdb_storage_api::stored::application_export::{
    ApplicationExportPageCommitmentV1, StoredApplicationExportOperation,
    StoredApplicationExportOperationV1, StoredApplicationExportOperationV2,
};
use riffdb_storage_api::stored::audit::{
    ReplicationFollowerAuditTargetV1, ServiceAuditLinkV1, ServiceAuditPhaseV1,
    ServiceAuditTargetV3, StoredServiceAuditRecordV3, StoredServiceAuditRequestIndexV1,
};
use riffdb_storage_api::stored::changelog::{
    AuthoritativeStateCatalog, ChangelogHistoryPointV3, ChangelogHistoryStateV3,
    ChangelogLineageV3, ConfiguredExpiryOrigin, FollowerRegistrationPhaseV1, HoldBefore,
    PromotionAttempt, PromotionSelection, ReplicationAdministrationActionV1,
    ReplicationAdministrationOriginV1, ReplicationPromotionStepV1, ReplicationSourceHoldKindV1,
    ReplicationSourceHoldV1, ReplicationSourceHoldV2, StoredPrimaryFenceAdministrationV1,
    StoredReplicationAdministrationV1,
};
use riffdb_storage_api::stored::commit::StoredCommitRecordV1;
use riffdb_storage_api::stored::common::{
    ActorKind, AdmittedActorContext, AuditPrincipalV1, DeclaredOutcome, ExpectedEntityState,
    TenantScope,
};
use riffdb_storage_api::stored::contract_migration::{
    ContractMigrationArtifactsV1, ContractMigrationJournalStepV1,
    StoredContractMigrationJournalV1, StoredRetiredEntityRecordV1,
};
use riffdb_storage_api::stored::entity_transition::{EntityChainHeadV1, EntityChainStateV1};
use riffdb_storage_api::value_error::StorageValueError;
use riffdb_storage_api::wire;

fn digest(fill: u8) -> Digest {
    Digest::from_bytes([fill; 32])
}

fn identifier(fill: u8) -> Identifier {
    Identifier { bytes: [fill; 16] }
}

fn id32(value: u32) -> Id32 {
    Id32::new(value).expect("nonzero")
}

fn id64(value: u64) -> Id64 {
    Id64::new(value).expect("nonzero")
}

fn sequence(value: u64) -> CommitSequence {
    CommitSequence::new(value).expect("nonzero")
}

fn document() -> CanonicalRecord {
    CanonicalRecord {
        fields: Vec::new(),
        encoded: vec![14, 1, 0, 0, 0, 0],
    }
}

fn target(key: u8) -> EntityTarget {
    EntityTarget {
        entity_type_id: id32(1),
        key: vec![key],
    }
}

fn binding() -> DurableKeySchemaBindingV1 {
    DurableKeySchemaBindingV1 {
        lineage: "budget".to_owned(),
        contract_version: id64(1),
        bundle_hash: digest(1),
    }
}

fn entity(key: u8) -> StoredEntityRecordV1 {
    StoredEntityRecordV1 {
        target: target(key),
        entity_version: id64(4),
        written_by_contract: id64(1),
        schema_binding: binding(),
        fields: document(),
    }
}

fn read<M>(message: M) -> ReadAttempt<M> {
    ReadAttempt {
        typed: Some(message),
        registry: Err(EnvelopeError::Malformed),
        encoded_len: 70,
    }
}

fn foreign<M>(record_type: RecordType) -> ReadAttempt<M> {
    ReadAttempt {
        typed: None,
        registry: Ok(RegistryRecord {
            record_type,
            message: None,
        }),
        encoded_len: 70,
    }
}

fn kind<T>(result: Result<T, DurableCodecError>) -> Option<DurableCodecErrorKind> {
    result.err().map(|error| error.kind())
}

const CORRUPT: Option<DurableCodecErrorKind> = Some(DurableCodecErrorKind::CorruptData);
const LIMIT: Option<DurableCodecErrorKind> = Some(DurableCodecErrorKind::LimitExceeded);
const OTHER_TYPE: Option<DurableCodecErrorKind> = Some(DurableCodecErrorKind::UnexpectedRecordType);
const INCOMPATIBLE: Option<DurableCodecErrorKind> = Some(DurableCodecErrorKind::IncompatibleFormat);
const BROKEN: Option<DurableCodecErrorKind> = Some(DurableCodecErrorKind::InvariantViolation);

#[test]
fn failures_are_classed_at_the_boundary() {
    let read = |error| DurableCodecError::from_decode_envelope(error).kind();
    let framed = |error| DurableCodecError::from_encode_envelope(error).kind();
    assert_eq!(
        read(EnvelopeError::UnsupportedSchemaHash),
        DurableCodecErrorKind::IncompatibleFormat
    );
    assert_eq!(
        read(EnvelopeError::ChecksumMismatch),
        DurableCodecErrorKind::CorruptData
    );
    let large = EnvelopeError::InvalidPayload(PayloadValidationError::LimitExceeded);
    assert_eq!(read(large), DurableCodecErrorKind::LimitExceeded);
    assert_eq!(framed(large), DurableCodecErrorKind::LimitExceeded);
    assert_eq!(
        framed(EnvelopeError::UnknownRecordType),
        DurableCodecErrorKind::InvariantViolation
    );
    assert_eq!(
        DurableCodecError::corrupt().message(),
        "durable record is corrupt"
    );
    assert_eq!(
        DurableCodecError::new(DurableCodecErrorKind::ReservationExceeded).message(),
        "durable record exceeds its retained reservation"
    );
    assert_eq!(fixed::<2>(vec![1, 2]).expect("two bytes"), [1, 2]);
    assert!(fixed::<2>(vec![1]).is_err());
}

#[test]
fn envelopes_are_charged_for_their_bytes() {
    let sealed = seal_envelope(Ok(vec![3; 9])).ok().expect("envelope");
    assert_eq!(sealed.encoded_content_charge().get(), 9);
    assert_eq!(
        encoded_message_charge(Ok(9)).expect("charge"),
        sealed.encoded_content_charge()
    );
    assert_eq!(kind(seal_envelope(Ok(Vec::new()))), BROKEN);
    assert_eq!(kind(transcode_durable_record_to_v2(Ok(Vec::new()))), CORRUPT);
    assert_eq!(
        decode_record_variant_chain(
            Ok(RecordType::StoredCommandCapsuleV1),
            &[
                RecordType::StoredCommandCapsuleV2,
                RecordType::StoredCommandCapsuleV1
            ]
        )
        .expect("second"),
        1
    );
    assert_eq!(
        kind(decode_record_variant_chain(
            Ok(RecordType::StoredEntityRecordV1),
            &[RecordType::StoredCommandCapsuleV2]
        )),
        OTHER_TYPE
    );
    assert_eq!(
        RecordType::StoredCommitRecordV3.name(),
        "riffdb.storage.v1.StoredCommitRecordV3"
    );
    let profile = decode_profile(None, u128::MAX, 5);
    assert_eq!(
        profile,
        DurableReadDecodeProfileV1 {
            identity_bounds_ns: u64::MAX,
            semantic_reconstruct_ns: 5,
            ..DurableReadDecodeProfileV1::default()
        }
    );
}

#[test]
fn records_are_framed_as_a_writable_type() {
    let frame = |message: wire::StoredHistoryIncarnationV1| Ok(vec![message.incarnation as u8]);
    let outgoing = || encode_history_incarnation_v1(3).ok().expect("record");
    let envelope = encode_message(
        Some(RecordType::StoredHistoryIncarnationV1),
        outgoing(),
        frame,
    )
    .ok()
    .expect("envelope");
    assert_eq!(envelope.as_bytes(), &[3]);
    // A type that is not writable, or that is another one, is not framed.
    assert_eq!(kind(encode_message(None, outgoing(), frame)), BROKEN);
    assert_eq!(
        kind(encode_message(
            Some(RecordType::StoredEntityRecordV1),
            outgoing(),
            frame
        )),
        BROKEN
    );
    let expected = RecordType::StoredHistoryIncarnationV1;
    let reconstruct = |message: wire::StoredHistoryIncarnationV1| {
        if message.incarnation == 0 {
            Err(DurableCodecError::corrupt())
        } else {
            Ok(message.incarnation)
        }
    };
    let item = decode_message(expected, read(outgoing().message), reconstruct).expect("value");
    assert_eq!((item.value, item.charge.get()), (3, 70));
    let zero = wire::StoredHistoryIncarnationV1 { incarnation: 0 };
    assert_eq!(kind(decode_message(expected, read(zero), reconstruct)), CORRUPT);
    assert_eq!(
        kind(decode_message(
            expected,
            foreign(RecordType::StoredEntityRecordV1),
            reconstruct
        )),
        OTHER_TYPE
    );
    let (item, profile) =
        decode_message_profiled(expected, read(outgoing().message), reconstruct, None, 4, 9)
            .expect("value");
    assert_eq!(item.value, 3);
    assert_eq!(profile, decode_profile(None, 4, 9));
}

#[test]
fn documents_are_read_only_in_their_canonical_bytes() {
    let outgoing = encode_entity_record_v1(&entity(1));
    let item = decode_entity_record_v1(read(outgoing.message), |_| None).expect("entity");
    assert_eq!(item.value, entity(1));
    assert_eq!(item.charge.get(), 70);
    let mut padded = encode_entity_record_v1(&entity(1)).message;
    padded.canonical_fields.bytes.push(0);
    assert_eq!(kind(decode_entity_record_v1(read(padded), |_| None)), CORRUPT);
    let mut undecodable = encode_entity_record_v1(&entity(1)).message;
    undecodable.canonical_fields = CanonicalDocument {
        bytes: vec![0],
        decoded: None,
    };
    assert_eq!(kind(decode_entity_record_v1(read(undecodable), |_| None)), CORRUPT);
    let refused = Some(StorageValueError::LimitExceeded);
    let message = encode_entity_record_v1(&entity(1)).message;
    assert_eq!(kind(decode_entity_record_v1(read(message), |_| refused)), LIMIT);
    assert_eq!(
        kind(decode_entity_record_v1(
            foreign(RecordType::StoredIndexEntryV2),
            |_| None
        )),
        OTHER_TYPE
    );
}

fn event() -> StoredDurableEventV1 {
    StoredDurableEventV1 {
        event_id: EventId::new(sequence(7), 0),
        event_type_id: id32(3),
        payload: document(),
        event_hash: digest(9),
    }
}

fn commit() -> StoredCommitRecordV1 {
    StoredCommitRecordV1 {
        parts: CommitParts {
            commit_sequence: sequence(7),
            admission_request_id: identifier(3),
            plan: ExecutablePlanRef {
                contract_lineage: "budget".to_owned(),
                contract_version: id64(1),
                contract_bundle_hash: digest(4),
                command_id: id32(2),
                command_plan_hash: digest(5),
            },
            canonical_input_hash: digest(6),
            actor: AdmittedActorContext {
                principal_id: "alice".to_owned(),
                actor_kind: ActorKind::Human,
                tenant_scope: TenantScope::Global,
                agent_session_id: None,
            },
            logical_time: Timestamp::new(10, 0).expect("time"),
            partition_hash: digest(7),
            conflict_hashes: vec![digest(8)],
            read_dependencies: StoredReadDependenciesV1 {
                dependencies: Vec::new(),
            },
            declared_outcome: DeclaredOutcome {
                outcome_id: id32(1),
                value: document(),
            },
            provenance_id: identifier(4),
            outbox_event_ids: vec![EventId::new(sequence(7), 0)],
            durability_mode: DurabilityMode::Memory,
        },
        entity_references: vec![CommittedEntityReferenceV2 {
            target: target(1),
            entity_version: id64(4),
            post_image_hash: digest(11),
        }],
        events: vec![event()],
    }
}

#[test]
fn commits_come_back_beside_their_events() {
    let outgoing = encode_commit_record_v1(&commit());
    assert_eq!(outgoing.record_type, RecordType::StoredCommitRecordV3);
    let item = decode_commit_record_v3(read(outgoing.message), vec![event()], |_| None)
        .expect("commit");
    assert_eq!(item.value, commit());
    let other = StoredDurableEventV1 {
        event_hash: digest(1),
        ..event()
    };
    let message = encode_commit_record_v1(&commit()).message;
    assert_eq!(
        kind(decode_commit_record_v3(read(message), vec![other], |_| None)),
        CORRUPT
    );
    let message = encode_commit_record_v1(&commit()).message;
    assert_eq!(
        kind(decode_commit_record_v3(read(message), Vec::new(), |_| None)),
        CORRUPT
    );
}

#[test]
fn legacy_commits_transcode_to_references() {
    let mutation = || CommittedEntityMutationV1 {
        expected: ExpectedEntityState::Absent,
        post_image: entity(1),
    };
    let legacy = || encode_commit_record_legacy_v1(&commit(), &[mutation()]);
    let item = decode_commit_record_v1(read(legacy().message), |_| Ok(digest(11)), |_| None)
        .expect("legacy commit");
    assert_eq!(item.value, commit());
    // The digest of a post-image may be refused.
    assert_eq!(
        kind(decode_commit_record_v1(
            read(legacy().message),
            |_| Err(StorageValueError::LimitExceeded),
            |_| None
        )),
        LIMIT
    );
    let transcoded = transcode_commit_to_entity_reference_v3(
        foreign(RecordType::StoredCommitRecordV1),
        foreign(RecordType::StoredCommitRecordV1),
        ReadAttempt {
            typed: None,
            registry: Ok(RegistryRecord {
                record_type: RecordType::StoredCommitRecordV1,
                message: Some(legacy().message),
            }),
            encoded_len: 70,
        },
        |_| Ok(digest(11)),
    )
    .ok()
    .expect("transcoded commit");
    let direct = encode_commit_record_v1(&commit());
    assert_eq!(transcoded.record_type, direct.record_type);
    assert_eq!(transcoded.message, direct.message);
    let references = decode_commit_entity_references(
        read(direct.message),
        foreign(RecordType::StoredCommitRecordV3),
        foreign(RecordType::StoredCommitRecordV3),
        |_| Ok(digest(11)),
    )
    .expect("references");
    assert_eq!(references.value, commit().entity_references);
    // What was transcoded transcodes to itself, and a legacy reader does not take it.
    let again = transcode_commit_to_entity_reference_v3(
        read(transcoded.message),
        foreign(RecordType::StoredCommitRecordV3),
        foreign(RecordType::StoredCommitRecordV3),
        |_| Ok(digest(11)),
    )
    .ok()
    .expect("transcoded commit");
    assert_eq!(again.message, encode_commit_record_v1(&commit()).message);
    let before = decode_commit_entity_references(
        foreign(RecordType::StoredCommitRecordV1),
        foreign(RecordType::StoredCommitRecordV1),
        read(legacy().message),
        |_| Ok(digest(11)),
    )
    .expect("references");
    assert_eq!(before.value, references.value);
    assert_eq!(
        kind(decode_commit_record_v1(
            foreign(encode_commit_record_v1(&commit()).record_type),
            |_| Ok(digest(11)),
            |_| None
        )),
        OTHER_TYPE
    );
    // An embedded mutation that its own type refuses is refused as that type says.
    let refused = |error| {
        let mut message = legacy().message;
        message.mutations[0].refusal = Some(error);
        kind(decode_commit_record_v1(read(message), |_| Ok(digest(11)), |_| None))
    };
    assert_eq!(refused(StorageValueError::LimitExceeded), LIMIT);
    assert_eq!(refused(StorageValueError::SizeOverflow), LIMIT);
    assert_eq!(refused(StorageValueError::IdentityMismatch), CORRUPT);
}

#[test]
fn read_dependencies_are_what_their_list_type_makes_of_them() {
    let dependency = |key| {
        StoredReadDependencyV1::EntityObservation(EntityReadDependency {
            target: target(key),
            expected: ExpectedEntityState::Absent,
        })
    };
    let mut value = commit();
    value.parts.read_dependencies.dependencies = vec![dependency(1), dependency(2)];
    let decode = |rebuilt| {
        let mut message = encode_commit_record_v1(&value).message;
        let list = message.parts.read_dependencies.as_mut().expect("dependencies");
        list.rebuilt = rebuilt;
        decode_commit_record_v3(read(message), vec![event()], |_| None)
    };
    assert_eq!(
        decode(Ok(vec![dependency(1), dependency(2)]))
            .expect("commit")
            .value,
        value
    );
    assert_eq!(kind(decode(Ok(vec![dependency(2), dependency(1)]))), CORRUPT);
    assert_eq!(kind(decode(Ok(vec![dependency(1)]))), CORRUPT);
    assert_eq!(kind(decode(Err(StorageValueError::LimitExceeded))), LIMIT);
    assert_eq!(kind(decode(Err(StorageValueError::Duplicate))), CORRUPT);
}

#[test]
fn index_entries_come_back_in_their_own_form_alone() {
    let value = || StoredIndexEntryV2 {
        key: vec![5],
        schema_binding: binding(),
        partition_key: vec![6],
        covered_values: document(),
    };
    let outgoing = encode_index_entry_v2(&value());
    let record_type = outgoing.record_type;
    let item = decode_index_entry_v2(read(outgoing.message), |_| None).expect("entry");
    assert_eq!(item.value, value());
    assert_eq!(item.charge.get(), 70);
    assert_eq!(kind(decode_index_entry_v1(foreign(record_type), |_| None)), OTHER_TYPE);
}

fn audit(targets: Vec<ServiceAuditTargetV3>) -> StoredServiceAuditRecordV3 {
    StoredServiceAuditRecordV3 {
        administration_sequence: id64(5),
        request_id: identifier(3),
        timestamp: Timestamp::new(10, 0).expect("time"),
        operation: 1,
        phase: ServiceAuditPhaseV1::Started,
        principal: None,
        ingress: 1,
        targets,
        approval_id: None,
        link: ServiceAuditLinkV1::Nothing,
    }
}

#[test]
fn the_third_audit_form_is_for_followers() {
    let follower = || {
        ServiceAuditTargetV3::ReplicationFollower(ReplicationFollowerAuditTargetV1 {
            database_id: identifier(1),
            history_incarnation: 1,
            leadership_epoch: id64(2),
            hold_id: identifier(6),
        })
    };
    let plain = || ServiceAuditTargetV3::Commit(sequence(7));
    let outgoing = encode_service_audit_record_v3(&audit(vec![plain(), follower()]))
        .ok()
        .expect("record");
    let item =
        decode_service_audit_record_v3(read(outgoing.message), |_| None).expect("record");
    assert_eq!(item.value, audit(vec![plain(), follower()]));
    assert_eq!(
        kind(encode_service_audit_record_v3(&audit(vec![plain()]))),
        BROKEN
    );
    // Targets that are not their own canonical list are corrupt, and so is a wide tag.
    let message = || {
        encode_service_audit_record_v3(&audit(vec![plain(), follower()]))
            .ok()
            .expect("record")
            .message
    };
    let mut listed = message();
    listed.rebuilt = Ok(vec![follower(), plain()]);
    assert_eq!(kind(decode_service_audit_record_v3(read(listed), |_| None)), CORRUPT);
    let mut wide = message();
    wide.operation = Vetted {
        value: 257,
        accepted: true,
    };
    assert_eq!(kind(decode_service_audit_record_v3(read(wide), |_| None)), CORRUPT);
    let index = StoredServiceAuditRequestIndexV1::new(identifier(3), id64(5));
    assert_eq!(index.request_id(), identifier(3));
    assert_eq!(index.administration_sequence(), id64(5));
}

#[test]
fn history_incarnations_begin_at_one() {
    assert_eq!(kind(encode_history_incarnation_v1(0)), CORRUPT);
    let outgoing = encode_history_incarnation_v1(3).ok().expect("record");
    assert_eq!(
        decode_history_incarnation_v1(read(outgoing.message))
            .expect("incarnation")
            .value,
        3
    );
    assert_eq!(
        kind(decode_history_incarnation_v1(read(
            wire::StoredHistoryIncarnationV1 { incarnation: 0 }
        ))),
        CORRUPT
    );
}

fn hold(catalog: u8) -> ReplicationSourceHoldV1 {
    ReplicationSourceHoldV1 {
        kind: ReplicationSourceHoldKindV1::Bootstrap,
        hold_id: identifier(6),
        lineage: ChangelogLineageV3 {
            database_id: identifier(1),
            history_incarnation: 1,
            leadership_epoch: id64(2),
            catalog_digest: digest(catalog),
        },
        fence: ChangelogHistoryPointV3 {
            sequence: id64(9),
            history_hash: digest(3),
            application: Some(sequence(7)),
            administration: None,
        },
    }
}

#[test]
fn administration_names_the_generation_of_its_hold() {
    let value = |generation: u64| StoredReplicationAdministrationV1 {
        administration_sequence: id64(5),
        timestamp: Timestamp::new(10, 0).expect("time"),
        action: ReplicationAdministrationActionV1::ExpireFollower,
        target: ReplicationFollowerAuditTargetV1 {
            database_id: identifier(1),
            history_incarnation: 1,
            leadership_epoch: id64(2),
            hold_id: identifier(6),
        },
        generation: id64(generation),
        observed: hold(1).fence,
        before: HoldBefore::Legacy(hold(1)),
        after: ReplicationSourceHoldV2 {
            hold: hold(1),
            registered_at: hold(1).fence,
            hold_budget_sequences: 8,
            expires_at: None,
            phase: FollowerRegistrationPhaseV1::Retired,
            degraded_at: None,
            generation: id64(12),
        },
        origin: ReplicationAdministrationOriginV1::ConfiguredExpiry(ConfiguredExpiryOrigin {
            registration: id64(4),
        }),
    };
    let message = |generation| encode_replication_administration_v1(&value(generation)).message;
    let item = decode_replication_administration_v1(read(message(12)), digest(1)).expect("record");
    assert_eq!(item.value, value(12));
    assert_eq!(
        kind(decode_replication_administration_v1(read(message(9)), digest(1))),
        CORRUPT
    );
    let mut refused = message(12);
    refused.after.as_mut().expect("hold").generation = None;
    assert_eq!(
        kind(decode_replication_administration_v1(read(refused), digest(1))),
        CORRUPT
    );
}

fn promotion() -> PromotionAttempt {
    let principal = || AuditPrincipalV1 {
        principal_id: "operator".to_owned(),
        actor_kind: ActorKind::Human,
        capability_id: identifier(8),
        capability_revision: id64(1),
    };
    let point = hold(1).fence;
    PromotionAttempt {
        administration_sequence: id64(6),
        timestamp: Timestamp::new(12, 0).expect("time"),
        promotion_operation_id: identifier(4),
        request_id: identifier(3),
        principal: principal(),
        approval_id: None,
        attempted_at: Timestamp::new(11, 0).expect("time"),
        selection: Some(PromotionSelection {
            fence: StoredPrimaryFenceAdministrationV1 {
                administration_sequence: id64(5),
                timestamp: Timestamp::new(10, 0).expect("time"),
                operation_id: identifier(2),
                request_id: identifier(3),
                principal: principal(),
                approval_id: None,
                target: ReplicationFollowerAuditTargetV1 {
                    database_id: identifier(1),
                    history_incarnation: 1,
                    leadership_epoch: id64(2),
                    hold_id: identifier(6),
                },
                generation: id64(12),
                observed: point,
            },
            applied: point,
            source_history: ChangelogHistoryStateV3 {
                lineage: hold(1).lineage,
                anchor: point,
                tail: point,
                minimum_resume: point,
            },
            published_incarnation: 1,
            published_epoch: id64(3),
            application_rpo: 0,
        }),
        steps: vec![
            Some(ReplicationPromotionStepV1::Attempted),
            Some(ReplicationPromotionStepV1::ValidationFailed),
        ],
        ingress: 1,
    }
}

#[test]
fn only_a_complete_promotion_is_encoded() {
    let outgoing = encode_promotion_administration_v1(&promotion())
        .ok()
        .expect("record");
    assert_eq!(outgoing.message.attempt_steps, vec![1, 130]);
    let item =
        decode_promotion_administration_v1(read(outgoing.message), digest(1)).expect("record");
    assert_eq!(Some(item.value), promotion().record());
    let mut unselected = promotion();
    unselected.selection = None;
    assert_eq!(kind(encode_promotion_administration_v1(&unselected)), CORRUPT);
    let mut stray = promotion();
    stray.steps.push(None);
    assert_eq!(kind(encode_promotion_administration_v1(&stray)), CORRUPT);
}

#[test]
fn records_of_another_catalog_are_incompatible() {
    let outgoing = encode_replication_source_hold_v1(hold(1));
    assert_eq!(outgoing.message.kind, 3);
    let item = decode_replication_source_hold_v1(read(outgoing.message), digest(1))
        .expect("hold");
    assert_eq!(item.value, hold(1));
    let foreign_hold = || encode_replication_source_hold_v1(hold(2)).message;
    assert_eq!(
        kind(decode_replication_source_hold_v1(read(foreign_hold()), digest(1))),
        INCOMPATIBLE
    );
    // An unknown owner is corrupt before the catalog is looked at.
    let mut unknown = foreign_hold();
    unknown.kind = 4;
    assert_eq!(
        kind(decode_replication_source_hold_v1(read(unknown), digest(1))),
        CORRUPT
    );
    // A missing fence is found only after it.
    let mut unfenced = foreign_hold();
    unfenced.fence = None;
    assert_eq!(
        kind(decode_replication_source_hold_v1(read(unfenced), digest(1))),
        INCOMPATIBLE
    );
    let either = decode_replication_source_hold(
        Ok(RecordType::StoredReplicationSourceHoldV1),
        read(encode_replication_source_hold_v1(hold(1)).message),
        foreign(RecordType::StoredReplicationSourceHoldV1),
        digest(1),
    )
    .expect("hold");
    assert_eq!(either.value, ReplicationSourceHoldStateV1::Legacy(hold(1)));
    assert_eq!(
        kind(decode_replication_source_hold(
            Ok(RecordType::StoredLeadershipEpochV1),
            foreign(RecordType::StoredLeadershipEpochV1),
            foreign(RecordType::StoredLeadershipEpochV1),
            digest(1),
        )),
        OTHER_TYPE
    );
    let catalog = || {
        encode_authoritative_state_catalog_v1(AuthoritativeStateCatalog {
            catalog_digest: digest(1),
        })
        .message
    };
    assert!(decode_authoritative_state_catalog_v1(read(catalog()), digest(1)).is_ok());
    assert_eq!(
        kind(decode_authoritative_state_catalog_v1(read(catalog()), digest(2))),
        INCOMPATIBLE
    );
    let mut short = catalog();
    short.catalog_digest.pop();
    assert_eq!(
        kind(decode_authoritative_state_catalog_v1(read(short), digest(2))),
        CORRUPT
    );
}

fn journal() -> StoredContractMigrationJournalV1 {
    StoredContractMigrationJournalV1 {
        database_id: identifier(1),
        operation_id: identifier(2),
        input_hash: digest(1),
        artifacts: ContractMigrationArtifactsV1 {
            parent: digest(2),
            candidate: digest(3),
            migration: digest(4),
        },
        step: ContractMigrationJournalStepV1::Transforming,
        cursor: Some(target(1)),
        checked_rows: 5,
        changed_rows: 2,
        batch_count: 1,
        frozen_application_frontier: Some(sequence(7)),
        required_projections: vec![id32(1)],
        previous_hash: None,
        journal_hash: digest(8),
    }
}

#[test]
fn journals_are_written_under_their_own_hash() {
    let outgoing = encode_contract_migration_journal_v1(&journal(), |_| Ok(digest(8)))
        .ok()
        .expect("journal");
    let item = decode_contract_migration_journal_v1(read(outgoing.message), |_| None)
        .expect("journal");
    assert_eq!(item.value, journal());
    assert_eq!(
        kind(encode_contract_migration_journal_v1(&journal(), |_| Ok(digest(9)))),
        CORRUPT
    );
    assert_eq!(
        kind(encode_contract_migration_journal_v1(
            &journal(),
            |_| Err(StorageValueError::SizeOverflow)
        )),
        LIMIT
    );
}

#[test]
fn retired_entities_hold_the_entity_that_they_name() {
    let retired = StoredRetiredEntityRecordV1 {
        operation_id: identifier(2),
        migration: digest(4),
        original_target: target(1),
        original_entity_envelope: vec![1, 2, 3],
    };
    let held = |key| read(encode_entity_record_v1(&entity(key)).message);
    let outgoing = encode_retired_entity_record_v1(&retired, held(1), |_| None)
        .ok()
        .expect("record");
    let item = decode_retired_entity_record_v1(read(outgoing.message), held(1), |_| None, |_| None)
        .expect("record");
    assert_eq!(item.value, retired);
    assert_eq!(
        kind(encode_retired_entity_record_v1(&retired, held(2), |_| None)),
        CORRUPT
    );
    let message = encode_retired_entity_record_v1(&retired, held(1), |_| None)
        .ok()
        .expect("record")
        .message;
    assert_eq!(
        kind(decode_retired_entity_record_v1(read(message), held(2), |_| None, |_| None)),
        CORRUPT
    );
}

#[test]
fn entity_chains_hold_a_version_only_while_live() {
    let head = |state| EntityChainHeadV1 {
        target: target(1),
        chain_revision: 3,
        state,
        last_command_sequence: sequence(7),
        last_transition_hash: digest(5),
    };
    let states = [
        EntityChainStateV1::NeverExisted,
        EntityChainStateV1::Live {
            version: id64(4),
            value_hash: digest(6),
        },
        EntityChainStateV1::Deleted,
    ];
    for state in states {
        let outgoing = encode_entity_chain_head_v1(&head(state));
        let item = decode_entity_chain_head_v1(read(outgoing.message), |_| None).expect("head");
        assert_eq!(item.value, head(state));
    }
    let mut versioned = encode_entity_chain_head_v1(&head(EntityChainStateV1::Deleted)).message;
    if let Some(state) = &mut versioned.state {
        state.entity_version = Some(4);
    }
    assert_eq!(
        kind(decode_entity_chain_head_v1(read(versioned), |_| None)),
        CORRUPT
    );
}

#[test]
fn export_heads_keep_their_original_form() {
    let compact = || StoredApplicationExportOperationV2 {
        operation_id: identifier(1),
        lineage: "ExportLedger".to_owned(),
        immutable_binding: b"exact-immutable-binding".to_vec(),
        canonical_state: b"exact-canonical-state".to_vec(),
        prefix: vec![9; 40],
    };
    let legacy = || StoredApplicationExportOperationV1 {
        operation_id: identifier(1),
        lineage: "ExportLedger".to_owned(),
        canonical_state: b"legacy-canonical-state".to_vec(),
    };
    let OutgoingExportHead::Compact(outgoing) =
        encode_application_export_head(&StoredApplicationExportOperation::Compact(compact()))
    else {
        panic!("a compact head stays compact");
    };
    assert_eq!(
        outgoing.record_type,
        RecordType::StoredApplicationExportOperationV2
    );
    let head = decode_application_export_head(
        Ok(outgoing.record_type),
        read(outgoing.message),
        foreign(RecordType::StoredApplicationExportOperationV2),
        |_| None,
        |_| None,
    );
    assert_eq!(
        head.expect("head"),
        StoredApplicationExportOperation::Compact(compact())
    );
    let OutgoingExportHead::Legacy(outgoing) =
        encode_application_export_head(&StoredApplicationExportOperation::Legacy(legacy()))
    else {
        panic!("a legacy head stays legacy");
    };
    let head = decode_application_export_head(
        Ok(outgoing.record_type),
        foreign(RecordType::StoredApplicationExportOperationV1),
        read(outgoing.message),
        |_| None,
        |_| None,
    );
    assert_eq!(
        head.expect("head"),
        StoredApplicationExportOperation::Legacy(legacy())
    );
    // Neither role is read as the other, nor as anything else.
    assert_eq!(
        kind(decode_application_export_operation_v1(
            foreign(RecordType::StoredApplicationExportOperationV2),
            |_| None
        )),
        OTHER_TYPE
    );
    assert_eq!(
        kind(decode_application_export_operation_v2(
            foreign(RecordType::StoredApplicationExportOperationV1),
            |_| None
        )),
        OTHER_TYPE
    );
    assert_eq!(
        kind(decode_application_export_head(
            Ok(RecordType::StoredEntityRecordV1),
            foreign(RecordType::StoredEntityRecordV1),
            foreign(RecordType::StoredEntityRecordV1),
            |_| None,
            |_| None,
        )),
        OTHER_TYPE
    );
    // A substituted genesis is refused by the head's own rules.
    let OutgoingExportHead::Compact(outgoing) =
        encode_application_export_head(&StoredApplicationExportOperation::Compact(compact()))
    else {
        panic!("a compact head stays compact");
    };
    assert_eq!(
        kind(decode_application_export_operation_v2(
            read(outgoing.message),
            |_| Some(StorageValueError::IdentityMismatch)
        )),
        CORRUPT
    );
}

const IMMUTABLE_BINDING: &[u8] = b"exact-immutable-binding";

fn export_head(prefix: Vec<u8>) -> StoredApplicationExportOperationV2 {
    StoredApplicationExportOperationV2 {
        operation_id: identifier(0x61),
        lineage: "ExportLedger".to_owned(),
        immutable_binding: IMMUTABLE_BINDING.to_vec(),
        canonical_state: b"exact-canonical-state".to_vec(),
        prefix,
    }
}

// The framed length of a head or a page: what its variable parts take, and a frame.
fn head_len(message: &wire::StoredApplicationExportOperationV2) -> usize {
    12 + message.immutable_binding.len()
        + message.canonical_state.len()
        + message.canonical_prefix.len()
}

#[test]
fn export_ledger_codecs_keep_each_append_charge_constant_and_verify_full_prefix() {
    let mut page_charge = None;
    let mut head_charge = None;
    let mut retained = 0;
    for ordinal in 1..=1024u32 {
        // An ordinal, a page hash, two rows and forty bytes, all of fixed width.
        let mut canonical = ordinal.to_be_bytes().to_vec();
        canonical.extend_from_slice(&[0x45; 32]);
        canonical.extend_from_slice(&2u32.to_be_bytes());
        canonical.extend_from_slice(&40u32.to_be_bytes());
        let entry = ApplicationExportPageCommitmentV1 {
            canonical_bytes: canonical,
        };
        let outgoing = encode_application_export_page_commitment_v1(&entry);
        assert_eq!(
            outgoing.record_type,
            RecordType::StoredApplicationExportPageCommitmentV1
        );
        let charge = 20 + outgoing.message.canonical_commitment.len();
        assert_eq!(*page_charge.get_or_insert(charge), charge);
        let decoded =
            decode_application_export_page_commitment_v1(read(outgoing.message), |_| None)
                .expect("page");
        assert_eq!(decoded.value, entry);
        retained += charge;
        // A head of the pages so far: their count, their bytes and the last page.
        let mut prefix = ordinal.to_be_bytes().to_vec();
        prefix.extend_from_slice(&(retained as u64).to_be_bytes());
        prefix.extend_from_slice(&entry.canonical_bytes);
        let replacement = export_head(prefix);
        let outgoing = encode_application_export_operation_v2(&replacement);
        let charge_head = head_len(&outgoing.message);
        assert_eq!(*head_charge.get_or_insert(charge_head), charge_head);
        assert_eq!(
            decode_application_export_operation_v2(read(outgoing.message), |_| None)
                .expect("head")
                .value,
            replacement
        );
    }
}

#[test]
fn export_ledger_codec_refuses_foreign_record_roles_and_tampered_binding() {
    // The head's own rule binds its genesis.
    let bound = |value: &StoredApplicationExportOperationV2| {
        (value.immutable_binding != IMMUTABLE_BINDING)
            .then_some(StorageValueError::IdentityMismatch)
    };
    let original = export_head(vec![9; 40]);
    let encoded = || encode_application_export_operation_v2(&original);
    assert!(decode_application_export_operation_v2(read(encoded().message), bound).is_ok());
    assert!(decode_application_export_operation_v1(
        foreign(encoded().record_type),
        |_| None
    )
    .is_err());
    assert!(decode_application_export_page_commitment_v1(
        foreign(encoded().record_type),
        |_| None
    )
    .is_err());
    let old = StoredApplicationExportOperationV1 {
        operation_id: identifier(0x61),
        lineage: original.lineage.clone(),
        canonical_state: b"legacy-canonical-state".to_vec(),
    };
    let old = encode_application_export_operation_v1(&old);
    let old_type = old.record_type;
    assert!(decode_application_export_operation_v1(read(old.message), |_| None).is_ok());
    assert!(decode_application_export_operation_v2(foreign(old_type), bound).is_err());

    // A valid outer envelope does not make a substituted genesis valid.
    let mut tampered = encoded().message;
    tampered.immutable_binding = b"foreign-authority".to_vec();
    assert!(decode_application_export_operation_v2(read(tampered), bound).is_err());
    // An envelope that was cut or extended does not decode.
    for failure in [EnvelopeError::Malformed, EnvelopeError::EnvelopeTooLarge] {
        assert!(decode_application_export_operation_v2(
            ReadAttempt {
                typed: None,
                registry: Err(failure),
                encoded_len: 70,
            },
            bound
        )
        .is_err());
    }
}

#[test]
fn index_rows_are_bound_to_their_physical_key() {
    let row = |key: &[u8]| wire::StoredIndexEntryV1 {
        index_entry_key: Vetted {
            value: key.to_vec(),
            accepted: true,
        },
        schema_binding: Some(wire::DurableKeySchemaBindingV1 {
            contract_lineage: Vetted {
                value: "budget".to_owned(),
                accepted: true,
            },
            contract_version: 1,
            contract_bundle_hash: vec![1; 32],
        }),
        canonical_covered_values: CanonicalDocument {
            bytes: document().encoded,
            decoded: Some(document()),
        },
    };
    let decode = |found, framed| {
        decode_index_migration_row(
            &[5],
            &[1, 2],
            found,
            45,
            |record_type, payload| {
                // The row's widest current form is measured.
                assert_eq!(record_type, RecordType::StoredIndexEntryV2);
                assert_eq!(payload, 3 + 47 + 8 + (1 + 2 + MAX_KEY_BYTES));
                framed
            },
            |evidence| {
                assert_eq!(evidence.physical_key, vec![5]);
                None
            },
        )
    };
    let found = |key: &[u8]| Ok(IndexRowMessage::V1(Some(row(key))));
    let evidence = decode(found(&[5]), Ok(90)).expect("evidence");
    assert_eq!(evidence.row.key(), &[5]);
    assert_eq!(evidence.observed_envelope, vec![1, 2]);
    assert_eq!(evidence.conservative_charge.get(), 90);
    assert_eq!(kind(decode(found(&[6]), Ok(90))), CORRUPT);
    assert_eq!(kind(decode(Ok(IndexRowMessage::V2(None)), Ok(90))), CORRUPT);
    assert_eq!(kind(decode(Ok(IndexRowMessage::Other), Ok(90))), OTHER_TYPE);
    assert_eq!(kind(decode(Err(EnvelopeError::UnknownRecordType), Ok(90))), INCOMPATIBLE);
    assert_eq!(
        kind(decode(found(&[5]), Err(EnvelopeError::PayloadTooLarge))),
        LIMIT
    );
    // The widest current form has a partition key of the greatest length.
    assert_eq!(
        conservative_index_v2_payload_len(1, 45, 6),
        Ok(3 + 47 + 8 + (1 + 2 + MAX_KEY_BYTES))
    );
}
