//! Command capsules and segments.

use riffdb_storage_api::codec::application::decode_entity_record_v1;
use riffdb_storage_api::codec::command_record::{
    decode_command_capsule_v1, encode_command_capsule_v1,
};
use riffdb_storage_api::codec::envelope::ReadAttempt;
use riffdb_storage_api::codec::error::{DurableCodecErrorKind, EnvelopeError};
use riffdb_storage_api::codec::parts::Identifier;
use riffdb_storage_api::codec::record_set::{
    encode_atomic_command_record_set_v1, AtomicCommandRecordSet, CommittedEntityChange,
    IndexEntryMutationV1, OutgoingCommandRecord,
};
use riffdb_storage_api::codec::record_type::RecordType;
use riffdb_storage_api::codec::segment::{
    command_derived_index_checkpoint_digest_v1, command_segment_digest_v1,
    command_segment_payload_v1, decode_command_derived_index_checkpoint_v1,
    decode_command_segment_v1, encode_command_derived_index_checkpoint_v1,
    encode_command_segment_v1, find_segment, prepared_segment_payload_v1,
    seal_and_encode_command_segment_v1, seal_and_encode_command_segment_with_metrics_v1,
    decode_segment_under, encode_segment_under,
    seal_and_encode_command_segment_with_prepared_capsules_v1, seal_segment_under,
    OutgoingSegment, SegmentAttempts, SegmentDigests, SegmentForm, SegmentVerdicts,
};
use riffdb_storage_api::codec::segment_bytes::{
    event_bytes_for_seal, manifest_bytes_for_seal, manifest_digest_preimage,
    prepare_command_segment_capsule_v1, raw_segment_payload, segment_body_bytes_for_seal,
    segment_digest_preimage, transition_bytes_for_seal, CommandEncodings,
};
use riffdb_storage_api::codec::segment_capsule::{
    capsule_from_form, encode_command_capsule_v2, CapsuleForm, CapsuleVerdicts, OutgoingCapsule,
};
use riffdb_storage_api::ids::{CommitSequence, Digest, EventId, Id32, Id64, Timestamp};
use riffdb_storage_api::keys::CanonicalRecord;
use riffdb_storage_api::limits::MAX_INDEX_DELTAS;
use riffdb_storage_api::outbox::StoredOutboxIntentV1;
use riffdb_storage_api::plan::ExecutablePlanRef;
use riffdb_storage_api::records::{
    DurableKeySchemaBindingV1, EntityTarget, StoredDurableEventV1, StoredEntityRecordV1,
};
use riffdb_storage_api::stored::application::{
    CommitParts, CommittedEntityMutationV1, CommittedEntityReferenceV2, DurabilityMode,
    StoredIndexEpochV1, StoredReadDependenciesV1,
};
use riffdb_storage_api::stored::audit::ServiceAuditPhaseV1;
use riffdb_storage_api::stored::command_capsule::{CapsuleHead, CommandAuditInvocation};
use riffdb_storage_api::stored::command_record::{assemble_capsule, StoredCommandCapsuleV1};
use riffdb_storage_api::stored::command_segment::{
    CommandDerivedIndexKindV1, CommandDerivedIndexManifestEntryV1, CommandDerivedMemberV1,
    IndexEpochAdvanceV1, StoredCommandDerivedIndexCheckpointV1,
};
use riffdb_storage_api::stored::commit::event_references_of;
use riffdb_storage_api::stored::common::{
    ActorKind, AdmittedActorContext, DeclaredOutcome, ExpectedEntityState, IdempotencyIdentity,
    IdempotencyKeyDigest, StoredAdmittedProvenanceClaimsV1, TenantScope,
};
use riffdb_storage_api::stored::entity_transition::{
    CommittedEntityTransitionV1, EntityChainStateV1,
};
use riffdb_storage_api::stored::metadata::ApplicationSequenceAllocator;
use riffdb_storage_api::stored::segment::{
    command_capsule_wire_version_v1, command_segment_wire_version_v1, CommandCapsuleWireVersionV1,
    CommandSegmentManifestV1, StoredCommandCapsuleV2, StoredCommandSegmentV1,
};
use riffdb_storage_api::value_error::StorageValueError;
use riffdb_storage_api::wire;
use riffdb_storage_api::write_set::{
    CommandWriteClassBreakdownV1, EncodedWriteSetUpperBound, RawWriteClassBreakdownV1,
};

fn digest(fill: u8) -> Digest {
    Digest::from_bytes([fill; 32])
}

fn identifier(fill: u8) -> Identifier {
    Identifier { bytes: [fill; 16] }
}

fn id32(value: u32) -> Id32 {
    Id32::new(value).expect("nonzero")
}

fn id64(value: u64) -> Id64 {
    Id64::new(value).expect("nonzero")
}

fn sequence(value: u64) -> CommitSequence {
    CommitSequence::new(value).expect("nonzero")
}

fn document() -> CanonicalRecord {
    CanonicalRecord {
        fields: Vec::new(),
        encoded: vec![14, 1, 0, 0, 0, 0],
    }
}

fn target(key: u8) -> EntityTarget {
    EntityTarget {
        entity_type_id: id32(1),
        key: vec![key],
    }
}

fn event(at: u64) -> StoredDurableEventV1 {
    StoredDurableEventV1 {
        event_id: EventId::new(sequence(at), 0),
        event_type_id: id32(3),
        payload: document(),
        event_hash: digest(9),
    }
}

fn head(at: u64) -> CapsuleHead {
    CapsuleHead {
        identity: IdempotencyIdentity {
            database_id: identifier(1),
            environment: "test".to_owned(),
            tenant_scope: TenantScope::Global,
            principal_id: "alice".to_owned(),
            contract_lineage: "budget".to_owned(),
            command_id: id32(2),
            caller_key_digest: IdempotencyKeyDigest {
                key_id: id32(1),
                digest: digest(2),
            },
        },
        parts: CommitParts {
            commit_sequence: sequence(at),
            admission_request_id: identifier(3),
            plan: ExecutablePlanRef {
                contract_lineage: "budget".to_owned(),
                contract_version: id64(1),
                contract_bundle_hash: digest(4),
                command_id: id32(2),
                command_plan_hash: digest(5),
            },
            canonical_input_hash: digest(6),
            actor: AdmittedActorContext {
                principal_id: "alice".to_owned(),
                actor_kind: ActorKind::Human,
                tenant_scope: TenantScope::Global,
                agent_session_id: None,
            },
            logical_time: Timestamp::new(10, 0).expect("time"),
            partition_hash: digest(7),
            conflict_hashes: vec![digest(8)],
            read_dependencies: StoredReadDependenciesV1 {
                dependencies: Vec::new(),
            },
            declared_outcome: DeclaredOutcome {
                outcome_id: id32(1),
                value: document(),
            },
            provenance_id: identifier(4),
            outbox_event_ids: vec![EventId::new(sequence(at), 0)],
            durability_mode: DurabilityMode::Memory,
        },
        admitted_claims: StoredAdmittedProvenanceClaimsV1 {
            source_repository: None,
            source_commit: None,
            reason: None,
            approval_id: None,
        },
        partition_key: vec![5, 5],
        causation: None,
        entity_references: vec![CommittedEntityReferenceV2 {
            target: target(1),
            entity_version: id64(4),
            post_image_hash: digest(11),
        }],
        event_references: event_references_of(&[event(at)]),
    }
}

fn audit(at: u64) -> CommandAuditInvocation {
    CommandAuditInvocation {
        request_id: identifier(3),
        operation: 1,
        principal: None,
        ingress: 1,
        targets: Vec::new(),
        approval_id: None,
        started_sequence: id64(2 * at),
        started_at: Timestamp::new(10, 0).expect("time"),
        terminal_sequence: id64(2 * at + 1),
        terminal_at: Timestamp::new(11, 0).expect("time"),
    }
}

fn capsule(at: u64) -> StoredCommandCapsuleV1 {
    assemble_capsule(head(at), vec![event(at)], &audit(at))
}

fn advance() -> IndexEpochAdvanceV1 {
    IndexEpochAdvanceV1 {
        post_image: StoredIndexEpochV1 {
            partition_key: vec![5, 5],
            index_id: id32(6),
            schema_binding: DurableKeySchemaBindingV1 {
                lineage: "budget".to_owned(),
                contract_version: id64(1),
                bundle_hash: digest(4),
            },
            epoch: id64(3),
        },
        prior: Some(id64(2)),
    }
}

fn command(at: u64) -> StoredCommandCapsuleV2 {
    StoredCommandCapsuleV2 {
        base: capsule(at),
        policy_anchors: vec![None],
        service_values: document(),
        index_generation_transitions: vec![advance()],
        entity_transitions: Vec::new(),
    }
}

fn with_transitions(at: u64) -> StoredCommandCapsuleV2 {
    let mut held = command(at);
    held.entity_transitions = vec![CommittedEntityTransitionV1 {
        command_sequence: sequence(at),
        mutation_ordinal: 0,
        target: target(1),
        prior_state: EntityChainStateV1::Live {
            version: id64(4),
            value_hash: digest(1),
        },
        prior_chain_revision: 4,
        prior_transition_hash: Some(digest(2)),
        next_state: EntityChainStateV1::Deleted,
        transition_hash: digest(3),
    }];
    held
}

fn entry() -> CommandDerivedIndexManifestEntryV1 {
    CommandDerivedIndexManifestEntryV1 {
        kind: CommandDerivedIndexKindV1::EventRoute,
        member: CommandDerivedMemberV1::Event,
        exact_key: vec![0xaa, 0xbb],
        command_ordinal: 0,
        member_ordinal: 300,
        segment_first_commit_sequence: sequence(7),
    }
}

fn segment() -> StoredCommandSegmentV1 {
    StoredCommandSegmentV1 {
        database_id: identifier(1),
        history_incarnation: 1,
        predecessor: None,
        commands: vec![command(7), command(8)],
        manifest: CommandSegmentManifestV1 {
            entries: vec![entry()],
        },
        segment_digest: digest(0),
    }
}

fn encodings() -> CommandEncodings {
    CommandEncodings {
        base: vec![1, 2, 3],
        bindings: vec![vec![4, 5]],
        entity_transitions: Vec::new(),
        whole: vec![6; 10],
    }
}

fn read<M>(message: M) -> ReadAttempt<M> {
    ReadAttempt {
        typed: Some(message),
        registry: Err(EnvelopeError::Malformed),
        encoded_len: 33,
    }
}

fn nothing<M>() -> ReadAttempt<M> {
    ReadAttempt {
        typed: None,
        registry: Err(EnvelopeError::Malformed),
        encoded_len: 0,
    }
}

const SOUND: CapsuleVerdicts = CapsuleVerdicts {
    records: None,
    whole: None,
    joined: None,
    service_values: None,
    transitions: None,
};

const ACCEPTED: SegmentVerdicts = SegmentVerdicts {
    manifest: None,
    segment: None,
};

#[test]
fn a_capsule_makes_five_records_that_agree() {
    let held = capsule(7);
    assert_eq!(held.outcome.base.commit_sequence, sequence(7));
    assert_eq!(held.provenance.base.event_ids, vec![EventId::new(sequence(7), 0)]);
    assert_eq!(held.provenance.base.affected_entities[0].entity_version, id64(4));
    assert_eq!(held.started.phase, ServiceAuditPhaseV1::Started);
    assert_eq!(held.terminal.phase, ServiceAuditPhaseV1::Succeeded);
    assert_eq!(held.head(), head(7));
    assert_eq!(held.invocation(), audit(7));
}

#[test]
fn capsules_come_back_with_their_events() {
    let outgoing = encode_command_capsule_v1(&capsule(7));
    assert_eq!(outgoing.record_type, RecordType::StoredCommandCapsuleV1);
    let item =
        decode_command_capsule_v1(read(outgoing.message), vec![event(7)], |_, _| None, |_| None)
            .expect("capsule");
    assert_eq!(item.value, capsule(7));
    let kind = |events, records, whole| {
        let message = encode_command_capsule_v1(&capsule(7)).message;
        decode_command_capsule_v1(read(message), events, |_, _| records, |_| whole)
            .err()
            .map(|error| error.kind())
    };
    // The event rows have to be those that the command refers to.
    assert_eq!(
        kind(vec![event(8)], None, None),
        Some(DurableCodecErrorKind::CorruptData)
    );
    assert_eq!(
        kind(vec![event(7)], Some(StorageValueError::LimitExceeded), None),
        Some(DurableCodecErrorKind::LimitExceeded)
    );
    assert_eq!(
        kind(vec![event(7)], None, Some(StorageValueError::IdentityMismatch)),
        Some(DurableCodecErrorKind::CorruptData)
    );
}

#[test]
fn the_least_sufficient_version_holds_a_command() {
    assert_eq!(
        command_capsule_wire_version_v1(&command(7)),
        CommandCapsuleWireVersionV1::V4
    );
    let mut anchored = command(7);
    anchored.policy_anchors = vec![Some(digest(1))];
    assert_eq!(
        command_capsule_wire_version_v1(&anchored),
        CommandCapsuleWireVersionV1::V5
    );
    let mut wide = command(7);
    wide.index_generation_transitions = (0..=MAX_INDEX_DELTAS).map(|_| advance()).collect();
    assert_eq!(
        command_capsule_wire_version_v1(&wide),
        CommandCapsuleWireVersionV1::V6
    );
    assert_eq!(
        command_segment_wire_version_v1(&[]),
        CommandCapsuleWireVersionV1::V4
    );
    let commands = [command(7), anchored, command(8)];
    assert_eq!(
        command_segment_wire_version_v1(&commands),
        CommandCapsuleWireVersionV1::V5
    );
    // A version that cannot hold the command is refused.
    assert!(prepare_command_segment_capsule_v1(
        &commands[1],
        CommandCapsuleWireVersionV1::V4,
        &encodings()
    )
    .is_err());
    let prepared = prepare_command_segment_capsule_v1(
        &commands[0],
        CommandCapsuleWireVersionV1::V5,
        &encodings(),
    )
    .expect("member");
    assert_eq!(prepared.bytes, vec![6; 10]);
    assert_eq!(prepared.commit_sequence(), sequence(7));
}

#[test]
fn complete_commands_come_back_as_they_were() {
    let OutgoingCapsule::V4(outgoing) = encode_command_capsule_v2(&command(7)) else {
        panic!("the fourth form is enough");
    };
    let held = capsule_from_form(CapsuleForm::V4(outgoing.message), &document(), SOUND)
        .expect("command");
    assert_eq!(held, command(7));

    let mut anchored = command(7);
    anchored.policy_anchors = vec![Some(digest(1))];
    let OutgoingCapsule::V5(outgoing) = encode_command_capsule_v2(&anchored) else {
        panic!("anchors take the fifth form");
    };
    let held = capsule_from_form(CapsuleForm::V5(outgoing.message), &document(), SOUND)
        .expect("command");
    assert_eq!(held, anchored);
}

#[test]
fn entity_transitions_say_which_entities_were_affected() {
    let OutgoingCapsule::V4(outgoing) = encode_command_capsule_v2(&with_transitions(7)) else {
        panic!("the fourth form is enough");
    };
    let held = capsule_from_form(CapsuleForm::V4(outgoing.message), &document(), SOUND)
        .expect("command");
    // A deleted entity keeps the version that it was deleted in.
    assert_eq!(held.base.provenance.base.affected_entities.len(), 1);
    assert_eq!(
        held.base.provenance.base.affected_entities[0].entity_version,
        id64(4)
    );

    // A transition that its own type refuses is refused as that type says.
    for (refusal, kind) in [
        (StorageValueError::LimitExceeded, DurableCodecErrorKind::LimitExceeded),
        (StorageValueError::InvalidShape, DurableCodecErrorKind::CorruptData),
    ] {
        let OutgoingCapsule::V4(mut outgoing) = encode_command_capsule_v2(&with_transitions(7))
        else {
            panic!("the fourth form is enough");
        };
        outgoing.message.entity_transitions[0].refusal = Some(refusal);
        assert_eq!(
            capsule_from_form(CapsuleForm::V4(outgoing.message), &document(), SOUND)
                .expect_err("refused")
                .kind(),
            kind
        );
    }

    let mut unsound = with_transitions(7);
    unsound.entity_transitions[0].next_state = EntityChainStateV1::NeverExisted;
    let OutgoingCapsule::V4(outgoing) = encode_command_capsule_v2(&unsound) else {
        panic!("the fourth form is enough");
    };
    assert_eq!(
        capsule_from_form(CapsuleForm::V4(outgoing.message), &document(), SOUND)
            .expect_err("no version is left")
            .kind(),
        DurableCodecErrorKind::CorruptData
    );
}

#[test]
fn index_advances_are_exact_successors() {
    let mut skipping = command(7);
    skipping.index_generation_transitions[0].prior = Some(id64(1));
    let OutgoingCapsule::V4(outgoing) = encode_command_capsule_v2(&skipping) else {
        panic!("the fourth form is enough");
    };
    assert_eq!(
        capsule_from_form(CapsuleForm::V4(outgoing.message), &document(), SOUND)
            .expect_err("skipped an epoch")
            .kind(),
        DurableCodecErrorKind::CorruptData
    );
}

#[test]
fn events_are_streamed_in_field_order() {
    let mut expected = vec![0x0a, 2, 0x08, 7];
    expected.extend_from_slice(&[0x10, 3]);
    expected.extend_from_slice(&[0x1a, 6, 14, 1, 0, 0, 0, 0]);
    expected.extend_from_slice(&[0x22, 32]);
    expected.extend_from_slice(&[9; 32]);
    assert_eq!(event_bytes_for_seal(&event(7)), expected);
    // A sequence of two base 128 digits.
    assert_eq!(&event_bytes_for_seal(&event(300))[..5], &[0x0a, 3, 0x08, 0xac, 0x02]);
}

#[test]
fn index_advances_are_streamed_in_field_order() {
    assert_eq!(
        transition_bytes_for_seal(&advance(), &[4, 5]),
        vec![0x0a, 12, 0x0a, 2, 5, 5, 0x10, 6, 0x1a, 2, 4, 5, 0x20, 3, 0x10, 2]
    );
    let mut initial = advance();
    initial.prior = None;
    initial.post_image.epoch = id64(1);
    assert_eq!(
        transition_bytes_for_seal(&initial, &[4, 5]),
        vec![0x0a, 12, 0x0a, 2, 5, 5, 0x10, 6, 0x1a, 2, 4, 5, 0x20, 1]
    );
}

#[test]
fn manifests_are_streamed_with_their_digest() {
    let manifest = CommandSegmentManifestV1 {
        entries: vec![entry()],
    };
    let entries = vec![
        0x0a, 13, 0x08, 5, 0x10, 4, 0x1a, 2, 0xaa, 0xbb, 0x28, 0xac, 0x02, 0x30, 7,
    ];
    let mut preimage = b"RIFFDB-COMMAND-SEGMENT-MANIFEST-V1\0".to_vec();
    preimage.extend_from_slice(&entries);
    assert_eq!(manifest_digest_preimage(&manifest), preimage);
    let mut expected = entries;
    expected.extend_from_slice(&[0x12, 32]);
    expected.extend_from_slice(&[8; 32]);
    assert_eq!(manifest_bytes_for_seal(&manifest, digest(8)), expected);
    assert_eq!(
        segment_digest_preimage(&[1, 2]),
        b"RIFFDB-COMMAND-SEGMENT-V1\0\x01\x02".to_vec()
    );
}

#[test]
fn segment_bodies_hold_sequences_members_and_manifest() {
    let held = segment();
    let encodings = [encodings(), encodings()];
    let body = segment_body_bytes_for_seal(&held, &encodings, digest(8));
    let mut expected = vec![0x0a, 16];
    expected.extend_from_slice(&[1; 16]);
    expected.extend_from_slice(&[0x10, 1, 0x20, 7, 0x28, 8, 0x30, 14, 0x38, 17]);
    assert_eq!(&body[..expected.len()], expected.as_slice());
    assert_eq!(body[expected.len()], 0x42);
    let manifest = manifest_bytes_for_seal(&held.manifest, digest(8));
    let mut tail = vec![0x4a, manifest.len() as u8];
    tail.extend_from_slice(&manifest);
    assert!(body.ends_with(&tail));

    // Members that were prepared beforehand give the same message.
    let prepared = [0, 1].map(|place| {
        prepare_command_segment_capsule_v1(
            &held.commands[place],
            CommandCapsuleWireVersionV1::V4,
            &encodings[place],
        )
        .expect("member")
    });
    let digests = SegmentDigests {
        segment: digest(9),
        manifest: digest(8),
    };
    let whole = command_segment_payload_v1(&held, &encodings, digests);
    assert_eq!(whole.record_type, RecordType::StoredCommandSegmentV3);
    assert_eq!(whole.bytes, raw_segment_payload(&body, digest(9)));
    assert_eq!(
        prepared_segment_payload_v1(&held, &prepared, digests).expect("payload"),
        whole
    );
    let frame = |record_type, payload: Vec<u8>| {
        assert_eq!(record_type, RecordType::StoredCommandSegmentV3);
        let mut framed = vec![0xee];
        framed.extend_from_slice(&payload);
        Ok(framed)
    };
    let direct =
        seal_and_encode_command_segment_with_metrics_v1(segment(), &encodings, checksum, frame)
            .ok()
            .expect("sealed");
    let sealed = seal_and_encode_command_segment_with_prepared_capsules_v1(
        segment(),
        &prepared,
        checksum,
        frame,
    )
    .ok()
    .expect("sealed");
    assert!(sealed == direct);
    assert_eq!(
        sealed.segment.segment_digest,
        command_segment_digest_v1(&held, &encodings, checksum).segment
    );
    // A stale, reordered or incomplete preparation is refused.
    let [first, second] = prepared;
    for refused in [vec![second, first], Vec::new()] {
        assert_eq!(
            seal_and_encode_command_segment_with_prepared_capsules_v1(
                segment(),
                &refused,
                checksum,
                frame
            )
            .err()
            .map(|error| error.kind()),
            Some(DurableCodecErrorKind::InvariantViolation)
        );
    }
}

#[test]
fn sealing_sets_the_digest_and_measures_the_envelope() {
    let sealed = seal_segment_under(segment(), digest(9), Ok(vec![7; 12]))
        .ok()
        .expect("sealed");
    assert_eq!(sealed.segment.segment_digest, digest(9));
    assert_eq!(sealed.envelope.as_bytes(), &[7; 12]);
    assert_eq!(sealed.metrics.raw_envelope_bytes(), 12);
    assert_eq!(sealed.metrics.selected_envelope_bytes(), 12);
    let encodings = [encodings(), encodings()];
    assert_eq!(
        seal_and_encode_command_segment_v1(segment(), &encodings, checksum, |_, _| Err(
            EnvelopeError::EnvelopeTooLarge
        ))
        .err()
        .map(|error| error.kind()),
        Some(DurableCodecErrorKind::LimitExceeded)
    );
    let (held, envelope) =
        seal_and_encode_command_segment_v1(segment(), &encodings, checksum, |_, payload| {
            Ok(payload)
        })
        .ok()
        .expect("sealed");
    let body = segment_body_bytes_for_seal(
        &segment(),
        &encodings,
        checksum(manifest_digest_preimage(&segment().manifest)),
    );
    assert_eq!(
        envelope.as_bytes(),
        raw_segment_payload(&body, held.segment_digest).as_slice()
    );
}

// A stand-in for the command document hash.
fn checksum(preimage: Vec<u8>) -> Digest {
    let mut held = [0u8; 32];
    for (place, byte) in preimage.iter().enumerate() {
        held[place % 32] = held[place % 32].wrapping_mul(31).wrapping_add(*byte);
    }
    Digest::from_bytes(held)
}

#[test]
fn segment_digests_cover_manifest_and_body() {
    let held = segment();
    let encodings = [encodings(), encodings()];
    let digests = command_segment_digest_v1(&held, &encodings, checksum);
    assert_eq!(
        digests.manifest,
        checksum(manifest_digest_preimage(&held.manifest))
    );
    let body = segment_body_bytes_for_seal(&held, &encodings, digests.manifest);
    assert_eq!(digests.segment, checksum(segment_digest_preimage(&body)));
    let mut other = segment();
    other.history_incarnation = 2;
    assert_ne!(
        command_segment_digest_v1(&other, &encodings, checksum).segment,
        digests.segment
    );
}

#[test]
fn segments_come_back_as_they_were() {
    let digests = SegmentDigests {
        segment: digest(9),
        manifest: digest(8),
    };
    let sealed = segment().with_segment_digest(digest(9));
    let outgoing = |digests| encode_segment_under(&sealed, digests);
    let Ok(OutgoingSegment::V3(record)) = outgoing(digests) else {
        panic!("the fourth command form is enough");
    };
    assert_eq!(record.record_type, RecordType::StoredCommandSegmentV3);
    let (form, encoded_len) = find_segment(
        Ok(RecordType::StoredCommandSegmentV3),
        SegmentAttempts {
            v1: nothing(),
            v2: nothing(),
            v3: read(record.message),
            v4: nothing(),
            v5: nothing(),
        },
    )
    .ok()
    .expect("form");
    let decode = |form: &SegmentForm, digests, verdicts| {
        decode_segment_under(
            form,
            encoded_len,
            digests,
            &document(),
            &[SOUND, SOUND],
            verdicts,
        )
    };
    let item = decode(&form, digests, ACCEPTED).expect("segment");
    assert_eq!(item.value, sealed);
    assert_eq!(item.charge.get(), 33);

    let kind = |digests, verdicts| {
        decode(&form, digests, verdicts)
            .err()
            .map(|error| error.kind())
    };
    let corrupt = Some(DurableCodecErrorKind::CorruptData);
    // Neither digest may be another one.
    assert_eq!(
        kind(
            SegmentDigests {
                segment: digest(1),
                ..digests
            },
            ACCEPTED
        ),
        corrupt
    );
    assert_eq!(
        kind(
            SegmentDigests {
                manifest: digest(1),
                ..digests
            },
            ACCEPTED
        ),
        corrupt
    );
    assert_eq!(
        kind(
            digests,
            SegmentVerdicts {
                manifest: Some(StorageValueError::LimitExceeded),
                segment: None
            }
        ),
        Some(DurableCodecErrorKind::LimitExceeded)
    );
    // A segment is not encoded under a digest that is not its own.
    assert!(outgoing(SegmentDigests {
        segment: digest(1),
        ..digests
    })
    .is_err());
}

#[test]
fn segments_name_their_own_sequences() {
    let digests = SegmentDigests {
        segment: digest(9),
        manifest: digest(8),
    };
    let sealed = segment().with_segment_digest(digest(9));
    let Ok(OutgoingSegment::V3(mut record)) = encode_segment_under(&sealed, digests) else {
        panic!("the fourth command form is enough");
    };
    if let Some(body) = &mut record.message.body {
        body.frame.last_commit_sequence = 9;
    }
    assert_eq!(
        decode_segment_under(
            &SegmentForm::V3(record.message),
            33,
            digests,
            &document(),
            &[SOUND, SOUND],
            ACCEPTED
        )
        .expect_err("wrong sequence")
        .kind(),
        DurableCodecErrorKind::CorruptData
    );
    let failure = find_segment(
        Ok(RecordType::StoredCommandCapsuleV4),
        SegmentAttempts {
            v1: nothing(),
            v2: nothing(),
            v3: nothing(),
            v4: nothing(),
            v5: nothing(),
        },
    );
    assert_eq!(
        failure.err().map(|error| error.kind()),
        Some(DurableCodecErrorKind::UnexpectedRecordType)
    );
}

#[test]
fn sealed_segments_decode_from_their_own_bytes() {
    let encodings = [encodings(), encodings()];
    let digests = command_segment_digest_v1(&segment(), &encodings, checksum);
    let sealed = segment().with_segment_digest(digests.segment);
    let body = segment_body_bytes_for_seal(&sealed, &encodings, digests.manifest);
    let form = || {
        let Ok(OutgoingSegment::V3(record)) =
            encode_command_segment_v1(&sealed, &encodings, checksum)
        else {
            panic!("the fourth command form is enough");
        };
        SegmentForm::V3(record.message)
    };
    let decode = |form: &SegmentForm, body: &[u8]| {
        decode_command_segment_v1(
            form,
            33,
            |_| body.to_vec(),
            checksum,
            &document(),
            |_, _| SOUND,
            |_| ACCEPTED,
        )
    };
    assert_eq!(decode(&form(), &body).expect("segment").value, sealed);
    assert!(decode(&form(), &body[1..]).is_err());
    // Neither may an entry of the manifest be another one.
    let SegmentForm::V3(mut message) = form() else {
        panic!("the third form");
    };
    if let Some(body) = &mut message.body {
        if let Some(manifest) = &mut body.frame.manifest {
            manifest.entries[0].command_ordinal += 1;
        }
    }
    assert!(decode(&SegmentForm::V3(message), &body).is_err());
    assert_eq!(
        decode_command_segment_v1(
            &form(),
            33,
            |_| body.clone(),
            checksum,
            &document(),
            |_, place| CapsuleVerdicts {
                whole: Some(StorageValueError::LimitExceeded).filter(|_| place == 1),
                ..SOUND
            },
            |_| ACCEPTED,
        )
        .expect_err("second command")
        .kind(),
        DurableCodecErrorKind::LimitExceeded
    );
    // A segment whose digest is not that of its body is not encoded.
    assert!(encode_command_segment_v1(&segment(), &encodings, checksum).is_err());
}

#[test]
fn checkpoints_are_bound_to_their_digest() {
    let checkpoint = StoredCommandDerivedIndexCheckpointV1 {
        database_id: identifier(1),
        history_incarnation: 1,
        registry_digest: digest(2),
        segment_frontier: sequence(8),
        segment_root_digest: digest(9),
        entries: vec![entry()],
        checkpoint_digest: digest(4),
    };
    // A stand-in for the message's encoding; it holds the stored digest.
    let encode = |message: &wire::StoredCommandDerivedIndexCheckpointV1| {
        let mut bytes = message.registry_digest.clone();
        bytes.extend_from_slice(&message.checkpoint_digest);
        bytes
    };
    let computed = command_derived_index_checkpoint_digest_v1(&checkpoint, encode, checksum);
    let mut preimage = b"RIFFDB-COMMAND-DERIVED-INDEX-CHECKPOINT-V1\0".to_vec();
    preimage.extend_from_slice(&[2; 32]);
    assert_eq!(computed, checksum(preimage));
    // The stored digest is another one.
    assert!(encode_command_derived_index_checkpoint_v1(&checkpoint, encode, checksum).is_err());
    let sealed = StoredCommandDerivedIndexCheckpointV1 {
        checkpoint_digest: computed,
        ..checkpoint
    };
    assert_eq!(
        command_derived_index_checkpoint_digest_v1(&sealed, encode, checksum),
        computed
    );
    let outgoing = || {
        encode_command_derived_index_checkpoint_v1(&sealed, encode, checksum)
            .ok()
            .expect("checkpoint")
            .message
    };
    let item = decode_command_derived_index_checkpoint_v1(
        read(outgoing()),
        encode,
        checksum,
        |_| None,
    )
    .expect("checkpoint");
    assert_eq!(item.value, sealed);
    let mut damaged = outgoing();
    damaged.registry_digest[0] ^= 1;
    assert_eq!(
        decode_command_derived_index_checkpoint_v1(read(damaged), encode, checksum, |_| None)
            .expect_err("another digest")
            .kind(),
        DurableCodecErrorKind::CorruptData
    );
}

#[test]
fn command_records_are_framed_and_staged_together() {
    let held = capsule(7);
    let live = StoredEntityRecordV1 {
        target: target(1),
        entity_version: id64(4),
        written_by_contract: id64(1),
        schema_binding: advance().post_image.schema_binding,
        fields: document(),
    };
    let records = AtomicCommandRecordSet {
        next_application_sequence: ApplicationSequenceAllocator::Next(sequence(8)),
        entities: vec![
            CommittedEntityChange::Deleted(target(2)),
            CommittedEntityChange::Live(CommittedEntityMutationV1 {
                expected: ExpectedEntityState::Absent,
                post_image: live.clone(),
            }),
        ],
        index_entries: vec![IndexEntryMutationV1::Delete(vec![1])],
        index_epochs: vec![advance()],
        stored_outcome: held.outcome,
        events: vec![event(7)],
        outbox_intents: vec![StoredOutboxIntentV1 { event: event(7) }],
        provenance: held.provenance,
        commit: held.commit,
    };
    // Each kind of record is framed to a length of its own.
    let frame = |record| {
        Ok(match record {
            OutgoingCommandRecord::Allocator(_) => vec![1; 1],
            OutgoingCommandRecord::Entity(record) => {
                assert_eq!(record.record_type, RecordType::StoredEntityRecordV1);
                let item = decode_entity_record_v1(read(record.message), |_| None);
                assert_eq!(item.expect("entity").value, live);
                vec![2; 2]
            }
            OutgoingCommandRecord::IndexEntry(_) => vec![3; 3],
            OutgoingCommandRecord::IndexEpoch(_) => vec![4; 4],
            OutgoingCommandRecord::Outcome(_) => vec![5; 5],
            OutgoingCommandRecord::Event(_) => vec![6; 6],
            OutgoingCommandRecord::EventRoute(_) => vec![7; 7],
            OutgoingCommandRecord::OutboxIntent(_) => vec![8; 8],
            OutgoingCommandRecord::Provenance(_) => vec![9; 9],
            OutgoingCommandRecord::Commit(_) => vec![10; 10],
        })
    };
    let classes = RawWriteClassBreakdownV1 {
        allocator: 1,
        pending_resolution: 0,
        entities: 2 + 11,
        index_entries: 0,
        index_epochs: 4,
        outcome: 5,
        events: 6 + 7,
        outbox_intents: 8,
        provenance: 9,
        commit: 10,
    };
    let reserved =
        EncodedWriteSetUpperBound::new(CommandWriteClassBreakdownV1::new(classes).expect("sum"))
            .expect("reservation");
    let set = encode_atomic_command_record_set_v1(
        &records,
        vec![None, Some(Ok(vec![11; 11]))],
        reserved,
        frame,
    )
    .ok()
    .expect("record set");
    assert_eq!(set.actual_charge().classes, classes);
    assert!(set.entities()[0].is_none());
    assert_eq!(
        set.entities()[1].as_ref().expect("live").as_bytes(),
        &[2, 2]
    );
    assert_eq!(set.commit().as_bytes(), &[10; 10]);
    assert_eq!(
        encode_atomic_command_record_set_v1(
            &records,
            vec![Some(Ok(vec![11; 12]))],
            reserved,
            frame
        )
        .err()
        .map(|error| error.kind()),
        Some(DurableCodecErrorKind::ReservationExceeded)
    );
}
