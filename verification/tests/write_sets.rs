//! Reservations of write sets and what is checked against them.

use riffdb_storage_api::codec::bounds::{
    conservative_entity_reference_payload_len, sizing_event_id_len, sizing_event_len,
    sizing_index_epoch_len, CommandMeasure, EventMeasure, IndexEntryMeasure, IndexEpochMeasure,
    MutationMeasure,
};
use riffdb_storage_api::codec::error::{DurableCodecErrorKind, EnvelopeError};
use riffdb_storage_api::codec::record_set::{
    encode_capsule_command_record_set_v1,
    prepare_capsule_command_fragments_v1, seal_command_records, CommittedEntityChange,
    FramedCommandRecords, IndexEntryMutationV1,
};
use riffdb_storage_api::codec::record_type::RecordType;
use riffdb_storage_api::codec::reservation::{
    command_payloads, command_write_set_upper_bound_v1,
    command_write_set_upper_bound_with_vector_evidence_v1, finish_upper_bound,
    verify_actual_write_set_charge_v1,
    EncodedWriteSetUpperBoundResultV1, VectorEvidenceSizing,
};
use riffdb_storage_api::codec::sizing::{
    add_repeated, key_len, length_delimited_field_len, sum_sizes, varint_field_len,
};
use riffdb_storage_api::ids::{Digest, Id32, Id64};
use riffdb_storage_api::keys::CanonicalRecord;
use riffdb_storage_api::limits::MAX_STAGED_WRITE_BYTES;
use riffdb_storage_api::protobuf::WireType;
use riffdb_storage_api::records::{DurableKeySchemaBindingV1, EntityTarget, StoredEntityRecordV1};
use riffdb_storage_api::stored::application::{CommittedEntityMutationV1, StoredIndexEpochV1};
use riffdb_storage_api::stored::command_segment::IndexEpochAdvanceV1;
use riffdb_storage_api::stored::common::ExpectedEntityState;
use riffdb_storage_api::value_error::StorageValueError;
use riffdb_storage_api::write_set::{
    CommandWriteClassBreakdownV1, EncodedWriteSetUpperBound, RawWriteClassBreakdownV1,
};

fn raw(allocator: usize) -> RawWriteClassBreakdownV1 {
    RawWriteClassBreakdownV1 {
        allocator,
        pending_resolution: 0,
        entities: 0,
        index_entries: 0,
        index_epochs: 0,
        outcome: 0,
        events: 0,
        outbox_intents: 0,
        provenance: 0,
        commit: 0,
    }
}

#[test]
fn only_a_successful_final_comparison_produces_the_aggregate_cap_variant() {
    let exact = raw(MAX_STAGED_WRITE_BYTES);
    assert!(matches!(
        finish_upper_bound(exact),
        Ok(EncodedWriteSetUpperBoundResultV1::Fits(bound))
            if bound.total() == MAX_STAGED_WRITE_BYTES
    ));

    let over = raw(MAX_STAGED_WRITE_BYTES + 1);
    assert!(matches!(
        finish_upper_bound(over),
        Ok(EncodedWriteSetUpperBoundResultV1::ExceedsAcceptedAggregateCap(_))
    ));

    let overflow = RawWriteClassBreakdownV1 {
        allocator: usize::MAX,
        pending_resolution: 1,
        ..raw(0)
    };
    assert_eq!(
        finish_upper_bound(overflow)
            .expect_err("checked aggregate overflow remains a codec error")
            .kind(),
        DurableCodecErrorKind::LimitExceeded
    );
}

#[test]
fn field_lengths_are_those_of_the_wire_format() {
    assert_eq!(key_len(1, WireType::Varint), 1);
    assert_eq!(key_len(15, WireType::LengthDelimited), 1);
    assert_eq!(key_len(16, WireType::LengthDelimited), 2);
    assert_eq!(varint_field_len(1, 0), Ok(2));
    assert_eq!(varint_field_len(1, 127), Ok(2));
    assert_eq!(varint_field_len(1, 128), Ok(3));
    assert_eq!(varint_field_len(1, 16_383), Ok(3));
    assert_eq!(varint_field_len(1, 16_384), Ok(4));
    assert_eq!(varint_field_len(1, u64::MAX), Ok(11));
    assert_eq!(length_delimited_field_len(3, 0), Ok(2));
    assert_eq!(length_delimited_field_len(3, 127), Ok(129));
    assert_eq!(length_delimited_field_len(3, 128), Ok(131));
    assert_eq!(
        length_delimited_field_len(3, usize::MAX).map_err(|error| error.kind()),
        Err(DurableCodecErrorKind::InvariantViolation)
    );
}

#[test]
fn sums_hand_on_the_first_failure() {
    let limit = sum_sizes(&[Ok(usize::MAX), Ok(1)]).expect_err("overflow");
    assert_eq!(limit.kind(), DurableCodecErrorKind::LimitExceeded);
    let first = length_delimited_field_len(1, usize::MAX);
    assert_eq!(sum_sizes(&[Ok(1), first, Ok(usize::MAX)]), first);
    assert_eq!(sum_sizes(&[Ok(1), Ok(2), Ok(4)]), Ok(7));
    assert_eq!(add_repeated(10, 9, &[Ok(32), Ok(32)]), Ok(10 + 34 + 34));
}

#[test]
fn reservations_count_fields_that_a_final_record_leaves_out() {
    // A sequence at full width and an ordinal of zero, which counts as written.
    assert_eq!(sizing_event_id_len(0), 11 + 2);
    assert_eq!(sizing_event_id_len(u32::MAX), 11 + 6);
    assert_eq!(
        conservative_entity_reference_payload_len(20),
        Ok((2 + 20) + 11 + (2 + 32))
    );
    let event = EventMeasure {
        event_type_id: 300,
        payload_len: 10,
    };
    assert_eq!(
        sizing_event_len(event, 0),
        Ok((2 + 13) + 3 + (2 + 10) + (2 + 32))
    );
    let epoch = IndexEpochMeasure {
        partition_key_len: 7,
        index_id: 1,
        schema_binding_len: 50,
        epoch: 1,
    };
    assert_eq!(
        sizing_index_epoch_len(epoch),
        Ok((2 + 7) + 2 + (2 + 50) + 2)
    );
}

fn measure() -> CommandMeasure {
    CommandMeasure {
        identity_len: 80,
        plan_len: 90,
        actor_len: 20,
        logical_time_len: 6,
        claims_len: 0,
        schema_binding_len: 45,
        outcome_id: 1,
        outcome_value_len: 12,
        read_dependencies_len: Ok(30),
        partition_key_len: 8,
        conflict_hashes: 2,
        causation_len: None,
        service_values_len: Some(6),
        mutations: vec![MutationMeasure {
            target_len: 20,
            written_by_contract: 1,
            fields_len: 40,
        }],
        events: vec![EventMeasure {
            event_type_id: 3,
            payload_len: 10,
        }],
    }
}

// An envelope that adds forty bytes to every payload.
fn forty_more(_: RecordType, payload: usize) -> Result<usize, EnvelopeError> {
    Ok(payload + 40)
}

#[test]
fn a_command_is_reserved_class_by_class() {
    let entries = [
        IndexEntryMeasure::Delete,
        IndexEntryMeasure::Put {
            key_len: 30,
            schema_binding_len: 45,
            covered_values_len: 6,
            partition_key_len: 8,
        },
    ];
    let payloads = command_payloads(&measure(), &entries, &[]).expect("payloads");
    assert_eq!(payloads.allocator, Ok(11));
    assert_eq!(payloads.index_entries, vec![Ok(32 + 47 + 8 + 10)]);
    // Target, version at full width, contract, schema binding and fields.
    assert_eq!(payloads.entities, vec![Ok(22 + 11 + 2 + 47 + 42)]);
    let declared = 2 + 14;
    let fixed_outcome = 82 + 11 + 18 + (2 + 90) + 34 + 22 + 8 + 34 + (2 + declared) + 2 + 18 + 2 + 10;
    let base = fixed_outcome + 2 * 34;
    let successor = 1 + 2 + base;
    assert_eq!(payloads.outcome, 1 + 2 + successor + (2 + 6));

    let bound =
        command_write_set_upper_bound_v1(&measure(), &entries, &[], forty_more).expect("bound");
    let EncodedWriteSetUpperBoundResultV1::Fits(bound) = bound else {
        panic!("a small command fits");
    };
    let classes = bound.classes().classes;
    assert_eq!(classes.allocator, 51);
    assert_eq!(classes.pending_resolution, 0);
    assert_eq!(classes.entities, 124 + 40);
    assert_eq!(classes.index_entries, 97 + 40);
    assert_eq!(classes.index_epochs, 0);

    // Vector evidence is charged with the entities.
    let evidence = [
        VectorEvidenceSizing::Put(Ok(100)),
        VectorEvidenceSizing::Delete,
    ];
    let with = command_write_set_upper_bound_with_vector_evidence_v1(
        &measure(),
        &entries,
        &[],
        &evidence,
        forty_more,
    )
    .expect("bound");
    let EncodedWriteSetUpperBoundResultV1::Fits(with) = with else {
        panic!("a small command fits");
    };
    assert_eq!(with.classes().classes.entities, 124 + 40 + 100);
    assert_eq!(with.total(), bound.total() + 100);
    assert_eq!(
        command_write_set_upper_bound_with_vector_evidence_v1(
            &measure(),
            &entries,
            &[],
            &[VectorEvidenceSizing::Refused(StorageValueError::Empty)],
            forty_more,
        )
        .expect_err("refused evidence")
        .kind(),
        DurableCodecErrorKind::CorruptData
    );
}

#[test]
fn sizing_fails_as_its_first_unsound_part_does() {
    let mut refused = measure();
    refused.read_dependencies_len = Err(StorageValueError::LimitExceeded);
    refused.service_values_len = None;
    assert_eq!(
        command_payloads(&refused, &[], &[])
            .expect_err("dependencies come first")
            .kind(),
        DurableCodecErrorKind::LimitExceeded
    );
    let mut unencodable = measure();
    unencodable.service_values_len = None;
    assert_eq!(
        command_payloads(&unencodable, &[], &[])
            .expect_err("service values")
            .kind(),
        DurableCodecErrorKind::InvariantViolation
    );
    assert_eq!(
        command_write_set_upper_bound_v1(&measure(), &[], &[], |record_type, payload| {
            if record_type == RecordType::StoredCommitRecordV3 {
                Err(EnvelopeError::PayloadTooLarge)
            } else {
                Ok(payload)
            }
        })
        .expect_err("commit does not frame")
        .kind(),
        DurableCodecErrorKind::LimitExceeded
    );
}

#[test]
fn every_class_is_reserved_as_its_record_type() {
    // Each record type takes a length of its own.
    let bound = command_write_set_upper_bound_v1(&measure(), &[], &[], |record_type, _| {
        Ok(match record_type {
            RecordType::StoredOutcomeV3 => 1,
            RecordType::StoredApplicationSequenceAllocatorV1 => 2,
            RecordType::StoredEntityRecordV1 => 3,
            RecordType::StoredDurableEventV1 => 4,
            RecordType::StoredEventRouteV1 => 5,
            RecordType::StoredOutboxIntentV2 => 6,
            RecordType::StoredProvenanceRecordV2 => 7,
            RecordType::StoredCommitRecordV3 => 8,
            _ => 100,
        })
    })
    .expect("bound");
    let EncodedWriteSetUpperBoundResultV1::Fits(bound) = bound else {
        panic!("a small command fits");
    };
    assert_eq!(
        bound.classes().classes,
        RawWriteClassBreakdownV1 {
            allocator: 2,
            pending_resolution: 0,
            entities: 3,
            index_entries: 0,
            index_epochs: 0,
            outcome: 1,
            events: 4 + 5,
            outbox_intents: 6,
            provenance: 7,
            commit: 8,
        }
    );
}

fn reserve(classes: RawWriteClassBreakdownV1) -> EncodedWriteSetUpperBound {
    EncodedWriteSetUpperBound::new(CommandWriteClassBreakdownV1::new(classes).expect("classes"))
        .expect("reservation")
}

#[test]
fn every_class_is_held_to_its_reservation() {
    let reserved = reserve(RawWriteClassBreakdownV1 {
        events: 10,
        ..raw(100)
    });
    let charge = |classes| CommandWriteClassBreakdownV1::new(classes).expect("classes");
    assert!(verify_actual_write_set_charge_v1(charge(raw(100)), reserved).is_ok());
    // The total fits, but one class does not.
    let moved = RawWriteClassBreakdownV1 {
        events: 11,
        ..raw(1)
    };
    assert_eq!(
        verify_actual_write_set_charge_v1(charge(moved), reserved)
            .expect_err("class exceeds")
            .kind(),
        DurableCodecErrorKind::ReservationExceeded
    );
    assert_eq!(
        CommandWriteClassBreakdownV1::new(RawWriteClassBreakdownV1 {
            commit: 1,
            ..raw(usize::MAX)
        }),
        Err(StorageValueError::SizeOverflow)
    );
}

fn framed(bytes: usize) -> Result<Vec<u8>, EnvelopeError> {
    Ok(vec![1; bytes])
}

fn records() -> FramedCommandRecords {
    FramedCommandRecords {
        allocator: framed(5),
        entities: vec![Some(framed(10)), None],
        vector_evidence: vec![Some(framed(3))],
        index_entries: vec![None, Some(framed(7))],
        index_epochs: vec![framed(4)],
        outcome: framed(20),
        events: vec![framed(6)],
        event_routes: vec![framed(2)],
        outbox_intents: vec![framed(1)],
        provenance: framed(8),
        commit: framed(9),
    }
}

fn enough() -> RawWriteClassBreakdownV1 {
    RawWriteClassBreakdownV1 {
        allocator: 5,
        pending_resolution: 0,
        entities: 13,
        index_entries: 7,
        index_epochs: 4,
        outcome: 20,
        events: 8,
        outbox_intents: 1,
        provenance: 8,
        commit: 9,
    }
}

#[test]
fn record_sets_are_charged_for_their_exact_bytes() {
    let set = seal_command_records(&records(), reserve(enough()))
        .ok()
        .expect("record set");
    assert_eq!(set.actual_charge().classes, enough());
    assert_eq!(set.entities().len(), 2);
    assert!(set.entities()[1].is_none());
    assert_eq!(set.outcome().as_bytes().len(), 20);

    let tight = RawWriteClassBreakdownV1 {
        entities: 12,
        ..enough()
    };
    assert_eq!(
        seal_command_records(&records(), reserve(tight))
            .err()
            .map(|error| error.kind()),
        Some(DurableCodecErrorKind::ReservationExceeded)
    );
    let mut empty = records();
    empty.events = vec![framed(0)];
    assert_eq!(
        seal_command_records(&empty, reserve(enough()))
            .err()
            .map(|error| error.kind()),
        Some(DurableCodecErrorKind::InvariantViolation)
    );
    let mut large = records();
    large.provenance = Err(EnvelopeError::EnvelopeTooLarge);
    assert_eq!(
        seal_command_records(&large, reserve(enough()))
            .err()
            .map(|error| error.kind()),
        Some(DurableCodecErrorKind::LimitExceeded)
    );
}

fn change() -> CommittedEntityChange {
    CommittedEntityChange::Live(CommittedEntityMutationV1 {
        expected: ExpectedEntityState::Absent,
        post_image: StoredEntityRecordV1 {
            target: EntityTarget {
                entity_type_id: Id32::new(1).expect("type"),
                key: vec![1],
            },
            entity_version: Id64::new(4).expect("version"),
            written_by_contract: Id64::new(1).expect("contract"),
            schema_binding: DurableKeySchemaBindingV1 {
                lineage: "budget".to_owned(),
                contract_version: Id64::new(1).expect("contract"),
                bundle_hash: Digest::from_bytes([1; 32]),
            },
            fields: CanonicalRecord {
                fields: Vec::new(),
                encoded: vec![14, 1, 0, 0, 0, 0],
            },
        },
    })
}

fn deletion() -> CommittedEntityChange {
    CommittedEntityChange::Deleted(EntityTarget {
        entity_type_id: Id32::new(1).expect("type"),
        key: vec![2],
    })
}

fn epoch() -> IndexEpochAdvanceV1 {
    IndexEpochAdvanceV1 {
        post_image: StoredIndexEpochV1 {
            partition_key: vec![5, 5],
            index_id: Id32::new(6).expect("index"),
            schema_binding: DurableKeySchemaBindingV1 {
                lineage: "budget".to_owned(),
                contract_version: Id64::new(1).expect("contract"),
                bundle_hash: Digest::from_bytes([4; 32]),
            },
            epoch: Id64::new(1).expect("epoch"),
        },
        prior: None,
    }
}

#[test]
fn prepared_fragments_refer_to_live_entities_alone() {
    let hash = Digest::from_bytes([6; 32]);
    let prepared = prepare_capsule_command_fragments_v1(
        vec![deletion(), change()],
        vec![IndexEntryMutationV1::Delete(vec![1])],
        |_| framed(10),
        |_| Ok(hash),
    )
    .ok()
    .expect("fragments");
    assert_eq!(prepared.entities().len(), 2);
    assert_eq!(prepared.entity_references().len(), 1);
    assert_eq!(prepared.entity_references()[0].entity_version.get(), 4);
    assert_eq!(prepared.entity_references()[0].post_image_hash, hash);
    assert_eq!(
        prepare_capsule_command_fragments_v1(
            vec![change()],
            Vec::new(),
            |_| framed(10),
            |_| Err(StorageValueError::LimitExceeded),
        )
        .err()
        .map(|error| error.kind()),
        Some(DurableCodecErrorKind::LimitExceeded)
    );

    let (_, _, _, encoded) = prepared.into_parts();
    let set = encode_capsule_command_record_set_v1(
        Some(encoded),
        Vec::new(),
        Vec::new(),
        &[epoch()],
        &[],
        reserve(enough()),
        |_| framed(4),
        |_| Ok(hash),
    )
    .ok()
    .expect("record set");
    let (entities, evidence, index_entries, epochs) = set.into_parts();
    assert_eq!(entities.len(), 2);
    assert!(evidence.is_empty());
    assert_eq!(index_entries.len(), 1);
    assert_eq!(epochs[0].as_bytes().len(), 4);

    let prepared = prepare_capsule_command_fragments_v1(
        vec![change()],
        Vec::new(),
        |_| framed(14),
        |_| Ok(hash),
    )
    .ok()
    .expect("fragments");
    let (_, _, _, encoded) = prepared.into_parts();
    assert_eq!(
        encode_capsule_command_record_set_v1(
            Some(encoded),
            Vec::new(),
            Vec::new(),
            &[],
            &[],
            reserve(enough()),
            |_| framed(4),
            |_| Ok(hash)
        )
        .err()
        .map(|error| error.kind()),
        Some(DurableCodecErrorKind::ReservationExceeded)
    );
}

#[test]
fn envelopes_that_were_not_prepared_are_prepared_with_the_record_set() {
    let hash = Digest::from_bytes([6; 32]);
    let encode = |framing: fn() -> Result<Vec<u8>, EnvelopeError>, digest| {
        encode_capsule_command_record_set_v1(
            None,
            vec![deletion(), change()],
            vec![IndexEntryMutationV1::Delete(vec![1])],
            &[],
            &[],
            reserve(enough()),
            |_| framing(),
            |_| digest,
        )
    };
    let (entities, _, index_entries, _) = encode(|| framed(9), Ok(hash))
        .ok()
        .expect("record set")
        .into_parts();
    assert_eq!(entities.len(), 2);
    assert!(entities[0].is_none());
    assert_eq!(entities[1].as_ref().map(|held| held.as_bytes().len()), Some(9));
    assert!(index_entries[0].is_none());
    // What preparing refuses is refused.
    assert_eq!(
        encode(|| framed(9), Err(StorageValueError::SizeOverflow))
            .err()
            .map(|error| error.kind()),
        Some(DurableCodecErrorKind::LimitExceeded)
    );
    assert_eq!(
        encode(|| framed(14), Ok(hash))
            .err()
            .map(|error| error.kind()),
        Some(DurableCodecErrorKind::ReservationExceeded)
    );
}
