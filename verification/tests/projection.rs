//! Projection rows, snapshots, applies, batches and queries.

use riffdb_storage_api::codec::envelope::ReadAttempt;
use riffdb_storage_api::codec::error::{DurableCodecErrorKind, EnvelopeError};
use riffdb_storage_api::codec::projection::{
    decode_projection_apply_v1, decode_projection_state_structural_v1, decode_projection_state_v1,
    encode_projection_apply_v1, encode_projection_state_v1,
};
use riffdb_storage_api::ids::{CommitSequence, Digest, FrontierPosition, ProjectionGeneration};
use riffdb_storage_api::keys::{
    CanonicalField, CanonicalKind, CanonicalRecord, CanonicalValue, ProjectionApplyKey,
    ProjectionGroupKey, ProjectionGroupKeyBuilder, ProjectionIdentity,
};
use riffdb_storage_api::limits::{
    MAX_CANONICAL_DOCUMENT_BYTES, MAX_KEY_BYTES, MAX_PROJECTION_APPLY_SNAPSHOT_BYTES,
    MAX_PROJECTION_QUERY_CONTENT_BYTES, MAX_PROJECTION_ROW_UPDATES,
    MAX_PROJECTION_STATE_SEMANTIC_BYTES, MAX_PROJECTION_WRITE_SET_BYTES,
};
use riffdb_storage_api::page::{EncodedContentCharge, EncodedPageItem, NonZeroLimit};
use riffdb_storage_api::projection::apply::{encode_apply_payload, ProjectionApplyRequestV1};
use riffdb_storage_api::projection::batch::ProjectionApplyBatchV1;
use riffdb_storage_api::projection::control::{
    ProjectionFailureCodeV1, ProjectionGenerationPosition, ProjectionLifecycleV1,
    StoredProjectionControlV1,
};
use riffdb_storage_api::projection::query::{
    ProjectionLowerContinuation, ProjectionQueryRequest, ProjectionQueryResult,
    ProjectionQuerySelector, ProjectionStatus, ProjectionUnavailableReason,
};
use riffdb_storage_api::projection::sizes::{
    framed_bytes, projection_state_semantic_bytes, validate_projection_query_encoded_bytes,
    validate_projection_snapshot_semantic_bytes, validate_projection_write_set_semantic_bytes,
};
use riffdb_storage_api::projection::snapshot::{
    minimum_projection_snapshot_semantic_bytes, ProjectionApplyRowObservation,
    ProjectionApplySnapshot, ProjectionApplySnapshotBuilder, ProjectionApplySnapshotRequest,
};
use riffdb_storage_api::projection::state::{
    ProjectionRowPrior, ProjectionRowUpdateV1, StoredProjectionApplyV1, StoredProjectionStateV1,
    StructurallyDecodedProjectionStateV1,
};
use riffdb_storage_api::projection_schema::{
    CheckedProjectionSchema, ProjectionMeasureField, ProjectionValueType,
};
use riffdb_storage_api::value_error::StorageValueError;

fn value(kind: CanonicalKind, tag: u8, payload: &[u8]) -> CanonicalValue {
    let mut encoded = vec![tag, 1];
    encoded.extend_from_slice(payload);
    CanonicalValue { kind, encoded }
}

fn string(text: &str) -> CanonicalValue {
    let mut payload = (text.len() as u32).to_be_bytes().to_vec();
    payload.extend_from_slice(text.as_bytes());
    value(CanonicalKind::String, 7, &payload)
}

fn number(held: u64) -> CanonicalValue {
    value(CanonicalKind::U64, 4, &held.to_be_bytes())
}

fn byte_string(length: usize) -> CanonicalValue {
    let mut payload = (length as u32).to_be_bytes().to_vec();
    payload.resize(4 + length, 0xa5);
    value(CanonicalKind::Bytes, 8, &payload)
}

fn record(fields: Vec<(u32, CanonicalValue)>) -> CanonicalRecord {
    let mut encoded = vec![14, 1];
    encoded.extend_from_slice(&(fields.len() as u32).to_be_bytes());
    let mut held = Vec::new();
    for (id, value) in fields {
        encoded.extend_from_slice(&id.to_be_bytes());
        encoded.extend_from_slice(&value.encoded);
        held.push(CanonicalField { id, value });
    }
    CanonicalRecord {
        fields: held,
        encoded,
    }
}

fn projection_identity() -> ProjectionIdentity {
    ProjectionIdentity::new("budget".to_owned(), 1, Digest::from_bytes([7; 32]))
}

fn maximum_key_projection_schema() -> CheckedProjectionSchema {
    let identity = ProjectionIdentity::new("A".repeat(256), 1, Digest::from_bytes([9; 32]));
    CheckedProjectionSchema::new(
        identity,
        vec![ProjectionValueType {
            kind: CanonicalKind::String,
            maximum_encoded_bytes: 6 + 3_780,
        }],
        vec![ProjectionMeasureField {
            id: 1,
            value_type: ProjectionValueType {
                kind: CanonicalKind::U64,
                maximum_encoded_bytes: 10,
            },
        }],
        2 + 4 + 256 + 4 + 32 + 8 + 4 + 6 + 3_780,
        MAX_PROJECTION_STATE_SEMANTIC_BYTES,
    )
}

fn count_measures() -> CanonicalRecord {
    record(vec![(1, number(1))])
}

fn first() -> FrontierPosition {
    FrontierPosition::AppliedThrough(CommitSequence::first())
}

fn sequence(held: u64) -> CommitSequence {
    CommitSequence::new(held).expect("nonzero commit sequence")
}

#[test]
fn structural_projection_state_requires_context_before_operational_use() {
    let schema = maximum_key_projection_schema();
    let generation = ProjectionGeneration::first();
    let group_value = string("group-a");
    let key = schema
        .group_key(generation, std::slice::from_ref(&group_value))
        .expect("schema-valid key");
    let expected =
        StoredProjectionStateV1::new(&schema, key, count_measures(), CommitSequence::first())
            .expect("schema-valid state");

    let structural = StructurallyDecodedProjectionStateV1::from_stored_parts(
        schema.identity().clone(),
        generation,
        vec![group_value],
        count_measures(),
        CommitSequence::first(),
    )
    .ok()
    .expect("structurally valid state");
    assert_eq!(structural.identity(), schema.identity());
    assert_eq!(structural.generation(), generation);
    assert_eq!(structural.group_values().len(), 1);
    assert_eq!(structural.measures(), expected.measures());
    assert_eq!(structural.last_changed_sequence(), CommitSequence::first());
    assert_eq!(structural.into_checked(&schema), Ok(expected));

    let wrong_type = StructurallyDecodedProjectionStateV1::from_stored_parts(
        schema.identity().clone(),
        generation,
        vec![number(1)],
        count_measures(),
        CommitSequence::first(),
    )
    .ok()
    .expect("u64 is structurally canonical");
    assert_eq!(
        wrong_type.into_checked(&schema),
        Err(StorageValueError::InvalidShape)
    );
}

#[test]
fn structural_projection_state_rejects_non_scalar_empty_and_over_limit_parts() {
    let identity = projection_identity();
    let generation = ProjectionGeneration::first();
    let measures = count_measures();
    assert!(
        StructurallyDecodedProjectionStateV1::from_stored_parts(
            identity.clone(),
            generation,
            Vec::new(),
            measures.clone(),
            CommitSequence::first(),
        ) == Err(StorageValueError::InvalidShape)
    );
    assert!(
        StructurallyDecodedProjectionStateV1::from_stored_parts(
            identity.clone(),
            generation,
            vec![value(CanonicalKind::Null, 1, &[])],
            measures,
            CommitSequence::first(),
        ) == Err(StorageValueError::InvalidShape)
    );

    let maximum_measures = record(vec![(1, byte_string(MAX_CANONICAL_DOCUMENT_BYTES - 16))]);
    assert_eq!(maximum_measures.encoded.len(), MAX_CANONICAL_DOCUMENT_BYTES);
    assert!(
        StructurallyDecodedProjectionStateV1::from_stored_parts(
            identity,
            generation,
            vec![number(1)],
            maximum_measures,
            CommitSequence::first(),
        ) == Err(StorageValueError::LimitExceeded)
    );
}

#[test]
fn projection_snapshot_builder_rejects_present_overflow_before_retention_and_finishes_complete() {
    let schema = maximum_key_projection_schema();
    assert_eq!(schema.maximum_complete_key_bytes(), 4_096);
    let generation = ProjectionGeneration::first();
    let prefix = "x".repeat(3_772);
    let keys = (0..4_090u32)
        .map(|index| {
            let value = string(&format!("{prefix}{index:08x}"));
            schema
                .group_key(generation, &[value])
                .expect("maximum group key")
        })
        .collect::<Vec<_>>();
    assert_eq!(keys[0].as_bytes().len(), MAX_KEY_BYTES);
    let request = ProjectionApplySnapshotRequest::new(schema.clone(), generation, keys.clone())
        .expect("all-absent minimum fits");
    assert!(request.minimum_response_semantic_bytes() <= MAX_PROJECTION_APPLY_SNAPSHOT_BYTES);

    let frontier = first();
    let mut builder = ProjectionApplySnapshotBuilder::new(&request, frontier)
        .ok()
        .expect("projection snapshot builder");
    let mut rejected = false;
    for key in &keys {
        let row = StoredProjectionStateV1::new(
            &schema,
            key.clone(),
            count_measures(),
            CommitSequence::first(),
        )
        .expect("projection row");
        let retained = builder.rows.len();
        match builder.push_row(ProjectionApplyRowObservation::Present(row)) {
            Ok(()) => {}
            Err(StorageValueError::LimitExceeded) => {
                assert_eq!(builder.rows.len(), retained);
                rejected = true;
                break;
            }
            Err(error) => panic!("unexpected builder error: {error:?}"),
        }
    }
    assert!(rejected, "present rows must exceed the all-absent minimum");
    assert_eq!(
        builder.finish(),
        Err(StorageValueError::InvalidShape),
        "the rejected observation was not retained"
    );

    let small_request =
        ProjectionApplySnapshotRequest::new(schema.clone(), generation, keys[..2].to_vec())
            .expect("small request");
    let present = StoredProjectionStateV1::new(
        &schema,
        keys[0].clone(),
        count_measures(),
        CommitSequence::first(),
    )
    .expect("present row");
    let observations = || {
        vec![
            ProjectionApplyRowObservation::Present(present.clone()),
            ProjectionApplyRowObservation::Absent(keys[1].clone()),
        ]
    };
    let direct = ProjectionApplySnapshot::new(&small_request, frontier, observations())
        .expect("direct snapshot");
    let mut complete = ProjectionApplySnapshotBuilder::new(&small_request, frontier)
        .ok()
        .expect("complete builder");
    for observation in observations() {
        complete.push_row(observation).expect("complete row");
    }
    assert_eq!(complete.finish().expect("complete snapshot"), direct);
}

#[test]
fn continuation_debug_redacts_key_and_prefix_content() {
    let identity = projection_identity();
    let generation = ProjectionGeneration::first();
    let mut key = ProjectionGroupKeyBuilder::new(identity.clone(), generation);
    key.push_component(string("projection-secret"))
        .expect("component");
    let continuation = ProjectionLowerContinuation {
        identity,
        generation,
        prefix: b"prefix-secret".to_vec(),
        exclusive_last_key: key.finish().expect("group key"),
        observed_frontier: FrontierPosition::BeforeFirst,
    };

    let diagnostic = format!("{:?}", continuation.diagnostic());
    assert!(diagnostic.contains("[REDACTED]"));
    assert!(!diagnostic.contains("projection-secret"));
    assert!(!diagnostic.contains("prefix-secret"));
    assert!(!diagnostic.contains("112, 114, 101, 102, 105, 120"));
    assert_eq!(continuation.diagnostic().prefix_length, 13);
}

#[test]
fn projection_semantic_byte_bounds_accept_exact_limit_only() {
    for (maximum, validate) in [
        (
            MAX_PROJECTION_WRITE_SET_BYTES,
            validate_projection_write_set_semantic_bytes as fn(usize) -> _,
        ),
        (
            MAX_PROJECTION_APPLY_SNAPSHOT_BYTES,
            validate_projection_snapshot_semantic_bytes as fn(usize) -> _,
        ),
        (
            MAX_PROJECTION_QUERY_CONTENT_BYTES,
            validate_projection_query_encoded_bytes as fn(usize) -> _,
        ),
    ] {
        assert_eq!(validate(maximum), Ok(()));
        assert_eq!(validate(maximum + 1), Err(StorageValueError::LimitExceeded));
    }
}

#[test]
fn stored_projection_state_charge_includes_the_exact_framing_reserve() {
    let mut key =
        ProjectionGroupKeyBuilder::new(projection_identity(), ProjectionGeneration::first());
    key.push_component(number(1)).expect("group component");
    let key = key.finish().expect("group key");
    let measures = record(Vec::new());
    let measure_bytes = measures.encoded.len();
    let direct_formula =
        (key.as_bytes().len() - 2) + framed_bytes(measure_bytes).expect("framing") + 8 + 32;
    let old_key_framed_formula = framed_bytes(key.as_bytes().len()).expect("framing")
        + framed_bytes(measure_bytes).expect("framing")
        + 8;

    assert_eq!(
        projection_state_semantic_bytes(&key, &measures),
        Ok(direct_formula)
    );
    assert_eq!(direct_formula - old_key_framed_formula, 26);
}

#[test]
fn apply_snapshot_request_preflights_all_absent_minimum() {
    let maximum_key_lengths = vec![MAX_KEY_BYTES; MAX_PROJECTION_ROW_UPDATES];
    let minimum = minimum_projection_snapshot_semantic_bytes(&maximum_key_lengths)
        .expect("checked minimum");

    assert!(minimum > MAX_PROJECTION_APPLY_SNAPSHOT_BYTES);
    assert_eq!(
        validate_projection_snapshot_semantic_bytes(minimum),
        Err(StorageValueError::LimitExceeded)
    );
}

fn small_schema() -> CheckedProjectionSchema {
    CheckedProjectionSchema::new(
        projection_identity(),
        vec![ProjectionValueType {
            kind: CanonicalKind::U64,
            maximum_encoded_bytes: 10,
        }],
        vec![ProjectionMeasureField {
            id: 1,
            value_type: ProjectionValueType {
                kind: CanonicalKind::U64,
                maximum_encoded_bytes: 10,
            },
        }],
        MAX_KEY_BYTES,
        MAX_PROJECTION_STATE_SEMANTIC_BYTES,
    )
}

fn key(group: u64) -> ProjectionGroupKey {
    small_schema()
        .group_key(ProjectionGeneration::first(), &[number(group)])
        .expect("key")
}

fn update(group: u64, prior: ProjectionRowPrior) -> ProjectionRowUpdateV1 {
    ProjectionRowUpdateV1::new(&small_schema(), key(group), prior, count_measures())
        .expect("update")
}

fn apply(
    at: u64,
    frontier: FrontierPosition,
    rows: Vec<ProjectionRowUpdateV1>,
) -> Result<ProjectionApplyRequestV1, StorageValueError> {
    ProjectionApplyRequestV1::new(
        small_schema(),
        ProjectionGeneration::first(),
        sequence(at),
        frontier,
        rows,
        payload_hash,
    )
}

// A stand-in for the apply hash.
fn payload_hash(payload: Vec<u8>) -> Digest {
    let mut held = [0u8; 32];
    for (place, byte) in payload.iter().enumerate() {
        held[place % 32] = held[place % 32].wrapping_mul(31).wrapping_add(*byte);
    }
    Digest::from_bytes(held)
}

#[test]
fn group_keys_frame_identity_generation_and_components() {
    let held = key(5);
    let mut expected = held.as_bytes()[..2].to_vec();
    expected.extend_from_slice(&6u32.to_be_bytes());
    expected.extend_from_slice(b"budget");
    expected.extend_from_slice(&1u32.to_be_bytes());
    expected.extend_from_slice(&[7; 32]);
    expected.extend_from_slice(&1u64.to_be_bytes());
    expected.extend_from_slice(&10u32.to_be_bytes());
    expected.extend_from_slice(&[4, 1]);
    expected.extend_from_slice(&5u64.to_be_bytes());
    assert_eq!(held.as_bytes(), expected.as_slice());
}

#[test]
fn apply_requests_are_successors_with_ordered_rows_of_one_generation() {
    let absent = ProjectionRowPrior::Absent;
    let rows = || vec![update(1, absent), update(2, ProjectionRowPrior::Present(sequence(1)))];
    let request = apply(2, first(), rows()).expect("request");
    assert_eq!(request.row_updates().len(), 2);
    let payload = encode_apply_payload(
        &projection_identity(),
        ProjectionGeneration::first(),
        sequence(2),
        first(),
        &rows(),
    )
    .expect("payload");
    assert_eq!(request.semantic_bytes(), payload.len());
    assert_eq!(request.apply_hash(), payload_hash(payload));

    assert_eq!(
        apply(3, first(), Vec::new()),
        Err(StorageValueError::InvalidShape)
    );
    assert_eq!(
        apply(2, first(), vec![update(2, absent), update(1, absent)]).err(),
        Some(StorageValueError::NonCanonicalOrder)
    );
    // A row that changed after the frontier is no prior of this apply.
    assert!(apply(
        2,
        first(),
        vec![update(1, ProjectionRowPrior::Present(sequence(2)))]
    )
    .is_err());
}

#[test]
fn apply_payloads_tell_requests_apart() {
    let payload = |at: u64, rows: &[ProjectionRowUpdateV1]| {
        encode_apply_payload(
            &projection_identity(),
            ProjectionGeneration::first(),
            sequence(at),
            FrontierPosition::BeforeFirst,
            rows,
        )
        .expect("payload")
    };
    let absent = [update(1, ProjectionRowPrior::Absent)];
    let present = [update(1, ProjectionRowPrior::Present(sequence(1)))];
    let held = payload(1, &absent);
    assert!(held.starts_with(b"RIFFDB-PROJECTION-APPLY\0\0\0\0\x01"));
    assert_ne!(held, payload(2, &absent));
    assert_ne!(held, payload(1, &present));
    assert_ne!(held, payload(1, &[]));
    assert_eq!(
        held.len(),
        24 + 4 + 4 + (4 + 6 + 4 + 32) + 8 + 8 + 1 + 4 + (4 + key(1).as_bytes().len() + 1 + 4 + 20)
    );
}

#[test]
fn batches_replay_their_members_on_the_observed_base() {
    let before = FrontierPosition::BeforeFirst;
    let control = StoredProjectionControlV1::new(
        projection_identity(),
        ProjectionGeneration::first(),
        None,
        Some(ProjectionGenerationPosition::new(
            ProjectionGeneration::first(),
            before,
        )),
        None,
        ProjectionLifecycleV1::CatchingUp,
        None,
    )
    .expect("control");
    let one = || apply(1, before, vec![update(1, ProjectionRowPrior::Absent)]).expect("first");
    let two = || {
        apply(
            2,
            first(),
            vec![update(1, ProjectionRowPrior::Present(sequence(1)))],
        )
        .expect("second")
    };
    let observed = || vec![ProjectionApplyRowObservation::Absent(key(1))];
    let batch = ProjectionApplyBatchV1::new(control.clone(), vec![one(), two()], observed())
        .expect("batch");
    assert_eq!(batch.members().len(), 2);
    assert_eq!(batch.observations().len(), 1);
    assert!(
        batch.semantic_bytes()
            > ProjectionApplyBatchV1::control_semantic_bytes(&projection_identity())
                .expect("control charge")
    );

    // Members out of order, missing evidence and unused evidence are refused.
    assert!(
        ProjectionApplyBatchV1::new(control.clone(), vec![two(), one()], observed()).is_err()
    );
    assert!(ProjectionApplyBatchV1::new(control.clone(), vec![one(), two()], Vec::new()).is_err());
    assert!(ProjectionApplyBatchV1::new(
        control.clone(),
        vec![one(), two()],
        vec![
            ProjectionApplyRowObservation::Absent(key(1)),
            ProjectionApplyRowObservation::Absent(key(2)),
        ]
    )
    .is_err());
    assert_eq!(
        ProjectionApplyBatchV1::new(control, Vec::new(), Vec::new()).err(),
        Some(StorageValueError::InvalidShape)
    );
}

fn stored(group: u64) -> EncodedPageItem<StoredProjectionStateV1> {
    EncodedPageItem::new(
        StoredProjectionStateV1::new(&small_schema(), key(group), count_measures(), sequence(1))
            .expect("row"),
        EncodedContentCharge::new(100).expect("charge"),
    )
}

#[test]
fn query_pages_continue_after_their_last_key() {
    let selector = || ProjectionQuerySelector::new(small_schema(), Vec::new()).expect("selector");
    let limit = NonZeroLimit::new(2).expect("limit");
    let request = ProjectionQueryRequest::new(selector(), limit, None)
        .ok()
        .expect("request");
    let generation = ProjectionGeneration::first();
    let next = ProjectionLowerContinuation::new(&selector(), generation, key(2), first())
        .ok()
        .expect("continuation");
    let page = ProjectionQueryResult::ready(
        &request,
        generation,
        first(),
        vec![stored(1), stored(2)],
        Some(next),
    )
    .ok()
    .expect("page");
    let ProjectionQueryResult::Ready { rows, next, .. } = page else {
        panic!("must be ready");
    };
    assert_eq!(rows.len(), 2);
    let continued = ProjectionQueryRequest::new(selector(), limit, next.map(|held| *held))
        .ok()
        .expect("continued request");
    // The next page goes on after the last key.
    assert!(ProjectionQueryResult::ready(
        &continued,
        generation,
        first(),
        vec![stored(2)],
        None
    )
    .is_err());
    assert!(ProjectionQueryResult::ready(
        &continued,
        generation,
        first(),
        vec![stored(3)],
        None
    )
    .is_ok());
    // It is fenced to the frontier that the first page saw.
    assert!(ProjectionQueryResult::ready(
        &continued,
        generation,
        FrontierPosition::AppliedThrough(sequence(2)),
        vec![stored(3)],
        None
    )
    .is_err());
    // More rows than asked for are refused.
    assert!(ProjectionQueryResult::ready(
        &request,
        generation,
        first(),
        vec![stored(1), stored(2), stored(3)],
        None
    )
    .is_err());
}

#[test]
fn query_limits_are_bounded() {
    let selector = ProjectionQuerySelector::new(small_schema(), Vec::new()).expect("selector");
    assert!(
        ProjectionQueryRequest::new(selector, NonZeroLimit::new(501).expect("limit"), None).err()
            == Some(StorageValueError::LimitExceeded)
    );
    assert_eq!(
        ProjectionQuerySelector::new(small_schema(), vec![string("x")]).err(),
        Some(StorageValueError::InvalidShape)
    );
    assert_eq!(ProjectionUnavailableReason::Building.tag(), 1);
    assert_eq!(ProjectionUnavailableReason::Rebuilding.tag(), 2);
    assert_eq!(
        ProjectionUnavailableReason::Failure(ProjectionFailureCodeV1::MissingCommit).tag(),
        3
    );
}

#[test]
fn an_unknown_projection_is_building_before_first() {
    let status = ProjectionStatus::uninitialized(projection_identity(), first());
    assert_eq!(status.lifecycle, ProjectionLifecycleV1::Building);
    assert_eq!(status.published, None);
    assert_eq!(status.authoritative_head, first());
}

#[test]
fn rows_and_markers_come_back_as_they_were() {
    let row = stored(4).value;
    let outgoing = encode_projection_state_v1(&row);
    let attempt = |message, encoded_len| ReadAttempt {
        typed: Some(message),
        registry: Err(EnvelopeError::Malformed),
        encoded_len,
    };
    let read = decode_projection_state_v1(attempt(outgoing.message, 55), &small_schema())
        .expect("row");
    assert_eq!(read.value, row);
    assert_eq!(read.charge.get(), 55);

    // A group value whose bytes are not its canonical encoding is corrupt.
    let mut message = encode_projection_state_v1(&row).message;
    message.canonical_group_values[0].bytes.push(0);
    assert_eq!(
        decode_projection_state_structural_v1(attempt(message, 55))
            .err()
            .map(|error| error.kind()),
        Some(DurableCodecErrorKind::CorruptData)
    );
    // A row of another schema is structurally sound and then refused.
    let message = encode_projection_state_v1(&row).message;
    assert_eq!(
        decode_projection_state_v1(attempt(message, 55), &maximum_key_projection_schema())
            .err()
            .map(|error| error.kind()),
        Some(DurableCodecErrorKind::CorruptData)
    );

    let marker = StoredProjectionApplyV1::new(
        ProjectionApplyKey::new(
            projection_identity(),
            ProjectionGeneration::first(),
            sequence(6),
        ),
        Digest::from_bytes([5; 32]),
    );
    let outgoing = encode_projection_apply_v1(&marker);
    let read = decode_projection_apply_v1(ReadAttempt {
        typed: Some(outgoing.message),
        registry: Err(EnvelopeError::Malformed),
        encoded_len: 12,
    })
    .expect("marker");
    assert_eq!(read.value, marker);
}
