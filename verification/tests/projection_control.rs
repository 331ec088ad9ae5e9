//! Projection lifecycle and control transitions.

use riffdb_storage_api::codec::envelope::ReadAttempt;
use riffdb_storage_api::codec::error::{DurableCodecErrorKind, EnvelopeError};
use riffdb_storage_api::codec::projection::{
    decode_projection_control_v1, encode_projection_control_v1,
};
use riffdb_storage_api::codec::record_type::RecordType;
use riffdb_storage_api::ids::{CommitSequence, Digest, FrontierPosition, ProjectionGeneration};
use riffdb_storage_api::keys::ProjectionIdentity;
use riffdb_storage_api::projection::control::{
    evaluate_projection_control_creation, evaluate_projection_control_operation,
    is_exact_successor, ProjectionControlOperation, ProjectionControlResult,
    ProjectionFailureCodeV1, ProjectionFailureV1, ProjectionGenerationPosition,
    ProjectionLifecycleV1, PublishedApplyModeV1, StoredProjectionControlV1,
};
use riffdb_storage_api::value_error::StorageValueError;

fn projection_identity() -> ProjectionIdentity {
    ProjectionIdentity::new("budget".to_owned(), 1, Digest::from_bytes([7; 32]))
}

fn other_projection_identity() -> ProjectionIdentity {
    ProjectionIdentity::new("ledger".to_owned(), 2, Digest::from_bytes([8; 32]))
}

fn generation(value: u64) -> ProjectionGeneration {
    ProjectionGeneration::new(value).expect("nonzero generation")
}

fn sequence(value: u64) -> CommitSequence {
    CommitSequence::new(value).expect("nonzero commit sequence")
}

fn applied(value: u64) -> FrontierPosition {
    FrontierPosition::AppliedThrough(sequence(value))
}

fn position(generation: u64, frontier: FrontierPosition) -> ProjectionGenerationPosition {
    ProjectionGenerationPosition::new(self::generation(generation), frontier)
}

fn control(
    highest: u64,
    published: Option<ProjectionGenerationPosition>,
    candidate: Option<ProjectionGenerationPosition>,
    published_apply_mode: Option<PublishedApplyModeV1>,
    lifecycle: ProjectionLifecycleV1,
    failure: Option<ProjectionFailureV1>,
) -> StoredProjectionControlV1 {
    StoredProjectionControlV1::new(
        projection_identity(),
        generation(highest),
        published,
        candidate,
        published_apply_mode,
        lifecycle,
        failure,
    )
    .expect("valid test control")
}

fn updated(result: ProjectionControlResult) -> StoredProjectionControlV1 {
    let ProjectionControlResult::Updated(control) = result else {
        panic!("expected updated projection control");
    };
    control
}

fn evaluate(
    current: &StoredProjectionControlV1,
    operation: ProjectionControlOperation,
    head: FrontierPosition,
) -> Result<ProjectionControlResult, StorageValueError> {
    evaluate_projection_control_operation(Some(current), &operation, head)
}

#[test]
fn lifecycle_and_failure_tags_are_closed() {
    for tag in 1..=6 {
        assert_eq!(ProjectionLifecycleV1::from_tag(tag).unwrap().tag(), tag);
        assert_eq!(ProjectionFailureCodeV1::from_tag(tag).unwrap().tag(), tag);
    }
    assert_eq!(ProjectionLifecycleV1::from_tag(0), None);
    assert_eq!(ProjectionFailureCodeV1::from_tag(7), None);
    assert_eq!(PublishedApplyModeV1::from_tag(0), None);
    assert_eq!(
        PublishedApplyModeV1::from_tag(1),
        Some(PublishedApplyModeV1::Enabled)
    );
    assert_eq!(
        PublishedApplyModeV1::from_tag(2),
        Some(PublishedApplyModeV1::Suspended)
    );
}

#[test]
fn building_candidate_cannot_have_applied_a_commit() {
    assert_eq!(
        StoredProjectionControlV1::new(
            projection_identity(),
            ProjectionGeneration::first(),
            None,
            Some(ProjectionGenerationPosition::new(
                ProjectionGeneration::first(),
                FrontierPosition::AppliedThrough(CommitSequence::first()),
            )),
            None,
            ProjectionLifecycleV1::Building,
            None,
        ),
        Err(StorageValueError::InvalidShape)
    );
}

#[test]
fn successor_rule_never_uses_sequence_zero() {
    assert!(is_exact_successor(
        FrontierPosition::BeforeFirst,
        CommitSequence::first()
    ));
    assert!(!is_exact_successor(
        FrontierPosition::AppliedThrough(CommitSequence::first()),
        CommitSequence::first()
    ));
    let two = CommitSequence::new(2).expect("nonzero");
    assert!(is_exact_successor(
        FrontierPosition::AppliedThrough(CommitSequence::first()),
        two
    ));
}

#[test]
fn projection_control_creation_is_insert_if_absent() {
    let identity = projection_identity();
    assert_eq!(
        evaluate_projection_control_creation(None, &identity),
        Ok(ProjectionControlResult::Updated(
            StoredProjectionControlV1::initial(identity.clone())
        ))
    );

    let existing = StoredProjectionControlV1::initial(identity.clone());
    assert_eq!(
        evaluate_projection_control_creation(Some(&existing), &identity),
        Ok(ProjectionControlResult::AlreadyInitialized(
            existing.clone()
        ))
    );
    assert_eq!(
        evaluate_projection_control_creation(Some(&existing), &other_projection_identity()),
        Err(StorageValueError::IdentityMismatch)
    );
}

#[test]
fn initial_scan_and_publication_follow_transaction_current_head() {
    let initial = StoredProjectionControlV1::initial(projection_identity());
    let catching_up = updated(
        evaluate(
            &initial,
            ProjectionControlOperation::StartInitialScan {
                expected: initial.clone(),
            },
            FrontierPosition::BeforeFirst,
        )
        .expect("start scan"),
    );
    assert_eq!(catching_up.lifecycle(), ProjectionLifecycleV1::CatchingUp);
    assert_eq!(catching_up.candidate(), initial.candidate());

    assert_eq!(
        evaluate(
            &initial,
            ProjectionControlOperation::PublishCandidate {
                expected: initial.clone(),
            },
            applied(1),
        ),
        Err(StorageValueError::InvalidShape)
    );
    let ready = updated(
        evaluate(
            &initial,
            ProjectionControlOperation::PublishCandidate {
                expected: initial.clone(),
            },
            FrontierPosition::BeforeFirst,
        )
        .expect("publish empty database"),
    );
    assert_eq!(ready.lifecycle(), ProjectionLifecycleV1::Ready);
    assert_eq!(ready.published(), initial.candidate());
    assert_eq!(ready.candidate(), None);
    assert_eq!(
        ready.published_apply_mode(),
        Some(PublishedApplyModeV1::Enabled)
    );

    let caught_up = control(
        1,
        None,
        Some(position(1, applied(2))),
        None,
        ProjectionLifecycleV1::CatchingUp,
        None,
    );
    assert_eq!(
        updated(
            evaluate(
                &caught_up,
                ProjectionControlOperation::PublishCandidate {
                    expected: caught_up.clone(),
                },
                applied(2),
            )
            .expect("publish caught-up initial generation")
        )
        .published(),
        Some(position(1, applied(2)))
    );
}

#[test]
fn rebuild_allocation_and_publication_are_monotonic() {
    let ready = control(
        1,
        Some(position(1, applied(2))),
        None,
        Some(PublishedApplyModeV1::Enabled),
        ProjectionLifecycleV1::Ready,
        None,
    );
    let rebuilding = updated(
        evaluate(
            &ready,
            ProjectionControlOperation::AllocateRebuild {
                expected: ready.clone(),
            },
            applied(2),
        )
        .expect("allocate rebuild"),
    );
    assert_eq!(rebuilding.highest_allocated_generation(), generation(2));
    assert_eq!(
        rebuilding.candidate(),
        Some(position(2, FrontierPosition::BeforeFirst))
    );
    assert_eq!(rebuilding.published(), ready.published());

    let caught_up = control(
        2,
        Some(position(1, applied(2))),
        Some(position(2, applied(3))),
        Some(PublishedApplyModeV1::Enabled),
        ProjectionLifecycleV1::Rebuilding,
        None,
    );
    let replacement = updated(
        evaluate(
            &caught_up,
            ProjectionControlOperation::PublishCandidate {
                expected: caught_up.clone(),
            },
            applied(3),
        )
        .expect("publish replacement"),
    );
    assert_eq!(replacement.lifecycle(), ProjectionLifecycleV1::Ready);
    assert_eq!(replacement.published(), Some(position(2, applied(3))));
    assert_eq!(replacement.candidate(), None);

    let behind = control(
        2,
        Some(position(1, applied(2))),
        Some(position(2, applied(1))),
        Some(PublishedApplyModeV1::Enabled),
        ProjectionLifecycleV1::Rebuilding,
        None,
    );
    assert_eq!(
        evaluate(
            &behind,
            ProjectionControlOperation::PublishCandidate {
                expected: behind.clone(),
            },
            applied(1),
        ),
        Err(StorageValueError::InvalidShape)
    );
}

#[test]
fn failure_requires_exact_successor_or_omission_and_suspends_only_published() {
    let ready = control(
        1,
        Some(position(1, applied(2))),
        None,
        Some(PublishedApplyModeV1::Enabled),
        ProjectionLifecycleV1::Ready,
        None,
    );
    let matching_published_failure = ProjectionFailureV1::new(
        generation(1),
        ProjectionFailureCodeV1::ProjectionStateIntegrity,
        Some(sequence(3)),
    );
    let degraded = updated(
        evaluate(
            &ready,
            ProjectionControlOperation::RecordFailure {
                expected: ready.clone(),
                failure: matching_published_failure.clone(),
            },
            applied(2),
        )
        .expect("record published failure"),
    );
    assert_eq!(degraded.lifecycle(), ProjectionLifecycleV1::Degraded);
    assert_eq!(degraded.failure(), Some(&matching_published_failure));
    assert_eq!(
        degraded.published_apply_mode(),
        Some(PublishedApplyModeV1::Suspended)
    );

    for stale_failure in [
        ProjectionFailureV1::new(
            generation(1),
            ProjectionFailureCodeV1::ProjectionStateIntegrity,
            Some(sequence(2)),
        ),
        ProjectionFailureV1::new(
            generation(2),
            ProjectionFailureCodeV1::ProjectionStateIntegrity,
            Some(sequence(2)),
        ),
    ] {
        assert_eq!(
            evaluate(
                &ready,
                ProjectionControlOperation::RecordFailure {
                    expected: ready.clone(),
                    failure: stale_failure,
                },
                applied(2),
            ),
            Err(StorageValueError::InvalidShape)
        );
    }

    let rebuilding = control(
        2,
        Some(position(1, applied(2))),
        Some(position(2, applied(1))),
        Some(PublishedApplyModeV1::Enabled),
        ProjectionLifecycleV1::Rebuilding,
        None,
    );
    let candidate_failure = ProjectionFailureV1::new(
        generation(2),
        ProjectionFailureCodeV1::ArithmeticOverflow,
        Some(sequence(2)),
    );
    let degraded_candidate = updated(
        evaluate(
            &rebuilding,
            ProjectionControlOperation::RecordFailure {
                expected: rebuilding.clone(),
                failure: candidate_failure,
            },
            applied(2),
        )
        .expect("record candidate failure"),
    );
    assert_eq!(
        degraded_candidate.published_apply_mode(),
        Some(PublishedApplyModeV1::Enabled)
    );

    let initial = StoredProjectionControlV1::initial(projection_identity());
    let before_first_failure = ProjectionFailureV1::new(
        generation(1),
        ProjectionFailureCodeV1::PlanOrSchemaUnavailable,
        None,
    );
    assert!(
        evaluate(
            &initial,
            ProjectionControlOperation::RecordFailure {
                expected: initial.clone(),
                failure: before_first_failure,
            },
            FrontierPosition::BeforeFirst,
        )
        .is_ok()
    );
    let first_commit_failure = ProjectionFailureV1::new(
        generation(1),
        ProjectionFailureCodeV1::PlanOrSchemaUnavailable,
        Some(sequence(1)),
    );
    let degraded_before_first = updated(
        evaluate(
            &initial,
            ProjectionControlOperation::RecordFailure {
                expected: initial.clone(),
                failure: first_commit_failure.clone(),
            },
            FrontierPosition::BeforeFirst,
        )
        .expect("first commit failure follows before-first frontier"),
    );
    assert_eq!(degraded_before_first.candidate(), initial.candidate());
    assert_eq!(degraded_before_first.failure(), Some(&first_commit_failure));

    assert_eq!(
        evaluate(
            &initial,
            ProjectionControlOperation::RecordFailure {
                expected: initial.clone(),
                failure: ProjectionFailureV1::new(
                    generation(1),
                    ProjectionFailureCodeV1::PlanOrSchemaUnavailable,
                    Some(sequence(2)),
                ),
            },
            FrontierPosition::BeforeFirst,
        ),
        Err(StorageValueError::InvalidShape)
    );

    let omitted_sequence_failure = ProjectionFailureV1::new(
        generation(1),
        ProjectionFailureCodeV1::PlanOrSchemaUnavailable,
        None,
    );
    let degraded_after_progress = updated(
        evaluate(
            &ready,
            ProjectionControlOperation::RecordFailure {
                expected: ready.clone(),
                failure: omitted_sequence_failure.clone(),
            },
            applied(2),
        )
        .expect("pre-application failure may omit a sequence after progress"),
    );
    assert_eq!(degraded_after_progress.published(), ready.published());
    assert_eq!(
        degraded_after_progress.failure(),
        Some(&omitted_sequence_failure)
    );
}

#[test]
fn degraded_recovery_covers_every_pointer_shape() {
    let initial = StoredProjectionControlV1::initial(projection_identity());
    let failed_initial = updated(
        evaluate(
            &initial,
            ProjectionControlOperation::RecordFailure {
                expected: initial.clone(),
                failure: ProjectionFailureV1::new(
                    generation(1),
                    ProjectionFailureCodeV1::PlanOrSchemaUnavailable,
                    None,
                ),
            },
            FrontierPosition::BeforeFirst,
        )
        .expect("fail initial candidate"),
    );
    let rebuilt_initial = updated(
        evaluate(
            &failed_initial,
            ProjectionControlOperation::RecoverDegraded {
                expected: failed_initial.clone(),
            },
            FrontierPosition::BeforeFirst,
        )
        .expect("recover initial candidate"),
    );
    assert_eq!(rebuilt_initial.lifecycle(), ProjectionLifecycleV1::Building);
    assert_eq!(rebuilt_initial.published(), None);
    assert_eq!(
        rebuilt_initial.candidate(),
        Some(position(2, FrontierPosition::BeforeFirst))
    );

    let rebuilding = control(
        2,
        Some(position(1, applied(2))),
        Some(position(2, applied(1))),
        Some(PublishedApplyModeV1::Enabled),
        ProjectionLifecycleV1::Rebuilding,
        None,
    );
    let failed_candidate = updated(
        evaluate(
            &rebuilding,
            ProjectionControlOperation::RecordFailure {
                expected: rebuilding.clone(),
                failure: ProjectionFailureV1::new(
                    generation(2),
                    ProjectionFailureCodeV1::ArithmeticOverflow,
                    Some(sequence(2)),
                ),
            },
            applied(2),
        )
        .expect("fail replacement candidate"),
    );
    let replaced_candidate = updated(
        evaluate(
            &failed_candidate,
            ProjectionControlOperation::RecoverDegraded {
                expected: failed_candidate.clone(),
            },
            applied(2),
        )
        .expect("replace failed candidate"),
    );
    assert_eq!(
        replaced_candidate.lifecycle(),
        ProjectionLifecycleV1::Rebuilding
    );
    assert_eq!(replaced_candidate.published(), rebuilding.published());
    assert_eq!(
        replaced_candidate.candidate(),
        Some(position(3, FrontierPosition::BeforeFirst))
    );

    let failed_published_with_candidate = updated(
        evaluate(
            &rebuilding,
            ProjectionControlOperation::RecordFailure {
                expected: rebuilding.clone(),
                failure: ProjectionFailureV1::new(
                    generation(1),
                    ProjectionFailureCodeV1::MalformedDurableEvent,
                    Some(sequence(3)),
                ),
            },
            applied(2),
        )
        .expect("fail retained published generation"),
    );
    let resumed_candidate = updated(
        evaluate(
            &failed_published_with_candidate,
            ProjectionControlOperation::RecoverDegraded {
                expected: failed_published_with_candidate.clone(),
            },
            applied(2),
        )
        .expect("resume retained candidate"),
    );
    assert_eq!(resumed_candidate.candidate(), rebuilding.candidate());
    assert_eq!(
        resumed_candidate.published_apply_mode(),
        Some(PublishedApplyModeV1::Suspended)
    );

    let ready = control(
        1,
        Some(position(1, applied(2))),
        None,
        Some(PublishedApplyModeV1::Enabled),
        ProjectionLifecycleV1::Ready,
        None,
    );
    let failed_published = updated(
        evaluate(
            &ready,
            ProjectionControlOperation::RecordFailure {
                expected: ready.clone(),
                failure: ProjectionFailureV1::new(
                    generation(1),
                    ProjectionFailureCodeV1::MissingCommit,
                    Some(sequence(3)),
                ),
            },
            applied(2),
        )
        .expect("fail ready generation"),
    );
    let replacement = updated(
        evaluate(
            &failed_published,
            ProjectionControlOperation::RecoverDegraded {
                expected: failed_published.clone(),
            },
            applied(2),
        )
        .expect("allocate replacement for published failure"),
    );
    assert_eq!(
        replacement.candidate(),
        Some(position(2, FrontierPosition::BeforeFirst))
    );
    assert_eq!(
        replacement.published_apply_mode(),
        Some(PublishedApplyModeV1::Suspended)
    );

    let invalid = updated(
        evaluate(
            &failed_published,
            ProjectionControlOperation::MarkInvalid {
                expected: failed_published.clone(),
            },
            applied(2),
        )
        .expect("mark invalid"),
    );
    assert_eq!(invalid.lifecycle(), ProjectionLifecycleV1::Invalid);
    assert_eq!(invalid.published(), failed_published.published());
    assert_eq!(invalid.candidate(), failed_published.candidate());
    assert_eq!(invalid.failure(), failed_published.failure());
    assert_eq!(
        invalid.published_apply_mode(),
        failed_published.published_apply_mode()
    );
    assert_eq!(
        evaluate(
            &invalid,
            ProjectionControlOperation::RecoverDegraded {
                expected: invalid.clone(),
            },
            applied(2),
        ),
        Err(StorageValueError::InvalidShape)
    );
}

#[test]
fn generation_exhaustion_is_a_non_mutating_typed_result() {
    let maximum = u64::MAX;
    let ready = control(
        maximum,
        Some(position(maximum, applied(1))),
        None,
        Some(PublishedApplyModeV1::Enabled),
        ProjectionLifecycleV1::Ready,
        None,
    );
    assert_eq!(
        evaluate(
            &ready,
            ProjectionControlOperation::AllocateRebuild {
                expected: ready.clone(),
            },
            applied(1),
        ),
        Ok(ProjectionControlResult::GenerationExhausted)
    );

    let degraded = control(
        maximum,
        None,
        Some(position(maximum, FrontierPosition::BeforeFirst)),
        None,
        ProjectionLifecycleV1::Degraded,
        Some(ProjectionFailureV1::new(
            generation(maximum),
            ProjectionFailureCodeV1::HardLimitExceeded,
            None,
        )),
    );
    assert_eq!(
        evaluate(
            &degraded,
            ProjectionControlOperation::RecoverDegraded {
                expected: degraded.clone(),
            },
            FrontierPosition::BeforeFirst,
        ),
        Ok(ProjectionControlResult::GenerationExhausted)
    );
}

#[test]
fn all_expected_state_operations_return_state_changed_before_policy_evaluation() {
    let expected = StoredProjectionControlV1::initial(projection_identity());
    let operations = [
        ProjectionControlOperation::StartInitialScan {
            expected: expected.clone(),
        },
        ProjectionControlOperation::AllocateRebuild {
            expected: expected.clone(),
        },
        ProjectionControlOperation::PublishCandidate {
            expected: expected.clone(),
        },
        ProjectionControlOperation::RecordFailure {
            expected: expected.clone(),
            failure: ProjectionFailureV1::new(
                generation(1),
                ProjectionFailureCodeV1::ProjectionStateIntegrity,
                None,
            ),
        },
        ProjectionControlOperation::RecoverDegraded {
            expected: expected.clone(),
        },
        ProjectionControlOperation::MarkInvalid {
            expected: expected.clone(),
        },
    ];
    for operation in operations {
        assert_eq!(
            evaluate_projection_control_operation(
                None,
                &operation,
                FrontierPosition::BeforeFirst,
            ),
            Ok(ProjectionControlResult::StateChanged)
        );
    }
}

#[test]
fn invalid_lifecycle_operations_fail_closed() {
    let initial = StoredProjectionControlV1::initial(projection_identity());
    let ready = control(
        1,
        Some(position(1, FrontierPosition::BeforeFirst)),
        None,
        Some(PublishedApplyModeV1::Enabled),
        ProjectionLifecycleV1::Ready,
        None,
    );
    let invalid_operations = [
        (
            initial.clone(),
            ProjectionControlOperation::AllocateRebuild {
                expected: initial.clone(),
            },
        ),
        (
            ready.clone(),
            ProjectionControlOperation::StartInitialScan {
                expected: ready.clone(),
            },
        ),
        (
            ready.clone(),
            ProjectionControlOperation::PublishCandidate {
                expected: ready.clone(),
            },
        ),
        (
            ready.clone(),
            ProjectionControlOperation::RecoverDegraded {
                expected: ready.clone(),
            },
        ),
        (
            ready.clone(),
            ProjectionControlOperation::MarkInvalid {
                expected: ready.clone(),
            },
        ),
    ];
    for (current, operation) in invalid_operations {
        assert_eq!(
            evaluate(&current, operation, FrontierPosition::BeforeFirst),
            Err(StorageValueError::InvalidShape)
        );
    }
}

#[test]
fn degraded_control_rejects_failure_that_is_not_frontier_successor() {
    assert_eq!(
        StoredProjectionControlV1::new(
            projection_identity(),
            generation(1),
            Some(position(1, applied(2))),
            None,
            Some(PublishedApplyModeV1::Suspended),
            ProjectionLifecycleV1::Degraded,
            Some(ProjectionFailureV1::new(
                generation(1),
                ProjectionFailureCodeV1::ProjectionStateIntegrity,
                Some(sequence(2)),
            )),
        ),
        Err(StorageValueError::InvalidShape)
    );
}

#[test]
fn control_records_come_back_as_they_were() {
    let record = control(
        2,
        Some(position(1, applied(2))),
        Some(position(2, FrontierPosition::BeforeFirst)),
        Some(PublishedApplyModeV1::Suspended),
        ProjectionLifecycleV1::Degraded,
        Some(ProjectionFailureV1::new(
            generation(1),
            ProjectionFailureCodeV1::MissingCommit,
            Some(sequence(3)),
        )),
    );
    let outgoing = encode_projection_control_v1(&record);
    assert_eq!(outgoing.record_type, RecordType::StoredProjectionControlV1);
    assert_eq!(outgoing.message.lifecycle, 4);
    assert_eq!(outgoing.message.published_apply_mode, Some(2));
    let read = decode_projection_control_v1(ReadAttempt {
        typed: Some(outgoing.message),
        registry: Err(EnvelopeError::Malformed),
        encoded_len: 77,
    })
    .expect("control");
    assert_eq!(read.value, record);
    assert_eq!(read.charge.get(), 77);
}

#[test]
fn control_records_of_a_refused_shape_are_corrupt() {
    let kind = |change: fn(&mut riffdb_storage_api::wire::StoredProjectionControlV1)| {
        let record = StoredProjectionControlV1::initial(projection_identity());
        let mut message = encode_projection_control_v1(&record).message;
        change(&mut message);
        decode_projection_control_v1(ReadAttempt {
            typed: Some(message),
            registry: Err(EnvelopeError::Malformed),
            encoded_len: 77,
        })
        .err()
        .map(|error| error.kind())
    };
    assert_eq!(kind(|_| {}), None);
    let corrupt = Some(DurableCodecErrorKind::CorruptData);
    assert_eq!(kind(|message| message.lifecycle = 7), corrupt);
    assert_eq!(kind(|message| message.lifecycle = -1), corrupt);
    assert_eq!(kind(|message| message.candidate = None), corrupt);
    assert_eq!(kind(|message| message.highest_allocated_generation = 0), corrupt);
    assert_eq!(kind(|message| message.identity = None), corrupt);
}
