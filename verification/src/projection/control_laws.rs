//! What holds of every projection control transition.

use vstd::prelude::*;

use super::control::{
    allocates, control_outcome, edge_allowed, edge_target, evaluate_projection_control_operation,
    names, resumes_candidate, ControlEdge, ProjectionControlOperation,
    ProjectionControlOperationView, ProjectionControlResult, ProjectionControlResultView,
    ProjectionControlView, ProjectionFailureV1, ProjectionGenerationPosition, ProjectionLifecycleV1,
    PublishedApplyModeV1, StoredProjectionControlV1,
};
use crate::ids::{CommitSequence, FrontierPosition, ProjectionGeneration};
use crate::projection_schema::CheckedProjectionSchema;
use crate::value_error::StorageValueError;

verus! {

/// Every record that an operation installs has an accepted shape.
pub proof fn installed_controls_are_valid(
    current: Option<ProjectionControlView>,
    operation: ProjectionControlOperationView,
    head: FrontierPosition,
    next: ProjectionControlView,
)
    requires
        control_outcome(current, operation, head) == Ok::<_, StorageValueError>(
            ProjectionControlResultView::Updated(next),
        ),
    ensures
        next.shape_valid(),
{
}

/// From a record of accepted shape an allowed edge never fails: it leads to its
/// target, except that an allocation past the last generation changes nothing.
pub proof fn allowed_edges_succeed(
    control: ProjectionControlView,
    edge: ControlEdge,
    head: FrontierPosition,
)
    requires
        control.shape_valid(),
        edge_allowed(control, edge, head),
    ensures
        control_outcome(
            Some(control),
            ProjectionControlOperationView::Transition(control, edge),
            head,
        ) == if allocates(control, edge) && control.highest_allocated_generation.value == u64::MAX {
            Ok::<_, StorageValueError>(ProjectionControlResultView::GenerationExhausted)
        } else {
            Ok(ProjectionControlResultView::Updated(edge_target(control, edge)))
        },
{
}

/// Identity never changes, the allocation mark never moves back, and a candidate
/// that was not there before has a generation that was never allocated.
pub proof fn generations_are_never_reused(
    control: ProjectionControlView,
    edge: ControlEdge,
    head: FrontierPosition,
    next: ProjectionControlView,
)
    requires
        control_outcome(
            Some(control),
            ProjectionControlOperationView::Transition(control, edge),
            head,
        ) == Ok::<_, StorageValueError>(ProjectionControlResultView::Updated(next)),
    ensures
        next.identity == control.identity,
        next.highest_allocated_generation.value >= control.highest_allocated_generation.value,
        next.candidate matches Some(candidate) ==> (next.candidate == control.candidate
            || candidate.generation.value > control.highest_allocated_generation.value),
        next.published == control.published || next.published == control.candidate,
{
}

/// A record that differs from the expected one is reported before anything else
/// is looked at.
pub proof fn changed_state_is_reported_first(
    current: Option<ProjectionControlView>,
    expected: ProjectionControlView,
    edge: ControlEdge,
    head: FrontierPosition,
)
    requires
        current != Some(expected),
    ensures
        control_outcome(
            current,
            ProjectionControlOperationView::Transition(expected, edge),
            head,
        ) == Ok::<_, StorageValueError>(ProjectionControlResultView::StateChanged),
{
}

/// A second creation finds the first one's record.
pub proof fn creation_is_insert_if_absent(
    operation: ProjectionControlOperationView,
    head: FrontierPosition,
    later: FrontierPosition,
    created: ProjectionControlView,
)
    requires
        operation is Create,
        control_outcome(None, operation, head) == Ok::<_, StorageValueError>(
            ProjectionControlResultView::Updated(created),
        ),
    ensures
        created.shape_valid(),
        control_outcome(Some(created), operation, later) == Ok::<_, StorageValueError>(
            ProjectionControlResultView::AlreadyInitialized(created),
        ),
{
}

/// A publication stands at the authoritative head and never behind the
/// generation that it replaces.
pub proof fn publication_stands_at_the_head(
    control: ProjectionControlView,
    head: FrontierPosition,
    next: ProjectionControlView,
)
    requires
        control_outcome(
            Some(control),
            ProjectionControlOperationView::Transition(control, ControlEdge::PublishCandidate),
            head,
        ) == Ok::<_, StorageValueError>(ProjectionControlResultView::Updated(next)),
    ensures
        next.lifecycle == ProjectionLifecycleV1::Ready,
        next.published == control.candidate,
        next.published matches Some(published) && published.frontier == head,
        control.lifecycle is Rebuilding ==> (control.published matches Some(replaced)
            && !head.before(replaced.frontier)),
{
}

/// A recorded failure moves no pointer; it suspends application exactly where
/// the failed generation is the published one.
pub proof fn failure_moves_no_frontier(
    control: ProjectionControlView,
    edge: ControlEdge,
    head: FrontierPosition,
    next: ProjectionControlView,
)
    requires
        edge is RecordFailure || edge is MarkInvalid,
        control_outcome(
            Some(control),
            ProjectionControlOperationView::Transition(control, edge),
            head,
        ) == Ok::<_, StorageValueError>(ProjectionControlResultView::Updated(next)),
    ensures
        next.published == control.published,
        next.candidate == control.candidate,
        next.highest_allocated_generation == control.highest_allocated_generation,
        edge matches ControlEdge::RecordFailure(failure) ==> !names(
            control.published,
            failure.generation,
        ) ==> next.published_apply_mode == control.published_apply_mode,
{
}

/// Every degraded record of accepted shape recovers: beside a retained candidate
/// it resumes that one, otherwise it gets a fresh generation, and only the end
/// of the generation space stops it.
pub proof fn degraded_recovery_is_total(control: ProjectionControlView, head: FrontierPosition)
    requires
        control.shape_valid(),
        control.lifecycle is Degraded,
    ensures
        ({
            let outcome = control_outcome(
                Some(control),
                ProjectionControlOperationView::Transition(control, ControlEdge::RecoverDegraded),
                head,
            );
            let next = edge_target(control, ControlEdge::RecoverDegraded);
            if resumes_candidate(control) || control.highest_allocated_generation.value
                < u64::MAX {
                &&& outcome == Ok::<_, StorageValueError>(
                    ProjectionControlResultView::Updated(next),
                )
                &&& next.published == control.published
                &&& next.published_apply_mode == control.published_apply_mode
                &&& next.lifecycle is Building <==> control.published is None
                &&& next.lifecycle is Rebuilding <==> control.published is Some
            } else {
                outcome == Ok::<_, StorageValueError>(
                    ProjectionControlResultView::GenerationExhausted,
                )
            }
        }),
{
}

/// No edge leaves an invalid projection, and none but a recovery leads out of
/// degraded state to an active one.
pub proof fn invalid_is_terminal(
    control: ProjectionControlView,
    edge: ControlEdge,
    head: FrontierPosition,
)
    ensures
        control.lifecycle is Invalid ==> control_outcome(
            Some(control),
            ProjectionControlOperationView::Transition(control, edge),
            head,
        ) == Err::<ProjectionControlResultView, _>(StorageValueError::InvalidShape),
        control.lifecycle is Degraded && edge_allowed(control, edge, head) ==> edge
            is RecoverDegraded || edge is MarkInvalid,
{
}

/// An application to a record of accepted shape moves the named generation's
/// frontier on by one commit, and nothing else.
pub proof fn application_advances_one_frontier_by_one(
    control: ProjectionControlView,
    generation: ProjectionGeneration,
    expected: FrontierPosition,
    applied: CommitSequence,
    other: ProjectionGeneration,
)
    requires
        control.shape_valid(),
        control.applicable(generation, expected, applied),
    ensures
        ({
            let next = control.with_frontier(generation, FrontierPosition::AppliedThrough(applied));
            &&& next.shape_valid()
            &&& next.frontier_of(generation) == Some(FrontierPosition::AppliedThrough(applied))
            &&& FrontierPosition::AppliedThrough(applied).applied() == expected.applied() + 1
            &&& other != generation ==> next.frontier_of(other) == control.frontier_of(other)
            &&& next.permits(other) == control.permits(other)
            &&& next.lifecycle == control.lifecycle
            &&& next.identity == control.identity
            &&& next.highest_allocated_generation == control.highest_allocated_generation
        }),
{
}

/// The same commit is never applied twice in a row.
pub proof fn application_is_not_repeatable(
    control: ProjectionControlView,
    generation: ProjectionGeneration,
    expected: FrontierPosition,
    applied: CommitSequence,
)
    requires
        control.shape_valid(),
        control.applicable(generation, expected, applied),
    ensures
        !control.with_frontier(
            generation,
            FrontierPosition::AppliedThrough(applied),
        ).applicable(generation, expected, applied),
{
}

/// A record says what it stores: its view holds every field of it as it is.
pub proof fn control_views_hold_their_fields(control: StoredProjectionControlV1)
    ensures
        control@.identity == control.identity@,
        control@.highest_allocated_generation == control.highest_allocated_generation,
        control@.published == control.published,
        control@.candidate == control.candidate,
        control@.published_apply_mode == control.published_apply_mode,
        control@.lifecycle == control.lifecycle,
        control@.failure == control.failure,
{
}

/// What every active lifecycle retains. While building, nothing but the newest
/// generation as a candidate that has applied nothing; while catching up, that candidate
/// at any frontier; when ready, the newest generation as the published one, enabled; while
/// rebuilding, an older published generation beside the newest one as a candidate. None of
/// them has a failure.
pub proof fn active_controls_retain_their_generations(control: ProjectionControlView)
    ensures
        ({
            let newest = |frontier: FrontierPosition|
                Some(
                    ProjectionGenerationPosition {
                        generation: control.highest_allocated_generation,
                        frontier,
                    },
                );
            &&& control.lifecycle is Building ==> (control.shape_valid() <==> control
                == (ProjectionControlView {
                published: None,
                candidate: newest(FrontierPosition::BeforeFirst),
                published_apply_mode: None,
                failure: None,
                ..control
            }))
            &&& control.lifecycle is CatchingUp ==> (control.shape_valid() <==> exists|
                frontier: FrontierPosition,
            |
                control == (ProjectionControlView {
                    published: None,
                    candidate: #[trigger] newest(frontier),
                    published_apply_mode: None,
                    failure: None,
                    ..control
                }))
            &&& control.lifecycle is Ready ==> (control.shape_valid() <==> exists|
                frontier: FrontierPosition,
            |
                control == (ProjectionControlView {
                    published: #[trigger] newest(frontier),
                    candidate: None,
                    published_apply_mode: Some(PublishedApplyModeV1::Enabled),
                    failure: None,
                    ..control
                }))
            &&& control.lifecycle is Rebuilding ==> (control.shape_valid() <==> (
            control.published matches Some(published) && published.generation.value
                < control.highest_allocated_generation.value && control.published_apply_mode is Some
                && exists|frontier: FrontierPosition|
                control == (ProjectionControlView {
                    candidate: #[trigger] newest(frontier),
                    failure: None,
                    ..control
                })))
        }),
{
    let newest = |frontier: FrontierPosition|
        Some(
            ProjectionGenerationPosition {
                generation: control.highest_allocated_generation,
                frontier,
            },
        );
    if let Some(position) = control.candidate {
        assert(newest(position.frontier) == Some(
            ProjectionGenerationPosition {
                generation: control.highest_allocated_generation,
                frontier: position.frontier,
            },
        ));
    }
    if let Some(position) = control.published {
        assert(newest(position.frontier) == Some(
            ProjectionGenerationPosition {
                generation: control.highest_allocated_generation,
                frontier: position.frontier,
            },
        ));
    }
}

/// A stopped record has the failure of one generation that it retains. The failure names
/// no commit but the one that follows that generation's frontier, and a published
/// generation that failed is suspended. Beside that, the retained generations are those of
/// any other record.
pub proof fn stopped_controls_name_a_retained_failure(control: ProjectionControlView)
    requires
        control.lifecycle is Degraded || control.lifecycle is Invalid,
    ensures
        control.shape_valid() <==> {
            &&& (control.published is Some) == (control.published_apply_mode is Some)
            &&& control.published matches Some(published) ==> published.generation.value
                <= control.highest_allocated_generation.value
            &&& control.candidate matches Some(candidate) ==> candidate.generation
                == control.highest_allocated_generation
            &&& control.published matches Some(published) ==> (control.candidate matches Some(
                candidate,
            ) ==> published.generation != candidate.generation)
            &&& control.failure matches Some(failure) && {
                ||| control.published matches Some(published) && published.generation
                    == failure.generation && control.published_apply_mode == Some(
                    PublishedApplyModeV1::Suspended,
                ) && failed_at(failure, published.frontier)
                ||| control.candidate matches Some(candidate) && candidate.generation
                    == failure.generation && failed_at(failure, candidate.frontier)
            }
        },
{
}

/// Whether a failure names no commit, or the one that comes next at a frontier.
pub open spec fn failed_at(failure: ProjectionFailureV1, frontier: FrontierPosition) -> bool {
    failure.at_sequence matches Some(sequence) ==> comes_next(frontier, sequence)
}

/// Whether a commit is the first one after a frontier.
pub open spec fn comes_next(frontier: FrontierPosition, sequence: CommitSequence) -> bool {
    match frontier {
        FrontierPosition::BeforeFirst => sequence.value == 1,
        FrontierPosition::AppliedThrough(last) => last.value < u64::MAX && sequence.value
            == last.value + 1,
    }
}

/// Which generations commits may be applied to: the published one when ready, the
/// candidate while catching up, and while rebuilding the candidate and, while it is
/// enabled, the published one. Everything else is closed.
pub proof fn application_follows_the_lifecycle(
    control: ProjectionControlView,
    generation: ProjectionGeneration,
)
    requires
        control.shape_valid(),
    ensures
        control.lifecycle is Ready ==> (control.permits(generation) <==> generation
            == control.highest_allocated_generation),
        control.lifecycle is Ready ==> (control.published matches Some(published)
            && control.permits(published.generation)),
        control.lifecycle is CatchingUp ==> (control.permits(generation) <==> generation
            == control.highest_allocated_generation),
        control.lifecycle is CatchingUp ==> (control.candidate matches Some(candidate)
            && control.permits(candidate.generation)),
        control.lifecycle is Rebuilding ==> (control.candidate matches Some(candidate)
            && control.permits(candidate.generation)),
        control.lifecycle is Rebuilding ==> (control.published matches Some(published)
            && control.permits(published.generation) == (control.published_apply_mode
            == Some(PublishedApplyModeV1::Enabled))),
        control.permits(generation) ==> (control.published matches Some(published)
            && published.generation == generation) || (control.candidate matches Some(candidate)
            && candidate.generation == generation),
        control.lifecycle is Building || control.lifecycle is Degraded || control.lifecycle
            is Invalid ==> !control.permits(generation),
{
}

/// The frontier of a generation is that of the pointer that names it; a generation that is
/// neither published nor the candidate has none.
pub proof fn frontiers_are_those_of_the_pointers(
    control: ProjectionControlView,
    generation: ProjectionGeneration,
)
    requires
        control.shape_valid(),
    ensures
        control.published matches Some(published) ==> control.frontier_of(published.generation)
            == Some(published.frontier),
        control.candidate matches Some(candidate) ==> control.frontier_of(candidate.generation)
            == Some(candidate.frontier),
        control.frontier_of(generation) is Some ==> (control.published matches Some(published)
            && published.generation == generation) || (control.candidate matches Some(candidate)
            && candidate.generation == generation),
{
}

/// A ready projection follows every next commit, and so does one that is catching up, and
/// both generations of one that is rebuilding: the frontier that the commit follows becomes
/// that commit, and everything else stays.
pub proof fn open_generations_follow_the_log(
    control: ProjectionControlView,
    applied: CommitSequence,
)
    requires
        control.shape_valid(),
    ensures
        control.lifecycle is Ready || (control.lifecycle is Rebuilding
            && control.published_apply_mode == Some(PublishedApplyModeV1::Enabled)) ==> (
        control.published matches Some(published) && (comes_next(published.frontier, applied)
            ==> control.apply_outcome(published.generation, published.frontier, applied) == Ok::<
            _,
            StorageValueError,
        >(
            ProjectionControlView {
                published: Some(
                    ProjectionGenerationPosition {
                        generation: published.generation,
                        frontier: FrontierPosition::AppliedThrough(applied),
                    },
                ),
                ..control
            },
        ))),
        control.lifecycle is CatchingUp || control.lifecycle is Rebuilding ==> (
        control.candidate matches Some(candidate) && (comes_next(candidate.frontier, applied)
            ==> control.apply_outcome(candidate.generation, candidate.frontier, applied) == Ok::<
            _,
            StorageValueError,
        >(
            ProjectionControlView {
                candidate: Some(
                    ProjectionGenerationPosition {
                        generation: candidate.generation,
                        frontier: FrontierPosition::AppliedThrough(applied),
                    },
                ),
                ..control
            },
        ))),
{
}

/// An apply is refused unless its generation is open, stands at the expected frontier and
/// the commit is the next one there.
pub proof fn other_applications_are_refused(
    control: ProjectionControlView,
    generation: ProjectionGeneration,
    expected: FrontierPosition,
    applied: CommitSequence,
)
    requires
        control.shape_valid(),
        !control.permits(generation) || control.frontier_of(generation) != Some(expected)
            || !comes_next(expected, applied),
    ensures
        control.apply_outcome(generation, expected, applied) == Err::<ProjectionControlView, _>(
            StorageValueError::InvalidShape,
        ),
{
}

/// The first record of an identity: generation one, building from before the first commit.
/// An existing record of the identity is handed back, one of another identity refused.
pub proof fn creation_starts_generation_one(
    current: Option<&StoredProjectionControlV1>,
    schema: CheckedProjectionSchema,
    head: FrontierPosition,
    result: Result<ProjectionControlResult, StorageValueError>,
)
    requires
        call_ensures(
            evaluate_projection_control_operation,
            (current, &ProjectionControlOperation::CreateInitial { schema }, head),
            result,
        ),
    ensures
        match current {
            None => result matches Ok(ProjectionControlResult::Updated(next)) && next.identity@
                == schema.identity@ && next.highest_allocated_generation.value == 1
                && next.published is None && next.candidate == Some(
                ProjectionGenerationPosition {
                    generation: ProjectionGeneration { value: 1 },
                    frontier: FrontierPosition::BeforeFirst,
                },
            ) && next.published_apply_mode is None && next.lifecycle is Building && next.failure
                is None,
            Some(held) => if held.identity@ == schema.identity@ {
                result matches Ok(ProjectionControlResult::AlreadyInitialized(found)) && found@
                    == held@
            } else {
                result == Err::<ProjectionControlResult, _>(StorageValueError::IdentityMismatch)
            },
        },
{
}

/// Whether a record is another one but for its lifecycle.
pub open spec fn only_lifecycle_moves(
    current: StoredProjectionControlV1,
    next: StoredProjectionControlV1,
    lifecycle: ProjectionLifecycleV1,
) -> bool {
    &&& next.identity@ == current.identity@
    &&& next.highest_allocated_generation == current.highest_allocated_generation
    &&& next.published == current.published
    &&& next.candidate == current.candidate
    &&& next.published_apply_mode == current.published_apply_mode
    &&& next.failure == current.failure
    &&& next.lifecycle == lifecycle
}

/// Whether a record is another one with a fresh candidate: the generation after the highest
/// one, with nothing applied, and without a failure.
pub open spec fn has_fresh_candidate(
    current: StoredProjectionControlV1,
    next: StoredProjectionControlV1,
    lifecycle: ProjectionLifecycleV1,
) -> bool {
    &&& next.identity@ == current.identity@
    &&& next.highest_allocated_generation.value == current.highest_allocated_generation.value + 1
    &&& next.published == current.published
    &&& next.candidate == Some(
        ProjectionGenerationPosition {
            generation: next.highest_allocated_generation,
            frontier: FrontierPosition::BeforeFirst,
        },
    )
    &&& next.published_apply_mode == current.published_apply_mode
    &&& next.failure is None
    &&& next.lifecycle == lifecycle
}

/// A scan starts from a building record alone, and changes nothing but the lifecycle.
pub proof fn initial_scans_start_once(
    current: StoredProjectionControlV1,
    head: FrontierPosition,
    result: Result<ProjectionControlResult, StorageValueError>,
)
    requires
        current@.shape_valid(),
        call_ensures(
            evaluate_projection_control_operation,
            (Some(&current), &ProjectionControlOperation::StartInitialScan { expected: current },
                head),
            result,
        ),
    ensures
        if current.lifecycle is Building {
            result matches Ok(ProjectionControlResult::Updated(next)) && only_lifecycle_moves(
                current,
                next,
                ProjectionLifecycleV1::CatchingUp,
            )
        } else {
            result == Err::<ProjectionControlResult, _>(StorageValueError::InvalidShape)
        },
{
}

/// A ready record, and no other, gets a fresh candidate beside its published generation,
/// until the generations run out.
pub proof fn rebuilds_start_beside_the_published_generation(
    current: StoredProjectionControlV1,
    head: FrontierPosition,
    result: Result<ProjectionControlResult, StorageValueError>,
)
    requires
        current@.shape_valid(),
        call_ensures(
            evaluate_projection_control_operation,
            (Some(&current), &ProjectionControlOperation::AllocateRebuild { expected: current },
                head),
            result,
        ),
    ensures
        if !(current.lifecycle is Ready) {
            result == Err::<ProjectionControlResult, _>(StorageValueError::InvalidShape)
        } else if current.highest_allocated_generation.value == u64::MAX {
            result == Ok::<_, StorageValueError>(ProjectionControlResult::GenerationExhausted)
        } else {
            result matches Ok(ProjectionControlResult::Updated(next)) && has_fresh_candidate(
                current,
                next,
                ProjectionLifecycleV1::Rebuilding,
            )
        },
{
}

/// A candidate that stands at the head becomes the published generation, enabled and ready,
/// unless it would fall behind the generation that it replaces.
pub proof fn candidates_are_published_at_the_head(
    current: StoredProjectionControlV1,
    head: FrontierPosition,
    result: Result<ProjectionControlResult, StorageValueError>,
)
    requires
        current@.shape_valid(),
        call_ensures(
            evaluate_projection_control_operation,
            (Some(&current), &ProjectionControlOperation::PublishCandidate { expected: current },
                head),
            result,
        ),
    ensures
        if (current.lifecycle is Building || current.lifecycle is CatchingUp || current.lifecycle
            is Rebuilding) && (current.candidate matches Some(candidate) && candidate.frontier
            == head) && !(current.published matches Some(published) && has_fallen_behind(
            head,
            published.frontier,
        )) {
            result matches Ok(ProjectionControlResult::Updated(next)) && next.identity@
                == current.identity@ && next.highest_allocated_generation
                == current.highest_allocated_generation && next.published == current.candidate
                && next.candidate is None && next.published_apply_mode == Some(
                PublishedApplyModeV1::Enabled,
            ) && next.lifecycle is Ready && next.failure is None
        } else {
            result == Err::<ProjectionControlResult, _>(StorageValueError::InvalidShape)
        },
{
}

/// Whether a frontier has applied fewer commits than another.
pub open spec fn has_fallen_behind(frontier: FrontierPosition, other: FrontierPosition) -> bool {
    match (frontier, other) {
        (FrontierPosition::BeforeFirst, FrontierPosition::AppliedThrough(_)) => true,
        (FrontierPosition::AppliedThrough(a), FrontierPosition::AppliedThrough(b)) => a.value
            < b.value,
        (_, FrontierPosition::BeforeFirst) => false,
    }
}

/// A failure is recorded of a generation that is retained, at no commit or at the one that
/// follows the frontier of that generation, while the record is active. It stops the
/// projection and suspends a published generation that failed; nothing else moves.
pub proof fn failures_are_recorded_where_they_happened(
    current: StoredProjectionControlV1,
    failure: ProjectionFailureV1,
    head: FrontierPosition,
    result: Result<ProjectionControlResult, StorageValueError>,
)
    requires
        current@.shape_valid(),
        call_ensures(
            evaluate_projection_control_operation,
            (Some(&current),
                &ProjectionControlOperation::RecordFailure { expected: current, failure }, head),
            result,
        ),
    ensures
        if !(current.lifecycle is Degraded || current.lifecycle is Invalid) && {
            ||| current.published matches Some(published) && published.generation
                == failure.generation && failed_at(failure, published.frontier)
            ||| current.candidate matches Some(candidate) && candidate.generation
                == failure.generation && failed_at(failure, candidate.frontier)
        } {
            result matches Ok(ProjectionControlResult::Updated(next)) && next.identity@
                == current.identity@ && next.highest_allocated_generation
                == current.highest_allocated_generation && next.published == current.published
                && next.candidate == current.candidate && next.lifecycle is Degraded
                && next.failure == Some(failure) && next.published_apply_mode == (
            if current.published matches Some(published) && published.generation
                == failure.generation {
                Some(PublishedApplyModeV1::Suspended)
            } else {
                current.published_apply_mode
            })
        } else {
            result == Err::<ProjectionControlResult, _>(StorageValueError::InvalidShape)
        },
{
}

/// A degraded record recovers. Where the published generation failed beside a candidate, the
/// rebuild goes on with that candidate; otherwise there is a fresh one, rebuilt beside the
/// published generation if there is one, and built anew if not.
pub proof fn degraded_records_recover(
    current: StoredProjectionControlV1,
    head: FrontierPosition,
    result: Result<ProjectionControlResult, StorageValueError>,
)
    requires
        current@.shape_valid(),
        call_ensures(
            evaluate_projection_control_operation,
            (Some(&current), &ProjectionControlOperation::RecoverDegraded { expected: current },
                head),
            result,
        ),
    ensures
        if !(current.lifecycle is Degraded) {
            result == Err::<ProjectionControlResult, _>(StorageValueError::InvalidShape)
        } else if current.candidate is Some && (current.published matches Some(published)
            && current.failure matches Some(failure) && failure.generation
            == published.generation) {
            result matches Ok(ProjectionControlResult::Updated(next)) && next.identity@
                == current.identity@ && next.highest_allocated_generation
                == current.highest_allocated_generation && next.published == current.published
                && next.candidate == current.candidate && next.published_apply_mode
                == current.published_apply_mode && next.lifecycle is Rebuilding && next.failure
                is None
        } else if current.highest_allocated_generation.value == u64::MAX {
            result == Ok::<_, StorageValueError>(ProjectionControlResult::GenerationExhausted)
        } else {
            result matches Ok(ProjectionControlResult::Updated(next)) && has_fresh_candidate(
                current,
                next,
                if current.published is Some {
                    ProjectionLifecycleV1::Rebuilding
                } else {
                    ProjectionLifecycleV1::Building
                },
            )
        },
{
}

/// A degraded record, and no other, is marked invalid, with its failure and everything else
/// kept.
pub proof fn degraded_records_can_be_given_up(
    current: StoredProjectionControlV1,
    head: FrontierPosition,
    result: Result<ProjectionControlResult, StorageValueError>,
)
    requires
        current@.shape_valid(),
        call_ensures(
            evaluate_projection_control_operation,
            (Some(&current), &ProjectionControlOperation::MarkInvalid { expected: current }, head),
            result,
        ),
    ensures
        if current.lifecycle is Degraded {
            result matches Ok(ProjectionControlResult::Updated(next)) && only_lifecycle_moves(
                current,
                next,
                ProjectionLifecycleV1::Invalid,
            )
        } else {
            result == Err::<ProjectionControlResult, _>(StorageValueError::InvalidShape)
        },
{
}

/// Whether an operation takes an edge from an expected record.
pub open spec fn expects(
    operation: ProjectionControlOperation,
    record: StoredProjectionControlV1,
) -> bool {
    match operation {
        ProjectionControlOperation::CreateInitial { .. } => false,
        ProjectionControlOperation::StartInitialScan { expected } => expected == record,
        ProjectionControlOperation::AllocateRebuild { expected } => expected == record,
        ProjectionControlOperation::PublishCandidate { expected } => expected == record,
        ProjectionControlOperation::RecordFailure { expected, .. } => expected == record,
        ProjectionControlOperation::RecoverDegraded { expected } => expected == record,
        ProjectionControlOperation::MarkInvalid { expected } => expected == record,
    }
}

/// An operation whose expected record is not the current one in every field, or that finds
/// none, changes nothing and says so, whatever it asks for.
pub proof fn operations_are_compared_field_by_field(
    current: Option<&StoredProjectionControlV1>,
    operation: ProjectionControlOperation,
    expected: StoredProjectionControlV1,
    head: FrontierPosition,
    result: Result<ProjectionControlResult, StorageValueError>,
)
    requires
        expects(operation, expected),
        call_ensures(evaluate_projection_control_operation, (current, &operation, head), result),
        current matches Some(held) ==> held.identity@ != expected.identity@
            || held.highest_allocated_generation != expected.highest_allocated_generation
            || held.published != expected.published || held.candidate != expected.candidate
            || held.published_apply_mode != expected.published_apply_mode || held.lifecycle
            != expected.lifecycle || held.failure != expected.failure,
    ensures
        result == Ok::<_, StorageValueError>(ProjectionControlResult::StateChanged),
{
}

} // verus!
