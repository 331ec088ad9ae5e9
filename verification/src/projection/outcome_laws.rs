//! What becomes of an application and of a batch of them.

use vstd::prelude::*;

use super::apply::ProjectionApplyRequestV1;
use super::batch::{member_views, ProjectionApplyBatchV1};
use super::batch_laws::{
    accepted_batches_state_their_evidence, all_state_latest_evidence, every_row_is_updated,
    evidence_bytes, member_bytes, member_goes_on, observation_fits, update_count,
};
use super::control::{
    ProjectionControlView, ProjectionFailureV1, ProjectionGenerationPosition, ProjectionLifecycleV1,
    PublishedApplyModeV1, StoredProjectionControlV1,
};
use super::control_laws::comes_next;
use super::sizes::control_size;
use super::snapshot::{observation_views, ProjectionApplyRowObservation};
use crate::ids::{CommitSequence, FrontierPosition, ProjectionGeneration};
use crate::keys::ProjectionIdentity;
use crate::limits::{
    MAX_PROJECTION_APPLY_SNAPSHOT_BYTES, MAX_PROJECTION_ROW_UPDATES, MAX_PROJECTION_WRITE_SET_BYTES,
};
use crate::value_error::StorageValueError;

verus! {

/// Whether a position is that of a generation at a frontier.
pub open spec fn stands_at(
    position: Option<ProjectionGenerationPosition>,
    generation: ProjectionGeneration,
    frontier: FrontierPosition,
) -> bool {
    position matches Some(held) && held.generation == generation && held.frontier == frontier
}

/// A ready projection lets commits be applied to its published generation, and to no
/// other. The next commit after the published frontier moves that frontier to itself and
/// leaves everything else; any other commit or expectation is refused.
pub proof fn ready_projections_follow_the_log(
    control: StoredProjectionControlV1,
    generation: ProjectionGeneration,
    expected: FrontierPosition,
    applied: CommitSequence,
    permitted: bool,
    frontier: Option<FrontierPosition>,
    result: Result<StoredProjectionControlV1, StorageValueError>,
)
    requires
        control@.shape_valid(),
        control.lifecycle is Ready,
        call_ensures(
            StoredProjectionControlV1::permits_application,
            (&control, generation),
            permitted,
        ),
        call_ensures(StoredProjectionControlV1::frontier_for, (&control, generation), frontier),
        call_ensures(
            StoredProjectionControlV1::after_apply,
            (&control, generation, expected, applied),
            result,
        ),
    ensures
        permitted <==> (control.published matches Some(published) && published.generation
            == generation),
        permitted ==> frontier == Some(control.published->Some_0.frontier),
        result is Ok <==> stands_at(control.published, generation, expected) && comes_next(
            expected,
            applied,
        ),
        result is Err ==> result->Err_0 == StorageValueError::InvalidShape,
        result matches Ok(next) ==> {
            &&& stands_at(next.published, generation, FrontierPosition::AppliedThrough(applied))
            &&& next.identity@ == control.identity@
            &&& next.highest_allocated_generation == control.highest_allocated_generation
            &&& next.candidate == control.candidate
            &&& next.published_apply_mode == control.published_apply_mode
            &&& next.lifecycle is Ready
            &&& next.failure == control.failure
        },
{
    if let Ok(next) = result {
        assert(next@.identity == next.identity@);
    }
}

/// A projection that is catching up lets commits be applied to its candidate alone, one
/// after the other.
pub proof fn candidates_catch_up_with_the_log(
    control: StoredProjectionControlV1,
    generation: ProjectionGeneration,
    expected: FrontierPosition,
    applied: CommitSequence,
    permitted: bool,
    result: Result<StoredProjectionControlV1, StorageValueError>,
)
    requires
        control@.shape_valid(),
        control.lifecycle is CatchingUp,
        call_ensures(
            StoredProjectionControlV1::permits_application,
            (&control, generation),
            permitted,
        ),
        call_ensures(
            StoredProjectionControlV1::after_apply,
            (&control, generation, expected, applied),
            result,
        ),
    ensures
        permitted <==> (control.candidate matches Some(candidate) && candidate.generation
            == generation),
        result is Ok <==> stands_at(control.candidate, generation, expected) && comes_next(
            expected,
            applied,
        ),
        result is Err ==> result->Err_0 == StorageValueError::InvalidShape,
        result matches Ok(next) ==> {
            &&& stands_at(next.candidate, generation, FrontierPosition::AppliedThrough(applied))
            &&& next.published == control.published
            &&& next.lifecycle is CatchingUp
            &&& next.failure == control.failure
        },
{
    if let Ok(next) = result {
        assert(next@.identity == next.identity@);
    }
}

/// A projection that is building, degraded or invalid lets nothing be applied.
pub proof fn closed_projections_let_nothing_be_applied(
    control: StoredProjectionControlV1,
    generation: ProjectionGeneration,
    expected: FrontierPosition,
    applied: CommitSequence,
    permitted: bool,
    result: Result<StoredProjectionControlV1, StorageValueError>,
)
    requires
        control@.shape_valid(),
        control.lifecycle is Building || control.lifecycle is Degraded || control.lifecycle
            is Invalid,
        call_ensures(
            StoredProjectionControlV1::permits_application,
            (&control, generation),
            permitted,
        ),
        call_ensures(
            StoredProjectionControlV1::after_apply,
            (&control, generation, expected, applied),
            result,
        ),
    ensures
        !permitted,
        result == Err::<StoredProjectionControlV1, _>(StorageValueError::InvalidShape),
{
}

/// A control record is made exactly of parts in an accepted shape, and holds them. The
/// first one is building its first generation, which has applied nothing.
pub proof fn controls_hold_what_they_were_given(
    identity: ProjectionIdentity,
    highest: ProjectionGeneration,
    published: Option<ProjectionGenerationPosition>,
    candidate: Option<ProjectionGenerationPosition>,
    mode: Option<PublishedApplyModeV1>,
    lifecycle: ProjectionLifecycleV1,
    failure: Option<ProjectionFailureV1>,
    result: Result<StoredProjectionControlV1, StorageValueError>,
    first: StoredProjectionControlV1,
)
    requires
        call_ensures(
            StoredProjectionControlV1::new,
            (identity, highest, published, candidate, mode, lifecycle, failure),
            result,
        ),
        call_ensures(StoredProjectionControlV1::initial, (identity,), first),
    ensures
        result is Ok <==> (ProjectionControlView {
            identity: identity@,
            highest_allocated_generation: highest,
            published,
            candidate,
            published_apply_mode: mode,
            lifecycle,
            failure,
        }).shape_valid(),
        result is Err ==> result->Err_0 == StorageValueError::InvalidShape,
        result matches Ok(control) ==> control.identity@ == identity@
            && control.highest_allocated_generation == highest && control.published == published
            && control.candidate == candidate && control.published_apply_mode == mode
            && control.lifecycle == lifecycle && control.failure == failure,
        first.identity@ == identity@,
        first.highest_allocated_generation.value == 1,
        first.published is None,
        first.candidate matches Some(position) && position.generation.value == 1
            && position.frontier is BeforeFirst,
        first.published_apply_mode is None,
        first.lifecycle is Building,
        first.failure is None,
{
    if let Ok(control) = result {
        assert(control@.identity == control.identity@);
    }
    assert(first@.identity == first.identity@);
}

/// A batch is made exactly of members that go on from one another on an open generation at
/// its frontier, that state of each observed row the evidence it has by then, and that
/// update every one of them, within the bounds of rows and bytes. It holds what it was
/// given, and its charge.
pub proof fn batches_are_made_of_stated_evidence(
    expected: StoredProjectionControlV1,
    members: Vec<ProjectionApplyRequestV1>,
    observations: Vec<ProjectionApplyRowObservation>,
    result: Result<ProjectionApplyBatchV1, StorageValueError>,
)
    requires
        call_ensures(ProjectionApplyBatchV1::new, (expected, members, observations), result),
    ensures
        ({
            let requests = member_views(members@);
            let rows = observation_views(observations@);
            let first = requests[0];
            let reserve = control_size(first.schema.identity);
            let evidence = evidence_bytes(rows, first.expected_frontier, rows.len());
            let charge = reserve + evidence + member_bytes(requests, requests.len());
            &&& result is Ok <==> {
                &&& 1 <= members@.len() <= 64
                &&& rows.len() <= MAX_PROJECTION_ROW_UPDATES
                &&& expected.identity@ == first.schema.identity
                &&& expected@.permits(first.generation)
                &&& expected@.frontier_of(first.generation) == Some(first.expected_frontier)
                &&& forall|o: int|
                    0 <= o < rows.len() ==> #[trigger] observation_fits(first, rows, o)
                &&& rows.len() > 0 ==> reserve + evidence <= MAX_PROJECTION_APPLY_SNAPSHOT_BYTES
                &&& forall|m: int|
                    0 <= m < requests.len() ==> #[trigger] member_goes_on(requests, m)
                &&& update_count(requests, requests.len()) <= MAX_PROJECTION_ROW_UPDATES
                &&& charge <= MAX_PROJECTION_WRITE_SET_BYTES
                &&& all_state_latest_evidence(requests, rows)
                &&& every_row_is_updated(requests, rows)
            }
            &&& result matches Ok(batch) ==> batch.semantic_bytes == charge && batch.expected@
                == expected@ && member_views(batch.members@) == requests && observation_views(
                batch.observations@,
            ) == rows
        }),
{
    let requests = member_views(members@);
    let rows = observation_views(observations@);
    accepted_batches_state_their_evidence(expected@, requests, rows);
    assert(requests.len() == members@.len());
    if let Ok(batch) = result {
        assert(batch@.semantic_bytes == batch.semantic_bytes);
    }
}

} // verus!
