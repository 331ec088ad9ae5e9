//! What requests, snapshots, queries and pages are accepted, and what they then hold.

use vstd::prelude::*;

use super::apply::{
    apply_payload, payload_hashes_to, rows_wf, write_set_size, ProjectionApplyRequestV1,
};
use super::control_laws::comes_next;
use super::query::{
    continuation_view, page_rows, ProjectionLowerContinuation, ProjectionQueryRequest,
    ProjectionQueryResult, ProjectionQuerySelector,
};
use super::query_laws::{
    belongs_to, continuations_end_at_selected_keys, page_row_is_in_place, pages_answer_their_query,
    queries_go_on_within_their_selection, selects,
};
use super::request_laws::{
    answers, apply_requests_are_accepted_in_place, fixed_len, key_is_in_place, leading_key_bytes,
    observed_len, row_is_in_place, snapshot_requests_are_accepted_in_place,
    snapshots_answer_their_request,
};
use super::snapshot::{
    key_views, observation_views, ProjectionApplyRowObservation, ProjectionApplySnapshot,
    ProjectionApplySnapshotRequest,
};
use super::state::{row_views, ProjectionRowUpdateV1, StoredProjectionStateV1};
use crate::bytes::bytes_before;
use crate::ids::{CommitSequence, Digest, FrontierPosition, ProjectionGeneration};
use crate::keys::ProjectionGroupKey;
use crate::limits::{
    MAX_PROJECTION_APPLY_SEMANTIC_BYTES, MAX_PROJECTION_APPLY_SNAPSHOT_BYTES,
    MAX_PROJECTION_QUERY_CONTENT_BYTES, MAX_PROJECTION_QUERY_ROWS, MAX_PROJECTION_ROW_UPDATES,
    MAX_PROJECTION_WRITE_SET_BYTES,
};
use crate::page::{page_charge, EncodedPageItem, NonZeroLimit};
use crate::projection_schema::CheckedProjectionSchema;
use crate::value_error::StorageValueError;

verus! {

/// A request is made exactly of the next commit and of rows in place, within the bounds.
/// It holds what it was given, the hash of its payload, and both its sizes.
pub proof fn apply_requests_are_made_of_rows_in_place<H: Fn(Vec<u8>) -> Digest>(
    schema: CheckedProjectionSchema,
    generation: ProjectionGeneration,
    sequence: CommitSequence,
    frontier: FrontierPosition,
    rows: Vec<ProjectionRowUpdateV1>,
    hash: H,
    result: Result<ProjectionApplyRequestV1, StorageValueError>,
)
    requires
        rows_wf(row_views(rows@)),
        call_ensures(
            ProjectionApplyRequestV1::new::<H>,
            (schema, generation, sequence, frontier, rows, hash),
            result,
        ),
    ensures
        ({
            let updates = row_views(rows@);
            let payload = apply_payload(
                schema@.identity,
                generation,
                sequence,
                frontier,
                updates,
            );
            let staged = write_set_size(schema@.identity, generation, sequence, updates);
            &&& result is Ok <==> {
                &&& comes_next(frontier, sequence)
                &&& updates.len() <= MAX_PROJECTION_ROW_UPDATES
                &&& forall|i: int|
                    0 <= i < updates.len() ==> #[trigger] row_is_in_place(
                        schema@,
                        generation,
                        frontier,
                        updates,
                        i,
                    )
                &&& payload.len() <= MAX_PROJECTION_APPLY_SEMANTIC_BYTES
                &&& staged <= MAX_PROJECTION_WRITE_SET_BYTES
            }
            &&& result matches Ok(request) ==> {
                &&& request.schema@ == schema@
                &&& request.generation == generation
                &&& request.sequence == sequence
                &&& request.expected_frontier == frontier
                &&& row_views(request.row_updates@) == updates
                &&& request.semantic_bytes == payload.len()
                &&& request.write_set_semantic_bytes == staged
                &&& payload_hashes_to(hash, payload, request.apply_hash)
            }
        }),
{
    apply_requests_are_accepted_in_place(
        schema@,
        generation,
        sequence,
        frontier,
        row_views(rows@),
    );
    if let Ok(request) = result {
        assert(request@.schema == request.schema@);
        assert(request@.rows == row_views(request.row_updates@));
    }
}

/// A snapshot is asked for exactly with keys in place, within the bounds; the request
/// holds the keys and what the least answer takes.
pub proof fn snapshot_requests_are_made_of_keys_in_place(
    schema: CheckedProjectionSchema,
    generation: ProjectionGeneration,
    keys: Vec<ProjectionGroupKey>,
    result: Result<ProjectionApplySnapshotRequest, StorageValueError>,
)
    requires
        call_ensures(ProjectionApplySnapshotRequest::new, (schema, generation, keys), result),
    ensures
        ({
            let asked = key_views(keys@);
            let least = 5 + 5 * asked.len() + leading_key_bytes(asked, asked.len());
            &&& result is Ok <==> asked.len() <= MAX_PROJECTION_ROW_UPDATES && least
                <= MAX_PROJECTION_APPLY_SNAPSHOT_BYTES && forall|i: int|
                0 <= i < asked.len() ==> #[trigger] key_is_in_place(schema@, generation, asked, i)
            &&& result matches Ok(request) ==> key_views(request.group_keys@) == asked
                && request.generation == generation && request.minimum_response_semantic_bytes
                == least
        }),
{
    let asked = key_views(keys@);
    assert forall|i: int| 0 <= i < asked.len() implies (#[trigger] asked[i]).bytes.len()
        <= usize::MAX by {
        assert(asked[i] == keys@[i]@);
        assert(keys@[i].bytes.len() <= usize::MAX);
    }
    snapshot_requests_are_accepted_in_place(schema@, generation, asked);
    if let Ok(request) = result {
        assert(request@.group_keys == key_views(request.group_keys@));
    }
}

/// A snapshot is made exactly of one answer for each key that was asked for, in their
/// order and within the bound.
pub proof fn snapshots_are_made_of_answers(
    request: ProjectionApplySnapshotRequest,
    frontier: FrontierPosition,
    rows: Vec<ProjectionApplyRowObservation>,
    result: Result<ProjectionApplySnapshot, StorageValueError>,
)
    requires
        forall|i: int|
            0 <= i < request@.group_keys.len() ==> (#[trigger] request@.group_keys[i]).bytes.len()
                >= 2,
        call_ensures(ProjectionApplySnapshot::new, (&request, frontier, rows), result),
    ensures
        ({
            let observed = observation_views(rows@);
            let keys = request@.group_keys;
            result is Ok <==> observed.len() == keys.len() && (forall|i: int|
                0 <= i < observed.len() ==> #[trigger] answers(observed[i], keys[i], frontier))
                && fixed_len(frontier) + observed_len(observed, observed.len())
                <= MAX_PROJECTION_APPLY_SNAPSHOT_BYTES
        }),
{
    snapshots_answer_their_request(request@.group_keys, frontier, observation_views(rows@));
}

/// A continuation is made exactly of a key that its selector selects, and a query exactly
/// of a limit within the bound and a continuation of its own selection.
pub proof fn queries_are_made_within_their_selection(
    selector: ProjectionQuerySelector,
    generation: ProjectionGeneration,
    key: ProjectionGroupKey,
    frontier: FrontierPosition,
    continuation: Result<ProjectionLowerContinuation, StorageValueError>,
    limit: NonZeroLimit,
    held: Option<ProjectionLowerContinuation>,
    result: Result<ProjectionQueryRequest, StorageValueError>,
)
    requires
        call_ensures(
            ProjectionLowerContinuation::new,
            (&selector, generation, key, frontier),
            continuation,
        ),
        call_ensures(ProjectionQueryRequest::new, (selector, limit, held), result),
    ensures
        continuation is Ok <==> selector@.has_prefix_in(generation) && selects(
            selector@,
            generation,
            key@,
        ),
        result is Ok <==> limit.value <= MAX_PROJECTION_QUERY_ROWS && (held matches Some(from) ==> {
            &&& selector@.has_prefix_in(from.generation)
            &&& selects(selector@, from.generation, from.exclusive_last_key@)
            &&& from.identity@ == selector@.schema.identity
            &&& from.prefix@ == selector@.prefix_in(from.generation)
        }),
        result matches Ok(request) ==> request.selector@ == selector@ && request.limit == limit
            && continuation_view(request.continuation) == continuation_view(held),
{
    continuations_end_at_selected_keys(selector@, generation, key@);
    queries_go_on_within_their_selection(
        super::query::QueryRequestView {
            selector: selector@,
            limit,
            continuation: continuation_view(held),
        },
    );
    if let Ok(request) = result {
        assert(request@.selector == request.selector@);
        assert(request@.limit == request.limit);
        assert(request@.continuation == continuation_view(request.continuation));
    }
}

/// A page is ready exactly with rows in place behind the key that its query goes on from,
/// few and small enough, and with continuations of what it was read at.
pub proof fn ready_pages_are_made_of_rows_in_place(
    request: ProjectionQueryRequest,
    generation: ProjectionGeneration,
    frontier: FrontierPosition,
    rows: Vec<EncodedPageItem<StoredProjectionStateV1>>,
    next: Option<ProjectionLowerContinuation>,
    result: Result<ProjectionQueryResult, StorageValueError>,
)
    requires
        call_ensures(
            ProjectionQueryResult::ready,
            (&request, generation, frontier, rows, next),
            result,
        ),
    ensures
        ({
            let read = page_rows(rows@);
            result is Ok <==> {
                &&& rows@.len() <= request.limit.value
                &&& request@.selector.has_prefix_in(generation)
                &&& request.continuation matches Some(held) ==> belongs_to(
                    request@.selector,
                    generation,
                    frontier,
                    held@,
                ) && (rows@.len() > 0 ==> bytes_before(
                    held.exclusive_last_key.bytes@,
                    rows@[0].value.key.bytes@,
                ))
                &&& forall|i: int|
                    0 <= i < read.len() ==> #[trigger] page_row_is_in_place(
                        request@,
                        generation,
                        frontier,
                        read,
                        i,
                    )
                &&& next matches Some(held) ==> rows@.len() > 0 && belongs_to(
                    request@.selector,
                    generation,
                    frontier,
                    held@,
                ) && held.exclusive_last_key@ == rows@[rows@.len() - 1].value.key@
                &&& page_charge(rows@) <= MAX_PROJECTION_QUERY_CONTENT_BYTES
            }
        }),
{
    pages_answer_their_query(
        request@,
        generation,
        frontier,
        page_rows(rows@),
        page_charge(rows@),
        continuation_view(next),
    );
}

} // verus!
