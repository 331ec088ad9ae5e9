//! What constructors give back, told by what they were given.

use vstd::prelude::*;
use vstd::utf8::encode_utf8;

use crate::codec::envelope::{charged, decode_profile, elapsed_nanos, DurableReadDecodeProfileV1};
use crate::codec::error::{DurableCodecError, DurableCodecErrorKind};
use crate::ids::{
    CommitSequence, Digest, FrontierPosition, Id32, Id64, ProjectionGeneration, Timestamp,
};
use crate::keys::{CanonicalRecord, ProjectionGroupKey, ProjectionIdentity};
use crate::limits::MAX_SCAN_PAGE_ENTRIES;
use crate::migration::{MigrationJournalState, MigrationScanCursor, MigrationStageError};
use crate::outbox::OutboxPageLimit;
use crate::owned_snapshot::{
    SnapshotIndexRangePageV1, SnapshotIndexRangeRequestV1, StorageScanLimit,
};
use crate::page::{
    checked_encoded_page_content, page_charge, EncodedContentCharge, EncodedPageItem, NonZeroLimit,
};
use crate::plan::ExecutablePlanRef;
use crate::projection::control::{
    ProjectionFailureCodeV1, ProjectionLifecycleV1, PublishedApplyModeV1, StoredProjectionControlV1,
};
use crate::projection::query::{
    ProjectionLowerContinuation, ProjectionQueryRequest, ProjectionQueryResult,
    ProjectionQuerySelector, ProjectionStatus, ProjectionUnavailableReason,
};
use crate::projection::snapshot::{
    ProjectionApplyRowObservation, ProjectionApplySnapshot, ProjectionApplySnapshotRequest,
};
use crate::projection::state::{ProjectionRowPrior, ProjectionRowUpdateV1, StoredProjectionStateV1};
use crate::projection_schema::CheckedProjectionSchema;
use crate::records::StoredIndexEntryV2;
use crate::value_error::StorageValueError;

verus! {

/// Zero is no commit, no generation and no identifier; any other number is itself.
pub proof fn zero_is_no_name(
    word: u64,
    half: u32,
    commit: Option<CommitSequence>,
    generation: Option<ProjectionGeneration>,
    long: Option<Id64>,
    short: Option<Id32>,
)
    requires
        call_ensures(CommitSequence::new, (word,), commit),
        call_ensures(ProjectionGeneration::new, (word,), generation),
        call_ensures(Id64::new, (word,), long),
        call_ensures(Id32::new, (half,), short),
    ensures
        commit is Some <==> word > 0,
        commit is Some ==> commit->Some_0.value == word,
        generation is Some <==> word > 0,
        generation is Some ==> generation->Some_0.value == word,
        long is Some <==> word > 0,
        long is Some ==> long->Some_0.value == word,
        short is Some <==> half > 0,
        short is Some ==> short->Some_0.value == half,
{
}

/// What comes next is one more, up to the largest number.
pub proof fn what_comes_next_is_one_more(
    commit: CommitSequence,
    next_commit: Option<CommitSequence>,
    generation: ProjectionGeneration,
    next_generation: Option<ProjectionGeneration>,
)
    requires
        call_ensures(CommitSequence::checked_next, (commit,), next_commit),
        call_ensures(ProjectionGeneration::checked_next, (generation,), next_generation),
    ensures
        next_commit is None <==> commit.value == 0xffff_ffff_ffff_ffff,
        next_commit is Some ==> next_commit->Some_0.value - commit.value == 1,
        next_generation is None <==> generation.value == 0xffff_ffff_ffff_ffff,
        next_generation is Some ==> next_generation->Some_0.value - generation.value == 1,
{
}

/// A point in time has fewer nanoseconds than make a second.
pub proof fn times_stay_within_their_second(
    seconds: i64,
    nanoseconds: u32,
    result: Option<Timestamp>,
)
    requires
        call_ensures(Timestamp::new, (seconds, nanoseconds), result),
    ensures
        result is Some <==> nanoseconds <= 999_999_999,
        result matches Some(time) ==> time.seconds == seconds && time.nanoseconds == nanoseconds,
{
}

/// A limit and a charge are not zero, and a limit on a page is at most what a page holds.
pub proof fn limits_and_charges_are_not_zero(
    asked: u16,
    limit: Option<NonZeroLimit>,
    bytes: usize,
    charge: Option<EncodedContentCharge>,
    given: NonZeroLimit,
    scan: Result<StorageScanLimit, StorageValueError>,
    outbox: Result<OutboxPageLimit, StorageValueError>,
)
    requires
        call_ensures(NonZeroLimit::new, (asked,), limit),
        call_ensures(EncodedContentCharge::new, (bytes,), charge),
        call_ensures(StorageScanLimit::new, (given,), scan),
        call_ensures(OutboxPageLimit::new, (given,), outbox),
    ensures
        limit is Some <==> asked > 0,
        limit is Some ==> limit->Some_0.value == asked,
        charge is Some <==> bytes > 0,
        charge is Some ==> charge->Some_0.bytes == bytes,
        scan is Ok <==> given.value <= MAX_SCAN_PAGE_ENTRIES,
        scan is Ok ==> scan->Ok_0.value == given,
        scan is Err ==> scan->Err_0 == StorageValueError::LimitExceeded,
        outbox is Ok <==> given.value <= MAX_SCAN_PAGE_ENTRIES,
        outbox is Ok ==> outbox->Ok_0.value == given,
        outbox is Err ==> outbox->Err_0 == StorageValueError::LimitExceeded,
{
}

/// A page takes what its items take together, and no more than it may.
pub proof fn pages_take_what_their_items_take<T>(
    items: &[EncodedPageItem<T>],
    maximum: usize,
    result: Result<usize, StorageValueError>,
)
    requires
        call_ensures(checked_encoded_page_content::<T>, (items, maximum), result),
    ensures
        result is Ok <==> page_charge(items@) <= maximum,
        result is Ok ==> result->Ok_0 == page_charge(items@),
        result is Err ==> result->Err_0 == if page_charge(items@) > usize::MAX {
            StorageValueError::SizeOverflow
        } else {
            StorageValueError::LimitExceeded
        },
{
}

/// A reference to a plan takes the bytes of its lineage and eighty more.
pub proof fn plans_take_their_lineage_and_eighty_bytes(
    plan: ExecutablePlanRef,
    result: Option<usize>,
)
    requires
        call_ensures(ExecutablePlanRef::semantic_bytes, (&plan,), result),
    ensures
        result matches Some(bytes) ==> bytes == encode_utf8(plan.contract_lineage@).len() + 80,
        result is None <==> encode_utf8(plan.contract_lineage@).len() + 80 > usize::MAX,
{
}

/// A journal counts no more changed rows than checked ones, in one batch or more, and
/// begins as not complete.
pub proof fn journals_begin_with_their_counts(
    migration: Digest,
    checked_through: MigrationScanCursor,
    checked_rows: u64,
    changed_rows: u64,
    batch_count: u64,
    result: Result<MigrationJournalState, MigrationStageError>,
)
    requires
        call_ensures(
            MigrationJournalState::new,
            (migration, checked_through, checked_rows, changed_rows, batch_count),
            result,
        ),
    ensures
        result is Ok <==> changed_rows <= checked_rows && batch_count >= 1,
        result is Err ==> result->Err_0 == MigrationStageError::Integrity,
        result matches Ok(journal) ==> journal.migration == migration && journal.checked_through
            == checked_through && journal.checked_rows == checked_rows && journal.changed_rows
            == changed_rows && journal.batch_count == batch_count && !journal.complete,
{
}

/// A page of an index range holds the entries that were read and, exactly where more
/// remain, goes on from the key of the last one.
pub proof fn range_pages_go_on_from_their_last_key(
    request: SnapshotIndexRangeRequestV1,
    entries: Vec<EncodedPageItem<StoredIndexEntryV2>>,
    has_more: bool,
    result: Result<SnapshotIndexRangePageV1, StorageValueError>,
)
    requires
        call_ensures(SnapshotIndexRangePageV1::new, (&request, entries, has_more), result),
    ensures
        result matches Ok(page) ==> {
            &&& page.entries == entries
            &&& page.next_after is Some <==> has_more
            &&& has_more ==> entries@.len() > 0 && page.next_after->Some_0@ == entries@[
                entries@.len() - 1].value.key@
        },
{
}

/// The tags of a projection's lifecycle, of how its published generation is applied, of
/// its failures and of why it is unavailable count from one.
pub proof fn projection_tags_count_from_one(
    lifecycle: ProjectionLifecycleV1,
    lifecycle_tag: u8,
    mode: PublishedApplyModeV1,
    mode_tag: u8,
    failure: ProjectionFailureCodeV1,
    failure_tag: u8,
    reason: ProjectionUnavailableReason,
    reason_tag: u8,
)
    requires
        call_ensures(ProjectionLifecycleV1::tag, (lifecycle,), lifecycle_tag),
        call_ensures(PublishedApplyModeV1::tag, (mode,), mode_tag),
        call_ensures(ProjectionFailureCodeV1::tag, (failure,), failure_tag),
        call_ensures(ProjectionUnavailableReason::tag, (reason,), reason_tag),
    ensures
        lifecycle_tag == 1 <==> lifecycle is Building,
        lifecycle_tag == 2 <==> lifecycle is CatchingUp,
        lifecycle_tag == 3 <==> lifecycle is Ready,
        lifecycle_tag == 4 <==> lifecycle is Degraded,
        lifecycle_tag == 5 <==> lifecycle is Rebuilding,
        lifecycle_tag == 6 <==> lifecycle is Invalid,
        mode_tag == 1 <==> mode is Enabled,
        mode_tag == 2 <==> mode is Suspended,
        failure_tag == 1 <==> failure is ArithmeticOverflow,
        failure_tag == 2 <==> failure is MalformedDurableEvent,
        failure_tag == 3 <==> failure is MissingCommit,
        failure_tag == 4 <==> failure is PlanOrSchemaUnavailable,
        failure_tag == 5 <==> failure is ProjectionStateIntegrity,
        failure_tag == 6 <==> failure is HardLimitExceeded,
        reason_tag == 1 <==> reason is Building,
        reason_tag == 2 <==> reason is Rebuilding,
        reason_tag == 3 <==> reason is Failure,
{
}

/// A continuation holds the selector's identity and prefix in the generation, and the key
/// and the frontier that it was given.
pub proof fn continuations_hold_what_they_were_given(
    selector: ProjectionQuerySelector,
    generation: ProjectionGeneration,
    key: ProjectionGroupKey,
    frontier: FrontierPosition,
    result: Result<ProjectionLowerContinuation, StorageValueError>,
)
    requires
        call_ensures(
            ProjectionLowerContinuation::new,
            (&selector, generation, key, frontier),
            result,
        ),
    ensures
        result matches Ok(held) ==> {
            &&& held.identity@ == selector.schema.identity@
            &&& held.generation == generation
            &&& held.prefix@ == selector@.prefix_in(generation)
            &&& held.exclusive_last_key@ == key@
            &&& held.observed_frontier == frontier
        },
{
    if let Ok(held) = result {
        assert(held@.identity == held.identity@);
        assert(held@.prefix == held.prefix@);
    }
}

/// A page that answers a query is ready: it holds the generation, the frontier, the rows
/// and the continuation that it was given.
pub proof fn ready_pages_hold_what_they_were_given(
    request: ProjectionQueryRequest,
    generation: ProjectionGeneration,
    frontier: FrontierPosition,
    rows: Vec<EncodedPageItem<StoredProjectionStateV1>>,
    next: Option<ProjectionLowerContinuation>,
    result: Result<ProjectionQueryResult, StorageValueError>,
)
    requires
        call_ensures(
            ProjectionQueryResult::ready,
            (&request, generation, frontier, rows, next),
            result,
        ),
    ensures
        result matches Ok(page) ==> match page {
            ProjectionQueryResult::Ready {
                generation: held_generation,
                frontier: held_frontier,
                rows: held_rows,
                next: held_next,
            } => held_generation == generation && held_frontier == frontier && held_rows == rows
                && (held_next is Some <==> next is Some) && (next matches Some(given)
                ==> held_next->Some_0@ == given@),
            _ => false,
        },
{
}

/// A status shows its control record field by field beside the head of the log; a
/// projection without one is building and has nothing to show.
pub proof fn statuses_show_their_control(
    control: StoredProjectionControlV1,
    identity: ProjectionIdentity,
    head: FrontierPosition,
    shown: ProjectionStatus,
    absent: ProjectionStatus,
)
    requires
        call_ensures(ProjectionStatus::from_control, (&control, head), shown),
        call_ensures(ProjectionStatus::uninitialized, (identity, head), absent),
    ensures
        shown.identity@ == control.identity@,
        shown.lifecycle == control.lifecycle,
        shown.published == control.published,
        shown.candidate == control.candidate,
        shown.published_apply_mode == control.published_apply_mode,
        shown.failure == control.failure,
        shown.authoritative_head == head,
        absent.identity@ == identity@,
        absent.lifecycle is Building,
        absent.published is None,
        absent.candidate is None,
        absent.published_apply_mode is None,
        absent.failure is None,
        absent.authoritative_head == head,
{
    assert(shown@.lifecycle == shown.lifecycle && shown@.identity == shown.identity@);
    assert(absent@.lifecycle == absent.lifecycle && absent@.identity == absent.identity@);
}

/// A snapshot holds the observations that it was given, at the frontier that it was given.
pub proof fn snapshots_hold_what_they_were_given(
    request: ProjectionApplySnapshotRequest,
    frontier: FrontierPosition,
    rows: Vec<ProjectionApplyRowObservation>,
    result: Result<ProjectionApplySnapshot, StorageValueError>,
)
    requires
        call_ensures(ProjectionApplySnapshot::new, (&request, frontier, rows), result),
    ensures
        result matches Ok(snapshot) ==> snapshot.expected_frontier == frontier
            && snapshot.rows@.len() == rows@.len() && forall|i: int|
            0 <= i < rows@.len() ==> (#[trigger] snapshot.rows@[i])@ == rows@[i]@,
{
    if let Ok(snapshot) = result {
        assert(snapshot@.expected_frontier == snapshot.expected_frontier);
        let held = crate::projection::snapshot::observation_views(snapshot.rows@);
        let given = crate::projection::snapshot::observation_views(rows@);
        assert(held == given);
        assert(held.len() == snapshot.rows@.len() && given.len() == rows@.len());
        assert forall|i: int| 0 <= i < rows@.len() implies (#[trigger] snapshot.rows@[i])@
            == rows@[i]@ by {
            assert(held[i] == given[i]);
        }
    }
}

/// A row and an update of a row hold the key, the measures and the evidence that they
/// were given.
pub proof fn rows_hold_what_they_were_given(
    schema: CheckedProjectionSchema,
    key: ProjectionGroupKey,
    measures: CanonicalRecord,
    changed: CommitSequence,
    prior: ProjectionRowPrior,
    row: Result<StoredProjectionStateV1, StorageValueError>,
    update: Result<ProjectionRowUpdateV1, StorageValueError>,
)
    requires
        call_ensures(StoredProjectionStateV1::new, (&schema, key, measures, changed), row),
        call_ensures(ProjectionRowUpdateV1::new, (&schema, key, prior, measures), update),
    ensures
        row matches Ok(held) ==> held.key@ == key@ && held.measures@ == measures@
            && held.last_changed_sequence == changed,
        update matches Ok(held) ==> held.key@ == key@ && held.measures@ == measures@ && held.prior
            == prior,
{
    if let Ok(held) = row {
        assert(held@.key == held.key@);
    }
    if let Ok(held) = update {
        assert(held@.key == held.key@);
    }
}

/// What was read is charged for its bytes, and nothing is read of none.
pub proof fn what_was_read_is_charged<T>(
    value: T,
    encoded_len: usize,
    result: Result<EncodedPageItem<T>, DurableCodecError>,
)
    requires
        call_ensures(charged::<T>, (value, encoded_len), result),
    ensures
        result is Ok <==> encoded_len > 0,
        result matches Ok(item) ==> item.value == value && item.charge.bytes == encoded_len,
        result matches Err(error) ==> error.kind == DurableCodecErrorKind::CorruptData,
{
}

/// A profile has the timings of the typed reader or, where only the registry could read,
/// that of the registry as a whole; the reconstruction is timed in either case. No timing
/// is more than a word holds.
pub proof fn profiles_time_what_was_done(
    typed: Option<DurableReadDecodeProfileV1>,
    fallback_ns: u128,
    semantic_ns: u128,
    result: DurableReadDecodeProfileV1,
    fallback: u64,
    semantic: u64,
)
    requires
        call_ensures(decode_profile, (typed, fallback_ns, semantic_ns), result),
        call_ensures(elapsed_nanos, (fallback_ns,), fallback),
        call_ensures(elapsed_nanos, (semantic_ns,), semantic),
    ensures
        fallback_ns <= 0xffff_ffff_ffff_ffff ==> fallback == fallback_ns,
        fallback_ns > 0xffff_ffff_ffff_ffff ==> fallback == 0xffff_ffff_ffff_ffff,
        result.semantic_reconstruct_ns == semantic,
        typed is None ==> result.identity_bounds_ns == fallback && result.checksum_ns == 0
            && result.wire_preflight_ns == 0 && result.prost_decode_ns == 0
            && result.canonical_reencode_ns == 0,
        typed matches Some(profile) ==> result.identity_bounds_ns == profile.identity_bounds_ns
            && result.checksum_ns == profile.checksum_ns && result.wire_preflight_ns
            == profile.wire_preflight_ns && result.prost_decode_ns == profile.prost_decode_ns
            && result.canonical_reencode_ns == profile.canonical_reencode_ns,
{
}

} // verus!
