//! Bounded multi-sequence projection application.

use vstd::prelude::*;

use super::apply::{ProjectionApplyRequestV1, ProjectionApplyRequestView};
use super::control::{ProjectionControlView, StoredProjectionControlV1};
use super::sizes::{
    control_size, fitting, maximum_projection_control_semantic_bytes,
    validate_projection_snapshot_semantic_bytes, validate_projection_write_set_semantic_bytes,
};
use super::snapshot::{observation_views, ObservationView, ProjectionApplyRowObservation};
use super::state::{row_views, ProjectionRowPrior, ProjectionRowUpdateV1, ProjectionRowUpdateView};
use crate::bytes::{bytes_before, order_bytes, BytesOrder};
use crate::ids::{CommitSequence, FrontierPosition};
use crate::keys::ProjectionIdentity;
use crate::limits::{
    MAX_PROJECTION_APPLY_SNAPSHOT_BYTES, MAX_PROJECTION_ROW_UPDATES, MAX_PROJECTION_WRITE_SET_BYTES,
};
use crate::value_error::StorageValueError;

verus! {

/// Maximum contiguous members in one derived projection transaction.
pub const MAX_PROJECTION_BATCH_MEMBERS: usize = 64;

/// The views of batch members.
pub open spec fn member_views(members: Seq<ProjectionApplyRequestV1>) -> Seq<
    ProjectionApplyRequestView,
> {
    Seq::new(members.len(), |i: int| members[i]@)
}

/// What is known of one observed row while the members are replayed: the
/// evidence that the next update has to state, and whether any update did.
#[derive(Clone, Copy, Debug, PartialEq, Eq, Structural)]
pub struct LedgerRow {
    pub prior: ProjectionRowPrior,
    pub used: bool,
}

/// The charge so far and the key that the next observation has to exceed.
#[verifier::ext_equal]
pub ghost struct ObservationProgress {
    pub charge: usize,
    pub previous: Option<Seq<u8>>,
    pub rows: Map<Seq<u8>, LedgerRow>,
}

/// One more observation: ordered, of the first member's schema and generation,
/// and charged twice, for the evidence and for its overlay.
pub open spec fn observe(
    first: ProjectionApplyRequestView,
    progress: ObservationProgress,
    observation: ObservationView,
) -> Result<ObservationProgress, StorageValueError> {
    let key = observation.key();
    let measures = match observation {
        ObservationView::Absent(_) => None,
        ObservationView::Present(row) => first.schema.measure_refusal(row.measures),
    };
    let size = observation.size_at(first.expected_frontier);
    if progress.previous matches Some(previous) && !bytes_before(previous, key.bytes) {
        Err(StorageValueError::NonCanonicalOrder)
    } else if !first.schema.admits_complete(key.components) {
        Err(StorageValueError::InvalidShape)
    } else if key.generation != first.generation {
        Err(StorageValueError::IdentityMismatch)
    } else if measures is Some {
        Err(measures->Some_0)
    } else if size is Err {
        Err(size->Err_0)
    } else if progress.charge + 2 * size->Ok_0 > usize::MAX {
        Err(StorageValueError::SizeOverflow)
    } else if progress.charge + 2 * size->Ok_0 > MAX_PROJECTION_APPLY_SNAPSHOT_BYTES {
        Err(StorageValueError::LimitExceeded)
    } else {
        Ok(
            ObservationProgress {
                charge: (progress.charge + 2 * size->Ok_0) as usize,
                previous: Some(key.bytes),
                rows: progress.rows.insert(
                    key.bytes,
                    LedgerRow { prior: observation.prior(), used: false },
                ),
            },
        )
    }
}

/// All observations in order.
pub open spec fn observe_all(
    first: ProjectionApplyRequestView,
    progress: ObservationProgress,
    observations: Seq<ObservationView>,
) -> Result<ObservationProgress, StorageValueError>
    decreases observations.len(),
{
    if observations.len() == 0 {
        Ok(progress)
    } else {
        match observe(first, progress, observations[0]) {
            Err(error) => Err(error),
            Ok(next) => observe_all(first, next, observations.skip(1)),
        }
    }
}

/// One row update replayed: it states the row's latest evidence, and becomes it.
pub open spec fn replay_row(
    rows: Map<Seq<u8>, LedgerRow>,
    sequence: CommitSequence,
    update: ProjectionRowUpdateView,
) -> Option<Map<Seq<u8>, LedgerRow>> {
    let key = update.key.bytes;
    if rows.contains_key(key) && rows[key].prior == update.prior {
        Some(
            rows.insert(
                key,
                LedgerRow { prior: ProjectionRowPrior::Present(sequence), used: true },
            ),
        )
    } else {
        None
    }
}

/// All row updates of one member in order.
pub open spec fn replay_rows(
    rows: Map<Seq<u8>, LedgerRow>,
    sequence: CommitSequence,
    updates: Seq<ProjectionRowUpdateView>,
) -> Option<Map<Seq<u8>, LedgerRow>>
    decreases updates.len(),
{
    if updates.len() == 0 {
        Some(rows)
    } else {
        match replay_row(rows, sequence, updates[0]) {
            None => None,
            Some(next) => replay_rows(next, sequence, updates.skip(1)),
        }
    }
}

/// How far the members have been replayed.
#[verifier::ext_equal]
pub ghost struct ReplayProgress {
    pub frontier: FrontierPosition,
    pub updates: usize,
    pub charge: usize,
    pub rows: Map<Seq<u8>, LedgerRow>,
}

/// One more member: it follows the frontier under the same schema and
/// generation, keeps the shared bounds, and its updates replay.
pub open spec fn replay(
    first: ProjectionApplyRequestView,
    progress: ReplayProgress,
    member: ProjectionApplyRequestView,
) -> Result<ReplayProgress, StorageValueError> {
    let updates = progress.updates + member.rows.len();
    let charge = progress.charge + member.semantic_bytes + member.write_set_semantic_bytes;
    let rows = replay_rows(progress.rows, member.sequence, member.rows);
    if member.schema != first.schema || member.generation != first.generation
        || member.expected_frontier != progress.frontier {
        Err(StorageValueError::IdentityMismatch)
    } else if updates > usize::MAX {
        Err(StorageValueError::SizeOverflow)
    } else if updates > MAX_PROJECTION_ROW_UPDATES {
        Err(StorageValueError::LimitExceeded)
    } else if charge > usize::MAX {
        Err(StorageValueError::SizeOverflow)
    } else if charge > MAX_PROJECTION_WRITE_SET_BYTES {
        Err(StorageValueError::LimitExceeded)
    } else if rows is None {
        Err(StorageValueError::InvalidShape)
    } else {
        Ok(
            ReplayProgress {
                frontier: FrontierPosition::AppliedThrough(member.sequence),
                updates: updates as usize,
                charge: charge as usize,
                rows: rows->Some_0,
            },
        )
    }
}

/// All members in order.
pub open spec fn replay_all(
    first: ProjectionApplyRequestView,
    progress: ReplayProgress,
    members: Seq<ProjectionApplyRequestView>,
) -> Result<ReplayProgress, StorageValueError>
    decreases members.len(),
{
    if members.len() == 0 {
        Ok(progress)
    } else {
        match replay(first, progress, members[0]) {
            Err(error) => Err(error),
            Ok(next) => replay_all(first, next, members.skip(1)),
        }
    }
}

/// Whether every observed row was updated by some member.
pub open spec fn all_used(rows: Map<Seq<u8>, LedgerRow>) -> bool {
    forall|key: Seq<u8>| rows.contains_key(key) ==> (#[trigger] rows[key]).used
}

/// The charge of an accepted batch, or why it is refused.
pub open spec fn batch_outcome(
    expected: ProjectionControlView,
    members: Seq<ProjectionApplyRequestView>,
    observations: Seq<ObservationView>,
) -> Result<usize, StorageValueError> {
    let first = members[0];
    if members.len() == 0 {
        Err(StorageValueError::InvalidShape)
    } else if members.len() > MAX_PROJECTION_BATCH_MEMBERS || observations.len()
        > MAX_PROJECTION_ROW_UPDATES {
        Err(StorageValueError::LimitExceeded)
    } else if expected.identity != first.schema.identity || !expected.permits(first.generation)
        || expected.frontier_of(first.generation) != Some(first.expected_frontier) {
        Err(StorageValueError::IdentityMismatch)
    } else {
        match fitting(control_size(first.schema.identity)) {
            Err(error) => Err(error),
            Ok(reserve) => {
                let start = ObservationProgress {
                    charge: reserve,
                    previous: None,
                    rows: Map::empty(),
                };
                match observe_all(first, start, observations) {
                    Err(error) => Err(error),
                    Ok(observed) => {
                        let base = ReplayProgress {
                            frontier: first.expected_frontier,
                            updates: 0,
                            charge: observed.charge,
                            rows: observed.rows,
                        };
                        match replay_all(first, base, members) {
                            Err(error) => Err(error),
                            Ok(done) => if all_used(done.rows) {
                                Ok(done.charge)
                            } else {
                                Err(StorageValueError::InvalidShape)
                            },
                        }
                    },
                }
            },
        }
    }
}

/// Each observation's key comes before the next one's.
spec fn ordered(observations: Seq<ObservationView>, count: int) -> bool {
    forall|i: int, j: int|
        0 <= i < j < count ==> bytes_before(
            (#[trigger] observations[i]).key().bytes,
            (#[trigger] observations[j]).key().bytes,
        )
}

/// The ledger rows stand beside the first observations.
spec fn ledger_matches(
    observations: Seq<ObservationView>,
    ledger: Seq<LedgerRow>,
    rows: Map<Seq<u8>, LedgerRow>,
) -> bool {
    &&& ledger.len() <= observations.len()
    &&& ordered(observations, ledger.len() as int)
    &&& forall|i: int|
        0 <= i < ledger.len() ==> rows.contains_key((#[trigger] observations[i]).key().bytes)
            && rows[observations[i].key().bytes] == ledger[i]
    &&& forall|key: Seq<u8>| #[trigger]
        rows.contains_key(key) ==> exists|i: int|
            0 <= i < ledger.len() && (#[trigger] observations[i]).key().bytes == key
}

/// Checks one observation and returns the charge with it.
fn check_observation(
    first: &ProjectionApplyRequestV1,
    charge: usize,
    previous: Option<&ProjectionApplyRowObservation>,
    observation: &ProjectionApplyRowObservation,
    Ghost(rows): Ghost<Map<Seq<u8>, LedgerRow>>,
) -> (result: Result<usize, StorageValueError>)
    ensures
        ({
            let progress = ObservationProgress {
                charge,
                previous: match previous {
                    Some(held) => Some(held@.key().bytes),
                    None => None,
                },
                rows,
            };
            match observe(first@, progress, observation@) {
                Ok(next) => result == Ok::<usize, StorageValueError>(next.charge),
                Err(error) => result == Err::<usize, StorageValueError>(error),
            }
        }),
{
    let key = observation.key();
    if let Some(held) = previous {
        proof {
            crate::bytes::bytes_before_total(held@.key().bytes, key@.bytes);
            crate::bytes::bytes_before_irreflexive(key@.bytes);
        }
        if order_bytes(held.key().as_bytes(), key.as_bytes()) != BytesOrder::Before {
            return Err(StorageValueError::NonCanonicalOrder);
        }
    }
    match first.schema().validate_group_key(key) {
        Ok(()) => {},
        Err(error) => {
            return Err(error);
        },
    }
    if key.generation() != first.generation() {
        return Err(StorageValueError::IdentityMismatch);
    }
    if let ProjectionApplyRowObservation::Present(row) = observation {
        match first.schema().validate_measure_record(row.measures()) {
            Ok(()) => {},
            Err(error) => {
                return Err(error);
            },
        }
    }
    let size = match observation.semantic_bytes_at(first.expected_frontier()) {
        Ok(size) => size,
        Err(error) => {
            return Err(error);
        },
    };
    let doubled = match size.checked_mul(2) {
        Some(doubled) => doubled,
        None => {
            return Err(StorageValueError::SizeOverflow);
        },
    };
    let total = match charge.checked_add(doubled) {
        Some(total) => total,
        None => {
            return Err(StorageValueError::SizeOverflow);
        },
    };
    match validate_projection_snapshot_semantic_bytes(total) {
        Ok(()) => Ok(total),
        Err(error) => Err(error),
    }
}

/// Checks all observations: their charge and the ledger.
fn check_observations(
    first: &ProjectionApplyRequestV1,
    reserve: usize,
    observations: &[ProjectionApplyRowObservation],
) -> (result: Result<(usize, Vec<LedgerRow>), StorageValueError>)
    ensures
        ({
            let start = ObservationProgress { charge: reserve, previous: None, rows: Map::empty() };
            match observe_all(first@, start, observation_views(observations@)) {
                Ok(done) => result is Ok && result->Ok_0.0 == done.charge
                    && result->Ok_0.1@.len() == observations@.len() && ledger_matches(
                    observation_views(observations@),
                    result->Ok_0.1@,
                    done.rows,
                ),
                Err(error) => result == Err::<(usize, Vec<LedgerRow>), _>(error),
            }
        }),
{
    let ghost views = observation_views(observations@);
    let ghost start = ObservationProgress { charge: reserve, previous: None, rows: Map::empty() };
    let ghost mut progress = start;
    let mut charge = reserve;
    let mut ledger: Vec<LedgerRow> = Vec::new();
    let mut i: usize = 0;
    assert(views.skip(0) =~= views);
    #[verifier::loop_isolation(false)]
    while i < observations.len()
        invariant
            i <= observations@.len(),
            views == observation_views(observations@),
            ledger@.len() == i,
            ledger_matches(views, ledger@, progress.rows),
            progress.charge == charge,
            progress.previous == if i == 0 {
                None
            } else {
                Some(views[i - 1].key().bytes)
            },
            observe_all(first@, start, views) == observe_all(
                first@,
                progress,
                views.skip(i as int),
            ),
        decreases observations@.len() - i,
    {
        assert(views.skip(i as int)[0] == observations@[i as int]@);
        assert(views.skip(i as int).skip(1) =~= views.skip(i as int + 1));
        let previous = if i == 0 {
            None
        } else {
            Some(&observations[i - 1])
        };
        match check_observation(first, charge, previous, &observations[i], Ghost(progress.rows)) {
            Ok(total) => {
                charge = total;
            },
            Err(error) => {
                return Err(error);
            },
        }
        let ghost before = ledger@;
        let ghost earlier = progress;
        proof {
            progress = observe(first@, progress, views[i as int])->Ok_0;
        }
        let row = LedgerRow { prior: observations[i].prior(), used: false };
        ledger.push(row);
        proof {
            let key = views[i as int].key().bytes;
            assert forall|a: int, b: int| 0 <= a < b < i + 1 implies bytes_before(
                (#[trigger] views[a]).key().bytes,
                (#[trigger] views[b]).key().bytes,
            ) by {
                if b == i && a < i - 1 {
                    assert(bytes_before(views[a].key().bytes, views[i - 1].key().bytes));
                    crate::bytes::bytes_before_transitive(
                        views[a].key().bytes,
                        views[i - 1].key().bytes,
                        key,
                    );
                }
            }
            assert(ordered(views, i as int + 1));
            assert forall|a: int| 0 <= a < i + 1 implies progress.rows.contains_key(
                (#[trigger] views[a]).key().bytes,
            ) && progress.rows[views[a].key().bytes] == ledger@[a] by {
                if a < i {
                    assert(bytes_before(views[a].key().bytes, views[i as int].key().bytes));
                    crate::bytes::bytes_before_irreflexive(key);
                    assert(views[a].key().bytes != key);
                    assert(ledger@[a] == before[a]);
                    assert(earlier.rows.contains_key(views[a].key().bytes));
                }
            }
            assert forall|k: Seq<u8>| #[trigger] progress.rows.contains_key(k)
                implies exists|a: int|
                0 <= a < i + 1 && (#[trigger] views[a]).key().bytes == k by {
                if k == key {
                    assert(views[i as int].key().bytes == k);
                } else {
                    assert(earlier.rows.contains_key(k));
                }
            }
        }
        i += 1;
    }
    Ok((charge, ledger))
}

/// Finds the observation of a key by binary search.
fn find_observation(observations: &[ProjectionApplyRowObservation], key: &[u8]) -> (result: Option<
    usize,
>)
    requires
        ordered(observation_views(observations@), observations@.len() as int),
    ensures
        match result {
            Some(index) => index < observations@.len() && observations@[index as int]@.key().bytes
                == key@,
            None => forall|i: int|
                0 <= i < observations@.len() ==> (#[trigger] observations@[i])@.key().bytes != key@,
        },
{
    let ghost views = observation_views(observations@);
    let mut low: usize = 0;
    let mut high: usize = observations.len();
    while low < high
        invariant
            low <= high <= observations@.len(),
            views == observation_views(observations@),
            ordered(views, observations@.len() as int),
            forall|i: int| 0 <= i < low ==> (#[trigger] views[i]).key().bytes != key@,
            forall|i: int| high <= i < views.len() ==> (#[trigger] views[i]).key().bytes != key@,
        decreases high - low,
    {
        let middle = low + (high - low) / 2;
        assert(views[middle as int] == observations@[middle as int]@);
        let ghost held = views[middle as int].key().bytes;
        match order_bytes(observations[middle].key().as_bytes(), key) {
            BytesOrder::Same => {
                return Some(middle);
            },
            BytesOrder::Before => {
                assert forall|i: int| 0 <= i <= middle implies (#[trigger] views[i]).key().bytes
                    != key@ by {
                    if i < middle {
                        assert(bytes_before(views[i].key().bytes,
                            views[middle as int].key().bytes));
                        crate::bytes::bytes_before_transitive(views[i].key().bytes, held, key@);
                    }
                    crate::bytes::bytes_before_irreflexive(key@);
                }
                low = middle + 1;
            },
            BytesOrder::After => {
                assert forall|i: int| middle <= i < views.len() implies (
                #[trigger] views[i]).key().bytes != key@ by {
                    if middle < i {
                        assert(bytes_before(views[middle as int].key().bytes,
                            views[i].key().bytes));
                        crate::bytes::bytes_before_transitive(key@, held, views[i].key().bytes);
                    }
                    crate::bytes::bytes_before_irreflexive(key@);
                }
                high = middle;
            },
        }
    }
    assert forall|i: int| 0 <= i < observations@.len() implies (
    #[trigger] observations@[i])@.key().bytes != key@ by {
        assert(views[i].key().bytes != key@);
    }
    None
}

/// Replays one member's updates on the ledger.
fn replay_updates(
    observations: &[ProjectionApplyRowObservation],
    ledger: &mut Vec<LedgerRow>,
    sequence: CommitSequence,
    updates: &[ProjectionRowUpdateV1],
    Ghost(rows): Ghost<Map<Seq<u8>, LedgerRow>>,
) -> (result: bool)
    requires
        old(ledger)@.len() == observations@.len(),
        ledger_matches(observation_views(observations@), old(ledger)@, rows),
    ensures
        match replay_rows(rows, sequence, row_views(updates@)) {
            Some(next) => result && final(ledger)@.len() == observations@.len() && ledger_matches(
                observation_views(observations@),
                final(ledger)@,
                next,
            ),
            None => !result,
        },
{
    let ghost views = observation_views(observations@);
    let ghost update_views = row_views(updates@);
    let ghost mut current = rows;
    let mut i: usize = 0;
    assert(update_views.skip(0) =~= update_views);
    while i < updates.len()
        invariant
            i <= updates@.len(),
            views == observation_views(observations@),
            update_views == row_views(updates@),
            ledger@.len() == observations@.len(),
            ledger_matches(views, ledger@, current),
            replay_rows(rows, sequence, update_views) == replay_rows(
                current,
                sequence,
                update_views.skip(i as int),
            ),
        decreases updates@.len() - i,
    {
        let update = &updates[i];
        assert(update_views.skip(i as int)[0] == update@);
        assert(update_views.skip(i as int).skip(1) =~= update_views.skip(i as int + 1));
        let ghost key = update@.key.bytes;
        let index = match find_observation(observations, update.key().as_bytes()) {
            Some(index) => index,
            None => {
                proof {
                    if current.contains_key(key) {
                        let j = choose|j: int|
                            0 <= j < ledger@.len() && (#[trigger] views[j]).key().bytes == key;
                        assert(observations@[j]@.key().bytes == key);
                    }
                }
                return false;
            },
        };
        assert(views[index as int].key().bytes == key);
        if ledger[index].prior != update.prior() {
            return false;
        }
        let ghost before = ledger@;
        let ghost earlier = current;
        let row = LedgerRow { prior: ProjectionRowPrior::Present(sequence), used: true };
        ledger.set(index, row);
        proof {
            current = current.insert(key, row);
            assert forall|a: int| 0 <= a < ledger@.len() implies current.contains_key(
                (#[trigger] views[a]).key().bytes,
            ) && current[views[a].key().bytes] == ledger@[a] by {
                if a != index {
                    crate::bytes::bytes_before_irreflexive(key);
                    if a < index {
                        assert(bytes_before(views[a].key().bytes, views[index as int].key().bytes));
                    } else {
                        assert(bytes_before(views[index as int].key().bytes, views[a].key().bytes));
                    }
                    assert(ledger@[a] == before[a]);
                    assert(earlier.contains_key(views[a].key().bytes));
                }
            }
            assert forall|k: Seq<u8>| #[trigger] current.contains_key(k) implies exists|a: int|
                0 <= a < ledger@.len() && (#[trigger] views[a]).key().bytes == k by {
                if k != key {
                    assert(earlier.contains_key(k));
                }
            }
            assert(ordered(views, ledger@.len() as int));
        }
        i += 1;
    }
    true
}

fn every_row_used(
    observations: &[ProjectionApplyRowObservation],
    ledger: &[LedgerRow],
    Ghost(rows): Ghost<Map<Seq<u8>, LedgerRow>>,
) -> (result: bool)
    requires
        ledger@.len() == observations@.len(),
        ledger_matches(observation_views(observations@), ledger@, rows),
    ensures
        result == all_used(rows),
{
    let ghost views = observation_views(observations@);
    let mut i: usize = 0;
    while i < ledger.len()
        invariant
            i <= ledger@.len(),
            ledger@.len() == observations@.len(),
            views == observation_views(observations@),
            ledger_matches(views, ledger@, rows),
            forall|k: int| 0 <= k < i ==> (#[trigger] ledger@[k]).used,
        decreases ledger@.len() - i,
    {
        if !ledger[i].used {
            proof {
                let key = views[i as int].key().bytes;
                assert(rows.contains_key(key) && !rows[key].used);
            }
            return false;
        }
        i += 1;
    }
    assert forall|key: Seq<u8>| rows.contains_key(key) implies (#[trigger] rows[key]).used by {
        let j = choose|j: int| 0 <= j < ledger@.len() && (#[trigger] views[j]).key().bytes == key;
        assert(ledger@[j].used);
    }
    true
}

/// What a checked batch is.
#[verifier::ext_equal]
pub ghost struct ProjectionApplyBatchView {
    pub expected: ProjectionControlView,
    pub members: Seq<ProjectionApplyRequestView>,
    pub observations: Seq<ObservationView>,
    pub semantic_bytes: usize,
}

/// Complete checked sequence batch and its independently observed base rows.
#[derive(Clone, Debug, PartialEq, Eq)]
pub struct ProjectionApplyBatchV1 {
    pub expected: StoredProjectionControlV1,
    pub members: Vec<ProjectionApplyRequestV1>,
    pub observations: Vec<ProjectionApplyRowObservation>,
    pub semantic_bytes: usize,
}

impl View for ProjectionApplyBatchV1 {
    type V = ProjectionApplyBatchView;

    open spec fn view(&self) -> ProjectionApplyBatchView {
        ProjectionApplyBatchView {
            expected: self.expected@,
            members: member_views(self.members@),
            observations: observation_views(self.observations@),
            semantic_bytes: self.semantic_bytes,
        }
    }
}

impl ProjectionApplyBatchV1 {
    /// Conservative fixed control reservation shared with incremental builders.
    pub fn control_semantic_bytes(identity: &ProjectionIdentity) -> (result: Result<
        usize,
        StorageValueError,
    >)
        ensures
            result == fitting(control_size(identity@)),
    {
        maximum_projection_control_semantic_bytes(identity)
    }

    /// Checks the exact base, contiguous chain, reciprocal row evidence and total bounds.
    pub fn new(
        expected: StoredProjectionControlV1,
        members: Vec<ProjectionApplyRequestV1>,
        observations: Vec<ProjectionApplyRowObservation>,
    ) -> (result: Result<Self, StorageValueError>)
        ensures
            match batch_outcome(
                expected@,
                member_views(members@),
                observation_views(observations@),
            ) {
                Ok(charge) => result is Ok && result->Ok_0@ == (ProjectionApplyBatchView {
                    expected: expected@,
                    members: member_views(members@),
                    observations: observation_views(observations@),
                    semantic_bytes: charge,
                }),
                Err(error) => result == Err::<Self, _>(error),
            },
    {
        let ghost member_seq = member_views(members@);
        let ghost views = observation_views(observations@);
        if members.len() == 0 {
            return Err(StorageValueError::InvalidShape);
        }
        if members.len() > MAX_PROJECTION_BATCH_MEMBERS || observations.len()
            > MAX_PROJECTION_ROW_UPDATES {
            return Err(StorageValueError::LimitExceeded);
        }
        let first = &members[0];
        assert(first@ == member_seq[0]);
        let at_frontier = match expected.frontier_for(first.generation()) {
            Some(frontier) => frontier == first.expected_frontier(),
            None => false,
        };
        if !expected.identity().same(first.identity()) || !expected.permits_application(
            first.generation(),
        ) || !at_frontier {
            return Err(StorageValueError::IdentityMismatch);
        }
        let reserve = match maximum_projection_control_semantic_bytes(first.identity()) {
            Ok(reserve) => reserve,
            Err(error) => {
                return Err(error);
            },
        };
        let ghost start = ObservationProgress {
            charge: reserve,
            previous: None,
            rows: Map::empty(),
        };
        let (mut bytes, mut ledger) = match check_observations(first, reserve, &observations) {
            Ok(checked) => checked,
            Err(error) => {
                return Err(error);
            },
        };
        let ghost observed = observe_all(first@, start, views)->Ok_0;
        let mut frontier = first.expected_frontier();
        let mut updates: usize = 0;
        let ghost base = ReplayProgress {
            frontier: first@.expected_frontier,
            updates: 0,
            charge: observed.charge,
            rows: observed.rows,
        };
        let ghost mut progress = base;
        let mut i: usize = 0;
        assert(member_seq.skip(0) =~= member_seq);
        #[verifier::loop_isolation(false)]
        while i < members.len()
            invariant
                i <= members@.len(),
                ledger@.len() == observations@.len(),
                ledger_matches(views, ledger@, progress.rows),
                progress.frontier == frontier,
                progress.updates == updates,
                progress.charge == bytes,
                replay_all(first@, base, member_seq) == replay_all(
                    first@,
                    progress,
                    member_seq.skip(i as int),
                ),
            decreases members@.len() - i,
        {
            let member = &members[i];
            assert(member_seq.skip(i as int)[0] == member@);
            assert(member_seq.skip(i as int).skip(1) =~= member_seq.skip(i as int + 1));
            if !member.schema().same(first.schema()) || member.generation() != first.generation()
                || member.expected_frontier() != frontier {
                return Err(StorageValueError::IdentityMismatch);
            }
            updates =
            match updates.checked_add(member.row_updates().len()) {
                Some(total) => total,
                None => {
                    return Err(StorageValueError::SizeOverflow);
                },
            };
            if updates > MAX_PROJECTION_ROW_UPDATES {
                return Err(StorageValueError::LimitExceeded);
            }
            let with_payload = match bytes.checked_add(member.semantic_bytes()) {
                Some(total) => total,
                None => {
                    return Err(StorageValueError::SizeOverflow);
                },
            };
            bytes =
            match with_payload.checked_add(member.write_set_semantic_bytes()) {
                Some(total) => total,
                None => {
                    return Err(StorageValueError::SizeOverflow);
                },
            };
            match validate_projection_write_set_semantic_bytes(bytes) {
                Ok(()) => {},
                Err(error) => {
                    return Err(error);
                },
            }
            if !replay_updates(
                &observations,
                &mut ledger,
                member.sequence(),
                member.row_updates(),
                Ghost(progress.rows),
            ) {
                return Err(StorageValueError::InvalidShape);
            }
            proof {
                progress = replay(first@, progress, member@)->Ok_0;
            }
            frontier = FrontierPosition::AppliedThrough(member.sequence());
            i += 1;
        }
        if !every_row_used(&observations, &ledger, Ghost(progress.rows)) {
            return Err(StorageValueError::InvalidShape);
        }
        Ok(ProjectionApplyBatchV1 { expected, members, observations, semantic_bytes: bytes })
    }

    /// Complete expected lifecycle/control, not merely a frontier.
    pub fn expected(&self) -> (result: &StoredProjectionControlV1)
        ensures
            *result == self.expected,
    {
        &self.expected
    }

    /// Contiguous canonical requests, including every irrelevant commit.
    pub fn members(&self) -> (result: &[ProjectionApplyRequestV1])
        ensures
            result@ == self.members@,
    {
        self.members.as_slice()
    }

    /// Exact first-access row evidence from the immutable base.
    pub fn observations(&self) -> (result: &[ProjectionApplyRowObservation])
        ensures
            result@ == self.observations@,
    {
        self.observations.as_slice()
    }

    /// Aggregate charge for requests, evidence, overlay, markers and control.
    pub fn semantic_bytes(&self) -> (result: usize)
        ensures
            result == self@.semantic_bytes,
    {
        self.semantic_bytes
    }
}

/// Outcome of one atomic derived sequence batch.
#[derive(Clone, Debug, PartialEq, Eq)]
pub enum ProjectionApplyBatchResult {
    /// Every new member and the final control became durable together.
    Applied(StoredProjectionControlV1),
    /// Every retained historical marker matched; old base evidence is obsolete.
    AlreadyApplied,
    /// Changed control/base or a checked already-applied prefix requires fresh preparation.
    StateChanged,
}

proof fn replayed_members_are_contiguous(
    first: ProjectionApplyRequestView,
    progress: ReplayProgress,
    members: Seq<ProjectionApplyRequestView>,
    i: int,
)
    requires
        replay_all(first, progress, members) is Ok,
        forall|k: int| 0 <= k < members.len() ==> (#[trigger] members[k]).wf(),
        0 <= i < members.len(),
    ensures
        members[i].sequence.value == progress.frontier.applied() + i + 1,
        members[i].expected_frontier.applied() == progress.frontier.applied() + i,
        members[i].schema == first.schema,
        members[i].generation == first.generation,
    decreases members.len(),
{
    assert(members[0].wf());
    let next = replay(first, progress, members[0])->Ok_0;
    if i > 0 {
        let rest = members.skip(1);
        assert forall|k: int| 0 <= k < rest.len() implies (#[trigger] rest[k]).wf() by {
            assert(members[k + 1].wf());
        }
        replayed_members_are_contiguous(first, next, rest, i - 1);
        assert(rest[i - 1] == members[i]);
    }
}

/// The members of an accepted batch apply one commit after the other, without a
/// gap, to one generation of one schema, starting at the expected frontier.
pub proof fn accepted_batches_are_contiguous(
    expected: ProjectionControlView,
    members: Seq<ProjectionApplyRequestView>,
    observations: Seq<ObservationView>,
    i: int,
)
    requires
        batch_outcome(expected, members, observations) is Ok,
        forall|k: int| 0 <= k < members.len() ==> (#[trigger] members[k]).wf(),
        0 <= i < members.len(),
    ensures
        expected.frontier_of(members[0].generation) == Some(members[0].expected_frontier),
        members[i].generation == members[0].generation,
        members[i].schema == members[0].schema,
        members[i].sequence.value == members[0].expected_frontier.applied() + i + 1,
{
    let first = members[0];
    let reserve = fitting(control_size(first.schema.identity))->Ok_0;
    let start = ObservationProgress { charge: reserve, previous: None, rows: Map::empty() };
    let observed = observe_all(first, start, observations)->Ok_0;
    let base = ReplayProgress {
        frontier: first.expected_frontier,
        updates: 0,
        charge: observed.charge,
        rows: observed.rows,
    };
    replayed_members_are_contiguous(first, base, members, i);
}

} // verus!
