//! Row evidence for one projection apply, read in one transaction.

use vstd::prelude::*;

use super::control::{at_or_before, sequence_at_or_before};
use super::sizes::{
    fitting, framed_bytes, frontier_semantic_bytes, frontier_size, projection_state_semantic_bytes,
    state_size, validate_projection_snapshot_semantic_bytes,
};
use super::state::{ProjectionRowPrior, ProjectionStateView, StoredProjectionStateV1};
use crate::bytes::{bytes_before, order_bytes, BytesOrder};
use crate::ids::{FrontierPosition, ProjectionGeneration};
use crate::keys::{ProjectionGroupKey, ProjectionGroupKeyView};
use crate::limits::{MAX_PROJECTION_APPLY_SNAPSHOT_BYTES, MAX_PROJECTION_ROW_UPDATES};
use crate::projection_schema::{CheckedProjectionSchema, CheckedProjectionSchemaView};
use crate::value_error::StorageValueError;

verus! {

/// What a row observation is.
pub ghost enum ObservationView {
    Absent(ProjectionGroupKeyView),
    Present(ProjectionStateView),
}

impl ObservationView {
    /// The complete group key.
    pub open spec fn key(self) -> ProjectionGroupKeyView {
        match self {
            ObservationView::Absent(key) => key,
            ObservationView::Present(row) => row.key,
        }
    }

    /// The prior evidence that an update of this row has to state.
    pub open spec fn prior(self) -> ProjectionRowPrior {
        match self {
            ObservationView::Absent(_) => ProjectionRowPrior::Absent,
            ObservationView::Present(row) => ProjectionRowPrior::Present(row.last_changed_sequence),
        }
    }

    /// The charge for retaining this observation at a frontier.
    pub open spec fn size_at(self, frontier: FrontierPosition) -> Result<
        usize,
        StorageValueError,
    > {
        match self {
            ObservationView::Absent(key) => fitting(1 + (4 + key.bytes.len())),
            ObservationView::Present(row) => if !at_or_before(row.last_changed_sequence, frontier)
                || row.key.bytes.len() < 2 {
                Err(StorageValueError::InvalidShape)
            } else {
                fitting(1 + state_size(row.key, row.measures))
            },
        }
    }
}

/// One row observation in a projection apply snapshot.
#[derive(Debug, PartialEq, Eq)]
pub enum ProjectionApplyRowObservation {
    /// The complete group key is absent.
    Absent(ProjectionGroupKey),
    /// The complete durable row is present.
    Present(StoredProjectionStateV1),
}

impl View for ProjectionApplyRowObservation {
    type V = ObservationView;

    open spec fn view(&self) -> ObservationView {
        match self {
            ProjectionApplyRowObservation::Absent(key) => ObservationView::Absent(key@),
            ProjectionApplyRowObservation::Present(row) => ObservationView::Present(row@),
        }
    }
}

impl Clone for ProjectionApplyRowObservation {
    fn clone(&self) -> (result: ProjectionApplyRowObservation)
        ensures
            result@ == self@,
    {
        match self {
            ProjectionApplyRowObservation::Absent(key) => ProjectionApplyRowObservation::Absent(
                key.clone(),
            ),
            ProjectionApplyRowObservation::Present(row) => ProjectionApplyRowObservation::Present(
                row.clone(),
            ),
        }
    }
}

impl ProjectionApplyRowObservation {
    /// Returns the complete group key.
    pub fn key(&self) -> (result: &ProjectionGroupKey)
        ensures
            result@ == self@.key(),
    {
        match self {
            ProjectionApplyRowObservation::Absent(key) => key,
            ProjectionApplyRowObservation::Present(row) => row.key(),
        }
    }

    /// Prior identity used by checked request construction.
    pub fn prior(&self) -> (result: ProjectionRowPrior)
        ensures
            result == self@.prior(),
    {
        match self {
            ProjectionApplyRowObservation::Absent(_) => ProjectionRowPrior::Absent,
            ProjectionApplyRowObservation::Present(row) => ProjectionRowPrior::Present(
                row.last_changed_sequence(),
            ),
        }
    }

    /// Checked semantic state charge for retaining this observation at a frontier.
    pub fn semantic_bytes_at(&self, frontier: FrontierPosition) -> (result: Result<
        usize,
        StorageValueError,
    >)
        ensures
            result == self@.size_at(frontier),
    {
        let content = match self {
            ProjectionApplyRowObservation::Absent(key) => framed_bytes(key.as_bytes().len()),
            ProjectionApplyRowObservation::Present(row) => {
                if !sequence_at_or_before(row.last_changed_sequence(), frontier) {
                    return Err(StorageValueError::InvalidShape);
                }
                projection_state_semantic_bytes(row.key(), row.measures())
            },
        };
        match content {
            Ok(bytes) => match 1usize.checked_add(bytes) {
                Some(total) => Ok(total),
                None => Err(StorageValueError::SizeOverflow),
            },
            Err(error) => Err(error),
        }
    }
}

/// The views of row observations.
pub open spec fn observation_views(rows: Seq<ProjectionApplyRowObservation>) -> Seq<
    ObservationView,
> {
    Seq::new(rows.len(), |i: int| rows[i]@)
}

/// The views of group keys.
pub open spec fn key_views(keys: Seq<ProjectionGroupKey>) -> Seq<ProjectionGroupKeyView> {
    Seq::new(keys.len(), |i: int| keys[i]@)
}

/// The charge of a snapshot in which every key of the given lengths is absent
/// and nothing is applied.
pub open spec fn minimum_snapshot_size(lengths: Seq<usize>) -> nat
    decreases lengths.len(),
{
    if lengths.len() == 0 {
        5
    } else {
        minimum_snapshot_size(lengths.drop_last()) + 1 + (4 + lengths.last() as nat)
    }
}

proof fn leading_minimum_is_smaller(lengths: Seq<usize>, count: int)
    requires
        0 <= count <= lengths.len(),
    ensures
        minimum_snapshot_size(lengths.take(count)) <= minimum_snapshot_size(lengths),
    decreases lengths.len() - count,
{
    if count == lengths.len() {
        assert(lengths.take(count) =~= lengths);
    } else {
        leading_minimum_is_smaller(lengths, count + 1);
        assert(lengths.take(count + 1).drop_last() =~= lengths.take(count));
    }
}

/// Returns the charge of an all-absent snapshot before the first commit.
pub fn minimum_projection_snapshot_semantic_bytes(key_lengths: &[usize]) -> (result: Result<
    usize,
    StorageValueError,
>)
    ensures
        result == fitting(minimum_snapshot_size(key_lengths@)),
{
    let mut total: usize = 5;
    let mut i: usize = 0;
    while i < key_lengths.len()
        invariant
            i <= key_lengths@.len(),
            total == minimum_snapshot_size(key_lengths@.take(i as int)),
        decreases key_lengths@.len() - i,
    {
        proof {
            leading_minimum_is_smaller(key_lengths@, i as int + 1);
            assert(key_lengths@.take(i as int + 1).drop_last() =~= key_lengths@.take(i as int));
        }
        let framed = match framed_bytes(key_lengths[i]) {
            Ok(framed) => framed,
            Err(_) => {
                return Err(StorageValueError::SizeOverflow);
            },
        };
        let next = match total.checked_add(1) {
            Some(next) => next.checked_add(framed),
            None => None,
        };
        match next {
            Some(next) => {
                total = next;
            },
            None => {
                return Err(StorageValueError::SizeOverflow);
            },
        }
        i += 1;
    }
    assert(key_lengths@.take(i as int) =~= key_lengths@);
    Ok(total)
}

/// Why a requested key cannot follow the one before it, if it cannot.
pub open spec fn key_refusal(
    schema: CheckedProjectionSchemaView,
    generation: ProjectionGeneration,
    previous: Option<ProjectionGroupKeyView>,
    key: ProjectionGroupKeyView,
) -> Option<StorageValueError> {
    if !schema.admits_complete(key.components) {
        Some(StorageValueError::InvalidShape)
    } else if key.identity != schema.identity || key.generation != generation {
        Some(StorageValueError::IdentityMismatch)
    } else if previous matches Some(held) && held.bytes == key.bytes {
        Some(StorageValueError::Duplicate)
    } else if previous matches Some(held) && !bytes_before(held.bytes, key.bytes) {
        Some(StorageValueError::NonCanonicalOrder)
    } else {
        None
    }
}

/// Why the first refused key of a request is refused, if there is one.
pub open spec fn keys_refusal(
    schema: CheckedProjectionSchemaView,
    generation: ProjectionGeneration,
    keys: Seq<ProjectionGroupKeyView>,
) -> Option<StorageValueError>
    decreases keys.len(),
{
    if keys.len() == 0 {
        None
    } else {
        let leading = keys.drop_last();
        match keys_refusal(schema, generation, leading) {
            Some(error) => Some(error),
            None => key_refusal(
                schema,
                generation,
                if leading.len() == 0 {
                    None
                } else {
                    Some(leading.last())
                },
                keys.last(),
            ),
        }
    }
}

proof fn leading_key_refusal_stands(
    schema: CheckedProjectionSchemaView,
    generation: ProjectionGeneration,
    keys: Seq<ProjectionGroupKeyView>,
    count: int,
)
    requires
        0 <= count <= keys.len(),
        keys_refusal(schema, generation, keys.take(count)) is Some,
    ensures
        keys_refusal(schema, generation, keys) == keys_refusal(
            schema,
            generation,
            keys.take(count),
        ),
    decreases keys.len() - count,
{
    if count == keys.len() {
        assert(keys.take(count) =~= keys);
    } else {
        assert(keys.take(count + 1).drop_last() =~= keys.take(count));
        leading_key_refusal_stands(schema, generation, keys, count + 1);
    }
}

fn check_key(
    schema: &CheckedProjectionSchema,
    generation: ProjectionGeneration,
    previous: Option<&ProjectionGroupKey>,
    key: &ProjectionGroupKey,
) -> (result: Option<StorageValueError>)
    ensures
        result == key_refusal(
            schema@,
            generation,
            match previous {
                Some(held) => Some(held@),
                None => None,
            },
            key@,
        ),
{
    match schema.validate_group_key(key) {
        Ok(()) => {},
        Err(error) => {
            return Some(error);
        },
    }
    if !key.identity().same(schema.identity()) || key.generation() != generation {
        return Some(StorageValueError::IdentityMismatch);
    }
    if let Some(held) = previous {
        proof {
            crate::bytes::bytes_before_total(held@.bytes, key@.bytes);
            crate::bytes::bytes_before_irreflexive(key@.bytes);
        }
        match order_bytes(held.as_bytes(), key.as_bytes()) {
            BytesOrder::Before => {},
            BytesOrder::Same => {
                return Some(StorageValueError::Duplicate);
            },
            BytesOrder::After => {
                return Some(StorageValueError::NonCanonicalOrder);
            },
        }
    }
    None
}

fn check_keys(
    schema: &CheckedProjectionSchema,
    generation: ProjectionGeneration,
    keys: &[ProjectionGroupKey],
) -> (result: Option<StorageValueError>)
    ensures
        result == keys_refusal(schema@, generation, key_views(keys@)),
{
    let ghost views = key_views(keys@);
    let mut i: usize = 0;
    while i < keys.len()
        invariant
            i <= keys@.len(),
            views == key_views(keys@),
            keys_refusal(schema@, generation, views.take(i as int)) is None,
        decreases keys@.len() - i,
    {
        let previous = if i == 0 {
            None
        } else {
            Some(&keys[i - 1])
        };
        let refusal = check_key(schema, generation, previous, &keys[i]);
        proof {
            let next = views.take(i as int + 1);
            assert(next.drop_last() =~= views.take(i as int));
            assert(next.last() == keys@[i as int]@);
            assert(keys_refusal(schema@, generation, next) == refusal);
        }
        if refusal.is_some() {
            proof {
                leading_key_refusal_stands(schema@, generation, views, i as int + 1);
            }
            return refusal;
        }
        i += 1;
    }
    assert(views.take(i as int) =~= views);
    None
}

/// The lengths of keys.
pub open spec fn key_lengths_of(keys: Seq<ProjectionGroupKeyView>) -> Seq<usize> {
    Seq::new(keys.len(), |i: int| keys[i].bytes.len() as usize)
}

/// Why a snapshot request is refused, if it is.
pub open spec fn snapshot_request_refusal(
    schema: CheckedProjectionSchemaView,
    generation: ProjectionGeneration,
    keys: Seq<ProjectionGroupKeyView>,
) -> Option<StorageValueError> {
    let minimum = fitting(minimum_snapshot_size(key_lengths_of(keys)));
    if keys.len() > MAX_PROJECTION_ROW_UPDATES {
        Some(StorageValueError::LimitExceeded)
    } else if minimum is Err {
        Some(minimum->Err_0)
    } else if minimum->Ok_0 > MAX_PROJECTION_APPLY_SNAPSHOT_BYTES {
        Some(StorageValueError::LimitExceeded)
    } else {
        keys_refusal(schema, generation, keys)
    }
}

/// What a snapshot request is.
#[verifier::ext_equal]
pub ghost struct SnapshotRequestView {
    pub schema: CheckedProjectionSchemaView,
    pub generation: ProjectionGeneration,
    pub group_keys: Seq<ProjectionGroupKeyView>,
    pub minimum_response_semantic_bytes: usize,
}

/// One bounded request for candidate or published row evidence.
#[derive(Clone, Debug, PartialEq, Eq)]
pub struct ProjectionApplySnapshotRequest {
    pub schema: CheckedProjectionSchema,
    pub generation: ProjectionGeneration,
    pub group_keys: Vec<ProjectionGroupKey>,
    pub minimum_response_semantic_bytes: usize,
}

impl View for ProjectionApplySnapshotRequest {
    type V = SnapshotRequestView;

    open spec fn view(&self) -> SnapshotRequestView {
        SnapshotRequestView {
            schema: self.schema@,
            generation: self.generation,
            group_keys: key_views(self.group_keys@),
            minimum_response_semantic_bytes: self.minimum_response_semantic_bytes,
        }
    }
}

impl ProjectionApplySnapshotRequest {
    /// Validates identity, generation, canonical order, and hard count bounds.
    pub fn new(
        schema: CheckedProjectionSchema,
        generation: ProjectionGeneration,
        group_keys: Vec<ProjectionGroupKey>,
    ) -> (result: Result<Self, StorageValueError>)
        ensures
            match snapshot_request_refusal(schema@, generation, key_views(group_keys@)) {
                Some(error) => result == Err::<Self, _>(error),
                None => result is Ok && result->Ok_0@ == (SnapshotRequestView {
                    schema: schema@,
                    generation,
                    group_keys: key_views(group_keys@),
                    minimum_response_semantic_bytes: minimum_snapshot_size(
                        key_lengths_of(key_views(group_keys@)),
                    ) as usize,
                }),
            },
    {
        if group_keys.len() > MAX_PROJECTION_ROW_UPDATES {
            return Err(StorageValueError::LimitExceeded);
        }
        let mut lengths: Vec<usize> = Vec::new();
        let mut i: usize = 0;
        while i < group_keys.len()
            invariant
                i <= group_keys@.len(),
                lengths@ == key_lengths_of(key_views(group_keys@)).take(i as int),
            decreases group_keys@.len() - i,
        {
            lengths.push(group_keys[i].as_bytes().len());
            i += 1;
            assert(lengths@ =~= key_lengths_of(key_views(group_keys@)).take(i as int));
        }
        assert(lengths@ =~= key_lengths_of(key_views(group_keys@)));
        let minimum_response_semantic_bytes = match minimum_projection_snapshot_semantic_bytes(
            &lengths,
        ) {
            Ok(bytes) => bytes,
            Err(error) => {
                return Err(error);
            },
        };
        match validate_projection_snapshot_semantic_bytes(minimum_response_semantic_bytes) {
            Ok(()) => {},
            Err(error) => {
                return Err(error);
            },
        }
        if let Some(error) = check_keys(&schema, generation, &group_keys) {
            return Err(error);
        }
        Ok(
            ProjectionApplySnapshotRequest {
                schema,
                generation,
                group_keys,
                minimum_response_semantic_bytes,
            },
        )
    }

    /// Returns the exact checked schema.
    pub fn schema(&self) -> (result: &CheckedProjectionSchema)
        ensures
            *result == self.schema,
    {
        &self.schema
    }

    /// Returns the requested generation.
    pub fn generation(&self) -> (result: ProjectionGeneration)
        ensures
            result == self@.generation,
    {
        self.generation
    }

    /// Returns canonical complete keys.
    pub fn group_keys(&self) -> (result: &[ProjectionGroupKey])
        ensures
            result@ == self.group_keys@,
    {
        self.group_keys.as_slice()
    }

    /// Returns the checked all-absent, before-first minimum response size.
    pub fn minimum_response_semantic_bytes(&self) -> (result: usize)
        ensures
            result == self@.minimum_response_semantic_bytes,
    {
        self.minimum_response_semantic_bytes
    }
}

/// The charge of a snapshot apart from its rows.
pub open spec fn snapshot_fixed_size(frontier: FrontierPosition) -> nat {
    frontier_size(frontier) + 4
}

fn projection_snapshot_fixed_semantic_bytes(frontier: FrontierPosition) -> (result: usize)
    ensures
        result == snapshot_fixed_size(frontier),
{
    frontier_semantic_bytes(frontier) + 4
}

/// The charge of a snapshot whose rows answer the first requested keys, or why
/// the first row that does not is refused.
pub open spec fn snapshot_charge(
    keys: Seq<ProjectionGroupKeyView>,
    frontier: FrontierPosition,
    rows: Seq<ObservationView>,
) -> Result<usize, StorageValueError>
    recommends
        rows.len() <= keys.len(),
    decreases rows.len(),
{
    if rows.len() == 0 {
        fitting(snapshot_fixed_size(frontier))
    } else {
        let last = rows.last();
        match snapshot_charge(keys, frontier, rows.drop_last()) {
            Err(error) => Err(error),
            Ok(charge) => if keys[rows.len() - 1] != last.key() {
                Err(StorageValueError::IdentityMismatch)
            } else {
                match last.size_at(frontier) {
                    Err(error) => Err(error),
                    Ok(bytes) => fitting((charge + bytes) as nat),
                }
            },
        }
    }
}

proof fn leading_charge_failure_stands(
    keys: Seq<ProjectionGroupKeyView>,
    frontier: FrontierPosition,
    rows: Seq<ObservationView>,
    count: int,
)
    requires
        0 <= count <= rows.len(),
        snapshot_charge(keys, frontier, rows.take(count)) is Err,
    ensures
        snapshot_charge(keys, frontier, rows) == snapshot_charge(keys, frontier, rows.take(count)),
    decreases rows.len() - count,
{
    if count == rows.len() {
        assert(rows.take(count) =~= rows);
    } else {
        assert(rows.take(count + 1).drop_last() =~= rows.take(count));
        leading_charge_failure_stands(keys, frontier, rows, count + 1);
    }
}

/// Why rows do not answer a request, if they do not.
pub open spec fn snapshot_refusal(
    keys: Seq<ProjectionGroupKeyView>,
    frontier: FrontierPosition,
    rows: Seq<ObservationView>,
) -> Option<StorageValueError> {
    if rows.len() != keys.len() {
        Some(StorageValueError::InvalidShape)
    } else {
        match snapshot_charge(keys, frontier, rows) {
            Err(error) => Some(error),
            Ok(charge) => if charge > MAX_PROJECTION_APPLY_SNAPSHOT_BYTES {
                Some(StorageValueError::LimitExceeded)
            } else {
                None
            },
        }
    }
}

/// What a snapshot is.
#[verifier::ext_equal]
pub ghost struct SnapshotView {
    pub expected_frontier: FrontierPosition,
    pub rows: Seq<ObservationView>,
}

/// Complete owned row evidence from one storage read transaction.
#[derive(Clone, Debug, PartialEq, Eq)]
pub struct ProjectionApplySnapshot {
    pub expected_frontier: FrontierPosition,
    pub rows: Vec<ProjectionApplyRowObservation>,
}

impl View for ProjectionApplySnapshot {
    type V = SnapshotView;

    open spec fn view(&self) -> SnapshotView {
        SnapshotView {
            expected_frontier: self.expected_frontier,
            rows: observation_views(self.rows@),
        }
    }
}

impl ProjectionApplySnapshot {
    /// Constructs a bounded, request-ordered snapshot.
    pub fn new(
        request: &ProjectionApplySnapshotRequest,
        expected_frontier: FrontierPosition,
        rows: Vec<ProjectionApplyRowObservation>,
    ) -> (result: Result<Self, StorageValueError>)
        ensures
            match snapshot_refusal(
                request@.group_keys,
                expected_frontier,
                observation_views(rows@),
            ) {
                Some(error) => result == Err::<Self, _>(error),
                None => result is Ok && result->Ok_0@ == (SnapshotView {
                    expected_frontier,
                    rows: observation_views(rows@),
                }),
            },
    {
        if rows.len() != request.group_keys.len() {
            return Err(StorageValueError::InvalidShape);
        }
        let ghost keys = request@.group_keys;
        let ghost views = observation_views(rows@);
        let mut bytes = projection_snapshot_fixed_semantic_bytes(expected_frontier);
        let mut i: usize = 0;
        while i < rows.len()
            invariant
                i <= rows@.len(),
                rows@.len() == request.group_keys@.len(),
                keys == request@.group_keys,
                views == observation_views(rows@),
                snapshot_charge(keys, expected_frontier, views.take(i as int)) == Ok::<
                    usize,
                    StorageValueError,
                >(bytes),
            decreases rows@.len() - i,
        {
            proof {
                let next = views.take(i as int + 1);
                assert(next.drop_last() =~= views.take(i as int));
                assert(next.last() == rows@[i as int]@);
                assert(keys[i as int] == request.group_keys@[i as int]@);
                if snapshot_charge(keys, expected_frontier, next) is Err {
                    leading_charge_failure_stands(keys, expected_frontier, views, i as int + 1);
                }
            }
            if !request.group_keys[i].same(rows[i].key()) {
                return Err(StorageValueError::IdentityMismatch);
            }
            let observation_bytes = match rows[i].semantic_bytes_at(expected_frontier) {
                Ok(observation_bytes) => observation_bytes,
                Err(error) => {
                    return Err(error);
                },
            };
            match bytes.checked_add(observation_bytes) {
                Some(total) => {
                    bytes = total;
                },
                None => {
                    return Err(StorageValueError::SizeOverflow);
                },
            }
            i += 1;
        }
        assert(views.take(i as int) =~= views);
        match validate_projection_snapshot_semantic_bytes(bytes) {
            Ok(()) => Ok(ProjectionApplySnapshot { expected_frontier, rows }),
            Err(error) => Err(error),
        }
    }

    /// Returns the generation frontier observed with every row.
    pub fn expected_frontier(&self) -> (result: FrontierPosition)
        ensures
            result == self@.expected_frontier,
    {
        self.expected_frontier
    }

    /// Returns observations in request key order.
    pub fn rows(&self) -> (result: &[ProjectionApplyRowObservation])
        ensures
            result@ == self.rows@,
    {
        self.rows.as_slice()
    }
}

/// Incremental construction of one projection apply snapshot.
///
/// Each row is charged before it is retained, so a request with many keys
/// cannot first gather an over-limit set of large measures.
pub struct ProjectionApplySnapshotBuilder<'request> {
    pub request: &'request ProjectionApplySnapshotRequest,
    pub expected_frontier: FrontierPosition,
    pub rows: Vec<ProjectionApplyRowObservation>,
    pub semantic_bytes: usize,
}

/// What a snapshot builder is.
#[verifier::ext_equal]
pub ghost struct SnapshotBuilderView {
    pub keys: Seq<ProjectionGroupKeyView>,
    pub expected_frontier: FrontierPosition,
    pub rows: Seq<ObservationView>,
    pub semantic_bytes: usize,
}

impl SnapshotBuilderView {
    /// The retained rows answer the first keys within the bound, and are charged.
    pub open spec fn wf(self) -> bool {
        &&& self.rows.len() <= self.keys.len()
        &&& snapshot_charge(self.keys, self.expected_frontier, self.rows) == Ok::<
            usize,
            StorageValueError,
        >(self.semantic_bytes)
        &&& self.semantic_bytes <= MAX_PROJECTION_APPLY_SNAPSHOT_BYTES
    }

    /// The builder after a row, or why the row is refused.
    pub open spec fn pushed(self, row: ObservationView) -> Result<
        SnapshotBuilderView,
        StorageValueError,
    > {
        if self.rows.len() >= self.keys.len() {
            Err(StorageValueError::InvalidShape)
        } else {
            match snapshot_charge(self.keys, self.expected_frontier, self.rows.push(row)) {
                Err(error) => Err(error),
                Ok(charge) => if charge > MAX_PROJECTION_APPLY_SNAPSHOT_BYTES {
                    Err(StorageValueError::LimitExceeded)
                } else {
                    Ok(
                        SnapshotBuilderView {
                            rows: self.rows.push(row),
                            semantic_bytes: charge,
                            ..self
                        },
                    )
                },
            }
        }
    }
}

impl<'request> View for ProjectionApplySnapshotBuilder<'request> {
    type V = SnapshotBuilderView;

    open spec fn view(&self) -> SnapshotBuilderView {
        SnapshotBuilderView {
            keys: self.request@.group_keys,
            expected_frontier: self.expected_frontier,
            rows: observation_views(self.rows@),
            semantic_bytes: self.semantic_bytes,
        }
    }
}

impl<'request> ProjectionApplySnapshotBuilder<'request> {
    /// Starts bounded materialization at one transaction-current frontier.
    pub fn new(
        request: &'request ProjectionApplySnapshotRequest,
        expected_frontier: FrontierPosition,
    ) -> (result: Result<Self, StorageValueError>)
        ensures
            result is Ok,
            result->Ok_0@ == (SnapshotBuilderView {
                keys: request@.group_keys,
                expected_frontier,
                rows: Seq::empty(),
                semantic_bytes: snapshot_fixed_size(expected_frontier) as usize,
            }),
            result->Ok_0@.wf(),
    {
        let semantic_bytes = projection_snapshot_fixed_semantic_bytes(expected_frontier);
        match validate_projection_snapshot_semantic_bytes(semantic_bytes) {
            Ok(()) => {
                let result = ProjectionApplySnapshotBuilder {
                    request,
                    expected_frontier,
                    rows: Vec::new(),
                    semantic_bytes,
                };
                assert(result@.rows =~= Seq::empty());
                Ok(result)
            },
            Err(error) => Err(error),
        }
    }

    /// Retains the next request-ordered row only after its bound passes.
    pub fn push_row(&mut self, observation: ProjectionApplyRowObservation) -> (result: Result<
        (),
        StorageValueError,
    >)
        requires
            old(self)@.wf(),
        ensures
            match old(self)@.pushed(observation@) {
                Ok(next) => result is Ok && final(self)@ == next,
                Err(error) => result == Err::<(), _>(error) && final(self)@ == old(self)@,
            },
            final(self)@.wf(),
    {
        let ghost before = self@;
        let ghost view = observation@;
        proof {
            assert(before.rows.push(view).drop_last() =~= before.rows);
        }
        let position = self.rows.len();
        if position >= self.request.group_keys().len() {
            return Err(StorageValueError::InvalidShape);
        }
        assert(before.keys[position as int] == self.request.group_keys@[position as int]@);
        if !self.request.group_keys()[position].same(observation.key()) {
            return Err(StorageValueError::IdentityMismatch);
        }
        let observation_bytes = match observation.semantic_bytes_at(self.expected_frontier) {
            Ok(bytes) => bytes,
            Err(error) => {
                return Err(error);
            },
        };
        let next = match self.semantic_bytes.checked_add(observation_bytes) {
            Some(next) => next,
            None => {
                return Err(StorageValueError::SizeOverflow);
            },
        };
        match validate_projection_snapshot_semantic_bytes(next) {
            Ok(()) => {},
            Err(error) => {
                return Err(error);
            },
        }
        self.semantic_bytes = next;
        self.rows.push(observation);
        assert(self@.rows =~= before.rows.push(view));
        Ok(())
    }

    /// Finishes only after every requested key has one observation.
    pub fn finish(self) -> (result: Result<ProjectionApplySnapshot, StorageValueError>)
        ensures
            self@.rows.len() != self@.keys.len() ==> result == Err::<ProjectionApplySnapshot, _>(
                StorageValueError::InvalidShape,
            ),
            self@.rows.len() == self@.keys.len() ==> result is Ok && result->Ok_0@ == (
            SnapshotView { expected_frontier: self@.expected_frontier, rows: self@.rows }),
    {
        if self.rows.len() != self.request.group_keys().len() {
            return Err(StorageValueError::InvalidShape);
        }
        Ok(
            ProjectionApplySnapshot { expected_frontier: self.expected_frontier, rows: self.rows },
        )
    }
}

/// The builder after all rows have been pushed in turn, if all were retained.
pub open spec fn built(
    keys: Seq<ProjectionGroupKeyView>,
    frontier: FrontierPosition,
    rows: Seq<ObservationView>,
) -> Option<SnapshotBuilderView>
    decreases rows.len(),
{
    if rows.len() == 0 {
        Some(
            SnapshotBuilderView {
                keys,
                expected_frontier: frontier,
                rows: Seq::empty(),
                semantic_bytes: snapshot_fixed_size(frontier) as usize,
            },
        )
    } else {
        match built(keys, frontier, rows.drop_last()) {
            None => None,
            Some(builder) => match builder.pushed(rows.last()) {
                Ok(next) => Some(next),
                Err(_) => None,
            },
        }
    }
}

proof fn built_rows_are_charged(
    keys: Seq<ProjectionGroupKeyView>,
    frontier: FrontierPosition,
    rows: Seq<ObservationView>,
)
    requires
        rows.len() <= keys.len(),
    ensures
        ({
            let charge = snapshot_charge(keys, frontier, rows);
            match built(keys, frontier, rows) {
                Some(builder) => builder.wf() && builder.rows == rows && builder.keys == keys
                    && builder.expected_frontier == frontier,
                None => charge is Err || charge->Ok_0 > MAX_PROJECTION_APPLY_SNAPSHOT_BYTES,
            }
        }),
    decreases rows.len(),
{
    if rows.len() > 0 {
        built_rows_are_charged(keys, frontier, rows.drop_last());
        assert(rows.drop_last().push(rows.last()) =~= rows);
    } else {
        assert(rows =~= Seq::empty());
    }
}

/// Building a snapshot row by row succeeds exactly where the direct constructor
/// does, with the same snapshot.
pub proof fn builder_agrees_with_direct_construction(
    keys: Seq<ProjectionGroupKeyView>,
    frontier: FrontierPosition,
    rows: Seq<ObservationView>,
)
    requires
        rows.len() == keys.len(),
    ensures
        snapshot_refusal(keys, frontier, rows) is None <==> built(keys, frontier, rows) is Some,
        built(keys, frontier, rows) matches Some(builder) ==> builder.rows == rows
            && builder.expected_frontier == frontier,
{
    built_rows_are_charged(keys, frontier, rows);
}

/// The charge of a snapshot is never under the minimum that its request was
/// admitted with.
pub proof fn snapshots_charge_at_least_the_minimum(
    keys: Seq<ProjectionGroupKeyView>,
    frontier: FrontierPosition,
    rows: Seq<ObservationView>,
)
    requires
        rows.len() <= keys.len(),
        snapshot_charge(keys, frontier, rows) is Ok,
        forall|i: int| 0 <= i < keys.len() ==> (#[trigger] keys[i]).wf(),
    ensures
        snapshot_charge(keys, frontier, rows)->Ok_0 >= minimum_snapshot_size(
            key_lengths_of(keys.take(rows.len() as int)),
        ),
    decreases rows.len(),
{
    let taken = keys.take(rows.len() as int);
    if rows.len() > 0 {
        snapshots_charge_at_least_the_minimum(keys, frontier, rows.drop_last());
        let lengths = key_lengths_of(taken);
        assert(lengths.drop_last() =~= key_lengths_of(keys.take(rows.len() - 1)));
        let key = keys[rows.len() - 1];
        assert(key.wf());
        assert(rows.last().key() == key);
        assert(lengths.last() == key.bytes.len() as usize);
    }
}

} // verus!
