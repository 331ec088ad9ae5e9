//! Requests to apply one authoritative commit to a projection generation.

use vstd::prelude::*;

use super::control::{
    at_or_before, exact_successor, is_exact_successor, sequence_at_or_before,
    StoredProjectionControlV1,
};
use super::sizes::{
    checked_projection_sum, control_size, fitting, framed_bytes,
    maximum_projection_control_semantic_bytes, projection_state_semantic_bytes, state_size, sum_of,
    validate_projection_write_set_semantic_bytes,
};
use super::state::{
    row_views, schema_refusal, ProjectionRowPrior, ProjectionRowUpdateV1, ProjectionRowUpdateView,
    StoredProjectionApplyV1,
};
use crate::bytes::{
    append_be32, append_be64, append_bytes, be32, be64, bytes_before, order_bytes, BytesOrder,
};
use crate::ids::{CommitSequence, Digest, FrontierPosition, ProjectionGeneration};
use crate::keys::{apply_key_bytes, ProjectionApplyKey, ProjectionIdentity, ProjectionIdentityView};
use crate::limits::{
    MAX_PROJECTION_APPLY_SEMANTIC_BYTES, MAX_PROJECTION_ROW_UPDATES, MAX_PROJECTION_WRITE_SET_BYTES,
};
use crate::projection_schema::{CheckedProjectionSchema, CheckedProjectionSchemaView};
use crate::value_error::StorageValueError;

verus! {

/// Version of the apply payload layout.
pub const APPLY_CODEC_VERSION_V1: u32 = 1;

/// The label that every apply payload begins with.
pub open spec fn apply_payload_prefix() -> Seq<u8> {
    seq![
        0x52u8, 0x49, 0x46, 0x46, 0x44, 0x42, 0x2d, 0x50, 0x52, 0x4f, 0x4a, 0x45, 0x43, 0x54,
        0x49, 0x4f, 0x4e, 0x2d, 0x41, 0x50, 0x50, 0x4c, 0x59, 0x00,
    ]
}

/// A frontier as payload bytes: zero, or one and the position.
pub open spec fn frontier_bytes(frontier: FrontierPosition) -> Seq<u8> {
    match frontier {
        FrontierPosition::BeforeFirst => seq![0u8],
        FrontierPosition::AppliedThrough(sequence) => seq![1u8] + be64(sequence.value),
    }
}

/// Prior evidence as payload bytes: zero, or one and the sequence.
pub open spec fn prior_bytes(prior: ProjectionRowPrior) -> Seq<u8> {
    match prior {
        ProjectionRowPrior::Absent => seq![0u8],
        ProjectionRowPrior::Present(sequence) => seq![1u8] + be64(sequence.value),
    }
}

/// One row update as payload bytes: framed key, prior evidence, framed measures.
pub open spec fn row_bytes(row: ProjectionRowUpdateView) -> Seq<u8> {
    be32(row.key.bytes.len() as u32) + row.key.bytes + prior_bytes(row.prior) + be32(
        row.measures.encoded.len() as u32,
    ) + row.measures.encoded
}

/// Row updates one after the other.
pub open spec fn rows_bytes(rows: Seq<ProjectionRowUpdateView>) -> Seq<u8>
    decreases rows.len(),
{
    if rows.len() == 0 {
        Seq::empty()
    } else {
        rows_bytes(rows.drop_last()) + row_bytes(rows.last())
    }
}

/// What stands before the rows of a payload.
pub open spec fn apply_payload_head(
    identity: ProjectionIdentityView,
    generation: ProjectionGeneration,
    sequence: CommitSequence,
    expected_frontier: FrontierPosition,
    count: nat,
) -> Seq<u8> {
    apply_payload_prefix() + be32(APPLY_CODEC_VERSION_V1) + be32(
        identity.canonical().len() as u32,
    ) + identity.canonical() + be64(generation.value) + be64(sequence.value) + frontier_bytes(
        expected_frontier,
    ) + be32(count as u32)
}

/// The canonical payload of an apply request, over which its hash is taken.
pub open spec fn apply_payload(
    identity: ProjectionIdentityView,
    generation: ProjectionGeneration,
    sequence: CommitSequence,
    expected_frontier: FrontierPosition,
    rows: Seq<ProjectionRowUpdateView>,
) -> Seq<u8> {
    apply_payload_head(identity, generation, sequence, expected_frontier, rows.len())
        + rows_bytes(rows)
}

proof fn leading_rows_are_shorter(rows: Seq<ProjectionRowUpdateView>, count: int)
    requires
        0 <= count <= rows.len(),
    ensures
        rows_bytes(rows.take(count)).len() <= rows_bytes(rows).len(),
    decreases rows.len() - count,
{
    if count == rows.len() {
        assert(rows.take(count) =~= rows);
    } else {
        leading_rows_are_shorter(rows, count + 1);
        assert(rows.take(count + 1).drop_last() =~= rows.take(count));
    }
}

proof fn rows_have_a_minimum_length(rows: Seq<ProjectionRowUpdateView>)
    ensures
        rows_bytes(rows).len() >= 9 * rows.len(),
    decreases rows.len(),
{
    if rows.len() > 0 {
        rows_have_a_minimum_length(rows.drop_last());
    }
}

fn push_len(bytes: &mut Vec<u8>, length: usize) -> (result: Result<(), StorageValueError>)
    ensures
        length <= u32::MAX ==> result is Ok && final(bytes)@ == old(bytes)@ + be32(length as u32),
        length > u32::MAX ==> result == Err::<(), _>(StorageValueError::LimitExceeded),
{
    match u32::try_from(length) {
        Ok(length) => {
            append_be32(bytes, length);
            Ok(())
        },
        Err(_) => Err(StorageValueError::LimitExceeded),
    }
}

fn push_prefix(bytes: &mut Vec<u8>)
    ensures
        final(bytes)@ == old(bytes)@ + apply_payload_prefix(),
{
    let label: [u8; 24] = [
        0x52u8, 0x49, 0x46, 0x46, 0x44, 0x42, 0x2d, 0x50, 0x52, 0x4f, 0x4a, 0x45, 0x43, 0x54,
        0x49, 0x4f, 0x4e, 0x2d, 0x41, 0x50, 0x50, 0x4c, 0x59, 0x00,
    ];
    append_bytes(bytes, label.as_slice());
    assert(label@ =~= apply_payload_prefix());
}

fn push_frontier(bytes: &mut Vec<u8>, frontier: FrontierPosition)
    ensures
        final(bytes)@ == old(bytes)@ + frontier_bytes(frontier),
{
    match frontier {
        FrontierPosition::BeforeFirst => {
            bytes.push(0);
        },
        FrontierPosition::AppliedThrough(value) => {
            bytes.push(1);
            append_be64(bytes, value.value);
        },
    }
    assert(bytes@ =~= old(bytes)@ + frontier_bytes(frontier));
}

fn push_prior(bytes: &mut Vec<u8>, prior: ProjectionRowPrior)
    ensures
        final(bytes)@ == old(bytes)@ + prior_bytes(prior),
{
    match prior {
        ProjectionRowPrior::Absent => {
            bytes.push(0);
        },
        ProjectionRowPrior::Present(value) => {
            bytes.push(1);
            append_be64(bytes, value.value);
        },
    }
    assert(bytes@ =~= old(bytes)@ + prior_bytes(prior));
}

fn push_row(bytes: &mut Vec<u8>, update: &ProjectionRowUpdateV1) -> (result: Result<
    (),
    StorageValueError,
>)
    ensures
        result matches Ok(_) ==> final(bytes)@ == old(bytes)@ + row_bytes(update@),
        result matches Err(error) ==> error == StorageValueError::LimitExceeded && row_bytes(
            update@,
        ).len() > u32::MAX,
        row_bytes(update@).len() <= u32::MAX ==> result is Ok,
{
    let ghost start = bytes@;
    match push_len(bytes, update.key.as_bytes().len()) {
        Ok(()) => {},
        Err(error) => {
            return Err(error);
        },
    }
    append_bytes(bytes, update.key.as_bytes());
    push_prior(bytes, update.prior);
    match push_len(bytes, update.measures.encoded.len()) {
        Ok(()) => {},
        Err(error) => {
            return Err(error);
        },
    }
    append_bytes(bytes, &update.measures.encoded);
    assert(bytes@ =~= start + row_bytes(update@));
    Ok(())
}

/// Encodes the canonical payload of an apply request.
///
/// With row updates the payload is bounded while it grows; without any, only a
/// too long identity is refused here.
#[verifier::spinoff_prover]
#[verifier::rlimit(40)]
pub fn encode_apply_payload(
    identity: &ProjectionIdentity,
    generation: ProjectionGeneration,
    sequence: CommitSequence,
    expected_frontier: FrontierPosition,
    updates: &[ProjectionRowUpdateV1],
) -> (result: Result<Vec<u8>, StorageValueError>)
    ensures
        ({
            let payload = apply_payload(
                identity@,
                generation,
                sequence,
                expected_frontier,
                row_views(updates@),
            );
            if identity@.canonical().len() > u32::MAX || (updates@.len() > 0 && payload.len()
                > MAX_PROJECTION_APPLY_SEMANTIC_BYTES) {
                result == Err::<Vec<u8>, _>(StorageValueError::LimitExceeded)
            } else {
                result is Ok && result->Ok_0@ == payload
            }
        }),
{
    let ghost rows = row_views(updates@);
    proof {
        rows_have_a_minimum_length(rows);
    }
    let identity_bytes = identity.to_canonical_bytes();
    let mut bytes: Vec<u8> = Vec::new();
    push_prefix(&mut bytes);
    append_be32(&mut bytes, APPLY_CODEC_VERSION_V1);
    match push_len(&mut bytes, identity_bytes.len()) {
        Ok(()) => {},
        Err(error) => {
            return Err(error);
        },
    }
    append_bytes(&mut bytes, &identity_bytes);
    append_be64(&mut bytes, generation.value);
    append_be64(&mut bytes, sequence.value);
    push_frontier(&mut bytes, expected_frontier);
    match push_len(&mut bytes, updates.len()) {
        Ok(()) => {},
        Err(error) => {
            return Err(error);
        },
    }
    let ghost head = apply_payload_head(
        identity@,
        generation,
        sequence,
        expected_frontier,
        rows.len(),
    );
    assert(bytes@ =~= head);
    let mut i: usize = 0;
    assert(rows_bytes(rows.take(0)) =~= Seq::empty());
    while i < updates.len()
        invariant
            i <= updates@.len(),
            rows == row_views(updates@),
            head == apply_payload_head(
                identity@,
                generation,
                sequence,
                expected_frontier,
                rows.len(),
            ),
            identity@.canonical().len() <= u32::MAX,
            bytes@ =~= head + rows_bytes(rows.take(i as int)),
            i > 0 ==> bytes@.len() <= MAX_PROJECTION_APPLY_SEMANTIC_BYTES,
        decreases updates@.len() - i,
    {
        proof {
            leading_rows_are_shorter(rows, i as int + 1);
            assert(rows.take(i as int + 1).drop_last() =~= rows.take(i as int));
            assert(rows.take(i as int + 1).last() == updates@[i as int]@);
        }
        match push_row(&mut bytes, &updates[i]) {
            Ok(()) => {},
            Err(error) => {
                return Err(error);
            },
        }
        if bytes.len() > MAX_PROJECTION_APPLY_SEMANTIC_BYTES {
            return Err(StorageValueError::LimitExceeded);
        }
        i += 1;
    }
    assert(rows.take(i as int) =~= rows);
    Ok(bytes)
}

/// The charges of the rows that an apply stages.
pub open spec fn row_states_size(rows: Seq<ProjectionRowUpdateView>) -> nat
    decreases rows.len(),
{
    if rows.len() == 0 {
        0
    } else {
        row_states_size(rows.drop_last()) + state_size(rows.last().key, rows.last().measures)
    }
}

/// The charge of all that an apply stages: counted rows, the framed marker key
/// with its digest, and the control record.
pub open spec fn write_set_size(
    identity: ProjectionIdentityView,
    generation: ProjectionGeneration,
    sequence: CommitSequence,
    rows: Seq<ProjectionRowUpdateView>,
) -> nat {
    (4 + row_states_size(rows)) + (4 + apply_key_bytes(identity, generation, sequence).len() + 32)
        + control_size(identity)
}

/// Every row has a complete key.
pub open spec fn rows_wf(rows: Seq<ProjectionRowUpdateView>) -> bool {
    forall|i: int| 0 <= i < rows.len() ==> (#[trigger] rows[i]).key.wf()
}

proof fn leading_states_are_smaller(rows: Seq<ProjectionRowUpdateView>, count: int)
    requires
        0 <= count <= rows.len(),
        rows_wf(rows),
    ensures
        row_states_size(rows.take(count)) <= row_states_size(rows),
    decreases rows.len() - count,
{
    if count == rows.len() {
        assert(rows.take(count) =~= rows);
    } else {
        leading_states_are_smaller(rows, count + 1);
        assert(rows.take(count + 1).drop_last() =~= rows.take(count));
    }
}

/// Returns the charge of all that an apply stages.
pub fn projection_write_set_semantic_bytes(
    identity: &ProjectionIdentity,
    generation: ProjectionGeneration,
    sequence: CommitSequence,
    updates: &[ProjectionRowUpdateV1],
) -> (result: Result<usize, StorageValueError>)
    requires
        rows_wf(row_views(updates@)),
    ensures
        result == fitting(write_set_size(identity@, generation, sequence, row_views(updates@))),
{
    let ghost rows = row_views(updates@);
    let mut rows_bytes: usize = 4;
    let mut i: usize = 0;
    while i < updates.len()
        invariant
            i <= updates@.len(),
            rows == row_views(updates@),
            rows_wf(rows),
            rows_bytes == 4 + row_states_size(rows.take(i as int)),
        decreases updates@.len() - i,
    {
        proof {
            leading_states_are_smaller(rows, i as int + 1);
            assert(rows.take(i as int + 1).drop_last() =~= rows.take(i as int));
            assert(rows.take(i as int + 1).last() == rows[i as int]);
            assert(rows[i as int].key.wf());
            assert(rows[i as int] == updates@[i as int]@);
        }
        let state = match projection_state_semantic_bytes(&updates[i].key, &updates[i].measures) {
            Ok(state) => state,
            Err(error) => {
                return Err(error);
            },
        };
        match rows_bytes.checked_add(state) {
            Some(total) => {
                rows_bytes = total;
            },
            None => {
                return Err(StorageValueError::SizeOverflow);
            },
        }
        i += 1;
    }
    assert(rows.take(i as int) =~= rows);
    let marker_key = ProjectionApplyKey::new(identity.clone(), generation, sequence);
    let marker_bytes = match framed_bytes(marker_key.as_bytes().len()) {
        Ok(framed) => match framed.checked_add(32) {
            Some(total) => total,
            None => {
                return Err(StorageValueError::SizeOverflow);
            },
        },
        Err(error) => {
            return Err(error);
        },
    };
    let control_bytes = match maximum_projection_control_semantic_bytes(identity) {
        Ok(control) => control,
        Err(error) => {
            return Err(error);
        },
    };
    let parts = [rows_bytes, marker_bytes, control_bytes];
    proof {
        reveal_with_fuel(sum_of, 4);
        assert(parts@.drop_last() =~= parts@.take(2));
        assert(parts@.take(2).drop_last() =~= parts@.take(1));
        assert(parts@.take(1).drop_last() =~= parts@.take(0));
    }
    checked_projection_sum(parts.as_slice())
}

/// Why a row cannot follow the row before it in a request, if it cannot.
pub open spec fn row_refusal(
    schema: CheckedProjectionSchemaView,
    generation: ProjectionGeneration,
    expected_frontier: FrontierPosition,
    previous: Option<ProjectionRowUpdateView>,
    row: ProjectionRowUpdateView,
) -> Option<StorageValueError> {
    if schema_refusal(schema, row.key, row.measures) is Some {
        schema_refusal(schema, row.key, row.measures)
    } else if row.key.identity != schema.identity || row.key.generation != generation {
        Some(StorageValueError::IdentityMismatch)
    } else if previous matches Some(held) && held.key.bytes == row.key.bytes {
        Some(StorageValueError::Duplicate)
    } else if previous matches Some(held) && !bytes_before(held.key.bytes, row.key.bytes) {
        Some(StorageValueError::NonCanonicalOrder)
    } else if row.prior matches ProjectionRowPrior::Present(prior) && !at_or_before(
        prior,
        expected_frontier,
    ) {
        Some(StorageValueError::InvalidShape)
    } else {
        None
    }
}

/// The last row, if there is one.
pub open spec fn last_row(rows: Seq<ProjectionRowUpdateView>) -> Option<ProjectionRowUpdateView> {
    if rows.len() == 0 {
        None
    } else {
        Some(rows.last())
    }
}

/// Why the first refused row of a request is refused, if there is one.
pub open spec fn rows_refusal(
    schema: CheckedProjectionSchemaView,
    generation: ProjectionGeneration,
    expected_frontier: FrontierPosition,
    rows: Seq<ProjectionRowUpdateView>,
) -> Option<StorageValueError>
    decreases rows.len(),
{
    if rows.len() == 0 {
        None
    } else {
        let leading = rows.drop_last();
        match rows_refusal(schema, generation, expected_frontier, leading) {
            Some(error) => Some(error),
            None => row_refusal(
                schema,
                generation,
                expected_frontier,
                last_row(leading),
                rows.last(),
            ),
        }
    }
}

proof fn leading_row_refusal_stands(
    schema: CheckedProjectionSchemaView,
    generation: ProjectionGeneration,
    expected_frontier: FrontierPosition,
    rows: Seq<ProjectionRowUpdateView>,
    count: int,
)
    requires
        0 <= count <= rows.len(),
        rows_refusal(schema, generation, expected_frontier, rows.take(count)) is Some,
    ensures
        rows_refusal(schema, generation, expected_frontier, rows) == rows_refusal(
            schema,
            generation,
            expected_frontier,
            rows.take(count),
        ),
    decreases rows.len() - count,
{
    if count == rows.len() {
        assert(rows.take(count) =~= rows);
    } else {
        assert(rows.take(count + 1).drop_last() =~= rows.take(count));
        leading_row_refusal_stands(schema, generation, expected_frontier, rows, count + 1);
    }
}

fn check_row(
    schema: &CheckedProjectionSchema,
    generation: ProjectionGeneration,
    expected_frontier: FrontierPosition,
    previous: Option<&ProjectionRowUpdateV1>,
    row: &ProjectionRowUpdateV1,
) -> (result: Option<StorageValueError>)
    ensures
        result == row_refusal(
            schema@,
            generation,
            expected_frontier,
            match previous {
                Some(held) => Some(held@),
                None => None,
            },
            row@,
        ),
{
    match schema.validate_group_key(&row.key) {
        Ok(()) => {},
        Err(error) => {
            return Some(error);
        },
    }
    match schema.validate_measure_record(&row.measures) {
        Ok(()) => {},
        Err(error) => {
            return Some(error);
        },
    }
    if !row.key.identity().same(schema.identity()) || row.key.generation() != generation {
        return Some(StorageValueError::IdentityMismatch);
    }
    if let Some(held) = previous {
        match order_bytes(held.key.as_bytes(), row.key.as_bytes()) {
            BytesOrder::Before => {
                proof {
                    crate::bytes::bytes_before_irreflexive(row@.key.bytes);
                }
            },
            BytesOrder::Same => {
                return Some(StorageValueError::Duplicate);
            },
            BytesOrder::After => {
                proof {
                    crate::bytes::bytes_before_total(held@.key.bytes, row@.key.bytes);
                    crate::bytes::bytes_before_irreflexive(row@.key.bytes);
                }
                return Some(StorageValueError::NonCanonicalOrder);
            },
        }
    }
    if let ProjectionRowPrior::Present(prior) = row.prior {
        if !sequence_at_or_before(prior, expected_frontier) {
            return Some(StorageValueError::InvalidShape);
        }
    }
    None
}

fn check_rows(
    schema: &CheckedProjectionSchema,
    generation: ProjectionGeneration,
    expected_frontier: FrontierPosition,
    updates: &[ProjectionRowUpdateV1],
) -> (result: Option<StorageValueError>)
    ensures
        result == rows_refusal(schema@, generation, expected_frontier, row_views(updates@)),
{
    let ghost rows = row_views(updates@);
    let mut i: usize = 0;
    while i < updates.len()
        invariant
            i <= updates@.len(),
            rows == row_views(updates@),
            rows_refusal(schema@, generation, expected_frontier, rows.take(i as int)) is None,
        decreases updates@.len() - i,
    {
        let previous = if i == 0 {
            None
        } else {
            Some(&updates[i - 1])
        };
        let refusal = check_row(schema, generation, expected_frontier, previous, &updates[i]);
        proof {
            let next = rows.take(i as int + 1);
            assert(next.drop_last() =~= rows.take(i as int));
            assert(next.last() == updates@[i as int]@);
            assert(rows_refusal(schema@, generation, expected_frontier, next) == refusal);
        }
        if refusal.is_some() {
            proof {
                leading_row_refusal_stands(
                    schema@,
                    generation,
                    expected_frontier,
                    rows,
                    i as int + 1,
                );
            }
            return refusal;
        }
        i += 1;
    }
    assert(rows.take(i as int) =~= rows);
    None
}

/// Why an apply request is refused, if it is.
pub open spec fn apply_refusal(
    schema: CheckedProjectionSchemaView,
    generation: ProjectionGeneration,
    sequence: CommitSequence,
    expected_frontier: FrontierPosition,
    rows: Seq<ProjectionRowUpdateView>,
) -> Option<StorageValueError> {
    let refused = rows_refusal(schema, generation, expected_frontier, rows);
    let payload = apply_payload(schema.identity, generation, sequence, expected_frontier, rows);
    let write_set = fitting(write_set_size(schema.identity, generation, sequence, rows));
    if !exact_successor(expected_frontier, sequence) {
        Some(StorageValueError::InvalidShape)
    } else if rows.len() > MAX_PROJECTION_ROW_UPDATES {
        Some(StorageValueError::LimitExceeded)
    } else if refused is Some {
        refused
    } else if payload.len() > MAX_PROJECTION_APPLY_SEMANTIC_BYTES {
        Some(StorageValueError::LimitExceeded)
    } else if write_set is Err {
        Some(write_set->Err_0)
    } else if write_set->Ok_0 > MAX_PROJECTION_WRITE_SET_BYTES {
        Some(StorageValueError::LimitExceeded)
    } else {
        None
    }
}

/// What an apply request is.
#[verifier::ext_equal]
pub ghost struct ProjectionApplyRequestView {
    pub schema: CheckedProjectionSchemaView,
    pub generation: ProjectionGeneration,
    pub sequence: CommitSequence,
    pub expected_frontier: FrontierPosition,
    pub rows: Seq<ProjectionRowUpdateView>,
    pub apply_hash: Digest,
    pub semantic_bytes: usize,
    pub write_set_semantic_bytes: usize,
}

/// Whether a digest is what a hash gives of a payload.
pub open spec fn payload_hashes_to<H: Fn(Vec<u8>) -> Digest>(
    hash: H,
    payload: Seq<u8>,
    digest: Digest,
) -> bool {
    exists|bytes: Vec<u8>| bytes@ == payload && #[trigger] hash.ensures((bytes,), digest)
}

impl ProjectionApplyRequestView {
    /// The canonical payload of the request.
    pub open spec fn payload(self) -> Seq<u8> {
        apply_payload(
            self.schema.identity,
            self.generation,
            self.sequence,
            self.expected_frontier,
            self.rows,
        )
    }

    /// The checked parts with the charges that belong to them.
    pub open spec fn wf(self) -> bool {
        &&& rows_wf(self.rows)
        &&& apply_refusal(
            self.schema,
            self.generation,
            self.sequence,
            self.expected_frontier,
            self.rows,
        ) is None
        &&& self.semantic_bytes == apply_payload(
            self.schema.identity,
            self.generation,
            self.sequence,
            self.expected_frontier,
            self.rows,
        ).len()
        &&& self.write_set_semantic_bytes == write_set_size(
            self.schema.identity,
            self.generation,
            self.sequence,
            self.rows,
        )
    }
}

/// Complete bounded request to apply one authoritative sequence.
#[derive(Clone, Debug, PartialEq, Eq)]
pub struct ProjectionApplyRequestV1 {
    pub schema: CheckedProjectionSchema,
    pub generation: ProjectionGeneration,
    pub sequence: CommitSequence,
    pub expected_frontier: FrontierPosition,
    pub row_updates: Vec<ProjectionRowUpdateV1>,
    pub apply_hash: Digest,
    pub semantic_bytes: usize,
    pub write_set_semantic_bytes: usize,
}

impl View for ProjectionApplyRequestV1 {
    type V = ProjectionApplyRequestView;

    open spec fn view(&self) -> ProjectionApplyRequestView {
        ProjectionApplyRequestView {
            schema: self.schema@,
            generation: self.generation,
            sequence: self.sequence,
            expected_frontier: self.expected_frontier,
            rows: row_views(self.row_updates@),
            apply_hash: self.apply_hash,
            semantic_bytes: self.semantic_bytes,
            write_set_semantic_bytes: self.write_set_semantic_bytes,
        }
    }
}

/// Checks the parts of a request and gives its payload and the size of what it
/// stages.
fn check_request(
    schema: &CheckedProjectionSchema,
    generation: ProjectionGeneration,
    sequence: CommitSequence,
    expected_frontier: FrontierPosition,
    row_updates: &[ProjectionRowUpdateV1],
) -> (result: Result<(Vec<u8>, usize), StorageValueError>)
    requires
        rows_wf(row_views(row_updates@)),
    ensures
        match apply_refusal(
            schema@,
            generation,
            sequence,
            expected_frontier,
            row_views(row_updates@),
        ) {
            Some(error) => result == Err::<(Vec<u8>, usize), _>(error),
            None => result is Ok && result->Ok_0.0@ == apply_payload(
                schema@.identity,
                generation,
                sequence,
                expected_frontier,
                row_views(row_updates@),
            ) && result->Ok_0.1 == write_set_size(
                schema@.identity,
                generation,
                sequence,
                row_views(row_updates@),
            ),
        },
{
    if !is_exact_successor(expected_frontier, sequence) {
        return Err(StorageValueError::InvalidShape);
    }
    if row_updates.len() > MAX_PROJECTION_ROW_UPDATES {
        return Err(StorageValueError::LimitExceeded);
    }
    if let Some(error) = check_rows(schema, generation, expected_frontier, row_updates) {
        return Err(error);
    }
    let payload = encode_apply_payload(
        schema.identity(),
        generation,
        sequence,
        expected_frontier,
        row_updates,
    )?;
    if payload.len() > MAX_PROJECTION_APPLY_SEMANTIC_BYTES {
        return Err(StorageValueError::LimitExceeded);
    }
    let write_set_semantic_bytes = projection_write_set_semantic_bytes(
        schema.identity(),
        generation,
        sequence,
        row_updates,
    )?;
    validate_projection_write_set_semantic_bytes(write_set_semantic_bytes)?;
    Ok((payload, write_set_semantic_bytes))
}

impl ProjectionApplyRequestV1 {
    /// Checks identity, order, bounds and schema, and takes the hash of the
    /// canonical payload with the apply hash that it is given.
    pub fn new<H: Fn(Vec<u8>) -> Digest>(
        schema: CheckedProjectionSchema,
        generation: ProjectionGeneration,
        sequence: CommitSequence,
        expected_frontier: FrontierPosition,
        row_updates: Vec<ProjectionRowUpdateV1>,
        hash: H,
    ) -> (result: Result<Self, StorageValueError>)
        requires
            rows_wf(row_views(row_updates@)),
            forall|payload: Vec<u8>| #[trigger] hash.requires((payload,)),
        ensures
            match apply_refusal(
                schema@,
                generation,
                sequence,
                expected_frontier,
                row_views(row_updates@),
            ) {
                Some(error) => result == Err::<Self, _>(error),
                None => result is Ok && ({
                    let request = result->Ok_0@;
                    &&& request.wf()
                    &&& request.schema == schema@
                    &&& request.generation == generation
                    &&& request.sequence == sequence
                    &&& request.expected_frontier == expected_frontier
                    &&& request.rows == row_views(row_updates@)
                    &&& payload_hashes_to(hash, request.payload(), request.apply_hash)
                }),
            },
    {
        let checked = check_request(
            &schema,
            generation,
            sequence,
            expected_frontier,
            &row_updates,
        );
        let (payload, write_set_semantic_bytes) = match checked {
            Ok(checked) => checked,
            Err(error) => {
                return Err(error);
            },
        };
        let semantic_bytes = payload.len();
        let ghost held = payload@;
        let apply_hash = hash(payload);
        proof {
            assert(hash.ensures((payload,), apply_hash));
            assert(payload_hashes_to(hash, held, apply_hash));
        }
        let request = ProjectionApplyRequestV1 {
            schema,
            generation,
            sequence,
            expected_frontier,
            row_updates,
            apply_hash,
            semantic_bytes,
            write_set_semantic_bytes,
        };
        assert(request@.payload() == held);
        Ok(request)
    }

    /// Returns the exact checked schema.
    pub fn schema(&self) -> (result: &CheckedProjectionSchema)
        ensures
            *result == self.schema,
    {
        &self.schema
    }

    /// Returns the projection identity.
    pub fn identity(&self) -> (result: &ProjectionIdentity)
        ensures
            result@ == self@.schema.identity,
    {
        self.schema.identity()
    }

    /// Returns the target generation.
    pub fn generation(&self) -> (result: ProjectionGeneration)
        ensures
            result == self@.generation,
    {
        self.generation
    }

    /// Returns the applied authoritative sequence.
    pub fn sequence(&self) -> (result: CommitSequence)
        ensures
            result == self@.sequence,
    {
        self.sequence
    }

    /// Returns the expected prior frontier.
    pub fn expected_frontier(&self) -> (result: FrontierPosition)
        ensures
            result == self@.expected_frontier,
    {
        self.expected_frontier
    }

    /// Returns canonically key-ordered row updates.
    pub fn row_updates(&self) -> (result: &[ProjectionRowUpdateV1])
        ensures
            result@ == self.row_updates@,
    {
        self.row_updates.as_slice()
    }

    /// Returns the canonical typed apply hash.
    pub fn apply_hash(&self) -> (result: Digest)
        ensures
            result == self@.apply_hash,
    {
        self.apply_hash
    }

    /// Returns checked canonical semantic content size.
    pub fn semantic_bytes(&self) -> (result: usize)
        ensures
            result == self@.semantic_bytes,
    {
        self.semantic_bytes
    }

    /// Returns checked complete staged rows, marker, and control semantic bytes.
    pub fn write_set_semantic_bytes(&self) -> (result: usize)
        ensures
            result == self@.write_set_semantic_bytes,
    {
        self.write_set_semantic_bytes
    }
}

/// Closed result of one projection apply transaction.
#[derive(Clone, Debug, PartialEq, Eq)]
pub enum ProjectionApplyResult {
    /// Rows, marker, and frontier advanced atomically.
    Applied {
        /// Newly durable equality marker.
        marker: StoredProjectionApplyV1,
        /// Complete control post-image.
        control: StoredProjectionControlV1,
    },
    /// An equal historical marker proves the request was already applied.
    AlreadyApplied(StoredProjectionApplyV1),
    /// Control or row prior evidence changed before the transaction.
    StateChanged,
}

/// The rows of an accepted request are strictly ordered by key bytes, belong to
/// the requested generation and were last changed within the frontier.
pub proof fn accepted_rows_are_canonical(
    schema: CheckedProjectionSchemaView,
    generation: ProjectionGeneration,
    expected_frontier: FrontierPosition,
    rows: Seq<ProjectionRowUpdateView>,
    i: int,
    j: int,
)
    requires
        rows_refusal(schema, generation, expected_frontier, rows) is None,
        0 <= i < j < rows.len(),
    ensures
        bytes_before(rows[i].key.bytes, rows[j].key.bytes),
        rows[i].key.identity == schema.identity && rows[i].key.generation == generation,
        rows[j].key.identity == schema.identity && rows[j].key.generation == generation,
        rows[j].prior matches ProjectionRowPrior::Present(prior) ==> at_or_before(
            prior,
            expected_frontier,
        ),
        schema_refusal(schema, rows[j].key, rows[j].measures) is None,
    decreases rows.len(),
{
    let leading = rows.drop_last();
    if j < leading.len() {
        accepted_rows_are_canonical(schema, generation, expected_frontier, leading, i, j);
    } else if i + 1 < j {
        accepted_rows_are_canonical(schema, generation, expected_frontier, leading, i, j - 1);
        crate::bytes::bytes_before_transitive(
            rows[i].key.bytes,
            rows[j - 1].key.bytes,
            rows[j].key.bytes,
        );
    } else if leading.len() > 0 {
        assert(rows_refusal(schema, generation, expected_frontier, leading) is None);
    }
}

} // verus!
