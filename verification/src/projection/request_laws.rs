//! Which apply requests and snapshots are accepted, and what they are charged.

use vstd::prelude::*;

use super::apply::{
    apply_payload, apply_refusal, row_bytes, row_states_size, rows_bytes, rows_refusal, rows_wf,
    write_set_size,
};
use super::control_laws::comes_next;
use super::snapshot::{
    key_lengths_of, keys_refusal, minimum_snapshot_size, snapshot_charge, snapshot_refusal,
    snapshot_request_refusal, ObservationView, SnapshotBuilderView,
};
use super::state::{ProjectionRowPrior, ProjectionRowUpdateView};
use crate::bytes::{be32, be64, bytes_before};
use crate::ids::{CommitSequence, FrontierPosition, ProjectionGeneration};
use crate::keys::{
    CanonicalRecordView, CanonicalValueView, ProjectionGroupKeyView, ProjectionIdentityView,
};
use crate::limits::{
    MAX_PROJECTION_APPLY_SEMANTIC_BYTES, MAX_PROJECTION_APPLY_SNAPSHOT_BYTES,
    MAX_PROJECTION_ROW_UPDATES, MAX_PROJECTION_WRITE_SET_BYTES,
};
use crate::projection_schema::CheckedProjectionSchemaView;
use crate::value_error::StorageValueError;

verus! {

/// Each value has the declared kind of its place and keeps the size bound there.
pub open spec fn values_are_declared(
    schema: CheckedProjectionSchemaView,
    values: Seq<CanonicalValueView>,
) -> bool {
    &&& values.len() == schema.group_components.len()
    &&& forall|i: int|
        0 <= i < values.len() ==> (#[trigger] values[i]).kind == schema.group_components[i].kind
            && values[i].encoded.len() <= schema.group_components[i].maximum_encoded_bytes
}

/// Each field is the declared measure of its place, in kind and size.
pub open spec fn measures_are_declared(
    schema: CheckedProjectionSchemaView,
    record: CanonicalRecordView,
) -> bool {
    &&& record.fields.len() == schema.measures.len()
    &&& forall|i: int|
        0 <= i < record.fields.len() ==> (#[trigger] record.fields[i]).id == schema.measures[i].id
            && record.fields[i].value.kind == schema.measures[i].value_type.kind
            && record.fields[i].value.encoded.len()
            <= schema.measures[i].value_type.maximum_encoded_bytes
}

/// Whether what a row claims to replace was applied by then.
pub open spec fn prior_is_applied(prior: ProjectionRowPrior, frontier: FrontierPosition) -> bool {
    match (prior, frontier) {
        (ProjectionRowPrior::Absent, _) => true,
        (ProjectionRowPrior::Present(_), FrontierPosition::BeforeFirst) => false,
        (
            ProjectionRowPrior::Present(changed),
            FrontierPosition::AppliedThrough(last),
        ) => changed.value <= last.value,
    }
}

/// A row of the schema and the generation, behind the row before it.
pub open spec fn row_is_in_place(
    schema: CheckedProjectionSchemaView,
    generation: ProjectionGeneration,
    frontier: FrontierPosition,
    rows: Seq<ProjectionRowUpdateView>,
    i: int,
) -> bool {
    let row = rows[i];
    &&& values_are_declared(schema, row.key.components)
    &&& measures_are_declared(schema, row.measures)
    &&& row.measures.encoded.len() <= schema.maximum_stored_state_bytes
    &&& row.key.identity == schema.identity
    &&& row.key.generation == generation
    &&& i > 0 ==> bytes_before(rows[i - 1].key.bytes, row.key.bytes)
    &&& prior_is_applied(row.prior, frontier)
}

/// What a row that is not in place is refused with.
pub open spec fn misplaced_row_error(
    schema: CheckedProjectionSchemaView,
    generation: ProjectionGeneration,
    rows: Seq<ProjectionRowUpdateView>,
    i: int,
) -> StorageValueError {
    let row = rows[i];
    if !values_are_declared(schema, row.key.components) || !measures_are_declared(
        schema,
        row.measures,
    ) {
        StorageValueError::InvalidShape
    } else if row.measures.encoded.len() > schema.maximum_stored_state_bytes {
        StorageValueError::LimitExceeded
    } else if row.key.identity != schema.identity || row.key.generation != generation {
        StorageValueError::IdentityMismatch
    } else if i > 0 && rows[i - 1].key.bytes == row.key.bytes {
        StorageValueError::Duplicate
    } else if i > 0 && !bytes_before(rows[i - 1].key.bytes, row.key.bytes) {
        StorageValueError::NonCanonicalOrder
    } else {
        StorageValueError::InvalidShape
    }
}

/// A schema admits exactly the declared values, and as measures exactly the declared ones
/// that do not take too many bytes.
pub proof fn declared_values_are_admitted(
    schema: CheckedProjectionSchemaView,
    values: Seq<CanonicalValueView>,
    record: CanonicalRecordView,
)
    ensures
        schema.admits_complete(values) == values_are_declared(schema, values),
        measures_are_declared(schema, record) ==> schema.measure_refusal(record) == if (
        record.encoded.len() > schema.maximum_stored_state_bytes) {
            Some(StorageValueError::LimitExceeded)
        } else {
            None
        },
        !measures_are_declared(schema, record) ==> schema.measure_refusal(record) == Some(
            StorageValueError::InvalidShape,
        ),
{
    if record.fields.len() == schema.measures.len() {
        if measures_are_declared(schema, record) {
            assert(forall|i: int|
                0 <= i < record.fields.len() ==> schema.measures[i].admits(
                    #[trigger] record.fields[i],
                ));
        } else {
            let i = choose|i: int|
                0 <= i < record.fields.len() && !((#[trigger] record.fields[i]).id
                    == schema.measures[i].id && record.fields[i].value.kind
                    == schema.measures[i].value_type.kind && record.fields[i].value.encoded.len()
                    <= schema.measures[i].value_type.maximum_encoded_bytes);
            assert(!schema.measures[i].admits(record.fields[i]));
        }
    }
    if values.len() == schema.group_components.len() {
        if values_are_declared(schema, values) {
            assert(forall|i: int|
                0 <= i < values.len() ==> schema.group_components[i].admits(#[trigger] values[i]));
        } else if schema.admits_complete(values) {
            assert forall|i: int| 0 <= i < values.len() implies (#[trigger] values[i]).kind
                == schema.group_components[i].kind && values[i].encoded.len()
                <= schema.group_components[i].maximum_encoded_bytes by {
                assert(schema.group_components[i].admits(values[i]));
            }
        }
    }
}

/// Rows are accepted exactly when each of them is in place; otherwise the first that
/// is not decides, whatever stands behind it.
pub proof fn rows_are_refused_where_they_leave_their_place(
    schema: CheckedProjectionSchemaView,
    generation: ProjectionGeneration,
    frontier: FrontierPosition,
    rows: Seq<ProjectionRowUpdateView>,
)
    ensures
        rows_refusal(schema, generation, frontier, rows) is None <==> forall|i: int|
            0 <= i < rows.len() ==> #[trigger] row_is_in_place(
                schema,
                generation,
                frontier,
                rows,
                i,
            ),
        forall|k: int|
            0 <= k < rows.len() && (forall|i: int|
                0 <= i < k ==> #[trigger] row_is_in_place(schema, generation, frontier, rows, i))
                && !#[trigger] row_is_in_place(schema, generation, frontier, rows, k)
                ==> rows_refusal(schema, generation, frontier, rows) == Some(
                misplaced_row_error(schema, generation, rows, k),
            ),
    decreases rows.len(),
{
    if rows.len() > 0 {
        let leading = rows.drop_last();
        let last = rows.len() - 1;
        rows_are_refused_where_they_leave_their_place(schema, generation, frontier, leading);
        declared_values_are_admitted(schema, rows[last].key.components, rows[last].measures);
        assert forall|i: int| 0 <= i < last implies #[trigger] row_is_in_place(
            schema,
            generation,
            frontier,
            leading,
            i,
        ) == row_is_in_place(schema, generation, frontier, rows, i) by {
            assert(leading[i] == rows[i]);
            if i > 0 {
                assert(leading[i - 1] == rows[i - 1]);
            }
        }
        if last > 0 {
            assert(leading.last() == rows[last - 1]);
            crate::bytes::bytes_before_irreflexive(rows[last].key.bytes);
        }
        assert forall|k: int|
            0 <= k < rows.len() && (forall|i: int|
                0 <= i < k ==> #[trigger] row_is_in_place(schema, generation, frontier, rows, i))
                && !#[trigger] row_is_in_place(schema, generation, frontier, rows, k) implies
            rows_refusal(schema, generation, frontier, rows) == Some(
            misplaced_row_error(schema, generation, rows, k),
        ) by {
            if k < last {
                assert(!row_is_in_place(schema, generation, frontier, leading, k));
                assert forall|i: int| 0 <= i < k implies #[trigger] row_is_in_place(
                    schema,
                    generation,
                    frontier,
                    leading,
                    i,
                ) by {
                    assert(row_is_in_place(schema, generation, frontier, rows, i));
                }
                assert(leading[k] == rows[k]);
                if k > 0 {
                    assert(leading[k - 1] == rows[k - 1]);
                }
                assert(misplaced_row_error(schema, generation, leading, k)
                    == misplaced_row_error(schema, generation, rows, k));
            } else {
                assert forall|i: int| 0 <= i < last implies #[trigger] row_is_in_place(
                    schema,
                    generation,
                    frontier,
                    leading,
                    i,
                ) by {
                    assert(row_is_in_place(schema, generation, frontier, rows, i));
                }
                assert(rows_refusal(schema, generation, frontier, leading) is None);
            }
        }
        if rows_refusal(schema, generation, frontier, rows) is None {
            assert forall|i: int| 0 <= i < rows.len() implies #[trigger] row_is_in_place(
                schema,
                generation,
                frontier,
                rows,
                i,
            ) by {
                if i < last {
                    assert(row_is_in_place(schema, generation, frontier, leading, i));
                }
            }
        } else if forall|i: int|
            0 <= i < rows.len() ==> #[trigger] row_is_in_place(
                schema,
                generation,
                frontier,
                rows,
                i,
            ) {
            assert forall|i: int| 0 <= i < last implies #[trigger] row_is_in_place(
                schema,
                generation,
                frontier,
                leading,
                i,
            ) by {
                assert(row_is_in_place(schema, generation, frontier, rows, i));
            }
            assert(row_is_in_place(schema, generation, frontier, rows, last));
        }
    }
}

/// The bytes that the first rows take in a payload.
pub open spec fn payload_rows_len(rows: Seq<ProjectionRowUpdateView>, count: nat) -> nat
    decreases count,
{
    if count == 0 {
        0
    } else {
        let row = rows[count - 1];
        payload_rows_len(rows, (count - 1) as nat) + row.key.bytes.len()
            + row.measures.encoded.len() + (if row.prior is Absent {
            9nat
        } else {
            17nat
        })
    }
}

/// The bytes that the first rows take once they are stored: the key but for its two
/// leading bytes, the measures, and forty-four more for a length, a sequence and a
/// digest.
pub open spec fn stored_rows_len(rows: Seq<ProjectionRowUpdateView>, count: nat) -> int
    decreases count,
{
    if count == 0 {
        0
    } else {
        let row = rows[count - 1];
        stored_rows_len(rows, (count - 1) as nat) + row.key.bytes.len()
            + row.measures.encoded.len() + 42
    }
}

proof fn row_lengths_look_at_their_rows(
    a: Seq<ProjectionRowUpdateView>,
    b: Seq<ProjectionRowUpdateView>,
    count: nat,
)
    requires
        count <= a.len(),
        count <= b.len(),
        forall|i: int| 0 <= i < count ==> a[i] == #[trigger] b[i],
    ensures
        payload_rows_len(a, count) == payload_rows_len(b, count),
        stored_rows_len(a, count) == stored_rows_len(b, count),
    decreases count,
{
    if count > 0 {
        row_lengths_look_at_their_rows(a, b, (count - 1) as nat);
        assert(a[count - 1] == b[count - 1]);
    }
}

proof fn rows_have_their_lengths(rows: Seq<ProjectionRowUpdateView>)
    requires
        rows_wf(rows),
    ensures
        rows_bytes(rows).len() == payload_rows_len(rows, rows.len()),
        row_states_size(rows) == stored_rows_len(rows, rows.len()),
    decreases rows.len(),
{
    if rows.len() > 0 {
        let leading = rows.drop_last();
        assert forall|i: int| 0 <= i < leading.len() implies (#[trigger] leading[i]).key.wf() by {
            assert(rows[i].key.wf());
        }
        rows_have_their_lengths(leading);
        row_lengths_look_at_their_rows(leading, rows, leading.len());
        assert(rows.last().key.wf());
    }
}

/// A payload takes the bytes of its identity and rows and fifty-three to sixty-one
/// more, and what a request stages takes those of its rows once stored, of the
/// identity twice, and one hundred and twenty-eight more.
pub proof fn requests_are_charged_for_their_rows(
    identity: ProjectionIdentityView,
    generation: ProjectionGeneration,
    sequence: CommitSequence,
    frontier: FrontierPosition,
    rows: Seq<ProjectionRowUpdateView>,
)
    requires
        rows_wf(rows),
    ensures
        apply_payload(identity, generation, sequence, frontier, rows).len() == (
        if frontier is BeforeFirst {
            53nat
        } else {
            61nat
        }) + identity.canonical().len() + payload_rows_len(rows, rows.len()),
        write_set_size(identity, generation, sequence, rows) == 128 + 2
            * identity.canonical().len() + stored_rows_len(rows, rows.len()),
{
    rows_have_their_lengths(rows);
}

/// A request is accepted exactly when its sequence comes right after the expected
/// frontier, its rows are few enough and all in place, and neither its payload nor
/// what it stages is too large. The sequence is looked at first, then the number of
/// rows, then the rows, then the two sizes.
pub proof fn apply_requests_are_accepted_in_place(
    schema: CheckedProjectionSchemaView,
    generation: ProjectionGeneration,
    sequence: CommitSequence,
    frontier: FrontierPosition,
    rows: Seq<ProjectionRowUpdateView>,
)
    ensures
        ({
            let refusal = apply_refusal(schema, generation, sequence, frontier, rows);
            let payload = apply_payload(schema.identity, generation, sequence, frontier, rows);
            let staged = write_set_size(schema.identity, generation, sequence, rows);
            let few = rows.len() <= MAX_PROJECTION_ROW_UPDATES;
            let all_in_place = forall|i: int|
                0 <= i < rows.len() ==> #[trigger] row_is_in_place(
                    schema,
                    generation,
                    frontier,
                    rows,
                    i,
                );
            &&& refusal is None <==> comes_next(frontier, sequence) && few && all_in_place
                && payload.len() <= MAX_PROJECTION_APPLY_SEMANTIC_BYTES && staged
                <= MAX_PROJECTION_WRITE_SET_BYTES
            &&& !comes_next(frontier, sequence) ==> refusal == Some(
                StorageValueError::InvalidShape,
            )
            &&& comes_next(frontier, sequence) && !few ==> refusal == Some(
                StorageValueError::LimitExceeded,
            )
            &&& comes_next(frontier, sequence) && few && !all_in_place ==> refusal
                == rows_refusal(schema, generation, frontier, rows) && refusal is Some
            &&& comes_next(frontier, sequence) && few && all_in_place && refusal is Some
                ==> refusal == if payload.len() <= MAX_PROJECTION_APPLY_SEMANTIC_BYTES && staged
                > usize::MAX {
                Some(StorageValueError::SizeOverflow)
            } else {
                Some(StorageValueError::LimitExceeded)
            }
        }),
{
    rows_are_refused_where_they_leave_their_place(schema, generation, frontier, rows);
}

/// A payload begins with a label and its version, and goes on with the framed
/// identity, the generation, the sequence, the frontier and the number of rows.
pub proof fn payloads_lay_their_parts_out(
    identity: ProjectionIdentityView,
    generation: ProjectionGeneration,
    sequence: CommitSequence,
    frontier: FrontierPosition,
    rows: Seq<ProjectionRowUpdateView>,
)
    ensures
        ({
            let payload = apply_payload(identity, generation, sequence, frontier, rows);
            let name = identity.canonical();
            let at = 32 + name.len() as int;
            let end = if frontier is BeforeFirst {
                at + 17
            } else {
                at + 25
            };
            &&& payload.take(24) == seq![
                0x52u8, 0x49, 0x46, 0x46, 0x44, 0x42, 0x2d, 0x50, 0x52, 0x4f, 0x4a, 0x45, 0x43,
                0x54, 0x49, 0x4f, 0x4e, 0x2d, 0x41, 0x50, 0x50, 0x4c, 0x59, 0x00,
            ]
            &&& payload.subrange(24, 28) == seq![0u8, 0, 0, 1]
            &&& payload.subrange(28, 32) == be32(name.len() as u32)
            &&& payload.subrange(32, at) == name
            &&& payload.subrange(at, at + 8) == be64(generation.value)
            &&& payload.subrange(at + 8, at + 16) == be64(sequence.value)
            &&& match frontier {
                FrontierPosition::BeforeFirst => payload[at + 16] == 0,
                FrontierPosition::AppliedThrough(last) => payload[at + 16] == 1
                    && payload.subrange(at + 17, at + 25) == be64(last.value),
            }
            &&& payload.subrange(end, end + 4) == be32(rows.len() as u32)
            &&& payload.skip(end + 4) == rows_bytes(rows)
        }),
{
    let payload = apply_payload(identity, generation, sequence, frontier, rows);
    let name = identity.canonical();
    let at = 32 + name.len() as int;
    assert(be32(1) =~= seq![0u8, 0, 0, 1]);
    assert(payload.subrange(24, 28) =~= be32(1));
    assert(payload.subrange(28, 32) =~= be32(name.len() as u32));
    assert(payload.subrange(32, at) =~= name);
    assert(payload.subrange(at, at + 8) =~= be64(generation.value));
    assert(payload.subrange(at + 8, at + 16) =~= be64(sequence.value));
    match frontier {
        FrontierPosition::BeforeFirst => {
            assert(payload.subrange(at + 17, at + 21) =~= be32(rows.len() as u32));
            assert(payload.skip(at + 21) =~= rows_bytes(rows));
        },
        FrontierPosition::AppliedThrough(last) => {
            assert(payload.subrange(at + 17, at + 25) =~= be64(last.value));
            assert(payload.subrange(at + 25, at + 29) =~= be32(rows.len() as u32));
            assert(payload.skip(at + 29) =~= rows_bytes(rows));
        },
    }
}

/// Whether a row lies at a place of some bytes: its framed key, what it claims to
/// replace, and its framed measures.
pub open spec fn row_lies_at(bytes: Seq<u8>, at: int, row: ProjectionRowUpdateView) -> bool {
    let prior = at + 4 + row.key.bytes.len();
    let measures = prior + if row.prior is Absent {
        1
    } else {
        9int
    };
    let end = measures + 4 + row.measures.encoded.len();
    &&& end <= bytes.len()
    &&& bytes.subrange(at, at + 4) == be32(row.key.bytes.len() as u32)
    &&& bytes.subrange(at + 4, prior) == row.key.bytes
    &&& match row.prior {
        ProjectionRowPrior::Absent => bytes[prior] == 0,
        ProjectionRowPrior::Present(changed) => bytes[prior] == 1 && bytes.subrange(
            prior + 1,
            prior + 9,
        ) == be64(changed.value),
    }
    &&& bytes.subrange(measures, measures + 4) == be32(row.measures.encoded.len() as u32)
    &&& bytes.subrange(measures + 4, end) == row.measures.encoded
}

proof fn rows_lie_where_they_lay(
    held: Seq<u8>,
    more: Seq<u8>,
    at: int,
    row: ProjectionRowUpdateView,
)
    requires
        at >= 0,
        row_lies_at(held, at, row),
    ensures
        row_lies_at(held + more, at, row),
{
    let bytes = held + more;
    let prior = at + 4 + row.key.bytes.len();
    let measures = prior + if row.prior is Absent {
        1
    } else {
        9int
    };
    let end = measures + 4 + row.measures.encoded.len();
    assert(bytes.subrange(at, at + 4) =~= held.subrange(at, at + 4));
    assert(bytes.subrange(at + 4, prior) =~= held.subrange(at + 4, prior));
    if row.prior is Present {
        assert(bytes.subrange(prior + 1, prior + 9) =~= held.subrange(prior + 1, prior + 9));
    }
    assert(bytes.subrange(measures, measures + 4) =~= held.subrange(measures, measures + 4));
    assert(bytes.subrange(measures + 4, end) =~= held.subrange(measures + 4, end));
}

proof fn a_row_lies_behind_the_others(held: Seq<u8>, row: ProjectionRowUpdateView)
    ensures
        row_lies_at(held + row_bytes(row), held.len() as int, row),
{
    let bytes = held + row_bytes(row);
    let at = held.len() as int;
    let prior = at + 4 + row.key.bytes.len();
    assert(bytes.subrange(at, at + 4) =~= be32(row.key.bytes.len() as u32));
    assert(bytes.subrange(at + 4, prior) =~= row.key.bytes);
    let measures = match row.prior {
        ProjectionRowPrior::Absent => prior + 1,
        ProjectionRowPrior::Present(changed) => {
            assert(bytes.subrange(prior + 1, prior + 9) =~= be64(changed.value));
            prior + 9
        },
    };
    assert(bytes.subrange(measures, measures + 4) =~= be32(row.measures.encoded.len() as u32));
    assert(bytes.subrange(measures + 4, measures + 4 + row.measures.encoded.len())
        =~= row.measures.encoded);
}

/// The rows of a payload follow one another in their order, each behind all that the
/// rows before it take.
pub proof fn payload_rows_follow_one_another(rows: Seq<ProjectionRowUpdateView>, i: int)
    requires
        rows_wf(rows),
        0 <= i < rows.len(),
    ensures
        row_lies_at(rows_bytes(rows), payload_rows_len(rows, i as nat) as int, rows[i]),
        rows_bytes(rows).len() == payload_rows_len(rows, rows.len()),
    decreases rows.len(),
{
    let leading = rows.drop_last();
    assert forall|k: int| 0 <= k < leading.len() implies (#[trigger] leading[k]).key.wf() by {
        assert(rows[k].key.wf());
    }
    rows_have_their_lengths(rows);
    rows_have_their_lengths(leading);
    row_lengths_look_at_their_rows(leading, rows, leading.len());
    let at = payload_rows_len(rows, i as nat) as int;
    if i < leading.len() {
        payload_rows_follow_one_another(leading, i);
        row_lengths_look_at_their_rows(leading, rows, i as nat);
        assert(leading[i] == rows[i]);
        rows_lie_where_they_lay(rows_bytes(leading), row_bytes(rows.last()), at, rows[i]);
    } else {
        a_row_lies_behind_the_others(rows_bytes(leading), rows.last());
    }
}

/// A key of the schema and the generation, behind the key before it.
pub open spec fn key_is_in_place(
    schema: CheckedProjectionSchemaView,
    generation: ProjectionGeneration,
    keys: Seq<ProjectionGroupKeyView>,
    i: int,
) -> bool {
    &&& values_are_declared(schema, keys[i].components)
    &&& keys[i].identity == schema.identity
    &&& keys[i].generation == generation
    &&& i > 0 ==> bytes_before(keys[i - 1].bytes, keys[i].bytes)
}

/// What a key that is not in place is refused with.
pub open spec fn misplaced_key_error(
    schema: CheckedProjectionSchemaView,
    generation: ProjectionGeneration,
    keys: Seq<ProjectionGroupKeyView>,
    i: int,
) -> StorageValueError {
    if !values_are_declared(schema, keys[i].components) {
        StorageValueError::InvalidShape
    } else if keys[i].identity != schema.identity || keys[i].generation != generation {
        StorageValueError::IdentityMismatch
    } else if keys[i - 1].bytes == keys[i].bytes {
        StorageValueError::Duplicate
    } else {
        StorageValueError::NonCanonicalOrder
    }
}

/// Keys are accepted exactly when each of them is in place; otherwise the first that
/// is not decides, whatever stands behind it.
pub proof fn keys_are_refused_where_they_leave_their_place(
    schema: CheckedProjectionSchemaView,
    generation: ProjectionGeneration,
    keys: Seq<ProjectionGroupKeyView>,
)
    ensures
        keys_refusal(schema, generation, keys) is None <==> forall|i: int|
            0 <= i < keys.len() ==> #[trigger] key_is_in_place(schema, generation, keys, i),
        forall|k: int|
            0 <= k < keys.len() && (forall|i: int|
                0 <= i < k ==> #[trigger] key_is_in_place(schema, generation, keys, i))
                && !#[trigger] key_is_in_place(schema, generation, keys, k) ==> keys_refusal(
                schema,
                generation,
                keys,
            ) == Some(misplaced_key_error(schema, generation, keys, k)),
    decreases keys.len(),
{
    if keys.len() > 0 {
        let leading = keys.drop_last();
        let last = keys.len() - 1;
        keys_are_refused_where_they_leave_their_place(schema, generation, leading);
        declared_values_are_admitted(schema, keys[last].components, arbitrary());
        assert forall|i: int| 0 <= i < last implies #[trigger] key_is_in_place(
            schema,
            generation,
            leading,
            i,
        ) == key_is_in_place(schema, generation, keys, i) by {
            assert(leading[i] == keys[i]);
            if i > 0 {
                assert(leading[i - 1] == keys[i - 1]);
            }
        }
        if last > 0 {
            assert(leading.last() == keys[last - 1]);
            crate::bytes::bytes_before_irreflexive(keys[last].bytes);
        }
        assert forall|k: int|
            0 <= k < keys.len() && (forall|i: int|
                0 <= i < k ==> #[trigger] key_is_in_place(schema, generation, keys, i))
                && !#[trigger] key_is_in_place(schema, generation, keys, k) implies keys_refusal(
            schema,
            generation,
            keys,
        ) == Some(misplaced_key_error(schema, generation, keys, k)) by {
            assert forall|i: int| 0 <= i < k && i < last implies #[trigger] key_is_in_place(
                schema,
                generation,
                leading,
                i,
            ) by {
                assert(key_is_in_place(schema, generation, keys, i));
            }
            if k < last {
                assert(!key_is_in_place(schema, generation, leading, k));
                assert(leading[k] == keys[k]);
                if k > 0 {
                    assert(leading[k - 1] == keys[k - 1]);
                }
                assert(misplaced_key_error(schema, generation, leading, k)
                    == misplaced_key_error(schema, generation, keys, k));
            } else {
                assert(keys_refusal(schema, generation, leading) is None);
            }
        }
        if keys_refusal(schema, generation, keys) is None {
            assert forall|i: int| 0 <= i < keys.len() implies #[trigger] key_is_in_place(
                schema,
                generation,
                keys,
                i,
            ) by {
                if i < last {
                    assert(key_is_in_place(schema, generation, leading, i));
                }
            }
        } else if forall|i: int|
            0 <= i < keys.len() ==> #[trigger] key_is_in_place(schema, generation, keys, i) {
            assert forall|i: int| 0 <= i < last implies #[trigger] key_is_in_place(
                schema,
                generation,
                leading,
                i,
            ) by {
                assert(key_is_in_place(schema, generation, keys, i));
            }
            assert(key_is_in_place(schema, generation, keys, last));
        }
    }
}

/// The bytes of the first keys.
pub open spec fn leading_key_bytes(keys: Seq<ProjectionGroupKeyView>, count: nat) -> nat
    decreases count,
{
    if count == 0 {
        0
    } else {
        leading_key_bytes(keys, (count - 1) as nat) + keys[count - 1].bytes.len()
    }
}

proof fn leading_keys_have_their_bytes(
    keys: Seq<ProjectionGroupKeyView>,
    more: Seq<ProjectionGroupKeyView>,
)
    requires
        keys.len() <= more.len(),
        forall|i: int| 0 <= i < keys.len() ==> keys[i] == #[trigger] more[i],
        forall|i: int| 0 <= i < keys.len() ==> (#[trigger] keys[i]).bytes.len() <= usize::MAX,
    ensures
        minimum_snapshot_size(key_lengths_of(keys)) == 5 + 5 * keys.len() + leading_key_bytes(
            more,
            keys.len(),
        ),
    decreases keys.len(),
{
    if keys.len() > 0 {
        let leading = keys.drop_last();
        leading_keys_have_their_bytes(leading, more);
        assert(key_lengths_of(keys).drop_last() =~= key_lengths_of(leading));
        assert(keys.last() == more[keys.len() - 1]);
        assert(keys[keys.len() - 1].bytes.len() <= usize::MAX);
    }
}

/// A snapshot is asked for exactly when its keys are few enough and all in place, and
/// an answer with none of them present, which takes five bytes and for each key five
/// more than the key has, would not be too large.
pub proof fn snapshot_requests_are_accepted_in_place(
    schema: CheckedProjectionSchemaView,
    generation: ProjectionGeneration,
    keys: Seq<ProjectionGroupKeyView>,
)
    requires
        forall|i: int| 0 <= i < keys.len() ==> (#[trigger] keys[i]).bytes.len() <= usize::MAX,
    ensures
        ({
            let refusal = snapshot_request_refusal(schema, generation, keys);
            let least = 5 + 5 * keys.len() + leading_key_bytes(keys, keys.len());
            let few = keys.len() <= MAX_PROJECTION_ROW_UPDATES;
            &&& minimum_snapshot_size(key_lengths_of(keys)) == least
            &&& refusal is None <==> few && least <= MAX_PROJECTION_APPLY_SNAPSHOT_BYTES && forall|
                i: int,
            |
                0 <= i < keys.len() ==> #[trigger] key_is_in_place(schema, generation, keys, i)
            &&& few && least > usize::MAX ==> refusal == Some(StorageValueError::SizeOverflow)
            &&& !few || MAX_PROJECTION_APPLY_SNAPSHOT_BYTES < least <= usize::MAX ==> refusal
                == Some(StorageValueError::LimitExceeded)
            &&& few && least <= MAX_PROJECTION_APPLY_SNAPSHOT_BYTES ==> refusal == keys_refusal(
                schema,
                generation,
                keys,
            )
        }),
{
    keys_are_refused_where_they_leave_their_place(schema, generation, keys);
    leading_keys_have_their_bytes(keys, keys);
}

/// Whether an observation answers a key: it is of that key and, where there is a row,
/// the row was last changed by what is applied.
pub open spec fn answers(
    observation: ObservationView,
    key: ProjectionGroupKeyView,
    frontier: FrontierPosition,
) -> bool {
    match observation {
        ObservationView::Absent(held) => held == key,
        ObservationView::Present(row) => row.key == key && match frontier {
            FrontierPosition::BeforeFirst => false,
            FrontierPosition::AppliedThrough(last) => row.last_changed_sequence.value
                <= last.value,
        },
    }
}

/// The bytes that the first observations are charged.
pub open spec fn observed_len(rows: Seq<ObservationView>, count: nat) -> nat
    decreases count,
{
    if count == 0 {
        0
    } else {
        observed_len(rows, (count - 1) as nat) + match rows[count - 1] {
            ObservationView::Absent(key) => key.bytes.len() + 5,
            ObservationView::Present(row) => row.key.bytes.len() + row.measures.encoded.len() + 43,
        }
    }
}

proof fn observed_len_looks_at_its_rows(
    a: Seq<ObservationView>,
    b: Seq<ObservationView>,
    count: nat,
)
    requires
        count <= a.len(),
        count <= b.len(),
        forall|i: int| 0 <= i < count ==> a[i] == #[trigger] b[i],
    ensures
        observed_len(a, count) == observed_len(b, count),
    decreases count,
{
    if count > 0 {
        observed_len_looks_at_its_rows(a, b, (count - 1) as nat);
        assert(a[count - 1] == b[count - 1]);
    }
}

/// The bytes of a frontier and a count.
pub open spec fn fixed_len(frontier: FrontierPosition) -> nat {
    match frontier {
        FrontierPosition::BeforeFirst => 5,
        FrontierPosition::AppliedThrough(_) => 13,
    }
}

/// A snapshot in which every observation answers its key is charged for its frontier,
/// a count and each observation; any other has no charge.
pub proof fn snapshots_are_charged_for_their_rows(
    keys: Seq<ProjectionGroupKeyView>,
    frontier: FrontierPosition,
    rows: Seq<ObservationView>,
)
    requires
        rows.len() <= keys.len(),
        forall|i: int| 0 <= i < keys.len() ==> (#[trigger] keys[i]).bytes.len() >= 2,
    ensures
        ({
            let charge = snapshot_charge(keys, frontier, rows);
            let total = fixed_len(frontier) + observed_len(rows, rows.len());
            let all_answer = forall|i: int|
                0 <= i < rows.len() ==> #[trigger] answers(rows[i], keys[i], frontier);
            &&& charge is Ok <==> all_answer && total <= usize::MAX
            &&& charge matches Ok(bytes) ==> bytes == total
            &&& charge is Err && all_answer ==> charge->Err_0 == StorageValueError::SizeOverflow
        }),
    decreases rows.len(),
{
    if rows.len() > 0 {
        let leading = rows.drop_last();
        let last = rows.len() - 1;
        snapshots_are_charged_for_their_rows(keys, frontier, leading);
        observed_len_looks_at_its_rows(leading, rows, leading.len());
        assert forall|i: int| 0 <= i < leading.len() implies leading[i] == #[trigger] rows[i] by {}
        let all_answer = forall|i: int|
            0 <= i < rows.len() ==> #[trigger] answers(rows[i], keys[i], frontier);
        if all_answer {
            assert forall|i: int| 0 <= i < leading.len() implies #[trigger] answers(
                leading[i],
                keys[i],
                frontier,
            ) by {
                assert(answers(rows[i], keys[i], frontier));
            }
            assert(answers(rows[last], keys[last], frontier));
        }
        if snapshot_charge(keys, frontier, rows) is Ok {
            assert forall|i: int| 0 <= i < rows.len() implies #[trigger] answers(
                rows[i],
                keys[i],
                frontier,
            ) by {
                if i < last {
                    assert(answers(leading[i], keys[i], frontier));
                }
            }
        }
    }
}

/// The first observation that does not answer its key decides why a snapshot is
/// refused: it is of another key, or of a row that is not yet applied.
pub proof fn the_first_wrong_observation_decides(
    keys: Seq<ProjectionGroupKeyView>,
    frontier: FrontierPosition,
    rows: Seq<ObservationView>,
    k: int,
)
    requires
        0 <= k < rows.len() <= keys.len(),
        forall|i: int| 0 <= i < keys.len() ==> (#[trigger] keys[i]).bytes.len() >= 2,
        forall|i: int| 0 <= i < k ==> #[trigger] answers(rows[i], keys[i], frontier),
        !answers(rows[k], keys[k], frontier),
        fixed_len(frontier) + observed_len(rows, k as nat) <= usize::MAX,
    ensures
        snapshot_charge(keys, frontier, rows) == Err::<usize, StorageValueError>(
            if (match rows[k] {
                ObservationView::Absent(key) => key,
                ObservationView::Present(row) => row.key,
            }) != keys[k] {
                StorageValueError::IdentityMismatch
            } else {
                StorageValueError::InvalidShape
            },
        ),
    decreases rows.len(),
{
    let leading = rows.drop_last();
    if k < leading.len() {
        assert forall|i: int| 0 <= i < k implies #[trigger] answers(
            leading[i],
            keys[i],
            frontier,
        ) by {
            assert(answers(rows[i], keys[i], frontier));
        }
        observed_len_looks_at_its_rows(leading, rows, k as nat);
        the_first_wrong_observation_decides(keys, frontier, leading, k);
    } else {
        assert forall|i: int| 0 <= i < leading.len() implies #[trigger] answers(
            leading[i],
            keys[i],
            frontier,
        ) by {
            assert(answers(rows[i], keys[i], frontier));
        }
        observed_len_looks_at_its_rows(leading, rows, k as nat);
        snapshots_are_charged_for_their_rows(keys, frontier, leading);
    }
}

/// A snapshot is accepted exactly when it has one answer for each requested key, in
/// their order, and is not too large.
pub proof fn snapshots_answer_their_request(
    keys: Seq<ProjectionGroupKeyView>,
    frontier: FrontierPosition,
    rows: Seq<ObservationView>,
)
    requires
        forall|i: int| 0 <= i < keys.len() ==> (#[trigger] keys[i]).bytes.len() >= 2,
    ensures
        ({
            let refusal = snapshot_refusal(keys, frontier, rows);
            let total = fixed_len(frontier) + observed_len(rows, rows.len());
            let all_answer = forall|i: int|
                0 <= i < rows.len() ==> #[trigger] answers(rows[i], keys[i], frontier);
            &&& refusal is None <==> rows.len() == keys.len() && all_answer && total
                <= MAX_PROJECTION_APPLY_SNAPSHOT_BYTES
            &&& rows.len() != keys.len() ==> refusal == Some(StorageValueError::InvalidShape)
            &&& rows.len() == keys.len() && all_answer
                && MAX_PROJECTION_APPLY_SNAPSHOT_BYTES < total <= usize::MAX ==> refusal == Some(
                StorageValueError::LimitExceeded,
            )
        }),
{
    if rows.len() == keys.len() {
        snapshots_are_charged_for_their_rows(keys, frontier, rows);
    }
}

/// A snapshot is built of one answer for each key, in the order of the keys: the next row
/// has to answer the next key and to leave the snapshot within its bound, and adds what it
/// is charged.
pub proof fn rows_are_pushed_in_the_order_of_their_keys(
    builder: SnapshotBuilderView,
    row: ObservationView,
)
    requires
        builder.wf(),
        forall|i: int|
            0 <= i < builder.keys.len() ==> (#[trigger] builder.keys[i]).bytes.len() >= 2,
    ensures
        ({
            let at = builder.rows.len() as int;
            let total = builder.semantic_bytes + match row {
                ObservationView::Absent(key) => key.bytes.len() + 5,
                ObservationView::Present(held) => held.key.bytes.len()
                    + held.measures.encoded.len() + 43,
            };
            let next_key = at < builder.keys.len() && answers(
                row,
                builder.keys[at],
                builder.expected_frontier,
            );
            let pushed = builder.pushed(row);
            &&& pushed is Ok <==> next_key && total <= MAX_PROJECTION_APPLY_SNAPSHOT_BYTES
            &&& pushed matches Ok(next) ==> next.rows == builder.rows.push(row)
                && next.semantic_bytes == total && next.keys == builder.keys
                && next.expected_frontier == builder.expected_frontier
            &&& at >= builder.keys.len() ==> pushed == Err::<SnapshotBuilderView, _>(
                StorageValueError::InvalidShape,
            )
            &&& next_key && MAX_PROJECTION_APPLY_SNAPSHOT_BYTES < total <= usize::MAX ==> pushed
                == Err::<SnapshotBuilderView, _>(StorageValueError::LimitExceeded)
        }),
{
    let at = builder.rows.len() as int;
    if at < builder.keys.len() {
        let rows = builder.rows.push(row);
        snapshots_are_charged_for_their_rows(
            builder.keys,
            builder.expected_frontier,
            builder.rows,
        );
        snapshots_are_charged_for_their_rows(builder.keys, builder.expected_frontier, rows);
        observed_len_looks_at_its_rows(builder.rows, rows, builder.rows.len());
        assert(rows[at] == row);
        let all = forall|i: int|
            0 <= i < rows.len() ==> #[trigger] answers(
                rows[i],
                builder.keys[i],
                builder.expected_frontier,
            );
        if answers(row, builder.keys[at], builder.expected_frontier) {
            assert forall|i: int| 0 <= i < rows.len() implies #[trigger] answers(
                rows[i],
                builder.keys[i],
                builder.expected_frontier,
            ) by {
                if i < at {
                    assert(answers(
                        builder.rows[i],
                        builder.keys[i],
                        builder.expected_frontier,
                    ));
                }
            }
        } else if all {
            assert(answers(rows[at], builder.keys[at], builder.expected_frontier));
        }
    }
}

} // verus!
