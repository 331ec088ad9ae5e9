//! What a migration stage scans, rewrites and is charged for.

use vstd::prelude::*;

use crate::bytes::bytes_before;
use crate::ids::Digest;
use crate::limits::MAX_STAGED_WRITE_BYTES;
use crate::migration::{
    batch_size, index_sizes, targets_ascend, targets_of, MigrationBatch, MigrationRowEvidence,
    MigrationRowMutation, MigrationScanCursor, MigrationScanPage, MigrationStageError,
};
use crate::records::{Charged, EntityTarget, StoredEntityRecordV1, StoredIndexEntryV2};

verus! {

/// What the first of some parts take together; none where one of them has no size.
pub open spec fn bytes_of(parts: Seq<Option<usize>>, count: nat) -> Option<nat>
    decreases count,
{
    if count == 0 || count > parts.len() {
        Some(0)
    } else {
        match (bytes_of(parts, (count - 1) as nat), parts[count - 1]) {
            (Some(before), Some(bytes)) => Some(before + bytes as nat),
            _ => None,
        }
    }
}

/// The charge of parts that are written together: what they take, if every one has a size
/// and four KiB of the staged write limit stay free for the journal.
pub open spec fn charge_of(parts: Seq<Option<usize>>) -> Result<usize, MigrationStageError> {
    match bytes_of(parts, parts.len()) {
        Some(total) if total + 4096 <= MAX_STAGED_WRITE_BYTES => Ok(total as usize),
        _ => Err(MigrationStageError::LimitExceeded),
    }
}

/// The sizes of index entries.
pub open spec fn entry_sizes(entries: Seq<Charged<StoredIndexEntryV2>>) -> Seq<Option<usize>> {
    entries.map_values(|entry: Charged<StoredIndexEntryV2>| entry.semantic_bytes)
}

proof fn entries_take_their_sizes(
    first: Seq<Option<usize>>,
    entries: Seq<Charged<StoredIndexEntryV2>>,
)
    ensures
        bytes_of(first + entry_sizes(entries), first.len() + entries.len()) == (match (
            bytes_of(first, first.len()),
            index_sizes(entries),
        ) {
            (Some(a), Some(b)) => Some((a + b) as nat),
            _ => None,
        }),
    decreases entries.len(),
{
    let parts = first + entry_sizes(entries);
    if entries.len() == 0 {
        assert(parts =~= first);
    } else {
        let less = first + entry_sizes(entries.drop_last());
        entries_take_their_sizes(first, entries.drop_last());
        leading_parts_take_the_same(parts, less, less.len());
        assert(parts[parts.len() - 1] == entries.last().semantic_bytes);
    }
}

proof fn leading_parts_take_the_same(
    a: Seq<Option<usize>>,
    b: Seq<Option<usize>>,
    count: nat,
)
    requires
        count <= a.len(),
        count <= b.len(),
        forall|i: int| 0 <= i < count ==> a[i] == b[i],
    ensures
        bytes_of(a, count) == bytes_of(b, count),
    decreases count,
{
    if count > 0 {
        leading_parts_take_the_same(a, b, (count - 1) as nat);
    }
}

/// Whether a row is the next version of another one, of the same type.
pub open spec fn is_next_version(row: StoredEntityRecordV1, next: StoredEntityRecordV1) -> bool {
    &&& row.target.entity_type_id.value == next.target.entity_type_id.value
    &&& row.entity_version.value < u64::MAX
    &&& next.entity_version.value == row.entity_version.value + 1
}

/// A row is replaced by its next version and by no other row. The replacement removes the
/// index entries of the row that it replaces, and is charged for that row, for the new one
/// and for the rebuilt entries.
pub proof fn replacements_remove_and_charge_the_predecessor(
    expected: MigrationRowEvidence,
    image: Charged<StoredEntityRecordV1>,
    rebuilt_indexes: Vec<Charged<StoredIndexEntryV2>>,
    result: Result<MigrationRowMutation, MigrationStageError>,
)
    requires
        call_ensures(MigrationRowMutation::new, (expected, Some(image), rebuilt_indexes), result),
    ensures
        if is_next_version(expected.source.record, image.record) {
            result matches Ok(mutation) && mutation.expected == expected && mutation.post_image
                == Some(image) && !mutation.retire_source && mutation.rebuilt_indexes
                == rebuilt_indexes && mutation.rewrites() && mutation.write_outcome() == charge_of(
                seq![expected.source.semantic_bytes, image.semantic_bytes] + entry_sizes(
                    rebuilt_indexes@,
                ),
            )
        } else {
            result == Err::<MigrationRowMutation, _>(MigrationStageError::Integrity)
        },
{
    let first = seq![expected.source.semantic_bytes, image.semantic_bytes];
    entries_take_their_sizes(first, rebuilt_indexes@);
    reveal_with_fuel(bytes_of, 3);
    assert(expected.source.record.target.entity_type_id.value
        == image.record.target.entity_type_id.value ==> expected.source.record.target.entity_type_id
        == image.record.target.entity_type_id);
}

/// A mutation without a new row rebuilds at least one index entry. It leaves the row and its
/// index entries alone, and is charged for the rebuilt entries and nothing else.
pub proof fn index_rebuilds_leave_the_row_alone(
    expected: MigrationRowEvidence,
    rebuilt_indexes: Vec<Charged<StoredIndexEntryV2>>,
    result: Result<MigrationRowMutation, MigrationStageError>,
)
    requires
        call_ensures(MigrationRowMutation::new, (expected, None, rebuilt_indexes), result),
    ensures
        if rebuilt_indexes@.len() > 0 {
            result matches Ok(mutation) && mutation.expected == expected && mutation.post_image
                is None && !mutation.retire_source && mutation.rebuilt_indexes == rebuilt_indexes
                && !mutation.rewrites() && mutation.write_outcome() == charge_of(
                entry_sizes(rebuilt_indexes@),
            )
        } else {
            result == Err::<MigrationRowMutation, _>(MigrationStageError::Integrity)
        },
{
    let first = Seq::<Option<usize>>::empty();
    entries_take_their_sizes(first, rebuilt_indexes@);
    assert(first + entry_sizes(rebuilt_indexes@) =~= entry_sizes(rebuilt_indexes@));
}

/// A retirement removes the row with its index entries, puts nothing in its place, and is
/// charged for the row that is kept aside.
pub proof fn retirements_remove_and_charge_the_row(
    expected: MigrationRowEvidence,
    mutation: MigrationRowMutation,
)
    requires
        call_ensures(MigrationRowMutation::retire, (expected,), mutation),
    ensures
        mutation.expected == expected,
        mutation.post_image is None,
        mutation.retire_source,
        mutation.rebuilt_indexes@.len() == 0,
        mutation.rewrites(),
        mutation.write_outcome() == charge_of(seq![expected.source.semantic_bytes]),
{
    reveal_with_fuel(bytes_of, 2);
}

/// The charges of mutations, none where a mutation has none.
pub open spec fn mutation_charges(mutations: Seq<MigrationRowMutation>) -> Seq<Option<usize>> {
    mutations.map_values(|mutation: MigrationRowMutation| mutation.write_outcome().ok())
}

proof fn batches_take_their_mutations(mutations: Seq<MigrationRowMutation>)
    ensures
        bytes_of(mutation_charges(mutations), mutations.len()) == batch_size(mutations),
    decreases mutations.len(),
{
    if mutations.len() > 0 {
        let less = mutations.drop_last();
        batches_take_their_mutations(less);
        leading_parts_take_the_same(
            mutation_charges(mutations),
            mutation_charges(less),
            less.len(),
        );
    }
}

/// A batch holds at most 64 mutations, changes no more rows than were checked, and what its
/// mutations are charged together leaves room for the journal. Everything that keeps this is
/// a batch of just these mutations, this cursor and these counts.
pub proof fn batches_are_bounded_by_their_charges(
    migration: Digest,
    mutations: Vec<MigrationRowMutation>,
    checked_through: MigrationScanCursor,
    checked_rows: u64,
    changed_rows: u64,
    result: Result<MigrationBatch, MigrationStageError>,
)
    requires
        call_ensures(
            MigrationBatch::new,
            (migration, mutations, checked_through, checked_rows, changed_rows),
            result,
        ),
    ensures
        if mutations@.len() <= 64 && changed_rows <= checked_rows && charge_of(
            mutation_charges(mutations@),
        ) is Ok {
            result matches Ok(batch) && batch.migration == migration && batch.mutations == mutations
                && batch.checked_through == checked_through && batch.checked_rows == checked_rows
                && batch.changed_rows == changed_rows
        } else {
            result == Err::<MigrationBatch, _>(MigrationStageError::LimitExceeded)
        },
{
    batches_take_their_mutations(mutations@);
}

/// Whether one row comes before another: by the number of its type, then by its key.
pub open spec fn row_precedes(a: EntityTarget, b: EntityTarget) -> bool {
    if a.entity_type_id.value == b.entity_type_id.value {
        bytes_before(a.key@, b.key@)
    } else {
        a.entity_type_id.value < b.entity_type_id.value
    }
}

/// Rows are ordered by the number of their type, then by their key.
pub proof fn targets_stand_by_type_and_key(a: EntityTarget, b: EntityTarget)
    ensures
        a@.before(b@) <==> row_precedes(a, b),
        a@ == b@ <==> a.entity_type_id.value == b.entity_type_id.value && a.key@ == b.key@,
{
    assert(a.entity_type_id.value == b.entity_type_id.value ==> a.entity_type_id
        == b.entity_type_id);
}

/// Whether rows stand in order, without repetition.
pub open spec fn rows_in_order(rows: Seq<StoredEntityRecordV1>) -> bool {
    forall|i: int, j: int|
        0 <= i < j < rows.len() ==> row_precedes(
            (#[trigger] rows[i]).target,
            (#[trigger] rows[j]).target,
        )
}

proof fn ascending_rows_precede(rows: Seq<StoredEntityRecordV1>, i: int, j: int)
    requires
        targets_ascend(targets_of(rows)),
        0 <= i < j < rows.len(),
    ensures
        row_precedes(rows[i].target, rows[j].target),
    decreases j - i,
{
    let targets = targets_of(rows);
    assert(targets[j - 1].before(targets[j - 1 + 1]));
    targets_stand_by_type_and_key(rows[j - 1].target, rows[j].target);
    if i + 1 < j {
        ascending_rows_precede(rows, i, j - 1);
        if rows[i].target.entity_type_id.value == rows[j - 1].target.entity_type_id.value
            && rows[j - 1].target.entity_type_id.value == rows[j].target.entity_type_id.value {
            crate::bytes::bytes_before_transitive(
                rows[i].target.key@,
                rows[j - 1].target.key@,
                rows[j].target.key@,
            );
        }
    }
}

/// A scan page holds at most 256 rows in order, and a cursor that goes on stands at the last
/// of them. Every such list of rows is a page, as it is.
pub proof fn scan_pages_go_on_after_their_last_row(
    rows: Vec<StoredEntityRecordV1>,
    next: Option<MigrationScanCursor>,
    result: Result<MigrationScanPage, MigrationStageError>,
)
    requires
        call_ensures(MigrationScanPage::new, (rows, next), result),
    ensures
        if rows@.len() <= 256 && rows_in_order(rows@) && (next matches Some(cursor) ==> rows@.len()
            > 0 && (cursor.bound matches Some(target) && target.entity_type_id.value
            == rows@.last().target.entity_type_id.value && target.key@
            == rows@.last().target.key@)) {
            result matches Ok(page) && page.rows == rows && page.next == next
        } else {
            result == Err::<MigrationScanPage, _>(MigrationStageError::LimitExceeded)
        },
{
    let targets = targets_of(rows@);
    if targets_ascend(targets) {
        assert forall|i: int, j: int| 0 <= i < j < rows@.len() implies row_precedes(
            (#[trigger] rows@[i]).target,
            (#[trigger] rows@[j]).target,
        ) by {
            ascending_rows_precede(rows@, i, j);
        }
    }
    if rows_in_order(rows@) {
        assert forall|i: int| 0 <= i < targets.len() - 1 implies (#[trigger] targets[i]).before(
            targets[i + 1],
        ) by {
            assert(row_precedes(rows@[i].target, rows@[i + 1].target));
            targets_stand_by_type_and_key(rows@[i].target, rows@[i + 1].target);
        }
    }
    if let Some(cursor) = next {
        if let Some(target) = cursor.bound {
            if rows@.len() > 0 {
                targets_stand_by_type_and_key(target, rows@.last().target);
            }
        }
    }
}

} // verus!
