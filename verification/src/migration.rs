//! Rules of a private contract-migration stage.

use vstd::prelude::*;

use crate::bytes::copy_bytes;
use crate::functions::{hash_gives, hash_is_function};
use crate::ids::{
    AdministrationSequence, CommitSequence, Digest, EntityTypeId, IndexId, ProjectionId,
};
use crate::limits::MAX_STAGED_WRITE_BYTES;
use crate::records::{
    Charged, EntityRecordView, EntityTarget, EntityTargetView, StoredContractBundleV1,
    StoredEntityRecordV1, StoredIndexEntryV2,
};
use crate::stored::contract_migration::ContractMigrationJournalStepV1;

verus! {

/// Maximum authoritative rows returned by one migration scan.
pub const MAX_MIGRATION_SCAN_ROWS: usize = 256;

/// Maximum authoritative row mutations in one atomic migration batch.
pub const MAX_MIGRATION_BATCH_MUTATIONS: usize = 64;

/// Conservative journal and envelope reservation inside the write ceiling.
pub const MIGRATION_BATCH_JOURNAL_RESERVE_BYTES: usize = 4 * 1_024;

/// Maximum semantic row and index bytes admitted before the reservation.
pub const MAX_MIGRATION_BATCH_WRITE_BYTES: usize = MAX_STAGED_WRITE_BYTES
    - MIGRATION_BATCH_JOURNAL_RESERVE_BYTES;

/// Closed failures from a private migration stage.
#[derive(Clone, Copy, Debug, PartialEq, Eq, Structural)]
pub enum MigrationStageError {
    /// A fixed page, batch, byte, or count bound was exceeded.
    LimitExceeded,
    /// Transaction-current source evidence no longer matched.
    RowChanged,
    /// Artifact, journal, catalog, or stage state was inconsistent.
    Integrity,
    /// A required relationship target is absent.
    RelationshipMissing(EntityTypeId),
    /// A successor unique key collides.
    UniqueConflict {
        /// Entity whose successor unique key collides.
        entity: EntityTypeId,
        /// Backing successor index identity.
        index: IndexId,
    },
    /// The final administration sequence cannot be assigned.
    SequenceExhausted,
    /// An unresolved predecessor admission would be stranded by cutover.
    PendingAdmission,
}

impl MigrationStageError {
    /// The failure as safe text, the same for every failure.
    pub fn message(self) -> (result: &'static str)
        ensures
            result@ == "private migration stage operation failed"@,
    {
        "private migration stage operation failed"
    }
}

/// Exclusive ordered cursor following the last row already inspected.
#[derive(Debug, PartialEq, Eq, PartialOrd, Ord)]
pub struct MigrationScanCursor {
    pub bound: Option<EntityTarget>,
}

impl View for MigrationScanCursor {
    type V = Option<EntityTargetView>;

    open spec fn view(&self) -> Option<EntityTargetView> {
        match self.bound {
            Some(target) => Some(target@),
            None => None,
        }
    }
}

impl Clone for MigrationScanCursor {
    fn clone(&self) -> (result: MigrationScanCursor)
        ensures
            result@ == self@,
    {
        match &self.bound {
            Some(target) => MigrationScanCursor { bound: Some(target.clone()) },
            None => MigrationScanCursor { bound: None },
        }
    }
}

impl Default for MigrationScanCursor {
    fn default() -> (result: MigrationScanCursor)
        ensures
            result@ == None::<EntityTargetView>,
    {
        MigrationScanCursor { bound: None }
    }
}

impl MigrationScanCursor {
    /// Starts before the first canonical entity target.
    pub fn start() -> (result: Self)
        ensures
            result@ == None::<EntityTargetView>,
    {
        MigrationScanCursor { bound: None }
    }

    /// Starts after an exact canonical entity target.
    pub fn after(target: EntityTarget) -> (result: Self)
        ensures
            result@ == Some(target@),
    {
        MigrationScanCursor { bound: Some(target) }
    }

    /// Borrows the exclusive lower bound, if any.
    pub fn exclusive_lower_bound(&self) -> (result: Option<&EntityTarget>)
        ensures
            match result {
                Some(target) => self@ == Some(target@),
                None => self@ is None,
            },
    {
        match &self.bound {
            Some(target) => Some(target),
            None => None,
        }
    }

    /// Whether this cursor stands before another one.
    pub fn is_before(&self, other: &MigrationScanCursor) -> (result: bool)
        ensures
            result == cursor_before(self@, other@),
    {
        match (&self.bound, &other.bound) {
            (None, Some(_)) => true,
            (Some(target), Some(other)) => target.is_before(other),
            _ => false,
        }
    }
}

/// The order of cursors: the start, then cursors in the order of their targets.
pub open spec fn cursor_before(a: Option<EntityTargetView>, b: Option<EntityTargetView>) -> bool {
    match (a, b) {
        (None, Some(_)) => true,
        (Some(a), Some(b)) => a.before(b),
        _ => false,
    }
}

/// The start stands before every other cursor, and is the only one that has no
/// lower bound.
pub proof fn the_start_comes_first(cursor: Option<EntityTargetView>)
    ensures
        None::<EntityTargetView> == cursor || cursor_before(None, cursor),
        !cursor_before(cursor, None),
        None::<EntityTargetView> == cursor <==> cursor is None,
{
}

/// Cursors follow the start and stand in the order of their targets, of which one
/// is always before the other unless they are the same.
pub proof fn cursors_follow_their_targets(a: EntityTargetView, b: EntityTargetView)
    ensures
        cursor_before(None, Some(a)),
        a.before(b) <==> cursor_before(Some(a), Some(b)),
        cursor_before(Some(a), Some(b)) || a == b || cursor_before(Some(b), Some(a)),
        !(cursor_before(Some(a), Some(b)) && cursor_before(Some(b), Some(a))),
        !cursor_before(Some(a), Some(a)),
{
    crate::bytes::bytes_before_total(a.key, b.key);
    crate::bytes::bytes_before_irreflexive(a.key);
    assert(a.entity_type_id.value == b.entity_type_id.value ==> a.entity_type_id
        == b.entity_type_id);
}

/// The order of cursors carries on.
pub proof fn cursor_order_is_transitive(
    a: Option<EntityTargetView>,
    b: Option<EntityTargetView>,
    c: Option<EntityTargetView>,
)
    requires
        cursor_before(a, b),
        cursor_before(b, c),
    ensures
        cursor_before(a, c),
{
    match (a, b, c) {
        (Some(a), Some(b), Some(c)) => {
            target_order_transitive(a, b, c);
        },
        _ => {},
    }
}

/// Semantic state advanced atomically with migration batches.
#[derive(Clone, Debug, PartialEq, Eq)]
pub struct MigrationJournalState {
    pub migration: Digest,
    pub checked_through: MigrationScanCursor,
    pub checked_rows: u64,
    pub changed_rows: u64,
    pub batch_count: u64,
    pub complete: bool,
}

impl MigrationJournalState {
    /// No more rows are changed than checked, in at least one batch.
    pub open spec fn wf(self) -> bool {
        self.changed_rows <= self.checked_rows && self.batch_count > 0
    }

    /// Constructs a checked nonterminal journal post-image.
    pub fn new(
        migration: Digest,
        checked_through: MigrationScanCursor,
        checked_rows: u64,
        changed_rows: u64,
        batch_count: u64,
    ) -> (result: Result<Self, MigrationStageError>)
        ensures
            result == if checked_rows < changed_rows || batch_count == 0 {
                Err::<Self, MigrationStageError>(MigrationStageError::Integrity)
            } else {
                Ok(
                    MigrationJournalState {
                        migration,
                        checked_through,
                        checked_rows,
                        changed_rows,
                        batch_count,
                        complete: false,
                    },
                )
            },
            result matches Ok(state) ==> state.wf(),
    {
        if checked_rows < changed_rows || batch_count == 0 {
            return Err(MigrationStageError::Integrity);
        }
        Ok(
            MigrationJournalState {
                migration,
                checked_through,
                checked_rows,
                changed_rows,
                batch_count,
                complete: false,
            },
        )
    }

    /// Returns the exact migration identity.
    pub fn migration(&self) -> (result: Digest)
        ensures
            result == self.migration,
    {
        self.migration
    }

    /// Borrows the exclusive scan cursor committed with the latest batch.
    pub fn checked_through(&self) -> (result: &MigrationScanCursor)
        ensures
            *result == self.checked_through,
    {
        &self.checked_through
    }

    /// Returns cumulative checked rows.
    pub fn checked_rows(&self) -> (result: u64)
        ensures
            result == self.checked_rows,
    {
        self.checked_rows
    }

    /// Returns cumulative entity post-images changed.
    pub fn changed_rows(&self) -> (result: u64)
        ensures
            result == self.changed_rows,
    {
        self.changed_rows
    }

    /// Returns committed atomic batch count.
    pub fn batch_count(&self) -> (result: u64)
        ensures
            result == self.batch_count,
    {
        self.batch_count
    }

    /// Returns whether successful final cutover completed.
    pub fn is_complete(&self) -> (result: bool)
        ensures
            result == self.complete,
    {
        self.complete
    }

    /// Marks this exact stage journal complete at successful cutover: once.
    pub fn mark_complete(&mut self) -> (result: Result<(), MigrationStageError>)
        ensures
            result == if old(self).complete {
                Err::<(), MigrationStageError>(MigrationStageError::Integrity)
            } else {
                Ok(())
            },
            *final(self) == (MigrationJournalState { complete: true, ..*old(self) }),
    {
        if self.complete {
            return Err(MigrationStageError::Integrity);
        }
        self.complete = true;
        Ok(())
    }
}

/// Permanent evidence installed by successful final cutover.
#[derive(Clone, Copy, Debug, PartialEq, Eq)]
pub struct MigrationRecordEvidence {
    pub parent: Digest,
    pub candidate: Digest,
    pub migration: Digest,
    pub administration_sequence: AdministrationSequence,
}

impl MigrationRecordEvidence {
    /// Constructs exact final-cutover evidence.
    pub fn new(
        parent: Digest,
        candidate: Digest,
        migration: Digest,
        administration_sequence: AdministrationSequence,
    ) -> (result: Self)
        ensures
            result == (MigrationRecordEvidence {
                parent,
                candidate,
                migration,
                administration_sequence,
            }),
    {
        MigrationRecordEvidence { parent, candidate, migration, administration_sequence }
    }

    /// Returns the exact predecessor bundle hash.
    pub fn parent(self) -> (result: Digest)
        ensures
            result == self.parent,
    {
        self.parent
    }

    /// Returns the exact activated successor bundle hash.
    pub fn candidate(self) -> (result: Digest)
        ensures
            result == self.candidate,
    {
        self.candidate
    }

    /// Returns the exact migration artifact hash.
    pub fn migration(self) -> (result: Digest)
        ensures
            result == self.migration,
    {
        self.migration
    }

    /// Returns the sole administration sequence assigned at cutover.
    pub fn administration_sequence(self) -> (result: AdministrationSequence)
        ensures
            result == self.administration_sequence,
    {
        self.administration_sequence
    }
}

/// The targets of rows.
pub open spec fn targets_of(rows: Seq<StoredEntityRecordV1>) -> Seq<EntityTargetView> {
    Seq::new(rows.len(), |i: int| rows[i].target@)
}

/// Each target comes before the next one.
pub open spec fn targets_ascend(targets: Seq<EntityTargetView>) -> bool {
    forall|i: int|
        0 <= i < targets.len() - 1 ==> (#[trigger] targets[i]).before(targets[i + 1])
}

/// Whether rows and cursor form a page: bounded, in order, and a next cursor
/// stands exactly behind the last row.
pub open spec fn scan_page_accepted(
    targets: Seq<EntityTargetView>,
    next: Option<Option<EntityTargetView>>,
) -> bool {
    &&& targets.len() <= MAX_MIGRATION_SCAN_ROWS
    &&& targets_ascend(targets)
    &&& next matches Some(cursor) ==> targets.len() > 0 && cursor == Some(targets.last())
}

/// The view of an optional cursor.
pub open spec fn cursor_view(cursor: Option<MigrationScanCursor>) -> Option<
    Option<EntityTargetView>,
> {
    match cursor {
        Some(cursor) => Some(cursor@),
        None => None,
    }
}

fn rows_ascend(rows: &[StoredEntityRecordV1]) -> (result: bool)
    ensures
        result == targets_ascend(targets_of(rows@)),
{
    let ghost targets = targets_of(rows@);
    let mut i: usize = 1;
    while i < rows.len()
        invariant
            1 <= i,
            i <= rows@.len() || i == 1,
            targets == targets_of(rows@),
            forall|k: int| 0 <= k < i - 1 ==> (#[trigger] targets[k]).before(targets[k + 1]),
        decreases rows@.len() - i,
    {
        if !rows[i - 1].target().is_before(rows[i].target()) {
            assert(!targets[i - 1].before(targets[i - 1 + 1]));
            return false;
        }
        assert(targets[i - 1].before(targets[i as int]));
        i += 1;
    }
    true
}

/// One bounded ordered page from the private staged database.
#[derive(Clone, PartialEq, Eq)]
pub struct MigrationScanPage {
    pub rows: Vec<StoredEntityRecordV1>,
    pub next: Option<MigrationScanCursor>,
}

/// What making a scan page gives.
pub open spec fn scan_page_made(
    rows: Vec<StoredEntityRecordV1>,
    next: Option<MigrationScanCursor>,
    result: Result<MigrationScanPage, MigrationStageError>,
) -> bool {
    result == if scan_page_accepted(targets_of(rows@), cursor_view(next)) {
        Ok::<MigrationScanPage, MigrationStageError>(MigrationScanPage { rows, next })
    } else {
        Err(MigrationStageError::LimitExceeded)
    }
}

impl MigrationScanPage {
    /// Constructs a page while enforcing its fixed row bound.
    pub fn new(
        rows: Vec<StoredEntityRecordV1>,
        next: Option<MigrationScanCursor>,
    ) -> (result: Result<Self, MigrationStageError>)
        ensures
            scan_page_made(rows, next, result),
    {
        let cursor_ok = match &next {
            None => true,
            Some(cursor) => if rows.len() == 0 {
                false
            } else {
                match cursor.exclusive_lower_bound() {
                    Some(target) => {
                        assert(targets_of(rows@).last() == rows@[rows@.len() - 1].target@);
                        target.same(rows[rows.len() - 1].target())
                    },
                    None => false,
                }
            },
        };
        if rows.len() > MAX_MIGRATION_SCAN_ROWS || !rows_ascend(&rows) || !cursor_ok {
            return Err(MigrationStageError::LimitExceeded);
        }
        Ok(MigrationScanPage { rows, next })
    }

    /// Borrows rows in canonical target order.
    pub fn rows(&self) -> (result: &[StoredEntityRecordV1])
        ensures
            result@ == self.rows@,
    {
        self.rows.as_slice()
    }

    /// Borrows the next exclusive cursor, or returns exact end.
    pub fn next(&self) -> (result: Option<&MigrationScanCursor>)
        ensures
            match result {
                Some(cursor) => cursor_view(self.next) == Some(cursor@),
                None => self.next is None,
            },
    {
        match &self.next {
            Some(cursor) => Some(cursor),
            None => None,
        }
    }
}

/// Rows of an accepted page are in strict order throughout, and the cursor that
/// goes on excludes every one of them.
pub proof fn scan_pages_move_forward(
    targets: Seq<EntityTargetView>,
    next: Option<Option<EntityTargetView>>,
    i: int,
    j: int,
)
    requires
        scan_page_accepted(targets, next),
        0 <= i < j < targets.len(),
    ensures
        targets[i].before(targets[j]),
        next matches Some(Some(cursor)) ==> targets[i].before(cursor),
    decreases j - i,
{
    if i + 1 < j {
        scan_pages_move_forward(targets, next, i, j - 1);
        target_order_transitive(targets[i], targets[j - 1], targets[j - 1 + 1]);
    }
    if j < targets.len() - 1 {
        scan_pages_reach_the_end(targets, next, i);
    }
}

proof fn scan_pages_reach_the_end(
    targets: Seq<EntityTargetView>,
    next: Option<Option<EntityTargetView>>,
    i: int,
)
    requires
        scan_page_accepted(targets, next),
        0 <= i < targets.len() - 1,
    ensures
        targets[i].before(targets.last()),
    decreases targets.len() - i,
{
    if i + 1 < targets.len() - 1 {
        scan_pages_reach_the_end(targets, next, i + 1);
        target_order_transitive(targets[i], targets[i + 1], targets.last());
    }
}

proof fn target_order_transitive(a: EntityTargetView, b: EntityTargetView, c: EntityTargetView)
    requires
        a.before(b),
        b.before(c),
    ensures
        a.before(c),
{
    if a.entity_type_id == b.entity_type_id && b.entity_type_id == c.entity_type_id {
        crate::bytes::bytes_before_transitive(a.key, b.key, c.key);
    }
}

/// Exact transaction-current evidence for one migration source row.
///
/// The hash is that of the row's encoded fields.
#[derive(Clone, PartialEq, Eq)]
pub struct MigrationRowEvidence {
    pub source: Charged<StoredEntityRecordV1>,
    pub fields_hash: Digest,
}

impl MigrationRowEvidence {
    /// Seals the exact row and the hash of its encoded fields.
    pub fn from_source<H: Fn(Vec<u8>) -> Digest>(
        source: Charged<StoredEntityRecordV1>,
        hash: H,
    ) -> (result: Self)
        requires
            forall|preimage: Vec<u8>| #[trigger] hash.requires((preimage,)),
        ensures
            result.source == source,
            evidence_sealed(hash, result),
    {
        let preimage = copy_bytes(&source.record.fields.encoded);
        let fields_hash = hash(preimage);
        assert(hash.ensures((preimage,), fields_hash));
        MigrationRowEvidence { source, fields_hash }
    }

    /// Borrows the complete source row evidence.
    pub fn source(&self) -> (result: &StoredEntityRecordV1)
        ensures
            *result == self.source.record,
    {
        &self.source.record
    }

    /// Returns the canonical source-fields hash.
    pub fn fields_hash(&self) -> (result: Digest)
        ensures
            result == self.fields_hash,
    {
        self.fields_hash
    }

    /// Rechecks a transaction-current row and its hash against all sealed evidence.
    pub fn matches<H: Fn(Vec<u8>) -> Digest>(
        &self,
        current: &StoredEntityRecordV1,
        hash: H,
    ) -> (result: bool)
        requires
            forall|preimage: Vec<u8>| #[trigger] hash.requires((preimage,)),
        ensures
            evidence_matches(hash, *self, current@, result),
    {
        let preimage = copy_bytes(&current.fields.encoded);
        let current_hash = hash(preimage);
        assert(hash.ensures((preimage,), current_hash));
        assert(hash_gives(hash, current@.fields.encoded, current_hash));
        self.source.record.same(current) && self.fields_hash.same(&current_hash)
    }
}

/// Whether evidence holds the hash of its row's encoded fields.
pub open spec fn evidence_sealed<H: Fn(Vec<u8>) -> Digest>(
    hash: H,
    evidence: MigrationRowEvidence,
) -> bool {
    hash_gives(hash, evidence.source.record@.fields.encoded, evidence.fields_hash)
}

/// What rechecking a current row comes to: it has to be the sealed row, and the hash
/// of its encoded fields the sealed one.
pub open spec fn evidence_matches<H: Fn(Vec<u8>) -> Digest>(
    hash: H,
    evidence: MigrationRowEvidence,
    current: EntityRecordView,
    result: bool,
) -> bool {
    exists|current_hash: Digest| #[trigger]
        hash_gives(hash, current.fields.encoded, current_hash) && result == (
        evidence.source.record@ == current && evidence.fields_hash == current_hash)
}

/// Evidence that was sealed matches its own row and no other, for a hash that gives
/// one digest for equal bytes.
pub proof fn sealed_evidence_matches_its_row<H: Fn(Vec<u8>) -> Digest>(
    hash: H,
    evidence: MigrationRowEvidence,
    current: EntityRecordView,
    result: bool,
)
    requires
        hash_is_function(hash),
        evidence_sealed(hash, evidence),
        evidence_matches(hash, evidence, current, result),
    ensures
        result == (evidence.source.record@ == current),
{
}

/// One coordinator-prepared authoritative row and index transition.
#[derive(Clone, PartialEq, Eq)]
pub struct MigrationRowMutation {
    pub expected: MigrationRowEvidence,
    pub post_image: Option<Charged<StoredEntityRecordV1>>,
    pub retire_source: bool,
    pub rebuilt_indexes: Vec<Charged<StoredIndexEntryV2>>,
}

/// Whether a post-image is the next version of a source row of the same type.
pub open spec fn succeeds(source: EntityRecordView, post_image: EntityRecordView) -> bool {
    source.target.entity_type_id == post_image.target.entity_type_id
        && post_image.entity_version.value == source.entity_version.value + 1
}

/// The semantic sizes of index entries together, and whether each one fits.
pub open spec fn index_sizes(entries: Seq<Charged<StoredIndexEntryV2>>) -> Option<nat>
    decreases entries.len(),
{
    if entries.len() == 0 {
        Some(0)
    } else {
        match (index_sizes(entries.drop_last()), entries.last().semantic_bytes) {
            (Some(total), Some(bytes)) => Some(total + bytes as nat),
            _ => None,
        }
    }
}

/// What asking for a row mutation gives.
pub open spec fn mutation_made(
    expected: MigrationRowEvidence,
    post_image: Option<Charged<StoredEntityRecordV1>>,
    rebuilt_indexes: Vec<Charged<StoredIndexEntryV2>>,
    result: Result<MigrationRowMutation, MigrationStageError>,
) -> bool {
    ({
        let accepted = match post_image {
            Some(image) => succeeds(expected.source.record@, image.record@),
            None => rebuilt_indexes@.len() > 0,
        };
        result == if accepted {
            Ok::<MigrationRowMutation, MigrationStageError>(
                MigrationRowMutation {
                    expected,
                    post_image,
                    retire_source: false,
                    rebuilt_indexes,
                },
            )
        } else {
            Err(MigrationStageError::Integrity)
        }
    })
}

/// What asking for a retirement gives.
pub open spec fn retirement_made(
    expected: MigrationRowEvidence,
    result: MigrationRowMutation,
) -> bool {
    &&& result.expected == expected
    &&& result.post_image is None
    &&& result.retire_source
    &&& result.rebuilt_indexes@.len() == 0
}

impl MigrationRowMutation {
    /// A replacement or a retirement rewrites the source row.
    pub open spec fn rewrites(self) -> bool {
        self.post_image is Some || self.retire_source
    }

    /// What the mutation writes: the post-image, the retained predecessor and
    /// the rebuilt indexes, if all their sizes fit.
    pub open spec fn write_size(self) -> Option<nat> {
        let post_image = match self.post_image {
            Some(image) => image.semantic_bytes,
            None => Some(0usize),
        };
        let predecessor = if self.rewrites() {
            self.expected.source.semantic_bytes
        } else {
            Some(0usize)
        };
        match (post_image, predecessor, index_sizes(self.rebuilt_indexes@)) {
            (Some(a), Some(b), Some(c)) => Some(a as nat + b as nat + c),
            _ => None,
        }
    }

    /// The write charge, where there is one within the bound.
    pub open spec fn write_outcome(self) -> Result<usize, MigrationStageError> {
        match self.write_size() {
            Some(total) => if total <= MAX_MIGRATION_BATCH_WRITE_BYTES {
                Ok(total as usize)
            } else {
                Err(MigrationStageError::LimitExceeded)
            },
            None => Err(MigrationStageError::LimitExceeded),
        }
    }

    /// Constructs an exact mutation whose target and version transition agree.
    pub fn new(
        expected: MigrationRowEvidence,
        post_image: Option<Charged<StoredEntityRecordV1>>,
        rebuilt_indexes: Vec<Charged<StoredIndexEntryV2>>,
    ) -> (result: Result<Self, MigrationStageError>)
        ensures
            mutation_made(expected, post_image, rebuilt_indexes, result),
    {
        let accepted = match &post_image {
            Some(image) => {
                let source = expected.source();
                let next = match source.entity_version().checked_next() {
                    Some(next) => next == image.record.entity_version(),
                    None => false,
                };
                source.target().entity_type_id == image.record.target().entity_type_id && next
            },
            None => rebuilt_indexes.len() > 0,
        };
        if !accepted {
            return Err(MigrationStageError::Integrity);
        }
        Ok(MigrationRowMutation { expected, post_image, retire_source: false, rebuilt_indexes })
    }

    /// Constructs a logical retirement that archives and removes the authoritative row.
    pub fn retire(expected: MigrationRowEvidence) -> (result: Self)
        ensures
            retirement_made(expected, result),
    {
        MigrationRowMutation {
            expected,
            post_image: None,
            retire_source: true,
            rebuilt_indexes: Vec::new(),
        }
    }

    /// Borrows exact source evidence.
    pub fn expected(&self) -> (result: &MigrationRowEvidence)
        ensures
            *result == self.expected,
    {
        &self.expected
    }

    /// Borrows the complete successor-bound entity post-image.
    pub fn post_image(&self) -> (result: Option<&StoredEntityRecordV1>)
        ensures
            match result {
                Some(image) => self.post_image matches Some(held) && held.record == *image,
                None => self.post_image is None,
            },
    {
        match &self.post_image {
            Some(image) => Some(&image.record),
            None => None,
        }
    }

    /// Whether the source row is archived and removed instead of replaced.
    pub fn retires_source(&self) -> (result: bool)
        ensures
            result == self.retire_source,
    {
        self.retire_source
    }

    /// Whether every predecessor index entry for the source target is removed.
    pub fn removes_source_indexes(&self) -> (result: bool)
        ensures
            result == self.rewrites(),
    {
        self.post_image.is_some() || self.retire_source
    }

    /// Borrows complete successor index post-images.
    pub fn rebuilt_indexes(&self) -> (result: &[Charged<StoredIndexEntryV2>])
        ensures
            result@ == self.rebuilt_indexes@,
    {
        self.rebuilt_indexes.as_slice()
    }

    /// Returns the checked semantic write charge used by bounded batch packing.
    pub fn semantic_write_bytes(&self) -> (result: Result<usize, MigrationStageError>)
        ensures
            result == self.write_outcome(),
    {
        let post_image_bytes = match &self.post_image {
            Some(image) => match image.semantic_bytes {
                Some(bytes) => bytes,
                None => {
                    return Err(MigrationStageError::LimitExceeded);
                },
            },
            None => 0,
        };
        let predecessor_bytes = if self.removes_source_indexes() {
            match self.expected.source.semantic_bytes {
                Some(bytes) => bytes,
                None => {
                    return Err(MigrationStageError::LimitExceeded);
                },
            }
        } else {
            0
        };
        let mut total = match post_image_bytes.checked_add(predecessor_bytes) {
            Some(total) => total,
            None => {
                return Err(MigrationStageError::LimitExceeded);
            },
        };
        if total > MAX_MIGRATION_BATCH_WRITE_BYTES {
            return Err(MigrationStageError::LimitExceeded);
        }
        let ghost entity_bytes = total as nat;
        let ghost entries = self.rebuilt_indexes@;
        let mut i: usize = 0;
        while i < self.rebuilt_indexes.len()
            invariant
                i <= self.rebuilt_indexes@.len(),
                entries == self.rebuilt_indexes@,
                index_sizes(entries.take(i as int)) is Some,
                total == entity_bytes + index_sizes(entries.take(i as int))->Some_0,
                total <= MAX_MIGRATION_BATCH_WRITE_BYTES,
                self.write_size() == match index_sizes(entries) {
                    Some(rest) => Some(entity_bytes + rest),
                    None => None,
                },
            decreases self.rebuilt_indexes@.len() - i,
        {
            proof {
                assert(entries.take(i as int + 1).drop_last() =~= entries.take(i as int));
                leading_index_sizes(entries, i as int + 1);
            }
            let bytes = match self.rebuilt_indexes[i].semantic_bytes {
                Some(bytes) => bytes,
                None => {
                    return Err(MigrationStageError::LimitExceeded);
                },
            };
            total =
            match total.checked_add(bytes) {
                Some(next) => next,
                None => {
                    return Err(MigrationStageError::LimitExceeded);
                },
            };
            if total > MAX_MIGRATION_BATCH_WRITE_BYTES {
                return Err(MigrationStageError::LimitExceeded);
            }
            i += 1;
        }
        assert(entries.take(i as int) =~= entries);
        Ok(total)
    }
}

proof fn leading_index_sizes(entries: Seq<Charged<StoredIndexEntryV2>>, count: int)
    requires
        0 <= count <= entries.len(),
    ensures
        index_sizes(entries) matches Some(total) ==> (index_sizes(entries.take(count)) matches Some(
            part,
        ) && part <= total),
    decreases entries.len() - count,
{
    if count == entries.len() {
        assert(entries.take(count) =~= entries);
    } else {
        leading_index_sizes(entries, count + 1);
        assert(entries.take(count + 1).drop_last() =~= entries.take(count));
    }
}

/// The write charges of mutations together, where each one has one.
pub open spec fn batch_size(mutations: Seq<MigrationRowMutation>) -> Option<nat>
    decreases mutations.len(),
{
    if mutations.len() == 0 {
        Some(0)
    } else {
        match (batch_size(mutations.drop_last()), mutations.last().write_outcome()) {
            (Some(total), Ok(bytes)) => Some(total + bytes as nat),
            _ => None,
        }
    }
}

proof fn leading_batch_size(mutations: Seq<MigrationRowMutation>, count: int)
    requires
        0 <= count <= mutations.len(),
    ensures
        batch_size(mutations) matches Some(total)
            ==> (batch_size(mutations.take(count)) matches Some(
            part,
        ) && part <= total),
    decreases mutations.len() - count,
{
    if count == mutations.len() {
        assert(mutations.take(count) =~= mutations);
    } else {
        leading_batch_size(mutations, count + 1);
        assert(mutations.take(count + 1).drop_last() =~= mutations.take(count));
    }
}

/// One bounded batch applied atomically with journal advancement.
pub struct MigrationBatch {
    pub migration: Digest,
    pub mutations: Vec<MigrationRowMutation>,
    pub checked_through: MigrationScanCursor,
    pub checked_rows: u64,
    pub changed_rows: u64,
}

/// What making a batch gives.
pub open spec fn batch_made(
    migration: Digest,
    mutations: Vec<MigrationRowMutation>,
    checked_through: MigrationScanCursor,
    checked_rows: u64,
    changed_rows: u64,
    result: Result<MigrationBatch, MigrationStageError>,
) -> bool {
    result == if mutations@.len() <= MAX_MIGRATION_BATCH_MUTATIONS && changed_rows
        <= checked_rows && (batch_size(mutations@) matches Some(total) && total
        <= MAX_MIGRATION_BATCH_WRITE_BYTES) {
        Ok::<MigrationBatch, MigrationStageError>(
            MigrationBatch {
                migration,
                mutations,
                checked_through,
                checked_rows,
                changed_rows,
            },
        )
    } else {
        Err(MigrationStageError::LimitExceeded)
    }
}

impl MigrationBatch {
    /// Constructs a bounded coordinator batch. An empty mutation set may
    /// advance the journal across a checked page containing unchanged rows.
    pub fn new(
        migration: Digest,
        mutations: Vec<MigrationRowMutation>,
        checked_through: MigrationScanCursor,
        checked_rows: u64,
        changed_rows: u64,
    ) -> (result: Result<Self, MigrationStageError>)
        ensures
            batch_made(migration, mutations, checked_through, checked_rows, changed_rows, result),
    {
        if mutations.len() > MAX_MIGRATION_BATCH_MUTATIONS || checked_rows < changed_rows {
            return Err(MigrationStageError::LimitExceeded);
        }
        let mut total: usize = 0;
        let mut i: usize = 0;
        #[verifier::loop_isolation(false)]
        while i < mutations.len()
            invariant
                i <= mutations@.len(),
                batch_size(mutations@.take(i as int)) == Some(total as nat),
                total <= MAX_MIGRATION_BATCH_WRITE_BYTES,
            decreases mutations@.len() - i,
        {
            proof {
                assert(mutations@.take(i as int + 1).drop_last() =~= mutations@.take(i as int));
                leading_batch_size(mutations@, i as int + 1);
            }
            let bytes = match mutations[i].semantic_write_bytes() {
                Ok(bytes) => bytes,
                Err(error) => {
                    return Err(error);
                },
            };
            total =
            match total.checked_add(bytes) {
                Some(next) => next,
                None => {
                    return Err(MigrationStageError::LimitExceeded);
                },
            };
            if total > MAX_MIGRATION_BATCH_WRITE_BYTES {
                return Err(MigrationStageError::LimitExceeded);
            }
            i += 1;
        }
        assert(mutations@.take(i as int) =~= mutations@);
        Ok(MigrationBatch { migration, mutations, checked_through, checked_rows, changed_rows })
    }

    /// Returns the exact migration artifact identity.
    pub fn migration(&self) -> (result: Digest)
        ensures
            result == self.migration,
    {
        self.migration
    }

    /// Borrows ordered row mutations.
    pub fn mutations(&self) -> (result: &[MigrationRowMutation])
        ensures
            result@ == self.mutations@,
    {
        self.mutations.as_slice()
    }

    /// Borrows the journal cursor installed atomically with the batch.
    pub fn checked_through(&self) -> (result: &MigrationScanCursor)
        ensures
            *result == self.checked_through,
    {
        &self.checked_through
    }

    /// Returns cumulative checked rows at this journal point.
    pub fn checked_rows(&self) -> (result: u64)
        ensures
            result == self.checked_rows,
    {
        self.checked_rows
    }

    /// Returns cumulative changed rows at this journal point.
    pub fn changed_rows(&self) -> (result: u64)
        ensures
            result == self.changed_rows,
    {
        self.changed_rows
    }
}

/// A batch within the write bound leaves the journal reservation free under the
/// ceiling of a staged write.
pub proof fn batches_leave_the_journal_reserve(mutations: Seq<MigrationRowMutation>)
    requires
        batch_size(mutations) matches Some(total) && total <= MAX_MIGRATION_BATCH_WRITE_BYTES,
    ensures
        batch_size(mutations)->Some_0 + MIGRATION_BATCH_JOURNAL_RESERVE_BYTES
            <= MAX_STAGED_WRITE_BYTES,
{
}

/// Exact identities required for the final private-stage cutover.
pub struct MigrationCutover {
    pub parent: Digest,
    pub candidate: StoredContractBundleV1,
    pub migration: Digest,
    pub required_projections: Vec<ProjectionId>,
    pub retained_parent_lineage: Vec<Digest>,
    pub validation_digest: Digest,
}

impl MigrationCutover {
    /// Constructs a complete final-cutover request.
    pub fn new(
        parent: Digest,
        candidate: StoredContractBundleV1,
        migration: Digest,
        required_projections: Vec<ProjectionId>,
        retained_parent_lineage: Vec<Digest>,
        validation_digest: Digest,
    ) -> (result: Self)
        ensures
            result == (MigrationCutover {
                parent,
                candidate,
                migration,
                required_projections,
                retained_parent_lineage,
                validation_digest,
            }),
    {
        MigrationCutover {
            parent,
            candidate,
            migration,
            required_projections,
            retained_parent_lineage,
            validation_digest,
        }
    }

    /// Returns the expected active predecessor hash.
    pub fn parent(&self) -> (result: Digest)
        ensures
            result == self.parent,
    {
        self.parent
    }

    /// Borrows the exact successor bundle.
    pub fn candidate(&self) -> (result: &StoredContractBundleV1)
        ensures
            *result == self.candidate,
    {
        &self.candidate
    }

    /// Returns the exact migration artifact hash.
    pub fn migration(&self) -> (result: Digest)
        ensures
            result == self.migration,
    {
        self.migration
    }

    /// Borrows projection generations that must already be ready.
    pub fn required_projections(&self) -> (result: &[ProjectionId])
        ensures
            result@ == self.required_projections@,
    {
        self.required_projections.as_slice()
    }

    /// Borrows exact predecessor lineage bindings allowed on unchanged rows.
    pub fn retained_parent_lineage(&self) -> (result: &[Digest])
        ensures
            result@ == self.retained_parent_lineage@,
    {
        self.retained_parent_lineage.as_slice()
    }

    /// Returns the catalog-sealed complete validation identity.
    pub fn validation_digest(&self) -> (result: Digest)
        ensures
            result == self.validation_digest,
    {
        self.validation_digest
    }
}

/// Successful final-cutover evidence.
#[derive(Clone, Copy, Debug, PartialEq, Eq)]
pub struct MigrationCutoverApplied {
    pub administration_sequence: AdministrationSequence,
}

impl MigrationCutoverApplied {
    /// Constructs storage-returned final-cutover evidence.
    pub fn new(administration_sequence: AdministrationSequence) -> (result: Self)
        ensures
            result == (MigrationCutoverApplied { administration_sequence }),
    {
        MigrationCutoverApplied { administration_sequence }
    }

    /// Returns the sole administration sequence assigned by migration.
    pub fn administration_sequence(self) -> (result: AdministrationSequence)
        ensures
            result == self.administration_sequence,
    {
        self.administration_sequence
    }
}

/// Private stage of one contract migration, as a backend offers it.
pub trait MigrationStagePort {
    /// Returns the transaction-current active bundle hash.
    fn active_bundle_hash(&self) -> Digest;

    /// Reads one bounded canonical page.
    fn scan_migration_rows(&self, cursor: &MigrationScanCursor) -> Result<
        MigrationScanPage,
        MigrationStageError,
    >;

    /// Tests one exact relationship target without exposing general reads.
    fn migration_target_exists(&self, target: &EntityTarget) -> Result<bool, MigrationStageError>;

    /// Reports unresolved admissions owned by a predecessor version being retired.
    fn has_unresolved_retiring_admissions(&self) -> Result<bool, MigrationStageError>;

    /// Reads exact restart progress for this artifact, when a batch already
    /// committed. A stage that keeps none has none.
    fn migration_journal_state(&self, migration: Digest) -> (result: Result<
        Option<MigrationJournalState>,
        MigrationStageError,
    >)
        default_ensures
            result == Ok::<Option<MigrationJournalState>, MigrationStageError>(None),
    {
        let _ = migration;
        Ok(None)
    }

    /// Reads the exact durable orchestration step for restart recovery. By default
    /// a stage with progress is transforming.
    fn migration_journal_step(&self, migration: Digest) -> (result: Result<
        Option<ContractMigrationJournalStepV1>,
        MigrationStageError,
    >)
        default_ensures
            exists|state: Result<Option<MigrationJournalState>, MigrationStageError>| #[trigger]
                call_ensures(Self::migration_journal_state, (self, migration), state) && match state
                {
                    Err(error) => result == Err::<
                        Option<ContractMigrationJournalStepV1>,
                        MigrationStageError,
                    >(error),
                    Ok(None) => result == Ok::<
                        Option<ContractMigrationJournalStepV1>,
                        MigrationStageError,
                    >(None),
                    Ok(Some(_)) => result == Ok::<
                        Option<ContractMigrationJournalStepV1>,
                        MigrationStageError,
                    >(Some(ContractMigrationJournalStepV1::Transforming)),
                },
    {
        let state = self.migration_journal_state(migration);
        assert(call_ensures(Self::migration_journal_state, (self, migration), state));
        match state {
            Err(error) => Err(error),
            Ok(None) => Ok(None),
            Ok(Some(_)) => Ok(Some(ContractMigrationJournalStepV1::Transforming)),
        }
    }

    /// Returns the immutable application frontier captured before staging.
    fn migration_frozen_frontier(&self) -> (result: Option<CommitSequence>)
        default_ensures
            result is None,
    {
        None
    }

    /// Counts predecessor images retained for logically retired entity types.
    fn retained_migration_entity_count(
        &self,
        _migration: Digest,
        _entity_types: &[EntityTypeId],
    ) -> (result: Result<u64, MigrationStageError>)
        default_ensures
            result == Ok::<u64, MigrationStageError>(0),
    {
        Ok(0)
    }

    /// Applies row/index mutations and journal advancement atomically.
    fn apply_migration_batch(&mut self, batch: MigrationBatch) -> Result<(), MigrationStageError>;

    /// Advances durable orchestration evidence without changing authoritative rows.
    fn checkpoint_migration_step(
        &mut self,
        _step: ContractMigrationJournalStepV1,
        _required_projections: &[ProjectionId],
    ) -> (result: Result<(), MigrationStageError>)
        default_ensures
            result == Ok::<(), MigrationStageError>(()) && &*final(self) == &*old(self),
    {
        Ok(())
    }

    /// Builds fresh required projection generations through the frozen frontier.
    fn build_migration_projection_candidates(&mut self, projections: &[ProjectionId]) -> Result<
        (),
        MigrationStageError,
    >;

    /// Performs complete semantic validation of the private stage before cutover.
    fn validate_migration_stage(
        &self,
        candidate: Digest,
        retained_parent_lineage: &[Digest],
    ) -> Result<(), MigrationStageError>;

    /// Performs storage-owned complete structural validation of the private stage:
    /// by default, of its active bundle with no retained lineage.
    fn validate_migration_stage_structure(&self) -> (result: Result<(), MigrationStageError>)
        default_ensures
            exists|active: Digest, lineage: &[Digest]|
                call_ensures(Self::active_bundle_hash, (self,), active) && lineage@.len() == 0
                    && #[trigger] call_ensures(
                    Self::validate_migration_stage,
                    (self, active, lineage),
                    result,
                ),
    {
        let active = self.active_bundle_hash();
        let lineage: Vec<Digest> = Vec::new();
        let result = self.validate_migration_stage(active, lineage.as_slice());
        result
    }

    /// Atomically activates the successor, fences predecessor writes, and records
    /// migration.
    fn finalize_migration(&mut self, cutover: MigrationCutover) -> Result<
        MigrationCutoverApplied,
        MigrationStageError,
    >;
}

} // verus!
