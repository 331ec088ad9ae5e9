//! Private contract-migration stages.

use riffdb_storage_api::ids::{CommitSequence, Digest, EntityTypeId, Id32, Id64, ProjectionId};
use riffdb_storage_api::keys::CanonicalRecord;
use riffdb_storage_api::migration::{
    MigrationBatch, MigrationCutover, MigrationCutoverApplied, MigrationJournalState,
    MigrationRowEvidence, MigrationRowMutation, MigrationScanCursor, MigrationScanPage,
    MigrationStageError, MigrationStagePort, MAX_MIGRATION_BATCH_MUTATIONS,
    MAX_MIGRATION_BATCH_WRITE_BYTES, MAX_MIGRATION_SCAN_ROWS,
};
use riffdb_storage_api::records::{
    Charged, DurableKeySchemaBindingV1, EntityTarget, StoredEntityRecordV1,
};
use riffdb_storage_api::stored::contract_migration::ContractMigrationJournalStepV1;

fn digest(fill: u8) -> Digest {
    Digest::from_bytes([fill; 32])
}

fn target(key: u8) -> EntityTarget {
    EntityTarget {
        entity_type_id: Id32::new(1).expect("type"),
        key: vec![key],
    }
}

fn row(key: u8, version: u64) -> StoredEntityRecordV1 {
    StoredEntityRecordV1 {
        target: target(key),
        entity_version: Id64::new(version).expect("version"),
        written_by_contract: Id64::new(1).expect("contract"),
        schema_binding: DurableKeySchemaBindingV1 {
            lineage: "budget".to_owned(),
            contract_version: Id64::new(1).expect("contract"),
            bundle_hash: digest(1),
        },
        fields: CanonicalRecord {
            fields: Vec::new(),
            encoded: vec![14, 1, 0, 0, 0, 0],
        },
    }
}

fn charged(record: StoredEntityRecordV1, bytes: usize) -> Charged<StoredEntityRecordV1> {
    Charged {
        record,
        semantic_bytes: Some(bytes),
    }
}

/// A hash for tests: the first byte, all over.
fn first_byte(bytes: Vec<u8>) -> Digest {
    digest(bytes.first().copied().unwrap_or(0))
}

fn evidence(key: u8, bytes: usize) -> MigrationRowEvidence {
    MigrationRowEvidence::from_source(charged(row(key, 1), bytes), first_byte)
}

#[test]
fn scan_pages_are_ordered_and_move_their_cursor() {
    let page = MigrationScanPage::new(
        vec![row(1, 1), row(2, 1)],
        Some(MigrationScanCursor::after(target(2))),
    )
    .ok()
    .expect("page");
    assert_eq!(page.rows().len(), 2);
    assert_eq!(
        page.next().and_then(MigrationScanCursor::exclusive_lower_bound),
        Some(&target(2))
    );
    let refused = |rows, next| {
        MigrationScanPage::new(rows, next).err() == Some(MigrationStageError::LimitExceeded)
    };
    assert!(refused(vec![row(2, 1), row(1, 1)], None));
    assert!(refused(
        vec![row(1, 1)],
        Some(MigrationScanCursor::after(target(9)))
    ));
    assert!(refused(
        (0..=MAX_MIGRATION_SCAN_ROWS).map(|_| row(1, 1)).collect(),
        None
    ));
    assert!(MigrationScanPage::new(Vec::new(), None).is_ok());
}

#[test]
fn evidence_is_the_exact_row_and_its_hash() {
    let held = evidence(1, 10);
    assert_eq!(held.fields_hash(), first_byte(row(1, 1).fields.encoded));
    assert!(held.matches(&row(1, 1), first_byte));
    assert!(!held.matches(&row(1, 2), first_byte));
    assert!(!held.matches(&row(1, 1), |_| digest(0xee)));
}

#[test]
fn cursors_stand_in_the_order_of_their_targets() {
    let start = MigrationScanCursor::start();
    let first = MigrationScanCursor::after(target(1));
    let second = MigrationScanCursor::after(target(2));
    assert!(start.is_before(&first) && start < first);
    assert!(first.is_before(&second) && first < second);
    assert!(!second.is_before(&first) && !first.is_before(&first));
    assert_eq!(start.exclusive_lower_bound(), None);
    assert_eq!(first.exclusive_lower_bound(), Some(&target(1)));
    assert_eq!(start, MigrationScanCursor::default());
}

#[test]
fn mutations_advance_one_version_of_one_type() {
    let image = |version| Some(charged(row(1, version), 10));
    assert!(MigrationRowMutation::new(evidence(1, 10), image(2), Vec::new()).is_ok());
    assert!(
        MigrationRowMutation::new(evidence(1, 10), image(3), Vec::new()).err()
            == Some(MigrationStageError::Integrity)
    );
    // Without a post-image there has to be an index to rebuild.
    assert!(MigrationRowMutation::new(evidence(1, 10), None, Vec::new()).is_err());
    let retired = MigrationRowMutation::retire(evidence(1, 10));
    assert!(retired.post_image().is_none());
}

#[test]
fn batches_leave_room_for_their_journal() {
    let batch = |count: usize, bytes: usize, checked, changed| {
        let mutations = (0..count)
            .map(|_| MigrationRowMutation::retire(evidence(1, bytes)))
            .collect();
        MigrationBatch::new(
            digest(3),
            mutations,
            MigrationScanCursor::start(),
            checked,
            changed,
        )
        .err()
    };
    let limit = Some(MigrationStageError::LimitExceeded);
    assert!(batch(0, 0, 5, 0).is_none());
    assert!(batch(1, 10, 5, 1).is_none());
    assert!(batch(1, 10, 1, 2) == limit);
    assert!(batch(MAX_MIGRATION_BATCH_MUTATIONS + 1, 1, 100, 1) == limit);
    assert!(batch(1, MAX_MIGRATION_BATCH_WRITE_BYTES + 1, 5, 1) == limit);
}

#[test]
fn journals_complete_once() {
    let mut journal =
        MigrationJournalState::new(digest(3), MigrationScanCursor::start(), 5, 2, 1)
            .expect("journal");
    assert!(!journal.is_complete());
    assert_eq!(journal.mark_complete(), Ok(()));
    assert!(journal.is_complete());
    assert_eq!(journal.mark_complete(), Err(MigrationStageError::Integrity));
    assert_eq!(journal.checked_rows(), 5);
    assert_eq!(
        MigrationJournalState::new(digest(3), MigrationScanCursor::start(), 1, 2, 1).err(),
        Some(MigrationStageError::Integrity)
    );
    assert_eq!(
        MigrationJournalState::new(digest(3), MigrationScanCursor::start(), 2, 2, 0).err(),
        Some(MigrationStageError::Integrity)
    );
    assert_eq!(
        MigrationStageError::RowChanged.message(),
        "private migration stage operation failed"
    );
}

// A stage that keeps nothing but its active bundle.
struct Stage {
    validated: bool,
}

impl MigrationStagePort for Stage {
    fn active_bundle_hash(&self) -> Digest {
        digest(7)
    }

    fn scan_migration_rows(
        &self,
        _cursor: &MigrationScanCursor,
    ) -> Result<MigrationScanPage, MigrationStageError> {
        MigrationScanPage::new(Vec::new(), None)
    }

    fn migration_target_exists(&self, _target: &EntityTarget) -> Result<bool, MigrationStageError> {
        Ok(false)
    }

    fn has_unresolved_retiring_admissions(&self) -> Result<bool, MigrationStageError> {
        Ok(false)
    }

    fn apply_migration_batch(&mut self, _batch: MigrationBatch) -> Result<(), MigrationStageError> {
        Ok(())
    }

    fn build_migration_projection_candidates(
        &mut self,
        _projections: &[ProjectionId],
    ) -> Result<(), MigrationStageError> {
        Ok(())
    }

    fn validate_migration_stage(
        &self,
        candidate: Digest,
        retained_parent_lineage: &[Digest],
    ) -> Result<(), MigrationStageError> {
        if self.validated && candidate == digest(7) && retained_parent_lineage.is_empty() {
            Ok(())
        } else {
            Err(MigrationStageError::Integrity)
        }
    }

    fn finalize_migration(
        &mut self,
        _cutover: MigrationCutover,
    ) -> Result<MigrationCutoverApplied, MigrationStageError> {
        Ok(MigrationCutoverApplied::new(Id64::new(1).expect("sequence")))
    }
}

#[test]
fn stages_have_plain_defaults() {
    let mut stage = Stage { validated: true };
    assert_eq!(stage.migration_journal_state(digest(1)), Ok(None));
    assert_eq!(stage.migration_journal_step(digest(1)), Ok(None));
    assert_eq!(stage.migration_frozen_frontier(), None::<CommitSequence>);
    let none: [EntityTypeId; 0] = [];
    assert_eq!(stage.retained_migration_entity_count(digest(1), &none), Ok(0));
    assert_eq!(
        stage.checkpoint_migration_step(ContractMigrationJournalStepV1::Validating, &[]),
        Ok(())
    );
    assert!(stage.validated);
    assert_eq!(stage.validate_migration_stage_structure(), Ok(()));
    let stage = Stage { validated: false };
    assert_eq!(
        stage.validate_migration_stage_structure(),
        Err(MigrationStageError::Integrity)
    );
}
