//! Hard process limits shared by the storage rules.
//!
//! Page rows, query rows and the key length are fixed by what callers rely on. Every
//! other number here is this library's own choice: no rule depends on its value, only
//! on there being a limit.

use vstd::prelude::*;

verus! {

/// Most rows that one scan page may hold.
pub const MAX_SCAN_PAGE_ENTRIES: usize = 500;

/// Most encoded content bytes that one scan page may hold.
pub const MAX_SCAN_PAGE_BYTES: usize = 4_194_304;

/// Most bytes that one staged write set may hold.
pub const MAX_STAGED_WRITE_BYTES: usize = 16_777_216;

/// Longest complete storage key.
pub const MAX_KEY_BYTES: usize = 4_096;

/// Longest canonical document.
pub const MAX_CANONICAL_DOCUMENT_BYTES: usize = 1_048_576;

/// Most row updates in one projection apply.
pub const MAX_PROJECTION_ROW_UPDATES: usize = 4_096;

/// Most bytes of one canonical projection apply payload.
pub const MAX_PROJECTION_APPLY_SEMANTIC_BYTES: usize = 16_777_216;

/// Most semantic bytes of one projection apply snapshot.
pub const MAX_PROJECTION_APPLY_SNAPSHOT_BYTES: usize = 16_777_216;

/// Most semantic bytes of the rows, marker and control that one apply stages.
pub const MAX_PROJECTION_WRITE_SET_BYTES: usize = 16_777_216;

/// Most semantic bytes of one stored projection row.
pub const MAX_PROJECTION_STATE_SEMANTIC_BYTES: usize = 1_048_576;

/// Most rows that one projection query page may hold.
pub const MAX_PROJECTION_QUERY_ROWS: usize = 500;

/// Most encoded bytes that one projection query page may hold.
pub const MAX_PROJECTION_QUERY_CONTENT_BYTES: usize = 4_194_304;

/// Most steps that one promotion attempt may record.
pub const MAX_REPLICATION_PROMOTION_STEPS_V1: usize = 64;

/// Most index advances of one command under the historical bound.
pub const MAX_INDEX_DELTAS: usize = 1_024;

} // verus!
