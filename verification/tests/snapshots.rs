//! Bounded index-range reads of owned snapshots.

use riffdb_storage_api::ids::{Digest, Id64};
use riffdb_storage_api::keys::CanonicalRecord;
use riffdb_storage_api::limits::{MAX_KEY_BYTES, MAX_SCAN_PAGE_BYTES};
use riffdb_storage_api::owned_snapshot::{
    SnapshotIndexDirectionV1, SnapshotIndexRangePageV1, SnapshotIndexRangeRequestV1,
    StorageScanLimit,
};
use riffdb_storage_api::page::{EncodedContentCharge, EncodedPageItem, NonZeroLimit};
use riffdb_storage_api::records::{DurableKeySchemaBindingV1, StoredIndexEntryV2};
use riffdb_storage_api::value_error::StorageValueError;

fn limit(value: u16) -> StorageScanLimit {
    StorageScanLimit::new(NonZeroLimit::new(value).expect("nonzero")).expect("limit")
}

fn request(
    direction: SnapshotIndexDirectionV1,
    after: Option<Vec<u8>>,
) -> Result<SnapshotIndexRangeRequestV1, StorageValueError> {
    SnapshotIndexRangeRequestV1::new(vec![10], true, vec![20], false, direction, after, limit(2))
}

fn entry(key: u8, bytes: usize) -> EncodedPageItem<StoredIndexEntryV2> {
    EncodedPageItem::new(
        StoredIndexEntryV2 {
            key: vec![key],
            schema_binding: DurableKeySchemaBindingV1 {
                lineage: "budget".to_owned(),
                contract_version: Id64::new(1).expect("contract"),
                bundle_hash: Digest::from_bytes([1; 32]),
            },
            covered_values: CanonicalRecord {
                fields: Vec::new(),
                encoded: vec![14, 1, 0, 0, 0, 0],
            },
            partition_key: vec![1],
        },
        EncodedContentCharge::new(bytes).expect("charge"),
    )
}

#[test]
fn scan_limits_are_bounded() {
    assert_eq!(limit(500).get(), 500);
    assert_eq!(
        StorageScanLimit::new(NonZeroLimit::new(501).expect("nonzero")),
        Err(StorageValueError::LimitExceeded)
    );
    assert_eq!(NonZeroLimit::new(0), None);
}

#[test]
fn requests_have_ordered_bounded_endpoints() {
    let forward = SnapshotIndexDirectionV1::Forward;
    assert!(request(forward, None).is_ok());
    assert!(request(forward, Some(vec![15])).is_ok());
    assert!(request(forward, Some(vec![9])).is_err());
    assert!(request(forward, Some(vec![21])).is_err());
    let build = |lower: Vec<u8>, upper: Vec<u8>| {
        SnapshotIndexRangeRequestV1::new(lower, true, upper, true, forward, None, limit(2)).is_ok()
    };
    assert!(build(vec![1], vec![1, 0]));
    assert!(!build(vec![1], vec![1]));
    assert!(!build(vec![2], vec![1]));
    assert!(!build(Vec::new(), vec![1]));
    assert!(build(vec![1], vec![2; MAX_KEY_BYTES]));
    assert!(!build(vec![1], vec![2; MAX_KEY_BYTES + 1]));
}

#[test]
fn pages_follow_the_requested_direction() {
    let forward = request(SnapshotIndexDirectionV1::Forward, None).expect("request");
    let reverse = request(SnapshotIndexDirectionV1::Reverse, None).expect("request");
    let page = SnapshotIndexRangePageV1::new(&forward, vec![entry(10, 1), entry(11, 1)], true)
        .expect("page");
    assert_eq!(page.next_after, Some(vec![11]));
    assert!(SnapshotIndexRangePageV1::new(&forward, vec![entry(11, 1), entry(10, 1)], true).is_err());
    assert!(SnapshotIndexRangePageV1::new(&reverse, vec![entry(11, 1), entry(10, 1)], true).is_ok());
    // The upper end is outside, the lower one inside.
    assert!(SnapshotIndexRangePageV1::new(&reverse, vec![entry(20, 1)], false).is_err());
    assert!(SnapshotIndexRangePageV1::new(&reverse, vec![entry(10, 1)], false).is_ok());
    // A page that goes on holds something, and no page holds more than asked for.
    assert!(SnapshotIndexRangePageV1::new(&forward, Vec::new(), true).is_err());
    assert!(SnapshotIndexRangePageV1::new(
        &forward,
        vec![entry(10, 1), entry(11, 1), entry(12, 1)],
        false
    )
    .is_err());
    assert!(
        SnapshotIndexRangePageV1::new(&forward, vec![entry(10, MAX_SCAN_PAGE_BYTES + 1)], false)
            .is_err()
    );
    // What was returned before is not returned again.
    let continued =
        request(SnapshotIndexDirectionV1::Forward, Some(vec![11])).expect("continued request");
    assert!(SnapshotIndexRangePageV1::new(&continued, vec![entry(11, 1)], false).is_err());
    assert!(SnapshotIndexRangePageV1::new(&continued, vec![entry(12, 1)], false).is_ok());
}
