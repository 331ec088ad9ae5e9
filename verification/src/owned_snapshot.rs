//! Bounded index-range reads against one pinned read view.

use vstd::prelude::*;

use crate::bytes::{bytes_before, copy_bytes, order_bytes, BytesOrder};
use crate::ids::{CommitSequence, IndexId};
use crate::limits::{MAX_KEY_BYTES, MAX_SCAN_PAGE_BYTES, MAX_SCAN_PAGE_ENTRIES};
use crate::page::{checked_encoded_page_content, page_charge, EncodedPageItem, NonZeroLimit};
use crate::records::StoredIndexEntryV2;
use crate::value_error::StorageValueError;

verus! {

/// A limit on the rows of one storage scan page.
#[derive(Clone, Copy, Debug, PartialEq, Eq, Structural)]
pub struct StorageScanLimit {
    pub value: NonZeroLimit,
}

impl StorageScanLimit {
    /// Accepts a limit up to the hard maximum.
    pub fn new(value: NonZeroLimit) -> (result: Result<Self, StorageValueError>)
        ensures
            result == if value.value > MAX_SCAN_PAGE_ENTRIES {
                Err::<Self, StorageValueError>(StorageValueError::LimitExceeded)
            } else {
                Ok(StorageScanLimit { value })
            },
    {
        if value.get() as usize > MAX_SCAN_PAGE_ENTRIES {
            return Err(StorageValueError::LimitExceeded);
        }
        Ok(StorageScanLimit { value })
    }

    /// The limit as an integer.
    pub fn get(self) -> (result: u16)
        ensures
            result == self.value.value,
    {
        self.value.get()
    }
}

/// Physical order for one bounded immutable index-range read.
#[derive(Clone, Copy, Debug, PartialEq, Eq, Structural)]
pub enum SnapshotIndexDirectionV1 {
    /// Lowest complete key first.
    Forward,
    /// Highest complete key first.
    Reverse,
}

/// What a range request is.
#[verifier::ext_equal]
pub ghost struct RangeRequestView {
    pub lower: Seq<u8>,
    pub lower_inclusive: bool,
    pub upper: Seq<u8>,
    pub upper_inclusive: bool,
    pub direction: SnapshotIndexDirectionV1,
    pub after: Option<Seq<u8>>,
    pub limit: StorageScanLimit,
}

impl RangeRequestView {
    /// Nonempty bounded endpoints in order, with the continuation between them.
    pub open spec fn accepted(self) -> bool {
        &&& 0 < self.lower.len() <= MAX_KEY_BYTES
        &&& 0 < self.upper.len() <= MAX_KEY_BYTES
        &&& bytes_before(self.lower, self.upper)
        &&& self.after matches Some(after) ==> !bytes_before(after, self.lower) && !bytes_before(
            self.upper,
            after,
        )
    }

    /// Whether a key lies in the range.
    pub open spec fn covers(self, key: Seq<u8>) -> bool {
        &&& bytes_before(self.lower, key) || (self.lower_inclusive && key == self.lower)
        &&& bytes_before(key, self.upper) || (self.upper_inclusive && key == self.upper)
    }

    /// Whether a key follows another one in the request's direction.
    pub open spec fn follows(self, prior: Option<Seq<u8>>, key: Seq<u8>) -> bool {
        prior matches Some(held) ==> match self.direction {
            SnapshotIndexDirectionV1::Forward => bytes_before(held, key),
            SnapshotIndexDirectionV1::Reverse => bytes_before(key, held),
        }
    }

    /// Whether all keys lie in the range, each following the one before.
    pub open spec fn admits(self, prior: Option<Seq<u8>>, keys: Seq<Seq<u8>>) -> bool
        decreases keys.len(),
    {
        keys.len() == 0 || (self.covers(keys[0]) && self.follows(prior, keys[0]) && self.admits(
            Some(keys[0]),
            keys.skip(1),
        ))
    }
}

/// The view of an optional byte string.
pub open spec fn optional_bytes(bytes: Option<Vec<u8>>) -> Option<Seq<u8>> {
    match bytes {
        Some(bytes) => Some(bytes@),
        None => None,
    }
}

/// One checked engine-neutral range request against an owned snapshot.
#[derive(Clone, Debug, PartialEq, Eq)]
pub struct SnapshotIndexRangeRequestV1 {
    pub lower: Vec<u8>,
    pub lower_inclusive: bool,
    pub upper: Vec<u8>,
    pub upper_inclusive: bool,
    pub direction: SnapshotIndexDirectionV1,
    pub after: Option<Vec<u8>>,
    pub limit: StorageScanLimit,
}

impl View for SnapshotIndexRangeRequestV1 {
    type V = RangeRequestView;

    open spec fn view(&self) -> RangeRequestView {
        RangeRequestView {
            lower: self.lower@,
            lower_inclusive: self.lower_inclusive,
            upper: self.upper@,
            upper_inclusive: self.upper_inclusive,
            direction: self.direction,
            after: optional_bytes(self.after),
            limit: self.limit,
        }
    }
}

impl SnapshotIndexRangeRequestV1 {
    /// Checks bounded nonempty ordered endpoints and an in-range continuation.
    pub fn new(
        lower: Vec<u8>,
        lower_inclusive: bool,
        upper: Vec<u8>,
        upper_inclusive: bool,
        direction: SnapshotIndexDirectionV1,
        after: Option<Vec<u8>>,
        limit: StorageScanLimit,
    ) -> (result: Result<Self, StorageValueError>)
        ensures
            ({
                let request = RangeRequestView {
                    lower: lower@,
                    lower_inclusive,
                    upper: upper@,
                    upper_inclusive,
                    direction,
                    after: optional_bytes(after),
                    limit,
                };
                if request.accepted() {
                    result is Ok && result->Ok_0@ == request
                } else {
                    result == Err::<Self, _>(StorageValueError::IdentityMismatch)
                }
            }),
    {
        let outside = match &after {
            Some(bytes) => order_bytes(bytes, &lower) == BytesOrder::Before || order_bytes(
                bytes,
                &upper,
            ) == BytesOrder::After,
            None => false,
        };
        if lower.len() == 0 || upper.len() == 0 || lower.len() > MAX_KEY_BYTES || upper.len()
            > MAX_KEY_BYTES || order_bytes(&lower, &upper) != BytesOrder::Before || outside {
            return Err(StorageValueError::IdentityMismatch);
        }
        Ok(
            SnapshotIndexRangeRequestV1 {
                lower,
                lower_inclusive,
                upper,
                upper_inclusive,
                direction,
                after,
                limit,
            },
        )
    }

    /// Lower physical bound.
    pub fn lower(&self) -> (result: &[u8])
        ensures
            result@ == self@.lower,
    {
        self.lower.as_slice()
    }

    /// Whether the lower physical bound is included.
    pub fn lower_inclusive(&self) -> (result: bool)
        ensures
            result == self@.lower_inclusive,
    {
        self.lower_inclusive
    }

    /// Upper physical bound.
    pub fn upper(&self) -> (result: &[u8])
        ensures
            result@ == self@.upper,
    {
        self.upper.as_slice()
    }

    /// Whether the upper physical bound is included.
    pub fn upper_inclusive(&self) -> (result: bool)
        ensures
            result == self@.upper_inclusive,
    {
        self.upper_inclusive
    }

    /// Stable physical direction.
    pub fn direction(&self) -> (result: SnapshotIndexDirectionV1)
        ensures
            result == self@.direction,
    {
        self.direction
    }

    /// Exclusive prior complete-key position in the selected direction.
    pub fn after(&self) -> (result: Option<&[u8]>)
        ensures
            match result {
                Some(after) => self@.after == Some(after@),
                None => self@.after is None,
            },
    {
        match &self.after {
            Some(after) => Some(after.as_slice()),
            None => None,
        }
    }

    /// Maximum rows returned by this storage page.
    pub fn limit(&self) -> (result: StorageScanLimit)
        ensures
            result == self@.limit,
    {
        self.limit
    }
}

/// The keys of a page's entries.
pub open spec fn entry_keys(entries: Seq<EncodedPageItem<StoredIndexEntryV2>>) -> Seq<Seq<u8>> {
    Seq::new(entries.len(), |i: int| entries[i].value.key@)
}

/// Why entries do not answer a range request, if they do not.
pub open spec fn range_page_refusal(
    request: RangeRequestView,
    keys: Seq<Seq<u8>>,
    charge: nat,
    has_more: bool,
) -> Option<StorageValueError> {
    if keys.len() > request.limit.value.value {
        Some(StorageValueError::LimitExceeded)
    } else if charge > usize::MAX {
        Some(StorageValueError::SizeOverflow)
    } else if charge > MAX_SCAN_PAGE_BYTES {
        Some(StorageValueError::LimitExceeded)
    } else if !request.admits(request.after, keys) {
        Some(StorageValueError::NonCanonicalOrder)
    } else if has_more && keys.len() == 0 {
        Some(StorageValueError::InvalidShape)
    } else {
        None
    }
}

fn check_entries(
    request: &SnapshotIndexRangeRequestV1,
    entries: &[EncodedPageItem<StoredIndexEntryV2>],
) -> (result: bool)
    ensures
        result == request@.admits(request@.after, entry_keys(entries@)),
{
    let ghost keys = entry_keys(entries@);
    let mut prior: Option<&[u8]> = request.after();
    let mut i: usize = 0;
    assert(keys.skip(0) =~= keys);
    while i < entries.len()
        invariant
            i <= entries@.len(),
            keys == entry_keys(entries@),
            request@.admits(request@.after, keys) == request@.admits(
                match prior {
                    Some(held) => Some(held@),
                    None => None,
                },
                keys.skip(i as int),
            ),
        decreases entries@.len() - i,
    {
        let key = entries[i].value().key.as_slice();
        assert(keys.skip(i as int)[0] == key@);
        assert(keys.skip(i as int).skip(1) =~= keys.skip(i as int + 1));
        let lower = order_bytes(request.lower(), key);
        let lower_ok = lower == BytesOrder::Before || (request.lower_inclusive() && lower
            == BytesOrder::Same);
        let upper = order_bytes(key, request.upper());
        let upper_ok = upper == BytesOrder::Before || (request.upper_inclusive() && upper
            == BytesOrder::Same);
        let ordered = match prior {
            None => true,
            Some(held) => match request.direction() {
                SnapshotIndexDirectionV1::Forward => order_bytes(held, key) == BytesOrder::Before,
                SnapshotIndexDirectionV1::Reverse => order_bytes(held, key) == BytesOrder::After,
            },
        };
        if !lower_ok || !upper_ok || !ordered {
            return false;
        }
        prior = Some(key);
        i += 1;
    }
    true
}

/// One bounded page from an immutable index range.
#[derive(Clone, Debug, PartialEq, Eq)]
pub struct SnapshotIndexRangePageV1 {
    pub entries: Vec<EncodedPageItem<StoredIndexEntryV2>>,
    pub next_after: Option<Vec<u8>>,
}

impl SnapshotIndexRangePageV1 {
    /// Checks bounds, encoded charge, physical range, order, and continuation.
    pub fn new(
        request: &SnapshotIndexRangeRequestV1,
        entries: Vec<EncodedPageItem<StoredIndexEntryV2>>,
        has_more: bool,
    ) -> (result: Result<Self, StorageValueError>)
        ensures
            match range_page_refusal(
                request@,
                entry_keys(entries@),
                page_charge(entries@),
                has_more,
            ) {
                Some(error) => result == Err::<Self, _>(error),
                None => result is Ok && result->Ok_0.entries == entries && optional_bytes(
                    result->Ok_0.next_after,
                ) == if has_more {
                    Some(entry_keys(entries@).last())
                } else {
                    None
                },
            },
    {
        if entries.len() > request.limit().get() as usize {
            return Err(StorageValueError::LimitExceeded);
        }
        match checked_encoded_page_content(&entries, MAX_SCAN_PAGE_BYTES) {
            Ok(_) => {},
            Err(error) => {
                return Err(error);
            },
        }
        if !check_entries(request, &entries) {
            return Err(StorageValueError::NonCanonicalOrder);
        }
        let next_after = if has_more {
            if entries.len() == 0 {
                return Err(StorageValueError::InvalidShape);
            }
            Some(copy_bytes(&entries[entries.len() - 1].value().key))
        } else {
            None
        };
        Ok(SnapshotIndexRangePageV1 { entries, next_after })
    }

    /// Complete current-index rows in selected physical order.
    pub fn entries(&self) -> (result: &[EncodedPageItem<StoredIndexEntryV2>])
        ensures
            result@ == self.entries@,
    {
        self.entries.as_slice()
    }

    /// Exclusive continuation when more rows remain in this exact range.
    pub fn next_after(&self) -> (result: Option<&[u8]>)
        ensures
            match result {
                Some(after) => optional_bytes(self.next_after) == Some(after@),
                None => self.next_after is None,
            },
    {
        match &self.next_after {
            Some(after) => Some(after.as_slice()),
            None => None,
        }
    }
}

proof fn admitted_keys_follow(
    request: RangeRequestView,
    prior: Option<Seq<u8>>,
    keys: Seq<Seq<u8>>,
    i: int,
)
    requires
        request.admits(prior, keys),
        0 <= i < keys.len(),
    ensures
        request.covers(keys[i]),
        request.follows(prior, keys[i]),
        i > 0 ==> request.follows(Some(keys[0]), keys[i]),
    decreases keys.len(),
{
    if i > 0 {
        let rest = keys.skip(1);
        admitted_keys_follow(request, Some(keys[0]), rest, i - 1);
        assert(rest[i - 1] == keys[i]);
        if let Some(held) = prior {
            match request.direction {
                SnapshotIndexDirectionV1::Forward => {
                    crate::bytes::bytes_before_transitive(held, keys[0], keys[i]);
                },
                SnapshotIndexDirectionV1::Reverse => {
                    crate::bytes::bytes_before_transitive(keys[i], keys[0], held);
                },
            }
        }
    }
}

/// Every key of an accepted page lies in the range and beyond the continuation,
/// and the request that goes on after the last key is itself accepted.
pub proof fn range_pages_can_be_continued(
    request: RangeRequestView,
    keys: Seq<Seq<u8>>,
    charge: nat,
    has_more: bool,
    i: int,
)
    requires
        request.accepted(),
        range_page_refusal(request, keys, charge, has_more) is None,
        0 <= i < keys.len(),
    ensures
        request.covers(keys[i]),
        request.follows(request.after, keys[i]),
        i > 0 ==> request.follows(Some(keys[0]), keys[i]),
        (RangeRequestView { after: Some(keys.last()), ..request }).accepted(),
{
    admitted_keys_follow(request, request.after, keys, i);
    admitted_keys_follow(request, request.after, keys, keys.len() - 1);
    let last = keys.last();
    crate::bytes::bytes_before_total(request.lower, last);
    crate::bytes::bytes_before_total(last, request.upper);
}

/// Whether an entry's key lies in a requested range.
pub open spec fn lies_in_range(request: SnapshotIndexRangeRequestV1, key: Seq<u8>) -> bool {
    &&& bytes_before(request.lower@, key) || (key == request.lower@ && request.lower_inclusive)
    &&& bytes_before(key, request.upper@) || (key == request.upper@ && request.upper_inclusive)
}

/// Whether a key is read after another one: upwards or downwards, as requested.
pub open spec fn is_read_after(
    request: SnapshotIndexRangeRequestV1,
    held: Seq<u8>,
    key: Seq<u8>,
) -> bool {
    if request.direction is Forward {
        bytes_before(held, key)
    } else {
        bytes_before(key, held)
    }
}

/// An entry of the range, read after the entry before it or, as the first one, after
/// the key that the request goes on from.
pub open spec fn entry_is_in_place(
    request: SnapshotIndexRangeRequestV1,
    entries: Seq<EncodedPageItem<StoredIndexEntryV2>>,
    i: int,
) -> bool {
    &&& lies_in_range(request, entries[i].value.key@)
    &&& i > 0 ==> is_read_after(request, entries[i - 1].value.key@, entries[i].value.key@)
    &&& i == 0 ==> (request.after matches Some(after) ==> is_read_after(
        request,
        after@,
        entries[i].value.key@,
    ))
}

spec fn key_is_in_place(
    request: RangeRequestView,
    prior: Option<Seq<u8>>,
    keys: Seq<Seq<u8>>,
    i: int,
) -> bool {
    request.covers(keys[i]) && request.follows(
        if i > 0 {
            Some(keys[i - 1])
        } else {
            prior
        },
        keys[i],
    )
}

proof fn keys_are_admitted_in_place(
    request: RangeRequestView,
    prior: Option<Seq<u8>>,
    keys: Seq<Seq<u8>>,
)
    ensures
        request.admits(prior, keys) <==> forall|i: int|
            0 <= i < keys.len() ==> #[trigger] key_is_in_place(request, prior, keys, i),
    decreases keys.len(),
{
    if keys.len() > 0 {
        let rest = keys.skip(1);
        let first = Some(keys[0]);
        keys_are_admitted_in_place(request, first, rest);
        assert forall|i: int| 0 <= i < rest.len() implies #[trigger] key_is_in_place(
            request,
            first,
            rest,
            i,
        ) == key_is_in_place(request, prior, keys, i + 1) by {
            assert(rest[i] == keys[i + 1]);
            if i > 0 {
                assert(rest[i - 1] == keys[i]);
            }
        }
        if request.admits(prior, keys) {
            assert forall|i: int| 0 <= i < keys.len() implies #[trigger] key_is_in_place(
                request,
                prior,
                keys,
                i,
            ) by {
                if i > 0 {
                    assert(key_is_in_place(request, first, rest, i - 1));
                }
            }
        } else if forall|i: int|
            0 <= i < keys.len() ==> #[trigger] key_is_in_place(request, prior, keys, i) {
            assert(key_is_in_place(request, prior, keys, 0));
            assert forall|i: int| 0 <= i < rest.len() implies #[trigger] key_is_in_place(
                request,
                first,
                rest,
                i,
            ) by {
                assert(key_is_in_place(request, prior, keys, i + 1));
            }
        }
    }
}

/// A range can be asked for exactly when its ends are nonempty and bounded, the lower
/// one stands before the upper one, and the key that it goes on from lies between them.
pub proof fn ranges_have_ends_in_order(request: SnapshotIndexRangeRequestV1)
    ensures
        request@.accepted() <==> {
            &&& 1 <= request.lower@.len() <= MAX_KEY_BYTES
            &&& 1 <= request.upper@.len() <= MAX_KEY_BYTES
            &&& bytes_before(request.lower@, request.upper@)
            &&& request.after matches Some(after) ==> (after@ == request.lower@ || bytes_before(
                request.lower@,
                after@,
            )) && (after@ == request.upper@ || bytes_before(after@, request.upper@))
        },
{
    if let Some(after) = request.after {
        crate::bytes::bytes_before_total(after@, request.lower@);
        crate::bytes::bytes_before_total(after@, request.upper@);
        crate::bytes::bytes_before_irreflexive(after@);
        if bytes_before(after@, request.lower@) && bytes_before(request.lower@, after@) {
            crate::bytes::bytes_before_transitive(after@, request.lower@, after@);
        }
        if bytes_before(after@, request.upper@) && bytes_before(request.upper@, after@) {
            crate::bytes::bytes_before_transitive(after@, request.upper@, after@);
        }
    }
}

/// A page answers a range request exactly when it has no more entries than asked for,
/// all in place, which do not take too many bytes, and has one where more remain. What
/// is over a limit is looked at first, then the order, then whether more remain.
pub proof fn range_pages_answer_their_request(
    request: SnapshotIndexRangeRequestV1,
    entries: Seq<EncodedPageItem<StoredIndexEntryV2>>,
    has_more: bool,
)
    ensures
        ({
            let refusal = range_page_refusal(
                request@,
                entry_keys(entries),
                page_charge(entries),
                has_more,
            );
            let few = entries.len() <= request.limit.value.value;
            let small = page_charge(entries) <= MAX_SCAN_PAGE_BYTES;
            let in_place = forall|i: int|
                0 <= i < entries.len() ==> #[trigger] entry_is_in_place(request, entries, i);
            &&& refusal is None <==> few && small && in_place && (has_more ==> entries.len() > 0)
            &&& !few || (!small && page_charge(entries) <= usize::MAX) ==> refusal == Some(
                StorageValueError::LimitExceeded,
            )
            &&& few && small && !in_place ==> refusal == Some(StorageValueError::NonCanonicalOrder)
            &&& few && small && has_more && entries.len() == 0 ==> refusal == Some(
                StorageValueError::InvalidShape,
            )
        }),
{
    let keys = entry_keys(entries);
    keys_are_admitted_in_place(request@, request@.after, keys);
    assert forall|i: int| 0 <= i < entries.len() implies #[trigger] entry_is_in_place(
        request,
        entries,
        i,
    ) == key_is_in_place(request@, request@.after, keys, i) by {
        assert(keys[i] == entries[i].value.key@);
        if i > 0 {
            assert(keys[i - 1] == entries[i - 1].value.key@);
        }
    }
    let in_place = forall|i: int|
        0 <= i < entries.len() ==> #[trigger] entry_is_in_place(request, entries, i);
    if request@.admits(request@.after, keys) {
        assert forall|i: int| 0 <= i < entries.len() implies #[trigger] entry_is_in_place(
            request,
            entries,
            i,
        ) by {
            assert(key_is_in_place(request@, request@.after, keys, i));
        }
    } else if in_place {
        assert forall|i: int| 0 <= i < keys.len() implies #[trigger] key_is_in_place(
            request@,
            request@.after,
            keys,
            i,
        ) by {
            assert(entry_is_in_place(request, entries, i));
        }
    }
}

/// Exact application and index fences captured by one owned snapshot.
pub trait SnapshotFenceReader {
    /// Why the backend could not answer.
    type Failure;

    /// Application head pinned by the snapshot.
    fn application_frontier(&self) -> Result<Option<CommitSequence>, Self::Failure>;

    /// Exact generation fence for one partitioned index.
    fn index_epoch(&self, partition_key: &[u8], index_id: IndexId) -> Result<u64, Self::Failure>;

    /// Reads one bounded physical range without interpreting its query meaning.
    fn scan_snapshot_index_range(&self, request: SnapshotIndexRangeRequestV1) -> Result<
        SnapshotIndexRangePageV1,
        Self::Failure,
    >;
}

/// The reader surface of one pinned backend view.
pub trait OwnedSnapshotHandle: SnapshotFenceReader {

}

/// Opens one owned immutable view.
pub trait OwnedSnapshotReader {
    /// Backend-specific handle with only engine-neutral reader operations.
    type Snapshot: OwnedSnapshotHandle;

    /// Why the backend could not open a view.
    type Failure;

    /// Pins one view for one complete executor page or bounded group.
    fn open_owned_snapshot(&self) -> Result<Self::Snapshot, Self::Failure>;
}

} // verus!
