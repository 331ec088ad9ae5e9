//! Outbox delivery states, their transitions and bounded scans.

use vstd::prelude::*;
use vstd::utf8::encode_utf8;

use crate::ids::{EventId, Id32, Timestamp};
use crate::limits::{MAX_SCAN_PAGE_BYTES, MAX_SCAN_PAGE_ENTRIES};
use crate::page::{checked_encoded_page_content, page_charge, EncodedPageItem, NonZeroLimit};
use crate::projection::sizes::fitting;
use crate::records::{DurableEventView, StoredDurableEventV1};
use crate::value_error::StorageValueError;

verus! {

/// Maximum bytes in one configured destination identity retained in status.
pub const MAX_OUTBOX_DESTINATION_ID_BYTES: usize = 512;

/// Maximum bytes in one scrubbed safe connector error retained in status.
pub const MAX_OUTBOX_SAFE_ERROR_BYTES: usize = 1_024;

/// Checked nonzero pending-scan row limit under the storage page ceiling.
#[derive(Clone, Copy, Debug, PartialEq, Eq, PartialOrd, Ord, Hash, Structural)]
pub struct OutboxPageLimit {
    pub value: NonZeroLimit,
}

impl OutboxPageLimit {
    /// Rejects caller-selected limits above the fixed storage page bound.
    pub fn new(value: NonZeroLimit) -> (result: Result<Self, StorageValueError>)
        ensures
            result == if value.value > MAX_SCAN_PAGE_ENTRIES {
                Err::<Self, StorageValueError>(StorageValueError::LimitExceeded)
            } else {
                Ok(OutboxPageLimit { value })
            },
    {
        if value.get() as usize > MAX_SCAN_PAGE_ENTRIES {
            return Err(StorageValueError::LimitExceeded);
        }
        Ok(OutboxPageLimit { value })
    }

    /// Returns the checked nonzero row limit.
    pub fn get(self) -> (result: NonZeroLimit)
        ensures
            result == self.value,
    {
        self.value
    }
}

/// Every byte is visible ASCII.
pub open spec fn visible_ascii(bytes: Seq<u8>) -> bool {
    forall|i: int| 0 <= i < bytes.len() ==> 0x21 <= #[trigger] bytes[i] <= 0x7e
}

/// Why a text is no destination identity, if it is none.
pub open spec fn destination_refusal(text: Seq<char>) -> Option<StorageValueError> {
    let bytes = encode_utf8(text);
    if bytes.len() == 0 {
        Some(StorageValueError::Empty)
    } else if bytes.len() > MAX_OUTBOX_DESTINATION_ID_BYTES {
        Some(StorageValueError::LimitExceeded)
    } else if !visible_ascii(bytes) {
        Some(StorageValueError::InvalidShape)
    } else {
        None
    }
}

/// A bounded exact destination configuration reference.
#[derive(Debug, PartialEq, Eq, PartialOrd, Ord, Hash)]
pub struct OutboxDestinationIdV1 {
    pub value: String,
}

impl View for OutboxDestinationIdV1 {
    type V = Seq<char>;

    open spec fn view(&self) -> Seq<char> {
        self.value@
    }
}

impl Clone for OutboxDestinationIdV1 {
    fn clone(&self) -> (result: OutboxDestinationIdV1)
        ensures
            result@ == self@,
    {
        OutboxDestinationIdV1 { value: self.value.clone() }
    }
}

impl OutboxDestinationIdV1 {
    /// Validates nonempty visible ASCII without normalizing it.
    pub fn new(value: String) -> (result: Result<Self, StorageValueError>)
        ensures
            match destination_refusal(value@) {
                Some(error) => result == Err::<Self, _>(error),
                None => result is Ok && result->Ok_0@ == value@,
            },
    {
        let bytes = value.as_str().as_bytes();
        if bytes.len() == 0 {
            return Err(StorageValueError::Empty);
        }
        if bytes.len() > MAX_OUTBOX_DESTINATION_ID_BYTES {
            return Err(StorageValueError::LimitExceeded);
        }
        let mut i: usize = 0;
        while i < bytes.len()
            invariant
                i <= bytes@.len(),
                bytes@ == encode_utf8(value@),
                0 < bytes@.len() <= MAX_OUTBOX_DESTINATION_ID_BYTES,
                forall|k: int| 0 <= k < i ==> 0x21 <= #[trigger] bytes@[k] <= 0x7e,
            decreases bytes@.len() - i,
        {
            if bytes[i] < 0x21 || bytes[i] > 0x7e {
                return Err(StorageValueError::InvalidShape);
            }
            i += 1;
        }
        Ok(OutboxDestinationIdV1 { value })
    }

    /// Borrows the exact configured reference.
    pub fn as_str(&self) -> (result: &str)
        ensures
            result@ == self@,
    {
        self.value.as_str()
    }

    /// Decides equality of two destinations.
    pub fn same(&self, other: &OutboxDestinationIdV1) -> (result: bool)
        ensures
            result == (self@ == other@),
    {
        self.value == other.value
    }
}

/// Why a text is no retained safe error, if it is none.
pub open spec fn safe_error_refusal(text: Seq<char>) -> Option<StorageValueError> {
    let bytes = encode_utf8(text);
    if bytes.len() == 0 {
        Some(StorageValueError::Empty)
    } else if bytes.len() > MAX_OUTBOX_SAFE_ERROR_BYTES {
        Some(StorageValueError::LimitExceeded)
    } else {
        None
    }
}

/// One bounded, already-scrubbed connector failure summary.
#[derive(PartialEq, Eq)]
pub struct OutboxSafeErrorV1 {
    pub value: String,
}

impl View for OutboxSafeErrorV1 {
    type V = Seq<char>;

    open spec fn view(&self) -> Seq<char> {
        self.value@
    }
}

impl Clone for OutboxSafeErrorV1 {
    fn clone(&self) -> (result: OutboxSafeErrorV1)
        ensures
            result@ == self@,
    {
        OutboxSafeErrorV1 { value: self.value.clone() }
    }
}

impl OutboxSafeErrorV1 {
    /// Retains a nonempty bounded safe summary without normalizing it.
    pub fn new(value: String) -> (result: Result<Self, StorageValueError>)
        ensures
            match safe_error_refusal(value@) {
                Some(error) => result == Err::<Self, _>(error),
                None => result is Ok && result->Ok_0@ == value@,
            },
    {
        let length = value.as_str().as_bytes().len();
        if length == 0 {
            return Err(StorageValueError::Empty);
        }
        if length > MAX_OUTBOX_SAFE_ERROR_BYTES {
            return Err(StorageValueError::LimitExceeded);
        }
        Ok(OutboxSafeErrorV1 { value })
    }

    /// Borrows the policy-scrubbed safe summary.
    pub fn as_str(&self) -> (result: &str)
        ensures
            result@ == self@,
    {
        self.value.as_str()
    }
}

/// The view of an optional safe error.
pub open spec fn safe_error_view(error: Option<OutboxSafeErrorV1>) -> Option<Seq<char>> {
    match error {
        Some(error) => Some(error@),
        None => None,
    }
}

fn copy_safe_error(error: &Option<OutboxSafeErrorV1>) -> (result: Option<OutboxSafeErrorV1>)
    ensures
        safe_error_view(result) == safe_error_view(*error),
{
    match error {
        Some(error) => Some(error.clone()),
        None => None,
    }
}

/// What retry metadata is.
#[verifier::ext_equal]
pub ghost struct RetryMetadataView {
    pub attempts: Id32,
    pub last_attempt_at: Timestamp,
    pub next_attempt_at: Option<Timestamp>,
    pub destination_id: Seq<char>,
    pub last_safe_error: Option<Seq<char>>,
}

/// Retry metadata retained only after at least one delivery attempt.
#[derive(PartialEq, Eq)]
pub struct OutboxRetryMetadataV1 {
    pub attempts: Id32,
    pub last_attempt_at: Timestamp,
    pub next_attempt_at: Option<Timestamp>,
    pub destination_id: OutboxDestinationIdV1,
    pub last_safe_error: Option<OutboxSafeErrorV1>,
}

impl View for OutboxRetryMetadataV1 {
    type V = RetryMetadataView;

    open spec fn view(&self) -> RetryMetadataView {
        RetryMetadataView {
            attempts: self.attempts,
            last_attempt_at: self.last_attempt_at,
            next_attempt_at: self.next_attempt_at,
            destination_id: self.destination_id@,
            last_safe_error: safe_error_view(self.last_safe_error),
        }
    }
}

impl Clone for OutboxRetryMetadataV1 {
    fn clone(&self) -> (result: OutboxRetryMetadataV1)
        ensures
            result@ == self@,
    {
        OutboxRetryMetadataV1 {
            attempts: self.attempts,
            last_attempt_at: self.last_attempt_at,
            next_attempt_at: self.next_attempt_at,
            destination_id: self.destination_id.clone(),
            last_safe_error: copy_safe_error(&self.last_safe_error),
        }
    }
}

impl OutboxRetryMetadataV1 {
    /// Constructs worker-selected bounded retry metadata.
    pub fn new(
        attempts: Id32,
        last_attempt_at: Timestamp,
        next_attempt_at: Option<Timestamp>,
        destination_id: OutboxDestinationIdV1,
        last_safe_error: Option<OutboxSafeErrorV1>,
    ) -> (result: Self)
        ensures
            result@ == (RetryMetadataView {
                attempts,
                last_attempt_at,
                next_attempt_at,
                destination_id: destination_id@,
                last_safe_error: safe_error_view(last_safe_error),
            }),
    {
        OutboxRetryMetadataV1 {
            attempts,
            last_attempt_at,
            next_attempt_at,
            destination_id,
            last_safe_error,
        }
    }

    /// Returns the number of attempts already begun.
    pub fn attempts(&self) -> (result: Id32)
        ensures
            result == self@.attempts,
    {
        self.attempts
    }

    /// Returns the most recent worker-supplied attempt time.
    pub fn last_attempt_at(&self) -> (result: Timestamp)
        ensures
            result == self@.last_attempt_at,
    {
        self.last_attempt_at
    }

    /// Returns the worker-selected next eligible time, if any.
    pub fn next_attempt_at(&self) -> (result: Option<Timestamp>)
        ensures
            result == self@.next_attempt_at,
    {
        self.next_attempt_at
    }

    /// Borrows the selected destination identity.
    pub fn destination_id(&self) -> (result: &OutboxDestinationIdV1)
        ensures
            result@ == self@.destination_id,
    {
        &self.destination_id
    }

    /// Borrows the last policy-scrubbed connector failure, if retained.
    pub fn last_safe_error(&self) -> (result: Option<&OutboxSafeErrorV1>)
        ensures
            match result {
                Some(error) => self@.last_safe_error == Some(error@),
                None => self@.last_safe_error is None,
            },
    {
        match &self.last_safe_error {
            Some(error) => Some(error),
            None => None,
        }
    }
}

/// What a delivery state is.
#[allow(inconsistent_fields)]
pub ghost enum DeliveryView {
    Pending(RetryMetadataView),
    Delivering {
        attempt: Id32,
        destination_id: Seq<char>,
        started_at: Timestamp,
        lease_deadline: Timestamp,
    },
    Delivered { attempts: Id32, destination_id: Seq<char>, delivered_at: Timestamp },
    DeadLetter {
        attempts: u32,
        destination_id: Seq<char>,
        failed_at: Timestamp,
        last_safe_error: Option<Seq<char>>,
    },
}

/// The charge of a framed text.
pub open spec fn text_size(text: Seq<char>) -> nat {
    4 + encode_utf8(text).len()
}

/// The charge of an optional framed text.
pub open spec fn optional_text_size(text: Option<Seq<char>>) -> nat {
    match text {
        Some(text) => 1 + text_size(text),
        None => 1,
    }
}

impl DeliveryView {
    /// Attempts already begun.
    pub open spec fn attempts(self) -> u32 {
        match self {
            DeliveryView::Pending(metadata) => metadata.attempts.value,
            DeliveryView::Delivering { attempt, .. } => attempt.value,
            DeliveryView::Delivered { attempts, .. } => attempts.value,
            DeliveryView::DeadLetter { attempts, .. } => attempts,
        }
    }

    /// The destination that every explicit state names.
    pub open spec fn destination(self) -> Seq<char> {
        match self {
            DeliveryView::Pending(metadata) => metadata.destination_id,
            DeliveryView::Delivering { destination_id, .. } => destination_id,
            DeliveryView::Delivered { destination_id, .. } => destination_id,
            DeliveryView::DeadLetter { destination_id, .. } => destination_id,
        }
    }

    /// The semantic size: a tag, the attempts, times and framed texts.
    pub open spec fn size(self) -> nat {
        match self {
            DeliveryView::Pending(metadata) => 1 + 4 + 12 + (1 + if metadata.next_attempt_at
                is Some {
                12nat
            } else {
                0
            }) + text_size(metadata.destination_id) + optional_text_size(metadata.last_safe_error),
            DeliveryView::Delivering { destination_id, .. } => 1 + 4 + text_size(destination_id)
                + 12 + 12,
            DeliveryView::Delivered { destination_id, .. } => 1 + 4 + text_size(destination_id)
                + 12,
            DeliveryView::DeadLetter { destination_id, last_safe_error, .. } => 1 + 4 + text_size(
                destination_id,
            ) + 12 + optional_text_size(last_safe_error),
        }
    }
}

/// Closed derived delivery state stored after the canonical absent initial state.
#[allow(inconsistent_fields)]
#[derive(PartialEq, Eq)]
pub enum OutboxDeliveryStateV1 {
    /// A prior attempt may be retried according to worker policy.
    Pending(OutboxRetryMetadataV1),
    /// One attempt is currently leased by the single-node worker.
    Delivering {
        /// Nonzero attempt number, used to fence stale completions.
        attempt: Id32,
        /// Worker-selected destination configuration.
        destination_id: OutboxDestinationIdV1,
        /// Worker-supplied attempt start time.
        started_at: Timestamp,
        /// Worker-supplied lease deadline; duration policy is not storage-owned.
        lease_deadline: Timestamp,
    },
    /// Delivery completed for this destination.
    Delivered {
        /// Final nonzero attempt number.
        attempts: Id32,
        /// Destination that accepted the event.
        destination_id: OutboxDestinationIdV1,
        /// Worker-supplied completion time.
        delivered_at: Timestamp,
    },
    /// Worker policy selected a terminal delivery failure.
    DeadLetter {
        /// Number of attempts begun before the terminal decision.
        attempts: u32,
        /// Selected destination configuration.
        destination_id: OutboxDestinationIdV1,
        /// Worker-supplied terminal decision time.
        failed_at: Timestamp,
        /// Optional bounded policy-scrubbed failure summary.
        last_safe_error: Option<OutboxSafeErrorV1>,
    },
}

impl View for OutboxDeliveryStateV1 {
    type V = DeliveryView;

    open spec fn view(&self) -> DeliveryView {
        match self {
            OutboxDeliveryStateV1::Pending(metadata) => DeliveryView::Pending(metadata@),
            OutboxDeliveryStateV1::Delivering {
                attempt,
                destination_id,
                started_at,
                lease_deadline,
            } => DeliveryView::Delivering {
                attempt: *attempt,
                destination_id: destination_id@,
                started_at: *started_at,
                lease_deadline: *lease_deadline,
            },
            OutboxDeliveryStateV1::Delivered { attempts, destination_id, delivered_at } =>
                DeliveryView::Delivered {
                attempts: *attempts,
                destination_id: destination_id@,
                delivered_at: *delivered_at,
            },
            OutboxDeliveryStateV1::DeadLetter {
                attempts,
                destination_id,
                failed_at,
                last_safe_error,
            } => DeliveryView::DeadLetter {
                attempts: *attempts,
                destination_id: destination_id@,
                failed_at: *failed_at,
                last_safe_error: safe_error_view(*last_safe_error),
            },
        }
    }
}

impl Clone for OutboxDeliveryStateV1 {
    fn clone(&self) -> (result: OutboxDeliveryStateV1)
        ensures
            result@ == self@,
    {
        match self {
            OutboxDeliveryStateV1::Pending(metadata) => OutboxDeliveryStateV1::Pending(
                metadata.clone(),
            ),
            OutboxDeliveryStateV1::Delivering {
                attempt,
                destination_id,
                started_at,
                lease_deadline,
            } => OutboxDeliveryStateV1::Delivering {
                attempt: *attempt,
                destination_id: destination_id.clone(),
                started_at: *started_at,
                lease_deadline: *lease_deadline,
            },
            OutboxDeliveryStateV1::Delivered { attempts, destination_id, delivered_at } =>
                OutboxDeliveryStateV1::Delivered {
                attempts: *attempts,
                destination_id: destination_id.clone(),
                delivered_at: *delivered_at,
            },
            OutboxDeliveryStateV1::DeadLetter {
                attempts,
                destination_id,
                failed_at,
                last_safe_error,
            } => OutboxDeliveryStateV1::DeadLetter {
                attempts: *attempts,
                destination_id: destination_id.clone(),
                failed_at: *failed_at,
                last_safe_error: copy_safe_error(last_safe_error),
            },
        }
    }
}

/// Adds a part to a charge.
fn plus(
    total: Result<usize, StorageValueError>,
    part: usize,
    Ghost(sum): Ghost<nat>,
) -> (result: Result<usize, StorageValueError>)
    requires
        total == fitting(sum),
    ensures
        result == fitting(sum + part as nat),
{
    match total {
        Ok(total) => match total.checked_add(part) {
            Some(next) => Ok(next),
            None => Err(StorageValueError::SizeOverflow),
        },
        Err(error) => Err(error),
    }
}

impl OutboxDeliveryStateV1 {
    /// Returns whether the state is eligible for the pending scanner.
    pub fn is_pending(&self) -> (result: bool)
        ensures
            result == (self@ is Pending),
    {
        match self {
            OutboxDeliveryStateV1::Pending(_) => true,
            _ => false,
        }
    }

    /// Returns attempts already begun.
    pub fn attempts(&self) -> (result: u32)
        ensures
            result == self@.attempts(),
    {
        match self {
            OutboxDeliveryStateV1::Pending(metadata) => metadata.attempts.get(),
            OutboxDeliveryStateV1::Delivering { attempt, .. } => attempt.get(),
            OutboxDeliveryStateV1::Delivered { attempts, .. } => attempts.get(),
            OutboxDeliveryStateV1::DeadLetter { attempts, .. } => *attempts,
        }
    }

    fn destination(&self) -> (result: &OutboxDestinationIdV1)
        ensures
            result@ == self@.destination(),
    {
        match self {
            OutboxDeliveryStateV1::Pending(metadata) => &metadata.destination_id,
            OutboxDeliveryStateV1::Delivering { destination_id, .. } => destination_id,
            OutboxDeliveryStateV1::Delivered { destination_id, .. } => destination_id,
            OutboxDeliveryStateV1::DeadLetter { destination_id, .. } => destination_id,
        }
    }

    /// Returns the checked semantic size.
    pub fn semantic_bytes(&self) -> (result: Result<usize, StorageValueError>)
        ensures
            result == fitting(self@.size()),
    {
        let fixed: usize = match self {
            OutboxDeliveryStateV1::Pending(metadata) => if metadata.next_attempt_at.is_some() {
                1 + 4 + 12 + (1 + 12) + 4 + 1
            } else {
                1 + 4 + 12 + 1 + 4 + 1
            },
            OutboxDeliveryStateV1::Delivering { .. } => 1 + 4 + 4 + 12 + 12,
            OutboxDeliveryStateV1::Delivered { .. } => 1 + 4 + 4 + 12,
            OutboxDeliveryStateV1::DeadLetter { .. } => 1 + 4 + 4 + 12 + 1,
        };
        let destination = self.destination().as_str().as_bytes().len();
        let with_destination = plus(Ok(fixed), destination, Ghost(fixed as nat));
        let ghost sum = fixed as nat + destination as nat;
        let safe_error = match self {
            OutboxDeliveryStateV1::Pending(metadata) => &metadata.last_safe_error,
            OutboxDeliveryStateV1::DeadLetter { last_safe_error, .. } => last_safe_error,
            _ => {
                return with_destination;
            },
        };
        match safe_error {
            Some(error) => {
                let length = error.as_str().as_bytes().len();
                let framed = plus(with_destination, 4, Ghost(sum));
                plus(framed, length, Ghost(sum + 4))
            },
            None => with_destination,
        }
    }
}

/// What a status row is.
#[verifier::ext_equal]
pub ghost struct OutboxStatusView {
    pub event_id: EventId,
    pub state: DeliveryView,
}

/// One present derived status row, always linked by the same event ID as its key.
#[derive(PartialEq, Eq)]
pub struct StoredOutboxStatusV1 {
    pub event_id: EventId,
    pub state: OutboxDeliveryStateV1,
}

impl View for StoredOutboxStatusV1 {
    type V = OutboxStatusView;

    open spec fn view(&self) -> OutboxStatusView {
        OutboxStatusView { event_id: self.event_id, state: self.state@ }
    }
}

impl Clone for StoredOutboxStatusV1 {
    fn clone(&self) -> (result: StoredOutboxStatusV1)
        ensures
            result@ == self@,
    {
        StoredOutboxStatusV1 { event_id: self.event_id, state: self.state.clone() }
    }
}

impl StoredOutboxStatusV1 {
    /// Constructs an explicit retryable pending row.
    pub fn pending(event_id: EventId, metadata: OutboxRetryMetadataV1) -> (result: Self)
        ensures
            result@ == (OutboxStatusView { event_id, state: DeliveryView::Pending(metadata@) }),
    {
        StoredOutboxStatusV1 { event_id, state: OutboxDeliveryStateV1::Pending(metadata) }
    }

    /// Constructs an in-flight attempt row.
    pub fn delivering(
        event_id: EventId,
        attempt: Id32,
        destination_id: OutboxDestinationIdV1,
        started_at: Timestamp,
        lease_deadline: Timestamp,
    ) -> (result: Self)
        ensures
            result@ == (OutboxStatusView {
                event_id,
                state: DeliveryView::Delivering {
                    attempt,
                    destination_id: destination_id@,
                    started_at,
                    lease_deadline,
                },
            }),
    {
        StoredOutboxStatusV1 {
            event_id,
            state: OutboxDeliveryStateV1::Delivering {
                attempt,
                destination_id,
                started_at,
                lease_deadline,
            },
        }
    }

    /// Constructs a completed status row.
    pub fn delivered(
        event_id: EventId,
        attempts: Id32,
        destination_id: OutboxDestinationIdV1,
        delivered_at: Timestamp,
    ) -> (result: Self)
        ensures
            result@ == (OutboxStatusView {
                event_id,
                state: DeliveryView::Delivered {
                    attempts,
                    destination_id: destination_id@,
                    delivered_at,
                },
            }),
    {
        StoredOutboxStatusV1 {
            event_id,
            state: OutboxDeliveryStateV1::Delivered { attempts, destination_id, delivered_at },
        }
    }

    /// Constructs a worker-selected terminal failure row.
    pub fn dead_letter(
        event_id: EventId,
        attempts: u32,
        destination_id: OutboxDestinationIdV1,
        failed_at: Timestamp,
        last_safe_error: Option<OutboxSafeErrorV1>,
    ) -> (result: Self)
        ensures
            result@ == (OutboxStatusView {
                event_id,
                state: DeliveryView::DeadLetter {
                    attempts,
                    destination_id: destination_id@,
                    failed_at,
                    last_safe_error: safe_error_view(last_safe_error),
                },
            }),
    {
        StoredOutboxStatusV1 {
            event_id,
            state: OutboxDeliveryStateV1::DeadLetter {
                attempts,
                destination_id,
                failed_at,
                last_safe_error,
            },
        }
    }

    /// Returns the linked stable event identity.
    pub fn event_id(&self) -> (result: EventId)
        ensures
            result == self@.event_id,
    {
        self.event_id
    }

    /// Borrows the complete closed delivery state.
    pub fn state(&self) -> (result: &OutboxDeliveryStateV1)
        ensures
            *result == self.state,
    {
        &self.state
    }
}

/// What an observed status is.
pub ghost enum ObservedStatusView {
    Absent,
    Present(OutboxStatusView),
}

impl ObservedStatusView {
    /// Pending, canonically or explicitly.
    pub open spec fn pending(self) -> bool {
        match self {
            ObservedStatusView::Absent => true,
            ObservedStatusView::Present(status) => status.state is Pending,
        }
    }

    /// Attempts already begun; an absent status has none.
    pub open spec fn attempts(self) -> u32 {
        match self {
            ObservedStatusView::Absent => 0,
            ObservedStatusView::Present(status) => status.state.attempts(),
        }
    }

    /// Whether the observation may be one of this event.
    pub open spec fn about(self, event_id: EventId) -> bool {
        self matches ObservedStatusView::Present(status) ==> status.event_id == event_id
    }

    /// The semantic size.
    pub open spec fn size(self) -> nat {
        match self {
            ObservedStatusView::Absent => 1,
            ObservedStatusView::Present(status) => 1 + 12 + status.state.size(),
        }
    }
}

/// Exact stored observation used by compare-and-transition operations.
#[derive(PartialEq, Eq)]
pub enum OutboxStatusObservationV1 {
    /// No row: canonical never-attempted pending with zero attempts.
    AbsentInitialPending,
    /// One explicit status row.
    Present(StoredOutboxStatusV1),
}

impl View for OutboxStatusObservationV1 {
    type V = ObservedStatusView;

    open spec fn view(&self) -> ObservedStatusView {
        match self {
            OutboxStatusObservationV1::AbsentInitialPending => ObservedStatusView::Absent,
            OutboxStatusObservationV1::Present(status) => ObservedStatusView::Present(status@),
        }
    }
}

impl Clone for OutboxStatusObservationV1 {
    fn clone(&self) -> (result: OutboxStatusObservationV1)
        ensures
            result@ == self@,
    {
        match self {
            OutboxStatusObservationV1::AbsentInitialPending =>
                OutboxStatusObservationV1::AbsentInitialPending,
            OutboxStatusObservationV1::Present(status) => OutboxStatusObservationV1::Present(
                status.clone(),
            ),
        }
    }
}

impl OutboxStatusObservationV1 {
    /// Returns whether this is either canonical or explicit pending state.
    pub fn is_pending(&self) -> (result: bool)
        ensures
            result == self@.pending(),
    {
        match self {
            OutboxStatusObservationV1::AbsentInitialPending => true,
            OutboxStatusObservationV1::Present(status) => status.state.is_pending(),
        }
    }

    /// Returns attempts already begun, with absent status canonically zero.
    pub fn attempts(&self) -> (result: u32)
        ensures
            result == self@.attempts(),
    {
        match self {
            OutboxStatusObservationV1::AbsentInitialPending => 0,
            OutboxStatusObservationV1::Present(status) => status.state.attempts(),
        }
    }

    fn validate_event_id(&self, event_id: EventId) -> (result: Result<(), StorageValueError>)
        ensures
            result == if self@.about(event_id) {
                Ok::<(), StorageValueError>(())
            } else {
                Err(StorageValueError::IdentityMismatch)
            },
    {
        if let OutboxStatusObservationV1::Present(status) = self {
            if status.event_id != event_id {
                return Err(StorageValueError::IdentityMismatch);
            }
        }
        Ok(())
    }

    /// Returns the checked semantic size.
    pub fn semantic_bytes(&self) -> (result: Result<usize, StorageValueError>)
        ensures
            result == fitting(self@.size()),
    {
        match self {
            OutboxStatusObservationV1::AbsentInitialPending => Ok(1),
            OutboxStatusObservationV1::Present(status) => plus(
                status.state.semantic_bytes(),
                1 + 12,
                Ghost(status@.state.size()),
            ),
        }
    }
}

/// The authoritative intent to deliver one event.
#[derive(Clone, PartialEq, Eq)]
pub struct StoredOutboxIntentV1 {
    pub event: StoredDurableEventV1,
}

impl StoredOutboxIntentV1 {
    /// Intends the delivery of one event.
    pub fn new(event: StoredDurableEventV1) -> (result: Self)
        ensures
            result == (StoredOutboxIntentV1 { event }),
    {
        StoredOutboxIntentV1 { event }
    }

    /// Borrows the event.
    pub fn event(&self) -> (result: &StoredDurableEventV1)
        ensures
            *result == self.event,
    {
        &self.event
    }
}

/// What a pending item is.
#[verifier::ext_equal]
pub ghost struct PendingItemView {
    pub event: DurableEventView,
    pub intent: DurableEventView,
    pub status: ObservedStatusView,
}

/// The semantic size of an event: framed payload, identity, type and hash.
pub open spec fn event_size(event: DurableEventView) -> nat {
    (4 + event.payload.encoded.len()) + 12 + 4 + 32
}

/// One pending authoritative event/intent tuple and its exact status observation.
#[derive(Clone, PartialEq, Eq)]
pub struct PendingOutboxItemV1 {
    pub event: StoredDurableEventV1,
    pub intent: StoredOutboxIntentV1,
    pub status: OutboxStatusObservationV1,
}

impl View for PendingOutboxItemV1 {
    type V = PendingItemView;

    open spec fn view(&self) -> PendingItemView {
        PendingItemView {
            event: self.event@,
            intent: self.intent.event@,
            status: self.status@,
        }
    }
}

/// What pairing an event with its intent and status gives.
pub open spec fn pending_item_made(
    event: StoredDurableEventV1,
    intent: StoredOutboxIntentV1,
    status: OutboxStatusObservationV1,
    result: Result<PendingOutboxItemV1, StorageValueError>,
) -> bool {
    if intent.event@ == event@ && status@.pending() && status@.about(event.event_id) {
        result is Ok && result->Ok_0@ == (PendingItemView {
            event: event@,
            intent: intent.event@,
            status: status@,
        })
    } else {
        result == Err::<PendingOutboxItemV1, _>(StorageValueError::IdentityMismatch)
    }
}

impl PendingOutboxItemV1 {
    /// Checks reciprocal authoritative content and pending status.
    pub fn new(
        event: StoredDurableEventV1,
        intent: StoredOutboxIntentV1,
        status: OutboxStatusObservationV1,
    ) -> (result: Result<Self, StorageValueError>)
        ensures
            pending_item_made(event, intent, status, result),
    {
        if !intent.event().same(&event) || !status.is_pending() {
            return Err(StorageValueError::IdentityMismatch);
        }
        match status.validate_event_id(event.event_id) {
            Ok(()) => Ok(PendingOutboxItemV1 { event, intent, status }),
            Err(error) => Err(error),
        }
    }

    /// Returns the stable downstream deduplication identity.
    pub fn event_id(&self) -> (result: EventId)
        ensures
            result == self@.event.event_id,
    {
        self.event.event_id
    }

    /// Borrows the authoritative event.
    pub fn event(&self) -> (result: &StoredDurableEventV1)
        ensures
            *result == self.event,
    {
        &self.event
    }

    /// Borrows the reciprocal authoritative intent.
    pub fn intent(&self) -> (result: &StoredOutboxIntentV1)
        ensures
            *result == self.intent,
    {
        &self.intent
    }

    /// Borrows the exact absent-or-present status observation.
    pub fn status(&self) -> (result: &OutboxStatusObservationV1)
        ensures
            *result == self.status,
    {
        &self.status
    }

    /// Returns the checked semantic size: both event copies and the status.
    pub fn semantic_bytes(&self) -> (result: Result<usize, StorageValueError>)
        ensures
            result == fitting(2 * event_size(self@.event) + self@.status.size()),
    {
        let payload = self.event.payload.encoded.len();
        let once = plus(Ok(payload), 4 + 12 + 4 + 32, Ghost(payload as nat));
        let ghost size = event_size(self@.event);
        let doubled = match once {
            Ok(bytes) => match bytes.checked_mul(2) {
                Some(doubled) => doubled,
                None => {
                    return Err(StorageValueError::SizeOverflow);
                },
            },
            Err(error) => {
                return Err(error);
            },
        };
        match self.status.semantic_bytes() {
            Ok(status) => plus(Ok(doubled), status, Ghost(2 * size)),
            Err(error) => Err(error),
        }
    }
}

/// The event identities strictly increase.
pub open spec fn events_ascend(ids: Seq<EventId>) -> bool {
    forall|i: int| 0 <= i < ids.len() - 1 ==> (#[trigger] ids[i]).before(ids[i + 1])
}

/// The event identities of pending items.
pub open spec fn pending_ids(items: Seq<EncodedPageItem<PendingOutboxItemV1>>) -> Seq<EventId> {
    Seq::new(items.len(), |i: int| items[i].value.event.event_id)
}

/// Why items do not form a pending page, if they do not.
pub open spec fn pending_page_refusal(
    ids: Seq<EventId>,
    charge: nat,
    has_more: bool,
) -> Option<StorageValueError> {
    if ids.len() > MAX_SCAN_PAGE_ENTRIES {
        Some(StorageValueError::LimitExceeded)
    } else if !events_ascend(ids) {
        Some(StorageValueError::NonCanonicalOrder)
    } else if charge > usize::MAX {
        Some(StorageValueError::SizeOverflow)
    } else if charge > MAX_SCAN_PAGE_BYTES {
        Some(StorageValueError::LimitExceeded)
    } else if has_more && ids.len() == 0 {
        Some(StorageValueError::InvalidShape)
    } else {
        None
    }
}

/// Exact-end bounded pending scan result in increasing event order.
#[derive(Clone, PartialEq, Eq)]
pub enum PendingOutboxScanV1 {
    /// A non-final page with its exclusive next lower bound.
    Page {
        /// Pending authoritative tuples in strict order.
        items: Vec<EncodedPageItem<PendingOutboxItemV1>>,
        /// Last returned event ID.
        next_after: EventId,
    },
    /// The supplied scan reached the exact end, including an empty result.
    ExactEnd {
        /// Final pending tuples in strict order.
        items: Vec<EncodedPageItem<PendingOutboxItemV1>>,
    },
}

/// What making a page of pending items gives.
pub open spec fn pending_page_made(
    items: Vec<EncodedPageItem<PendingOutboxItemV1>>,
    has_more: bool,
    result: Result<PendingOutboxScanV1, StorageValueError>,
) -> bool {
    match pending_page_refusal(pending_ids(items@), page_charge(items@), has_more) {
        Some(error) => result == Err::<PendingOutboxScanV1, _>(error),
        None => result == Ok::<PendingOutboxScanV1, StorageValueError>(
            if has_more {
                PendingOutboxScanV1::Page {
                    items,
                    next_after: pending_ids(items@).last(),
                }
            } else {
                PendingOutboxScanV1::ExactEnd { items }
            },
        ),
    }
}

impl PendingOutboxScanV1 {
    /// Validates count, bytes, strict order, and exact-end shape.
    pub fn page(items: Vec<EncodedPageItem<PendingOutboxItemV1>>, has_more: bool) -> (result:
        Result<Self, StorageValueError>)
        ensures
            pending_page_made(items, has_more, result),
    {
        if items.len() > MAX_SCAN_PAGE_ENTRIES {
            return Err(StorageValueError::LimitExceeded);
        }
        let ghost ids = pending_ids(items@);
        let mut i: usize = 1;
        while i < items.len()
            invariant
                1 <= i,
                i <= items@.len() || i == 1,
                items@.len() <= MAX_SCAN_PAGE_ENTRIES,
                ids == pending_ids(items@),
                forall|k: int| 0 <= k < i - 1 ==> (#[trigger] ids[k]).before(ids[k + 1]),
            decreases items@.len() - i,
        {
            if !items[i - 1].value().event_id().is_before(items[i].value().event_id()) {
                assert(!ids[i - 1].before(ids[i - 1 + 1]));
                return Err(StorageValueError::NonCanonicalOrder);
            }
            assert(ids[i - 1].before(ids[i as int]));
            i += 1;
        }
        match checked_encoded_page_content(&items, MAX_SCAN_PAGE_BYTES) {
            Ok(_) => {},
            Err(error) => {
                return Err(error);
            },
        }
        if has_more {
            if items.len() == 0 {
                return Err(StorageValueError::InvalidShape);
            }
            let next_after = items[items.len() - 1].value().event_id();
            Ok(PendingOutboxScanV1::Page { items, next_after })
        } else {
            Ok(PendingOutboxScanV1::ExactEnd { items })
        }
    }
}

/// One source-validated outbox status that has not reached delivered state.
#[derive(PartialEq, Eq)]
pub struct UndeliveredOutboxStatusV1 {
    pub event_id: EventId,
    pub status: OutboxStatusObservationV1,
}

impl Clone for UndeliveredOutboxStatusV1 {
    fn clone(&self) -> (result: UndeliveredOutboxStatusV1)
        ensures
            result.event_id == self.event_id,
            result.status@ == self.status@,
    {
        UndeliveredOutboxStatusV1 { event_id: self.event_id, status: self.status.clone() }
    }
}

/// What taking a status for an undelivered one gives.
pub open spec fn undelivered_status_made(
    event_id: EventId,
    status: OutboxStatusObservationV1,
    result: Result<UndeliveredOutboxStatusV1, StorageValueError>,
) -> bool {
    result == if !status@.about(event_id) {
        Err::<UndeliveredOutboxStatusV1, StorageValueError>(StorageValueError::IdentityMismatch)
    } else if status@ matches ObservedStatusView::Present(row) && row.state is Delivered {
        Err(StorageValueError::InvalidShape)
    } else {
        Ok(UndeliveredOutboxStatusV1 { event_id, status })
    }
}

impl UndeliveredOutboxStatusV1 {
    /// Checks event identity and rejects already delivered status.
    pub fn new(event_id: EventId, status: OutboxStatusObservationV1) -> (result: Result<
        Self,
        StorageValueError,
    >)
        ensures
            undelivered_status_made(event_id, status, result),
    {
        match status.validate_event_id(event_id) {
            Ok(()) => {},
            Err(error) => {
                return Err(error);
            },
        }
        if let OutboxStatusObservationV1::Present(row) = &status {
            if let OutboxDeliveryStateV1::Delivered { .. } = &row.state {
                return Err(StorageValueError::InvalidShape);
            }
        }
        Ok(UndeliveredOutboxStatusV1 { event_id, status })
    }

    /// Returns the stable event identity.
    pub fn event_id(&self) -> (result: EventId)
        ensures
            result == self.event_id,
    {
        self.event_id
    }

    /// Borrows the exact absent-or-present status observation.
    pub fn status(&self) -> (result: &OutboxStatusObservationV1)
        ensures
            *result == self.status,
    {
        &self.status
    }
}

/// Frozen upper fence for one complete undelivered-outbox recovery scan.
#[derive(Clone, Copy, Debug, PartialEq, Eq, Structural)]
pub enum OutboxRecoveryUpperFenceV1 {
    /// No reciprocal authoritative event and intent existed at the initial read.
    BeforeFirst,
    /// Greatest reciprocal authoritative event visible at the initial read.
    Inclusive(EventId),
}

/// Opaque continuation for one frozen undelivered-outbox recovery scan.
///
/// Consumers pass it back unchanged, so a continuation cannot silently take a
/// newer upper fence.
#[derive(Clone, Copy, Debug, PartialEq, Eq, Structural)]
pub struct UndeliveredOutboxStatusContinuationV1 {
    pub after: EventId,
    pub inclusive_upper: EventId,
}

impl UndeliveredOutboxStatusContinuationV1 {
    /// Returns the exclusive lower event bound.
    pub fn after(self) -> (result: EventId)
        ensures
            result == self.after,
    {
        self.after
    }

    /// Returns the frozen inclusive upper event bound.
    pub fn inclusive_upper(self) -> (result: EventId)
        ensures
            result == self.inclusive_upper,
    {
        self.inclusive_upper
    }
}

/// Checked request for one page of a frozen undelivered-outbox recovery scan.
#[derive(Clone, Copy, Debug, PartialEq, Eq)]
pub enum UndeliveredOutboxStatusScanRequestV1 {
    /// First page; storage captures the greatest reciprocal event identity.
    Initial {
        /// Optional exclusive lower event bound for a fresh bounded status page.
        after: Option<EventId>,
        /// Bounded page limit.
        limit: OutboxPageLimit,
    },
    /// Later page; the opaque continuation retains the original upper fence.
    Continue {
        /// Continuation returned by the preceding non-final page.
        continuation: UndeliveredOutboxStatusContinuationV1,
        /// Bounded page limit.
        limit: OutboxPageLimit,
    },
}

impl UndeliveredOutboxStatusScanRequestV1 {
    /// The exclusive lower bound.
    pub open spec fn lower(self) -> Option<EventId> {
        match self {
            UndeliveredOutboxStatusScanRequestV1::Initial { after, .. } => after,
            UndeliveredOutboxStatusScanRequestV1::Continue { continuation, .. } => Some(
                continuation.after,
            ),
        }
    }

    /// The frozen inclusive upper bound.
    pub open spec fn upper(self) -> Option<EventId> {
        match self {
            UndeliveredOutboxStatusScanRequestV1::Initial { .. } => None,
            UndeliveredOutboxStatusScanRequestV1::Continue { continuation, .. } => Some(
                continuation.inclusive_upper,
            ),
        }
    }

    /// The row limit.
    pub open spec fn rows(self) -> u16 {
        match self {
            UndeliveredOutboxStatusScanRequestV1::Initial { limit, .. } => limit.value.value,
            UndeliveredOutboxStatusScanRequestV1::Continue { limit, .. } => limit.value.value,
        }
    }

    /// Constructs a first-page request.
    pub fn initial(after: Option<EventId>, limit: OutboxPageLimit) -> (result: Self)
        ensures
            result == (UndeliveredOutboxStatusScanRequestV1::Initial { after, limit }),
    {
        UndeliveredOutboxStatusScanRequestV1::Initial { after, limit }
    }

    /// Constructs a continuation request from the preceding checked page.
    pub fn continuing(
        continuation: UndeliveredOutboxStatusContinuationV1,
        limit: OutboxPageLimit,
    ) -> (result: Self)
        ensures
            result == (UndeliveredOutboxStatusScanRequestV1::Continue { continuation, limit }),
    {
        UndeliveredOutboxStatusScanRequestV1::Continue { continuation, limit }
    }

    /// Returns the exclusive lower event bound, when continuing.
    pub fn after(self) -> (result: Option<EventId>)
        ensures
            result == self.lower(),
    {
        match self {
            UndeliveredOutboxStatusScanRequestV1::Initial { after, .. } => after,
            UndeliveredOutboxStatusScanRequestV1::Continue { continuation, .. } => Some(
                continuation.after,
            ),
        }
    }

    /// Returns the frozen inclusive upper event bound, when continuing.
    pub fn inclusive_upper(self) -> (result: Option<EventId>)
        ensures
            result == self.upper(),
    {
        match self {
            UndeliveredOutboxStatusScanRequestV1::Initial { .. } => None,
            UndeliveredOutboxStatusScanRequestV1::Continue { continuation, .. } => Some(
                continuation.inclusive_upper,
            ),
        }
    }

    /// Returns the checked requested row count.
    pub fn limit(self) -> (result: OutboxPageLimit)
        ensures
            result.value.value == self.rows(),
    {
        match self {
            UndeliveredOutboxStatusScanRequestV1::Initial { limit, .. } => limit,
            UndeliveredOutboxStatusScanRequestV1::Continue { limit, .. } => limit,
        }
    }
}

/// The event identities of undelivered statuses.
pub open spec fn undelivered_ids(items: Seq<EncodedPageItem<UndeliveredOutboxStatusV1>>) -> Seq<
    EventId,
> {
    Seq::new(items.len(), |i: int| items[i].value.event_id)
}

/// Whether an event lies beyond the lower bound and not beyond the upper one.
pub open spec fn within_scan(
    request: UndeliveredOutboxStatusScanRequestV1,
    upper: EventId,
    id: EventId,
) -> bool {
    (request.lower() matches Some(after) ==> after.before(id)) && !upper.before(id)
}

/// Why statuses do not answer a scan request, if they do not.
pub open spec fn undelivered_refusal(
    request: UndeliveredOutboxStatusScanRequestV1,
    upper: EventId,
    ids: Seq<EventId>,
    charge: nat,
) -> Option<StorageValueError> {
    if request.upper() matches Some(expected) && expected != upper {
        Some(StorageValueError::IdentityMismatch)
    } else if ids.len() > request.rows() {
        Some(StorageValueError::LimitExceeded)
    } else if !events_ascend(ids) {
        Some(StorageValueError::NonCanonicalOrder)
    } else if exists|i: int| 0 <= i < ids.len() && !within_scan(request, upper, #[trigger] ids[i]) {
        Some(StorageValueError::InvalidShape)
    } else if charge > usize::MAX {
        Some(StorageValueError::SizeOverflow)
    } else if charge > MAX_SCAN_PAGE_BYTES {
        Some(StorageValueError::LimitExceeded)
    } else {
        None
    }
}

fn validate_undelivered_scan_items(
    request: UndeliveredOutboxStatusScanRequestV1,
    inclusive_upper: EventId,
    items: &[EncodedPageItem<UndeliveredOutboxStatusV1>],
) -> (result: Result<(), StorageValueError>)
    ensures
        match undelivered_refusal(
            request,
            inclusive_upper,
            undelivered_ids(items@),
            page_charge(items@),
        ) {
            Some(error) => result == Err::<(), _>(error),
            None => result is Ok,
        },
{
    if let Some(expected) = request.inclusive_upper() {
        if expected != inclusive_upper {
            return Err(StorageValueError::IdentityMismatch);
        }
    }
    if items.len() > request.limit().get().get() as usize {
        return Err(StorageValueError::LimitExceeded);
    }
    let ghost ids = undelivered_ids(items@);
    let mut i: usize = 1;
    #[verifier::loop_isolation(false)]
    while i < items.len()
        invariant
            1 <= i,
            i <= items@.len() || i == 1,
            forall|k: int| 0 <= k < i - 1 ==> (#[trigger] ids[k]).before(ids[k + 1]),
        decreases items@.len() - i,
    {
        if !items[i - 1].value().event_id().is_before(items[i].value().event_id()) {
            assert(!ids[i - 1].before(ids[i - 1 + 1]));
            return Err(StorageValueError::NonCanonicalOrder);
        }
        assert(ids[i - 1].before(ids[i as int]));
        i += 1;
    }
    assert(events_ascend(ids));
    let mut j: usize = 0;
    #[verifier::loop_isolation(false)]
    while j < items.len()
        invariant
            j <= items@.len(),
            forall|k: int| 0 <= k < j ==> within_scan(request, inclusive_upper, #[trigger] ids[k]),
        decreases items@.len() - j,
    {
        let id = items[j].value().event_id();
        let above = match request.after() {
            Some(after) => after.is_before(id),
            None => true,
        };
        if !above || inclusive_upper.is_before(id) {
            assert(!within_scan(request, inclusive_upper, ids[j as int]));
            return Err(StorageValueError::InvalidShape);
        }
        assert(within_scan(request, inclusive_upper, ids[j as int]));
        j += 1;
    }
    match checked_encoded_page_content(items, MAX_SCAN_PAGE_BYTES) {
        Ok(_) => Ok(()),
        Err(error) => Err(error),
    }
}

/// Exact-end bounded undelivered scan in increasing event order.
#[derive(Clone, PartialEq, Eq)]
pub enum UndeliveredOutboxStatusScanV1 {
    /// A non-final page bound to the first read's frozen upper fence.
    Page {
        /// Payload-free statuses with their complete source-record charge.
        items: Vec<EncodedPageItem<UndeliveredOutboxStatusV1>>,
        /// Opaque exclusive continuation retaining the frozen upper fence.
        continuation: UndeliveredOutboxStatusContinuationV1,
    },
    /// The frozen scan reached exact end, including an empty result.
    ExactEnd {
        /// Final payload-free statuses with their complete source-record charge.
        items: Vec<EncodedPageItem<UndeliveredOutboxStatusV1>>,
        /// Upper fence captured by the initial read.
        inclusive_upper: OutboxRecoveryUpperFenceV1,
    },
}

/// Why statuses are no non-final page, if they are none.
pub open spec fn undelivered_page_refusal(
    request: UndeliveredOutboxStatusScanRequestV1,
    upper: EventId,
    ids: Seq<EventId>,
    charge: nat,
) -> Option<StorageValueError> {
    match undelivered_refusal(request, upper, ids, charge) {
        Some(error) => Some(error),
        None => if ids.len() == 0 || !ids.last().before(upper) {
            Some(StorageValueError::InvalidShape)
        } else {
            None
        },
    }
}

/// Why statuses are no final page, if they are none.
pub open spec fn undelivered_end_refusal(
    request: UndeliveredOutboxStatusScanRequestV1,
    fence: OutboxRecoveryUpperFenceV1,
    ids: Seq<EventId>,
    charge: nat,
) -> Option<StorageValueError> {
    match fence {
        OutboxRecoveryUpperFenceV1::BeforeFirst => if !(request is Initial) || ids.len() > 0 {
            Some(StorageValueError::InvalidShape)
        } else {
            None
        },
        OutboxRecoveryUpperFenceV1::Inclusive(upper) => undelivered_refusal(
            request,
            upper,
            ids,
            charge,
        ),
    }
}

/// What making a non-final page of statuses gives.
pub open spec fn undelivered_page_made(
    request: UndeliveredOutboxStatusScanRequestV1,
    inclusive_upper: EventId,
    items: Vec<EncodedPageItem<UndeliveredOutboxStatusV1>>,
    result: Result<UndeliveredOutboxStatusScanV1, StorageValueError>,
) -> bool {
    match undelivered_page_refusal(
        request,
        inclusive_upper,
        undelivered_ids(items@),
        page_charge(items@),
    ) {
        Some(error) => result == Err::<UndeliveredOutboxStatusScanV1, _>(error),
        None => result == Ok::<UndeliveredOutboxStatusScanV1, StorageValueError>(
            UndeliveredOutboxStatusScanV1::Page {
                items,
                continuation: UndeliveredOutboxStatusContinuationV1 {
                    after: undelivered_ids(items@).last(),
                    inclusive_upper,
                },
            },
        ),
    }
}

/// What making a final page of statuses gives.
pub open spec fn undelivered_end_made(
    request: UndeliveredOutboxStatusScanRequestV1,
    inclusive_upper: OutboxRecoveryUpperFenceV1,
    items: Vec<EncodedPageItem<UndeliveredOutboxStatusV1>>,
    result: Result<UndeliveredOutboxStatusScanV1, StorageValueError>,
) -> bool {
    match undelivered_end_refusal(
        request,
        inclusive_upper,
        undelivered_ids(items@),
        page_charge(items@),
    ) {
        Some(error) => result == Err::<UndeliveredOutboxStatusScanV1, _>(error),
        None => result == Ok::<UndeliveredOutboxStatusScanV1, StorageValueError>(
            UndeliveredOutboxStatusScanV1::ExactEnd { items, inclusive_upper },
        ),
    }
}

impl UndeliveredOutboxStatusScanV1 {
    /// Checks a non-final page and constructs its opaque continuation.
    pub fn page(
        request: UndeliveredOutboxStatusScanRequestV1,
        inclusive_upper: EventId,
        items: Vec<EncodedPageItem<UndeliveredOutboxStatusV1>>,
    ) -> (result: Result<Self, StorageValueError>)
        ensures
            undelivered_page_made(request, inclusive_upper, items, result),
    {
        match validate_undelivered_scan_items(request, inclusive_upper, &items) {
            Ok(()) => {},
            Err(error) => {
                return Err(error);
            },
        }
        if items.len() == 0 {
            return Err(StorageValueError::InvalidShape);
        }
        let after = items[items.len() - 1].value().event_id();
        assert(after == undelivered_ids(items@).last());
        if !after.is_before(inclusive_upper) {
            return Err(StorageValueError::InvalidShape);
        }
        Ok(
            UndeliveredOutboxStatusScanV1::Page {
                items,
                continuation: UndeliveredOutboxStatusContinuationV1 { after, inclusive_upper },
            },
        )
    }

    /// Checks a final page, including an empty before-first result.
    pub fn exact_end(
        request: UndeliveredOutboxStatusScanRequestV1,
        inclusive_upper: OutboxRecoveryUpperFenceV1,
        items: Vec<EncodedPageItem<UndeliveredOutboxStatusV1>>,
    ) -> (result: Result<Self, StorageValueError>)
        ensures
            undelivered_end_made(request, inclusive_upper, items, result),
    {
        match inclusive_upper {
            OutboxRecoveryUpperFenceV1::BeforeFirst => {
                let initial = match request {
                    UndeliveredOutboxStatusScanRequestV1::Initial { .. } => true,
                    UndeliveredOutboxStatusScanRequestV1::Continue { .. } => false,
                };
                if !initial || items.len() > 0 {
                    return Err(StorageValueError::InvalidShape);
                }
            },
            OutboxRecoveryUpperFenceV1::Inclusive(upper) => {
                match validate_undelivered_scan_items(request, upper, &items) {
                    Ok(()) => {},
                    Err(error) => {
                        return Err(error);
                    },
                }
            },
        }
        Ok(UndeliveredOutboxStatusScanV1::ExactEnd { items, inclusive_upper })
    }

    /// Borrows the statuses in this page.
    pub fn items(&self) -> (result: &[EncodedPageItem<UndeliveredOutboxStatusV1>])
        ensures
            result@ == match *self {
                UndeliveredOutboxStatusScanV1::Page { items, .. } => items@,
                UndeliveredOutboxStatusScanV1::ExactEnd { items, .. } => items@,
            },
    {
        match self {
            UndeliveredOutboxStatusScanV1::Page { items, .. } => items.as_slice(),
            UndeliveredOutboxStatusScanV1::ExactEnd { items, .. } => items.as_slice(),
        }
    }

    /// Returns the opaque continuation only when more source rows remain.
    pub fn continuation(&self) -> (result: Option<UndeliveredOutboxStatusContinuationV1>)
        ensures
            result == match *self {
                UndeliveredOutboxStatusScanV1::Page { continuation, .. } => Some(continuation),
                UndeliveredOutboxStatusScanV1::ExactEnd { .. } => None,
            },
    {
        match self {
            UndeliveredOutboxStatusScanV1::Page { continuation, .. } => Some(*continuation),
            UndeliveredOutboxStatusScanV1::ExactEnd { .. } => None,
        }
    }

    /// Returns the frozen upper fence.
    pub fn inclusive_upper(&self) -> (result: OutboxRecoveryUpperFenceV1)
        ensures
            result == match *self {
                UndeliveredOutboxStatusScanV1::Page { continuation, .. } =>
                    OutboxRecoveryUpperFenceV1::Inclusive(continuation.inclusive_upper),
                UndeliveredOutboxStatusScanV1::ExactEnd { inclusive_upper, .. } => inclusive_upper,
            },
    {
        match self {
            UndeliveredOutboxStatusScanV1::Page { continuation, .. } =>
                OutboxRecoveryUpperFenceV1::Inclusive(continuation.inclusive_upper),
            UndeliveredOutboxStatusScanV1::ExactEnd { inclusive_upper, .. } => *inclusive_upper,
        }
    }
}

/// A page that follows a continuation keeps the continuation's upper fence and
/// shows only events beyond the ones already shown.
pub proof fn continued_scans_keep_their_fence(
    continuation: UndeliveredOutboxStatusContinuationV1,
    limit: OutboxPageLimit,
    upper: EventId,
    ids: Seq<EventId>,
    charge: nat,
    i: int,
)
    requires
        undelivered_refusal(
            UndeliveredOutboxStatusScanRequestV1::Continue { continuation, limit },
            upper,
            ids,
            charge,
        ) is None,
        0 <= i < ids.len(),
    ensures
        upper == continuation.inclusive_upper,
        continuation.after.before(ids[i]),
        !continuation.inclusive_upper.before(ids[i]),
{
    let request = UndeliveredOutboxStatusScanRequestV1::Continue { continuation, limit };
    assert(within_scan(request, upper, ids[i]));
}

/// The in-flight row that a claim of a pending observation leads to.
pub open spec fn claimed(
    event_id: EventId,
    expected: ObservedStatusView,
    destination_id: Seq<char>,
    started_at: Timestamp,
    lease_deadline: Timestamp,
) -> Result<OutboxStatusView, StorageValueError> {
    if !expected.about(event_id) {
        Err(StorageValueError::IdentityMismatch)
    } else if !expected.pending() {
        Err(StorageValueError::InvalidShape)
    } else if expected.attempts() == u32::MAX {
        Err(StorageValueError::SizeOverflow)
    } else {
        Ok(
            OutboxStatusView {
                event_id,
                state: DeliveryView::Delivering {
                    attempt: Id32 { value: (expected.attempts() + 1) as u32 },
                    destination_id,
                    started_at,
                    lease_deadline,
                },
            },
        )
    }
}

/// What asking for a claim gives.
pub open spec fn claim_made(
    event_id: EventId,
    expected: OutboxStatusObservationV1,
    destination_id: OutboxDestinationIdV1,
    started_at: Timestamp,
    lease_deadline: Timestamp,
    result: Result<OutboxClaimV1, StorageValueError>,
) -> bool {
    match claimed(event_id, expected@, destination_id@, started_at, lease_deadline) {
        Ok(updated) => result is Ok && result->Ok_0.expected == expected
            && result->Ok_0.updated@ == updated,
        Err(error) => result == Err::<OutboxClaimV1, _>(error),
    }
}

/// Checked pending-to-delivering transition request.
#[derive(Clone, PartialEq, Eq)]
pub struct OutboxClaimV1 {
    pub expected: OutboxStatusObservationV1,
    pub updated: StoredOutboxStatusV1,
}

impl OutboxClaimV1 {
    /// Increments the attempt number and constructs the exact in-flight row.
    pub fn new(
        event_id: EventId,
        expected: OutboxStatusObservationV1,
        destination_id: OutboxDestinationIdV1,
        started_at: Timestamp,
        lease_deadline: Timestamp,
    ) -> (result: Result<Self, StorageValueError>)
        ensures
            claim_made(event_id, expected, destination_id, started_at, lease_deadline, result),
    {
        match expected.validate_event_id(event_id) {
            Ok(()) => {},
            Err(error) => {
                return Err(error);
            },
        }
        if !expected.is_pending() {
            return Err(StorageValueError::InvalidShape);
        }
        let attempt = match expected.attempts().checked_add(1) {
            Some(attempt) => Id32 { value: attempt },
            None => {
                return Err(StorageValueError::SizeOverflow);
            },
        };
        let updated = StoredOutboxStatusV1::delivering(
            event_id,
            attempt,
            destination_id,
            started_at,
            lease_deadline,
        );
        Ok(OutboxClaimV1 { expected, updated })
    }

    /// Returns the stable event identity.
    pub fn event_id(&self) -> (result: EventId)
        ensures
            result == self.updated@.event_id,
    {
        self.updated.event_id()
    }

    /// Borrows the exact required prior observation.
    pub fn expected(&self) -> (result: &OutboxStatusObservationV1)
        ensures
            *result == self.expected,
    {
        &self.expected
    }

    /// Borrows the complete requested post-image.
    pub fn updated(&self) -> (result: &StoredOutboxStatusV1)
        ensures
            *result == self.updated,
    {
        &self.updated
    }
}

/// The row that a renewal of an in-flight row leads to: another deadline.
pub open spec fn renewed(expected: OutboxStatusView, lease_deadline: Timestamp) -> Result<
    OutboxStatusView,
    StorageValueError,
> {
    match expected.state {
        DeliveryView::Delivering { attempt, destination_id, started_at, .. } => Ok(
            OutboxStatusView {
                event_id: expected.event_id,
                state: DeliveryView::Delivering {
                    attempt,
                    destination_id,
                    started_at,
                    lease_deadline,
                },
            },
        ),
        _ => Err(StorageValueError::InvalidShape),
    }
}

/// What asking for a renewal gives.
pub open spec fn renewal_made(
    expected: StoredOutboxStatusV1,
    lease_deadline: Timestamp,
    result: Result<OutboxRenewV1, StorageValueError>,
) -> bool {
    match renewed(expected@, lease_deadline) {
        Ok(updated) => result is Ok && result->Ok_0.expected == expected
            && result->Ok_0.updated@ == updated,
        Err(error) => result == Err::<OutboxRenewV1, _>(error),
    }
}

/// Checked exact delivering-to-delivering lease renewal.
#[derive(Clone, PartialEq, Eq)]
pub struct OutboxRenewV1 {
    pub expected: StoredOutboxStatusV1,
    pub updated: StoredOutboxStatusV1,
}

impl OutboxRenewV1 {
    /// Replaces only the worker-selected lease deadline.
    pub fn new(expected: StoredOutboxStatusV1, lease_deadline: Timestamp) -> (result: Result<
        Self,
        StorageValueError,
    >)
        ensures
            renewal_made(expected, lease_deadline, result),
    {
        let updated = match expected.state() {
            OutboxDeliveryStateV1::Delivering { attempt, destination_id, started_at, .. } =>
                StoredOutboxStatusV1::delivering(
                expected.event_id,
                *attempt,
                destination_id.clone(),
                *started_at,
                lease_deadline,
            ),
            _ => {
                return Err(StorageValueError::InvalidShape);
            },
        };
        Ok(OutboxRenewV1 { expected, updated })
    }

    /// Returns the stable event identity.
    pub fn event_id(&self) -> (result: EventId)
        ensures
            result == self.updated@.event_id,
    {
        self.updated.event_id()
    }

    /// Borrows the exact required prior observation.
    pub fn expected(&self) -> (result: &StoredOutboxStatusV1)
        ensures
            *result == self.expected,
    {
        &self.expected
    }

    /// Borrows the complete requested post-image.
    pub fn updated(&self) -> (result: &StoredOutboxStatusV1)
        ensures
            *result == self.updated,
    {
        &self.updated
    }
}

/// The row that a success of an in-flight row leads to.
pub open spec fn succeeded(expected: OutboxStatusView, delivered_at: Timestamp) -> Result<
    OutboxStatusView,
    StorageValueError,
> {
    match expected.state {
        DeliveryView::Delivering { attempt, destination_id, .. } => Ok(
            OutboxStatusView {
                event_id: expected.event_id,
                state: DeliveryView::Delivered { attempts: attempt, destination_id, delivered_at },
            },
        ),
        _ => Err(StorageValueError::InvalidShape),
    }
}

/// What recording a success gives.
pub open spec fn success_made(
    expected: StoredOutboxStatusV1,
    delivered_at: Timestamp,
    result: Result<OutboxSucceedV1, StorageValueError>,
) -> bool {
    match succeeded(expected@, delivered_at) {
        Ok(updated) => result is Ok && result->Ok_0.expected == expected
            && result->Ok_0.updated@ == updated,
        Err(error) => result == Err::<OutboxSucceedV1, _>(error),
    }
}

/// Checked delivering-to-delivered transition.
#[derive(Clone, PartialEq, Eq)]
pub struct OutboxSucceedV1 {
    pub expected: StoredOutboxStatusV1,
    pub updated: StoredOutboxStatusV1,
}

impl OutboxSucceedV1 {
    /// Preserves the attempt and destination in the terminal success row.
    pub fn new(expected: StoredOutboxStatusV1, delivered_at: Timestamp) -> (result: Result<
        Self,
        StorageValueError,
    >)
        ensures
            success_made(expected, delivered_at, result),
    {
        let updated = match expected.state() {
            OutboxDeliveryStateV1::Delivering { attempt, destination_id, .. } =>
                StoredOutboxStatusV1::delivered(
                expected.event_id,
                *attempt,
                destination_id.clone(),
                delivered_at,
            ),
            _ => {
                return Err(StorageValueError::InvalidShape);
            },
        };
        Ok(OutboxSucceedV1 { expected, updated })
    }

    /// Returns the stable event identity.
    pub fn event_id(&self) -> (result: EventId)
        ensures
            result == self.updated@.event_id,
    {
        self.updated.event_id()
    }

    /// Borrows the exact required prior observation.
    pub fn expected(&self) -> (result: &StoredOutboxStatusV1)
        ensures
            *result == self.expected,
    {
        &self.expected
    }

    /// Borrows the complete requested post-image.
    pub fn updated(&self) -> (result: &StoredOutboxStatusV1)
        ensures
            *result == self.updated,
    {
        &self.updated
    }
}

/// The row that a retry of an in-flight row leads to.
pub open spec fn retried(
    expected: OutboxStatusView,
    next_attempt_at: Option<Timestamp>,
    last_safe_error: Option<Seq<char>>,
) -> Result<OutboxStatusView, StorageValueError> {
    match expected.state {
        DeliveryView::Delivering { attempt, destination_id, started_at, .. } => Ok(
            OutboxStatusView {
                event_id: expected.event_id,
                state: DeliveryView::Pending(
                    RetryMetadataView {
                        attempts: attempt,
                        last_attempt_at: started_at,
                        next_attempt_at,
                        destination_id,
                        last_safe_error,
                    },
                ),
            },
        ),
        _ => Err(StorageValueError::InvalidShape),
    }
}

/// What asking for a retry gives.
pub open spec fn retry_made(
    expected: StoredOutboxStatusV1,
    next_attempt_at: Option<Timestamp>,
    last_safe_error: Option<OutboxSafeErrorV1>,
    result: Result<OutboxRetryV1, StorageValueError>,
) -> bool {
    match retried(expected@, next_attempt_at, safe_error_view(last_safe_error)) {
        Ok(updated) => result is Ok && result->Ok_0.expected == expected
            && result->Ok_0.updated@ == updated,
        Err(error) => result == Err::<OutboxRetryV1, _>(error),
    }
}

/// Checked delivering-to-explicit-pending retry transition.
#[derive(Clone, PartialEq, Eq)]
pub struct OutboxRetryV1 {
    pub expected: StoredOutboxStatusV1,
    pub updated: StoredOutboxStatusV1,
}

impl OutboxRetryV1 {
    /// Preserves attempt identity and worker-selected bounded retry metadata.
    pub fn new(
        expected: StoredOutboxStatusV1,
        next_attempt_at: Option<Timestamp>,
        last_safe_error: Option<OutboxSafeErrorV1>,
    ) -> (result: Result<Self, StorageValueError>)
        ensures
            retry_made(expected, next_attempt_at, last_safe_error, result),
    {
        let metadata = match expected.state() {
            OutboxDeliveryStateV1::Delivering { attempt, destination_id, started_at, .. } =>
                OutboxRetryMetadataV1::new(
                *attempt,
                *started_at,
                next_attempt_at,
                destination_id.clone(),
                last_safe_error,
            ),
            _ => {
                return Err(StorageValueError::InvalidShape);
            },
        };
        let updated = StoredOutboxStatusV1::pending(expected.event_id, metadata);
        Ok(OutboxRetryV1 { expected, updated })
    }

    /// Returns the stable event identity.
    pub fn event_id(&self) -> (result: EventId)
        ensures
            result == self.updated@.event_id,
    {
        self.updated.event_id()
    }

    /// Borrows the exact required prior observation.
    pub fn expected(&self) -> (result: &StoredOutboxStatusV1)
        ensures
            *result == self.expected,
    {
        &self.expected
    }

    /// Borrows the complete requested post-image.
    pub fn updated(&self) -> (result: &StoredOutboxStatusV1)
        ensures
            *result == self.updated,
    {
        &self.updated
    }
}

/// The terminal row that a dead letter leads to: the initial destination exactly
/// where nothing was attempted, the named one otherwise.
pub open spec fn dead_lettered(
    event_id: EventId,
    expected: ObservedStatusView,
    initial_destination: Option<Seq<char>>,
    failed_at: Timestamp,
    last_safe_error: Option<Seq<char>>,
) -> Result<OutboxStatusView, StorageValueError> {
    let destination = match expected {
        ObservedStatusView::Absent => initial_destination,
        ObservedStatusView::Present(status) => if initial_destination is None && (
        status.state is Pending || status.state is Delivering) {
            Some(status.state.destination())
        } else {
            None
        },
    };
    if !expected.about(event_id) {
        Err(StorageValueError::IdentityMismatch)
    } else {
        match destination {
            None => Err(StorageValueError::InvalidShape),
            Some(destination_id) => Ok(
                OutboxStatusView {
                    event_id,
                    state: DeliveryView::DeadLetter {
                        attempts: expected.attempts(),
                        destination_id,
                        failed_at,
                        last_safe_error,
                    },
                },
            ),
        }
    }
}

/// The view of an optional destination.
pub open spec fn destination_view(destination: Option<OutboxDestinationIdV1>) -> Option<
    Seq<char>,
> {
    match destination {
        Some(destination) => Some(destination@),
        None => None,
    }
}

/// What giving a delivery up gives.
pub open spec fn dead_letter_made(
    event_id: EventId,
    expected: OutboxStatusObservationV1,
    initial_destination: Option<OutboxDestinationIdV1>,
    failed_at: Timestamp,
    last_safe_error: Option<OutboxSafeErrorV1>,
    result: Result<OutboxDeadLetterV1, StorageValueError>,
) -> bool {
    match dead_lettered(
        event_id,
        expected@,
        destination_view(initial_destination),
        failed_at,
        safe_error_view(last_safe_error),
    ) {
        Ok(updated) => result is Ok && result->Ok_0.expected == expected
            && result->Ok_0.updated@ == updated,
        Err(error) => result == Err::<OutboxDeadLetterV1, _>(error),
    }
}

/// Checked pending-or-delivering to dead-letter transition.
#[derive(Clone, PartialEq, Eq)]
pub struct OutboxDeadLetterV1 {
    pub expected: OutboxStatusObservationV1,
    pub updated: StoredOutboxStatusV1,
}

impl OutboxDeadLetterV1 {
    /// Constructs a policy-selected terminal failure without choosing policy.
    pub fn new(
        event_id: EventId,
        expected: OutboxStatusObservationV1,
        initial_destination: Option<OutboxDestinationIdV1>,
        failed_at: Timestamp,
        last_safe_error: Option<OutboxSafeErrorV1>,
    ) -> (result: Result<Self, StorageValueError>)
        ensures
            dead_letter_made(event_id, expected, initial_destination, failed_at, last_safe_error,
                result),
    {
        match expected.validate_event_id(event_id) {
            Ok(()) => {},
            Err(error) => {
                return Err(error);
            },
        }
        let destination_id = match (&expected, initial_destination) {
            (OutboxStatusObservationV1::AbsentInitialPending, Some(initial)) => initial,
            (OutboxStatusObservationV1::AbsentInitialPending, None) => {
                return Err(StorageValueError::InvalidShape);
            },
            (OutboxStatusObservationV1::Present(_), Some(_)) => {
                return Err(StorageValueError::InvalidShape);
            },
            (OutboxStatusObservationV1::Present(status), None) => match status.state() {
                OutboxDeliveryStateV1::Pending(metadata) => metadata.destination_id.clone(),
                OutboxDeliveryStateV1::Delivering { destination_id, .. } => destination_id.clone(),
                OutboxDeliveryStateV1::Delivered { .. } => {
                    return Err(StorageValueError::InvalidShape);
                },
                OutboxDeliveryStateV1::DeadLetter { .. } => {
                    return Err(StorageValueError::InvalidShape);
                },
            },
        };
        let updated = StoredOutboxStatusV1::dead_letter(
            event_id,
            expected.attempts(),
            destination_id,
            failed_at,
            last_safe_error,
        );
        Ok(OutboxDeadLetterV1 { expected, updated })
    }

    /// Returns the stable event identity.
    pub fn event_id(&self) -> (result: EventId)
        ensures
            result == self.updated@.event_id,
    {
        self.updated.event_id()
    }

    /// Borrows the exact required prior observation.
    pub fn expected(&self) -> (result: &OutboxStatusObservationV1)
        ensures
            *result == self.expected,
    {
        &self.expected
    }

    /// Borrows the complete requested post-image.
    pub fn updated(&self) -> (result: &StoredOutboxStatusV1)
        ensures
            *result == self.updated,
    {
        &self.updated
    }
}

/// A claim begins exactly one more attempt; renewal, success and retry keep the
/// attempt and the destination, and a retry can be claimed again.
pub proof fn attempts_only_grow_by_claims(
    event_id: EventId,
    expected: ObservedStatusView,
    destination_id: Seq<char>,
    started_at: Timestamp,
    lease_deadline: Timestamp,
    later: Timestamp,
    next_attempt_at: Option<Timestamp>,
    last_safe_error: Option<Seq<char>>,
)
    requires
        claimed(event_id, expected, destination_id, started_at, lease_deadline) is Ok,
    ensures
        ({
            let row = claimed(
                event_id,
                expected,
                destination_id,
                started_at,
                lease_deadline,
            )->Ok_0;
            &&& row.state.attempts() == expected.attempts() + 1
            &&& row.event_id == event_id
            &&& renewed(row, later) matches Ok(next) && next.state.attempts()
                == row.state.attempts() && next.state.destination() == destination_id
            &&& succeeded(row, later) matches Ok(next) && next.state.attempts()
                == row.state.attempts() && next.state.destination() == destination_id
            &&& retried(row, next_attempt_at, last_safe_error) matches Ok(next)
                && next.state.attempts() == row.state.attempts() && next.state.destination()
                == destination_id && ObservedStatusView::Present(next).pending()
        }),
{
}

/// Delivered and dead-lettered rows are final: no transition starts from them.
pub proof fn terminal_rows_are_final(
    row: OutboxStatusView,
    destination_id: Seq<char>,
    at: Timestamp,
    until: Timestamp,
    initial_destination: Option<Seq<char>>,
    last_safe_error: Option<Seq<char>>,
)
    requires
        row.state is Delivered || row.state is DeadLetter,
    ensures
        claimed(row.event_id, ObservedStatusView::Present(row), destination_id, at, until) == Err::<
            OutboxStatusView,
            _,
        >(StorageValueError::InvalidShape),
        renewed(row, until) is Err,
        succeeded(row, at) is Err,
        retried(row, Some(until), last_safe_error) is Err,
        dead_lettered(
            row.event_id,
            ObservedStatusView::Present(row),
            initial_destination,
            at,
            last_safe_error,
        ) is Err,
{
}

/// Closed result shared by exact compare-and-transition operations.
#[derive(Clone, PartialEq, Eq)]
pub enum OutboxTransitionResultV1 {
    /// The requested complete status post-image committed.
    Applied(StoredOutboxStatusV1),
    /// The exact expected absent-or-present status no longer matched.
    StateChanged(OutboxStatusObservationV1),
    /// No reciprocal authoritative event/intent exists; no status was written.
    AuthoritativeIntentMissing,
}

/// Closed source-validated status lookup result.
#[derive(Clone, PartialEq, Eq)]
pub enum OutboxStatusReadResultV1 {
    /// A reciprocal authoritative event/intent exists with this effective status.
    Status(OutboxStatusObservationV1),
    /// No reciprocal authoritative event/intent exists for the supplied ID.
    AuthoritativeIntentMissing,
}

/// Authoritative outbox reads and derived status transitions, as a backend offers
/// them.
pub trait OutboxRepository {
    /// Why the backend could not answer.
    type Failure;

    /// Reads exact status only after proving the authoritative intent exists.
    fn read_outbox_status(&self, event_id: EventId) -> Result<
        OutboxStatusReadResultV1,
        Self::Failure,
    >;

    /// Scans reciprocal authoritative event/intent tuples whose effective state is
    /// pending. Implementations never synthesize a missing intent.
    fn scan_pending_outbox(&self, after: Option<EventId>, limit: OutboxPageLimit) -> Result<
        PendingOutboxScanV1,
        Self::Failure,
    >;

    /// Scans every reciprocal authoritative tuple whose effective state has not
    /// reached delivery, without exposing event or intent payloads.
    fn scan_undelivered_outbox_statuses(
        &self,
        request: UndeliveredOutboxStatusScanRequestV1,
    ) -> Result<UndeliveredOutboxStatusScanV1, Self::Failure>;

    /// Atomically claims the exact absent or explicit pending observation.
    fn claim_outbox(&mut self, transition: &OutboxClaimV1) -> Result<
        OutboxTransitionResultV1,
        Self::Failure,
    >;

    /// Atomically renews the exact current in-flight attempt.
    fn renew_outbox(&mut self, transition: &OutboxRenewV1) -> Result<
        OutboxTransitionResultV1,
        Self::Failure,
    >;

    /// Atomically marks the exact in-flight attempt delivered.
    fn succeed_outbox(&mut self, transition: &OutboxSucceedV1) -> Result<
        OutboxTransitionResultV1,
        Self::Failure,
    >;

    /// Atomically returns the exact in-flight attempt to explicit pending.
    fn retry_outbox(&mut self, transition: &OutboxRetryV1) -> Result<
        OutboxTransitionResultV1,
        Self::Failure,
    >;

    /// Atomically applies the worker-selected terminal failure transition.
    fn dead_letter_outbox(&mut self, transition: &OutboxDeadLetterV1) -> Result<
        OutboxTransitionResultV1,
        Self::Failure,
    >;
}

} // verus!
