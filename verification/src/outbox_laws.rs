//! What moves an outbox delivery on, and what its pages show.
//!
//! The laws speak of the rows themselves, field by field.

use vstd::prelude::*;
use vstd::utf8::encode_utf8;

use crate::ids::{EventId, Timestamp};
use crate::limits::{MAX_SCAN_PAGE_BYTES, MAX_SCAN_PAGE_ENTRIES};
use crate::outbox::{
    destination_refusal, event_size, events_ascend, pending_ids, safe_error_refusal,
    undelivered_ids, undelivered_refusal, within_scan, OutboxClaimV1, OutboxDeadLetterV1,
    OutboxDeliveryStateV1, OutboxDestinationIdV1, OutboxRecoveryUpperFenceV1, OutboxRenewV1,
    OutboxRetryV1, OutboxSafeErrorV1, OutboxStatusObservationV1, OutboxSucceedV1,
    PendingOutboxItemV1, PendingOutboxScanV1, StoredOutboxIntentV1, StoredOutboxStatusV1,
    UndeliveredOutboxStatusScanRequestV1, UndeliveredOutboxStatusScanV1, UndeliveredOutboxStatusV1,
};
use crate::page::{page_charge, EncodedPageItem};
use crate::records::StoredDurableEventV1;
use crate::value_error::StorageValueError;

verus! {

/// Whether a row is the in-flight one of an attempt.
pub open spec fn in_flight(
    row: StoredOutboxStatusV1,
    event: EventId,
    number: int,
    destination: Seq<char>,
    start: Timestamp,
    deadline: Timestamp,
) -> bool {
    &&& row.event_id == event
    &&& row.state matches OutboxDeliveryStateV1::Delivering {
        attempt,
        destination_id,
        started_at,
        lease_deadline,
    } && attempt.value == number && destination_id.value@ == destination && started_at == start
        && lease_deadline == deadline
}

/// Whether two optional safe errors are the same text, or both absent.
pub open spec fn same_error(a: Option<OutboxSafeErrorV1>, b: Option<OutboxSafeErrorV1>) -> bool {
    match (a, b) {
        (Some(a), Some(b)) => a.value@ == b.value@,
        (None, None) => true,
        _ => false,
    }
}

/// A claim takes a pending delivery, or one that was never tried, into flight: it begins one
/// attempt more, to the destination, from the start and until the deadline that the claimer
/// gave. A row of another event, a row that is not pending and a row at the last attempt are
/// refused.
pub proof fn claims_put_pending_deliveries_into_flight(
    event_id: EventId,
    expected: OutboxStatusObservationV1,
    destination_id: OutboxDestinationIdV1,
    started_at: Timestamp,
    lease_deadline: Timestamp,
    result: Result<OutboxClaimV1, StorageValueError>,
)
    requires
        call_ensures(
            OutboxClaimV1::new,
            (event_id, expected, destination_id, started_at, lease_deadline),
            result,
        ),
    ensures
        result matches Ok(claim) ==> claim.expected == expected,
        match expected {
            OutboxStatusObservationV1::AbsentInitialPending => result matches Ok(claim)
                && in_flight(
                claim.updated,
                event_id,
                1,
                destination_id.value@,
                started_at,
                lease_deadline,
            ),
            OutboxStatusObservationV1::Present(row) => if row.event_id != event_id {
                result == Err::<OutboxClaimV1, _>(StorageValueError::IdentityMismatch)
            } else {
                match row.state {
                    OutboxDeliveryStateV1::Pending(held) => if held.attempts.value == u32::MAX {
                        result == Err::<OutboxClaimV1, _>(StorageValueError::SizeOverflow)
                    } else {
                        result matches Ok(claim) && in_flight(
                            claim.updated,
                            event_id,
                            held.attempts.value + 1,
                            destination_id.value@,
                            started_at,
                            lease_deadline,
                        )
                    },
                    _ => result == Err::<OutboxClaimV1, _>(StorageValueError::InvalidShape),
                }
            },
        },
{
}

/// A renewal gives the attempt that is in flight another deadline and changes nothing else;
/// there is none of a row that is not in flight.
pub proof fn renewals_move_the_deadline_alone(
    expected: StoredOutboxStatusV1,
    lease_deadline: Timestamp,
    result: Result<OutboxRenewV1, StorageValueError>,
)
    requires
        call_ensures(OutboxRenewV1::new, (expected, lease_deadline), result),
    ensures
        result matches Ok(renewal) ==> renewal.expected == expected,
        match expected.state {
            OutboxDeliveryStateV1::Delivering { attempt, destination_id, started_at, .. } =>
                result matches Ok(renewal) && in_flight(
                renewal.updated,
                expected.event_id,
                attempt.value as int,
                destination_id.value@,
                started_at,
                lease_deadline,
            ),
            _ => result == Err::<OutboxRenewV1, _>(StorageValueError::InvalidShape),
        },
{
}

/// A success ends the attempt that is in flight: the row is delivered at the given time,
/// with the number and the destination of that attempt.
pub proof fn successes_end_the_attempt_in_flight(
    expected: StoredOutboxStatusV1,
    delivered_at: Timestamp,
    result: Result<OutboxSucceedV1, StorageValueError>,
)
    requires
        call_ensures(OutboxSucceedV1::new, (expected, delivered_at), result),
    ensures
        result matches Ok(success) ==> success.expected == expected,
        match expected.state {
            OutboxDeliveryStateV1::Delivering { attempt, destination_id, .. } => result matches Ok(
                success,
            ) && success.updated.event_id == expected.event_id && (
            success.updated.state matches OutboxDeliveryStateV1::Delivered {
                attempts,
                destination_id: reached,
                delivered_at: at,
            } && attempts == attempt && reached.value@ == destination_id.value@ && at
                == delivered_at),
            _ => result == Err::<OutboxSucceedV1, _>(StorageValueError::InvalidShape),
        },
{
}

/// A retry puts the attempt that is in flight back: the row is pending, and remembers the
/// number, the destination and the start of that attempt beside what the worker gave.
pub proof fn retries_remember_the_attempt(
    expected: StoredOutboxStatusV1,
    next_attempt_at: Option<Timestamp>,
    last_safe_error: Option<OutboxSafeErrorV1>,
    result: Result<OutboxRetryV1, StorageValueError>,
)
    requires
        call_ensures(OutboxRetryV1::new, (expected, next_attempt_at, last_safe_error), result),
    ensures
        result matches Ok(retry) ==> retry.expected == expected,
        match expected.state {
            OutboxDeliveryStateV1::Delivering { attempt, destination_id, started_at, .. } =>
                result matches Ok(retry) && retry.updated.event_id == expected.event_id && (
            retry.updated.state matches OutboxDeliveryStateV1::Pending(held) && held.attempts
                == attempt && held.last_attempt_at == started_at && held.next_attempt_at
                == next_attempt_at && held.destination_id.value@ == destination_id.value@
                && same_error(held.last_safe_error, last_safe_error)),
            _ => result == Err::<OutboxRetryV1, _>(StorageValueError::InvalidShape),
        },
{
}

/// Whether a row is a dead letter.
pub open spec fn dead(
    row: StoredOutboxStatusV1,
    event: EventId,
    number: int,
    destination: Seq<char>,
    at: Timestamp,
    error: Option<OutboxSafeErrorV1>,
) -> bool {
    &&& row.event_id == event
    &&& row.state matches OutboxDeliveryStateV1::DeadLetter {
        attempts,
        destination_id,
        failed_at,
        last_safe_error,
    } && attempts == number && destination_id.value@ == destination && failed_at == at
        && same_error(last_safe_error, error)
}

/// A delivery is given up with the attempts that it had. One that was never tried has none,
/// and takes the destination that the worker names; a pending or in-flight one keeps its
/// own, and the worker may name none. A row that is final, or of another event, is refused.
pub proof fn dead_letters_keep_what_was_tried(
    event_id: EventId,
    expected: OutboxStatusObservationV1,
    initial_destination: Option<OutboxDestinationIdV1>,
    failed_at: Timestamp,
    last_safe_error: Option<OutboxSafeErrorV1>,
    result: Result<OutboxDeadLetterV1, StorageValueError>,
)
    requires
        call_ensures(
            OutboxDeadLetterV1::new,
            (event_id, expected, initial_destination, failed_at, last_safe_error),
            result,
        ),
    ensures
        result matches Ok(letter) ==> letter.expected == expected,
        match (expected, initial_destination) {
            (OutboxStatusObservationV1::AbsentInitialPending, Some(named)) => result matches Ok(
                letter,
            ) && dead(letter.updated, event_id, 0, named.value@, failed_at, last_safe_error),
            (OutboxStatusObservationV1::AbsentInitialPending, None) => result == Err::<
                OutboxDeadLetterV1,
                _,
            >(StorageValueError::InvalidShape),
            (OutboxStatusObservationV1::Present(row), named) => if row.event_id != event_id {
                result == Err::<OutboxDeadLetterV1, _>(StorageValueError::IdentityMismatch)
            } else {
                match (row.state, named) {
                    (OutboxDeliveryStateV1::Pending(held), None) => result matches Ok(letter)
                        && dead(
                        letter.updated,
                        event_id,
                        held.attempts.value as int,
                        held.destination_id.value@,
                        failed_at,
                        last_safe_error,
                    ),
                    (
                        OutboxDeliveryStateV1::Delivering { attempt, destination_id, .. },
                        None,
                    ) => result matches Ok(letter) && dead(
                        letter.updated,
                        event_id,
                        attempt.value as int,
                        destination_id.value@,
                        failed_at,
                        last_safe_error,
                    ),
                    _ => result == Err::<OutboxDeadLetterV1, _>(StorageValueError::InvalidShape),
                }
            },
        },
{
}

/// A delivery that is claimed, retried and claimed again is in flight for the second time:
/// one attempt more, with the second claimer's destination, start and deadline, while the
/// row between the claims remembers the first claimer's start.
pub proof fn retried_deliveries_are_claimed_again(
    event_id: EventId,
    expected: OutboxStatusObservationV1,
    destination_id: OutboxDestinationIdV1,
    started_at: Timestamp,
    lease_deadline: Timestamp,
    first: OutboxClaimV1,
    next_attempt_at: Option<Timestamp>,
    last_safe_error: Option<OutboxSafeErrorV1>,
    retry: OutboxRetryV1,
    again_to: OutboxDestinationIdV1,
    again_at: Timestamp,
    again_until: Timestamp,
    second: Result<OutboxClaimV1, StorageValueError>,
    number: u32,
)
    requires
        call_ensures(
            OutboxClaimV1::new,
            (event_id, expected, destination_id, started_at, lease_deadline),
            Ok(first),
        ),
        first.updated.state matches OutboxDeliveryStateV1::Delivering { attempt, .. }
            && attempt.value == number,
        call_ensures(
            OutboxRetryV1::new,
            (first.updated, next_attempt_at, last_safe_error),
            Ok(retry),
        ),
        call_ensures(
            OutboxClaimV1::new,
            (event_id, OutboxStatusObservationV1::Present(retry.updated), again_to, again_at,
                again_until),
            second,
        ),
        number < u32::MAX,
    ensures
        retry.updated.state matches OutboxDeliveryStateV1::Pending(held) && held.last_attempt_at
            == started_at,
        second matches Ok(claim) && in_flight(
            claim.updated,
            event_id,
            number + 1,
            again_to.value@,
            again_at,
            again_until,
        ),
{
}

/// What an observation tells: whether it is pending, how many attempts were begun and
/// which event it can be of.
pub proof fn observations_tell_what_they_hold(
    status: OutboxStatusObservationV1,
    event_id: EventId,
)
    ensures
        match status {
            OutboxStatusObservationV1::AbsentInitialPending => status@.pending()
                && status@.attempts() == 0 && status@.about(event_id),
            OutboxStatusObservationV1::Present(row) => (status@.about(event_id) <==> row.event_id
                == event_id) && match row.state {
                OutboxDeliveryStateV1::Pending(held) => status@.pending() && status@.attempts()
                    == held.attempts.value,
                OutboxDeliveryStateV1::Delivering { attempt, .. } => !status@.pending()
                    && status@.attempts() == attempt.value,
                OutboxDeliveryStateV1::Delivered { attempts, .. } => !status@.pending()
                    && status@.attempts() == attempts.value,
                OutboxDeliveryStateV1::DeadLetter { attempts, .. } => !status@.pending()
                    && status@.attempts() == attempts,
            },
        },
{
}

/// The bytes of a text.
pub open spec fn text_bytes(text: String) -> nat {
    encode_utf8(text@).len()
}

/// The bytes of an optional error behind its presence and its length.
pub open spec fn error_bytes(error: Option<OutboxSafeErrorV1>) -> nat {
    match error {
        Some(error) => 5 + text_bytes(error.value),
        None => 1,
    }
}

/// What a status is charged: twelve bytes for the event and for each time, four for a
/// count and before each text, one for each choice, and the texts.
pub proof fn statuses_are_charged_for_their_parts(status: OutboxStatusObservationV1)
    ensures
        status@.size() == match status {
            OutboxStatusObservationV1::AbsentInitialPending => 1,
            OutboxStatusObservationV1::Present(row) => match row.state {
                OutboxDeliveryStateV1::Pending(held) => 35 + text_bytes(held.destination_id.value)
                    + (if held.next_attempt_at is Some {
                    12nat
                } else {
                    0
                }) + error_bytes(held.last_safe_error),
                OutboxDeliveryStateV1::Delivering { destination_id, .. } => 46 + text_bytes(
                    destination_id.value,
                ),
                OutboxDeliveryStateV1::Delivered { destination_id, .. } => 34 + text_bytes(
                    destination_id.value,
                ),
                OutboxDeliveryStateV1::DeadLetter { destination_id, last_safe_error, .. } => 34
                    + text_bytes(destination_id.value) + error_bytes(last_safe_error),
            },
        },
{
}

/// What an event is charged: its payload behind a length, its identity, its type and its
/// hash.
pub proof fn events_are_charged_for_their_payload(event: StoredDurableEventV1)
    ensures
        event_size(event@) == event.payload.encoded@.len() + 52,
{
}

/// An event, its intent and a status go together where the intent is of the same event and
/// the status is pending and of that event, and not otherwise; they are kept as they are.
pub proof fn pending_items_agree(
    event: StoredDurableEventV1,
    intent: StoredOutboxIntentV1,
    status: OutboxStatusObservationV1,
    result: Result<PendingOutboxItemV1, StorageValueError>,
)
    requires
        call_ensures(PendingOutboxItemV1::new, (event, intent, status), result),
    ensures
        if intent.event@ == event@ && match status {
            OutboxStatusObservationV1::AbsentInitialPending => true,
            OutboxStatusObservationV1::Present(row) => row.event_id == event.event_id && row.state
                is Pending,
        } {
            result matches Ok(item) && item.event@ == event@ && item.intent.event@ == event@
                && item.status@ == status@
        } else {
            result == Err::<PendingOutboxItemV1, _>(StorageValueError::IdentityMismatch)
        },
{
}

/// Every status of an event is an undelivered one but a delivered row; a row of another
/// event is refused first.
pub proof fn delivered_rows_are_not_undelivered(
    event_id: EventId,
    status: OutboxStatusObservationV1,
    result: Result<UndeliveredOutboxStatusV1, StorageValueError>,
)
    requires
        call_ensures(UndeliveredOutboxStatusV1::new, (event_id, status), result),
    ensures
        match status {
            OutboxStatusObservationV1::Present(row) if row.event_id != event_id => result == Err::<
                UndeliveredOutboxStatusV1,
                _,
            >(StorageValueError::IdentityMismatch),
            OutboxStatusObservationV1::Present(row) if row.state is Delivered => result == Err::<
                UndeliveredOutboxStatusV1,
                _,
            >(StorageValueError::InvalidShape),
            _ => result matches Ok(held) && held.event_id == event_id && held.status == status,
        },
{
}

/// The place of an event in the log: its commit, then its place within the commit.
pub open spec fn log_place(id: EventId) -> int {
    id.commit_sequence.value * 0x1_0000_0000 + id.event_ordinal
}

/// One event comes before another exactly where its place in the log is lower.
pub proof fn events_stand_in_log_order(a: EventId, b: EventId)
    ensures
        a.before(b) <==> log_place(a) < log_place(b),
        a == b <==> log_place(a) == log_place(b),
{
    assert(a.commit_sequence.value == b.commit_sequence.value ==> a.commit_sequence
        == b.commit_sequence);
}

proof fn ascending_events_rise(ids: Seq<EventId>, i: int, j: int)
    requires
        events_ascend(ids),
        0 <= i < j < ids.len(),
    ensures
        log_place(ids[i]) < log_place(ids[j]),
    decreases j - i,
{
    if i + 1 < j {
        ascending_events_rise(ids, i, j - 1);
    }
    assert(ids[j - 1].before(ids[j - 1 + 1]));
    events_stand_in_log_order(ids[j - 1], ids[j]);
}

/// Whether events stand in the order of the log, without repetition.
pub open spec fn in_log_order(ids: Seq<EventId>) -> bool {
    forall|i: int, j: int|
        0 <= i < j < ids.len() ==> log_place(#[trigger] ids[i]) < log_place(#[trigger] ids[j])
}

proof fn ascending_is_log_order(ids: Seq<EventId>)
    ensures
        events_ascend(ids) <==> in_log_order(ids),
{
    if events_ascend(ids) {
        assert forall|i: int, j: int| 0 <= i < j < ids.len() implies log_place(#[trigger] ids[i])
            < log_place(#[trigger] ids[j]) by {
            ascending_events_rise(ids, i, j);
        }
    }
    if in_log_order(ids) {
        assert forall|i: int| 0 <= i < ids.len() - 1 implies (#[trigger] ids[i]).before(
            ids[i + 1],
        ) by {
            events_stand_in_log_order(ids[i], ids[i + 1]);
        }
    }
}

/// The events of pending items.
pub open spec fn item_events(items: Seq<EncodedPageItem<PendingOutboxItemV1>>) -> Seq<EventId> {
    items.map_values(|item: EncodedPageItem<PendingOutboxItemV1>| item.value.event.event_id)
}

/// A pending page shows its items as they are, in log order, within the bounds of rows and
/// bytes. One that does not end the scan is not empty and goes on after its last event.
/// Every list of items that keeps this is a page.
pub proof fn pending_pages_are_bounded_and_in_order(
    items: Vec<EncodedPageItem<PendingOutboxItemV1>>,
    has_more: bool,
    result: Result<PendingOutboxScanV1, StorageValueError>,
)
    requires
        call_ensures(PendingOutboxScanV1::page, (items, has_more), result),
    ensures
        result is Ok <==> items@.len() <= MAX_SCAN_PAGE_ENTRIES && in_log_order(item_events(items@))
            && page_charge(items@) <= MAX_SCAN_PAGE_BYTES && (has_more ==> items@.len() > 0),
        result matches Ok(PendingOutboxScanV1::Page { items: shown, next_after }) ==> has_more
            && shown == items && next_after == items@.last().value.event.event_id,
        result matches Ok(PendingOutboxScanV1::ExactEnd { items: shown }) ==> !has_more && shown
            == items,
        result == Err::<PendingOutboxScanV1, _>(StorageValueError::InvalidShape) ==> has_more
            && items@.len() == 0,
        items@.len() <= MAX_SCAN_PAGE_ENTRIES && !in_log_order(item_events(items@)) ==> result
            == Err::<PendingOutboxScanV1, _>(StorageValueError::NonCanonicalOrder),
        items@.len() > MAX_SCAN_PAGE_ENTRIES ==> result == Err::<PendingOutboxScanV1, _>(
            StorageValueError::LimitExceeded,
        ),
{
    assert(item_events(items@) =~= pending_ids(items@));
    ascending_is_log_order(item_events(items@));
}

/// The events of statuses.
pub open spec fn status_events(items: Seq<EncodedPageItem<UndeliveredOutboxStatusV1>>) -> Seq<
    EventId,
> {
    items.map_values(|item: EncodedPageItem<UndeliveredOutboxStatusV1>| item.value.event_id)
}

/// Whether statuses answer a request up to an upper event: as many as were asked for at
/// most, in log order, beyond the request's lower event and up to the upper one, which is
/// that of the continuation where the request is one, and within the bytes of a page.
pub open spec fn answers(
    request: UndeliveredOutboxStatusScanRequestV1,
    upper: EventId,
    items: Seq<EncodedPageItem<UndeliveredOutboxStatusV1>>,
) -> bool {
    let ids = status_events(items);
    &&& in_log_order(ids)
    &&& page_charge(items) <= MAX_SCAN_PAGE_BYTES
    &&& forall|i: int| 0 <= i < ids.len() ==> log_place(#[trigger] ids[i]) <= log_place(upper)
    &&& match request {
        UndeliveredOutboxStatusScanRequestV1::Initial { after, limit } => ids.len()
            <= limit.value.value && (after matches Some(last) ==> forall|i: int|
            0 <= i < ids.len() ==> log_place(last) < log_place(#[trigger] ids[i])),
        UndeliveredOutboxStatusScanRequestV1::Continue { continuation, limit } => ids.len()
            <= limit.value.value && upper == continuation.inclusive_upper && forall|i: int|
            0 <= i < ids.len() ==> log_place(continuation.after) < log_place(#[trigger] ids[i]),
    }
}

proof fn refusals_are_of_other_answers(
    request: UndeliveredOutboxStatusScanRequestV1,
    upper: EventId,
    items: Seq<EncodedPageItem<UndeliveredOutboxStatusV1>>,
)
    ensures
        undelivered_refusal(request, upper, undelivered_ids(items), page_charge(items)) is None
            <==> answers(request, upper, items),
{
    let ids = status_events(items);
    assert(ids =~= undelivered_ids(items));
    ascending_is_log_order(ids);
    assert forall|i: int| 0 <= i < ids.len() implies within_scan(request, upper, #[trigger] ids[i])
        == (log_place(ids[i]) <= log_place(upper) && match request {
        UndeliveredOutboxStatusScanRequestV1::Initial { after, .. } => (after matches Some(last)
            ==> log_place(last) < log_place(ids[i])),
        UndeliveredOutboxStatusScanRequestV1::Continue { continuation, .. } => log_place(
            continuation.after,
        ) < log_place(ids[i]),
    }) by {
        events_stand_in_log_order(upper, ids[i]);
        match request {
            UndeliveredOutboxStatusScanRequestV1::Initial { after, .. } => {
                if let Some(last) = after {
                    events_stand_in_log_order(last, ids[i]);
                }
            },
            UndeliveredOutboxStatusScanRequestV1::Continue { continuation, .. } => {
                events_stand_in_log_order(continuation.after, ids[i]);
            },
        }
    }
    if answers(request, upper, items) {
        assert forall|i: int| 0 <= i < ids.len() implies within_scan(
            request,
            upper,
            #[trigger] ids[i],
        ) by {
        }
    }
    if undelivered_refusal(request, upper, undelivered_ids(items), page_charge(items)) is None {
        assert forall|i: int| 0 <= i < ids.len() implies log_place(#[trigger] ids[i]) <= log_place(
            upper,
        ) && match request {
            UndeliveredOutboxStatusScanRequestV1::Initial { after, .. } => (after matches Some(last)
                ==> log_place(last) < log_place(ids[i])),
            UndeliveredOutboxStatusScanRequestV1::Continue { continuation, .. } => log_place(
                continuation.after,
            ) < log_place(ids[i]),
        } by {
            assert(within_scan(request, upper, ids[i]));
        }
    }
}

/// A page that does not end the scan answers its request, is not empty and stops short of
/// the upper event; its continuation goes on after its last event with the same upper one.
/// Every such answer is a page.
pub proof fn undelivered_pages_answer_their_request(
    request: UndeliveredOutboxStatusScanRequestV1,
    upper: EventId,
    items: Vec<EncodedPageItem<UndeliveredOutboxStatusV1>>,
    result: Result<UndeliveredOutboxStatusScanV1, StorageValueError>,
)
    requires
        call_ensures(UndeliveredOutboxStatusScanV1::page, (request, upper, items), result),
    ensures
        result is Ok <==> answers(request, upper, items@) && items@.len() > 0 && log_place(
            items@.last().value.event_id,
        ) < log_place(upper),
        result is Ok ==> (result matches Ok(
            UndeliveredOutboxStatusScanV1::Page { items: shown, continuation },
        ) && shown == items && continuation.after == items@.last().value.event_id
            && continuation.inclusive_upper == upper),
{
    refusals_are_of_other_answers(request, upper, items@);
    if items@.len() > 0 {
        events_stand_in_log_order(undelivered_ids(items@).last(), upper);
    }
}

/// The last page answers its request up to the frozen upper event; where nothing was there
/// when the scan began, it is empty and the answer to a first request. Every such answer is
/// a last page.
pub proof fn undelivered_scans_end_at_their_fence(
    request: UndeliveredOutboxStatusScanRequestV1,
    fence: OutboxRecoveryUpperFenceV1,
    items: Vec<EncodedPageItem<UndeliveredOutboxStatusV1>>,
    result: Result<UndeliveredOutboxStatusScanV1, StorageValueError>,
)
    requires
        call_ensures(UndeliveredOutboxStatusScanV1::exact_end, (request, fence, items), result),
    ensures
        result is Ok <==> match fence {
            OutboxRecoveryUpperFenceV1::BeforeFirst => request is Initial && items@.len() == 0,
            OutboxRecoveryUpperFenceV1::Inclusive(upper) => answers(request, upper, items@),
        },
        result is Ok ==> (result matches Ok(
            UndeliveredOutboxStatusScanV1::ExactEnd { items: shown, inclusive_upper },
        ) && shown == items && inclusive_upper == fence),
{
    if let OutboxRecoveryUpperFenceV1::Inclusive(upper) = fence {
        refusals_are_of_other_answers(request, upper, items@);
    }
}

/// A destination is a text of one to 512 bytes, all of them visible ASCII; a safe error is
/// one of one to 1024 bytes. An empty text, one that is too long and one of other bytes are
/// told apart.
pub proof fn retained_texts_are_bounded(text: Seq<char>)
    ensures
        ({
            let bytes = encode_utf8(text);
            &&& destination_refusal(text) is None <==> 1 <= bytes.len() <= 512 && forall|i: int|
                0 <= i < bytes.len() ==> '!' as u8 <= #[trigger] bytes[i] <= '~' as u8
            &&& safe_error_refusal(text) is None <==> 1 <= bytes.len() <= 1024
            &&& bytes.len() == 0 ==> destination_refusal(text) == Some(StorageValueError::Empty)
                && safe_error_refusal(text) == Some(StorageValueError::Empty)
            &&& bytes.len() > 512 ==> destination_refusal(text) == Some(
                StorageValueError::LimitExceeded,
            )
            &&& bytes.len() > 1024 ==> safe_error_refusal(text) == Some(
                StorageValueError::LimitExceeded,
            )
            &&& destination_refusal(text) is Some && 1 <= bytes.len() <= 512
                ==> destination_refusal(text) == Some(StorageValueError::InvalidShape)
        }),
{
}

} // verus!
