//! Delivery status rows, scans and transitions.

use riffdb_storage_api::codec::envelope::ReadAttempt;
use riffdb_storage_api::codec::error::{DurableCodecErrorKind, EnvelopeError};
use riffdb_storage_api::codec::outbox::{
    decode_outbox_event_reference, decode_outbox_intent_v1, decode_outbox_intent_v2,
    decode_outbox_intent_with_event, decode_outbox_status_v1, encode_outbox_intent_legacy_v1,
    encode_outbox_intent_v1, encode_outbox_status_v1,
};
use riffdb_storage_api::codec::record_type::RecordType;
use riffdb_storage_api::ids::{CommitSequence, Digest, EventId, EventTypeId, Id32, Timestamp};
use riffdb_storage_api::keys::CanonicalRecord;
use riffdb_storage_api::outbox::{
    OutboxClaimV1, OutboxDeadLetterV1, OutboxDeliveryStateV1, OutboxDestinationIdV1,
    OutboxPageLimit, OutboxRecoveryUpperFenceV1, OutboxRenewV1, OutboxRetryMetadataV1,
    OutboxRetryV1, OutboxSafeErrorV1, OutboxStatusObservationV1, OutboxSucceedV1,
    PendingOutboxItemV1, PendingOutboxScanV1, StoredOutboxIntentV1, StoredOutboxStatusV1,
    UndeliveredOutboxStatusScanRequestV1, UndeliveredOutboxStatusScanV1,
    UndeliveredOutboxStatusV1, MAX_OUTBOX_DESTINATION_ID_BYTES, MAX_OUTBOX_SAFE_ERROR_BYTES,
};
use riffdb_storage_api::page::{EncodedContentCharge, EncodedPageItem, NonZeroLimit};
use riffdb_storage_api::records::StoredDurableEventV1;
use riffdb_storage_api::value_error::StorageValueError;
use riffdb_storage_api::wire;

fn event_id() -> EventId {
    EventId::new(CommitSequence::first(), 0)
}

fn timestamp(seconds: i64) -> Timestamp {
    Timestamp::new(seconds, 0).expect("canonical timestamp")
}

fn destination() -> OutboxDestinationIdV1 {
    OutboxDestinationIdV1::new("stdout/default".to_owned()).expect("destination")
}

fn one() -> Id32 {
    Id32::new(1).expect("nonzero")
}

fn event() -> StoredDurableEventV1 {
    StoredDurableEventV1 {
        event_id: event_id(),
        event_type_id: EventTypeId::new(1).expect("event type"),
        payload: CanonicalRecord {
            fields: Vec::new(),
            encoded: vec![13, 1, 0, 0, 0, 0],
        },
        event_hash: Digest::from_bytes([7; 32]),
    }
}

fn read<M>(record_type: RecordType, message: M) -> ReadAttempt<M> {
    let _ = record_type;
    ReadAttempt {
        typed: Some(message),
        registry: Err(EnvelopeError::Malformed),
        encoded_len: 90,
    }
}

fn foreign<M>(record_type: RecordType) -> ReadAttempt<M> {
    ReadAttempt {
        typed: None,
        registry: Ok(riffdb_storage_api::codec::envelope::RegistryRecord {
            record_type,
            message: None,
        }),
        encoded_len: 90,
    }
}

#[test]
fn absent_status_is_exactly_zero_attempt_pending() {
    let status = OutboxStatusObservationV1::AbsentInitialPending;

    assert!(status.is_pending());
    assert_eq!(status.attempts(), 0);
}

#[test]
fn pending_scan_limit_is_bounded_before_storage() {
    assert!(OutboxPageLimit::new(NonZeroLimit::new(500).expect("nonzero")).is_ok());
    assert_eq!(
        OutboxPageLimit::new(NonZeroLimit::new(501).expect("nonzero")),
        Err(StorageValueError::LimitExceeded)
    );
}

fn undelivered(id: EventId, bytes: usize) -> EncodedPageItem<UndeliveredOutboxStatusV1> {
    EncodedPageItem::new(
        UndeliveredOutboxStatusV1::new(id, OutboxStatusObservationV1::AbsentInitialPending)
            .ok()
            .expect("initial pending"),
        EncodedContentCharge::new(bytes).expect("nonzero charge"),
    )
}

#[test]
fn undelivered_status_rejects_delivered_and_scan_freezes_exact_order() {
    let delivered =
        StoredOutboxStatusV1::delivered(event_id(), one(), destination(), timestamp(1));
    assert!(
        UndeliveredOutboxStatusV1::new(
            event_id(),
            OutboxStatusObservationV1::Present(delivered)
        ) == Err(StorageValueError::InvalidShape)
    );

    let second_id = EventId::new(CommitSequence::first(), 1);
    let limit = OutboxPageLimit::new(NonZeroLimit::new(2).expect("nonzero")).expect("limit");
    let upper = EventId::new(CommitSequence::new(2).expect("second commit"), 0);
    let request = UndeliveredOutboxStatusScanRequestV1::initial(None, limit);
    let page = UndeliveredOutboxStatusScanV1::page(
        request,
        upper,
        vec![undelivered(event_id(), 1), undelivered(second_id, 1)],
    )
    .ok()
    .expect("ordered page");
    let continuation = page.continuation().expect("continued page");
    assert_eq!(continuation.after(), second_id);
    assert_eq!(continuation.inclusive_upper(), upper);
    assert!(
        UndeliveredOutboxStatusScanV1::exact_end(
            request,
            OutboxRecoveryUpperFenceV1::Inclusive(upper),
            vec![undelivered(second_id, 1), undelivered(event_id(), 1)],
        ) == Err(StorageValueError::NonCanonicalOrder)
    );
    assert!(matches!(
        UndeliveredOutboxStatusScanV1::exact_end(
            request,
            OutboxRecoveryUpperFenceV1::BeforeFirst,
            Vec::new(),
        )
        .ok()
        .expect("empty exact end"),
        UndeliveredOutboxStatusScanV1::ExactEnd {
            inclusive_upper: OutboxRecoveryUpperFenceV1::BeforeFirst,
            ..
        }
    ));
}

#[test]
fn continued_scan_keeps_its_upper_fence() {
    let limit = OutboxPageLimit::new(NonZeroLimit::new(1).expect("nonzero")).expect("limit");
    let upper = EventId::new(CommitSequence::new(2).expect("second commit"), 0);
    let page = UndeliveredOutboxStatusScanV1::page(
        UndeliveredOutboxStatusScanRequestV1::initial(None, limit),
        upper,
        vec![undelivered(event_id(), 1)],
    )
    .ok()
    .expect("page");
    let next = UndeliveredOutboxStatusScanRequestV1::continuing(
        page.continuation().expect("continuation"),
        limit,
    );
    assert_eq!(next.after(), Some(event_id()));
    assert_eq!(next.inclusive_upper(), Some(upper));
    assert_eq!(next.limit(), limit);
    // An item that was already returned is not accepted again.
    assert!(
        UndeliveredOutboxStatusScanV1::page(next, upper, vec![undelivered(event_id(), 1)]).is_err()
    );
    // Nor is a page under another fence.
    let later = EventId::new(CommitSequence::new(3).expect("third commit"), 0);
    assert!(UndeliveredOutboxStatusScanV1::page(
        next,
        later,
        vec![undelivered(EventId::new(CommitSequence::first(), 1), 1)]
    )
    .is_err());
}

#[test]
fn pending_status_accounting_includes_maximum_bounded_text() {
    let status = OutboxStatusObservationV1::Present(StoredOutboxStatusV1::pending(
        event_id(),
        OutboxRetryMetadataV1::new(
            one(),
            timestamp(1),
            Some(timestamp(2)),
            OutboxDestinationIdV1::new("d".repeat(MAX_OUTBOX_DESTINATION_ID_BYTES))
                .expect("maximum destination"),
            Some(
                OutboxSafeErrorV1::new("e".repeat(MAX_OUTBOX_SAFE_ERROR_BYTES))
                    .ok()
                    .expect("maximum safe error"),
            ),
        ),
    ));

    assert!(
        status.semantic_bytes().expect("status size")
            > MAX_OUTBOX_DESTINATION_ID_BYTES + MAX_OUTBOX_SAFE_ERROR_BYTES
    );
}

#[test]
fn pending_item_counts_both_complete_authoritative_event_copies() {
    let event = event();
    let payload_bytes = event.payload.encoded.len();
    let intent = StoredOutboxIntentV1::new(event.clone());
    let item = PendingOutboxItemV1::new(
        event,
        intent,
        OutboxStatusObservationV1::AbsentInitialPending,
    )
    .ok()
    .expect("pending item");

    assert_eq!(item.semantic_bytes(), Ok(2 * (payload_bytes + 52) + 1));
}

#[test]
fn retry_preserves_attempt_and_destination() {
    let claim = OutboxClaimV1::new(
        event_id(),
        OutboxStatusObservationV1::AbsentInitialPending,
        destination(),
        timestamp(10),
        timestamp(20),
    )
    .ok()
    .expect("valid claim");
    let retry = OutboxRetryV1::new(
        claim.updated().clone(),
        Some(timestamp(30)),
        Some(
            OutboxSafeErrorV1::new("temporary".to_owned())
                .ok()
                .expect("safe error"),
        ),
    )
    .ok()
    .expect("valid retry");

    let OutboxDeliveryStateV1::Pending(metadata) = retry.updated().state() else {
        panic!("retry must be pending");
    };
    assert_eq!(metadata.attempts().get(), 1);
    assert_eq!(metadata.destination_id(), &destination());
    assert_eq!(metadata.next_attempt_at(), Some(timestamp(30)));
}

#[test]
fn delivered_cannot_be_claimed_again() {
    let delivered =
        StoredOutboxStatusV1::delivered(event_id(), one(), destination(), timestamp(10));

    assert!(
        OutboxClaimV1::new(
            event_id(),
            OutboxStatusObservationV1::Present(delivered),
            destination(),
            timestamp(11),
            timestamp(12),
        ) == Err(StorageValueError::InvalidShape)
    );
}

#[test]
fn claims_count_attempts_and_stop_at_the_last() {
    let retried = |attempts: u32| {
        OutboxStatusObservationV1::Present(StoredOutboxStatusV1::pending(
            event_id(),
            OutboxRetryMetadataV1::new(
                Id32::new(attempts).expect("nonzero"),
                timestamp(1),
                None,
                destination(),
                None,
            ),
        ))
    };
    let claim = |status| {
        OutboxClaimV1::new(
            event_id(),
            status,
            destination(),
            timestamp(2),
            timestamp(3),
        )
    };
    let claimed = claim(retried(4)).ok().expect("claim");
    assert_eq!(claimed.updated().state().attempts(), 5);
    assert!(claim(retried(u32::MAX)) == Err(StorageValueError::SizeOverflow));
    // The observation has to be of the claimed event.
    let other = EventId::new(CommitSequence::first(), 9);
    assert!(
        OutboxClaimV1::new(other, retried(1), destination(), timestamp(2), timestamp(3)).err()
            == Some(StorageValueError::IdentityMismatch)
    );
}

#[test]
fn renewals_and_successes_follow_the_attempt() {
    let claim = OutboxClaimV1::new(
        event_id(),
        OutboxStatusObservationV1::AbsentInitialPending,
        destination(),
        timestamp(10),
        timestamp(20),
    )
    .ok()
    .expect("claim");
    let renewed = OutboxRenewV1::new(claim.updated().clone(), timestamp(40))
        .ok()
        .expect("renewal");
    let OutboxDeliveryStateV1::Delivering {
        attempt,
        started_at,
        lease_deadline,
        ..
    } = renewed.updated().state()
    else {
        panic!("renewal must stay in flight");
    };
    assert_eq!(attempt.get(), 1);
    assert_eq!(*started_at, timestamp(10));
    assert_eq!(*lease_deadline, timestamp(40));

    let done = OutboxSucceedV1::new(renewed.updated().clone(), timestamp(41))
        .ok()
        .expect("success");
    assert!(matches!(
        done.updated().state(),
        OutboxDeliveryStateV1::Delivered { .. }
    ));
    // A delivered row is final.
    assert!(OutboxRenewV1::new(done.updated().clone(), timestamp(50)).is_err());
    assert!(OutboxSucceedV1::new(done.updated().clone(), timestamp(50)).is_err());
    assert!(OutboxRetryV1::new(done.updated().clone(), None, None).is_err());
}

#[test]
fn a_failure_before_any_attempt_names_its_destination() {
    let dead = OutboxDeadLetterV1::new(
        event_id(),
        OutboxStatusObservationV1::AbsentInitialPending,
        Some(destination()),
        timestamp(5),
        None,
    )
    .ok()
    .expect("dead letter");
    let OutboxDeliveryStateV1::DeadLetter {
        attempts,
        destination_id,
        ..
    } = dead.updated().state()
    else {
        panic!("must be terminal");
    };
    assert_eq!(*attempts, 0);
    assert_eq!(destination_id, &destination());
    assert!(OutboxDeadLetterV1::new(
        event_id(),
        OutboxStatusObservationV1::AbsentInitialPending,
        None,
        timestamp(5),
        None,
    )
    .is_err());
}

#[test]
fn destinations_are_bounded_visible_ascii() {
    let refused = |text: &str| OutboxDestinationIdV1::new(text.to_owned()).err();
    assert_eq!(refused(""), Some(StorageValueError::Empty));
    assert_eq!(refused("a b"), Some(StorageValueError::InvalidShape));
    assert_eq!(refused("a\u{e9}"), Some(StorageValueError::InvalidShape));
    assert_eq!(
        refused(&"d".repeat(MAX_OUTBOX_DESTINATION_ID_BYTES + 1)),
        Some(StorageValueError::LimitExceeded)
    );
    assert_eq!(refused("!~"), None);
    assert!(OutboxSafeErrorV1::new(String::new()) == Err(StorageValueError::Empty));
    assert!(
        OutboxSafeErrorV1::new("e".repeat(MAX_OUTBOX_SAFE_ERROR_BYTES + 1))
            == Err(StorageValueError::LimitExceeded)
    );
}

fn pending_item(id: EventId) -> EncodedPageItem<PendingOutboxItemV1> {
    let event = StoredDurableEventV1 {
        event_id: id,
        ..event()
    };
    EncodedPageItem::new(
        PendingOutboxItemV1::new(
            event.clone(),
            StoredOutboxIntentV1::new(event),
            OutboxStatusObservationV1::AbsentInitialPending,
        )
        .ok()
        .expect("pending item"),
        EncodedContentCharge::new(10).expect("charge"),
    )
}

#[test]
fn pending_pages_are_ordered_and_end_exactly() {
    let second = EventId::new(CommitSequence::first(), 1);
    let page = PendingOutboxScanV1::page(vec![pending_item(event_id()), pending_item(second)], true)
        .ok()
        .expect("page");
    assert!(matches!(
        page,
        PendingOutboxScanV1::Page { next_after, .. } if next_after == second
    ));
    assert!(
        PendingOutboxScanV1::page(vec![pending_item(second), pending_item(event_id())], true).err()
            == Some(StorageValueError::NonCanonicalOrder)
    );
    assert!(PendingOutboxScanV1::page(Vec::new(), true).err() == Some(StorageValueError::InvalidShape));
    assert!(matches!(
        PendingOutboxScanV1::page(Vec::new(), false),
        Ok(PendingOutboxScanV1::ExactEnd { .. })
    ));
}

#[test]
fn status_rows_come_back_as_they_were() {
    let rows = vec![
        StoredOutboxStatusV1::pending(
            event_id(),
            OutboxRetryMetadataV1::new(
                one(),
                timestamp(1),
                Some(timestamp(2)),
                destination(),
                Some(OutboxSafeErrorV1::new("late".to_owned()).ok().expect("error")),
            ),
        ),
        StoredOutboxStatusV1::delivering(
            event_id(),
            one(),
            destination(),
            timestamp(1),
            timestamp(2),
        ),
        StoredOutboxStatusV1::delivered(event_id(), one(), destination(), timestamp(3)),
        StoredOutboxStatusV1::dead_letter(event_id(), 0, destination(), timestamp(4), None),
    ];
    for row in rows {
        let outgoing = encode_outbox_status_v1(&row);
        assert_eq!(outgoing.record_type, RecordType::StoredOutboxStatusV1);
        let item = decode_outbox_status_v1(read(outgoing.record_type, outgoing.message))
            .ok()
            .expect("row");
        assert!(item.value == row);
        assert_eq!(item.charge.get(), 90);
    }
}

#[test]
fn unsound_status_rows_are_corrupt() {
    let sound = || {
        encode_outbox_status_v1(&StoredOutboxStatusV1::delivered(
            event_id(),
            one(),
            destination(),
            timestamp(3),
        ))
        .message
    };
    let kind = |message| {
        decode_outbox_status_v1(read(RecordType::StoredOutboxStatusV1, message))
            .err()
            .map(|error| error.kind())
    };
    assert_eq!(kind(sound()), None);
    let mut zero = sound();
    if let Some(wire::StoredOutboxStatusV1State::Delivered(state)) = &mut zero.state {
        state.attempts = 0;
    }
    assert_eq!(kind(zero), Some(DurableCodecErrorKind::CorruptData));
    let mut spaced = sound();
    if let Some(wire::StoredOutboxStatusV1State::Delivered(state)) = &mut spaced.state {
        state.destination_id = "a b".to_owned();
    }
    assert_eq!(kind(spaced), Some(DurableCodecErrorKind::CorruptData));
    let mut missing = sound();
    missing.state = None;
    assert_eq!(kind(missing), Some(DurableCodecErrorKind::CorruptData));
    assert_eq!(
        decode_outbox_status_v1(foreign(RecordType::StoredOutboxIntentV2))
            .err()
            .map(|error| error.kind()),
        Some(DurableCodecErrorKind::UnexpectedRecordType)
    );
}

#[test]
fn intents_prove_their_event() {
    let intent = StoredOutboxIntentV1::new(event());
    let outgoing = encode_outbox_intent_v1(&intent);
    assert_eq!(outgoing.record_type, RecordType::StoredOutboxIntentV2);
    let item = decode_outbox_intent_v2(read(outgoing.record_type, outgoing.message), event())
        .ok()
        .expect("intent");
    assert!(item.value == intent);

    let other = StoredDurableEventV1 {
        event_hash: Digest::from_bytes([8; 32]),
        ..event()
    };
    let message = encode_outbox_intent_v1(&intent).message;
    assert_eq!(
        decode_outbox_intent_v2(read(RecordType::StoredOutboxIntentV2, message), other.clone())
            .err()
            .map(|error| error.kind()),
        Some(DurableCodecErrorKind::CorruptData)
    );

    // A historical intent embeds its event, and is held to the given one.
    let legacy = || {
        let outgoing = encode_outbox_intent_legacy_v1(&StoredOutboxIntentV1::new(event()));
        read(outgoing.record_type, outgoing.message)
    };
    let item = decode_outbox_intent_v1(legacy()).ok().expect("legacy intent");
    assert!(item.value == intent);
    let item = decode_outbox_intent_with_event(
        foreign(RecordType::StoredOutboxIntentV1),
        legacy(),
        event(),
    )
    .ok()
    .expect("legacy intent");
    assert!(item.value == intent);
    assert_eq!(
        decode_outbox_intent_with_event(
            foreign(RecordType::StoredOutboxIntentV1),
            legacy(),
            other
        )
        .err()
        .map(|error| error.kind()),
        Some(DurableCodecErrorKind::CorruptData)
    );
    let reference =
        decode_outbox_event_reference(foreign(RecordType::StoredOutboxIntentV1), legacy())
            .ok()
            .expect("reference");
    assert_eq!(reference.value.event_id, event_id());
    assert_eq!(reference.value.event_hash, Digest::from_bytes([7; 32]));
}
