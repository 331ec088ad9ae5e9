//! Outbox intents and delivery status rows.

use vstd::prelude::*;

use crate::codec::application::{
    event_carries, event_from_proto, event_reference_carries, event_reference_form_is_exact,
    event_reference_from_proto, event_reference_to_proto, event_reference_valid, event_to_proto,
    event_valid,
};
use crate::codec::common::{
    event_id_carries, event_id_form_is_exact, event_id_from_proto, event_id_to_proto,
    event_id_valid, timestamp_carries, timestamp_from_proto, timestamp_to_proto, timestamp_valid,
};
use crate::codec::envelope::{
    charged, read_message, read_outcome, refusal_of, OutgoingRecord, ReadAttempt,
};
use crate::codec::error::{is_corrupt, require, DurableCodecError, DurableCodecErrorKind};
use crate::codec::parts::require_ref;
use crate::codec::record_type::RecordType;
use crate::ids::{Id32, Timestamp};
use crate::outbox::{
    destination_refusal, safe_error_refusal, safe_error_view, DeliveryView, OutboxDeliveryStateV1,
    OutboxDestinationIdV1, OutboxRetryMetadataV1, OutboxSafeErrorV1, OutboxStatusView,
    StoredOutboxIntentV1, StoredOutboxStatusV1,
};
use crate::page::{EncodedContentCharge, EncodedPageItem};
use crate::records::{DurableEventView, StoredDurableEventV1};
use crate::stored::application::EventReferenceV2;
use crate::stored::commit::reference_to;
use crate::wire;

verus! {

/// Whether a message refers to an event.
pub open spec fn intent_refers(
    message: wire::StoredOutboxIntentV2,
    reference: EventReferenceV2,
) -> bool {
    message.event_reference matches Some(part) && event_reference_carries(part, reference)
}

/// Whether a message embeds an event.
pub open spec fn intent_embeds(
    message: wire::StoredOutboxIntentV1,
    event: DurableEventView,
) -> bool {
    message.event matches Some(part) && event_carries(part, event)
}

/// Encodes one payload-free outbox reference to the authoritative event.
pub fn encode_outbox_intent_v1(value: &StoredOutboxIntentV1) -> (result: OutgoingRecord<
    wire::StoredOutboxIntentV2,
>)
    ensures
        result.record_type == RecordType::StoredOutboxIntentV2,
        intent_refers(result.message, reference_to(value.event@)),
{
    let reference = EventReferenceV2 {
        event_id: value.event.event_id,
        event_hash: value.event.event_hash,
    };
    OutgoingRecord {
        record_type: RecordType::StoredOutboxIntentV2,
        message: wire::StoredOutboxIntentV2 {
            event_reference: Some(event_reference_to_proto(reference)),
        },
    }
}

/// Encodes the historical form of an outbox intent, which embeds its event.
pub fn encode_outbox_intent_legacy_v1(value: &StoredOutboxIntentV1) -> (result: OutgoingRecord<
    wire::StoredOutboxIntentV1,
>)
    ensures
        result.record_type == RecordType::StoredOutboxIntentV1,
        intent_embeds(result.message, value.event@),
{
    OutgoingRecord {
        record_type: RecordType::StoredOutboxIntentV1,
        message: wire::StoredOutboxIntentV1 { event: Some(event_to_proto(&value.event)) },
    }
}

/// Whether a message embeds some valid event.
pub open spec fn legacy_intent_readable(message: wire::StoredOutboxIntentV1) -> bool {
    exists|event: DurableEventView| #[trigger] intent_embeds(message, event) && event_valid(event)
}

/// What reading a historical intent comes to.
pub open spec fn legacy_intent_outcome(
    attempt: ReadAttempt<wire::StoredOutboxIntentV1>,
    result: Result<EncodedPageItem<StoredOutboxIntentV1>, DurableCodecError>,
) -> bool {
    match read_outcome(RecordType::StoredOutboxIntentV1, attempt) {
        Err(kind) => result == Err::<EncodedPageItem<StoredOutboxIntentV1>, _>(
            DurableCodecError { kind },
        ),
        Ok(message) => match refusal_of(
            legacy_intent_readable(message),
            None,
            attempt.encoded_len,
        ) {
            Some(kind) => result == Err::<EncodedPageItem<StoredOutboxIntentV1>, _>(
                DurableCodecError { kind },
            ),
            None => result is Ok && intent_embeds(message, result->Ok_0.value.event@)
                && event_valid(result->Ok_0.value.event@) && result->Ok_0.charge.bytes
                == attempt.encoded_len,
        },
    }
}

fn embedded_event(message: &wire::StoredOutboxIntentV1) -> (result: Result<
    StoredDurableEventV1,
    DurableCodecError,
>)
    ensures
        match result {
            Ok(event) => intent_embeds(*message, event@) && event_valid(event@),
            Err(error) => is_corrupt(error) && !legacy_intent_readable(*message),
        },
{
    let part = require_ref(&message.event)?;
    event_from_proto(part)
}

/// Decodes one historical embedded-event outbox intent.
pub fn decode_outbox_intent_v1(attempt: ReadAttempt<wire::StoredOutboxIntentV1>) -> (result: Result<
    EncodedPageItem<StoredOutboxIntentV1>,
    DurableCodecError,
>)
    ensures
        legacy_intent_outcome(attempt, result),
{
    let encoded_len = attempt.encoded_len;
    let message = read_message(RecordType::StoredOutboxIntentV1, attempt)?;
    let event = embedded_event(&message)?;
    charged(StoredOutboxIntentV1::new(event), encoded_len)
}

/// What reading a current intent beside its event comes to: the reference has to
/// be the event's own.
pub open spec fn current_intent_outcome(
    attempt: ReadAttempt<wire::StoredOutboxIntentV2>,
    event: StoredDurableEventV1,
    result: Result<EncodedPageItem<StoredOutboxIntentV1>, DurableCodecError>,
) -> bool {
    match read_outcome(RecordType::StoredOutboxIntentV2, attempt) {
        Err(kind) => result == Err::<EncodedPageItem<StoredOutboxIntentV1>, _>(
            DurableCodecError { kind },
        ),
        Ok(message) => match refusal_of(
            intent_refers(message, reference_to(event@)) && event_reference_valid(
                reference_to(event@),
            ),
            None,
            attempt.encoded_len,
        ) {
            Some(kind) => result == Err::<EncodedPageItem<StoredOutboxIntentV1>, _>(
                DurableCodecError { kind },
            ),
            None => result == Ok::<EncodedPageItem<StoredOutboxIntentV1>, DurableCodecError>(
                EncodedPageItem {
                    value: StoredOutboxIntentV1 { event },
                    charge: EncodedContentCharge { bytes: attempt.encoded_len },
                },
            ),
        },
    }
}

/// Decodes a current payload-free outbox intent and proves the separately loaded
/// authoritative event row.
pub fn decode_outbox_intent_v2(
    attempt: ReadAttempt<wire::StoredOutboxIntentV2>,
    event: StoredDurableEventV1,
) -> (result: Result<EncodedPageItem<StoredOutboxIntentV1>, DurableCodecError>)
    ensures
        current_intent_outcome(attempt, event, result),
{
    let encoded_len = attempt.encoded_len;
    let message = read_message(RecordType::StoredOutboxIntentV2, attempt)?;
    let part = require_ref(&message.event_reference)?;
    let reference = event_reference_from_proto(part)?;
    let matches = reference.event_id == event.event_id && reference.event_hash.same(
        &event.event_hash,
    );
    if !matches {
        proof {
            if event_reference_carries(*part, reference_to(event@)) {
                event_reference_form_is_exact(*part, reference, reference_to(event@));
            }
        }
        return Err(DurableCodecError::corrupt());
    }
    charged(StoredOutboxIntentV1::new(event), encoded_len)
}

/// Decodes either historical embedded-event intent or a current reference, proving
/// the supplied authoritative event in both cases.
pub fn decode_outbox_intent_with_event(
    current: ReadAttempt<wire::StoredOutboxIntentV2>,
    legacy: ReadAttempt<wire::StoredOutboxIntentV1>,
    event: StoredDurableEventV1,
) -> (result: Result<EncodedPageItem<StoredOutboxIntentV1>, DurableCodecError>)
    ensures
        match read_outcome(RecordType::StoredOutboxIntentV2, current) {
            Err(DurableCodecErrorKind::UnexpectedRecordType) => exists|
                by_legacy: Result<EncodedPageItem<StoredOutboxIntentV1>, DurableCodecError>,
            | #[trigger]
                legacy_intent_outcome(legacy, by_legacy) && if by_legacy is Ok
                    && by_legacy->Ok_0.value.event@ != event@ {
                    result is Err && is_corrupt(result->Err_0)
                } else {
                    result == by_legacy
                },
            _ => exists|by_current: Result<EncodedPageItem<StoredOutboxIntentV1>,
                DurableCodecError>|
                #[trigger] current_intent_outcome(current, event, by_current) && match (
                    by_current,
                    result,
                ) {
                    (Ok(a), Ok(b)) => a.value.event@ == b.value.event@ && a.charge == b.charge,
                    (Err(a), Err(b)) => a == b,
                    _ => false,
                },
        },
{
    let own = event.clone();
    match decode_outbox_intent_v2(current, event) {
        Ok(value) => Ok(value),
        Err(error) => if error.kind() == DurableCodecErrorKind::UnexpectedRecordType {
            let by_legacy = decode_outbox_intent_v1(legacy);
            match by_legacy {
                Err(error) => {
                    proof {
                        assert(legacy_intent_outcome(
                            legacy,
                            Err::<EncodedPageItem<StoredOutboxIntentV1>, DurableCodecError>(error),
                        ));
                    }
                    Err(error)
                },
                Ok(decoded) => {
                    proof {
                        assert(legacy_intent_outcome(
                            legacy,
                            Ok::<EncodedPageItem<StoredOutboxIntentV1>, DurableCodecError>(decoded),
                        ));
                    }
                    if decoded.value.event.same(&own) {
                        Ok(decoded)
                    } else {
                        Err(DurableCodecError::corrupt())
                    }
                },
            }
        } else {
            proof {
                assert(current_intent_outcome(
                    current,
                    event,
                    Err::<EncodedPageItem<StoredOutboxIntentV1>, DurableCodecError>(error),
                ));
            }
            Err(error)
        },
    }
}

/// Whether a message refers to some valid event.
pub open spec fn intent_reference_readable(message: wire::StoredOutboxIntentV2) -> bool {
    exists|reference: EventReferenceV2| #[trigger]
        intent_refers(message, reference) && event_reference_valid(reference)
}

fn intended_reference(message: &wire::StoredOutboxIntentV2) -> (result: Result<
    EventReferenceV2,
    DurableCodecError,
>)
    ensures
        match result {
            Ok(held) => intent_refers(*message, held) && event_reference_valid(held),
            Err(error) => is_corrupt(error) && !intent_reference_readable(*message),
        },
{
    let part = require_ref(&message.event_reference)?;
    event_reference_from_proto(part)
}

/// Decodes only the exact reference needed to load an outbox event.
pub fn decode_outbox_event_reference(
    current: ReadAttempt<wire::StoredOutboxIntentV2>,
    legacy: ReadAttempt<wire::StoredOutboxIntentV1>,
) -> (result: Result<EncodedPageItem<EventReferenceV2>, DurableCodecError>)
    ensures
        match read_outcome(RecordType::StoredOutboxIntentV2, current) {
            Err(DurableCodecErrorKind::UnexpectedRecordType) => exists|
                by_legacy: Result<EncodedPageItem<StoredOutboxIntentV1>, DurableCodecError>,
            | #[trigger]
                legacy_intent_outcome(legacy, by_legacy) && match by_legacy {
                    Err(error) => result == Err::<EncodedPageItem<EventReferenceV2>, _>(error),
                    Ok(intent) => result == Ok::<
                        EncodedPageItem<EventReferenceV2>,
                        DurableCodecError,
                    >(
                        EncodedPageItem {
                            value: reference_to(intent.value.event@),
                            charge: intent.charge,
                        },
                    ),
                },
            Err(kind) => result == Err::<EncodedPageItem<EventReferenceV2>, _>(
                DurableCodecError { kind },
            ),
            Ok(message) => match refusal_of(
                intent_reference_readable(message),
                None,
                current.encoded_len,
            ) {
                Some(kind) => result == Err::<EncodedPageItem<EventReferenceV2>, _>(
                    DurableCodecError { kind },
                ),
                None => result is Ok && intent_refers(message, result->Ok_0.value)
                    && event_reference_valid(result->Ok_0.value) && result->Ok_0.charge.bytes
                    == current.encoded_len,
            },
        },
{
    let encoded_len = current.encoded_len;
    match read_message(RecordType::StoredOutboxIntentV2, current) {
        Ok(message) => {
            let reference = intended_reference(&message)?;
            charged(reference, encoded_len)
        },
        Err(error) => if error.kind() == DurableCodecErrorKind::UnexpectedRecordType {
            let by_legacy = decode_outbox_intent_v1(legacy);
            proof {
                assert(legacy_intent_outcome(legacy, by_legacy));
            }
            match by_legacy {
                Err(error) => Err(error),
                Ok(decoded) => {
                    let reference = EventReferenceV2 {
                        event_id: decoded.value.event.event_id,
                        event_hash: decoded.value.event.event_hash,
                    };
                    Ok(EncodedPageItem::new(reference, decoded.charge))
                },
            }
        } else {
            Err(error)
        },
    }
}

/// A reference read back is the reference of the event that was intended.
pub proof fn intent_round_trip(
    message: wire::StoredOutboxIntentV2,
    event: DurableEventView,
    read: EventReferenceV2,
)
    requires
        intent_refers(message, reference_to(event)),
        intent_refers(message, read),
    ensures
        read == reference_to(event),
{
    event_reference_form_is_exact(message.event_reference->Some_0, reference_to(event), read);
}

/// Whether a message is the form of a point in time.
pub open spec fn time_carries(message: Option<wire::TimestampV1>, value: Timestamp) -> bool {
    message matches Some(part) && timestamp_carries(part, value)
}

/// Whether a message is the form of an optional point in time.
pub open spec fn optional_time_carries(
    message: Option<wire::TimestampV1>,
    value: Option<Timestamp>,
) -> bool {
    match value {
        Some(value) => time_carries(message, value),
        None => message is None,
    }
}

fn time_from_wire(message: &Option<wire::TimestampV1>) -> (result: Result<
    Timestamp,
    DurableCodecError,
>)
    ensures
        match result {
            Ok(held) => time_carries(*message, held) && timestamp_valid(held),
            Err(error) => is_corrupt(error) && forall|other: Timestamp| #[trigger]
                time_carries(*message, other) ==> !timestamp_valid(other),
        },
{
    timestamp_from_proto(require_ref(message)?)
}

fn optional_time_from_wire(message: &Option<wire::TimestampV1>) -> (result: Result<
    Option<Timestamp>,
    DurableCodecError,
>)
    ensures
        match result {
            Ok(held) => optional_time_carries(*message, held) && (held is Some ==> timestamp_valid(
                held->Some_0,
            )),
            Err(error) => is_corrupt(error) && forall|other: Option<Timestamp>| #[trigger]
                optional_time_carries(*message, other) ==> other is Some && !timestamp_valid(
                    other->Some_0,
                ),
        },
{
    match message {
        Some(part) => match timestamp_from_proto(part) {
            Ok(held) => Ok(Some(held)),
            Err(error) => Err(error),
        },
        None => Ok(None),
    }
}

fn optional_time_to_wire(value: Option<Timestamp>) -> (result: Option<wire::TimestampV1>)
    ensures
        optional_time_carries(result, value),
{
    match value {
        Some(value) => Some(timestamp_to_proto(value)),
        None => None,
    }
}

/// Whether a message is the form of an optional retained safe error.
pub open spec fn safe_error_carries(message: Option<String>, value: Option<Seq<char>>) -> bool {
    match (message, value) {
        (Some(part), Some(value)) => part@ == value,
        (None, None) => true,
        _ => false,
    }
}

/// A retained safe error obeys its bound.
pub open spec fn safe_error_valid(value: Option<Seq<char>>) -> bool {
    value is Some ==> safe_error_refusal(value->Some_0) is None
}

fn safe_error_to_wire(value: &Option<OutboxSafeErrorV1>) -> (result: Option<String>)
    ensures
        safe_error_carries(result, safe_error_view(*value)),
{
    match value {
        Some(value) => Some(value.value.clone()),
        None => None,
    }
}

fn destination(value: &String) -> (result: Result<OutboxDestinationIdV1, DurableCodecError>)
    ensures
        match result {
            Ok(held) => held@ == value@ && destination_refusal(value@) is None,
            Err(error) => is_corrupt(error) && destination_refusal(value@) is Some,
        },
{
    match OutboxDestinationIdV1::new(value.clone()) {
        Ok(held) => Ok(held),
        Err(_) => Err(DurableCodecError::corrupt()),
    }
}

fn safe_error(value: &Option<String>) -> (result: Result<
    Option<OutboxSafeErrorV1>,
    DurableCodecError,
>)
    ensures
        match result {
            Ok(held) => safe_error_carries(*value, safe_error_view(held)) && safe_error_valid(
                safe_error_view(held),
            ),
            Err(error) => is_corrupt(error) && forall|other: Option<Seq<char>>| #[trigger]
                safe_error_carries(*value, other) ==> !safe_error_valid(other),
        },
{
    match value {
        Some(text) => match OutboxSafeErrorV1::new(text.clone()) {
            Ok(held) => Ok(Some(held)),
            Err(_) => Err(DurableCodecError::corrupt()),
        },
        None => Ok(None),
    }
}

/// Whether a message is the form of a delivery state.
pub open spec fn delivery_carries(
    message: wire::StoredOutboxStatusV1State,
    value: DeliveryView,
) -> bool {
    match (message, value) {
        (wire::StoredOutboxStatusV1State::Pending(part), DeliveryView::Pending(metadata)) => {
            &&& part.attempts == metadata.attempts.value
            &&& time_carries(part.last_attempt_at, metadata.last_attempt_at)
            &&& optional_time_carries(part.next_attempt_at, metadata.next_attempt_at)
            &&& part.destination_id@ == metadata.destination_id
            &&& safe_error_carries(part.last_safe_error, metadata.last_safe_error)
        },
        (
            wire::StoredOutboxStatusV1State::Delivering(part),
            DeliveryView::Delivering { attempt, destination_id, started_at, lease_deadline },
        ) => {
            &&& part.attempt == attempt.value
            &&& part.destination_id@ == destination_id
            &&& time_carries(part.started_at, started_at)
            &&& time_carries(part.lease_deadline, lease_deadline)
        },
        (
            wire::StoredOutboxStatusV1State::Delivered(part),
            DeliveryView::Delivered { attempts, destination_id, delivered_at },
        ) => {
            &&& part.attempts == attempts.value
            &&& part.destination_id@ == destination_id
            &&& time_carries(part.delivered_at, delivered_at)
        },
        (
            wire::StoredOutboxStatusV1State::DeadLetter(part),
            DeliveryView::DeadLetter { attempts, destination_id, failed_at, last_safe_error },
        ) => {
            &&& part.attempts == attempts
            &&& part.destination_id@ == destination_id
            &&& time_carries(part.failed_at, failed_at)
            &&& safe_error_carries(part.last_safe_error, last_safe_error)
        },
        _ => false,
    }
}

/// The parts of a delivery state are valid: attempts that were begun are counted
/// from one, and texts obey their bounds.
pub open spec fn delivery_valid(value: DeliveryView) -> bool {
    &&& destination_refusal(value.destination()) is None
    &&& match value {
        DeliveryView::Pending(metadata) => {
            &&& metadata.attempts.valid()
            &&& timestamp_valid(metadata.last_attempt_at)
            &&& metadata.next_attempt_at is Some ==> timestamp_valid(
                metadata.next_attempt_at->Some_0,
            )
            &&& safe_error_valid(metadata.last_safe_error)
        },
        DeliveryView::Delivering { attempt, started_at, lease_deadline, .. } => {
            &&& attempt.valid()
            &&& timestamp_valid(started_at)
            &&& timestamp_valid(lease_deadline)
        },
        DeliveryView::Delivered { attempts, delivered_at, .. } => {
            &&& attempts.valid()
            &&& timestamp_valid(delivered_at)
        },
        DeliveryView::DeadLetter { failed_at, last_safe_error, .. } => {
            &&& timestamp_valid(failed_at)
            &&& safe_error_valid(last_safe_error)
        },
    }
}

/// Whether a message is the form of a status row.
pub open spec fn status_carries(
    message: wire::StoredOutboxStatusV1,
    value: OutboxStatusView,
) -> bool {
    &&& (message.event_id matches Some(part) && event_id_carries(part, value.event_id))
    &&& (message.state matches Some(part) && delivery_carries(part, value.state))
}

/// The parts of a status row are valid.
pub open spec fn status_valid(value: OutboxStatusView) -> bool {
    event_id_valid(value.event_id) && delivery_valid(value.state)
}

/// A message is the form of at most one status row.
pub proof fn status_form_is_exact(
    message: wire::StoredOutboxStatusV1,
    a: OutboxStatusView,
    b: OutboxStatusView,
)
    requires
        status_carries(message, a),
        status_carries(message, b),
    ensures
        a == b,
{
    event_id_form_is_exact(message.event_id->Some_0, a.event_id, b.event_id);
    match (a.state, b.state) {
        (DeliveryView::Pending(x), DeliveryView::Pending(y)) => {
            assert(x =~= y);
        },
        _ => {},
    }
}

/// The message form of a delivery state.
pub fn delivery_to_proto(value: &OutboxDeliveryStateV1) -> (result: wire::StoredOutboxStatusV1State)
    ensures
        delivery_carries(result, value@),
{
    match value {
        OutboxDeliveryStateV1::Pending(metadata) => wire::StoredOutboxStatusV1State::Pending(
            wire::OutboxRetryMetadataV1 {
                attempts: metadata.attempts.get(),
                last_attempt_at: Some(timestamp_to_proto(metadata.last_attempt_at)),
                next_attempt_at: optional_time_to_wire(metadata.next_attempt_at),
                destination_id: metadata.destination_id.value.clone(),
                last_safe_error: safe_error_to_wire(&metadata.last_safe_error),
            },
        ),
        OutboxDeliveryStateV1::Delivering {
            attempt,
            destination_id,
            started_at,
            lease_deadline,
        } => wire::StoredOutboxStatusV1State::Delivering(
            wire::OutboxDeliveringV1 {
                attempt: attempt.get(),
                destination_id: destination_id.value.clone(),
                started_at: Some(timestamp_to_proto(*started_at)),
                lease_deadline: Some(timestamp_to_proto(*lease_deadline)),
            },
        ),
        OutboxDeliveryStateV1::Delivered { attempts, destination_id, delivered_at } =>
            wire::StoredOutboxStatusV1State::Delivered(
            wire::OutboxDeliveredV1 {
                attempts: attempts.get(),
                destination_id: destination_id.value.clone(),
                delivered_at: Some(timestamp_to_proto(*delivered_at)),
            },
        ),
        OutboxDeliveryStateV1::DeadLetter {
            attempts,
            destination_id,
            failed_at,
            last_safe_error,
        } => wire::StoredOutboxStatusV1State::DeadLetter(
            wire::OutboxDeadLetterV1 {
                attempts: *attempts,
                destination_id: destination_id.value.clone(),
                failed_at: Some(timestamp_to_proto(*failed_at)),
                last_safe_error: safe_error_to_wire(last_safe_error),
            },
        ),
    }
}

/// Encodes one present derived outbox status row.
pub fn encode_outbox_status_v1(value: &StoredOutboxStatusV1) -> (result: OutgoingRecord<
    wire::StoredOutboxStatusV1,
>)
    ensures
        result.record_type == RecordType::StoredOutboxStatusV1,
        status_carries(result.message, value@),
{
    OutgoingRecord {
        record_type: RecordType::StoredOutboxStatusV1,
        message: wire::StoredOutboxStatusV1 {
            event_id: Some(event_id_to_proto(value.event_id)),
            state: Some(delivery_to_proto(&value.state)),
        },
    }
}

fn attempts_from_wire(value: u32) -> (result: Result<Id32, DurableCodecError>)
    ensures
        match result {
            Ok(held) => held.value == value && held.valid(),
            Err(error) => is_corrupt(error) && value == 0,
        },
{
    require(Id32::new(value))
}

/// Reads a delivery state.
pub fn delivery_from_proto(message: &wire::StoredOutboxStatusV1State) -> (result: Result<
    OutboxDeliveryStateV1,
    DurableCodecError,
>)
    ensures
        match result {
            Ok(held) => delivery_carries(*message, held@) && delivery_valid(held@),
            Err(error) => is_corrupt(error) && forall|other: DeliveryView| #[trigger]
                delivery_carries(*message, other) ==> !delivery_valid(other),
        },
{
    match message {
        wire::StoredOutboxStatusV1State::Pending(part) => {
            let attempts = attempts_from_wire(part.attempts)?;
            let last_attempt_at = time_from_wire(&part.last_attempt_at)?;
            let next_attempt_at = optional_time_from_wire(&part.next_attempt_at)?;
            let destination_id = destination(&part.destination_id)?;
            let last_safe_error = safe_error(&part.last_safe_error)?;
            Ok(
                OutboxDeliveryStateV1::Pending(
                    OutboxRetryMetadataV1 {
                        attempts,
                        last_attempt_at,
                        next_attempt_at,
                        destination_id,
                        last_safe_error,
                    },
                ),
            )
        },
        wire::StoredOutboxStatusV1State::Delivering(part) => {
            let attempt = attempts_from_wire(part.attempt)?;
            let destination_id = destination(&part.destination_id)?;
            let started_at = time_from_wire(&part.started_at)?;
            let lease_deadline = time_from_wire(&part.lease_deadline)?;
            Ok(
                OutboxDeliveryStateV1::Delivering {
                    attempt,
                    destination_id,
                    started_at,
                    lease_deadline,
                },
            )
        },
        wire::StoredOutboxStatusV1State::Delivered(part) => {
            let attempts = attempts_from_wire(part.attempts)?;
            let destination_id = destination(&part.destination_id)?;
            let delivered_at = time_from_wire(&part.delivered_at)?;
            Ok(OutboxDeliveryStateV1::Delivered { attempts, destination_id, delivered_at })
        },
        wire::StoredOutboxStatusV1State::DeadLetter(part) => {
            let destination_id = destination(&part.destination_id)?;
            let failed_at = time_from_wire(&part.failed_at)?;
            let last_safe_error = safe_error(&part.last_safe_error)?;
            Ok(
                OutboxDeliveryStateV1::DeadLetter {
                    attempts: part.attempts,
                    destination_id,
                    failed_at,
                    last_safe_error,
                },
            )
        },
    }
}

/// Whether a message is the form of some valid status row.
pub open spec fn status_readable(message: wire::StoredOutboxStatusV1) -> bool {
    exists|value: OutboxStatusView| #[trigger] status_carries(message, value) && status_valid(value)
}

fn status_from_proto(message: &wire::StoredOutboxStatusV1) -> (result: Result<
    StoredOutboxStatusV1,
    DurableCodecError,
>)
    ensures
        match result {
            Ok(held) => status_carries(*message, held@) && status_valid(held@),
            Err(error) => is_corrupt(error) && !status_readable(*message),
        },
{
    let event_id = event_id_from_proto(require_ref(&message.event_id)?)?;
    let state = delivery_from_proto(require_ref(&message.state)?)?;
    Ok(StoredOutboxStatusV1 { event_id, state })
}

/// Decodes one present derived outbox status row.
pub fn decode_outbox_status_v1(attempt: ReadAttempt<wire::StoredOutboxStatusV1>) -> (result: Result<
    EncodedPageItem<StoredOutboxStatusV1>,
    DurableCodecError,
>)
    ensures
        match read_outcome(RecordType::StoredOutboxStatusV1, attempt) {
            Err(kind) => result == Err::<EncodedPageItem<StoredOutboxStatusV1>, _>(
                DurableCodecError { kind },
            ),
            Ok(message) => match refusal_of(
                status_readable(message),
                None,
                attempt.encoded_len,
            ) {
                Some(kind) => result == Err::<EncodedPageItem<StoredOutboxStatusV1>, _>(
                    DurableCodecError { kind },
                ),
                None => result is Ok && status_carries(message, result->Ok_0.value@)
                    && status_valid(result->Ok_0.value@) && result->Ok_0.charge.bytes
                    == attempt.encoded_len,
            },
        },
{
    let encoded_len = attempt.encoded_len;
    let message = read_message(RecordType::StoredOutboxStatusV1, attempt)?;
    let value = status_from_proto(&message)?;
    charged(value, encoded_len)
}

/// A valid status row that is written comes back as it was.
pub proof fn status_round_trip(
    message: wire::StoredOutboxStatusV1,
    value: OutboxStatusView,
    attempt: ReadAttempt<wire::StoredOutboxStatusV1>,
    read: Result<EncodedPageItem<StoredOutboxStatusV1>, DurableCodecError>,
)
    requires
        status_carries(message, value),
        status_valid(value),
        attempt.typed == Some(message),
        attempt.encoded_len > 0,
        call_ensures(decode_outbox_status_v1, (attempt,), read),
    ensures
        read is Ok,
        read->Ok_0.value@ == value,
{
    assert(status_readable(message));
    status_form_is_exact(message, read->Ok_0.value@, value);
}

} // verus!
