//! Event consumer records as durable messages.

use vstd::prelude::*;

use crate::bytes::copy_bytes;
use crate::codec::common::{
    event_id_carries, event_id_form_is_exact, event_id_from_proto, event_id_to_proto,
    event_id_valid, optional_event_id_carries, optional_event_id_from_proto,
    optional_event_id_to_proto, timestamp_carries, timestamp_form_is_exact, timestamp_from_proto,
    timestamp_to_proto, timestamp_valid,
};
use crate::codec::envelope::{
    admitted_item, read_message, read_outcome, refusal_of, OutgoingRecord, ReadAttempt,
};
use crate::codec::error::{is_corrupt, require, DurableCodecError};
use crate::codec::parts::{
    count_carries, count_from_wire, count_to_wire, digest_from_wire, identifier_carries,
    identifier_from_wire, identifier_to_wire, require_ref, text_carries, text_from_wire,
    text_to_wire,
};
use crate::codec::record_type::RecordType;
use crate::ids::Id64;
use crate::page::EncodedPageItem;
use crate::stored::consumer::{
    ConsumerDeadLetterReasonV1, ConsumerDeliveryStateV1, DeadLetteredDelivery,
    EventConsumerIdentityV1, EventConsumerIdentityView, EventConsumerView, LeasedDelivery,
    RetryDelivery, SparseConsumerResolutionV1, SparseResolutionKindV1,
    StoredEventConsumerDeliveryV1, StoredEventConsumerV1,
};
use crate::wire;

verus! {

/// Whether a message is the form of an event consumer's identity.
pub open spec fn consumer_identity_carries(
    message: wire::EventConsumerIdentityV1,
    value: EventConsumerIdentityView,
) -> bool {
    &&& identifier_carries(message.database_id, value.database_id)
    &&& message.reactive_module_hash@ == value.reactive_module_hash.bytes@
    &&& text_carries(message.operation_name, value.operation_name)
    &&& message.parameter_hash@ == value.parameter_hash.bytes@
    &&& text_carries(message.consumer_name, value.consumer_name)
}

/// A message is the form of at most one value.
pub proof fn consumer_identity_form_is_exact(
    message: wire::EventConsumerIdentityV1,
    a: EventConsumerIdentityView,
    b: EventConsumerIdentityView,
)
    requires
        consumer_identity_carries(message, a),
        consumer_identity_carries(message, b),
    ensures
        a == b,
{
    assert(a.database_id.bytes =~= b.database_id.bytes);
    assert(a.reactive_module_hash.bytes =~= b.reactive_module_hash.bytes);
    assert(a.parameter_hash.bytes =~= b.parameter_hash.bytes);
}

/// The message form of an event consumer's identity.
pub fn consumer_identity_to_proto(
    value: &EventConsumerIdentityV1,
) -> (result: wire::EventConsumerIdentityV1)
    ensures
        consumer_identity_carries(result, value@),
{
    wire::EventConsumerIdentityV1 {
        database_id: identifier_to_wire(value.database_id),
        reactive_module_hash: copy_bytes(value.reactive_module_hash.bytes.as_slice()),
        operation_name: text_to_wire(&value.operation_name),
        parameter_hash: copy_bytes(value.parameter_hash.bytes.as_slice()),
        consumer_name: text_to_wire(&value.consumer_name),
    }
}

/// Reads an event consumer's identity.
pub fn consumer_identity_from_proto(value: &wire::EventConsumerIdentityV1) -> (result: Result<
    EventConsumerIdentityV1,
    DurableCodecError,
>)
    ensures
        match result {
            Ok(held) => consumer_identity_carries(*value, held@),
            Err(error) => is_corrupt(error) && forall|other: EventConsumerIdentityView|
                !#[trigger] consumer_identity_carries(*value, other),
        },
{
    let database_id = identifier_from_wire(&value.database_id)?;
    let reactive_module_hash = digest_from_wire(&value.reactive_module_hash)?;
    let operation_name = text_from_wire(&value.operation_name)?;
    let parameter_hash = digest_from_wire(&value.parameter_hash)?;
    let consumer_name = text_from_wire(&value.consumer_name)?;
    Ok(
        EventConsumerIdentityV1 {
            database_id,
            reactive_module_hash,
            operation_name,
            parameter_hash,
            consumer_name,
        },
    )
}

/// The stable code of how an event was resolved out of order.
pub open spec fn resolution_kind_code(value: SparseResolutionKindV1) -> i32 {
    match value {
        SparseResolutionKindV1::Acknowledged => 1,
        SparseResolutionKindV1::DeadLettered => 2,
    }
}

/// Returns the stable code of how an event was resolved out of order.
pub fn resolution_kind_to_code(value: SparseResolutionKindV1) -> (result: i32)
    ensures
        result == resolution_kind_code(value),
{
    match value {
        SparseResolutionKindV1::Acknowledged => 1,
        SparseResolutionKindV1::DeadLettered => 2,
    }
}

/// Reads how an event was resolved out of order from its stable code.
pub fn resolution_kind_from_code(
    value: i32,
) -> (result: Result<SparseResolutionKindV1, DurableCodecError>)
    ensures
        match result {
            Ok(held) => value == resolution_kind_code(held),
            Err(error) => is_corrupt(error) && forall|other: SparseResolutionKindV1|
                value != #[trigger] resolution_kind_code(other),
        },
{
    match value {
        1 => Ok(SparseResolutionKindV1::Acknowledged),
        2 => Ok(SparseResolutionKindV1::DeadLettered),
        _ => Err(DurableCodecError::corrupt()),
    }
}

/// Whether a message is the form of an event that was resolved out of order.
pub open spec fn resolution_carries(
    message: wire::SparseConsumerResolutionV1,
    value: SparseConsumerResolutionV1,
) -> bool {
    &&& (message.event_id matches Some(part) && event_id_carries(part, value.event_id))
    &&& message.kind == resolution_kind_code(value.kind)
}

/// The parts of an event that was resolved out of order are valid.
pub open spec fn resolution_valid(value: SparseConsumerResolutionV1) -> bool {
    &&& event_id_valid(value.event_id)
}

/// A message is the form of at most one value.
pub proof fn resolution_form_is_exact(
    message: wire::SparseConsumerResolutionV1,
    a: SparseConsumerResolutionV1,
    b: SparseConsumerResolutionV1,
)
    requires
        resolution_carries(message, a),
        resolution_carries(message, b),
    ensures
        a == b,
{
    event_id_form_is_exact(message.event_id->Some_0, a.event_id, b.event_id);
}

/// The message form of an event that was resolved out of order.
pub fn resolution_to_proto(
    value: SparseConsumerResolutionV1,
) -> (result: wire::SparseConsumerResolutionV1)
    ensures
        resolution_carries(result, value),
{
    wire::SparseConsumerResolutionV1 {
        event_id: Some(event_id_to_proto(value.event_id)),
        kind: resolution_kind_to_code(value.kind),
    }
}

/// Reads an event that was resolved out of order.
pub fn resolution_from_proto(value: &wire::SparseConsumerResolutionV1) -> (result: Result<
    SparseConsumerResolutionV1,
    DurableCodecError,
>)
    ensures
        match result {
            Ok(held) => resolution_carries(*value, held) && resolution_valid(held),
            Err(error) => is_corrupt(error) && forall|other: SparseConsumerResolutionV1| #[trigger]
                resolution_carries(*value, other) ==> !resolution_valid(other),
        },
{
    let event_id = event_id_from_proto(require_ref(&value.event_id)?)?;
    let kind = resolution_kind_from_code(value.kind)?;
    Ok(SparseConsumerResolutionV1 { event_id, kind })
}

/// Whether messages are the forms of values, one by one.
pub open spec fn resolution_list_carries(
    messages: Seq<wire::SparseConsumerResolutionV1>,
    values: Seq<SparseConsumerResolutionV1>,
) -> bool {
    &&& messages.len() == values.len()
    &&& forall|i: int|
        0 <= i < messages.len() ==> resolution_carries(#[trigger] messages[i], values[i])
}

/// All values are valid.
pub open spec fn resolution_list_valid(values: Seq<SparseConsumerResolutionV1>) -> bool {
    forall|i: int| 0 <= i < values.len() ==> resolution_valid(#[trigger] values[i])
}

/// Messages are the forms of at most one list of values.
pub proof fn resolution_list_form_is_exact(
    messages: Seq<wire::SparseConsumerResolutionV1>,
    a: Seq<SparseConsumerResolutionV1>,
    b: Seq<SparseConsumerResolutionV1>,
)
    requires
        resolution_list_carries(messages, a),
        resolution_list_carries(messages, b),
    ensures
        a == b,
{
    assert forall|i: int| 0 <= i < a.len() implies a[i] == b[i] by {
        assert(resolution_carries(messages[i], a[i]) && resolution_carries(messages[i], b[i]));
        resolution_form_is_exact(messages[i], a[i], b[i]);
    }
    assert(a =~= b);
}

/// The message forms of values.
pub fn resolution_list_to_proto(
    values: &[SparseConsumerResolutionV1],
) -> (result: Vec<wire::SparseConsumerResolutionV1>)
    ensures
        resolution_list_carries(result@, values@),
{
    let mut result: Vec<wire::SparseConsumerResolutionV1> = Vec::new();
    let mut i: usize = 0;
    while i < values.len()
        invariant
            i <= values@.len(),
            result@.len() == i,
            forall|k: int| 0 <= k < i ==> resolution_carries(#[trigger] result@[k], values@[k]),
        decreases values@.len() - i,
    {
        result.push(resolution_to_proto(values[i]));
        i += 1;
    }
    result
}

/// Reads values from their message forms.
pub fn resolution_list_from_proto(values: &[wire::SparseConsumerResolutionV1]) -> (result: Result<
    Vec<SparseConsumerResolutionV1>,
    DurableCodecError,
>)
    ensures
        match result {
            Ok(held) => resolution_list_carries(values@, held@) && resolution_list_valid(held@),
            Err(error) =>
                is_corrupt(error) && forall|other: Seq<SparseConsumerResolutionV1>| #[trigger]
                resolution_list_carries(values@, other) ==> !resolution_list_valid(other),
        },
{
    let mut result: Vec<SparseConsumerResolutionV1> = Vec::new();
    let mut i: usize = 0;
    while i < values.len()
        invariant
            i <= values@.len(),
            result@.len() == i,
            forall|k: int|
                0 <= k < i ==> resolution_carries(values@[k], #[trigger] result@[k])
                    && resolution_valid(result@[k]),
        decreases values@.len() - i,
    {
        match resolution_from_proto(&values[i]) {
            Ok(held) => {
                result.push(held);
            },
            Err(error) => {
                assert forall|other: Seq<SparseConsumerResolutionV1>| #[trigger]
                    resolution_list_carries(values@, other)
                        implies !resolution_list_valid(other) by {
                    assert(resolution_carries(values@[i as int], other[i as int]));
                    assert(!resolution_valid(other[i as int]));
                }
                return Err(error);
            },
        }
        i += 1;
    }
    Ok(result)
}

/// Whether a message is the form of a bounded durable consumer.
pub open spec fn consumer_carries(
    message: wire::StoredEventConsumerV1,
    value: EventConsumerView,
) -> bool {
    &&& (message.identity matches Some(part) && consumer_identity_carries(part, value.identity))
    &&& message.partition_hash@ == value.partition_hash.bytes@
    &&& message.history_incarnation == value.history_incarnation
    &&& message.revision == value.revision.value
    &&& optional_event_id_carries(message.checkpoint, value.checkpoint)
    &&& resolution_list_carries(message.sparse_resolutions@, value.sparse_resolutions)
    &&& message.admitted
}

/// The parts of a bounded durable consumer are valid.
pub open spec fn consumer_valid(value: EventConsumerView) -> bool {
    &&& value.revision.valid()
    &&& (value.checkpoint matches Some(part) ==> event_id_valid(part))
    &&& resolution_list_valid(value.sparse_resolutions)
}

/// A message is the form of at most one value.
pub proof fn consumer_form_is_exact(
    message: wire::StoredEventConsumerV1,
    a: EventConsumerView,
    b: EventConsumerView,
)
    requires
        consumer_carries(message, a),
        consumer_carries(message, b),
    ensures
        a == b,
{
    consumer_identity_form_is_exact(message.identity->Some_0, a.identity, b.identity);
    assert(a.partition_hash.bytes =~= b.partition_hash.bytes);
    if a.checkpoint is Some {
        event_id_form_is_exact(
            message.checkpoint->Some_0,
            a.checkpoint->Some_0,
            b.checkpoint->Some_0,
        );
    }
    resolution_list_form_is_exact(
        message.sparse_resolutions@,
        a.sparse_resolutions,
        b.sparse_resolutions,
    );
}

/// The message form of a bounded durable consumer.
pub fn consumer_to_proto(value: &StoredEventConsumerV1) -> (result: wire::StoredEventConsumerV1)
    ensures
        consumer_carries(result, value@),
{
    wire::StoredEventConsumerV1 {
        identity: Some(consumer_identity_to_proto(&value.identity)),
        partition_hash: copy_bytes(value.partition_hash.bytes.as_slice()),
        history_incarnation: value.history_incarnation,
        revision: value.revision.get(),
        checkpoint: optional_event_id_to_proto(&value.checkpoint),
        sparse_resolutions: resolution_list_to_proto(&value.sparse_resolutions),
        admitted: true,
    }
}

/// What reading a message gives: the value that it is the form of, or a
/// corruption where it is the form of no valid one.
pub open spec fn consumer_read(
    message: wire::StoredEventConsumerV1,
    result: Result<StoredEventConsumerV1, DurableCodecError>,
) -> bool {
    match result {
        Ok(held) => consumer_carries(message, held@) && consumer_valid(held@),
        Err(error) => is_corrupt(error) && forall|other: EventConsumerView| #[trigger]
            consumer_carries(message, other) ==> !consumer_valid(other),
    }
}

/// Reads a bounded durable consumer.
pub fn consumer_from_proto(value: &wire::StoredEventConsumerV1) -> (result: Result<
    StoredEventConsumerV1,
    DurableCodecError,
>)
    ensures
        consumer_read(*value, result),
{
    let identity = consumer_identity_from_proto(require_ref(&value.identity)?)?;
    let partition_hash = digest_from_wire(&value.partition_hash)?;
    let history_incarnation = value.history_incarnation;
    let revision = require(Id64::new(value.revision))?;
    let checkpoint = optional_event_id_from_proto(&value.checkpoint)?;
    let sparse_resolutions = resolution_list_from_proto(&value.sparse_resolutions)?;
    if !value.admitted {
        return Err(DurableCodecError::corrupt());
    }
    Ok(
        StoredEventConsumerV1 {
            identity,
            partition_hash,
            history_incarnation,
            revision,
            checkpoint,
            sparse_resolutions,
        },
    )
}

/// Reading the message form of a bounded durable consumer gives back what was written.
pub proof fn consumer_round_trip(
    value: EventConsumerView,
    message: wire::StoredEventConsumerV1,
    read: Result<StoredEventConsumerV1, DurableCodecError>,
)
    requires
        consumer_valid(value),
        consumer_carries(message, value),
        consumer_read(message, read),
    ensures
        read is Ok,
        read->Ok_0@ == value,
{
    if let Ok(held) = read {
        consumer_form_is_exact(message, held@, value);
    }
}

/// The stable code of why a delivery was given up.
pub open spec fn dead_reason_code(value: ConsumerDeadLetterReasonV1) -> i32 {
    match value {
        ConsumerDeadLetterReasonV1::LeaseExpired => 1,
        ConsumerDeadLetterReasonV1::NegativeAcknowledgement => 2,
    }
}

/// Returns the stable code of why a delivery was given up.
pub fn dead_reason_to_code(value: ConsumerDeadLetterReasonV1) -> (result: i32)
    ensures
        result == dead_reason_code(value),
{
    match value {
        ConsumerDeadLetterReasonV1::LeaseExpired => 1,
        ConsumerDeadLetterReasonV1::NegativeAcknowledgement => 2,
    }
}

/// Reads why a delivery was given up from its stable code.
pub fn dead_reason_from_code(
    value: i32,
) -> (result: Result<ConsumerDeadLetterReasonV1, DurableCodecError>)
    ensures
        match result {
            Ok(held) => value == dead_reason_code(held),
            Err(error) => is_corrupt(error) && forall|other: ConsumerDeadLetterReasonV1|
                value != #[trigger] dead_reason_code(other),
        },
{
    match value {
        1 => Ok(ConsumerDeadLetterReasonV1::LeaseExpired),
        2 => Ok(ConsumerDeadLetterReasonV1::NegativeAcknowledgement),
        _ => Err(DurableCodecError::corrupt()),
    }
}

/// Whether a message is the form of a leased delivery.
pub open spec fn leased_carries(
    message: wire::LeasedConsumerDeliveryV1,
    value: LeasedDelivery,
) -> bool {
    &&& count_carries(message.attempt, value.attempt)
    &&& message.token@ == value.token.bytes@
    &&& (message.expires_at matches Some(part) && timestamp_carries(part, value.expires_at))
}

/// The parts of a leased delivery are valid.
pub open spec fn leased_valid(value: LeasedDelivery) -> bool {
    &&& timestamp_valid(value.expires_at)
}

/// A message is the form of at most one value.
pub proof fn leased_form_is_exact(
    message: wire::LeasedConsumerDeliveryV1,
    a: LeasedDelivery,
    b: LeasedDelivery,
)
    requires
        leased_carries(message, a),
        leased_carries(message, b),
    ensures
        a == b,
{
    assert(a.token.bytes =~= b.token.bytes);
    timestamp_form_is_exact(message.expires_at->Some_0, a.expires_at, b.expires_at);
}

/// The message form of a leased delivery.
pub fn leased_to_proto(value: LeasedDelivery) -> (result: wire::LeasedConsumerDeliveryV1)
    ensures
        leased_carries(result, value),
{
    wire::LeasedConsumerDeliveryV1 {
        attempt: count_to_wire(value.attempt),
        token: copy_bytes(value.token.bytes.as_slice()),
        expires_at: Some(timestamp_to_proto(value.expires_at)),
    }
}

/// Reads a leased delivery.
pub fn leased_from_proto(value: &wire::LeasedConsumerDeliveryV1) -> (result: Result<
    LeasedDelivery,
    DurableCodecError,
>)
    ensures
        match result {
            Ok(held) => leased_carries(*value, held) && leased_valid(held),
            Err(error) => is_corrupt(error) && forall|other: LeasedDelivery| #[trigger]
                leased_carries(*value, other) ==> !leased_valid(other),
        },
{
    let attempt = count_from_wire(&value.attempt)?;
    let token = digest_from_wire(&value.token)?;
    let expires_at = timestamp_from_proto(require_ref(&value.expires_at)?)?;
    Ok(LeasedDelivery { attempt, token, expires_at })
}

/// Whether a message is the form of a delivery to be retried.
pub open spec fn retry_carries(
    message: wire::RetryConsumerDeliveryV1,
    value: RetryDelivery,
) -> bool {
    &&& count_carries(message.failed_attempts, value.failed_attempts)
    &&& (message.eligible_at matches Some(part) && timestamp_carries(part, value.eligible_at))
}

/// The parts of a delivery to be retried are valid.
pub open spec fn retry_valid(value: RetryDelivery) -> bool {
    &&& timestamp_valid(value.eligible_at)
}

/// A message is the form of at most one value.
pub proof fn retry_form_is_exact(
    message: wire::RetryConsumerDeliveryV1,
    a: RetryDelivery,
    b: RetryDelivery,
)
    requires
        retry_carries(message, a),
        retry_carries(message, b),
    ensures
        a == b,
{
    timestamp_form_is_exact(message.eligible_at->Some_0, a.eligible_at, b.eligible_at);
}

/// The message form of a delivery to be retried.
pub fn retry_to_proto(value: RetryDelivery) -> (result: wire::RetryConsumerDeliveryV1)
    ensures
        retry_carries(result, value),
{
    wire::RetryConsumerDeliveryV1 {
        failed_attempts: count_to_wire(value.failed_attempts),
        eligible_at: Some(timestamp_to_proto(value.eligible_at)),
    }
}

/// Reads a delivery to be retried.
pub fn retry_from_proto(value: &wire::RetryConsumerDeliveryV1) -> (result: Result<
    RetryDelivery,
    DurableCodecError,
>)
    ensures
        match result {
            Ok(held) => retry_carries(*value, held) && retry_valid(held),
            Err(error) => is_corrupt(error) && forall|other: RetryDelivery| #[trigger]
                retry_carries(*value, other) ==> !retry_valid(other),
        },
{
    let failed_attempts = count_from_wire(&value.failed_attempts)?;
    let eligible_at = timestamp_from_proto(require_ref(&value.eligible_at)?)?;
    Ok(RetryDelivery { failed_attempts, eligible_at })
}

/// Whether a message is the form of a delivery that was given up.
pub open spec fn dead_carries(
    message: wire::DeadLetteredConsumerDeliveryV1,
    value: DeadLetteredDelivery,
) -> bool {
    &&& count_carries(message.failed_attempts, value.failed_attempts)
    &&& (message.dead_lettered_at matches Some(part) && timestamp_carries(
        part,
        value.dead_lettered_at,
    ))
    &&& message.reason == dead_reason_code(value.reason)
}

/// The parts of a delivery that was given up are valid.
pub open spec fn dead_valid(value: DeadLetteredDelivery) -> bool {
    &&& timestamp_valid(value.dead_lettered_at)
}

/// A message is the form of at most one value.
pub proof fn dead_form_is_exact(
    message: wire::DeadLetteredConsumerDeliveryV1,
    a: DeadLetteredDelivery,
    b: DeadLetteredDelivery,
)
    requires
        dead_carries(message, a),
        dead_carries(message, b),
    ensures
        a == b,
{
    timestamp_form_is_exact(
        message.dead_lettered_at->Some_0,
        a.dead_lettered_at,
        b.dead_lettered_at,
    );
}

/// The message form of a delivery that was given up.
pub fn dead_to_proto(
    value: DeadLetteredDelivery,
) -> (result: wire::DeadLetteredConsumerDeliveryV1)
    ensures
        dead_carries(result, value),
{
    wire::DeadLetteredConsumerDeliveryV1 {
        failed_attempts: count_to_wire(value.failed_attempts),
        dead_lettered_at: Some(timestamp_to_proto(value.dead_lettered_at)),
        reason: dead_reason_to_code(value.reason),
    }
}

/// Reads a delivery that was given up.
pub fn dead_from_proto(value: &wire::DeadLetteredConsumerDeliveryV1) -> (result: Result<
    DeadLetteredDelivery,
    DurableCodecError,
>)
    ensures
        match result {
            Ok(held) => dead_carries(*value, held) && dead_valid(held),
            Err(error) => is_corrupt(error) && forall|other: DeadLetteredDelivery| #[trigger]
                dead_carries(*value, other) ==> !dead_valid(other),
        },
{
    let failed_attempts = count_from_wire(&value.failed_attempts)?;
    let dead_lettered_at = timestamp_from_proto(require_ref(&value.dead_lettered_at)?)?;
    let reason = dead_reason_from_code(value.reason)?;
    Ok(DeadLetteredDelivery { failed_attempts, dead_lettered_at, reason })
}

/// Whether a message is the form of a consumer delivery state.
pub open spec fn delivery_state_carries(
    message: wire::ConsumerDeliveryStateV1,
    value: ConsumerDeliveryStateV1,
) -> bool {
    match value {
        ConsumerDeliveryStateV1::Leased(part) => message.state matches Some(
            wire::ConsumerDeliveryStateV1State::Leased(form),
        ) && leased_carries(form, part),
        ConsumerDeliveryStateV1::Retry(part) => message.state matches Some(
            wire::ConsumerDeliveryStateV1State::Retry(form),
        ) && retry_carries(form, part),
        ConsumerDeliveryStateV1::DeadLettered(part) => message.state matches Some(
            wire::ConsumerDeliveryStateV1State::DeadLettered(form),
        ) && dead_carries(form, part),
    }
}

/// The parts of a consumer delivery state are valid.
pub open spec fn delivery_state_valid(value: ConsumerDeliveryStateV1) -> bool {
    match value {
        ConsumerDeliveryStateV1::Leased(part) => leased_valid(part),
        ConsumerDeliveryStateV1::Retry(part) => retry_valid(part),
        ConsumerDeliveryStateV1::DeadLettered(part) => dead_valid(part),
    }
}

/// A message is the form of at most one value.
pub proof fn delivery_state_form_is_exact(
    message: wire::ConsumerDeliveryStateV1,
    a: ConsumerDeliveryStateV1,
    b: ConsumerDeliveryStateV1,
)
    requires
        delivery_state_carries(message, a),
        delivery_state_carries(message, b),
    ensures
        a == b,
{
    match (a, b) {
        (ConsumerDeliveryStateV1::Leased(part), ConsumerDeliveryStateV1::Leased(other)) => {
            if let Some(wire::ConsumerDeliveryStateV1State::Leased(form)) = message.state {
                leased_form_is_exact(form, part, other);
            }
        },
        (ConsumerDeliveryStateV1::Retry(part), ConsumerDeliveryStateV1::Retry(other)) => {
            if let Some(wire::ConsumerDeliveryStateV1State::Retry(form)) = message.state {
                retry_form_is_exact(form, part, other);
            }
        },
        (ConsumerDeliveryStateV1::DeadLettered(part),
            ConsumerDeliveryStateV1::DeadLettered(other)) => {
            if let Some(wire::ConsumerDeliveryStateV1State::DeadLettered(form)) = message.state {
                dead_form_is_exact(form, part, other);
            }
        },
        _ => {},
    }
}

/// The message form of a consumer delivery state.
pub fn delivery_state_to_proto(
    value: ConsumerDeliveryStateV1,
) -> (result: wire::ConsumerDeliveryStateV1)
    ensures
        delivery_state_carries(result, value),
{
    let form = match value {
        ConsumerDeliveryStateV1::Leased(part) => wire::ConsumerDeliveryStateV1State::Leased(
            leased_to_proto(part),
        ),
        ConsumerDeliveryStateV1::Retry(part) => wire::ConsumerDeliveryStateV1State::Retry(
            retry_to_proto(part),
        ),
        ConsumerDeliveryStateV1::DeadLettered(part) =>
            wire::ConsumerDeliveryStateV1State::DeadLettered(
            dead_to_proto(part),
        ),
    };
    wire::ConsumerDeliveryStateV1 { state: Some(form) }
}

/// Reads a consumer delivery state.
pub fn delivery_state_from_proto(value: &wire::ConsumerDeliveryStateV1) -> (result: Result<
    ConsumerDeliveryStateV1,
    DurableCodecError,
>)
    ensures
        match result {
            Ok(held) => delivery_state_carries(*value, held) && delivery_state_valid(held),
            Err(error) => is_corrupt(error) && forall|other: ConsumerDeliveryStateV1| #[trigger]
                delivery_state_carries(*value, other) ==> !delivery_state_valid(other),
        },
{
    match require_ref(&value.state)? {
        wire::ConsumerDeliveryStateV1State::Leased(form) => {
            let part = leased_from_proto(form)?;
            Ok(ConsumerDeliveryStateV1::Leased(part))
        },
        wire::ConsumerDeliveryStateV1State::Retry(form) => {
            let part = retry_from_proto(form)?;
            Ok(ConsumerDeliveryStateV1::Retry(part))
        },
        wire::ConsumerDeliveryStateV1State::DeadLettered(form) => {
            let part = dead_from_proto(form)?;
            Ok(ConsumerDeliveryStateV1::DeadLettered(part))
        },
    }
}

/// Whether a message is the form of a payload-free durable delivery row.
pub open spec fn delivery_carries(
    message: wire::StoredEventConsumerDeliveryV1,
    value: StoredEventConsumerDeliveryV1,
) -> bool {
    &&& message.consumer_identity_hash@ == value.consumer_identity_hash.bytes@
    &&& (message.event_id matches Some(part) && event_id_carries(part, value.event_id))
    &&& message.history_incarnation == value.history_incarnation
    &&& delivery_state_carries(message.state, value.state)
    &&& message.admitted
}

/// The parts of a payload-free durable delivery row are valid.
pub open spec fn delivery_valid(value: StoredEventConsumerDeliveryV1) -> bool {
    &&& event_id_valid(value.event_id)
    &&& delivery_state_valid(value.state)
}

/// A message is the form of at most one value.
pub proof fn delivery_form_is_exact(
    message: wire::StoredEventConsumerDeliveryV1,
    a: StoredEventConsumerDeliveryV1,
    b: StoredEventConsumerDeliveryV1,
)
    requires
        delivery_carries(message, a),
        delivery_carries(message, b),
    ensures
        a == b,
{
    assert(a.consumer_identity_hash.bytes =~= b.consumer_identity_hash.bytes);
    event_id_form_is_exact(message.event_id->Some_0, a.event_id, b.event_id);
    delivery_state_form_is_exact(message.state, a.state, b.state);
}

/// The message form of a payload-free durable delivery row.
pub fn delivery_to_proto(
    value: StoredEventConsumerDeliveryV1,
) -> (result: wire::StoredEventConsumerDeliveryV1)
    ensures
        delivery_carries(result, value),
{
    wire::StoredEventConsumerDeliveryV1 {
        consumer_identity_hash: copy_bytes(value.consumer_identity_hash.bytes.as_slice()),
        event_id: Some(event_id_to_proto(value.event_id)),
        history_incarnation: value.history_incarnation,
        state: delivery_state_to_proto(value.state),
        admitted: true,
    }
}

/// What reading a message gives: the value that it is the form of, or a
/// corruption where it is the form of no valid one.
pub open spec fn delivery_read(
    message: wire::StoredEventConsumerDeliveryV1,
    result: Result<StoredEventConsumerDeliveryV1, DurableCodecError>,
) -> bool {
    match result {
        Ok(held) => delivery_carries(message, held) && delivery_valid(held),
        Err(error) => is_corrupt(error) && forall|other: StoredEventConsumerDeliveryV1| #[trigger]
            delivery_carries(message, other) ==> !delivery_valid(other),
    }
}

/// Reads a payload-free durable delivery row.
pub fn delivery_from_proto(value: &wire::StoredEventConsumerDeliveryV1) -> (result: Result<
    StoredEventConsumerDeliveryV1,
    DurableCodecError,
>)
    ensures
        delivery_read(*value, result),
{
    let consumer_identity_hash = digest_from_wire(&value.consumer_identity_hash)?;
    let event_id = event_id_from_proto(require_ref(&value.event_id)?)?;
    let history_incarnation = value.history_incarnation;
    let state = delivery_state_from_proto(&value.state)?;
    if !value.admitted {
        return Err(DurableCodecError::corrupt());
    }
    Ok(
        StoredEventConsumerDeliveryV1 {
            consumer_identity_hash,
            event_id,
            history_incarnation,
            state,
        },
    )
}

/// Reading the message form of a payload-free durable delivery row gives back what was written.
pub proof fn delivery_round_trip(
    value: StoredEventConsumerDeliveryV1,
    message: wire::StoredEventConsumerDeliveryV1,
    read: Result<StoredEventConsumerDeliveryV1, DurableCodecError>,
)
    requires
        delivery_valid(value),
        delivery_carries(message, value),
        delivery_read(message, read),
    ensures
        read is Ok,
        read->Ok_0 == value,
{
    if let Ok(held) = read {
        delivery_form_is_exact(message, held, value);
    }
}

/// Encodes one bounded durable consumer record.
pub fn encode_event_consumer_v1(value: &StoredEventConsumerV1) -> (result: OutgoingRecord<
    wire::StoredEventConsumerV1,
>)
    ensures
        result.record_type == RecordType::StoredEventConsumerV1,
        consumer_carries(result.message, value@),
{
    OutgoingRecord {
        record_type: RecordType::StoredEventConsumerV1,
        message: consumer_to_proto(value),
    }
}

/// Whether a message is the form of some valid value.
pub open spec fn consumer_readable(message: wire::StoredEventConsumerV1) -> bool {
    exists|value: EventConsumerView| #[trigger] consumer_carries(message, value)
        && consumer_valid(value)
}

/// Decodes and validates one bounded durable consumer record.
pub fn decode_event_consumer_v1(
    attempt: ReadAttempt<wire::StoredEventConsumerV1>,
) -> (result: Result<EncodedPageItem<StoredEventConsumerV1>, DurableCodecError>)
    ensures
        match read_outcome(RecordType::StoredEventConsumerV1, attempt) {
            Err(kind) => result == Err::<EncodedPageItem<StoredEventConsumerV1>, _>(
                DurableCodecError { kind },
            ),
            Ok(message) => match refusal_of(
                consumer_readable(message),
                None,
                attempt.encoded_len,
            ) {
                Some(kind) => result == Err::<EncodedPageItem<StoredEventConsumerV1>, _>(
                    DurableCodecError { kind },
                ),
                None => result is Ok && consumer_carries(message, result->Ok_0.value@)
                    && consumer_valid(result->Ok_0.value@)
                    && result->Ok_0.charge.bytes == attempt.encoded_len,
            },
        },
{
    let encoded_len = attempt.encoded_len;
    let message = read_message(RecordType::StoredEventConsumerV1, attempt)?;
    let value = consumer_from_proto(&message)?;
    admitted_item(value, None, encoded_len)
}

/// Encodes one payload-free durable delivery row.
pub fn encode_event_consumer_delivery_v1(
    value: StoredEventConsumerDeliveryV1,
) -> (result: OutgoingRecord<
    wire::StoredEventConsumerDeliveryV1,
>)
    ensures
        result.record_type == RecordType::StoredEventConsumerDeliveryV1,
        delivery_carries(result.message, value),
{
    OutgoingRecord {
        record_type: RecordType::StoredEventConsumerDeliveryV1,
        message: delivery_to_proto(value),
    }
}

/// Whether a message is the form of some valid value.
pub open spec fn delivery_readable(message: wire::StoredEventConsumerDeliveryV1) -> bool {
    exists|value: StoredEventConsumerDeliveryV1| #[trigger] delivery_carries(message, value)
        && delivery_valid(value)
}

/// Decodes and validates one payload-free durable delivery row.
pub fn decode_event_consumer_delivery_v1(
    attempt: ReadAttempt<wire::StoredEventConsumerDeliveryV1>,
) -> (result: Result<EncodedPageItem<StoredEventConsumerDeliveryV1>, DurableCodecError>)
    ensures
        match read_outcome(RecordType::StoredEventConsumerDeliveryV1, attempt) {
            Err(kind) => result == Err::<EncodedPageItem<StoredEventConsumerDeliveryV1>, _>(
                DurableCodecError { kind },
            ),
            Ok(message) => match refusal_of(
                delivery_readable(message),
                None,
                attempt.encoded_len,
            ) {
                Some(kind) => result == Err::<EncodedPageItem<StoredEventConsumerDeliveryV1>, _>(
                    DurableCodecError { kind },
                ),
                None => result is Ok && delivery_carries(message, result->Ok_0.value)
                    && delivery_valid(result->Ok_0.value)
                    && result->Ok_0.charge.bytes == attempt.encoded_len,
            },
        },
{
    let encoded_len = attempt.encoded_len;
    let message = read_message(RecordType::StoredEventConsumerDeliveryV1, attempt)?;
    let value = delivery_from_proto(&message)?;
    admitted_item(value, None, encoded_len)
}

} // verus!
