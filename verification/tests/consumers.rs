//! Consumers, their deliveries and the sequence allocators as durable records.

use riffdb_storage_api::codec::consumer::{
    decode_event_consumer_delivery_v1, decode_event_consumer_v1,
    encode_event_consumer_delivery_v1, encode_event_consumer_v1,
};
use riffdb_storage_api::codec::envelope::ReadAttempt;
use riffdb_storage_api::codec::error::{DurableCodecErrorKind, EnvelopeError};
use riffdb_storage_api::codec::metadata::{
    decode_administration_sequence_allocator_v1, decode_application_sequence_allocator_v1,
    encode_administration_sequence_allocator_v1, encode_application_sequence_allocator_v1,
};
use riffdb_storage_api::codec::parts::Identifier;
use riffdb_storage_api::codec::record_type::RecordType;
use riffdb_storage_api::ids::{CommitSequence, Digest, EventId, Id64, Timestamp};
use riffdb_storage_api::stored::consumer::{
    ConsumerDeadLetterReasonV1, ConsumerDeliveryStateV1, DeadLetteredDelivery,
    EventConsumerIdentityV1, LeasedDelivery, RetryDelivery, SparseConsumerResolutionV1,
    SparseResolutionKindV1, StoredEventConsumerDeliveryV1, StoredEventConsumerV1,
};
use riffdb_storage_api::stored::metadata::{
    AdministrationSequenceAllocator, ApplicationSequenceAllocator,
};

fn read<M>(message: M) -> ReadAttempt<M> {
    ReadAttempt {
        typed: Some(message),
        registry: Err(EnvelopeError::Malformed),
        encoded_len: 90,
    }
}

fn event(commit: u64, event_ordinal: u32) -> EventId {
    EventId {
        commit_sequence: CommitSequence::new(commit).expect("nonzero"),
        event_ordinal,
    }
}

fn digest(fill: u8) -> Digest {
    Digest::from_bytes([fill; 32])
}

fn delivery(state: ConsumerDeliveryStateV1) -> StoredEventConsumerDeliveryV1 {
    StoredEventConsumerDeliveryV1 {
        consumer_identity_hash: digest(1),
        event_id: event(7, 2),
        history_incarnation: 1,
        state,
    }
}

#[test]
fn deliveries_come_back_in_every_state() {
    let time = Timestamp::new(50, 999_999_999).expect("time");
    for state in [
        ConsumerDeliveryStateV1::Leased(LeasedDelivery {
            attempt: 1,
            token: digest(9),
            expires_at: time,
        }),
        ConsumerDeliveryStateV1::Retry(RetryDelivery {
            failed_attempts: 2,
            eligible_at: time,
        }),
        ConsumerDeliveryStateV1::DeadLettered(DeadLetteredDelivery {
            failed_attempts: 3,
            dead_lettered_at: time,
            reason: ConsumerDeadLetterReasonV1::NegativeAcknowledgement,
        }),
    ] {
        let outgoing = encode_event_consumer_delivery_v1(delivery(state));
        assert_eq!(
            outgoing.record_type,
            RecordType::StoredEventConsumerDeliveryV1
        );
        let item =
            decode_event_consumer_delivery_v1(read(outgoing.message)).expect("round trip");
        assert_eq!(item.value, delivery(state));
        assert_eq!(item.charge.bytes, 90);
    }
}

#[test]
fn damaged_deliveries_are_corrupt() {
    let whole = || {
        encode_event_consumer_delivery_v1(delivery(ConsumerDeliveryStateV1::Retry(
            RetryDelivery {
                failed_attempts: 2,
                eligible_at: Timestamp::new(50, 0).expect("time"),
            },
        )))
        .message
    };
    let corrupt = Err(DurableCodecErrorKind::CorruptData);
    let mut short = whole();
    short.consumer_identity_hash.pop();
    assert_eq!(
        decode_event_consumer_delivery_v1(read(short)).map_err(|error| error.kind()),
        corrupt
    );
    let mut absent = whole();
    absent.event_id = None;
    assert_eq!(
        decode_event_consumer_delivery_v1(read(absent)).map_err(|error| error.kind()),
        corrupt
    );
    let mut refused = whole();
    refused.admitted = false;
    assert_eq!(
        decode_event_consumer_delivery_v1(read(refused)).map_err(|error| error.kind()),
        corrupt
    );
}

#[test]
fn consumers_come_back_with_their_sparse_resolutions() {
    let consumer = || StoredEventConsumerV1 {
        identity: EventConsumerIdentityV1 {
            database_id: Identifier { bytes: [2; 16] },
            reactive_module_hash: digest(3),
            operation_name: "TicketActivity".to_owned(),
            parameter_hash: digest(4),
            consumer_name: "mailer".to_owned(),
        },
        partition_hash: digest(5),
        history_incarnation: 1,
        revision: Id64::new(6).expect("nonzero"),
        checkpoint: Some(event(7, 0)),
        sparse_resolutions: vec![
            SparseConsumerResolutionV1 {
                event_id: event(8, 1),
                kind: SparseResolutionKindV1::Acknowledged,
            },
            SparseConsumerResolutionV1 {
                event_id: event(9, 0),
                kind: SparseResolutionKindV1::DeadLettered,
            },
        ],
    };
    let outgoing = encode_event_consumer_v1(&consumer());
    let item = decode_event_consumer_v1(read(outgoing.message)).expect("round trip");
    assert_eq!(item.value, consumer());
}

#[test]
fn allocators_come_back_whether_or_not_exhausted() {
    for value in [
        ApplicationSequenceAllocator::Next(CommitSequence::new(4).expect("nonzero")),
        ApplicationSequenceAllocator::Exhausted,
    ] {
        let outgoing = encode_application_sequence_allocator_v1(value);
        assert_eq!(
            decode_application_sequence_allocator_v1(read(outgoing.message))
                .expect("round trip")
                .value,
            value
        );
    }
    for value in [
        AdministrationSequenceAllocator::Next(Id64::new(5).expect("nonzero")),
        AdministrationSequenceAllocator::Exhausted,
    ] {
        let outgoing = encode_administration_sequence_allocator_v1(value);
        assert_eq!(
            decode_administration_sequence_allocator_v1(read(outgoing.message))
                .expect("round trip")
                .value,
            value
        );
    }
}
