//! Event consumer records.

use vstd::prelude::*;

use crate::codec::parts::Identifier;
use crate::ids::{Digest, EventId, Id64, Timestamp};

verus! {

/// What an event consumer's identity is.
#[verifier::ext_equal]
pub ghost struct EventConsumerIdentityView {
    pub database_id: Identifier,
    pub reactive_module_hash: Digest,
    pub operation_name: Seq<char>,
    pub parameter_hash: Digest,
    pub consumer_name: Seq<char>,
}

/// An event consumer's identity.
#[derive(Debug, PartialEq, Eq)]
pub struct EventConsumerIdentityV1 {
    pub database_id: Identifier,
    pub reactive_module_hash: Digest,
    pub operation_name: String,
    pub parameter_hash: Digest,
    pub consumer_name: String,
}

impl View for EventConsumerIdentityV1 {
    type V = EventConsumerIdentityView;

    open spec fn view(&self) -> EventConsumerIdentityView {
        EventConsumerIdentityView {
            database_id: self.database_id,
            reactive_module_hash: self.reactive_module_hash,
            operation_name: self.operation_name@,
            parameter_hash: self.parameter_hash,
            consumer_name: self.consumer_name@,
        }
    }
}

impl Clone for EventConsumerIdentityV1 {
    fn clone(&self) -> (result: EventConsumerIdentityV1)
        ensures
            result@ == self@,
    {
        EventConsumerIdentityV1 {
            database_id: self.database_id,
            reactive_module_hash: self.reactive_module_hash,
            operation_name: self.operation_name.clone(),
            parameter_hash: self.parameter_hash,
            consumer_name: self.consumer_name.clone(),
        }
    }
}

/// How an event was resolved out of order.
#[derive(Clone, Copy, Debug, PartialEq, Eq, Structural)]
pub enum SparseResolutionKindV1 {
    Acknowledged,
    DeadLettered,
}

/// An event that was resolved out of order.
#[derive(Clone, Copy, Debug, PartialEq, Eq)]
pub struct SparseConsumerResolutionV1 {
    pub event_id: EventId,
    pub kind: SparseResolutionKindV1,
}

/// What a bounded durable consumer; without a checkpoint it stands before the first event is.
#[verifier::ext_equal]
pub ghost struct EventConsumerView {
    pub identity: EventConsumerIdentityView,
    pub partition_hash: Digest,
    pub history_incarnation: u64,
    pub revision: Id64,
    pub checkpoint: Option<EventId>,
    pub sparse_resolutions: Seq<SparseConsumerResolutionV1>,
}

/// A bounded durable consumer; without a checkpoint it stands before the first event.
#[derive(Debug, PartialEq, Eq)]
pub struct StoredEventConsumerV1 {
    pub identity: EventConsumerIdentityV1,
    pub partition_hash: Digest,
    pub history_incarnation: u64,
    pub revision: Id64,
    pub checkpoint: Option<EventId>,
    pub sparse_resolutions: Vec<SparseConsumerResolutionV1>,
}

impl View for StoredEventConsumerV1 {
    type V = EventConsumerView;

    open spec fn view(&self) -> EventConsumerView {
        EventConsumerView {
            identity: self.identity@,
            partition_hash: self.partition_hash,
            history_incarnation: self.history_incarnation,
            revision: self.revision,
            checkpoint: self.checkpoint,
            sparse_resolutions: self.sparse_resolutions@,
        }
    }
}

impl Clone for StoredEventConsumerV1 {
    fn clone(&self) -> (result: StoredEventConsumerV1)
        ensures
            result@ == self@,
    {
        StoredEventConsumerV1 {
            identity: self.identity.clone(),
            partition_hash: self.partition_hash,
            history_incarnation: self.history_incarnation,
            revision: self.revision,
            checkpoint: self.checkpoint,
            sparse_resolutions: copy_resolution_list(&self.sparse_resolutions),
        }
    }
}

/// Why a delivery was given up.
#[derive(Clone, Copy, Debug, PartialEq, Eq, Structural)]
pub enum ConsumerDeadLetterReasonV1 {
    LeaseExpired,
    NegativeAcknowledgement,
}

/// A leased delivery.
#[derive(Clone, Copy, Debug, PartialEq, Eq)]
pub struct LeasedDelivery {
    pub attempt: u8,
    pub token: Digest,
    pub expires_at: Timestamp,
}

/// A delivery to be retried.
#[derive(Clone, Copy, Debug, PartialEq, Eq)]
pub struct RetryDelivery {
    pub failed_attempts: u8,
    pub eligible_at: Timestamp,
}

/// A delivery that was given up.
#[derive(Clone, Copy, Debug, PartialEq, Eq)]
pub struct DeadLetteredDelivery {
    pub failed_attempts: u8,
    pub dead_lettered_at: Timestamp,
    pub reason: ConsumerDeadLetterReasonV1,
}

/// A consumer delivery state.
#[derive(Clone, Copy, Debug, PartialEq, Eq)]
pub enum ConsumerDeliveryStateV1 {
    Leased(LeasedDelivery),
    Retry(RetryDelivery),
    DeadLettered(DeadLetteredDelivery),
}

/// A payload-free durable delivery row.
#[derive(Clone, Copy, Debug, PartialEq, Eq)]
pub struct StoredEventConsumerDeliveryV1 {
    pub consumer_identity_hash: Digest,
    pub event_id: EventId,
    pub history_incarnation: u64,
    pub state: ConsumerDeliveryStateV1,
}

/// Copies a list of such values.
pub fn copy_resolution_list(
    values: &[SparseConsumerResolutionV1],
) -> (result: Vec<SparseConsumerResolutionV1>)
    ensures
        result@ == values@,
{
    let mut result: Vec<SparseConsumerResolutionV1> = Vec::new();
    let mut i: usize = 0;
    while i < values.len()
        invariant
            i <= values@.len(),
            result@.len() == i,
            forall|k: int| 0 <= k < i ==> result@[k] == values@[k],
        decreases values@.len() - i,
    {
        result.push(values[i]);
        i += 1;
    }
    assert(result@ =~= values@);
    result
}

} // verus!
