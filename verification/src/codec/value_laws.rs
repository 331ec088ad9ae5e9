//! Codes, orders and bounds of the values that messages hold.

use vstd::prelude::*;
use vstd::utf8::encode_utf8;

use crate::bytes::{be32, bytes_before};
use crate::codec::changelog::{
    hold_kind_code, hold_phase_code, promotion_step_code, replication_action_code,
};
use crate::codec::command_segment::{derived_kind_code, derived_member_code, epoch_follows};
use crate::codec::common::{
    actor_kind_carries, epoch_carries, event_id_carries, event_id_valid, expected_carries,
    prefix_owner, timestamp_carries, timestamp_valid,
};
use crate::codec::consumer::{dead_reason_code, resolution_kind_code};
use crate::codec::entity_transition::chain_state_carries;
use crate::codec::parts::{counter_or_zero, sequence_or_zero, tags_ascend, texts_ascend};
use crate::codec::projection::projection_frontier_carries;
use crate::ids::{CommitSequence, EventId, FrontierPosition, Id64, Timestamp};
use crate::stored::changelog::{
    FollowerRegistrationPhaseV1, ReplicationAdministrationActionV1, ReplicationPromotionStepV1,
    ReplicationSourceHoldKindV1,
};
use crate::stored::command_segment::{CommandDerivedIndexKindV1, CommandDerivedMemberV1};
use crate::stored::common::{ActorKind, ExpectedEntityState, IndexEpochPosition};
use crate::stored::consumer::{ConsumerDeadLetterReasonV1, SparseResolutionKindV1};
use crate::stored::entity_transition::EntityChainStateV1;
use crate::wire;

verus! {

/// The codes of holds, of the phases of a registration and of administrative actions
/// count from one.
pub proof fn replication_codes_count_from_one(
    kind: ReplicationSourceHoldKindV1,
    phase: FollowerRegistrationPhaseV1,
    action: ReplicationAdministrationActionV1,
)
    ensures
        hold_kind_code(kind) == 1 <==> kind is FollowerAcknowledgement,
        hold_kind_code(kind) == 2 <==> kind is ArchiveAcknowledgement,
        hold_kind_code(kind) == 3 <==> kind is Bootstrap,
        hold_phase_code(phase) == 1 <==> phase is AwaitingBootstrap,
        hold_phase_code(phase) == 2 <==> phase is Attached,
        hold_phase_code(phase) == 3 <==> phase is Retired,
        replication_action_code(action) == 1 <==> action is RegisterFollower,
        replication_action_code(action) == 2 <==> action is RetireFollower,
        replication_action_code(action) == 3 <==> action is ExpireFollower,
{
}

/// The steps of a promotion count from one, and those that failed from one hundred and
/// twenty-nine.
pub proof fn promotion_codes_tell_failures_apart(step: ReplicationPromotionStepV1)
    ensures
        promotion_step_code(step) == 1 <==> step is Attempted,
        promotion_step_code(step) == 2 <==> step is Draining,
        promotion_step_code(step) == 3 <==> step is Offline,
        promotion_step_code(step) == 4 <==> step is Selected,
        promotion_step_code(step) == 5 <==> step is CutoverPending,
        promotion_step_code(step) == 129 <==> step is StorageUnavailable,
        promotion_step_code(step) == 130 <==> step is ValidationFailed,
{
}

/// The codes of derived indexes and of the members that they point to count from one.
pub proof fn derived_codes_count_from_one(
    kind: CommandDerivedIndexKindV1,
    member: CommandDerivedMemberV1,
)
    ensures
        derived_kind_code(kind) == 1 <==> kind is Idempotency,
        derived_kind_code(kind) == 2 <==> kind is Provenance,
        derived_kind_code(kind) == 3 <==> kind is AuditSequence,
        derived_kind_code(kind) == 4 <==> kind is AuditRequest,
        derived_kind_code(kind) == 5 <==> kind is EventRoute,
        derived_kind_code(kind) == 6 <==> kind is PendingOutbox,
        derived_member_code(member) == 1 <==> member is Command,
        derived_member_code(member) == 2 <==> member is AuditStarted,
        derived_member_code(member) == 3 <==> member is AuditTerminal,
        derived_member_code(member) == 4 <==> member is Event,
{
}

/// The codes of how a consumer's event was resolved or given up count from one.
pub proof fn consumer_codes_count_from_one(
    kind: SparseResolutionKindV1,
    reason: ConsumerDeadLetterReasonV1,
)
    ensures
        resolution_kind_code(kind) == 1 <==> kind is Acknowledged,
        resolution_kind_code(kind) == 2 <==> kind is DeadLettered,
        dead_reason_code(reason) == 1 <==> reason is LeaseExpired,
        dead_reason_code(reason) == 2 <==> reason is NegativeAcknowledgement,
{
}

/// A point in time is held as its seconds and its nanoseconds, which stay within one
/// second; an event as its commit, which is not zero, and its place in it.
pub proof fn times_and_events_are_held_by_their_parts(
    time_message: wire::TimestampV1,
    time: Timestamp,
    event_message: wire::EventIdV1,
    event: EventId,
)
    ensures
        timestamp_carries(time_message, time) <==> time_message.seconds == time.seconds
            && time_message.nanos as int == time.nanoseconds as int,
        timestamp_valid(time) <==> time.nanoseconds <= 999_999_999,
        event_id_carries(event_message, event) <==> event_message.commit_sequence
            == event.commit_sequence.value && event_message.event_ordinal == event.event_ordinal,
        event_id_valid(event) <==> event.commit_sequence.value > 0,
{
}

/// Where nothing is named the message holds zero, and otherwise the name.
pub proof fn zero_names_nothing(sequence: Option<CommitSequence>, counter: Option<Id64>)
    ensures
        sequence is None ==> sequence_or_zero(sequence) == 0,
        sequence is Some ==> sequence_or_zero(sequence) == sequence->Some_0.value,
        counter is None ==> counter_or_zero(counter) == 0,
        counter is Some ==> counter_or_zero(counter) == counter->Some_0.value,
{
}

/// The first epoch is one, and every other is one more than its prior.
pub proof fn epochs_follow_one_another(prior: Option<Id64>, epoch: Id64)
    ensures
        prior is None ==> (epoch_follows(prior, epoch) <==> epoch.value == 1),
        prior is Some ==> (epoch_follows(prior, epoch) <==> epoch.value - prior->Some_0.value == 1),
{
}

/// A range prefix names its index in the four bytes behind its first two.
pub proof fn range_prefixes_name_their_index(head: Seq<u8>, index: u32, rest: Seq<u8>)
    requires
        head.len() == 2,
    ensures
        prefix_owner(head + be32(index) + rest) == Some(index as int),
        forall|short: Seq<u8>| short.len() < 6 ==> #[trigger] prefix_owner(short) is None,
{
    let bytes = head + be32(index) + rest;
    crate::bytes::big_endian_bytes_weigh_their_integer(index, 0);
    assert(bytes[2] == be32(index)[0]);
    assert(bytes[3] == be32(index)[1]);
    assert(bytes[4] == be32(index)[2]);
    assert(bytes[5] == be32(index)[3]);
}

/// Tags that ascend are each smaller than all that follow.
pub proof fn ascending_tags_are_distinct(values: Seq<u8>, i: int, j: int)
    requires
        tags_ascend(values),
        0 <= i < j < values.len(),
    ensures
        values[i] < values[j],
    decreases j - i,
{
    if i + 1 < j {
        ascending_tags_are_distinct(values, i + 1, j);
    }
    assert(values[i] < values[i + 1]);
}

/// Texts that ascend each stand before all that follow, byte by byte.
pub proof fn ascending_texts_are_distinct(values: Seq<Seq<char>>, i: int, j: int)
    requires
        texts_ascend(values),
        0 <= i < j < values.len(),
    ensures
        bytes_before(encode_utf8(values[i]), encode_utf8(values[j])),
        values[i] != values[j],
    decreases j - i,
{
    assert(bytes_before(encode_utf8(values[i]), encode_utf8(values[i + 1])));
    if i + 1 < j {
        ascending_texts_are_distinct(values, i + 1, j);
        crate::bytes::bytes_before_transitive(
            encode_utf8(values[i]),
            encode_utf8(values[i + 1]),
            encode_utf8(values[j]),
        );
    }
    crate::bytes::bytes_before_irreflexive(encode_utf8(values[i]));
}

/// A human, an agent and a service are held as such.
pub proof fn actors_are_held_by_their_kind(message: wire::ActorKindV1, value: ActorKind)
    requires
        actor_kind_carries(message, value),
    ensures
        message is Human <==> value is Human,
        message is Agent <==> value is Agent,
        message is Service <==> value is Service,
{
}

/// An expected state, an epoch and a frontier are held by their number where they have
/// one, and as being absent where they have none.
pub proof fn positions_are_held_by_their_number(
    expected_message: wire::ExpectedEntityStateV1,
    expected: ExpectedEntityState,
    epoch_message: wire::IndexEpochPositionV1,
    epoch: IndexEpochPosition,
    frontier_message: wire::FrontierPositionV1,
    frontier: FrontierPosition,
)
    requires
        expected_carries(expected_message, expected),
        epoch_carries(epoch_message, epoch),
        projection_frontier_carries(frontier_message, frontier),
    ensures
        match expected_message.state {
            Some(wire::ExpectedEntityStateV1State::Absent) => expected is Absent,
            Some(wire::ExpectedEntityStateV1State::PresentEntityVersion(version)) => expected
                matches ExpectedEntityState::Present(held) && held.value == version,
            None => false,
        },
        match epoch_message.position {
            Some(wire::IndexEpochPositionV1Position::BeforeFirst) => epoch is BeforeFirst,
            Some(wire::IndexEpochPositionV1Position::Epoch(number)) => epoch
                matches IndexEpochPosition::Value(held) && held.value == number,
            None => false,
        },
        match frontier_message.position {
            Some(wire::FrontierPositionV1Position::BeforeFirst) => frontier is BeforeFirst,
            Some(wire::FrontierPositionV1Position::AppliedThrough(number)) => frontier
                matches FrontierPosition::AppliedThrough(held) && held.value == number,
            None => false,
        },
{
}

/// The state of an entity is held as its kind, and with version and hash exactly where
/// the entity is alive.
pub proof fn entity_states_are_held_by_their_kind(
    message: wire::StoredEntityChainStateV1,
    value: EntityChainStateV1,
)
    requires
        chain_state_carries(message, value),
    ensures
        message.kind is NeverExisted <==> value is NeverExisted,
        message.kind is Live <==> value is Live,
        message.kind is Deleted <==> value is Deleted,
        value matches EntityChainStateV1::Live { version, value_hash } ==> message.entity_version
            == Some(version.value) && message.value_hash@ == value_hash.bytes@,
        !(value is Live) ==> message.entity_version is None && message.value_hash@.len() == 0,
{
}

} // verus!
