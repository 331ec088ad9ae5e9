//! Entity transitions and changelog rotation as durable messages.

use vstd::prelude::*;

use crate::bytes::copy_bytes;
use crate::codec::common::{
    entity_target_carries, entity_target_form_is_exact, entity_target_from_proto,
    entity_target_to_proto, entity_target_valid,
};
use crate::codec::envelope::{
    admitted_item, read_message, read_outcome, refusal_of, ruled, ruled_item, OutgoingRecord,
    ReadAttempt,
};
use crate::codec::error::{
    is_corrupt, over_limit, require, unread_failure, DurableCodecError, DurableCodecErrorKind,
};
use crate::codec::parts::{
    digest_from_wire, identifier_carries, identifier_from_wire, identifier_to_wire,
    optional_digest_carries, optional_digest_from_wire, optional_digest_to_wire,
    optional_id64_carries, optional_id64_from_wire, optional_id64_to_wire,
    optional_sequence_carries, optional_sequence_from_wire, optional_sequence_to_wire, require_ref,
};
use crate::codec::record_type::RecordType;
use crate::ids::{CommitSequence, Id64};
use crate::page::EncodedPageItem;
use crate::stored::entity_transition::{
    transition_views, ChangelogV2RotationReceipt, CommittedEntityTransitionV1, EntityChainHeadV1,
    EntityChainHeadView, EntityChainStateV1, EntityTransitionView,
};
use crate::value_error::StorageValueError;
use crate::wire;

verus! {

/// Whether a message is the form of an entity chain state: only a live entity has
/// a version and a value.
pub open spec fn chain_state_carries(
    message: wire::StoredEntityChainStateV1,
    value: EntityChainStateV1,
) -> bool {
    match value {
        EntityChainStateV1::NeverExisted => message.kind is NeverExisted && message.entity_version
            is None && message.value_hash@.len() == 0,
        EntityChainStateV1::Live { version, value_hash } => message.kind is Live
            && message.entity_version == Some(version.value) && message.value_hash@
            == value_hash.bytes@,
        EntityChainStateV1::Deleted => message.kind is Deleted && message.entity_version is None
            && message.value_hash@.len() == 0,
    }
}

/// A live entity has a nonzero version.
pub open spec fn chain_state_valid(value: EntityChainStateV1) -> bool {
    match value {
        EntityChainStateV1::Live { version, .. } => version.valid(),
        _ => true,
    }
}

/// A message is the form of at most one state.
pub proof fn chain_state_form_is_exact(
    message: wire::StoredEntityChainStateV1,
    a: EntityChainStateV1,
    b: EntityChainStateV1,
)
    requires
        chain_state_carries(message, a),
        chain_state_carries(message, b),
    ensures
        a == b,
{
    match (a, b) {
        (
            EntityChainStateV1::Live { value_hash: x, .. },
            EntityChainStateV1::Live { value_hash: y, .. },
        ) => {
            assert(x.bytes =~= y.bytes);
        },
        _ => {},
    }
}

/// The message form of an entity chain state.
pub fn chain_state_to_proto(value: EntityChainStateV1) -> (result: wire::StoredEntityChainStateV1)
    ensures
        chain_state_carries(result, value),
{
    match value {
        EntityChainStateV1::NeverExisted => wire::StoredEntityChainStateV1 {
            kind: wire::EntityChainStateKindV1::NeverExisted,
            entity_version: None,
            value_hash: Vec::new(),
        },
        EntityChainStateV1::Live { version, value_hash } => wire::StoredEntityChainStateV1 {
            kind: wire::EntityChainStateKindV1::Live,
            entity_version: Some(version.get()),
            value_hash: copy_bytes(value_hash.bytes.as_slice()),
        },
        EntityChainStateV1::Deleted => wire::StoredEntityChainStateV1 {
            kind: wire::EntityChainStateKindV1::Deleted,
            entity_version: None,
            value_hash: Vec::new(),
        },
    }
}

/// Reads an entity chain state.
pub fn chain_state_from_proto(value: &wire::StoredEntityChainStateV1) -> (result: Result<
    EntityChainStateV1,
    DurableCodecError,
>)
    ensures
        match result {
            Ok(held) => chain_state_carries(*value, held) && chain_state_valid(held),
            Err(error) => is_corrupt(error) && forall|other: EntityChainStateV1| #[trigger]
                chain_state_carries(*value, other) ==> !chain_state_valid(other),
        },
{
    let bare = value.entity_version.is_none() && value.value_hash.len() == 0;
    match value.kind {
        wire::EntityChainStateKindV1::NeverExisted => if bare {
            Ok(EntityChainStateV1::NeverExisted)
        } else {
            Err(DurableCodecError::corrupt())
        },
        wire::EntityChainStateKindV1::Live => {
            let version = require(Id64::new(require(value.entity_version)?))?;
            let value_hash = digest_from_wire(&value.value_hash)?;
            Ok(EntityChainStateV1::Live { version, value_hash })
        },
        wire::EntityChainStateKindV1::Deleted => if bare {
            Ok(EntityChainStateV1::Deleted)
        } else {
            Err(DurableCodecError::corrupt())
        },
        wire::EntityChainStateKindV1::Unspecified | wire::EntityChainStateKindV1::Unrecognized =>
            Err(DurableCodecError::corrupt()),
    }
}

/// Whether a message is the form of a committed entity transition.
pub open spec fn transition_carries(
    message: wire::StoredCommittedEntityTransitionV1,
    value: EntityTransitionView,
) -> bool {
    transition_parts_carry(message, value) && message.refusal is None
}

/// Whether a message holds the parts of a committed entity transition, whatever the owning
/// type says of them.
pub open spec fn transition_parts_carry(
    message: wire::StoredCommittedEntityTransitionV1,
    value: EntityTransitionView,
) -> bool {
    &&& message.command_sequence == value.command_sequence.value
    &&& message.mutation_ordinal == value.mutation_ordinal
    &&& (message.target matches Some(part) && entity_target_carries(part, value.target))
    &&& (message.prior_state matches Some(part) && chain_state_carries(part, value.prior_state))
    &&& message.prior_chain_revision == value.prior_chain_revision
    &&& optional_digest_carries(message.prior_transition_hash, value.prior_transition_hash)
    &&& (message.next_state matches Some(part) && chain_state_carries(part, value.next_state))
    &&& message.transition_hash@ == value.transition_hash.bytes@
}

/// Whether a committed entity transition is refused for a limit although its parts are sound.
pub open spec fn transition_over_limit(message: wire::StoredCommittedEntityTransitionV1) -> bool {
    &&& (message.refusal matches Some(error) && over_limit(error))
    &&& exists|value: EntityTransitionView| #[trigger] transition_parts_carry(message, value)
        && transition_valid(value)
}

/// The parts of a committed entity transition are valid.
pub open spec fn transition_valid(value: EntityTransitionView) -> bool {
    &&& value.command_sequence.valid()
    &&& entity_target_valid(value.target)
    &&& chain_state_valid(value.prior_state)
    &&& chain_state_valid(value.next_state)
}

/// A message is the form of at most one value.
pub proof fn transition_form_is_exact(
    message: wire::StoredCommittedEntityTransitionV1,
    a: EntityTransitionView,
    b: EntityTransitionView,
)
    requires
        transition_carries(message, a),
        transition_carries(message, b),
    ensures
        a == b,
{
    entity_target_form_is_exact(message.target->Some_0, a.target, b.target);
    chain_state_form_is_exact(message.prior_state->Some_0, a.prior_state, b.prior_state);
    if a.prior_transition_hash is Some {
        assert(a.prior_transition_hash->Some_0.bytes =~= b.prior_transition_hash->Some_0.bytes);
    }
    chain_state_form_is_exact(message.next_state->Some_0, a.next_state, b.next_state);
    assert(a.transition_hash.bytes =~= b.transition_hash.bytes);
}

/// The message form of a committed entity transition.
pub fn transition_to_proto(
    value: &CommittedEntityTransitionV1,
) -> (result: wire::StoredCommittedEntityTransitionV1)
    ensures
        transition_carries(result, value@),
{
    wire::StoredCommittedEntityTransitionV1 {
        command_sequence: value.command_sequence.get(),
        mutation_ordinal: value.mutation_ordinal,
        target: Some(entity_target_to_proto(&value.target)),
        prior_state: Some(chain_state_to_proto(value.prior_state)),
        prior_chain_revision: value.prior_chain_revision,
        prior_transition_hash: optional_digest_to_wire(value.prior_transition_hash),
        next_state: Some(chain_state_to_proto(value.next_state)),
        transition_hash: copy_bytes(value.transition_hash.bytes.as_slice()),
        refusal: None,
    }
}

/// Reads a committed entity transition.
pub fn transition_from_proto(value: &wire::StoredCommittedEntityTransitionV1) -> (result: Result<
    CommittedEntityTransitionV1,
    DurableCodecError,
>)
    ensures
        match result {
            Ok(held) => transition_carries(*value, held@) && transition_valid(held@),
            Err(error) => error.kind == unread_failure(transition_over_limit(*value)) && forall|
                other: EntityTransitionView,
            | #[trigger]
                transition_carries(*value, other) ==> !transition_valid(other),
        },
{
    let command_sequence = require(CommitSequence::new(value.command_sequence))?;
    let mutation_ordinal = value.mutation_ordinal;
    let target = entity_target_from_proto(require_ref(&value.target)?)?;
    let prior_state = chain_state_from_proto(require_ref(&value.prior_state)?)?;
    let prior_chain_revision = value.prior_chain_revision;
    let prior_transition_hash = optional_digest_from_wire(&value.prior_transition_hash)?;
    let next_state = chain_state_from_proto(require_ref(&value.next_state)?)?;
    let transition_hash = digest_from_wire(&value.transition_hash)?;
    let read = CommittedEntityTransitionV1 {
        command_sequence,
        mutation_ordinal,
        target,
        prior_state,
        prior_chain_revision,
        prior_transition_hash,
        next_state,
        transition_hash,
    };
    assert(transition_parts_carry(*value, read@));
    match value.refusal {
        Some(error) => Err(DurableCodecError::from_storage_value(error)),
        None => Ok(read),
    }
}

/// Whether the first of these messages that cannot be read is refused for a limit.
pub open spec fn transition_list_over_limit(
    messages: Seq<wire::StoredCommittedEntityTransitionV1>,
) -> bool {
    exists|place: int| #[trigger]
        transition_stops_at(messages, place) && transition_over_limit(messages[place])
}

/// Whether all messages before a place can be read.
pub open spec fn transition_stops_at(
    messages: Seq<wire::StoredCommittedEntityTransitionV1>,
    place: int,
) -> bool {
    &&& 0 <= place < messages.len()
    &&& forall|k: int| 0 <= k < place ==> transition_readable(#[trigger] messages[k])
}

/// Whether a message is the form of some valid value.
pub open spec fn transition_readable(message: wire::StoredCommittedEntityTransitionV1) -> bool {
    exists|value: EntityTransitionView| #[trigger] transition_carries(message, value)
        && transition_valid(value)
}

/// Whether messages are the forms of values, one by one.
pub open spec fn transition_list_carries(
    messages: Seq<wire::StoredCommittedEntityTransitionV1>,
    values: Seq<EntityTransitionView>,
) -> bool {
    &&& messages.len() == values.len()
    &&& forall|i: int|
        0 <= i < messages.len() ==> transition_carries(#[trigger] messages[i], values[i])
}

/// All values are valid.
pub open spec fn transition_list_valid(values: Seq<EntityTransitionView>) -> bool {
    forall|i: int| 0 <= i < values.len() ==> transition_valid(#[trigger] values[i])
}

/// Messages are the forms of at most one list of values.
pub proof fn transition_list_form_is_exact(
    messages: Seq<wire::StoredCommittedEntityTransitionV1>,
    a: Seq<EntityTransitionView>,
    b: Seq<EntityTransitionView>,
)
    requires
        transition_list_carries(messages, a),
        transition_list_carries(messages, b),
    ensures
        a == b,
{
    assert forall|i: int| 0 <= i < a.len() implies a[i] == b[i] by {
        assert(transition_carries(messages[i], a[i]) && transition_carries(messages[i], b[i]));
        transition_form_is_exact(messages[i], a[i], b[i]);
    }
    assert(a =~= b);
}

/// The message forms of values.
pub fn transition_list_to_proto(
    values: &[CommittedEntityTransitionV1],
) -> (result: Vec<wire::StoredCommittedEntityTransitionV1>)
    ensures
        transition_list_carries(result@, transition_views(values@)),
{
    let mut result: Vec<wire::StoredCommittedEntityTransitionV1> = Vec::new();
    let mut i: usize = 0;
    while i < values.len()
        invariant
            i <= values@.len(),
            result@.len() == i,
            forall|k: int| 0 <= k < i ==> transition_carries(#[trigger] result@[k], values@[k]@),
        decreases values@.len() - i,
    {
        result.push(transition_to_proto(&values[i]));
        i += 1;
    }
    result
}

/// Reads values from their message forms.
pub fn transition_list_from_proto(
    values: &[wire::StoredCommittedEntityTransitionV1],
) -> (result: Result<
    Vec<CommittedEntityTransitionV1>,
    DurableCodecError,
>)
    ensures
        match result {
            Ok(held) => transition_list_carries(
                values@,
                transition_views(held@),
            ) && transition_list_valid(transition_views(held@)),
            Err(error) => error.kind == unread_failure(transition_list_over_limit(values@))
                && forall|other: Seq<EntityTransitionView>| #[trigger]
                transition_list_carries(values@, other) ==> !transition_list_valid(other),
        },
{
    let mut result: Vec<CommittedEntityTransitionV1> = Vec::new();
    let mut i: usize = 0;
    while i < values.len()
        invariant
            i <= values@.len(),
            result@.len() == i,
            forall|k: int|
                0 <= k < i ==> transition_carries(values@[k], #[trigger] result@[k]@)
                    && transition_valid(result@[k]@),
        decreases values@.len() - i,
    {
        match transition_from_proto(&values[i]) {
            Ok(held) => {
                result.push(held);
            },
            Err(error) => {
                assert forall|other: Seq<EntityTransitionView>| #[trigger]
                    transition_list_carries(values@, other)
                        implies !transition_list_valid(other) by {
                    assert(transition_carries(values@[i as int], other[i as int]));
                    assert(!transition_valid(other[i as int]));
                }
                proof {
                    assert forall|k: int| 0 <= k < i
                        implies transition_readable(#[trigger] values@[k]) by {
                        assert(transition_carries(values@[k], result@[k]@));
                    }
                    assert(transition_stops_at(values@, i as int));
                    assert forall|place: int| #[trigger] transition_stops_at(values@, place)
                        && transition_over_limit(values@[place]) implies place == i by {
                        if place < i {
                            assert(transition_readable(values@[place]));
                        } else if place > i {
                            assert(transition_readable(values@[i as int]));
                        }
                    }
                }
                return Err(error);
            },
        }
        i += 1;
    }
    Ok(result)
}

/// Whether a message is the form of an authoritative entity-chain head.
pub open spec fn chain_head_carries(
    message: wire::StoredEntityChainHeadV1,
    value: EntityChainHeadView,
) -> bool {
    &&& (message.target matches Some(part) && entity_target_carries(part, value.target))
    &&& message.chain_revision == value.chain_revision
    &&& (message.state matches Some(part) && chain_state_carries(part, value.state))
    &&& message.last_command_sequence == value.last_command_sequence.value
    &&& message.last_transition_hash@ == value.last_transition_hash.bytes@
}

/// The parts of an authoritative entity-chain head are valid.
pub open spec fn chain_head_valid(value: EntityChainHeadView) -> bool {
    &&& entity_target_valid(value.target)
    &&& chain_state_valid(value.state)
    &&& value.last_command_sequence.valid()
}

/// A message is the form of at most one value.
pub proof fn chain_head_form_is_exact(
    message: wire::StoredEntityChainHeadV1,
    a: EntityChainHeadView,
    b: EntityChainHeadView,
)
    requires
        chain_head_carries(message, a),
        chain_head_carries(message, b),
    ensures
        a == b,
{
    entity_target_form_is_exact(message.target->Some_0, a.target, b.target);
    chain_state_form_is_exact(message.state->Some_0, a.state, b.state);
    assert(a.last_transition_hash.bytes =~= b.last_transition_hash.bytes);
}

/// The message form of an authoritative entity-chain head.
pub fn chain_head_to_proto(value: &EntityChainHeadV1) -> (result: wire::StoredEntityChainHeadV1)
    ensures
        chain_head_carries(result, value@),
{
    wire::StoredEntityChainHeadV1 {
        target: Some(entity_target_to_proto(&value.target)),
        chain_revision: value.chain_revision,
        state: Some(chain_state_to_proto(value.state)),
        last_command_sequence: value.last_command_sequence.get(),
        last_transition_hash: copy_bytes(value.last_transition_hash.bytes.as_slice()),
    }
}

/// What reading a message gives: the value that it is the form of, or a
/// corruption where it is the form of no valid one.
pub open spec fn chain_head_read(
    message: wire::StoredEntityChainHeadV1,
    result: Result<EntityChainHeadV1, DurableCodecError>,
) -> bool {
    match result {
        Ok(held) => chain_head_carries(message, held@) && chain_head_valid(held@),
        Err(error) => is_corrupt(error) && forall|other: EntityChainHeadView| #[trigger]
            chain_head_carries(message, other) ==> !chain_head_valid(other),
    }
}

/// Reads an authoritative entity-chain head.
pub fn chain_head_from_proto(value: &wire::StoredEntityChainHeadV1) -> (result: Result<
    EntityChainHeadV1,
    DurableCodecError,
>)
    ensures
        chain_head_read(*value, result),
{
    let target = entity_target_from_proto(require_ref(&value.target)?)?;
    let chain_revision = value.chain_revision;
    let state = chain_state_from_proto(require_ref(&value.state)?)?;
    let last_command_sequence = require(CommitSequence::new(value.last_command_sequence))?;
    let last_transition_hash = digest_from_wire(&value.last_transition_hash)?;
    Ok(
        EntityChainHeadV1 {
            target,
            chain_revision,
            state,
            last_command_sequence,
            last_transition_hash,
        },
    )
}

/// Reading the message form of an authoritative entity-chain head gives back what was written.
pub proof fn chain_head_round_trip(
    value: EntityChainHeadView,
    message: wire::StoredEntityChainHeadV1,
    read: Result<EntityChainHeadV1, DurableCodecError>,
)
    requires
        chain_head_valid(value),
        chain_head_carries(message, value),
        chain_head_read(message, read),
    ensures
        read is Ok,
        read->Ok_0@ == value,
{
    if let Ok(held) = read {
        chain_head_form_is_exact(message, held@, value);
    }
}

/// Whether a message is the form of the receipt of the rotation to the second changelog form.
pub open spec fn rotation_receipt_carries(
    message: wire::StoredChangelogV2RotationReceiptV1,
    value: ChangelogV2RotationReceipt,
) -> bool {
    &&& identifier_carries(message.database_id, value.database_id)
    &&& message.history_incarnation == value.history_incarnation
    &&& optional_sequence_carries(
        message.predecessor_application_frontier,
        value.predecessor_application,
    )
    &&& optional_id64_carries(
        message.predecessor_administration_frontier,
        value.predecessor_administration,
    )
    &&& message.terminal_v1_frame_hash@ == value.v1_terminal_hash.bytes@
    &&& message.v2_chain_anchor@ == value.v2_chain_anchor.bytes@
    &&& message.receipt_hash@ == value.receipt_hash.bytes@
    &&& message.admitted
}

/// The parts of the receipt of the rotation to the second changelog form are valid.
pub open spec fn rotation_receipt_valid(value: ChangelogV2RotationReceipt) -> bool {
    &&& (value.predecessor_application matches Some(part) ==> part.valid())
    &&& (value.predecessor_administration matches Some(part) ==> part.valid())
}

/// A message is the form of at most one value.
pub proof fn rotation_receipt_form_is_exact(
    message: wire::StoredChangelogV2RotationReceiptV1,
    a: ChangelogV2RotationReceipt,
    b: ChangelogV2RotationReceipt,
)
    requires
        rotation_receipt_carries(message, a),
        rotation_receipt_carries(message, b),
    ensures
        a == b,
{
    assert(a.database_id.bytes =~= b.database_id.bytes);
    assert(a.v1_terminal_hash.bytes =~= b.v1_terminal_hash.bytes);
    assert(a.v2_chain_anchor.bytes =~= b.v2_chain_anchor.bytes);
    assert(a.receipt_hash.bytes =~= b.receipt_hash.bytes);
}

/// The message form of the receipt of the rotation to the second changelog form.
pub fn rotation_receipt_to_proto(
    value: ChangelogV2RotationReceipt,
) -> (result: wire::StoredChangelogV2RotationReceiptV1)
    ensures
        rotation_receipt_carries(result, value),
{
    wire::StoredChangelogV2RotationReceiptV1 {
        database_id: identifier_to_wire(value.database_id),
        history_incarnation: value.history_incarnation,
        predecessor_application_frontier: optional_sequence_to_wire(value.predecessor_application),
        predecessor_administration_frontier: optional_id64_to_wire(
            value.predecessor_administration,
        ),
        terminal_v1_frame_hash: copy_bytes(value.v1_terminal_hash.bytes.as_slice()),
        v2_chain_anchor: copy_bytes(value.v2_chain_anchor.bytes.as_slice()),
        receipt_hash: copy_bytes(value.receipt_hash.bytes.as_slice()),
        admitted: true,
    }
}

/// What reading a message gives: the value that it is the form of, or a
/// corruption where it is the form of no valid one.
pub open spec fn rotation_receipt_read(
    message: wire::StoredChangelogV2RotationReceiptV1,
    result: Result<ChangelogV2RotationReceipt, DurableCodecError>,
) -> bool {
    match result {
        Ok(held) => rotation_receipt_carries(message, held) && rotation_receipt_valid(held),
        Err(error) => is_corrupt(error) && forall|other: ChangelogV2RotationReceipt| #[trigger]
            rotation_receipt_carries(message, other) ==> !rotation_receipt_valid(other),
    }
}

/// Reads the receipt of the rotation to the second changelog form.
pub fn rotation_receipt_from_proto(
    value: &wire::StoredChangelogV2RotationReceiptV1,
) -> (result: Result<
    ChangelogV2RotationReceipt,
    DurableCodecError,
>)
    ensures
        rotation_receipt_read(*value, result),
{
    let database_id = identifier_from_wire(&value.database_id)?;
    let history_incarnation = value.history_incarnation;
    let predecessor_application = optional_sequence_from_wire(
        value.predecessor_application_frontier,
    )?;
    let predecessor_administration = optional_id64_from_wire(
        value.predecessor_administration_frontier,
    )?;
    let v1_terminal_hash = digest_from_wire(&value.terminal_v1_frame_hash)?;
    let v2_chain_anchor = digest_from_wire(&value.v2_chain_anchor)?;
    let receipt_hash = digest_from_wire(&value.receipt_hash)?;
    if !value.admitted {
        return Err(DurableCodecError::corrupt());
    }
    Ok(
        ChangelogV2RotationReceipt {
            database_id,
            history_incarnation,
            predecessor_application,
            predecessor_administration,
            v1_terminal_hash,
            v2_chain_anchor,
            receipt_hash,
        },
    )
}

/// Reading the message form of the receipt of the rotation to the second changelog form
/// gives back what was written.
pub proof fn rotation_receipt_round_trip(
    value: ChangelogV2RotationReceipt,
    message: wire::StoredChangelogV2RotationReceiptV1,
    read: Result<ChangelogV2RotationReceipt, DurableCodecError>,
)
    requires
        rotation_receipt_valid(value),
        rotation_receipt_carries(message, value),
        rotation_receipt_read(message, read),
    ensures
        read is Ok,
        read->Ok_0 == value,
{
    if let Ok(held) = read {
        rotation_receipt_form_is_exact(message, held, value);
    }
}

/// Encodes one authoritative entity-chain head.
pub fn encode_entity_chain_head_v1(value: &EntityChainHeadV1) -> (result: OutgoingRecord<
    wire::StoredEntityChainHeadV1,
>)
    ensures
        result.record_type == RecordType::StoredEntityChainHeadV1,
        chain_head_carries(result.message, value@),
{
    OutgoingRecord {
        record_type: RecordType::StoredEntityChainHeadV1,
        message: chain_head_to_proto(value),
    }
}

/// Whether a message is the form of some valid value.
pub open spec fn chain_head_readable(message: wire::StoredEntityChainHeadV1) -> bool {
    exists|value: EntityChainHeadView| #[trigger] chain_head_carries(message, value)
        && chain_head_valid(value)
}

/// Decodes one authoritative entity-chain head.
pub fn decode_entity_chain_head_v1<R: Fn(&EntityChainHeadV1) -> Option<StorageValueError>>(
    attempt: ReadAttempt<wire::StoredEntityChainHeadV1>,
    rule: R,
) -> (result: Result<EncodedPageItem<EntityChainHeadV1>, DurableCodecError>)
    requires
        forall|value: &EntityChainHeadV1| #[trigger] rule.requires((value,)),
    ensures
        match read_outcome(RecordType::StoredEntityChainHeadV1, attempt) {
            Err(kind) => result == Err::<EncodedPageItem<EntityChainHeadV1>, _>(
                DurableCodecError { kind },
            ),
            Ok(message) => if chain_head_readable(message) {
                exists|value: EntityChainHeadV1| {
                    &&& chain_head_carries(message, value@)
                    &&& chain_head_valid(value@)
                    &&& #[trigger] ruled(rule, value, attempt.encoded_len, result)
                }
            } else {
                result == Err::<EncodedPageItem<EntityChainHeadV1>, _>(
                    DurableCodecError { kind: DurableCodecErrorKind::CorruptData },
                )
            },
        },
{
    let encoded_len = attempt.encoded_len;
    let message = read_message(RecordType::StoredEntityChainHeadV1, attempt)?;
    let value = chain_head_from_proto(&message)?;
    ruled_item(value, rule, encoded_len)
}

/// Encodes the one durable rotation receipt.
pub fn encode_changelog_v2_rotation_receipt_v1(
    value: ChangelogV2RotationReceipt,
) -> (result: OutgoingRecord<
    wire::StoredChangelogV2RotationReceiptV1,
>)
    ensures
        result.record_type == RecordType::StoredChangelogV2RotationReceiptV1,
        rotation_receipt_carries(result.message, value),
{
    OutgoingRecord {
        record_type: RecordType::StoredChangelogV2RotationReceiptV1,
        message: rotation_receipt_to_proto(value),
    }
}

/// Whether a message is the form of some valid value.
pub open spec fn rotation_receipt_readable(
    message: wire::StoredChangelogV2RotationReceiptV1,
) -> bool {
    exists|value: ChangelogV2RotationReceipt| #[trigger]
        rotation_receipt_carries(message, value) && rotation_receipt_valid(value)
}

/// Decodes and rederives the rotation receipt.
pub fn decode_changelog_v2_rotation_receipt_v1(
    attempt: ReadAttempt<wire::StoredChangelogV2RotationReceiptV1>,
) -> (result: Result<EncodedPageItem<ChangelogV2RotationReceipt>, DurableCodecError>)
    ensures
        match read_outcome(RecordType::StoredChangelogV2RotationReceiptV1, attempt) {
            Err(kind) => result == Err::<EncodedPageItem<ChangelogV2RotationReceipt>, _>(
                DurableCodecError { kind },
            ),
            Ok(message) => match refusal_of(
                rotation_receipt_readable(message),
                None,
                attempt.encoded_len,
            ) {
                Some(kind) => result == Err::<EncodedPageItem<ChangelogV2RotationReceipt>, _>(
                    DurableCodecError { kind },
                ),
                None => result is Ok && rotation_receipt_carries(message, result->Ok_0.value)
                    && rotation_receipt_valid(result->Ok_0.value)
                    && result->Ok_0.charge.bytes == attempt.encoded_len,
            },
        },
{
    let encoded_len = attempt.encoded_len;
    let message = read_message(RecordType::StoredChangelogV2RotationReceiptV1, attempt)?;
    let value = rotation_receipt_from_proto(&message)?;
    admitted_item(value, None, encoded_len)
}

} // verus!
