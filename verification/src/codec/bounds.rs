//! Sequence-free reservations for the records of one command.
//!
//! A reservation is made before the command has its place in the history. Every
//! variable field counts with its own length, and every future sequence and entity
//! version with the largest width that it can take.

use vstd::prelude::*;

use crate::codec::error::{DurableCodecError, DurableCodecErrorKind};
use crate::codec::sizing::{
    add_repeated, add_sizes, bytes_field_len, delimited_field, fitted, key_len, message_field_len,
    repeated_sum, size_sum, sum_sizes, varint_field_len, Size,
};
use crate::protobuf::{
    encoded_len_varint, varint_field_size, varint_len, varint_len_of_words, WireType,
};
use crate::value_error::StorageValueError;

verus! {

/// The largest sequence or version, which takes the most bytes.
pub const MAXIMUM_WIDTH_U64: u64 = u64::MAX;

/// The length of every hash in a record.
pub const SIZING_HASH_BYTES: usize = 32;

/// The length of every identifier in a record.
pub const SIZING_IDENTIFIER_BYTES: usize = 16;

/// A one-byte code, such as that of a durability mode or of the outcome that a
/// provenance record speaks of.
pub const SIZING_CODE: u64 = 1;

/// Encoded lengths of one entity mutation.
#[derive(Clone, Copy, Debug, PartialEq, Eq, Structural)]
pub struct MutationMeasure {
    /// Length of the entity target's message.
    pub target_len: usize,
    /// The contract that writes the entity.
    pub written_by_contract: u64,
    /// Length of the entity's canonical fields.
    pub fields_len: usize,
}

/// Encoded lengths of one event.
#[derive(Clone, Copy, Debug, PartialEq, Eq, Structural)]
pub struct EventMeasure {
    pub event_type_id: u32,
    /// Length of the event's canonical payload.
    pub payload_len: usize,
}

/// Encoded lengths of one command that is about to be committed.
#[derive(Debug, PartialEq, Eq)]
pub struct CommandMeasure {
    pub identity_len: usize,
    pub plan_len: usize,
    pub actor_len: usize,
    pub logical_time_len: usize,
    pub claims_len: usize,
    pub schema_binding_len: usize,
    pub outcome_id: u32,
    /// Length of the declared outcome's canonical value.
    pub outcome_value_len: usize,
    /// Length of the read dependencies, or why they form no stored record.
    pub read_dependencies_len: Result<usize, StorageValueError>,
    pub partition_key_len: usize,
    /// How many conflict hashes the command has.
    pub conflict_hashes: usize,
    pub causation_len: Option<usize>,
    /// Length of the canonical service values, where they have a canonical form.
    pub service_values_len: Option<usize>,
    pub mutations: Vec<MutationMeasure>,
    pub events: Vec<EventMeasure>,
}

/// Encoded lengths of one secondary-index mutation.
#[derive(Clone, Copy, Debug, PartialEq, Eq, Structural)]
pub enum IndexEntryMeasure {
    /// A deletion stores nothing.
    Delete,
    Put {
        key_len: usize,
        schema_binding_len: usize,
        covered_values_len: usize,
        partition_key_len: usize,
    },
}

/// Encoded lengths of one index epoch.
#[derive(Clone, Copy, Debug, PartialEq, Eq, Structural)]
pub struct IndexEpochMeasure {
    pub partition_key_len: usize,
    pub index_id: u32,
    pub schema_binding_len: usize,
    pub epoch: u64,
}

/// An integer field that is written in any case.
pub open spec fn varint_field(field_number: u32, value: u64) -> Size {
    Ok(varint_field_size(field_number as nat, value as nat) as usize)
}

/// The length of an event identity with its sequence at full width. Both fields
/// count even where the ordinal zero is left out of the final message.
pub open spec fn event_id_charge(ordinal: u32) -> nat {
    varint_field_size(1, MAXIMUM_WIDTH_U64 as nat) + varint_field_size(2, ordinal as nat)
}

/// Sizes an event identity.
pub fn sizing_event_id_len(ordinal: u32) -> (result: usize)
    ensures
        result == event_id_charge(ordinal),
        result <= 30,
{
    proof {
        varint_len_of_words(MAXIMUM_WIDTH_U64);
        varint_len_of_words(ordinal as u64);
        reveal_with_fuel(varint_len, 2);
    }
    let sequence = key_len(1, WireType::Varint) + encoded_len_varint(MAXIMUM_WIDTH_U64);
    let place = key_len(2, WireType::Varint) + encoded_len_varint(ordinal as u64);
    sequence + place
}

/// The fields of an entity row.
pub open spec fn entity_charge_fields(
    mutation: MutationMeasure,
    schema_binding_len: usize,
) -> Seq<Size> {
    seq![
        delimited_field(1, mutation.target_len),
        varint_field(2, MAXIMUM_WIDTH_U64),
        varint_field(3, mutation.written_by_contract),
        delimited_field(4, schema_binding_len),
        delimited_field(5, mutation.fields_len),
    ]
}

/// Sizes one entity row.
pub fn sizing_entity_len(mutation: MutationMeasure, schema_binding_len: usize) -> (result: Size)
    ensures
        result == size_sum(0, entity_charge_fields(mutation, schema_binding_len)),
{
    let fields: [Size; 5] = [
        message_field_len(1, mutation.target_len),
        varint_field_len(2, MAXIMUM_WIDTH_U64),
        varint_field_len(3, mutation.written_by_contract),
        message_field_len(4, schema_binding_len),
        bytes_field_len(5, mutation.fields_len),
    ];
    assert(fields@ =~= entity_charge_fields(mutation, schema_binding_len));
    sum_sizes(fields.as_slice())
}

/// The fields of an affected entity.
pub open spec fn affected_charge_fields(target_len: usize, entity_version: u64) -> Seq<Size> {
    seq![
        delimited_field(1, target_len),
        varint_field(2, entity_version),
    ]
}

/// Sizes one affected entity.
pub fn sizing_affected_entity_len(target_len: usize, entity_version: u64) -> (result: Size)
    ensures
        result == size_sum(0, affected_charge_fields(target_len, entity_version)),
{
    let fields: [Size; 2] = [
        message_field_len(1, target_len),
        varint_field_len(2, entity_version),
    ];
    assert(fields@ =~= affected_charge_fields(target_len, entity_version));
    sum_sizes(fields.as_slice())
}

/// The fields of an entity reference.
pub open spec fn entity_reference_charge_fields(target_len: usize) -> Seq<Size> {
    seq![
        delimited_field(1, target_len),
        varint_field(2, MAXIMUM_WIDTH_U64),
        delimited_field(3, SIZING_HASH_BYTES),
    ]
}

/// Conservative payload length of one entity post-image reference, given the
/// length of its target's message.
pub fn conservative_entity_reference_payload_len(target_len: usize) -> (result: Size)
    ensures
        result == size_sum(0, entity_reference_charge_fields(target_len)),
{
    let fields: [Size; 3] = [
        message_field_len(1, target_len),
        varint_field_len(2, MAXIMUM_WIDTH_U64),
        bytes_field_len(3, SIZING_HASH_BYTES),
    ];
    assert(fields@ =~= entity_reference_charge_fields(target_len));
    sum_sizes(fields.as_slice())
}

/// The fields of an event.
pub open spec fn event_charge_fields(event: EventMeasure, ordinal: u32) -> Seq<Size> {
    seq![
        delimited_field(1, event_id_charge(ordinal) as usize),
        varint_field(2, event.event_type_id as u64),
        delimited_field(3, event.payload_len),
        delimited_field(4, SIZING_HASH_BYTES),
    ]
}

/// Sizes one event.
pub fn sizing_event_len(event: EventMeasure, ordinal: u32) -> (result: Size)
    ensures
        result == size_sum(0, event_charge_fields(event, ordinal)),
{
    let fields: [Size; 4] = [
        message_field_len(1, sizing_event_id_len(ordinal)),
        varint_field_len(2, event.event_type_id as u64),
        bytes_field_len(3, event.payload_len),
        bytes_field_len(4, SIZING_HASH_BYTES),
    ];
    assert(fields@ =~= event_charge_fields(event, ordinal));
    sum_sizes(fields.as_slice())
}

/// The fields of an event reference.
pub open spec fn event_reference_charge_fields(ordinal: u32) -> Seq<Size> {
    seq![
        delimited_field(1, event_id_charge(ordinal) as usize),
        delimited_field(2, SIZING_HASH_BYTES),
    ]
}

/// Sizes one event reference.
pub fn sizing_event_reference_len(ordinal: u32) -> (result: Size)
    ensures
        result == size_sum(0, event_reference_charge_fields(ordinal)),
{
    let fields: [Size; 2] = [
        message_field_len(1, sizing_event_id_len(ordinal)),
        bytes_field_len(2, SIZING_HASH_BYTES),
    ];
    assert(fields@ =~= event_reference_charge_fields(ordinal));
    sum_sizes(fields.as_slice())
}

/// The fields of an event route.
pub open spec fn event_route_charge_fields(event_type_id: u32, ordinal: u32) -> Seq<Size> {
    seq![
        delimited_field(1, event_id_charge(ordinal) as usize),
        varint_field(2, event_type_id as u64),
        delimited_field(3, SIZING_HASH_BYTES),
    ]
}

/// Sizes one event route.
pub fn sizing_event_route_len(event_type_id: u32, ordinal: u32) -> (result: Size)
    ensures
        result == size_sum(0, event_route_charge_fields(event_type_id, ordinal)),
{
    let fields: [Size; 3] = [
        message_field_len(1, sizing_event_id_len(ordinal)),
        varint_field_len(2, event_type_id as u64),
        bytes_field_len(3, SIZING_HASH_BYTES),
    ];
    assert(fields@ =~= event_route_charge_fields(event_type_id, ordinal));
    sum_sizes(fields.as_slice())
}

/// The fields of a declared outcome.
pub open spec fn declared_outcome_charge_fields(
    outcome_id: u32,
    outcome_value_len: usize,
) -> Seq<Size> {
    seq![
        varint_field(1, outcome_id as u64),
        delimited_field(2, outcome_value_len),
    ]
}

/// Sizes one declared outcome.
pub fn sizing_declared_outcome_len(outcome_id: u32, outcome_value_len: usize) -> (result: Size)
    ensures
        result == size_sum(0, declared_outcome_charge_fields(outcome_id, outcome_value_len)),
{
    let fields: [Size; 2] = [
        varint_field_len(1, outcome_id as u64),
        bytes_field_len(2, outcome_value_len),
    ];
    assert(fields@ =~= declared_outcome_charge_fields(outcome_id, outcome_value_len));
    sum_sizes(fields.as_slice())
}

/// The fields of an index entry.
pub open spec fn index_entry_charge_fields(
    key_len: usize,
    schema_binding_len: usize,
    covered_values_len: usize,
    partition_key_len: usize,
) -> Seq<Size> {
    seq![
        delimited_field(1, key_len),
        delimited_field(2, schema_binding_len),
        delimited_field(3, covered_values_len),
        delimited_field(4, partition_key_len),
    ]
}

/// Sizes one index entry.
pub fn sizing_index_entry_len(
    key_len: usize,
    schema_binding_len: usize,
    covered_values_len: usize,
    partition_key_len: usize,
) -> (result: Size)
    ensures
        result == size_sum(0,
            index_entry_charge_fields(key_len, schema_binding_len, covered_values_len,
                partition_key_len)),
{
    let fields: [Size; 4] = [
        bytes_field_len(1, key_len),
        message_field_len(2, schema_binding_len),
        bytes_field_len(3, covered_values_len),
        bytes_field_len(4, partition_key_len),
    ];
    assert(fields@
        =~= index_entry_charge_fields(key_len, schema_binding_len, covered_values_len,
            partition_key_len));
    sum_sizes(fields.as_slice())
}

/// The fields of an index epoch.
pub open spec fn index_epoch_charge_fields(value: IndexEpochMeasure) -> Seq<Size> {
    seq![
        delimited_field(1, value.partition_key_len),
        varint_field(2, value.index_id as u64),
        delimited_field(3, value.schema_binding_len),
        varint_field(4, value.epoch),
    ]
}

/// Sizes one index epoch.
pub fn sizing_index_epoch_len(value: IndexEpochMeasure) -> (result: Size)
    ensures
        result == size_sum(0, index_epoch_charge_fields(value)),
{
    let fields: [Size; 4] = [
        bytes_field_len(1, value.partition_key_len),
        varint_field_len(2, value.index_id as u64),
        message_field_len(3, value.schema_binding_len),
        varint_field_len(4, value.epoch),
    ];
    assert(fields@ =~= index_epoch_charge_fields(value));
    sum_sizes(fields.as_slice())
}

/// The fields of an outcome that occur once.
pub open spec fn outcome_charge_fields(
    measure: &CommandMeasure,
    declared_outcome_len: usize,
) -> Seq<Size> {
    seq![
        delimited_field(1, measure.identity_len),
        varint_field(2, MAXIMUM_WIDTH_U64),
        delimited_field(3, SIZING_IDENTIFIER_BYTES),
        delimited_field(4, measure.plan_len),
        delimited_field(5, SIZING_HASH_BYTES),
        delimited_field(6, measure.actor_len),
        delimited_field(7, measure.logical_time_len),
        delimited_field(8, SIZING_HASH_BYTES),
        delimited_field(10, declared_outcome_len),
        delimited_field(11, measure.claims_len),
        delimited_field(12, SIZING_IDENTIFIER_BYTES),
        varint_field(13, SIZING_CODE),
        delimited_field(14, measure.partition_key_len),
    ]
}

/// Sizes the fields of an outcome that occur once.
pub fn sizing_outcome_fixed_len(measure: &CommandMeasure, declared_outcome_len: usize)
    -> (result: Size)
    ensures
        result == size_sum(0, outcome_charge_fields(measure, declared_outcome_len)),
{
    let fields: [Size; 13] = [
        message_field_len(1, measure.identity_len),
        varint_field_len(2, MAXIMUM_WIDTH_U64),
        bytes_field_len(3, SIZING_IDENTIFIER_BYTES),
        message_field_len(4, measure.plan_len),
        bytes_field_len(5, SIZING_HASH_BYTES),
        message_field_len(6, measure.actor_len),
        message_field_len(7, measure.logical_time_len),
        bytes_field_len(8, SIZING_HASH_BYTES),
        message_field_len(10, declared_outcome_len),
        message_field_len(11, measure.claims_len),
        bytes_field_len(12, SIZING_IDENTIFIER_BYTES),
        varint_field_len(13, SIZING_CODE),
        bytes_field_len(14, measure.partition_key_len),
    ];
    assert(fields@ =~= outcome_charge_fields(measure, declared_outcome_len));
    sum_sizes(fields.as_slice())
}

/// The fields of a provenance record that occur once.
pub open spec fn provenance_charge_fields(measure: &CommandMeasure) -> Seq<Size> {
    seq![
        delimited_field(1, SIZING_IDENTIFIER_BYTES),
        varint_field(2, MAXIMUM_WIDTH_U64),
        delimited_field(3, measure.identity_len),
        delimited_field(4, SIZING_IDENTIFIER_BYTES),
        delimited_field(5, measure.plan_len),
        delimited_field(6, SIZING_HASH_BYTES),
        delimited_field(7, measure.actor_len),
        delimited_field(8, measure.logical_time_len),
        delimited_field(9, SIZING_HASH_BYTES),
        varint_field(11, SIZING_CODE),
        delimited_field(14, measure.claims_len),
    ]
}

/// Sizes the fields of a provenance record that occur once.
pub fn sizing_provenance_fixed_len(measure: &CommandMeasure) -> (result: Size)
    ensures
        result == size_sum(0, provenance_charge_fields(measure)),
{
    let fields: [Size; 11] = [
        bytes_field_len(1, SIZING_IDENTIFIER_BYTES),
        varint_field_len(2, MAXIMUM_WIDTH_U64),
        message_field_len(3, measure.identity_len),
        bytes_field_len(4, SIZING_IDENTIFIER_BYTES),
        message_field_len(5, measure.plan_len),
        bytes_field_len(6, SIZING_HASH_BYTES),
        message_field_len(7, measure.actor_len),
        message_field_len(8, measure.logical_time_len),
        bytes_field_len(9, SIZING_HASH_BYTES),
        varint_field_len(11, SIZING_CODE),
        message_field_len(14, measure.claims_len),
    ];
    assert(fields@ =~= provenance_charge_fields(measure));
    sum_sizes(fields.as_slice())
}

/// The fields of a commit record that occur once.
pub open spec fn commit_charge_fields(
    measure: &CommandMeasure,
    declared_outcome_len: usize,
    read_dependencies_len: usize,
) -> Seq<Size> {
    seq![
        varint_field(1, MAXIMUM_WIDTH_U64),
        delimited_field(2, SIZING_IDENTIFIER_BYTES),
        delimited_field(3, measure.plan_len),
        delimited_field(4, SIZING_HASH_BYTES),
        delimited_field(5, measure.actor_len),
        delimited_field(6, measure.logical_time_len),
        delimited_field(7, SIZING_HASH_BYTES),
        delimited_field(9, read_dependencies_len),
        delimited_field(12, declared_outcome_len),
        delimited_field(13, SIZING_IDENTIFIER_BYTES),
        varint_field(15, SIZING_CODE),
    ]
}

/// Sizes the fields of a commit record that occur once.
pub fn sizing_commit_fixed_len(
    measure: &CommandMeasure,
    declared_outcome_len: usize,
    read_dependencies_len: usize,
) -> (result: Size)
    ensures
        result == size_sum(0,
            commit_charge_fields(measure, declared_outcome_len, read_dependencies_len)),
{
    let fields: [Size; 11] = [
        varint_field_len(1, MAXIMUM_WIDTH_U64),
        bytes_field_len(2, SIZING_IDENTIFIER_BYTES),
        message_field_len(3, measure.plan_len),
        bytes_field_len(4, SIZING_HASH_BYTES),
        message_field_len(5, measure.actor_len),
        message_field_len(6, measure.logical_time_len),
        bytes_field_len(7, SIZING_HASH_BYTES),
        message_field_len(9, read_dependencies_len),
        message_field_len(12, declared_outcome_len),
        bytes_field_len(13, SIZING_IDENTIFIER_BYTES),
        varint_field_len(15, SIZING_CODE),
    ];
    assert(fields@ =~= commit_charge_fields(measure, declared_outcome_len, read_dependencies_len));
    sum_sizes(fields.as_slice())
}

/// The place of an item as a word of 32 bits.
pub fn ordinal_of(index: usize) -> (result: Result<u32, DurableCodecError>)
    ensures
        result == if index > u32::MAX {
            Err::<u32, DurableCodecError>(
                DurableCodecError { kind: DurableCodecErrorKind::InvariantViolation },
            )
        } else {
            Ok(index as u32)
        },
{
    if index as u64 > u32::MAX as u64 {
        Err(DurableCodecError::invariant_violation())
    } else {
        Ok(index as u32)
    }
}

/// The length of each conflict hash.
pub open spec fn conflict_charges(count: usize) -> Seq<Size> {
    Seq::new(
        count as nat,
        |_i: int| Ok(SIZING_HASH_BYTES),
    )
}

/// Sizes the conflict hashes of a command.
pub fn conflict_hash_lens(count: usize) -> (result: Vec<Size>)
    ensures
        result@ == conflict_charges(count),
{
    let mut result: Vec<Size> = Vec::new();
    let mut i: usize = 0;
    while i < count
        invariant
            i <= count as nat,
            result@ == conflict_charges(count).take(i as int),
        decreases count as nat - i,
    {
        let size: Size = Ok(SIZING_HASH_BYTES);
        result.push(size);
        i += 1;
        assert(result@ =~= conflict_charges(count).take(i as int));
    }
    assert(result@ =~= conflict_charges(count));
    result
}

/// The length of each event identity.
pub open spec fn event_id_charges(events: Seq<EventMeasure>) -> Seq<Size> {
    Seq::new(
        events.len(),
        |i: int| if i > u32::MAX {
            Err(DurableCodecError { kind: DurableCodecErrorKind::InvariantViolation })
        } else {
            Ok(event_id_charge(i as u32) as usize)
        },
    )
}

/// Sizes the event identities of a command.
pub fn event_id_lens(events: &[EventMeasure]) -> (result: Vec<Size>)
    ensures
        result@ == event_id_charges(events@),
{
    let mut result: Vec<Size> = Vec::new();
    let mut i: usize = 0;
    while i < events.len()
        invariant
            i <= events@.len(),
            result@ == event_id_charges(events@).take(i as int),
        decreases events@.len() - i,
    {
        let size: Size = match ordinal_of(i) {
            Ok(ordinal) => Ok(sizing_event_id_len(ordinal)),
            Err(error) => Err(error),
        };
        result.push(size);
        i += 1;
        assert(result@ =~= event_id_charges(events@).take(i as int));
    }
    assert(result@ =~= event_id_charges(events@));
    result
}

/// The length of each event reference.
pub open spec fn event_reference_charges(events: Seq<EventMeasure>) -> Seq<Size> {
    Seq::new(
        events.len(),
        |i: int| if i > u32::MAX {
            Err(DurableCodecError { kind: DurableCodecErrorKind::InvariantViolation })
        } else {
            size_sum(0, event_reference_charge_fields(i as u32))
        },
    )
}

/// Sizes the event references of a command.
pub fn event_reference_lens(events: &[EventMeasure]) -> (result: Vec<Size>)
    ensures
        result@ == event_reference_charges(events@),
{
    let mut result: Vec<Size> = Vec::new();
    let mut i: usize = 0;
    while i < events.len()
        invariant
            i <= events@.len(),
            result@ == event_reference_charges(events@).take(i as int),
        decreases events@.len() - i,
    {
        let size: Size = match ordinal_of(i) {
            Ok(ordinal) => sizing_event_reference_len(ordinal),
            Err(error) => Err(error),
        };
        result.push(size);
        i += 1;
        assert(result@ =~= event_reference_charges(events@).take(i as int));
    }
    assert(result@ =~= event_reference_charges(events@));
    result
}

/// The payload length of each event.
pub open spec fn event_charges(events: Seq<EventMeasure>) -> Seq<Size> {
    Seq::new(
        events.len(),
        |i: int| if i > u32::MAX {
            Err(DurableCodecError { kind: DurableCodecErrorKind::InvariantViolation })
        } else {
            size_sum(0, event_charge_fields(events[i], i as u32))
        },
    )
}

/// Sizes the events of a command.
pub fn event_lens(events: &[EventMeasure]) -> (result: Vec<Size>)
    ensures
        result@ == event_charges(events@),
{
    let mut result: Vec<Size> = Vec::new();
    let mut i: usize = 0;
    while i < events.len()
        invariant
            i <= events@.len(),
            result@ == event_charges(events@).take(i as int),
        decreases events@.len() - i,
    {
        let size: Size = match ordinal_of(i) {
            Ok(ordinal) => sizing_event_len(events[i], ordinal),
            Err(error) => Err(error),
        };
        result.push(size);
        i += 1;
        assert(result@ =~= event_charges(events@).take(i as int));
    }
    assert(result@ =~= event_charges(events@));
    result
}

/// The payload length of each event route.
pub open spec fn event_route_charges(events: Seq<EventMeasure>) -> Seq<Size> {
    Seq::new(
        events.len(),
        |i: int| if i > u32::MAX {
            Err(DurableCodecError { kind: DurableCodecErrorKind::InvariantViolation })
        } else {
            size_sum(0, event_route_charge_fields(events[i].event_type_id, i as u32))
        },
    )
}

/// Sizes the event routes of a command.
pub fn event_route_lens(events: &[EventMeasure]) -> (result: Vec<Size>)
    ensures
        result@ == event_route_charges(events@),
{
    let mut result: Vec<Size> = Vec::new();
    let mut i: usize = 0;
    while i < events.len()
        invariant
            i <= events@.len(),
            result@ == event_route_charges(events@).take(i as int),
        decreases events@.len() - i,
    {
        let size: Size = match ordinal_of(i) {
            Ok(ordinal) => sizing_event_route_len(events[i].event_type_id, ordinal),
            Err(error) => Err(error),
        };
        result.push(size);
        i += 1;
        assert(result@ =~= event_route_charges(events@).take(i as int));
    }
    assert(result@ =~= event_route_charges(events@));
    result
}

/// The payload length of each outbox intent: it holds its event reference alone.
pub open spec fn outbox_intent_charges(references: Seq<Size>) -> Seq<Size> {
    Seq::new(
        references.len(),
        |i: int| match references[i] {
            Ok(len) => delimited_field(1, len),
            Err(error) => Err(error),
        },
    )
}

/// Sizes the outbox intents of a command.
pub fn outbox_intent_lens(references: &[Size]) -> (result: Vec<Size>)
    ensures
        result@ == outbox_intent_charges(references@),
{
    let mut result: Vec<Size> = Vec::new();
    let mut i: usize = 0;
    while i < references.len()
        invariant
            i <= references@.len(),
            result@ == outbox_intent_charges(references@).take(i as int),
        decreases references@.len() - i,
    {
        let size: Size = match references[i] {
            Ok(len) => message_field_len(1, len),
            Err(error) => Err(error),
        };
        result.push(size);
        i += 1;
        assert(result@ =~= outbox_intent_charges(references@).take(i as int));
    }
    assert(result@ =~= outbox_intent_charges(references@));
    result
}

/// The length of each affected entity.
pub open spec fn affected_charges(mutations: Seq<MutationMeasure>) -> Seq<Size> {
    Seq::new(
        mutations.len(),
        |i: int| size_sum(0, affected_charge_fields(mutations[i].target_len, MAXIMUM_WIDTH_U64)),
    )
}

/// Sizes the affected entities of a command.
pub fn affected_entity_lens(mutations: &[MutationMeasure]) -> (result: Vec<Size>)
    ensures
        result@ == affected_charges(mutations@),
{
    let mut result: Vec<Size> = Vec::new();
    let mut i: usize = 0;
    while i < mutations.len()
        invariant
            i <= mutations@.len(),
            result@ == affected_charges(mutations@).take(i as int),
        decreases mutations@.len() - i,
    {
        let size: Size = sizing_affected_entity_len(mutations[i].target_len, MAXIMUM_WIDTH_U64);
        result.push(size);
        i += 1;
        assert(result@ =~= affected_charges(mutations@).take(i as int));
    }
    assert(result@ =~= affected_charges(mutations@));
    result
}

/// The length of each entity reference.
pub open spec fn entity_reference_charges(mutations: Seq<MutationMeasure>) -> Seq<Size> {
    Seq::new(
        mutations.len(),
        |i: int| size_sum(0, entity_reference_charge_fields(mutations[i].target_len)),
    )
}

/// Sizes the entity references of a command.
pub fn entity_reference_lens(mutations: &[MutationMeasure]) -> (result: Vec<Size>)
    ensures
        result@ == entity_reference_charges(mutations@),
{
    let mut result: Vec<Size> = Vec::new();
    let mut i: usize = 0;
    while i < mutations.len()
        invariant
            i <= mutations@.len(),
            result@ == entity_reference_charges(mutations@).take(i as int),
        decreases mutations@.len() - i,
    {
        let size: Size = conservative_entity_reference_payload_len(mutations[i].target_len);
        result.push(size);
        i += 1;
        assert(result@ =~= entity_reference_charges(mutations@).take(i as int));
    }
    assert(result@ =~= entity_reference_charges(mutations@));
    result
}

/// The payload length of each entity row.
pub open spec fn entity_charges(
    mutations: Seq<MutationMeasure>,
    schema_binding_len: usize,
) -> Seq<Size> {
    Seq::new(
        mutations.len(),
        |i: int| size_sum(0, entity_charge_fields(mutations[i], schema_binding_len)),
    )
}

/// Sizes the entity rows of a command.
pub fn entity_lens(mutations: &[MutationMeasure], schema_binding_len: usize) -> (result: Vec<Size>)
    ensures
        result@ == entity_charges(mutations@, schema_binding_len),
{
    let mut result: Vec<Size> = Vec::new();
    let mut i: usize = 0;
    while i < mutations.len()
        invariant
            i <= mutations@.len(),
            result@ == entity_charges(mutations@, schema_binding_len).take(i as int),
        decreases mutations@.len() - i,
    {
        let size: Size = sizing_entity_len(mutations[i], schema_binding_len);
        result.push(size);
        i += 1;
        assert(result@ =~= entity_charges(mutations@, schema_binding_len).take(i as int));
    }
    assert(result@ =~= entity_charges(mutations@, schema_binding_len));
    result
}

/// The payload length of one index mutation that stores an entry.
pub open spec fn index_entry_charge(value: IndexEntryMeasure) -> Option<Size> {
    match value {
        IndexEntryMeasure::Delete => None,
        IndexEntryMeasure::Put { key_len, schema_binding_len, covered_values_len,
            partition_key_len }
            => Some(
            size_sum(
                0,
                index_entry_charge_fields(
                    key_len,
                    schema_binding_len,
                    covered_values_len,
                    partition_key_len,
                ),
            ),
        ),
    }
}

/// The payload length of each index entry that is stored, in order: deletions
/// store none.
pub open spec fn index_entry_charges(values: Seq<IndexEntryMeasure>) -> Seq<Size>
    decreases values.len(),
{
    if values.len() == 0 {
        Seq::empty()
    } else {
        let before = index_entry_charges(values.drop_last());
        match index_entry_charge(values.last()) {
            Some(size) => before.push(size),
            None => before,
        }
    }
}

/// Sizes the index entries of a command.
pub fn index_entry_lens(values: &[IndexEntryMeasure]) -> (result: Vec<Size>)
    ensures
        result@ == index_entry_charges(values@),
{
    let mut result: Vec<Size> = Vec::new();
    let mut i: usize = 0;
    while i < values.len()
        invariant
            i <= values@.len(),
            result@ == index_entry_charges(values@.take(i as int)),
        decreases values@.len() - i,
    {
        proof {
            assert(values@.take(i + 1).drop_last() =~= values@.take(i as int));
            assert(values@.take(i + 1).last() == values@[i as int]);
        }
        match values[i] {
            IndexEntryMeasure::Delete => {},
            IndexEntryMeasure::Put {
                key_len,
                schema_binding_len,
                covered_values_len,
                partition_key_len,
            } => {
                result.push(
                    sizing_index_entry_len(
                        key_len,
                        schema_binding_len,
                        covered_values_len,
                        partition_key_len,
                    ),
                );
            },
        }
        i += 1;
    }
    assert(values@.take(values@.len() as int) =~= values@);
    result
}

/// The payload length of each index epoch.
pub open spec fn index_epoch_charges(values: Seq<IndexEpochMeasure>) -> Seq<Size> {
    Seq::new(
        values.len(),
        |i: int| size_sum(0, index_epoch_charge_fields(values[i])),
    )
}

/// Sizes the index epochs of a command.
pub fn index_epoch_lens(values: &[IndexEpochMeasure]) -> (result: Vec<Size>)
    ensures
        result@ == index_epoch_charges(values@),
{
    let mut result: Vec<Size> = Vec::new();
    let mut i: usize = 0;
    while i < values.len()
        invariant
            i <= values@.len(),
            result@ == index_epoch_charges(values@).take(i as int),
        decreases values@.len() - i,
    {
        let size: Size = sizing_index_epoch_len(values[i]);
        result.push(size);
        i += 1;
        assert(result@ =~= index_epoch_charges(values@).take(i as int));
    }
    assert(result@ =~= index_epoch_charges(values@));
    result
}

/// The length of a record that wraps its predecessor and, where there is one, the
/// command's causation.
pub open spec fn successor_charge(base_len: usize, causation_len: Option<usize>) -> Size {
    match delimited_field(1, base_len) {
        Err(error) => Err(error),
        Ok(base) => match causation_len {
            None => Ok(base),
            Some(causation_len) => match delimited_field(2, causation_len) {
                Err(error) => Err(error),
                Ok(causation) => fitted(
                    base as nat + causation as nat,
                    DurableCodecErrorKind::InvariantViolation,
                ),
            },
        },
    }
}

/// Sizes a record that wraps its predecessor and the command's causation.
pub fn sizing_successor_len(base_len: usize, causation_len: Option<usize>) -> (result: Size)
    ensures
        result == successor_charge(base_len, causation_len),
{
    let base = message_field_len(1, base_len)?;
    match causation_len {
        Some(causation_len) => {
            let causation = message_field_len(2, causation_len)?;
            add_sizes(base, causation)
        },
        None => Ok(base),
    }
}

/// The length of a terminal outcome: the fields that occur once, the conflict
/// hashes, the causation and the service values.
pub open spec fn outcome_charge(measure: &CommandMeasure, declared_outcome_len: usize) -> Size {
    match size_sum(0, outcome_charge_fields(measure, declared_outcome_len)) {
        Err(error) => Err(error),
        Ok(fixed) => match repeated_sum(fixed, 9, conflict_charges(measure.conflict_hashes)) {
            Err(error) => Err(error),
            Ok(base) => match successor_charge(base, measure.causation_len) {
                Err(error) => Err(error),
                Ok(successor) => match measure.service_values_len {
                    None => Err(
                        DurableCodecError { kind: DurableCodecErrorKind::InvariantViolation },
                    ),
                    Some(service_values_len) => size_sum(
                        0,
                        seq![
                            delimited_field(1, successor),
                            delimited_field(2, service_values_len),
                        ],
                    ),
                },
            },
        },
    }
}

/// Sizes a terminal outcome.
pub fn sizing_outcome_len(measure: &CommandMeasure, declared_outcome_len: usize) -> (result: Size)
    ensures
        result == outcome_charge(measure, declared_outcome_len),
{
    let fixed = sizing_outcome_fixed_len(measure, declared_outcome_len)?;
    let hashes = conflict_hash_lens(measure.conflict_hashes);
    let base = add_repeated(fixed, 9, &hashes)?;
    let successor = sizing_successor_len(base, measure.causation_len)?;
    match measure.service_values_len {
        None => Err(DurableCodecError::invariant_violation()),
        Some(service_values_len) => {
            let fields: [Size; 2] = [
                message_field_len(1, successor),
                bytes_field_len(2, service_values_len),
            ];
            assert(fields@ =~= seq![
                delimited_field(1, successor),
                delimited_field(2, service_values_len),
            ]);
            sum_sizes(fields.as_slice())
        },
    }
}

/// The length of a provenance record: the fields that occur once, the conflict
/// hashes, the affected entities, the event identities and the causation.
pub open spec fn provenance_charge(measure: &CommandMeasure) -> Size {
    match size_sum(0, provenance_charge_fields(measure)) {
        Err(error) => Err(error),
        Ok(fixed) => match repeated_sum(fixed, 10, conflict_charges(measure.conflict_hashes)) {
            Err(error) => Err(error),
            Ok(hashes) => match repeated_sum(
                hashes,
                12,
                affected_charges(measure.mutations@),
            ) {
                Err(error) => Err(error),
                Ok(entities) => match repeated_sum(
                    entities,
                    13,
                    event_id_charges(measure.events@),
                ) {
                    Err(error) => Err(error),
                    Ok(base) => successor_charge(base, measure.causation_len),
                },
            },
        },
    }
}

/// Sizes a provenance record.
pub fn sizing_provenance_len(measure: &CommandMeasure) -> (result: Size)
    ensures
        result == provenance_charge(measure),
{
    let fixed = sizing_provenance_fixed_len(measure)?;
    let hashes = conflict_hash_lens(measure.conflict_hashes);
    let total = add_repeated(fixed, 10, &hashes)?;
    let entities = affected_entity_lens(&measure.mutations);
    let total = add_repeated(total, 12, &entities)?;
    let events = event_id_lens(&measure.events);
    let base = add_repeated(total, 13, &events)?;
    sizing_successor_len(base, measure.causation_len)
}

/// The length of a commit record: the fields that occur once, the conflict hashes,
/// the entity references, the event references and the event identities.
pub open spec fn commit_charge(
    measure: &CommandMeasure,
    declared_outcome_len: usize,
    read_dependencies_len: usize,
) -> Size {
    match size_sum(
        0,
        commit_charge_fields(measure, declared_outcome_len, read_dependencies_len),
    ) {
        Err(error) => Err(error),
        Ok(fixed) => match repeated_sum(fixed, 8, conflict_charges(measure.conflict_hashes)) {
            Err(error) => Err(error),
            Ok(hashes) => match repeated_sum(
                hashes,
                10,
                entity_reference_charges(measure.mutations@),
            ) {
                Err(error) => Err(error),
                Ok(entities) => match repeated_sum(
                    entities,
                    11,
                    event_reference_charges(measure.events@),
                ) {
                    Err(error) => Err(error),
                    Ok(references) => repeated_sum(
                        references,
                        14,
                        event_id_charges(measure.events@),
                    ),
                },
            },
        },
    }
}

/// Sizes a commit record.
pub fn sizing_commit_len(
    measure: &CommandMeasure,
    declared_outcome_len: usize,
    read_dependencies_len: usize,
) -> (result: Size)
    ensures
        result == commit_charge(measure, declared_outcome_len, read_dependencies_len),
{
    let fixed = sizing_commit_fixed_len(measure, declared_outcome_len, read_dependencies_len)?;
    let hashes = conflict_hash_lens(measure.conflict_hashes);
    let total = add_repeated(fixed, 8, &hashes)?;
    let entities = entity_reference_lens(&measure.mutations);
    let total = add_repeated(total, 10, &entities)?;
    let references = event_reference_lens(&measure.events);
    let total = add_repeated(total, 11, &references)?;
    let ids = event_id_lens(&measure.events);
    add_repeated(total, 14, &ids)
}

} // verus!
