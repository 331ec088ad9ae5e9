//! A reservation covers every final record of its command.
//!
//! The final messages leave out integer fields that are zero and byte strings that
//! are empty, and hold the sequence, the ordinals and the entity versions that the
//! command was given.

use vstd::prelude::*;

use crate::codec::bounds::{
    affected_charge_fields, affected_charges, commit_charge, commit_charge_fields, conflict_charges,
    declared_outcome_charge_fields, entity_charge_fields, entity_reference_charge_fields,
    entity_reference_charges, event_charge_fields, event_id_charge, event_id_charges,
    event_reference_charge_fields, event_reference_charges, event_route_charge_fields,
    index_entry_charge_fields, index_epoch_charge_fields, outcome_charge, outcome_charge_fields,
    provenance_charge, provenance_charge_fields, successor_charge, CommandMeasure, EventMeasure,
    IndexEpochMeasure, MutationMeasure, MAXIMUM_WIDTH_U64, SIZING_HASH_BYTES,
    SIZING_IDENTIFIER_BYTES,
};
use crate::codec::sizing::{
    delimited_field, plain_sum, repeated_field_size, repeated_sum, repeated_sum_dominates, size_sum,
    size_sum_is_the_plain_sum,
};
use crate::protobuf::{
    bytes_field_in_message, delimited_field_size, field_sizes_grow, varint_field_in_message,
    varint_len, varint_len_of_words,
};

verus! {

/// The length of a final event identity.
pub open spec fn event_id_size(sequence: u64, ordinal: u32) -> nat {
    varint_field_in_message(1, sequence as nat) + varint_field_in_message(2, ordinal as nat)
}

/// A reserved event identity covers every final one with its ordinal.
pub proof fn event_id_reservation_covers(sequence: u64, ordinal: u32)
    ensures
        event_id_size(sequence, ordinal) <= event_id_charge(ordinal) <= usize::MAX,
{
    field_sizes_grow(1, sequence as nat, MAXIMUM_WIDTH_U64 as nat);
    field_sizes_grow(2, ordinal as nat, ordinal as nat);
    varint_len_of_words(MAXIMUM_WIDTH_U64);
    varint_len_of_words(ordinal as u64);
    reveal_with_fuel(varint_len, 2);
}

/// The length of a final entity row.
pub open spec fn entity_size(
    mutation: MutationMeasure,
    schema_binding_len: usize,
    entity_version: u64,
) -> nat {
    delimited_field_size(1, mutation.target_len as nat)
        + varint_field_in_message(2, entity_version as nat)
        + varint_field_in_message(3, mutation.written_by_contract as nat)
        + delimited_field_size(4, schema_binding_len as nat)
        + bytes_field_in_message(5, mutation.fields_len as nat)
}

/// A reserved entity row covers the final one in whatever version it is written.
pub proof fn entity_reservation_covers(
    mutation: MutationMeasure,
    schema_binding_len: usize,
    entity_version: u64,
)
    ensures
        size_sum(0, entity_charge_fields(mutation, schema_binding_len)) is Ok
            ==> entity_size(mutation, schema_binding_len, entity_version) <= size_sum(
            0,
            entity_charge_fields(mutation, schema_binding_len),
        )->Ok_0,
{
    let fields = entity_charge_fields(mutation, schema_binding_len);
    size_sum_is_the_plain_sum(0, fields);
    reveal_with_fuel(plain_sum, 6);
    reveal_with_fuel(varint_len, 3);
    field_sizes_grow(1, mutation.target_len as nat, mutation.target_len as nat);
    field_sizes_grow(2, entity_version as nat, MAXIMUM_WIDTH_U64 as nat);
    varint_len_of_words((MAXIMUM_WIDTH_U64 as nat) as u64);
    field_sizes_grow(3, mutation.written_by_contract as nat, mutation.written_by_contract as nat);
    varint_len_of_words((mutation.written_by_contract as nat) as u64);
    field_sizes_grow(4, schema_binding_len as nat, schema_binding_len as nat);
    field_sizes_grow(5, mutation.fields_len as nat, mutation.fields_len as nat);
    if size_sum(0, fields) is Ok {
        assert(fields[0] is Ok);
        assert(fields[1] is Ok);
        assert(fields[2] is Ok);
        assert(fields[3] is Ok);
        assert(fields[4] is Ok);
    }
}

/// The length of a final affected entity.
pub open spec fn affected_size(target_len: usize, entity_version: u64) -> nat {
    delimited_field_size(1, target_len as nat)
        + varint_field_in_message(2, entity_version as nat)
}

/// A reserved affected entity covers the final one in whatever version it is.
pub proof fn affected_reservation_covers(target_len: usize, entity_version: u64)
    ensures
        size_sum(0, affected_charge_fields(target_len, MAXIMUM_WIDTH_U64)) is Ok
            ==> affected_size(target_len, entity_version) <= size_sum(
            0,
            affected_charge_fields(target_len, MAXIMUM_WIDTH_U64),
        )->Ok_0,
{
    let fields = affected_charge_fields(target_len, MAXIMUM_WIDTH_U64);
    size_sum_is_the_plain_sum(0, fields);
    reveal_with_fuel(plain_sum, 3);
    reveal_with_fuel(varint_len, 3);
    field_sizes_grow(1, target_len as nat, target_len as nat);
    field_sizes_grow(2, entity_version as nat, MAXIMUM_WIDTH_U64 as nat);
    varint_len_of_words((MAXIMUM_WIDTH_U64 as nat) as u64);
    if size_sum(0, fields) is Ok {
        assert(fields[0] is Ok);
        assert(fields[1] is Ok);
    }
}

/// The length of a final entity reference.
pub open spec fn entity_reference_size(target_len: usize, entity_version: u64) -> nat {
    delimited_field_size(1, target_len as nat)
        + varint_field_in_message(2, entity_version as nat)
        + bytes_field_in_message(3, SIZING_HASH_BYTES as nat)
}

/// A conservative entity reference covers the final one in whatever version it is.
pub proof fn entity_reference_reservation_covers(target_len: usize, entity_version: u64)
    ensures
        size_sum(0, entity_reference_charge_fields(target_len)) is Ok
            ==> entity_reference_size(target_len, entity_version) <= size_sum(
            0,
            entity_reference_charge_fields(target_len),
        )->Ok_0,
{
    let fields = entity_reference_charge_fields(target_len);
    size_sum_is_the_plain_sum(0, fields);
    reveal_with_fuel(plain_sum, 4);
    reveal_with_fuel(varint_len, 3);
    field_sizes_grow(1, target_len as nat, target_len as nat);
    field_sizes_grow(2, entity_version as nat, MAXIMUM_WIDTH_U64 as nat);
    varint_len_of_words((MAXIMUM_WIDTH_U64 as nat) as u64);
    field_sizes_grow(3, SIZING_HASH_BYTES as nat, SIZING_HASH_BYTES as nat);
    if size_sum(0, fields) is Ok {
        assert(fields[0] is Ok);
        assert(fields[1] is Ok);
        assert(fields[2] is Ok);
    }
}

/// The length of a final event.
pub open spec fn event_size(event: EventMeasure, sequence: u64, ordinal: u32) -> nat {
    delimited_field_size(1, event_id_size(sequence, ordinal))
        + varint_field_in_message(2, event.event_type_id as nat)
        + bytes_field_in_message(3, event.payload_len as nat)
        + bytes_field_in_message(4, SIZING_HASH_BYTES as nat)
}

/// A reserved event covers the final one at whatever sequence it is written.
pub proof fn event_reservation_covers(event: EventMeasure, sequence: u64, ordinal: u32)
    ensures
        size_sum(0, event_charge_fields(event, ordinal)) is Ok
            ==> event_size(event, sequence, ordinal) <= size_sum(
            0,
            event_charge_fields(event, ordinal),
        )->Ok_0,
{
    let fields = event_charge_fields(event, ordinal);
    size_sum_is_the_plain_sum(0, fields);
    reveal_with_fuel(plain_sum, 5);
    reveal_with_fuel(varint_len, 3);
    event_id_reservation_covers(sequence, ordinal);
    field_sizes_grow(1, event_id_size(sequence, ordinal), event_id_charge(ordinal));
    field_sizes_grow(2, event.event_type_id as nat, event.event_type_id as nat);
    varint_len_of_words((event.event_type_id as nat) as u64);
    field_sizes_grow(3, event.payload_len as nat, event.payload_len as nat);
    field_sizes_grow(4, SIZING_HASH_BYTES as nat, SIZING_HASH_BYTES as nat);
    if size_sum(0, fields) is Ok {
        assert(fields[0] is Ok);
        assert(fields[1] is Ok);
        assert(fields[2] is Ok);
        assert(fields[3] is Ok);
    }
}

/// The length of a final event reference.
pub open spec fn event_reference_size(sequence: u64, ordinal: u32) -> nat {
    delimited_field_size(1, event_id_size(sequence, ordinal))
        + bytes_field_in_message(2, SIZING_HASH_BYTES as nat)
}

/// A reserved event reference covers the final one at whatever sequence it is.
pub proof fn event_reference_reservation_covers(sequence: u64, ordinal: u32)
    ensures
        size_sum(0, event_reference_charge_fields(ordinal)) is Ok
            ==> event_reference_size(sequence, ordinal) <= size_sum(
            0,
            event_reference_charge_fields(ordinal),
        )->Ok_0,
{
    let fields = event_reference_charge_fields(ordinal);
    size_sum_is_the_plain_sum(0, fields);
    reveal_with_fuel(plain_sum, 3);
    reveal_with_fuel(varint_len, 3);
    event_id_reservation_covers(sequence, ordinal);
    field_sizes_grow(1, event_id_size(sequence, ordinal), event_id_charge(ordinal));
    field_sizes_grow(2, SIZING_HASH_BYTES as nat, SIZING_HASH_BYTES as nat);
    if size_sum(0, fields) is Ok {
        assert(fields[0] is Ok);
        assert(fields[1] is Ok);
    }
}

/// The length of a final event route.
pub open spec fn event_route_size(event_type_id: u32, sequence: u64, ordinal: u32) -> nat {
    delimited_field_size(1, event_id_size(sequence, ordinal))
        + varint_field_in_message(2, event_type_id as nat)
        + bytes_field_in_message(3, SIZING_HASH_BYTES as nat)
}

/// A reserved event route covers the final one at whatever sequence it is.
pub proof fn event_route_reservation_covers(event_type_id: u32, sequence: u64, ordinal: u32)
    ensures
        size_sum(0, event_route_charge_fields(event_type_id, ordinal)) is Ok
            ==> event_route_size(event_type_id, sequence, ordinal) <= size_sum(
            0,
            event_route_charge_fields(event_type_id, ordinal),
        )->Ok_0,
{
    let fields = event_route_charge_fields(event_type_id, ordinal);
    size_sum_is_the_plain_sum(0, fields);
    reveal_with_fuel(plain_sum, 4);
    reveal_with_fuel(varint_len, 3);
    event_id_reservation_covers(sequence, ordinal);
    field_sizes_grow(1, event_id_size(sequence, ordinal), event_id_charge(ordinal));
    field_sizes_grow(2, event_type_id as nat, event_type_id as nat);
    varint_len_of_words((event_type_id as nat) as u64);
    field_sizes_grow(3, SIZING_HASH_BYTES as nat, SIZING_HASH_BYTES as nat);
    if size_sum(0, fields) is Ok {
        assert(fields[0] is Ok);
        assert(fields[1] is Ok);
        assert(fields[2] is Ok);
    }
}

/// The length of a final declared outcome.
pub open spec fn declared_outcome_size(outcome_id: u32, outcome_value_len: usize) -> nat {
    varint_field_in_message(1, outcome_id as nat)
        + bytes_field_in_message(2, outcome_value_len as nat)
}

/// A reserved declared outcome covers the final one.
pub proof fn declared_outcome_reservation_covers(outcome_id: u32, outcome_value_len: usize)
    ensures
        size_sum(0, declared_outcome_charge_fields(outcome_id, outcome_value_len)) is Ok
            ==> declared_outcome_size(outcome_id, outcome_value_len) <= size_sum(
            0,
            declared_outcome_charge_fields(outcome_id, outcome_value_len),
        )->Ok_0,
{
    let fields = declared_outcome_charge_fields(outcome_id, outcome_value_len);
    size_sum_is_the_plain_sum(0, fields);
    reveal_with_fuel(plain_sum, 3);
    reveal_with_fuel(varint_len, 3);
    field_sizes_grow(1, outcome_id as nat, outcome_id as nat);
    varint_len_of_words((outcome_id as nat) as u64);
    field_sizes_grow(2, outcome_value_len as nat, outcome_value_len as nat);
    if size_sum(0, fields) is Ok {
        assert(fields[0] is Ok);
        assert(fields[1] is Ok);
    }
}

/// The length of a final index entry.
pub open spec fn index_entry_size(
    key_len: usize,
    schema_binding_len: usize,
    covered_values_len: usize,
    partition_key_len: usize,
) -> nat {
    bytes_field_in_message(1, key_len as nat)
        + delimited_field_size(2, schema_binding_len as nat)
        + bytes_field_in_message(3, covered_values_len as nat)
        + bytes_field_in_message(4, partition_key_len as nat)
}

/// A reserved index entry covers the final one.
pub proof fn index_entry_reservation_covers(
    key_len: usize,
    schema_binding_len: usize,
    covered_values_len: usize,
    partition_key_len: usize,
)
    ensures
        size_sum(0,
            index_entry_charge_fields(key_len, schema_binding_len, covered_values_len,
                partition_key_len)) is Ok
                    ==> index_entry_size(key_len, schema_binding_len, covered_values_len,
                        partition_key_len) <= size_sum(
            0,
            index_entry_charge_fields(key_len, schema_binding_len, covered_values_len,
                partition_key_len),
        )->Ok_0,
{
    let fields = index_entry_charge_fields(key_len, schema_binding_len, covered_values_len,
        partition_key_len);
    size_sum_is_the_plain_sum(0, fields);
    reveal_with_fuel(plain_sum, 5);
    reveal_with_fuel(varint_len, 3);
    field_sizes_grow(1, key_len as nat, key_len as nat);
    field_sizes_grow(2, schema_binding_len as nat, schema_binding_len as nat);
    field_sizes_grow(3, covered_values_len as nat, covered_values_len as nat);
    field_sizes_grow(4, partition_key_len as nat, partition_key_len as nat);
    if size_sum(0, fields) is Ok {
        assert(fields[0] is Ok);
        assert(fields[1] is Ok);
        assert(fields[2] is Ok);
        assert(fields[3] is Ok);
    }
}

/// The length of a final index epoch.
pub open spec fn index_epoch_size(value: IndexEpochMeasure) -> nat {
    bytes_field_in_message(1, value.partition_key_len as nat)
        + varint_field_in_message(2, value.index_id as nat)
        + delimited_field_size(3, value.schema_binding_len as nat)
        + varint_field_in_message(4, value.epoch as nat)
}

/// A reserved index epoch covers the final one.
pub proof fn index_epoch_reservation_covers(value: IndexEpochMeasure)
    ensures
        size_sum(0, index_epoch_charge_fields(value)) is Ok ==> index_epoch_size(value) <= size_sum(
            0,
            index_epoch_charge_fields(value),
        )->Ok_0,
{
    let fields = index_epoch_charge_fields(value);
    size_sum_is_the_plain_sum(0, fields);
    reveal_with_fuel(plain_sum, 5);
    reveal_with_fuel(varint_len, 3);
    field_sizes_grow(1, value.partition_key_len as nat, value.partition_key_len as nat);
    field_sizes_grow(2, value.index_id as nat, value.index_id as nat);
    varint_len_of_words((value.index_id as nat) as u64);
    field_sizes_grow(3, value.schema_binding_len as nat, value.schema_binding_len as nat);
    field_sizes_grow(4, value.epoch as nat, value.epoch as nat);
    varint_len_of_words((value.epoch as nat) as u64);
    if size_sum(0, fields) is Ok {
        assert(fields[0] is Ok);
        assert(fields[1] is Ok);
        assert(fields[2] is Ok);
        assert(fields[3] is Ok);
    }
}

/// The length of the final fields of an outcome that occur once.
pub open spec fn outcome_fixed_size(
    measure: &CommandMeasure,
    declared_outcome_final: nat,
    sequence: u64,
    code: u64,
) -> nat {
    delimited_field_size(1, measure.identity_len as nat)
        + varint_field_in_message(2, sequence as nat)
        + bytes_field_in_message(3, SIZING_IDENTIFIER_BYTES as nat)
        + delimited_field_size(4, measure.plan_len as nat)
        + bytes_field_in_message(5, SIZING_HASH_BYTES as nat)
        + delimited_field_size(6, measure.actor_len as nat)
        + delimited_field_size(7, measure.logical_time_len as nat)
        + bytes_field_in_message(8, SIZING_HASH_BYTES as nat)
        + delimited_field_size(10, declared_outcome_final)
        + delimited_field_size(11, measure.claims_len as nat)
        + bytes_field_in_message(12, SIZING_IDENTIFIER_BYTES as nat)
        + varint_field_in_message(13, code as nat)
        + bytes_field_in_message(14, measure.partition_key_len as nat)
}

/// The reserved fields of an outcome that occur once cover the final ones.
pub proof fn outcome_fixed_reservation_covers(
    measure: &CommandMeasure,
    declared_outcome_len: usize,
    declared_outcome_final: nat,
    sequence: u64,
    code: u64,
)
    requires
        code < 128,
        declared_outcome_final <= declared_outcome_len,
    ensures
        size_sum(0, outcome_charge_fields(measure, declared_outcome_len)) is Ok
            ==> outcome_fixed_size(measure, declared_outcome_final, sequence, code) <= size_sum(
            0,
            outcome_charge_fields(measure, declared_outcome_len),
        )->Ok_0,
{
    let fields = outcome_charge_fields(measure, declared_outcome_len);
    size_sum_is_the_plain_sum(0, fields);
    reveal_with_fuel(plain_sum, 14);
    reveal_with_fuel(varint_len, 3);
    field_sizes_grow(1, measure.identity_len as nat, measure.identity_len as nat);
    field_sizes_grow(2, sequence as nat, MAXIMUM_WIDTH_U64 as nat);
    varint_len_of_words((MAXIMUM_WIDTH_U64 as nat) as u64);
    field_sizes_grow(3, SIZING_IDENTIFIER_BYTES as nat, SIZING_IDENTIFIER_BYTES as nat);
    field_sizes_grow(4, measure.plan_len as nat, measure.plan_len as nat);
    field_sizes_grow(5, SIZING_HASH_BYTES as nat, SIZING_HASH_BYTES as nat);
    field_sizes_grow(6, measure.actor_len as nat, measure.actor_len as nat);
    field_sizes_grow(7, measure.logical_time_len as nat, measure.logical_time_len as nat);
    field_sizes_grow(8, SIZING_HASH_BYTES as nat, SIZING_HASH_BYTES as nat);
    field_sizes_grow(10, declared_outcome_final, declared_outcome_len as nat);
    field_sizes_grow(11, measure.claims_len as nat, measure.claims_len as nat);
    field_sizes_grow(12, SIZING_IDENTIFIER_BYTES as nat, SIZING_IDENTIFIER_BYTES as nat);
    field_sizes_grow(13, code as nat, 127);
    varint_len_of_words((127) as u64);
    field_sizes_grow(14, measure.partition_key_len as nat, measure.partition_key_len as nat);
    if size_sum(0, fields) is Ok {
        assert(fields[0] is Ok);
        assert(fields[1] is Ok);
        assert(fields[2] is Ok);
        assert(fields[3] is Ok);
        assert(fields[4] is Ok);
        assert(fields[5] is Ok);
        assert(fields[6] is Ok);
        assert(fields[7] is Ok);
        assert(fields[8] is Ok);
        assert(fields[9] is Ok);
        assert(fields[10] is Ok);
        assert(fields[11] is Ok);
        assert(fields[12] is Ok);
    }
}

/// The length of the final fields of a provenance record that occur once.
pub open spec fn provenance_fixed_size(measure: &CommandMeasure, sequence: u64, code: u64) -> nat {
    bytes_field_in_message(1, SIZING_IDENTIFIER_BYTES as nat)
        + varint_field_in_message(2, sequence as nat)
        + delimited_field_size(3, measure.identity_len as nat)
        + bytes_field_in_message(4, SIZING_IDENTIFIER_BYTES as nat)
        + delimited_field_size(5, measure.plan_len as nat)
        + bytes_field_in_message(6, SIZING_HASH_BYTES as nat)
        + delimited_field_size(7, measure.actor_len as nat)
        + delimited_field_size(8, measure.logical_time_len as nat)
        + bytes_field_in_message(9, SIZING_HASH_BYTES as nat)
        + varint_field_in_message(11, code as nat)
        + delimited_field_size(14, measure.claims_len as nat)
}

/// The reserved fields of a provenance record that occur once cover the final ones.
pub proof fn provenance_fixed_reservation_covers(measure: &CommandMeasure, sequence: u64, code: u64)
    requires
        code < 128,
    ensures
        size_sum(0, provenance_charge_fields(measure)) is Ok
            ==> provenance_fixed_size(measure, sequence, code) <= size_sum(
            0,
            provenance_charge_fields(measure),
        )->Ok_0,
{
    let fields = provenance_charge_fields(measure);
    size_sum_is_the_plain_sum(0, fields);
    reveal_with_fuel(plain_sum, 12);
    reveal_with_fuel(varint_len, 3);
    field_sizes_grow(1, SIZING_IDENTIFIER_BYTES as nat, SIZING_IDENTIFIER_BYTES as nat);
    field_sizes_grow(2, sequence as nat, MAXIMUM_WIDTH_U64 as nat);
    varint_len_of_words((MAXIMUM_WIDTH_U64 as nat) as u64);
    field_sizes_grow(3, measure.identity_len as nat, measure.identity_len as nat);
    field_sizes_grow(4, SIZING_IDENTIFIER_BYTES as nat, SIZING_IDENTIFIER_BYTES as nat);
    field_sizes_grow(5, measure.plan_len as nat, measure.plan_len as nat);
    field_sizes_grow(6, SIZING_HASH_BYTES as nat, SIZING_HASH_BYTES as nat);
    field_sizes_grow(7, measure.actor_len as nat, measure.actor_len as nat);
    field_sizes_grow(8, measure.logical_time_len as nat, measure.logical_time_len as nat);
    field_sizes_grow(9, SIZING_HASH_BYTES as nat, SIZING_HASH_BYTES as nat);
    field_sizes_grow(11, code as nat, 127);
    varint_len_of_words((127) as u64);
    field_sizes_grow(14, measure.claims_len as nat, measure.claims_len as nat);
    if size_sum(0, fields) is Ok {
        assert(fields[0] is Ok);
        assert(fields[1] is Ok);
        assert(fields[2] is Ok);
        assert(fields[3] is Ok);
        assert(fields[4] is Ok);
        assert(fields[5] is Ok);
        assert(fields[6] is Ok);
        assert(fields[7] is Ok);
        assert(fields[8] is Ok);
        assert(fields[9] is Ok);
        assert(fields[10] is Ok);
    }
}

/// The length of the final fields of a commit record that occur once.
pub open spec fn commit_fixed_size(
    measure: &CommandMeasure,
    read_dependencies_len: usize,
    declared_outcome_final: nat,
    sequence: u64,
    code: u64,
) -> nat {
    varint_field_in_message(1, sequence as nat)
        + bytes_field_in_message(2, SIZING_IDENTIFIER_BYTES as nat)
        + delimited_field_size(3, measure.plan_len as nat)
        + bytes_field_in_message(4, SIZING_HASH_BYTES as nat)
        + delimited_field_size(5, measure.actor_len as nat)
        + delimited_field_size(6, measure.logical_time_len as nat)
        + bytes_field_in_message(7, SIZING_HASH_BYTES as nat)
        + delimited_field_size(9, read_dependencies_len as nat)
        + delimited_field_size(12, declared_outcome_final)
        + bytes_field_in_message(13, SIZING_IDENTIFIER_BYTES as nat)
        + varint_field_in_message(15, code as nat)
}

/// The reserved fields of a commit record that occur once cover the final ones.
pub proof fn commit_fixed_reservation_covers(
    measure: &CommandMeasure,
    declared_outcome_len: usize,
    read_dependencies_len: usize,
    declared_outcome_final: nat,
    sequence: u64,
    code: u64,
)
    requires
        code < 128,
        declared_outcome_final <= declared_outcome_len,
    ensures
        size_sum(0,
            commit_charge_fields(measure, declared_outcome_len, read_dependencies_len)) is Ok
                ==> commit_fixed_size(measure, read_dependencies_len, declared_outcome_final,
                    sequence, code) <= size_sum(
            0,
            commit_charge_fields(measure, declared_outcome_len, read_dependencies_len),
        )->Ok_0,
{
    let fields = commit_charge_fields(measure, declared_outcome_len, read_dependencies_len);
    size_sum_is_the_plain_sum(0, fields);
    reveal_with_fuel(plain_sum, 12);
    reveal_with_fuel(varint_len, 3);
    field_sizes_grow(1, sequence as nat, MAXIMUM_WIDTH_U64 as nat);
    varint_len_of_words((MAXIMUM_WIDTH_U64 as nat) as u64);
    field_sizes_grow(2, SIZING_IDENTIFIER_BYTES as nat, SIZING_IDENTIFIER_BYTES as nat);
    field_sizes_grow(3, measure.plan_len as nat, measure.plan_len as nat);
    field_sizes_grow(4, SIZING_HASH_BYTES as nat, SIZING_HASH_BYTES as nat);
    field_sizes_grow(5, measure.actor_len as nat, measure.actor_len as nat);
    field_sizes_grow(6, measure.logical_time_len as nat, measure.logical_time_len as nat);
    field_sizes_grow(7, SIZING_HASH_BYTES as nat, SIZING_HASH_BYTES as nat);
    field_sizes_grow(9, read_dependencies_len as nat, read_dependencies_len as nat);
    field_sizes_grow(12, declared_outcome_final, declared_outcome_len as nat);
    field_sizes_grow(13, SIZING_IDENTIFIER_BYTES as nat, SIZING_IDENTIFIER_BYTES as nat);
    field_sizes_grow(15, code as nat, 127);
    varint_len_of_words((127) as u64);
    if size_sum(0, fields) is Ok {
        assert(fields[0] is Ok);
        assert(fields[1] is Ok);
        assert(fields[2] is Ok);
        assert(fields[3] is Ok);
        assert(fields[4] is Ok);
        assert(fields[5] is Ok);
        assert(fields[6] is Ok);
        assert(fields[7] is Ok);
        assert(fields[8] is Ok);
        assert(fields[9] is Ok);
        assert(fields[10] is Ok);
    }
}

/// The lengths of the final conflict hashes.
pub open spec fn conflict_sizes(count: nat) -> Seq<nat> {
    Seq::new(count, |_i: int| SIZING_HASH_BYTES as nat)
}

/// The lengths of the final event identities of a command.
pub open spec fn event_id_sizes(events: Seq<EventMeasure>, sequence: u64) -> Seq<nat> {
    Seq::new(events.len(), |i: int| event_id_size(sequence, i as u32))
}

/// The lengths of the final event references of a command.
pub open spec fn event_reference_sizes(events: Seq<EventMeasure>, sequence: u64) -> Seq<nat> {
    Seq::new(events.len(), |i: int| event_reference_size(sequence, i as u32))
}

/// The lengths of the final affected entities of a command.
pub open spec fn affected_sizes(mutations: Seq<MutationMeasure>, versions: Seq<u64>) -> Seq<nat> {
    Seq::new(mutations.len(), |i: int| affected_size(mutations[i].target_len, versions[i]))
}

/// The lengths of the final entity references of a command.
pub open spec fn entity_reference_sizes(
    mutations: Seq<MutationMeasure>,
    versions: Seq<u64>,
) -> Seq<nat> {
    Seq::new(mutations.len(), |i: int| entity_reference_size(mutations[i].target_len, versions[i]))
}

/// The length of a final record that wraps its predecessor and the causation.
pub open spec fn successor_size(base: nat, causation_len: Option<usize>) -> nat {
    delimited_field_size(1, base) + match causation_len {
        Some(len) => delimited_field_size(2, len as nat),
        None => 0,
    }
}

/// A reserved wrapper covers the final one.
pub proof fn successor_reservation_covers(base: nat, base_len: usize, causation_len: Option<usize>)
    requires
        base <= base_len,
        successor_charge(base_len, causation_len) is Ok,
    ensures
        successor_size(base, causation_len) <= successor_charge(base_len, causation_len)->Ok_0,
{
    field_sizes_grow(1, base, base_len as nat);
}

/// The length of a final terminal outcome.
pub open spec fn outcome_size(
    measure: &CommandMeasure,
    service_values_len: usize,
    sequence: u64,
    code: u64,
) -> nat {
    let declared = declared_outcome_size(measure.outcome_id, measure.outcome_value_len);
    let base = outcome_fixed_size(measure, declared, sequence, code) + repeated_field_size(
        9,
        conflict_sizes(measure.conflict_hashes as nat),
    );
    delimited_field_size(1, successor_size(base, measure.causation_len)) + bytes_field_in_message(
        2,
        service_values_len as nat,
    )
}

/// A reserved outcome covers the final one at whatever sequence and in whatever
/// durability mode it is written.
pub proof fn outcome_reservation_covers(
    measure: &CommandMeasure,
    declared_outcome_len: usize,
    sequence: u64,
    code: u64,
)
    requires
        code < 128,
        size_sum(
            0,
            declared_outcome_charge_fields(measure.outcome_id, measure.outcome_value_len),
        ) == Ok::<usize, crate::codec::error::DurableCodecError>(declared_outcome_len),
        outcome_charge(measure, declared_outcome_len) is Ok,
    ensures
        outcome_size(measure, measure.service_values_len->Some_0, sequence, code)
            <= outcome_charge(measure, declared_outcome_len)->Ok_0,
{
    let declared = declared_outcome_size(measure.outcome_id, measure.outcome_value_len);
    declared_outcome_reservation_covers(measure.outcome_id, measure.outcome_value_len);
    outcome_fixed_reservation_covers(measure, declared_outcome_len, declared, sequence, code);
    let fixed = size_sum(0, outcome_charge_fields(measure, declared_outcome_len))->Ok_0;
    let hashes = conflict_charges(measure.conflict_hashes);
    repeated_sum_dominates(fixed, 9, hashes, conflict_sizes(measure.conflict_hashes as nat));
    let base_len = repeated_sum(fixed, 9, hashes)->Ok_0;
    let base = outcome_fixed_size(measure, declared, sequence, code) + repeated_field_size(
        9,
        conflict_sizes(measure.conflict_hashes as nat),
    );
    successor_reservation_covers(base, base_len, measure.causation_len);
    let successor = successor_charge(base_len, measure.causation_len)->Ok_0;
    let service_values_len = measure.service_values_len->Some_0;
    let fields = seq![delimited_field(1, successor), delimited_field(2, service_values_len)];
    size_sum_is_the_plain_sum(0, fields);
    reveal_with_fuel(plain_sum, 3);
    assert(fields[0] is Ok);
    assert(fields[1] is Ok);
    field_sizes_grow(1, successor_size(base, measure.causation_len), successor as nat);
    field_sizes_grow(2, service_values_len as nat, service_values_len as nat);
}

proof fn event_ids_are_covered(events: Seq<EventMeasure>, sequence: u64)
    ensures
        forall|i: int|
            0 <= i < events.len() && (#[trigger] event_id_charges(events)[i]) is Ok
                ==> event_id_sizes(events, sequence)[i] <= event_id_charges(events)[i]->Ok_0,
{
    assert forall|i: int|
        0 <= i < events.len() && (#[trigger] event_id_charges(events)[i]) is Ok implies
        event_id_sizes(events, sequence)[i] <= event_id_charges(events)[i]->Ok_0 by {
        event_id_reservation_covers(sequence, i as u32);
    }
}

proof fn event_references_are_covered(events: Seq<EventMeasure>, sequence: u64)
    ensures
        forall|i: int|
            0 <= i < events.len() && (#[trigger] event_reference_charges(events)[i]) is Ok
                ==> event_reference_sizes(events, sequence)[i] <= event_reference_charges(
                events,
            )[i]->Ok_0,
{
    assert forall|i: int|
        0 <= i < events.len() && (#[trigger] event_reference_charges(events)[i]) is Ok implies
        event_reference_sizes(events, sequence)[i] <= event_reference_charges(
        events,
    )[i]->Ok_0 by {
        event_reference_reservation_covers(sequence, i as u32);
    }
}

proof fn entities_are_covered(mutations: Seq<MutationMeasure>, versions: Seq<u64>)
    requires
        versions.len() == mutations.len(),
    ensures
        forall|i: int|
            0 <= i < mutations.len() && (#[trigger] affected_charges(mutations)[i]) is Ok
                ==> affected_sizes(mutations, versions)[i] <= affected_charges(
                mutations,
            )[i]->Ok_0,
        forall|i: int|
            0 <= i < mutations.len() && (#[trigger] entity_reference_charges(mutations)[i]) is Ok
                ==> entity_reference_sizes(mutations, versions)[i] <= entity_reference_charges(
                mutations,
            )[i]->Ok_0,
{
    assert forall|i: int|
        0 <= i < mutations.len() && (#[trigger] affected_charges(mutations)[i]) is Ok implies
        affected_sizes(mutations, versions)[i] <= affected_charges(mutations)[i]->Ok_0 by {
        affected_reservation_covers(mutations[i].target_len, versions[i]);
    }
    assert forall|i: int|
        0 <= i < mutations.len()
            && (#[trigger] entity_reference_charges(mutations)[i]) is Ok implies
        entity_reference_sizes(mutations, versions)[i] <= entity_reference_charges(
        mutations,
    )[i]->Ok_0 by {
        entity_reference_reservation_covers(mutations[i].target_len, versions[i]);
    }
}

/// The length of a final provenance record.
pub open spec fn provenance_size(
    measure: &CommandMeasure,
    versions: Seq<u64>,
    sequence: u64,
    code: u64,
) -> nat {
    successor_size(
        provenance_fixed_size(measure, sequence, code) + repeated_field_size(
            10,
            conflict_sizes(measure.conflict_hashes as nat),
        ) + repeated_field_size(12, affected_sizes(measure.mutations@, versions))
            + repeated_field_size(13, event_id_sizes(measure.events@, sequence)),
        measure.causation_len,
    )
}

/// A reserved provenance record covers the final one at whatever sequence and
/// with whatever entity versions it is written.
pub proof fn provenance_reservation_covers(
    measure: &CommandMeasure,
    versions: Seq<u64>,
    sequence: u64,
    code: u64,
)
    requires
        code < 128,
        versions.len() == measure.mutations@.len(),
        provenance_charge(measure) is Ok,
    ensures
        provenance_size(measure, versions, sequence, code) <= provenance_charge(measure)->Ok_0,
{
    provenance_fixed_reservation_covers(measure, sequence, code);
    event_ids_are_covered(measure.events@, sequence);
    entities_are_covered(measure.mutations@, versions);
    let fixed = size_sum(0, provenance_charge_fields(measure))->Ok_0;
    let hashes = conflict_charges(measure.conflict_hashes);
    repeated_sum_dominates(fixed, 10, hashes, conflict_sizes(measure.conflict_hashes as nat));
    let first = repeated_sum(fixed, 10, hashes)->Ok_0;
    repeated_sum_dominates(
        first,
        12,
        affected_charges(measure.mutations@),
        affected_sizes(measure.mutations@, versions),
    );
    let second = repeated_sum(first, 12, affected_charges(measure.mutations@))->Ok_0;
    repeated_sum_dominates(
        second,
        13,
        event_id_charges(measure.events@),
        event_id_sizes(measure.events@, sequence),
    );
    let third = repeated_sum(second, 13, event_id_charges(measure.events@))->Ok_0;
    successor_reservation_covers(
        provenance_fixed_size(measure, sequence, code) + repeated_field_size(
            10,
            conflict_sizes(measure.conflict_hashes as nat),
        ) + repeated_field_size(12, affected_sizes(measure.mutations@, versions))
            + repeated_field_size(13, event_id_sizes(measure.events@, sequence)),
        third,
        measure.causation_len,
    );
}

/// The length of a final commit record.
pub open spec fn commit_size(
    measure: &CommandMeasure,
    read_dependencies_len: usize,
    versions: Seq<u64>,
    sequence: u64,
    code: u64,
) -> nat {
    let declared = declared_outcome_size(measure.outcome_id, measure.outcome_value_len);
    commit_fixed_size(measure, read_dependencies_len, declared, sequence, code)
        + repeated_field_size(8, conflict_sizes(measure.conflict_hashes as nat))
        + repeated_field_size(10, entity_reference_sizes(measure.mutations@, versions))
        + repeated_field_size(11, event_reference_sizes(measure.events@, sequence))
        + repeated_field_size(14, event_id_sizes(measure.events@, sequence))
}

/// A reserved commit record covers the final one at whatever sequence and with
/// whatever entity versions it is written.
pub proof fn commit_reservation_covers(
    measure: &CommandMeasure,
    declared_outcome_len: usize,
    read_dependencies_len: usize,
    versions: Seq<u64>,
    sequence: u64,
    code: u64,
)
    requires
        code < 128,
        versions.len() == measure.mutations@.len(),
        size_sum(
            0,
            declared_outcome_charge_fields(measure.outcome_id, measure.outcome_value_len),
        ) == Ok::<usize, crate::codec::error::DurableCodecError>(declared_outcome_len),
        commit_charge(measure, declared_outcome_len, read_dependencies_len) is Ok,
    ensures
        commit_size(measure, read_dependencies_len, versions, sequence, code) <= commit_charge(
            measure,
            declared_outcome_len,
            read_dependencies_len,
        )->Ok_0,
{
    let declared = declared_outcome_size(measure.outcome_id, measure.outcome_value_len);
    declared_outcome_reservation_covers(measure.outcome_id, measure.outcome_value_len);
    commit_fixed_reservation_covers(
        measure,
        declared_outcome_len,
        read_dependencies_len,
        declared,
        sequence,
        code,
    );
    event_ids_are_covered(measure.events@, sequence);
    event_references_are_covered(measure.events@, sequence);
    entities_are_covered(measure.mutations@, versions);
    let fixed = size_sum(
        0,
        commit_charge_fields(measure, declared_outcome_len, read_dependencies_len),
    )->Ok_0;
    let hashes = conflict_charges(measure.conflict_hashes);
    repeated_sum_dominates(fixed, 8, hashes, conflict_sizes(measure.conflict_hashes as nat));
    let first = repeated_sum(fixed, 8, hashes)->Ok_0;
    let entities = entity_reference_charges(measure.mutations@);
    repeated_sum_dominates(
        first,
        10,
        entities,
        entity_reference_sizes(measure.mutations@, versions),
    );
    let second = repeated_sum(first, 10, entities)->Ok_0;
    let references = event_reference_charges(measure.events@);
    repeated_sum_dominates(
        second,
        11,
        references,
        event_reference_sizes(measure.events@, sequence),
    );
    let third = repeated_sum(second, 11, references)->Ok_0;
    repeated_sum_dominates(
        third,
        14,
        event_id_charges(measure.events@),
        event_id_sizes(measure.events@, sequence),
    );
}

} // verus!
