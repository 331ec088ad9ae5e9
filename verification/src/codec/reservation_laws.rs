//! What a command is reserved for, record by record and class by class.
//!
//! Every field of these records has a number below sixteen, so its key takes one byte.

use vstd::prelude::*;

use crate::codec::bounds::{
    affected_charge_fields, affected_charges, commit_charge, commit_charge_fields, conflict_charges,
    declared_outcome_charge_fields, entity_charge_fields, entity_charges,
    entity_reference_charge_fields, entity_reference_charges, event_charge_fields, event_charges,
    event_id_charge, event_id_charges, event_reference_charge_fields, event_reference_charges,
    event_route_charge_fields, event_route_charges, index_entry_charge, index_entry_charge_fields,
    index_entry_charges, index_epoch_charge_fields, index_epoch_charges, outbox_intent_charges,
    outcome_charge, outcome_charge_fields, provenance_charge, provenance_charge_fields,
    successor_charge, varint_field, CommandMeasure, EventMeasure, IndexEntryMeasure,
    IndexEpochMeasure, MutationMeasure, MAXIMUM_WIDTH_U64,
};
use crate::codec::bounds_laws::{
    commit_reservation_covers, commit_size, entity_size, event_id_size, event_reference_size,
    event_route_size, event_size, index_entry_size, index_epoch_size, outcome_reservation_covers,
    outcome_size, provenance_reservation_covers, provenance_size,
};
use crate::codec::error::{DurableCodecError, EnvelopeError};
use crate::codec::record_type::RecordType;
use crate::codec::reservation::{
    class_charge, command_reserved, command_write_set_upper_bound_with_vector_evidence_v1,
    envelopes_framed, evidence_charges, first_failure, lens_framed, payloads_of, raw_classes,
    record_charge, record_charges, single_charges, CommandEnvelopes, CommandPayloads,
    EncodedWriteSetUpperBoundResultV1, FramedLen, SingleCharges, VectorEvidenceSizing,
};
use crate::codec::sizing::{delimited_field, repeated_sum, size_sum, Size};
use crate::limits::MAX_STAGED_WRITE_BYTES;
use crate::protobuf::{delimited_field_size, varint_len, varint_len_grows, varint_len_of_words};
use crate::write_set::RawWriteClassBreakdownV1;

verus! {

/// The bytes of a field that holds a message, a text or bytes of a length: its key, the
/// length and the content.
pub open spec fn content_field(len: nat) -> nat {
    1 + varint_len(len) + len
}

/// The bytes of a field that holds an integer: its key and the digits.
pub open spec fn number_field(value: nat) -> nat {
    1 + varint_len(value)
}

/// The bytes of a sequence, a version or another integer of 64 bits at its widest.
pub open spec fn widest_field() -> nat {
    11
}

/// The bytes of a hash, of an identifier and of a one-byte code.
pub open spec fn hash_field() -> nat {
    34
}

pub open spec fn identifier_field() -> nat {
    18
}

pub open spec fn code_field() -> nat {
    2
}

/// The sum of lengths.
pub open spec fn total(lens: Seq<nat>) -> nat
    decreases lens.len(),
{
    if lens.len() == 0 {
        0
    } else {
        lens[0] + total(lens.skip(1))
    }
}

/// Whether a size is a length, which has one where it fits a word.
pub open spec fn is_len(size: Size, len: nat) -> bool {
    if len <= usize::MAX {
        size == Ok::<usize, DurableCodecError>(len as usize)
    } else {
        size is Err
    }
}

/// Whether sizes are lengths, one by one.
pub open spec fn are_lens(sizes: Seq<Size>, lens: Seq<nat>) -> bool {
    &&& sizes.len() == lens.len()
    &&& forall|i: int| 0 <= i < sizes.len() ==> is_len(#[trigger] sizes[i], lens[i])
}

/// The sum of sizes is the total of their lengths.
pub proof fn sums_are_totals(start: usize, sizes: Seq<Size>, lens: Seq<nat>)
    requires
        are_lens(sizes, lens),
    ensures
        is_len(size_sum(start, sizes), start as nat + total(lens)),
    decreases sizes.len(),
{
    if sizes.len() > 0 {
        let rest = sizes.skip(1);
        let after = lens.skip(1);
        assert forall|i: int| 0 <= i < rest.len() implies is_len(#[trigger] rest[i], after[i]) by {
            assert(rest[i] == sizes[i + 1]);
        }
        assert(is_len(sizes[0], lens[0]));
        if start + lens[0] <= usize::MAX {
            sums_are_totals((start + lens[0]) as usize, rest, after);
        }
    }
}

proof fn content_fields_are_lens(number: u32, len: usize)
    requires
        1 <= number <= 15,
    ensures
        is_len(delimited_field(number, len), content_field(len as nat)),
{
}

proof fn number_fields_are_lens(number: u32, value: u64)
    requires
        1 <= number <= 15,
    ensures
        is_len(varint_field(number, value), number_field(value as nat)),
        number_field(value as nat) <= 11,
        number_field(MAXIMUM_WIDTH_U64 as nat) == widest_field(),
{
    varint_len_of_words(value);
}

/// The fields of a list, each item behind its own key.
pub open spec fn item_fields(lens: Seq<nat>) -> Seq<nat> {
    lens.map_values(|len: nat| content_field(len))
}

proof fn repeated_fields_are_totals(start: usize, number: u32, sizes: Seq<Size>, lens: Seq<nat>)
    requires
        1 <= number <= 15,
        are_lens(sizes, lens),
    ensures
        is_len(repeated_sum(start, number, sizes), start as nat + total(item_fields(lens))),
    decreases sizes.len(),
{
    if sizes.len() > 0 {
        let rest = sizes.skip(1);
        let after = lens.skip(1);
        assert forall|i: int| 0 <= i < rest.len() implies is_len(#[trigger] rest[i], after[i]) by {
            assert(rest[i] == sizes[i + 1]);
        }
        assert(is_len(sizes[0], lens[0]));
        assert(item_fields(lens).skip(1) =~= item_fields(after));
        if lens[0] <= usize::MAX {
            content_fields_are_lens(number, lens[0] as usize);
            if start + content_field(lens[0]) <= usize::MAX {
                repeated_fields_are_totals(
                    (start + content_field(lens[0])) as usize,
                    number,
                    rest,
                    after,
                );
            }
        }
    }
}

/// The payload of an entity row at its widest.
pub open spec fn widest_entity(mutation: MutationMeasure, schema_binding_len: usize) -> nat {
    content_field(mutation.target_len as nat) + widest_field() + number_field(
        mutation.written_by_contract as nat,
    ) + content_field(schema_binding_len as nat) + content_field(mutation.fields_len as nat)
}

/// An affected entity at its widest.
pub open spec fn widest_affected(mutation: MutationMeasure) -> nat {
    content_field(mutation.target_len as nat) + widest_field()
}

/// A reference to an entity at its widest.
pub open spec fn widest_entity_reference(mutation: MutationMeasure) -> nat {
    content_field(mutation.target_len as nat) + widest_field() + hash_field()
}

/// The identity of an event at its widest.
pub open spec fn widest_event_id(place: int) -> nat {
    widest_field() + number_field(place as nat)
}

/// A reference to an event at its widest.
pub open spec fn widest_event_reference(place: int) -> nat {
    content_field(widest_event_id(place)) + hash_field()
}

/// The payload of an event at its widest.
pub open spec fn widest_event(event: EventMeasure, place: int) -> nat {
    content_field(widest_event_id(place)) + number_field(event.event_type_id as nat)
        + content_field(event.payload_len as nat) + hash_field()
}

/// The payload of an event route at its widest.
pub open spec fn widest_event_route(event: EventMeasure, place: int) -> nat {
    content_field(widest_event_id(place)) + number_field(event.event_type_id as nat) + hash_field()
}

/// The payload of an outbox intent at its widest.
pub open spec fn widest_outbox_intent(place: int) -> nat {
    content_field(widest_event_reference(place))
}

/// The payload of an index entry, where one is stored.
pub open spec fn widest_index_entry(entry: IndexEntryMeasure) -> Option<nat> {
    match entry {
        IndexEntryMeasure::Delete => None,
        IndexEntryMeasure::Put {
            key_len,
            schema_binding_len,
            covered_values_len,
            partition_key_len,
        } => Some(
            content_field(key_len as nat) + content_field(schema_binding_len as nat)
                + content_field(covered_values_len as nat) + content_field(
                partition_key_len as nat,
            ),
        ),
    }
}

/// The payload of an index epoch.
pub open spec fn widest_index_epoch(epoch: IndexEpochMeasure) -> nat {
    content_field(epoch.partition_key_len as nat) + number_field(epoch.index_id as nat)
        + content_field(epoch.schema_binding_len as nat) + number_field(epoch.epoch as nat)
}

/// A declared outcome.
pub open spec fn widest_declared_outcome(measure: &CommandMeasure) -> nat {
    number_field(measure.outcome_id as nat) + content_field(measure.outcome_value_len as nat)
}

/// A record that wraps another one and, where there is one, the causation.
pub open spec fn widest_successor(base: nat, causation_len: Option<usize>) -> nat {
    content_field(base) + match causation_len {
        Some(len) => content_field(len as nat),
        None => 0,
    }
}

/// The conflict hashes of a command.
pub open spec fn conflict_fields(measure: &CommandMeasure) -> nat {
    (measure.conflict_hashes * 34) as nat
}

/// A list with one item for each of some number of places.
pub open spec fn at_places(count: nat, len: spec_fn(int) -> nat) -> Seq<nat> {
    Seq::new(count, |i: int| len(i))
}

/// The payload of a terminal outcome at its widest.
pub open spec fn widest_outcome(measure: &CommandMeasure) -> nat {
    content_field(
        widest_successor(
            content_field(measure.identity_len as nat) + widest_field() + identifier_field()
                + content_field(measure.plan_len as nat) + hash_field() + content_field(
                measure.actor_len as nat,
            ) + content_field(measure.logical_time_len as nat) + hash_field() + content_field(
                widest_declared_outcome(measure),
            ) + content_field(measure.claims_len as nat) + identifier_field() + code_field()
                + content_field(measure.partition_key_len as nat) + conflict_fields(measure),
            measure.causation_len,
        ),
    ) + content_field(measure.service_values_len.unwrap_or(0) as nat)
}

/// The payload of a provenance record at its widest.
pub open spec fn widest_provenance(measure: &CommandMeasure) -> nat {
    widest_successor(
        identifier_field() + widest_field() + content_field(measure.identity_len as nat)
            + identifier_field() + content_field(measure.plan_len as nat) + hash_field()
            + content_field(measure.actor_len as nat) + content_field(
            measure.logical_time_len as nat,
        ) + hash_field() + code_field() + content_field(measure.claims_len as nat)
            + conflict_fields(measure) + total(
            item_fields(
                at_places(
                    measure.mutations@.len(),
                    |i: int| widest_affected(measure.mutations@[i]),
                ),
            ),
        ) + total(
            item_fields(at_places(measure.events@.len(), |i: int| widest_event_id(i))),
        ),
        measure.causation_len,
    )
}

/// The payload of a commit record at its widest.
pub open spec fn widest_commit(measure: &CommandMeasure, read_dependencies_len: usize) -> nat {
    widest_field() + identifier_field() + content_field(measure.plan_len as nat) + hash_field()
        + content_field(measure.actor_len as nat) + content_field(measure.logical_time_len as nat)
        + hash_field() + content_field(read_dependencies_len as nat) + content_field(
        widest_declared_outcome(measure),
    ) + identifier_field() + code_field() + conflict_fields(measure) + total(
        item_fields(
            at_places(
                measure.mutations@.len(),
                |i: int| widest_entity_reference(measure.mutations@[i]),
            ),
        ),
    ) + total(
        item_fields(at_places(measure.events@.len(), |i: int| widest_event_reference(i))),
    ) + total(item_fields(at_places(measure.events@.len(), |i: int| widest_event_id(i))))
}

proof fn entities_are_lens(mutations: Seq<MutationMeasure>, schema_binding_len: usize)
    ensures
        are_lens(
            entity_charges(mutations, schema_binding_len),
            at_places(mutations.len(), |i: int| widest_entity(mutations[i], schema_binding_len)),
        ),
        are_lens(
            affected_charges(mutations),
            at_places(mutations.len(), |i: int| widest_affected(mutations[i])),
        ),
        are_lens(
            entity_reference_charges(mutations),
            at_places(mutations.len(), |i: int| widest_entity_reference(mutations[i])),
        ),
{
    assert forall|i: int| 0 <= i < mutations.len() implies is_len(
        #[trigger] entity_charges(mutations, schema_binding_len)[i],
        widest_entity(mutations[i], schema_binding_len),
    ) by {
        let m = mutations[i];
        let fields = entity_charge_fields(m, schema_binding_len);
        let lens = seq![
            content_field(m.target_len as nat),
            widest_field(),
            number_field(m.written_by_contract as nat),
            content_field(schema_binding_len as nat),
            content_field(m.fields_len as nat),
        ];
        content_fields_are_lens(1, m.target_len);
        number_fields_are_lens(2, MAXIMUM_WIDTH_U64);
        number_fields_are_lens(3, m.written_by_contract);
        content_fields_are_lens(4, schema_binding_len);
        content_fields_are_lens(5, m.fields_len);
        sums_are_totals(0, fields, lens);
        reveal_with_fuel(total, 6);
    }
    assert forall|i: int| 0 <= i < mutations.len() implies is_len(
        #[trigger] affected_charges(mutations)[i],
        widest_affected(mutations[i]),
    ) by {
        let m = mutations[i];
        let fields = affected_charge_fields(m.target_len, MAXIMUM_WIDTH_U64);
        let lens = seq![content_field(m.target_len as nat), widest_field()];
        content_fields_are_lens(1, m.target_len);
        number_fields_are_lens(2, MAXIMUM_WIDTH_U64);
        sums_are_totals(0, fields, lens);
        reveal_with_fuel(total, 3);
    }
    assert forall|i: int| 0 <= i < mutations.len() implies is_len(
        #[trigger] entity_reference_charges(mutations)[i],
        widest_entity_reference(mutations[i]),
    ) by {
        let m = mutations[i];
        let fields = entity_reference_charge_fields(m.target_len);
        let lens = seq![content_field(m.target_len as nat), widest_field(), hash_field()];
        content_fields_are_lens(1, m.target_len);
        number_fields_are_lens(2, MAXIMUM_WIDTH_U64);
        content_fields_are_lens(3, 32);
        sums_are_totals(0, fields, lens);
        reveal_with_fuel(total, 4);
    }
}

proof fn event_ids_are_lens(place: u32)
    ensures
        event_id_charge(place) == widest_event_id(place as int),
        widest_event_id(place as int) <= 22,
{
    number_fields_are_lens(1, MAXIMUM_WIDTH_U64);
    number_fields_are_lens(2, place as u64);
}

proof fn events_are_lens(events: Seq<EventMeasure>)
    requires
        events.len() <= 0x1_0000_0000,
    ensures
        are_lens(event_id_charges(events), at_places(events.len(), |i: int| widest_event_id(i))),
        are_lens(
            event_reference_charges(events),
            at_places(events.len(), |i: int| widest_event_reference(i)),
        ),
        are_lens(event_charges(events),
            at_places(events.len(), |i: int| widest_event(events[i], i))),
        are_lens(
            event_route_charges(events),
            at_places(events.len(), |i: int| widest_event_route(events[i], i)),
        ),
        are_lens(
            outbox_intent_charges(event_reference_charges(events)),
            at_places(events.len(), |i: int| widest_outbox_intent(i)),
        ),
{
    assert forall|i: int| 0 <= i < events.len() implies is_len(
        #[trigger] event_id_charges(events)[i],
        widest_event_id(i),
    ) by {
        event_ids_are_lens(i as u32);
    }
    assert forall|i: int| 0 <= i < events.len() implies is_len(
        #[trigger] event_reference_charges(events)[i],
        widest_event_reference(i),
    ) by {
        one_event_reference_is_a_len(i as u32);
    }
    assert forall|i: int| 0 <= i < events.len() implies is_len(
        #[trigger] event_charges(events)[i],
        widest_event(events[i], i),
    ) by {
        event_ids_are_lens(i as u32);
        let fields = event_charge_fields(events[i], i as u32);
        let lens = seq![
            content_field(widest_event_id(i)),
            number_field(events[i].event_type_id as nat),
            content_field(events[i].payload_len as nat),
            hash_field(),
        ];
        content_fields_are_lens(1, event_id_charge(i as u32) as usize);
        number_fields_are_lens(2, events[i].event_type_id as u64);
        content_fields_are_lens(3, events[i].payload_len);
        content_fields_are_lens(4, 32);
        sums_are_totals(0, fields, lens);
        reveal_with_fuel(total, 5);
    }
    assert forall|i: int| 0 <= i < events.len() implies is_len(
        #[trigger] event_route_charges(events)[i],
        widest_event_route(events[i], i),
    ) by {
        event_ids_are_lens(i as u32);
        let fields = event_route_charge_fields(events[i].event_type_id, i as u32);
        let lens = seq![
            content_field(widest_event_id(i)),
            number_field(events[i].event_type_id as nat),
            hash_field(),
        ];
        content_fields_are_lens(1, event_id_charge(i as u32) as usize);
        number_fields_are_lens(2, events[i].event_type_id as u64);
        content_fields_are_lens(3, 32);
        sums_are_totals(0, fields, lens);
        reveal_with_fuel(total, 4);
    }
    assert forall|i: int| 0 <= i < events.len() implies is_len(
        #[trigger] outbox_intent_charges(event_reference_charges(events))[i],
        widest_outbox_intent(i),
    ) by {
        one_event_reference_is_a_len(i as u32);
        assert(event_reference_charges(events)[i] == size_sum(
            0,
            event_reference_charge_fields(i as u32),
        ));
        content_fields_are_lens(1, widest_event_reference(i) as usize);
    }
}

proof fn one_event_reference_is_a_len(place: u32)
    ensures
        is_len(
            size_sum(0, event_reference_charge_fields(place)),
            widest_event_reference(place as int),
        ),
        widest_event_reference(place as int) <= 60,
{
    event_ids_are_lens(place);
    let fields = event_reference_charge_fields(place);
    let lens = seq![content_field(widest_event_id(place as int)), hash_field()];
    content_fields_are_lens(1, event_id_charge(place) as usize);
    content_fields_are_lens(2, 32);
    sums_are_totals(0, fields, lens);
    reveal_with_fuel(total, 3);
}

proof fn index_epochs_are_lens(epochs: Seq<IndexEpochMeasure>)
    ensures
        are_lens(
            index_epoch_charges(epochs),
            at_places(epochs.len(), |i: int| widest_index_epoch(epochs[i])),
        ),
{
    assert forall|i: int| 0 <= i < epochs.len() implies is_len(
        #[trigger] index_epoch_charges(epochs)[i],
        widest_index_epoch(epochs[i]),
    ) by {
        let e = epochs[i];
        let fields = index_epoch_charge_fields(e);
        let lens = seq![
            content_field(e.partition_key_len as nat),
            number_field(e.index_id as nat),
            content_field(e.schema_binding_len as nat),
            number_field(e.epoch as nat),
        ];
        content_fields_are_lens(1, e.partition_key_len);
        number_fields_are_lens(2, e.index_id as u64);
        content_fields_are_lens(3, e.schema_binding_len);
        number_fields_are_lens(4, e.epoch);
        sums_are_totals(0, fields, lens);
        reveal_with_fuel(total, 5);
    }
}

/// The payloads of the index entries that are stored, in order.
pub open spec fn stored_entries(entries: Seq<IndexEntryMeasure>) -> Seq<nat>
    decreases entries.len(),
{
    if entries.len() == 0 {
        Seq::empty()
    } else {
        match widest_index_entry(entries.last()) {
            Some(len) => stored_entries(entries.drop_last()).push(len),
            None => stored_entries(entries.drop_last()),
        }
    }
}

proof fn index_entries_are_lens(entries: Seq<IndexEntryMeasure>)
    ensures
        are_lens(index_entry_charges(entries), stored_entries(entries)),
    decreases entries.len(),
{
    if entries.len() > 0 {
        index_entries_are_lens(entries.drop_last());
        if let IndexEntryMeasure::Put {
            key_len,
            schema_binding_len,
            covered_values_len,
            partition_key_len,
        } = entries.last() {
            let fields = index_entry_charge_fields(
                key_len,
                schema_binding_len,
                covered_values_len,
                partition_key_len,
            );
            let lens = seq![
                content_field(key_len as nat),
                content_field(schema_binding_len as nat),
                content_field(covered_values_len as nat),
                content_field(partition_key_len as nat),
            ];
            content_fields_are_lens(1, key_len);
            content_fields_are_lens(2, schema_binding_len);
            content_fields_are_lens(3, covered_values_len);
            content_fields_are_lens(4, partition_key_len);
            sums_are_totals(0, fields, lens);
            reveal_with_fuel(total, 5);
            assert(index_entry_charge(entries.last()) == Some(size_sum(0, fields)));
        }
    }
}

proof fn hash_fields_add_up(count: nat)
    ensures
        total(Seq::new(count, |_i: int| 34nat)) == count * 34,
    decreases count,
{
    let all = Seq::new(count, |_i: int| 34nat);
    if count > 0 {
        hash_fields_add_up((count - 1) as nat);
        assert(all.skip(1) =~= Seq::new((count - 1) as nat, |_i: int| 34nat));
    }
}

proof fn conflicts_are_lens(start: usize, number: u32, measure: &CommandMeasure)
    requires
        1 <= number <= 15,
    ensures
        is_len(
            repeated_sum(start, number, conflict_charges(measure.conflict_hashes)),
            start as nat + conflict_fields(measure),
        ),
{
    let count = measure.conflict_hashes as nat;
    let lens = Seq::new(count, |_i: int| 32nat);
    repeated_fields_are_totals(start, number, conflict_charges(measure.conflict_hashes), lens);
    hash_fields_add_up(count);
    assert(item_fields(lens) =~= Seq::new(count, |_i: int| 34nat));
}

proof fn declared_outcomes_are_lens(measure: &CommandMeasure)
    ensures
        is_len(
            size_sum(
                0,
                declared_outcome_charge_fields(measure.outcome_id, measure.outcome_value_len),
            ),
            widest_declared_outcome(measure),
        ),
{
    let fields = declared_outcome_charge_fields(measure.outcome_id, measure.outcome_value_len);
    let lens = seq![
        number_field(measure.outcome_id as nat),
        content_field(measure.outcome_value_len as nat),
    ];
    number_fields_are_lens(1, measure.outcome_id as u64);
    content_fields_are_lens(2, measure.outcome_value_len);
    sums_are_totals(0, fields, lens);
    reveal_with_fuel(total, 3);
}

proof fn successors_are_lens(base: usize, causation_len: Option<usize>)
    ensures
        is_len(successor_charge(base, causation_len), widest_successor(base as nat, causation_len)),
{
    content_fields_are_lens(1, base);
    if let Some(len) = causation_len {
        content_fields_are_lens(2, len);
    }
}

proof fn single_outcome_fields_are_lens(measure: &CommandMeasure, declared: usize)
    ensures
        is_len(
            size_sum(0, outcome_charge_fields(measure, declared)),
            content_field(measure.identity_len as nat) + widest_field() + identifier_field()
                + content_field(measure.plan_len as nat) + hash_field()
                + content_field(measure.actor_len as nat)
                + content_field(measure.logical_time_len as nat) + hash_field()
                + content_field(declared as nat) + content_field(measure.claims_len as nat)
                + identifier_field() + code_field()
                + content_field(measure.partition_key_len as nat),
        ),
{
    let fields = outcome_charge_fields(measure, declared);
    let lens = seq![
        content_field(measure.identity_len as nat),
        widest_field(),
        identifier_field(),
        content_field(measure.plan_len as nat),
        hash_field(),
        content_field(measure.actor_len as nat),
        content_field(measure.logical_time_len as nat),
        hash_field(),
        content_field(declared as nat),
        content_field(measure.claims_len as nat),
        identifier_field(),
        code_field(),
        content_field(measure.partition_key_len as nat),
    ];
    content_fields_are_lens(1, measure.identity_len);
    number_fields_are_lens(2, MAXIMUM_WIDTH_U64);
    content_fields_are_lens(3, 16);
    content_fields_are_lens(4, measure.plan_len);
    content_fields_are_lens(5, 32);
    content_fields_are_lens(6, measure.actor_len);
    content_fields_are_lens(7, measure.logical_time_len);
    content_fields_are_lens(8, 32);
    content_fields_are_lens(10, declared);
    content_fields_are_lens(11, measure.claims_len);
    content_fields_are_lens(12, 16);
    number_fields_are_lens(13, 1);
    content_fields_are_lens(14, measure.partition_key_len);
    assert(are_lens(fields, lens));
    sums_are_totals(0, fields, lens);
    reveal_with_fuel(total, 14);
}

proof fn outcomes_are_lens(measure: &CommandMeasure, declared: usize)
    requires
        declared == widest_declared_outcome(measure),
        measure.service_values_len is Some,
    ensures
        is_len(outcome_charge(measure, declared), widest_outcome(measure)),
{
    single_outcome_fields_are_lens(measure, declared);
    let once: nat = content_field(measure.identity_len as nat) + widest_field() + identifier_field()
        + content_field(measure.plan_len as nat) + hash_field()
        + content_field(measure.actor_len as nat) + content_field(measure.logical_time_len as nat)
        + hash_field() + content_field(declared as nat) + content_field(measure.claims_len as nat)
        + identifier_field() + code_field() + content_field(measure.partition_key_len as nat);
    if once <= usize::MAX {
        conflicts_are_lens(once as usize, 9, measure);
        let base = once + conflict_fields(measure);
        if base <= usize::MAX {
            successors_are_lens(base as usize, measure.causation_len);
            let successor = widest_successor(base, measure.causation_len);
            let service = measure.service_values_len->Some_0;
            if successor <= usize::MAX {
                let outer = seq![
                    delimited_field(1, successor as usize),
                    delimited_field(2, service),
                ];
                let outer_lens = seq![content_field(successor), content_field(service as nat)];
                content_fields_are_lens(1, successor as usize);
                content_fields_are_lens(2, service);
                assert(are_lens(outer, outer_lens));
                sums_are_totals(0, outer, outer_lens);
                assert(total(outer_lens) == outer_lens[0] + outer_lens[1]) by {
                    reveal_with_fuel(total, 3);
                }
            }
        }
    }
}

proof fn single_provenance_fields_are_lens(measure: &CommandMeasure)
    ensures
        is_len(
            size_sum(0, provenance_charge_fields(measure)),
            identifier_field() + widest_field() + content_field(measure.identity_len as nat)
                + identifier_field() + content_field(measure.plan_len as nat) + hash_field()
                + content_field(measure.actor_len as nat)
                + content_field(measure.logical_time_len as nat) + hash_field() + code_field()
                + content_field(measure.claims_len as nat),
        ),
{
    let fields = provenance_charge_fields(measure);
    let lens = seq![
        identifier_field(),
        widest_field(),
        content_field(measure.identity_len as nat),
        identifier_field(),
        content_field(measure.plan_len as nat),
        hash_field(),
        content_field(measure.actor_len as nat),
        content_field(measure.logical_time_len as nat),
        hash_field(),
        code_field(),
        content_field(measure.claims_len as nat),
    ];
    content_fields_are_lens(1, 16);
    number_fields_are_lens(2, MAXIMUM_WIDTH_U64);
    content_fields_are_lens(3, measure.identity_len);
    content_fields_are_lens(4, 16);
    content_fields_are_lens(5, measure.plan_len);
    content_fields_are_lens(6, 32);
    content_fields_are_lens(7, measure.actor_len);
    content_fields_are_lens(8, measure.logical_time_len);
    content_fields_are_lens(9, 32);
    number_fields_are_lens(11, 1);
    content_fields_are_lens(14, measure.claims_len);
    assert(are_lens(fields, lens));
    sums_are_totals(0, fields, lens);
    reveal_with_fuel(total, 12);
}

proof fn provenances_are_lens(measure: &CommandMeasure)
    requires
        measure.events@.len() <= 0x1_0000_0000,
    ensures
        is_len(provenance_charge(measure), widest_provenance(measure)),
{
    single_provenance_fields_are_lens(measure);
    let once: nat = identifier_field() + widest_field() + content_field(measure.identity_len as nat)
        + identifier_field() + content_field(measure.plan_len as nat) + hash_field()
        + content_field(measure.actor_len as nat) + content_field(measure.logical_time_len as nat)
        + hash_field() + code_field() + content_field(measure.claims_len as nat);
    entities_are_lens(measure.mutations@, measure.schema_binding_len);
    events_are_lens(measure.events@);
    let affected = at_places(
        measure.mutations@.len(),
        |i: int| widest_affected(measure.mutations@[i]),
    );
    let ids = at_places(measure.events@.len(), |i: int| widest_event_id(i));
    if once <= usize::MAX {
        conflicts_are_lens(once as usize, 10, measure);
        let first = once + conflict_fields(measure);
        if first <= usize::MAX {
            repeated_fields_are_totals(
                first as usize,
                12,
                affected_charges(measure.mutations@),
                affected,
            );
            let second = first + total(item_fields(affected));
            if second <= usize::MAX {
                repeated_fields_are_totals(
                    second as usize,
                    13,
                    event_id_charges(measure.events@),
                    ids,
                );
                let base = second + total(item_fields(ids));
                if base <= usize::MAX {
                    successors_are_lens(base as usize, measure.causation_len);
                }
            }
        }
    }
}

proof fn single_commit_fields_are_lens(
    measure: &CommandMeasure,
    declared: usize,
    dependencies: usize,
)
    ensures
        is_len(
            size_sum(0, commit_charge_fields(measure, declared, dependencies)),
            widest_field() + identifier_field() + content_field(measure.plan_len as nat)
                + hash_field() + content_field(measure.actor_len as nat)
                + content_field(measure.logical_time_len as nat) + hash_field()
                + content_field(dependencies as nat) + content_field(declared as nat)
                + identifier_field() + code_field(),
        ),
{
    let fields = commit_charge_fields(measure, declared, dependencies);
    let lens = seq![
        widest_field(),
        identifier_field(),
        content_field(measure.plan_len as nat),
        hash_field(),
        content_field(measure.actor_len as nat),
        content_field(measure.logical_time_len as nat),
        hash_field(),
        content_field(dependencies as nat),
        content_field(declared as nat),
        identifier_field(),
        code_field(),
    ];
    number_fields_are_lens(1, MAXIMUM_WIDTH_U64);
    content_fields_are_lens(2, 16);
    content_fields_are_lens(3, measure.plan_len);
    content_fields_are_lens(4, 32);
    content_fields_are_lens(5, measure.actor_len);
    content_fields_are_lens(6, measure.logical_time_len);
    content_fields_are_lens(7, 32);
    content_fields_are_lens(9, dependencies);
    content_fields_are_lens(12, declared);
    content_fields_are_lens(13, 16);
    number_fields_are_lens(15, 1);
    assert(are_lens(fields, lens));
    sums_are_totals(0, fields, lens);
    reveal_with_fuel(total, 12);
}

proof fn commits_are_lens(measure: &CommandMeasure, declared: usize, dependencies: usize)
    requires
        declared == widest_declared_outcome(measure),
        measure.events@.len() <= 0x1_0000_0000,
    ensures
        is_len(commit_charge(measure, declared, dependencies),
            widest_commit(measure, dependencies)),
{
    single_commit_fields_are_lens(measure, declared, dependencies);
    let once: nat = widest_field() + identifier_field() + content_field(measure.plan_len as nat)
        + hash_field() + content_field(measure.actor_len as nat)
        + content_field(measure.logical_time_len as nat) + hash_field()
        + content_field(dependencies as nat) + content_field(declared as nat) + identifier_field()
        + code_field();
    entities_are_lens(measure.mutations@, measure.schema_binding_len);
    events_are_lens(measure.events@);
    let references = at_places(
        measure.mutations@.len(),
        |i: int| widest_entity_reference(measure.mutations@[i]),
    );
    let events = at_places(measure.events@.len(), |i: int| widest_event_reference(i));
    let ids = at_places(measure.events@.len(), |i: int| widest_event_id(i));
    if once <= usize::MAX {
        conflicts_are_lens(once as usize, 8, measure);
        let first = once + conflict_fields(measure);
        if first <= usize::MAX {
            repeated_fields_are_totals(
                first as usize,
                10,
                entity_reference_charges(measure.mutations@),
                references,
            );
            let second = first + total(item_fields(references));
            if second <= usize::MAX {
                repeated_fields_are_totals(
                    second as usize,
                    11,
                    event_reference_charges(measure.events@),
                    events,
                );
                let third = second + total(item_fields(events));
                if third <= usize::MAX {
                    repeated_fields_are_totals(
                        third as usize,
                        14,
                        event_id_charges(measure.events@),
                        ids,
                    );
                }
            }
        }
    }
}

/// Whether the records that a command has one of can be sized: its read dependencies form a
/// record, its service values have a form, and each record fits a word.
pub open spec fn singles_fit(measure: &CommandMeasure) -> bool {
    &&& measure.read_dependencies_len matches Ok(dependencies) && widest_commit(
        measure,
        dependencies,
    ) <= usize::MAX
    &&& measure.service_values_len is Some
    &&& widest_outcome(measure) <= usize::MAX
    &&& widest_provenance(measure) <= usize::MAX
}

/// The records that a command has one of are sized wherever they fit, each at its widest.
pub proof fn single_records_are_sized_at_their_widest(measure: &CommandMeasure)
    requires
        measure.events@.len() <= 0x1_0000_0000,
    ensures
        single_charges(measure) is Ok <==> singles_fit(measure),
        single_charges(measure) matches Ok(single) ==> single.outcome == widest_outcome(measure)
            && single.provenance == widest_provenance(measure) && single.commit == widest_commit(
            measure,
            measure.read_dependencies_len->Ok_0,
        ),
{
    declared_outcomes_are_lens(measure);
    let declared = widest_declared_outcome(measure);
    if let Ok(dependencies) = measure.read_dependencies_len {
        if declared <= usize::MAX {
            if measure.service_values_len is Some {
                outcomes_are_lens(measure, declared as usize);
            } else {
                assert(outcome_charge(measure, declared as usize) is Err);
            }
            provenances_are_lens(measure);
            commits_are_lens(measure, declared as usize, dependencies);
        }
    }
}

/// The payloads of a command are those of its records, one for each, at their widest: its
/// own lengths, with sequences and versions of full width. Entities stand for mutations,
/// events, routes and intents for events, and index entries for those that are stored.
pub proof fn payloads_are_the_widest_records(
    measure: &CommandMeasure,
    index_entries: Seq<IndexEntryMeasure>,
    index_epochs: Seq<IndexEpochMeasure>,
    single: SingleCharges,
    payloads: CommandPayloads,
)
    requires
        measure.events@.len() <= 0x1_0000_0000,
        single_charges(measure) == Ok::<SingleCharges, DurableCodecError>(single),
        payloads_of(measure, index_entries, index_epochs, single, payloads),
    ensures
        is_len(payloads.allocator, widest_field()),
        are_lens(
            payloads.entities@,
            at_places(
                measure.mutations@.len(),
                |i: int| widest_entity(measure.mutations@[i], measure.schema_binding_len),
            ),
        ),
        are_lens(payloads.index_entries@, stored_entries(index_entries)),
        are_lens(
            payloads.index_epochs@,
            at_places(index_epochs.len(), |i: int| widest_index_epoch(index_epochs[i])),
        ),
        payloads.outcome == widest_outcome(measure),
        are_lens(
            payloads.events@,
            at_places(measure.events@.len(), |i: int| widest_event(measure.events@[i], i)),
        ),
        are_lens(
            payloads.event_routes@,
            at_places(measure.events@.len(), |i: int| widest_event_route(measure.events@[i], i)),
        ),
        are_lens(
            payloads.outbox_intents@,
            at_places(measure.events@.len(), |i: int| widest_outbox_intent(i)),
        ),
        payloads.provenance == widest_provenance(measure),
        measure.read_dependencies_len matches Ok(dependencies) && payloads.commit == widest_commit(
            measure,
            dependencies,
        ),
{
    single_records_are_sized_at_their_widest(measure);
    number_fields_are_lens(1, MAXIMUM_WIDTH_U64);
    entities_are_lens(measure.mutations@, measure.schema_binding_len);
    events_are_lens(measure.events@);
    index_entries_are_lens(index_entries);
    index_epochs_are_lens(index_epochs);
}

/// The payload of every entity row is at least the length of the row that is stored for its
/// mutation, in whatever version, and is that length where the version is the widest and no
/// field is left out.
pub proof fn entity_payloads_cover_their_rows(
    measure: &CommandMeasure,
    index_entries: Seq<IndexEntryMeasure>,
    index_epochs: Seq<IndexEpochMeasure>,
    single: SingleCharges,
    payloads: CommandPayloads,
    place: int,
    entity_version: u64,
)
    requires
        measure.events@.len() <= 0x1_0000_0000,
        single_charges(measure) == Ok::<SingleCharges, DurableCodecError>(single),
        payloads_of(measure, index_entries, index_epochs, single, payloads),
        0 <= place < measure.mutations@.len(),
    ensures
        payloads.entities@.len() == measure.mutations@.len(),
        ({
            let row = entity_size(
                measure.mutations@[place],
                measure.schema_binding_len,
                entity_version,
            );
            let mutation = measure.mutations@[place];
            &&& payloads.entities@[place] matches Ok(len) ==> row <= len
            &&& payloads.entities@[place] is Ok && entity_version == u64::MAX
                && mutation.written_by_contract > 0 && mutation.fields_len > 0 ==> row
                == payloads.entities@[place]->Ok_0
            &&& widest_entity(mutation, measure.schema_binding_len) <= usize::MAX
                ==> payloads.entities@[place] is Ok
        }),
{
    payloads_are_the_widest_records(measure, index_entries, index_epochs, single, payloads);
    let lens = at_places(
        measure.mutations@.len(),
        |i: int| widest_entity(measure.mutations@[i], measure.schema_binding_len),
    );
    assert(is_len(payloads.entities@[place], lens[place]));
    entity_rows_are_no_wider(measure.mutations@[place], measure.schema_binding_len, entity_version);
}

proof fn entity_rows_are_no_wider(
    mutation: MutationMeasure,
    schema_binding_len: usize,
    entity_version: u64,
)
    ensures
        entity_size(mutation, schema_binding_len, entity_version) <= widest_entity(
            mutation,
            schema_binding_len,
        ),
        entity_version == u64::MAX && mutation.written_by_contract > 0 && mutation.fields_len > 0
            ==> entity_size(mutation, schema_binding_len, entity_version) == widest_entity(
            mutation,
            schema_binding_len,
        ),
{
    varint_len_of_words(entity_version);
    varint_len_of_words(mutation.written_by_contract);
}

/// How long records become once they are framed: a number for each type and payload.
pub open spec fn frames_as<L: Fn(RecordType, usize) -> FramedLen>(
    measure_framed: L,
    framing: spec_fn(RecordType, usize) -> usize,
) -> bool {
    forall|record_type: RecordType, payload: usize, framed: FramedLen| #[trigger]
        measure_framed.ensures((record_type, payload), framed)
            ==> framed == Ok::<usize, EnvelopeError>(
            framing(record_type, payload),
        )
}

/// The framed lengths of records of one type.
pub open spec fn framed_lens(
    framing: spec_fn(RecordType, usize) -> usize,
    record_type: RecordType,
    lens: Seq<nat>,
) -> Seq<nat> {
    lens.map_values(|len: nat| framing(record_type, len as usize) as nat)
}

/// Whether every length fits a word.
pub open spec fn all_fit(lens: Seq<nat>) -> bool {
    forall|i: int| 0 <= i < lens.len() ==> #[trigger] lens[i] <= usize::MAX
}

proof fn classes_are_totals<L: Fn(RecordType, usize) -> FramedLen>(
    measure_framed: L,
    framing: spec_fn(RecordType, usize) -> usize,
    record_type: RecordType,
    payloads: Seq<Size>,
    framed: Seq<FramedLen>,
    lens: Seq<nat>,
)
    requires
        frames_as(measure_framed, framing),
        are_lens(payloads, lens),
        lens_framed(measure_framed, record_type, payloads, framed),
    ensures
        all_fit(lens) ==> is_len(
            class_charge(payloads, framed),
            total(framed_lens(framing, record_type, lens)),
        ),
        class_charge(payloads, framed) is Ok ==> all_fit(lens),
{
    let charges = record_charges(payloads, framed);
    let out = framed_lens(framing, record_type, lens);
    if all_fit(lens) {
        assert forall|i: int| 0 <= i < charges.len()
            implies is_len(#[trigger] charges[i], out[i]) by {
            assert(is_len(payloads[i], lens[i]));
            assert(lens[i] <= usize::MAX);
            let held = framed[i];
            assert(measure_framed.ensures((record_type, lens[i] as usize), held));
        }
        sums_are_totals(0, charges, out);
    }
    if class_charge(payloads, framed) is Ok {
        crate::codec::sizing::size_sum_is_the_plain_sum(0, charges);
        assert forall|i: int| 0 <= i < lens.len() implies #[trigger] lens[i] <= usize::MAX by {
            assert(is_len(payloads[i], lens[i]));
            assert(charges[i] is Ok);
        }
    }
}

/// What a change of vector evidence stores, unless it does not materialise, cannot be framed
/// or is framed as nothing.
pub open spec fn evidence_len(value: VectorEvidenceSizing) -> Option<nat> {
    match value {
        VectorEvidenceSizing::Delete => Some(0),
        VectorEvidenceSizing::Put(Ok(len)) if len > 0 => Some(len as nat),
        _ => None,
    }
}

/// What changes of vector evidence store.
pub open spec fn evidence_lens(values: Seq<VectorEvidenceSizing>) -> Seq<nat> {
    values.map_values(|value: VectorEvidenceSizing| evidence_len(value).unwrap_or(0))
}

/// Whether every change of vector evidence can be charged.
pub open spec fn evidence_is_sound(values: Seq<VectorEvidenceSizing>) -> bool {
    forall|i: int| 0 <= i < values.len() ==> evidence_len(#[trigger] values[i]) is Some
}

proof fn evidence_is_a_total(values: Seq<VectorEvidenceSizing>)
    ensures
        evidence_is_sound(values) ==> is_len(
            size_sum(0, evidence_charges(values)),
            total(evidence_lens(values)),
        ),
        size_sum(0, evidence_charges(values)) is Ok ==> evidence_is_sound(values),
{
    let charges = evidence_charges(values);
    if evidence_is_sound(values) {
        assert forall|i: int| 0 <= i < charges.len() implies is_len(
            #[trigger] charges[i],
            evidence_lens(values)[i],
        ) by {
            assert(evidence_len(values[i]) is Some);
        }
        sums_are_totals(0, charges, evidence_lens(values));
    }
    if size_sum(0, charges) is Ok {
        crate::codec::sizing::size_sum_is_the_plain_sum(0, charges);
        assert forall|i: int| 0 <= i < values.len() implies evidence_len(#[trigger] values[i])
            is Some by {
            assert(charges[i] is Ok);
        }
    }
}

/// The bytes of a command by record class.
#[verifier::ext_equal]
pub ghost struct ClassTotals {
    pub allocator: nat,
    pub entities: nat,
    pub index_entries: nat,
    pub index_epochs: nat,
    pub outcome: nat,
    pub events: nat,
    pub outbox_intents: nat,
    pub provenance: nat,
    pub commit: nat,
}

impl ClassTotals {
    /// The bytes of all classes.
    pub open spec fn all(self) -> nat {
        self.allocator + self.entities + self.index_entries + self.index_epochs + self.outcome
            + self.events + self.outbox_intents + self.provenance + self.commit
    }

    /// Whether a breakdown holds just these bytes, and nothing for a pending resolution.
    pub open spec fn is_held_by(self, raw: RawWriteClassBreakdownV1) -> bool {
        &&& raw.allocator == self.allocator
        &&& raw.pending_resolution == 0
        &&& raw.entities == self.entities
        &&& raw.index_entries == self.index_entries
        &&& raw.index_epochs == self.index_epochs
        &&& raw.outcome == self.outcome
        &&& raw.events == self.events
        &&& raw.outbox_intents == self.outbox_intents
        &&& raw.provenance == self.provenance
        &&& raw.commit == self.commit
    }
}

/// The payloads of the entity rows of a command, at their widest.
pub open spec fn entity_payloads(measure: &CommandMeasure) -> Seq<nat> {
    at_places(
        measure.mutations@.len(),
        |i: int| widest_entity(measure.mutations@[i], measure.schema_binding_len),
    )
}

/// The payloads of the events of a command, at their widest.
pub open spec fn event_payloads(measure: &CommandMeasure) -> Seq<nat> {
    at_places(measure.events@.len(), |i: int| widest_event(measure.events@[i], i))
}

/// The payloads of the event routes of a command, at their widest.
pub open spec fn route_payloads(measure: &CommandMeasure) -> Seq<nat> {
    at_places(measure.events@.len(), |i: int| widest_event_route(measure.events@[i], i))
}

/// The payloads of the outbox intents of a command, at their widest.
pub open spec fn intent_payloads(measure: &CommandMeasure) -> Seq<nat> {
    at_places(measure.events@.len(), |i: int| widest_outbox_intent(i))
}

/// The payloads of the index epochs of a command.
pub open spec fn epoch_payloads(index_epochs: Seq<IndexEpochMeasure>) -> Seq<nat> {
    at_places(index_epochs.len(), |i: int| widest_index_epoch(index_epochs[i]))
}

/// Whether every record of a command can be sized and charged.
pub open spec fn records_fit(
    measure: &CommandMeasure,
    index_entries: Seq<IndexEntryMeasure>,
    index_epochs: Seq<IndexEpochMeasure>,
    evidence: Seq<VectorEvidenceSizing>,
) -> bool {
    &&& singles_fit(measure)
    &&& all_fit(entity_payloads(measure))
    &&& all_fit(stored_entries(index_entries))
    &&& all_fit(epoch_payloads(index_epochs))
    &&& all_fit(event_payloads(measure))
    &&& all_fit(route_payloads(measure))
    &&& all_fit(intent_payloads(measure))
    &&& evidence_is_sound(evidence)
}

/// What the framed records of a command take, class by class: vector evidence counts with
/// the entities, and routes with the events.
pub open spec fn reserved_totals(
    framing: spec_fn(RecordType, usize) -> usize,
    measure: &CommandMeasure,
    index_entries: Seq<IndexEntryMeasure>,
    index_epochs: Seq<IndexEpochMeasure>,
    evidence: Seq<VectorEvidenceSizing>,
) -> ClassTotals {
    ClassTotals {
        allocator: framing(RecordType::StoredApplicationSequenceAllocatorV1, 11) as nat,
        entities: total(
            framed_lens(framing, RecordType::StoredEntityRecordV1, entity_payloads(measure)),
        ) + total(evidence_lens(evidence)),
        index_entries: total(
            framed_lens(framing, RecordType::StoredIndexEntryV2, stored_entries(index_entries)),
        ),
        index_epochs: total(
            framed_lens(framing, RecordType::StoredIndexGenerationV2, epoch_payloads(index_epochs)),
        ),
        outcome: framing(RecordType::StoredOutcomeV3, widest_outcome(measure) as usize) as nat,
        events: total(
            framed_lens(framing, RecordType::StoredDurableEventV1, event_payloads(measure)),
        ) + total(framed_lens(framing, RecordType::StoredEventRouteV1, route_payloads(measure))),
        outbox_intents: total(
            framed_lens(framing, RecordType::StoredOutboxIntentV2, intent_payloads(measure)),
        ),
        provenance: framing(
            RecordType::StoredProvenanceRecordV2,
            widest_provenance(measure) as usize,
        ) as nat,
        commit: framing(
            RecordType::StoredCommitRecordV3,
            widest_commit(measure, measure.read_dependencies_len->Ok_0) as usize,
        ) as nat,
    }
}

/// Whether a size is there, and which one it is.
spec fn holds(size: Size, len: usize) -> bool {
    size == Ok::<usize, DurableCodecError>(len)
}

proof fn raw_classes_hold_their_sizes(
    payloads: CommandPayloads,
    envelopes: CommandEnvelopes,
    evidence: Seq<VectorEvidenceSizing>,
)
    ensures
        ({
            let events = class_charge(payloads.events@, envelopes.events@);
            let routes = class_charge(payloads.event_routes@, envelopes.event_routes@);
            let allocator = record_charge(payloads.allocator, envelopes.allocator);
            let entities = class_charge(payloads.entities@, envelopes.entities@);
            let changes = size_sum(0, evidence_charges(evidence));
            let index_entries = class_charge(payloads.index_entries@, envelopes.index_entries@);
            let index_epochs = class_charge(payloads.index_epochs@, envelopes.index_epochs@);
            let outcome = record_charge(Ok(payloads.outcome), envelopes.outcome);
            let intents = class_charge(payloads.outbox_intents@, envelopes.outbox_intents@);
            let provenance = record_charge(Ok(payloads.provenance), envelopes.provenance);
            let commit = record_charge(Ok(payloads.commit), envelopes.commit);
            let raw = raw_classes(payloads, envelopes, evidence);
            &&& raw is Ok <==> {
                &&& events is Ok && routes is Ok && allocator is Ok && entities is Ok
                &&& changes is Ok && index_entries is Ok && index_epochs is Ok && outcome is Ok
                &&& intents is Ok && provenance is Ok && commit is Ok
                &&& events->Ok_0 + routes->Ok_0 <= usize::MAX
                &&& entities->Ok_0 + changes->Ok_0 <= usize::MAX
            }
            &&& raw matches Ok(classes) ==> {
                &&& holds(allocator, classes.allocator)
                &&& classes.pending_resolution == 0
                &&& classes.entities == entities->Ok_0 + changes->Ok_0
                &&& holds(index_entries, classes.index_entries)
                &&& holds(index_epochs, classes.index_epochs)
                &&& holds(outcome, classes.outcome)
                &&& classes.events == events->Ok_0 + routes->Ok_0
                &&& holds(intents, classes.outbox_intents)
                &&& holds(provenance, classes.provenance)
                &&& holds(commit, classes.commit)
            }
        }),
{
    reveal_with_fuel(first_failure, 12);
}

proof fn raw_classes_are_totals<L: Fn(RecordType, usize) -> FramedLen>(
    measure_framed: L,
    framing: spec_fn(RecordType, usize) -> usize,
    measure: &CommandMeasure,
    index_entries: Seq<IndexEntryMeasure>,
    index_epochs: Seq<IndexEpochMeasure>,
    evidence: Seq<VectorEvidenceSizing>,
    single: SingleCharges,
    payloads: CommandPayloads,
    envelopes: CommandEnvelopes,
)
    requires
        frames_as(measure_framed, framing),
        measure.events@.len() <= 0x1_0000_0000,
        single_charges(measure) == Ok::<SingleCharges, DurableCodecError>(single),
        payloads_of(measure, index_entries, index_epochs, single, payloads),
        envelopes_framed(measure_framed, payloads, envelopes),
    ensures
        ({
            let totals = reserved_totals(framing, measure, index_entries, index_epochs, evidence);
            let raw = raw_classes(payloads, envelopes, evidence);
            &&& raw is Ok ==> records_fit(measure, index_entries, index_epochs, evidence)
            &&& raw is Ok ==> totals.is_held_by(raw->Ok_0)
            &&& records_fit(measure, index_entries, index_epochs, evidence) && totals.all()
                <= usize::MAX ==> raw is Ok
        }),
{
    payloads_are_the_widest_records(measure, index_entries, index_epochs, single, payloads);
    single_records_are_sized_at_their_widest(measure);
    raw_classes_hold_their_sizes(payloads, envelopes, evidence);
    classes_are_totals(
        measure_framed,
        framing,
        RecordType::StoredEntityRecordV1,
        payloads.entities@,
        envelopes.entities@,
        entity_payloads(measure),
    );
    classes_are_totals(
        measure_framed,
        framing,
        RecordType::StoredIndexEntryV2,
        payloads.index_entries@,
        envelopes.index_entries@,
        stored_entries(index_entries),
    );
    classes_are_totals(
        measure_framed,
        framing,
        RecordType::StoredIndexGenerationV2,
        payloads.index_epochs@,
        envelopes.index_epochs@,
        epoch_payloads(index_epochs),
    );
    classes_are_totals(
        measure_framed,
        framing,
        RecordType::StoredDurableEventV1,
        payloads.events@,
        envelopes.events@,
        event_payloads(measure),
    );
    classes_are_totals(
        measure_framed,
        framing,
        RecordType::StoredEventRouteV1,
        payloads.event_routes@,
        envelopes.event_routes@,
        route_payloads(measure),
    );
    classes_are_totals(
        measure_framed,
        framing,
        RecordType::StoredOutboxIntentV2,
        payloads.outbox_intents@,
        envelopes.outbox_intents@,
        intent_payloads(measure),
    );
    evidence_is_a_total(evidence);
    assert(measure_framed.ensures(
        (RecordType::StoredApplicationSequenceAllocatorV1, 11usize),
        envelopes.allocator,
    ));
    assert(measure_framed.ensures(
        (RecordType::StoredOutcomeV3, payloads.outcome),
        envelopes.outcome,
    ));
    assert(measure_framed.ensures(
        (RecordType::StoredProvenanceRecordV2, payloads.provenance),
        envelopes.provenance,
    ));
    assert(measure_framed.ensures(
        (RecordType::StoredCommitRecordV3, payloads.commit),
        envelopes.commit,
    ));
}

/// A reservation is the bytes of the framed records of its command, each at its widest, by
/// class. It is made wherever all of them can be sized and stay within the staged write limit
/// together; beyond the limit the command is told so.
pub proof fn reservations_hold_every_record<L: Fn(RecordType, usize) -> FramedLen>(
    measure_framed: L,
    framing: spec_fn(RecordType, usize) -> usize,
    measure: &CommandMeasure,
    index_entries: Seq<IndexEntryMeasure>,
    index_epochs: Seq<IndexEpochMeasure>,
    evidence: Seq<VectorEvidenceSizing>,
    result: Result<EncodedWriteSetUpperBoundResultV1, DurableCodecError>,
)
    requires
        frames_as(measure_framed, framing),
        measure.events@.len() <= 0x1_0000_0000,
        command_reserved(
            measure_framed,
            measure,
            index_entries,
            index_epochs,
            evidence,
            result,
        ),
    ensures
        ({
            let fit = records_fit(measure, index_entries, index_epochs, evidence);
            let totals = reserved_totals(framing, measure, index_entries, index_epochs, evidence);
            &&& result matches Ok(EncodedWriteSetUpperBoundResultV1::Fits(bound)) ==> fit
                && totals.is_held_by(bound.classes.classes) && totals.all()
                <= MAX_STAGED_WRITE_BYTES
            &&& fit && totals.all() <= MAX_STAGED_WRITE_BYTES ==> (result matches Ok(held) && held
                is Fits)
            &&& fit && MAX_STAGED_WRITE_BYTES < totals.all() <= usize::MAX ==> (result matches Ok(
                held,
            ) && held is ExceedsAcceptedAggregateCap)
            &&& (result matches Ok(held) && held is ExceedsAcceptedAggregateCap) ==> fit
                && totals.all() > MAX_STAGED_WRITE_BYTES
            &&& !fit ==> result is Err
        }),
{
    single_records_are_sized_at_their_widest(measure);
    if let Ok(single) = single_charges(measure) {
        let (payloads, envelopes) = choose|payloads: CommandPayloads, envelopes: CommandEnvelopes|
            payloads_of(measure, index_entries, index_epochs, single, payloads)
                && #[trigger] envelopes_framed(measure_framed, payloads, envelopes)
                && match raw_classes(payloads, envelopes, evidence) {
                Err(error) => result == Err::<EncodedWriteSetUpperBoundResultV1, _>(error),
                Ok(raw) => crate::codec::reservation::bound_of(raw, result),
            };
        raw_classes_are_totals(
            measure_framed,
            framing,
            measure,
            index_entries,
            index_epochs,
            evidence,
            single,
            payloads,
            envelopes,
        );
    }
}

/// Whether a longer payload is never framed shorter.
pub open spec fn framing_grows(framing: spec_fn(RecordType, usize) -> usize) -> bool {
    forall|record_type: RecordType, a: usize, b: usize|
        a <= b ==> #[trigger] framing(record_type, a) <= #[trigger] framing(record_type, b)
}

proof fn framed_totals_grow(
    framing: spec_fn(RecordType, usize) -> usize,
    record_type: RecordType,
    lens: Seq<nat>,
    wider: Seq<nat>,
)
    requires
        framing_grows(framing),
        lens.len() == wider.len(),
        all_fit(wider),
        forall|i: int| 0 <= i < lens.len() ==> #[trigger] lens[i] <= wider[i],
    ensures
        total(framed_lens(framing, record_type, lens)) <= total(
            framed_lens(framing, record_type, wider),
        ),
    decreases lens.len(),
{
    if lens.len() > 0 {
        let rest = lens.skip(1);
        let after = wider.skip(1);
        assert forall|i: int| 0 <= i < rest.len() implies #[trigger] rest[i] <= after[i] by {
            assert(rest[i] == lens[i + 1]);
        }
        assert forall|i: int| 0 <= i < after.len() implies #[trigger] after[i] <= usize::MAX by {
            assert(after[i] == wider[i + 1]);
        }
        framed_totals_grow(framing, record_type, rest, after);
        assert(framed_lens(framing, record_type, lens).skip(1) =~= framed_lens(
            framing,
            record_type,
            rest,
        ));
        assert(framed_lens(framing, record_type, wider).skip(1) =~= framed_lens(
            framing,
            record_type,
            after,
        ));
        assert(lens[0] <= wider[0] && wider[0] <= usize::MAX);
    }
}

/// The lengths of the index entries that are stored, in order.
pub open spec fn final_entries(entries: Seq<IndexEntryMeasure>) -> Seq<nat>
    decreases entries.len(),
{
    if entries.len() == 0 {
        Seq::empty()
    } else {
        match entries.last() {
            IndexEntryMeasure::Delete => final_entries(entries.drop_last()),
            IndexEntryMeasure::Put {
                key_len,
                schema_binding_len,
                covered_values_len,
                partition_key_len,
            } => final_entries(entries.drop_last()).push(
                index_entry_size(key_len, schema_binding_len, covered_values_len,
                    partition_key_len),
            ),
        }
    }
}

proof fn final_entries_are_no_wider(entries: Seq<IndexEntryMeasure>)
    ensures
        final_entries(entries).len() == stored_entries(entries).len(),
        forall|i: int|
            0 <= i < final_entries(entries).len() ==> #[trigger] final_entries(entries)[i]
                <= stored_entries(entries)[i],
    decreases entries.len(),
{
    if entries.len() > 0 {
        final_entries_are_no_wider(entries.drop_last());
    }
}

/// What the final records of a command take, class by class, with the sequence, the entity
/// versions and the code that it is given.
pub open spec fn final_totals(
    framing: spec_fn(RecordType, usize) -> usize,
    measure: &CommandMeasure,
    index_entries: Seq<IndexEntryMeasure>,
    index_epochs: Seq<IndexEpochMeasure>,
    evidence: Seq<VectorEvidenceSizing>,
    versions: Seq<u64>,
    sequence: u64,
    code: u64,
) -> ClassTotals {
    let events = measure.events@;
    ClassTotals {
        allocator: framing(
            RecordType::StoredApplicationSequenceAllocatorV1,
            crate::protobuf::varint_field_in_message(1, sequence as nat) as usize,
        ) as nat,
        entities: total(
            framed_lens(
                framing,
                RecordType::StoredEntityRecordV1,
                at_places(
                    measure.mutations@.len(),
                    |i: int|
                        entity_size(
                            measure.mutations@[i],
                            measure.schema_binding_len,
                            versions[i],
                        ),
                ),
            ),
        ) + total(evidence_lens(evidence)),
        index_entries: total(
            framed_lens(framing, RecordType::StoredIndexEntryV2, final_entries(index_entries)),
        ),
        index_epochs: total(
            framed_lens(
                framing,
                RecordType::StoredIndexGenerationV2,
                at_places(index_epochs.len(), |i: int| index_epoch_size(index_epochs[i])),
            ),
        ),
        outcome: framing(
            RecordType::StoredOutcomeV3,
            outcome_size(
                measure,
                measure.service_values_len->Some_0,
                sequence,
                code,
            ) as usize,
        ) as nat,
        events: total(
            framed_lens(
                framing,
                RecordType::StoredDurableEventV1,
                at_places(events.len(), |i: int| event_size(events[i], sequence, i as u32)),
            ),
        ) + total(
            framed_lens(
                framing,
                RecordType::StoredEventRouteV1,
                at_places(
                    events.len(),
                    |i: int| event_route_size(events[i].event_type_id, sequence, i as u32),
                ),
            ),
        ),
        outbox_intents: total(
            framed_lens(
                framing,
                RecordType::StoredOutboxIntentV2,
                at_places(
                    events.len(),
                    |i: int| delimited_field_size(1, event_reference_size(sequence, i as u32)),
                ),
            ),
        ),
        provenance: framing(
            RecordType::StoredProvenanceRecordV2,
            provenance_size(measure, versions, sequence, code) as usize,
        ) as nat,
        commit: framing(
            RecordType::StoredCommitRecordV3,
            commit_size(
                measure,
                measure.read_dependencies_len->Ok_0,
                versions,
                sequence,
                code,
            ) as usize,
        ) as nat,
    }
}

/// A command never takes more than it was reserved for: whatever sequence, entity versions
/// and code it is given, the framed records that it stores stay within the reservation, class
/// by class, for a framing that never frames a longer payload shorter.
pub proof fn commands_stay_within_their_reservation<L: Fn(RecordType, usize) -> FramedLen>(
    measure_framed: L,
    framing: spec_fn(RecordType, usize) -> usize,
    measure: &CommandMeasure,
    index_entries: Seq<IndexEntryMeasure>,
    index_epochs: Seq<IndexEpochMeasure>,
    evidence: Seq<VectorEvidenceSizing>,
    result: Result<EncodedWriteSetUpperBoundResultV1, DurableCodecError>,
    versions: Seq<u64>,
    sequence: u64,
    code: u64,
)
    requires
        frames_as(measure_framed, framing),
        framing_grows(framing),
        measure.events@.len() <= 0x1_0000_0000,
        command_reserved(
            measure_framed,
            measure,
            index_entries,
            index_epochs,
            evidence,
            result,
        ),
        result matches Ok(held) && held is Fits,
        versions.len() == measure.mutations@.len(),
        code < 128,
    ensures
        ({
            let stored = final_totals(
                framing,
                measure,
                index_entries,
                index_epochs,
                evidence,
                versions,
                sequence,
                code,
            );
            let reserved = result->Ok_0->Fits_0.classes.classes;
            &&& stored.allocator <= reserved.allocator
            &&& stored.entities <= reserved.entities
            &&& stored.index_entries <= reserved.index_entries
            &&& stored.index_epochs <= reserved.index_epochs
            &&& stored.outcome <= reserved.outcome
            &&& stored.events <= reserved.events
            &&& stored.outbox_intents <= reserved.outbox_intents
            &&& stored.provenance <= reserved.provenance
            &&& stored.commit <= reserved.commit
            &&& stored.all() <= MAX_STAGED_WRITE_BYTES
        }),
{
    reservations_hold_every_record(
        measure_framed,
        framing,
        measure,
        index_entries,
        index_epochs,
        evidence,
        result,
    );
    let mutations = measure.mutations@;
    let events = measure.events@;
    let binding = measure.schema_binding_len;
    let rows = at_places(
        mutations.len(),
        |i: int| entity_size(mutations[i], binding, versions[i]),
    );
    assert forall|i: int| 0 <= i < rows.len() implies #[trigger] rows[i] <= entity_payloads(
        measure,
    )[i] by {
        entity_rows_are_no_wider(mutations[i], binding, versions[i]);
    }
    framed_totals_grow(
        framing,
        RecordType::StoredEntityRecordV1,
        rows,
        entity_payloads(measure),
    );
    final_entries_are_no_wider(index_entries);
    framed_totals_grow(
        framing,
        RecordType::StoredIndexEntryV2,
        final_entries(index_entries),
        stored_entries(index_entries),
    );
    let epochs = at_places(index_epochs.len(), |i: int| index_epoch_size(index_epochs[i]));
    framed_totals_grow(
        framing,
        RecordType::StoredIndexGenerationV2,
        epochs,
        epoch_payloads(index_epochs),
    );
    let held = at_places(events.len(), |i: int| event_size(events[i], sequence, i as u32));
    assert forall|i: int| 0 <= i < held.len() implies #[trigger] held[i] <= event_payloads(
        measure,
    )[i] by {
        event_records_are_no_wider(events[i], sequence, i as u32);
    }
    framed_totals_grow(framing, RecordType::StoredDurableEventV1, held, event_payloads(measure));
    let routes = at_places(
        events.len(),
        |i: int| event_route_size(events[i].event_type_id, sequence, i as u32),
    );
    assert forall|i: int| 0 <= i < routes.len() implies #[trigger] routes[i] <= route_payloads(
        measure,
    )[i] by {
        event_records_are_no_wider(events[i], sequence, i as u32);
    }
    framed_totals_grow(framing, RecordType::StoredEventRouteV1, routes, route_payloads(measure));
    let intents = at_places(
        events.len(),
        |i: int| delimited_field_size(1, event_reference_size(sequence, i as u32)),
    );
    assert forall|i: int| 0 <= i < intents.len() implies #[trigger] intents[i] <= intent_payloads(
        measure,
    )[i] by {
        event_records_are_no_wider(events[i], sequence, i as u32);
    }
    framed_totals_grow(framing, RecordType::StoredOutboxIntentV2, intents,
        intent_payloads(measure));
    varint_len_of_words(sequence);
    single_records_are_no_wider(measure, versions, sequence, code);
}

proof fn event_records_are_no_wider(event: EventMeasure, sequence: u64, place: u32)
    ensures
        event_size(event, sequence, place) <= widest_event(event, place as int),
        event_route_size(event.event_type_id, sequence, place) <= widest_event_route(
            event,
            place as int,
        ),
        delimited_field_size(1, event_reference_size(sequence, place)) <= widest_outbox_intent(
            place as int,
        ),
{
    varint_len_of_words(sequence);
    varint_len_of_words(place as u64);
    varint_len_of_words(event.event_type_id as u64);
    let id = event_id_size(sequence, place);
    let wide = widest_event_id(place as int);
    assert(id <= wide);
    varint_len_grows(id, wide);
    let reference = event_reference_size(sequence, place);
    let wide_reference = widest_event_reference(place as int);
    assert(reference <= wide_reference);
    varint_len_grows(reference, wide_reference);
}

proof fn single_records_are_no_wider(
    measure: &CommandMeasure,
    versions: Seq<u64>,
    sequence: u64,
    code: u64,
)
    requires
        measure.events@.len() <= 0x1_0000_0000,
        singles_fit(measure),
        versions.len() == measure.mutations@.len(),
        code < 128,
    ensures
        outcome_size(measure, measure.service_values_len->Some_0, sequence, code)
            <= widest_outcome(measure),
        provenance_size(measure, versions, sequence, code) <= widest_provenance(measure),
        commit_size(
            measure,
            measure.read_dependencies_len->Ok_0,
            versions,
            sequence,
            code,
        ) <= widest_commit(measure, measure.read_dependencies_len->Ok_0),
{
    single_records_are_sized_at_their_widest(measure);
    declared_outcomes_are_lens(measure);
    let declared = widest_declared_outcome(measure) as usize;
    let dependencies = measure.read_dependencies_len->Ok_0;
    outcome_reservation_covers(measure, declared, sequence, code);
    provenance_reservation_covers(measure, versions, sequence, code);
    commit_reservation_covers(measure, declared, dependencies, versions, sequence, code);
}

/// The reservation that a command is given holds every record of it at its widest, by
/// class, and is given wherever they all can be sized and stay within the limit together.
pub proof fn commands_are_reserved_for_every_record<L: Fn(RecordType, usize) -> FramedLen>(
    measure_framed: L,
    framing: spec_fn(RecordType, usize) -> usize,
    measure: &CommandMeasure,
    index_entries: &[IndexEntryMeasure],
    index_epochs: &[IndexEpochMeasure],
    evidence: &[VectorEvidenceSizing],
    result: Result<EncodedWriteSetUpperBoundResultV1, DurableCodecError>,
)
    requires
        frames_as(measure_framed, framing),
        measure.events@.len() <= 0x1_0000_0000,
        call_ensures(
            command_write_set_upper_bound_with_vector_evidence_v1::<L>,
            (measure, index_entries, index_epochs, evidence, measure_framed),
            result,
        ),
    ensures
        ({
            let fit = records_fit(measure, index_entries@, index_epochs@, evidence@);
            let totals = reserved_totals(
                framing,
                measure,
                index_entries@,
                index_epochs@,
                evidence@,
            );
            &&& (result matches Ok(held) && held is Fits) <==> fit && totals.all()
                <= MAX_STAGED_WRITE_BYTES
            &&& result matches Ok(EncodedWriteSetUpperBoundResultV1::Fits(bound))
                ==> totals.is_held_by(bound.classes.classes)
            &&& fit && MAX_STAGED_WRITE_BYTES < totals.all() <= usize::MAX ==> (result matches Ok(
                held,
            ) && held is ExceedsAcceptedAggregateCap)
            &&& !fit ==> result is Err
        }),
{
    reservations_hold_every_record(
        measure_framed,
        framing,
        measure,
        index_entries@,
        index_epochs@,
        evidence@,
        result,
    );
}

} // verus!
