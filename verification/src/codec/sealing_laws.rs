//! The records of a command are sealed as they were framed, and charged by class.

use vstd::prelude::*;

use crate::codec::commit::PostImageHash;
use crate::codec::envelope::{CanonicalStoredEnvelopeV1, OutgoingRecord};
use crate::codec::error::{
    value_failure, DurableCodecError, DurableCodecErrorKind, EnvelopeError, PayloadValidationError,
};
use crate::codec::record_set::{
    atomic_seal_failure, entity_framed, event_framed, event_goes_out, framed_sizes, framed_sum,
    index_entry_framed, intent_framed, intent_goes_out, list_failure, live_references,
    optional_envelope_sizes, optional_framed_sizes, optional_framed_sum, optional_list_failure,
    records_framed, route_framed, route_goes_out, seal_capsule_records, seal_command_records,
    AtomicCommandRecordSet, CommittedEntityChange, EncodedAtomicCommandRecordSetV1,
    EncodedCapsuleCommandRecordSetV1, Framed, FramedCommandRecords, OutgoingCommandRecord,
    PreparedCapsuleEnvelopesV1,
};
use crate::codec::record_type::RecordType;
use crate::codec::reservation::{both, first_failure};
use crate::codec::sizing::{plain_sum, size_sum_is_the_plain_sum};
use crate::stored::application::EntityReferenceView;
use crate::wire;
use crate::write_set::EncodedWriteSetUpperBound;

verus! {

/// Whether framing a record gave some bytes.
pub open spec fn gave_bytes(framed: Framed) -> bool {
    match framed {
        Ok(bytes) => bytes@.len() > 0,
        Err(_) => false,
    }
}

/// Whether framing a record gave some bytes, where there is one.
pub open spec fn gave_bytes_if_any(framed: Option<Framed>) -> bool {
    match framed {
        Some(framed) => gave_bytes(framed),
        None => true,
    }
}

/// What a record is reported as that gave no bytes: over a limit where it is too large,
/// and a broken promise otherwise.
pub open spec fn unsealed_kind(framed: Framed) -> DurableCodecErrorKind {
    match framed {
        Err(EnvelopeError::EnvelopeTooLarge) => DurableCodecErrorKind::LimitExceeded,
        Err(EnvelopeError::PayloadTooLarge) => DurableCodecErrorKind::LimitExceeded,
        Err(EnvelopeError::InvalidPayload(PayloadValidationError::LimitExceeded)) =>
            DurableCodecErrorKind::LimitExceeded,
        _ => DurableCodecErrorKind::InvariantViolation,
    }
}

/// The bytes that framing the first records gave.
pub open spec fn bytes_given(framed: Seq<Framed>, count: nat) -> nat
    decreases count,
{
    if count == 0 {
        0
    } else {
        bytes_given(framed, (count - 1) as nat) + match framed[count - 1] {
            Ok(bytes) => bytes@.len(),
            Err(_) => 0,
        }
    }
}

/// The bytes that framing the first records gave, where they are there.
pub open spec fn bytes_given_if_any(framed: Seq<Option<Framed>>, count: nat) -> nat
    decreases count,
{
    if count == 0 {
        0
    } else {
        bytes_given_if_any(framed, (count - 1) as nat) + match framed[count - 1] {
            Some(Ok(bytes)) => bytes@.len(),
            _ => 0,
        }
    }
}

/// The bytes of the first envelopes, where they are there.
pub open spec fn bytes_sealed(envelopes: Seq<Option<CanonicalStoredEnvelopeV1>>, count: nat) -> nat
    decreases count,
{
    if count == 0 {
        0
    } else {
        bytes_sealed(envelopes, (count - 1) as nat) + match envelopes[count - 1] {
            Some(envelope) => envelope.charge.bytes as nat,
            None => 0,
        }
    }
}

proof fn framed_sizes_are_bytes(framed: Seq<Framed>, count: nat)
    requires
        count <= framed.len(),
        forall|i: int| 0 <= i < framed.len() ==> gave_bytes(#[trigger] framed[i]),
    ensures
        plain_sum(framed_sizes(framed), count) == bytes_given(framed, count),
    decreases count,
{
    if count > 0 {
        framed_sizes_are_bytes(framed, (count - 1) as nat);
        assert(gave_bytes(framed[count - 1]));
        let bytes = framed[count - 1]->Ok_0;
        assert(bytes.len() <= usize::MAX);
    }
}

proof fn optional_framed_sizes_are_bytes(framed: Seq<Option<Framed>>, count: nat)
    requires
        count <= framed.len(),
        forall|i: int| 0 <= i < framed.len() ==> gave_bytes_if_any(#[trigger] framed[i]),
    ensures
        plain_sum(optional_framed_sizes(framed), count) == bytes_given_if_any(framed, count),
    decreases count,
{
    if count > 0 {
        optional_framed_sizes_are_bytes(framed, (count - 1) as nat);
        assert(gave_bytes_if_any(framed[count - 1]));
        if let Some(held) = framed[count - 1] {
            let bytes = held->Ok_0;
            assert(bytes.len() <= usize::MAX);
        }
    }
}

proof fn envelope_sizes_are_bytes(
    envelopes: Seq<Option<CanonicalStoredEnvelopeV1>>,
    count: nat,
)
    requires
        count <= envelopes.len(),
    ensures
        plain_sum(optional_envelope_sizes(envelopes), count) == bytes_sealed(envelopes, count),
    decreases count,
{
    if count > 0 {
        envelope_sizes_are_bytes(envelopes, (count - 1) as nat);
    }
}

proof fn framed_sum_is_their_bytes(framed: Seq<Framed>)
    requires
        forall|i: int| 0 <= i < framed.len() ==> gave_bytes(#[trigger] framed[i]),
    ensures
        framed_sum(framed) is Ok <==> bytes_given(framed, framed.len()) <= usize::MAX,
        framed_sum(framed) is Ok ==> framed_sum(framed)->Ok_0 == bytes_given(framed, framed.len()),
{
    framed_sizes_are_bytes(framed, framed.len());
    size_sum_is_the_plain_sum(0, framed_sizes(framed));
}

proof fn optional_framed_sum_is_their_bytes(framed: Seq<Option<Framed>>)
    requires
        forall|i: int| 0 <= i < framed.len() ==> gave_bytes_if_any(#[trigger] framed[i]),
    ensures
        optional_framed_sum(framed) is Ok <==> bytes_given_if_any(framed, framed.len())
            <= usize::MAX,
        optional_framed_sum(framed) is Ok ==> optional_framed_sum(framed)->Ok_0
            == bytes_given_if_any(framed, framed.len()),
{
    optional_framed_sizes_are_bytes(framed, framed.len());
    size_sum_is_the_plain_sum(0, optional_framed_sizes(framed));
    assert forall|i: int| 0 <= i < framed.len() implies (#[trigger] optional_framed_sizes(
        framed,
    )[i]) is Ok by {}
}

/// Records, each of which is there.
pub open spec fn each_there(framed: Seq<Framed>) -> Seq<Option<Framed>> {
    Seq::new(framed.len(), |i: int| Some(framed[i]))
}

/// The records of a command in the order in which they are sealed.
pub open spec fn in_sealing_order(framed: FramedCommandRecords) -> Seq<Option<Framed>> {
    seq![Some(framed.allocator)] + framed.entities@ + framed.vector_evidence@
        + framed.index_entries@ + each_there(framed.index_epochs@) + seq![Some(framed.outcome)]
        + each_there(framed.events@) + each_there(framed.event_routes@) + each_there(
        framed.outbox_intents@,
    ) + seq![Some(framed.provenance)] + seq![Some(framed.commit)]
}

proof fn failures_join(a: Seq<Option<Framed>>, b: Seq<Option<Framed>>)
    ensures
        optional_list_failure(a + b) == if optional_list_failure(a) is Some {
            optional_list_failure(a)
        } else {
            optional_list_failure(b)
        },
    decreases a.len(),
{
    if a.len() == 0 {
        assert(a + b =~= b);
    } else {
        failures_join(a.skip(1), b);
        assert((a + b).skip(1) =~= a.skip(1) + b);
        assert((a + b)[0] == a[0]);
    }
}

proof fn failures_of_each_there(framed: Seq<Framed>)
    ensures
        optional_list_failure(each_there(framed)) == list_failure(framed),
    decreases framed.len(),
{
    if framed.len() > 0 {
        failures_of_each_there(framed.skip(1));
        assert(each_there(framed).skip(1) =~= each_there(framed.skip(1)));
        assert(each_there(framed)[0] == Some(framed[0]));
    }
}

proof fn failure_of_one(framed: Framed)
    ensures
        optional_list_failure(seq![Some(framed)]) == crate::codec::record_set::seal_failure(framed),
{
    let one = seq![Some(framed)];
    assert(one.skip(1) =~= Seq::empty());
    assert(optional_list_failure(one.skip(1)) is None);
}

proof fn sealing_goes_in_order(framed: FramedCommandRecords)
    ensures
        atomic_seal_failure(framed) == optional_list_failure(in_sealing_order(framed)),
{
    let s1 = seq![Some(framed.allocator)];
    let s2 = s1 + framed.entities@;
    let s3 = s2 + framed.vector_evidence@;
    let s4 = s3 + framed.index_entries@;
    let s5 = s4 + each_there(framed.index_epochs@);
    let s6 = s5 + seq![Some(framed.outcome)];
    let s7 = s6 + each_there(framed.events@);
    let s8 = s7 + each_there(framed.event_routes@);
    let s9 = s8 + each_there(framed.outbox_intents@);
    let s10 = s9 + seq![Some(framed.provenance)];
    failure_of_one(framed.allocator);
    failure_of_one(framed.outcome);
    failure_of_one(framed.provenance);
    failure_of_one(framed.commit);
    failures_of_each_there(framed.index_epochs@);
    failures_of_each_there(framed.events@);
    failures_of_each_there(framed.event_routes@);
    failures_of_each_there(framed.outbox_intents@);
    failures_join(s1, framed.entities@);
    failures_join(s2, framed.vector_evidence@);
    failures_join(s3, framed.index_entries@);
    failures_join(s4, each_there(framed.index_epochs@));
    failures_join(s5, seq![Some(framed.outcome)]);
    failures_join(s6, each_there(framed.events@));
    failures_join(s7, each_there(framed.event_routes@));
    failures_join(s8, each_there(framed.outbox_intents@));
    failures_join(s9, seq![Some(framed.provenance)]);
    failures_join(s10, seq![Some(framed.commit)]);
}

proof fn first_unsealed_decides(framed: Seq<Option<Framed>>, k: int)
    requires
        0 <= k < framed.len(),
        forall|i: int| 0 <= i < k ==> gave_bytes_if_any(#[trigger] framed[i]),
        !gave_bytes_if_any(framed[k]),
    ensures
        optional_list_failure(framed) == Some(unsealed_kind(framed[k]->Some_0)),
    decreases framed.len(),
{
    if k > 0 {
        let rest = framed.skip(1);
        assert(gave_bytes_if_any(framed[0]));
        assert forall|i: int| 0 <= i < k - 1 implies gave_bytes_if_any(#[trigger] rest[i]) by {
            assert(rest[i] == framed[i + 1]);
        }
        first_unsealed_decides(rest, k - 1);
    }
}

proof fn all_sealed_fail_nowhere(framed: Seq<Option<Framed>>)
    requires
        forall|i: int| 0 <= i < framed.len() ==> gave_bytes_if_any(#[trigger] framed[i]),
    ensures
        optional_list_failure(framed) is None,
    decreases framed.len(),
{
    if framed.len() > 0 {
        let rest = framed.skip(1);
        assert(gave_bytes_if_any(framed[0]));
        assert forall|i: int| 0 <= i < rest.len() implies gave_bytes_if_any(
            #[trigger] rest[i],
        ) by {
            assert(rest[i] == framed[i + 1]);
        }
        all_sealed_fail_nowhere(rest);
    }
}

/// A command is refused for the first of its records, in the order in which they are
/// sealed, that gave no bytes.
pub proof fn the_first_unsealed_record_decides(
    framed: FramedCommandRecords,
    reserved: EncodedWriteSetUpperBound,
    result: Result<EncodedAtomicCommandRecordSetV1, DurableCodecError>,
    k: int,
)
    requires
        call_ensures(seal_command_records, (&framed, reserved), result),
        0 <= k < in_sealing_order(framed).len(),
        forall|i: int|
            0 <= i < k ==> gave_bytes_if_any(#[trigger] in_sealing_order(framed)[i]),
        !gave_bytes_if_any(in_sealing_order(framed)[k]),
    ensures
        result == Err::<EncodedAtomicCommandRecordSetV1, _>(
            DurableCodecError { kind: unsealed_kind(in_sealing_order(framed)[k]->Some_0) },
        ),
{
    sealing_goes_in_order(framed);
    first_unsealed_decides(in_sealing_order(framed), k);
}

/// Whether every record of a command gave some bytes.
pub open spec fn all_gave_bytes(framed: FramedCommandRecords) -> bool {
    &&& gave_bytes(framed.allocator)
    &&& forall|i: int|
        0 <= i < framed.entities@.len() ==> gave_bytes_if_any(#[trigger] framed.entities@[i])
    &&& forall|i: int|
        0 <= i < framed.vector_evidence@.len() ==> gave_bytes_if_any(
            #[trigger] framed.vector_evidence@[i],
        )
    &&& forall|i: int|
        0 <= i < framed.index_entries@.len() ==> gave_bytes_if_any(
            #[trigger] framed.index_entries@[i],
        )
    &&& forall|i: int|
        0 <= i < framed.index_epochs@.len() ==> gave_bytes(#[trigger] framed.index_epochs@[i])
    &&& gave_bytes(framed.outcome)
    &&& forall|i: int| 0 <= i < framed.events@.len() ==> gave_bytes(#[trigger] framed.events@[i])
    &&& forall|i: int|
        0 <= i < framed.event_routes@.len() ==> gave_bytes(#[trigger] framed.event_routes@[i])
    &&& forall|i: int|
        0 <= i < framed.outbox_intents@.len() ==> gave_bytes(#[trigger] framed.outbox_intents@[i])
    &&& gave_bytes(framed.provenance)
    &&& gave_bytes(framed.commit)
}

proof fn all_sealed_there_fail_nowhere(framed: Seq<Framed>)
    requires
        forall|i: int| 0 <= i < framed.len() ==> gave_bytes(#[trigger] framed[i]),
    ensures
        list_failure(framed) is None,
{
    failures_of_each_there(framed);
    assert forall|i: int| 0 <= i < each_there(framed).len() implies gave_bytes_if_any(
        #[trigger] each_there(framed)[i],
    ) by {
        assert(gave_bytes(framed[i]));
    }
    all_sealed_fail_nowhere(each_there(framed));
}

/// Whether an envelope holds what framing a record gave, charged byte for byte.
pub open spec fn holds(envelope: CanonicalStoredEnvelopeV1, framed: Framed) -> bool {
    match framed {
        Ok(bytes) => envelope.bytes@ == bytes@ && envelope.charge.bytes == bytes@.len(),
        Err(_) => false,
    }
}

/// Whether envelopes hold what framing records gave, one by one.
pub open spec fn all_hold(
    envelopes: Seq<CanonicalStoredEnvelopeV1>,
    framed: Seq<Framed>,
) -> bool {
    envelopes.len() == framed.len() && forall|i: int|
        0 <= i < envelopes.len() ==> holds(#[trigger] envelopes[i], framed[i])
}

/// Whether envelopes hold what framing records gave, one by one and where they are
/// there.
pub open spec fn all_hold_if_any(
    envelopes: Seq<Option<CanonicalStoredEnvelopeV1>>,
    framed: Seq<Option<Framed>>,
) -> bool {
    envelopes.len() == framed.len() && forall|i: int|
        0 <= i < envelopes.len() ==> match (#[trigger] envelopes[i], framed[i]) {
            (Some(envelope), Some(framed)) => holds(envelope, framed),
            (None, None) => true,
            _ => false,
        }
}

/// A command whose records all gave some bytes is sealed exactly when no class takes
/// more than is reserved for it; it is then charged for each class what its records
/// take, and holds them as they were framed. Vector evidence counts as entities, and
/// event routes as events.
pub proof fn sealed_commands_are_charged_by_class(
    framed: FramedCommandRecords,
    reserved: EncodedWriteSetUpperBound,
    result: Result<EncodedAtomicCommandRecordSetV1, DurableCodecError>,
)
    requires
        call_ensures(seal_command_records, (&framed, reserved), result),
        reserved.wf(),
        all_gave_bytes(framed),
    ensures
        ({
            let limit = reserved.classes.classes;
            let allocator = framed.allocator->Ok_0@.len();
            let entities = bytes_given_if_any(framed.entities@, framed.entities@.len())
                + bytes_given_if_any(framed.vector_evidence@, framed.vector_evidence@.len());
            let index_entries = bytes_given_if_any(
                framed.index_entries@,
                framed.index_entries@.len(),
            );
            let index_epochs = bytes_given(framed.index_epochs@, framed.index_epochs@.len());
            let outcome = framed.outcome->Ok_0@.len();
            let events = bytes_given(framed.events@, framed.events@.len()) + bytes_given(
                framed.event_routes@,
                framed.event_routes@.len(),
            );
            let intents = bytes_given(framed.outbox_intents@, framed.outbox_intents@.len());
            let provenance = framed.provenance->Ok_0@.len();
            let commit = framed.commit->Ok_0@.len();
            &&& result is Ok <==> allocator <= limit.allocator && entities <= limit.entities
                && index_entries <= limit.index_entries && index_epochs <= limit.index_epochs
                && outcome <= limit.outcome && events <= limit.events && intents
                <= limit.outbox_intents && provenance <= limit.provenance && commit <= limit.commit
            &&& result matches Ok(set) ==> {
                let charge = set.actual_charge.classes;
                &&& charge.allocator == allocator
                &&& charge.pending_resolution == 0
                &&& charge.entities == entities
                &&& charge.index_entries == index_entries
                &&& charge.index_epochs == index_epochs
                &&& charge.outcome == outcome
                &&& charge.events == events
                &&& charge.outbox_intents == intents
                &&& charge.provenance == provenance
                &&& charge.commit == commit
            }
        }),
        result matches Ok(set) ==> {
            &&& holds(set.allocator, framed.allocator)
            &&& all_hold_if_any(set.entities@, framed.entities@)
            &&& all_hold_if_any(set.vector_evidence@, framed.vector_evidence@)
            &&& all_hold_if_any(set.index_entries@, framed.index_entries@)
            &&& all_hold(set.index_epochs@, framed.index_epochs@)
            &&& holds(set.outcome, framed.outcome)
            &&& all_hold(set.events@, framed.events@)
            &&& all_hold(set.event_routes@, framed.event_routes@)
            &&& all_hold(set.outbox_intents@, framed.outbox_intents@)
            &&& holds(set.provenance, framed.provenance)
            &&& holds(set.commit, framed.commit)
        },
{
    all_sealed_fail_nowhere(framed.entities@);
    all_sealed_fail_nowhere(framed.vector_evidence@);
    all_sealed_fail_nowhere(framed.index_entries@);
    all_sealed_there_fail_nowhere(framed.index_epochs@);
    all_sealed_there_fail_nowhere(framed.events@);
    all_sealed_there_fail_nowhere(framed.event_routes@);
    all_sealed_there_fail_nowhere(framed.outbox_intents@);
    assert(atomic_seal_failure(framed) is None);
    optional_framed_sum_is_their_bytes(framed.entities@);
    optional_framed_sum_is_their_bytes(framed.vector_evidence@);
    optional_framed_sum_is_their_bytes(framed.index_entries@);
    framed_sum_is_their_bytes(framed.index_epochs@);
    framed_sum_is_their_bytes(framed.events@);
    framed_sum_is_their_bytes(framed.event_routes@);
    framed_sum_is_their_bytes(framed.outbox_intents@);
    assert(framed.allocator->Ok_0.len() <= usize::MAX);
    assert(framed.outcome->Ok_0.len() <= usize::MAX);
    assert(framed.provenance->Ok_0.len() <= usize::MAX);
    assert(framed.commit->Ok_0.len() <= usize::MAX);
    reveal_with_fuel(first_failure, 6);
    let parts = seq![
        both(
            optional_framed_sum(framed.entities@),
            optional_framed_sum(framed.vector_evidence@),
        ),
        optional_framed_sum(framed.index_entries@),
        framed_sum(framed.index_epochs@),
        both(framed_sum(framed.events@), framed_sum(framed.event_routes@)),
        framed_sum(framed.outbox_intents@),
    ];
    assert(parts.skip(1)[0] == parts[1]);
    assert(parts.skip(1).skip(1)[0] == parts[2]);
    assert(parts.skip(1).skip(1).skip(1)[0] == parts[3]);
    assert(parts.skip(1).skip(1).skip(1).skip(1)[0] == parts[4]);
}

/// The records beside a segment are sealed exactly when those of them that are framed
/// here all gave some bytes and no class takes more than is reserved for it; those that
/// were prepared are taken over as they are.
pub proof fn sealed_capsules_fit_their_reservation(
    prepared: PreparedCapsuleEnvelopesV1,
    epochs: &[Framed],
    evidence: &[Option<Framed>],
    reserved: EncodedWriteSetUpperBound,
    result: Result<EncodedCapsuleCommandRecordSetV1, DurableCodecError>,
)
    requires
        call_ensures(seal_capsule_records, (prepared, epochs, evidence, reserved), result),
        forall|i: int| 0 <= i < epochs@.len() ==> gave_bytes(#[trigger] epochs@[i]),
        forall|i: int| 0 <= i < evidence@.len() ==> gave_bytes_if_any(#[trigger] evidence@[i]),
    ensures
        ({
            let limit = reserved.classes.classes;
            let entities = bytes_sealed(prepared.entities@, prepared.entities@.len())
                + bytes_given_if_any(evidence@, evidence@.len());
            let index_entries = bytes_sealed(
                prepared.index_entries@,
                prepared.index_entries@.len(),
            );
            let index_epochs = bytes_given(epochs@, epochs@.len());
            &&& result is Ok <==> entities <= limit.entities && index_entries
                <= limit.index_entries && index_epochs <= limit.index_epochs
            &&& result is Err && entities <= usize::MAX && index_entries <= usize::MAX
                && index_epochs <= usize::MAX ==> result->Err_0.kind
                == DurableCodecErrorKind::ReservationExceeded
        }),
        result matches Ok(set) ==> {
            &&& set.entities == prepared.entities
            &&& set.index_entries == prepared.index_entries
            &&& all_hold(set.index_epochs@, epochs@)
            &&& all_hold_if_any(set.vector_evidence@, evidence@)
        },
{
    all_sealed_there_fail_nowhere(epochs@);
    all_sealed_fail_nowhere(evidence@);
    framed_sum_is_their_bytes(epochs@);
    optional_framed_sum_is_their_bytes(evidence@);
    envelope_sizes_are_bytes(prepared.entities@, prepared.entities@.len());
    envelope_sizes_are_bytes(prepared.index_entries@, prepared.index_entries@.len());
    size_sum_is_the_plain_sum(0, optional_envelope_sizes(prepared.entities@));
    size_sum_is_the_plain_sum(0, optional_envelope_sizes(prepared.index_entries@));
}

/// A command has one framed record for each of its records: none for an entity or an
/// index entry that is deleted, and one event and one route for each event.
pub proof fn commands_have_a_frame_for_each_record<F: Fn(OutgoingCommandRecord) -> Framed>(
    frame: F,
    records: AtomicCommandRecordSet,
    framed: FramedCommandRecords,
)
    requires
        records_framed(frame, records, framed),
    ensures
        framed.entities@.len() == records.entities@.len(),
        forall|i: int|
            0 <= i < records.entities@.len() ==> ((#[trigger] framed.entities@[i]) is None
                <==> records.entities@[i] is Deleted),
        framed.index_entries@.len() == records.index_entries@.len(),
        forall|i: int|
            0 <= i < records.index_entries@.len() ==> ((#[trigger] framed.index_entries@[i])
                is None <==> records.index_entries@[i] is Delete),
        framed.index_epochs@.len() == records.index_epochs@.len(),
        framed.events@.len() == records.events@.len(),
        framed.event_routes@.len() == records.events@.len(),
        framed.outbox_intents@.len() == records.outbox_intents@.len(),
{
    assert forall|i: int| 0 <= i < records.entities@.len() implies ((
    #[trigger] framed.entities@[i]) is None <==> records.entities@[i] is Deleted) by {
        assert(entity_framed(frame, records.entities@[i], framed.entities@[i]));
    }
    assert forall|i: int| 0 <= i < records.index_entries@.len() implies ((
    #[trigger] framed.index_entries@[i]) is None <==> records.index_entries@[i] is Delete) by {
        assert(index_entry_framed(frame, records.index_entries@[i], framed.index_entries@[i]));
    }
}

/// Each event of a command is framed as an event and as a route, both of its own identity,
/// type and hash.
pub proof fn events_are_framed_with_their_route<F: Fn(OutgoingCommandRecord) -> Framed>(
    frame: F,
    records: AtomicCommandRecordSet,
    framed: FramedCommandRecords,
    i: int,
)
    requires
        records_framed(frame, records, framed),
        0 <= i < records.events@.len(),
    ensures
        exists|outgoing: OutgoingRecord<wire::StoredDurableEventV1>| {
            let event = records.events@[i];
            &&& #[trigger] frame.ensures(
                (OutgoingCommandRecord::Event(outgoing),),
                framed.events@[i],
            )
            &&& outgoing.record_type == RecordType::StoredDurableEventV1
            &&& outgoing.message.event_id is Some
            &&& outgoing.message.event_id->Some_0.commit_sequence
                == event.event_id.commit_sequence.value
            &&& outgoing.message.event_id->Some_0.event_ordinal == event.event_id.event_ordinal
            &&& outgoing.message.event_type_id == event.event_type_id.value
            &&& outgoing.message.event_hash@ == event.event_hash.bytes@
        },
        exists|outgoing: OutgoingRecord<wire::StoredEventRouteV1>| {
            let event = records.events@[i];
            &&& #[trigger] frame.ensures(
                (OutgoingCommandRecord::EventRoute(outgoing),),
                framed.event_routes@[i],
            )
            &&& outgoing.record_type == RecordType::StoredEventRouteV1
            &&& outgoing.message.event_id is Some
            &&& outgoing.message.event_id->Some_0.commit_sequence
                == event.event_id.commit_sequence.value
            &&& outgoing.message.event_id->Some_0.event_ordinal == event.event_id.event_ordinal
            &&& outgoing.message.event_type_id == event.event_type_id.value
            &&& outgoing.message.event_hash@ == event.event_hash.bytes@
        },
{
    let event = records.events@[i];
    assert(event_framed(frame, event, framed.events@[i]));
    assert(route_framed(frame, event, framed.event_routes@[i]));
    let sent = choose|outgoing: OutgoingRecord<wire::StoredDurableEventV1>|
        event_goes_out(event, outgoing) && #[trigger] frame.ensures(
            (OutgoingCommandRecord::Event(outgoing),),
            framed.events@[i],
        );
    assert(frame.ensures((OutgoingCommandRecord::Event(sent),), framed.events@[i]));
    let route = choose|outgoing: OutgoingRecord<wire::StoredEventRouteV1>|
        route_goes_out(event, outgoing) && #[trigger] frame.ensures(
            (OutgoingCommandRecord::EventRoute(outgoing),),
            framed.event_routes@[i],
        );
    assert(frame.ensures((OutgoingCommandRecord::EventRoute(route),), framed.event_routes@[i]));
}

/// Each intent of a command is framed as a reference to its own event.
pub proof fn intents_are_framed_by_reference<F: Fn(OutgoingCommandRecord) -> Framed>(
    frame: F,
    records: AtomicCommandRecordSet,
    framed: FramedCommandRecords,
    i: int,
)
    requires
        records_framed(frame, records, framed),
        0 <= i < records.outbox_intents@.len(),
    ensures
        exists|outgoing: OutgoingRecord<wire::StoredOutboxIntentV2>| {
            let event = records.outbox_intents@[i].event;
            &&& #[trigger] frame.ensures(
                (OutgoingCommandRecord::OutboxIntent(outgoing),),
                framed.outbox_intents@[i],
            )
            &&& outgoing.record_type == RecordType::StoredOutboxIntentV2
            &&& outgoing.message.event_reference is Some
            &&& outgoing.message.event_reference->Some_0.event_id is Some
            &&& outgoing.message.event_reference->Some_0.event_id->Some_0.commit_sequence
                == event.event_id.commit_sequence.value
            &&& outgoing.message.event_reference->Some_0.event_id->Some_0.event_ordinal
                == event.event_id.event_ordinal
            &&& outgoing.message.event_reference->Some_0.event_hash@ == event.event_hash.bytes@
        },
{
    let intent = records.outbox_intents@[i];
    assert(intent_framed(frame, intent, framed.outbox_intents@[i]));
    let sent = choose|outgoing: OutgoingRecord<wire::StoredOutboxIntentV2>|
        intent_goes_out(intent, outgoing) && #[trigger] frame.ensures(
            (OutgoingCommandRecord::OutboxIntent(outgoing),),
            framed.outbox_intents@[i],
        );
    assert(frame.ensures((OutgoingCommandRecord::OutboxIntent(sent),), framed.outbox_intents@[i]));
}

/// How many of the first changes leave an entity alive.
pub open spec fn live_before(entities: Seq<CommittedEntityChange>, count: nat) -> nat
    decreases count,
{
    if count == 0 {
        0
    } else {
        live_before(entities, (count - 1) as nat) + if entities[count - 1] is Live {
            1nat
        } else {
            0nat
        }
    }
}

proof fn live_counts_look_at_their_changes(
    a: Seq<CommittedEntityChange>,
    b: Seq<CommittedEntityChange>,
    count: nat,
)
    requires
        count <= a.len(),
        count <= b.len(),
        forall|i: int| 0 <= i < count ==> a[i] == #[trigger] b[i],
    ensures
        live_before(a, count) == live_before(b, count),
    decreases count,
{
    if count > 0 {
        live_counts_look_at_their_changes(a, b, (count - 1) as nat);
        assert(a[count - 1] == b[count - 1]);
    }
}

proof fn live_counts_grow(entities: Seq<CommittedEntityChange>, a: nat, b: nat)
    requires
        a <= b <= entities.len(),
    ensures
        live_before(entities, a) <= live_before(entities, b),
    decreases b,
{
    if a < b {
        live_counts_grow(entities, a, (b - 1) as nat);
    }
}

/// Each change that leaves an entity alive is referenced once, in order, by its target,
/// its version and the digest of its post-image; a deletion is not referenced.
pub proof fn live_changes_are_referenced(
    entities: Seq<CommittedEntityChange>,
    hashes: Seq<Option<PostImageHash>>,
    references: Seq<EntityReferenceView>,
)
    requires
        entities.len() == hashes.len(),
        live_references(entities, hashes) == Ok::<Seq<EntityReferenceView>, DurableCodecErrorKind>(
            references,
        ),
    ensures
        references.len() == live_before(entities, entities.len()),
        forall|i: int|
            0 <= i < entities.len() ==> match #[trigger] entities[i] {
                CommittedEntityChange::Live(mutation) => {
                    let reference = references[live_before(entities, i as nat) as int];
                    &&& reference.target == mutation.post_image.target@
                    &&& reference.entity_version == mutation.post_image.entity_version
                    &&& hashes[i] == Some(Ok::<_, crate::value_error::StorageValueError>(
                        reference.post_image_hash,
                    ))
                },
                CommittedEntityChange::Deleted(_) => true,
            },
    decreases entities.len(),
{
    if entities.len() > 0 {
        let leading = entities.drop_last();
        let digests = hashes.drop_last();
        let before = live_references(leading, digests)->Ok_0;
        live_changes_are_referenced(leading, digests, before);
        live_counts_look_at_their_changes(leading, entities, leading.len());
        assert forall|i: int| 0 <= i < entities.len() implies match #[trigger] entities[i] {
            CommittedEntityChange::Live(mutation) => {
                let reference = references[live_before(entities, i as nat) as int];
                &&& reference.target == mutation.post_image.target@
                &&& reference.entity_version == mutation.post_image.entity_version
                &&& hashes[i] == Some(Ok::<_, crate::value_error::StorageValueError>(
                    reference.post_image_hash,
                ))
            },
            CommittedEntityChange::Deleted(_) => true,
        } by {
            if i < leading.len() {
                assert(leading[i] == entities[i]);
                assert(digests[i] == hashes[i]);
                live_counts_look_at_their_changes(leading, entities, i as nat);
                if entities[i] is Live {
                    live_counts_look_at_their_changes(leading, entities, (i + 1) as nat);
                    live_counts_grow(entities, (i + 1) as nat, leading.len());
                    assert(live_before(entities, (i + 1) as nat) == live_before(
                        entities,
                        i as nat,
                    ) + 1);
                }
            }
        }
    }
}

/// References can be made exactly when every live post-image has a digest; otherwise the
/// first that has none decides.
pub proof fn the_first_missing_digest_decides(
    entities: Seq<CommittedEntityChange>,
    hashes: Seq<Option<PostImageHash>>,
)
    requires
        entities.len() == hashes.len(),
    ensures
        live_references(entities, hashes) is Ok <==> forall|i: int|
            0 <= i < entities.len() && (#[trigger] entities[i]) is Live ==> hashes[i] matches Some(
                Ok(_),
            ),
        forall|k: int|
            0 <= k < entities.len() && (#[trigger] entities[k]) is Live && !(
            hashes[k] matches Some(Ok(_))) && (forall|i: int|
                0 <= i < k && (#[trigger] entities[i]) is Live ==> hashes[i] matches Some(Ok(_)))
                ==> live_references(entities, hashes) == Err::<Seq<EntityReferenceView>, _>(
                match hashes[k] {
                    Some(Err(error)) => value_failure(error),
                    _ => DurableCodecErrorKind::InvariantViolation,
                },
            ),
    decreases entities.len(),
{
    if entities.len() > 0 {
        let leading = entities.drop_last();
        let digests = hashes.drop_last();
        let last = entities.len() - 1;
        the_first_missing_digest_decides(leading, digests);
        if forall|i: int|
            0 <= i < entities.len() && (#[trigger] entities[i]) is Live ==> hashes[i] matches Some(
                Ok(_),
            ) {
            assert forall|i: int|
                0 <= i < leading.len() && (#[trigger] leading[i]) is Live
                    implies digests[i] matches Some(
            Ok(_)) by {
                assert(leading[i] == entities[i] && digests[i] == hashes[i]);
            }
            assert(entities[last] is Live ==> hashes[last] matches Some(Ok(_)));
        }
        if live_references(entities, hashes) is Ok {
            assert forall|i: int|
                0 <= i < entities.len() && (#[trigger] entities[i]) is Live
                    implies hashes[i] matches Some(
            Ok(_)) by {
                if i < last {
                    assert(leading[i] == entities[i] && digests[i] == hashes[i]);
                }
            }
        }
        assert forall|k: int|
            0 <= k < entities.len() && (#[trigger] entities[k]) is Live && !(
            hashes[k] matches Some(Ok(_))) && (forall|i: int|
                0 <= i < k && (#[trigger] entities[i]) is Live ==> hashes[i] matches Some(
                    Ok(_),
                )) implies live_references(entities, hashes) == Err::<
            Seq<EntityReferenceView>,
            _,
        >(
            match hashes[k] {
                Some(Err(error)) => value_failure(error),
                _ => DurableCodecErrorKind::InvariantViolation,
            },
        ) by {
            assert forall|i: int|
                0 <= i < k && i < last && (#[trigger] leading[i])
                    is Live implies digests[i] matches Some(Ok(_)) by {
                assert(leading[i] == entities[i] && digests[i] == hashes[i]);
            }
            if k < last {
                assert(leading[k] == entities[k] && digests[k] == hashes[k]);
            } else {
                assert(live_references(leading, digests) is Ok);
            }
        }
    }
}

} // verus!
