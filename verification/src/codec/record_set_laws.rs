//! A command that was reserved for fits its reservation.

use vstd::prelude::*;

use crate::codec::record_set::{
    actual_classes, framed_size, framed_sizes, framed_sum, optional_framed_sizes,
    optional_framed_sum, Framed, FramedCommandRecords,
};
use crate::codec::reservation::{
    both, class_charge, evidence_charges, first_failure, raw_classes, record_charge, record_charges,
    CommandEnvelopes, CommandPayloads, FramedLen, VectorEvidenceSizing,
};
use crate::codec::sizing::{plain_sum, size_sum, size_sum_is_the_plain_sum, Size};
use crate::write_set::RawWriteClassBreakdownV1;

verus! {

/// Each length of a list is there and is at most its counterpart.
pub open spec fn sizes_within(a: Seq<Size>, b: Seq<Size>) -> bool {
    &&& a.len() == b.len()
    &&& forall|i: int|
        0 <= i < a.len() ==> (#[trigger] a[i]) is Ok && (b[i] is Ok ==> a[i]->Ok_0 <= b[i]->Ok_0)
}

proof fn plain_sums_within(a: Seq<Size>, b: Seq<Size>, count: nat)
    requires
        sizes_within(a, b),
        forall|i: int| 0 <= i < b.len() ==> (#[trigger] b[i]) is Ok,
        count <= a.len(),
    ensures
        plain_sum(a, count) <= plain_sum(b, count),
    decreases count,
{
    if count > 0 {
        plain_sums_within(a, b, (count - 1) as nat);
        assert(a[count - 1] is Ok && b[count - 1] is Ok);
    }
}

proof fn sums_within(a: Seq<Size>, b: Seq<Size>)
    requires
        sizes_within(a, b),
        size_sum(0, b) is Ok,
    ensures
        size_sum(0, a) is Ok,
        size_sum(0, a)->Ok_0 <= size_sum(0, b)->Ok_0,
{
    size_sum_is_the_plain_sum(0, a);
    size_sum_is_the_plain_sum(0, b);
    plain_sums_within(a, b, a.len());
}

/// Every framed record of a class is at most as long as was reserved for it.
pub open spec fn framed_within(
    framed: Seq<Framed>,
    payloads: Seq<Size>,
    reserved: Seq<FramedLen>,
) -> bool {
    sizes_within(framed_sizes(framed), record_charges(payloads, reserved))
}

/// Every framed record of a class that is there is at most as long as was reserved
/// for it.
pub open spec fn optional_framed_within(
    framed: Seq<Option<Framed>>,
    payloads: Seq<Size>,
    reserved: Seq<FramedLen>,
) -> bool {
    sizes_within(optional_framed_sizes(framed), record_charges(payloads, reserved))
}

/// One framed record is at most as long as was reserved for it.
pub open spec fn single_within(framed: Framed, payload: Size, reserved: FramedLen) -> bool {
    record_charge(payload, reserved) is Ok ==> framed_size(framed) <= record_charge(
        payload,
        reserved,
    )->Ok_0
}

/// Every record of a command is at most as long as was reserved for it. Index
/// entries are reserved for those that are put alone, so they are compared as a
/// class.
pub open spec fn records_within(
    framed: FramedCommandRecords,
    payloads: CommandPayloads,
    envelopes: CommandEnvelopes,
    evidence: Seq<VectorEvidenceSizing>,
) -> bool {
    &&& single_within(framed.allocator, payloads.allocator, envelopes.allocator)
    &&& optional_framed_within(framed.entities@, payloads.entities@, envelopes.entities@)
    &&& sizes_within(optional_framed_sizes(framed.vector_evidence@), evidence_charges(evidence))
    &&& class_charge(payloads.index_entries@, envelopes.index_entries@) is Ok
        ==> optional_framed_sum(framed.index_entries@) is Ok && optional_framed_sum(
        framed.index_entries@,
    )->Ok_0 <= class_charge(payloads.index_entries@, envelopes.index_entries@)->Ok_0
    &&& framed_within(framed.index_epochs@, payloads.index_epochs@, envelopes.index_epochs@)
    &&& single_within(framed.outcome, Ok(payloads.outcome), envelopes.outcome)
    &&& framed_within(framed.events@, payloads.events@, envelopes.events@)
    &&& framed_within(framed.event_routes@, payloads.event_routes@, envelopes.event_routes@)
    &&& framed_within(framed.outbox_intents@, payloads.outbox_intents@, envelopes.outbox_intents@)
    &&& single_within(framed.provenance, Ok(payloads.provenance), envelopes.provenance)
    &&& single_within(framed.commit, Ok(payloads.commit), envelopes.commit)
}

/// A command whose final records are each at most as long as was reserved for them
/// fits its reservation class by class, so it is never refused for exceeding it.
pub proof fn reserved_commands_fit(
    framed: FramedCommandRecords,
    payloads: CommandPayloads,
    envelopes: CommandEnvelopes,
    evidence: Seq<VectorEvidenceSizing>,
    reserved: RawWriteClassBreakdownV1,
)
    requires
        envelopes.frames(payloads),
        records_within(framed, payloads, envelopes, evidence),
        raw_classes(payloads, envelopes, evidence) == Ok::<
            RawWriteClassBreakdownV1,
            crate::codec::error::DurableCodecError,
        >(reserved),
        reserved.sum() <= usize::MAX,
    ensures
        actual_classes(framed) is Ok,
        actual_classes(framed)->Ok_0.within(reserved),
{
    reveal_with_fuel(first_failure, 12);
    let events = class_charge(payloads.events@, envelopes.events@);
    let routes = class_charge(payloads.event_routes@, envelopes.event_routes@);
    let entities = both(
        class_charge(payloads.entities@, envelopes.entities@),
        size_sum(0, evidence_charges(evidence)),
    );
    assert(events is Ok && routes is Ok && entities is Ok);
    sums_within(
        optional_framed_sizes(framed.entities@),
        record_charges(payloads.entities@, envelopes.entities@),
    );
    sums_within(optional_framed_sizes(framed.vector_evidence@), evidence_charges(evidence));
    sums_within(
        framed_sizes(framed.index_epochs@),
        record_charges(payloads.index_epochs@, envelopes.index_epochs@),
    );
    sums_within(
        framed_sizes(framed.events@),
        record_charges(payloads.events@, envelopes.events@),
    );
    sums_within(
        framed_sizes(framed.event_routes@),
        record_charges(payloads.event_routes@, envelopes.event_routes@),
    );
    sums_within(
        framed_sizes(framed.outbox_intents@),
        record_charges(payloads.outbox_intents@, envelopes.outbox_intents@),
    );
    let held_entities = both(
        optional_framed_sum(framed.entities@),
        optional_framed_sum(framed.vector_evidence@),
    );
    let held_events = both(framed_sum(framed.events@), framed_sum(framed.event_routes@));
    assert(held_entities is Ok && held_entities->Ok_0 <= reserved.entities);
    assert(held_events is Ok && held_events->Ok_0 <= reserved.events);
}

} // verus!
