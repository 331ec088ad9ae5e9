//! Upper bounds of a command's write set, and what is checked against them.

use vstd::prelude::*;

use crate::codec::bounds::{
    commit_charge, declared_outcome_charge_fields, entity_charges, entity_lens, event_charges,
    event_lens, event_reference_charges, event_reference_lens, event_route_charges,
    event_route_lens, index_entry_charges, index_entry_lens, index_epoch_charges, index_epoch_lens,
    outbox_intent_charges, outbox_intent_lens, outcome_charge, provenance_charge, sizing_commit_len,
    sizing_declared_outcome_len, sizing_outcome_len, sizing_provenance_len, varint_field,
    CommandMeasure, IndexEntryMeasure, IndexEpochMeasure, MAXIMUM_WIDTH_U64,
};
use crate::codec::envelope::encoded_message_charge;
use crate::codec::error::{
    frame_failure, value_failure, DurableCodecError, DurableCodecErrorKind, EnvelopeError,
};
use crate::codec::record_type::RecordType;
use crate::codec::sizing::{add_sizes, fitted, size_sum, sum_sizes, varint_field_len, Size};
use crate::limits::MAX_STAGED_WRITE_BYTES;
use crate::value_error::StorageValueError;
use crate::write_set::{
    CommandWriteClassBreakdownV1, EncodedWriteSetUpperBound, RawWriteClassBreakdownV1,
};

verus! {

/// Evidence that complete sizing exceeded only the accepted aggregate cap.
#[derive(Debug, PartialEq, Eq)]
#[non_exhaustive]
pub struct AggregateCapExceededOriginV1 {
    _codec_origin: (),
}

impl AggregateCapExceededOriginV1 {
    fn from_final_comparison() -> (result: Self) {
        AggregateCapExceededOriginV1 { _codec_origin: () }
    }
}

/// Closed result of complete sequence-free durable write-set sizing.
#[derive(Debug, PartialEq, Eq)]
pub enum EncodedWriteSetUpperBoundResultV1 {
    /// Every complete record and the checked aggregate fit the accepted cap.
    Fits(EncodedWriteSetUpperBound),
    /// Every record and checked addition succeeded, but the aggregate exceeds the cap.
    ExceedsAcceptedAggregateCap(AggregateCapExceededOriginV1),
}

/// Payload lengths of every record of one command, before any record is framed.
#[derive(Debug, PartialEq, Eq)]
pub struct CommandPayloads {
    pub allocator: Size,
    pub entities: Vec<Size>,
    pub index_entries: Vec<Size>,
    pub index_epochs: Vec<Size>,
    pub outcome: usize,
    pub events: Vec<Size>,
    pub event_routes: Vec<Size>,
    pub outbox_intents: Vec<Size>,
    pub provenance: usize,
    pub commit: usize,
}

/// The lengths of the three records that a command has one of.
pub struct SingleCharges {
    pub outcome: usize,
    pub provenance: usize,
    pub commit: usize,
}

/// The lengths of the records that a command has one of: the first failure among
/// them, in the order read dependencies, declared outcome, outcome, provenance and
/// commit, is the result.
pub open spec fn single_charges(measure: &CommandMeasure) -> Result<
    SingleCharges,
    DurableCodecError,
> {
    match measure.read_dependencies_len {
        Err(error) => Err(DurableCodecError { kind: value_failure(error) }),
        Ok(dependencies) => match size_sum(
            0,
            declared_outcome_charge_fields(measure.outcome_id, measure.outcome_value_len),
        ) {
            Err(error) => Err(error),
            Ok(declared) => match outcome_charge(measure, declared) {
                Err(error) => Err(error),
                Ok(outcome) => match provenance_charge(measure) {
                    Err(error) => Err(error),
                    Ok(provenance) => match commit_charge(measure, declared, dependencies) {
                        Err(error) => Err(error),
                        Ok(commit) => Ok(SingleCharges { outcome, provenance, commit }),
                    },
                },
            },
        },
    }
}

/// Whether payload lengths are those of a command's records, given the lengths of the
/// records that it has one of.
pub open spec fn payloads_of(
    measure: &CommandMeasure,
    index_entries: Seq<IndexEntryMeasure>,
    index_epochs: Seq<IndexEpochMeasure>,
    single: SingleCharges,
    payloads: CommandPayloads,
) -> bool {
    &&& payloads.allocator == varint_field(1, MAXIMUM_WIDTH_U64)
    &&& payloads.entities@ == entity_charges(measure.mutations@, measure.schema_binding_len)
    &&& payloads.index_entries@ == index_entry_charges(index_entries)
    &&& payloads.index_epochs@ == index_epoch_charges(index_epochs)
    &&& payloads.outcome == single.outcome
    &&& payloads.events@ == event_charges(measure.events@)
    &&& payloads.event_routes@ == event_route_charges(measure.events@)
    &&& payloads.outbox_intents@ == outbox_intent_charges(
        event_reference_charges(measure.events@),
    )
    &&& payloads.provenance == single.provenance
    &&& payloads.commit == single.commit
}

/// Sizes every record of a command.
///
/// Nothing semantic is built: the lengths are those of the final messages with
/// every future sequence and entity version at its full width.
pub fn command_payloads(
    measure: &CommandMeasure,
    index_entries: &[IndexEntryMeasure],
    index_epochs: &[IndexEpochMeasure],
) -> (result: Result<CommandPayloads, DurableCodecError>)
    ensures
        match single_charges(measure) {
            Err(error) => result == Err::<CommandPayloads, _>(error),
            Ok(single) => result is Ok && payloads_of(
                measure,
                index_entries@,
                index_epochs@,
                single,
                result->Ok_0,
            ),
        },
{
    let dependencies = match measure.read_dependencies_len {
        Ok(len) => len,
        Err(error) => return Err(DurableCodecError::from_storage_value(error)),
    };
    let declared = sizing_declared_outcome_len(measure.outcome_id, measure.outcome_value_len)?;
    let outcome = sizing_outcome_len(measure, declared)?;
    let provenance = sizing_provenance_len(measure)?;
    let commit = sizing_commit_len(measure, declared, dependencies)?;
    let references = event_reference_lens(&measure.events);
    Ok(
        CommandPayloads {
            allocator: varint_field_len(1, MAXIMUM_WIDTH_U64),
            entities: entity_lens(&measure.mutations, measure.schema_binding_len),
            index_entries: index_entry_lens(index_entries),
            index_epochs: index_epoch_lens(index_epochs),
            outcome,
            events: event_lens(&measure.events),
            event_routes: event_route_lens(&measure.events),
            outbox_intents: outbox_intent_lens(&references),
            provenance,
            commit,
        },
    )
}

/// The framed length of a record, or why it cannot be framed.
pub type FramedLen = Result<usize, EnvelopeError>;

/// The largest framed length of each record of one command, as the framing layer
/// gives it for the record's type and payload length.
#[derive(Debug, PartialEq, Eq)]
pub struct CommandEnvelopes {
    pub allocator: FramedLen,
    pub entities: Vec<FramedLen>,
    pub index_entries: Vec<FramedLen>,
    pub index_epochs: Vec<FramedLen>,
    pub outcome: FramedLen,
    pub events: Vec<FramedLen>,
    pub event_routes: Vec<FramedLen>,
    pub outbox_intents: Vec<FramedLen>,
    pub provenance: FramedLen,
    pub commit: FramedLen,
}

impl CommandEnvelopes {
    /// Whether there is one framed length for each payload.
    pub open spec fn frames(self, payloads: CommandPayloads) -> bool {
        &&& self.entities@.len() == payloads.entities@.len()
        &&& self.index_entries@.len() == payloads.index_entries@.len()
        &&& self.index_epochs@.len() == payloads.index_epochs@.len()
        &&& self.events@.len() == payloads.events@.len()
        &&& self.event_routes@.len() == payloads.event_routes@.len()
        &&& self.outbox_intents@.len() == payloads.outbox_intents@.len()
    }
}

/// Whether a framed length is what the framing layer gives for a record type and a
/// payload length, where there is one.
pub open spec fn len_framed<L: Fn(RecordType, usize) -> FramedLen>(
    measure_framed: L,
    record_type: RecordType,
    payload: Size,
    framed: FramedLen,
) -> bool {
    payload matches Ok(len) ==> measure_framed.ensures((record_type, len), framed)
}

/// Whether framed lengths are what the framing layer gives for a record type and
/// payload lengths, one by one.
pub open spec fn lens_framed<L: Fn(RecordType, usize) -> FramedLen>(
    measure_framed: L,
    record_type: RecordType,
    payloads: Seq<Size>,
    framed: Seq<FramedLen>,
) -> bool {
    &&& payloads.len() == framed.len()
    &&& forall|i: int|
        0 <= i < payloads.len() ==> len_framed(
            measure_framed,
            record_type,
            payloads[i],
            #[trigger] framed[i],
        )
}

/// Whether framed lengths are what the framing layer gives for the records of a
/// command, each under the type that its class is reserved as.
pub open spec fn envelopes_framed<L: Fn(RecordType, usize) -> FramedLen>(
    measure_framed: L,
    payloads: CommandPayloads,
    envelopes: CommandEnvelopes,
) -> bool {
    &&& len_framed(
        measure_framed,
        RecordType::StoredApplicationSequenceAllocatorV1,
        payloads.allocator,
        envelopes.allocator,
    )
    &&& lens_framed(
        measure_framed,
        RecordType::StoredEntityRecordV1,
        payloads.entities@,
        envelopes.entities@,
    )
    &&& lens_framed(
        measure_framed,
        RecordType::StoredIndexEntryV2,
        payloads.index_entries@,
        envelopes.index_entries@,
    )
    &&& lens_framed(
        measure_framed,
        RecordType::StoredIndexGenerationV2,
        payloads.index_epochs@,
        envelopes.index_epochs@,
    )
    &&& len_framed(
        measure_framed,
        RecordType::StoredOutcomeV3,
        Ok(payloads.outcome),
        envelopes.outcome,
    )
    &&& lens_framed(
        measure_framed,
        RecordType::StoredDurableEventV1,
        payloads.events@,
        envelopes.events@,
    )
    &&& lens_framed(
        measure_framed,
        RecordType::StoredEventRouteV1,
        payloads.event_routes@,
        envelopes.event_routes@,
    )
    &&& lens_framed(
        measure_framed,
        RecordType::StoredOutboxIntentV2,
        payloads.outbox_intents@,
        envelopes.outbox_intents@,
    )
    &&& len_framed(
        measure_framed,
        RecordType::StoredProvenanceRecordV2,
        Ok(payloads.provenance),
        envelopes.provenance,
    )
    &&& len_framed(
        measure_framed,
        RecordType::StoredCommitRecordV3,
        Ok(payloads.commit),
        envelopes.commit,
    )
}

fn measure_len<L: Fn(RecordType, usize) -> FramedLen>(
    measure_framed: &L,
    record_type: RecordType,
    payload: Size,
) -> (result: FramedLen)
    requires
        forall|record_type: RecordType, payload: usize| #[trigger]
            measure_framed.requires((record_type, payload)),
    ensures
        len_framed(*measure_framed, record_type, payload, result),
{
    match payload {
        Ok(len) => {
            let framed = measure_framed(record_type, len);
            assert(measure_framed.ensures((record_type, len), framed));
            framed
        },
        Err(_) => Err(EnvelopeError::PayloadTooLarge),
    }
}

fn measure_lens<L: Fn(RecordType, usize) -> FramedLen>(
    measure_framed: &L,
    record_type: RecordType,
    payloads: &[Size],
) -> (result: Vec<FramedLen>)
    requires
        forall|record_type: RecordType, payload: usize| #[trigger]
            measure_framed.requires((record_type, payload)),
    ensures
        lens_framed(*measure_framed, record_type, payloads@, result@),
{
    let mut result: Vec<FramedLen> = Vec::new();
    let mut i: usize = 0;
    while i < payloads.len()
        invariant
            i <= payloads@.len(),
            result@.len() == i,
            forall|record_type: RecordType, payload: usize| #[trigger]
                measure_framed.requires((record_type, payload)),
            forall|k: int|
                0 <= k < i ==> len_framed(
                    *measure_framed,
                    record_type,
                    payloads@[k],
                    #[trigger] result@[k],
                ),
        decreases payloads@.len() - i,
    {
        result.push(measure_len(measure_framed, record_type, payloads[i]));
        i += 1;
    }
    result
}

/// Measures what the records of a command take once they are framed.
pub fn measure_envelopes<L: Fn(RecordType, usize) -> FramedLen>(
    payloads: &CommandPayloads,
    measure_framed: &L,
) -> (result: CommandEnvelopes)
    requires
        forall|record_type: RecordType, payload: usize| #[trigger]
            measure_framed.requires((record_type, payload)),
    ensures
        envelopes_framed(*measure_framed, *payloads, result),
{
    CommandEnvelopes {
        allocator: measure_len(
            measure_framed,
            RecordType::StoredApplicationSequenceAllocatorV1,
            payloads.allocator,
        ),
        entities: measure_lens(
            measure_framed,
            RecordType::StoredEntityRecordV1,
            &payloads.entities,
        ),
        index_entries: measure_lens(
            measure_framed,
            RecordType::StoredIndexEntryV2,
            &payloads.index_entries,
        ),
        index_epochs: measure_lens(
            measure_framed,
            RecordType::StoredIndexGenerationV2,
            &payloads.index_epochs,
        ),
        outcome: measure_len(measure_framed, RecordType::StoredOutcomeV3, Ok(payloads.outcome)),
        events: measure_lens(measure_framed, RecordType::StoredDurableEventV1, &payloads.events),
        event_routes: measure_lens(
            measure_framed,
            RecordType::StoredEventRouteV1,
            &payloads.event_routes,
        ),
        outbox_intents: measure_lens(
            measure_framed,
            RecordType::StoredOutboxIntentV2,
            &payloads.outbox_intents,
        ),
        provenance: measure_len(
            measure_framed,
            RecordType::StoredProvenanceRecordV2,
            Ok(payloads.provenance),
        ),
        commit: measure_len(
            measure_framed,
            RecordType::StoredCommitRecordV3,
            Ok(payloads.commit),
        ),
    }
}

/// What one record is charged: its framed length, unless its payload has no
/// length or cannot be framed.
pub open spec fn record_charge(payload: Size, framed: FramedLen) -> Size {
    match payload {
        Err(error) => Err(error),
        Ok(_) => match framed {
            Ok(len) => Ok(len),
            Err(error) => Err(DurableCodecError { kind: frame_failure(error) }),
        },
    }
}

/// Charges one record.
pub fn sizing_charge_len(payload: Size, framed: FramedLen) -> (result: Size)
    ensures
        result == record_charge(payload, framed),
{
    match payload {
        Err(error) => Err(error),
        Ok(_) => match framed {
            Ok(len) => Ok(len),
            Err(error) => Err(DurableCodecError::from_encode_envelope(error)),
        },
    }
}

/// What each record of a class is charged.
pub open spec fn record_charges(payloads: Seq<Size>, framed: Seq<FramedLen>) -> Seq<Size> {
    Seq::new(payloads.len(), |i: int| record_charge(payloads[i], framed[i]))
}

/// What the records of a class are charged together.
pub open spec fn class_charge(payloads: Seq<Size>, framed: Seq<FramedLen>) -> Size {
    size_sum(0, record_charges(payloads, framed))
}

/// Charges the records of a class.
pub fn sum_class_charges(payloads: &[Size], framed: &[FramedLen]) -> (result: Size)
    requires
        payloads@.len() == framed@.len(),
    ensures
        result == class_charge(payloads@, framed@),
{
    let mut charges: Vec<Size> = Vec::new();
    let mut i: usize = 0;
    while i < payloads.len()
        invariant
            i <= payloads@.len(),
            payloads@.len() == framed@.len(),
            charges@ == record_charges(payloads@, framed@).take(i as int),
        decreases payloads@.len() - i,
    {
        charges.push(sizing_charge_len(payloads[i], framed[i]));
        i += 1;
        assert(charges@ =~= record_charges(payloads@, framed@).take(i as int));
    }
    assert(charges@ =~= record_charges(payloads@, framed@));
    sum_sizes(&charges)
}

/// What one change of vector evidence stores.
#[derive(Clone, Copy, Debug, PartialEq, Eq)]
pub enum VectorEvidenceSizing {
    /// The transition does not materialise.
    Refused(StorageValueError),
    /// A row is stored, with this framed length.
    Put(FramedLen),
    /// A row is removed, and nothing is stored.
    Delete,
}

/// What one change of vector evidence is charged.
pub open spec fn evidence_charge(value: VectorEvidenceSizing) -> Size {
    match value {
        VectorEvidenceSizing::Refused(error) => Err(
            DurableCodecError { kind: value_failure(error) },
        ),
        VectorEvidenceSizing::Delete => Ok(0),
        VectorEvidenceSizing::Put(framed) => match framed {
            Err(error) => Err(DurableCodecError { kind: frame_failure(error) }),
            Ok(len) => if len == 0 {
                Err(DurableCodecError { kind: DurableCodecErrorKind::InvariantViolation })
            } else {
                Ok(len)
            },
        },
    }
}

/// What each change of vector evidence is charged.
pub open spec fn evidence_charges(values: Seq<VectorEvidenceSizing>) -> Seq<Size> {
    Seq::new(values.len(), |i: int| evidence_charge(values[i]))
}

/// Charges the changes of vector evidence.
pub fn sum_evidence_charges(values: &[VectorEvidenceSizing]) -> (result: Size)
    ensures
        result == size_sum(0, evidence_charges(values@)),
{
    let mut charges: Vec<Size> = Vec::new();
    let mut i: usize = 0;
    while i < values.len()
        invariant
            i <= values@.len(),
            charges@ == evidence_charges(values@).take(i as int),
        decreases values@.len() - i,
    {
        let charge: Size = match values[i] {
            VectorEvidenceSizing::Refused(error) => Err(
                DurableCodecError::from_storage_value(error),
            ),
            VectorEvidenceSizing::Delete => Ok(0),
            VectorEvidenceSizing::Put(framed) => match encoded_message_charge(framed) {
                Ok(charge) => Ok(charge.get()),
                Err(error) => Err(error),
            },
        };
        charges.push(charge);
        i += 1;
        assert(charges@ =~= evidence_charges(values@).take(i as int));
    }
    assert(charges@ =~= evidence_charges(values@));
    sum_sizes(&charges)
}

/// The first failure among lengths, in order.
pub open spec fn first_failure(sizes: Seq<Size>) -> Option<DurableCodecError>
    decreases sizes.len(),
{
    if sizes.len() == 0 {
        None
    } else {
        match sizes[0] {
            Err(error) => Some(error),
            Ok(_) => first_failure(sizes.skip(1)),
        }
    }
}

/// The sum of two lengths where both are there; a sum that does not fit a word
/// breaks an invariant.
pub open spec fn both(a: Size, b: Size) -> Size {
    match a {
        Err(error) => Err(error),
        Ok(a) => match b {
            Err(error) => Err(error),
            Ok(b) => fitted(a as nat + b as nat, DurableCodecErrorKind::InvariantViolation),
        },
    }
}

/// The charge of a command by record class, or the first failure in the order
/// events, routes, allocator, entities with vector evidence, index entries, index
/// epochs, outcome, events with routes, outbox intents, provenance and commit.
pub open spec fn raw_classes(
    payloads: CommandPayloads,
    envelopes: CommandEnvelopes,
    evidence: Seq<VectorEvidenceSizing>,
) -> Result<RawWriteClassBreakdownV1, DurableCodecError> {
    let events = class_charge(payloads.events@, envelopes.events@);
    let routes = class_charge(payloads.event_routes@, envelopes.event_routes@);
    let allocator = record_charge(payloads.allocator, envelopes.allocator);
    let entities = both(
        class_charge(payloads.entities@, envelopes.entities@),
        size_sum(0, evidence_charges(evidence)),
    );
    let index_entries = class_charge(payloads.index_entries@, envelopes.index_entries@);
    let index_epochs = class_charge(payloads.index_epochs@, envelopes.index_epochs@);
    let outcome = record_charge(Ok(payloads.outcome), envelopes.outcome);
    let all_events = both(events, routes);
    let outbox_intents = class_charge(payloads.outbox_intents@, envelopes.outbox_intents@);
    let provenance = record_charge(Ok(payloads.provenance), envelopes.provenance);
    let commit = record_charge(Ok(payloads.commit), envelopes.commit);
    match first_failure(
        seq![
            events,
            routes,
            allocator,
            entities,
            index_entries,
            index_epochs,
            outcome,
            all_events,
            outbox_intents,
            provenance,
            commit,
        ],
    ) {
        Some(error) => Err(error),
        None => Ok(
            RawWriteClassBreakdownV1 {
                allocator: allocator->Ok_0,
                pending_resolution: 0,
                entities: entities->Ok_0,
                index_entries: index_entries->Ok_0,
                index_epochs: index_epochs->Ok_0,
                outcome: outcome->Ok_0,
                events: all_events->Ok_0,
                outbox_intents: outbox_intents->Ok_0,
                provenance: provenance->Ok_0,
                commit: commit->Ok_0,
            },
        ),
    }
}

/// Whether a result says what a breakdown comes to: a sum that fits no word is
/// over the limit, one over the staged write limit exceeds the cap, and any other
/// is the reservation.
pub open spec fn bound_of(
    raw: RawWriteClassBreakdownV1,
    result: Result<EncodedWriteSetUpperBoundResultV1, DurableCodecError>,
) -> bool {
    if raw.sum() > usize::MAX {
        result == Err::<EncodedWriteSetUpperBoundResultV1, _>(
            DurableCodecError { kind: DurableCodecErrorKind::LimitExceeded },
        )
    } else if raw.sum() > MAX_STAGED_WRITE_BYTES {
        result is Ok && result->Ok_0 is ExceedsAcceptedAggregateCap
    } else {
        result is Ok && result->Ok_0 == EncodedWriteSetUpperBoundResultV1::Fits(
            EncodedWriteSetUpperBound { classes: CommandWriteClassBreakdownV1 { classes: raw } },
        )
    }
}

/// Compares a complete breakdown with the staged write limit.
pub fn finish_upper_bound(raw: RawWriteClassBreakdownV1) -> (result: Result<
    EncodedWriteSetUpperBoundResultV1,
    DurableCodecError,
>)
    ensures
        bound_of(raw, result),
{
    let classes = match CommandWriteClassBreakdownV1::new(raw) {
        Ok(classes) => classes,
        Err(_) => return Err(DurableCodecError::new(DurableCodecErrorKind::LimitExceeded)),
    };
    match EncodedWriteSetUpperBound::new(classes) {
        Ok(bound) => Ok(EncodedWriteSetUpperBoundResultV1::Fits(bound)),
        Err(_) => Ok(
            EncodedWriteSetUpperBoundResultV1::ExceedsAcceptedAggregateCap(
                AggregateCapExceededOriginV1::from_final_comparison(),
            ),
        ),
    }
}

/// Computes a reservation, given the payload and the framed length of each record.
pub fn upper_bound_under(
    payloads: &CommandPayloads,
    envelopes: &CommandEnvelopes,
    evidence: &[VectorEvidenceSizing],
) -> (result: Result<EncodedWriteSetUpperBoundResultV1, DurableCodecError>)
    requires
        envelopes.frames(*payloads),
    ensures
        match raw_classes(*payloads, *envelopes, evidence@) {
            Err(error) => result == Err::<EncodedWriteSetUpperBoundResultV1, _>(error),
            Ok(raw) => bound_of(raw, result),
        },
{
    proof {
        reveal_with_fuel(first_failure, 12);
    }
    let event_charge = sum_class_charges(&payloads.events, &envelopes.events)?;
    let route_charge = sum_class_charges(&payloads.event_routes, &envelopes.event_routes)?;
    let allocator = sizing_charge_len(payloads.allocator, envelopes.allocator)?;
    let entity_charge = sum_class_charges(&payloads.entities, &envelopes.entities)?;
    let evidence_charge = sum_evidence_charges(evidence)?;
    let entities = add_sizes(entity_charge, evidence_charge)?;
    let index_entries = sum_class_charges(&payloads.index_entries, &envelopes.index_entries)?;
    let index_epochs = sum_class_charges(&payloads.index_epochs, &envelopes.index_epochs)?;
    let outcome = sizing_charge_len(Ok(payloads.outcome), envelopes.outcome)?;
    let events = add_sizes(event_charge, route_charge)?;
    let outbox_intents = sum_class_charges(&payloads.outbox_intents, &envelopes.outbox_intents)?;
    let provenance = sizing_charge_len(Ok(payloads.provenance), envelopes.provenance)?;
    let commit = sizing_charge_len(Ok(payloads.commit), envelopes.commit)?;
    finish_upper_bound(
        RawWriteClassBreakdownV1 {
            allocator,
            pending_resolution: 0,
            entities,
            index_entries,
            index_epochs,
            outcome,
            events,
            outbox_intents,
            provenance,
            commit,
        },
    )
}

/// What the reservation of a command comes to: its records are sized, measured as the
/// framing layer would frame them, charged class by class and held to the staged write
/// limit.
pub open spec fn command_reserved<L: Fn(RecordType, usize) -> FramedLen>(
    measure_framed: L,
    measure: &CommandMeasure,
    index_entries: Seq<IndexEntryMeasure>,
    index_epochs: Seq<IndexEpochMeasure>,
    evidence: Seq<VectorEvidenceSizing>,
    result: Result<EncodedWriteSetUpperBoundResultV1, DurableCodecError>,
) -> bool {
    match single_charges(measure) {
        Err(error) => result == Err::<EncodedWriteSetUpperBoundResultV1, _>(error),
        Ok(single) => exists|payloads: CommandPayloads, envelopes: CommandEnvelopes|
            payloads_of(measure, index_entries, index_epochs, single, payloads)
                && #[trigger] envelopes_framed(measure_framed, payloads, envelopes)
                && match raw_classes(payloads, envelopes, evidence) {
                Err(error) => result == Err::<EncodedWriteSetUpperBoundResultV1, _>(error),
                Ok(raw) => bound_of(raw, result),
            },
    }
}

/// Computes a tight sequence-free reservation, given what a record type and a payload
/// length take once they are framed.
pub fn command_write_set_upper_bound_v1<L: Fn(RecordType, usize) -> FramedLen>(
    measure: &CommandMeasure,
    index_entries: &[IndexEntryMeasure],
    index_epochs: &[IndexEpochMeasure],
    measure_framed: L,
) -> (result: Result<EncodedWriteSetUpperBoundResultV1, DurableCodecError>)
    requires
        forall|record_type: RecordType, payload: usize| #[trigger]
            measure_framed.requires((record_type, payload)),
    ensures
        command_reserved(
            measure_framed,
            measure,
            index_entries@,
            index_epochs@,
            Seq::empty(),
            result,
        ),
{
    let evidence: Vec<VectorEvidenceSizing> = Vec::new();
    proof {
        assert(evidence@ =~= Seq::empty());
    }
    command_write_set_upper_bound_with_vector_evidence_v1(
        measure,
        index_entries,
        index_epochs,
        &evidence,
        measure_framed,
    )
}

/// Computes a tight sequence-free reservation including vector evidence, whose rows
/// come with their own framed lengths.
pub fn command_write_set_upper_bound_with_vector_evidence_v1<
    L: Fn(RecordType, usize) -> FramedLen,
>(
    measure: &CommandMeasure,
    index_entries: &[IndexEntryMeasure],
    index_epochs: &[IndexEpochMeasure],
    evidence: &[VectorEvidenceSizing],
    measure_framed: L,
) -> (result: Result<EncodedWriteSetUpperBoundResultV1, DurableCodecError>)
    requires
        forall|record_type: RecordType, payload: usize| #[trigger]
            measure_framed.requires((record_type, payload)),
    ensures
        command_reserved(
            measure_framed,
            measure,
            index_entries@,
            index_epochs@,
            evidence@,
            result,
        ),
{
    let payloads = command_payloads(measure, index_entries, index_epochs)?;
    let envelopes = measure_envelopes(&payloads, &measure_framed);
    assert(envelopes_framed(measure_framed, payloads, envelopes));
    upper_bound_under(&payloads, &envelopes, evidence)
}

/// Proves every actual record class and the aggregate fit the reservation.
pub fn verify_actual_write_set_charge_v1(
    actual: CommandWriteClassBreakdownV1,
    reserved: EncodedWriteSetUpperBound,
) -> (result: Result<(), DurableCodecError>)
    requires
        actual.wf(),
        reserved.wf(),
    ensures
        result == if actual.classes.within(reserved.classes.classes) {
            Ok::<(), DurableCodecError>(())
        } else {
            Err(DurableCodecError { kind: DurableCodecErrorKind::ReservationExceeded })
        },
{
    let maximum = reserved.classes();
    let fits = actual.classes.is_within(maximum.classes) && actual.total() <= reserved.total();
    if fits {
        Ok(())
    } else {
        Err(DurableCodecError::new(DurableCodecErrorKind::ReservationExceeded))
    }
}

/// A write set that fits its reservation class by class fits it as a whole, and
/// with it the staged write limit.
pub proof fn accepted_write_sets_are_staged(
    actual: CommandWriteClassBreakdownV1,
    reserved: EncodedWriteSetUpperBound,
)
    requires
        reserved.wf(),
        actual.classes.within(reserved.classes.classes),
    ensures
        actual.classes.sum() <= reserved.classes.classes.sum() <= MAX_STAGED_WRITE_BYTES,
{
}

} // verus!
