//! The records of one final command, ready for backend staging.

use vstd::prelude::*;

use crate::bytes::copy_bytes;
use crate::codec::application::{
    commit_parts_carries, encode_durable_event_v1, encode_entity_record_v1, encode_event_route_v1,
    encode_index_entry_v2, encode_index_epoch_v1, encode_provenance_record_v1,
    encode_stored_outcome_v1, entity_carries, entity_reference_list_carries, event_carries,
    event_reference_list_carries, event_route_carries, index_entry_carries, index_epoch_carries,
    outcome_v2_carries, provenance_v2_carries,
};
use crate::codec::commit::{encode_commit_record_v1, PostImageHash};
use crate::codec::envelope::{seal_envelope, CanonicalStoredEnvelopeV1, OutgoingRecord};
use crate::codec::error::{
    frame_failure, value_failure, DurableCodecError, DurableCodecErrorKind, EnvelopeError,
};
use crate::codec::metadata::{
    application_allocator_carries, encode_application_sequence_allocator_v1,
};
use crate::codec::outbox::{encode_outbox_intent_v1, intent_refers};
use crate::codec::record_type::RecordType;
use crate::codec::reservation::{both, first_failure, verify_actual_write_set_charge_v1};
use crate::codec::sizing::{add_sizes, size_sum, sum_sizes, Size};
use crate::outbox::StoredOutboxIntentV1;
use crate::records::{EntityTarget, StoredDurableEventV1, StoredEntityRecordV1, StoredIndexEntryV2};
use crate::stored::application::{
    entity_reference_views, CommittedEntityMutationV1, CommittedEntityReferenceV2,
    EntityReferenceView, StoredEventRouteV1, StoredOutcomeV1, StoredProvenanceRecordV1,
};
use crate::stored::command_segment::IndexEpochAdvanceV1;
use crate::stored::commit::{reference_to, references_to, StoredCommitRecordV1};
use crate::stored::metadata::ApplicationSequenceAllocator;
use crate::wire;
use crate::write_set::{
    CommandWriteClassBreakdownV1, EncodedWriteSetUpperBound, RawWriteClassBreakdownV1,
};

verus! {

/// One change of an entity by a command.
#[derive(Clone, Debug, PartialEq, Eq)]
pub enum CommittedEntityChange {
    /// The entity is written.
    Live(CommittedEntityMutationV1),
    /// The entity is deleted, and no current row is stored.
    Deleted(EntityTarget),
}

/// One change of a secondary index by a command.
#[derive(Clone, Debug, PartialEq, Eq)]
pub enum IndexEntryMutationV1 {
    /// The entry under this key is deleted, and none is stored.
    Delete(Vec<u8>),
    Put(StoredIndexEntryV2),
}

/// What framing one record gave.
pub type Framed = Result<Vec<u8>, EnvelopeError>;

/// Why a framed record gives no envelope, if it gives none.
pub open spec fn seal_failure(framed: Framed) -> Option<DurableCodecErrorKind> {
    match framed {
        Err(error) => Some(frame_failure(error)),
        Ok(bytes) => if bytes@.len() == 0 {
            Some(DurableCodecErrorKind::InvariantViolation)
        } else {
            None
        },
    }
}

/// Why a framed record that is there gives no envelope, if it gives none.
pub open spec fn optional_seal_failure(framed: Option<Framed>) -> Option<DurableCodecErrorKind> {
    match framed {
        Some(framed) => seal_failure(framed),
        None => None,
    }
}

/// Whether an envelope is that of a framed record.
pub open spec fn sealed(framed: Framed, envelope: CanonicalStoredEnvelopeV1) -> bool {
    framed is Ok && envelope.bytes@ == framed->Ok_0@ && envelope.wf()
}

/// Whether an optional envelope is that of an optional framed record.
pub open spec fn optional_sealed(
    framed: Option<Framed>,
    envelope: Option<CanonicalStoredEnvelopeV1>,
) -> bool {
    match (framed, envelope) {
        (Some(framed), Some(envelope)) => sealed(framed, envelope),
        (None, None) => true,
        _ => false,
    }
}

fn copy_framed(framed: &Framed) -> (result: Framed)
    ensures
        match (*framed, result) {
            (Ok(a), Ok(b)) => a@ == b@,
            (Err(a), Err(b)) => a == b,
            _ => false,
        },
{
    match framed {
        Ok(bytes) => Ok(copy_bytes(bytes)),
        Err(error) => Err(*error),
    }
}

/// Seals one framed record.
pub fn seal_record(framed: &Framed) -> (result: Result<
    CanonicalStoredEnvelopeV1,
    DurableCodecError,
>)
    ensures
        match seal_failure(*framed) {
            Some(kind) => result == Err::<CanonicalStoredEnvelopeV1, _>(DurableCodecError { kind }),
            None => result is Ok && sealed(*framed, result->Ok_0),
        },
{
    seal_envelope(copy_framed(framed))
}

/// The first failure among framed records.
pub open spec fn list_failure(framed: Seq<Framed>) -> Option<DurableCodecErrorKind>
    decreases framed.len(),
{
    if framed.len() == 0 {
        None
    } else {
        match seal_failure(framed[0]) {
            Some(kind) => Some(kind),
            None => list_failure(framed.skip(1)),
        }
    }
}

/// The first failure among optional framed records.
pub open spec fn optional_list_failure(framed: Seq<Option<Framed>>) -> Option<DurableCodecErrorKind>
    decreases framed.len(),
{
    if framed.len() == 0 {
        None
    } else {
        match optional_seal_failure(framed[0]) {
            Some(kind) => Some(kind),
            None => optional_list_failure(framed.skip(1)),
        }
    }
}

/// Whether envelopes are those of framed records, one by one.
pub open spec fn list_sealed(
    framed: Seq<Framed>,
    envelopes: Seq<CanonicalStoredEnvelopeV1>,
) -> bool {
    &&& framed.len() == envelopes.len()
    &&& forall|i: int| 0 <= i < framed.len() ==> sealed(framed[i], #[trigger] envelopes[i])
}

/// Whether optional envelopes are those of optional framed records, one by one.
pub open spec fn optional_list_sealed(
    framed: Seq<Option<Framed>>,
    envelopes: Seq<Option<CanonicalStoredEnvelopeV1>>,
) -> bool {
    &&& framed.len() == envelopes.len()
    &&& forall|i: int|
        0 <= i < framed.len() ==> optional_sealed(framed[i], #[trigger] envelopes[i])
}

/// Seals framed records.
pub fn seal_records(framed: &[Framed]) -> (result: Result<
    Vec<CanonicalStoredEnvelopeV1>,
    DurableCodecError,
>)
    ensures
        match list_failure(framed@) {
            Some(kind) => result == Err::<Vec<CanonicalStoredEnvelopeV1>, _>(
                DurableCodecError { kind },
            ),
            None => result is Ok && list_sealed(framed@, result->Ok_0@),
        },
{
    let mut result: Vec<CanonicalStoredEnvelopeV1> = Vec::new();
    let mut i: usize = 0;
    assert(framed@.skip(0) =~= framed@);
    while i < framed.len()
        invariant
            i <= framed@.len(),
            result@.len() == i,
            list_failure(framed@) == list_failure(framed@.skip(i as int)),
            forall|k: int| 0 <= k < i ==> sealed(framed@[k], #[trigger] result@[k]),
        decreases framed@.len() - i,
    {
        proof {
            assert(framed@.skip(i as int)[0] == framed@[i as int]);
            assert(framed@.skip(i as int).skip(1) =~= framed@.skip(i + 1));
        }
        result.push(seal_record(&framed[i])?);
        i += 1;
    }
    Ok(result)
}

/// Seals optional framed records.
pub fn seal_optional_records(framed: &[Option<Framed>]) -> (result: Result<
    Vec<Option<CanonicalStoredEnvelopeV1>>,
    DurableCodecError,
>)
    ensures
        match optional_list_failure(framed@) {
            Some(kind) => result == Err::<Vec<Option<CanonicalStoredEnvelopeV1>>, _>(
                DurableCodecError { kind },
            ),
            None => result is Ok && optional_list_sealed(framed@, result->Ok_0@),
        },
{
    let mut result: Vec<Option<CanonicalStoredEnvelopeV1>> = Vec::new();
    let mut i: usize = 0;
    assert(framed@.skip(0) =~= framed@);
    while i < framed.len()
        invariant
            i <= framed@.len(),
            result@.len() == i,
            optional_list_failure(framed@) == optional_list_failure(framed@.skip(i as int)),
            forall|k: int| 0 <= k < i ==> optional_sealed(framed@[k], #[trigger] result@[k]),
        decreases framed@.len() - i,
    {
        proof {
            assert(framed@.skip(i as int)[0] == framed@[i as int]);
            assert(framed@.skip(i as int).skip(1) =~= framed@.skip(i + 1));
        }
        match &framed[i] {
            Some(framed) => {
                result.push(Some(seal_record(framed)?));
            },
            None => {
                result.push(None);
            },
        }
        i += 1;
    }
    Ok(result)
}

/// The bytes of framed records.
pub open spec fn framed_sizes(framed: Seq<Framed>) -> Seq<Size> {
    Seq::new(framed.len(), |i: int| Ok(framed[i]->Ok_0@.len() as usize))
}

/// The bytes of optional framed records: one that is not there takes none.
pub open spec fn optional_framed_sizes(framed: Seq<Option<Framed>>) -> Seq<Size> {
    Seq::new(
        framed.len(),
        |i: int|
            match framed[i] {
                Some(framed) => Ok(framed->Ok_0@.len() as usize),
                None => Ok(0),
            },
    )
}

/// The bytes of framed records together.
pub open spec fn framed_sum(framed: Seq<Framed>) -> Size {
    size_sum(0, framed_sizes(framed))
}

/// The bytes of optional framed records together.
pub open spec fn optional_framed_sum(framed: Seq<Option<Framed>>) -> Size {
    size_sum(0, optional_framed_sizes(framed))
}

/// The charges of envelopes.
pub open spec fn envelope_sizes(envelopes: Seq<CanonicalStoredEnvelopeV1>) -> Seq<Size> {
    Seq::new(envelopes.len(), |i: int| Ok(envelopes[i].charge.bytes))
}

/// The charges of optional envelopes: one that is not there is charged nothing.
pub open spec fn optional_envelope_sizes(
    envelopes: Seq<Option<CanonicalStoredEnvelopeV1>>,
) -> Seq<Size> {
    Seq::new(
        envelopes.len(),
        |i: int|
            match envelopes[i] {
                Some(envelope) => Ok(envelope.charge.bytes),
                None => Ok(0),
            },
    )
}

/// An envelope is charged for the bytes that were framed.
proof fn envelopes_are_charged_for_their_bytes(
    framed: Seq<Framed>,
    envelopes: Seq<CanonicalStoredEnvelopeV1>,
)
    requires
        list_sealed(framed, envelopes),
    ensures
        envelope_sizes(envelopes) == framed_sizes(framed),
{
    assert forall|i: int| 0 <= i < framed.len() implies envelope_sizes(envelopes)[i]
        == framed_sizes(framed)[i] by {
        assert(sealed(framed[i], envelopes[i]));
    }
    assert(envelope_sizes(envelopes) =~= framed_sizes(framed));
}

/// An optional envelope is charged for the bytes that were framed.
proof fn optional_envelopes_are_charged_for_their_bytes(
    framed: Seq<Option<Framed>>,
    envelopes: Seq<Option<CanonicalStoredEnvelopeV1>>,
)
    requires
        optional_list_sealed(framed, envelopes),
    ensures
        optional_envelope_sizes(envelopes) == optional_framed_sizes(framed),
{
    assert forall|i: int| 0 <= i < framed.len() implies optional_envelope_sizes(envelopes)[i]
        == optional_framed_sizes(framed)[i] by {
        assert(optional_sealed(framed[i], envelopes[i]));
    }
    assert(optional_envelope_sizes(envelopes) =~= optional_framed_sizes(framed));
}

/// Adds up the charges of envelopes.
pub fn sum_envelope_charges(values: &[CanonicalStoredEnvelopeV1]) -> (result: Size)
    ensures
        result == size_sum(0, envelope_sizes(values@)),
{
    let mut sizes: Vec<Size> = Vec::new();
    let mut i: usize = 0;
    while i < values.len()
        invariant
            i <= values@.len(),
            sizes@ == envelope_sizes(values@).take(i as int),
        decreases values@.len() - i,
    {
        sizes.push(Ok(values[i].charge.get()));
        i += 1;
        assert(sizes@ =~= envelope_sizes(values@).take(i as int));
    }
    assert(sizes@ =~= envelope_sizes(values@));
    sum_sizes(&sizes)
}

/// Adds up the charges of optional envelopes.
pub fn sum_optional_envelope_charges(values: &[Option<CanonicalStoredEnvelopeV1>]) -> (result: Size)
    ensures
        result == size_sum(0, optional_envelope_sizes(values@)),
{
    let mut sizes: Vec<Size> = Vec::new();
    let mut i: usize = 0;
    while i < values.len()
        invariant
            i <= values@.len(),
            sizes@ == optional_envelope_sizes(values@).take(i as int),
        decreases values@.len() - i,
    {
        let size: Size = match &values[i] {
            Some(envelope) => Ok(envelope.charge.get()),
            None => Ok(0),
        };
        sizes.push(size);
        i += 1;
        assert(sizes@ =~= optional_envelope_sizes(values@).take(i as int));
    }
    assert(sizes@ =~= optional_envelope_sizes(values@));
    sum_sizes(&sizes)
}

/// What framing each record of one final command gave, aligned with the command's
/// own lists. Deletions have no record.
#[derive(Debug, PartialEq, Eq)]
pub struct FramedCommandRecords {
    pub allocator: Framed,
    pub entities: Vec<Option<Framed>>,
    pub vector_evidence: Vec<Option<Framed>>,
    pub index_entries: Vec<Option<Framed>>,
    pub index_epochs: Vec<Framed>,
    pub outcome: Framed,
    pub events: Vec<Framed>,
    pub event_routes: Vec<Framed>,
    pub outbox_intents: Vec<Framed>,
    pub provenance: Framed,
    pub commit: Framed,
}

/// Canonical envelopes for one final command, ready for backend staging.
#[derive(Clone, PartialEq, Eq)]
pub struct EncodedAtomicCommandRecordSetV1 {
    pub allocator: CanonicalStoredEnvelopeV1,
    pub entities: Vec<Option<CanonicalStoredEnvelopeV1>>,
    pub vector_evidence: Vec<Option<CanonicalStoredEnvelopeV1>>,
    pub index_entries: Vec<Option<CanonicalStoredEnvelopeV1>>,
    pub index_epochs: Vec<CanonicalStoredEnvelopeV1>,
    pub outcome: CanonicalStoredEnvelopeV1,
    pub events: Vec<CanonicalStoredEnvelopeV1>,
    pub event_routes: Vec<CanonicalStoredEnvelopeV1>,
    pub outbox_intents: Vec<CanonicalStoredEnvelopeV1>,
    pub provenance: CanonicalStoredEnvelopeV1,
    pub commit: CanonicalStoredEnvelopeV1,
    pub actual_charge: CommandWriteClassBreakdownV1,
}

impl EncodedAtomicCommandRecordSetV1 {
    /// Returns allocator metadata to stage with the command graph.
    pub fn allocator(&self) -> (result: &CanonicalStoredEnvelopeV1)
        ensures
            *result == self.allocator,
    {
        &self.allocator
    }

    /// Returns entity envelopes aligned with the semantic mutation list; a deletion
    /// stores no current row.
    pub fn entities(&self) -> (result: &[Option<CanonicalStoredEnvelopeV1>])
        ensures
            result@ == self.entities@,
    {
        self.entities.as_slice()
    }

    /// Returns vector-evidence changes aligned with the semantic mutation list.
    pub fn vector_evidence(&self) -> (result: &[Option<CanonicalStoredEnvelopeV1>])
        ensures
            result@ == self.vector_evidence@,
    {
        self.vector_evidence.as_slice()
    }

    /// Returns index changes aligned with the semantic mutation list; a deletion has
    /// zero encoded-byte charge.
    pub fn index_entries(&self) -> (result: &[Option<CanonicalStoredEnvelopeV1>])
        ensures
            result@ == self.index_entries@,
    {
        self.index_entries.as_slice()
    }

    /// Returns authoritative index-epoch post-image envelopes.
    pub fn index_epochs(&self) -> (result: &[CanonicalStoredEnvelopeV1])
        ensures
            result@ == self.index_epochs@,
    {
        self.index_epochs.as_slice()
    }

    /// Returns the sole terminal outcome envelope.
    pub fn outcome(&self) -> (result: &CanonicalStoredEnvelopeV1)
        ensures
            *result == self.outcome,
    {
        &self.outcome
    }

    /// Returns standalone event envelopes in ordinal order.
    pub fn events(&self) -> (result: &[CanonicalStoredEnvelopeV1])
        ensures
            result@ == self.events@,
    {
        self.events.as_slice()
    }

    /// Returns payload-free partition event-route envelopes in ordinal order.
    pub fn event_routes(&self) -> (result: &[CanonicalStoredEnvelopeV1])
        ensures
            result@ == self.event_routes@,
    {
        self.event_routes.as_slice()
    }

    /// Returns reciprocal outbox-intent envelopes in event order.
    pub fn outbox_intents(&self) -> (result: &[CanonicalStoredEnvelopeV1])
        ensures
            result@ == self.outbox_intents@,
    {
        self.outbox_intents.as_slice()
    }

    /// Returns the immutable provenance envelope.
    pub fn provenance(&self) -> (result: &CanonicalStoredEnvelopeV1)
        ensures
            *result == self.provenance,
    {
        &self.provenance
    }

    /// Returns the authoritative commit-log envelope.
    pub fn commit(&self) -> (result: &CanonicalStoredEnvelopeV1)
        ensures
            *result == self.commit,
    {
        &self.commit
    }

    /// Returns exact complete-envelope bytes charged by record class.
    pub fn actual_charge(&self) -> (result: CommandWriteClassBreakdownV1)
        ensures
            result == self.actual_charge,
    {
        self.actual_charge
    }
}

/// The bytes of one framed record.
pub open spec fn framed_size(framed: Framed) -> usize {
    framed->Ok_0@.len() as usize
}

/// The first failure in sealing the records of a command, in staging order.
pub open spec fn atomic_seal_failure(
    framed: FramedCommandRecords,
) -> Option<DurableCodecErrorKind> {
    if seal_failure(framed.allocator) is Some {
        seal_failure(framed.allocator)
    } else if optional_list_failure(framed.entities@) is Some {
        optional_list_failure(framed.entities@)
    } else if optional_list_failure(framed.vector_evidence@) is Some {
        optional_list_failure(framed.vector_evidence@)
    } else if optional_list_failure(framed.index_entries@) is Some {
        optional_list_failure(framed.index_entries@)
    } else if list_failure(framed.index_epochs@) is Some {
        list_failure(framed.index_epochs@)
    } else if seal_failure(framed.outcome) is Some {
        seal_failure(framed.outcome)
    } else if list_failure(framed.events@) is Some {
        list_failure(framed.events@)
    } else if list_failure(framed.event_routes@) is Some {
        list_failure(framed.event_routes@)
    } else if list_failure(framed.outbox_intents@) is Some {
        list_failure(framed.outbox_intents@)
    } else if seal_failure(framed.provenance) is Some {
        seal_failure(framed.provenance)
    } else {
        seal_failure(framed.commit)
    }
}

/// The bytes of the records of a command by class, or why they do not add up.
pub open spec fn actual_classes(framed: FramedCommandRecords) -> Result<
    RawWriteClassBreakdownV1,
    DurableCodecError,
> {
    let entities = both(
        optional_framed_sum(framed.entities@),
        optional_framed_sum(framed.vector_evidence@),
    );
    let index_entries = optional_framed_sum(framed.index_entries@);
    let index_epochs = framed_sum(framed.index_epochs@);
    let events = both(framed_sum(framed.events@), framed_sum(framed.event_routes@));
    let outbox_intents = framed_sum(framed.outbox_intents@);
    match first_failure(seq![entities, index_entries, index_epochs, events, outbox_intents]) {
        Some(error) => Err(error),
        None => {
            let classes = RawWriteClassBreakdownV1 {
                allocator: framed_size(framed.allocator),
                pending_resolution: 0,
                entities: entities->Ok_0,
                index_entries: index_entries->Ok_0,
                index_epochs: index_epochs->Ok_0,
                outcome: framed_size(framed.outcome),
                events: events->Ok_0,
                outbox_intents: outbox_intents->Ok_0,
                provenance: framed_size(framed.provenance),
                commit: framed_size(framed.commit),
            };
            if classes.sum() > usize::MAX {
                Err(DurableCodecError { kind: DurableCodecErrorKind::LimitExceeded })
            } else {
                Ok(classes)
            }
        },
    }
}

/// Whether a record set holds the envelopes of framed records.
pub open spec fn set_sealed(
    framed: FramedCommandRecords,
    set: EncodedAtomicCommandRecordSetV1,
) -> bool {
    &&& sealed(framed.allocator, set.allocator)
    &&& optional_list_sealed(framed.entities@, set.entities@)
    &&& optional_list_sealed(framed.vector_evidence@, set.vector_evidence@)
    &&& optional_list_sealed(framed.index_entries@, set.index_entries@)
    &&& list_sealed(framed.index_epochs@, set.index_epochs@)
    &&& sealed(framed.outcome, set.outcome)
    &&& list_sealed(framed.events@, set.events@)
    &&& list_sealed(framed.event_routes@, set.event_routes@)
    &&& list_sealed(framed.outbox_intents@, set.outbox_intents@)
    &&& sealed(framed.provenance, set.provenance)
    &&& sealed(framed.commit, set.commit)
}

/// What sealing the framed records of a command comes to: the first record that does
/// not seal, a class that is larger than its reservation, or the set.
pub open spec fn set_outcome(
    framed: FramedCommandRecords,
    reserved: EncodedWriteSetUpperBound,
    result: Result<EncodedAtomicCommandRecordSetV1, DurableCodecError>,
) -> bool {
    match atomic_seal_failure(framed) {
        Some(kind) => result == Err::<EncodedAtomicCommandRecordSetV1, _>(
            DurableCodecError { kind },
        ),
        None => match actual_classes(framed) {
            Err(error) => result == Err::<EncodedAtomicCommandRecordSetV1, _>(error),
            Ok(classes) => if classes.within(reserved.classes.classes) {
                result is Ok && set_sealed(framed, result->Ok_0)
                    && result->Ok_0.actual_charge.classes == classes
            } else {
                result == Err::<EncodedAtomicCommandRecordSetV1, _>(
                    DurableCodecError { kind: DurableCodecErrorKind::ReservationExceeded },
                )
            },
        },
    }
}

/// Seals every final record, given what framing it gave, and checks exact class charges
/// before staging.
pub fn seal_command_records(
    framed: &FramedCommandRecords,
    reserved: EncodedWriteSetUpperBound,
) -> (result: Result<EncodedAtomicCommandRecordSetV1, DurableCodecError>)
    requires
        reserved.wf(),
    ensures
        set_outcome(*framed, reserved, result),
{
    let allocator = seal_record(&framed.allocator)?;
    let entities = seal_optional_records(&framed.entities)?;
    let vector_evidence = seal_optional_records(&framed.vector_evidence)?;
    let index_entries = seal_optional_records(&framed.index_entries)?;
    let index_epochs = seal_records(&framed.index_epochs)?;
    let outcome = seal_record(&framed.outcome)?;
    let events = seal_records(&framed.events)?;
    let event_routes = seal_records(&framed.event_routes)?;
    let outbox_intents = seal_records(&framed.outbox_intents)?;
    let provenance = seal_record(&framed.provenance)?;
    let commit = seal_record(&framed.commit)?;
    proof {
        reveal_with_fuel(first_failure, 6);
        optional_envelopes_are_charged_for_their_bytes(framed.entities@, entities@);
        optional_envelopes_are_charged_for_their_bytes(framed.vector_evidence@, vector_evidence@);
        optional_envelopes_are_charged_for_their_bytes(framed.index_entries@, index_entries@);
        envelopes_are_charged_for_their_bytes(framed.index_epochs@, index_epochs@);
        envelopes_are_charged_for_their_bytes(framed.events@, events@);
        envelopes_are_charged_for_their_bytes(framed.event_routes@, event_routes@);
        envelopes_are_charged_for_their_bytes(framed.outbox_intents@, outbox_intents@);
    }
    let entity_bytes = sum_optional_envelope_charges(&entities)?;
    let evidence_bytes = sum_optional_envelope_charges(&vector_evidence)?;
    let entity_class = add_sizes(entity_bytes, evidence_bytes)?;
    let index_entry_class = sum_optional_envelope_charges(&index_entries)?;
    let index_epoch_class = sum_envelope_charges(&index_epochs)?;
    let event_bytes = sum_envelope_charges(&events)?;
    let route_bytes = sum_envelope_charges(&event_routes)?;
    let event_class = add_sizes(event_bytes, route_bytes)?;
    let outbox_class = sum_envelope_charges(&outbox_intents)?;
    let classes = RawWriteClassBreakdownV1 {
        allocator: allocator.charge.get(),
        pending_resolution: 0,
        entities: entity_class,
        index_entries: index_entry_class,
        index_epochs: index_epoch_class,
        outcome: outcome.charge.get(),
        events: event_class,
        outbox_intents: outbox_class,
        provenance: provenance.charge.get(),
        commit: commit.charge.get(),
    };
    let actual_charge = match CommandWriteClassBreakdownV1::new(classes) {
        Ok(charge) => charge,
        Err(error) => return Err(DurableCodecError::from_storage_value(error)),
    };
    verify_actual_write_set_charge_v1(actual_charge, reserved)?;
    Ok(
        EncodedAtomicCommandRecordSetV1 {
            allocator,
            entities,
            vector_evidence,
            index_entries,
            index_epochs,
            outcome,
            events,
            event_routes,
            outbox_intents,
            provenance,
            commit,
            actual_charge,
        },
    )
}

/// Sealed entity and index records of one command, before sequence assignment.
#[derive(Clone, PartialEq, Eq)]
pub struct PreparedCapsuleEnvelopesV1 {
    pub entities: Vec<Option<CanonicalStoredEnvelopeV1>>,
    pub index_entries: Vec<Option<CanonicalStoredEnvelopeV1>>,
}

/// Canonical entity and index preparation produced before sequence assignment: the
/// semantic members travel with their envelopes.
#[derive(Clone, PartialEq, Eq)]
pub struct PreparedCapsuleCommandFragmentsV1 {
    pub entities: Vec<CommittedEntityChange>,
    pub index_entries: Vec<IndexEntryMutationV1>,
    pub entity_references: Vec<CommittedEntityReferenceV2>,
    pub encoded: PreparedCapsuleEnvelopesV1,
}

impl PreparedCapsuleCommandFragmentsV1 {
    /// Borrows canonical entity mutations retained with their envelopes.
    pub fn entities(&self) -> (result: &[CommittedEntityChange])
        ensures
            result@ == self.entities@,
    {
        self.entities.as_slice()
    }

    /// Borrows exact post-image references proven by this preparation.
    pub fn entity_references(&self) -> (result: &[CommittedEntityReferenceV2])
        ensures
            result@ == self.entity_references@,
    {
        self.entity_references.as_slice()
    }

    /// Consumes the preparation.
    pub fn into_parts(self) -> (result: (
        Vec<CommittedEntityChange>,
        Vec<IndexEntryMutationV1>,
        Vec<CommittedEntityReferenceV2>,
        PreparedCapsuleEnvelopesV1,
    ))
        ensures
            result == (self.entities, self.index_entries, self.entity_references, self.encoded),
    {
        (self.entities, self.index_entries, self.entity_references, self.encoded)
    }
}

/// The references that the live changes and the digests of their post-images give,
/// in order, or the first digest that failed. A deletion gives none.
pub open spec fn live_references(
    entities: Seq<CommittedEntityChange>,
    hashes: Seq<Option<PostImageHash>>,
) -> Result<Seq<EntityReferenceView>, DurableCodecErrorKind>
    decreases entities.len(),
{
    if entities.len() == 0 {
        Ok(Seq::empty())
    } else {
        match live_references(entities.drop_last(), hashes.drop_last()) {
            Err(kind) => Err(kind),
            Ok(before) => match (entities.last(), hashes.last()) {
                (CommittedEntityChange::Live(mutation), Some(Ok(hash))) => Ok(
                    before.push(
                        EntityReferenceView {
                            target: mutation@.post_image.target,
                            entity_version: mutation@.post_image.entity_version,
                            post_image_hash: hash,
                        },
                    ),
                ),
                (CommittedEntityChange::Live(_), Some(Err(error))) => Err(value_failure(error)),
                (CommittedEntityChange::Live(_), None) => Err(
                    DurableCodecErrorKind::InvariantViolation,
                ),
                (CommittedEntityChange::Deleted(_), _) => Ok(before),
            },
        }
    }
}

proof fn early_failures_stand(
    entities: Seq<CommittedEntityChange>,
    hashes: Seq<Option<PostImageHash>>,
    count: int,
    kind: DurableCodecErrorKind,
)
    requires
        entities.len() == hashes.len(),
        0 <= count <= entities.len(),
        live_references(entities.take(count), hashes.take(count)) == Err::<
            Seq<EntityReferenceView>,
            DurableCodecErrorKind,
        >(kind),
    ensures
        live_references(entities, hashes) == Err::<Seq<EntityReferenceView>, DurableCodecErrorKind>(
            kind,
        ),
    decreases entities.len() - count,
{
    if count == entities.len() {
        assert(entities.take(count) =~= entities);
        assert(hashes.take(count) =~= hashes);
    } else {
        assert(entities.take(count + 1).drop_last() =~= entities.take(count));
        assert(hashes.take(count + 1).drop_last() =~= hashes.take(count));
        early_failures_stand(entities, hashes, count + 1, kind);
    }
}

fn references_from_changes(
    entities: &[CommittedEntityChange],
    hashes: &[Option<PostImageHash>],
) -> (result: Result<Vec<CommittedEntityReferenceV2>, DurableCodecError>)
    requires
        entities@.len() == hashes@.len(),
    ensures
        match live_references(entities@, hashes@) {
            Err(kind) => result == Err::<Vec<CommittedEntityReferenceV2>, _>(
                DurableCodecError { kind },
            ),
            Ok(references) => result is Ok && entity_reference_views(result->Ok_0@) == references,
        },
{
    let mut result: Vec<CommittedEntityReferenceV2> = Vec::new();
    let mut i: usize = 0;
    assert(entity_reference_views(result@) =~= Seq::empty());
    while i < entities.len()
        invariant
            i <= entities@.len(),
            entities@.len() == hashes@.len(),
            live_references(entities@.take(i as int), hashes@.take(i as int)) == Ok::<
                Seq<EntityReferenceView>,
                DurableCodecErrorKind,
            >(entity_reference_views(result@)),
        decreases entities@.len() - i,
    {
        proof {
            assert(entities@.take(i + 1).drop_last() =~= entities@.take(i as int));
            assert(hashes@.take(i + 1).drop_last() =~= hashes@.take(i as int));
            assert(entities@.take(i + 1).last() == entities@[i as int]);
            assert(hashes@.take(i + 1).last() == hashes@[i as int]);
        }
        match &entities[i] {
            CommittedEntityChange::Live(mutation) => match &hashes[i] {
                Some(Ok(hash)) => {
                    let ghost before = entity_reference_views(result@);
                    let reference = CommittedEntityReferenceV2 {
                        target: mutation.post_image.target.clone(),
                        entity_version: mutation.post_image.entity_version,
                        post_image_hash: *hash,
                    };
                    result.push(reference);
                    assert(entity_reference_views(result@) =~= before.push(reference@));
                },
                Some(Err(error)) => {
                    let failure = DurableCodecError::from_storage_value(*error);
                    proof {
                        early_failures_stand(entities@, hashes@, i + 1, failure.kind);
                    }
                    return Err(failure);
                },
                None => {
                    let failure = DurableCodecError::invariant_violation();
                    proof {
                        early_failures_stand(entities@, hashes@, i + 1, failure.kind);
                    }
                    return Err(failure);
                },
            },
            CommittedEntityChange::Deleted(_) => {},
        }
        i += 1;
    }
    proof {
        assert(entities@.take(i as int) =~= entities@);
        assert(hashes@.take(i as int) =~= hashes@);
    }
    Ok(result)
}

/// Why entity and index records cannot be prepared, if they cannot: a record that
/// does not seal, or a post-image without a digest.
pub open spec fn preparation_failure(
    entities: Seq<CommittedEntityChange>,
    framed_entities: Seq<Option<Framed>>,
    framed_index_entries: Seq<Option<Framed>>,
    hashes: Seq<Option<PostImageHash>>,
) -> Option<DurableCodecErrorKind> {
    if optional_list_failure(framed_entities) is Some {
        optional_list_failure(framed_entities)
    } else if optional_list_failure(framed_index_entries) is Some {
        optional_list_failure(framed_index_entries)
    } else {
        match live_references(entities, hashes) {
            Err(kind) => Some(kind),
            Ok(_) => None,
        }
    }
}

/// What preparing entity and index records comes to, given what framing them gave and
/// the digest of each live post-image.
pub open spec fn preparation_outcome(
    entities: Vec<CommittedEntityChange>,
    index_entries: Vec<IndexEntryMutationV1>,
    framed_entities: Seq<Option<Framed>>,
    framed_index_entries: Seq<Option<Framed>>,
    hashes: Seq<Option<PostImageHash>>,
    result: Result<PreparedCapsuleCommandFragmentsV1, DurableCodecError>,
) -> bool {
    match preparation_failure(entities@, framed_entities, framed_index_entries, hashes) {
        Some(kind) => result == Err::<PreparedCapsuleCommandFragmentsV1, _>(
            DurableCodecError { kind },
        ),
        None => {
            &&& result is Ok
            &&& result->Ok_0.entities == entities
            &&& result->Ok_0.index_entries == index_entries
            &&& live_references(entities@, hashes) == Ok::<
                Seq<EntityReferenceView>,
                DurableCodecErrorKind,
            >(entity_reference_views(result->Ok_0.entity_references@))
            &&& optional_list_sealed(framed_entities, result->Ok_0.encoded.entities@)
            &&& optional_list_sealed(framed_index_entries, result->Ok_0.encoded.index_entries@)
        },
    }
}

/// Seals sequence-free entity and secondary-index post-images once, given what framing
/// them gave and the digest of each live post-image.
pub fn prepare_fragments_under(
    entities: Vec<CommittedEntityChange>,
    index_entries: Vec<IndexEntryMutationV1>,
    framed_entities: &[Option<Framed>],
    framed_index_entries: &[Option<Framed>],
    hashes: &[Option<PostImageHash>],
) -> (result: Result<PreparedCapsuleCommandFragmentsV1, DurableCodecError>)
    requires
        entities@.len() == hashes@.len(),
    ensures
        preparation_outcome(
            entities,
            index_entries,
            framed_entities@,
            framed_index_entries@,
            hashes@,
            result,
        ),
{
    let encoded_entities = seal_optional_records(framed_entities)?;
    let encoded_index_entries = seal_optional_records(framed_index_entries)?;
    let entity_references = references_from_changes(&entities, hashes)?;
    Ok(
        PreparedCapsuleCommandFragmentsV1 {
            entities,
            index_entries,
            entity_references,
            encoded: PreparedCapsuleEnvelopesV1 {
                entities: encoded_entities,
                index_entries: encoded_index_entries,
            },
        },
    )
}

/// Canonical envelopes of the records that are stored beside a command segment.
#[derive(Clone, PartialEq, Eq)]
pub struct EncodedCapsuleCommandRecordSetV1 {
    pub entities: Vec<Option<CanonicalStoredEnvelopeV1>>,
    pub vector_evidence: Vec<Option<CanonicalStoredEnvelopeV1>>,
    pub index_entries: Vec<Option<CanonicalStoredEnvelopeV1>>,
    pub index_epochs: Vec<CanonicalStoredEnvelopeV1>,
}

impl EncodedCapsuleCommandRecordSetV1 {
    /// Consumes the checked independently stored envelopes.
    pub fn into_parts(self) -> (result: (
        Vec<Option<CanonicalStoredEnvelopeV1>>,
        Vec<Option<CanonicalStoredEnvelopeV1>>,
        Vec<Option<CanonicalStoredEnvelopeV1>>,
        Vec<CanonicalStoredEnvelopeV1>,
    ))
        ensures
            result == (self.entities, self.vector_evidence, self.index_entries, self.index_epochs),
    {
        (self.entities, self.vector_evidence, self.index_entries, self.index_epochs)
    }
}

impl EncodedAtomicCommandRecordSetV1 {
    /// Consumes the checked record set into its canonical envelopes.
    pub fn into_parts(self) -> (result: (
        CanonicalStoredEnvelopeV1,
        Vec<Option<CanonicalStoredEnvelopeV1>>,
        Vec<Option<CanonicalStoredEnvelopeV1>>,
        Vec<Option<CanonicalStoredEnvelopeV1>>,
        Vec<CanonicalStoredEnvelopeV1>,
        CanonicalStoredEnvelopeV1,
        Vec<CanonicalStoredEnvelopeV1>,
        Vec<CanonicalStoredEnvelopeV1>,
        Vec<CanonicalStoredEnvelopeV1>,
        CanonicalStoredEnvelopeV1,
        CanonicalStoredEnvelopeV1,
        CommandWriteClassBreakdownV1,
    ))
        ensures
            result.0 == self.allocator,
            result.1 == self.entities,
            result.2 == self.vector_evidence,
            result.3 == self.index_entries,
            result.4 == self.index_epochs,
            result.5 == self.outcome,
            result.6 == self.events,
            result.7 == self.event_routes,
            result.8 == self.outbox_intents,
            result.9 == self.provenance,
            result.10 == self.commit,
            result.11 == self.actual_charge,
    {
        (
            self.allocator,
            self.entities,
            self.vector_evidence,
            self.index_entries,
            self.index_epochs,
            self.outcome,
            self.events,
            self.event_routes,
            self.outbox_intents,
            self.provenance,
            self.commit,
            self.actual_charge,
        )
    }
}

/// Whether the records beside a segment fit their reservation, or why that cannot
/// be told. A class that is too large is enough to refuse the rest.
pub open spec fn capsule_fits(
    entities: Seq<Option<CanonicalStoredEnvelopeV1>>,
    vector_evidence: Seq<Option<Framed>>,
    index_entries: Seq<Option<CanonicalStoredEnvelopeV1>>,
    index_epochs: Seq<Framed>,
    reserved: RawWriteClassBreakdownV1,
) -> Result<bool, DurableCodecError> {
    match both(
        size_sum(0, optional_envelope_sizes(entities)),
        optional_framed_sum(vector_evidence),
    ) {
        Err(error) => Err(error),
        Ok(entity_bytes) => if entity_bytes > reserved.entities {
            Ok(false)
        } else {
            match size_sum(0, optional_envelope_sizes(index_entries)) {
                Err(error) => Err(error),
                Ok(index_bytes) => if index_bytes > reserved.index_entries {
                    Ok(false)
                } else {
                    match framed_sum(index_epochs) {
                        Err(error) => Err(error),
                        Ok(epoch_bytes) => Ok(epoch_bytes <= reserved.index_epochs),
                    }
                },
            }
        },
    }
}

/// What sealing the records beside a segment comes to.
pub open spec fn capsule_set_outcome(
    prepared: PreparedCapsuleEnvelopesV1,
    framed_index_epochs: Seq<Framed>,
    framed_vector_evidence: Seq<Option<Framed>>,
    reserved: EncodedWriteSetUpperBound,
    result: Result<EncodedCapsuleCommandRecordSetV1, DurableCodecError>,
) -> bool {
    if list_failure(framed_index_epochs) is Some {
        result == Err::<EncodedCapsuleCommandRecordSetV1, _>(
            DurableCodecError { kind: list_failure(framed_index_epochs)->Some_0 },
        )
    } else if optional_list_failure(framed_vector_evidence) is Some {
        result == Err::<EncodedCapsuleCommandRecordSetV1, _>(
            DurableCodecError { kind: optional_list_failure(framed_vector_evidence)->Some_0 },
        )
    } else {
        match capsule_fits(
            prepared.entities@,
            framed_vector_evidence,
            prepared.index_entries@,
            framed_index_epochs,
            reserved.classes.classes,
        ) {
            Err(error) => result == Err::<EncodedCapsuleCommandRecordSetV1, _>(error),
            Ok(false) => result == Err::<EncodedCapsuleCommandRecordSetV1, _>(
                DurableCodecError { kind: DurableCodecErrorKind::ReservationExceeded },
            ),
            Ok(true) => result is Ok && result->Ok_0.entities == prepared.entities
                && result->Ok_0.index_entries == prepared.index_entries && optional_list_sealed(
                framed_vector_evidence,
                result->Ok_0.vector_evidence@,
            ) && list_sealed(framed_index_epochs, result->Ok_0.index_epochs@),
        }
    }
}

/// Seals only the records stored independently by the command-segment layout,
/// given the prepared entity and index envelopes and what framing the others gave.
pub fn seal_capsule_records(
    prepared: PreparedCapsuleEnvelopesV1,
    framed_index_epochs: &[Framed],
    framed_vector_evidence: &[Option<Framed>],
    reserved: EncodedWriteSetUpperBound,
) -> (result: Result<EncodedCapsuleCommandRecordSetV1, DurableCodecError>)
    ensures
        capsule_set_outcome(
            prepared,
            framed_index_epochs@,
            framed_vector_evidence@,
            reserved,
            result,
        ),
{
    let index_epochs = seal_records(framed_index_epochs)?;
    let vector_evidence = seal_optional_records(framed_vector_evidence)?;
    proof {
        envelopes_are_charged_for_their_bytes(framed_index_epochs@, index_epochs@);
        optional_envelopes_are_charged_for_their_bytes(framed_vector_evidence@, vector_evidence@);
    }
    let classes = reserved.classes().classes;
    let entity_bytes = sum_optional_envelope_charges(&prepared.entities)?;
    let evidence_bytes = sum_optional_envelope_charges(&vector_evidence)?;
    let exceeded = DurableCodecError::new(DurableCodecErrorKind::ReservationExceeded);
    if add_sizes(entity_bytes, evidence_bytes)? > classes.entities {
        return Err(exceeded);
    }
    if sum_optional_envelope_charges(&prepared.index_entries)? > classes.index_entries {
        return Err(exceeded);
    }
    if sum_envelope_charges(&index_epochs)? > classes.index_epochs {
        return Err(exceeded);
    }
    Ok(
        EncodedCapsuleCommandRecordSetV1 {
            entities: prepared.entities,
            vector_evidence,
            index_entries: prepared.index_entries,
            index_epochs,
        },
    )
}

/// The records of one final command.
#[derive(PartialEq, Eq)]
pub struct AtomicCommandRecordSet {
    pub next_application_sequence: ApplicationSequenceAllocator,
    pub entities: Vec<CommittedEntityChange>,
    pub index_entries: Vec<IndexEntryMutationV1>,
    pub index_epochs: Vec<IndexEpochAdvanceV1>,
    pub stored_outcome: StoredOutcomeV1,
    pub events: Vec<StoredDurableEventV1>,
    pub outbox_intents: Vec<StoredOutboxIntentV1>,
    pub provenance: StoredProvenanceRecordV1,
    pub commit: StoredCommitRecordV1,
}

/// One record of a final command, to be framed.
pub enum OutgoingCommandRecord {
    Allocator(OutgoingRecord<wire::StoredApplicationSequenceAllocatorV1>),
    Entity(OutgoingRecord<wire::StoredEntityRecordV1>),
    IndexEntry(OutgoingRecord<wire::StoredIndexEntryV2>),
    IndexEpoch(OutgoingRecord<wire::StoredIndexGenerationV2>),
    Outcome(OutgoingRecord<wire::StoredOutcomeV2>),
    Event(OutgoingRecord<wire::StoredDurableEventV1>),
    EventRoute(OutgoingRecord<wire::StoredEventRouteV1>),
    OutboxIntent(OutgoingRecord<wire::StoredOutboxIntentV2>),
    Provenance(OutgoingRecord<wire::StoredProvenanceRecordV2>),
    Commit(OutgoingRecord<wire::StoredCommitRecordV3>),
}

/// Whether a message is that of an entity change: a deletion has none.
pub open spec fn entity_goes_out(
    value: CommittedEntityChange,
    outgoing: Option<OutgoingRecord<wire::StoredEntityRecordV1>>,
) -> bool {
    match value {
        CommittedEntityChange::Live(mutation) => outgoing matches Some(record)
            && record.record_type == RecordType::StoredEntityRecordV1 && entity_carries(
            record.message,
            mutation@.post_image,
        ),
        CommittedEntityChange::Deleted(_) => outgoing is None,
    }
}

/// Whether a message is that of an index change: a deletion has none.
pub open spec fn index_entry_goes_out(
    value: IndexEntryMutationV1,
    outgoing: Option<OutgoingRecord<wire::StoredIndexEntryV2>>,
) -> bool {
    match value {
        IndexEntryMutationV1::Put(entry) => outgoing matches Some(record) && record.record_type
            == RecordType::StoredIndexEntryV2 && index_entry_carries(record.message, entry@),
        IndexEntryMutationV1::Delete(_) => outgoing is None,
    }
}

/// Whether a message is that of an index epoch.
pub open spec fn epoch_goes_out(
    value: IndexEpochAdvanceV1,
    outgoing: OutgoingRecord<wire::StoredIndexGenerationV2>,
) -> bool {
    outgoing.record_type == RecordType::StoredIndexGenerationV2 && index_epoch_carries(
        outgoing.message,
        value@.post_image,
    )
}

/// Whether a message is that of an event.
pub open spec fn event_goes_out(
    value: StoredDurableEventV1,
    outgoing: OutgoingRecord<wire::StoredDurableEventV1>,
) -> bool {
    outgoing.record_type == RecordType::StoredDurableEventV1 && event_carries(
        outgoing.message,
        value@,
    )
}

/// Whether a message is that of an event's route.
pub open spec fn route_goes_out(
    value: StoredDurableEventV1,
    outgoing: OutgoingRecord<wire::StoredEventRouteV1>,
) -> bool {
    outgoing.record_type == RecordType::StoredEventRouteV1 && event_route_carries(
        outgoing.message,
        StoredEventRouteV1 {
            event_id: value.event_id,
            event_type_id: value.event_type_id,
            event_hash: value.event_hash,
        },
    )
}

/// Whether a message is that of an outbox intent.
pub open spec fn intent_goes_out(
    value: StoredOutboxIntentV1,
    outgoing: OutgoingRecord<wire::StoredOutboxIntentV2>,
) -> bool {
    outgoing.record_type == RecordType::StoredOutboxIntentV2 && intent_refers(
        outgoing.message,
        reference_to(value.event@),
    )
}

/// Whether a message is that of the allocator.
pub open spec fn allocator_goes_out(
    value: ApplicationSequenceAllocator,
    outgoing: OutgoingRecord<wire::StoredApplicationSequenceAllocatorV1>,
) -> bool {
    outgoing.record_type == RecordType::StoredApplicationSequenceAllocatorV1
        && application_allocator_carries(outgoing.message, value)
}

/// Whether a message is that of the outcome.
pub open spec fn outcome_goes_out(
    value: StoredOutcomeV1,
    outgoing: OutgoingRecord<wire::StoredOutcomeV2>,
) -> bool {
    outgoing.record_type == RecordType::StoredOutcomeV2 && outcome_v2_carries(
        outgoing.message,
        value@,
    )
}

/// Whether a message is that of the provenance.
pub open spec fn provenance_goes_out(
    value: StoredProvenanceRecordV1,
    outgoing: OutgoingRecord<wire::StoredProvenanceRecordV2>,
) -> bool {
    outgoing.record_type == RecordType::StoredProvenanceRecordV2 && provenance_v2_carries(
        outgoing.message,
        value@,
    )
}

/// Whether a message is that of the commit.
pub open spec fn commit_goes_out(
    value: StoredCommitRecordV1,
    outgoing: OutgoingRecord<wire::StoredCommitRecordV3>,
) -> bool {
    &&& outgoing.record_type == RecordType::StoredCommitRecordV3
    &&& commit_parts_carries(outgoing.message.parts, value@.parts)
    &&& entity_reference_list_carries(
        outgoing.message.entity_references@,
        value@.entity_references,
    )
    &&& event_reference_list_carries(
        outgoing.message.event_references@,
        references_to(value@.events),
    )
}

/// Whether a framed record is what the framing layer gives for the allocator.
pub open spec fn allocator_framed<F: Fn(OutgoingCommandRecord) -> Framed>(
    frame: F,
    value: ApplicationSequenceAllocator,
    framed: Framed,
) -> bool {
    exists|outgoing: OutgoingRecord<wire::StoredApplicationSequenceAllocatorV1>|
        allocator_goes_out(value, outgoing) && #[trigger] frame.ensures(
            (OutgoingCommandRecord::Allocator(outgoing),),
            framed,
        )
}

fn frame_allocator<F: Fn(OutgoingCommandRecord) -> Framed>(
    frame: &F,
    value: ApplicationSequenceAllocator,
) -> (result: Framed)
    requires
        forall|record: OutgoingCommandRecord| #[trigger] frame.requires((record,)),
    ensures
        allocator_framed(*frame, value, result),
{
    let outgoing = encode_application_sequence_allocator_v1(value);
    let framed = frame(OutgoingCommandRecord::Allocator(outgoing));
    assert(frame.ensures((OutgoingCommandRecord::Allocator(outgoing),), framed));
    framed
}

/// Whether a framed record is what the framing layer gives for an entity change: a deletion has
/// none.
pub open spec fn entity_framed<F: Fn(OutgoingCommandRecord) -> Framed>(
    frame: F,
    value: CommittedEntityChange,
    framed: Option<Framed>,
) -> bool {
    match framed {
        Some(framed) => exists|outgoing: OutgoingRecord<wire::StoredEntityRecordV1>|
            entity_goes_out(value, Some(outgoing)) && #[trigger] frame.ensures(
                (OutgoingCommandRecord::Entity(outgoing),),
                framed,
            ),
        None => entity_goes_out(value, None),
    }
}

fn frame_entity<F: Fn(OutgoingCommandRecord) -> Framed>(
    frame: &F,
    value: &CommittedEntityChange,
) -> (result: Option<Framed>)
    requires
        forall|record: OutgoingCommandRecord| #[trigger] frame.requires((record,)),
    ensures
        entity_framed(*frame, *value, result),
{
    match value {
        CommittedEntityChange::Live(mutation) => {
            let outgoing = encode_entity_record_v1(&mutation.post_image);
            assert(entity_goes_out(*value, Some(outgoing)));
            let framed = frame(OutgoingCommandRecord::Entity(outgoing));
            assert(frame.ensures((OutgoingCommandRecord::Entity(outgoing),), framed));
            Some(framed)
        },
        CommittedEntityChange::Deleted(_) => None,
    }
}

/// Whether framed records are what the framing layer gives for entity changes, one by one.
pub open spec fn entity_list_framed<F: Fn(OutgoingCommandRecord) -> Framed>(
    frame: F,
    values: Seq<CommittedEntityChange>,
    framed: Seq<Option<Framed>>,
) -> bool {
    &&& values.len() == framed.len()
    &&& forall|i: int|
        0 <= i < values.len() ==> entity_framed(frame, values[i], #[trigger] framed[i])
}

fn frame_entity_list<F: Fn(OutgoingCommandRecord) -> Framed>(
    frame: &F,
    values: &[CommittedEntityChange],
) -> (result: Vec<Option<Framed>>)
    requires
        forall|record: OutgoingCommandRecord| #[trigger] frame.requires((record,)),
    ensures
        entity_list_framed(*frame, values@, result@),
{
    let mut result: Vec<Option<Framed>> = Vec::new();
    let mut i: usize = 0;
    while i < values.len()
        invariant
            i <= values@.len(),
            result@.len() == i,
            forall|record: OutgoingCommandRecord| #[trigger] frame.requires((record,)),
            forall|k: int|
                0 <= k < i ==> entity_framed(*frame, values@[k], #[trigger] result@[k]),
        decreases values@.len() - i,
    {
        result.push(frame_entity(frame, &values[i]));
        i += 1;
    }
    result
}

/// Whether a framed record is what the framing layer gives for an index change: a deletion has
/// none.
pub open spec fn index_entry_framed<F: Fn(OutgoingCommandRecord) -> Framed>(
    frame: F,
    value: IndexEntryMutationV1,
    framed: Option<Framed>,
) -> bool {
    match framed {
        Some(framed) => exists|outgoing: OutgoingRecord<wire::StoredIndexEntryV2>|
            index_entry_goes_out(value, Some(outgoing)) && #[trigger] frame.ensures(
                (OutgoingCommandRecord::IndexEntry(outgoing),),
                framed,
            ),
        None => index_entry_goes_out(value, None),
    }
}

fn frame_index_entry<F: Fn(OutgoingCommandRecord) -> Framed>(
    frame: &F,
    value: &IndexEntryMutationV1,
) -> (result: Option<Framed>)
    requires
        forall|record: OutgoingCommandRecord| #[trigger] frame.requires((record,)),
    ensures
        index_entry_framed(*frame, *value, result),
{
    match value {
        IndexEntryMutationV1::Put(entry) => {
            let outgoing = encode_index_entry_v2(entry);
            assert(index_entry_goes_out(*value, Some(outgoing)));
            let framed = frame(OutgoingCommandRecord::IndexEntry(outgoing));
            assert(frame.ensures((OutgoingCommandRecord::IndexEntry(outgoing),), framed));
            Some(framed)
        },
        IndexEntryMutationV1::Delete(_) => None,
    }
}

/// Whether framed records are what the framing layer gives for index changes, one by one.
pub open spec fn index_entry_list_framed<F: Fn(OutgoingCommandRecord) -> Framed>(
    frame: F,
    values: Seq<IndexEntryMutationV1>,
    framed: Seq<Option<Framed>>,
) -> bool {
    &&& values.len() == framed.len()
    &&& forall|i: int|
        0 <= i < values.len() ==> index_entry_framed(frame, values[i], #[trigger] framed[i])
}

fn frame_index_entry_list<F: Fn(OutgoingCommandRecord) -> Framed>(
    frame: &F,
    values: &[IndexEntryMutationV1],
) -> (result: Vec<Option<Framed>>)
    requires
        forall|record: OutgoingCommandRecord| #[trigger] frame.requires((record,)),
    ensures
        index_entry_list_framed(*frame, values@, result@),
{
    let mut result: Vec<Option<Framed>> = Vec::new();
    let mut i: usize = 0;
    while i < values.len()
        invariant
            i <= values@.len(),
            result@.len() == i,
            forall|record: OutgoingCommandRecord| #[trigger] frame.requires((record,)),
            forall|k: int|
                0 <= k < i ==> index_entry_framed(*frame, values@[k], #[trigger] result@[k]),
        decreases values@.len() - i,
    {
        result.push(frame_index_entry(frame, &values[i]));
        i += 1;
    }
    result
}

/// Whether a framed record is what the framing layer gives for an index epoch.
pub open spec fn epoch_framed<F: Fn(OutgoingCommandRecord) -> Framed>(
    frame: F,
    value: IndexEpochAdvanceV1,
    framed: Framed,
) -> bool {
    exists|outgoing: OutgoingRecord<wire::StoredIndexGenerationV2>|
        epoch_goes_out(value, outgoing) && #[trigger] frame.ensures(
            (OutgoingCommandRecord::IndexEpoch(outgoing),),
            framed,
        )
}

fn frame_epoch<F: Fn(OutgoingCommandRecord) -> Framed>(
    frame: &F,
    value: &IndexEpochAdvanceV1,
) -> (result: Framed)
    requires
        forall|record: OutgoingCommandRecord| #[trigger] frame.requires((record,)),
    ensures
        epoch_framed(*frame, *value, result),
{
    let outgoing = encode_index_epoch_v1(&value.post_image);
    let framed = frame(OutgoingCommandRecord::IndexEpoch(outgoing));
    assert(frame.ensures((OutgoingCommandRecord::IndexEpoch(outgoing),), framed));
    framed
}

/// Whether framed records are what the framing layer gives for index epochs, one by one.
pub open spec fn epoch_list_framed<F: Fn(OutgoingCommandRecord) -> Framed>(
    frame: F,
    values: Seq<IndexEpochAdvanceV1>,
    framed: Seq<Framed>,
) -> bool {
    &&& values.len() == framed.len()
    &&& forall|i: int|
        0 <= i < values.len() ==> epoch_framed(frame, values[i], #[trigger] framed[i])
}

fn frame_epoch_list<F: Fn(OutgoingCommandRecord) -> Framed>(
    frame: &F,
    values: &[IndexEpochAdvanceV1],
) -> (result: Vec<Framed>)
    requires
        forall|record: OutgoingCommandRecord| #[trigger] frame.requires((record,)),
    ensures
        epoch_list_framed(*frame, values@, result@),
{
    let mut result: Vec<Framed> = Vec::new();
    let mut i: usize = 0;
    while i < values.len()
        invariant
            i <= values@.len(),
            result@.len() == i,
            forall|record: OutgoingCommandRecord| #[trigger] frame.requires((record,)),
            forall|k: int|
                0 <= k < i ==> epoch_framed(*frame, values@[k], #[trigger] result@[k]),
        decreases values@.len() - i,
    {
        result.push(frame_epoch(frame, &values[i]));
        i += 1;
    }
    result
}

/// Whether a framed record is what the framing layer gives for the outcome.
pub open spec fn outcome_framed<F: Fn(OutgoingCommandRecord) -> Framed>(
    frame: F,
    value: StoredOutcomeV1,
    framed: Framed,
) -> bool {
    exists|outgoing: OutgoingRecord<wire::StoredOutcomeV2>|
        outcome_goes_out(value, outgoing) && #[trigger] frame.ensures(
            (OutgoingCommandRecord::Outcome(outgoing),),
            framed,
        )
}

fn frame_outcome<F: Fn(OutgoingCommandRecord) -> Framed>(
    frame: &F,
    value: &StoredOutcomeV1,
) -> (result: Framed)
    requires
        forall|record: OutgoingCommandRecord| #[trigger] frame.requires((record,)),
    ensures
        outcome_framed(*frame, *value, result),
{
    let outgoing = encode_stored_outcome_v1(value);
    let framed = frame(OutgoingCommandRecord::Outcome(outgoing));
    assert(frame.ensures((OutgoingCommandRecord::Outcome(outgoing),), framed));
    framed
}

/// Whether a framed record is what the framing layer gives for an event.
pub open spec fn event_framed<F: Fn(OutgoingCommandRecord) -> Framed>(
    frame: F,
    value: StoredDurableEventV1,
    framed: Framed,
) -> bool {
    exists|outgoing: OutgoingRecord<wire::StoredDurableEventV1>|
        event_goes_out(value, outgoing) && #[trigger] frame.ensures(
            (OutgoingCommandRecord::Event(outgoing),),
            framed,
        )
}

fn frame_event<F: Fn(OutgoingCommandRecord) -> Framed>(
    frame: &F,
    value: &StoredDurableEventV1,
) -> (result: Framed)
    requires
        forall|record: OutgoingCommandRecord| #[trigger] frame.requires((record,)),
    ensures
        event_framed(*frame, *value, result),
{
    let outgoing = encode_durable_event_v1(value);
    let framed = frame(OutgoingCommandRecord::Event(outgoing));
    assert(frame.ensures((OutgoingCommandRecord::Event(outgoing),), framed));
    framed
}

/// Whether framed records are what the framing layer gives for events, one by one.
pub open spec fn event_list_framed<F: Fn(OutgoingCommandRecord) -> Framed>(
    frame: F,
    values: Seq<StoredDurableEventV1>,
    framed: Seq<Framed>,
) -> bool {
    &&& values.len() == framed.len()
    &&& forall|i: int|
        0 <= i < values.len() ==> event_framed(frame, values[i], #[trigger] framed[i])
}

fn frame_event_list<F: Fn(OutgoingCommandRecord) -> Framed>(
    frame: &F,
    values: &[StoredDurableEventV1],
) -> (result: Vec<Framed>)
    requires
        forall|record: OutgoingCommandRecord| #[trigger] frame.requires((record,)),
    ensures
        event_list_framed(*frame, values@, result@),
{
    let mut result: Vec<Framed> = Vec::new();
    let mut i: usize = 0;
    while i < values.len()
        invariant
            i <= values@.len(),
            result@.len() == i,
            forall|record: OutgoingCommandRecord| #[trigger] frame.requires((record,)),
            forall|k: int|
                0 <= k < i ==> event_framed(*frame, values@[k], #[trigger] result@[k]),
        decreases values@.len() - i,
    {
        result.push(frame_event(frame, &values[i]));
        i += 1;
    }
    result
}

/// Whether a framed record is what the framing layer gives for an event's route.
pub open spec fn route_framed<F: Fn(OutgoingCommandRecord) -> Framed>(
    frame: F,
    value: StoredDurableEventV1,
    framed: Framed,
) -> bool {
    exists|outgoing: OutgoingRecord<wire::StoredEventRouteV1>|
        route_goes_out(value, outgoing) && #[trigger] frame.ensures(
            (OutgoingCommandRecord::EventRoute(outgoing),),
            framed,
        )
}

fn frame_route<F: Fn(OutgoingCommandRecord) -> Framed>(
    frame: &F,
    value: &StoredDurableEventV1,
) -> (result: Framed)
    requires
        forall|record: OutgoingCommandRecord| #[trigger] frame.requires((record,)),
    ensures
        route_framed(*frame, *value, result),
{
    let outgoing = encode_event_route_v1(
        StoredEventRouteV1 {
            event_id: value.event_id,
            event_type_id: value.event_type_id,
            event_hash: value.event_hash,
        },
    );
    let framed = frame(OutgoingCommandRecord::EventRoute(outgoing));
    assert(frame.ensures((OutgoingCommandRecord::EventRoute(outgoing),), framed));
    framed
}

/// Whether framed records are what the framing layer gives for the routes of events, one by one.
pub open spec fn route_list_framed<F: Fn(OutgoingCommandRecord) -> Framed>(
    frame: F,
    values: Seq<StoredDurableEventV1>,
    framed: Seq<Framed>,
) -> bool {
    &&& values.len() == framed.len()
    &&& forall|i: int|
        0 <= i < values.len() ==> route_framed(frame, values[i], #[trigger] framed[i])
}

fn frame_route_list<F: Fn(OutgoingCommandRecord) -> Framed>(
    frame: &F,
    values: &[StoredDurableEventV1],
) -> (result: Vec<Framed>)
    requires
        forall|record: OutgoingCommandRecord| #[trigger] frame.requires((record,)),
    ensures
        route_list_framed(*frame, values@, result@),
{
    let mut result: Vec<Framed> = Vec::new();
    let mut i: usize = 0;
    while i < values.len()
        invariant
            i <= values@.len(),
            result@.len() == i,
            forall|record: OutgoingCommandRecord| #[trigger] frame.requires((record,)),
            forall|k: int|
                0 <= k < i ==> route_framed(*frame, values@[k], #[trigger] result@[k]),
        decreases values@.len() - i,
    {
        result.push(frame_route(frame, &values[i]));
        i += 1;
    }
    result
}

/// Whether a framed record is what the framing layer gives for an outbox intent.
pub open spec fn intent_framed<F: Fn(OutgoingCommandRecord) -> Framed>(
    frame: F,
    value: StoredOutboxIntentV1,
    framed: Framed,
) -> bool {
    exists|outgoing: OutgoingRecord<wire::StoredOutboxIntentV2>|
        intent_goes_out(value, outgoing) && #[trigger] frame.ensures(
            (OutgoingCommandRecord::OutboxIntent(outgoing),),
            framed,
        )
}

fn frame_intent<F: Fn(OutgoingCommandRecord) -> Framed>(
    frame: &F,
    value: &StoredOutboxIntentV1,
) -> (result: Framed)
    requires
        forall|record: OutgoingCommandRecord| #[trigger] frame.requires((record,)),
    ensures
        intent_framed(*frame, *value, result),
{
    let outgoing = encode_outbox_intent_v1(value);
    let framed = frame(OutgoingCommandRecord::OutboxIntent(outgoing));
    assert(frame.ensures((OutgoingCommandRecord::OutboxIntent(outgoing),), framed));
    framed
}

/// Whether framed records are what the framing layer gives for outbox intents, one by one.
pub open spec fn intent_list_framed<F: Fn(OutgoingCommandRecord) -> Framed>(
    frame: F,
    values: Seq<StoredOutboxIntentV1>,
    framed: Seq<Framed>,
) -> bool {
    &&& values.len() == framed.len()
    &&& forall|i: int|
        0 <= i < values.len() ==> intent_framed(frame, values[i], #[trigger] framed[i])
}

fn frame_intent_list<F: Fn(OutgoingCommandRecord) -> Framed>(
    frame: &F,
    values: &[StoredOutboxIntentV1],
) -> (result: Vec<Framed>)
    requires
        forall|record: OutgoingCommandRecord| #[trigger] frame.requires((record,)),
    ensures
        intent_list_framed(*frame, values@, result@),
{
    let mut result: Vec<Framed> = Vec::new();
    let mut i: usize = 0;
    while i < values.len()
        invariant
            i <= values@.len(),
            result@.len() == i,
            forall|record: OutgoingCommandRecord| #[trigger] frame.requires((record,)),
            forall|k: int|
                0 <= k < i ==> intent_framed(*frame, values@[k], #[trigger] result@[k]),
        decreases values@.len() - i,
    {
        result.push(frame_intent(frame, &values[i]));
        i += 1;
    }
    result
}

/// Whether a framed record is what the framing layer gives for the provenance.
pub open spec fn provenance_framed<F: Fn(OutgoingCommandRecord) -> Framed>(
    frame: F,
    value: StoredProvenanceRecordV1,
    framed: Framed,
) -> bool {
    exists|outgoing: OutgoingRecord<wire::StoredProvenanceRecordV2>|
        provenance_goes_out(value, outgoing) && #[trigger] frame.ensures(
            (OutgoingCommandRecord::Provenance(outgoing),),
            framed,
        )
}

fn frame_provenance<F: Fn(OutgoingCommandRecord) -> Framed>(
    frame: &F,
    value: &StoredProvenanceRecordV1,
) -> (result: Framed)
    requires
        forall|record: OutgoingCommandRecord| #[trigger] frame.requires((record,)),
    ensures
        provenance_framed(*frame, *value, result),
{
    let outgoing = encode_provenance_record_v1(value);
    let framed = frame(OutgoingCommandRecord::Provenance(outgoing));
    assert(frame.ensures((OutgoingCommandRecord::Provenance(outgoing),), framed));
    framed
}

/// Whether a framed record is what the framing layer gives for the commit.
pub open spec fn commit_framed<F: Fn(OutgoingCommandRecord) -> Framed>(
    frame: F,
    value: StoredCommitRecordV1,
    framed: Framed,
) -> bool {
    exists|outgoing: OutgoingRecord<wire::StoredCommitRecordV3>|
        commit_goes_out(value, outgoing) && #[trigger] frame.ensures(
            (OutgoingCommandRecord::Commit(outgoing),),
            framed,
        )
}

fn frame_commit<F: Fn(OutgoingCommandRecord) -> Framed>(
    frame: &F,
    value: &StoredCommitRecordV1,
) -> (result: Framed)
    requires
        forall|record: OutgoingCommandRecord| #[trigger] frame.requires((record,)),
    ensures
        commit_framed(*frame, *value, result),
{
    let outgoing = encode_commit_record_v1(value);
    let framed = frame(OutgoingCommandRecord::Commit(outgoing));
    assert(frame.ensures((OutgoingCommandRecord::Commit(outgoing),), framed));
    framed
}

/// Whether framed records are what the framing layer gives for the records of a final
/// command.
pub open spec fn records_framed<F: Fn(OutgoingCommandRecord) -> Framed>(
    frame: F,
    records: AtomicCommandRecordSet,
    framed: FramedCommandRecords,
) -> bool {
    &&& allocator_framed(frame, records.next_application_sequence, framed.allocator)
    &&& entity_list_framed(frame, records.entities@, framed.entities@)
    &&& index_entry_list_framed(frame, records.index_entries@, framed.index_entries@)
    &&& epoch_list_framed(frame, records.index_epochs@, framed.index_epochs@)
    &&& outcome_framed(frame, records.stored_outcome, framed.outcome)
    &&& event_list_framed(frame, records.events@, framed.events@)
    &&& route_list_framed(frame, records.events@, framed.event_routes@)
    &&& intent_list_framed(frame, records.outbox_intents@, framed.outbox_intents@)
    &&& provenance_framed(frame, records.provenance, framed.provenance)
    &&& commit_framed(frame, records.commit, framed.commit)
}

/// Encodes every final record and checks exact class charges before staging. The rows
/// of vector evidence come framed, one for each change that puts one.
pub fn encode_atomic_command_record_set_v1<F: Fn(OutgoingCommandRecord) -> Framed>(
    records: &AtomicCommandRecordSet,
    vector_evidence: Vec<Option<Framed>>,
    reserved: EncodedWriteSetUpperBound,
    frame: F,
) -> (result: Result<EncodedAtomicCommandRecordSetV1, DurableCodecError>)
    requires
        reserved.wf(),
        forall|record: OutgoingCommandRecord| #[trigger] frame.requires((record,)),
    ensures
        exists|framed: FramedCommandRecords| #[trigger]
            records_framed(frame, *records, framed) && framed.vector_evidence
                == vector_evidence && set_outcome(framed, reserved, result),
{
    let framed = FramedCommandRecords {
        allocator: frame_allocator(&frame, records.next_application_sequence),
        entities: frame_entity_list(&frame, &records.entities),
        vector_evidence,
        index_entries: frame_index_entry_list(&frame, &records.index_entries),
        index_epochs: frame_epoch_list(&frame, &records.index_epochs),
        outcome: frame_outcome(&frame, &records.stored_outcome),
        events: frame_event_list(&frame, &records.events),
        event_routes: frame_route_list(&frame, &records.events),
        outbox_intents: frame_intent_list(&frame, &records.outbox_intents),
        provenance: frame_provenance(&frame, &records.provenance),
        commit: frame_commit(&frame, &records.commit),
    };
    assert(records_framed(frame, *records, framed));
    seal_command_records(&framed, reserved)
}

/// The entity envelopes of an encoded command stand beside its entity changes: a
/// deletion has none, and a live change has the one that the framing layer gave for the
/// message of its post-image.
pub proof fn entity_envelopes_are_live_post_images<F: Fn(OutgoingCommandRecord) -> Framed>(
    frame: F,
    records: AtomicCommandRecordSet,
    framed: FramedCommandRecords,
    reserved: EncodedWriteSetUpperBound,
    set: EncodedAtomicCommandRecordSetV1,
    place: int,
)
    requires
        records_framed(frame, records, framed),
        set_outcome(framed, reserved, Ok(set)),
        0 <= place < records.entities@.len(),
    ensures
        set.entities@.len() == records.entities@.len(),
        set.entities@[place] is None <==> records.entities@[place] is Deleted,
        records.entities@[place] matches CommittedEntityChange::Live(mutation) ==> (exists|
            outgoing: OutgoingRecord<wire::StoredEntityRecordV1>,
            bytes: Vec<u8>,
        | {
            &&& #[trigger] frame.ensures((OutgoingCommandRecord::Entity(outgoing),), Ok(bytes))
            &&& outgoing.record_type == RecordType::StoredEntityRecordV1
            &&& entity_carries(outgoing.message, mutation@.post_image)
            &&& set.entities@[place]->Some_0.bytes@ == bytes@
        }),
{
    let change = records.entities@[place];
    assert(entity_framed(frame, change, framed.entities@[place]));
    assert(optional_sealed(framed.entities@[place], set.entities@[place]));
    if let Some(held) = framed.entities@[place] {
        let outgoing = choose|outgoing: OutgoingRecord<wire::StoredEntityRecordV1>|
            entity_goes_out(change, Some(outgoing)) && #[trigger] frame.ensures(
                (OutgoingCommandRecord::Entity(outgoing),),
                held,
            );
        assert(held == Ok::<Vec<u8>, EnvelopeError>(held->Ok_0));
        assert(frame.ensures((OutgoingCommandRecord::Entity(outgoing),), Ok(held->Ok_0)));
    }
}

/// Whether a digest is what a hash gives of the post-image of a live change: a deletion
/// has none.
pub open spec fn post_image_hashed<H: Fn(&StoredEntityRecordV1) -> PostImageHash>(
    hash: H,
    change: CommittedEntityChange,
    digest: Option<PostImageHash>,
) -> bool {
    match change {
        CommittedEntityChange::Live(mutation) => digest matches Some(digest) && hash.ensures(
            (&mutation.post_image,),
            digest,
        ),
        CommittedEntityChange::Deleted(_) => digest is None,
    }
}

fn hash_post_images<H: Fn(&StoredEntityRecordV1) -> PostImageHash>(
    hash: &H,
    entities: &[CommittedEntityChange],
) -> (result: Vec<Option<PostImageHash>>)
    requires
        forall|record: &StoredEntityRecordV1| #[trigger] hash.requires((record,)),
    ensures
        result@.len() == entities@.len(),
        forall|i: int|
            0 <= i < entities@.len() ==> post_image_hashed(
                *hash,
                entities@[i],
                #[trigger] result@[i],
            ),
{
    let mut result: Vec<Option<PostImageHash>> = Vec::new();
    let mut i: usize = 0;
    while i < entities.len()
        invariant
            i <= entities@.len(),
            result@.len() == i,
            forall|record: &StoredEntityRecordV1| #[trigger] hash.requires((record,)),
            forall|k: int|
                0 <= k < i ==> post_image_hashed(*hash, entities@[k], #[trigger] result@[k]),
        decreases entities@.len() - i,
    {
        let digest = match &entities[i] {
            CommittedEntityChange::Live(mutation) => Some(hash(&mutation.post_image)),
            CommittedEntityChange::Deleted(_) => None,
        };
        assert(post_image_hashed(*hash, entities@[i as int], digest));
        result.push(digest);
        i += 1;
    }
    result
}

/// Whether framed records and digests are what the framing layer and a hash give for
/// entity and index changes.
pub open spec fn fragments_framed<
    F: Fn(OutgoingCommandRecord) -> Framed,
    H: Fn(&StoredEntityRecordV1) -> PostImageHash,
>(
    frame: F,
    hash: H,
    entities: Seq<CommittedEntityChange>,
    index_entries: Seq<IndexEntryMutationV1>,
    framed_entities: Seq<Option<Framed>>,
    framed_index_entries: Seq<Option<Framed>>,
    hashes: Seq<Option<PostImageHash>>,
) -> bool {
    &&& entity_list_framed(frame, entities, framed_entities)
    &&& index_entry_list_framed(frame, index_entries, framed_index_entries)
    &&& hashes.len() == entities.len()
    &&& forall|i: int|
        0 <= i < entities.len() ==> post_image_hashed(hash, entities[i], #[trigger] hashes[i])
}

/// What preparing fragments gives: the records are framed, the post-images are hashed,
/// and the fragments are made of both.
pub open spec fn fragments_prepared<
    F: Fn(OutgoingCommandRecord) -> Framed,
    H: Fn(&StoredEntityRecordV1) -> PostImageHash,
>(
    entities: Vec<CommittedEntityChange>,
    index_entries: Vec<IndexEntryMutationV1>,
    frame: F,
    hash: H,
    result: Result<PreparedCapsuleCommandFragmentsV1, DurableCodecError>,
) -> bool {
    exists|
        framed_entities: Seq<Option<Framed>>,
        framed_index_entries: Seq<Option<Framed>>,
        hashes: Seq<Option<PostImageHash>>,
    |
        #[trigger] fragments_framed(
            frame,
            hash,
            entities@,
            index_entries@,
            framed_entities,
            framed_index_entries,
            hashes,
        ) && preparation_outcome(
            entities,
            index_entries,
            framed_entities,
            framed_index_entries,
            hashes,
            result,
        )
}

fn prepare_fragments<
    F: Fn(OutgoingCommandRecord) -> Framed,
    H: Fn(&StoredEntityRecordV1) -> PostImageHash,
>(
    entities: Vec<CommittedEntityChange>,
    index_entries: Vec<IndexEntryMutationV1>,
    frame: &F,
    hash: &H,
) -> (result: Result<PreparedCapsuleCommandFragmentsV1, DurableCodecError>)
    requires
        forall|record: OutgoingCommandRecord| #[trigger] frame.requires((record,)),
        forall|record: &StoredEntityRecordV1| #[trigger] hash.requires((record,)),
    ensures
        fragments_prepared(entities, index_entries, *frame, *hash, result),
{
    let framed_entities = frame_entity_list(frame, &entities);
    let framed_index_entries = frame_index_entry_list(frame, &index_entries);
    let hashes = hash_post_images(hash, &entities);
    assert(fragments_framed(
        *frame,
        *hash,
        entities@,
        index_entries@,
        framed_entities@,
        framed_index_entries@,
        hashes@,
    ));
    prepare_fragments_under(
        entities,
        index_entries,
        &framed_entities,
        &framed_index_entries,
        &hashes,
    )
}

/// Canonically encodes sequence-free entity and secondary-index post-images once.
pub fn prepare_capsule_command_fragments_v1<
    F: Fn(OutgoingCommandRecord) -> Framed,
    H: Fn(&StoredEntityRecordV1) -> PostImageHash,
>(
    entities: Vec<CommittedEntityChange>,
    index_entries: Vec<IndexEntryMutationV1>,
    frame: F,
    hash: H,
) -> (result: Result<PreparedCapsuleCommandFragmentsV1, DurableCodecError>)
    requires
        forall|record: OutgoingCommandRecord| #[trigger] frame.requires((record,)),
        forall|record: &StoredEntityRecordV1| #[trigger] hash.requires((record,)),
    ensures
        fragments_prepared(entities, index_entries, frame, hash, result),
{
    prepare_fragments(entities, index_entries, &frame, &hash)
}

/// What encoding prepared envelopes with the other records of a command gives: the epoch
/// records are framed, and all of it is held against the reservation.
pub open spec fn prepared_set_encoded<F: Fn(OutgoingCommandRecord) -> Framed>(
    prepared: PreparedCapsuleEnvelopesV1,
    index_epochs: Seq<IndexEpochAdvanceV1>,
    vector_evidence: Seq<Option<Framed>>,
    reserved: EncodedWriteSetUpperBound,
    frame: F,
    result: Result<EncodedCapsuleCommandRecordSetV1, DurableCodecError>,
) -> bool {
    exists|framed: Seq<Framed>| #[trigger]
        epoch_list_framed(frame, index_epochs, framed) && capsule_set_outcome(
            prepared,
            framed,
            vector_evidence,
            reserved,
            result,
        )
}

/// Encodes prepared entity and index envelopes with the other records of a command that
/// the command-segment layout stores independently.
fn encode_prepared_set<F: Fn(OutgoingCommandRecord) -> Framed>(
    prepared: PreparedCapsuleEnvelopesV1,
    index_epochs: &[IndexEpochAdvanceV1],
    vector_evidence: &[Option<Framed>],
    reserved: EncodedWriteSetUpperBound,
    frame: &F,
) -> (result: Result<EncodedCapsuleCommandRecordSetV1, DurableCodecError>)
    requires
        forall|record: OutgoingCommandRecord| #[trigger] frame.requires((record,)),
    ensures
        prepared_set_encoded(
            prepared,
            index_epochs@,
            vector_evidence@,
            reserved,
            *frame,
            result,
        ),
{
    let framed = frame_epoch_list(frame, index_epochs);
    assert(epoch_list_framed(*frame, index_epochs@, framed@));
    seal_capsule_records(prepared, &framed, vector_evidence, reserved)
}

/// Encodes only the records stored independently by the command-segment layout. Entity
/// and index envelopes that were prepared before are used as they are; where none were,
/// they are prepared here. The rows of vector evidence come framed.
///
/// Command-owned immutable facts are encoded once, when the segment is made.
pub fn encode_capsule_command_record_set_v1<
    F: Fn(OutgoingCommandRecord) -> Framed,
    H: Fn(&StoredEntityRecordV1) -> PostImageHash,
>(
    prepared: Option<PreparedCapsuleEnvelopesV1>,
    entities: Vec<CommittedEntityChange>,
    index_entries: Vec<IndexEntryMutationV1>,
    index_epochs: &[IndexEpochAdvanceV1],
    vector_evidence: &[Option<Framed>],
    reserved: EncodedWriteSetUpperBound,
    frame: F,
    hash: H,
) -> (result: Result<EncodedCapsuleCommandRecordSetV1, DurableCodecError>)
    requires
        forall|record: OutgoingCommandRecord| #[trigger] frame.requires((record,)),
        forall|record: &StoredEntityRecordV1| #[trigger] hash.requires((record,)),
    ensures
        match prepared {
            Some(envelopes) => prepared_set_encoded(
                envelopes,
                index_epochs@,
                vector_evidence@,
                reserved,
                frame,
                result,
            ),
            None => exists|made: Result<PreparedCapsuleCommandFragmentsV1, DurableCodecError>|
                #[trigger] fragments_prepared(entities, index_entries, frame, hash, made)
                    && match made {
                    Ok(fragments) => prepared_set_encoded(
                        fragments.encoded,
                        index_epochs@,
                        vector_evidence@,
                        reserved,
                        frame,
                        result,
                    ),
                    Err(error) => result == Err::<EncodedCapsuleCommandRecordSetV1, _>(error),
                },
        },
{
    match prepared {
        Some(envelopes) => encode_prepared_set(
            envelopes,
            index_epochs,
            vector_evidence,
            reserved,
            &frame,
        ),
        None => {
            let made = prepare_fragments(entities, index_entries, &frame, &hash);
            assert(fragments_prepared(entities, index_entries, frame, hash, made));
            match made {
                Ok(fragments) => encode_prepared_set(
                    fragments.encoded,
                    index_epochs,
                    vector_evidence,
                    reserved,
                    &frame,
                ),
                Err(error) => Err(error),
            }
        },
    }
}

} // verus!
