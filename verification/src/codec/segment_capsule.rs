//! The forms of a complete command.

use vstd::prelude::*;

use crate::codec::application::{
    event_list_carries, event_list_form_is_exact, event_list_from_proto, event_list_to_proto,
    event_list_valid,
};
use crate::codec::command_capsule::{audit_invocation_valid, capsule_head_valid};
use crate::codec::command_record::{
    capsule_carries, capsule_failure, capsule_from_proto, capsule_to_proto,
};
use crate::codec::command_segment::{
    advance_list_carries, advance_list_form_is_exact, advance_list_from_proto,
    advance_list_to_proto, advance_list_valid, event_variant_list_carries,
    event_variant_list_form_is_exact, event_variant_list_from_proto, event_variant_list_to_proto,
    event_variant_list_valid,
};
use crate::codec::entity_transition::{
    transition_list_carries, transition_list_form_is_exact, transition_list_from_proto,
    transition_list_over_limit, transition_list_to_proto, transition_list_valid,
};
use crate::codec::envelope::{
    charged, decode_record_variant_chain, read_message, read_outcome, OutgoingRecord, ReadAttempt,
};
use crate::codec::error::{
    is_corrupt, read_failure, unread_failure, value_failure, DurableCodecError,
    DurableCodecErrorKind, EnvelopeError,
};
use crate::codec::parts::{
    document_canonical, document_carries, document_from_wire, document_to_wire, CanonicalDocument,
};
use crate::codec::record_type::RecordType;
use crate::ids::Digest;
use crate::keys::{CanonicalRecord, CanonicalRecordView};
use crate::page::EncodedPageItem;
use crate::records::{DurableEventView, StoredDurableEventV1};
use crate::stored::application::event_views;
use crate::stored::command_record::{
    affected_of, head_of, invocation_of, records_agree, StoredCommandCapsuleV1,
};
use crate::stored::command_segment::{
    advance_views, event_variant_views, CommandEvent, CommandEventView, IndexAdvanceView,
};
use crate::stored::entity_transition::{
    transition_views, CommittedEntityTransitionV1, EntityTransitionView,
};
use crate::stored::segment::{
    affected_entities, all_leave_versions, capsule_version, command_agrees,
    command_capsule_wire_version_v1, no_anchors, with_affected, with_transitions,
    CommandCapsuleWireVersionV1, CompleteCommandView, StoredCommandCapsuleV2,
};
use crate::value_error::StorageValueError;
use crate::wire;

verus! {

/// What the records' own rules say of one command, step by step: of its outcome,
/// commit and provenance, of its audit records and the plain command, of the
/// command with its index advances, of the command with its service values, and of
/// the command with its entity transitions.
#[derive(Clone, Copy, Debug, PartialEq, Eq)]
pub struct CapsuleVerdicts {
    pub records: Option<StorageValueError>,
    pub whole: Option<StorageValueError>,
    pub joined: Option<StorageValueError>,
    pub service_values: Option<StorageValueError>,
    pub transitions: Option<StorageValueError>,
}

/// The parts of a complete command are valid.
pub open spec fn command_valid(command: CompleteCommandView) -> bool {
    &&& capsule_head_valid(head_of(command.base))
    &&& audit_invocation_valid(invocation_of(command.base))
    &&& event_list_valid(command.base.commit.events)
    &&& advance_list_valid(command.generations)
    &&& transition_list_valid(command.transitions)
    &&& command.anchors_fit()
}

/// Whether messages are the forms of some valid events.
pub open spec fn events_readable(messages: Seq<wire::StoredDurableEventV1>) -> bool {
    exists|events: Seq<DurableEventView>| #[trigger]
        event_list_carries(messages, events) && event_list_valid(events)
}

/// The valid events that messages are the forms of.
pub open spec fn events_read(messages: Seq<wire::StoredDurableEventV1>) -> Seq<DurableEventView> {
    choose|events: Seq<DurableEventView>| #[trigger]
        event_list_carries(messages, events) && event_list_valid(events)
}

/// Whether messages are the forms of some valid index advances.
pub open spec fn advances_readable(
    messages: Seq<wire::StoredIndexGenerationTransitionV1>,
) -> bool {
    exists|values: Seq<IndexAdvanceView>| #[trigger]
        advance_list_carries(messages, values) && advance_list_valid(values)
}

/// Whether messages are the forms of some valid entity transitions.
pub open spec fn transitions_readable(
    messages: Seq<wire::StoredCommittedEntityTransitionV1>,
) -> bool {
    exists|values: Seq<EntityTransitionView>| #[trigger]
        transition_list_carries(messages, values) && transition_list_valid(values)
}

/// The valid entity transitions that messages are the forms of.
pub open spec fn transitions_read(
    messages: Seq<wire::StoredCommittedEntityTransitionV1>,
) -> Seq<EntityTransitionView> {
    choose|values: Seq<EntityTransitionView>| #[trigger]
        transition_list_carries(messages, values) && transition_list_valid(values)
}

/// Whether messages are the forms of some valid events with their anchors.
pub open spec fn variants_readable(messages: Seq<wire::StoredDurableEventVariantV1>) -> bool {
    exists|events: Seq<CommandEventView>| #[trigger]
        event_variant_list_carries(messages, events) && event_variant_list_valid(events)
}

/// The valid events with their anchors that messages are the forms of.
pub open spec fn variants_read(messages: Seq<wire::StoredDurableEventVariantV1>) -> Seq<
    CommandEventView,
> {
    choose|events: Seq<CommandEventView>| #[trigger]
        event_variant_list_carries(messages, events) && event_variant_list_valid(events)
}

/// Events joined to their anchors.
pub open spec fn joined_events(
    events: Seq<DurableEventView>,
    anchors: Seq<Option<Digest>>,
) -> Seq<CommandEventView> {
    Seq::new(
        events.len(),
        |i: int| CommandEventView { event: events[i], policy_anchor: anchors[i] },
    )
}

/// The events of a list of events with anchors.
pub open spec fn bare_events(events: Seq<CommandEventView>) -> Seq<DurableEventView> {
    Seq::new(events.len(), |i: int| events[i].event)
}

/// The anchors of a list of events with anchors.
pub open spec fn bare_anchors(events: Seq<CommandEventView>) -> Seq<Option<Digest>> {
    Seq::new(events.len(), |i: int| events[i].policy_anchor)
}

fn join_events(events: &[StoredDurableEventV1], anchors: &[Option<Digest>]) -> (result: Vec<
    CommandEvent,
>)
    requires
        events@.len() == anchors@.len(),
    ensures
        event_variant_views(result@) == joined_events(event_views(events@), anchors@),
{
    let mut result: Vec<CommandEvent> = Vec::new();
    let mut i: usize = 0;
    while i < events.len()
        invariant
            i <= events@.len(),
            events@.len() == anchors@.len(),
            result@.len() == i,
            forall|k: int|
                0 <= k < i ==> (#[trigger] result@[k])@ == joined_events(
                    event_views(events@),
                    anchors@,
                )[k],
        decreases events@.len() - i,
    {
        result.push(CommandEvent { event: events[i].clone(), policy_anchor: anchors[i] });
        i += 1;
    }
    assert(event_variant_views(result@) =~= joined_events(event_views(events@), anchors@));
    result
}

fn split_events(values: &[CommandEvent]) -> (result: (
    Vec<StoredDurableEventV1>,
    Vec<Option<Digest>>,
))
    ensures
        event_views(result.0@) == bare_events(event_variant_views(values@)),
        result.1@ == bare_anchors(event_variant_views(values@)),
{
    let mut events: Vec<StoredDurableEventV1> = Vec::new();
    let mut anchors: Vec<Option<Digest>> = Vec::new();
    let mut i: usize = 0;
    while i < values.len()
        invariant
            i <= values@.len(),
            events@.len() == i,
            anchors@.len() == i,
            forall|k: int| 0 <= k < i ==> (#[trigger] events@[k])@ == values@[k]@.event,
            forall|k: int| 0 <= k < i ==> (#[trigger] anchors@[k]) == values@[k]@.policy_anchor,
        decreases values@.len() - i,
    {
        events.push(values[i].event.clone());
        anchors.push(values[i].policy_anchor);
        i += 1;
    }
    assert(event_views(events@) =~= bare_events(event_variant_views(values@)));
    assert(anchors@ =~= bare_anchors(event_variant_views(values@)));
    (events, anchors)
}

fn unanchored(count: usize) -> (result: Vec<Option<Digest>>)
    ensures
        result@ == no_anchors(count as nat),
{
    let mut result: Vec<Option<Digest>> = Vec::new();
    let mut i: usize = 0;
    while i < count
        invariant
            i <= count,
            result@ == no_anchors(i as nat),
        decreases count - i,
    {
        result.push(None);
        i += 1;
        assert(result@ =~= no_anchors(i as nat));
    }
    result
}

/// Whether a message is the second form of a command.
pub open spec fn v2_carries(
    message: wire::StoredCommandCapsuleV2,
    command: CompleteCommandView,
) -> bool {
    &&& (message.base matches Some(base) && capsule_carries(
        base,
        head_of(command.base),
        invocation_of(command.base),
    ))
    &&& event_list_carries(message.events@, command.base.commit.events)
    &&& advance_list_carries(message.index_generation_transitions@, command.generations)
}

/// Whether a message is the third form of a command.
pub open spec fn v3_carries(
    message: wire::StoredCommandCapsuleV3,
    command: CompleteCommandView,
) -> bool {
    &&& (message.base matches Some(base) && v2_carries(base, command))
    &&& document_carries(message.canonical_service_values, command.service_values)
}

/// Whether a message is the fourth form of a command.
pub open spec fn v4_carries(
    message: wire::StoredCommandCapsuleV4,
    command: CompleteCommandView,
) -> bool {
    &&& (message.base matches Some(base) && v3_carries(base, command))
    &&& transition_list_carries(message.entity_transitions@, command.transitions)
}

/// Whether a message is the fifth form of a command.
pub open spec fn v5_carries(
    message: wire::StoredCommandCapsuleV5,
    command: CompleteCommandView,
) -> bool {
    &&& (message.base matches Some(base) && capsule_carries(
        base,
        head_of(command.base),
        invocation_of(command.base),
    ))
    &&& event_variant_list_carries(
        message.events@,
        joined_events(command.base.commit.events, command.policy_anchors),
    )
    &&& advance_list_carries(message.index_generation_transitions@, command.generations)
    &&& document_carries(message.canonical_service_values, command.service_values)
    &&& transition_list_carries(message.entity_transitions@, command.transitions)
}

/// The fifth form with the fields of a sixth.
pub open spec fn as_v5(message: wire::StoredCommandCapsuleV6) -> wire::StoredCommandCapsuleV5 {
    wire::StoredCommandCapsuleV5 {
        base: message.base,
        events: message.events,
        index_generation_transitions: message.index_generation_transitions,
        canonical_service_values: message.canonical_service_values,
        entity_transitions: message.entity_transitions,
    }
}

/// Whether a message is the sixth form of a command.
pub open spec fn v6_carries(
    message: wire::StoredCommandCapsuleV6,
    command: CompleteCommandView,
) -> bool {
    v5_carries(as_v5(message), command)
}

/// The second form of a command.
pub fn capsule_v2_to_proto(value: &StoredCommandCapsuleV2) -> (result: wire::StoredCommandCapsuleV2)
    ensures
        v2_carries(result, value@),
{
    wire::StoredCommandCapsuleV2 {
        base: Some(capsule_to_proto(&value.base)),
        events: event_list_to_proto(&value.base.commit.events),
        index_generation_transitions: advance_list_to_proto(&value.index_generation_transitions),
    }
}

/// The third form of a command.
pub fn capsule_v3_to_proto(value: &StoredCommandCapsuleV2) -> (result: wire::StoredCommandCapsuleV3)
    ensures
        v3_carries(result, value@),
{
    wire::StoredCommandCapsuleV3 {
        base: Some(capsule_v2_to_proto(value)),
        canonical_service_values: document_to_wire(&value.service_values),
    }
}

/// The fourth form of a command.
pub fn capsule_v4_to_proto(value: &StoredCommandCapsuleV2) -> (result: wire::StoredCommandCapsuleV4)
    ensures
        v4_carries(result, value@),
{
    wire::StoredCommandCapsuleV4 {
        base: Some(capsule_v3_to_proto(value)),
        entity_transitions: transition_list_to_proto(&value.entity_transitions),
    }
}

/// The fifth form of a command.
pub fn capsule_v5_to_proto(value: &StoredCommandCapsuleV2) -> (result: wire::StoredCommandCapsuleV5)
    requires
        value@.anchors_fit(),
    ensures
        v5_carries(result, value@),
{
    let events = join_events(&value.base.commit.events, &value.policy_anchors);
    wire::StoredCommandCapsuleV5 {
        base: Some(capsule_to_proto(&value.base)),
        events: event_variant_list_to_proto(&events),
        index_generation_transitions: advance_list_to_proto(&value.index_generation_transitions),
        canonical_service_values: document_to_wire(&value.service_values),
        entity_transitions: transition_list_to_proto(&value.entity_transitions),
    }
}

/// The sixth form of a command.
pub fn capsule_v6_to_proto(value: &StoredCommandCapsuleV2) -> (result: wire::StoredCommandCapsuleV6)
    requires
        value@.anchors_fit(),
    ensures
        v6_carries(result, value@),
{
    let form = capsule_v5_to_proto(value);
    wire::StoredCommandCapsuleV6 {
        base: form.base,
        events: form.events,
        index_generation_transitions: form.index_generation_transitions,
        canonical_service_values: form.canonical_service_values,
        entity_transitions: form.entity_transitions,
    }
}

/// Why a second form gives no command, if it gives none.
pub open spec fn v2_failure(
    message: wire::StoredCommandCapsuleV2,
    verdicts: CapsuleVerdicts,
) -> Option<DurableCodecErrorKind> {
    if !events_readable(message.events@) || message.base is None {
        Some(DurableCodecErrorKind::CorruptData)
    } else {
        match capsule_failure(
            message.base->Some_0,
            events_read(message.events@),
            verdicts.records,
            verdicts.whole,
        ) {
            Some(kind) => Some(kind),
            None => if !advances_readable(message.index_generation_transitions@) {
                Some(DurableCodecErrorKind::CorruptData)
            } else {
                match verdicts.joined {
                    Some(error) => Some(value_failure(error)),
                    None => None,
                }
            },
        }
    }
}

proof fn plain_commands_agree(command: CompleteCommandView)
    requires
        records_agree(command.base),
        command.transitions.len() == 0,
    ensures
        command_agrees(command),
{
    let plain = with_affected(command.base, affected_of(command.base.commit.entity_references));
    assert(plain.provenance.base =~= command.base.provenance.base);
    assert(plain.provenance =~= command.base.provenance);
    assert(plain =~= command.base);
}

/// Reads a command from its second form, which holds no service values.
pub fn capsule_v2_from_proto(
    message: &wire::StoredCommandCapsuleV2,
    no_service_values: &CanonicalRecord,
    verdicts: CapsuleVerdicts,
) -> (result: Result<StoredCommandCapsuleV2, DurableCodecError>)
    ensures
        match v2_failure(*message, verdicts) {
            Some(kind) => result == Err::<StoredCommandCapsuleV2, _>(DurableCodecError { kind }),
            None => result is Ok && v2_carries(*message, result->Ok_0@) && command_valid(
                result->Ok_0@,
            ) && command_agrees(result->Ok_0@) && result->Ok_0@.policy_anchors == no_anchors(
                result->Ok_0@.base.commit.events.len(),
            ) && result->Ok_0@.service_values == no_service_values@
                && result->Ok_0@.transitions.len() == 0,
        },
{
    let events = event_list_from_proto(&message.events)?;
    proof {
        assert(event_list_carries(message.events@, event_views(events@)));
        event_list_form_is_exact(message.events@, event_views(events@),
            events_read(message.events@));
    }
    let count = events.len();
    let base = match &message.base {
        None => return Err(DurableCodecError::corrupt()),
        Some(base) => capsule_from_proto(base, events, verdicts.records, verdicts.whole)?,
    };
    let generations = advance_list_from_proto(&message.index_generation_transitions)?;
    proof {
        assert(advance_list_carries(
            message.index_generation_transitions@,
            advance_views(generations@),
        ));
    }
    match verdicts.joined {
        Some(error) => Err(DurableCodecError::from_storage_value(error)),
        None => {
            let entity_transitions: Vec<CommittedEntityTransitionV1> = Vec::new();
            let command = StoredCommandCapsuleV2 {
                base,
                policy_anchors: unanchored(count),
                service_values: no_service_values.clone(),
                index_generation_transitions: generations,
                entity_transitions,
            };
            proof {
                plain_commands_agree(command@);
            }
            Ok(command)
        },
    }
}

/// Why a third form gives no command, if it gives none.
pub open spec fn v3_failure(
    message: wire::StoredCommandCapsuleV3,
    verdicts: CapsuleVerdicts,
) -> Option<DurableCodecErrorKind> {
    if !document_canonical(message.canonical_service_values) || message.base is None {
        Some(DurableCodecErrorKind::CorruptData)
    } else {
        match v2_failure(message.base->Some_0, verdicts) {
            Some(kind) => Some(kind),
            None => match verdicts.service_values {
                Some(error) => Some(value_failure(error)),
                None => None,
            },
        }
    }
}

/// Reads a command from its third form.
pub fn capsule_v3_from_proto(
    message: &wire::StoredCommandCapsuleV3,
    verdicts: CapsuleVerdicts,
) -> (result: Result<StoredCommandCapsuleV2, DurableCodecError>)
    ensures
        match v3_failure(*message, verdicts) {
            Some(kind) => result == Err::<StoredCommandCapsuleV2, _>(DurableCodecError { kind }),
            None => result is Ok && v3_carries(*message, result->Ok_0@) && command_valid(
                result->Ok_0@,
            ) && command_agrees(result->Ok_0@) && result->Ok_0@.policy_anchors == no_anchors(
                result->Ok_0@.base.commit.events.len(),
            ) && result->Ok_0@.transitions.len() == 0,
        },
{
    let service_values = document_from_wire(&message.canonical_service_values)?;
    let command = match &message.base {
        None => return Err(DurableCodecError::corrupt()),
        Some(base) => capsule_v2_from_proto(base, &service_values, verdicts)?,
    };
    match verdicts.service_values {
        Some(error) => Err(DurableCodecError::from_storage_value(error)),
        None => Ok(command),
    }
}

/// Why a command cannot take entity transitions, if it cannot: one of them leaves
/// no version, or the records' own rules refuse the whole.
pub open spec fn joining_failure(
    transitions: Seq<EntityTransitionView>,
    verdict: Option<StorageValueError>,
) -> Option<DurableCodecErrorKind> {
    if !all_leave_versions(transitions) {
        Some(DurableCodecErrorKind::CorruptData)
    } else {
        match verdict {
            Some(error) => Some(value_failure(error)),
            None => None,
        }
    }
}

/// Joins a command to its entity transitions, which say which entities it
/// affected.
pub fn base_with_entity_transition_provenance(
    command: StoredCommandCapsuleV2,
    transitions: Vec<CommittedEntityTransitionV1>,
    verdict: Option<StorageValueError>,
) -> (result: Result<StoredCommandCapsuleV2, DurableCodecError>)
    requires
        command_agrees(command@),
        command@.transitions.len() == 0,
    ensures
        match joining_failure(transition_views(transitions@), verdict) {
            Some(kind) => result == Err::<StoredCommandCapsuleV2, _>(DurableCodecError { kind }),
            None => result is Ok && result->Ok_0@ == (CompleteCommandView {
                base: with_transitions(command@.base, transition_views(transitions@)),
                transitions: transition_views(transitions@),
                ..command@
            }) && command_agrees(result->Ok_0@),
        },
{
    let affected = match affected_entities(&transitions) {
        Some(affected) => affected,
        None => return Err(DurableCodecError::corrupt()),
    };
    match verdict {
        Some(error) => return Err(DurableCodecError::from_storage_value(error)),
        None => {},
    }
    let ghost before = command@;
    let ghost joined = transition_views(transitions@);
    let mut command = command;
    if transitions.len() > 0 {
        command.base.provenance.base.affected_entities = affected;
    }
    command.entity_transitions = transitions;
    proof {
        let refs = before.base.commit.entity_references;
        let plain = with_affected(before.base, affected_of(refs));
        assert(command@.base =~= with_transitions(before.base, joined)) by {
            assert(command@.base.provenance.base =~= with_transitions(
                before.base,
                joined,
            ).provenance.base);
            assert(command@.base.provenance =~= with_transitions(before.base, joined).provenance);
        }
        assert(command@ =~= CompleteCommandView {
            base: with_transitions(before.base, joined),
            transitions: joined,
            ..before
        });
        let after = with_affected(command@.base, affected_of(refs));
        assert(after.provenance.base =~= plain.provenance.base);
        assert(after.provenance =~= plain.provenance);
        assert(after =~= plain);
        assert(with_transitions(plain, joined).provenance.base
            =~= command@.base.provenance.base);
        assert(with_transitions(plain, joined).provenance =~= command@.base.provenance);
        assert(with_transitions(plain, joined) =~= command@.base);
    }
    Ok(command)
}

/// Why a fourth form gives no command, if it gives none.
pub open spec fn v4_failure(
    message: wire::StoredCommandCapsuleV4,
    verdicts: CapsuleVerdicts,
) -> Option<DurableCodecErrorKind> {
    if !transitions_readable(message.entity_transitions@) {
        Some(unread_failure(transition_list_over_limit(message.entity_transitions@)))
    } else if message.base is None {
        Some(DurableCodecErrorKind::CorruptData)
    } else {
        match v3_failure(message.base->Some_0, verdicts) {
            Some(kind) => Some(kind),
            None => joining_failure(
                transitions_read(message.entity_transitions@),
                verdicts.transitions,
            ),
        }
    }
}

/// Reads a command from its fourth form.
pub fn capsule_v4_from_proto(
    message: &wire::StoredCommandCapsuleV4,
    verdicts: CapsuleVerdicts,
) -> (result: Result<StoredCommandCapsuleV2, DurableCodecError>)
    ensures
        match v4_failure(*message, verdicts) {
            Some(kind) => result == Err::<StoredCommandCapsuleV2, _>(DurableCodecError { kind }),
            None => result is Ok && v4_carries(*message, result->Ok_0@) && command_valid(
                result->Ok_0@,
            ) && command_agrees(result->Ok_0@) && result->Ok_0@.policy_anchors == no_anchors(
                result->Ok_0@.base.commit.events.len(),
            ),
        },
{
    let transitions = transition_list_from_proto(&message.entity_transitions)?;
    proof {
        let views = transition_views(transitions@);
        assert(transition_list_carries(message.entity_transitions@, views));
        transition_list_form_is_exact(
            message.entity_transitions@,
            views,
            transitions_read(message.entity_transitions@),
        );
    }
    let command = match &message.base {
        None => return Err(DurableCodecError::corrupt()),
        Some(base) => capsule_v3_from_proto(base, verdicts)?,
    };
    base_with_entity_transition_provenance(command, transitions, verdicts.transitions)
}

/// Why a fifth form gives no command, if it gives none.
pub open spec fn v5_failure(
    message: wire::StoredCommandCapsuleV5,
    verdicts: CapsuleVerdicts,
) -> Option<DurableCodecErrorKind> {
    if !variants_readable(message.events@) || message.base is None {
        Some(DurableCodecErrorKind::CorruptData)
    } else {
        match capsule_failure(
            message.base->Some_0,
            bare_events(variants_read(message.events@)),
            verdicts.records,
            verdicts.whole,
        ) {
            Some(kind) => Some(kind),
            None => if !document_canonical(message.canonical_service_values) {
                Some(DurableCodecErrorKind::CorruptData)
            } else if verdicts.service_values is Some {
                Some(value_failure(verdicts.service_values->Some_0))
            } else if !advances_readable(message.index_generation_transitions@) {
                Some(DurableCodecErrorKind::CorruptData)
            } else if !transitions_readable(message.entity_transitions@) {
                Some(unread_failure(transition_list_over_limit(message.entity_transitions@)))
            } else {
                joining_failure(
                    transitions_read(message.entity_transitions@),
                    verdicts.transitions,
                )
            },
        }
    }
}

fn capsule_from_fields(
    base: &Option<wire::StoredCommandCapsuleV1>,
    events: &Vec<wire::StoredDurableEventVariantV1>,
    generations: &Vec<wire::StoredIndexGenerationTransitionV1>,
    service_values: &CanonicalDocument,
    entity_transitions: &Vec<wire::StoredCommittedEntityTransitionV1>,
    verdicts: CapsuleVerdicts,
) -> (result: Result<StoredCommandCapsuleV2, DurableCodecError>)
    ensures
        ({
            let message = wire::StoredCommandCapsuleV5 {
                base: *base,
                events: *events,
                index_generation_transitions: *generations,
                canonical_service_values: *service_values,
                entity_transitions: *entity_transitions,
            };
            match v5_failure(message, verdicts) {
                Some(kind) => result == Err::<StoredCommandCapsuleV2, _>(
                    DurableCodecError { kind },
                ),
                None => result is Ok && v5_carries(message, result->Ok_0@) && command_valid(
                    result->Ok_0@,
                ) && command_agrees(result->Ok_0@),
            }
        }),
{
    let ghost message = wire::StoredCommandCapsuleV5 {
        base: *base,
        events: *events,
        index_generation_transitions: *generations,
        canonical_service_values: *service_values,
        entity_transitions: *entity_transitions,
    };
    let variants = event_variant_list_from_proto(events)?;
    let ghost views = event_variant_views(variants@);
    proof {
        assert(event_variant_list_carries(message.events@, views));
        event_variant_list_form_is_exact(message.events@, views, variants_read(message.events@));
    }
    let (held, policy_anchors) = split_events(&variants);
    proof {
        assert(joined_events(bare_events(views), bare_anchors(views)) =~= views);
        assert forall|i: int| 0 <= i < bare_events(views).len() implies
            crate::codec::application::event_valid(#[trigger] bare_events(views)[i]) by {
            assert(crate::codec::command_segment::event_variant_valid(views[i]));
        }
    }
    let base = match base {
        None => return Err(DurableCodecError::corrupt()),
        Some(base) => capsule_from_proto(base, held, verdicts.records, verdicts.whole)?,
    };
    let service_values = document_from_wire(service_values)?;
    match verdicts.service_values {
        Some(error) => return Err(DurableCodecError::from_storage_value(error)),
        None => {},
    }
    let advances = advance_list_from_proto(generations)?;
    proof {
        assert(advance_list_carries(
            message.index_generation_transitions@,
            advance_views(advances@),
        ));
    }
    let transitions = transition_list_from_proto(entity_transitions)?;
    proof {
        let read = transition_views(transitions@);
        assert(transition_list_carries(message.entity_transitions@, read));
        transition_list_form_is_exact(
            message.entity_transitions@,
            read,
            transitions_read(message.entity_transitions@),
        );
    }
    let unmoved: Vec<CommittedEntityTransitionV1> = Vec::new();
    let command = StoredCommandCapsuleV2 {
        base,
        policy_anchors,
        service_values,
        index_generation_transitions: advances,
        entity_transitions: unmoved,
    };
    proof {
        plain_commands_agree(command@);
    }
    base_with_entity_transition_provenance(command, transitions, verdicts.transitions)
}

/// Reads a command from its fifth form.
pub fn capsule_v5_from_proto(
    message: &wire::StoredCommandCapsuleV5,
    verdicts: CapsuleVerdicts,
) -> (result: Result<StoredCommandCapsuleV2, DurableCodecError>)
    ensures
        match v5_failure(*message, verdicts) {
            Some(kind) => result == Err::<StoredCommandCapsuleV2, _>(DurableCodecError { kind }),
            None => result is Ok && v5_carries(*message, result->Ok_0@) && command_valid(
                result->Ok_0@,
            ) && command_agrees(result->Ok_0@),
        },
{
    capsule_from_fields(
        &message.base,
        &message.events,
        &message.index_generation_transitions,
        &message.canonical_service_values,
        &message.entity_transitions,
        verdicts,
    )
}

/// Why a sixth form gives no command, if it gives none.
pub open spec fn v6_failure(
    message: wire::StoredCommandCapsuleV6,
    verdicts: CapsuleVerdicts,
) -> Option<DurableCodecErrorKind> {
    v5_failure(as_v5(message), verdicts)
}

/// Reads a command from its sixth form.
pub fn capsule_v6_from_proto(
    message: &wire::StoredCommandCapsuleV6,
    verdicts: CapsuleVerdicts,
) -> (result: Result<StoredCommandCapsuleV2, DurableCodecError>)
    ensures
        match v6_failure(*message, verdicts) {
            Some(kind) => result == Err::<StoredCommandCapsuleV2, _>(DurableCodecError { kind }),
            None => result is Ok && v6_carries(*message, result->Ok_0@) && command_valid(
                result->Ok_0@,
            ) && command_agrees(result->Ok_0@),
        },
{
    capsule_from_fields(
        &message.base,
        &message.events,
        &message.index_generation_transitions,
        &message.canonical_service_values,
        &message.entity_transitions,
        verdicts,
    )
}

/// A complete command in its least-sufficient form, to be framed.
pub enum OutgoingCapsule {
    V4(OutgoingRecord<wire::StoredCommandCapsuleV4>),
    V5(OutgoingRecord<wire::StoredCommandCapsuleV5>),
    V6(OutgoingRecord<wire::StoredCommandCapsuleV6>),
}

/// Encodes one complete command in its least-sufficient form.
pub fn encode_command_capsule_v2(value: &StoredCommandCapsuleV2) -> (result: OutgoingCapsule)
    requires
        value@.anchors_fit(),
    ensures
        match capsule_version(value@) {
            CommandCapsuleWireVersionV1::V4 => result matches OutgoingCapsule::V4(record)
                && record.record_type == RecordType::StoredCommandCapsuleV4 && v4_carries(
                record.message,
                value@,
            ),
            CommandCapsuleWireVersionV1::V5 => result matches OutgoingCapsule::V5(record)
                && record.record_type == RecordType::StoredCommandCapsuleV5 && v5_carries(
                record.message,
                value@,
            ),
            CommandCapsuleWireVersionV1::V6 => result matches OutgoingCapsule::V6(record)
                && record.record_type == RecordType::StoredCommandCapsuleV6 && v6_carries(
                record.message,
                value@,
            ),
        },
{
    match command_capsule_wire_version_v1(value) {
        CommandCapsuleWireVersionV1::V4 => OutgoingCapsule::V4(
            OutgoingRecord {
                record_type: RecordType::StoredCommandCapsuleV4,
                message: capsule_v4_to_proto(value),
            },
        ),
        CommandCapsuleWireVersionV1::V5 => OutgoingCapsule::V5(
            OutgoingRecord {
                record_type: RecordType::StoredCommandCapsuleV5,
                message: capsule_v5_to_proto(value),
            },
        ),
        CommandCapsuleWireVersionV1::V6 => OutgoingCapsule::V6(
            OutgoingRecord {
                record_type: RecordType::StoredCommandCapsuleV6,
                message: capsule_v6_to_proto(value),
            },
        ),
    }
}

/// A capsule in whichever form it was found.
#[derive(Debug, PartialEq, Eq)]
pub enum CapsuleForm {
    V2(wire::StoredCommandCapsuleV2),
    V3(wire::StoredCommandCapsuleV3),
    V4(wire::StoredCommandCapsuleV4),
    V5(wire::StoredCommandCapsuleV5),
    V6(wire::StoredCommandCapsuleV6),
}

/// Why a capsule gives no command, if it gives none.
pub open spec fn form_failure(
    form: CapsuleForm,
    verdicts: CapsuleVerdicts,
) -> Option<DurableCodecErrorKind> {
    match form {
        CapsuleForm::V2(message) => v2_failure(message, verdicts),
        CapsuleForm::V3(message) => v3_failure(message, verdicts),
        CapsuleForm::V4(message) => v4_failure(message, verdicts),
        CapsuleForm::V5(message) => v5_failure(message, verdicts),
        CapsuleForm::V6(message) => v6_failure(message, verdicts),
    }
}

/// Whether a capsule is a form of a command.
pub open spec fn form_carries(form: CapsuleForm, command: CompleteCommandView) -> bool {
    match form {
        CapsuleForm::V2(message) => v2_carries(message, command),
        CapsuleForm::V3(message) => v3_carries(message, command),
        CapsuleForm::V4(message) => v4_carries(message, command),
        CapsuleForm::V5(message) => v5_carries(message, command),
        CapsuleForm::V6(message) => v6_carries(message, command),
    }
}

/// What a form does not hold is as it is for every command of that form: early
/// forms have no policy anchors, the earliest have no entity transitions, and the
/// second has no service values.
pub open spec fn form_defaults(
    form: CapsuleForm,
    no_service_values: CanonicalRecordView,
    command: CompleteCommandView,
) -> bool {
    &&& (form is V2 || form is V3 || form is V4) ==> command.policy_anchors == no_anchors(
        command.base.commit.events.len(),
    )
    &&& (form is V2 || form is V3) ==> command.transitions.len() == 0
    &&& form is V2 ==> command.service_values == no_service_values
}

/// Reads a command from whichever form it has.
pub fn capsule_from_form(
    form: CapsuleForm,
    no_service_values: &CanonicalRecord,
    verdicts: CapsuleVerdicts,
) -> (result: Result<StoredCommandCapsuleV2, DurableCodecError>)
    ensures
        match form_failure(form, verdicts) {
            Some(kind) => result == Err::<StoredCommandCapsuleV2, _>(DurableCodecError { kind }),
            None => result is Ok && form_carries(form, result->Ok_0@) && form_defaults(
                form,
                no_service_values@,
                result->Ok_0@,
            ) && command_valid(result->Ok_0@) && command_agrees(result->Ok_0@),
        },
{
    match form {
        CapsuleForm::V2(message) => capsule_v2_from_proto(&message, no_service_values, verdicts),
        CapsuleForm::V3(message) => capsule_v3_from_proto(&message, verdicts),
        CapsuleForm::V4(message) => capsule_v4_from_proto(&message, verdicts),
        CapsuleForm::V5(message) => capsule_v5_from_proto(&message, verdicts),
        CapsuleForm::V6(message) => capsule_v6_from_proto(&message, verdicts),
    }
}

/// Attempts to read one envelope as each form of a command.
pub struct CapsuleAttempts {
    pub v2: ReadAttempt<wire::StoredCommandCapsuleV2>,
    pub v3: ReadAttempt<wire::StoredCommandCapsuleV3>,
    pub v4: ReadAttempt<wire::StoredCommandCapsuleV4>,
    pub v5: ReadAttempt<wire::StoredCommandCapsuleV5>,
    pub v6: ReadAttempt<wire::StoredCommandCapsuleV6>,
}

/// The form that was found and its length, or why there is none.
pub open spec fn found_form(
    found: Result<RecordType, EnvelopeError>,
    attempts: CapsuleAttempts,
) -> Result<(CapsuleForm, usize), DurableCodecErrorKind> {
    match found {
        Err(error) => Err(read_failure(error)),
        Ok(RecordType::StoredCommandCapsuleV6) => match read_outcome(
            RecordType::StoredCommandCapsuleV6,
            attempts.v6,
        ) {
            Err(kind) => Err(kind),
            Ok(message) => Ok((CapsuleForm::V6(message), attempts.v6.encoded_len)),
        },
        Ok(RecordType::StoredCommandCapsuleV5) => match read_outcome(
            RecordType::StoredCommandCapsuleV5,
            attempts.v5,
        ) {
            Err(kind) => Err(kind),
            Ok(message) => Ok((CapsuleForm::V5(message), attempts.v5.encoded_len)),
        },
        Ok(RecordType::StoredCommandCapsuleV4) => match read_outcome(
            RecordType::StoredCommandCapsuleV4,
            attempts.v4,
        ) {
            Err(kind) => Err(kind),
            Ok(message) => Ok((CapsuleForm::V4(message), attempts.v4.encoded_len)),
        },
        Ok(RecordType::StoredCommandCapsuleV3) => match read_outcome(
            RecordType::StoredCommandCapsuleV3,
            attempts.v3,
        ) {
            Err(kind) => Err(kind),
            Ok(message) => Ok((CapsuleForm::V3(message), attempts.v3.encoded_len)),
        },
        Ok(RecordType::StoredCommandCapsuleV2) => match read_outcome(
            RecordType::StoredCommandCapsuleV2,
            attempts.v2,
        ) {
            Err(kind) => Err(kind),
            Ok(message) => Ok((CapsuleForm::V2(message), attempts.v2.encoded_len)),
        },
        Ok(_) => Err(DurableCodecErrorKind::UnexpectedRecordType),
    }
}

fn find_form(
    found: Result<RecordType, EnvelopeError>,
    attempts: CapsuleAttempts,
) -> (result: Result<
    (CapsuleForm, usize),
    DurableCodecError,
>)
    ensures
        match found_form(found, attempts) {
            Err(kind) => result == Err::<(CapsuleForm, usize), _>(DurableCodecError { kind }),
            Ok(form) => result == Ok::<(CapsuleForm, usize), DurableCodecError>(form),
        },
{
    let accepted: [RecordType; 5] = [
        RecordType::StoredCommandCapsuleV6,
        RecordType::StoredCommandCapsuleV5,
        RecordType::StoredCommandCapsuleV4,
        RecordType::StoredCommandCapsuleV3,
        RecordType::StoredCommandCapsuleV2,
    ];
    proof {
        reveal_with_fuel(crate::codec::record_type::place_of, 6);
    }
    let place = decode_record_variant_chain(found, accepted.as_slice())?;
    match place {
        0 => {
            let encoded_len = attempts.v6.encoded_len;
            let message = read_message(RecordType::StoredCommandCapsuleV6, attempts.v6)?;
            Ok((CapsuleForm::V6(message), encoded_len))
        },
        1 => {
            let encoded_len = attempts.v5.encoded_len;
            let message = read_message(RecordType::StoredCommandCapsuleV5, attempts.v5)?;
            Ok((CapsuleForm::V5(message), encoded_len))
        },
        2 => {
            let encoded_len = attempts.v4.encoded_len;
            let message = read_message(RecordType::StoredCommandCapsuleV4, attempts.v4)?;
            Ok((CapsuleForm::V4(message), encoded_len))
        },
        3 => {
            let encoded_len = attempts.v3.encoded_len;
            let message = read_message(RecordType::StoredCommandCapsuleV3, attempts.v3)?;
            Ok((CapsuleForm::V3(message), encoded_len))
        },
        _ => {
            let encoded_len = attempts.v2.encoded_len;
            let message = read_message(RecordType::StoredCommandCapsuleV2, attempts.v2)?;
            Ok((CapsuleForm::V2(message), encoded_len))
        },
    }
}

/// What a form comes to under what the record rules say of it.
pub open spec fn capsule_decoded(
    form: CapsuleForm,
    encoded_len: usize,
    no_service_values: CanonicalRecordView,
    verdicts: CapsuleVerdicts,
    result: Result<EncodedPageItem<StoredCommandCapsuleV2>, DurableCodecError>,
) -> bool {
    match form_failure(form, verdicts) {
        Some(kind) => result == Err::<EncodedPageItem<StoredCommandCapsuleV2>, _>(
            DurableCodecError { kind },
        ),
        None => if encoded_len == 0 {
            result is Err && is_corrupt(result->Err_0)
        } else {
            result is Ok && form_carries(form, result->Ok_0.value@) && form_defaults(
                form,
                no_service_values,
                result->Ok_0.value@,
            ) && command_valid(result->Ok_0.value@) && command_agrees(result->Ok_0.value@)
                && result->Ok_0.charge.bytes == encoded_len
        },
    }
}

/// Decodes one complete command in whichever form it has, given what the record
/// rules say of a form.
pub fn decode_command_capsule_v2<R: Fn(&CapsuleForm) -> CapsuleVerdicts>(
    found: Result<RecordType, EnvelopeError>,
    attempts: CapsuleAttempts,
    no_service_values: &CanonicalRecord,
    rule: R,
) -> (result: Result<EncodedPageItem<StoredCommandCapsuleV2>, DurableCodecError>)
    requires
        forall|form: &CapsuleForm| #[trigger] rule.requires((form,)),
    ensures
        match found_form(found, attempts) {
            Err(kind) => result == Err::<EncodedPageItem<StoredCommandCapsuleV2>, _>(
                DurableCodecError { kind },
            ),
            Ok((form, encoded_len)) => exists|verdicts: CapsuleVerdicts| #[trigger]
                rule.ensures((&form,), verdicts) && capsule_decoded(
                    form,
                    encoded_len,
                    no_service_values@,
                    verdicts,
                    result,
                ),
        },
{
    let (form, encoded_len) = find_form(found, attempts)?;
    let verdicts = rule(&form);
    assert(rule.ensures((&form,), verdicts));
    let command = capsule_from_form(form, no_service_values, verdicts)?;
    charged(command, encoded_len)
}

proof fn affected_is_settled(a: CompleteCommandView, b: CompleteCommandView)
    requires
        command_agrees(a),
        command_agrees(b),
        head_of(a.base) == head_of(b.base),
        invocation_of(a.base) == invocation_of(b.base),
        a.base.commit.events == b.base.commit.events,
        a.transitions == b.transitions,
    ensures
        a.base == b.base,
{
    let refs = a.base.commit.entity_references;
    assert(head_of(a.base).entity_references == refs);
    assert(head_of(b.base).entity_references == b.base.commit.entity_references);
    let plain_a = with_affected(a.base, affected_of(refs));
    let plain_b = with_affected(b.base, affected_of(refs));
    assert(head_of(plain_a) =~= head_of(a.base));
    assert(head_of(plain_b) =~= head_of(b.base));
    assert(invocation_of(plain_a) =~= invocation_of(a.base));
    assert(invocation_of(plain_b) =~= invocation_of(b.base));
    crate::stored::command_record::capsules_come_together_again(plain_a);
    crate::stored::command_record::capsules_come_together_again(plain_b);
}

/// A form holds at most one command whose records agree, so a command that is
/// written comes back as it was.
pub proof fn complete_command_round_trip(
    form: CapsuleForm,
    no_service_values: CanonicalRecordView,
    written: CompleteCommandView,
    read: CompleteCommandView,
)
    requires
        form_carries(form, written),
        form_defaults(form, no_service_values, written),
        command_valid(written),
        command_agrees(written),
        form_carries(form, read),
        form_defaults(form, no_service_values, read),
        command_valid(read),
        command_agrees(read),
    ensures
        read == written,
{
    match form {
        CapsuleForm::V2(message) => {
            v2_parts_are_settled(message, written, read);
        },
        CapsuleForm::V3(message) => {
            v2_parts_are_settled(message.base->Some_0, written, read);
        },
        CapsuleForm::V4(message) => {
            v2_parts_are_settled(message.base->Some_0.base->Some_0, written, read);
            transition_list_form_is_exact(
                message.entity_transitions@,
                written.transitions,
                read.transitions,
            );
        },
        CapsuleForm::V5(message) => {
            v5_parts_are_settled(message, written, read);
        },
        CapsuleForm::V6(message) => {
            v5_parts_are_settled(as_v5(message), written, read);
        },
    }
    assert(written.transitions =~= read.transitions);
    affected_is_settled(written, read);
    assert(written =~= read);
}

proof fn capsule_parts_are_settled(
    message: wire::StoredCommandCapsuleV1,
    a: CompleteCommandView,
    b: CompleteCommandView,
)
    requires
        capsule_carries(message, head_of(a.base), invocation_of(a.base)),
        capsule_carries(message, head_of(b.base), invocation_of(b.base)),
        command_valid(a),
        command_valid(b),
    ensures
        head_of(a.base) == head_of(b.base),
        invocation_of(a.base) == invocation_of(b.base),
{
    crate::codec::command_capsule::capsule_head_form_is_exact(
        message.head,
        head_of(a.base),
        head_of(b.base),
    );
    crate::codec::command_capsule::audit_invocation_form_is_exact(
        message.audit->Some_0,
        invocation_of(a.base),
        invocation_of(b.base),
    );
}

proof fn v2_parts_are_settled(
    message: wire::StoredCommandCapsuleV2,
    a: CompleteCommandView,
    b: CompleteCommandView,
)
    requires
        v2_carries(message, a),
        v2_carries(message, b),
        command_valid(a),
        command_valid(b),
    ensures
        head_of(a.base) == head_of(b.base),
        invocation_of(a.base) == invocation_of(b.base),
        a.base.commit.events == b.base.commit.events,
        a.generations == b.generations,
{
    capsule_parts_are_settled(message.base->Some_0, a, b);
    event_list_form_is_exact(message.events@, a.base.commit.events, b.base.commit.events);
    advance_list_form_is_exact(
        message.index_generation_transitions@,
        a.generations,
        b.generations,
    );
}

proof fn v5_parts_are_settled(
    message: wire::StoredCommandCapsuleV5,
    a: CompleteCommandView,
    b: CompleteCommandView,
)
    requires
        v5_carries(message, a),
        v5_carries(message, b),
        command_valid(a),
        command_valid(b),
    ensures
        head_of(a.base) == head_of(b.base),
        invocation_of(a.base) == invocation_of(b.base),
        a.base.commit.events == b.base.commit.events,
        a.policy_anchors == b.policy_anchors,
        a.generations == b.generations,
        a.service_values == b.service_values,
        a.transitions == b.transitions,
{
    capsule_parts_are_settled(message.base->Some_0, a, b);
    let joined_a = joined_events(a.base.commit.events, a.policy_anchors);
    let joined_b = joined_events(b.base.commit.events, b.policy_anchors);
    event_variant_list_form_is_exact(message.events@, joined_a, joined_b);
    assert(bare_events(joined_a) =~= a.base.commit.events);
    assert(bare_events(joined_b) =~= b.base.commit.events);
    assert(bare_anchors(joined_a) =~= a.policy_anchors);
    assert(bare_anchors(joined_b) =~= b.policy_anchors);
    advance_list_form_is_exact(
        message.index_generation_transitions@,
        a.generations,
        b.generations,
    );
    transition_list_form_is_exact(message.entity_transitions@, a.transitions, b.transitions);
}

} // verus!
