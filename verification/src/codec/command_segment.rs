//! Command segments as durable messages.

use vstd::prelude::*;

use crate::bytes::copy_bytes;
use crate::codec::application::{
    event_carries, event_form_is_exact, event_from_proto, event_to_proto, event_valid,
    index_epoch_carries, index_epoch_form_is_exact, index_epoch_from_proto, index_epoch_to_proto,
    index_epoch_valid,
};
use crate::codec::error::{is_corrupt, require, DurableCodecError};
use crate::codec::parts::{
    digest_from_wire, identifier_carries, identifier_from_wire, identifier_to_wire,
    optional_digest_carries, optional_digest_from_wire, optional_digest_to_wire,
    optional_id64_carries, optional_id64_from_wire, optional_id64_to_wire, require_ref,
    word16_from_wire,
};
use crate::ids::{CommitSequence, Id64};
use crate::stored::command_segment::{
    advance_views, event_variant_views, manifest_entry_views, CommandDerivedIndexKindV1,
    CommandDerivedIndexManifestEntryV1, CommandDerivedMemberV1, CommandEvent, CommandEventView,
    DerivedCheckpointView, IndexAdvanceView, IndexEpochAdvanceV1, ManifestEntryView,
    StoredCommandDerivedIndexCheckpointV1,
};
use crate::wire;

verus! {

/// Whether an epoch is the one that follows a prior epoch, or the first.
pub open spec fn epoch_follows(prior: Option<Id64>, epoch: Id64) -> bool {
    match prior {
        None => epoch.value == 1,
        Some(prior) => epoch.value == prior.value + 1,
    }
}

fn does_epoch_follow(prior: Option<Id64>, epoch: Id64) -> (result: bool)
    ensures
        result == epoch_follows(prior, epoch),
{
    match prior {
        None => epoch.get() == 1,
        Some(prior) => prior.get() < u64::MAX && epoch.get() == prior.get() + 1,
    }
}

/// The stable code of what a derived index finds: its place in the list, from one on,
/// which is this library's own choice.
pub open spec fn derived_kind_code(value: CommandDerivedIndexKindV1) -> i32 {
    match value {
        CommandDerivedIndexKindV1::Idempotency => 1,
        CommandDerivedIndexKindV1::Provenance => 2,
        CommandDerivedIndexKindV1::AuditSequence => 3,
        CommandDerivedIndexKindV1::AuditRequest => 4,
        CommandDerivedIndexKindV1::EventRoute => 5,
        CommandDerivedIndexKindV1::PendingOutbox => 6,
    }
}

/// Returns the stable code of what a derived index finds.
pub fn derived_kind_to_code(value: CommandDerivedIndexKindV1) -> (result: i32)
    ensures
        result == derived_kind_code(value),
{
    match value {
        CommandDerivedIndexKindV1::Idempotency => 1,
        CommandDerivedIndexKindV1::Provenance => 2,
        CommandDerivedIndexKindV1::AuditSequence => 3,
        CommandDerivedIndexKindV1::AuditRequest => 4,
        CommandDerivedIndexKindV1::EventRoute => 5,
        CommandDerivedIndexKindV1::PendingOutbox => 6,
    }
}

/// Reads what a derived index finds from its stable code.
pub fn derived_kind_from_code(
    value: i32,
) -> (result: Result<CommandDerivedIndexKindV1, DurableCodecError>)
    ensures
        match result {
            Ok(held) => value == derived_kind_code(held),
            Err(error) => is_corrupt(error) && forall|other: CommandDerivedIndexKindV1|
                value != #[trigger] derived_kind_code(other),
        },
{
    match value {
        1 => Ok(CommandDerivedIndexKindV1::Idempotency),
        2 => Ok(CommandDerivedIndexKindV1::Provenance),
        3 => Ok(CommandDerivedIndexKindV1::AuditSequence),
        4 => Ok(CommandDerivedIndexKindV1::AuditRequest),
        5 => Ok(CommandDerivedIndexKindV1::EventRoute),
        6 => Ok(CommandDerivedIndexKindV1::PendingOutbox),
        _ => Err(DurableCodecError::corrupt()),
    }
}

/// The stable code of which member of a command a derived entry leads to: its place in
/// the list, from one on, which is this library's own choice.
pub open spec fn derived_member_code(value: CommandDerivedMemberV1) -> i32 {
    match value {
        CommandDerivedMemberV1::Command => 1,
        CommandDerivedMemberV1::AuditStarted => 2,
        CommandDerivedMemberV1::AuditTerminal => 3,
        CommandDerivedMemberV1::Event => 4,
    }
}

/// Returns the stable code of which member of a command a derived entry leads to.
pub fn derived_member_to_code(value: CommandDerivedMemberV1) -> (result: i32)
    ensures
        result == derived_member_code(value),
{
    match value {
        CommandDerivedMemberV1::Command => 1,
        CommandDerivedMemberV1::AuditStarted => 2,
        CommandDerivedMemberV1::AuditTerminal => 3,
        CommandDerivedMemberV1::Event => 4,
    }
}

/// Reads which member of a command a derived entry leads to from its stable code.
pub fn derived_member_from_code(
    value: i32,
) -> (result: Result<CommandDerivedMemberV1, DurableCodecError>)
    ensures
        match result {
            Ok(held) => value == derived_member_code(held),
            Err(error) => is_corrupt(error) && forall|other: CommandDerivedMemberV1|
                value != #[trigger] derived_member_code(other),
        },
{
    match value {
        1 => Ok(CommandDerivedMemberV1::Command),
        2 => Ok(CommandDerivedMemberV1::AuditStarted),
        3 => Ok(CommandDerivedMemberV1::AuditTerminal),
        4 => Ok(CommandDerivedMemberV1::Event),
        _ => Err(DurableCodecError::corrupt()),
    }
}

/// Whether a message is the form of an entry of a derived index.
pub open spec fn manifest_entry_carries(
    message: wire::CommandDerivedIndexManifestEntryV1,
    value: ManifestEntryView,
) -> bool {
    &&& message.kind == derived_kind_code(value.kind)
    &&& message.member == derived_member_code(value.member)
    &&& message.exact_key@ == value.exact_key
    &&& message.command_ordinal == value.command_ordinal
    &&& message.member_ordinal == value.member_ordinal
    &&& message.segment_first_commit_sequence == value.segment_first_commit_sequence.value
}

/// The parts of an entry of a derived index are valid.
pub open spec fn manifest_entry_valid(value: ManifestEntryView) -> bool {
    &&& value.segment_first_commit_sequence.valid()
}

/// A message is the form of at most one value.
pub proof fn manifest_entry_form_is_exact(
    message: wire::CommandDerivedIndexManifestEntryV1,
    a: ManifestEntryView,
    b: ManifestEntryView,
)
    requires
        manifest_entry_carries(message, a),
        manifest_entry_carries(message, b),
    ensures
        a == b,
{
}

/// The message form of an entry of a derived index.
pub fn manifest_entry_to_proto(
    value: &CommandDerivedIndexManifestEntryV1,
) -> (result: wire::CommandDerivedIndexManifestEntryV1)
    ensures
        manifest_entry_carries(result, value@),
{
    wire::CommandDerivedIndexManifestEntryV1 {
        kind: derived_kind_to_code(value.kind),
        member: derived_member_to_code(value.member),
        exact_key: copy_bytes(&value.exact_key),
        command_ordinal: value.command_ordinal as u32,
        member_ordinal: value.member_ordinal as u32,
        segment_first_commit_sequence: value.segment_first_commit_sequence.get(),
    }
}

/// Reads an entry of a derived index.
pub fn manifest_entry_from_proto(
    value: &wire::CommandDerivedIndexManifestEntryV1,
) -> (result: Result<
    CommandDerivedIndexManifestEntryV1,
    DurableCodecError,
>)
    ensures
        match result {
            Ok(held) => manifest_entry_carries(*value, held@) && manifest_entry_valid(held@),
            Err(error) => is_corrupt(error) && forall|other: ManifestEntryView| #[trigger]
                manifest_entry_carries(*value, other) ==> !manifest_entry_valid(other),
        },
{
    let kind = derived_kind_from_code(value.kind)?;
    let member = derived_member_from_code(value.member)?;
    let exact_key = copy_bytes(&value.exact_key);
    let command_ordinal = word16_from_wire(value.command_ordinal)?;
    let member_ordinal = word16_from_wire(value.member_ordinal)?;
    let segment_first_commit_sequence = require(
        CommitSequence::new(value.segment_first_commit_sequence),
    )?;
    Ok(
        CommandDerivedIndexManifestEntryV1 {
            kind,
            member,
            exact_key,
            command_ordinal,
            member_ordinal,
            segment_first_commit_sequence,
        },
    )
}

/// Whether messages are the forms of values, one by one.
pub open spec fn manifest_entry_list_carries(
    messages: Seq<wire::CommandDerivedIndexManifestEntryV1>,
    values: Seq<ManifestEntryView>,
) -> bool {
    &&& messages.len() == values.len()
    &&& forall|i: int|
        0 <= i < messages.len() ==> manifest_entry_carries(#[trigger] messages[i], values[i])
}

/// All values are valid.
pub open spec fn manifest_entry_list_valid(values: Seq<ManifestEntryView>) -> bool {
    forall|i: int| 0 <= i < values.len() ==> manifest_entry_valid(#[trigger] values[i])
}

/// Messages are the forms of at most one list of values.
pub proof fn manifest_entry_list_form_is_exact(
    messages: Seq<wire::CommandDerivedIndexManifestEntryV1>,
    a: Seq<ManifestEntryView>,
    b: Seq<ManifestEntryView>,
)
    requires
        manifest_entry_list_carries(messages, a),
        manifest_entry_list_carries(messages, b),
    ensures
        a == b,
{
    assert forall|i: int| 0 <= i < a.len() implies a[i] == b[i] by {
        assert(manifest_entry_carries(messages[i], a[i])
            && manifest_entry_carries(messages[i], b[i]));
        manifest_entry_form_is_exact(messages[i], a[i], b[i]);
    }
    assert(a =~= b);
}

/// The message forms of values.
pub fn manifest_entry_list_to_proto(
    values: &[CommandDerivedIndexManifestEntryV1],
) -> (result: Vec<wire::CommandDerivedIndexManifestEntryV1>)
    ensures
        manifest_entry_list_carries(result@, manifest_entry_views(values@)),
{
    let mut result: Vec<wire::CommandDerivedIndexManifestEntryV1> = Vec::new();
    let mut i: usize = 0;
    while i < values.len()
        invariant
            i <= values@.len(),
            result@.len() == i,
            forall|k: int| 0 <= k < i ==> manifest_entry_carries(
                #[trigger] result@[k],
                values@[k]@,
            ),
        decreases values@.len() - i,
    {
        result.push(manifest_entry_to_proto(&values[i]));
        i += 1;
    }
    result
}

/// Reads values from their message forms.
pub fn manifest_entry_list_from_proto(
    values: &[wire::CommandDerivedIndexManifestEntryV1],
) -> (result: Result<
    Vec<CommandDerivedIndexManifestEntryV1>,
    DurableCodecError,
>)
    ensures
        match result {
            Ok(held) => manifest_entry_list_carries(
                values@,
                manifest_entry_views(held@),
            ) && manifest_entry_list_valid(manifest_entry_views(held@)),
            Err(error) => is_corrupt(error) && forall|other: Seq<ManifestEntryView>| #[trigger]
                manifest_entry_list_carries(values@, other) ==> !manifest_entry_list_valid(other),
        },
{
    let mut result: Vec<CommandDerivedIndexManifestEntryV1> = Vec::new();
    let mut i: usize = 0;
    while i < values.len()
        invariant
            i <= values@.len(),
            result@.len() == i,
            forall|k: int|
                0 <= k < i ==> manifest_entry_carries(values@[k], #[trigger] result@[k]@)
                    && manifest_entry_valid(result@[k]@),
        decreases values@.len() - i,
    {
        match manifest_entry_from_proto(&values[i]) {
            Ok(held) => {
                result.push(held);
            },
            Err(error) => {
                assert forall|other: Seq<ManifestEntryView>| #[trigger]
                    manifest_entry_list_carries(values@, other)
                        implies !manifest_entry_list_valid(other) by {
                    assert(manifest_entry_carries(values@[i as int], other[i as int]));
                    assert(!manifest_entry_valid(other[i as int]));
                }
                return Err(error);
            },
        }
        i += 1;
    }
    Ok(result)
}

/// Whether a message is the form of an advance of an index epoch.
pub open spec fn advance_carries(
    message: wire::StoredIndexGenerationTransitionV1,
    value: IndexAdvanceView,
) -> bool {
    &&& (message.post_image matches Some(part) && index_epoch_carries(part, value.post_image))
    &&& optional_id64_carries(message.prior_generation, value.prior)
}

/// The parts of an advance of an index epoch are valid.
pub open spec fn advance_valid(value: IndexAdvanceView) -> bool {
    &&& index_epoch_valid(value.post_image)
    &&& (value.prior matches Some(part) ==> part.valid())
    &&& epoch_follows(value.prior, value.post_image.epoch)
}

/// A message is the form of at most one value.
pub proof fn advance_form_is_exact(
    message: wire::StoredIndexGenerationTransitionV1,
    a: IndexAdvanceView,
    b: IndexAdvanceView,
)
    requires
        advance_carries(message, a),
        advance_carries(message, b),
    ensures
        a == b,
{
    index_epoch_form_is_exact(message.post_image->Some_0, a.post_image, b.post_image);
}

/// The message form of an advance of an index epoch.
pub fn advance_to_proto(
    value: &IndexEpochAdvanceV1,
) -> (result: wire::StoredIndexGenerationTransitionV1)
    ensures
        advance_carries(result, value@),
{
    wire::StoredIndexGenerationTransitionV1 {
        post_image: Some(index_epoch_to_proto(&value.post_image)),
        prior_generation: optional_id64_to_wire(value.prior),
    }
}

/// Reads an advance of an index epoch.
pub fn advance_from_proto(value: &wire::StoredIndexGenerationTransitionV1) -> (result: Result<
    IndexEpochAdvanceV1,
    DurableCodecError,
>)
    ensures
        match result {
            Ok(held) => advance_carries(*value, held@) && advance_valid(held@),
            Err(error) => is_corrupt(error) && forall|other: IndexAdvanceView| #[trigger]
                advance_carries(*value, other) ==> !advance_valid(other),
        },
{
    let post_image = index_epoch_from_proto(require_ref(&value.post_image)?)?;
    let prior = optional_id64_from_wire(value.prior_generation)?;
    if !(does_epoch_follow(prior, post_image.epoch)) {
        assert forall|other: IndexAdvanceView| #[trigger]
            advance_carries(*value, other) implies !advance_valid(other) by {
        }
        return Err(DurableCodecError::corrupt());
    }
    Ok(IndexEpochAdvanceV1 { post_image, prior })
}

/// Whether messages are the forms of values, one by one.
pub open spec fn advance_list_carries(
    messages: Seq<wire::StoredIndexGenerationTransitionV1>,
    values: Seq<IndexAdvanceView>,
) -> bool {
    &&& messages.len() == values.len()
    &&& forall|i: int|
        0 <= i < messages.len() ==> advance_carries(#[trigger] messages[i], values[i])
}

/// All values are valid.
pub open spec fn advance_list_valid(values: Seq<IndexAdvanceView>) -> bool {
    forall|i: int| 0 <= i < values.len() ==> advance_valid(#[trigger] values[i])
}

/// Messages are the forms of at most one list of values.
pub proof fn advance_list_form_is_exact(
    messages: Seq<wire::StoredIndexGenerationTransitionV1>,
    a: Seq<IndexAdvanceView>,
    b: Seq<IndexAdvanceView>,
)
    requires
        advance_list_carries(messages, a),
        advance_list_carries(messages, b),
    ensures
        a == b,
{
    assert forall|i: int| 0 <= i < a.len() implies a[i] == b[i] by {
        assert(advance_carries(messages[i], a[i]) && advance_carries(messages[i], b[i]));
        advance_form_is_exact(messages[i], a[i], b[i]);
    }
    assert(a =~= b);
}

/// The message forms of values.
pub fn advance_list_to_proto(
    values: &[IndexEpochAdvanceV1],
) -> (result: Vec<wire::StoredIndexGenerationTransitionV1>)
    ensures
        advance_list_carries(result@, advance_views(values@)),
{
    let mut result: Vec<wire::StoredIndexGenerationTransitionV1> = Vec::new();
    let mut i: usize = 0;
    while i < values.len()
        invariant
            i <= values@.len(),
            result@.len() == i,
            forall|k: int| 0 <= k < i ==> advance_carries(#[trigger] result@[k], values@[k]@),
        decreases values@.len() - i,
    {
        result.push(advance_to_proto(&values[i]));
        i += 1;
    }
    result
}

/// Reads values from their message forms.
pub fn advance_list_from_proto(
    values: &[wire::StoredIndexGenerationTransitionV1],
) -> (result: Result<
    Vec<IndexEpochAdvanceV1>,
    DurableCodecError,
>)
    ensures
        match result {
            Ok(held) => advance_list_carries(
                values@,
                advance_views(held@),
            ) && advance_list_valid(advance_views(held@)),
            Err(error) => is_corrupt(error) && forall|other: Seq<IndexAdvanceView>| #[trigger]
                advance_list_carries(values@, other) ==> !advance_list_valid(other),
        },
{
    let mut result: Vec<IndexEpochAdvanceV1> = Vec::new();
    let mut i: usize = 0;
    while i < values.len()
        invariant
            i <= values@.len(),
            result@.len() == i,
            forall|k: int|
                0 <= k < i ==> advance_carries(values@[k], #[trigger] result@[k]@)
                    && advance_valid(result@[k]@),
        decreases values@.len() - i,
    {
        match advance_from_proto(&values[i]) {
            Ok(held) => {
                result.push(held);
            },
            Err(error) => {
                assert forall|other: Seq<IndexAdvanceView>| #[trigger]
                    advance_list_carries(values@, other) implies !advance_list_valid(other) by {
                    assert(advance_carries(values@[i as int], other[i as int]));
                    assert(!advance_valid(other[i as int]));
                }
                return Err(error);
            },
        }
        i += 1;
    }
    Ok(result)
}

/// Whether a message is the form of a replaceable checkpoint of the derived indexes.
pub open spec fn checkpoint_carries(
    message: wire::StoredCommandDerivedIndexCheckpointV1,
    value: DerivedCheckpointView,
) -> bool {
    &&& identifier_carries(message.database_id, value.database_id)
    &&& message.history_incarnation == value.history_incarnation
    &&& message.registry_digest@ == value.registry_digest.bytes@
    &&& message.segment_frontier == value.segment_frontier.value
    &&& message.segment_root_digest@ == value.segment_root_digest.bytes@
    &&& manifest_entry_list_carries(message.entries@, value.entries)
    &&& message.checkpoint_digest@ == value.checkpoint_digest.bytes@
}

/// The parts of a replaceable checkpoint of the derived indexes are valid.
pub open spec fn checkpoint_valid(value: DerivedCheckpointView) -> bool {
    &&& value.segment_frontier.valid()
    &&& manifest_entry_list_valid(value.entries)
}

/// A message is the form of at most one value.
pub proof fn checkpoint_form_is_exact(
    message: wire::StoredCommandDerivedIndexCheckpointV1,
    a: DerivedCheckpointView,
    b: DerivedCheckpointView,
)
    requires
        checkpoint_carries(message, a),
        checkpoint_carries(message, b),
    ensures
        a == b,
{
    assert(a.database_id.bytes =~= b.database_id.bytes);
    assert(a.registry_digest.bytes =~= b.registry_digest.bytes);
    assert(a.segment_root_digest.bytes =~= b.segment_root_digest.bytes);
    manifest_entry_list_form_is_exact(message.entries@, a.entries, b.entries);
    assert(a.checkpoint_digest.bytes =~= b.checkpoint_digest.bytes);
}

/// The message form of a replaceable checkpoint of the derived indexes.
pub fn checkpoint_to_proto(
    value: &StoredCommandDerivedIndexCheckpointV1,
) -> (result: wire::StoredCommandDerivedIndexCheckpointV1)
    ensures
        checkpoint_carries(result, value@),
{
    wire::StoredCommandDerivedIndexCheckpointV1 {
        database_id: identifier_to_wire(value.database_id),
        history_incarnation: value.history_incarnation,
        registry_digest: copy_bytes(value.registry_digest.bytes.as_slice()),
        segment_frontier: value.segment_frontier.get(),
        segment_root_digest: copy_bytes(value.segment_root_digest.bytes.as_slice()),
        entries: manifest_entry_list_to_proto(&value.entries),
        checkpoint_digest: copy_bytes(value.checkpoint_digest.bytes.as_slice()),
    }
}

/// What reading a message gives: the value that it is the form of, or a
/// corruption where it is the form of no valid one.
pub open spec fn checkpoint_read(
    message: wire::StoredCommandDerivedIndexCheckpointV1,
    result: Result<StoredCommandDerivedIndexCheckpointV1, DurableCodecError>,
) -> bool {
    match result {
        Ok(held) => checkpoint_carries(message, held@) && checkpoint_valid(held@),
        Err(error) => is_corrupt(error) && forall|other: DerivedCheckpointView| #[trigger]
            checkpoint_carries(message, other) ==> !checkpoint_valid(other),
    }
}

/// Reads a replaceable checkpoint of the derived indexes.
pub fn checkpoint_from_proto(
    value: &wire::StoredCommandDerivedIndexCheckpointV1,
) -> (result: Result<
    StoredCommandDerivedIndexCheckpointV1,
    DurableCodecError,
>)
    ensures
        checkpoint_read(*value, result),
{
    let database_id = identifier_from_wire(&value.database_id)?;
    let history_incarnation = value.history_incarnation;
    let registry_digest = digest_from_wire(&value.registry_digest)?;
    let segment_frontier = require(CommitSequence::new(value.segment_frontier))?;
    let segment_root_digest = digest_from_wire(&value.segment_root_digest)?;
    let entries = manifest_entry_list_from_proto(&value.entries)?;
    let checkpoint_digest = digest_from_wire(&value.checkpoint_digest)?;
    Ok(
        StoredCommandDerivedIndexCheckpointV1 {
            database_id,
            history_incarnation,
            registry_digest,
            segment_frontier,
            segment_root_digest,
            entries,
            checkpoint_digest,
        },
    )
}

/// Reading the message form of a replaceable checkpoint of the derived indexes gives back
/// what was written.
pub proof fn checkpoint_round_trip(
    value: DerivedCheckpointView,
    message: wire::StoredCommandDerivedIndexCheckpointV1,
    read: Result<StoredCommandDerivedIndexCheckpointV1, DurableCodecError>,
)
    requires
        checkpoint_valid(value),
        checkpoint_carries(message, value),
        checkpoint_read(message, read),
    ensures
        read is Ok,
        read->Ok_0@ == value,
{
    if let Ok(held) = read {
        checkpoint_form_is_exact(message, held@, value);
    }
}

/// Whether a message is the form of an event and the policy that anchors it.
pub open spec fn event_variant_carries(
    message: wire::StoredDurableEventVariantV1,
    value: CommandEventView,
) -> bool {
    &&& (message.event matches Some(part) && event_carries(part, value.event))
    &&& optional_digest_carries(message.policy_anchor, value.policy_anchor)
}

/// The parts of an event and the policy that anchors it are valid.
pub open spec fn event_variant_valid(value: CommandEventView) -> bool {
    &&& event_valid(value.event)
}

/// A message is the form of at most one value.
pub proof fn event_variant_form_is_exact(
    message: wire::StoredDurableEventVariantV1,
    a: CommandEventView,
    b: CommandEventView,
)
    requires
        event_variant_carries(message, a),
        event_variant_carries(message, b),
    ensures
        a == b,
{
    event_form_is_exact(message.event->Some_0, a.event, b.event);
    if a.policy_anchor is Some {
        assert(a.policy_anchor->Some_0.bytes =~= b.policy_anchor->Some_0.bytes);
    }
}

/// The message form of an event and the policy that anchors it.
pub fn event_variant_to_proto(value: &CommandEvent) -> (result: wire::StoredDurableEventVariantV1)
    ensures
        event_variant_carries(result, value@),
{
    wire::StoredDurableEventVariantV1 {
        event: Some(event_to_proto(&value.event)),
        policy_anchor: optional_digest_to_wire(value.policy_anchor),
    }
}

/// Reads an event and the policy that anchors it.
pub fn event_variant_from_proto(value: &wire::StoredDurableEventVariantV1) -> (result: Result<
    CommandEvent,
    DurableCodecError,
>)
    ensures
        match result {
            Ok(held) => event_variant_carries(*value, held@) && event_variant_valid(held@),
            Err(error) => is_corrupt(error) && forall|other: CommandEventView| #[trigger]
                event_variant_carries(*value, other) ==> !event_variant_valid(other),
        },
{
    let event = event_from_proto(require_ref(&value.event)?)?;
    let policy_anchor = optional_digest_from_wire(&value.policy_anchor)?;
    Ok(CommandEvent { event, policy_anchor })
}

/// Whether messages are the forms of values, one by one.
pub open spec fn event_variant_list_carries(
    messages: Seq<wire::StoredDurableEventVariantV1>,
    values: Seq<CommandEventView>,
) -> bool {
    &&& messages.len() == values.len()
    &&& forall|i: int|
        0 <= i < messages.len() ==> event_variant_carries(#[trigger] messages[i], values[i])
}

/// All values are valid.
pub open spec fn event_variant_list_valid(values: Seq<CommandEventView>) -> bool {
    forall|i: int| 0 <= i < values.len() ==> event_variant_valid(#[trigger] values[i])
}

/// Messages are the forms of at most one list of values.
pub proof fn event_variant_list_form_is_exact(
    messages: Seq<wire::StoredDurableEventVariantV1>,
    a: Seq<CommandEventView>,
    b: Seq<CommandEventView>,
)
    requires
        event_variant_list_carries(messages, a),
        event_variant_list_carries(messages, b),
    ensures
        a == b,
{
    assert forall|i: int| 0 <= i < a.len() implies a[i] == b[i] by {
        assert(event_variant_carries(messages[i], a[i])
            && event_variant_carries(messages[i], b[i]));
        event_variant_form_is_exact(messages[i], a[i], b[i]);
    }
    assert(a =~= b);
}

/// The message forms of values.
pub fn event_variant_list_to_proto(
    values: &[CommandEvent],
) -> (result: Vec<wire::StoredDurableEventVariantV1>)
    ensures
        event_variant_list_carries(result@, event_variant_views(values@)),
{
    let mut result: Vec<wire::StoredDurableEventVariantV1> = Vec::new();
    let mut i: usize = 0;
    while i < values.len()
        invariant
            i <= values@.len(),
            result@.len() == i,
            forall|k: int| 0 <= k < i ==> event_variant_carries(#[trigger] result@[k], values@[k]@),
        decreases values@.len() - i,
    {
        result.push(event_variant_to_proto(&values[i]));
        i += 1;
    }
    result
}

/// Reads values from their message forms.
pub fn event_variant_list_from_proto(
    values: &[wire::StoredDurableEventVariantV1],
) -> (result: Result<
    Vec<CommandEvent>,
    DurableCodecError,
>)
    ensures
        match result {
            Ok(held) => event_variant_list_carries(
                values@,
                event_variant_views(held@),
            ) && event_variant_list_valid(event_variant_views(held@)),
            Err(error) => is_corrupt(error) && forall|other: Seq<CommandEventView>| #[trigger]
                event_variant_list_carries(values@, other) ==> !event_variant_list_valid(other),
        },
{
    let mut result: Vec<CommandEvent> = Vec::new();
    let mut i: usize = 0;
    while i < values.len()
        invariant
            i <= values@.len(),
            result@.len() == i,
            forall|k: int|
                0 <= k < i ==> event_variant_carries(values@[k], #[trigger] result@[k]@)
                    && event_variant_valid(result@[k]@),
        decreases values@.len() - i,
    {
        match event_variant_from_proto(&values[i]) {
            Ok(held) => {
                result.push(held);
            },
            Err(error) => {
                assert forall|other: Seq<CommandEventView>| #[trigger]
                    event_variant_list_carries(values@, other)
                        implies !event_variant_list_valid(other) by {
                    assert(event_variant_carries(values@[i as int], other[i as int]));
                    assert(!event_variant_valid(other[i as int]));
                }
                return Err(error);
            },
        }
        i += 1;
    }
    Ok(result)
}

} // verus!
