//! Command segments.

use vstd::prelude::*;

use crate::bytes::copy_bytes;
use crate::codec::parts::Identifier;
use crate::ids::{CommitSequence, Digest, Id64};
use crate::records::{DurableEventView, StoredDurableEventV1};
use crate::stored::application::{IndexEpochView, StoredIndexEpochV1};

verus! {

/// What a derived index finds.
#[derive(Clone, Copy, Debug, PartialEq, Eq, Structural)]
pub enum CommandDerivedIndexKindV1 {
    Idempotency,
    Provenance,
    AuditSequence,
    AuditRequest,
    EventRoute,
    PendingOutbox,
}

/// Which member of a command a derived entry leads to.
#[derive(Clone, Copy, Debug, PartialEq, Eq, Structural)]
pub enum CommandDerivedMemberV1 {
    Command,
    AuditStarted,
    AuditTerminal,
    Event,
}

/// What an entry of a derived index is.
#[verifier::ext_equal]
pub ghost struct ManifestEntryView {
    pub kind: CommandDerivedIndexKindV1,
    pub member: CommandDerivedMemberV1,
    pub exact_key: Seq<u8>,
    pub command_ordinal: u16,
    pub member_ordinal: u16,
    pub segment_first_commit_sequence: CommitSequence,
}

/// An entry of a derived index.
#[derive(Debug, PartialEq, Eq)]
pub struct CommandDerivedIndexManifestEntryV1 {
    pub kind: CommandDerivedIndexKindV1,
    pub member: CommandDerivedMemberV1,
    pub exact_key: Vec<u8>,
    pub command_ordinal: u16,
    pub member_ordinal: u16,
    pub segment_first_commit_sequence: CommitSequence,
}

impl View for CommandDerivedIndexManifestEntryV1 {
    type V = ManifestEntryView;

    open spec fn view(&self) -> ManifestEntryView {
        ManifestEntryView {
            kind: self.kind,
            member: self.member,
            exact_key: self.exact_key@,
            command_ordinal: self.command_ordinal,
            member_ordinal: self.member_ordinal,
            segment_first_commit_sequence: self.segment_first_commit_sequence,
        }
    }
}

impl Clone for CommandDerivedIndexManifestEntryV1 {
    fn clone(&self) -> (result: CommandDerivedIndexManifestEntryV1)
        ensures
            result@ == self@,
    {
        CommandDerivedIndexManifestEntryV1 {
            kind: self.kind,
            member: self.member,
            exact_key: copy_bytes(&self.exact_key),
            command_ordinal: self.command_ordinal,
            member_ordinal: self.member_ordinal,
            segment_first_commit_sequence: self.segment_first_commit_sequence,
        }
    }
}

/// What an advance of an index epoch is.
#[verifier::ext_equal]
pub ghost struct IndexAdvanceView {
    pub post_image: IndexEpochView,
    pub prior: Option<Id64>,
}

/// An advance of an index epoch.
#[derive(Debug, PartialEq, Eq)]
pub struct IndexEpochAdvanceV1 {
    pub post_image: StoredIndexEpochV1,
    pub prior: Option<Id64>,
}

impl View for IndexEpochAdvanceV1 {
    type V = IndexAdvanceView;

    open spec fn view(&self) -> IndexAdvanceView {
        IndexAdvanceView {
            post_image: self.post_image@,
            prior: self.prior,
        }
    }
}

impl Clone for IndexEpochAdvanceV1 {
    fn clone(&self) -> (result: IndexEpochAdvanceV1)
        ensures
            result@ == self@,
    {
        IndexEpochAdvanceV1 {
            post_image: self.post_image.clone(),
            prior: self.prior,
        }
    }
}

/// What a replaceable checkpoint of the derived indexes is.
#[verifier::ext_equal]
pub ghost struct DerivedCheckpointView {
    pub database_id: Identifier,
    pub history_incarnation: u64,
    pub registry_digest: Digest,
    pub segment_frontier: CommitSequence,
    pub segment_root_digest: Digest,
    pub entries: Seq<ManifestEntryView>,
    pub checkpoint_digest: Digest,
}

/// A replaceable checkpoint of the derived indexes.
#[derive(Debug, PartialEq, Eq)]
pub struct StoredCommandDerivedIndexCheckpointV1 {
    pub database_id: Identifier,
    pub history_incarnation: u64,
    pub registry_digest: Digest,
    pub segment_frontier: CommitSequence,
    pub segment_root_digest: Digest,
    pub entries: Vec<CommandDerivedIndexManifestEntryV1>,
    pub checkpoint_digest: Digest,
}

impl View for StoredCommandDerivedIndexCheckpointV1 {
    type V = DerivedCheckpointView;

    open spec fn view(&self) -> DerivedCheckpointView {
        DerivedCheckpointView {
            database_id: self.database_id,
            history_incarnation: self.history_incarnation,
            registry_digest: self.registry_digest,
            segment_frontier: self.segment_frontier,
            segment_root_digest: self.segment_root_digest,
            entries: manifest_entry_views(self.entries@),
            checkpoint_digest: self.checkpoint_digest,
        }
    }
}

impl Clone for StoredCommandDerivedIndexCheckpointV1 {
    fn clone(&self) -> (result: StoredCommandDerivedIndexCheckpointV1)
        ensures
            result@ == self@,
    {
        StoredCommandDerivedIndexCheckpointV1 {
            database_id: self.database_id,
            history_incarnation: self.history_incarnation,
            registry_digest: self.registry_digest,
            segment_frontier: self.segment_frontier,
            segment_root_digest: self.segment_root_digest,
            entries: copy_manifest_entry_list(&self.entries),
            checkpoint_digest: self.checkpoint_digest,
        }
    }
}

/// What an event and the policy that anchors it is.
#[verifier::ext_equal]
pub ghost struct CommandEventView {
    pub event: DurableEventView,
    pub policy_anchor: Option<Digest>,
}

/// An event and the policy that anchors it.
#[derive(Debug, PartialEq, Eq)]
pub struct CommandEvent {
    pub event: StoredDurableEventV1,
    pub policy_anchor: Option<Digest>,
}

impl View for CommandEvent {
    type V = CommandEventView;

    open spec fn view(&self) -> CommandEventView {
        CommandEventView {
            event: self.event@,
            policy_anchor: self.policy_anchor,
        }
    }
}

impl Clone for CommandEvent {
    fn clone(&self) -> (result: CommandEvent)
        ensures
            result@ == self@,
    {
        CommandEvent {
            event: self.event.clone(),
            policy_anchor: self.policy_anchor,
        }
    }
}

/// What a list of such values is.
pub open spec fn manifest_entry_views(
    values: Seq<CommandDerivedIndexManifestEntryV1>,
) -> Seq<ManifestEntryView> {
    Seq::new(values.len(), |i: int| values[i]@)
}

/// Copies a list of such values.
pub fn copy_manifest_entry_list(
    values: &[CommandDerivedIndexManifestEntryV1],
) -> (result: Vec<CommandDerivedIndexManifestEntryV1>)
    ensures
        manifest_entry_views(result@) == manifest_entry_views(values@),
{
    let mut result: Vec<CommandDerivedIndexManifestEntryV1> = Vec::new();
    let mut i: usize = 0;
    while i < values.len()
        invariant
            i <= values@.len(),
            result@.len() == i,
            forall|k: int| 0 <= k < i ==> result@[k]@ == values@[k]@,
        decreases values@.len() - i,
    {
        result.push(values[i].clone());
        i += 1;
    }
    assert(manifest_entry_views(result@) =~= manifest_entry_views(values@));
    result
}

/// What a list of such values is.
pub open spec fn advance_views(values: Seq<IndexEpochAdvanceV1>) -> Seq<IndexAdvanceView> {
    Seq::new(values.len(), |i: int| values[i]@)
}

/// Copies a list of such values.
pub fn copy_advance_list(values: &[IndexEpochAdvanceV1]) -> (result: Vec<IndexEpochAdvanceV1>)
    ensures
        advance_views(result@) == advance_views(values@),
{
    let mut result: Vec<IndexEpochAdvanceV1> = Vec::new();
    let mut i: usize = 0;
    while i < values.len()
        invariant
            i <= values@.len(),
            result@.len() == i,
            forall|k: int| 0 <= k < i ==> result@[k]@ == values@[k]@,
        decreases values@.len() - i,
    {
        result.push(values[i].clone());
        i += 1;
    }
    assert(advance_views(result@) =~= advance_views(values@));
    result
}

/// What a list of such values is.
pub open spec fn event_variant_views(values: Seq<CommandEvent>) -> Seq<CommandEventView> {
    Seq::new(values.len(), |i: int| values[i]@)
}

/// Copies a list of such values.
pub fn copy_event_variant_list(values: &[CommandEvent]) -> (result: Vec<CommandEvent>)
    ensures
        event_variant_views(result@) == event_variant_views(values@),
{
    let mut result: Vec<CommandEvent> = Vec::new();
    let mut i: usize = 0;
    while i < values.len()
        invariant
            i <= values@.len(),
            result@.len() == i,
            forall|k: int| 0 <= k < i ==> result@[k]@ == values@[k]@,
        decreases values@.len() - i,
    {
        result.push(values[i].clone());
        i += 1;
    }
    assert(event_variant_views(result@) =~= event_variant_views(values@));
    result
}

} // verus!
