//! Command segments: runs of complete successful commands.

use vstd::prelude::*;

use crate::codec::parts::Identifier;
use crate::ids::{CommitSequence, Digest, Id64};
use crate::keys::{CanonicalRecord, CanonicalRecordView};
use crate::limits::MAX_INDEX_DELTAS;
use crate::stored::application::{affected_views, AffectedEntityV1, AffectedEntityView};
use crate::stored::command_record::{
    affected_of, records_agree, CommandCapsuleView, StoredCommandCapsuleV1,
};
use crate::stored::command_segment::{
    advance_views, manifest_entry_views, CommandDerivedIndexManifestEntryV1, IndexAdvanceView,
    IndexEpochAdvanceV1, ManifestEntryView,
};
use crate::stored::entity_transition::{
    transition_views, CommittedEntityTransitionV1, EntityChainStateV1, EntityTransitionView,
};

verus! {

/// What a complete command is.
#[verifier::ext_equal]
pub ghost struct CompleteCommandView {
    pub base: CommandCapsuleView,
    pub policy_anchors: Seq<Option<Digest>>,
    pub service_values: CanonicalRecordView,
    pub generations: Seq<IndexAdvanceView>,
    pub transitions: Seq<EntityTransitionView>,
}

/// One complete successful command: its five records, the policy anchors of its
/// events, its service values, index advances and entity transitions.
#[derive(Debug, PartialEq, Eq)]
pub struct StoredCommandCapsuleV2 {
    pub base: StoredCommandCapsuleV1,
    pub policy_anchors: Vec<Option<Digest>>,
    pub service_values: CanonicalRecord,
    pub index_generation_transitions: Vec<IndexEpochAdvanceV1>,
    pub entity_transitions: Vec<CommittedEntityTransitionV1>,
}

impl View for StoredCommandCapsuleV2 {
    type V = CompleteCommandView;

    open spec fn view(&self) -> CompleteCommandView {
        CompleteCommandView {
            base: self.base@,
            policy_anchors: self.policy_anchors@,
            service_values: self.service_values@,
            generations: advance_views(self.index_generation_transitions@),
            transitions: transition_views(self.entity_transitions@),
        }
    }
}

impl CompleteCommandView {
    /// The command's place in the history.
    pub open spec fn commit_sequence(self) -> CommitSequence {
        self.base.commit.parts.commit_sequence
    }

    /// Some event has a policy anchor.
    pub open spec fn anchored(self) -> bool {
        exists|i: int|
            0 <= i < self.policy_anchors.len() && (#[trigger] self.policy_anchors[i]) is Some
    }

    /// There is one policy anchor, or none, for each event.
    pub open spec fn anchors_fit(self) -> bool {
        self.policy_anchors.len() == self.base.commit.events.len()
    }
}

/// No event of a list has a policy anchor.
pub open spec fn no_anchors(count: nat) -> Seq<Option<Digest>> {
    Seq::new(count, |_i: int| None::<Digest>)
}

impl StoredCommandCapsuleV2 {
    /// The command's place in the history.
    pub fn commit_sequence(&self) -> (result: CommitSequence)
        ensures
            result == self@.commit_sequence(),
    {
        self.base.commit.parts.commit_sequence
    }
}

/// The version in which a transition leaves its entity: a deleted entity keeps
/// the version that it was deleted in. Others leave none.
pub open spec fn left_version(transition: EntityTransitionView) -> Option<Id64> {
    match transition.next_state {
        EntityChainStateV1::Live { version, .. } => Some(version),
        EntityChainStateV1::Deleted => match transition.prior_state {
            EntityChainStateV1::Live { version, .. } => Some(version),
            _ => None,
        },
        EntityChainStateV1::NeverExisted => None,
    }
}

/// Every transition leaves its entity in some version.
pub open spec fn all_leave_versions(transitions: Seq<EntityTransitionView>) -> bool {
    forall|i: int| 0 <= i < transitions.len() ==> left_version(#[trigger] transitions[i]) is Some
}

/// The entities that transitions affect.
pub open spec fn affected_by(transitions: Seq<EntityTransitionView>) -> Seq<AffectedEntityView> {
    Seq::new(
        transitions.len(),
        |i: int|
            AffectedEntityView {
                target: transitions[i].target,
                entity_version: left_version(transitions[i])->Some_0,
            },
    )
}

/// A command with other affected entities in its provenance.
pub open spec fn with_affected(
    base: CommandCapsuleView,
    affected: Seq<AffectedEntityView>,
) -> CommandCapsuleView {
    CommandCapsuleView {
        provenance: crate::stored::application::ProvenanceRecordView {
            base: crate::stored::application::ProvenanceBaseView {
                affected_entities: affected,
                ..base.provenance.base
            },
            ..base.provenance
        },
        ..base
    }
}

/// The command as its entity transitions make it: where there are any, they say
/// which entities it affected.
pub open spec fn with_transitions(
    base: CommandCapsuleView,
    transitions: Seq<EntityTransitionView>,
) -> CommandCapsuleView {
    if transitions.len() == 0 {
        base
    } else {
        with_affected(base, affected_by(transitions))
    }
}

/// The records of a complete command agree: without transitions they are those of
/// the plain command, with transitions its provenance names their entities.
pub open spec fn command_agrees(command: CompleteCommandView) -> bool {
    let plain = with_affected(command.base, affected_of(command.base.commit.entity_references));
    &&& records_agree(plain)
    &&& command.base == with_transitions(plain, command.transitions)
    &&& all_leave_versions(command.transitions)
}

/// The affected entities of transitions, or none where one leaves no version.
pub fn affected_entities(transitions: &[CommittedEntityTransitionV1]) -> (result: Option<
    Vec<AffectedEntityV1>,
>)
    ensures
        result is Some <==> all_leave_versions(transition_views(transitions@)),
        result is Some ==> affected_views(result->Some_0@) == affected_by(
            transition_views(transitions@),
        ),
{
    let ghost views = transition_views(transitions@);
    let mut affected: Vec<AffectedEntityV1> = Vec::new();
    let mut i: usize = 0;
    while i < transitions.len()
        invariant
            i <= transitions@.len(),
            views == transition_views(transitions@),
            affected@.len() == i,
            forall|k: int| 0 <= k < i ==> left_version(#[trigger] views[k]) is Some,
            forall|k: int| 0 <= k < i ==> (#[trigger] affected@[k])@ == affected_by(views)[k],
        decreases transitions@.len() - i,
    {
        let transition = &transitions[i];
        let version = match transition.next_state {
            EntityChainStateV1::Live { version, .. } => Some(version),
            EntityChainStateV1::Deleted => match transition.prior_state {
                EntityChainStateV1::Live { version, .. } => Some(version),
                EntityChainStateV1::Deleted | EntityChainStateV1::NeverExisted => None,
            },
            EntityChainStateV1::NeverExisted => None,
        };
        assert(views[i as int] == transition@);
        match version {
            None => return None,
            Some(entity_version) => {
                affected.push(
                    AffectedEntityV1 { target: transition.target.clone(), entity_version },
                );
            },
        }
        i += 1;
    }
    assert(affected_views(affected@) =~= affected_by(views));
    Some(affected)
}

/// Least-sufficient immutable wire identity for command-segment members.
#[derive(Clone, Copy, Debug, PartialEq, Eq, Structural)]
pub enum CommandCapsuleWireVersionV1 {
    /// Entity-transition authority without event-policy anchors.
    V4,
    /// Event-policy authority with the historical transition bound.
    V5,
    /// Correlated index-work authority with the expanded transition bound.
    V6,
}

impl CommandCapsuleWireVersionV1 {
    /// The version's place in the order of what it can hold.
    pub open spec fn spec_rank(self) -> u8 {
        match self {
            CommandCapsuleWireVersionV1::V4 => 0,
            CommandCapsuleWireVersionV1::V5 => 1,
            CommandCapsuleWireVersionV1::V6 => 2,
        }
    }

    /// The version's place in the order of what it can hold.
    #[verifier::when_used_as_spec(spec_rank)]
    pub fn rank(self) -> (result: u8)
        ensures
            result == self.rank(),
    {
        match self {
            CommandCapsuleWireVersionV1::V4 => 0,
            CommandCapsuleWireVersionV1::V5 => 1,
            CommandCapsuleWireVersionV1::V6 => 2,
        }
    }
}

/// The least version that can hold a command.
pub open spec fn capsule_version(command: CompleteCommandView) -> CommandCapsuleWireVersionV1 {
    if command.generations.len() > MAX_INDEX_DELTAS {
        CommandCapsuleWireVersionV1::V6
    } else if command.anchored() {
        CommandCapsuleWireVersionV1::V5
    } else {
        CommandCapsuleWireVersionV1::V4
    }
}

fn capsule_requires_v5(value: &StoredCommandCapsuleV2) -> (result: bool)
    ensures
        result == value@.anchored(),
{
    let mut i: usize = 0;
    while i < value.policy_anchors.len()
        invariant
            i <= value.policy_anchors@.len(),
            forall|k: int| 0 <= k < i ==> (#[trigger] value.policy_anchors@[k]) is None,
        decreases value.policy_anchors@.len() - i,
    {
        if value.policy_anchors[i].is_some() {
            assert(value@.policy_anchors[i as int] is Some);
            return true;
        }
        i += 1;
    }
    false
}

/// Selects the least-sufficient wire identity for one command capsule.
pub fn command_capsule_wire_version_v1(value: &StoredCommandCapsuleV2) -> (result:
    CommandCapsuleWireVersionV1)
    ensures
        result == capsule_version(value@),
{
    if value.index_generation_transitions.len() > MAX_INDEX_DELTAS {
        CommandCapsuleWireVersionV1::V6
    } else if capsule_requires_v5(value) {
        CommandCapsuleWireVersionV1::V5
    } else {
        CommandCapsuleWireVersionV1::V4
    }
}

/// The views of a list of complete commands.
pub open spec fn command_views(values: Seq<StoredCommandCapsuleV2>) -> Seq<CompleteCommandView> {
    Seq::new(values.len(), |i: int| values[i]@)
}

/// The least version that can hold every command of a list.
pub open spec fn segment_version(commands: Seq<CompleteCommandView>) -> CommandCapsuleWireVersionV1
    decreases commands.len(),
{
    if commands.len() == 0 {
        CommandCapsuleWireVersionV1::V4
    } else {
        let before = segment_version(commands.drop_last());
        let last = capsule_version(commands.last());
        if before.rank() < last.rank() {
            last
        } else {
            before
        }
    }
}

/// Selects the least-sufficient segment-wide member identity.
pub fn command_segment_wire_version_v1(commands: &[StoredCommandCapsuleV2]) -> (result:
    CommandCapsuleWireVersionV1)
    ensures
        result == segment_version(command_views(commands@)),
{
    let mut result = CommandCapsuleWireVersionV1::V4;
    let ghost views = command_views(commands@);
    let mut i: usize = 0;
    while i < commands.len()
        invariant
            i <= commands@.len(),
            views == command_views(commands@),
            result == segment_version(views.take(i as int)),
        decreases commands@.len() - i,
    {
        let version = command_capsule_wire_version_v1(&commands[i]);
        proof {
            assert(views.take(i + 1).drop_last() =~= views.take(i as int));
            assert(views.take(i + 1).last() == commands@[i as int]@);
        }
        if result.rank() < version.rank() {
            result = version;
        }
        i += 1;
    }
    assert(views.take(views.len() as int) =~= views);
    result
}

/// The segment's version can hold every command, and no lesser version can.
pub proof fn segment_version_is_least(commands: Seq<CompleteCommandView>)
    ensures
        forall|i: int|
            0 <= i < commands.len() ==> capsule_version(#[trigger] commands[i]).rank()
                <= segment_version(commands).rank(),
        segment_version(commands) is V4 || exists|i: int|
            0 <= i < commands.len() && capsule_version(#[trigger] commands[i]) == segment_version(
                commands,
            ),
    decreases commands.len(),
{
    if commands.len() > 0 {
        let before = commands.drop_last();
        segment_version_is_least(before);
        assert forall|i: int| 0 <= i < commands.len() implies capsule_version(
            #[trigger] commands[i],
        ).rank() <= segment_version(commands).rank() by {
            if i < before.len() {
                assert(before[i] == commands[i]);
            }
        }
        let last = capsule_version(commands.last());
        if segment_version(before).rank() < last.rank() {
            assert(capsule_version(commands[commands.len() - 1]) == segment_version(commands));
        } else if !(segment_version(before) is V4) {
            let i = choose|i: int|
                0 <= i < before.len() && capsule_version(#[trigger] before[i]) == segment_version(
                    before,
                );
            assert(capsule_version(commands[i]) == segment_version(commands));
        }
    }
}

/// The exact derived-index entries of one segment.
#[derive(Debug, PartialEq, Eq)]
pub struct CommandSegmentManifestV1 {
    pub entries: Vec<CommandDerivedIndexManifestEntryV1>,
}

impl View for CommandSegmentManifestV1 {
    type V = Seq<ManifestEntryView>;

    open spec fn view(&self) -> Seq<ManifestEntryView> {
        manifest_entry_views(self.entries@)
    }
}

/// What a command segment is.
#[verifier::ext_equal]
pub ghost struct CommandSegmentView {
    pub database_id: Identifier,
    pub history_incarnation: u64,
    pub predecessor: Option<Digest>,
    pub commands: Seq<CompleteCommandView>,
    pub manifest: Seq<ManifestEntryView>,
    pub segment_digest: Digest,
}

/// A run of complete commands with the manifest of its derived indexes, linked to
/// the segment before it.
#[derive(Debug, PartialEq, Eq)]
pub struct StoredCommandSegmentV1 {
    pub database_id: Identifier,
    pub history_incarnation: u64,
    pub predecessor: Option<Digest>,
    pub commands: Vec<StoredCommandCapsuleV2>,
    pub manifest: CommandSegmentManifestV1,
    pub segment_digest: Digest,
}

impl View for StoredCommandSegmentV1 {
    type V = CommandSegmentView;

    open spec fn view(&self) -> CommandSegmentView {
        CommandSegmentView {
            database_id: self.database_id,
            history_incarnation: self.history_incarnation,
            predecessor: self.predecessor,
            commands: command_views(self.commands@),
            manifest: self.manifest@,
            segment_digest: self.segment_digest,
        }
    }
}

impl CommandSegmentView {
    /// A segment holds at least one command.
    pub open spec fn wf(self) -> bool {
        self.commands.len() > 0
    }

    /// The place of the first command.
    pub open spec fn first_commit(self) -> CommitSequence {
        self.commands[0].commit_sequence()
    }

    /// The place of the last command.
    pub open spec fn last_commit(self) -> CommitSequence {
        self.commands.last().commit_sequence()
    }

    /// The audit sequence in which the first command started.
    pub open spec fn first_administration(self) -> Id64 {
        self.commands[0].base.started.administration_sequence
    }

    /// The audit sequence in which the last command succeeded.
    pub open spec fn last_administration(self) -> Id64 {
        self.commands.last().base.terminal.administration_sequence
    }
}

impl StoredCommandSegmentV1 {
    /// The place of the first command.
    pub fn first_commit_sequence(&self) -> (result: CommitSequence)
        requires
            self@.wf(),
        ensures
            result == self@.first_commit(),
    {
        self.commands[0].commit_sequence()
    }

    /// The place of the last command.
    pub fn last_commit_sequence(&self) -> (result: CommitSequence)
        requires
            self@.wf(),
        ensures
            result == self@.last_commit(),
    {
        self.commands[self.commands.len() - 1].commit_sequence()
    }

    /// The audit sequence in which the first command started.
    pub fn first_administration_sequence(&self) -> (result: Id64)
        requires
            self@.wf(),
        ensures
            result == self@.first_administration(),
    {
        self.commands[0].base.started.administration_sequence
    }

    /// The audit sequence in which the last command succeeded.
    pub fn last_administration_sequence(&self) -> (result: Id64)
        requires
            self@.wf(),
        ensures
            result == self@.last_administration(),
    {
        self.commands[self.commands.len() - 1].base.terminal.administration_sequence
    }

    /// The segment under another digest.
    pub fn with_segment_digest(self, segment_digest: Digest) -> (result: StoredCommandSegmentV1)
        ensures
            result@ == (CommandSegmentView { segment_digest, ..self@ }),
    {
        StoredCommandSegmentV1 { segment_digest, ..self }
    }
}

} // verus!
