//! What transitions leave behind, what version commands need, and where segments stand.

use vstd::prelude::*;

use crate::ids::Id64;
use crate::limits::MAX_INDEX_DELTAS;
use crate::stored::entity_transition::{EntityChainStateV1, EntityTransitionView};
use crate::stored::segment::{
    affected_by, all_leave_versions, capsule_version, segment_version, CompleteCommandView,
    StoredCommandCapsuleV2, StoredCommandSegmentV1,
};

verus! {

/// The version of an entity that is alive.
pub open spec fn live_version(state: EntityChainStateV1) -> Option<Id64> {
    match state {
        EntityChainStateV1::Live { version, .. } => Some(version),
        _ => None,
    }
}

/// Each transition affects its own entity, in order: in the version that the entity goes
/// on in or, where it is deleted, in the version that it was alive in before. Where
/// neither is there, nothing is affected at all.
pub proof fn transitions_affect_their_entities(transitions: Seq<EntityTransitionView>)
    ensures
        all_leave_versions(transitions) <==> forall|i: int|
            0 <= i < transitions.len() ==> live_version((#[trigger] transitions[i]).next_state)
                is Some || (transitions[i].next_state is Deleted && live_version(
                transitions[i].prior_state,
            ) is Some),
        affected_by(transitions).len() == transitions.len(),
        all_leave_versions(transitions) ==> forall|i: int|
            #![trigger affected_by(transitions)[i]]
            0 <= i < transitions.len() ==> affected_by(transitions)[i].target
                == transitions[i].target && Some(affected_by(transitions)[i].entity_version)
                == if transitions[i].next_state is Deleted {
                live_version(transitions[i].prior_state)
            } else {
                live_version(transitions[i].next_state)
            },
{
    if all_leave_versions(transitions) {
        assert forall|i: int| 0 <= i < transitions.len() implies live_version(
            (#[trigger] transitions[i]).next_state,
        ) is Some || (transitions[i].next_state is Deleted && live_version(
            transitions[i].prior_state,
        ) is Some) by {
            assert(crate::stored::segment::left_version(transitions[i]) is Some);
        }
        assert forall|i: int|
            #![trigger affected_by(transitions)[i]]
            0 <= i < transitions.len() implies affected_by(transitions)[i].target
            == transitions[i].target && Some(affected_by(transitions)[i].entity_version)
            == if transitions[i].next_state is Deleted {
            live_version(transitions[i].prior_state)
        } else {
            live_version(transitions[i].next_state)
        } by {
            assert(crate::stored::segment::left_version(transitions[i]) is Some);
        }
    }
}

/// Whether some event of a command has a policy anchor.
pub open spec fn some_anchor(command: CompleteCommandView) -> bool {
    exists|i: int| 0 <= i < command.policy_anchors.len() && command.policy_anchors[i] != None::<
        crate::ids::Digest,
    >
}

/// A command with more index advances than the earlier versions hold needs the last one;
/// any other needs the middle one where an event has a policy anchor, and is content with
/// the first where none has.
pub proof fn commands_need_their_version(command: CompleteCommandView)
    ensures
        capsule_version(command) is V6 <==> command.generations.len() > MAX_INDEX_DELTAS,
        capsule_version(command) is V5 <==> command.generations.len() <= MAX_INDEX_DELTAS
            && some_anchor(command),
        capsule_version(command) is V4 <==> command.generations.len() <= MAX_INDEX_DELTAS
            && !some_anchor(command),
{
    if some_anchor(command) {
        let i = choose|i: int|
            0 <= i < command.policy_anchors.len() && command.policy_anchors[i] != None::<
                crate::ids::Digest,
            >;
        assert(command.policy_anchors[i] is Some);
    }
}

/// A segment has the last version where some command needs it, the middle one where none
/// does but some command needs that, and the first one otherwise.
pub proof fn segments_have_the_version_that_they_need(commands: Seq<CompleteCommandView>)
    ensures
        segment_version(commands) is V6 <==> exists|i: int|
            0 <= i < commands.len() && (#[trigger] commands[i]).generations.len()
                > MAX_INDEX_DELTAS,
        segment_version(commands) is V4 <==> forall|i: int|
            0 <= i < commands.len() ==> (#[trigger] commands[i]).generations.len()
                <= MAX_INDEX_DELTAS && !some_anchor(commands[i]),
    decreases commands.len(),
{
    if commands.len() > 0 {
        let before = commands.drop_last();
        let last = commands.len() - 1;
        segments_have_the_version_that_they_need(before);
        commands_need_their_version(commands[last]);
        assert forall|i: int| 0 <= i < before.len() implies before[i] == #[trigger] commands[i] by {
        }
        if exists|i: int|
            0 <= i < before.len() && (#[trigger] before[i]).generations.len() > MAX_INDEX_DELTAS {
            let i = choose|i: int|
                0 <= i < before.len() && (#[trigger] before[i]).generations.len()
                    > MAX_INDEX_DELTAS;
            assert(commands[i].generations.len() > MAX_INDEX_DELTAS);
        }
        if commands[last].generations.len() > MAX_INDEX_DELTAS {
            assert(segment_version(commands) is V6);
        }
        if exists|i: int|
            0 <= i < commands.len() && (#[trigger] commands[i]).generations.len()
                > MAX_INDEX_DELTAS {
            let i = choose|i: int|
                0 <= i < commands.len() && (#[trigger] commands[i]).generations.len()
                    > MAX_INDEX_DELTAS;
            if i < last {
                assert(before[i].generations.len() > MAX_INDEX_DELTAS);
            }
        }
        if segment_version(commands) is V4 {
            assert(segment_version(before) is V4);
            assert forall|i: int| 0 <= i < commands.len() implies (#[trigger] commands[i])
                .generations.len() <= MAX_INDEX_DELTAS && !some_anchor(commands[i]) by {
                if i < last {
                    assert(before[i].generations.len() <= MAX_INDEX_DELTAS);
                }
            }
        } else if forall|i: int|
            0 <= i < commands.len() ==> (#[trigger] commands[i]).generations.len()
                <= MAX_INDEX_DELTAS && !some_anchor(commands[i]) {
            assert forall|i: int| 0 <= i < before.len() implies (#[trigger] before[i])
                .generations.len() <= MAX_INDEX_DELTAS && !some_anchor(before[i]) by {
                assert(commands[i].generations.len() <= MAX_INDEX_DELTAS);
            }
            assert(commands[last].generations.len() <= MAX_INDEX_DELTAS);
        }
    }
}

/// A segment stands from where its first command is committed to where its last one is,
/// and in the audit from where its first command started to where its last one succeeded.
pub proof fn segments_stand_where_their_commands_do(segment: StoredCommandSegmentV1)
    requires
        segment.commands@.len() > 0,
    ensures
        ({
            let first: StoredCommandCapsuleV2 = segment.commands@[0];
            let last: StoredCommandCapsuleV2 = segment.commands@[segment.commands@.len() - 1];
            &&& segment@.first_commit() == first.base.commit.parts.commit_sequence
            &&& segment@.last_commit() == last.base.commit.parts.commit_sequence
            &&& segment@.first_administration() == first.base.started.administration_sequence
            &&& segment@.last_administration() == last.base.terminal.administration_sequence
        }),
{
}

} // verus!
