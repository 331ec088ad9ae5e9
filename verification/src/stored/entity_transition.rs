//! Entity transitions and changelog rotation.

use vstd::prelude::*;

use crate::codec::parts::Identifier;
use crate::ids::{CommitSequence, Digest, Id64};
use crate::records::{EntityTarget, EntityTargetView};

verus! {

/// The state of an entity in its chain of transitions.
#[derive(Clone, Copy, Debug, PartialEq, Eq)]
pub enum EntityChainStateV1 {
    /// The entity was never written.
    NeverExisted,
    /// The entity exists in this version with this value.
    Live { version: Id64, value_hash: Digest },
    /// The entity was deleted.
    Deleted,
}

/// What a committed entity transition is.
#[verifier::ext_equal]
pub ghost struct EntityTransitionView {
    pub command_sequence: CommitSequence,
    pub mutation_ordinal: u32,
    pub target: EntityTargetView,
    pub prior_state: EntityChainStateV1,
    pub prior_chain_revision: u64,
    pub prior_transition_hash: Option<Digest>,
    pub next_state: EntityChainStateV1,
    pub transition_hash: Digest,
}

/// A committed entity transition.
#[derive(Debug, PartialEq, Eq)]
pub struct CommittedEntityTransitionV1 {
    pub command_sequence: CommitSequence,
    pub mutation_ordinal: u32,
    pub target: EntityTarget,
    pub prior_state: EntityChainStateV1,
    pub prior_chain_revision: u64,
    pub prior_transition_hash: Option<Digest>,
    pub next_state: EntityChainStateV1,
    pub transition_hash: Digest,
}

impl View for CommittedEntityTransitionV1 {
    type V = EntityTransitionView;

    open spec fn view(&self) -> EntityTransitionView {
        EntityTransitionView {
            command_sequence: self.command_sequence,
            mutation_ordinal: self.mutation_ordinal,
            target: self.target@,
            prior_state: self.prior_state,
            prior_chain_revision: self.prior_chain_revision,
            prior_transition_hash: self.prior_transition_hash,
            next_state: self.next_state,
            transition_hash: self.transition_hash,
        }
    }
}

impl Clone for CommittedEntityTransitionV1 {
    fn clone(&self) -> (result: CommittedEntityTransitionV1)
        ensures
            result@ == self@,
    {
        CommittedEntityTransitionV1 {
            command_sequence: self.command_sequence,
            mutation_ordinal: self.mutation_ordinal,
            target: self.target.clone(),
            prior_state: self.prior_state,
            prior_chain_revision: self.prior_chain_revision,
            prior_transition_hash: self.prior_transition_hash,
            next_state: self.next_state,
            transition_hash: self.transition_hash,
        }
    }
}

/// What an authoritative entity-chain head is.
#[verifier::ext_equal]
pub ghost struct EntityChainHeadView {
    pub target: EntityTargetView,
    pub chain_revision: u64,
    pub state: EntityChainStateV1,
    pub last_command_sequence: CommitSequence,
    pub last_transition_hash: Digest,
}

/// An authoritative entity-chain head.
#[derive(Debug, PartialEq, Eq)]
pub struct EntityChainHeadV1 {
    pub target: EntityTarget,
    pub chain_revision: u64,
    pub state: EntityChainStateV1,
    pub last_command_sequence: CommitSequence,
    pub last_transition_hash: Digest,
}

impl View for EntityChainHeadV1 {
    type V = EntityChainHeadView;

    open spec fn view(&self) -> EntityChainHeadView {
        EntityChainHeadView {
            target: self.target@,
            chain_revision: self.chain_revision,
            state: self.state,
            last_command_sequence: self.last_command_sequence,
            last_transition_hash: self.last_transition_hash,
        }
    }
}

impl Clone for EntityChainHeadV1 {
    fn clone(&self) -> (result: EntityChainHeadV1)
        ensures
            result@ == self@,
    {
        EntityChainHeadV1 {
            target: self.target.clone(),
            chain_revision: self.chain_revision,
            state: self.state,
            last_command_sequence: self.last_command_sequence,
            last_transition_hash: self.last_transition_hash,
        }
    }
}

/// The receipt of the rotation to the second changelog form.
#[derive(Clone, Copy, Debug, PartialEq, Eq)]
pub struct ChangelogV2RotationReceipt {
    pub database_id: Identifier,
    pub history_incarnation: u64,
    pub predecessor_application: Option<CommitSequence>,
    pub predecessor_administration: Option<Id64>,
    pub v1_terminal_hash: Digest,
    pub v2_chain_anchor: Digest,
    pub receipt_hash: Digest,
}

/// What a list of such values is.
pub open spec fn transition_views(
    values: Seq<CommittedEntityTransitionV1>,
) -> Seq<EntityTransitionView> {
    Seq::new(values.len(), |i: int| values[i]@)
}

/// Copies a list of such values.
pub fn copy_transition_list(
    values: &[CommittedEntityTransitionV1],
) -> (result: Vec<CommittedEntityTransitionV1>)
    ensures
        transition_views(result@) == transition_views(values@),
{
    let mut result: Vec<CommittedEntityTransitionV1> = Vec::new();
    let mut i: usize = 0;
    while i < values.len()
        invariant
            i <= values@.len(),
            result@.len() == i,
            forall|k: int| 0 <= k < i ==> result@[k]@ == values@[k]@,
        decreases values@.len() - i,
    {
        result.push(values[i].clone());
        i += 1;
    }
    assert(transition_views(result@) =~= transition_views(values@));
    result
}

} // verus!
