//! Exact historical executable-plan identity used at every durable boundary.

use vstd::prelude::*;
use vstd::utf8::encode_utf8;

use crate::ids::{CommandId, ContractVersion, Digest};

verus! {

/// What a plan reference is.
#[verifier::ext_equal]
pub ghost struct ExecutablePlanView {
    pub contract_lineage: Seq<char>,
    pub contract_version: ContractVersion,
    pub contract_bundle_hash: Digest,
    pub command_id: CommandId,
    pub command_plan_hash: Digest,
}

/// The complete immutable identity of one executable command plan.
#[derive(Debug, PartialEq, Eq, PartialOrd, Ord, Hash)]
pub struct ExecutablePlanRef {
    pub contract_lineage: String,
    pub contract_version: ContractVersion,
    pub contract_bundle_hash: Digest,
    pub command_id: CommandId,
    pub command_plan_hash: Digest,
}

impl View for ExecutablePlanRef {
    type V = ExecutablePlanView;

    open spec fn view(&self) -> ExecutablePlanView {
        ExecutablePlanView {
            contract_lineage: self.contract_lineage@,
            contract_version: self.contract_version,
            contract_bundle_hash: self.contract_bundle_hash,
            command_id: self.command_id,
            command_plan_hash: self.command_plan_hash,
        }
    }
}

impl Clone for ExecutablePlanRef {
    fn clone(&self) -> (result: ExecutablePlanRef)
        ensures
            result@ == self@,
    {
        ExecutablePlanRef {
            contract_lineage: self.contract_lineage.clone(),
            contract_version: self.contract_version,
            contract_bundle_hash: self.contract_bundle_hash,
            command_id: self.command_id,
            command_plan_hash: self.command_plan_hash,
        }
    }
}

impl ExecutablePlanRef {
    /// Constructs an exact five-field plan reference.
    pub fn new(
        contract_lineage: String,
        contract_version: ContractVersion,
        contract_bundle_hash: Digest,
        command_id: CommandId,
        command_plan_hash: Digest,
    ) -> (result: Self)
        ensures
            result@ == (ExecutablePlanView {
                contract_lineage: contract_lineage@,
                contract_version,
                contract_bundle_hash,
                command_id,
                command_plan_hash,
            }),
    {
        ExecutablePlanRef {
            contract_lineage,
            contract_version,
            contract_bundle_hash,
            command_id,
            command_plan_hash,
        }
    }

    /// Borrows the exact contract lineage.
    pub fn contract_lineage(&self) -> (result: &str)
        ensures
            result@ == self@.contract_lineage,
    {
        self.contract_lineage.as_str()
    }

    /// Returns the exact application contract version.
    pub fn contract_version(&self) -> (result: ContractVersion)
        ensures
            result == self@.contract_version,
    {
        self.contract_version
    }

    /// Returns the exact immutable bundle hash.
    pub fn contract_bundle_hash(&self) -> (result: Digest)
        ensures
            result == self@.contract_bundle_hash,
    {
        self.contract_bundle_hash
    }

    /// Returns the stable command identity.
    pub fn command_id(&self) -> (result: CommandId)
        ensures
            result == self@.command_id,
    {
        self.command_id
    }

    /// Returns the exact command-plan hash.
    pub fn command_plan_hash(&self) -> (result: Digest)
        ensures
            result == self@.command_plan_hash,
    {
        self.command_plan_hash
    }

    /// The semantic bytes of the reference: a framed lineage, a version, a
    /// command number and two digests, unless their number does not fit.
    pub fn semantic_bytes(&self) -> (result: Option<usize>)
        ensures
            ({
                let total = encode_utf8(self@.contract_lineage).len() + (4 + 8 + 32 + 4 + 32);
                result == if total <= usize::MAX {
                    Some(total as usize)
                } else {
                    None
                }
            }),
    {
        self.contract_lineage.as_str().as_bytes().len().checked_add(4 + 8 + 32 + 4 + 32)
    }
}

} // verus!
