//! Projection ports, as a backend offers them.

use vstd::prelude::*;

use super::apply::{ProjectionApplyRequestV1, ProjectionApplyResult};
use super::control::{
    ProjectionControlOperation, ProjectionControlResult, StoredProjectionControlV1,
};
use super::query::{ProjectionQueryRequest, ProjectionQueryResult, ProjectionStatus};
use super::snapshot::{ProjectionApplySnapshot, ProjectionApplySnapshotRequest};
use crate::keys::ProjectionIdentity;

verus! {

/// Least-authority worker read port for one apply.
pub trait ProjectionApplySnapshotReader {
    /// Why the backend could not answer.
    type Failure;

    /// Reads control, frontier, and every requested row in one read view.
    fn read_apply_snapshot(&self, request: &ProjectionApplySnapshotRequest) -> Result<
        ProjectionApplySnapshot,
        Self::Failure,
    >;
}

/// One immutable view for a whole batch of applies.
pub trait ProjectionBatchSnapshot: ProjectionApplySnapshotReader {
    /// Complete control captured in the same immutable view as all row reads.
    fn control(&self) -> &StoredProjectionControlV1;
}

/// Worker-only derived projection mutation and control port.
pub trait ProjectionMutationRepository {
    /// Why the backend could not answer.
    type Failure;

    /// Applies rows, exact marker, and frontier in one atomic transaction.
    fn apply_projection(&mut self, request: &ProjectionApplyRequestV1) -> Result<
        ProjectionApplyResult,
        Self::Failure,
    >;

    /// Executes one closed compare-and-set lifecycle transition.
    fn transition_projection_control(&mut self, operation: ProjectionControlOperation) -> Result<
        ProjectionControlResult,
        Self::Failure,
    >;
}

/// Least-authority projection query and status read port.
pub trait ProjectionQueryReader {
    /// Why the backend could not answer.
    type Failure;

    /// Reads lifecycle, selected published rows, frontier, and continuation in one
    /// storage read transaction.
    fn query_projection(&self, request: &ProjectionQueryRequest) -> Result<
        ProjectionQueryResult,
        Self::Failure,
    >;

    /// Reads status and authoritative head in one storage read transaction.
    fn read_projection_status(&self, identity: &ProjectionIdentity) -> Result<
        ProjectionStatus,
        Self::Failure,
    >;
}

} // verus!
