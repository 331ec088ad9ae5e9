//! Columnar projection control records.

use vstd::prelude::*;

use crate::ids::{CommitSequence, Digest, Id32, ProjectionGeneration};

verus! {

/// What a scalar source of a columnar projection is.
#[verifier::ext_equal]
pub ghost struct ColumnarScalarSourceView {
    pub lineage: Seq<char>,
    pub definition_fingerprint: Digest,
}

/// A scalar source of a columnar projection.
#[derive(Debug, PartialEq, Eq)]
pub struct ColumnarScalarSource {
    pub lineage: String,
    pub definition_fingerprint: Digest,
}

impl View for ColumnarScalarSource {
    type V = ColumnarScalarSourceView;

    open spec fn view(&self) -> ColumnarScalarSourceView {
        ColumnarScalarSourceView {
            lineage: self.lineage@,
            definition_fingerprint: self.definition_fingerprint,
        }
    }
}

impl Clone for ColumnarScalarSource {
    fn clone(&self) -> (result: ColumnarScalarSource)
        ensures
            result@ == self@,
    {
        ColumnarScalarSource {
            lineage: self.lineage.clone(),
            definition_fingerprint: self.definition_fingerprint,
        }
    }
}

/// What a vector source of a columnar projection is.
#[verifier::ext_equal]
pub ghost struct VectorProjectionSourceV1View {
    pub lineage: Seq<char>,
    pub entity_type: Id32,
    pub vector_field: Id32,
}

/// A vector source of a columnar projection.
#[derive(Debug, PartialEq, Eq)]
pub struct VectorProjectionSourceV1 {
    pub lineage: String,
    pub entity_type: Id32,
    pub vector_field: Id32,
}

impl View for VectorProjectionSourceV1 {
    type V = VectorProjectionSourceV1View;

    open spec fn view(&self) -> VectorProjectionSourceV1View {
        VectorProjectionSourceV1View {
            lineage: self.lineage@,
            entity_type: self.entity_type,
            vector_field: self.vector_field,
        }
    }
}

impl Clone for VectorProjectionSourceV1 {
    fn clone(&self) -> (result: VectorProjectionSourceV1)
        ensures
            result@ == self@,
    {
        VectorProjectionSourceV1 {
            lineage: self.lineage.clone(),
            entity_type: self.entity_type,
            vector_field: self.vector_field,
        }
    }
}

/// What a source of a columnar projection is.
pub ghost enum ColumnarSourceView {
    Scalar(ColumnarScalarSourceView),
    Vector(VectorProjectionSourceV1View),
}

/// A source of a columnar projection.
#[derive(Debug, PartialEq, Eq)]
pub enum ColumnarProjectionSourceV1 {
    Scalar(ColumnarScalarSource),
    Vector(VectorProjectionSourceV1),
}

impl View for ColumnarProjectionSourceV1 {
    type V = ColumnarSourceView;

    open spec fn view(&self) -> ColumnarSourceView {
        match self {
            ColumnarProjectionSourceV1::Scalar(part) => ColumnarSourceView::Scalar(part@),
            ColumnarProjectionSourceV1::Vector(part) => ColumnarSourceView::Vector(part@),
        }
    }
}

impl Clone for ColumnarProjectionSourceV1 {
    fn clone(&self) -> (result: ColumnarProjectionSourceV1)
        ensures
            result@ == self@,
    {
        match self {
            ColumnarProjectionSourceV1::Scalar(part) =>
                ColumnarProjectionSourceV1::Scalar(part.clone()),
            ColumnarProjectionSourceV1::Vector(part) =>
                ColumnarProjectionSourceV1::Vector(part.clone()),
        }
    }
}

/// How far a columnar generation has come; without a position it stands before the first commit.
#[derive(Clone, Copy, Debug, PartialEq, Eq)]
pub struct ColumnarFrontier {
    pub applied_through: Option<CommitSequence>,
}

/// A generation of a columnar projection.
#[derive(Clone, Copy, Debug, PartialEq, Eq)]
pub struct StoredColumnarProjectionGenerationV1 {
    pub generation: ProjectionGeneration,
    pub layout: u8,
    pub frontier: ColumnarFrontier,
    pub history_incarnation: u64,
    pub artifact_length: Option<u64>,
    pub artifact_checksum: Option<Digest>,
    pub definition_fingerprint: Digest,
    pub spec_hash: Digest,
    pub physical_generation_fingerprint: Option<Digest>,
    pub snapshot_frontier: Option<ColumnarFrontier>,
    pub role: u8,
}

/// A failure of a columnar projection.
#[derive(Clone, Copy, Debug, PartialEq, Eq)]
pub struct StoredColumnarProjectionFailureV1 {
    pub target: u8,
    pub reason: u8,
    pub generation: Option<ProjectionGeneration>,
}

/// What a columnar projection control record is.
#[verifier::ext_equal]
pub ghost struct ColumnarControlView {
    pub source: ColumnarSourceView,
    pub target_definition_fingerprint: Digest,
    pub target_spec_hash: Digest,
    pub highest_generation: ProjectionGeneration,
    pub published: Option<StoredColumnarProjectionGenerationV1>,
    pub candidate: Option<StoredColumnarProjectionGenerationV1>,
    pub predecessor: Option<StoredColumnarProjectionGenerationV1>,
    pub lifecycle: u8,
    pub failure: Option<StoredColumnarProjectionFailureV1>,
    pub replay_age_seconds: u64,
    pub replay_bytes: u64,
    pub replay_backlog: u64,
}

/// A columnar projection control record.
#[derive(Debug, PartialEq, Eq)]
pub struct StoredColumnarProjectionControlV1 {
    pub source: ColumnarProjectionSourceV1,
    pub target_definition_fingerprint: Digest,
    pub target_spec_hash: Digest,
    pub highest_generation: ProjectionGeneration,
    pub published: Option<StoredColumnarProjectionGenerationV1>,
    pub candidate: Option<StoredColumnarProjectionGenerationV1>,
    pub predecessor: Option<StoredColumnarProjectionGenerationV1>,
    pub lifecycle: u8,
    pub failure: Option<StoredColumnarProjectionFailureV1>,
    pub replay_age_seconds: u64,
    pub replay_bytes: u64,
    pub replay_backlog: u64,
}

impl View for StoredColumnarProjectionControlV1 {
    type V = ColumnarControlView;

    open spec fn view(&self) -> ColumnarControlView {
        ColumnarControlView {
            source: self.source@,
            target_definition_fingerprint: self.target_definition_fingerprint,
            target_spec_hash: self.target_spec_hash,
            highest_generation: self.highest_generation,
            published: self.published,
            candidate: self.candidate,
            predecessor: self.predecessor,
            lifecycle: self.lifecycle,
            failure: self.failure,
            replay_age_seconds: self.replay_age_seconds,
            replay_bytes: self.replay_bytes,
            replay_backlog: self.replay_backlog,
        }
    }
}

impl Clone for StoredColumnarProjectionControlV1 {
    fn clone(&self) -> (result: StoredColumnarProjectionControlV1)
        ensures
            result@ == self@,
    {
        StoredColumnarProjectionControlV1 {
            source: self.source.clone(),
            target_definition_fingerprint: self.target_definition_fingerprint,
            target_spec_hash: self.target_spec_hash,
            highest_generation: self.highest_generation,
            published: self.published,
            candidate: self.candidate,
            predecessor: self.predecessor,
            lifecycle: self.lifecycle,
            failure: self.failure,
            replay_age_seconds: self.replay_age_seconds,
            replay_bytes: self.replay_bytes,
            replay_backlog: self.replay_backlog,
        }
    }
}

} // verus!
