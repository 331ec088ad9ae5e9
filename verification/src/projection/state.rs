//! Projection group rows, apply markers and row updates.

use vstd::prelude::*;

use super::sizes::{fitting, projection_state_semantic_bytes, state_size, validate_projection_bound};
use crate::ids::{CommitSequence, Digest, ProjectionGeneration};
use crate::keys::{
    first_component_refusal, value_views, CanonicalRecord, CanonicalRecordView, CanonicalValue,
    GroupKeyParts, ProjectionApplyKey, ProjectionGroupKey, ProjectionGroupKeyBuilder,
    ProjectionGroupKeyView, ProjectionIdentity, ProjectionKeyError,
};
use crate::limits::MAX_PROJECTION_STATE_SEMANTIC_BYTES;
use crate::projection_schema::{CheckedProjectionSchema, CheckedProjectionSchemaView};
use crate::value_error::StorageValueError;

verus! {

/// Why a row does not keep the stored-state bound, if it does not.
pub open spec fn structure_refusal(
    key: ProjectionGroupKeyView,
    measures: CanonicalRecordView,
) -> Option<StorageValueError> {
    if key.bytes.len() < 2 {
        Some(StorageValueError::InvalidShape)
    } else {
        match fitting(state_size(key, measures)) {
            Err(error) => Some(error),
            Ok(bytes) => if bytes > MAX_PROJECTION_STATE_SEMANTIC_BYTES {
                Some(StorageValueError::LimitExceeded)
            } else {
                None
            },
        }
    }
}

/// A result that carries nothing but a refusal.
pub open spec fn unless_refused(refusal: Option<StorageValueError>) -> Result<
    (),
    StorageValueError,
> {
    match refusal {
        Some(error) => Err(error),
        None => Ok(()),
    }
}

/// Checks the stored-state bound of a row.
pub fn validate_projection_state_structure(
    key: &ProjectionGroupKey,
    measures: &CanonicalRecord,
) -> (result: Result<(), StorageValueError>)
    ensures
        result == unless_refused(structure_refusal(key@, measures@)),
{
    match projection_state_semantic_bytes(key, measures) {
        Ok(bytes) => validate_projection_bound(bytes, MAX_PROJECTION_STATE_SEMANTIC_BYTES),
        Err(error) => Err(error),
    }
}

/// Why key and measures do not fit a schema, if they do not.
pub open spec fn schema_refusal(
    schema: CheckedProjectionSchemaView,
    key: ProjectionGroupKeyView,
    measures: CanonicalRecordView,
) -> Option<StorageValueError> {
    if !schema.admits_complete(key.components) {
        Some(StorageValueError::InvalidShape)
    } else {
        schema.measure_refusal(measures)
    }
}

fn check_schema(
    schema: &CheckedProjectionSchema,
    key: &ProjectionGroupKey,
    measures: &CanonicalRecord,
) -> (result: Result<(), StorageValueError>)
    ensures
        result == unless_refused(schema_refusal(schema@, key@, measures@)),
{
    match schema.validate_group_key(key) {
        Ok(()) => schema.validate_measure_record(measures),
        Err(error) => Err(error),
    }
}

/// What a group row is.
#[verifier::ext_equal]
pub ghost struct ProjectionStateView {
    pub key: ProjectionGroupKeyView,
    pub measures: CanonicalRecordView,
    pub last_changed_sequence: CommitSequence,
}

/// Why a row is refused under a schema, if it is.
pub open spec fn state_refusal(
    schema: CheckedProjectionSchemaView,
    key: ProjectionGroupKeyView,
    measures: CanonicalRecordView,
) -> Option<StorageValueError> {
    match structure_refusal(key, measures) {
        Some(error) => Some(error),
        None => schema_refusal(schema, key, measures),
    }
}

/// Durable state for one projection group row.
#[derive(Debug, PartialEq, Eq)]
pub struct StoredProjectionStateV1 {
    pub key: ProjectionGroupKey,
    pub measures: CanonicalRecord,
    pub last_changed_sequence: CommitSequence,
}

impl View for StoredProjectionStateV1 {
    type V = ProjectionStateView;

    open spec fn view(&self) -> ProjectionStateView {
        ProjectionStateView {
            key: self.key@,
            measures: self.measures@,
            last_changed_sequence: self.last_changed_sequence,
        }
    }
}

impl Clone for StoredProjectionStateV1 {
    fn clone(&self) -> (result: StoredProjectionStateV1)
        ensures
            result@ == self@,
    {
        StoredProjectionStateV1 {
            key: self.key.clone(),
            measures: self.measures.clone(),
            last_changed_sequence: self.last_changed_sequence,
        }
    }
}

impl StoredProjectionStateV1 {
    /// Constructs and schema-validates a complete row post-image.
    pub fn new(
        schema: &CheckedProjectionSchema,
        key: ProjectionGroupKey,
        measures: CanonicalRecord,
        last_changed_sequence: CommitSequence,
    ) -> (result: Result<Self, StorageValueError>)
        ensures
            match state_refusal(schema@, key@, measures@) {
                Some(error) => result == Err::<Self, _>(error),
                None => result is Ok && result->Ok_0@ == (ProjectionStateView {
                    key: key@,
                    measures: measures@,
                    last_changed_sequence,
                }),
            },
    {
        match validate_projection_state_structure(&key, &measures) {
            Ok(()) => {},
            Err(error) => {
                return Err(error);
            },
        }
        match check_schema(schema, &key, &measures) {
            Ok(()) => Ok(StoredProjectionStateV1 { key, measures, last_changed_sequence }),
            Err(error) => Err(error),
        }
    }

    /// Returns the complete canonical group key.
    pub fn key(&self) -> (result: &ProjectionGroupKey)
        ensures
            *result == self.key,
    {
        &self.key
    }

    /// Returns the exact projection identity repeated by the key.
    pub fn identity(&self) -> (result: &ProjectionIdentity)
        ensures
            result@ == self@.key.identity,
    {
        self.key.identity()
    }

    /// Returns the generation repeated by the key.
    pub fn generation(&self) -> (result: ProjectionGeneration)
        ensures
            result == self@.key.generation,
    {
        self.key.generation()
    }

    /// Returns group values in declared order.
    pub fn group_values(&self) -> (result: &[CanonicalValue])
        ensures
            value_views(result@) == self@.key.components,
    {
        self.key.components()
    }

    /// Returns the canonical measure record.
    pub fn measures(&self) -> (result: &CanonicalRecord)
        ensures
            *result == self.measures,
    {
        &self.measures
    }

    /// Returns the sequence that most recently changed this row.
    pub fn last_changed_sequence(&self) -> (result: CommitSequence)
        ensures
            result == self@.last_changed_sequence,
    {
        self.last_changed_sequence
    }
}

/// The storage failure that a key failure stands for.
pub open spec fn key_failure(error: ProjectionKeyError) -> StorageValueError {
    if error is TooLong || error is TooManyComponents {
        StorageValueError::LimitExceeded
    } else {
        StorageValueError::InvalidShape
    }
}

/// Maps a key failure to its storage failure.
pub fn projection_key_storage_error(error: ProjectionKeyError) -> (result: StorageValueError)
    ensures
        result == key_failure(error),
{
    match error {
        ProjectionKeyError::TooLong | ProjectionKeyError::TooManyComponents =>
            StorageValueError::LimitExceeded,
        ProjectionKeyError::Truncated
        | ProjectionKeyError::TrailingBytes
        | ProjectionKeyError::TruncatedOrTrailing
        | ProjectionKeyError::WrongPurpose
        | ProjectionKeyError::UnsupportedVersion
        | ProjectionKeyError::InvalidIdentity
        | ProjectionKeyError::ZeroProjectionId
        | ProjectionKeyError::ZeroGeneration
        | ProjectionKeyError::ZeroCommitSequence
        | ProjectionKeyError::EmptyGroupKey
        | ProjectionKeyError::EmptyComponent
        | ProjectionKeyError::NonScalarComponent
        | ProjectionKeyError::InvalidCanonicalComponent => StorageValueError::InvalidShape,
    }
}

/// Why stored parts do not form a structural row, if they do not.
pub open spec fn stored_parts_refusal(
    key: GroupKeyParts,
    measures: CanonicalRecordView,
) -> Option<StorageValueError> {
    match first_component_refusal(key) {
        Some(error) => Some(key_failure(error)),
        None => if key.components.len() == 0 {
            Some(StorageValueError::InvalidShape)
        } else {
            structure_refusal(key.key(), measures)
        },
    }
}

/// Structurally decoded durable projection group row.
///
/// It has canonical scalar components, a complete bounded key, and keeps the
/// stored-state bound. Arity, component types, measures and plan are unchecked.
#[derive(Clone, PartialEq, Eq)]
pub struct StructurallyDecodedProjectionStateV1 {
    pub key: ProjectionGroupKey,
    pub measures: CanonicalRecord,
    pub last_changed_sequence: CommitSequence,
}

impl View for StructurallyDecodedProjectionStateV1 {
    type V = ProjectionStateView;

    open spec fn view(&self) -> ProjectionStateView {
        ProjectionStateView {
            key: self.key@,
            measures: self.measures@,
            last_changed_sequence: self.last_changed_sequence,
        }
    }
}

impl StructurallyDecodedProjectionStateV1 {
    /// Reconstructs the structural row from the exact durable payload parts.
    pub fn from_stored_parts(
        identity: ProjectionIdentity,
        generation: ProjectionGeneration,
        group_values: Vec<CanonicalValue>,
        measures: CanonicalRecord,
        last_changed_sequence: CommitSequence,
    ) -> (result: Result<Self, StorageValueError>)
        ensures
            ({
                let parts = GroupKeyParts {
                    identity: identity@,
                    generation,
                    components: value_views(group_values@),
                };
                match stored_parts_refusal(parts, measures@) {
                    Some(error) => result == Err::<Self, _>(error),
                    None => result is Ok && result->Ok_0@ == (ProjectionStateView {
                        key: parts.key(),
                        measures: measures@,
                        last_changed_sequence,
                    }) && result->Ok_0@.key.wf(),
                }
            }),
    {
        let ghost parts = GroupKeyParts {
            identity: identity@,
            generation,
            components: value_views(group_values@),
        };
        let mut builder = ProjectionGroupKeyBuilder::new(identity, generation);
        let mut i: usize = 0;
        assert(builder@ == leading_parts(parts, 0)) by {
            assert(parts.components.take(0) =~= Seq::empty());
        }
        #[verifier::loop_isolation(false)]
        while i < group_values.len()
            invariant
                i <= group_values@.len(),
                parts.components == value_views(group_values@),
                builder.wf(),
                builder@ == leading_parts(parts, i as int),
                first_component_refusal(builder@) is None,
            decreases group_values@.len() - i,
        {
            let ghost component = parts.components[i as int];
            proof {
                assert(component == group_values@[i as int]@);
                assert(leading_parts(parts, i as int + 1) == builder@.push(component)) by {
                    assert(parts.components.take(i as int + 1) =~= parts.components.take(
                        i as int,
                    ).push(component));
                }
                crate::keys::refusal_of_one_more(builder@, component);
            }
            match builder.push_component(group_values[i].clone()) {
                Ok(()) => {},
                Err(error) => {
                    proof {
                        leading_refusal_stands(parts, i as int + 1, error);
                    }
                    return Err(projection_key_storage_error(error));
                },
            }
            i += 1;
        }
        assert(parts.components.take(i as int) =~= parts.components);
        assert(builder@ == parts);
        let key = match builder.finish() {
            Ok(key) => key,
            Err(error) => {
                return Err(projection_key_storage_error(error));
            },
        };
        match validate_projection_state_structure(&key, &measures) {
            Ok(()) => Ok(
                StructurallyDecodedProjectionStateV1 { key, measures, last_changed_sequence },
            ),
            Err(error) => Err(error),
        }
    }

    /// Borrows the structurally canonical complete group key.
    pub fn key(&self) -> (result: &ProjectionGroupKey)
        ensures
            *result == self.key,
    {
        &self.key
    }

    /// Returns the exact projection identity repeated by the payload parts.
    pub fn identity(&self) -> (result: &ProjectionIdentity)
        ensures
            result@ == self@.key.identity,
    {
        self.key.identity()
    }

    /// Returns the nonzero generation repeated by the payload parts.
    pub fn generation(&self) -> (result: ProjectionGeneration)
        ensures
            result == self@.key.generation,
    {
        self.key.generation()
    }

    /// Borrows the structurally canonical scalar values in durable order.
    pub fn group_values(&self) -> (result: &[CanonicalValue])
        ensures
            value_views(result@) == self@.key.components,
    {
        self.key.components()
    }

    /// Borrows the canonical measure record without claiming schema validity.
    pub fn measures(&self) -> (result: &CanonicalRecord)
        ensures
            *result == self.measures,
    {
        &self.measures
    }

    /// Returns the nonzero sequence repeated by the payload.
    pub fn last_changed_sequence(&self) -> (result: CommitSequence)
        ensures
            result == self@.last_changed_sequence,
    {
        self.last_changed_sequence
    }

    /// Consumes the structural row and validates it against the exact schema.
    pub fn into_checked(self, schema: &CheckedProjectionSchema) -> (result: Result<
        StoredProjectionStateV1,
        StorageValueError,
    >)
        ensures
            match state_refusal(schema@, self@.key, self@.measures) {
                Some(error) => result == Err::<StoredProjectionStateV1, _>(error),
                None => result is Ok && result->Ok_0@ == self@,
            },
    {
        StoredProjectionStateV1::new(schema, self.key, self.measures, self.last_changed_sequence)
    }
}

/// The key parts with only the first components.
spec fn leading_parts(parts: GroupKeyParts, count: int) -> GroupKeyParts {
    GroupKeyParts { components: parts.components.take(count), ..parts }
}

/// What is refused in a leading part is refused in the whole.
proof fn leading_refusal_stands(parts: GroupKeyParts, count: int, error: ProjectionKeyError)
    requires
        0 <= count <= parts.components.len(),
        first_component_refusal(leading_parts(parts, count)) == Some(error),
    ensures
        first_component_refusal(parts) == Some(error),
    decreases parts.components.len() - count,
{
    if count == parts.components.len() {
        assert(parts.components.take(count) =~= parts.components);
    } else {
        let component = parts.components[count];
        assert(leading_parts(parts, count + 1) == leading_parts(parts, count).push(component)) by {
            assert(parts.components.take(count + 1) =~= parts.components.take(count).push(
                component,
            ));
        }
        crate::keys::refusal_of_one_more(leading_parts(parts, count), component);
        leading_refusal_stands(parts, count + 1, error);
    }
}

/// Durable marker for one applied sequence.
#[derive(Clone, Debug, PartialEq, Eq)]
pub struct StoredProjectionApplyV1 {
    pub key: ProjectionApplyKey,
    pub apply_hash: Digest,
}

impl StoredProjectionApplyV1 {
    /// Constructs a marker whose repeated fields are derived from its key.
    pub fn new(key: ProjectionApplyKey, apply_hash: Digest) -> (result: Self)
        ensures
            result == (StoredProjectionApplyV1 { key, apply_hash }),
    {
        StoredProjectionApplyV1 { key, apply_hash }
    }

    /// Returns the complete marker key.
    pub fn key(&self) -> (result: &ProjectionApplyKey)
        ensures
            *result == self.key,
    {
        &self.key
    }

    /// Returns the exact request hash.
    pub fn canonical_hash(&self) -> (result: Digest)
        ensures
            result == self.apply_hash,
    {
        self.apply_hash
    }
}

/// Optimistic prior evidence for one projection state row.
#[derive(Clone, Copy, Debug, PartialEq, Eq, Structural)]
pub enum ProjectionRowPrior {
    /// The complete key was absent in the apply snapshot.
    Absent,
    /// The row existed with this last-changing sequence.
    Present(CommitSequence),
}

/// What a row update is.
#[verifier::ext_equal]
pub ghost struct ProjectionRowUpdateView {
    pub key: ProjectionGroupKeyView,
    pub prior: ProjectionRowPrior,
    pub measures: CanonicalRecordView,
}

/// One canonical projection row post-image and its prior evidence.
#[derive(Debug, PartialEq, Eq)]
pub struct ProjectionRowUpdateV1 {
    pub key: ProjectionGroupKey,
    pub prior: ProjectionRowPrior,
    pub measures: CanonicalRecord,
}

impl View for ProjectionRowUpdateV1 {
    type V = ProjectionRowUpdateView;

    open spec fn view(&self) -> ProjectionRowUpdateView {
        ProjectionRowUpdateView { key: self.key@, prior: self.prior, measures: self.measures@ }
    }
}

impl Clone for ProjectionRowUpdateV1 {
    fn clone(&self) -> (result: ProjectionRowUpdateV1)
        ensures
            result@ == self@,
    {
        ProjectionRowUpdateV1 {
            key: self.key.clone(),
            prior: self.prior,
            measures: self.measures.clone(),
        }
    }
}

/// The views of row updates.
pub open spec fn row_views(rows: Seq<ProjectionRowUpdateV1>) -> Seq<ProjectionRowUpdateView> {
    Seq::new(rows.len(), |i: int| rows[i]@)
}

impl ProjectionRowUpdateV1 {
    /// Constructs a schema-validated row update.
    pub fn new(
        schema: &CheckedProjectionSchema,
        key: ProjectionGroupKey,
        prior: ProjectionRowPrior,
        measures: CanonicalRecord,
    ) -> (result: Result<Self, StorageValueError>)
        ensures
            match schema_refusal(schema@, key@, measures@) {
                Some(error) => result == Err::<Self, _>(error),
                None => result is Ok && result->Ok_0@ == (ProjectionRowUpdateView {
                    key: key@,
                    prior,
                    measures: measures@,
                }),
            },
    {
        match check_schema(schema, &key, &measures) {
            Ok(()) => Ok(ProjectionRowUpdateV1 { key, prior, measures }),
            Err(error) => Err(error),
        }
    }

    /// Returns the complete group key.
    pub fn key(&self) -> (result: &ProjectionGroupKey)
        ensures
            *result == self.key,
    {
        &self.key
    }

    /// Returns expected prior row evidence.
    pub fn prior(&self) -> (result: ProjectionRowPrior)
        ensures
            result == self@.prior,
    {
        self.prior
    }

    /// Returns the complete measure post-image.
    pub fn measures(&self) -> (result: &CanonicalRecord)
        ensures
            *result == self.measures,
    {
        &self.measures
    }
}

/// A structural row that its schema accepts is the row that the schema's own
/// constructor makes from the same key, and no row enters operation unchecked.
pub proof fn structural_rows_need_their_schema(
    schema: CheckedProjectionSchemaView,
    key: GroupKeyParts,
    measures: CanonicalRecordView,
)
    requires
        stored_parts_refusal(key, measures) is None,
    ensures
        key.key().wf(),
        state_refusal(schema, key.key(), measures) == schema_refusal(schema, key.key(), measures),
        !schema.admits_complete(key.components) ==> state_refusal(schema, key.key(), measures)
            == Some(StorageValueError::InvalidShape),
{
    crate::keys::accepted_components_are_bounded(key);
}

} // verus!
