//! The group and measure schema of one projection.
//!
//! What makes a value of a declared type, a group key of declared components and a row of
//! declared measures is this library's own choice: kind and size bound, one value for each
//! component, and the declared measures in order.

use vstd::prelude::*;

use crate::ids::ProjectionGeneration;
use crate::keys::{
    components_allowed, group_key_bytes, value_views, CanonicalFieldView, CanonicalKind,
    CanonicalRecord, CanonicalRecordView, CanonicalValue, CanonicalValueView, GroupKeyParts,
    ProjectionGroupKey, ProjectionGroupKeyBuilder, ProjectionIdentity, ProjectionIdentityView,
};
use crate::limits::MAX_KEY_BYTES;
use crate::value_error::StorageValueError;

verus! {

/// The declared type of a group component or measure: its kind and its size bound.
#[derive(Clone, Copy, Debug, PartialEq, Eq, Structural)]
pub struct ProjectionValueType {
    pub kind: CanonicalKind,
    pub maximum_encoded_bytes: usize,
}

impl ProjectionValueType {
    /// Whether a value has the declared kind and keeps the size bound.
    pub open spec fn admits(self, value: CanonicalValueView) -> bool {
        value.kind == self.kind && value.encoded.len() <= self.maximum_encoded_bytes
    }

    /// Decides whether a value is of this type.
    pub fn validate_value(self, value: &CanonicalValue) -> (result: bool)
        ensures
            result == self.admits(value@),
    {
        value.kind == self.kind && value.encoded.len() <= self.maximum_encoded_bytes
    }
}

/// One declared measure.
#[derive(Clone, Copy, Debug, PartialEq, Eq, Structural)]
pub struct ProjectionMeasureField {
    pub id: u32,
    pub value_type: ProjectionValueType,
}

impl ProjectionMeasureField {
    /// Whether a record field carries this measure.
    pub open spec fn admits(self, field: CanonicalFieldView) -> bool {
        field.id == self.id && self.value_type.admits(field.value)
    }
}

/// What a projection schema is.
#[verifier::ext_equal]
pub ghost struct CheckedProjectionSchemaView {
    pub identity: ProjectionIdentityView,
    pub group_components: Seq<ProjectionValueType>,
    pub measures: Seq<ProjectionMeasureField>,
    pub maximum_complete_key_bytes: usize,
    pub maximum_stored_state_bytes: usize,
}

impl CheckedProjectionSchemaView {
    /// Whether the values fit the first declared components.
    pub open spec fn admits_leading(self, values: Seq<CanonicalValueView>) -> bool {
        &&& values.len() <= self.group_components.len()
        &&& forall|i: int|
            0 <= i < values.len() ==> self.group_components[i].admits(#[trigger] values[i])
    }

    /// Whether the values fit all declared components.
    pub open spec fn admits_complete(self, values: Seq<CanonicalValueView>) -> bool {
        values.len() == self.group_components.len() && self.admits_leading(values)
    }

    /// Why the record is not a measure record of this schema, if it is not.
    pub open spec fn measure_refusal(self, record: CanonicalRecordView) -> Option<
        StorageValueError,
    > {
        if record.fields.len() != self.measures.len() || exists|i: int|
            0 <= i < record.fields.len() && !self.measures[i].admits(#[trigger] record.fields[i]) {
            Some(StorageValueError::InvalidShape)
        } else if record.encoded.len() > self.maximum_stored_state_bytes {
            Some(StorageValueError::LimitExceeded)
        } else {
            None
        }
    }

    /// Whether the values can lead a key of this schema.
    pub open spec fn admits_prefix(
        self,
        generation: ProjectionGeneration,
        values: Seq<CanonicalValueView>,
    ) -> bool {
        &&& self.admits_leading(values)
        &&& components_allowed(values)
        &&& values.len() > 0 ==> group_key_bytes(self.identity, generation, values).len()
            <= MAX_KEY_BYTES
    }
}

/// The leading bytes that every selected group key begins with.
#[derive(Debug, PartialEq, Eq)]
pub struct ProjectionGroupPrefix {
    pub bytes: Vec<u8>,
}

impl ProjectionGroupPrefix {
    /// The prefix bytes.
    pub fn as_bytes(&self) -> (result: &[u8])
        ensures
            result@ == self.bytes@,
    {
        self.bytes.as_slice()
    }
}

/// The checked group and measure schema of one projection.
#[derive(Debug, PartialEq, Eq)]
pub struct CheckedProjectionSchema {
    pub identity: ProjectionIdentity,
    pub group_components: Vec<ProjectionValueType>,
    pub measures: Vec<ProjectionMeasureField>,
    pub maximum_complete_key_bytes: usize,
    pub maximum_stored_state_bytes: usize,
}

impl View for CheckedProjectionSchema {
    type V = CheckedProjectionSchemaView;

    open spec fn view(&self) -> CheckedProjectionSchemaView {
        CheckedProjectionSchemaView {
            identity: self.identity@,
            group_components: self.group_components@,
            measures: self.measures@,
            maximum_complete_key_bytes: self.maximum_complete_key_bytes,
            maximum_stored_state_bytes: self.maximum_stored_state_bytes,
        }
    }
}

impl Clone for CheckedProjectionSchema {
    fn clone(&self) -> (result: CheckedProjectionSchema)
        ensures
            result@ == self@,
    {
        let mut group_components: Vec<ProjectionValueType> = Vec::new();
        let mut i: usize = 0;
        while i < self.group_components.len()
            invariant
                i <= self.group_components@.len(),
                group_components@ == self.group_components@.take(i as int),
            decreases self.group_components@.len() - i,
        {
            group_components.push(self.group_components[i]);
            i += 1;
            assert(group_components@ =~= self.group_components@.take(i as int));
        }
        let mut measures: Vec<ProjectionMeasureField> = Vec::new();
        let mut j: usize = 0;
        while j < self.measures.len()
            invariant
                j <= self.measures@.len(),
                measures@ == self.measures@.take(j as int),
            decreases self.measures@.len() - j,
        {
            measures.push(self.measures[j]);
            j += 1;
            assert(measures@ =~= self.measures@.take(j as int));
        }
        let result = CheckedProjectionSchema {
            identity: self.identity.clone(),
            group_components,
            measures,
            maximum_complete_key_bytes: self.maximum_complete_key_bytes,
            maximum_stored_state_bytes: self.maximum_stored_state_bytes,
        };
        assert(result@.group_components =~= self@.group_components);
        assert(result@.measures =~= self@.measures);
        result
    }
}

impl CheckedProjectionSchema {
    /// Gathers the declared parts of one projection.
    pub fn new(
        identity: ProjectionIdentity,
        group_components: Vec<ProjectionValueType>,
        measures: Vec<ProjectionMeasureField>,
        maximum_complete_key_bytes: usize,
        maximum_stored_state_bytes: usize,
    ) -> (result: Self)
        ensures
            result@ == (CheckedProjectionSchemaView {
                identity: identity@,
                group_components: group_components@,
                measures: measures@,
                maximum_complete_key_bytes,
                maximum_stored_state_bytes,
            }),
    {
        CheckedProjectionSchema {
            identity,
            group_components,
            measures,
            maximum_complete_key_bytes,
            maximum_stored_state_bytes,
        }
    }

    /// Decides equality of two schemas.
    pub fn same(&self, other: &CheckedProjectionSchema) -> (result: bool)
        ensures
            result == (self@ == other@),
    {
        if !self.identity.same(&other.identity) || self.group_components.len()
            != other.group_components.len() || self.measures.len() != other.measures.len()
            || self.maximum_complete_key_bytes != other.maximum_complete_key_bytes
            || self.maximum_stored_state_bytes != other.maximum_stored_state_bytes {
            return false;
        }
        let mut i: usize = 0;
        while i < self.group_components.len()
            invariant
                i <= self.group_components@.len(),
                self.group_components@.len() == other.group_components@.len(),
                forall|k: int|
                    0 <= k < i ==> self.group_components@[k] == other.group_components@[k],
            decreases self.group_components@.len() - i,
        {
            if self.group_components[i] != other.group_components[i] {
                return false;
            }
            i += 1;
        }
        let mut j: usize = 0;
        while j < self.measures.len()
            invariant
                j <= self.measures@.len(),
                self.measures@.len() == other.measures@.len(),
                forall|k: int| 0 <= k < j ==> self.measures@[k] == other.measures@[k],
            decreases self.measures@.len() - j,
        {
            if self.measures[j] != other.measures[j] {
                return false;
            }
            j += 1;
        }
        assert(self@.group_components =~= other@.group_components);
        assert(self@.measures =~= other@.measures);
        true
    }

    /// The exact lineage, projection number and plan digest.
    pub fn identity(&self) -> (result: &ProjectionIdentity)
        ensures
            *result == self.identity,
    {
        &self.identity
    }

    /// The declared number of group components.
    pub fn group_component_count(&self) -> (result: usize)
        ensures
            result == self@.group_components.len(),
    {
        self.group_components.len()
    }

    /// The declared bound on a complete group key.
    pub fn maximum_complete_key_bytes(&self) -> (result: usize)
        ensures
            result == self@.maximum_complete_key_bytes,
    {
        self.maximum_complete_key_bytes
    }

    /// The declared bound on a stored measure record.
    pub fn maximum_stored_state_bytes(&self) -> (result: usize)
        ensures
            result == self@.maximum_stored_state_bytes,
    {
        self.maximum_stored_state_bytes
    }

    fn admits_leading(&self, values: &[CanonicalValue]) -> (result: bool)
        ensures
            result == self@.admits_leading(value_views(values@)),
    {
        if values.len() > self.group_components.len() {
            return false;
        }
        let mut i: usize = 0;
        while i < values.len()
            invariant
                i <= values@.len() <= self.group_components@.len(),
                forall|k: int|
                    0 <= k < i ==> self@.group_components[k].admits(
                        #[trigger] value_views(values@)[k],
                    ),
            decreases values@.len() - i,
        {
            if !self.group_components[i].validate_value(&values[i]) {
                assert(!self@.group_components[i as int].admits(value_views(values@)[i as int]));
                return false;
            }
            i += 1;
        }
        true
    }

    fn build(&self, generation: ProjectionGeneration, values: &[CanonicalValue]) -> (result: Option<
        ProjectionGroupKeyBuilder,
    >)
        ensures
            result is Some <==> components_allowed(value_views(values@)) && (values@.len() > 0
                ==> group_key_bytes(self@.identity, generation, value_views(values@)).len()
                <= MAX_KEY_BYTES),
            result matches Some(builder) ==> builder.wf() && builder@ == (GroupKeyParts {
                identity: self@.identity,
                generation,
                components: value_views(values@),
            }),
    {
        let mut builder = ProjectionGroupKeyBuilder::new(self.identity.clone(), generation);
        let mut i: usize = 0;
        while i < values.len()
            invariant
                i <= values@.len(),
                builder.wf(),
                builder@ == (GroupKeyParts {
                    identity: self@.identity,
                    generation,
                    components: value_views(values@).take(i as int),
                }),
            decreases values@.len() - i,
        {
            let ghost views = value_views(values@);
            let ghost before = builder@;
            proof {
                crate::keys::leading_components_frame_to_prefix(views, i as int + 1);
                assert(views.take(i as int + 1).drop_last() =~= views.take(i as int));
                assert(views.take(i as int + 1) =~= views.take(i as int).push(views[i as int]));
            }
            match builder.push_component(values[i].clone()) {
                Ok(()) => {},
                Err(_) => {
                    return None;
                },
            }
            i += 1;
            assert(builder@.components =~= views.take(i as int));
        }
        assert(value_views(values@).take(i as int) =~= value_views(values@));
        Some(builder)
    }

    /// Builds a complete key of this schema.
    pub fn group_key(&self, generation: ProjectionGeneration, values: &[CanonicalValue]) -> (result:
        Result<ProjectionGroupKey, StorageValueError>)
        ensures
            result is Ok <==> self@.admits_complete(value_views(values@)) && (
            GroupKeyParts {
                identity: self@.identity,
                generation,
                components: value_views(values@),
            }).complete(),
            result matches Ok(key) ==> key@.wf() && key@ == (GroupKeyParts {
                identity: self@.identity,
                generation,
                components: value_views(values@),
            }).key(),
            result matches Err(error) ==> error == StorageValueError::InvalidShape,
    {
        if values.len() != self.group_components.len() || !self.admits_leading(values) {
            return Err(StorageValueError::InvalidShape);
        }
        match self.build(generation, values) {
            Some(builder) => match builder.finish() {
                Ok(key) => Ok(key),
                Err(_) => Err(StorageValueError::InvalidShape),
            },
            None => Err(StorageValueError::InvalidShape),
        }
    }

    /// Builds the prefix of the keys that begin with zero or more given components.
    pub fn group_prefix(
        &self,
        generation: ProjectionGeneration,
        values: &[CanonicalValue],
    ) -> (result: Result<ProjectionGroupPrefix, StorageValueError>)
        ensures
            result is Ok <==> self@.admits_prefix(generation, value_views(values@)),
            result matches Ok(prefix) ==> prefix.bytes@ == group_key_bytes(
                self@.identity,
                generation,
                value_views(values@),
            ),
            result matches Err(error) ==> error == StorageValueError::InvalidShape,
    {
        if !self.admits_leading(values) {
            return Err(StorageValueError::InvalidShape);
        }
        match self.build(generation, values) {
            Some(builder) => Ok(ProjectionGroupPrefix { bytes: builder.bytes }),
            None => Err(StorageValueError::InvalidShape),
        }
    }

    /// Checks a complete key's components against the declared ones.
    pub fn validate_group_key(&self, key: &ProjectionGroupKey) -> (result: Result<
        (),
        StorageValueError,
    >)
        ensures
            result == if self@.admits_complete(key@.components) {
                Ok::<(), StorageValueError>(())
            } else {
                Err(StorageValueError::InvalidShape)
            },
    {
        if key.components.len() == self.group_components.len() && self.admits_leading(
            &key.components,
        ) {
            Ok(())
        } else {
            Err(StorageValueError::InvalidShape)
        }
    }

    /// Checks a measure record against the declared measures.
    pub fn validate_measure_record(&self, measures: &CanonicalRecord) -> (result: Result<
        (),
        StorageValueError,
    >)
        ensures
            result == match self@.measure_refusal(measures@) {
                None => Ok::<(), StorageValueError>(()),
                Some(error) => Err(error),
            },
    {
        if self.measures.len() != measures.fields.len() {
            return Err(StorageValueError::InvalidShape);
        }
        let mut i: usize = 0;
        while i < self.measures.len()
            invariant
                i <= self.measures@.len(),
                self.measures@.len() == measures.fields@.len(),
                forall|k: int|
                    0 <= k < i ==> self@.measures[k].admits(#[trigger] measures@.fields[k]),
            decreases self.measures@.len() - i,
        {
            let field = &measures.fields[i];
            assert(field@ == measures@.fields[i as int]);
            if self.measures[i].id != field.id || !self.measures[i].value_type.validate_value(
                &field.value,
            ) {
                assert(!self@.measures[i as int].admits(measures@.fields[i as int]));
                return Err(StorageValueError::InvalidShape);
            }
            i += 1;
        }
        if measures.encoded.len() > self.maximum_stored_state_bytes {
            return Err(StorageValueError::LimitExceeded);
        }
        Ok(())
    }
}

/// Every key of the schema begins with the prefix of its leading components.
pub proof fn complete_key_begins_with_its_prefix(
    schema: CheckedProjectionSchemaView,
    generation: ProjectionGeneration,
    components: Seq<CanonicalValueView>,
    count: int,
)
    requires
        schema.admits_complete(components),
        0 <= count <= components.len(),
    ensures
        schema.admits_leading(components.take(count)),
        crate::bytes::has_prefix(
            group_key_bytes(schema.identity, generation, components),
            group_key_bytes(schema.identity, generation, components.take(count)),
        ),
{
    crate::keys::leading_components_frame_to_prefix(components, count);
    let whole = group_key_bytes(schema.identity, generation, components);
    let part = group_key_bytes(schema.identity, generation, components.take(count));
    assert(whole.take(part.len() as int) =~= part);
}

} // verus!
