//! Canonical values, projection identities and the byte layout of projection keys.
//!
//! What a key holds and in which order is a rule; the purpose and version bytes in front
//! of it are this library's own choice.

use vstd::prelude::*;
use vstd::utf8::encode_utf8;

use crate::bytes::{append_be32, append_be64, append_bytes, be32, be64, copy_bytes, same_bytes};
use crate::ids::{CommitSequence, Digest, ProjectionGeneration};
use crate::limits::MAX_KEY_BYTES;

verus! {

/// Purpose byte of a projection group key, chosen here.
pub const PROJECTION_GROUP_KEY_PURPOSE: u8 = 0x07;

/// Purpose byte of a projection apply-marker key, chosen here.
pub const PROJECTION_APPLY_KEY_PURPOSE: u8 = 0x08;

/// Layout version of projection keys, chosen here.
pub const PROJECTION_KEY_VERSION: u8 = 0x01;

/// The closed kinds of canonical values.
#[derive(Clone, Copy, Debug, PartialEq, Eq, Structural)]
pub enum CanonicalKind {
    Null,
    Bool,
    I64,
    U64,
    Decimal,
    Money,
    String,
    Bytes,
    Timestamp,
    Date,
    Uuid,
    Enum,
    List,
    Record,
    Vector,
}

impl CanonicalKind {
    /// Whether a value of this kind may be a key component.
    pub open spec fn scalar(self) -> bool {
        !(self is Null || self is List || self is Record || self is Vector)
    }

    /// Decides whether a value of this kind may be a key component.
    pub fn is_scalar(self) -> (result: bool)
        ensures
            result == self.scalar(),
    {
        match self {
            CanonicalKind::Null
            | CanonicalKind::List
            | CanonicalKind::Record
            | CanonicalKind::Vector => false,
            _ => true,
        }
    }
}

/// What a canonical value is: its kind and its canonical encoding.
#[verifier::ext_equal]
pub ghost struct CanonicalValueView {
    pub kind: CanonicalKind,
    pub encoded: Seq<u8>,
}

/// One canonical value, held by its kind and its canonical encoding.
#[derive(Debug, PartialEq, Eq)]
pub struct CanonicalValue {
    pub kind: CanonicalKind,
    pub encoded: Vec<u8>,
}

impl View for CanonicalValue {
    type V = CanonicalValueView;

    open spec fn view(&self) -> CanonicalValueView {
        CanonicalValueView { kind: self.kind, encoded: self.encoded@ }
    }
}

impl Clone for CanonicalValue {
    fn clone(&self) -> (result: CanonicalValue)
        ensures
            result@ == self@,
    {
        CanonicalValue { kind: self.kind, encoded: copy_bytes(&self.encoded) }
    }
}

impl CanonicalValue {
    /// Decides equality of two canonical values.
    pub fn same(&self, other: &CanonicalValue) -> (result: bool)
        ensures
            result == (self@ == other@),
    {
        self.kind == other.kind && same_bytes(&self.encoded, &other.encoded)
    }
}

/// The views of a list of canonical values.
pub open spec fn value_views(values: Seq<CanonicalValue>) -> Seq<CanonicalValueView> {
    Seq::new(values.len(), |i: int| values[i]@)
}

/// Copies a list of canonical values.
pub fn copy_values(values: &[CanonicalValue]) -> (result: Vec<CanonicalValue>)
    ensures
        value_views(result@) == value_views(values@),
{
    let mut result: Vec<CanonicalValue> = Vec::new();
    let mut i: usize = 0;
    while i < values.len()
        invariant
            i <= values@.len(),
            result@.len() == i,
            forall|k: int| 0 <= k < i ==> result@[k]@ == values@[k]@,
        decreases values@.len() - i,
    {
        result.push(values[i].clone());
        i += 1;
    }
    assert(value_views(result@) =~= value_views(values@));
    result
}

/// Decides equality of two lists of canonical values.
pub fn same_values(a: &[CanonicalValue], b: &[CanonicalValue]) -> (result: bool)
    ensures
        result == (value_views(a@) == value_views(b@)),
{
    if a.len() != b.len() {
        assert(value_views(a@).len() != value_views(b@).len());
        return false;
    }
    let mut i: usize = 0;
    while i < a.len()
        invariant
            i <= a@.len(),
            a@.len() == b@.len(),
            forall|k: int| 0 <= k < i ==> a@[k]@ == b@[k]@,
        decreases a@.len() - i,
    {
        if !a[i].same(&b[i]) {
            assert(value_views(a@)[i as int] != value_views(b@)[i as int]);
            return false;
        }
        i += 1;
    }
    assert(value_views(a@) =~= value_views(b@));
    true
}

/// What a canonical field is.
#[verifier::ext_equal]
pub ghost struct CanonicalFieldView {
    pub id: u32,
    pub value: CanonicalValueView,
}

/// One numbered field of a canonical record.
#[derive(Debug, PartialEq, Eq)]
pub struct CanonicalField {
    pub id: u32,
    pub value: CanonicalValue,
}

impl View for CanonicalField {
    type V = CanonicalFieldView;

    open spec fn view(&self) -> CanonicalFieldView {
        CanonicalFieldView { id: self.id, value: self.value@ }
    }
}

impl Clone for CanonicalField {
    fn clone(&self) -> (result: CanonicalField)
        ensures
            result@ == self@,
    {
        CanonicalField { id: self.id, value: self.value.clone() }
    }
}

/// What a canonical record is: its fields and its canonical encoding.
#[verifier::ext_equal]
pub ghost struct CanonicalRecordView {
    pub fields: Seq<CanonicalFieldView>,
    pub encoded: Seq<u8>,
}

/// One canonical record, held with its canonical encoding.
#[derive(Debug, PartialEq, Eq)]
pub struct CanonicalRecord {
    pub fields: Vec<CanonicalField>,
    pub encoded: Vec<u8>,
}

/// The views of a list of canonical fields.
pub open spec fn field_views(fields: Seq<CanonicalField>) -> Seq<CanonicalFieldView> {
    Seq::new(fields.len(), |i: int| fields[i]@)
}

impl View for CanonicalRecord {
    type V = CanonicalRecordView;

    open spec fn view(&self) -> CanonicalRecordView {
        CanonicalRecordView { fields: field_views(self.fields@), encoded: self.encoded@ }
    }
}

impl Clone for CanonicalRecord {
    fn clone(&self) -> (result: CanonicalRecord)
        ensures
            result@ == self@,
    {
        let mut fields: Vec<CanonicalField> = Vec::new();
        let mut i: usize = 0;
        while i < self.fields.len()
            invariant
                i <= self.fields@.len(),
                fields@.len() == i,
                forall|k: int| 0 <= k < i ==> fields@[k]@ == self.fields@[k]@,
            decreases self.fields@.len() - i,
        {
            fields.push(self.fields[i].clone());
            i += 1;
        }
        assert(field_views(fields@) =~= field_views(self.fields@));
        CanonicalRecord { fields, encoded: copy_bytes(&self.encoded) }
    }
}

/// What a projection identity is.
#[verifier::ext_equal]
pub ghost struct ProjectionIdentityView {
    pub lineage: Seq<char>,
    pub projection_id: u32,
    pub plan_hash: Digest,
}

impl ProjectionIdentityView {
    /// The canonical bytes: framed lineage, projection number, plan digest.
    pub open spec fn canonical(self) -> Seq<u8> {
        be32(encode_utf8(self.lineage).len() as u32) + encode_utf8(self.lineage) + be32(
            self.projection_id,
        ) + self.plan_hash.bytes@
    }
}

/// The exact lineage, projection number and plan digest of one projection.
#[derive(Debug, PartialEq, Eq)]
pub struct ProjectionIdentity {
    pub lineage: String,
    pub projection_id: u32,
    pub plan_hash: Digest,
}

impl View for ProjectionIdentity {
    type V = ProjectionIdentityView;

    open spec fn view(&self) -> ProjectionIdentityView {
        ProjectionIdentityView {
            lineage: self.lineage@,
            projection_id: self.projection_id,
            plan_hash: self.plan_hash,
        }
    }
}

impl Clone for ProjectionIdentity {
    fn clone(&self) -> (result: ProjectionIdentity)
        ensures
            result@ == self@,
    {
        ProjectionIdentity {
            lineage: self.lineage.clone(),
            projection_id: self.projection_id,
            plan_hash: self.plan_hash,
        }
    }
}

impl ProjectionIdentity {
    /// Names one projection.
    pub fn new(lineage: String, projection_id: u32, plan_hash: Digest) -> (result: Self)
        ensures
            result@ == (ProjectionIdentityView { lineage: lineage@, projection_id, plan_hash }),
    {
        ProjectionIdentity { lineage, projection_id, plan_hash }
    }

    /// Decides equality of two identities.
    pub fn same(&self, other: &ProjectionIdentity) -> (result: bool)
        ensures
            result == (self@ == other@),
    {
        self.lineage == other.lineage && self.projection_id == other.projection_id
            && self.plan_hash.same(&other.plan_hash)
    }

    /// The canonical bytes of the identity.
    pub fn to_canonical_bytes(&self) -> (result: Vec<u8>)
        ensures
            result@ == self@.canonical(),
    {
        let lineage = self.lineage.as_str().as_bytes();
        let mut result: Vec<u8> = Vec::new();
        append_be32(&mut result, lineage.len() as u32);
        append_bytes(&mut result, lineage);
        append_be32(&mut result, self.projection_id);
        append_bytes(&mut result, self.plan_hash.bytes.as_slice());
        assert(result@ =~= self@.canonical());
        result
    }
}

/// What every key of one generation begins with.
pub open spec fn group_key_head(
    identity: ProjectionIdentityView,
    generation: ProjectionGeneration,
) -> Seq<u8> {
    seq![PROJECTION_GROUP_KEY_PURPOSE, PROJECTION_KEY_VERSION] + identity.canonical() + be64(
        generation.value,
    )
}

/// The components one after the other, each behind its length.
pub open spec fn framed_components(components: Seq<CanonicalValueView>) -> Seq<u8>
    decreases components.len(),
{
    if components.len() == 0 {
        Seq::empty()
    } else {
        framed_components(components.drop_last()) + be32(components.last().encoded.len() as u32)
            + components.last().encoded
    }
}

/// The bytes of a group key, or of a leading part of one.
pub open spec fn group_key_bytes(
    identity: ProjectionIdentityView,
    generation: ProjectionGeneration,
    components: Seq<CanonicalValueView>,
) -> Seq<u8> {
    group_key_head(identity, generation) + framed_components(components)
}

/// The components of a leading part frame to a prefix.
pub proof fn leading_components_frame_to_prefix(components: Seq<CanonicalValueView>, count: int)
    requires
        0 <= count <= components.len(),
    ensures
        framed_components(components.take(count)).len() <= framed_components(components).len(),
        framed_components(components).take(
            framed_components(components.take(count)).len() as int,
        ) == framed_components(components.take(count)),
    decreases components.len() - count,
{
    let part = framed_components(components.take(count));
    if count == components.len() {
        assert(components.take(count) =~= components);
        assert(framed_components(components).take(part.len() as int) =~= part);
    } else {
        leading_components_frame_to_prefix(components, count + 1);
        let next = framed_components(components.take(count + 1));
        assert(components.take(count + 1).drop_last() =~= components.take(count));
        assert(next.take(part.len() as int) =~= part);
        assert(framed_components(components).take(part.len() as int) =~= framed_components(
            components,
        ).take(next.len() as int).take(part.len() as int));
    }
}

/// Failures of decoding or building a projection key.
#[derive(Clone, Copy, Debug, PartialEq, Eq, Structural)]
pub enum ProjectionKeyError {
    TooLong,
    TooManyComponents,
    Truncated,
    TrailingBytes,
    TruncatedOrTrailing,
    WrongPurpose,
    UnsupportedVersion,
    InvalidIdentity,
    ZeroProjectionId,
    ZeroGeneration,
    ZeroCommitSequence,
    EmptyGroupKey,
    EmptyComponent,
    NonScalarComponent,
    InvalidCanonicalComponent,
}

/// The parts that a group key is made from.
#[verifier::ext_equal]
pub ghost struct GroupKeyParts {
    pub identity: ProjectionIdentityView,
    pub generation: ProjectionGeneration,
    pub components: Seq<CanonicalValueView>,
}

impl GroupKeyParts {
    /// The bytes that the parts lay out to.
    pub open spec fn bytes(self) -> Seq<u8> {
        group_key_bytes(self.identity, self.generation, self.components)
    }

    /// A complete key has components, all of them nonempty scalars, and is bounded.
    pub open spec fn complete(self) -> bool {
        &&& self.components.len() > 0
        &&& components_allowed(self.components)
        &&& self.bytes().len() <= MAX_KEY_BYTES
    }

    /// The parts with one more component.
    pub open spec fn push(self, component: CanonicalValueView) -> GroupKeyParts {
        GroupKeyParts { components: self.components.push(component), ..self }
    }

    /// The complete key of the parts.
    pub open spec fn key(self) -> ProjectionGroupKeyView {
        ProjectionGroupKeyView {
            identity: self.identity,
            generation: self.generation,
            components: self.components,
            bytes: self.bytes(),
        }
    }
}

/// What a group key is.
#[verifier::ext_equal]
pub ghost struct ProjectionGroupKeyView {
    pub identity: ProjectionIdentityView,
    pub generation: ProjectionGeneration,
    pub components: Seq<CanonicalValueView>,
    pub bytes: Seq<u8>,
}

impl ProjectionGroupKeyView {
    /// The parts of the key.
    pub open spec fn parts(self) -> GroupKeyParts {
        GroupKeyParts {
            identity: self.identity,
            generation: self.generation,
            components: self.components,
        }
    }

    /// The bytes are those of the parts, and the key is complete.
    pub open spec fn wf(self) -> bool {
        self.bytes == self.parts().bytes() && self.parts().complete()
    }
}

/// Every component is a nonempty scalar.
pub open spec fn components_allowed(components: Seq<CanonicalValueView>) -> bool {
    forall|i: int|
        0 <= i < components.len() ==> #[trigger] components[i].kind.scalar()
            && components[i].encoded.len() > 0
}

/// A complete projection group key.
#[derive(Debug, PartialEq, Eq)]
pub struct ProjectionGroupKey {
    pub identity: ProjectionIdentity,
    pub generation: ProjectionGeneration,
    pub components: Vec<CanonicalValue>,
    pub bytes: Vec<u8>,
}

impl View for ProjectionGroupKey {
    type V = ProjectionGroupKeyView;

    open spec fn view(&self) -> ProjectionGroupKeyView {
        ProjectionGroupKeyView {
            identity: self.identity@,
            generation: self.generation,
            components: value_views(self.components@),
            bytes: self.bytes@,
        }
    }
}

impl Clone for ProjectionGroupKey {
    fn clone(&self) -> (result: ProjectionGroupKey)
        ensures
            result@ == self@,
    {
        ProjectionGroupKey {
            identity: self.identity.clone(),
            generation: self.generation,
            components: copy_values(&self.components),
            bytes: copy_bytes(&self.bytes),
        }
    }
}

impl ProjectionGroupKey {
    /// The identity that the key repeats.
    pub fn identity(&self) -> (result: &ProjectionIdentity)
        ensures
            *result == self.identity,
    {
        &self.identity
    }

    /// The generation that the key repeats.
    pub fn generation(&self) -> (result: ProjectionGeneration)
        ensures
            result == self.generation,
    {
        self.generation
    }

    /// The components in declared order.
    pub fn components(&self) -> (result: &[CanonicalValue])
        ensures
            result@ == self.components@,
    {
        self.components.as_slice()
    }

    /// The complete key bytes.
    pub fn as_bytes(&self) -> (result: &[u8])
        ensures
            result@ == self.bytes@,
    {
        self.bytes.as_slice()
    }

    /// Decides equality of two keys.
    pub fn same(&self, other: &ProjectionGroupKey) -> (result: bool)
        ensures
            result == (self@ == other@),
    {
        self.identity.same(&other.identity) && self.generation == other.generation
            && same_values(&self.components, &other.components) && same_bytes(
            &self.bytes,
            &other.bytes,
        )
    }
}

/// Builds a group key component by component.
pub struct ProjectionGroupKeyBuilder {
    pub identity: ProjectionIdentity,
    pub generation: ProjectionGeneration,
    pub components: Vec<CanonicalValue>,
    pub bytes: Vec<u8>,
}

impl View for ProjectionGroupKeyBuilder {
    type V = GroupKeyParts;

    open spec fn view(&self) -> GroupKeyParts {
        GroupKeyParts {
            identity: self.identity@,
            generation: self.generation,
            components: value_views(self.components@),
        }
    }
}

/// Why the first component that cannot follow its predecessors is refused, if
/// there is one.
pub open spec fn first_component_refusal(key: GroupKeyParts) -> Option<ProjectionKeyError>
    decreases key.components.len(),
{
    if key.components.len() == 0 {
        None
    } else {
        let leading = GroupKeyParts { components: key.components.drop_last(), ..key };
        match first_component_refusal(leading) {
            Some(error) => Some(error),
            None => component_refusal(leading, key.components.last()),
        }
    }
}

/// One more component adds only its own refusal.
pub proof fn refusal_of_one_more(key: GroupKeyParts, component: CanonicalValueView)
    ensures
        first_component_refusal(key.push(component)) == match first_component_refusal(key) {
            Some(error) => Some(error),
            None => component_refusal(key, component),
        },
{
    let longer = key.push(component);
    assert(longer.components.drop_last() =~= key.components);
    assert(longer.components.last() == component);
}

/// Components that are all accepted one after the other form a bounded key.
pub proof fn accepted_components_are_bounded(key: GroupKeyParts)
    ensures
        first_component_refusal(key) is None <==> components_allowed(key.components) && (
        key.components.len() > 0 ==> key.bytes().len() <= MAX_KEY_BYTES),
    decreases key.components.len(),
{
    if key.components.len() > 0 {
        let leading = GroupKeyParts { components: key.components.drop_last(), ..key };
        let last = key.components.last();
        accepted_components_are_bounded(leading);
        assert(key.components =~= leading.components.push(last));
        assert(key.bytes().len() == leading.bytes().len() + 4 + last.encoded.len());
        if components_allowed(key.components) {
            assert forall|i: int| 0 <= i < leading.components.len() implies
                #[trigger] leading.components[i].kind.scalar()
                    && leading.components[i].encoded.len()
                > 0 by {
                assert(leading.components[i] == key.components[i]);
            }
            assert(key.components[key.components.len() - 1].kind.scalar());
        }
        if components_allowed(leading.components) && component_refusal(leading, last) is None {
            assert forall|i: int| 0 <= i < key.components.len() implies
                #[trigger] key.components[i].kind.scalar() && key.components[i].encoded.len()
                > 0 by {
                if i < leading.components.len() {
                    assert(leading.components[i].kind.scalar());
                }
            }
        }
    }
}

/// Why a component cannot follow the components so far, if it cannot.
pub open spec fn component_refusal(
    key: GroupKeyParts,
    component: CanonicalValueView,
) -> Option<ProjectionKeyError> {
    if !component.kind.scalar() {
        Some(ProjectionKeyError::NonScalarComponent)
    } else if component.encoded.len() == 0 {
        Some(ProjectionKeyError::EmptyComponent)
    } else if key.bytes().len() + 4 + component.encoded.len() > MAX_KEY_BYTES {
        Some(ProjectionKeyError::TooLong)
    } else {
        None
    }
}

impl ProjectionGroupKeyBuilder {
    /// The held bytes are those of the parts so far.
    pub open spec fn wf(self) -> bool {
        &&& self.bytes@ == self@.bytes()
        &&& components_allowed(self@.components)
        &&& self@.components.len() > 0 ==> self@.bytes().len() <= MAX_KEY_BYTES
    }

    /// Starts a key of one generation of one projection.
    pub fn new(identity: ProjectionIdentity, generation: ProjectionGeneration) -> (result: Self)
        ensures
            result.wf(),
            result@ == (GroupKeyParts {
                identity: identity@,
                generation,
                components: Seq::empty(),
            }),
    {
        let mut bytes: Vec<u8> = Vec::new();
        bytes.push(PROJECTION_GROUP_KEY_PURPOSE);
        bytes.push(PROJECTION_KEY_VERSION);
        append_bytes(&mut bytes, &identity.to_canonical_bytes());
        append_be64(&mut bytes, generation.value);
        let result = ProjectionGroupKeyBuilder {
            identity,
            generation,
            components: Vec::new(),
            bytes,
        };
        assert(result@.components =~= Seq::empty());
        assert(bytes@ =~= result@.bytes());
        result
    }

    /// Adds the next component.
    pub fn push_component(&mut self, value: CanonicalValue) -> (result: Result<
        (),
        ProjectionKeyError,
    >)
        requires
            old(self).wf(),
        ensures
            final(self).wf(),
            match component_refusal(old(self)@, value@) {
                Some(error) => result == Err::<(), _>(error) && *final(self) == *old(self),
                None => result is Ok && final(self)@ == old(self)@.push(value@),
            },
    {
        if !value.kind.is_scalar() {
            return Err(ProjectionKeyError::NonScalarComponent);
        }
        if value.encoded.len() == 0 {
            return Err(ProjectionKeyError::EmptyComponent);
        }
        if value.encoded.len() > MAX_KEY_BYTES || self.bytes.len() > MAX_KEY_BYTES
            || self.bytes.len() + 4 + value.encoded.len() > MAX_KEY_BYTES {
            return Err(ProjectionKeyError::TooLong);
        }
        let ghost view = value@;
        let ghost before = self@.components;
        append_be32(&mut self.bytes, value.encoded.len() as u32);
        append_bytes(&mut self.bytes, &value.encoded);
        self.components.push(value);
        proof {
            assert(self@.components =~= before.push(view));
            assert(self@.components.drop_last() =~= before);
            assert(self.bytes@ =~= self@.bytes());
        }
        Ok(())
    }

    /// Completes the key: a key without components is refused.
    pub fn finish(self) -> (result: Result<ProjectionGroupKey, ProjectionKeyError>)
        requires
            self.wf(),
        ensures
            self@.components.len() == 0 ==> result == Err::<ProjectionGroupKey, _>(
                ProjectionKeyError::EmptyGroupKey,
            ),
            self@.components.len() > 0 ==> result is Ok && result->Ok_0@ == self@.key()
                && result->Ok_0@.wf(),
    {
        if self.components.len() == 0 {
            return Err(ProjectionKeyError::EmptyGroupKey);
        }
        Ok(
            ProjectionGroupKey {
                identity: self.identity,
                generation: self.generation,
                components: self.components,
                bytes: self.bytes,
            },
        )
    }
}

/// The bytes of an apply-marker key.
pub open spec fn apply_key_bytes(
    identity: ProjectionIdentityView,
    generation: ProjectionGeneration,
    sequence: CommitSequence,
) -> Seq<u8> {
    seq![PROJECTION_APPLY_KEY_PURPOSE, PROJECTION_KEY_VERSION] + identity.canonical() + be64(
        generation.value,
    ) + be64(sequence.value)
}

/// What an apply-marker key is.
#[verifier::ext_equal]
pub ghost struct ProjectionApplyKeyView {
    pub identity: ProjectionIdentityView,
    pub generation: ProjectionGeneration,
    pub sequence: CommitSequence,
}

/// The key of the marker for one applied sequence.
#[derive(Clone, Debug, PartialEq, Eq)]
pub struct ProjectionApplyKey {
    pub identity: ProjectionIdentity,
    pub generation: ProjectionGeneration,
    pub sequence: CommitSequence,
    pub bytes: Vec<u8>,
}

impl View for ProjectionApplyKey {
    type V = ProjectionApplyKeyView;

    open spec fn view(&self) -> ProjectionApplyKeyView {
        ProjectionApplyKeyView {
            identity: self.identity@,
            generation: self.generation,
            sequence: self.sequence,
        }
    }
}

impl ProjectionApplyKey {
    /// Builds the marker key of one applied sequence.
    pub fn new(
        identity: ProjectionIdentity,
        generation: ProjectionGeneration,
        sequence: CommitSequence,
    ) -> (result: Self)
        ensures
            result@ == (ProjectionApplyKeyView { identity: identity@, generation, sequence }),
            result.bytes@ == apply_key_bytes(identity@, generation, sequence),
    {
        let mut bytes: Vec<u8> = Vec::new();
        bytes.push(PROJECTION_APPLY_KEY_PURPOSE);
        bytes.push(PROJECTION_KEY_VERSION);
        append_bytes(&mut bytes, &identity.to_canonical_bytes());
        append_be64(&mut bytes, generation.value);
        append_be64(&mut bytes, sequence.value);
        assert(bytes@ =~= apply_key_bytes(identity@, generation, sequence));
        ProjectionApplyKey { identity, generation, sequence, bytes }
    }

    /// The key's bytes.
    pub fn as_bytes(&self) -> (result: &[u8])
        ensures
            result@ == self.bytes@,
    {
        self.bytes.as_slice()
    }
}

} // verus!
