//! Projection rows, apply markers and control records.

use vstd::prelude::*;

use crate::bytes::{copy_bytes, same_bytes};
use crate::codec::envelope::{
    charged, read_message, read_outcome, refusal_of, OutgoingRecord, ReadAttempt,
};
use crate::codec::error::{
    is_corrupt, require, storage_result, value_failure, DurableCodecError, DurableCodecErrorKind,
};
use crate::codec::parts::{
    digest_from_wire, document_carries, document_from_wire, document_to_wire,
    optional_sequence_carries, optional_sequence_from_wire, optional_sequence_to_wire, require_ref,
    text_carries, text_from_wire, text_to_wire,
};
use crate::codec::record_type::RecordType;
use crate::ids::{CommitSequence, Digest, FrontierPosition, ProjectionGeneration};
use crate::keys::{
    value_views, CanonicalRecordView, CanonicalValue, CanonicalValueView, GroupKeyParts,
    ProjectionApplyKey, ProjectionApplyKeyView, ProjectionIdentity, ProjectionIdentityView,
};
use crate::page::EncodedPageItem;
use crate::projection::control::{
    ProjectionControlView, ProjectionFailureCodeV1, ProjectionFailureV1,
    ProjectionGenerationPosition, ProjectionLifecycleV1, PublishedApplyModeV1,
    StoredProjectionControlV1,
};
use crate::projection::state::{
    state_refusal, stored_parts_refusal, ProjectionStateView, StoredProjectionApplyV1,
    StoredProjectionStateV1, StructurallyDecodedProjectionStateV1,
};
use crate::projection_schema::CheckedProjectionSchema;
use crate::wire;

verus! {

/// Whether a message is the form of a projection identity.
pub open spec fn projection_identity_carries(
    message: wire::ProjectionIdentityV1,
    value: ProjectionIdentityView,
) -> bool {
    &&& text_carries(message.contract_lineage, value.lineage)
    &&& message.projection_id == value.projection_id
    &&& message.projection_plan_hash@ == value.plan_hash.bytes@
}

/// A projection identity names a nonzero projection.
pub open spec fn projection_identity_valid(value: ProjectionIdentityView) -> bool {
    value.projection_id != 0
}

/// A message is the form of at most one identity.
pub proof fn projection_identity_form_is_exact(
    message: wire::ProjectionIdentityV1,
    a: ProjectionIdentityView,
    b: ProjectionIdentityView,
)
    requires
        projection_identity_carries(message, a),
        projection_identity_carries(message, b),
    ensures
        a == b,
{
    assert(a.plan_hash.bytes =~= b.plan_hash.bytes);
}

/// The message form of a projection identity.
pub fn projection_identity_to_proto(value: &ProjectionIdentity)
    -> (result: wire::ProjectionIdentityV1)
    ensures
        projection_identity_carries(result, value@),
{
    wire::ProjectionIdentityV1 {
        contract_lineage: text_to_wire(&value.lineage),
        projection_id: value.projection_id,
        projection_plan_hash: copy_bytes(value.plan_hash.bytes.as_slice()),
    }
}

/// Reads a projection identity.
pub fn projection_identity_from_proto(value: &wire::ProjectionIdentityV1) -> (result: Result<
    ProjectionIdentity,
    DurableCodecError,
>)
    ensures
        match result {
            Ok(held) =>
                projection_identity_carries(*value, held@) && projection_identity_valid(held@),
            Err(error) => is_corrupt(error) && forall|other: ProjectionIdentityView| #[trigger]
                projection_identity_carries(*value, other) ==> !projection_identity_valid(other),
        },
{
    let lineage = text_from_wire(&value.contract_lineage)?;
    if value.projection_id == 0 {
        return Err(DurableCodecError::corrupt());
    }
    let plan_hash = digest_from_wire(&value.projection_plan_hash)?;
    Ok(ProjectionIdentity::new(lineage, value.projection_id, plan_hash))
}

/// Whether a message is the form of a frontier.
pub open spec fn projection_frontier_carries(
    message: wire::FrontierPositionV1,
    value: FrontierPosition,
) -> bool {
    match value {
        FrontierPosition::BeforeFirst => message.position == Some(
            wire::FrontierPositionV1Position::BeforeFirst,
        ),
        FrontierPosition::AppliedThrough(sequence) => message.position == Some(
            wire::FrontierPositionV1Position::AppliedThrough(sequence.value),
        ),
    }
}

/// The message form of a frontier.
pub fn projection_frontier_to_proto(value: FrontierPosition) -> (result: wire::FrontierPositionV1)
    ensures
        projection_frontier_carries(result, value),
{
    wire::FrontierPositionV1 {
        position: Some(
            match value {
                FrontierPosition::BeforeFirst => wire::FrontierPositionV1Position::BeforeFirst,
                FrontierPosition::AppliedThrough(sequence) =>
                    wire::FrontierPositionV1Position::AppliedThrough(sequence.get()),
            },
        ),
    }
}

/// Reads a frontier.
pub fn projection_frontier_from_proto(value: wire::FrontierPositionV1) -> (result: Result<
    FrontierPosition,
    DurableCodecError,
>)
    ensures
        match result {
            Ok(held) => projection_frontier_carries(value, held) && held.valid(),
            Err(error) => is_corrupt(error) && forall|other: FrontierPosition| #[trigger]
                projection_frontier_carries(value, other) ==> !other.valid(),
        },
{
    match require(value.position)? {
        wire::FrontierPositionV1Position::BeforeFirst => Ok(FrontierPosition::BeforeFirst),
        wire::FrontierPositionV1Position::AppliedThrough(sequence) => {
            let sequence = require(CommitSequence::new(sequence))?;
            Ok(FrontierPosition::AppliedThrough(sequence))
        },
    }
}

/// Whether a message is the form of a retained generation position.
pub open spec fn generation_position_carries(
    message: wire::ProjectionGenerationPositionV1,
    value: ProjectionGenerationPosition,
) -> bool {
    &&& message.generation == value.generation.value
    &&& (message.frontier matches Some(part) && projection_frontier_carries(part, value.frontier))
}

/// A retained position names a nonzero generation and a valid frontier.
pub open spec fn generation_position_valid(value: ProjectionGenerationPosition) -> bool {
    value.generation.valid() && value.frontier.valid()
}

/// The message form of a retained generation position.
pub fn generation_position_to_proto(value: ProjectionGenerationPosition) -> (result:
    wire::ProjectionGenerationPositionV1)
    ensures
        generation_position_carries(result, value),
{
    wire::ProjectionGenerationPositionV1 {
        generation: value.generation.get(),
        frontier: Some(projection_frontier_to_proto(value.frontier)),
    }
}

/// Reads a retained generation position.
pub fn generation_position_from_proto(
    value: wire::ProjectionGenerationPositionV1,
) -> (result: Result<
    ProjectionGenerationPosition,
    DurableCodecError,
>)
    ensures
        match result {
            Ok(held) => generation_position_carries(value, held) && generation_position_valid(held),
            Err(error) => is_corrupt(error) && forall|other: ProjectionGenerationPosition|
                #[trigger] generation_position_carries(value, other)
                    ==> !generation_position_valid(other),
        },
{
    let generation = require(ProjectionGeneration::new(value.generation))?;
    let frontier = projection_frontier_from_proto(require(value.frontier)?)?;
    Ok(ProjectionGenerationPosition::new(generation, frontier))
}

/// Whether a message is the form of an optional position.
pub open spec fn optional_position_carries(
    message: Option<wire::ProjectionGenerationPositionV1>,
    value: Option<ProjectionGenerationPosition>,
) -> bool {
    match (message, value) {
        (Some(part), Some(held)) => generation_position_carries(part, held),
        (None, None) => true,
        _ => false,
    }
}

/// An optional position is absent or valid.
pub open spec fn optional_position_valid(value: Option<ProjectionGenerationPosition>) -> bool {
    value is Some ==> generation_position_valid(value->Some_0)
}

fn optional_position_to_proto(value: Option<ProjectionGenerationPosition>) -> (result: Option<
    wire::ProjectionGenerationPositionV1,
>)
    ensures
        optional_position_carries(result, value),
{
    match value {
        Some(held) => Some(generation_position_to_proto(held)),
        None => None,
    }
}

fn optional_position_from_proto(value: Option<wire::ProjectionGenerationPositionV1>) -> (result:
    Result<Option<ProjectionGenerationPosition>, DurableCodecError>)
    ensures
        match result {
            Ok(held) => optional_position_carries(value, held) && optional_position_valid(held),
            Err(error) => is_corrupt(error) && forall|other: Option<ProjectionGenerationPosition>|
                #[trigger] optional_position_carries(value, other) ==> !optional_position_valid(
                    other,
                ),
        },
{
    match value {
        Some(part) => match generation_position_from_proto(part) {
            Ok(held) => Ok(Some(held)),
            Err(error) => Err(error),
        },
        None => Ok(None),
    }
}

/// The tag that an integer holds, if it holds one.
fn tag_from_code(value: i32) -> (result: Option<u8>)
    ensures
        result == if 0 <= value <= 255 {
            Some(value as u8)
        } else {
            None
        },
{
    if 0 <= value && value <= 255 {
        Some(value as u8)
    } else {
        None
    }
}

/// Whether a message is the form of a failure.
pub open spec fn projection_failure_carries(
    message: wire::ProjectionFailureV1,
    value: ProjectionFailureV1,
) -> bool {
    &&& message.generation == value.generation.value
    &&& message.code == value.code.tag_of()
    &&& optional_sequence_carries(message.at_sequence, value.at_sequence)
}

/// A failure names a nonzero generation and, where it names one, a nonzero sequence.
pub open spec fn projection_failure_valid(value: ProjectionFailureV1) -> bool {
    &&& value.generation.valid()
    &&& value.at_sequence is Some ==> value.at_sequence->Some_0.valid()
}

/// The message form of a failure.
pub fn projection_failure_to_proto(value: &ProjectionFailureV1)
    -> (result: wire::ProjectionFailureV1)
    ensures
        projection_failure_carries(result, *value),
{
    wire::ProjectionFailureV1 {
        generation: value.generation.get(),
        code: value.code.tag() as i32,
        at_sequence: optional_sequence_to_wire(value.at_sequence),
    }
}

/// Reads a failure.
pub fn projection_failure_from_proto(value: wire::ProjectionFailureV1) -> (result: Result<
    ProjectionFailureV1,
    DurableCodecError,
>)
    ensures
        match result {
            Ok(held) => projection_failure_carries(value, held) && projection_failure_valid(held),
            Err(error) => is_corrupt(error) && forall|other: ProjectionFailureV1| #[trigger]
                projection_failure_carries(value, other) ==> !projection_failure_valid(other),
        },
{
    let generation = require(ProjectionGeneration::new(value.generation))?;
    let tag = require(tag_from_code(value.code))?;
    let code = require(ProjectionFailureCodeV1::from_tag(tag))?;
    let at_sequence = optional_sequence_from_wire(value.at_sequence)?;
    Ok(ProjectionFailureV1::new(generation, code, at_sequence))
}

/// Whether a message is the form of an optional failure.
pub open spec fn optional_failure_carries(
    message: Option<wire::ProjectionFailureV1>,
    value: Option<ProjectionFailureV1>,
) -> bool {
    match (message, value) {
        (Some(part), Some(held)) => projection_failure_carries(part, held),
        (None, None) => true,
        _ => false,
    }
}

/// An optional failure is absent or valid.
pub open spec fn optional_failure_valid(value: Option<ProjectionFailureV1>) -> bool {
    value is Some ==> projection_failure_valid(value->Some_0)
}

fn optional_failure_to_proto(value: &Option<ProjectionFailureV1>) -> (result: Option<
    wire::ProjectionFailureV1,
>)
    ensures
        optional_failure_carries(result, *value),
{
    match value {
        Some(held) => Some(projection_failure_to_proto(held)),
        None => None,
    }
}

fn optional_failure_from_proto(value: Option<wire::ProjectionFailureV1>) -> (result: Result<
    Option<ProjectionFailureV1>,
    DurableCodecError,
>)
    ensures
        match result {
            Ok(held) => optional_failure_carries(value, held) && optional_failure_valid(held),
            Err(error) => is_corrupt(error) && forall|other: Option<ProjectionFailureV1>|
                #[trigger] optional_failure_carries(value, other) ==> !optional_failure_valid(
                    other,
                ),
        },
{
    match value {
        Some(part) => match projection_failure_from_proto(part) {
            Ok(held) => Ok(Some(held)),
            Err(error) => Err(error),
        },
        None => Ok(None),
    }
}

/// Whether a message is the form of an optional apply mode.
pub open spec fn optional_mode_carries(
    message: Option<i32>,
    value: Option<PublishedApplyModeV1>,
) -> bool {
    match (message, value) {
        (Some(code), Some(held)) => code == held.tag_of(),
        (None, None) => true,
        _ => false,
    }
}

fn optional_mode_from_code(value: Option<i32>) -> (result: Result<
    Option<PublishedApplyModeV1>,
    DurableCodecError,
>)
    ensures
        match result {
            Ok(held) => optional_mode_carries(value, held),
            Err(error) => is_corrupt(error) && forall|other: Option<PublishedApplyModeV1>|
                !#[trigger] optional_mode_carries(value, other),
        },
{
    match value {
        Some(code) => {
            let tag = require(tag_from_code(code))?;
            let mode = require(PublishedApplyModeV1::from_tag(tag))?;
            Ok(Some(mode))
        },
        None => Ok(None),
    }
}

/// Whether messages are the forms of canonical values: each decodes, and encodes
/// to the bytes that were read.
pub open spec fn values_carry(
    messages: Seq<wire::CanonicalValueV1>,
    values: Seq<CanonicalValueView>,
) -> bool {
    &&& messages.len() == values.len()
    &&& forall|i: int|
        0 <= i < messages.len() ==> value_carries(#[trigger] messages[i], values[i])
}

/// Whether a message is the form of a canonical value.
pub open spec fn value_carries(message: wire::CanonicalValueV1, value: CanonicalValueView) -> bool {
    message.decoded is Some && message.decoded->Some_0@ == value && value.encoded == message.bytes@
}

/// Messages are the forms of at most one list of values.
pub proof fn values_form_is_exact(
    messages: Seq<wire::CanonicalValueV1>,
    a: Seq<CanonicalValueView>,
    b: Seq<CanonicalValueView>,
)
    requires
        values_carry(messages, a),
        values_carry(messages, b),
    ensures
        a == b,
{
    assert forall|i: int| 0 <= i < a.len() implies a[i] == b[i] by {
        assert(value_carries(messages[i], a[i]) && value_carries(messages[i], b[i]));
    }
    assert(a =~= b);
}

/// The message forms of canonical values.
pub fn values_to_wire(values: &[CanonicalValue]) -> (result: Vec<wire::CanonicalValueV1>)
    ensures
        values_carry(result@, value_views(values@)),
{
    let mut result: Vec<wire::CanonicalValueV1> = Vec::new();
    let mut i: usize = 0;
    while i < values.len()
        invariant
            i <= values@.len(),
            result@.len() == i,
            forall|k: int| 0 <= k < i ==> value_carries(#[trigger] result@[k], values@[k]@),
        decreases values@.len() - i,
    {
        result.push(
            wire::CanonicalValueV1 {
                bytes: copy_bytes(&values[i].encoded),
                decoded: Some(values[i].clone()),
            },
        );
        i += 1;
    }
    result
}

/// Reads canonical values.
pub fn values_from_wire(messages: &[wire::CanonicalValueV1]) -> (result: Result<
    Vec<CanonicalValue>,
    DurableCodecError,
>)
    ensures
        match result {
            Ok(held) => values_carry(messages@, value_views(held@)),
            Err(error) => is_corrupt(error) && forall|other: Seq<CanonicalValueView>|
                !#[trigger] values_carry(messages@, other),
        },
{
    let mut result: Vec<CanonicalValue> = Vec::new();
    let mut i: usize = 0;
    while i < messages.len()
        invariant
            i <= messages@.len(),
            result@.len() == i,
            forall|k: int| 0 <= k < i ==> value_carries(messages@[k], #[trigger] result@[k]@),
        decreases messages@.len() - i,
    {
        let message = &messages[i];
        let canonical = match &message.decoded {
            Some(decoded) => same_bytes(&decoded.encoded, &message.bytes),
            None => false,
        };
        if !canonical {
            assert forall|other: Seq<CanonicalValueView>|
                !#[trigger] values_carry(messages@, other) by {
                assert(!value_carries(messages@[i as int], other[i as int]));
            }
            return Err(DurableCodecError::corrupt());
        }
        match &message.decoded {
            Some(decoded) => {
                result.push(decoded.clone());
            },
            None => return Err(DurableCodecError::corrupt()),
        }
        i += 1;
    }
    Ok(result)
}

/// The parts of a stored projection row before any rule is applied to them.
#[verifier::ext_equal]
pub ghost struct StoredRowParts {
    pub key: GroupKeyParts,
    pub measures: CanonicalRecordView,
    pub last_changed_sequence: CommitSequence,
}

/// The parts of a projection row.
pub open spec fn row_parts(value: ProjectionStateView) -> StoredRowParts {
    StoredRowParts {
        key: value.key.parts(),
        measures: value.measures,
        last_changed_sequence: value.last_changed_sequence,
    }
}

/// Whether a message is the form of the parts of a row.
pub open spec fn row_carries(
    message: wire::StoredProjectionStateV1,
    value: StoredRowParts,
) -> bool {
    &&& (message.identity matches Some(part)
        && projection_identity_carries(part, value.key.identity))
    &&& message.generation == value.key.generation.value
    &&& values_carry(message.canonical_group_values@, value.key.components)
    &&& document_carries(message.canonical_measures, value.measures)
    &&& message.last_changed_sequence == value.last_changed_sequence.value
}

/// The identifiers of a row are nonzero.
pub open spec fn row_valid(value: StoredRowParts) -> bool {
    &&& projection_identity_valid(value.key.identity)
    &&& value.key.generation.valid()
    &&& value.last_changed_sequence.valid()
}

/// A message is the form of the parts of at most one row.
pub proof fn row_form_is_exact(
    message: wire::StoredProjectionStateV1,
    a: StoredRowParts,
    b: StoredRowParts,
)
    requires
        row_carries(message, a),
        row_carries(message, b),
    ensures
        a == b,
{
    projection_identity_form_is_exact(message.identity->Some_0, a.key.identity, b.key.identity);
    values_form_is_exact(message.canonical_group_values@, a.key.components, b.key.components);
    assert(a.key =~= b.key);
    assert(a =~= b);
}

/// The message form of a projection row.
pub fn state_to_proto(value: &StoredProjectionStateV1) -> (result: wire::StoredProjectionStateV1)
    ensures
        row_carries(result, row_parts(value@)),
{
    wire::StoredProjectionStateV1 {
        identity: Some(projection_identity_to_proto(value.identity())),
        generation: value.generation().get(),
        canonical_group_values: values_to_wire(value.group_values()),
        canonical_measures: document_to_wire(value.measures()),
        last_changed_sequence: value.last_changed_sequence().get(),
    }
}

/// Encodes one schema-checked projection group-state row.
pub fn encode_projection_state_v1(value: &StoredProjectionStateV1) -> (result: OutgoingRecord<
    wire::StoredProjectionStateV1,
>)
    ensures
        result.record_type == RecordType::StoredProjectionStateV1,
        row_carries(result.message, row_parts(value@)),
{
    OutgoingRecord {
        record_type: RecordType::StoredProjectionStateV1,
        message: state_to_proto(value),
    }
}

/// Whether a message is the form of some valid parts of a row.
pub open spec fn row_readable(message: wire::StoredProjectionStateV1) -> bool {
    exists|parts: StoredRowParts| #[trigger] row_carries(message, parts) && row_valid(parts)
}

/// The valid parts that a message is the form of.
pub open spec fn row_read(message: wire::StoredProjectionStateV1) -> StoredRowParts {
    choose|parts: StoredRowParts| #[trigger] row_carries(message, parts) && row_valid(parts)
}

/// What the parts of a row come to as a structural row.
pub open spec fn structural_outcome(message: wire::StoredProjectionStateV1) -> Result<
    ProjectionStateView,
    DurableCodecErrorKind,
> {
    if !row_readable(message) {
        Err(DurableCodecErrorKind::CorruptData)
    } else {
        let parts = row_read(message);
        match stored_parts_refusal(parts.key, parts.measures) {
            Some(error) => Err(value_failure(error)),
            None => Ok(
                ProjectionStateView {
                    key: parts.key.key(),
                    measures: parts.measures,
                    last_changed_sequence: parts.last_changed_sequence,
                },
            ),
        }
    }
}

/// Reads a structural row.
pub fn structural_state_from_proto(value: &wire::StoredProjectionStateV1) -> (result: Result<
    StructurallyDecodedProjectionStateV1,
    DurableCodecError,
>)
    ensures
        match structural_outcome(*value) {
            Err(kind) => result == Err::<StructurallyDecodedProjectionStateV1, _>(
                DurableCodecError { kind },
            ),
            Ok(row) => result is Ok && result->Ok_0@ == row && row.key.wf(),
        },
{
    let group_values = values_from_wire(&value.canonical_group_values)?;
    let identity = projection_identity_from_proto(require_ref(&value.identity)?)?;
    let generation = require(ProjectionGeneration::new(value.generation))?;
    let measures = document_from_wire(&value.canonical_measures)?;
    let last_changed_sequence = require(CommitSequence::new(value.last_changed_sequence))?;
    proof {
        let parts = StoredRowParts {
            key: GroupKeyParts {
                identity: identity@,
                generation,
                components: value_views(group_values@),
            },
            measures: measures@,
            last_changed_sequence,
        };
        assert(row_carries(*value, parts) && row_valid(parts));
        row_form_is_exact(*value, parts, row_read(*value));
    }
    storage_result(
        StructurallyDecodedProjectionStateV1::from_stored_parts(
            identity,
            generation,
            group_values,
            measures,
            last_changed_sequence,
        ),
    )
}

/// What reading a row structurally comes to.
pub open spec fn structural_read(attempt: ReadAttempt<wire::StoredProjectionStateV1>) -> Result<
    ProjectionStateView,
    DurableCodecErrorKind,
> {
    match read_outcome(RecordType::StoredProjectionStateV1, attempt) {
        Err(kind) => Err(kind),
        Ok(message) => match structural_outcome(message) {
            Err(kind) => Err(kind),
            Ok(row) => if attempt.encoded_len == 0 {
                Err(DurableCodecErrorKind::CorruptData)
            } else {
                Ok(row)
            },
        },
    }
}

/// Structurally decodes one projection row without claiming schema validity.
pub fn decode_projection_state_structural_v1(
    attempt: ReadAttempt<wire::StoredProjectionStateV1>,
) -> (result: Result<EncodedPageItem<StructurallyDecodedProjectionStateV1>, DurableCodecError>)
    ensures
        match structural_read(attempt) {
            Err(kind) => result == Err::<EncodedPageItem<StructurallyDecodedProjectionStateV1>, _>(
                DurableCodecError { kind },
            ),
            Ok(row) => result is Ok && result->Ok_0.value@ == row && result->Ok_0.charge.bytes
                == attempt.encoded_len,
        },
{
    let encoded_len = attempt.encoded_len;
    let message = read_message(RecordType::StoredProjectionStateV1, attempt)?;
    let row = structural_state_from_proto(&message)?;
    charged(row, encoded_len)
}

/// Decodes and validates one projection row against its exact compiled schema.
pub fn decode_projection_state_v1(
    attempt: ReadAttempt<wire::StoredProjectionStateV1>,
    schema: &CheckedProjectionSchema,
) -> (result: Result<EncodedPageItem<StoredProjectionStateV1>, DurableCodecError>)
    ensures
        match structural_read(attempt) {
            Err(kind) => result == Err::<EncodedPageItem<StoredProjectionStateV1>, _>(
                DurableCodecError { kind },
            ),
            Ok(row) => match state_refusal(schema@, row.key, row.measures) {
                Some(error) => result == Err::<EncodedPageItem<StoredProjectionStateV1>, _>(
                    DurableCodecError { kind: value_failure(error) },
                ),
                None => result is Ok && result->Ok_0.value@ == row && result->Ok_0.charge.bytes
                    == attempt.encoded_len,
            },
        },
{
    let structural = decode_projection_state_structural_v1(attempt)?;
    let charge = structural.charge;
    match structural.value.into_checked(schema) {
        Ok(checked) => Ok(EncodedPageItem::new(checked, charge)),
        Err(error) => Err(DurableCodecError::from_storage_value(error)),
    }
}

/// A row that keeps its schema's rules and is written comes back as it was.
pub proof fn state_round_trip(
    message: wire::StoredProjectionStateV1,
    value: ProjectionStateView,
)
    requires
        row_carries(message, row_parts(value)),
        row_valid(row_parts(value)),
        value.key.wf(),
        stored_parts_refusal(value.key.parts(), value.measures) is None,
    ensures
        structural_outcome(message) == Ok::<ProjectionStateView, DurableCodecErrorKind>(value),
{
    assert(row_readable(message));
    row_form_is_exact(message, row_parts(value), row_read(message));
    assert(value.key.parts().key() =~= value.key);
    assert(structural_outcome(message)->Ok_0 =~= value);
}

/// Whether a message is the form of an apply marker.
pub open spec fn apply_carries(
    message: wire::StoredProjectionApplyV1,
    key: ProjectionApplyKeyView,
    apply_hash: Digest,
) -> bool {
    &&& (message.identity matches Some(part) && projection_identity_carries(part, key.identity))
    &&& message.generation == key.generation.value
    &&& message.commit_sequence == key.sequence.value
    &&& message.projection_apply_hash@ == apply_hash.bytes@
}

/// The identifiers of an apply marker are nonzero.
pub open spec fn apply_valid(key: ProjectionApplyKeyView) -> bool {
    projection_identity_valid(key.identity) && key.generation.valid() && key.sequence.valid()
}

/// Encodes one projection application marker.
pub fn encode_projection_apply_v1(value: &StoredProjectionApplyV1) -> (result: OutgoingRecord<
    wire::StoredProjectionApplyV1,
>)
    ensures
        result.record_type == RecordType::StoredProjectionApplyV1,
        apply_carries(result.message, value.key@, value.apply_hash),
{
    OutgoingRecord {
        record_type: RecordType::StoredProjectionApplyV1,
        message: wire::StoredProjectionApplyV1 {
            identity: Some(projection_identity_to_proto(&value.key.identity)),
            generation: value.key.generation.get(),
            commit_sequence: value.key.sequence.get(),
            projection_apply_hash: copy_bytes(value.apply_hash.bytes.as_slice()),
        },
    }
}

/// Whether a message is the form of some valid apply marker.
pub open spec fn apply_readable(message: wire::StoredProjectionApplyV1) -> bool {
    exists|key: ProjectionApplyKeyView, apply_hash: Digest| #[trigger]
        apply_carries(message, key, apply_hash) && apply_valid(key)
}

fn apply_from_proto(value: &wire::StoredProjectionApplyV1) -> (result: Result<
    StoredProjectionApplyV1,
    DurableCodecError,
>)
    ensures
        match result {
            Ok(held) => apply_carries(*value, held.key@, held.apply_hash) && apply_valid(held.key@)
                && held.key.bytes@ == crate::keys::apply_key_bytes(
                held.key@.identity,
                held.key@.generation,
                held.key@.sequence,
            ),
            Err(error) => is_corrupt(error) && !apply_readable(*value),
        },
{
    let identity = projection_identity_from_proto(require_ref(&value.identity)?)?;
    let generation = require(ProjectionGeneration::new(value.generation))?;
    let sequence = require(CommitSequence::new(value.commit_sequence))?;
    let apply_hash = digest_from_wire(&value.projection_apply_hash)?;
    Ok(
        StoredProjectionApplyV1::new(
            ProjectionApplyKey::new(identity, generation, sequence),
            apply_hash,
        ),
    )
}

/// Decodes one projection application marker.
pub fn decode_projection_apply_v1(attempt: ReadAttempt<wire::StoredProjectionApplyV1>) -> (result:
    Result<EncodedPageItem<StoredProjectionApplyV1>, DurableCodecError>)
    ensures
        match read_outcome(RecordType::StoredProjectionApplyV1, attempt) {
            Err(kind) => result == Err::<EncodedPageItem<StoredProjectionApplyV1>, _>(
                DurableCodecError { kind },
            ),
            Ok(message) => match refusal_of(apply_readable(message), None, attempt.encoded_len) {
                Some(kind) => result == Err::<EncodedPageItem<StoredProjectionApplyV1>, _>(
                    DurableCodecError { kind },
                ),
                None => result is Ok && apply_carries(
                    message,
                    result->Ok_0.value.key@,
                    result->Ok_0.value.apply_hash,
                ) && apply_valid(result->Ok_0.value.key@) && result->Ok_0.value.key.bytes@
                    == crate::keys::apply_key_bytes(
                    result->Ok_0.value.key@.identity,
                    result->Ok_0.value.key@.generation,
                    result->Ok_0.value.key@.sequence,
                ) && result->Ok_0.charge.bytes == attempt.encoded_len,
            },
        },
{
    let encoded_len = attempt.encoded_len;
    let message = read_message(RecordType::StoredProjectionApplyV1, attempt)?;
    let value = apply_from_proto(&message)?;
    charged(value, encoded_len)
}

/// A message is the form of at most one apply marker, so a marker that is written
/// comes back as it was.
pub proof fn apply_marker_round_trip(
    message: wire::StoredProjectionApplyV1,
    written: ProjectionApplyKeyView,
    written_hash: Digest,
    read: ProjectionApplyKeyView,
    read_hash: Digest,
)
    requires
        apply_carries(message, written, written_hash),
        apply_carries(message, read, read_hash),
    ensures
        read == written,
        read_hash == written_hash,
{
    projection_identity_form_is_exact(message.identity->Some_0, written.identity, read.identity);
    assert(written_hash.bytes =~= read_hash.bytes);
    assert(written =~= read);
}

/// Whether a message is the form of a control record.
pub open spec fn projection_control_carries(
    message: wire::StoredProjectionControlV1,
    value: ProjectionControlView,
) -> bool {
    &&& (message.identity matches Some(part) && projection_identity_carries(part, value.identity))
    &&& message.highest_allocated_generation == value.highest_allocated_generation.value
    &&& optional_position_carries(message.published, value.published)
    &&& optional_position_carries(message.candidate, value.candidate)
    &&& optional_mode_carries(message.published_apply_mode, value.published_apply_mode)
    &&& message.lifecycle == value.lifecycle.tag_of()
    &&& optional_failure_carries(message.failure, value.failure)
}

/// The identifiers of a control record are nonzero, and its shape is accepted.
pub open spec fn projection_control_valid(value: ProjectionControlView) -> bool {
    &&& projection_identity_valid(value.identity)
    &&& value.highest_allocated_generation.valid()
    &&& optional_position_valid(value.published)
    &&& optional_position_valid(value.candidate)
    &&& optional_failure_valid(value.failure)
    &&& value.shape_valid()
}

/// A message is the form of at most one control record.
pub proof fn projection_control_form_is_exact(
    message: wire::StoredProjectionControlV1,
    a: ProjectionControlView,
    b: ProjectionControlView,
)
    requires
        projection_control_carries(message, a),
        projection_control_carries(message, b),
    ensures
        a == b,
{
    projection_identity_form_is_exact(message.identity->Some_0, a.identity, b.identity);
    assert(a =~= b);
}

/// Encodes one projection lifecycle and frontier control record.
pub fn encode_projection_control_v1(value: &StoredProjectionControlV1) -> (result: OutgoingRecord<
    wire::StoredProjectionControlV1,
>)
    ensures
        result.record_type == RecordType::StoredProjectionControlV1,
        projection_control_carries(result.message, value@),
{
    let published_apply_mode = match value.published_apply_mode {
        Some(mode) => Some(mode.tag() as i32),
        None => None,
    };
    OutgoingRecord {
        record_type: RecordType::StoredProjectionControlV1,
        message: wire::StoredProjectionControlV1 {
            identity: Some(projection_identity_to_proto(&value.identity)),
            highest_allocated_generation: value.highest_allocated_generation.get(),
            published: optional_position_to_proto(value.published),
            candidate: optional_position_to_proto(value.candidate),
            published_apply_mode,
            lifecycle: value.lifecycle.tag() as i32,
            failure: optional_failure_to_proto(&value.failure),
        },
    }
}

/// Whether a message is the form of some valid control record.
pub open spec fn projection_control_readable(message: wire::StoredProjectionControlV1) -> bool {
    exists|value: ProjectionControlView| #[trigger]
        projection_control_carries(message, value) && projection_control_valid(value)
}

fn projection_control_from_proto(value: &wire::StoredProjectionControlV1) -> (result: Result<
    StoredProjectionControlV1,
    DurableCodecError,
>)
    ensures
        match result {
            Ok(held) =>
                projection_control_carries(*value, held@) && projection_control_valid(held@),
            Err(error) => is_corrupt(error) && !projection_control_readable(*value),
        },
{
    let identity = projection_identity_from_proto(require_ref(&value.identity)?)?;
    let generation = require(ProjectionGeneration::new(value.highest_allocated_generation))?;
    let published = optional_position_from_proto(value.published)?;
    let candidate = optional_position_from_proto(value.candidate)?;
    let published_apply_mode = optional_mode_from_code(value.published_apply_mode)?;
    let tag = require(tag_from_code(value.lifecycle))?;
    let lifecycle = require(ProjectionLifecycleV1::from_tag(tag))?;
    let failure = optional_failure_from_proto(value.failure)?;
    let ghost parts = ProjectionControlView {
        identity: identity@,
        highest_allocated_generation: generation,
        published,
        candidate,
        published_apply_mode,
        lifecycle,
        failure,
    };
    let result = storage_result(
        StoredProjectionControlV1::new(
            identity,
            generation,
            published,
            candidate,
            published_apply_mode,
            lifecycle,
            failure,
        ),
    );
    proof {
        assert(projection_control_carries(*value, parts));
        if result is Err {
            assert forall|other: ProjectionControlView| #[trigger]
                projection_control_carries(*value, other)
                    implies !projection_control_valid(other) by {
                projection_control_form_is_exact(*value, parts, other);
            }
        }
    }
    result
}

/// Decodes one projection lifecycle and frontier control record.
pub fn decode_projection_control_v1(
    attempt: ReadAttempt<wire::StoredProjectionControlV1>,
) -> (result: Result<EncodedPageItem<StoredProjectionControlV1>, DurableCodecError>)
    ensures
        match read_outcome(RecordType::StoredProjectionControlV1, attempt) {
            Err(kind) => result == Err::<EncodedPageItem<StoredProjectionControlV1>, _>(
                DurableCodecError { kind },
            ),
            Ok(message) =>
                match refusal_of(projection_control_readable(message), None, attempt.encoded_len) {
                Some(kind) => result == Err::<EncodedPageItem<StoredProjectionControlV1>, _>(
                    DurableCodecError { kind },
                ),
                None => result is Ok && projection_control_carries(message, result->Ok_0.value@)
                    && projection_control_valid(result->Ok_0.value@) && result->Ok_0.charge.bytes
                    == attempt.encoded_len,
            },
        },
{
    let encoded_len = attempt.encoded_len;
    let message = read_message(RecordType::StoredProjectionControlV1, attempt)?;
    let value = projection_control_from_proto(&message)?;
    charged(value, encoded_len)
}

/// A valid control record that is written comes back as it was.
pub proof fn projection_control_round_trip(
    message: wire::StoredProjectionControlV1,
    value: ProjectionControlView,
    attempt: ReadAttempt<wire::StoredProjectionControlV1>,
    read: Result<EncodedPageItem<StoredProjectionControlV1>, DurableCodecError>,
)
    requires
        projection_control_carries(message, value),
        projection_control_valid(value),
        attempt.typed == Some(message),
        attempt.encoded_len > 0,
        call_ensures(decode_projection_control_v1, (attempt,), read),
    ensures
        read is Ok,
        read->Ok_0.value@ == value,
{
    assert(projection_control_readable(message));
    projection_control_form_is_exact(message, read->Ok_0.value@, value);
}

} // verus!
