//! Columnar projection control records as durable messages.

use vstd::prelude::*;

use crate::bytes::copy_bytes;
use crate::codec::envelope::{
    admitted_item, read_message, read_outcome, refusal_of, OutgoingRecord, ReadAttempt,
};
use crate::codec::error::{is_corrupt, require, DurableCodecError};
use crate::codec::parts::{
    digest_from_wire, optional_digest_carries, optional_digest_from_wire, optional_digest_to_wire,
    optional_generation_carries, optional_generation_from_wire, optional_generation_to_wire,
    optional_sequence_carries, optional_sequence_from_wire, optional_sequence_to_wire, require_ref,
    tag_carries, tag_from_wire, tag_to_wire, text_carries, text_from_wire, text_to_wire,
};
use crate::codec::record_type::RecordType;
use crate::ids::{Id32, ProjectionGeneration};
use crate::page::EncodedPageItem;
use crate::stored::columnar_control::{
    ColumnarControlView, ColumnarFrontier, ColumnarProjectionSourceV1, ColumnarScalarSource,
    ColumnarScalarSourceView, ColumnarSourceView, StoredColumnarProjectionControlV1,
    StoredColumnarProjectionFailureV1, StoredColumnarProjectionGenerationV1,
    VectorProjectionSourceV1, VectorProjectionSourceV1View,
};
use crate::wire;

verus! {

/// Whether a message is the form of a scalar source of a columnar projection.
pub open spec fn scalar_source_carries(
    message: wire::StoredColumnarScalarSourceV1,
    value: ColumnarScalarSourceView,
) -> bool {
    &&& text_carries(message.contract_lineage, value.lineage)
    &&& message.definition_fingerprint@ == value.definition_fingerprint.bytes@
}

/// A message is the form of at most one value.
pub proof fn scalar_source_form_is_exact(
    message: wire::StoredColumnarScalarSourceV1,
    a: ColumnarScalarSourceView,
    b: ColumnarScalarSourceView,
)
    requires
        scalar_source_carries(message, a),
        scalar_source_carries(message, b),
    ensures
        a == b,
{
    assert(a.definition_fingerprint.bytes =~= b.definition_fingerprint.bytes);
}

/// The message form of a scalar source of a columnar projection.
pub fn scalar_source_to_proto(
    value: &ColumnarScalarSource,
) -> (result: wire::StoredColumnarScalarSourceV1)
    ensures
        scalar_source_carries(result, value@),
{
    wire::StoredColumnarScalarSourceV1 {
        contract_lineage: text_to_wire(&value.lineage),
        definition_fingerprint: copy_bytes(value.definition_fingerprint.bytes.as_slice()),
    }
}

/// Reads a scalar source of a columnar projection.
pub fn scalar_source_from_proto(value: &wire::StoredColumnarScalarSourceV1) -> (result: Result<
    ColumnarScalarSource,
    DurableCodecError,
>)
    ensures
        match result {
            Ok(held) => scalar_source_carries(*value, held@),
            Err(error) => is_corrupt(error) && forall|other: ColumnarScalarSourceView|
                !#[trigger] scalar_source_carries(*value, other),
        },
{
    let lineage = text_from_wire(&value.contract_lineage)?;
    let definition_fingerprint = digest_from_wire(&value.definition_fingerprint)?;
    Ok(ColumnarScalarSource { lineage, definition_fingerprint })
}

/// Whether a message is the form of a vector source of a columnar projection.
pub open spec fn vector_source_carries(
    message: wire::StoredColumnarVectorSourceV1,
    value: VectorProjectionSourceV1View,
) -> bool {
    &&& text_carries(message.contract_lineage, value.lineage)
    &&& message.entity_type_id == value.entity_type.value
    &&& message.vector_field_id == value.vector_field.value
}

/// The parts of a vector source of a columnar projection are valid.
pub open spec fn vector_source_valid(value: VectorProjectionSourceV1View) -> bool {
    &&& value.entity_type.valid()
    &&& value.vector_field.valid()
}

/// A message is the form of at most one value.
pub proof fn vector_source_form_is_exact(
    message: wire::StoredColumnarVectorSourceV1,
    a: VectorProjectionSourceV1View,
    b: VectorProjectionSourceV1View,
)
    requires
        vector_source_carries(message, a),
        vector_source_carries(message, b),
    ensures
        a == b,
{
}

/// The message form of a vector source of a columnar projection.
pub fn vector_source_to_proto(
    value: &VectorProjectionSourceV1,
) -> (result: wire::StoredColumnarVectorSourceV1)
    ensures
        vector_source_carries(result, value@),
{
    wire::StoredColumnarVectorSourceV1 {
        contract_lineage: text_to_wire(&value.lineage),
        entity_type_id: value.entity_type.get(),
        vector_field_id: value.vector_field.get(),
    }
}

/// Reads a vector source of a columnar projection.
pub fn vector_source_from_proto(value: &wire::StoredColumnarVectorSourceV1) -> (result: Result<
    VectorProjectionSourceV1,
    DurableCodecError,
>)
    ensures
        match result {
            Ok(held) => vector_source_carries(*value, held@) && vector_source_valid(held@),
            Err(error) =>
                is_corrupt(error) && forall|other: VectorProjectionSourceV1View| #[trigger]
                vector_source_carries(*value, other) ==> !vector_source_valid(other),
        },
{
    let lineage = text_from_wire(&value.contract_lineage)?;
    let entity_type = require(Id32::new(value.entity_type_id))?;
    let vector_field = require(Id32::new(value.vector_field_id))?;
    Ok(VectorProjectionSourceV1 { lineage, entity_type, vector_field })
}

/// Whether a message is the form of a source of a columnar projection.
pub open spec fn columnar_source_carries(
    message: wire::StoredColumnarProjectionSourceV1,
    value: ColumnarSourceView,
) -> bool {
    match value {
        ColumnarSourceView::Scalar(part) => message.source matches Some(
            wire::StoredColumnarProjectionSourceV1Source::Scalar(form),
        ) && scalar_source_carries(form, part),
        ColumnarSourceView::Vector(part) => message.source matches Some(
            wire::StoredColumnarProjectionSourceV1Source::Vector(form),
        ) && vector_source_carries(form, part),
    }
}

/// The parts of a source of a columnar projection are valid.
pub open spec fn columnar_source_valid(value: ColumnarSourceView) -> bool {
    match value {
        ColumnarSourceView::Scalar(part) => true,
        ColumnarSourceView::Vector(part) => vector_source_valid(part),
    }
}

/// A message is the form of at most one value.
pub proof fn columnar_source_form_is_exact(
    message: wire::StoredColumnarProjectionSourceV1,
    a: ColumnarSourceView,
    b: ColumnarSourceView,
)
    requires
        columnar_source_carries(message, a),
        columnar_source_carries(message, b),
    ensures
        a == b,
{
    match (a, b) {
        (ColumnarSourceView::Scalar(part), ColumnarSourceView::Scalar(other)) => {
            if let Some(
                wire::StoredColumnarProjectionSourceV1Source::Scalar(form),
            ) = message.source {
                scalar_source_form_is_exact(form, part, other);
            }
        },
        (ColumnarSourceView::Vector(part), ColumnarSourceView::Vector(other)) => {
            if let Some(
                wire::StoredColumnarProjectionSourceV1Source::Vector(form),
            ) = message.source {
                vector_source_form_is_exact(form, part, other);
            }
        },
        _ => {},
    }
}

/// The message form of a source of a columnar projection.
pub fn columnar_source_to_proto(
    value: &ColumnarProjectionSourceV1,
) -> (result: wire::StoredColumnarProjectionSourceV1)
    ensures
        columnar_source_carries(result, value@),
{
    let form = match value {
        ColumnarProjectionSourceV1::Scalar(part) =>
            wire::StoredColumnarProjectionSourceV1Source::Scalar(
            scalar_source_to_proto(part),
        ),
        ColumnarProjectionSourceV1::Vector(part) =>
            wire::StoredColumnarProjectionSourceV1Source::Vector(
            vector_source_to_proto(part),
        ),
    };
    wire::StoredColumnarProjectionSourceV1 { source: Some(form) }
}

/// Reads a source of a columnar projection.
pub fn columnar_source_from_proto(
    value: &wire::StoredColumnarProjectionSourceV1,
) -> (result: Result<
    ColumnarProjectionSourceV1,
    DurableCodecError,
>)
    ensures
        match result {
            Ok(held) => columnar_source_carries(*value, held@) && columnar_source_valid(held@),
            Err(error) => is_corrupt(error) && forall|other: ColumnarSourceView| #[trigger]
                columnar_source_carries(*value, other) ==> !columnar_source_valid(other),
        },
{
    match require_ref(&value.source)? {
        wire::StoredColumnarProjectionSourceV1Source::Scalar(form) => {
            let part = scalar_source_from_proto(form)?;
            Ok(ColumnarProjectionSourceV1::Scalar(part))
        },
        wire::StoredColumnarProjectionSourceV1Source::Vector(form) => {
            let part = vector_source_from_proto(form)?;
            Ok(ColumnarProjectionSourceV1::Vector(part))
        },
    }
}

/// Whether a message is the form of how far a columnar generation has come.
pub open spec fn columnar_frontier_carries(
    message: wire::StoredColumnarProjectionFrontierV1,
    value: ColumnarFrontier,
) -> bool {
    &&& optional_sequence_carries(message.applied_through, value.applied_through)
}

/// The parts of how far a columnar generation has come are valid.
pub open spec fn columnar_frontier_valid(value: ColumnarFrontier) -> bool {
    &&& (value.applied_through matches Some(part) ==> part.valid())
}

/// A message is the form of at most one value.
pub proof fn columnar_frontier_form_is_exact(
    message: wire::StoredColumnarProjectionFrontierV1,
    a: ColumnarFrontier,
    b: ColumnarFrontier,
)
    requires
        columnar_frontier_carries(message, a),
        columnar_frontier_carries(message, b),
    ensures
        a == b,
{
}

/// The message form of how far a columnar generation has come.
pub fn columnar_frontier_to_proto(
    value: ColumnarFrontier,
) -> (result: wire::StoredColumnarProjectionFrontierV1)
    ensures
        columnar_frontier_carries(result, value),
{
    wire::StoredColumnarProjectionFrontierV1 {
        applied_through: optional_sequence_to_wire(value.applied_through),
    }
}

/// Reads how far a columnar generation has come.
pub fn columnar_frontier_from_proto(
    value: &wire::StoredColumnarProjectionFrontierV1,
) -> (result: Result<
    ColumnarFrontier,
    DurableCodecError,
>)
    ensures
        match result {
            Ok(held) => columnar_frontier_carries(*value, held) && columnar_frontier_valid(held),
            Err(error) => is_corrupt(error) && forall|other: ColumnarFrontier| #[trigger]
                columnar_frontier_carries(*value, other) ==> !columnar_frontier_valid(other),
        },
{
    let applied_through = optional_sequence_from_wire(value.applied_through)?;
    Ok(ColumnarFrontier { applied_through })
}

/// Whether an optional message is the form of an optional value.
pub open spec fn optional_columnar_frontier_carries(
    message: Option<wire::StoredColumnarProjectionFrontierV1>,
    value: Option<ColumnarFrontier>,
) -> bool {
    match (message, value) {
        (Some(form), Some(part)) => columnar_frontier_carries(form, part),
        (None, None) => true,
        _ => false,
    }
}

/// The optional message form of an optional value.
pub fn optional_columnar_frontier_to_proto(value: &Option<ColumnarFrontier>) -> (result: Option<
    wire::StoredColumnarProjectionFrontierV1,
>)
    ensures
        optional_columnar_frontier_carries(result, *value),
{
    match value {
        Some(part) => Some(columnar_frontier_to_proto(*part)),
        None => None,
    }
}

/// Reads an optional value from its optional message form.
pub fn optional_columnar_frontier_from_proto(
    value: &Option<wire::StoredColumnarProjectionFrontierV1>,
) -> (result: Result<
    Option<ColumnarFrontier>,
    DurableCodecError,
>)
    ensures
        match result {
            Ok(held) => optional_columnar_frontier_carries(*value, held) && (held matches Some(part)
                ==> columnar_frontier_valid(part)),
            Err(error) => is_corrupt(error) && forall|other: Option<ColumnarFrontier>| #[trigger]
                optional_columnar_frontier_carries(*value, other)
                    ==> !(other matches Some(part) ==> columnar_frontier_valid(
                    part,
                )),
        },
{
    match value {
        Some(form) => {
            let part = columnar_frontier_from_proto(form)?;
            Ok(Some(part))
        },
        None => Ok(None),
    }
}

/// Whether a message is the form of a generation of a columnar projection.
pub open spec fn columnar_generation_carries(
    message: wire::StoredColumnarProjectionGenerationV1,
    value: StoredColumnarProjectionGenerationV1,
) -> bool {
    &&& message.generation == value.generation.value
    &&& tag_carries(message.layout, value.layout)
    &&& (message.frontier matches Some(part) && columnar_frontier_carries(part, value.frontier))
    &&& message.history_incarnation == value.history_incarnation
    &&& message.artifact_length == value.artifact_length
    &&& optional_digest_carries(message.checksum_bytes, value.artifact_checksum)
    &&& message.definition_fingerprint@ == value.definition_fingerprint.bytes@
    &&& message.spec_hash@ == value.spec_hash.bytes@
    &&& optional_digest_carries(
        message.physical_generation_fingerprint,
        value.physical_generation_fingerprint,
    )
    &&& optional_columnar_frontier_carries(message.snapshot_frontier, value.snapshot_frontier)
    &&& tag_carries(message.role, value.role)
    &&& message.admitted
}

/// The parts of a generation of a columnar projection are valid.
pub open spec fn columnar_generation_valid(value: StoredColumnarProjectionGenerationV1) -> bool {
    &&& value.generation.valid()
    &&& columnar_frontier_valid(value.frontier)
    &&& (value.snapshot_frontier matches Some(part) ==> columnar_frontier_valid(part))
    &&& (value.artifact_length is Some <==> value.artifact_checksum is Some)
}

/// A message is the form of at most one value.
pub proof fn columnar_generation_form_is_exact(
    message: wire::StoredColumnarProjectionGenerationV1,
    a: StoredColumnarProjectionGenerationV1,
    b: StoredColumnarProjectionGenerationV1,
)
    requires
        columnar_generation_carries(message, a),
        columnar_generation_carries(message, b),
    ensures
        a == b,
{
    columnar_frontier_form_is_exact(message.frontier->Some_0, a.frontier, b.frontier);
    if a.artifact_checksum is Some {
        assert(a.artifact_checksum->Some_0.bytes =~= b.artifact_checksum->Some_0.bytes);
    }
    assert(a.definition_fingerprint.bytes =~= b.definition_fingerprint.bytes);
    assert(a.spec_hash.bytes =~= b.spec_hash.bytes);
    if a.physical_generation_fingerprint is Some {
        assert(a.physical_generation_fingerprint->Some_0.bytes
            =~= b.physical_generation_fingerprint->Some_0.bytes);
    }
    if a.snapshot_frontier is Some {
        columnar_frontier_form_is_exact(
            message.snapshot_frontier->Some_0,
            a.snapshot_frontier->Some_0,
            b.snapshot_frontier->Some_0,
        );
    }
}

/// The message form of a generation of a columnar projection.
pub fn columnar_generation_to_proto(
    value: StoredColumnarProjectionGenerationV1,
) -> (result: wire::StoredColumnarProjectionGenerationV1)
    ensures
        columnar_generation_carries(result, value),
{
    wire::StoredColumnarProjectionGenerationV1 {
        generation: value.generation.get(),
        layout: tag_to_wire(value.layout),
        frontier: Some(columnar_frontier_to_proto(value.frontier)),
        history_incarnation: value.history_incarnation,
        artifact_length: value.artifact_length,
        checksum_bytes: optional_digest_to_wire(value.artifact_checksum),
        definition_fingerprint: copy_bytes(value.definition_fingerprint.bytes.as_slice()),
        spec_hash: copy_bytes(value.spec_hash.bytes.as_slice()),
        physical_generation_fingerprint: optional_digest_to_wire(
            value.physical_generation_fingerprint,
        ),
        snapshot_frontier: optional_columnar_frontier_to_proto(&value.snapshot_frontier),
        role: tag_to_wire(value.role),
        admitted: true,
    }
}

/// Reads a generation of a columnar projection.
pub fn columnar_generation_from_proto(
    value: &wire::StoredColumnarProjectionGenerationV1,
) -> (result: Result<
    StoredColumnarProjectionGenerationV1,
    DurableCodecError,
>)
    ensures
        match result {
            Ok(held) =>
                columnar_generation_carries(*value, held) && columnar_generation_valid(held),
            Err(error) =>
                is_corrupt(error) && forall|other: StoredColumnarProjectionGenerationV1| #[trigger]
                columnar_generation_carries(*value, other) ==> !columnar_generation_valid(other),
        },
{
    let generation = require(ProjectionGeneration::new(value.generation))?;
    let layout = tag_from_wire(&value.layout)?;
    let frontier = columnar_frontier_from_proto(require_ref(&value.frontier)?)?;
    let history_incarnation = value.history_incarnation;
    let artifact_length = value.artifact_length;
    let artifact_checksum = optional_digest_from_wire(&value.checksum_bytes)?;
    let definition_fingerprint = digest_from_wire(&value.definition_fingerprint)?;
    let spec_hash = digest_from_wire(&value.spec_hash)?;
    let physical_generation_fingerprint = optional_digest_from_wire(
        &value.physical_generation_fingerprint,
    )?;
    let snapshot_frontier = optional_columnar_frontier_from_proto(&value.snapshot_frontier)?;
    let role = tag_from_wire(&value.role)?;
    if !value.admitted {
        return Err(DurableCodecError::corrupt());
    }
    if !(artifact_length.is_some() == artifact_checksum.is_some()) {
        assert forall|other: StoredColumnarProjectionGenerationV1| #[trigger]
            columnar_generation_carries(*value, other)
                implies !columnar_generation_valid(other) by {
        }
        return Err(DurableCodecError::corrupt());
    }
    Ok(
        StoredColumnarProjectionGenerationV1 {
            generation,
            layout,
            frontier,
            history_incarnation,
            artifact_length,
            artifact_checksum,
            definition_fingerprint,
            spec_hash,
            physical_generation_fingerprint,
            snapshot_frontier,
            role,
        },
    )
}

/// Whether an optional message is the form of an optional value.
pub open spec fn optional_columnar_generation_carries(
    message: Option<wire::StoredColumnarProjectionGenerationV1>,
    value: Option<StoredColumnarProjectionGenerationV1>,
) -> bool {
    match (message, value) {
        (Some(form), Some(part)) => columnar_generation_carries(form, part),
        (None, None) => true,
        _ => false,
    }
}

/// The optional message form of an optional value.
pub fn optional_columnar_generation_to_proto(
    value: &Option<StoredColumnarProjectionGenerationV1>,
) -> (result: Option<
    wire::StoredColumnarProjectionGenerationV1,
>)
    ensures
        optional_columnar_generation_carries(result, *value),
{
    match value {
        Some(part) => Some(columnar_generation_to_proto(*part)),
        None => None,
    }
}

/// Reads an optional value from its optional message form.
pub fn optional_columnar_generation_from_proto(
    value: &Option<wire::StoredColumnarProjectionGenerationV1>,
) -> (result: Result<
    Option<StoredColumnarProjectionGenerationV1>,
    DurableCodecError,
>)
    ensures
        match result {
            Ok(held) =>
                optional_columnar_generation_carries(*value, held) && (held matches Some(part)
                ==> columnar_generation_valid(part)),
            Err(error) =>
                is_corrupt(error)
                    && forall|other: Option<StoredColumnarProjectionGenerationV1>| #[trigger]
                optional_columnar_generation_carries(*value, other)
                    ==> !(other matches Some(part) ==> columnar_generation_valid(
                    part,
                )),
        },
{
    match value {
        Some(form) => {
            let part = columnar_generation_from_proto(form)?;
            Ok(Some(part))
        },
        None => Ok(None),
    }
}

/// Whether a message is the form of a failure of a columnar projection.
pub open spec fn columnar_failure_carries(
    message: wire::StoredColumnarProjectionFailureV1,
    value: StoredColumnarProjectionFailureV1,
) -> bool {
    &&& tag_carries(message.target, value.target)
    &&& tag_carries(message.reason, value.reason)
    &&& optional_generation_carries(message.generation, value.generation)
    &&& message.admitted
}

/// The parts of a failure of a columnar projection are valid.
pub open spec fn columnar_failure_valid(value: StoredColumnarProjectionFailureV1) -> bool {
    &&& (value.generation matches Some(part) ==> part.valid())
}

/// A message is the form of at most one value.
pub proof fn columnar_failure_form_is_exact(
    message: wire::StoredColumnarProjectionFailureV1,
    a: StoredColumnarProjectionFailureV1,
    b: StoredColumnarProjectionFailureV1,
)
    requires
        columnar_failure_carries(message, a),
        columnar_failure_carries(message, b),
    ensures
        a == b,
{
}

/// The message form of a failure of a columnar projection.
pub fn columnar_failure_to_proto(
    value: StoredColumnarProjectionFailureV1,
) -> (result: wire::StoredColumnarProjectionFailureV1)
    ensures
        columnar_failure_carries(result, value),
{
    wire::StoredColumnarProjectionFailureV1 {
        target: tag_to_wire(value.target),
        reason: tag_to_wire(value.reason),
        generation: optional_generation_to_wire(value.generation),
        admitted: true,
    }
}

/// Reads a failure of a columnar projection.
pub fn columnar_failure_from_proto(
    value: &wire::StoredColumnarProjectionFailureV1,
) -> (result: Result<
    StoredColumnarProjectionFailureV1,
    DurableCodecError,
>)
    ensures
        match result {
            Ok(held) => columnar_failure_carries(*value, held) && columnar_failure_valid(held),
            Err(error) =>
                is_corrupt(error) && forall|other: StoredColumnarProjectionFailureV1| #[trigger]
                columnar_failure_carries(*value, other) ==> !columnar_failure_valid(other),
        },
{
    let target = tag_from_wire(&value.target)?;
    let reason = tag_from_wire(&value.reason)?;
    let generation = optional_generation_from_wire(value.generation)?;
    if !value.admitted {
        return Err(DurableCodecError::corrupt());
    }
    Ok(StoredColumnarProjectionFailureV1 { target, reason, generation })
}

/// Whether an optional message is the form of an optional value.
pub open spec fn optional_columnar_failure_carries(
    message: Option<wire::StoredColumnarProjectionFailureV1>,
    value: Option<StoredColumnarProjectionFailureV1>,
) -> bool {
    match (message, value) {
        (Some(form), Some(part)) => columnar_failure_carries(form, part),
        (None, None) => true,
        _ => false,
    }
}

/// The optional message form of an optional value.
pub fn optional_columnar_failure_to_proto(
    value: &Option<StoredColumnarProjectionFailureV1>,
) -> (result: Option<
    wire::StoredColumnarProjectionFailureV1,
>)
    ensures
        optional_columnar_failure_carries(result, *value),
{
    match value {
        Some(part) => Some(columnar_failure_to_proto(*part)),
        None => None,
    }
}

/// Reads an optional value from its optional message form.
pub fn optional_columnar_failure_from_proto(
    value: &Option<wire::StoredColumnarProjectionFailureV1>,
) -> (result: Result<
    Option<StoredColumnarProjectionFailureV1>,
    DurableCodecError,
>)
    ensures
        match result {
            Ok(held) => optional_columnar_failure_carries(*value, held) && (held matches Some(part)
                ==> columnar_failure_valid(part)),
            Err(error) =>
                is_corrupt(error)
                    && forall|other: Option<StoredColumnarProjectionFailureV1>| #[trigger]
                optional_columnar_failure_carries(*value, other)
                    ==> !(other matches Some(part) ==> columnar_failure_valid(
                    part,
                )),
        },
{
    match value {
        Some(form) => {
            let part = columnar_failure_from_proto(form)?;
            Ok(Some(part))
        },
        None => Ok(None),
    }
}

/// Whether a message is the form of a columnar projection control record.
pub open spec fn columnar_control_carries(
    message: wire::StoredColumnarProjectionControlV1,
    value: ColumnarControlView,
) -> bool {
    &&& (message.source matches Some(part) && columnar_source_carries(part, value.source))
    &&& message.target_definition_fingerprint@ == value.target_definition_fingerprint.bytes@
    &&& message.target_spec_hash@ == value.target_spec_hash.bytes@
    &&& message.highest_generation == value.highest_generation.value
    &&& optional_columnar_generation_carries(message.published, value.published)
    &&& optional_columnar_generation_carries(message.candidate, value.candidate)
    &&& optional_columnar_generation_carries(message.predecessor, value.predecessor)
    &&& tag_carries(message.lifecycle, value.lifecycle)
    &&& optional_columnar_failure_carries(message.failure, value.failure)
    &&& message.replay_age_seconds == value.replay_age_seconds
    &&& message.replay_bytes == value.replay_bytes
    &&& message.replay_backlog == value.replay_backlog
    &&& message.admitted
}

/// The parts of a columnar projection control record are valid.
pub open spec fn columnar_control_valid(value: ColumnarControlView) -> bool {
    &&& columnar_source_valid(value.source)
    &&& value.highest_generation.valid()
    &&& (value.published matches Some(part) ==> columnar_generation_valid(part))
    &&& (value.candidate matches Some(part) ==> columnar_generation_valid(part))
    &&& (value.predecessor matches Some(part) ==> columnar_generation_valid(part))
    &&& (value.failure matches Some(part) ==> columnar_failure_valid(part))
}

/// A message is the form of at most one value.
pub proof fn columnar_control_form_is_exact(
    message: wire::StoredColumnarProjectionControlV1,
    a: ColumnarControlView,
    b: ColumnarControlView,
)
    requires
        columnar_control_carries(message, a),
        columnar_control_carries(message, b),
    ensures
        a == b,
{
    columnar_source_form_is_exact(message.source->Some_0, a.source, b.source);
    assert(a.target_definition_fingerprint.bytes =~= b.target_definition_fingerprint.bytes);
    assert(a.target_spec_hash.bytes =~= b.target_spec_hash.bytes);
    if a.published is Some {
        columnar_generation_form_is_exact(
            message.published->Some_0,
            a.published->Some_0,
            b.published->Some_0,
        );
    }
    if a.candidate is Some {
        columnar_generation_form_is_exact(
            message.candidate->Some_0,
            a.candidate->Some_0,
            b.candidate->Some_0,
        );
    }
    if a.predecessor is Some {
        columnar_generation_form_is_exact(
            message.predecessor->Some_0,
            a.predecessor->Some_0,
            b.predecessor->Some_0,
        );
    }
    if a.failure is Some {
        columnar_failure_form_is_exact(
            message.failure->Some_0,
            a.failure->Some_0,
            b.failure->Some_0,
        );
    }
}

/// The message form of a columnar projection control record.
pub fn columnar_control_to_proto(
    value: &StoredColumnarProjectionControlV1,
) -> (result: wire::StoredColumnarProjectionControlV1)
    ensures
        columnar_control_carries(result, value@),
{
    wire::StoredColumnarProjectionControlV1 {
        source: Some(columnar_source_to_proto(&value.source)),
        target_definition_fingerprint: copy_bytes(
            value.target_definition_fingerprint.bytes.as_slice(),
        ),
        target_spec_hash: copy_bytes(value.target_spec_hash.bytes.as_slice()),
        highest_generation: value.highest_generation.get(),
        published: optional_columnar_generation_to_proto(&value.published),
        candidate: optional_columnar_generation_to_proto(&value.candidate),
        predecessor: optional_columnar_generation_to_proto(&value.predecessor),
        lifecycle: tag_to_wire(value.lifecycle),
        failure: optional_columnar_failure_to_proto(&value.failure),
        replay_age_seconds: value.replay_age_seconds,
        replay_bytes: value.replay_bytes,
        replay_backlog: value.replay_backlog,
        admitted: true,
    }
}

/// What reading a message gives: the value that it is the form of, or a
/// corruption where it is the form of no valid one.
pub open spec fn columnar_control_read(
    message: wire::StoredColumnarProjectionControlV1,
    result: Result<StoredColumnarProjectionControlV1, DurableCodecError>,
) -> bool {
    match result {
        Ok(held) => columnar_control_carries(message, held@) && columnar_control_valid(held@),
        Err(error) => is_corrupt(error) && forall|other: ColumnarControlView| #[trigger]
            columnar_control_carries(message, other) ==> !columnar_control_valid(other),
    }
}

/// Reads a columnar projection control record.
pub fn columnar_control_from_proto(
    value: &wire::StoredColumnarProjectionControlV1,
) -> (result: Result<
    StoredColumnarProjectionControlV1,
    DurableCodecError,
>)
    ensures
        columnar_control_read(*value, result),
{
    let source = columnar_source_from_proto(require_ref(&value.source)?)?;
    let target_definition_fingerprint = digest_from_wire(&value.target_definition_fingerprint)?;
    let target_spec_hash = digest_from_wire(&value.target_spec_hash)?;
    let highest_generation = require(ProjectionGeneration::new(value.highest_generation))?;
    let published = optional_columnar_generation_from_proto(&value.published)?;
    let candidate = optional_columnar_generation_from_proto(&value.candidate)?;
    let predecessor = optional_columnar_generation_from_proto(&value.predecessor)?;
    let lifecycle = tag_from_wire(&value.lifecycle)?;
    let failure = optional_columnar_failure_from_proto(&value.failure)?;
    let replay_age_seconds = value.replay_age_seconds;
    let replay_bytes = value.replay_bytes;
    let replay_backlog = value.replay_backlog;
    if !value.admitted {
        return Err(DurableCodecError::corrupt());
    }
    Ok(
        StoredColumnarProjectionControlV1 {
            source,
            target_definition_fingerprint,
            target_spec_hash,
            highest_generation,
            published,
            candidate,
            predecessor,
            lifecycle,
            failure,
            replay_age_seconds,
            replay_bytes,
            replay_backlog,
        },
    )
}

/// Reading the message form of a columnar projection control record gives back what was written.
pub proof fn columnar_control_round_trip(
    value: ColumnarControlView,
    message: wire::StoredColumnarProjectionControlV1,
    read: Result<StoredColumnarProjectionControlV1, DurableCodecError>,
)
    requires
        columnar_control_valid(value),
        columnar_control_carries(message, value),
        columnar_control_read(message, read),
    ensures
        read is Ok,
        read->Ok_0@ == value,
{
    if let Ok(held) = read {
        columnar_control_form_is_exact(message, held@, value);
    }
}

/// Encodes one canonical schema-bound columnar control record.
pub fn encode_columnar_projection_control_v1(
    value: &StoredColumnarProjectionControlV1,
) -> (result: OutgoingRecord<
    wire::StoredColumnarProjectionControlV1,
>)
    ensures
        result.record_type == RecordType::StoredColumnarProjectionControlV1,
        columnar_control_carries(result.message, value@),
{
    OutgoingRecord {
        record_type: RecordType::StoredColumnarProjectionControlV1,
        message: columnar_control_to_proto(value),
    }
}

/// Whether a message is the form of some valid value.
pub open spec fn columnar_control_readable(
    message: wire::StoredColumnarProjectionControlV1,
) -> bool {
    exists|value: ColumnarControlView| #[trigger] columnar_control_carries(message, value)
        && columnar_control_valid(value)
}

/// Decodes and semantically validates one schema-bound columnar control record.
pub fn decode_columnar_projection_control_v1(
    attempt: ReadAttempt<wire::StoredColumnarProjectionControlV1>,
) -> (result: Result<EncodedPageItem<StoredColumnarProjectionControlV1>, DurableCodecError>)
    ensures
        match read_outcome(RecordType::StoredColumnarProjectionControlV1, attempt) {
            Err(kind) => result == Err::<EncodedPageItem<StoredColumnarProjectionControlV1>, _>(
                DurableCodecError { kind },
            ),
            Ok(message) => match refusal_of(
                columnar_control_readable(message),
                None,
                attempt.encoded_len,
            ) {
                Some(kind) =>
                    result == Err::<EncodedPageItem<StoredColumnarProjectionControlV1>, _>(
                    DurableCodecError { kind },
                ),
                None => result is Ok && columnar_control_carries(message, result->Ok_0.value@)
                    && columnar_control_valid(result->Ok_0.value@)
                    && result->Ok_0.charge.bytes == attempt.encoded_len,
            },
        },
{
    let encoded_len = attempt.encoded_len;
    let message = read_message(RecordType::StoredColumnarProjectionControlV1, attempt)?;
    let value = columnar_control_from_proto(&message)?;
    admitted_item(value, None, encoded_len)
}

} // verus!
