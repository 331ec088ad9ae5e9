//! Command segments as durable messages.

use vstd::prelude::*;

use crate::bytes::{copy_bytes, same_bytes};
use crate::codec::command_segment::{
    checkpoint_carries, checkpoint_from_proto, checkpoint_to_proto, checkpoint_valid,
    manifest_entry_list_carries, manifest_entry_list_form_is_exact, manifest_entry_list_from_proto,
    manifest_entry_list_to_proto, manifest_entry_list_valid,
};
use crate::codec::envelope::{
    charged, decode_record_variant_chain, read_message, read_outcome, ruled, ruled_item,
    seal_envelope, CanonicalStoredEnvelopeV1, OutgoingRecord, ReadAttempt,
};
use crate::codec::error::{
    frame_failure, is_corrupt, read_failure, value_failure, DurableCodecError,
    DurableCodecErrorKind, EnvelopeError,
};
use crate::codec::parts::{
    digest_from_wire, identifier_carries, identifier_from_wire, identifier_to_wire,
};
use crate::codec::record_type::{place_of, RecordType};
use crate::codec::replication::identifier_readable;
use crate::codec::segment_bytes::{
    body_bytes, checkpoint_digest_preimage, encoding_views, encodings_fit, entries_bytes, labelled,
    manifest_digest_preimage, prepared_bytes, prepared_fit, raw_segment_payload, segment_body_bytes,
    segment_body_bytes_for_seal, segment_body_bytes_with_prepared_capsules, segment_digest_preimage,
    segment_payload_bytes, CommandEncodings, CommandEncodingsView, PreparedCommandSegmentCapsuleV1,
    CHECKPOINT_DIGEST_LABEL, MANIFEST_DIGEST_LABEL, SEGMENT_DIGEST_LABEL,
};
use crate::codec::segment_capsule::{
    capsule_v2_from_proto, capsule_v3_from_proto, capsule_v4_from_proto, capsule_v4_to_proto,
    capsule_v5_from_proto, capsule_v5_to_proto, capsule_v6_from_proto, capsule_v6_to_proto,
    command_valid, complete_command_round_trip, form_carries, form_defaults, form_failure,
    v4_carries, v5_carries, v6_carries, CapsuleForm, CapsuleVerdicts,
};
use crate::codec::segment_message::{entries_message_bytes, manifest_message_entries};
use crate::functions::{frames_to, hash_is_function, hashes_to};
use crate::ids::Digest;
use crate::keys::{CanonicalRecord, CanonicalRecordView};
use crate::page::EncodedPageItem;
use crate::stored::command_segment::{
    manifest_entry_views, DerivedCheckpointView, ManifestEntryView,
    StoredCommandDerivedIndexCheckpointV1,
};
use crate::stored::segment::{
    command_agrees, command_segment_wire_version_v1, command_views, segment_version,
    CommandCapsuleWireVersionV1, CommandSegmentManifestV1, CommandSegmentView, CompleteCommandView,
    StoredCommandCapsuleV2, StoredCommandSegmentV1,
};
use crate::value_error::StorageValueError;
use crate::wire;

verus! {

/// The digests of the canonical bytes of a segment's body and of its manifest.
#[derive(Clone, Copy, Debug, PartialEq, Eq)]
pub struct SegmentDigests {
    pub segment: Digest,
    pub manifest: Digest,
}

/// What the rules of the manifest and of the segment say of what was read.
#[derive(Clone, Copy, Debug, PartialEq, Eq)]
pub struct SegmentVerdicts {
    pub manifest: Option<StorageValueError>,
    pub segment: Option<StorageValueError>,
}

/// Whether message bytes are an optional digest.
pub open spec fn predecessor_carries(message: Seq<u8>, value: Option<Digest>) -> bool {
    match value {
        None => message.len() == 0,
        Some(digest) => message == digest.bytes@,
    }
}

fn predecessor_from_wire(message: &Vec<u8>) -> (result: Result<Option<Digest>, DurableCodecError>)
    ensures
        match result {
            Ok(held) => predecessor_carries(message@, held),
            Err(error) => is_corrupt(error) && message@.len() != 0 && message@.len() != 32,
        },
{
    if message.len() == 0 {
        Ok(None)
    } else {
        match digest_from_wire(message) {
            Ok(digest) => Ok(Some(digest)),
            Err(error) => Err(error),
        }
    }
}

fn predecessor_to_wire(value: Option<Digest>) -> (result: Vec<u8>)
    ensures
        predecessor_carries(result@, value),
{
    match value {
        None => Vec::new(),
        Some(digest) => copy_bytes(digest.bytes.as_slice()),
    }
}

/// Whether a frame is that of a segment, with a manifest digest.
pub open spec fn frame_carries(
    frame: wire::CommandSegmentFrameV1,
    segment: CommandSegmentView,
    manifest_digest: Digest,
) -> bool {
    &&& identifier_carries(frame.database_id, segment.database_id)
    &&& frame.history_incarnation == segment.history_incarnation
    &&& predecessor_carries(frame.predecessor_segment_hash@, segment.predecessor)
    &&& frame.first_commit_sequence == segment.first_commit().value
    &&& frame.last_commit_sequence == segment.last_commit().value
    &&& frame.first_administration_sequence == segment.first_administration().value
    &&& frame.last_administration_sequence == segment.last_administration().value
    &&& (frame.manifest matches Some(manifest) && manifest_entry_list_carries(
        manifest.entries@,
        segment.manifest,
    ) && manifest.digest@ == manifest_digest.bytes@)
}

/// The frame of a segment.
pub fn frame_to_proto(value: &StoredCommandSegmentV1, manifest_digest: Digest) -> (result:
    wire::CommandSegmentFrameV1)
    requires
        value@.wf(),
    ensures
        frame_carries(result, value@, manifest_digest),
{
    wire::CommandSegmentFrameV1 {
        database_id: identifier_to_wire(value.database_id),
        history_incarnation: value.history_incarnation,
        predecessor_segment_hash: predecessor_to_wire(value.predecessor),
        first_commit_sequence: value.first_commit_sequence().get(),
        last_commit_sequence: value.last_commit_sequence().get(),
        first_administration_sequence: value.first_administration_sequence().get(),
        last_administration_sequence: value.last_administration_sequence().get(),
        manifest: Some(
            wire::CommandSegmentManifestV1 {
                entries: manifest_entry_list_to_proto(&value.manifest.entries),
                digest: copy_bytes(manifest_digest.bytes.as_slice()),
            },
        ),
    }
}

/// Whether what is read of a segment before its commands is sound: its digest is
/// that of its body, no sequence is zero, and the predecessor is a digest or absent.
pub open spec fn segment_head_sound(
    frame: wire::CommandSegmentFrameV1,
    segment_digest: Seq<u8>,
    computed: Digest,
) -> bool {
    &&& segment_digest == computed.bytes@
    &&& frame.first_commit_sequence != 0
    &&& frame.last_commit_sequence != 0
    &&& frame.first_administration_sequence != 0
    &&& frame.last_administration_sequence != 0
    &&& (frame.predecessor_segment_hash@.len() == 0 || frame.predecessor_segment_hash@.len() == 32)
}

fn check_segment_head(
    frame: &wire::CommandSegmentFrameV1,
    segment_digest: &Vec<u8>,
    computed: Digest,
) -> (result: Result<Option<Digest>, DurableCodecError>)
    ensures
        match result {
            Ok(predecessor) => segment_head_sound(*frame, segment_digest@, computed)
                && predecessor_carries(frame.predecessor_segment_hash@, predecessor),
            Err(error) => is_corrupt(error) && !segment_head_sound(
                *frame,
                segment_digest@,
                computed,
            ),
        },
{
    if !same_bytes(segment_digest, computed.bytes.as_slice()) {
        return Err(DurableCodecError::corrupt());
    }
    if frame.first_commit_sequence == 0 || frame.last_commit_sequence == 0
        || frame.first_administration_sequence == 0 || frame.last_administration_sequence == 0 {
        return Err(DurableCodecError::corrupt());
    }
    predecessor_from_wire(&frame.predecessor_segment_hash)
}

/// Whether a manifest field is sound: its digest is that of its entries, and its
/// entries are the forms of valid ones.
pub open spec fn manifest_sound(
    manifest: Option<wire::CommandSegmentManifestV1>,
    computed: Digest,
) -> bool {
    manifest matches Some(manifest) && manifest.digest@ == computed.bytes@ && exists|
        entries: Seq<ManifestEntryView>,
    | #[trigger]
        manifest_entry_list_carries(manifest.entries@, entries) && manifest_entry_list_valid(
            entries,
        )
}

/// Reads a manifest, whose digest has to be that of its entries.
pub fn manifest_from_proto(
    manifest: &Option<wire::CommandSegmentManifestV1>,
    computed: Digest,
    verdict: Option<StorageValueError>,
) -> (result: Result<CommandSegmentManifestV1, DurableCodecError>)
    ensures
        if !manifest_sound(*manifest, computed) {
            result is Err && is_corrupt(result->Err_0)
        } else {
            match verdict {
                Some(error) => result == Err::<CommandSegmentManifestV1, _>(
                    DurableCodecError { kind: value_failure(error) },
                ),
                None => result is Ok && manifest_entry_list_carries(
                    manifest->Some_0.entries@,
                    result->Ok_0@,
                ) && manifest_entry_list_valid(result->Ok_0@),
            }
        },
{
    let manifest = match manifest {
        Some(manifest) => manifest,
        None => return Err(DurableCodecError::corrupt()),
    };
    if !same_bytes(&manifest.digest, computed.bytes.as_slice()) {
        return Err(DurableCodecError::corrupt());
    }
    let entries = manifest_entry_list_from_proto(&manifest.entries)?;
    proof {
        assert(manifest_entry_list_carries(manifest.entries@, manifest_entry_views(entries@)));
    }
    match verdict {
        Some(error) => Err(DurableCodecError::from_storage_value(error)),
        None => Ok(CommandSegmentManifestV1 { entries }),
    }
}

/// Whether the sequences of a frame are those of its first and last command.
pub open spec fn sequences_match(
    frame: wire::CommandSegmentFrameV1,
    commands: Seq<CompleteCommandView>,
) -> bool {
    &&& frame.first_commit_sequence == commands[0].commit_sequence().value
    &&& frame.last_commit_sequence == commands.last().commit_sequence().value
    &&& frame.first_administration_sequence
        == commands[0].base.started.administration_sequence.value
    &&& frame.last_administration_sequence
        == commands.last().base.terminal.administration_sequence.value
}

/// Why a segment is refused once its commands are read, if it is: its database,
/// its manifest, its own rules, and then whether it names its own sequences.
pub open spec fn segment_tail_failure(
    frame: wire::CommandSegmentFrameV1,
    commands: Seq<CompleteCommandView>,
    digests: SegmentDigests,
    verdicts: SegmentVerdicts,
) -> Option<DurableCodecErrorKind> {
    if !identifier_readable(frame.database_id)
        || !manifest_sound(frame.manifest, digests.manifest) {
        Some(DurableCodecErrorKind::CorruptData)
    } else if verdicts.manifest is Some {
        Some(value_failure(verdicts.manifest->Some_0))
    } else if commands.len() == 0 {
        Some(DurableCodecErrorKind::CorruptData)
    } else if verdicts.segment is Some {
        Some(value_failure(verdicts.segment->Some_0))
    } else if !sequences_match(frame, commands) {
        Some(DurableCodecErrorKind::CorruptData)
    } else {
        None
    }
}

fn finish_segment(
    frame: &wire::CommandSegmentFrameV1,
    predecessor: Option<Digest>,
    commands: Vec<StoredCommandCapsuleV2>,
    digests: SegmentDigests,
    verdicts: SegmentVerdicts,
) -> (result: Result<StoredCommandSegmentV1, DurableCodecError>)
    requires
        predecessor_carries(frame.predecessor_segment_hash@, predecessor),
    ensures
        match segment_tail_failure(*frame, command_views(commands@), digests, verdicts) {
            Some(kind) => result == Err::<StoredCommandSegmentV1, _>(DurableCodecError { kind }),
            None => result is Ok && frame_carries(*frame, result->Ok_0@, digests.manifest)
                && result->Ok_0@.commands == command_views(commands@)
                && result->Ok_0@.segment_digest == digests.segment
                && manifest_entry_list_valid(result->Ok_0@.manifest) && result->Ok_0@.wf(),
        },
{
    let database_id = identifier_from_wire(&frame.database_id)?;
    assert(identifier_carries(frame.database_id, database_id));
    let manifest = manifest_from_proto(&frame.manifest, digests.manifest, verdicts.manifest)?;
    if commands.len() == 0 {
        return Err(DurableCodecError::from_storage_value(StorageValueError::Empty));
    }
    match verdicts.segment {
        Some(error) => return Err(DurableCodecError::from_storage_value(error)),
        None => {},
    }
    let segment = StoredCommandSegmentV1 {
        database_id,
        history_incarnation: frame.history_incarnation,
        predecessor,
        commands,
        manifest,
        segment_digest: digests.segment,
    };
    let matches = segment.first_commit_sequence().get() == frame.first_commit_sequence
        && segment.last_commit_sequence().get() == frame.last_commit_sequence
        && segment.first_administration_sequence().get() == frame.first_administration_sequence
        && segment.last_administration_sequence().get() == frame.last_administration_sequence;
    if !matches {
        return Err(DurableCodecError::corrupt());
    }
    Ok(segment)
}

/// What a list of capsules comes to: the commands that they are the forms of, or
/// the first failure.
pub open spec fn commands_read(
    forms: Seq<CapsuleForm>,
    verdicts: Seq<CapsuleVerdicts>,
    no_service_values: CanonicalRecordView,
    result: Result<Seq<CompleteCommandView>, DurableCodecErrorKind>,
) -> bool {
    match result {
        Ok(commands) => {
            &&& commands.len() == forms.len()
            &&& forall|i: int|
                0 <= i < forms.len() ==> command_read(
                    #[trigger] forms[i],
                    verdicts[i],
                    no_service_values,
                    commands[i],
                )
        },
        Err(kind) => exists|i: int| #[trigger] first_failing(forms, verdicts, i, kind),
    }
}

/// A capsule gives a command.
pub open spec fn command_read(
    form: CapsuleForm,
    verdicts: CapsuleVerdicts,
    no_service_values: CanonicalRecordView,
    command: CompleteCommandView,
) -> bool {
    &&& form_failure(form, verdicts) is None
    &&& form_carries(form, command)
    &&& form_defaults(form, no_service_values, command)
    &&& command_valid(command)
    &&& command_agrees(command)
}

/// A capsule fails, and none before it does.
pub open spec fn first_failing(
    forms: Seq<CapsuleForm>,
    verdicts: Seq<CapsuleVerdicts>,
    place: int,
    kind: DurableCodecErrorKind,
) -> bool {
    &&& 0 <= place < forms.len()
    &&& form_failure(forms[place], verdicts[place]) == Some(kind)
    &&& forall|k: int|
        0 <= k < place ==> form_failure(#[trigger] forms[k], verdicts[k]) is None
}

/// What reading a segment comes to.
pub open spec fn segment_outcome(
    frame: wire::CommandSegmentFrameV1,
    forms: Seq<CapsuleForm>,
    segment_digest: Seq<u8>,
    digests: SegmentDigests,
    command_verdicts: Seq<CapsuleVerdicts>,
    verdicts: SegmentVerdicts,
    no_service_values: CanonicalRecordView,
    result: Result<StoredCommandSegmentV1, DurableCodecError>,
) -> bool {
    if !segment_head_sound(frame, segment_digest, digests.segment) {
        result is Err && is_corrupt(result->Err_0)
    } else {
        exists|commands: Result<Seq<CompleteCommandView>, DurableCodecErrorKind>| #[trigger]
            commands_read(forms, command_verdicts, no_service_values, commands) && match commands {
                Err(kind) => result == Err::<StoredCommandSegmentV1, _>(DurableCodecError { kind }),
                Ok(commands) => match segment_tail_failure(frame, commands, digests, verdicts) {
                    Some(kind) => result == Err::<StoredCommandSegmentV1, _>(
                        DurableCodecError { kind },
                    ),
                    None => result is Ok && frame_carries(
                        frame,
                        result->Ok_0@,
                        digests.manifest,
                    ) && result->Ok_0@.commands == commands && result->Ok_0@.segment_digest
                        == digests.segment && manifest_entry_list_valid(result->Ok_0@.manifest)
                        && result->Ok_0@.wf(),
                },
            }
    }
}

/// The capsules of a segment of the first form.
pub open spec fn forms_v2(messages: Seq<wire::StoredCommandCapsuleV2>) -> Seq<CapsuleForm> {
    Seq::new(messages.len(), |i: int| CapsuleForm::V2(messages[i]))
}

fn commands_v2(
    messages: &[wire::StoredCommandCapsuleV2],
    no_service_values: &CanonicalRecord,
    verdicts: &[CapsuleVerdicts],
) -> (result: Result<Vec<StoredCommandCapsuleV2>, DurableCodecError>)
    requires
        verdicts@.len() == messages@.len(),
    ensures
        match result {
            Ok(commands) => commands_read(
                forms_v2(messages@),
                verdicts@,
                no_service_values@,
                Ok(command_views(commands@)),
            ),
            Err(error) => commands_read(
                forms_v2(messages@),
                verdicts@,
                no_service_values@,
                Err(error.kind),
            ),
        },
{
    let ghost forms = forms_v2(messages@);
    let mut result: Vec<StoredCommandCapsuleV2> = Vec::new();
    let mut i: usize = 0;
    while i < messages.len()
        invariant
            i <= messages@.len(),
            forms == forms_v2(messages@),
            verdicts@.len() == messages@.len(),
            result@.len() == i,
            forall|k: int|
                0 <= k < i ==> command_read(
                    #[trigger] forms[k],
                    verdicts@[k],
                    no_service_values@,
                    result@[k]@,
                ),
        decreases messages@.len() - i,
    {
        match capsule_v2_from_proto(&messages[i], no_service_values, verdicts[i]) {
            Ok(command) => {
                result.push(command);
            },
            Err(error) => {
                proof {
                    assert(form_failure(forms[i as int], verdicts@[i as int]) == Some(error.kind));
                    assert(first_failing(forms, verdicts@, i as int, error.kind));
                }
                return Err(error);
            },
        }
        i += 1;
    }
    Ok(result)
}

/// Reads a segment of the first form.
pub fn segment_v1_from_proto(
    message: &wire::CommandSegment<wire::StoredCommandCapsuleV2>,
    digests: SegmentDigests,
    no_service_values: &CanonicalRecord,
    command_verdicts: &[CapsuleVerdicts],
    verdicts: SegmentVerdicts,
) -> (result: Result<StoredCommandSegmentV1, DurableCodecError>)
    requires
        message.body is Some ==> command_verdicts@.len() == message.body->Some_0.commands@.len(),
    ensures
        match message.body {
            None => result is Err && is_corrupt(result->Err_0),
            Some(body) => segment_outcome(
                body.frame,
                forms_v2(body.commands@),
                message.segment_digest@,
                digests,
                command_verdicts@,
                verdicts,
                no_service_values@,
                result,
            ),
        },
{
    let body = match &message.body {
        Some(body) => body,
        None => return Err(DurableCodecError::corrupt()),
    };
    let predecessor = check_segment_head(&body.frame, &message.segment_digest, digests.segment)?;
    match commands_v2(&body.commands, no_service_values, command_verdicts) {
        Err(error) => {
            assert(commands_read(
                forms_v2(body.commands@),
                command_verdicts@,
                no_service_values@,
                Err(error.kind),
            ));
            Err(error)
        },
        Ok(commands) => {
            assert(commands_read(
                forms_v2(body.commands@),
                command_verdicts@,
                no_service_values@,
                Ok(command_views(commands@)),
            ));
            finish_segment(&body.frame, predecessor, commands, digests, verdicts)
        },
    }
}

/// The capsules of a segment of the second form.
pub open spec fn forms_v3(messages: Seq<wire::StoredCommandCapsuleV3>) -> Seq<CapsuleForm> {
    Seq::new(messages.len(), |i: int| CapsuleForm::V3(messages[i]))
}

fn commands_v3(
    messages: &[wire::StoredCommandCapsuleV3],
    no_service_values: &CanonicalRecord,
    verdicts: &[CapsuleVerdicts],
) -> (result: Result<Vec<StoredCommandCapsuleV2>, DurableCodecError>)
    requires
        verdicts@.len() == messages@.len(),
    ensures
        match result {
            Ok(commands) => commands_read(
                forms_v3(messages@),
                verdicts@,
                no_service_values@,
                Ok(command_views(commands@)),
            ),
            Err(error) => commands_read(
                forms_v3(messages@),
                verdicts@,
                no_service_values@,
                Err(error.kind),
            ),
        },
{
    let ghost forms = forms_v3(messages@);
    let mut result: Vec<StoredCommandCapsuleV2> = Vec::new();
    let mut i: usize = 0;
    while i < messages.len()
        invariant
            i <= messages@.len(),
            forms == forms_v3(messages@),
            verdicts@.len() == messages@.len(),
            result@.len() == i,
            forall|k: int|
                0 <= k < i ==> command_read(
                    #[trigger] forms[k],
                    verdicts@[k],
                    no_service_values@,
                    result@[k]@,
                ),
        decreases messages@.len() - i,
    {
        match capsule_v3_from_proto(&messages[i], verdicts[i]) {
            Ok(command) => {
                result.push(command);
            },
            Err(error) => {
                proof {
                    assert(form_failure(forms[i as int], verdicts@[i as int]) == Some(error.kind));
                    assert(first_failing(forms, verdicts@, i as int, error.kind));
                }
                return Err(error);
            },
        }
        i += 1;
    }
    Ok(result)
}

/// Reads a segment of the second form.
pub fn segment_v2_from_proto(
    message: &wire::CommandSegment<wire::StoredCommandCapsuleV3>,
    digests: SegmentDigests,
    no_service_values: &CanonicalRecord,
    command_verdicts: &[CapsuleVerdicts],
    verdicts: SegmentVerdicts,
) -> (result: Result<StoredCommandSegmentV1, DurableCodecError>)
    requires
        message.body is Some ==> command_verdicts@.len() == message.body->Some_0.commands@.len(),
    ensures
        match message.body {
            None => result is Err && is_corrupt(result->Err_0),
            Some(body) => segment_outcome(
                body.frame,
                forms_v3(body.commands@),
                message.segment_digest@,
                digests,
                command_verdicts@,
                verdicts,
                no_service_values@,
                result,
            ),
        },
{
    let body = match &message.body {
        Some(body) => body,
        None => return Err(DurableCodecError::corrupt()),
    };
    let predecessor = check_segment_head(&body.frame, &message.segment_digest, digests.segment)?;
    match commands_v3(&body.commands, no_service_values, command_verdicts) {
        Err(error) => {
            assert(commands_read(
                forms_v3(body.commands@),
                command_verdicts@,
                no_service_values@,
                Err(error.kind),
            ));
            Err(error)
        },
        Ok(commands) => {
            assert(commands_read(
                forms_v3(body.commands@),
                command_verdicts@,
                no_service_values@,
                Ok(command_views(commands@)),
            ));
            finish_segment(&body.frame, predecessor, commands, digests, verdicts)
        },
    }
}

/// The capsules of a segment of the third form.
pub open spec fn forms_v4(messages: Seq<wire::StoredCommandCapsuleV4>) -> Seq<CapsuleForm> {
    Seq::new(messages.len(), |i: int| CapsuleForm::V4(messages[i]))
}

fn commands_v4(
    messages: &[wire::StoredCommandCapsuleV4],
    no_service_values: &CanonicalRecord,
    verdicts: &[CapsuleVerdicts],
) -> (result: Result<Vec<StoredCommandCapsuleV2>, DurableCodecError>)
    requires
        verdicts@.len() == messages@.len(),
    ensures
        match result {
            Ok(commands) => commands_read(
                forms_v4(messages@),
                verdicts@,
                no_service_values@,
                Ok(command_views(commands@)),
            ),
            Err(error) => commands_read(
                forms_v4(messages@),
                verdicts@,
                no_service_values@,
                Err(error.kind),
            ),
        },
{
    let ghost forms = forms_v4(messages@);
    let mut result: Vec<StoredCommandCapsuleV2> = Vec::new();
    let mut i: usize = 0;
    while i < messages.len()
        invariant
            i <= messages@.len(),
            forms == forms_v4(messages@),
            verdicts@.len() == messages@.len(),
            result@.len() == i,
            forall|k: int|
                0 <= k < i ==> command_read(
                    #[trigger] forms[k],
                    verdicts@[k],
                    no_service_values@,
                    result@[k]@,
                ),
        decreases messages@.len() - i,
    {
        match capsule_v4_from_proto(&messages[i], verdicts[i]) {
            Ok(command) => {
                result.push(command);
            },
            Err(error) => {
                proof {
                    assert(form_failure(forms[i as int], verdicts@[i as int]) == Some(error.kind));
                    assert(first_failing(forms, verdicts@, i as int, error.kind));
                }
                return Err(error);
            },
        }
        i += 1;
    }
    Ok(result)
}

/// Reads a segment of the third form.
pub fn segment_v3_from_proto(
    message: &wire::CommandSegment<wire::StoredCommandCapsuleV4>,
    digests: SegmentDigests,
    no_service_values: &CanonicalRecord,
    command_verdicts: &[CapsuleVerdicts],
    verdicts: SegmentVerdicts,
) -> (result: Result<StoredCommandSegmentV1, DurableCodecError>)
    requires
        message.body is Some ==> command_verdicts@.len() == message.body->Some_0.commands@.len(),
    ensures
        match message.body {
            None => result is Err && is_corrupt(result->Err_0),
            Some(body) => segment_outcome(
                body.frame,
                forms_v4(body.commands@),
                message.segment_digest@,
                digests,
                command_verdicts@,
                verdicts,
                no_service_values@,
                result,
            ),
        },
{
    let body = match &message.body {
        Some(body) => body,
        None => return Err(DurableCodecError::corrupt()),
    };
    let predecessor = check_segment_head(&body.frame, &message.segment_digest, digests.segment)?;
    match commands_v4(&body.commands, no_service_values, command_verdicts) {
        Err(error) => {
            assert(commands_read(
                forms_v4(body.commands@),
                command_verdicts@,
                no_service_values@,
                Err(error.kind),
            ));
            Err(error)
        },
        Ok(commands) => {
            assert(commands_read(
                forms_v4(body.commands@),
                command_verdicts@,
                no_service_values@,
                Ok(command_views(commands@)),
            ));
            finish_segment(&body.frame, predecessor, commands, digests, verdicts)
        },
    }
}

/// The capsules of a segment of the fourth form.
pub open spec fn forms_v5(messages: Seq<wire::StoredCommandCapsuleV5>) -> Seq<CapsuleForm> {
    Seq::new(messages.len(), |i: int| CapsuleForm::V5(messages[i]))
}

fn commands_v5(
    messages: &[wire::StoredCommandCapsuleV5],
    no_service_values: &CanonicalRecord,
    verdicts: &[CapsuleVerdicts],
) -> (result: Result<Vec<StoredCommandCapsuleV2>, DurableCodecError>)
    requires
        verdicts@.len() == messages@.len(),
    ensures
        match result {
            Ok(commands) => commands_read(
                forms_v5(messages@),
                verdicts@,
                no_service_values@,
                Ok(command_views(commands@)),
            ),
            Err(error) => commands_read(
                forms_v5(messages@),
                verdicts@,
                no_service_values@,
                Err(error.kind),
            ),
        },
{
    let ghost forms = forms_v5(messages@);
    let mut result: Vec<StoredCommandCapsuleV2> = Vec::new();
    let mut i: usize = 0;
    while i < messages.len()
        invariant
            i <= messages@.len(),
            forms == forms_v5(messages@),
            verdicts@.len() == messages@.len(),
            result@.len() == i,
            forall|k: int|
                0 <= k < i ==> command_read(
                    #[trigger] forms[k],
                    verdicts@[k],
                    no_service_values@,
                    result@[k]@,
                ),
        decreases messages@.len() - i,
    {
        match capsule_v5_from_proto(&messages[i], verdicts[i]) {
            Ok(command) => {
                result.push(command);
            },
            Err(error) => {
                proof {
                    assert(form_failure(forms[i as int], verdicts@[i as int]) == Some(error.kind));
                    assert(first_failing(forms, verdicts@, i as int, error.kind));
                }
                return Err(error);
            },
        }
        i += 1;
    }
    Ok(result)
}

/// Reads a segment of the fourth form.
pub fn segment_v4_from_proto(
    message: &wire::CommandSegment<wire::StoredCommandCapsuleV5>,
    digests: SegmentDigests,
    no_service_values: &CanonicalRecord,
    command_verdicts: &[CapsuleVerdicts],
    verdicts: SegmentVerdicts,
) -> (result: Result<StoredCommandSegmentV1, DurableCodecError>)
    requires
        message.body is Some ==> command_verdicts@.len() == message.body->Some_0.commands@.len(),
    ensures
        match message.body {
            None => result is Err && is_corrupt(result->Err_0),
            Some(body) => segment_outcome(
                body.frame,
                forms_v5(body.commands@),
                message.segment_digest@,
                digests,
                command_verdicts@,
                verdicts,
                no_service_values@,
                result,
            ),
        },
{
    let body = match &message.body {
        Some(body) => body,
        None => return Err(DurableCodecError::corrupt()),
    };
    let predecessor = check_segment_head(&body.frame, &message.segment_digest, digests.segment)?;
    match commands_v5(&body.commands, no_service_values, command_verdicts) {
        Err(error) => {
            assert(commands_read(
                forms_v5(body.commands@),
                command_verdicts@,
                no_service_values@,
                Err(error.kind),
            ));
            Err(error)
        },
        Ok(commands) => {
            assert(commands_read(
                forms_v5(body.commands@),
                command_verdicts@,
                no_service_values@,
                Ok(command_views(commands@)),
            ));
            finish_segment(&body.frame, predecessor, commands, digests, verdicts)
        },
    }
}

/// The capsules of a segment of the fifth form.
pub open spec fn forms_v6(messages: Seq<wire::StoredCommandCapsuleV6>) -> Seq<CapsuleForm> {
    Seq::new(messages.len(), |i: int| CapsuleForm::V6(messages[i]))
}

fn commands_v6(
    messages: &[wire::StoredCommandCapsuleV6],
    no_service_values: &CanonicalRecord,
    verdicts: &[CapsuleVerdicts],
) -> (result: Result<Vec<StoredCommandCapsuleV2>, DurableCodecError>)
    requires
        verdicts@.len() == messages@.len(),
    ensures
        match result {
            Ok(commands) => commands_read(
                forms_v6(messages@),
                verdicts@,
                no_service_values@,
                Ok(command_views(commands@)),
            ),
            Err(error) => commands_read(
                forms_v6(messages@),
                verdicts@,
                no_service_values@,
                Err(error.kind),
            ),
        },
{
    let ghost forms = forms_v6(messages@);
    let mut result: Vec<StoredCommandCapsuleV2> = Vec::new();
    let mut i: usize = 0;
    while i < messages.len()
        invariant
            i <= messages@.len(),
            forms == forms_v6(messages@),
            verdicts@.len() == messages@.len(),
            result@.len() == i,
            forall|k: int|
                0 <= k < i ==> command_read(
                    #[trigger] forms[k],
                    verdicts@[k],
                    no_service_values@,
                    result@[k]@,
                ),
        decreases messages@.len() - i,
    {
        match capsule_v6_from_proto(&messages[i], verdicts[i]) {
            Ok(command) => {
                result.push(command);
            },
            Err(error) => {
                proof {
                    assert(form_failure(forms[i as int], verdicts@[i as int]) == Some(error.kind));
                    assert(first_failing(forms, verdicts@, i as int, error.kind));
                }
                return Err(error);
            },
        }
        i += 1;
    }
    Ok(result)
}

/// Reads a segment of the fifth form.
pub fn segment_v5_from_proto(
    message: &wire::CommandSegment<wire::StoredCommandCapsuleV6>,
    digests: SegmentDigests,
    no_service_values: &CanonicalRecord,
    command_verdicts: &[CapsuleVerdicts],
    verdicts: SegmentVerdicts,
) -> (result: Result<StoredCommandSegmentV1, DurableCodecError>)
    requires
        message.body is Some ==> command_verdicts@.len() == message.body->Some_0.commands@.len(),
    ensures
        match message.body {
            None => result is Err && is_corrupt(result->Err_0),
            Some(body) => segment_outcome(
                body.frame,
                forms_v6(body.commands@),
                message.segment_digest@,
                digests,
                command_verdicts@,
                verdicts,
                no_service_values@,
                result,
            ),
        },
{
    let body = match &message.body {
        Some(body) => body,
        None => return Err(DurableCodecError::corrupt()),
    };
    let predecessor = check_segment_head(&body.frame, &message.segment_digest, digests.segment)?;
    match commands_v6(&body.commands, no_service_values, command_verdicts) {
        Err(error) => {
            assert(commands_read(
                forms_v6(body.commands@),
                command_verdicts@,
                no_service_values@,
                Err(error.kind),
            ));
            Err(error)
        },
        Ok(commands) => {
            assert(commands_read(
                forms_v6(body.commands@),
                command_verdicts@,
                no_service_values@,
                Ok(command_views(commands@)),
            ));
            finish_segment(&body.frame, predecessor, commands, digests, verdicts)
        },
    }
}

/// A segment in whichever form it was found.
#[derive(Debug, PartialEq, Eq)]
pub enum SegmentForm {
    V1(wire::CommandSegment<wire::StoredCommandCapsuleV2>),
    V2(wire::CommandSegment<wire::StoredCommandCapsuleV3>),
    V3(wire::CommandSegment<wire::StoredCommandCapsuleV4>),
    V4(wire::CommandSegment<wire::StoredCommandCapsuleV5>),
    V5(wire::CommandSegment<wire::StoredCommandCapsuleV6>),
}

/// A segment's frame, its capsules and its digest, where it has a body.
pub ghost struct SegmentParts {
    pub frame: wire::CommandSegmentFrameV1,
    pub forms: Seq<CapsuleForm>,
    pub segment_digest: Seq<u8>,
}

/// The parts of a segment that has a body.
pub open spec fn segment_parts(form: SegmentForm) -> Option<SegmentParts> {
    match form {
        SegmentForm::V1(message) => match message.body {
            None => None,
            Some(body) => Some(
                SegmentParts {
                    frame: body.frame,
                    forms: forms_v2(body.commands@),
                    segment_digest: message.segment_digest@,
                },
            ),
        },
        SegmentForm::V2(message) => match message.body {
            None => None,
            Some(body) => Some(
                SegmentParts {
                    frame: body.frame,
                    forms: forms_v3(body.commands@),
                    segment_digest: message.segment_digest@,
                },
            ),
        },
        SegmentForm::V3(message) => match message.body {
            None => None,
            Some(body) => Some(
                SegmentParts {
                    frame: body.frame,
                    forms: forms_v4(body.commands@),
                    segment_digest: message.segment_digest@,
                },
            ),
        },
        SegmentForm::V4(message) => match message.body {
            None => None,
            Some(body) => Some(
                SegmentParts {
                    frame: body.frame,
                    forms: forms_v5(body.commands@),
                    segment_digest: message.segment_digest@,
                },
            ),
        },
        SegmentForm::V5(message) => match message.body {
            None => None,
            Some(body) => Some(
                SegmentParts {
                    frame: body.frame,
                    forms: forms_v6(body.commands@),
                    segment_digest: message.segment_digest@,
                },
            ),
        },
    }
}

/// What a segment in whichever form comes to.
pub open spec fn form_outcome(
    form: SegmentForm,
    digests: SegmentDigests,
    command_verdicts: Seq<CapsuleVerdicts>,
    verdicts: SegmentVerdicts,
    no_service_values: CanonicalRecordView,
    result: Result<StoredCommandSegmentV1, DurableCodecError>,
) -> bool {
    match segment_parts(form) {
        None => result is Err && is_corrupt(result->Err_0),
        Some(parts) => segment_outcome(
            parts.frame,
            parts.forms,
            parts.segment_digest,
            digests,
            command_verdicts,
            verdicts,
            no_service_values,
            result,
        ),
    }
}

/// Reads a segment from whichever form it has.
pub fn segment_from_form(
    form: &SegmentForm,
    digests: SegmentDigests,
    no_service_values: &CanonicalRecord,
    command_verdicts: &[CapsuleVerdicts],
    verdicts: SegmentVerdicts,
) -> (result: Result<StoredCommandSegmentV1, DurableCodecError>)
    requires
        segment_parts(*form) is Some ==> command_verdicts@.len() == segment_parts(
            *form,
        )->Some_0.forms.len(),
    ensures
        form_outcome(*form, digests, command_verdicts@, verdicts, no_service_values@, result),
{
    match form {
        SegmentForm::V1(message) => segment_v1_from_proto(
            message,
            digests,
            no_service_values,
            command_verdicts,
            verdicts,
        ),
        SegmentForm::V2(message) => segment_v2_from_proto(
            message,
            digests,
            no_service_values,
            command_verdicts,
            verdicts,
        ),
        SegmentForm::V3(message) => segment_v3_from_proto(
            message,
            digests,
            no_service_values,
            command_verdicts,
            verdicts,
        ),
        SegmentForm::V4(message) => segment_v4_from_proto(
            message,
            digests,
            no_service_values,
            command_verdicts,
            verdicts,
        ),
        SegmentForm::V5(message) => segment_v5_from_proto(
            message,
            digests,
            no_service_values,
            command_verdicts,
            verdicts,
        ),
    }
}

/// Attempts to read one envelope as each form of a segment.
pub struct SegmentAttempts {
    pub v1: ReadAttempt<wire::CommandSegment<wire::StoredCommandCapsuleV2>>,
    pub v2: ReadAttempt<wire::CommandSegment<wire::StoredCommandCapsuleV3>>,
    pub v3: ReadAttempt<wire::CommandSegment<wire::StoredCommandCapsuleV4>>,
    pub v4: ReadAttempt<wire::CommandSegment<wire::StoredCommandCapsuleV5>>,
    pub v5: ReadAttempt<wire::CommandSegment<wire::StoredCommandCapsuleV6>>,
}

/// The form that was found and its length, or why there is none.
pub open spec fn found_segment(
    found: Result<RecordType, EnvelopeError>,
    attempts: SegmentAttempts,
) -> Result<(SegmentForm, usize), DurableCodecErrorKind> {
    match found {
        Err(error) => Err(read_failure(error)),
        Ok(RecordType::StoredCommandSegmentV5) => match read_outcome(
            RecordType::StoredCommandSegmentV5,
            attempts.v5,
        ) {
            Err(kind) => Err(kind),
            Ok(message) => Ok((SegmentForm::V5(message), attempts.v5.encoded_len)),
        },
        Ok(RecordType::StoredCommandSegmentV4) => match read_outcome(
            RecordType::StoredCommandSegmentV4,
            attempts.v4,
        ) {
            Err(kind) => Err(kind),
            Ok(message) => Ok((SegmentForm::V4(message), attempts.v4.encoded_len)),
        },
        Ok(RecordType::StoredCommandSegmentV3) => match read_outcome(
            RecordType::StoredCommandSegmentV3,
            attempts.v3,
        ) {
            Err(kind) => Err(kind),
            Ok(message) => Ok((SegmentForm::V3(message), attempts.v3.encoded_len)),
        },
        Ok(RecordType::StoredCommandSegmentV2) => match read_outcome(
            RecordType::StoredCommandSegmentV2,
            attempts.v2,
        ) {
            Err(kind) => Err(kind),
            Ok(message) => Ok((SegmentForm::V2(message), attempts.v2.encoded_len)),
        },
        Ok(RecordType::StoredCommandSegmentV1) => match read_outcome(
            RecordType::StoredCommandSegmentV1,
            attempts.v1,
        ) {
            Err(kind) => Err(kind),
            Ok(message) => Ok((SegmentForm::V1(message), attempts.v1.encoded_len)),
        },
        Ok(_) => Err(DurableCodecErrorKind::UnexpectedRecordType),
    }
}

/// Finds the form of a segment, given what type the registry found.
pub fn find_segment(
    found: Result<RecordType, EnvelopeError>,
    attempts: SegmentAttempts,
) -> (result: Result<(SegmentForm, usize), DurableCodecError>)
    ensures
        match found_segment(found, attempts) {
            Err(kind) => result == Err::<(SegmentForm, usize), _>(DurableCodecError { kind }),
            Ok(form) => result == Ok::<(SegmentForm, usize), DurableCodecError>(form),
        },
{
    let accepted: [RecordType; 5] = [
        RecordType::StoredCommandSegmentV5,
        RecordType::StoredCommandSegmentV4,
        RecordType::StoredCommandSegmentV3,
        RecordType::StoredCommandSegmentV2,
        RecordType::StoredCommandSegmentV1,
    ];
    proof {
        reveal_with_fuel(place_of, 6);
    }
    let place = decode_record_variant_chain(found, accepted.as_slice())?;
    match place {
        0 => {
            let encoded_len = attempts.v5.encoded_len;
            let message = read_message(RecordType::StoredCommandSegmentV5, attempts.v5)?;
            Ok((SegmentForm::V5(message), encoded_len))
        },
        1 => {
            let encoded_len = attempts.v4.encoded_len;
            let message = read_message(RecordType::StoredCommandSegmentV4, attempts.v4)?;
            Ok((SegmentForm::V4(message), encoded_len))
        },
        2 => {
            let encoded_len = attempts.v3.encoded_len;
            let message = read_message(RecordType::StoredCommandSegmentV3, attempts.v3)?;
            Ok((SegmentForm::V3(message), encoded_len))
        },
        3 => {
            let encoded_len = attempts.v2.encoded_len;
            let message = read_message(RecordType::StoredCommandSegmentV2, attempts.v2)?;
            Ok((SegmentForm::V2(message), encoded_len))
        },
        _ => {
            let encoded_len = attempts.v1.encoded_len;
            let message = read_message(RecordType::StoredCommandSegmentV1, attempts.v1)?;
            Ok((SegmentForm::V1(message), encoded_len))
        },
    }
}

/// Decodes one complete segment, given the form that was found and the digests of
/// its canonical bytes.
pub fn decode_segment_under(
    form: &SegmentForm,
    encoded_len: usize,
    digests: SegmentDigests,
    no_service_values: &CanonicalRecord,
    command_verdicts: &[CapsuleVerdicts],
    verdicts: SegmentVerdicts,
) -> (result: Result<EncodedPageItem<StoredCommandSegmentV1>, DurableCodecError>)
    requires
        segment_parts(*form) is Some ==> command_verdicts@.len() == segment_parts(
            *form,
        )->Some_0.forms.len(),
    ensures
        exists|read: Result<StoredCommandSegmentV1, DurableCodecError>| #[trigger]
            form_outcome(*form, digests, command_verdicts@, verdicts, no_service_values@, read)
                && match read {
                Err(error) => result == Err::<EncodedPageItem<StoredCommandSegmentV1>, _>(error),
                Ok(segment) => if encoded_len == 0 {
                    result is Err && is_corrupt(result->Err_0)
                } else {
                    result is Ok && result->Ok_0.value == segment && result->Ok_0.charge.bytes
                        == encoded_len
                },
            },
{
    let read = segment_from_form(form, digests, no_service_values, command_verdicts, verdicts);
    assert(form_outcome(*form, digests, command_verdicts@, verdicts, no_service_values@, read));
    match read {
        Err(error) => Err(error),
        Ok(segment) => charged(segment, encoded_len),
    }
}

/// A segment in its least-sufficient form, to be framed.
pub enum OutgoingSegment {
    V3(OutgoingRecord<wire::CommandSegment<wire::StoredCommandCapsuleV4>>),
    V4(OutgoingRecord<wire::CommandSegment<wire::StoredCommandCapsuleV5>>),
    V5(OutgoingRecord<wire::CommandSegment<wire::StoredCommandCapsuleV6>>),
}

/// Whether capsules are the forms of commands, one by one.
pub open spec fn forms_carry(forms: Seq<CapsuleForm>, commands: Seq<CompleteCommandView>) -> bool {
    &&& forms.len() == commands.len()
    &&& forall|i: int| 0 <= i < forms.len() ==> form_carries(#[trigger] forms[i], commands[i])
}

/// Whether a segment in its form is a segment with its digests.
pub open spec fn segment_carries(
    parts: SegmentParts,
    segment: CommandSegmentView,
    digests: SegmentDigests,
) -> bool {
    &&& frame_carries(parts.frame, segment, digests.manifest)
    &&& forms_carry(parts.forms, segment.commands)
    &&& parts.segment_digest == digests.segment.bytes@
}

/// Every command has one policy anchor, or none, for each event.
pub open spec fn all_anchors_fit(commands: Seq<CompleteCommandView>) -> bool {
    forall|i: int| 0 <= i < commands.len() ==> (#[trigger] commands[i]).anchors_fit()
}

fn capsules_v4_to_proto(commands: &[StoredCommandCapsuleV2]) -> (result: Vec<
    wire::StoredCommandCapsuleV4,
>)
    ensures
        forms_carry(forms_v4(result@), command_views(commands@)),
{
    let mut result: Vec<wire::StoredCommandCapsuleV4> = Vec::new();
    let mut i: usize = 0;
    while i < commands.len()
        invariant
            i <= commands@.len(),
            result@.len() == i,
            forall|k: int| 0 <= k < i ==> v4_carries(#[trigger] result@[k], commands@[k]@),
        decreases commands@.len() - i,
    {
        result.push(capsule_v4_to_proto(&commands[i]));
        i += 1;
    }
    assert forall|k: int| 0 <= k < forms_v4(result@).len() implies form_carries(
        #[trigger] forms_v4(result@)[k],
        command_views(commands@)[k],
    ) by {
        assert(v4_carries(result@[k], commands@[k]@));
    }
    result
}

fn capsules_v5_to_proto(commands: &[StoredCommandCapsuleV2]) -> (result: Vec<
    wire::StoredCommandCapsuleV5,
>)
    requires
        all_anchors_fit(command_views(commands@)),
    ensures
        forms_carry(forms_v5(result@), command_views(commands@)),
{
    let mut result: Vec<wire::StoredCommandCapsuleV5> = Vec::new();
    let mut i: usize = 0;
    while i < commands.len()
        invariant
            i <= commands@.len(),
            all_anchors_fit(command_views(commands@)),
            result@.len() == i,
            forall|k: int| 0 <= k < i ==> v5_carries(#[trigger] result@[k], commands@[k]@),
        decreases commands@.len() - i,
    {
        assert(command_views(commands@)[i as int].anchors_fit());
        result.push(capsule_v5_to_proto(&commands[i]));
        i += 1;
    }
    assert forall|k: int| 0 <= k < forms_v5(result@).len() implies form_carries(
        #[trigger] forms_v5(result@)[k],
        command_views(commands@)[k],
    ) by {
        assert(v5_carries(result@[k], commands@[k]@));
    }
    result
}

fn capsules_v6_to_proto(commands: &[StoredCommandCapsuleV2]) -> (result: Vec<
    wire::StoredCommandCapsuleV6,
>)
    requires
        all_anchors_fit(command_views(commands@)),
    ensures
        forms_carry(forms_v6(result@), command_views(commands@)),
{
    let mut result: Vec<wire::StoredCommandCapsuleV6> = Vec::new();
    let mut i: usize = 0;
    while i < commands.len()
        invariant
            i <= commands@.len(),
            all_anchors_fit(command_views(commands@)),
            result@.len() == i,
            forall|k: int| 0 <= k < i ==> v6_carries(#[trigger] result@[k], commands@[k]@),
        decreases commands@.len() - i,
    {
        assert(command_views(commands@)[i as int].anchors_fit());
        result.push(capsule_v6_to_proto(&commands[i]));
        i += 1;
    }
    assert forall|k: int| 0 <= k < forms_v6(result@).len() implies form_carries(
        #[trigger] forms_v6(result@)[k],
        command_views(commands@)[k],
    ) by {
        assert(v6_carries(result@[k], commands@[k]@));
    }
    result
}

/// The form of an outgoing segment and its record type.
pub open spec fn outgoing_form(outgoing: OutgoingSegment) -> (RecordType, SegmentForm) {
    match outgoing {
        OutgoingSegment::V3(record) => (record.record_type, SegmentForm::V3(record.message)),
        OutgoingSegment::V4(record) => (record.record_type, SegmentForm::V4(record.message)),
        OutgoingSegment::V5(record) => (record.record_type, SegmentForm::V5(record.message)),
    }
}

/// The record type of a segment of a version.
pub open spec fn segment_record_type(version: CommandCapsuleWireVersionV1) -> RecordType {
    match version {
        CommandCapsuleWireVersionV1::V4 => RecordType::StoredCommandSegmentV3,
        CommandCapsuleWireVersionV1::V5 => RecordType::StoredCommandSegmentV4,
        CommandCapsuleWireVersionV1::V6 => RecordType::StoredCommandSegmentV5,
    }
}

/// Returns the record type of a segment of a version.
pub fn record_type_of_segment(version: CommandCapsuleWireVersionV1) -> (result: RecordType)
    ensures
        result == segment_record_type(version),
{
    match version {
        CommandCapsuleWireVersionV1::V4 => RecordType::StoredCommandSegmentV3,
        CommandCapsuleWireVersionV1::V5 => RecordType::StoredCommandSegmentV4,
        CommandCapsuleWireVersionV1::V6 => RecordType::StoredCommandSegmentV5,
    }
}

/// Encodes one segment whose own digest is that of its canonical body, given the
/// digests of its canonical bytes.
pub fn encode_segment_under(
    value: &StoredCommandSegmentV1,
    digests: SegmentDigests,
) -> (result: Result<OutgoingSegment, DurableCodecError>)
    requires
        value@.wf(),
        all_anchors_fit(value@.commands),
    ensures
        if value@.segment_digest != digests.segment {
            result is Err && is_corrupt(result->Err_0)
        } else {
            &&& result is Ok
            &&& outgoing_form(result->Ok_0).0 == segment_record_type(
                segment_version(value@.commands),
            )
            &&& form_of_version(
                outgoing_form(result->Ok_0).1,
                segment_version(value@.commands),
            )
            &&& (segment_parts(outgoing_form(result->Ok_0).1) matches Some(parts)
                && segment_carries(parts, value@, digests))
        },
{
    if !digests.segment.same(&value.segment_digest) {
        return Err(DurableCodecError::corrupt());
    }
    let frame = frame_to_proto(value, digests.manifest);
    let segment_digest = copy_bytes(digests.segment.bytes.as_slice());
    match command_segment_wire_version_v1(&value.commands) {
        CommandCapsuleWireVersionV1::V4 => {
            let commands = capsules_v4_to_proto(&value.commands);
            Ok(
                OutgoingSegment::V3(
                    OutgoingRecord {
                        record_type: RecordType::StoredCommandSegmentV3,
                        message: wire::CommandSegment {
                            body: Some(wire::CommandSegmentBody { frame, commands }),
                            segment_digest,
                        },
                    },
                ),
            )
        },
        CommandCapsuleWireVersionV1::V5 => {
            let commands = capsules_v5_to_proto(&value.commands);
            Ok(
                OutgoingSegment::V4(
                    OutgoingRecord {
                        record_type: RecordType::StoredCommandSegmentV4,
                        message: wire::CommandSegment {
                            body: Some(wire::CommandSegmentBody { frame, commands }),
                            segment_digest,
                        },
                    },
                ),
            )
        },
        CommandCapsuleWireVersionV1::V6 => {
            let commands = capsules_v6_to_proto(&value.commands);
            Ok(
                OutgoingSegment::V5(
                    OutgoingRecord {
                        record_type: RecordType::StoredCommandSegmentV5,
                        message: wire::CommandSegment {
                            body: Some(wire::CommandSegmentBody { frame, commands }),
                            segment_digest,
                        },
                    },
                ),
            )
        },
    }
}

/// Fixed-cardinality byte evidence produced while sealing one command segment.
#[derive(Clone, Copy, Debug, PartialEq, Eq, Structural)]
pub struct CommandSegmentEncodingMetricsV1 {
    pub raw_envelope_bytes: usize,
    pub selected_envelope_bytes: usize,
}

impl CommandSegmentEncodingMetricsV1 {
    /// Complete current-record bytes before the deterministic compact choice.
    pub fn raw_envelope_bytes(self) -> (result: usize)
        ensures
            result == self.raw_envelope_bytes,
    {
        self.raw_envelope_bytes
    }

    /// Complete selected current-or-successor record bytes.
    pub fn selected_envelope_bytes(self) -> (result: usize)
        ensures
            result == self.selected_envelope_bytes,
    {
        self.selected_envelope_bytes
    }
}

/// A segment that was sealed: the segment under its digest, its envelope and the
/// bytes that it takes.
#[derive(PartialEq, Eq)]
pub struct SealedSegment {
    pub segment: StoredCommandSegmentV1,
    pub envelope: CanonicalStoredEnvelopeV1,
    pub metrics: CommandSegmentEncodingMetricsV1,
}

/// What sealing a segment comes to, given its digest and what framing its message
/// gave.
pub open spec fn seal_outcome(
    segment: CommandSegmentView,
    digest: Digest,
    framed: Result<Vec<u8>, EnvelopeError>,
    result: Result<SealedSegment, DurableCodecError>,
) -> bool {
    match framed {
        Err(error) => result == Err::<SealedSegment, _>(
            DurableCodecError { kind: frame_failure(error) },
        ),
        Ok(bytes) => if bytes@.len() == 0 {
            result == Err::<SealedSegment, _>(
                DurableCodecError { kind: DurableCodecErrorKind::InvariantViolation },
            )
        } else {
            &&& result is Ok
            &&& result->Ok_0.segment@ == (CommandSegmentView { segment_digest: digest, ..segment })
            &&& result->Ok_0.envelope.bytes@ == bytes@
            &&& result->Ok_0.envelope.wf()
            &&& result->Ok_0.metrics.raw_envelope_bytes == bytes@.len()
            &&& result->Ok_0.metrics.selected_envelope_bytes == bytes@.len()
        },
    }
}

/// What is to be framed for a segment: its record type and its message's bytes.
#[derive(Debug, PartialEq, Eq)]
pub struct SegmentPayload {
    pub record_type: RecordType,
    pub bytes: Vec<u8>,
}

/// The message of a segment, streamed, given the digest of its body.
pub fn command_segment_payload_v1(
    value: &StoredCommandSegmentV1,
    encodings: &[CommandEncodings],
    digests: SegmentDigests,
) -> (result: SegmentPayload)
    requires
        value@.wf(),
        encodings_fit(encoding_views(encodings@), value@.commands),
    ensures
        result.record_type == segment_record_type(segment_version(value@.commands)),
        result.bytes@ == segment_payload_bytes(
            segment_body_bytes(value@, encoding_views(encodings@), digests.manifest),
            digests.segment,
        ),
{
    let version = command_segment_wire_version_v1(&value.commands);
    let body = segment_body_bytes_for_seal(value, encodings, digests.manifest);
    SegmentPayload {
        record_type: record_type_of_segment(version),
        bytes: raw_segment_payload(&body, digests.segment),
    }
}

/// Seals one segment under the digest of its body, given what framing its message
/// gave, and returns bounded representation-size evidence.
pub fn seal_segment_under(
    value: StoredCommandSegmentV1,
    digest: Digest,
    framed: Result<Vec<u8>, EnvelopeError>,
) -> (result: Result<SealedSegment, DurableCodecError>)
    ensures
        seal_outcome(value@, digest, framed, result),
{
    let segment = value.with_segment_digest(digest);
    let envelope = seal_envelope(framed)?;
    let bytes = envelope.bytes.len();
    Ok(
        SealedSegment {
            segment,
            envelope,
            metrics: CommandSegmentEncodingMetricsV1 {
                raw_envelope_bytes: bytes,
                selected_envelope_bytes: bytes,
            },
        },
    )
}

/// The message of a segment of prepared members, given the digest of its body.
pub fn prepared_segment_payload_v1(
    value: &StoredCommandSegmentV1,
    prepared: &[PreparedCommandSegmentCapsuleV1],
    digests: SegmentDigests,
) -> (result: Result<SegmentPayload, DurableCodecError>)
    requires
        value@.wf(),
    ensures
        if prepared_fit(value@, prepared@) {
            &&& result is Ok
            &&& result->Ok_0.record_type == segment_record_type(segment_version(value@.commands))
            &&& result->Ok_0.bytes@ == segment_payload_bytes(
                body_bytes(value@, prepared_bytes(prepared@), digests.manifest),
                digests.segment,
            )
        } else {
            result == Err::<SegmentPayload, _>(
                DurableCodecError { kind: DurableCodecErrorKind::InvariantViolation },
            )
        },
{
    let (body, version) = segment_body_bytes_with_prepared_capsules(
        value,
        prepared,
        digests.manifest,
    )?;
    Ok(
        SegmentPayload {
            record_type: record_type_of_segment(version),
            bytes: raw_segment_payload(&body, digests.segment),
        },
    )
}

/// Whether a message holds everything of a checkpoint but its digest.
pub open spec fn undigested_checkpoint_carries(
    message: wire::StoredCommandDerivedIndexCheckpointV1,
    value: DerivedCheckpointView,
) -> bool {
    &&& identifier_carries(message.database_id, value.database_id)
    &&& message.history_incarnation == value.history_incarnation
    &&& message.registry_digest@ == value.registry_digest.bytes@
    &&& message.segment_frontier == value.segment_frontier.value
    &&& message.segment_root_digest@ == value.segment_root_digest.bytes@
    &&& manifest_entry_list_carries(message.entries@, value.entries)
    &&& message.checkpoint_digest@.len() == 0
}

/// Whether a digest is that of the canonical bytes of a checkpoint's message without
/// a digest.
pub open spec fn checkpoint_hashes_to<
    E: Fn(&wire::StoredCommandDerivedIndexCheckpointV1) -> Vec<u8>,
    H: Fn(Vec<u8>) -> Digest,
>(
    encode: E,
    hash: H,
    message: wire::StoredCommandDerivedIndexCheckpointV1,
    digest: Digest,
) -> bool {
    exists|bytes: Vec<u8>| #[trigger]
        encode.ensures((&message,), bytes) && hashes_to(
            hash,
            CHECKPOINT_DIGEST_LABEL@,
            bytes@,
            digest,
        )
}

/// Whether a digest is the canonical one of a checkpoint.
pub open spec fn checkpoint_digest_of<
    E: Fn(&wire::StoredCommandDerivedIndexCheckpointV1) -> Vec<u8>,
    H: Fn(Vec<u8>) -> Digest,
>(encode: E, hash: H, value: DerivedCheckpointView, digest: Digest) -> bool {
    exists|message: wire::StoredCommandDerivedIndexCheckpointV1|
        undigested_checkpoint_carries(message, value) && #[trigger] checkpoint_hashes_to(
            encode,
            hash,
            message,
            digest,
        )
}

fn hash_checkpoint_message<
    E: Fn(&wire::StoredCommandDerivedIndexCheckpointV1) -> Vec<u8>,
    H: Fn(Vec<u8>) -> Digest,
>(
    message: &wire::StoredCommandDerivedIndexCheckpointV1,
    encode: E,
    hash: H,
) -> (result: Digest)
    requires
        forall|message: &wire::StoredCommandDerivedIndexCheckpointV1| #[trigger]
            encode.requires((message,)),
        forall|preimage: Vec<u8>| #[trigger] hash.requires((preimage,)),
    ensures
        checkpoint_hashes_to(encode, hash, *message, result),
{
    let bytes = encode(message);
    assert(encode.ensures((message,), bytes));
    let preimage = checkpoint_digest_preimage(&bytes);
    let digest = hash(preimage);
    assert(hash.ensures((preimage,), digest));
    digest
}

/// Computes the canonical digest of a structurally checked derived checkpoint with
/// the command document hash: that of its message without a digest, encoded.
pub fn command_derived_index_checkpoint_digest_v1<
    E: Fn(&wire::StoredCommandDerivedIndexCheckpointV1) -> Vec<u8>,
    H: Fn(Vec<u8>) -> Digest,
>(value: &StoredCommandDerivedIndexCheckpointV1, encode: E, hash: H) -> (result: Digest)
    requires
        forall|message: &wire::StoredCommandDerivedIndexCheckpointV1| #[trigger]
            encode.requires((message,)),
        forall|preimage: Vec<u8>| #[trigger] hash.requires((preimage,)),
    ensures
        checkpoint_digest_of(encode, hash, value@, result),
{
    let mut message = checkpoint_to_proto(value);
    message.checkpoint_digest = Vec::new();
    hash_checkpoint_message(&message, encode, hash)
}

/// What encoding a checkpoint under its canonical digest comes to: a checkpoint that
/// holds another digest is corrupt.
pub open spec fn checkpoint_encoded(
    value: DerivedCheckpointView,
    computed: Digest,
    result: Result<OutgoingRecord<wire::StoredCommandDerivedIndexCheckpointV1>, DurableCodecError>,
) -> bool {
    if value.checkpoint_digest != computed {
        result is Err && is_corrupt(result->Err_0)
    } else {
        result is Ok && result->Ok_0.record_type
            == RecordType::StoredCommandDerivedIndexCheckpointV1 && checkpoint_carries(
            result->Ok_0.message,
            value,
        )
    }
}

/// Encodes a derived checkpoint after proving its digest binding.
pub fn encode_command_derived_index_checkpoint_v1<
    E: Fn(&wire::StoredCommandDerivedIndexCheckpointV1) -> Vec<u8>,
    H: Fn(Vec<u8>) -> Digest,
>(value: &StoredCommandDerivedIndexCheckpointV1, encode: E, hash: H) -> (result: Result<
    OutgoingRecord<wire::StoredCommandDerivedIndexCheckpointV1>,
    DurableCodecError,
>)
    requires
        forall|message: &wire::StoredCommandDerivedIndexCheckpointV1| #[trigger]
            encode.requires((message,)),
        forall|preimage: Vec<u8>| #[trigger] hash.requires((preimage,)),
    ensures
        exists|computed: Digest| #[trigger]
            checkpoint_digest_of(encode, hash, value@, computed) && checkpoint_encoded(
                value@,
                computed,
                result,
            ),
{
    let computed = command_derived_index_checkpoint_digest_v1(value, encode, hash);
    assert(checkpoint_digest_of(encode, hash, value@, computed));
    if !computed.same(&value.checkpoint_digest) {
        return Err(DurableCodecError::corrupt());
    }
    Ok(
        OutgoingRecord {
            record_type: RecordType::StoredCommandDerivedIndexCheckpointV1,
            message: checkpoint_to_proto(value),
        },
    )
}

/// Two checkpoints that are equal but for their digest have one canonical digest, for
/// an encoding and a hash that give one result for equal contents, and whichever of
/// them holds another digest is not encoded.
pub proof fn checkpoint_digests_ignore_the_stored_one<
    E: Fn(&wire::StoredCommandDerivedIndexCheckpointV1) -> Vec<u8>,
    H: Fn(Vec<u8>) -> Digest,
>(
    encode: E,
    hash: H,
    a: DerivedCheckpointView,
    b: DerivedCheckpointView,
    digest_a: Digest,
    digest_b: Digest,
    encoded: Result<
        OutgoingRecord<wire::StoredCommandDerivedIndexCheckpointV1>,
        DurableCodecError,
    >,
)
    requires
        b == (DerivedCheckpointView { checkpoint_digest: b.checkpoint_digest, ..a }),
        forall|
            value: DerivedCheckpointView,
            left: wire::StoredCommandDerivedIndexCheckpointV1,
            right: wire::StoredCommandDerivedIndexCheckpointV1,
            left_bytes: Vec<u8>,
            right_bytes: Vec<u8>,
        |
            #[trigger] undigested_checkpoint_carries(left, value)
                && #[trigger] undigested_checkpoint_carries(right, value)
                && #[trigger] encode.ensures((&left,), left_bytes) && #[trigger] encode.ensures(
                (&right,),
                right_bytes,
            ) ==> left_bytes@ == right_bytes@,
        hash_is_function(hash),
        checkpoint_digest_of(encode, hash, a, digest_a),
        checkpoint_digest_of(encode, hash, b, digest_b),
        checkpoint_encoded(b, digest_b, encoded),
    ensures
        digest_a == digest_b,
        b.checkpoint_digest != digest_a ==> encoded is Err && is_corrupt(encoded->Err_0),
        b.checkpoint_digest == digest_a ==> encoded is Ok,
{
    let left = choose|message: wire::StoredCommandDerivedIndexCheckpointV1|
        undigested_checkpoint_carries(message, a) && #[trigger] checkpoint_hashes_to(
            encode,
            hash,
            message,
            digest_a,
        );
    let right = choose|message: wire::StoredCommandDerivedIndexCheckpointV1|
        undigested_checkpoint_carries(message, b) && #[trigger] checkpoint_hashes_to(
            encode,
            hash,
            message,
            digest_b,
        );
    assert(undigested_checkpoint_carries(right, a));
    let left_bytes = choose|bytes: Vec<u8>| #[trigger]
        encode.ensures((&left,), bytes) && hashes_to(
            hash,
            CHECKPOINT_DIGEST_LABEL@,
            bytes@,
            digest_a,
        );
    let right_bytes = choose|bytes: Vec<u8>| #[trigger]
        encode.ensures((&right,), bytes) && hashes_to(
            hash,
            CHECKPOINT_DIGEST_LABEL@,
            bytes@,
            digest_b,
        );
    assert(left_bytes@ == right_bytes@);
}

/// Whether a message is the form of some valid checkpoint.
pub open spec fn checkpoint_readable(
    message: wire::StoredCommandDerivedIndexCheckpointV1,
) -> bool {
    exists|value: DerivedCheckpointView| #[trigger]
        checkpoint_carries(message, value) && checkpoint_valid(value)
}

/// Whether two messages are equal but for their digest, which the second one lacks.
pub open spec fn undigested(
    message: wire::StoredCommandDerivedIndexCheckpointV1,
    bare: wire::StoredCommandDerivedIndexCheckpointV1,
) -> bool {
    &&& bare == (wire::StoredCommandDerivedIndexCheckpointV1 {
        checkpoint_digest: bare.checkpoint_digest,
        ..message
    })
    &&& bare.checkpoint_digest@.len() == 0
}

/// What a checkpoint's message comes to under the digest of its bytes without one.
pub open spec fn checkpoint_decoded<
    R: Fn(&StoredCommandDerivedIndexCheckpointV1) -> Option<StorageValueError>,
>(
    message: wire::StoredCommandDerivedIndexCheckpointV1,
    computed: Digest,
    rule: R,
    encoded_len: usize,
    result: Result<EncodedPageItem<StoredCommandDerivedIndexCheckpointV1>, DurableCodecError>,
) -> bool {
    if message.checkpoint_digest@ == computed.bytes@ && checkpoint_readable(message) {
        exists|value: StoredCommandDerivedIndexCheckpointV1|
            checkpoint_carries(message, value@) && checkpoint_valid(value@)
                && value@.checkpoint_digest == computed && #[trigger] ruled(
                rule,
                value,
                encoded_len,
                result,
            )
    } else {
        result == Err::<EncodedPageItem<StoredCommandDerivedIndexCheckpointV1>, _>(
            DurableCodecError { kind: DurableCodecErrorKind::CorruptData },
        )
    }
}

/// Decodes and verifies one replaceable exact-index checkpoint: its digest has to be
/// that of its message without one, encoded.
pub fn decode_command_derived_index_checkpoint_v1<
    E: Fn(&wire::StoredCommandDerivedIndexCheckpointV1) -> Vec<u8>,
    H: Fn(Vec<u8>) -> Digest,
    R: Fn(&StoredCommandDerivedIndexCheckpointV1) -> Option<StorageValueError>,
>(
    attempt: ReadAttempt<wire::StoredCommandDerivedIndexCheckpointV1>,
    encode: E,
    hash: H,
    rule: R,
) -> (result: Result<EncodedPageItem<StoredCommandDerivedIndexCheckpointV1>, DurableCodecError>)
    requires
        forall|message: &wire::StoredCommandDerivedIndexCheckpointV1| #[trigger]
            encode.requires((message,)),
        forall|preimage: Vec<u8>| #[trigger] hash.requires((preimage,)),
        forall|value: &StoredCommandDerivedIndexCheckpointV1| #[trigger] rule.requires((value,)),
    ensures
        match read_outcome(RecordType::StoredCommandDerivedIndexCheckpointV1, attempt) {
            Err(kind) => result == Err::<
                EncodedPageItem<StoredCommandDerivedIndexCheckpointV1>,
                DurableCodecError,
            >(DurableCodecError { kind }),
            Ok(message) => exists|
                bare: wire::StoredCommandDerivedIndexCheckpointV1,
                computed: Digest,
            |
                undigested(message, bare) && #[trigger] checkpoint_hashes_to(
                    encode,
                    hash,
                    bare,
                    computed,
                ) && checkpoint_decoded(message, computed, rule, attempt.encoded_len, result),
        },
{
    let encoded_len = attempt.encoded_len;
    let message = read_message(RecordType::StoredCommandDerivedIndexCheckpointV1, attempt)?;
    let supplied = copy_bytes(&message.checkpoint_digest);
    let value = checkpoint_from_proto(&message);
    let mut bare = message;
    bare.checkpoint_digest = Vec::new();
    let computed = hash_checkpoint_message(&bare, encode, hash);
    proof {
        assert(undigested(message, bare));
        assert(checkpoint_hashes_to(encode, hash, bare, computed));
    }
    if !same_bytes(&supplied, computed.bytes.as_slice()) {
        return Err(DurableCodecError::corrupt());
    }
    let value = value?;
    proof {
        assert(checkpoint_carries(message, value@));
        assert(value@.checkpoint_digest.bytes =~= computed.bytes);
    }
    ruled_item(value, rule, encoded_len)
}

/// A segment's form holds at most one segment under given digests, so a segment
/// that is written comes back as it was.
pub proof fn segment_round_trip(
    parts: SegmentParts,
    digests: SegmentDigests,
    no_service_values: CanonicalRecordView,
    command_verdicts: Seq<CapsuleVerdicts>,
    written: CommandSegmentView,
    read: CommandSegmentView,
)
    requires
        segment_carries(parts, written, digests),
        segment_carries(parts, read, digests),
        written.segment_digest == digests.segment,
        read.segment_digest == digests.segment,
        forall|i: int|
            0 <= i < written.commands.len() ==> command_read(
                #[trigger] parts.forms[i],
                command_verdicts[i],
                no_service_values,
                written.commands[i],
            ) && command_read(
                parts.forms[i],
                command_verdicts[i],
                no_service_values,
                read.commands[i],
            ),
    ensures
        read == written,
{
    assert forall|i: int| 0 <= i < written.commands.len() implies written.commands[i]
        == read.commands[i] by {
        assert(command_read(
            parts.forms[i],
            command_verdicts[i],
            no_service_values,
            written.commands[i],
        ));
        complete_command_round_trip(
            parts.forms[i],
            no_service_values,
            written.commands[i],
            read.commands[i],
        );
    }
    assert(written.commands =~= read.commands);
    manifest_entry_list_form_is_exact(
        parts.frame.manifest->Some_0.entries@,
        written.manifest,
        read.manifest,
    );
    assert(written.database_id.bytes =~= read.database_id.bytes);
    match (written.predecessor, read.predecessor) {
        (Some(a), Some(b)) => {
            assert(a.bytes =~= b.bytes);
        },
        _ => {},
    }
    assert(written =~= read);
}

/// Computes the canonical digest of a structurally checked segment with the command
/// document hash: the manifest's digest goes into the body that the segment's digest
/// is taken of.
pub fn command_segment_digest_v1<H: Fn(Vec<u8>) -> Digest>(
    value: &StoredCommandSegmentV1,
    encodings: &[CommandEncodings],
    hash: H,
) -> (result: SegmentDigests)
    requires
        value@.wf(),
        encodings_fit(encoding_views(encodings@), value@.commands),
        forall|preimage: Vec<u8>| #[trigger] hash.requires((preimage,)),
    ensures
        segment_hashes_to(hash, value@, encoding_views(encodings@), result),
{
    let manifest_preimage = manifest_digest_preimage(&value.manifest);
    let manifest = hash(manifest_preimage);
    assert(hash.ensures((manifest_preimage,), manifest));
    let body = segment_body_bytes_for_seal(value, encodings, manifest);
    let segment_preimage = segment_digest_preimage(&body);
    let segment = hash(segment_preimage);
    assert(hash.ensures((segment_preimage,), segment));
    SegmentDigests { segment, manifest }
}

/// Whether digests are those of a segment: its manifest's, and that of the body
/// which holds it.
pub open spec fn segment_hashes_to<H: Fn(Vec<u8>) -> Digest>(
    hash: H,
    segment: CommandSegmentView,
    encodings: Seq<CommandEncodingsView>,
    digests: SegmentDigests,
) -> bool {
    &&& hashes_to(hash, MANIFEST_DIGEST_LABEL@, entries_bytes(segment.manifest), digests.manifest)
    &&& hashes_to(
        hash,
        SEGMENT_DIGEST_LABEL@,
        segment_body_bytes(segment, encodings, digests.manifest),
        digests.segment,
    )
}

/// Whether digests are those of a segment of given members: its manifest's, and
/// that of the body which holds it.
pub open spec fn members_hash_to<H: Fn(Vec<u8>) -> Digest>(
    hash: H,
    segment: CommandSegmentView,
    members: Seq<Seq<u8>>,
    digests: SegmentDigests,
) -> bool {
    &&& hashes_to(hash, MANIFEST_DIGEST_LABEL@, entries_bytes(segment.manifest), digests.manifest)
    &&& hashes_to(
        hash,
        SEGMENT_DIGEST_LABEL@,
        body_bytes(segment, members, digests.manifest),
        digests.segment,
    )
}

/// What sealing a segment comes to: its body is streamed, hashed, joined to its digest
/// and framed.
pub open spec fn sealed<
    H: Fn(Vec<u8>) -> Digest,
    F: Fn(RecordType, Vec<u8>) -> Result<Vec<u8>, EnvelopeError>,
>(
    hash: H,
    frame: F,
    segment: CommandSegmentView,
    encodings: Seq<CommandEncodingsView>,
    result: Result<SealedSegment, DurableCodecError>,
) -> bool {
    exists|digests: SegmentDigests, framed: Result<Vec<u8>, EnvelopeError>|
        segment_hashes_to(hash, segment, encodings, digests) && #[trigger] frames_to(
            frame,
            segment_record_type(segment_version(segment.commands)),
            segment_payload_bytes(
                segment_body_bytes(segment, encodings, digests.manifest),
                digests.segment,
            ),
            framed,
        ) && seal_outcome(segment, digests.segment, framed, result)
}

/// Seals one segment and also returns bounded representation-size evidence: the
/// body is streamed, hashed, joined to its digest and framed.
pub fn seal_and_encode_command_segment_with_metrics_v1<
    H: Fn(Vec<u8>) -> Digest,
    F: Fn(RecordType, Vec<u8>) -> Result<Vec<u8>, EnvelopeError>,
>(
    value: StoredCommandSegmentV1,
    encodings: &[CommandEncodings],
    hash: H,
    frame: F,
) -> (result: Result<SealedSegment, DurableCodecError>)
    requires
        value@.wf(),
        encodings_fit(encoding_views(encodings@), value@.commands),
        forall|preimage: Vec<u8>| #[trigger] hash.requires((preimage,)),
        forall|record_type: RecordType, payload: Vec<u8>| #[trigger]
            frame.requires((record_type, payload)),
    ensures
        sealed(hash, frame, value@, encoding_views(encodings@), result),
{
    let digests = command_segment_digest_v1(&value, encodings, hash);
    let payload = command_segment_payload_v1(&value, encodings, digests);
    let record_type = payload.record_type;
    let bytes = payload.bytes;
    let framed = frame(record_type, bytes);
    proof {
        assert(frame.ensures((record_type, bytes), framed));
        assert(frames_to(
            frame,
            segment_record_type(segment_version(value@.commands)),
            segment_payload_bytes(
                segment_body_bytes(value@, encoding_views(encodings@), digests.manifest),
                digests.segment,
            ),
            framed,
        ));
    }
    seal_segment_under(value, digests.segment, framed)
}

/// What sealing a segment comes to where its evidence is not asked for.
pub open spec fn sealed_pair<
    H: Fn(Vec<u8>) -> Digest,
    F: Fn(RecordType, Vec<u8>) -> Result<Vec<u8>, EnvelopeError>,
>(
    hash: H,
    frame: F,
    segment: CommandSegmentView,
    encodings: Seq<CommandEncodingsView>,
    result: Result<(StoredCommandSegmentV1, CanonicalStoredEnvelopeV1), DurableCodecError>,
) -> bool {
    exists|whole: Result<SealedSegment, DurableCodecError>| #[trigger]
        sealed(hash, frame, segment, encodings, whole) && result == match whole {
            Err(error) => Err(error),
            Ok(whole) => Ok((whole.segment, whole.envelope)),
        }
}

/// Seals one structurally checked segment and returns its canonical bytes from the
/// same body that the segment digest is taken of.
pub fn seal_and_encode_command_segment_v1<
    H: Fn(Vec<u8>) -> Digest,
    F: Fn(RecordType, Vec<u8>) -> Result<Vec<u8>, EnvelopeError>,
>(
    value: StoredCommandSegmentV1,
    encodings: &[CommandEncodings],
    hash: H,
    frame: F,
) -> (result: Result<(StoredCommandSegmentV1, CanonicalStoredEnvelopeV1), DurableCodecError>)
    requires
        value@.wf(),
        encodings_fit(encoding_views(encodings@), value@.commands),
        forall|preimage: Vec<u8>| #[trigger] hash.requires((preimage,)),
        forall|record_type: RecordType, payload: Vec<u8>| #[trigger]
            frame.requires((record_type, payload)),
    ensures
        sealed_pair(hash, frame, value@, encoding_views(encodings@), result),
{
    let whole = seal_and_encode_command_segment_with_metrics_v1(value, encodings, hash, frame);
    assert(sealed(hash, frame, value@, encoding_views(encodings@), whole));
    match whole {
        Err(error) => Err(error),
        Ok(whole) => Ok((whole.segment, whole.envelope)),
    }
}

/// Seals a segment from checked, already canonical command-member bytes.
///
/// Each prepared member is joined to the retained command by exact place, commit
/// sequence and the segment-wide variant. A stale, reordered, incomplete or
/// wrong-variant preparation fails before any durable bytes are made.
pub fn seal_and_encode_command_segment_with_prepared_capsules_v1<
    H: Fn(Vec<u8>) -> Digest,
    F: Fn(RecordType, Vec<u8>) -> Result<Vec<u8>, EnvelopeError>,
>(
    value: StoredCommandSegmentV1,
    prepared: &[PreparedCommandSegmentCapsuleV1],
    hash: H,
    frame: F,
) -> (result: Result<SealedSegment, DurableCodecError>)
    requires
        value@.wf(),
        forall|preimage: Vec<u8>| #[trigger] hash.requires((preimage,)),
        forall|record_type: RecordType, payload: Vec<u8>| #[trigger]
            frame.requires((record_type, payload)),
    ensures
        if prepared_fit(value@, prepared@) {
            exists|digests: SegmentDigests, framed: Result<Vec<u8>, EnvelopeError>|
                members_hash_to(hash, value@, prepared_bytes(prepared@), digests)
                    && #[trigger] frames_to(
                    frame,
                    segment_record_type(segment_version(value@.commands)),
                    segment_payload_bytes(
                        body_bytes(value@, prepared_bytes(prepared@), digests.manifest),
                        digests.segment,
                    ),
                    framed,
                ) && seal_outcome(value@, digests.segment, framed, result)
        } else {
            result == Err::<SealedSegment, _>(
                DurableCodecError { kind: DurableCodecErrorKind::InvariantViolation },
            )
        },
{
    let manifest_preimage = manifest_digest_preimage(&value.manifest);
    let manifest = hash(manifest_preimage);
    assert(hash.ensures((manifest_preimage,), manifest));
    let (body, version) = segment_body_bytes_with_prepared_capsules(&value, prepared, manifest)?;
    let segment_preimage = segment_digest_preimage(&body);
    let segment = hash(segment_preimage);
    assert(hash.ensures((segment_preimage,), segment));
    let record_type = record_type_of_segment(version);
    let bytes = raw_segment_payload(&body, segment);
    let framed = frame(record_type, bytes);
    proof {
        assert(frame.ensures((record_type, bytes), framed));
        let digests = SegmentDigests { segment, manifest };
        assert(frames_to(
            frame,
            segment_record_type(segment_version(value@.commands)),
            segment_payload_bytes(
                body_bytes(value@, prepared_bytes(prepared@), digests.manifest),
                digests.segment,
            ),
            framed,
        ));
    }
    seal_segment_under(value, segment, framed)
}

/// What encoding one segment comes to: a segment whose digest is not that of its
/// canonical body is corrupt, and otherwise its least-sufficient form carries it.
pub open spec fn segment_encoded<H: Fn(Vec<u8>) -> Digest>(
    hash: H,
    segment: CommandSegmentView,
    encodings: Seq<CommandEncodingsView>,
    result: Result<OutgoingSegment, DurableCodecError>,
) -> bool {
    exists|digests: SegmentDigests| #[trigger]
        segment_hashes_to(hash, segment, encodings, digests) && if segment.segment_digest
            != digests.segment {
            result is Err && is_corrupt(result->Err_0)
        } else {
            &&& result is Ok
            &&& outgoing_form(result->Ok_0).0 == segment_record_type(
                segment_version(segment.commands),
            )
            &&& form_of_version(
                outgoing_form(result->Ok_0).1,
                segment_version(segment.commands),
            )
            &&& (segment_parts(outgoing_form(result->Ok_0).1) matches Some(parts)
                && segment_carries(parts, segment, digests))
        }
}

/// Whether a form is the one for commands of a version.
pub open spec fn form_of_version(form: SegmentForm, version: CommandCapsuleWireVersionV1) -> bool {
    match version {
        CommandCapsuleWireVersionV1::V4 => form is V3,
        CommandCapsuleWireVersionV1::V5 => form is V4,
        CommandCapsuleWireVersionV1::V6 => form is V5,
    }
}

/// Encodes one segment after proving its supplied digest matches its canonical body.
pub fn encode_command_segment_v1<H: Fn(Vec<u8>) -> Digest>(
    value: &StoredCommandSegmentV1,
    encodings: &[CommandEncodings],
    hash: H,
) -> (result: Result<OutgoingSegment, DurableCodecError>)
    requires
        value@.wf(),
        all_anchors_fit(value@.commands),
        encodings_fit(encoding_views(encodings@), value@.commands),
        forall|preimage: Vec<u8>| #[trigger] hash.requires((preimage,)),
    ensures
        segment_encoded(hash, value@, encoding_views(encodings@), result),
{
    let digests = command_segment_digest_v1(value, encodings, hash);
    proof {
        assert(segment_hashes_to(hash, value@, encoding_views(encodings@), digests));
    }
    encode_segment_under(value, digests)
}

/// The bytes that the digest of a form's manifest is taken of: its entries, if it has
/// any.
pub open spec fn form_manifest_bytes(form: SegmentForm) -> Seq<u8> {
    match segment_parts(form) {
        Some(parts) => match parts.frame.manifest {
            Some(manifest) => entries_message_bytes(manifest.entries@),
            None => Seq::empty(),
        },
        None => Seq::empty(),
    }
}

fn frame_manifest_bytes(frame: &wire::CommandSegmentFrameV1) -> (result: Vec<u8>)
    ensures
        result@ == match frame.manifest {
            Some(manifest) => entries_message_bytes(manifest.entries@),
            None => Seq::empty(),
        },
{
    match &frame.manifest {
        Some(manifest) => manifest_message_entries(&manifest.entries),
        None => {
            let nothing: Vec<u8> = Vec::new();
            assert(nothing@ =~= Seq::empty());
            nothing
        },
    }
}

fn manifest_bytes_of_form(form: &SegmentForm) -> (result: Vec<u8>)
    ensures
        result@ == form_manifest_bytes(*form),
{
    let frame = match form {
        SegmentForm::V1(message) => match &message.body {
            Some(body) => Some(&body.frame),
            None => None,
        },
        SegmentForm::V2(message) => match &message.body {
            Some(body) => Some(&body.frame),
            None => None,
        },
        SegmentForm::V3(message) => match &message.body {
            Some(body) => Some(&body.frame),
            None => None,
        },
        SegmentForm::V4(message) => match &message.body {
            Some(body) => Some(&body.frame),
            None => None,
        },
        SegmentForm::V5(message) => match &message.body {
            Some(body) => Some(&body.frame),
            None => None,
        },
    };
    match frame {
        Some(frame) => frame_manifest_bytes(frame),
        None => {
            let nothing: Vec<u8> = Vec::new();
            assert(nothing@ =~= Seq::empty());
            nothing
        },
    }
}

fn commands_in_form(form: &SegmentForm) -> (result: usize)
    ensures
        result == match segment_parts(*form) {
            Some(parts) => parts.forms.len(),
            None => 0,
        },
{
    match form {
        SegmentForm::V1(message) => match &message.body {
            Some(body) => body.commands.len(),
            None => 0,
        },
        SegmentForm::V2(message) => match &message.body {
            Some(body) => body.commands.len(),
            None => 0,
        },
        SegmentForm::V3(message) => match &message.body {
            Some(body) => body.commands.len(),
            None => 0,
        },
        SegmentForm::V4(message) => match &message.body {
            Some(body) => body.commands.len(),
            None => 0,
        },
        SegmentForm::V5(message) => match &message.body {
            Some(body) => body.commands.len(),
            None => 0,
        },
    }
}

/// Whether digests are those of a form: that of its manifest's entries, and that of
/// its body as it is encoded.
pub open spec fn form_hashes_to<E: Fn(&SegmentForm) -> Vec<u8>, H: Fn(Vec<u8>) -> Digest>(
    encode_body: E,
    hash: H,
    form: SegmentForm,
    digests: SegmentDigests,
) -> bool {
    &&& hashes_to(hash, MANIFEST_DIGEST_LABEL@, form_manifest_bytes(form), digests.manifest)
    &&& exists|body: Vec<u8>| #[trigger]
        encode_body.ensures((&form,), body) && hashes_to(
            hash,
            SEGMENT_DIGEST_LABEL@,
            body@,
            digests.segment,
        )
}

/// Whether verdicts are what the record rules say of each command of a form, and of
/// its manifest and the whole.
pub open spec fn form_ruled<
    C: Fn(&SegmentForm, usize) -> CapsuleVerdicts,
    S: Fn(&SegmentForm) -> SegmentVerdicts,
>(
    command_rule: C,
    segment_rule: S,
    form: SegmentForm,
    command_verdicts: Seq<CapsuleVerdicts>,
    verdicts: SegmentVerdicts,
) -> bool {
    &&& segment_parts(form) matches Some(parts) ==> command_verdicts.len() == parts.forms.len()
    &&& forall|i: usize|
        i < command_verdicts.len() ==> #[trigger] command_rule.ensures(
            (&form, i),
            command_verdicts[i as int],
        )
    &&& segment_rule.ensures((&form,), verdicts)
}

fn rule_commands<C: Fn(&SegmentForm, usize) -> CapsuleVerdicts>(
    form: &SegmentForm,
    command_rule: &C,
) -> (result: Vec<CapsuleVerdicts>)
    requires
        forall|form: &SegmentForm, place: usize| #[trigger] command_rule.requires((form, place)),
    ensures
        segment_parts(*form) matches Some(parts) ==> result@.len() == parts.forms.len(),
        forall|i: usize|
            i < result@.len() ==> #[trigger] command_rule.ensures((form, i), result@[i as int]),
{
    let count = commands_in_form(form);
    let mut result: Vec<CapsuleVerdicts> = Vec::new();
    let mut i: usize = 0;
    while i < count
        invariant
            i <= count,
            result@.len() == i,
            forall|form: &SegmentForm, place: usize| #[trigger]
                command_rule.requires((form, place)),
            forall|k: usize|
                k < i ==> #[trigger] command_rule.ensures((form, k), result@[k as int]),
        decreases count - i,
    {
        let verdicts = command_rule(form, i);
        assert(command_rule.ensures((form, i), verdicts));
        result.push(verdicts);
        i += 1;
    }
    result
}

/// Decodes and proves one complete segment, its manifest and its place in the hash
/// chain, given the form that was found, how bodies are encoded and hashed, and what
/// the record rules say of each command and of the whole.
pub fn decode_command_segment_v1<
    E: Fn(&SegmentForm) -> Vec<u8>,
    H: Fn(Vec<u8>) -> Digest,
    C: Fn(&SegmentForm, usize) -> CapsuleVerdicts,
    S: Fn(&SegmentForm) -> SegmentVerdicts,
>(
    form: &SegmentForm,
    encoded_len: usize,
    encode_body: E,
    hash: H,
    no_service_values: &CanonicalRecord,
    command_rule: C,
    segment_rule: S,
) -> (result: Result<EncodedPageItem<StoredCommandSegmentV1>, DurableCodecError>)
    requires
        forall|form: &SegmentForm| #[trigger] encode_body.requires((form,)),
        forall|preimage: Vec<u8>| #[trigger] hash.requires((preimage,)),
        forall|form: &SegmentForm, place: usize| #[trigger] command_rule.requires((form, place)),
        forall|form: &SegmentForm| #[trigger] segment_rule.requires((form,)),
    ensures
        exists|
            digests: SegmentDigests,
            command_verdicts: Seq<CapsuleVerdicts>,
            verdicts: SegmentVerdicts,
            read: Result<StoredCommandSegmentV1, DurableCodecError>,
        |
            form_hashes_to(encode_body, hash, *form, digests) && form_ruled(
                command_rule,
                segment_rule,
                *form,
                command_verdicts,
                verdicts,
            ) && #[trigger] form_outcome(
                *form,
                digests,
                command_verdicts,
                verdicts,
                no_service_values@,
                read,
            ) && match read {
                Err(error) => result == Err::<EncodedPageItem<StoredCommandSegmentV1>, _>(error),
                Ok(segment) => if encoded_len == 0 {
                    result is Err && is_corrupt(result->Err_0)
                } else {
                    result is Ok && result->Ok_0.value == segment && result->Ok_0.charge.bytes
                        == encoded_len
                },
            },
{
    let manifest = manifest_bytes_of_form(form);
    let manifest_preimage = labelled(MANIFEST_DIGEST_LABEL.as_slice(), &manifest);
    let manifest_digest = hash(manifest_preimage);
    assert(hash.ensures((manifest_preimage,), manifest_digest));
    let body = encode_body(form);
    assert(encode_body.ensures((form,), body));
    let segment_preimage = segment_digest_preimage(&body);
    let segment_digest = hash(segment_preimage);
    assert(hash.ensures((segment_preimage,), segment_digest));
    let digests = SegmentDigests { segment: segment_digest, manifest: manifest_digest };
    let command_verdicts = rule_commands(form, &command_rule);
    let verdicts = segment_rule(form);
    assert(segment_rule.ensures((form,), verdicts));
    proof {
        assert(form_hashes_to(encode_body, hash, *form, digests));
        assert(form_ruled(command_rule, segment_rule, *form, command_verdicts@, verdicts));
    }
    decode_segment_under(
        form,
        encoded_len,
        digests,
        no_service_values,
        &command_verdicts,
        verdicts,
    )
}

} // verus!
