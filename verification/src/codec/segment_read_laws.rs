//! What a segment that is read was checked for.

use vstd::prelude::*;

use crate::codec::error::{value_failure, DurableCodecError, DurableCodecErrorKind};
use crate::codec::record_type::RecordType;
use crate::codec::replication::identifier_readable;
use crate::codec::segment::{
    commands_read, first_failing, manifest_sound, segment_outcome, segment_record_type,
    segment_tail_failure, SegmentDigests, SegmentVerdicts,
};
use crate::codec::segment_capsule::{form_failure, CapsuleForm, CapsuleVerdicts};
use crate::keys::CanonicalRecordView;
use crate::stored::segment::{
    CommandCapsuleWireVersionV1, CompleteCommandView, StoredCommandSegmentV1,
};
use crate::wire;

verus! {

/// A segment that is read has the digest of its body and a manifest with the digest of its
/// entries; it is of the database and history that its frame names and follows the segment
/// that its frame names, if any; its frame names the places of its first and its last
/// command; and none of the rules that it was held to refused it.
pub proof fn segments_that_are_read_are_what_they_name(
    frame: wire::CommandSegmentFrameV1,
    forms: Seq<CapsuleForm>,
    segment_digest: Seq<u8>,
    digests: SegmentDigests,
    command_verdicts: Seq<CapsuleVerdicts>,
    verdicts: SegmentVerdicts,
    no_service_values: CanonicalRecordView,
    result: Result<StoredCommandSegmentV1, DurableCodecError>,
)
    requires
        segment_outcome(
            frame,
            forms,
            segment_digest,
            digests,
            command_verdicts,
            verdicts,
            no_service_values,
            result,
        ),
    ensures
        result matches Ok(segment) ==> {
            let count = segment.commands@.len();
            &&& segment_digest == digests.segment.bytes@
            &&& segment.segment_digest == digests.segment
            &&& frame.manifest matches Some(manifest) && manifest.digest@ == digests.manifest.bytes@
                && manifest.entries@.len() == segment.manifest.entries@.len()
            &&& frame.database_id.value@ == segment.database_id.bytes@
            &&& frame.history_incarnation == segment.history_incarnation
            &&& match segment.predecessor {
                Some(before) => frame.predecessor_segment_hash@ == before.bytes@,
                None => frame.predecessor_segment_hash@.len() == 0,
            }
            &&& count == forms.len()
            &&& count > 0
            &&& frame.first_commit_sequence
                == segment.commands@[0].base.commit.parts.commit_sequence.value
            &&& frame.last_commit_sequence == segment.commands@[count
                - 1].base.commit.parts.commit_sequence.value
            &&& frame.first_administration_sequence
                == segment.commands@[0].base.started.administration_sequence.value
            &&& frame.last_administration_sequence == segment.commands@[count
                - 1].base.terminal.administration_sequence.value
            &&& frame.first_commit_sequence > 0 && frame.last_commit_sequence > 0
            &&& frame.first_administration_sequence > 0 && frame.last_administration_sequence > 0
            &&& verdicts.manifest is None && verdicts.segment is None
            &&& forall|i: int|
                0 <= i < forms.len() ==> form_failure(#[trigger] forms[i], command_verdicts[i])
                    is None
        },
{
    if let Ok(segment) = result {
        assert(segment@.commands.len() == segment.commands@.len());
        assert(segment@.manifest.len() == segment.manifest.entries@.len());
        assert(segment@.commands[0] == segment.commands@[0]@);
        assert(segment@.commands.last() == segment.commands@[segment.commands@.len() - 1]@);
    }
}

/// A segment with another digest than that of its body, without a sequence that it has to
/// name, or behind something that is no digest is corrupt, whatever else it holds.
pub proof fn unsound_segments_are_corrupt(
    frame: wire::CommandSegmentFrameV1,
    forms: Seq<CapsuleForm>,
    segment_digest: Seq<u8>,
    digests: SegmentDigests,
    command_verdicts: Seq<CapsuleVerdicts>,
    verdicts: SegmentVerdicts,
    no_service_values: CanonicalRecordView,
    result: Result<StoredCommandSegmentV1, DurableCodecError>,
)
    requires
        segment_outcome(
            frame,
            forms,
            segment_digest,
            digests,
            command_verdicts,
            verdicts,
            no_service_values,
            result,
        ),
        segment_digest != digests.segment.bytes@ || frame.first_commit_sequence == 0
            || frame.last_commit_sequence == 0 || frame.first_administration_sequence == 0
            || frame.last_administration_sequence == 0 || !(
        frame.predecessor_segment_hash@.len() == 0 || frame.predecessor_segment_hash@.len() == 32),
    ensures
        result == Err::<StoredCommandSegmentV1, _>(
            DurableCodecError { kind: DurableCodecErrorKind::CorruptData },
        ),
{
}

/// Of a segment that is sound itself the first command that cannot be read decides.
pub proof fn the_first_unreadable_command_decides(
    frame: wire::CommandSegmentFrameV1,
    forms: Seq<CapsuleForm>,
    segment_digest: Seq<u8>,
    digests: SegmentDigests,
    command_verdicts: Seq<CapsuleVerdicts>,
    verdicts: SegmentVerdicts,
    no_service_values: CanonicalRecordView,
    result: Result<StoredCommandSegmentV1, DurableCodecError>,
    k: int,
)
    requires
        segment_outcome(
            frame,
            forms,
            segment_digest,
            digests,
            command_verdicts,
            verdicts,
            no_service_values,
            result,
        ),
        segment_digest == digests.segment.bytes@,
        frame.first_commit_sequence > 0,
        frame.last_commit_sequence > 0,
        frame.first_administration_sequence > 0,
        frame.last_administration_sequence > 0,
        frame.predecessor_segment_hash@.len() == 0 || frame.predecessor_segment_hash@.len() == 32,
        0 <= k < forms.len(),
        form_failure(forms[k], command_verdicts[k]) is Some,
        forall|i: int|
            0 <= i < k ==> form_failure(#[trigger] forms[i], command_verdicts[i]) is None,
    ensures
        result == Err::<StoredCommandSegmentV1, _>(
            DurableCodecError { kind: form_failure(forms[k], command_verdicts[k])->Some_0 },
        ),
{
    let commands = choose|commands: Result<Seq<CompleteCommandView>, DurableCodecErrorKind>|
        #[trigger]
        commands_read(forms, command_verdicts, no_service_values, commands) && (commands is Err
            ==> result == Err::<StoredCommandSegmentV1, _>(
            DurableCodecError { kind: commands->Err_0 },
        ));
    match commands {
        Ok(read) => {
            assert(crate::codec::segment::command_read(
                forms[k],
                command_verdicts[k],
                no_service_values,
                read[k],
            ));
        },
        Err(kind) => {
            let place = choose|i: int| #[trigger] first_failing(forms, command_verdicts, i, kind);
            if place < k {
                assert(form_failure(forms[place], command_verdicts[place]) is None);
            } else if place > k {
                assert(form_failure(forms[k], command_verdicts[k]) is None);
            }
        },
    }
}

/// Of a sound segment whose commands can all be read, the manifest decides next: it has to
/// be there with the digest of its entries, and its own rules have to accept it. Then
/// there has to be a command, the segment's rules decide, and last the places that the
/// frame names.
pub proof fn the_rest_of_a_segment_decides_in_order(
    frame: wire::CommandSegmentFrameV1,
    commands: Seq<CompleteCommandView>,
    digests: SegmentDigests,
    verdicts: SegmentVerdicts,
)
    ensures
        ({
            let failure = segment_tail_failure(frame, commands, digests, verdicts);
            let named = commands.len() > 0 && frame.first_commit_sequence
                == commands[0].base.commit.parts.commit_sequence.value
                && frame.last_commit_sequence == commands[commands.len()
                - 1].base.commit.parts.commit_sequence.value && frame.first_administration_sequence
                == commands[0].base.started.administration_sequence.value
                && frame.last_administration_sequence == commands[commands.len()
                - 1].base.terminal.administration_sequence.value;
            &&& failure is None ==> named && verdicts.manifest is None && verdicts.segment is None
                && frame.database_id.accepted && frame.manifest is Some
                && frame.manifest->Some_0.digest@ == digests.manifest.bytes@
            &&& !frame.database_id.accepted || frame.manifest is None
                || frame.manifest->Some_0.digest@ != digests.manifest.bytes@ ==> failure == Some(
                DurableCodecErrorKind::CorruptData,
            )
            &&& identifier_readable(frame.database_id) && manifest_sound(
                frame.manifest,
                digests.manifest,
            ) ==> failure == match (verdicts.manifest, verdicts.segment) {
                (Some(error), _) => Some(value_failure(error)),
                (None, Some(error)) => if commands.len() == 0 {
                    Some(DurableCodecErrorKind::CorruptData)
                } else {
                    Some(value_failure(error))
                },
                (None, None) => if named {
                    None
                } else {
                    Some(DurableCodecErrorKind::CorruptData)
                },
            }
        }),
{
}

/// A segment is written as the record that holds its commands' version.
pub proof fn segments_are_written_as_their_version(version: CommandCapsuleWireVersionV1)
    ensures
        segment_record_type(version) == RecordType::StoredCommandSegmentV3 <==> version is V4,
        segment_record_type(version) == RecordType::StoredCommandSegmentV4 <==> version is V5,
        segment_record_type(version) == RecordType::StoredCommandSegmentV5 <==> version is V6,
{
}

} // verus!
