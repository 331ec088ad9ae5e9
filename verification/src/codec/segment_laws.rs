//! Laws of sealing command segments: what is sealed is what the independent encoder
//! writes.

use vstd::prelude::*;

use crate::codec::command_segment::{
    advance_carries, advance_valid, manifest_entry_carries, manifest_entry_list_carries,
};
use crate::codec::application::event_carries;
use crate::codec::envelope::CanonicalStoredEnvelopeV1;
use crate::codec::error::{DurableCodecError, EnvelopeError};
use crate::codec::record_type::RecordType;
use crate::codec::segment::{
    form_hashes_to, form_manifest_bytes, form_of_version, frame_carries, outgoing_form,
    seal_outcome, sealed, sealed_pair, segment_carries, segment_encoded, segment_hashes_to,
    segment_parts, segment_record_type, OutgoingSegment, SealedSegment, SegmentDigests, SegmentForm,
    SegmentParts,
};
use crate::codec::segment_bytes::{
    all_advance_bytes, all_entry_bytes, all_event_bytes, encodings_fit, entries_bytes, entry_bytes,
    members_bytes, segment_body_bytes, segment_payload_bytes, v4_bytes, CommandEncodingsView,
    SEGMENT_DIGEST_LABEL,
};
use crate::codec::segment_bytes_laws::{
    advance_message, advances_are_canonical, body_message, commands_are_canonical, epoch_message,
    event_message, events_are_canonical, items, manifest_message, message_encoding,
    segments_are_canonical, v2_message, v3_message, v4_message, ProtoField,
};
use crate::codec::segment_capsule::{form_carries, v4_carries, CapsuleForm};
use crate::codec::segment_message::{
    all_entry_message_bytes, entries_message_bytes, entry_message_bytes,
};
use crate::functions::{framed_view, frames_to, framing_is_function, hash_is_function, hashes_to};
use crate::ids::Digest;
use crate::records::DurableEventView;
use crate::stored::command_segment::{IndexAdvanceView, ManifestEntryView};
use crate::stored::segment::{
    segment_version, CommandSegmentView, CompleteCommandView, StoredCommandSegmentV1,
};
use crate::wire;

verus! {

/// The digest that a segment holds does not enter its digests, for a hash that gives
/// one digest for equal bytes.
pub proof fn segment_digests_ignore_the_stored_one<H: Fn(Vec<u8>) -> Digest>(
    hash: H,
    segment: CommandSegmentView,
    encodings: Seq<CommandEncodingsView>,
    stored: Digest,
    a: SegmentDigests,
    b: SegmentDigests,
)
    requires
        hash_is_function(hash),
        segment_hashes_to(hash, segment, encodings, a),
        segment_hashes_to(
            hash,
            CommandSegmentView { segment_digest: stored, ..segment },
            encodings,
            b,
        ),
    ensures
        a == b,
{
    let other = CommandSegmentView { segment_digest: stored, ..segment };
    assert(a.manifest == b.manifest);
    assert(segment_body_bytes(segment, encodings, a.manifest) == segment_body_bytes(
        other,
        encodings,
        a.manifest,
    ));
}

/// Sealing a segment with and without its evidence gives the same segment and the same
/// bytes, or the same failure, for a hash and a framing that give one result for equal
/// bytes. The evidence counts the bytes.
pub proof fn sealing_functions_agree<
    H: Fn(Vec<u8>) -> Digest,
    F: Fn(RecordType, Vec<u8>) -> Result<Vec<u8>, EnvelopeError>,
>(
    hash: H,
    frame: F,
    segment: CommandSegmentView,
    encodings: Seq<CommandEncodingsView>,
    whole: Result<SealedSegment, DurableCodecError>,
    pair: Result<(StoredCommandSegmentV1, CanonicalStoredEnvelopeV1), DurableCodecError>,
)
    requires
        hash_is_function(hash),
        framing_is_function(frame),
        sealed(hash, frame, segment, encodings, whole),
        sealed_pair(hash, frame, segment, encodings, pair),
    ensures
        match (whole, pair) {
            (Ok(whole), Ok((held, envelope))) => {
                &&& whole.segment@ == held@
                &&& whole.envelope.bytes@ == envelope.bytes@
                &&& whole.metrics.selected_envelope_bytes == envelope.bytes@.len()
                &&& whole.metrics.raw_envelope_bytes >= whole.metrics.selected_envelope_bytes
            },
            (Err(a), Err(b)) => a == b,
            _ => false,
        },
{
    let other = choose|other: Result<SealedSegment, DurableCodecError>| #[trigger]
        sealed(hash, frame, segment, encodings, other) && pair == match other {
            Err(error) => Err(error),
            Ok(other) => Ok((other.segment, other.envelope)),
        };
    sealing_is_settled(hash, frame, segment, encodings, whole, other);
}

/// Sealing one segment twice gives the same, for a hash and a framing that give one
/// result for equal bytes.
proof fn sealing_is_settled<
    H: Fn(Vec<u8>) -> Digest,
    F: Fn(RecordType, Vec<u8>) -> Result<Vec<u8>, EnvelopeError>,
>(
    hash: H,
    frame: F,
    segment: CommandSegmentView,
    encodings: Seq<CommandEncodingsView>,
    a: Result<SealedSegment, DurableCodecError>,
    b: Result<SealedSegment, DurableCodecError>,
)
    requires
        hash_is_function(hash),
        framing_is_function(frame),
        sealed(hash, frame, segment, encodings, a),
        sealed(hash, frame, segment, encodings, b),
    ensures
        match (a, b) {
            (Ok(a), Ok(b)) => a.segment@ == b.segment@ && a.envelope.bytes@ == b.envelope.bytes@
                && a.metrics == b.metrics && a.metrics.selected_envelope_bytes
                == a.envelope.bytes@.len() && a.metrics.raw_envelope_bytes
                == a.envelope.bytes@.len(),
            (Err(a), Err(b)) => a == b,
            _ => false,
        },
{
    let record_type = segment_record_type(segment_version(segment.commands));
    let (digests_a, framed_a) = choose|
        digests: SegmentDigests,
        framed: Result<Vec<u8>, EnvelopeError>,
    |
        segment_hashes_to(hash, segment, encodings, digests) && #[trigger] frames_to(
            frame,
            record_type,
            segment_payload_bytes(
                segment_body_bytes(segment, encodings, digests.manifest),
                digests.segment,
            ),
            framed,
        ) && seal_outcome(segment, digests.segment, framed, a);
    let (digests_b, framed_b) = choose|
        digests: SegmentDigests,
        framed: Result<Vec<u8>, EnvelopeError>,
    |
        segment_hashes_to(hash, segment, encodings, digests) && #[trigger] frames_to(
            frame,
            record_type,
            segment_payload_bytes(
                segment_body_bytes(segment, encodings, digests.manifest),
                digests.segment,
            ),
            framed,
        ) && seal_outcome(segment, digests.segment, framed, b);
    assert(CommandSegmentView { segment_digest: segment.segment_digest, ..segment } == segment);
    segment_digests_ignore_the_stored_one(
        hash,
        segment,
        encodings,
        segment.segment_digest,
        digests_a,
        digests_b,
    );
    assert(framed_view(framed_a) == framed_view(framed_b));
    match (framed_a, framed_b) {
        (Ok(x), Ok(y)) => {
            assert(x@ == y@);
        },
        _ => {},
    }
}

/// The fields of an event's message.
pub open spec fn event_fields(message: wire::StoredDurableEventV1) -> Seq<ProtoField> {
    (match message.event_id {
        Some(id) => seq![
            ProtoField::Item(
                1,
                message_encoding(
                    seq![
                        ProtoField::Integer(1, id.commit_sequence),
                        ProtoField::Integer(2, id.event_ordinal as u64),
                    ],
                ),
            ),
        ],
        None => Seq::empty(),
    }) + seq![
        ProtoField::Integer(2, message.event_type_id as u64),
        ProtoField::Bytes(3, message.canonical_payload.bytes@),
        ProtoField::Bytes(4, message.event_hash@),
    ]
}

/// The fields of an index advance's message, given the encoding of its schema binding.
pub open spec fn advance_fields(
    message: wire::StoredIndexGenerationTransitionV1,
    binding: Seq<u8>,
) -> Seq<ProtoField> {
    (match message.post_image {
        Some(image) => seq![
            ProtoField::Item(
                1,
                message_encoding(
                    seq![
                        ProtoField::Bytes(1, image.partition_key.value@),
                        ProtoField::Integer(2, image.index_id as u64),
                    ] + (match image.schema_binding {
                        Some(_) => seq![ProtoField::Item(3, binding)],
                        None => Seq::empty(),
                    }) + seq![ProtoField::Integer(4, image.generation)],
                ),
            ),
        ],
        None => Seq::empty(),
    }) + (match message.prior_generation {
        Some(prior) => seq![ProtoField::Present(2, prior)],
        None => Seq::empty(),
    })
}

/// The encodings of event messages.
pub open spec fn all_event_encodings(messages: Seq<wire::StoredDurableEventV1>) -> Seq<Seq<u8>> {
    Seq::new(messages.len(), |i: int| message_encoding(event_fields(messages[i])))
}

/// The encodings of index advance messages, given those of their schema bindings.
pub open spec fn all_advance_encodings(
    messages: Seq<wire::StoredIndexGenerationTransitionV1>,
    bindings: Seq<Seq<u8>>,
) -> Seq<Seq<u8>> {
    Seq::new(messages.len(), |i: int| message_encoding(advance_fields(messages[i], bindings[i])))
}

/// The fields of the second form of a command, given the encodings of the generated
/// messages inside it.
pub open spec fn v2_fields(
    message: wire::StoredCommandCapsuleV2,
    encodings: CommandEncodingsView,
) -> Seq<ProtoField> {
    (match message.base {
        Some(_) => items(1, seq![encodings.base]),
        None => Seq::empty(),
    }) + items(2, all_event_encodings(message.events@)) + items(
        3,
        all_advance_encodings(message.index_generation_transitions@, encodings.bindings),
    )
}

/// The fields of the third form of a command.
pub open spec fn v3_fields(
    message: wire::StoredCommandCapsuleV3,
    encodings: CommandEncodingsView,
) -> Seq<ProtoField> {
    (match message.base {
        Some(base) => seq![ProtoField::Item(1, message_encoding(v2_fields(base, encodings)))],
        None => Seq::empty(),
    }) + seq![ProtoField::Bytes(2, message.canonical_service_values.bytes@)]
}

/// The fields of the fourth form of a command.
pub open spec fn v4_fields(
    message: wire::StoredCommandCapsuleV4,
    encodings: CommandEncodingsView,
) -> Seq<ProtoField> {
    (match message.base {
        Some(base) => items(1, seq![message_encoding(v3_fields(base, encodings))]),
        None => Seq::empty(),
    }) + items(2, encodings.entity_transitions)
}

/// The encoding of a command inside a segment: the fourth form by its fields, the later
/// ones as they are given.
pub open spec fn capsule_encoding(form: CapsuleForm, encodings: CommandEncodingsView) -> Seq<u8> {
    match form {
        CapsuleForm::V4(message) => message_encoding(v4_fields(message, encodings)),
        _ => encodings.whole,
    }
}

/// The encodings of the commands inside a segment.
pub open spec fn capsule_encodings(
    forms: Seq<CapsuleForm>,
    encodings: Seq<CommandEncodingsView>,
) -> Seq<Seq<u8>> {
    Seq::new(forms.len(), |i: int| capsule_encoding(forms[i], encodings[i]))
}

/// The fields of a manifest's message.
pub open spec fn manifest_fields(message: wire::CommandSegmentManifestV1) -> Seq<ProtoField> {
    items(1, all_entry_message_bytes(message.entries@)).push(
        ProtoField::Bytes(2, message.digest@),
    )
}

/// The fields of a segment body's message.
pub open spec fn body_fields(
    frame: wire::CommandSegmentFrameV1,
    members: Seq<Seq<u8>>,
) -> Seq<ProtoField> {
    seq![
        ProtoField::Bytes(1, frame.database_id.value@),
        ProtoField::Integer(2, frame.history_incarnation),
        ProtoField::Bytes(3, frame.predecessor_segment_hash@),
        ProtoField::Integer(4, frame.first_commit_sequence),
        ProtoField::Integer(5, frame.last_commit_sequence),
        ProtoField::Integer(6, frame.first_administration_sequence),
        ProtoField::Integer(7, frame.last_administration_sequence),
    ] + items(8, members) + (match frame.manifest {
        Some(manifest) => seq![ProtoField::Item(9, message_encoding(manifest_fields(manifest)))],
        None => Seq::empty(),
    })
}

/// The encoding of a current segment's body, given those of the generated messages
/// inside its commands.
pub open spec fn body_encoding(
    parts: SegmentParts,
    encodings: Seq<CommandEncodingsView>,
) -> Seq<u8> {
    message_encoding(body_fields(parts.frame, capsule_encodings(parts.forms, encodings)))
}

/// The encoding of a current segment's message, given those of the generated messages
/// inside its commands.
pub open spec fn segment_encoding(
    parts: SegmentParts,
    encodings: Seq<CommandEncodingsView>,
) -> Seq<u8> {
    message_encoding(
        seq![
            ProtoField::Item(1, body_encoding(parts, encodings)),
            ProtoField::Bytes(2, parts.segment_digest),
        ],
    )
}

/// No byte string of a command that is streamed is empty, and prior epochs are not
/// zero.
pub open spec fn command_streams(command: CompleteCommandView) -> bool {
    &&& command.service_values.encoded.len() > 0
    &&& forall|i: int|
        0 <= i < command.base.commit.events.len()
            ==> (#[trigger] command.base.commit.events[i]).payload.encoded.len() > 0
    &&& forall|i: int|
        0 <= i < command.generations.len() ==> (
        #[trigger] command.generations[i]).post_image.partition_key.len() > 0
            && advance_valid(command.generations[i])
}

/// No byte string of a segment that is streamed is empty. Commands are streamed in the
/// fourth form alone.
pub open spec fn segment_streams(segment: CommandSegmentView) -> bool {
    &&& segment_version(segment.commands) is V4 ==> forall|i: int|
        0 <= i < segment.commands.len() ==> command_streams(#[trigger] segment.commands[i])
    &&& forall|i: int|
        0 <= i < segment.manifest.len() ==> (#[trigger] segment.manifest[i]).exact_key.len() > 0
}

proof fn written_events_encode(message: wire::StoredDurableEventV1, event: DurableEventView)
    requires
        event_carries(message, event),
        event.payload.encoded.len() > 0,
    ensures
        message_encoding(event_fields(message)) == crate::codec::segment_bytes::event_bytes(event),
{
    assert(event_fields(message) =~= event_message(event));
    events_are_canonical(event);
}

proof fn written_advances_encode(
    message: wire::StoredIndexGenerationTransitionV1,
    advance: IndexAdvanceView,
    binding: Seq<u8>,
)
    requires
        advance_carries(message, advance),
        advance_valid(advance),
        advance.post_image.partition_key.len() > 0,
    ensures
        message_encoding(advance_fields(message, binding))
            == crate::codec::segment_bytes::advance_bytes(advance, binding),
{
    let image = message.post_image->Some_0;
    let epoch = seq![
        ProtoField::Bytes(1, image.partition_key.value@),
        ProtoField::Integer(2, image.index_id as u64),
    ] + seq![ProtoField::Item(3, binding)] + seq![ProtoField::Integer(4, image.generation)];
    assert(epoch =~= epoch_message(advance, binding));
    advances_are_canonical(advance, binding);
    let fields = advance_fields(message, binding);
    let canonical = advance_message(advance, binding);
    reveal_with_fuel(message_encoding, 3);
    match message.prior_generation {
        Some(prior) => {
            assert(prior != 0);
            assert(fields.drop_last() =~= canonical.drop_last());
            assert(fields.last() == ProtoField::Present(2, prior));
            assert(canonical.last() == ProtoField::Integer(2, prior));
        },
        None => {
            assert(canonical.drop_last() =~= fields);
            assert(canonical.last() == ProtoField::Integer(2, 0));
            assert(message_encoding(canonical) =~= message_encoding(fields));
        },
    }
}

proof fn written_commands_encode(
    message: wire::StoredCommandCapsuleV4,
    command: CompleteCommandView,
    encodings: CommandEncodingsView,
)
    requires
        v4_carries(message, command),
        encodings.fit(command),
        command_streams(command),
    ensures
        message_encoding(v4_fields(message, encodings)) == v4_bytes(command, encodings),
{
    commands_are_canonical(command, encodings);
    let third = message.base->Some_0;
    let second = third.base->Some_0;
    let events = all_event_bytes(command.base.commit.events);
    assert forall|i: int| 0 <= i < events.len() implies all_event_encodings(second.events@)[i]
        == events[i] by {
        assert(event_carries(second.events@[i], command.base.commit.events[i]));
        written_events_encode(second.events@[i], command.base.commit.events[i]);
    }
    assert(all_event_encodings(second.events@) =~= events);
    let advances = all_advance_bytes(command.generations, encodings.bindings);
    let written = second.index_generation_transitions@;
    assert forall|i: int| 0 <= i < advances.len() implies all_advance_encodings(
        written,
        encodings.bindings,
    )[i] == advances[i] by {
        assert(advance_carries(written[i], command.generations[i]));
        written_advances_encode(written[i], command.generations[i], encodings.bindings[i]);
    }
    assert(all_advance_encodings(written, encodings.bindings) =~= advances);
    assert(v2_fields(second, encodings) =~= v2_message(command, encodings));
    assert(v3_fields(third, encodings) =~= v3_message(command, encodings));
    assert(v4_fields(message, encodings) =~= v4_message(command, encodings));
}

proof fn written_entries_encode(
    messages: Seq<wire::CommandDerivedIndexManifestEntryV1>,
    entries: Seq<ManifestEntryView>,
)
    requires
        manifest_entry_list_carries(messages, entries),
        forall|i: int| 0 <= i < entries.len() ==> (#[trigger] entries[i]).exact_key.len() > 0,
    ensures
        all_entry_message_bytes(messages) == all_entry_bytes(entries),
        entries_message_bytes(messages) == entries_bytes(entries),
{
    assert forall|i: int| 0 <= i < entries.len() implies all_entry_message_bytes(messages)[i]
        == all_entry_bytes(entries)[i] by {
        assert(manifest_entry_carries(messages[i], entries[i]));
        assert(entries[i].exact_key.len() > 0);
        assert(entry_message_bytes(messages[i]) =~= entry_bytes(entries[i]));
    }
    assert(all_entry_message_bytes(messages) =~= all_entry_bytes(entries));
}

proof fn written_members_encode(
    form: SegmentForm,
    parts: SegmentParts,
    segment: CommandSegmentView,
    encodings: Seq<CommandEncodingsView>,
    digests: SegmentDigests,
)
    requires
        segment_parts(form) == Some(parts),
        form_of_version(form, segment_version(segment.commands)),
        segment_carries(parts, segment, digests),
        encodings_fit(encodings, segment.commands),
        segment_streams(segment),
    ensures
        capsule_encodings(parts.forms, encodings) == members_bytes(
            segment.commands,
            encodings,
            segment_version(segment.commands),
        ),
{
    let version = segment_version(segment.commands);
    let members = members_bytes(segment.commands, encodings, version);
    let written = capsule_encodings(parts.forms, encodings);
    assert forall|i: int| 0 <= i < members.len() implies written[i] == members[i] by {
        assert(form_carries(parts.forms[i], segment.commands[i]));
        assert(encodings[i].fit(segment.commands[i]));
        match parts.forms[i] {
            CapsuleForm::V4(message) => {
                assert(form is V3);
                assert(command_streams(segment.commands[i]));
                written_commands_encode(message, segment.commands[i], encodings[i]);
            },
            _ => {
                assert(!(form is V3));
            },
        }
    }
    assert(written =~= members);
}

proof fn written_bodies_encode(
    frame: wire::CommandSegmentFrameV1,
    segment: CommandSegmentView,
    members: Seq<Seq<u8>>,
    manifest_digest: Digest,
)
    requires
        frame_carries(frame, segment, manifest_digest),
        forall|i: int|
            0 <= i < segment.manifest.len() ==> (
            #[trigger] segment.manifest[i]).exact_key.len() > 0,
    ensures
        entries_message_bytes(frame.manifest->Some_0.entries@) == entries_bytes(segment.manifest),
        body_fields(frame, members) == body_message(segment, members, manifest_digest),
{
    let manifest = frame.manifest->Some_0;
    written_entries_encode(manifest.entries@, segment.manifest);
    assert(manifest_fields(manifest) =~= manifest_message(
        segment.manifest,
        manifest_digest.bytes@,
    ));
    assert(frame.predecessor_segment_hash@ =~= match segment.predecessor {
        Some(digest) => digest.bytes@,
        None => Seq::empty(),
    });
    assert(body_fields(frame, members) =~= body_message(segment, members, manifest_digest));
}

/// The canonical encoding of the message that a segment is written as is the payload
/// that sealing frames, and its body is the one that the digest is taken of.
///
/// No byte string that is streamed is empty: a canonical encoding would leave it out.
pub proof fn written_segments_are_streamed_payloads(
    form: SegmentForm,
    parts: SegmentParts,
    segment: CommandSegmentView,
    encodings: Seq<CommandEncodingsView>,
    digests: SegmentDigests,
)
    requires
        segment.wf(),
        segment_parts(form) == Some(parts),
        form_of_version(form, segment_version(segment.commands)),
        segment_carries(parts, segment, digests),
        encodings_fit(encodings, segment.commands),
        segment_streams(segment),
    ensures
        form_manifest_bytes(form) == entries_bytes(segment.manifest),
        body_encoding(parts, encodings) == segment_body_bytes(
            segment,
            encodings,
            digests.manifest,
        ),
        segment_encoding(parts, encodings) == segment_payload_bytes(
            segment_body_bytes(segment, encodings, digests.manifest),
            digests.segment,
        ),
{
    let version = segment_version(segment.commands);
    let members = members_bytes(segment.commands, encodings, version);
    written_members_encode(form, parts, segment, encodings, digests);
    written_bodies_encode(parts.frame, segment, members, digests.manifest);
    segments_are_canonical(segment, members, digests.manifest, digests.segment);
    assert(body_encoding(parts, encodings) == segment_body_bytes(
        segment,
        encodings,
        digests.manifest,
    ));
}

/// A segment that was sealed is written by the independent encoder as well, in the same
/// record type, and what sealing framed is the canonical encoding of that message, for
/// a hash that gives one digest for equal bytes.
pub proof fn sealed_segments_are_encoded_the_same<
    H: Fn(Vec<u8>) -> Digest,
    F: Fn(RecordType, Vec<u8>) -> Result<Vec<u8>, EnvelopeError>,
>(
    hash: H,
    frame: F,
    segment: CommandSegmentView,
    encodings: Seq<CommandEncodingsView>,
    whole: SealedSegment,
    encoded: Result<OutgoingSegment, DurableCodecError>,
)
    requires
        segment.wf(),
        encodings_fit(encodings, segment.commands),
        segment_streams(segment),
        hash_is_function(hash),
        sealed(hash, frame, segment, encodings, Ok(whole)),
        segment_encoded(hash, whole.segment@, encodings, encoded),
    ensures
        encoded is Ok,
        outgoing_form(encoded->Ok_0).0 == segment_record_type(segment_version(segment.commands)),
        whole.segment@ == (CommandSegmentView {
            segment_digest: whole.segment@.segment_digest,
            ..segment
        }),
        segment_parts(outgoing_form(encoded->Ok_0).1) matches Some(parts) && exists|
            framed: Vec<u8>,
        |
            framed@ == whole.envelope.bytes@ && #[trigger] frames_to(
                frame,
                outgoing_form(encoded->Ok_0).0,
                segment_encoding(parts, encodings),
                Ok(framed),
            ),
{
    let record_type = segment_record_type(segment_version(segment.commands));
    let (digests, framed) = choose|
        digests: SegmentDigests,
        framed: Result<Vec<u8>, EnvelopeError>,
    |
        segment_hashes_to(hash, segment, encodings, digests) && #[trigger] frames_to(
            frame,
            record_type,
            segment_payload_bytes(
                segment_body_bytes(segment, encodings, digests.manifest),
                digests.segment,
            ),
            framed,
        ) && seal_outcome(segment, digests.segment, framed, Ok(whole));
    let held = whole.segment@;
    assert(held == CommandSegmentView { segment_digest: digests.segment, ..segment });
    let own = choose|own: SegmentDigests| #[trigger]
        segment_hashes_to(hash, held, encodings, own) && if held.segment_digest != own.segment {
            encoded is Err && crate::codec::error::is_corrupt(encoded->Err_0)
        } else {
            &&& encoded is Ok
            &&& outgoing_form(encoded->Ok_0).0 == segment_record_type(
                segment_version(held.commands),
            )
            &&& form_of_version(outgoing_form(encoded->Ok_0).1, segment_version(held.commands))
            &&& (segment_parts(outgoing_form(encoded->Ok_0).1) matches Some(parts)
                && segment_carries(parts, held, own))
        };
    segment_digests_ignore_the_stored_one(
        hash,
        segment,
        encodings,
        digests.segment,
        digests,
        own,
    );
    let form = outgoing_form(encoded->Ok_0).1;
    let parts = segment_parts(form)->Some_0;
    written_segments_are_streamed_payloads(form, parts, held, encodings, own);
    assert(segment_body_bytes(held, encodings, own.manifest) == segment_body_bytes(
        segment,
        encodings,
        own.manifest,
    ));
    assert(frames_to(frame, record_type, segment_encoding(parts, encodings), framed));
}

/// A form that a segment was written as has the segment's own digests, where bodies are
/// encoded canonically and the hash gives one digest for equal bytes: reading it finds
/// no other digest than the one that was sealed.
pub proof fn written_segments_keep_their_digests<
    E: Fn(&SegmentForm) -> Vec<u8>,
    H: Fn(Vec<u8>) -> Digest,
>(
    encode_body: E,
    hash: H,
    form: SegmentForm,
    parts: SegmentParts,
    segment: CommandSegmentView,
    encodings: Seq<CommandEncodingsView>,
    digests: SegmentDigests,
    read: SegmentDigests,
)
    requires
        segment.wf(),
        segment_parts(form) == Some(parts),
        form_of_version(form, segment_version(segment.commands)),
        segment_carries(parts, segment, digests),
        encodings_fit(encodings, segment.commands),
        segment_streams(segment),
        hash_is_function(hash),
        forall|body: Vec<u8>| #[trigger]
            encode_body.ensures((&form,), body) ==> body@ == body_encoding(parts, encodings),
        segment_hashes_to(hash, segment, encodings, digests),
        form_hashes_to(encode_body, hash, form, read),
    ensures
        read == digests,
{
    written_segments_are_streamed_payloads(form, parts, segment, encodings, digests);
    assert(read.manifest == digests.manifest);
    let body = choose|body: Vec<u8>| #[trigger]
        encode_body.ensures((&form,), body) && hashes_to(
            hash,
            SEGMENT_DIGEST_LABEL@,
            body@,
            read.segment,
        );
    assert(body@ == segment_body_bytes(segment, encodings, digests.manifest));
}

} // verus!
