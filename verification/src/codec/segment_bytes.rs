//! The canonical bytes of a command segment, streamed field by field.

use vstd::prelude::*;

use crate::bytes::append_bytes;
use crate::codec::command_segment::{
    derived_kind_code, derived_kind_to_code, derived_member_code, derived_member_to_code,
};
use crate::codec::error::{DurableCodecError, DurableCodecErrorKind};
use crate::ids::{CommitSequence, Digest, EventId, Id64};
use crate::protobuf::{encode_varint, varint_bytes};
use crate::records::{DurableEventView, StoredDurableEventV1};
use crate::stored::command_segment::{
    CommandDerivedIndexManifestEntryV1, IndexAdvanceView, IndexEpochAdvanceV1, ManifestEntryView,
};
use crate::stored::segment::{
    capsule_version, command_capsule_wire_version_v1, command_segment_wire_version_v1,
    command_views, segment_version, CommandCapsuleWireVersionV1, CommandSegmentManifestV1,
    CommandSegmentView, CompleteCommandView, StoredCommandCapsuleV2, StoredCommandSegmentV1,
};

verus! {

/// `RIFFDB-COMMAND-SEGMENT-MANIFEST-V1` and a zero byte.
pub const MANIFEST_DIGEST_LABEL: [u8; 35] = [
    0x52, 0x49, 0x46, 0x46, 0x44, 0x42, 0x2d, 0x43, 0x4f, 0x4d, 0x4d, 0x41, 0x4e, 0x44, 0x2d,
    0x53, 0x45, 0x47, 0x4d, 0x45, 0x4e, 0x54, 0x2d, 0x4d, 0x41, 0x4e, 0x49, 0x46, 0x45, 0x53,
    0x54, 0x2d, 0x56, 0x31, 0x00,
];

/// `RIFFDB-COMMAND-SEGMENT-V1` and a zero byte.
pub const SEGMENT_DIGEST_LABEL: [u8; 26] = [
    0x52, 0x49, 0x46, 0x46, 0x44, 0x42, 0x2d, 0x43, 0x4f, 0x4d, 0x4d, 0x41, 0x4e, 0x44, 0x2d,
    0x53, 0x45, 0x47, 0x4d, 0x45, 0x4e, 0x54, 0x2d, 0x56, 0x31, 0x00,
];

/// `RIFFDB-COMMAND-DERIVED-INDEX-CHECKPOINT-V1` and a zero byte.
pub const CHECKPOINT_DIGEST_LABEL: [u8; 43] = [
    0x52, 0x49, 0x46, 0x46, 0x44, 0x42, 0x2d, 0x43, 0x4f, 0x4d, 0x4d, 0x41, 0x4e, 0x44, 0x2d,
    0x44, 0x45, 0x52, 0x49, 0x56, 0x45, 0x44, 0x2d, 0x49, 0x4e, 0x44, 0x45, 0x58, 0x2d, 0x43,
    0x48, 0x45, 0x43, 0x4b, 0x50, 0x4f, 0x49, 0x4e, 0x54, 0x2d, 0x56, 0x31, 0x00,
];

/// A length-delimited field under a one-byte key.
pub open spec fn tagged_bytes(key: u8, value: Seq<u8>) -> Seq<u8> {
    seq![key] + varint_bytes(value.len()) + value
}

/// An integer field under a one-byte key; zero is left out.
pub open spec fn tagged_varint(key: u8, value: u64) -> Seq<u8> {
    if value == 0 {
        Seq::empty()
    } else {
        seq![key] + varint_bytes(value as nat)
    }
}

/// Appends a length-delimited field.
pub fn append_length_delimited_field(output: &mut Vec<u8>, key: u8, bytes: &[u8])
    ensures
        final(output)@ == old(output)@ + tagged_bytes(key, bytes@),
{
    let ghost before = output@;
    output.push(key);
    encode_varint(bytes.len() as u64, output);
    append_bytes(output, bytes);
    assert(output@ =~= before + tagged_bytes(key, bytes@));
}

/// Appends an integer field unless it is zero.
pub fn append_varint_field(output: &mut Vec<u8>, key: u8, value: u64)
    ensures
        final(output)@ == old(output)@ + tagged_varint(key, value),
{
    let ghost before = output@;
    if value == 0 {
        assert(output@ =~= before + tagged_varint(key, value));
        return;
    }
    output.push(key);
    encode_varint(value, output);
    assert(output@ =~= before + tagged_varint(key, value));
}

/// The bytes of an event identity.
pub open spec fn event_id_bytes(value: EventId) -> Seq<u8> {
    tagged_varint(0x08, value.commit_sequence.value) + tagged_varint(
        0x10,
        value.event_ordinal as u64,
    )
}

/// The bytes of an event.
pub open spec fn event_bytes(event: DurableEventView) -> Seq<u8> {
    tagged_bytes(0x0a, event_id_bytes(event.event_id)) + tagged_varint(
        0x10,
        event.event_type_id.value as u64,
    ) + tagged_bytes(0x1a, event.payload.encoded) + tagged_bytes(0x22, event.event_hash.bytes@)
}

/// Streams an event.
pub fn event_bytes_for_seal(value: &StoredDurableEventV1) -> (result: Vec<u8>)
    ensures
        result@ == event_bytes(value@),
{
    let mut event_id: Vec<u8> = Vec::new();
    append_varint_field(&mut event_id, 0x08, value.event_id.commit_sequence.get());
    append_varint_field(&mut event_id, 0x10, value.event_id.event_ordinal as u64);
    assert(event_id@ =~= event_id_bytes(value.event_id));
    let mut event: Vec<u8> = Vec::new();
    append_length_delimited_field(&mut event, 0x0a, &event_id);
    append_varint_field(&mut event, 0x10, value.event_type_id.get() as u64);
    append_length_delimited_field(&mut event, 0x1a, &value.payload.encoded);
    append_length_delimited_field(&mut event, 0x22, value.event_hash.bytes.as_slice());
    assert(event@ =~= event_bytes(value@));
    event
}

/// The bytes of an index epoch, given those of its schema binding.
pub open spec fn epoch_bytes(advance: IndexAdvanceView, binding: Seq<u8>) -> Seq<u8> {
    tagged_bytes(0x0a, advance.post_image.partition_key) + tagged_varint(
        0x10,
        advance.post_image.index_id.value as u64,
    ) + tagged_bytes(0x1a, binding) + tagged_varint(0x20, advance.post_image.epoch.value)
}

/// The bytes of an optional prior epoch.
pub open spec fn prior_bytes(prior: Option<Id64>) -> Seq<u8> {
    match prior {
        Some(prior) => tagged_varint(0x10, prior.value),
        None => Seq::empty(),
    }
}

/// The bytes of an index advance, given those of its schema binding.
pub open spec fn advance_bytes(advance: IndexAdvanceView, binding: Seq<u8>) -> Seq<u8> {
    tagged_bytes(0x0a, epoch_bytes(advance, binding)) + prior_bytes(advance.prior)
}

/// Streams an index advance.
pub fn transition_bytes_for_seal(value: &IndexEpochAdvanceV1, binding: &[u8]) -> (result: Vec<u8>)
    ensures
        result@ == advance_bytes(value@, binding@),
{
    let mut post_image: Vec<u8> = Vec::new();
    append_length_delimited_field(&mut post_image, 0x0a, &value.post_image.partition_key);
    append_varint_field(&mut post_image, 0x10, value.post_image.index_id.get() as u64);
    append_length_delimited_field(&mut post_image, 0x1a, binding);
    append_varint_field(&mut post_image, 0x20, value.post_image.epoch.get());
    assert(post_image@ =~= epoch_bytes(value@, binding@));
    let mut transition: Vec<u8> = Vec::new();
    append_length_delimited_field(&mut transition, 0x0a, &post_image);
    match value.prior {
        Some(prior) => {
            append_varint_field(&mut transition, 0x10, prior.get());
        },
        None => {},
    }
    assert(transition@ =~= advance_bytes(value@, binding@));
    transition
}

/// The encodings of the generated messages inside one command: the plain command,
/// the schema binding of each index advance, each entity transition, and the whole
/// command in its latest form.
#[derive(Debug, PartialEq, Eq)]
pub struct CommandEncodings {
    pub base: Vec<u8>,
    pub bindings: Vec<Vec<u8>>,
    pub entity_transitions: Vec<Vec<u8>>,
    pub whole: Vec<u8>,
}

/// What the encodings inside one command are.
#[verifier::ext_equal]
pub ghost struct CommandEncodingsView {
    pub base: Seq<u8>,
    pub bindings: Seq<Seq<u8>>,
    pub entity_transitions: Seq<Seq<u8>>,
    pub whole: Seq<u8>,
}

/// The views of a list of byte strings.
pub open spec fn byte_views(values: Seq<Vec<u8>>) -> Seq<Seq<u8>> {
    Seq::new(values.len(), |i: int| values[i]@)
}

impl View for CommandEncodings {
    type V = CommandEncodingsView;

    open spec fn view(&self) -> CommandEncodingsView {
        CommandEncodingsView {
            base: self.base@,
            bindings: byte_views(self.bindings@),
            entity_transitions: byte_views(self.entity_transitions@),
            whole: self.whole@,
        }
    }
}

impl CommandEncodingsView {
    /// There is one encoding for each message inside a command.
    pub open spec fn fit(self, command: CompleteCommandView) -> bool {
        &&& self.bindings.len() == command.generations.len()
        &&& self.entity_transitions.len() == command.transitions.len()
    }
}

/// A repeated length-delimited field.
pub open spec fn repeated_bytes(key: u8, values: Seq<Seq<u8>>) -> Seq<u8>
    decreases values.len(),
{
    if values.len() == 0 {
        Seq::empty()
    } else {
        repeated_bytes(key, values.drop_last()) + tagged_bytes(key, values.last())
    }
}

/// The bytes of each event.
pub open spec fn all_event_bytes(events: Seq<DurableEventView>) -> Seq<Seq<u8>> {
    Seq::new(events.len(), |i: int| event_bytes(events[i]))
}

/// The bytes of each index advance.
pub open spec fn all_advance_bytes(
    advances: Seq<IndexAdvanceView>,
    bindings: Seq<Seq<u8>>,
) -> Seq<Seq<u8>> {
    Seq::new(advances.len(), |i: int| advance_bytes(advances[i], bindings[i]))
}

/// The bytes of the second form of a command.
pub open spec fn v2_bytes(
    command: CompleteCommandView,
    encodings: CommandEncodingsView,
) -> Seq<u8> {
    tagged_bytes(0x0a, encodings.base) + repeated_bytes(
        0x12,
        all_event_bytes(command.base.commit.events),
    ) + repeated_bytes(0x1a, all_advance_bytes(command.generations, encodings.bindings))
}

/// The bytes of the third form of a command.
pub open spec fn v3_bytes(
    command: CompleteCommandView,
    encodings: CommandEncodingsView,
) -> Seq<u8> {
    tagged_bytes(0x0a, v2_bytes(command, encodings)) + tagged_bytes(
        0x12,
        command.service_values.encoded,
    )
}

/// The bytes of the fourth form of a command.
pub open spec fn v4_bytes(
    command: CompleteCommandView,
    encodings: CommandEncodingsView,
) -> Seq<u8> {
    tagged_bytes(0x0a, v3_bytes(command, encodings)) + repeated_bytes(
        0x12,
        encodings.entity_transitions,
    )
}

proof fn repeated_bytes_grow(key: u8, values: Seq<Seq<u8>>, count: int)
    requires
        0 <= count < values.len(),
    ensures
        repeated_bytes(key, values.take(count + 1)) == repeated_bytes(key, values.take(count))
            + tagged_bytes(key, values[count]),
{
    assert(values.take(count + 1).drop_last() =~= values.take(count));
    assert(values.take(count + 1).last() == values[count]);
}

/// Streams the second form of a command.
#[verifier::loop_isolation(false)]
pub fn capsule_v2_bytes_for_seal(
    value: &StoredCommandCapsuleV2,
    encodings: &CommandEncodings,
) -> (result: Vec<u8>)
    requires
        encodings@.fit(value@),
    ensures
        result@ == v2_bytes(value@, encodings@),
{
    let mut capsule: Vec<u8> = Vec::new();
    append_length_delimited_field(&mut capsule, 0x0a, &encodings.base);
    let ghost head = capsule@;
    let ghost events = all_event_bytes(value@.base.commit.events);
    let mut i: usize = 0;
    assert(repeated_bytes(0x12, events.take(0)) =~= Seq::empty());
    while i < value.base.commit.events.len()
        invariant
            i <= value.base.commit.events@.len(),
            capsule@ =~= head + repeated_bytes(0x12, events.take(i as int)),
        decreases value.base.commit.events@.len() - i,
    {
        let event = event_bytes_for_seal(&value.base.commit.events[i]);
        proof {
            repeated_bytes_grow(0x12, events, i as int);
        }
        append_length_delimited_field(&mut capsule, 0x12, &event);
        i += 1;
    }
    assert(events.take(i as int) =~= events);
    let ghost middle = capsule@;
    let ghost advances = all_advance_bytes(value@.generations, encodings@.bindings);
    let mut j: usize = 0;
    assert(repeated_bytes(0x1a, advances.take(0)) =~= Seq::empty());
    while j < value.index_generation_transitions.len()
        invariant
            j <= value.index_generation_transitions@.len(),
            capsule@ =~= middle + repeated_bytes(0x1a, advances.take(j as int)),
        decreases value.index_generation_transitions@.len() - j,
    {
        let transition = transition_bytes_for_seal(
            &value.index_generation_transitions[j],
            &encodings.bindings[j],
        );
        proof {
            repeated_bytes_grow(0x1a, advances, j as int);
        }
        append_length_delimited_field(&mut capsule, 0x1a, &transition);
        j += 1;
    }
    assert(advances.take(j as int) =~= advances);
    assert(capsule@ =~= v2_bytes(value@, encodings@));
    capsule
}

/// Streams the third form of a command.
pub fn capsule_v3_bytes_for_seal(
    value: &StoredCommandCapsuleV2,
    encodings: &CommandEncodings,
) -> (result: Vec<u8>)
    requires
        encodings@.fit(value@),
    ensures
        result@ == v3_bytes(value@, encodings@),
{
    let base = capsule_v2_bytes_for_seal(value, encodings);
    let mut capsule: Vec<u8> = Vec::new();
    append_length_delimited_field(&mut capsule, 0x0a, &base);
    append_length_delimited_field(&mut capsule, 0x12, &value.service_values.encoded);
    assert(capsule@ =~= v3_bytes(value@, encodings@));
    capsule
}

/// Streams the fourth form of a command.
#[verifier::loop_isolation(false)]
pub fn capsule_v4_bytes_for_seal(
    value: &StoredCommandCapsuleV2,
    encodings: &CommandEncodings,
) -> (result: Vec<u8>)
    requires
        encodings@.fit(value@),
    ensures
        result@ == v4_bytes(value@, encodings@),
{
    let base = capsule_v3_bytes_for_seal(value, encodings);
    let mut capsule: Vec<u8> = Vec::new();
    append_length_delimited_field(&mut capsule, 0x0a, &base);
    let ghost head = capsule@;
    let ghost transitions = encodings@.entity_transitions;
    let mut i: usize = 0;
    assert(repeated_bytes(0x12, transitions.take(0)) =~= Seq::empty());
    while i < encodings.entity_transitions.len()
        invariant
            i <= encodings.entity_transitions@.len(),
            capsule@ =~= head + repeated_bytes(0x12, transitions.take(i as int)),
        decreases encodings.entity_transitions@.len() - i,
    {
        proof {
            repeated_bytes_grow(0x12, transitions, i as int);
        }
        append_length_delimited_field(&mut capsule, 0x12, &encodings.entity_transitions[i]);
        i += 1;
    }
    assert(transitions.take(i as int) =~= transitions);
    assert(capsule@ =~= v4_bytes(value@, encodings@));
    capsule
}

/// The bytes of a command as a member of a segment of a version.
pub open spec fn member_bytes(
    command: CompleteCommandView,
    encodings: CommandEncodingsView,
    version: CommandCapsuleWireVersionV1,
) -> Seq<u8> {
    match version {
        CommandCapsuleWireVersionV1::V4 => v4_bytes(command, encodings),
        _ => encodings.whole,
    }
}

/// Canonical command member prepared before ordered segment sealing.
///
/// The ordered writer joins the retained command to this exact sequence and wire
/// variant, so crossing a pure encoding lane does not rebuild or hash the member.
#[derive(Debug, PartialEq, Eq)]
pub struct PreparedCommandSegmentCapsuleV1 {
    pub commit_sequence: CommitSequence,
    pub wire_version: CommandCapsuleWireVersionV1,
    pub bytes: Vec<u8>,
}

impl PreparedCommandSegmentCapsuleV1 {
    /// Returns the authoritative command sequence bound into these bytes.
    pub fn commit_sequence(&self) -> (result: CommitSequence)
        ensures
            result == self.commit_sequence,
    {
        self.commit_sequence
    }
}

/// Whether a prepared member is the member of a command in a segment of a
/// version.
pub open spec fn prepares(
    prepared: PreparedCommandSegmentCapsuleV1,
    command: CompleteCommandView,
    encodings: CommandEncodingsView,
    version: CommandCapsuleWireVersionV1,
) -> bool {
    &&& prepared.commit_sequence == command.commit_sequence()
    &&& prepared.wire_version == version
    &&& prepared.bytes@ == member_bytes(command, encodings, version)
}

fn copied(bytes: &Vec<u8>) -> (result: Vec<u8>)
    ensures
        result@ == bytes@,
{
    let mut result: Vec<u8> = Vec::new();
    append_bytes(&mut result, bytes);
    assert(result@ =~= bytes@);
    result
}

/// Canonically encodes one immutable command-segment member exactly once. A
/// version that cannot hold the command breaks an invariant.
pub fn prepare_command_segment_capsule_v1(
    value: &StoredCommandCapsuleV2,
    wire_version: CommandCapsuleWireVersionV1,
    encodings: &CommandEncodings,
) -> (result: Result<PreparedCommandSegmentCapsuleV1, DurableCodecError>)
    requires
        encodings@.fit(value@),
    ensures
        if capsule_version(value@).rank() > wire_version.rank() {
            result == Err::<PreparedCommandSegmentCapsuleV1, _>(
                DurableCodecError { kind: DurableCodecErrorKind::InvariantViolation },
            )
        } else {
            result is Ok && prepares(result->Ok_0, value@, encodings@, wire_version)
        },
{
    let required = command_capsule_wire_version_v1(value);
    if required.rank() > wire_version.rank() {
        return Err(DurableCodecError::invariant_violation());
    }
    let bytes = match wire_version {
        CommandCapsuleWireVersionV1::V4 => capsule_v4_bytes_for_seal(value, encodings),
        CommandCapsuleWireVersionV1::V5 => copied(&encodings.whole),
        CommandCapsuleWireVersionV1::V6 => copied(&encodings.whole),
    };
    Ok(
        PreparedCommandSegmentCapsuleV1 {
            commit_sequence: value.commit_sequence(),
            wire_version,
            bytes,
        },
    )
}

/// The bytes of a manifest entry.
pub open spec fn entry_bytes(entry: ManifestEntryView) -> Seq<u8> {
    tagged_varint(0x08, derived_kind_code(entry.kind) as u64) + tagged_varint(
        0x10,
        derived_member_code(entry.member) as u64,
    ) + tagged_bytes(0x1a, entry.exact_key) + tagged_varint(0x20, entry.command_ordinal as u64)
        + tagged_varint(0x28, entry.member_ordinal as u64) + tagged_varint(
        0x30,
        entry.segment_first_commit_sequence.value,
    )
}

fn append_manifest_entry(output: &mut Vec<u8>, value: &CommandDerivedIndexManifestEntryV1)
    ensures
        final(output)@ == old(output)@ + tagged_bytes(0x0a, entry_bytes(value@)),
{
    let mut entry: Vec<u8> = Vec::new();
    append_varint_field(&mut entry, 0x08, derived_kind_to_code(value.kind) as u64);
    append_varint_field(&mut entry, 0x10, derived_member_to_code(value.member) as u64);
    append_length_delimited_field(&mut entry, 0x1a, &value.exact_key);
    append_varint_field(&mut entry, 0x20, value.command_ordinal as u64);
    append_varint_field(&mut entry, 0x28, value.member_ordinal as u64);
    append_varint_field(&mut entry, 0x30, value.segment_first_commit_sequence.get());
    assert(entry@ =~= entry_bytes(value@));
    append_length_delimited_field(output, 0x0a, &entry);
}

/// The bytes of each manifest entry.
pub open spec fn all_entry_bytes(entries: Seq<ManifestEntryView>) -> Seq<Seq<u8>> {
    Seq::new(entries.len(), |i: int| entry_bytes(entries[i]))
}

/// The bytes of a manifest's entries, which its digest is taken of.
pub open spec fn entries_bytes(entries: Seq<ManifestEntryView>) -> Seq<u8> {
    repeated_bytes(0x0a, all_entry_bytes(entries))
}

/// The bytes of a manifest with its digest.
pub open spec fn manifest_bytes(entries: Seq<ManifestEntryView>, digest: Digest) -> Seq<u8> {
    entries_bytes(entries) + tagged_bytes(0x12, digest.bytes@)
}

/// Streams the entries of a manifest.
#[verifier::loop_isolation(false)]
pub fn manifest_entries_for_seal(value: &CommandSegmentManifestV1) -> (result: Vec<u8>)
    ensures
        result@ == entries_bytes(value@),
{
    let mut manifest: Vec<u8> = Vec::new();
    let ghost entries = all_entry_bytes(value@);
    let mut i: usize = 0;
    assert(repeated_bytes(0x0a, entries.take(0)) =~= Seq::empty());
    while i < value.entries.len()
        invariant
            i <= value.entries@.len(),
            manifest@ =~= repeated_bytes(0x0a, entries.take(i as int)),
        decreases value.entries@.len() - i,
    {
        proof {
            repeated_bytes_grow(0x0a, entries, i as int);
        }
        append_manifest_entry(&mut manifest, &value.entries[i]);
        i += 1;
    }
    assert(entries.take(i as int) =~= entries);
    manifest
}

/// Streams a manifest with its digest.
pub fn manifest_bytes_for_seal(value: &CommandSegmentManifestV1, digest: Digest)
    -> (result: Vec<u8>)
    ensures
        result@ == manifest_bytes(value@, digest),
{
    let mut manifest = manifest_entries_for_seal(value);
    append_length_delimited_field(&mut manifest, 0x12, digest.bytes.as_slice());
    manifest
}

/// What the digest of a manifest is taken of: a label, then its entries.
pub fn manifest_digest_preimage(value: &CommandSegmentManifestV1) -> (result: Vec<u8>)
    ensures
        result@ == MANIFEST_DIGEST_LABEL@ + entries_bytes(value@),
{
    labelled(MANIFEST_DIGEST_LABEL.as_slice(), &manifest_entries_for_seal(value))
}

/// What the digest of a segment is taken of: a label, then its body.
pub fn segment_digest_preimage(body: &[u8]) -> (result: Vec<u8>)
    ensures
        result@ == SEGMENT_DIGEST_LABEL@ + body@,
{
    labelled(SEGMENT_DIGEST_LABEL.as_slice(), body)
}

/// What the digest of a checkpoint is taken of: a label, then its message without
/// its digest.
pub fn checkpoint_digest_preimage(message: &[u8]) -> (result: Vec<u8>)
    ensures
        result@ == CHECKPOINT_DIGEST_LABEL@ + message@,
{
    labelled(CHECKPOINT_DIGEST_LABEL.as_slice(), message)
}

/// Bytes behind a label.
pub fn labelled(label: &[u8], bytes: &[u8]) -> (result: Vec<u8>)
    ensures
        result@ == label@ + bytes@,
{
    let mut preimage: Vec<u8> = Vec::new();
    append_bytes(&mut preimage, label);
    append_bytes(&mut preimage, bytes);
    assert(preimage@ =~= label@ + bytes@);
    preimage
}

/// The bytes of an optional predecessor digest.
pub open spec fn predecessor_bytes(predecessor: Option<Digest>) -> Seq<u8> {
    match predecessor {
        Some(digest) => tagged_bytes(0x1a, digest.bytes@),
        None => Seq::empty(),
    }
}

/// The bytes of a segment body before its commands.
pub open spec fn body_head_bytes(segment: CommandSegmentView) -> Seq<u8> {
    tagged_bytes(0x0a, segment.database_id.bytes@) + tagged_varint(
        0x10,
        segment.history_incarnation,
    ) + predecessor_bytes(segment.predecessor) + tagged_varint(
        0x20,
        segment.first_commit().value,
    ) + tagged_varint(0x28, segment.last_commit().value) + tagged_varint(
        0x30,
        segment.first_administration().value,
    ) + tagged_varint(0x38, segment.last_administration().value)
}

/// The bytes of a segment body with given members.
pub open spec fn body_bytes(
    segment: CommandSegmentView,
    members: Seq<Seq<u8>>,
    manifest_digest: Digest,
) -> Seq<u8> {
    body_head_bytes(segment) + repeated_bytes(0x42, members) + tagged_bytes(
        0x4a,
        manifest_bytes(segment.manifest, manifest_digest),
    )
}

fn append_predecessor(body: &mut Vec<u8>, predecessor: Option<Digest>)
    ensures
        final(body)@ == old(body)@ + predecessor_bytes(predecessor),
{
    match predecessor {
        Some(digest) => {
            append_length_delimited_field(body, 0x1a, digest.bytes.as_slice());
        },
        None => {
            assert(body@ =~= old(body)@ + predecessor_bytes(predecessor));
        },
    }
}

fn append_body_head(body: &mut Vec<u8>, value: &StoredCommandSegmentV1)
    requires
        value@.wf(),
    ensures
        final(body)@ == old(body)@ + body_head_bytes(value@),
{
    let ghost before = body@;
    append_length_delimited_field(body, 0x0a, value.database_id.bytes.as_slice());
    let ghost one = tagged_bytes(0x0a, value.database_id.bytes@);
    append_varint_field(body, 0x10, value.history_incarnation);
    let ghost two = one + tagged_varint(0x10, value.history_incarnation);
    assert(body@ =~= before + two);
    append_predecessor(body, value.predecessor);
    let ghost three = two + predecessor_bytes(value.predecessor);
    assert(body@ =~= before + three);
    append_varint_field(body, 0x20, value.first_commit_sequence().get());
    let ghost four = three + tagged_varint(0x20, value@.first_commit().value);
    assert(body@ =~= before + four);
    append_varint_field(body, 0x28, value.last_commit_sequence().get());
    let ghost five = four + tagged_varint(0x28, value@.last_commit().value);
    assert(body@ =~= before + five);
    append_varint_field(body, 0x30, value.first_administration_sequence().get());
    let ghost six = five + tagged_varint(0x30, value@.first_administration().value);
    assert(body@ =~= before + six);
    append_varint_field(body, 0x38, value.last_administration_sequence().get());
    let ghost seven = six + tagged_varint(0x38, value@.last_administration().value);
    assert(body@ =~= before + seven);
}

/// The views of the encodings of a list of commands.
pub open spec fn encoding_views(values: Seq<CommandEncodings>) -> Seq<CommandEncodingsView> {
    Seq::new(values.len(), |i: int| values[i]@)
}

/// There are encodings for each command, and they fit it.
pub open spec fn encodings_fit(
    encodings: Seq<CommandEncodingsView>,
    commands: Seq<CompleteCommandView>,
) -> bool {
    &&& encodings.len() == commands.len()
    &&& forall|i: int| 0 <= i < commands.len() ==> (#[trigger] encodings[i]).fit(commands[i])
}

/// The bytes of the commands of a segment of a version.
pub open spec fn members_bytes(
    commands: Seq<CompleteCommandView>,
    encodings: Seq<CommandEncodingsView>,
    version: CommandCapsuleWireVersionV1,
) -> Seq<Seq<u8>> {
    Seq::new(commands.len(), |i: int| member_bytes(commands[i], encodings[i], version))
}

/// The bytes of a segment's body in its own version.
pub open spec fn segment_body_bytes(
    segment: CommandSegmentView,
    encodings: Seq<CommandEncodingsView>,
    manifest_digest: Digest,
) -> Seq<u8> {
    body_bytes(
        segment,
        members_bytes(segment.commands, encodings, segment_version(segment.commands)),
        manifest_digest,
    )
}

fn member_bytes_for_seal(
    value: &StoredCommandCapsuleV2,
    encodings: &CommandEncodings,
    version: CommandCapsuleWireVersionV1,
) -> (result: Vec<u8>)
    requires
        encodings@.fit(value@),
    ensures
        result@ == member_bytes(value@, encodings@, version),
{
    match version {
        CommandCapsuleWireVersionV1::V4 => capsule_v4_bytes_for_seal(value, encodings),
        CommandCapsuleWireVersionV1::V5 => copied(&encodings.whole),
        CommandCapsuleWireVersionV1::V6 => copied(&encodings.whole),
    }
}

fn append_members(
    body: &mut Vec<u8>,
    commands: &[StoredCommandCapsuleV2],
    encodings: &[CommandEncodings],
    version: CommandCapsuleWireVersionV1,
)
    requires
        encodings_fit(encoding_views(encodings@), command_views(commands@)),
    ensures
        final(body)@ == old(body)@ + repeated_bytes(
            0x42,
            members_bytes(command_views(commands@), encoding_views(encodings@), version),
        ),
{
    let ghost head = body@;
    let ghost views = command_views(commands@);
    let ghost given = encoding_views(encodings@);
    let ghost members = members_bytes(views, given, version);
    let mut i: usize = 0;
    assert(repeated_bytes(0x42, members.take(0)) =~= Seq::empty());
    while i < commands.len()
        invariant
            i <= commands@.len(),
            views == command_views(commands@),
            given == encoding_views(encodings@),
            encodings_fit(given, views),
            members == members_bytes(views, given, version),
            body@ =~= head + repeated_bytes(0x42, members.take(i as int)),
        decreases commands@.len() - i,
    {
        proof {
            assert(given[i as int].fit(views[i as int]));
            repeated_bytes_grow(0x42, members, i as int);
        }
        let command = member_bytes_for_seal(&commands[i], &encodings[i], version);
        append_length_delimited_field(body, 0x42, &command);
        i += 1;
    }
    assert(members.take(i as int) =~= members);
}

/// Streams the canonical body while inserting the nested manifest digest. At most
/// one command's bytes and one manifest entry are built at a time.
pub fn segment_body_bytes_for_seal(
    value: &StoredCommandSegmentV1,
    encodings: &[CommandEncodings],
    manifest_digest: Digest,
) -> (result: Vec<u8>)
    requires
        value@.wf(),
        encodings_fit(encoding_views(encodings@), value@.commands),
    ensures
        result@ == segment_body_bytes(value@, encoding_views(encodings@), manifest_digest),
{
    let version = command_segment_wire_version_v1(&value.commands);
    let manifest = manifest_bytes_for_seal(&value.manifest, manifest_digest);
    let mut body: Vec<u8> = Vec::new();
    append_body_head(&mut body, value);
    append_members(&mut body, &value.commands, encodings, version);
    append_length_delimited_field(&mut body, 0x4a, &manifest);
    assert(body@ =~= segment_body_bytes(value@, encoding_views(encodings@), manifest_digest));
    body
}

/// The bytes of prepared members.
pub open spec fn prepared_bytes(prepared: Seq<PreparedCommandSegmentCapsuleV1>) -> Seq<Seq<u8>> {
    Seq::new(prepared.len(), |i: int| prepared[i].bytes@)
}

/// Whether prepared members are those of a segment's commands, by count, place and
/// wire variant.
pub open spec fn prepared_fit(
    segment: CommandSegmentView,
    prepared: Seq<PreparedCommandSegmentCapsuleV1>,
) -> bool {
    &&& prepared.len() == segment.commands.len()
    &&& forall|i: int|
        0 <= i < prepared.len() ==> (#[trigger] prepared[i]).commit_sequence
            == segment.commands[i].commit_sequence() && prepared[i].wire_version
            == segment_version(segment.commands)
}

/// Streams the body of a segment from prepared members. A stale, reordered,
/// incomplete or wrong-variant preparation breaks an invariant before any durable
/// bytes are made.
#[verifier::loop_isolation(false)]
pub fn segment_body_bytes_with_prepared_capsules(
    value: &StoredCommandSegmentV1,
    prepared: &[PreparedCommandSegmentCapsuleV1],
    manifest_digest: Digest,
) -> (result: Result<(Vec<u8>, CommandCapsuleWireVersionV1), DurableCodecError>)
    requires
        value@.wf(),
    ensures
        if prepared_fit(value@, prepared@) {
            result is Ok && result->Ok_0.0@ == body_bytes(
                value@,
                prepared_bytes(prepared@),
                manifest_digest,
            ) && result->Ok_0.1 == segment_version(value@.commands)
        } else {
            result == Err::<(Vec<u8>, CommandCapsuleWireVersionV1), _>(
                DurableCodecError { kind: DurableCodecErrorKind::InvariantViolation },
            )
        },
{
    let wire_version = command_segment_wire_version_v1(&value.commands);
    if prepared.len() != value.commands.len() {
        return Err(DurableCodecError::invariant_violation());
    }
    let mut j: usize = 0;
    while j < prepared.len()
        invariant
            j <= prepared@.len(),
            prepared@.len() == value.commands@.len(),
            forall|k: int|
                0 <= k < j ==> (#[trigger] prepared@[k]).commit_sequence
                    == value@.commands[k].commit_sequence() && prepared@[k].wire_version
                    == wire_version,
        decreases prepared@.len() - j,
    {
        let fits = prepared[j].commit_sequence == value.commands[j].commit_sequence()
            && prepared[j].wire_version == wire_version;
        if !fits {
            assert(!(prepared@[j as int].commit_sequence
                == value@.commands[j as int].commit_sequence()
                && prepared@[j as int].wire_version == wire_version));
            return Err(DurableCodecError::invariant_violation());
        }
        j += 1;
    }
    let manifest = manifest_bytes_for_seal(&value.manifest, manifest_digest);
    let mut body: Vec<u8> = Vec::new();
    append_body_head(&mut body, value);
    let ghost head = body@;
    let ghost members = prepared_bytes(prepared@);
    let mut i: usize = 0;
    assert(repeated_bytes(0x42, members.take(0)) =~= Seq::empty());
    while i < prepared.len()
        invariant
            i <= prepared@.len(),
            body@ =~= head + repeated_bytes(0x42, members.take(i as int)),
        decreases prepared@.len() - i,
    {
        proof {
            repeated_bytes_grow(0x42, members, i as int);
        }
        append_length_delimited_field(&mut body, 0x42, &prepared[i].bytes);
        i += 1;
    }
    assert(members.take(i as int) =~= members);
    append_length_delimited_field(&mut body, 0x4a, &manifest);
    assert(body@ =~= body_bytes(value@, prepared_bytes(prepared@), manifest_digest));
    Ok((body, wire_version))
}

/// A segment sealed from prepared members has the body that it would have had if
/// it were streamed as a whole.
pub proof fn prepared_members_seal_the_same_body(
    segment: CommandSegmentView,
    encodings: Seq<CommandEncodingsView>,
    prepared: Seq<PreparedCommandSegmentCapsuleV1>,
    manifest_digest: Digest,
)
    requires
        encodings_fit(encodings, segment.commands),
        prepared.len() == segment.commands.len(),
        forall|i: int|
            0 <= i < prepared.len() ==> prepares(
                #[trigger] prepared[i],
                segment.commands[i],
                encodings[i],
                segment_version(segment.commands),
            ),
    ensures
        prepared_fit(segment, prepared),
        body_bytes(segment, prepared_bytes(prepared), manifest_digest) == segment_body_bytes(
            segment,
            encodings,
            manifest_digest,
        ),
{
    let version = segment_version(segment.commands);
    assert(prepared_bytes(prepared) =~= members_bytes(segment.commands, encodings, version));
}

/// The bytes of a segment's message.
pub open spec fn segment_payload_bytes(body: Seq<u8>, digest: Digest) -> Seq<u8> {
    tagged_bytes(0x0a, body) + tagged_bytes(0x12, digest.bytes@)
}

/// Streams a segment's message from its body and its digest.
pub fn raw_segment_payload(body: &[u8], digest: Digest) -> (result: Vec<u8>)
    ensures
        result@ == segment_payload_bytes(body@, digest),
{
    let mut payload: Vec<u8> = Vec::new();
    append_length_delimited_field(&mut payload, 0x0a, body);
    append_length_delimited_field(&mut payload, 0x12, digest.bytes.as_slice());
    assert(payload@ =~= segment_payload_bytes(body@, digest));
    payload
}

} // verus!
