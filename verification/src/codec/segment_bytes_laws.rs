//! The streamed bytes of a segment are the canonical encodings of its messages.
//!
//! A canonical encoding holds the fields of a message in order. It leaves out
//! integers that are zero and byte strings that are empty.

use vstd::prelude::*;

use crate::codec::command_segment::{derived_kind_code, derived_member_code};
use crate::codec::segment_bytes::{
    advance_bytes, all_advance_bytes, all_entry_bytes, all_event_bytes, body_bytes, body_head_bytes,
    entries_bytes, entry_bytes, epoch_bytes, event_bytes, event_id_bytes, manifest_bytes,
    repeated_bytes, segment_payload_bytes, tagged_bytes, tagged_varint, v2_bytes, v3_bytes,
    v4_bytes, CommandEncodingsView,
};
use crate::ids::{Digest, EventId};
use crate::protobuf::{delimited_field_bytes, field_key, varint_bytes, varint_field_bytes, WireType};
use crate::records::DurableEventView;
use crate::stored::command_segment::{IndexAdvanceView, ManifestEntryView};
use crate::stored::segment::{CommandSegmentView, CompleteCommandView};

verus! {

/// One field of a message.
pub ghost enum ProtoField {
    /// An integer, left out where it is zero.
    Integer(nat, u64),
    /// An integer that is there, zero or not.
    Present(nat, u64),
    /// A byte string, left out where it is empty.
    Bytes(nat, Seq<u8>),
    /// An item of a repeated field or a message that is there.
    Item(nat, Seq<u8>),
}

/// The bytes of one field.
pub open spec fn field_encoding(field: ProtoField) -> Seq<u8> {
    match field {
        ProtoField::Integer(number, value) => if value == 0 {
            Seq::empty()
        } else {
            varint_field_bytes(number, value as nat)
        },
        ProtoField::Present(number, value) => varint_field_bytes(number, value as nat),
        ProtoField::Bytes(number, value) => if value.len() == 0 {
            Seq::empty()
        } else {
            delimited_field_bytes(number, value)
        },
        ProtoField::Item(number, value) => delimited_field_bytes(number, value),
    }
}

/// The bytes of a message with these fields.
pub open spec fn message_encoding(fields: Seq<ProtoField>) -> Seq<u8>
    decreases fields.len(),
{
    if fields.len() == 0 {
        Seq::empty()
    } else {
        message_encoding(fields.drop_last()) + field_encoding(fields.last())
    }
}

/// The items of a repeated field.
pub open spec fn items(number: nat, values: Seq<Seq<u8>>) -> Seq<ProtoField> {
    Seq::new(values.len(), |i: int| ProtoField::Item(number, values[i]))
}

proof fn encoding_of_one_more(fields: Seq<ProtoField>, field: ProtoField)
    ensures
        message_encoding(fields.push(field)) == message_encoding(fields) + field_encoding(field),
{
    assert(fields.push(field).drop_last() =~= fields);
}

proof fn encoding_of_joined_fields(a: Seq<ProtoField>, b: Seq<ProtoField>)
    ensures
        message_encoding(a + b) == message_encoding(a) + message_encoding(b),
    decreases b.len(),
{
    if b.len() == 0 {
        assert(a + b =~= a);
        assert(message_encoding(a) + message_encoding(b) =~= message_encoding(a));
    } else {
        encoding_of_joined_fields(a, b.drop_last());
        assert((a + b).drop_last() =~= a + b.drop_last());
        assert(message_encoding(a + b) =~= message_encoding(a) + message_encoding(b));
    }
}

/// A one-byte key names its field.
proof fn keys_name_fields(number: nat, value: Seq<u8>, integer: u64)
    requires
        0 < number < 16,
    ensures
        tagged_bytes((number * 8 + 2) as u8, value) == delimited_field_bytes(number, value),
        tagged_varint((number * 8) as u8, integer) == field_encoding(
            ProtoField::Integer(number, integer),
        ),
{
    assert(varint_bytes(field_key(number, WireType::LengthDelimited)) =~= seq![
        (number * 8 + 2) as u8,
    ]);
    assert(varint_bytes(field_key(number, WireType::Varint)) =~= seq![(number * 8) as u8]);
}

proof fn repeated_bytes_are_items(number: nat, values: Seq<Seq<u8>>)
    requires
        0 < number < 16,
    ensures
        repeated_bytes((number * 8 + 2) as u8, values) == message_encoding(items(number, values)),
    decreases values.len(),
{
    if values.len() > 0 {
        repeated_bytes_are_items(number, values.drop_last());
        assert(items(number, values).drop_last() =~= items(number, values.drop_last()));
        keys_name_fields(number, values.last(), 0);
    }
}

/// The fields of an event identity.
pub open spec fn event_id_message(value: EventId) -> Seq<ProtoField> {
    seq![
        ProtoField::Integer(1, value.commit_sequence.value),
        ProtoField::Integer(2, value.event_ordinal as u64),
    ]
}

/// The fields of an event.
pub open spec fn event_message(event: DurableEventView) -> Seq<ProtoField> {
    seq![
        ProtoField::Item(1, message_encoding(event_id_message(event.event_id))),
        ProtoField::Integer(2, event.event_type_id.value as u64),
        ProtoField::Bytes(3, event.payload.encoded),
        ProtoField::Bytes(4, event.event_hash.bytes@),
    ]
}

/// The streamed bytes of an event are its canonical encoding.
pub proof fn events_are_canonical(event: DurableEventView)
    requires
        event.payload.encoded.len() > 0,
    ensures
        event_bytes(event) == message_encoding(event_message(event)),
{
    reveal_with_fuel(message_encoding, 5);
    keys_name_fields(1, event_id_bytes(event.event_id), event.event_id.commit_sequence.value);
    keys_name_fields(2, Seq::empty(), event.event_id.event_ordinal as u64);
    keys_name_fields(2, Seq::empty(), event.event_type_id.value as u64);
    keys_name_fields(3, event.payload.encoded, 0);
    keys_name_fields(4, event.event_hash.bytes@, 0);
    let id = event_id_message(event.event_id);
    assert(message_encoding(id) =~= event_id_bytes(event.event_id)) by {
        assert(id.drop_last() =~= seq![id[0]]);
        assert(id.drop_last().drop_last() =~= Seq::empty());
    }
    four_fields(event_message(event));
    assert(event_bytes(event) =~= message_encoding(event_message(event)));
}

proof fn four_fields(fields: Seq<ProtoField>)
    requires
        fields.len() == 4,
    ensures
        message_encoding(fields) == field_encoding(fields[0]) + field_encoding(fields[1])
            + field_encoding(fields[2]) + field_encoding(fields[3]),
{
    reveal_with_fuel(message_encoding, 5);
    let three = fields.drop_last();
    let two = three.drop_last();
    let one = two.drop_last();
    assert(one.drop_last() =~= Seq::empty());
    assert(message_encoding(one) =~= field_encoding(fields[0]));
}

proof fn two_fields(fields: Seq<ProtoField>)
    requires
        fields.len() == 2,
    ensures
        message_encoding(fields) == field_encoding(fields[0]) + field_encoding(fields[1]),
{
    reveal_with_fuel(message_encoding, 3);
    let one = fields.drop_last();
    assert(one.drop_last() =~= Seq::empty());
    assert(message_encoding(one) =~= field_encoding(fields[0]));
}

proof fn six_fields(fields: Seq<ProtoField>)
    requires
        fields.len() == 6,
    ensures
        message_encoding(fields) == field_encoding(fields[0]) + field_encoding(fields[1])
            + field_encoding(fields[2]) + field_encoding(fields[3]) + field_encoding(fields[4])
            + field_encoding(fields[5]),
{
    reveal_with_fuel(message_encoding, 3);
    let five = fields.drop_last();
    four_fields(five.drop_last());
}

/// The fields of an index epoch, given the encoding of its schema binding.
pub open spec fn epoch_message(advance: IndexAdvanceView, binding: Seq<u8>) -> Seq<ProtoField> {
    seq![
        ProtoField::Bytes(1, advance.post_image.partition_key),
        ProtoField::Integer(2, advance.post_image.index_id.value as u64),
        ProtoField::Item(3, binding),
        ProtoField::Integer(4, advance.post_image.epoch.value),
    ]
}

/// The fields of an index advance, given the encoding of its schema binding. The
/// prior epoch, where there is one, is not zero.
pub open spec fn advance_message(advance: IndexAdvanceView, binding: Seq<u8>) -> Seq<ProtoField> {
    seq![
        ProtoField::Item(1, message_encoding(epoch_message(advance, binding))),
        ProtoField::Integer(
            2,
            match advance.prior {
                Some(prior) => prior.value,
                None => 0,
            },
        ),
    ]
}

/// The streamed bytes of an index advance are its canonical encoding.
pub proof fn advances_are_canonical(advance: IndexAdvanceView, binding: Seq<u8>)
    requires
        advance.post_image.partition_key.len() > 0,
    ensures
        advance_bytes(advance, binding) == message_encoding(advance_message(advance, binding)),
{
    let epoch = epoch_message(advance, binding);
    keys_name_fields(1, advance.post_image.partition_key, 0);
    keys_name_fields(2, Seq::empty(), advance.post_image.index_id.value as u64);
    keys_name_fields(3, binding, 0);
    keys_name_fields(4, Seq::empty(), advance.post_image.epoch.value);
    four_fields(epoch);
    assert(epoch_bytes(advance, binding) =~= message_encoding(epoch));
    keys_name_fields(1, message_encoding(epoch), 0);
    let fields = advance_message(advance, binding);
    two_fields(fields);
    match advance.prior {
        Some(prior) => {
            keys_name_fields(2, Seq::empty(), prior.value);
        },
        None => {},
    }
    assert(advance_bytes(advance, binding) =~= message_encoding(fields));
}

/// The fields of the second form of a command.
pub open spec fn v2_message(
    command: CompleteCommandView,
    encodings: CommandEncodingsView,
) -> Seq<ProtoField> {
    items(1, seq![encodings.base]) + items(2, all_event_bytes(command.base.commit.events)) + items(
        3,
        all_advance_bytes(command.generations, encodings.bindings),
    )
}

/// The fields of the third form of a command.
pub open spec fn v3_message(
    command: CompleteCommandView,
    encodings: CommandEncodingsView,
) -> Seq<ProtoField> {
    seq![
        ProtoField::Item(1, message_encoding(v2_message(command, encodings))),
        ProtoField::Bytes(2, command.service_values.encoded),
    ]
}

/// The fields of the fourth form of a command.
pub open spec fn v4_message(
    command: CompleteCommandView,
    encodings: CommandEncodingsView,
) -> Seq<ProtoField> {
    items(1, seq![message_encoding(v3_message(command, encodings))]) + items(
        2,
        encodings.entity_transitions,
    )
}

proof fn one_item(number: nat, value: Seq<u8>)
    requires
        0 < number < 16,
    ensures
        message_encoding(items(number, seq![value])) == tagged_bytes(
            (number * 8 + 2) as u8,
            value,
        ),
{
    reveal_with_fuel(message_encoding, 2);
    let fields = items(number, seq![value]);
    assert(fields.drop_last() =~= Seq::empty());
    keys_name_fields(number, value, 0);
    assert(message_encoding(fields) =~= tagged_bytes((number * 8 + 2) as u8, value));
}

/// The streamed bytes of a command, in every form up to the fourth, are its
/// canonical encoding.
pub proof fn commands_are_canonical(command: CompleteCommandView, encodings: CommandEncodingsView)
    requires
        command.service_values.encoded.len() > 0,
    ensures
        v2_bytes(command, encodings) == message_encoding(v2_message(command, encodings)),
        v3_bytes(command, encodings) == message_encoding(v3_message(command, encodings)),
        v4_bytes(command, encodings) == message_encoding(v4_message(command, encodings)),
{
    let events = all_event_bytes(command.base.commit.events);
    let advances = all_advance_bytes(command.generations, encodings.bindings);
    one_item(1, encodings.base);
    repeated_bytes_are_items(2, events);
    repeated_bytes_are_items(3, advances);
    encoding_of_joined_fields(items(1, seq![encodings.base]), items(2, events));
    encoding_of_joined_fields(
        items(1, seq![encodings.base]) + items(2, events),
        items(3, advances),
    );
    assert(v2_bytes(command, encodings) =~= message_encoding(v2_message(command, encodings)));
    keys_name_fields(1, v2_bytes(command, encodings), 0);
    keys_name_fields(2, command.service_values.encoded, 0);
    two_fields(v3_message(command, encodings));
    assert(v3_bytes(command, encodings) =~= message_encoding(v3_message(command, encodings)));
    one_item(1, v3_bytes(command, encodings));
    repeated_bytes_are_items(2, encodings.entity_transitions);
    encoding_of_joined_fields(
        items(1, seq![v3_bytes(command, encodings)]),
        items(2, encodings.entity_transitions),
    );
    assert(v4_bytes(command, encodings) =~= message_encoding(v4_message(command, encodings)));
}

/// The fields of a manifest entry.
pub open spec fn entry_message(entry: ManifestEntryView) -> Seq<ProtoField> {
    seq![
        ProtoField::Integer(1, derived_kind_code(entry.kind) as u64),
        ProtoField::Integer(2, derived_member_code(entry.member) as u64),
        ProtoField::Bytes(3, entry.exact_key),
        ProtoField::Integer(4, entry.command_ordinal as u64),
        ProtoField::Integer(5, entry.member_ordinal as u64),
        ProtoField::Integer(6, entry.segment_first_commit_sequence.value),
    ]
}

/// The streamed bytes of a manifest entry are its canonical encoding.
pub proof fn entries_are_canonical(entry: ManifestEntryView)
    requires
        entry.exact_key.len() > 0,
    ensures
        entry_bytes(entry) == message_encoding(entry_message(entry)),
{
    keys_name_fields(1, Seq::empty(), derived_kind_code(entry.kind) as u64);
    keys_name_fields(2, Seq::empty(), derived_member_code(entry.member) as u64);
    keys_name_fields(3, entry.exact_key, 0);
    keys_name_fields(4, Seq::empty(), entry.command_ordinal as u64);
    keys_name_fields(5, Seq::empty(), entry.member_ordinal as u64);
    keys_name_fields(6, Seq::empty(), entry.segment_first_commit_sequence.value);
    six_fields(entry_message(entry));
    assert(entry_bytes(entry) =~= message_encoding(entry_message(entry)));
}

/// The fields of a manifest: its entries, and its digest where it has one yet.
pub open spec fn manifest_message(
    entries: Seq<ManifestEntryView>,
    digest: Seq<u8>,
) -> Seq<ProtoField> {
    items(1, all_entry_bytes(entries)).push(ProtoField::Bytes(2, digest))
}

/// The streamed bytes of a manifest are its canonical encoding, and those that its
/// digest is taken of are its canonical encoding without a digest.
pub proof fn manifests_are_canonical(entries: Seq<ManifestEntryView>, digest: Digest)
    ensures
        entries_bytes(entries) == message_encoding(manifest_message(entries, Seq::empty())),
        manifest_bytes(entries, digest) == message_encoding(
            manifest_message(entries, digest.bytes@),
        ),
{
    let listed = items(1, all_entry_bytes(entries));
    repeated_bytes_are_items(1, all_entry_bytes(entries));
    encoding_of_one_more(listed, ProtoField::Bytes(2, Seq::empty()));
    encoding_of_one_more(listed, ProtoField::Bytes(2, digest.bytes@));
    keys_name_fields(2, digest.bytes@, 0);
    assert(entries_bytes(entries) =~= message_encoding(manifest_message(entries, Seq::empty())));
}

/// The fields of a segment body before its commands.
pub open spec fn body_head_message(segment: CommandSegmentView) -> Seq<ProtoField> {
    seq![
        ProtoField::Bytes(1, segment.database_id.bytes@),
        ProtoField::Integer(2, segment.history_incarnation),
        ProtoField::Bytes(
            3,
            match segment.predecessor {
                Some(digest) => digest.bytes@,
                None => Seq::empty(),
            },
        ),
        ProtoField::Integer(4, segment.first_commit().value),
        ProtoField::Integer(5, segment.last_commit().value),
        ProtoField::Integer(6, segment.first_administration().value),
    ].push(ProtoField::Integer(7, segment.last_administration().value))
}

/// The fields of a segment body with given members.
pub open spec fn body_message(
    segment: CommandSegmentView,
    members: Seq<Seq<u8>>,
    manifest_digest: Digest,
) -> Seq<ProtoField> {
    (body_head_message(segment) + items(8, members)).push(
        ProtoField::Item(
            9,
            message_encoding(manifest_message(segment.manifest, manifest_digest.bytes@)),
        ),
    )
}

/// The streamed bytes of a segment body, from whatever members, are its canonical
/// encoding, and so are those of the whole segment.
pub proof fn segments_are_canonical(
    segment: CommandSegmentView,
    members: Seq<Seq<u8>>,
    manifest_digest: Digest,
    segment_digest: Digest,
)
    ensures
        body_bytes(segment, members, manifest_digest) == message_encoding(
            body_message(segment, members, manifest_digest),
        ),
        segment_payload_bytes(body_bytes(segment, members, manifest_digest), segment_digest)
            == message_encoding(
            seq![
                ProtoField::Item(
                    1,
                    message_encoding(body_message(segment, members, manifest_digest)),
                ),
                ProtoField::Bytes(2, segment_digest.bytes@),
            ],
        ),
{
    body_heads_are_canonical(segment);
    manifests_are_canonical(segment.manifest, manifest_digest);
    let head = body_head_message(segment);
    repeated_bytes_are_items(8, members);
    encoding_of_joined_fields(head, items(8, members));
    let manifest = manifest_bytes(segment.manifest, manifest_digest);
    encoding_of_one_more(head + items(8, members), ProtoField::Item(9, manifest));
    keys_name_fields(9, manifest, 0);
    let body = body_bytes(segment, members, manifest_digest);
    assert(body =~= message_encoding(body_message(segment, members, manifest_digest)));
    keys_name_fields(1, body, 0);
    keys_name_fields(2, segment_digest.bytes@, 0);
    two_fields(seq![ProtoField::Item(1, body), ProtoField::Bytes(2, segment_digest.bytes@)]);
}

proof fn body_heads_are_canonical(segment: CommandSegmentView)
    ensures
        body_head_bytes(segment) == message_encoding(body_head_message(segment)),
{
    let head = body_head_message(segment);
    let six = head.drop_last();
    six_fields(six);
    keys_name_fields(1, segment.database_id.bytes@, 0);
    keys_name_fields(2, Seq::empty(), segment.history_incarnation);
    match segment.predecessor {
        Some(digest) => {
            keys_name_fields(3, digest.bytes@, 0);
        },
        None => {},
    }
    keys_name_fields(4, Seq::empty(), segment.first_commit().value);
    keys_name_fields(5, Seq::empty(), segment.last_commit().value);
    keys_name_fields(6, Seq::empty(), segment.first_administration().value);
    keys_name_fields(7, Seq::empty(), segment.last_administration().value);
    assert(body_head_bytes(segment) =~= message_encoding(head));
}

} // verus!
