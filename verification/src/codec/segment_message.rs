//! The canonical bytes of a segment's messages, as they were read or are to be
//! written.
//!
//! A canonical encoding holds the fields of a message in order. It leaves out
//! integers that are zero and byte strings that are empty.

use vstd::prelude::*;

use crate::codec::segment_bytes::{
    append_length_delimited_field, append_varint_field, repeated_bytes, tagged_bytes, tagged_varint,
};
use crate::wire;

verus! {

/// A byte string under a one-byte key; an empty one is left out.
pub open spec fn bytes_field(key: u8, value: Seq<u8>) -> Seq<u8> {
    if value.len() == 0 {
        Seq::empty()
    } else {
        tagged_bytes(key, value)
    }
}

/// The word that a code is written as: negative codes are sign-extended.
pub open spec fn code_word(code: i32) -> u64 {
    if code >= 0 {
        code as u64
    } else {
        (code + 0x1_0000_0000_0000_0000) as u64
    }
}

fn word_of_code(code: i32) -> (result: u64)
    ensures
        result == code_word(code),
{
    if code >= 0 {
        code as u64
    } else {
        u64::MAX - ((-(code as i64)) as u64) + 1
    }
}

/// The bytes of a manifest entry's message.
pub open spec fn entry_message_bytes(entry: wire::CommandDerivedIndexManifestEntryV1) -> Seq<u8> {
    tagged_varint(0x08, code_word(entry.kind)) + tagged_varint(0x10, code_word(entry.member))
        + bytes_field(0x1a, entry.exact_key@) + tagged_varint(0x20, entry.command_ordinal as u64)
        + tagged_varint(0x28, entry.member_ordinal as u64) + tagged_varint(
        0x30,
        entry.segment_first_commit_sequence,
    )
}

/// The bytes of each manifest entry's message.
pub open spec fn all_entry_message_bytes(
    entries: Seq<wire::CommandDerivedIndexManifestEntryV1>,
) -> Seq<Seq<u8>> {
    Seq::new(entries.len(), |i: int| entry_message_bytes(entries[i]))
}

/// The bytes of a manifest's message without a digest.
pub open spec fn entries_message_bytes(
    entries: Seq<wire::CommandDerivedIndexManifestEntryV1>,
) -> Seq<u8> {
    repeated_bytes(0x0a, all_entry_message_bytes(entries))
}

fn append_bytes_field(output: &mut Vec<u8>, key: u8, bytes: &[u8])
    ensures
        final(output)@ == old(output)@ + bytes_field(key, bytes@),
{
    if bytes.len() == 0 {
        assert(output@ =~= old(output)@ + bytes_field(key, bytes@));
        return;
    }
    append_length_delimited_field(output, key, bytes);
}

fn append_entry_message(output: &mut Vec<u8>, value: &wire::CommandDerivedIndexManifestEntryV1)
    ensures
        final(output)@ == old(output)@ + tagged_bytes(0x0a, entry_message_bytes(*value)),
{
    let mut entry: Vec<u8> = Vec::new();
    append_varint_field(&mut entry, 0x08, word_of_code(value.kind));
    append_varint_field(&mut entry, 0x10, word_of_code(value.member));
    append_bytes_field(&mut entry, 0x1a, &value.exact_key);
    append_varint_field(&mut entry, 0x20, value.command_ordinal as u64);
    append_varint_field(&mut entry, 0x28, value.member_ordinal as u64);
    append_varint_field(&mut entry, 0x30, value.segment_first_commit_sequence);
    assert(entry@ =~= entry_message_bytes(*value));
    append_length_delimited_field(output, 0x0a, &entry);
}

/// Streams the entries of a manifest's message.
pub fn manifest_message_entries(
    entries: &[wire::CommandDerivedIndexManifestEntryV1],
) -> (result: Vec<u8>)
    ensures
        result@ == entries_message_bytes(entries@),
{
    let mut manifest: Vec<u8> = Vec::new();
    let ghost all = all_entry_message_bytes(entries@);
    let mut i: usize = 0;
    assert(repeated_bytes(0x0a, all.take(0)) =~= Seq::empty());
    while i < entries.len()
        invariant
            i <= entries@.len(),
            all == all_entry_message_bytes(entries@),
            manifest@ =~= repeated_bytes(0x0a, all.take(i as int)),
        decreases entries@.len() - i,
    {
        proof {
            assert(all.take(i + 1).drop_last() =~= all.take(i as int));
            assert(all.take(i + 1).last() == all[i as int]);
        }
        append_entry_message(&mut manifest, &entries[i]);
        i += 1;
    }
    assert(all.take(i as int) =~= all);
    manifest
}

} // verus!
