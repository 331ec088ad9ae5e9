//! Commit records as durable messages, in their three forms.

use vstd::prelude::*;

use super::application::{
    commit_parts_carries, commit_parts_form_is_exact, commit_parts_from_proto,
    commit_parts_over_limit, commit_parts_to_proto, commit_parts_valid,
    entity_reference_list_carries, entity_reference_list_form_is_exact,
    entity_reference_list_from_proto, entity_reference_list_to_proto, entity_reference_list_valid,
    entity_reference_valid, event_list_carries, event_list_form_is_exact, event_list_from_proto,
    event_list_to_proto, event_list_valid, event_reference_list_carries,
    event_reference_list_form_is_exact, event_reference_list_from_proto,
    event_reference_list_to_proto, event_reference_list_valid, mutation_list_carries,
    mutation_list_form_is_exact, mutation_list_from_proto, mutation_list_over_limit,
    mutation_list_to_proto, mutation_list_valid, mutation_valid,
};
use super::common::{event_id_carries, event_id_from_proto, event_id_valid};
use super::envelope::{
    charged, read_message, read_outcome, reads_another, reads_back, ruled, ruled_item,
    OutgoingRecord, ReadAttempt, RegistryRecord,
};
use super::error::{
    is_corrupt, read_failure, require, unread_failure, value_failure, DurableCodecError,
    DurableCodecErrorKind, EnvelopeError,
};
use super::parts::{digest_from_wire, require_ref};
use super::record_type::RecordType;
use crate::bytes::copy_bytes;
use crate::ids::Digest;
use crate::page::EncodedPageItem;
use crate::records::{
    DurableEventView, EntityRecordView, StoredDurableEventV1, StoredEntityRecordV1,
};
use crate::stored::application::{
    entity_reference_views, event_views, mutation_views, CommitPartsView, CommittedEntityMutationV1,
    CommittedEntityReferenceV2, EntityMutationView, EntityReferenceView, EventReferenceV2,
};
use crate::stored::commit::{
    event_references_of, references_to, same_events, CommitRecordView, StoredCommitRecordV1,
};
use crate::value_error::StorageValueError;
use crate::wire;

verus! {

/// A digest of one entity post-image, or why it has none.
pub type PostImageHash = Result<Digest, StorageValueError>;

/// The first failure among digests, if there is one.
pub open spec fn first_hash_failure(hashes: Seq<PostImageHash>) -> Option<StorageValueError>
    decreases hashes.len(),
{
    if hashes.len() == 0 {
        None
    } else {
        match hashes[0] {
            Err(error) => Some(error),
            Ok(_) => first_hash_failure(hashes.skip(1)),
        }
    }
}

/// The reference to a post-image with its digest.
pub open spec fn reference_from(
    mutation: EntityMutationView,
    hash: PostImageHash,
) -> EntityReferenceView {
    EntityReferenceView {
        target: mutation.post_image.target,
        entity_version: mutation.post_image.entity_version,
        post_image_hash: hash->Ok_0,
    }
}

/// The references that mutations and the digests of their post-images give:
/// target and version of each post-image, with its digest.
pub open spec fn references_of(
    mutations: Seq<EntityMutationView>,
    hashes: Seq<PostImageHash>,
) -> Result<Seq<EntityReferenceView>, DurableCodecErrorKind> {
    if mutations.len() != hashes.len() {
        Err(DurableCodecErrorKind::InvariantViolation)
    } else {
        match first_hash_failure(hashes) {
            Some(error) => Err(value_failure(error)),
            None => Ok(
                Seq::new(
                    mutations.len(),
                    |i: int| reference_from(mutations[i], hashes[i]),
                ),
            ),
        }
    }
}

/// Derives entity references from embedded mutations, given the digest of each
/// post-image.
pub fn entity_references_from_mutations(
    mutations: &[CommittedEntityMutationV1],
    hashes: &[PostImageHash],
) -> (result: Result<Vec<CommittedEntityReferenceV2>, DurableCodecError>)
    ensures
        match references_of(mutation_views(mutations@), hashes@) {
            Ok(references) => result is Ok && entity_reference_views(result->Ok_0@) == references,
            Err(kind) => result == Err::<Vec<CommittedEntityReferenceV2>, _>(
                DurableCodecError { kind },
            ),
        },
{
    if mutations.len() != hashes.len() {
        return Err(DurableCodecError::invariant_violation());
    }
    let mut result: Vec<CommittedEntityReferenceV2> = Vec::new();
    let mut i: usize = 0;
    assert(hashes@.skip(0) =~= hashes@);
    while i < mutations.len()
        invariant
            i <= mutations@.len(),
            mutations@.len() == hashes@.len(),
            result@.len() == i,
            first_hash_failure(hashes@) == first_hash_failure(hashes@.skip(i as int)),
            forall|k: int|
                0 <= k < i ==> (#[trigger] result@[k])@ == reference_from(
                    mutations@[k]@,
                    hashes@[k],
                ),
        decreases mutations@.len() - i,
    {
        assert(hashes@.skip(i as int)[0] == hashes@[i as int]);
        assert(hashes@.skip(i as int).skip(1) =~= hashes@.skip(i as int + 1));
        match hashes[i] {
            Ok(post_image_hash) => {
                let ghost before = result@;
                let reference = CommittedEntityReferenceV2 {
                    target: mutations[i].post_image.target.clone(),
                    entity_version: mutations[i].post_image.entity_version,
                    post_image_hash,
                };
                result.push(reference);
                assert forall|k: int| 0 <= k < i + 1 implies (#[trigger] result@[k])@
                    == reference_from(mutations@[k]@, hashes@[k]) by {
                    if k < i {
                        assert(result@[k] == before[k]);
                    } else {
                        assert(hashes@[k] == Ok::<Digest, StorageValueError>(post_image_hash));
                    }
                }
            },
            Err(error) => {
                return Err(DurableCodecError::from_storage_value(error));
            },
        }
        i += 1;
    }
    proof {
        let references = references_of(mutation_views(mutations@), hashes@)->Ok_0;
        assert forall|k: int| 0 <= k < references.len() implies entity_reference_views(result@)[k]
            == references[k] by {
            assert(result@[k]@ == references[k]);
        }
        assert(entity_reference_views(result@) =~= references);
    }
    Ok(result)
}

/// Whether messages are the forms of valid mutations.
pub open spec fn mutations_readable(messages: Seq<wire::CommittedEntityMutationV1>) -> bool {
    exists|values: Seq<EntityMutationView>| #[trigger]
        mutation_list_carries(messages, values) && mutation_list_valid(values)
}

/// The mutations that readable messages are the forms of.
pub open spec fn mutations_of(messages: Seq<wire::CommittedEntityMutationV1>) -> Seq<
    EntityMutationView,
> {
    choose|values: Seq<EntityMutationView>| #[trigger]
        mutation_list_carries(messages, values) && mutation_list_valid(values)
}

/// The entity references that embedded mutations stand for, or why they stand
/// for none.
pub open spec fn embedded_references(
    messages: Seq<wire::CommittedEntityMutationV1>,
    hashes: Seq<PostImageHash>,
) -> Result<Seq<EntityReferenceView>, DurableCodecErrorKind> {
    if !mutations_readable(messages) {
        Err(unread_failure(mutation_list_over_limit(messages)))
    } else {
        references_of(mutations_of(messages), hashes)
    }
}

/// Whether digests are what a hash gives of the post-images that messages are the forms
/// of, one by one.
pub open spec fn post_images_hashed<H: Fn(&StoredEntityRecordV1) -> PostImageHash>(
    hash: H,
    mutations: Seq<EntityMutationView>,
    hashes: Seq<PostImageHash>,
) -> bool {
    &&& hashes.len() == mutations.len()
    &&& forall|i: int|
        0 <= i < mutations.len() ==> post_image_hashed(
            hash,
            mutations[i].post_image,
            #[trigger] hashes[i],
        )
}

/// Whether a digest is what a hash gives of a post-image.
pub open spec fn post_image_hashed<H: Fn(&StoredEntityRecordV1) -> PostImageHash>(
    hash: H,
    post_image: EntityRecordView,
    digest: PostImageHash,
) -> bool {
    exists|record: StoredEntityRecordV1|
        record@ == post_image && #[trigger] hash.ensures((&record,), digest)
}

/// What the entity references of embedded mutations come to, with the digests that a
/// hash gives of their post-images.
pub open spec fn embedded_read<H: Fn(&StoredEntityRecordV1) -> PostImageHash>(
    hash: H,
    messages: Seq<wire::CommittedEntityMutationV1>,
    outcome: Result<Seq<EntityReferenceView>, DurableCodecErrorKind>,
) -> bool {
    if !mutations_readable(messages) {
        outcome == Err::<Seq<EntityReferenceView>, _>(
            unread_failure(mutation_list_over_limit(messages)),
        )
    } else {
        exists|hashes: Seq<PostImageHash>| #[trigger]
            post_images_hashed(hash, mutations_of(messages), hashes) && outcome
                == embedded_references(messages, hashes)
    }
}

fn hash_post_images<H: Fn(&StoredEntityRecordV1) -> PostImageHash>(
    hash: &H,
    mutations: &[CommittedEntityMutationV1],
) -> (result: Vec<PostImageHash>)
    requires
        forall|record: &StoredEntityRecordV1| #[trigger] hash.requires((record,)),
    ensures
        post_images_hashed(*hash, mutation_views(mutations@), result@),
{
    let mut result: Vec<PostImageHash> = Vec::new();
    let mut i: usize = 0;
    while i < mutations.len()
        invariant
            i <= mutations@.len(),
            result@.len() == i,
            forall|record: &StoredEntityRecordV1| #[trigger] hash.requires((record,)),
            forall|k: int|
                0 <= k < i ==> post_image_hashed(
                    *hash,
                    mutation_views(mutations@)[k].post_image,
                    #[trigger] result@[k],
                ),
        decreases mutations@.len() - i,
    {
        let digest = hash(&mutations[i].post_image);
        assert(hash.ensures((&mutations@[i as int].post_image,), digest));
        assert(post_image_hashed(
            *hash,
            mutation_views(mutations@)[i as int].post_image,
            digest,
        ));
        result.push(digest);
        i += 1;
    }
    result
}

fn read_embedded_references<H: Fn(&StoredEntityRecordV1) -> PostImageHash>(
    messages: &[wire::CommittedEntityMutationV1],
    hash: &H,
) -> (result: Result<Vec<CommittedEntityReferenceV2>, DurableCodecError>)
    requires
        forall|record: &StoredEntityRecordV1| #[trigger] hash.requires((record,)),
    ensures
        match result {
            Ok(references) => embedded_read(
                *hash,
                messages@,
                Ok(entity_reference_views(references@)),
            ),
            Err(error) => embedded_read(*hash, messages@, Err(error.kind)),
        },
{
    let mutations = match mutation_list_from_proto(messages) {
        Ok(mutations) => mutations,
        Err(error) => {
            assert(!mutations_readable(messages@));
            return Err(error);
        },
    };
    proof {
        assert(mutations_readable(messages@));
        mutation_list_form_is_exact(
            messages@,
            mutation_views(mutations@),
            mutations_of(messages@),
        );
    }
    let hashes = hash_post_images(hash, &mutations);
    assert(post_images_hashed(*hash, mutations_of(messages@), hashes@));
    entity_references_from_mutations(&mutations, &hashes)
}

/// Whether messages are the forms of valid entity references.
pub open spec fn references_readable(messages: Seq<wire::CommittedEntityReferenceV2>) -> bool {
    exists|values: Seq<EntityReferenceView>| #[trigger]
        entity_reference_list_carries(messages, values) && entity_reference_list_valid(values)
}

/// Whether messages are the forms of the references to given events.
pub open spec fn events_referenced(
    messages: Seq<wire::EventReferenceV2>,
    events: Seq<DurableEventView>,
) -> bool {
    event_reference_list_carries(messages, references_to(events)) && event_reference_list_valid(
        references_to(events),
    )
}

fn check_event_references(
    messages: &[wire::EventReferenceV2],
    events: &[StoredDurableEventV1],
) -> (result: Result<(), DurableCodecError>)
    ensures
        events_referenced(messages@, event_views(events@)) ==> result is Ok,
        !events_referenced(messages@, event_views(events@)) ==> result is Err && is_corrupt(
            result->Err_0,
        ),
{
    let references = event_reference_list_from_proto(messages)?;
    let expected = event_references_of(events);
    let ghost views = event_views(events@);
    if references.len() != events.len() {
        return Err(DurableCodecError::corrupt());
    }
    let mut i: usize = 0;
    while i < references.len()
        invariant
            i <= references@.len(),
            references@.len() == events@.len(),
            expected@ == references_to(event_views(events@)),
            views == event_views(events@),
            event_reference_list_carries(messages@, references@),
            event_reference_list_valid(references@),
            forall|k: int| 0 <= k < i ==> references@[k] == expected@[k],
        decreases references@.len() - i,
    {
        let matches = references[i].event_id == expected[i].event_id
            && references[i].event_hash.same(&expected[i].event_hash);
        if !matches {
            proof {
                if events_referenced(messages@, views) {
                    event_reference_list_form_is_exact(
                        messages@,
                        references@,
                        references_to(views),
                    );
                    assert(references@[i as int] == expected@[i as int]);
                }
            }
            return Err(DurableCodecError::corrupt());
        }
        i += 1;
    }
    assert(references@ =~= references_to(views));
    Ok(())
}

/// Whether a message is the form of some valid commit parts.
pub open spec fn parts_readable(message: wire::CommitPartsV1) -> bool {
    exists|value: CommitPartsView| #[trigger]
        commit_parts_carries(message, value) && commit_parts_valid(value)
}

/// Whether a commit is the given parts, references and events.
pub open spec fn is_commit(
    commit: CommitRecordView,
    parts: wire::CommitPartsV1,
    references: Seq<EntityReferenceView>,
    events: Seq<DurableEventView>,
) -> bool {
    &&& commit_parts_carries(parts, commit.parts)
    &&& commit_parts_valid(commit.parts)
    &&& commit.entity_references == references
    &&& commit.events == events
}

/// What the given parts, references and events of a commit come to under the commit's
/// own rule.
pub open spec fn commit_ruled<R: Fn(&StoredCommitRecordV1) -> Option<StorageValueError>>(
    rule: R,
    parts: wire::CommitPartsV1,
    references: Seq<EntityReferenceView>,
    events: Seq<DurableEventView>,
    encoded_len: usize,
    result: Result<EncodedPageItem<StoredCommitRecordV1>, DurableCodecError>,
) -> bool {
    if !parts_readable(parts) {
        result == Err::<EncodedPageItem<StoredCommitRecordV1>, _>(
            DurableCodecError { kind: unread_failure(commit_parts_over_limit(parts)) },
        )
    } else {
        exists|value: StoredCommitRecordV1|
            is_commit(value@, parts, references, events) && #[trigger] ruled(
                rule,
                value,
                encoded_len,
                result,
            )
    }
}

fn commit_from_wire_parts<R: Fn(&StoredCommitRecordV1) -> Option<StorageValueError>>(
    parts: &wire::CommitPartsV1,
    entity_references: Vec<CommittedEntityReferenceV2>,
    events: Vec<StoredDurableEventV1>,
    rule: R,
    encoded_len: usize,
) -> (result: Result<EncodedPageItem<StoredCommitRecordV1>, DurableCodecError>)
    requires
        forall|value: &StoredCommitRecordV1| #[trigger] rule.requires((value,)),
    ensures
        commit_ruled(
            rule,
            *parts,
            entity_reference_views(entity_references@),
            event_views(events@),
            encoded_len,
            result,
        ),
{
    let held = commit_parts_from_proto(parts)?;
    assert(commit_parts_carries(*parts, held@));
    let value = StoredCommitRecordV1 { parts: held, entity_references, events };
    assert(is_commit(
        value@,
        *parts,
        entity_reference_views(entity_references@),
        event_views(events@),
    ));
    ruled_item(value, rule, encoded_len)
}

/// Encodes one complete authoritative commit-log record.
pub fn encode_commit_record_v1(value: &StoredCommitRecordV1) -> (result: OutgoingRecord<
    wire::StoredCommitRecordV3,
>)
    ensures
        result.record_type == RecordType::StoredCommitRecordV3,
        commit_parts_carries(result.message.parts, value@.parts),
        entity_reference_list_carries(
            result.message.entity_references@,
            value@.entity_references,
        ),
        event_reference_list_carries(
            result.message.event_references@,
            references_to(value@.events),
        ),
{
    OutgoingRecord {
        record_type: RecordType::StoredCommitRecordV3,
        message: wire::StoredCommitRecordV3 {
            parts: commit_parts_to_proto(&value.parts),
            entity_references: entity_reference_list_to_proto(&value.entity_references),
            event_references: event_reference_list_to_proto(&value.event_references()),
        },
    }
}

/// Encodes a commit with embedded entity post-images for migration fixtures.
pub fn encode_commit_record_v2_fixture(
    value: &StoredCommitRecordV1,
    mutations: &[CommittedEntityMutationV1],
) -> (result: OutgoingRecord<wire::StoredCommitRecordV2>)
    ensures
        result.record_type == RecordType::StoredCommitRecordV2,
        commit_parts_carries(result.message.parts, value@.parts),
        mutation_list_carries(result.message.mutations@, mutation_views(mutations@)),
        event_reference_list_carries(
            result.message.event_references@,
            references_to(value@.events),
        ),
{
    OutgoingRecord {
        record_type: RecordType::StoredCommitRecordV2,
        message: wire::StoredCommitRecordV2 {
            parts: commit_parts_to_proto(&value.parts),
            mutations: mutation_list_to_proto(mutations),
            event_references: event_reference_list_to_proto(&value.event_references()),
        },
    }
}

/// Encodes a commit with embedded post-images and events for compatibility fixtures.
pub fn encode_commit_record_legacy_v1(
    value: &StoredCommitRecordV1,
    mutations: &[CommittedEntityMutationV1],
) -> (result: OutgoingRecord<wire::StoredCommitRecordV1>)
    ensures
        result.record_type == RecordType::StoredCommitRecordV1,
        commit_parts_carries(result.message.parts, value@.parts),
        mutation_list_carries(result.message.mutations@, mutation_views(mutations@)),
        event_list_carries(result.message.events@, value@.events),
{
    OutgoingRecord {
        record_type: RecordType::StoredCommitRecordV1,
        message: wire::StoredCommitRecordV1 {
            parts: commit_parts_to_proto(&value.parts),
            mutations: mutation_list_to_proto(mutations),
            events: event_list_to_proto(&value.events),
        },
    }
}

/// The outcome of decoding a commit in its first form.
pub open spec fn legacy_outcome<
    H: Fn(&StoredEntityRecordV1) -> PostImageHash,
    R: Fn(&StoredCommitRecordV1) -> Option<StorageValueError>,
>(
    attempt: ReadAttempt<wire::StoredCommitRecordV1>,
    hash: H,
    rule: R,
    result: Result<EncodedPageItem<StoredCommitRecordV1>, DurableCodecError>,
) -> bool {
    match read_outcome(RecordType::StoredCommitRecordV1, attempt) {
        Err(kind) => result == Err::<EncodedPageItem<StoredCommitRecordV1>, _>(
            DurableCodecError { kind },
        ),
        Ok(message) => exists|
            embedded: Result<Seq<EntityReferenceView>, DurableCodecErrorKind>,
        | #[trigger]
            embedded_read(hash, message.mutations@, embedded) && match embedded {
            Err(kind) => result == Err::<EncodedPageItem<StoredCommitRecordV1>, _>(
                DurableCodecError { kind },
            ),
            Ok(references) => if !events_readable(message.events@) {
                result is Err && is_corrupt(result->Err_0)
            } else {
                commit_ruled(
                    rule,
                    message.parts,
                    references,
                    events_of(message.events@),
                    attempt.encoded_len,
                    result,
                )
            },
        },
    }
}

/// Whether messages are the forms of valid events.
pub open spec fn events_readable(messages: Seq<wire::StoredDurableEventV1>) -> bool {
    exists|values: Seq<DurableEventView>| #[trigger]
        event_list_carries(messages, values) && event_list_valid(values)
}

/// The events that readable messages are the forms of.
pub open spec fn events_of(messages: Seq<wire::StoredDurableEventV1>) -> Seq<DurableEventView> {
    choose|values: Seq<DurableEventView>| #[trigger]
        event_list_carries(messages, values) && event_list_valid(values)
}

/// Decodes one commit record in its first form, with embedded events.
pub fn decode_commit_record_legacy_v1<
    H: Fn(&StoredEntityRecordV1) -> PostImageHash,
    R: Fn(&StoredCommitRecordV1) -> Option<StorageValueError>,
>(
    attempt: ReadAttempt<wire::StoredCommitRecordV1>,
    hash: H,
    rule: R,
) -> (result: Result<EncodedPageItem<StoredCommitRecordV1>, DurableCodecError>)
    requires
        forall|record: &StoredEntityRecordV1| #[trigger] hash.requires((record,)),
        forall|value: &StoredCommitRecordV1| #[trigger] rule.requires((value,)),
    ensures
        legacy_outcome(attempt, hash, rule, result),
{
    let encoded_len = attempt.encoded_len;
    let message = read_message(RecordType::StoredCommitRecordV1, attempt)?;
    let entity_references = read_embedded_references(&message.mutations, &hash)?;
    let events = event_list_from_proto(&message.events)?;
    proof {
        event_list_form_is_exact(
            message.events@,
            event_views(events@),
            events_of(message.events@),
        );
    }
    commit_from_wire_parts(&message.parts, entity_references, events, rule, encoded_len)
}

/// Decodes one commit record in its first form.
///
/// The name is kept for historical call sites; current records are decoded by
/// [`decode_commit_record_v3`] or [`decode_commit_record_with_events`].
pub fn decode_commit_record_v1<
    H: Fn(&StoredEntityRecordV1) -> PostImageHash,
    R: Fn(&StoredCommitRecordV1) -> Option<StorageValueError>,
>(
    attempt: ReadAttempt<wire::StoredCommitRecordV1>,
    hash: H,
    rule: R,
) -> (result: Result<EncodedPageItem<StoredCommitRecordV1>, DurableCodecError>)
    requires
        forall|record: &StoredEntityRecordV1| #[trigger] hash.requires((record,)),
        forall|value: &StoredCommitRecordV1| #[trigger] rule.requires((value,)),
    ensures
        legacy_outcome(attempt, hash, rule, result),
{
    decode_commit_record_legacy_v1(attempt, hash, rule)
}

/// The outcome of decoding a commit in its second form beside its events.
pub open spec fn second_outcome<
    H: Fn(&StoredEntityRecordV1) -> PostImageHash,
    R: Fn(&StoredCommitRecordV1) -> Option<StorageValueError>,
>(
    attempt: ReadAttempt<wire::StoredCommitRecordV2>,
    events: Seq<DurableEventView>,
    hash: H,
    rule: R,
    result: Result<EncodedPageItem<StoredCommitRecordV1>, DurableCodecError>,
) -> bool {
    match read_outcome(RecordType::StoredCommitRecordV2, attempt) {
        Err(kind) => result == Err::<EncodedPageItem<StoredCommitRecordV1>, _>(
            DurableCodecError { kind },
        ),
        Ok(message) => exists|
            embedded: Result<Seq<EntityReferenceView>, DurableCodecErrorKind>,
        | #[trigger]
            embedded_read(hash, message.mutations@, embedded) && match embedded {
            Err(kind) => result == Err::<EncodedPageItem<StoredCommitRecordV1>, _>(
                DurableCodecError { kind },
            ),
            Ok(references) => if !events_referenced(message.event_references@, events) {
                result is Err && is_corrupt(result->Err_0)
            } else {
                commit_ruled(
                    rule,
                    message.parts,
                    references,
                    events,
                    attempt.encoded_len,
                    result,
                )
            },
        },
    }
}

/// Decodes a commit in its second form: embedded post-images, event references
/// that match the supplied authoritative event rows.
pub fn decode_commit_record_v2<
    H: Fn(&StoredEntityRecordV1) -> PostImageHash,
    R: Fn(&StoredCommitRecordV1) -> Option<StorageValueError>,
>(
    attempt: ReadAttempt<wire::StoredCommitRecordV2>,
    events: Vec<StoredDurableEventV1>,
    hash: H,
    rule: R,
) -> (result: Result<EncodedPageItem<StoredCommitRecordV1>, DurableCodecError>)
    requires
        forall|record: &StoredEntityRecordV1| #[trigger] hash.requires((record,)),
        forall|value: &StoredCommitRecordV1| #[trigger] rule.requires((value,)),
    ensures
        second_outcome(attempt, event_views(events@), hash, rule, result),
{
    let encoded_len = attempt.encoded_len;
    let message = read_message(RecordType::StoredCommitRecordV2, attempt)?;
    let entity_references = read_embedded_references(&message.mutations, &hash)?;
    check_event_references(&message.event_references, &events)?;
    commit_from_wire_parts(&message.parts, entity_references, events, rule, encoded_len)
}

/// The outcome of decoding a commit in its current form beside its events.
pub open spec fn current_outcome<R: Fn(&StoredCommitRecordV1) -> Option<StorageValueError>>(
    attempt: ReadAttempt<wire::StoredCommitRecordV3>,
    events: Seq<DurableEventView>,
    rule: R,
    result: Result<EncodedPageItem<StoredCommitRecordV1>, DurableCodecError>,
) -> bool {
    match read_outcome(RecordType::StoredCommitRecordV3, attempt) {
        Err(kind) => result == Err::<EncodedPageItem<StoredCommitRecordV1>, _>(
            DurableCodecError { kind },
        ),
        Ok(message) => if !references_readable(message.entity_references@)
            || !events_referenced(message.event_references@, events) {
            result is Err && is_corrupt(result->Err_0)
        } else {
            exists|references: Seq<EntityReferenceView>| #[trigger]
                entity_reference_list_carries(message.entity_references@, references)
                    && entity_reference_list_valid(references) && commit_ruled(
                    rule,
                    message.parts,
                    references,
                    events,
                    attempt.encoded_len,
                    result,
                )
        },
    }
}

/// Decodes a current payload-free commit record using event rows loaded from the
/// same authoritative snapshot.
pub fn decode_commit_record_v3<R: Fn(&StoredCommitRecordV1) -> Option<StorageValueError>>(
    attempt: ReadAttempt<wire::StoredCommitRecordV3>,
    events: Vec<StoredDurableEventV1>,
    rule: R,
) -> (result: Result<EncodedPageItem<StoredCommitRecordV1>, DurableCodecError>)
    requires
        forall|value: &StoredCommitRecordV1| #[trigger] rule.requires((value,)),
    ensures
        current_outcome(attempt, event_views(events@), rule, result),
{
    let encoded_len = attempt.encoded_len;
    let message = read_message(RecordType::StoredCommitRecordV3, attempt)?;
    let entity_references = entity_reference_list_from_proto(&message.entity_references)?;
    check_event_references(&message.event_references, &events)?;
    commit_from_wire_parts(&message.parts, entity_references, events, rule, encoded_len)
}

/// Whether an attempt failed because the envelope holds another record type.
pub open spec fn of_another_type<T>(result: Result<T, DurableCodecError>) -> bool {
    result matches Err(error) && error.kind == DurableCodecErrorKind::UnexpectedRecordType
}

fn is_of_another_type<T>(result: &Result<T, DurableCodecError>) -> (answer: bool)
    ensures
        answer == of_another_type(*result),
{
    match result {
        Ok(_) => false,
        Err(error) => error.kind() == DurableCodecErrorKind::UnexpectedRecordType,
    }
}

/// Decodes a commit in whichever form it has, proving the supplied authoritative
/// event rows in every form.
pub fn decode_commit_record_with_events<
    H: Fn(&StoredEntityRecordV1) -> PostImageHash + Copy,
    R: Fn(&StoredCommitRecordV1) -> Option<StorageValueError> + Copy,
>(
    current: ReadAttempt<wire::StoredCommitRecordV3>,
    second: ReadAttempt<wire::StoredCommitRecordV2>,
    legacy: ReadAttempt<wire::StoredCommitRecordV1>,
    events: Vec<StoredDurableEventV1>,
    hash: H,
    rule: R,
) -> (result: Result<EncodedPageItem<StoredCommitRecordV1>, DurableCodecError>)
    requires
        forall|record: &StoredEntityRecordV1| #[trigger] hash.requires((record,)),
        forall|value: &StoredCommitRecordV1| #[trigger] rule.requires((value,)),
    ensures
        exists|by_current: Result<EncodedPageItem<StoredCommitRecordV1>, DurableCodecError>|
            #[trigger] current_outcome(current, event_views(events@), rule, by_current)
                && if !of_another_type(by_current) {
                result == by_current
            } else {
                exists|by_second: Result<EncodedPageItem<StoredCommitRecordV1>, DurableCodecError>|
                    #[trigger] second_outcome(
                        second,
                        event_views(events@),
                        hash,
                        rule,
                        by_second,
                    ) && if !of_another_type(by_second) {
                        result == by_second
                    } else {
                        exists|by_legacy: Result<
                            EncodedPageItem<StoredCommitRecordV1>,
                            DurableCodecError,
                        >| #[trigger]
                            legacy_outcome(legacy, hash, rule, by_legacy) && if by_legacy
                                is Ok && by_legacy->Ok_0.value@.events != event_views(events@) {
                                result is Err && is_corrupt(result->Err_0)
                            } else {
                                result == by_legacy
                            }
                    }
            },
{
    let by_current = decode_commit_record_v3(
        current,
        crate::stored::application::copy_event_list(&events),
        rule,
    );
    if !is_of_another_type(&by_current) {
        return by_current;
    }
    let by_second = decode_commit_record_v2(
        second,
        crate::stored::application::copy_event_list(&events),
        hash,
        rule,
    );
    if !is_of_another_type(&by_second) {
        assert(second_outcome(second, event_views(events@), hash, rule, by_second));
        return by_second;
    }
    let by_legacy = decode_commit_record_legacy_v1(legacy, hash, rule);
    let foreign = match &by_legacy {
        Ok(decoded) => !same_events(decoded.value().events(), &events),
        Err(_) => false,
    };
    assert(current_outcome(current, event_views(events@), rule, by_current));
    assert(second_outcome(second, event_views(events@), hash, rule, by_second));
    assert(legacy_outcome(legacy, hash, rule, by_legacy));
    if foreign {
        return Err(DurableCodecError::corrupt());
    }
    by_legacy
}

/// The message of a record that was read as it stands, or why there is none.
pub open spec fn whole_message<M>(record_type: RecordType, attempt: ReadAttempt<M>) -> Result<
    M,
    DurableCodecErrorKind,
> {
    match read_outcome(record_type, attempt) {
        Ok(message) => if attempt.encoded_len == 0 {
            Err(DurableCodecErrorKind::CorruptData)
        } else {
            Ok(message)
        },
        Err(kind) => Err(kind),
    }
}

fn take_message<M>(record_type: RecordType, attempt: ReadAttempt<M>) -> (result: Result<
    M,
    DurableCodecError,
>)
    ensures
        match whole_message(record_type, attempt) {
            Ok(message) => result == Ok::<M, DurableCodecError>(message),
            Err(kind) => result == Err::<M, DurableCodecError>(DurableCodecError { kind }),
        },
{
    let encoded_len = attempt.encoded_len;
    let message = read_message(record_type, attempt)?;
    let item = charged(message, encoded_len)?;
    Ok(item.into_parts().0)
}

/// Whether event messages begin with the forms of given references, one by one.
pub open spec fn event_heads_carry(
    messages: Seq<wire::StoredDurableEventV1>,
    heads: Seq<EventReferenceV2>,
) -> bool {
    &&& messages.len() == heads.len()
    &&& forall|i: int| 0 <= i < messages.len()
        ==> event_head_carries(#[trigger] messages[i], heads[i])
}

/// Whether an event message begins with the form of a reference.
pub open spec fn event_head_carries(
    message: wire::StoredDurableEventV1,
    head: EventReferenceV2,
) -> bool {
    &&& (message.event_id matches Some(part) && event_id_carries(part, head.event_id))
    &&& message.event_hash@ == head.event_hash.bytes@
}

/// Whether event messages begin with the forms of valid references.
pub open spec fn event_heads_readable(messages: Seq<wire::StoredDurableEventV1>) -> bool {
    exists|heads: Seq<EventReferenceV2>| #[trigger]
        event_heads_carry(messages, heads) && event_reference_list_valid(heads)
}

fn read_event_heads(messages: &[wire::StoredDurableEventV1]) -> (result: Result<
    Vec<EventReferenceV2>,
    DurableCodecError,
>)
    ensures
        match result {
            Ok(heads) => event_heads_carry(messages@, heads@) && event_reference_list_valid(heads@),
            Err(error) => is_corrupt(error) && !event_heads_readable(messages@),
        },
{
    let mut heads: Vec<EventReferenceV2> = Vec::new();
    let mut i: usize = 0;
    while i < messages.len()
        invariant
            i <= messages@.len(),
            heads@.len() == i,
            forall|k: int|
                0 <= k < i ==> event_head_carries(messages@[k], #[trigger] heads@[k])
                    && event_id_valid(heads@[k].event_id),
        decreases messages@.len() - i,
    {
        let head = match read_event_head(&messages[i]) {
            Ok(head) => head,
            Err(error) => {
                assert forall|other: Seq<EventReferenceV2>| #[trigger]
                    event_heads_carry(messages@, other) implies !event_reference_list_valid(
                    other,
                ) by {
                    assert(event_head_carries(messages@[i as int], other[i as int]));
                    assert(!event_id_valid(other[i as int].event_id));
                    assert(!crate::codec::application::event_reference_valid(other[i as int]));
                }
                return Err(error);
            },
        };
        heads.push(head);
        i += 1;
    }
    Ok(heads)
}

fn read_event_head(message: &wire::StoredDurableEventV1) -> (result: Result<
    EventReferenceV2,
    DurableCodecError,
>)
    ensures
        match result {
            Ok(head) => event_head_carries(*message, head) && event_id_valid(head.event_id),
            Err(error) => is_corrupt(error) && forall|other: EventReferenceV2| #[trigger]
                event_head_carries(*message, other) ==> !event_id_valid(other.event_id),
        },
{
    let event_id = event_id_from_proto(require_ref(&message.event_id)?)?;
    let event_hash = digest_from_wire(&message.event_hash)?;
    Ok(EventReferenceV2 { event_id, event_hash })
}

/// Whether a record is the current form that embedded mutations rewrite to.
pub open spec fn rewritten(
    result: Result<OutgoingRecord<wire::StoredCommitRecordV3>, DurableCodecError>,
    parts: wire::CommitPartsV1,
    references: Seq<EntityReferenceView>,
) -> bool {
    result matches Ok(record) && record.record_type == RecordType::StoredCommitRecordV3
        && record.message.parts == parts && entity_reference_list_carries(
        record.message.entity_references@,
        references,
    )
}

/// What rewriting a commit of whichever form to its current form gives.
pub open spec fn commit_transcoded<H: Fn(&StoredEntityRecordV1) -> PostImageHash>(
    current: ReadAttempt<wire::StoredCommitRecordV3>,
    second: ReadAttempt<wire::StoredCommitRecordV2>,
    legacy: ReadAttempt<wire::StoredCommitRecordV1>,
    hash: H,
    result: Result<OutgoingRecord<wire::StoredCommitRecordV3>, DurableCodecError>,
) -> bool {
    match (
        whole_message(RecordType::StoredCommitRecordV3, current),
        whole_message(RecordType::StoredCommitRecordV2, second),
        whole_message(RecordType::StoredCommitRecordV1, legacy),
    ) {
        (Ok(message), _, _) => result matches Ok(record) && record.record_type
            == RecordType::StoredCommitRecordV3 && record.message == message,
        (Err(_), Ok(message), _) => exists|
            embedded: Result<Seq<EntityReferenceView>, DurableCodecErrorKind>,
        | #[trigger]
            embedded_read(hash, message.mutations@, embedded) && match embedded {
            Err(kind) => result == Err::<OutgoingRecord<wire::StoredCommitRecordV3>, _>(
                DurableCodecError { kind },
            ),
            Ok(references) => rewritten(result, message.parts, references)
                && result->Ok_0.message.event_references == message.event_references,
        },
        (Err(_), Err(_), Err(kind)) => result == Err::<
            OutgoingRecord<wire::StoredCommitRecordV3>,
            _,
        >(DurableCodecError { kind }),
        (Err(_), Err(_), Ok(message)) => exists|
            embedded: Result<Seq<EntityReferenceView>, DurableCodecErrorKind>,
        | #[trigger]
            embedded_read(hash, message.mutations@, embedded) && match embedded {
            Err(kind) => result == Err::<OutgoingRecord<wire::StoredCommitRecordV3>, _>(
                DurableCodecError { kind },
            ),
            Ok(references) => if !event_heads_readable(message.events@) {
                result is Err && is_corrupt(result->Err_0)
            } else {
                rewritten(result, message.parts, references) && exists|
                    heads: Seq<EventReferenceV2>,
                | #[trigger]
                    event_heads_carry(message.events@, heads) && event_reference_list_carries(
                        result->Ok_0.message.event_references@,
                        heads,
                    )
            },
        },
    }
}

/// Rewrites a commit of whichever form to its current form of entity references.
///
/// Only the record itself and the digests of its embedded post-images are used;
/// the event rows are not, so damage to them shows later and not here.
pub fn transcode_commit_to_entity_reference_v3<H: Fn(&StoredEntityRecordV1) -> PostImageHash>(
    current: ReadAttempt<wire::StoredCommitRecordV3>,
    second: ReadAttempt<wire::StoredCommitRecordV2>,
    legacy: ReadAttempt<wire::StoredCommitRecordV1>,
    hash: H,
) -> (result: Result<OutgoingRecord<wire::StoredCommitRecordV3>, DurableCodecError>)
    requires
        forall|record: &StoredEntityRecordV1| #[trigger] hash.requires((record,)),
    ensures
        commit_transcoded(current, second, legacy, hash, result),
{
    if let Ok(message) = take_message(RecordType::StoredCommitRecordV3, current) {
        return Ok(OutgoingRecord { record_type: RecordType::StoredCommitRecordV3, message });
    }
    if let Ok(message) = take_message(RecordType::StoredCommitRecordV2, second) {
        let references = read_embedded_references(&message.mutations, &hash)?;
        return Ok(
            OutgoingRecord {
                record_type: RecordType::StoredCommitRecordV3,
                message: wire::StoredCommitRecordV3 {
                    parts: message.parts,
                    entity_references: entity_reference_list_to_proto(&references),
                    event_references: message.event_references,
                },
            },
        );
    }
    let message = take_message(RecordType::StoredCommitRecordV1, legacy)?;
    let references = read_embedded_references(&message.mutations, &hash)?;
    let heads = read_event_heads(&message.events)?;
    Ok(
        OutgoingRecord {
            record_type: RecordType::StoredCommitRecordV3,
            message: wire::StoredCommitRecordV3 {
                parts: message.parts,
                entity_references: entity_reference_list_to_proto(&references),
                event_references: event_reference_list_to_proto(&heads),
            },
        },
    )
}

/// A commit that is rewritten from its embedded form is the commit that its
/// current form encodes, where the hash gives the digests of its references.
pub proof fn transcoding_agrees_with_encoding<H: Fn(&StoredEntityRecordV1) -> PostImageHash>(
    value: CommitRecordView,
    mutations: Seq<EntityMutationView>,
    hash: H,
    embedded: wire::StoredCommitRecordV2,
    result: Result<OutgoingRecord<wire::StoredCommitRecordV3>, DurableCodecError>,
)
    requires
        commit_parts_carries(embedded.parts, value.parts),
        mutation_list_carries(embedded.mutations@, mutations),
        mutation_list_valid(mutations),
        event_reference_list_carries(embedded.event_references@, references_to(value.events)),
        forall|hashes: Seq<PostImageHash>| #[trigger]
            post_images_hashed(hash, mutations, hashes) ==> references_of(mutations, hashes)
                == Ok::<_, DurableCodecErrorKind>(value.entity_references),
        exists|read: Result<Seq<EntityReferenceView>, DurableCodecErrorKind>| #[trigger]
            embedded_read(hash, embedded.mutations@, read) && match read {
            Err(kind) => result == Err::<OutgoingRecord<wire::StoredCommitRecordV3>, _>(
                DurableCodecError { kind },
            ),
            Ok(references) => rewritten(result, embedded.parts, references)
                && result->Ok_0.message.event_references == embedded.event_references,
        },
    ensures
        result is Ok,
        commit_parts_carries(result->Ok_0.message.parts, value.parts),
        entity_reference_list_carries(
            result->Ok_0.message.entity_references@,
            value.entity_references,
        ),
        event_reference_list_carries(
            result->Ok_0.message.event_references@,
            references_to(value.events),
        ),
{
    mutation_list_form_is_exact(
        embedded.mutations@,
        mutations,
        mutations_of(embedded.mutations@),
    );
}

/// Reading a commit back beside its events gives the commit that was written.
pub proof fn commit_round_trip<R: Fn(&StoredCommitRecordV1) -> Option<StorageValueError>>(
    value: CommitRecordView,
    message: wire::StoredCommitRecordV3,
    attempt: ReadAttempt<wire::StoredCommitRecordV3>,
    rule: R,
    read: Result<EncodedPageItem<StoredCommitRecordV1>, DurableCodecError>,
)
    requires
        commit_parts_carries(message.parts, value.parts),
        commit_parts_valid(value.parts),
        entity_reference_list_carries(message.entity_references@, value.entity_references),
        entity_reference_list_valid(value.entity_references),
        event_reference_list_carries(message.event_references@, references_to(value.events)),
        event_reference_list_valid(references_to(value.events)),
        attempt.typed == Some(message),
        attempt.encoded_len > 0,
        forall|held: StoredCommitRecordV1, verdict: Option<StorageValueError>|
            held@ == value && #[trigger] rule.ensures((&held,), verdict) ==> verdict is None,
        current_outcome(attempt, value.events, rule, read),
    ensures
        read is Ok,
        read->Ok_0.value@ == value,
{
    let references = choose|references: Seq<EntityReferenceView>| #[trigger]
        entity_reference_list_carries(message.entity_references@, references)
            && entity_reference_list_valid(references) && commit_ruled(
            rule,
            message.parts,
            references,
            value.events,
            attempt.encoded_len,
            read,
        );
    entity_reference_list_form_is_exact(
        message.entity_references@,
        references,
        value.entity_references,
    );
    assert(parts_readable(message.parts));
    let held = choose|held: StoredCommitRecordV1|
        is_commit(held@, message.parts, references, value.events) && #[trigger] ruled(
            rule,
            held,
            attempt.encoded_len,
            read,
        );
    commit_parts_form_is_exact(message.parts, held@.parts, value.parts);
    assert(held@ =~= value);
}

/// Decodes only the ordered event references of a commit, in whichever form it
/// has.
pub fn decode_commit_event_references<
    H: Fn(&StoredEntityRecordV1) -> PostImageHash,
    R: Fn(&StoredCommitRecordV1) -> Option<StorageValueError>,
>(
    current: ReadAttempt<wire::StoredCommitRecordV3>,
    second: ReadAttempt<wire::StoredCommitRecordV2>,
    legacy: ReadAttempt<wire::StoredCommitRecordV1>,
    hash: H,
    rule: R,
) -> (result: Result<EncodedPageItem<Vec<EventReferenceV2>>, DurableCodecError>)
    requires
        forall|record: &StoredEntityRecordV1| #[trigger] hash.requires((record,)),
        forall|value: &StoredCommitRecordV1| #[trigger] rule.requires((value,)),
    ensures
        match read_outcome(RecordType::StoredCommitRecordV3, current) {
            Ok(message) => only_event_references(
                message.event_references@,
                current.encoded_len,
                result,
            ),
            Err(kind) => if kind != DurableCodecErrorKind::UnexpectedRecordType {
                result == Err::<EncodedPageItem<Vec<EventReferenceV2>>, _>(
                    DurableCodecError { kind },
                )
            } else {
                match read_outcome(RecordType::StoredCommitRecordV2, second) {
                    Ok(message) => only_event_references(
                        message.event_references@,
                        second.encoded_len,
                        result,
                    ),
                    Err(kind) => if kind != DurableCodecErrorKind::UnexpectedRecordType {
                        result == Err::<EncodedPageItem<Vec<EventReferenceV2>>, _>(
                            DurableCodecError { kind },
                        )
                    } else {
                        exists|
                            by_legacy: Result<
                                EncodedPageItem<StoredCommitRecordV1>,
                                DurableCodecError,
                            >,
                        | #[trigger]
                            legacy_outcome(legacy, hash, rule, by_legacy)
                                && match by_legacy {
                                Ok(decoded) => result matches Ok(item) && item.value@
                                    == references_to(decoded.value@.events) && item.charge
                                    == decoded.charge,
                                Err(error) => result == Err::<
                                    EncodedPageItem<Vec<EventReferenceV2>>,
                                    _,
                                >(error),
                            }
                    },
                }
            },
        },
{
    let current_len = current.encoded_len;
    match read_message(RecordType::StoredCommitRecordV3, current) {
        Ok(message) => {
            return read_event_references(&message.event_references, current_len);
        },
        Err(error) => {
            if error.kind() != DurableCodecErrorKind::UnexpectedRecordType {
                return Err(error);
            }
        },
    }
    let second_len = second.encoded_len;
    match read_message(RecordType::StoredCommitRecordV2, second) {
        Ok(message) => {
            return read_event_references(&message.event_references, second_len);
        },
        Err(error) => {
            if error.kind() != DurableCodecErrorKind::UnexpectedRecordType {
                return Err(error);
            }
        },
    }
    let by_legacy = decode_commit_record_legacy_v1(legacy, hash, rule);
    assert(legacy_outcome(legacy, hash, rule, by_legacy));
    match by_legacy {
        Ok(decoded) => {
            let references = decoded.value().event_references();
            Ok(EncodedPageItem::new(references, decoded.encoded_content_charge()))
        },
        Err(error) => Err(error),
    }
}

/// Whether a result holds exactly the event references of messages.
pub open spec fn only_event_references(
    messages: Seq<wire::EventReferenceV2>,
    encoded_len: usize,
    result: Result<EncodedPageItem<Vec<EventReferenceV2>>, DurableCodecError>,
) -> bool {
    match result {
        Ok(item) => event_reference_list_carries(messages, item.value@)
            && event_reference_list_valid(item.value@) && encoded_len > 0 && item.charge.bytes
            == encoded_len,
        Err(error) => is_corrupt(error) && (encoded_len == 0 || forall|
            other: Seq<EventReferenceV2>,
        | #[trigger]
            event_reference_list_carries(messages, other) ==> !event_reference_list_valid(other)),
    }
}

fn read_event_references(messages: &[wire::EventReferenceV2], encoded_len: usize) -> (result:
    Result<EncodedPageItem<Vec<EventReferenceV2>>, DurableCodecError>)
    ensures
        only_event_references(messages@, encoded_len, result),
{
    let references = event_reference_list_from_proto(messages)?;
    charged(references, encoded_len)
}

/// Whether a result holds exactly the entity references of a commit message, or
/// the failure that stands in their place.
pub open spec fn only_entity_references(
    references: Result<Seq<EntityReferenceView>, DurableCodecErrorKind>,
    encoded_len: usize,
    result: Result<EncodedPageItem<Vec<CommittedEntityReferenceV2>>, DurableCodecError>,
) -> bool {
    match references {
        Err(kind) => result == Err::<EncodedPageItem<Vec<CommittedEntityReferenceV2>>, _>(
            DurableCodecError { kind },
        ),
        Ok(expected) => if encoded_len == 0 {
            result is Err && is_corrupt(result->Err_0)
        } else {
            result matches Ok(item) && entity_reference_views(item.value@) == expected
                && item.charge.bytes == encoded_len
        },
    }
}

/// The entity references that current messages are the forms of, if they are.
pub open spec fn current_references(messages: Seq<wire::CommittedEntityReferenceV2>) -> Result<
    Seq<EntityReferenceView>,
    DurableCodecErrorKind,
> {
    if !references_readable(messages) {
        Err(DurableCodecErrorKind::CorruptData)
    } else {
        Ok(
            choose|values: Seq<EntityReferenceView>| #[trigger]
                entity_reference_list_carries(messages, values) && entity_reference_list_valid(
                    values,
                ),
        )
    }
}

/// What decoding the entity references of a commit of whichever form gives.
pub open spec fn entity_references_decoded<H: Fn(&StoredEntityRecordV1) -> PostImageHash>(
    current: ReadAttempt<wire::StoredCommitRecordV3>,
    second: ReadAttempt<wire::StoredCommitRecordV2>,
    legacy: ReadAttempt<wire::StoredCommitRecordV1>,
    hash: H,
    result: Result<EncodedPageItem<Vec<CommittedEntityReferenceV2>>, DurableCodecError>,
) -> bool {
    match read_outcome(RecordType::StoredCommitRecordV3, current) {
        Ok(message) => only_entity_references(
            current_references(message.entity_references@),
            current.encoded_len,
            result,
        ),
        Err(kind) => if kind != DurableCodecErrorKind::UnexpectedRecordType {
            result == Err::<EncodedPageItem<Vec<CommittedEntityReferenceV2>>, _>(
                DurableCodecError { kind },
            )
        } else {
            match read_outcome(RecordType::StoredCommitRecordV2, second) {
                Ok(message) => exists|
                    embedded: Result<Seq<EntityReferenceView>, DurableCodecErrorKind>,
                | #[trigger]
                    embedded_read(hash, message.mutations@, embedded)
                        && only_entity_references(embedded, second.encoded_len, result),
                Err(kind) => if kind != DurableCodecErrorKind::UnexpectedRecordType {
                    result == Err::<EncodedPageItem<Vec<CommittedEntityReferenceV2>>, _>(
                        DurableCodecError { kind },
                    )
                } else {
                    match read_outcome(RecordType::StoredCommitRecordV1, legacy) {
                        Ok(message) => exists|
                            embedded: Result<Seq<EntityReferenceView>, DurableCodecErrorKind>,
                        | #[trigger]
                            embedded_read(hash, message.mutations@, embedded)
                                && only_entity_references(
                                embedded,
                                legacy.encoded_len,
                                result,
                            ),
                        Err(kind) => result == Err::<
                            EncodedPageItem<Vec<CommittedEntityReferenceV2>>,
                            _,
                        >(DurableCodecError { kind }),
                    }
                },
            }
        },
    }
}

/// Decodes only the ordered entity references of a commit, in whichever form it
/// has, without its events.
pub fn decode_commit_entity_references<H: Fn(&StoredEntityRecordV1) -> PostImageHash>(
    current: ReadAttempt<wire::StoredCommitRecordV3>,
    second: ReadAttempt<wire::StoredCommitRecordV2>,
    legacy: ReadAttempt<wire::StoredCommitRecordV1>,
    hash: H,
) -> (result: Result<EncodedPageItem<Vec<CommittedEntityReferenceV2>>, DurableCodecError>)
    requires
        forall|record: &StoredEntityRecordV1| #[trigger] hash.requires((record,)),
    ensures
        entity_references_decoded(current, second, legacy, hash, result),
{
    let current_len = current.encoded_len;
    match read_message(RecordType::StoredCommitRecordV3, current) {
        Ok(message) => {
            let references = entity_reference_list_from_proto(&message.entity_references)?;
            proof {
                let expected = current_references(message.entity_references@)->Ok_0;
                entity_reference_list_form_is_exact(
                    message.entity_references@,
                    entity_reference_views(references@),
                    expected,
                );
            }
            return charged(references, current_len);
        },
        Err(error) => {
            if error.kind() != DurableCodecErrorKind::UnexpectedRecordType {
                return Err(error);
            }
        },
    }
    let second_len = second.encoded_len;
    match read_message(RecordType::StoredCommitRecordV2, second) {
        Ok(message) => {
            let references = read_embedded_references(&message.mutations, &hash)?;
            return charged(references, second_len);
        },
        Err(error) => {
            if error.kind() != DurableCodecErrorKind::UnexpectedRecordType {
                return Err(error);
            }
        },
    }
    let legacy_len = legacy.encoded_len;
    let message = read_message(RecordType::StoredCommitRecordV1, legacy)?;
    let references = read_embedded_references(&message.mutations, &hash)?;
    charged(references, legacy_len)
}

/// A commit record with its first entity reference given twice, for fixtures that
/// need a damaged record.
pub fn inject_duplicate_entity_reference_v3(
    attempt: ReadAttempt<wire::StoredCommitRecordV3>,
) -> (result: Result<OutgoingRecord<wire::StoredCommitRecordV3>, DurableCodecError>)
    ensures
        match whole_message(RecordType::StoredCommitRecordV3, attempt) {
            Err(kind) => result == Err::<OutgoingRecord<wire::StoredCommitRecordV3>, _>(
                DurableCodecError { kind },
            ),
            Ok(message) => result matches Ok(record) && record.record_type
                == RecordType::StoredCommitRecordV3 && record.message.parts == message.parts
                && record.message.event_references == message.event_references && if message
                .entity_references@.len() == 0 {
                record.message.entity_references@ == message.entity_references@
            } else {
                record.message.entity_references@.len() == message.entity_references@.len() + 1
                    && record.message.entity_references@.drop_last() == message.entity_references@
                    && same_reference_message(
                    record.message.entity_references@.last(),
                    message.entity_references@[0],
                )
            },
        },
{
    let message = take_message(RecordType::StoredCommitRecordV3, attempt)?;
    let mut entity_references = message.entity_references;
    let ghost before = entity_references@;
    if entity_references.len() > 0 {
        let first = copy_reference_message(&entity_references[0]);
        entity_references.push(first);
        assert(entity_references@.drop_last() =~= before);
    }
    Ok(
        OutgoingRecord {
            record_type: RecordType::StoredCommitRecordV3,
            message: wire::StoredCommitRecordV3 {
                parts: message.parts,
                entity_references,
                event_references: message.event_references,
            },
        },
    )
}

/// Whether two entity reference messages hold the same.
pub open spec fn same_reference_message(
    a: wire::CommittedEntityReferenceV2,
    b: wire::CommittedEntityReferenceV2,
) -> bool {
    &&& match (a.target, b.target) {
        (Some(x), Some(y)) => x.entity_type_id == y.entity_type_id && x.entity_key.accepted
            == y.entity_key.accepted && x.entity_key.value@ == y.entity_key.value@,
        (None, None) => true,
        _ => false,
    }
    &&& a.entity_version == b.entity_version
    &&& a.post_image_hash@ == b.post_image_hash@
}

fn copy_reference_message(message: &wire::CommittedEntityReferenceV2) -> (result:
    wire::CommittedEntityReferenceV2)
    ensures
        same_reference_message(result, *message),
{
    let target = match &message.target {
        Some(target) => Some(
            wire::EntityTargetV1 {
                entity_type_id: target.entity_type_id,
                entity_key: super::parts::Vetted {
                    value: copy_bytes(&target.entity_key.value),
                    accepted: target.entity_key.accepted,
                },
            },
        ),
        None => None,
    };
    wire::CommittedEntityReferenceV2 {
        target,
        entity_version: message.entity_version,
        post_image_hash: copy_bytes(&message.post_image_hash),
    }
}

/// Rewraps a commit of the first form as one of the second, with its embedded
/// mutations and a reference to its first event, beside that event; for
/// migration fixtures.
pub fn rewrap_legacy_commit_v1_as_v2_fixture(
    found: Result<RegistryRecord<wire::StoredCommitRecordV1>, EnvelopeError>,
) -> (result: Result<
    (OutgoingRecord<wire::StoredCommitRecordV2>, OutgoingRecord<wire::StoredDurableEventV1>),
    DurableCodecError,
>)
    ensures
        match found {
            Err(error) => result is Err && result->Err_0.kind == read_failure(error),
            Ok(record) => if record.record_type != RecordType::StoredCommitRecordV1 {
                result is Err && result->Err_0.kind == DurableCodecErrorKind::UnexpectedRecordType
            } else {
                match record.message {
                    None => result is Err && is_corrupt(result->Err_0),
                    Some(legacy) => if legacy.events@.len() == 0 {
                        result is Err && is_corrupt(result->Err_0)
                    } else {
                        result matches Ok((commit, event)) && {
                            &&& commit.record_type == RecordType::StoredCommitRecordV2
                            &&& commit.message.parts == legacy.parts
                            &&& commit.message.mutations == legacy.mutations
                            &&& commit.message.event_references@.len() == 1
                            &&& same_event_id_message(
                                commit.message.event_references@[0].event_id,
                                legacy.events@[0].event_id,
                            )
                            &&& commit.message.event_references@[0].event_hash@
                                == legacy.events@[0].event_hash@
                            &&& event.record_type == RecordType::StoredDurableEventV1
                            &&& event.message == legacy.events@[0]
                        }
                    },
                }
            },
        },
{
    let record = match found {
        Ok(record) => record,
        Err(error) => {
            return Err(DurableCodecError::from_decode_envelope(error));
        },
    };
    if record.record_type != RecordType::StoredCommitRecordV1 {
        return Err(DurableCodecError::new(DurableCodecErrorKind::UnexpectedRecordType));
    }
    let legacy = require(record.message)?;
    let mut events = legacy.events;
    if events.len() == 0 {
        return Err(DurableCodecError::corrupt());
    }
    let event = events.remove(0);
    let event_id = match &event.event_id {
        Some(id) => Some(
            wire::EventIdV1 {
                commit_sequence: id.commit_sequence,
                event_ordinal: id.event_ordinal,
            },
        ),
        None => None,
    };
    let mut event_references: Vec<wire::EventReferenceV2> = Vec::new();
    event_references.push(
        wire::EventReferenceV2 { event_id, event_hash: copy_bytes(&event.event_hash) },
    );
    let commit = wire::StoredCommitRecordV2 {
        parts: legacy.parts,
        mutations: legacy.mutations,
        event_references,
    };
    Ok(
        (
            OutgoingRecord { record_type: RecordType::StoredCommitRecordV2, message: commit },
            OutgoingRecord { record_type: RecordType::StoredDurableEventV1, message: event },
        ),
    )
}

/// Whether two optional event identity messages hold the same.
pub open spec fn same_event_id_message(
    a: Option<wire::EventIdV1>,
    b: Option<wire::EventIdV1>,
) -> bool {
    match (a, b) {
        (Some(x), Some(y)) => x.commit_sequence == y.commit_sequence && x.event_ordinal
            == y.event_ordinal,
        (None, None) => true,
        _ => false,
    }
}

/// A hash gives one digest for equal post-images.
pub open spec fn post_image_hash_is_function<H: Fn(&StoredEntityRecordV1) -> PostImageHash>(
    hash: H,
) -> bool {
    forall|post_image: EntityRecordView, a: PostImageHash, b: PostImageHash|
        #[trigger] post_image_hashed(hash, post_image, a) && #[trigger] post_image_hashed(
            hash,
            post_image,
            b,
        ) ==> a == b
}

/// The references of embedded mutations are valid, and a hash that is a function leaves
/// no choice of them.
proof fn embedded_references_are_one<H: Fn(&StoredEntityRecordV1) -> PostImageHash>(
    hash: H,
    messages: Seq<wire::CommittedEntityMutationV1>,
    a: Result<Seq<EntityReferenceView>, DurableCodecErrorKind>,
    b: Result<Seq<EntityReferenceView>, DurableCodecErrorKind>,
)
    requires
        post_image_hash_is_function(hash),
        embedded_read(hash, messages, a),
        embedded_read(hash, messages, b),
    ensures
        a == b,
        a matches Ok(references) ==> entity_reference_list_valid(references),
{
    if mutations_readable(messages) {
        let mutations = mutations_of(messages);
        let left = choose|hashes: Seq<PostImageHash>| #[trigger]
            post_images_hashed(hash, mutations, hashes) && a == embedded_references(
                messages,
                hashes,
            );
        let right = choose|hashes: Seq<PostImageHash>| #[trigger]
            post_images_hashed(hash, mutations, hashes) && b == embedded_references(
                messages,
                hashes,
            );
        assert forall|i: int| 0 <= i < left.len() implies left[i] == right[i] by {
            assert(post_image_hashed(hash, mutations[i].post_image, left[i]));
            assert(post_image_hashed(hash, mutations[i].post_image, right[i]));
        }
        assert(left =~= right);
        if let Ok(references) = a {
            assert forall|i: int| 0 <= i < references.len() implies entity_reference_valid(
                #[trigger] references[i],
            ) by {
                assert(mutation_valid(mutations[i]));
            }
        }
    }
}

/// Rewriting a commit that was rewritten already gives the same record again.
pub proof fn transcoding_is_idempotent<H: Fn(&StoredEntityRecordV1) -> PostImageHash>(
    current: ReadAttempt<wire::StoredCommitRecordV3>,
    second: ReadAttempt<wire::StoredCommitRecordV2>,
    legacy: ReadAttempt<wire::StoredCommitRecordV1>,
    hash: H,
    first: Result<OutgoingRecord<wire::StoredCommitRecordV3>, DurableCodecError>,
    current_again: ReadAttempt<wire::StoredCommitRecordV3>,
    second_again: ReadAttempt<wire::StoredCommitRecordV2>,
    legacy_again: ReadAttempt<wire::StoredCommitRecordV1>,
    again: Result<OutgoingRecord<wire::StoredCommitRecordV3>, DurableCodecError>,
)
    requires
        commit_transcoded(current, second, legacy, hash, first),
        first is Ok,
        reads_back(first->Ok_0, current_again),
        commit_transcoded(current_again, second_again, legacy_again, hash, again),
    ensures
        again == first,
{
    assert(first->Ok_0.record_type == RecordType::StoredCommitRecordV3);
}

/// Whether attempts at the three forms of a commit meet one record: it is in one of the
/// forms, and every newer form is refused for the record type.
pub open spec fn one_commit(
    current: ReadAttempt<wire::StoredCommitRecordV3>,
    second: ReadAttempt<wire::StoredCommitRecordV2>,
    legacy: ReadAttempt<wire::StoredCommitRecordV1>,
) -> bool {
    let unexpected = DurableCodecErrorKind::UnexpectedRecordType;
    &&& current.encoded_len > 0 && second.encoded_len > 0 && legacy.encoded_len > 0
    &&& match read_outcome(RecordType::StoredCommitRecordV3, current) {
        Ok(_) => true,
        Err(kind) => kind == unexpected && match read_outcome(
            RecordType::StoredCommitRecordV2,
            second,
        ) {
            Ok(_) => true,
            Err(kind) => kind == unexpected,
        },
    }
}

/// Rewriting a commit keeps its entity references: decoding them from the rewritten
/// record gives what decoding them from the record itself gives.
pub proof fn transcoding_keeps_entity_references<
    H: Fn(&StoredEntityRecordV1) -> PostImageHash,
>(
    current: ReadAttempt<wire::StoredCommitRecordV3>,
    second: ReadAttempt<wire::StoredCommitRecordV2>,
    legacy: ReadAttempt<wire::StoredCommitRecordV1>,
    hash: H,
    first: Result<OutgoingRecord<wire::StoredCommitRecordV3>, DurableCodecError>,
    before: Result<EncodedPageItem<Vec<CommittedEntityReferenceV2>>, DurableCodecError>,
    current_again: ReadAttempt<wire::StoredCommitRecordV3>,
    second_again: ReadAttempt<wire::StoredCommitRecordV2>,
    legacy_again: ReadAttempt<wire::StoredCommitRecordV1>,
    after: Result<EncodedPageItem<Vec<CommittedEntityReferenceV2>>, DurableCodecError>,
)
    requires
        post_image_hash_is_function(hash),
        one_commit(current, second, legacy),
        commit_transcoded(current, second, legacy, hash, first),
        first is Ok,
        entity_references_decoded(current, second, legacy, hash, before),
        reads_back(first->Ok_0, current_again),
        entity_references_decoded(current_again, second_again, legacy_again, hash, after),
    ensures
        match before {
            Ok(item) => after matches Ok(kept) && entity_reference_views(kept.value@)
                == entity_reference_views(item.value@),
            Err(error) => after == before,
        },
{
    let record = first->Ok_0;
    assert(record.record_type == RecordType::StoredCommitRecordV3);
    if whole_message(RecordType::StoredCommitRecordV3, current) is Err {
        let mutations = match whole_message(RecordType::StoredCommitRecordV2, second) {
            Ok(message) => message.mutations@,
            Err(_) => whole_message(
                RecordType::StoredCommitRecordV1,
                legacy,
            )->Ok_0.mutations@,
        };
        assert forall|
            a: Result<Seq<EntityReferenceView>, DurableCodecErrorKind>,
            b: Result<Seq<EntityReferenceView>, DurableCodecErrorKind>,
        | #[trigger] embedded_read(hash, mutations, a) && #[trigger] embedded_read(
            hash,
            mutations,
            b,
        ) implies a == b && (a matches Ok(references) ==> entity_reference_list_valid(
            references,
        )) by {
            embedded_references_are_one(hash, mutations, a, b);
        }
        let embedded = choose|embedded: Result<Seq<EntityReferenceView>, DurableCodecErrorKind>|
            #[trigger] embedded_read(hash, mutations, embedded) && embedded is Ok
                && entity_reference_list_carries(
                record.message.entity_references@,
                embedded->Ok_0,
            );
        assert(references_readable(record.message.entity_references@));
        entity_reference_list_form_is_exact(
            record.message.entity_references@,
            embedded->Ok_0,
            current_references(record.message.entity_references@)->Ok_0,
        );
    }
}

/// A commit in its current form is not taken for one in its first form: the record type
/// is refused.
pub proof fn current_commit_is_not_legacy<
    H: Fn(&StoredEntityRecordV1) -> PostImageHash,
    R: Fn(&StoredCommitRecordV1) -> Option<StorageValueError>,
>(
    record: OutgoingRecord<wire::StoredCommitRecordV3>,
    attempt: ReadAttempt<wire::StoredCommitRecordV1>,
    hash: H,
    rule: R,
    result: Result<EncodedPageItem<StoredCommitRecordV1>, DurableCodecError>,
)
    requires
        record.record_type == RecordType::StoredCommitRecordV3,
        reads_another(record.record_type, attempt),
        legacy_outcome(attempt, hash, rule, result),
    ensures
        result == Err::<EncodedPageItem<StoredCommitRecordV1>, _>(
            DurableCodecError { kind: DurableCodecErrorKind::UnexpectedRecordType },
        ),
{
}

} // verus!
