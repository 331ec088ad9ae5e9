//! How the references of a commit are derived.

use vstd::prelude::*;

use crate::codec::commit::{commit_transcoded, first_hash_failure, references_of, PostImageHash};
use crate::codec::envelope::{OutgoingRecord, ReadAttempt};
use crate::codec::error::{value_failure, DurableCodecError, DurableCodecErrorKind};
use crate::codec::record_type::RecordType;
use crate::records::StoredEntityRecordV1;
use crate::stored::application::{
    event_views, mutation_views, CommittedEntityMutationV1, EntityReferenceView,
};
use crate::records::StoredDurableEventV1;
use crate::stored::commit::references_to;
use crate::value_error::StorageValueError;
use crate::wire;

verus! {

proof fn the_first_failed_digest_is_found(hashes: Seq<PostImageHash>)
    ensures
        first_hash_failure(hashes) is None <==> forall|i: int|
            0 <= i < hashes.len() ==> (#[trigger] hashes[i]) is Ok,
        forall|k: int|
            0 <= k < hashes.len() && (#[trigger] hashes[k]) is Err && (forall|i: int|
                0 <= i < k ==> (#[trigger] hashes[i]) is Ok) ==> first_hash_failure(hashes) == Some(
                hashes[k]->Err_0,
            ),
    decreases hashes.len(),
{
    if hashes.len() > 0 && hashes[0] is Ok {
        let rest = hashes.skip(1);
        the_first_failed_digest_is_found(rest);
        assert forall|i: int| 0 < i < hashes.len() implies #[trigger] hashes[i] == rest[i - 1] by {}
        if first_hash_failure(hashes) is None {
            assert forall|i: int| 0 <= i < hashes.len() implies (#[trigger] hashes[i]) is Ok by {
                if i > 0 {
                    assert(rest[i - 1] is Ok);
                }
            }
        } else if forall|i: int| 0 <= i < hashes.len() ==> (#[trigger] hashes[i]) is Ok {
            assert forall|i: int| 0 <= i < rest.len() implies (#[trigger] rest[i]) is Ok by {
                assert(hashes[i + 1] is Ok);
            }
        }
        assert forall|k: int|
            0 <= k < hashes.len() && (#[trigger] hashes[k]) is Err && (forall|i: int|
                0 <= i < k ==> (#[trigger] hashes[i]) is Ok) implies first_hash_failure(hashes)
            == Some(hashes[k]->Err_0) by {
            assert(rest[k - 1] is Err);
            assert forall|i: int| 0 <= i < k - 1 implies (#[trigger] rest[i]) is Ok by {
                assert(hashes[i + 1] is Ok);
            }
        }
    }
}

/// Mutations are referenced where there is a digest for each of them: in their order, by
/// the target and the version of the post-image and its digest. The first digest that
/// failed decides otherwise, and another number of digests breaks a promise.
pub proof fn mutations_are_referenced_by_their_post_images(
    mutations: Seq<CommittedEntityMutationV1>,
    hashes: Seq<PostImageHash>,
)
    ensures
        ({
            let found = references_of(mutation_views(mutations), hashes);
            let all_hashed = forall|i: int|
                0 <= i < hashes.len() ==> (#[trigger] hashes[i]) is Ok;
            &&& found is Ok <==> mutations.len() == hashes.len() && all_hashed
            &&& mutations.len() != hashes.len() ==> found == Err::<Seq<EntityReferenceView>, _>(
                DurableCodecErrorKind::InvariantViolation,
            )
            &&& found matches Ok(references) ==> references.len() == mutations.len() && forall|
                i: int,
            |
                #![trigger references[i]]
                0 <= i < mutations.len() ==> references[i].target
                    == mutations[i].post_image.target@ && references[i].entity_version
                    == mutations[i].post_image.entity_version && hashes[i] == Ok::<
                    _,
                    StorageValueError,
                >(references[i].post_image_hash)
            &&& forall|k: int|
                mutations.len() == hashes.len() && 0 <= k < hashes.len() && (#[trigger] hashes[k])
                    is Err && (forall|i: int| 0 <= i < k ==> (#[trigger] hashes[i]) is Ok)
                    ==> found == Err::<Seq<EntityReferenceView>, _>(
                    value_failure(hashes[k]->Err_0),
                )
        }),
{
    the_first_failed_digest_is_found(hashes);
    let found = references_of(mutation_views(mutations), hashes);
    if let Ok(references) = found {
        assert forall|i: int|
            #![trigger references[i]]
            0 <= i < mutations.len() implies references[i].target == mutations[i].post_image.target@
            && references[i].entity_version == mutations[i].post_image.entity_version && hashes[i]
            == Ok::<_, StorageValueError>(references[i].post_image_hash) by {
            assert(hashes[i] is Ok);
            assert(mutation_views(mutations)[i] == mutations[i]@);
        }
    }
}

/// Events are referenced in their order, each by its own identity and hash.
pub proof fn events_are_referenced_by_identity_and_hash(events: Seq<StoredDurableEventV1>, i: int)
    requires
        0 <= i < events.len(),
    ensures
        references_to(event_views(events)).len() == events.len(),
        references_to(event_views(events))[i].event_id == events[i].event_id,
        references_to(event_views(events))[i].event_hash == events[i].event_hash,
{
    assert(event_views(events)[i] == events[i]@);
}

/// A commit that is already in its current form is rewritten to itself; one in its second
/// form keeps its parts and its event references; one in its first form keeps its parts.
/// Whatever is rewritten comes out in the current form.
pub proof fn rewritten_commits_keep_what_they_hold<H: Fn(&StoredEntityRecordV1) -> PostImageHash>(
    current: ReadAttempt<wire::StoredCommitRecordV3>,
    second: ReadAttempt<wire::StoredCommitRecordV2>,
    legacy: ReadAttempt<wire::StoredCommitRecordV1>,
    hash: H,
    result: Result<OutgoingRecord<wire::StoredCommitRecordV3>, DurableCodecError>,
)
    requires
        commit_transcoded(current, second, legacy, hash, result),
    ensures
        result is Ok ==> result->Ok_0.record_type == RecordType::StoredCommitRecordV3,
        current.typed is Some && current.encoded_len > 0 ==> result is Ok && Some(
            result->Ok_0.message,
        ) == current.typed,
        result is Ok && current.typed is None && current.registry is Err && second.typed is Some
            && second.encoded_len > 0 ==> result->Ok_0.message.parts == second.typed->Some_0.parts
            && result->Ok_0.message.event_references == second.typed->Some_0.event_references,
        result is Ok && current.typed is None && current.registry is Err && second.typed is None
            && second.registry is Err && legacy.typed is Some ==> result->Ok_0.message.parts
            == legacy.typed->Some_0.parts,
{
}

} // verus!
