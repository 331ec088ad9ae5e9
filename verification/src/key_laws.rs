//! How the keys of a projection are laid out, and which of them are accepted.

use vstd::prelude::*;
use vstd::utf8::encode_utf8;

use crate::bytes::{be32, be64};
use crate::ids::{CommitSequence, ProjectionGeneration};
use crate::keys::{
    apply_key_bytes, component_refusal, first_component_refusal, framed_components, group_key_bytes,
    CanonicalRecordView, CanonicalValueView, GroupKeyParts, ProjectionGroupKeyView,
    ProjectionIdentityView, ProjectionKeyError,
};
use crate::limits::{MAX_KEY_BYTES, MAX_PROJECTION_STATE_SEMANTIC_BYTES};
use crate::projection::state::{key_failure, stored_parts_refusal, structure_refusal};
use crate::value_error::StorageValueError;

verus! {

/// An identity is its lineage behind its length, the projection number and the digest of
/// the plan.
pub proof fn identities_lay_their_parts_out(identity: ProjectionIdentityView)
    ensures
        ({
            let bytes = identity.canonical();
            let text = encode_utf8(identity.lineage);
            let at = 4 + text.len() as int;
            &&& bytes.len() == at + 36
            &&& bytes.take(4) == be32(text.len() as u32)
            &&& bytes.subrange(4, at) == text
            &&& bytes.subrange(at, at + 4) == be32(identity.projection_id)
            &&& bytes.skip(at + 4) == identity.plan_hash.bytes@
        }),
{
    let bytes = identity.canonical();
    let text = encode_utf8(identity.lineage);
    let at = 4 + text.len() as int;
    assert(bytes.take(4) =~= be32(text.len() as u32));
    assert(bytes.subrange(4, at) =~= text);
    assert(bytes.subrange(at, at + 4) =~= be32(identity.projection_id));
    assert(bytes.skip(at + 4) =~= identity.plan_hash.bytes@);
}

/// A group key begins with its purpose, its version, the identity and the generation, and
/// ends with its components.
pub proof fn group_keys_lay_their_parts_out(
    identity: ProjectionIdentityView,
    generation: ProjectionGeneration,
    components: Seq<CanonicalValueView>,
)
    ensures
        ({
            let bytes = group_key_bytes(identity, generation, components);
            let name = identity.canonical();
            let at = 2 + name.len() as int;
            &&& bytes[0] == 0x07
            &&& bytes[1] == 0x01
            &&& bytes.subrange(2, at) == name
            &&& bytes.subrange(at, at + 8) == be64(generation.value)
            &&& bytes.skip(at + 8) == framed_components(components)
        }),
{
    let bytes = group_key_bytes(identity, generation, components);
    let name = identity.canonical();
    let at = 2 + name.len() as int;
    assert(bytes.subrange(2, at) =~= name);
    assert(bytes.subrange(at, at + 8) =~= be64(generation.value));
    assert(bytes.skip(at + 8) =~= framed_components(components));
}

/// The key of an apply marker is its purpose, its version, the identity, the generation
/// and the sequence.
pub proof fn apply_keys_lay_their_parts_out(
    identity: ProjectionIdentityView,
    generation: ProjectionGeneration,
    sequence: CommitSequence,
)
    ensures
        ({
            let bytes = apply_key_bytes(identity, generation, sequence);
            let name = identity.canonical();
            let at = 2 + name.len() as int;
            &&& bytes.len() == at + 16
            &&& bytes[0] == 0x08
            &&& bytes[1] == 0x01
            &&& bytes.subrange(2, at) == name
            &&& bytes.subrange(at, at + 8) == be64(generation.value)
            &&& bytes.skip(at + 8) == be64(sequence.value)
        }),
{
    let bytes = apply_key_bytes(identity, generation, sequence);
    let name = identity.canonical();
    let at = 2 + name.len() as int;
    assert(bytes.subrange(2, at) =~= name);
    assert(bytes.subrange(at, at + 8) =~= be64(generation.value));
    assert(bytes.skip(at + 8) =~= be64(sequence.value));
}

/// The bytes that the first components take in a key, each with its length before it.
pub open spec fn components_len(components: Seq<CanonicalValueView>, count: nat) -> nat
    decreases count,
{
    if count == 0 {
        0
    } else {
        components_len(components, (count - 1) as nat) + 4 + components[count - 1].encoded.len()
    }
}

/// Whether a component can stand at its place: a scalar, not empty, that leaves the key
/// within its bound.
pub open spec fn component_fits(
    name_len: nat,
    components: Seq<CanonicalValueView>,
    i: int,
) -> bool {
    let kind = components[i].kind;
    &&& !(kind is Null || kind is List || kind is Record || kind is Vector)
    &&& components[i].encoded.len() > 0
    &&& 10 + name_len + components_len(components, (i + 1) as nat) <= MAX_KEY_BYTES
}

proof fn framed_components_have_their_length(
    components: Seq<CanonicalValueView>,
    more: Seq<CanonicalValueView>,
)
    requires
        components.len() <= more.len(),
        forall|i: int| 0 <= i < components.len() ==> components[i] == #[trigger] more[i],
    ensures
        framed_components(components).len() == components_len(more, components.len()),
    decreases components.len(),
{
    if components.len() > 0 {
        framed_components_have_their_length(components.drop_last(), more);
        assert(components.last() == more[components.len() - 1]);
    }
}

/// Components are accepted exactly when each of them can stand at its place. Otherwise the
/// first that cannot decides: for its kind, for being empty, and last for the bound.
pub proof fn components_stand_at_their_places(key: GroupKeyParts)
    ensures
        ({
            let name_len = key.identity.canonical().len();
            &&& first_component_refusal(key) is None <==> forall|i: int|
                0 <= i < key.components.len() ==> #[trigger] component_fits(
                    name_len,
                    key.components,
                    i,
                )
            &&& forall|k: int|
                0 <= k < key.components.len() && !#[trigger] component_fits(
                    name_len,
                    key.components,
                    k,
                ) && (forall|i: int|
                    0 <= i < k ==> #[trigger] component_fits(name_len, key.components, i))
                    ==> first_component_refusal(key) == Some(
                    if key.components[k].kind is Null || key.components[k].kind is List
                        || key.components[k].kind is Record || key.components[k].kind is Vector {
                        ProjectionKeyError::NonScalarComponent
                    } else if key.components[k].encoded.len() == 0 {
                        ProjectionKeyError::EmptyComponent
                    } else {
                        ProjectionKeyError::TooLong
                    },
                )
        }),
    decreases key.components.len(),
{
    let name_len = key.identity.canonical().len();
    let all = key.components;
    if all.len() > 0 {
        let leading = GroupKeyParts { components: all.drop_last(), ..key };
        let last = all.len() - 1;
        components_stand_at_their_places(leading);
        framed_components_have_their_length(leading.components, all);
        assert forall|i: int| 0 <= i < last implies #[trigger] component_fits(
            name_len,
            leading.components,
            i,
        ) == component_fits(name_len, all, i) by {
            lengths_look_at_their_components(leading.components, all, (i + 1) as nat);
        }
        assert(component_fits(name_len, all, last) == (component_refusal(leading, all.last())
            is None));
        if first_component_refusal(key) is None {
            assert forall|i: int| 0 <= i < all.len() implies #[trigger] component_fits(
                name_len,
                all,
                i,
            ) by {
                if i < last {
                    assert(component_fits(name_len, leading.components, i));
                }
            }
        } else if forall|i: int|
            0 <= i < all.len() ==> #[trigger] component_fits(name_len, all, i) {
            assert forall|i: int| 0 <= i < last implies #[trigger] component_fits(
                name_len,
                leading.components,
                i,
            ) by {
                assert(component_fits(name_len, all, i));
            }
            assert(component_fits(name_len, all, last));
        }
        assert forall|k: int|
            0 <= k < all.len() && !#[trigger] component_fits(name_len, all, k) && (forall|i: int|
                0 <= i < k ==> #[trigger] component_fits(name_len, all, i)) implies
            first_component_refusal(key) == Some(
            if all[k].kind is Null || all[k].kind is List || all[k].kind is Record
                || all[k].kind is Vector {
                ProjectionKeyError::NonScalarComponent
            } else if all[k].encoded.len() == 0 {
                ProjectionKeyError::EmptyComponent
            } else {
                ProjectionKeyError::TooLong
            },
        ) by {
            assert forall|i: int| 0 <= i < k && i < last implies #[trigger] component_fits(
                name_len,
                leading.components,
                i,
            ) by {
                assert(component_fits(name_len, all, i));
            }
            if k < last {
                assert(!component_fits(name_len, leading.components, k));
                assert(leading.components[k] == all[k]);
            } else {
                assert(first_component_refusal(leading) is None);
            }
        }
    }
}

proof fn lengths_look_at_their_components(
    a: Seq<CanonicalValueView>,
    b: Seq<CanonicalValueView>,
    count: nat,
)
    requires
        count <= a.len(),
        count <= b.len(),
        forall|i: int| 0 <= i < count ==> a[i] == #[trigger] b[i],
    ensures
        components_len(a, count) == components_len(b, count),
    decreases count,
{
    if count > 0 {
        lengths_look_at_their_components(a, b, (count - 1) as nat);
        assert(a[count - 1] == b[count - 1]);
    }
}

/// A key that is too long or has too many components is over a limit; every other key
/// that is refused has the wrong shape.
pub proof fn refused_keys_have_their_reason(error: ProjectionKeyError)
    ensures
        key_failure(error) == match error {
            ProjectionKeyError::TooLong => StorageValueError::LimitExceeded,
            ProjectionKeyError::TooManyComponents => StorageValueError::LimitExceeded,
            _ => StorageValueError::InvalidShape,
        },
{
}

/// A stored row is charged forty-two bytes beside those of its key and its measures, and
/// is accepted up to its bound.
pub proof fn stored_rows_are_bounded(
    key: ProjectionGroupKeyView,
    measures: CanonicalRecordView,
)
    ensures
        ({
            let charge = key.bytes.len() + measures.encoded.len() + 42;
            let refusal = structure_refusal(key, measures);
            &&& refusal is None <==> key.bytes.len() >= 2 && charge
                <= MAX_PROJECTION_STATE_SEMANTIC_BYTES
            &&& key.bytes.len() < 2 ==> refusal == Some(StorageValueError::InvalidShape)
            &&& key.bytes.len() >= 2 && charge > usize::MAX ==> refusal == Some(
                StorageValueError::SizeOverflow,
            )
            &&& key.bytes.len() >= 2 && MAX_PROJECTION_STATE_SEMANTIC_BYTES < charge
                <= usize::MAX ==> refusal == Some(StorageValueError::LimitExceeded)
        }),
{
}

/// Stored parts form a row exactly when there are components, each of them can stand at
/// its place, and the row is within its bound; a refused component decides first.
pub proof fn stored_parts_form_a_row(key: GroupKeyParts, measures: CanonicalRecordView)
    ensures
        ({
            let refusal = stored_parts_refusal(key, measures);
            let key_len = 10 + key.identity.canonical().len() + components_len(
                key.components,
                key.components.len(),
            );
            let all_fit = forall|i: int|
                0 <= i < key.components.len() ==> #[trigger] component_fits(
                    key.identity.canonical().len(),
                    key.components,
                    i,
                );
            &&& refusal is None <==> key.components.len() > 0 && all_fit && key_len
                + measures.encoded.len() + 42 <= MAX_PROJECTION_STATE_SEMANTIC_BYTES
            &&& key.components.len() == 0 ==> refusal == Some(StorageValueError::InvalidShape)
            &&& !all_fit ==> refusal == Some(
                key_failure(first_component_refusal(key)->Some_0),
            )
        }),
{
    components_stand_at_their_places(key);
    framed_components_have_their_length(key.components, key.components);
    stored_rows_are_bounded(key.key(), measures);
}

} // verus!
