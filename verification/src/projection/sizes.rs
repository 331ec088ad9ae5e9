//! Semantic byte charges of projection values and their hard bounds.

use vstd::prelude::*;

use crate::ids::FrontierPosition;
use crate::keys::{
    CanonicalRecord, CanonicalRecordView, ProjectionGroupKey, ProjectionGroupKeyView,
    ProjectionIdentity, ProjectionIdentityView,
};
use crate::limits::{
    MAX_PROJECTION_APPLY_SNAPSHOT_BYTES, MAX_PROJECTION_QUERY_CONTENT_BYTES,
    MAX_PROJECTION_WRITE_SET_BYTES,
};
use crate::value_error::StorageValueError;

verus! {

/// A size as a machine word, unless it does not fit.
pub open spec fn fitting(total: nat) -> Result<usize, StorageValueError> {
    if total <= usize::MAX {
        Ok(total as usize)
    } else {
        Err(StorageValueError::SizeOverflow)
    }
}

/// The sum of sizes.
pub open spec fn sum_of(parts: Seq<usize>) -> nat
    decreases parts.len(),
{
    if parts.len() == 0 {
        0
    } else {
        sum_of(parts.drop_last()) + parts.last() as nat
    }
}

/// Leading sizes never add up to more than all of them.
pub proof fn leading_sum_is_smaller(parts: Seq<usize>, count: int)
    requires
        0 <= count <= parts.len(),
    ensures
        sum_of(parts.take(count)) <= sum_of(parts),
    decreases parts.len() - count,
{
    if count == parts.len() {
        assert(parts.take(count) =~= parts);
    } else {
        leading_sum_is_smaller(parts, count + 1);
        assert(parts.take(count + 1).drop_last() =~= parts.take(count));
    }
}

/// Adds sizes.
pub fn checked_projection_sum(parts: &[usize]) -> (result: Result<usize, StorageValueError>)
    ensures
        result == fitting(sum_of(parts@)),
{
    let mut total: usize = 0;
    let mut i: usize = 0;
    while i < parts.len()
        invariant
            i <= parts@.len(),
            total == sum_of(parts@.take(i as int)),
        decreases parts@.len() - i,
    {
        proof {
            leading_sum_is_smaller(parts@, i as int + 1);
            assert(parts@.take(i as int + 1).drop_last() =~= parts@.take(i as int));
        }
        match total.checked_add(parts[i]) {
            Some(next) => {
                total = next;
            },
            None => {
                return Err(StorageValueError::SizeOverflow);
            },
        }
        i += 1;
    }
    assert(parts@.take(i as int) =~= parts@);
    Ok(total)
}

/// The charge of a content behind its four-byte length.
pub fn framed_bytes(content_bytes: usize) -> (result: Result<usize, StorageValueError>)
    ensures
        result == fitting((4 + content_bytes) as nat),
{
    match 4usize.checked_add(content_bytes) {
        Some(total) => Ok(total),
        None => Err(StorageValueError::SizeOverflow),
    }
}

/// The charge of a frontier: a tag, and a position where there is one.
pub open spec fn frontier_size(frontier: FrontierPosition) -> nat {
    match frontier {
        FrontierPosition::BeforeFirst => 1,
        FrontierPosition::AppliedThrough(_) => 9,
    }
}

/// Returns the charge of a frontier.
pub fn frontier_semantic_bytes(frontier: FrontierPosition) -> (result: usize)
    ensures
        result == frontier_size(frontier),
{
    match frontier {
        FrontierPosition::BeforeFirst => 1,
        FrontierPosition::AppliedThrough(_) => 1 + 8,
    }
}

/// The charge of a stored row: the key without its purpose and version, the
/// framed measures, the changing sequence and a digest.
pub open spec fn state_size(key: ProjectionGroupKeyView, measures: CanonicalRecordView) -> nat {
    ((key.bytes.len() - 2) + (4 + measures.encoded.len()) + 8 + 32) as nat
}

/// Returns the charge of a stored row.
pub fn projection_state_semantic_bytes(
    key: &ProjectionGroupKey,
    measures: &CanonicalRecord,
) -> (result: Result<usize, StorageValueError>)
    ensures
        key@.bytes.len() < 2 ==> result == Err::<usize, _>(StorageValueError::InvalidShape),
        key@.bytes.len() >= 2 ==> result == fitting(state_size(key@, measures@)),
{
    let identity_generation_and_components = match key.as_bytes().len().checked_sub(2) {
        Some(length) => length,
        None => {
            return Err(StorageValueError::InvalidShape);
        },
    };
    let framed = match framed_bytes(measures.encoded.len()) {
        Ok(framed) => framed,
        Err(error) => {
            return Err(error);
        },
    };
    let parts = [identity_generation_and_components, framed, 8usize, 32usize];
    proof {
        reveal_with_fuel(sum_of, 5);
        assert(parts@.drop_last() =~= parts@.take(3));
        assert(parts@.take(3).drop_last() =~= parts@.take(2));
        assert(parts@.take(2).drop_last() =~= parts@.take(1));
        assert(parts@.take(1).drop_last() =~= parts@.take(0));
    }
    checked_projection_sum(parts.as_slice())
}

/// The largest charge of a control record: the framed identity, the allocation
/// mark, two positions, a mode, a lifecycle and a failure.
pub open spec fn control_size(identity: ProjectionIdentityView) -> nat {
    (4 + identity.canonical().len()) + 8 + 2 * (1 + 8 + 9) + 2 + 1 + (1 + 8 + 1 + 1 + 8)
}

/// Returns the largest charge of a control record.
pub fn maximum_projection_control_semantic_bytes(identity: &ProjectionIdentity) -> (result: Result<
    usize,
    StorageValueError,
>)
    ensures
        result == fitting(control_size(identity@)),
{
    let retained_position: usize = 1 + 8 + 9;
    let maximum_failure: usize = 1 + 8 + 1 + 1 + 8;
    let framed = match framed_bytes(identity.to_canonical_bytes().len()) {
        Ok(framed) => framed,
        Err(error) => {
            return Err(error);
        },
    };
    let parts = [
        framed,
        8usize,
        retained_position,
        retained_position,
        2usize,
        1usize,
        maximum_failure,
    ];
    proof {
        reveal_with_fuel(sum_of, 8);
        assert(parts@.drop_last() =~= parts@.take(6));
        assert(parts@.take(6).drop_last() =~= parts@.take(5));
        assert(parts@.take(5).drop_last() =~= parts@.take(4));
        assert(parts@.take(4).drop_last() =~= parts@.take(3));
        assert(parts@.take(3).drop_last() =~= parts@.take(2));
        assert(parts@.take(2).drop_last() =~= parts@.take(1));
        assert(parts@.take(1).drop_last() =~= parts@.take(0));
    }
    checked_projection_sum(parts.as_slice())
}

/// Whether a charge keeps a bound.
pub open spec fn bound_outcome(bytes: usize, maximum: usize) -> Result<(), StorageValueError> {
    if bytes > maximum {
        Err(StorageValueError::LimitExceeded)
    } else {
        Ok(())
    }
}

/// Accepts a charge up to a bound.
pub fn validate_projection_bound(bytes: usize, maximum: usize) -> (result: Result<
    (),
    StorageValueError,
>)
    ensures
        result == bound_outcome(bytes, maximum),
{
    if bytes > maximum {
        return Err(StorageValueError::LimitExceeded);
    }
    Ok(())
}

/// Accepts a write-set charge up to its bound.
pub fn validate_projection_write_set_semantic_bytes(bytes: usize) -> (result: Result<
    (),
    StorageValueError,
>)
    ensures
        result == bound_outcome(bytes, MAX_PROJECTION_WRITE_SET_BYTES),
{
    validate_projection_bound(bytes, MAX_PROJECTION_WRITE_SET_BYTES)
}

/// Accepts a snapshot charge up to its bound.
pub fn validate_projection_snapshot_semantic_bytes(bytes: usize) -> (result: Result<
    (),
    StorageValueError,
>)
    ensures
        result == bound_outcome(bytes, MAX_PROJECTION_APPLY_SNAPSHOT_BYTES),
{
    validate_projection_bound(bytes, MAX_PROJECTION_APPLY_SNAPSHOT_BYTES)
}

/// Accepts a query page's encoded bytes up to their bound.
pub fn validate_projection_query_encoded_bytes(bytes: usize) -> (result: Result<
    (),
    StorageValueError,
>)
    ensures
        result == bound_outcome(bytes, MAX_PROJECTION_QUERY_CONTENT_BYTES),
{
    validate_projection_bound(bytes, MAX_PROJECTION_QUERY_CONTENT_BYTES)
}

} // verus!
