//! An apply payload says everything about its request.

use vstd::prelude::*;

use super::apply::{
    apply_payload, apply_payload_prefix, frontier_bytes, prior_bytes, row_bytes, rows_bytes,
    APPLY_CODEC_VERSION_V1,
};
use super::state::{ProjectionRowPrior, ProjectionRowUpdateView};
use crate::bytes::{be32, be32_injective, be64, be64_injective};
use crate::ids::{CommitSequence, FrontierPosition, ProjectionGeneration};
use crate::keys::ProjectionIdentityView;

verus! {

/// What a payload says of one row: its key, its prior evidence and its measures.
pub open spec fn same_row_content(a: ProjectionRowUpdateView, b: ProjectionRowUpdateView) -> bool {
    a.key.bytes == b.key.bytes && a.prior == b.prior && a.measures.encoded == b.measures.encoded
}

/// The lengths of a row fit their frames.
pub open spec fn row_framed(row: ProjectionRowUpdateView) -> bool {
    row.key.bytes.len() <= u32::MAX && row.measures.encoded.len() <= u32::MAX
}

/// The lengths of a request fit their frames.
pub open spec fn request_framed(
    identity: ProjectionIdentityView,
    rows: Seq<ProjectionRowUpdateView>,
) -> bool {
    &&& identity.canonical().len() <= u32::MAX
    &&& rows.len() <= u32::MAX
    &&& forall|i: int| 0 <= i < rows.len() ==> row_framed(#[trigger] rows[i])
}

proof fn split(a: Seq<u8>, b: Seq<u8>, c: Seq<u8>, d: Seq<u8>)
    requires
        a + b == c + d,
        a.len() == c.len(),
    ensures
        a == c,
        b == d,
{
    assert((a + b).take(a.len() as int) =~= a);
    assert((c + d).take(c.len() as int) =~= c);
    assert((a + b).skip(a.len() as int) =~= b);
    assert((c + d).skip(c.len() as int) =~= d);
}

proof fn split_framed(a: Seq<u8>, x: Seq<u8>, b: Seq<u8>, y: Seq<u8>)
    requires
        a.len() <= u32::MAX,
        b.len() <= u32::MAX,
        be32(a.len() as u32) + (a + x) == be32(b.len() as u32) + (b + y),
    ensures
        a == b,
        x == y,
{
    split(be32(a.len() as u32), a + x, be32(b.len() as u32), b + y);
    be32_injective(a.len() as u32, b.len() as u32);
    split(a, x, b, y);
}

proof fn split_prior(a: ProjectionRowPrior, x: Seq<u8>, b: ProjectionRowPrior, y: Seq<u8>)
    requires
        prior_bytes(a) + x == prior_bytes(b) + y,
    ensures
        a == b,
        x == y,
{
    assert((prior_bytes(a) + x)[0] == prior_bytes(a)[0]);
    assert((prior_bytes(b) + y)[0] == prior_bytes(b)[0]);
    split(prior_bytes(a), x, prior_bytes(b), y);
    match (a, b) {
        (ProjectionRowPrior::Present(m), ProjectionRowPrior::Present(n)) => {
            split(seq![1u8], be64(m.value), seq![1u8], be64(n.value));
            be64_injective(m.value, n.value);
        },
        _ => {},
    }
}

proof fn split_frontier(a: FrontierPosition, x: Seq<u8>, b: FrontierPosition, y: Seq<u8>)
    requires
        frontier_bytes(a) + x == frontier_bytes(b) + y,
    ensures
        a == b,
        x == y,
{
    assert((frontier_bytes(a) + x)[0] == frontier_bytes(a)[0]);
    assert((frontier_bytes(b) + y)[0] == frontier_bytes(b)[0]);
    split(frontier_bytes(a), x, frontier_bytes(b), y);
    match (a, b) {
        (FrontierPosition::AppliedThrough(m), FrontierPosition::AppliedThrough(n)) => {
            split(seq![1u8], be64(m.value), seq![1u8], be64(n.value));
            be64_injective(m.value, n.value);
        },
        _ => {},
    }
}

proof fn row_in_frames(row: ProjectionRowUpdateView, rest: Seq<u8>)
    ensures
        row_bytes(row) + rest == be32(row.key.bytes.len() as u32) + (row.key.bytes + (prior_bytes(
            row.prior,
        ) + (be32(row.measures.encoded.len() as u32) + (row.measures.encoded + rest)))),
{
    assert(row_bytes(row) + rest =~= be32(row.key.bytes.len() as u32) + (row.key.bytes + (
    prior_bytes(row.prior) + (be32(row.measures.encoded.len() as u32) + (row.measures.encoded
        + rest)))));
}

proof fn split_row(
    a: ProjectionRowUpdateView,
    x: Seq<u8>,
    b: ProjectionRowUpdateView,
    y: Seq<u8>,
)
    requires
        row_framed(a),
        row_framed(b),
        row_bytes(a) + x == row_bytes(b) + y,
    ensures
        same_row_content(a, b),
        x == y,
{
    row_in_frames(a, x);
    row_in_frames(b, y);
    let after_a = be32(a.measures.encoded.len() as u32) + (a.measures.encoded + x);
    let after_b = be32(b.measures.encoded.len() as u32) + (b.measures.encoded + y);
    split_framed(
        a.key.bytes,
        prior_bytes(a.prior) + after_a,
        b.key.bytes,
        prior_bytes(b.prior) + after_b,
    );
    split_prior(a.prior, after_a, b.prior, after_b);
    split_framed(a.measures.encoded, x, b.measures.encoded, y);
}

proof fn rows_from_the_front(rows: Seq<ProjectionRowUpdateView>)
    requires
        rows.len() > 0,
    ensures
        rows_bytes(rows) == row_bytes(rows[0]) + rows_bytes(rows.skip(1)),
    decreases rows.len(),
{
    reveal_with_fuel(rows_bytes, 2);
    if rows.len() == 1 {
        assert(rows.drop_last() =~= Seq::empty());
        assert(rows.skip(1) =~= Seq::empty());
        assert(rows_bytes(rows) =~= row_bytes(rows[0]));
        assert(row_bytes(rows[0]) + rows_bytes(rows.skip(1)) =~= row_bytes(rows[0]));
    } else {
        let front = rows.drop_last();
        rows_from_the_front(front);
        assert(rows.skip(1).drop_last() =~= front.skip(1));
        assert(rows_bytes(rows) =~= row_bytes(rows[0]) + rows_bytes(rows.skip(1)));
    }
}

proof fn rows_are_told_apart(a: Seq<ProjectionRowUpdateView>, b: Seq<ProjectionRowUpdateView>)
    requires
        a.len() == b.len(),
        forall|i: int| 0 <= i < a.len() ==> row_framed(#[trigger] a[i]),
        forall|i: int| 0 <= i < b.len() ==> row_framed(#[trigger] b[i]),
        rows_bytes(a) == rows_bytes(b),
    ensures
        forall|i: int| 0 <= i < a.len() ==> same_row_content(#[trigger] a[i], b[i]),
    decreases a.len(),
{
    if a.len() > 0 {
        rows_from_the_front(a);
        rows_from_the_front(b);
        let rest_a = a.skip(1);
        let rest_b = b.skip(1);
        split_row(a[0], rows_bytes(rest_a), b[0], rows_bytes(rest_b));
        assert forall|i: int| 0 <= i < rest_a.len() implies row_framed(#[trigger] rest_a[i]) by {
            assert(rest_a[i] == a[i + 1]);
        }
        assert forall|i: int| 0 <= i < rest_b.len() implies row_framed(#[trigger] rest_b[i]) by {
            assert(rest_b[i] == b[i + 1]);
        }
        rows_are_told_apart(rest_a, rest_b);
        assert forall|i: int| 0 <= i < a.len() implies same_row_content(#[trigger] a[i], b[i]) by {
            if i > 0 {
                assert(rest_a[i - 1] == a[i]);
                assert(rest_b[i - 1] == b[i]);
            }
        }
    }
}

proof fn payload_in_frames(
    identity: ProjectionIdentityView,
    generation: ProjectionGeneration,
    sequence: CommitSequence,
    frontier: FrontierPosition,
    rows: Seq<ProjectionRowUpdateView>,
)
    ensures
        apply_payload(identity, generation, sequence, frontier, rows) == (apply_payload_prefix()
            + be32(APPLY_CODEC_VERSION_V1)) + (be32(identity.canonical().len() as u32) + (
        identity.canonical() + (be64(generation.value) + (be64(sequence.value) + (frontier_bytes(
            frontier,
        ) + (be32(rows.len() as u32) + rows_bytes(rows))))))),
{
    assert(apply_payload(identity, generation, sequence, frontier, rows) =~= (
    apply_payload_prefix() + be32(APPLY_CODEC_VERSION_V1)) + (be32(
        identity.canonical().len() as u32,
    ) + (identity.canonical() + (be64(generation.value) + (be64(sequence.value) + (frontier_bytes(
        frontier,
    ) + (be32(rows.len() as u32) + rows_bytes(rows))))))));
}

/// Two requests with one payload are requests for the same change: the same
/// projection, generation, sequence and expected frontier, and row by row the same
/// key, prior evidence and measures. So a hash of the payload speaks for the whole
/// request.
pub proof fn payloads_tell_requests_apart(
    a_identity: ProjectionIdentityView,
    a_generation: ProjectionGeneration,
    a_sequence: CommitSequence,
    a_frontier: FrontierPosition,
    a_rows: Seq<ProjectionRowUpdateView>,
    b_identity: ProjectionIdentityView,
    b_generation: ProjectionGeneration,
    b_sequence: CommitSequence,
    b_frontier: FrontierPosition,
    b_rows: Seq<ProjectionRowUpdateView>,
)
    requires
        request_framed(a_identity, a_rows),
        request_framed(b_identity, b_rows),
        apply_payload(a_identity, a_generation, a_sequence, a_frontier, a_rows) == apply_payload(
            b_identity,
            b_generation,
            b_sequence,
            b_frontier,
            b_rows,
        ),
    ensures
        a_identity.canonical() == b_identity.canonical(),
        a_generation == b_generation,
        a_sequence == b_sequence,
        a_frontier == b_frontier,
        a_rows.len() == b_rows.len(),
        forall|i: int|
            0 <= i < a_rows.len() ==> same_row_content(#[trigger] a_rows[i], b_rows[i]),
{
    payload_in_frames(a_identity, a_generation, a_sequence, a_frontier, a_rows);
    payload_in_frames(b_identity, b_generation, b_sequence, b_frontier, b_rows);
    let head = apply_payload_prefix() + be32(APPLY_CODEC_VERSION_V1);
    let a5 = be32(a_rows.len() as u32) + rows_bytes(a_rows);
    let b5 = be32(b_rows.len() as u32) + rows_bytes(b_rows);
    let a4 = frontier_bytes(a_frontier) + a5;
    let b4 = frontier_bytes(b_frontier) + b5;
    let a3 = be64(a_sequence.value) + a4;
    let b3 = be64(b_sequence.value) + b4;
    let a2 = be64(a_generation.value) + a3;
    let b2 = be64(b_generation.value) + b3;
    let a1 = be32(a_identity.canonical().len() as u32) + (a_identity.canonical() + a2);
    let b1 = be32(b_identity.canonical().len() as u32) + (b_identity.canonical() + b2);
    split(head, a1, head, b1);
    split_framed(a_identity.canonical(), a2, b_identity.canonical(), b2);
    split(be64(a_generation.value), a3, be64(b_generation.value), b3);
    be64_injective(a_generation.value, b_generation.value);
    split(be64(a_sequence.value), a4, be64(b_sequence.value), b4);
    be64_injective(a_sequence.value, b_sequence.value);
    split_frontier(a_frontier, a5, b_frontier, b5);
    split(be32(a_rows.len() as u32), rows_bytes(a_rows), be32(b_rows.len() as u32), rows_bytes(
        b_rows,
    ));
    be32_injective(a_rows.len() as u32, b_rows.len() as u32);
    rows_are_told_apart(a_rows, b_rows);
}

} // verus!
