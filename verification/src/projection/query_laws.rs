//! Which query requests, continuations and pages are accepted.

use vstd::prelude::*;

use super::query::{
    continuation_refusal, page_rows_refusal, query_refusal, ready_refusal, ContinuationView,
    QueryRequestView, SelectorView,
};
use super::request_laws::values_are_declared;
use super::state::ProjectionStateView;
use crate::bytes::{be32, be64, bytes_before};
use crate::ids::{FrontierPosition, ProjectionGeneration};
use crate::keys::{framed_components, CanonicalValueView, ProjectionGroupKeyView};
use crate::limits::{MAX_KEY_BYTES, MAX_PROJECTION_QUERY_CONTENT_BYTES, MAX_PROJECTION_QUERY_ROWS};
use crate::value_error::StorageValueError;

verus! {

/// Whether some bytes begin with others.
pub open spec fn starts_with(whole: Seq<u8>, start: Seq<u8>) -> bool {
    start.len() <= whole.len() && forall|i: int|
        0 <= i < start.len() ==> whole[i] == #[trigger] start[i]
}

proof fn prefixes_are_starts(whole: Seq<u8>, start: Seq<u8>)
    ensures
        crate::bytes::has_prefix(whole, start) == starts_with(whole, start),
{
    if starts_with(whole, start) {
        assert(whole.take(start.len() as int) =~= start);
    } else if crate::bytes::has_prefix(whole, start) {
        assert forall|i: int| 0 <= i < start.len() implies whole[i] == #[trigger] start[i] by {
            assert(whole.take(start.len() as int)[i] == whole[i]);
        }
    }
}

/// A selector selects by values of the first declared components, each of them a
/// nonempty scalar, that do not take more bytes than a key may have.
pub proof fn selectors_hold_leading_components(
    selector: SelectorView,
    generation: ProjectionGeneration,
)
    ensures
        selector.has_prefix_in(generation) <==> {
            let values = selector.leading_components;
            let declared = selector.schema.group_components;
            &&& values.len() <= declared.len()
            &&& forall|i: int|
                0 <= i < values.len() ==> (#[trigger] values[i]).kind == declared[i].kind
                    && 0 < values[i].encoded.len() <= declared[i].maximum_encoded_bytes
                    && !(values[i].kind is Null || values[i].kind is List
                    || values[i].kind is Record || values[i].kind is Vector)
            &&& values.len() > 0 ==> selector.prefix_in(generation).len() <= MAX_KEY_BYTES
        },
{
    let values = selector.leading_components;
    let declared = selector.schema.group_components;
    if selector.has_prefix_in(generation) {
        assert forall|i: int| 0 <= i < values.len() implies (#[trigger] values[i]).kind
            == declared[i].kind && 0 < values[i].encoded.len()
            <= declared[i].maximum_encoded_bytes && !(values[i].kind is Null
            || values[i].kind is List || values[i].kind is Record || values[i].kind is Vector) by {
            assert(declared[i].admits(values[i]));
            assert(values[i].kind.scalar());
        }
    } else if values.len() <= declared.len() && (values.len() > 0 ==> selector.prefix_in(
        generation,
    ).len() <= MAX_KEY_BYTES) {
        if forall|i: int|
            0 <= i < values.len() ==> (#[trigger] values[i]).kind == declared[i].kind && 0
                < values[i].encoded.len() <= declared[i].maximum_encoded_bytes && !(
            values[i].kind is Null || values[i].kind is List || values[i].kind is Record
                || values[i].kind is Vector) {
            assert(forall|i: int|
                0 <= i < values.len() ==> declared[i].admits(#[trigger] values[i]));
            assert(forall|i: int|
                0 <= i < values.len() ==> #[trigger] values[i].kind.scalar()
                    && values[i].encoded.len() > 0);
            assert(false);
        }
    }
}

/// The prefix of a selection begins with two bytes for its purpose and version, the
/// identity and the generation; what follows is the leading values, each behind its
/// length.
pub proof fn prefixes_lay_their_parts_out(selector: SelectorView, generation: ProjectionGeneration)
    ensures
        ({
            let prefix = selector.prefix_in(generation);
            let name = selector.schema.identity.canonical();
            let at = 2 + name.len() as int;
            &&& prefix[0] == 0x07
            &&& prefix[1] == 0x01
            &&& prefix.subrange(2, at) == name
            &&& prefix.subrange(at, at + 8) == be64(generation.value)
            &&& prefix.skip(at + 8) == framed_components(selector.leading_components)
        }),
{
    let prefix = selector.prefix_in(generation);
    let name = selector.schema.identity.canonical();
    let at = 2 + name.len() as int;
    assert(prefix.subrange(2, at) =~= name);
    assert(prefix.subrange(at, at + 8) =~= be64(generation.value));
    assert(prefix.skip(at + 8) =~= framed_components(selector.leading_components));
}

/// One more component adds its length in four bytes and its bytes.
pub proof fn components_are_framed_one_by_one(
    components: Seq<CanonicalValueView>,
    component: CanonicalValueView,
)
    ensures
        framed_components(Seq::<CanonicalValueView>::empty()) == Seq::<u8>::empty(),
        framed_components(components.push(component)) == framed_components(components) + be32(
            component.encoded.len() as u32,
        ) + component.encoded,
{
    assert(components.push(component).drop_last() =~= components);
}

/// Whether a key is one of those that a selector selects in a generation.
pub open spec fn selects(
    selector: SelectorView,
    generation: ProjectionGeneration,
    key: ProjectionGroupKeyView,
) -> bool {
    &&& values_are_declared(selector.schema, key.components)
    &&& key.identity == selector.schema.identity
    &&& key.generation == generation
    &&& starts_with(key.bytes, selector.prefix_in(generation))
}

/// A continuation can be made of exactly the keys that its selector selects in its
/// generation; a key of other values or outside the prefix has the wrong shape, one of
/// another projection or generation the wrong identity.
pub proof fn continuations_end_at_selected_keys(
    selector: SelectorView,
    generation: ProjectionGeneration,
    key: ProjectionGroupKeyView,
)
    ensures
        ({
            let refusal = continuation_refusal(selector, generation, key);
            let declared = values_are_declared(selector.schema, key.components);
            let same = key.identity == selector.schema.identity && key.generation == generation;
            &&& refusal is None <==> selector.has_prefix_in(generation) && selects(
                selector,
                generation,
                key,
            )
            &&& refusal == Some(StorageValueError::IdentityMismatch) <==> declared && !same
            &&& refusal is None || refusal == Some(StorageValueError::IdentityMismatch) || refusal
                == Some(StorageValueError::InvalidShape)
        }),
{
    crate::projection::request_laws::declared_values_are_admitted(
        selector.schema,
        key.components,
        arbitrary(),
    );
    prefixes_are_starts(key.bytes, selector.prefix_in(generation));
}

/// A query asks for at most so many rows; where it goes on, it goes on behind a key that
/// it selects, in the generation and with the prefix that the continuation names.
pub proof fn queries_go_on_within_their_selection(request: QueryRequestView)
    ensures
        ({
            let refusal = query_refusal(request);
            let few = request.limit.value <= MAX_PROJECTION_QUERY_ROWS;
            &&& !few ==> refusal == Some(StorageValueError::LimitExceeded)
            &&& few && request.continuation is None ==> refusal is None
            &&& few && request.continuation is Some ==> {
                let held = request.continuation->Some_0;
                let last = held.exclusive_last_key;
                let readable = values_are_declared(request.selector.schema, last.components)
                    && request.selector.has_prefix_in(held.generation);
                &&& refusal is None <==> request.selector.has_prefix_in(held.generation)
                    && selects(request.selector, held.generation, last) && held.identity
                    == request.selector.schema.identity && held.prefix
                    == request.selector.prefix_in(held.generation)
                &&& !readable ==> refusal == Some(StorageValueError::InvalidShape)
                &&& readable && refusal is Some ==> refusal == Some(
                    StorageValueError::IdentityMismatch,
                )
            }
        }),
{
    if let Some(held) = request.continuation {
        crate::projection::request_laws::declared_values_are_admitted(
            request.selector.schema,
            held.exclusive_last_key.components,
            arbitrary(),
        );
        prefixes_are_starts(held.exclusive_last_key.bytes, held.prefix);
    }
}

/// A row of the selection that is applied, behind the row before it.
pub open spec fn page_row_is_in_place(
    request: QueryRequestView,
    generation: ProjectionGeneration,
    frontier: FrontierPosition,
    rows: Seq<ProjectionStateView>,
    i: int,
) -> bool {
    &&& rows[i].key.identity == request.selector.schema.identity
    &&& rows[i].key.generation == generation
    &&& starts_with(rows[i].key.bytes, request.selector.prefix_in(generation))
    &&& match frontier {
        FrontierPosition::BeforeFirst => false,
        FrontierPosition::AppliedThrough(last) => rows[i].last_changed_sequence.value <= last.value,
    }
    &&& i > 0 ==> bytes_before(rows[i - 1].key.bytes, rows[i].key.bytes)
}

/// Whether a row behind a given key is in place.
spec fn rest_row_is_in_place(
    request: QueryRequestView,
    generation: ProjectionGeneration,
    frontier: FrontierPosition,
    previous: Option<Seq<u8>>,
    rows: Seq<ProjectionStateView>,
    i: int,
) -> bool {
    &&& rows[i].key.identity == request.selector.schema.identity
    &&& rows[i].key.generation == generation
    &&& starts_with(rows[i].key.bytes, request.selector.prefix_in(generation))
    &&& match frontier {
        FrontierPosition::BeforeFirst => false,
        FrontierPosition::AppliedThrough(last) => rows[i].last_changed_sequence.value <= last.value,
    }
    &&& if i > 0 {
        bytes_before(rows[i - 1].key.bytes, rows[i].key.bytes)
    } else {
        previous matches Some(held) ==> bytes_before(held, rows[i].key.bytes)
    }
}

proof fn rest_rows_in_place(
    request: QueryRequestView,
    generation: ProjectionGeneration,
    frontier: FrontierPosition,
    previous: Option<Seq<u8>>,
    rows: Seq<ProjectionStateView>,
)
    ensures
        page_rows_refusal(request, generation, frontier, previous, rows) is None <==> forall|
            i: int,
        |
            0 <= i < rows.len() ==> #[trigger] rest_row_is_in_place(
                request,
                generation,
                frontier,
                previous,
                rows,
                i,
            ),
    decreases rows.len(),
{
    if rows.len() > 0 {
        let rest = rows.skip(1);
        let first = Some(rows[0].key.bytes);
        rest_rows_in_place(request, generation, frontier, first, rest);
        prefixes_are_starts(rows[0].key.bytes, request.selector.prefix_in(generation));
        assert(rest_row_is_in_place(request, generation, frontier, previous, rows, 0) == (
        super::query::page_row_refusal(request, generation, frontier, previous, rows[0]) is None));
        assert forall|i: int| 0 <= i < rest.len() implies #[trigger] rest_row_is_in_place(
            request,
            generation,
            frontier,
            first,
            rest,
            i,
        ) == rest_row_is_in_place(request, generation, frontier, previous, rows, i + 1) by {
            assert(rest[i] == rows[i + 1]);
            if i > 0 {
                assert(rest[i - 1] == rows[i]);
            }
        }
        if page_rows_refusal(request, generation, frontier, previous, rows) is None {
            assert forall|i: int| 0 <= i < rows.len() implies #[trigger] rest_row_is_in_place(
                request,
                generation,
                frontier,
                previous,
                rows,
                i,
            ) by {
                if i > 0 {
                    assert(rest_row_is_in_place(
                        request,
                        generation,
                        frontier,
                        first,
                        rest,
                        i - 1,
                    ));
                }
            }
        } else if forall|i: int|
            0 <= i < rows.len() ==> #[trigger] rest_row_is_in_place(
                request,
                generation,
                frontier,
                previous,
                rows,
                i,
            ) {
            assert(rest_row_is_in_place(request, generation, frontier, previous, rows, 0));
            assert forall|i: int| 0 <= i < rest.len() implies #[trigger] rest_row_is_in_place(
                request,
                generation,
                frontier,
                first,
                rest,
                i,
            ) by {
                assert(rest_row_is_in_place(
                    request,
                    generation,
                    frontier,
                    previous,
                    rows,
                    i + 1,
                ));
            }
        }
    }
}

/// The rows of a page are accepted exactly when each of them is in place.
pub proof fn page_rows_are_accepted_in_place(
    request: QueryRequestView,
    generation: ProjectionGeneration,
    frontier: FrontierPosition,
    rows: Seq<ProjectionStateView>,
)
    ensures
        page_rows_refusal(request, generation, frontier, None, rows) is None <==> forall|i: int|
            0 <= i < rows.len() ==> #[trigger] page_row_is_in_place(
                request,
                generation,
                frontier,
                rows,
                i,
            ),
{
    rest_rows_in_place(request, generation, frontier, None, rows);
    assert forall|i: int| 0 <= i < rows.len() implies #[trigger] page_row_is_in_place(
        request,
        generation,
        frontier,
        rows,
        i,
    ) == rest_row_is_in_place(request, generation, frontier, None, rows, i) by {}
    if page_rows_refusal(request, generation, frontier, None, rows) is None {
        assert forall|i: int| 0 <= i < rows.len() implies #[trigger] page_row_is_in_place(
            request,
            generation,
            frontier,
            rows,
            i,
        ) by {
            assert(rest_row_is_in_place(request, generation, frontier, None, rows, i));
        }
    } else if forall|i: int|
        0 <= i < rows.len() ==> #[trigger] page_row_is_in_place(
            request,
            generation,
            frontier,
            rows,
            i,
        ) {
        assert forall|i: int| 0 <= i < rows.len() implies #[trigger] rest_row_is_in_place(
            request,
            generation,
            frontier,
            None,
            rows,
            i,
        ) by {
            assert(page_row_is_in_place(request, generation, frontier, rows, i));
        }
    }
}

proof fn first_misplaced_rest_row_decides(
    request: QueryRequestView,
    generation: ProjectionGeneration,
    frontier: FrontierPosition,
    previous: Option<Seq<u8>>,
    rows: Seq<ProjectionStateView>,
    k: int,
)
    requires
        0 <= k < rows.len(),
        forall|i: int|
            0 <= i < k ==> #[trigger] rest_row_is_in_place(
                request,
                generation,
                frontier,
                previous,
                rows,
                i,
            ),
        !rest_row_is_in_place(request, generation, frontier, previous, rows, k),
    ensures
        page_rows_refusal(request, generation, frontier, previous, rows) == Some(
            if rows[k].key.identity == request.selector.schema.identity && rows[k].key.generation
                == generation && starts_with(
                rows[k].key.bytes,
                request.selector.prefix_in(generation),
            ) && (frontier matches FrontierPosition::AppliedThrough(last)
                && rows[k].last_changed_sequence.value <= last.value) {
                StorageValueError::NonCanonicalOrder
            } else {
                StorageValueError::IdentityMismatch
            },
        ),
    decreases rows.len(),
{
    prefixes_are_starts(rows[0].key.bytes, request.selector.prefix_in(generation));
    if k > 0 {
        let rest = rows.skip(1);
        let first = Some(rows[0].key.bytes);
        assert(rest_row_is_in_place(request, generation, frontier, previous, rows, 0));
        assert forall|i: int| 0 <= i < k - 1 implies #[trigger] rest_row_is_in_place(
            request,
            generation,
            frontier,
            first,
            rest,
            i,
        ) by {
            assert(rest_row_is_in_place(request, generation, frontier, previous, rows, i + 1));
            assert(rest[i] == rows[i + 1]);
            if i > 0 {
                assert(rest[i - 1] == rows[i]);
            }
        }
        assert(rest[k - 1] == rows[k]);
        if k > 1 {
            assert(rest[k - 2] == rows[k - 1]);
        }
        first_misplaced_rest_row_decides(request, generation, frontier, first, rest, k - 1);
    }
}

/// The first row of a page that is not in place decides why the page is refused: it
/// breaks the order only where everything else about it is in place.
pub proof fn the_first_misplaced_row_decides(
    request: QueryRequestView,
    generation: ProjectionGeneration,
    frontier: FrontierPosition,
    rows: Seq<ProjectionStateView>,
    k: int,
)
    requires
        0 <= k < rows.len(),
        forall|i: int|
            0 <= i < k ==> #[trigger] page_row_is_in_place(request, generation, frontier, rows, i),
        !page_row_is_in_place(request, generation, frontier, rows, k),
    ensures
        page_rows_refusal(request, generation, frontier, None, rows) == Some(
            if rows[k].key.identity == request.selector.schema.identity && rows[k].key.generation
                == generation && starts_with(
                rows[k].key.bytes,
                request.selector.prefix_in(generation),
            ) && (frontier matches FrontierPosition::AppliedThrough(last)
                && rows[k].last_changed_sequence.value <= last.value) {
                StorageValueError::NonCanonicalOrder
            } else {
                StorageValueError::IdentityMismatch
            },
        ),
{
    assert forall|i: int| 0 <= i < k implies #[trigger] rest_row_is_in_place(
        request,
        generation,
        frontier,
        None,
        rows,
        i,
    ) by {
        assert(page_row_is_in_place(request, generation, frontier, rows, i));
    }
    first_misplaced_rest_row_decides(request, generation, frontier, None, rows, k);
}

/// Whether a continuation was made for what a page was read of.
pub open spec fn belongs_to(
    selector: SelectorView,
    generation: ProjectionGeneration,
    frontier: FrontierPosition,
    held: ContinuationView,
) -> bool {
    held.identity == selector.schema.identity && held.generation == generation && held.prefix
        == selector.prefix_in(generation) && held.observed_frontier == frontier
}

/// A page answers a query exactly when it has no more rows than asked for, all in place
/// and behind the key that the query goes on from, when the query's continuation and the
/// page's own belong to the generation and frontier that it was read at, when its own
/// ends at its last row, and when its rows do not take too many bytes.
pub proof fn pages_answer_their_query(
    request: QueryRequestView,
    generation: ProjectionGeneration,
    frontier: FrontierPosition,
    rows: Seq<ProjectionStateView>,
    charge: nat,
    next: Option<ContinuationView>,
)
    ensures
        ready_refusal(request, generation, frontier, rows, charge, next) is None <==> {
            &&& rows.len() <= request.limit.value
            &&& request.selector.has_prefix_in(generation)
            &&& request.continuation matches Some(held) ==> belongs_to(
                request.selector,
                generation,
                frontier,
                held,
            ) && (rows.len() > 0 ==> bytes_before(
                held.exclusive_last_key.bytes,
                rows[0].key.bytes,
            ))
            &&& forall|i: int|
                0 <= i < rows.len() ==> #[trigger] page_row_is_in_place(
                    request,
                    generation,
                    frontier,
                    rows,
                    i,
                )
            &&& next matches Some(held) ==> rows.len() > 0 && belongs_to(
                request.selector,
                generation,
                frontier,
                held,
            ) && held.exclusive_last_key == rows[rows.len() - 1].key
            &&& charge <= MAX_PROJECTION_QUERY_CONTENT_BYTES
        },
{
    page_rows_are_accepted_in_place(request, generation, frontier, rows);
}

/// What a page is refused with: too many rows or bytes are over a limit, a continuation
/// behind no row has the wrong shape, and what was made for something else has the
/// wrong identity.
pub proof fn refused_pages_have_their_reason(
    request: QueryRequestView,
    generation: ProjectionGeneration,
    frontier: FrontierPosition,
    rows: Seq<ProjectionStateView>,
    charge: nat,
    next: Option<ContinuationView>,
)
    ensures
        ({
            let refusal = ready_refusal(request, generation, frontier, rows, charge, next);
            let sound = rows.len() <= request.limit.value && request.selector.has_prefix_in(
                generation,
            ) && (request.continuation matches Some(held) ==> belongs_to(
                request.selector,
                generation,
                frontier,
                held,
            )) && charge <= usize::MAX;
            let in_place = page_rows_refusal(request, generation, frontier, None, rows) is None;
            let behind = request.continuation matches Some(held) ==> rows.len() == 0
                || bytes_before(held.exclusive_last_key.bytes, rows[0].key.bytes);
            &&& rows.len() > request.limit.value ==> refusal == Some(
                StorageValueError::LimitExceeded,
            )
            &&& rows.len() <= request.limit.value && request.selector.has_prefix_in(generation)
                && (request.continuation matches Some(held) && !belongs_to(
                request.selector,
                generation,
                frontier,
                held,
            )) ==> refusal == Some(StorageValueError::IdentityMismatch)
            &&& sound && !in_place ==> refusal == page_rows_refusal(
                request,
                generation,
                frontier,
                None,
                rows,
            )
            &&& sound && in_place && !behind ==> refusal == Some(
                StorageValueError::NonCanonicalOrder,
            )
            &&& sound && in_place && behind && next is Some && rows.len() == 0 ==> refusal == Some(
                StorageValueError::InvalidShape,
            )
            &&& sound && in_place && behind && next is None && charge
                > MAX_PROJECTION_QUERY_CONTENT_BYTES ==> refusal == Some(
                StorageValueError::LimitExceeded,
            )
        }),
{
}

} // verus!
