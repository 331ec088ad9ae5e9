//! Projection queries, their continuations and result pages, and status.

use vstd::prelude::*;

use super::control::{
    at_or_before, sequence_at_or_before, ProjectionFailureCodeV1, ProjectionFailureV1,
    ProjectionGenerationPosition, ProjectionLifecycleV1, PublishedApplyModeV1,
    StoredProjectionControlV1,
};
use super::sizes::validate_projection_query_encoded_bytes;
use super::state::{ProjectionStateView, StoredProjectionStateV1};
use crate::bytes::{begins_with, bytes_before, has_prefix, order_bytes, same_bytes, BytesOrder};
use crate::ids::{FrontierPosition, ProjectionGeneration};
use crate::keys::{
    group_key_bytes, value_views, CanonicalValue, CanonicalValueView, ProjectionGroupKey,
    ProjectionGroupKeyView, ProjectionIdentity, ProjectionIdentityView,
};
use crate::limits::{MAX_PROJECTION_QUERY_CONTENT_BYTES, MAX_PROJECTION_QUERY_ROWS};
use crate::page::{checked_encoded_page_content, page_charge, EncodedPageItem, NonZeroLimit};
use crate::projection_schema::{
    CheckedProjectionSchema, CheckedProjectionSchemaView, ProjectionGroupPrefix,
};
use crate::value_error::StorageValueError;

verus! {

/// What a selector is.
#[verifier::ext_equal]
pub ghost struct SelectorView {
    pub schema: CheckedProjectionSchemaView,
    pub leading_components: Seq<CanonicalValueView>,
}

impl SelectorView {
    /// Whether the selector has a prefix in a generation.
    pub open spec fn has_prefix_in(self, generation: ProjectionGeneration) -> bool {
        self.schema.admits_prefix(generation, self.leading_components)
    }

    /// The prefix of the selected keys of a generation.
    pub open spec fn prefix_in(self, generation: ProjectionGeneration) -> Seq<u8> {
        group_key_bytes(self.schema.identity, generation, self.leading_components)
    }
}

/// Generation-neutral checked selector for a complete or prefix query.
#[derive(Clone, Debug, PartialEq, Eq)]
pub struct ProjectionQuerySelector {
    pub schema: CheckedProjectionSchema,
    pub leading_components: Vec<CanonicalValue>,
}

impl View for ProjectionQuerySelector {
    type V = SelectorView;

    open spec fn view(&self) -> SelectorView {
        SelectorView {
            schema: self.schema@,
            leading_components: value_views(self.leading_components@),
        }
    }
}

impl ProjectionQuerySelector {
    /// Validates zero or more complete leading components against the schema.
    pub fn new(
        schema: CheckedProjectionSchema,
        leading_components: Vec<CanonicalValue>,
    ) -> (result: Result<Self, StorageValueError>)
        ensures
            ({
                let selector = SelectorView {
                    schema: schema@,
                    leading_components: value_views(leading_components@),
                };
                if selector.has_prefix_in(ProjectionGeneration { value: 1 }) {
                    result is Ok && result->Ok_0@ == selector
                } else {
                    result == Err::<Self, _>(StorageValueError::InvalidShape)
                }
            }),
    {
        match schema.group_prefix(ProjectionGeneration::first(), &leading_components) {
            Ok(_) => Ok(ProjectionQuerySelector { schema, leading_components }),
            Err(error) => Err(error),
        }
    }

    /// Returns the exact generation-neutral identity.
    pub fn identity(&self) -> (result: &ProjectionIdentity)
        ensures
            result@ == self@.schema.identity,
    {
        self.schema.identity()
    }

    /// Returns the checked schema.
    pub fn schema(&self) -> (result: &CheckedProjectionSchema)
        ensures
            *result == self.schema,
    {
        &self.schema
    }

    /// Returns complete leading group values.
    pub fn leading_components(&self) -> (result: &[CanonicalValue])
        ensures
            value_views(result@) == self@.leading_components,
    {
        self.leading_components.as_slice()
    }

    fn prefix_in(&self, generation: ProjectionGeneration) -> (result: Result<
        ProjectionGroupPrefix,
        StorageValueError,
    >)
        ensures
            match result {
                Ok(prefix) => self@.has_prefix_in(generation) && prefix.bytes@
                    == self@.prefix_in(generation),
                Err(error) => !self@.has_prefix_in(generation) && error
                    == StorageValueError::InvalidShape,
            },
    {
        self.schema.group_prefix(generation, &self.leading_components)
    }
}

/// A selector's prefix is as long in one generation as in any other, so a
/// selector that is accepted has a prefix in every generation.
pub proof fn accepted_selectors_work_in_every_generation(
    selector: SelectorView,
    a: ProjectionGeneration,
    b: ProjectionGeneration,
)
    ensures
        selector.prefix_in(a).len() == selector.prefix_in(b).len(),
        selector.has_prefix_in(a) <==> selector.has_prefix_in(b),
{
}

/// What a continuation is.
#[verifier::ext_equal]
pub ghost struct ContinuationView {
    pub identity: ProjectionIdentityView,
    pub generation: ProjectionGeneration,
    pub prefix: Seq<u8>,
    pub exclusive_last_key: ProjectionGroupKeyView,
    pub observed_frontier: FrontierPosition,
}

/// Internal lower-bound continuation fenced to one published snapshot.
#[derive(Clone, PartialEq, Eq)]
pub struct ProjectionLowerContinuation {
    pub identity: ProjectionIdentity,
    pub generation: ProjectionGeneration,
    pub prefix: Vec<u8>,
    pub exclusive_last_key: ProjectionGroupKey,
    pub observed_frontier: FrontierPosition,
}

impl View for ProjectionLowerContinuation {
    type V = ContinuationView;

    open spec fn view(&self) -> ContinuationView {
        ContinuationView {
            identity: self.identity@,
            generation: self.generation,
            prefix: self.prefix@,
            exclusive_last_key: self.exclusive_last_key@,
            observed_frontier: self.observed_frontier,
        }
    }
}

/// What may be shown of a continuation: nothing that a row or a selector holds.
#[derive(Debug, PartialEq, Eq)]
pub struct ContinuationDiagnostic {
    pub identity: ProjectionIdentity,
    pub generation: ProjectionGeneration,
    pub prefix: &'static str,
    pub prefix_length: usize,
    pub exclusive_last_key: &'static str,
    pub observed_frontier: FrontierPosition,
}

impl ProjectionLowerContinuation {
    /// What may be shown of this continuation: its key and its prefix are withheld.
    pub fn diagnostic(&self) -> (result: ContinuationDiagnostic)
        ensures
            result.identity@ == self@.identity,
            result.generation == self@.generation,
            result.prefix@ == "[REDACTED]"@,
            result.prefix_length == self@.prefix.len(),
            result.exclusive_last_key@ == "[REDACTED]"@,
            result.observed_frontier == self@.observed_frontier,
    {
        ContinuationDiagnostic {
            identity: self.identity.clone(),
            generation: self.generation,
            prefix: "[REDACTED]",
            prefix_length: self.prefix.len(),
            exclusive_last_key: "[REDACTED]",
            observed_frontier: self.observed_frontier,
        }
    }
}

/// Why a key cannot end a page of a selector in a generation, if it cannot.
pub open spec fn continuation_refusal(
    selector: SelectorView,
    generation: ProjectionGeneration,
    key: ProjectionGroupKeyView,
) -> Option<StorageValueError> {
    if !selector.schema.admits_complete(key.components) {
        Some(StorageValueError::InvalidShape)
    } else if key.identity != selector.schema.identity || key.generation != generation {
        Some(StorageValueError::IdentityMismatch)
    } else if !selector.has_prefix_in(generation) || !has_prefix(
        key.bytes,
        selector.prefix_in(generation),
    ) {
        Some(StorageValueError::InvalidShape)
    } else {
        None
    }
}

impl ProjectionLowerContinuation {
    /// Constructs a checked internal continuation; it is never client-authored.
    pub fn new(
        selector: &ProjectionQuerySelector,
        generation: ProjectionGeneration,
        exclusive_last_key: ProjectionGroupKey,
        observed_frontier: FrontierPosition,
    ) -> (result: Result<Self, StorageValueError>)
        ensures
            match continuation_refusal(selector@, generation, exclusive_last_key@) {
                Some(error) => result == Err::<Self, _>(error),
                None => result is Ok && result->Ok_0@ == (ContinuationView {
                    identity: selector@.schema.identity,
                    generation,
                    prefix: selector@.prefix_in(generation),
                    exclusive_last_key: exclusive_last_key@,
                    observed_frontier,
                }),
            },
    {
        match selector.schema.validate_group_key(&exclusive_last_key) {
            Ok(()) => {},
            Err(error) => {
                return Err(error);
            },
        }
        if !exclusive_last_key.identity().same(selector.identity())
            || exclusive_last_key.generation() != generation {
            return Err(StorageValueError::IdentityMismatch);
        }
        let prefix = match selector.prefix_in(generation) {
            Ok(prefix) => prefix.bytes,
            Err(error) => {
                return Err(error);
            },
        };
        if !begins_with(exclusive_last_key.as_bytes(), &prefix) {
            return Err(StorageValueError::InvalidShape);
        }
        Ok(
            ProjectionLowerContinuation {
                identity: selector.identity().clone(),
                generation,
                prefix,
                exclusive_last_key,
                observed_frontier,
            },
        )
    }

    /// Returns the exact projection identity.
    pub fn identity(&self) -> (result: &ProjectionIdentity)
        ensures
            *result == self.identity,
    {
        &self.identity
    }

    /// Returns the selected published generation.
    pub fn generation(&self) -> (result: ProjectionGeneration)
        ensures
            result == self@.generation,
    {
        self.generation
    }

    /// Returns the complete generated prefix bytes.
    pub fn prefix(&self) -> (result: &[u8])
        ensures
            result@ == self@.prefix,
    {
        self.prefix.as_slice()
    }

    /// Returns the exclusive complete lower key.
    pub fn exclusive_last_key(&self) -> (result: &ProjectionGroupKey)
        ensures
            *result == self.exclusive_last_key,
    {
        &self.exclusive_last_key
    }

    /// Returns the frontier fencing the page sequence.
    pub fn observed_frontier(&self) -> (result: FrontierPosition)
        ensures
            result == self@.observed_frontier,
    {
        self.observed_frontier
    }
}

/// What a query request is.
#[verifier::ext_equal]
pub ghost struct QueryRequestView {
    pub selector: SelectorView,
    pub limit: NonZeroLimit,
    pub continuation: Option<ContinuationView>,
}

/// Why a query request is refused, if it is.
pub open spec fn query_refusal(request: QueryRequestView) -> Option<StorageValueError> {
    if request.limit.value > MAX_PROJECTION_QUERY_ROWS {
        Some(StorageValueError::LimitExceeded)
    } else {
        match request.continuation {
            None => None,
            Some(continuation) => {
                let selector = request.selector;
                let last = continuation.exclusive_last_key;
                if !selector.schema.admits_complete(last.components) || !selector.has_prefix_in(
                    continuation.generation,
                ) {
                    Some(StorageValueError::InvalidShape)
                } else if continuation.identity != selector.schema.identity || last.identity
                    != selector.schema.identity || last.generation != continuation.generation
                    || continuation.prefix != selector.prefix_in(continuation.generation)
                    || !has_prefix(last.bytes, continuation.prefix) {
                    Some(StorageValueError::IdentityMismatch)
                } else {
                    None
                }
            },
        }
    }
}

/// The view of an optional continuation.
pub open spec fn continuation_view(continuation: Option<ProjectionLowerContinuation>) -> Option<
    ContinuationView,
> {
    match continuation {
        Some(continuation) => Some(continuation@),
        None => None,
    }
}

/// One bounded projection query request.
#[derive(Clone, PartialEq, Eq)]
pub struct ProjectionQueryRequest {
    pub selector: ProjectionQuerySelector,
    pub limit: NonZeroLimit,
    pub continuation: Option<ProjectionLowerContinuation>,
}

impl View for ProjectionQueryRequest {
    type V = QueryRequestView;

    open spec fn view(&self) -> QueryRequestView {
        QueryRequestView {
            selector: self.selector@,
            limit: self.limit,
            continuation: continuation_view(self.continuation),
        }
    }
}

impl ProjectionQueryRequest {
    /// Constructs a request with a hard maximum of rows.
    pub fn new(
        selector: ProjectionQuerySelector,
        limit: NonZeroLimit,
        continuation: Option<ProjectionLowerContinuation>,
    ) -> (result: Result<Self, StorageValueError>)
        ensures
            ({
                let request = QueryRequestView {
                    selector: selector@,
                    limit,
                    continuation: continuation_view(continuation),
                };
                match query_refusal(request) {
                    Some(error) => result == Err::<Self, _>(error),
                    None => result is Ok && result->Ok_0@ == request,
                }
            }),
    {
        if limit.get() as usize > MAX_PROJECTION_QUERY_ROWS {
            return Err(StorageValueError::LimitExceeded);
        }
        if let Some(held) = &continuation {
            match selector.schema.validate_group_key(&held.exclusive_last_key) {
                Ok(()) => {},
                Err(error) => {
                    return Err(error);
                },
            }
            let expected_prefix = match selector.prefix_in(held.generation) {
                Ok(prefix) => prefix,
                Err(error) => {
                    return Err(error);
                },
            };
            if !held.identity.same(selector.identity()) || !held.exclusive_last_key.identity().same(
                selector.identity(),
            ) || held.exclusive_last_key.generation() != held.generation || !same_bytes(
                &held.prefix,
                expected_prefix.as_bytes(),
            ) || !begins_with(held.exclusive_last_key.as_bytes(), &held.prefix) {
                return Err(StorageValueError::IdentityMismatch);
            }
        }
        Ok(ProjectionQueryRequest { selector, limit, continuation })
    }

    /// Returns the checked selector.
    pub fn selector(&self) -> (result: &ProjectionQuerySelector)
        ensures
            *result == self.selector,
    {
        &self.selector
    }

    /// Returns the nonzero row limit.
    pub fn limit(&self) -> (result: NonZeroLimit)
        ensures
            result == self@.limit,
    {
        self.limit
    }

    /// Returns the optional server-owned continuation.
    pub fn continuation(&self) -> (result: Option<&ProjectionLowerContinuation>)
        ensures
            match result {
                Some(continuation) => self@.continuation == Some(continuation@),
                None => self@.continuation is None,
            },
    {
        match &self.continuation {
            Some(continuation) => Some(continuation),
            None => None,
        }
    }
}

/// A continuation that was constructed for a selector is accepted by a request
/// with the same selector.
pub proof fn constructed_continuations_are_accepted(
    selector: SelectorView,
    generation: ProjectionGeneration,
    key: ProjectionGroupKeyView,
    observed_frontier: FrontierPosition,
    limit: NonZeroLimit,
)
    requires
        continuation_refusal(selector, generation, key) is None,
        limit.value <= MAX_PROJECTION_QUERY_ROWS,
    ensures
        query_refusal(
            QueryRequestView {
                selector,
                limit,
                continuation: Some(
                    ContinuationView {
                        identity: selector.schema.identity,
                        generation,
                        prefix: selector.prefix_in(generation),
                        exclusive_last_key: key,
                        observed_frontier,
                    },
                ),
            },
        ) is None,
{
}

/// Safe reason for a non-ready projection query.
#[derive(Clone, Copy, Debug, PartialEq, Eq, Structural)]
pub enum ProjectionUnavailableReason {
    /// Initial state is not yet published.
    Building,
    /// A replacement generation is in progress.
    Rebuilding,
    /// One retained generation has a closed failure.
    Failure(ProjectionFailureCodeV1),
}

impl ProjectionUnavailableReason {
    /// Returns the stable unavailable-reason tag.
    pub fn tag(self) -> (result: u8)
        ensures
            result == match self {
                ProjectionUnavailableReason::Building => 0x01u8,
                ProjectionUnavailableReason::Rebuilding => 0x02u8,
                ProjectionUnavailableReason::Failure(_) => 0x03u8,
            },
    {
        match self {
            ProjectionUnavailableReason::Building => 0x01,
            ProjectionUnavailableReason::Rebuilding => 0x02,
            ProjectionUnavailableReason::Failure(_) => 0x03,
        }
    }
}

/// One storage-atomic projection query result.
#[allow(inconsistent_fields)]
#[derive(Clone, PartialEq, Eq)]
pub enum ProjectionQueryResult {
    /// Published rows and frontier from one read transaction.
    Ready {
        /// Selected published generation.
        generation: ProjectionGeneration,
        /// Frontier observed with the row set.
        frontier: FrontierPosition,
        /// Complete bounded rows in key order.
        rows: Vec<EncodedPageItem<StoredProjectionStateV1>>,
        /// Internal next lower bound, when another page exists.
        next: Option<Box<ProjectionLowerContinuation>>,
    },
    /// No rows are exposed while the lifecycle is unavailable.
    Degraded {
        /// Visible affected-generation position.
        current: FrontierPosition,
        /// Closed safe reason.
        reason: ProjectionUnavailableReason,
    },
    /// Rebuild is impossible from retained authoritative history.
    Invalid {
        /// Closed safe failure reason.
        reason: ProjectionFailureCodeV1,
    },
    /// Publication or frontier advancement invalidated the lower fence.
    ContinuationInvalidated,
}

/// The rows of a page.
pub open spec fn page_rows(rows: Seq<EncodedPageItem<StoredProjectionStateV1>>) -> Seq<
    ProjectionStateView,
> {
    Seq::new(rows.len(), |i: int| rows[i].value@)
}

/// Why a row cannot follow a key on a page, if it cannot.
pub open spec fn page_row_refusal(
    request: QueryRequestView,
    generation: ProjectionGeneration,
    frontier: FrontierPosition,
    previous: Option<Seq<u8>>,
    row: ProjectionStateView,
) -> Option<StorageValueError> {
    if row.key.identity != request.selector.schema.identity || row.key.generation != generation
        || !has_prefix(row.key.bytes, request.selector.prefix_in(generation)) || !at_or_before(
        row.last_changed_sequence,
        frontier,
    ) {
        Some(StorageValueError::IdentityMismatch)
    } else if previous matches Some(held) && !bytes_before(held, row.key.bytes) {
        Some(StorageValueError::NonCanonicalOrder)
    } else {
        None
    }
}

/// Why the first refused row of a page is refused, if there is one.
pub open spec fn page_rows_refusal(
    request: QueryRequestView,
    generation: ProjectionGeneration,
    frontier: FrontierPosition,
    previous: Option<Seq<u8>>,
    rows: Seq<ProjectionStateView>,
) -> Option<StorageValueError>
    decreases rows.len(),
{
    if rows.len() == 0 {
        None
    } else {
        match page_row_refusal(request, generation, frontier, previous, rows[0]) {
            Some(error) => Some(error),
            None => page_rows_refusal(
                request,
                generation,
                frontier,
                Some(rows[0].key.bytes),
                rows.skip(1),
            ),
        }
    }
}

/// Whether a continuation is fenced to a generation and a frontier.
pub open spec fn fenced(
    selector: SelectorView,
    generation: ProjectionGeneration,
    frontier: FrontierPosition,
    continuation: ContinuationView,
) -> bool {
    &&& continuation.identity == selector.schema.identity
    &&& continuation.generation == generation
    &&& continuation.prefix == selector.prefix_in(generation)
    &&& continuation.observed_frontier == frontier
}

/// Why a page does not answer a request, if it does not.
pub open spec fn ready_refusal(
    request: QueryRequestView,
    generation: ProjectionGeneration,
    frontier: FrontierPosition,
    rows: Seq<ProjectionStateView>,
    charge: nat,
    next: Option<ContinuationView>,
) -> Option<StorageValueError> {
    let refused = page_rows_refusal(request, generation, frontier, None, rows);
    if rows.len() > request.limit.value {
        Some(StorageValueError::LimitExceeded)
    } else if !request.selector.has_prefix_in(generation) {
        Some(StorageValueError::InvalidShape)
    } else if request.continuation matches Some(held) && !fenced(
        request.selector,
        generation,
        frontier,
        held,
    ) {
        Some(StorageValueError::IdentityMismatch)
    } else if charge > usize::MAX {
        Some(StorageValueError::SizeOverflow)
    } else if refused is Some {
        refused
    } else if request.continuation matches Some(held) && rows.len() > 0 && !bytes_before(
        held.exclusive_last_key.bytes,
        rows[0].key.bytes,
    ) {
        Some(StorageValueError::NonCanonicalOrder)
    } else if next is Some && rows.len() == 0 {
        Some(StorageValueError::InvalidShape)
    } else if next matches Some(held) && !(fenced(request.selector, generation, frontier, held)
        && held.exclusive_last_key == rows.last().key) {
        Some(StorageValueError::IdentityMismatch)
    } else if charge > MAX_PROJECTION_QUERY_CONTENT_BYTES {
        Some(StorageValueError::LimitExceeded)
    } else {
        None
    }
}

fn check_page_rows(
    request: &ProjectionQueryRequest,
    generation: ProjectionGeneration,
    frontier: FrontierPosition,
    prefix: &[u8],
    rows: &[EncodedPageItem<StoredProjectionStateV1>],
) -> (result: Option<StorageValueError>)
    requires
        prefix@ == request@.selector.prefix_in(generation),
    ensures
        result == page_rows_refusal(request@, generation, frontier, None, page_rows(rows@)),
{
    let ghost views = page_rows(rows@);
    let mut i: usize = 0;
    assert(views.skip(0) =~= views);
    while i < rows.len()
        invariant
            i <= rows@.len(),
            views == page_rows(rows@),
            prefix@ == request@.selector.prefix_in(generation),
            page_rows_refusal(request@, generation, frontier, None, views) == page_rows_refusal(
                request@,
                generation,
                frontier,
                if i == 0 {
                    None
                } else {
                    Some(views[i - 1].key.bytes)
                },
                views.skip(i as int),
            ),
        decreases rows@.len() - i,
    {
        let row = rows[i].value();
        assert(views.skip(i as int)[0] == row@);
        assert(views.skip(i as int).skip(1) =~= views.skip(i as int + 1));
        if !row.identity().same(request.selector.identity()) || row.generation() != generation
            || !begins_with(row.key().as_bytes(), prefix) || !sequence_at_or_before(
            row.last_changed_sequence(),
            frontier,
        ) {
            return Some(StorageValueError::IdentityMismatch);
        }
        if i > 0 {
            let held = rows[i - 1].value();
            assert(held@ == views[i - 1]);
            proof {
                crate::bytes::bytes_before_total(held@.key.bytes, row@.key.bytes);
                crate::bytes::bytes_before_irreflexive(row@.key.bytes);
            }
            if order_bytes(held.key().as_bytes(), row.key().as_bytes()) != BytesOrder::Before {
                return Some(StorageValueError::NonCanonicalOrder);
            }
        }
        i += 1;
    }
    None
}

fn is_fenced(
    selector: &ProjectionQuerySelector,
    generation: ProjectionGeneration,
    frontier: FrontierPosition,
    prefix: &[u8],
    continuation: &ProjectionLowerContinuation,
) -> (result: bool)
    requires
        prefix@ == selector@.prefix_in(generation),
    ensures
        result == fenced(selector@, generation, frontier, continuation@),
{
    continuation.identity.same(selector.identity()) && continuation.generation == generation
        && same_bytes(&continuation.prefix, prefix) && continuation.observed_frontier == frontier
}

impl ProjectionQueryResult {
    /// Validates row ordering and query content bounds for a ready page.
    pub fn ready(
        request: &ProjectionQueryRequest,
        generation: ProjectionGeneration,
        frontier: FrontierPosition,
        rows: Vec<EncodedPageItem<StoredProjectionStateV1>>,
        next: Option<ProjectionLowerContinuation>,
    ) -> (result: Result<Self, StorageValueError>)
        ensures
            match ready_refusal(
                request@,
                generation,
                frontier,
                page_rows(rows@),
                page_charge(rows@),
                continuation_view(next),
            ) {
                Some(error) => result == Err::<Self, _>(error),
                None => result is Ok && match result->Ok_0 {
                    ProjectionQueryResult::Ready {
                        generation: held_generation,
                        frontier: held_frontier,
                        rows: held_rows,
                        next: held_next,
                    } => {
                        &&& held_generation == generation
                        &&& held_frontier == frontier
                        &&& held_rows == rows
                        &&& match held_next {
                            Some(held) => continuation_view(next) == Some((*held)@),
                            None => next is None,
                        }
                    },
                    _ => false,
                },
            },
    {
        if rows.len() > request.limit.get() as usize {
            return Err(StorageValueError::LimitExceeded);
        }
        let expected_prefix = match request.selector.prefix_in(generation) {
            Ok(prefix) => prefix,
            Err(error) => {
                return Err(error);
            },
        };
        let prefix = expected_prefix.as_bytes();
        if let Some(held) = &request.continuation {
            if !is_fenced(&request.selector, generation, frontier, prefix, held) {
                return Err(StorageValueError::IdentityMismatch);
            }
        }
        let encoded_row_bytes = match checked_encoded_page_content(&rows, usize::MAX) {
            Ok(bytes) => bytes,
            Err(error) => {
                return Err(error);
            },
        };
        if let Some(error) = check_page_rows(request, generation, frontier, prefix, &rows) {
            return Err(error);
        }
        if let Some(held) = &request.continuation {
            if rows.len() > 0 {
                let first = rows[0].value();
                assert(first@ == page_rows(rows@)[0]);
                if order_bytes(held.exclusive_last_key.as_bytes(), first.key().as_bytes())
                    != BytesOrder::Before {
                    return Err(StorageValueError::NonCanonicalOrder);
                }
            }
        }
        if let Some(held) = &next {
            if rows.len() == 0 {
                return Err(StorageValueError::InvalidShape);
            }
            let last = rows[rows.len() - 1].value();
            assert(last@ == page_rows(rows@).last());
            if !is_fenced(&request.selector, generation, frontier, prefix, held)
                || !held.exclusive_last_key.same(last.key()) {
                return Err(StorageValueError::IdentityMismatch);
            }
        }
        match validate_projection_query_encoded_bytes(encoded_row_bytes) {
            Ok(()) => {},
            Err(error) => {
                return Err(error);
            },
        }
        let next = match next {
            Some(next) => Some(Box::new(next)),
            None => None,
        };
        Ok(ProjectionQueryResult::Ready { generation, frontier, rows, next })
    }
}

proof fn accepted_rows_exceed(
    request: QueryRequestView,
    generation: ProjectionGeneration,
    frontier: FrontierPosition,
    previous: Option<Seq<u8>>,
    rows: Seq<ProjectionStateView>,
    i: int,
)
    requires
        page_rows_refusal(request, generation, frontier, previous, rows) is None,
        0 <= i < rows.len(),
    ensures
        previous matches Some(held) ==> bytes_before(held, rows[i].key.bytes),
        i > 0 ==> bytes_before(rows[0].key.bytes, rows[i].key.bytes),
        rows[i].key.identity == request.selector.schema.identity,
        rows[i].key.generation == generation,
        has_prefix(rows[i].key.bytes, request.selector.prefix_in(generation)),
        at_or_before(rows[i].last_changed_sequence, frontier),
    decreases rows.len(),
{
    if i > 0 {
        let rest = rows.skip(1);
        accepted_rows_exceed(
            request,
            generation,
            frontier,
            Some(rows[0].key.bytes),
            rest,
            i - 1,
        );
        assert(rest[i - 1] == rows[i]);
        if let Some(held) = previous {
            crate::bytes::bytes_before_transitive(held, rows[0].key.bytes, rows[i].key.bytes);
        }
    }
}

/// Pages never overlap: every row of an accepted page comes after the key that
/// ended the page before, and belongs to the same prefix, generation and
/// frontier; a next continuation is fenced to them and ends at the last row.
pub proof fn accepted_pages_move_forward(
    request: QueryRequestView,
    generation: ProjectionGeneration,
    frontier: FrontierPosition,
    rows: Seq<ProjectionStateView>,
    charge: nat,
    next: Option<ContinuationView>,
    i: int,
)
    requires
        ready_refusal(request, generation, frontier, rows, charge, next) is None,
        0 <= i < rows.len(),
    ensures
        request.continuation matches Some(held) ==> bytes_before(
            held.exclusive_last_key.bytes,
            rows[i].key.bytes,
        ) && held.generation == generation && held.observed_frontier == frontier,
        i > 0 ==> bytes_before(rows[0].key.bytes, rows[i].key.bytes),
        has_prefix(rows[i].key.bytes, request.selector.prefix_in(generation)),
        rows[i].key.generation == generation,
        at_or_before(rows[i].last_changed_sequence, frontier),
        next matches Some(held) ==> held.exclusive_last_key == rows.last().key
            && held.observed_frontier == frontier && held.generation == generation,
{
    accepted_rows_exceed(request, generation, frontier, None, rows, i);
    if let Some(held) = request.continuation {
        if i > 0 {
            crate::bytes::bytes_before_transitive(
                held.exclusive_last_key.bytes,
                rows[0].key.bytes,
                rows[i].key.bytes,
            );
        }
    }
}

/// What a status is.
#[verifier::ext_equal]
pub ghost struct ProjectionStatusView {
    pub identity: ProjectionIdentityView,
    pub lifecycle: ProjectionLifecycleV1,
    pub published: Option<ProjectionGenerationPosition>,
    pub candidate: Option<ProjectionGenerationPosition>,
    pub published_apply_mode: Option<PublishedApplyModeV1>,
    pub failure: Option<ProjectionFailureV1>,
    pub authoritative_head: FrontierPosition,
}

/// Status assembled from one storage read transaction.
#[derive(Clone, Debug, PartialEq, Eq)]
pub struct ProjectionStatus {
    pub identity: ProjectionIdentity,
    pub lifecycle: ProjectionLifecycleV1,
    pub published: Option<ProjectionGenerationPosition>,
    pub candidate: Option<ProjectionGenerationPosition>,
    pub published_apply_mode: Option<PublishedApplyModeV1>,
    pub failure: Option<ProjectionFailureV1>,
    pub authoritative_head: FrontierPosition,
}

impl View for ProjectionStatus {
    type V = ProjectionStatusView;

    open spec fn view(&self) -> ProjectionStatusView {
        ProjectionStatusView {
            identity: self.identity@,
            lifecycle: self.lifecycle,
            published: self.published,
            candidate: self.candidate,
            published_apply_mode: self.published_apply_mode,
            failure: self.failure,
            authoritative_head: self.authoritative_head,
        }
    }
}

impl ProjectionStatus {
    /// Maps a control record and transaction-current authoritative head.
    pub fn from_control(
        control: &StoredProjectionControlV1,
        authoritative_head: FrontierPosition,
    ) -> (result: Self)
        ensures
            result@ == (ProjectionStatusView {
                identity: control@.identity,
                lifecycle: control@.lifecycle,
                published: control@.published,
                candidate: control@.candidate,
                published_apply_mode: control@.published_apply_mode,
                failure: control@.failure,
                authoritative_head,
            }),
    {
        ProjectionStatus {
            identity: control.identity.clone(),
            lifecycle: control.lifecycle,
            published: control.published,
            candidate: control.candidate,
            published_apply_mode: control.published_apply_mode,
            failure: control.failure,
            authoritative_head,
        }
    }

    /// Maps normal absence for a known identity to building at before-first.
    pub fn uninitialized(
        identity: ProjectionIdentity,
        authoritative_head: FrontierPosition,
    ) -> (result: Self)
        ensures
            result@ == (ProjectionStatusView {
                identity: identity@,
                lifecycle: ProjectionLifecycleV1::Building,
                published: None,
                candidate: None,
                published_apply_mode: None,
                failure: None,
                authoritative_head,
            }),
    {
        ProjectionStatus {
            identity,
            lifecycle: ProjectionLifecycleV1::Building,
            published: None,
            candidate: None,
            published_apply_mode: None,
            failure: None,
            authoritative_head,
        }
    }

    /// Returns the exact identity.
    pub fn identity(&self) -> (result: &ProjectionIdentity)
        ensures
            *result == self.identity,
    {
        &self.identity
    }

    /// Returns the closed lifecycle.
    pub fn lifecycle(&self) -> (result: ProjectionLifecycleV1)
        ensures
            result == self@.lifecycle,
    {
        self.lifecycle
    }

    /// Returns the published pointer and frontier.
    pub fn published(&self) -> (result: Option<ProjectionGenerationPosition>)
        ensures
            result == self@.published,
    {
        self.published
    }

    /// Returns the candidate pointer and frontier.
    pub fn candidate(&self) -> (result: Option<ProjectionGenerationPosition>)
        ensures
            result == self@.candidate,
    {
        self.candidate
    }

    /// Returns the published application mode.
    pub fn published_apply_mode(&self) -> (result: Option<PublishedApplyModeV1>)
        ensures
            result == self@.published_apply_mode,
    {
        self.published_apply_mode
    }

    /// Returns optional closed failure detail.
    pub fn failure(&self) -> (result: Option<&ProjectionFailureV1>)
        ensures
            match result {
                Some(failure) => self@.failure == Some(*failure),
                None => self@.failure is None,
            },
    {
        match &self.failure {
            Some(failure) => Some(failure),
            None => None,
        }
    }

    /// Returns the authoritative application-log head seen in the same read.
    pub fn authoritative_head(&self) -> (result: FrontierPosition)
        ensures
            result == self@.authoritative_head,
    {
        self.authoritative_head
    }
}

} // verus!
