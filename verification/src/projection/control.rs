//! The durable control record of one projection and its lifecycle transitions.

use vstd::prelude::*;

use crate::ids::{CommitSequence, FrontierPosition, ProjectionGeneration};
use crate::keys::{ProjectionIdentity, ProjectionIdentityView};
use crate::projection_schema::CheckedProjectionSchema;
use crate::value_error::StorageValueError;

verus! {

/// Durable lifecycle of one exact projection identity.
#[derive(Clone, Copy, Debug, PartialEq, Eq, Structural, Hash, PartialOrd, Ord)]
pub enum ProjectionLifecycleV1 {
    /// Initial candidate exists but its contiguous scan has not started.
    Building,
    /// Initial candidate is consuming the authoritative log.
    CatchingUp,
    /// One published generation is current and queryable.
    Ready,
    /// A replacement candidate is being built beside a published generation.
    Rebuilding,
    /// One retained generation has a closed recoverable failure.
    Degraded,
    /// Required authoritative history or plan is unavailable for rebuilding.
    Invalid,
}

impl ProjectionLifecycleV1 {
    /// The stable tag of a lifecycle.
    pub open spec fn tag_of(self) -> u8 {
        match self {
            ProjectionLifecycleV1::Building => 0x01,
            ProjectionLifecycleV1::CatchingUp => 0x02,
            ProjectionLifecycleV1::Ready => 0x03,
            ProjectionLifecycleV1::Degraded => 0x04,
            ProjectionLifecycleV1::Rebuilding => 0x05,
            ProjectionLifecycleV1::Invalid => 0x06,
        }
    }

    /// Returns the stable tag.
    pub fn tag(self) -> (result: u8)
        ensures
            result == self.tag_of(),
    {
        match self {
            ProjectionLifecycleV1::Building => 0x01,
            ProjectionLifecycleV1::CatchingUp => 0x02,
            ProjectionLifecycleV1::Ready => 0x03,
            ProjectionLifecycleV1::Degraded => 0x04,
            ProjectionLifecycleV1::Rebuilding => 0x05,
            ProjectionLifecycleV1::Invalid => 0x06,
        }
    }

    /// Decodes a stable tag.
    pub fn from_tag(tag: u8) -> (result: Option<ProjectionLifecycleV1>)
        ensures
            result matches Some(value) ==> value.tag_of() == tag,
            result is None ==> forall|value: ProjectionLifecycleV1| value.tag_of() != tag,
    {
        match tag {
            0x01 => Some(ProjectionLifecycleV1::Building),
            0x02 => Some(ProjectionLifecycleV1::CatchingUp),
            0x03 => Some(ProjectionLifecycleV1::Ready),
            0x04 => Some(ProjectionLifecycleV1::Degraded),
            0x05 => Some(ProjectionLifecycleV1::Rebuilding),
            0x06 => Some(ProjectionLifecycleV1::Invalid),
            _ => None,
        }
    }
}

/// Whether a retained published generation may continue applying commits.
#[derive(Clone, Copy, Debug, PartialEq, Eq, Structural, Hash, PartialOrd, Ord)]
pub enum PublishedApplyModeV1 {
    /// Published application remains enabled.
    Enabled,
    /// A published-generation failure suspends further application.
    Suspended,
}

impl PublishedApplyModeV1 {
    /// The stable tag of a mode.
    pub open spec fn tag_of(self) -> u8 {
        match self {
            PublishedApplyModeV1::Enabled => 0x01,
            PublishedApplyModeV1::Suspended => 0x02,
        }
    }

    /// Returns the stable tag.
    pub fn tag(self) -> (result: u8)
        ensures
            result == self.tag_of(),
    {
        match self {
            PublishedApplyModeV1::Enabled => 0x01,
            PublishedApplyModeV1::Suspended => 0x02,
        }
    }

    /// Decodes a stable tag.
    pub fn from_tag(tag: u8) -> (result: Option<PublishedApplyModeV1>)
        ensures
            result matches Some(value) ==> value.tag_of() == tag,
            result is None ==> forall|value: PublishedApplyModeV1| value.tag_of() != tag,
    {
        match tag {
            0x01 => Some(PublishedApplyModeV1::Enabled),
            0x02 => Some(PublishedApplyModeV1::Suspended),
            _ => None,
        }
    }
}

/// Closed safe reason that one generation could not continue.
#[derive(Clone, Copy, Debug, PartialEq, Eq, Structural, Hash, PartialOrd, Ord)]
pub enum ProjectionFailureCodeV1 {
    /// Checked count or sum arithmetic overflowed.
    ArithmeticOverflow,
    /// A relevant durable event is malformed.
    MalformedDurableEvent,
    /// The required authoritative commit is absent.
    MissingCommit,
    /// The exact plan or schema is unavailable or mismatched.
    PlanOrSchemaUnavailable,
    /// Derived state, marker, key, or control integrity failed.
    ProjectionStateIntegrity,
    /// A fixed process hard limit was exceeded.
    HardLimitExceeded,
}

impl ProjectionFailureCodeV1 {
    /// The stable tag of a failure code.
    pub open spec fn tag_of(self) -> u8 {
        match self {
            ProjectionFailureCodeV1::ArithmeticOverflow => 0x01,
            ProjectionFailureCodeV1::MalformedDurableEvent => 0x02,
            ProjectionFailureCodeV1::MissingCommit => 0x03,
            ProjectionFailureCodeV1::PlanOrSchemaUnavailable => 0x04,
            ProjectionFailureCodeV1::ProjectionStateIntegrity => 0x05,
            ProjectionFailureCodeV1::HardLimitExceeded => 0x06,
        }
    }

    /// Returns the stable tag.
    pub fn tag(self) -> (result: u8)
        ensures
            result == self.tag_of(),
    {
        match self {
            ProjectionFailureCodeV1::ArithmeticOverflow => 0x01,
            ProjectionFailureCodeV1::MalformedDurableEvent => 0x02,
            ProjectionFailureCodeV1::MissingCommit => 0x03,
            ProjectionFailureCodeV1::PlanOrSchemaUnavailable => 0x04,
            ProjectionFailureCodeV1::ProjectionStateIntegrity => 0x05,
            ProjectionFailureCodeV1::HardLimitExceeded => 0x06,
        }
    }

    /// Decodes a stable tag.
    pub fn from_tag(tag: u8) -> (result: Option<ProjectionFailureCodeV1>)
        ensures
            result matches Some(value) ==> value.tag_of() == tag,
            result is None ==> forall|value: ProjectionFailureCodeV1| value.tag_of() != tag,
    {
        match tag {
            0x01 => Some(ProjectionFailureCodeV1::ArithmeticOverflow),
            0x02 => Some(ProjectionFailureCodeV1::MalformedDurableEvent),
            0x03 => Some(ProjectionFailureCodeV1::MissingCommit),
            0x04 => Some(ProjectionFailureCodeV1::PlanOrSchemaUnavailable),
            0x05 => Some(ProjectionFailureCodeV1::ProjectionStateIntegrity),
            0x06 => Some(ProjectionFailureCodeV1::HardLimitExceeded),
            _ => None,
        }
    }
}

/// No two lifecycles, modes or failure codes share a tag, so a tag decodes to
/// the value that it was taken from.
pub proof fn stable_tags_are_injective(
    a: ProjectionLifecycleV1,
    b: ProjectionLifecycleV1,
    c: PublishedApplyModeV1,
    d: PublishedApplyModeV1,
    e: ProjectionFailureCodeV1,
    f: ProjectionFailureCodeV1,
)
    ensures
        a.tag_of() == b.tag_of() ==> a == b,
        c.tag_of() == d.tag_of() ==> c == d,
        e.tag_of() == f.tag_of() ==> e == f,
{
}

/// Closed durable evidence for one failed retained generation.
#[derive(Clone, Copy, Debug, PartialEq, Eq)]
pub struct ProjectionFailureV1 {
    pub generation: ProjectionGeneration,
    pub code: ProjectionFailureCodeV1,
    pub at_sequence: Option<CommitSequence>,
}

impl ProjectionFailureV1 {
    /// Constructs a closed failure without arbitrary diagnostic text.
    pub fn new(
        generation: ProjectionGeneration,
        code: ProjectionFailureCodeV1,
        at_sequence: Option<CommitSequence>,
    ) -> (result: Self)
        ensures
            result == (ProjectionFailureV1 { generation, code, at_sequence }),
    {
        ProjectionFailureV1 { generation, code, at_sequence }
    }

    /// Returns the affected retained generation.
    pub fn generation(&self) -> (result: ProjectionGeneration)
        ensures
            result == self.generation,
    {
        self.generation
    }

    /// Returns the safe closed failure code.
    pub fn code(&self) -> (result: ProjectionFailureCodeV1)
        ensures
            result == self.code,
    {
        self.code
    }

    /// Returns the sequence whose evaluation failed, when applicable.
    pub fn at_sequence(&self) -> (result: Option<CommitSequence>)
        ensures
            result == self.at_sequence,
    {
        self.at_sequence
    }

    fn same(&self, other: &ProjectionFailureV1) -> (result: bool)
        ensures
            result == (*self == *other),
    {
        self.generation == other.generation && self.code == other.code && match (
            self.at_sequence,
            other.at_sequence,
        ) {
            (Some(a), Some(b)) => a == b,
            (None, None) => true,
            _ => false,
        }
    }
}

/// One retained generation pointer and its contiguous frontier.
#[derive(Clone, Copy, Debug, PartialEq, Eq, Structural)]
pub struct ProjectionGenerationPosition {
    pub generation: ProjectionGeneration,
    pub frontier: FrontierPosition,
}

impl ProjectionGenerationPosition {
    /// Constructs a retained generation position.
    pub fn new(generation: ProjectionGeneration, frontier: FrontierPosition) -> (result: Self)
        ensures
            result == (ProjectionGenerationPosition { generation, frontier }),
    {
        ProjectionGenerationPosition { generation, frontier }
    }

    /// Returns the retained generation.
    pub fn generation(self) -> (result: ProjectionGeneration)
        ensures
            result == self.generation,
    {
        self.generation
    }

    /// Returns its contiguous applied position.
    pub fn frontier(self) -> (result: FrontierPosition)
        ensures
            result == self.frontier,
    {
        self.frontier
    }
}

/// Whether a commit is the one that follows a frontier.
pub open spec fn exact_successor(frontier: FrontierPosition, sequence: CommitSequence) -> bool {
    sequence.value == frontier.applied() + 1
}

/// Decides whether a commit is the one that follows a frontier.
pub fn is_exact_successor(frontier: FrontierPosition, sequence: CommitSequence) -> (result: bool)
    ensures
        result == exact_successor(frontier, sequence),
{
    match frontier {
        FrontierPosition::BeforeFirst => sequence == CommitSequence::first(),
        FrontierPosition::AppliedThrough(previous) => match previous.checked_next() {
            Some(next) => next == sequence,
            None => false,
        },
    }
}

/// Whether a commit lies within what a frontier has applied.
pub open spec fn at_or_before(sequence: CommitSequence, frontier: FrontierPosition) -> bool {
    frontier matches FrontierPosition::AppliedThrough(applied) && sequence.value <= applied.value
}

/// Decides whether a commit lies within what a frontier has applied.
pub fn sequence_at_or_before(sequence: CommitSequence, frontier: FrontierPosition) -> (result: bool)
    ensures
        result == at_or_before(sequence, frontier),
{
    match frontier {
        FrontierPosition::BeforeFirst => false,
        FrontierPosition::AppliedThrough(applied) => sequence.value <= applied.value,
    }
}

/// Whether a pointer names this generation.
pub open spec fn names(
    position: Option<ProjectionGenerationPosition>,
    generation: ProjectionGeneration,
) -> bool {
    position matches Some(held) && held.generation == generation
}

fn is_named(
    position: Option<ProjectionGenerationPosition>,
    generation: ProjectionGeneration,
) -> (result: bool)
    ensures
        result == names(position, generation),
{
    match position {
        Some(held) => held.generation == generation,
        None => false,
    }
}

fn same_position(
    a: Option<ProjectionGenerationPosition>,
    b: Option<ProjectionGenerationPosition>,
) -> (result: bool)
    ensures
        result == (a == b),
{
    match (a, b) {
        (Some(a), Some(b)) => a == b,
        (None, None) => true,
        _ => false,
    }
}

fn same_mode(a: Option<PublishedApplyModeV1>, b: Option<PublishedApplyModeV1>) -> (result: bool)
    ensures
        result == (a == b),
{
    match (a, b) {
        (Some(a), Some(b)) => a == b,
        (None, None) => true,
        _ => false,
    }
}

/// What a control record is.
#[verifier::ext_equal]
pub ghost struct ProjectionControlView {
    pub identity: ProjectionIdentityView,
    pub highest_allocated_generation: ProjectionGeneration,
    pub published: Option<ProjectionGenerationPosition>,
    pub candidate: Option<ProjectionGenerationPosition>,
    pub published_apply_mode: Option<PublishedApplyModeV1>,
    pub lifecycle: ProjectionLifecycleV1,
    pub failure: Option<ProjectionFailureV1>,
}

impl ProjectionControlView {
    /// The pointer that names a generation, the published one first.
    pub open spec fn retained(self, generation: ProjectionGeneration) -> Option<
        ProjectionGenerationPosition,
    > {
        if names(self.published, generation) {
            self.published
        } else if names(self.candidate, generation) {
            self.candidate
        } else {
            None
        }
    }

    /// A failure names a retained generation and, if it names a commit at all,
    /// the one that follows that generation's frontier.
    pub open spec fn failure_matches(self, failure: ProjectionFailureV1) -> bool {
        self.retained(failure.generation) matches Some(position)
            && (failure.at_sequence matches Some(
            sequence,
        ) ==> exact_successor(position.frontier, sequence))
    }

    /// Pointers name different allocated generations, the candidate the newest,
    /// and exactly a published generation has an apply mode.
    pub open spec fn pointers_valid(self) -> bool {
        &&& self.published matches Some(position) ==> position.generation.value
            <= self.highest_allocated_generation.value
        &&& self.candidate matches Some(position) ==> position.generation
            == self.highest_allocated_generation && !names(self.published, position.generation)
        &&& self.published is Some <==> self.published_apply_mode is Some
    }

    /// The lifecycle agrees with the pointers, the mode and the failure.
    pub open spec fn lifecycle_valid(self) -> bool {
        match self.lifecycle {
            ProjectionLifecycleV1::Building => self.published is None && self.failure is None
                && (self.candidate matches Some(candidate) && candidate.frontier
                == FrontierPosition::BeforeFirst),
            ProjectionLifecycleV1::CatchingUp => self.published is None && self.failure is None
                && self.candidate is Some,
            ProjectionLifecycleV1::Ready => names(
                self.published,
                self.highest_allocated_generation,
            ) && self.candidate is None && self.failure is None && self.published_apply_mode
                == Some(PublishedApplyModeV1::Enabled),
            ProjectionLifecycleV1::Rebuilding => self.published is Some && self.candidate is Some
                && self.failure is None,
            ProjectionLifecycleV1::Degraded | ProjectionLifecycleV1::Invalid =>
                self.failure matches Some(
            failure) && self.failure_matches(failure) && (names(self.published, failure.generation)
                ==> self.published_apply_mode == Some(PublishedApplyModeV1::Suspended)),
        }
    }

    /// An accepted control record.
    pub open spec fn shape_valid(self) -> bool {
        self.pointers_valid() && self.lifecycle_valid()
    }

    /// Whether the lifecycle permits application to a generation.
    pub open spec fn permits(self, generation: ProjectionGeneration) -> bool {
        let candidate = names(self.candidate, generation);
        let published = names(self.published, generation) && self.published_apply_mode == Some(
            PublishedApplyModeV1::Enabled,
        );
        match self.lifecycle {
            ProjectionLifecycleV1::CatchingUp => candidate,
            ProjectionLifecycleV1::Ready => published,
            ProjectionLifecycleV1::Rebuilding => candidate || published,
            _ => false,
        }
    }

    /// The frontier of a retained generation.
    pub open spec fn frontier_of(self, generation: ProjectionGeneration) -> Option<
        FrontierPosition,
    > {
        match self.retained(generation) {
            Some(position) => Some(position.frontier),
            None => None,
        }
    }

    /// The record with another frontier for one retained generation.
    pub open spec fn with_frontier(
        self,
        generation: ProjectionGeneration,
        frontier: FrontierPosition,
    ) -> ProjectionControlView {
        let moved = Some(ProjectionGenerationPosition { generation, frontier });
        if names(self.published, generation) {
            ProjectionControlView { published: moved, ..self }
        } else if names(self.candidate, generation) {
            ProjectionControlView { candidate: moved, ..self }
        } else {
            self
        }
    }

    /// Whether a commit may be applied to a generation at an expected frontier.
    pub open spec fn applicable(
        self,
        generation: ProjectionGeneration,
        expected: FrontierPosition,
        applied: CommitSequence,
    ) -> bool {
        &&& self.permits(generation)
        &&& self.frontier_of(generation) == Some(expected)
        &&& exact_successor(expected, applied)
    }

    /// The record after one apply, unless the commit may not be applied or the record
    /// would lose its accepted shape.
    pub open spec fn apply_outcome(
        self,
        generation: ProjectionGeneration,
        expected: FrontierPosition,
        applied: CommitSequence,
    ) -> Result<ProjectionControlView, StorageValueError> {
        let next = self.with_frontier(generation, FrontierPosition::AppliedThrough(applied));
        if self.applicable(generation, expected, applied) && next.shape_valid() {
            Ok(next)
        } else {
            Err(StorageValueError::InvalidShape)
        }
    }
}

/// Generation one as an unpublished building candidate.
pub open spec fn initial_control(identity: ProjectionIdentityView) -> ProjectionControlView {
    ProjectionControlView {
        identity,
        highest_allocated_generation: ProjectionGeneration { value: 1 },
        published: None,
        candidate: Some(
            ProjectionGenerationPosition {
                generation: ProjectionGeneration { value: 1 },
                frontier: FrontierPosition::BeforeFirst,
            },
        ),
        published_apply_mode: None,
        lifecycle: ProjectionLifecycleV1::Building,
        failure: None,
    }
}

/// Durable projection control record.
#[derive(Debug, PartialEq, Eq)]
pub struct StoredProjectionControlV1 {
    pub identity: ProjectionIdentity,
    pub highest_allocated_generation: ProjectionGeneration,
    pub published: Option<ProjectionGenerationPosition>,
    pub candidate: Option<ProjectionGenerationPosition>,
    pub published_apply_mode: Option<PublishedApplyModeV1>,
    pub lifecycle: ProjectionLifecycleV1,
    pub failure: Option<ProjectionFailureV1>,
}

impl View for StoredProjectionControlV1 {
    type V = ProjectionControlView;

    open spec fn view(&self) -> ProjectionControlView {
        ProjectionControlView {
            identity: self.identity@,
            highest_allocated_generation: self.highest_allocated_generation,
            published: self.published,
            candidate: self.candidate,
            published_apply_mode: self.published_apply_mode,
            lifecycle: self.lifecycle,
            failure: self.failure,
        }
    }
}

impl Clone for StoredProjectionControlV1 {
    fn clone(&self) -> (result: StoredProjectionControlV1)
        ensures
            result@ == self@,
    {
        StoredProjectionControlV1 {
            identity: self.identity.clone(),
            highest_allocated_generation: self.highest_allocated_generation,
            published: self.published,
            candidate: self.candidate,
            published_apply_mode: self.published_apply_mode,
            lifecycle: self.lifecycle,
            failure: self.failure,
        }
    }
}

impl StoredProjectionControlV1 {
    /// Validates and constructs one exact durable control shape.
    pub fn new(
        identity: ProjectionIdentity,
        highest_allocated_generation: ProjectionGeneration,
        published: Option<ProjectionGenerationPosition>,
        candidate: Option<ProjectionGenerationPosition>,
        published_apply_mode: Option<PublishedApplyModeV1>,
        lifecycle: ProjectionLifecycleV1,
        failure: Option<ProjectionFailureV1>,
    ) -> (result: Result<Self, StorageValueError>)
        ensures
            ({
                let parts = ProjectionControlView {
                    identity: identity@,
                    highest_allocated_generation,
                    published,
                    candidate,
                    published_apply_mode,
                    lifecycle,
                    failure,
                };
                match result {
                    Ok(value) => parts.shape_valid() && value@ == parts,
                    Err(error) => !parts.shape_valid() && error == StorageValueError::InvalidShape,
                }
            }),
    {
        let value = StoredProjectionControlV1 {
            identity,
            highest_allocated_generation,
            published,
            candidate,
            published_apply_mode,
            lifecycle,
            failure,
        };
        match value.validate_shape() {
            Ok(()) => Ok(value),
            Err(error) => Err(error),
        }
    }

    /// Creates generation one as an unpublished building candidate.
    pub fn initial(identity: ProjectionIdentity) -> (result: Self)
        ensures
            result@ == initial_control(identity@),
            result@.shape_valid(),
    {
        StoredProjectionControlV1 {
            identity,
            highest_allocated_generation: ProjectionGeneration::first(),
            published: None,
            candidate: Some(
                ProjectionGenerationPosition::new(
                    ProjectionGeneration::first(),
                    FrontierPosition::BeforeFirst,
                ),
            ),
            published_apply_mode: None,
            lifecycle: ProjectionLifecycleV1::Building,
            failure: None,
        }
    }

    /// Decides equality of two control records.
    pub fn same(&self, other: &StoredProjectionControlV1) -> (result: bool)
        ensures
            result == (self@ == other@),
    {
        self.identity.same(&other.identity) && self.highest_allocated_generation
            == other.highest_allocated_generation && same_position(self.published, other.published)
            && same_position(self.candidate, other.candidate) && same_mode(
            self.published_apply_mode,
            other.published_apply_mode,
        ) && self.lifecycle == other.lifecycle && match (&self.failure, &other.failure) {
            (Some(a), Some(b)) => a.same(b),
            (None, None) => true,
            _ => false,
        }
    }

    /// Returns the exact projection identity.
    pub fn identity(&self) -> (result: &ProjectionIdentity)
        ensures
            *result == self.identity,
    {
        &self.identity
    }

    /// Returns the highest generation ever allocated for this identity.
    pub fn highest_allocated_generation(&self) -> (result: ProjectionGeneration)
        ensures
            result == self@.highest_allocated_generation,
    {
        self.highest_allocated_generation
    }

    /// Returns the retained published generation and frontier.
    pub fn published(&self) -> (result: Option<ProjectionGenerationPosition>)
        ensures
            result == self@.published,
    {
        self.published
    }

    /// Returns the retained candidate generation and frontier.
    pub fn candidate(&self) -> (result: Option<ProjectionGenerationPosition>)
        ensures
            result == self@.candidate,
    {
        self.candidate
    }

    /// Returns whether application to a published generation is enabled.
    pub fn published_apply_mode(&self) -> (result: Option<PublishedApplyModeV1>)
        ensures
            result == self@.published_apply_mode,
    {
        self.published_apply_mode
    }

    /// Returns the durable lifecycle.
    pub fn lifecycle(&self) -> (result: ProjectionLifecycleV1)
        ensures
            result == self@.lifecycle,
    {
        self.lifecycle
    }

    /// Returns closed failure evidence for degraded or invalid state.
    pub fn failure(&self) -> (result: Option<&ProjectionFailureV1>)
        ensures
            match result {
                Some(failure) => self@.failure == Some(*failure),
                None => self@.failure is None,
            },
    {
        match &self.failure {
            Some(failure) => Some(failure),
            None => None,
        }
    }

    fn retained_position(&self, generation: ProjectionGeneration) -> (result: Option<
        ProjectionGenerationPosition,
    >)
        ensures
            result == self@.retained(generation),
    {
        if is_named(self.published, generation) {
            self.published
        } else if is_named(self.candidate, generation) {
            self.candidate
        } else {
            None
        }
    }

    fn failure_matches_retained_position(&self, failure: &ProjectionFailureV1) -> (result: bool)
        ensures
            result == self@.failure_matches(*failure),
    {
        match self.retained_position(failure.generation()) {
            Some(position) => match failure.at_sequence() {
                Some(sequence) => is_exact_successor(position.frontier(), sequence),
                None => true,
            },
            None => false,
        }
    }

    /// Checks the record's shape.
    pub fn validate_shape(&self) -> (result: Result<(), StorageValueError>)
        ensures
            result == if self@.shape_valid() {
                Ok::<(), StorageValueError>(())
            } else {
                Err(StorageValueError::InvalidShape)
            },
    {
        let highest = self.highest_allocated_generation;
        if let Some(published) = self.published {
            if published.generation.get() > highest.get() {
                return Err(StorageValueError::InvalidShape);
            }
        }
        if let Some(candidate) = self.candidate {
            if candidate.generation != highest || is_named(self.published, candidate.generation) {
                return Err(StorageValueError::InvalidShape);
            }
        }
        if self.published.is_some() != self.published_apply_mode.is_some() {
            return Err(StorageValueError::InvalidShape);
        }
        let active = self.failure.is_none();
        let shape_valid = match self.lifecycle {
            ProjectionLifecycleV1::Building => self.published.is_none() && active
                && match self.candidate {
                Some(candidate) => candidate.frontier == FrontierPosition::BeforeFirst,
                None => false,
            },
            ProjectionLifecycleV1::CatchingUp => self.published.is_none() && active
                && self.candidate.is_some(),
            ProjectionLifecycleV1::Ready => is_named(self.published, highest)
                && self.candidate.is_none() && active && same_mode(
                self.published_apply_mode,
                Some(PublishedApplyModeV1::Enabled),
            ),
            ProjectionLifecycleV1::Rebuilding => self.published.is_some()
                && self.candidate.is_some() && active,
            ProjectionLifecycleV1::Degraded | ProjectionLifecycleV1::Invalid =>
                match &self.failure {
                Some(failure) => self.failure_matches_retained_position(failure) && (!is_named(
                    self.published,
                    failure.generation,
                ) || same_mode(self.published_apply_mode, Some(PublishedApplyModeV1::Suspended))),
                None => false,
            },
        };
        if shape_valid {
            Ok(())
        } else {
            Err(StorageValueError::InvalidShape)
        }
    }

    /// Returns whether this lifecycle permits application to the generation.
    pub fn permits_application(&self, generation: ProjectionGeneration) -> (result: bool)
        ensures
            result == self@.permits(generation),
    {
        match self.lifecycle {
            ProjectionLifecycleV1::CatchingUp => is_named(self.candidate, generation),
            ProjectionLifecycleV1::Ready => same_mode(
                self.published_apply_mode,
                Some(PublishedApplyModeV1::Enabled),
            ) && is_named(self.published, generation),
            ProjectionLifecycleV1::Rebuilding => is_named(self.candidate, generation) || (
            same_mode(self.published_apply_mode, Some(PublishedApplyModeV1::Enabled)) && is_named(
                self.published,
                generation,
            )),
            ProjectionLifecycleV1::Building
            | ProjectionLifecycleV1::Degraded
            | ProjectionLifecycleV1::Invalid => false,
        }
    }

    /// Returns the frontier for one retained generation.
    pub fn frontier_for(&self, generation: ProjectionGeneration) -> (result: Option<
        FrontierPosition,
    >)
        ensures
            result == self@.frontier_of(generation),
    {
        match self.retained_position(generation) {
            Some(position) => Some(position.frontier()),
            None => None,
        }
    }

    /// Produces the checked control post-image for one successful apply.
    pub fn after_apply(
        &self,
        generation: ProjectionGeneration,
        expected: FrontierPosition,
        applied: CommitSequence,
    ) -> (result: Result<Self, StorageValueError>)
        ensures
            match result {
                Ok(value) => self@.apply_outcome(generation, expected, applied) == Ok::<
                    ProjectionControlView,
                    StorageValueError,
                >(value@),
                Err(error) => self@.apply_outcome(generation, expected, applied) == Err::<
                    ProjectionControlView,
                    StorageValueError,
                >(error),
            },
    {
        let at_expected = match self.frontier_for(generation) {
            Some(frontier) => frontier == expected,
            None => false,
        };
        if !self.permits_application(generation) || !at_expected || !is_exact_successor(
            expected,
            applied,
        ) {
            return Err(StorageValueError::InvalidShape);
        }
        let mut next = self.clone();
        let moved = ProjectionGenerationPosition::new(
            generation,
            FrontierPosition::AppliedThrough(applied),
        );
        if is_named(next.published, generation) {
            next.published = Some(moved);
        } else {
            next.candidate = Some(moved);
        }
        match next.validate_shape() {
            Ok(()) => Ok(next),
            Err(error) => Err(error),
        }
    }
}

/// One exact specialized projection control operation.
#[derive(Clone, Debug, PartialEq, Eq)]
pub enum ProjectionControlOperation {
    /// Insert generation one only if no control exists.
    CreateInitial {
        /// Exact checked projection schema and identity.
        schema: CheckedProjectionSchema,
    },
    /// Move initial building state to catching up.
    StartInitialScan {
        /// Complete expected prior record.
        expected: StoredProjectionControlV1,
    },
    /// Allocate the next never-reused rebuild candidate.
    AllocateRebuild {
        /// Complete expected prior record.
        expected: StoredProjectionControlV1,
    },
    /// Publish a candidate only at the transaction-current authoritative head.
    PublishCandidate {
        /// Complete expected prior record.
        expected: StoredProjectionControlV1,
    },
    /// Persist one closed generation failure without advancing its retained frontier.
    RecordFailure {
        /// Complete expected prior record.
        expected: StoredProjectionControlV1,
        /// Failure naming one retained pointer.
        failure: ProjectionFailureV1,
    },
    /// Apply the exact recovery edge for degraded state.
    RecoverDegraded {
        /// Complete expected prior record.
        expected: StoredProjectionControlV1,
    },
    /// Mark a degraded projection invalid when rebuild inputs are unavailable.
    MarkInvalid {
        /// Complete expected degraded record.
        expected: StoredProjectionControlV1,
    },
}

/// What a control operation asks for, apart from the record that it expects.
pub ghost enum ControlEdge {
    StartInitialScan,
    AllocateRebuild,
    PublishCandidate,
    RecordFailure(ProjectionFailureV1),
    RecoverDegraded,
    MarkInvalid,
}

/// What a control operation is.
pub ghost enum ProjectionControlOperationView {
    /// Insert generation one of an identity.
    Create(ProjectionIdentityView),
    /// Take an edge from an expected record.
    Transition(ProjectionControlView, ControlEdge),
}

impl View for ProjectionControlOperation {
    type V = ProjectionControlOperationView;

    open spec fn view(&self) -> ProjectionControlOperationView {
        match self {
            ProjectionControlOperation::CreateInitial { schema } =>
                ProjectionControlOperationView::Create(schema@.identity),
            ProjectionControlOperation::StartInitialScan { expected } =>
                ProjectionControlOperationView::Transition(
                expected@,
                ControlEdge::StartInitialScan,
            ),
            ProjectionControlOperation::AllocateRebuild { expected } =>
                ProjectionControlOperationView::Transition(expected@, ControlEdge::AllocateRebuild),
            ProjectionControlOperation::PublishCandidate { expected } =>
                ProjectionControlOperationView::Transition(
                expected@,
                ControlEdge::PublishCandidate,
            ),
            ProjectionControlOperation::RecordFailure { expected, failure } =>
                ProjectionControlOperationView::Transition(
                expected@,
                ControlEdge::RecordFailure(*failure),
            ),
            ProjectionControlOperation::RecoverDegraded { expected } =>
                ProjectionControlOperationView::Transition(expected@, ControlEdge::RecoverDegraded),
            ProjectionControlOperation::MarkInvalid { expected } =>
                ProjectionControlOperationView::Transition(expected@, ControlEdge::MarkInvalid),
        }
    }
}

/// Closed result of a projection control compare-and-set.
#[derive(Clone, Debug, PartialEq, Eq)]
pub enum ProjectionControlResult {
    /// The operation durably installed this complete control post-image.
    Updated(StoredProjectionControlV1),
    /// Transaction-current control did not equal the expected prior record.
    StateChanged,
    /// An insert found an existing control record.
    AlreadyInitialized(StoredProjectionControlV1),
    /// The generation space is exhausted; no record changed.
    GenerationExhausted,
}

/// What a control result is.
pub ghost enum ProjectionControlResultView {
    Updated(ProjectionControlView),
    StateChanged,
    AlreadyInitialized(ProjectionControlView),
    GenerationExhausted,
}

impl View for ProjectionControlResult {
    type V = ProjectionControlResultView;

    open spec fn view(&self) -> ProjectionControlResultView {
        match self {
            ProjectionControlResult::Updated(control) => ProjectionControlResultView::Updated(
                control@,
            ),
            ProjectionControlResult::StateChanged => ProjectionControlResultView::StateChanged,
            ProjectionControlResult::AlreadyInitialized(control) =>
                ProjectionControlResultView::AlreadyInitialized(control@),
            ProjectionControlResult::GenerationExhausted =>
                ProjectionControlResultView::GenerationExhausted,
        }
    }
}

/// The outcome that installs a record, refused unless its shape is accepted.
pub open spec fn installed(next: ProjectionControlView) -> Result<
    ProjectionControlResultView,
    StorageValueError,
> {
    if next.shape_valid() {
        Ok(ProjectionControlResultView::Updated(next))
    } else {
        Err(StorageValueError::InvalidShape)
    }
}

/// The record with a fresh candidate of the next generation.
pub open spec fn with_next_candidate(
    control: ProjectionControlView,
    lifecycle: ProjectionLifecycleV1,
) -> ProjectionControlView {
    let next = ProjectionGeneration {
        value: (control.highest_allocated_generation.value + 1) as u64,
    };
    ProjectionControlView {
        highest_allocated_generation: next,
        candidate: Some(
            ProjectionGenerationPosition {
                generation: next,
                frontier: FrontierPosition::BeforeFirst,
            },
        ),
        lifecycle,
        failure: None,
        ..control
    }
}

/// Whether an edge may be taken from a record at an authoritative head.
pub open spec fn edge_allowed(
    expected: ProjectionControlView,
    edge: ControlEdge,
    head: FrontierPosition,
) -> bool {
    let lifecycle = expected.lifecycle;
    match edge {
        ControlEdge::StartInitialScan => lifecycle is Building,
        ControlEdge::AllocateRebuild => lifecycle is Ready,
        ControlEdge::PublishCandidate => {
            &&& lifecycle is Building || lifecycle is CatchingUp || lifecycle is Rebuilding
            &&& expected.candidate matches Some(candidate) && candidate.frontier == head && (
            lifecycle is Rebuilding ==> (expected.published matches Some(published)
                && !candidate.frontier.before(published.frontier)))
        },
        ControlEdge::RecordFailure(failure) => {
            &&& !(lifecycle is Degraded || lifecycle is Invalid)
            &&& expected.failure_matches(failure)
        },
        ControlEdge::RecoverDegraded => lifecycle is Degraded && expected.failure is Some,
        ControlEdge::MarkInvalid => lifecycle is Degraded,
    }
}

/// Whether recovery resumes the retained candidate: the published generation
/// failed while a candidate was being built beside it.
pub open spec fn resumes_candidate(expected: ProjectionControlView) -> bool {
    expected.failure matches Some(failure) && names(expected.published, failure.generation)
        && expected.candidate is Some
}

/// Whether an edge needs a generation that was never allocated.
pub open spec fn allocates(expected: ProjectionControlView, edge: ControlEdge) -> bool {
    edge is AllocateRebuild || (edge is RecoverDegraded && !resumes_candidate(expected))
}

/// The record that an allowed edge leads to.
pub open spec fn edge_target(
    expected: ProjectionControlView,
    edge: ControlEdge,
) -> ProjectionControlView {
    match edge {
        ControlEdge::StartInitialScan => ProjectionControlView {
            lifecycle: ProjectionLifecycleV1::CatchingUp,
            failure: None,
            ..expected
        },
        ControlEdge::AllocateRebuild => with_next_candidate(
            expected,
            ProjectionLifecycleV1::Rebuilding,
        ),
        ControlEdge::PublishCandidate => ProjectionControlView {
            published: expected.candidate,
            candidate: None,
            published_apply_mode: Some(PublishedApplyModeV1::Enabled),
            lifecycle: ProjectionLifecycleV1::Ready,
            failure: None,
            ..expected
        },
        ControlEdge::RecordFailure(failure) => ProjectionControlView {
            published_apply_mode: if names(expected.published, failure.generation) {
                Some(PublishedApplyModeV1::Suspended)
            } else {
                expected.published_apply_mode
            },
            lifecycle: ProjectionLifecycleV1::Degraded,
            failure: Some(failure),
            ..expected
        },
        ControlEdge::RecoverDegraded => if resumes_candidate(expected) {
            ProjectionControlView {
                lifecycle: ProjectionLifecycleV1::Rebuilding,
                failure: None,
                ..expected
            }
        } else if expected.published is Some {
            with_next_candidate(expected, ProjectionLifecycleV1::Rebuilding)
        } else {
            with_next_candidate(expected, ProjectionLifecycleV1::Building)
        },
        ControlEdge::MarkInvalid => ProjectionControlView {
            lifecycle: ProjectionLifecycleV1::Invalid,
            ..expected
        },
    }
}

/// What inserting generation one of an identity gives.
pub open spec fn creation_outcome(
    current: Option<ProjectionControlView>,
    identity: ProjectionIdentityView,
) -> Result<ProjectionControlResultView, StorageValueError> {
    match current {
        Some(existing) => if existing.identity == identity {
            Ok(ProjectionControlResultView::AlreadyInitialized(existing))
        } else {
            Err(StorageValueError::IdentityMismatch)
        },
        None => Ok(ProjectionControlResultView::Updated(initial_control(identity))),
    }
}

/// What a control operation gives: a changed record first, then a forbidden
/// edge, then exhaustion, then the checked post-image.
pub open spec fn control_outcome(
    current: Option<ProjectionControlView>,
    operation: ProjectionControlOperationView,
    head: FrontierPosition,
) -> Result<ProjectionControlResultView, StorageValueError> {
    match operation {
        ProjectionControlOperationView::Create(identity) => creation_outcome(current, identity),
        ProjectionControlOperationView::Transition(expected, edge) => if current != Some(expected) {
            Ok(ProjectionControlResultView::StateChanged)
        } else if !edge_allowed(expected, edge, head) {
            Err(StorageValueError::InvalidShape)
        } else if allocates(expected, edge) && expected.highest_allocated_generation.value
            == u64::MAX {
            Ok(ProjectionControlResultView::GenerationExhausted)
        } else {
            installed(edge_target(expected, edge))
        },
    }
}

/// What a result of the evaluator is.
pub open spec fn control_result_view(
    result: Result<ProjectionControlResult, StorageValueError>,
) -> Result<ProjectionControlResultView, StorageValueError> {
    match result {
        Ok(value) => Ok(value@),
        Err(error) => Err(error),
    }
}

/// What a borrowed current record is.
pub open spec fn current_view(current: Option<&StoredProjectionControlV1>) -> Option<
    ProjectionControlView,
> {
    match current {
        Some(control) => Some(control@),
        None => None,
    }
}

/// Pure compare-and-transition evaluator of projection control.
///
/// Engines supply the exact transaction-current record and application head,
/// then persist only an updated post-image.
pub fn evaluate_projection_control_operation(
    current: Option<&StoredProjectionControlV1>,
    operation: &ProjectionControlOperation,
    authoritative_head: FrontierPosition,
) -> (result: Result<ProjectionControlResult, StorageValueError>)
    ensures
        control_result_view(result) == control_outcome(
            current_view(current),
            operation@,
            authoritative_head,
        ),
{
    let expected = match operation {
        ProjectionControlOperation::CreateInitial { schema } => {
            return evaluate_projection_control_creation(current, schema.identity());
        },
        ProjectionControlOperation::StartInitialScan { expected } => expected,
        ProjectionControlOperation::AllocateRebuild { expected } => expected,
        ProjectionControlOperation::PublishCandidate { expected } => expected,
        ProjectionControlOperation::RecordFailure { expected, .. } => expected,
        ProjectionControlOperation::RecoverDegraded { expected } => expected,
        ProjectionControlOperation::MarkInvalid { expected } => expected,
    };
    let unchanged = match current {
        Some(control) => control.same(expected),
        None => false,
    };
    if !unchanged {
        return Ok(ProjectionControlResult::StateChanged);
    }
    match operation {
        ProjectionControlOperation::CreateInitial { .. } => Err(StorageValueError::InvalidShape),
        ProjectionControlOperation::StartInitialScan { .. } => {
            if expected.lifecycle() != ProjectionLifecycleV1::Building {
                return Err(StorageValueError::InvalidShape);
            }
            updated(
                rebuild_control(
                    expected,
                    expected.highest_allocated_generation(),
                    expected.published(),
                    expected.candidate(),
                    expected.published_apply_mode(),
                    ProjectionLifecycleV1::CatchingUp,
                    None,
                ),
            )
        },
        ProjectionControlOperation::AllocateRebuild { .. } => {
            if expected.lifecycle() != ProjectionLifecycleV1::Ready {
                return Err(StorageValueError::InvalidShape);
            }
            let next = match expected.highest_allocated_generation().checked_next() {
                Some(next) => next,
                None => {
                    return Ok(ProjectionControlResult::GenerationExhausted);
                },
            };
            updated(
                rebuild_control(
                    expected,
                    next,
                    expected.published(),
                    Some(
                        ProjectionGenerationPosition::new(next, FrontierPosition::BeforeFirst),
                    ),
                    expected.published_apply_mode(),
                    ProjectionLifecycleV1::Rebuilding,
                    None,
                ),
            )
        },
        ProjectionControlOperation::PublishCandidate { .. } => {
            let rebuilding = match expected.lifecycle() {
                ProjectionLifecycleV1::Building | ProjectionLifecycleV1::CatchingUp => false,
                ProjectionLifecycleV1::Rebuilding => true,
                _ => {
                    return Err(StorageValueError::InvalidShape);
                },
            };
            let candidate = match expected.candidate() {
                Some(candidate) => candidate,
                None => {
                    return Err(StorageValueError::InvalidShape);
                },
            };
            let behind_published = match expected.published() {
                Some(published) => candidate.frontier().is_before(published.frontier()),
                None => true,
            };
            if candidate.frontier() != authoritative_head || (rebuilding && behind_published) {
                return Err(StorageValueError::InvalidShape);
            }
            updated(
                rebuild_control(
                    expected,
                    expected.highest_allocated_generation(),
                    Some(candidate),
                    None,
                    Some(PublishedApplyModeV1::Enabled),
                    ProjectionLifecycleV1::Ready,
                    None,
                ),
            )
        },
        ProjectionControlOperation::RecordFailure { failure, .. } => {
            match expected.lifecycle() {
                ProjectionLifecycleV1::Degraded | ProjectionLifecycleV1::Invalid => {
                    return Err(StorageValueError::InvalidShape);
                },
                _ => {},
            }
            if !expected.failure_matches_retained_position(failure) {
                return Err(StorageValueError::InvalidShape);
            }
            let published_apply_mode = if is_named(expected.published(), failure.generation()) {
                Some(PublishedApplyModeV1::Suspended)
            } else {
                expected.published_apply_mode()
            };
            updated(
                rebuild_control(
                    expected,
                    expected.highest_allocated_generation(),
                    expected.published(),
                    expected.candidate(),
                    published_apply_mode,
                    ProjectionLifecycleV1::Degraded,
                    Some(*failure),
                ),
            )
        },
        ProjectionControlOperation::RecoverDegraded { .. } => {
            if expected.lifecycle() != ProjectionLifecycleV1::Degraded {
                return Err(StorageValueError::InvalidShape);
            }
            let failure = match expected.failure() {
                Some(failure) => failure,
                None => {
                    return Err(StorageValueError::InvalidShape);
                },
            };
            let failure_is_published = is_named(expected.published(), failure.generation());
            if failure_is_published && expected.candidate().is_some() {
                updated(
                    rebuild_control(
                        expected,
                        expected.highest_allocated_generation(),
                        expected.published(),
                        expected.candidate(),
                        expected.published_apply_mode(),
                        ProjectionLifecycleV1::Rebuilding,
                        None,
                    ),
                )
            } else {
                let next = match expected.highest_allocated_generation().checked_next() {
                    Some(next) => next,
                    None => {
                        return Ok(ProjectionControlResult::GenerationExhausted);
                    },
                };
                let lifecycle = if expected.published().is_some() {
                    ProjectionLifecycleV1::Rebuilding
                } else {
                    ProjectionLifecycleV1::Building
                };
                updated(
                    rebuild_control(
                        expected,
                        next,
                        expected.published(),
                        Some(
                            ProjectionGenerationPosition::new(next, FrontierPosition::BeforeFirst),
                        ),
                        expected.published_apply_mode(),
                        lifecycle,
                        None,
                    ),
                )
            }
        },
        ProjectionControlOperation::MarkInvalid { .. } => {
            if expected.lifecycle() != ProjectionLifecycleV1::Degraded {
                return Err(StorageValueError::InvalidShape);
            }
            updated(
                rebuild_control(
                    expected,
                    expected.highest_allocated_generation(),
                    expected.published(),
                    expected.candidate(),
                    expected.published_apply_mode(),
                    ProjectionLifecycleV1::Invalid,
                    expected.failure,
                ),
            )
        },
    }
}

fn updated(control: Result<StoredProjectionControlV1, StorageValueError>) -> (result: Result<
    ProjectionControlResult,
    StorageValueError,
>)
    ensures
        match control {
            Ok(value) => result == Ok::<ProjectionControlResult, StorageValueError>(
                ProjectionControlResult::Updated(value),
            ),
            Err(error) => result == Err::<ProjectionControlResult, StorageValueError>(error),
        },
{
    match control {
        Ok(value) => Ok(ProjectionControlResult::Updated(value)),
        Err(error) => Err(error),
    }
}

/// Inserts generation one of an identity only if no control exists.
pub fn evaluate_projection_control_creation(
    current: Option<&StoredProjectionControlV1>,
    identity: &ProjectionIdentity,
) -> (result: Result<ProjectionControlResult, StorageValueError>)
    ensures
        control_result_view(result) == creation_outcome(current_view(current), identity@),
{
    match current {
        Some(existing) => {
            if !existing.identity().same(identity) {
                return Err(StorageValueError::IdentityMismatch);
            }
            Ok(ProjectionControlResult::AlreadyInitialized(existing.clone()))
        },
        None => Ok(
            ProjectionControlResult::Updated(StoredProjectionControlV1::initial(identity.clone())),
        ),
    }
}

fn rebuild_control(
    prior: &StoredProjectionControlV1,
    highest_allocated_generation: ProjectionGeneration,
    published: Option<ProjectionGenerationPosition>,
    candidate: Option<ProjectionGenerationPosition>,
    published_apply_mode: Option<PublishedApplyModeV1>,
    lifecycle: ProjectionLifecycleV1,
    failure: Option<ProjectionFailureV1>,
) -> (result: Result<StoredProjectionControlV1, StorageValueError>)
    ensures
        ({
            let parts = ProjectionControlView {
                identity: prior@.identity,
                highest_allocated_generation,
                published,
                candidate,
                published_apply_mode,
                lifecycle,
                failure,
            };
            match result {
                Ok(value) => parts.shape_valid() && value@ == parts,
                Err(error) => !parts.shape_valid() && error == StorageValueError::InvalidShape,
            }
        }),
{
    StoredProjectionControlV1::new(
        prior.identity().clone(),
        highest_allocated_generation,
        published,
        candidate,
        published_apply_mode,
        lifecycle,
        failure,
    )
}

} // verus!
