//! Nonzero identifiers, positions and digests.

use vstd::prelude::*;

verus! {

/// A nonzero position in the authoritative commit log.
#[derive(Clone, Copy, Debug, PartialEq, Eq, Structural)]
pub struct CommitSequence {
    pub value: u64,
}

impl CommitSequence {
    /// Commit positions are counted from one.
    pub open spec fn valid(self) -> bool {
        self.value != 0
    }

    /// Accepts every value but zero.
    pub fn new(value: u64) -> (result: Option<CommitSequence>)
        ensures
            value == 0 ==> result is None,
            value != 0 ==> result == Some(CommitSequence { value }),
    {
        if value == 0 {
            None
        } else {
            Some(CommitSequence { value })
        }
    }

    /// The first commit position.
    pub fn first() -> (result: CommitSequence)
        ensures
            result == (CommitSequence { value: 1 }),
            result.valid(),
    {
        CommitSequence { value: 1 }
    }

    /// The position as an integer.
    pub fn get(self) -> (result: u64)
        ensures
            result == self.value,
    {
        self.value
    }

    /// The next position, unless this is the last one.
    pub fn checked_next(self) -> (result: Option<CommitSequence>)
        ensures
            self.value == u64::MAX ==> result is None,
            self.value < u64::MAX ==> result == Some(
                CommitSequence { value: (self.value + 1) as u64 },
            ),
    {
        if self.value == u64::MAX {
            None
        } else {
            Some(CommitSequence { value: self.value + 1 })
        }
    }
}

/// A nonzero generation of one projection.
#[derive(Clone, Copy, Debug, PartialEq, Eq, Structural)]
pub struct ProjectionGeneration {
    pub value: u64,
}

impl ProjectionGeneration {
    /// Generations are counted from one.
    pub open spec fn valid(self) -> bool {
        self.value != 0
    }

    /// Accepts every value but zero.
    pub fn new(value: u64) -> (result: Option<ProjectionGeneration>)
        ensures
            value == 0 ==> result is None,
            value != 0 ==> result == Some(ProjectionGeneration { value }),
    {
        if value == 0 {
            None
        } else {
            Some(ProjectionGeneration { value })
        }
    }

    /// The first generation.
    pub fn first() -> (result: ProjectionGeneration)
        ensures
            result == (ProjectionGeneration { value: 1 }),
            result.valid(),
    {
        ProjectionGeneration { value: 1 }
    }

    /// The generation as an integer.
    pub fn get(self) -> (result: u64)
        ensures
            result == self.value,
    {
        self.value
    }

    /// The next generation, unless this is the last one.
    pub fn checked_next(self) -> (result: Option<ProjectionGeneration>)
        ensures
            self.value == u64::MAX ==> result is None,
            self.value < u64::MAX ==> result == Some(
                ProjectionGeneration { value: (self.value + 1) as u64 },
            ),
    {
        if self.value == u64::MAX {
            None
        } else {
            Some(ProjectionGeneration { value: self.value + 1 })
        }
    }
}

/// How far a contiguous reader of the commit log has come.
#[derive(Clone, Copy, Debug, PartialEq, Eq, Structural)]
pub enum FrontierPosition {
    /// Nothing is applied.
    BeforeFirst,
    /// Every commit up to and including this one is applied.
    AppliedThrough(CommitSequence),
}

impl FrontierPosition {
    /// The number of commits applied.
    pub open spec fn applied(self) -> nat {
        match self {
            FrontierPosition::BeforeFirst => 0,
            FrontierPosition::AppliedThrough(sequence) => sequence.value as nat,
        }
    }

    /// A frontier names a valid position or none.
    pub open spec fn valid(self) -> bool {
        match self {
            FrontierPosition::BeforeFirst => true,
            FrontierPosition::AppliedThrough(sequence) => sequence.valid(),
        }
    }

    /// Whether this frontier comes before the other: nothing applied comes first.
    pub open spec fn before(self, other: FrontierPosition) -> bool {
        match (self, other) {
            (FrontierPosition::BeforeFirst, FrontierPosition::AppliedThrough(_)) => true,
            (FrontierPosition::AppliedThrough(a), FrontierPosition::AppliedThrough(b)) => a.value
                < b.value,
            _ => false,
        }
    }

    /// Decides whether this frontier comes before the other.
    pub fn is_before(self, other: FrontierPosition) -> (result: bool)
        ensures
            result == self.before(other),
    {
        match (self, other) {
            (FrontierPosition::BeforeFirst, FrontierPosition::AppliedThrough(_)) => true,
            (FrontierPosition::AppliedThrough(a), FrontierPosition::AppliedThrough(b)) => a.value
                < b.value,
            _ => false,
        }
    }
}

/// On valid frontiers the order is that of the number of commits applied.
pub proof fn frontier_order_counts_applied_commits(a: FrontierPosition, b: FrontierPosition)
    requires
        a.valid(),
        b.valid(),
    ensures
        a.before(b) <==> a.applied() < b.applied(),
        a == b <==> a.applied() == b.applied(),
{
}

/// A nonzero 32-bit identifier.
#[derive(Clone, Copy, Debug, PartialEq, Eq, PartialOrd, Ord, Hash, Structural)]
pub struct Id32 {
    pub value: u32,
}

impl Id32 {
    /// Zero names nothing.
    pub open spec fn valid(self) -> bool {
        self.value != 0
    }

    /// Accepts every value but zero.
    pub fn new(value: u32) -> (result: Option<Id32>)
        ensures
            value == 0 ==> result is None,
            value != 0 ==> result == Some(Id32 { value }),
    {
        if value == 0 {
            None
        } else {
            Some(Id32 { value })
        }
    }

    /// The first value.
    pub fn first() -> (result: Id32)
        ensures
            result == (Id32 { value: 1 }),
            result.valid(),
    {
        Id32 { value: 1 }
    }

    /// The value as an integer.
    pub fn get(self) -> (result: u32)
        ensures
            result == self.value,
    {
        self.value
    }

    /// The next value, unless this is the last one.
    pub fn checked_next(self) -> (result: Option<Id32>)
        ensures
            self.value == u32::MAX ==> result is None,
            self.value < u32::MAX ==> result == Some(
                Id32 { value: (self.value + 1) as u32 },
            ),
    {
        if self.value == u32::MAX {
            None
        } else {
            Some(Id32 { value: self.value + 1 })
        }
    }
}

/// A nonzero 64-bit identifier or counter.
#[derive(Clone, Copy, Debug, PartialEq, Eq, PartialOrd, Ord, Hash, Structural)]
pub struct Id64 {
    pub value: u64,
}

impl Id64 {
    /// Zero names nothing.
    pub open spec fn valid(self) -> bool {
        self.value != 0
    }

    /// Accepts every value but zero.
    pub fn new(value: u64) -> (result: Option<Id64>)
        ensures
            value == 0 ==> result is None,
            value != 0 ==> result == Some(Id64 { value }),
    {
        if value == 0 {
            None
        } else {
            Some(Id64 { value })
        }
    }

    /// The first value.
    pub fn first() -> (result: Id64)
        ensures
            result == (Id64 { value: 1 }),
            result.valid(),
    {
        Id64 { value: 1 }
    }

    /// The value as an integer.
    pub fn get(self) -> (result: u64)
        ensures
            result == self.value,
    {
        self.value
    }

    /// The next value, unless this is the last one.
    pub fn checked_next(self) -> (result: Option<Id64>)
        ensures
            self.value == u64::MAX ==> result is None,
            self.value < u64::MAX ==> result == Some(
                Id64 { value: (self.value + 1) as u64 },
            ),
    {
        if self.value == u64::MAX {
            None
        } else {
            Some(Id64 { value: self.value + 1 })
        }
    }
}

/// Names an entity type of a contract.
pub type EntityTypeId = Id32;

/// Names an index of a contract.
pub type IndexId = Id32;

/// Names an event type of a contract.
pub type EventTypeId = Id32;

/// Names a declared outcome of a contract.
pub type OutcomeId = Id32;

/// Names a command of a contract.
pub type CommandId = Id32;

/// Names a projection of a contract.
pub type ProjectionId = Id32;

/// Names a field of a contract.
pub type FieldId = Id32;

/// Names a digest key.
pub type DigestKeyId = Id32;

/// Counts the versions of one entity.
pub type EntityVersion = Id64;

/// Counts the versions of one contract.
pub type ContractVersion = Id64;

/// Counts the epochs of one index range.
pub type IndexEpoch = Id64;

/// Counts administrative changes.
pub type AdministrationSequence = Id64;

/// One durable event: its commit and its place within the commit.
#[derive(Clone, Copy, Debug, PartialEq, Eq, Structural)]
pub struct EventId {
    pub commit_sequence: CommitSequence,
    pub event_ordinal: u32,
}

impl EventId {
    /// An event belongs to a valid commit.
    pub open spec fn valid(self) -> bool {
        self.commit_sequence.valid()
    }

    /// Events are ordered by commit, then by place.
    pub open spec fn before(self, other: EventId) -> bool {
        self.commit_sequence.value < other.commit_sequence.value || (self.commit_sequence
            == other.commit_sequence && self.event_ordinal < other.event_ordinal)
    }

    /// Names one event of one commit.
    pub fn new(commit_sequence: CommitSequence, event_ordinal: u32) -> (result: EventId)
        ensures
            result == (EventId { commit_sequence, event_ordinal }),
    {
        EventId { commit_sequence, event_ordinal }
    }

    /// The event's commit.
    pub fn commit_sequence(self) -> (result: CommitSequence)
        ensures
            result == self.commit_sequence,
    {
        self.commit_sequence
    }

    /// The event's place within its commit.
    pub fn event_ordinal(self) -> (result: u32)
        ensures
            result == self.event_ordinal,
    {
        self.event_ordinal
    }

    /// Decides whether this event comes before the other.
    pub fn is_before(self, other: EventId) -> (result: bool)
        ensures
            result == self.before(other),
    {
        self.commit_sequence.value < other.commit_sequence.value || (self.commit_sequence
            == other.commit_sequence && self.event_ordinal < other.event_ordinal)
    }
}

/// A point in time: seconds and the nanoseconds within the second.
#[derive(Clone, Copy, Debug, PartialEq, Eq, Structural)]
pub struct Timestamp {
    pub seconds: i64,
    pub nanoseconds: u32,
}

/// Nanoseconds in one second.
pub const NANOSECONDS_PER_SECOND: u32 = 1_000_000_000;

impl Timestamp {
    /// The nanoseconds stay within one second.
    pub open spec fn valid(self) -> bool {
        self.nanoseconds < NANOSECONDS_PER_SECOND
    }

    /// Accepts nanoseconds within one second.
    pub fn new(seconds: i64, nanoseconds: u32) -> (result: Option<Timestamp>)
        ensures
            nanoseconds >= NANOSECONDS_PER_SECOND ==> result is None,
            nanoseconds < NANOSECONDS_PER_SECOND ==> result == Some(
                Timestamp { seconds, nanoseconds },
            ),
    {
        if nanoseconds >= NANOSECONDS_PER_SECOND {
            None
        } else {
            Some(Timestamp { seconds, nanoseconds })
        }
    }
}

/// A 256-bit digest.
#[derive(Clone, Copy, Debug, PartialEq, Eq, PartialOrd, Ord, Hash)]
pub struct Digest {
    pub bytes: [u8; 32],
}

impl Digest {
    /// Wraps the digest's bytes.
    pub fn from_bytes(bytes: [u8; 32]) -> (result: Digest)
        ensures
            result == (Digest { bytes }),
    {
        Digest { bytes }
    }

    /// The digest's bytes.
    pub fn as_bytes(&self) -> (result: &[u8; 32])
        ensures
            *result == self.bytes,
    {
        &self.bytes
    }

    /// Decides equality of two digests.
    pub fn same(&self, other: &Digest) -> (result: bool)
        ensures
            result == (*self == *other),
    {
        let mut i: usize = 0;
        while i < 32
            invariant
                i <= 32,
                forall|k: int| 0 <= k < i ==> self.bytes[k] == other.bytes[k],
            decreases 32 - i,
        {
            if self.bytes[i] != other.bytes[i] {
                return false;
            }
            i += 1;
        }
        assert(self.bytes =~= other.bytes);
        true
    }
}

} // verus!
