//! Encoded bytes of one command's write set, by record class.

use vstd::prelude::*;

use crate::limits::MAX_STAGED_WRITE_BYTES;
use crate::value_error::StorageValueError;

verus! {

/// Encoded bytes by record class, not yet known to add up to a word.
#[derive(Clone, Copy, Debug, PartialEq, Eq, Structural)]
pub struct RawWriteClassBreakdownV1 {
    pub allocator: usize,
    pub pending_resolution: usize,
    pub entities: usize,
    pub index_entries: usize,
    pub index_epochs: usize,
    pub outcome: usize,
    pub events: usize,
    pub outbox_intents: usize,
    pub provenance: usize,
    pub commit: usize,
}

impl RawWriteClassBreakdownV1 {
    /// The bytes of all classes.
    pub open spec fn sum(self) -> nat {
        (self.allocator + self.pending_resolution + self.entities + self.index_entries
            + self.index_epochs + self.outcome + self.events + self.outbox_intents + self.provenance
            + self.commit) as nat
    }

    /// Whether each class holds at most as many bytes as another's.
    pub open spec fn within(self, other: RawWriteClassBreakdownV1) -> bool {
        &&& self.allocator <= other.allocator
        &&& self.pending_resolution <= other.pending_resolution
        &&& self.entities <= other.entities
        &&& self.index_entries <= other.index_entries
        &&& self.index_epochs <= other.index_epochs
        &&& self.outcome <= other.outcome
        &&& self.events <= other.events
        &&& self.outbox_intents <= other.outbox_intents
        &&& self.provenance <= other.provenance
        &&& self.commit <= other.commit
    }

    /// Whether each class holds at most as many bytes as another's.
    pub fn is_within(self, other: RawWriteClassBreakdownV1) -> (result: bool)
        ensures
            result == self.within(other),
    {
        self.allocator <= other.allocator && self.pending_resolution <= other.pending_resolution
            && self.entities <= other.entities && self.index_entries <= other.index_entries
            && self.index_epochs <= other.index_epochs && self.outcome <= other.outcome
            && self.events <= other.events && self.outbox_intents <= other.outbox_intents
            && self.provenance <= other.provenance && self.commit <= other.commit
    }
}

/// Encoded bytes by record class, whose sum fits a word.
#[derive(Clone, Copy, Debug, PartialEq, Eq, Structural)]
pub struct CommandWriteClassBreakdownV1 {
    pub classes: RawWriteClassBreakdownV1,
}

impl CommandWriteClassBreakdownV1 {
    /// The classes add up to a word.
    pub open spec fn wf(self) -> bool {
        self.classes.sum() <= usize::MAX
    }

    /// Accepts every breakdown whose sum fits a word.
    pub fn new(classes: RawWriteClassBreakdownV1) -> (result: Result<
        CommandWriteClassBreakdownV1,
        StorageValueError,
    >)
        ensures
            classes.sum() <= usize::MAX
                ==> result == Ok::<CommandWriteClassBreakdownV1, StorageValueError>(
                CommandWriteClassBreakdownV1 { classes },
            ),
            classes.sum() > usize::MAX ==> result == Err::<CommandWriteClassBreakdownV1, _>(
                StorageValueError::SizeOverflow,
            ),
    {
        let mut total: usize = 0;
        let parts: [usize; 10] = [
            classes.allocator,
            classes.pending_resolution,
            classes.entities,
            classes.index_entries,
            classes.index_epochs,
            classes.outcome,
            classes.events,
            classes.outbox_intents,
            classes.provenance,
            classes.commit,
        ];
        let mut i: usize = 0;
        proof {
            reveal_with_fuel(sum_of, 11);
            assert(sum_of(parts@, 10) == classes.sum());
        }
        while i < 10
            invariant
                i <= 10,
                parts@.len() == 10,
                sum_of(parts@, 10) == classes.sum(),
                total == sum_of(parts@, i as nat),
            decreases 10 - i,
        {
            proof {
                sum_of_grows(parts@, (i + 1) as nat, 10);
            }
            match total.checked_add(parts[i]) {
                Some(next) => {
                    total = next;
                },
                None => return Err(StorageValueError::SizeOverflow),
            }
            i += 1;
        }
        Ok(CommandWriteClassBreakdownV1 { classes })
    }

    /// The bytes of all classes.
    pub fn total(self) -> (result: usize)
        requires
            self.wf(),
        ensures
            result == self.classes.sum(),
    {
        let classes = self.classes;
        classes.allocator + classes.pending_resolution + classes.entities + classes.index_entries
            + classes.index_epochs + classes.outcome + classes.events + classes.outbox_intents
            + classes.provenance + classes.commit
    }
}

/// The sum of the first of some words.
pub open spec fn sum_of(parts: Seq<usize>, count: nat) -> nat
    decreases count,
{
    if count == 0 || count > parts.len() {
        0
    } else {
        sum_of(parts, (count - 1) as nat) + parts[count - 1] as nat
    }
}

/// A breakdown counts each of its ten classes once, and is within another exactly when
/// each class is.
pub proof fn every_class_counts_once(
    classes: RawWriteClassBreakdownV1,
    other: RawWriteClassBreakdownV1,
)
    ensures
        ({
            let own = seq![
                classes.allocator,
                classes.pending_resolution,
                classes.entities,
                classes.index_entries,
                classes.index_epochs,
                classes.outcome,
                classes.events,
                classes.outbox_intents,
                classes.provenance,
                classes.commit,
            ];
            let others = seq![
                other.allocator,
                other.pending_resolution,
                other.entities,
                other.index_entries,
                other.index_epochs,
                other.outcome,
                other.events,
                other.outbox_intents,
                other.provenance,
                other.commit,
            ];
            &&& classes.sum() == sum_of(own, 10)
            &&& classes.within(other) <==> forall|i: int|
                0 <= i < 10 ==> #[trigger] own[i] <= others[i]
        }),
{
    reveal_with_fuel(sum_of, 11);
    let own = seq![
        classes.allocator,
        classes.pending_resolution,
        classes.entities,
        classes.index_entries,
        classes.index_epochs,
        classes.outcome,
        classes.events,
        classes.outbox_intents,
        classes.provenance,
        classes.commit,
    ];
    assert(own[0] == classes.allocator && own[1] == classes.pending_resolution);
    assert(own[2] == classes.entities && own[3] == classes.index_entries);
    assert(own[4] == classes.index_epochs && own[5] == classes.outcome);
    assert(own[6] == classes.events && own[7] == classes.outbox_intents);
    assert(own[8] == classes.provenance && own[9] == classes.commit);
}

proof fn sum_of_grows(parts: Seq<usize>, a: nat, b: nat)
    requires
        a <= b <= parts.len(),
    ensures
        sum_of(parts, a) <= sum_of(parts, b),
    decreases b,
{
    if a < b {
        sum_of_grows(parts, a, (b - 1) as nat);
    }
}

/// A reservation: encoded bytes by record class that stay within the staged write
/// limit.
#[derive(Clone, Copy, Debug, PartialEq, Eq, Structural)]
pub struct EncodedWriteSetUpperBound {
    pub classes: CommandWriteClassBreakdownV1,
}

impl EncodedWriteSetUpperBound {
    /// The classes add up to no more than the staged write limit.
    pub open spec fn wf(self) -> bool {
        self.classes.classes.sum() <= MAX_STAGED_WRITE_BYTES
    }

    /// Accepts every breakdown within the staged write limit.
    pub fn new(classes: CommandWriteClassBreakdownV1) -> (result: Result<
        EncodedWriteSetUpperBound,
        StorageValueError,
    >)
        requires
            classes.wf(),
        ensures
            classes.classes.sum() <= MAX_STAGED_WRITE_BYTES ==> result == Ok::<
                EncodedWriteSetUpperBound,
                StorageValueError,
            >(EncodedWriteSetUpperBound { classes }),
            classes.classes.sum() > MAX_STAGED_WRITE_BYTES ==> result == Err::<
                EncodedWriteSetUpperBound,
                StorageValueError,
            >(StorageValueError::LimitExceeded),
    {
        if classes.total() > MAX_STAGED_WRITE_BYTES {
            Err(StorageValueError::LimitExceeded)
        } else {
            Ok(EncodedWriteSetUpperBound { classes })
        }
    }

    /// The reserved bytes by record class.
    pub fn classes(self) -> (result: CommandWriteClassBreakdownV1)
        ensures
            result == self.classes,
    {
        self.classes
    }

    /// The reserved bytes.
    pub fn total(self) -> (result: usize)
        requires
            self.wf(),
        ensures
            result == self.classes.classes.sum(),
    {
        self.classes.total()
    }
}

} // verus!
