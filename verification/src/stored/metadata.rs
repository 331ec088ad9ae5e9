//! Database metadata records.

use vstd::prelude::*;

use crate::codec::parts::Identifier;
use crate::ids::{CommitSequence, Digest, Id64};

verus! {

/// A supported storage format version.
#[derive(Clone, Copy, Debug, PartialEq, Eq)]
pub struct StorageFormatVersion {
    pub version: u32,
}

/// The digest of the record registry.
#[derive(Clone, Copy, Debug, PartialEq, Eq)]
pub struct RecordRegistryDigest {
    pub digest: Digest,
}

/// The permanent identity of a database.
#[derive(Clone, Copy, Debug, PartialEq, Eq)]
pub struct DatabaseIdentity {
    pub database_id: Identifier,
}

/// The allocator of commit positions.
#[derive(Clone, Copy, Debug, PartialEq, Eq)]
pub enum ApplicationSequenceAllocator {
    Next(CommitSequence),
    Exhausted,
}

/// The allocator of administrative positions.
#[derive(Clone, Copy, Debug, PartialEq, Eq)]
pub enum AdministrationSequenceAllocator {
    Next(Id64),
    Exhausted,
}

} // verus!
