//! Closed failures of checked storage values.

use vstd::prelude::*;

verus! {

/// Why a storage value was refused.
#[derive(Clone, Copy, Debug, PartialEq, Eq, Structural)]
pub enum StorageValueError {
    /// A required collection or text is empty.
    Empty,
    /// A hard count or size limit is exceeded.
    LimitExceeded,
    /// Items are not in their canonical order.
    NonCanonicalOrder,
    /// An item occurs twice.
    Duplicate,
    /// Two parts name different identities.
    IdentityMismatch,
    /// The parts do not form an accepted value.
    InvalidShape,
    /// A size does not fit the machine's word.
    SizeOverflow,
}

} // verus!
