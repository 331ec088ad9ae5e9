//! Pages of decoded values and the encoded bytes that they are charged for.

use vstd::prelude::*;

use crate::value_error::StorageValueError;

verus! {

/// A nonzero limit on the rows of one page.
#[derive(Clone, Copy, Debug, PartialEq, Eq, PartialOrd, Ord, Hash, Structural)]
pub struct NonZeroLimit {
    pub value: u16,
}

impl NonZeroLimit {
    /// Limits admit at least one row.
    pub open spec fn valid(self) -> bool {
        self.value != 0
    }

    /// Accepts every value but zero.
    pub fn new(value: u16) -> (result: Option<NonZeroLimit>)
        ensures
            value == 0 ==> result is None,
            value != 0 ==> result == Some(NonZeroLimit { value }),
    {
        if value == 0 {
            None
        } else {
            Some(NonZeroLimit { value })
        }
    }

    /// The limit as an integer.
    pub fn get(self) -> (result: u16)
        ensures
            result == self.value,
    {
        self.value
    }
}

/// The nonzero number of encoded bytes that one value is charged for.
#[derive(Clone, Copy, Debug, PartialEq, Eq, Structural)]
pub struct EncodedContentCharge {
    pub bytes: usize,
}

impl EncodedContentCharge {
    /// Accepts every charge but zero.
    pub fn new(bytes: usize) -> (result: Option<EncodedContentCharge>)
        ensures
            bytes == 0 ==> result is None,
            bytes != 0 ==> result == Some(EncodedContentCharge { bytes }),
    {
        if bytes == 0 {
            None
        } else {
            Some(EncodedContentCharge { bytes })
        }
    }

    /// The charged bytes.
    pub fn get(self) -> (result: usize)
        ensures
            result == self.bytes,
    {
        self.bytes
    }
}

/// One decoded value and the encoded bytes that it is charged for.
#[derive(Clone, Debug, PartialEq, Eq)]
pub struct EncodedPageItem<T> {
    pub value: T,
    pub charge: EncodedContentCharge,
}

impl<T> EncodedPageItem<T> {
    /// Joins a value to its charge.
    pub fn new(value: T, charge: EncodedContentCharge) -> (result: Self)
        ensures
            result == (EncodedPageItem { value, charge }),
    {
        EncodedPageItem { value, charge }
    }

    /// Borrows the value.
    pub fn value(&self) -> (result: &T)
        ensures
            *result == self.value,
    {
        &self.value
    }

    /// Returns the charge.
    pub fn encoded_content_charge(&self) -> (result: EncodedContentCharge)
        ensures
            result == self.charge,
    {
        self.charge
    }

    /// Takes value and charge apart.
    pub fn into_parts(self) -> (result: (T, EncodedContentCharge))
        ensures
            result == (self.value, self.charge),
    {
        (self.value, self.charge)
    }
}

/// The bytes that a page's items are charged for.
pub open spec fn page_charge<T>(items: Seq<EncodedPageItem<T>>) -> nat
    decreases items.len(),
{
    if items.len() == 0 {
        0
    } else {
        page_charge(items.drop_last()) + items.last().charge.bytes as nat
    }
}

/// Leading items are never charged more than all of them.
pub proof fn leading_items_charge_less<T>(items: Seq<EncodedPageItem<T>>, count: int)
    requires
        0 <= count <= items.len(),
    ensures
        page_charge(items.take(count)) <= page_charge(items),
    decreases items.len() - count,
{
    if count == items.len() {
        assert(items.take(count) =~= items);
    } else {
        leading_items_charge_less(items, count + 1);
        assert(items.take(count + 1).drop_last() =~= items.take(count));
    }
}

/// Adds up a page's charges and holds them to a bound.
pub fn checked_encoded_page_content<T>(
    items: &[EncodedPageItem<T>],
    maximum: usize,
) -> (result: Result<usize, StorageValueError>)
    ensures
        result == if page_charge(items@) > usize::MAX {
            Err::<usize, StorageValueError>(StorageValueError::SizeOverflow)
        } else if page_charge(items@) > maximum {
            Err(StorageValueError::LimitExceeded)
        } else {
            Ok(page_charge(items@) as usize)
        },
{
    let mut total: usize = 0;
    let mut i: usize = 0;
    while i < items.len()
        invariant
            i <= items@.len(),
            total == page_charge(items@.take(i as int)),
        decreases items@.len() - i,
    {
        proof {
            leading_items_charge_less(items@, i as int + 1);
            assert(items@.take(i as int + 1).drop_last() =~= items@.take(i as int));
        }
        match total.checked_add(items[i].charge.bytes) {
            Some(next) => {
                total = next;
            },
            None => {
                return Err(StorageValueError::SizeOverflow);
            },
        }
        i += 1;
    }
    assert(items@.take(i as int) =~= items@);
    if total > maximum {
        return Err(StorageValueError::LimitExceeded);
    }
    Ok(total)
}

/// A page's charge is that of its items: an empty page has none, and every further item
/// adds its own.
pub proof fn pages_are_charged_item_by_item<T>(
    items: Seq<EncodedPageItem<T>>,
    item: EncodedPageItem<T>,
)
    ensures
        page_charge(Seq::<EncodedPageItem<T>>::empty()) == 0,
        page_charge(items.push(item)) == page_charge(items) + item.charge.bytes,
{
    assert(items.push(item).drop_last() =~= items);
}

} // verus!
