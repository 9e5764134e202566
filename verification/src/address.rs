//! Participant and record identifiers: 32-byte keys, compared byte by byte.

use vstd::prelude::*;

verus! {

/// A 32-byte key that names a participant, a record or a payment asset.
pub type Address = [u8; 32];

/// Whether every byte of `bytes` is zero.
pub open spec fn is_zeroed<const N: usize>(bytes: [u8; N]) -> bool {
    forall|i: int| 0 <= i < N ==> bytes[i] == 0
}

/// Whether two keys are the same key.
pub fn same_address(a: &Address, b: &Address) -> (same: bool)
    ensures
        same == (*a == *b),
{
    let mut i: usize = 0;
    while i < 32
        invariant
            i <= 32,
            forall|k: int| 0 <= k < i ==> a[k] == b[k],
        decreases 32 - i,
    {
        if a[i] != b[i] {
            return false;
        }
        i += 1;
    }
    assert(*a =~= *b);
    true
}

/// Whether an optional key is present and equal to `key`.
pub fn is_address(slot: &Option<Address>, key: &Address) -> (same: bool)
    ensures
        same == (*slot == Some(*key)),
{
    match slot {
        Some(held) => same_address(held, key),
        None => false,
    }
}

/// Whether `key` occurs in `list`.
pub fn contains_address(list: &Vec<Address>, key: &Address) -> (found: bool)
    ensures
        found == list@.contains(*key),
{
    let mut i: usize = 0;
    while i < list.len()
        invariant
            i <= list.len(),
            forall|k: int| 0 <= k < i ==> list@[k] != *key,
        decreases list.len() - i,
    {
        if same_address(&list[i], key) {
            return true;
        }
        i += 1;
    }
    false
}

} // verus!
