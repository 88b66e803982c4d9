//! Sizes of memory.

use vstd::prelude::*;

verus! {

/// `mb` mebibytes in bytes, cut to the range of `u64`.
pub open spec fn mebibytes(mb: u64) -> u64 {
    if mb * 1048576 > u64::MAX {
        u64::MAX
    } else {
        (mb * 1048576) as u64
    }
}

/// `mb` mebibytes in bytes, cut to the range of `u64`.
pub fn mebibytes_to_bytes(mb: u64) -> (bytes: u64)
    ensures
        bytes == mebibytes(mb),
{
    if mb > u64::MAX / 1048576 {
        u64::MAX
    } else {
        mb * 1048576
    }
}

} // verus!
