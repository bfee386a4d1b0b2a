//! The one-shot compute run: what the device is expected to leave in the
//! data buffer.
//!
//! The buffer starts as 0, 1, 2, ... and the shader multiplies every
//! element by 12.

use vstd::prelude::*;

verus! {

/// The factor the shader multiplies every element by.
pub const FACTOR: u32 = 12;

/// The value expected at `index` after the run.
pub open spec fn expected_value(index: int) -> int {
    12 * index
}

/// `content` holds the expected value at every index below `end`.
pub open spec fn matches_up_to(content: Seq<u32>, end: int) -> bool {
    forall|i: int| 0 <= i < end ==> #[trigger] content[i] == expected_value(i)
}

/// The first index at which `content` does not hold the expected value, or
/// `None` if it holds it everywhere.
pub fn first_mismatch(content: &[u32]) -> (mismatch: Option<usize>)
    ensures
        mismatch is None <==> matches_up_to(content@, content@.len() as int),
        mismatch matches Some(index) ==> index < content@.len() && matches_up_to(
            content@,
            index as int,
        ) && content@[index as int] != expected_value(index as int),
{
    let mut index: usize = 0;
    while index < content.len()
        invariant
            index <= content@.len(),
            matches_up_to(content@, index as int),
        decreases content@.len() - index,
    {
        let value: u32 = content[index];
        if value % FACTOR != 0 || (value / FACTOR) as usize != index {
            return Some(index);
        }
        index += 1;
    }
    None
}

} // verus!
