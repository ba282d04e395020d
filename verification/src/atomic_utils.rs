//! The sequence-number fence primitive.

use vstd::prelude::*;

verus! {

/// Advances the counter to `new` when `new` is at least the current value,
/// handing back the value it replaced; otherwise reports the current value
/// unchanged.
pub fn compare_and_swap_gte(counter: &mut u32, new: u32) -> (r: Result<u32, u32>)
    ensures
        new >= *old(counter) ==> r == Result::<u32, u32>::Ok(*old(counter)) && *final(counter)
            == new,
        new < *old(counter) ==> r == Result::<u32, u32>::Err(*old(counter)) && *final(counter)
            == *old(counter),
{
    let current = *counter;
    if new >= current {
        *counter = new;
        Ok(current)
    } else {
        Err(current)
    }
}

} // verus!
