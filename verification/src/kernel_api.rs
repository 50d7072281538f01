//! What the host kernel hands back to uACPI through the kernel API.
use vstd::prelude::*;

verus! {

/// The address that tells uACPI that a mapping failed.
pub const MAP_FAILED: usize = usize::MAX;

/// The address to hand uACPI for a mapping request: the mapped address, or
/// [`MAP_FAILED`] if the host could not map the range.
pub fn kernel_map_result(mapped: Option<usize>) -> (r: usize)
    ensures
        r == match mapped {
            Some(address) => address,
            None => MAP_FAILED,
        },
{
    match mapped {
        Some(address) => address,
        None => MAP_FAILED,
    }
}

} // verus!
