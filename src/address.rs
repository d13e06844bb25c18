use vstd::prelude::*;

use crate::error::HookError;

verus! {

/// The absolute address that `offset` denotes in a module loaded at `base`.
pub open spec fn absolute(base: u64, offset: u32) -> int {
    base as int + offset as int
}

/// Resolves `offset` into the module loaded at `base`: the exact sum, or
/// `OffsetOverflow` where the sum does not fit in 64 bits (never wrapped).
pub fn bs_offset(base: u64, offset: u32) -> (r: Result<u64, HookError>)
    ensures
        absolute(base, offset) <= u64::MAX ==> r == Ok::<u64, HookError>(
            absolute(base, offset) as u64,
        ),
        absolute(base, offset) > u64::MAX ==> r == Err::<u64, HookError>(HookError::OffsetOverflow),
{
    base.checked_add(offset as u64).ok_or(HookError::OffsetOverflow)
}

/// The address handed to the hooking engine, whose addresses are 32 bits wide:
/// the exact sum, or `OffsetOverflow` where it does not fit in 32 bits.
pub fn engine_target(base: u64, offset: u32) -> (r: Result<u32, HookError>)
    ensures
        absolute(base, offset) <= u32::MAX ==> r == Ok::<u32, HookError>(
            absolute(base, offset) as u32,
        ),
        absolute(base, offset) > u32::MAX ==> r == Err::<u32, HookError>(HookError::OffsetOverflow),
{
    match bs_offset(base, offset) {
        Ok(a) => {
            if a <= u32::MAX as u64 {
                Ok(a as u32)
            } else {
                Err(HookError::OffsetOverflow)
            }
        },
        Err(e) => Err(e),
    }
}

} // verus!
