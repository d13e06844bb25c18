use vstd::prelude::*;

verus! {

/// Why a hook could not be installed or called through.
#[derive(Debug, Clone, Copy, PartialEq, Eq, Structural)]
pub enum HookError {
    /// The module could not be made resident in the process.
    ModuleNotFound,
    /// The module is loaded, but no memory mapping names it.
    MappingNotFound,
    /// The base address plus the offset does not fit the address width.
    OffsetOverflow,
    /// The hooking engine reports the target as already hooked or registered.
    AlreadyHooked,
    /// The hooking engine reports the target as not executable.
    NotExecutable,
    /// The hooking engine could not register the hook.
    RegistrationFailed,
    /// The hooking engine could not patch the target.
    PatchFailed,
    /// The original function was called through before it was captured.
    OriginalNotCaptured,
}

} // verus!
