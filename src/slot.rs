use vstd::prelude::*;

use crate::error::HookError;

verus! {

/// Per-hook storage for the captured original function's address: written
/// once, when the hook is installed, and read on every call through it.
pub struct HookSlot {
    orig: Option<u64>,
}

impl HookSlot {
    /// The captured address, if the hook has been installed.
    pub closed spec fn captured(&self) -> Option<u64> {
        self.orig
    }

    /// A slot that holds nothing yet.
    pub fn new() -> (s: HookSlot)
        ensures
            s.captured() is None,
    {
        HookSlot { orig: None }
    }

    /// Whether an original has been captured.
    pub fn is_set(&self) -> (r: bool)
        ensures
            r == self.captured() is Some,
    {
        self.orig.is_some()
    }

    /// The captured original, or `OriginalNotCaptured` before installation.
    pub fn read(&self) -> (r: Result<u64, HookError>)
        ensures
            self.captured() is None ==> r == Err::<u64, HookError>(HookError::OriginalNotCaptured),
            self.captured() is Some ==> r == Ok::<u64, HookError>(self.captured()->0),
    {
        match self.orig {
            Some(p) => Ok(p),
            None => Err(HookError::OriginalNotCaptured),
        }
    }

    /// Writes the captured original. A slot is written once: a second write
    /// fails with `AlreadyHooked` and leaves the slot as it was.
    pub fn store(&mut self, orig: u64) -> (r: Result<(), HookError>)
        ensures
            old(self).captured() is None ==> r is Ok && final(self).captured() == Some(orig),
            old(self).captured() is Some ==> r == Err::<(), HookError>(HookError::AlreadyHooked)
                && final(self).captured() == old(self).captured(),
    {
        if self.orig.is_some() {
            Err(HookError::AlreadyHooked)
        } else {
            self.orig = Some(orig);
            Ok(())
        }
    }
}

/// A call of the trampoline: the replacement is invoked with the captured
/// original first and the trampoline's own arguments after it, in order.
/// Before installation the call fails with `OriginalNotCaptured`.
pub fn trampoline_call<A>(slot: &HookSlot, args: A) -> (r: Result<(u64, A), HookError>)
    ensures
        slot.captured() is None ==> r is Err && r->Err_0 == HookError::OriginalNotCaptured,
        slot.captured() is Some ==> r is Ok && r->Ok_0.0 == slot.captured()->0 && r->Ok_0.1
            == args,
{
    match slot.read() {
        Ok(orig) => Ok((orig, args)),
        Err(e) => Err(e),
    }
}

} // verus!
